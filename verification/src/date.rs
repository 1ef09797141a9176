use vstd::prelude::*;

use crate::digits::{dec_str, parseable_u32, parsed_u32, zero_pad};
use crate::digits::{parse_u32, u32_to_dec_pad};
use crate::text::{chars_of, copy_range, string_from_chars};

verus! {

/// A calendar month, with a fallback for codes outside 1 through 12.
#[derive(Clone, Copy, Debug, PartialEq, Eq, Structural)]
pub enum Month {
    Unknown,
    Jan,
    Feb,
    Mar,
    Apr,
    May,
    Jun,
    Jul,
    Aug,
    Sep,
    Oct,
    Nov,
    Dec,
}

/// The numeric code a month is stored and printed as.
pub open spec fn month_code(m: Month) -> int {
    match m {
        Month::Unknown => 0,
        Month::Jan => 1,
        Month::Feb => 2,
        Month::Mar => 3,
        Month::Apr => 4,
        Month::May => 5,
        Month::Jun => 6,
        Month::Jul => 7,
        Month::Aug => 8,
        Month::Sep => 9,
        Month::Oct => 10,
        Month::Nov => 11,
        Month::Dec => 12,
    }
}

/// The month a numeric code denotes; codes outside 1 through 12 give
/// `Unknown`.
pub open spec fn month_from_code(c: int) -> Month {
    if c == 1 {
        Month::Jan
    } else if c == 2 {
        Month::Feb
    } else if c == 3 {
        Month::Mar
    } else if c == 4 {
        Month::Apr
    } else if c == 5 {
        Month::May
    } else if c == 6 {
        Month::Jun
    } else if c == 7 {
        Month::Jul
    } else if c == 8 {
        Month::Aug
    } else if c == 9 {
        Month::Sep
    } else if c == 10 {
        Month::Oct
    } else if c == 11 {
        Month::Nov
    } else if c == 12 {
        Month::Dec
    } else {
        Month::Unknown
    }
}

impl Month {
    /// The storage code of this month.
    pub fn to_code(&self) -> (r: u32)
        ensures
            r == month_code(*self),
    {
        match self {
            Month::Unknown => 0,
            Month::Jan => 1,
            Month::Feb => 2,
            Month::Mar => 3,
            Month::Apr => 4,
            Month::May => 5,
            Month::Jun => 6,
            Month::Jul => 7,
            Month::Aug => 8,
            Month::Sep => 9,
            Month::Oct => 10,
            Month::Nov => 11,
            Month::Dec => 12,
        }
    }

    /// The month a storage code denotes.
    pub fn from_code(c: u32) -> (r: Month)
        ensures
            r == month_from_code(c as int),
    {
        match c {
            1 => Month::Jan,
            2 => Month::Feb,
            3 => Month::Mar,
            4 => Month::Apr,
            5 => Month::May,
            6 => Month::Jun,
            7 => Month::Jul,
            8 => Month::Aug,
            9 => Month::Sep,
            10 => Month::Oct,
            11 => Month::Nov,
            12 => Month::Dec,
            _ => Month::Unknown,
        }
    }

    /// The short display name of this month.
    pub fn label(&self) -> (r: &'static str)
        ensures
            r@ == match *self {
                Month::Unknown => "Unknown"@,
                Month::Jan => "Jan"@,
                Month::Feb => "Feb"@,
                Month::Mar => "Mar"@,
                Month::Apr => "Apr"@,
                Month::May => "May"@,
                Month::Jun => "Jun"@,
                Month::Jul => "Jul"@,
                Month::Aug => "Aug"@,
                Month::Sep => "Sep"@,
                Month::Oct => "Oct"@,
                Month::Nov => "Nov"@,
                Month::Dec => "Dec"@,
            },
    {
        match self {
            Month::Unknown => "Unknown",
            Month::Jan => "Jan",
            Month::Feb => "Feb",
            Month::Mar => "Mar",
            Month::Apr => "Apr",
            Month::May => "May",
            Month::Jun => "Jun",
            Month::Jul => "Jul",
            Month::Aug => "Aug",
            Month::Sep => "Sep",
            Month::Oct => "Oct",
            Month::Nov => "Nov",
            Month::Dec => "Dec",
        }
    }
}

/// The month code mapping round-trips: every month survives code and back,
/// and every in-range code survives month and back.
pub proof fn lemma_month_code_round_trip()
    ensures
        forall|m: Month| month_from_code(month_code(m)) == m,
        forall|c: int| 1 <= c <= 12 ==> month_code(month_from_code(c)) == c,
{
}

/// A gig's date: a year, month, day triple.
#[derive(Clone, Copy, Debug, PartialEq, Eq, Structural)]
pub struct Date {
    pub date: u32,
    pub month: Month,
    pub year: u32,
}

/// Chronological order on dates: year, then month, then day.
pub open spec fn date_le(a: Date, b: Date) -> bool {
    if a.year != b.year {
        a.year < b.year
    } else if month_code(a.month) != month_code(b.month) {
        month_code(a.month) < month_code(b.month)
    } else {
        a.date <= b.date
    }
}

/// Exactly two slashes stand in `s`, at positions `p1` and `p2`.
pub open spec fn two_slashes_at(s: Seq<char>, p1: int, p2: int) -> bool {
    &&& 0 <= p1 < p2 < s.len()
    &&& s[p1] == '/'
    &&& s[p2] == '/'
    &&& forall|k: int| 0 <= k < s.len() && k != p1 && k != p2 ==> s[k] != '/'
}

/// A structurally valid date string: exactly three slash-separated
/// segments, each parseable as a `u32`.
pub open spec fn valid_date_chars(s: Seq<char>) -> bool {
    exists|p1: int, p2: int|
        {
            &&& #[trigger] two_slashes_at(s, p1, p2)
            &&& parseable_u32(s.subrange(0, p1))
            &&& parseable_u32(s.subrange(p1 + 1, p2))
            &&& parseable_u32(s.subrange(p2 + 1, s.len() as int))
        }
}

/// The slash positions of a string with exactly two of them are unique.
pub proof fn lemma_two_slashes_unique(s: Seq<char>, a1: int, a2: int, b1: int, b2: int)
    requires
        two_slashes_at(s, a1, a2),
        two_slashes_at(s, b1, b2),
    ensures
        a1 == b1,
        a2 == b2,
{
    assert(s[b1] == '/');
    assert(s[b2] == '/');
}

/// The slash positions of a valid date string.
pub open spec fn date_slashes(s: Seq<char>) -> (int, int) {
    choose|p1: int, p2: int| two_slashes_at(s, p1, p2)
}

/// The year value a valid date string denotes.
pub open spec fn date_year_val(s: Seq<char>) -> int {
    parsed_u32(s.subrange(0, date_slashes(s).0))
}

/// The month value a valid date string denotes.
pub open spec fn date_month_val(s: Seq<char>) -> int {
    parsed_u32(s.subrange(date_slashes(s).0 + 1, date_slashes(s).1))
}

/// The day value a valid date string denotes.
pub open spec fn date_day_val(s: Seq<char>) -> int {
    parsed_u32(s.subrange(date_slashes(s).1 + 1, s.len() as int))
}

/// The printed form of a date: the year zero-padded to four places and the
/// month code and day each zero-padded to two, joined by slashes.
pub open spec fn date_chars(d: Date) -> Seq<char> {
    zero_pad(dec_str(d.year as int), 4) + seq!['/'] + zero_pad(dec_str(month_code(d.month)), 2)
        + seq!['/'] + zero_pad(dec_str(d.date as int), 2)
}

impl Date {
    /// Reads a date out of its string form: `None` exactly when the string
    /// is not three slash-separated `u32`-parseable segments.
    pub fn parse(raw: &str) -> (r: Option<Date>)
        ensures
            r is Some <==> valid_date_chars(raw@),
            r is Some ==> {
                let d = r->Some_0;
                &&& d.year == date_year_val(raw@)
                &&& d.month == month_from_code(date_month_val(raw@))
                &&& d.date == date_day_val(raw@)
            },
    {
        let cs = chars_of(raw);
        let n = cs.len();
        let mut count: usize = 0;
        let mut p1: usize = 0;
        let mut p2: usize = 0;
        let mut i: usize = 0;
        while i < n
            invariant
                n == cs@.len(),
                0 <= i <= n,
                count <= i,
                count == 0 ==> forall|k: int| 0 <= k < i ==> cs@[k] != '/',
                count == 1 ==> p1 < i && cs@[p1 as int] == '/' && forall|k: int|
                    0 <= k < i && k != p1 ==> cs@[k] != '/',
                count == 2 ==> p1 < p2 < i && cs@[p1 as int] == '/' && cs@[p2 as int] == '/'
                    && forall|k: int| 0 <= k < i && k != p1 && k != p2 ==> cs@[k] != '/',
                count >= 3 ==> p1 < p2 < i && cs@[p1 as int] == '/' && cs@[p2 as int] == '/'
                    && exists|q: int| p2 < q < i && cs@[q] == '/',
            decreases n - i,
        {
            if cs[i] == '/' {
                if count == 0 {
                    p1 = i;
                } else if count == 1 {
                    p2 = i;
                }
                count += 1;
            }
            i += 1;
        }
        if count != 2 {
            proof {
                assert(cs@ == raw@);
                assert(!valid_date_chars(raw@)) by {
                    if valid_date_chars(raw@) {
                        let (q1, q2) = choose|q1: int, q2: int|
                            {
                                &&& #[trigger] two_slashes_at(raw@, q1, q2)
                                &&& parseable_u32(raw@.subrange(0, q1))
                                &&& parseable_u32(raw@.subrange(q1 + 1, q2))
                                &&& parseable_u32(raw@.subrange(q2 + 1, raw@.len() as int))
                            };
                        assert(two_slashes_at(raw@, q1, q2));
                        assert(raw@[q1] == '/');
                        assert(raw@[q2] == '/');
                        if count >= 3 {
                            let q = choose|q: int| p2 < q < n && cs@[q] == '/';
                            assert(cs@[q] == '/');
                            assert(cs@[p1 as int] == '/');
                            assert(cs@[p2 as int] == '/');
                        }
                    }
                }
            }
            return None;
        }
        proof {
            assert(two_slashes_at(cs@, p1 as int, p2 as int));
        }
        let seg1 = copy_range(&cs, 0, p1);
        let seg2 = copy_range(&cs, p1 + 1, p2);
        let seg3 = copy_range(&cs, p2 + 1, n);
        let v1 = parse_u32(&seg1);
        let v2 = parse_u32(&seg2);
        let v3 = parse_u32(&seg3);
        match (v1, v2, v3) {
            (Some(y), Some(mo), Some(d)) => {
                proof {
                    assert(cs@ == raw@);
                    assert(valid_date_chars(raw@));
                    let (q1, q2) = date_slashes(raw@);
                    assert(two_slashes_at(raw@, q1, q2)) by {
                        assert(two_slashes_at(raw@, p1 as int, p2 as int));
                    }
                    lemma_two_slashes_unique(raw@, p1 as int, p2 as int, q1, q2);
                }
                Some(
                    Date {
                        year: y,
                        month: Month::from_code(mo),
                        date: d,
                    },
                )
            },
            _ => {
                proof {
                    assert(cs@ == raw@);
                    assert(!valid_date_chars(raw@)) by {
                        if valid_date_chars(raw@) {
                            let (q1, q2) = choose|q1: int, q2: int|
                                {
                                    &&& #[trigger] two_slashes_at(raw@, q1, q2)
                                    &&& parseable_u32(raw@.subrange(0, q1))
                                    &&& parseable_u32(raw@.subrange(q1 + 1, q2))
                                    &&& parseable_u32(raw@.subrange(q2 + 1, raw@.len() as int))
                                };
                            lemma_two_slashes_unique(raw@, p1 as int, p2 as int, q1, q2);
                        }
                    }
                }
                None
            },
        }
    }

    /// A structural check of the string form of a date: three
    /// slash-separated segments, each an integer.
    pub fn is_valid(raw_date: &str) -> (b: bool)
        ensures
            b == valid_date_chars(raw_date@),
    {
        Date::parse(raw_date).is_some()
    }

    /// This date's printed form.
    pub fn format(&self) -> (r: String)
        ensures
            r@ == date_chars(*self),
    {
        let mut out = u32_to_dec_pad(self.year, 4);
        out.push('/');
        proof {
            assert(out@ =~= zero_pad(dec_str(self.year as int), 4) + seq!['/']);
        }
        let mon = u32_to_dec_pad(self.month.to_code(), 2);
        let mut out = crate::text::concat_chars(out, &mon);
        out.push('/');
        let day = u32_to_dec_pad(self.date, 2);
        let out = crate::text::concat_chars(out, &day);
        proof {
            assert(out@ =~= date_chars(*self));
        }
        string_from_chars(&out)
    }

    /// Decides the chronological order.
    pub fn le(&self, other: &Date) -> (r: bool)
        ensures
            r == date_le(*self, *other),
    {
        if self.year != other.year {
            self.year < other.year
        } else {
            let mc = self.month.to_code();
            let oc = other.month.to_code();
            if mc != oc {
                mc < oc
            } else {
                self.date <= other.date
            }
        }
    }
}

/// Chronological order is total.
pub proof fn lemma_date_le_total(a: Date, b: Date)
    ensures
        date_le(a, b) || date_le(b, a),
{
}

/// Chronological order is transitive.
pub proof fn lemma_date_le_trans(a: Date, b: Date, c: Date)
    requires
        date_le(a, b),
        date_le(b, c),
    ensures
        date_le(a, c),
{
}

} // verus!

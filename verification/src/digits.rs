use vstd::prelude::*;

verus! {

// ---------------------------------------------------------------------------
// Decimal digits: reading unsigned numbers out of character sequences and
// writing them back, with explicit zero padding.
// ---------------------------------------------------------------------------

pub open spec fn is_digit(c: char) -> bool {
    48 <= (c as u32) <= 57
}

pub open spec fn digit_val(c: char) -> int {
    (c as u32) - 48
}

pub open spec fn all_digits(s: Seq<char>) -> bool {
    forall|i: int| 0 <= i < s.len() ==> is_digit(#[trigger] s[i])
}

/// The number denoted by a sequence of decimal digits, most significant first.
pub open spec fn digits_val(s: Seq<char>) -> int
    decreases s.len(),
{
    if s.len() == 0 {
        0
    } else {
        digits_val(s.drop_last()) * 10 + digit_val(s.last())
    }
}

pub proof fn lemma_digits_val_nonneg(s: Seq<char>)
    requires
        all_digits(s),
    ensures
        digits_val(s) >= 0,
    decreases s.len(),
{
    if s.len() > 0 {
        assert(all_digits(s.drop_last()));
        lemma_digits_val_nonneg(s.drop_last());
    }
}

/// A digit string never denotes less than any of its prefixes.
pub proof fn lemma_digits_val_prefix_le(s: Seq<char>, k: int)
    requires
        all_digits(s),
        0 <= k <= s.len(),
    ensures
        digits_val(s.take(k)) <= digits_val(s),
    decreases s.len() - k,
{
    if k == s.len() {
        assert(s.take(k) =~= s);
    } else {
        assert(s.take(k + 1).drop_last() =~= s.take(k));
        assert(s.take(k + 1).last() == s[k]);
        assert(all_digits(s.take(k)));
        lemma_digits_val_nonneg(s.take(k));
        assert(digits_val(s.take(k + 1)) == digits_val(s.take(k)) * 10 + digit_val(s[k]));
        lemma_digits_val_prefix_le(s, k + 1);
    }
}

/// A number's characters with an optional leading `+` removed.
pub open spec fn strip_plus(s: Seq<char>) -> Seq<char> {
    if s.len() > 0 && s[0] == '+' {
        s.drop_first()
    } else {
        s
    }
}

/// A character sequence from which `u32` parsing succeeds: an optional
/// leading `+`, then at least one digit, denoting a value that fits.
pub open spec fn parseable_u32(s: Seq<char>) -> bool {
    strip_plus(s).len() > 0 && all_digits(strip_plus(s)) && digits_val(strip_plus(s)) <= u32::MAX
}

/// The value such a sequence denotes.
pub open spec fn parsed_u32(s: Seq<char>) -> int {
    digits_val(strip_plus(s))
}

/// Parses a `u32` out of characters: `None` exactly when the characters are
/// not an (optionally `+`-signed) decimal number that fits in a `u32`.
pub fn parse_u32(v: &Vec<char>) -> (r: Option<u32>)
    ensures
        r is Some <==> parseable_u32(v@),
        r is Some ==> r->Some_0 == parsed_u32(v@),
{
    let ghost d: Seq<char> = strip_plus(v@);
    let len = v.len();
    let start: usize = if len > 0 && v[0] == '+' {
        1
    } else {
        0
    };
    proof {
        assert(d =~= v@.skip(start as int));
    }
    if len == start {
        return None;
    }
    let mut acc: u32 = 0;
    let mut i: usize = start;
    assert(v@.skip(start as int).take(0) =~= Seq::<char>::empty());
    while i < len
        invariant
            len == v@.len(),
            start <= i <= len,
            d == strip_plus(v@),
            d == v@.skip(start as int),
            all_digits(d.take(i - start)),
            acc == digits_val(d.take(i - start)),
        decreases len - i,
    {
        let c = v[i];
        let cu = c as u32;
        if cu < 48 || cu > 57 {
            proof {
                assert(d[i - start] == v@[i as int]);
                assert(!is_digit(d[i - start]));
                assert(!all_digits(d));
                assert(!parseable_u32(v@));
            }
            return None;
        }
        assert(d[i - start] == v@[i as int]);
        assert(is_digit(d[i - start]));
        let dv = cu - 48;
        proof {
            assert(d.take(i - start + 1).drop_last() =~= d.take(i - start));
            assert(d.take(i - start + 1).last() == d[i - start]);
        }
        let next = match acc.checked_mul(10) {
            Some(m) => m.checked_add(dv),
            None => None,
        };
        match next {
            Some(n) => {
                acc = n;
            },
            None => {
                proof {
                    assert(digits_val(d.take(i - start + 1)) > u32::MAX);
                    if all_digits(d) {
                        lemma_digits_val_prefix_le(d, i - start + 1);
                        assert(digits_val(d) > u32::MAX);
                    }
                }
                return None;
            },
        }
        i += 1;
    }
    proof {
        assert(d.take(len - start) =~= d);
    }
    Some(acc)
}

// ---------------------------------------------------------------------------
// Writing numbers back out.
// ---------------------------------------------------------------------------

pub open spec fn digit_char(d: int) -> char {
    if d == 0 {
        '0'
    } else if d == 1 {
        '1'
    } else if d == 2 {
        '2'
    } else if d == 3 {
        '3'
    } else if d == 4 {
        '4'
    } else if d == 5 {
        '5'
    } else if d == 6 {
        '6'
    } else if d == 7 {
        '7'
    } else if d == 8 {
        '8'
    } else {
        '9'
    }
}

/// The decimal digits of `n`, most significant first, no leading zeros
/// (a single `0` for zero).
pub open spec fn dec_str(n: int) -> Seq<char>
    decreases n,
{
    if n < 10 {
        seq![digit_char(n)]
    } else {
        dec_str(n / 10).push(digit_char(n % 10))
    }
}

/// `s` padded with `0` characters on the left up to width `w`.
pub open spec fn zero_pad(s: Seq<char>, w: int) -> Seq<char> {
    if s.len() >= w {
        s
    } else {
        Seq::new((w - s.len()) as nat, |i: int| '0') + s
    }
}

fn digit_char_exec(d: u32) -> (c: char)
    requires
        d < 10,
    ensures
        c == digit_char(d as int),
{
    match d {
        0 => '0',
        1 => '1',
        2 => '2',
        3 => '3',
        4 => '4',
        5 => '5',
        6 => '6',
        7 => '7',
        8 => '8',
        _ => '9',
    }
}

/// The decimal digits of `n`, most significant first.
pub fn u32_to_dec(n: u32) -> (r: Vec<char>)
    ensures
        r@ == dec_str(n as int),
    decreases n,
{
    if n < 10 {
        let mut r: Vec<char> = Vec::new();
        r.push(digit_char_exec(n));
        assert(r@ =~= dec_str(n as int));
        r
    } else {
        let mut r = u32_to_dec(n / 10);
        r.push(digit_char_exec(n % 10));
        r
    }
}

/// The decimal digits of `n`, left-padded with zeros to at least width `w`.
pub fn u32_to_dec_pad(n: u32, w: usize) -> (r: Vec<char>)
    ensures
        r@ == zero_pad(dec_str(n as int), w as int),
{
    let digits = u32_to_dec(n);
    if digits.len() >= w {
        return digits;
    }
    let pad = w - digits.len();
    let mut r: Vec<char> = Vec::new();
    let mut i: usize = 0;
    while i < pad
        invariant
            0 <= i <= pad,
            r@ =~= Seq::new(i as nat, |k: int| '0'),
        decreases pad - i,
    {
        r.push('0');
        assert(r@ =~= Seq::new((i + 1) as nat, |k: int| '0'));
        i += 1;
    }
    let mut j: usize = 0;
    let dlen = digits.len();
    while j < dlen
        invariant
            dlen == digits@.len(),
            0 <= j <= dlen,
            r@ =~= Seq::new(pad as nat, |k: int| '0') + digits@.take(j as int),
            pad == w - digits@.len(),
            digits@.len() < w,
        decreases dlen - j,
    {
        r.push(digits[j]);
        assert(r@ =~= Seq::new(pad as nat, |k: int| '0') + digits@.take(j + 1));
        j += 1;
    }
    proof {
        assert(digits@.take(dlen as int) =~= digits@);
    }
    r
}

} // verus!

use vstd::prelude::*;

use crate::date::month_code;
use crate::gig::Gig;

verus! {

/// How many of the first `n` gigs fall in the month with code `m`.
pub open spec fn gigs_in_month(gigs: Seq<Gig>, m: int, n: int) -> int
    decreases n,
{
    if n <= 0 {
        0
    } else if month_code(gigs[n - 1].date.month) == m {
        gigs_in_month(gigs, m, n - 1) + 1
    } else {
        gigs_in_month(gigs, m, n - 1)
    }
}

/// The summary column: the loaded gigs and their per-month chart data.
#[derive(Clone, Debug)]
pub struct GraphColumn {
    pub is_focused: bool,
    pub gigs: Vec<Gig>,
}

impl GraphColumn {
    /// An unfocused summary over the given gigs.
    pub fn new(gigs: Vec<Gig>) -> (r: Self)
        ensures
            !r.is_focused,
            r.gigs == gigs,
    {
        Self { is_focused: false, gigs }
    }

    /// Replaces the dataset wholesale after a reload.
    pub fn reload_data(&mut self, gigs: Vec<Gig>)
        ensures
            final(self).gigs == gigs,
            final(self).is_focused == old(self).is_focused,
    {
        self.gigs = gigs;
    }

    /// Focus only changes styling.
    pub fn focus(&mut self)
        ensures
            final(self).is_focused,
            final(self).gigs == old(self).gigs,
    {
        self.is_focused = true;
    }

    /// Unfocus only changes styling.
    pub fn unfocus(&mut self)
        ensures
            !final(self).is_focused,
            final(self).gigs == old(self).gigs,
    {
        self.is_focused = false;
    }

    /// The chart data: one bar per calendar month, counting the loaded
    /// gigs that fall in it.
    pub fn month_counts(&self) -> (r: Vec<u64>)
        ensures
            r@.len() == 12,
            forall|m: int|
                1 <= m <= 12 ==> r@[m - 1] == gigs_in_month(
                    self.gigs@,
                    m,
                    self.gigs@.len() as int,
                ),
    {
        let mut r: Vec<u64> = Vec::new();
        let mut m: usize = 0;
        while m < 12
            invariant
                0 <= m <= 12,
                r@.len() == m,
                forall|k: int| 0 <= k < m ==> (#[trigger] r@[k]) == 0,
            decreases 12 - m,
        {
            r.push(0);
            m += 1;
        }
        let n = self.gigs.len();
        let mut i: usize = 0;
        while i < n
            invariant
                n == self.gigs@.len(),
                0 <= i <= n,
                r@.len() == 12,
                forall|mm: int|
                    1 <= mm <= 12 ==> #[trigger] r@[mm - 1] == gigs_in_month(
                        self.gigs@,
                        mm,
                        i as int,
                    ),
                forall|mm: int| 1 <= mm <= 12 ==> (#[trigger] r@[mm - 1]) <= i,
            decreases n - i,
        {
            proof {
                assert(forall|mm: int|
                    1 <= mm <= 12 ==> gigs_in_month(self.gigs@, mm, i + 1) == (
                    if month_code(self.gigs@[i as int].date.month) == mm {
                        gigs_in_month(self.gigs@, mm, i as int) + 1
                    } else {
                        gigs_in_month(self.gigs@, mm, i as int)
                    }));
            }
            let code = self.gigs[i].date.month.to_code();
            if 1 <= code && code <= 12 {
                let idx = (code - 1) as usize;
                let cur = r[idx];
                r[idx] = cur + 1;
            }
            i += 1;
        }
        r
    }
}

} // verus!

//! Shared progress accounting.
//!
//! A single counter is shared by all workers and increased by the page size
//! after each non-final page. Callers report each increment on a diagnostic
//! stream; ordering across workers is not guaranteed, but the final value
//! after all sessions terminate equals the exact sum of all non-final page
//! sizes across all workers.

use vstd::prelude::*;

verus! {

/// The document counter shared by every worker of an export.
///
/// The arithmetic is verified here; sharing it across concurrent workers
/// takes an atomic or serialized update, which is the caller's harness to
/// provide — never an unsynchronized read-modify-write.
pub struct ProgressCounter {
    pub total: usize,
}

impl ProgressCounter {
    /// A fresh counter, at zero.
    pub fn new() -> (c: ProgressCounter)
        ensures
            c.total == 0,
    {
        ProgressCounter { total: 0 }
    }

    /// Increases the counter by `n` and returns the new total.
    pub fn add(&mut self, n: usize) -> (r: usize)
        requires
            old(self).total + n <= usize::MAX,
        ensures
            final(self).total == old(self).total + n,
            r == final(self).total,
    {
        self.total = self.total + n;
        self.total
    }

    /// The running total so far.
    pub fn current(&self) -> (r: usize)
        ensures
            r == self.total,
    {
        self.total
    }
}

/// The character of one decimal digit.
pub open spec fn digit_char(d: nat) -> char {
    if d == 0 {
        '0'
    } else if d == 1 {
        '1'
    } else if d == 2 {
        '2'
    } else if d == 3 {
        '3'
    } else if d == 4 {
        '4'
    } else if d == 5 {
        '5'
    } else if d == 6 {
        '6'
    } else if d == 7 {
        '7'
    } else if d == 8 {
        '8'
    } else {
        '9'
    }
}

/// The decimal digits of `n`, most significant first, with no leading zero
/// except for zero itself.
pub open spec fn dec_digits(n: nat) -> Seq<char>
    decreases n,
{
    if n < 10 {
        seq![digit_char(n)]
    } else {
        dec_digits(n / 10) + seq![digit_char(n % 10)]
    }
}

fn digit_str(d: usize) -> (r: &'static str)
    requires
        d < 10,
    ensures
        r@ == seq![digit_char(d as nat)],
{
    proof {
        reveal_strlit("0");
        reveal_strlit("1");
        reveal_strlit("2");
        reveal_strlit("3");
        reveal_strlit("4");
        reveal_strlit("5");
        reveal_strlit("6");
        reveal_strlit("7");
        reveal_strlit("8");
        reveal_strlit("9");
    }
    let r: &'static str = if d == 0 {
        "0"
    } else if d == 1 {
        "1"
    } else if d == 2 {
        "2"
    } else if d == 3 {
        "3"
    } else if d == 4 {
        "4"
    } else if d == 5 {
        "5"
    } else if d == 6 {
        "6"
    } else if d == 7 {
        "7"
    } else if d == 8 {
        "8"
    } else {
        "9"
    };
    proof {
        assert(r@ =~= seq![digit_char(d as nat)]);
    }
    r
}

/// Renders a count in decimal.
pub fn decimal_string(n: usize) -> (r: String)
    ensures
        r@ == dec_digits(n as nat),
    decreases n,
{
    if n < 10 {
        digit_str(n).to_owned()
    } else {
        let mut s = decimal_string(n / 10);
        s.append(digit_str(n % 10));
        proof {
            assert(s@ =~= dec_digits(n as nat));
        }
        s
    }
}

/// The diagnostic line reported after one completed page: the batch size and
/// the new running total.
pub open spec fn spec_progress_line(n: nat, total: nat) -> Seq<char> {
    "Fetched batch of "@ + dec_digits(n) + ", have now processed "@ + dec_digits(total)
}

/// Formats the diagnostic line for one completed page, for the caller to
/// write to the diagnostic stream — a stream separate from document output.
pub fn progress_line(n: usize, total: usize) -> (r: String)
    ensures
        r@ == spec_progress_line(n as nat, total as nat),
{
    let mut s = "Fetched batch of ".to_owned();
    let batch = decimal_string(n);
    s.append(batch.as_str());
    s.append(", have now processed ");
    let sum = decimal_string(total);
    s.append(sum.as_str());
    proof {
        assert(s@ =~= spec_progress_line(n as nat, total as nat));
    }
    s
}

} // verus!

//! The grade ledger: an insertion-ordered sequence of (grade, weight)
//! entries, and the average display derived from it.
//!
//! Weights are held in tenths (classwork 1.0 is stored as 10, an exam 1.5 as
//! 15), so the weighted average is the exact rational
//! `sum of grade * weight / sum of weight`, free of rounding. The display is
//! recomputed from scratch after every mutation, never incrementally, so it
//! can never go stale. A rejected submission overwrites the display with the
//! error, displacing the previous average until the next successful
//! submission; a removal from an empty ledger reports an error rather than
//! crashing.

use vstd::prelude::*;

use crate::validate::{spec_validate, validate, ValidationError};

verus! {

/// One submitted grade paired with the weight of its work type.
#[derive(Clone, Copy, Debug, PartialEq, Eq, Structural)]
pub struct GradeEntry {
    /// The grade, in the domain `1..=5`.
    pub grade: u8,
    /// The weight, a positive count of tenths (classwork 1.0 is 10).
    pub weight: u32,
}

/// An exact weighted average: numerator `sum of grade * weight` and
/// denominator `sum of weight`, both over all current entries, unreduced.
#[derive(Clone, Copy, Debug, PartialEq, Eq, Structural)]
pub struct Average {
    pub num: u128,
    pub den: u128,
}

/// Why the ledger could not serve a request.
#[derive(Clone, Copy, Debug, PartialEq, Eq, Structural)]
pub enum LedgerError {
    /// `remove_last` was asked of an empty ledger.
    EmptyLedgerOnRemove,
    /// The average of an empty ledger is undefined (its total weight is zero).
    EmptyLedgerAverage,
}

/// What the average field of the form shows: a value, or the error that
/// displaced it.
#[derive(Clone, Copy, Debug, PartialEq, Eq, Structural)]
pub enum AvgDisplay {
    /// Nothing computed yet: the initial, blank field.
    Blank,
    /// The weighted average of the current entries.
    Value(Average),
    /// The last submission was rejected; its error displaced the average.
    Invalid(ValidationError),
    /// The ledger had no entries to average or to remove.
    Unavailable(LedgerError),
}

/// The entry pairs a grade in `1..=5` with a positive weight.
pub open spec fn entry_valid(e: GradeEntry) -> bool {
    &&& 1 <= e.grade
    &&& e.grade <= 5
    &&& 1 <= e.weight
}

/// Every entry of the sequence is valid.
pub open spec fn all_valid(s: Seq<GradeEntry>) -> bool {
    forall|i: int| 0 <= i < s.len() ==> entry_valid(#[trigger] s[i])
}

/// Sum of `grade * weight` over the entries.
pub open spec fn sum_gw(s: Seq<GradeEntry>) -> int
    decreases s.len(),
{
    if s.len() == 0 {
        0
    } else {
        sum_gw(s.drop_last()) + s.last().grade * s.last().weight
    }
}

/// Sum of the weights over the entries.
pub open spec fn sum_w(s: Seq<GradeEntry>) -> int
    decreases s.len(),
{
    if s.len() == 0 {
        0
    } else {
        sum_w(s.drop_last()) + s.last().weight
    }
}

/// `a` is the exact weighted average of the entries `s`.
pub open spec fn is_average_of(a: Average, s: Seq<GradeEntry>) -> bool {
    &&& a.num == sum_gw(s)
    &&& a.den == sum_w(s)
}

/// `d` is the display recomputed from scratch for the entries `s`: the
/// average where one exists, the empty-ledger error where none does.
pub open spec fn is_recomputed(d: AvgDisplay, s: Seq<GradeEntry>) -> bool {
    if s.len() == 0 {
        d == AvgDisplay::Unavailable(LedgerError::EmptyLedgerAverage)
    } else {
        d matches AvgDisplay::Value(a) && is_average_of(a, s)
    }
}

/// A prefix of valid entries is itself valid.
proof fn lemma_all_valid_prefix(s: Seq<GradeEntry>, t: Seq<GradeEntry>)
    requires
        all_valid(s),
        t.len() <= s.len(),
        forall|i: int| 0 <= i < t.len() ==> t[i] == s[i],
    ensures
        all_valid(t),
{
    assert forall|i: int| 0 <= i < t.len() implies entry_valid(#[trigger] t[i]) by {
        assert(t[i] == s[i]);
    }
}

/// Extending the summed prefix by one entry adds that entry's contribution.
proof fn lemma_sum_take_step(s: Seq<GradeEntry>, i: int)
    requires
        0 <= i < s.len(),
    ensures
        sum_gw(s.take(i + 1)) == sum_gw(s.take(i)) + s[i].grade * s[i].weight,
        sum_w(s.take(i + 1)) == sum_w(s.take(i)) + s[i].weight,
{
    assert(s.take(i + 1).drop_last() =~= s.take(i));
    assert(s.take(i + 1).last() == s[i]);
}

/// Law: bounds on the sums of a valid ledger. The total weight is at least
/// one per entry and at most the largest weight per entry, and because every
/// grade lies in `1..=5`, the weighted grade sum lies between one and five
/// times the total weight: the average of a non-empty valid ledger is always
/// a value between 1 and 5.
pub proof fn lemma_sum_bounds(s: Seq<GradeEntry>)
    requires
        all_valid(s),
    ensures
        s.len() <= sum_w(s),
        sum_w(s) <= s.len() * 0xFFFF_FFFF,
        sum_w(s) <= sum_gw(s),
        sum_gw(s) <= 5 * sum_w(s),
    decreases s.len(),
{
    if s.len() > 0 {
        let t = s.drop_last();
        lemma_all_valid_prefix(s, t);
        lemma_sum_bounds(t);
        let e = s.last();
        assert(entry_valid(e));
        assert(e.grade * e.weight <= 5 * e.weight) by (nonlinear_arith)
            requires
                e.grade <= 5,
                0 <= e.weight,
        ;
        assert(e.weight <= e.grade * e.weight) by (nonlinear_arith)
            requires
                1 <= e.grade,
                0 <= e.weight,
        ;
    }
}

/// Recompute both sums from scratch over all entries.
fn weighted_sums(entries: &Vec<GradeEntry>) -> (r: (u128, u128))
    requires
        all_valid(entries@),
    ensures
        r.0 == sum_gw(entries@),
        r.1 == sum_w(entries@),
{
    let mut gw: u128 = 0;
    let mut w: u128 = 0;
    let mut i: usize = 0;
    while i < entries.len()
        invariant
            i <= entries@.len(),
            all_valid(entries@),
            gw == sum_gw(entries@.take(i as int)),
            w == sum_w(entries@.take(i as int)),
            gw <= 0x4_FFFF_FFFB * (i as int),
            w <= 0xFFFF_FFFF * (i as int),
        decreases entries@.len() - i,
    {
        let e = entries[i];
        proof {
            assert(entry_valid(entries@[i as int]));
            lemma_sum_take_step(entries@, i as int);
            assert(e.grade * e.weight <= 5 * 0xFFFF_FFFF) by (nonlinear_arith)
                requires
                    e.grade <= 5,
                    e.weight <= 0xFFFF_FFFF,
                    0 <= e.grade,
                    0 <= e.weight,
            ;
        }
        gw = gw + (e.grade as u128) * (e.weight as u128);
        w = w + (e.weight as u128);
        i = i + 1;
    }
    proof {
        assert(entries@.take(entries@.len() as int) =~= entries@);
    }
    (gw, w)
}

/// The insertion-ordered ledger of grade entries, plus the average display
/// derived from them.
pub struct Ledger {
    pub entries: Vec<GradeEntry>,
    pub avg: AvgDisplay,
}

impl Ledger {
    /// Every stored entry pairs a grade in `1..=5` with a positive weight.
    pub open spec fn wf(self) -> bool {
        all_valid(self.entries@)
    }

    /// A fresh, empty ledger with a blank display.
    pub fn new() -> (l: Ledger)
        ensures
            l.wf(),
            l.entries@.len() == 0,
            l.avg == AvgDisplay::Blank,
    {
        Ledger { entries: Vec::new(), avg: AvgDisplay::Blank }
    }

    /// Recompute the displayed average from the current entries.
    fn recompute(&mut self)
        requires
            old(self).wf(),
        ensures
            final(self).wf(),
            final(self).entries@ == old(self).entries@,
            is_recomputed(final(self).avg, final(self).entries@),
    {
        if self.entries.len() == 0 {
            self.avg = AvgDisplay::Unavailable(LedgerError::EmptyLedgerAverage);
        } else {
            let sums: (u128, u128) = weighted_sums(&self.entries);
            self.avg = AvgDisplay::Value(Average { num: sums.0, den: sums.1 });
        }
    }

    /// Validate a raw submission and, on success, append the entry with the
    /// given weight and recompute the display. On failure the display is
    /// overwritten with the error, displacing the previous average until the
    /// next successful submission.
    pub fn submit(&mut self, raw: &str, weight: u32) -> (r: Result<(), ValidationError>)
        requires
            old(self).wf(),
            1 <= weight,
        ensures
            final(self).wf(),
            match spec_validate(raw@) {
                Ok(g) => {
                    &&& r == Ok::<(), ValidationError>(())
                    &&& final(self).entries@ == old(self).entries@.push(
                        (GradeEntry { grade: g, weight }),
                    )
                    &&& is_recomputed(final(self).avg, final(self).entries@)
                },
                Err(e) => {
                    &&& r == Err::<(), ValidationError>(e)
                    &&& final(self).entries@ == old(self).entries@
                    &&& final(self).avg == AvgDisplay::Invalid(e)
                },
            },
    {
        match validate(raw) {
            Ok(g) => {
                let entry = GradeEntry { grade: g, weight };
                proof {
                    assert(entry_valid(entry));
                }
                self.entries.push(entry);
                proof {
                    assert forall|i: int|
                        0 <= i < self.entries@.len() implies entry_valid(
                        #[trigger] self.entries@[i],
                    ) by {
                        if i < self.entries@.len() - 1 {
                            assert(self.entries@[i] == old(self).entries@[i]);
                        }
                    }
                }
                self.recompute();
                Ok(())
            },
            Err(e) => {
                self.avg = AvgDisplay::Invalid(e);
                Err(e)
            },
        }
    }

    /// Drop the most recently added entry and recompute the display. On an
    /// empty ledger this reports `EmptyLedgerOnRemove` (and surfaces it in
    /// the display) instead of crashing.
    pub fn remove_last(&mut self) -> (r: Result<(), LedgerError>)
        requires
            old(self).wf(),
        ensures
            final(self).wf(),
            old(self).entries@.len() == 0 ==> {
                &&& r == Err::<(), LedgerError>(LedgerError::EmptyLedgerOnRemove)
                &&& final(self).entries@ == old(self).entries@
                &&& final(self).avg == AvgDisplay::Unavailable(LedgerError::EmptyLedgerOnRemove)
            },
            old(self).entries@.len() > 0 ==> {
                &&& r == Ok::<(), LedgerError>(())
                &&& final(self).entries@ == old(self).entries@.drop_last()
                &&& is_recomputed(final(self).avg, final(self).entries@)
            },
    {
        if self.entries.len() == 0 {
            self.avg = AvgDisplay::Unavailable(LedgerError::EmptyLedgerOnRemove);
            Err(LedgerError::EmptyLedgerOnRemove)
        } else {
            let _ = self.entries.pop();
            proof {
                assert(self.entries@ =~= old(self).entries@.drop_last());
                lemma_all_valid_prefix(old(self).entries@, self.entries@);
            }
            self.recompute();
            Ok(())
        }
    }

    /// The exact weighted average of the current entries, or the
    /// empty-ledger error when there are none. A returned average always has
    /// a positive denominator and a value between 1 and 5.
    pub fn average(&self) -> (r: Result<Average, LedgerError>)
        requires
            self.wf(),
        ensures
            self.entries@.len() == 0 ==> r == Err::<Average, LedgerError>(
                LedgerError::EmptyLedgerAverage,
            ),
            self.entries@.len() > 0 ==> (r matches Ok(a)
                && is_average_of(a, self.entries@)
                && 1 <= a.den
                && a.den <= a.num
                && a.num <= 5 * a.den),
    {
        if self.entries.len() == 0 {
            Err(LedgerError::EmptyLedgerAverage)
        } else {
            proof {
                lemma_sum_bounds(self.entries@);
            }
            let sums: (u128, u128) = weighted_sums(&self.entries);
            Ok(Average { num: sums.0, den: sums.1 })
        }
    }

    /// How many entries the ledger holds.
    pub fn len(&self) -> (n: usize)
        ensures
            n == self.entries@.len(),
    {
        self.entries.len()
    }

    /// Whether the ledger holds no entries.
    pub fn is_empty(&self) -> (b: bool)
        ensures
            b == (self.entries@.len() == 0),
    {
        self.entries.len() == 0
    }
}

/// Law: submitting a grade and immediately removing the most recent entry
/// restores the ledger's entries exactly, and with them both sums of the
/// weighted average. The requirements are precisely what `submit` ensures of
/// a successful submission (for any grade and weight, so in particular for
/// every valid grade and positive weight) and what `remove_last` ensures of a
/// successful removal.
pub proof fn lemma_submit_remove_restores(l0: Ledger, l1: Ledger, l2: Ledger, g: u8, w: u32)
    requires
        l1.entries@ == l0.entries@.push((GradeEntry { grade: g, weight: w })),
        l2.entries@ == l1.entries@.drop_last(),
    ensures
        l2.entries@ == l0.entries@,
        sum_gw(l2.entries@) == sum_gw(l0.entries@),
        sum_w(l2.entries@) == sum_w(l0.entries@),
{
    assert(l0.entries@.push((GradeEntry { grade: g, weight: w })).drop_last() =~= l0.entries@);
}

/// Law: the average is a pure function of the entries. Any two averages
/// computed from equal entry sequences, with no mutation in between, are the
/// same value.
pub proof fn lemma_average_deterministic(
    s1: Seq<GradeEntry>,
    s2: Seq<GradeEntry>,
    a1: Average,
    a2: Average,
)
    requires
        s1 == s2,
        is_average_of(a1, s1),
        is_average_of(a2, s2),
    ensures
        a1 == a2,
{
}

} // verus!

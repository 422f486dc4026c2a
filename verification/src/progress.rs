//! Counters that describe the state of one unit of work: how much of it is
//! done, whether it is complete, and whether the user has cancelled it.
//!
//! A [`Progress`] is a plain value, and whoever changes it holds it alone
//! for that time. Where a worker and a window share one, the caller keeps
//! the shared copy and hands the engine its own for the length of a call.

use vstd::prelude::*;

verus! {

/// The mathematical value of a [`Progress`].
pub struct ProgressView {
    pub indeterminate: bool,
    pub complete: bool,
    pub cancelled: bool,
    pub current: u64,
    pub maximum: u64,
}

/// A fraction `num / den` with a positive denominator.
#[derive(Clone, Copy, Debug, PartialEq, Eq, Structural)]
pub struct Ratio {
    pub num: u64,
    pub den: u64,
}

/// State of one unit of work.
#[derive(Clone, Copy, Debug)]
pub struct Progress {
    indeterminate: bool,
    complete: bool,
    cancelled: bool,
    current: u64,
    maximum: u64,
}

/// The state in which every unit of work starts: nothing is known of its
/// size, nothing is done.
pub open spec fn initial_view() -> ProgressView {
    ProgressView { indeterminate: true, complete: false, cancelled: false, current: 0, maximum: 0 }
}

/// `a + b`, held at the largest value of a `u64`.
pub open spec fn saturating_sum(a: u64, b: u64) -> u64 {
    if a + b > u64::MAX {
        u64::MAX
    } else {
        (a + b) as u64
    }
}

/// The fraction of the work that is done: all of it once complete, none of
/// it while the size is unknown or while either counter is zero, and
/// `current / maximum` otherwise.
pub open spec fn percent_of(p: ProgressView) -> (int, int) {
    if p.complete {
        (1, 1)
    } else if p.indeterminate || p.current == 0 || p.maximum == 0 {
        (0, 1)
    } else {
        (p.current as int, p.maximum as int)
    }
}

/// `a <= b` for two fractions with positive denominators.
pub open spec fn fraction_le(a: (int, int), b: (int, int)) -> bool {
    a.0 * b.1 <= b.0 * a.1
}

/// The state after `amount` was added to `current`.
pub open spec fn after_add_current(p: ProgressView, amount: u64) -> ProgressView {
    ProgressView { current: saturating_sum(p.current, amount), ..p }
}

/// The state after each amount of `amounts` was added to `current`, in order.
pub open spec fn after_add_all(p: ProgressView, amounts: Seq<u64>) -> ProgressView
    decreases amounts.len(),
{
    if amounts.len() == 0 {
        p
    } else {
        after_add_current(after_add_all(p, amounts.drop_last()), amounts.last())
    }
}

impl View for Progress {
    type V = ProgressView;

    closed spec fn view(&self) -> ProgressView {
        ProgressView {
            indeterminate: self.indeterminate,
            complete: self.complete,
            cancelled: self.cancelled,
            current: self.current,
            maximum: self.maximum,
        }
    }
}

impl Ratio {
    /// The fraction as a pair of integers.
    pub open spec fn as_pair(&self) -> (int, int) {
        (self.num as int, self.den as int)
    }
}

impl Progress {
    /// A progress with the given state.
    pub fn new(indeterminate: bool, complete: bool, cancelled: bool, current: u64, maximum: u64) -> (p:
        Progress)
        ensures
            p@ == (ProgressView {
                indeterminate,
                complete,
                cancelled,
                current,
                maximum,
            }),
    {
        Progress { indeterminate, complete, cancelled, current, maximum }
    }

    /// Whether the size of the work is still unknown.
    pub fn indeterminate(&self) -> (r: bool)
        ensures
            r == self@.indeterminate,
    {
        self.indeterminate
    }

    /// Whether the work is done.
    pub fn complete(&self) -> (r: bool)
        ensures
            r == self@.complete,
    {
        self.complete
    }

    /// Whether the user asked for the work to stop.
    pub fn cancelled(&self) -> (r: bool)
        ensures
            r == self@.cancelled,
    {
        self.cancelled
    }

    /// How much of the work is done.
    pub fn current(&self) -> (r: u64)
        ensures
            r == self@.current,
    {
        self.current
    }

    /// How much work there is.
    pub fn maximum(&self) -> (r: u64)
        ensures
            r == self@.maximum,
    {
        self.maximum
    }

    /// Says whether the size of the work is still unknown.
    pub fn set_indeterminate(&mut self, val: bool)
        ensures
            final(self)@ == (ProgressView { indeterminate: val, ..old(self)@ }),
    {
        self.indeterminate = val;
    }

    /// Says whether the work is done.
    pub fn set_complete(&mut self, val: bool)
        ensures
            final(self)@ == (ProgressView { complete: val, ..old(self)@ }),
    {
        self.complete = val;
    }

    /// Says whether the user asked for the work to stop.
    pub fn set_cancelled(&mut self, val: bool)
        ensures
            final(self)@ == (ProgressView { cancelled: val, ..old(self)@ }),
    {
        self.cancelled = val;
    }

    /// Says how much of the work is done.
    pub fn set_current(&mut self, val: u64)
        ensures
            final(self)@ == (ProgressView { current: val, ..old(self)@ }),
    {
        self.current = val;
    }

    /// Says how much work there is.
    pub fn set_maximum(&mut self, val: u64)
        ensures
            final(self)@ == (ProgressView { maximum: val, ..old(self)@ }),
    {
        self.maximum = val;
    }

    /// Adds `val` to `current`; the sum stops at the largest `u64`.
    pub fn add_current(&mut self, val: u64)
        ensures
            final(self)@ == after_add_current(old(self)@, val),
    {
        self.current = self.current.saturating_add(val);
    }

    /// Adds `val` to `maximum`; the sum stops at the largest `u64`.
    pub fn add_maximum(&mut self, val: u64)
        ensures
            final(self)@ == (ProgressView {
                maximum: saturating_sum(old(self)@.maximum, val),
                ..old(self)@
            }),
    {
        self.maximum = self.maximum.saturating_add(val);
    }

    /// Back to the initial state.
    pub fn reset(&mut self)
        ensures
            final(self)@ == initial_view(),
    {
        self.set_indeterminate(true);
        self.set_complete(false);
        self.set_cancelled(false);
        self.set_current(0);
        self.set_maximum(0);
    }

    /// The fraction of the work that is done.
    pub fn percent(&self) -> (r: Ratio)
        ensures
            r.as_pair() == percent_of(self@),
            r.den > 0,
    {
        if self.complete {
            Ratio { num: 1, den: 1 }
        } else if self.indeterminate || self.current == 0 || self.maximum == 0 {
            Ratio { num: 0, den: 1 }
        } else {
            Ratio { num: self.current, den: self.maximum }
        }
    }
}

impl Default for Progress {
    fn default() -> (p: Progress)
        ensures
            p@ == initial_view(),
    {
        Progress::new(true, false, false, 0, 0)
    }
}

/// A complete work is wholly done, whatever the counters say.
pub proof fn lemma_complete_is_whole(p: ProgressView)
    requires
        p.complete,
    ensures
        percent_of(p) == (1int, 1int),
{
}

/// Adding to `current` never lowers the fraction done.
pub proof fn lemma_add_current_monotonic(p: ProgressView, amount: u64)
    ensures
        fraction_le(percent_of(p), percent_of(after_add_current(p, amount))),
        after_add_current(p, amount).maximum == p.maximum,
{
    let q = after_add_current(p, amount);
    if !p.complete && !p.indeterminate && p.current != 0 && p.maximum != 0 {
        assert(q.current >= p.current);
        assert(p.current * p.maximum <= q.current * p.maximum) by (nonlinear_arith)
            requires
                p.current <= q.current,
        ;
    }
}

/// The denominator of the fraction done is positive, its numerator is not
/// negative.
pub proof fn lemma_percent_well_formed(p: ProgressView)
    ensures
        percent_of(p).0 >= 0,
        percent_of(p).1 > 0,
{
}

/// `fraction_le` is transitive on fractions with positive denominators.
pub proof fn lemma_fraction_le_transitive(a: (int, int), b: (int, int), c: (int, int))
    requires
        a.1 > 0,
        b.1 > 0,
        c.1 > 0,
        fraction_le(a, b),
        fraction_le(b, c),
    ensures
        fraction_le(a, c),
{
    assert(a.0 * c.1 <= c.0 * a.1) by (nonlinear_arith)
        requires
            a.1 > 0,
            b.1 > 0,
            c.1 > 0,
            a.0 * b.1 <= b.0 * a.1,
            b.0 * c.1 <= c.0 * b.1,
    ;
}

/// Over any run of additions to `current`, with nothing else changed in
/// between, the fraction done after the first `i` of them is at most the
/// fraction done after the first `j`, for `i <= j`.
pub proof fn lemma_percent_non_decreasing(p: ProgressView, amounts: Seq<u64>, i: int, j: int)
    requires
        0 <= i <= j <= amounts.len(),
    ensures
        fraction_le(
            percent_of(after_add_all(p, amounts.take(i))),
            percent_of(after_add_all(p, amounts.take(j))),
        ),
    decreases j - i,
{
    let at_i = after_add_all(p, amounts.take(i));
    if i == j {
        lemma_percent_well_formed(at_i);
    } else {
        let before = after_add_all(p, amounts.take(j - 1));
        let at_j = after_add_all(p, amounts.take(j));
        lemma_percent_non_decreasing(p, amounts, i, j - 1);
        assert(amounts.take(j).drop_last() == amounts.take(j - 1));
        assert(amounts.take(j).last() == amounts[j - 1]);
        assert(at_j == after_add_current(before, amounts[j - 1]));
        lemma_add_current_monotonic(before, amounts[j - 1]);
        lemma_percent_well_formed(at_i);
        lemma_percent_well_formed(before);
        lemma_percent_well_formed(at_j);
        lemma_fraction_le_transitive(percent_of(at_i), percent_of(before), percent_of(at_j));
    }
}

} // verus!

//! Progress of an operation as an exact fraction.

use vstd::prelude::*;

verus! {

/// How far an operation has come, as a fraction between 0 and 1.
#[derive(Clone, Copy, Debug)]
pub struct Progress {
    numerator: u128,
    denominator: u128,
}

/// The fraction `done / total`. A `done` beyond `total` counts as `total`,
/// and with nothing to do everything is done.
pub open spec fn fraction_of(done: nat, total: nat) -> (nat, nat) {
    if total == 0 {
        (1, 1)
    } else if done > total {
        (total, total)
    } else {
        (done, total)
    }
}

/// The fraction that stands for `done` of `total` steps of the stage with
/// index `stage`, where `stages` stages of equal weight make the whole:
/// `(stage + done / total) / stages`. A stage beyond the last counts as the
/// last, and a run without stages is done.
pub open spec fn staged_fraction(stage: nat, stages: nat, done: nat, total: nat) -> (nat, nat) {
    if stages == 0 {
        (1, 1)
    } else {
        let index = if stage >= stages {
            (stages - 1) as nat
        } else {
            stage
        };
        let part = fraction_of(done, total);
        (index * part.1 + part.0, stages * part.1)
    }
}

impl Progress {
    #[verifier::type_invariant]
    spec fn well_formed(self) -> bool {
        0 < self.denominator && self.numerator <= self.denominator
    }

    /// The fraction as a pair of numerator and denominator.
    pub closed spec fn ratio(self) -> (nat, nat) {
        (self.numerator as nat, self.denominator as nat)
    }

    /// The progress of an operation that is done.
    pub fn complete() -> (r: Progress)
        ensures
            r.ratio() == (1nat, 1nat),
    {
        Progress { numerator: 1, denominator: 1 }
    }

    /// The progress after `done` of `total` steps.
    pub fn of(done: usize, total: usize) -> (r: Progress)
        ensures
            r.ratio() == fraction_of(done as nat, total as nat),
    {
        if total == 0 {
            Progress { numerator: 1, denominator: 1 }
        } else if done > total {
            Progress { numerator: total as u128, denominator: total as u128 }
        } else {
            Progress { numerator: done as u128, denominator: total as u128 }
        }
    }

    /// The progress after `done` of `total` steps of the stage with index
    /// `stage`, where `stages` stages of equal weight make the whole.
    pub fn staged(stage: u8, stages: u8, done: usize, total: usize) -> (r: Progress)
        ensures
            r.ratio() == staged_fraction(stage as nat, stages as nat, done as nat, total as nat),
    {
        if stages == 0 {
            return Progress { numerator: 1, denominator: 1 };
        }
        let index: u8 = if stage >= stages {
            stages - 1
        } else {
            stage
        };
        let part = Progress::of(done, total);
        proof {
            use_type_invariant(&part);
        }
        let p: u128 = part.numerator;
        let q: u128 = part.denominator;
        assert(q <= usize::MAX);
        assert(index * q + p <= stages * q) by (nonlinear_arith)
            requires
                index < stages,
                p <= q,
        ;
        assert(stages * q <= 256 * 0x1_0000_0000_0000_0000) by (nonlinear_arith)
            requires
                stages < 256,
                q <= 0xffff_ffff_ffff_ffff,
        ;
        assert(0 < stages * q) by (nonlinear_arith)
            requires
                0 < stages,
                0 < q,
        ;
        Progress { numerator: (index as u128) * q + p, denominator: (stages as u128) * q }
    }

    /// The numerator of the fraction.
    pub fn numerator(&self) -> (r: u128)
        ensures
            r == self.ratio().0,
            r <= self.ratio().1,
    {
        proof {
            use_type_invariant(self);
        }
        self.numerator
    }

    /// The denominator of the fraction: never 0.
    pub fn denominator(&self) -> (r: u128)
        ensures
            r == self.ratio().1,
            r > 0,
    {
        proof {
            use_type_invariant(self);
        }
        self.denominator
    }

    /// Whether the fraction is 1.
    pub fn is_complete(&self) -> (r: bool)
        ensures
            r == (self.ratio().0 == self.ratio().1),
    {
        self.numerator == self.denominator
    }
}

/// The fraction is never above 1 and its denominator is never 0.
pub proof fn lemma_fraction_bounds(stage: nat, stages: nat, done: nat, total: nat)
    ensures
        0 < fraction_of(done, total).1,
        fraction_of(done, total).0 <= fraction_of(done, total).1,
        0 < staged_fraction(stage, stages, done, total).1,
        staged_fraction(stage, stages, done, total).0 <= staged_fraction(
            stage,
            stages,
            done,
            total,
        ).1,
        done >= total ==> fraction_of(done, total).0 == fraction_of(done, total).1,
        stages > 0 && stage + 1 >= stages && done >= total ==> staged_fraction(
            stage,
            stages,
            done,
            total,
        ).0 == staged_fraction(stage, stages, done, total).1,
{
    let part = fraction_of(done, total);
    if stages > 0 {
        let index = if stage >= stages {
            (stages - 1) as nat
        } else {
            stage
        };
        assert(index * part.1 + part.0 <= stages * part.1) by (nonlinear_arith)
            requires
                index < stages,
                part.0 <= part.1,
        ;
        assert(0 < stages * part.1) by (nonlinear_arith)
            requires
                0 < stages,
                0 < part.1,
        ;
        if stage + 1 >= stages && done >= total {
            assert(index == stages - 1);
            assert(index * part.1 + part.1 == stages * part.1) by (nonlinear_arith)
                requires
                    index == stages - 1,
            ;
        }
    }
}

/// A stage fills its own share of the whole and no more: with `stages`
/// stages, the progress within the stage with index `stage` lies between
/// `stage / stages` and `(stage + 1) / stages`.
pub proof fn lemma_stage_share(stage: nat, stages: nat, done: nat, total: nat)
    requires
        stage < stages,
    ensures
        staged_fraction(stage, stages, done, total).1 == stages * fraction_of(done, total).1,
        staged_fraction(stage, stages, done, total).0 >= stage * fraction_of(done, total).1,
        staged_fraction(stage, stages, done, total).0 <= (stage + 1) * fraction_of(done, total).1,
{
    let part = fraction_of(done, total);
    assert((stage + 1) * part.1 == stage * part.1 + part.1) by (nonlinear_arith);
}

} // verus!

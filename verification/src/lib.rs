//! Vesting-schedule evaluation: cliff and linear graded schedules.
//!
//! The core is a pure evaluator that maps a schedule and an elapsed count of
//! whole months to the vested fraction of a grant. The fraction is kept as an
//! exact rational (numerator over denominator), so every result here is an
//! exact value; a caller that needs a decimal divides the two integers.

use vstd::prelude::*;

verus! {

/// An exact non-negative rational in the closed interval [0, 1],
/// written as a numerator over a positive denominator.
#[derive(Clone, Copy, Debug, PartialEq, Eq, Structural)]
pub struct Fraction {
    pub numerator: u32,
    pub denominator: u32,
}

impl Fraction {
    /// Well-formed: a positive denominator and a value no greater than one.
    pub open spec fn valid(self) -> bool {
        self.denominator > 0 && self.numerator <= self.denominator
    }

    /// The fraction denotes exactly zero.
    pub open spec fn is_zero(self) -> bool {
        self.numerator == 0
    }

    /// The fraction denotes exactly one.
    pub open spec fn is_one(self) -> bool {
        self.numerator == self.denominator
    }

    /// Rational comparison by cross-multiplication: `self <= other`.
    pub open spec fn le(self, other: Fraction) -> bool {
        self.numerator * other.denominator <= other.numerator * self.denominator
    }
}

/// The supported vesting schedules.
#[derive(Clone, Copy, Debug, PartialEq, Eq, Structural)]
pub enum VestingSchedule {
    /// Vests everything at once after the given number of months.
    Cliff { cliff_months: u32 },
    /// Vests nothing through the cliff, then linearly up to `total_months`.
    Graded { cliff_months: u32, total_months: u32 },
}

/// Errors reported by the evaluator.
#[derive(Clone, Copy, Debug, PartialEq, Eq, Structural)]
pub enum VestingError {
    /// A graded schedule whose vesting window is empty.
    InvalidSchedule,
}

/// A schedule is well-formed when a graded vesting window is non-empty:
/// `total_months` strictly greater than `cliff_months`. As `cliff_months` is
/// non-negative, this also rules out `total_months == 0`. A cliff schedule is
/// always well-formed.
pub open spec fn schedule_is_valid(schedule: VestingSchedule) -> bool {
    match schedule {
        VestingSchedule::Cliff { .. } => true,
        VestingSchedule::Graded { cliff_months, total_months } => total_months > cliff_months,
    }
}

/// The vested fraction of a well-formed schedule after `months_elapsed`
/// whole months: all or nothing at the cliff for a cliff schedule; zero
/// through the cliff, then `(months_elapsed - cliff_months)` over the window
/// `(total_months - cliff_months)`, saturating at one, for a graded one.
pub open spec fn spec_vested_fraction(schedule: VestingSchedule, months_elapsed: u32) -> Fraction
    recommends
        schedule_is_valid(schedule),
{
    match schedule {
        VestingSchedule::Cliff { cliff_months } => {
            if months_elapsed >= cliff_months {
                Fraction { numerator: 1, denominator: 1 }
            } else {
                Fraction { numerator: 0, denominator: 1 }
            }
        }
        VestingSchedule::Graded { cliff_months, total_months } => {
            let window: u32 = (total_months - cliff_months) as u32;
            if months_elapsed <= cliff_months {
                Fraction { numerator: 0, denominator: window }
            } else if months_elapsed >= total_months {
                Fraction { numerator: window, denominator: window }
            } else {
                Fraction { numerator: (months_elapsed - cliff_months) as u32, denominator: window }
            }
        }
    }
}

impl VestingSchedule {
    /// Whether the schedule satisfies its structural invariant.
    pub fn is_valid(&self) -> (valid: bool)
        ensures
            valid == schedule_is_valid(*self),
    {
        match *self {
            VestingSchedule::Cliff { .. } => true,
            VestingSchedule::Graded { cliff_months, total_months } => total_months > cliff_months,
        }
    }
}

/// Compute the vested fraction for a schedule and elapsed months.
///
/// A well-formed schedule always evaluates to exactly the specified
/// fraction; a graded schedule with an empty vesting window is rejected
/// with `InvalidSchedule`, whatever the elapsed months.
pub fn calculate_vested_fraction(
    schedule: &VestingSchedule,
    months_elapsed: u32,
) -> (result: Result<Fraction, VestingError>)
    ensures
        schedule_is_valid(*schedule) ==> result == Ok::<Fraction, VestingError>(
            spec_vested_fraction(*schedule, months_elapsed),
        ),
        !schedule_is_valid(*schedule) ==> result == Err::<Fraction, VestingError>(
            VestingError::InvalidSchedule,
        ),
        result matches Ok(fraction) ==> fraction.valid(),
{
    match *schedule {
        VestingSchedule::Cliff { cliff_months } => {
            if months_elapsed >= cliff_months {
                Ok(Fraction { numerator: 1, denominator: 1 })
            } else {
                Ok(Fraction { numerator: 0, denominator: 1 })
            }
        }
        VestingSchedule::Graded { cliff_months, total_months } => {
            if total_months <= cliff_months || total_months == 0 {
                return Err(VestingError::InvalidSchedule);
            }
            let denominator: u32 = total_months - cliff_months;
            if months_elapsed <= cliff_months {
                return Ok(Fraction { numerator: 0, denominator });
            }
            let vested_months: u32 = months_elapsed - cliff_months;
            let numerator: u32 = if vested_months >= denominator {
                denominator
            } else {
                vested_months
            };
            Ok(Fraction { numerator, denominator })
        }
    }
}

/// A cliff schedule is all-or-nothing: nothing vests before the cliff and
/// everything vests at or after it.
pub proof fn lemma_cliff_all_or_nothing(cliff_months: u32, months_elapsed: u32)
    ensures
        months_elapsed < cliff_months ==> spec_vested_fraction(
            VestingSchedule::Cliff { cliff_months },
            months_elapsed,
        ).is_zero(),
        months_elapsed >= cliff_months ==> spec_vested_fraction(
            VestingSchedule::Cliff { cliff_months },
            months_elapsed,
        ).is_one(),
{
}

/// A valid graded schedule vests nothing through the cliff: elapsing
/// exactly the cliff still yields zero.
pub proof fn lemma_graded_zero_through_cliff(
    cliff_months: u32,
    total_months: u32,
    months_elapsed: u32,
)
    requires
        total_months > cliff_months,
        months_elapsed <= cliff_months,
    ensures
        spec_vested_fraction(
            VestingSchedule::Graded { cliff_months, total_months },
            months_elapsed,
        ).is_zero(),
{
}

/// A valid graded schedule is fully vested at `total_months`, and elapsed
/// times beyond it saturate at one rather than exceeding it.
pub proof fn lemma_graded_saturates(cliff_months: u32, total_months: u32, months_elapsed: u32)
    requires
        total_months > cliff_months,
        months_elapsed >= total_months,
    ensures
        spec_vested_fraction(
            VestingSchedule::Graded { cliff_months, total_months },
            months_elapsed,
        ).is_one(),
{
}

/// The vested fraction of a valid graded schedule is monotonically
/// non-decreasing in the elapsed months.
pub proof fn lemma_graded_monotone(cliff_months: u32, total_months: u32, earlier: u32, later: u32)
    requires
        total_months > cliff_months,
        earlier <= later,
    ensures
        spec_vested_fraction(VestingSchedule::Graded { cliff_months, total_months }, earlier).le(
            spec_vested_fraction(VestingSchedule::Graded { cliff_months, total_months }, later),
        ),
{
    let schedule = VestingSchedule::Graded { cliff_months, total_months };
    let first = spec_vested_fraction(schedule, earlier);
    let second = spec_vested_fraction(schedule, later);
    assert(first.denominator == second.denominator);
    assert(first.numerator <= second.numerator);
    assert(first.numerator * second.denominator <= second.numerator * first.denominator)
        by (nonlinear_arith)
        requires
            first.numerator <= second.numerator,
            first.denominator == second.denominator,
    ;
}

/// A graded schedule with an empty vesting window is never well-formed, so
/// by the evaluator's contract its evaluation always fails with
/// `InvalidSchedule`, regardless of the elapsed months.
pub proof fn lemma_graded_invalid_always_rejected(cliff_months: u32, total_months: u32)
    requires
        total_months <= cliff_months || total_months == 0,
    ensures
        !schedule_is_valid(VestingSchedule::Graded { cliff_months, total_months }),
{
}

/// Evaluation is deterministic: any two results that the evaluator's
/// contract admits for the same schedule and elapsed months are equal, so
/// repeated calls with identical arguments yield identical results.
pub proof fn lemma_evaluate_deterministic(
    schedule: VestingSchedule,
    months_elapsed: u32,
    first: Result<Fraction, VestingError>,
    second: Result<Fraction, VestingError>,
)
    requires
        schedule_is_valid(schedule) ==> first == Ok::<Fraction, VestingError>(
            spec_vested_fraction(schedule, months_elapsed),
        ),
        !schedule_is_valid(schedule) ==> first == Err::<Fraction, VestingError>(
            VestingError::InvalidSchedule,
        ),
        schedule_is_valid(schedule) ==> second == Ok::<Fraction, VestingError>(
            spec_vested_fraction(schedule, months_elapsed),
        ),
        !schedule_is_valid(schedule) ==> second == Err::<Fraction, VestingError>(
            VestingError::InvalidSchedule,
        ),
    ensures
        first == second,
{
}

/// The vested and remaining shares partition the whole: for any valid
/// schedule the vested fraction is well-formed, so the remaining share
/// `denominator - numerator` is non-negative, and the two shares together
/// account for the full denominator.
pub proof fn lemma_vested_remaining_partition(schedule: VestingSchedule, months_elapsed: u32)
    requires
        schedule_is_valid(schedule),
    ensures
        spec_vested_fraction(schedule, months_elapsed).valid(),
        spec_vested_fraction(schedule, months_elapsed).numerator + (spec_vested_fraction(
            schedule,
            months_elapsed,
        ).denominator - spec_vested_fraction(schedule, months_elapsed).numerator)
            == spec_vested_fraction(schedule, months_elapsed).denominator,
{
}

} // verus!

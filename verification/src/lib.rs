//! Income tax calculation for different assessment years.
//!
//! Tax calculations are abstracted over the [`IncomeTax`] trait: an
//! implementation stands for one jurisdiction and year and computes the
//! statutory tax on a yearly income, in whole currency units.  The trait's
//! contracts pin every result to a mathematical tax function, so that the
//! bracket formulas of each year are verified against their statutory
//! definition.
//!
//! An income enters the library already classified: either it was not a
//! finite number, or it was finite but negative, or it is a finite
//! non-negative amount floored to whole currency units (see [`Income`]).

use vstd::prelude::*;

pub mod germany;

verus! {

/// A yearly income, classified and floored to whole currency units.
///
/// A raw monetary amount is either not a finite number, a finite negative
/// number, or a finite non-negative number; in the last case it is carried
/// here floored down to a whole number of currency units, which is how every
/// bracket formula reads it.
#[derive(Clone, Copy, Debug, PartialEq, Eq, Structural)]
pub enum Income {
    /// The amount was infinite or not a number.
    NotFinite,
    /// The amount was finite but negative.
    Negative,
    /// A finite, non-negative amount, floored to whole currency units.
    Amount(u64),
}

/// The ways an income can be rejected; each variant carries the offending
/// income.
#[derive(Clone, Copy, Debug, PartialEq, Eq, Structural)]
#[non_exhaustive]
pub enum IncomeTaxError {
    /// The provided income was not a finite number.
    IncomeNotFinite(Income),
    /// The provided income was negative.
    NegativeIncome(Income),
}

impl IncomeTaxError {
    /// A human-readable description of the error.
    pub fn message(&self) -> (s: &'static str)
        ensures
            (self matches IncomeTaxError::IncomeNotFinite(_)) ==> s@ == "The provided income was not a finite number"@,
            (self matches IncomeTaxError::NegativeIncome(_)) ==> s@ == "The provided income was negative"@,
    {
        match self {
            IncomeTaxError::IncomeNotFinite(_) => "The provided income was not a finite number",
            IncomeTaxError::NegativeIncome(_) => "The provided income was negative",
        }
    }
}

/// What `calculate` returns: the matching error for a rejected income, or
/// the tax that the year's tax function gives on a valid amount.
pub open spec fn calculate_spec(tax: spec_fn(u64) -> int, income: Income) -> Result<int, IncomeTaxError> {
    match income {
        Income::NotFinite => Err(IncomeTaxError::IncomeNotFinite(income)),
        Income::Negative => Err(IncomeTaxError::NegativeIncome(income)),
        Income::Amount(amount) => Ok(tax(amount)),
    }
}

/// What `tax_refund` returns: the difference between the tax before and the
/// tax after an adjustment of the income, or the first error, the income
/// before the adjustment being validated first.
pub open spec fn tax_refund_spec(
    tax: spec_fn(u64) -> int,
    income_before: Income,
    income_after: Income,
) -> Result<int, IncomeTaxError> {
    match calculate_spec(tax, income_before) {
        Err(e) => Err(e),
        Ok(tax_before) => match calculate_spec(tax, income_after) {
            Err(e) => Err(e),
            Ok(tax_after) => Ok(tax_before - tax_after),
        },
    }
}

/// Calculation of income taxes.
pub trait IncomeTax {
    /// The tax function this implementation computes, on incomes in whole
    /// currency units: the mathematical model that `calculate` is held to.
    spec fn tax_model(&self) -> spec_fn(u64) -> int;

    /// The year this implementation models.
    spec fn year_model(&self) -> u32;

    /// Every tax amount is a whole number of currency units in
    /// `[0, 0x8000_0000_0000_0000)`, so a difference of two tax amounts
    /// always fits a signed 64-bit value.
    proof fn tax_model_in_range(&self, income: u64)
        ensures
            0 <= self.tax_model()(income) < 0x8000_0000_0000_0000,
    ;

    /// Gets the year of the income tax.
    fn year(&self) -> (y: u32)
        ensures
            y == self.year_model(),
    ;

    /// Calculates the taxes on the specified income.
    fn calculate(&self, income: Income) -> (r: Result<u64, IncomeTaxError>)
        ensures
            (match r {
                Ok(t) => calculate_spec(self.tax_model(), income) == Ok::<int, IncomeTaxError>(t as int),
                Err(e) => calculate_spec(self.tax_model(), income) == Err::<int, IncomeTaxError>(e),
            }),
    ;

    /// Calculate the tax refund for an income before any adjustments (the
    /// basic income), and an income after any adjustments (e.g. tax
    /// deductions).  The value returned is the tax refund (if positive) or
    /// tax due (if negative).
    fn tax_refund(&self, income_before: Income, income_after: Income) -> (r: Result<
        i64,
        IncomeTaxError,
    >)
        ensures
            (match r {
                Ok(d) => tax_refund_spec(self.tax_model(), income_before, income_after)
                    == Ok::<int, IncomeTaxError>(d as int),
                Err(e) => tax_refund_spec(self.tax_model(), income_before, income_after)
                    == Err::<int, IncomeTaxError>(e),
            }),
    {
        let tax_before = match self.calculate(income_before) {
            Ok(t) => t,
            Err(e) => {
                return Err(e);
            },
        };
        let tax_after = match self.calculate(income_after) {
            Ok(t) => t,
            Err(e) => {
                return Err(e);
            },
        };
        proof {
            match income_before {
                Income::Amount(amount) => self.tax_model_in_range(amount),
                _ => (),
            }
            match income_after {
                Income::Amount(amount) => self.tax_model_in_range(amount),
                _ => (),
            }
        }
        Ok(tax_before as i64 - tax_after as i64)
    }
}

/// Refund identity: the refund computed between an income and itself is
/// zero, whatever the year's tax function.
pub proof fn lemma_refund_identity(tax: spec_fn(u64) -> int, amount: u64)
    ensures
        tax_refund_spec(tax, Income::Amount(amount), Income::Amount(amount))
            == Ok::<int, IncomeTaxError>(0),
{
}

/// Error precedence: a non-finite income is rejected as not finite, a
/// negative income as negative, and a refund surfaces the error of the
/// income before adjustments without looking at the income after.
pub proof fn lemma_error_precedence(tax: spec_fn(u64) -> int, income_after: Income)
    ensures
        calculate_spec(tax, Income::NotFinite)
            == Err::<int, IncomeTaxError>(IncomeTaxError::IncomeNotFinite(Income::NotFinite)),
        calculate_spec(tax, Income::Negative)
            == Err::<int, IncomeTaxError>(IncomeTaxError::NegativeIncome(Income::Negative)),
        tax_refund_spec(tax, Income::NotFinite, income_after)
            == Err::<int, IncomeTaxError>(IncomeTaxError::IncomeNotFinite(Income::NotFinite)),
        tax_refund_spec(tax, Income::Negative, income_after)
            == Err::<int, IncomeTaxError>(IncomeTaxError::NegativeIncome(Income::Negative)),
{
}

} // verus!

//! Provides income tax calculations for Germany.

use vstd::prelude::*;
use vstd::arithmetic::div_mod::lemma_div_is_ordered;
use vstd::arithmetic::div_mod::lemma_div_pos_is_pos;
use vstd::arithmetic::div_mod::lemma_fundamental_div_mod;
use vstd::arithmetic::div_mod::lemma_mod_bound;
use crate::Income;
use crate::IncomeTax;
use crate::IncomeTaxError;

verus! {

/// Tax in the lower progression zone, for a whole-unit income of
/// `11_605 + d`: the statutory formula `(922.98·y + 1400)·y` with
/// `y = d / 10_000`, written over integers with the common denominator
/// `10_000_000_000` and floored.
pub open spec fn lower_progression_tax(d: int) -> int {
    (92_298 * d * d + 1_400_000_000 * d) / 10_000_000_000
}

/// Tax in the upper progression zone, for a whole-unit income of
/// `17_005 + e`: the statutory formula `(181.19·z + 2397)·z + 1025.38` with
/// `z = e / 10_000`, written over integers with the common denominator
/// `10_000_000_000` and floored.
pub open spec fn upper_progression_tax(e: int) -> int {
    (18_119 * e * e + 2_397_000_000 * e + 10_253_800_000_000) / 10_000_000_000
}

/// Tax in the first proportional zone: the statutory formula
/// `0.42·income − 10_602.13`, written over integers in hundredths and
/// floored.
pub open spec fn top_rate_tax(income: int) -> int {
    (42 * income - 1_060_213) / 100
}

/// Tax in the second proportional zone: the statutory formula
/// `0.45·income − 18_936.88`, written over integers in hundredths and
/// floored.
pub open spec fn rich_tax(income: int) -> int {
    (45 * income - 1_893_688) / 100
}

/// The German income tax of 2024 (§ 32a EStG) on an income already floored
/// to whole currency units: the bracket holding the income is selected by
/// half-open intervals, its formula applied, and the result floored to
/// whole currency units.
pub open spec fn tax_2024(income: int) -> int {
    if income < 11_605 {
        0
    } else if income < 17_005 {
        lower_progression_tax(income - 11_605)
    } else if income < 66_760 {
        upper_progression_tax(income - 17_005)
    } else if income < 277_825 {
        top_rate_tax(income)
    } else {
        rich_tax(income)
    }
}

/// A non-negative number below `bound * divisor` divides by `divisor` to a
/// non-negative quotient below `bound`.
proof fn lemma_div_bound(n: int, divisor: int, bound: int)
    requires
        0 <= n,
        0 < divisor,
        n < bound * divisor,
    ensures
        0 <= n / divisor < bound,
{
    lemma_div_pos_is_pos(n, divisor);
    lemma_fundamental_div_mod(n, divisor);
    lemma_mod_bound(n, divisor);
    assert(divisor * (n / divisor) < bound * divisor);
    assert((n / divisor) < bound) by (nonlinear_arith)
        requires
            0 < divisor,
            divisor * (n / divisor) < bound * divisor,
    ;
}

/// Computes `tax_2024` on an income in whole currency units, carrying the
/// scaled integer numerators in 128-bit arithmetic.
fn tax_for_amount(income: u64) -> (tax: u64)
    ensures
        tax == tax_2024(income as int),
{
    if income < 11_605 {
        0
    } else if income < 17_005 {
        let d: u128 = (income - 11_605) as u128;
        assert(92_298 * d * d <= 92_298 * 5_399 * 5_399) by (nonlinear_arith)
            requires
                d <= 5_399,
        ;
        let numerator: u128 = 92_298 * d * d + 1_400_000_000 * d;
        proof {
            lemma_div_bound(numerator as int, 10_000_000_000, 1_025);
        }
        (numerator / 10_000_000_000) as u64
    } else if income < 66_760 {
        let e: u128 = (income - 17_005) as u128;
        assert(18_119 * e * e <= 18_119 * 49_754 * 49_754) by (nonlinear_arith)
            requires
                e <= 49_754,
        ;
        let numerator: u128 = 18_119 * e * e + 2_397_000_000 * e + 10_253_800_000_000;
        proof {
            lemma_div_bound(numerator as int, 10_000_000_000, 17_437);
        }
        (numerator / 10_000_000_000) as u64
    } else if income < 277_825 {
        let numerator: u128 = 42 * (income as u128) - 1_060_213;
        proof {
            lemma_div_bound(numerator as int, 100, 106_084);
        }
        (numerator / 100) as u64
    } else {
        let numerator: u128 = 45 * (income as u128) - 1_893_688;
        proof {
            lemma_div_bound(numerator as int, 100, 0x1_0000_0000_0000_0000);
        }
        (numerator / 100) as u64
    }
}

/// Provides different calculations based on the year.
#[derive(Clone, Copy, Debug)]
pub enum IncomeTaxType {
    /// Income taxes based on rules for the year 2024.
    IncomeTax2024(IncomeTax2024),
}

impl IncomeTax for IncomeTaxType {
    open spec fn tax_model(&self) -> spec_fn(u64) -> int {
        match self {
            IncomeTaxType::IncomeTax2024(tax) => tax.tax_model(),
        }
    }

    open spec fn year_model(&self) -> u32 {
        match self {
            IncomeTaxType::IncomeTax2024(tax) => tax.year_model(),
        }
    }

    proof fn tax_model_in_range(&self, income: u64) {
        match self {
            IncomeTaxType::IncomeTax2024(tax) => tax.tax_model_in_range(income),
        }
    }

    fn year(&self) -> (y: u32) {
        match self {
            IncomeTaxType::IncomeTax2024(tax) => tax.year(),
        }
    }

    fn calculate(&self, income: Income) -> (r: Result<u64, IncomeTaxError>) {
        match self {
            IncomeTaxType::IncomeTax2024(tax) => tax.calculate(income),
        }
    }

    fn tax_refund(&self, income_before: Income, income_after: Income) -> (r: Result<
        i64,
        IncomeTaxError,
    >) {
        match self {
            IncomeTaxType::IncomeTax2024(tax) => tax.tax_refund(income_before, income_after),
        }
    }
}

/// Configuration for income taxes according to § 32a EStG (2024).
#[derive(Clone, Copy, Debug)]
pub struct IncomeTax2024;

impl IncomeTax for IncomeTax2024 {
    open spec fn tax_model(&self) -> spec_fn(u64) -> int {
        |income: u64| tax_2024(income as int)
    }

    open spec fn year_model(&self) -> u32 {
        2024
    }

    proof fn tax_model_in_range(&self, income: u64) {
        lemma_tax_2024_nonnegative(income as int);
        lemma_tax_2024_monotonic(income as int, u64::MAX as int);
        assert(rich_tax(u64::MAX as int) < 0x8000_0000_0000_0000);
    }

    fn year(&self) -> (y: u32) {
        2024
    }

    fn calculate(&self, income: Income) -> (r: Result<u64, IncomeTaxError>) {
        match income {
            Income::NotFinite => Err(IncomeTaxError::IncomeNotFinite(income)),
            Income::Negative => Err(IncomeTaxError::NegativeIncome(income)),
            Income::Amount(amount) => Ok(tax_for_amount(amount)),
        }
    }
}

/// Non-negativity: the 2024 tax on any non-negative whole-unit income is
/// itself non-negative.
pub proof fn lemma_tax_2024_nonnegative(income: int)
    requires
        0 <= income,
    ensures
        0 <= tax_2024(income),
{
    if income < 11_605 {
    } else if income < 17_005 {
        let d = income - 11_605;
        assert(0 <= 92_298 * d * d + 1_400_000_000 * d) by (nonlinear_arith)
            requires
                0 <= d,
        ;
        lemma_div_pos_is_pos(92_298 * d * d + 1_400_000_000 * d, 10_000_000_000);
    } else if income < 66_760 {
        let e = income - 17_005;
        assert(0 <= 18_119 * e * e + 2_397_000_000 * e + 10_253_800_000_000) by (nonlinear_arith)
            requires
                0 <= e,
        ;
        lemma_div_pos_is_pos(18_119 * e * e + 2_397_000_000 * e + 10_253_800_000_000, 10_000_000_000);
    } else if income < 277_825 {
        lemma_div_pos_is_pos(42 * income - 1_060_213, 100);
    } else {
        lemma_div_pos_is_pos(45 * income - 1_893_688, 100);
    }
}

/// The tax never drops from one whole-unit income to the next.
proof fn lemma_tax_2024_step(income: int)
    requires
        0 <= income,
    ensures
        tax_2024(income) <= tax_2024(income + 1),
{
    let next = income + 1;
    if next < 11_605 {
    } else if next == 11_605 {
    } else if next < 17_005 {
        lemma_lower_progression_monotonic(income - 11_605, next - 11_605);
    } else if next == 17_005 {
        assert(lower_progression_tax(5_399) == 1_024);
        assert(upper_progression_tax(0) == 1_025);
    } else if next < 66_760 {
        lemma_upper_progression_monotonic(income - 17_005, next - 17_005);
    } else if next == 66_760 {
        assert(upper_progression_tax(49_754) == 17_436);
        assert(top_rate_tax(66_760) == 17_437);
    } else if next < 277_825 {
        lemma_div_is_ordered(42 * income - 1_060_213, 42 * next - 1_060_213, 100);
    } else if next == 277_825 {
        assert(top_rate_tax(277_824) == 106_083);
        assert(rich_tax(277_825) == 106_084);
    } else {
        lemma_div_is_ordered(45 * income - 1_893_688, 45 * next - 1_893_688, 100);
    }
}

/// Monotonicity: between two non-negative whole-unit incomes, the higher
/// one never bears the lower 2024 tax.
pub proof fn lemma_tax_2024_monotonic(lower: int, higher: int)
    requires
        0 <= lower <= higher,
    ensures
        tax_2024(lower) <= tax_2024(higher),
    decreases higher - lower,
{
    if lower < higher {
        lemma_tax_2024_monotonic(lower, higher - 1);
        lemma_tax_2024_step(higher - 1);
    }
}

/// The lower progression formula never drops as the income offset grows.
proof fn lemma_lower_progression_monotonic(d1: int, d2: int)
    requires
        0 <= d1 <= d2,
    ensures
        lower_progression_tax(d1) <= lower_progression_tax(d2),
{
    assert(92_298 * d1 * d1 + 1_400_000_000 * d1 <= 92_298 * d2 * d2 + 1_400_000_000 * d2)
        by (nonlinear_arith)
        requires
            0 <= d1 <= d2,
    ;
    lemma_div_is_ordered(
        92_298 * d1 * d1 + 1_400_000_000 * d1,
        92_298 * d2 * d2 + 1_400_000_000 * d2,
        10_000_000_000,
    );
}

/// The upper progression formula never drops as the income offset grows.
proof fn lemma_upper_progression_monotonic(e1: int, e2: int)
    requires
        0 <= e1 <= e2,
    ensures
        upper_progression_tax(e1) <= upper_progression_tax(e2),
{
    assert(18_119 * e1 * e1 + 2_397_000_000 * e1 <= 18_119 * e2 * e2 + 2_397_000_000 * e2)
        by (nonlinear_arith)
        requires
            0 <= e1 <= e2,
    ;
    lemma_div_is_ordered(
        18_119 * e1 * e1 + 2_397_000_000 * e1 + 10_253_800_000_000,
        18_119 * e2 * e2 + 2_397_000_000 * e2 + 10_253_800_000_000,
        10_000_000_000,
    );
}

/// Boundary continuity: each bracket's formula, carried to the income at
/// which the next bracket begins, agrees there with the next bracket's
/// formula once both are floored to whole currency units.
pub proof fn lemma_boundary_continuity()
    ensures
        lower_progression_tax(0) == 0,
        lower_progression_tax(17_005 - 11_605) == upper_progression_tax(0),
        upper_progression_tax(66_760 - 17_005) == top_rate_tax(66_760),
        top_rate_tax(277_825) == rich_tax(277_825),
{
    assert(lower_progression_tax(5_400) == 1_025);
    assert(upper_progression_tax(0) == 1_025);
    assert(upper_progression_tax(49_755) == 17_437);
    assert(top_rate_tax(66_760) == 17_437);
    assert(top_rate_tax(277_825) == 106_084);
    assert(rich_tax(277_825) == 106_084);
}

} // verus!

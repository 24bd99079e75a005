use income_tax::germany::IncomeTax2024;
use income_tax::germany::IncomeTaxType;
use income_tax::Income;
use income_tax::IncomeTax;
use income_tax::IncomeTaxError;

#[test]
fn test_zero_income() {
    let tax = IncomeTax2024;
    assert_eq!(tax.calculate(Income::Amount(0)), Ok(0));
}

#[test]
fn test_below_basic_allowance() {
    let tax = IncomeTax2024;
    assert_eq!(tax.calculate(Income::Amount(11_000)), Ok(0)); // Below Grundfreibetrag, should be 0 tax
}

#[test]
fn test_at_basic_allowance() {
    let tax = IncomeTax2024;
    assert_eq!(tax.calculate(Income::Amount(11_605)), Ok(0)); // Grundfreibetrag, no tax
}

#[test]
fn test_in_lower_progression_zone() {
    let tax = IncomeTax2024;
    let result = tax.calculate(Income::Amount(12_000));
    assert_eq!(result, Ok(56)); // Tax should be positive
}

#[test]
fn test_in_upper_progression_zone() {
    let tax = IncomeTax2024;
    let result = tax.calculate(Income::Amount(20_000));
    assert_eq!(result, Ok(1_759)); // Tax should be positive and higher than lower zones
}

#[test]
fn test_in_upper_progression_zone_2() {
    let tax = IncomeTax2024;
    let result = tax.calculate(Income::Amount(50_000));
    assert_eq!(result, Ok(10_906));
}

#[test]
fn test_in_top_rate_zone() {
    let tax = IncomeTax2024;
    let result = tax.calculate(Income::Amount(70_000));
    assert_eq!(result, Ok(18_797)); // Tax should be significant
}

#[test]
fn test_at_rich_tax_zone() {
    let tax = IncomeTax2024;
    let result = tax.calculate(Income::Amount(300_000));
    assert_eq!(result, Ok(116_063)); // Reichensteuer applies
}

#[test]
fn test_negative_income() {
    // An income of -5000.0 classifies as finite but negative.
    let tax = IncomeTax2024;
    assert!(tax.calculate(Income::Negative).is_err());
}

#[test]
fn test_infinite_income() {
    // Both positive and negative infinity classify as not finite.
    let tax = IncomeTax2024;
    assert_eq!(
        tax.calculate(Income::NotFinite),
        Err(IncomeTaxError::IncomeNotFinite(Income::NotFinite))
    );
    assert_eq!(
        tax.calculate(Income::NotFinite),
        Err(IncomeTaxError::IncomeNotFinite(Income::NotFinite))
    );
}

#[test]
fn test_non_finite_values() {
    // A NaN amount classifies as not finite.
    let tax = IncomeTax2024;
    assert!(tax.calculate(Income::NotFinite).is_err());
}

#[test]
fn test_large_income() {
    let tax = IncomeTax2024;
    let result = tax.calculate(Income::Amount(1_000_000));
    assert!(result.expect("nonzero tax expected") > 0);
}

#[test]
fn test_tax_refund() {
    let tax = IncomeTax2024;
    let refund = tax.tax_refund(Income::Amount(100_000), Income::Amount(50_000));
    assert_eq!(refund, Ok(20_491));
}

#[test]
fn test_bracket_boundaries() {
    let tax = IncomeTax2024;
    assert_eq!(tax.calculate(Income::Amount(11_604)), Ok(0));
    assert_eq!(tax.calculate(Income::Amount(17_004)), Ok(1_024));
    assert_eq!(tax.calculate(Income::Amount(17_005)), Ok(1_025));
    assert_eq!(tax.calculate(Income::Amount(66_759)), Ok(17_436));
    assert_eq!(tax.calculate(Income::Amount(66_760)), Ok(17_437));
    assert_eq!(tax.calculate(Income::Amount(277_824)), Ok(106_083));
    assert_eq!(tax.calculate(Income::Amount(277_825)), Ok(106_084));
}

#[test]
fn test_monotonic_samples() {
    let tax = IncomeTax2024;
    let incomes = [
        0,
        11_604,
        11_605,
        12_000,
        17_004,
        17_005,
        20_000,
        66_759,
        66_760,
        100_000,
        277_824,
        277_825,
        1_000_000,
        u64::MAX,
    ];
    let mut previous = 0;
    for income in incomes {
        let t = tax.calculate(Income::Amount(income)).unwrap();
        assert!(previous <= t);
        previous = t;
    }
}

#[test]
fn test_largest_amount() {
    let tax = IncomeTax2024;
    assert_eq!(
        tax.calculate(Income::Amount(u64::MAX)),
        Ok(8_301_034_833_169_279_289)
    );
}

#[test]
fn test_refund_identity() {
    let tax = IncomeTax2024;
    for income in [0, 11_605, 42_123, 277_825, u64::MAX] {
        assert_eq!(
            tax.tax_refund(Income::Amount(income), Income::Amount(income)),
            Ok(0)
        );
    }
}

#[test]
fn test_refund_tax_due() {
    // Income rose, so more tax is owed: the refund is negative.
    let tax = IncomeTax2024;
    let refund = tax.tax_refund(Income::Amount(50_000), Income::Amount(100_000));
    assert_eq!(refund, Ok(-20_491));
}

#[test]
fn test_refund_error_precedence() {
    let tax = IncomeTax2024;
    assert_eq!(
        tax.tax_refund(Income::NotFinite, Income::Amount(50_000)),
        Err(IncomeTaxError::IncomeNotFinite(Income::NotFinite))
    );
    assert_eq!(
        tax.tax_refund(Income::Negative, Income::NotFinite),
        Err(IncomeTaxError::NegativeIncome(Income::Negative))
    );
    assert_eq!(
        tax.tax_refund(Income::Amount(50_000), Income::Negative),
        Err(IncomeTaxError::NegativeIncome(Income::Negative))
    );
}

#[test]
fn test_year() {
    let tax = IncomeTax2024;
    assert_eq!(tax.year(), 2024);
}

#[test]
fn test_dispatch_by_year() {
    let tax = IncomeTaxType::IncomeTax2024(IncomeTax2024);
    assert_eq!(tax.year(), 2024);
    assert_eq!(tax.calculate(Income::Amount(70_000)), Ok(18_797));
    assert_eq!(
        tax.tax_refund(Income::Amount(100_000), Income::Amount(50_000)),
        Ok(20_491)
    );
    assert_eq!(
        tax.calculate(Income::Negative),
        Err(IncomeTaxError::NegativeIncome(Income::Negative))
    );
}

#[test]
fn test_error_messages() {
    assert_eq!(
        IncomeTaxError::IncomeNotFinite(Income::NotFinite).message(),
        "The provided income was not a finite number"
    );
    assert_eq!(
        IncomeTaxError::NegativeIncome(Income::Negative).message(),
        "The provided income was negative"
    );
}

use tx_engine::account::Account;
use tx_engine::amount::Amount;
use tx_engine::report::{bool_field, client_field, decimal_field, header_fields, summary_fields};

fn report_amount(mantissa: i128, scale: u32) -> Amount {
    Amount::from_parts(mantissa, scale).unwrap()
}

#[test]
fn test_decimal_formatting() {
    assert_eq!(decimal_field(&report_amount(0, 0)), "0");
    assert_eq!(decimal_field(&report_amount(0, 1)), "0.0");
    assert_eq!(decimal_field(&report_amount(1, 6)), "0.0000");
    assert_eq!(decimal_field(&report_amount(9, 5)), "0.0001");
    assert_eq!(decimal_field(&report_amount(2, 4)), "0.0002");
    assert_eq!(
        decimal_field(&report_amount(12893273892792837979823792830, 0)),
        "12893273892792837979823792830"
    );
    assert_eq!(
        decimal_field(&report_amount(12893273892792837979823792830, 7)),
        "1289327389279283797982.3793"
    );
}

#[test]
fn test_u16_formatting() {
    assert_eq!(client_field(0), "0");
    assert_eq!(client_field(65535), "65535");
}

#[test]
fn test_bool_formatting() {
    assert_eq!(bool_field(true), "true");
    assert_eq!(bool_field(false), "false");
}

#[test]
fn test_header_fields() {
    let header = header_fields();
    assert_eq!(header, vec!["client", "available", "held", "total", "locked"]);
}

#[test]
fn test_summary_fields_row() {
    let mut account_a = Account::new(1);
    let mut account_b = Account::new(2);

    account_a.deposit(2, report_amount(1328973498, 8)).unwrap();
    account_a.deposit(3, report_amount(1, 0)).unwrap();
    account_a.dispute(3).unwrap();
    account_a.chargeback(3).unwrap();

    account_b.deposit(3, report_amount(13898273, 0)).unwrap();

    let row_a = summary_fields(&account_a.summary());
    assert_eq!(row_a, vec!["1", "13.2897", "0", "13.2897", "true"]);

    let row_b = summary_fields(&account_b.summary());
    assert_eq!(row_b, vec!["2", "13898273", "0", "13898273", "false"]);
}

use tx_engine::parse::{
    parse_amount, parse_u16_digits, parse_u32_digits, record_kind, AmountParse, IntParseFailure,
    RecordKind,
};

#[test]
fn test_parse_tx_id_success_cases() {
    assert_eq!(parse_u32_digits(b"0").unwrap(), 0);
    assert_eq!(parse_u32_digits(b"1").unwrap(), 1);
    assert_eq!(parse_u32_digits(b"83").unwrap(), 83);
    assert_eq!(parse_u32_digits(b"+2").unwrap(), 2);
    assert_eq!(parse_u32_digits(b"4294967295").unwrap(), 4294967295);
}

#[test]
fn test_parse_tx_id_failure_cases() {
    assert_eq!(parse_u32_digits(b"0.0").unwrap_err(), IntParseFailure::InvalidDigit);
    assert_eq!(parse_u32_digits(b"hello").unwrap_err(), IntParseFailure::InvalidDigit);
    assert_eq!(parse_u32_digits(b"-1").unwrap_err(), IntParseFailure::InvalidDigit);
    assert_eq!(parse_u32_digits(b"4294967296").unwrap_err(), IntParseFailure::TooLarge);
    assert_eq!(parse_u32_digits(b"").unwrap_err(), IntParseFailure::Empty);
    assert_eq!(parse_u32_digits(b"+").unwrap_err(), IntParseFailure::InvalidDigit);
}

#[test]
fn test_parse_client_id_success_cases() {
    assert_eq!(parse_u16_digits(b"0").unwrap(), 0);
    assert_eq!(parse_u16_digits(b"+2").unwrap(), 2);
    assert_eq!(parse_u16_digits(b"65535").unwrap(), 65535);
}

#[test]
fn test_parse_client_id_failure_cases() {
    assert_eq!(parse_u16_digits(b"0.0").unwrap_err(), IntParseFailure::InvalidDigit);
    assert_eq!(parse_u16_digits(b"65536").unwrap_err(), IntParseFailure::TooLarge);
}

#[test]
fn test_parse_amount_success_cases() {
    match parse_amount("0") {
        AmountParse::Value(a) => assert_eq!((a.mantissa, a.scale), (0, 0)),
        other => panic!("expected a value, got {:?}", other),
    }
    match parse_amount("2") {
        AmountParse::Value(a) => assert_eq!((a.mantissa, a.scale), (2, 0)),
        other => panic!("expected a value, got {:?}", other),
    }
    match parse_amount("65535.2873") {
        AmountParse::Value(a) => assert_eq!((a.mantissa, a.scale), (655352873, 4)),
        other => panic!("expected a value, got {:?}", other),
    }
}

#[test]
fn test_parse_amount_failure_cases() {
    assert!(matches!(parse_amount("hello"), AmountParse::Invalid));
    assert!(matches!(parse_amount("-1"), AmountParse::Negative));
    assert!(matches!(parse_amount("-1.2902"), AmountParse::Negative));
    assert!(matches!(parse_amount("-1e2"), AmountParse::Invalid));
}

#[test]
fn test_record_kind_dispatch() {
    assert_eq!(record_kind(&String::from("deposit")), RecordKind::Deposit);
    assert_eq!(record_kind(&String::from("withdrawal")), RecordKind::Withdrawal);
    assert_eq!(record_kind(&String::from("dispute")), RecordKind::Dispute);
    assert_eq!(record_kind(&String::from("resolve")), RecordKind::Resolve);
    assert_eq!(record_kind(&String::from("chargeback")), RecordKind::Chargeback);
    assert_eq!(record_kind(&String::from("transfer")), RecordKind::Unsupported);
    assert_eq!(record_kind(&String::from("Deposit")), RecordKind::Unsupported);
}

#[test]
fn test_header_indices_success() {
    let headers = vec![
        String::from("type"),
        String::from("tx"),
        String::from("client"),
        String::from("amount"),
    ];
    let ix = tx_engine::parse::header_indices(&headers).unwrap();
    assert_eq!(ix.type_index, 0);
    assert_eq!(ix.tx_index, 1);
    assert_eq!(ix.client_index, 2);
    assert_eq!(ix.amount_index, 3);
}

#[test]
fn test_header_indices_last_occurrence_wins() {
    let headers = vec![
        String::from("type"),
        String::from("tx"),
        String::from("tx"),
        String::from("client"),
        String::from("amount"),
    ];
    let ix = tx_engine::parse::header_indices(&headers).unwrap();
    assert_eq!(ix.tx_index, 2);
}

#[test]
fn test_header_indices_missing_columns() {
    let missing_tx = vec![
        String::from("type"),
        String::from("client"),
        String::from("amount"),
        String::from("other column"),
    ];
    assert_eq!(
        format!("{:?}", tx_engine::parse::header_indices(&missing_tx).unwrap_err()),
        "InvalidArgument(\"Expected a column named [tx].\")"
    );

    let missing_type = vec![
        String::from("col1"),
        String::from("tx"),
        String::from("col2"),
        String::from("client"),
        String::from("amount"),
        String::from("col3"),
    ];
    assert_eq!(
        format!("{:?}", tx_engine::parse::header_indices(&missing_type).unwrap_err()),
        "InvalidArgument(\"Expected a column named [type].\")"
    );

    let missing_client = vec![
        String::from("type"),
        String::from("tx"),
        String::from("amount"),
        String::from(""),
    ];
    assert_eq!(
        format!("{:?}", tx_engine::parse::header_indices(&missing_client).unwrap_err()),
        "InvalidArgument(\"Expected a column named [client].\")"
    );

    let missing_amount = vec![
        String::from(""),
        String::from("type"),
        String::from("client"),
        String::from("tx"),
    ];
    assert_eq!(
        format!("{:?}", tx_engine::parse::header_indices(&missing_amount).unwrap_err()),
        "InvalidArgument(\"Expected a column named [amount].\")"
    );
}

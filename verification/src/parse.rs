use crate::amount::{lemma_value_sign, Amount};
use crate::result::TxError;
use vstd::prelude::*;
use vstd::string::StringExecFns;

verus! {

/// Why an identifier field failed to parse; the taxonomy matches what the
/// standard integer parser reports.
#[derive(Debug, Clone, Copy, PartialEq, Eq, Structural)]
pub enum IntParseFailure {
    Empty,
    InvalidDigit,
    TooLarge,
}

/// Whether `b` is the code of a decimal digit.
pub open spec fn is_digit_byte(b: u8) -> bool {
    48 <= b <= 57
}

/// Folds the remaining digit bytes into `acc`, reporting the first failure:
/// a non-digit byte, or a value growing past `max`.
pub open spec fn int_parse_fold(t: Seq<u8>, acc: int, max: int) -> Result<int, IntParseFailure>
    decreases t.len(),
{
    if t.len() == 0 {
        Ok(acc)
    } else if !is_digit_byte(t[0]) {
        Err(IntParseFailure::InvalidDigit)
    } else if acc * 10 + (t[0] - 48) > max {
        Err(IntParseFailure::TooLarge)
    } else {
        int_parse_fold(t.skip(1), acc * 10 + (t[0] - 48), max)
    }
}

/// What parsing an unsigned identifier up to `max` yields: an optional
/// leading plus sign, then at least one digit, with no overflow.
pub open spec fn uint_parse_spec(s: Seq<u8>, max: int) -> Result<int, IntParseFailure> {
    if s.len() == 0 {
        Err(IntParseFailure::Empty)
    } else {
        let t = if s[0] == 43 {
            s.skip(1)
        } else {
            s
        };
        if t.len() == 0 {
            Err(IntParseFailure::InvalidDigit)
        } else {
            int_parse_fold(t, 0, max)
        }
    }
}

/// Parses digit bytes into a value bounded by `max`.
fn parse_digits_bounded(v: &[u8], max: u32) -> (r: Result<u32, IntParseFailure>)
    ensures
        match r {
            Ok(n) => n <= max && uint_parse_spec(v@, max as int) == Ok::<
                int,
                IntParseFailure,
            >(n as int),
            Err(e) => uint_parse_spec(v@, max as int) == Err::<int, IntParseFailure>(e),
        },
{
    let n = v.len();
    if n == 0 {
        return Err(IntParseFailure::Empty);
    }
    let start: usize = if v[0] == 43 {
        1
    } else {
        0
    };
    proof {
        if start == 0 {
            assert(v@.skip(0) =~= v@);
        }
    }
    if start == n {
        return Err(IntParseFailure::InvalidDigit);
    }
    let mut acc: u32 = 0;
    let mut i: usize = start;
    while i < n
        invariant
            start <= i <= n,
            n == v@.len(),
            acc <= max,
            uint_parse_spec(v@, max as int) == int_parse_fold(
                v@.skip(i as int),
                acc as int,
                max as int,
            ),
        decreases n - i,
    {
        let b = v[i];
        proof {
            assert(v@.skip(i as int)[0] == v@[i as int]);
        }
        if b < 48 || b > 57 {
            return Err(IntParseFailure::InvalidDigit);
        }
        let next: u64 = (acc as u64) * 10 + ((b - 48) as u64);
        if next > max as u64 {
            return Err(IntParseFailure::TooLarge);
        }
        proof {
            assert(v@.skip(i as int).skip(1) =~= v@.skip(i as int + 1));
        }
        acc = next as u32;
        i = i + 1;
    }
    proof {
        assert(v@.skip(n as int).len() == 0);
    }
    Ok(acc)
}

/// Parses a transaction id: plain decimal digits with an optional leading
/// plus sign, range-checked against the 32-bit unsigned bound.
pub fn parse_u32_digits(v: &[u8]) -> (r: Result<u32, IntParseFailure>)
    ensures
        match r {
            Ok(n) => uint_parse_spec(v@, u32::MAX as int) == Ok::<int, IntParseFailure>(n as int),
            Err(e) => uint_parse_spec(v@, u32::MAX as int) == Err::<int, IntParseFailure>(e),
        },
{
    parse_digits_bounded(v, u32::MAX)
}

/// Parses a client id: as `parse_u32_digits`, range-checked against the
/// 16-bit unsigned bound.
pub fn parse_u16_digits(v: &[u8]) -> (r: Result<u16, IntParseFailure>)
    ensures
        match r {
            Ok(n) => uint_parse_spec(v@, u16::MAX as int) == Ok::<int, IntParseFailure>(n as int),
            Err(e) => uint_parse_spec(v@, u16::MAX as int) == Err::<int, IntParseFailure>(e),
        },
{
    match parse_digits_bounded(v, 65535) {
        Ok(n) => {
            proof {
                assert(n <= 65535);
            }
            Ok(n as u16)
        },
        Err(e) => Err(e),
    }
}

/// What the decimal library parses out of an amount field: the coefficient
/// and scale on success, nothing when the text is not a plain decimal. The
/// result depends on the characters alone.
pub uninterp spec fn dec_parse(s: Seq<char>) -> Option<(int, int)>;

/// Relies on rust_decimal's `from_str_exact`: whether the text parses, and
/// the coefficient and scale it parses to, depend on the characters alone;
/// every parsed decimal is within the 96-bit range.
#[verifier::external_body]
fn parse_decimal_raw(s: &str) -> (r: Option<Amount>)
    ensures
        match r {
            Some(a) => a.inv() && dec_parse(s@) == Some((a.mantissa as int, a.scale as int)),
            None => dec_parse(s@) is None,
        },
{
    match rust_decimal::Decimal::from_str_exact(s) {
        Ok(d) => Some(Amount { mantissa: d.mantissa(), scale: d.scale() }),
        Err(_) => None,
    }
}

/// Outcome of parsing an amount field: a usable non-negative amount, text
/// that is no decimal at all, or a decimal below zero, which the stream
/// format refuses.
#[derive(Debug, Clone, Copy)]
pub enum AmountParse {
    Value(Amount),
    Invalid,
    Negative,
}

/// Parses an amount field and refuses negative values.
pub fn parse_amount(s: &str) -> (r: AmountParse)
    ensures
        match dec_parse(s@) {
            None => r is Invalid,
            Some(p) => if p.0 < 0 {
                r is Negative
            } else {
                r matches AmountParse::Value(a) && a.inv() && a.mantissa == p.0 && a.scale == p.1
            },
        },
{
    match parse_decimal_raw(s) {
        None => AmountParse::Invalid,
        Some(a) => {
            proof {
                lemma_value_sign(a);
            }
            if a.is_negative() {
                AmountParse::Negative
            } else {
                AmountParse::Value(a)
            }
        },
    }
}

/// Where the four required columns sit in the header row.
#[derive(Debug, Clone, Copy, PartialEq, Eq, Structural)]
pub struct CsvHeaderIndices {
    pub type_index: usize,
    pub tx_index: usize,
    pub client_index: usize,
    pub amount_index: usize,
}

/// The position of the last header equal to `name`, if any; a repeated column
/// name is resolved in favor of its rightmost occurrence.
pub open spec fn last_match(hs: Seq<Seq<char>>, name: Seq<char>) -> Option<int>
    decreases hs.len(),
{
    if hs.len() == 0 {
        None
    } else if hs.last() == name {
        Some(hs.len() - 1)
    } else {
        last_match(hs.drop_last(), name)
    }
}

/// Whether `opt` is exactly the last match of `name` in `hs`.
pub open spec fn is_last_match(hs: Seq<Seq<char>>, name: Seq<char>, opt: Option<usize>) -> bool {
    match opt {
        None => last_match(hs, name) is None,
        Some(j) => last_match(hs, name) == Some(j as int),
    }
}

/// The view of a header row: each header's characters.
pub open spec fn headers_view(headers: Seq<String>) -> Seq<Seq<char>> {
    headers.map_values(|h: String| h@)
}

fn scan_header(headers: &Vec<String>, name: &String) -> (r: Option<usize>)
    ensures
        is_last_match(headers_view(headers@), name@, r),
{
    let n = headers.len();
    let mut found: Option<usize> = None;
    let mut i: usize = 0;
    proof {
        assert(headers_view(headers@).take(0) =~= Seq::<Seq<char>>::empty());
    }
    while i < n
        invariant
            i <= n,
            n == headers@.len(),
            is_last_match(headers_view(headers@).take(i as int), name@, found),
        decreases n - i,
    {
        proof {
            let hs = headers_view(headers@);
            assert(hs.take(i as int + 1).drop_last() =~= hs.take(i as int));
            assert(hs.take(i as int + 1).last() == headers@[i as int]@);
        }
        if headers[i] == *name {
            found = Some(i);
        }
        i = i + 1;
    }
    proof {
        assert(headers_view(headers@).take(n as int) =~= headers_view(headers@));
    }
    found
}

fn missing_column_error(name: &str) -> (e: TxError)
    ensures
        e matches TxError::InvalidArgument(m) && m@ == "Expected a column named ["@ + name@
            + "]."@,
{
    let mut s = String::from_str("Expected a column named [");
    s.append(name);
    s.append("].");
    proof {
        assert(s@ =~= "Expected a column named ["@ + name@ + "]."@);
    }
    TxError::InvalidArgument(s)
}

/// Finds the four required columns in a header row whose entries the caller
/// has already trimmed and lowercased. A repeated name resolves to its last
/// occurrence; the first missing column, checked in the order type, tx,
/// client, amount, is reported by name.
pub fn header_indices(headers: &Vec<String>) -> (r: Result<CsvHeaderIndices, TxError>)
    ensures
        match r {
            Ok(ix) => {
                &&& is_last_match(headers_view(headers@), "type"@, Some(ix.type_index))
                &&& is_last_match(headers_view(headers@), "tx"@, Some(ix.tx_index))
                &&& is_last_match(headers_view(headers@), "client"@, Some(ix.client_index))
                &&& is_last_match(headers_view(headers@), "amount"@, Some(ix.amount_index))
            },
            Err(e) => {
                &&& e matches TxError::InvalidArgument(m) && {
                    let hs = headers_view(headers@);
                    if last_match(hs, "type"@) is None {
                        m@ == "Expected a column named ["@ + "type"@ + "]."@
                    } else if last_match(hs, "tx"@) is None {
                        m@ == "Expected a column named ["@ + "tx"@ + "]."@
                    } else if last_match(hs, "client"@) is None {
                        m@ == "Expected a column named ["@ + "client"@ + "]."@
                    } else {
                        m@ == "Expected a column named ["@ + "amount"@ + "]."@
                    }
                }
                &&& {
                    let hs = headers_view(headers@);
                    ||| last_match(hs, "type"@) is None
                    ||| last_match(hs, "tx"@) is None
                    ||| last_match(hs, "client"@) is None
                    ||| last_match(hs, "amount"@) is None
                }
            },
        },
{
    let type_index = scan_header(headers, &String::from_str("type"));
    let tx_index = scan_header(headers, &String::from_str("tx"));
    let client_index = scan_header(headers, &String::from_str("client"));
    let amount_index = scan_header(headers, &String::from_str("amount"));
    let type_index = match type_index {
        Some(i) => i,
        None => {
            return Err(missing_column_error("type"));
        },
    };
    let tx_index = match tx_index {
        Some(i) => i,
        None => {
            return Err(missing_column_error("tx"));
        },
    };
    let client_index = match client_index {
        Some(i) => i,
        None => {
            return Err(missing_column_error("client"));
        },
    };
    let amount_index = match amount_index {
        Some(i) => i,
        None => {
            return Err(missing_column_error("amount"));
        },
    };
    Ok(CsvHeaderIndices { type_index, tx_index, client_index, amount_index })
}

/// The transaction kinds an input record may name.
#[derive(Debug, Clone, Copy, PartialEq, Eq, Structural)]
pub enum RecordKind {
    Deposit,
    Withdrawal,
    Dispute,
    Resolve,
    Chargeback,
    Unsupported,
}

/// Which kind a (trimmed, lowercased) type field names.
pub open spec fn spec_record_kind(s: Seq<char>) -> RecordKind {
    if s == "deposit"@ {
        RecordKind::Deposit
    } else if s == "withdrawal"@ {
        RecordKind::Withdrawal
    } else if s == "dispute"@ {
        RecordKind::Dispute
    } else if s == "resolve"@ {
        RecordKind::Resolve
    } else if s == "chargeback"@ {
        RecordKind::Chargeback
    } else {
        RecordKind::Unsupported
    }
}

/// Classifies a type field, already trimmed and lowercased by the caller.
pub fn record_kind(kind: &String) -> (r: RecordKind)
    ensures
        r == spec_record_kind(kind@),
{
    if *kind == String::from_str("deposit") {
        RecordKind::Deposit
    } else if *kind == String::from_str("withdrawal") {
        RecordKind::Withdrawal
    } else if *kind == String::from_str("dispute") {
        RecordKind::Dispute
    } else if *kind == String::from_str("resolve") {
        RecordKind::Resolve
    } else if *kind == String::from_str("chargeback") {
        RecordKind::Chargeback
    } else {
        RecordKind::Unsupported
    }
}

} // verus!

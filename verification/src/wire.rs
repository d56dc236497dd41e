//! Interpretation of the remote node's JSON responses.
//!
//! The remote contract runtime is untyped from the client's side, so a
//! view-call result is modelled as a small closed variant and
//! normalized to display text by exact rules. serde_json does the
//! parsing; everything decided about the parsed value is verified.

use vstd::prelude::*;
use crate::errors::ClientError;
use vstd::string::StringExecFns;
use crate::text::{is_u64_text, val_of, parse_u64};

verus! {

#[verifier::external_type_specification]
#[verifier::external_body]
pub struct ExValue(serde_json::Value);

#[verifier::external_type_specification]
#[verifier::external_body]
pub struct ExJsonError(serde_json::Error);

/// A JSON value as the client reads it: the scalar shapes are kept,
/// everything else is carried as its raw compact text.
pub enum ResultValue {
    Str(String),
    Num(String),
    Bool(bool),
    Null,
    Other(String),
}

/// What parsing a body and reading two named fields of it yields:
/// `None` when the body is no JSON, else the two fields as closed
/// variants. A function of the body and key texts alone.
pub uninterp spec fn two_fields_of(body: Seq<char>, key1: Seq<char>, key2: Seq<char>) -> Option<
    (ResultValue, ResultValue),
>;

/// What parsing a body and reading one named field of it yields:
/// `None` when the body is no JSON, else that field as a closed
/// variant. A function of the body and key texts alone.
pub uninterp spec fn one_field_of(body: Seq<char>, key: Seq<char>) -> Option<ResultValue>;

/// Relies on serde_json's `from_str` (parsing is a function of the
/// body text alone; recursion-capped, never panics), `Value` indexing
/// (`Null` for a non-object or a missing key), and the `Value`
/// variants: strings and booleans are kept, a number becomes its own
/// text, any other shape its raw compact text.
#[verifier::external_body]
fn json_two_fields(body: &str, key1: &str, key2: &str) -> (r: Result<
    (ResultValue, ResultValue),
    serde_json::Error,
>)
    ensures
        r matches Ok(p) ==> two_fields_of(body@, key1@, key2@) == Some(p),
        r is Err ==> two_fields_of(body@, key1@, key2@) is None,
{
    let v: serde_json::Value = serde_json::from_str(body)?;
    let c = |x: &serde_json::Value| match x {
        serde_json::Value::String(s) => ResultValue::Str(s.clone()),
        serde_json::Value::Number(n) => ResultValue::Num(n.to_string()),
        serde_json::Value::Bool(b) => ResultValue::Bool(*b),
        serde_json::Value::Null => ResultValue::Null,
        o => ResultValue::Other(o.to_string()),
    };
    Ok((c(&v[key1]), c(&v[key2])))
}

/// Relies on serde_json's `from_str`, `Value` indexing and variants,
/// exactly as the two-field form does.
#[verifier::external_body]
fn json_one_field(body: &str, key: &str) -> (r: Result<ResultValue, serde_json::Error>)
    ensures
        r matches Ok(v) ==> one_field_of(body@, key@) == Some(v),
        r is Err ==> one_field_of(body@, key@) is None,
{
    let v: serde_json::Value = serde_json::from_str(body)?;
    Ok(match &v[key] {
        serde_json::Value::String(s) => ResultValue::Str(s.clone()),
        serde_json::Value::Number(n) => ResultValue::Num(n.to_string()),
        serde_json::Value::Bool(b) => ResultValue::Bool(*b),
        serde_json::Value::Null => ResultValue::Null,
        o => ResultValue::Other(o.to_string()),
    })
}

/// Relies on serde_json's `Error` `Display` impl: the parse-failure
/// detail as text.
#[verifier::external_body]
fn json_error_text(e: &serde_json::Error) -> String {
    format!("{}", e)
}

/// The display normalization of a view-call result: strings stay as
/// they are, numbers keep their textual form, booleans become `true` /
/// `false`, null becomes `null`, and any other shape its raw text.
pub open spec fn display_of(v: ResultValue) -> Seq<char> {
    match v {
        ResultValue::Str(s) => s@,
        ResultValue::Num(t) => t@,
        ResultValue::Bool(b) => if b {
            "true"@
        } else {
            "false"@
        },
        ResultValue::Null => "null"@,
        ResultValue::Other(t) => t@,
    }
}

/// Renders a result value for display, matching `display_of`.
pub fn to_display_string(v: &ResultValue) -> (r: String)
    ensures
        r@ == display_of(*v),
{
    match v {
        ResultValue::Str(s) => s.clone(),
        ResultValue::Num(t) => t.clone(),
        ResultValue::Bool(b) => if *b {
            "true".to_owned()
        } else {
            "false".to_owned()
        },
        ResultValue::Null => "null".to_owned(),
        ResultValue::Other(t) => t.clone(),
    }
}

/// Whether a response's `status` field reports success: exactly the
/// string `"success"`.
pub open spec fn is_success_status(v: ResultValue) -> bool {
    v matches ResultValue::Str(s) && s@ == "success"@
}

/// Whether a transaction status value is the terminal `"confirmed"`.
pub open spec fn is_confirmed_status(v: ResultValue) -> bool {
    v matches ResultValue::Str(s) && s@ == "confirmed"@
}

/// Normalizes a view-call response: the displayed result on success,
/// and "no result" (`None`, not an error) on any other status.
pub fn normalize_view(status: &ResultValue, result: &ResultValue) -> (r: Option<String>)
    ensures
        is_success_status(*status) ==> (r matches Some(s) && s@ == display_of(*result)),
        !is_success_status(*status) ==> r is None,
{
    let success: String = "success".to_owned();
    match status {
        ResultValue::Str(s) => if *s == success {
            Some(to_display_string(result))
        } else {
            None
        },
        _ => None,
    }
}

/// The transaction hash a submission response carries: the `tx_hash`
/// string, or empty when the field is absent or no string.
pub open spec fn tx_hash_of(v: ResultValue) -> Seq<char> {
    match v {
        ResultValue::Str(s) => s@,
        _ => Seq::<char>::empty(),
    }
}

/// Extracts the transaction hash value, matching `tx_hash_of`.
pub fn extract_tx_hash(v: &ResultValue) -> (r: String)
    ensures
        r@ == tx_hash_of(*v),
{
    match v {
        ResultValue::Str(s) => s.clone(),
        _ => String::new(),
    }
}

/// Decides whether a transaction status value means "confirmed",
/// matching `is_confirmed_status`.
pub fn status_confirmed(v: &ResultValue) -> (r: bool)
    ensures
        r == is_confirmed_status(*v),
{
    let confirmed: String = "confirmed".to_owned();
    match v {
        ResultValue::Str(s) => *s == confirmed,
        _ => false,
    }
}

/// Whether an HTTP status code is an error class for this client:
/// anything outside the success (2xx) and redirection (3xx) classes.
pub fn is_error_status(code: u16) -> (r: bool)
    ensures
        r == (code < 200 || code >= 400),
{
    code < 200 || code >= 400
}

/// An account's balance in the smallest unit, with its current nonce.
pub struct BalanceInfo {
    pub balance_raw: u64,
    pub nonce: u64,
}

impl BalanceInfo {
    /// The balance as shown to the operator: scaled down by 1,000,000
    /// with six fractional digits.
    pub fn display_balance(&self) -> (r: String)
        ensures
            r@ == crate::text::balance_display(self.balance_raw as nat),
    {
        crate::text::format_balance(self.balance_raw)
    }
}

/// The detail a balance-shape mismatch carries: the two offending
/// field values, verbatim, in their display form.
pub open spec fn balance_error_text(braw: ResultValue, nonce: ResultValue) -> Seq<char> {
    "malformed balance response: balance_raw="@ + display_of(braw) + ", nonce="@ + display_of(
        nonce,
    )
}

/// Builds the balance-shape error, matching `balance_error_text`.
fn balance_error(braw: &ResultValue, nonce: &ResultValue) -> (r: ClientError)
    ensures
        r matches ClientError::Malformed(m) && m@ == balance_error_text(*braw, *nonce),
{
    let mut m: String = "malformed balance response: balance_raw=".to_owned();
    let b = to_display_string(braw);
    m.append(b.as_str());
    m.append(", nonce=");
    let n = to_display_string(nonce);
    m.append(n.as_str());
    ClientError::Malformed(m)
}

/// Checks the two fields of a balance response for their expected
/// shapes: `balance_raw` a string holding an unsigned integer, `nonce`
/// an unsigned integer number. A mismatch carries both field values
/// verbatim.
pub fn parse_balance_fields(braw: &ResultValue, nonce: &ResultValue) -> (r: Result<
    BalanceInfo,
    ClientError,
>)
    ensures
        r is Ok <==> (braw matches ResultValue::Str(s) && is_u64_text(s@)) && (
        nonce matches ResultValue::Num(t) && is_u64_text(t@)),
        r matches Ok(b) ==> (braw matches ResultValue::Str(s) && b.balance_raw == val_of(s@)),
        r matches Ok(b) ==> (nonce matches ResultValue::Num(t) && b.nonce == val_of(t@)),
        r matches Err(e) ==> (e matches ClientError::Malformed(m) && m@ == balance_error_text(
            *braw,
            *nonce,
        )),
{
    let b = match braw {
        ResultValue::Str(s) => match parse_u64(s.as_str()) {
            Some(v) => v,
            None => {
                return Err(balance_error(braw, nonce));
            },
        },
        _ => {
            return Err(balance_error(braw, nonce));
        },
    };
    let n = match nonce {
        ResultValue::Num(t) => match parse_u64(t.as_str()) {
            Some(v) => v,
            None => {
                return Err(balance_error(braw, nonce));
            },
        },
        _ => {
            return Err(balance_error(braw, nonce));
        },
    };
    Ok(BalanceInfo { balance_raw: b, nonce: n })
}

/// What a balance response body holds: its `balance_raw` and `nonce`
/// fields, or nothing when the body is no JSON.
pub open spec fn balance_fields_of(body: Seq<char>) -> Option<(ResultValue, ResultValue)> {
    two_fields_of(body, "balance_raw"@, "nonce"@)
}

/// Interprets a balance response body: an unparseable body or a field
/// of the wrong shape is malformed; otherwise the balance and nonce
/// values, exactly as `parse_balance_fields` checks them.
pub fn interpret_balance_response(body: &str) -> (r: Result<BalanceInfo, ClientError>)
    ensures
        r matches Err(e) ==> e is Malformed,
        r is Ok <==> (balance_fields_of(body@) matches Some(p) && (
        p.0 matches ResultValue::Str(s) && is_u64_text(s@)) && (p.1 matches ResultValue::Num(t)
            && is_u64_text(t@))),
        r matches Ok(b) ==> (balance_fields_of(body@) matches Some(p) && (
        p.0 matches ResultValue::Str(s) && b.balance_raw == val_of(s@)) && (
        p.1 matches ResultValue::Num(t) && b.nonce == val_of(t@))),
        r matches Err(e) ==> (balance_fields_of(body@) matches Some(p) ==> (
        e matches ClientError::Malformed(m) && m@ == balance_error_text(p.0, p.1))),
{
    match json_two_fields(body, "balance_raw", "nonce") {
        Err(e) => Err(ClientError::Malformed(json_error_text(&e))),
        Ok(p) => parse_balance_fields(&p.0, &p.1),
    }
}

/// What a view-call response body holds: its `status` and `result`
/// fields, or nothing when the body is no JSON.
pub open spec fn view_fields_of(body: Seq<char>) -> Option<(ResultValue, ResultValue)> {
    two_fields_of(body, "status"@, "result"@)
}

/// Interprets a view-call response body: an unparseable body is
/// malformed; otherwise the `status` and `result` fields are
/// normalized exactly as `normalize_view` says.
pub fn interpret_view_response(body: &str) -> (r: Result<Option<String>, ClientError>)
    ensures
        r is Err <==> view_fields_of(body@) is None,
        r matches Err(e) ==> e is Malformed,
        r matches Ok(o) ==> (view_fields_of(body@) matches Some(p) && (is_success_status(p.0)
            ==> (o matches Some(s) && s@ == display_of(p.1))) && (!is_success_status(p.0)
            ==> o is None)),
{
    match json_two_fields(body, "status", "result") {
        Err(e) => Err(ClientError::Malformed(json_error_text(&e))),
        Ok(p) => Ok(normalize_view(&p.0, &p.1)),
    }
}

/// What a submission response body holds: its `tx_hash` field, or
/// nothing when the body is no JSON.
pub open spec fn submit_field_of(body: Seq<char>) -> Option<ResultValue> {
    one_field_of(body, "tx_hash"@)
}

/// Interprets a submission response body: an unparseable body is
/// malformed; otherwise the transaction hash, empty when the field is
/// absent or no string.
pub fn interpret_submit_response(body: &str) -> (r: Result<String, ClientError>)
    ensures
        r is Err <==> submit_field_of(body@) is None,
        r matches Err(e) ==> e is Malformed,
        r matches Ok(h) ==> (submit_field_of(body@) matches Some(v) && h@ == tx_hash_of(v)),
{
    match json_one_field(body, "tx_hash") {
        Err(e) => Err(ClientError::Malformed(json_error_text(&e))),
        Ok(v) => Ok(extract_tx_hash(&v)),
    }
}

/// What a transaction-status response body holds: its `status` field,
/// or nothing when the body is no JSON.
pub open spec fn status_field_of(body: Seq<char>) -> Option<ResultValue> {
    one_field_of(body, "status"@)
}

/// Interprets a transaction-status response body: an unparseable body
/// is malformed; otherwise whether the `status` field is exactly
/// `"confirmed"`.
pub fn interpret_status_response(body: &str) -> (r: Result<bool, ClientError>)
    ensures
        r is Err <==> status_field_of(body@) is None,
        r matches Err(e) ==> e is Malformed,
        r matches Ok(c) ==> (status_field_of(body@) matches Some(v) && c == is_confirmed_status(
            v,
        )),
{
    match json_one_field(body, "status") {
        Err(e) => Err(ClientError::Malformed(json_error_text(&e))),
        Ok(v) => Ok(status_confirmed(&v)),
    }
}

} // verus!

//! Structured-deserialization adapter: the shape-dispatch and message
//! logic behind (de)serializing a CIK to and from a generic structured
//! data format.
//!
//! A deserializer front end hands the dynamic input token — an unsigned
//! integer, a signed integer, or a string — to the matching function
//! here; every shape is normalized through the single validation gate
//! (`build` or `parse`), and every failure is wrapped into an
//! adapter-level error carrying a human-readable message that names the
//! offending input and the underlying reason.

use vstd::prelude::*;

use crate::CIK;
use crate::digits::{all_digits, canonical, render_u64, seq_to_nat};
use crate::error::{error_message, format_reason, length_reason, value_reason};

verus! {

/// An adapter-level deserialization failure: a descriptive message,
/// distinct from the core validation error kinds.
#[derive(Clone, Debug, PartialEq, Eq)]
pub struct DeserError {
    /// The human-readable description of the failure.
    pub message: String,
}

/// The message wrapping a failure on the input rendered as `input`,
/// rejected for the reason `reason`.
pub open spec fn deser_message(input: Seq<char>, reason: Seq<char>) -> Seq<char> {
    "Cannot deserialize "@ + input + ": "@ + reason
}

/// The decimal rendering of a signed value: a minus sign before the
/// canonical rendering of the magnitude.
pub open spec fn signed_text(v: int) -> Seq<char> {
    if v < 0 {
        "-"@ + canonical((-v) as nat)
    } else {
        canonical(v as nat)
    }
}

fn wrap_core_error(input: String, err: &crate::error::CIKError) -> (r: DeserError)
    ensures
        r.message@ == deser_message(input@, error_message(*err)),
{
    let reason = err.message();
    let r = DeserError {
        message: "Cannot deserialize ".to_owned().concat(input.as_str()).concat(": ").concat(
            reason.as_str(),
        ),
    };
    proof {
        assert(r.message@ =~= deser_message(input@, error_message(*err)));
    }
    r
}

/// Deserialize from an unsigned integer token: route through `build`,
/// wrapping any validation failure into an adapter-level error.
pub fn from_unsigned(value: u64) -> (r: Result<CIK, DeserError>)
    ensures
        1 <= value <= 9_999_999_999 ==> (r matches Ok(c) && c@ == value),
        !(1 <= value <= 9_999_999_999) ==> (r matches Err(e) && e.message@ == deser_message(
            canonical(value as nat),
            value_reason(value as nat),
        )),
{
    match crate::build(value) {
        Ok(c) => Ok(c),
        Err(err) => Err(wrap_core_error(render_u64(value), &err)),
    }
}

/// Deserialize from a signed integer token: a negative value fails
/// immediately with an adapter-level error (the input is out of the
/// domain, not merely out of range); a non-negative value routes
/// through `build` as an unsigned token does.
pub fn from_signed(value: i64) -> (r: Result<CIK, DeserError>)
    ensures
        value < 0 ==> (r matches Err(e) && e.message@ == deser_message(
            signed_text(value as int),
            "Negative values not allowed"@,
        )),
        1 <= value <= 9_999_999_999 ==> (r matches Ok(c) && c@ == value),
        0 <= value && !(1 <= value <= 9_999_999_999) ==> (r matches Err(e) && e.message@
            == deser_message(canonical(value as nat), value_reason(value as nat))),
{
    if value < 0 {
        let magnitude: u64 = ((-(value + 1)) as u64) + 1;
        let text = "-".to_owned().concat(render_u64(magnitude).as_str());
        let r = DeserError {
            message: "Cannot deserialize ".to_owned().concat(text.as_str()).concat(": ").concat(
                "Negative values not allowed",
            ),
        };
        proof {
            assert(magnitude == -(value as int));
            assert(text@ =~= signed_text(value as int));
            assert(r.message@ =~= deser_message(
                signed_text(value as int),
                "Negative values not allowed"@,
            ));
        }
        Err(r)
    } else {
        from_unsigned(value as u64)
    }
}

/// Deserialize from a string token: route through `parse`, wrapping any
/// validation failure into an adapter-level error.
pub fn from_text(value: &str) -> (r: Result<CIK, DeserError>)
    ensures
        value@.len() == 0 || value@.len() > 10 ==> (r matches Err(e) && e.message@
            == deser_message(value@, length_reason(value@.len()))),
        1 <= value@.len() <= 10 && !all_digits(value@) ==> (r matches Err(e) && e.message@
            == deser_message(value@, format_reason(value@))),
        1 <= value@.len() <= 10 && all_digits(value@) && seq_to_nat(value@) == 0 ==> (r matches Err(
            e,
        ) && e.message@ == deser_message(value@, value_reason(0))),
        1 <= value@.len() <= 10 && all_digits(value@) && seq_to_nat(value@) >= 1 ==> (r matches Ok(
            c,
        ) && c@ == seq_to_nat(value@)),
{
    match crate::parse(value) {
        Ok(c) => Ok(c),
        Err(err) => Err(wrap_core_error(value.to_owned(), &err)),
    }
}

/// The value to emit when serializing: always the plain unsigned
/// integer, never a string.
pub fn serial_value(c: &CIK) -> (r: u64)
    ensures
        r == c@,
        1 <= r <= 9_999_999_999,
{
    c.value()
}

} // verus!

//! Error type for CIK parsing and building.

use vstd::prelude::*;

use crate::digits::{canonical, render_u64};

verus! {

/// All the ways parsing or building could fail.
///
/// The variant set is open-ended: new failure kinds may be added, so
/// downstream matches should keep a fallback arm.
#[non_exhaustive]
#[derive(Clone, Debug, PartialEq, Eq)]
pub enum CIKError {
    /// The input length is not 1 to 10 characters.
    InvalidLength {
        /// The length we found
        was: usize,
    },
    /// The input does not parse as an integer.
    InvalidFormat {
        /// The input string
        was: String,
    },
    /// The value is not a positive number of up to 10 digits (checked when
    /// building).
    InvalidValue {
        /// The value we found
        was: u64,
    },
}

/// The message text for a length failure on an input of `n` characters.
pub open spec fn length_reason(n: nat) -> Seq<char> {
    "invalid length "@ + canonical(n) + " bytes when expecting 1 to 10"@
}

/// The message text for a format failure on the input `s`.
pub open spec fn format_reason(s: Seq<char>) -> Seq<char> {
    "invalid format "@ + s + " when expecting integer"@
}

/// The message text for a range failure on the value `v`.
pub open spec fn value_reason(v: nat) -> Seq<char> {
    "invalid value "@ + canonical(v) + " when expecting positive number up to 9,999,999,999"@
}

/// The human-readable message that `CIKError::message` renders.
pub open spec fn error_message(e: CIKError) -> Seq<char> {
    match e {
        CIKError::InvalidLength { was } => length_reason(was as nat),
        CIKError::InvalidFormat { was } => format_reason(was@),
        CIKError::InvalidValue { was } => value_reason(was as nat),
    }
}

impl CIKError {
    /// Human-readable message identifying the offending input and the
    /// expected constraint.
    pub fn message(&self) -> (r: String)
        ensures
            r@ == error_message(*self),
    {
        match self {
            CIKError::InvalidLength { was } => {
                let text = render_u64(*was as u64);
                let r = "invalid length ".to_owned().concat(text.as_str()).concat(
                    " bytes when expecting 1 to 10",
                );
                proof {
                    assert(r@ =~= length_reason(*was as nat));
                }
                r
            },
            CIKError::InvalidFormat { was } => {
                let r = "invalid format ".to_owned().concat(was.as_str()).concat(
                    " when expecting integer",
                );
                proof {
                    assert(r@ =~= format_reason(was@));
                }
                r
            },
            CIKError::InvalidValue { was } => {
                let text = render_u64(*was);
                let r = "invalid value ".to_owned().concat(text.as_str()).concat(
                    " when expecting positive number up to 9,999,999,999",
                );
                proof {
                    assert(r@ =~= value_reason(*was as nat));
                }
                r
            },
        }
    }
}

} // verus!

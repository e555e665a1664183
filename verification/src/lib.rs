//! A validated Central Index Key (CIK) identifier: a number of 1 to 10
//! decimal digits, strictly between 1 and 9,999,999,999 inclusive. Every
//! construction route — string parsing, integer building, structured
//! deserialization — funnels through the single validated gate `build`,
//! so an invalid `CIK` value can never exist.

use vstd::prelude::*;

pub mod adapter;
pub mod digits;
pub mod error;

pub use crate::error::CIKError;

use crate::digits::{
    all_digits, canonical, digit_value, is_dec_digit, lemma_canonical_digits, lemma_canonical_len,
    lemma_pow10_mono, lemma_pow10_values, lemma_seq_to_nat_bound, seq_to_nat,
};

verus! {

/// A CIK in confirmed valid format.
///
/// The wrapped integer is private: a `CIK` can only be produced through
/// `parse` or `build`, both of which enforce the value range.
#[derive(Clone, Copy, Debug, PartialEq, Eq, Structural, PartialOrd, Ord, Hash)]
pub struct CIK(u64);

impl View for CIK {
    type V = u64;

    closed spec fn view(&self) -> u64 {
        self.0
    }
}

impl CIK {
    #[verifier::type_invariant]
    spec fn wf(self) -> bool {
        1 <= self.0 <= 9_999_999_999
    }

    /// Return the underlying integer value of the CIK.
    pub fn value(&self) -> (r: u64)
        ensures
            r == self@,
            1 <= r <= 9_999_999_999,
    {
        proof {
            use_type_invariant(self);
        }
        self.0
    }

    /// Canonical decimal rendering: digits only, no leading zeros.
    ///
    /// By `lemma_parse_round_trip`, `parse` maps this rendering back to
    /// an equal CIK.
    pub fn to_text(&self) -> (r: String)
        ensures
            r@ == canonical(self@ as nat),
    {
        proof {
            use_type_invariant(self);
        }
        crate::digits::render_u64(self.0)
    }

    /// Diagnostic rendering with a type tag; not meant for round-tripping.
    pub fn debug_render(&self) -> (r: String)
        ensures
            r@ == "CIK"@ + canonical(self@ as nat),
    {
        proof {
            use_type_invariant(self);
        }
        let text = crate::digits::render_u64(self.0);
        let r = "CIK".to_owned().concat(text.as_str());
        proof {
            assert(r@ =~= "CIK"@ + canonical(self@ as nat));
        }
        r
    }
}

impl TryFrom<u64> for CIK {
    type Error = crate::error::CIKError;

    fn try_from(value: u64) -> Result<Self, Self::Error> {
        build(value)
    }
}

impl vstd::std_specs::convert::TryFromSpecImpl<u64> for CIK {
    open spec fn obeys_try_from_spec() -> bool {
        true
    }

    closed spec fn try_from_spec(v: u64) -> Result<CIK, crate::error::CIKError> {
        if 1 <= v <= 9_999_999_999 {
            Ok(CIK(v))
        } else {
            Err(crate::error::CIKError::InvalidValue { was: v })
        }
    }
}

/// What `CIK::try_from` returns: exactly what the validation gate
/// `build` returns.
pub proof fn lemma_try_from_is_build(v: u64)
    ensures
        1 <= v <= 9_999_999_999 ==> (#[trigger] <CIK as vstd::std_specs::convert::TryFromSpec<
            u64,
        >>::try_from_spec(v) matches Ok(c) && c@ == v),
        !(1 <= v <= 9_999_999_999) ==> <CIK as vstd::std_specs::convert::TryFromSpec<
            u64,
        >>::try_from_spec(v) == Err::<CIK, crate::error::CIKError>(
            crate::error::CIKError::InvalidValue { was: v },
        ),
{
}

impl core::str::FromStr for CIK {
    type Err = crate::error::CIKError;

    /// Equivalent to calling `parse`: the contract repeats `parse`'s
    /// four cases clause for clause.
    fn from_str(s: &str) -> (r: Result<Self, Self::Err>)
        ensures
            s@.len() == 0 || s@.len() > 10 ==> (r matches Err(e) && e matches
                crate::error::CIKError::InvalidLength { was } && was == s@.len()),
            1 <= s@.len() <= 10 && !all_digits(s@) ==> (r matches Err(e) && e matches
                crate::error::CIKError::InvalidFormat { was } && was@ == s@),
            1 <= s@.len() <= 10 && all_digits(s@) && seq_to_nat(s@) == 0 ==> r == Err::<
                CIK,
                crate::error::CIKError,
            >(crate::error::CIKError::InvalidValue { was: 0 }),
            1 <= s@.len() <= 10 && all_digits(s@) && seq_to_nat(s@) >= 1 ==> (r matches Ok(c)
                && c@ == seq_to_nat(s@)),
    {
        parse(s)
    }
}

/// Round-trip law: the canonical rendering of any valid CIK value is a
/// string of 1 to 10 decimal digits that denotes the value itself, with
/// no leading zero. Together with the contract of `parse`, this gives
/// `parse(x.to_text()) == Ok(x)` for every CIK `x`.
pub proof fn lemma_parse_round_trip(v: u64)
    requires
        1 <= v <= 9_999_999_999,
    ensures
        1 <= canonical(v as nat).len() <= 10,
        all_digits(canonical(v as nat)),
        seq_to_nat(canonical(v as nat)) == v,
        canonical(v as nat)[0] != '0',
{
    lemma_canonical_digits(v as nat);
    lemma_pow10_values();
    lemma_canonical_len(v as nat, 10);
}

/// Parse a string to a valid CIK or an error, requiring the string to be
/// only digits with no leading or trailing whitespace and no sign, in
/// addition to being the right length.
///
/// The length check (1 to 10 characters) happens before any numeric
/// interpretation; the range check is delegated to `build`, the single
/// validation gate.
pub fn parse(value: &str) -> (r: Result<CIK, crate::error::CIKError>)
    ensures
        value@.len() == 0 || value@.len() > 10 ==> (r matches Err(e) && e matches
            crate::error::CIKError::InvalidLength { was } && was == value@.len()),
        1 <= value@.len() <= 10 && !all_digits(value@) ==> (r matches Err(e) && e matches
            crate::error::CIKError::InvalidFormat { was } && was@ == value@),
        1 <= value@.len() <= 10 && all_digits(value@) && seq_to_nat(value@) == 0 ==> r == Err::<
            CIK,
            crate::error::CIKError,
        >(crate::error::CIKError::InvalidValue { was: 0 }),
        1 <= value@.len() <= 10 && all_digits(value@) && seq_to_nat(value@) >= 1 ==> (r matches Ok(
            c,
        ) && c@ == seq_to_nat(value@)),
{
    let len = value.unicode_len();
    if len == 0 || len > 10 {
        return Err(crate::error::CIKError::InvalidLength { was: len });
    }
    let mut i: usize = 0;
    let mut acc: u64 = 0;
    while i < len
        invariant
            1 <= len <= 10,
            len == value@.len(),
            i <= len,
            forall|j: int| 0 <= j < i ==> is_dec_digit(#[trigger] value@[j]),
            acc == seq_to_nat(value@.take(i as int)),
        decreases len - i,
    {
        let c = value.get_char(i);
        let cu = c as u32;
        if cu < 48 || cu > 57 {
            proof {
                assert(!is_dec_digit(value@[i as int]));
            }
            return Err(crate::error::CIKError::InvalidFormat { was: value.to_owned() });
        }
        let d: u64 = (cu - 48) as u64;
        proof {
            let prefix = value@.take(i as int);
            assert(all_digits(prefix)) by {
                assert(forall|j: int| 0 <= j < prefix.len() ==> prefix[j] == value@[j]);
            }
            lemma_seq_to_nat_bound(prefix);
            lemma_pow10_mono(prefix.len(), 9);
            lemma_pow10_values();
            let next = value@.take(i as int + 1);
            assert(next.drop_last() =~= prefix);
            assert(next.last() == value@[i as int]);
            assert(digit_value(value@[i as int]) == d);
        }
        acc = acc * 10 + d;
        i = i + 1;
    }
    proof {
        assert(value@.take(len as int) =~= value@);
        lemma_seq_to_nat_bound(value@);
        lemma_pow10_mono(value@.len(), 10);
        lemma_pow10_values();
    }
    build(acc)
}

/// Test whether the passed string is in valid CIK format, without
/// producing a CIK value.
///
/// This is a syntax-only predicate: true iff the string is 1 to 10
/// characters long and every character is an ASCII decimal digit. It is
/// deliberately weaker than `parse`, which additionally rejects the
/// all-zero strings by range-checking the value: `validate` accepts
/// `"0"` even though `parse` rejects it.
pub fn validate(value: &str) -> (r: bool)
    ensures
        r == (1 <= value@.len() <= 10 && all_digits(value@)),
{
    let len = value.unicode_len();
    if len == 0 || len > 10 {
        return false;
    }
    let mut i: usize = 0;
    while i < len
        invariant
            1 <= len <= 10,
            len == value@.len(),
            i <= len,
            forall|j: int| 0 <= j < i ==> is_dec_digit(#[trigger] value@[j]),
        decreases len - i,
    {
        let c = value.get_char(i);
        let cu = c as u32;
        if cu < 48 || cu > 57 {
            proof {
                assert(!is_dec_digit(value@[i as int]));
            }
            return false;
        }
        i = i + 1;
    }
    true
}

/// Build a CIK from an integer value.
///
/// This is the single canonical validation gate: it succeeds exactly on
/// the inclusive range 1 to 9,999,999,999 and otherwise reports the
/// offending integer.
pub fn build(value: u64) -> (r: Result<CIK, crate::error::CIKError>)
    ensures
        1 <= value <= 9_999_999_999 ==> (r matches Ok(c) && c@ == value),
        !(1 <= value <= 9_999_999_999) ==> r == Err::<CIK, crate::error::CIKError>(
            crate::error::CIKError::InvalidValue { was: value },
        ),
{
    if value < 1 || value > 9_999_999_999 {
        return Err(crate::error::CIKError::InvalidValue { was: value });
    }
    Ok(CIK(value))
}

} // verus!

//! What the library takes on trust from `std` and `serde_json`.

use vstd::prelude::*;

verus! {

/// `std::io::Error`, the one error type of the library. It is carried through
/// as it is: nothing is said of what it holds.
#[verifier::external_type_specification]
#[verifier::external_body]
pub struct ExIoError(std::io::Error);

/// `serde_json::Value`, taken as input and handed on as output. It is carried
/// through as it is: the library reads it only through [`canonical_bytes`].
#[verifier::external_type_specification]
#[verifier::external_body]
pub struct ExValue(serde_json::Value);

/// The compact JSON text of a value, as UTF-8 bytes: what `Display` for
/// `serde_json::Value` writes when no alternate form is asked for.
pub uninterp spec fn canonical_json(value: serde_json::Value) -> Seq<u8>;

/// Calls `Display` for `serde_json::Value` through `to_string`, and takes the
/// bytes of the text. Nothing is proved of it. The contract claims one thing
/// only: the text depends on the value alone, which is what gives it the name
/// `canonical_json`. The keys of an object come out in sorted order, whatever
/// the order of insertion was, since `serde_json` keeps them in a `BTreeMap`.
#[verifier::external_body]
pub(crate) fn canonical_bytes(value: &serde_json::Value) -> (bytes: Vec<u8>)
    ensures
        bytes@ == canonical_json(*value),
{
    value.to_string().into_bytes()
}

} // verus!

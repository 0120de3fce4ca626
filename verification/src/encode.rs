//! The two opaque body encoders. Each is an outside serializer used as-is;
//! whether it succeeds is its own decision, so the callers' contracts hold
//! for every outcome.

use vstd::prelude::*;

verus! {

/// Relies on serde_json::to_string: serializes `value` as JSON text, failing
/// only when `T`'s Serialize implementation fails or a map key is not a
/// string. The error is carried as its display message.
#[verifier::external_body]
pub(crate) fn json_encode<T: serde::Serialize>(value: &T) -> Result<Vec<u8>, String> {
    match serde_json::to_string(value) {
        Ok(s) => Ok(s.into_bytes()),
        Err(e) => Err(e.to_string()),
    }
}

/// Relies on serde_urlencoded::to_string: serializes `value` as an
/// `application/x-www-form-urlencoded` string, failing on data it cannot
/// represent as key-value pairs. The error is carried as its display message.
#[verifier::external_body]
pub(crate) fn form_encode<T: serde::Serialize>(value: &T) -> Result<Vec<u8>, String> {
    match serde_urlencoded::to_string(value) {
        Ok(s) => Ok(s.into_bytes()),
        Err(e) => Err(e.to_string()),
    }
}

} // verus!

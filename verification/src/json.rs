//! The one opening onto the JSON payloads: a trusted scan through serde_json.
//!
//! The runtime treats every JSON payload as opaque bytes. All it ever asks
//! of one is whether it is well-formed, and — for a `TxAck` — which error
//! code, if any, stands at `txpk_ack.error`. Both answers are functions of
//! the bytes alone; they are given names here and computed by a single
//! trusted call into serde_json.

use vstd::prelude::*;

use crate::packet::opt_string_view;

verus! {

/// Whether serde_json accepts these bytes as a JSON document.
pub uninterp spec fn json_valid(b: Seq<u8>) -> bool;

/// The string found at `txpk_ack.error` in these bytes, if the document
/// has one; meaningful only where `json_valid` holds.
pub uninterp spec fn txack_error_of(b: Seq<u8>) -> Option<Seq<char>>;

/// Relies on serde_json's `from_slice::<Value>`, `Value::get` and
/// `Value::as_str`: whether the bytes parse, and which string then stands
/// at `txpk_ack.error`, depend on the bytes alone. Returns `None` when the
/// bytes are not well-formed JSON, and otherwise the error code found.
#[verifier::external_body]
pub(crate) fn scan_json(b: &[u8]) -> (r: Option<Option<String>>)
    ensures
        r is Some <==> json_valid(b@),
        r matches Some(e) ==> opt_string_view(e) == txack_error_of(b@),
{
    match serde_json::from_slice::<serde_json::Value>(b) {
        Ok(v) => Some(
            v.get("txpk_ack")
                .and_then(|a| a.get("error"))
                .and_then(|e| e.as_str())
                .map(|s| s.to_string()),
        ),
        Err(_) => None,
    }
}

} // verus!

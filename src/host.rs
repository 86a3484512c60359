//! Host values and the calls into the crates that reach the host.
use vstd::prelude::*;
use wasm_bindgen::{JsCast, JsValue};

verus! {

/// A value owned by the host; the library only carries it around.
#[verifier::external_type_specification]
#[verifier::external_body]
pub struct ExJsValue(JsValue);

/// A structured payload of an insert.
#[verifier::external_type_specification]
#[verifier::external_body]
pub struct ExJsonValue(serde_json::Value);

/// The compact JSON text of a structured value.
pub uninterp spec fn json_text(v: serde_json::Value) -> Seq<char>;

/// Relies on serde_json's `Display` for `Value`: the compact JSON text,
/// which depends on the value alone.
#[verifier::external_body]
pub(crate) fn json_text_of(v: &serde_json::Value) -> (r: String)
    ensures
        r@ == json_text(*v),
{
    v.to_string()
}

/// Why a host value could not be made from a local one, or the reverse.
#[verifier::external_type_specification]
#[verifier::external_body]
pub struct ExMarshalError(serde_wasm_bindgen::Error);

/// Relies on js_sys's `Function::call1`, with `null` as `this`: calls the
/// host function `f` once with `arg`. What it returns, or what it throws,
/// is the host's affair.
#[verifier::external_body]
pub(crate) fn call_host(f: &JsValue, arg: &JsValue) -> (r: Result<JsValue, JsValue>) {
    f.unchecked_ref::<js_sys::Function>().call1(&JsValue::NULL, arg)
}

/// Relies on serde_wasm_bindgen's `to_value`, which makes a host number of
/// a `u32` and never fails on one.
#[verifier::external_body]
pub(crate) fn encode_u32(n: u32) -> (r: Result<JsValue, serde_wasm_bindgen::Error>)
    ensures
        r is Ok,
{
    serde_wasm_bindgen::to_value(&n)
}

/// Relies on serde_wasm_bindgen's `from_value`: reads a `u32` out of a
/// host value, or says why it cannot.
#[verifier::external_body]
pub(crate) fn decode_u32(v: JsValue) -> (r: Result<u32, serde_wasm_bindgen::Error>) {
    serde_wasm_bindgen::from_value(v)
}

/// Relies on wasm_bindgen's `From<String> for JsValue`: a host string.
#[verifier::external_body]
pub(crate) fn host_string(s: String) -> (r: JsValue) {
    JsValue::from(s)
}

} // verus!

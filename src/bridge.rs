//! Calls into host functions: blocking or suspending, on host values or on
//! typed values that are marshalled across.
use vstd::prelude::*;
use wasm_bindgen::JsValue;
use crate::host::{call_host, decode_u32, encode_u32};

verus! {

/// A recoverable failure of a call into the host.
pub enum BridgeFault {
    /// The host function threw, or its promise rejected, with this value.
    Boundary(JsValue),
    /// The argument could not be made into a host value.
    Marshal(serde_wasm_bindgen::Error),
    /// The host's result could not be read as the requested type.
    Unmarshal(serde_wasm_bindgen::Error),
}

/// How the caller expects the host function to behave: return its result
/// at once, or return a promise that settles later.
#[derive(PartialEq, Eq, Structural, Clone, Copy)]
pub enum CallMode {
    Blocking,
    Suspending,
}

/// Where a call stands once the host function has returned.
pub enum Step<T> {
    /// The call is over.
    Settled(Result<T, BridgeFault>),
    /// The host returned this promise; the call is over once it settles,
    /// and its outcome is then handed to the matching `resume` function.
    Await(JsValue),
}

/// The result of a raw call whose host side returned (or whose promise
/// resolved to) a value, or threw (or rejected) with one.
pub open spec fn raw_outcome(host: Result<JsValue, JsValue>) -> Result<JsValue, BridgeFault> {
    match host {
        Ok(v) => Ok(v),
        Err(e) => Err(BridgeFault::Boundary(e)),
    }
}

/// The result of a typed call, given the host's outcome and, where the host
/// delivered a value, what reading it as a `u32` gave.
pub open spec fn typed_outcome(
    host: Result<JsValue, JsValue>,
    decoded: Result<u32, serde_wasm_bindgen::Error>,
) -> Result<u32, BridgeFault> {
    match host {
        Err(e) => Err(BridgeFault::Boundary(e)),
        Ok(_) => decoded_outcome(decoded),
    }
}

/// The result of a typed call whose host side delivered a value, given what
/// reading that value as a `u32` gave.
pub open spec fn decoded_outcome(decoded: Result<u32, serde_wasm_bindgen::Error>) -> Result<u32, BridgeFault> {
    match decoded {
        Ok(n) => Ok(n),
        Err(d) => Err(BridgeFault::Unmarshal(d)),
    }
}

/// Whether `r` is a possible result of a typed call whose host side ended
/// with `host`: the host's failure passes through, and a delivered value is
/// either read as a `u32` or reported as unreadable.
pub open spec fn typed_settles(host: Result<JsValue, JsValue>, r: Result<u32, BridgeFault>) -> bool {
    exists|d: Result<u32, serde_wasm_bindgen::Error>| r == typed_outcome(host, d)
}

/// The result of a raw call once its host side is over, in either mode.
pub fn resume(host: Result<JsValue, JsValue>) -> (r: Result<JsValue, BridgeFault>)
    ensures
        r == raw_outcome(host),
{
    match host {
        Ok(v) => Ok(v),
        Err(e) => Err(BridgeFault::Boundary(e)),
    }
}

/// The result of a typed call whose host side delivered a value, given what
/// reading that value as a `u32` gave.
pub fn unmarshal_u32(decoded: Result<u32, serde_wasm_bindgen::Error>) -> (r: Result<u32, BridgeFault>)
    ensures
        r == decoded_outcome(decoded),
{
    match decoded {
        Ok(n) => Ok(n),
        Err(d) => Err(BridgeFault::Unmarshal(d)),
    }
}

/// The result of a typed call once its host side is over, in either mode.
pub fn resume_typed_u32(host: Result<JsValue, JsValue>) -> (r: Result<u32, BridgeFault>)
    ensures
        typed_settles(host, r),
{
    match host {
        Ok(v) => {
            let decoded = decode_u32(v);
            let r = unmarshal_u32(decoded);
            assert(r == typed_outcome(host, decoded));
            r
        },
        Err(e) => {
            let r = Err(BridgeFault::Boundary(e));
            assert(r == typed_outcome(host, Ok(0u32)));
            r
        },
    }
}

/// Calls a host function that returns at once, and returns what it
/// returned; a throw comes back as a boundary fault.
pub fn call_blocking(f: &JsValue, arg: &JsValue) -> (r: Result<JsValue, BridgeFault>)
    ensures
        exists|host: Result<JsValue, JsValue>| r == raw_outcome(host),
{
    resume(call_host(f, arg))
}

/// Calls a host function that returns at once with a `u32` marshalled
/// across, and reads its result as a `u32`.
pub fn call_blocking_typed_u32(f: &JsValue, arg: u32) -> (r: Result<u32, BridgeFault>)
    ensures
        exists|host: Result<JsValue, JsValue>| typed_settles(host, r),
        !(r matches Err(BridgeFault::Marshal(_))),
{
    match encode_u32(arg) {
        Ok(a) => resume_typed_u32(call_host(f, &a)),
        Err(m) => Err(BridgeFault::Marshal(m)),
    }
}

/// Calls the host function held in `sync_fn`, which returns at once.
pub fn call_sync_fn(sync_fn: JsValue, arg1: JsValue) -> (r: Result<JsValue, BridgeFault>)
    ensures
        exists|host: Result<JsValue, JsValue>| r == raw_outcome(host),
{
    call_blocking(&sync_fn, &arg1)
}

/// Calls the host function held in `sync_fn`, which returns at once, with
/// a `u32` in and a `u32` out.
pub fn call_sync_fn_typed_u32(sync_fn: JsValue, arg1: u32) -> (r: Result<u32, BridgeFault>)
    ensures
        exists|host: Result<JsValue, JsValue>| typed_settles(host, r),
        !(r matches Err(BridgeFault::Marshal(_))),
{
    call_blocking_typed_u32(&sync_fn, arg1)
}

/// Starts a call of a host function that returns a promise. The call is
/// over at once only where the host threw; otherwise the promise is handed
/// back, and once it settles its outcome goes to `resume`.
pub fn begin_async_fn(async_fn: &JsValue, arg1: &JsValue) -> (r: Step<JsValue>)
    ensures
        r is Await || exists|e: JsValue| r == Step::<JsValue>::Settled(raw_outcome(Err(e))),
{
    match call_host(async_fn, arg1) {
        Ok(p) => Step::Await(p),
        Err(e) => Step::Settled(resume(Err(e))),
    }
}

/// Starts a call of a host function that returns a promise, with a `u32`
/// marshalled across. Once the promise settles its outcome goes to
/// `resume_typed_u32`.
pub fn begin_async_fn_typed_u32(async_fn: &JsValue, arg1: u32) -> (r: Step<u32>)
    ensures
        r is Await || exists|e: JsValue| r == Step::<u32>::Settled(Err(BridgeFault::Boundary(e))),
{
    match encode_u32(arg1) {
        Ok(a) => match call_host(async_fn, &a) {
            Ok(p) => Step::Await(p),
            Err(e) => Step::Settled(Err(BridgeFault::Boundary(e))),
        },
        Err(m) => Step::Settled(Err(BridgeFault::Marshal(m))),
    }
}

/// Calls the host function `f` with `arg` in the mode that the caller
/// knows it to need.
pub fn invoke(mode: CallMode, f: &JsValue, arg: &JsValue) -> (r: Step<JsValue>)
    ensures
        mode == CallMode::Blocking ==> exists|host: Result<JsValue, JsValue>|
            r == Step::Settled(raw_outcome(host)),
        mode == CallMode::Suspending ==> r is Await || exists|e: JsValue|
            r == Step::<JsValue>::Settled(raw_outcome(Err(e))),
{
    match mode {
        CallMode::Blocking => Step::Settled(call_blocking(f, arg)),
        CallMode::Suspending => begin_async_fn(f, arg),
    }
}

/// Calls the host function `f` with a `u32` marshalled across, in the mode
/// that the caller knows it to need.
pub fn invoke_typed_u32(mode: CallMode, f: &JsValue, arg: u32) -> (r: Step<u32>)
    ensures
        mode == CallMode::Blocking ==> exists|host: Result<JsValue, JsValue>, out: Result<u32, BridgeFault>|
            r == Step::Settled(out) && typed_settles(host, out),
        mode == CallMode::Suspending ==> r is Await || exists|e: JsValue|
            r == Step::<u32>::Settled(Err(BridgeFault::Boundary(e))),
        !(r matches Step::Settled(Err(BridgeFault::Marshal(_)))),
{
    match mode {
        CallMode::Blocking => Step::Settled(call_blocking_typed_u32(f, arg)),
        CallMode::Suspending => begin_async_fn_typed_u32(f, arg),
    }
}


/// The mode of a call does not change its result: a host function that
/// returns a value at once, called blocking, and one whose promise resolves
/// to that value, called suspending, both give the value (read as a `u32`
/// in a typed call); a throw and a rejection with the same value both give
/// a boundary fault carrying it.
pub proof fn lemma_mode_independence(host: Result<JsValue, JsValue>, r: Result<u32, BridgeFault>)
    ensures
        raw_outcome(host) == match host {
            Ok(v) => Ok::<JsValue, BridgeFault>(v),
            Err(e) => Err(BridgeFault::Boundary(e)),
        },
        typed_settles(host, r) <==> match host {
            Ok(_) => r is Ok || r matches Err(BridgeFault::Unmarshal(_)),
            Err(e) => r == Err::<u32, BridgeFault>(BridgeFault::Boundary(e)),
        },
{
    if typed_settles(host, r) {
        let d = choose|d: Result<u32, serde_wasm_bindgen::Error>| r == typed_outcome(host, d);
        assert(r == typed_outcome(host, d));
    }
    match host {
        Ok(_) => {
            match r {
                Ok(n) => assert(r == typed_outcome(host, Ok(n))),
                Err(BridgeFault::Unmarshal(d)) => assert(r == typed_outcome(host, Err(d))),
                Err(_) => {},
            }
        },
        Err(e) => {
            if r == Err::<u32, BridgeFault>(BridgeFault::Boundary(e)) {
                assert(r == typed_outcome(host, Ok(0u32)));
            }
        },
    }
}

} // verus!

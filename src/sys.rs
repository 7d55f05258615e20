use vstd::prelude::*;

verus! {

/// The host's value, only ever seen behind a handle.
#[derive(Copy, Clone)]
pub struct napi_value__ {
    _unused: [u8; 0],
}

/// The host's per-call environment, only ever seen behind a handle.
#[derive(Copy, Clone)]
pub struct napi_env__ {
    _unused: [u8; 0],
}

/// The host's description of one call, only ever seen behind a handle.
#[derive(Copy, Clone)]
pub struct napi_callback_info__ {
    _unused: [u8; 0],
}

} // verus!

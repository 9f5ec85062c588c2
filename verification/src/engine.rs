//! Trusted bindings to the external DFU protocol engine: the protocol
//! object constructed once per session, and the engine's own types that
//! appear in the session's fields and results.

use vstd::prelude::*;

verus! {

/// Declares the protocol engine's protocol object so that it can stand in
/// fields and signatures. A value of it is opaque to the library: it is
/// constructed once at open time and handed back to the engine unchanged.
#[verifier::external_type_specification]
#[verifier::external_body]
#[verifier::reject_recursive_types(M)]
pub struct ExDfuProtocol<M>(dfu_core::DfuProtocol<M>);

/// Declares the protocol engine's memory-layout description, the type
/// parameter of the protocol object for extended (DfuSe) sessions.
#[verifier::external_type_specification]
#[verifier::external_body]
pub struct ExMemoryLayout(dfu_core::memory_layout::MemoryLayout);

/// Declares the protocol engine's error type, forwarded transparently when
/// the engine rejects its inputs.
#[verifier::external_type_specification]
#[verifier::external_body]
pub struct ExDfuCoreError(dfu_core::Error);

/// Relies on dfu_core::DfuProtocol::new: the version pair (1, 0x10) yields
/// the plain DFU protocol; the DfuSe pair (1, 0x1a) would parse a memory
/// layout out of the part of the interface string after its last '/', a
/// parse that can panic on crafted strings, so strings holding a '/' are
/// ruled out and the DfuSe pair then always fails before reaching it;
/// every other version pair is unsupported and fails.
pub assume_specification[ dfu_core::DfuProtocol::<
    dfu_core::memory_layout::MemoryLayout,
>::new ](interface_string: &str, version: (u8, u8)) -> (r: Result<
    dfu_core::DfuProtocol<dfu_core::memory_layout::MemoryLayout>,
    dfu_core::Error,
>)
    requires
        !interface_string@.contains('/'),
    ensures
        version == (1u8, 0x10u8) ==> r is Ok,
        r is Ok ==> version.0 == 1 && (version.1 == 0x10 || version.1 == 0x1a),
        version.0 == 1 && version.1 == 0x1a ==> r is Err,
;

} // verus!

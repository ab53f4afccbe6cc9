//! The server's fixed operational constants: where it listens, where the
//! static assets and the entry document live, and the default trace filter.
//! None of them is configurable at run time.

use vstd::prelude::*;

verus! {

/// The fixed port the listener binds.
pub const BIND_PORT: u16 = 8080;

/// The port the listener binds.
pub fn bind_port() -> (r: u16)
    ensures
        r == BIND_PORT,
{
    BIND_PORT
}

/// The address the listener binds: all interfaces.
pub fn bind_octets() -> (r: [u8; 4])
    ensures
        r@ =~= seq![0u8, 0u8, 0u8, 0u8],
{
    [0u8, 0u8, 0u8, 0u8]
}

/// The directory the static-asset responder serves from.
pub open spec fn spec_asset_root() -> Seq<char> {
    "./frontend/dist/assets"@
}

/// The directory the static-asset responder serves from.
pub fn asset_root() -> (r: &'static str)
    ensures
        r@ == spec_asset_root(),
{
    "./frontend/dist/assets"
}

/// The entry document every fallback request is answered with.
pub open spec fn spec_fallback_document() -> Seq<char> {
    "./frontend/dist/index.html"@
}

/// The entry document every fallback request is answered with.
pub fn fallback_document() -> (r: &'static str)
    ensures
        r@ == spec_fallback_document(),
{
    "./frontend/dist/index.html"
}

/// The trace filter used when the environment sets none.
pub open spec fn spec_default_trace_filter() -> Seq<char> {
    "example_static_file_server=debug,tower_http=debug"@
}

/// The trace filter used when the environment sets none.
pub fn default_trace_filter() -> (r: &'static str)
    ensures
        r@ == spec_default_trace_filter(),
{
    "example_static_file_server=debug,tower_http=debug"
}

} // verus!

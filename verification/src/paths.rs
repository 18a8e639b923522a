//! The routed paths, declared once. The route table routes by these
//! constants, and no route is declared with a raw literal.
use vstd::prelude::*;

verus! {

pub const ROOT: &'static str = "/";

pub const HEALTHZ: &'static str = "/healthz";

pub const KEYRING: &'static str = "/keyring";

pub const RELAY: &'static str = "/relay";

pub const RELAY_VERIFY: &'static str = "/relay/verify";

/// The contract document itself (not an operation of the API).
pub const CONTRACT_YAML: &'static str = "/openapi.yaml";

} // verus!

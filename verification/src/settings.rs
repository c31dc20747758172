//! Configuration handed to the pipeline at construction time.

use vstd::prelude::*;

verus! {

/// Base URI of the upstream API, the signing key, and the developer id the
/// key belongs to. The library only reads these; sourcing them is the
/// caller's business.
#[derive(Clone, Debug, PartialEq)]
pub struct Settings {
    pub uri: String,
    pub api_key: String,
    pub developer_id: u32,
}

} // verus!

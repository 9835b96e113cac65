//! Profile and configuration store for a mod-development command-line tool,
//! with schema migration and platform-aware build planning.
//!
//! The crate keeps the logic pure: filesystem facts (does a path exist, is it
//! a directory) and file contents are handed in as plain values by the caller,
//! and every decision the tool makes about them is verified here.

pub mod codec;
pub mod config;
pub mod doc;
pub mod orchestrate;
pub mod paths;
pub mod sdk;
pub mod strutil;

use vstd::prelude::*;

verus! {

/// The fixed remote endpoint used when a document does not name one.
pub fn default_index_url() -> (r: String)
    ensures
        r@ == spec_default_index_url(),
{
    "https://api.sapfire-sdk.org".to_owned()
}

/// The default remote index endpoint, as a sequence of characters.
pub open spec fn spec_default_index_url() -> Seq<char> {
    "https://api.sapfire-sdk.org"@
}

} // verus!

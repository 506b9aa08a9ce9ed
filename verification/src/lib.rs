//! A token-record lifecycle manager: validates creation requests for
//! two classes of fungible-token metadata records, computes the exact
//! fixed slot capacity a record occupies, derives each record's
//! deterministic storage address from its mint identity, and populates
//! the record atomically with the associated issuance step.

use vstd::prelude::*;

pub mod address;
pub mod args;
pub mod codec;
pub mod laws;
pub mod manager;
pub mod store;
pub mod error;
pub mod record;

verus! {

/// The length of a text value in encoded bytes — the measure every
/// field cap in this crate uses, not the character count.
pub open spec fn byte_len(s: Seq<char>) -> nat {
    vstd::utf8::encode_utf8(s).len()
}

} // verus!

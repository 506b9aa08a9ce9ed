use vstd::prelude::*;

verus! {

/// A validation failure: one of the request's text fields exceeds its
/// fixed byte-length ceiling. Detected before any side effect, so a
/// caller may always retry with corrected input.
#[derive(Clone, Copy, Debug, PartialEq, Eq, Structural)]
pub enum ErrorCode {
    NameTooLong,
    SymbolTooLong,
    UriTooLong,
    AssetIdTooLong,
}

/// Everything that can abort a creation request.
#[derive(Clone, Copy, Debug, PartialEq, Eq, Structural)]
pub enum CreateError {
    /// A text field exceeded its cap; nothing was minted or written.
    Validation(ErrorCode),
    /// The external mint service reported failure; the request aborts
    /// with no record written.
    MintFailed,
    /// A record already exists at the derived address: a prior request
    /// for the same mint identity succeeded. Not retryable with the
    /// same key.
    DuplicateRecord,
    /// Address derivation found no viable salt for this mint identity,
    /// so the storage layer cannot host the record. The derivation
    /// scheme fails only with negligible probability; no concrete input
    /// producing this outcome is known.
    AddressUnavailable,
}

impl ErrorCode {
    /// The stable message each validation failure carries, naming the
    /// violated constraint.
    pub open spec fn message_spec(self) -> Seq<char> {
        match self {
            ErrorCode::NameTooLong => "The provided name exceeds the allowed length."@,
            ErrorCode::SymbolTooLong => "The provided symbol exceeds the allowed length."@,
            ErrorCode::UriTooLong => "The provided URI exceeds the allowed length."@,
            ErrorCode::AssetIdTooLong => "The provided asset identifier is too long."@,
        }
    }

    /// The stable, human-readable message for this validation failure.
    pub fn message(&self) -> (r: &'static str)
        ensures
            r@ == self.message_spec(),
    {
        match self {
            ErrorCode::NameTooLong => "The provided name exceeds the allowed length.",
            ErrorCode::SymbolTooLong => "The provided symbol exceeds the allowed length.",
            ErrorCode::UriTooLong => "The provided URI exceeds the allowed length.",
            ErrorCode::AssetIdTooLong => "The provided asset identifier is too long.",
        }
    }
}

/// Each error kind carries its own message: no two validation failures
/// read the same.
pub proof fn lemma_messages_distinct(a: ErrorCode, b: ErrorCode)
    requires
        a != b,
    ensures
        a.message_spec() != b.message_spec(),
{
    reveal_strlit("The provided name exceeds the allowed length.");
    reveal_strlit("The provided symbol exceeds the allowed length.");
    reveal_strlit("The provided URI exceeds the allowed length.");
    reveal_strlit("The provided asset identifier is too long.");
    // The four messages already differ in length.
    assert("The provided name exceeds the allowed length."@.len() == 45);
    assert("The provided symbol exceeds the allowed length."@.len() == 47);
    assert("The provided URI exceeds the allowed length."@.len() == 44);
    assert("The provided asset identifier is too long."@.len() == 42);
}

} // verus!

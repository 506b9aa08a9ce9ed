use vstd::prelude::*;
use crate::byte_len;

verus! {

/// Byte-length ceiling for a record's `name` field.
pub const MAX_NAME_LEN: usize = 64;

/// Byte-length ceiling for a record's `symbol` field.
pub const MAX_SYMBOL_LEN: usize = 16;

/// Byte-length ceiling for a record's `uri` field.
pub const MAX_URI_LEN: usize = 200;

/// Byte-length ceiling for an RWA sub-record's `asset_id` field.
pub const MAX_ASSET_ID_LEN: usize = 64;

/// Fixed precision of a standard token record.
pub const STANDARD_TOKEN_DECIMALS: u8 = 9;

/// Fixed precision of a real-world-asset token record.
pub const RWA_TOKEN_DECIMALS: u8 = 6;

/// A storage address: 32 raw bytes, derived deterministically from the
/// namespace prefix and a mint identity.
pub type Address = [u8; 32];

/// The two classes of token record. Immutable after creation.
#[derive(Clone, Copy, Debug, PartialEq, Eq, Structural)]
pub enum TokenKind {
    Standard,
    Rwa,
}

/// The asset-backing sub-record, present exactly on `Rwa` records.
///
/// `yield_bps` deliberately accepts its full `u16` range: no domain
/// bound below 65535 is enforced.
#[derive(Clone, Debug)]
pub struct RwaData {
    pub asset_id: String,
    pub valuation: u64,
    pub yield_bps: u16,
}

/// The persistent entity: one fixed-layout metadata record per minted
/// token, keyed by its deterministically derived address.
#[derive(Clone, Debug)]
pub struct TokenRecord {
    /// The derivation salt, recorded so the address can be re-verified
    /// later without a search.
    pub bump: u8,
    pub kind: TokenKind,
    /// The signer that created the record.
    pub authority: Address,
    /// The mint identity this record describes.
    pub mint: Address,
    /// Fixed precision; a pure function of `kind`, never caller-supplied.
    pub decimals: u8,
    /// The quantity minted at creation time; may be zero.
    pub supply: u64,
    pub name: String,
    pub symbol: String,
    pub uri: String,
    /// `Some` iff `kind == Rwa`.
    pub rwa: Option<RwaData>,
}

/// The precision that each record kind fixes.
pub open spec fn decimals_for(kind: TokenKind) -> u8 {
    match kind {
        TokenKind::Standard => STANDARD_TOKEN_DECIMALS,
        TokenKind::Rwa => RWA_TOKEN_DECIMALS,
    }
}

/// The footprint of the fields every record carries, caps included:
/// storage-engine discriminator, salt, kind tag, the two addresses,
/// decimals, supply, and the three length-prefixed text fields at
/// their maximum capacity.
pub open spec fn base_layout() -> int {
    8 + 1 + 1 + 32 + 32 + 1 + 8 + (4 + MAX_NAME_LEN) + (4 + MAX_SYMBOL_LEN) + (4 + MAX_URI_LEN)
}

/// The capacity reserved for the optional RWA sub-record: the presence
/// flag plus the sub-record at its maximum size. Reserved for every
/// record, whatever its kind, because a slot is sized once at
/// allocation and never resized.
pub open spec fn rwa_reservation() -> int {
    1 + (4 + MAX_ASSET_ID_LEN) + 8 + 2
}

/// The exact slot capacity a record of the given kind must reserve.
/// The same for both kinds: the RWA reservation is unconditional.
pub open spec fn layout_size(kind: TokenKind) -> int {
    base_layout() + rwa_reservation()
}

/// The byte length the record's content actually serializes to: every
/// fixed-width field, each text field at its length-prefixed actual
/// length, and the sub-record only when present.
pub open spec fn serialized_len(r: TokenRecord) -> int {
    8 + 1 + 1 + 32 + 32 + 1 + 8 + (4 + byte_len(r.name@) as int) + (4 + byte_len(r.symbol@) as int)
        + (4 + byte_len(r.uri@) as int) + 1 + (match r.rwa {
        Some(d) => (4 + byte_len(d.asset_id@) as int) + 8 + 2,
        None => 0,
    })
}

impl TokenRecord {
    /// A well-formed record: text fields within their caps, and
    /// `decimals` and `rwa` determined by `kind`.
    pub open spec fn wf(self) -> bool {
        &&& byte_len(self.name@) <= MAX_NAME_LEN
        &&& byte_len(self.symbol@) <= MAX_SYMBOL_LEN
        &&& byte_len(self.uri@) <= MAX_URI_LEN
        &&& self.decimals == decimals_for(self.kind)
        &&& match self.kind {
            TokenKind::Standard => self.rwa is None,
            TokenKind::Rwa => self.rwa matches Some(d) && byte_len(d.asset_id@)
                <= MAX_ASSET_ID_LEN,
        }
    }

    /// The exact byte footprint a token-record storage slot reserves,
    /// computed from the capacity constants alone.
    pub fn space() -> (r: usize)
        ensures
            r == layout_size(TokenKind::Standard),
            r == layout_size(TokenKind::Rwa),
            r == 454,
    {
        let base: usize = 8  // discriminator
         + 1  // bump
         + 1  // kind tag
         + 32  // authority
         + 32  // mint
         + 1  // decimals
         + 8  // supply
         + 4 + MAX_NAME_LEN + 4 + MAX_SYMBOL_LEN + 4 + MAX_URI_LEN;
        let rwa_size: usize = 1  // option flag
         + 4 + MAX_ASSET_ID_LEN  // asset id string
         + 8  // valuation
         + 2;  // yield_bps
        base + rwa_size
    }
}

/// The record footprint is one constant per capacity scheme: both kinds
/// reserve the same slot size, independent of any record's content.
pub proof fn lemma_footprint_constant(k1: TokenKind, k2: TokenKind)
    ensures
        layout_size(k1) == layout_size(k2),
        layout_size(k1) == 454,
{
}

/// Every well-formed record fits in the reserved slot, regardless of
/// the actual length of its text fields.
pub proof fn lemma_record_fits_slot(r: TokenRecord)
    requires
        r.wf(),
    ensures
        serialized_len(r) <= layout_size(r.kind),
{
}

} // verus!

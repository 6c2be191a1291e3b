//! The descriptive fields of a compressed asset. The authoritative metadata
//! of a compressed asset is not stored on-chain; only its hash is committed
//! into the tree, so these fields are caller-supplied and are checked by
//! recomputing that hash.

use vstd::prelude::*;
use crate::pubkey::Pubkey;

verus! {

/// One creator entry of an asset's metadata.
#[derive(Clone, Debug)]
pub struct NftCreator {
    pub address: Pubkey,
    pub verified: bool,
    pub share: u8,
}

/// The caller-supplied descriptive fields of a compressed asset, from which
/// the content hash is recomputed. The collection entry is the one the claim
/// asks to be weighed under. The model fixes the fields the verifier never
/// reads — the token standard is non-fungible, there are no uses, and the
/// token program version is the original one — so an asset minted with other
/// values there hashes differently and cannot be verified here.
#[derive(Clone, Debug)]
pub struct CompressedNftMetadata {
    pub name: String,
    pub symbol: String,
    pub uri: String,
    pub seller_fee_basis_points: u16,
    pub primary_sale_happened: bool,
    pub is_mutable: bool,
    pub edition_nonce: Option<u8>,
    pub collection_key: Pubkey,
    pub collection_verified: bool,
    pub creators: Vec<NftCreator>,
}

/// The mathematical value of a metadata record.
pub ghost struct CompressedNftMetadataView {
    pub name: Seq<char>,
    pub symbol: Seq<char>,
    pub uri: Seq<char>,
    pub seller_fee_basis_points: u16,
    pub primary_sale_happened: bool,
    pub is_mutable: bool,
    pub edition_nonce: Option<u8>,
    pub collection_key: Pubkey,
    pub collection_verified: bool,
    pub creators: Seq<NftCreator>,
}

impl View for CompressedNftMetadata {
    type V = CompressedNftMetadataView;

    open spec fn view(&self) -> CompressedNftMetadataView {
        CompressedNftMetadataView {
            name: self.name@,
            symbol: self.symbol@,
            uri: self.uri@,
            seller_fee_basis_points: self.seller_fee_basis_points,
            primary_sale_happened: self.primary_sale_happened,
            is_mutable: self.is_mutable,
            edition_nonce: self.edition_nonce,
            collection_key: self.collection_key,
            collection_verified: self.collection_verified,
            creators: self.creators@,
        }
    }
}

/// The variable-length fields are short enough for the metadata to
/// serialize: lengths are written as 32-bit counts, and a text field of
/// fewer than 2^30 characters takes fewer than 2^32 bytes.
pub open spec fn metadata_bounded(m: CompressedNftMetadataView) -> bool {
    &&& m.name.len() < 0x4000_0000
    &&& m.symbol.len() < 0x4000_0000
    &&& m.uri.len() < 0x4000_0000
    &&& m.creators.len() < 0x1_0000_0000
}

} // verus!

use crate::error::MarketplaceError;
use vstd::bytes::lemma_auto_spec_u64_to_from_le_bytes;
use vstd::bytes::spec_u64_from_le_bytes;
use vstd::bytes::spec_u64_to_le_bytes;
use vstd::bytes::u64_from_le_bytes;
use vstd::bytes::u64_to_le_bytes;
use vstd::prelude::*;

verus! {

/// A typed, validated command for the marketplace: list an asset for a price,
/// or purchase a listed asset at a price. The price is denominated in the
/// ledger's native smallest unit.
#[derive(Clone, Copy, Debug, PartialEq, Eq)]
pub enum MarketplaceInstruction {
    /// List the asset: move it from the seller's holding into escrow custody.
    ListNFT { price: u64 },
    /// Purchase the asset: pay the seller and drain the escrow holding.
    PurchaseNFT { price: u64 },
}

/// The wire form of an instruction: one tag byte (0 for a listing, 1 for a
/// purchase) followed by the price as eight little-endian bytes.
pub open spec fn encode_spec(i: MarketplaceInstruction) -> Seq<u8> {
    match i {
        MarketplaceInstruction::ListNFT { price } => seq![0u8] + spec_u64_to_le_bytes(price),
        MarketplaceInstruction::PurchaseNFT { price } => seq![1u8] + spec_u64_to_le_bytes(price),
    }
}

/// What decoding a raw byte buffer yields: empty input has no tag and is
/// unrecognized; a payload shorter than eight bytes is truncated (checked
/// before the tag, as the wire contract orders it); a tag outside {0, 1} is
/// unrecognized; bytes beyond offset 9 are ignored.
pub open spec fn unpack_spec(data: Seq<u8>) -> Result<MarketplaceInstruction, MarketplaceError> {
    if data.len() == 0 {
        Err(MarketplaceError::UnrecognizedInstruction)
    } else if data.len() < 9 {
        Err(MarketplaceError::TruncatedPayload)
    } else {
        let price = spec_u64_from_le_bytes(data.subrange(1, 9));
        if data[0] == 0 {
            Ok(MarketplaceInstruction::ListNFT { price })
        } else if data[0] == 1 {
            Ok(MarketplaceInstruction::PurchaseNFT { price })
        } else {
            Err(MarketplaceError::UnrecognizedInstruction)
        }
    }
}

impl MarketplaceInstruction {
    /// Parses a raw instruction buffer: first byte is the discriminant tag,
    /// the next eight bytes the little-endian price. Pure; no side effects.
    pub fn unpack(input: &[u8]) -> (r: Result<Self, MarketplaceError>)
        ensures
            r == unpack_spec(input@),
    {
        if input.len() == 0 {
            return Err(MarketplaceError::UnrecognizedInstruction);
        }
        if input.len() < 9 {
            return Err(MarketplaceError::TruncatedPayload);
        }
        let tag = *vstd::slice::slice_index_get(input, 0);
        let price_bytes = vstd::slice::slice_subrange(input, 1, 9);
        let price = u64_from_le_bytes(price_bytes);
        if tag == 0 {
            Ok(MarketplaceInstruction::ListNFT { price })
        } else if tag == 1 {
            Ok(MarketplaceInstruction::PurchaseNFT { price })
        } else {
            Err(MarketplaceError::UnrecognizedInstruction)
        }
    }

    /// Encodes the instruction in its wire form: tag byte, then the price as
    /// eight little-endian bytes.
    pub fn pack(&self) -> (r: Vec<u8>)
        ensures
            r@ == encode_spec(*self),
    {
        let (tag, price): (u8, u64) = match self {
            MarketplaceInstruction::ListNFT { price } => (0u8, *price),
            MarketplaceInstruction::PurchaseNFT { price } => (1u8, *price),
        };
        let mut out: Vec<u8> = Vec::new();
        out.push(tag);
        let mut tail = u64_to_le_bytes(price);
        out.append(&mut tail);
        proof {
            assert(out@ =~= encode_spec(*self));
        }
        out
    }
}

/// Law: decoding an encoded instruction returns exactly that instruction,
/// whichever variant and price it carries.
pub proof fn lemma_pack_unpack_round_trip(i: MarketplaceInstruction)
    ensures
        unpack_spec(encode_spec(i)) == Ok::<MarketplaceInstruction, MarketplaceError>(i),
{
    lemma_auto_spec_u64_to_from_le_bytes();
    match i {
        MarketplaceInstruction::ListNFT { price } => {
            assert(encode_spec(i).subrange(1, 9) =~= spec_u64_to_le_bytes(price));
        },
        MarketplaceInstruction::PurchaseNFT { price } => {
            assert(encode_spec(i).subrange(1, 9) =~= spec_u64_to_le_bytes(price));
        },
    }
}

/// Law: the decoder rejects malformed input. Empty input is unrecognized; a
/// buffer of one to eight bytes has a truncated payload whatever its tag; a
/// full-length buffer with a tag outside {0, 1} is unrecognized.
pub proof fn lemma_unpack_rejects_malformed(data: Seq<u8>)
    ensures
        data.len() == 0 ==> unpack_spec(data) == Err::<MarketplaceInstruction, MarketplaceError>(
            MarketplaceError::UnrecognizedInstruction,
        ),
        0 < data.len() < 9 ==> unpack_spec(data) == Err::<MarketplaceInstruction, MarketplaceError>(
            MarketplaceError::TruncatedPayload,
        ),
        data.len() >= 9 && data[0] != 0 && data[0] != 1 ==> unpack_spec(data) == Err::<
            MarketplaceInstruction,
            MarketplaceError,
        >(MarketplaceError::UnrecognizedInstruction),
{
}

} // verus!

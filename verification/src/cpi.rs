use crate::actions::LedgerAction;
use crate::actions::TransferAuthority;
use crate::derivation::derive_escrow_address;
use crate::ledger::spec_authority_address;
use vstd::bytes::spec_u64_to_le_bytes;
use vstd::prelude::*;

verus! {

/// The wire data of an asset sub-ledger transfer request: the sub-ledger's
/// transfer tag byte 3, then the amount as eight little-endian bytes.
pub open spec fn token_transfer_data(amount: u64) -> Seq<u8> {
    seq![3u8] + spec_u64_to_le_bytes(amount)
}

/// The wire data of a native-currency transfer request: the transfer variant
/// index as four little-endian bytes, then the amount as eight more.
pub open spec fn native_transfer_data(lamports: u64) -> Seq<u8> {
    seq![2u8, 0u8, 0u8, 0u8] + spec_u64_to_le_bytes(lamports)
}

/// Whether the asset sub-ledger's builder accepts an identity as its own
/// program's: true of exactly one fixed 32-byte identity, the sub-ledger's
/// published program address, and false of every other.
pub uninterp spec fn is_spl_token_program(id: Seq<u8>) -> bool;

/// Relies on spl_token::instruction::transfer: it builds a request exactly
/// when the supplied token program identity is the sub-ledger's own, and the
/// built request's data bytes are the transfer tag 3 followed by the amount
/// in little-endian.
#[verifier::external_body]
fn spl_transfer_request(
    token_program: &[u8; 32],
    source: &[u8; 32],
    dest: &[u8; 32],
    authority: &[u8; 32],
    amount: u64,
) -> (r: Option<Vec<u8>>)
    ensures
        r is Some <==> is_spl_token_program(token_program@),
        r matches Some(d) ==> d@ == token_transfer_data(amount),
{
    let built = spl_token::instruction::transfer(
        &solana_program::pubkey::Pubkey::new_from_array(*token_program),
        &solana_program::pubkey::Pubkey::new_from_array(*source),
        &solana_program::pubkey::Pubkey::new_from_array(*dest),
        &solana_program::pubkey::Pubkey::new_from_array(*authority),
        &[],
        amount,
    );
    match built {
        Ok(instruction) => Some(instruction.data),
        Err(_) => None,
    }
}

/// Relies on solana_program::system_instruction::transfer: the built
/// request's data bytes are the transfer variant index, four little-endian
/// bytes holding 2, followed by the lamport amount in little-endian.
#[verifier::external_body]
#[allow(deprecated)]
fn system_transfer_request(from: &[u8; 32], to: &[u8; 32], lamports: u64) -> (r: Vec<u8>)
    ensures
        r@ == native_transfer_data(lamports),
{
    let instruction = solana_program::system_instruction::transfer(
        &solana_program::pubkey::Pubkey::new_from_array(*from),
        &solana_program::pubkey::Pubkey::new_from_array(*to),
        lamports,
    );
    instruction.data
}

/// Builds the wire data of the host request that performs one transfer
/// action, as the caller that performs the requests needs it. A native
/// transfer always encodes. A sub-ledger transfer encodes exactly when its
/// authority resolves — a derived authority that does not re-derive resolves
/// to nothing — and the supplied token program identity is the sub-ledger's
/// own; `None` reports either refusal.
pub fn transfer_request_data(
    action: &LedgerAction,
    program_id: &[u8; 32],
    token_program: &[u8; 32],
) -> (r: Option<Vec<u8>>)
    ensures
        match *action {
            LedgerAction::NativeTransfer { lamports, .. } => r matches Some(d) && d@
                == native_transfer_data(lamports),
            LedgerAction::TokenTransfer { authority, amount, .. } => (r matches Some(d) ==> d@
                == token_transfer_data(amount)) && (r is Some <==> spec_authority_address(
                program_id@,
                authority,
            ) is Some && is_spl_token_program(token_program@)),
        },
{
    match action {
        LedgerAction::NativeTransfer { from, to, lamports } => {
            Some(system_transfer_request(from, to, *lamports))
        },
        LedgerAction::TokenTransfer { source, dest, authority, amount } => {
            let auth: [u8; 32] = match authority {
                TransferAuthority::Signer { key } => *key,
                TransferAuthority::Derived { mint, seller, bump } => {
                    match derive_escrow_address(program_id, mint, seller) {
                        Some((addr, found_bump)) => {
                            if found_bump != *bump {
                                return None;
                            }
                            addr
                        },
                        None => {
                            return None;
                        },
                    }
                },
            };
            spl_transfer_request(token_program, source, dest, &auth, *amount)
        },
    }
}

} // verus!

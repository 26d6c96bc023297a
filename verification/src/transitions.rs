use crate::accounts::key_eq;
use crate::accounts::AccountRef;
use crate::actions::LedgerAction;
use crate::actions::TransferAuthority;
use crate::derivation::derive_escrow_address;
use crate::derivation::escrow_derivation;
use crate::error::MarketplaceError;
use crate::instruction::unpack_spec;
use crate::instruction::MarketplaceInstruction;
use vstd::prelude::*;

verus! {

/// What a successful transition asks of the host: the transfer requests to
/// perform as one atomic unit, and the price its confirmation log records.
#[derive(Debug, PartialEq, Eq)]
pub struct TransitionEffects {
    /// The transfer requests, in the order they are to be performed.
    pub actions: Vec<LedgerAction>,
    /// The price the transition's confirmation records.
    pub confirmed_price: u64,
}

/// A transition outcome, seen at the specification level.
pub open spec fn effects_view(r: Result<TransitionEffects, MarketplaceError>) -> Result<
    (Seq<LedgerAction>, u64),
    MarketplaceError,
> {
    match r {
        Ok(e) => Ok((e.actions@, e.confirmed_price)),
        Err(e) => Err(e),
    }
}

/// The listing transition over its positional account list: seller, seller's
/// holding, escrow holding, escrow state, asset identity, then three context
/// accounts. The seller must have signed; the escrow state account must equal
/// the re-derived custody address; then exactly one transfer of one asset
/// unit moves from the seller's holding to the escrow holding, authorized by
/// the seller's own signature.
pub open spec fn spec_list(program: Seq<u8>, accounts: Seq<AccountRef>, price: u64) -> Result<
    (Seq<LedgerAction>, u64),
    MarketplaceError,
> {
    if accounts.len() < 8 {
        Err(MarketplaceError::NotEnoughAccounts)
    } else if !accounts[0].is_signer {
        Err(MarketplaceError::MissingAuthorization)
    } else {
        match escrow_derivation(program, accounts[4].key@, accounts[0].key@) {
            None => Err(MarketplaceError::DerivationFailure),
            Some((addr, _)) => {
                if addr != accounts[3].key@ {
                    Err(MarketplaceError::EscrowAddressMismatch)
                } else {
                    Ok(
                        (
                            seq![
                                LedgerAction::TokenTransfer {
                                    source: accounts[1].key,
                                    dest: accounts[2].key,
                                    authority: TransferAuthority::Signer { key: accounts[0].key },
                                    amount: 1,
                                },
                            ],
                            price,
                        ),
                    )
                }
            },
        }
    }
}

/// The purchase transition over its positional account list: buyer, seller,
/// escrow holding, buyer's holding, escrow state, asset identity, then two
/// context accounts. The buyer must have signed, and the supplied escrow
/// state account must equal the re-derived custody address — a mismatch
/// aborts the whole invocation before any transfer is requested. Then the
/// buyer pays the seller the caller-supplied price in native currency, and
/// one asset unit moves from the escrow holding to the buyer's holding under
/// the program's derived authority. No stored listing is consulted: the price
/// and seller come from the caller and are checked only through
/// re-derivation.
pub open spec fn spec_purchase(program: Seq<u8>, accounts: Seq<AccountRef>, price: u64) -> Result<
    (Seq<LedgerAction>, u64),
    MarketplaceError,
> {
    if accounts.len() < 8 {
        Err(MarketplaceError::NotEnoughAccounts)
    } else if !accounts[0].is_signer {
        Err(MarketplaceError::MissingAuthorization)
    } else {
        match escrow_derivation(program, accounts[5].key@, accounts[1].key@) {
            None => Err(MarketplaceError::DerivationFailure),
            Some((addr, bump)) => if addr != accounts[4].key@ {
                Err(MarketplaceError::EscrowAddressMismatch)
            } else {
                Ok(
                (
                    seq![
                        LedgerAction::NativeTransfer {
                            from: accounts[0].key,
                            to: accounts[1].key,
                            lamports: price,
                        },
                        LedgerAction::TokenTransfer {
                            source: accounts[2].key,
                            dest: accounts[3].key,
                            authority: TransferAuthority::Derived {
                                mint: accounts[5].key,
                                seller: accounts[1].key,
                                bump,
                            },
                            amount: 1,
                        },
                    ],
                        price,
                    ),
                )
            },
        }
    }
}

/// The whole invocation: decode the instruction bytes, then route to the
/// matching transition.
pub open spec fn spec_process(program: Seq<u8>, accounts: Seq<AccountRef>, data: Seq<u8>) -> Result<
    (Seq<LedgerAction>, u64),
    MarketplaceError,
> {
    match unpack_spec(data) {
        Err(e) => Err(e),
        Ok(MarketplaceInstruction::ListNFT { price }) => spec_list(program, accounts, price),
        Ok(MarketplaceInstruction::PurchaseNFT { price }) => spec_purchase(
            program,
            accounts,
            price,
        ),
    }
}

/// Runs the listing transition: validates the seller's signature and the
/// escrow address, and returns the single sub-ledger transfer to perform.
pub fn process_list(program_id: &[u8; 32], accounts: &[AccountRef], price: u64) -> (r: Result<
    TransitionEffects,
    MarketplaceError,
>)
    ensures
        effects_view(r) == spec_list(program_id@, accounts@, price),
{
    if accounts.len() < 8 {
        return Err(MarketplaceError::NotEnoughAccounts);
    }
    let seller = *vstd::slice::slice_index_get(accounts, 0);
    let seller_token = *vstd::slice::slice_index_get(accounts, 1);
    let escrow_token = *vstd::slice::slice_index_get(accounts, 2);
    let escrow_state = *vstd::slice::slice_index_get(accounts, 3);
    let nft_mint = *vstd::slice::slice_index_get(accounts, 4);
    if !seller.is_signer {
        return Err(MarketplaceError::MissingAuthorization);
    }
    match derive_escrow_address(program_id, &nft_mint.key, &seller.key) {
        None => Err(MarketplaceError::DerivationFailure),
        Some((escrow_pda, _)) => {
            if !key_eq(&escrow_pda, &escrow_state.key) {
                Err(MarketplaceError::EscrowAddressMismatch)
            } else {
                let mut actions: Vec<LedgerAction> = Vec::new();
                actions.push(
                    LedgerAction::TokenTransfer {
                        source: seller_token.key,
                        dest: escrow_token.key,
                        authority: TransferAuthority::Signer { key: seller.key },
                        amount: 1,
                    },
                );
                proof {
                    assert(actions@ =~= spec_list(
                        program_id@,
                        accounts@,
                        price,
                    )->Ok_0.0);
                }
                Ok(TransitionEffects { actions, confirmed_price: price })
            }
        },
    }
}

/// Runs the purchase transition: validates the buyer's signature, re-derives
/// the escrow authority and checks the supplied escrow state account against
/// it, and returns the currency transfer and the sub-ledger transfer that
/// together form one atomic unit.
pub fn process_purchase(program_id: &[u8; 32], accounts: &[AccountRef], price: u64) -> (r: Result<
    TransitionEffects,
    MarketplaceError,
>)
    ensures
        effects_view(r) == spec_purchase(program_id@, accounts@, price),
{
    if accounts.len() < 8 {
        return Err(MarketplaceError::NotEnoughAccounts);
    }
    let buyer = *vstd::slice::slice_index_get(accounts, 0);
    let seller = *vstd::slice::slice_index_get(accounts, 1);
    let escrow_token = *vstd::slice::slice_index_get(accounts, 2);
    let buyer_token = *vstd::slice::slice_index_get(accounts, 3);
    let escrow_state = *vstd::slice::slice_index_get(accounts, 4);
    let nft_mint = *vstd::slice::slice_index_get(accounts, 5);
    if !buyer.is_signer {
        return Err(MarketplaceError::MissingAuthorization);
    }
    match derive_escrow_address(program_id, &nft_mint.key, &seller.key) {
        None => Err(MarketplaceError::DerivationFailure),
        Some((escrow_pda, bump)) => {
            if !key_eq(&escrow_pda, &escrow_state.key) {
                return Err(MarketplaceError::EscrowAddressMismatch);
            }
            let mut actions: Vec<LedgerAction> = Vec::new();
            actions.push(
                LedgerAction::NativeTransfer { from: buyer.key, to: seller.key, lamports: price },
            );
            actions.push(
                LedgerAction::TokenTransfer {
                    source: escrow_token.key,
                    dest: buyer_token.key,
                    authority: TransferAuthority::Derived {
                        mint: nft_mint.key,
                        seller: seller.key,
                        bump,
                    },
                    amount: 1,
                },
            );
            proof {
                assert(actions@ =~= spec_purchase(program_id@, accounts@, price)->Ok_0.0);
            }
            Ok(TransitionEffects { actions, confirmed_price: price })
        },
    }
}

/// The invocation entrypoint: decodes the instruction bytes and routes to the
/// matching transition.
pub fn process_instruction(
    program_id: &[u8; 32],
    accounts: &[AccountRef],
    instruction_data: &[u8],
) -> (r: Result<TransitionEffects, MarketplaceError>)
    ensures
        effects_view(r) == spec_process(program_id@, accounts@, instruction_data@),
{
    let instruction = match MarketplaceInstruction::unpack(instruction_data) {
        Ok(i) => i,
        Err(e) => {
            return Err(e);
        },
    };
    match instruction {
        MarketplaceInstruction::ListNFT { price } => process_list(program_id, accounts, price),
        MarketplaceInstruction::PurchaseNFT { price } => process_purchase(
            program_id,
            accounts,
            price,
        ),
    }
}

/// Law: listing requires the seller's signature. On any account list whose
/// seller slot did not sign, the listing transition fails with a missing
/// authorization and issues no transfer request.
pub proof fn lemma_listing_requires_seller_signature(
    program: Seq<u8>,
    accounts: Seq<AccountRef>,
    price: u64,
)
    requires
        accounts.len() >= 8,
        !accounts[0].is_signer,
    ensures
        spec_list(program, accounts, price) == Err::<(Seq<LedgerAction>, u64), MarketplaceError>(
            MarketplaceError::MissingAuthorization,
        ),
{
}

/// Law: listing requires the supplied escrow state account to equal the
/// re-derived custody address. On any account list where it differs, the
/// listing transition fails with an address mismatch and issues no transfer
/// request.
pub proof fn lemma_listing_requires_address_match(
    program: Seq<u8>,
    accounts: Seq<AccountRef>,
    price: u64,
)
    requires
        accounts.len() >= 8,
        accounts[0].is_signer,
        escrow_derivation(program, accounts[4].key@, accounts[0].key@) matches Some((addr, _))
            && addr != accounts[3].key@,
    ensures
        spec_list(program, accounts, price) == Err::<(Seq<LedgerAction>, u64), MarketplaceError>(
            MarketplaceError::EscrowAddressMismatch,
        ),
{
}

/// Law: a purchase whose supplied escrow state account differs from the
/// re-derived custody address aborts with an address mismatch and requests no
/// transfer — not even the currency payment.
pub proof fn lemma_purchase_requires_address_match(
    program: Seq<u8>,
    accounts: Seq<AccountRef>,
    price: u64,
)
    requires
        accounts.len() >= 8,
        accounts[0].is_signer,
        escrow_derivation(program, accounts[5].key@, accounts[1].key@) matches Some((addr, _))
            && addr != accounts[4].key@,
    ensures
        spec_purchase(program, accounts, price) == Err::<
            (Seq<LedgerAction>, u64),
            MarketplaceError,
        >(MarketplaceError::EscrowAddressMismatch),
{
}

} // verus!

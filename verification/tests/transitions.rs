use marketplace::accounts::AccountRef;
use marketplace::actions::LedgerAction;
use marketplace::actions::TransferAuthority;
use marketplace::derivation::derive_escrow_address;
use marketplace::error::MarketplaceError;
use marketplace::instruction::MarketplaceInstruction;
use marketplace::transitions::process_instruction;
use marketplace::transitions::process_list;
use marketplace::transitions::process_purchase;

fn key(fill: u8) -> [u8; 32] {
    [fill; 32]
}

fn signer(fill: u8) -> AccountRef {
    AccountRef { key: key(fill), is_signer: true }
}

fn plain(fill: u8) -> AccountRef {
    AccountRef { key: key(fill), is_signer: false }
}

fn plain_key(k: [u8; 32]) -> AccountRef {
    AccountRef { key: k, is_signer: false }
}

const PROGRAM: u8 = 1;
const SELLER: u8 = 2;
const SELLER_TOKEN: u8 = 3;
const ESCROW_TOKEN: u8 = 4;
const MINT: u8 = 5;
const SYSTEM: u8 = 6;
const TOKEN: u8 = 7;
const RENT: u8 = 8;
const BUYER: u8 = 9;
const BUYER_TOKEN: u8 = 10;

fn list_accounts(seller_signs: bool, escrow_state: [u8; 32]) -> Vec<AccountRef> {
    let seller = if seller_signs { signer(SELLER) } else { plain(SELLER) };
    vec![
        seller,
        plain(SELLER_TOKEN),
        plain(ESCROW_TOKEN),
        plain_key(escrow_state),
        plain(MINT),
        plain(SYSTEM),
        plain(TOKEN),
        plain(RENT),
    ]
}

fn purchase_accounts(buyer_signs: bool, escrow_state: [u8; 32]) -> Vec<AccountRef> {
    let buyer = if buyer_signs { signer(BUYER) } else { plain(BUYER) };
    vec![
        buyer,
        plain(SELLER),
        plain(ESCROW_TOKEN),
        plain(BUYER_TOKEN),
        plain_key(escrow_state),
        plain(MINT),
        plain(SYSTEM),
        plain(TOKEN),
    ]
}

fn escrow_pda() -> ([u8; 32], u8) {
    derive_escrow_address(&key(PROGRAM), &key(MINT), &key(SELLER)).unwrap()
}

#[test]
fn listing_returns_one_escrow_transfer() {
    let (pda, _) = escrow_pda();
    let effects = process_list(&key(PROGRAM), &list_accounts(true, pda), 1000).unwrap();
    assert_eq!(effects.confirmed_price, 1000);
    assert_eq!(
        effects.actions,
        vec![LedgerAction::TokenTransfer {
            source: key(SELLER_TOKEN),
            dest: key(ESCROW_TOKEN),
            authority: TransferAuthority::Signer { key: key(SELLER) },
            amount: 1,
        }]
    );
}

#[test]
fn listing_requires_seller_signature() {
    let (pda, _) = escrow_pda();
    assert_eq!(
        process_list(&key(PROGRAM), &list_accounts(false, pda), 1000),
        Err(MarketplaceError::MissingAuthorization)
    );
}

#[test]
fn listing_requires_address_match() {
    assert_eq!(
        process_list(&key(PROGRAM), &list_accounts(true, key(99)), 1000),
        Err(MarketplaceError::EscrowAddressMismatch)
    );
}

#[test]
fn listing_requires_eight_accounts() {
    let (pda, _) = escrow_pda();
    let mut accounts = list_accounts(true, pda);
    accounts.pop();
    assert_eq!(
        process_list(&key(PROGRAM), &accounts, 1000),
        Err(MarketplaceError::NotEnoughAccounts)
    );
}

#[test]
fn purchase_returns_payment_then_escrow_release() {
    let (pda, bump) = escrow_pda();
    let effects = process_purchase(&key(PROGRAM), &purchase_accounts(true, pda), 1000).unwrap();
    assert_eq!(effects.confirmed_price, 1000);
    assert_eq!(
        effects.actions,
        vec![
            LedgerAction::NativeTransfer {
                from: key(BUYER),
                to: key(SELLER),
                lamports: 1000,
            },
            LedgerAction::TokenTransfer {
                source: key(ESCROW_TOKEN),
                dest: key(BUYER_TOKEN),
                authority: TransferAuthority::Derived {
                    mint: key(MINT),
                    seller: key(SELLER),
                    bump,
                },
                amount: 1,
            },
        ]
    );
}

#[test]
fn purchase_requires_buyer_signature() {
    let (pda, _) = escrow_pda();
    assert_eq!(
        process_purchase(&key(PROGRAM), &purchase_accounts(false, pda), 1000),
        Err(MarketplaceError::MissingAuthorization)
    );
}

#[test]
fn purchase_requires_address_match() {
    assert_eq!(
        process_purchase(&key(PROGRAM), &purchase_accounts(true, key(99)), 1000),
        Err(MarketplaceError::EscrowAddressMismatch)
    );
}

#[test]
fn purchase_requires_eight_accounts() {
    assert_eq!(
        process_purchase(&key(PROGRAM), &purchase_accounts(true, key(0))[..7], 1000),
        Err(MarketplaceError::NotEnoughAccounts)
    );
}

#[test]
fn dispatch_routes_by_tag() {
    let (pda, _) = escrow_pda();
    let list_data = MarketplaceInstruction::ListNFT { price: 500 }.pack();
    let effects =
        process_instruction(&key(PROGRAM), &list_accounts(true, pda), &list_data).unwrap();
    assert_eq!(effects.confirmed_price, 500);
    assert_eq!(effects.actions.len(), 1);

    let buy_data = MarketplaceInstruction::PurchaseNFT { price: 500 }.pack();
    let effects =
        process_instruction(&key(PROGRAM), &purchase_accounts(true, pda), &buy_data).unwrap();
    assert_eq!(effects.confirmed_price, 500);
    assert_eq!(effects.actions.len(), 2);
}

#[test]
fn dispatch_rejects_bad_data() {
    let (pda, _) = escrow_pda();
    assert_eq!(
        process_instruction(&key(PROGRAM), &list_accounts(true, pda), &[2, 0, 0, 0, 0, 0, 0, 0, 0]),
        Err(MarketplaceError::UnrecognizedInstruction)
    );
    assert_eq!(
        process_instruction(&key(PROGRAM), &list_accounts(true, pda), &[0, 1, 2]),
        Err(MarketplaceError::TruncatedPayload)
    );
}

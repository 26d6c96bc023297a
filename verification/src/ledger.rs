use crate::accounts::key_eq;
use crate::accounts::AccountRef;
use crate::actions::LedgerAction;
use crate::actions::TransferAuthority;
use crate::derivation::derive_escrow_address;
use crate::derivation::escrow_derivation;
use crate::error::MarketplaceError;
use crate::transitions::spec_process;
use crate::transitions::process_instruction;
use vstd::prelude::*;
use vstd::pervasive::VecAdditionalExecFns;

verus! {

/// One slot of the asset sub-ledger: a holding, identified by its own
/// address, that tracks how many units of the asset its owner has in custody.
#[derive(Clone, Copy, Debug, PartialEq, Eq)]
pub struct TokenHolding {
    /// The holding's own identity on the ledger.
    pub address: [u8; 32],
    /// The identity that must authorize transfers out of this holding.
    pub owner: [u8; 32],
    /// How many asset units the holding contains.
    pub balance: u64,
}

/// One native-currency account: an identity and its balance in the smallest
/// unit.
#[derive(Clone, Copy, Debug, PartialEq, Eq)]
pub struct NativeAccount {
    /// The account's identity on the ledger.
    pub address: [u8; 32],
    /// The account's native-currency balance.
    pub lamports: u64,
}

/// The slice of host ledger state the marketplace touches: the asset
/// sub-ledger's holdings and the parties' native-currency accounts. The host
/// commits an invocation's transfers all together or not at all; this model
/// makes that atomicity explicit.
#[derive(Debug)]
pub struct Ledger {
    /// The asset sub-ledger's holdings.
    pub holdings: Vec<TokenHolding>,
    /// The native-currency accounts.
    pub balances: Vec<NativeAccount>,
}

/// The position of the first holding with the given address, if any.
pub open spec fn first_holding(s: Seq<TokenHolding>, key: Seq<u8>) -> Option<int>
    decreases s.len(),
{
    if s.len() == 0 {
        None
    } else if s[0].address@ == key {
        Some(0int)
    } else {
        match first_holding(s.drop_first(), key) {
            None => None,
            Some(i) => Some(i + 1),
        }
    }
}

/// The position of the first native account with the given address, if any.
pub open spec fn first_native(s: Seq<NativeAccount>, key: Seq<u8>) -> Option<int>
    decreases s.len(),
{
    if s.len() == 0 {
        None
    } else if s[0].address@ == key {
        Some(0int)
    } else {
        match first_native(s.drop_first(), key) {
            None => None,
            Some(i) => Some(i + 1),
        }
    }
}

proof fn lemma_first_holding_at(s: Seq<TokenHolding>, key: Seq<u8>, i: int)
    requires
        0 <= i < s.len(),
        s[i].address@ == key,
        forall|j: int| 0 <= j < i ==> s[j].address@ != key,
    ensures
        first_holding(s, key) == Some(i),
    decreases i,
{
    if i > 0 {
        lemma_first_holding_at(s.drop_first(), key, i - 1);
    }
}

proof fn lemma_first_holding_none(s: Seq<TokenHolding>, key: Seq<u8>)
    requires
        forall|j: int| 0 <= j < s.len() ==> s[j].address@ != key,
    ensures
        first_holding(s, key) is None,
    decreases s.len(),
{
    if s.len() > 0 {
        lemma_first_holding_none(s.drop_first(), key);
    }
}

proof fn lemma_first_native_at(s: Seq<NativeAccount>, key: Seq<u8>, i: int)
    requires
        0 <= i < s.len(),
        s[i].address@ == key,
        forall|j: int| 0 <= j < i ==> s[j].address@ != key,
    ensures
        first_native(s, key) == Some(i),
    decreases i,
{
    if i > 0 {
        lemma_first_native_at(s.drop_first(), key, i - 1);
    }
}

proof fn lemma_first_native_none(s: Seq<NativeAccount>, key: Seq<u8>)
    requires
        forall|j: int| 0 <= j < s.len() ==> s[j].address@ != key,
    ensures
        first_native(s, key) is None,
    decreases s.len(),
{
    if s.len() > 0 {
        lemma_first_native_none(s.drop_first(), key);
    }
}

/// What one sub-ledger transfer does: both holdings must exist (the first
/// with each address counts), the authority must own the source, the source
/// must cover the amount, and the destination must have room; then the amount
/// moves. A transfer from a holding to itself moves nothing. Any rejection
/// leaves the sub-ledger as it was.
pub open spec fn spec_token_transfer(
    s: Seq<TokenHolding>,
    source: Seq<u8>,
    dest: Seq<u8>,
    authority: Seq<u8>,
    amount: u64,
) -> Result<Seq<TokenHolding>, MarketplaceError> {
    match (first_holding(s, source), first_holding(s, dest)) {
        (Some(i), Some(j)) => {
            if s[i].owner@ != authority {
                Err(MarketplaceError::CollaboratorTransferFailure)
            } else if s[i].balance < amount {
                Err(MarketplaceError::CollaboratorTransferFailure)
            } else if i != j && s[j].balance as int + amount as int > u64::MAX as int {
                Err(MarketplaceError::CollaboratorTransferFailure)
            } else if i == j {
                Ok(s)
            } else {
                Ok(
                    s.update(
                        i,
                        TokenHolding {
                            address: s[i].address,
                            owner: s[i].owner,
                            balance: (s[i].balance - amount) as u64,
                        },
                    ).update(
                        j,
                        TokenHolding {
                            address: s[j].address,
                            owner: s[j].owner,
                            balance: (s[j].balance + amount) as u64,
                        },
                    ),
                )
            }
        },
        _ => Err(MarketplaceError::CollaboratorTransferFailure),
    }
}

/// What one native-currency transfer does: both accounts must exist, the
/// payer must cover the amount, and the payee must have room; then the amount
/// moves. A transfer from an account to itself moves nothing. Any rejection
/// leaves the balances as they were.
pub open spec fn spec_native_transfer(
    s: Seq<NativeAccount>,
    from: Seq<u8>,
    to: Seq<u8>,
    lamports: u64,
) -> Result<Seq<NativeAccount>, MarketplaceError> {
    match (first_native(s, from), first_native(s, to)) {
        (Some(i), Some(j)) => {
            if s[i].lamports < lamports {
                Err(MarketplaceError::CollaboratorTransferFailure)
            } else if i != j && s[j].lamports as int + lamports as int > u64::MAX as int {
                Err(MarketplaceError::CollaboratorTransferFailure)
            } else if i == j {
                Ok(s)
            } else {
                Ok(
                    s.update(
                        i,
                        NativeAccount {
                            address: s[i].address,
                            lamports: (s[i].lamports - lamports) as u64,
                        },
                    ).update(
                        j,
                        NativeAccount {
                            address: s[j].address,
                            lamports: (s[j].lamports + lamports) as u64,
                        },
                    ),
                )
            }
        },
        _ => Err(MarketplaceError::CollaboratorTransferFailure),
    }
}

/// The identity a transfer authority resolves to: a signer stands for its own
/// key; the derivation seeds stand for the derived custody address, and prove
/// nothing if the disambiguation byte is not the one derivation found, or if
/// nothing is derivable.
pub open spec fn spec_authority_address(program: Seq<u8>, a: TransferAuthority) -> Option<Seq<u8>> {
    match a {
        TransferAuthority::Signer { key } => Some(key@),
        TransferAuthority::Derived { mint, seller, bump } => {
            match escrow_derivation(program, mint@, seller@) {
                Some((addr, b)) => if b == bump {
                    Some(addr)
                } else {
                    None
                },
                None => None,
            }
        },
    }
}

/// What one transfer request does to the ledger, under a program identity.
pub open spec fn spec_apply_action(
    h: Seq<TokenHolding>,
    b: Seq<NativeAccount>,
    program: Seq<u8>,
    a: LedgerAction,
) -> Result<(Seq<TokenHolding>, Seq<NativeAccount>), MarketplaceError> {
    match a {
        LedgerAction::TokenTransfer { source, dest, authority, amount } => {
            match spec_authority_address(program, authority) {
                None => Err(MarketplaceError::CollaboratorTransferFailure),
                Some(auth) => match spec_token_transfer(h, source@, dest@, auth, amount) {
                    Ok(h2) => Ok((h2, b)),
                    Err(e) => Err(e),
                },
            }
        },
        LedgerAction::NativeTransfer { from, to, lamports } => {
            match spec_native_transfer(b, from@, to@, lamports) {
                Ok(b2) => Ok((h, b2)),
                Err(e) => Err(e),
            }
        },
    }
}

/// What a whole request list does: each request in order, and the first
/// rejection rejects the whole list.
pub open spec fn spec_apply_actions(
    h: Seq<TokenHolding>,
    b: Seq<NativeAccount>,
    program: Seq<u8>,
    actions: Seq<LedgerAction>,
) -> Result<(Seq<TokenHolding>, Seq<NativeAccount>), MarketplaceError>
    decreases actions.len(),
{
    if actions.len() == 0 {
        Ok((h, b))
    } else {
        match spec_apply_action(h, b, program, actions[0]) {
            Err(e) => Err(e),
            Ok((h2, b2)) => spec_apply_actions(h2, b2, program, actions.drop_first()),
        }
    }
}

/// A whole invocation against a ledger: decode, route, and apply the
/// transition's requests atomically; a success also reports the confirmed
/// price.
pub open spec fn spec_execute(
    program: Seq<u8>,
    accounts: Seq<AccountRef>,
    data: Seq<u8>,
    h: Seq<TokenHolding>,
    b: Seq<NativeAccount>,
) -> Result<(Seq<TokenHolding>, Seq<NativeAccount>, u64), MarketplaceError> {
    match spec_process(program, accounts, data) {
        Err(e) => Err(e),
        Ok((actions, price)) => match spec_apply_actions(h, b, program, actions) {
            Err(e) => Err(e),
            Ok((h2, b2)) => Ok((h2, b2, price)),
        },
    }
}

fn find_holding(v: &Vec<TokenHolding>, key: &[u8; 32]) -> (r: Option<usize>)
    ensures
        match r {
            Some(i) => first_holding(v@, key@) == Some(i as int) && i < v@.len() && v@[
                i as int
            ].address@ == key@,
            None => first_holding(v@, key@) is None,
        },
{
    let mut i: usize = 0;
    while i < v.len()
        invariant
            i <= v@.len(),
            forall|j: int| 0 <= j < i ==> v@[j].address@ != key@,
        decreases v@.len() - i,
    {
        if key_eq(&v[i].address, key) {
            proof {
                lemma_first_holding_at(v@, key@, i as int);
            }
            return Some(i);
        }
        i = i + 1;
    }
    proof {
        lemma_first_holding_none(v@, key@);
    }
    None
}

fn find_native(v: &Vec<NativeAccount>, key: &[u8; 32]) -> (r: Option<usize>)
    ensures
        match r {
            Some(i) => first_native(v@, key@) == Some(i as int) && i < v@.len() && v@[
                i as int
            ].address@ == key@,
            None => first_native(v@, key@) is None,
        },
{
    let mut i: usize = 0;
    while i < v.len()
        invariant
            i <= v@.len(),
            forall|j: int| 0 <= j < i ==> v@[j].address@ != key@,
        decreases v@.len() - i,
    {
        if key_eq(&v[i].address, key) {
            proof {
                lemma_first_native_at(v@, key@, i as int);
            }
            return Some(i);
        }
        i = i + 1;
    }
    proof {
        lemma_first_native_none(v@, key@);
    }
    None
}

fn token_transfer(
    h: &mut Vec<TokenHolding>,
    source: &[u8; 32],
    dest: &[u8; 32],
    authority: &[u8; 32],
    amount: u64,
) -> (r: Result<(), MarketplaceError>)
    ensures
        match r {
            Ok(()) => spec_token_transfer(old(h)@, source@, dest@, authority@, amount) == Ok::<_, MarketplaceError>(
                final(h)@,
            ),
            Err(e) => spec_token_transfer(old(h)@, source@, dest@, authority@, amount) == Err::<
                Seq<TokenHolding>,
                _,
            >(e) && final(h)@ == old(h)@,
        },
{
    let si = match find_holding(h, source) {
        Some(i) => i,
        None => {
            return Err(MarketplaceError::CollaboratorTransferFailure);
        },
    };
    let di = match find_holding(h, dest) {
        Some(i) => i,
        None => {
            return Err(MarketplaceError::CollaboratorTransferFailure);
        },
    };
    let s_entry = h[si];
    if !key_eq(&s_entry.owner, authority) {
        return Err(MarketplaceError::CollaboratorTransferFailure);
    }
    if s_entry.balance < amount {
        return Err(MarketplaceError::CollaboratorTransferFailure);
    }
    if si == di {
        return Ok(());
    }
    let d_entry = h[di];
    if d_entry.balance > u64::MAX - amount {
        return Err(MarketplaceError::CollaboratorTransferFailure);
    }
    h.set(
        si,
        TokenHolding {
            address: s_entry.address,
            owner: s_entry.owner,
            balance: s_entry.balance - amount,
        },
    );
    h.set(
        di,
        TokenHolding {
            address: d_entry.address,
            owner: d_entry.owner,
            balance: d_entry.balance + amount,
        },
    );
    Ok(())
}

fn native_transfer(s: &mut Vec<NativeAccount>, from: &[u8; 32], to: &[u8; 32], lamports: u64) -> (r:
    Result<(), MarketplaceError>)
    ensures
        match r {
            Ok(()) => spec_native_transfer(old(s)@, from@, to@, lamports) == Ok::<_, MarketplaceError>(final(s)@),
            Err(e) => spec_native_transfer(old(s)@, from@, to@, lamports) == Err::<
                Seq<NativeAccount>,
                _,
            >(e) && final(s)@ == old(s)@,
        },
{
    let fi = match find_native(s, from) {
        Some(i) => i,
        None => {
            return Err(MarketplaceError::CollaboratorTransferFailure);
        },
    };
    let ti = match find_native(s, to) {
        Some(i) => i,
        None => {
            return Err(MarketplaceError::CollaboratorTransferFailure);
        },
    };
    let f_entry = s[fi];
    if f_entry.lamports < lamports {
        return Err(MarketplaceError::CollaboratorTransferFailure);
    }
    if fi == ti {
        return Ok(());
    }
    let t_entry = s[ti];
    if t_entry.lamports > u64::MAX - lamports {
        return Err(MarketplaceError::CollaboratorTransferFailure);
    }
    s.set(fi, NativeAccount { address: f_entry.address, lamports: f_entry.lamports - lamports });
    s.set(ti, NativeAccount { address: t_entry.address, lamports: t_entry.lamports + lamports });
    Ok(())
}

fn apply_action(
    h: &mut Vec<TokenHolding>,
    b: &mut Vec<NativeAccount>,
    program_id: &[u8; 32],
    action: &LedgerAction,
) -> (r: Result<(), MarketplaceError>)
    ensures
        match r {
            Ok(()) => spec_apply_action(old(h)@, old(b)@, program_id@, *action) == Ok::<_, MarketplaceError>(
                (final(h)@, final(b)@),
            ),
            Err(e) => spec_apply_action(old(h)@, old(b)@, program_id@, *action) == Err::<
                (Seq<TokenHolding>, Seq<NativeAccount>),
                _,
            >(e) && final(h)@ == old(h)@ && final(b)@ == old(b)@,
        },
{
    match action {
        LedgerAction::TokenTransfer { source, dest, authority, amount } => {
            let auth: [u8; 32] = match authority {
                TransferAuthority::Signer { key } => *key,
                TransferAuthority::Derived { mint, seller, bump } => {
                    match derive_escrow_address(program_id, mint, seller) {
                        Some((addr, found_bump)) => {
                            if found_bump != *bump {
                                return Err(MarketplaceError::CollaboratorTransferFailure);
                            }
                            addr
                        },
                        None => {
                            return Err(MarketplaceError::CollaboratorTransferFailure);
                        },
                    }
                },
            };
            token_transfer(h, source, dest, &auth, *amount)
        },
        LedgerAction::NativeTransfer { from, to, lamports } => {
            native_transfer(b, from, to, *lamports)
        },
    }
}

fn copy_holdings(v: &Vec<TokenHolding>) -> (r: Vec<TokenHolding>)
    ensures
        r@ == v@,
{
    let mut out: Vec<TokenHolding> = Vec::new();
    let mut i: usize = 0;
    while i < v.len()
        invariant
            i <= v@.len(),
            out@ == v@.take(i as int),
        decreases v@.len() - i,
    {
        out.push(v[i]);
        proof {
            assert(out@ =~= v@.take(i as int + 1));
        }
        i = i + 1;
    }
    proof {
        assert(v@.take(v@.len() as int) =~= v@);
    }
    out
}

fn copy_balances(v: &Vec<NativeAccount>) -> (r: Vec<NativeAccount>)
    ensures
        r@ == v@,
{
    let mut out: Vec<NativeAccount> = Vec::new();
    let mut i: usize = 0;
    while i < v.len()
        invariant
            i <= v@.len(),
            out@ == v@.take(i as int),
        decreases v@.len() - i,
    {
        out.push(v[i]);
        proof {
            assert(out@ =~= v@.take(i as int + 1));
        }
        i = i + 1;
    }
    proof {
        assert(v@.take(v@.len() as int) =~= v@);
    }
    out
}

impl Ledger {
    /// Performs a transition's transfer requests as one atomic unit of work:
    /// either every request succeeds and the ledger holds the combined
    /// result, or the first rejection is reported and the ledger is exactly
    /// as it was — no partial state change is ever observable.
    pub fn apply_actions(&mut self, program_id: &[u8; 32], actions: &Vec<LedgerAction>) -> (r:
        Result<(), MarketplaceError>)
        ensures
            match r {
                Ok(()) => spec_apply_actions(
                    old(self).holdings@,
                    old(self).balances@,
                    program_id@,
                    actions@,
                ) == Ok::<_, MarketplaceError>((final(self).holdings@, final(self).balances@)),
                Err(e) => spec_apply_actions(
                    old(self).holdings@,
                    old(self).balances@,
                    program_id@,
                    actions@,
                ) == Err::<(Seq<TokenHolding>, Seq<NativeAccount>), _>(e) && final(self).holdings@
                    == old(self).holdings@ && final(self).balances@ == old(self).balances@,
            },
    {
        let ghost h0 = self.holdings@;
        let ghost b0 = self.balances@;
        let mut h = copy_holdings(&self.holdings);
        let mut b = copy_balances(&self.balances);
        let mut k: usize = 0;
        proof {
            assert(actions@.skip(0) =~= actions@);
        }
        while k < actions.len()
            invariant
                k <= actions@.len(),
                self.holdings@ == h0 && h0 == old(self).holdings@,
                self.balances@ == b0 && b0 == old(self).balances@,
                spec_apply_actions(h0, b0, program_id@, actions@) == spec_apply_actions(
                    h@,
                    b@,
                    program_id@,
                    actions@.skip(k as int),
                ),
            decreases actions@.len() - k,
        {
            let a = actions[k];
            proof {
                assert(actions@.skip(k as int)[0] == actions@[k as int]);
            }
            match apply_action(&mut h, &mut b, program_id, &a) {
                Ok(()) => {
                    proof {
                        assert(actions@.skip(k as int).drop_first() =~= actions@.skip(
                            k as int + 1,
                        ));
                    }
                },
                Err(e) => {
                    return Err(e);
                },
            }
            k = k + 1;
        }
        proof {
            assert(actions@.skip(actions@.len() as int) =~= Seq::<LedgerAction>::empty());
        }
        self.holdings = h;
        self.balances = b;
        Ok(())
    }
}

/// Runs a whole invocation against the ledger: decodes the instruction,
/// routes to the matching transition, and performs its transfer requests
/// atomically. On success the confirmed price is returned; on any error —
/// a decode failure, a failed validation, or a rejected transfer, even one
/// rejected after an earlier transfer in the same unit was requested — the
/// ledger is exactly as it was before the invocation.
pub fn execute_instruction(
    program_id: &[u8; 32],
    accounts: &[AccountRef],
    instruction_data: &[u8],
    ledger: &mut Ledger,
) -> (r: Result<u64, MarketplaceError>)
    ensures
        match r {
            Ok(price) => spec_execute(
                program_id@,
                accounts@,
                instruction_data@,
                old(ledger).holdings@,
                old(ledger).balances@,
            ) == Ok::<_, MarketplaceError>((final(ledger).holdings@, final(ledger).balances@, price)),
            Err(e) => spec_execute(
                program_id@,
                accounts@,
                instruction_data@,
                old(ledger).holdings@,
                old(ledger).balances@,
            ) == Err::<(Seq<TokenHolding>, Seq<NativeAccount>, u64), _>(e)
                && final(ledger).holdings@ == old(ledger).holdings@
                && final(ledger).balances@ == old(ledger).balances@,
        },
{
    let effects = match process_instruction(program_id, accounts, instruction_data) {
        Ok(e) => e,
        Err(e) => {
            return Err(e);
        },
    };
    match ledger.apply_actions(program_id, &effects.actions) {
        Ok(()) => Ok(effects.confirmed_price),
        Err(e) => Err(e),
    }
}

} // verus!

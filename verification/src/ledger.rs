//! The vault state machine: one owner's vault, its persisted metadata record,
//! and the four operations that move funds in and out of it.

use vstd::prelude::*;

use crate::derivation::{check_derived, derive_address, pda_create, pda_find};

verus! {

/// The errors an operation can end with. Every operation is all-or-nothing:
/// an error leaves the ledger exactly as it was.
#[derive(Clone, Copy, Debug, PartialEq, Eq, Structural)]
pub enum VaultError {
    /// Initialize found an existing metadata record for this owner.
    AlreadyInitialized,
    /// Deposit, Withdraw or Close found no metadata record for this owner.
    VaultNotFound,
    /// A supplied account address does not match the derived one.
    BumpMismatch,
    /// The paying balance cannot cover the requested movement.
    InsufficientFunds,
    /// Crediting the destination would overflow its balance.
    ArithmeticOverflow,
    /// The bump search space was exhausted during derivation.
    DerivationExhausted,
}

/// The persisted metadata record, one per owner: the two bump values written
/// at initialization and immutable afterwards. Re-deriving the state and
/// vault addresses from them on every operation is the authorization check.
#[derive(Clone, Copy, Debug, PartialEq, Eq, Structural)]
pub struct VaultState {
    /// Bump that re-derives the vault address from the state record's address.
    pub vault_bump: u8,
    /// Bump that re-derives the state record's own address from the owner.
    pub state_bump: u8,
}

impl VaultState {
    /// The persisted layout: one byte `vault_bump`, one byte `state_bump`.
    /// The storage layer's own tag, prepended outside this core, is not part
    /// of it.
    pub open spec fn bytes_of(self) -> Seq<u8> {
        seq![self.vault_bump, self.state_bump]
    }

    /// Encode the record into its two-byte persisted payload.
    pub fn to_bytes(&self) -> (r: Vec<u8>)
        ensures
            r@ == self.bytes_of(),
    {
        let mut bytes: Vec<u8> = Vec::new();
        bytes.push(self.vault_bump);
        bytes.push(self.state_bump);
        assert(bytes@ =~= self.bytes_of());
        bytes
    }

    /// Decode a persisted payload; `None` exactly when its length is wrong.
    pub fn from_bytes(bytes: &Vec<u8>) -> (r: Option<VaultState>)
        ensures
            match r {
                Some(state) => bytes@ == state.bytes_of(),
                None => bytes@.len() != 2,
            },
    {
        if bytes.len() != 2 {
            return None;
        }
        let state = VaultState { vault_bump: bytes[0], state_bump: bytes[1] };
        assert(bytes@ =~= state.bytes_of());
        Some(state)
    }
}

/// The persisted payload is always two bytes, and two records with the same
/// payload are the same record; with `from_bytes`'s contract, decoding an
/// encoding yields the record back.
pub proof fn lemma_bytes_of_injective(a: VaultState, b: VaultState)
    ensures
        a.bytes_of().len() == 2,
        a.bytes_of() == b.bytes_of() ==> a == b,
{
    if a.bytes_of() == b.bytes_of() {
        assert(a.bytes_of()[0] == b.bytes_of()[0]);
        assert(a.bytes_of()[1] == b.bytes_of()[1]);
    }
}

/// The metadata record as stored: the bumps plus the storage-rent deposit
/// that keeps the record alive, returned to the owner when it is closed.
#[derive(Clone, Copy, Debug, PartialEq, Eq, Structural)]
pub struct StoredRecord {
    /// The persisted bump pair.
    pub state: VaultState,
    /// The storage-rent minimum paid at initialization.
    pub rent: u64,
}

/// One owner's world as the operations see it: the derivation namespace, the
/// owner identity, the owner's external balance, the metadata record (absent
/// while uninitialized), and the vault's balance.
pub struct Ledger {
    /// The 32-byte identity of the program that owns the derivation namespace.
    pub program_id: Vec<u8>,
    /// The 32-byte identity of the vault's owner.
    pub owner: Vec<u8>,
    /// The owner's external balance, the source of deposits and rent.
    pub owner_balance: u64,
    /// The metadata record; `None` exactly while the vault is uninitialized.
    pub record: Option<StoredRecord>,
    /// The vault's balance.
    pub vault_balance: u64,
}

/// The mathematical value of a `Ledger`.
pub struct LedgerView {
    /// The derivation namespace, as bytes.
    pub program_id: Seq<u8>,
    /// The owner identity, as bytes.
    pub owner: Seq<u8>,
    /// The owner's external balance.
    pub owner_balance: u64,
    /// The metadata record, absent while uninitialized.
    pub record: Option<StoredRecord>,
    /// The vault's balance.
    pub vault_balance: u64,
}

impl View for Ledger {
    type V = LedgerView;

    open spec fn view(&self) -> LedgerView {
        LedgerView {
            program_id: self.program_id@,
            owner: self.owner@,
            owner_balance: self.owner_balance,
            record: self.record,
            vault_balance: self.vault_balance,
        }
    }
}

impl LedgerView {
    /// Well-formedness: identities are 32-byte addresses.
    pub open spec fn wf(self) -> bool {
        self.program_id.len() == 32 && self.owner.len() == 32
    }

    /// Every unit this ledger accounts for: the owner's external balance, the
    /// vault's balance, and the rent deposit held by the record.
    pub open spec fn total_funds(self) -> int {
        self.owner_balance + self.vault_balance + match self.record {
            Some(rec) => rec.rent as int,
            None => 0,
        }
    }
}

/// The namespace tag of the metadata record: the bytes of `"state"`.
pub open spec fn state_tag() -> Seq<u8> {
    seq![115u8, 116u8, 97u8, 116u8, 101u8]
}

/// The namespace tag of the vault: the bytes of `"vault"`.
pub open spec fn vault_tag() -> Seq<u8> {
    seq![118u8, 97u8, 117u8, 108u8, 116u8]
}

/// The bytes of the `"state"` namespace tag.
pub fn state_tag_bytes() -> (r: Vec<u8>)
    ensures
        r@ == state_tag(),
{
    let mut tag: Vec<u8> = Vec::new();
    tag.push(115u8);
    tag.push(116u8);
    tag.push(97u8);
    tag.push(116u8);
    tag.push(101u8);
    assert(tag@ =~= state_tag());
    tag
}

/// The bytes of the `"vault"` namespace tag.
pub fn vault_tag_bytes() -> (r: Vec<u8>)
    ensures
        r@ == vault_tag(),
{
    let mut tag: Vec<u8> = Vec::new();
    tag.push(118u8);
    tag.push(97u8);
    tag.push(117u8);
    tag.push(108u8);
    tag.push(116u8);
    assert(tag@ =~= vault_tag());
    tag
}

/// The authorization check on the metadata record: the stored `state_bump`
/// re-derives, from the owner identity, exactly the supplied state address.
pub open spec fn state_addr_ok(l: LedgerView, supplied_state: Seq<u8>, state_bump: u8) -> bool {
    pda_create(state_tag(), l.owner, state_bump, l.program_id) == Some(supplied_state)
}

/// The authorization check on the vault: the stored `vault_bump` re-derives,
/// from the state record's address, exactly the supplied vault address.
pub open spec fn vault_addr_ok(l: LedgerView, supplied_state: Seq<u8>, supplied_vault: Seq<u8>, vault_bump: u8) -> bool {
    pda_create(vault_tag(), supplied_state, vault_bump, l.program_id) == Some(supplied_vault)
}

/// Both authorization checks for an operation on an active vault.
pub open spec fn accounts_ok(l: LedgerView, rec: StoredRecord, supplied_state: Seq<u8>, supplied_vault: Seq<u8>) -> bool {
    state_addr_ok(l, supplied_state, rec.state.state_bump)
        && vault_addr_ok(l, supplied_state, supplied_vault, rec.state.vault_bump)
}

/// What Initialize does. Checks, in order: no record may exist yet; both
/// derivations must succeed; each supplied address must equal the derived
/// one; the owner must cover the rent minimum. On success the rent moves from
/// the owner's balance into the record and the two bumps are persisted.
pub open spec fn step_initialize(l: LedgerView, supplied_state: Seq<u8>, supplied_vault: Seq<u8>, rent_min: u64) -> (LedgerView, Result<(), VaultError>) {
    if l.record is Some {
        (l, Err(VaultError::AlreadyInitialized))
    } else {
        match pda_find(state_tag(), l.owner, l.program_id) {
            None => (l, Err(VaultError::DerivationExhausted)),
            Some(state_found) => if state_found.0 != supplied_state {
                (l, Err(VaultError::BumpMismatch))
            } else {
                match pda_find(vault_tag(), state_found.0, l.program_id) {
                    None => (l, Err(VaultError::DerivationExhausted)),
                    Some(vault_found) => if vault_found.0 != supplied_vault {
                        (l, Err(VaultError::BumpMismatch))
                    } else if l.owner_balance < rent_min {
                        (l, Err(VaultError::InsufficientFunds))
                    } else {
                        (
                            LedgerView {
                                owner_balance: (l.owner_balance - rent_min) as u64,
                                record: Some(StoredRecord {
                                    state: VaultState {
                                        vault_bump: vault_found.1,
                                        state_bump: state_found.1,
                                    },
                                    rent: rent_min,
                                }),
                                ..l
                            },
                            Ok(()),
                        )
                    },
                }
            },
        }
    }
}

/// What Deposit does. Checks, in order: a record must exist; the supplied
/// addresses must pass the bump re-derivation; the owner must cover the
/// amount; the vault's balance must not overflow. On success exactly `amount`
/// moves from the owner's balance to the vault's. An amount of zero passes
/// the same checks and moves nothing.
pub open spec fn step_deposit(l: LedgerView, supplied_state: Seq<u8>, supplied_vault: Seq<u8>, amount: u64) -> (LedgerView, Result<(), VaultError>) {
    match l.record {
        None => (l, Err(VaultError::VaultNotFound)),
        Some(rec) => if !accounts_ok(l, rec, supplied_state, supplied_vault) {
            (l, Err(VaultError::BumpMismatch))
        } else if l.owner_balance < amount {
            (l, Err(VaultError::InsufficientFunds))
        } else if l.vault_balance + amount > u64::MAX {
            (l, Err(VaultError::ArithmeticOverflow))
        } else {
            (
                LedgerView {
                    owner_balance: (l.owner_balance - amount) as u64,
                    vault_balance: (l.vault_balance + amount) as u64,
                    ..l
                },
                Ok(()),
            )
        },
    }
}

/// What Withdraw does. Checks, in order: a record must exist; the supplied
/// addresses must pass the bump re-derivation; the vault must cover the
/// amount; the owner's balance must not overflow. On success exactly `amount`
/// moves from the vault's balance to the owner's. An amount of zero passes
/// the same checks and moves nothing.
pub open spec fn step_withdraw(l: LedgerView, supplied_state: Seq<u8>, supplied_vault: Seq<u8>, amount: u64) -> (LedgerView, Result<(), VaultError>) {
    match l.record {
        None => (l, Err(VaultError::VaultNotFound)),
        Some(rec) => if !accounts_ok(l, rec, supplied_state, supplied_vault) {
            (l, Err(VaultError::BumpMismatch))
        } else if l.vault_balance < amount {
            (l, Err(VaultError::InsufficientFunds))
        } else if l.owner_balance + amount > u64::MAX {
            (l, Err(VaultError::ArithmeticOverflow))
        } else {
            (
                LedgerView {
                    owner_balance: (l.owner_balance + amount) as u64,
                    vault_balance: (l.vault_balance - amount) as u64,
                    ..l
                },
                Ok(()),
            )
        },
    }
}

/// What Close does. Checks, in order: a record must exist; the supplied
/// addresses must pass the bump re-derivation; the owner's balance must not
/// overflow. On success the entire vault balance and the record's rent
/// deposit move to the owner and the record is deleted, together.
pub open spec fn step_close(l: LedgerView, supplied_state: Seq<u8>, supplied_vault: Seq<u8>) -> (LedgerView, Result<(), VaultError>) {
    match l.record {
        None => (l, Err(VaultError::VaultNotFound)),
        Some(rec) => if !accounts_ok(l, rec, supplied_state, supplied_vault) {
            (l, Err(VaultError::BumpMismatch))
        } else if l.owner_balance + l.vault_balance + rec.rent > u64::MAX {
            (l, Err(VaultError::ArithmeticOverflow))
        } else {
            (
                LedgerView {
                    owner_balance: (l.owner_balance + l.vault_balance + rec.rent) as u64,
                    vault_balance: 0u64,
                    record: None,
                    ..l
                },
                Ok(()),
            )
        },
    }
}

impl Ledger {
    /// A fresh, uninitialized ledger for one owner.
    pub fn new(program_id: Vec<u8>, owner: Vec<u8>, owner_balance: u64) -> (r: Ledger)
        requires
            program_id@.len() == 32,
            owner@.len() == 32,
        ensures
            r@ == (LedgerView {
                program_id: program_id@,
                owner: owner@,
                owner_balance: owner_balance,
                record: None,
                vault_balance: 0u64,
            }),
            r@.wf(),
    {
        Ledger { program_id, owner, owner_balance, record: None, vault_balance: 0 }
    }

    /// Initialize the owner's vault: derive the state and vault addresses,
    /// check them against the supplied ones, move the rent minimum from the
    /// owner into the record, and persist the two bumps.
    pub fn initialize(&mut self, supplied_state: &Vec<u8>, supplied_vault: &Vec<u8>, rent_min: u64) -> (r: Result<(), VaultError>)
        requires
            old(self)@.wf(),
        ensures
            final(self)@ == step_initialize(old(self)@, supplied_state@, supplied_vault@, rent_min).0,
            r == step_initialize(old(self)@, supplied_state@, supplied_vault@, rent_min).1,
            final(self)@.wf(),
    {
        if self.record.is_some() {
            return Err(VaultError::AlreadyInitialized);
        }
        let tag_state = state_tag_bytes();
        let state_found = match derive_address(&tag_state, &self.owner, &self.program_id) {
            Ok(found) => found,
            Err(e) => return Err(e),
        };
        if !crate::bytes_eq(&state_found.0, supplied_state) {
            return Err(VaultError::BumpMismatch);
        }
        let tag_vault = vault_tag_bytes();
        let vault_found = match derive_address(&tag_vault, &state_found.0, &self.program_id) {
            Ok(found) => found,
            Err(e) => return Err(e),
        };
        if !crate::bytes_eq(&vault_found.0, supplied_vault) {
            return Err(VaultError::BumpMismatch);
        }
        if self.owner_balance < rent_min {
            return Err(VaultError::InsufficientFunds);
        }
        self.owner_balance = self.owner_balance - rent_min;
        self.record = Some(StoredRecord {
            state: VaultState { vault_bump: vault_found.1, state_bump: state_found.1 },
            rent: rent_min,
        });
        Ok(())
    }

    /// Deposit `amount` from the owner's external balance into the vault.
    pub fn deposit(&mut self, supplied_state: &Vec<u8>, supplied_vault: &Vec<u8>, amount: u64) -> (r: Result<(), VaultError>)
        requires
            old(self)@.wf(),
        ensures
            final(self)@ == step_deposit(old(self)@, supplied_state@, supplied_vault@, amount).0,
            r == step_deposit(old(self)@, supplied_state@, supplied_vault@, amount).1,
            final(self)@.wf(),
    {
        let rec = match self.record {
            None => return Err(VaultError::VaultNotFound),
            Some(rec) => rec,
        };
        if !self.accounts_check(rec, supplied_state, supplied_vault) {
            return Err(VaultError::BumpMismatch);
        }
        if self.owner_balance < amount {
            return Err(VaultError::InsufficientFunds);
        }
        if amount > u64::MAX - self.vault_balance {
            return Err(VaultError::ArithmeticOverflow);
        }
        self.owner_balance = self.owner_balance - amount;
        self.vault_balance = self.vault_balance + amount;
        Ok(())
    }

    /// Withdraw `amount` from the vault into the owner's external balance.
    /// The vault address has no private key: authority over it is proved by
    /// re-deriving it from the same seeds and bump used at initialization.
    pub fn withdraw(&mut self, supplied_state: &Vec<u8>, supplied_vault: &Vec<u8>, amount: u64) -> (r: Result<(), VaultError>)
        requires
            old(self)@.wf(),
        ensures
            final(self)@ == step_withdraw(old(self)@, supplied_state@, supplied_vault@, amount).0,
            r == step_withdraw(old(self)@, supplied_state@, supplied_vault@, amount).1,
            final(self)@.wf(),
    {
        let rec = match self.record {
            None => return Err(VaultError::VaultNotFound),
            Some(rec) => rec,
        };
        if !self.accounts_check(rec, supplied_state, supplied_vault) {
            return Err(VaultError::BumpMismatch);
        }
        if self.vault_balance < amount {
            return Err(VaultError::InsufficientFunds);
        }
        if amount > u64::MAX - self.owner_balance {
            return Err(VaultError::ArithmeticOverflow);
        }
        self.vault_balance = self.vault_balance - amount;
        self.owner_balance = self.owner_balance + amount;
        Ok(())
    }

    /// Close the owner's vault: sweep the entire vault balance and the
    /// record's rent deposit back to the owner, and delete the record.
    pub fn close(&mut self, supplied_state: &Vec<u8>, supplied_vault: &Vec<u8>) -> (r: Result<(), VaultError>)
        requires
            old(self)@.wf(),
        ensures
            final(self)@ == step_close(old(self)@, supplied_state@, supplied_vault@).0,
            r == step_close(old(self)@, supplied_state@, supplied_vault@).1,
            final(self)@.wf(),
    {
        let rec = match self.record {
            None => return Err(VaultError::VaultNotFound),
            Some(rec) => rec,
        };
        if !self.accounts_check(rec, supplied_state, supplied_vault) {
            return Err(VaultError::BumpMismatch);
        }
        if self.vault_balance > u64::MAX - self.owner_balance {
            return Err(VaultError::ArithmeticOverflow);
        }
        let swept = self.owner_balance + self.vault_balance;
        if rec.rent > u64::MAX - swept {
            return Err(VaultError::ArithmeticOverflow);
        }
        self.owner_balance = swept + rec.rent;
        self.vault_balance = 0;
        self.record = None;
        Ok(())
    }

    /// Run both bump re-derivation checks against the supplied addresses.
    fn accounts_check(&self, rec: StoredRecord, supplied_state: &Vec<u8>, supplied_vault: &Vec<u8>) -> (r: bool)
        requires
            self@.wf(),
        ensures
            r == accounts_ok(self@, rec, supplied_state@, supplied_vault@),
    {
        let tag_state = state_tag_bytes();
        if !check_derived(&tag_state, &self.owner, rec.state.state_bump, &self.program_id, supplied_state) {
            return false;
        }
        let tag_vault = vault_tag_bytes();
        check_derived(&tag_vault, supplied_state, rec.state.vault_bump, &self.program_id, supplied_vault)
    }
}

/// Initializing twice: after a successful Initialize, a second Initialize for
/// the same owner fails with `AlreadyInitialized` and changes nothing,
/// whatever accounts and rent the second call is given.
pub proof fn lemma_initialize_twice(
    l: LedgerView,
    s1: Seq<u8>,
    v1: Seq<u8>,
    rent1: u64,
    s2: Seq<u8>,
    v2: Seq<u8>,
    rent2: u64,
)
    requires
        step_initialize(l, s1, v1, rent1).1 is Ok,
    ensures
        step_initialize(step_initialize(l, s1, v1, rent1).0, s2, v2, rent2) == (
            step_initialize(l, s1, v1, rent1).0,
            Err::<(), VaultError>(VaultError::AlreadyInitialized),
        ),
{
}

/// A successful Deposit moves exactly `amount`: the vault grows by `amount`
/// and the owner's external balance shrinks by `amount`.
pub proof fn lemma_deposit_moves_amount(l: LedgerView, s: Seq<u8>, v: Seq<u8>, amount: u64)
    requires
        step_deposit(l, s, v, amount).1 is Ok,
    ensures
        step_deposit(l, s, v, amount).0.vault_balance == l.vault_balance + amount,
        step_deposit(l, s, v, amount).0.owner_balance == l.owner_balance - amount,
{
}

/// Every operation conserves the total of the owner's external balance, the
/// vault's balance and the record's rent deposit, on success and on failure.
pub proof fn lemma_total_funds_conserved(l: LedgerView, s: Seq<u8>, v: Seq<u8>, amount: u64, rent: u64)
    ensures
        step_initialize(l, s, v, rent).0.total_funds() == l.total_funds(),
        step_deposit(l, s, v, amount).0.total_funds() == l.total_funds(),
        step_withdraw(l, s, v, amount).0.total_funds() == l.total_funds(),
        step_close(l, s, v).0.total_funds() == l.total_funds(),
{
}

/// A Withdraw of more than the vault holds fails with `InsufficientFunds`
/// and leaves every balance unchanged.
pub proof fn lemma_withdraw_insufficient(l: LedgerView, s: Seq<u8>, v: Seq<u8>, amount: u64)
    requires
        l.record is Some,
        accounts_ok(l, l.record->0, s, v),
        amount > l.vault_balance,
    ensures
        step_withdraw(l, s, v, amount) == (l, Err::<(), VaultError>(VaultError::InsufficientFunds)),
{
}

/// A supplied account that does not match its re-derivation fails Deposit,
/// Withdraw and Close with `BumpMismatch`, whatever the amount, and leaves
/// the ledger unchanged.
pub proof fn lemma_mismatch_rejected(l: LedgerView, s: Seq<u8>, v: Seq<u8>, amount: u64)
    requires
        l.record is Some,
        !accounts_ok(l, l.record->0, s, v),
    ensures
        step_deposit(l, s, v, amount) == (l, Err::<(), VaultError>(VaultError::BumpMismatch)),
        step_withdraw(l, s, v, amount) == (l, Err::<(), VaultError>(VaultError::BumpMismatch)),
        step_close(l, s, v) == (l, Err::<(), VaultError>(VaultError::BumpMismatch)),
{
}

/// Initialize, too, rejects a supplied address that differs from the derived
/// one with `BumpMismatch`, whatever the rent amount.
pub proof fn lemma_initialize_mismatch_rejected(l: LedgerView, s: Seq<u8>, v: Seq<u8>, rent: u64)
    requires
        l.record is None,
        pda_find(state_tag(), l.owner, l.program_id) is Some,
        ({
            let state_found = pda_find(state_tag(), l.owner, l.program_id)->0;
            s != state_found.0 || (pda_find(vault_tag(), state_found.0, l.program_id) matches Some(
                vault_found,
            ) && v != vault_found.0)
        }),
    ensures
        step_initialize(l, s, v, rent) == (l, Err::<(), VaultError>(VaultError::BumpMismatch)),
{
}

/// The zero-amount policy: an authorized Deposit or Withdraw of amount zero
/// passes the same checks as any other and succeeds without moving anything.
pub proof fn lemma_zero_amount_noop(l: LedgerView, s: Seq<u8>, v: Seq<u8>)
    requires
        l.record is Some,
        accounts_ok(l, l.record->0, s, v),
    ensures
        step_deposit(l, s, v, 0) == (l, Ok::<(), VaultError>(())),
        step_withdraw(l, s, v, 0) == (l, Ok::<(), VaultError>(())),
{
}

} // verus!

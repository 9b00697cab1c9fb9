use crate::config::{initialize_protocol_check, initialize_protocol_record, InitializeProtocol};
use crate::deposit::{
    complete_fiat_deposit_check, complete_fiat_deposit_effect, initiate_fiat_deposit_check,
    initiate_fiat_deposit_record, CompleteFiatDeposit, InitiateFiatDeposit,
};
use crate::errors::StateFiError;
use crate::identity::{
    create_user_profile_check, create_user_profile_record, create_vault_check,
    create_vault_record, CreateUserProfile, CreateVault,
};
use crate::keyed::{
    by_key, distinct_keys, has_key, lemma_by_key_at, lemma_by_key_push, lemma_by_key_update,
};
use crate::pubkey::Pubkey;
use crate::state::{
    Account, DepositStatus, FiatDeposit, FiatWithdrawal, ProtocolConfig, TokenAccount,
    TokenWhitelist, UserProfile, Vault, WithdrawalStatus,
};
use crate::registry::{whitelist_token_check, whitelist_token_record, WhitelistToken};
use crate::withdrawal::{
    cancel_fiat_withdrawal_check, cancel_fiat_withdrawal_effect, complete_fiat_withdrawal_check,
    complete_fiat_withdrawal_effect, initiate_fiat_withdrawal_check,
    initiate_fiat_withdrawal_effect, CancelFiatWithdrawal, CompleteFiatWithdrawal,
    InitiateFiatWithdrawal,
};
use vstd::prelude::*;

verus! {

/// The key of a profile: its owner.
pub open spec fn profile_key() -> spec_fn(UserProfile) -> Pubkey {
    |profile: UserProfile| profile.owner
}

/// The key of a vault: its owner.
pub open spec fn vault_key() -> spec_fn(Account<Vault>) -> Pubkey {
    |vault: Account<Vault>| vault.data.owner
}

/// The key of an entry of the registry: its token type.
pub open spec fn token_key() -> spec_fn(TokenWhitelist) -> Pubkey {
    |entry: TokenWhitelist| entry.mint
}

/// The key of a deposit: its user and its reference.
pub open spec fn deposit_key() -> spec_fn(FiatDeposit) -> (Pubkey, Seq<char>) {
    |deposit: FiatDeposit| (deposit.user, deposit.reference_id@)
}

/// The key of a withdrawal: its user, its token type and its reference.
pub open spec fn withdrawal_key() -> spec_fn(FiatWithdrawal) -> (Pubkey, Pubkey, Seq<char>) {
    |withdrawal: FiatWithdrawal| (withdrawal.user, withdrawal.mint, withdrawal.reference_id@)
}

/// `after` is `before` or what a completion makes of it when it is pending:
/// only status and time of the last change differ.
pub open spec fn deposit_moved_on(before: FiatDeposit, after: FiatDeposit) -> bool {
    ||| after == before
    ||| before.status == DepositStatus::Pending && after == (FiatDeposit {
        status: DepositStatus::Completed,
        updated_at: after.updated_at,
        ..before
    })
}

/// `after` is `before` or what a completion or a cancellation makes of it
/// when it is pending: only status and time of the last change differ.
pub open spec fn withdrawal_moved_on(before: FiatWithdrawal, after: FiatWithdrawal) -> bool {
    ||| after == before
    ||| before.status == WithdrawalStatus::Pending && after.status != WithdrawalStatus::Pending
        && after == (FiatWithdrawal {
        status: after.status,
        updated_at: after.updated_at,
        ..before
    })
}

/// What a ledger holds: each record under the fields that identify it.
#[verifier::ext_equal]
pub struct LedgerView {
    pub config: Option<ProtocolConfig>,
    pub profiles: Map<Pubkey, UserProfile>,
    pub vaults: Map<Pubkey, Account<Vault>>,
    pub tokens: Map<Pubkey, TokenWhitelist>,
    pub deposits: Map<(Pubkey, Seq<char>), FiatDeposit>,
    pub withdrawals: Map<(Pubkey, Pubkey, Seq<char>), FiatWithdrawal>,
}

impl LedgerView {
    /// Every record is valid and is kept under its own identifying fields;
    /// a vault and a deposit belong to a user with a profile, a withdrawal
    /// to a user with a vault.
    pub open spec fn wf(self) -> bool {
        &&& self.config matches Some(config) ==> config.wf()
        &&& forall|owner: Pubkey| #[trigger]
            self.profiles.contains_key(owner) ==> self.profiles[owner].owner == owner
                && self.profiles[owner].wf()
        &&& forall|owner: Pubkey| #[trigger]
            self.vaults.contains_key(owner) ==> self.vaults[owner].data.owner == owner
                && self.profiles.contains_key(owner)
        &&& forall|mint: Pubkey| #[trigger]
            self.tokens.contains_key(mint) ==> self.tokens[mint].mint == mint
                && self.tokens[mint].wf()
        &&& forall|k: (Pubkey, Seq<char>)| #[trigger]
            self.deposits.contains_key(k) ==> deposit_key()(self.deposits[k]) == k
                && self.deposits[k].wf() && self.profiles.contains_key(k.0)
        &&& forall|k: (Pubkey, Pubkey, Seq<char>)| #[trigger]
            self.withdrawals.contains_key(k) ==> withdrawal_key()(self.withdrawals[k]) == k
                && self.withdrawals[k].wf() && self.vaults.contains_key(k.0)
    }

    /// What is recorded stays. `later` holds every record of this ledger:
    /// configuration, profiles, vaults and entries of the registry as they
    /// are, deposits and withdrawals as they are or moved on from pending.
    pub open spec fn grows_to(self, later: LedgerView) -> bool {
        &&& self.config is Some ==> later.config == self.config
        &&& forall|owner: Pubkey| #[trigger]
            self.profiles.contains_key(owner) ==> later.profiles.contains_key(owner)
                && later.profiles[owner] == self.profiles[owner]
        &&& forall|owner: Pubkey| #[trigger]
            self.vaults.contains_key(owner) ==> later.vaults.contains_key(owner)
                && later.vaults[owner] == self.vaults[owner]
        &&& forall|mint: Pubkey| #[trigger]
            self.tokens.contains_key(mint) ==> later.tokens.contains_key(mint)
                && later.tokens[mint] == self.tokens[mint]
        &&& forall|k: (Pubkey, Seq<char>)| #[trigger]
            self.deposits.contains_key(k) ==> later.deposits.contains_key(k) && deposit_moved_on(
                self.deposits[k],
                later.deposits[k],
            )
        &&& forall|k: (Pubkey, Pubkey, Seq<char>)| #[trigger]
            self.withdrawals.contains_key(k) ==> later.withdrawals.contains_key(k)
                && withdrawal_moved_on(self.withdrawals[k], later.withdrawals[k])
    }

    /// The ledger with `profile` in its place.
    pub open spec fn with_profile(self, profile: UserProfile) -> LedgerView {
        LedgerView { profiles: self.profiles.insert(profile.owner, profile), ..self }
    }

    /// The ledger with `vault` in its place.
    pub open spec fn with_vault(self, vault: Account<Vault>) -> LedgerView {
        LedgerView { vaults: self.vaults.insert(vault.data.owner, vault), ..self }
    }

    /// The ledger with `entry` in its place.
    pub open spec fn with_token(self, entry: TokenWhitelist) -> LedgerView {
        LedgerView { tokens: self.tokens.insert(entry.mint, entry), ..self }
    }

    /// The ledger with `deposit` in its place.
    pub open spec fn with_deposit(self, deposit: FiatDeposit) -> LedgerView {
        LedgerView {
            deposits: self.deposits.insert((deposit.user, deposit.reference_id@), deposit),
            ..self
        }
    }

    /// The ledger with `withdrawal` in its place.
    pub open spec fn with_withdrawal(self, withdrawal: FiatWithdrawal) -> LedgerView {
        LedgerView {
            withdrawals: self.withdrawals.insert(
                (withdrawal.user, withdrawal.mint, withdrawal.reference_id@),
                withdrawal,
            ),
            ..self
        }
    }

    /// What a bootstrap by `admin` works on.
    pub open spec fn bootstrap(self, admin: Pubkey, bump: u8) -> InitializeProtocol {
        InitializeProtocol { admin, protocol_config: self.config, bump }
    }

    /// What the creation of the profile of `user` works on.
    pub open spec fn profile_creation(self, user: Pubkey, bump: u8) -> CreateUserProfile {
        CreateUserProfile { user, user_profile: self.profiles.get(user), bump }
    }

    /// What the creation of the vault of `user` works on, if `user` has a
    /// profile.
    pub open spec fn vault_creation(self, user: Pubkey, bump: u8) -> Option<CreateVault> {
        if self.profiles.contains_key(user) {
            Some(
                CreateVault {
                    user,
                    user_profile: self.profiles[user],
                    vault: match self.vaults.get(user) {
                        Some(vault) => Some(vault.data),
                        None => None,
                    },
                    bump,
                },
            )
        } else {
            None
        }
    }

    /// What the whitelisting of `mint` by `admin` works on, if the protocol
    /// is initialized.
    pub open spec fn token_listing(self, admin: Pubkey, mint: Pubkey, bump: u8) -> Option<
        WhitelistToken,
    > {
        match self.config {
            Some(protocol_config) => Some(
                WhitelistToken {
                    admin,
                    protocol_config,
                    mint,
                    token_whitelist: self.tokens.get(mint),
                    bump,
                },
            ),
            None => None,
        }
    }

    /// What the opening of a deposit of `user` with this reference works on,
    /// if `user` has a profile.
    pub open spec fn deposit_opening(
        self,
        user: Pubkey,
        mint: Pubkey,
        bump: u8,
        reference_id: Seq<char>,
    ) -> Option<InitiateFiatDeposit> {
        if self.profiles.contains_key(user) {
            Some(
                InitiateFiatDeposit {
                    user_profile: self.profiles[user],
                    mint,
                    fiat_deposit: self.deposits.get((user, reference_id)),
                    bump,
                },
            )
        } else {
            None
        }
    }

    /// What the completion by `admin` of the deposit of `user` with this
    /// reference works on, if the protocol is initialized, the deposit
    /// exists and `user` has a vault.
    pub open spec fn deposit_completion(
        self,
        admin: Pubkey,
        user: Pubkey,
        reference_id: Seq<char>,
        vault_token_account: TokenAccount,
        treasury_token_account: TokenAccount,
        admin_token_account: TokenAccount,
    ) -> Option<CompleteFiatDeposit> {
        if self.config is Some && self.deposits.contains_key((user, reference_id))
            && self.vaults.contains_key(user) {
            Some(
                CompleteFiatDeposit {
                    admin,
                    protocol_config: self.config.unwrap(),
                    fiat_deposit: self.deposits[(user, reference_id)],
                    vault: self.vaults[user],
                    vault_token_account,
                    treasury_token_account,
                    admin_token_account,
                },
            )
        } else {
            None
        }
    }

    /// What the opening of a withdrawal of `user` in the token type `mint`
    /// with this reference works on, if `user` has a profile and a vault.
    pub open spec fn withdrawal_opening(
        self,
        user: Pubkey,
        mint: Pubkey,
        bump: u8,
        reference_id: Seq<char>,
        vault_token_account: TokenAccount,
        treasury_token_account: TokenAccount,
    ) -> Option<InitiateFiatWithdrawal> {
        if self.profiles.contains_key(user) && self.vaults.contains_key(user) {
            Some(
                InitiateFiatWithdrawal {
                    user,
                    user_profile: self.profiles[user],
                    vault: self.vaults[user],
                    token_whitelist: self.tokens.get(mint),
                    mint,
                    vault_token_account,
                    treasury_token_account,
                    fiat_withdrawal: self.withdrawals.get((user, mint, reference_id)),
                    bump,
                },
            )
        } else {
            None
        }
    }

    /// What the completion by `admin` of the withdrawal of `user` in the
    /// token type `mint` with this reference works on, if the protocol is
    /// initialized and the withdrawal exists.
    pub open spec fn withdrawal_completion(
        self,
        admin: Pubkey,
        user: Pubkey,
        mint: Pubkey,
        reference_id: Seq<char>,
    ) -> Option<CompleteFiatWithdrawal> {
        if self.config is Some && self.withdrawals.contains_key((user, mint, reference_id)) {
            Some(
                CompleteFiatWithdrawal {
                    admin,
                    protocol_config: self.config.unwrap(),
                    fiat_withdrawal: self.withdrawals[(user, mint, reference_id)],
                },
            )
        } else {
            None
        }
    }

    /// What the cancellation by `admin` of the withdrawal of `user` in the
    /// token type `mint` with this reference works on, if the protocol is
    /// initialized, the withdrawal exists and `user` has a vault.
    pub open spec fn withdrawal_cancellation(
        self,
        admin: Pubkey,
        user: Pubkey,
        mint: Pubkey,
        reference_id: Seq<char>,
        vault_token_account: TokenAccount,
        treasury_token_account: TokenAccount,
    ) -> Option<CancelFiatWithdrawal> {
        if self.config is Some && self.withdrawals.contains_key((user, mint, reference_id))
            && self.vaults.contains_key(user) {
            Some(
                CancelFiatWithdrawal {
                    admin,
                    protocol_config: self.config.unwrap(),
                    fiat_withdrawal: self.withdrawals[(user, mint, reference_id)],
                    vault: self.vaults[user],
                    vault_token_account,
                    treasury_token_account,
                },
            )
        } else {
            None
        }
    }
}

/// The records of the protocol. Each record has its place by its kind and
/// the fields that identify it: a profile and a vault by their owner, an
/// entry of the registry by its token type, a deposit by user and reference,
/// a withdrawal by user, token type and reference. A place holds at most one
/// record, and a record never leaves.
pub struct Ledger {
    config: Option<ProtocolConfig>,
    profiles: Vec<UserProfile>,
    vaults: Vec<Account<Vault>>,
    tokens: Vec<TokenWhitelist>,
    deposits: Vec<FiatDeposit>,
    withdrawals: Vec<FiatWithdrawal>,
}

impl View for Ledger {
    type V = LedgerView;

    closed spec fn view(&self) -> LedgerView {
        LedgerView {
            config: self.config,
            profiles: by_key(self.profiles@, profile_key()),
            vaults: by_key(self.vaults@, vault_key()),
            tokens: by_key(self.tokens@, token_key()),
            deposits: by_key(self.deposits@, deposit_key()),
            withdrawals: by_key(self.withdrawals@, withdrawal_key()),
        }
    }
}

impl Ledger {
    /// No place holds two records, and what the ledger holds is valid.
    pub closed spec fn wf(&self) -> bool {
        &&& distinct_keys(self.profiles@, profile_key())
        &&& distinct_keys(self.vaults@, vault_key())
        &&& distinct_keys(self.tokens@, token_key())
        &&& distinct_keys(self.deposits@, deposit_key())
        &&& distinct_keys(self.withdrawals@, withdrawal_key())
        &&& self@.wf()
    }

    /// What a valid ledger holds is valid.
    pub proof fn lemma_view_wf(&self)
        requires
            self.wf(),
        ensures
            self@.wf(),
    {
    }

    /// A ledger without any record.
    pub fn new() -> (ledger: Ledger)
        ensures
            ledger.wf(),
            ledger@.config is None,
            ledger@.profiles == Map::<Pubkey, UserProfile>::empty(),
            ledger@.vaults == Map::<Pubkey, Account<Vault>>::empty(),
            ledger@.tokens == Map::<Pubkey, TokenWhitelist>::empty(),
            ledger@.deposits == Map::<(Pubkey, Seq<char>), FiatDeposit>::empty(),
            ledger@.withdrawals == Map::<(Pubkey, Pubkey, Seq<char>), FiatWithdrawal>::empty(),
    {
        let ledger = Ledger {
            config: None,
            profiles: Vec::new(),
            vaults: Vec::new(),
            tokens: Vec::new(),
            deposits: Vec::new(),
            withdrawals: Vec::new(),
        };
        assert(ledger@.profiles =~= Map::<Pubkey, UserProfile>::empty());
        assert(ledger@.vaults =~= Map::<Pubkey, Account<Vault>>::empty());
        assert(ledger@.tokens =~= Map::<Pubkey, TokenWhitelist>::empty());
        assert(ledger@.deposits =~= Map::<(Pubkey, Seq<char>), FiatDeposit>::empty());
        assert(ledger@.withdrawals =~= Map::<(Pubkey, Pubkey, Seq<char>), FiatWithdrawal>::empty());
        ledger
    }

    fn find_profile(&self, owner: &Pubkey) -> (found: Option<usize>)
        ensures
            match found {
                Some(i) => i < self.profiles.len() && self.profiles[i as int].owner == *owner,
                None => !has_key(self.profiles@, profile_key(), *owner),
            },
    {
        let mut i: usize = 0;
        while i < self.profiles.len()
            invariant
                i <= self.profiles.len(),
                forall|j: int| 0 <= j < i ==> #[trigger] profile_key()(self.profiles@[j]) != *owner,
            decreases self.profiles.len() - i,
        {
            if self.profiles[i].owner == *owner {
                return Some(i);
            }
            i += 1;
        }
        None
    }

    fn find_vault(&self, owner: &Pubkey) -> (found: Option<usize>)
        ensures
            match found {
                Some(i) => i < self.vaults.len() && self.vaults[i as int].data.owner == *owner,
                None => !has_key(self.vaults@, vault_key(), *owner),
            },
    {
        let mut i: usize = 0;
        while i < self.vaults.len()
            invariant
                i <= self.vaults.len(),
                forall|j: int| 0 <= j < i ==> #[trigger] vault_key()(self.vaults@[j]) != *owner,
            decreases self.vaults.len() - i,
        {
            if self.vaults[i].data.owner == *owner {
                return Some(i);
            }
            i += 1;
        }
        None
    }

    fn find_token(&self, mint: &Pubkey) -> (found: Option<usize>)
        ensures
            match found {
                Some(i) => i < self.tokens.len() && self.tokens[i as int].mint == *mint,
                None => !has_key(self.tokens@, token_key(), *mint),
            },
    {
        let mut i: usize = 0;
        while i < self.tokens.len()
            invariant
                i <= self.tokens.len(),
                forall|j: int| 0 <= j < i ==> #[trigger] token_key()(self.tokens@[j]) != *mint,
            decreases self.tokens.len() - i,
        {
            if self.tokens[i].mint == *mint {
                return Some(i);
            }
            i += 1;
        }
        None
    }

    fn find_deposit(&self, user: &Pubkey, reference_id: &String) -> (found: Option<usize>)
        ensures
            match found {
                Some(i) => i < self.deposits.len() && deposit_key()(self.deposits[i as int]) == (
                    *user,
                    reference_id@,
                ),
                None => !has_key(self.deposits@, deposit_key(), (*user, reference_id@)),
            },
    {
        let mut i: usize = 0;
        while i < self.deposits.len()
            invariant
                i <= self.deposits.len(),
                forall|j: int|
                    0 <= j < i ==> #[trigger] deposit_key()(self.deposits@[j]) != (
                        *user,
                        reference_id@,
                    ),
            decreases self.deposits.len() - i,
        {
            if self.deposits[i].user == *user && self.deposits[i].reference_id == *reference_id {
                return Some(i);
            }
            i += 1;
        }
        None
    }

    fn find_withdrawal(&self, user: &Pubkey, mint: &Pubkey, reference_id: &String) -> (found:
        Option<usize>)
        ensures
            match found {
                Some(i) => i < self.withdrawals.len() && withdrawal_key()(
                    self.withdrawals[i as int],
                ) == (*user, *mint, reference_id@),
                None => !has_key(
                    self.withdrawals@,
                    withdrawal_key(),
                    (*user, *mint, reference_id@),
                ),
            },
    {
        let mut i: usize = 0;
        while i < self.withdrawals.len()
            invariant
                i <= self.withdrawals.len(),
                forall|j: int|
                    0 <= j < i ==> #[trigger] withdrawal_key()(self.withdrawals@[j]) != (
                        *user,
                        *mint,
                        reference_id@,
                    ),
            decreases self.withdrawals.len() - i,
        {
            if self.withdrawals[i].user == *user && self.withdrawals[i].mint == *mint
                && self.withdrawals[i].reference_id == *reference_id {
                return Some(i);
            }
            i += 1;
        }
        None
    }

    /// The configuration, once the protocol is initialized.
    pub fn config(&self) -> (config: Option<ProtocolConfig>)
        ensures
            config == self@.config,
    {
        self.config
    }

    /// The profile of `owner`, if there is one.
    pub fn profile(&self, owner: &Pubkey) -> (profile: Option<&UserProfile>)
        requires
            self.wf(),
        ensures
            match profile {
                Some(found) => self@.profiles.get(*owner) == Some(*found),
                None => !self@.profiles.contains_key(*owner),
            },
    {
        match self.find_profile(owner) {
            Some(i) => {
                proof {
                    lemma_by_key_at(self.profiles@, profile_key(), i as int);
                }
                Some(&self.profiles[i])
            },
            None => None,
        }
    }

    /// The vault of `owner`, if there is one.
    pub fn vault(&self, owner: &Pubkey) -> (vault: Option<&Account<Vault>>)
        requires
            self.wf(),
        ensures
            match vault {
                Some(found) => self@.vaults.get(*owner) == Some(*found),
                None => !self@.vaults.contains_key(*owner),
            },
    {
        match self.find_vault(owner) {
            Some(i) => {
                proof {
                    lemma_by_key_at(self.vaults@, vault_key(), i as int);
                }
                Some(&self.vaults[i])
            },
            None => None,
        }
    }

    /// The entry of the token type `mint` in the registry, if there is one.
    pub fn token(&self, mint: &Pubkey) -> (entry: Option<&TokenWhitelist>)
        requires
            self.wf(),
        ensures
            match entry {
                Some(found) => self@.tokens.get(*mint) == Some(*found),
                None => !self@.tokens.contains_key(*mint),
            },
    {
        match self.find_token(mint) {
            Some(i) => {
                proof {
                    lemma_by_key_at(self.tokens@, token_key(), i as int);
                }
                Some(&self.tokens[i])
            },
            None => None,
        }
    }

    /// The deposit of `user` with the reference `reference_id`, if there is one.
    pub fn deposit(&self, user: &Pubkey, reference_id: &String) -> (deposit: Option<&FiatDeposit>)
        requires
            self.wf(),
        ensures
            match deposit {
                Some(found) => self@.deposits.get((*user, reference_id@)) == Some(*found),
                None => !self@.deposits.contains_key((*user, reference_id@)),
            },
    {
        match self.find_deposit(user, reference_id) {
            Some(i) => {
                proof {
                    lemma_by_key_at(self.deposits@, deposit_key(), i as int);
                }
                Some(&self.deposits[i])
            },
            None => None,
        }
    }

    /// The withdrawal of `user` in the token type `mint` with the reference
    /// `reference_id`, if there is one.
    pub fn withdrawal(&self, user: &Pubkey, mint: &Pubkey, reference_id: &String) -> (withdrawal:
        Option<&FiatWithdrawal>)
        requires
            self.wf(),
        ensures
            match withdrawal {
                Some(found) => self@.withdrawals.get((*user, *mint, reference_id@)) == Some(
                    *found,
                ),
                None => !self@.withdrawals.contains_key((*user, *mint, reference_id@)),
            },
    {
        match self.find_withdrawal(user, mint, reference_id) {
            Some(i) => {
                proof {
                    lemma_by_key_at(self.withdrawals@, withdrawal_key(), i as int);
                }
                Some(&self.withdrawals[i])
            },
            None => None,
        }
    }

    /// Creates the configuration record, with `admin` as administrator and
    /// the given fee on deposits.
    pub fn initialize_protocol(
        &mut self,
        admin: Pubkey,
        bump: u8,
        admin_fee_basis_points: u16,
    ) -> (result: Result<(), StateFiError>)
        requires
            old(self).wf(),
        ensures
            final(self).wf(),
            old(self)@.grows_to(final(self)@),
            ({
                let ctx = old(self)@.bootstrap(admin, bump);
                match initialize_protocol_check(ctx, admin_fee_basis_points) {
                    Some(e) => result == Err::<(), StateFiError>(e) && final(self)@ == old(self)@,
                    None => result == Ok::<(), StateFiError>(()) && final(self)@ == (LedgerView {
                        config: Some(initialize_protocol_record(ctx, admin_fee_basis_points)),
                        ..old(self)@
                    }),
                }
            }),
    {
        let mut ctx = InitializeProtocol { admin, protocol_config: self.config, bump };
        let result = crate::config::initialize_protocol(&mut ctx, admin_fee_basis_points);
        if result.is_ok() {
            self.config = ctx.protocol_config;
        }
        result
    }

    /// Creates the profile of `user`.
    pub fn create_user_profile(
        &mut self,
        user: Pubkey,
        bump: u8,
        name: String,
        email: String,
        now: i64,
    ) -> (result: Result<(), StateFiError>)
        requires
            old(self).wf(),
        ensures
            final(self).wf(),
            old(self)@.grows_to(final(self)@),
            ({
                let ctx = old(self)@.profile_creation(user, bump);
                match create_user_profile_check(ctx, name, email) {
                    Some(e) => result == Err::<(), StateFiError>(e) && final(self)@ == old(self)@,
                    None => {
                        &&& result == Ok::<(), StateFiError>(())
                        &&& final(self)@ == old(self)@.with_profile(
                            create_user_profile_record(ctx, name, email, now),
                        )
                    },
                }
            }),
    {
        let user_profile = match self.find_profile(&user) {
            Some(i) => {
                proof {
                    lemma_by_key_at(self.profiles@, profile_key(), i as int);
                }
                Some(self.profiles[i].clone())
            },
            None => None,
        };
        let mut ctx = CreateUserProfile { user, user_profile, bump };
        let result = crate::identity::create_user_profile(&mut ctx, name, email, now);
        if result.is_ok() {
            let record = ctx.user_profile.unwrap();
            proof {
                lemma_by_key_push(self.profiles@, profile_key(), record);
            }
            self.profiles.push(record);
        }
        result
    }

    /// Creates the vault of `user`, who must have a profile. The vault is
    /// known to token accounts by `address`.
    pub fn create_vault(&mut self, user: Pubkey, address: Pubkey, bump: u8, now: i64) -> (result:
        Result<(), StateFiError>)
        requires
            old(self).wf(),
        ensures
            final(self).wf(),
            old(self)@.grows_to(final(self)@),
            match old(self)@.vault_creation(user, bump) {
                None => result == Err::<(), StateFiError>(StateFiError::AccountNotInitialized)
                    && final(self)@ == old(self)@,
                Some(ctx) => match create_vault_check(ctx) {
                    Some(e) => result == Err::<(), StateFiError>(e) && final(self)@ == old(self)@,
                    None => {
                        &&& result == Ok::<(), StateFiError>(())
                        &&& final(self)@ == old(self)@.with_vault(
                            Account { key: address, data: create_vault_record(ctx, now) },
                        )
                    },
                },
            },
    {
        let user_profile = match self.find_profile(&user) {
            Some(i) => {
                proof {
                    lemma_by_key_at(self.profiles@, profile_key(), i as int);
                }
                self.profiles[i].clone()
            },
            None => {
                return Err(StateFiError::AccountNotInitialized);
            },
        };
        let vault = match self.find_vault(&user) {
            Some(i) => {
                proof {
                    lemma_by_key_at(self.vaults@, vault_key(), i as int);
                }
                Some(self.vaults[i].data)
            },
            None => None,
        };
        let mut ctx = CreateVault { user, user_profile, vault, bump };
        let result = crate::identity::create_vault(&mut ctx, now);
        if result.is_ok() {
            let record = Account { key: address, data: ctx.vault.unwrap() };
            proof {
                lemma_by_key_push(self.vaults@, vault_key(), record);
            }
            self.vaults.push(record);
        }
        result
    }

    /// Enters the token type `mint` in the registry, switched on. Only the
    /// administrator may do so.
    pub fn whitelist_token(
        &mut self,
        admin: Pubkey,
        mint: Pubkey,
        bump: u8,
        symbol: String,
        name: String,
        is_stable: bool,
        now: i64,
    ) -> (result: Result<(), StateFiError>)
        requires
            old(self).wf(),
        ensures
            final(self).wf(),
            old(self)@.grows_to(final(self)@),
            match old(self)@.token_listing(admin, mint, bump) {
                None => result == Err::<(), StateFiError>(StateFiError::AccountNotInitialized)
                    && final(self)@ == old(self)@,
                Some(ctx) => match whitelist_token_check(ctx, symbol, name) {
                    Some(e) => result == Err::<(), StateFiError>(e) && final(self)@ == old(self)@,
                    None => {
                        &&& result == Ok::<(), StateFiError>(())
                        &&& final(self)@ == old(self)@.with_token(
                            whitelist_token_record(ctx, symbol, name, is_stable, now),
                        )
                    },
                },
            },
    {
        let protocol_config = match self.config {
            Some(config) => config,
            None => {
                return Err(StateFiError::AccountNotInitialized);
            },
        };
        let token_whitelist = match self.find_token(&mint) {
            Some(i) => {
                proof {
                    lemma_by_key_at(self.tokens@, token_key(), i as int);
                }
                Some(self.tokens[i].clone())
            },
            None => None,
        };
        let mut ctx = WhitelistToken { admin, protocol_config, mint, token_whitelist, bump };
        let result = crate::registry::whitelist_token(&mut ctx, symbol, name, is_stable, now);
        if result.is_ok() {
            let record = ctx.token_whitelist.unwrap();
            proof {
                lemma_by_key_push(self.tokens@, token_key(), record);
            }
            self.tokens.push(record);
        }
        result
    }

    /// Opens a deposit of `user`, who must have a profile. No tokens move.
    pub fn initiate_fiat_deposit(
        &mut self,
        user: Pubkey,
        mint: Pubkey,
        bump: u8,
        amount: u64,
        reference_id: String,
        now: i64,
    ) -> (result: Result<(), StateFiError>)
        requires
            old(self).wf(),
        ensures
            final(self).wf(),
            old(self)@.grows_to(final(self)@),
            match old(self)@.deposit_opening(user, mint, bump, reference_id@) {
                None => result == Err::<(), StateFiError>(StateFiError::AccountNotInitialized)
                    && final(self)@ == old(self)@,
                Some(ctx) => match initiate_fiat_deposit_check(ctx, amount, reference_id) {
                    Some(e) => result == Err::<(), StateFiError>(e) && final(self)@ == old(self)@,
                    None => {
                        &&& result == Ok::<(), StateFiError>(())
                        &&& final(self)@ == old(self)@.with_deposit(
                            initiate_fiat_deposit_record(ctx, amount, reference_id, now),
                        )
                    },
                },
            },
    {
        let user_profile = match self.find_profile(&user) {
            Some(i) => {
                proof {
                    lemma_by_key_at(self.profiles@, profile_key(), i as int);
                }
                self.profiles[i].clone()
            },
            None => {
                return Err(StateFiError::AccountNotInitialized);
            },
        };
        let fiat_deposit = match self.find_deposit(&user, &reference_id) {
            Some(i) => {
                proof {
                    lemma_by_key_at(self.deposits@, deposit_key(), i as int);
                }
                Some(self.deposits[i].clone())
            },
            None => None,
        };
        let mut ctx = InitiateFiatDeposit { user_profile, mint, fiat_deposit, bump };
        let result = crate::deposit::initiate_fiat_deposit(&mut ctx, amount, reference_id, now);
        if result.is_ok() {
            let record = ctx.fiat_deposit.unwrap();
            proof {
                lemma_by_key_push(self.deposits@, deposit_key(), record);
            }
            self.deposits.push(record);
        }
        result
    }

    /// Completes the pending deposit of `user` with the reference
    /// `reference_id`: pays its amount out of the treasury, the fee to the
    /// administrator and the rest to the user's vault. Only the administrator
    /// may do so.
    pub fn complete_fiat_deposit(
        &mut self,
        admin: Pubkey,
        user: Pubkey,
        reference_id: &String,
        vault_token_account: &mut TokenAccount,
        treasury_token_account: &mut TokenAccount,
        admin_token_account: &mut TokenAccount,
        now: i64,
    ) -> (result: Result<(), StateFiError>)
        requires
            old(self).wf(),
        ensures
            final(self).wf(),
            old(self)@.grows_to(final(self)@),
            match old(self)@.deposit_completion(
                admin,
                user,
                reference_id@,
                *old(vault_token_account),
                *old(treasury_token_account),
                *old(admin_token_account),
            ) {
                None => {
                    &&& result == Err::<(), StateFiError>(StateFiError::AccountNotInitialized)
                    &&& final(self)@ == old(self)@
                    &&& *final(vault_token_account) == *old(vault_token_account)
                    &&& *final(treasury_token_account) == *old(treasury_token_account)
                    &&& *final(admin_token_account) == *old(admin_token_account)
                },
                Some(ctx) => match complete_fiat_deposit_check(ctx) {
                    Some(e) => {
                        &&& result == Err::<(), StateFiError>(e)
                        &&& final(self)@ == old(self)@
                        &&& *final(vault_token_account) == *old(vault_token_account)
                        &&& *final(treasury_token_account) == *old(treasury_token_account)
                        &&& *final(admin_token_account) == *old(admin_token_account)
                    },
                    None => {
                        let done = complete_fiat_deposit_effect(ctx, now);
                        &&& result == Ok::<(), StateFiError>(())
                        &&& final(self)@ == old(self)@.with_deposit(done.fiat_deposit)
                        &&& *final(vault_token_account) == done.vault_token_account
                        &&& *final(treasury_token_account) == done.treasury_token_account
                        &&& *final(admin_token_account) == done.admin_token_account
                    },
                },
            },
    {
        let protocol_config = match self.config {
            Some(config) => config,
            None => {
                return Err(StateFiError::AccountNotInitialized);
            },
        };
        let at = match self.find_deposit(&user, reference_id) {
            Some(i) => i,
            None => {
                return Err(StateFiError::AccountNotInitialized);
            },
        };
        let vault = match self.find_vault(&user) {
            Some(i) => {
                proof {
                    lemma_by_key_at(self.vaults@, vault_key(), i as int);
                }
                self.vaults[i]
            },
            None => {
                proof {
                    lemma_by_key_at(self.deposits@, deposit_key(), at as int);
                }
                return Err(StateFiError::AccountNotInitialized);
            },
        };
        proof {
            lemma_by_key_at(self.deposits@, deposit_key(), at as int);
        }
        let mut ctx = CompleteFiatDeposit {
            admin,
            protocol_config,
            fiat_deposit: self.deposits[at].clone(),
            vault,
            vault_token_account: *vault_token_account,
            treasury_token_account: *treasury_token_account,
            admin_token_account: *admin_token_account,
        };
        let result = crate::deposit::complete_fiat_deposit(&mut ctx, now);
        if result.is_ok() {
            proof {
                lemma_by_key_update(self.deposits@, deposit_key(), at as int, ctx.fiat_deposit);
            }
            self.deposits.set(at, ctx.fiat_deposit);
            *vault_token_account = ctx.vault_token_account;
            *treasury_token_account = ctx.treasury_token_account;
            *admin_token_account = ctx.admin_token_account;
        }
        result
    }

    /// Opens a withdrawal of `user`, who must have a profile and a vault:
    /// moves the amount from the vault's token account into the treasury,
    /// where it waits for the fiat payout.
    pub fn initiate_fiat_withdrawal(
        &mut self,
        user: Pubkey,
        mint: Pubkey,
        bump: u8,
        vault_token_account: &mut TokenAccount,
        treasury_token_account: &mut TokenAccount,
        amount: u64,
        reference_id: String,
        now: i64,
    ) -> (result: Result<(), StateFiError>)
        requires
            old(self).wf(),
        ensures
            final(self).wf(),
            old(self)@.grows_to(final(self)@),
            match old(self)@.withdrawal_opening(
                user,
                mint,
                bump,
                reference_id@,
                *old(vault_token_account),
                *old(treasury_token_account),
            ) {
                None => {
                    &&& result == Err::<(), StateFiError>(StateFiError::AccountNotInitialized)
                    &&& final(self)@ == old(self)@
                    &&& *final(vault_token_account) == *old(vault_token_account)
                    &&& *final(treasury_token_account) == *old(treasury_token_account)
                },
                Some(ctx) => match initiate_fiat_withdrawal_check(ctx, amount, reference_id) {
                    Some(e) => {
                        &&& result == Err::<(), StateFiError>(e)
                        &&& final(self)@ == old(self)@
                        &&& *final(vault_token_account) == *old(vault_token_account)
                        &&& *final(treasury_token_account) == *old(treasury_token_account)
                    },
                    None => {
                        let done = initiate_fiat_withdrawal_effect(ctx, amount, reference_id, now);
                        &&& result == Ok::<(), StateFiError>(())
                        &&& final(self)@ == old(self)@.with_withdrawal(
                            done.fiat_withdrawal.unwrap(),
                        )
                        &&& *final(vault_token_account) == done.vault_token_account
                        &&& *final(treasury_token_account) == done.treasury_token_account
                    },
                },
            },
    {
        let user_profile = match self.find_profile(&user) {
            Some(i) => {
                proof {
                    lemma_by_key_at(self.profiles@, profile_key(), i as int);
                }
                self.profiles[i].clone()
            },
            None => {
                return Err(StateFiError::AccountNotInitialized);
            },
        };
        let vault = match self.find_vault(&user) {
            Some(i) => {
                proof {
                    lemma_by_key_at(self.vaults@, vault_key(), i as int);
                }
                self.vaults[i]
            },
            None => {
                return Err(StateFiError::AccountNotInitialized);
            },
        };
        let token_whitelist = match self.find_token(&mint) {
            Some(i) => {
                proof {
                    lemma_by_key_at(self.tokens@, token_key(), i as int);
                }
                Some(self.tokens[i].clone())
            },
            None => None,
        };
        let fiat_withdrawal = match self.find_withdrawal(&user, &mint, &reference_id) {
            Some(i) => {
                proof {
                    lemma_by_key_at(self.withdrawals@, withdrawal_key(), i as int);
                }
                Some(self.withdrawals[i].clone())
            },
            None => None,
        };
        let mut ctx = InitiateFiatWithdrawal {
            user,
            user_profile,
            vault,
            token_whitelist,
            mint,
            vault_token_account: *vault_token_account,
            treasury_token_account: *treasury_token_account,
            fiat_withdrawal,
            bump,
        };
        let result = crate::withdrawal::initiate_fiat_withdrawal(
            &mut ctx,
            amount,
            reference_id,
            now,
        );
        if result.is_ok() {
            let record = ctx.fiat_withdrawal.unwrap();
            proof {
                lemma_by_key_push(self.withdrawals@, withdrawal_key(), record);
            }
            self.withdrawals.push(record);
            *vault_token_account = ctx.vault_token_account;
            *treasury_token_account = ctx.treasury_token_account;
        }
        result
    }

    /// Marks the pending withdrawal of `user` in the token type `mint` with
    /// the reference `reference_id` as completed. The escrowed tokens stay
    /// in the treasury. Only the administrator may do so.
    pub fn complete_fiat_withdrawal(
        &mut self,
        admin: Pubkey,
        user: Pubkey,
        mint: Pubkey,
        reference_id: &String,
        now: i64,
    ) -> (result: Result<(), StateFiError>)
        requires
            old(self).wf(),
        ensures
            final(self).wf(),
            old(self)@.grows_to(final(self)@),
            match old(self)@.withdrawal_completion(admin, user, mint, reference_id@) {
                None => result == Err::<(), StateFiError>(StateFiError::AccountNotInitialized)
                    && final(self)@ == old(self)@,
                Some(ctx) => match complete_fiat_withdrawal_check(ctx) {
                    Some(e) => result == Err::<(), StateFiError>(e) && final(self)@ == old(self)@,
                    None => {
                        &&& result == Ok::<(), StateFiError>(())
                        &&& final(self)@ == old(self)@.with_withdrawal(
                            complete_fiat_withdrawal_effect(ctx, now).fiat_withdrawal,
                        )
                    },
                },
            },
    {
        let protocol_config = match self.config {
            Some(config) => config,
            None => {
                return Err(StateFiError::AccountNotInitialized);
            },
        };
        let at = match self.find_withdrawal(&user, &mint, reference_id) {
            Some(i) => i,
            None => {
                return Err(StateFiError::AccountNotInitialized);
            },
        };
        proof {
            lemma_by_key_at(self.withdrawals@, withdrawal_key(), at as int);
        }
        let mut ctx = CompleteFiatWithdrawal {
            admin,
            protocol_config,
            fiat_withdrawal: self.withdrawals[at].clone(),
        };
        let result = crate::withdrawal::complete_fiat_withdrawal(&mut ctx, now);
        if result.is_ok() {
            proof {
                lemma_by_key_update(
                    self.withdrawals@,
                    withdrawal_key(),
                    at as int,
                    ctx.fiat_withdrawal,
                );
            }
            self.withdrawals.set(at, ctx.fiat_withdrawal);
        }
        result
    }

    /// Cancels the pending withdrawal of `user` in the token type `mint`
    /// with the reference `reference_id`: the escrowed amount goes back from
    /// the treasury to the token account of the user's vault. Only the
    /// administrator may do so.
    pub fn cancel_fiat_withdrawal(
        &mut self,
        admin: Pubkey,
        user: Pubkey,
        mint: Pubkey,
        reference_id: &String,
        vault_token_account: &mut TokenAccount,
        treasury_token_account: &mut TokenAccount,
        now: i64,
    ) -> (result: Result<(), StateFiError>)
        requires
            old(self).wf(),
        ensures
            final(self).wf(),
            old(self)@.grows_to(final(self)@),
            match old(self)@.withdrawal_cancellation(
                admin,
                user,
                mint,
                reference_id@,
                *old(vault_token_account),
                *old(treasury_token_account),
            ) {
                None => {
                    &&& result == Err::<(), StateFiError>(StateFiError::AccountNotInitialized)
                    &&& final(self)@ == old(self)@
                    &&& *final(vault_token_account) == *old(vault_token_account)
                    &&& *final(treasury_token_account) == *old(treasury_token_account)
                },
                Some(ctx) => match cancel_fiat_withdrawal_check(ctx) {
                    Some(e) => {
                        &&& result == Err::<(), StateFiError>(e)
                        &&& final(self)@ == old(self)@
                        &&& *final(vault_token_account) == *old(vault_token_account)
                        &&& *final(treasury_token_account) == *old(treasury_token_account)
                    },
                    None => {
                        let done = cancel_fiat_withdrawal_effect(ctx, now);
                        &&& result == Ok::<(), StateFiError>(())
                        &&& final(self)@ == old(self)@.with_withdrawal(done.fiat_withdrawal)
                        &&& *final(vault_token_account) == done.vault_token_account
                        &&& *final(treasury_token_account) == done.treasury_token_account
                    },
                },
            },
    {
        let protocol_config = match self.config {
            Some(config) => config,
            None => {
                return Err(StateFiError::AccountNotInitialized);
            },
        };
        let at = match self.find_withdrawal(&user, &mint, reference_id) {
            Some(i) => i,
            None => {
                return Err(StateFiError::AccountNotInitialized);
            },
        };
        proof {
            lemma_by_key_at(self.withdrawals@, withdrawal_key(), at as int);
        }
        let vault = match self.find_vault(&user) {
            Some(i) => {
                proof {
                    lemma_by_key_at(self.vaults@, vault_key(), i as int);
                }
                self.vaults[i]
            },
            None => {
                return Err(StateFiError::AccountNotInitialized);
            },
        };
        let mut ctx = CancelFiatWithdrawal {
            admin,
            protocol_config,
            fiat_withdrawal: self.withdrawals[at].clone(),
            vault,
            vault_token_account: *vault_token_account,
            treasury_token_account: *treasury_token_account,
        };
        let result = crate::withdrawal::cancel_fiat_withdrawal(&mut ctx, now);
        if result.is_ok() {
            proof {
                lemma_by_key_update(
                    self.withdrawals@,
                    withdrawal_key(),
                    at as int,
                    ctx.fiat_withdrawal,
                );
            }
            self.withdrawals.set(at, ctx.fiat_withdrawal);
            *vault_token_account = ctx.vault_token_account;
            *treasury_token_account = ctx.treasury_token_account;
        }
        result
    }
}

} // verus!

//! Each instruction of the program: its account roles, its discriminant,
//! its arguments and their layout, and the builders and checks over them.

use vstd::prelude::*;
use crate::accounts::{
    account_metas, keys_checked, keys_of, privileges_checked, spec_metas, verify_keys,
    verify_privileges, AccountHandle, AccountMeta, Instruction, PrivilegeError,
};
use crate::codec::{parse_tagged, spec_parse_tagged, write_tagged, DecodeError, Pubkey, WireFormat};
use crate::program::ID_BYTES;
use crate::typedefs::{ChangeAuthorityData, ConfigLpParams, ConfigMarinadeParams, InitializeData};

verus! {

pub const INITIALIZE_IX_ACCOUNTS_LEN: usize = 12;

/// Whether each account of `initialize` must sign, in account order.
pub const INITIALIZE_IX_SIGNERS: [bool; 12] = [
    false, false, false, false, false, false, false, false, false, false, false, false,
];

/// Whether each account of `initialize` must be writable, in account order.
pub const INITIALIZE_IX_WRITABLES: [bool; 12] = [
    true, false, true, true, false, false, false, false, false, false, false, false,
];

/// The accounts of `initialize` as the runtime hands them over.
#[derive(Clone, Copy, Debug, PartialEq, Eq)]
pub struct InitializeAccounts {
    /// Writable.
    pub state: AccountHandle,
    /// Read-only.
    pub reserve_pda: AccountHandle,
    /// Writable.
    pub stake_list: AccountHandle,
    /// Writable.
    pub validator_list: AccountHandle,
    /// Read-only.
    pub msol_mint: AccountHandle,
    /// Read-only.
    pub operational_sol_account: AccountHandle,
    /// Read-only.
    pub liq_pool_lp_mint: AccountHandle,
    /// Read-only.
    pub liq_pool_sol_leg_pda: AccountHandle,
    /// Read-only.
    pub liq_pool_msol_leg: AccountHandle,
    /// Read-only.
    pub treasury_msol_account: AccountHandle,
    /// Read-only.
    pub clock: AccountHandle,
    /// Read-only.
    pub rent: AccountHandle,
}

/// The addresses of the accounts of `initialize`.
#[derive(Clone, Copy, Debug, PartialEq, Eq)]
pub struct InitializeKeys {
    /// Writable.
    pub state: Pubkey,
    /// Read-only.
    pub reserve_pda: Pubkey,
    /// Writable.
    pub stake_list: Pubkey,
    /// Writable.
    pub validator_list: Pubkey,
    /// Read-only.
    pub msol_mint: Pubkey,
    /// Read-only.
    pub operational_sol_account: Pubkey,
    /// Read-only.
    pub liq_pool_lp_mint: Pubkey,
    /// Read-only.
    pub liq_pool_sol_leg_pda: Pubkey,
    /// Read-only.
    pub liq_pool_msol_leg: Pubkey,
    /// Read-only.
    pub treasury_msol_account: Pubkey,
    /// Read-only.
    pub clock: Pubkey,
    /// Read-only.
    pub rent: Pubkey,
}

impl InitializeAccounts {
    /// The accounts in account order.
    pub open spec fn spec_handles(&self) -> Seq<AccountHandle> {
        seq![
            self.state,
            self.reserve_pda,
            self.stake_list,
            self.validator_list,
            self.msol_mint,
            self.operational_sol_account,
            self.liq_pool_lp_mint,
            self.liq_pool_sol_leg_pda,
            self.liq_pool_msol_leg,
            self.treasury_msol_account,
            self.clock,
            self.rent,
        ]
    }

    /// The accounts as an array in account order.
    pub fn handles(&self) -> (r: [AccountHandle; 12])
        ensures
            r@ == self.spec_handles(),
    {
        let r = [
            self.state,
            self.reserve_pda,
            self.stake_list,
            self.validator_list,
            self.msol_mint,
            self.operational_sol_account,
            self.liq_pool_lp_mint,
            self.liq_pool_sol_leg_pda,
            self.liq_pool_msol_leg,
            self.treasury_msol_account,
            self.clock,
            self.rent,
        ];
        assert(r@ =~= self.spec_handles());
        r
    }

    /// The accounts read from an array in account order.
    pub fn from_handles(arr: [AccountHandle; 12]) -> (r: Self)
        ensures
            r.spec_handles() == arr@,
    {
        let r = InitializeAccounts {
            state: arr[0],
            reserve_pda: arr[1],
            stake_list: arr[2],
            validator_list: arr[3],
            msol_mint: arr[4],
            operational_sol_account: arr[5],
            liq_pool_lp_mint: arr[6],
            liq_pool_sol_leg_pda: arr[7],
            liq_pool_msol_leg: arr[8],
            treasury_msol_account: arr[9],
            clock: arr[10],
            rent: arr[11],
        };
        assert(r.spec_handles() =~= arr@);
        r
    }
}

impl InitializeKeys {
    /// The addresses in account order.
    pub open spec fn spec_pubkeys(&self) -> Seq<Pubkey> {
        seq![
            self.state,
            self.reserve_pda,
            self.stake_list,
            self.validator_list,
            self.msol_mint,
            self.operational_sol_account,
            self.liq_pool_lp_mint,
            self.liq_pool_sol_leg_pda,
            self.liq_pool_msol_leg,
            self.treasury_msol_account,
            self.clock,
            self.rent,
        ]
    }

    /// The addresses as an array in account order.
    pub fn pubkeys(&self) -> (r: [Pubkey; 12])
        ensures
            r@ == self.spec_pubkeys(),
    {
        let r = [
            self.state,
            self.reserve_pda,
            self.stake_list,
            self.validator_list,
            self.msol_mint,
            self.operational_sol_account,
            self.liq_pool_lp_mint,
            self.liq_pool_sol_leg_pda,
            self.liq_pool_msol_leg,
            self.treasury_msol_account,
            self.clock,
            self.rent,
        ];
        assert(r@ =~= self.spec_pubkeys());
        r
    }

    /// The addresses read from an array in account order.
    pub fn from_pubkeys(arr: [Pubkey; 12]) -> (r: Self)
        ensures
            r.spec_pubkeys() == arr@,
    {
        let r = InitializeKeys {
            state: arr[0],
            reserve_pda: arr[1],
            stake_list: arr[2],
            validator_list: arr[3],
            msol_mint: arr[4],
            operational_sol_account: arr[5],
            liq_pool_lp_mint: arr[6],
            liq_pool_sol_leg_pda: arr[7],
            liq_pool_msol_leg: arr[8],
            treasury_msol_account: arr[9],
            clock: arr[10],
            rent: arr[11],
        };
        assert(r.spec_pubkeys() =~= arr@);
        r
    }

    /// The addresses of `accounts`.
    pub fn from_accounts(accounts: &InitializeAccounts) -> (r: Self)
        ensures
            r.spec_pubkeys() == keys_of(accounts.spec_handles()),
    {
        let r = InitializeKeys {
            state: accounts.state.key,
            reserve_pda: accounts.reserve_pda.key,
            stake_list: accounts.stake_list.key,
            validator_list: accounts.validator_list.key,
            msol_mint: accounts.msol_mint.key,
            operational_sol_account: accounts.operational_sol_account.key,
            liq_pool_lp_mint: accounts.liq_pool_lp_mint.key,
            liq_pool_sol_leg_pda: accounts.liq_pool_sol_leg_pda.key,
            liq_pool_msol_leg: accounts.liq_pool_msol_leg.key,
            treasury_msol_account: accounts.treasury_msol_account.key,
            clock: accounts.clock.key,
            rent: accounts.rent.key,
        };
        assert(r.spec_pubkeys() =~= keys_of(accounts.spec_handles()));
        r
    }

    /// The account list of `initialize`: one entry per role, in account order,
    /// each with the fixed flags of its role.
    pub fn account_metas(&self) -> (r: Vec<AccountMeta>)
        ensures
            r@.len() == INITIALIZE_IX_ACCOUNTS_LEN,
            r@ == spec_metas(self.spec_pubkeys(), INITIALIZE_IX_SIGNERS@, INITIALIZE_IX_WRITABLES@),
    {
        let keys = self.pubkeys();
        account_metas(&keys, &INITIALIZE_IX_SIGNERS, &INITIALIZE_IX_WRITABLES)
    }
}

pub const INITIALIZE_IX_DISCM: [u8; 8] = [175, 175, 109, 31, 13, 152, 155, 237];

/// The arguments of `initialize`.
#[derive(Clone, Copy, Debug, PartialEq, Eq)]
pub struct InitializeIxArgs {
    pub data: InitializeData,
}

impl WireFormat for InitializeIxArgs {
    open spec fn spec_encode(&self) -> Seq<u8> {
        self.data.spec_encode()
    }

    open spec fn spec_parse(s: Seq<u8>) -> Result<(InitializeIxArgs, nat), DecodeError> {
        match <InitializeData as WireFormat>::spec_parse(s) {
            Ok((data, n)) => Ok((InitializeIxArgs { data }, n)),
            Err(e) => Err(e),
        }
    }

    proof fn lemma_parse_encode(&self, rest: Seq<u8>) {
        self.data.lemma_parse_encode(rest);
    }

    fn encode(&self, out: &mut Vec<u8>) {
        self.data.encode(out);
    }

    fn decode(buf: &[u8], pos: usize) -> (r: Result<(InitializeIxArgs, usize), DecodeError>) {
        match <InitializeData as WireFormat>::decode(buf, pos) {
            Ok((data, end)) => Ok((InitializeIxArgs { data }, end)),
            Err(e) => Err(e),
        }
    }
}

/// The data of a `initialize` instruction: its discriminant, then its arguments.
#[derive(Clone, Copy, Debug, PartialEq, Eq)]
pub struct InitializeIxData(pub InitializeIxArgs);

impl InitializeIxData {
    /// Reads the data of a `initialize` instruction from the front of `buf`;
    /// bytes after it are left unread.
    pub fn deserialize(buf: &[u8]) -> (r: Result<Self, DecodeError>)
        ensures
            match spec_parse_tagged::<InitializeIxArgs>(INITIALIZE_IX_DISCM, buf@) {
                Ok(args) => r == Ok::<Self, DecodeError>(InitializeIxData(args)),
                Err(e) => r == Err::<Self, DecodeError>(e),
            },
    {
        match parse_tagged::<InitializeIxArgs>(&INITIALIZE_IX_DISCM, buf) {
            Ok(args) => Ok(InitializeIxData(args)),
            Err(e) => Err(e),
        }
    }

    /// Appends the discriminant of `initialize` and then the arguments to `out`.
    pub fn serialize(&self, out: &mut Vec<u8>)
        ensures
            final(out)@ == old(out)@ + INITIALIZE_IX_DISCM@ + self.0.spec_encode(),
    {
        write_tagged(&INITIALIZE_IX_DISCM, &self.0, out);
    }

    /// The bytes of the instruction data.
    pub fn try_to_vec(&self) -> (r: Vec<u8>)
        ensures
            r@ == INITIALIZE_IX_DISCM@ + self.0.spec_encode(),
    {
        let mut data: Vec<u8> = Vec::new();
        self.serialize(&mut data);
        assert(data@ =~= INITIALIZE_IX_DISCM@ + self.0.spec_encode());
        data
    }
}

/// The `initialize` instruction for `keys` and `args`, addressed to the program.
pub fn initialize_ix(keys: InitializeKeys, args: InitializeIxArgs) -> (r: Instruction)
    ensures
        r.program_id == Pubkey(ID_BYTES),
        r.accounts@ == spec_metas(
            keys.spec_pubkeys(),
            INITIALIZE_IX_SIGNERS@,
            INITIALIZE_IX_WRITABLES@,
        ),
        r.data@ == INITIALIZE_IX_DISCM@ + args.spec_encode(),
{
    Instruction {
        program_id: Pubkey(ID_BYTES),
        accounts: keys.account_metas(),
        data: InitializeIxData(args).try_to_vec(),
    }
}

/// Compares the addresses of `accounts` with `keys` in account order and
/// reports the first pair (actual, expected) that differs.
pub fn initialize_verify_account_keys(
    accounts: InitializeAccounts,
    keys: InitializeKeys,
) -> (r: Result<(), (Pubkey, Pubkey)>)
    ensures
        keys_checked(keys_of(accounts.spec_handles()), keys.spec_pubkeys(), r),
{
    let actual = InitializeKeys::from_accounts(&accounts).pubkeys();
    let expected = keys.pubkeys();
    verify_keys(&actual, &expected)
}

/// Checks that the accounts in writable roles are writable and then that
/// the accounts in signing roles have signed; reports the first that is not.
pub fn initialize_verify_account_privileges(
    accounts: InitializeAccounts,
) -> (r: Result<(), (AccountHandle, PrivilegeError)>)
    ensures
        privileges_checked(
            accounts.spec_handles(),
            INITIALIZE_IX_SIGNERS@,
            INITIALIZE_IX_WRITABLES@,
            r,
        ),
{
    let handles = accounts.handles();
    verify_privileges(&handles, &INITIALIZE_IX_SIGNERS, &INITIALIZE_IX_WRITABLES)
}

pub const CHANGE_AUTHORITY_IX_ACCOUNTS_LEN: usize = 2;

/// Whether each account of `change_authority` must sign, in account order.
pub const CHANGE_AUTHORITY_IX_SIGNERS: [bool; 2] = [false, true];

/// Whether each account of `change_authority` must be writable, in account order.
pub const CHANGE_AUTHORITY_IX_WRITABLES: [bool; 2] = [true, false];

/// The accounts of `change_authority` as the runtime hands them over.
#[derive(Clone, Copy, Debug, PartialEq, Eq)]
pub struct ChangeAuthorityAccounts {
    /// Writable.
    pub state: AccountHandle,
    /// Signer.
    pub admin_authority: AccountHandle,
}

/// The addresses of the accounts of `change_authority`.
#[derive(Clone, Copy, Debug, PartialEq, Eq)]
pub struct ChangeAuthorityKeys {
    /// Writable.
    pub state: Pubkey,
    /// Signer.
    pub admin_authority: Pubkey,
}

impl ChangeAuthorityAccounts {
    /// The accounts in account order.
    pub open spec fn spec_handles(&self) -> Seq<AccountHandle> {
        seq![self.state, self.admin_authority]
    }

    /// The accounts as an array in account order.
    pub fn handles(&self) -> (r: [AccountHandle; 2])
        ensures
            r@ == self.spec_handles(),
    {
        let r = [self.state, self.admin_authority];
        assert(r@ =~= self.spec_handles());
        r
    }

    /// The accounts read from an array in account order.
    pub fn from_handles(arr: [AccountHandle; 2]) -> (r: Self)
        ensures
            r.spec_handles() == arr@,
    {
        let r = ChangeAuthorityAccounts { state: arr[0], admin_authority: arr[1] };
        assert(r.spec_handles() =~= arr@);
        r
    }
}

impl ChangeAuthorityKeys {
    /// The addresses in account order.
    pub open spec fn spec_pubkeys(&self) -> Seq<Pubkey> {
        seq![self.state, self.admin_authority]
    }

    /// The addresses as an array in account order.
    pub fn pubkeys(&self) -> (r: [Pubkey; 2])
        ensures
            r@ == self.spec_pubkeys(),
    {
        let r = [self.state, self.admin_authority];
        assert(r@ =~= self.spec_pubkeys());
        r
    }

    /// The addresses read from an array in account order.
    pub fn from_pubkeys(arr: [Pubkey; 2]) -> (r: Self)
        ensures
            r.spec_pubkeys() == arr@,
    {
        let r = ChangeAuthorityKeys { state: arr[0], admin_authority: arr[1] };
        assert(r.spec_pubkeys() =~= arr@);
        r
    }

    /// The addresses of `accounts`.
    pub fn from_accounts(accounts: &ChangeAuthorityAccounts) -> (r: Self)
        ensures
            r.spec_pubkeys() == keys_of(accounts.spec_handles()),
    {
        let r = ChangeAuthorityKeys {
            state: accounts.state.key,
            admin_authority: accounts.admin_authority.key,
        };
        assert(r.spec_pubkeys() =~= keys_of(accounts.spec_handles()));
        r
    }

    /// The account list of `change_authority`: one entry per role, in account order,
    /// each with the fixed flags of its role.
    pub fn account_metas(&self) -> (r: Vec<AccountMeta>)
        ensures
            r@.len() == CHANGE_AUTHORITY_IX_ACCOUNTS_LEN,
            r@ == spec_metas(
                self.spec_pubkeys(),
                CHANGE_AUTHORITY_IX_SIGNERS@,
                CHANGE_AUTHORITY_IX_WRITABLES@,
            ),
    {
        let keys = self.pubkeys();
        account_metas(&keys, &CHANGE_AUTHORITY_IX_SIGNERS, &CHANGE_AUTHORITY_IX_WRITABLES)
    }
}

pub const CHANGE_AUTHORITY_IX_DISCM: [u8; 8] = [50, 106, 66, 104, 99, 118, 145, 88];

/// The arguments of `change_authority`.
#[derive(Clone, Copy, Debug, PartialEq, Eq)]
pub struct ChangeAuthorityIxArgs {
    pub data: ChangeAuthorityData,
}

impl WireFormat for ChangeAuthorityIxArgs {
    open spec fn spec_encode(&self) -> Seq<u8> {
        self.data.spec_encode()
    }

    open spec fn spec_parse(s: Seq<u8>) -> Result<(ChangeAuthorityIxArgs, nat), DecodeError> {
        match <ChangeAuthorityData as WireFormat>::spec_parse(s) {
            Ok((data, n)) => Ok((ChangeAuthorityIxArgs { data }, n)),
            Err(e) => Err(e),
        }
    }

    proof fn lemma_parse_encode(&self, rest: Seq<u8>) {
        self.data.lemma_parse_encode(rest);
    }

    fn encode(&self, out: &mut Vec<u8>) {
        self.data.encode(out);
    }

    fn decode(buf: &[u8], pos: usize) -> (r: Result<(ChangeAuthorityIxArgs, usize), DecodeError>) {
        match <ChangeAuthorityData as WireFormat>::decode(buf, pos) {
            Ok((data, end)) => Ok((ChangeAuthorityIxArgs { data }, end)),
            Err(e) => Err(e),
        }
    }
}

/// The data of a `change_authority` instruction: its discriminant, then its arguments.
#[derive(Clone, Copy, Debug, PartialEq, Eq)]
pub struct ChangeAuthorityIxData(pub ChangeAuthorityIxArgs);

impl ChangeAuthorityIxData {
    /// Reads the data of a `change_authority` instruction from the front of `buf`;
    /// bytes after it are left unread.
    pub fn deserialize(buf: &[u8]) -> (r: Result<Self, DecodeError>)
        ensures
            match spec_parse_tagged::<ChangeAuthorityIxArgs>(CHANGE_AUTHORITY_IX_DISCM, buf@) {
                Ok(args) => r == Ok::<Self, DecodeError>(ChangeAuthorityIxData(args)),
                Err(e) => r == Err::<Self, DecodeError>(e),
            },
    {
        match parse_tagged::<ChangeAuthorityIxArgs>(&CHANGE_AUTHORITY_IX_DISCM, buf) {
            Ok(args) => Ok(ChangeAuthorityIxData(args)),
            Err(e) => Err(e),
        }
    }

    /// Appends the discriminant of `change_authority` and then the arguments to `out`.
    pub fn serialize(&self, out: &mut Vec<u8>)
        ensures
            final(out)@ == old(out)@ + CHANGE_AUTHORITY_IX_DISCM@ + self.0.spec_encode(),
    {
        write_tagged(&CHANGE_AUTHORITY_IX_DISCM, &self.0, out);
    }

    /// The bytes of the instruction data.
    pub fn try_to_vec(&self) -> (r: Vec<u8>)
        ensures
            r@ == CHANGE_AUTHORITY_IX_DISCM@ + self.0.spec_encode(),
    {
        let mut data: Vec<u8> = Vec::new();
        self.serialize(&mut data);
        assert(data@ =~= CHANGE_AUTHORITY_IX_DISCM@ + self.0.spec_encode());
        data
    }
}

/// The `change_authority` instruction for `keys` and `args`, addressed to the program.
pub fn change_authority_ix(
    keys: ChangeAuthorityKeys,
    args: ChangeAuthorityIxArgs,
) -> (r: Instruction)
    ensures
        r.program_id == Pubkey(ID_BYTES),
        r.accounts@ == spec_metas(
            keys.spec_pubkeys(),
            CHANGE_AUTHORITY_IX_SIGNERS@,
            CHANGE_AUTHORITY_IX_WRITABLES@,
        ),
        r.data@ == CHANGE_AUTHORITY_IX_DISCM@ + args.spec_encode(),
{
    Instruction {
        program_id: Pubkey(ID_BYTES),
        accounts: keys.account_metas(),
        data: ChangeAuthorityIxData(args).try_to_vec(),
    }
}

/// Compares the addresses of `accounts` with `keys` in account order and
/// reports the first pair (actual, expected) that differs.
pub fn change_authority_verify_account_keys(
    accounts: ChangeAuthorityAccounts,
    keys: ChangeAuthorityKeys,
) -> (r: Result<(), (Pubkey, Pubkey)>)
    ensures
        keys_checked(keys_of(accounts.spec_handles()), keys.spec_pubkeys(), r),
{
    let actual = ChangeAuthorityKeys::from_accounts(&accounts).pubkeys();
    let expected = keys.pubkeys();
    verify_keys(&actual, &expected)
}

/// Checks that the accounts in writable roles are writable and then that
/// the accounts in signing roles have signed; reports the first that is not.
pub fn change_authority_verify_account_privileges(
    accounts: ChangeAuthorityAccounts,
) -> (r: Result<(), (AccountHandle, PrivilegeError)>)
    ensures
        privileges_checked(
            accounts.spec_handles(),
            CHANGE_AUTHORITY_IX_SIGNERS@,
            CHANGE_AUTHORITY_IX_WRITABLES@,
            r,
        ),
{
    let handles = accounts.handles();
    verify_privileges(&handles, &CHANGE_AUTHORITY_IX_SIGNERS, &CHANGE_AUTHORITY_IX_WRITABLES)
}

pub const ADD_VALIDATOR_IX_ACCOUNTS_LEN: usize = 9;

/// Whether each account of `add_validator` must sign, in account order.
pub const ADD_VALIDATOR_IX_SIGNERS: [bool; 9] = [
    false, true, false, false, false, true, false, false, false,
];

/// Whether each account of `add_validator` must be writable, in account order.
pub const ADD_VALIDATOR_IX_WRITABLES: [bool; 9] = [
    true, false, true, false, true, true, false, false, false,
];

/// The accounts of `add_validator` as the runtime hands them over.
#[derive(Clone, Copy, Debug, PartialEq, Eq)]
pub struct AddValidatorAccounts {
    /// Writable.
    pub state: AccountHandle,
    /// Signer.
    pub manager_authority: AccountHandle,
    /// Writable.
    pub validator_list: AccountHandle,
    /// Read-only.
    pub validator_vote: AccountHandle,
    /// Writable.
    pub duplication_flag: AccountHandle,
    /// Signer, writable.
    pub rent_payer: AccountHandle,
    /// Read-only.
    pub clock: AccountHandle,
    /// Read-only.
    pub rent: AccountHandle,
    /// Read-only.
    pub system_program: AccountHandle,
}

/// The addresses of the accounts of `add_validator`.
#[derive(Clone, Copy, Debug, PartialEq, Eq)]
pub struct AddValidatorKeys {
    /// Writable.
    pub state: Pubkey,
    /// Signer.
    pub manager_authority: Pubkey,
    /// Writable.
    pub validator_list: Pubkey,
    /// Read-only.
    pub validator_vote: Pubkey,
    /// Writable.
    pub duplication_flag: Pubkey,
    /// Signer, writable.
    pub rent_payer: Pubkey,
    /// Read-only.
    pub clock: Pubkey,
    /// Read-only.
    pub rent: Pubkey,
    /// Read-only.
    pub system_program: Pubkey,
}

impl AddValidatorAccounts {
    /// The accounts in account order.
    pub open spec fn spec_handles(&self) -> Seq<AccountHandle> {
        seq![
            self.state,
            self.manager_authority,
            self.validator_list,
            self.validator_vote,
            self.duplication_flag,
            self.rent_payer,
            self.clock,
            self.rent,
            self.system_program,
        ]
    }

    /// The accounts as an array in account order.
    pub fn handles(&self) -> (r: [AccountHandle; 9])
        ensures
            r@ == self.spec_handles(),
    {
        let r = [
            self.state,
            self.manager_authority,
            self.validator_list,
            self.validator_vote,
            self.duplication_flag,
            self.rent_payer,
            self.clock,
            self.rent,
            self.system_program,
        ];
        assert(r@ =~= self.spec_handles());
        r
    }

    /// The accounts read from an array in account order.
    pub fn from_handles(arr: [AccountHandle; 9]) -> (r: Self)
        ensures
            r.spec_handles() == arr@,
    {
        let r = AddValidatorAccounts {
            state: arr[0],
            manager_authority: arr[1],
            validator_list: arr[2],
            validator_vote: arr[3],
            duplication_flag: arr[4],
            rent_payer: arr[5],
            clock: arr[6],
            rent: arr[7],
            system_program: arr[8],
        };
        assert(r.spec_handles() =~= arr@);
        r
    }
}

impl AddValidatorKeys {
    /// The addresses in account order.
    pub open spec fn spec_pubkeys(&self) -> Seq<Pubkey> {
        seq![
            self.state,
            self.manager_authority,
            self.validator_list,
            self.validator_vote,
            self.duplication_flag,
            self.rent_payer,
            self.clock,
            self.rent,
            self.system_program,
        ]
    }

    /// The addresses as an array in account order.
    pub fn pubkeys(&self) -> (r: [Pubkey; 9])
        ensures
            r@ == self.spec_pubkeys(),
    {
        let r = [
            self.state,
            self.manager_authority,
            self.validator_list,
            self.validator_vote,
            self.duplication_flag,
            self.rent_payer,
            self.clock,
            self.rent,
            self.system_program,
        ];
        assert(r@ =~= self.spec_pubkeys());
        r
    }

    /// The addresses read from an array in account order.
    pub fn from_pubkeys(arr: [Pubkey; 9]) -> (r: Self)
        ensures
            r.spec_pubkeys() == arr@,
    {
        let r = AddValidatorKeys {
            state: arr[0],
            manager_authority: arr[1],
            validator_list: arr[2],
            validator_vote: arr[3],
            duplication_flag: arr[4],
            rent_payer: arr[5],
            clock: arr[6],
            rent: arr[7],
            system_program: arr[8],
        };
        assert(r.spec_pubkeys() =~= arr@);
        r
    }

    /// The addresses of `accounts`.
    pub fn from_accounts(accounts: &AddValidatorAccounts) -> (r: Self)
        ensures
            r.spec_pubkeys() == keys_of(accounts.spec_handles()),
    {
        let r = AddValidatorKeys {
            state: accounts.state.key,
            manager_authority: accounts.manager_authority.key,
            validator_list: accounts.validator_list.key,
            validator_vote: accounts.validator_vote.key,
            duplication_flag: accounts.duplication_flag.key,
            rent_payer: accounts.rent_payer.key,
            clock: accounts.clock.key,
            rent: accounts.rent.key,
            system_program: accounts.system_program.key,
        };
        assert(r.spec_pubkeys() =~= keys_of(accounts.spec_handles()));
        r
    }

    /// The account list of `add_validator`: one entry per role, in account order,
    /// each with the fixed flags of its role.
    pub fn account_metas(&self) -> (r: Vec<AccountMeta>)
        ensures
            r@.len() == ADD_VALIDATOR_IX_ACCOUNTS_LEN,
            r@ == spec_metas(
                self.spec_pubkeys(),
                ADD_VALIDATOR_IX_SIGNERS@,
                ADD_VALIDATOR_IX_WRITABLES@,
            ),
    {
        let keys = self.pubkeys();
        account_metas(&keys, &ADD_VALIDATOR_IX_SIGNERS, &ADD_VALIDATOR_IX_WRITABLES)
    }
}

pub const ADD_VALIDATOR_IX_DISCM: [u8; 8] = [250, 113, 53, 54, 141, 117, 215, 185];

/// The arguments of `add_validator`.
#[derive(Clone, Copy, Debug, PartialEq, Eq)]
pub struct AddValidatorIxArgs {
    pub score: u32,
}

impl WireFormat for AddValidatorIxArgs {
    open spec fn spec_encode(&self) -> Seq<u8> {
        self.score.spec_encode()
    }

    open spec fn spec_parse(s: Seq<u8>) -> Result<(AddValidatorIxArgs, nat), DecodeError> {
        match <u32 as WireFormat>::spec_parse(s) {
            Ok((score, n)) => Ok((AddValidatorIxArgs { score }, n)),
            Err(e) => Err(e),
        }
    }

    proof fn lemma_parse_encode(&self, rest: Seq<u8>) {
        self.score.lemma_parse_encode(rest);
    }

    fn encode(&self, out: &mut Vec<u8>) {
        self.score.encode(out);
    }

    fn decode(buf: &[u8], pos: usize) -> (r: Result<(AddValidatorIxArgs, usize), DecodeError>) {
        match <u32 as WireFormat>::decode(buf, pos) {
            Ok((score, end)) => Ok((AddValidatorIxArgs { score }, end)),
            Err(e) => Err(e),
        }
    }
}

/// The data of a `add_validator` instruction: its discriminant, then its arguments.
#[derive(Clone, Copy, Debug, PartialEq, Eq)]
pub struct AddValidatorIxData(pub AddValidatorIxArgs);

impl AddValidatorIxData {
    /// Reads the data of a `add_validator` instruction from the front of `buf`;
    /// bytes after it are left unread.
    pub fn deserialize(buf: &[u8]) -> (r: Result<Self, DecodeError>)
        ensures
            match spec_parse_tagged::<AddValidatorIxArgs>(ADD_VALIDATOR_IX_DISCM, buf@) {
                Ok(args) => r == Ok::<Self, DecodeError>(AddValidatorIxData(args)),
                Err(e) => r == Err::<Self, DecodeError>(e),
            },
    {
        match parse_tagged::<AddValidatorIxArgs>(&ADD_VALIDATOR_IX_DISCM, buf) {
            Ok(args) => Ok(AddValidatorIxData(args)),
            Err(e) => Err(e),
        }
    }

    /// Appends the discriminant of `add_validator` and then the arguments to `out`.
    pub fn serialize(&self, out: &mut Vec<u8>)
        ensures
            final(out)@ == old(out)@ + ADD_VALIDATOR_IX_DISCM@ + self.0.spec_encode(),
    {
        write_tagged(&ADD_VALIDATOR_IX_DISCM, &self.0, out);
    }

    /// The bytes of the instruction data.
    pub fn try_to_vec(&self) -> (r: Vec<u8>)
        ensures
            r@ == ADD_VALIDATOR_IX_DISCM@ + self.0.spec_encode(),
    {
        let mut data: Vec<u8> = Vec::new();
        self.serialize(&mut data);
        assert(data@ =~= ADD_VALIDATOR_IX_DISCM@ + self.0.spec_encode());
        data
    }
}

/// The `add_validator` instruction for `keys` and `args`, addressed to the program.
pub fn add_validator_ix(keys: AddValidatorKeys, args: AddValidatorIxArgs) -> (r: Instruction)
    ensures
        r.program_id == Pubkey(ID_BYTES),
        r.accounts@ == spec_metas(
            keys.spec_pubkeys(),
            ADD_VALIDATOR_IX_SIGNERS@,
            ADD_VALIDATOR_IX_WRITABLES@,
        ),
        r.data@ == ADD_VALIDATOR_IX_DISCM@ + args.spec_encode(),
{
    Instruction {
        program_id: Pubkey(ID_BYTES),
        accounts: keys.account_metas(),
        data: AddValidatorIxData(args).try_to_vec(),
    }
}

/// Compares the addresses of `accounts` with `keys` in account order and
/// reports the first pair (actual, expected) that differs.
pub fn add_validator_verify_account_keys(
    accounts: AddValidatorAccounts,
    keys: AddValidatorKeys,
) -> (r: Result<(), (Pubkey, Pubkey)>)
    ensures
        keys_checked(keys_of(accounts.spec_handles()), keys.spec_pubkeys(), r),
{
    let actual = AddValidatorKeys::from_accounts(&accounts).pubkeys();
    let expected = keys.pubkeys();
    verify_keys(&actual, &expected)
}

/// Checks that the accounts in writable roles are writable and then that
/// the accounts in signing roles have signed; reports the first that is not.
pub fn add_validator_verify_account_privileges(
    accounts: AddValidatorAccounts,
) -> (r: Result<(), (AccountHandle, PrivilegeError)>)
    ensures
        privileges_checked(
            accounts.spec_handles(),
            ADD_VALIDATOR_IX_SIGNERS@,
            ADD_VALIDATOR_IX_WRITABLES@,
            r,
        ),
{
    let handles = accounts.handles();
    verify_privileges(&handles, &ADD_VALIDATOR_IX_SIGNERS, &ADD_VALIDATOR_IX_WRITABLES)
}

pub const REMOVE_VALIDATOR_IX_ACCOUNTS_LEN: usize = 5;

/// Whether each account of `remove_validator` must sign, in account order.
pub const REMOVE_VALIDATOR_IX_SIGNERS: [bool; 5] = [false, true, false, false, false];

/// Whether each account of `remove_validator` must be writable, in account order.
pub const REMOVE_VALIDATOR_IX_WRITABLES: [bool; 5] = [true, false, true, true, true];

/// The accounts of `remove_validator` as the runtime hands them over.
#[derive(Clone, Copy, Debug, PartialEq, Eq)]
pub struct RemoveValidatorAccounts {
    /// Writable.
    pub state: AccountHandle,
    /// Signer.
    pub manager_authority: AccountHandle,
    /// Writable.
    pub validator_list: AccountHandle,
    /// Writable.
    pub duplication_flag: AccountHandle,
    /// Writable.
    pub operational_sol_account: AccountHandle,
}

/// The addresses of the accounts of `remove_validator`.
#[derive(Clone, Copy, Debug, PartialEq, Eq)]
pub struct RemoveValidatorKeys {
    /// Writable.
    pub state: Pubkey,
    /// Signer.
    pub manager_authority: Pubkey,
    /// Writable.
    pub validator_list: Pubkey,
    /// Writable.
    pub duplication_flag: Pubkey,
    /// Writable.
    pub operational_sol_account: Pubkey,
}

impl RemoveValidatorAccounts {
    /// The accounts in account order.
    pub open spec fn spec_handles(&self) -> Seq<AccountHandle> {
        seq![
            self.state,
            self.manager_authority,
            self.validator_list,
            self.duplication_flag,
            self.operational_sol_account,
        ]
    }

    /// The accounts as an array in account order.
    pub fn handles(&self) -> (r: [AccountHandle; 5])
        ensures
            r@ == self.spec_handles(),
    {
        let r = [
            self.state,
            self.manager_authority,
            self.validator_list,
            self.duplication_flag,
            self.operational_sol_account,
        ];
        assert(r@ =~= self.spec_handles());
        r
    }

    /// The accounts read from an array in account order.
    pub fn from_handles(arr: [AccountHandle; 5]) -> (r: Self)
        ensures
            r.spec_handles() == arr@,
    {
        let r = RemoveValidatorAccounts {
            state: arr[0],
            manager_authority: arr[1],
            validator_list: arr[2],
            duplication_flag: arr[3],
            operational_sol_account: arr[4],
        };
        assert(r.spec_handles() =~= arr@);
        r
    }
}

impl RemoveValidatorKeys {
    /// The addresses in account order.
    pub open spec fn spec_pubkeys(&self) -> Seq<Pubkey> {
        seq![
            self.state,
            self.manager_authority,
            self.validator_list,
            self.duplication_flag,
            self.operational_sol_account,
        ]
    }

    /// The addresses as an array in account order.
    pub fn pubkeys(&self) -> (r: [Pubkey; 5])
        ensures
            r@ == self.spec_pubkeys(),
    {
        let r = [
            self.state,
            self.manager_authority,
            self.validator_list,
            self.duplication_flag,
            self.operational_sol_account,
        ];
        assert(r@ =~= self.spec_pubkeys());
        r
    }

    /// The addresses read from an array in account order.
    pub fn from_pubkeys(arr: [Pubkey; 5]) -> (r: Self)
        ensures
            r.spec_pubkeys() == arr@,
    {
        let r = RemoveValidatorKeys {
            state: arr[0],
            manager_authority: arr[1],
            validator_list: arr[2],
            duplication_flag: arr[3],
            operational_sol_account: arr[4],
        };
        assert(r.spec_pubkeys() =~= arr@);
        r
    }

    /// The addresses of `accounts`.
    pub fn from_accounts(accounts: &RemoveValidatorAccounts) -> (r: Self)
        ensures
            r.spec_pubkeys() == keys_of(accounts.spec_handles()),
    {
        let r = RemoveValidatorKeys {
            state: accounts.state.key,
            manager_authority: accounts.manager_authority.key,
            validator_list: accounts.validator_list.key,
            duplication_flag: accounts.duplication_flag.key,
            operational_sol_account: accounts.operational_sol_account.key,
        };
        assert(r.spec_pubkeys() =~= keys_of(accounts.spec_handles()));
        r
    }

    /// The account list of `remove_validator`: one entry per role, in account order,
    /// each with the fixed flags of its role.
    pub fn account_metas(&self) -> (r: Vec<AccountMeta>)
        ensures
            r@.len() == REMOVE_VALIDATOR_IX_ACCOUNTS_LEN,
            r@ == spec_metas(
                self.spec_pubkeys(),
                REMOVE_VALIDATOR_IX_SIGNERS@,
                REMOVE_VALIDATOR_IX_WRITABLES@,
            ),
    {
        let keys = self.pubkeys();
        account_metas(&keys, &REMOVE_VALIDATOR_IX_SIGNERS, &REMOVE_VALIDATOR_IX_WRITABLES)
    }
}

pub const REMOVE_VALIDATOR_IX_DISCM: [u8; 8] = [25, 96, 211, 155, 161, 14, 168, 188];

/// The arguments of `remove_validator`.
#[derive(Clone, Copy, Debug, PartialEq, Eq)]
pub struct RemoveValidatorIxArgs {
    pub index: u32,
    pub validator_vote: Pubkey,
}

/// Laid out as its fields in declared order.
impl WireFormat for RemoveValidatorIxArgs {
    open spec fn spec_encode(&self) -> Seq<u8> {
        (self.index, self.validator_vote).spec_encode()
    }

    open spec fn spec_parse(s: Seq<u8>) -> Result<(RemoveValidatorIxArgs, nat), DecodeError> {
        match <(u32, Pubkey) as WireFormat>::spec_parse(s) {
            Ok(((index, validator_vote), n)) => Ok((RemoveValidatorIxArgs {
                index,
                validator_vote,
            }, n)),
            Err(e) => Err(e),
        }
    }

    proof fn lemma_parse_encode(&self, rest: Seq<u8>) {
        (self.index, self.validator_vote).lemma_parse_encode(rest);
    }

    fn encode(&self, out: &mut Vec<u8>) {
        (self.index, self.validator_vote).encode(out);
    }

    fn decode(buf: &[u8], pos: usize) -> (r: Result<(RemoveValidatorIxArgs, usize), DecodeError>) {
        match <(u32, Pubkey) as WireFormat>::decode(buf, pos) {
            Ok(((index, validator_vote), end)) => Ok((RemoveValidatorIxArgs {
                index,
                validator_vote,
            }, end)),
            Err(e) => Err(e),
        }
    }
}

/// The data of a `remove_validator` instruction: its discriminant, then its arguments.
#[derive(Clone, Copy, Debug, PartialEq, Eq)]
pub struct RemoveValidatorIxData(pub RemoveValidatorIxArgs);

impl RemoveValidatorIxData {
    /// Reads the data of a `remove_validator` instruction from the front of `buf`;
    /// bytes after it are left unread.
    pub fn deserialize(buf: &[u8]) -> (r: Result<Self, DecodeError>)
        ensures
            match spec_parse_tagged::<RemoveValidatorIxArgs>(REMOVE_VALIDATOR_IX_DISCM, buf@) {
                Ok(args) => r == Ok::<Self, DecodeError>(RemoveValidatorIxData(args)),
                Err(e) => r == Err::<Self, DecodeError>(e),
            },
    {
        match parse_tagged::<RemoveValidatorIxArgs>(&REMOVE_VALIDATOR_IX_DISCM, buf) {
            Ok(args) => Ok(RemoveValidatorIxData(args)),
            Err(e) => Err(e),
        }
    }

    /// Appends the discriminant of `remove_validator` and then the arguments to `out`.
    pub fn serialize(&self, out: &mut Vec<u8>)
        ensures
            final(out)@ == old(out)@ + REMOVE_VALIDATOR_IX_DISCM@ + self.0.spec_encode(),
    {
        write_tagged(&REMOVE_VALIDATOR_IX_DISCM, &self.0, out);
    }

    /// The bytes of the instruction data.
    pub fn try_to_vec(&self) -> (r: Vec<u8>)
        ensures
            r@ == REMOVE_VALIDATOR_IX_DISCM@ + self.0.spec_encode(),
    {
        let mut data: Vec<u8> = Vec::new();
        self.serialize(&mut data);
        assert(data@ =~= REMOVE_VALIDATOR_IX_DISCM@ + self.0.spec_encode());
        data
    }
}

/// The `remove_validator` instruction for `keys` and `args`, addressed to the program.
pub fn remove_validator_ix(
    keys: RemoveValidatorKeys,
    args: RemoveValidatorIxArgs,
) -> (r: Instruction)
    ensures
        r.program_id == Pubkey(ID_BYTES),
        r.accounts@ == spec_metas(
            keys.spec_pubkeys(),
            REMOVE_VALIDATOR_IX_SIGNERS@,
            REMOVE_VALIDATOR_IX_WRITABLES@,
        ),
        r.data@ == REMOVE_VALIDATOR_IX_DISCM@ + args.spec_encode(),
{
    Instruction {
        program_id: Pubkey(ID_BYTES),
        accounts: keys.account_metas(),
        data: RemoveValidatorIxData(args).try_to_vec(),
    }
}

/// Compares the addresses of `accounts` with `keys` in account order and
/// reports the first pair (actual, expected) that differs.
pub fn remove_validator_verify_account_keys(
    accounts: RemoveValidatorAccounts,
    keys: RemoveValidatorKeys,
) -> (r: Result<(), (Pubkey, Pubkey)>)
    ensures
        keys_checked(keys_of(accounts.spec_handles()), keys.spec_pubkeys(), r),
{
    let actual = RemoveValidatorKeys::from_accounts(&accounts).pubkeys();
    let expected = keys.pubkeys();
    verify_keys(&actual, &expected)
}

/// Checks that the accounts in writable roles are writable and then that
/// the accounts in signing roles have signed; reports the first that is not.
pub fn remove_validator_verify_account_privileges(
    accounts: RemoveValidatorAccounts,
) -> (r: Result<(), (AccountHandle, PrivilegeError)>)
    ensures
        privileges_checked(
            accounts.spec_handles(),
            REMOVE_VALIDATOR_IX_SIGNERS@,
            REMOVE_VALIDATOR_IX_WRITABLES@,
            r,
        ),
{
    let handles = accounts.handles();
    verify_privileges(&handles, &REMOVE_VALIDATOR_IX_SIGNERS, &REMOVE_VALIDATOR_IX_WRITABLES)
}

pub const SET_VALIDATOR_SCORE_IX_ACCOUNTS_LEN: usize = 3;

/// Whether each account of `set_validator_score` must sign, in account order.
pub const SET_VALIDATOR_SCORE_IX_SIGNERS: [bool; 3] = [false, true, false];

/// Whether each account of `set_validator_score` must be writable, in account order.
pub const SET_VALIDATOR_SCORE_IX_WRITABLES: [bool; 3] = [true, false, true];

/// The accounts of `set_validator_score` as the runtime hands them over.
#[derive(Clone, Copy, Debug, PartialEq, Eq)]
pub struct SetValidatorScoreAccounts {
    /// Writable.
    pub state: AccountHandle,
    /// Signer.
    pub manager_authority: AccountHandle,
    /// Writable.
    pub validator_list: AccountHandle,
}

/// The addresses of the accounts of `set_validator_score`.
#[derive(Clone, Copy, Debug, PartialEq, Eq)]
pub struct SetValidatorScoreKeys {
    /// Writable.
    pub state: Pubkey,
    /// Signer.
    pub manager_authority: Pubkey,
    /// Writable.
    pub validator_list: Pubkey,
}

impl SetValidatorScoreAccounts {
    /// The accounts in account order.
    pub open spec fn spec_handles(&self) -> Seq<AccountHandle> {
        seq![self.state, self.manager_authority, self.validator_list]
    }

    /// The accounts as an array in account order.
    pub fn handles(&self) -> (r: [AccountHandle; 3])
        ensures
            r@ == self.spec_handles(),
    {
        let r = [self.state, self.manager_authority, self.validator_list];
        assert(r@ =~= self.spec_handles());
        r
    }

    /// The accounts read from an array in account order.
    pub fn from_handles(arr: [AccountHandle; 3]) -> (r: Self)
        ensures
            r.spec_handles() == arr@,
    {
        let r = SetValidatorScoreAccounts {
            state: arr[0],
            manager_authority: arr[1],
            validator_list: arr[2],
        };
        assert(r.spec_handles() =~= arr@);
        r
    }
}

impl SetValidatorScoreKeys {
    /// The addresses in account order.
    pub open spec fn spec_pubkeys(&self) -> Seq<Pubkey> {
        seq![self.state, self.manager_authority, self.validator_list]
    }

    /// The addresses as an array in account order.
    pub fn pubkeys(&self) -> (r: [Pubkey; 3])
        ensures
            r@ == self.spec_pubkeys(),
    {
        let r = [self.state, self.manager_authority, self.validator_list];
        assert(r@ =~= self.spec_pubkeys());
        r
    }

    /// The addresses read from an array in account order.
    pub fn from_pubkeys(arr: [Pubkey; 3]) -> (r: Self)
        ensures
            r.spec_pubkeys() == arr@,
    {
        let r = SetValidatorScoreKeys {
            state: arr[0],
            manager_authority: arr[1],
            validator_list: arr[2],
        };
        assert(r.spec_pubkeys() =~= arr@);
        r
    }

    /// The addresses of `accounts`.
    pub fn from_accounts(accounts: &SetValidatorScoreAccounts) -> (r: Self)
        ensures
            r.spec_pubkeys() == keys_of(accounts.spec_handles()),
    {
        let r = SetValidatorScoreKeys {
            state: accounts.state.key,
            manager_authority: accounts.manager_authority.key,
            validator_list: accounts.validator_list.key,
        };
        assert(r.spec_pubkeys() =~= keys_of(accounts.spec_handles()));
        r
    }

    /// The account list of `set_validator_score`: one entry per role, in account order,
    /// each with the fixed flags of its role.
    pub fn account_metas(&self) -> (r: Vec<AccountMeta>)
        ensures
            r@.len() == SET_VALIDATOR_SCORE_IX_ACCOUNTS_LEN,
            r@ == spec_metas(
                self.spec_pubkeys(),
                SET_VALIDATOR_SCORE_IX_SIGNERS@,
                SET_VALIDATOR_SCORE_IX_WRITABLES@,
            ),
    {
        let keys = self.pubkeys();
        account_metas(&keys, &SET_VALIDATOR_SCORE_IX_SIGNERS, &SET_VALIDATOR_SCORE_IX_WRITABLES)
    }
}

pub const SET_VALIDATOR_SCORE_IX_DISCM: [u8; 8] = [101, 41, 206, 33, 216, 111, 25, 78];

/// The arguments of `set_validator_score`.
#[derive(Clone, Copy, Debug, PartialEq, Eq)]
pub struct SetValidatorScoreIxArgs {
    pub index: u32,
    pub validator_vote: Pubkey,
    pub score: u32,
}

/// Laid out as its fields in declared order.
impl WireFormat for SetValidatorScoreIxArgs {
    open spec fn spec_encode(&self) -> Seq<u8> {
        (self.index, (self.validator_vote, self.score)).spec_encode()
    }

    open spec fn spec_parse(s: Seq<u8>) -> Result<(SetValidatorScoreIxArgs, nat), DecodeError> {
        match <(u32, (Pubkey, u32)) as WireFormat>::spec_parse(s) {
            Ok(((index, (validator_vote, score)), n)) => Ok((SetValidatorScoreIxArgs {
                index,
                validator_vote,
                score,
            }, n)),
            Err(e) => Err(e),
        }
    }

    proof fn lemma_parse_encode(&self, rest: Seq<u8>) {
        (self.index, (self.validator_vote, self.score)).lemma_parse_encode(rest);
    }

    fn encode(&self, out: &mut Vec<u8>) {
        (self.index, (self.validator_vote, self.score)).encode(out);
    }

    fn decode(
        buf: &[u8],
        pos: usize,
    ) -> (r: Result<(SetValidatorScoreIxArgs, usize), DecodeError>) {
        match <(u32, (Pubkey, u32)) as WireFormat>::decode(buf, pos) {
            Ok(((index, (validator_vote, score)), end)) => Ok((SetValidatorScoreIxArgs {
                index,
                validator_vote,
                score,
            }, end)),
            Err(e) => Err(e),
        }
    }
}

/// The data of a `set_validator_score` instruction: its discriminant, then its arguments.
#[derive(Clone, Copy, Debug, PartialEq, Eq)]
pub struct SetValidatorScoreIxData(pub SetValidatorScoreIxArgs);

impl SetValidatorScoreIxData {
    /// Reads the data of a `set_validator_score` instruction from the front of `buf`;
    /// bytes after it are left unread.
    pub fn deserialize(buf: &[u8]) -> (r: Result<Self, DecodeError>)
        ensures
            match spec_parse_tagged::<SetValidatorScoreIxArgs>(SET_VALIDATOR_SCORE_IX_DISCM, buf@) {
                Ok(args) => r == Ok::<Self, DecodeError>(SetValidatorScoreIxData(args)),
                Err(e) => r == Err::<Self, DecodeError>(e),
            },
    {
        match parse_tagged::<SetValidatorScoreIxArgs>(&SET_VALIDATOR_SCORE_IX_DISCM, buf) {
            Ok(args) => Ok(SetValidatorScoreIxData(args)),
            Err(e) => Err(e),
        }
    }

    /// Appends the discriminant of `set_validator_score` and then the arguments to `out`.
    pub fn serialize(&self, out: &mut Vec<u8>)
        ensures
            final(out)@ == old(out)@ + SET_VALIDATOR_SCORE_IX_DISCM@ + self.0.spec_encode(),
    {
        write_tagged(&SET_VALIDATOR_SCORE_IX_DISCM, &self.0, out);
    }

    /// The bytes of the instruction data.
    pub fn try_to_vec(&self) -> (r: Vec<u8>)
        ensures
            r@ == SET_VALIDATOR_SCORE_IX_DISCM@ + self.0.spec_encode(),
    {
        let mut data: Vec<u8> = Vec::new();
        self.serialize(&mut data);
        assert(data@ =~= SET_VALIDATOR_SCORE_IX_DISCM@ + self.0.spec_encode());
        data
    }
}

/// The `set_validator_score` instruction for `keys` and `args`, addressed to the program.
pub fn set_validator_score_ix(
    keys: SetValidatorScoreKeys,
    args: SetValidatorScoreIxArgs,
) -> (r: Instruction)
    ensures
        r.program_id == Pubkey(ID_BYTES),
        r.accounts@ == spec_metas(
            keys.spec_pubkeys(),
            SET_VALIDATOR_SCORE_IX_SIGNERS@,
            SET_VALIDATOR_SCORE_IX_WRITABLES@,
        ),
        r.data@ == SET_VALIDATOR_SCORE_IX_DISCM@ + args.spec_encode(),
{
    Instruction {
        program_id: Pubkey(ID_BYTES),
        accounts: keys.account_metas(),
        data: SetValidatorScoreIxData(args).try_to_vec(),
    }
}

/// Compares the addresses of `accounts` with `keys` in account order and
/// reports the first pair (actual, expected) that differs.
pub fn set_validator_score_verify_account_keys(
    accounts: SetValidatorScoreAccounts,
    keys: SetValidatorScoreKeys,
) -> (r: Result<(), (Pubkey, Pubkey)>)
    ensures
        keys_checked(keys_of(accounts.spec_handles()), keys.spec_pubkeys(), r),
{
    let actual = SetValidatorScoreKeys::from_accounts(&accounts).pubkeys();
    let expected = keys.pubkeys();
    verify_keys(&actual, &expected)
}

/// Checks that the accounts in writable roles are writable and then that
/// the accounts in signing roles have signed; reports the first that is not.
pub fn set_validator_score_verify_account_privileges(
    accounts: SetValidatorScoreAccounts,
) -> (r: Result<(), (AccountHandle, PrivilegeError)>)
    ensures
        privileges_checked(
            accounts.spec_handles(),
            SET_VALIDATOR_SCORE_IX_SIGNERS@,
            SET_VALIDATOR_SCORE_IX_WRITABLES@,
            r,
        ),
{
    let handles = accounts.handles();
    verify_privileges(&handles, &SET_VALIDATOR_SCORE_IX_SIGNERS, &SET_VALIDATOR_SCORE_IX_WRITABLES)
}

pub const CONFIG_VALIDATOR_SYSTEM_IX_ACCOUNTS_LEN: usize = 2;

/// Whether each account of `config_validator_system` must sign, in account order.
pub const CONFIG_VALIDATOR_SYSTEM_IX_SIGNERS: [bool; 2] = [false, true];

/// Whether each account of `config_validator_system` must be writable, in account order.
pub const CONFIG_VALIDATOR_SYSTEM_IX_WRITABLES: [bool; 2] = [true, false];

/// The accounts of `config_validator_system` as the runtime hands them over.
#[derive(Clone, Copy, Debug, PartialEq, Eq)]
pub struct ConfigValidatorSystemAccounts {
    /// Writable.
    pub state: AccountHandle,
    /// Signer.
    pub manager_authority: AccountHandle,
}

/// The addresses of the accounts of `config_validator_system`.
#[derive(Clone, Copy, Debug, PartialEq, Eq)]
pub struct ConfigValidatorSystemKeys {
    /// Writable.
    pub state: Pubkey,
    /// Signer.
    pub manager_authority: Pubkey,
}

impl ConfigValidatorSystemAccounts {
    /// The accounts in account order.
    pub open spec fn spec_handles(&self) -> Seq<AccountHandle> {
        seq![self.state, self.manager_authority]
    }

    /// The accounts as an array in account order.
    pub fn handles(&self) -> (r: [AccountHandle; 2])
        ensures
            r@ == self.spec_handles(),
    {
        let r = [self.state, self.manager_authority];
        assert(r@ =~= self.spec_handles());
        r
    }

    /// The accounts read from an array in account order.
    pub fn from_handles(arr: [AccountHandle; 2]) -> (r: Self)
        ensures
            r.spec_handles() == arr@,
    {
        let r = ConfigValidatorSystemAccounts { state: arr[0], manager_authority: arr[1] };
        assert(r.spec_handles() =~= arr@);
        r
    }
}

impl ConfigValidatorSystemKeys {
    /// The addresses in account order.
    pub open spec fn spec_pubkeys(&self) -> Seq<Pubkey> {
        seq![self.state, self.manager_authority]
    }

    /// The addresses as an array in account order.
    pub fn pubkeys(&self) -> (r: [Pubkey; 2])
        ensures
            r@ == self.spec_pubkeys(),
    {
        let r = [self.state, self.manager_authority];
        assert(r@ =~= self.spec_pubkeys());
        r
    }

    /// The addresses read from an array in account order.
    pub fn from_pubkeys(arr: [Pubkey; 2]) -> (r: Self)
        ensures
            r.spec_pubkeys() == arr@,
    {
        let r = ConfigValidatorSystemKeys { state: arr[0], manager_authority: arr[1] };
        assert(r.spec_pubkeys() =~= arr@);
        r
    }

    /// The addresses of `accounts`.
    pub fn from_accounts(accounts: &ConfigValidatorSystemAccounts) -> (r: Self)
        ensures
            r.spec_pubkeys() == keys_of(accounts.spec_handles()),
    {
        let r = ConfigValidatorSystemKeys {
            state: accounts.state.key,
            manager_authority: accounts.manager_authority.key,
        };
        assert(r.spec_pubkeys() =~= keys_of(accounts.spec_handles()));
        r
    }

    /// The account list of `config_validator_system`: one entry per role, in account order,
    /// each with the fixed flags of its role.
    pub fn account_metas(&self) -> (r: Vec<AccountMeta>)
        ensures
            r@.len() == CONFIG_VALIDATOR_SYSTEM_IX_ACCOUNTS_LEN,
            r@ == spec_metas(
                self.spec_pubkeys(),
                CONFIG_VALIDATOR_SYSTEM_IX_SIGNERS@,
                CONFIG_VALIDATOR_SYSTEM_IX_WRITABLES@,
            ),
    {
        let keys = self.pubkeys();
        account_metas(
            &keys,
            &CONFIG_VALIDATOR_SYSTEM_IX_SIGNERS,
            &CONFIG_VALIDATOR_SYSTEM_IX_WRITABLES,
        )
    }
}

pub const CONFIG_VALIDATOR_SYSTEM_IX_DISCM: [u8; 8] = [27, 90, 97, 209, 17, 115, 7, 40];

/// The arguments of `config_validator_system`.
#[derive(Clone, Copy, Debug, PartialEq, Eq)]
pub struct ConfigValidatorSystemIxArgs {
    pub extra_runs: u32,
}

impl WireFormat for ConfigValidatorSystemIxArgs {
    open spec fn spec_encode(&self) -> Seq<u8> {
        self.extra_runs.spec_encode()
    }

    open spec fn spec_parse(s: Seq<u8>) -> Result<(ConfigValidatorSystemIxArgs, nat), DecodeError> {
        match <u32 as WireFormat>::spec_parse(s) {
            Ok((extra_runs, n)) => Ok((ConfigValidatorSystemIxArgs { extra_runs }, n)),
            Err(e) => Err(e),
        }
    }

    proof fn lemma_parse_encode(&self, rest: Seq<u8>) {
        self.extra_runs.lemma_parse_encode(rest);
    }

    fn encode(&self, out: &mut Vec<u8>) {
        self.extra_runs.encode(out);
    }

    fn decode(
        buf: &[u8],
        pos: usize,
    ) -> (r: Result<(ConfigValidatorSystemIxArgs, usize), DecodeError>) {
        match <u32 as WireFormat>::decode(buf, pos) {
            Ok((extra_runs, end)) => Ok((ConfigValidatorSystemIxArgs { extra_runs }, end)),
            Err(e) => Err(e),
        }
    }
}

/// The data of a `config_validator_system` instruction: its discriminant, then its arguments.
#[derive(Clone, Copy, Debug, PartialEq, Eq)]
pub struct ConfigValidatorSystemIxData(pub ConfigValidatorSystemIxArgs);

impl ConfigValidatorSystemIxData {
    /// Reads the data of a `config_validator_system` instruction from the front of `buf`;
    /// bytes after it are left unread.
    pub fn deserialize(buf: &[u8]) -> (r: Result<Self, DecodeError>)
        ensures
            match spec_parse_tagged::<ConfigValidatorSystemIxArgs>(
                CONFIG_VALIDATOR_SYSTEM_IX_DISCM,
                buf@,
            ) {
                Ok(args) => r == Ok::<Self, DecodeError>(ConfigValidatorSystemIxData(args)),
                Err(e) => r == Err::<Self, DecodeError>(e),
            },
    {
        match parse_tagged::<ConfigValidatorSystemIxArgs>(&CONFIG_VALIDATOR_SYSTEM_IX_DISCM, buf) {
            Ok(args) => Ok(ConfigValidatorSystemIxData(args)),
            Err(e) => Err(e),
        }
    }

    /// Appends the discriminant of `config_validator_system` and then the arguments to `out`.
    pub fn serialize(&self, out: &mut Vec<u8>)
        ensures
            final(out)@ == old(out)@ + CONFIG_VALIDATOR_SYSTEM_IX_DISCM@ + self.0.spec_encode(),
    {
        write_tagged(&CONFIG_VALIDATOR_SYSTEM_IX_DISCM, &self.0, out);
    }

    /// The bytes of the instruction data.
    pub fn try_to_vec(&self) -> (r: Vec<u8>)
        ensures
            r@ == CONFIG_VALIDATOR_SYSTEM_IX_DISCM@ + self.0.spec_encode(),
    {
        let mut data: Vec<u8> = Vec::new();
        self.serialize(&mut data);
        assert(data@ =~= CONFIG_VALIDATOR_SYSTEM_IX_DISCM@ + self.0.spec_encode());
        data
    }
}

/// The `config_validator_system` instruction for `keys` and `args`, addressed to the program.
pub fn config_validator_system_ix(
    keys: ConfigValidatorSystemKeys,
    args: ConfigValidatorSystemIxArgs,
) -> (r: Instruction)
    ensures
        r.program_id == Pubkey(ID_BYTES),
        r.accounts@ == spec_metas(
            keys.spec_pubkeys(),
            CONFIG_VALIDATOR_SYSTEM_IX_SIGNERS@,
            CONFIG_VALIDATOR_SYSTEM_IX_WRITABLES@,
        ),
        r.data@ == CONFIG_VALIDATOR_SYSTEM_IX_DISCM@ + args.spec_encode(),
{
    Instruction {
        program_id: Pubkey(ID_BYTES),
        accounts: keys.account_metas(),
        data: ConfigValidatorSystemIxData(args).try_to_vec(),
    }
}

/// Compares the addresses of `accounts` with `keys` in account order and
/// reports the first pair (actual, expected) that differs.
pub fn config_validator_system_verify_account_keys(
    accounts: ConfigValidatorSystemAccounts,
    keys: ConfigValidatorSystemKeys,
) -> (r: Result<(), (Pubkey, Pubkey)>)
    ensures
        keys_checked(keys_of(accounts.spec_handles()), keys.spec_pubkeys(), r),
{
    let actual = ConfigValidatorSystemKeys::from_accounts(&accounts).pubkeys();
    let expected = keys.pubkeys();
    verify_keys(&actual, &expected)
}

/// Checks that the accounts in writable roles are writable and then that
/// the accounts in signing roles have signed; reports the first that is not.
pub fn config_validator_system_verify_account_privileges(
    accounts: ConfigValidatorSystemAccounts,
) -> (r: Result<(), (AccountHandle, PrivilegeError)>)
    ensures
        privileges_checked(
            accounts.spec_handles(),
            CONFIG_VALIDATOR_SYSTEM_IX_SIGNERS@,
            CONFIG_VALIDATOR_SYSTEM_IX_WRITABLES@,
            r,
        ),
{
    let handles = accounts.handles();
    verify_privileges(
        &handles,
        &CONFIG_VALIDATOR_SYSTEM_IX_SIGNERS,
        &CONFIG_VALIDATOR_SYSTEM_IX_WRITABLES,
    )
}

pub const DEPOSIT_IX_ACCOUNTS_LEN: usize = 11;

/// Whether each account of `deposit` must sign, in account order.
pub const DEPOSIT_IX_SIGNERS: [bool; 11] = [
    false, false, false, false, false, false, true, false, false, false, false,
];

/// Whether each account of `deposit` must be writable, in account order.
pub const DEPOSIT_IX_WRITABLES: [bool; 11] = [
    true, true, true, true, false, true, true, true, false, false, false,
];

/// The accounts of `deposit` as the runtime hands them over.
#[derive(Clone, Copy, Debug, PartialEq, Eq)]
pub struct DepositAccounts {
    /// Writable.
    pub state: AccountHandle,
    /// Writable.
    pub msol_mint: AccountHandle,
    /// Writable.
    pub liq_pool_sol_leg_pda: AccountHandle,
    /// Writable.
    pub liq_pool_msol_leg: AccountHandle,
    /// Read-only.
    pub liq_pool_msol_leg_authority: AccountHandle,
    /// Writable.
    pub reserve_pda: AccountHandle,
    /// Signer, writable.
    pub transfer_from: AccountHandle,
    /// Writable.
    pub mint_to: AccountHandle,
    /// Read-only.
    pub msol_mint_authority: AccountHandle,
    /// Read-only.
    pub system_program: AccountHandle,
    /// Read-only.
    pub token_program: AccountHandle,
}

/// The addresses of the accounts of `deposit`.
#[derive(Clone, Copy, Debug, PartialEq, Eq)]
pub struct DepositKeys {
    /// Writable.
    pub state: Pubkey,
    /// Writable.
    pub msol_mint: Pubkey,
    /// Writable.
    pub liq_pool_sol_leg_pda: Pubkey,
    /// Writable.
    pub liq_pool_msol_leg: Pubkey,
    /// Read-only.
    pub liq_pool_msol_leg_authority: Pubkey,
    /// Writable.
    pub reserve_pda: Pubkey,
    /// Signer, writable.
    pub transfer_from: Pubkey,
    /// Writable.
    pub mint_to: Pubkey,
    /// Read-only.
    pub msol_mint_authority: Pubkey,
    /// Read-only.
    pub system_program: Pubkey,
    /// Read-only.
    pub token_program: Pubkey,
}

impl DepositAccounts {
    /// The accounts in account order.
    pub open spec fn spec_handles(&self) -> Seq<AccountHandle> {
        seq![
            self.state,
            self.msol_mint,
            self.liq_pool_sol_leg_pda,
            self.liq_pool_msol_leg,
            self.liq_pool_msol_leg_authority,
            self.reserve_pda,
            self.transfer_from,
            self.mint_to,
            self.msol_mint_authority,
            self.system_program,
            self.token_program,
        ]
    }

    /// The accounts as an array in account order.
    pub fn handles(&self) -> (r: [AccountHandle; 11])
        ensures
            r@ == self.spec_handles(),
    {
        let r = [
            self.state,
            self.msol_mint,
            self.liq_pool_sol_leg_pda,
            self.liq_pool_msol_leg,
            self.liq_pool_msol_leg_authority,
            self.reserve_pda,
            self.transfer_from,
            self.mint_to,
            self.msol_mint_authority,
            self.system_program,
            self.token_program,
        ];
        assert(r@ =~= self.spec_handles());
        r
    }

    /// The accounts read from an array in account order.
    pub fn from_handles(arr: [AccountHandle; 11]) -> (r: Self)
        ensures
            r.spec_handles() == arr@,
    {
        let r = DepositAccounts {
            state: arr[0],
            msol_mint: arr[1],
            liq_pool_sol_leg_pda: arr[2],
            liq_pool_msol_leg: arr[3],
            liq_pool_msol_leg_authority: arr[4],
            reserve_pda: arr[5],
            transfer_from: arr[6],
            mint_to: arr[7],
            msol_mint_authority: arr[8],
            system_program: arr[9],
            token_program: arr[10],
        };
        assert(r.spec_handles() =~= arr@);
        r
    }
}

impl DepositKeys {
    /// The addresses in account order.
    pub open spec fn spec_pubkeys(&self) -> Seq<Pubkey> {
        seq![
            self.state,
            self.msol_mint,
            self.liq_pool_sol_leg_pda,
            self.liq_pool_msol_leg,
            self.liq_pool_msol_leg_authority,
            self.reserve_pda,
            self.transfer_from,
            self.mint_to,
            self.msol_mint_authority,
            self.system_program,
            self.token_program,
        ]
    }

    /// The addresses as an array in account order.
    pub fn pubkeys(&self) -> (r: [Pubkey; 11])
        ensures
            r@ == self.spec_pubkeys(),
    {
        let r = [
            self.state,
            self.msol_mint,
            self.liq_pool_sol_leg_pda,
            self.liq_pool_msol_leg,
            self.liq_pool_msol_leg_authority,
            self.reserve_pda,
            self.transfer_from,
            self.mint_to,
            self.msol_mint_authority,
            self.system_program,
            self.token_program,
        ];
        assert(r@ =~= self.spec_pubkeys());
        r
    }

    /// The addresses read from an array in account order.
    pub fn from_pubkeys(arr: [Pubkey; 11]) -> (r: Self)
        ensures
            r.spec_pubkeys() == arr@,
    {
        let r = DepositKeys {
            state: arr[0],
            msol_mint: arr[1],
            liq_pool_sol_leg_pda: arr[2],
            liq_pool_msol_leg: arr[3],
            liq_pool_msol_leg_authority: arr[4],
            reserve_pda: arr[5],
            transfer_from: arr[6],
            mint_to: arr[7],
            msol_mint_authority: arr[8],
            system_program: arr[9],
            token_program: arr[10],
        };
        assert(r.spec_pubkeys() =~= arr@);
        r
    }

    /// The addresses of `accounts`.
    pub fn from_accounts(accounts: &DepositAccounts) -> (r: Self)
        ensures
            r.spec_pubkeys() == keys_of(accounts.spec_handles()),
    {
        let r = DepositKeys {
            state: accounts.state.key,
            msol_mint: accounts.msol_mint.key,
            liq_pool_sol_leg_pda: accounts.liq_pool_sol_leg_pda.key,
            liq_pool_msol_leg: accounts.liq_pool_msol_leg.key,
            liq_pool_msol_leg_authority: accounts.liq_pool_msol_leg_authority.key,
            reserve_pda: accounts.reserve_pda.key,
            transfer_from: accounts.transfer_from.key,
            mint_to: accounts.mint_to.key,
            msol_mint_authority: accounts.msol_mint_authority.key,
            system_program: accounts.system_program.key,
            token_program: accounts.token_program.key,
        };
        assert(r.spec_pubkeys() =~= keys_of(accounts.spec_handles()));
        r
    }

    /// The account list of `deposit`: one entry per role, in account order,
    /// each with the fixed flags of its role.
    pub fn account_metas(&self) -> (r: Vec<AccountMeta>)
        ensures
            r@.len() == DEPOSIT_IX_ACCOUNTS_LEN,
            r@ == spec_metas(self.spec_pubkeys(), DEPOSIT_IX_SIGNERS@, DEPOSIT_IX_WRITABLES@),
    {
        let keys = self.pubkeys();
        account_metas(&keys, &DEPOSIT_IX_SIGNERS, &DEPOSIT_IX_WRITABLES)
    }
}

pub const DEPOSIT_IX_DISCM: [u8; 8] = [242, 35, 198, 137, 82, 225, 242, 182];

/// The arguments of `deposit`.
#[derive(Clone, Copy, Debug, PartialEq, Eq)]
pub struct DepositIxArgs {
    pub lamports: u64,
}

impl WireFormat for DepositIxArgs {
    open spec fn spec_encode(&self) -> Seq<u8> {
        self.lamports.spec_encode()
    }

    open spec fn spec_parse(s: Seq<u8>) -> Result<(DepositIxArgs, nat), DecodeError> {
        match <u64 as WireFormat>::spec_parse(s) {
            Ok((lamports, n)) => Ok((DepositIxArgs { lamports }, n)),
            Err(e) => Err(e),
        }
    }

    proof fn lemma_parse_encode(&self, rest: Seq<u8>) {
        self.lamports.lemma_parse_encode(rest);
    }

    fn encode(&self, out: &mut Vec<u8>) {
        self.lamports.encode(out);
    }

    fn decode(buf: &[u8], pos: usize) -> (r: Result<(DepositIxArgs, usize), DecodeError>) {
        match <u64 as WireFormat>::decode(buf, pos) {
            Ok((lamports, end)) => Ok((DepositIxArgs { lamports }, end)),
            Err(e) => Err(e),
        }
    }
}

/// The data of a `deposit` instruction: its discriminant, then its arguments.
#[derive(Clone, Copy, Debug, PartialEq, Eq)]
pub struct DepositIxData(pub DepositIxArgs);

impl DepositIxData {
    /// Reads the data of a `deposit` instruction from the front of `buf`;
    /// bytes after it are left unread.
    pub fn deserialize(buf: &[u8]) -> (r: Result<Self, DecodeError>)
        ensures
            match spec_parse_tagged::<DepositIxArgs>(DEPOSIT_IX_DISCM, buf@) {
                Ok(args) => r == Ok::<Self, DecodeError>(DepositIxData(args)),
                Err(e) => r == Err::<Self, DecodeError>(e),
            },
    {
        match parse_tagged::<DepositIxArgs>(&DEPOSIT_IX_DISCM, buf) {
            Ok(args) => Ok(DepositIxData(args)),
            Err(e) => Err(e),
        }
    }

    /// Appends the discriminant of `deposit` and then the arguments to `out`.
    pub fn serialize(&self, out: &mut Vec<u8>)
        ensures
            final(out)@ == old(out)@ + DEPOSIT_IX_DISCM@ + self.0.spec_encode(),
    {
        write_tagged(&DEPOSIT_IX_DISCM, &self.0, out);
    }

    /// The bytes of the instruction data.
    pub fn try_to_vec(&self) -> (r: Vec<u8>)
        ensures
            r@ == DEPOSIT_IX_DISCM@ + self.0.spec_encode(),
    {
        let mut data: Vec<u8> = Vec::new();
        self.serialize(&mut data);
        assert(data@ =~= DEPOSIT_IX_DISCM@ + self.0.spec_encode());
        data
    }
}

/// The `deposit` instruction for `keys` and `args`, addressed to the program.
pub fn deposit_ix(keys: DepositKeys, args: DepositIxArgs) -> (r: Instruction)
    ensures
        r.program_id == Pubkey(ID_BYTES),
        r.accounts@ == spec_metas(keys.spec_pubkeys(), DEPOSIT_IX_SIGNERS@, DEPOSIT_IX_WRITABLES@),
        r.data@ == DEPOSIT_IX_DISCM@ + args.spec_encode(),
{
    Instruction {
        program_id: Pubkey(ID_BYTES),
        accounts: keys.account_metas(),
        data: DepositIxData(args).try_to_vec(),
    }
}

/// Compares the addresses of `accounts` with `keys` in account order and
/// reports the first pair (actual, expected) that differs.
pub fn deposit_verify_account_keys(
    accounts: DepositAccounts,
    keys: DepositKeys,
) -> (r: Result<(), (Pubkey, Pubkey)>)
    ensures
        keys_checked(keys_of(accounts.spec_handles()), keys.spec_pubkeys(), r),
{
    let actual = DepositKeys::from_accounts(&accounts).pubkeys();
    let expected = keys.pubkeys();
    verify_keys(&actual, &expected)
}

/// Checks that the accounts in writable roles are writable and then that
/// the accounts in signing roles have signed; reports the first that is not.
pub fn deposit_verify_account_privileges(
    accounts: DepositAccounts,
) -> (r: Result<(), (AccountHandle, PrivilegeError)>)
    ensures
        privileges_checked(accounts.spec_handles(), DEPOSIT_IX_SIGNERS@, DEPOSIT_IX_WRITABLES@, r),
{
    let handles = accounts.handles();
    verify_privileges(&handles, &DEPOSIT_IX_SIGNERS, &DEPOSIT_IX_WRITABLES)
}

pub const DEPOSIT_STAKE_ACCOUNT_IX_ACCOUNTS_LEN: usize = 15;

/// Whether each account of `deposit_stake_account` must sign, in account order.
pub const DEPOSIT_STAKE_ACCOUNT_IX_SIGNERS: [bool; 15] = [
    false, false, false, false, true, false, true, false, false, false, false, false, false, false,
    false,
];

/// Whether each account of `deposit_stake_account` must be writable, in account order.
pub const DEPOSIT_STAKE_ACCOUNT_IX_WRITABLES: [bool; 15] = [
    true, true, true, true, false, true, true, true, true, false, false, false, false, false, false,
];

/// The accounts of `deposit_stake_account` as the runtime hands them over.
#[derive(Clone, Copy, Debug, PartialEq, Eq)]
pub struct DepositStakeAccountAccounts {
    /// Writable.
    pub state: AccountHandle,
    /// Writable.
    pub validator_list: AccountHandle,
    /// Writable.
    pub stake_list: AccountHandle,
    /// Writable.
    pub stake_account: AccountHandle,
    /// Signer.
    pub stake_authority: AccountHandle,
    /// Writable.
    pub duplication_flag: AccountHandle,
    /// Signer, writable.
    pub rent_payer: AccountHandle,
    /// Writable.
    pub msol_mint: AccountHandle,
    /// Writable.
    pub mint_to: AccountHandle,
    /// Read-only.
    pub msol_mint_authority: AccountHandle,
    /// Read-only.
    pub clock: AccountHandle,
    /// Read-only.
    pub rent: AccountHandle,
    /// Read-only.
    pub system_program: AccountHandle,
    /// Read-only.
    pub token_program: AccountHandle,
    /// Read-only.
    pub stake_program: AccountHandle,
}

/// The addresses of the accounts of `deposit_stake_account`.
#[derive(Clone, Copy, Debug, PartialEq, Eq)]
pub struct DepositStakeAccountKeys {
    /// Writable.
    pub state: Pubkey,
    /// Writable.
    pub validator_list: Pubkey,
    /// Writable.
    pub stake_list: Pubkey,
    /// Writable.
    pub stake_account: Pubkey,
    /// Signer.
    pub stake_authority: Pubkey,
    /// Writable.
    pub duplication_flag: Pubkey,
    /// Signer, writable.
    pub rent_payer: Pubkey,
    /// Writable.
    pub msol_mint: Pubkey,
    /// Writable.
    pub mint_to: Pubkey,
    /// Read-only.
    pub msol_mint_authority: Pubkey,
    /// Read-only.
    pub clock: Pubkey,
    /// Read-only.
    pub rent: Pubkey,
    /// Read-only.
    pub system_program: Pubkey,
    /// Read-only.
    pub token_program: Pubkey,
    /// Read-only.
    pub stake_program: Pubkey,
}

impl DepositStakeAccountAccounts {
    /// The accounts in account order.
    pub open spec fn spec_handles(&self) -> Seq<AccountHandle> {
        seq![
            self.state,
            self.validator_list,
            self.stake_list,
            self.stake_account,
            self.stake_authority,
            self.duplication_flag,
            self.rent_payer,
            self.msol_mint,
            self.mint_to,
            self.msol_mint_authority,
            self.clock,
            self.rent,
            self.system_program,
            self.token_program,
            self.stake_program,
        ]
    }

    /// The accounts as an array in account order.
    pub fn handles(&self) -> (r: [AccountHandle; 15])
        ensures
            r@ == self.spec_handles(),
    {
        let r = [
            self.state,
            self.validator_list,
            self.stake_list,
            self.stake_account,
            self.stake_authority,
            self.duplication_flag,
            self.rent_payer,
            self.msol_mint,
            self.mint_to,
            self.msol_mint_authority,
            self.clock,
            self.rent,
            self.system_program,
            self.token_program,
            self.stake_program,
        ];
        assert(r@ =~= self.spec_handles());
        r
    }

    /// The accounts read from an array in account order.
    pub fn from_handles(arr: [AccountHandle; 15]) -> (r: Self)
        ensures
            r.spec_handles() == arr@,
    {
        let r = DepositStakeAccountAccounts {
            state: arr[0],
            validator_list: arr[1],
            stake_list: arr[2],
            stake_account: arr[3],
            stake_authority: arr[4],
            duplication_flag: arr[5],
            rent_payer: arr[6],
            msol_mint: arr[7],
            mint_to: arr[8],
            msol_mint_authority: arr[9],
            clock: arr[10],
            rent: arr[11],
            system_program: arr[12],
            token_program: arr[13],
            stake_program: arr[14],
        };
        assert(r.spec_handles() =~= arr@);
        r
    }
}

impl DepositStakeAccountKeys {
    /// The addresses in account order.
    pub open spec fn spec_pubkeys(&self) -> Seq<Pubkey> {
        seq![
            self.state,
            self.validator_list,
            self.stake_list,
            self.stake_account,
            self.stake_authority,
            self.duplication_flag,
            self.rent_payer,
            self.msol_mint,
            self.mint_to,
            self.msol_mint_authority,
            self.clock,
            self.rent,
            self.system_program,
            self.token_program,
            self.stake_program,
        ]
    }

    /// The addresses as an array in account order.
    pub fn pubkeys(&self) -> (r: [Pubkey; 15])
        ensures
            r@ == self.spec_pubkeys(),
    {
        let r = [
            self.state,
            self.validator_list,
            self.stake_list,
            self.stake_account,
            self.stake_authority,
            self.duplication_flag,
            self.rent_payer,
            self.msol_mint,
            self.mint_to,
            self.msol_mint_authority,
            self.clock,
            self.rent,
            self.system_program,
            self.token_program,
            self.stake_program,
        ];
        assert(r@ =~= self.spec_pubkeys());
        r
    }

    /// The addresses read from an array in account order.
    pub fn from_pubkeys(arr: [Pubkey; 15]) -> (r: Self)
        ensures
            r.spec_pubkeys() == arr@,
    {
        let r = DepositStakeAccountKeys {
            state: arr[0],
            validator_list: arr[1],
            stake_list: arr[2],
            stake_account: arr[3],
            stake_authority: arr[4],
            duplication_flag: arr[5],
            rent_payer: arr[6],
            msol_mint: arr[7],
            mint_to: arr[8],
            msol_mint_authority: arr[9],
            clock: arr[10],
            rent: arr[11],
            system_program: arr[12],
            token_program: arr[13],
            stake_program: arr[14],
        };
        assert(r.spec_pubkeys() =~= arr@);
        r
    }

    /// The addresses of `accounts`.
    pub fn from_accounts(accounts: &DepositStakeAccountAccounts) -> (r: Self)
        ensures
            r.spec_pubkeys() == keys_of(accounts.spec_handles()),
    {
        let r = DepositStakeAccountKeys {
            state: accounts.state.key,
            validator_list: accounts.validator_list.key,
            stake_list: accounts.stake_list.key,
            stake_account: accounts.stake_account.key,
            stake_authority: accounts.stake_authority.key,
            duplication_flag: accounts.duplication_flag.key,
            rent_payer: accounts.rent_payer.key,
            msol_mint: accounts.msol_mint.key,
            mint_to: accounts.mint_to.key,
            msol_mint_authority: accounts.msol_mint_authority.key,
            clock: accounts.clock.key,
            rent: accounts.rent.key,
            system_program: accounts.system_program.key,
            token_program: accounts.token_program.key,
            stake_program: accounts.stake_program.key,
        };
        assert(r.spec_pubkeys() =~= keys_of(accounts.spec_handles()));
        r
    }

    /// The account list of `deposit_stake_account`: one entry per role, in account order,
    /// each with the fixed flags of its role.
    pub fn account_metas(&self) -> (r: Vec<AccountMeta>)
        ensures
            r@.len() == DEPOSIT_STAKE_ACCOUNT_IX_ACCOUNTS_LEN,
            r@ == spec_metas(
                self.spec_pubkeys(),
                DEPOSIT_STAKE_ACCOUNT_IX_SIGNERS@,
                DEPOSIT_STAKE_ACCOUNT_IX_WRITABLES@,
            ),
    {
        let keys = self.pubkeys();
        account_metas(&keys, &DEPOSIT_STAKE_ACCOUNT_IX_SIGNERS, &DEPOSIT_STAKE_ACCOUNT_IX_WRITABLES)
    }
}

pub const DEPOSIT_STAKE_ACCOUNT_IX_DISCM: [u8; 8] = [110, 130, 115, 41, 164, 102, 2, 59];

/// The arguments of `deposit_stake_account`.
#[derive(Clone, Copy, Debug, PartialEq, Eq)]
pub struct DepositStakeAccountIxArgs {
    pub validator_index: u32,
}

impl WireFormat for DepositStakeAccountIxArgs {
    open spec fn spec_encode(&self) -> Seq<u8> {
        self.validator_index.spec_encode()
    }

    open spec fn spec_parse(s: Seq<u8>) -> Result<(DepositStakeAccountIxArgs, nat), DecodeError> {
        match <u32 as WireFormat>::spec_parse(s) {
            Ok((validator_index, n)) => Ok((DepositStakeAccountIxArgs { validator_index }, n)),
            Err(e) => Err(e),
        }
    }

    proof fn lemma_parse_encode(&self, rest: Seq<u8>) {
        self.validator_index.lemma_parse_encode(rest);
    }

    fn encode(&self, out: &mut Vec<u8>) {
        self.validator_index.encode(out);
    }

    fn decode(
        buf: &[u8],
        pos: usize,
    ) -> (r: Result<(DepositStakeAccountIxArgs, usize), DecodeError>) {
        match <u32 as WireFormat>::decode(buf, pos) {
            Ok((validator_index, end)) => Ok((DepositStakeAccountIxArgs { validator_index }, end)),
            Err(e) => Err(e),
        }
    }
}

/// The data of a `deposit_stake_account` instruction: its discriminant, then its arguments.
#[derive(Clone, Copy, Debug, PartialEq, Eq)]
pub struct DepositStakeAccountIxData(pub DepositStakeAccountIxArgs);

impl DepositStakeAccountIxData {
    /// Reads the data of a `deposit_stake_account` instruction from the front of `buf`;
    /// bytes after it are left unread.
    pub fn deserialize(buf: &[u8]) -> (r: Result<Self, DecodeError>)
        ensures
            match spec_parse_tagged::<DepositStakeAccountIxArgs>(
                DEPOSIT_STAKE_ACCOUNT_IX_DISCM,
                buf@,
            ) {
                Ok(args) => r == Ok::<Self, DecodeError>(DepositStakeAccountIxData(args)),
                Err(e) => r == Err::<Self, DecodeError>(e),
            },
    {
        match parse_tagged::<DepositStakeAccountIxArgs>(&DEPOSIT_STAKE_ACCOUNT_IX_DISCM, buf) {
            Ok(args) => Ok(DepositStakeAccountIxData(args)),
            Err(e) => Err(e),
        }
    }

    /// Appends the discriminant of `deposit_stake_account` and then the arguments to `out`.
    pub fn serialize(&self, out: &mut Vec<u8>)
        ensures
            final(out)@ == old(out)@ + DEPOSIT_STAKE_ACCOUNT_IX_DISCM@ + self.0.spec_encode(),
    {
        write_tagged(&DEPOSIT_STAKE_ACCOUNT_IX_DISCM, &self.0, out);
    }

    /// The bytes of the instruction data.
    pub fn try_to_vec(&self) -> (r: Vec<u8>)
        ensures
            r@ == DEPOSIT_STAKE_ACCOUNT_IX_DISCM@ + self.0.spec_encode(),
    {
        let mut data: Vec<u8> = Vec::new();
        self.serialize(&mut data);
        assert(data@ =~= DEPOSIT_STAKE_ACCOUNT_IX_DISCM@ + self.0.spec_encode());
        data
    }
}

/// The `deposit_stake_account` instruction for `keys` and `args`, addressed to the program.
pub fn deposit_stake_account_ix(
    keys: DepositStakeAccountKeys,
    args: DepositStakeAccountIxArgs,
) -> (r: Instruction)
    ensures
        r.program_id == Pubkey(ID_BYTES),
        r.accounts@ == spec_metas(
            keys.spec_pubkeys(),
            DEPOSIT_STAKE_ACCOUNT_IX_SIGNERS@,
            DEPOSIT_STAKE_ACCOUNT_IX_WRITABLES@,
        ),
        r.data@ == DEPOSIT_STAKE_ACCOUNT_IX_DISCM@ + args.spec_encode(),
{
    Instruction {
        program_id: Pubkey(ID_BYTES),
        accounts: keys.account_metas(),
        data: DepositStakeAccountIxData(args).try_to_vec(),
    }
}

/// Compares the addresses of `accounts` with `keys` in account order and
/// reports the first pair (actual, expected) that differs.
pub fn deposit_stake_account_verify_account_keys(
    accounts: DepositStakeAccountAccounts,
    keys: DepositStakeAccountKeys,
) -> (r: Result<(), (Pubkey, Pubkey)>)
    ensures
        keys_checked(keys_of(accounts.spec_handles()), keys.spec_pubkeys(), r),
{
    let actual = DepositStakeAccountKeys::from_accounts(&accounts).pubkeys();
    let expected = keys.pubkeys();
    verify_keys(&actual, &expected)
}

/// Checks that the accounts in writable roles are writable and then that
/// the accounts in signing roles have signed; reports the first that is not.
pub fn deposit_stake_account_verify_account_privileges(
    accounts: DepositStakeAccountAccounts,
) -> (r: Result<(), (AccountHandle, PrivilegeError)>)
    ensures
        privileges_checked(
            accounts.spec_handles(),
            DEPOSIT_STAKE_ACCOUNT_IX_SIGNERS@,
            DEPOSIT_STAKE_ACCOUNT_IX_WRITABLES@,
            r,
        ),
{
    let handles = accounts.handles();
    verify_privileges(
        &handles,
        &DEPOSIT_STAKE_ACCOUNT_IX_SIGNERS,
        &DEPOSIT_STAKE_ACCOUNT_IX_WRITABLES,
    )
}

pub const LIQUID_UNSTAKE_IX_ACCOUNTS_LEN: usize = 10;

/// Whether each account of `liquid_unstake` must sign, in account order.
pub const LIQUID_UNSTAKE_IX_SIGNERS: [bool; 10] = [
    false, false, false, false, false, false, true, false, false, false,
];

/// Whether each account of `liquid_unstake` must be writable, in account order.
pub const LIQUID_UNSTAKE_IX_WRITABLES: [bool; 10] = [
    true, true, true, true, true, true, false, true, false, false,
];

/// The accounts of `liquid_unstake` as the runtime hands them over.
#[derive(Clone, Copy, Debug, PartialEq, Eq)]
pub struct LiquidUnstakeAccounts {
    /// Writable.
    pub state: AccountHandle,
    /// Writable.
    pub msol_mint: AccountHandle,
    /// Writable.
    pub liq_pool_sol_leg_pda: AccountHandle,
    /// Writable.
    pub liq_pool_msol_leg: AccountHandle,
    /// Writable.
    pub treasury_msol_account: AccountHandle,
    /// Writable.
    pub get_msol_from: AccountHandle,
    /// Signer.
    pub get_msol_from_authority: AccountHandle,
    /// Writable.
    pub transfer_sol_to: AccountHandle,
    /// Read-only.
    pub system_program: AccountHandle,
    /// Read-only.
    pub token_program: AccountHandle,
}

/// The addresses of the accounts of `liquid_unstake`.
#[derive(Clone, Copy, Debug, PartialEq, Eq)]
pub struct LiquidUnstakeKeys {
    /// Writable.
    pub state: Pubkey,
    /// Writable.
    pub msol_mint: Pubkey,
    /// Writable.
    pub liq_pool_sol_leg_pda: Pubkey,
    /// Writable.
    pub liq_pool_msol_leg: Pubkey,
    /// Writable.
    pub treasury_msol_account: Pubkey,
    /// Writable.
    pub get_msol_from: Pubkey,
    /// Signer.
    pub get_msol_from_authority: Pubkey,
    /// Writable.
    pub transfer_sol_to: Pubkey,
    /// Read-only.
    pub system_program: Pubkey,
    /// Read-only.
    pub token_program: Pubkey,
}

impl LiquidUnstakeAccounts {
    /// The accounts in account order.
    pub open spec fn spec_handles(&self) -> Seq<AccountHandle> {
        seq![
            self.state,
            self.msol_mint,
            self.liq_pool_sol_leg_pda,
            self.liq_pool_msol_leg,
            self.treasury_msol_account,
            self.get_msol_from,
            self.get_msol_from_authority,
            self.transfer_sol_to,
            self.system_program,
            self.token_program,
        ]
    }

    /// The accounts as an array in account order.
    pub fn handles(&self) -> (r: [AccountHandle; 10])
        ensures
            r@ == self.spec_handles(),
    {
        let r = [
            self.state,
            self.msol_mint,
            self.liq_pool_sol_leg_pda,
            self.liq_pool_msol_leg,
            self.treasury_msol_account,
            self.get_msol_from,
            self.get_msol_from_authority,
            self.transfer_sol_to,
            self.system_program,
            self.token_program,
        ];
        assert(r@ =~= self.spec_handles());
        r
    }

    /// The accounts read from an array in account order.
    pub fn from_handles(arr: [AccountHandle; 10]) -> (r: Self)
        ensures
            r.spec_handles() == arr@,
    {
        let r = LiquidUnstakeAccounts {
            state: arr[0],
            msol_mint: arr[1],
            liq_pool_sol_leg_pda: arr[2],
            liq_pool_msol_leg: arr[3],
            treasury_msol_account: arr[4],
            get_msol_from: arr[5],
            get_msol_from_authority: arr[6],
            transfer_sol_to: arr[7],
            system_program: arr[8],
            token_program: arr[9],
        };
        assert(r.spec_handles() =~= arr@);
        r
    }
}

impl LiquidUnstakeKeys {
    /// The addresses in account order.
    pub open spec fn spec_pubkeys(&self) -> Seq<Pubkey> {
        seq![
            self.state,
            self.msol_mint,
            self.liq_pool_sol_leg_pda,
            self.liq_pool_msol_leg,
            self.treasury_msol_account,
            self.get_msol_from,
            self.get_msol_from_authority,
            self.transfer_sol_to,
            self.system_program,
            self.token_program,
        ]
    }

    /// The addresses as an array in account order.
    pub fn pubkeys(&self) -> (r: [Pubkey; 10])
        ensures
            r@ == self.spec_pubkeys(),
    {
        let r = [
            self.state,
            self.msol_mint,
            self.liq_pool_sol_leg_pda,
            self.liq_pool_msol_leg,
            self.treasury_msol_account,
            self.get_msol_from,
            self.get_msol_from_authority,
            self.transfer_sol_to,
            self.system_program,
            self.token_program,
        ];
        assert(r@ =~= self.spec_pubkeys());
        r
    }

    /// The addresses read from an array in account order.
    pub fn from_pubkeys(arr: [Pubkey; 10]) -> (r: Self)
        ensures
            r.spec_pubkeys() == arr@,
    {
        let r = LiquidUnstakeKeys {
            state: arr[0],
            msol_mint: arr[1],
            liq_pool_sol_leg_pda: arr[2],
            liq_pool_msol_leg: arr[3],
            treasury_msol_account: arr[4],
            get_msol_from: arr[5],
            get_msol_from_authority: arr[6],
            transfer_sol_to: arr[7],
            system_program: arr[8],
            token_program: arr[9],
        };
        assert(r.spec_pubkeys() =~= arr@);
        r
    }

    /// The addresses of `accounts`.
    pub fn from_accounts(accounts: &LiquidUnstakeAccounts) -> (r: Self)
        ensures
            r.spec_pubkeys() == keys_of(accounts.spec_handles()),
    {
        let r = LiquidUnstakeKeys {
            state: accounts.state.key,
            msol_mint: accounts.msol_mint.key,
            liq_pool_sol_leg_pda: accounts.liq_pool_sol_leg_pda.key,
            liq_pool_msol_leg: accounts.liq_pool_msol_leg.key,
            treasury_msol_account: accounts.treasury_msol_account.key,
            get_msol_from: accounts.get_msol_from.key,
            get_msol_from_authority: accounts.get_msol_from_authority.key,
            transfer_sol_to: accounts.transfer_sol_to.key,
            system_program: accounts.system_program.key,
            token_program: accounts.token_program.key,
        };
        assert(r.spec_pubkeys() =~= keys_of(accounts.spec_handles()));
        r
    }

    /// The account list of `liquid_unstake`: one entry per role, in account order,
    /// each with the fixed flags of its role.
    pub fn account_metas(&self) -> (r: Vec<AccountMeta>)
        ensures
            r@.len() == LIQUID_UNSTAKE_IX_ACCOUNTS_LEN,
            r@ == spec_metas(
                self.spec_pubkeys(),
                LIQUID_UNSTAKE_IX_SIGNERS@,
                LIQUID_UNSTAKE_IX_WRITABLES@,
            ),
    {
        let keys = self.pubkeys();
        account_metas(&keys, &LIQUID_UNSTAKE_IX_SIGNERS, &LIQUID_UNSTAKE_IX_WRITABLES)
    }
}

pub const LIQUID_UNSTAKE_IX_DISCM: [u8; 8] = [30, 30, 119, 240, 191, 227, 12, 16];

/// The arguments of `liquid_unstake`.
#[derive(Clone, Copy, Debug, PartialEq, Eq)]
pub struct LiquidUnstakeIxArgs {
    pub msol_amount: u64,
}

impl WireFormat for LiquidUnstakeIxArgs {
    open spec fn spec_encode(&self) -> Seq<u8> {
        self.msol_amount.spec_encode()
    }

    open spec fn spec_parse(s: Seq<u8>) -> Result<(LiquidUnstakeIxArgs, nat), DecodeError> {
        match <u64 as WireFormat>::spec_parse(s) {
            Ok((msol_amount, n)) => Ok((LiquidUnstakeIxArgs { msol_amount }, n)),
            Err(e) => Err(e),
        }
    }

    proof fn lemma_parse_encode(&self, rest: Seq<u8>) {
        self.msol_amount.lemma_parse_encode(rest);
    }

    fn encode(&self, out: &mut Vec<u8>) {
        self.msol_amount.encode(out);
    }

    fn decode(buf: &[u8], pos: usize) -> (r: Result<(LiquidUnstakeIxArgs, usize), DecodeError>) {
        match <u64 as WireFormat>::decode(buf, pos) {
            Ok((msol_amount, end)) => Ok((LiquidUnstakeIxArgs { msol_amount }, end)),
            Err(e) => Err(e),
        }
    }
}

/// The data of a `liquid_unstake` instruction: its discriminant, then its arguments.
#[derive(Clone, Copy, Debug, PartialEq, Eq)]
pub struct LiquidUnstakeIxData(pub LiquidUnstakeIxArgs);

impl LiquidUnstakeIxData {
    /// Reads the data of a `liquid_unstake` instruction from the front of `buf`;
    /// bytes after it are left unread.
    pub fn deserialize(buf: &[u8]) -> (r: Result<Self, DecodeError>)
        ensures
            match spec_parse_tagged::<LiquidUnstakeIxArgs>(LIQUID_UNSTAKE_IX_DISCM, buf@) {
                Ok(args) => r == Ok::<Self, DecodeError>(LiquidUnstakeIxData(args)),
                Err(e) => r == Err::<Self, DecodeError>(e),
            },
    {
        match parse_tagged::<LiquidUnstakeIxArgs>(&LIQUID_UNSTAKE_IX_DISCM, buf) {
            Ok(args) => Ok(LiquidUnstakeIxData(args)),
            Err(e) => Err(e),
        }
    }

    /// Appends the discriminant of `liquid_unstake` and then the arguments to `out`.
    pub fn serialize(&self, out: &mut Vec<u8>)
        ensures
            final(out)@ == old(out)@ + LIQUID_UNSTAKE_IX_DISCM@ + self.0.spec_encode(),
    {
        write_tagged(&LIQUID_UNSTAKE_IX_DISCM, &self.0, out);
    }

    /// The bytes of the instruction data.
    pub fn try_to_vec(&self) -> (r: Vec<u8>)
        ensures
            r@ == LIQUID_UNSTAKE_IX_DISCM@ + self.0.spec_encode(),
    {
        let mut data: Vec<u8> = Vec::new();
        self.serialize(&mut data);
        assert(data@ =~= LIQUID_UNSTAKE_IX_DISCM@ + self.0.spec_encode());
        data
    }
}

/// The `liquid_unstake` instruction for `keys` and `args`, addressed to the program.
pub fn liquid_unstake_ix(keys: LiquidUnstakeKeys, args: LiquidUnstakeIxArgs) -> (r: Instruction)
    ensures
        r.program_id == Pubkey(ID_BYTES),
        r.accounts@ == spec_metas(
            keys.spec_pubkeys(),
            LIQUID_UNSTAKE_IX_SIGNERS@,
            LIQUID_UNSTAKE_IX_WRITABLES@,
        ),
        r.data@ == LIQUID_UNSTAKE_IX_DISCM@ + args.spec_encode(),
{
    Instruction {
        program_id: Pubkey(ID_BYTES),
        accounts: keys.account_metas(),
        data: LiquidUnstakeIxData(args).try_to_vec(),
    }
}

/// Compares the addresses of `accounts` with `keys` in account order and
/// reports the first pair (actual, expected) that differs.
pub fn liquid_unstake_verify_account_keys(
    accounts: LiquidUnstakeAccounts,
    keys: LiquidUnstakeKeys,
) -> (r: Result<(), (Pubkey, Pubkey)>)
    ensures
        keys_checked(keys_of(accounts.spec_handles()), keys.spec_pubkeys(), r),
{
    let actual = LiquidUnstakeKeys::from_accounts(&accounts).pubkeys();
    let expected = keys.pubkeys();
    verify_keys(&actual, &expected)
}

/// Checks that the accounts in writable roles are writable and then that
/// the accounts in signing roles have signed; reports the first that is not.
pub fn liquid_unstake_verify_account_privileges(
    accounts: LiquidUnstakeAccounts,
) -> (r: Result<(), (AccountHandle, PrivilegeError)>)
    ensures
        privileges_checked(
            accounts.spec_handles(),
            LIQUID_UNSTAKE_IX_SIGNERS@,
            LIQUID_UNSTAKE_IX_WRITABLES@,
            r,
        ),
{
    let handles = accounts.handles();
    verify_privileges(&handles, &LIQUID_UNSTAKE_IX_SIGNERS, &LIQUID_UNSTAKE_IX_WRITABLES)
}

pub const ADD_LIQUIDITY_IX_ACCOUNTS_LEN: usize = 9;

/// Whether each account of `add_liquidity` must sign, in account order.
pub const ADD_LIQUIDITY_IX_SIGNERS: [bool; 9] = [
    false, false, false, false, false, true, false, false, false,
];

/// Whether each account of `add_liquidity` must be writable, in account order.
pub const ADD_LIQUIDITY_IX_WRITABLES: [bool; 9] = [
    true, true, false, false, true, true, true, false, false,
];

/// The accounts of `add_liquidity` as the runtime hands them over.
#[derive(Clone, Copy, Debug, PartialEq, Eq)]
pub struct AddLiquidityAccounts {
    /// Writable.
    pub state: AccountHandle,
    /// Writable.
    pub lp_mint: AccountHandle,
    /// Read-only.
    pub lp_mint_authority: AccountHandle,
    /// Read-only.
    pub liq_pool_msol_leg: AccountHandle,
    /// Writable.
    pub liq_pool_sol_leg_pda: AccountHandle,
    /// Signer, writable.
    pub transfer_from: AccountHandle,
    /// Writable.
    pub mint_to: AccountHandle,
    /// Read-only.
    pub system_program: AccountHandle,
    /// Read-only.
    pub token_program: AccountHandle,
}

/// The addresses of the accounts of `add_liquidity`.
#[derive(Clone, Copy, Debug, PartialEq, Eq)]
pub struct AddLiquidityKeys {
    /// Writable.
    pub state: Pubkey,
    /// Writable.
    pub lp_mint: Pubkey,
    /// Read-only.
    pub lp_mint_authority: Pubkey,
    /// Read-only.
    pub liq_pool_msol_leg: Pubkey,
    /// Writable.
    pub liq_pool_sol_leg_pda: Pubkey,
    /// Signer, writable.
    pub transfer_from: Pubkey,
    /// Writable.
    pub mint_to: Pubkey,
    /// Read-only.
    pub system_program: Pubkey,
    /// Read-only.
    pub token_program: Pubkey,
}

impl AddLiquidityAccounts {
    /// The accounts in account order.
    pub open spec fn spec_handles(&self) -> Seq<AccountHandle> {
        seq![
            self.state,
            self.lp_mint,
            self.lp_mint_authority,
            self.liq_pool_msol_leg,
            self.liq_pool_sol_leg_pda,
            self.transfer_from,
            self.mint_to,
            self.system_program,
            self.token_program,
        ]
    }

    /// The accounts as an array in account order.
    pub fn handles(&self) -> (r: [AccountHandle; 9])
        ensures
            r@ == self.spec_handles(),
    {
        let r = [
            self.state,
            self.lp_mint,
            self.lp_mint_authority,
            self.liq_pool_msol_leg,
            self.liq_pool_sol_leg_pda,
            self.transfer_from,
            self.mint_to,
            self.system_program,
            self.token_program,
        ];
        assert(r@ =~= self.spec_handles());
        r
    }

    /// The accounts read from an array in account order.
    pub fn from_handles(arr: [AccountHandle; 9]) -> (r: Self)
        ensures
            r.spec_handles() == arr@,
    {
        let r = AddLiquidityAccounts {
            state: arr[0],
            lp_mint: arr[1],
            lp_mint_authority: arr[2],
            liq_pool_msol_leg: arr[3],
            liq_pool_sol_leg_pda: arr[4],
            transfer_from: arr[5],
            mint_to: arr[6],
            system_program: arr[7],
            token_program: arr[8],
        };
        assert(r.spec_handles() =~= arr@);
        r
    }
}

impl AddLiquidityKeys {
    /// The addresses in account order.
    pub open spec fn spec_pubkeys(&self) -> Seq<Pubkey> {
        seq![
            self.state,
            self.lp_mint,
            self.lp_mint_authority,
            self.liq_pool_msol_leg,
            self.liq_pool_sol_leg_pda,
            self.transfer_from,
            self.mint_to,
            self.system_program,
            self.token_program,
        ]
    }

    /// The addresses as an array in account order.
    pub fn pubkeys(&self) -> (r: [Pubkey; 9])
        ensures
            r@ == self.spec_pubkeys(),
    {
        let r = [
            self.state,
            self.lp_mint,
            self.lp_mint_authority,
            self.liq_pool_msol_leg,
            self.liq_pool_sol_leg_pda,
            self.transfer_from,
            self.mint_to,
            self.system_program,
            self.token_program,
        ];
        assert(r@ =~= self.spec_pubkeys());
        r
    }

    /// The addresses read from an array in account order.
    pub fn from_pubkeys(arr: [Pubkey; 9]) -> (r: Self)
        ensures
            r.spec_pubkeys() == arr@,
    {
        let r = AddLiquidityKeys {
            state: arr[0],
            lp_mint: arr[1],
            lp_mint_authority: arr[2],
            liq_pool_msol_leg: arr[3],
            liq_pool_sol_leg_pda: arr[4],
            transfer_from: arr[5],
            mint_to: arr[6],
            system_program: arr[7],
            token_program: arr[8],
        };
        assert(r.spec_pubkeys() =~= arr@);
        r
    }

    /// The addresses of `accounts`.
    pub fn from_accounts(accounts: &AddLiquidityAccounts) -> (r: Self)
        ensures
            r.spec_pubkeys() == keys_of(accounts.spec_handles()),
    {
        let r = AddLiquidityKeys {
            state: accounts.state.key,
            lp_mint: accounts.lp_mint.key,
            lp_mint_authority: accounts.lp_mint_authority.key,
            liq_pool_msol_leg: accounts.liq_pool_msol_leg.key,
            liq_pool_sol_leg_pda: accounts.liq_pool_sol_leg_pda.key,
            transfer_from: accounts.transfer_from.key,
            mint_to: accounts.mint_to.key,
            system_program: accounts.system_program.key,
            token_program: accounts.token_program.key,
        };
        assert(r.spec_pubkeys() =~= keys_of(accounts.spec_handles()));
        r
    }

    /// The account list of `add_liquidity`: one entry per role, in account order,
    /// each with the fixed flags of its role.
    pub fn account_metas(&self) -> (r: Vec<AccountMeta>)
        ensures
            r@.len() == ADD_LIQUIDITY_IX_ACCOUNTS_LEN,
            r@ == spec_metas(
                self.spec_pubkeys(),
                ADD_LIQUIDITY_IX_SIGNERS@,
                ADD_LIQUIDITY_IX_WRITABLES@,
            ),
    {
        let keys = self.pubkeys();
        account_metas(&keys, &ADD_LIQUIDITY_IX_SIGNERS, &ADD_LIQUIDITY_IX_WRITABLES)
    }
}

pub const ADD_LIQUIDITY_IX_DISCM: [u8; 8] = [181, 157, 89, 67, 143, 182, 52, 72];

/// The arguments of `add_liquidity`.
#[derive(Clone, Copy, Debug, PartialEq, Eq)]
pub struct AddLiquidityIxArgs {
    pub lamports: u64,
}

impl WireFormat for AddLiquidityIxArgs {
    open spec fn spec_encode(&self) -> Seq<u8> {
        self.lamports.spec_encode()
    }

    open spec fn spec_parse(s: Seq<u8>) -> Result<(AddLiquidityIxArgs, nat), DecodeError> {
        match <u64 as WireFormat>::spec_parse(s) {
            Ok((lamports, n)) => Ok((AddLiquidityIxArgs { lamports }, n)),
            Err(e) => Err(e),
        }
    }

    proof fn lemma_parse_encode(&self, rest: Seq<u8>) {
        self.lamports.lemma_parse_encode(rest);
    }

    fn encode(&self, out: &mut Vec<u8>) {
        self.lamports.encode(out);
    }

    fn decode(buf: &[u8], pos: usize) -> (r: Result<(AddLiquidityIxArgs, usize), DecodeError>) {
        match <u64 as WireFormat>::decode(buf, pos) {
            Ok((lamports, end)) => Ok((AddLiquidityIxArgs { lamports }, end)),
            Err(e) => Err(e),
        }
    }
}

/// The data of a `add_liquidity` instruction: its discriminant, then its arguments.
#[derive(Clone, Copy, Debug, PartialEq, Eq)]
pub struct AddLiquidityIxData(pub AddLiquidityIxArgs);

impl AddLiquidityIxData {
    /// Reads the data of a `add_liquidity` instruction from the front of `buf`;
    /// bytes after it are left unread.
    pub fn deserialize(buf: &[u8]) -> (r: Result<Self, DecodeError>)
        ensures
            match spec_parse_tagged::<AddLiquidityIxArgs>(ADD_LIQUIDITY_IX_DISCM, buf@) {
                Ok(args) => r == Ok::<Self, DecodeError>(AddLiquidityIxData(args)),
                Err(e) => r == Err::<Self, DecodeError>(e),
            },
    {
        match parse_tagged::<AddLiquidityIxArgs>(&ADD_LIQUIDITY_IX_DISCM, buf) {
            Ok(args) => Ok(AddLiquidityIxData(args)),
            Err(e) => Err(e),
        }
    }

    /// Appends the discriminant of `add_liquidity` and then the arguments to `out`.
    pub fn serialize(&self, out: &mut Vec<u8>)
        ensures
            final(out)@ == old(out)@ + ADD_LIQUIDITY_IX_DISCM@ + self.0.spec_encode(),
    {
        write_tagged(&ADD_LIQUIDITY_IX_DISCM, &self.0, out);
    }

    /// The bytes of the instruction data.
    pub fn try_to_vec(&self) -> (r: Vec<u8>)
        ensures
            r@ == ADD_LIQUIDITY_IX_DISCM@ + self.0.spec_encode(),
    {
        let mut data: Vec<u8> = Vec::new();
        self.serialize(&mut data);
        assert(data@ =~= ADD_LIQUIDITY_IX_DISCM@ + self.0.spec_encode());
        data
    }
}

/// The `add_liquidity` instruction for `keys` and `args`, addressed to the program.
pub fn add_liquidity_ix(keys: AddLiquidityKeys, args: AddLiquidityIxArgs) -> (r: Instruction)
    ensures
        r.program_id == Pubkey(ID_BYTES),
        r.accounts@ == spec_metas(
            keys.spec_pubkeys(),
            ADD_LIQUIDITY_IX_SIGNERS@,
            ADD_LIQUIDITY_IX_WRITABLES@,
        ),
        r.data@ == ADD_LIQUIDITY_IX_DISCM@ + args.spec_encode(),
{
    Instruction {
        program_id: Pubkey(ID_BYTES),
        accounts: keys.account_metas(),
        data: AddLiquidityIxData(args).try_to_vec(),
    }
}

/// Compares the addresses of `accounts` with `keys` in account order and
/// reports the first pair (actual, expected) that differs.
pub fn add_liquidity_verify_account_keys(
    accounts: AddLiquidityAccounts,
    keys: AddLiquidityKeys,
) -> (r: Result<(), (Pubkey, Pubkey)>)
    ensures
        keys_checked(keys_of(accounts.spec_handles()), keys.spec_pubkeys(), r),
{
    let actual = AddLiquidityKeys::from_accounts(&accounts).pubkeys();
    let expected = keys.pubkeys();
    verify_keys(&actual, &expected)
}

/// Checks that the accounts in writable roles are writable and then that
/// the accounts in signing roles have signed; reports the first that is not.
pub fn add_liquidity_verify_account_privileges(
    accounts: AddLiquidityAccounts,
) -> (r: Result<(), (AccountHandle, PrivilegeError)>)
    ensures
        privileges_checked(
            accounts.spec_handles(),
            ADD_LIQUIDITY_IX_SIGNERS@,
            ADD_LIQUIDITY_IX_WRITABLES@,
            r,
        ),
{
    let handles = accounts.handles();
    verify_privileges(&handles, &ADD_LIQUIDITY_IX_SIGNERS, &ADD_LIQUIDITY_IX_WRITABLES)
}

pub const REMOVE_LIQUIDITY_IX_ACCOUNTS_LEN: usize = 11;

/// Whether each account of `remove_liquidity` must sign, in account order.
pub const REMOVE_LIQUIDITY_IX_SIGNERS: [bool; 11] = [
    false, false, false, true, false, false, false, false, false, false, false,
];

/// Whether each account of `remove_liquidity` must be writable, in account order.
pub const REMOVE_LIQUIDITY_IX_WRITABLES: [bool; 11] = [
    true, true, true, false, true, true, true, true, false, false, false,
];

/// The accounts of `remove_liquidity` as the runtime hands them over.
#[derive(Clone, Copy, Debug, PartialEq, Eq)]
pub struct RemoveLiquidityAccounts {
    /// Writable.
    pub state: AccountHandle,
    /// Writable.
    pub lp_mint: AccountHandle,
    /// Writable.
    pub burn_from: AccountHandle,
    /// Signer.
    pub burn_from_authority: AccountHandle,
    /// Writable.
    pub transfer_sol_to: AccountHandle,
    /// Writable.
    pub transfer_msol_to: AccountHandle,
    /// Writable.
    pub liq_pool_sol_leg_pda: AccountHandle,
    /// Writable.
    pub liq_pool_msol_leg: AccountHandle,
    /// Read-only.
    pub liq_pool_msol_leg_authority: AccountHandle,
    /// Read-only.
    pub system_program: AccountHandle,
    /// Read-only.
    pub token_program: AccountHandle,
}

/// The addresses of the accounts of `remove_liquidity`.
#[derive(Clone, Copy, Debug, PartialEq, Eq)]
pub struct RemoveLiquidityKeys {
    /// Writable.
    pub state: Pubkey,
    /// Writable.
    pub lp_mint: Pubkey,
    /// Writable.
    pub burn_from: Pubkey,
    /// Signer.
    pub burn_from_authority: Pubkey,
    /// Writable.
    pub transfer_sol_to: Pubkey,
    /// Writable.
    pub transfer_msol_to: Pubkey,
    /// Writable.
    pub liq_pool_sol_leg_pda: Pubkey,
    /// Writable.
    pub liq_pool_msol_leg: Pubkey,
    /// Read-only.
    pub liq_pool_msol_leg_authority: Pubkey,
    /// Read-only.
    pub system_program: Pubkey,
    /// Read-only.
    pub token_program: Pubkey,
}

impl RemoveLiquidityAccounts {
    /// The accounts in account order.
    pub open spec fn spec_handles(&self) -> Seq<AccountHandle> {
        seq![
            self.state,
            self.lp_mint,
            self.burn_from,
            self.burn_from_authority,
            self.transfer_sol_to,
            self.transfer_msol_to,
            self.liq_pool_sol_leg_pda,
            self.liq_pool_msol_leg,
            self.liq_pool_msol_leg_authority,
            self.system_program,
            self.token_program,
        ]
    }

    /// The accounts as an array in account order.
    pub fn handles(&self) -> (r: [AccountHandle; 11])
        ensures
            r@ == self.spec_handles(),
    {
        let r = [
            self.state,
            self.lp_mint,
            self.burn_from,
            self.burn_from_authority,
            self.transfer_sol_to,
            self.transfer_msol_to,
            self.liq_pool_sol_leg_pda,
            self.liq_pool_msol_leg,
            self.liq_pool_msol_leg_authority,
            self.system_program,
            self.token_program,
        ];
        assert(r@ =~= self.spec_handles());
        r
    }

    /// The accounts read from an array in account order.
    pub fn from_handles(arr: [AccountHandle; 11]) -> (r: Self)
        ensures
            r.spec_handles() == arr@,
    {
        let r = RemoveLiquidityAccounts {
            state: arr[0],
            lp_mint: arr[1],
            burn_from: arr[2],
            burn_from_authority: arr[3],
            transfer_sol_to: arr[4],
            transfer_msol_to: arr[5],
            liq_pool_sol_leg_pda: arr[6],
            liq_pool_msol_leg: arr[7],
            liq_pool_msol_leg_authority: arr[8],
            system_program: arr[9],
            token_program: arr[10],
        };
        assert(r.spec_handles() =~= arr@);
        r
    }
}

impl RemoveLiquidityKeys {
    /// The addresses in account order.
    pub open spec fn spec_pubkeys(&self) -> Seq<Pubkey> {
        seq![
            self.state,
            self.lp_mint,
            self.burn_from,
            self.burn_from_authority,
            self.transfer_sol_to,
            self.transfer_msol_to,
            self.liq_pool_sol_leg_pda,
            self.liq_pool_msol_leg,
            self.liq_pool_msol_leg_authority,
            self.system_program,
            self.token_program,
        ]
    }

    /// The addresses as an array in account order.
    pub fn pubkeys(&self) -> (r: [Pubkey; 11])
        ensures
            r@ == self.spec_pubkeys(),
    {
        let r = [
            self.state,
            self.lp_mint,
            self.burn_from,
            self.burn_from_authority,
            self.transfer_sol_to,
            self.transfer_msol_to,
            self.liq_pool_sol_leg_pda,
            self.liq_pool_msol_leg,
            self.liq_pool_msol_leg_authority,
            self.system_program,
            self.token_program,
        ];
        assert(r@ =~= self.spec_pubkeys());
        r
    }

    /// The addresses read from an array in account order.
    pub fn from_pubkeys(arr: [Pubkey; 11]) -> (r: Self)
        ensures
            r.spec_pubkeys() == arr@,
    {
        let r = RemoveLiquidityKeys {
            state: arr[0],
            lp_mint: arr[1],
            burn_from: arr[2],
            burn_from_authority: arr[3],
            transfer_sol_to: arr[4],
            transfer_msol_to: arr[5],
            liq_pool_sol_leg_pda: arr[6],
            liq_pool_msol_leg: arr[7],
            liq_pool_msol_leg_authority: arr[8],
            system_program: arr[9],
            token_program: arr[10],
        };
        assert(r.spec_pubkeys() =~= arr@);
        r
    }

    /// The addresses of `accounts`.
    pub fn from_accounts(accounts: &RemoveLiquidityAccounts) -> (r: Self)
        ensures
            r.spec_pubkeys() == keys_of(accounts.spec_handles()),
    {
        let r = RemoveLiquidityKeys {
            state: accounts.state.key,
            lp_mint: accounts.lp_mint.key,
            burn_from: accounts.burn_from.key,
            burn_from_authority: accounts.burn_from_authority.key,
            transfer_sol_to: accounts.transfer_sol_to.key,
            transfer_msol_to: accounts.transfer_msol_to.key,
            liq_pool_sol_leg_pda: accounts.liq_pool_sol_leg_pda.key,
            liq_pool_msol_leg: accounts.liq_pool_msol_leg.key,
            liq_pool_msol_leg_authority: accounts.liq_pool_msol_leg_authority.key,
            system_program: accounts.system_program.key,
            token_program: accounts.token_program.key,
        };
        assert(r.spec_pubkeys() =~= keys_of(accounts.spec_handles()));
        r
    }

    /// The account list of `remove_liquidity`: one entry per role, in account order,
    /// each with the fixed flags of its role.
    pub fn account_metas(&self) -> (r: Vec<AccountMeta>)
        ensures
            r@.len() == REMOVE_LIQUIDITY_IX_ACCOUNTS_LEN,
            r@ == spec_metas(
                self.spec_pubkeys(),
                REMOVE_LIQUIDITY_IX_SIGNERS@,
                REMOVE_LIQUIDITY_IX_WRITABLES@,
            ),
    {
        let keys = self.pubkeys();
        account_metas(&keys, &REMOVE_LIQUIDITY_IX_SIGNERS, &REMOVE_LIQUIDITY_IX_WRITABLES)
    }
}

pub const REMOVE_LIQUIDITY_IX_DISCM: [u8; 8] = [80, 85, 209, 72, 24, 206, 177, 108];

/// The arguments of `remove_liquidity`.
#[derive(Clone, Copy, Debug, PartialEq, Eq)]
pub struct RemoveLiquidityIxArgs {
    pub tokens: u64,
}

impl WireFormat for RemoveLiquidityIxArgs {
    open spec fn spec_encode(&self) -> Seq<u8> {
        self.tokens.spec_encode()
    }

    open spec fn spec_parse(s: Seq<u8>) -> Result<(RemoveLiquidityIxArgs, nat), DecodeError> {
        match <u64 as WireFormat>::spec_parse(s) {
            Ok((tokens, n)) => Ok((RemoveLiquidityIxArgs { tokens }, n)),
            Err(e) => Err(e),
        }
    }

    proof fn lemma_parse_encode(&self, rest: Seq<u8>) {
        self.tokens.lemma_parse_encode(rest);
    }

    fn encode(&self, out: &mut Vec<u8>) {
        self.tokens.encode(out);
    }

    fn decode(buf: &[u8], pos: usize) -> (r: Result<(RemoveLiquidityIxArgs, usize), DecodeError>) {
        match <u64 as WireFormat>::decode(buf, pos) {
            Ok((tokens, end)) => Ok((RemoveLiquidityIxArgs { tokens }, end)),
            Err(e) => Err(e),
        }
    }
}

/// The data of a `remove_liquidity` instruction: its discriminant, then its arguments.
#[derive(Clone, Copy, Debug, PartialEq, Eq)]
pub struct RemoveLiquidityIxData(pub RemoveLiquidityIxArgs);

impl RemoveLiquidityIxData {
    /// Reads the data of a `remove_liquidity` instruction from the front of `buf`;
    /// bytes after it are left unread.
    pub fn deserialize(buf: &[u8]) -> (r: Result<Self, DecodeError>)
        ensures
            match spec_parse_tagged::<RemoveLiquidityIxArgs>(REMOVE_LIQUIDITY_IX_DISCM, buf@) {
                Ok(args) => r == Ok::<Self, DecodeError>(RemoveLiquidityIxData(args)),
                Err(e) => r == Err::<Self, DecodeError>(e),
            },
    {
        match parse_tagged::<RemoveLiquidityIxArgs>(&REMOVE_LIQUIDITY_IX_DISCM, buf) {
            Ok(args) => Ok(RemoveLiquidityIxData(args)),
            Err(e) => Err(e),
        }
    }

    /// Appends the discriminant of `remove_liquidity` and then the arguments to `out`.
    pub fn serialize(&self, out: &mut Vec<u8>)
        ensures
            final(out)@ == old(out)@ + REMOVE_LIQUIDITY_IX_DISCM@ + self.0.spec_encode(),
    {
        write_tagged(&REMOVE_LIQUIDITY_IX_DISCM, &self.0, out);
    }

    /// The bytes of the instruction data.
    pub fn try_to_vec(&self) -> (r: Vec<u8>)
        ensures
            r@ == REMOVE_LIQUIDITY_IX_DISCM@ + self.0.spec_encode(),
    {
        let mut data: Vec<u8> = Vec::new();
        self.serialize(&mut data);
        assert(data@ =~= REMOVE_LIQUIDITY_IX_DISCM@ + self.0.spec_encode());
        data
    }
}

/// The `remove_liquidity` instruction for `keys` and `args`, addressed to the program.
pub fn remove_liquidity_ix(
    keys: RemoveLiquidityKeys,
    args: RemoveLiquidityIxArgs,
) -> (r: Instruction)
    ensures
        r.program_id == Pubkey(ID_BYTES),
        r.accounts@ == spec_metas(
            keys.spec_pubkeys(),
            REMOVE_LIQUIDITY_IX_SIGNERS@,
            REMOVE_LIQUIDITY_IX_WRITABLES@,
        ),
        r.data@ == REMOVE_LIQUIDITY_IX_DISCM@ + args.spec_encode(),
{
    Instruction {
        program_id: Pubkey(ID_BYTES),
        accounts: keys.account_metas(),
        data: RemoveLiquidityIxData(args).try_to_vec(),
    }
}

/// Compares the addresses of `accounts` with `keys` in account order and
/// reports the first pair (actual, expected) that differs.
pub fn remove_liquidity_verify_account_keys(
    accounts: RemoveLiquidityAccounts,
    keys: RemoveLiquidityKeys,
) -> (r: Result<(), (Pubkey, Pubkey)>)
    ensures
        keys_checked(keys_of(accounts.spec_handles()), keys.spec_pubkeys(), r),
{
    let actual = RemoveLiquidityKeys::from_accounts(&accounts).pubkeys();
    let expected = keys.pubkeys();
    verify_keys(&actual, &expected)
}

/// Checks that the accounts in writable roles are writable and then that
/// the accounts in signing roles have signed; reports the first that is not.
pub fn remove_liquidity_verify_account_privileges(
    accounts: RemoveLiquidityAccounts,
) -> (r: Result<(), (AccountHandle, PrivilegeError)>)
    ensures
        privileges_checked(
            accounts.spec_handles(),
            REMOVE_LIQUIDITY_IX_SIGNERS@,
            REMOVE_LIQUIDITY_IX_WRITABLES@,
            r,
        ),
{
    let handles = accounts.handles();
    verify_privileges(&handles, &REMOVE_LIQUIDITY_IX_SIGNERS, &REMOVE_LIQUIDITY_IX_WRITABLES)
}

pub const CONFIG_LP_IX_ACCOUNTS_LEN: usize = 2;

/// Whether each account of `config_lp` must sign, in account order.
pub const CONFIG_LP_IX_SIGNERS: [bool; 2] = [false, true];

/// Whether each account of `config_lp` must be writable, in account order.
pub const CONFIG_LP_IX_WRITABLES: [bool; 2] = [true, false];

/// The accounts of `config_lp` as the runtime hands them over.
#[derive(Clone, Copy, Debug, PartialEq, Eq)]
pub struct ConfigLpAccounts {
    /// Writable.
    pub state: AccountHandle,
    /// Signer.
    pub admin_authority: AccountHandle,
}

/// The addresses of the accounts of `config_lp`.
#[derive(Clone, Copy, Debug, PartialEq, Eq)]
pub struct ConfigLpKeys {
    /// Writable.
    pub state: Pubkey,
    /// Signer.
    pub admin_authority: Pubkey,
}

impl ConfigLpAccounts {
    /// The accounts in account order.
    pub open spec fn spec_handles(&self) -> Seq<AccountHandle> {
        seq![self.state, self.admin_authority]
    }

    /// The accounts as an array in account order.
    pub fn handles(&self) -> (r: [AccountHandle; 2])
        ensures
            r@ == self.spec_handles(),
    {
        let r = [self.state, self.admin_authority];
        assert(r@ =~= self.spec_handles());
        r
    }

    /// The accounts read from an array in account order.
    pub fn from_handles(arr: [AccountHandle; 2]) -> (r: Self)
        ensures
            r.spec_handles() == arr@,
    {
        let r = ConfigLpAccounts { state: arr[0], admin_authority: arr[1] };
        assert(r.spec_handles() =~= arr@);
        r
    }
}

impl ConfigLpKeys {
    /// The addresses in account order.
    pub open spec fn spec_pubkeys(&self) -> Seq<Pubkey> {
        seq![self.state, self.admin_authority]
    }

    /// The addresses as an array in account order.
    pub fn pubkeys(&self) -> (r: [Pubkey; 2])
        ensures
            r@ == self.spec_pubkeys(),
    {
        let r = [self.state, self.admin_authority];
        assert(r@ =~= self.spec_pubkeys());
        r
    }

    /// The addresses read from an array in account order.
    pub fn from_pubkeys(arr: [Pubkey; 2]) -> (r: Self)
        ensures
            r.spec_pubkeys() == arr@,
    {
        let r = ConfigLpKeys { state: arr[0], admin_authority: arr[1] };
        assert(r.spec_pubkeys() =~= arr@);
        r
    }

    /// The addresses of `accounts`.
    pub fn from_accounts(accounts: &ConfigLpAccounts) -> (r: Self)
        ensures
            r.spec_pubkeys() == keys_of(accounts.spec_handles()),
    {
        let r = ConfigLpKeys {
            state: accounts.state.key,
            admin_authority: accounts.admin_authority.key,
        };
        assert(r.spec_pubkeys() =~= keys_of(accounts.spec_handles()));
        r
    }

    /// The account list of `config_lp`: one entry per role, in account order,
    /// each with the fixed flags of its role.
    pub fn account_metas(&self) -> (r: Vec<AccountMeta>)
        ensures
            r@.len() == CONFIG_LP_IX_ACCOUNTS_LEN,
            r@ == spec_metas(self.spec_pubkeys(), CONFIG_LP_IX_SIGNERS@, CONFIG_LP_IX_WRITABLES@),
    {
        let keys = self.pubkeys();
        account_metas(&keys, &CONFIG_LP_IX_SIGNERS, &CONFIG_LP_IX_WRITABLES)
    }
}

pub const CONFIG_LP_IX_DISCM: [u8; 8] = [10, 24, 168, 119, 86, 48, 225, 17];

/// The arguments of `config_lp`.
#[derive(Clone, Copy, Debug, PartialEq, Eq)]
pub struct ConfigLpIxArgs {
    pub params: ConfigLpParams,
}

impl WireFormat for ConfigLpIxArgs {
    open spec fn spec_encode(&self) -> Seq<u8> {
        self.params.spec_encode()
    }

    open spec fn spec_parse(s: Seq<u8>) -> Result<(ConfigLpIxArgs, nat), DecodeError> {
        match <ConfigLpParams as WireFormat>::spec_parse(s) {
            Ok((params, n)) => Ok((ConfigLpIxArgs { params }, n)),
            Err(e) => Err(e),
        }
    }

    proof fn lemma_parse_encode(&self, rest: Seq<u8>) {
        self.params.lemma_parse_encode(rest);
    }

    fn encode(&self, out: &mut Vec<u8>) {
        self.params.encode(out);
    }

    fn decode(buf: &[u8], pos: usize) -> (r: Result<(ConfigLpIxArgs, usize), DecodeError>) {
        match <ConfigLpParams as WireFormat>::decode(buf, pos) {
            Ok((params, end)) => Ok((ConfigLpIxArgs { params }, end)),
            Err(e) => Err(e),
        }
    }
}

/// The data of a `config_lp` instruction: its discriminant, then its arguments.
#[derive(Clone, Copy, Debug, PartialEq, Eq)]
pub struct ConfigLpIxData(pub ConfigLpIxArgs);

impl ConfigLpIxData {
    /// Reads the data of a `config_lp` instruction from the front of `buf`;
    /// bytes after it are left unread.
    pub fn deserialize(buf: &[u8]) -> (r: Result<Self, DecodeError>)
        ensures
            match spec_parse_tagged::<ConfigLpIxArgs>(CONFIG_LP_IX_DISCM, buf@) {
                Ok(args) => r == Ok::<Self, DecodeError>(ConfigLpIxData(args)),
                Err(e) => r == Err::<Self, DecodeError>(e),
            },
    {
        match parse_tagged::<ConfigLpIxArgs>(&CONFIG_LP_IX_DISCM, buf) {
            Ok(args) => Ok(ConfigLpIxData(args)),
            Err(e) => Err(e),
        }
    }

    /// Appends the discriminant of `config_lp` and then the arguments to `out`.
    pub fn serialize(&self, out: &mut Vec<u8>)
        ensures
            final(out)@ == old(out)@ + CONFIG_LP_IX_DISCM@ + self.0.spec_encode(),
    {
        write_tagged(&CONFIG_LP_IX_DISCM, &self.0, out);
    }

    /// The bytes of the instruction data.
    pub fn try_to_vec(&self) -> (r: Vec<u8>)
        ensures
            r@ == CONFIG_LP_IX_DISCM@ + self.0.spec_encode(),
    {
        let mut data: Vec<u8> = Vec::new();
        self.serialize(&mut data);
        assert(data@ =~= CONFIG_LP_IX_DISCM@ + self.0.spec_encode());
        data
    }
}

/// The `config_lp` instruction for `keys` and `args`, addressed to the program.
pub fn config_lp_ix(keys: ConfigLpKeys, args: ConfigLpIxArgs) -> (r: Instruction)
    ensures
        r.program_id == Pubkey(ID_BYTES),
        r.accounts@ == spec_metas(
            keys.spec_pubkeys(),
            CONFIG_LP_IX_SIGNERS@,
            CONFIG_LP_IX_WRITABLES@,
        ),
        r.data@ == CONFIG_LP_IX_DISCM@ + args.spec_encode(),
{
    Instruction {
        program_id: Pubkey(ID_BYTES),
        accounts: keys.account_metas(),
        data: ConfigLpIxData(args).try_to_vec(),
    }
}

/// Compares the addresses of `accounts` with `keys` in account order and
/// reports the first pair (actual, expected) that differs.
pub fn config_lp_verify_account_keys(
    accounts: ConfigLpAccounts,
    keys: ConfigLpKeys,
) -> (r: Result<(), (Pubkey, Pubkey)>)
    ensures
        keys_checked(keys_of(accounts.spec_handles()), keys.spec_pubkeys(), r),
{
    let actual = ConfigLpKeys::from_accounts(&accounts).pubkeys();
    let expected = keys.pubkeys();
    verify_keys(&actual, &expected)
}

/// Checks that the accounts in writable roles are writable and then that
/// the accounts in signing roles have signed; reports the first that is not.
pub fn config_lp_verify_account_privileges(
    accounts: ConfigLpAccounts,
) -> (r: Result<(), (AccountHandle, PrivilegeError)>)
    ensures
        privileges_checked(
            accounts.spec_handles(),
            CONFIG_LP_IX_SIGNERS@,
            CONFIG_LP_IX_WRITABLES@,
            r,
        ),
{
    let handles = accounts.handles();
    verify_privileges(&handles, &CONFIG_LP_IX_SIGNERS, &CONFIG_LP_IX_WRITABLES)
}

pub const CONFIG_MARINADE_IX_ACCOUNTS_LEN: usize = 2;

/// Whether each account of `config_marinade` must sign, in account order.
pub const CONFIG_MARINADE_IX_SIGNERS: [bool; 2] = [false, true];

/// Whether each account of `config_marinade` must be writable, in account order.
pub const CONFIG_MARINADE_IX_WRITABLES: [bool; 2] = [true, false];

/// The accounts of `config_marinade` as the runtime hands them over.
#[derive(Clone, Copy, Debug, PartialEq, Eq)]
pub struct ConfigMarinadeAccounts {
    /// Writable.
    pub state: AccountHandle,
    /// Signer.
    pub admin_authority: AccountHandle,
}

/// The addresses of the accounts of `config_marinade`.
#[derive(Clone, Copy, Debug, PartialEq, Eq)]
pub struct ConfigMarinadeKeys {
    /// Writable.
    pub state: Pubkey,
    /// Signer.
    pub admin_authority: Pubkey,
}

impl ConfigMarinadeAccounts {
    /// The accounts in account order.
    pub open spec fn spec_handles(&self) -> Seq<AccountHandle> {
        seq![self.state, self.admin_authority]
    }

    /// The accounts as an array in account order.
    pub fn handles(&self) -> (r: [AccountHandle; 2])
        ensures
            r@ == self.spec_handles(),
    {
        let r = [self.state, self.admin_authority];
        assert(r@ =~= self.spec_handles());
        r
    }

    /// The accounts read from an array in account order.
    pub fn from_handles(arr: [AccountHandle; 2]) -> (r: Self)
        ensures
            r.spec_handles() == arr@,
    {
        let r = ConfigMarinadeAccounts { state: arr[0], admin_authority: arr[1] };
        assert(r.spec_handles() =~= arr@);
        r
    }
}

impl ConfigMarinadeKeys {
    /// The addresses in account order.
    pub open spec fn spec_pubkeys(&self) -> Seq<Pubkey> {
        seq![self.state, self.admin_authority]
    }

    /// The addresses as an array in account order.
    pub fn pubkeys(&self) -> (r: [Pubkey; 2])
        ensures
            r@ == self.spec_pubkeys(),
    {
        let r = [self.state, self.admin_authority];
        assert(r@ =~= self.spec_pubkeys());
        r
    }

    /// The addresses read from an array in account order.
    pub fn from_pubkeys(arr: [Pubkey; 2]) -> (r: Self)
        ensures
            r.spec_pubkeys() == arr@,
    {
        let r = ConfigMarinadeKeys { state: arr[0], admin_authority: arr[1] };
        assert(r.spec_pubkeys() =~= arr@);
        r
    }

    /// The addresses of `accounts`.
    pub fn from_accounts(accounts: &ConfigMarinadeAccounts) -> (r: Self)
        ensures
            r.spec_pubkeys() == keys_of(accounts.spec_handles()),
    {
        let r = ConfigMarinadeKeys {
            state: accounts.state.key,
            admin_authority: accounts.admin_authority.key,
        };
        assert(r.spec_pubkeys() =~= keys_of(accounts.spec_handles()));
        r
    }

    /// The account list of `config_marinade`: one entry per role, in account order,
    /// each with the fixed flags of its role.
    pub fn account_metas(&self) -> (r: Vec<AccountMeta>)
        ensures
            r@.len() == CONFIG_MARINADE_IX_ACCOUNTS_LEN,
            r@ == spec_metas(
                self.spec_pubkeys(),
                CONFIG_MARINADE_IX_SIGNERS@,
                CONFIG_MARINADE_IX_WRITABLES@,
            ),
    {
        let keys = self.pubkeys();
        account_metas(&keys, &CONFIG_MARINADE_IX_SIGNERS, &CONFIG_MARINADE_IX_WRITABLES)
    }
}

pub const CONFIG_MARINADE_IX_DISCM: [u8; 8] = [67, 3, 34, 114, 190, 185, 17, 62];

/// The arguments of `config_marinade`.
#[derive(Clone, Copy, Debug, PartialEq, Eq)]
pub struct ConfigMarinadeIxArgs {
    pub params: ConfigMarinadeParams,
}

impl WireFormat for ConfigMarinadeIxArgs {
    open spec fn spec_encode(&self) -> Seq<u8> {
        self.params.spec_encode()
    }

    open spec fn spec_parse(s: Seq<u8>) -> Result<(ConfigMarinadeIxArgs, nat), DecodeError> {
        match <ConfigMarinadeParams as WireFormat>::spec_parse(s) {
            Ok((params, n)) => Ok((ConfigMarinadeIxArgs { params }, n)),
            Err(e) => Err(e),
        }
    }

    proof fn lemma_parse_encode(&self, rest: Seq<u8>) {
        self.params.lemma_parse_encode(rest);
    }

    fn encode(&self, out: &mut Vec<u8>) {
        self.params.encode(out);
    }

    fn decode(buf: &[u8], pos: usize) -> (r: Result<(ConfigMarinadeIxArgs, usize), DecodeError>) {
        match <ConfigMarinadeParams as WireFormat>::decode(buf, pos) {
            Ok((params, end)) => Ok((ConfigMarinadeIxArgs { params }, end)),
            Err(e) => Err(e),
        }
    }
}

/// The data of a `config_marinade` instruction: its discriminant, then its arguments.
#[derive(Clone, Copy, Debug, PartialEq, Eq)]
pub struct ConfigMarinadeIxData(pub ConfigMarinadeIxArgs);

impl ConfigMarinadeIxData {
    /// Reads the data of a `config_marinade` instruction from the front of `buf`;
    /// bytes after it are left unread.
    pub fn deserialize(buf: &[u8]) -> (r: Result<Self, DecodeError>)
        ensures
            match spec_parse_tagged::<ConfigMarinadeIxArgs>(CONFIG_MARINADE_IX_DISCM, buf@) {
                Ok(args) => r == Ok::<Self, DecodeError>(ConfigMarinadeIxData(args)),
                Err(e) => r == Err::<Self, DecodeError>(e),
            },
    {
        match parse_tagged::<ConfigMarinadeIxArgs>(&CONFIG_MARINADE_IX_DISCM, buf) {
            Ok(args) => Ok(ConfigMarinadeIxData(args)),
            Err(e) => Err(e),
        }
    }

    /// Appends the discriminant of `config_marinade` and then the arguments to `out`.
    pub fn serialize(&self, out: &mut Vec<u8>)
        ensures
            final(out)@ == old(out)@ + CONFIG_MARINADE_IX_DISCM@ + self.0.spec_encode(),
    {
        write_tagged(&CONFIG_MARINADE_IX_DISCM, &self.0, out);
    }

    /// The bytes of the instruction data.
    pub fn try_to_vec(&self) -> (r: Vec<u8>)
        ensures
            r@ == CONFIG_MARINADE_IX_DISCM@ + self.0.spec_encode(),
    {
        let mut data: Vec<u8> = Vec::new();
        self.serialize(&mut data);
        assert(data@ =~= CONFIG_MARINADE_IX_DISCM@ + self.0.spec_encode());
        data
    }
}

/// The `config_marinade` instruction for `keys` and `args`, addressed to the program.
pub fn config_marinade_ix(keys: ConfigMarinadeKeys, args: ConfigMarinadeIxArgs) -> (r: Instruction)
    ensures
        r.program_id == Pubkey(ID_BYTES),
        r.accounts@ == spec_metas(
            keys.spec_pubkeys(),
            CONFIG_MARINADE_IX_SIGNERS@,
            CONFIG_MARINADE_IX_WRITABLES@,
        ),
        r.data@ == CONFIG_MARINADE_IX_DISCM@ + args.spec_encode(),
{
    Instruction {
        program_id: Pubkey(ID_BYTES),
        accounts: keys.account_metas(),
        data: ConfigMarinadeIxData(args).try_to_vec(),
    }
}

/// Compares the addresses of `accounts` with `keys` in account order and
/// reports the first pair (actual, expected) that differs.
pub fn config_marinade_verify_account_keys(
    accounts: ConfigMarinadeAccounts,
    keys: ConfigMarinadeKeys,
) -> (r: Result<(), (Pubkey, Pubkey)>)
    ensures
        keys_checked(keys_of(accounts.spec_handles()), keys.spec_pubkeys(), r),
{
    let actual = ConfigMarinadeKeys::from_accounts(&accounts).pubkeys();
    let expected = keys.pubkeys();
    verify_keys(&actual, &expected)
}

/// Checks that the accounts in writable roles are writable and then that
/// the accounts in signing roles have signed; reports the first that is not.
pub fn config_marinade_verify_account_privileges(
    accounts: ConfigMarinadeAccounts,
) -> (r: Result<(), (AccountHandle, PrivilegeError)>)
    ensures
        privileges_checked(
            accounts.spec_handles(),
            CONFIG_MARINADE_IX_SIGNERS@,
            CONFIG_MARINADE_IX_WRITABLES@,
            r,
        ),
{
    let handles = accounts.handles();
    verify_privileges(&handles, &CONFIG_MARINADE_IX_SIGNERS, &CONFIG_MARINADE_IX_WRITABLES)
}

pub const ORDER_UNSTAKE_IX_ACCOUNTS_LEN: usize = 8;

/// Whether each account of `order_unstake` must sign, in account order.
pub const ORDER_UNSTAKE_IX_SIGNERS: [bool; 8] = [
    false, false, false, true, false, false, false, false,
];

/// Whether each account of `order_unstake` must be writable, in account order.
pub const ORDER_UNSTAKE_IX_WRITABLES: [bool; 8] = [
    true, true, true, false, true, false, false, false,
];

/// The accounts of `order_unstake` as the runtime hands them over.
#[derive(Clone, Copy, Debug, PartialEq, Eq)]
pub struct OrderUnstakeAccounts {
    /// Writable.
    pub state: AccountHandle,
    /// Writable.
    pub msol_mint: AccountHandle,
    /// Writable.
    pub burn_msol_from: AccountHandle,
    /// Signer.
    pub burn_msol_authority: AccountHandle,
    /// Writable.
    pub new_ticket_account: AccountHandle,
    /// Read-only.
    pub clock: AccountHandle,
    /// Read-only.
    pub rent: AccountHandle,
    /// Read-only.
    pub token_program: AccountHandle,
}

/// The addresses of the accounts of `order_unstake`.
#[derive(Clone, Copy, Debug, PartialEq, Eq)]
pub struct OrderUnstakeKeys {
    /// Writable.
    pub state: Pubkey,
    /// Writable.
    pub msol_mint: Pubkey,
    /// Writable.
    pub burn_msol_from: Pubkey,
    /// Signer.
    pub burn_msol_authority: Pubkey,
    /// Writable.
    pub new_ticket_account: Pubkey,
    /// Read-only.
    pub clock: Pubkey,
    /// Read-only.
    pub rent: Pubkey,
    /// Read-only.
    pub token_program: Pubkey,
}

impl OrderUnstakeAccounts {
    /// The accounts in account order.
    pub open spec fn spec_handles(&self) -> Seq<AccountHandle> {
        seq![
            self.state,
            self.msol_mint,
            self.burn_msol_from,
            self.burn_msol_authority,
            self.new_ticket_account,
            self.clock,
            self.rent,
            self.token_program,
        ]
    }

    /// The accounts as an array in account order.
    pub fn handles(&self) -> (r: [AccountHandle; 8])
        ensures
            r@ == self.spec_handles(),
    {
        let r = [
            self.state,
            self.msol_mint,
            self.burn_msol_from,
            self.burn_msol_authority,
            self.new_ticket_account,
            self.clock,
            self.rent,
            self.token_program,
        ];
        assert(r@ =~= self.spec_handles());
        r
    }

    /// The accounts read from an array in account order.
    pub fn from_handles(arr: [AccountHandle; 8]) -> (r: Self)
        ensures
            r.spec_handles() == arr@,
    {
        let r = OrderUnstakeAccounts {
            state: arr[0],
            msol_mint: arr[1],
            burn_msol_from: arr[2],
            burn_msol_authority: arr[3],
            new_ticket_account: arr[4],
            clock: arr[5],
            rent: arr[6],
            token_program: arr[7],
        };
        assert(r.spec_handles() =~= arr@);
        r
    }
}

impl OrderUnstakeKeys {
    /// The addresses in account order.
    pub open spec fn spec_pubkeys(&self) -> Seq<Pubkey> {
        seq![
            self.state,
            self.msol_mint,
            self.burn_msol_from,
            self.burn_msol_authority,
            self.new_ticket_account,
            self.clock,
            self.rent,
            self.token_program,
        ]
    }

    /// The addresses as an array in account order.
    pub fn pubkeys(&self) -> (r: [Pubkey; 8])
        ensures
            r@ == self.spec_pubkeys(),
    {
        let r = [
            self.state,
            self.msol_mint,
            self.burn_msol_from,
            self.burn_msol_authority,
            self.new_ticket_account,
            self.clock,
            self.rent,
            self.token_program,
        ];
        assert(r@ =~= self.spec_pubkeys());
        r
    }

    /// The addresses read from an array in account order.
    pub fn from_pubkeys(arr: [Pubkey; 8]) -> (r: Self)
        ensures
            r.spec_pubkeys() == arr@,
    {
        let r = OrderUnstakeKeys {
            state: arr[0],
            msol_mint: arr[1],
            burn_msol_from: arr[2],
            burn_msol_authority: arr[3],
            new_ticket_account: arr[4],
            clock: arr[5],
            rent: arr[6],
            token_program: arr[7],
        };
        assert(r.spec_pubkeys() =~= arr@);
        r
    }

    /// The addresses of `accounts`.
    pub fn from_accounts(accounts: &OrderUnstakeAccounts) -> (r: Self)
        ensures
            r.spec_pubkeys() == keys_of(accounts.spec_handles()),
    {
        let r = OrderUnstakeKeys {
            state: accounts.state.key,
            msol_mint: accounts.msol_mint.key,
            burn_msol_from: accounts.burn_msol_from.key,
            burn_msol_authority: accounts.burn_msol_authority.key,
            new_ticket_account: accounts.new_ticket_account.key,
            clock: accounts.clock.key,
            rent: accounts.rent.key,
            token_program: accounts.token_program.key,
        };
        assert(r.spec_pubkeys() =~= keys_of(accounts.spec_handles()));
        r
    }

    /// The account list of `order_unstake`: one entry per role, in account order,
    /// each with the fixed flags of its role.
    pub fn account_metas(&self) -> (r: Vec<AccountMeta>)
        ensures
            r@.len() == ORDER_UNSTAKE_IX_ACCOUNTS_LEN,
            r@ == spec_metas(
                self.spec_pubkeys(),
                ORDER_UNSTAKE_IX_SIGNERS@,
                ORDER_UNSTAKE_IX_WRITABLES@,
            ),
    {
        let keys = self.pubkeys();
        account_metas(&keys, &ORDER_UNSTAKE_IX_SIGNERS, &ORDER_UNSTAKE_IX_WRITABLES)
    }
}

pub const ORDER_UNSTAKE_IX_DISCM: [u8; 8] = [97, 167, 144, 107, 117, 190, 128, 36];

/// The arguments of `order_unstake`.
#[derive(Clone, Copy, Debug, PartialEq, Eq)]
pub struct OrderUnstakeIxArgs {
    pub msol_amount: u64,
}

impl WireFormat for OrderUnstakeIxArgs {
    open spec fn spec_encode(&self) -> Seq<u8> {
        self.msol_amount.spec_encode()
    }

    open spec fn spec_parse(s: Seq<u8>) -> Result<(OrderUnstakeIxArgs, nat), DecodeError> {
        match <u64 as WireFormat>::spec_parse(s) {
            Ok((msol_amount, n)) => Ok((OrderUnstakeIxArgs { msol_amount }, n)),
            Err(e) => Err(e),
        }
    }

    proof fn lemma_parse_encode(&self, rest: Seq<u8>) {
        self.msol_amount.lemma_parse_encode(rest);
    }

    fn encode(&self, out: &mut Vec<u8>) {
        self.msol_amount.encode(out);
    }

    fn decode(buf: &[u8], pos: usize) -> (r: Result<(OrderUnstakeIxArgs, usize), DecodeError>) {
        match <u64 as WireFormat>::decode(buf, pos) {
            Ok((msol_amount, end)) => Ok((OrderUnstakeIxArgs { msol_amount }, end)),
            Err(e) => Err(e),
        }
    }
}

/// The data of a `order_unstake` instruction: its discriminant, then its arguments.
#[derive(Clone, Copy, Debug, PartialEq, Eq)]
pub struct OrderUnstakeIxData(pub OrderUnstakeIxArgs);

impl OrderUnstakeIxData {
    /// Reads the data of a `order_unstake` instruction from the front of `buf`;
    /// bytes after it are left unread.
    pub fn deserialize(buf: &[u8]) -> (r: Result<Self, DecodeError>)
        ensures
            match spec_parse_tagged::<OrderUnstakeIxArgs>(ORDER_UNSTAKE_IX_DISCM, buf@) {
                Ok(args) => r == Ok::<Self, DecodeError>(OrderUnstakeIxData(args)),
                Err(e) => r == Err::<Self, DecodeError>(e),
            },
    {
        match parse_tagged::<OrderUnstakeIxArgs>(&ORDER_UNSTAKE_IX_DISCM, buf) {
            Ok(args) => Ok(OrderUnstakeIxData(args)),
            Err(e) => Err(e),
        }
    }

    /// Appends the discriminant of `order_unstake` and then the arguments to `out`.
    pub fn serialize(&self, out: &mut Vec<u8>)
        ensures
            final(out)@ == old(out)@ + ORDER_UNSTAKE_IX_DISCM@ + self.0.spec_encode(),
    {
        write_tagged(&ORDER_UNSTAKE_IX_DISCM, &self.0, out);
    }

    /// The bytes of the instruction data.
    pub fn try_to_vec(&self) -> (r: Vec<u8>)
        ensures
            r@ == ORDER_UNSTAKE_IX_DISCM@ + self.0.spec_encode(),
    {
        let mut data: Vec<u8> = Vec::new();
        self.serialize(&mut data);
        assert(data@ =~= ORDER_UNSTAKE_IX_DISCM@ + self.0.spec_encode());
        data
    }
}

/// The `order_unstake` instruction for `keys` and `args`, addressed to the program.
pub fn order_unstake_ix(keys: OrderUnstakeKeys, args: OrderUnstakeIxArgs) -> (r: Instruction)
    ensures
        r.program_id == Pubkey(ID_BYTES),
        r.accounts@ == spec_metas(
            keys.spec_pubkeys(),
            ORDER_UNSTAKE_IX_SIGNERS@,
            ORDER_UNSTAKE_IX_WRITABLES@,
        ),
        r.data@ == ORDER_UNSTAKE_IX_DISCM@ + args.spec_encode(),
{
    Instruction {
        program_id: Pubkey(ID_BYTES),
        accounts: keys.account_metas(),
        data: OrderUnstakeIxData(args).try_to_vec(),
    }
}

/// Compares the addresses of `accounts` with `keys` in account order and
/// reports the first pair (actual, expected) that differs.
pub fn order_unstake_verify_account_keys(
    accounts: OrderUnstakeAccounts,
    keys: OrderUnstakeKeys,
) -> (r: Result<(), (Pubkey, Pubkey)>)
    ensures
        keys_checked(keys_of(accounts.spec_handles()), keys.spec_pubkeys(), r),
{
    let actual = OrderUnstakeKeys::from_accounts(&accounts).pubkeys();
    let expected = keys.pubkeys();
    verify_keys(&actual, &expected)
}

/// Checks that the accounts in writable roles are writable and then that
/// the accounts in signing roles have signed; reports the first that is not.
pub fn order_unstake_verify_account_privileges(
    accounts: OrderUnstakeAccounts,
) -> (r: Result<(), (AccountHandle, PrivilegeError)>)
    ensures
        privileges_checked(
            accounts.spec_handles(),
            ORDER_UNSTAKE_IX_SIGNERS@,
            ORDER_UNSTAKE_IX_WRITABLES@,
            r,
        ),
{
    let handles = accounts.handles();
    verify_privileges(&handles, &ORDER_UNSTAKE_IX_SIGNERS, &ORDER_UNSTAKE_IX_WRITABLES)
}

pub const CLAIM_IX_ACCOUNTS_LEN: usize = 6;

/// Whether each account of `claim` must sign, in account order.
pub const CLAIM_IX_SIGNERS: [bool; 6] = [false, false, false, false, false, false];

/// Whether each account of `claim` must be writable, in account order.
pub const CLAIM_IX_WRITABLES: [bool; 6] = [true, true, true, true, false, false];

/// The accounts of `claim` as the runtime hands them over.
#[derive(Clone, Copy, Debug, PartialEq, Eq)]
pub struct ClaimAccounts {
    /// Writable.
    pub state: AccountHandle,
    /// Writable.
    pub reserve_pda: AccountHandle,
    /// Writable.
    pub ticket_account: AccountHandle,
    /// Writable.
    pub transfer_sol_to: AccountHandle,
    /// Read-only.
    pub clock: AccountHandle,
    /// Read-only.
    pub system_program: AccountHandle,
}

/// The addresses of the accounts of `claim`.
#[derive(Clone, Copy, Debug, PartialEq, Eq)]
pub struct ClaimKeys {
    /// Writable.
    pub state: Pubkey,
    /// Writable.
    pub reserve_pda: Pubkey,
    /// Writable.
    pub ticket_account: Pubkey,
    /// Writable.
    pub transfer_sol_to: Pubkey,
    /// Read-only.
    pub clock: Pubkey,
    /// Read-only.
    pub system_program: Pubkey,
}

impl ClaimAccounts {
    /// The accounts in account order.
    pub open spec fn spec_handles(&self) -> Seq<AccountHandle> {
        seq![
            self.state,
            self.reserve_pda,
            self.ticket_account,
            self.transfer_sol_to,
            self.clock,
            self.system_program,
        ]
    }

    /// The accounts as an array in account order.
    pub fn handles(&self) -> (r: [AccountHandle; 6])
        ensures
            r@ == self.spec_handles(),
    {
        let r = [
            self.state,
            self.reserve_pda,
            self.ticket_account,
            self.transfer_sol_to,
            self.clock,
            self.system_program,
        ];
        assert(r@ =~= self.spec_handles());
        r
    }

    /// The accounts read from an array in account order.
    pub fn from_handles(arr: [AccountHandle; 6]) -> (r: Self)
        ensures
            r.spec_handles() == arr@,
    {
        let r = ClaimAccounts {
            state: arr[0],
            reserve_pda: arr[1],
            ticket_account: arr[2],
            transfer_sol_to: arr[3],
            clock: arr[4],
            system_program: arr[5],
        };
        assert(r.spec_handles() =~= arr@);
        r
    }
}

impl ClaimKeys {
    /// The addresses in account order.
    pub open spec fn spec_pubkeys(&self) -> Seq<Pubkey> {
        seq![
            self.state,
            self.reserve_pda,
            self.ticket_account,
            self.transfer_sol_to,
            self.clock,
            self.system_program,
        ]
    }

    /// The addresses as an array in account order.
    pub fn pubkeys(&self) -> (r: [Pubkey; 6])
        ensures
            r@ == self.spec_pubkeys(),
    {
        let r = [
            self.state,
            self.reserve_pda,
            self.ticket_account,
            self.transfer_sol_to,
            self.clock,
            self.system_program,
        ];
        assert(r@ =~= self.spec_pubkeys());
        r
    }

    /// The addresses read from an array in account order.
    pub fn from_pubkeys(arr: [Pubkey; 6]) -> (r: Self)
        ensures
            r.spec_pubkeys() == arr@,
    {
        let r = ClaimKeys {
            state: arr[0],
            reserve_pda: arr[1],
            ticket_account: arr[2],
            transfer_sol_to: arr[3],
            clock: arr[4],
            system_program: arr[5],
        };
        assert(r.spec_pubkeys() =~= arr@);
        r
    }

    /// The addresses of `accounts`.
    pub fn from_accounts(accounts: &ClaimAccounts) -> (r: Self)
        ensures
            r.spec_pubkeys() == keys_of(accounts.spec_handles()),
    {
        let r = ClaimKeys {
            state: accounts.state.key,
            reserve_pda: accounts.reserve_pda.key,
            ticket_account: accounts.ticket_account.key,
            transfer_sol_to: accounts.transfer_sol_to.key,
            clock: accounts.clock.key,
            system_program: accounts.system_program.key,
        };
        assert(r.spec_pubkeys() =~= keys_of(accounts.spec_handles()));
        r
    }

    /// The account list of `claim`: one entry per role, in account order,
    /// each with the fixed flags of its role.
    pub fn account_metas(&self) -> (r: Vec<AccountMeta>)
        ensures
            r@.len() == CLAIM_IX_ACCOUNTS_LEN,
            r@ == spec_metas(self.spec_pubkeys(), CLAIM_IX_SIGNERS@, CLAIM_IX_WRITABLES@),
    {
        let keys = self.pubkeys();
        account_metas(&keys, &CLAIM_IX_SIGNERS, &CLAIM_IX_WRITABLES)
    }
}

pub const CLAIM_IX_DISCM: [u8; 8] = [62, 198, 214, 193, 213, 159, 108, 210];

/// The data of a `claim` instruction: its discriminant alone.
#[derive(Clone, Copy, Debug, PartialEq, Eq)]
pub struct ClaimIxData;

impl ClaimIxData {
    /// Reads the data of a `claim` instruction from the front of `buf`;
    /// bytes after it are left unread.
    pub fn deserialize(buf: &[u8]) -> (r: Result<Self, DecodeError>)
        ensures
            match spec_parse_tagged::<()>(CLAIM_IX_DISCM, buf@) {
                Ok(_) => r == Ok::<Self, DecodeError>(ClaimIxData),
                Err(e) => r == Err::<Self, DecodeError>(e),
            },
    {
        match parse_tagged::<()>(&CLAIM_IX_DISCM, buf) {
            Ok(_) => Ok(ClaimIxData),
            Err(e) => Err(e),
        }
    }

    /// Appends the discriminant of `claim` to `out`.
    pub fn serialize(&self, out: &mut Vec<u8>)
        ensures
            final(out)@ == old(out)@ + CLAIM_IX_DISCM@,
    {
        write_tagged(&CLAIM_IX_DISCM, &(), out);
        assert(final(out)@ =~= old(out)@ + CLAIM_IX_DISCM@);
    }

    /// The bytes of the instruction data.
    pub fn try_to_vec(&self) -> (r: Vec<u8>)
        ensures
            r@ == CLAIM_IX_DISCM@,
    {
        let mut data: Vec<u8> = Vec::new();
        self.serialize(&mut data);
        assert(data@ =~= CLAIM_IX_DISCM@);
        data
    }
}

/// The `claim` instruction for `keys`, addressed to the program.
pub fn claim_ix(keys: ClaimKeys) -> (r: Instruction)
    ensures
        r.program_id == Pubkey(ID_BYTES),
        r.accounts@ == spec_metas(keys.spec_pubkeys(), CLAIM_IX_SIGNERS@, CLAIM_IX_WRITABLES@),
        r.data@ == CLAIM_IX_DISCM@,
{
    Instruction {
        program_id: Pubkey(ID_BYTES),
        accounts: keys.account_metas(),
        data: ClaimIxData.try_to_vec(),
    }
}

/// Compares the addresses of `accounts` with `keys` in account order and
/// reports the first pair (actual, expected) that differs.
pub fn claim_verify_account_keys(
    accounts: ClaimAccounts,
    keys: ClaimKeys,
) -> (r: Result<(), (Pubkey, Pubkey)>)
    ensures
        keys_checked(keys_of(accounts.spec_handles()), keys.spec_pubkeys(), r),
{
    let actual = ClaimKeys::from_accounts(&accounts).pubkeys();
    let expected = keys.pubkeys();
    verify_keys(&actual, &expected)
}

/// Checks that the accounts in writable roles are writable and then that
/// the accounts in signing roles have signed; reports the first that is not.
pub fn claim_verify_account_privileges(
    accounts: ClaimAccounts,
) -> (r: Result<(), (AccountHandle, PrivilegeError)>)
    ensures
        privileges_checked(accounts.spec_handles(), CLAIM_IX_SIGNERS@, CLAIM_IX_WRITABLES@, r),
{
    let handles = accounts.handles();
    verify_privileges(&handles, &CLAIM_IX_SIGNERS, &CLAIM_IX_WRITABLES)
}

pub const STAKE_RESERVE_IX_ACCOUNTS_LEN: usize = 15;

/// Whether each account of `stake_reserve` must sign, in account order.
pub const STAKE_RESERVE_IX_SIGNERS: [bool; 15] = [
    false, false, false, false, false, true, false, true, false, false, false, false, false, false,
    false,
];

/// Whether each account of `stake_reserve` must be writable, in account order.
pub const STAKE_RESERVE_IX_WRITABLES: [bool; 15] = [
    true, true, true, true, true, true, false, true, false, false, false, false, false, false,
    false,
];

/// The accounts of `stake_reserve` as the runtime hands them over.
#[derive(Clone, Copy, Debug, PartialEq, Eq)]
pub struct StakeReserveAccounts {
    /// Writable.
    pub state: AccountHandle,
    /// Writable.
    pub validator_list: AccountHandle,
    /// Writable.
    pub stake_list: AccountHandle,
    /// Writable.
    pub validator_vote: AccountHandle,
    /// Writable.
    pub reserve_pda: AccountHandle,
    /// Signer, writable.
    pub stake_account: AccountHandle,
    /// Read-only.
    pub stake_deposit_authority: AccountHandle,
    /// Signer, writable.
    pub rent_payer: AccountHandle,
    /// Read-only.
    pub clock: AccountHandle,
    /// Read-only.
    pub epoch_schedule: AccountHandle,
    /// Read-only.
    pub rent: AccountHandle,
    /// Read-only.
    pub stake_history: AccountHandle,
    /// Read-only.
    pub stake_config: AccountHandle,
    /// Read-only.
    pub system_program: AccountHandle,
    /// Read-only.
    pub stake_program: AccountHandle,
}

/// The addresses of the accounts of `stake_reserve`.
#[derive(Clone, Copy, Debug, PartialEq, Eq)]
pub struct StakeReserveKeys {
    /// Writable.
    pub state: Pubkey,
    /// Writable.
    pub validator_list: Pubkey,
    /// Writable.
    pub stake_list: Pubkey,
    /// Writable.
    pub validator_vote: Pubkey,
    /// Writable.
    pub reserve_pda: Pubkey,
    /// Signer, writable.
    pub stake_account: Pubkey,
    /// Read-only.
    pub stake_deposit_authority: Pubkey,
    /// Signer, writable.
    pub rent_payer: Pubkey,
    /// Read-only.
    pub clock: Pubkey,
    /// Read-only.
    pub epoch_schedule: Pubkey,
    /// Read-only.
    pub rent: Pubkey,
    /// Read-only.
    pub stake_history: Pubkey,
    /// Read-only.
    pub stake_config: Pubkey,
    /// Read-only.
    pub system_program: Pubkey,
    /// Read-only.
    pub stake_program: Pubkey,
}

impl StakeReserveAccounts {
    /// The accounts in account order.
    pub open spec fn spec_handles(&self) -> Seq<AccountHandle> {
        seq![
            self.state,
            self.validator_list,
            self.stake_list,
            self.validator_vote,
            self.reserve_pda,
            self.stake_account,
            self.stake_deposit_authority,
            self.rent_payer,
            self.clock,
            self.epoch_schedule,
            self.rent,
            self.stake_history,
            self.stake_config,
            self.system_program,
            self.stake_program,
        ]
    }

    /// The accounts as an array in account order.
    pub fn handles(&self) -> (r: [AccountHandle; 15])
        ensures
            r@ == self.spec_handles(),
    {
        let r = [
            self.state,
            self.validator_list,
            self.stake_list,
            self.validator_vote,
            self.reserve_pda,
            self.stake_account,
            self.stake_deposit_authority,
            self.rent_payer,
            self.clock,
            self.epoch_schedule,
            self.rent,
            self.stake_history,
            self.stake_config,
            self.system_program,
            self.stake_program,
        ];
        assert(r@ =~= self.spec_handles());
        r
    }

    /// The accounts read from an array in account order.
    pub fn from_handles(arr: [AccountHandle; 15]) -> (r: Self)
        ensures
            r.spec_handles() == arr@,
    {
        let r = StakeReserveAccounts {
            state: arr[0],
            validator_list: arr[1],
            stake_list: arr[2],
            validator_vote: arr[3],
            reserve_pda: arr[4],
            stake_account: arr[5],
            stake_deposit_authority: arr[6],
            rent_payer: arr[7],
            clock: arr[8],
            epoch_schedule: arr[9],
            rent: arr[10],
            stake_history: arr[11],
            stake_config: arr[12],
            system_program: arr[13],
            stake_program: arr[14],
        };
        assert(r.spec_handles() =~= arr@);
        r
    }
}

impl StakeReserveKeys {
    /// The addresses in account order.
    pub open spec fn spec_pubkeys(&self) -> Seq<Pubkey> {
        seq![
            self.state,
            self.validator_list,
            self.stake_list,
            self.validator_vote,
            self.reserve_pda,
            self.stake_account,
            self.stake_deposit_authority,
            self.rent_payer,
            self.clock,
            self.epoch_schedule,
            self.rent,
            self.stake_history,
            self.stake_config,
            self.system_program,
            self.stake_program,
        ]
    }

    /// The addresses as an array in account order.
    pub fn pubkeys(&self) -> (r: [Pubkey; 15])
        ensures
            r@ == self.spec_pubkeys(),
    {
        let r = [
            self.state,
            self.validator_list,
            self.stake_list,
            self.validator_vote,
            self.reserve_pda,
            self.stake_account,
            self.stake_deposit_authority,
            self.rent_payer,
            self.clock,
            self.epoch_schedule,
            self.rent,
            self.stake_history,
            self.stake_config,
            self.system_program,
            self.stake_program,
        ];
        assert(r@ =~= self.spec_pubkeys());
        r
    }

    /// The addresses read from an array in account order.
    pub fn from_pubkeys(arr: [Pubkey; 15]) -> (r: Self)
        ensures
            r.spec_pubkeys() == arr@,
    {
        let r = StakeReserveKeys {
            state: arr[0],
            validator_list: arr[1],
            stake_list: arr[2],
            validator_vote: arr[3],
            reserve_pda: arr[4],
            stake_account: arr[5],
            stake_deposit_authority: arr[6],
            rent_payer: arr[7],
            clock: arr[8],
            epoch_schedule: arr[9],
            rent: arr[10],
            stake_history: arr[11],
            stake_config: arr[12],
            system_program: arr[13],
            stake_program: arr[14],
        };
        assert(r.spec_pubkeys() =~= arr@);
        r
    }

    /// The addresses of `accounts`.
    pub fn from_accounts(accounts: &StakeReserveAccounts) -> (r: Self)
        ensures
            r.spec_pubkeys() == keys_of(accounts.spec_handles()),
    {
        let r = StakeReserveKeys {
            state: accounts.state.key,
            validator_list: accounts.validator_list.key,
            stake_list: accounts.stake_list.key,
            validator_vote: accounts.validator_vote.key,
            reserve_pda: accounts.reserve_pda.key,
            stake_account: accounts.stake_account.key,
            stake_deposit_authority: accounts.stake_deposit_authority.key,
            rent_payer: accounts.rent_payer.key,
            clock: accounts.clock.key,
            epoch_schedule: accounts.epoch_schedule.key,
            rent: accounts.rent.key,
            stake_history: accounts.stake_history.key,
            stake_config: accounts.stake_config.key,
            system_program: accounts.system_program.key,
            stake_program: accounts.stake_program.key,
        };
        assert(r.spec_pubkeys() =~= keys_of(accounts.spec_handles()));
        r
    }

    /// The account list of `stake_reserve`: one entry per role, in account order,
    /// each with the fixed flags of its role.
    pub fn account_metas(&self) -> (r: Vec<AccountMeta>)
        ensures
            r@.len() == STAKE_RESERVE_IX_ACCOUNTS_LEN,
            r@ == spec_metas(
                self.spec_pubkeys(),
                STAKE_RESERVE_IX_SIGNERS@,
                STAKE_RESERVE_IX_WRITABLES@,
            ),
    {
        let keys = self.pubkeys();
        account_metas(&keys, &STAKE_RESERVE_IX_SIGNERS, &STAKE_RESERVE_IX_WRITABLES)
    }
}

pub const STAKE_RESERVE_IX_DISCM: [u8; 8] = [87, 217, 23, 179, 205, 25, 113, 129];

/// The arguments of `stake_reserve`.
#[derive(Clone, Copy, Debug, PartialEq, Eq)]
pub struct StakeReserveIxArgs {
    pub validator_index: u32,
}

impl WireFormat for StakeReserveIxArgs {
    open spec fn spec_encode(&self) -> Seq<u8> {
        self.validator_index.spec_encode()
    }

    open spec fn spec_parse(s: Seq<u8>) -> Result<(StakeReserveIxArgs, nat), DecodeError> {
        match <u32 as WireFormat>::spec_parse(s) {
            Ok((validator_index, n)) => Ok((StakeReserveIxArgs { validator_index }, n)),
            Err(e) => Err(e),
        }
    }

    proof fn lemma_parse_encode(&self, rest: Seq<u8>) {
        self.validator_index.lemma_parse_encode(rest);
    }

    fn encode(&self, out: &mut Vec<u8>) {
        self.validator_index.encode(out);
    }

    fn decode(buf: &[u8], pos: usize) -> (r: Result<(StakeReserveIxArgs, usize), DecodeError>) {
        match <u32 as WireFormat>::decode(buf, pos) {
            Ok((validator_index, end)) => Ok((StakeReserveIxArgs { validator_index }, end)),
            Err(e) => Err(e),
        }
    }
}

/// The data of a `stake_reserve` instruction: its discriminant, then its arguments.
#[derive(Clone, Copy, Debug, PartialEq, Eq)]
pub struct StakeReserveIxData(pub StakeReserveIxArgs);

impl StakeReserveIxData {
    /// Reads the data of a `stake_reserve` instruction from the front of `buf`;
    /// bytes after it are left unread.
    pub fn deserialize(buf: &[u8]) -> (r: Result<Self, DecodeError>)
        ensures
            match spec_parse_tagged::<StakeReserveIxArgs>(STAKE_RESERVE_IX_DISCM, buf@) {
                Ok(args) => r == Ok::<Self, DecodeError>(StakeReserveIxData(args)),
                Err(e) => r == Err::<Self, DecodeError>(e),
            },
    {
        match parse_tagged::<StakeReserveIxArgs>(&STAKE_RESERVE_IX_DISCM, buf) {
            Ok(args) => Ok(StakeReserveIxData(args)),
            Err(e) => Err(e),
        }
    }

    /// Appends the discriminant of `stake_reserve` and then the arguments to `out`.
    pub fn serialize(&self, out: &mut Vec<u8>)
        ensures
            final(out)@ == old(out)@ + STAKE_RESERVE_IX_DISCM@ + self.0.spec_encode(),
    {
        write_tagged(&STAKE_RESERVE_IX_DISCM, &self.0, out);
    }

    /// The bytes of the instruction data.
    pub fn try_to_vec(&self) -> (r: Vec<u8>)
        ensures
            r@ == STAKE_RESERVE_IX_DISCM@ + self.0.spec_encode(),
    {
        let mut data: Vec<u8> = Vec::new();
        self.serialize(&mut data);
        assert(data@ =~= STAKE_RESERVE_IX_DISCM@ + self.0.spec_encode());
        data
    }
}

/// The `stake_reserve` instruction for `keys` and `args`, addressed to the program.
pub fn stake_reserve_ix(keys: StakeReserveKeys, args: StakeReserveIxArgs) -> (r: Instruction)
    ensures
        r.program_id == Pubkey(ID_BYTES),
        r.accounts@ == spec_metas(
            keys.spec_pubkeys(),
            STAKE_RESERVE_IX_SIGNERS@,
            STAKE_RESERVE_IX_WRITABLES@,
        ),
        r.data@ == STAKE_RESERVE_IX_DISCM@ + args.spec_encode(),
{
    Instruction {
        program_id: Pubkey(ID_BYTES),
        accounts: keys.account_metas(),
        data: StakeReserveIxData(args).try_to_vec(),
    }
}

/// Compares the addresses of `accounts` with `keys` in account order and
/// reports the first pair (actual, expected) that differs.
pub fn stake_reserve_verify_account_keys(
    accounts: StakeReserveAccounts,
    keys: StakeReserveKeys,
) -> (r: Result<(), (Pubkey, Pubkey)>)
    ensures
        keys_checked(keys_of(accounts.spec_handles()), keys.spec_pubkeys(), r),
{
    let actual = StakeReserveKeys::from_accounts(&accounts).pubkeys();
    let expected = keys.pubkeys();
    verify_keys(&actual, &expected)
}

/// Checks that the accounts in writable roles are writable and then that
/// the accounts in signing roles have signed; reports the first that is not.
pub fn stake_reserve_verify_account_privileges(
    accounts: StakeReserveAccounts,
) -> (r: Result<(), (AccountHandle, PrivilegeError)>)
    ensures
        privileges_checked(
            accounts.spec_handles(),
            STAKE_RESERVE_IX_SIGNERS@,
            STAKE_RESERVE_IX_WRITABLES@,
            r,
        ),
{
    let handles = accounts.handles();
    verify_privileges(&handles, &STAKE_RESERVE_IX_SIGNERS, &STAKE_RESERVE_IX_WRITABLES)
}

pub const UPDATE_ACTIVE_IX_ACCOUNTS_LEN: usize = 13;

/// Whether each account of `update_active` must sign, in account order.
pub const UPDATE_ACTIVE_IX_SIGNERS: [bool; 13] = [
    false, false, false, false, false, false, false, false, false, false, false, false, false,
];

/// Whether each account of `update_active` must be writable, in account order.
pub const UPDATE_ACTIVE_IX_WRITABLES: [bool; 13] = [
    true, true, true, false, true, true, false, true, false, false, false, false, true,
];

/// The accounts of `update_active` as the runtime hands them over.
#[derive(Clone, Copy, Debug, PartialEq, Eq)]
pub struct UpdateActiveAccounts {
    /// Writable.
    pub common_state: AccountHandle,
    /// Writable.
    pub common_stake_list: AccountHandle,
    /// Writable.
    pub common_stake_account: AccountHandle,
    /// Read-only.
    pub common_stake_withdraw_authority: AccountHandle,
    /// Writable.
    pub common_reserve_pda: AccountHandle,
    /// Writable.
    pub common_msol_mint: AccountHandle,
    /// Read-only.
    pub common_msol_mint_authority: AccountHandle,
    /// Writable.
    pub common_treasury_msol_account: AccountHandle,
    /// Read-only.
    pub common_clock: AccountHandle,
    /// Read-only.
    pub common_stake_history: AccountHandle,
    /// Read-only.
    pub common_stake_program: AccountHandle,
    /// Read-only.
    pub common_token_program: AccountHandle,
    /// Writable.
    pub validator_list: AccountHandle,
}

/// The addresses of the accounts of `update_active`.
#[derive(Clone, Copy, Debug, PartialEq, Eq)]
pub struct UpdateActiveKeys {
    /// Writable.
    pub common_state: Pubkey,
    /// Writable.
    pub common_stake_list: Pubkey,
    /// Writable.
    pub common_stake_account: Pubkey,
    /// Read-only.
    pub common_stake_withdraw_authority: Pubkey,
    /// Writable.
    pub common_reserve_pda: Pubkey,
    /// Writable.
    pub common_msol_mint: Pubkey,
    /// Read-only.
    pub common_msol_mint_authority: Pubkey,
    /// Writable.
    pub common_treasury_msol_account: Pubkey,
    /// Read-only.
    pub common_clock: Pubkey,
    /// Read-only.
    pub common_stake_history: Pubkey,
    /// Read-only.
    pub common_stake_program: Pubkey,
    /// Read-only.
    pub common_token_program: Pubkey,
    /// Writable.
    pub validator_list: Pubkey,
}

impl UpdateActiveAccounts {
    /// The accounts in account order.
    pub open spec fn spec_handles(&self) -> Seq<AccountHandle> {
        seq![
            self.common_state,
            self.common_stake_list,
            self.common_stake_account,
            self.common_stake_withdraw_authority,
            self.common_reserve_pda,
            self.common_msol_mint,
            self.common_msol_mint_authority,
            self.common_treasury_msol_account,
            self.common_clock,
            self.common_stake_history,
            self.common_stake_program,
            self.common_token_program,
            self.validator_list,
        ]
    }

    /// The accounts as an array in account order.
    pub fn handles(&self) -> (r: [AccountHandle; 13])
        ensures
            r@ == self.spec_handles(),
    {
        let r = [
            self.common_state,
            self.common_stake_list,
            self.common_stake_account,
            self.common_stake_withdraw_authority,
            self.common_reserve_pda,
            self.common_msol_mint,
            self.common_msol_mint_authority,
            self.common_treasury_msol_account,
            self.common_clock,
            self.common_stake_history,
            self.common_stake_program,
            self.common_token_program,
            self.validator_list,
        ];
        assert(r@ =~= self.spec_handles());
        r
    }

    /// The accounts read from an array in account order.
    pub fn from_handles(arr: [AccountHandle; 13]) -> (r: Self)
        ensures
            r.spec_handles() == arr@,
    {
        let r = UpdateActiveAccounts {
            common_state: arr[0],
            common_stake_list: arr[1],
            common_stake_account: arr[2],
            common_stake_withdraw_authority: arr[3],
            common_reserve_pda: arr[4],
            common_msol_mint: arr[5],
            common_msol_mint_authority: arr[6],
            common_treasury_msol_account: arr[7],
            common_clock: arr[8],
            common_stake_history: arr[9],
            common_stake_program: arr[10],
            common_token_program: arr[11],
            validator_list: arr[12],
        };
        assert(r.spec_handles() =~= arr@);
        r
    }
}

impl UpdateActiveKeys {
    /// The addresses in account order.
    pub open spec fn spec_pubkeys(&self) -> Seq<Pubkey> {
        seq![
            self.common_state,
            self.common_stake_list,
            self.common_stake_account,
            self.common_stake_withdraw_authority,
            self.common_reserve_pda,
            self.common_msol_mint,
            self.common_msol_mint_authority,
            self.common_treasury_msol_account,
            self.common_clock,
            self.common_stake_history,
            self.common_stake_program,
            self.common_token_program,
            self.validator_list,
        ]
    }

    /// The addresses as an array in account order.
    pub fn pubkeys(&self) -> (r: [Pubkey; 13])
        ensures
            r@ == self.spec_pubkeys(),
    {
        let r = [
            self.common_state,
            self.common_stake_list,
            self.common_stake_account,
            self.common_stake_withdraw_authority,
            self.common_reserve_pda,
            self.common_msol_mint,
            self.common_msol_mint_authority,
            self.common_treasury_msol_account,
            self.common_clock,
            self.common_stake_history,
            self.common_stake_program,
            self.common_token_program,
            self.validator_list,
        ];
        assert(r@ =~= self.spec_pubkeys());
        r
    }

    /// The addresses read from an array in account order.
    pub fn from_pubkeys(arr: [Pubkey; 13]) -> (r: Self)
        ensures
            r.spec_pubkeys() == arr@,
    {
        let r = UpdateActiveKeys {
            common_state: arr[0],
            common_stake_list: arr[1],
            common_stake_account: arr[2],
            common_stake_withdraw_authority: arr[3],
            common_reserve_pda: arr[4],
            common_msol_mint: arr[5],
            common_msol_mint_authority: arr[6],
            common_treasury_msol_account: arr[7],
            common_clock: arr[8],
            common_stake_history: arr[9],
            common_stake_program: arr[10],
            common_token_program: arr[11],
            validator_list: arr[12],
        };
        assert(r.spec_pubkeys() =~= arr@);
        r
    }

    /// The addresses of `accounts`.
    pub fn from_accounts(accounts: &UpdateActiveAccounts) -> (r: Self)
        ensures
            r.spec_pubkeys() == keys_of(accounts.spec_handles()),
    {
        let r = UpdateActiveKeys {
            common_state: accounts.common_state.key,
            common_stake_list: accounts.common_stake_list.key,
            common_stake_account: accounts.common_stake_account.key,
            common_stake_withdraw_authority: accounts.common_stake_withdraw_authority.key,
            common_reserve_pda: accounts.common_reserve_pda.key,
            common_msol_mint: accounts.common_msol_mint.key,
            common_msol_mint_authority: accounts.common_msol_mint_authority.key,
            common_treasury_msol_account: accounts.common_treasury_msol_account.key,
            common_clock: accounts.common_clock.key,
            common_stake_history: accounts.common_stake_history.key,
            common_stake_program: accounts.common_stake_program.key,
            common_token_program: accounts.common_token_program.key,
            validator_list: accounts.validator_list.key,
        };
        assert(r.spec_pubkeys() =~= keys_of(accounts.spec_handles()));
        r
    }

    /// The account list of `update_active`: one entry per role, in account order,
    /// each with the fixed flags of its role.
    pub fn account_metas(&self) -> (r: Vec<AccountMeta>)
        ensures
            r@.len() == UPDATE_ACTIVE_IX_ACCOUNTS_LEN,
            r@ == spec_metas(
                self.spec_pubkeys(),
                UPDATE_ACTIVE_IX_SIGNERS@,
                UPDATE_ACTIVE_IX_WRITABLES@,
            ),
    {
        let keys = self.pubkeys();
        account_metas(&keys, &UPDATE_ACTIVE_IX_SIGNERS, &UPDATE_ACTIVE_IX_WRITABLES)
    }
}

pub const UPDATE_ACTIVE_IX_DISCM: [u8; 8] = [4, 67, 81, 64, 136, 245, 93, 152];

/// The arguments of `update_active`.
#[derive(Clone, Copy, Debug, PartialEq, Eq)]
pub struct UpdateActiveIxArgs {
    pub stake_index: u32,
    pub validator_index: u32,
}

/// Laid out as its fields in declared order.
impl WireFormat for UpdateActiveIxArgs {
    open spec fn spec_encode(&self) -> Seq<u8> {
        (self.stake_index, self.validator_index).spec_encode()
    }

    open spec fn spec_parse(s: Seq<u8>) -> Result<(UpdateActiveIxArgs, nat), DecodeError> {
        match <(u32, u32) as WireFormat>::spec_parse(s) {
            Ok(((stake_index, validator_index), n)) => Ok((UpdateActiveIxArgs {
                stake_index,
                validator_index,
            }, n)),
            Err(e) => Err(e),
        }
    }

    proof fn lemma_parse_encode(&self, rest: Seq<u8>) {
        (self.stake_index, self.validator_index).lemma_parse_encode(rest);
    }

    fn encode(&self, out: &mut Vec<u8>) {
        (self.stake_index, self.validator_index).encode(out);
    }

    fn decode(buf: &[u8], pos: usize) -> (r: Result<(UpdateActiveIxArgs, usize), DecodeError>) {
        match <(u32, u32) as WireFormat>::decode(buf, pos) {
            Ok(((stake_index, validator_index), end)) => Ok((UpdateActiveIxArgs {
                stake_index,
                validator_index,
            }, end)),
            Err(e) => Err(e),
        }
    }
}

/// The data of a `update_active` instruction: its discriminant, then its arguments.
#[derive(Clone, Copy, Debug, PartialEq, Eq)]
pub struct UpdateActiveIxData(pub UpdateActiveIxArgs);

impl UpdateActiveIxData {
    /// Reads the data of a `update_active` instruction from the front of `buf`;
    /// bytes after it are left unread.
    pub fn deserialize(buf: &[u8]) -> (r: Result<Self, DecodeError>)
        ensures
            match spec_parse_tagged::<UpdateActiveIxArgs>(UPDATE_ACTIVE_IX_DISCM, buf@) {
                Ok(args) => r == Ok::<Self, DecodeError>(UpdateActiveIxData(args)),
                Err(e) => r == Err::<Self, DecodeError>(e),
            },
    {
        match parse_tagged::<UpdateActiveIxArgs>(&UPDATE_ACTIVE_IX_DISCM, buf) {
            Ok(args) => Ok(UpdateActiveIxData(args)),
            Err(e) => Err(e),
        }
    }

    /// Appends the discriminant of `update_active` and then the arguments to `out`.
    pub fn serialize(&self, out: &mut Vec<u8>)
        ensures
            final(out)@ == old(out)@ + UPDATE_ACTIVE_IX_DISCM@ + self.0.spec_encode(),
    {
        write_tagged(&UPDATE_ACTIVE_IX_DISCM, &self.0, out);
    }

    /// The bytes of the instruction data.
    pub fn try_to_vec(&self) -> (r: Vec<u8>)
        ensures
            r@ == UPDATE_ACTIVE_IX_DISCM@ + self.0.spec_encode(),
    {
        let mut data: Vec<u8> = Vec::new();
        self.serialize(&mut data);
        assert(data@ =~= UPDATE_ACTIVE_IX_DISCM@ + self.0.spec_encode());
        data
    }
}

/// The `update_active` instruction for `keys` and `args`, addressed to the program.
pub fn update_active_ix(keys: UpdateActiveKeys, args: UpdateActiveIxArgs) -> (r: Instruction)
    ensures
        r.program_id == Pubkey(ID_BYTES),
        r.accounts@ == spec_metas(
            keys.spec_pubkeys(),
            UPDATE_ACTIVE_IX_SIGNERS@,
            UPDATE_ACTIVE_IX_WRITABLES@,
        ),
        r.data@ == UPDATE_ACTIVE_IX_DISCM@ + args.spec_encode(),
{
    Instruction {
        program_id: Pubkey(ID_BYTES),
        accounts: keys.account_metas(),
        data: UpdateActiveIxData(args).try_to_vec(),
    }
}

/// Compares the addresses of `accounts` with `keys` in account order and
/// reports the first pair (actual, expected) that differs.
pub fn update_active_verify_account_keys(
    accounts: UpdateActiveAccounts,
    keys: UpdateActiveKeys,
) -> (r: Result<(), (Pubkey, Pubkey)>)
    ensures
        keys_checked(keys_of(accounts.spec_handles()), keys.spec_pubkeys(), r),
{
    let actual = UpdateActiveKeys::from_accounts(&accounts).pubkeys();
    let expected = keys.pubkeys();
    verify_keys(&actual, &expected)
}

/// Checks that the accounts in writable roles are writable and then that
/// the accounts in signing roles have signed; reports the first that is not.
pub fn update_active_verify_account_privileges(
    accounts: UpdateActiveAccounts,
) -> (r: Result<(), (AccountHandle, PrivilegeError)>)
    ensures
        privileges_checked(
            accounts.spec_handles(),
            UPDATE_ACTIVE_IX_SIGNERS@,
            UPDATE_ACTIVE_IX_WRITABLES@,
            r,
        ),
{
    let handles = accounts.handles();
    verify_privileges(&handles, &UPDATE_ACTIVE_IX_SIGNERS, &UPDATE_ACTIVE_IX_WRITABLES)
}

pub const UPDATE_DEACTIVATED_IX_ACCOUNTS_LEN: usize = 14;

/// Whether each account of `update_deactivated` must sign, in account order.
pub const UPDATE_DEACTIVATED_IX_SIGNERS: [bool; 14] = [
    false, false, false, false, false, false, false, false, false, false, false, false, false,
    false,
];

/// Whether each account of `update_deactivated` must be writable, in account order.
pub const UPDATE_DEACTIVATED_IX_WRITABLES: [bool; 14] = [
    true, true, true, false, true, true, false, true, false, false, false, false, true, false,
];

/// The accounts of `update_deactivated` as the runtime hands them over.
#[derive(Clone, Copy, Debug, PartialEq, Eq)]
pub struct UpdateDeactivatedAccounts {
    /// Writable.
    pub common_state: AccountHandle,
    /// Writable.
    pub common_stake_list: AccountHandle,
    /// Writable.
    pub common_stake_account: AccountHandle,
    /// Read-only.
    pub common_stake_withdraw_authority: AccountHandle,
    /// Writable.
    pub common_reserve_pda: AccountHandle,
    /// Writable.
    pub common_msol_mint: AccountHandle,
    /// Read-only.
    pub common_msol_mint_authority: AccountHandle,
    /// Writable.
    pub common_treasury_msol_account: AccountHandle,
    /// Read-only.
    pub common_clock: AccountHandle,
    /// Read-only.
    pub common_stake_history: AccountHandle,
    /// Read-only.
    pub common_stake_program: AccountHandle,
    /// Read-only.
    pub common_token_program: AccountHandle,
    /// Writable.
    pub operational_sol_account: AccountHandle,
    /// Read-only.
    pub system_program: AccountHandle,
}

/// The addresses of the accounts of `update_deactivated`.
#[derive(Clone, Copy, Debug, PartialEq, Eq)]
pub struct UpdateDeactivatedKeys {
    /// Writable.
    pub common_state: Pubkey,
    /// Writable.
    pub common_stake_list: Pubkey,
    /// Writable.
    pub common_stake_account: Pubkey,
    /// Read-only.
    pub common_stake_withdraw_authority: Pubkey,
    /// Writable.
    pub common_reserve_pda: Pubkey,
    /// Writable.
    pub common_msol_mint: Pubkey,
    /// Read-only.
    pub common_msol_mint_authority: Pubkey,
    /// Writable.
    pub common_treasury_msol_account: Pubkey,
    /// Read-only.
    pub common_clock: Pubkey,
    /// Read-only.
    pub common_stake_history: Pubkey,
    /// Read-only.
    pub common_stake_program: Pubkey,
    /// Read-only.
    pub common_token_program: Pubkey,
    /// Writable.
    pub operational_sol_account: Pubkey,
    /// Read-only.
    pub system_program: Pubkey,
}

impl UpdateDeactivatedAccounts {
    /// The accounts in account order.
    pub open spec fn spec_handles(&self) -> Seq<AccountHandle> {
        seq![
            self.common_state,
            self.common_stake_list,
            self.common_stake_account,
            self.common_stake_withdraw_authority,
            self.common_reserve_pda,
            self.common_msol_mint,
            self.common_msol_mint_authority,
            self.common_treasury_msol_account,
            self.common_clock,
            self.common_stake_history,
            self.common_stake_program,
            self.common_token_program,
            self.operational_sol_account,
            self.system_program,
        ]
    }

    /// The accounts as an array in account order.
    pub fn handles(&self) -> (r: [AccountHandle; 14])
        ensures
            r@ == self.spec_handles(),
    {
        let r = [
            self.common_state,
            self.common_stake_list,
            self.common_stake_account,
            self.common_stake_withdraw_authority,
            self.common_reserve_pda,
            self.common_msol_mint,
            self.common_msol_mint_authority,
            self.common_treasury_msol_account,
            self.common_clock,
            self.common_stake_history,
            self.common_stake_program,
            self.common_token_program,
            self.operational_sol_account,
            self.system_program,
        ];
        assert(r@ =~= self.spec_handles());
        r
    }

    /// The accounts read from an array in account order.
    pub fn from_handles(arr: [AccountHandle; 14]) -> (r: Self)
        ensures
            r.spec_handles() == arr@,
    {
        let r = UpdateDeactivatedAccounts {
            common_state: arr[0],
            common_stake_list: arr[1],
            common_stake_account: arr[2],
            common_stake_withdraw_authority: arr[3],
            common_reserve_pda: arr[4],
            common_msol_mint: arr[5],
            common_msol_mint_authority: arr[6],
            common_treasury_msol_account: arr[7],
            common_clock: arr[8],
            common_stake_history: arr[9],
            common_stake_program: arr[10],
            common_token_program: arr[11],
            operational_sol_account: arr[12],
            system_program: arr[13],
        };
        assert(r.spec_handles() =~= arr@);
        r
    }
}

impl UpdateDeactivatedKeys {
    /// The addresses in account order.
    pub open spec fn spec_pubkeys(&self) -> Seq<Pubkey> {
        seq![
            self.common_state,
            self.common_stake_list,
            self.common_stake_account,
            self.common_stake_withdraw_authority,
            self.common_reserve_pda,
            self.common_msol_mint,
            self.common_msol_mint_authority,
            self.common_treasury_msol_account,
            self.common_clock,
            self.common_stake_history,
            self.common_stake_program,
            self.common_token_program,
            self.operational_sol_account,
            self.system_program,
        ]
    }

    /// The addresses as an array in account order.
    pub fn pubkeys(&self) -> (r: [Pubkey; 14])
        ensures
            r@ == self.spec_pubkeys(),
    {
        let r = [
            self.common_state,
            self.common_stake_list,
            self.common_stake_account,
            self.common_stake_withdraw_authority,
            self.common_reserve_pda,
            self.common_msol_mint,
            self.common_msol_mint_authority,
            self.common_treasury_msol_account,
            self.common_clock,
            self.common_stake_history,
            self.common_stake_program,
            self.common_token_program,
            self.operational_sol_account,
            self.system_program,
        ];
        assert(r@ =~= self.spec_pubkeys());
        r
    }

    /// The addresses read from an array in account order.
    pub fn from_pubkeys(arr: [Pubkey; 14]) -> (r: Self)
        ensures
            r.spec_pubkeys() == arr@,
    {
        let r = UpdateDeactivatedKeys {
            common_state: arr[0],
            common_stake_list: arr[1],
            common_stake_account: arr[2],
            common_stake_withdraw_authority: arr[3],
            common_reserve_pda: arr[4],
            common_msol_mint: arr[5],
            common_msol_mint_authority: arr[6],
            common_treasury_msol_account: arr[7],
            common_clock: arr[8],
            common_stake_history: arr[9],
            common_stake_program: arr[10],
            common_token_program: arr[11],
            operational_sol_account: arr[12],
            system_program: arr[13],
        };
        assert(r.spec_pubkeys() =~= arr@);
        r
    }

    /// The addresses of `accounts`.
    pub fn from_accounts(accounts: &UpdateDeactivatedAccounts) -> (r: Self)
        ensures
            r.spec_pubkeys() == keys_of(accounts.spec_handles()),
    {
        let r = UpdateDeactivatedKeys {
            common_state: accounts.common_state.key,
            common_stake_list: accounts.common_stake_list.key,
            common_stake_account: accounts.common_stake_account.key,
            common_stake_withdraw_authority: accounts.common_stake_withdraw_authority.key,
            common_reserve_pda: accounts.common_reserve_pda.key,
            common_msol_mint: accounts.common_msol_mint.key,
            common_msol_mint_authority: accounts.common_msol_mint_authority.key,
            common_treasury_msol_account: accounts.common_treasury_msol_account.key,
            common_clock: accounts.common_clock.key,
            common_stake_history: accounts.common_stake_history.key,
            common_stake_program: accounts.common_stake_program.key,
            common_token_program: accounts.common_token_program.key,
            operational_sol_account: accounts.operational_sol_account.key,
            system_program: accounts.system_program.key,
        };
        assert(r.spec_pubkeys() =~= keys_of(accounts.spec_handles()));
        r
    }

    /// The account list of `update_deactivated`: one entry per role, in account order,
    /// each with the fixed flags of its role.
    pub fn account_metas(&self) -> (r: Vec<AccountMeta>)
        ensures
            r@.len() == UPDATE_DEACTIVATED_IX_ACCOUNTS_LEN,
            r@ == spec_metas(
                self.spec_pubkeys(),
                UPDATE_DEACTIVATED_IX_SIGNERS@,
                UPDATE_DEACTIVATED_IX_WRITABLES@,
            ),
    {
        let keys = self.pubkeys();
        account_metas(&keys, &UPDATE_DEACTIVATED_IX_SIGNERS, &UPDATE_DEACTIVATED_IX_WRITABLES)
    }
}

pub const UPDATE_DEACTIVATED_IX_DISCM: [u8; 8] = [16, 232, 131, 115, 156, 100, 239, 50];

/// The arguments of `update_deactivated`.
#[derive(Clone, Copy, Debug, PartialEq, Eq)]
pub struct UpdateDeactivatedIxArgs {
    pub stake_index: u32,
}

impl WireFormat for UpdateDeactivatedIxArgs {
    open spec fn spec_encode(&self) -> Seq<u8> {
        self.stake_index.spec_encode()
    }

    open spec fn spec_parse(s: Seq<u8>) -> Result<(UpdateDeactivatedIxArgs, nat), DecodeError> {
        match <u32 as WireFormat>::spec_parse(s) {
            Ok((stake_index, n)) => Ok((UpdateDeactivatedIxArgs { stake_index }, n)),
            Err(e) => Err(e),
        }
    }

    proof fn lemma_parse_encode(&self, rest: Seq<u8>) {
        self.stake_index.lemma_parse_encode(rest);
    }

    fn encode(&self, out: &mut Vec<u8>) {
        self.stake_index.encode(out);
    }

    fn decode(
        buf: &[u8],
        pos: usize,
    ) -> (r: Result<(UpdateDeactivatedIxArgs, usize), DecodeError>) {
        match <u32 as WireFormat>::decode(buf, pos) {
            Ok((stake_index, end)) => Ok((UpdateDeactivatedIxArgs { stake_index }, end)),
            Err(e) => Err(e),
        }
    }
}

/// The data of a `update_deactivated` instruction: its discriminant, then its arguments.
#[derive(Clone, Copy, Debug, PartialEq, Eq)]
pub struct UpdateDeactivatedIxData(pub UpdateDeactivatedIxArgs);

impl UpdateDeactivatedIxData {
    /// Reads the data of a `update_deactivated` instruction from the front of `buf`;
    /// bytes after it are left unread.
    pub fn deserialize(buf: &[u8]) -> (r: Result<Self, DecodeError>)
        ensures
            match spec_parse_tagged::<UpdateDeactivatedIxArgs>(UPDATE_DEACTIVATED_IX_DISCM, buf@) {
                Ok(args) => r == Ok::<Self, DecodeError>(UpdateDeactivatedIxData(args)),
                Err(e) => r == Err::<Self, DecodeError>(e),
            },
    {
        match parse_tagged::<UpdateDeactivatedIxArgs>(&UPDATE_DEACTIVATED_IX_DISCM, buf) {
            Ok(args) => Ok(UpdateDeactivatedIxData(args)),
            Err(e) => Err(e),
        }
    }

    /// Appends the discriminant of `update_deactivated` and then the arguments to `out`.
    pub fn serialize(&self, out: &mut Vec<u8>)
        ensures
            final(out)@ == old(out)@ + UPDATE_DEACTIVATED_IX_DISCM@ + self.0.spec_encode(),
    {
        write_tagged(&UPDATE_DEACTIVATED_IX_DISCM, &self.0, out);
    }

    /// The bytes of the instruction data.
    pub fn try_to_vec(&self) -> (r: Vec<u8>)
        ensures
            r@ == UPDATE_DEACTIVATED_IX_DISCM@ + self.0.spec_encode(),
    {
        let mut data: Vec<u8> = Vec::new();
        self.serialize(&mut data);
        assert(data@ =~= UPDATE_DEACTIVATED_IX_DISCM@ + self.0.spec_encode());
        data
    }
}

/// The `update_deactivated` instruction for `keys` and `args`, addressed to the program.
pub fn update_deactivated_ix(
    keys: UpdateDeactivatedKeys,
    args: UpdateDeactivatedIxArgs,
) -> (r: Instruction)
    ensures
        r.program_id == Pubkey(ID_BYTES),
        r.accounts@ == spec_metas(
            keys.spec_pubkeys(),
            UPDATE_DEACTIVATED_IX_SIGNERS@,
            UPDATE_DEACTIVATED_IX_WRITABLES@,
        ),
        r.data@ == UPDATE_DEACTIVATED_IX_DISCM@ + args.spec_encode(),
{
    Instruction {
        program_id: Pubkey(ID_BYTES),
        accounts: keys.account_metas(),
        data: UpdateDeactivatedIxData(args).try_to_vec(),
    }
}

/// Compares the addresses of `accounts` with `keys` in account order and
/// reports the first pair (actual, expected) that differs.
pub fn update_deactivated_verify_account_keys(
    accounts: UpdateDeactivatedAccounts,
    keys: UpdateDeactivatedKeys,
) -> (r: Result<(), (Pubkey, Pubkey)>)
    ensures
        keys_checked(keys_of(accounts.spec_handles()), keys.spec_pubkeys(), r),
{
    let actual = UpdateDeactivatedKeys::from_accounts(&accounts).pubkeys();
    let expected = keys.pubkeys();
    verify_keys(&actual, &expected)
}

/// Checks that the accounts in writable roles are writable and then that
/// the accounts in signing roles have signed; reports the first that is not.
pub fn update_deactivated_verify_account_privileges(
    accounts: UpdateDeactivatedAccounts,
) -> (r: Result<(), (AccountHandle, PrivilegeError)>)
    ensures
        privileges_checked(
            accounts.spec_handles(),
            UPDATE_DEACTIVATED_IX_SIGNERS@,
            UPDATE_DEACTIVATED_IX_WRITABLES@,
            r,
        ),
{
    let handles = accounts.handles();
    verify_privileges(&handles, &UPDATE_DEACTIVATED_IX_SIGNERS, &UPDATE_DEACTIVATED_IX_WRITABLES)
}

pub const DEACTIVATE_STAKE_IX_ACCOUNTS_LEN: usize = 14;

/// Whether each account of `deactivate_stake` must sign, in account order.
pub const DEACTIVATE_STAKE_IX_SIGNERS: [bool; 14] = [
    false, false, false, false, false, false, true, true, false, false, false, false, false, false,
];

/// Whether each account of `deactivate_stake` must be writable, in account order.
pub const DEACTIVATE_STAKE_IX_WRITABLES: [bool; 14] = [
    true, false, true, true, true, false, true, true, false, false, false, false, false, false,
];

/// The accounts of `deactivate_stake` as the runtime hands them over.
#[derive(Clone, Copy, Debug, PartialEq, Eq)]
pub struct DeactivateStakeAccounts {
    /// Writable.
    pub state: AccountHandle,
    /// Read-only.
    pub reserve_pda: AccountHandle,
    /// Writable.
    pub validator_list: AccountHandle,
    /// Writable.
    pub stake_list: AccountHandle,
    /// Writable.
    pub stake_account: AccountHandle,
    /// Read-only.
    pub stake_deposit_authority: AccountHandle,
    /// Signer, writable.
    pub split_stake_account: AccountHandle,
    /// Signer, writable.
    pub split_stake_rent_payer: AccountHandle,
    /// Read-only.
    pub clock: AccountHandle,
    /// Read-only.
    pub rent: AccountHandle,
    /// Read-only.
    pub epoch_schedule: AccountHandle,
    /// Read-only.
    pub stake_history: AccountHandle,
    /// Read-only.
    pub system_program: AccountHandle,
    /// Read-only.
    pub stake_program: AccountHandle,
}

/// The addresses of the accounts of `deactivate_stake`.
#[derive(Clone, Copy, Debug, PartialEq, Eq)]
pub struct DeactivateStakeKeys {
    /// Writable.
    pub state: Pubkey,
    /// Read-only.
    pub reserve_pda: Pubkey,
    /// Writable.
    pub validator_list: Pubkey,
    /// Writable.
    pub stake_list: Pubkey,
    /// Writable.
    pub stake_account: Pubkey,
    /// Read-only.
    pub stake_deposit_authority: Pubkey,
    /// Signer, writable.
    pub split_stake_account: Pubkey,
    /// Signer, writable.
    pub split_stake_rent_payer: Pubkey,
    /// Read-only.
    pub clock: Pubkey,
    /// Read-only.
    pub rent: Pubkey,
    /// Read-only.
    pub epoch_schedule: Pubkey,
    /// Read-only.
    pub stake_history: Pubkey,
    /// Read-only.
    pub system_program: Pubkey,
    /// Read-only.
    pub stake_program: Pubkey,
}

impl DeactivateStakeAccounts {
    /// The accounts in account order.
    pub open spec fn spec_handles(&self) -> Seq<AccountHandle> {
        seq![
            self.state,
            self.reserve_pda,
            self.validator_list,
            self.stake_list,
            self.stake_account,
            self.stake_deposit_authority,
            self.split_stake_account,
            self.split_stake_rent_payer,
            self.clock,
            self.rent,
            self.epoch_schedule,
            self.stake_history,
            self.system_program,
            self.stake_program,
        ]
    }

    /// The accounts as an array in account order.
    pub fn handles(&self) -> (r: [AccountHandle; 14])
        ensures
            r@ == self.spec_handles(),
    {
        let r = [
            self.state,
            self.reserve_pda,
            self.validator_list,
            self.stake_list,
            self.stake_account,
            self.stake_deposit_authority,
            self.split_stake_account,
            self.split_stake_rent_payer,
            self.clock,
            self.rent,
            self.epoch_schedule,
            self.stake_history,
            self.system_program,
            self.stake_program,
        ];
        assert(r@ =~= self.spec_handles());
        r
    }

    /// The accounts read from an array in account order.
    pub fn from_handles(arr: [AccountHandle; 14]) -> (r: Self)
        ensures
            r.spec_handles() == arr@,
    {
        let r = DeactivateStakeAccounts {
            state: arr[0],
            reserve_pda: arr[1],
            validator_list: arr[2],
            stake_list: arr[3],
            stake_account: arr[4],
            stake_deposit_authority: arr[5],
            split_stake_account: arr[6],
            split_stake_rent_payer: arr[7],
            clock: arr[8],
            rent: arr[9],
            epoch_schedule: arr[10],
            stake_history: arr[11],
            system_program: arr[12],
            stake_program: arr[13],
        };
        assert(r.spec_handles() =~= arr@);
        r
    }
}

impl DeactivateStakeKeys {
    /// The addresses in account order.
    pub open spec fn spec_pubkeys(&self) -> Seq<Pubkey> {
        seq![
            self.state,
            self.reserve_pda,
            self.validator_list,
            self.stake_list,
            self.stake_account,
            self.stake_deposit_authority,
            self.split_stake_account,
            self.split_stake_rent_payer,
            self.clock,
            self.rent,
            self.epoch_schedule,
            self.stake_history,
            self.system_program,
            self.stake_program,
        ]
    }

    /// The addresses as an array in account order.
    pub fn pubkeys(&self) -> (r: [Pubkey; 14])
        ensures
            r@ == self.spec_pubkeys(),
    {
        let r = [
            self.state,
            self.reserve_pda,
            self.validator_list,
            self.stake_list,
            self.stake_account,
            self.stake_deposit_authority,
            self.split_stake_account,
            self.split_stake_rent_payer,
            self.clock,
            self.rent,
            self.epoch_schedule,
            self.stake_history,
            self.system_program,
            self.stake_program,
        ];
        assert(r@ =~= self.spec_pubkeys());
        r
    }

    /// The addresses read from an array in account order.
    pub fn from_pubkeys(arr: [Pubkey; 14]) -> (r: Self)
        ensures
            r.spec_pubkeys() == arr@,
    {
        let r = DeactivateStakeKeys {
            state: arr[0],
            reserve_pda: arr[1],
            validator_list: arr[2],
            stake_list: arr[3],
            stake_account: arr[4],
            stake_deposit_authority: arr[5],
            split_stake_account: arr[6],
            split_stake_rent_payer: arr[7],
            clock: arr[8],
            rent: arr[9],
            epoch_schedule: arr[10],
            stake_history: arr[11],
            system_program: arr[12],
            stake_program: arr[13],
        };
        assert(r.spec_pubkeys() =~= arr@);
        r
    }

    /// The addresses of `accounts`.
    pub fn from_accounts(accounts: &DeactivateStakeAccounts) -> (r: Self)
        ensures
            r.spec_pubkeys() == keys_of(accounts.spec_handles()),
    {
        let r = DeactivateStakeKeys {
            state: accounts.state.key,
            reserve_pda: accounts.reserve_pda.key,
            validator_list: accounts.validator_list.key,
            stake_list: accounts.stake_list.key,
            stake_account: accounts.stake_account.key,
            stake_deposit_authority: accounts.stake_deposit_authority.key,
            split_stake_account: accounts.split_stake_account.key,
            split_stake_rent_payer: accounts.split_stake_rent_payer.key,
            clock: accounts.clock.key,
            rent: accounts.rent.key,
            epoch_schedule: accounts.epoch_schedule.key,
            stake_history: accounts.stake_history.key,
            system_program: accounts.system_program.key,
            stake_program: accounts.stake_program.key,
        };
        assert(r.spec_pubkeys() =~= keys_of(accounts.spec_handles()));
        r
    }

    /// The account list of `deactivate_stake`: one entry per role, in account order,
    /// each with the fixed flags of its role.
    pub fn account_metas(&self) -> (r: Vec<AccountMeta>)
        ensures
            r@.len() == DEACTIVATE_STAKE_IX_ACCOUNTS_LEN,
            r@ == spec_metas(
                self.spec_pubkeys(),
                DEACTIVATE_STAKE_IX_SIGNERS@,
                DEACTIVATE_STAKE_IX_WRITABLES@,
            ),
    {
        let keys = self.pubkeys();
        account_metas(&keys, &DEACTIVATE_STAKE_IX_SIGNERS, &DEACTIVATE_STAKE_IX_WRITABLES)
    }
}

pub const DEACTIVATE_STAKE_IX_DISCM: [u8; 8] = [165, 158, 229, 97, 168, 220, 187, 225];

/// The arguments of `deactivate_stake`.
#[derive(Clone, Copy, Debug, PartialEq, Eq)]
pub struct DeactivateStakeIxArgs {
    pub stake_index: u32,
    pub validator_index: u32,
}

/// Laid out as its fields in declared order.
impl WireFormat for DeactivateStakeIxArgs {
    open spec fn spec_encode(&self) -> Seq<u8> {
        (self.stake_index, self.validator_index).spec_encode()
    }

    open spec fn spec_parse(s: Seq<u8>) -> Result<(DeactivateStakeIxArgs, nat), DecodeError> {
        match <(u32, u32) as WireFormat>::spec_parse(s) {
            Ok(((stake_index, validator_index), n)) => Ok((DeactivateStakeIxArgs {
                stake_index,
                validator_index,
            }, n)),
            Err(e) => Err(e),
        }
    }

    proof fn lemma_parse_encode(&self, rest: Seq<u8>) {
        (self.stake_index, self.validator_index).lemma_parse_encode(rest);
    }

    fn encode(&self, out: &mut Vec<u8>) {
        (self.stake_index, self.validator_index).encode(out);
    }

    fn decode(buf: &[u8], pos: usize) -> (r: Result<(DeactivateStakeIxArgs, usize), DecodeError>) {
        match <(u32, u32) as WireFormat>::decode(buf, pos) {
            Ok(((stake_index, validator_index), end)) => Ok((DeactivateStakeIxArgs {
                stake_index,
                validator_index,
            }, end)),
            Err(e) => Err(e),
        }
    }
}

/// The data of a `deactivate_stake` instruction: its discriminant, then its arguments.
#[derive(Clone, Copy, Debug, PartialEq, Eq)]
pub struct DeactivateStakeIxData(pub DeactivateStakeIxArgs);

impl DeactivateStakeIxData {
    /// Reads the data of a `deactivate_stake` instruction from the front of `buf`;
    /// bytes after it are left unread.
    pub fn deserialize(buf: &[u8]) -> (r: Result<Self, DecodeError>)
        ensures
            match spec_parse_tagged::<DeactivateStakeIxArgs>(DEACTIVATE_STAKE_IX_DISCM, buf@) {
                Ok(args) => r == Ok::<Self, DecodeError>(DeactivateStakeIxData(args)),
                Err(e) => r == Err::<Self, DecodeError>(e),
            },
    {
        match parse_tagged::<DeactivateStakeIxArgs>(&DEACTIVATE_STAKE_IX_DISCM, buf) {
            Ok(args) => Ok(DeactivateStakeIxData(args)),
            Err(e) => Err(e),
        }
    }

    /// Appends the discriminant of `deactivate_stake` and then the arguments to `out`.
    pub fn serialize(&self, out: &mut Vec<u8>)
        ensures
            final(out)@ == old(out)@ + DEACTIVATE_STAKE_IX_DISCM@ + self.0.spec_encode(),
    {
        write_tagged(&DEACTIVATE_STAKE_IX_DISCM, &self.0, out);
    }

    /// The bytes of the instruction data.
    pub fn try_to_vec(&self) -> (r: Vec<u8>)
        ensures
            r@ == DEACTIVATE_STAKE_IX_DISCM@ + self.0.spec_encode(),
    {
        let mut data: Vec<u8> = Vec::new();
        self.serialize(&mut data);
        assert(data@ =~= DEACTIVATE_STAKE_IX_DISCM@ + self.0.spec_encode());
        data
    }
}

/// The `deactivate_stake` instruction for `keys` and `args`, addressed to the program.
pub fn deactivate_stake_ix(
    keys: DeactivateStakeKeys,
    args: DeactivateStakeIxArgs,
) -> (r: Instruction)
    ensures
        r.program_id == Pubkey(ID_BYTES),
        r.accounts@ == spec_metas(
            keys.spec_pubkeys(),
            DEACTIVATE_STAKE_IX_SIGNERS@,
            DEACTIVATE_STAKE_IX_WRITABLES@,
        ),
        r.data@ == DEACTIVATE_STAKE_IX_DISCM@ + args.spec_encode(),
{
    Instruction {
        program_id: Pubkey(ID_BYTES),
        accounts: keys.account_metas(),
        data: DeactivateStakeIxData(args).try_to_vec(),
    }
}

/// Compares the addresses of `accounts` with `keys` in account order and
/// reports the first pair (actual, expected) that differs.
pub fn deactivate_stake_verify_account_keys(
    accounts: DeactivateStakeAccounts,
    keys: DeactivateStakeKeys,
) -> (r: Result<(), (Pubkey, Pubkey)>)
    ensures
        keys_checked(keys_of(accounts.spec_handles()), keys.spec_pubkeys(), r),
{
    let actual = DeactivateStakeKeys::from_accounts(&accounts).pubkeys();
    let expected = keys.pubkeys();
    verify_keys(&actual, &expected)
}

/// Checks that the accounts in writable roles are writable and then that
/// the accounts in signing roles have signed; reports the first that is not.
pub fn deactivate_stake_verify_account_privileges(
    accounts: DeactivateStakeAccounts,
) -> (r: Result<(), (AccountHandle, PrivilegeError)>)
    ensures
        privileges_checked(
            accounts.spec_handles(),
            DEACTIVATE_STAKE_IX_SIGNERS@,
            DEACTIVATE_STAKE_IX_WRITABLES@,
            r,
        ),
{
    let handles = accounts.handles();
    verify_privileges(&handles, &DEACTIVATE_STAKE_IX_SIGNERS, &DEACTIVATE_STAKE_IX_WRITABLES)
}

pub const EMERGENCY_UNSTAKE_IX_ACCOUNTS_LEN: usize = 8;

/// Whether each account of `emergency_unstake` must sign, in account order.
pub const EMERGENCY_UNSTAKE_IX_SIGNERS: [bool; 8] = [
    false, true, false, false, false, false, false, false,
];

/// Whether each account of `emergency_unstake` must be writable, in account order.
pub const EMERGENCY_UNSTAKE_IX_WRITABLES: [bool; 8] = [
    true, false, true, true, true, false, false, false,
];

/// The accounts of `emergency_unstake` as the runtime hands them over.
#[derive(Clone, Copy, Debug, PartialEq, Eq)]
pub struct EmergencyUnstakeAccounts {
    /// Writable.
    pub state: AccountHandle,
    /// Signer.
    pub validator_manager_authority: AccountHandle,
    /// Writable.
    pub validator_list: AccountHandle,
    /// Writable.
    pub stake_list: AccountHandle,
    /// Writable.
    pub stake_account: AccountHandle,
    /// Read-only.
    pub stake_deposit_authority: AccountHandle,
    /// Read-only.
    pub clock: AccountHandle,
    /// Read-only.
    pub stake_program: AccountHandle,
}

/// The addresses of the accounts of `emergency_unstake`.
#[derive(Clone, Copy, Debug, PartialEq, Eq)]
pub struct EmergencyUnstakeKeys {
    /// Writable.
    pub state: Pubkey,
    /// Signer.
    pub validator_manager_authority: Pubkey,
    /// Writable.
    pub validator_list: Pubkey,
    /// Writable.
    pub stake_list: Pubkey,
    /// Writable.
    pub stake_account: Pubkey,
    /// Read-only.
    pub stake_deposit_authority: Pubkey,
    /// Read-only.
    pub clock: Pubkey,
    /// Read-only.
    pub stake_program: Pubkey,
}

impl EmergencyUnstakeAccounts {
    /// The accounts in account order.
    pub open spec fn spec_handles(&self) -> Seq<AccountHandle> {
        seq![
            self.state,
            self.validator_manager_authority,
            self.validator_list,
            self.stake_list,
            self.stake_account,
            self.stake_deposit_authority,
            self.clock,
            self.stake_program,
        ]
    }

    /// The accounts as an array in account order.
    pub fn handles(&self) -> (r: [AccountHandle; 8])
        ensures
            r@ == self.spec_handles(),
    {
        let r = [
            self.state,
            self.validator_manager_authority,
            self.validator_list,
            self.stake_list,
            self.stake_account,
            self.stake_deposit_authority,
            self.clock,
            self.stake_program,
        ];
        assert(r@ =~= self.spec_handles());
        r
    }

    /// The accounts read from an array in account order.
    pub fn from_handles(arr: [AccountHandle; 8]) -> (r: Self)
        ensures
            r.spec_handles() == arr@,
    {
        let r = EmergencyUnstakeAccounts {
            state: arr[0],
            validator_manager_authority: arr[1],
            validator_list: arr[2],
            stake_list: arr[3],
            stake_account: arr[4],
            stake_deposit_authority: arr[5],
            clock: arr[6],
            stake_program: arr[7],
        };
        assert(r.spec_handles() =~= arr@);
        r
    }
}

impl EmergencyUnstakeKeys {
    /// The addresses in account order.
    pub open spec fn spec_pubkeys(&self) -> Seq<Pubkey> {
        seq![
            self.state,
            self.validator_manager_authority,
            self.validator_list,
            self.stake_list,
            self.stake_account,
            self.stake_deposit_authority,
            self.clock,
            self.stake_program,
        ]
    }

    /// The addresses as an array in account order.
    pub fn pubkeys(&self) -> (r: [Pubkey; 8])
        ensures
            r@ == self.spec_pubkeys(),
    {
        let r = [
            self.state,
            self.validator_manager_authority,
            self.validator_list,
            self.stake_list,
            self.stake_account,
            self.stake_deposit_authority,
            self.clock,
            self.stake_program,
        ];
        assert(r@ =~= self.spec_pubkeys());
        r
    }

    /// The addresses read from an array in account order.
    pub fn from_pubkeys(arr: [Pubkey; 8]) -> (r: Self)
        ensures
            r.spec_pubkeys() == arr@,
    {
        let r = EmergencyUnstakeKeys {
            state: arr[0],
            validator_manager_authority: arr[1],
            validator_list: arr[2],
            stake_list: arr[3],
            stake_account: arr[4],
            stake_deposit_authority: arr[5],
            clock: arr[6],
            stake_program: arr[7],
        };
        assert(r.spec_pubkeys() =~= arr@);
        r
    }

    /// The addresses of `accounts`.
    pub fn from_accounts(accounts: &EmergencyUnstakeAccounts) -> (r: Self)
        ensures
            r.spec_pubkeys() == keys_of(accounts.spec_handles()),
    {
        let r = EmergencyUnstakeKeys {
            state: accounts.state.key,
            validator_manager_authority: accounts.validator_manager_authority.key,
            validator_list: accounts.validator_list.key,
            stake_list: accounts.stake_list.key,
            stake_account: accounts.stake_account.key,
            stake_deposit_authority: accounts.stake_deposit_authority.key,
            clock: accounts.clock.key,
            stake_program: accounts.stake_program.key,
        };
        assert(r.spec_pubkeys() =~= keys_of(accounts.spec_handles()));
        r
    }

    /// The account list of `emergency_unstake`: one entry per role, in account order,
    /// each with the fixed flags of its role.
    pub fn account_metas(&self) -> (r: Vec<AccountMeta>)
        ensures
            r@.len() == EMERGENCY_UNSTAKE_IX_ACCOUNTS_LEN,
            r@ == spec_metas(
                self.spec_pubkeys(),
                EMERGENCY_UNSTAKE_IX_SIGNERS@,
                EMERGENCY_UNSTAKE_IX_WRITABLES@,
            ),
    {
        let keys = self.pubkeys();
        account_metas(&keys, &EMERGENCY_UNSTAKE_IX_SIGNERS, &EMERGENCY_UNSTAKE_IX_WRITABLES)
    }
}

pub const EMERGENCY_UNSTAKE_IX_DISCM: [u8; 8] = [123, 69, 168, 195, 183, 213, 199, 214];

/// The arguments of `emergency_unstake`.
#[derive(Clone, Copy, Debug, PartialEq, Eq)]
pub struct EmergencyUnstakeIxArgs {
    pub stake_index: u32,
    pub validator_index: u32,
}

/// Laid out as its fields in declared order.
impl WireFormat for EmergencyUnstakeIxArgs {
    open spec fn spec_encode(&self) -> Seq<u8> {
        (self.stake_index, self.validator_index).spec_encode()
    }

    open spec fn spec_parse(s: Seq<u8>) -> Result<(EmergencyUnstakeIxArgs, nat), DecodeError> {
        match <(u32, u32) as WireFormat>::spec_parse(s) {
            Ok(((stake_index, validator_index), n)) => Ok((EmergencyUnstakeIxArgs {
                stake_index,
                validator_index,
            }, n)),
            Err(e) => Err(e),
        }
    }

    proof fn lemma_parse_encode(&self, rest: Seq<u8>) {
        (self.stake_index, self.validator_index).lemma_parse_encode(rest);
    }

    fn encode(&self, out: &mut Vec<u8>) {
        (self.stake_index, self.validator_index).encode(out);
    }

    fn decode(buf: &[u8], pos: usize) -> (r: Result<(EmergencyUnstakeIxArgs, usize), DecodeError>) {
        match <(u32, u32) as WireFormat>::decode(buf, pos) {
            Ok(((stake_index, validator_index), end)) => Ok((EmergencyUnstakeIxArgs {
                stake_index,
                validator_index,
            }, end)),
            Err(e) => Err(e),
        }
    }
}

/// The data of a `emergency_unstake` instruction: its discriminant, then its arguments.
#[derive(Clone, Copy, Debug, PartialEq, Eq)]
pub struct EmergencyUnstakeIxData(pub EmergencyUnstakeIxArgs);

impl EmergencyUnstakeIxData {
    /// Reads the data of a `emergency_unstake` instruction from the front of `buf`;
    /// bytes after it are left unread.
    pub fn deserialize(buf: &[u8]) -> (r: Result<Self, DecodeError>)
        ensures
            match spec_parse_tagged::<EmergencyUnstakeIxArgs>(EMERGENCY_UNSTAKE_IX_DISCM, buf@) {
                Ok(args) => r == Ok::<Self, DecodeError>(EmergencyUnstakeIxData(args)),
                Err(e) => r == Err::<Self, DecodeError>(e),
            },
    {
        match parse_tagged::<EmergencyUnstakeIxArgs>(&EMERGENCY_UNSTAKE_IX_DISCM, buf) {
            Ok(args) => Ok(EmergencyUnstakeIxData(args)),
            Err(e) => Err(e),
        }
    }

    /// Appends the discriminant of `emergency_unstake` and then the arguments to `out`.
    pub fn serialize(&self, out: &mut Vec<u8>)
        ensures
            final(out)@ == old(out)@ + EMERGENCY_UNSTAKE_IX_DISCM@ + self.0.spec_encode(),
    {
        write_tagged(&EMERGENCY_UNSTAKE_IX_DISCM, &self.0, out);
    }

    /// The bytes of the instruction data.
    pub fn try_to_vec(&self) -> (r: Vec<u8>)
        ensures
            r@ == EMERGENCY_UNSTAKE_IX_DISCM@ + self.0.spec_encode(),
    {
        let mut data: Vec<u8> = Vec::new();
        self.serialize(&mut data);
        assert(data@ =~= EMERGENCY_UNSTAKE_IX_DISCM@ + self.0.spec_encode());
        data
    }
}

/// The `emergency_unstake` instruction for `keys` and `args`, addressed to the program.
pub fn emergency_unstake_ix(
    keys: EmergencyUnstakeKeys,
    args: EmergencyUnstakeIxArgs,
) -> (r: Instruction)
    ensures
        r.program_id == Pubkey(ID_BYTES),
        r.accounts@ == spec_metas(
            keys.spec_pubkeys(),
            EMERGENCY_UNSTAKE_IX_SIGNERS@,
            EMERGENCY_UNSTAKE_IX_WRITABLES@,
        ),
        r.data@ == EMERGENCY_UNSTAKE_IX_DISCM@ + args.spec_encode(),
{
    Instruction {
        program_id: Pubkey(ID_BYTES),
        accounts: keys.account_metas(),
        data: EmergencyUnstakeIxData(args).try_to_vec(),
    }
}

/// Compares the addresses of `accounts` with `keys` in account order and
/// reports the first pair (actual, expected) that differs.
pub fn emergency_unstake_verify_account_keys(
    accounts: EmergencyUnstakeAccounts,
    keys: EmergencyUnstakeKeys,
) -> (r: Result<(), (Pubkey, Pubkey)>)
    ensures
        keys_checked(keys_of(accounts.spec_handles()), keys.spec_pubkeys(), r),
{
    let actual = EmergencyUnstakeKeys::from_accounts(&accounts).pubkeys();
    let expected = keys.pubkeys();
    verify_keys(&actual, &expected)
}

/// Checks that the accounts in writable roles are writable and then that
/// the accounts in signing roles have signed; reports the first that is not.
pub fn emergency_unstake_verify_account_privileges(
    accounts: EmergencyUnstakeAccounts,
) -> (r: Result<(), (AccountHandle, PrivilegeError)>)
    ensures
        privileges_checked(
            accounts.spec_handles(),
            EMERGENCY_UNSTAKE_IX_SIGNERS@,
            EMERGENCY_UNSTAKE_IX_WRITABLES@,
            r,
        ),
{
    let handles = accounts.handles();
    verify_privileges(&handles, &EMERGENCY_UNSTAKE_IX_SIGNERS, &EMERGENCY_UNSTAKE_IX_WRITABLES)
}

pub const PARTIAL_UNSTAKE_IX_ACCOUNTS_LEN: usize = 14;

/// Whether each account of `partial_unstake` must sign, in account order.
pub const PARTIAL_UNSTAKE_IX_SIGNERS: [bool; 14] = [
    false, true, false, false, false, false, false, true, true, false, false, false, false, false,
];

/// Whether each account of `partial_unstake` must be writable, in account order.
pub const PARTIAL_UNSTAKE_IX_WRITABLES: [bool; 14] = [
    true, false, true, true, true, false, false, true, true, false, false, false, false, false,
];

/// The accounts of `partial_unstake` as the runtime hands them over.
#[derive(Clone, Copy, Debug, PartialEq, Eq)]
pub struct PartialUnstakeAccounts {
    /// Writable.
    pub state: AccountHandle,
    /// Signer.
    pub validator_manager_authority: AccountHandle,
    /// Writable.
    pub validator_list: AccountHandle,
    /// Writable.
    pub stake_list: AccountHandle,
    /// Writable.
    pub stake_account: AccountHandle,
    /// Read-only.
    pub stake_deposit_authority: AccountHandle,
    /// Read-only.
    pub reserve_pda: AccountHandle,
    /// Signer, writable.
    pub split_stake_account: AccountHandle,
    /// Signer, writable.
    pub split_stake_rent_payer: AccountHandle,
    /// Read-only.
    pub clock: AccountHandle,
    /// Read-only.
    pub rent: AccountHandle,
    /// Read-only.
    pub stake_history: AccountHandle,
    /// Read-only.
    pub system_program: AccountHandle,
    /// Read-only.
    pub stake_program: AccountHandle,
}

/// The addresses of the accounts of `partial_unstake`.
#[derive(Clone, Copy, Debug, PartialEq, Eq)]
pub struct PartialUnstakeKeys {
    /// Writable.
    pub state: Pubkey,
    /// Signer.
    pub validator_manager_authority: Pubkey,
    /// Writable.
    pub validator_list: Pubkey,
    /// Writable.
    pub stake_list: Pubkey,
    /// Writable.
    pub stake_account: Pubkey,
    /// Read-only.
    pub stake_deposit_authority: Pubkey,
    /// Read-only.
    pub reserve_pda: Pubkey,
    /// Signer, writable.
    pub split_stake_account: Pubkey,
    /// Signer, writable.
    pub split_stake_rent_payer: Pubkey,
    /// Read-only.
    pub clock: Pubkey,
    /// Read-only.
    pub rent: Pubkey,
    /// Read-only.
    pub stake_history: Pubkey,
    /// Read-only.
    pub system_program: Pubkey,
    /// Read-only.
    pub stake_program: Pubkey,
}

impl PartialUnstakeAccounts {
    /// The accounts in account order.
    pub open spec fn spec_handles(&self) -> Seq<AccountHandle> {
        seq![
            self.state,
            self.validator_manager_authority,
            self.validator_list,
            self.stake_list,
            self.stake_account,
            self.stake_deposit_authority,
            self.reserve_pda,
            self.split_stake_account,
            self.split_stake_rent_payer,
            self.clock,
            self.rent,
            self.stake_history,
            self.system_program,
            self.stake_program,
        ]
    }

    /// The accounts as an array in account order.
    pub fn handles(&self) -> (r: [AccountHandle; 14])
        ensures
            r@ == self.spec_handles(),
    {
        let r = [
            self.state,
            self.validator_manager_authority,
            self.validator_list,
            self.stake_list,
            self.stake_account,
            self.stake_deposit_authority,
            self.reserve_pda,
            self.split_stake_account,
            self.split_stake_rent_payer,
            self.clock,
            self.rent,
            self.stake_history,
            self.system_program,
            self.stake_program,
        ];
        assert(r@ =~= self.spec_handles());
        r
    }

    /// The accounts read from an array in account order.
    pub fn from_handles(arr: [AccountHandle; 14]) -> (r: Self)
        ensures
            r.spec_handles() == arr@,
    {
        let r = PartialUnstakeAccounts {
            state: arr[0],
            validator_manager_authority: arr[1],
            validator_list: arr[2],
            stake_list: arr[3],
            stake_account: arr[4],
            stake_deposit_authority: arr[5],
            reserve_pda: arr[6],
            split_stake_account: arr[7],
            split_stake_rent_payer: arr[8],
            clock: arr[9],
            rent: arr[10],
            stake_history: arr[11],
            system_program: arr[12],
            stake_program: arr[13],
        };
        assert(r.spec_handles() =~= arr@);
        r
    }
}

impl PartialUnstakeKeys {
    /// The addresses in account order.
    pub open spec fn spec_pubkeys(&self) -> Seq<Pubkey> {
        seq![
            self.state,
            self.validator_manager_authority,
            self.validator_list,
            self.stake_list,
            self.stake_account,
            self.stake_deposit_authority,
            self.reserve_pda,
            self.split_stake_account,
            self.split_stake_rent_payer,
            self.clock,
            self.rent,
            self.stake_history,
            self.system_program,
            self.stake_program,
        ]
    }

    /// The addresses as an array in account order.
    pub fn pubkeys(&self) -> (r: [Pubkey; 14])
        ensures
            r@ == self.spec_pubkeys(),
    {
        let r = [
            self.state,
            self.validator_manager_authority,
            self.validator_list,
            self.stake_list,
            self.stake_account,
            self.stake_deposit_authority,
            self.reserve_pda,
            self.split_stake_account,
            self.split_stake_rent_payer,
            self.clock,
            self.rent,
            self.stake_history,
            self.system_program,
            self.stake_program,
        ];
        assert(r@ =~= self.spec_pubkeys());
        r
    }

    /// The addresses read from an array in account order.
    pub fn from_pubkeys(arr: [Pubkey; 14]) -> (r: Self)
        ensures
            r.spec_pubkeys() == arr@,
    {
        let r = PartialUnstakeKeys {
            state: arr[0],
            validator_manager_authority: arr[1],
            validator_list: arr[2],
            stake_list: arr[3],
            stake_account: arr[4],
            stake_deposit_authority: arr[5],
            reserve_pda: arr[6],
            split_stake_account: arr[7],
            split_stake_rent_payer: arr[8],
            clock: arr[9],
            rent: arr[10],
            stake_history: arr[11],
            system_program: arr[12],
            stake_program: arr[13],
        };
        assert(r.spec_pubkeys() =~= arr@);
        r
    }

    /// The addresses of `accounts`.
    pub fn from_accounts(accounts: &PartialUnstakeAccounts) -> (r: Self)
        ensures
            r.spec_pubkeys() == keys_of(accounts.spec_handles()),
    {
        let r = PartialUnstakeKeys {
            state: accounts.state.key,
            validator_manager_authority: accounts.validator_manager_authority.key,
            validator_list: accounts.validator_list.key,
            stake_list: accounts.stake_list.key,
            stake_account: accounts.stake_account.key,
            stake_deposit_authority: accounts.stake_deposit_authority.key,
            reserve_pda: accounts.reserve_pda.key,
            split_stake_account: accounts.split_stake_account.key,
            split_stake_rent_payer: accounts.split_stake_rent_payer.key,
            clock: accounts.clock.key,
            rent: accounts.rent.key,
            stake_history: accounts.stake_history.key,
            system_program: accounts.system_program.key,
            stake_program: accounts.stake_program.key,
        };
        assert(r.spec_pubkeys() =~= keys_of(accounts.spec_handles()));
        r
    }

    /// The account list of `partial_unstake`: one entry per role, in account order,
    /// each with the fixed flags of its role.
    pub fn account_metas(&self) -> (r: Vec<AccountMeta>)
        ensures
            r@.len() == PARTIAL_UNSTAKE_IX_ACCOUNTS_LEN,
            r@ == spec_metas(
                self.spec_pubkeys(),
                PARTIAL_UNSTAKE_IX_SIGNERS@,
                PARTIAL_UNSTAKE_IX_WRITABLES@,
            ),
    {
        let keys = self.pubkeys();
        account_metas(&keys, &PARTIAL_UNSTAKE_IX_SIGNERS, &PARTIAL_UNSTAKE_IX_WRITABLES)
    }
}

pub const PARTIAL_UNSTAKE_IX_DISCM: [u8; 8] = [55, 241, 205, 221, 45, 114, 205, 163];

/// The arguments of `partial_unstake`.
#[derive(Clone, Copy, Debug, PartialEq, Eq)]
pub struct PartialUnstakeIxArgs {
    pub stake_index: u32,
    pub validator_index: u32,
    pub desired_unstake_amount: u64,
}

/// Laid out as its fields in declared order.
impl WireFormat for PartialUnstakeIxArgs {
    open spec fn spec_encode(&self) -> Seq<u8> {
        (self.stake_index, (self.validator_index, self.desired_unstake_amount)).spec_encode()
    }

    open spec fn spec_parse(s: Seq<u8>) -> Result<(PartialUnstakeIxArgs, nat), DecodeError> {
        match <(u32, (u32, u64)) as WireFormat>::spec_parse(s) {
            Ok(((stake_index, (validator_index, desired_unstake_amount)), n)) =>
                Ok((PartialUnstakeIxArgs {
                    stake_index,
                    validator_index,
                    desired_unstake_amount,
                }, n)),
            Err(e) => Err(e),
        }
    }

    proof fn lemma_parse_encode(&self, rest: Seq<u8>) {
        (self.stake_index,
            (self.validator_index,
                self.desired_unstake_amount)).lemma_parse_encode(rest);
    }

    fn encode(&self, out: &mut Vec<u8>) {
        (self.stake_index, (self.validator_index, self.desired_unstake_amount)).encode(out);
    }

    fn decode(buf: &[u8], pos: usize) -> (r: Result<(PartialUnstakeIxArgs, usize), DecodeError>) {
        match <(u32, (u32, u64)) as WireFormat>::decode(buf, pos) {
            Ok(((stake_index, (validator_index, desired_unstake_amount)), end)) =>
                Ok((PartialUnstakeIxArgs {
                    stake_index,
                    validator_index,
                    desired_unstake_amount,
                }, end)),
            Err(e) => Err(e),
        }
    }
}

/// The data of a `partial_unstake` instruction: its discriminant, then its arguments.
#[derive(Clone, Copy, Debug, PartialEq, Eq)]
pub struct PartialUnstakeIxData(pub PartialUnstakeIxArgs);

impl PartialUnstakeIxData {
    /// Reads the data of a `partial_unstake` instruction from the front of `buf`;
    /// bytes after it are left unread.
    pub fn deserialize(buf: &[u8]) -> (r: Result<Self, DecodeError>)
        ensures
            match spec_parse_tagged::<PartialUnstakeIxArgs>(PARTIAL_UNSTAKE_IX_DISCM, buf@) {
                Ok(args) => r == Ok::<Self, DecodeError>(PartialUnstakeIxData(args)),
                Err(e) => r == Err::<Self, DecodeError>(e),
            },
    {
        match parse_tagged::<PartialUnstakeIxArgs>(&PARTIAL_UNSTAKE_IX_DISCM, buf) {
            Ok(args) => Ok(PartialUnstakeIxData(args)),
            Err(e) => Err(e),
        }
    }

    /// Appends the discriminant of `partial_unstake` and then the arguments to `out`.
    pub fn serialize(&self, out: &mut Vec<u8>)
        ensures
            final(out)@ == old(out)@ + PARTIAL_UNSTAKE_IX_DISCM@ + self.0.spec_encode(),
    {
        write_tagged(&PARTIAL_UNSTAKE_IX_DISCM, &self.0, out);
    }

    /// The bytes of the instruction data.
    pub fn try_to_vec(&self) -> (r: Vec<u8>)
        ensures
            r@ == PARTIAL_UNSTAKE_IX_DISCM@ + self.0.spec_encode(),
    {
        let mut data: Vec<u8> = Vec::new();
        self.serialize(&mut data);
        assert(data@ =~= PARTIAL_UNSTAKE_IX_DISCM@ + self.0.spec_encode());
        data
    }
}

/// The `partial_unstake` instruction for `keys` and `args`, addressed to the program.
pub fn partial_unstake_ix(keys: PartialUnstakeKeys, args: PartialUnstakeIxArgs) -> (r: Instruction)
    ensures
        r.program_id == Pubkey(ID_BYTES),
        r.accounts@ == spec_metas(
            keys.spec_pubkeys(),
            PARTIAL_UNSTAKE_IX_SIGNERS@,
            PARTIAL_UNSTAKE_IX_WRITABLES@,
        ),
        r.data@ == PARTIAL_UNSTAKE_IX_DISCM@ + args.spec_encode(),
{
    Instruction {
        program_id: Pubkey(ID_BYTES),
        accounts: keys.account_metas(),
        data: PartialUnstakeIxData(args).try_to_vec(),
    }
}

/// Compares the addresses of `accounts` with `keys` in account order and
/// reports the first pair (actual, expected) that differs.
pub fn partial_unstake_verify_account_keys(
    accounts: PartialUnstakeAccounts,
    keys: PartialUnstakeKeys,
) -> (r: Result<(), (Pubkey, Pubkey)>)
    ensures
        keys_checked(keys_of(accounts.spec_handles()), keys.spec_pubkeys(), r),
{
    let actual = PartialUnstakeKeys::from_accounts(&accounts).pubkeys();
    let expected = keys.pubkeys();
    verify_keys(&actual, &expected)
}

/// Checks that the accounts in writable roles are writable and then that
/// the accounts in signing roles have signed; reports the first that is not.
pub fn partial_unstake_verify_account_privileges(
    accounts: PartialUnstakeAccounts,
) -> (r: Result<(), (AccountHandle, PrivilegeError)>)
    ensures
        privileges_checked(
            accounts.spec_handles(),
            PARTIAL_UNSTAKE_IX_SIGNERS@,
            PARTIAL_UNSTAKE_IX_WRITABLES@,
            r,
        ),
{
    let handles = accounts.handles();
    verify_privileges(&handles, &PARTIAL_UNSTAKE_IX_SIGNERS, &PARTIAL_UNSTAKE_IX_WRITABLES)
}

pub const MERGE_STAKES_IX_ACCOUNTS_LEN: usize = 11;

/// Whether each account of `merge_stakes` must sign, in account order.
pub const MERGE_STAKES_IX_SIGNERS: [bool; 11] = [
    false, false, false, false, false, false, false, false, false, false, false,
];

/// Whether each account of `merge_stakes` must be writable, in account order.
pub const MERGE_STAKES_IX_WRITABLES: [bool; 11] = [
    true, true, true, true, true, false, false, true, false, false, false,
];

/// The accounts of `merge_stakes` as the runtime hands them over.
#[derive(Clone, Copy, Debug, PartialEq, Eq)]
pub struct MergeStakesAccounts {
    /// Writable.
    pub state: AccountHandle,
    /// Writable.
    pub stake_list: AccountHandle,
    /// Writable.
    pub validator_list: AccountHandle,
    /// Writable.
    pub destination_stake: AccountHandle,
    /// Writable.
    pub source_stake: AccountHandle,
    /// Read-only.
    pub stake_deposit_authority: AccountHandle,
    /// Read-only.
    pub stake_withdraw_authority: AccountHandle,
    /// Writable.
    pub operational_sol_account: AccountHandle,
    /// Read-only.
    pub clock: AccountHandle,
    /// Read-only.
    pub stake_history: AccountHandle,
    /// Read-only.
    pub stake_program: AccountHandle,
}

/// The addresses of the accounts of `merge_stakes`.
#[derive(Clone, Copy, Debug, PartialEq, Eq)]
pub struct MergeStakesKeys {
    /// Writable.
    pub state: Pubkey,
    /// Writable.
    pub stake_list: Pubkey,
    /// Writable.
    pub validator_list: Pubkey,
    /// Writable.
    pub destination_stake: Pubkey,
    /// Writable.
    pub source_stake: Pubkey,
    /// Read-only.
    pub stake_deposit_authority: Pubkey,
    /// Read-only.
    pub stake_withdraw_authority: Pubkey,
    /// Writable.
    pub operational_sol_account: Pubkey,
    /// Read-only.
    pub clock: Pubkey,
    /// Read-only.
    pub stake_history: Pubkey,
    /// Read-only.
    pub stake_program: Pubkey,
}

impl MergeStakesAccounts {
    /// The accounts in account order.
    pub open spec fn spec_handles(&self) -> Seq<AccountHandle> {
        seq![
            self.state,
            self.stake_list,
            self.validator_list,
            self.destination_stake,
            self.source_stake,
            self.stake_deposit_authority,
            self.stake_withdraw_authority,
            self.operational_sol_account,
            self.clock,
            self.stake_history,
            self.stake_program,
        ]
    }

    /// The accounts as an array in account order.
    pub fn handles(&self) -> (r: [AccountHandle; 11])
        ensures
            r@ == self.spec_handles(),
    {
        let r = [
            self.state,
            self.stake_list,
            self.validator_list,
            self.destination_stake,
            self.source_stake,
            self.stake_deposit_authority,
            self.stake_withdraw_authority,
            self.operational_sol_account,
            self.clock,
            self.stake_history,
            self.stake_program,
        ];
        assert(r@ =~= self.spec_handles());
        r
    }

    /// The accounts read from an array in account order.
    pub fn from_handles(arr: [AccountHandle; 11]) -> (r: Self)
        ensures
            r.spec_handles() == arr@,
    {
        let r = MergeStakesAccounts {
            state: arr[0],
            stake_list: arr[1],
            validator_list: arr[2],
            destination_stake: arr[3],
            source_stake: arr[4],
            stake_deposit_authority: arr[5],
            stake_withdraw_authority: arr[6],
            operational_sol_account: arr[7],
            clock: arr[8],
            stake_history: arr[9],
            stake_program: arr[10],
        };
        assert(r.spec_handles() =~= arr@);
        r
    }
}

impl MergeStakesKeys {
    /// The addresses in account order.
    pub open spec fn spec_pubkeys(&self) -> Seq<Pubkey> {
        seq![
            self.state,
            self.stake_list,
            self.validator_list,
            self.destination_stake,
            self.source_stake,
            self.stake_deposit_authority,
            self.stake_withdraw_authority,
            self.operational_sol_account,
            self.clock,
            self.stake_history,
            self.stake_program,
        ]
    }

    /// The addresses as an array in account order.
    pub fn pubkeys(&self) -> (r: [Pubkey; 11])
        ensures
            r@ == self.spec_pubkeys(),
    {
        let r = [
            self.state,
            self.stake_list,
            self.validator_list,
            self.destination_stake,
            self.source_stake,
            self.stake_deposit_authority,
            self.stake_withdraw_authority,
            self.operational_sol_account,
            self.clock,
            self.stake_history,
            self.stake_program,
        ];
        assert(r@ =~= self.spec_pubkeys());
        r
    }

    /// The addresses read from an array in account order.
    pub fn from_pubkeys(arr: [Pubkey; 11]) -> (r: Self)
        ensures
            r.spec_pubkeys() == arr@,
    {
        let r = MergeStakesKeys {
            state: arr[0],
            stake_list: arr[1],
            validator_list: arr[2],
            destination_stake: arr[3],
            source_stake: arr[4],
            stake_deposit_authority: arr[5],
            stake_withdraw_authority: arr[6],
            operational_sol_account: arr[7],
            clock: arr[8],
            stake_history: arr[9],
            stake_program: arr[10],
        };
        assert(r.spec_pubkeys() =~= arr@);
        r
    }

    /// The addresses of `accounts`.
    pub fn from_accounts(accounts: &MergeStakesAccounts) -> (r: Self)
        ensures
            r.spec_pubkeys() == keys_of(accounts.spec_handles()),
    {
        let r = MergeStakesKeys {
            state: accounts.state.key,
            stake_list: accounts.stake_list.key,
            validator_list: accounts.validator_list.key,
            destination_stake: accounts.destination_stake.key,
            source_stake: accounts.source_stake.key,
            stake_deposit_authority: accounts.stake_deposit_authority.key,
            stake_withdraw_authority: accounts.stake_withdraw_authority.key,
            operational_sol_account: accounts.operational_sol_account.key,
            clock: accounts.clock.key,
            stake_history: accounts.stake_history.key,
            stake_program: accounts.stake_program.key,
        };
        assert(r.spec_pubkeys() =~= keys_of(accounts.spec_handles()));
        r
    }

    /// The account list of `merge_stakes`: one entry per role, in account order,
    /// each with the fixed flags of its role.
    pub fn account_metas(&self) -> (r: Vec<AccountMeta>)
        ensures
            r@.len() == MERGE_STAKES_IX_ACCOUNTS_LEN,
            r@ == spec_metas(
                self.spec_pubkeys(),
                MERGE_STAKES_IX_SIGNERS@,
                MERGE_STAKES_IX_WRITABLES@,
            ),
    {
        let keys = self.pubkeys();
        account_metas(&keys, &MERGE_STAKES_IX_SIGNERS, &MERGE_STAKES_IX_WRITABLES)
    }
}

pub const MERGE_STAKES_IX_DISCM: [u8; 8] = [216, 36, 141, 225, 243, 78, 125, 237];

/// The arguments of `merge_stakes`.
#[derive(Clone, Copy, Debug, PartialEq, Eq)]
pub struct MergeStakesIxArgs {
    pub destination_stake_index: u32,
    pub source_stake_index: u32,
    pub validator_index: u32,
}

/// Laid out as its fields in declared order.
impl WireFormat for MergeStakesIxArgs {
    open spec fn spec_encode(&self) -> Seq<u8> {
        (self.destination_stake_index,
            (self.source_stake_index,
                self.validator_index)).spec_encode()
    }

    open spec fn spec_parse(s: Seq<u8>) -> Result<(MergeStakesIxArgs, nat), DecodeError> {
        match <(u32, (u32, u32)) as WireFormat>::spec_parse(s) {
            Ok(((destination_stake_index, (source_stake_index, validator_index)), n)) =>
                Ok((MergeStakesIxArgs {
                    destination_stake_index,
                    source_stake_index,
                    validator_index,
                }, n)),
            Err(e) => Err(e),
        }
    }

    proof fn lemma_parse_encode(&self, rest: Seq<u8>) {
        (self.destination_stake_index,
            (self.source_stake_index,
                self.validator_index)).lemma_parse_encode(rest);
    }

    fn encode(&self, out: &mut Vec<u8>) {
        (self.destination_stake_index, (self.source_stake_index, self.validator_index)).encode(out);
    }

    fn decode(buf: &[u8], pos: usize) -> (r: Result<(MergeStakesIxArgs, usize), DecodeError>) {
        match <(u32, (u32, u32)) as WireFormat>::decode(buf, pos) {
            Ok(((destination_stake_index, (source_stake_index, validator_index)), end)) =>
                Ok((MergeStakesIxArgs {
                    destination_stake_index,
                    source_stake_index,
                    validator_index,
                }, end)),
            Err(e) => Err(e),
        }
    }
}

/// The data of a `merge_stakes` instruction: its discriminant, then its arguments.
#[derive(Clone, Copy, Debug, PartialEq, Eq)]
pub struct MergeStakesIxData(pub MergeStakesIxArgs);

impl MergeStakesIxData {
    /// Reads the data of a `merge_stakes` instruction from the front of `buf`;
    /// bytes after it are left unread.
    pub fn deserialize(buf: &[u8]) -> (r: Result<Self, DecodeError>)
        ensures
            match spec_parse_tagged::<MergeStakesIxArgs>(MERGE_STAKES_IX_DISCM, buf@) {
                Ok(args) => r == Ok::<Self, DecodeError>(MergeStakesIxData(args)),
                Err(e) => r == Err::<Self, DecodeError>(e),
            },
    {
        match parse_tagged::<MergeStakesIxArgs>(&MERGE_STAKES_IX_DISCM, buf) {
            Ok(args) => Ok(MergeStakesIxData(args)),
            Err(e) => Err(e),
        }
    }

    /// Appends the discriminant of `merge_stakes` and then the arguments to `out`.
    pub fn serialize(&self, out: &mut Vec<u8>)
        ensures
            final(out)@ == old(out)@ + MERGE_STAKES_IX_DISCM@ + self.0.spec_encode(),
    {
        write_tagged(&MERGE_STAKES_IX_DISCM, &self.0, out);
    }

    /// The bytes of the instruction data.
    pub fn try_to_vec(&self) -> (r: Vec<u8>)
        ensures
            r@ == MERGE_STAKES_IX_DISCM@ + self.0.spec_encode(),
    {
        let mut data: Vec<u8> = Vec::new();
        self.serialize(&mut data);
        assert(data@ =~= MERGE_STAKES_IX_DISCM@ + self.0.spec_encode());
        data
    }
}

/// The `merge_stakes` instruction for `keys` and `args`, addressed to the program.
pub fn merge_stakes_ix(keys: MergeStakesKeys, args: MergeStakesIxArgs) -> (r: Instruction)
    ensures
        r.program_id == Pubkey(ID_BYTES),
        r.accounts@ == spec_metas(
            keys.spec_pubkeys(),
            MERGE_STAKES_IX_SIGNERS@,
            MERGE_STAKES_IX_WRITABLES@,
        ),
        r.data@ == MERGE_STAKES_IX_DISCM@ + args.spec_encode(),
{
    Instruction {
        program_id: Pubkey(ID_BYTES),
        accounts: keys.account_metas(),
        data: MergeStakesIxData(args).try_to_vec(),
    }
}

/// Compares the addresses of `accounts` with `keys` in account order and
/// reports the first pair (actual, expected) that differs.
pub fn merge_stakes_verify_account_keys(
    accounts: MergeStakesAccounts,
    keys: MergeStakesKeys,
) -> (r: Result<(), (Pubkey, Pubkey)>)
    ensures
        keys_checked(keys_of(accounts.spec_handles()), keys.spec_pubkeys(), r),
{
    let actual = MergeStakesKeys::from_accounts(&accounts).pubkeys();
    let expected = keys.pubkeys();
    verify_keys(&actual, &expected)
}

/// Checks that the accounts in writable roles are writable and then that
/// the accounts in signing roles have signed; reports the first that is not.
pub fn merge_stakes_verify_account_privileges(
    accounts: MergeStakesAccounts,
) -> (r: Result<(), (AccountHandle, PrivilegeError)>)
    ensures
        privileges_checked(
            accounts.spec_handles(),
            MERGE_STAKES_IX_SIGNERS@,
            MERGE_STAKES_IX_WRITABLES@,
            r,
        ),
{
    let handles = accounts.handles();
    verify_privileges(&handles, &MERGE_STAKES_IX_SIGNERS, &MERGE_STAKES_IX_WRITABLES)
}

pub const REDELEGATE_IX_ACCOUNTS_LEN: usize = 15;

/// Whether each account of `redelegate` must sign, in account order.
pub const REDELEGATE_IX_SIGNERS: [bool; 15] = [
    false, false, false, false, false, false, true, true, false, true, false, false, false, false,
    false,
];

/// Whether each account of `redelegate` must be writable, in account order.
pub const REDELEGATE_IX_WRITABLES: [bool; 15] = [
    true, true, true, true, false, false, true, true, false, true, false, false, false, false,
    false,
];

/// The accounts of `redelegate` as the runtime hands them over.
#[derive(Clone, Copy, Debug, PartialEq, Eq)]
pub struct RedelegateAccounts {
    /// Writable.
    pub state: AccountHandle,
    /// Writable.
    pub validator_list: AccountHandle,
    /// Writable.
    pub stake_list: AccountHandle,
    /// Writable.
    pub stake_account: AccountHandle,
    /// Read-only.
    pub stake_deposit_authority: AccountHandle,
    /// Read-only.
    pub reserve_pda: AccountHandle,
    /// Signer, writable.
    pub split_stake_account: AccountHandle,
    /// Signer, writable.
    pub split_stake_rent_payer: AccountHandle,
    /// Read-only.
    pub dest_validator_account: AccountHandle,
    /// Signer, writable.
    pub redelegate_stake_account: AccountHandle,
    /// Read-only.
    pub clock: AccountHandle,
    /// Read-only.
    pub stake_history: AccountHandle,
    /// Read-only.
    pub stake_config: AccountHandle,
    /// Read-only.
    pub system_program: AccountHandle,
    /// Read-only.
    pub stake_program: AccountHandle,
}

/// The addresses of the accounts of `redelegate`.
#[derive(Clone, Copy, Debug, PartialEq, Eq)]
pub struct RedelegateKeys {
    /// Writable.
    pub state: Pubkey,
    /// Writable.
    pub validator_list: Pubkey,
    /// Writable.
    pub stake_list: Pubkey,
    /// Writable.
    pub stake_account: Pubkey,
    /// Read-only.
    pub stake_deposit_authority: Pubkey,
    /// Read-only.
    pub reserve_pda: Pubkey,
    /// Signer, writable.
    pub split_stake_account: Pubkey,
    /// Signer, writable.
    pub split_stake_rent_payer: Pubkey,
    /// Read-only.
    pub dest_validator_account: Pubkey,
    /// Signer, writable.
    pub redelegate_stake_account: Pubkey,
    /// Read-only.
    pub clock: Pubkey,
    /// Read-only.
    pub stake_history: Pubkey,
    /// Read-only.
    pub stake_config: Pubkey,
    /// Read-only.
    pub system_program: Pubkey,
    /// Read-only.
    pub stake_program: Pubkey,
}

impl RedelegateAccounts {
    /// The accounts in account order.
    pub open spec fn spec_handles(&self) -> Seq<AccountHandle> {
        seq![
            self.state,
            self.validator_list,
            self.stake_list,
            self.stake_account,
            self.stake_deposit_authority,
            self.reserve_pda,
            self.split_stake_account,
            self.split_stake_rent_payer,
            self.dest_validator_account,
            self.redelegate_stake_account,
            self.clock,
            self.stake_history,
            self.stake_config,
            self.system_program,
            self.stake_program,
        ]
    }

    /// The accounts as an array in account order.
    pub fn handles(&self) -> (r: [AccountHandle; 15])
        ensures
            r@ == self.spec_handles(),
    {
        let r = [
            self.state,
            self.validator_list,
            self.stake_list,
            self.stake_account,
            self.stake_deposit_authority,
            self.reserve_pda,
            self.split_stake_account,
            self.split_stake_rent_payer,
            self.dest_validator_account,
            self.redelegate_stake_account,
            self.clock,
            self.stake_history,
            self.stake_config,
            self.system_program,
            self.stake_program,
        ];
        assert(r@ =~= self.spec_handles());
        r
    }

    /// The accounts read from an array in account order.
    pub fn from_handles(arr: [AccountHandle; 15]) -> (r: Self)
        ensures
            r.spec_handles() == arr@,
    {
        let r = RedelegateAccounts {
            state: arr[0],
            validator_list: arr[1],
            stake_list: arr[2],
            stake_account: arr[3],
            stake_deposit_authority: arr[4],
            reserve_pda: arr[5],
            split_stake_account: arr[6],
            split_stake_rent_payer: arr[7],
            dest_validator_account: arr[8],
            redelegate_stake_account: arr[9],
            clock: arr[10],
            stake_history: arr[11],
            stake_config: arr[12],
            system_program: arr[13],
            stake_program: arr[14],
        };
        assert(r.spec_handles() =~= arr@);
        r
    }
}

impl RedelegateKeys {
    /// The addresses in account order.
    pub open spec fn spec_pubkeys(&self) -> Seq<Pubkey> {
        seq![
            self.state,
            self.validator_list,
            self.stake_list,
            self.stake_account,
            self.stake_deposit_authority,
            self.reserve_pda,
            self.split_stake_account,
            self.split_stake_rent_payer,
            self.dest_validator_account,
            self.redelegate_stake_account,
            self.clock,
            self.stake_history,
            self.stake_config,
            self.system_program,
            self.stake_program,
        ]
    }

    /// The addresses as an array in account order.
    pub fn pubkeys(&self) -> (r: [Pubkey; 15])
        ensures
            r@ == self.spec_pubkeys(),
    {
        let r = [
            self.state,
            self.validator_list,
            self.stake_list,
            self.stake_account,
            self.stake_deposit_authority,
            self.reserve_pda,
            self.split_stake_account,
            self.split_stake_rent_payer,
            self.dest_validator_account,
            self.redelegate_stake_account,
            self.clock,
            self.stake_history,
            self.stake_config,
            self.system_program,
            self.stake_program,
        ];
        assert(r@ =~= self.spec_pubkeys());
        r
    }

    /// The addresses read from an array in account order.
    pub fn from_pubkeys(arr: [Pubkey; 15]) -> (r: Self)
        ensures
            r.spec_pubkeys() == arr@,
    {
        let r = RedelegateKeys {
            state: arr[0],
            validator_list: arr[1],
            stake_list: arr[2],
            stake_account: arr[3],
            stake_deposit_authority: arr[4],
            reserve_pda: arr[5],
            split_stake_account: arr[6],
            split_stake_rent_payer: arr[7],
            dest_validator_account: arr[8],
            redelegate_stake_account: arr[9],
            clock: arr[10],
            stake_history: arr[11],
            stake_config: arr[12],
            system_program: arr[13],
            stake_program: arr[14],
        };
        assert(r.spec_pubkeys() =~= arr@);
        r
    }

    /// The addresses of `accounts`.
    pub fn from_accounts(accounts: &RedelegateAccounts) -> (r: Self)
        ensures
            r.spec_pubkeys() == keys_of(accounts.spec_handles()),
    {
        let r = RedelegateKeys {
            state: accounts.state.key,
            validator_list: accounts.validator_list.key,
            stake_list: accounts.stake_list.key,
            stake_account: accounts.stake_account.key,
            stake_deposit_authority: accounts.stake_deposit_authority.key,
            reserve_pda: accounts.reserve_pda.key,
            split_stake_account: accounts.split_stake_account.key,
            split_stake_rent_payer: accounts.split_stake_rent_payer.key,
            dest_validator_account: accounts.dest_validator_account.key,
            redelegate_stake_account: accounts.redelegate_stake_account.key,
            clock: accounts.clock.key,
            stake_history: accounts.stake_history.key,
            stake_config: accounts.stake_config.key,
            system_program: accounts.system_program.key,
            stake_program: accounts.stake_program.key,
        };
        assert(r.spec_pubkeys() =~= keys_of(accounts.spec_handles()));
        r
    }

    /// The account list of `redelegate`: one entry per role, in account order,
    /// each with the fixed flags of its role.
    pub fn account_metas(&self) -> (r: Vec<AccountMeta>)
        ensures
            r@.len() == REDELEGATE_IX_ACCOUNTS_LEN,
            r@ == spec_metas(self.spec_pubkeys(), REDELEGATE_IX_SIGNERS@, REDELEGATE_IX_WRITABLES@),
    {
        let keys = self.pubkeys();
        account_metas(&keys, &REDELEGATE_IX_SIGNERS, &REDELEGATE_IX_WRITABLES)
    }
}

pub const REDELEGATE_IX_DISCM: [u8; 8] = [212, 82, 51, 160, 228, 80, 116, 35];

/// The arguments of `redelegate`.
#[derive(Clone, Copy, Debug, PartialEq, Eq)]
pub struct RedelegateIxArgs {
    pub stake_index: u32,
    pub source_validator_index: u32,
    pub dest_validator_index: u32,
}

/// Laid out as its fields in declared order.
impl WireFormat for RedelegateIxArgs {
    open spec fn spec_encode(&self) -> Seq<u8> {
        (self.stake_index, (self.source_validator_index, self.dest_validator_index)).spec_encode()
    }

    open spec fn spec_parse(s: Seq<u8>) -> Result<(RedelegateIxArgs, nat), DecodeError> {
        match <(u32, (u32, u32)) as WireFormat>::spec_parse(s) {
            Ok(((stake_index, (source_validator_index, dest_validator_index)), n)) =>
                Ok((RedelegateIxArgs {
                    stake_index,
                    source_validator_index,
                    dest_validator_index,
                }, n)),
            Err(e) => Err(e),
        }
    }

    proof fn lemma_parse_encode(&self, rest: Seq<u8>) {
        (self.stake_index,
            (self.source_validator_index,
                self.dest_validator_index)).lemma_parse_encode(rest);
    }

    fn encode(&self, out: &mut Vec<u8>) {
        (self.stake_index, (self.source_validator_index, self.dest_validator_index)).encode(out);
    }

    fn decode(buf: &[u8], pos: usize) -> (r: Result<(RedelegateIxArgs, usize), DecodeError>) {
        match <(u32, (u32, u32)) as WireFormat>::decode(buf, pos) {
            Ok(((stake_index, (source_validator_index, dest_validator_index)), end)) =>
                Ok((RedelegateIxArgs {
                    stake_index,
                    source_validator_index,
                    dest_validator_index,
                }, end)),
            Err(e) => Err(e),
        }
    }
}

/// The data of a `redelegate` instruction: its discriminant, then its arguments.
#[derive(Clone, Copy, Debug, PartialEq, Eq)]
pub struct RedelegateIxData(pub RedelegateIxArgs);

impl RedelegateIxData {
    /// Reads the data of a `redelegate` instruction from the front of `buf`;
    /// bytes after it are left unread.
    pub fn deserialize(buf: &[u8]) -> (r: Result<Self, DecodeError>)
        ensures
            match spec_parse_tagged::<RedelegateIxArgs>(REDELEGATE_IX_DISCM, buf@) {
                Ok(args) => r == Ok::<Self, DecodeError>(RedelegateIxData(args)),
                Err(e) => r == Err::<Self, DecodeError>(e),
            },
    {
        match parse_tagged::<RedelegateIxArgs>(&REDELEGATE_IX_DISCM, buf) {
            Ok(args) => Ok(RedelegateIxData(args)),
            Err(e) => Err(e),
        }
    }

    /// Appends the discriminant of `redelegate` and then the arguments to `out`.
    pub fn serialize(&self, out: &mut Vec<u8>)
        ensures
            final(out)@ == old(out)@ + REDELEGATE_IX_DISCM@ + self.0.spec_encode(),
    {
        write_tagged(&REDELEGATE_IX_DISCM, &self.0, out);
    }

    /// The bytes of the instruction data.
    pub fn try_to_vec(&self) -> (r: Vec<u8>)
        ensures
            r@ == REDELEGATE_IX_DISCM@ + self.0.spec_encode(),
    {
        let mut data: Vec<u8> = Vec::new();
        self.serialize(&mut data);
        assert(data@ =~= REDELEGATE_IX_DISCM@ + self.0.spec_encode());
        data
    }
}

/// The `redelegate` instruction for `keys` and `args`, addressed to the program.
pub fn redelegate_ix(keys: RedelegateKeys, args: RedelegateIxArgs) -> (r: Instruction)
    ensures
        r.program_id == Pubkey(ID_BYTES),
        r.accounts@ == spec_metas(
            keys.spec_pubkeys(),
            REDELEGATE_IX_SIGNERS@,
            REDELEGATE_IX_WRITABLES@,
        ),
        r.data@ == REDELEGATE_IX_DISCM@ + args.spec_encode(),
{
    Instruction {
        program_id: Pubkey(ID_BYTES),
        accounts: keys.account_metas(),
        data: RedelegateIxData(args).try_to_vec(),
    }
}

/// Compares the addresses of `accounts` with `keys` in account order and
/// reports the first pair (actual, expected) that differs.
pub fn redelegate_verify_account_keys(
    accounts: RedelegateAccounts,
    keys: RedelegateKeys,
) -> (r: Result<(), (Pubkey, Pubkey)>)
    ensures
        keys_checked(keys_of(accounts.spec_handles()), keys.spec_pubkeys(), r),
{
    let actual = RedelegateKeys::from_accounts(&accounts).pubkeys();
    let expected = keys.pubkeys();
    verify_keys(&actual, &expected)
}

/// Checks that the accounts in writable roles are writable and then that
/// the accounts in signing roles have signed; reports the first that is not.
pub fn redelegate_verify_account_privileges(
    accounts: RedelegateAccounts,
) -> (r: Result<(), (AccountHandle, PrivilegeError)>)
    ensures
        privileges_checked(
            accounts.spec_handles(),
            REDELEGATE_IX_SIGNERS@,
            REDELEGATE_IX_WRITABLES@,
            r,
        ),
{
    let handles = accounts.handles();
    verify_privileges(&handles, &REDELEGATE_IX_SIGNERS, &REDELEGATE_IX_WRITABLES)
}

pub const PAUSE_IX_ACCOUNTS_LEN: usize = 2;

/// Whether each account of `pause` must sign, in account order.
pub const PAUSE_IX_SIGNERS: [bool; 2] = [false, true];

/// Whether each account of `pause` must be writable, in account order.
pub const PAUSE_IX_WRITABLES: [bool; 2] = [true, false];

/// The accounts of `pause` as the runtime hands them over.
#[derive(Clone, Copy, Debug, PartialEq, Eq)]
pub struct PauseAccounts {
    /// Writable.
    pub state: AccountHandle,
    /// Signer.
    pub pause_authority: AccountHandle,
}

/// The addresses of the accounts of `pause`.
#[derive(Clone, Copy, Debug, PartialEq, Eq)]
pub struct PauseKeys {
    /// Writable.
    pub state: Pubkey,
    /// Signer.
    pub pause_authority: Pubkey,
}

impl PauseAccounts {
    /// The accounts in account order.
    pub open spec fn spec_handles(&self) -> Seq<AccountHandle> {
        seq![self.state, self.pause_authority]
    }

    /// The accounts as an array in account order.
    pub fn handles(&self) -> (r: [AccountHandle; 2])
        ensures
            r@ == self.spec_handles(),
    {
        let r = [self.state, self.pause_authority];
        assert(r@ =~= self.spec_handles());
        r
    }

    /// The accounts read from an array in account order.
    pub fn from_handles(arr: [AccountHandle; 2]) -> (r: Self)
        ensures
            r.spec_handles() == arr@,
    {
        let r = PauseAccounts { state: arr[0], pause_authority: arr[1] };
        assert(r.spec_handles() =~= arr@);
        r
    }
}

impl PauseKeys {
    /// The addresses in account order.
    pub open spec fn spec_pubkeys(&self) -> Seq<Pubkey> {
        seq![self.state, self.pause_authority]
    }

    /// The addresses as an array in account order.
    pub fn pubkeys(&self) -> (r: [Pubkey; 2])
        ensures
            r@ == self.spec_pubkeys(),
    {
        let r = [self.state, self.pause_authority];
        assert(r@ =~= self.spec_pubkeys());
        r
    }

    /// The addresses read from an array in account order.
    pub fn from_pubkeys(arr: [Pubkey; 2]) -> (r: Self)
        ensures
            r.spec_pubkeys() == arr@,
    {
        let r = PauseKeys { state: arr[0], pause_authority: arr[1] };
        assert(r.spec_pubkeys() =~= arr@);
        r
    }

    /// The addresses of `accounts`.
    pub fn from_accounts(accounts: &PauseAccounts) -> (r: Self)
        ensures
            r.spec_pubkeys() == keys_of(accounts.spec_handles()),
    {
        let r = PauseKeys {
            state: accounts.state.key,
            pause_authority: accounts.pause_authority.key,
        };
        assert(r.spec_pubkeys() =~= keys_of(accounts.spec_handles()));
        r
    }

    /// The account list of `pause`: one entry per role, in account order,
    /// each with the fixed flags of its role.
    pub fn account_metas(&self) -> (r: Vec<AccountMeta>)
        ensures
            r@.len() == PAUSE_IX_ACCOUNTS_LEN,
            r@ == spec_metas(self.spec_pubkeys(), PAUSE_IX_SIGNERS@, PAUSE_IX_WRITABLES@),
    {
        let keys = self.pubkeys();
        account_metas(&keys, &PAUSE_IX_SIGNERS, &PAUSE_IX_WRITABLES)
    }
}

pub const PAUSE_IX_DISCM: [u8; 8] = [211, 22, 221, 251, 74, 121, 193, 47];

/// The data of a `pause` instruction: its discriminant alone.
#[derive(Clone, Copy, Debug, PartialEq, Eq)]
pub struct PauseIxData;

impl PauseIxData {
    /// Reads the data of a `pause` instruction from the front of `buf`;
    /// bytes after it are left unread.
    pub fn deserialize(buf: &[u8]) -> (r: Result<Self, DecodeError>)
        ensures
            match spec_parse_tagged::<()>(PAUSE_IX_DISCM, buf@) {
                Ok(_) => r == Ok::<Self, DecodeError>(PauseIxData),
                Err(e) => r == Err::<Self, DecodeError>(e),
            },
    {
        match parse_tagged::<()>(&PAUSE_IX_DISCM, buf) {
            Ok(_) => Ok(PauseIxData),
            Err(e) => Err(e),
        }
    }

    /// Appends the discriminant of `pause` to `out`.
    pub fn serialize(&self, out: &mut Vec<u8>)
        ensures
            final(out)@ == old(out)@ + PAUSE_IX_DISCM@,
    {
        write_tagged(&PAUSE_IX_DISCM, &(), out);
        assert(final(out)@ =~= old(out)@ + PAUSE_IX_DISCM@);
    }

    /// The bytes of the instruction data.
    pub fn try_to_vec(&self) -> (r: Vec<u8>)
        ensures
            r@ == PAUSE_IX_DISCM@,
    {
        let mut data: Vec<u8> = Vec::new();
        self.serialize(&mut data);
        assert(data@ =~= PAUSE_IX_DISCM@);
        data
    }
}

/// The `pause` instruction for `keys`, addressed to the program.
pub fn pause_ix(keys: PauseKeys) -> (r: Instruction)
    ensures
        r.program_id == Pubkey(ID_BYTES),
        r.accounts@ == spec_metas(keys.spec_pubkeys(), PAUSE_IX_SIGNERS@, PAUSE_IX_WRITABLES@),
        r.data@ == PAUSE_IX_DISCM@,
{
    Instruction {
        program_id: Pubkey(ID_BYTES),
        accounts: keys.account_metas(),
        data: PauseIxData.try_to_vec(),
    }
}

/// Compares the addresses of `accounts` with `keys` in account order and
/// reports the first pair (actual, expected) that differs.
pub fn pause_verify_account_keys(
    accounts: PauseAccounts,
    keys: PauseKeys,
) -> (r: Result<(), (Pubkey, Pubkey)>)
    ensures
        keys_checked(keys_of(accounts.spec_handles()), keys.spec_pubkeys(), r),
{
    let actual = PauseKeys::from_accounts(&accounts).pubkeys();
    let expected = keys.pubkeys();
    verify_keys(&actual, &expected)
}

/// Checks that the accounts in writable roles are writable and then that
/// the accounts in signing roles have signed; reports the first that is not.
pub fn pause_verify_account_privileges(
    accounts: PauseAccounts,
) -> (r: Result<(), (AccountHandle, PrivilegeError)>)
    ensures
        privileges_checked(accounts.spec_handles(), PAUSE_IX_SIGNERS@, PAUSE_IX_WRITABLES@, r),
{
    let handles = accounts.handles();
    verify_privileges(&handles, &PAUSE_IX_SIGNERS, &PAUSE_IX_WRITABLES)
}

pub const RESUME_IX_ACCOUNTS_LEN: usize = 2;

/// Whether each account of `resume` must sign, in account order.
pub const RESUME_IX_SIGNERS: [bool; 2] = [false, true];

/// Whether each account of `resume` must be writable, in account order.
pub const RESUME_IX_WRITABLES: [bool; 2] = [true, false];

/// The accounts of `resume` as the runtime hands them over.
#[derive(Clone, Copy, Debug, PartialEq, Eq)]
pub struct ResumeAccounts {
    /// Writable.
    pub state: AccountHandle,
    /// Signer.
    pub pause_authority: AccountHandle,
}

/// The addresses of the accounts of `resume`.
#[derive(Clone, Copy, Debug, PartialEq, Eq)]
pub struct ResumeKeys {
    /// Writable.
    pub state: Pubkey,
    /// Signer.
    pub pause_authority: Pubkey,
}

impl ResumeAccounts {
    /// The accounts in account order.
    pub open spec fn spec_handles(&self) -> Seq<AccountHandle> {
        seq![self.state, self.pause_authority]
    }

    /// The accounts as an array in account order.
    pub fn handles(&self) -> (r: [AccountHandle; 2])
        ensures
            r@ == self.spec_handles(),
    {
        let r = [self.state, self.pause_authority];
        assert(r@ =~= self.spec_handles());
        r
    }

    /// The accounts read from an array in account order.
    pub fn from_handles(arr: [AccountHandle; 2]) -> (r: Self)
        ensures
            r.spec_handles() == arr@,
    {
        let r = ResumeAccounts { state: arr[0], pause_authority: arr[1] };
        assert(r.spec_handles() =~= arr@);
        r
    }
}

impl ResumeKeys {
    /// The addresses in account order.
    pub open spec fn spec_pubkeys(&self) -> Seq<Pubkey> {
        seq![self.state, self.pause_authority]
    }

    /// The addresses as an array in account order.
    pub fn pubkeys(&self) -> (r: [Pubkey; 2])
        ensures
            r@ == self.spec_pubkeys(),
    {
        let r = [self.state, self.pause_authority];
        assert(r@ =~= self.spec_pubkeys());
        r
    }

    /// The addresses read from an array in account order.
    pub fn from_pubkeys(arr: [Pubkey; 2]) -> (r: Self)
        ensures
            r.spec_pubkeys() == arr@,
    {
        let r = ResumeKeys { state: arr[0], pause_authority: arr[1] };
        assert(r.spec_pubkeys() =~= arr@);
        r
    }

    /// The addresses of `accounts`.
    pub fn from_accounts(accounts: &ResumeAccounts) -> (r: Self)
        ensures
            r.spec_pubkeys() == keys_of(accounts.spec_handles()),
    {
        let r = ResumeKeys {
            state: accounts.state.key,
            pause_authority: accounts.pause_authority.key,
        };
        assert(r.spec_pubkeys() =~= keys_of(accounts.spec_handles()));
        r
    }

    /// The account list of `resume`: one entry per role, in account order,
    /// each with the fixed flags of its role.
    pub fn account_metas(&self) -> (r: Vec<AccountMeta>)
        ensures
            r@.len() == RESUME_IX_ACCOUNTS_LEN,
            r@ == spec_metas(self.spec_pubkeys(), RESUME_IX_SIGNERS@, RESUME_IX_WRITABLES@),
    {
        let keys = self.pubkeys();
        account_metas(&keys, &RESUME_IX_SIGNERS, &RESUME_IX_WRITABLES)
    }
}

pub const RESUME_IX_DISCM: [u8; 8] = [1, 166, 51, 170, 127, 32, 141, 206];

/// The data of a `resume` instruction: its discriminant alone.
#[derive(Clone, Copy, Debug, PartialEq, Eq)]
pub struct ResumeIxData;

impl ResumeIxData {
    /// Reads the data of a `resume` instruction from the front of `buf`;
    /// bytes after it are left unread.
    pub fn deserialize(buf: &[u8]) -> (r: Result<Self, DecodeError>)
        ensures
            match spec_parse_tagged::<()>(RESUME_IX_DISCM, buf@) {
                Ok(_) => r == Ok::<Self, DecodeError>(ResumeIxData),
                Err(e) => r == Err::<Self, DecodeError>(e),
            },
    {
        match parse_tagged::<()>(&RESUME_IX_DISCM, buf) {
            Ok(_) => Ok(ResumeIxData),
            Err(e) => Err(e),
        }
    }

    /// Appends the discriminant of `resume` to `out`.
    pub fn serialize(&self, out: &mut Vec<u8>)
        ensures
            final(out)@ == old(out)@ + RESUME_IX_DISCM@,
    {
        write_tagged(&RESUME_IX_DISCM, &(), out);
        assert(final(out)@ =~= old(out)@ + RESUME_IX_DISCM@);
    }

    /// The bytes of the instruction data.
    pub fn try_to_vec(&self) -> (r: Vec<u8>)
        ensures
            r@ == RESUME_IX_DISCM@,
    {
        let mut data: Vec<u8> = Vec::new();
        self.serialize(&mut data);
        assert(data@ =~= RESUME_IX_DISCM@);
        data
    }
}

/// The `resume` instruction for `keys`, addressed to the program.
pub fn resume_ix(keys: ResumeKeys) -> (r: Instruction)
    ensures
        r.program_id == Pubkey(ID_BYTES),
        r.accounts@ == spec_metas(keys.spec_pubkeys(), RESUME_IX_SIGNERS@, RESUME_IX_WRITABLES@),
        r.data@ == RESUME_IX_DISCM@,
{
    Instruction {
        program_id: Pubkey(ID_BYTES),
        accounts: keys.account_metas(),
        data: ResumeIxData.try_to_vec(),
    }
}

/// Compares the addresses of `accounts` with `keys` in account order and
/// reports the first pair (actual, expected) that differs.
pub fn resume_verify_account_keys(
    accounts: ResumeAccounts,
    keys: ResumeKeys,
) -> (r: Result<(), (Pubkey, Pubkey)>)
    ensures
        keys_checked(keys_of(accounts.spec_handles()), keys.spec_pubkeys(), r),
{
    let actual = ResumeKeys::from_accounts(&accounts).pubkeys();
    let expected = keys.pubkeys();
    verify_keys(&actual, &expected)
}

/// Checks that the accounts in writable roles are writable and then that
/// the accounts in signing roles have signed; reports the first that is not.
pub fn resume_verify_account_privileges(
    accounts: ResumeAccounts,
) -> (r: Result<(), (AccountHandle, PrivilegeError)>)
    ensures
        privileges_checked(accounts.spec_handles(), RESUME_IX_SIGNERS@, RESUME_IX_WRITABLES@, r),
{
    let handles = accounts.handles();
    verify_privileges(&handles, &RESUME_IX_SIGNERS, &RESUME_IX_WRITABLES)
}

pub const WITHDRAW_STAKE_ACCOUNT_IX_ACCOUNTS_LEN: usize = 16;

/// Whether each account of `withdraw_stake_account` must sign, in account order.
pub const WITHDRAW_STAKE_ACCOUNT_IX_SIGNERS: [bool; 16] = [
    false, false, false, true, false, false, false, false, false, false, true, true, false, false,
    false, false,
];

/// Whether each account of `withdraw_stake_account` must be writable, in account order.
pub const WITHDRAW_STAKE_ACCOUNT_IX_WRITABLES: [bool; 16] = [
    true, true, true, true, true, true, true, false, false, true, true, true, false, false, false,
    false,
];

/// The accounts of `withdraw_stake_account` as the runtime hands them over.
#[derive(Clone, Copy, Debug, PartialEq, Eq)]
pub struct WithdrawStakeAccountAccounts {
    /// Writable.
    pub state: AccountHandle,
    /// Writable.
    pub msol_mint: AccountHandle,
    /// Writable.
    pub burn_msol_from: AccountHandle,
    /// Signer, writable.
    pub burn_msol_authority: AccountHandle,
    /// Writable.
    pub treasury_msol_account: AccountHandle,
    /// Writable.
    pub validator_list: AccountHandle,
    /// Writable.
    pub stake_list: AccountHandle,
    /// Read-only.
    pub stake_withdraw_authority: AccountHandle,
    /// Read-only.
    pub stake_deposit_authority: AccountHandle,
    /// Writable.
    pub stake_account: AccountHandle,
    /// Signer, writable.
    pub split_stake_account: AccountHandle,
    /// Signer, writable.
    pub split_stake_rent_payer: AccountHandle,
    /// Read-only.
    pub clock: AccountHandle,
    /// Read-only.
    pub system_program: AccountHandle,
    /// Read-only.
    pub token_program: AccountHandle,
    /// Read-only.
    pub stake_program: AccountHandle,
}

/// The addresses of the accounts of `withdraw_stake_account`.
#[derive(Clone, Copy, Debug, PartialEq, Eq)]
pub struct WithdrawStakeAccountKeys {
    /// Writable.
    pub state: Pubkey,
    /// Writable.
    pub msol_mint: Pubkey,
    /// Writable.
    pub burn_msol_from: Pubkey,
    /// Signer, writable.
    pub burn_msol_authority: Pubkey,
    /// Writable.
    pub treasury_msol_account: Pubkey,
    /// Writable.
    pub validator_list: Pubkey,
    /// Writable.
    pub stake_list: Pubkey,
    /// Read-only.
    pub stake_withdraw_authority: Pubkey,
    /// Read-only.
    pub stake_deposit_authority: Pubkey,
    /// Writable.
    pub stake_account: Pubkey,
    /// Signer, writable.
    pub split_stake_account: Pubkey,
    /// Signer, writable.
    pub split_stake_rent_payer: Pubkey,
    /// Read-only.
    pub clock: Pubkey,
    /// Read-only.
    pub system_program: Pubkey,
    /// Read-only.
    pub token_program: Pubkey,
    /// Read-only.
    pub stake_program: Pubkey,
}

impl WithdrawStakeAccountAccounts {
    /// The accounts in account order.
    pub open spec fn spec_handles(&self) -> Seq<AccountHandle> {
        seq![
            self.state,
            self.msol_mint,
            self.burn_msol_from,
            self.burn_msol_authority,
            self.treasury_msol_account,
            self.validator_list,
            self.stake_list,
            self.stake_withdraw_authority,
            self.stake_deposit_authority,
            self.stake_account,
            self.split_stake_account,
            self.split_stake_rent_payer,
            self.clock,
            self.system_program,
            self.token_program,
            self.stake_program,
        ]
    }

    /// The accounts as an array in account order.
    pub fn handles(&self) -> (r: [AccountHandle; 16])
        ensures
            r@ == self.spec_handles(),
    {
        let r = [
            self.state,
            self.msol_mint,
            self.burn_msol_from,
            self.burn_msol_authority,
            self.treasury_msol_account,
            self.validator_list,
            self.stake_list,
            self.stake_withdraw_authority,
            self.stake_deposit_authority,
            self.stake_account,
            self.split_stake_account,
            self.split_stake_rent_payer,
            self.clock,
            self.system_program,
            self.token_program,
            self.stake_program,
        ];
        assert(r@ =~= self.spec_handles());
        r
    }

    /// The accounts read from an array in account order.
    pub fn from_handles(arr: [AccountHandle; 16]) -> (r: Self)
        ensures
            r.spec_handles() == arr@,
    {
        let r = WithdrawStakeAccountAccounts {
            state: arr[0],
            msol_mint: arr[1],
            burn_msol_from: arr[2],
            burn_msol_authority: arr[3],
            treasury_msol_account: arr[4],
            validator_list: arr[5],
            stake_list: arr[6],
            stake_withdraw_authority: arr[7],
            stake_deposit_authority: arr[8],
            stake_account: arr[9],
            split_stake_account: arr[10],
            split_stake_rent_payer: arr[11],
            clock: arr[12],
            system_program: arr[13],
            token_program: arr[14],
            stake_program: arr[15],
        };
        assert(r.spec_handles() =~= arr@);
        r
    }
}

impl WithdrawStakeAccountKeys {
    /// The addresses in account order.
    pub open spec fn spec_pubkeys(&self) -> Seq<Pubkey> {
        seq![
            self.state,
            self.msol_mint,
            self.burn_msol_from,
            self.burn_msol_authority,
            self.treasury_msol_account,
            self.validator_list,
            self.stake_list,
            self.stake_withdraw_authority,
            self.stake_deposit_authority,
            self.stake_account,
            self.split_stake_account,
            self.split_stake_rent_payer,
            self.clock,
            self.system_program,
            self.token_program,
            self.stake_program,
        ]
    }

    /// The addresses as an array in account order.
    pub fn pubkeys(&self) -> (r: [Pubkey; 16])
        ensures
            r@ == self.spec_pubkeys(),
    {
        let r = [
            self.state,
            self.msol_mint,
            self.burn_msol_from,
            self.burn_msol_authority,
            self.treasury_msol_account,
            self.validator_list,
            self.stake_list,
            self.stake_withdraw_authority,
            self.stake_deposit_authority,
            self.stake_account,
            self.split_stake_account,
            self.split_stake_rent_payer,
            self.clock,
            self.system_program,
            self.token_program,
            self.stake_program,
        ];
        assert(r@ =~= self.spec_pubkeys());
        r
    }

    /// The addresses read from an array in account order.
    pub fn from_pubkeys(arr: [Pubkey; 16]) -> (r: Self)
        ensures
            r.spec_pubkeys() == arr@,
    {
        let r = WithdrawStakeAccountKeys {
            state: arr[0],
            msol_mint: arr[1],
            burn_msol_from: arr[2],
            burn_msol_authority: arr[3],
            treasury_msol_account: arr[4],
            validator_list: arr[5],
            stake_list: arr[6],
            stake_withdraw_authority: arr[7],
            stake_deposit_authority: arr[8],
            stake_account: arr[9],
            split_stake_account: arr[10],
            split_stake_rent_payer: arr[11],
            clock: arr[12],
            system_program: arr[13],
            token_program: arr[14],
            stake_program: arr[15],
        };
        assert(r.spec_pubkeys() =~= arr@);
        r
    }

    /// The addresses of `accounts`.
    pub fn from_accounts(accounts: &WithdrawStakeAccountAccounts) -> (r: Self)
        ensures
            r.spec_pubkeys() == keys_of(accounts.spec_handles()),
    {
        let r = WithdrawStakeAccountKeys {
            state: accounts.state.key,
            msol_mint: accounts.msol_mint.key,
            burn_msol_from: accounts.burn_msol_from.key,
            burn_msol_authority: accounts.burn_msol_authority.key,
            treasury_msol_account: accounts.treasury_msol_account.key,
            validator_list: accounts.validator_list.key,
            stake_list: accounts.stake_list.key,
            stake_withdraw_authority: accounts.stake_withdraw_authority.key,
            stake_deposit_authority: accounts.stake_deposit_authority.key,
            stake_account: accounts.stake_account.key,
            split_stake_account: accounts.split_stake_account.key,
            split_stake_rent_payer: accounts.split_stake_rent_payer.key,
            clock: accounts.clock.key,
            system_program: accounts.system_program.key,
            token_program: accounts.token_program.key,
            stake_program: accounts.stake_program.key,
        };
        assert(r.spec_pubkeys() =~= keys_of(accounts.spec_handles()));
        r
    }

    /// The account list of `withdraw_stake_account`: one entry per role, in account order,
    /// each with the fixed flags of its role.
    pub fn account_metas(&self) -> (r: Vec<AccountMeta>)
        ensures
            r@.len() == WITHDRAW_STAKE_ACCOUNT_IX_ACCOUNTS_LEN,
            r@ == spec_metas(
                self.spec_pubkeys(),
                WITHDRAW_STAKE_ACCOUNT_IX_SIGNERS@,
                WITHDRAW_STAKE_ACCOUNT_IX_WRITABLES@,
            ),
    {
        let keys = self.pubkeys();
        account_metas(
            &keys,
            &WITHDRAW_STAKE_ACCOUNT_IX_SIGNERS,
            &WITHDRAW_STAKE_ACCOUNT_IX_WRITABLES,
        )
    }
}

pub const WITHDRAW_STAKE_ACCOUNT_IX_DISCM: [u8; 8] = [211, 85, 184, 65, 183, 177, 233, 217];

/// The arguments of `withdraw_stake_account`.
#[derive(Clone, Copy, Debug, PartialEq, Eq)]
pub struct WithdrawStakeAccountIxArgs {
    pub stake_index: u32,
    pub validator_index: u32,
    pub msol_amount: u64,
    pub beneficiary: Pubkey,
}

/// Laid out as its fields in declared order.
impl WireFormat for WithdrawStakeAccountIxArgs {
    open spec fn spec_encode(&self) -> Seq<u8> {
        (self.stake_index,
            (self.validator_index,
                (self.msol_amount,
                    self.beneficiary))).spec_encode()
    }

    open spec fn spec_parse(s: Seq<u8>) -> Result<(WithdrawStakeAccountIxArgs, nat), DecodeError> {
        match <(u32, (u32, (u64, Pubkey))) as WireFormat>::spec_parse(s) {
            Ok(((stake_index, (validator_index, (msol_amount, beneficiary))), n)) =>
                Ok((WithdrawStakeAccountIxArgs {
                    stake_index,
                    validator_index,
                    msol_amount,
                    beneficiary,
                }, n)),
            Err(e) => Err(e),
        }
    }

    proof fn lemma_parse_encode(&self, rest: Seq<u8>) {
        (self.stake_index,
            (self.validator_index,
                (self.msol_amount,
                    self.beneficiary))).lemma_parse_encode(rest);
    }

    fn encode(&self, out: &mut Vec<u8>) {
        (self.stake_index,
            (self.validator_index,
                (self.msol_amount,
                    self.beneficiary))).encode(out);
    }

    fn decode(
        buf: &[u8],
        pos: usize,
    ) -> (r: Result<(WithdrawStakeAccountIxArgs, usize), DecodeError>) {
        match <(u32, (u32, (u64, Pubkey))) as WireFormat>::decode(buf, pos) {
            Ok(((stake_index, (validator_index, (msol_amount, beneficiary))), end)) =>
                Ok((WithdrawStakeAccountIxArgs {
                    stake_index,
                    validator_index,
                    msol_amount,
                    beneficiary,
                }, end)),
            Err(e) => Err(e),
        }
    }
}

/// The data of a `withdraw_stake_account` instruction: its discriminant, then its arguments.
#[derive(Clone, Copy, Debug, PartialEq, Eq)]
pub struct WithdrawStakeAccountIxData(pub WithdrawStakeAccountIxArgs);

impl WithdrawStakeAccountIxData {
    /// Reads the data of a `withdraw_stake_account` instruction from the front of `buf`;
    /// bytes after it are left unread.
    pub fn deserialize(buf: &[u8]) -> (r: Result<Self, DecodeError>)
        ensures
            match spec_parse_tagged::<WithdrawStakeAccountIxArgs>(
                WITHDRAW_STAKE_ACCOUNT_IX_DISCM,
                buf@,
            ) {
                Ok(args) => r == Ok::<Self, DecodeError>(WithdrawStakeAccountIxData(args)),
                Err(e) => r == Err::<Self, DecodeError>(e),
            },
    {
        match parse_tagged::<WithdrawStakeAccountIxArgs>(&WITHDRAW_STAKE_ACCOUNT_IX_DISCM, buf) {
            Ok(args) => Ok(WithdrawStakeAccountIxData(args)),
            Err(e) => Err(e),
        }
    }

    /// Appends the discriminant of `withdraw_stake_account` and then the arguments to `out`.
    pub fn serialize(&self, out: &mut Vec<u8>)
        ensures
            final(out)@ == old(out)@ + WITHDRAW_STAKE_ACCOUNT_IX_DISCM@ + self.0.spec_encode(),
    {
        write_tagged(&WITHDRAW_STAKE_ACCOUNT_IX_DISCM, &self.0, out);
    }

    /// The bytes of the instruction data.
    pub fn try_to_vec(&self) -> (r: Vec<u8>)
        ensures
            r@ == WITHDRAW_STAKE_ACCOUNT_IX_DISCM@ + self.0.spec_encode(),
    {
        let mut data: Vec<u8> = Vec::new();
        self.serialize(&mut data);
        assert(data@ =~= WITHDRAW_STAKE_ACCOUNT_IX_DISCM@ + self.0.spec_encode());
        data
    }
}

/// The `withdraw_stake_account` instruction for `keys` and `args`, addressed to the program.
pub fn withdraw_stake_account_ix(
    keys: WithdrawStakeAccountKeys,
    args: WithdrawStakeAccountIxArgs,
) -> (r: Instruction)
    ensures
        r.program_id == Pubkey(ID_BYTES),
        r.accounts@ == spec_metas(
            keys.spec_pubkeys(),
            WITHDRAW_STAKE_ACCOUNT_IX_SIGNERS@,
            WITHDRAW_STAKE_ACCOUNT_IX_WRITABLES@,
        ),
        r.data@ == WITHDRAW_STAKE_ACCOUNT_IX_DISCM@ + args.spec_encode(),
{
    Instruction {
        program_id: Pubkey(ID_BYTES),
        accounts: keys.account_metas(),
        data: WithdrawStakeAccountIxData(args).try_to_vec(),
    }
}

/// Compares the addresses of `accounts` with `keys` in account order and
/// reports the first pair (actual, expected) that differs.
pub fn withdraw_stake_account_verify_account_keys(
    accounts: WithdrawStakeAccountAccounts,
    keys: WithdrawStakeAccountKeys,
) -> (r: Result<(), (Pubkey, Pubkey)>)
    ensures
        keys_checked(keys_of(accounts.spec_handles()), keys.spec_pubkeys(), r),
{
    let actual = WithdrawStakeAccountKeys::from_accounts(&accounts).pubkeys();
    let expected = keys.pubkeys();
    verify_keys(&actual, &expected)
}

/// Checks that the accounts in writable roles are writable and then that
/// the accounts in signing roles have signed; reports the first that is not.
pub fn withdraw_stake_account_verify_account_privileges(
    accounts: WithdrawStakeAccountAccounts,
) -> (r: Result<(), (AccountHandle, PrivilegeError)>)
    ensures
        privileges_checked(
            accounts.spec_handles(),
            WITHDRAW_STAKE_ACCOUNT_IX_SIGNERS@,
            WITHDRAW_STAKE_ACCOUNT_IX_WRITABLES@,
            r,
        ),
{
    let handles = accounts.handles();
    verify_privileges(
        &handles,
        &WITHDRAW_STAKE_ACCOUNT_IX_SIGNERS,
        &WITHDRAW_STAKE_ACCOUNT_IX_WRITABLES,
    )
}

pub const REALLOC_VALIDATOR_LIST_IX_ACCOUNTS_LEN: usize = 5;

/// Whether each account of `realloc_validator_list` must sign, in account order.
pub const REALLOC_VALIDATOR_LIST_IX_SIGNERS: [bool; 5] = [false, true, false, true, false];

/// Whether each account of `realloc_validator_list` must be writable, in account order.
pub const REALLOC_VALIDATOR_LIST_IX_WRITABLES: [bool; 5] = [true, false, true, true, false];

/// The accounts of `realloc_validator_list` as the runtime hands them over.
#[derive(Clone, Copy, Debug, PartialEq, Eq)]
pub struct ReallocValidatorListAccounts {
    /// Writable.
    pub state: AccountHandle,
    /// Signer.
    pub admin_authority: AccountHandle,
    /// Writable.
    pub validator_list: AccountHandle,
    /// Signer, writable.
    pub rent_funds: AccountHandle,
    /// Read-only.
    pub system_program: AccountHandle,
}

/// The addresses of the accounts of `realloc_validator_list`.
#[derive(Clone, Copy, Debug, PartialEq, Eq)]
pub struct ReallocValidatorListKeys {
    /// Writable.
    pub state: Pubkey,
    /// Signer.
    pub admin_authority: Pubkey,
    /// Writable.
    pub validator_list: Pubkey,
    /// Signer, writable.
    pub rent_funds: Pubkey,
    /// Read-only.
    pub system_program: Pubkey,
}

impl ReallocValidatorListAccounts {
    /// The accounts in account order.
    pub open spec fn spec_handles(&self) -> Seq<AccountHandle> {
        seq![
            self.state,
            self.admin_authority,
            self.validator_list,
            self.rent_funds,
            self.system_program,
        ]
    }

    /// The accounts as an array in account order.
    pub fn handles(&self) -> (r: [AccountHandle; 5])
        ensures
            r@ == self.spec_handles(),
    {
        let r = [
            self.state,
            self.admin_authority,
            self.validator_list,
            self.rent_funds,
            self.system_program,
        ];
        assert(r@ =~= self.spec_handles());
        r
    }

    /// The accounts read from an array in account order.
    pub fn from_handles(arr: [AccountHandle; 5]) -> (r: Self)
        ensures
            r.spec_handles() == arr@,
    {
        let r = ReallocValidatorListAccounts {
            state: arr[0],
            admin_authority: arr[1],
            validator_list: arr[2],
            rent_funds: arr[3],
            system_program: arr[4],
        };
        assert(r.spec_handles() =~= arr@);
        r
    }
}

impl ReallocValidatorListKeys {
    /// The addresses in account order.
    pub open spec fn spec_pubkeys(&self) -> Seq<Pubkey> {
        seq![
            self.state,
            self.admin_authority,
            self.validator_list,
            self.rent_funds,
            self.system_program,
        ]
    }

    /// The addresses as an array in account order.
    pub fn pubkeys(&self) -> (r: [Pubkey; 5])
        ensures
            r@ == self.spec_pubkeys(),
    {
        let r = [
            self.state,
            self.admin_authority,
            self.validator_list,
            self.rent_funds,
            self.system_program,
        ];
        assert(r@ =~= self.spec_pubkeys());
        r
    }

    /// The addresses read from an array in account order.
    pub fn from_pubkeys(arr: [Pubkey; 5]) -> (r: Self)
        ensures
            r.spec_pubkeys() == arr@,
    {
        let r = ReallocValidatorListKeys {
            state: arr[0],
            admin_authority: arr[1],
            validator_list: arr[2],
            rent_funds: arr[3],
            system_program: arr[4],
        };
        assert(r.spec_pubkeys() =~= arr@);
        r
    }

    /// The addresses of `accounts`.
    pub fn from_accounts(accounts: &ReallocValidatorListAccounts) -> (r: Self)
        ensures
            r.spec_pubkeys() == keys_of(accounts.spec_handles()),
    {
        let r = ReallocValidatorListKeys {
            state: accounts.state.key,
            admin_authority: accounts.admin_authority.key,
            validator_list: accounts.validator_list.key,
            rent_funds: accounts.rent_funds.key,
            system_program: accounts.system_program.key,
        };
        assert(r.spec_pubkeys() =~= keys_of(accounts.spec_handles()));
        r
    }

    /// The account list of `realloc_validator_list`: one entry per role, in account order,
    /// each with the fixed flags of its role.
    pub fn account_metas(&self) -> (r: Vec<AccountMeta>)
        ensures
            r@.len() == REALLOC_VALIDATOR_LIST_IX_ACCOUNTS_LEN,
            r@ == spec_metas(
                self.spec_pubkeys(),
                REALLOC_VALIDATOR_LIST_IX_SIGNERS@,
                REALLOC_VALIDATOR_LIST_IX_WRITABLES@,
            ),
    {
        let keys = self.pubkeys();
        account_metas(
            &keys,
            &REALLOC_VALIDATOR_LIST_IX_SIGNERS,
            &REALLOC_VALIDATOR_LIST_IX_WRITABLES,
        )
    }
}

pub const REALLOC_VALIDATOR_LIST_IX_DISCM: [u8; 8] = [215, 59, 218, 133, 93, 138, 60, 123];

/// The arguments of `realloc_validator_list`.
#[derive(Clone, Copy, Debug, PartialEq, Eq)]
pub struct ReallocValidatorListIxArgs {
    pub capacity: u32,
}

impl WireFormat for ReallocValidatorListIxArgs {
    open spec fn spec_encode(&self) -> Seq<u8> {
        self.capacity.spec_encode()
    }

    open spec fn spec_parse(s: Seq<u8>) -> Result<(ReallocValidatorListIxArgs, nat), DecodeError> {
        match <u32 as WireFormat>::spec_parse(s) {
            Ok((capacity, n)) => Ok((ReallocValidatorListIxArgs { capacity }, n)),
            Err(e) => Err(e),
        }
    }

    proof fn lemma_parse_encode(&self, rest: Seq<u8>) {
        self.capacity.lemma_parse_encode(rest);
    }

    fn encode(&self, out: &mut Vec<u8>) {
        self.capacity.encode(out);
    }

    fn decode(
        buf: &[u8],
        pos: usize,
    ) -> (r: Result<(ReallocValidatorListIxArgs, usize), DecodeError>) {
        match <u32 as WireFormat>::decode(buf, pos) {
            Ok((capacity, end)) => Ok((ReallocValidatorListIxArgs { capacity }, end)),
            Err(e) => Err(e),
        }
    }
}

/// The data of a `realloc_validator_list` instruction: its discriminant, then its arguments.
#[derive(Clone, Copy, Debug, PartialEq, Eq)]
pub struct ReallocValidatorListIxData(pub ReallocValidatorListIxArgs);

impl ReallocValidatorListIxData {
    /// Reads the data of a `realloc_validator_list` instruction from the front of `buf`;
    /// bytes after it are left unread.
    pub fn deserialize(buf: &[u8]) -> (r: Result<Self, DecodeError>)
        ensures
            match spec_parse_tagged::<ReallocValidatorListIxArgs>(
                REALLOC_VALIDATOR_LIST_IX_DISCM,
                buf@,
            ) {
                Ok(args) => r == Ok::<Self, DecodeError>(ReallocValidatorListIxData(args)),
                Err(e) => r == Err::<Self, DecodeError>(e),
            },
    {
        match parse_tagged::<ReallocValidatorListIxArgs>(&REALLOC_VALIDATOR_LIST_IX_DISCM, buf) {
            Ok(args) => Ok(ReallocValidatorListIxData(args)),
            Err(e) => Err(e),
        }
    }

    /// Appends the discriminant of `realloc_validator_list` and then the arguments to `out`.
    pub fn serialize(&self, out: &mut Vec<u8>)
        ensures
            final(out)@ == old(out)@ + REALLOC_VALIDATOR_LIST_IX_DISCM@ + self.0.spec_encode(),
    {
        write_tagged(&REALLOC_VALIDATOR_LIST_IX_DISCM, &self.0, out);
    }

    /// The bytes of the instruction data.
    pub fn try_to_vec(&self) -> (r: Vec<u8>)
        ensures
            r@ == REALLOC_VALIDATOR_LIST_IX_DISCM@ + self.0.spec_encode(),
    {
        let mut data: Vec<u8> = Vec::new();
        self.serialize(&mut data);
        assert(data@ =~= REALLOC_VALIDATOR_LIST_IX_DISCM@ + self.0.spec_encode());
        data
    }
}

/// The `realloc_validator_list` instruction for `keys` and `args`, addressed to the program.
pub fn realloc_validator_list_ix(
    keys: ReallocValidatorListKeys,
    args: ReallocValidatorListIxArgs,
) -> (r: Instruction)
    ensures
        r.program_id == Pubkey(ID_BYTES),
        r.accounts@ == spec_metas(
            keys.spec_pubkeys(),
            REALLOC_VALIDATOR_LIST_IX_SIGNERS@,
            REALLOC_VALIDATOR_LIST_IX_WRITABLES@,
        ),
        r.data@ == REALLOC_VALIDATOR_LIST_IX_DISCM@ + args.spec_encode(),
{
    Instruction {
        program_id: Pubkey(ID_BYTES),
        accounts: keys.account_metas(),
        data: ReallocValidatorListIxData(args).try_to_vec(),
    }
}

/// Compares the addresses of `accounts` with `keys` in account order and
/// reports the first pair (actual, expected) that differs.
pub fn realloc_validator_list_verify_account_keys(
    accounts: ReallocValidatorListAccounts,
    keys: ReallocValidatorListKeys,
) -> (r: Result<(), (Pubkey, Pubkey)>)
    ensures
        keys_checked(keys_of(accounts.spec_handles()), keys.spec_pubkeys(), r),
{
    let actual = ReallocValidatorListKeys::from_accounts(&accounts).pubkeys();
    let expected = keys.pubkeys();
    verify_keys(&actual, &expected)
}

/// Checks that the accounts in writable roles are writable and then that
/// the accounts in signing roles have signed; reports the first that is not.
pub fn realloc_validator_list_verify_account_privileges(
    accounts: ReallocValidatorListAccounts,
) -> (r: Result<(), (AccountHandle, PrivilegeError)>)
    ensures
        privileges_checked(
            accounts.spec_handles(),
            REALLOC_VALIDATOR_LIST_IX_SIGNERS@,
            REALLOC_VALIDATOR_LIST_IX_WRITABLES@,
            r,
        ),
{
    let handles = accounts.handles();
    verify_privileges(
        &handles,
        &REALLOC_VALIDATOR_LIST_IX_SIGNERS,
        &REALLOC_VALIDATOR_LIST_IX_WRITABLES,
    )
}

pub const REALLOC_STAKE_LIST_IX_ACCOUNTS_LEN: usize = 5;

/// Whether each account of `realloc_stake_list` must sign, in account order.
pub const REALLOC_STAKE_LIST_IX_SIGNERS: [bool; 5] = [false, true, false, true, false];

/// Whether each account of `realloc_stake_list` must be writable, in account order.
pub const REALLOC_STAKE_LIST_IX_WRITABLES: [bool; 5] = [true, false, true, true, false];

/// The accounts of `realloc_stake_list` as the runtime hands them over.
#[derive(Clone, Copy, Debug, PartialEq, Eq)]
pub struct ReallocStakeListAccounts {
    /// Writable.
    pub state: AccountHandle,
    /// Signer.
    pub admin_authority: AccountHandle,
    /// Writable.
    pub stake_list: AccountHandle,
    /// Signer, writable.
    pub rent_funds: AccountHandle,
    /// Read-only.
    pub system_program: AccountHandle,
}

/// The addresses of the accounts of `realloc_stake_list`.
#[derive(Clone, Copy, Debug, PartialEq, Eq)]
pub struct ReallocStakeListKeys {
    /// Writable.
    pub state: Pubkey,
    /// Signer.
    pub admin_authority: Pubkey,
    /// Writable.
    pub stake_list: Pubkey,
    /// Signer, writable.
    pub rent_funds: Pubkey,
    /// Read-only.
    pub system_program: Pubkey,
}

impl ReallocStakeListAccounts {
    /// The accounts in account order.
    pub open spec fn spec_handles(&self) -> Seq<AccountHandle> {
        seq![
            self.state,
            self.admin_authority,
            self.stake_list,
            self.rent_funds,
            self.system_program,
        ]
    }

    /// The accounts as an array in account order.
    pub fn handles(&self) -> (r: [AccountHandle; 5])
        ensures
            r@ == self.spec_handles(),
    {
        let r = [
            self.state,
            self.admin_authority,
            self.stake_list,
            self.rent_funds,
            self.system_program,
        ];
        assert(r@ =~= self.spec_handles());
        r
    }

    /// The accounts read from an array in account order.
    pub fn from_handles(arr: [AccountHandle; 5]) -> (r: Self)
        ensures
            r.spec_handles() == arr@,
    {
        let r = ReallocStakeListAccounts {
            state: arr[0],
            admin_authority: arr[1],
            stake_list: arr[2],
            rent_funds: arr[3],
            system_program: arr[4],
        };
        assert(r.spec_handles() =~= arr@);
        r
    }
}

impl ReallocStakeListKeys {
    /// The addresses in account order.
    pub open spec fn spec_pubkeys(&self) -> Seq<Pubkey> {
        seq![
            self.state,
            self.admin_authority,
            self.stake_list,
            self.rent_funds,
            self.system_program,
        ]
    }

    /// The addresses as an array in account order.
    pub fn pubkeys(&self) -> (r: [Pubkey; 5])
        ensures
            r@ == self.spec_pubkeys(),
    {
        let r = [
            self.state,
            self.admin_authority,
            self.stake_list,
            self.rent_funds,
            self.system_program,
        ];
        assert(r@ =~= self.spec_pubkeys());
        r
    }

    /// The addresses read from an array in account order.
    pub fn from_pubkeys(arr: [Pubkey; 5]) -> (r: Self)
        ensures
            r.spec_pubkeys() == arr@,
    {
        let r = ReallocStakeListKeys {
            state: arr[0],
            admin_authority: arr[1],
            stake_list: arr[2],
            rent_funds: arr[3],
            system_program: arr[4],
        };
        assert(r.spec_pubkeys() =~= arr@);
        r
    }

    /// The addresses of `accounts`.
    pub fn from_accounts(accounts: &ReallocStakeListAccounts) -> (r: Self)
        ensures
            r.spec_pubkeys() == keys_of(accounts.spec_handles()),
    {
        let r = ReallocStakeListKeys {
            state: accounts.state.key,
            admin_authority: accounts.admin_authority.key,
            stake_list: accounts.stake_list.key,
            rent_funds: accounts.rent_funds.key,
            system_program: accounts.system_program.key,
        };
        assert(r.spec_pubkeys() =~= keys_of(accounts.spec_handles()));
        r
    }

    /// The account list of `realloc_stake_list`: one entry per role, in account order,
    /// each with the fixed flags of its role.
    pub fn account_metas(&self) -> (r: Vec<AccountMeta>)
        ensures
            r@.len() == REALLOC_STAKE_LIST_IX_ACCOUNTS_LEN,
            r@ == spec_metas(
                self.spec_pubkeys(),
                REALLOC_STAKE_LIST_IX_SIGNERS@,
                REALLOC_STAKE_LIST_IX_WRITABLES@,
            ),
    {
        let keys = self.pubkeys();
        account_metas(&keys, &REALLOC_STAKE_LIST_IX_SIGNERS, &REALLOC_STAKE_LIST_IX_WRITABLES)
    }
}

pub const REALLOC_STAKE_LIST_IX_DISCM: [u8; 8] = [12, 36, 124, 27, 128, 96, 85, 199];

/// The arguments of `realloc_stake_list`.
#[derive(Clone, Copy, Debug, PartialEq, Eq)]
pub struct ReallocStakeListIxArgs {
    pub capacity: u32,
}

impl WireFormat for ReallocStakeListIxArgs {
    open spec fn spec_encode(&self) -> Seq<u8> {
        self.capacity.spec_encode()
    }

    open spec fn spec_parse(s: Seq<u8>) -> Result<(ReallocStakeListIxArgs, nat), DecodeError> {
        match <u32 as WireFormat>::spec_parse(s) {
            Ok((capacity, n)) => Ok((ReallocStakeListIxArgs { capacity }, n)),
            Err(e) => Err(e),
        }
    }

    proof fn lemma_parse_encode(&self, rest: Seq<u8>) {
        self.capacity.lemma_parse_encode(rest);
    }

    fn encode(&self, out: &mut Vec<u8>) {
        self.capacity.encode(out);
    }

    fn decode(buf: &[u8], pos: usize) -> (r: Result<(ReallocStakeListIxArgs, usize), DecodeError>) {
        match <u32 as WireFormat>::decode(buf, pos) {
            Ok((capacity, end)) => Ok((ReallocStakeListIxArgs { capacity }, end)),
            Err(e) => Err(e),
        }
    }
}

/// The data of a `realloc_stake_list` instruction: its discriminant, then its arguments.
#[derive(Clone, Copy, Debug, PartialEq, Eq)]
pub struct ReallocStakeListIxData(pub ReallocStakeListIxArgs);

impl ReallocStakeListIxData {
    /// Reads the data of a `realloc_stake_list` instruction from the front of `buf`;
    /// bytes after it are left unread.
    pub fn deserialize(buf: &[u8]) -> (r: Result<Self, DecodeError>)
        ensures
            match spec_parse_tagged::<ReallocStakeListIxArgs>(REALLOC_STAKE_LIST_IX_DISCM, buf@) {
                Ok(args) => r == Ok::<Self, DecodeError>(ReallocStakeListIxData(args)),
                Err(e) => r == Err::<Self, DecodeError>(e),
            },
    {
        match parse_tagged::<ReallocStakeListIxArgs>(&REALLOC_STAKE_LIST_IX_DISCM, buf) {
            Ok(args) => Ok(ReallocStakeListIxData(args)),
            Err(e) => Err(e),
        }
    }

    /// Appends the discriminant of `realloc_stake_list` and then the arguments to `out`.
    pub fn serialize(&self, out: &mut Vec<u8>)
        ensures
            final(out)@ == old(out)@ + REALLOC_STAKE_LIST_IX_DISCM@ + self.0.spec_encode(),
    {
        write_tagged(&REALLOC_STAKE_LIST_IX_DISCM, &self.0, out);
    }

    /// The bytes of the instruction data.
    pub fn try_to_vec(&self) -> (r: Vec<u8>)
        ensures
            r@ == REALLOC_STAKE_LIST_IX_DISCM@ + self.0.spec_encode(),
    {
        let mut data: Vec<u8> = Vec::new();
        self.serialize(&mut data);
        assert(data@ =~= REALLOC_STAKE_LIST_IX_DISCM@ + self.0.spec_encode());
        data
    }
}

/// The `realloc_stake_list` instruction for `keys` and `args`, addressed to the program.
pub fn realloc_stake_list_ix(
    keys: ReallocStakeListKeys,
    args: ReallocStakeListIxArgs,
) -> (r: Instruction)
    ensures
        r.program_id == Pubkey(ID_BYTES),
        r.accounts@ == spec_metas(
            keys.spec_pubkeys(),
            REALLOC_STAKE_LIST_IX_SIGNERS@,
            REALLOC_STAKE_LIST_IX_WRITABLES@,
        ),
        r.data@ == REALLOC_STAKE_LIST_IX_DISCM@ + args.spec_encode(),
{
    Instruction {
        program_id: Pubkey(ID_BYTES),
        accounts: keys.account_metas(),
        data: ReallocStakeListIxData(args).try_to_vec(),
    }
}

/// Compares the addresses of `accounts` with `keys` in account order and
/// reports the first pair (actual, expected) that differs.
pub fn realloc_stake_list_verify_account_keys(
    accounts: ReallocStakeListAccounts,
    keys: ReallocStakeListKeys,
) -> (r: Result<(), (Pubkey, Pubkey)>)
    ensures
        keys_checked(keys_of(accounts.spec_handles()), keys.spec_pubkeys(), r),
{
    let actual = ReallocStakeListKeys::from_accounts(&accounts).pubkeys();
    let expected = keys.pubkeys();
    verify_keys(&actual, &expected)
}

/// Checks that the accounts in writable roles are writable and then that
/// the accounts in signing roles have signed; reports the first that is not.
pub fn realloc_stake_list_verify_account_privileges(
    accounts: ReallocStakeListAccounts,
) -> (r: Result<(), (AccountHandle, PrivilegeError)>)
    ensures
        privileges_checked(
            accounts.spec_handles(),
            REALLOC_STAKE_LIST_IX_SIGNERS@,
            REALLOC_STAKE_LIST_IX_WRITABLES@,
            r,
        ),
{
    let handles = accounts.handles();
    verify_privileges(&handles, &REALLOC_STAKE_LIST_IX_SIGNERS, &REALLOC_STAKE_LIST_IX_WRITABLES)
}

} // verus!

use std::str::FromStr;

use marinade_finance_interface::accounts::{AccountHandle, AccountMeta, PrivilegeError};
use marinade_finance_interface::codec::Pubkey;
use marinade_finance_interface::instructions::{
    add_validator_verify_account_privileges, change_authority_verify_account_keys, claim_ix,
    deposit_ix, initialize_verify_account_privileges, pause_ix, pause_verify_account_keys,
    pause_verify_account_privileges, AddValidatorAccounts, ChangeAuthorityAccounts,
    ChangeAuthorityKeys, ClaimKeys, DepositIxArgs, DepositKeys, InitializeAccounts, PauseAccounts,
    PauseKeys, WithdrawStakeAccountKeys, ADD_VALIDATOR_IX_ACCOUNTS_LEN, CLAIM_IX_ACCOUNTS_LEN,
    DEPOSIT_IX_ACCOUNTS_LEN, WITHDRAW_STAKE_ACCOUNT_IX_ACCOUNTS_LEN,
};
use marinade_finance_interface::program::ID_BYTES;

fn key(b: u8) -> Pubkey {
    Pubkey([b; 32])
}

fn handle(b: u8, is_signer: bool, is_writable: bool) -> AccountHandle {
    AccountHandle { key: key(b), is_signer, is_writable }
}

fn meta(b: u8, is_signer: bool, is_writable: bool) -> AccountMeta {
    AccountMeta { pubkey: key(b), is_signer, is_writable }
}

#[test]
fn pause_instruction_accounts_and_data() {
    let ix = pause_ix(PauseKeys { state: key(0xa), pause_authority: key(0xb) });
    assert_eq!(ix.accounts, vec![meta(0xa, false, true), meta(0xb, true, false)]);
    assert_eq!(ix.data, vec![211, 22, 221, 251, 74, 121, 193, 47]);
    assert_eq!(ix.program_id, Pubkey(ID_BYTES));
}

#[test]
fn program_id_is_the_published_address() {
    let published = solana_program::pubkey::Pubkey::from_str("MarBmsSgKXdrN1egZf5sqe1TMai9K1rChYNDJgjq7aD").unwrap();
    assert_eq!(published.to_bytes(), ID_BYTES);
}

#[test]
fn deposit_instruction_in_role_order() {
    let keys = DepositKeys::from_pubkeys([
        key(0), key(1), key(2), key(3), key(4), key(5), key(6), key(7), key(8), key(9), key(10),
    ]);
    assert_eq!(keys.state, key(0));
    assert_eq!(keys.transfer_from, key(6));
    let ix = deposit_ix(keys, DepositIxArgs { lamports: 1_000_000_000 });
    assert_eq!(ix.accounts.len(), DEPOSIT_IX_ACCOUNTS_LEN);
    for (i, m) in ix.accounts.iter().enumerate() {
        assert_eq!(m.pubkey, key(i as u8));
    }
    assert_eq!(ix.accounts[0], meta(0, false, true));
    assert_eq!(ix.accounts[6], meta(6, true, true));
    assert_eq!(ix.data, vec![242, 35, 198, 137, 82, 225, 242, 182, 0, 202, 154, 59, 0, 0, 0, 0]);
    assert_eq!(keys.pubkeys().to_vec(), (0..11).map(key).collect::<Vec<_>>());
}

#[test]
fn account_count_does_not_depend_on_keys() {
    let same = ClaimKeys::from_pubkeys([key(0); CLAIM_IX_ACCOUNTS_LEN]);
    let varied = ClaimKeys::from_pubkeys([key(1), key(2), key(3), key(4), key(5), key(6)]);
    assert_eq!(claim_ix(same).accounts.len(), CLAIM_IX_ACCOUNTS_LEN);
    assert_eq!(claim_ix(varied).accounts.len(), CLAIM_IX_ACCOUNTS_LEN);
    let w = WithdrawStakeAccountKeys::from_pubkeys([key(7); WITHDRAW_STAKE_ACCOUNT_IX_ACCOUNTS_LEN]);
    assert_eq!(w.account_metas().len(), 16);
}

#[test]
fn verify_keys_reports_first_mismatch() {
    let accounts = ChangeAuthorityAccounts { state: handle(1, false, true), admin_authority: handle(2, true, false) };
    let keys = ChangeAuthorityKeys { state: key(3), admin_authority: key(4) };
    assert_eq!(change_authority_verify_account_keys(accounts, keys), Err((key(1), key(3))));
    let keys = ChangeAuthorityKeys { state: key(1), admin_authority: key(4) };
    assert_eq!(change_authority_verify_account_keys(accounts, keys), Err((key(2), key(4))));
    let keys = ChangeAuthorityKeys { state: key(1), admin_authority: key(2) };
    assert_eq!(change_authority_verify_account_keys(accounts, keys), Ok(()));
}

#[test]
fn verify_keys_of_pause() {
    let accounts = PauseAccounts::from_handles([handle(1, false, true), handle(2, true, false)]);
    assert_eq!(pause_verify_account_keys(accounts, PauseKeys { state: key(1), pause_authority: key(2) }), Ok(()));
    assert_eq!(
        pause_verify_account_keys(accounts, PauseKeys { state: key(1), pause_authority: key(9) }),
        Err((key(2), key(9)))
    );
}

fn add_validator_accounts() -> AddValidatorAccounts {
    AddValidatorAccounts {
        state: handle(0, false, true),
        manager_authority: handle(1, true, false),
        validator_list: handle(2, false, true),
        validator_vote: handle(3, false, false),
        duplication_flag: handle(4, false, true),
        rent_payer: handle(5, true, true),
        clock: handle(6, false, false),
        rent: handle(7, false, false),
        system_program: handle(8, false, false),
    }
}

#[test]
fn add_validator_rent_payer_must_sign() {
    let mut accounts = add_validator_accounts();
    assert_eq!(add_validator_verify_account_privileges(accounts), Ok(()));
    accounts.rent_payer = handle(5, false, true);
    assert_eq!(
        add_validator_verify_account_privileges(accounts),
        Err((accounts.rent_payer, PrivilegeError::NotSigner))
    );
    assert_eq!(accounts.handles().len(), ADD_VALIDATOR_IX_ACCOUNTS_LEN);
}

#[test]
fn writable_checks_come_before_signer_checks() {
    let mut accounts = add_validator_accounts();
    accounts.manager_authority = handle(1, false, false);
    accounts.duplication_flag = handle(4, false, false);
    assert_eq!(
        add_validator_verify_account_privileges(accounts),
        Err((accounts.duplication_flag, PrivilegeError::NotWritable))
    );
    accounts.validator_list = handle(2, false, false);
    assert_eq!(
        add_validator_verify_account_privileges(accounts),
        Err((accounts.validator_list, PrivilegeError::NotWritable))
    );
    accounts = add_validator_accounts();
    accounts.manager_authority = handle(1, false, false);
    accounts.rent_payer = handle(5, false, true);
    assert_eq!(
        add_validator_verify_account_privileges(accounts),
        Err((accounts.manager_authority, PrivilegeError::NotSigner))
    );
}

#[test]
fn privileges_without_signers() {
    let mut h = [handle(0, false, false); 12];
    h[0].is_writable = true;
    h[2].is_writable = true;
    h[3].is_writable = true;
    let accounts = InitializeAccounts::from_handles(h);
    assert_eq!(initialize_verify_account_privileges(accounts), Ok(()));
    h[3].is_writable = false;
    let accounts = InitializeAccounts::from_handles(h);
    assert_eq!(initialize_verify_account_privileges(accounts), Err((h[3], PrivilegeError::NotWritable)));
}

#[test]
fn pause_authority_must_sign() {
    let accounts = PauseAccounts { state: handle(1, false, true), pause_authority: handle(2, false, false) };
    assert_eq!(
        pause_verify_account_privileges(accounts),
        Err((handle(2, false, false), PrivilegeError::NotSigner))
    );
    let accounts = PauseAccounts { state: handle(1, false, false), pause_authority: handle(2, true, false) };
    assert_eq!(
        pause_verify_account_privileges(accounts),
        Err((handle(1, false, false), PrivilegeError::NotWritable))
    );
}

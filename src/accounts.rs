//! Account lists: the entries an instruction carries, the accounts the
//! runtime hands over, and the checks of addresses and privileges over them.

use vstd::prelude::*;
use crate::codec::Pubkey;

verus! {

/// One entry of an instruction's account list as it goes to the runtime.
#[derive(Clone, Copy, Debug, PartialEq, Eq)]
pub struct AccountMeta {
    pub pubkey: Pubkey,
    pub is_signer: bool,
    pub is_writable: bool,
}

/// An account as the runtime hands it to a caller: its address and the
/// privileges it carries in the current call.
#[derive(Clone, Copy, Debug, PartialEq, Eq)]
pub struct AccountHandle {
    pub key: Pubkey,
    pub is_signer: bool,
    pub is_writable: bool,
}

/// The privilege that an account lacks.
#[derive(Clone, Copy, Debug, PartialEq, Eq)]
pub enum PrivilegeError {
    /// The role is writable but the account is not.
    NotWritable,
    /// The role must sign but the account did not.
    NotSigner,
}

/// An instruction addressed to a program, ready for submission.
#[derive(Clone, Debug, PartialEq, Eq)]
pub struct Instruction {
    pub program_id: Pubkey,
    pub accounts: Vec<AccountMeta>,
    pub data: Vec<u8>,
}

/// The account list that gives the account at each position of `keys` the
/// signer and writable flags at the same position of `signers` and `writables`.
pub open spec fn spec_metas(keys: Seq<Pubkey>, signers: Seq<bool>, writables: Seq<bool>) -> Seq<
    AccountMeta,
> {
    Seq::new(
        keys.len(),
        |i: int| AccountMeta { pubkey: keys[i], is_signer: signers[i], is_writable: writables[i] },
    )
}

/// The addresses of `accounts`, in order.
pub open spec fn keys_of(accounts: Seq<AccountHandle>) -> Seq<Pubkey> {
    accounts.map_values(|a: AccountHandle| a.key)
}

/// `i` is the first position at which `actual` and `expected` differ.
pub open spec fn is_first_mismatch(actual: Seq<Pubkey>, expected: Seq<Pubkey>, i: int) -> bool {
    &&& 0 <= i < actual.len()
    &&& actual[i] != expected[i]
    &&& forall|j: int| 0 <= j < i ==> actual[j] == expected[j]
}

/// `r` is the outcome of comparing `actual` with `expected` in order: success
/// when they agree, else the first pair (actual, expected) that differs.
pub open spec fn keys_checked(
    actual: Seq<Pubkey>,
    expected: Seq<Pubkey>,
    r: Result<(), (Pubkey, Pubkey)>,
) -> bool {
    match r {
        Ok(()) => actual == expected,
        Err((a, e)) => exists|i: int|
            #[trigger] is_first_mismatch(actual, expected, i) && a == actual[i] && e == expected[i],
    }
}

/// Every account in a role that is writable is writable.
pub open spec fn all_writable(accounts: Seq<AccountHandle>, writables: Seq<bool>) -> bool {
    forall|i: int| 0 <= i < writables.len() && #[trigger] writables[i] ==> accounts[i].is_writable
}

/// Every account in a role that must sign has signed.
pub open spec fn all_signed(accounts: Seq<AccountHandle>, signers: Seq<bool>) -> bool {
    forall|i: int| 0 <= i < signers.len() && #[trigger] signers[i] ==> accounts[i].is_signer
}

/// `i` is the first writable role whose account is not writable.
pub open spec fn is_first_unwritable(
    accounts: Seq<AccountHandle>,
    writables: Seq<bool>,
    i: int,
) -> bool {
    &&& 0 <= i < writables.len()
    &&& writables[i]
    &&& !accounts[i].is_writable
    &&& forall|j: int| 0 <= j < i && #[trigger] writables[j] ==> accounts[j].is_writable
}

/// `i` is the first signing role whose account has not signed.
pub open spec fn is_first_unsigned(
    accounts: Seq<AccountHandle>,
    signers: Seq<bool>,
    i: int,
) -> bool {
    &&& 0 <= i < signers.len()
    &&& signers[i]
    &&& !accounts[i].is_signer
    &&& forall|j: int| 0 <= j < i && #[trigger] signers[j] ==> accounts[j].is_signer
}

/// `r` is the outcome of checking `accounts` against the flags of their roles:
/// writability is checked first, over the positions in order, then signatures;
/// the first account found lacking is reported with the privilege it lacks.
pub open spec fn privileges_checked(
    accounts: Seq<AccountHandle>,
    signers: Seq<bool>,
    writables: Seq<bool>,
    r: Result<(), (AccountHandle, PrivilegeError)>,
) -> bool {
    match r {
        Ok(()) => all_writable(accounts, writables) && all_signed(accounts, signers),
        Err((a, PrivilegeError::NotWritable)) => exists|i: int|
            #[trigger] is_first_unwritable(accounts, writables, i) && a == accounts[i],
        Err((a, PrivilegeError::NotSigner)) => all_writable(accounts, writables) && exists|i: int|
            #[trigger] is_first_unsigned(accounts, signers, i) && a == accounts[i],
    }
}

/// Gives each of `keys` the signer and writable flags at its position.
pub fn account_metas(keys: &[Pubkey], signers: &[bool], writables: &[bool]) -> (r: Vec<AccountMeta>)
    requires
        keys@.len() == signers@.len(),
        keys@.len() == writables@.len(),
    ensures
        r@ == spec_metas(keys@, signers@, writables@),
{
    let ghost want = spec_metas(keys@, signers@, writables@);
    let mut r: Vec<AccountMeta> = Vec::new();
    let mut i: usize = 0;
    while i < keys.len()
        invariant
            i <= keys@.len(),
            keys@.len() == signers@.len(),
            keys@.len() == writables@.len(),
            want == spec_metas(keys@, signers@, writables@),
            r@ == want.take(i as int),
        decreases keys@.len() - i,
    {
        r.push(AccountMeta { pubkey: keys[i], is_signer: signers[i], is_writable: writables[i] });
        assert(want.take(i + 1) =~= want.take(i as int).push(want[i as int]));
        i = i + 1;
    }
    assert(want.take(i as int) =~= want);
    r
}

/// Compares `actual` with `expected` position by position and reports the
/// first pair that differs.
pub fn verify_keys(actual: &[Pubkey], expected: &[Pubkey]) -> (r: Result<(), (Pubkey, Pubkey)>)
    requires
        actual@.len() == expected@.len(),
    ensures
        keys_checked(actual@, expected@, r),
{
    let mut i: usize = 0;
    while i < actual.len()
        invariant
            i <= actual@.len(),
            actual@.len() == expected@.len(),
            forall|j: int| 0 <= j < i ==> actual@[j] == expected@[j],
        decreases actual@.len() - i,
    {
        if !(actual[i] == expected[i]) {
            assert(is_first_mismatch(actual@, expected@, i as int));
            return Err((actual[i], expected[i]));
        }
        i = i + 1;
    }
    assert(actual@ =~= expected@);
    Ok(())
}

/// Checks that each account in a writable role is writable and then that each
/// account in a signing role has signed; reports the first that is not.
pub fn verify_privileges(accounts: &[AccountHandle], signers: &[bool], writables: &[bool]) -> (r:
    Result<(), (AccountHandle, PrivilegeError)>)
    requires
        accounts@.len() == signers@.len(),
        accounts@.len() == writables@.len(),
    ensures
        privileges_checked(accounts@, signers@, writables@, r),
{
    let mut i: usize = 0;
    while i < accounts.len()
        invariant
            i <= accounts@.len(),
            accounts@.len() == signers@.len(),
            accounts@.len() == writables@.len(),
            forall|j: int| 0 <= j < i && #[trigger] writables@[j] ==> accounts@[j].is_writable,
        decreases accounts@.len() - i,
    {
        if writables[i] && !accounts[i].is_writable {
            assert(is_first_unwritable(accounts@, writables@, i as int));
            return Err((accounts[i], PrivilegeError::NotWritable));
        }
        i = i + 1;
    }
    let mut k: usize = 0;
    while k < accounts.len()
        invariant
            k <= accounts@.len(),
            accounts@.len() == signers@.len(),
            accounts@.len() == writables@.len(),
            all_writable(accounts@, writables@),
            forall|j: int| 0 <= j < k && #[trigger] signers@[j] ==> accounts@[j].is_signer,
        decreases accounts@.len() - k,
    {
        if signers[k] && !accounts[k].is_signer {
            assert(is_first_unsigned(accounts@, signers@, k as int));
            return Err((accounts[k], PrivilegeError::NotSigner));
        }
        k = k + 1;
    }
    Ok(())
}

} // verus!

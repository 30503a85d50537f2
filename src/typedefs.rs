//! The records that instruction arguments are built from.

use vstd::prelude::*;
use crate::codec::{DecodeError, Pubkey, WireFormat};

verus! {

/// A fee in basis points (hundredths of a percent).
#[derive(Clone, Copy, Debug, PartialEq, Eq)]
pub struct Fee {
    pub basis_points: u32,
}

impl WireFormat for Fee {
    open spec fn spec_encode(&self) -> Seq<u8> {
        self.basis_points.spec_encode()
    }

    closed spec fn spec_parse(s: Seq<u8>) -> Result<(Fee, nat), DecodeError> {
        match <u32 as WireFormat>::spec_parse(s) {
            Ok((basis_points, n)) => Ok((Fee { basis_points }, n)),
            Err(e) => Err(e),
        }
    }

    proof fn lemma_parse_encode(&self, rest: Seq<u8>) {
        self.basis_points.lemma_parse_encode(rest);
    }

    fn encode(&self, out: &mut Vec<u8>) {
        self.basis_points.encode(out);
    }

    fn decode(buf: &[u8], pos: usize) -> (r: Result<(Fee, usize), DecodeError>) {
        match <u32 as WireFormat>::decode(buf, pos) {
            Ok((basis_points, end)) => Ok((Fee { basis_points }, end)),
            Err(e) => Err(e),
        }
    }
}

/// A fee in hundredths of a basis point.
#[derive(Clone, Copy, Debug, PartialEq, Eq)]
pub struct FeeCents {
    pub bp_cents: u32,
}

impl WireFormat for FeeCents {
    open spec fn spec_encode(&self) -> Seq<u8> {
        self.bp_cents.spec_encode()
    }

    closed spec fn spec_parse(s: Seq<u8>) -> Result<(FeeCents, nat), DecodeError> {
        match <u32 as WireFormat>::spec_parse(s) {
            Ok((bp_cents, n)) => Ok((FeeCents { bp_cents }, n)),
            Err(e) => Err(e),
        }
    }

    proof fn lemma_parse_encode(&self, rest: Seq<u8>) {
        self.bp_cents.lemma_parse_encode(rest);
    }

    fn encode(&self, out: &mut Vec<u8>) {
        self.bp_cents.encode(out);
    }

    fn decode(buf: &[u8], pos: usize) -> (r: Result<(FeeCents, usize), DecodeError>) {
        match <u32 as WireFormat>::decode(buf, pos) {
            Ok((bp_cents, end)) => Ok((FeeCents { bp_cents }, end)),
            Err(e) => Err(e),
        }
    }
}

/// Initial settings of the liquidity pool.
#[derive(Clone, Copy, Debug, PartialEq, Eq)]
pub struct LiqPoolInitializeData {
    pub lp_liquidity_target: u64,
    pub lp_max_fee: Fee,
    pub lp_min_fee: Fee,
    pub lp_treasury_cut: Fee,
}

/// Laid out as its fields in declared order.
impl WireFormat for LiqPoolInitializeData {
    open spec fn spec_encode(&self) -> Seq<u8> {
        (self.lp_liquidity_target,
            (self.lp_max_fee,
                (self.lp_min_fee,
                    self.lp_treasury_cut))).spec_encode()
    }

    closed spec fn spec_parse(s: Seq<u8>) -> Result<(LiqPoolInitializeData, nat), DecodeError> {
        match <(u64, (Fee, (Fee, Fee))) as WireFormat>::spec_parse(s) {
            Ok(((lp_liquidity_target, (lp_max_fee, (lp_min_fee, lp_treasury_cut))), n)) =>
                Ok((LiqPoolInitializeData {
                    lp_liquidity_target,
                    lp_max_fee,
                    lp_min_fee,
                    lp_treasury_cut,
                }, n)),
            Err(e) => Err(e),
        }
    }

    proof fn lemma_parse_encode(&self, rest: Seq<u8>) {
        (self.lp_liquidity_target,
            (self.lp_max_fee,
                (self.lp_min_fee,
                    self.lp_treasury_cut))).lemma_parse_encode(rest);
    }

    fn encode(&self, out: &mut Vec<u8>) {
        (self.lp_liquidity_target,
            (self.lp_max_fee,
                (self.lp_min_fee,
                    self.lp_treasury_cut))).encode(out);
    }

    fn decode(buf: &[u8], pos: usize) -> (r: Result<(LiqPoolInitializeData, usize), DecodeError>) {
        match <(u64, (Fee, (Fee, Fee))) as WireFormat>::decode(buf, pos) {
            Ok(((lp_liquidity_target, (lp_max_fee, (lp_min_fee, lp_treasury_cut))), end)) =>
                Ok((LiqPoolInitializeData {
                    lp_liquidity_target,
                    lp_max_fee,
                    lp_min_fee,
                    lp_treasury_cut,
                }, end)),
            Err(e) => Err(e),
        }
    }
}

/// Initial settings of the program state.
#[derive(Clone, Copy, Debug, PartialEq, Eq)]
pub struct InitializeData {
    pub admin_authority: Pubkey,
    pub validator_manager_authority: Pubkey,
    pub min_stake: u64,
    pub rewards_fee: Fee,
    pub liq_pool: LiqPoolInitializeData,
    pub additional_stake_record_space: u32,
    pub additional_validator_record_space: u32,
    pub slots_for_stake_delta: u64,
    pub pause_authority: Pubkey,
}

/// The fields of a `InitializeData`, in declared order, as nested pairs.
type InitializeDataFields =
    (Pubkey,
        (Pubkey,
            (u64,
                (Fee,
                    (LiqPoolInitializeData,
                        (u32,
                            (u32,
                                (u64,
                                    Pubkey))))))));

/// Laid out as its fields in declared order.
impl WireFormat for InitializeData {
    open spec fn spec_encode(&self) -> Seq<u8> {
        (self.admin_authority,
            (self.validator_manager_authority,
                (self.min_stake,
                    (self.rewards_fee,
                        (self.liq_pool,
                            (self.additional_stake_record_space,
                                (self.additional_validator_record_space,
                                    (self.slots_for_stake_delta,
                                        self.pause_authority)))))))).spec_encode()
    }

    closed spec fn spec_parse(s: Seq<u8>) -> Result<(InitializeData, nat), DecodeError> {
        match <InitializeDataFields as WireFormat>::spec_parse(s) {
            Ok(((admin_authority,
                (validator_manager_authority,
                    (min_stake,
                        (rewards_fee,
                            (liq_pool,
                                (additional_stake_record_space,
                                    (additional_validator_record_space,
                                        (slots_for_stake_delta,
                                            pause_authority)))))))), n)) =>
                Ok((InitializeData {
                    admin_authority,
                    validator_manager_authority,
                    min_stake,
                    rewards_fee,
                    liq_pool,
                    additional_stake_record_space,
                    additional_validator_record_space,
                    slots_for_stake_delta,
                    pause_authority,
                }, n)),
            Err(e) => Err(e),
        }
    }

    proof fn lemma_parse_encode(&self, rest: Seq<u8>) {
        (self.admin_authority,
            (self.validator_manager_authority,
                (self.min_stake,
                    (self.rewards_fee,
                        (self.liq_pool,
                            (self.additional_stake_record_space,
                                (self.additional_validator_record_space,
                                    (self.slots_for_stake_delta,
                                        self.pause_authority)))))))).lemma_parse_encode(rest);
    }

    fn encode(&self, out: &mut Vec<u8>) {
        (self.admin_authority,
            (self.validator_manager_authority,
                (self.min_stake,
                    (self.rewards_fee,
                        (self.liq_pool,
                            (self.additional_stake_record_space,
                                (self.additional_validator_record_space,
                                    (self.slots_for_stake_delta,
                                        self.pause_authority)))))))).encode(out);
    }

    fn decode(buf: &[u8], pos: usize) -> (r: Result<(InitializeData, usize), DecodeError>) {
        match <InitializeDataFields as WireFormat>::decode(buf, pos) {
            Ok(((admin_authority,
                (validator_manager_authority,
                    (min_stake,
                        (rewards_fee,
                            (liq_pool,
                                (additional_stake_record_space,
                                    (additional_validator_record_space,
                                        (slots_for_stake_delta,
                                            pause_authority)))))))), end)) =>
                Ok((InitializeData {
                    admin_authority,
                    validator_manager_authority,
                    min_stake,
                    rewards_fee,
                    liq_pool,
                    additional_stake_record_space,
                    additional_validator_record_space,
                    slots_for_stake_delta,
                    pause_authority,
                }, end)),
            Err(e) => Err(e),
        }
    }
}

/// New authorities; a field left `None` keeps the current one.
#[derive(Clone, Copy, Debug, PartialEq, Eq)]
pub struct ChangeAuthorityData {
    pub admin: Option<Pubkey>,
    pub validator_manager: Option<Pubkey>,
    pub operational_sol_account: Option<Pubkey>,
    pub treasury_msol_account: Option<Pubkey>,
    pub pause_authority: Option<Pubkey>,
}

/// The fields of a `ChangeAuthorityData`, in declared order, as nested pairs.
type ChangeAuthorityDataFields =
    (Option<Pubkey>,
        (Option<Pubkey>,
            (Option<Pubkey>,
                (Option<Pubkey>,
                    Option<Pubkey>))));

/// Laid out as its fields in declared order.
impl WireFormat for ChangeAuthorityData {
    open spec fn spec_encode(&self) -> Seq<u8> {
        (self.admin,
            (self.validator_manager,
                (self.operational_sol_account,
                    (self.treasury_msol_account,
                        self.pause_authority)))).spec_encode()
    }

    closed spec fn spec_parse(s: Seq<u8>) -> Result<(ChangeAuthorityData, nat), DecodeError> {
        match <ChangeAuthorityDataFields as WireFormat>::spec_parse(s) {
            Ok(((admin,
                (validator_manager,
                    (operational_sol_account,
                        (treasury_msol_account,
                            pause_authority)))), n)) =>
                Ok((ChangeAuthorityData {
                    admin,
                    validator_manager,
                    operational_sol_account,
                    treasury_msol_account,
                    pause_authority,
                }, n)),
            Err(e) => Err(e),
        }
    }

    proof fn lemma_parse_encode(&self, rest: Seq<u8>) {
        (self.admin,
            (self.validator_manager,
                (self.operational_sol_account,
                    (self.treasury_msol_account,
                        self.pause_authority)))).lemma_parse_encode(rest);
    }

    fn encode(&self, out: &mut Vec<u8>) {
        (self.admin,
            (self.validator_manager,
                (self.operational_sol_account,
                    (self.treasury_msol_account,
                        self.pause_authority)))).encode(out);
    }

    fn decode(buf: &[u8], pos: usize) -> (r: Result<(ChangeAuthorityData, usize), DecodeError>) {
        match <ChangeAuthorityDataFields as WireFormat>::decode(buf, pos) {
            Ok(((admin,
                (validator_manager,
                    (operational_sol_account,
                        (treasury_msol_account,
                            pause_authority)))), end)) =>
                Ok((ChangeAuthorityData {
                    admin,
                    validator_manager,
                    operational_sol_account,
                    treasury_msol_account,
                    pause_authority,
                }, end)),
            Err(e) => Err(e),
        }
    }
}

/// New liquidity-pool settings; a field left `None` keeps the current value.
#[derive(Clone, Copy, Debug, PartialEq, Eq)]
pub struct ConfigLpParams {
    pub min_fee: Option<Fee>,
    pub max_fee: Option<Fee>,
    pub liquidity_target: Option<u64>,
    pub treasury_cut: Option<Fee>,
}

/// The fields of a `ConfigLpParams`, in declared order, as nested pairs.
type ConfigLpParamsFields =
    (Option<Fee>,
        (Option<Fee>,
            (Option<u64>,
                Option<Fee>)));

/// Laid out as its fields in declared order.
impl WireFormat for ConfigLpParams {
    open spec fn spec_encode(&self) -> Seq<u8> {
        (self.min_fee, (self.max_fee, (self.liquidity_target, self.treasury_cut))).spec_encode()
    }

    closed spec fn spec_parse(s: Seq<u8>) -> Result<(ConfigLpParams, nat), DecodeError> {
        match <ConfigLpParamsFields as WireFormat>::spec_parse(s) {
            Ok(((min_fee, (max_fee, (liquidity_target, treasury_cut))), n)) => Ok((ConfigLpParams {
                min_fee,
                max_fee,
                liquidity_target,
                treasury_cut,
            }, n)),
            Err(e) => Err(e),
        }
    }

    proof fn lemma_parse_encode(&self, rest: Seq<u8>) {
        (self.min_fee,
            (self.max_fee,
                (self.liquidity_target,
                    self.treasury_cut))).lemma_parse_encode(rest);
    }

    fn encode(&self, out: &mut Vec<u8>) {
        (self.min_fee, (self.max_fee, (self.liquidity_target, self.treasury_cut))).encode(out);
    }

    fn decode(buf: &[u8], pos: usize) -> (r: Result<(ConfigLpParams, usize), DecodeError>) {
        match <ConfigLpParamsFields as WireFormat>::decode(buf, pos) {
            Ok(((min_fee, (max_fee, (liquidity_target, treasury_cut))), end)) =>
                Ok((ConfigLpParams { min_fee, max_fee, liquidity_target, treasury_cut }, end)),
            Err(e) => Err(e),
        }
    }
}

/// New program settings; a field left `None` keeps the current value.
#[derive(Clone, Copy, Debug, PartialEq, Eq)]
pub struct ConfigMarinadeParams {
    pub rewards_fee: Option<Fee>,
    pub slots_for_stake_delta: Option<u64>,
    pub min_stake: Option<u64>,
    pub min_deposit: Option<u64>,
    pub min_withdraw: Option<u64>,
    pub staking_sol_cap: Option<u64>,
    pub liquidity_sol_cap: Option<u64>,
    pub withdraw_stake_account_enabled: Option<bool>,
    pub delayed_unstake_fee: Option<FeeCents>,
    pub withdraw_stake_account_fee: Option<FeeCents>,
    pub max_stake_moved_per_epoch: Option<Fee>,
}

/// The fields of a `ConfigMarinadeParams`, in declared order, as nested pairs.
type ConfigMarinadeParamsFields =
    (Option<Fee>,
        (Option<u64>,
            (Option<u64>,
                (Option<u64>,
                    (Option<u64>,
                        (Option<u64>,
                            (Option<u64>,
                                (Option<bool>,
                                    (Option<FeeCents>,
                                        (Option<FeeCents>,
                                            Option<Fee>))))))))));

/// Laid out as its fields in declared order.
impl WireFormat for ConfigMarinadeParams {
    open spec fn spec_encode(&self) -> Seq<u8> {
        (self.rewards_fee,
            (self.slots_for_stake_delta,
                (self.min_stake,
                    (self.min_deposit,
                        (self.min_withdraw,
                            (self.staking_sol_cap,
                                (self.liquidity_sol_cap,
                                    (self.withdraw_stake_account_enabled,
                                        (self.delayed_unstake_fee,
                                            (self.withdraw_stake_account_fee,
                                                self.max_stake_moved_per_epoch)))))))))).spec_encode()
    }

    closed spec fn spec_parse(s: Seq<u8>) -> Result<(ConfigMarinadeParams, nat), DecodeError> {
        match <ConfigMarinadeParamsFields as WireFormat>::spec_parse(s) {
            Ok(((rewards_fee,
                (slots_for_stake_delta,
                    (min_stake,
                        (min_deposit,
                            (min_withdraw,
                                (staking_sol_cap,
                                    (liquidity_sol_cap,
                                        (withdraw_stake_account_enabled,
                                            (delayed_unstake_fee,
                                                (withdraw_stake_account_fee,
                                                    max_stake_moved_per_epoch)))))))))), n)) =>
                Ok((ConfigMarinadeParams {
                    rewards_fee,
                    slots_for_stake_delta,
                    min_stake,
                    min_deposit,
                    min_withdraw,
                    staking_sol_cap,
                    liquidity_sol_cap,
                    withdraw_stake_account_enabled,
                    delayed_unstake_fee,
                    withdraw_stake_account_fee,
                    max_stake_moved_per_epoch,
                }, n)),
            Err(e) => Err(e),
        }
    }

    proof fn lemma_parse_encode(&self, rest: Seq<u8>) {
        (self.rewards_fee,
            (self.slots_for_stake_delta,
                (self.min_stake,
                    (self.min_deposit,
                        (self.min_withdraw,
                            (self.staking_sol_cap,
                                (self.liquidity_sol_cap,
                                    (self.withdraw_stake_account_enabled,
                                        (self.delayed_unstake_fee,
                                            (self.withdraw_stake_account_fee,
                                                self.max_stake_moved_per_epoch)))))))))).lemma_parse_encode(rest);
    }

    fn encode(&self, out: &mut Vec<u8>) {
        (self.rewards_fee,
            (self.slots_for_stake_delta,
                (self.min_stake,
                    (self.min_deposit,
                        (self.min_withdraw,
                            (self.staking_sol_cap,
                                (self.liquidity_sol_cap,
                                    (self.withdraw_stake_account_enabled,
                                        (self.delayed_unstake_fee,
                                            (self.withdraw_stake_account_fee,
                                                self.max_stake_moved_per_epoch)))))))))).encode(out);
    }

    fn decode(buf: &[u8], pos: usize) -> (r: Result<(ConfigMarinadeParams, usize), DecodeError>) {
        match <ConfigMarinadeParamsFields as WireFormat>::decode(buf, pos) {
            Ok(((rewards_fee,
                (slots_for_stake_delta,
                    (min_stake,
                        (min_deposit,
                            (min_withdraw,
                                (staking_sol_cap,
                                    (liquidity_sol_cap,
                                        (withdraw_stake_account_enabled,
                                            (delayed_unstake_fee,
                                                (withdraw_stake_account_fee,
                                                    max_stake_moved_per_epoch)))))))))), end)) =>
                Ok((ConfigMarinadeParams {
                    rewards_fee,
                    slots_for_stake_delta,
                    min_stake,
                    min_deposit,
                    min_withdraw,
                    staking_sol_cap,
                    liquidity_sol_cap,
                    withdraw_stake_account_enabled,
                    delayed_unstake_fee,
                    withdraw_stake_account_fee,
                    max_stake_moved_per_epoch,
                }, end)),
            Err(e) => Err(e),
        }
    }
}

} // verus!

use marinade_finance_interface::codec::{DecodeError, Pubkey};
use marinade_finance_interface::instructions::{
    AddLiquidityIxArgs, AddValidatorIxArgs, ChangeAuthorityIxArgs, ConfigLpIxArgs,
    ConfigMarinadeIxArgs, ConfigValidatorSystemIxArgs, DeactivateStakeIxArgs, DepositIxArgs,
    DepositStakeAccountIxArgs, EmergencyUnstakeIxArgs, InitializeIxArgs, LiquidUnstakeIxArgs,
    MergeStakesIxArgs, OrderUnstakeIxArgs, PartialUnstakeIxArgs, ReallocStakeListIxArgs,
    ReallocValidatorListIxArgs, RedelegateIxArgs, RemoveLiquidityIxArgs, RemoveValidatorIxArgs,
    SetValidatorScoreIxArgs, StakeReserveIxArgs, UpdateActiveIxArgs, UpdateDeactivatedIxArgs,
    WithdrawStakeAccountIxArgs,
};
use marinade_finance_interface::program::{lookup, InstructionKind, MarinadeFinanceProgramIx};
use marinade_finance_interface::typedefs::{
    ChangeAuthorityData, ConfigLpParams, ConfigMarinadeParams, Fee, FeeCents, InitializeData,
    LiqPoolInitializeData,
};

fn key(b: u8) -> Pubkey {
    Pubkey([b; 32])
}

fn initialize_data() -> InitializeData {
    InitializeData {
        admin_authority: key(1),
        validator_manager_authority: key(2),
        min_stake: 1,
        rewards_fee: Fee { basis_points: 200 },
        liq_pool: LiqPoolInitializeData {
            lp_liquidity_target: u64::MAX,
            lp_max_fee: Fee { basis_points: 300 },
            lp_min_fee: Fee { basis_points: 0 },
            lp_treasury_cut: Fee { basis_points: u32::MAX },
        },
        additional_stake_record_space: 8,
        additional_validator_record_space: 16,
        slots_for_stake_delta: 0,
        pause_authority: key(3),
    }
}

fn change_authority_data() -> ChangeAuthorityData {
    ChangeAuthorityData {
        admin: None,
        validator_manager: Some(key(5)),
        operational_sol_account: None,
        treasury_msol_account: None,
        pause_authority: Some(key(0)),
    }
}

fn config_lp_params() -> ConfigLpParams {
    ConfigLpParams {
        min_fee: Some(Fee { basis_points: 1 }),
        max_fee: None,
        liquidity_target: Some(0),
        treasury_cut: None,
    }
}

fn config_marinade_params() -> ConfigMarinadeParams {
    ConfigMarinadeParams {
        rewards_fee: None,
        slots_for_stake_delta: Some(u64::MAX),
        min_stake: None,
        min_deposit: Some(1),
        min_withdraw: None,
        staking_sol_cap: Some(2),
        liquidity_sol_cap: None,
        withdraw_stake_account_enabled: Some(false),
        delayed_unstake_fee: Some(FeeCents { bp_cents: u32::MAX }),
        withdraw_stake_account_fee: Some(FeeCents { bp_cents: 0 }),
        max_stake_moved_per_epoch: None,
    }
}

fn one_of_each() -> Vec<MarinadeFinanceProgramIx> {
    vec![
        MarinadeFinanceProgramIx::Initialize(InitializeIxArgs { data: initialize_data() }),
        MarinadeFinanceProgramIx::ChangeAuthority(ChangeAuthorityIxArgs { data: change_authority_data() }),
        MarinadeFinanceProgramIx::AddValidator(AddValidatorIxArgs { score: u32::MAX }),
        MarinadeFinanceProgramIx::RemoveValidator(RemoveValidatorIxArgs { index: u32::MAX, validator_vote: key(9) }),
        MarinadeFinanceProgramIx::SetValidatorScore(SetValidatorScoreIxArgs { index: u32::MAX, validator_vote: key(9), score: 17 }),
        MarinadeFinanceProgramIx::ConfigValidatorSystem(ConfigValidatorSystemIxArgs { extra_runs: u32::MAX }),
        MarinadeFinanceProgramIx::Deposit(DepositIxArgs { lamports: u64::MAX }),
        MarinadeFinanceProgramIx::DepositStakeAccount(DepositStakeAccountIxArgs { validator_index: u32::MAX }),
        MarinadeFinanceProgramIx::LiquidUnstake(LiquidUnstakeIxArgs { msol_amount: u64::MAX }),
        MarinadeFinanceProgramIx::AddLiquidity(AddLiquidityIxArgs { lamports: u64::MAX }),
        MarinadeFinanceProgramIx::RemoveLiquidity(RemoveLiquidityIxArgs { tokens: u64::MAX }),
        MarinadeFinanceProgramIx::ConfigLp(ConfigLpIxArgs { params: config_lp_params() }),
        MarinadeFinanceProgramIx::ConfigMarinade(ConfigMarinadeIxArgs { params: config_marinade_params() }),
        MarinadeFinanceProgramIx::OrderUnstake(OrderUnstakeIxArgs { msol_amount: u64::MAX }),
        MarinadeFinanceProgramIx::Claim,
        MarinadeFinanceProgramIx::StakeReserve(StakeReserveIxArgs { validator_index: u32::MAX }),
        MarinadeFinanceProgramIx::UpdateActive(UpdateActiveIxArgs { stake_index: u32::MAX, validator_index: 0 }),
        MarinadeFinanceProgramIx::UpdateDeactivated(UpdateDeactivatedIxArgs { stake_index: u32::MAX }),
        MarinadeFinanceProgramIx::DeactivateStake(DeactivateStakeIxArgs { stake_index: u32::MAX, validator_index: 0 }),
        MarinadeFinanceProgramIx::EmergencyUnstake(EmergencyUnstakeIxArgs { stake_index: u32::MAX, validator_index: 0 }),
        MarinadeFinanceProgramIx::PartialUnstake(PartialUnstakeIxArgs { stake_index: u32::MAX, validator_index: 0, desired_unstake_amount: 1_000_000_000 }),
        MarinadeFinanceProgramIx::MergeStakes(MergeStakesIxArgs { destination_stake_index: u32::MAX, source_stake_index: 0, validator_index: 17 }),
        MarinadeFinanceProgramIx::Redelegate(RedelegateIxArgs { stake_index: u32::MAX, source_validator_index: 0, dest_validator_index: 17 }),
        MarinadeFinanceProgramIx::Pause,
        MarinadeFinanceProgramIx::Resume,
        MarinadeFinanceProgramIx::WithdrawStakeAccount(WithdrawStakeAccountIxArgs { stake_index: u32::MAX, validator_index: 0, msol_amount: 1_000_000_000, beneficiary: key(9) }),
        MarinadeFinanceProgramIx::ReallocValidatorList(ReallocValidatorListIxArgs { capacity: u32::MAX }),
        MarinadeFinanceProgramIx::ReallocStakeList(ReallocStakeListIxArgs { capacity: u32::MAX }),
    ]
}

fn all_kinds() -> Vec<InstructionKind> {
    vec![
        InstructionKind::Initialize,
        InstructionKind::ChangeAuthority,
        InstructionKind::AddValidator,
        InstructionKind::RemoveValidator,
        InstructionKind::SetValidatorScore,
        InstructionKind::ConfigValidatorSystem,
        InstructionKind::Deposit,
        InstructionKind::DepositStakeAccount,
        InstructionKind::LiquidUnstake,
        InstructionKind::AddLiquidity,
        InstructionKind::RemoveLiquidity,
        InstructionKind::ConfigLp,
        InstructionKind::ConfigMarinade,
        InstructionKind::OrderUnstake,
        InstructionKind::Claim,
        InstructionKind::StakeReserve,
        InstructionKind::UpdateActive,
        InstructionKind::UpdateDeactivated,
        InstructionKind::DeactivateStake,
        InstructionKind::EmergencyUnstake,
        InstructionKind::PartialUnstake,
        InstructionKind::MergeStakes,
        InstructionKind::Redelegate,
        InstructionKind::Pause,
        InstructionKind::Resume,
        InstructionKind::WithdrawStakeAccount,
        InstructionKind::ReallocValidatorList,
        InstructionKind::ReallocStakeList,
    ]
}

#[test]
fn every_instruction_round_trips() {
    let all = one_of_each();
    assert_eq!(all.len(), 28);
    for ix in all {
        let bytes = ix.try_to_vec();
        assert_eq!(MarinadeFinanceProgramIx::deserialize(&bytes), Ok(ix));
        let mut longer = bytes.clone();
        longer.extend_from_slice(&[0xff, 0xee]);
        assert_eq!(MarinadeFinanceProgramIx::deserialize(&longer), Ok(ix));
    }
}

#[test]
fn distinct_instructions_give_distinct_bytes() {
    let all = one_of_each();
    for (i, a) in all.iter().enumerate() {
        for (j, b) in all.iter().enumerate() {
            assert_eq!(i == j, a.try_to_vec() == b.try_to_vec());
        }
    }
}

#[test]
fn discriminants_are_unique() {
    let kinds = all_kinds();
    for (i, a) in kinds.iter().enumerate() {
        for (j, b) in kinds.iter().enumerate() {
            assert_eq!(i == j, a.discm() == b.discm());
        }
    }
}

#[test]
fn lookup_inverts_discm() {
    for k in all_kinds() {
        assert_eq!(lookup(&k.discm()), Some(k));
    }
    assert_eq!(lookup(&[0u8; 8]), None);
    assert_eq!(lookup(&[211, 22, 221, 251, 74, 121, 193, 47]), Some(InstructionKind::Pause));
    assert_eq!(lookup(&[211, 22, 221, 251, 74, 121, 193, 46]), None);
}

#[test]
fn serialized_data_starts_with_kind_discm() {
    for (ix, k) in one_of_each().into_iter().zip(all_kinds()) {
        assert_eq!(&ix.try_to_vec()[..8], &k.discm());
    }
}

#[test]
fn unknown_discriminant_is_reported() {
    let buf = [1u8, 2, 3, 4, 5, 6, 7, 8, 9];
    assert_eq!(
        MarinadeFinanceProgramIx::deserialize(&buf),
        Err(DecodeError::UnknownDiscriminant { actual: [1, 2, 3, 4, 5, 6, 7, 8] })
    );
}

#[test]
fn short_instruction_data_is_truncated() {
    assert_eq!(MarinadeFinanceProgramIx::deserialize(&[211, 22, 221]), Err(DecodeError::TruncatedInput));
    let bytes = MarinadeFinanceProgramIx::Deposit(DepositIxArgs { lamports: 3 }).try_to_vec();
    assert_eq!(MarinadeFinanceProgramIx::deserialize(&bytes[..12]), Err(DecodeError::TruncatedInput));
}

#[test]
fn claim_pause_resume_carry_no_arguments() {
    assert_eq!(MarinadeFinanceProgramIx::Claim.try_to_vec(), vec![62, 198, 214, 193, 213, 159, 108, 210]);
    assert_eq!(MarinadeFinanceProgramIx::Pause.try_to_vec(), vec![211, 22, 221, 251, 74, 121, 193, 47]);
    assert_eq!(MarinadeFinanceProgramIx::Resume.try_to_vec(), vec![1, 166, 51, 170, 127, 32, 141, 206]);
    assert_eq!(
        MarinadeFinanceProgramIx::deserialize(&[1, 166, 51, 170, 127, 32, 141, 206]),
        Ok(MarinadeFinanceProgramIx::Resume)
    );
}

#[test]
fn deposit_through_program_enum() {
    let bytes = MarinadeFinanceProgramIx::Deposit(DepositIxArgs { lamports: 1_000_000_000 }).try_to_vec();
    assert_eq!(bytes, vec![242, 35, 198, 137, 82, 225, 242, 182, 0, 202, 154, 59, 0, 0, 0, 0]);
}

//! The instruction set as a whole: the kinds, their discriminants, and the
//! instruction of any kind with its arguments.

use vstd::prelude::*;
use crate::codec::{
    array8, discm_eq, lemma_concat_take_skip, read_discm, write_tagged, DecodeError, WireFormat,
};
use crate::instructions::{
    INITIALIZE_IX_DISCM, InitializeIxArgs, CHANGE_AUTHORITY_IX_DISCM, ChangeAuthorityIxArgs,
    ADD_VALIDATOR_IX_DISCM, AddValidatorIxArgs, REMOVE_VALIDATOR_IX_DISCM, RemoveValidatorIxArgs,
    SET_VALIDATOR_SCORE_IX_DISCM, SetValidatorScoreIxArgs, CONFIG_VALIDATOR_SYSTEM_IX_DISCM,
    ConfigValidatorSystemIxArgs, DEPOSIT_IX_DISCM, DepositIxArgs, DEPOSIT_STAKE_ACCOUNT_IX_DISCM,
    DepositStakeAccountIxArgs, LIQUID_UNSTAKE_IX_DISCM, LiquidUnstakeIxArgs, ADD_LIQUIDITY_IX_DISCM,
    AddLiquidityIxArgs, REMOVE_LIQUIDITY_IX_DISCM, RemoveLiquidityIxArgs, CONFIG_LP_IX_DISCM,
    ConfigLpIxArgs, CONFIG_MARINADE_IX_DISCM, ConfigMarinadeIxArgs, ORDER_UNSTAKE_IX_DISCM,
    OrderUnstakeIxArgs, CLAIM_IX_DISCM, STAKE_RESERVE_IX_DISCM, StakeReserveIxArgs,
    UPDATE_ACTIVE_IX_DISCM, UpdateActiveIxArgs, UPDATE_DEACTIVATED_IX_DISCM,
    UpdateDeactivatedIxArgs, DEACTIVATE_STAKE_IX_DISCM, DeactivateStakeIxArgs,
    EMERGENCY_UNSTAKE_IX_DISCM, EmergencyUnstakeIxArgs, PARTIAL_UNSTAKE_IX_DISCM,
    PartialUnstakeIxArgs, MERGE_STAKES_IX_DISCM, MergeStakesIxArgs, REDELEGATE_IX_DISCM,
    RedelegateIxArgs, PAUSE_IX_DISCM, RESUME_IX_DISCM, WITHDRAW_STAKE_ACCOUNT_IX_DISCM,
    WithdrawStakeAccountIxArgs, REALLOC_VALIDATOR_LIST_IX_DISCM, ReallocValidatorListIxArgs,
    REALLOC_STAKE_LIST_IX_DISCM, ReallocStakeListIxArgs,
};

verus! {

/// The address of the liquid-staking program, as its 32 raw bytes.
pub const ID_BYTES: [u8; 32] = [
    5, 69, 227, 101, 190, 242, 113, 173, 117, 53, 3, 103, 86, 93, 164, 13, 163, 54, 220, 28, 135,
    155, 177, 84, 138, 122, 252, 197, 90, 169, 57, 30,
];

/// The instructions of the program.
#[derive(Clone, Copy, Debug, PartialEq, Eq, Structural)]
pub enum InstructionKind {
    Initialize,
    ChangeAuthority,
    AddValidator,
    RemoveValidator,
    SetValidatorScore,
    ConfigValidatorSystem,
    Deposit,
    DepositStakeAccount,
    LiquidUnstake,
    AddLiquidity,
    RemoveLiquidity,
    ConfigLp,
    ConfigMarinade,
    OrderUnstake,
    Claim,
    StakeReserve,
    UpdateActive,
    UpdateDeactivated,
    DeactivateStake,
    EmergencyUnstake,
    PartialUnstake,
    MergeStakes,
    Redelegate,
    Pause,
    Resume,
    WithdrawStakeAccount,
    ReallocValidatorList,
    ReallocStakeList,
}

impl InstructionKind {
    /// The discriminant that the data of an instruction of this kind starts with.
    pub open spec fn spec_discm(self) -> [u8; 8] {
        match self {
            InstructionKind::Initialize => INITIALIZE_IX_DISCM,
            InstructionKind::ChangeAuthority => CHANGE_AUTHORITY_IX_DISCM,
            InstructionKind::AddValidator => ADD_VALIDATOR_IX_DISCM,
            InstructionKind::RemoveValidator => REMOVE_VALIDATOR_IX_DISCM,
            InstructionKind::SetValidatorScore => SET_VALIDATOR_SCORE_IX_DISCM,
            InstructionKind::ConfigValidatorSystem => CONFIG_VALIDATOR_SYSTEM_IX_DISCM,
            InstructionKind::Deposit => DEPOSIT_IX_DISCM,
            InstructionKind::DepositStakeAccount => DEPOSIT_STAKE_ACCOUNT_IX_DISCM,
            InstructionKind::LiquidUnstake => LIQUID_UNSTAKE_IX_DISCM,
            InstructionKind::AddLiquidity => ADD_LIQUIDITY_IX_DISCM,
            InstructionKind::RemoveLiquidity => REMOVE_LIQUIDITY_IX_DISCM,
            InstructionKind::ConfigLp => CONFIG_LP_IX_DISCM,
            InstructionKind::ConfigMarinade => CONFIG_MARINADE_IX_DISCM,
            InstructionKind::OrderUnstake => ORDER_UNSTAKE_IX_DISCM,
            InstructionKind::Claim => CLAIM_IX_DISCM,
            InstructionKind::StakeReserve => STAKE_RESERVE_IX_DISCM,
            InstructionKind::UpdateActive => UPDATE_ACTIVE_IX_DISCM,
            InstructionKind::UpdateDeactivated => UPDATE_DEACTIVATED_IX_DISCM,
            InstructionKind::DeactivateStake => DEACTIVATE_STAKE_IX_DISCM,
            InstructionKind::EmergencyUnstake => EMERGENCY_UNSTAKE_IX_DISCM,
            InstructionKind::PartialUnstake => PARTIAL_UNSTAKE_IX_DISCM,
            InstructionKind::MergeStakes => MERGE_STAKES_IX_DISCM,
            InstructionKind::Redelegate => REDELEGATE_IX_DISCM,
            InstructionKind::Pause => PAUSE_IX_DISCM,
            InstructionKind::Resume => RESUME_IX_DISCM,
            InstructionKind::WithdrawStakeAccount => WITHDRAW_STAKE_ACCOUNT_IX_DISCM,
            InstructionKind::ReallocValidatorList => REALLOC_VALIDATOR_LIST_IX_DISCM,
            InstructionKind::ReallocStakeList => REALLOC_STAKE_LIST_IX_DISCM,
        }
    }

    /// The discriminant that the data of an instruction of this kind starts with.
    pub fn discm(self) -> (r: [u8; 8])
        ensures
            r == self.spec_discm(),
    {
        match self {
            InstructionKind::Initialize => INITIALIZE_IX_DISCM,
            InstructionKind::ChangeAuthority => CHANGE_AUTHORITY_IX_DISCM,
            InstructionKind::AddValidator => ADD_VALIDATOR_IX_DISCM,
            InstructionKind::RemoveValidator => REMOVE_VALIDATOR_IX_DISCM,
            InstructionKind::SetValidatorScore => SET_VALIDATOR_SCORE_IX_DISCM,
            InstructionKind::ConfigValidatorSystem => CONFIG_VALIDATOR_SYSTEM_IX_DISCM,
            InstructionKind::Deposit => DEPOSIT_IX_DISCM,
            InstructionKind::DepositStakeAccount => DEPOSIT_STAKE_ACCOUNT_IX_DISCM,
            InstructionKind::LiquidUnstake => LIQUID_UNSTAKE_IX_DISCM,
            InstructionKind::AddLiquidity => ADD_LIQUIDITY_IX_DISCM,
            InstructionKind::RemoveLiquidity => REMOVE_LIQUIDITY_IX_DISCM,
            InstructionKind::ConfigLp => CONFIG_LP_IX_DISCM,
            InstructionKind::ConfigMarinade => CONFIG_MARINADE_IX_DISCM,
            InstructionKind::OrderUnstake => ORDER_UNSTAKE_IX_DISCM,
            InstructionKind::Claim => CLAIM_IX_DISCM,
            InstructionKind::StakeReserve => STAKE_RESERVE_IX_DISCM,
            InstructionKind::UpdateActive => UPDATE_ACTIVE_IX_DISCM,
            InstructionKind::UpdateDeactivated => UPDATE_DEACTIVATED_IX_DISCM,
            InstructionKind::DeactivateStake => DEACTIVATE_STAKE_IX_DISCM,
            InstructionKind::EmergencyUnstake => EMERGENCY_UNSTAKE_IX_DISCM,
            InstructionKind::PartialUnstake => PARTIAL_UNSTAKE_IX_DISCM,
            InstructionKind::MergeStakes => MERGE_STAKES_IX_DISCM,
            InstructionKind::Redelegate => REDELEGATE_IX_DISCM,
            InstructionKind::Pause => PAUSE_IX_DISCM,
            InstructionKind::Resume => RESUME_IX_DISCM,
            InstructionKind::WithdrawStakeAccount => WITHDRAW_STAKE_ACCOUNT_IX_DISCM,
            InstructionKind::ReallocValidatorList => REALLOC_VALIDATOR_LIST_IX_DISCM,
            InstructionKind::ReallocStakeList => REALLOC_STAKE_LIST_IX_DISCM,
        }
    }
}

/// The kind whose discriminant is `tag`, if any.
pub open spec fn spec_lookup(tag: Seq<u8>) -> Option<InstructionKind> {
    if tag == INITIALIZE_IX_DISCM@ {
        Some(InstructionKind::Initialize)
    } else if tag == CHANGE_AUTHORITY_IX_DISCM@ {
        Some(InstructionKind::ChangeAuthority)
    } else if tag == ADD_VALIDATOR_IX_DISCM@ {
        Some(InstructionKind::AddValidator)
    } else if tag == REMOVE_VALIDATOR_IX_DISCM@ {
        Some(InstructionKind::RemoveValidator)
    } else if tag == SET_VALIDATOR_SCORE_IX_DISCM@ {
        Some(InstructionKind::SetValidatorScore)
    } else if tag == CONFIG_VALIDATOR_SYSTEM_IX_DISCM@ {
        Some(InstructionKind::ConfigValidatorSystem)
    } else if tag == DEPOSIT_IX_DISCM@ {
        Some(InstructionKind::Deposit)
    } else if tag == DEPOSIT_STAKE_ACCOUNT_IX_DISCM@ {
        Some(InstructionKind::DepositStakeAccount)
    } else if tag == LIQUID_UNSTAKE_IX_DISCM@ {
        Some(InstructionKind::LiquidUnstake)
    } else if tag == ADD_LIQUIDITY_IX_DISCM@ {
        Some(InstructionKind::AddLiquidity)
    } else if tag == REMOVE_LIQUIDITY_IX_DISCM@ {
        Some(InstructionKind::RemoveLiquidity)
    } else if tag == CONFIG_LP_IX_DISCM@ {
        Some(InstructionKind::ConfigLp)
    } else if tag == CONFIG_MARINADE_IX_DISCM@ {
        Some(InstructionKind::ConfigMarinade)
    } else if tag == ORDER_UNSTAKE_IX_DISCM@ {
        Some(InstructionKind::OrderUnstake)
    } else if tag == CLAIM_IX_DISCM@ {
        Some(InstructionKind::Claim)
    } else if tag == STAKE_RESERVE_IX_DISCM@ {
        Some(InstructionKind::StakeReserve)
    } else if tag == UPDATE_ACTIVE_IX_DISCM@ {
        Some(InstructionKind::UpdateActive)
    } else if tag == UPDATE_DEACTIVATED_IX_DISCM@ {
        Some(InstructionKind::UpdateDeactivated)
    } else if tag == DEACTIVATE_STAKE_IX_DISCM@ {
        Some(InstructionKind::DeactivateStake)
    } else if tag == EMERGENCY_UNSTAKE_IX_DISCM@ {
        Some(InstructionKind::EmergencyUnstake)
    } else if tag == PARTIAL_UNSTAKE_IX_DISCM@ {
        Some(InstructionKind::PartialUnstake)
    } else if tag == MERGE_STAKES_IX_DISCM@ {
        Some(InstructionKind::MergeStakes)
    } else if tag == REDELEGATE_IX_DISCM@ {
        Some(InstructionKind::Redelegate)
    } else if tag == PAUSE_IX_DISCM@ {
        Some(InstructionKind::Pause)
    } else if tag == RESUME_IX_DISCM@ {
        Some(InstructionKind::Resume)
    } else if tag == WITHDRAW_STAKE_ACCOUNT_IX_DISCM@ {
        Some(InstructionKind::WithdrawStakeAccount)
    } else if tag == REALLOC_VALIDATOR_LIST_IX_DISCM@ {
        Some(InstructionKind::ReallocValidatorList)
    } else if tag == REALLOC_STAKE_LIST_IX_DISCM@ {
        Some(InstructionKind::ReallocStakeList)
    } else {
        None
    }
}

/// The kind whose discriminant is `tag`, if any.
pub fn lookup(tag: &[u8; 8]) -> (r: Option<InstructionKind>)
    ensures
        r == spec_lookup(tag@),
{
    if discm_eq(tag, &INITIALIZE_IX_DISCM) {
        Some(InstructionKind::Initialize)
    } else if discm_eq(tag, &CHANGE_AUTHORITY_IX_DISCM) {
        Some(InstructionKind::ChangeAuthority)
    } else if discm_eq(tag, &ADD_VALIDATOR_IX_DISCM) {
        Some(InstructionKind::AddValidator)
    } else if discm_eq(tag, &REMOVE_VALIDATOR_IX_DISCM) {
        Some(InstructionKind::RemoveValidator)
    } else if discm_eq(tag, &SET_VALIDATOR_SCORE_IX_DISCM) {
        Some(InstructionKind::SetValidatorScore)
    } else if discm_eq(tag, &CONFIG_VALIDATOR_SYSTEM_IX_DISCM) {
        Some(InstructionKind::ConfigValidatorSystem)
    } else if discm_eq(tag, &DEPOSIT_IX_DISCM) {
        Some(InstructionKind::Deposit)
    } else if discm_eq(tag, &DEPOSIT_STAKE_ACCOUNT_IX_DISCM) {
        Some(InstructionKind::DepositStakeAccount)
    } else if discm_eq(tag, &LIQUID_UNSTAKE_IX_DISCM) {
        Some(InstructionKind::LiquidUnstake)
    } else if discm_eq(tag, &ADD_LIQUIDITY_IX_DISCM) {
        Some(InstructionKind::AddLiquidity)
    } else if discm_eq(tag, &REMOVE_LIQUIDITY_IX_DISCM) {
        Some(InstructionKind::RemoveLiquidity)
    } else if discm_eq(tag, &CONFIG_LP_IX_DISCM) {
        Some(InstructionKind::ConfigLp)
    } else if discm_eq(tag, &CONFIG_MARINADE_IX_DISCM) {
        Some(InstructionKind::ConfigMarinade)
    } else if discm_eq(tag, &ORDER_UNSTAKE_IX_DISCM) {
        Some(InstructionKind::OrderUnstake)
    } else if discm_eq(tag, &CLAIM_IX_DISCM) {
        Some(InstructionKind::Claim)
    } else if discm_eq(tag, &STAKE_RESERVE_IX_DISCM) {
        Some(InstructionKind::StakeReserve)
    } else if discm_eq(tag, &UPDATE_ACTIVE_IX_DISCM) {
        Some(InstructionKind::UpdateActive)
    } else if discm_eq(tag, &UPDATE_DEACTIVATED_IX_DISCM) {
        Some(InstructionKind::UpdateDeactivated)
    } else if discm_eq(tag, &DEACTIVATE_STAKE_IX_DISCM) {
        Some(InstructionKind::DeactivateStake)
    } else if discm_eq(tag, &EMERGENCY_UNSTAKE_IX_DISCM) {
        Some(InstructionKind::EmergencyUnstake)
    } else if discm_eq(tag, &PARTIAL_UNSTAKE_IX_DISCM) {
        Some(InstructionKind::PartialUnstake)
    } else if discm_eq(tag, &MERGE_STAKES_IX_DISCM) {
        Some(InstructionKind::MergeStakes)
    } else if discm_eq(tag, &REDELEGATE_IX_DISCM) {
        Some(InstructionKind::Redelegate)
    } else if discm_eq(tag, &PAUSE_IX_DISCM) {
        Some(InstructionKind::Pause)
    } else if discm_eq(tag, &RESUME_IX_DISCM) {
        Some(InstructionKind::Resume)
    } else if discm_eq(tag, &WITHDRAW_STAKE_ACCOUNT_IX_DISCM) {
        Some(InstructionKind::WithdrawStakeAccount)
    } else if discm_eq(tag, &REALLOC_VALIDATOR_LIST_IX_DISCM) {
        Some(InstructionKind::ReallocValidatorList)
    } else if discm_eq(tag, &REALLOC_STAKE_LIST_IX_DISCM) {
        Some(InstructionKind::ReallocStakeList)
    } else {
        None
    }
}

/// No two kinds share a discriminant.
pub proof fn lemma_discms_distinct(k1: InstructionKind, k2: InstructionKind)
    ensures
        k1.spec_discm()@ == k2.spec_discm()@ ==> k1 == k2,
{
    if k1 != k2 {
        assert(k1.spec_discm()@[0] != k2.spec_discm()@[0] || k1.spec_discm()@[1]
            != k2.spec_discm()@[1]);
    }
}

/// Looking up the discriminant of a kind gives that kind, and a lookup that
/// succeeds gives the kind whose discriminant was looked up.
pub proof fn lemma_lookup_inverse(k: InstructionKind, tag: Seq<u8>)
    ensures
        spec_lookup(k.spec_discm()@) == Some(k),
        spec_lookup(tag) matches Some(j) ==> j.spec_discm()@ == tag,
{
    assert forall|j: InstructionKind| j.spec_discm()@ == k.spec_discm()@ implies j == k by {
        lemma_discms_distinct(j, k);
    }
}

/// An instruction of the program with its arguments.
#[derive(Clone, Copy, Debug, PartialEq, Eq)]
pub enum MarinadeFinanceProgramIx {
    Initialize(InitializeIxArgs),
    ChangeAuthority(ChangeAuthorityIxArgs),
    AddValidator(AddValidatorIxArgs),
    RemoveValidator(RemoveValidatorIxArgs),
    SetValidatorScore(SetValidatorScoreIxArgs),
    ConfigValidatorSystem(ConfigValidatorSystemIxArgs),
    Deposit(DepositIxArgs),
    DepositStakeAccount(DepositStakeAccountIxArgs),
    LiquidUnstake(LiquidUnstakeIxArgs),
    AddLiquidity(AddLiquidityIxArgs),
    RemoveLiquidity(RemoveLiquidityIxArgs),
    ConfigLp(ConfigLpIxArgs),
    ConfigMarinade(ConfigMarinadeIxArgs),
    OrderUnstake(OrderUnstakeIxArgs),
    Claim,
    StakeReserve(StakeReserveIxArgs),
    UpdateActive(UpdateActiveIxArgs),
    UpdateDeactivated(UpdateDeactivatedIxArgs),
    DeactivateStake(DeactivateStakeIxArgs),
    EmergencyUnstake(EmergencyUnstakeIxArgs),
    PartialUnstake(PartialUnstakeIxArgs),
    MergeStakes(MergeStakesIxArgs),
    Redelegate(RedelegateIxArgs),
    Pause,
    Resume,
    WithdrawStakeAccount(WithdrawStakeAccountIxArgs),
    ReallocValidatorList(ReallocValidatorListIxArgs),
    ReallocStakeList(ReallocStakeListIxArgs),
}

impl MarinadeFinanceProgramIx {
    /// The kind of this instruction.
    pub open spec fn spec_kind(self) -> InstructionKind {
        match self {
            MarinadeFinanceProgramIx::Initialize(_) => InstructionKind::Initialize,
            MarinadeFinanceProgramIx::ChangeAuthority(_) => InstructionKind::ChangeAuthority,
            MarinadeFinanceProgramIx::AddValidator(_) => InstructionKind::AddValidator,
            MarinadeFinanceProgramIx::RemoveValidator(_) => InstructionKind::RemoveValidator,
            MarinadeFinanceProgramIx::SetValidatorScore(_) => InstructionKind::SetValidatorScore,
            MarinadeFinanceProgramIx::ConfigValidatorSystem(_) =>
                InstructionKind::ConfigValidatorSystem,
            MarinadeFinanceProgramIx::Deposit(_) => InstructionKind::Deposit,
            MarinadeFinanceProgramIx::DepositStakeAccount(_) =>
                InstructionKind::DepositStakeAccount,
            MarinadeFinanceProgramIx::LiquidUnstake(_) => InstructionKind::LiquidUnstake,
            MarinadeFinanceProgramIx::AddLiquidity(_) => InstructionKind::AddLiquidity,
            MarinadeFinanceProgramIx::RemoveLiquidity(_) => InstructionKind::RemoveLiquidity,
            MarinadeFinanceProgramIx::ConfigLp(_) => InstructionKind::ConfigLp,
            MarinadeFinanceProgramIx::ConfigMarinade(_) => InstructionKind::ConfigMarinade,
            MarinadeFinanceProgramIx::OrderUnstake(_) => InstructionKind::OrderUnstake,
            MarinadeFinanceProgramIx::Claim => InstructionKind::Claim,
            MarinadeFinanceProgramIx::StakeReserve(_) => InstructionKind::StakeReserve,
            MarinadeFinanceProgramIx::UpdateActive(_) => InstructionKind::UpdateActive,
            MarinadeFinanceProgramIx::UpdateDeactivated(_) => InstructionKind::UpdateDeactivated,
            MarinadeFinanceProgramIx::DeactivateStake(_) => InstructionKind::DeactivateStake,
            MarinadeFinanceProgramIx::EmergencyUnstake(_) => InstructionKind::EmergencyUnstake,
            MarinadeFinanceProgramIx::PartialUnstake(_) => InstructionKind::PartialUnstake,
            MarinadeFinanceProgramIx::MergeStakes(_) => InstructionKind::MergeStakes,
            MarinadeFinanceProgramIx::Redelegate(_) => InstructionKind::Redelegate,
            MarinadeFinanceProgramIx::Pause => InstructionKind::Pause,
            MarinadeFinanceProgramIx::Resume => InstructionKind::Resume,
            MarinadeFinanceProgramIx::WithdrawStakeAccount(_) =>
                InstructionKind::WithdrawStakeAccount,
            MarinadeFinanceProgramIx::ReallocValidatorList(_) =>
                InstructionKind::ReallocValidatorList,
            MarinadeFinanceProgramIx::ReallocStakeList(_) => InstructionKind::ReallocStakeList,
        }
    }

    /// The instruction data: the discriminant of the kind, then the arguments.
    pub open spec fn spec_bytes(self) -> Seq<u8> {
        match self {
            MarinadeFinanceProgramIx::Initialize(args) => INITIALIZE_IX_DISCM@ + args.spec_encode(),
            MarinadeFinanceProgramIx::ChangeAuthority(args) =>
                CHANGE_AUTHORITY_IX_DISCM@ + args.spec_encode(),
            MarinadeFinanceProgramIx::AddValidator(args) =>
                ADD_VALIDATOR_IX_DISCM@ + args.spec_encode(),
            MarinadeFinanceProgramIx::RemoveValidator(args) =>
                REMOVE_VALIDATOR_IX_DISCM@ + args.spec_encode(),
            MarinadeFinanceProgramIx::SetValidatorScore(args) =>
                SET_VALIDATOR_SCORE_IX_DISCM@ + args.spec_encode(),
            MarinadeFinanceProgramIx::ConfigValidatorSystem(args) =>
                CONFIG_VALIDATOR_SYSTEM_IX_DISCM@ + args.spec_encode(),
            MarinadeFinanceProgramIx::Deposit(args) => DEPOSIT_IX_DISCM@ + args.spec_encode(),
            MarinadeFinanceProgramIx::DepositStakeAccount(args) =>
                DEPOSIT_STAKE_ACCOUNT_IX_DISCM@ + args.spec_encode(),
            MarinadeFinanceProgramIx::LiquidUnstake(args) =>
                LIQUID_UNSTAKE_IX_DISCM@ + args.spec_encode(),
            MarinadeFinanceProgramIx::AddLiquidity(args) =>
                ADD_LIQUIDITY_IX_DISCM@ + args.spec_encode(),
            MarinadeFinanceProgramIx::RemoveLiquidity(args) =>
                REMOVE_LIQUIDITY_IX_DISCM@ + args.spec_encode(),
            MarinadeFinanceProgramIx::ConfigLp(args) => CONFIG_LP_IX_DISCM@ + args.spec_encode(),
            MarinadeFinanceProgramIx::ConfigMarinade(args) =>
                CONFIG_MARINADE_IX_DISCM@ + args.spec_encode(),
            MarinadeFinanceProgramIx::OrderUnstake(args) =>
                ORDER_UNSTAKE_IX_DISCM@ + args.spec_encode(),
            MarinadeFinanceProgramIx::Claim => CLAIM_IX_DISCM@,
            MarinadeFinanceProgramIx::StakeReserve(args) =>
                STAKE_RESERVE_IX_DISCM@ + args.spec_encode(),
            MarinadeFinanceProgramIx::UpdateActive(args) =>
                UPDATE_ACTIVE_IX_DISCM@ + args.spec_encode(),
            MarinadeFinanceProgramIx::UpdateDeactivated(args) =>
                UPDATE_DEACTIVATED_IX_DISCM@ + args.spec_encode(),
            MarinadeFinanceProgramIx::DeactivateStake(args) =>
                DEACTIVATE_STAKE_IX_DISCM@ + args.spec_encode(),
            MarinadeFinanceProgramIx::EmergencyUnstake(args) =>
                EMERGENCY_UNSTAKE_IX_DISCM@ + args.spec_encode(),
            MarinadeFinanceProgramIx::PartialUnstake(args) =>
                PARTIAL_UNSTAKE_IX_DISCM@ + args.spec_encode(),
            MarinadeFinanceProgramIx::MergeStakes(args) =>
                MERGE_STAKES_IX_DISCM@ + args.spec_encode(),
            MarinadeFinanceProgramIx::Redelegate(args) => REDELEGATE_IX_DISCM@ + args.spec_encode(),
            MarinadeFinanceProgramIx::Pause => PAUSE_IX_DISCM@,
            MarinadeFinanceProgramIx::Resume => RESUME_IX_DISCM@,
            MarinadeFinanceProgramIx::WithdrawStakeAccount(args) =>
                WITHDRAW_STAKE_ACCOUNT_IX_DISCM@ + args.spec_encode(),
            MarinadeFinanceProgramIx::ReallocValidatorList(args) =>
                REALLOC_VALIDATOR_LIST_IX_DISCM@ + args.spec_encode(),
            MarinadeFinanceProgramIx::ReallocStakeList(args) =>
                REALLOC_STAKE_LIST_IX_DISCM@ + args.spec_encode(),
        }
    }

    /// The arguments as they are written after the discriminant.
    pub open spec fn spec_payload(self) -> Seq<u8> {
        match self {
            MarinadeFinanceProgramIx::Initialize(args) => args.spec_encode(),
            MarinadeFinanceProgramIx::ChangeAuthority(args) => args.spec_encode(),
            MarinadeFinanceProgramIx::AddValidator(args) => args.spec_encode(),
            MarinadeFinanceProgramIx::RemoveValidator(args) => args.spec_encode(),
            MarinadeFinanceProgramIx::SetValidatorScore(args) => args.spec_encode(),
            MarinadeFinanceProgramIx::ConfigValidatorSystem(args) => args.spec_encode(),
            MarinadeFinanceProgramIx::Deposit(args) => args.spec_encode(),
            MarinadeFinanceProgramIx::DepositStakeAccount(args) => args.spec_encode(),
            MarinadeFinanceProgramIx::LiquidUnstake(args) => args.spec_encode(),
            MarinadeFinanceProgramIx::AddLiquidity(args) => args.spec_encode(),
            MarinadeFinanceProgramIx::RemoveLiquidity(args) => args.spec_encode(),
            MarinadeFinanceProgramIx::ConfigLp(args) => args.spec_encode(),
            MarinadeFinanceProgramIx::ConfigMarinade(args) => args.spec_encode(),
            MarinadeFinanceProgramIx::OrderUnstake(args) => args.spec_encode(),
            MarinadeFinanceProgramIx::Claim => Seq::empty(),
            MarinadeFinanceProgramIx::StakeReserve(args) => args.spec_encode(),
            MarinadeFinanceProgramIx::UpdateActive(args) => args.spec_encode(),
            MarinadeFinanceProgramIx::UpdateDeactivated(args) => args.spec_encode(),
            MarinadeFinanceProgramIx::DeactivateStake(args) => args.spec_encode(),
            MarinadeFinanceProgramIx::EmergencyUnstake(args) => args.spec_encode(),
            MarinadeFinanceProgramIx::PartialUnstake(args) => args.spec_encode(),
            MarinadeFinanceProgramIx::MergeStakes(args) => args.spec_encode(),
            MarinadeFinanceProgramIx::Redelegate(args) => args.spec_encode(),
            MarinadeFinanceProgramIx::Pause => Seq::empty(),
            MarinadeFinanceProgramIx::Resume => Seq::empty(),
            MarinadeFinanceProgramIx::WithdrawStakeAccount(args) => args.spec_encode(),
            MarinadeFinanceProgramIx::ReallocValidatorList(args) => args.spec_encode(),
            MarinadeFinanceProgramIx::ReallocStakeList(args) => args.spec_encode(),
        }
    }

    /// Reading the arguments of an instruction of kind `k` from the front of `p`.
    pub open spec fn spec_parse_args(k: InstructionKind, p: Seq<u8>) -> Result<Self, DecodeError> {
        match k {
            InstructionKind::Initialize => match InitializeIxArgs::spec_parse(p) {
                Ok((args, _)) => Ok(MarinadeFinanceProgramIx::Initialize(args)),
                Err(e) => Err(e),
            },
            InstructionKind::ChangeAuthority => match ChangeAuthorityIxArgs::spec_parse(p) {
                Ok((args, _)) => Ok(MarinadeFinanceProgramIx::ChangeAuthority(args)),
                Err(e) => Err(e),
            },
            InstructionKind::AddValidator => match AddValidatorIxArgs::spec_parse(p) {
                Ok((args, _)) => Ok(MarinadeFinanceProgramIx::AddValidator(args)),
                Err(e) => Err(e),
            },
            InstructionKind::RemoveValidator => match RemoveValidatorIxArgs::spec_parse(p) {
                Ok((args, _)) => Ok(MarinadeFinanceProgramIx::RemoveValidator(args)),
                Err(e) => Err(e),
            },
            InstructionKind::SetValidatorScore => match SetValidatorScoreIxArgs::spec_parse(p) {
                Ok((args, _)) => Ok(MarinadeFinanceProgramIx::SetValidatorScore(args)),
                Err(e) => Err(e),
            },
            InstructionKind::ConfigValidatorSystem => {
                match ConfigValidatorSystemIxArgs::spec_parse(p) {
                    Ok((args, _)) => Ok(MarinadeFinanceProgramIx::ConfigValidatorSystem(args)),
                    Err(e) => Err(e),
                }
            },
            InstructionKind::Deposit => match DepositIxArgs::spec_parse(p) {
                Ok((args, _)) => Ok(MarinadeFinanceProgramIx::Deposit(args)),
                Err(e) => Err(e),
            },
            InstructionKind::DepositStakeAccount => match DepositStakeAccountIxArgs::spec_parse(p) {
                Ok((args, _)) => Ok(MarinadeFinanceProgramIx::DepositStakeAccount(args)),
                Err(e) => Err(e),
            },
            InstructionKind::LiquidUnstake => match LiquidUnstakeIxArgs::spec_parse(p) {
                Ok((args, _)) => Ok(MarinadeFinanceProgramIx::LiquidUnstake(args)),
                Err(e) => Err(e),
            },
            InstructionKind::AddLiquidity => match AddLiquidityIxArgs::spec_parse(p) {
                Ok((args, _)) => Ok(MarinadeFinanceProgramIx::AddLiquidity(args)),
                Err(e) => Err(e),
            },
            InstructionKind::RemoveLiquidity => match RemoveLiquidityIxArgs::spec_parse(p) {
                Ok((args, _)) => Ok(MarinadeFinanceProgramIx::RemoveLiquidity(args)),
                Err(e) => Err(e),
            },
            InstructionKind::ConfigLp => match ConfigLpIxArgs::spec_parse(p) {
                Ok((args, _)) => Ok(MarinadeFinanceProgramIx::ConfigLp(args)),
                Err(e) => Err(e),
            },
            InstructionKind::ConfigMarinade => match ConfigMarinadeIxArgs::spec_parse(p) {
                Ok((args, _)) => Ok(MarinadeFinanceProgramIx::ConfigMarinade(args)),
                Err(e) => Err(e),
            },
            InstructionKind::OrderUnstake => match OrderUnstakeIxArgs::spec_parse(p) {
                Ok((args, _)) => Ok(MarinadeFinanceProgramIx::OrderUnstake(args)),
                Err(e) => Err(e),
            },
            InstructionKind::Claim => Ok(MarinadeFinanceProgramIx::Claim),
            InstructionKind::StakeReserve => match StakeReserveIxArgs::spec_parse(p) {
                Ok((args, _)) => Ok(MarinadeFinanceProgramIx::StakeReserve(args)),
                Err(e) => Err(e),
            },
            InstructionKind::UpdateActive => match UpdateActiveIxArgs::spec_parse(p) {
                Ok((args, _)) => Ok(MarinadeFinanceProgramIx::UpdateActive(args)),
                Err(e) => Err(e),
            },
            InstructionKind::UpdateDeactivated => match UpdateDeactivatedIxArgs::spec_parse(p) {
                Ok((args, _)) => Ok(MarinadeFinanceProgramIx::UpdateDeactivated(args)),
                Err(e) => Err(e),
            },
            InstructionKind::DeactivateStake => match DeactivateStakeIxArgs::spec_parse(p) {
                Ok((args, _)) => Ok(MarinadeFinanceProgramIx::DeactivateStake(args)),
                Err(e) => Err(e),
            },
            InstructionKind::EmergencyUnstake => match EmergencyUnstakeIxArgs::spec_parse(p) {
                Ok((args, _)) => Ok(MarinadeFinanceProgramIx::EmergencyUnstake(args)),
                Err(e) => Err(e),
            },
            InstructionKind::PartialUnstake => match PartialUnstakeIxArgs::spec_parse(p) {
                Ok((args, _)) => Ok(MarinadeFinanceProgramIx::PartialUnstake(args)),
                Err(e) => Err(e),
            },
            InstructionKind::MergeStakes => match MergeStakesIxArgs::spec_parse(p) {
                Ok((args, _)) => Ok(MarinadeFinanceProgramIx::MergeStakes(args)),
                Err(e) => Err(e),
            },
            InstructionKind::Redelegate => match RedelegateIxArgs::spec_parse(p) {
                Ok((args, _)) => Ok(MarinadeFinanceProgramIx::Redelegate(args)),
                Err(e) => Err(e),
            },
            InstructionKind::Pause => Ok(MarinadeFinanceProgramIx::Pause),
            InstructionKind::Resume => Ok(MarinadeFinanceProgramIx::Resume),
            InstructionKind::WithdrawStakeAccount => {
                match WithdrawStakeAccountIxArgs::spec_parse(p) {
                    Ok((args, _)) => Ok(MarinadeFinanceProgramIx::WithdrawStakeAccount(args)),
                    Err(e) => Err(e),
                }
            },
            InstructionKind::ReallocValidatorList => {
                match ReallocValidatorListIxArgs::spec_parse(p) {
                    Ok((args, _)) => Ok(MarinadeFinanceProgramIx::ReallocValidatorList(args)),
                    Err(e) => Err(e),
                }
            },
            InstructionKind::ReallocStakeList => match ReallocStakeListIxArgs::spec_parse(p) {
                Ok((args, _)) => Ok(MarinadeFinanceProgramIx::ReallocStakeList(args)),
                Err(e) => Err(e),
            },
        }
    }

    /// Reading instruction data from the front of `s`: the discriminant selects
    /// the kind and the arguments of that kind follow; bytes after them are left unread.
    pub open spec fn spec_parse(s: Seq<u8>) -> Result<Self, DecodeError> {
        if s.len() < 8 {
            Err(DecodeError::TruncatedInput)
        } else {
            match spec_lookup(s.take(8)) {
                None => Err(DecodeError::UnknownDiscriminant { actual: array8(s.take(8)) }),
                Some(k) => Self::spec_parse_args(k, s.skip(8)),
            }
        }
    }

    /// Reads instruction data from the front of `buf`; bytes after it are left unread.
    pub fn deserialize(buf: &[u8]) -> (r: Result<Self, DecodeError>)
        ensures
            r == Self::spec_parse(buf@),
    {
        if buf.len() < 8 {
            return Err(DecodeError::TruncatedInput);
        }
        let discm = read_discm(buf);
        let kind = match lookup(&discm) {
            Some(kind) => kind,
            None => {
                return Err(DecodeError::UnknownDiscriminant { actual: discm });
            },
        };
        match kind {
            InstructionKind::Initialize => match InitializeIxArgs::decode(buf, 8) {
                Ok((args, _)) => Ok(MarinadeFinanceProgramIx::Initialize(args)),
                Err(e) => Err(e),
            },
            InstructionKind::ChangeAuthority => match ChangeAuthorityIxArgs::decode(buf, 8) {
                Ok((args, _)) => Ok(MarinadeFinanceProgramIx::ChangeAuthority(args)),
                Err(e) => Err(e),
            },
            InstructionKind::AddValidator => match AddValidatorIxArgs::decode(buf, 8) {
                Ok((args, _)) => Ok(MarinadeFinanceProgramIx::AddValidator(args)),
                Err(e) => Err(e),
            },
            InstructionKind::RemoveValidator => match RemoveValidatorIxArgs::decode(buf, 8) {
                Ok((args, _)) => Ok(MarinadeFinanceProgramIx::RemoveValidator(args)),
                Err(e) => Err(e),
            },
            InstructionKind::SetValidatorScore => match SetValidatorScoreIxArgs::decode(buf, 8) {
                Ok((args, _)) => Ok(MarinadeFinanceProgramIx::SetValidatorScore(args)),
                Err(e) => Err(e),
            },
            InstructionKind::ConfigValidatorSystem => {
                match ConfigValidatorSystemIxArgs::decode(buf, 8) {
                    Ok((args, _)) => Ok(MarinadeFinanceProgramIx::ConfigValidatorSystem(args)),
                    Err(e) => Err(e),
                }
            },
            InstructionKind::Deposit => match DepositIxArgs::decode(buf, 8) {
                Ok((args, _)) => Ok(MarinadeFinanceProgramIx::Deposit(args)),
                Err(e) => Err(e),
            },
            InstructionKind::DepositStakeAccount => {
                match DepositStakeAccountIxArgs::decode(buf, 8) {
                    Ok((args, _)) => Ok(MarinadeFinanceProgramIx::DepositStakeAccount(args)),
                    Err(e) => Err(e),
                }
            },
            InstructionKind::LiquidUnstake => match LiquidUnstakeIxArgs::decode(buf, 8) {
                Ok((args, _)) => Ok(MarinadeFinanceProgramIx::LiquidUnstake(args)),
                Err(e) => Err(e),
            },
            InstructionKind::AddLiquidity => match AddLiquidityIxArgs::decode(buf, 8) {
                Ok((args, _)) => Ok(MarinadeFinanceProgramIx::AddLiquidity(args)),
                Err(e) => Err(e),
            },
            InstructionKind::RemoveLiquidity => match RemoveLiquidityIxArgs::decode(buf, 8) {
                Ok((args, _)) => Ok(MarinadeFinanceProgramIx::RemoveLiquidity(args)),
                Err(e) => Err(e),
            },
            InstructionKind::ConfigLp => match ConfigLpIxArgs::decode(buf, 8) {
                Ok((args, _)) => Ok(MarinadeFinanceProgramIx::ConfigLp(args)),
                Err(e) => Err(e),
            },
            InstructionKind::ConfigMarinade => match ConfigMarinadeIxArgs::decode(buf, 8) {
                Ok((args, _)) => Ok(MarinadeFinanceProgramIx::ConfigMarinade(args)),
                Err(e) => Err(e),
            },
            InstructionKind::OrderUnstake => match OrderUnstakeIxArgs::decode(buf, 8) {
                Ok((args, _)) => Ok(MarinadeFinanceProgramIx::OrderUnstake(args)),
                Err(e) => Err(e),
            },
            InstructionKind::Claim => Ok(MarinadeFinanceProgramIx::Claim),
            InstructionKind::StakeReserve => match StakeReserveIxArgs::decode(buf, 8) {
                Ok((args, _)) => Ok(MarinadeFinanceProgramIx::StakeReserve(args)),
                Err(e) => Err(e),
            },
            InstructionKind::UpdateActive => match UpdateActiveIxArgs::decode(buf, 8) {
                Ok((args, _)) => Ok(MarinadeFinanceProgramIx::UpdateActive(args)),
                Err(e) => Err(e),
            },
            InstructionKind::UpdateDeactivated => match UpdateDeactivatedIxArgs::decode(buf, 8) {
                Ok((args, _)) => Ok(MarinadeFinanceProgramIx::UpdateDeactivated(args)),
                Err(e) => Err(e),
            },
            InstructionKind::DeactivateStake => match DeactivateStakeIxArgs::decode(buf, 8) {
                Ok((args, _)) => Ok(MarinadeFinanceProgramIx::DeactivateStake(args)),
                Err(e) => Err(e),
            },
            InstructionKind::EmergencyUnstake => match EmergencyUnstakeIxArgs::decode(buf, 8) {
                Ok((args, _)) => Ok(MarinadeFinanceProgramIx::EmergencyUnstake(args)),
                Err(e) => Err(e),
            },
            InstructionKind::PartialUnstake => match PartialUnstakeIxArgs::decode(buf, 8) {
                Ok((args, _)) => Ok(MarinadeFinanceProgramIx::PartialUnstake(args)),
                Err(e) => Err(e),
            },
            InstructionKind::MergeStakes => match MergeStakesIxArgs::decode(buf, 8) {
                Ok((args, _)) => Ok(MarinadeFinanceProgramIx::MergeStakes(args)),
                Err(e) => Err(e),
            },
            InstructionKind::Redelegate => match RedelegateIxArgs::decode(buf, 8) {
                Ok((args, _)) => Ok(MarinadeFinanceProgramIx::Redelegate(args)),
                Err(e) => Err(e),
            },
            InstructionKind::Pause => Ok(MarinadeFinanceProgramIx::Pause),
            InstructionKind::Resume => Ok(MarinadeFinanceProgramIx::Resume),
            InstructionKind::WithdrawStakeAccount => {
                match WithdrawStakeAccountIxArgs::decode(buf, 8) {
                    Ok((args, _)) => Ok(MarinadeFinanceProgramIx::WithdrawStakeAccount(args)),
                    Err(e) => Err(e),
                }
            },
            InstructionKind::ReallocValidatorList => {
                match ReallocValidatorListIxArgs::decode(buf, 8) {
                    Ok((args, _)) => Ok(MarinadeFinanceProgramIx::ReallocValidatorList(args)),
                    Err(e) => Err(e),
                }
            },
            InstructionKind::ReallocStakeList => match ReallocStakeListIxArgs::decode(buf, 8) {
                Ok((args, _)) => Ok(MarinadeFinanceProgramIx::ReallocStakeList(args)),
                Err(e) => Err(e),
            },
        }
    }

    /// Appends the instruction data to `out`.
    pub fn serialize(&self, out: &mut Vec<u8>)
        ensures
            final(out)@ == old(out)@ + self.spec_bytes(),
    {
        match self {
            MarinadeFinanceProgramIx::Initialize(args) =>
                write_tagged(&INITIALIZE_IX_DISCM, args, out),
            MarinadeFinanceProgramIx::ChangeAuthority(args) =>
                write_tagged(&CHANGE_AUTHORITY_IX_DISCM, args, out),
            MarinadeFinanceProgramIx::AddValidator(args) =>
                write_tagged(&ADD_VALIDATOR_IX_DISCM, args, out),
            MarinadeFinanceProgramIx::RemoveValidator(args) =>
                write_tagged(&REMOVE_VALIDATOR_IX_DISCM, args, out),
            MarinadeFinanceProgramIx::SetValidatorScore(args) =>
                write_tagged(&SET_VALIDATOR_SCORE_IX_DISCM, args, out),
            MarinadeFinanceProgramIx::ConfigValidatorSystem(args) =>
                write_tagged(&CONFIG_VALIDATOR_SYSTEM_IX_DISCM, args, out),
            MarinadeFinanceProgramIx::Deposit(args) => write_tagged(&DEPOSIT_IX_DISCM, args, out),
            MarinadeFinanceProgramIx::DepositStakeAccount(args) =>
                write_tagged(&DEPOSIT_STAKE_ACCOUNT_IX_DISCM, args, out),
            MarinadeFinanceProgramIx::LiquidUnstake(args) =>
                write_tagged(&LIQUID_UNSTAKE_IX_DISCM, args, out),
            MarinadeFinanceProgramIx::AddLiquidity(args) =>
                write_tagged(&ADD_LIQUIDITY_IX_DISCM, args, out),
            MarinadeFinanceProgramIx::RemoveLiquidity(args) =>
                write_tagged(&REMOVE_LIQUIDITY_IX_DISCM, args, out),
            MarinadeFinanceProgramIx::ConfigLp(args) =>
                write_tagged(&CONFIG_LP_IX_DISCM, args, out),
            MarinadeFinanceProgramIx::ConfigMarinade(args) =>
                write_tagged(&CONFIG_MARINADE_IX_DISCM, args, out),
            MarinadeFinanceProgramIx::OrderUnstake(args) =>
                write_tagged(&ORDER_UNSTAKE_IX_DISCM, args, out),
            MarinadeFinanceProgramIx::Claim => write_tagged(&CLAIM_IX_DISCM, &(), out),
            MarinadeFinanceProgramIx::StakeReserve(args) =>
                write_tagged(&STAKE_RESERVE_IX_DISCM, args, out),
            MarinadeFinanceProgramIx::UpdateActive(args) =>
                write_tagged(&UPDATE_ACTIVE_IX_DISCM, args, out),
            MarinadeFinanceProgramIx::UpdateDeactivated(args) =>
                write_tagged(&UPDATE_DEACTIVATED_IX_DISCM, args, out),
            MarinadeFinanceProgramIx::DeactivateStake(args) =>
                write_tagged(&DEACTIVATE_STAKE_IX_DISCM, args, out),
            MarinadeFinanceProgramIx::EmergencyUnstake(args) =>
                write_tagged(&EMERGENCY_UNSTAKE_IX_DISCM, args, out),
            MarinadeFinanceProgramIx::PartialUnstake(args) =>
                write_tagged(&PARTIAL_UNSTAKE_IX_DISCM, args, out),
            MarinadeFinanceProgramIx::MergeStakes(args) =>
                write_tagged(&MERGE_STAKES_IX_DISCM, args, out),
            MarinadeFinanceProgramIx::Redelegate(args) =>
                write_tagged(&REDELEGATE_IX_DISCM, args, out),
            MarinadeFinanceProgramIx::Pause => write_tagged(&PAUSE_IX_DISCM, &(), out),
            MarinadeFinanceProgramIx::Resume => write_tagged(&RESUME_IX_DISCM, &(), out),
            MarinadeFinanceProgramIx::WithdrawStakeAccount(args) =>
                write_tagged(&WITHDRAW_STAKE_ACCOUNT_IX_DISCM, args, out),
            MarinadeFinanceProgramIx::ReallocValidatorList(args) =>
                write_tagged(&REALLOC_VALIDATOR_LIST_IX_DISCM, args, out),
            MarinadeFinanceProgramIx::ReallocStakeList(args) =>
                write_tagged(&REALLOC_STAKE_LIST_IX_DISCM, args, out),
        }
        assert(final(out)@ =~= old(out)@ + self.spec_bytes());
    }

    /// The instruction data.
    pub fn try_to_vec(&self) -> (r: Vec<u8>)
        ensures
            r@ == self.spec_bytes(),
    {
        let mut data: Vec<u8> = Vec::new();
        self.serialize(&mut data);
        assert(data@ =~= self.spec_bytes());
        data
    }
}

proof fn lemma_bytes_split(ix: MarinadeFinanceProgramIx)
    ensures
        ix.spec_bytes() == ix.spec_kind().spec_discm()@ + ix.spec_payload(),
{
    assert(ix.spec_bytes() =~= ix.spec_kind().spec_discm()@ + ix.spec_payload());
}

proof fn lemma_parse_args_payload(ix: MarinadeFinanceProgramIx, rest: Seq<u8>)
    ensures
        MarinadeFinanceProgramIx::spec_parse_args(ix.spec_kind(), ix.spec_payload() + rest) == Ok::<
            MarinadeFinanceProgramIx,
            DecodeError,
        >(ix),
{
    match ix {
        MarinadeFinanceProgramIx::Initialize(args) => args.lemma_parse_encode(rest),
        MarinadeFinanceProgramIx::ChangeAuthority(args) => args.lemma_parse_encode(rest),
        MarinadeFinanceProgramIx::AddValidator(args) => args.lemma_parse_encode(rest),
        MarinadeFinanceProgramIx::RemoveValidator(args) => args.lemma_parse_encode(rest),
        MarinadeFinanceProgramIx::SetValidatorScore(args) => args.lemma_parse_encode(rest),
        MarinadeFinanceProgramIx::ConfigValidatorSystem(args) => args.lemma_parse_encode(rest),
        MarinadeFinanceProgramIx::Deposit(args) => args.lemma_parse_encode(rest),
        MarinadeFinanceProgramIx::DepositStakeAccount(args) => args.lemma_parse_encode(rest),
        MarinadeFinanceProgramIx::LiquidUnstake(args) => args.lemma_parse_encode(rest),
        MarinadeFinanceProgramIx::AddLiquidity(args) => args.lemma_parse_encode(rest),
        MarinadeFinanceProgramIx::RemoveLiquidity(args) => args.lemma_parse_encode(rest),
        MarinadeFinanceProgramIx::ConfigLp(args) => args.lemma_parse_encode(rest),
        MarinadeFinanceProgramIx::ConfigMarinade(args) => args.lemma_parse_encode(rest),
        MarinadeFinanceProgramIx::OrderUnstake(args) => args.lemma_parse_encode(rest),
        MarinadeFinanceProgramIx::Claim => {},
        MarinadeFinanceProgramIx::StakeReserve(args) => args.lemma_parse_encode(rest),
        MarinadeFinanceProgramIx::UpdateActive(args) => args.lemma_parse_encode(rest),
        MarinadeFinanceProgramIx::UpdateDeactivated(args) => args.lemma_parse_encode(rest),
        MarinadeFinanceProgramIx::DeactivateStake(args) => args.lemma_parse_encode(rest),
        MarinadeFinanceProgramIx::EmergencyUnstake(args) => args.lemma_parse_encode(rest),
        MarinadeFinanceProgramIx::PartialUnstake(args) => args.lemma_parse_encode(rest),
        MarinadeFinanceProgramIx::MergeStakes(args) => args.lemma_parse_encode(rest),
        MarinadeFinanceProgramIx::Redelegate(args) => args.lemma_parse_encode(rest),
        MarinadeFinanceProgramIx::Pause => {},
        MarinadeFinanceProgramIx::Resume => {},
        MarinadeFinanceProgramIx::WithdrawStakeAccount(args) => args.lemma_parse_encode(rest),
        MarinadeFinanceProgramIx::ReallocValidatorList(args) => args.lemma_parse_encode(rest),
        MarinadeFinanceProgramIx::ReallocStakeList(args) => args.lemma_parse_encode(rest),
    }
}

/// Reading back the data of an instruction gives the instruction, whatever
/// bytes follow it.
pub proof fn lemma_round_trip(ix: MarinadeFinanceProgramIx, rest: Seq<u8>)
    ensures
        MarinadeFinanceProgramIx::spec_parse(ix.spec_bytes() + rest) == Ok::<
            MarinadeFinanceProgramIx,
            DecodeError,
        >(ix),
{
    let k = ix.spec_kind();
    let tag = k.spec_discm()@;
    let s = ix.spec_bytes() + rest;
    lemma_bytes_split(ix);
    assert(s =~= tag + (ix.spec_payload() + rest));
    lemma_concat_take_skip(tag, ix.spec_payload() + rest);
    lemma_lookup_inverse(k, tag);
    lemma_parse_args_payload(ix, rest);
}

/// Distinct instructions never have the same data.
pub proof fn lemma_bytes_injective(a: MarinadeFinanceProgramIx, b: MarinadeFinanceProgramIx)
    ensures
        a.spec_bytes() == b.spec_bytes() ==> a == b,
{
    lemma_round_trip(a, Seq::empty());
    lemma_round_trip(b, Seq::empty());
    assert(a.spec_bytes() + Seq::empty() =~= a.spec_bytes());
    assert(b.spec_bytes() + Seq::empty() =~= b.spec_bytes());
}

} // verus!

use marinade_finance_interface::codec::{DecodeError, Pubkey};
use marinade_finance_interface::instructions::{
    AddValidatorIxArgs, AddValidatorIxData, ChangeAuthorityIxArgs, ChangeAuthorityIxData, ClaimIxData,
    ConfigLpIxArgs, ConfigLpIxData, ConfigMarinadeIxArgs, ConfigMarinadeIxData, DepositIxArgs,
    DepositIxData, InitializeIxArgs, InitializeIxData, PartialUnstakeIxArgs, PartialUnstakeIxData,
    PauseIxData, RemoveValidatorIxArgs, RemoveValidatorIxData, SetValidatorScoreIxArgs,
    SetValidatorScoreIxData, WithdrawStakeAccountIxArgs, WithdrawStakeAccountIxData,
    DEPOSIT_IX_DISCM, PAUSE_IX_DISCM,
};
use marinade_finance_interface::typedefs::{
    ChangeAuthorityData, ConfigLpParams, ConfigMarinadeParams, Fee, FeeCents, InitializeData,
    LiqPoolInitializeData,
};

fn key(b: u8) -> Pubkey {
    Pubkey([b; 32])
}

fn initialize_data() -> InitializeData {
    InitializeData {
        admin_authority: key(1),
        validator_manager_authority: key(2),
        min_stake: u64::MAX,
        rewards_fee: Fee { basis_points: 200 },
        liq_pool: LiqPoolInitializeData {
            lp_liquidity_target: 10_000,
            lp_max_fee: Fee { basis_points: 300 },
            lp_min_fee: Fee { basis_points: 30 },
            lp_treasury_cut: Fee { basis_points: 2500 },
        },
        additional_stake_record_space: u32::MAX,
        additional_validator_record_space: 0,
        slots_for_stake_delta: 3000,
        pause_authority: key(0),
    }
}

#[test]
fn deposit_serializes_to_tag_and_le_amount() {
    let data = DepositIxData(DepositIxArgs { lamports: 1_000_000_000 });
    let bytes = data.try_to_vec();
    let mut expected = vec![242, 35, 198, 137, 82, 225, 242, 182];
    expected.extend_from_slice(&1_000_000_000u64.to_le_bytes());
    assert_eq!(bytes, expected);
    assert_eq!(bytes.len(), 16);
    assert_eq!(DepositIxData::deserialize(&bytes), Ok(data));
}

#[test]
fn deposit_payload_matches_borsh() {
    let bytes = DepositIxData(DepositIxArgs { lamports: 1_000_000_000 }).try_to_vec();
    let payload = borsh::BorshSerialize::try_to_vec(&1_000_000_000u64).unwrap();
    assert_eq!(&bytes[8..], &payload[..]);
}

#[test]
fn serialize_appends_to_existing_bytes() {
    let mut out = vec![9u8, 9];
    DepositIxData(DepositIxArgs { lamports: 5 }).serialize(&mut out);
    assert_eq!(out, vec![9, 9, 242, 35, 198, 137, 82, 225, 242, 182, 5, 0, 0, 0, 0, 0, 0, 0]);
}

#[test]
fn pause_data_is_tag_alone() {
    assert_eq!(PauseIxData.try_to_vec(), vec![211, 22, 221, 251, 74, 121, 193, 47]);
    assert_eq!(PauseIxData::deserialize(&PAUSE_IX_DISCM), Ok(PauseIxData));
}

#[test]
fn round_trip_boundary_integers() {
    for v in [0u32, 1, u32::MAX] {
        let d = AddValidatorIxData(AddValidatorIxArgs { score: v });
        let bytes = d.try_to_vec();
        assert_eq!(bytes.len(), 12);
        assert_eq!(&bytes[8..], &v.to_le_bytes());
        assert_eq!(AddValidatorIxData::deserialize(&bytes), Ok(d));
    }
    for v in [0u64, 1, u64::MAX] {
        let d = DepositIxData(DepositIxArgs { lamports: v });
        assert_eq!(DepositIxData::deserialize(&d.try_to_vec()), Ok(d));
    }
}

#[test]
fn round_trip_keys_in_field_order() {
    let d = SetValidatorScoreIxData(SetValidatorScoreIxArgs {
        index: 7,
        validator_vote: key(0),
        score: u32::MAX,
    });
    let bytes = d.try_to_vec();
    assert_eq!(bytes.len(), 8 + 4 + 32 + 4);
    assert_eq!(&bytes[8..12], &[7, 0, 0, 0]);
    assert_eq!(&bytes[12..44], &[0u8; 32]);
    assert_eq!(&bytes[44..48], &[255, 255, 255, 255]);
    assert_eq!(SetValidatorScoreIxData::deserialize(&bytes), Ok(d));

    let r = RemoveValidatorIxData(RemoveValidatorIxArgs { index: u32::MAX, validator_vote: key(0xab) });
    assert_eq!(RemoveValidatorIxData::deserialize(&r.try_to_vec()), Ok(r));

    let w = WithdrawStakeAccountIxData(WithdrawStakeAccountIxArgs {
        stake_index: 1,
        validator_index: 2,
        msol_amount: u64::MAX,
        beneficiary: key(3),
    });
    let wb = w.try_to_vec();
    assert_eq!(wb.len(), 8 + 4 + 4 + 8 + 32);
    assert_eq!(WithdrawStakeAccountIxData::deserialize(&wb), Ok(w));

    let p = PartialUnstakeIxData(PartialUnstakeIxArgs {
        stake_index: 0,
        validator_index: u32::MAX,
        desired_unstake_amount: 0,
    });
    assert_eq!(PartialUnstakeIxData::deserialize(&p.try_to_vec()), Ok(p));
}

#[test]
fn round_trip_initialize_nested_records() {
    let d = InitializeIxData(InitializeIxArgs { data: initialize_data() });
    let bytes = d.try_to_vec();
    // keys, min_stake, rewards fee, pool (u64 + three fees), two u32, u64, key
    assert_eq!(bytes.len(), 8 + 32 + 32 + 8 + 4 + (8 + 4 + 4 + 4) + 4 + 4 + 8 + 32);
    assert_eq!(InitializeIxData::deserialize(&bytes), Ok(d));
}

#[test]
fn round_trip_options() {
    let c = ChangeAuthorityIxData(ChangeAuthorityIxArgs {
        data: ChangeAuthorityData {
            admin: Some(key(4)),
            validator_manager: None,
            operational_sol_account: None,
            treasury_msol_account: Some(key(0)),
            pause_authority: None,
        },
    });
    let cb = c.try_to_vec();
    assert_eq!(cb.len(), 8 + 33 + 1 + 1 + 33 + 1);
    assert_eq!(cb[8], 1);
    assert_eq!(cb[41], 0);
    assert_eq!(ChangeAuthorityIxData::deserialize(&cb), Ok(c));

    let lp = ConfigLpIxData(ConfigLpIxArgs {
        params: ConfigLpParams {
            min_fee: None,
            max_fee: Some(Fee { basis_points: u32::MAX }),
            liquidity_target: Some(u64::MAX),
            treasury_cut: None,
        },
    });
    assert_eq!(ConfigLpIxData::deserialize(&lp.try_to_vec()), Ok(lp));

    let m = ConfigMarinadeIxData(ConfigMarinadeIxArgs {
        params: ConfigMarinadeParams {
            rewards_fee: Some(Fee { basis_points: 1 }),
            slots_for_stake_delta: None,
            min_stake: Some(0),
            min_deposit: None,
            min_withdraw: Some(u64::MAX),
            staking_sol_cap: None,
            liquidity_sol_cap: Some(5),
            withdraw_stake_account_enabled: Some(true),
            delayed_unstake_fee: Some(FeeCents { bp_cents: 7 }),
            withdraw_stake_account_fee: None,
            max_stake_moved_per_epoch: Some(Fee { basis_points: 0 }),
        },
    });
    assert_eq!(ConfigMarinadeIxData::deserialize(&m.try_to_vec()), Ok(m));
}

#[test]
fn option_layout_matches_borsh() {
    let lp = ConfigLpIxData(ConfigLpIxArgs {
        params: ConfigLpParams {
            min_fee: None,
            max_fee: Some(Fee { basis_points: 9 }),
            liquidity_target: Some(77),
            treasury_cut: None,
        },
    });
    let bytes = lp.try_to_vec();
    let mut expected = Vec::new();
    expected.extend(borsh::BorshSerialize::try_to_vec(&None::<u32>).unwrap());
    expected.extend(borsh::BorshSerialize::try_to_vec(&Some(9u32)).unwrap());
    expected.extend(borsh::BorshSerialize::try_to_vec(&Some(77u64)).unwrap());
    expected.extend(borsh::BorshSerialize::try_to_vec(&None::<u32>).unwrap());
    assert_eq!(&bytes[8..], &expected[..]);
}

#[test]
fn trailing_bytes_are_left_unread() {
    let mut bytes = DepositIxData(DepositIxArgs { lamports: 42 }).try_to_vec();
    bytes.extend_from_slice(&[1, 2, 3]);
    assert_eq!(DepositIxData::deserialize(&bytes), Ok(DepositIxData(DepositIxArgs { lamports: 42 })));
}

#[test]
fn short_buffer_is_truncated() {
    assert_eq!(DepositIxData::deserialize(&[]), Err(DecodeError::TruncatedInput));
    assert_eq!(DepositIxData::deserialize(&DEPOSIT_IX_DISCM[..7]), Err(DecodeError::TruncatedInput));
    assert_eq!(PauseIxData::deserialize(&PAUSE_IX_DISCM[..7]), Err(DecodeError::TruncatedInput));
    let bytes = DepositIxData(DepositIxArgs { lamports: 42 }).try_to_vec();
    assert_eq!(DepositIxData::deserialize(&bytes[..15]), Err(DecodeError::TruncatedInput));
    assert_eq!(DepositIxData::deserialize(&bytes[..8]), Err(DecodeError::TruncatedInput));
}

#[test]
fn wrong_tag_is_a_mismatch() {
    let bytes = DepositIxData(DepositIxArgs { lamports: 42 }).try_to_vec();
    assert_eq!(
        PauseIxData::deserialize(&bytes),
        Err(DecodeError::DiscriminantMismatch { expected: PAUSE_IX_DISCM, actual: DEPOSIT_IX_DISCM })
    );
    assert_eq!(
        ClaimIxData::deserialize(&bytes),
        Err(DecodeError::DiscriminantMismatch {
            expected: [62, 198, 214, 193, 213, 159, 108, 210],
            actual: DEPOSIT_IX_DISCM
        })
    );
}

#[test]
fn bad_option_or_bool_tag_is_rejected() {
    let lp = ConfigLpIxData(ConfigLpIxArgs {
        params: ConfigLpParams { min_fee: None, max_fee: None, liquidity_target: None, treasury_cut: None },
    });
    let mut bytes = lp.try_to_vec();
    bytes[9] = 2;
    assert_eq!(ConfigLpIxData::deserialize(&bytes), Err(DecodeError::InvalidTag { tag: 2 }));

    let mut params = ConfigMarinadeParams {
        rewards_fee: None,
        slots_for_stake_delta: None,
        min_stake: None,
        min_deposit: None,
        min_withdraw: None,
        staking_sol_cap: None,
        liquidity_sol_cap: None,
        withdraw_stake_account_enabled: Some(false),
        delayed_unstake_fee: None,
        withdraw_stake_account_fee: None,
        max_stake_moved_per_epoch: None,
    };
    let mut mb = ConfigMarinadeIxData(ConfigMarinadeIxArgs { params }).try_to_vec();
    // seven empty options, then the tag and value of the boolean
    assert_eq!(mb[8 + 7], 1);
    assert_eq!(mb[8 + 8], 0);
    mb[8 + 8] = 3;
    assert_eq!(ConfigMarinadeIxData::deserialize(&mb), Err(DecodeError::InvalidTag { tag: 3 }));
    params.withdraw_stake_account_enabled = Some(true);
    let ok = ConfigMarinadeIxData(ConfigMarinadeIxArgs { params });
    assert_eq!(ConfigMarinadeIxData::deserialize(&ok.try_to_vec()), Ok(ok));
}

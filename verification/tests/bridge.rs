use token_bridge::admin::{
    accept_admin, get_admin, get_pending_admin, initialize, set_pending_admin,
};
use token_bridge::convert::{oep4_to_orc20, orc20_to_oep4, pow_ten, settle_conversion, Direction};
use token_bridge::events::{
    new_admin_event, new_pending_admin_event, oep4_to_orc20_event, orc20_to_oep4_event,
    transfer_token_pair_owner_evt, BridgeEvent,
};
use token_bridge::migration::{migrate, migrate_sweeps, SweepAsset, SweepTransfer};
use token_bridge::registry::{
    get_all_token_pair_name, get_token_pair, register_token_pair, transfer_token_pair_owner,
    update_token_pair,
};
use token_bridge::state::{Address, BridgeError, BridgeState, TokenPair, TransferAction};

fn addr(v: u128) -> Address {
    Address { value: v }
}

fn auth(vs: &[u128]) -> Vec<Address> {
    vs.iter().map(|v| Address { value: *v }).collect()
}

const ADMIN: u128 = 7;
const OEP4_ASSET: u128 = 21;
const ERC20_ASSET: u128 = 22;

/// A bridge with admin 7 and one pair "ab": OEP4 side with 18 decimals,
/// ORC20 side with 6 decimals, owned by the admin.
fn bridge_with_pair() -> BridgeState {
    let mut st = BridgeState::new();
    initialize(&mut st, &auth(&[ADMIN]), addr(ADMIN)).unwrap();
    register_token_pair(
        &mut st,
        &auth(&[ADMIN]),
        vec![b'a', b'b'],
        addr(OEP4_ASSET),
        18,
        addr(ERC20_ASSET),
        6,
    )
    .unwrap();
    st
}

#[test]
fn initialize_sets_admin_once() {
    let mut st = BridgeState::new();
    assert_eq!(get_admin(&st), addr(0));
    assert_eq!(initialize(&mut st, &auth(&[ADMIN]), addr(ADMIN)), Ok(()));
    assert_eq!(get_admin(&st), addr(ADMIN));
    // A second call always fails, even for the admin itself.
    assert_eq!(
        initialize(&mut st, &auth(&[ADMIN]), addr(ADMIN)),
        Err(BridgeError::AlreadyInitialized)
    );
    assert_eq!(
        initialize(&mut st, &auth(&[9]), addr(9)),
        Err(BridgeError::AlreadyInitialized)
    );
    assert_eq!(get_admin(&st), addr(ADMIN));
}

#[test]
fn initialize_needs_the_admin_witness() {
    let mut st = BridgeState::new();
    assert_eq!(
        initialize(&mut st, &auth(&[9]), addr(ADMIN)),
        Err(BridgeError::NotAuthorized)
    );
    assert_eq!(get_admin(&st), addr(0));
    // The zero address can never bootstrap: no witness covers it.
    assert_eq!(
        initialize(&mut st, &auth(&[0]), addr(0)),
        Err(BridgeError::NotAuthorized)
    );
}

#[test]
fn pending_admin_handover() {
    let mut st = BridgeState::new();
    initialize(&mut st, &auth(&[ADMIN]), addr(ADMIN)).unwrap();
    assert_eq!(get_pending_admin(&st), addr(0));
    assert_eq!(
        set_pending_admin(&mut st, &auth(&[ADMIN]), addr(9)),
        Ok(BridgeEvent::PendingAdmin { new_pending_admin: addr(9) })
    );
    assert_eq!(get_pending_admin(&st), addr(9));
    // Only the exact pending address may accept.
    assert_eq!(
        accept_admin(&mut st, &auth(&[ADMIN])),
        Err(BridgeError::NotAuthorized)
    );
    assert_eq!(
        accept_admin(&mut st, &auth(&[11])),
        Err(BridgeError::NotAuthorized)
    );
    assert_eq!(
        accept_admin(&mut st, &auth(&[9])),
        Ok(BridgeEvent::NewAdmin { old_admin: addr(ADMIN), new_admin: addr(9) })
    );
    assert_eq!(get_admin(&st), addr(9));
    assert_eq!(get_pending_admin(&st), addr(0));
}

#[test]
fn set_pending_admin_rejects_zero_and_strangers() {
    let mut st = BridgeState::new();
    initialize(&mut st, &auth(&[ADMIN]), addr(ADMIN)).unwrap();
    assert_eq!(
        set_pending_admin(&mut st, &auth(&[ADMIN]), addr(0)),
        Err(BridgeError::ZeroAddressNotAllowed)
    );
    assert_eq!(
        set_pending_admin(&mut st, &auth(&[9]), addr(9)),
        Err(BridgeError::NotAuthorized)
    );
    // A later pending value overwrites the earlier one.
    set_pending_admin(&mut st, &auth(&[ADMIN]), addr(9)).unwrap();
    set_pending_admin(&mut st, &auth(&[ADMIN]), addr(11)).unwrap();
    assert_eq!(get_pending_admin(&st), addr(11));
    assert_eq!(
        accept_admin(&mut st, &auth(&[9])),
        Err(BridgeError::NotAuthorized)
    );
}

#[test]
fn accept_admin_fails_while_nothing_is_pending() {
    let mut st = BridgeState::new();
    initialize(&mut st, &auth(&[ADMIN]), addr(ADMIN)).unwrap();
    assert_eq!(
        accept_admin(&mut st, &auth(&[ADMIN])),
        Err(BridgeError::NotAuthorized)
    );
}

#[test]
fn register_and_read_back_a_pair() {
    let st = bridge_with_pair();
    assert_eq!(get_all_token_pair_name(&st), &vec![vec![b'a', b'b']]);
    let p = get_token_pair(&st, &vec![b'a', b'b']);
    assert_eq!(
        p,
        TokenPair {
            owner: addr(ADMIN),
            erc20: addr(ERC20_ASSET),
            erc20_decimals: 6,
            oep4: addr(OEP4_ASSET),
            oep4_decimals: 18,
        }
    );
}

#[test]
fn register_same_name_twice_fails() {
    let mut st = bridge_with_pair();
    // Whatever the other parameters are, the name is taken.
    assert_eq!(
        register_token_pair(&mut st, &auth(&[ADMIN]), vec![b'a', b'b'], addr(31), 8, addr(32), 9),
        Err(BridgeError::PairAlreadyRegistered)
    );
    // A different name still works.
    assert_eq!(
        register_token_pair(&mut st, &auth(&[ADMIN]), vec![b'c'], addr(31), 8, addr(32), 9),
        Ok(())
    );
    assert_eq!(get_all_token_pair_name(&st).len(), 2);
}

#[test]
fn register_zero_asset_addresses_fail() {
    let mut st = BridgeState::new();
    initialize(&mut st, &auth(&[ADMIN]), addr(ADMIN)).unwrap();
    // A zero ORC20-side (ERC20) address always fails, whatever else is
    // passed.
    assert_eq!(
        register_token_pair(&mut st, &auth(&[ADMIN]), vec![b'x'], addr(OEP4_ASSET), 18, addr(0), 6),
        Err(BridgeError::ZeroAddressNotAllowed)
    );
    assert_eq!(
        register_token_pair(&mut st, &auth(&[ADMIN]), vec![], addr(5), 0, addr(0), 200),
        Err(BridgeError::ZeroAddressNotAllowed)
    );
    // So does a zero OEP4-side address.
    assert_eq!(
        register_token_pair(&mut st, &auth(&[ADMIN]), vec![b'x'], addr(0), 18, addr(ERC20_ASSET), 6),
        Err(BridgeError::ZeroAddressNotAllowed)
    );
    assert!(get_all_token_pair_name(&st).is_empty());
}

#[test]
fn register_needs_the_admin() {
    let mut st = BridgeState::new();
    initialize(&mut st, &auth(&[ADMIN]), addr(ADMIN)).unwrap();
    assert_eq!(
        register_token_pair(&mut st, &auth(&[9]), vec![b'x'], addr(21), 18, addr(22), 6),
        Err(BridgeError::NotAuthorized)
    );
}

#[test]
fn get_token_pair_of_unknown_name_is_the_zero_record() {
    let st = bridge_with_pair();
    let p = get_token_pair(&st, &vec![b'n', b'o']);
    assert_eq!(
        p,
        TokenPair {
            owner: addr(0),
            erc20: addr(0),
            erc20_decimals: 0,
            oep4: addr(0),
            oep4_decimals: 0,
        }
    );
}

#[test]
fn transfer_token_pair_owner_gates_and_event() {
    let mut st = bridge_with_pair();
    let name = vec![b'a', b'b'];
    assert_eq!(
        transfer_token_pair_owner(&mut st, &auth(&[ADMIN]), &vec![b'n', b'o'], addr(9)),
        Err(BridgeError::PairNotFound)
    );
    assert_eq!(
        transfer_token_pair_owner(&mut st, &auth(&[9]), &name, addr(9)),
        Err(BridgeError::NotAuthorized)
    );
    // The admin may hand the pair to 9.
    assert_eq!(
        transfer_token_pair_owner(&mut st, &auth(&[ADMIN]), &name, addr(9)),
        Ok(BridgeEvent::TokenPairOwner { old_owner: addr(ADMIN), new_owner: addr(9) })
    );
    assert_eq!(get_token_pair(&st, &name).owner, addr(9));
    // The owner may hand it on.
    assert_eq!(
        transfer_token_pair_owner(&mut st, &auth(&[9]), &name, addr(11)),
        Ok(BridgeEvent::TokenPairOwner { old_owner: addr(9), new_owner: addr(11) })
    );
    assert_eq!(get_token_pair(&st, &name).owner, addr(11));
}

#[test]
fn frozen_pair_refuses_reconfiguration() {
    let mut st = bridge_with_pair();
    let name = vec![b'a', b'b'];
    transfer_token_pair_owner(&mut st, &auth(&[ADMIN]), &name, addr(9)).unwrap();
    // The owner freezes the pair.
    transfer_token_pair_owner(&mut st, &auth(&[9]), &name, addr(0)).unwrap();
    assert_eq!(get_token_pair(&st, &name).owner, addr(0));
    // No caller can update a frozen pair: updates go through the owner
    // field alone, and no witness covers the zero address.
    for caller in [9u128, ADMIN, 0] {
        assert_eq!(
            update_token_pair(
                &mut st,
                &auth(&[caller]),
                &name,
                addr(31),
                8,
                addr(32),
                9,
                addr(41),
                addr(42),
                0,
                0
            ),
            Err(BridgeError::NotAuthorized)
        );
    }
    // The former owner cannot take the pair back either.
    assert_eq!(
        transfer_token_pair_owner(&mut st, &auth(&[9]), &name, addr(9)),
        Err(BridgeError::NotAuthorized)
    );
    // The admin's authority does not go through the frozen owner field,
    // so the admin alone can still reassign ownership.
    assert_eq!(
        transfer_token_pair_owner(&mut st, &auth(&[ADMIN]), &name, addr(9)),
        Ok(BridgeEvent::TokenPairOwner { old_owner: addr(0), new_owner: addr(9) })
    );
}

#[test]
fn update_token_pair_overwrites_decimals_without_sweeps() {
    let mut st = bridge_with_pair();
    let name = vec![b'a', b'b'];
    // Same addresses: no drain owed, decimals overwritten
    // unconditionally.
    let sweeps = update_token_pair(
        &mut st,
        &auth(&[ADMIN]),
        &name,
        addr(OEP4_ASSET),
        9,
        addr(ERC20_ASSET),
        12,
        addr(0),
        addr(0),
        1_000,
        2_000,
    )
    .unwrap();
    assert_eq!(sweeps.oep4_sweep, None);
    assert_eq!(sweeps.erc20_sweep, None);
    let p = get_token_pair(&st, &name);
    assert_eq!(p.oep4_decimals, 9);
    assert_eq!(p.erc20_decimals, 12);
    assert_eq!(p.oep4, addr(OEP4_ASSET));
    assert_eq!(p.erc20, addr(ERC20_ASSET));
}

#[test]
fn update_token_pair_drains_swapped_assets() {
    let mut st = bridge_with_pair();
    let name = vec![b'a', b'b'];
    // Swapping an asset while a balance of the old one is held needs a
    // sink on that side.
    assert_eq!(
        update_token_pair(
            &mut st,
            &auth(&[ADMIN]),
            &name,
            addr(31),
            18,
            addr(ERC20_ASSET),
            6,
            addr(0),
            addr(0),
            1_000,
            0
        ),
        Err(BridgeError::MissingSinkAccount)
    );
    // With sinks supplied, both sides drain their old assets in full.
    let sweeps = update_token_pair(
        &mut st,
        &auth(&[ADMIN]),
        &name,
        addr(31),
        18,
        addr(32),
        6,
        addr(41),
        addr(42),
        1_000,
        2_000,
    )
    .unwrap();
    assert_eq!(
        sweeps.oep4_sweep,
        Some(TransferAction { asset: addr(OEP4_ASSET), to: addr(42), amount: 1_000 })
    );
    assert_eq!(
        sweeps.erc20_sweep,
        Some(TransferAction { asset: addr(ERC20_ASSET), to: addr(41), amount: 2_000 })
    );
    let p = get_token_pair(&st, &name);
    assert_eq!(p.oep4, addr(31));
    assert_eq!(p.erc20, addr(32));
}

#[test]
fn update_token_pair_keeps_old_asset_on_zero_address() {
    let mut st = bridge_with_pair();
    let name = vec![b'a', b'b'];
    // A zero new address means "leave the asset alone"; a zero-balance
    // swap needs no sink.
    let sweeps = update_token_pair(
        &mut st,
        &auth(&[ADMIN]),
        &name,
        addr(0),
        7,
        addr(33),
        8,
        addr(41),
        addr(0),
        5_000,
        0,
    )
    .unwrap();
    assert_eq!(sweeps.oep4_sweep, None);
    assert_eq!(sweeps.erc20_sweep, None);
    let p = get_token_pair(&st, &name);
    assert_eq!(p.oep4, addr(OEP4_ASSET));
    assert_eq!(p.oep4_decimals, 7);
    assert_eq!(p.erc20, addr(33));
    assert_eq!(p.erc20_decimals, 8);
}

#[test]
fn conversion_truncates_towards_the_coarser_side() {
    // decimalsB = 18 (OEP4 source), decimalsA = 6 (ORC20 destination):
    // scale = 12, remainder of 1_500_000_000_000 mod 10^12 is
    // 500_000_000_000, so 1_000_000_000_000 is pulled.
    let st = bridge_with_pair();
    let name = vec![b'a', b'b'];
    let pull =
        oep4_to_orc20(&st, &auth(&[9]), addr(9), addr(51), 1_500_000_000_000, &name).unwrap();
    assert_eq!(pull.direction, Direction::Oep4ToOrc20);
    assert_eq!(pull.src_asset, addr(OEP4_ASSET));
    assert_eq!(pull.dst_asset, addr(ERC20_ASSET));
    assert_eq!(pull.amount, 1_000_000_000_000);
    assert_eq!(pull.amount % pow_ten(12), 0);
    // The full truncated amount observed as delta credits exactly 1.
    let outcome = settle_conversion(&pull, 0, 1_000_000_000_000);
    assert_eq!(outcome.amount, 1);
    assert_eq!(
        outcome.push,
        Some(TransferAction { asset: addr(ERC20_ASSET), to: addr(51), amount: 1 })
    );
    assert_eq!(
        outcome.event,
        BridgeEvent::Oep4ToOrc20 {
            ont_acct: addr(9),
            eth_acct: addr(51),
            amount: 1_000_000_000_000,
            erc20_amt: 1,
            oep4_addr: addr(OEP4_ASSET),
            erc20_addr: addr(ERC20_ASSET),
        }
    );
}

#[test]
fn conversion_request_gates() {
    let st = bridge_with_pair();
    let name = vec![b'a', b'b'];
    assert_eq!(
        oep4_to_orc20(&st, &auth(&[11]), addr(9), addr(51), 10, &name),
        Err(BridgeError::NotAuthorized)
    );
    assert_eq!(
        oep4_to_orc20(&st, &auth(&[9]), addr(9), addr(51), 0, &name),
        Err(BridgeError::ZeroAmountNotAllowed)
    );
    assert_eq!(
        oep4_to_orc20(&st, &auth(&[9]), addr(9), addr(51), 10, &vec![b'n', b'o']),
        Err(BridgeError::PairNotFound)
    );
    assert_eq!(
        orc20_to_oep4(&st, &auth(&[9]), addr(9), addr(51), 0, &name),
        Err(BridgeError::ZeroAmountNotAllowed)
    );
}

#[test]
fn zero_observed_delta_settles_as_a_no_op() {
    let st = bridge_with_pair();
    let name = vec![b'a', b'b'];
    let pull = oep4_to_orc20(&st, &auth(&[9]), addr(9), addr(51), 3_000_000_000_000, &name).unwrap();
    let outcome = settle_conversion(&pull, 5_000, 5_000);
    assert_eq!(outcome.amount, 0);
    assert_eq!(outcome.push, None);
    assert_eq!(
        outcome.event,
        BridgeEvent::Oep4ToOrc20 {
            ont_acct: addr(9),
            eth_acct: addr(51),
            amount: 3_000_000_000_000,
            erc20_amt: 0,
            oep4_addr: addr(OEP4_ASSET),
            erc20_addr: addr(ERC20_ASSET),
        }
    );
}

#[test]
fn settlement_follows_the_observed_delta_not_the_request() {
    let st = bridge_with_pair();
    let name = vec![b'a', b'b'];
    let pull = oep4_to_orc20(&st, &auth(&[9]), addr(9), addr(51), 5_000_000_000_000, &name).unwrap();
    assert_eq!(pull.amount, 5_000_000_000_000);
    // A fee-charging asset delivered less than requested: only the
    // delta is scaled and credited.
    let short = settle_conversion(&pull, 1_000, 2_000_000_000_001_000);
    assert_eq!(short.amount, 2_000);
    // Delivered less than one destination unit: nothing is credited.
    let dust = settle_conversion(&pull, 0, 999_999_999_999);
    assert_eq!(dust.amount, 0);
    assert_eq!(dust.push, None);
}

#[test]
fn reverse_conversion_truncates_and_scales_up() {
    // Mirror pair: ORC20 side is the finer-grained one.
    let mut st = BridgeState::new();
    initialize(&mut st, &auth(&[ADMIN]), addr(ADMIN)).unwrap();
    register_token_pair(&mut st, &auth(&[ADMIN]), vec![b'm'], addr(21), 6, addr(22), 18).unwrap();
    let name = vec![b'm'];
    // ORC20 (18) -> OEP4 (6): truncation on the way in.
    let pull =
        orc20_to_oep4(&st, &auth(&[9]), addr(9), addr(51), 1_500_000_000_000, &name).unwrap();
    assert_eq!(pull.direction, Direction::Orc20ToOep4);
    assert_eq!(pull.src_asset, addr(22));
    assert_eq!(pull.dst_asset, addr(21));
    assert_eq!(pull.amount, 1_000_000_000_000);
    let outcome = settle_conversion(&pull, 0, 1_000_000_000_000);
    assert_eq!(outcome.amount, 1);
    assert_eq!(
        outcome.push,
        Some(TransferAction { asset: addr(21), to: addr(9), amount: 1 })
    );
    // OEP4 (6) -> ORC20 (18): no truncation, the delta scales up.
    let up = oep4_to_orc20(&st, &auth(&[9]), addr(9), addr(51), 125, &name).unwrap();
    assert_eq!(up.amount, 125);
    let up_outcome = settle_conversion(&up, 0, 3);
    assert_eq!(up_outcome.amount, 3_000_000_000_000);
    assert_eq!(
        up_outcome.event,
        BridgeEvent::Oep4ToOrc20 {
            ont_acct: addr(9),
            eth_acct: addr(51),
            amount: 125,
            erc20_amt: 3_000_000_000_000,
            oep4_addr: addr(21),
            erc20_addr: addr(22),
        }
    );
}

#[test]
fn migrate_is_admin_only_and_plans_every_asset() {
    let mut st = bridge_with_pair();
    register_token_pair(&mut st, &auth(&[ADMIN]), vec![b'c'], addr(61), 8, addr(62), 8).unwrap();
    // A non-admin fails before anything is enumerated or moved.
    assert_eq!(migrate(&st, &auth(&[9])), Err(BridgeError::NotAuthorized));
    let plan = migrate(&st, &auth(&[ADMIN])).unwrap();
    assert_eq!(
        plan,
        vec![
            SweepAsset::NativeOnt,
            SweepAsset::NativeOng,
            SweepAsset::Oep4(addr(OEP4_ASSET)),
            SweepAsset::Erc20(addr(ERC20_ASSET)),
            SweepAsset::Oep4(addr(61)),
            SweepAsset::Erc20(addr(62)),
        ]
    );
}

#[test]
fn migrate_sweeps_refuse_a_zero_target_and_skip_zero_balances() {
    let st = bridge_with_pair();
    let plan = migrate(&st, &auth(&[ADMIN])).unwrap();
    let balances = vec![0, 5, 0, 7];
    assert_eq!(
        migrate_sweeps(&plan, &balances, addr(0)),
        Err(BridgeError::MigrationFailed)
    );
    let ts = migrate_sweeps(&plan, &balances, addr(99)).unwrap();
    assert_eq!(
        ts,
        vec![
            SweepTransfer { asset: SweepAsset::NativeOng, amount: 5 },
            SweepTransfer { asset: SweepAsset::Erc20(addr(ERC20_ASSET)), amount: 7 },
        ]
    );
}

#[test]
fn pow_ten_exact_values() {
    assert_eq!(pow_ten(0), 1);
    assert_eq!(pow_ten(1), 10);
    assert_eq!(pow_ten(12), 1_000_000_000_000);
    assert_eq!(pow_ten(38), 100_000_000_000_000_000_000_000_000_000_000_000_000);
}

#[test]
fn event_builders_carry_their_fields() {
    assert_eq!(
        new_pending_admin_event(addr(9)),
        BridgeEvent::PendingAdmin { new_pending_admin: addr(9) }
    );
    assert_eq!(
        new_admin_event(addr(7), addr(9)),
        BridgeEvent::NewAdmin { old_admin: addr(7), new_admin: addr(9) }
    );
    assert_eq!(
        transfer_token_pair_owner_evt(addr(7), addr(0)),
        BridgeEvent::TokenPairOwner { old_owner: addr(7), new_owner: addr(0) }
    );
    assert_eq!(
        oep4_to_orc20_event(addr(1), addr(2), 3, 4, addr(5), addr(6)),
        BridgeEvent::Oep4ToOrc20 {
            ont_acct: addr(1),
            eth_acct: addr(2),
            amount: 3,
            erc20_amt: 4,
            oep4_addr: addr(5),
            erc20_addr: addr(6),
        }
    );
    assert_eq!(
        orc20_to_oep4_event(addr(1), addr(2), 3, 4, addr(5), addr(6)),
        BridgeEvent::Orc20ToOep4 {
            ont_acct: addr(1),
            eth_acct: addr(2),
            amount: 3,
            oep4_amt: 4,
            oep4_addr: addr(5),
            erc20_addr: addr(6),
        }
    );
}

#[test]
fn equal_decimals_convert_one_to_one() {
    let mut st = BridgeState::new();
    initialize(&mut st, &auth(&[ADMIN]), addr(ADMIN)).unwrap();
    register_token_pair(&mut st, &auth(&[ADMIN]), vec![b'e'], addr(21), 9, addr(22), 9).unwrap();
    let name = vec![b'e'];
    // No precision gap: nothing is truncated and the delta passes
    // through unscaled.
    let pull = oep4_to_orc20(&st, &auth(&[9]), addr(9), addr(51), 777, &name).unwrap();
    assert_eq!(pull.amount, 777);
    let outcome = settle_conversion(&pull, 100, 877);
    assert_eq!(outcome.amount, 777);
    assert_eq!(
        outcome.push,
        Some(TransferAction { asset: addr(22), to: addr(51), amount: 777 })
    );
}

#[test]
fn the_empty_name_is_a_name_like_any_other() {
    let mut st = BridgeState::new();
    initialize(&mut st, &auth(&[ADMIN]), addr(ADMIN)).unwrap();
    assert_eq!(
        register_token_pair(&mut st, &auth(&[ADMIN]), vec![], addr(21), 3, addr(22), 4),
        Ok(())
    );
    assert_eq!(get_token_pair(&st, &vec![]).oep4, addr(21));
    assert_eq!(
        register_token_pair(&mut st, &auth(&[ADMIN]), vec![], addr(31), 3, addr(32), 4),
        Err(BridgeError::PairAlreadyRegistered)
    );
}

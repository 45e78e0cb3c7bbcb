//! The migration coordinator: plans the sweep of every held balance to
//! a freshly deployed contract instance.
//!
//! `migrate` gates the operation on the admin and enumerates the assets
//! whose custody balances must move: the two native asset kinds, then
//! both sides of every registered pair, in registration order.  The
//! host deploys the new code through the platform's migration
//! primitive, observes each balance, and `migrate_sweeps` turns those
//! observations into the transfers owed — refusing a zero new-contract
//! address (the primitive's failure signal) and skipping assets whose
//! balance is already zero.

use vstd::prelude::*;

use crate::state::{spec_authorized, authorized_as, Address, BridgeError, BridgeState, BridgeView};

verus! {

/// One asset kind whose custody balance a migration must sweep.
#[derive(Clone, Copy, PartialEq, Eq, Structural, Debug)]
pub enum SweepAsset {
    /// The platform's first native asset.
    NativeOnt,
    /// The platform's second native asset.
    NativeOng,
    /// The OEP4-side asset of a registered pair.
    Oep4(Address),
    /// The ORC20-side asset of a registered pair.
    Erc20(Address),
}

/// One transfer a migration owes: the contract's whole held balance of
/// `asset`, to the new contract instance.
#[derive(Clone, Copy, PartialEq, Eq, Structural, Debug)]
pub struct SweepTransfer {
    pub asset: SweepAsset,
    pub amount: u128,
}

/// The assets a migration of state `v` must sweep: the two native
/// kinds, then both sides of every registered pair, in registration
/// order.
pub open spec fn migrate_assets_spec(v: BridgeView) -> Seq<SweepAsset> {
    seq![SweepAsset::NativeOnt, SweepAsset::NativeOng] + Seq::new(
        2 * v.pairs.len(),
        |i: int|
            if i % 2 == 0 {
                SweepAsset::Oep4(v.pairs[i / 2].oep4)
            } else {
                SweepAsset::Erc20(v.pairs[i / 2].erc20)
            },
    )
}

/// Starts a migration: admin-only, and failing before any balance is
/// observed or moved and before the migration primitive is invoked.
/// On success, returns the full list of assets whose balances the host
/// must observe and sweep.
pub fn migrate(state: &BridgeState, auth: &Vec<Address>) -> (r: Result<
    Vec<SweepAsset>,
    BridgeError,
>)
    requires
        state@.wf(),
    ensures
        r is Ok <==> spec_authorized(auth@, state@.admin),
        r matches Ok(assets) ==> assets@ == migrate_assets_spec(state@),
        r is Err ==> r == Err::<Vec<SweepAsset>, BridgeError>(BridgeError::NotAuthorized),
{
    if !authorized_as(auth, state.admin) {
        return Err(BridgeError::NotAuthorized);
    }
    let mut assets: Vec<SweepAsset> = Vec::new();
    assets.push(SweepAsset::NativeOnt);
    assets.push(SweepAsset::NativeOng);
    let n = state.pairs.len();
    let mut i: usize = 0;
    while i < n
        invariant
            n == state.pairs@.len(),
            0 <= i <= n,
            assets@.len() == 2 + 2 * i,
            assets@[0] == SweepAsset::NativeOnt,
            assets@[1] == SweepAsset::NativeOng,
            forall|j: int|
                0 <= j < i ==> assets@[2 + 2 * j] == SweepAsset::Oep4(
                    #[trigger] state.pairs@[j].oep4,
                ) && assets@[3 + 2 * j] == SweepAsset::Erc20(state.pairs@[j].erc20),
        decreases n - i,
    {
        assets.push(SweepAsset::Oep4(state.pairs[i].oep4));
        assets.push(SweepAsset::Erc20(state.pairs[i].erc20));
        i += 1;
    }
    proof {
        let spec_seq = migrate_assets_spec(state@);
        assert forall|k: int| 0 <= k < assets@.len() implies assets@[k] == spec_seq[k] by {
            if k >= 2 {
                let j = (k - 2) / 2;
                vstd::arithmetic::div_mod::lemma_fundamental_div_mod(k - 2, 2);
                if (k - 2) % 2 == 0 {
                    assert(k == 2 + 2 * j);
                } else {
                    assert(k == 3 + 2 * j);
                }
            }
        }
        assert(assets@ =~= spec_seq);
    }
    Ok(assets)
}

/// The transfers owed for observed balances: one per asset whose
/// balance is non-zero, in enumeration order, each for the whole
/// balance.
pub open spec fn sweep_transfers_spec(assets: Seq<SweepAsset>, balances: Seq<u128>) -> Seq<
    SweepTransfer,
>
    decreases assets.len(),
{
    if assets.len() == 0 {
        Seq::empty()
    } else {
        let rest = sweep_transfers_spec(assets.drop_last(), balances.drop_last());
        if balances[assets.len() - 1] != 0 {
            rest.push(
                SweepTransfer { asset: assets.last(), amount: balances[assets.len() - 1] },
            )
        } else {
            rest
        }
    }
}

/// Finishes a migration plan once the host has deployed the new code
/// and observed the balance of each planned asset, in plan order.  A
/// zero new-contract address means the migration primitive failed and
/// aborts the call; otherwise every non-zero balance becomes one
/// transfer to the new instance, and zero balances are skipped as
/// permitted no-ops.
pub fn migrate_sweeps(
    assets: &Vec<SweepAsset>,
    balances: &Vec<u128>,
    new_addr: Address,
) -> (r: Result<Vec<SweepTransfer>, BridgeError>)
    requires
        assets@.len() == balances@.len(),
    ensures
        new_addr.is_zero() ==> r == Err::<Vec<SweepTransfer>, BridgeError>(
            BridgeError::MigrationFailed,
        ),
        !new_addr.is_zero() ==> (r matches Ok(ts) && ts@ == sweep_transfers_spec(
            assets@,
            balances@,
        )),
{
    if new_addr.is_zero() {
        return Err(BridgeError::MigrationFailed);
    }
    let mut ts: Vec<SweepTransfer> = Vec::new();
    let n = assets.len();
    let mut i: usize = 0;
    while i < n
        invariant
            n == assets@.len(),
            assets@.len() == balances@.len(),
            0 <= i <= n,
            ts@ == sweep_transfers_spec(assets@.take(i as int), balances@.take(i as int)),
        decreases n - i,
    {
        proof {
            assert(assets@.take(i + 1).drop_last() =~= assets@.take(i as int));
            assert(balances@.take(i + 1).drop_last() =~= balances@.take(i as int));
            assert(assets@.take(i + 1).last() == assets@[i as int]);
            assert(balances@.take(i + 1)[i as int] == balances@[i as int]);
        }
        if balances[i] != 0 {
            ts.push(SweepTransfer { asset: assets[i], amount: balances[i] });
        }
        i += 1;
    }
    proof {
        assert(assets@.take(n as int) =~= assets@);
        assert(balances@.take(n as int) =~= balances@);
    }
    Ok(ts)
}

} // verus!

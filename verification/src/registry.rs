//! The token-pair registry: a durable catalogue of named bridge pairs,
//! each binding one ORC20-side asset to one OEP4-side asset with their
//! declared decimal precisions.

use vstd::prelude::*;

use crate::events::{transfer_token_pair_owner_evt, BridgeEvent};
use crate::state::{
    spec_authorized, authorized_as, Address, BridgeError, BridgeState, BridgeView, TokenPair,
    TransferAction,
};

verus! {

/// The asset drains that a successful `update_token_pair` asks the host
/// to perform: for each side whose asset address is swapped out while a
/// non-zero balance of the old asset is held, that whole balance moves
/// to the caller-supplied sink account.
#[derive(Clone, Copy, PartialEq, Eq, Debug)]
pub struct UpdateSweeps {
    /// Drain of the old OEP4-side asset, if one is owed.
    pub oep4_sweep: Option<TransferAction>,
    /// Drain of the old ORC20-side asset, if one is owed.
    pub erc20_sweep: Option<TransferAction>,
}

/// The outcome of `register_token_pair`.
pub open spec fn register_token_pair_spec(
    v: BridgeView,
    auth: Seq<Address>,
    name: Seq<u8>,
    oep4_addr: Address,
    oep4_decimals: u32,
    erc20_addr: Address,
    erc20_decimals: u32,
) -> (Result<(), BridgeError>, BridgeView) {
    if !spec_authorized(auth, v.admin) {
        (Err(BridgeError::NotAuthorized), v)
    } else if oep4_addr.is_zero() {
        (Err(BridgeError::ZeroAddressNotAllowed), v)
    } else if erc20_addr.is_zero() {
        (Err(BridgeError::ZeroAddressNotAllowed), v)
    } else if v.has_pair(name) {
        (Err(BridgeError::PairAlreadyRegistered), v)
    } else {
        (
            Ok(()),
            BridgeView {
                admin: v.admin,
                pending_admin: v.pending_admin,
                names: v.names.push(name),
                pairs: v.pairs.push(
                    TokenPair {
                        owner: v.admin,
                        erc20: erc20_addr,
                        erc20_decimals,
                        oep4: oep4_addr,
                        oep4_decimals,
                    },
                ),
            },
        )
    }
}

/// Registers a new bridge pair under `token_pair_name`.  Admin-only;
/// both asset addresses must be non-zero; a name that already resolves
/// to a pair is never reusable.  The admin starts as the pair's owner.
pub fn register_token_pair(
    state: &mut BridgeState,
    auth: &Vec<Address>,
    token_pair_name: Vec<u8>,
    oep4_addr: Address,
    oep4_decimals: u32,
    erc20_addr: Address,
    erc20_decimals: u32,
) -> (r: Result<(), BridgeError>)
    requires
        old(state)@.wf(),
    ensures
        final(state)@.wf(),
        r == register_token_pair_spec(
            old(state)@,
            auth@,
            token_pair_name@,
            oep4_addr,
            oep4_decimals,
            erc20_addr,
            erc20_decimals,
        ).0,
        final(state)@ == register_token_pair_spec(
            old(state)@,
            auth@,
            token_pair_name@,
            oep4_addr,
            oep4_decimals,
            erc20_addr,
            erc20_decimals,
        ).1,
{
    if !authorized_as(auth, state.admin) {
        return Err(BridgeError::NotAuthorized);
    }
    if oep4_addr.is_zero() {
        return Err(BridgeError::ZeroAddressNotAllowed);
    }
    if erc20_addr.is_zero() {
        return Err(BridgeError::ZeroAddressNotAllowed);
    }
    if state.find_name(&token_pair_name).is_some() {
        return Err(BridgeError::PairAlreadyRegistered);
    }
    let pair = TokenPair {
        owner: state.admin,
        erc20: erc20_addr,
        erc20_decimals,
        oep4: oep4_addr,
        oep4_decimals,
    };
    state.names.push(token_pair_name);
    state.pairs.push(pair);
    proof {
        let v = old(state)@;
        let post = register_token_pair_spec(
            v,
            auth@,
            token_pair_name@,
            oep4_addr,
            oep4_decimals,
            erc20_addr,
            erc20_decimals,
        ).1;
        assert(final(state)@.names =~= post.names);
        assert(final(state)@ =~= post);
        assert forall|i: int, j: int|
            0 <= i < j < post.names.len() implies post.names[i] != post.names[j] by {
            if j < v.names.len() {
            } else {
                assert(post.names[j] == token_pair_name@);
                assert(!v.names.contains(token_pair_name@));
            }
        }
    }
    Ok(())
}

/// The full ordered index of registered pair names, oldest first.
pub fn get_all_token_pair_name(state: &BridgeState) -> (r: &Vec<Vec<u8>>)
    ensures
        r@.map_values(|n: Vec<u8>| n@) == state@.names,
{
    &state.names
}

/// The pair registered under `token_pair_name`, or the all-zero default
/// record if the name was never registered.  Callers tell the two apart
/// by the default-value convention: a registered pair never has zero
/// asset addresses.
pub fn get_token_pair(state: &BridgeState, token_pair_name: &Vec<u8>) -> (r: TokenPair)
    requires
        state@.wf(),
    ensures
        state@.has_pair(token_pair_name@) ==> r == state@.pair_at(token_pair_name@),
        !state@.has_pair(token_pair_name@) ==> r == TokenPair::spec_default(),
{
    match state.lookup(token_pair_name) {
        Some(p) => p,
        None => TokenPair::default(),
    }
}

/// The outcome of `transfer_token_pair_owner`.
pub open spec fn transfer_token_pair_owner_spec(
    v: BridgeView,
    auth: Seq<Address>,
    name: Seq<u8>,
    new_owner: Address,
) -> (Result<BridgeEvent, BridgeError>, BridgeView) {
    if !v.has_pair(name) {
        (Err(BridgeError::PairNotFound), v)
    } else {
        let p = v.pair_at(name);
        if !(spec_authorized(auth, v.admin) || spec_authorized(auth, p.owner)) {
            (Err(BridgeError::NotAuthorized), v)
        } else {
            (
                Ok(BridgeEvent::TokenPairOwner { old_owner: p.owner, new_owner }),
                BridgeView {
                    admin: v.admin,
                    pending_admin: v.pending_admin,
                    names: v.names,
                    pairs: v.pairs.update(
                        v.name_index(name),
                        TokenPair {
                            owner: new_owner,
                            erc20: p.erc20,
                            erc20_decimals: p.erc20_decimals,
                            oep4: p.oep4,
                            oep4_decimals: p.oep4_decimals,
                        },
                    ),
                },
            )
        }
    }
}

/// Overwrites the owner of a registered pair.  Allowed for the admin or
/// the pair's current owner.  `new_owner` may be zero: that freezes the
/// pair, permanently disabling `update_token_pair` (no witness ever
/// covers the zero address).
pub fn transfer_token_pair_owner(
    state: &mut BridgeState,
    auth: &Vec<Address>,
    token_pair_name: &Vec<u8>,
    new_owner: Address,
) -> (r: Result<BridgeEvent, BridgeError>)
    requires
        old(state)@.wf(),
    ensures
        final(state)@.wf(),
        r == transfer_token_pair_owner_spec(old(state)@, auth@, token_pair_name@, new_owner).0,
        final(state)@ == transfer_token_pair_owner_spec(
            old(state)@,
            auth@,
            token_pair_name@,
            new_owner,
        ).1,
{
    let idx = match state.find_name(token_pair_name) {
        Some(i) => i,
        None => {
            return Err(BridgeError::PairNotFound);
        },
    };
    let p = state.pairs[idx];
    if !(authorized_as(auth, state.admin) || authorized_as(auth, p.owner)) {
        return Err(BridgeError::NotAuthorized);
    }
    state.pairs[idx] = TokenPair {
        owner: new_owner,
        erc20: p.erc20,
        erc20_decimals: p.erc20_decimals,
        oep4: p.oep4,
        oep4_decimals: p.oep4_decimals,
    };
    proof {
        assert(final(state)@ =~= transfer_token_pair_owner_spec(
            old(state)@,
            auth@,
            token_pair_name@,
            new_owner,
        ).1);
    }
    Ok(transfer_token_pair_owner_evt(p.owner, new_owner))
}

/// The outcome of `update_token_pair`, given the contract's observed
/// balances of the pair's current assets.
pub open spec fn update_token_pair_spec(
    v: BridgeView,
    auth: Seq<Address>,
    name: Seq<u8>,
    oep4_addr: Address,
    oep4_decimals: u32,
    erc20_addr: Address,
    erc20_decimals: u32,
    eth_acct: Address,
    ont_acct: Address,
    oep4_balance: u128,
    erc20_balance: u128,
) -> (Result<UpdateSweeps, BridgeError>, BridgeView) {
    if !v.has_pair(name) {
        (Err(BridgeError::PairNotFound), v)
    } else {
        let p = v.pair_at(name);
        if !spec_authorized(auth, p.owner) {
            (Err(BridgeError::NotAuthorized), v)
        } else {
            let change_oep4 = p.oep4 != oep4_addr && !oep4_addr.is_zero();
            let change_erc20 = p.erc20 != erc20_addr && !erc20_addr.is_zero();
            if change_oep4 && oep4_balance != 0 && ont_acct.is_zero() {
                (Err(BridgeError::MissingSinkAccount), v)
            } else if change_erc20 && erc20_balance != 0 && eth_acct.is_zero() {
                (Err(BridgeError::MissingSinkAccount), v)
            } else {
                (
                    Ok(
                        UpdateSweeps {
                            oep4_sweep: if change_oep4 && oep4_balance != 0 {
                                Some(
                                    TransferAction {
                                        asset: p.oep4,
                                        to: ont_acct,
                                        amount: oep4_balance,
                                    },
                                )
                            } else {
                                None
                            },
                            erc20_sweep: if change_erc20 && erc20_balance != 0 {
                                Some(
                                    TransferAction {
                                        asset: p.erc20,
                                        to: eth_acct,
                                        amount: erc20_balance,
                                    },
                                )
                            } else {
                                None
                            },
                        },
                    ),
                    BridgeView {
                        admin: v.admin,
                        pending_admin: v.pending_admin,
                        names: v.names,
                        pairs: v.pairs.update(
                            v.name_index(name),
                            TokenPair {
                                owner: p.owner,
                                erc20: if change_erc20 {
                                    erc20_addr
                                } else {
                                    p.erc20
                                },
                                erc20_decimals,
                                oep4: if change_oep4 {
                                    oep4_addr
                                } else {
                                    p.oep4
                                },
                                oep4_decimals,
                            },
                        ),
                    },
                )
            }
        }
    }
}

/// Reconfigures a registered pair.  Owner-only.  For each side whose new
/// asset address differs from the current one and is non-zero, the
/// contract's whole held balance of the old asset (observed by the
/// caller and passed in) must first drain to the matching sink account —
/// a zero sink fails the call while such a balance exists — and the new
/// address is swapped in; a zero or unchanged new address leaves the old
/// one in place.  Both decimal fields are overwritten unconditionally.
///
/// `oep4_balance` and `erc20_balance` are the contract's balances of the
/// pair's current OEP4-side and ORC20-side assets, as the host observed
/// them; the returned sweeps are what the host must then perform.
pub fn update_token_pair(
    state: &mut BridgeState,
    auth: &Vec<Address>,
    token_pair_name: &Vec<u8>,
    oep4_addr: Address,
    oep4_decimals: u32,
    erc20_addr: Address,
    erc20_decimals: u32,
    eth_acct: Address,
    ont_acct: Address,
    oep4_balance: u128,
    erc20_balance: u128,
) -> (r: Result<UpdateSweeps, BridgeError>)
    requires
        old(state)@.wf(),
    ensures
        final(state)@.wf(),
        r == update_token_pair_spec(
            old(state)@,
            auth@,
            token_pair_name@,
            oep4_addr,
            oep4_decimals,
            erc20_addr,
            erc20_decimals,
            eth_acct,
            ont_acct,
            oep4_balance,
            erc20_balance,
        ).0,
        final(state)@ == update_token_pair_spec(
            old(state)@,
            auth@,
            token_pair_name@,
            oep4_addr,
            oep4_decimals,
            erc20_addr,
            erc20_decimals,
            eth_acct,
            ont_acct,
            oep4_balance,
            erc20_balance,
        ).1,
{
    let idx = match state.find_name(token_pair_name) {
        Some(i) => i,
        None => {
            return Err(BridgeError::PairNotFound);
        },
    };
    let p = state.pairs[idx];
    if !authorized_as(auth, p.owner) {
        return Err(BridgeError::NotAuthorized);
    }
    let change_oep4 = p.oep4 != oep4_addr && !oep4_addr.is_zero();
    let change_erc20 = p.erc20 != erc20_addr && !erc20_addr.is_zero();
    if change_oep4 && oep4_balance != 0 && ont_acct.is_zero() {
        return Err(BridgeError::MissingSinkAccount);
    }
    if change_erc20 && erc20_balance != 0 && eth_acct.is_zero() {
        return Err(BridgeError::MissingSinkAccount);
    }
    state.pairs[idx] = TokenPair {
        owner: p.owner,
        erc20: if change_erc20 {
            erc20_addr
        } else {
            p.erc20
        },
        erc20_decimals,
        oep4: if change_oep4 {
            oep4_addr
        } else {
            p.oep4
        },
        oep4_decimals,
    };
    proof {
        assert(final(state)@ =~= update_token_pair_spec(
            old(state)@,
            auth@,
            token_pair_name@,
            oep4_addr,
            oep4_decimals,
            erc20_addr,
            erc20_decimals,
            eth_acct,
            ont_acct,
            oep4_balance,
            erc20_balance,
        ).1);
    }
    Ok(
        UpdateSweeps {
            oep4_sweep: if change_oep4 && oep4_balance != 0 {
                Some(TransferAction { asset: p.oep4, to: ont_acct, amount: oep4_balance })
            } else {
                None
            },
            erc20_sweep: if change_erc20 && erc20_balance != 0 {
                Some(TransferAction { asset: p.erc20, to: eth_acct, amount: erc20_balance })
            } else {
                None
            },
        },
    )
}

/// Registry uniqueness: once `register_token_pair` has succeeded for a
/// name, every later registration under that same name fails, whoever
/// calls it and whatever pair it offers.
pub proof fn lemma_register_name_unique(
    v: BridgeView,
    auth1: Seq<Address>,
    name: Seq<u8>,
    oep4_addr1: Address,
    oep4_decimals1: u32,
    erc20_addr1: Address,
    erc20_decimals1: u32,
    auth2: Seq<Address>,
    oep4_addr2: Address,
    oep4_decimals2: u32,
    erc20_addr2: Address,
    erc20_decimals2: u32,
)
    requires
        register_token_pair_spec(
            v,
            auth1,
            name,
            oep4_addr1,
            oep4_decimals1,
            erc20_addr1,
            erc20_decimals1,
        ).0 is Ok,
    ensures
        register_token_pair_spec(
            register_token_pair_spec(
                v,
                auth1,
                name,
                oep4_addr1,
                oep4_decimals1,
                erc20_addr1,
                erc20_decimals1,
            ).1,
            auth2,
            name,
            oep4_addr2,
            oep4_decimals2,
            erc20_addr2,
            erc20_decimals2,
        ).0 is Err,
{
    let post = register_token_pair_spec(
        v,
        auth1,
        name,
        oep4_addr1,
        oep4_decimals1,
        erc20_addr1,
        erc20_decimals1,
    ).1;
    assert(post.names[post.names.len() - 1] == name);
    assert(post.has_pair(name));
}

/// Freeze invariant, reconfiguration half: once a pair's owner is the
/// zero address, `update_token_pair` fails for every caller — no witness
/// ever covers the zero address.
pub proof fn lemma_frozen_pair_update(
    v: BridgeView,
    auth: Seq<Address>,
    name: Seq<u8>,
    oep4_addr: Address,
    oep4_decimals: u32,
    erc20_addr: Address,
    erc20_decimals: u32,
    eth_acct: Address,
    ont_acct: Address,
    oep4_balance: u128,
    erc20_balance: u128,
)
    requires
        v.has_pair(name),
        v.pair_at(name).owner.is_zero(),
    ensures
        update_token_pair_spec(
            v,
            auth,
            name,
            oep4_addr,
            oep4_decimals,
            erc20_addr,
            erc20_decimals,
            eth_acct,
            ont_acct,
            oep4_balance,
            erc20_balance,
        ).0 == Err::<UpdateSweeps, BridgeError>(BridgeError::NotAuthorized),
{
}

/// Freeze invariant, ownership half: once a pair's owner is the zero
/// address, `transfer_token_pair_owner` fails for every caller that is
/// not witnessed as the admin.  (The admin itself can still reassign the
/// owner: its authority does not go through the frozen owner field.)
pub proof fn lemma_frozen_pair_transfer_owner(
    v: BridgeView,
    auth: Seq<Address>,
    name: Seq<u8>,
    new_owner: Address,
)
    requires
        v.has_pair(name),
        v.pair_at(name).owner.is_zero(),
        !spec_authorized(auth, v.admin),
    ensures
        transfer_token_pair_owner_spec(v, auth, name, new_owner).0 == Err::<
            BridgeEvent,
            BridgeError,
        >(BridgeError::NotAuthorized),
{
}

} // verus!

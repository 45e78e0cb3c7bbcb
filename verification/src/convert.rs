//! The conversion engine: exchanges between the two representations of
//! a registered pair, with precision truncation and balance-delta
//! accounting.
//!
//! A conversion runs in two verified steps around one host action.
//! `oep4_to_orc20` / `orc20_to_oep4` validate the request and compute
//! the truncated amount the host must pull into custody; the host
//! performs the pull, recording the contract's source-asset balance
//! immediately before and after; `settle_conversion` then turns the
//! observed custody delta — never the requested amount — into the
//! destination amount and the push the host owes the counterparty.

use vstd::prelude::*;

use vstd::arithmetic::div_mod::{lemma_fundamental_div_mod, lemma_mod_multiples_basic};

use crate::events::{oep4_to_orc20_event, orc20_to_oep4_event, BridgeEvent};
use crate::state::{
    spec_authorized, authorized_as, Address, BridgeError, BridgeState, BridgeView, TransferAction,
};

verus! {

/// Ten to the power `e`.
pub open spec fn pow10(e: nat) -> nat
    decreases e,
{
    if e == 0 {
        1
    } else {
        10 * pow10((e - 1) as nat)
    }
}

pub proof fn lemma_pow10_pos(e: nat)
    ensures
        pow10(e) >= 1,
    decreases e,
{
    if e > 0 {
        lemma_pow10_pos((e - 1) as nat);
    }
}

pub proof fn lemma_pow10_monotone(a: nat, b: nat)
    requires
        a <= b,
    ensures
        pow10(a) <= pow10(b),
    decreases b,
{
    if a < b {
        lemma_pow10_monotone(a, (b - 1) as nat);
        lemma_pow10_pos((b - 1) as nat);
    }
}

/// The largest power of ten that a 128-bit amount can carry.
pub proof fn lemma_pow10_38()
    ensures
        pow10(38) == 100_000_000_000_000_000_000_000_000_000_000_000_000nat,
{
    reveal_with_fuel(pow10, 39);
}

/// Computes ten to the power `e`.
pub fn pow_ten(e: u32) -> (r: u128)
    requires
        e <= 38,
    ensures
        r == pow10(e as nat),
{
    let mut r: u128 = 1;
    let mut i: u32 = 0;
    while i < e
        invariant
            i <= e <= 38,
            r == pow10(i as nat),
        decreases e - i,
    {
        proof {
            lemma_pow10_monotone((i + 1) as nat, 38);
            lemma_pow10_38();
            assert(pow10((i + 1) as nat) == 10 * pow10(i as nat));
        }
        r = r * 10;
        i = i + 1;
    }
    r
}

/// The decimal-precision gap of one conversion direction: how many
/// orders of magnitude separate the source and destination precisions.
pub open spec fn conversion_scale(src_decimals: u32, dst_decimals: u32) -> nat {
    if src_decimals >= dst_decimals {
        (src_decimals - dst_decimals) as nat
    } else {
        (dst_decimals - src_decimals) as nat
    }
}

/// The amount actually pulled from the caller for a requested amount:
/// when the destination is coarser-grained than the source, the request
/// is truncated down to the nearest multiple of `10^scale` — the
/// discarded remainder is never moved, refunded, or credited; otherwise
/// the request is pulled in full.
pub open spec fn pulled_amount_spec(requested: u128, src_decimals: u32, dst_decimals: u32) -> int {
    if src_decimals > dst_decimals {
        requested - requested as int % pow10((src_decimals - dst_decimals) as nat) as int
    } else {
        requested as int
    }
}

/// Truncation correctness: the pulled amount is the requested amount
/// less its remainder modulo `10^(srcDecimals - dstDecimals)`, hence a
/// multiple of that power of ten, and never exceeds the request.
pub proof fn lemma_pulled_amount_multiple(requested: u128, src_decimals: u32, dst_decimals: u32)
    ensures
        0 <= pulled_amount_spec(requested, src_decimals, dst_decimals) <= requested,
        src_decimals > dst_decimals ==> pulled_amount_spec(requested, src_decimals, dst_decimals)
            % pow10((src_decimals - dst_decimals) as nat) as int == 0,
{
    if src_decimals > dst_decimals {
        let m = pow10((src_decimals - dst_decimals) as nat) as int;
        lemma_pow10_pos((src_decimals - dst_decimals) as nat);
        lemma_fundamental_div_mod(requested as int, m);
        lemma_mod_multiples_basic(requested as int / m, m);
        assert(requested as int / m >= 0) by (nonlinear_arith)
            requires
                m > 0,
                requested as int >= 0,
        ;
        assert(pulled_amount_spec(requested, src_decimals, dst_decimals) == m * (requested as int
            / m));
        assert(m * (requested as int / m) >= 0) by (nonlinear_arith)
            requires
                m > 0,
                requested as int / m >= 0,
        ;
    }
}

/// The destination amount owed for an observed custody delta: the delta
/// scaled between the two precisions with exact integer arithmetic —
/// truncating division towards the coarser side, exact multiplication
/// towards the finer side.  It depends on nothing but the delta and the
/// two declared precisions.
pub open spec fn settle_amount_spec(delta: u128, src_decimals: u32, dst_decimals: u32) -> int {
    if src_decimals > dst_decimals {
        delta as int / pow10((src_decimals - dst_decimals) as nat) as int
    } else {
        delta as int * pow10((dst_decimals - src_decimals) as nat) as int
    }
}

/// Which way a conversion runs.
#[derive(Clone, Copy, PartialEq, Eq, Structural, Debug)]
pub enum Direction {
    /// OEP4-side asset in, ORC20-side asset out.
    Oep4ToOrc20,
    /// ORC20-side asset in, OEP4-side asset out.
    Orc20ToOep4,
}

/// A validated conversion request: the pull the host must perform into
/// this contract's custody, together with everything the settlement
/// step needs.
#[derive(Clone, Copy, PartialEq, Eq, Structural, Debug)]
pub struct ConversionPull {
    pub direction: Direction,
    /// The asset pulled into custody.
    pub src_asset: Address,
    /// The asset pushed out at settlement.
    pub dst_asset: Address,
    /// Declared precision of the source side.
    pub src_decimals: u32,
    /// Declared precision of the destination side.
    pub dst_decimals: u32,
    /// The Ontology-side account of the conversion.
    pub ont_acct: Address,
    /// The EVM-side account of the conversion.
    pub eth_acct: Address,
    /// The amount to pull, after truncation.
    pub amount: u128,
}

impl ConversionPull {
    /// The account the destination amount is pushed to.
    pub open spec fn destination_account(self) -> Address {
        match self.direction {
            Direction::Oep4ToOrc20 => self.eth_acct,
            Direction::Orc20ToOep4 => self.ont_acct,
        }
    }

    /// The notification a settlement with destination amount
    /// `dst_amount` emits.
    pub open spec fn settle_event_spec(self, dst_amount: u128) -> BridgeEvent {
        match self.direction {
            Direction::Oep4ToOrc20 => BridgeEvent::Oep4ToOrc20 {
                ont_acct: self.ont_acct,
                eth_acct: self.eth_acct,
                amount: self.amount,
                erc20_amt: dst_amount,
                oep4_addr: self.src_asset,
                erc20_addr: self.dst_asset,
            },
            Direction::Orc20ToOep4 => BridgeEvent::Orc20ToOep4 {
                ont_acct: self.ont_acct,
                eth_acct: self.eth_acct,
                amount: self.amount,
                oep4_amt: dst_amount,
                oep4_addr: self.dst_asset,
                erc20_addr: self.src_asset,
            },
        }
    }
}

/// The outcome of `oep4_to_orc20`.
pub open spec fn oep4_to_orc20_spec(
    v: BridgeView,
    auth: Seq<Address>,
    ont_acct: Address,
    eth_acct: Address,
    amount: u128,
    name: Seq<u8>,
) -> Result<ConversionPull, BridgeError> {
    if !spec_authorized(auth, ont_acct) {
        Err(BridgeError::NotAuthorized)
    } else if amount == 0 {
        Err(BridgeError::ZeroAmountNotAllowed)
    } else if !v.has_pair(name) {
        Err(BridgeError::PairNotFound)
    } else {
        let p = v.pair_at(name);
        Ok(
            ConversionPull {
                direction: Direction::Oep4ToOrc20,
                src_asset: p.oep4,
                dst_asset: p.erc20,
                src_decimals: p.oep4_decimals,
                dst_decimals: p.erc20_decimals,
                ont_acct,
                eth_acct,
                amount: pulled_amount_spec(amount, p.oep4_decimals, p.erc20_decimals) as u128,
            },
        )
    }
}

/// The outcome of `orc20_to_oep4`.
pub open spec fn orc20_to_oep4_spec(
    v: BridgeView,
    auth: Seq<Address>,
    ont_acct: Address,
    eth_acct: Address,
    amount: u128,
    name: Seq<u8>,
) -> Result<ConversionPull, BridgeError> {
    if !spec_authorized(auth, ont_acct) {
        Err(BridgeError::NotAuthorized)
    } else if amount == 0 {
        Err(BridgeError::ZeroAmountNotAllowed)
    } else if !v.has_pair(name) {
        Err(BridgeError::PairNotFound)
    } else {
        let p = v.pair_at(name);
        Ok(
            ConversionPull {
                direction: Direction::Orc20ToOep4,
                src_asset: p.erc20,
                dst_asset: p.oep4,
                src_decimals: p.erc20_decimals,
                dst_decimals: p.oep4_decimals,
                ont_acct,
                eth_acct,
                amount: pulled_amount_spec(amount, p.erc20_decimals, p.oep4_decimals) as u128,
            },
        )
    }
}

/// Truncates `amount` down to the nearest multiple of `10^scale`.
fn truncate_to_scale(amount: u128, scale: u32) -> (r: u128)
    requires
        scale <= 38,
    ensures
        r as int == amount - amount as int % pow10(scale as nat) as int,
{
    proof {
        lemma_pow10_pos(scale as nat);
    }
    let m = pow_ten(scale);
    let rem = amount % m;
    proof {
        vstd::arithmetic::div_mod::lemma_mod_decreases(amount as nat, m as nat);
    }
    amount - rem
}

/// Validates an OEP4-to-ORC20 conversion request and computes the pull
/// the host must perform: the invocation must be witnessed as
/// `ont_acct`, the amount non-zero, the pair registered.  When the
/// ORC20 side is coarser-grained, the requested amount is truncated
/// down to the nearest multiple of `10^scale` first.
///
/// The host then moves the pull amount of the pair's OEP4 asset from
/// `ont_acct` into this contract's custody, measuring the custody
/// balance around the move, and hands both readings to
/// `settle_conversion`.
pub fn oep4_to_orc20(
    state: &BridgeState,
    auth: &Vec<Address>,
    ont_acct: Address,
    eth_acct: Address,
    amount: u128,
    token_pair_name: &Vec<u8>,
) -> (r: Result<ConversionPull, BridgeError>)
    requires
        state@.wf(),
        state@.has_pair(token_pair_name@) ==> conversion_scale(
            state@.pair_at(token_pair_name@).oep4_decimals,
            state@.pair_at(token_pair_name@).erc20_decimals,
        ) <= 38,
    ensures
        r == oep4_to_orc20_spec(state@, auth@, ont_acct, eth_acct, amount, token_pair_name@),
        r matches Ok(pull) ==> pull.amount <= amount && (pull.src_decimals > pull.dst_decimals
            ==> pull.amount as int % pow10((pull.src_decimals - pull.dst_decimals) as nat) as int
            == 0),
{
    if !authorized_as(auth, ont_acct) {
        return Err(BridgeError::NotAuthorized);
    }
    if amount == 0 {
        return Err(BridgeError::ZeroAmountNotAllowed);
    }
    let p = match state.lookup(token_pair_name) {
        Some(p) => p,
        None => {
            return Err(BridgeError::PairNotFound);
        },
    };
    proof {
        lemma_pulled_amount_multiple(amount, p.oep4_decimals, p.erc20_decimals);
    }
    let pulled = if p.erc20_decimals < p.oep4_decimals {
        truncate_to_scale(amount, p.oep4_decimals - p.erc20_decimals)
    } else {
        amount
    };
    Ok(
        ConversionPull {
            direction: Direction::Oep4ToOrc20,
            src_asset: p.oep4,
            dst_asset: p.erc20,
            src_decimals: p.oep4_decimals,
            dst_decimals: p.erc20_decimals,
            ont_acct,
            eth_acct,
            amount: pulled,
        },
    )
}

/// Validates an ORC20-to-OEP4 conversion request; the exact mirror of
/// `oep4_to_orc20` with the two sides swapped.  The host pulls the
/// pair's ORC20 asset from `eth_acct` (spent by `ont_acct`'s approval)
/// into custody, measures the custody balance around the move, and
/// settles.
pub fn orc20_to_oep4(
    state: &BridgeState,
    auth: &Vec<Address>,
    ont_acct: Address,
    eth_acct: Address,
    amount: u128,
    token_pair_name: &Vec<u8>,
) -> (r: Result<ConversionPull, BridgeError>)
    requires
        state@.wf(),
        state@.has_pair(token_pair_name@) ==> conversion_scale(
            state@.pair_at(token_pair_name@).oep4_decimals,
            state@.pair_at(token_pair_name@).erc20_decimals,
        ) <= 38,
    ensures
        r == orc20_to_oep4_spec(state@, auth@, ont_acct, eth_acct, amount, token_pair_name@),
        r matches Ok(pull) ==> pull.amount <= amount && (pull.src_decimals > pull.dst_decimals
            ==> pull.amount as int % pow10((pull.src_decimals - pull.dst_decimals) as nat) as int
            == 0),
{
    if !authorized_as(auth, ont_acct) {
        return Err(BridgeError::NotAuthorized);
    }
    if amount == 0 {
        return Err(BridgeError::ZeroAmountNotAllowed);
    }
    let p = match state.lookup(token_pair_name) {
        Some(p) => p,
        None => {
            return Err(BridgeError::PairNotFound);
        },
    };
    proof {
        lemma_pulled_amount_multiple(amount, p.erc20_decimals, p.oep4_decimals);
    }
    let pulled = if p.erc20_decimals > p.oep4_decimals {
        truncate_to_scale(amount, p.erc20_decimals - p.oep4_decimals)
    } else {
        amount
    };
    Ok(
        ConversionPull {
            direction: Direction::Orc20ToOep4,
            src_asset: p.erc20,
            dst_asset: p.oep4,
            src_decimals: p.erc20_decimals,
            dst_decimals: p.oep4_decimals,
            ont_acct,
            eth_acct,
            amount: pulled,
        },
    )
}

/// A settled conversion: the destination amount, the push the host owes
/// the counterparty (none for a zero amount), and the notification to
/// emit.
#[derive(Clone, Copy, PartialEq, Eq, Debug)]
pub struct ConversionOutcome {
    /// The destination amount credited.
    pub amount: u128,
    /// The destination-side transfer out of custody, owed exactly when
    /// the amount is non-zero.
    pub push: Option<TransferAction>,
    /// The conversion notification.
    pub event: BridgeEvent,
}

/// Settles a conversion from the custody balances the host observed
/// immediately before and after the pull.  The destination amount is a
/// function of the observed delta and the two declared precisions
/// alone: a zero delta settles as a zero amount with no destination
/// transfer (a successful no-op), and the requested amount never enters
/// the calculation.
pub fn settle_conversion(pull: &ConversionPull, balance_before: u128, balance_after: u128) -> (r:
    ConversionOutcome)
    requires
        conversion_scale(pull.src_decimals, pull.dst_decimals) <= 38,
        balance_before <= balance_after,
        settle_amount_spec(
            (balance_after - balance_before) as u128,
            pull.src_decimals,
            pull.dst_decimals,
        ) <= u128::MAX,
    ensures
        r.amount == settle_amount_spec(
            (balance_after - balance_before) as u128,
            pull.src_decimals,
            pull.dst_decimals,
        ),
        r.amount == 0 <==> r.push is None,
        r.push matches Some(t) ==> t == (TransferAction {
            asset: pull.dst_asset,
            to: pull.destination_account(),
            amount: r.amount,
        }),
        balance_after == balance_before ==> r.amount == 0 && r.push is None,
        r.event == pull.settle_event_spec(r.amount),
{
    let delta = balance_after - balance_before;
    proof {
        lemma_pow10_pos(conversion_scale(pull.src_decimals, pull.dst_decimals));
        if pull.src_decimals > pull.dst_decimals {
            vstd::arithmetic::div_mod::lemma_div_of0(
                pow10((pull.src_decimals - pull.dst_decimals) as nat) as int,
            );
        }
    }
    let amount: u128 = if delta == 0 {
        0
    } else if pull.src_decimals > pull.dst_decimals {
        let m = pow_ten(pull.src_decimals - pull.dst_decimals);
        proof {
            lemma_pow10_pos((pull.src_decimals - pull.dst_decimals) as nat);
        }
        delta / m
    } else {
        let m = pow_ten(pull.dst_decimals - pull.src_decimals);
        delta * m
    };
    let push = if amount == 0 {
        None
    } else {
        Some(
            TransferAction {
                asset: pull.dst_asset,
                to: match pull.direction {
                    Direction::Oep4ToOrc20 => pull.eth_acct,
                    Direction::Orc20ToOep4 => pull.ont_acct,
                },
                amount,
            },
        )
    };
    let event = match pull.direction {
        Direction::Oep4ToOrc20 => oep4_to_orc20_event(
            pull.ont_acct,
            pull.eth_acct,
            pull.amount,
            amount,
            pull.src_asset,
            pull.dst_asset,
        ),
        Direction::Orc20ToOep4 => orc20_to_oep4_event(
            pull.ont_acct,
            pull.eth_acct,
            pull.amount,
            amount,
            pull.dst_asset,
            pull.src_asset,
        ),
    };
    ConversionOutcome { amount, push, event }
}

} // verus!

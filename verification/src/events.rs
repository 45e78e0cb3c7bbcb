//! Structured notifications that successful state-mutating operations
//! emit.  The core only builds the payloads; delivering them to the
//! host's notification sink is the caller's business.

use vstd::prelude::*;

use crate::state::Address;

verus! {

/// The payload of one notification.
#[derive(Clone, Copy, PartialEq, Eq, Structural, Debug)]
pub enum BridgeEvent {
    /// A new pending admin was stored.
    PendingAdmin { new_pending_admin: Address },
    /// The pending admin accepted; the admin changed hands.
    NewAdmin { old_admin: Address, new_admin: Address },
    /// A pair's owner field was overwritten.
    TokenPairOwner { old_owner: Address, new_owner: Address },
    /// An OEP4-to-ORC20 conversion completed.  `amount` is the amount
    /// pulled (after truncation), `erc20_amt` the amount credited.
    Oep4ToOrc20 {
        ont_acct: Address,
        eth_acct: Address,
        amount: u128,
        erc20_amt: u128,
        oep4_addr: Address,
        erc20_addr: Address,
    },
    /// An ORC20-to-OEP4 conversion completed.  `amount` is the amount
    /// pulled (after truncation), `oep4_amt` the amount credited.
    Orc20ToOep4 {
        ont_acct: Address,
        eth_acct: Address,
        amount: u128,
        oep4_amt: u128,
        oep4_addr: Address,
        erc20_addr: Address,
    },
}

/// The notification for a stored pending admin.
pub fn new_pending_admin_event(new_pending_admin: Address) -> (r: BridgeEvent)
    ensures
        r == (BridgeEvent::PendingAdmin { new_pending_admin }),
{
    BridgeEvent::PendingAdmin { new_pending_admin }
}

/// The notification for a completed admin handover.
pub fn new_admin_event(old_admin: Address, new_admin: Address) -> (r: BridgeEvent)
    ensures
        r == (BridgeEvent::NewAdmin { old_admin, new_admin }),
{
    BridgeEvent::NewAdmin { old_admin, new_admin }
}

/// The notification for a pair ownership transfer.
pub fn transfer_token_pair_owner_evt(old_owner: Address, new_owner: Address) -> (r: BridgeEvent)
    ensures
        r == (BridgeEvent::TokenPairOwner { old_owner, new_owner }),
{
    BridgeEvent::TokenPairOwner { old_owner, new_owner }
}

/// The notification for a completed OEP4-to-ORC20 conversion.
pub fn oep4_to_orc20_event(
    ont_acct: Address,
    eth_acct: Address,
    amount: u128,
    erc20_amt: u128,
    oep4_addr: Address,
    erc20_addr: Address,
) -> (r: BridgeEvent)
    ensures
        r == (BridgeEvent::Oep4ToOrc20 {
            ont_acct,
            eth_acct,
            amount,
            erc20_amt,
            oep4_addr,
            erc20_addr,
        }),
{
    BridgeEvent::Oep4ToOrc20 { ont_acct, eth_acct, amount, erc20_amt, oep4_addr, erc20_addr }
}

/// The notification for a completed ORC20-to-OEP4 conversion.
pub fn orc20_to_oep4_event(
    ont_acct: Address,
    eth_acct: Address,
    amount: u128,
    oep4_amt: u128,
    oep4_addr: Address,
    erc20_addr: Address,
) -> (r: BridgeEvent)
    ensures
        r == (BridgeEvent::Orc20ToOep4 {
            ont_acct,
            eth_acct,
            amount,
            oep4_amt,
            oep4_addr,
            erc20_addr,
        }),
{
    BridgeEvent::Orc20ToOep4 { ont_acct, eth_acct, amount, oep4_amt, oep4_addr, erc20_addr }
}

} // verus!

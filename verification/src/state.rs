//! The durable state of the bridge and the authorization model.

use vstd::prelude::*;

verus! {

/// An account or contract identifier.  The distinguished all-zero value
/// means "unset / none": no separate optional encoding is used anywhere
/// in this system.
#[derive(Clone, Copy, PartialEq, Eq, Structural, Debug)]
pub struct Address {
    pub value: u128,
}

impl Address {
    pub open spec fn spec_is_zero(self) -> bool {
        self.value == 0
    }

    /// Whether this is the all-zero "unset" address.
    #[verifier::when_used_as_spec(spec_is_zero)]
    pub fn is_zero(self) -> (r: bool)
        ensures
            r == self.spec_is_zero(),
    {
        self.value == 0
    }

    /// The all-zero "unset" address.
    pub fn zero() -> (r: Address)
        ensures
            r.is_zero(),
    {
        Address { value: 0 }
    }
}

/// The bridge configuration registered under one pair name.
#[derive(Clone, Copy, PartialEq, Eq, Structural, Debug)]
pub struct TokenPair {
    /// The account permitted to reconfigure this pair; zero once the pair
    /// is frozen.
    pub owner: Address,
    /// The ORC20-side asset contract.
    pub erc20: Address,
    /// Declared decimal precision of the ORC20-side asset.
    pub erc20_decimals: u32,
    /// The OEP4-side asset contract.
    pub oep4: Address,
    /// Declared decimal precision of the OEP4-side asset.
    pub oep4_decimals: u32,
}

impl TokenPair {
    /// The all-zero record that a read of an unregistered name yields.
    pub open spec fn spec_default() -> TokenPair {
        TokenPair {
            owner: Address { value: 0 },
            erc20: Address { value: 0 },
            erc20_decimals: 0,
            oep4: Address { value: 0 },
            oep4_decimals: 0,
        }
    }
}

impl Default for TokenPair {
    fn default() -> (r: TokenPair)
        ensures
            r == TokenPair::spec_default(),
    {
        TokenPair {
            owner: Address { value: 0 },
            erc20: Address { value: 0 },
            erc20_decimals: 0,
            oep4: Address { value: 0 },
            oep4_decimals: 0,
        }
    }
}

/// One asset transfer out of this contract's custody that the host must
/// perform on behalf of a successful operation.
#[derive(Clone, Copy, PartialEq, Eq, Structural, Debug)]
pub struct TransferAction {
    /// The asset contract to move.
    pub asset: Address,
    /// The account credited.
    pub to: Address,
    /// The amount moved.
    pub amount: u128,
}

/// Every way an operation of the bridge core can refuse to act.  Each
/// variant corresponds to one aborting assertion of the call boundary.
#[derive(Clone, Copy, PartialEq, Eq, Structural, Debug)]
pub enum BridgeError {
    /// `initialize` was called while an admin is already set.
    AlreadyInitialized,
    /// The invocation is not witnessed as the required account.
    NotAuthorized,
    /// A zero address was given where a real one is required.
    ZeroAddressNotAllowed,
    /// The pair name already maps to a registered pair.
    PairAlreadyRegistered,
    /// The pair name maps to no registered pair.
    PairNotFound,
    /// A conversion was requested for a zero amount.
    ZeroAmountNotAllowed,
    /// An asset swap must drain a non-zero balance but no sink account
    /// was supplied.
    MissingSinkAccount,
    /// The contract-migration primitive reported failure (a zero address).
    MigrationFailed,
    /// The inbound call named an action this contract does not expose.
    UnsupportedAction,
}

/// The mathematical model of the durable bridge state.
#[verifier::ext_equal]
pub struct BridgeView {
    pub admin: Address,
    pub pending_admin: Address,
    pub names: Seq<Seq<u8>>,
    pub pairs: Seq<TokenPair>,
}

impl BridgeView {
    /// Well-formedness: the name index and the pair records run in
    /// parallel, a name is registered at most once, and a registered pair
    /// never has a zero asset address on either side (so the all-zero
    /// default record can never be mistaken for a registered pair).
    pub open spec fn wf(self) -> bool {
        &&& self.names.len() == self.pairs.len()
        &&& forall|i: int, j: int|
            0 <= i < j < self.names.len() ==> self.names[i] != self.names[j]
        &&& forall|i: int|
            0 <= i < self.pairs.len() ==> !(#[trigger] self.pairs[i]).erc20.is_zero()
                && !self.pairs[i].oep4.is_zero()
    }

    /// Whether `name` is a registered pair name.
    pub open spec fn has_pair(self, name: Seq<u8>) -> bool {
        self.names.contains(name)
    }

    /// The position of `name` in the name index.
    pub open spec fn name_index(self, name: Seq<u8>) -> int {
        self.names.index_of(name)
    }

    /// The pair registered under `name`.
    pub open spec fn pair_at(self, name: Seq<u8>) -> TokenPair {
        self.pairs[self.name_index(name)]
    }

    /// The state of a bridge whose storage was never written.
    pub open spec fn init() -> BridgeView {
        BridgeView {
            admin: Address { value: 0 },
            pending_admin: Address { value: 0 },
            names: Seq::empty(),
            pairs: Seq::empty(),
        }
    }
}

/// The durable state of one bridge contract instance: the two admin
/// singletons, the ordered index of registered pair names, and the pair
/// records, one per name.
pub struct BridgeState {
    pub admin: Address,
    pub pending_admin: Address,
    pub names: Vec<Vec<u8>>,
    pub pairs: Vec<TokenPair>,
}

impl View for BridgeState {
    type V = BridgeView;

    open spec fn view(&self) -> BridgeView {
        BridgeView {
            admin: self.admin,
            pending_admin: self.pending_admin,
            names: self.names@.map_values(|n: Vec<u8>| n@),
            pairs: self.pairs.view(),
        }
    }
}

impl BridgeState {
    /// A bridge whose storage was never written: no admin, no pending
    /// admin, no registered pairs.
    pub fn new() -> (r: BridgeState)
        ensures
            r@ == BridgeView::init(),
            r@.wf(),
    {
        let r = BridgeState {
            admin: Address { value: 0 },
            pending_admin: Address { value: 0 },
            names: Vec::new(),
            pairs: Vec::new(),
        };
        proof {
            assert(r@.names =~= BridgeView::init().names);
            assert(r@ =~= BridgeView::init());
        }
        r
    }

    /// Finds the position of `name` in the name index, or `None` if the
    /// name was never registered.
    pub fn find_name(&self, name: &Vec<u8>) -> (r: Option<usize>)
        requires
            self@.wf(),
        ensures
            match r {
                Some(i) => self@.has_pair(name@) && i < self@.names.len() && i as int
                    == self@.name_index(name@),
                None => !self@.has_pair(name@),
            },
    {
        let n = self.names.len();
        let mut i: usize = 0;
        while i < n
            invariant
                self@.wf(),
                n == self.names.len(),
                0 <= i <= n,
                forall|j: int| 0 <= j < i ==> self@.names[j] != name@,
            decreases n - i,
        {
            if bytes_eq(&self.names[i], name) {
                proof {
                    assert(self@.names[i as int] == name@);
                    assert(self@.has_pair(name@));
                    let k = self@.name_index(name@);
                    assert(0 <= k < self@.names.len() && self@.names[k] == name@);
                    assert(k == i as int);
                }
                return Some(i);
            }
            i += 1;
        }
        None
    }

    /// Finds the pair registered under `name`, or `None` if the name was
    /// never registered.
    pub fn lookup(&self, name: &Vec<u8>) -> (r: Option<TokenPair>)
        requires
            self@.wf(),
        ensures
            match r {
                Some(p) => self@.has_pair(name@) && p == self@.pair_at(name@),
                None => !self@.has_pair(name@),
            },
    {
        match self.find_name(name) {
            Some(i) => Some(self.pairs[i]),
            None => None,
        }
    }
}

/// Compares two byte strings by content.
pub fn bytes_eq(a: &Vec<u8>, b: &Vec<u8>) -> (r: bool)
    ensures
        r == (a@ == b@),
{
    if a.len() != b.len() {
        return false;
    }
    let mut i: usize = 0;
    while i < a.len()
        invariant
            a@.len() == b@.len(),
            0 <= i <= a@.len(),
            forall|j: int| 0 <= j < i ==> a@[j] == b@[j],
        decreases a@.len() - i,
    {
        if a[i] != b[i] {
            return false;
        }
        i += 1;
    }
    proof {
        assert(a@ =~= b@);
    }
    true
}

/// The authorization oracle's answer, modelled over the set of addresses
/// the current invocation is witnessed as.  The all-zero address stands
/// for "unset" and is never authorized: no witness can prove control of
/// it, which is what makes freezing a pair (owner set to zero) permanent.
pub open spec fn spec_authorized(auth: Seq<Address>, a: Address) -> bool {
    !a.is_zero() && auth.contains(a)
}

/// Whether the current invocation, witnessed as the addresses in `auth`,
/// is authorized to act as `a`.
pub fn authorized_as(auth: &Vec<Address>, a: Address) -> (r: bool)
    ensures
        r == spec_authorized(auth@, a),
{
    if a.is_zero() {
        return false;
    }
    let mut i: usize = 0;
    while i < auth.len()
        invariant
            !a.is_zero(),
            0 <= i <= auth@.len(),
            forall|j: int| 0 <= j < i ==> auth@[j] != a,
        decreases auth@.len() - i,
    {
        if auth[i] == a {
            proof {
                assert(auth@[i as int] == a);
                assert(auth@.contains(a));
            }
            return true;
        }
        i += 1;
    }
    false
}

} // verus!

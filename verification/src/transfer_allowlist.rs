//! The transfer allowlist pallet: where an account may send a currency to,
//! and from and until which block.

use vstd::prelude::*;
use vstd::std_specs::convert::FromSpecImpl;

verus! {

/// A 32-byte account id.
#[derive(Clone, Copy, Debug, PartialEq, Eq)]
pub struct AccountId32(pub [u8; 32]);

impl AccountId32 {
    /// The account id of the given bytes.
    pub fn new(bytes: [u8; 32]) -> (r: AccountId32)
        ensures
            r.0 == bytes,
    {
        AccountId32(bytes)
    }
}

/// An XCM (version 1) location, held by its SCALE encoding.
#[derive(Clone, Debug, PartialEq, Eq)]
pub struct MultiLocation {
    pub encoded: Vec<u8>,
}

impl MultiLocation {
    /// The location of the chain itself: no parents, no interior junctions.
    pub fn default() -> (r: MultiLocation)
        ensures
            r.encoded@ == seq![0u8, 0u8],
    {
        MultiLocation { encoded: vec![0u8, 0u8] }
    }
}

/// An address on a domain that the connectors reach.
#[derive(Clone, Copy, Debug, PartialEq, Eq)]
pub enum DomainAddress {
    /// A 32-byte account on Centrifuge.
    Centrifuge([u8; 32]),
    /// A 20-byte account on the EVM chain of the given id.
    EVM(u64, [u8; 20]),
}

/// Where a transfer may go.
#[derive(Clone, Debug, PartialEq, Eq)]
pub enum Location {
    /// A local account.
    Local(AccountId32),
    /// An XCM location.
    XCMV1(MultiLocation),
    /// An address on another domain.
    Address(DomainAddress),
}

impl From<AccountId32> for Location {
    fn from(a: AccountId32) -> (r: Location) {
        Location::Local(a)
    }
}

impl FromSpecImpl<AccountId32> for Location {
    open spec fn obeys_from_spec() -> bool {
        true
    }

    open spec fn from_spec(a: AccountId32) -> Location {
        Location::Local(a)
    }
}

impl From<MultiLocation> for Location {
    fn from(ml: MultiLocation) -> (r: Location) {
        Location::XCMV1(ml)
    }
}

impl FromSpecImpl<MultiLocation> for Location {
    open spec fn obeys_from_spec() -> bool {
        true
    }

    open spec fn from_spec(ml: MultiLocation) -> Location {
        Location::XCMV1(ml)
    }
}

impl From<DomainAddress> for Location {
    fn from(da: DomainAddress) -> (r: Location) {
        Location::Address(da)
    }
}

impl FromSpecImpl<DomainAddress> for Location {
    open spec fn obeys_from_spec() -> bool {
        true
    }

    open spec fn from_spec(da: DomainAddress) -> Location {
        Location::Address(da)
    }
}

/// From which block and until which block an allowance holds.
#[derive(Clone, Copy, Debug, PartialEq, Eq)]
pub struct AllowanceDetails {
    allowed_at: u64,
    blocked_at: u64,
}

impl AllowanceDetails {
    /// The block from which the allowance holds.
    pub closed spec fn spec_allowed_at(self) -> u64 {
        self.allowed_at
    }

    /// The block from which the allowance no longer holds.
    pub closed spec fn spec_blocked_at(self) -> u64 {
        self.blocked_at
    }

    /// An allowance that holds from the first block and is never blocked.
    pub fn default() -> (r: AllowanceDetails)
        ensures
            r.spec_allowed_at() == 0,
            r.spec_blocked_at() == u64::MAX,
    {
        AllowanceDetails { allowed_at: 0, blocked_at: u64::MAX }
    }

    /// The block from which the allowance holds.
    pub fn allowed_at(&self) -> (r: u64)
        ensures
            r == self.spec_allowed_at(),
    {
        self.allowed_at
    }

    /// The block from which the allowance no longer holds.
    pub fn blocked_at(&self) -> (r: u64)
        ensures
            r == self.spec_blocked_at(),
    {
        self.blocked_at
    }
}

} // verus!

//! The record types held by the registries, the sentinel values handed out
//! when a lookup misses, and spec-level descriptions of how one operation
//! rewrites a single record.
//!
//! Identities (owners, lessees, callers) are opaque `u64` handles: the core
//! only ever compares them for equality, and the hosting environment is the
//! one that maps real addresses to handles.

use vstd::prelude::*;

verus! {

/// Labels for the ways an operation can be refused. Every refusal aborts the
/// whole operation; no partial state change is ever kept.
#[derive(Clone, Copy, PartialEq, Eq, Structural, Debug)]
pub enum LeaseError {
    /// The asset is missing or already leased.
    NotAvailable,
    /// The requested lease duration lies outside the asset's allowed range.
    InvalidDuration,
    /// The lease is missing or no longer active.
    InactiveLease,
    /// The caller is not the identity the operation demands.
    Unauthorized,
    /// Overdue marking was requested before the next payment is due.
    NotYetDue,
}

/// The global aggregate derived from the lease registry.
#[derive(Clone, Copy, PartialEq, Eq, Structural, Debug)]
pub struct AssetStats {
    /// Count of currently active leases.
    pub active_leases: u64,
    /// Count of completed leases.
    pub completed_leases: u64,
    /// Count of active leases currently flagged overdue.
    pub overdue_leases: u64,
    /// Total count of all leases ever created.
    pub total_leases: u64,
    /// Total currency units moved through the system.
    pub total_xlm_processed: u64,
}

/// Key addressing one lease record in the lease registry.
pub enum LeaseStatusBook {
    LeaseStatus(u64),
}

/// Key addressing one asset record in the asset registry.
pub enum AssetBook {
    Asset(u64),
}

impl LeaseStatusBook {
    /// The lease identifier this key addresses.
    pub open spec fn spec_id(self) -> u64 {
        match self {
            LeaseStatusBook::LeaseStatus(id) => id,
        }
    }

    /// Unwraps the key to the lease identifier it carries.
    pub fn id(&self) -> (r: u64)
        ensures
            r == self.spec_id(),
    {
        match self {
            LeaseStatusBook::LeaseStatus(id) => *id,
        }
    }
}

impl AssetBook {
    /// The asset identifier this key addresses.
    pub open spec fn spec_id(self) -> u64 {
        match self {
            AssetBook::Asset(id) => id,
        }
    }

    /// Unwraps the key to the asset identifier it carries.
    pub fn id(&self) -> (r: u64)
        ensures
            r == self.spec_id(),
    {
        match self {
            AssetBook::Asset(id) => *id,
        }
    }
}

/// One lease term: who leases which asset, the payment schedule, and the
/// activity flags.
#[derive(Clone, Copy, PartialEq, Eq, Structural, Debug)]
pub struct LeaseStatus {
    /// Unique lease identifier (0 is the "not found" sentinel).
    pub lease_id: u64,
    /// Identifier of the leased asset.
    pub asset_id: u64,
    /// Handle of the identity leasing the asset.
    pub lessee: u64,
    /// Lease start timestamp, in seconds.
    pub start_time: u64,
    /// Lease end timestamp, in seconds.
    pub end_time: u64,
    /// Currency units owed per payment period.
    pub period_payment: u64,
    /// Seconds between payments.
    pub payment_frequency: u64,
    /// When the last payment was recorded.
    pub last_payment_time: u64,
    /// When the next payment falls due.
    pub next_payment_time: u64,
    /// Whether the lease is currently active.
    pub is_active: bool,
    /// Whether the lease is flagged overdue; only ever set while active.
    pub is_overdue: bool,
    /// Total currency units paid so far.
    pub total_paid: u64,
    /// Security deposit collected at creation.
    pub security_deposit: u64,
}

/// One leasable item: its owner, pricing, and availability.
#[derive(Clone, Debug)]
pub struct Asset {
    /// Unique asset identifier (0 is the "not found" sentinel).
    pub asset_id: u64,
    /// Handle of the identity that owns the asset.
    pub owner: u64,
    /// Title of the asset.
    pub title: String,
    /// Description of the asset.
    pub description: String,
    /// Price in currency units per payment period.
    pub price_per_period: u64,
    /// Duration of one payment period, in seconds.
    pub period_duration: u64,
    /// Minimum lease duration, in seconds.
    pub min_lease_duration: u64,
    /// Maximum lease duration, in seconds.
    pub max_lease_duration: u64,
    /// Security deposit demanded at lease creation.
    pub deposit_required: u64,
    /// Whether the asset can be leased right now.
    pub is_available: bool,
    /// Identifier of the current active lease, or 0 when none.
    pub current_lease_id: u64,
}

/// Holds of a newly registered asset: the given fields are stored unchanged,
/// the asset is available, and no lease is linked yet.
pub open spec fn fresh_asset(
    a: Asset,
    asset_id: u64,
    owner: u64,
    title: Seq<char>,
    description: Seq<char>,
    price_per_period: u64,
    period_duration: u64,
    min_lease_duration: u64,
    max_lease_duration: u64,
    deposit_required: u64,
) -> bool {
    &&& a.asset_id == asset_id
    &&& a.owner == owner
    &&& a.title@ == title
    &&& a.description@ == description
    &&& a.price_per_period == price_per_period
    &&& a.period_duration == period_duration
    &&& a.min_lease_duration == min_lease_duration
    &&& a.max_lease_duration == max_lease_duration
    &&& a.deposit_required == deposit_required
    &&& a.is_available == true
    &&& a.current_lease_id == 0
}

/// Holds when `post` is `pre` after being handed to a lease: availability is
/// withdrawn, the lease link is set, and every other field is kept.
pub open spec fn asset_leased_as(pre: Asset, post: Asset, lease_id: u64) -> bool {
    &&& post.asset_id == pre.asset_id
    &&& post.owner == pre.owner
    &&& post.title == pre.title
    &&& post.description == pre.description
    &&& post.price_per_period == pre.price_per_period
    &&& post.period_duration == pre.period_duration
    &&& post.min_lease_duration == pre.min_lease_duration
    &&& post.max_lease_duration == pre.max_lease_duration
    &&& post.deposit_required == pre.deposit_required
    &&& post.is_available == false
    &&& post.current_lease_id == lease_id
}

/// Holds when `post` is `pre` after its lease ended: availability is restored,
/// the lease link is cleared, and every other field is kept.
pub open spec fn asset_released_as(pre: Asset, post: Asset) -> bool {
    &&& post.asset_id == pre.asset_id
    &&& post.owner == pre.owner
    &&& post.title == pre.title
    &&& post.description == pre.description
    &&& post.price_per_period == pre.price_per_period
    &&& post.period_duration == pre.period_duration
    &&& post.min_lease_duration == pre.min_lease_duration
    &&& post.max_lease_duration == pre.max_lease_duration
    &&& post.deposit_required == pre.deposit_required
    &&& post.is_available == true
    &&& post.current_lease_id == 0
}

/// The lease record built when asset `a` is leased to `lessee` at time `now`
/// for `lease_duration` seconds. The opening payment bundles the security
/// deposit with the first period's price.
pub open spec fn lease_created(
    a: Asset,
    lease_id: u64,
    lessee: u64,
    lease_duration: u64,
    now: u64,
) -> LeaseStatus {
    LeaseStatus {
        lease_id: lease_id,
        asset_id: a.asset_id,
        lessee: lessee,
        start_time: now,
        end_time: (now + lease_duration) as u64,
        period_payment: a.price_per_period,
        payment_frequency: a.period_duration,
        last_payment_time: now,
        next_payment_time: (now + a.period_duration) as u64,
        is_active: true,
        is_overdue: false,
        total_paid: (a.deposit_required + a.price_per_period) as u64,
        security_deposit: a.deposit_required,
    }
}

/// The lease record after a payment at time `now`: the clock of the schedule
/// advances by one period, the running total grows by one period payment, and
/// any overdue flag is cleared.
pub open spec fn lease_paid(l: LeaseStatus, now: u64) -> LeaseStatus {
    LeaseStatus {
        last_payment_time: now,
        next_payment_time: (now + l.payment_frequency) as u64,
        total_paid: (l.total_paid + l.period_payment) as u64,
        is_overdue: false,
        ..l
    }
}

/// The lease record after its term ends. The overdue flag is cleared along
/// with the active flag, so a record is only ever overdue while it is active.
pub open spec fn lease_ended(l: LeaseStatus) -> LeaseStatus {
    LeaseStatus { is_active: false, is_overdue: false, ..l }
}

/// The lease record after being flagged overdue.
pub open spec fn lease_marked(l: LeaseStatus) -> LeaseStatus {
    LeaseStatus { is_overdue: true, ..l }
}

/// Holds of the placeholder asset handed out when a lookup misses. Callers
/// must treat `asset_id == 0` as "not found", never as a real asset.
pub open spec fn is_sentinel_asset(a: Asset) -> bool {
    &&& a.asset_id == 0
    &&& a.owner == 0
    &&& a.title@ == "Not_Found"@
    &&& a.description@ == "Not_Found"@
    &&& a.price_per_period == 0
    &&& a.period_duration == 0
    &&& a.min_lease_duration == 0
    &&& a.max_lease_duration == 0
    &&& a.deposit_required == 0
    &&& a.is_available == false
    &&& a.current_lease_id == 0
}

/// The placeholder lease handed out when a lookup misses. Callers must treat
/// `lease_id == 0` as "not found"; the record is inactive in every way.
pub open spec fn sentinel_lease() -> LeaseStatus {
    LeaseStatus {
        lease_id: 0,
        asset_id: 0,
        lessee: 0,
        start_time: 0,
        end_time: 0,
        period_payment: 0,
        payment_frequency: 0,
        last_payment_time: 0,
        next_payment_time: 0,
        is_active: false,
        is_overdue: false,
        total_paid: 0,
        security_deposit: 0,
    }
}

} // verus!

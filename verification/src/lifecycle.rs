//! The lifecycle controller: the one writer of the asset registry, the lease
//! registry, and the global aggregate.
//!
//! Every public operation is a single atomic unit: it validates its
//! preconditions against the current state, and either applies the whole
//! transition or returns a [`LeaseError`] and leaves the state exactly as it
//! was. Well-formedness ([`RentPaymentContract::wf`]) ties the three parts
//! together: identifiers are dense and positive, an available asset carries
//! no lease link, a linked lease points back at its asset, an overdue lease
//! is active, and the aggregate counters equal a recount of the lease
//! registry.

use vstd::prelude::*;

use crate::records::Asset;
use crate::records::AssetStats;
use crate::records::LeaseError;
use crate::records::LeaseStatus;
use crate::records::asset_leased_as;
use crate::records::asset_released_as;
use crate::records::fresh_asset;
use crate::records::is_sentinel_asset;
use crate::records::lease_created;
use crate::records::lease_ended;
use crate::records::lease_marked;
use crate::records::lease_paid;
use crate::records::sentinel_lease;
use crate::tally::count_active;
use crate::tally::count_overdue;
use crate::tally::lemma_count_active_at_least_one;
use crate::tally::lemma_count_active_le_len;
use crate::tally::lemma_count_active_push;
use crate::tally::lemma_count_active_update;
use crate::tally::lemma_count_overdue_at_least_one;
use crate::tally::lemma_count_overdue_le_active;
use crate::tally::lemma_count_overdue_le_len;
use crate::tally::lemma_count_overdue_missing_one;
use crate::tally::lemma_count_overdue_push;
use crate::tally::lemma_count_overdue_update;

verus! {

/// The asset identifiers in `s`, in storage order, of the assets owned by
/// `owner`.
pub open spec fn owner_assets_of(s: Seq<Asset>, owner: u64) -> Seq<u64>
    decreases s.len(),
{
    if s.len() == 0 {
        Seq::empty()
    } else {
        let rest = owner_assets_of(s.drop_last(), owner);
        if s.last().owner == owner {
            rest.push(s.last().asset_id)
        } else {
            rest
        }
    }
}

/// The lease identifiers in `s`, in storage order, of the active leases held
/// by `lessee`.
pub open spec fn lessee_leases_of(s: Seq<LeaseStatus>, lessee: u64) -> Seq<u64>
    decreases s.len(),
{
    if s.len() == 0 {
        Seq::empty()
    } else {
        let rest = lessee_leases_of(s.drop_last(), lessee);
        if s.last().lessee == lessee && s.last().is_active {
            rest.push(s.last().lease_id)
        } else {
            rest
        }
    }
}

/// The whole state of the leasing core: the two identifier counters, the two
/// registries, and the global aggregate.
///
/// Asset `i + 1` lives at index `i` of `assets`, and lease `j + 1` at index
/// `j` of `leases`; identifier 0 is reserved as the "not found" sentinel and
/// never assigned.
pub struct RentPaymentContract {
    /// How many assets have been registered; also the last asset id handed out.
    pub count_assets: u64,
    /// How many leases have been created; also the last lease id handed out.
    pub count_leases: u64,
    /// The asset registry, ordered by asset id.
    pub assets: Vec<Asset>,
    /// The lease registry, ordered by lease id.
    pub leases: Vec<LeaseStatus>,
    /// The global aggregate over the lease registry.
    pub stats: AssetStats,
}

impl RentPaymentContract {
    /// Whether `asset_id` names a registered asset.
    pub open spec fn asset_in_range(self, asset_id: u64) -> bool {
        1 <= asset_id <= self.assets@.len()
    }

    /// The registered asset named by `asset_id` (meaningful only in range).
    pub open spec fn spec_asset(self, asset_id: u64) -> Asset {
        self.assets@[asset_id - 1]
    }

    /// Whether `lease_id` names a created lease.
    pub open spec fn lease_in_range(self, lease_id: u64) -> bool {
        1 <= lease_id <= self.leases@.len()
    }

    /// The lease named by `lease_id` (meaningful only in range).
    pub open spec fn spec_lease(self, lease_id: u64) -> LeaseStatus {
        self.leases@[lease_id - 1]
    }

    /// Whether `asset_id` names an asset that can be leased right now.
    pub open spec fn asset_available(self, asset_id: u64) -> bool {
        self.asset_in_range(asset_id) && self.spec_asset(asset_id).is_available
    }

    /// Whether `lease_id` names an active lease.
    pub open spec fn lease_active(self, lease_id: u64) -> bool {
        self.lease_in_range(lease_id) && self.spec_lease(lease_id).is_active
    }

    /// Whether `lease_duration` falls inside the allowed range of the asset
    /// named by `asset_id`.
    pub open spec fn duration_ok(self, asset_id: u64, lease_duration: u64) -> bool {
        self.spec_asset(asset_id).min_lease_duration <= lease_duration <= self.spec_asset(
            asset_id,
        ).max_lease_duration
    }

    /// Every precondition of lease creation at once: the asset exists, is
    /// available, and the requested duration is within its bounds.
    pub open spec fn create_ok(self, asset_id: u64, lease_duration: u64) -> bool {
        self.asset_available(asset_id) && self.duration_ok(asset_id, lease_duration)
    }

    /// Well-formedness of the asset registry: dense positive identifiers,
    /// availability exactly when no lease is linked, and every lease link
    /// naming an active lease that points back at this asset.
    pub open spec fn assets_wf(self) -> bool {
        &&& self.assets@.len() == self.count_assets
        &&& forall|i: int|
            0 <= i < self.assets@.len() ==> (#[trigger] self.assets@[i]).asset_id == i + 1
        &&& forall|i: int|
            0 <= i < self.assets@.len() ==> ((#[trigger] self.assets@[i]).is_available <==> self
                .assets@[i].current_lease_id == 0)
        &&& forall|i: int|
            0 <= i < self.assets@.len() && (#[trigger] self.assets@[i]).current_lease_id != 0
                ==> {
                let lid = self.assets@[i].current_lease_id;
                &&& 1 <= lid <= self.leases@.len()
                &&& self.leases@[lid - 1].is_active
                &&& self.leases@[lid - 1].asset_id == i + 1
            }
    }

    /// Well-formedness of the lease registry: dense positive identifiers,
    /// overdue only while active, and every active lease linked back from
    /// the asset it names.
    pub open spec fn leases_wf(self) -> bool {
        &&& self.leases@.len() == self.count_leases
        &&& forall|j: int|
            0 <= j < self.leases@.len() ==> (#[trigger] self.leases@[j]).lease_id == j + 1
        &&& forall|j: int|
            0 <= j < self.leases@.len() && (#[trigger] self.leases@[j]).is_overdue ==> self
                .leases@[j].is_active
        &&& forall|j: int|
            0 <= j < self.leases@.len() && (#[trigger] self.leases@[j]).is_active ==> {
                let aid = self.leases@[j].asset_id;
                &&& 1 <= aid <= self.assets@.len()
                &&& self.assets@[aid - 1].current_lease_id == j + 1
            }
    }

    /// Well-formedness of the aggregate: each counter equals a recount of
    /// the lease registry, and completed leases are exactly the created ones
    /// that are no longer active.
    pub open spec fn stats_wf(self) -> bool {
        &&& self.stats.total_leases == self.count_leases
        &&& self.stats.active_leases == count_active(self.leases@)
        &&& self.stats.overdue_leases == count_overdue(self.leases@)
        &&& self.stats.active_leases + self.stats.completed_leases == self.stats.total_leases
    }

    /// Well-formedness of the whole state. Established by [`Self::new`] and
    /// preserved by every operation.
    pub open spec fn wf(self) -> bool {
        self.assets_wf() && self.leases_wf() && self.stats_wf()
    }

    /// An empty core: no assets, no leases, all counters at zero.
    pub fn new() -> (s: Self)
        ensures
            s.wf(),
            s.count_assets == 0,
            s.count_leases == 0,
            s.assets@ == Seq::<Asset>::empty(),
            s.leases@ == Seq::<LeaseStatus>::empty(),
            s.stats == (AssetStats {
                active_leases: 0,
                completed_leases: 0,
                overdue_leases: 0,
                total_leases: 0,
                total_xlm_processed: 0,
            }),
    {
        RentPaymentContract {
            count_assets: 0,
            count_leases: 0,
            assets: Vec::new(),
            leases: Vec::new(),
            stats: AssetStats {
                active_leases: 0,
                completed_leases: 0,
                overdue_leases: 0,
                total_leases: 0,
                total_xlm_processed: 0,
            },
        }
    }

    /// Registers a new asset and returns its identifier.
    ///
    /// Identifiers start at 1 and each registration returns exactly one more
    /// than the one before; an identifier is never reused. The new asset is
    /// stored available, with no lease linked, and the aggregate is not
    /// touched. No validation is performed on durations or pricing here:
    /// the bounds only constrain later lease creation.
    pub fn register_asset(
        &mut self,
        owner: u64,
        title: String,
        description: String,
        price_per_period: u64,
        period_duration: u64,
        min_lease_duration: u64,
        max_lease_duration: u64,
        deposit_required: u64,
    ) -> (r: u64)
        requires
            old(self).wf(),
            old(self).count_assets < u64::MAX,
        ensures
            final(self).wf(),
            r == old(self).count_assets + 1,
            final(self).count_assets == r,
            final(self).count_leases == old(self).count_leases,
            final(self).leases@ == old(self).leases@,
            final(self).stats == old(self).stats,
            final(self).assets@.len() == old(self).assets@.len() + 1,
            forall|i: int|
                0 <= i < old(self).assets@.len() ==> final(self).assets@[i] == old(
                    self,
                ).assets@[i],
            fresh_asset(
                final(self).spec_asset(r),
                r,
                owner,
                title@,
                description@,
                price_per_period,
                period_duration,
                min_lease_duration,
                max_lease_duration,
                deposit_required,
            ),
    {
        let id: u64 = self.count_assets + 1;
        let asset = Asset {
            asset_id: id,
            owner: owner,
            title: title,
            description: description,
            price_per_period: price_per_period,
            period_duration: period_duration,
            min_lease_duration: min_lease_duration,
            max_lease_duration: max_lease_duration,
            deposit_required: deposit_required,
            is_available: true,
            current_lease_id: 0,
        };
        self.count_assets = id;
        self.assets.push(asset);
        id
    }

    /// Returns the global aggregate as currently maintained.
    pub fn view_asset_stats(&self) -> (r: AssetStats)
        ensures
            r == self.stats,
    {
        self.stats
    }

    /// Returns the asset named by `asset_id`, or the sentinel asset (with
    /// `asset_id == 0` and placeholder texts) when no such asset exists.
    pub fn view_asset(&self, asset_id: u64) -> (r: Asset)
        ensures
            self.asset_in_range(asset_id) ==> r == self.spec_asset(asset_id),
            !self.asset_in_range(asset_id) ==> is_sentinel_asset(r),
    {
        let key = crate::records::AssetBook::Asset(asset_id);
        let id: u64 = key.id();
        if 1 <= id && id <= self.assets.len() as u64 {
            let k: usize = (id - 1) as usize;
            let a = &self.assets[k];
            Asset {
                asset_id: a.asset_id,
                owner: a.owner,
                title: a.title.clone(),
                description: a.description.clone(),
                price_per_period: a.price_per_period,
                period_duration: a.period_duration,
                min_lease_duration: a.min_lease_duration,
                max_lease_duration: a.max_lease_duration,
                deposit_required: a.deposit_required,
                is_available: a.is_available,
                current_lease_id: a.current_lease_id,
            }
        } else {
            Asset {
                asset_id: 0,
                owner: 0,
                title: "Not_Found".to_string(),
                description: "Not_Found".to_string(),
                price_per_period: 0,
                period_duration: 0,
                min_lease_duration: 0,
                max_lease_duration: 0,
                deposit_required: 0,
                is_available: false,
                current_lease_id: 0,
            }
        }
    }

    /// Returns the lease named by `lease_id`, or the sentinel lease (with
    /// `lease_id == 0` and `is_active == false`) when no such lease exists.
    pub fn view_lease(&self, lease_id: u64) -> (r: LeaseStatus)
        ensures
            self.lease_in_range(lease_id) ==> r == self.spec_lease(lease_id),
            !self.lease_in_range(lease_id) ==> r == sentinel_lease(),
    {
        let key = crate::records::LeaseStatusBook::LeaseStatus(lease_id);
        let id: u64 = key.id();
        if 1 <= id && id <= self.leases.len() as u64 {
            let j: usize = (id - 1) as usize;
            self.leases[j]
        } else {
            LeaseStatus {
                lease_id: 0,
                asset_id: 0,
                lessee: 0,
                start_time: 0,
                end_time: 0,
                period_payment: 0,
                payment_frequency: 0,
                last_payment_time: 0,
                next_payment_time: 0,
                is_active: false,
                is_overdue: false,
                total_paid: 0,
                security_deposit: 0,
            }
        }
    }

    /// Creates a lease on an available asset and returns the new lease
    /// identifier.
    ///
    /// Fails with `NotAvailable` when the asset is missing or already
    /// leased, and with `InvalidDuration` when `lease_duration` falls
    /// outside the asset's `[min_lease_duration, max_lease_duration]` range
    /// (both bounds included). On success the lease starts at `now`, the
    /// opening payment bundles the security deposit with the first period's
    /// price, the asset is linked to the lease, and the aggregate gains one
    /// active and one total lease. On failure nothing changes.
    pub fn create_lease(
        &mut self,
        asset_id: u64,
        lessee: u64,
        lease_duration: u64,
        now: u64,
    ) -> (r: Result<u64, LeaseError>)
        requires
            old(self).wf(),
            old(self).create_ok(asset_id, lease_duration) ==> {
                &&& old(self).count_leases < u64::MAX
                &&& now + lease_duration <= u64::MAX
                &&& now + old(self).spec_asset(asset_id).period_duration <= u64::MAX
                &&& old(self).spec_asset(asset_id).deposit_required + old(self).spec_asset(
                    asset_id,
                ).price_per_period <= u64::MAX
                &&& old(self).stats.total_xlm_processed + old(self).spec_asset(
                    asset_id,
                ).deposit_required + old(self).spec_asset(asset_id).price_per_period <= u64::MAX
            },
        ensures
            final(self).wf(),
            r is Ok <==> old(self).create_ok(asset_id, lease_duration),
            match r {
                Ok(lease_id) => {
                    &&& lease_id == old(self).count_leases + 1
                    &&& final(self).count_leases == lease_id
                    &&& final(self).count_assets == old(self).count_assets
                    &&& final(self).leases@ == old(self).leases@.push(
                        lease_created(
                            old(self).spec_asset(asset_id),
                            lease_id,
                            lessee,
                            lease_duration,
                            now,
                        ),
                    )
                    &&& final(self).assets@.len() == old(self).assets@.len()
                    &&& forall|i: int|
                        0 <= i < old(self).assets@.len() && i != asset_id - 1
                            ==> final(self).assets@[i] == old(self).assets@[i]
                    &&& asset_leased_as(
                        old(self).spec_asset(asset_id),
                        final(self).spec_asset(asset_id),
                        lease_id,
                    )
                    &&& final(self).stats.active_leases == old(self).stats.active_leases + 1
                    &&& final(self).stats.total_leases == old(self).stats.total_leases + 1
                    &&& final(self).stats.completed_leases == old(self).stats.completed_leases
                    &&& final(self).stats.overdue_leases == old(self).stats.overdue_leases
                    &&& final(self).stats.total_xlm_processed == old(
                        self,
                    ).stats.total_xlm_processed + old(self).spec_asset(asset_id).deposit_required
                        + old(self).spec_asset(asset_id).price_per_period
                },
                Err(e) => {
                    &&& *final(self) == *old(self)
                    &&& e == (if !old(self).asset_available(asset_id) {
                        LeaseError::NotAvailable
                    } else {
                        LeaseError::InvalidDuration
                    })
                },
            },
    {
        if !(1 <= asset_id && asset_id <= self.assets.len() as u64) {
            return Err(LeaseError::NotAvailable);
        }
        let k: usize = (asset_id - 1) as usize;
        if !self.assets[k].is_available {
            return Err(LeaseError::NotAvailable);
        }
        if lease_duration < self.assets[k].min_lease_duration || lease_duration
            > self.assets[k].max_lease_duration {
            return Err(LeaseError::InvalidDuration);
        }
        let price: u64 = self.assets[k].price_per_period;
        let period: u64 = self.assets[k].period_duration;
        let deposit: u64 = self.assets[k].deposit_required;
        let lease_id: u64 = self.count_leases + 1;
        let lease = LeaseStatus {
            lease_id: lease_id,
            asset_id: asset_id,
            lessee: lessee,
            start_time: now,
            end_time: now + lease_duration,
            period_payment: price,
            payment_frequency: period,
            last_payment_time: now,
            next_payment_time: now + period,
            is_active: true,
            is_overdue: false,
            total_paid: deposit + price,
            security_deposit: deposit,
        };
        proof {
            lemma_count_active_le_len(self.leases@);
            lemma_count_overdue_le_len(self.leases@);
            lemma_count_active_push(self.leases@, lease);
            lemma_count_overdue_push(self.leases@, lease);
        }
        self.count_leases = lease_id;
        self.leases.push(lease);
        let a = &mut self.assets[k];
        a.is_available = false;
        a.current_lease_id = lease_id;
        self.stats.active_leases = self.stats.active_leases + 1;
        self.stats.total_leases = self.stats.total_leases + 1;
        self.stats.total_xlm_processed = self.stats.total_xlm_processed + (deposit + price);
        proof {
            let pre = *old(self);
            let post = *self;
            assert forall|j: int|
                0 <= j < post.leases@.len() && (#[trigger] post.leases@[j]).is_active implies {
                let aid = post.leases@[j].asset_id;
                &&& 1 <= aid <= post.assets@.len()
                &&& post.assets@[aid - 1].current_lease_id == j + 1
            } by {
                if j < pre.leases@.len() {
                    assert(post.leases@[j] == pre.leases@[j]);
                    let aid = pre.leases@[j].asset_id;
                    assert(1 <= aid <= pre.assets@.len());
                    if aid - 1 == k {
                        // the leased asset was available, so no older active
                        // lease can point at it
                        assert(pre.assets@[k as int].current_lease_id == 0);
                        assert(false);
                    }
                }
            }
            assert(post.leases_wf());
            assert(post.assets_wf());
            assert(post.stats_wf());
        }
        Ok(lease_id)
    }

    /// Records one periodic payment on an active lease.
    ///
    /// Fails with `InactiveLease` when the lease is missing or ended, and
    /// with `Unauthorized` when the caller is not the lessee. On success the
    /// running total grows by exactly one period payment, the schedule
    /// advances by one payment frequency from `now`, and any overdue flag is
    /// cleared — a payment always settles the overdue state, so the overdue
    /// counter drops by one exactly when the lease had been flagged. On
    /// failure nothing changes.
    pub fn process_payment(&mut self, lease_id: u64, caller: u64, now: u64) -> (r: Result<
        (),
        LeaseError,
    >)
        requires
            old(self).wf(),
            old(self).lease_active(lease_id) && caller == old(self).spec_lease(lease_id).lessee
                ==> {
                &&& now + old(self).spec_lease(lease_id).payment_frequency <= u64::MAX
                &&& old(self).spec_lease(lease_id).total_paid + old(self).spec_lease(
                    lease_id,
                ).period_payment <= u64::MAX
                &&& old(self).stats.total_xlm_processed + old(self).spec_lease(
                    lease_id,
                ).period_payment <= u64::MAX
            },
        ensures
            final(self).wf(),
            r is Ok <==> old(self).lease_active(lease_id) && caller == old(self).spec_lease(
                lease_id,
            ).lessee,
            match r {
                Ok(_) => {
                    &&& final(self).leases@ == old(self).leases@.update(
                        lease_id - 1,
                        lease_paid(old(self).spec_lease(lease_id), now),
                    )
                    &&& final(self).assets@ == old(self).assets@
                    &&& final(self).count_assets == old(self).count_assets
                    &&& final(self).count_leases == old(self).count_leases
                    &&& final(self).stats.total_xlm_processed == old(
                        self,
                    ).stats.total_xlm_processed + old(self).spec_lease(lease_id).period_payment
                    &&& final(self).stats.overdue_leases == old(self).stats.overdue_leases - (
                    if old(self).spec_lease(lease_id).is_overdue {
                        1int
                    } else {
                        0int
                    })
                    &&& final(self).stats.active_leases == old(self).stats.active_leases
                    &&& final(self).stats.completed_leases == old(self).stats.completed_leases
                    &&& final(self).stats.total_leases == old(self).stats.total_leases
                },
                Err(e) => {
                    &&& *final(self) == *old(self)
                    &&& e == (if !old(self).lease_active(lease_id) {
                        LeaseError::InactiveLease
                    } else {
                        LeaseError::Unauthorized
                    })
                },
            },
    {
        if !(1 <= lease_id && lease_id <= self.leases.len() as u64) {
            return Err(LeaseError::InactiveLease);
        }
        let j: usize = (lease_id - 1) as usize;
        if !self.leases[j].is_active {
            return Err(LeaseError::InactiveLease);
        }
        if caller != self.leases[j].lessee {
            return Err(LeaseError::Unauthorized);
        }
        let was_overdue: bool = self.leases[j].is_overdue;
        let pay: u64 = self.leases[j].period_payment;
        let freq: u64 = self.leases[j].payment_frequency;
        proof {
            lemma_count_active_update(
                self.leases@,
                j as int,
                lease_paid(self.leases@[j as int], now),
            );
            lemma_count_overdue_update(
                self.leases@,
                j as int,
                lease_paid(self.leases@[j as int], now),
            );
            if was_overdue {
                lemma_count_overdue_at_least_one(self.leases@, j as int);
            }
        }
        let l = &mut self.leases[j];
        l.last_payment_time = now;
        l.next_payment_time = now + freq;
        l.total_paid = l.total_paid + pay;
        l.is_overdue = false;
        self.stats.total_xlm_processed = self.stats.total_xlm_processed + pay;
        if was_overdue {
            self.stats.overdue_leases = self.stats.overdue_leases - 1;
        }
        proof {
            let pre = *old(self);
            let post = *self;
            assert(post.leases@ =~= pre.leases@.update(
                lease_id - 1,
                lease_paid(pre.spec_lease(lease_id), now),
            ));
            assert forall|i: int|
                0 <= i < post.assets@.len() && (#[trigger] post.assets@[i]).current_lease_id != 0
                    implies {
                let lid = post.assets@[i].current_lease_id;
                &&& 1 <= lid <= post.leases@.len()
                &&& post.leases@[lid - 1].is_active
                &&& post.leases@[lid - 1].asset_id == i + 1
            } by {
                assert(pre.assets@[i] == post.assets@[i]);
                let lid = pre.assets@[i].current_lease_id;
                assert(pre.leases@[lid - 1].is_active);
            }
            assert(post.assets_wf());
            assert(post.leases_wf());
            assert(post.stats_wf());
        }
        Ok(())
    }

    /// Ends an active lease, releasing its asset.
    ///
    /// Fails with `InactiveLease` when the lease is missing or already
    /// ended — so a lease can never transition again once ended — and with
    /// `Unauthorized` when the caller is neither the lessee nor the owner of
    /// the leased asset. On success the lease is deactivated (clearing any
    /// overdue flag along with it), the asset becomes available again with
    /// no lease linked, one active lease becomes a completed one, and the
    /// overdue counter drops by one exactly when the lease had been flagged.
    /// On failure nothing changes.
    pub fn end_lease(&mut self, lease_id: u64, caller: u64) -> (r: Result<(), LeaseError>)
        requires
            old(self).wf(),
        ensures
            final(self).wf(),
            r is Ok <==> old(self).lease_active(lease_id) && (caller == old(self).spec_lease(
                lease_id,
            ).lessee || caller == old(self).spec_asset(
                old(self).spec_lease(lease_id).asset_id,
            ).owner),
            match r {
                Ok(_) => {
                    &&& final(self).leases@ == old(self).leases@.update(
                        lease_id - 1,
                        lease_ended(old(self).spec_lease(lease_id)),
                    )
                    &&& final(self).assets@.len() == old(self).assets@.len()
                    &&& forall|i: int|
                        0 <= i < old(self).assets@.len() && i != old(self).spec_lease(
                            lease_id,
                        ).asset_id - 1 ==> final(self).assets@[i] == old(self).assets@[i]
                    &&& asset_released_as(
                        old(self).spec_asset(old(self).spec_lease(lease_id).asset_id),
                        final(self).spec_asset(old(self).spec_lease(lease_id).asset_id),
                    )
                    &&& final(self).count_assets == old(self).count_assets
                    &&& final(self).count_leases == old(self).count_leases
                    &&& final(self).stats.active_leases == old(self).stats.active_leases - 1
                    &&& final(self).stats.completed_leases == old(self).stats.completed_leases
                        + 1
                    &&& final(self).stats.overdue_leases == old(self).stats.overdue_leases - (
                    if old(self).spec_lease(lease_id).is_overdue {
                        1int
                    } else {
                        0int
                    })
                    &&& final(self).stats.total_leases == old(self).stats.total_leases
                    &&& final(self).stats.total_xlm_processed == old(
                        self,
                    ).stats.total_xlm_processed
                },
                Err(e) => {
                    &&& *final(self) == *old(self)
                    &&& e == (if !old(self).lease_active(lease_id) {
                        LeaseError::InactiveLease
                    } else {
                        LeaseError::Unauthorized
                    })
                },
            },
    {
        if !(1 <= lease_id && lease_id <= self.leases.len() as u64) {
            return Err(LeaseError::InactiveLease);
        }
        let j: usize = (lease_id - 1) as usize;
        if !self.leases[j].is_active {
            return Err(LeaseError::InactiveLease);
        }
        let aid: u64 = self.leases[j].asset_id;
        let assets_len: usize = self.assets.len();
        proof {
            assert(self.leases@[j as int].is_active);
            assert(1 <= self.leases@[j as int].asset_id <= self.assets@.len());
            assert(self.assets@[aid - 1].current_lease_id == j + 1);
            assert(aid - 1 < assets_len);
        }
        let k: usize = (aid - 1) as usize;
        if caller != self.leases[j].lessee && caller != self.assets[k].owner {
            return Err(LeaseError::Unauthorized);
        }
        let was_overdue: bool = self.leases[j].is_overdue;
        proof {
            lemma_count_active_update(
                self.leases@,
                j as int,
                lease_ended(self.leases@[j as int]),
            );
            lemma_count_overdue_update(
                self.leases@,
                j as int,
                lease_ended(self.leases@[j as int]),
            );
            lemma_count_active_at_least_one(self.leases@, j as int);
            if was_overdue {
                lemma_count_overdue_at_least_one(self.leases@, j as int);
            }
        }
        let l = &mut self.leases[j];
        l.is_active = false;
        l.is_overdue = false;
        let a = &mut self.assets[k];
        a.is_available = true;
        a.current_lease_id = 0;
        self.stats.active_leases = self.stats.active_leases - 1;
        self.stats.completed_leases = self.stats.completed_leases + 1;
        if was_overdue {
            self.stats.overdue_leases = self.stats.overdue_leases - 1;
        }
        proof {
            let pre = *old(self);
            let post = *self;
            assert(post.leases@ =~= pre.leases@.update(
                lease_id - 1,
                lease_ended(pre.spec_lease(lease_id)),
            ));
            assert forall|i: int|
                0 <= i < post.assets@.len() && (#[trigger] post.assets@[i]).current_lease_id != 0
                    implies {
                let lid = post.assets@[i].current_lease_id;
                &&& 1 <= lid <= post.leases@.len()
                &&& post.leases@[lid - 1].is_active
                &&& post.leases@[lid - 1].asset_id == i + 1
            } by {
                assert(i != k as int);
                assert(pre.assets@[i] == post.assets@[i]);
                let lid = pre.assets@[i].current_lease_id;
                assert(pre.leases@[lid - 1].is_active);
                assert(pre.leases@[lid - 1].asset_id == i + 1);
                // the ended lease was linked from asset `k` alone, so the
                // link of asset `i` names some other, untouched lease
                assert(pre.leases@[j as int].is_active);
                assert(pre.assets@[k as int].current_lease_id == j + 1);
                assert(lid - 1 != j as int);
            }
            assert forall|jj: int|
                0 <= jj < post.leases@.len() && (#[trigger] post.leases@[jj]).is_active implies {
                let aid2 = post.leases@[jj].asset_id;
                &&& 1 <= aid2 <= post.assets@.len()
                &&& post.assets@[aid2 - 1].current_lease_id == jj + 1
            } by {
                assert(jj != j as int);
                assert(post.leases@[jj] == pre.leases@[jj]);
                let aid2 = pre.leases@[jj].asset_id;
                assert(pre.assets@[aid2 - 1].current_lease_id == jj + 1);
                assert(pre.leases@[j as int].is_active);
                assert(pre.assets@[k as int].current_lease_id == j + 1);
                assert(aid2 - 1 != k as int);
            }
            assert(post.assets_wf());
            assert(post.leases_wf());
            assert(post.stats_wf());
        }
        Ok(())
    }

    /// Flags an active lease as overdue once its next payment time has been
    /// reached.
    ///
    /// Fails with `InactiveLease` when the lease is missing or ended, with
    /// `Unauthorized` when the caller is not the owner of the leased asset,
    /// and with `NotYetDue` when `now` is still before the next payment
    /// time. On success the lease carries the overdue flag; the overdue
    /// counter grows by one exactly when the lease was not flagged before,
    /// so repeated marking within one overdue window cannot inflate the
    /// aggregate. On failure nothing changes.
    pub fn mark_lease_overdue(&mut self, lease_id: u64, caller: u64, now: u64) -> (r: Result<
        (),
        LeaseError,
    >)
        requires
            old(self).wf(),
        ensures
            final(self).wf(),
            r is Ok <==> old(self).lease_active(lease_id) && caller == old(self).spec_asset(
                old(self).spec_lease(lease_id).asset_id,
            ).owner && now >= old(self).spec_lease(lease_id).next_payment_time,
            match r {
                Ok(_) => {
                    &&& final(self).leases@ == old(self).leases@.update(
                        lease_id - 1,
                        lease_marked(old(self).spec_lease(lease_id)),
                    )
                    &&& final(self).assets@ == old(self).assets@
                    &&& final(self).count_assets == old(self).count_assets
                    &&& final(self).count_leases == old(self).count_leases
                    &&& final(self).stats.overdue_leases == old(self).stats.overdue_leases + (
                    if old(self).spec_lease(lease_id).is_overdue {
                        0int
                    } else {
                        1int
                    })
                    &&& final(self).stats.active_leases == old(self).stats.active_leases
                    &&& final(self).stats.completed_leases == old(self).stats.completed_leases
                    &&& final(self).stats.total_leases == old(self).stats.total_leases
                    &&& final(self).stats.total_xlm_processed == old(
                        self,
                    ).stats.total_xlm_processed
                },
                Err(e) => {
                    &&& *final(self) == *old(self)
                    &&& e == (if !old(self).lease_active(lease_id) {
                        LeaseError::InactiveLease
                    } else if caller != old(self).spec_asset(
                        old(self).spec_lease(lease_id).asset_id,
                    ).owner {
                        LeaseError::Unauthorized
                    } else {
                        LeaseError::NotYetDue
                    })
                },
            },
    {
        if !(1 <= lease_id && lease_id <= self.leases.len() as u64) {
            return Err(LeaseError::InactiveLease);
        }
        let j: usize = (lease_id - 1) as usize;
        if !self.leases[j].is_active {
            return Err(LeaseError::InactiveLease);
        }
        let aid: u64 = self.leases[j].asset_id;
        let assets_len: usize = self.assets.len();
        proof {
            assert(self.leases@[j as int].is_active);
            assert(1 <= self.leases@[j as int].asset_id <= self.assets@.len());
            assert(aid - 1 < assets_len);
        }
        let k: usize = (aid - 1) as usize;
        if caller != self.assets[k].owner {
            return Err(LeaseError::Unauthorized);
        }
        if now < self.leases[j].next_payment_time {
            return Err(LeaseError::NotYetDue);
        }
        let was_overdue: bool = self.leases[j].is_overdue;
        proof {
            lemma_count_active_update(
                self.leases@,
                j as int,
                lease_marked(self.leases@[j as int]),
            );
            lemma_count_overdue_update(
                self.leases@,
                j as int,
                lease_marked(self.leases@[j as int]),
            );
            if !was_overdue {
                lemma_count_overdue_missing_one(self.leases@, j as int);
            }
        }
        let l = &mut self.leases[j];
        l.is_overdue = true;
        if !was_overdue {
            self.stats.overdue_leases = self.stats.overdue_leases + 1;
        }
        proof {
            let pre = *old(self);
            let post = *self;
            assert(post.leases@ =~= pre.leases@.update(
                lease_id - 1,
                lease_marked(pre.spec_lease(lease_id)),
            ));
            assert forall|i: int|
                0 <= i < post.assets@.len() && (#[trigger] post.assets@[i]).current_lease_id != 0
                    implies {
                let lid = post.assets@[i].current_lease_id;
                &&& 1 <= lid <= post.leases@.len()
                &&& post.leases@[lid - 1].is_active
                &&& post.leases@[lid - 1].asset_id == i + 1
            } by {
                assert(pre.assets@[i] == post.assets@[i]);
                let lid = pre.assets@[i].current_lease_id;
                assert(pre.leases@[lid - 1].is_active);
            }
            assert(post.assets_wf());
            assert(post.leases_wf());
            assert(post.stats_wf());
        }
        Ok(())
    }

    /// Returns the identifiers of all assets owned by `owner`, scanning the
    /// full identifier range in ascending order.
    pub fn get_owner_assets(&self, owner: u64) -> (r: Vec<u64>)
        ensures
            r@ == owner_assets_of(self.assets@, owner),
    {
        let mut out: Vec<u64> = Vec::new();
        let n: usize = self.assets.len();
        let mut i: usize = 0;
        while i < n
            invariant
                n == self.assets@.len(),
                0 <= i <= n,
                out@ == owner_assets_of(self.assets@.take(i as int), owner),
            decreases n - i,
        {
            proof {
                assert(self.assets@.take(i + 1).drop_last() =~= self.assets@.take(i as int));
                assert(self.assets@.take(i + 1).last() == self.assets@[i as int]);
            }
            if self.assets[i].owner == owner {
                out.push(self.assets[i].asset_id);
            }
            i = i + 1;
        }
        proof {
            assert(self.assets@.take(n as int) =~= self.assets@);
        }
        out
    }

    /// Returns the identifiers of all active leases held by `lessee`,
    /// scanning the full identifier range in ascending order.
    pub fn get_lessee_leases(&self, lessee: u64) -> (r: Vec<u64>)
        ensures
            r@ == lessee_leases_of(self.leases@, lessee),
    {
        let mut out: Vec<u64> = Vec::new();
        let n: usize = self.leases.len();
        let mut i: usize = 0;
        while i < n
            invariant
                n == self.leases@.len(),
                0 <= i <= n,
                out@ == lessee_leases_of(self.leases@.take(i as int), lessee),
            decreases n - i,
        {
            proof {
                assert(self.leases@.take(i + 1).drop_last() =~= self.leases@.take(i as int));
                assert(self.leases@.take(i + 1).last() == self.leases@[i as int]);
            }
            if self.leases[i].lessee == lessee && self.leases[i].is_active {
                out.push(self.leases[i].lease_id);
            }
            i = i + 1;
        }
        proof {
            assert(self.leases@.take(n as int) =~= self.leases@);
        }
        out
    }
}

/// The law the aggregate lives by: in any well-formed state it can be
/// recomputed from the lease registry alone. The counters equal a recount of
/// the records, active and completed leases partition all leases ever
/// created, and overdue leases never outnumber active ones.
pub proof fn lemma_stats_match_registry(s: RentPaymentContract)
    requires
        s.wf(),
    ensures
        s.stats.total_leases == s.leases@.len(),
        s.stats.active_leases == count_active(s.leases@),
        s.stats.overdue_leases == count_overdue(s.leases@),
        s.stats.active_leases + s.stats.completed_leases == s.stats.total_leases,
        s.stats.overdue_leases <= s.stats.active_leases,
        s.stats.active_leases <= s.stats.total_leases,
{
    lemma_count_overdue_le_active(s.leases@);
    lemma_count_active_le_len(s.leases@);
}

} // verus!

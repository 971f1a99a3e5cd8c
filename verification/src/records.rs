//! The two ledger records and the per-record transitions: campaign creation,
//! the view-event state transition on a campaign, and reward accrual.

use vstd::prelude::*;

verus! {

/// An opaque identity token: the externally verified principal that owns a
/// campaign or accrues rewards. The host authenticates a caller as the holder
/// of a token before an operation runs on its behalf; the ledger only compares
/// tokens for equality.
#[derive(Clone, Copy, PartialEq, Eq, Structural, Debug)]
pub struct AccountId {
    pub token: u64,
}

/// The fixed, recognizable identity carried by the placeholder record that
/// stands for "no such campaign".
pub const PLACEHOLDER_TOKEN: u64 = 0;

/// Why a view event was rejected. Both rejections are fatal to the current
/// operation; neither is retried.
#[derive(Clone, Copy, PartialEq, Eq, Structural, Debug)]
pub enum AdError {
    /// The campaign is marked inactive — or does not exist at all, since an
    /// unknown id resolves to the inactive placeholder record.
    InactiveCampaign,
    /// The campaign's remaining budget cannot fund one full payout. Rejecting
    /// on this ground deactivates the campaign, and the deactivation persists
    /// even though the view itself is refused.
    BudgetExhausted,
}

/// One advertisement campaign: a spending cap (`total_budget`), a fixed payout
/// per accepted view (`reward_per_view`), and the mutable accounting state.
#[derive(Clone, Copy, PartialEq, Eq, Structural, Debug)]
pub struct Advertisement {
    pub ad_id: u64,
    pub advertiser: AccountId,
    pub reward_per_view: u64,
    pub total_budget: u64,
    pub remaining_budget: u64,
    pub total_views: u64,
    pub is_active: bool,
}

impl Advertisement {
    /// Budget accounting invariant: every accepted view consumed exactly
    /// `reward_per_view`, so what remains is the cap minus the total paid out,
    /// and the total paid out never exceeds the cap.
    pub open spec fn wf(self) -> bool {
        &&& self.total_views * self.reward_per_view <= self.total_budget
        &&& self.remaining_budget == self.total_budget - self.total_views * self.reward_per_view
    }

    /// One more full payout fits in the remaining budget.
    pub open spec fn can_fund_view(self) -> bool {
        self.remaining_budget >= self.reward_per_view
    }

    /// A fresh campaign: full budget remaining, no views, active. No bound is
    /// demanded between `reward_per_view` and `total_budget`: creation accepts
    /// any pair, a deliberate gap in the rules.
    pub open spec fn spec_new(
        ad_id: u64,
        advertiser: AccountId,
        reward_per_view: u64,
        total_budget: u64,
    ) -> Advertisement {
        Advertisement {
            ad_id,
            advertiser,
            reward_per_view,
            total_budget,
            remaining_budget: total_budget,
            total_views: 0,
            is_active: true,
        }
    }

    /// The zero-valued inactive record that an unknown campaign id resolves
    /// to. Callers recognize it by `ad_id == 0` (a real id is never 0) or by
    /// the placeholder identity in `advertiser`.
    pub open spec fn spec_placeholder() -> Advertisement {
        Advertisement {
            ad_id: 0,
            advertiser: AccountId { token: PLACEHOLDER_TOKEN },
            reward_per_view: 0,
            total_budget: 0,
            remaining_budget: 0,
            total_views: 0,
            is_active: false,
        }
    }

    /// The record after one accepted view: one more view counted, one payout
    /// deducted, and the campaign proactively deactivated when what remains
    /// can no longer fund a further view.
    pub open spec fn spec_after_view(self) -> Advertisement {
        Advertisement {
            ad_id: self.ad_id,
            advertiser: self.advertiser,
            reward_per_view: self.reward_per_view,
            total_budget: self.total_budget,
            remaining_budget: (self.remaining_budget - self.reward_per_view) as u64,
            total_views: (self.total_views + 1) as u64,
            is_active: self.remaining_budget - self.reward_per_view >= self.reward_per_view,
        }
    }

    /// The record with the campaign switched off; every other field is kept.
    pub open spec fn spec_deactivated(self) -> Advertisement {
        Advertisement {
            ad_id: self.ad_id,
            advertiser: self.advertiser,
            reward_per_view: self.reward_per_view,
            total_budget: self.total_budget,
            remaining_budget: self.remaining_budget,
            total_views: self.total_views,
            is_active: false,
        }
    }

    /// Construct a fresh campaign record.
    pub fn new(
        ad_id: u64,
        advertiser: AccountId,
        reward_per_view: u64,
        total_budget: u64,
    ) -> (ad: Advertisement)
        ensures
            ad == Advertisement::spec_new(ad_id, advertiser, reward_per_view, total_budget),
            ad.wf(),
            ad.is_active,
    {
        Advertisement {
            ad_id,
            advertiser,
            reward_per_view,
            total_budget,
            remaining_budget: total_budget,
            total_views: 0,
            is_active: true,
        }
    }

    /// Construct the placeholder record for an unknown campaign id.
    pub fn placeholder() -> (ad: Advertisement)
        ensures
            ad == Advertisement::spec_placeholder(),
            ad.wf(),
            !ad.is_active,
    {
        Advertisement {
            ad_id: 0,
            advertiser: AccountId { token: PLACEHOLDER_TOKEN },
            reward_per_view: 0,
            total_budget: 0,
            remaining_budget: 0,
            total_views: 0,
            is_active: false,
        }
    }

    /// The view-event state transition on one campaign record.
    ///
    /// An inactive record rejects the view and is left untouched. An active
    /// record that cannot fund a full payout rejects the view and is
    /// deactivated — a state change the caller must persist despite the
    /// rejection. Otherwise the view is accepted: the view counter rises by
    /// one, the remaining budget falls by exactly `reward_per_view`, the
    /// record deactivates proactively if another payout no longer fits, and
    /// the payout amount is returned for the caller to credit the viewer.
    pub fn apply_view(&mut self) -> (result: Result<u64, AdError>)
        requires
            old(self).wf(),
            old(self).is_active && old(self).can_fund_view() ==> old(self).total_views
                < u64::MAX,
        ensures
            final(self).wf(),
            !old(self).is_active ==> result == Err::<u64, AdError>(AdError::InactiveCampaign)
                && *final(self) == *old(self),
            old(self).is_active && !old(self).can_fund_view() ==> result == Err::<u64, AdError>(
                AdError::BudgetExhausted,
            ) && *final(self) == old(self).spec_deactivated(),
            old(self).is_active && old(self).can_fund_view() ==> result == Ok::<u64, AdError>(
                old(self).reward_per_view,
            ) && *final(self) == old(self).spec_after_view(),
            !old(self).is_active ==> !final(self).is_active,
    {
        if !self.is_active {
            return Err(AdError::InactiveCampaign);
        }
        if self.remaining_budget < self.reward_per_view {
            self.is_active = false;
            return Err(AdError::BudgetExhausted);
        }
        proof {
            let tv = old(self).total_views as int;
            let rpv = old(self).reward_per_view as int;
            assert((tv + 1) * rpv == tv * rpv + rpv) by (nonlinear_arith);
        }
        self.total_views = self.total_views + 1;
        self.remaining_budget = self.remaining_budget - self.reward_per_view;
        if self.remaining_budget < self.reward_per_view {
            self.is_active = false;
        }
        Ok(self.reward_per_view)
    }
}

/// One user's accrued rewards: the sum of every payout earned and the count of
/// accepted views, across all campaigns. Created lazily: a never-seen user
/// conceptually owns the zero-valued record.
#[derive(Clone, Copy, PartialEq, Eq, Structural, Debug)]
pub struct UserRewards {
    pub user: AccountId,
    pub total_earned: u64,
    pub ads_viewed: u64,
}

impl UserRewards {
    /// The zero-valued record a never-seen user conceptually owns.
    pub open spec fn spec_zero(user: AccountId) -> UserRewards {
        UserRewards { user, total_earned: 0, ads_viewed: 0 }
    }

    /// The record after accruing one accepted view worth `amount`.
    pub open spec fn spec_credited(self, amount: u64) -> UserRewards {
        UserRewards {
            user: self.user,
            total_earned: (self.total_earned + amount) as u64,
            ads_viewed: (self.ads_viewed + 1) as u64,
        }
    }

    /// Construct the zero-valued record for `user`.
    pub fn zero(user: AccountId) -> (rec: UserRewards)
        ensures
            rec == UserRewards::spec_zero(user),
    {
        UserRewards { user, total_earned: 0, ads_viewed: 0 }
    }

    /// Accrue one accepted view worth `amount`: the earnings rise by exactly
    /// `amount` and the view count by exactly one; the owner is unchanged.
    pub fn credit(&mut self, amount: u64)
        requires
            old(self).total_earned + amount <= u64::MAX,
            old(self).ads_viewed < u64::MAX,
        ensures
            *final(self) == old(self).spec_credited(amount),
            final(self).user == old(self).user,
    {
        self.total_earned = self.total_earned + amount;
        self.ads_viewed = self.ads_viewed + 1;
    }
}

} // verus!

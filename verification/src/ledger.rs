//! The whole-ledger state and the four operations: minting a campaign,
//! recording a view event, and the two pure reads.

use crate::records::AccountId;
use crate::records::AdError;
use crate::records::Advertisement;
use crate::records::UserRewards;
use vstd::prelude::*;

verus! {

/// Key space of the campaign ledger in the durable store: one entry per minted
/// id. The in-memory ledger keeps the entry for id `i` at position `i - 1`.
#[derive(Clone, Copy, PartialEq, Eq, Structural, Debug)]
pub enum AdBook {
    Ad(u64),
}

/// Key space of the reward ledger in the durable store: one entry per identity
/// that has had a view accepted.
#[derive(Clone, Copy, PartialEq, Eq, Structural, Debug)]
pub enum RewardBook {
    User(AccountId),
}

/// The campaign record an id resolves to: the stored entry when the id was
/// minted, else the zero-valued inactive placeholder.
pub open spec fn ad_or_placeholder(ads: Seq<Advertisement>, ad_id: u64) -> Advertisement {
    if 1 <= ad_id && ad_id <= ads.len() {
        ads[ad_id - 1]
    } else {
        Advertisement::spec_placeholder()
    }
}

/// No two reward entries belong to the same identity.
pub open spec fn entries_distinct(rewards: Seq<UserRewards>) -> bool {
    forall|i: int, j: int|
        0 <= i < j < rewards.len() ==> rewards[i].user != rewards[j].user
}

/// Some reward entry belongs to `user`.
pub open spec fn has_entry(rewards: Seq<UserRewards>, user: AccountId) -> bool {
    exists|i: int| 0 <= i < rewards.len() && rewards[i].user == user
}

/// The position of `user`'s reward entry, when one exists.
pub open spec fn entry_index(rewards: Seq<UserRewards>, user: AccountId) -> int {
    choose|i: int| 0 <= i < rewards.len() && rewards[i].user == user
}

/// The reward record a user resolves to: the stored entry when one exists,
/// else the zero-valued record.
pub open spec fn entry_or_zero(rewards: Seq<UserRewards>, user: AccountId) -> UserRewards {
    if has_entry(rewards, user) {
        rewards[entry_index(rewards, user)]
    } else {
        UserRewards::spec_zero(user)
    }
}

/// A stored entry at position `i` is exactly what its owner resolves to: under
/// distinctness of owners the position is unique.
proof fn lemma_entry_at(rewards: Seq<UserRewards>, user: AccountId, i: int)
    requires
        entries_distinct(rewards),
        0 <= i < rewards.len(),
        rewards[i].user == user,
    ensures
        has_entry(rewards, user),
        entry_index(rewards, user) == i,
        entry_or_zero(rewards, user) == rewards[i],
{
    assert(has_entry(rewards, user));
    let j = entry_index(rewards, user);
    assert(0 <= j < rewards.len() && rewards[j].user == user);
    if i < j {
        assert(rewards[i].user != rewards[j].user);
    } else if j < i {
        assert(rewards[j].user != rewards[i].user);
    }
}

/// A user without a stored entry resolves to the zero-valued record.
proof fn lemma_no_entry(rewards: Seq<UserRewards>, user: AccountId)
    requires
        forall|j: int| 0 <= j < rewards.len() ==> rewards[j].user != user,
    ensures
        !has_entry(rewards, user),
        entry_or_zero(rewards, user) == UserRewards::spec_zero(user),
{
    if has_entry(rewards, user) {
        let j = choose|j: int| 0 <= j < rewards.len() && rewards[j].user == user;
        assert(rewards[j].user != user);
    }
}

/// Replacing the entry at `i` with a record of the same owner keeps owners
/// distinct and leaves what every other user resolves to unchanged.
proof fn lemma_entry_update(rewards: Seq<UserRewards>, i: int, rec: UserRewards)
    requires
        entries_distinct(rewards),
        0 <= i < rewards.len(),
        rec.user == rewards[i].user,
    ensures
        entries_distinct(rewards.update(i, rec)),
        entry_or_zero(rewards.update(i, rec), rec.user) == rec,
        forall|other: AccountId|
            other != rec.user ==> entry_or_zero(rewards.update(i, rec), other) == entry_or_zero(
                rewards,
                other,
            ),
{
    let updated = rewards.update(i, rec);
    assert forall|p: int, q: int|
        0 <= p < q < updated.len() implies updated[p].user != updated[q].user by {
        if p != i && q != i {
            assert(rewards[p].user != rewards[q].user);
        }
    }
    lemma_entry_at(updated, rec.user, i);
    assert forall|other: AccountId|
        other != rec.user implies entry_or_zero(updated, other) == entry_or_zero(
        rewards,
        other,
    ) by {
        if has_entry(rewards, other) {
            let j = entry_index(rewards, other);
            assert(0 <= j < rewards.len() && rewards[j].user == other);
            assert(updated[j].user == other);
            lemma_entry_at(rewards, other, j);
            lemma_entry_at(updated, other, j);
        } else {
            assert forall|j: int| 0 <= j < updated.len() implies updated[j].user != other by {
                if j != i {
                    if rewards[j].user == other {
                        assert(has_entry(rewards, other));
                    }
                }
            }
            lemma_no_entry(updated, other);
            assert forall|j: int| 0 <= j < rewards.len() implies rewards[j].user != other by {
                if rewards[j].user == other {
                    assert(has_entry(rewards, other));
                }
            }
            lemma_no_entry(rewards, other);
        }
    }
}

/// Appending an entry for a user who has none keeps owners distinct and leaves
/// what every other user resolves to unchanged.
proof fn lemma_entry_push(rewards: Seq<UserRewards>, rec: UserRewards)
    requires
        entries_distinct(rewards),
        forall|j: int| 0 <= j < rewards.len() ==> rewards[j].user != rec.user,
    ensures
        entries_distinct(rewards.push(rec)),
        entry_or_zero(rewards.push(rec), rec.user) == rec,
        forall|other: AccountId|
            other != rec.user ==> entry_or_zero(rewards.push(rec), other) == entry_or_zero(
                rewards,
                other,
            ),
{
    let pushed = rewards.push(rec);
    assert forall|p: int, q: int|
        0 <= p < q < pushed.len() implies pushed[p].user != pushed[q].user by {
        if q < rewards.len() {
            assert(rewards[p].user != rewards[q].user);
        } else {
            assert(pushed[q] == rec);
            assert(pushed[p] == rewards[p]);
        }
    }
    lemma_entry_at(pushed, rec.user, rewards.len() as int);
    assert forall|other: AccountId|
        other != rec.user implies entry_or_zero(pushed, other) == entry_or_zero(
        rewards,
        other,
    ) by {
        if has_entry(rewards, other) {
            let j = entry_index(rewards, other);
            assert(0 <= j < rewards.len() && rewards[j].user == other);
            assert(pushed[j].user == other);
            lemma_entry_at(rewards, other, j);
            lemma_entry_at(pushed, other, j);
        } else {
            assert forall|j: int| 0 <= j < rewards.len() implies rewards[j].user != other by {
                if rewards[j].user == other {
                    assert(has_entry(rewards, other));
                }
            }
            assert forall|j: int| 0 <= j < pushed.len() implies pushed[j].user != other by {
                if j >= rewards.len() {
                    assert(pushed[j] == rec);
                }
            }
            lemma_no_entry(pushed, other);
            lemma_no_entry(rewards, other);
        }
    }
}

/// The whole ledger: the id-minting counter, the campaign ledger (the entry
/// for id `i` stands at position `i - 1`), and the reward ledger (one entry
/// per identity, in first-view order).
#[derive(Clone, Debug)]
pub struct DecentralizedAdContract {
    pub ad_count: u64,
    pub ads: Vec<Advertisement>,
    pub rewards: Vec<UserRewards>,
}

impl DecentralizedAdContract {
    /// Well-formedness: the counter counts the campaign entries, ids are
    /// consecutive from 1 in minting order, every campaign obeys the budget
    /// accounting invariant, and reward entries have pairwise distinct owners.
    pub open spec fn wf(self) -> bool {
        &&& self.ads@.len() == self.ad_count
        &&& forall|i: int|
            0 <= i < self.ads@.len() ==> (#[trigger] self.ads@[i]).ad_id == i + 1
        &&& forall|i: int| 0 <= i < self.ads@.len() ==> (#[trigger] self.ads@[i]).wf()
        &&& entries_distinct(self.rewards@)
    }

    /// The campaign record `ad_id` resolves to.
    pub open spec fn spec_get_ad(self, ad_id: u64) -> Advertisement {
        ad_or_placeholder(self.ads@, ad_id)
    }

    /// The reward record `user` resolves to.
    pub open spec fn spec_get_rewards(self, user: AccountId) -> UserRewards {
        entry_or_zero(self.rewards@, user)
    }

    /// The view would be accepted: the campaign is active and can fund one
    /// more payout.
    pub open spec fn view_allowed(self, ad_id: u64) -> bool {
        self.spec_get_ad(ad_id).is_active && self.spec_get_ad(ad_id).can_fund_view()
    }

    /// The counters an accepted view raises have headroom: a machine limit,
    /// not a rule of the ledger.
    pub open spec fn view_fits(self, ad_id: u64, viewer: AccountId) -> bool {
        &&& self.spec_get_ad(ad_id).total_views < u64::MAX
        &&& self.spec_get_rewards(viewer).total_earned + self.spec_get_ad(ad_id).reward_per_view
            <= u64::MAX
        &&& self.spec_get_rewards(viewer).ads_viewed < u64::MAX
    }

    /// An empty ledger: counter at zero, no campaigns, no reward entries.
    pub fn new() -> (c: DecentralizedAdContract)
        ensures
            c.wf(),
            c.ad_count == 0,
            c.ads@.len() == 0,
            c.rewards@.len() == 0,
    {
        DecentralizedAdContract { ad_count: 0, ads: Vec::new(), rewards: Vec::new() }
    }

    /// Mint a new campaign for `advertiser`.
    ///
    /// The returned id is one above the counter — strictly greater than every
    /// id minted before, so ids never repeat — and the stored record starts
    /// with the full budget remaining, no views, and the campaign active.
    /// Neither `reward_per_view` nor `total_budget` is validated: any pair is
    /// accepted, a deliberate gap in the rules. No other campaign and no
    /// reward record changes. The host must have authenticated the caller as
    /// `advertiser` before this runs.
    pub fn create_ad(
        &mut self,
        advertiser: AccountId,
        reward_per_view: u64,
        total_budget: u64,
    ) -> (ad_id: u64)
        requires
            old(self).wf(),
            old(self).ad_count < u64::MAX,
        ensures
            final(self).wf(),
            ad_id == old(self).ad_count + 1,
            final(self).ad_count == ad_id,
            final(self).ads@ == old(self).ads@.push(
                Advertisement::spec_new(ad_id, advertiser, reward_per_view, total_budget),
            ),
            final(self).rewards@ == old(self).rewards@,
            final(self).spec_get_ad(ad_id) == Advertisement::spec_new(
                ad_id,
                advertiser,
                reward_per_view,
                total_budget,
            ),
            forall|other: u64|
                other != ad_id ==> final(self).spec_get_ad(other) == old(self).spec_get_ad(other),
            forall|u: AccountId| final(self).spec_get_rewards(u) == old(self).spec_get_rewards(u),
    {
        let ad_id = self.ad_count + 1;
        let ad = Advertisement::new(ad_id, advertiser, reward_per_view, total_budget);
        self.ads.push(ad);
        self.ad_count = ad_id;
        ad_id
    }

    /// Record one view event by `viewer` on campaign `ad_id`.
    ///
    /// An unknown id resolves to the inactive placeholder, so it is rejected
    /// as `InactiveCampaign` with nothing changed, exactly like a deactivated
    /// campaign. An active campaign that cannot fund a full payout is rejected
    /// as `BudgetExhausted`, and its deactivation is committed despite the
    /// rejection. Otherwise the view is accepted: the campaign pays out
    /// exactly `reward_per_view`, deactivating proactively when another
    /// payout no longer fits, and the viewer's record — created now if this
    /// is the viewer's first accepted view — accrues that payout and one view.
    /// No other campaign and no other user's record ever changes, and a
    /// campaign once inactive never reactivates. The host must have
    /// authenticated the caller as `viewer` before this runs.
    pub fn view_ad(&mut self, ad_id: u64, viewer: AccountId) -> (result: Result<(), AdError>)
        requires
            old(self).wf(),
            old(self).view_allowed(ad_id) ==> old(self).view_fits(ad_id, viewer),
        ensures
            final(self).wf(),
            final(self).ad_count == old(self).ad_count,
            ({
                let pre = *old(self);
                let post = *final(self);
                let ad = pre.spec_get_ad(ad_id);
                &&& (!ad.is_active ==> result == Err::<(), AdError>(AdError::InactiveCampaign)
                    && post == pre)
                &&& (ad.is_active && !ad.can_fund_view() ==> {
                    &&& result == Err::<(), AdError>(AdError::BudgetExhausted)
                    &&& post.ads@ == pre.ads@.update(ad_id - 1, ad.spec_deactivated())
                    &&& post.rewards@ == pre.rewards@
                })
                &&& (ad.is_active && ad.can_fund_view() ==> {
                    &&& result == Ok::<(), AdError>(())
                    &&& post.ads@ == pre.ads@.update(ad_id - 1, ad.spec_after_view())
                    &&& post.spec_get_rewards(viewer) == pre.spec_get_rewards(
                        viewer,
                    ).spec_credited(ad.reward_per_view)
                })
                &&& forall|u: AccountId|
                    u != viewer ==> post.spec_get_rewards(u) == pre.spec_get_rewards(u)
                &&& forall|other: u64|
                    other != ad_id ==> post.spec_get_ad(other) == pre.spec_get_ad(other)
                &&& forall|id: u64|
                    !pre.spec_get_ad(id).is_active ==> !post.spec_get_ad(id).is_active
            }),
    {
        let n: usize = self.ads.len();
        if ad_id == 0 || ad_id > n as u64 {
            return Err(AdError::InactiveCampaign);
        }
        let idx: usize = (ad_id - 1) as usize;
        let mut ad = self.ads[idx];
        proof {
            assert(ad == old(self).spec_get_ad(ad_id));
        }
        if !ad.is_active {
            return Err(AdError::InactiveCampaign);
        }
        let outcome = ad.apply_view();
        match outcome {
            Err(err) => {
                self.ads[idx] = ad;
                Err(err)
            },
            Ok(reward) => {
                self.ads[idx] = ad;
                match Self::find_rewards_index(&self.rewards, viewer) {
                    Some(i) => {
                        proof {
                            lemma_entry_at(self.rewards@, viewer, i as int);
                        }
                        let mut rec = self.rewards[i];
                        rec.credit(reward);
                        self.rewards[i] = rec;
                        proof {
                            lemma_entry_update(old(self).rewards@, i as int, rec);
                        }
                    },
                    None => {
                        let mut rec = UserRewards::zero(viewer);
                        rec.credit(reward);
                        self.rewards.push(rec);
                        proof {
                            lemma_no_entry(old(self).rewards@, viewer);
                            lemma_entry_push(old(self).rewards@, rec);
                        }
                    },
                }
                Ok(())
            },
        }
    }

    /// Pure read: the stored campaign record, or the zero-valued inactive
    /// placeholder when no campaign carries `ad_id`. Borrows the ledger
    /// immutably, so no number of calls can change stored state, and equal
    /// states always yield the same record.
    pub fn get_ad(&self, ad_id: u64) -> (ad: Advertisement)
        requires
            self.wf(),
        ensures
            ad == self.spec_get_ad(ad_id),
    {
        let n: usize = self.ads.len();
        if ad_id == 0 || ad_id > n as u64 {
            Advertisement::placeholder()
        } else {
            self.ads[(ad_id - 1) as usize]
        }
    }

    /// Pure read: the stored reward record, or the zero-valued record when
    /// `user` has never had a view accepted — without creating a stored
    /// entry. Borrows the ledger immutably, so no number of calls can change
    /// stored state, and equal states always yield the same record.
    pub fn get_user_rewards(&self, user: AccountId) -> (rec: UserRewards)
        requires
            self.wf(),
        ensures
            rec == self.spec_get_rewards(user),
    {
        match Self::find_rewards_index(&self.rewards, user) {
            Some(i) => {
                proof {
                    lemma_entry_at(self.rewards@, user, i as int);
                }
                self.rewards[i]
            },
            None => {
                proof {
                    lemma_no_entry(self.rewards@, user);
                }
                UserRewards::zero(user)
            },
        }
    }

    /// Linear scan of the reward ledger for `user`'s entry.
    fn find_rewards_index(rewards: &Vec<UserRewards>, user: AccountId) -> (found: Option<usize>)
        ensures
            match found {
                Some(i) => i < rewards@.len() && rewards@[i as int].user == user,
                None => forall|j: int| 0 <= j < rewards@.len() ==> rewards@[j].user != user,
            },
    {
        let mut i: usize = 0;
        while i < rewards.len()
            invariant
                i <= rewards@.len(),
                forall|j: int| 0 <= j < i ==> rewards@[j].user != user,
            decreases rewards@.len() - i,
        {
            if rewards[i].user == user {
                return Some(i);
            }
            i = i + 1;
        }
        None
    }
}

} // verus!

//! Laws of the ledger that relate the operations: freshness of minted ids, the
//! budget bounds that hold of every campaign at all times, and monotonicity of
//! the view transition.

use crate::ledger::DecentralizedAdContract;
use crate::records::Advertisement;
use vstd::prelude::*;

verus! {

/// Law: on a well-formed ledger, every campaign already minted carries an id
/// no greater than the counter, so the id the next creation mints — the
/// counter plus one, by `create_ad`'s postcondition — is fresh: ids returned
/// by consecutive creations rise by exactly one and are never repeated.
pub proof fn lemma_minted_id_fresh(c: DecentralizedAdContract)
    requires
        c.wf(),
    ensures
        forall|i: int| 0 <= i < c.ads@.len() ==> (#[trigger] c.ads@[i]).ad_id <= c.ad_count,
        forall|i: int|
            0 <= i < c.ads@.len() ==> (#[trigger] c.ads@[i]).ad_id < c.ad_count + 1,
{
    assert forall|i: int|
        0 <= i < c.ads@.len() implies (#[trigger] c.ads@[i]).ad_id <= c.ad_count by {
        assert(c.ads@[i].ad_id == i + 1);
    }
}

/// Law: the budget accounting bounds hold of whatever record any id resolves
/// to on a well-formed ledger — and every operation preserves well-formedness,
/// so they hold at all times: the remaining budget never exceeds the cap, the
/// total paid out (`total_views * reward_per_view`) never exceeds the cap, and
/// what remains is exactly the cap minus the total paid out.
pub proof fn lemma_budget_invariant(c: DecentralizedAdContract, ad_id: u64)
    requires
        c.wf(),
    ensures
        c.spec_get_ad(ad_id).remaining_budget <= c.spec_get_ad(ad_id).total_budget,
        c.spec_get_ad(ad_id).total_views * c.spec_get_ad(ad_id).reward_per_view <= c.spec_get_ad(
            ad_id,
        ).total_budget,
        c.spec_get_ad(ad_id).remaining_budget == c.spec_get_ad(ad_id).total_budget - c.spec_get_ad(
            ad_id,
        ).total_views * c.spec_get_ad(ad_id).reward_per_view,
{
    if 1 <= ad_id && ad_id <= c.ads@.len() {
        assert(c.ads@[ad_id - 1].wf());
    }
}

/// Law: the two record transitions a view event can commit are monotone — an
/// accepted view never raises the remaining budget and raises the view counter
/// by exactly one, a deactivation changes nothing but the activity flag, and
/// neither touches the id, the owner, the cap, or the payout rate. (That a
/// campaign once inactive never reactivates is `view_ad`'s postcondition: an
/// inactive record rejects the view before either transition is committed.)
pub proof fn lemma_view_transition_monotone(ad: Advertisement)
    requires
        ad.wf(),
        ad.can_fund_view(),
        ad.total_views < u64::MAX,
    ensures
        ad.spec_after_view().remaining_budget <= ad.remaining_budget,
        ad.spec_after_view().total_views == ad.total_views + 1,
        ad.spec_after_view().ad_id == ad.ad_id,
        ad.spec_after_view().advertiser == ad.advertiser,
        ad.spec_after_view().total_budget == ad.total_budget,
        ad.spec_after_view().reward_per_view == ad.reward_per_view,
        !ad.spec_deactivated().is_active,
        ad.spec_deactivated().remaining_budget == ad.remaining_budget,
        ad.spec_deactivated().total_views == ad.total_views,
{
}

} // verus!

use ad_ledger::AccountId;
use ad_ledger::AdError;
use ad_ledger::DecentralizedAdContract;
use ad_ledger::UserRewards;
use ad_ledger::records::PLACEHOLDER_TOKEN;

fn acct(token: u64) -> AccountId {
    AccountId { token }
}

#[test]
fn ids_are_consecutive_and_never_repeat() {
    let mut c = DecentralizedAdContract::new();
    let advertiser = acct(1);
    let id1 = c.create_ad(advertiser, 5, 50);
    let id2 = c.create_ad(advertiser, 7, 70);
    let id3 = c.create_ad(acct(2), 9, 90);
    assert_eq!(id1, 1);
    assert_eq!(id2, 2);
    assert_eq!(id3, 3);
    // Deactivating a campaign does not recycle its id.
    let dead = c.create_ad(advertiser, 40, 30);
    let _ = c.view_ad(dead, acct(3));
    assert!(!c.get_ad(dead).is_active);
    let id5 = c.create_ad(advertiser, 1, 1);
    assert_eq!(id5, dead + 1);
}

#[test]
fn created_campaign_reads_back_fresh() {
    let mut c = DecentralizedAdContract::new();
    let advertiser = acct(11);
    let id = c.create_ad(advertiser, 40, 100);
    let ad = c.get_ad(id);
    assert_eq!(ad.ad_id, id);
    assert_eq!(ad.advertiser, advertiser);
    assert_eq!(ad.reward_per_view, 40);
    assert_eq!(ad.total_budget, 100);
    assert_eq!(ad.remaining_budget, 100);
    assert_eq!(ad.total_views, 0);
    assert!(ad.is_active);
}

#[test]
fn reads_change_no_stored_state() {
    let mut c = DecentralizedAdContract::new();
    let id = c.create_ad(acct(1), 10, 100);
    let viewer = acct(2);
    c.view_ad(id, viewer).unwrap();
    let before_ads: Vec<_> = c.ads.clone();
    let before_rewards: Vec<_> = c.rewards.clone();
    let before_count = c.ad_count;
    for _ in 0..5 {
        let a = c.get_ad(id);
        let b = c.get_ad(id);
        assert_eq!(a, b);
        let r = c.get_user_rewards(viewer);
        let s = c.get_user_rewards(viewer);
        assert_eq!(r, s);
        let _ = c.get_ad(999);
        let _ = c.get_user_rewards(acct(999));
    }
    assert_eq!(c.ads, before_ads);
    assert_eq!(c.rewards, before_rewards);
    assert_eq!(c.ad_count, before_count);
}

#[test]
fn budget_bounds_hold_throughout() {
    let mut c = DecentralizedAdContract::new();
    let id = c.create_ad(acct(1), 33, 100);
    for viewer in 4..10u64 {
        let _ = c.view_ad(id, acct(viewer));
        let ad = c.get_ad(id);
        assert!(ad.remaining_budget <= ad.total_budget);
        assert!(ad.total_views as u128 * ad.reward_per_view as u128 <= ad.total_budget as u128);
    }
}

#[test]
fn view_sequence_exhausts_budget() {
    let mut c = DecentralizedAdContract::new();
    let id = c.create_ad(acct(1), 40, 100);
    let viewer = acct(2);

    // View 1: 100 -> 60, still fundable, stays active.
    assert_eq!(c.view_ad(id, viewer), Ok(()));
    let ad = c.get_ad(id);
    assert_eq!(ad.remaining_budget, 60);
    assert_eq!(ad.total_views, 1);
    assert!(ad.is_active);

    // View 2: 60 -> 20, and 20 < 40, so the campaign deactivates proactively.
    assert_eq!(c.view_ad(id, viewer), Ok(()));
    let ad = c.get_ad(id);
    assert_eq!(ad.remaining_budget, 20);
    assert_eq!(ad.total_views, 2);
    assert!(!ad.is_active);

    // View 3 is rejected and the remaining budget stays at 20.
    assert_eq!(c.view_ad(id, viewer), Err(AdError::InactiveCampaign));
    let ad = c.get_ad(id);
    assert_eq!(ad.remaining_budget, 20);
    assert_eq!(ad.total_views, 2);

    assert_eq!(c.get_user_rewards(viewer).total_earned, 80);
    assert_eq!(c.get_user_rewards(viewer).ads_viewed, 2);
}

#[test]
fn two_viewers_accrue_independently() {
    let mut c = DecentralizedAdContract::new();
    let id = c.create_ad(acct(1), 10, 100);
    let alice = acct(2);
    let bob = acct(3);
    assert_eq!(c.view_ad(id, alice), Ok(()));
    assert_eq!(c.view_ad(id, bob), Ok(()));
    assert_eq!(c.view_ad(id, alice), Ok(()));
    let a = c.get_user_rewards(alice);
    let b = c.get_user_rewards(bob);
    assert_eq!(a.total_earned, 20);
    assert_eq!(a.ads_viewed, 2);
    assert_eq!(b.total_earned, 10);
    assert_eq!(b.ads_viewed, 1);
    assert_eq!(c.get_ad(id).total_views, 3);
    assert_eq!(c.get_ad(id).remaining_budget, 70);
}

#[test]
fn viewing_unknown_campaign_is_rejected_inactive() {
    let mut c = DecentralizedAdContract::new();
    assert_eq!(c.view_ad(42, acct(2)), Err(AdError::InactiveCampaign));
    let placeholder = c.get_ad(42);
    assert_eq!(placeholder.ad_id, 0);
    assert_eq!(placeholder.advertiser.token, PLACEHOLDER_TOKEN);
    assert_eq!(placeholder.total_budget, 0);
    assert_eq!(placeholder.remaining_budget, 0);
    assert_eq!(placeholder.total_views, 0);
    assert!(!placeholder.is_active);
    // Nothing was stored for the viewer on the rejected path.
    assert_eq!(c.get_user_rewards(acct(2)).total_earned, 0);
    assert_eq!(c.rewards.len(), 0);
}

#[test]
fn unknown_user_has_zero_rewards_and_no_entry() {
    let mut c = DecentralizedAdContract::new();
    c.create_ad(acct(1), 10, 100);
    let ghost_user = acct(77);
    let rec = c.get_user_rewards(ghost_user);
    assert_eq!(rec, UserRewards { user: ghost_user, total_earned: 0, ads_viewed: 0 });
    // The read materialized no stored entry.
    assert_eq!(c.rewards.len(), 0);
    let again = c.get_user_rewards(ghost_user);
    assert_eq!(again, rec);
    assert_eq!(c.rewards.len(), 0);
}

#[test]
fn exhaustion_deactivates_despite_rejection() {
    let mut c = DecentralizedAdContract::new();
    // No validation at creation: a budget below one payout is accepted.
    let id = c.create_ad(acct(1), 40, 30);
    assert!(c.get_ad(id).is_active);
    let viewer = acct(2);
    assert_eq!(c.view_ad(id, viewer), Err(AdError::BudgetExhausted));
    // The rejection itself committed the deactivation, budget untouched.
    let ad = c.get_ad(id);
    assert!(!ad.is_active);
    assert_eq!(ad.remaining_budget, 30);
    assert_eq!(ad.total_views, 0);
    // The viewer earned nothing on the rejected path.
    assert_eq!(c.get_user_rewards(viewer).ads_viewed, 0);
    // A later attempt hits the inactive check instead.
    assert_eq!(c.view_ad(id, viewer), Err(AdError::InactiveCampaign));
}

#[test]
fn zero_reward_campaign_accepts_views_for_free() {
    let mut c = DecentralizedAdContract::new();
    let id = c.create_ad(acct(1), 0, 0);
    let viewer = acct(2);
    assert_eq!(c.view_ad(id, viewer), Ok(()));
    assert_eq!(c.view_ad(id, viewer), Ok(()));
    let ad = c.get_ad(id);
    assert!(ad.is_active);
    assert_eq!(ad.remaining_budget, 0);
    assert_eq!(ad.total_views, 2);
    let rec = c.get_user_rewards(viewer);
    assert_eq!(rec.total_earned, 0);
    assert_eq!(rec.ads_viewed, 2);
}

#[test]
fn exact_payout_spends_budget_to_zero() {
    let mut c = DecentralizedAdContract::new();
    let id = c.create_ad(acct(1), 50, 100);
    let viewer = acct(2);
    assert_eq!(c.view_ad(id, viewer), Ok(()));
    assert!(c.get_ad(id).is_active); // 50 left funds exactly one more view
    assert_eq!(c.view_ad(id, viewer), Ok(()));
    let ad = c.get_ad(id);
    assert_eq!(ad.remaining_budget, 0);
    assert!(!ad.is_active);
    assert_eq!(c.get_user_rewards(viewer).total_earned, 100);
}

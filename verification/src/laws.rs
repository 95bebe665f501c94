//! The library's laws: what holds of every reachable game state and
//! of every intent, proved once here from the operations' contracts.

use vstd::prelude::*;

use crate::items::Upgrade;
use crate::items::spec_automation_name;
use crate::items::spec_is_sentinel;
use crate::rewards::automation_stacks;
use crate::rewards::spec_tag_bonus;
use crate::rewards::spec_upgrade_bonus;
use crate::state::Message;
use crate::state::StateView;
use crate::state::buy_upgrade_post;
use crate::state::catalog_find;
use crate::state::cost_tenths;
use crate::state::has_upgrade_named;
use crate::state::lemma_catalog_find_name;
use crate::state::lemma_first_buy_keeps_owned_ok;
use crate::state::lemma_restack_keeps_owned_ok;
use crate::state::next_price_tenths;
use crate::state::owned_entry_ok;
use crate::state::owned_ok;
use crate::state::update_post;
use crate::state::upgrade_index;
use crate::state::upgrade_with_count;
use crate::state::upload_post;

verus! {

/// One upload adds exactly the tag bonus plus the upgrade bonus to
/// the balance — stated here without the saturation cut-off, so it
/// asks that the sum still fits a `u64`.
pub proof fn lemma_upload_adds_reward(pre: StateView, post: StateView)
    requires
        upload_post(pre, post),
        pre.kudos + spec_tag_bonus(pre.unlocked_tags) + spec_upgrade_bonus(pre.upgrades)
            <= u64::MAX,
    ensures
        post.kudos == pre.kudos + spec_tag_bonus(pre.unlocked_tags) + spec_upgrade_bonus(
            pre.upgrades,
        ),
{
}

/// Every intent preserves the state invariant, and the best-ever
/// balance never decreases.
pub proof fn lemma_update_preserves_progress(pre: StateView, m: Message, post: StateView)
    requires
        pre.wf(),
        update_post(pre, m, post),
    ensures
        post.wf(),
        pre.highest_kudos <= post.highest_kudos,
{
    match m {
        Message::Upload => {
        },
        Message::Tick => {
        },
        Message::BuyTag(_) => {
        },
        Message::ToggleTag(_) => {
        },
        Message::BuyUpgrade(u) => {
            lemma_buy_upgrade_preserves_wf(pre, u, post);
        },
    }
}

/// Buying an upgrade keeps the owned list within its catalog bounds.
proof fn lemma_buy_upgrade_preserves_wf(pre: StateView, u: Upgrade, post: StateView)
    requires
        pre.wf(),
        buy_upgrade_post(pre, u, post),
    ensures
        post.wf(),
{
    if !spec_is_sentinel(u.name@) {
        if has_upgrade_named(pre.upgrades, u.name@) {
            let i = upgrade_index(pre.upgrades, u.name@);
            let e = pre.upgrades[i];
            match catalog_find(pre.all_upgrades, u.name@) {
                Some(c) => {
                    if next_price_tenths(e) <= pre.kudos && e.count < c.count {
                        assert(owned_entry_ok(e, pre.all_upgrades));
                        assert(owned_entry_ok(
                            upgrade_with_count(e, (e.count + 1) as u32),
                            pre.all_upgrades,
                        ));
                        lemma_restack_keeps_owned_ok(pre.upgrades, pre.all_upgrades, i);
                    }
                },
                None => {
                },
            }
        } else {
            match catalog_find(pre.all_upgrades, u.name@) {
                Some(c) => {
                    if cost_tenths(c.cost) <= pre.kudos && c.count >= 1 {
                        lemma_catalog_find_name(pre.all_upgrades, u.name@);
                        lemma_first_buy_keeps_owned_ok(pre.upgrades, pre.all_upgrades, c);
                    }
                },
                None => {
                },
            }
        }
    }
}

/// The timer gate agrees with the tick's effect: in a well-formed
/// state an automation upgrade is owned — the condition under which
/// the outside scheduler keeps the timer running — exactly when a
/// tick would apply at least one reward.
pub proof fn lemma_timer_gate_matches_tick(ups: Seq<Upgrade>, catalog: Seq<Upgrade>)
    requires
        owned_ok(ups, catalog),
    ensures
        (automation_stacks(ups) > 0) == has_upgrade_named(
            ups,
            spec_automation_name(),
        ),
    decreases ups.len(),
{
    let name = spec_automation_name();
    if ups.len() == 0 {
        assert(!has_upgrade_named(ups, name));
    } else {
        let rest = ups.drop_last();
        assert forall|i: int| 0 <= i < rest.len() implies owned_entry_ok(
            #[trigger] rest[i],
            catalog,
        ) by {
            assert(rest[i] == ups[i]);
        }
        assert forall|a: int, b: int|
            0 <= a < rest.len() && 0 <= b < rest.len() && a != b implies #[trigger] rest[a].name@
            != #[trigger] rest[b].name@ by {
            assert(rest[a] == ups[a] && rest[b] == ups[b]);
        }
        lemma_timer_gate_matches_tick(rest, catalog);
        if ups.last().name@ == name {
            assert(owned_entry_ok(ups[ups.len() - 1], catalog));
            assert(ups.last().count >= 1);
            assert(has_upgrade_named(ups, name));
        } else {
            if has_upgrade_named(ups, name) {
                let i = choose|i: int| 0 <= i < ups.len() && ups[i].name@ == name;
                assert(i < ups.len() - 1);
                assert(rest[i] == ups[i]);
                assert(has_upgrade_named(rest, name));
            }
            if has_upgrade_named(rest, name) {
                let i = choose|i: int| 0 <= i < rest.len() && rest[i].name@ == name;
                assert(ups[i] == rest[i]);
                assert(has_upgrade_named(ups, name));
            }
        }
    }
}

/// A chain of intents, each one's outcome feeding the next.
pub open spec fn steps(pre: StateView, msgs: Seq<Message>, post: StateView) -> bool
    decreases msgs.len(),
{
    if msgs.len() == 0 {
        post == pre
    } else {
        exists|mid: StateView|
            #[trigger] update_post(pre, msgs.first(), mid) && steps(mid, msgs.drop_first(), post)
    }
}

/// Across any sequence of intents the best-ever balance never
/// decreases, and at the end — as in every reachable state — it still
/// dominates the current balance.
pub proof fn lemma_progress_monotone(pre: StateView, msgs: Seq<Message>, post: StateView)
    requires
        pre.wf(),
        steps(pre, msgs, post),
    ensures
        post.wf(),
        pre.highest_kudos <= post.highest_kudos,
        post.kudos <= post.highest_kudos,
    decreases msgs.len(),
{
    if msgs.len() > 0 {
        let mid = choose|mid: StateView|
            #[trigger] update_post(pre, msgs.first(), mid) && steps(mid, msgs.drop_first(), post);
        lemma_update_preserves_progress(pre, msgs.first(), mid);
        lemma_progress_monotone(mid, msgs.drop_first(), post);
    }
}

/// A purchase never overdraws: the balance never grows, and when it
/// moves at all, a price no larger than the balance before the
/// purchase was deducted — the deduction was guarded.
pub proof fn lemma_purchase_never_overdraws(pre: StateView, m: Message, post: StateView)
    requires
        update_post(pre, m, post),
        m matches Message::BuyTag(_) || m matches Message::BuyUpgrade(_),
    ensures
        post.kudos <= pre.kudos,
        m matches Message::BuyTag(t) ==> (post.kudos != pre.kudos ==> (cost_tenths(t.cost)
            <= pre.kudos && post.kudos == pre.kudos - cost_tenths(t.cost))),
        m matches Message::BuyUpgrade(u) ==> (post.kudos != pre.kudos ==> ({
            let price = if has_upgrade_named(pre.upgrades, u.name@) {
                next_price_tenths(pre.upgrades[upgrade_index(pre.upgrades, u.name@)])
            } else {
                cost_tenths(catalog_find(pre.all_upgrades, u.name@)->0.cost)
            };
            0 <= price <= pre.kudos && post.kudos == pre.kudos - price
        })),
{
}

/// In a well-formed state every owned upgrade has a catalog entry and
/// a current stack between 1 and that entry's maximum.
pub proof fn lemma_stacks_within_catalog_max(s: StateView, i: int)
    requires
        s.wf(),
        0 <= i < s.upgrades.len(),
    ensures
        owned_entry_ok(s.upgrades[i], s.all_upgrades),
{
}

/// Buying an owned upgrade that already sits at its catalog maximum
/// is a no-op, however large the balance is.
pub proof fn lemma_buy_at_max_is_noop(pre: StateView, u: Upgrade, post: StateView)
    requires
        pre.wf(),
        buy_upgrade_post(pre, u, post),
        has_upgrade_named(pre.upgrades, u.name@),
        ({
            let e = pre.upgrades[upgrade_index(pre.upgrades, u.name@)];
            catalog_find(pre.all_upgrades, u.name@) matches Some(c) && e.count >= c.count
        }),
    ensures
        post.upgrades == pre.upgrades,
        post.kudos == pre.kudos,
        post.highest_kudos == pre.highest_kudos,
        post.unlocked_tags == pre.unlocked_tags,
{
}

} // verus!

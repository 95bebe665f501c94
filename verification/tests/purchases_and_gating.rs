//! Purchases, the progression invariants, the shop gating and the
//! standard catalog. All balances are in tenths of a kudo.

use fanfic_clicker::items::Category;
use fanfic_clicker::items::Tag;
use fanfic_clicker::items::Upgrade;
use fanfic_clicker::state::GameState;
use fanfic_clicker::state::Message;

fn tag(name: &str, categories: Vec<Category>, cost: u32) -> Tag {
    Tag { name: String::from(name), categories, cost, active: false }
}

fn upgrade(name: &str, multiplier: u32, count: u32, cost: u32) -> Upgrade {
    Upgrade {
        name: String::from(name),
        flavor_text: String::new(),
        desc: String::new(),
        multiplier,
        count,
        cost,
    }
}

/// Uploads until the balance holds at least `tenths`.
fn grind(g: &mut GameState, tenths: u64) {
    while g.kudos() < tenths {
        g.upload_story();
    }
}

#[test]
fn buy_tag_deducts_and_starts_inactive() {
    let mut g = GameState::with_catalogs(Vec::new(), Vec::new());
    grind(&mut g, 50);
    let before = g.kudos();
    let mut intent = tag("Confession", vec![Category::Fluff], 5);
    intent.active = true;
    g.buy_tag(intent);
    assert_eq!(g.kudos(), before - 50);
    assert_eq!(g.unlocked_tags().len(), 1);
    // Bought tags always start inactive, whatever the intent said.
    assert!(!g.unlocked_tags()[0].active);
}

#[test]
fn buy_tag_insufficient_funds_is_a_noop() {
    let mut g = GameState::with_catalogs(Vec::new(), Vec::new());
    g.upload_story();
    let before = g.kudos();
    assert!(before < 50);
    g.buy_tag(tag("Confession", vec![Category::Fluff], 5));
    assert_eq!(g.kudos(), before);
    assert_eq!(g.unlocked_tags().len(), 0);
}

#[test]
fn buy_tag_at_exact_cost_never_goes_negative() {
    // The guard is kudos >= cost: buying at the exact balance is
    // allowed and leaves exactly zero.
    let mut g = GameState::with_catalogs(Vec::new(), Vec::new());
    g.upload_story();
    assert_eq!(g.kudos(), 10);
    g.buy_tag(tag("Cheap", Vec::new(), 1));
    assert_eq!(g.kudos(), 0);
    assert_eq!(g.unlocked_tags().len(), 1);
}

#[test]
fn placeholder_tag_is_always_rejected() {
    let mut g = GameState::with_catalogs(Vec::new(), Vec::new());
    grind(&mut g, 100);
    let before = g.kudos();
    g.buy_tag(tag("???", Vec::new(), 0));
    assert_eq!(g.kudos(), before);
    assert_eq!(g.unlocked_tags().len(), 0);
}

#[test]
fn placeholder_upgrade_is_always_rejected() {
    let mut g = GameState::with_catalogs(Vec::new(), vec![upgrade("???", 1, 5, 0)]);
    grind(&mut g, 100);
    let before = g.kudos();
    g.buy_upgrade(upgrade("???", 0, 0, 0));
    assert_eq!(g.kudos(), before);
    assert_eq!(g.owned_upgrades().len(), 0);
}

#[test]
fn toggle_unknown_name_is_a_noop() {
    let mut g = GameState::with_catalogs(Vec::new(), Vec::new());
    g.buy_tag(tag("Confession", vec![Category::Fluff], 0));
    g.toggle_tag(tag("Monsters", Vec::new(), 0));
    assert!(!g.unlocked_tags()[0].active);
}

#[test]
fn toggle_twice_restores_the_flag() {
    let mut g = GameState::with_catalogs(Vec::new(), Vec::new());
    g.buy_tag(tag("Confession", vec![Category::Fluff], 0));
    g.toggle_tag(tag("Confession", Vec::new(), 0));
    assert!(g.unlocked_tags()[0].active);
    g.toggle_tag(tag("Confession", Vec::new(), 0));
    assert!(!g.unlocked_tags()[0].active);
}

#[test]
fn buy_unknown_upgrade_is_a_noop() {
    let mut g = GameState::with_catalogs(Vec::new(), vec![upgrade("Beta Reader", 1, 10, 5)]);
    grind(&mut g, 500);
    let before = g.kudos();
    g.buy_upgrade(upgrade("Ghostwriter", 0, 0, 0));
    assert_eq!(g.kudos(), before);
    assert_eq!(g.owned_upgrades().len(), 0);
}

#[test]
fn upgrade_marginal_cost_is_linear() {
    // Each further stack costs base + 5 whole kudos per owned stack.
    let mut g = GameState::with_catalogs(Vec::new(), vec![upgrade("Beta Reader", 1, 10, 25)]);
    grind(&mut g, 900);
    let start = g.kudos();
    g.buy_upgrade(upgrade("Beta Reader", 0, 0, 0));
    assert_eq!(g.kudos(), start - 250);
    g.buy_upgrade(upgrade("Beta Reader", 0, 0, 0));
    assert_eq!(g.kudos(), start - 250 - 300);
    g.buy_upgrade(upgrade("Beta Reader", 0, 0, 0));
    assert_eq!(g.kudos(), start - 250 - 300 - 350);
    assert_eq!(g.owned_upgrades()[0].count, 3);
}

#[test]
fn upgrade_stack_never_exceeds_catalog_max() {
    // The owned stack caps at the catalog maximum, however often the
    // purchase is attempted and however rich the player is.
    let mut g = GameState::with_catalogs(Vec::new(), vec![upgrade("Beta Reader", 1, 3, 1)]);
    grind(&mut g, 10_000);
    for _ in 0..10 {
        g.buy_upgrade(upgrade("Beta Reader", 0, 0, 0));
    }
    assert_eq!(g.owned_upgrades().len(), 1);
    assert_eq!(g.owned_upgrades()[0].count, 3);
}

#[test]
fn buying_at_max_stack_is_a_noop_despite_funds() {
    let mut g = GameState::with_catalogs(Vec::new(), vec![upgrade("Beta Reader", 1, 2, 1)]);
    grind(&mut g, 10_000);
    g.buy_upgrade(upgrade("Beta Reader", 0, 0, 0));
    g.buy_upgrade(upgrade("Beta Reader", 0, 0, 0));
    let before = g.kudos();
    g.buy_upgrade(upgrade("Beta Reader", 0, 0, 0));
    assert_eq!(g.kudos(), before);
    assert_eq!(g.owned_upgrades()[0].count, 2);
}

#[test]
fn highest_kudos_dominates_and_never_decreases() {
    // Across a mixed sequence of operations, highest_kudos never
    // decreases and always dominates kudos.
    let mut g = GameState::new();
    let mut last_highest = g.highest_kudos();
    let intents = [
        Message::Upload,
        Message::Tick,
        Message::BuyTag(tag("Confession", Vec::new(), 5)),
        Message::Upload,
        Message::Upload,
        Message::Upload,
        Message::Upload,
        Message::BuyTag(tag("Confession", vec![Category::Fluff, Category::Romance], 5)),
        Message::ToggleTag(tag("Confession", Vec::new(), 0)),
        Message::Upload,
        Message::BuyUpgrade(upgrade("Clone", 0, 0, 15)),
        Message::Tick,
        Message::Upload,
    ];
    for m in intents {
        g.update(m);
        assert!(g.highest_kudos() >= last_highest);
        assert!(g.highest_kudos() >= g.kudos());
        last_highest = g.highest_kudos();
    }
}

#[test]
fn spending_does_not_lower_highest() {
    let mut g = GameState::with_catalogs(Vec::new(), Vec::new());
    grind(&mut g, 100);
    let high = g.highest_kudos();
    g.buy_tag(tag("Confession", Vec::new(), 10));
    assert_eq!(g.kudos(), high - 100);
    assert_eq!(g.highest_kudos(), high);
}

#[test]
fn automation_active_tracks_the_clone_upgrade() {
    let mut g = GameState::new();
    assert!(!g.automation_active());
    grind(&mut g, 150);
    g.buy_upgrade(upgrade("Clone", 0, 0, 0));
    assert!(g.automation_active());
}

#[test]
fn standard_catalog_contents() {
    let g = GameState::new();
    assert_eq!(g.kudos(), 0);
    assert_eq!(g.highest_kudos(), 0);
    assert_eq!(g.unlocked_tags().len(), 0);
    assert_eq!(g.owned_upgrades().len(), 0);
    let tags = g.all_tags();
    assert_eq!(tags.len(), 4);
    assert_eq!(tags[0].name, "Confession");
    assert_eq!(tags[0].categories, vec![Category::Fluff, Category::Romance]);
    assert_eq!(tags[0].cost, 5);
    assert_eq!(tags[1].name, "Monsters");
    assert_eq!(tags[1].categories, vec![Category::Horror, Category::AU]);
    assert_eq!(tags[1].cost, 5);
    assert_eq!(tags[2].name, "Lover's Spat");
    assert_eq!(tags[2].categories, vec![Category::Angst, Category::Romance]);
    assert_eq!(tags[2].cost, 10);
    assert_eq!(tags[3].name, "Hallucinations");
    assert_eq!(tags[3].categories, vec![Category::Angst, Category::Horror]);
    assert_eq!(tags[3].cost, 10);
    let ups = g.all_upgrades();
    assert_eq!(ups.len(), 2);
    assert_eq!(ups[0].name, "Clone");
    assert_eq!(ups[0].multiplier, 0);
    assert_eq!(ups[0].count, 5);
    assert_eq!(ups[0].cost, 15);
    assert_eq!(ups[1].name, "Beta Reader");
    assert_eq!(ups[1].multiplier, 1);
    assert_eq!(ups[1].count, 10);
    assert_eq!(ups[1].cost, 25);
}

#[test]
fn shop_masks_unrevealed_entries() {
    let mut g = GameState::new();
    // Nothing earned yet: every priced entry is masked.
    let masked = g.shop_upgrade(0);
    assert_eq!(masked.name, "???");
    assert_eq!(masked.cost, 0);
    assert_eq!(masked.count, 0);
    let masked_tag = g.shop_tag(2);
    assert_eq!(masked_tag.name, "???");
    assert!(masked_tag.categories.is_empty());
    // Earn past the Clone threshold (15 kudos): it is revealed.
    grind(&mut g, 150);
    let shown = g.shop_upgrade(0);
    assert_eq!(shown.name, "Clone");
    assert_eq!(shown.cost, 15);
    let shown_tag = g.shop_tag(0);
    assert_eq!(shown_tag.name, "Confession");
    assert!(g.revealed(5));
    assert!(!g.revealed(25));
}

#[test]
fn rebuying_an_unlocked_tag_is_not_guarded() {
    // The core has no duplicate guard for tags: buying the same name
    // twice yields two unlocked copies. Keeping intents unique is the
    // outside layer's responsibility.
    let mut g = GameState::with_catalogs(Vec::new(), Vec::new());
    g.buy_tag(tag("Confession", vec![Category::Fluff], 0));
    g.buy_tag(tag("Confession", vec![Category::Fluff], 0));
    assert_eq!(g.unlocked_tags().len(), 2);
}

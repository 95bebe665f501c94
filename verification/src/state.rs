//! The game state and its operations: upload rewards, the automation
//! tick, purchases, toggles and the shop-gating rules.

use vstd::prelude::*;

use crate::items::Category;
use crate::items::Tag;
use crate::items::Upgrade;
use crate::items::is_automation_name;
use crate::items::is_sentinel_name;
use crate::items::spec_automation_name;
use crate::items::spec_is_sentinel;
use crate::rewards::automation_stacks;
use crate::rewards::clamp64;
use crate::rewards::count_category;
use crate::rewards::sat_add;
use crate::rewards::spec_reward;
use crate::rewards::spec_tag_bonus;
use crate::rewards::spec_upgrade_bonus;
use crate::rewards::upgrade_sum;

verus! {

/// One intent the outside layer can dispatch into the core. The timer
/// tick carries no data here: the cadence and any timestamp belong to
/// the scheduler outside.
pub enum Message {
    Upload,
    Tick,
    BuyTag(Tag),
    ToggleTag(Tag),
    BuyUpgrade(Upgrade),
}

/// The whole game state: the immutable catalogs, the owned subsets,
/// and the current and highest-ever balance, both in tenths of a kudo.
pub struct GameState {
    all_tags: Vec<Tag>,
    unlocked_tags: Vec<Tag>,
    all_upgrades: Vec<Upgrade>,
    upgrades: Vec<Upgrade>,
    kudos: u64,
    highest_kudos: u64,
}

/// The mathematical shape of a [`GameState`]: its vectors as
/// sequences, its balances as they are.
pub ghost struct StateView {
    pub all_tags: Seq<Tag>,
    pub unlocked_tags: Seq<Tag>,
    pub all_upgrades: Seq<Upgrade>,
    pub upgrades: Seq<Upgrade>,
    pub kudos: u64,
    pub highest_kudos: u64,
}

impl View for GameState {
    type V = StateView;

    closed spec fn view(&self) -> StateView {
        StateView {
            all_tags: self.all_tags@,
            unlocked_tags: self.unlocked_tags@,
            all_upgrades: self.all_upgrades@,
            upgrades: self.upgrades@,
            kudos: self.kudos,
            highest_kudos: self.highest_kudos,
        }
    }
}

/// A price in whole kudos, expressed in tenths.
pub open spec fn cost_tenths(cost: u32) -> int {
    cost * 10
}

/// The price of the next stack of an owned upgrade, in tenths: the
/// base price plus five whole kudos per stack already owned.
pub open spec fn next_price_tenths(e: Upgrade) -> int {
    (e.cost + 5 * e.count) * 10
}

/// The first catalog entry named `name`, if any.
pub open spec fn catalog_find(s: Seq<Upgrade>, name: Seq<char>) -> Option<Upgrade>
    decreases s.len(),
{
    if s.len() == 0 {
        None
    } else if s.first().name@ == name {
        Some(s.first())
    } else {
        catalog_find(s.drop_first(), name)
    }
}

/// A found catalog entry bears the name it was looked up by.
pub proof fn lemma_catalog_find_name(s: Seq<Upgrade>, name: Seq<char>)
    requires
        catalog_find(s, name) is Some,
    ensures
        catalog_find(s, name)->0.name@ == name,
    decreases s.len(),
{
    if s.len() > 0 && s.first().name@ != name {
        lemma_catalog_find_name(s.drop_first(), name);
    }
}

/// The index of the first entry of `ups` named `name`, if any.
fn find_named(ups: &Vec<Upgrade>, name: &String) -> (r: Option<usize>)
    ensures
        match r {
            Some(i) => i < ups@.len() && ups@[i as int].name@ == name@ && catalog_find(
                ups@,
                name@,
            ) == Some(ups@[i as int]),
            None => !has_upgrade_named(ups@, name@) && catalog_find(ups@, name@) is None,
        },
{
    proof {
        assert(ups@.skip(0) =~= ups@);
    }
    let mut i: usize = 0;
    while i < ups.len()
        invariant
            i <= ups@.len(),
            forall|k: int| 0 <= k < i ==> (#[trigger] ups@[k].name@) != name@,
            catalog_find(ups@, name@) == catalog_find(ups@.skip(i as int), name@),
        decreases ups@.len() - i,
    {
        if ups[i].name == *name {
            proof {
                assert(ups@.skip(i as int).first() == ups@[i as int]);
            }
            return Some(i);
        }
        proof {
            assert(ups@.skip(i as int).first() == ups@[i as int]);
            assert(ups@.skip(i as int).drop_first() =~= ups@.skip(i + 1));
        }
        i = i + 1;
    }
    proof {
        assert(ups@.skip(ups@.len() as int) =~= Seq::<Upgrade>::empty());
    }
    None
}

/// True iff some entry of `s` is named `name`.
pub open spec fn has_upgrade_named(s: Seq<Upgrade>, name: Seq<char>) -> bool {
    exists|i: int| 0 <= i < s.len() && s[i].name@ == name
}

/// An index of the entry of `s` named `name`; under [`owned_ok`]'s
/// uniqueness there is exactly one.
pub open spec fn upgrade_index(s: Seq<Upgrade>, name: Seq<char>) -> int {
    choose|i: int| 0 <= i < s.len() && s[i].name@ == name
}

/// What must hold of one owned upgrade: its name has a catalog entry,
/// and its current stack lies between 1 and that entry's maximum.
pub open spec fn owned_entry_ok(u: Upgrade, catalog: Seq<Upgrade>) -> bool {
    match catalog_find(catalog, u.name@) {
        Some(c) => 1 <= u.count <= c.count,
        None => false,
    }
}

/// What must hold of the owned-upgrade list: every entry is within
/// its catalog bounds, and no name occurs twice.
pub open spec fn owned_ok(owned: Seq<Upgrade>, catalog: Seq<Upgrade>) -> bool {
    (forall|i: int| 0 <= i < owned.len() ==> owned_entry_ok(#[trigger] owned[i], catalog))
        && (forall|i: int, j: int|
        0 <= i < owned.len() && 0 <= j < owned.len() && i != j ==> #[trigger] owned[i].name@
            != #[trigger] owned[j].name@)
}

impl StateView {
    /// The state invariant: the balance never exceeds the best-ever
    /// balance, and the owned upgrades respect their catalog bounds.
    pub open spec fn wf(&self) -> bool {
        self.kudos <= self.highest_kudos && owned_ok(self.upgrades, self.all_upgrades)
    }
}

/// The catalogs never change after construction.
pub open spec fn catalogs_unchanged(pre: StateView, post: StateView) -> bool {
    post.all_tags == pre.all_tags && post.all_upgrades == pre.all_upgrades
}

/// What one upload does: the balance grows by the full reward
/// (saturating), and the best-ever balance is raised to meet it.
/// Nothing else moves.
pub open spec fn upload_post(pre: StateView, post: StateView) -> bool {
    catalogs_unchanged(pre, post) && post.unlocked_tags == pre.unlocked_tags && post.upgrades
        == pre.upgrades && post.kudos as int == clamp64(
        pre.kudos + spec_reward(pre.unlocked_tags, pre.upgrades),
    ) && post.highest_kudos == (if post.kudos > pre.highest_kudos {
        post.kudos
    } else {
        pre.highest_kudos
    })
}

/// The tag as it enters the unlocked list: the same entry, inactive.
pub open spec fn tag_inactive(t: Tag) -> Tag {
    Tag { name: t.name, categories: t.categories, cost: t.cost, active: false }
}

/// The tag with its active flag flipped.
pub open spec fn tag_toggled(t: Tag) -> Tag {
    Tag { name: t.name, categories: t.categories, cost: t.cost, active: !t.active }
}

/// The upgrade with its stack set to `count`.
pub open spec fn upgrade_with_count(u: Upgrade, count: u32) -> Upgrade {
    Upgrade {
        name: u.name,
        flavor_text: u.flavor_text,
        desc: u.desc,
        multiplier: u.multiplier,
        count,
        cost: u.cost,
    }
}

/// What buying a tag does: the placeholder is rejected and an
/// unaffordable tag is silently ignored; otherwise the price is
/// deducted and the tag joins the unlocked list, inactive. There is
/// deliberately no duplicate guard: whether the same name can be
/// bought twice is left to the layer that offers the intents.
pub open spec fn buy_tag_post(pre: StateView, tag: Tag, post: StateView) -> bool {
    catalogs_unchanged(pre, post) && post.upgrades == pre.upgrades && post.highest_kudos
        == pre.highest_kudos && if spec_is_sentinel(tag.name@) || pre.kudos < cost_tenths(
        tag.cost,
    ) {
        post.unlocked_tags == pre.unlocked_tags && post.kudos == pre.kudos
    } else {
        post.unlocked_tags == pre.unlocked_tags.push(tag_inactive(tag)) && post.kudos as int
            == pre.kudos - cost_tenths(tag.cost)
    }
}

/// What toggling a tag does: every unlocked tag bearing the given
/// name has its active flag flipped; an unknown name is a no-op.
pub open spec fn toggle_tag_post(pre: StateView, tag: Tag, post: StateView) -> bool {
    catalogs_unchanged(pre, post) && post.upgrades == pre.upgrades && post.kudos == pre.kudos
        && post.highest_kudos == pre.highest_kudos && post.unlocked_tags.len()
        == pre.unlocked_tags.len() && forall|i: int|
        0 <= i < pre.unlocked_tags.len() ==> #[trigger] post.unlocked_tags[i] == (
        if pre.unlocked_tags[i].name@ == tag.name@ {
            tag_toggled(pre.unlocked_tags[i])
        } else {
            pre.unlocked_tags[i]
        })
}

/// What buying an upgrade does. The placeholder is rejected. An
/// already-owned upgrade is restacked at the marginal price — base
/// plus five whole kudos per owned stack — but only while below the
/// catalog maximum; "not affordable" and "sold out" are uniformly
/// silent no-ops. A not-yet-owned upgrade is bought at the catalog
/// base price and starts at one stack. A name the catalog does not
/// know is a no-op.
pub open spec fn buy_upgrade_post(pre: StateView, u: Upgrade, post: StateView) -> bool {
    catalogs_unchanged(pre, post) && post.unlocked_tags == pre.unlocked_tags && post.highest_kudos
        == pre.highest_kudos && if spec_is_sentinel(u.name@) {
        post.upgrades == pre.upgrades && post.kudos == pre.kudos
    } else if has_upgrade_named(pre.upgrades, u.name@) {
        let i = upgrade_index(pre.upgrades, u.name@);
        let e = pre.upgrades[i];
        match catalog_find(pre.all_upgrades, u.name@) {
            Some(c) => if next_price_tenths(e) <= pre.kudos && e.count < c.count {
                post.upgrades == pre.upgrades.update(
                    i,
                    upgrade_with_count(e, (e.count + 1) as u32),
                ) && post.kudos as int == pre.kudos - next_price_tenths(e)
            } else {
                post.upgrades == pre.upgrades && post.kudos == pre.kudos
            },
            None => post.upgrades == pre.upgrades && post.kudos == pre.kudos,
        }
    } else {
        match catalog_find(pre.all_upgrades, u.name@) {
            Some(c) => if cost_tenths(c.cost) <= pre.kudos && c.count >= 1 {
                post.upgrades == pre.upgrades.push(upgrade_with_count(c, 1)) && post.kudos as int
                    == pre.kudos - cost_tenths(c.cost)
            } else {
                post.upgrades == pre.upgrades && post.kudos == pre.kudos
            },
            None => post.upgrades == pre.upgrades && post.kudos == pre.kudos,
        }
    }
}

/// What one dispatched intent does, by case.
pub open spec fn update_post(pre: StateView, m: Message, post: StateView) -> bool {
    match m {
        Message::Upload => upload_post(pre, post),
        Message::Tick => tick_post(pre, post),
        Message::BuyTag(t) => buy_tag_post(pre, t, post),
        Message::ToggleTag(t) => toggle_tag_post(pre, t, post),
        Message::BuyUpgrade(u) => buy_upgrade_post(pre, u, post),
    }
}

/// What one timer tick does: one full upload per owned automation
/// stack, each recomputed against the same modifiers, so the balance
/// grows by `stacks * reward` (saturating). Nothing else moves.
pub open spec fn tick_post(pre: StateView, post: StateView) -> bool {
    catalogs_unchanged(pre, post) && post.unlocked_tags == pre.unlocked_tags && post.upgrades
        == pre.upgrades && post.kudos as int == clamp64(
        pre.kudos + automation_stacks(pre.upgrades) as int * spec_reward(
            pre.unlocked_tags,
            pre.upgrades,
        ) as int,
    ) && post.highest_kudos == (if post.kudos > pre.highest_kudos {
        post.kudos
    } else {
        pre.highest_kudos
    })
}

impl GameState {
    /// The state invariant, on the executable type.
    pub open spec fn wf(&self) -> bool {
        self@.wf()
    }

    /// An empty game over the given catalogs: nothing unlocked,
    /// nothing owned, no kudos.
    pub fn with_catalogs(all_tags: Vec<Tag>, all_upgrades: Vec<Upgrade>) -> (r: GameState)
        ensures
            r.wf(),
            r@.all_tags == all_tags@,
            r@.all_upgrades == all_upgrades@,
            r@.unlocked_tags == Seq::<Tag>::empty(),
            r@.upgrades == Seq::<Upgrade>::empty(),
            r@.kudos == 0,
            r@.highest_kudos == 0,
    {
        GameState {
            all_tags,
            unlocked_tags: Vec::new(),
            all_upgrades,
            upgrades: Vec::new(),
            kudos: 0,
            highest_kudos: 0,
        }
    }

    /// The standard game: the built-in tag and upgrade catalogs,
    /// nothing unlocked, nothing owned, no kudos.
    pub fn new() -> (r: GameState)
        ensures
            r.wf(),
            r@.unlocked_tags == Seq::<Tag>::empty(),
            r@.upgrades == Seq::<Upgrade>::empty(),
            r@.kudos == 0,
            r@.highest_kudos == 0,
            r@.all_tags.len() == 4,
            r@.all_tags[0].name@ == "Confession"@,
            r@.all_tags[0].categories@ == seq![Category::Fluff, Category::Romance],
            r@.all_tags[0].cost == 5,
            r@.all_tags[1].name@ == "Monsters"@,
            r@.all_tags[1].categories@ == seq![Category::Horror, Category::AU],
            r@.all_tags[1].cost == 5,
            r@.all_tags[2].name@ == "Lover's Spat"@,
            r@.all_tags[2].categories@ == seq![Category::Angst, Category::Romance],
            r@.all_tags[2].cost == 10,
            r@.all_tags[3].name@ == "Hallucinations"@,
            r@.all_tags[3].categories@ == seq![Category::Angst, Category::Horror],
            r@.all_tags[3].cost == 10,
            forall|i: int| 0 <= i < 4 ==> (#[trigger] r@.all_tags[i].active) == false,
            r@.all_upgrades.len() == 2,
            r@.all_upgrades[0].name@ == spec_automation_name(),
            r@.all_upgrades[0].multiplier == 0,
            r@.all_upgrades[0].count == 5,
            r@.all_upgrades[0].cost == 15,
            r@.all_upgrades[1].name@ == "Beta Reader"@,
            r@.all_upgrades[1].multiplier == 1,
            r@.all_upgrades[1].count == 10,
            r@.all_upgrades[1].cost == 25,
    {
        let mut confession_cats: Vec<Category> = Vec::new();
        confession_cats.push(Category::Fluff);
        confession_cats.push(Category::Romance);
        let mut monsters_cats: Vec<Category> = Vec::new();
        monsters_cats.push(Category::Horror);
        monsters_cats.push(Category::AU);
        let mut spat_cats: Vec<Category> = Vec::new();
        spat_cats.push(Category::Angst);
        spat_cats.push(Category::Romance);
        let mut hallucination_cats: Vec<Category> = Vec::new();
        hallucination_cats.push(Category::Angst);
        hallucination_cats.push(Category::Horror);
        let mut all_tags: Vec<Tag> = Vec::new();
        all_tags.push(
            Tag {
                name: String::from_str("Confession"),
                categories: confession_cats,
                cost: 5,
                active: false,
            },
        );
        all_tags.push(
            Tag {
                name: String::from_str("Monsters"),
                categories: monsters_cats,
                cost: 5,
                active: false,
            },
        );
        all_tags.push(
            Tag {
                name: String::from_str("Lover's Spat"),
                categories: spat_cats,
                cost: 10,
                active: false,
            },
        );
        all_tags.push(
            Tag {
                name: String::from_str("Hallucinations"),
                categories: hallucination_cats,
                cost: 10,
                active: false,
            },
        );
        let mut all_upgrades: Vec<Upgrade> = Vec::new();
        all_upgrades.push(
            Upgrade {
                name: String::from_str("Clone"),
                flavor_text: String::from_str(
                    "Make a clone of yourself to write for you, still more ethical than AI!",
                ),
                desc: String::from_str(
                    "Automatically uploads works for you, 1 per stack every five seconds.",
                ),
                multiplier: 0,
                count: 5,
                cost: 15,
            },
        );
        all_upgrades.push(
            Upgrade {
                name: String::from_str("Beta Reader"),
                flavor_text: String::from_str(
                    "Get your friends to read your works before you upload them, free labor.",
                ),
                desc: String::from_str("Increases how many kudos you earn by 1% per stack."),
                multiplier: 1,
                count: 10,
                cost: 25,
            },
        );
        proof {
            assert(confession_cats@ =~= seq![Category::Fluff, Category::Romance]);
            assert(monsters_cats@ =~= seq![Category::Horror, Category::AU]);
            assert(spat_cats@ =~= seq![Category::Angst, Category::Romance]);
            assert(hallucination_cats@ =~= seq![Category::Angst, Category::Horror]);
        }
        GameState::with_catalogs(all_tags, all_upgrades)
    }

    /// True iff a shop entry costing `cost` whole kudos has been
    /// revealed: the best-ever balance meets its price.
    pub fn revealed(&self, cost: u32) -> (r: bool)
        ensures
            r == (cost_tenths(cost) <= self@.highest_kudos),
    {
        self.highest_kudos >= (cost as u64) * 10
    }

    /// The shop's view of catalog tag `i`: the entry itself once the
    /// best-ever balance meets its price, the masked placeholder
    /// below that threshold — so no valid purchase intent can name a
    /// not-yet-revealed entry.
    pub fn shop_tag(&self, i: usize) -> (r: Tag)
        requires
            i < self@.all_tags.len(),
        ensures
            cost_tenths(self@.all_tags[i as int].cost) <= self@.highest_kudos ==> (r.name@
                == self@.all_tags[i as int].name@ && r.categories@
                == self@.all_tags[i as int].categories@ && r.cost == self@.all_tags[i as int].cost
                && r.active == self@.all_tags[i as int].active),
            cost_tenths(self@.all_tags[i as int].cost) > self@.highest_kudos ==> (spec_is_sentinel(
                r.name@,
            ) && r.categories@ == Seq::<Category>::empty() && r.cost == 0 && !r.active),
    {
        let t = &self.all_tags[i];
        if self.revealed(t.cost) {
            t.duplicate()
        } else {
            Tag::placeholder()
        }
    }

    /// The shop's view of catalog upgrade `i`, masked the same way as
    /// [`GameState::shop_tag`].
    pub fn shop_upgrade(&self, i: usize) -> (r: Upgrade)
        requires
            i < self@.all_upgrades.len(),
        ensures
            cost_tenths(self@.all_upgrades[i as int].cost) <= self@.highest_kudos ==> r
                == self@.all_upgrades[i as int],
            cost_tenths(self@.all_upgrades[i as int].cost) > self@.highest_kudos ==> (
            spec_is_sentinel(r.name@) && r.flavor_text@ == Seq::<char>::empty() && r.desc@
                == Seq::<char>::empty() && r.multiplier == 0 && r.count == 0 && r.cost == 0),
    {
        let u = &self.all_upgrades[i];
        if self.revealed(u.cost) {
            u.duplicate()
        } else {
            Upgrade::placeholder()
        }
    }

    /// The current balance, in tenths of a kudo.
    pub fn kudos(&self) -> (r: u64)
        ensures
            r == self@.kudos,
    {
        self.kudos
    }

    /// The highest balance ever reached, in tenths of a kudo.
    pub fn highest_kudos(&self) -> (r: u64)
        ensures
            r == self@.highest_kudos,
    {
        self.highest_kudos
    }

    /// The tag catalog.
    pub fn all_tags(&self) -> (r: &Vec<Tag>)
        ensures
            r@ == self@.all_tags,
    {
        &self.all_tags
    }

    /// The tags the player has unlocked.
    pub fn unlocked_tags(&self) -> (r: &Vec<Tag>)
        ensures
            r@ == self@.unlocked_tags,
    {
        &self.unlocked_tags
    }

    /// The upgrade catalog.
    pub fn all_upgrades(&self) -> (r: &Vec<Upgrade>)
        ensures
            r@ == self@.all_upgrades,
    {
        &self.all_upgrades
    }

    /// The upgrades the player owns.
    pub fn owned_upgrades(&self) -> (r: &Vec<Upgrade>)
        ensures
            r@ == self@.upgrades,
    {
        &self.upgrades
    }

    /// Whether the timer should be running: true iff an automation
    /// upgrade is owned.
    pub fn automation_active(&self) -> (r: bool)
        ensures
            r == has_upgrade_named(self@.upgrades, spec_automation_name()),
    {
        let mut i: usize = 0;
        while i < self.upgrades.len()
            invariant
                i <= self@.upgrades.len(),
                forall|k: int|
                    0 <= k < i ==> (#[trigger] self@.upgrades[k].name@) != spec_automation_name(),
            decreases self@.upgrades.len() - i,
        {
            if is_automation_name(&self.upgrades[i].name) {
                return true;
            }
            i = i + 1;
        }
        false
    }

    /// The tag bonus of one upload, in tenths, saturating.
    pub fn calc_tag_bonus(&self) -> (r: u64)
        ensures
            r as int == clamp64(spec_tag_bonus(self@.unlocked_tags) as int),
    {
        let n_fluff = count_category(&self.unlocked_tags, Category::Fluff);
        let n_angst = count_category(&self.unlocked_tags, Category::Angst);
        let n_au = count_category(&self.unlocked_tags, Category::AU);
        let n_horror = count_category(&self.unlocked_tags, Category::Horror);
        let n_romance = count_category(&self.unlocked_tags, Category::Romance);
        let c_au: u64 = if n_au == 0 {
            0
        } else if n_au < 5 {
            10 - 2 * n_au
        } else {
            0
        };
        let mut sum: u64 = sat_add(n_fluff, n_angst);
        sum = sat_add(sum, c_au);
        sum = sat_add(sum, n_horror);
        sum = sat_add(sum, n_romance);
        sat_add(sum, 5)
    }

    /// The upgrade bonus of one upload, in tenths, saturating.
    pub fn get_upgrade_bonus(&self) -> (r: u64)
        ensures
            r as int == clamp64(spec_upgrade_bonus(self@.upgrades) as int),
    {
        let mut sum: u64 = 5;
        let mut i: usize = 0;
        while i < self.upgrades.len()
            invariant
                i <= self@.upgrades.len(),
                sum as int == clamp64(5 + upgrade_sum(self@.upgrades.take(i as int)) as int),
            decreases self@.upgrades.len() - i,
        {
            let u = &self.upgrades[i];
            proof {
                assert((u.multiplier as int) * (u.count as int) <= 0xFFFF_FFFF * 0xFFFF_FFFF)
                    by (nonlinear_arith)
                    requires
                        0 <= u.multiplier <= 0xFFFF_FFFF,
                        0 <= u.count <= 0xFFFF_FFFF,
                ;
            }
            let term: u64 = (u.multiplier as u64) * (u.count as u64);
            sum = sat_add(sum, term);
            proof {
                assert(self@.upgrades.take(i + 1).drop_last() =~= self@.upgrades.take(i as int));
                assert(self@.upgrades.take(i + 1).last() == self@.upgrades[i as int]);
            }
            i = i + 1;
        }
        proof {
            assert(self@.upgrades.take(self@.upgrades.len() as int) =~= self@.upgrades);
        }
        sum
    }

    /// The fundamental reward primitive: grants one full reward and
    /// keeps the best-ever balance up to date. The only path that
    /// grants currency and the only path that advances
    /// `highest_kudos`.
    pub fn upload_story(&mut self)
        requires
            old(self).wf(),
        ensures
            final(self).wf(),
            upload_post(old(self)@, final(self)@),
    {
        let tb = self.calc_tag_bonus();
        let ub = self.get_upgrade_bonus();
        let reward = sat_add(tb, ub);
        self.kudos = sat_add(self.kudos, reward);
        if self.kudos > self.highest_kudos {
            self.highest_kudos = self.kudos;
        }
    }

    /// One automation tick: every owned automation stack triggers one
    /// full, independently computed upload.
    pub fn tick(&mut self)
        requires
            old(self).wf(),
        ensures
            final(self).wf(),
            tick_post(old(self)@, final(self)@),
    {
        let ghost pre = self@;
        let ghost r = spec_reward(pre.unlocked_tags, pre.upgrades) as int;
        proof {
            assert(pre.upgrades.take(0) =~= Seq::<Upgrade>::empty());
            assert(automation_stacks(Seq::<Upgrade>::empty()) == 0);
        }
        let mut i: usize = 0;
        while i < self.upgrades.len()
            invariant
                pre.wf(),
                r == spec_reward(pre.unlocked_tags, pre.upgrades) as int,
                self@.all_tags == pre.all_tags,
                self@.all_upgrades == pre.all_upgrades,
                self@.unlocked_tags == pre.unlocked_tags,
                self@.upgrades == pre.upgrades,
                i <= pre.upgrades.len(),
                self@.kudos as int == clamp64(
                    pre.kudos + automation_stacks(pre.upgrades.take(i as int)) as int * r,
                ),
                self@.highest_kudos == (if self@.kudos > pre.highest_kudos {
                    self@.kudos
                } else {
                    pre.highest_kudos
                }),
                self@.wf(),
            decreases pre.upgrades.len() - i,
        {
            let is_auto = is_automation_name(&self.upgrades[i].name);
            if is_auto {
                let count = self.upgrades[i].count;
                let ghost d = automation_stacks(pre.upgrades.take(i as int)) as int;
                let mut j: u32 = 0;
                while j < count
                    invariant
                        pre.wf(),
                        r == spec_reward(pre.unlocked_tags, pre.upgrades) as int,
                        self@.all_tags == pre.all_tags,
                        self@.all_upgrades == pre.all_upgrades,
                        self@.unlocked_tags == pre.unlocked_tags,
                        self@.upgrades == pre.upgrades,
                        j <= count,
                        self@.kudos as int == clamp64(pre.kudos + (d + j) * r),
                        self@.highest_kudos == (if self@.kudos > pre.highest_kudos {
                            self@.kudos
                        } else {
                            pre.highest_kudos
                        }),
                        self@.wf(),
                    decreases count - j,
                {
                    let ghost k_before = self@.kudos as int;
                    self.upload_story();
                    proof {
                        assert((d + j + 1) * r == (d + j) * r + r) by (nonlinear_arith);
                        assert(self@.kudos as int == clamp64(k_before + r));
                        assert(clamp64(clamp64(pre.kudos + (d + j) * r) + r) == clamp64(
                            pre.kudos + (d + j) * r + r,
                        ));
                    }
                    j = j + 1;
                }
                proof {
                    assert(pre.upgrades.take(i + 1).drop_last() =~= pre.upgrades.take(i as int));
                    assert(pre.upgrades.take(i + 1).last() == pre.upgrades[i as int]);
                }
            } else {
                proof {
                    assert(pre.upgrades.take(i + 1).drop_last() =~= pre.upgrades.take(i as int));
                    assert(pre.upgrades.take(i + 1).last() == pre.upgrades[i as int]);
                }
            }
            i = i + 1;
        }
        proof {
            assert(pre.upgrades.take(pre.upgrades.len() as int) =~= pre.upgrades);
        }
    }

    /// Buys `tag` if it is neither the placeholder nor unaffordable:
    /// deducts its price and appends it, inactive, to the unlocked
    /// tags. Anything else is a silent no-op.
    pub fn buy_tag(&mut self, tag: Tag)
        requires
            old(self).wf(),
        ensures
            final(self).wf(),
            buy_tag_post(old(self)@, tag, final(self)@),
    {
        if is_sentinel_name(&tag.name) {
            return ;
        }
        let price: u64 = (tag.cost as u64) * 10;
        if self.kudos >= price {
            self.kudos = self.kudos - price;
            let unlocked = Tag {
                name: tag.name,
                categories: tag.categories,
                cost: tag.cost,
                active: false,
            };
            self.unlocked_tags.push(unlocked);
        }
    }

    /// Flips the active flag of every unlocked tag named like `tag`;
    /// an unknown name is a no-op.
    pub fn toggle_tag(&mut self, tag: Tag)
        requires
            old(self).wf(),
        ensures
            final(self).wf(),
            toggle_tag_post(old(self)@, tag, final(self)@),
    {
        let ghost pre = self@;
        let mut i: usize = 0;
        while i < self.unlocked_tags.len()
            invariant
                self@.all_tags == pre.all_tags,
                self@.all_upgrades == pre.all_upgrades,
                self@.upgrades == pre.upgrades,
                self@.kudos == pre.kudos,
                self@.highest_kudos == pre.highest_kudos,
                self@.unlocked_tags.len() == pre.unlocked_tags.len(),
                i <= pre.unlocked_tags.len(),
                forall|k: int|
                    0 <= k < i ==> #[trigger] self@.unlocked_tags[k] == (
                    if pre.unlocked_tags[k].name@ == tag.name@ {
                        tag_toggled(pre.unlocked_tags[k])
                    } else {
                        pre.unlocked_tags[k]
                    }),
                forall|k: int|
                    i <= k < pre.unlocked_tags.len() ==> #[trigger] self@.unlocked_tags[k]
                        == pre.unlocked_tags[k],
            decreases pre.unlocked_tags.len() - i,
        {
            if self.unlocked_tags[i].name == tag.name {
                let t = &mut self.unlocked_tags[i];
                t.active = !t.active;
            }
            i = i + 1;
        }
    }

    /// Buys or restacks `upgrade` as [`buy_upgrade_post`] says; every
    /// rejected case — placeholder, unknown name, unaffordable, sold
    /// out — is a silent no-op.
    pub fn buy_upgrade(&mut self, upgrade: Upgrade)
        requires
            old(self).wf(),
        ensures
            final(self).wf(),
            buy_upgrade_post(old(self)@, upgrade, final(self)@),
    {
        let ghost pre = self@;
        if is_sentinel_name(&upgrade.name) {
            return ;
        }
        match find_named(&self.upgrades, &upgrade.name) {
            Some(i) => {
                proof {
                    let gi = upgrade_index(pre.upgrades, upgrade.name@);
                    assert(has_upgrade_named(pre.upgrades, upgrade.name@));
                    assert(0 <= gi < pre.upgrades.len() && pre.upgrades[gi].name@
                        == upgrade.name@);
                    assert(gi == i as int);
                }
                let e_cost = self.upgrades[i].cost;
                let e_count = self.upgrades[i].count;
                let price: u64 = ((e_cost as u64) + 5 * (e_count as u64)) * 10;
                match find_named(&self.all_upgrades, &upgrade.name) {
                    Some(ci) => {
                        let max_count = self.all_upgrades[ci].count;
                        if self.kudos >= price && e_count < max_count {
                            self.kudos = self.kudos - price;
                            let t = &mut self.upgrades[i];
                            t.count = t.count + 1;
                            proof {
                                let e = pre.upgrades[i as int];
                                assert(self@.upgrades == pre.upgrades.update(
                                    i as int,
                                    upgrade_with_count(e, (e.count + 1) as u32),
                                ));
                                lemma_restack_keeps_owned_ok(
                                    pre.upgrades,
                                    pre.all_upgrades,
                                    i as int,
                                );
                            }
                        }
                    },
                    None => {
                        proof {
                            assert(owned_entry_ok(pre.upgrades[i as int], pre.all_upgrades));
                            assert(false);
                        }
                    },
                }
            },
            None => {
                match find_named(&self.all_upgrades, &upgrade.name) {
                    Some(ci) => {
                        let base = self.all_upgrades[ci].cost;
                        let max_count = self.all_upgrades[ci].count;
                        let price: u64 = (base as u64) * 10;
                        if self.kudos >= price && max_count >= 1 {
                            self.kudos = self.kudos - price;
                            let c = self.all_upgrades[ci].duplicate();
                            let owned_entry = Upgrade {
                                name: c.name,
                                flavor_text: c.flavor_text,
                                desc: c.desc,
                                multiplier: c.multiplier,
                                count: 1,
                                cost: c.cost,
                            };
                            self.upgrades.push(owned_entry);
                            proof {
                                lemma_first_buy_keeps_owned_ok(
                                    pre.upgrades,
                                    pre.all_upgrades,
                                    pre.all_upgrades[ci as int],
                                );
                            }
                        }
                    },
                    None => {},
                }
            },
        }
    }

    /// Dispatches one intent: the single entry point the outside
    /// layer drives.
    pub fn update(&mut self, message: Message)
        requires
            old(self).wf(),
        ensures
            final(self).wf(),
            update_post(old(self)@, message, final(self)@),
    {
        match message {
            Message::Upload => self.upload_story(),
            Message::Tick => self.tick(),
            Message::BuyTag(tag) => self.buy_tag(tag),
            Message::ToggleTag(tag) => self.toggle_tag(tag),
            Message::BuyUpgrade(upgrade) => self.buy_upgrade(upgrade),
        }
    }
}

/// Restacking the owned upgrade at `i` — its stack raised by one,
/// still within its catalog maximum — keeps the owned list
/// well-formed.
pub proof fn lemma_restack_keeps_owned_ok(owned: Seq<Upgrade>, catalog: Seq<Upgrade>, i: int)
    requires
        owned_ok(owned, catalog),
        0 <= i < owned.len(),
        owned_entry_ok(
            upgrade_with_count(owned[i], (owned[i].count + 1) as u32),
            catalog,
        ),
    ensures
        owned_ok(
            owned.update(i, upgrade_with_count(owned[i], (owned[i].count + 1) as u32)),
            catalog,
        ),
{
    let post = owned.update(i, upgrade_with_count(owned[i], (owned[i].count + 1) as u32));
    assert forall|j: int| 0 <= j < post.len() implies owned_entry_ok(
        #[trigger] post[j],
        catalog,
    ) by {
        if j != i {
            assert(post[j] == owned[j]);
        }
    }
    assert forall|a: int, b: int|
        0 <= a < post.len() && 0 <= b < post.len() && a != b implies #[trigger] post[a].name@
        != #[trigger] post[b].name@ by {
        assert(post[a].name@ == owned[a].name@);
        assert(post[b].name@ == owned[b].name@);
    }
}

/// Buying a first stack of a catalog entry whose maximum is at least
/// one, under a name not yet owned, keeps the owned list well-formed.
pub proof fn lemma_first_buy_keeps_owned_ok(owned: Seq<Upgrade>, catalog: Seq<Upgrade>, c: Upgrade)
    requires
        owned_ok(owned, catalog),
        !has_upgrade_named(owned, c.name@),
        catalog_find(catalog, c.name@) == Some(c),
        c.count >= 1,
    ensures
        owned_ok(owned.push(upgrade_with_count(c, 1)), catalog),
{
    let post = owned.push(upgrade_with_count(c, 1));
    assert forall|j: int| 0 <= j < post.len() implies owned_entry_ok(
        #[trigger] post[j],
        catalog,
    ) by {
        if j < owned.len() {
            assert(post[j] == owned[j]);
        } else {
            assert(post[j] == upgrade_with_count(c, 1));
        }
    }
    assert forall|a: int, b: int|
        0 <= a < post.len() && 0 <= b < post.len() && a != b implies #[trigger] post[a].name@
        != #[trigger] post[b].name@ by {
        if a < owned.len() && b < owned.len() {
        } else if a < owned.len() {
            assert(post[b].name@ == c.name@);
            assert(post[a].name@ != c.name@);
        } else {
            assert(post[a].name@ == c.name@);
            assert(post[b].name@ != c.name@);
        }
    }
}

} // verus!

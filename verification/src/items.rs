//! The purchasable items: narrative categories, tags and upgrades,
//! together with the masked placeholder that stands in for entries the
//! player has not revealed yet.

use vstd::prelude::*;

verus! {

/// Narrative category a tag can belong to. Categories are used only as
/// grouping keys when the per-upload tag bonus is computed.
#[derive(Clone, Copy, PartialEq, Eq, Structural, Debug)]
pub enum Category {
    Fluff,
    Angst,
    AU,
    Horror,
    Romance,
}

/// An unlockable passive modifier. `name` is the identity key: two
/// tags stand for the same catalog entry iff their names match.
/// `cost` is a one-time price in whole kudos. A tag enters play as an
/// unlocked copy whose `active` flag the player may toggle; only
/// active unlocked tags feed the reward calculation.
pub struct Tag {
    pub name: String,
    pub categories: Vec<Category>,
    pub cost: u32,
    pub active: bool,
}

/// A purchasable stackable item, identified by `name`. In a catalog
/// entry, `count` is the maximum stack and `cost` the base price (in
/// whole kudos); in an owned copy, `count` is the current stack, which
/// starts at 1 and never exceeds the catalog maximum, while `cost`
/// keeps the base price. `multiplier` is the bonus each owned stack
/// adds, in tenths of a kudo.
pub struct Upgrade {
    pub name: String,
    pub flavor_text: String,
    pub desc: String,
    pub multiplier: u32,
    pub count: u32,
    pub cost: u32,
}

/// The reserved name of the masked placeholder that the shop shows for
/// a not-yet-revealed entry. Purchase handlers always reject it.
pub open spec fn spec_is_sentinel(name: Seq<char>) -> bool {
    name == "???"@
}

/// The name that marks the automation upgrade: each owned stack of it
/// triggers one full reward application per timer tick.
pub open spec fn spec_automation_name() -> Seq<char> {
    "Clone"@
}

/// True iff `name` reads exactly `lit`.
pub fn string_matches(name: &String, lit: &str) -> (r: bool)
    ensures
        r == (name@ == lit@),
{
    let key: String = String::from_str(lit);
    *name == key
}

/// True iff `name` is the reserved placeholder name.
pub fn is_sentinel_name(name: &String) -> (r: bool)
    ensures
        r == spec_is_sentinel(name@),
{
    string_matches(name, "???")
}

/// True iff `name` names the automation upgrade.
pub fn is_automation_name(name: &String) -> (r: bool)
    ensures
        r == (name@ == spec_automation_name()),
{
    string_matches(name, "Clone")
}

/// An element-for-element copy of a category list.
pub fn copy_categories(cats: &Vec<Category>) -> (r: Vec<Category>)
    ensures
        r@ == cats@,
{
    let mut r: Vec<Category> = Vec::new();
    let mut i: usize = 0;
    while i < cats.len()
        invariant
            i <= cats@.len(),
            r@ =~= cats@.take(i as int),
        decreases cats@.len() - i,
    {
        r.push(cats[i]);
        i = i + 1;
    }
    proof {
        assert(cats@.take(cats@.len() as int) =~= cats@);
    }
    r
}

impl Tag {
    /// The masked placeholder shown for a tag the player has not
    /// revealed yet: reserved name, no categories, zero cost.
    pub fn placeholder() -> (r: Tag)
        ensures
            spec_is_sentinel(r.name@),
            r.categories@ == Seq::<Category>::empty(),
            r.cost == 0,
            r.active == false,
    {
        Tag { name: String::from_str("???"), categories: Vec::new(), cost: 0, active: false }
    }

    /// A copy of this tag, field for field.
    pub fn duplicate(&self) -> (r: Tag)
        ensures
            r.name@ == self.name@,
            r.categories@ == self.categories@,
            r.cost == self.cost,
            r.active == self.active,
    {
        Tag {
            name: self.name.clone(),
            categories: copy_categories(&self.categories),
            cost: self.cost,
            active: self.active,
        }
    }
}

impl Upgrade {
    /// The masked placeholder shown for an upgrade the player has not
    /// revealed yet: reserved name, empty texts, zero numbers.
    pub fn placeholder() -> (r: Upgrade)
        ensures
            spec_is_sentinel(r.name@),
            r.flavor_text@ == Seq::<char>::empty(),
            r.desc@ == Seq::<char>::empty(),
            r.multiplier == 0,
            r.count == 0,
            r.cost == 0,
    {
        Upgrade {
            name: String::from_str("???"),
            flavor_text: String::new(),
            desc: String::new(),
            multiplier: 0,
            count: 0,
            cost: 0,
        }
    }

    /// A copy of this upgrade, equal to it field for field.
    pub fn duplicate(&self) -> (r: Upgrade)
        ensures
            r == *self,
    {
        Upgrade {
            name: self.name.clone(),
            flavor_text: self.flavor_text.clone(),
            desc: self.desc.clone(),
            multiplier: self.multiplier,
            count: self.count,
            cost: self.cost,
        }
    }
}

} // verus!

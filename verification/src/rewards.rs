//! The reward formulas: how many tenths of a kudo one upload grants.
//!
//! The tag bonus counts, over the active unlocked tags, how often each
//! category occurs; a category found `n` times contributes `n` tenths,
//! except `AU`, whose stacking is punished and contributes
//! `max(10 - 2*n, 0)` tenths. The sum plus a flat base of 5 tenths is
//! the tag bonus. The upgrade bonus is a flat base of 5 tenths plus
//! `multiplier * stack` tenths for every owned upgrade. Executable
//! results saturate at `u64::MAX`; the contracts say so exactly
//! through [`clamp64`].

use vstd::prelude::*;

use crate::items::Category;
use crate::items::Tag;
use crate::items::Upgrade;
use crate::items::spec_automation_name;

verus! {

/// `x`, cut off at the largest value a `u64` can hold.
pub open spec fn clamp64(x: int) -> int {
    if x > u64::MAX as int {
        u64::MAX as int
    } else {
        x
    }
}

/// `a + b`, saturating at `u64::MAX`.
pub fn sat_add(a: u64, b: u64) -> (r: u64)
    ensures
        r as int == clamp64(a + b),
{
    if a <= u64::MAX - b {
        a + b
    } else {
        u64::MAX
    }
}

/// How often `c` occurs in `cats`.
pub open spec fn count_in(cats: Seq<Category>, c: Category) -> nat
    decreases cats.len(),
{
    if cats.len() == 0 {
        0
    } else {
        count_in(cats.drop_last(), c) + (if cats.last() == c {
            1nat
        } else {
            0nat
        })
    }
}

/// How many occurrences of `c` the tag `t` feeds into the bonus:
/// its own count if it is active, none otherwise.
pub open spec fn tag_count(t: Tag, c: Category) -> nat {
    if t.active {
        count_in(t.categories@, c)
    } else {
        0
    }
}

/// How often `c` occurs over all active tags of `tags`.
pub open spec fn cat_count(tags: Seq<Tag>, c: Category) -> nat
    decreases tags.len(),
{
    if tags.len() == 0 {
        0
    } else {
        cat_count(tags.drop_last(), c) + tag_count(tags.last(), c)
    }
}

/// The tenths of a kudo that category `c`, seen `n` times, contributes
/// to the tag bonus: nothing when absent, `n` for an ordinary
/// category, and the punitive `max(10 - 2*n, 0)` for `AU`.
pub open spec fn category_contrib(c: Category, n: nat) -> nat {
    if n == 0 {
        0
    } else if c == Category::AU {
        if n < 5 {
            (10 - 2 * n) as nat
        } else {
            0
        }
    } else {
        n
    }
}

/// The tag bonus of one upload, in tenths of a kudo: a flat base of 5
/// plus the contribution of every category.
pub open spec fn spec_tag_bonus(tags: Seq<Tag>) -> nat {
    5 + category_contrib(Category::Fluff, cat_count(tags, Category::Fluff))
        + category_contrib(Category::Angst, cat_count(tags, Category::Angst))
        + category_contrib(Category::AU, cat_count(tags, Category::AU))
        + category_contrib(Category::Horror, cat_count(tags, Category::Horror))
        + category_contrib(Category::Romance, cat_count(tags, Category::Romance))
}

/// The tenths of a kudo one owned upgrade adds to the upgrade bonus.
pub open spec fn upgrade_term(u: Upgrade) -> nat {
    (u.multiplier * u.count) as nat
}

/// The summed terms of all owned upgrades.
pub open spec fn upgrade_sum(ups: Seq<Upgrade>) -> nat
    decreases ups.len(),
{
    if ups.len() == 0 {
        0
    } else {
        upgrade_sum(ups.drop_last()) + upgrade_term(ups.last())
    }
}

/// The upgrade bonus of one upload, in tenths of a kudo: a flat base
/// of 5 plus every owned upgrade's term.
pub open spec fn spec_upgrade_bonus(ups: Seq<Upgrade>) -> nat {
    5 + upgrade_sum(ups)
}

/// The full reward of one upload, in tenths of a kudo.
pub open spec fn spec_reward(tags: Seq<Tag>, ups: Seq<Upgrade>) -> nat {
    spec_tag_bonus(tags) + spec_upgrade_bonus(ups)
}

/// How many automation stacks are owned: the summed current stacks of
/// every owned upgrade that bears the automation name.
pub open spec fn automation_stacks(ups: Seq<Upgrade>) -> nat
    decreases ups.len(),
{
    if ups.len() == 0 {
        0
    } else {
        automation_stacks(ups.drop_last()) + (if ups.last().name@ == spec_automation_name() {
            ups.last().count as nat
        } else {
            0nat
        })
    }
}

/// Counts, saturating, how often `c` occurs over the active tags.
pub fn count_category(tags: &Vec<Tag>, c: Category) -> (r: u64)
    ensures
        r as int == clamp64(cat_count(tags@, c) as int),
{
    let mut acc: u64 = 0;
    let mut i: usize = 0;
    while i < tags.len()
        invariant
            i <= tags@.len(),
            acc as int == clamp64(cat_count(tags@.take(i as int), c) as int),
        decreases tags@.len() - i,
    {
        let t = &tags[i];
        if t.active {
            let mut j: usize = 0;
            while j < t.categories.len()
                invariant
                    j <= t.categories@.len(),
                    *t == tags@[i as int],
                    i < tags@.len(),
                    acc as int == clamp64(
                        cat_count(tags@.take(i as int), c) as int + count_in(
                            t.categories@.take(j as int),
                            c,
                        ) as int,
                    ),
                decreases t.categories@.len() - j,
            {
                if t.categories[j] == c {
                    acc = sat_add(acc, 1);
                }
                proof {
                    assert(t.categories@.take(j + 1).drop_last() =~= t.categories@.take(j as int));
                    assert(t.categories@.take(j + 1).last() == t.categories@[j as int]);
                }
                j = j + 1;
            }
            proof {
                assert(t.categories@.take(t.categories@.len() as int) =~= t.categories@);
            }
        }
        proof {
            assert(tags@.take(i + 1).drop_last() =~= tags@.take(i as int));
            assert(tags@.take(i + 1).last() == tags@[i as int]);
        }
        i = i + 1;
    }
    proof {
        assert(tags@.take(tags@.len() as int) =~= tags@);
    }
    acc
}

} // verus!

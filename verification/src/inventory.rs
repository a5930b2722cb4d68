//! An import policy for passports that carry an inventory and a health
//! value, as a tick-based game world hands them over.
//!
//! The destination decides alone what an arriving passport may bring: it
//! turns away kinds of items that it does not allow and brings the health
//! into its own bounds. A passport that it cannot read is no reason to turn
//! the bearer away: the bearer comes in as a newcomer.

use crate::identity::Identity;
use vstd::prelude::*;

verus! {

/// The lowest health that an arriving player is given.
pub const MIN_HEALTH: u32 = 1;

/// The highest health that an arriving player is given, and the health of a
/// newcomer.
pub const MAX_HEALTH: u32 = 100;

/// Item types.
#[derive(Debug, Clone, Copy, PartialEq, Eq, Structural)]
pub enum ItemKind {
    Sword,
    Shield,
    Potion,
    Key,
    Gem,
    Torch,
}

impl ItemKind {
    /// Whether the kind counts as a weapon.
    pub open spec fn weapon(self) -> bool {
        self == ItemKind::Sword
    }

    /// Whether the kind counts as a weapon.
    pub fn is_weapon(&self) -> (b: bool)
        ensures
            b == self.weapon(),
    {
        matches!(self, ItemKind::Sword)
    }
}

/// Inventory item.
#[derive(Debug, Clone, Copy, PartialEq, Eq, Structural)]
pub struct InventoryItem {
    pub kind: ItemKind,
    pub count: u32,
}

/// What a passport holds once the destination has decoded its data.
#[derive(Debug, Clone)]
pub struct GamePassport {
    pub identity: Identity,
    pub name: String,
    pub health: u32,
    pub max_health: u32,
    pub inventory: Vec<InventoryItem>,
    pub origin_zone: String,
}

/// Import policy result.
#[derive(Debug, Clone)]
pub struct ImportResult {
    /// The items that come in, in the order of the passport.
    pub accepted_items: Vec<InventoryItem>,
    /// The items that were turned away, in the order of the passport, each
    /// with the reason.
    pub rejected_items: Vec<(InventoryItem, String)>,
    pub health: u32,
}

/// What an [`ImportResult`] stands for in contracts.
pub struct ImportResultView {
    pub accepted_items: Seq<InventoryItem>,
    pub rejected_items: Seq<(InventoryItem, Seq<char>)>,
    pub health: u32,
}

impl View for ImportResult {
    type V = ImportResultView;

    open spec fn view(&self) -> ImportResultView {
        ImportResultView {
            accepted_items: self.accepted_items@,
            rejected_items: Seq::new(
                self.rejected_items@.len(),
                |k: int| (self.rejected_items@[k].0, self.rejected_items@[k].1@),
            ),
            health: self.health,
        }
    }
}

/// The reason given for an item that is turned away as a weapon.
pub open spec fn weapons_reason() -> Seq<char> {
    "weapons not allowed"@
}

/// Whether a zone lets an item in.
pub open spec fn lets_in(allow_weapons: bool, item: InventoryItem) -> bool {
    allow_weapons || !item.kind.weapon()
}

/// A health value brought into the bounds.
pub open spec fn clamp_health(health: u32) -> u32 {
    if health < MIN_HEALTH {
        MIN_HEALTH
    } else if health > MAX_HEALTH {
        MAX_HEALTH
    } else {
        health
    }
}

/// What a zone makes of an inventory and a health value: the items that it
/// lets in, those that it turns away with the reason, both in their
/// order, and the health within the bounds.
pub open spec fn evaluate_spec(
    allow_weapons: bool,
    inventory: Seq<InventoryItem>,
    health: u32,
) -> ImportResultView {
    ImportResultView {
        accepted_items: inventory.filter(|item: InventoryItem| lets_in(allow_weapons, item)),
        rejected_items: inventory.filter(
            |item: InventoryItem| !lets_in(allow_weapons, item),
        ).map_values(|item: InventoryItem| (item, weapons_reason())),
        health: clamp_health(health),
    }
}

/// What a newcomer has: nothing, at full health.
pub open spec fn newcomer_spec() -> ImportResultView {
    ImportResultView {
        accepted_items: Seq::empty(),
        rejected_items: Seq::empty(),
        health: MAX_HEALTH,
    }
}

/// Filtering one item more: the item is appended if it passes.
proof fn lemma_filter_take_next<A>(s: Seq<A>, pred: spec_fn(A) -> bool, i: int)
    requires
        0 <= i < s.len(),
    ensures
        s.take(i + 1).filter(pred) == if pred(s[i]) {
            s.take(i).filter(pred).push(s[i])
        } else {
            s.take(i).filter(pred)
        },
{
    reveal(Seq::filter);
    assert(s.take(i + 1).drop_last() =~= s.take(i));
}

impl ImportResult {
    /// The result for a bearer without prior data.
    pub fn newcomer() -> (result: ImportResult)
        ensures
            result@ == newcomer_spec(),
    {
        let result = ImportResult {
            accepted_items: Vec::new(),
            rejected_items: Vec::new(),
            health: MAX_HEALTH,
        };
        assert(result@.rejected_items =~= Seq::empty());
        result
    }
}

/// What a zone allows an arriving passport to bring.
#[derive(Debug, Clone, Copy, PartialEq, Eq, Structural)]
pub struct ImportPolicy {
    pub allow_weapons: bool,
}

impl ImportPolicy {
    /// Apply the policy to a decoded passport.
    pub fn evaluate(&self, passport: &GamePassport) -> (result: ImportResult)
        ensures
            result@ == evaluate_spec(self.allow_weapons, passport.inventory@, passport.health),
    {
        let mut accepted: Vec<InventoryItem> = Vec::new();
        let mut rejected: Vec<(InventoryItem, String)> = Vec::new();
        let ghost keep = |item: InventoryItem| lets_in(self.allow_weapons, item);
        let ghost refuse = |item: InventoryItem| !lets_in(self.allow_weapons, item);
        let ghost inventory = passport.inventory@;
        proof {
            reveal(Seq::filter);
            assert(inventory.take(0).filter(keep) =~= Seq::empty());
            assert(inventory.take(0).filter(refuse) =~= Seq::empty());
        }
        let n = passport.inventory.len();
        let mut i: usize = 0;
        while i < n
            invariant
                i <= n,
                n == inventory.len(),
                inventory == passport.inventory@,
                keep == |item: InventoryItem| lets_in(self.allow_weapons, item),
                refuse == |item: InventoryItem| !lets_in(self.allow_weapons, item),
                accepted@ == inventory.take(i as int).filter(keep),
                rejected@.len() == inventory.take(i as int).filter(refuse).len(),
                forall|k: int|
                    0 <= k < rejected@.len() ==> {
                        &&& (#[trigger] rejected@[k]).0 == inventory.take(i as int).filter(
                            refuse,
                        )[k]
                        &&& rejected@[k].1@ == weapons_reason()
                    },
            decreases n - i,
        {
            let item = passport.inventory[i];
            proof {
                lemma_filter_take_next(inventory, keep, i as int);
                lemma_filter_take_next(inventory, refuse, i as int);
            }
            if !self.allow_weapons && item.kind.is_weapon() {
                rejected.push((item, "weapons not allowed".to_owned()));
            } else {
                accepted.push(item);
            }
            i = i + 1;
        }
        let health = if passport.health < MIN_HEALTH {
            MIN_HEALTH
        } else if passport.health > MAX_HEALTH {
            MAX_HEALTH
        } else {
            passport.health
        };
        let result = ImportResult { accepted_items: accepted, rejected_items: rejected, health };
        proof {
            assert(inventory.take(n as int) =~= inventory);
            assert(result@.rejected_items =~= evaluate_spec(
                self.allow_weapons,
                inventory,
                passport.health,
            ).rejected_items);
        }
        result
    }

    /// Take in the bearer of a passport whose data the destination has
    /// tried to decode: `decoded` is what came out, `None` where the data
    /// could not be read. Unreadable data makes the bearer a newcomer.
    pub fn import(&self, decoded: Option<&GamePassport>) -> (result: ImportResult)
        ensures
            result@ == match decoded {
                Some(passport) => evaluate_spec(
                    self.allow_weapons,
                    passport.inventory@,
                    passport.health,
                ),
                None => newcomer_spec(),
            },
    {
        match decoded {
            Some(passport) => self.evaluate(passport),
            None => ImportResult::newcomer(),
        }
    }
}

} // verus!

//! Using what the player carries: equipping gear and eating from the
//! inventory panel.

use crate::data::{FishType, ItemKind, ItemType};
use crate::game::{feed, fed, LurhookGame, EAT_CANNED_FOOD, EAT_RAW_FISH};
use crate::types::Player;
use vstd::prelude::*;

verus! {

/// The items carried after `item` has taken the place of what was in a
/// gear slot: what was displaced is added at the end.
pub open spec fn with_displaced(items: Seq<ItemType>, slot: Option<ItemType>) -> Seq<ItemType> {
    match slot {
        Some(displaced) => items.push(displaced),
        None => items,
    }
}

/// Where the cursor of the inventory panel stands once the panel holds
/// `total` lines: on the last line if it was beyond it.
pub open spec fn cursor_within(cursor: int, total: int) -> int {
    if cursor >= total && total > 0 {
        total - 1
    } else {
        cursor
    }
}

/// Puts `item` into a gear slot and adds what it displaces to the items
/// carried.
pub fn swap_into(slot: &mut Option<ItemType>, items: &mut Vec<ItemType>, item: ItemType)
    ensures
        *final(slot) == Some(item),
        final(items)@ == with_displaced(old(items)@, *old(slot)),
{
    match slot.take() {
        Some(displaced) => {
            items.push(displaced);
        },
        None => {},
    }
    *slot = Some(item);
}

impl LurhookGame {
    /// Whether `next` is `self` after the line under the cursor of the
    /// inventory panel was activated. The panel lists the items, then the
    /// fish. A rod, reel or lure is equipped in place of the one in use,
    /// which goes back among the items; food and fish are eaten. The
    /// cursor is then moved back onto the list if it has fallen off its
    /// end.
    pub open spec fn activated(self, next: LurhookGame) -> bool {
        let at = self.inventory_cursor as int;
        let items = self.player.items@;
        let fish = self.player.inventory@;
        let total = next.player.items@.len() + next.player.inventory@.len();
        &&& next.inventory_cursor == cursor_within(at, total as int)
        &&& if at < items.len() {
            let item = items[at];
            let rest = items.remove(at);
            &&& next.player.inventory == self.player.inventory
            &&& match item.kind {
                ItemKind::Rod => {
                    &&& next.player.items@ == with_displaced(rest, self.player.rod)
                    &&& next.ui == self.ui
                    &&& next.player == (Player {
                        items: next.player.items,
                        rod: Some(item),
                        tension_bonus: item.tension_bonus,
                        ..self.player
                    })
                },
                ItemKind::Reel => {
                    &&& next.player.items@ == with_displaced(rest, self.player.reel)
                    &&& next.ui == self.ui
                    &&& next.player == (Player {
                        items: next.player.items,
                        reel: Some(item),
                        reel_factor: item.reel_factor,
                        ..self.player
                    })
                },
                ItemKind::Lure => {
                    &&& next.player.items@ == with_displaced(rest, self.player.lure)
                    &&& next.ui == self.ui
                    &&& next.player == (Player {
                        items: next.player.items,
                        lure: Some(item),
                        bait_bonus: item.bite_bonus,
                        ..self.player
                    })
                },
                ItemKind::Food => {
                    &&& next.player.items@ == rest
                    &&& next.ui.said(self.ui, seq!["You ate food."@])
                    &&& next.ui.layout == self.ui.layout
                    &&& next.player == (Player {
                        items: next.player.items,
                        hunger: fed(self.player.hunger as int, EAT_CANNED_FOOD as int) as i32,
                        ..self.player
                    })
                },
            }
        } else if at - items.len() < fish.len() {
            &&& next.player.inventory@ == fish.remove(at - items.len())
            &&& next.ui.said(self.ui, seq!["You ate a raw fish."@])
            &&& next.ui.layout == self.ui.layout
            &&& next.player == (Player {
                inventory: next.player.inventory,
                hunger: fed(self.player.hunger as int, EAT_RAW_FISH as int) as i32,
                ..self.player
            })
        } else {
            &&& next.player == self.player
            &&& next.ui == self.ui
        }
        &&& next == (LurhookGame {
            player: next.player,
            ui: next.ui,
            inventory_cursor: next.inventory_cursor,
            ..self
        })
    }

    /// Activates the line under the cursor of the inventory panel.
    pub fn activate_selected_item(&mut self)
        ensures
            old(self).activated(*final(self)),
            old(self).wf() ==> final(self).wf(),
            old(self).player.vitals_ok() ==> final(self).player.vitals_ok(),
    {
        let idx = self.inventory_cursor;
        let carried = self.player.items.len();
        if idx < carried {
            let item = self.player.items.remove(idx);
            match item.kind {
                ItemKind::Rod => {
                    self.player.tension_bonus = item.tension_bonus;
                    swap_into(&mut self.player.rod, &mut self.player.items, item);
                },
                ItemKind::Reel => {
                    self.player.reel_factor = item.reel_factor;
                    swap_into(&mut self.player.reel, &mut self.player.items, item);
                },
                ItemKind::Lure => {
                    self.player.bait_bonus = item.bite_bonus;
                    swap_into(&mut self.player.lure, &mut self.player.items, item);
                },
                ItemKind::Food => {
                    self.player.hunger = feed(self.player.hunger, EAT_CANNED_FOOD);
                    let _ = self.ui.add_log("You ate food.");
                },
            }
        } else {
            let fidx = idx - carried;
            if fidx < self.player.inventory.len() {
                let _fish: FishType = self.player.inventory.remove(fidx);
                self.player.hunger = feed(self.player.hunger, EAT_RAW_FISH);
                let _ = self.ui.add_log("You ate a raw fish.");
            }
        }
        let total = self.player.items.len() as u128 + self.player.inventory.len() as u128;
        if self.inventory_cursor as u128 >= total && total > 0 {
            self.inventory_cursor = (total - 1) as usize;
        }
    }
}

} // verus!

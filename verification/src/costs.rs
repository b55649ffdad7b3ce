//! What an ability costs, and the inventory that item costs are held against.

use bevy::platform::collections::HashMap;
use vstd::prelude::*;

use crate::trusted::{
    inventory_entries, inventory_get, inventory_insert, inventory_new, item_cost_entries,
    item_costs_as_slice, item_costs_clone, item_costs_new, item_costs_push, stat_cost_entries,
    stat_costs_as_slice, stat_costs_clone, stat_costs_new, stat_costs_push,
};
pub use crate::trusted::{ItemCostList, StatCostList};

verus! {

/// A number of items of one kind that an ability needs.
#[derive(Clone, Copy, PartialEq, Eq, Structural, Debug)]
pub struct ItemCost {
    pub item_id: u16,
    pub amount: u8,
}

/// An amount of one stat that an ability needs. The stat is named by its
/// position in the integrator's closed list of stats, and amounts are whole
/// numbers on the same scale as the stat values that the activation test is
/// given.
#[derive(Clone, Copy, PartialEq, Eq, Structural, Debug)]
pub struct StatCost {
    pub stat: u16,
    pub amount: u32,
}

impl View for StatCostList {
    type V = Seq<StatCost>;

    open spec fn view(&self) -> Seq<StatCost> {
        stat_cost_entries(*self)
    }
}

impl StatCostList {
    /// The empty list.
    pub fn new() -> (list: Self)
        ensures
            list@ == Seq::<StatCost>::empty(),
    {
        stat_costs_new()
    }

    /// Appends `cost`.
    pub fn push(&mut self, cost: StatCost)
        requires
            old(self)@.len() < u16::MAX,
        ensures
            final(self)@ == old(self)@.push(cost),
    {
        stat_costs_push(self, cost)
    }

    /// The entries, in order.
    pub fn as_slice(&self) -> (entries: &[StatCost])
        ensures
            entries@ == self@,
    {
        stat_costs_as_slice(self)
    }
}

impl Clone for StatCostList {
    fn clone(&self) -> (copy: Self)
        ensures
            copy@ == self@,
    {
        stat_costs_clone(self)
    }
}

impl View for ItemCostList {
    type V = Seq<ItemCost>;

    open spec fn view(&self) -> Seq<ItemCost> {
        item_cost_entries(*self)
    }
}

impl ItemCostList {
    /// The empty list.
    pub fn new() -> (list: Self)
        ensures
            list@ == Seq::<ItemCost>::empty(),
    {
        item_costs_new()
    }

    /// Appends `cost`.
    pub fn push(&mut self, cost: ItemCost)
        requires
            old(self)@.len() < u16::MAX,
        ensures
            final(self)@ == old(self)@.push(cost),
    {
        item_costs_push(self, cost)
    }

    /// The entries, in order.
    pub fn as_slice(&self) -> (entries: &[ItemCost])
        ensures
            entries@ == self@,
    {
        item_costs_as_slice(self)
    }
}

impl Clone for ItemCostList {
    fn clone(&self) -> (copy: Self)
        ensures
            copy@ == self@,
    {
        item_costs_clone(self)
    }
}

/// The costs of an ability as plain sequences.
pub struct AbilityCostView {
    pub stat_costs: Seq<StatCost>,
    pub item_costs: Seq<ItemCost>,
}

impl AbilityCostView {
    /// No costs at all.
    pub open spec fn free() -> AbilityCostView {
        AbilityCostView { stat_costs: Seq::empty(), item_costs: Seq::empty() }
    }
}

/// Everything an ability costs. An empty list means that the ability is free
/// in that respect.
pub struct AbilityCost {
    pub stat_costs: StatCostList,
    pub item_costs: ItemCostList,
}

impl View for AbilityCost {
    type V = AbilityCostView;

    open spec fn view(&self) -> AbilityCostView {
        AbilityCostView { stat_costs: self.stat_costs@, item_costs: self.item_costs@ }
    }
}

impl AbilityCost {
    /// No costs at all.
    pub fn new() -> (costs: Self)
        ensures
            costs@ == AbilityCostView::free(),
    {
        AbilityCost { stat_costs: StatCostList::new(), item_costs: ItemCostList::new() }
    }
}

impl Clone for AbilityCost {
    fn clone(&self) -> (copy: Self)
        ensures
            copy@ == self@,
    {
        AbilityCost { stat_costs: self.stat_costs.clone(), item_costs: self.item_costs.clone() }
    }
}

impl Default for AbilityCost {
    fn default() -> (costs: Self)
        ensures
            costs@ == AbilityCostView::free(),
    {
        AbilityCost::new()
    }
}

/// The items an entity holds: for each item identifier the count in stock.
pub struct AbilityItems {
    map: HashMap<u16, u16>,
}

impl View for AbilityItems {
    type V = Map<u16, u16>;

    closed spec fn view(&self) -> Map<u16, u16> {
        inventory_entries(self.map)
    }
}

impl AbilityItems {
    /// An inventory without items.
    pub fn new() -> (items: Self)
        ensures
            items@ == (Map::<u16, u16>::empty()),
    {
        AbilityItems { map: inventory_new() }
    }

    /// The count in stock of `item_id`, if the inventory lists that item.
    pub fn get(&self, item_id: u16) -> (count: Option<u16>)
        ensures
            count == if self@.contains_key(item_id) {
                Some(self@[item_id])
            } else {
                None
            },
    {
        inventory_get(&self.map, item_id)
    }

    /// Sets the count in stock of `item_id`, and returns the count it had.
    pub fn insert(&mut self, item_id: u16, count: u16) -> (previous: Option<u16>)
        ensures
            final(self)@ == old(self)@.insert(item_id, count),
            previous == if old(self)@.contains_key(item_id) {
                Some(old(self)@[item_id])
            } else {
                None
            },
    {
        inventory_insert(&mut self.map, item_id, count)
    }
}

impl Default for AbilityItems {
    fn default() -> (items: Self)
        ensures
            items@ == (Map::<u16, u16>::empty()),
    {
        AbilityItems::new()
    }
}

} // verus!

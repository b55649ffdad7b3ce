//! The immutable template of an ability.

use bevy_behave::ego_tree::Tree;
use bevy_behave::Behave;
use vstd::prelude::*;

use crate::costs::{AbilityCost, AbilityCostView, ItemCost, StatCost};
use crate::tag_set::TagId;
use crate::tags::{AbilityTags, AbilityTagsView};
use crate::trusted::clone_tree;

verus! {

/// An ability definition as plain values.
pub struct AbilityDefinitionView {
    pub tags: AbilityTagsView,
    pub execution_tree: Option<Tree<Behave>>,
    pub costs: AbilityCostView,
}

impl AbilityDefinitionView {
    /// A definition identified by `tag`: bound to no tags, free, and without
    /// a behaviour tree.
    pub open spec fn bare(tag: TagId) -> AbilityDefinitionView {
        AbilityDefinitionView {
            tags: AbilityTagsView::bare(tag),
            execution_tree: None,
            costs: AbilityCostView::free(),
        }
    }
}

/// The template of an ability: the tags that decide whether it may start,
/// what it costs, and the behaviour tree that an activation runs, if it has
/// one.
pub struct AbilityDefinition {
    pub tags: AbilityTags,
    pub execution_tree: Option<Tree<Behave>>,
    pub costs: AbilityCost,
}

impl View for AbilityDefinition {
    type V = AbilityDefinitionView;

    open spec fn view(&self) -> AbilityDefinitionView {
        AbilityDefinitionView {
            tags: self.tags@,
            execution_tree: self.execution_tree,
            costs: self.costs@,
        }
    }
}

impl AbilityDefinition {
    /// A definition identified by `tag`: bound to no tags, free, and without
    /// a behaviour tree.
    pub fn new(tag: TagId) -> (definition: Self)
        ensures
            definition@ == AbilityDefinitionView::bare(tag),
    {
        AbilityDefinition {
            tags: AbilityTags::new(tag),
            costs: AbilityCost::new(),
            execution_tree: None,
        }
    }

    /// Sets the behaviour tree that an activation runs.
    pub fn with_execution_tree(self, tree: Tree<Behave>) -> (definition: Self)
        ensures
            definition@ == (AbilityDefinitionView { execution_tree: Some(tree), ..self@ }),
    {
        let mut definition = self;
        definition.execution_tree = Some(tree);
        definition
    }

    /// Adds a stat cost behind those already declared.
    pub fn with_stat_cost(self, cost: StatCost) -> (definition: Self)
        requires
            self@.costs.stat_costs.len() < u16::MAX,
        ensures
            definition@ == (AbilityDefinitionView {
                costs: AbilityCostView {
                    stat_costs: self@.costs.stat_costs.push(cost),
                    ..self@.costs
                },
                ..self@
            }),
    {
        let mut definition = self;
        definition.costs.stat_costs.push(cost);
        definition
    }

    /// Adds an item cost behind those already declared.
    pub fn with_item_cost(self, cost: ItemCost) -> (definition: Self)
        requires
            self@.costs.item_costs.len() < u16::MAX,
        ensures
            definition@ == (AbilityDefinitionView {
                costs: AbilityCostView {
                    item_costs: self@.costs.item_costs.push(cost),
                    ..self@.costs
                },
                ..self@
            }),
    {
        let mut definition = self;
        definition.costs.item_costs.push(cost);
        definition
    }

    /// Adds tags that must all be active for the ability to activate. The
    /// list holds at most four.
    pub fn required(self, tags: &[TagId]) -> (definition: Self)
        requires
            self@.tags.required.len() + tags@.len() <= 4,
        ensures
            definition@ == (AbilityDefinitionView {
                tags: AbilityTagsView { required: self@.tags.required + tags@, ..self@.tags },
                ..self@
            }),
    {
        let mut definition = self;
        definition.tags.required.0.extend(tags);
        definition
    }

    /// Adds tags of which none may be active for the ability to activate.
    /// The list holds at most four.
    pub fn blocked_by(self, tags: &[TagId]) -> (definition: Self)
        requires
            self@.tags.blocked_by.len() + tags@.len() <= 4,
        ensures
            definition@ == (AbilityDefinitionView {
                tags: AbilityTagsView { blocked_by: self@.tags.blocked_by + tags@, ..self@.tags },
                ..self@
            }),
    {
        let mut definition = self;
        definition.tags.blocked_by.0.extend(tags);
        definition
    }

    /// Adds tags of which none may be active for the ability to activate, and
    /// which end the ability when one becomes active while it runs. The list
    /// holds at most four.
    pub fn canceled_by(self, tags: &[TagId]) -> (definition: Self)
        requires
            self@.tags.canceled_by.len() + tags@.len() <= 4,
        ensures
            definition@ == (AbilityDefinitionView {
                tags: AbilityTagsView { canceled_by: self@.tags.canceled_by + tags@, ..self@.tags },
                ..self@
            }),
    {
        let mut definition = self;
        definition.tags.canceled_by.0.extend(tags);
        definition
    }

    /// Adds tags that the ability puts on its entity while it runs. The list
    /// holds at most two.
    pub fn adds_tags(self, tags: &[TagId]) -> (definition: Self)
        requires
            self@.tags.add.len() + tags@.len() <= 2,
        ensures
            definition@ == (AbilityDefinitionView {
                tags: AbilityTagsView { add: self@.tags.add + tags@, ..self@.tags },
                ..self@
            }),
    {
        let mut definition = self;
        definition.tags.add.0.extend(tags);
        definition
    }
}

impl Clone for AbilityDefinition {
    fn clone(&self) -> (copy: Self)
        ensures
            copy@ == self@,
    {
        let execution_tree = match &self.execution_tree {
            Some(tree) => Some(clone_tree(tree)),
            None => None,
        };
        AbilityDefinition { tags: self.tags, execution_tree, costs: self.costs.clone() }
    }
}

} // verus!

use bevy::ecs::entity::Entity;
use bevy_abilities::ability::{Ability, CurrentAbility, GrantedAbilities, GRANTED_CAPACITY};
use bevy_abilities::ability_definition::AbilityDefinition;
use bevy_abilities::costs::{AbilityCost, AbilityItems, ItemCost, StatCost};
use bevy_abilities::events::CancelAbility;
use bevy_abilities::prelude::TagList;
use bevy_abilities::tag_set::TagId;
use bevy_abilities::costs::{ItemCostList, StatCostList};
use bevy_abilities::{AbilitiesPlugin, AbilityRegistry};
use bevy_behave::ego_tree::Tree;
use bevy_behave::Behave;

fn tags_of<const N: usize>(list: &TagList<N>) -> Vec<u16> {
    (0..list.len()).map(|i| list.get(i).0).collect()
}

fn small_tree() -> Tree<Behave> {
    let mut tree = Tree::new(Behave::Fallback);
    tree.root_mut().append(Behave::AlwaysFail);
    tree
}

#[test]
fn new_definition_is_bare() {
    let definition = AbilityDefinition::new(TagId(5));
    assert_eq!(definition.tags.ability, TagId(5));
    assert_eq!(definition.tags.required.0.len(), 0);
    assert_eq!(definition.tags.blocked_by.0.len(), 0);
    assert_eq!(definition.tags.canceled_by.0.len(), 0);
    assert_eq!(definition.tags.add.0.len(), 0);
    assert!(definition.execution_tree.is_none());
    assert!(definition.costs.stat_costs.as_slice().is_empty());
    assert!(definition.costs.item_costs.as_slice().is_empty());
}

#[test]
fn builders_append_in_order_and_touch_nothing_else() {
    let definition = AbilityDefinition::new(TagId(5))
        .required(&[TagId(10), TagId(11)])
        .blocked_by(&[TagId(20)])
        .canceled_by(&[TagId(30), TagId(31), TagId(32)])
        .adds_tags(&[TagId(40)])
        .required(&[TagId(12)])
        .adds_tags(&[TagId(41)])
        .blocked_by(&[])
        .with_stat_cost(StatCost { stat: 2, amount: 7 })
        .with_item_cost(ItemCost { item_id: 9, amount: 1 })
        .with_stat_cost(StatCost { stat: 0, amount: 4_000_000_000 })
        .with_item_cost(ItemCost { item_id: 8, amount: 255 });
    assert_eq!(definition.tags.ability, TagId(5));
    assert_eq!(tags_of(&definition.tags.required.0), vec![10, 11, 12]);
    assert_eq!(tags_of(&definition.tags.blocked_by.0), vec![20]);
    assert_eq!(tags_of(&definition.tags.canceled_by.0), vec![30, 31, 32]);
    assert_eq!(tags_of(&definition.tags.add.0), vec![40, 41]);
    assert_eq!(
        definition.costs.stat_costs.as_slice(),
        &[StatCost { stat: 2, amount: 7 }, StatCost { stat: 0, amount: 4_000_000_000 }]
    );
    assert_eq!(
        definition.costs.item_costs.as_slice(),
        &[ItemCost { item_id: 9, amount: 1 }, ItemCost { item_id: 8, amount: 255 }]
    );
    assert!(definition.execution_tree.is_none());
}

#[test]
fn tag_lists_fill_to_their_capacity() {
    let definition = AbilityDefinition::new(TagId(1))
        .required(&[TagId(1), TagId(2), TagId(3), TagId(4)])
        .blocked_by(&[TagId(1), TagId(2), TagId(3), TagId(4)])
        .canceled_by(&[TagId(1), TagId(2), TagId(3), TagId(4)])
        .adds_tags(&[TagId(1), TagId(2)]);
    assert_eq!(definition.tags.required.0.len(), 4);
    assert_eq!(definition.tags.blocked_by.0.len(), 4);
    assert_eq!(definition.tags.canceled_by.0.len(), 4);
    assert_eq!(definition.tags.add.0.len(), 2);
}

#[test]
fn execution_tree_is_kept_and_copied() {
    let definition = AbilityDefinition::new(TagId(5)).with_execution_tree(small_tree());
    let tree = definition.execution_tree.as_ref().unwrap();
    assert_eq!(tree.nodes().count(), 2);
    assert!(matches!(tree.root().value(), Behave::Fallback));

    let copy = definition.clone();
    let copied = copy.execution_tree.as_ref().unwrap();
    assert_eq!(copied.nodes().count(), 2);
    assert!(matches!(copied.root().value(), Behave::Fallback));
    assert!(matches!(copied.root().first_child().unwrap().value(), Behave::AlwaysFail));
    assert_eq!(definition.execution_tree.as_ref().unwrap().nodes().count(), 2);
}

#[test]
fn cloned_definition_agrees_and_is_independent() {
    let definition = AbilityDefinition::new(TagId(5))
        .required(&[TagId(1)])
        .with_stat_cost(StatCost { stat: 0, amount: 25 })
        .with_item_cost(ItemCost { item_id: 1, amount: 1 });
    let copy = definition.clone().with_stat_cost(StatCost { stat: 1, amount: 1 });
    assert_eq!(copy.tags.ability, TagId(5));
    assert_eq!(tags_of(&copy.tags.required.0), vec![1]);
    assert_eq!(copy.costs.stat_costs.as_slice().len(), 2);
    assert_eq!(copy.costs.item_costs.as_slice(), &[ItemCost { item_id: 1, amount: 1 }]);
    assert_eq!(definition.costs.stat_costs.as_slice(), &[StatCost { stat: 0, amount: 25 }]);
}

#[test]
fn runtime_ability_copies_its_definition() {
    let definition = AbilityDefinition::new(TagId(5))
        .blocked_by(&[TagId(6)])
        .adds_tags(&[TagId(6)])
        .with_stat_cost(StatCost { stat: 0, amount: 25 })
        .with_execution_tree(small_tree());
    let ability = Ability::from(&definition);
    assert_eq!(ability.tags.ability, TagId(5));
    assert_eq!(tags_of(&ability.tags.blocked_by.0), vec![6]);
    assert_eq!(tags_of(&ability.tags.add.0), vec![6]);
    assert_eq!(ability.costs.stat_costs.as_slice(), &[StatCost { stat: 0, amount: 25 }]);
    assert!(ability.costs.item_costs.as_slice().is_empty());
    assert_eq!(ability.execution_tree.as_ref().unwrap().nodes().count(), 2);
    assert_eq!(ability.tree_entity, None);

    let mut running = ability.clone();
    running.tree_entity = Some(Entity::from_raw(3));
    let copy = running.clone();
    assert_eq!(copy.tree_entity, Some(Entity::from_raw(3)));
    assert_eq!(copy.tags.ability, TagId(5));
    assert_eq!(copy.execution_tree.as_ref().unwrap().nodes().count(), 2);
    assert_eq!(ability.tree_entity, None);
    let through_into: Ability = (&definition).into();
    assert_eq!(through_into.tags.ability, TagId(5));
}

#[test]
fn cost_lists_hold_what_was_pushed() {
    let mut stats = StatCostList::new();
    assert!(stats.as_slice().is_empty());
    stats.push(StatCost { stat: 1, amount: 2 });
    stats.push(StatCost { stat: 3, amount: 4 });
    let copy = stats.clone();
    stats.push(StatCost { stat: 5, amount: 6 });
    assert_eq!(copy.as_slice(), &[StatCost { stat: 1, amount: 2 }, StatCost { stat: 3, amount: 4 }]);
    assert_eq!(stats.as_slice().len(), 3);
    assert_eq!(stats.as_slice()[2], StatCost { stat: 5, amount: 6 });

    let mut items = ItemCostList::new();
    assert!(items.as_slice().is_empty());
    items.push(ItemCost { item_id: 1, amount: 2 });
    items.push(ItemCost { item_id: 3, amount: 4 });
    let copy = items.clone();
    items.push(ItemCost { item_id: 5, amount: 6 });
    assert_eq!(
        copy.as_slice(),
        &[ItemCost { item_id: 1, amount: 2 }, ItemCost { item_id: 3, amount: 4 }]
    );
    assert_eq!(items.as_slice().len(), 3);
    assert_eq!(items.as_slice()[2], ItemCost { item_id: 5, amount: 6 });
}

#[test]
fn ability_cost_starts_free() {
    let costs = AbilityCost::new();
    assert!(costs.stat_costs.as_slice().is_empty());
    assert!(costs.item_costs.as_slice().is_empty());
    let mut costs = AbilityCost::default();
    costs.item_costs.push(ItemCost { item_id: 1, amount: 1 });
    let copy = costs.clone();
    assert_eq!(copy.item_costs.as_slice(), &[ItemCost { item_id: 1, amount: 1 }]);
    assert!(copy.stat_costs.as_slice().is_empty());
}

#[test]
fn inventory_maps_items_to_counts() {
    let mut items = AbilityItems::new();
    assert_eq!(items.get(1), None);
    assert_eq!(items.insert(1, 5), None);
    assert_eq!(items.insert(2, 0), None);
    assert_eq!(items.get(1), Some(5));
    assert_eq!(items.get(2), Some(0));
    assert_eq!(items.get(3), None);
    assert_eq!(items.insert(1, 4), Some(5));
    assert_eq!(items.get(1), Some(4));
    assert_eq!(items.get(2), Some(0));
    assert_eq!(AbilityItems::default().get(1), None);
}

#[test]
fn registry_keeps_the_last_definition_under_a_tag() {
    let mut registry = AbilityRegistry::new();
    assert!(registry.get(TagId(1)).is_none());
    let first = AbilityDefinition::new(TagId(1)).adds_tags(&[TagId(10)]);
    assert!(registry.insert(TagId(1), first).is_none());
    assert!(registry.insert(TagId(2), AbilityDefinition::new(TagId(2))).is_none());
    assert_eq!(tags_of(&registry.get(TagId(1)).unwrap().tags.add.0), vec![10]);
    assert_eq!(registry.get(TagId(2)).unwrap().tags.ability, TagId(2));
    assert!(registry.get(TagId(3)).is_none());

    let second = AbilityDefinition::new(TagId(1)).adds_tags(&[TagId(11)]);
    let replaced = registry.insert(TagId(1), second).unwrap();
    assert_eq!(tags_of(&replaced.tags.add.0), vec![10]);
    assert_eq!(tags_of(&registry.get(TagId(1)).unwrap().tags.add.0), vec![11]);
    assert_eq!(registry.get(TagId(2)).unwrap().tags.ability, TagId(2));
}

#[test]
fn plugin_registers_by_ability_tag() {
    let mut plugin = AbilitiesPlugin::new();
    assert!(plugin.abilities().get(TagId(7)).is_none());
    plugin.register(AbilityDefinition::new(TagId(7)).required(&[TagId(1)]));
    plugin.register(AbilityDefinition::new(TagId(8)));
    plugin.register(AbilityDefinition::new(TagId(7)).required(&[TagId(2)]));
    assert_eq!(tags_of(&plugin.abilities().get(TagId(7)).unwrap().tags.required.0), vec![2]);
    assert!(plugin.abilities().get(TagId(8)).is_some());
    assert!(plugin.abilities().get(TagId(9)).is_none());
}

#[test]
fn granting_resolves_known_tags_in_order() {
    let mut registry = AbilityRegistry::new();
    for id in [1u16, 2, 3] {
        registry.insert(TagId(id), AbilityDefinition::new(TagId(id)).adds_tags(&[TagId(100 + id)]));
    }
    let granted =
        GrantedAbilities::from_tags(&[TagId(3), TagId(9), TagId(1), TagId(3), TagId(8)], &registry);
    assert_eq!(granted.len(), 3);
    let ids: Vec<u16> = granted.as_slice().iter().map(|d| d.tags.ability.0).collect();
    assert_eq!(ids, vec![3, 1, 3]);
    assert!(granted.contains(TagId(1)));
    assert!(granted.contains(TagId(3)));
    assert!(!granted.contains(TagId(2)));
    assert!(!granted.contains(TagId(9)));
    assert_eq!(tags_of(&granted.get_from_tag(TagId(1)).unwrap().tags.add.0), vec![101]);
    assert_eq!(granted.get_from_tag(TagId(3)).unwrap().tags.ability, TagId(3));
    assert!(granted.get_from_tag(TagId(2)).is_none());
    assert!(granted.get_from_tag(TagId(9)).is_none());
}

#[test]
fn granting_nothing_gives_an_empty_list() {
    let registry = AbilityRegistry::new();
    let granted = GrantedAbilities::from_tags(&[TagId(1), TagId(2)], &registry);
    assert_eq!(granted.len(), 0);
    assert!(granted.get_from_tag(TagId(1)).is_none());
    let granted = GrantedAbilities::from_tags(&[], &registry);
    assert_eq!(granted.len(), 0);
    let granted = GrantedAbilities::new();
    assert_eq!(granted.len(), 0);
    assert!(granted.as_slice().is_empty());
    assert!(!granted.contains(TagId(1)));
}

#[test]
fn granting_fills_to_capacity() {
    assert_eq!(GRANTED_CAPACITY, 16);
    let mut registry = AbilityRegistry::new();
    let mut tags = Vec::new();
    for id in 0..16u16 {
        registry.insert(TagId(id), AbilityDefinition::new(TagId(id)));
        tags.push(TagId(id));
        tags.push(TagId(1000 + id));
    }
    let granted = GrantedAbilities::from_tags(&tags, &registry);
    assert_eq!(granted.len(), 16);
    assert_eq!(granted.as_slice()[15].tags.ability, TagId(15));
    assert!(granted.contains(TagId(15)));
    assert!(!granted.contains(TagId(1000)));
}

#[test]
fn first_granted_definition_wins() {
    let mut registry = AbilityRegistry::new();
    registry.insert(TagId(1), AbilityDefinition::new(TagId(2)).adds_tags(&[TagId(50)]));
    registry.insert(TagId(2), AbilityDefinition::new(TagId(2)).adds_tags(&[TagId(60)]));
    let granted = GrantedAbilities::from_tags(&[TagId(2), TagId(1)], &registry);
    assert_eq!(tags_of(&granted.get_from_tag(TagId(2)).unwrap().tags.add.0), vec![60]);
    let granted = GrantedAbilities::from_tags(&[TagId(1), TagId(2)], &registry);
    assert_eq!(tags_of(&granted.get_from_tag(TagId(2)).unwrap().tags.add.0), vec![50]);
    assert!(granted.get_from_tag(TagId(1)).is_none());
}

#[test]
fn slot_starts_empty() {
    assert!(CurrentAbility::new().0.is_none());
    assert!(CurrentAbility::default().0.is_none());
}

#[test]
fn cancel_request_names_entity_and_ability() {
    let cancel = CancelAbility { entity: Entity::from_raw(2), ability: TagId(4) };
    assert_eq!(cancel.entity, Entity::from_raw(2));
    assert_eq!(cancel.ability, TagId(4));
}

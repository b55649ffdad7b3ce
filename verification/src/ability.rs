//! Runtime abilities, the abilities granted to an entity, the activation test
//! and the transitions of the ability lifecycle.

use bevy::ecs::entity::Entity;
use bevy_behave::ego_tree::Tree;
use bevy_behave::Behave;
use vstd::prelude::*;
use vstd::std_specs::convert::FromSpecImpl;

use crate::ability_definition::{AbilityDefinition, AbilityDefinitionView};
use crate::costs::{AbilityCost, AbilityCostView, AbilityItems, ItemCost, StatCost};
use crate::events::{EndAbility, ExecuteAbility, TryExecuteAbility};
use crate::tag_set::{all_present, any_present, none_present, ActiveTags, TagId};
use crate::tags::{AbilityTags, AbilityTagsView};
use crate::trusted::{
    clone_tree, definition_entries, definitions_as_slice, definitions_new, definitions_push,
    DefinitionList,
};
use crate::AbilityRegistry;

verus! {

/// A runtime ability as plain values.
pub struct AbilityView {
    pub tags: AbilityTagsView,
    pub execution_tree: Option<Tree<Behave>>,
    pub costs: AbilityCostView,
    pub tree_entity: Option<Entity>,
}

impl AbilityView {
    /// The runtime ability that a definition gives: a copy of the definition
    /// that has no behaviour tree instance yet.
    pub open spec fn of_definition(definition: AbilityDefinitionView) -> AbilityView {
        AbilityView {
            tags: definition.tags,
            execution_tree: definition.execution_tree,
            costs: definition.costs,
            tree_entity: None,
        }
    }
}

/// One activation of an ability: a copy of its definition and, once the
/// ability runs, the entity that holds the instance of its behaviour tree.
/// `tree_entity` is filled in when the activation is admitted; a request
/// leaves it empty.
pub struct Ability {
    pub tags: AbilityTags,
    pub execution_tree: Option<Tree<Behave>>,
    pub costs: AbilityCost,
    pub tree_entity: Option<Entity>,
}

impl View for Ability {
    type V = AbilityView;

    open spec fn view(&self) -> AbilityView {
        AbilityView {
            tags: self.tags@,
            execution_tree: self.execution_tree,
            costs: self.costs@,
            tree_entity: self.tree_entity,
        }
    }
}

impl Clone for Ability {
    fn clone(&self) -> (copy: Self)
        ensures
            copy@ == self@,
    {
        let execution_tree = match &self.execution_tree {
            Some(tree) => Some(clone_tree(tree)),
            None => None,
        };
        Ability {
            tags: self.tags,
            execution_tree,
            costs: self.costs.clone(),
            tree_entity: self.tree_entity,
        }
    }
}

impl<'a> From<&'a AbilityDefinition> for Ability {
    /// The runtime ability for one activation of `value`.
    fn from(value: &'a AbilityDefinition) -> (ability: Self)
        ensures
            ability@ == AbilityView::of_definition(value@),
    {
        let execution_tree = match &value.execution_tree {
            Some(tree) => Some(clone_tree(tree)),
            None => None,
        };
        Ability {
            tags: value.tags,
            costs: value.costs.clone(),
            execution_tree,
            tree_entity: None,
        }
    }
}

impl<'a> FromSpecImpl<&'a AbilityDefinition> for Ability {
    /// The copy agrees with the definition in its view, which is what the
    /// contract of `from` states; the two need not be the same value.
    open spec fn obeys_from_spec() -> bool {
        false
    }

    open spec fn from_spec(value: &'a AbilityDefinition) -> Ability {
        arbitrary()
    }
}

/// The ability that an entity is executing, if any. An entity executes at
/// most one ability at a time.
pub struct CurrentAbility(pub Option<Ability>);

impl View for CurrentAbility {
    type V = Option<AbilityView>;

    open spec fn view(&self) -> Option<AbilityView> {
        match self.0 {
            Some(ability) => Some(ability@),
            None => None,
        }
    }
}

impl CurrentAbility {
    /// The empty slot.
    pub fn new() -> (current: Self)
        ensures
            current@ is None,
    {
        CurrentAbility(None)
    }
}

impl Default for CurrentAbility {
    fn default() -> (current: Self)
        ensures
            current@ is None,
    {
        CurrentAbility(None)
    }
}

/// The definitions that `tags` name in `registry`, in the order of `tags`.
/// A tag that the registry does not know contributes nothing.
pub open spec fn resolve(tags: Seq<TagId>, registry: Map<TagId, AbilityDefinitionView>) -> Seq<
    AbilityDefinitionView,
>
    decreases tags.len(),
{
    if tags.len() == 0 {
        Seq::empty()
    } else {
        let earlier = resolve(tags.drop_last(), registry);
        if registry.contains_key(tags.last()) {
            earlier.push(registry[tags.last()])
        } else {
            earlier
        }
    }
}

/// A prefix of a tag list resolves to no more definitions than the whole.
proof fn lemma_resolve_prefix(
    tags: Seq<TagId>,
    registry: Map<TagId, AbilityDefinitionView>,
    n: int,
)
    requires
        0 <= n <= tags.len(),
    ensures
        resolve(tags.take(n), registry).len() <= resolve(tags, registry).len(),
    decreases tags.len() - n,
{
    if n == tags.len() {
        assert(tags.take(n) =~= tags);
    } else {
        assert(tags.take(n + 1).drop_last() =~= tags.take(n));
        lemma_resolve_prefix(tags, registry, n + 1);
    }
}

/// Whether `granted` holds a definition of the ability that `tag` identifies.
pub open spec fn granted_contains(granted: Seq<AbilityDefinitionView>, tag: TagId) -> bool {
    exists|i: int| 0 <= i < granted.len() && (#[trigger] granted[i]).tags.ability == tag
}

/// The most definitions one entity can be granted.
pub const GRANTED_CAPACITY: usize = 16;

/// This component stores a list of ability definitions the entity is allowed
/// to execute. It holds at most [`GRANTED_CAPACITY`] of them.
pub struct GrantedAbilities {
    list: DefinitionList,
}

impl View for GrantedAbilities {
    type V = Seq<AbilityDefinitionView>;

    closed spec fn view(&self) -> Seq<AbilityDefinitionView> {
        definition_entries(self.list).map_values(|definition: AbilityDefinition| definition@)
    }
}

impl GrantedAbilities {
    #[verifier::type_invariant]
    spec fn within_capacity(self) -> bool {
        definition_entries(self.list).len() <= GRANTED_CAPACITY
    }

    /// No abilities.
    pub fn new() -> (granted: Self)
        ensures
            granted@ == Seq::<AbilityDefinitionView>::empty(),
    {
        let granted = GrantedAbilities { list: definitions_new() };
        assert(granted@ =~= Seq::<AbilityDefinitionView>::empty());
        granted
    }

    /// Grants a copy of each definition that `tags` name in `registry`, in
    /// the order of `tags`. Tags that the registry does not know are passed
    /// over.
    pub fn from_tags(tags: &[TagId], registry: &AbilityRegistry) -> (granted: Self)
        requires
            resolve(tags@, registry@).len() <= GRANTED_CAPACITY,
        ensures
            granted@ == resolve(tags@, registry@),
    {
        let n: usize = tags.len();
        let mut list = definitions_new();
        let mut i: usize = 0;
        while i < n
            invariant
                i <= n,
                n == tags@.len(),
                resolve(tags@, registry@).len() <= GRANTED_CAPACITY,
                definition_entries(list).map_values(|definition: AbilityDefinition| definition@)
                    == resolve(tags@.take(i as int), registry@),
            decreases n - i,
        {
            proof {
                lemma_resolve_prefix(tags@, registry@, i as int);
                lemma_resolve_prefix(tags@, registry@, i as int + 1);
                assert(tags@.take(i as int + 1).drop_last() =~= tags@.take(i as int));
            }
            let ghost before = definition_entries(list);
            if let Some(definition) = registry.get(tags[i]) {
                let copy = definition.clone();
                definitions_push(&mut list, copy);
                assert(definition_entries(list).map_values(
                    |definition: AbilityDefinition| definition@,
                ) =~= before.map_values(|definition: AbilityDefinition| definition@).push(copy@));
            }
            i += 1;
        }
        assert(tags@.take(n as int) =~= tags@);
        GrantedAbilities { list }
    }

    /// The number of granted definitions.
    pub fn len(&self) -> (n: usize)
        ensures
            n == self@.len(),
            n <= GRANTED_CAPACITY,
    {
        proof {
            use_type_invariant(self);
        }
        definitions_as_slice(&self.list).len()
    }

    /// The granted definitions, in order.
    pub fn as_slice(&self) -> (entries: &[AbilityDefinition])
        ensures
            entries@.len() == self@.len(),
            forall|i: int| 0 <= i < entries@.len() ==> (#[trigger] entries@[i])@ == self@[i],
    {
        definitions_as_slice(&self.list)
    }

    /// Where the first definition of the ability identified by `tag` stands.
    fn position(&self, tag: TagId) -> (at: Option<usize>)
        ensures
            at is Some <==> granted_contains(self@, tag),
            at matches Some(i) ==> i < self@.len() && self@[i as int].tags.ability == tag
                && forall|j: int| 0 <= j < i ==> (#[trigger] self@[j]).tags.ability != tag,
    {
        let entries = self.as_slice();
        let n: usize = entries.len();
        let mut i: usize = 0;
        while i < n
            invariant
                i <= n,
                n == entries@.len(),
                n == self@.len(),
                forall|j: int| 0 <= j < n ==> (#[trigger] entries@[j])@ == self@[j],
                forall|j: int| 0 <= j < i ==> (#[trigger] self@[j]).tags.ability != tag,
            decreases n - i,
        {
            if entries[i].tags.ability == tag {
                assert(entries@[i as int]@ == self@[i as int]);
                return Some(i);
            }
            assert(entries@[i as int]@ == self@[i as int]);
            i += 1;
        }
        None
    }

    /// Whether the ability identified by `tag` has been granted.
    pub fn contains(&self, tag: TagId) -> (found: bool)
        ensures
            found == granted_contains(self@, tag),
    {
        self.position(tag).is_some()
    }

    /// A copy of the first granted definition of the ability identified by
    /// `tag`, if that ability has been granted.
    pub fn get_from_tag(&self, tag: TagId) -> (found: Option<AbilityDefinition>)
        ensures
            found is Some <==> granted_contains(self@, tag),
            found matches Some(definition) ==> exists|i: int|
                0 <= i < self@.len() && #[trigger] self@[i] == definition@
                    && definition@.tags.ability == tag && forall|j: int|
                    0 <= j < i ==> (#[trigger] self@[j]).tags.ability != tag,
    {
        match self.position(tag) {
            Some(index) => {
                let entries = self.as_slice();
                let copy = entries[index].clone();
                assert(entries@[index as int]@ == self@[index as int]);
                Some(copy)
            },
            None => None,
        }
    }
}

/// The tag conditions of activation: every required tag is active, and no
/// blocking or canceling tag is.
pub open spec fn tags_permit(tags: AbilityTagsView, active: Set<TagId>) -> bool {
    &&& all_present(tags.required, active)
    &&& none_present(tags.blocked_by, active)
    &&& none_present(tags.canceled_by, active)
}

/// Whether `values`, the current value of each stat by its position, cover
/// `cost`. A stat that `values` does not list covers nothing.
pub open spec fn stat_cost_met(cost: StatCost, values: Seq<u32>) -> bool {
    cost.stat < values.len() && values[cost.stat as int] >= cost.amount
}

/// Whether the stats of an entity cover `costs`. An entity without stats
/// covers only an empty list.
pub open spec fn stat_costs_met(costs: Seq<StatCost>, stats: Option<Seq<u32>>) -> bool {
    costs.len() > 0 ==> stats is Some && forall|i: int|
        0 <= i < costs.len() ==> stat_cost_met(#[trigger] costs[i], stats->0)
}

/// Whether `inventory` covers `cost`. An item that the inventory does not
/// list covers nothing.
pub open spec fn item_cost_met(cost: ItemCost, inventory: Map<u16, u16>) -> bool {
    inventory.contains_key(cost.item_id) && inventory[cost.item_id] >= cost.amount
}

/// Whether the inventory of an entity covers `costs`. An entity without an
/// inventory covers only an empty list.
pub open spec fn item_costs_met(costs: Seq<ItemCost>, items: Option<Map<u16, u16>>) -> bool {
    costs.len() > 0 ==> items is Some && forall|i: int|
        0 <= i < costs.len() ==> item_cost_met(#[trigger] costs[i], items->0)
}

/// Whether an entity can afford `costs`.
pub open spec fn costs_covered(
    costs: AbilityCostView,
    stats: Option<Seq<u32>>,
    items: Option<Map<u16, u16>>,
) -> bool {
    stat_costs_met(costs.stat_costs, stats) && item_costs_met(costs.item_costs, items)
}

/// The activation test: the ability has been granted, the active tags permit
/// it, and the entity can afford it.
pub open spec fn may_activate(
    ability: AbilityView,
    active: Set<TagId>,
    granted: Seq<AbilityDefinitionView>,
    stats: Option<Seq<u32>>,
    items: Option<Map<u16, u16>>,
) -> bool {
    &&& granted_contains(granted, ability.tags.ability)
    &&& tags_permit(ability.tags, active)
    &&& costs_covered(ability.costs, stats, items)
}

/// The stat values that the activation test is given, as a sequence.
pub open spec fn stat_values(stats: Option<&[u32]>) -> Option<Seq<u32>> {
    match stats {
        Some(values) => Some(values@),
        None => None,
    }
}

/// The inventory that the activation test is given, as a map.
pub open spec fn item_counts(items: Option<&AbilityItems>) -> Option<Map<u16, u16>> {
    match items {
        Some(inventory) => Some(inventory@),
        None => None,
    }
}

/// Whether the active tags permit an ability with `tags` to activate.
pub fn ability_tags_ok(tags: &AbilityTags, active_tags: &ActiveTags) -> (ok: bool)
    ensures
        ok == tags_permit(tags@, active_tags@),
{
    // Must have tags
    if !active_tags.all_match_from(&tags.required.0) {
        return false;
    }
    // Must NOT have tags
    active_tags.none_match_from(&tags.blocked_by.0) && active_tags.none_match_from(
        &tags.canceled_by.0,
    )
}

/// Whether an entity with the stat values `stats` and the inventory `items`
/// can afford `costs`. `stats` lists the current value of each stat by its
/// position; `None` stands for an entity that has no stats, or no inventory.
/// Nothing is deducted.
pub fn can_pay(costs: &AbilityCost, stats: Option<&[u32]>, items: Option<&AbilityItems>) -> (ok:
    bool)
    ensures
        ok == costs_covered(costs@, stat_values(stats), item_counts(items)),
{
    let mut can_pay = true;

    let stat_costs = costs.stat_costs.as_slice();
    if stat_costs.len() > 0 {
        let Some(values) = stats else {
            return false;
        };
        let n: usize = stat_costs.len();
        let mut i: usize = 0;
        while i < n
            invariant
                i <= n,
                n == stat_costs@.len(),
                can_pay == forall|j: int|
                    0 <= j < i ==> stat_cost_met(#[trigger] stat_costs@[j], values@),
            decreases n - i,
        {
            let cost = stat_costs[i];
            let at: usize = cost.stat as usize;
            if at >= values.len() || values[at] < cost.amount {
                can_pay = false;
            }
            i += 1;
        }
    }
    let ghost stats_met = stat_costs_met(costs@.stat_costs, stat_values(stats));
    assert(can_pay == stats_met);

    let item_costs = costs.item_costs.as_slice();
    if item_costs.len() > 0 {
        let Some(inventory) = items else {
            return false;
        };
        let n: usize = item_costs.len();
        let mut i: usize = 0;
        while i < n
            invariant
                i <= n,
                n == item_costs@.len(),
                item_costs@ == costs@.item_costs,
                item_counts(items) == Some(inventory@),
                stats_met == stat_costs_met(costs@.stat_costs, stat_values(stats)),
                can_pay == (stats_met && forall|j: int|
                    0 <= j < i ==> item_cost_met(#[trigger] item_costs@[j], inventory@)),
            decreases n - i,
        {
            let cost = item_costs[i];
            let Some(in_stock) = inventory.get(cost.item_id) else {
                assert(!item_cost_met(item_costs@[i as int], inventory@));
                return false;
            };
            if in_stock < cost.amount as u16 {
                assert(!item_cost_met(item_costs@[i as int], inventory@));
                can_pay = false;
            }
            i += 1;
        }
    }
    can_pay
}

/// The activation test. An ability may activate when it has been granted to
/// the entity, the active tags permit it, and the entity can afford its
/// costs. The test reads the entity's state and changes none of it.
pub fn can_activate(
    ability: &Ability,
    active_tags: &ActiveTags,
    granted: &GrantedAbilities,
    stats: Option<&[u32]>,
    items: Option<&AbilityItems>,
) -> (ok: bool)
    ensures
        ok == may_activate(
            ability@,
            active_tags@,
            granted@,
            stat_values(stats),
            item_counts(items),
        ),
{
    if !granted.contains(ability.tags.ability) {
        return false;
    }
    if !ability_tags_ok(&ability.tags, active_tags) {
        return false;
    }
    can_pay(&ability.costs, stats, items)
}

/// Whether `started` is the runtime ability that admitting `request` yields,
/// apart from which entity holds the tree instance: the same tags, costs and
/// behaviour tree, with a tree instance exactly if there is a tree to
/// instantiate. Without a tree, `tree_entity` stays as the request had it.
pub open spec fn admits_as(request: AbilityView, started: AbilityView) -> bool {
    &&& started.tags == request.tags
    &&& started.costs == request.costs
    &&& started.execution_tree == request.execution_tree
    &&& request.execution_tree is Some ==> started.tree_entity is Some
    &&& request.execution_tree is None ==> started.tree_entity == request.tree_entity
}

/// The active tags of an entity once `ability` has started: those it had
/// and those the ability adds.
pub open spec fn tags_after_start(active: Set<TagId>, ability: AbilityView) -> Set<TagId> {
    active.union(ability.tags.add.to_set())
}

/// Whether a request to end `ability` concerns what an entity is executing:
/// the slot holds the ability that the request identifies.
pub open spec fn end_applies(slot: Option<AbilityView>, ability: AbilityView) -> bool {
    slot is Some && slot->0.tags.ability == ability.tags.ability
}

/// The slot of an entity once a request to end `ability` has been handled.
pub open spec fn slot_after_end(slot: Option<AbilityView>, ability: AbilityView) -> Option<
    AbilityView,
> {
    if end_applies(slot, ability) {
        None
    } else {
        slot
    }
}

/// The active tags of an entity once a request to end `ability` has been
/// handled: without the tags that the running ability had added.
pub open spec fn tags_after_end(
    active: Set<TagId>,
    slot: Option<AbilityView>,
    ability: AbilityView,
) -> Set<TagId> {
    if end_applies(slot, ability) {
        active.difference(slot->0.tags.add.to_set())
    } else {
        active
    }
}

/// The tree instance that handling a request to end `ability` gives up: the
/// one that the running ability held.
pub open spec fn released_by_end(slot: Option<AbilityView>, ability: AbilityView) -> Option<
    Entity,
> {
    if end_applies(slot, ability) {
        slot->0.tree_entity
    } else {
        None
    }
}

/// Whether an entity's running ability is due to be canceled: the slot holds
/// an ability and one of its canceling tags is active.
pub open spec fn cancel_due(slot: Option<AbilityView>, active: Set<TagId>) -> bool {
    slot is Some && any_present(slot->0.tags.canceled_by, active)
}

/// The tags of `tags[..n + 1]` are those of `tags[..n]` and `tags[n]`.
proof fn lemma_take_to_set(tags: Seq<TagId>, n: int)
    requires
        0 <= n < tags.len(),
    ensures
        tags.take(n + 1).to_set() == tags.take(n).to_set().insert(tags[n]),
{
    let longer = tags.take(n + 1);
    let shorter = tags.take(n);
    assert forall|tag: TagId| longer.to_set().contains(tag) == shorter.to_set().insert(
        tags[n],
    ).contains(tag) by {
        if longer.contains(tag) {
            let j = choose|j: int| 0 <= j < longer.len() && longer[j] == tag;
            if j < n {
                assert(shorter[j] == tag);
            }
        }
        if shorter.contains(tag) {
            let j = choose|j: int| 0 <= j < shorter.len() && shorter[j] == tag;
            assert(longer[j] == tag);
        }
        if tag == tags[n] {
            assert(longer[n] == tag);
        }
    }
    assert(longer.to_set() =~= shorter.to_set().insert(tags[n]));
}

/// Handles a request to start an ability. The request is admitted exactly
/// when the activation test lets it pass. An admitted request yields the
/// notification that starts the ability: it carries a copy of the requested
/// ability, and if the ability has a behaviour tree, `instantiate` has been
/// called once, with a copy of that tree, and the entity it returned is
/// recorded as the tree instance. A request that is not admitted has no
/// effect, and `instantiate` is not called.
pub fn check_ability_constraints<F: FnOnce(Tree<Behave>) -> Entity>(
    event: &TryExecuteAbility,
    active_tags: &ActiveTags,
    granted: &GrantedAbilities,
    stats: Option<&[u32]>,
    items: Option<&AbilityItems>,
    instantiate: F,
) -> (admitted: Option<ExecuteAbility>)
    requires
        forall|tree: Tree<Behave>| call_requires(instantiate, (tree,)),
    ensures
        admitted is Some <==> may_activate(
            event.ability@,
            active_tags@,
            granted@,
            stat_values(stats),
            item_counts(items),
        ),
        admitted matches Some(start) ==> {
            &&& start.entity == event.entity
            &&& admits_as(event.ability@, start.ability@)
            &&& event.ability@.execution_tree matches Some(tree) ==> call_ensures(
                instantiate,
                (tree,),
                start.ability@.tree_entity->0,
            )
        },
{
    if !can_activate(&event.ability, active_tags, granted, stats, items) {
        return None;
    }
    let mut ability = event.ability.clone();
    if let Some(tree) = &ability.execution_tree {
        let instance = instantiate(clone_tree(tree));
        ability.tree_entity = Some(instance);
    }
    Some(ExecuteAbility { entity: event.entity, ability })
}

/// Starts an ability: puts the tags that the ability adds on the entity and
/// stores a copy of the ability in the entity's slot. An ability that the
/// slot held before is replaced.
pub fn execute_ability(
    event: &ExecuteAbility,
    active_tags: &mut ActiveTags,
    current: &mut CurrentAbility,
)
    ensures
        final(active_tags)@ == tags_after_start(old(active_tags)@, event.ability@),
        final(current)@ == Some(event.ability@),
{
    let added = event.ability.tags.add.0;
    let ghost before = active_tags@;
    let n: usize = added.len();
    let mut i: usize = 0;
    while i < n
        invariant
            i <= n,
            n == added@.len(),
            active_tags@ == before.union(added@.take(i as int).to_set()),
        decreases n - i,
    {
        proof {
            lemma_take_to_set(added@, i as int);
        }
        active_tags.push(added.get(i));
        i += 1;
        assert(active_tags@ =~= before.union(added@.take(i as int).to_set()));
    }
    assert(added@.take(n as int) =~= added@);
    current.0 = Some(event.ability.clone());
}

/// Handles a request to end an ability. If the entity's slot holds the
/// ability that the request identifies, the tags that the running ability
/// added are taken off the entity, the slot is emptied, and the tree
/// instance that the running ability held is returned for the caller to
/// despawn. Otherwise nothing changes and nothing is returned.
pub fn end_ability(
    event: &EndAbility,
    current: &mut CurrentAbility,
    active_tags: &mut ActiveTags,
) -> (released: Option<Entity>)
    ensures
        final(current)@ == slot_after_end(old(current)@, event.ability@),
        final(active_tags)@ == tags_after_end(old(active_tags)@, old(current)@, event.ability@),
        released == released_by_end(old(current)@, event.ability@),
{
    let (added, instance) = match &current.0 {
        Some(running) => {
            if running.tags.ability != event.ability.tags.ability {
                return None;
            }
            (running.tags.add.0, running.tree_entity)
        },
        None => {
            return None;
        },
    };
    let ghost before = active_tags@;
    let n: usize = added.len();
    let mut i: usize = 0;
    while i < n
        invariant
            i <= n,
            n == added@.len(),
            active_tags@ == before.difference(added@.take(i as int).to_set()),
        decreases n - i,
    {
        proof {
            lemma_take_to_set(added@, i as int);
        }
        active_tags.remove(added.get(i));
        i += 1;
        assert(active_tags@ =~= before.difference(added@.take(i as int).to_set()));
    }
    assert(added@.take(n as int) =~= added@);
    current.0 = None;
    instance
}

/// Looks at one entity on behalf of the cancellation watcher. If the entity
/// executes an ability and one of that ability's canceling tags is active,
/// the request to end that ability is returned.
pub fn check_ability_canceled(
    entity: Entity,
    active_tags: &ActiveTags,
    current: &CurrentAbility,
) -> (end: Option<EndAbility>)
    ensures
        end is Some <==> cancel_due(current@, active_tags@),
        end matches Some(request) ==> request.entity == entity && current@ == Some(
            request.ability@,
        ),
{
    if let Some(ability) = &current.0 {
        if ability.tags.canceled_by.0.any_match_from(active_tags) {
            return Some(EndAbility { entity, ability: ability.clone() });
        }
    }
    None
}

/// Asks an entity to start an ability, and starts it if the activation test
/// lets the request pass: the ability's tree, if it has one, is instantiated
/// through `instantiate`, the tags that the ability adds are put on the
/// entity, and the ability is stored in the entity's slot. The notification
/// of the start is returned. A request that the test turns down changes
/// nothing.
pub fn request_activate<F: FnOnce(Tree<Behave>) -> Entity>(
    event: &TryExecuteAbility,
    active_tags: &mut ActiveTags,
    current: &mut CurrentAbility,
    granted: &GrantedAbilities,
    stats: Option<&[u32]>,
    items: Option<&AbilityItems>,
    instantiate: F,
) -> (started: Option<ExecuteAbility>)
    requires
        forall|tree: Tree<Behave>| call_requires(instantiate, (tree,)),
    ensures
        started is Some <==> may_activate(
            event.ability@,
            old(active_tags)@,
            granted@,
            stat_values(stats),
            item_counts(items),
        ),
        started matches Some(start) ==> {
            &&& start.entity == event.entity
            &&& admits_as(event.ability@, start.ability@)
            &&& event.ability@.execution_tree matches Some(tree) ==> call_ensures(
                instantiate,
                (tree,),
                start.ability@.tree_entity->0,
            )
            &&& final(current)@ == Some(start.ability@)
            &&& final(active_tags)@ == tags_after_start(old(active_tags)@, event.ability@)
            &&& all_present(event.ability@.tags.add, final(active_tags)@)
        },
        started is None ==> final(current)@ == old(current)@ && final(active_tags)@ == old(
            active_tags,
        )@,
{
    let started = check_ability_constraints(event, active_tags, granted, stats, items, instantiate);
    if let Some(start) = &started {
        execute_ability(start, active_tags, current);
        assert forall|i: int| 0 <= i < event.ability@.tags.add.len() implies active_tags@.contains(
            #[trigger] event.ability@.tags.add[i],
        ) by {
            assert(event.ability@.tags.add.contains(event.ability@.tags.add[i]));
        }
    }
    started
}

} // verus!

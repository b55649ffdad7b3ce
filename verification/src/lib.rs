//! Gameplay abilities: definitions bound to tags and costs, the abilities an
//! entity has been granted, and the lifecycle of the one ability an entity
//! can run at a time.

use bevy::platform::collections::HashMap;
use vstd::prelude::*;

use crate::ability_definition::{AbilityDefinition, AbilityDefinitionView};
use crate::tag_set::TagId;
use crate::trusted::{registry_entries, registry_get, registry_insert, registry_new};

pub mod ability;
pub mod ability_definition;
pub mod costs;
pub mod events;
pub mod laws;
pub mod prelude;
pub mod tag_set;
pub mod tags;
pub mod trusted;

verus! {

/// Collects the ability definitions of a game before it starts.
pub struct AbilitiesPlugin {
    abilities: AbilityRegistry,
}

impl AbilitiesPlugin {
    /// A plugin without abilities.
    pub fn new() -> (plugin: Self)
        ensures
            plugin.abilities()@ == (Map::<TagId, AbilityDefinitionView>::empty()),
    {
        AbilitiesPlugin { abilities: AbilityRegistry::new() }
    }

    /// Registers `ability` under the tag that identifies it. A definition
    /// registered earlier under that tag is replaced.
    pub fn register(&mut self, ability: AbilityDefinition)
        ensures
            final(self).abilities()@ == old(self).abilities()@.insert(
                ability.tags.ability,
                ability@,
            ),
    {
        let tag = ability.tags.ability;
        self.abilities.insert(tag, ability);
    }

    /// The abilities registered so far.
    #[verifier::when_used_as_spec(spec_abilities)]
    pub fn abilities(&self) -> (registry: &AbilityRegistry)
        ensures
            registry == self.abilities(),
    {
        &self.abilities
    }

    pub closed spec fn spec_abilities(&self) -> &AbilityRegistry {
        &self.abilities
    }
}

/// The catalog of ability definitions, by the tag that identifies each.
pub struct AbilityRegistry {
    map: HashMap<u16, AbilityDefinition>,
}

impl View for AbilityRegistry {
    type V = Map<TagId, AbilityDefinitionView>;

    closed spec fn view(&self) -> Map<TagId, AbilityDefinitionView> {
        Map::new(
            |tag: TagId| registry_entries(self.map).contains_key(tag.0),
            |tag: TagId| registry_entries(self.map)[tag.0]@,
        )
    }
}

impl AbilityRegistry {
    /// An empty catalog.
    pub fn new() -> (registry: Self)
        ensures
            registry@ == (Map::<TagId, AbilityDefinitionView>::empty()),
    {
        let registry = AbilityRegistry { map: registry_new() };
        assert(registry@ =~= Map::<TagId, AbilityDefinitionView>::empty());
        registry
    }

    /// Stores `definition` under `tag`, and returns the definition that was
    /// stored there before.
    pub fn insert(&mut self, tag: TagId, definition: AbilityDefinition) -> (previous: Option<
        AbilityDefinition,
    >)
        ensures
            final(self)@ == old(self)@.insert(tag, definition@),
            previous is Some <==> old(self)@.contains_key(tag),
            previous matches Some(replaced) ==> replaced@ == old(self)@[tag],
    {
        let previous = registry_insert(&mut self.map, tag.0, definition);
        assert(self@ =~= old(self)@.insert(tag, definition@)) by {
            assert forall|other: TagId| #[trigger]
                self@.contains_key(other) == old(self)@.insert(tag, definition@).contains_key(
                    other,
                ) by {
                assert(other.0 == tag.0 <==> other == tag);
            }
            assert forall|other: TagId| #[trigger] self@.contains_key(other) implies self@[other]
                == old(self)@.insert(tag, definition@)[other] by {
                assert(other.0 == tag.0 <==> other == tag);
            }
        }
        previous
    }

    /// The definition stored under `tag`, if there is one.
    pub fn get(&self, tag: TagId) -> (found: Option<&AbilityDefinition>)
        ensures
            found is Some <==> self@.contains_key(tag),
            found matches Some(definition) ==> definition@ == self@[tag],
    {
        registry_get(&self.map, tag.0)
    }
}

} // verus!

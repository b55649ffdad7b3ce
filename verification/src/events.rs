//! The requests and notifications that drive the ability lifecycle.

use bevy::ecs::entity::Entity;
use vstd::prelude::*;

use crate::ability::Ability;
use crate::tag_set::TagId;

verus! {

/// Asks that `entity` start executing `ability`. The request is granted only
/// if the activation test lets it pass.
pub struct TryExecuteAbility {
    pub entity: Entity,
    pub ability: Ability,
}

/// Tells that `entity` has been admitted and starts executing `ability`.
pub struct ExecuteAbility {
    pub entity: Entity,
    pub ability: Ability,
}

/// Asks that `entity` stop executing `ability`.
pub struct EndAbility {
    pub entity: Entity,
    pub ability: Ability,
}

/// Names an ability of `entity` that is to be canceled, by the tag that
/// identifies it.
pub struct CancelAbility {
    pub entity: Entity,
    pub ability: TagId,
}

} // verus!

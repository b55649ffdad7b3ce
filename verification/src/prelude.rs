//! The items most callers need, in one place.

pub use crate::ability::{Ability, CurrentAbility, GrantedAbilities};
pub use crate::ability_definition::AbilityDefinition;
pub use crate::costs::{AbilityItems, ItemCost, StatCost};
pub use crate::events::{CancelAbility, EndAbility, ExecuteAbility, TryExecuteAbility};
pub use crate::tag_set::{ActiveTags, TagId, TagList};
pub use crate::tags::AbilityTags;
pub use crate::{AbilitiesPlugin, AbilityRegistry};

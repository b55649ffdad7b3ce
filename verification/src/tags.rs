//! The tags that decide whether one ability may start.

use vstd::prelude::*;

use crate::tag_set::{TagId, TagList};

verus! {

/// The ability that an entity is executing, by the tag that identifies it.
#[derive(Clone, Copy, Debug)]
pub struct CurrentAbility(pub Option<TagId>);

/// These tags are required to be present for an ability to activate.
#[derive(Clone, Copy, Debug)]
pub struct RequiredTags(pub TagList<4>);

/// These tags are forbidden from being present for an ability to activate.
#[derive(Clone, Copy, Debug)]
pub struct BlockingTags(pub TagList<4>);

/// These tags will cancel execution of an active ability.
#[derive(Clone, Copy, Debug)]
pub struct CancelTags(pub TagList<4>);

/// These tags are added to an entity when the ability executes.
#[derive(Clone, Copy, Debug)]
pub struct AbilityAddTags(pub TagList<2>);

impl View for RequiredTags {
    type V = Seq<TagId>;

    open spec fn view(&self) -> Seq<TagId> {
        self.0@
    }
}

impl View for BlockingTags {
    type V = Seq<TagId>;

    open spec fn view(&self) -> Seq<TagId> {
        self.0@
    }
}

impl View for CancelTags {
    type V = Seq<TagId>;

    open spec fn view(&self) -> Seq<TagId> {
        self.0@
    }
}

impl View for AbilityAddTags {
    type V = Seq<TagId>;

    open spec fn view(&self) -> Seq<TagId> {
        self.0@
    }
}

impl Default for RequiredTags {
    fn default() -> (tags: Self)
        ensures
            tags@ == Seq::<TagId>::empty(),
    {
        RequiredTags(TagList::new())
    }
}

impl Default for BlockingTags {
    fn default() -> (tags: Self)
        ensures
            tags@ == Seq::<TagId>::empty(),
    {
        BlockingTags(TagList::new())
    }
}

impl Default for CancelTags {
    fn default() -> (tags: Self)
        ensures
            tags@ == Seq::<TagId>::empty(),
    {
        CancelTags(TagList::new())
    }
}

impl Default for AbilityAddTags {
    fn default() -> (tags: Self)
        ensures
            tags@ == Seq::<TagId>::empty(),
    {
        AbilityAddTags(TagList::new())
    }
}

/// The tags of one ability as plain sequences.
pub struct AbilityTagsView {
    pub ability: TagId,
    pub required: Seq<TagId>,
    pub blocked_by: Seq<TagId>,
    pub canceled_by: Seq<TagId>,
    pub add: Seq<TagId>,
}

impl AbilityTagsView {
    /// The tags of an ability that is identified by `tag` and has every
    /// list empty.
    pub open spec fn bare(tag: TagId) -> AbilityTagsView {
        AbilityTagsView {
            ability: tag,
            required: Seq::empty(),
            blocked_by: Seq::empty(),
            canceled_by: Seq::empty(),
            add: Seq::empty(),
        }
    }
}

/// Per ability tags: the tag that identifies the ability, the tags that rule
/// its activation, and the tags it puts on the entity while it runs.
#[derive(Clone, Copy, Debug)]
pub struct AbilityTags {
    pub ability: TagId,
    pub required: RequiredTags,
    pub blocked_by: BlockingTags,
    pub canceled_by: CancelTags,
    pub add: AbilityAddTags,
}

impl View for AbilityTags {
    type V = AbilityTagsView;

    open spec fn view(&self) -> AbilityTagsView {
        AbilityTagsView {
            ability: self.ability,
            required: self.required@,
            blocked_by: self.blocked_by@,
            canceled_by: self.canceled_by@,
            add: self.add@,
        }
    }
}

impl AbilityTags {
    /// The tags of an ability identified by `tag`, with every list empty.
    pub fn new(tag: TagId) -> (tags: Self)
        ensures
            tags@ == AbilityTagsView::bare(tag),
    {
        AbilityTags {
            ability: tag,
            required: RequiredTags::default(),
            blocked_by: BlockingTags::default(),
            canceled_by: CancelTags::default(),
            add: AbilityAddTags::default(),
        }
    }
}

} // verus!

//! Tag identifiers, bounded tag lists and the set of tags active on an entity.
//!
//! A tag is present on an entity exactly when its identifier is a member of
//! the entity's [`ActiveTags`]; every query below is stated over that set.

use vstd::prelude::*;

verus! {

/// Identifier of a tag.
#[derive(Clone, Copy, PartialEq, Eq, Structural, Debug, Hash)]
pub struct TagId(pub u16);

/// An ordered list of at most `N` tags, stored inline.
#[derive(Clone, Copy, Debug)]
pub struct TagList<const N: usize> {
    slots: [TagId; N],
    len: usize,
}

impl<const N: usize> View for TagList<N> {
    type V = Seq<TagId>;

    closed spec fn view(&self) -> Seq<TagId> {
        self.slots@.take(self.len as int)
    }
}

impl<const N: usize> TagList<N> {
    #[verifier::type_invariant]
    spec fn within_capacity(self) -> bool {
        self.len <= N
    }

    /// The empty list.
    pub fn new() -> (list: Self)
        ensures
            list@ == Seq::<TagId>::empty(),
    {
        let list = TagList { slots: [TagId(0); N], len: 0 };
        assert(list@ =~= Seq::<TagId>::empty());
        list
    }

    /// Number of tags in the list; never more than `N`.
    pub fn len(&self) -> (n: usize)
        ensures
            n == self@.len(),
            n <= N,
    {
        proof {
            use_type_invariant(self);
        }
        self.len
    }

    /// The tag at position `i`.
    pub fn get(&self, i: usize) -> (tag: TagId)
        requires
            i < self@.len(),
        ensures
            tag == self@[i as int],
    {
        proof {
            use_type_invariant(self);
        }
        self.slots[i]
    }

    /// Appends `tag`. A list that already holds `N` tags cannot take another.
    pub fn push(&mut self, tag: TagId)
        requires
            old(self)@.len() < N,
        ensures
            final(self)@ == old(self)@.push(tag),
    {
        proof {
            use_type_invariant(&*self);
        }
        let at: usize = self.len;
        self.slots[at] = tag;
        self.len = at + 1;
        assert(self@ =~= old(self)@.push(tag));
    }

    /// Appends the tags of `more`, in order. The list must have room for all
    /// of them.
    pub fn extend(&mut self, more: &[TagId])
        requires
            old(self)@.len() + more@.len() <= N,
        ensures
            final(self)@ == old(self)@ + more@,
    {
        let n: usize = more.len();
        let mut i: usize = 0;
        while i < n
            invariant
                i <= n,
                n == more@.len(),
                old(self)@.len() + n <= N,
                self@ == old(self)@ + more@.take(i as int),
            decreases n - i,
        {
            self.push(more[i]);
            i += 1;
            assert(self@ =~= old(self)@ + more@.take(i as int));
        }
        assert(more@.take(n as int) =~= more@);
    }

    /// Whether `tag` occurs in the list.
    pub fn contains(&self, tag: TagId) -> (found: bool)
        ensures
            found == self@.contains(tag),
    {
        let n: usize = self.len();
        let mut i: usize = 0;
        while i < n
            invariant
                i <= n,
                n == self@.len(),
                forall|j: int| 0 <= j < i ==> self@[j] != tag,
            decreases n - i,
        {
            if self.get(i) == tag {
                return true;
            }
            i += 1;
        }
        false
    }

    /// Whether at least one tag of the list is active.
    pub fn any_match_from(&self, active: &ActiveTags) -> (hit: bool)
        ensures
            hit == any_present(self@, active@),
    {
        let n: usize = self.len();
        let mut i: usize = 0;
        while i < n
            invariant
                i <= n,
                n == self@.len(),
                forall|j: int| 0 <= j < i ==> !active@.contains(self@[j]),
            decreases n - i,
        {
            if active.contains(self.get(i)) {
                return true;
            }
            i += 1;
        }
        false
    }
}

impl<const N: usize> Default for TagList<N> {
    fn default() -> (list: Self)
        ensures
            list@ == Seq::<TagId>::empty(),
    {
        TagList::new()
    }
}

/// Every tag of `tags` is a member of `active`.
pub open spec fn all_present(tags: Seq<TagId>, active: Set<TagId>) -> bool {
    forall|i: int| 0 <= i < tags.len() ==> active.contains(#[trigger] tags[i])
}

/// At least one tag of `tags` is a member of `active`.
pub open spec fn any_present(tags: Seq<TagId>, active: Set<TagId>) -> bool {
    exists|i: int| 0 <= i < tags.len() && active.contains(#[trigger] tags[i])
}

/// No tag of `tags` is a member of `active`.
pub open spec fn none_present(tags: Seq<TagId>, active: Set<TagId>) -> bool {
    !any_present(tags, active)
}

/// The set of tags currently active on one entity.
#[derive(Debug)]
pub struct ActiveTags {
    tags: Vec<TagId>,
}

impl View for ActiveTags {
    type V = Set<TagId>;

    closed spec fn view(&self) -> Set<TagId> {
        self.tags@.to_set()
    }
}

impl ActiveTags {
    #[verifier::type_invariant]
    spec fn distinct(self) -> bool {
        self.tags@.no_duplicates()
    }

    /// The empty set.
    pub fn new() -> (active: Self)
        ensures
            active@ == Set::<TagId>::empty(),
    {
        let active = ActiveTags { tags: Vec::new() };
        assert(active@ =~= Set::<TagId>::empty());
        active
    }

    /// Whether `tag` is active.
    pub fn contains(&self, tag: TagId) -> (found: bool)
        ensures
            found == self@.contains(tag),
    {
        self.position(tag).is_some()
    }

    fn position(&self, tag: TagId) -> (at: Option<usize>)
        ensures
            at is Some <==> self@.contains(tag),
            at matches Some(i) ==> i < self.tags@.len() && self.tags@[i as int] == tag,
    {
        let n: usize = self.tags.len();
        let mut i: usize = 0;
        while i < n
            invariant
                i <= n,
                n == self.tags@.len(),
                forall|j: int| 0 <= j < i ==> self.tags@[j] != tag,
            decreases n - i,
        {
            if self.tags[i] == tag {
                return Some(i);
            }
            i += 1;
        }
        None
    }

    /// Makes `tag` active. Adding an active tag changes nothing.
    pub fn push(&mut self, tag: TagId)
        ensures
            final(self)@ == old(self)@.insert(tag),
    {
        proof {
            use_type_invariant(&*self);
        }
        if self.position(tag).is_none() {
            let mut tags: Vec<TagId> = Vec::new();
            std::mem::swap(&mut self.tags, &mut tags);
            tags.push(tag);
            self.tags = tags;
            assert(self.tags@.to_set() =~= old(self).tags@.to_set().insert(tag)) by {
                assert forall|t: TagId|
                    self.tags@.to_set().contains(t) == old(self).tags@.to_set().insert(
                        tag,
                    ).contains(t) by {
                    if self.tags@.contains(t) {
                        let j = choose|j: int| 0 <= j < self.tags@.len() && self.tags@[j] == t;
                        if j < old(self).tags@.len() {
                            assert(old(self).tags@[j] == t);
                        }
                    }
                    if old(self).tags@.contains(t) {
                        let j = choose|j: int|
                            0 <= j < old(self).tags@.len() && old(self).tags@[j] == t;
                        assert(self.tags@[j] == t);
                    }
                    if t == tag {
                        assert(self.tags@[old(self).tags@.len() as int] == t);
                    }
                }
            }
        } else {
            assert(self@ =~= old(self)@.insert(tag));
        }
    }

    /// Makes `tag` inactive. Removing an inactive tag changes nothing.
    pub fn remove(&mut self, tag: TagId)
        ensures
            final(self)@ == old(self)@.remove(tag),
    {
        proof {
            use_type_invariant(&*self);
        }
        match self.position(tag) {
            Some(at) => {
                let mut tags: Vec<TagId> = Vec::new();
                std::mem::swap(&mut self.tags, &mut tags);
                tags.remove(at);
                self.tags = tags;
                assert(self.tags@.to_set() =~= old(self).tags@.to_set().remove(tag)) by {
                    let before = old(self).tags@;
                    let after = self.tags@;
                    assert forall|t: TagId|
                        after.to_set().contains(t) == before.to_set().remove(tag).contains(
                            t,
                        ) by {
                        if after.contains(t) {
                            let j = choose|j: int| 0 <= j < after.len() && after[j] == t;
                            if j < at {
                                assert(before[j] == t);
                            } else {
                                assert(before[j + 1] == t);
                            }
                        }
                        if before.contains(t) && t != tag {
                            let j = choose|j: int| 0 <= j < before.len() && before[j] == t;
                            if j < at {
                                assert(after[j] == t);
                            } else {
                                assert(after[j - 1] == t);
                            }
                        }
                    }
                }
            },
            None => {
                assert(self@ =~= old(self)@.remove(tag));
            },
        }
    }

    /// Whether every tag of `tags` is active.
    pub fn all_match_from<const N: usize>(&self, tags: &TagList<N>) -> (ok: bool)
        ensures
            ok == all_present(tags@, self@),
    {
        let n: usize = tags.len();
        let mut i: usize = 0;
        while i < n
            invariant
                i <= n,
                n == tags@.len(),
                forall|j: int| 0 <= j < i ==> self@.contains(tags@[j]),
            decreases n - i,
        {
            if !self.contains(tags.get(i)) {
                return false;
            }
            i += 1;
        }
        true
    }

    /// Whether no tag of `tags` is active.
    pub fn none_match_from<const N: usize>(&self, tags: &TagList<N>) -> (ok: bool)
        ensures
            ok == none_present(tags@, self@),
    {
        !tags.any_match_from(self)
    }
}

impl Clone for ActiveTags {
    fn clone(&self) -> (copy: Self)
        ensures
            copy@ == self@,
    {
        proof {
            use_type_invariant(self);
        }
        let n: usize = self.tags.len();
        let mut tags: Vec<TagId> = Vec::new();
        let mut i: usize = 0;
        while i < n
            invariant
                i <= n,
                n == self.tags@.len(),
                tags@ == self.tags@.take(i as int),
            decreases n - i,
        {
            tags.push(self.tags[i]);
            i += 1;
            assert(tags@ =~= self.tags@.take(i as int));
        }
        assert(tags@ =~= self.tags@);
        ActiveTags { tags }
    }
}

impl Default for ActiveTags {
    fn default() -> (active: Self)
        ensures
            active@ == Set::<TagId>::empty(),
    {
        ActiveTags::new()
    }
}

} // verus!

//! An entity: an id, the components attached to it in the order they were
//! added, and the bind resources the renderer draws it with.
//!
//! Nothing stops two components of one kind from being attached. Lookups by
//! tag then see the first of them, and removal takes the first of them.

use vstd::prelude::*;
use crate::component::{Component, ComponentBase};
use crate::error::LookupError;
use crate::handle::BindGroupHandle;

verus! {

pub struct Entity {
    pub components: Vec<Component>,
    pub uniforms: Vec<BindGroupHandle>,
    pub id: usize,
}

/// An entity as specifications see it.
#[verifier::ext_equal]
pub struct EntityView {
    pub components: Seq<Component>,
    pub uniforms: Seq<BindGroupHandle>,
    pub id: usize,
}

impl View for Entity {
    type V = EntityView;

    open spec fn view(&self) -> EntityView {
        EntityView { components: self.components@, uniforms: self.uniforms@, id: self.id }
    }
}

/// Whether some component in the list carries `tag`.
pub open spec fn has_tag(components: Seq<Component>, tag: u32) -> bool {
    exists|i: int| 0 <= i < components.len() && #[trigger] components[i].tag() == tag
}

/// Whether `i` is the position of the first component that carries `tag`.
pub open spec fn is_first_match(components: Seq<Component>, tag: u32, i: int) -> bool {
    &&& 0 <= i < components.len()
    &&& components[i].tag() == tag
    &&& forall|j: int| 0 <= j < i ==> #[trigger] components[j].tag() != tag
}

/// The position of the first component that carries `tag`, or the length of
/// the list if none does.
pub open spec fn first_index(components: Seq<Component>, tag: u32) -> int {
    if has_tag(components, tag) {
        choose|i: int| is_first_match(components, tag, i)
    } else {
        components.len() as int
    }
}

/// How often `tag` occurs among the first `n` components.
pub open spec fn count_tag(components: Seq<Component>, tag: u32, n: int) -> nat
    decreases n,
{
    if n <= 0 {
        0
    } else if components[n - 1].tag() == tag {
        count_tag(components, tag, n - 1) + 1
    } else {
        count_tag(components, tag, n - 1)
    }
}

/// A position that satisfies `is_first_match` is the one `first_index`
/// names.
pub proof fn lemma_first_index_unique(components: Seq<Component>, tag: u32, i: int)
    requires
        is_first_match(components, tag, i),
    ensures
        has_tag(components, tag),
        first_index(components, tag) == i,
{
    let j = choose|j: int| is_first_match(components, tag, j);
    if j < i {
        assert(components[j].tag() != tag);
    }
    if i < j {
        assert(components[i].tag() != tag);
    }
}

/// `first_index` names a first match when the tag occurs, and the length
/// when it does not.
pub proof fn lemma_first_index(components: Seq<Component>, tag: u32)
    ensures
        has_tag(components, tag) ==> is_first_match(components, tag, first_index(components, tag)),
        !has_tag(components, tag) ==> first_index(components, tag) == components.len(),
        0 <= first_index(components, tag) <= components.len(),
{
    if has_tag(components, tag) {
        lemma_first_match_exists(components, tag, components.len() as int);
    }
}

proof fn lemma_first_match_exists(components: Seq<Component>, tag: u32, n: int)
    requires
        0 <= n <= components.len(),
        exists|i: int| 0 <= i < n && #[trigger] components[i].tag() == tag,
    ensures
        exists|i: int| is_first_match(components, tag, i) && i < n,
    decreases n,
{
    if exists|i: int| 0 <= i < n - 1 && #[trigger] components[i].tag() == tag {
        lemma_first_match_exists(components, tag, n - 1);
    } else {
        assert(components[n - 1].tag() == tag);
        assert(is_first_match(components, tag, n - 1));
    }
}

/// Replacing a component by one of the same kind changes no lookup by tag:
/// every tag occurs as before, and first occurs where it did.
pub proof fn lemma_update_same_tag(components: Seq<Component>, i: int, component: Component, tag: u32)
    requires
        0 <= i < components.len(),
        component.tag() == components[i].tag(),
    ensures
        has_tag(components.update(i, component), tag) == has_tag(components, tag),
        first_index(components.update(i, component), tag) == first_index(components, tag),
{
    let updated = components.update(i, component);
    assert forall|j: int| 0 <= j < components.len() implies #[trigger] updated[j].tag() == components[j].tag() by {}
    if has_tag(components, tag) {
        lemma_first_index(components, tag);
        let f = first_index(components, tag);
        assert(updated[f].tag() == tag);
        assert forall|j: int| 0 <= j < f implies #[trigger] updated[j].tag() != tag by {
            assert(components[j].tag() != tag);
        }
        lemma_first_index_unique(updated, tag, f);
    } else {
        if has_tag(updated, tag) {
            let j = choose|j: int| 0 <= j < updated.len() && #[trigger] updated[j].tag() == tag;
            assert(components[j].tag() == tag);
        }
    }
}

/// The payload of the first component of `T`'s kind, if that component
/// holds a `T`.
pub open spec fn payload<T: ComponentBase>(e: EntityView) -> Option<T> {
    if has_tag(e.components, T::type_tag()) {
        T::unwrap(e.components[first_index(e.components, T::type_tag())])
    } else {
        None
    }
}

/// The entity with `p` in place of the first component of `T`'s kind.
pub open spec fn with_payload<T: ComponentBase>(e: EntityView, p: T) -> EntityView {
    EntityView { components: e.components.update(first_index(e.components, T::type_tag()), p.wrap()), ..e }
}

impl Entity {
    pub fn new(components: Vec<Component>, id: usize) -> (e: Entity)
        ensures
            e@ == (EntityView { components: components@, uniforms: Seq::empty(), id }),
    {
        let uniforms: Vec<BindGroupHandle> = Vec::new();
        Entity { components, uniforms, id }
    }

    /// Attaches `component` after those already there.
    pub fn add_component(&mut self, component: Component)
        ensures
            final(self)@ == (EntityView { components: old(self)@.components.push(component), ..old(self)@ }),
    {
        self.components.push(component);
    }

    /// The position of the first component that carries `component_id`.
    pub fn get_index(&self, component_id: u32) -> (r: Result<usize, LookupError>)
        ensures
            match r {
                Ok(i) => has_tag(self@.components, component_id) && i == first_index(
                    self@.components,
                    component_id,
                ) && is_first_match(self@.components, component_id, i as int),
                Err(e) => !has_tag(self@.components, component_id) && e == LookupError::ComponentNotFound,
            },
    {
        let mut i: usize = 0;
        while i < self.components.len()
            invariant
                i <= self.components.len(),
                forall|j: int| 0 <= j < i ==> #[trigger] self.components@[j].tag() != component_id,
            decreases self.components.len() - i,
        {
            if self.components[i].get_id() == component_id {
                proof {
                    lemma_first_index_unique(self@.components, component_id, i as int);
                }
                return Ok(i);
            }
            i += 1;
        }
        Err(LookupError::ComponentNotFound)
    }

    /// Detaches the first component that carries `component_id`, and no
    /// other.
    pub fn try_remove_component(&mut self, component_id: u32) -> (r: Result<(), LookupError>)
        ensures
            match r {
                Ok(_) => has_tag(old(self)@.components, component_id) && final(self)@ == (EntityView {
                    components: old(self)@.components.remove(first_index(old(self)@.components, component_id)),
                    ..old(self)@
                }),
                Err(e) => !has_tag(old(self)@.components, component_id) && e == LookupError::ComponentNotFound
                    && final(self)@ == old(self)@,
            },
    {
        let index = match self.get_index(component_id) {
            Ok(v) => v,
            Err(e) => {
                return Err(e);
            },
        };
        self.components.remove(index);
        Ok(())
    }

    /// The first component that carries `component_id`.
    pub fn try_find_component(&self, component_id: u32) -> (r: Result<&Component, LookupError>)
        ensures
            match r {
                Ok(c) => has_tag(self@.components, component_id) && is_first_match(
                    self@.components,
                    component_id,
                    first_index(self@.components, component_id),
                ) && *c == self@.components[first_index(
                    self@.components,
                    component_id,
                )] && c.tag() == component_id,
                Err(e) => !has_tag(self@.components, component_id) && e == LookupError::ComponentNotFound,
            },
    {
        let index = match self.get_index(component_id) {
            Ok(v) => v,
            Err(e) => {
                return Err(e);
            },
        };
        Ok(&self.components[index])
    }

    /// Unique access to the first component that carries `component_id`.
    pub fn try_find_component_mut(&mut self, component_id: u32) -> (r: Result<&mut Component, LookupError>)
        ensures
            match r {
                Ok(c) => has_tag(old(self)@.components, component_id) && is_first_match(
                    old(self)@.components,
                    component_id,
                    first_index(old(self)@.components, component_id),
                ) && *c == old(self)@.components[first_index(
                    old(self)@.components,
                    component_id,
                )] && c.tag() == component_id && final(self)@ == (EntityView {
                    components: old(self)@.components.update(
                        first_index(old(self)@.components, component_id),
                        *final(c),
                    ),
                    ..old(self)@
                }),
                Err(e) => !has_tag(old(self)@.components, component_id) && e == LookupError::ComponentNotFound
                    && final(self)@ == old(self)@,
            },
    {
        let index = match self.get_index(component_id) {
            Ok(v) => v,
            Err(e) => {
                return Err(e);
            },
        };
        Ok(&mut self.components[index])
    }

    /// The payload of the first component that carries `component_id`, if
    /// that component is a `T`.
    pub fn get_component<T: ComponentBase>(&self, component_id: u32) -> (r: Result<&T, LookupError>)
        ensures
            match r {
                Ok(p) => has_tag(self@.components, component_id) && is_first_match(
                    self@.components,
                    component_id,
                    first_index(self@.components, component_id),
                ) && T::unwrap(
                    self@.components[first_index(self@.components, component_id)],
                ) == Some(*p) && self@.components[first_index(self@.components, component_id)] == (*p).wrap()
                    && T::type_tag() == component_id,
                Err(LookupError::ComponentNotFound) => !has_tag(self@.components, component_id),
                Err(LookupError::DowncastMismatch) => has_tag(self@.components, component_id) && T::unwrap(
                    self@.components[first_index(self@.components, component_id)],
                ) is None && T::type_tag() != component_id,
                Err(LookupError::EntityNotFound) => false,
            },
    {
        let component = match self.try_find_component(component_id) {
            Ok(c) => c,
            Err(e) => {
                return Err(e);
            },
        };
        match T::downcast_ref(component) {
            Some(r) => Ok(r),
            None => Err(LookupError::DowncastMismatch),
        }
    }

    /// Unique access to the payload of the first component that carries
    /// `component_id`, if that component is a `T`. On an error the entity is
    /// as it was.
    pub fn get_component_mut<T: ComponentBase>(&mut self, component_id: u32) -> (r: Result<&mut T, LookupError>)
        ensures
            match r {
                Ok(p) => has_tag(old(self)@.components, component_id) && is_first_match(
                    old(self)@.components,
                    component_id,
                    first_index(old(self)@.components, component_id),
                ) && T::unwrap(
                    old(self)@.components[first_index(old(self)@.components, component_id)],
                ) == Some(*p) && old(self)@.components[first_index(old(self)@.components, component_id)] == (*p).wrap()
                    && T::type_tag() == component_id && final(self)@ == (EntityView {
                    components: old(self)@.components.update(
                        first_index(old(self)@.components, component_id),
                        (*final(p)).wrap(),
                    ),
                    ..old(self)@
                }),
                Err(LookupError::ComponentNotFound) => !has_tag(old(self)@.components, component_id)
                    && final(self)@ == old(self)@,
                Err(LookupError::DowncastMismatch) => has_tag(old(self)@.components, component_id) && T::unwrap(
                    old(self)@.components[first_index(old(self)@.components, component_id)],
                ) is None && T::type_tag() != component_id && final(self)@ == old(self)@,
                Err(LookupError::EntityNotFound) => false,
            },
    {
        let index = match self.get_index(component_id) {
            Ok(v) => v,
            Err(e) => {
                return Err(e);
            },
        };
        let component = &mut self.components[index];
        match T::downcast_ref_mut(component) {
            Some(r) => Ok(r),
            None => Err(LookupError::DowncastMismatch),
        }
    }

    /// Adds `uniform` after the bind resources already there.
    pub fn add_new_uniform(&mut self, uniform: BindGroupHandle)
        ensures
            final(self)@ == (EntityView { uniforms: old(self)@.uniforms.push(uniform), ..old(self)@ }),
    {
        self.uniforms.push(uniform);
    }

    /// Replaces the whole list of bind resources.
    pub fn set_uniforms(&mut self, uniforms: Vec<BindGroupHandle>)
        ensures
            final(self)@ == (EntityView { uniforms: uniforms@, ..old(self)@ }),
    {
        self.uniforms = uniforms;
    }

    pub fn get_uniforms(&self) -> (uniforms: &Vec<BindGroupHandle>)
        ensures
            uniforms@ == self@.uniforms,
    {
        &self.uniforms
    }
}

/// Removing the first component with a tag takes exactly one component
/// with that tag away, and none with another tag.
pub proof fn lemma_remove_first_counts(components: Seq<Component>, tag: u32, other: u32)
    requires
        has_tag(components, tag),
    ensures
        ({
            let rest = components.remove(first_index(components, tag));
            &&& rest.len() == components.len() - 1
            &&& count_tag(rest, tag, rest.len() as int) == count_tag(components, tag, components.len() as int) - 1
            &&& other != tag ==> count_tag(rest, other, rest.len() as int) == count_tag(
                components,
                other,
                components.len() as int,
            )
            &&& forall|j: int| 0 <= j < first_index(components, tag) ==> rest[j] == components[j]
            &&& forall|j: int| first_index(components, tag) <= j < rest.len() ==> rest[j] == components[j + 1]
        }),
{
    lemma_first_index(components, tag);
    let f = first_index(components, tag);
    lemma_count_after_remove(components, f, tag, components.len() as int);
    lemma_count_after_remove(components, f, other, components.len() as int);
}

proof fn lemma_count_after_remove(components: Seq<Component>, f: int, tag: u32, n: int)
    requires
        0 <= f < components.len(),
        f < n <= components.len(),
    ensures
        count_tag(components.remove(f), tag, n - 1) + (if components[f].tag() == tag {
            1nat
        } else {
            0nat
        }) == count_tag(components, tag, n),
    decreases n,
{
    let rest = components.remove(f);
    if n > f + 1 {
        lemma_count_after_remove(components, f, tag, n - 1);
        assert(rest[n - 2] == components[n - 1]);
    } else {
        lemma_count_prefix(components, rest, tag, f);
    }
}

proof fn lemma_count_prefix(a: Seq<Component>, b: Seq<Component>, tag: u32, n: int)
    requires
        0 <= n <= a.len(),
        n <= b.len(),
        forall|j: int| 0 <= j < n ==> a[j] == b[j],
    ensures
        count_tag(a, tag, n) == count_tag(b, tag, n),
    decreases n,
{
    if n > 0 {
        lemma_count_prefix(a, b, tag, n - 1);
    }
}

} // verus!

//! The owner of all entities, and the queries over them.
//!
//! An entity gets the number of entities created before it as its id, so in
//! a manager that only `create_entity` has filled, the entity with id `i`
//! sits in slot `i`. Queries do not rest on that: they go by what is stored.
//! The laws in this file say what follows when the ids are in order.

use vstd::prelude::*;
use vstd::pervasive::unreached;
use std::collections::HashMap;
use crate::component::{Component, ComponentBase};
use crate::entity::{first_index, has_tag, Entity, EntityView};
use crate::error::LookupError;
use crate::handle::BindGroupHandle;

verus! {

pub struct EntityManager {
    pub entities: Vec<Entity>,
}

impl View for EntityManager {
    type V = Seq<EntityView>;

    open spec fn view(&self) -> Seq<EntityView> {
        self.entities@.map_values(|e: Entity| e@)
    }
}

/// Whether every entity's id is the slot it sits in.
pub open spec fn ids_in_order(entities: Seq<EntityView>) -> bool {
    forall|i: int| 0 <= i < entities.len() ==> (#[trigger] entities[i]).id == i
}

/// Whether some entity has the id.
pub open spec fn has_id(entities: Seq<EntityView>, id: usize) -> bool {
    exists|i: int| 0 <= i < entities.len() && (#[trigger] entities[i]).id == id
}

/// Whether `i` is the first slot whose entity has the id.
pub open spec fn is_first_slot(entities: Seq<EntityView>, id: usize, i: int) -> bool {
    &&& 0 <= i < entities.len()
    &&& entities[i].id == id
    &&& forall|j: int| 0 <= j < i ==> (#[trigger] entities[j]).id != id
}

/// The first slot whose entity has the id, or the number of slots if none
/// has.
pub open spec fn slot_of(entities: Seq<EntityView>, id: usize) -> int {
    if has_id(entities, id) {
        choose|i: int| is_first_slot(entities, id, i)
    } else {
        entities.len() as int
    }
}

/// Whether some entity with the id has a component that carries `tag`.
pub open spec fn id_has_tag(entities: Seq<EntityView>, id: usize, tag: u32) -> bool {
    exists|j: int|
        0 <= j < entities.len() && (#[trigger] entities[j]).id == id && has_tag(entities[j].components, tag)
}

/// Whether a query for `tags` keeps the id: there is a tag to ask for, and
/// for each tag asked for, an entity with the id that has it.
pub open spec fn keeps(entities: Seq<EntityView>, tags: Seq<u32>, id: usize) -> bool {
    tags.len() > 0 && forall|k: int| 0 <= k < tags.len() ==> id_has_tag(entities, id, #[trigger] tags[k])
}

/// For each slot, whether its entity has a component that carries `tag`.
pub open spec fn tag_mask(entities: Seq<EntityView>, tag: u32) -> Seq<bool> {
    Seq::new(entities.len(), |i: int| has_tag(entities[i].components, tag))
}

/// For each slot, whether a query for `tags` keeps the id of its entity.
pub open spec fn kept_mask(entities: Seq<EntityView>, tags: Seq<u32>) -> Seq<bool> {
    Seq::new(entities.len(), |i: int| keeps(entities, tags, entities[i].id))
}

/// The positions below `n` at which `mask` holds, in ascending order.
pub open spec fn selected(mask: Seq<bool>, n: int) -> Seq<int>
    decreases n,
{
    if n <= 0 {
        Seq::empty()
    } else if mask[n - 1] {
        selected(mask, n - 1).push(n - 1)
    } else {
        selected(mask, n - 1)
    }
}

/// The slots that a query for one tag returns, in order.
pub open spec fn slots_with_type(entities: Seq<EntityView>, tag: u32) -> Seq<int> {
    selected(tag_mask(entities, tag), entities.len() as int)
}

/// The slots that a query for several tags returns, in order.
pub open spec fn slots_with_types(entities: Seq<EntityView>, tags: Seq<u32>) -> Seq<int> {
    selected(kept_mask(entities, tags), entities.len() as int)
}

/// The entities in the given slots, in that order.
pub open spec fn gather(entities: Seq<EntityView>, slots: Seq<int>) -> Seq<EntityView> {
    Seq::new(slots.len(), |k: int| entities[slots[k]])
}

/// The test by which a query for one tag picks entities.
pub open spec fn tagged_with(tag: u32) -> spec_fn(EntityView) -> bool {
    |e: EntityView| has_tag(e.components, tag)
}

/// The test by which a query for several tags picks entities.
pub open spec fn kept_by(entities: Seq<EntityView>, tags: Seq<u32>) -> spec_fn(EntityView) -> bool {
    |e: EntityView| keeps(entities, tags, e.id)
}

/// Whether `found` holds the entities in the given slots, in that order.
pub open spec fn picks(found: Seq<&Entity>, entities: Seq<Entity>, slots: Seq<int>) -> bool {
    &&& found.len() == slots.len()
    &&& forall|k: int| 0 <= k < found.len() ==> *(#[trigger] found[k]) == entities[slots[k]]
}

/// `selected` lists exactly the positions at which the mask holds, each
/// once, in ascending order.
pub proof fn lemma_selected(mask: Seq<bool>, n: int)
    requires
        0 <= n <= mask.len(),
    ensures
        selected(mask, n).len() <= n,
        forall|k: int| 0 <= k < selected(mask, n).len() ==> 0 <= (#[trigger] selected(mask, n)[k]) < n && mask[selected(mask, n)[k]],
        forall|a: int, b: int| 0 <= a < b < selected(mask, n).len() ==> (#[trigger] selected(mask, n)[a]) < (#[trigger] selected(mask, n)[b]),
        forall|i: int| 0 <= i < n && mask[i] ==> selected(mask, n).contains(i),
    decreases n,
{
    if n > 0 {
        lemma_selected(mask, n - 1);
        let prev = selected(mask, n - 1);
        let cur = selected(mask, n);
        if mask[n - 1] {
            assert(cur[prev.len() as int] == n - 1);
            assert forall|i: int| 0 <= i < n && mask[i] implies cur.contains(i) by {
                if i < n - 1 {
                    let k = choose|k: int| 0 <= k < prev.len() && prev[k] == i;
                    assert(cur[k] == i);
                } else {
                    assert(cur[prev.len() as int] == i);
                }
            }
        }
    }
}

/// A position that satisfies `is_first_slot` is the one `slot_of` names.
pub proof fn lemma_slot_of_unique(entities: Seq<EntityView>, id: usize, i: int)
    requires
        is_first_slot(entities, id, i),
    ensures
        has_id(entities, id),
        slot_of(entities, id) == i,
{
    let j = choose|j: int| is_first_slot(entities, id, j);
    if j < i {
        assert(entities[j].id != id);
    }
    if i < j {
        assert(entities[i].id != id);
    }
}

/// With ids in order, an id that is in use names its own slot.
pub proof fn lemma_slot_of_in_order(entities: Seq<EntityView>, id: usize)
    requires
        ids_in_order(entities),
    ensures
        has_id(entities, id) <==> id < entities.len(),
        id < entities.len() ==> slot_of(entities, id) == id,
{
    if id < entities.len() {
        assert(entities[id as int].id == id);
        assert(is_first_slot(entities, id, id as int));
        lemma_slot_of_unique(entities, id, id as int);
    }
}

proof fn lemma_keeps_step(entities: Seq<EntityView>, tags: Seq<u32>, k: int, id: usize)
    requires
        0 <= k < tags.len(),
    ensures
        keeps(entities, tags.take(k + 1), id) <==> (if k == 0 {
            id_has_tag(entities, id, tags[0])
        } else {
            keeps(entities, tags.take(k), id) && id_has_tag(entities, id, tags[k])
        }),
{
    let shorter = tags.take(k);
    let longer = tags.take(k + 1);
    assert(longer[k] == tags[k]);
    if keeps(entities, longer, id) {
        assert(id_has_tag(entities, id, longer[k]));
        if k > 0 {
            assert forall|j: int| 0 <= j < shorter.len() implies id_has_tag(entities, id, #[trigger] shorter[j]) by {
                assert(shorter[j] == longer[j]);
            }
        } else {
            assert(longer[0] == tags[0]);
        }
    }
    if (k == 0 && id_has_tag(entities, id, tags[0])) || (k > 0 && keeps(entities, shorter, id) && id_has_tag(
        entities,
        id,
        tags[k],
    )) {
        assert forall|j: int| 0 <= j < longer.len() implies id_has_tag(entities, id, #[trigger] longer[j]) by {
            if j < k {
                assert(shorter[j] == longer[j]);
            }
        }
    }
}

proof fn lemma_found_ids(found: Seq<&Entity>, entities: Seq<Entity>, views: Seq<EntityView>, tag: u32, id: usize)
    requires
        views.len() == entities.len(),
        forall|i: int| 0 <= i < views.len() ==> #[trigger] views[i] == entities[i]@,
        picks(found, entities, slots_with_type(views, tag)),
    ensures
        (exists|t: int| 0 <= t < found.len() && (#[trigger] found[t]).id == id) <==> id_has_tag(views, id, tag),
{
    let mask = tag_mask(views, tag);
    let slots = slots_with_type(views, tag);
    lemma_selected(mask, views.len() as int);
    if exists|t: int| 0 <= t < found.len() && (#[trigger] found[t]).id == id {
        let t = choose|t: int| 0 <= t < found.len() && (#[trigger] found[t]).id == id;
        let j = slots[t];
        assert(mask[j]);
        assert(*found[t] == entities[j]);
        assert(views[j].id == id && has_tag(views[j].components, tag));
    }
    if id_has_tag(views, id, tag) {
        let j = choose|j: int|
            0 <= j < views.len() && (#[trigger] views[j]).id == id && has_tag(views[j].components, tag);
        assert(mask[j]);
        assert(slots.contains(j));
        let t = choose|t: int| 0 <= t < slots.len() && slots[t] == j;
        assert(*found[t] == entities[j]);
        assert(found[t].id == id);
    }
}

fn take_first<'a>(s: &'a mut [Entity]) -> (r: (&'a mut Entity, &'a mut [Entity]))
    requires
        old(s)@.len() > 0,
    ensures
        *r.0 == old(s)@[0],
        r.1@ == old(s)@.subrange(1, old(s)@.len() as int),
        final(s)@.len() == 1 + final(r.1)@.len(),
        final(s)@[0] == *final(r.0),
        forall|i: int| 0 <= i < final(r.1)@.len() ==> final(s)@[i + 1] == #[trigger] final(r.1)@[i],
{
    let (head, tail) = s.split_at_mut(1);
    match head.first_mut() {
        Some(e) => (e, tail),
        None => unreached(),
    }
}

fn select<'a>(entities: &'a Vec<Entity>, keep: &Vec<bool>) -> (found: Vec<&'a Entity>)
    requires
        keep@.len() == entities@.len(),
    ensures
        picks(found@, entities@, selected(keep@, entities@.len() as int)),
{
    let mut found: Vec<&Entity> = Vec::new();
    let mut i: usize = 0;
    while i < entities.len()
        invariant
            i <= entities.len(),
            keep@.len() == entities@.len(),
            picks(found@, entities@, selected(keep@, i as int)),
        decreases entities.len() - i,
    {
        if keep[i] {
            found.push(&entities[i]);
        }
        i += 1;
    }
    found
}

fn select_mut<'a>(entities: &'a mut Vec<Entity>, keep: &Vec<bool>) -> (found: Vec<&'a mut Entity>)
    requires
        keep@.len() == old(entities)@.len(),
    ensures
        found@.len() == selected(keep@, keep@.len() as int).len(),
        forall|k: int| 0 <= k < found@.len() ==> *found@[k] == old(entities)@[#[trigger] selected(keep@, keep@.len() as int)[k]],
        final(entities)@.len() == old(entities)@.len(),
        forall|k: int| 0 <= k < found@.len() ==> final(entities)@[#[trigger] selected(keep@, keep@.len() as int)[k]] == *final(found@[k]),
        forall|i: int| 0 <= i < keep@.len() && !keep@[i] ==> #[trigger] final(entities)@[i] == old(entities)@[i],
{
    let ghost full = entities@;
    let n = entities.len();
    let mut rest: &mut [Entity] = entities.as_mut_slice();
    let mut found: Vec<&mut Entity> = Vec::new();
    let mut done: usize = 0;
    while done < n
        invariant
            full.len() == n,
            keep@.len() == n,
            done + rest@.len() == n,
            rest@ == full.subrange(done as int, n as int),
            found@.len() == selected(keep@, done as int).len(),
            forall|k: int| 0 <= k < found@.len() ==> *found@[k] == full[#[trigger] selected(keep@, done as int)[k]],
            forall|k: int| 0 <= k < found@.len() ==> 0 <= #[trigger] selected(keep@, done as int)[k] < done,
            after_borrow(*entities)@.len() == done + final(rest)@.len(),
            forall|i: int| 0 <= i < final(rest)@.len() ==> after_borrow(*entities)@[done + i] == #[trigger] final(rest)@[i],
            forall|k: int| 0 <= k < found@.len() ==> after_borrow(*entities)@[#[trigger] selected(keep@, done as int)[k]] == *final(found@[k]),
            forall|i: int| 0 <= i < done && !keep@[i] ==> #[trigger] after_borrow(*entities)@[i] == full[i],
        decreases n - done,
    {
        let ghost before = selected(keep@, done as int);
        let (e, tail) = take_first(rest);
        if keep[done] {
            found.push(e);
            assert(selected(keep@, done as int + 1) == before.push(done as int));
        } else {
            assert(selected(keep@, done as int + 1) == before);
        }
        rest = tail;
        done = done + 1;
    }
    found
}

impl EntityManager {
    /// Whether every entity's id is the slot it sits in.
    pub open spec fn wf(&self) -> bool {
        ids_in_order(self@)
    }

    pub fn new() -> (m: EntityManager)
        ensures
            m@.len() == 0,
            m.wf(),
    {
        EntityManager { entities: Vec::new() }
    }

    /// Whether every entity's id is the slot it sits in.
    pub fn ids_are_in_order(&self) -> (b: bool)
        ensures
            b == self.wf(),
    {
        let mut i: usize = 0;
        while i < self.entities.len()
            invariant
                i <= self@.len(),
                forall|j: int| 0 <= j < i ==> (#[trigger] self@[j]).id == j,
            decreases self@.len() - i,
        {
            if self.entities[i].id != i {
                assert(self@[i as int].id != i);
                return false;
            }
            i += 1;
        }
        true
    }

    /// Stores a new entity with the given components and bind resources,
    /// and returns its id: the number of entities stored before.
    pub fn create_entity(&mut self, components: Vec<Component>, uniforms: Vec<BindGroupHandle>) -> (id: usize)
        ensures
            id == old(self)@.len(),
            final(self)@ == old(self)@.push(EntityView { components: components@, uniforms: uniforms@, id }),
            old(self).wf() ==> final(self).wf(),
    {
        let id = self.entities.len();
        let mut entity = Entity::new(components, id);
        entity.set_uniforms(uniforms);
        self.entities.push(entity);
        assert(self@ =~= old(self)@.push(EntityView { components: components@, uniforms: uniforms@, id }));
        id
    }

    /// The first slot whose entity has the id.
    pub fn find_entity(&self, id: usize) -> (r: Result<usize, LookupError>)
        ensures
            match r {
                Ok(slot) => has_id(self@, id) && slot == slot_of(self@, id) && is_first_slot(self@, id, slot as int),
                Err(e) => !has_id(self@, id) && e == LookupError::EntityNotFound,
            },
    {
        let mut i: usize = 0;
        while i < self.entities.len()
            invariant
                i <= self.entities.len(),
                forall|j: int| 0 <= j < i ==> (#[trigger] self@[j]).id != id,
            decreases self.entities.len() - i,
        {
            if self.entities[i].id == id {
                proof {
                    lemma_slot_of_unique(self@, id, i as int);
                }
                return Ok(i);
            }
            i += 1;
        }
        Err(LookupError::EntityNotFound)
    }

    /// Unique access to the payload of the first component with the tag on
    /// the entity in the given slot, if that component is a `T`. On an
    /// error nothing has changed.
    pub fn get_component_data<T: ComponentBase>(&mut self, entity: usize, component_id: u32) -> (r: Result<
        &mut T,
        LookupError,
    >)
        ensures
            match r {
                Ok(p) => {
                    let before = old(self)@[entity as int].components;
                    &&& entity < old(self)@.len()
                    &&& has_tag(before, component_id)
                    &&& T::unwrap(before[first_index(before, component_id)]) == Some(*p)
                    &&& T::type_tag() == component_id
                    &&& final(self)@ == old(self)@.update(
                        entity as int,
                        EntityView {
                            components: before.update(first_index(before, component_id), (*final(p)).wrap()),
                            ..old(self)@[entity as int]
                        },
                    )
                },
                Err(LookupError::EntityNotFound) => entity >= old(self)@.len() && final(self)@ == old(self)@,
                Err(LookupError::ComponentNotFound) => {
                    &&& entity < old(self)@.len()
                    &&& !has_tag(old(self)@[entity as int].components, component_id)
                    &&& final(self)@ == old(self)@
                },
                Err(LookupError::DowncastMismatch) => {
                    let before = old(self)@[entity as int].components;
                    &&& entity < old(self)@.len()
                    &&& has_tag(before, component_id)
                    &&& T::unwrap(before[first_index(before, component_id)]) is None
                    &&& T::type_tag() != component_id
                    &&& final(self)@ == old(self)@
                },
            },
    {
        if entity >= self.entities.len() {
            return Err(LookupError::EntityNotFound);
        }
        let slot = &mut self.entities[entity];
        slot.get_component_mut::<T>(component_id)
    }

    /// Attaches `component` to the entity with the given id, and gives
    /// unique access to the payload of the first component of its kind on
    /// that entity, if that component is a `T`. With an unknown id nothing
    /// changes. A mismatch leaves the component attached.
    pub fn add_component_data<T: ComponentBase>(&mut self, entity_id: &usize, component: Component) -> (r: Result<
        &mut T,
        LookupError,
    >)
        ensures
            match r {
                Ok(p) => {
                    let slot = slot_of(old(self)@, *entity_id);
                    let grown = old(self)@[slot].components.push(component);
                    &&& has_id(old(self)@, *entity_id)
                    &&& T::unwrap(grown[first_index(grown, component.tag())]) == Some(*p)
                    &&& T::type_tag() == component.tag()
                    &&& final(self)@ == old(self)@.update(
                        slot,
                        EntityView {
                            components: grown.update(first_index(grown, component.tag()), (*final(p)).wrap()),
                            ..old(self)@[slot]
                        },
                    )
                },
                Err(LookupError::EntityNotFound) => !has_id(old(self)@, *entity_id) && final(self)@ == old(self)@,
                Err(LookupError::DowncastMismatch) => {
                    let slot = slot_of(old(self)@, *entity_id);
                    let grown = old(self)@[slot].components.push(component);
                    &&& has_id(old(self)@, *entity_id)
                    &&& T::unwrap(grown[first_index(grown, component.tag())]) is None
                    &&& T::type_tag() != component.tag()
                    &&& final(self)@ == old(self)@.update(slot, EntityView { components: grown, ..old(self)@[slot] })
                },
                Err(LookupError::ComponentNotFound) => false,
            },
    {
        let slot = match self.find_entity(*entity_id) {
            Ok(slot) => slot,
            Err(e) => {
                return Err(e);
            },
        };
        let component_id = component.get_id();
        let entity = &mut self.entities[slot];
        entity.add_component(component);
        assert(entity@.components[entity@.components.len() - 1].tag() == component_id);
        entity.get_component_mut::<T>(component_id)
    }

    /// Detaches from `entity` the first component that carries
    /// `component_id`.
    pub fn remove_component_data(&mut self, entity: &mut Entity, component_id: u32)
        requires
            has_tag(old(entity)@.components, component_id),
        ensures
            final(self)@ == old(self)@,
            final(entity)@ == (EntityView {
                components: old(entity)@.components.remove(first_index(old(entity)@.components, component_id)),
                ..old(entity)@
            }),
    {
        match entity.try_remove_component(component_id) {
            Ok(_) => {},
            Err(_) => {},
        }
    }

    /// Whether the entity in each slot has a component with the tag.
    fn type_mask(&self, id: u32) -> (mask: Vec<bool>)
        ensures
            mask@ == tag_mask(self@, id),
    {
        let mut mask: Vec<bool> = Vec::new();
        let mut i: usize = 0;
        while i < self.entities.len()
            invariant
                i <= self.entities.len(),
                mask@.len() == i,
                forall|j: int| 0 <= j < i ==> mask@[j] == has_tag(self@[j].components, id),
            decreases self.entities.len() - i,
        {
            mask.push(self.entities[i].try_find_component(id).is_ok());
            i += 1;
        }
        assert(mask@ =~= tag_mask(self@, id));
        mask
    }

    /// The ids that a query for `ids` keeps. The first tag seeds the set
    /// with the ids of the entities that have it, and each later tag drops
    /// the ids that no entity with that tag has.
    fn kept_ids(&self, ids: &[u32]) -> (kept: HashMap<usize, usize>)
        ensures
            forall|id: usize| (#[trigger] kept@.contains_key(id)) <==> keeps(self@, ids@, id),
    {
        let mut entities: HashMap<usize, usize> = HashMap::new();
        let mut loop_count: usize = 0;
        while loop_count < ids.len()
            invariant
                loop_count <= ids.len(),
                forall|id: usize| (#[trigger] entities@.contains_key(id)) <==> keeps(self@, ids@.take(loop_count as int), id),
            decreases ids.len() - loop_count,
        {
            let tag = ids[loop_count];
            let entities_to_add = self.get_entities_with_type(tag);
            let mut contained_entities: HashMap<usize, usize> = HashMap::new();
            let ghost seed = entities@;
            let mut j: usize = 0;
            while j < entities_to_add.len()
                invariant
                    j <= entities_to_add.len(),
                    loop_count == 0 ==> forall|id: usize|
                        (#[trigger] entities@.contains_key(id)) <==> exists|t: int|
                            0 <= t < j && (#[trigger] entities_to_add@[t]).id == id,
                    loop_count != 0 ==> entities@ == seed,
                    loop_count != 0 ==> forall|id: usize|
                        (#[trigger] contained_entities@.contains_key(id)) <==> seed.contains_key(id) && exists|t: int|
                            0 <= t < j && (#[trigger] entities_to_add@[t]).id == id,
                decreases entities_to_add.len() - j,
            {
                let entity = entities_to_add[j];
                let ghost contained_before = contained_entities@;
                if loop_count == 0 {
                    entities.insert(entity.id, 0);
                } else {
                    if entities.contains_key(&entity.id) {
                        contained_entities.insert(entity.id, 0);
                    }
                }
                proof {
                    assert(entities_to_add@[j as int].id == entity.id);
                    if loop_count != 0 {
                        assert forall|id: usize|
                            (#[trigger] contained_entities@.contains_key(id)) <==> seed.contains_key(id) && exists|t: int|
                                0 <= t < j + 1 && (#[trigger] entities_to_add@[t]).id == id by {
                            if id == entity.id {
                                assert(contained_entities@.contains_key(id) == seed.contains_key(id));
                            } else {
                                assert(contained_entities@.contains_key(id) == contained_before.contains_key(id));
                                if exists|t: int| 0 <= t < j + 1 && (#[trigger] entities_to_add@[t]).id == id {
                                    let t = choose|t: int| 0 <= t < j + 1 && (#[trigger] entities_to_add@[t]).id == id;
                                    assert(t < j);
                                }
                            }
                        }
                    }
                }
                j += 1;
            }
            if loop_count != 0 {
                entities = contained_entities;
            }
            proof {
                assert forall|id: usize| (#[trigger] entities@.contains_key(id)) <==> keeps(
                    self@,
                    ids@.take(loop_count as int + 1),
                    id,
                ) by {
                    lemma_found_ids(entities_to_add@, self.entities@, self@, tag, id);
                    lemma_keeps_step(self@, ids@, loop_count as int, id);
                }
            }
            loop_count += 1;
        }
        assert(ids@.take(ids@.len() as int) =~= ids@);
        entities
    }

    /// Whether a query for `ids` keeps the id of the entity in each slot.
    fn types_mask(&self, ids: &[u32]) -> (mask: Vec<bool>)
        ensures
            mask@ == kept_mask(self@, ids@),
    {
        let kept = self.kept_ids(ids);
        let mut mask: Vec<bool> = Vec::new();
        let mut i: usize = 0;
        while i < self.entities.len()
            invariant
                i <= self.entities.len(),
                mask@.len() == i,
                forall|id: usize| (#[trigger] kept@.contains_key(id)) <==> keeps(self@, ids@, id),
                forall|j: int| 0 <= j < i ==> mask@[j] == keeps(self@, ids@, self@[j].id),
            decreases self.entities.len() - i,
        {
            mask.push(kept.contains_key(&self.entities[i].id));
            i += 1;
        }
        assert(mask@ =~= kept_mask(self@, ids@));
        mask
    }

    /// The entities that have a component with the tag, in slot order.
    pub fn get_entities_with_type(&self, id: u32) -> (found: Vec<&Entity>)
        ensures
            picks(found@, self.entities@, slots_with_type(self@, id)),
    {
        let mask = self.type_mask(id);
        select(&self.entities, &mask)
    }

    /// Unique access to the entities that have a component with the tag, in
    /// slot order. What is done to them is done to the entities in the
    /// manager; the others stay as they are.
    pub fn get_entities_with_type_mut(&mut self, id: u32) -> (found: Vec<&mut Entity>)
        ensures
            found@.len() == slots_with_type(old(self)@, id).len(),
            forall|k: int| 0 <= k < found@.len() ==> *found@[k] == old(self).entities@[#[trigger] slots_with_type(old(self)@, id)[k]],
            final(self).entities@.len() == old(self).entities@.len(),
            forall|k: int| 0 <= k < found@.len() ==> final(self).entities@[#[trigger] slots_with_type(old(self)@, id)[k]] == *final(found@[k]),
            forall|i: int| 0 <= i < old(self)@.len() && !tag_mask(old(self)@, id)[i] ==> #[trigger] final(self).entities@[i] == old(self).entities@[i],
    {
        let mask = self.type_mask(id);
        select_mut(&mut self.entities, &mask)
    }

    /// The entities whose id a query for `ids` keeps, in slot order. With
    /// no tag to ask for, none.
    pub fn get_entities_with_types(&self, ids: &[u32]) -> (found: Vec<&Entity>)
        ensures
            picks(found@, self.entities@, slots_with_types(self@, ids@)),
            ids@.len() == 0 ==> found@.len() == 0,
    {
        let mask = self.types_mask(ids);
        proof {
            lemma_selected(mask@, mask@.len() as int);
            if ids@.len() == 0 && selected(mask@, mask@.len() as int).len() > 0 {
                assert(mask@[selected(mask@, mask@.len() as int)[0]]);
            }
        }
        select(&self.entities, &mask)
    }

    /// Unique access to the entities whose id a query for `ids` keeps, in
    /// slot order. What is done to them is done to the entities in the
    /// manager; the others stay as they are.
    pub fn get_entities_with_types_mut(&mut self, ids: &[u32]) -> (found: Vec<&mut Entity>)
        ensures
            found@.len() == slots_with_types(old(self)@, ids@).len(),
            ids@.len() == 0 ==> found@.len() == 0,
            forall|k: int| 0 <= k < found@.len() ==> *found@[k] == old(self).entities@[#[trigger] slots_with_types(old(self)@, ids@)[k]],
            final(self).entities@.len() == old(self).entities@.len(),
            forall|k: int| 0 <= k < found@.len() ==> final(self).entities@[#[trigger] slots_with_types(old(self)@, ids@)[k]] == *final(found@[k]),
            forall|i: int| 0 <= i < old(self)@.len() && !kept_mask(old(self)@, ids@)[i] ==> #[trigger] final(self).entities@[i] == old(self).entities@[i],
    {
        let mask = self.types_mask(ids);
        proof {
            lemma_selected(mask@, mask@.len() as int);
            if ids@.len() == 0 && selected(mask@, mask@.len() as int).len() > 0 {
                assert(mask@[selected(mask@, mask@.len() as int)[0]]);
            }
        }
        select_mut(&mut self.entities, &mask)
    }
}

/// With ids in order, an entity's id has a tag exactly when the entity
/// itself has it.
pub proof fn lemma_id_has_tag_in_order(entities: Seq<EntityView>, i: int, tag: u32)
    requires
        ids_in_order(entities),
        0 <= i < entities.len(),
    ensures
        id_has_tag(entities, entities[i].id, tag) <==> has_tag(entities[i].components, tag),
{
    if id_has_tag(entities, entities[i].id, tag) {
        let j = choose|j: int|
            0 <= j < entities.len() && (#[trigger] entities[j]).id == entities[i].id && has_tag(
                entities[j].components,
                tag,
            );
        assert(j == i);
    }
    if has_tag(entities[i].components, tag) {
        assert(entities[i].id == entities[i].id);
    }
}

/// The intersection law. With ids in order and at least one tag asked for,
/// a query for several tags returns a slot exactly when, for each of the
/// tags, the query for that one tag returns the slot.
pub proof fn lemma_query_is_intersection(entities: Seq<EntityView>, tags: Seq<u32>)
    requires
        ids_in_order(entities),
        tags.len() > 0,
    ensures
        forall|i: int|
            0 <= i < entities.len() ==> (#[trigger] slots_with_types(entities, tags).contains(i) <==> forall|k: int|
                0 <= k < tags.len() ==> slots_with_type(entities, #[trigger] tags[k]).contains(i)),
{
    let n = entities.len() as int;
    lemma_selected(kept_mask(entities, tags), n);
    assert forall|i: int| 0 <= i < n implies (#[trigger] slots_with_types(entities, tags).contains(i) <==> forall|k: int|
        0 <= k < tags.len() ==> slots_with_type(entities, #[trigger] tags[k]).contains(i)) by {
        assert forall|k: int| 0 <= k < tags.len() implies (slots_with_type(entities, #[trigger] tags[k]).contains(i)
            <==> id_has_tag(entities, entities[i].id, tags[k])) by {
            let mask = tag_mask(entities, tags[k]);
            let slots = slots_with_type(entities, tags[k]);
            lemma_selected(mask, n);
            lemma_id_has_tag_in_order(entities, i, tags[k]);
            assert(mask[i] == has_tag(entities[i].components, tags[k]));
            if slots.contains(i) {
                let t = choose|t: int| 0 <= t < slots.len() && slots[t] == i;
                assert(mask[slots[t]]);
            }
        }
        if slots_with_types(entities, tags).contains(i) {
            let slots = slots_with_types(entities, tags);
            let t = choose|t: int| 0 <= t < slots.len() && slots[t] == i;
            assert(kept_mask(entities, tags)[slots[t]]);
            assert(kept_mask(entities, tags)[i]);
        }
        if forall|k: int| 0 <= k < tags.len() ==> slots_with_type(entities, #[trigger] tags[k]).contains(i) {
            assert(keeps(entities, tags, entities[i].id));
            assert(kept_mask(entities, tags)[i]);
        }
    }
}

/// A query for no tags returns nothing.
pub proof fn lemma_query_without_tags(entities: Seq<EntityView>)
    ensures
        slots_with_types(entities, Seq::<u32>::empty()).len() == 0,
{
    let mask = kept_mask(entities, Seq::<u32>::empty());
    lemma_selected(mask, entities.len() as int);
    if slots_with_types(entities, Seq::<u32>::empty()).len() > 0 {
        assert(mask[slots_with_types(entities, Seq::<u32>::empty())[0]]);
    }
}

/// A tag that no entity has empties every query that asks for it.
pub proof fn lemma_query_short_circuits(entities: Seq<EntityView>, tags: Seq<u32>, k: int)
    requires
        0 <= k < tags.len(),
        slots_with_type(entities, tags[k]).len() == 0,
    ensures
        slots_with_types(entities, tags).len() == 0,
{
    let n = entities.len() as int;
    let mask = kept_mask(entities, tags);
    lemma_selected(mask, n);
    lemma_selected(tag_mask(entities, tags[k]), n);
    if slots_with_types(entities, tags).len() > 0 {
        let i = slots_with_types(entities, tags)[0];
        assert(mask[i]);
        assert(id_has_tag(entities, entities[i].id, tags[k]));
        let j = choose|j: int|
            0 <= j < entities.len() && (#[trigger] entities[j]).id == entities[i].id && has_tag(
                entities[j].components,
                tags[k],
            );
        assert(tag_mask(entities, tags[k])[j]);
        assert(slots_with_type(entities, tags[k]).contains(j));
    }
}

/// After an entity has been created in a manager whose ids are in order,
/// its id is found, in the slot of the same number, and the entity there has
/// the components and bind resources it was created with, in their order.
pub proof fn lemma_created_is_found(
    before: Seq<EntityView>,
    components: Seq<Component>,
    uniforms: Seq<BindGroupHandle>,
    id: usize,
)
    requires
        ids_in_order(before),
        id == before.len(),
    ensures
        ({
            let after = before.push(EntityView { components, uniforms, id });
            &&& ids_in_order(after)
            &&& has_id(after, id)
            &&& slot_of(after, id) == id
            &&& after[slot_of(after, id)].components == components
            &&& after[slot_of(after, id)].uniforms == uniforms
            &&& forall|other: usize| other < before.len() ==> slot_of(after, other) == slot_of(before, other)
        }),
{
    let after = before.push(EntityView { components, uniforms, id });
    assert(ids_in_order(after));
    lemma_slot_of_in_order(after, id);
    assert forall|other: usize| other < before.len() implies slot_of(after, other) == slot_of(before, other) by {
        lemma_slot_of_in_order(after, other);
        lemma_slot_of_in_order(before, other);
    }
}

proof fn lemma_selected_filters(entities: Seq<EntityView>, mask: Seq<bool>, test: spec_fn(EntityView) -> bool, n: int)
    requires
        0 <= n <= entities.len(),
        mask.len() == entities.len(),
        forall|i: int| 0 <= i < entities.len() ==> #[trigger] mask[i] == test(entities[i]),
    ensures
        gather(entities, selected(mask, n)) == entities.take(n).filter(test),
    decreases n,
{
    reveal(Seq::filter);
    if n > 0 {
        lemma_selected_filters(entities, mask, test, n - 1);
        lemma_selected(mask, n - 1);
        assert(entities.take(n).drop_last() =~= entities.take(n - 1));
        assert(entities.take(n).last() == entities[n - 1]);
        assert(mask[n - 1] == test(entities[n - 1]));
        if mask[n - 1] {
            assert(gather(entities, selected(mask, n)) =~= gather(entities, selected(mask, n - 1)).push(
                entities[n - 1],
            ));
        }
    } else {
        assert(gather(entities, selected(mask, n)) =~= entities.take(n).filter(test));
    }
}

/// A query for one tag filters the list of entities: it returns, in their
/// order, the entities that have a component with the tag.
pub proof fn lemma_type_query_is_filter(entities: Seq<EntityView>, tag: u32)
    ensures
        gather(entities, slots_with_type(entities, tag)) == entities.filter(tagged_with(tag)),
{
    lemma_selected_filters(entities, tag_mask(entities, tag), tagged_with(tag), entities.len() as int);
    assert(entities.take(entities.len() as int) =~= entities);
}

/// A query for several tags filters the list of entities: it returns, in
/// their order, the entities whose id the query keeps.
pub proof fn lemma_query_is_filter(entities: Seq<EntityView>, tags: Seq<u32>)
    ensures
        gather(entities, slots_with_types(entities, tags)) == entities.filter(kept_by(entities, tags)),
{
    lemma_selected_filters(entities, kept_mask(entities, tags), kept_by(entities, tags), entities.len() as int);
    assert(entities.take(entities.len() as int) =~= entities);
}

} // verus!

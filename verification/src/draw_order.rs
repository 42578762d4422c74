//! The order in which a pipeline draws its entities.
//!
//! A pipeline draws the entities whose mesh has a material of its shader.
//! Meshes with a higher sort value are drawn earlier; among meshes of equal
//! sort value, the entity in the lower slot is drawn earlier.

use vstd::prelude::*;
use crate::entity::{payload, EntityView};
use crate::entity_manager::EntityManager;
use crate::handle::ShaderHandle;
use crate::render_mesh::{RenderMesh, RENDER_MESH_ID};

verus! {

/// Whether the entity is drawn by the pipeline of `shader`.
pub open spec fn drawn_with(e: EntityView, shader: ShaderHandle) -> bool {
    match payload::<RenderMesh>(e) {
        Some(mesh) => mesh.material.shader == shader,
        None => false,
    }
}

/// The sort value of the entity's mesh; zero for an entity without one.
pub open spec fn sort_of(e: EntityView) -> int {
    match payload::<RenderMesh>(e) {
        Some(mesh) => mesh.material.sort as int,
        None => 0,
    }
}

/// Whether the entity in slot `a` is drawn before the entity in slot `b`.
pub open spec fn draws_before(entities: Seq<EntityView>, a: int, b: int) -> bool {
    sort_of(entities[a]) > sort_of(entities[b]) || (sort_of(entities[a]) == sort_of(entities[b]) && a < b)
}

/// Whether `order` lists, in drawing order, the slots among the first `n`
/// whose entity is drawn by the pipeline of `shader`.
pub open spec fn is_draw_order(entities: Seq<EntityView>, shader: ShaderHandle, order: Seq<usize>, n: int) -> bool {
    &&& forall|k: int| 0 <= k < order.len() ==> (#[trigger] order[k]) < n && drawn_with(entities[order[k] as int], shader)
    &&& forall|i: int| 0 <= i < n && drawn_with(#[trigger] entities[i], shader) ==> order.contains(i as usize)
    &&& forall|a: int, b: int|
        0 <= a < b < order.len() ==> draws_before(entities, (#[trigger] order[a]) as int, (#[trigger] order[b]) as int)
}

/// There is one drawing order only.
pub proof fn lemma_draw_order_unique(
    entities: Seq<EntityView>,
    shader: ShaderHandle,
    first: Seq<usize>,
    second: Seq<usize>,
)
    requires
        is_draw_order(entities, shader, first, entities.len() as int),
        is_draw_order(entities, shader, second, entities.len() as int),
    ensures
        first == second,
{
    lemma_prefixes_agree(entities, shader, first, second, first.len() as int);
    lemma_prefixes_agree(entities, shader, second, first, second.len() as int);
    if first.len() < second.len() {
        let slot = second[first.len() as int];
        assert(first.contains(slot));
        let k = choose|k: int| 0 <= k < first.len() && first[k] == slot;
        assert(second[k] == slot);
        assert(draws_before(entities, second[k] as int, second[first.len() as int] as int));
    }
    if second.len() < first.len() {
        let slot = first[second.len() as int];
        assert(second.contains(slot));
        let k = choose|k: int| 0 <= k < second.len() && second[k] == slot;
        assert(first[k] == slot);
        assert(draws_before(entities, first[k] as int, first[second.len() as int] as int));
    }
    assert(first =~= second);
}

proof fn lemma_prefixes_agree(
    entities: Seq<EntityView>,
    shader: ShaderHandle,
    first: Seq<usize>,
    second: Seq<usize>,
    n: int,
)
    requires
        is_draw_order(entities, shader, first, entities.len() as int),
        is_draw_order(entities, shader, second, entities.len() as int),
        0 <= n <= first.len(),
    ensures
        forall|k: int| 0 <= k < n && k < second.len() ==> first[k] == second[k],
    decreases n,
{
    if n > 0 {
        lemma_prefixes_agree(entities, shader, first, second, n - 1);
        let k = n - 1;
        if k < second.len() && first[k] != second[k] {
            let a = first[k];
            let b = second[k];
            assert(second.contains(a));
            let ia = choose|i: int| 0 <= i < second.len() && second[i] == a;
            assert(first.contains(b));
            let ib = choose|i: int| 0 <= i < first.len() && first[i] == b;
            if ia < k {
                assert(first[ia] == second[ia]);
                assert(draws_before(entities, first[ia] as int, first[k] as int));
            }
            if ib < k {
                assert(first[ib] == second[ib]);
                assert(draws_before(entities, second[ib] as int, second[k] as int));
            }
            assert(draws_before(entities, second[k] as int, second[ia] as int));
            assert(draws_before(entities, first[k] as int, first[ib] as int));
        }
    }
}

impl EntityManager {
    /// The sort value of the mesh of the entity in the slot.
    fn sort_key(&self, slot: usize) -> (sort: i32)
        requires
            slot < self@.len(),
        ensures
            sort == sort_of(self@[slot as int]),
    {
        match self.entities[slot].get_component::<RenderMesh>(RENDER_MESH_ID) {
            Ok(mesh) => mesh.material.sort,
            Err(_) => 0,
        }
    }

    /// Whether the pipeline of `shader` draws the entity in the slot.
    fn is_drawn_with(&self, slot: usize, shader: ShaderHandle) -> (drawn: bool)
        requires
            slot < self@.len(),
        ensures
            drawn == drawn_with(self@[slot as int], shader),
    {
        match self.entities[slot].get_component::<RenderMesh>(RENDER_MESH_ID) {
            Ok(mesh) => mesh.material.shader == shader,
            Err(_) => false,
        }
    }

    /// The slots of the entities that the pipeline of `shader` draws, in
    /// drawing order.
    pub fn draw_order(&self, shader: ShaderHandle) -> (order: Vec<usize>)
        ensures
            is_draw_order(self@, shader, order@, self@.len() as int),
    {
        let mut order: Vec<usize> = Vec::new();
        let mut i: usize = 0;
        while i < self.entities.len()
            invariant
                i <= self@.len(),
                is_draw_order(self@, shader, order@, i as int),
            decreases self@.len() - i,
        {
            if self.is_drawn_with(i, shader) {
                let sort = self.sort_key(i);
                let mut k: usize = 0;
                let mut searching = true;
                while searching && k < order.len()
                    invariant
                        k <= order@.len(),
                        i < self@.len(),
                        sort == sort_of(self@[i as int]),
                        is_draw_order(self@, shader, order@, i as int),
                        forall|a: int| 0 <= a < k ==> sort_of(self@[(#[trigger] order@[a]) as int]) >= sort,
                        !searching ==> k < order@.len() && sort_of(self@[order@[k as int] as int]) < sort,
                    decreases order@.len() - k + (if searching { 1int } else { 0int }),
                {
                    if self.sort_key(order[k]) < sort {
                        searching = false;
                    } else {
                        k += 1;
                    }
                }
                let ghost before = order@;
                order.insert(k, i);
                proof {
                    assert forall|a: int, b: int| 0 <= a < b < order@.len() implies draws_before(
                        self@,
                        (#[trigger] order@[a]) as int,
                        (#[trigger] order@[b]) as int,
                    ) by {
                        if a < k && b > k {
                            assert(order@[a] == before[a] && order@[b] == before[b - 1]);
                        } else if a < k && b < k {
                            assert(order@[a] == before[a] && order@[b] == before[b]);
                        } else if a > k {
                            assert(order@[a] == before[a - 1] && order@[b] == before[b - 1]);
                        } else if a == k {
                            assert(order@[b] == before[b - 1]);
                            assert(sort_of(self@[before[k as int] as int]) < sort);
                            if b - 1 > k {
                                assert(draws_before(self@, before[k as int] as int, before[b - 1] as int));
                            }
                        } else {
                            assert(order@[a] == before[a]);
                            assert(sort_of(self@[before[a] as int]) >= sort);
                            assert(before[a] < i);
                        }
                    }
                    assert forall|s: int| 0 <= s < i + 1 && drawn_with(#[trigger] self@[s], shader) implies order@.contains(
                        s as usize,
                    ) by {
                        if s < i {
                            assert(before.contains(s as usize));
                            let t = choose|t: int| 0 <= t < before.len() && before[t] == s as usize;
                            if t < k {
                                assert(order@[t] == s as usize);
                            } else {
                                assert(order@[t + 1] == s as usize);
                            }
                        } else {
                            assert(order@[k as int] == s as usize);
                        }
                    }
                    assert forall|t: int| 0 <= t < order@.len() implies (#[trigger] order@[t]) < i + 1 && drawn_with(
                        self@[order@[t] as int],
                        shader,
                    ) by {
                        if t < k {
                            assert(order@[t] == before[t]);
                        } else if t > k {
                            assert(order@[t] == before[t - 1]);
                        }
                    }
                }
            }
            i += 1;
        }
        order
    }
}

} // verus!

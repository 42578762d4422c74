use ecs_engine::component::{Component, ComponentBase};
use ecs_engine::entity::Entity;
use ecs_engine::entity_manager::EntityManager;
use ecs_engine::error::LookupError;
use ecs_engine::handle::{BindGroupHandle, BufferHandle, ShaderHandle, TextureHandle};
use ecs_engine::material::Material;
use ecs_engine::movement::{MovementComponent, PlayerMovementComponent, MOVEMENT_ID, PLAYER_MOVEMENT_ID};
use ecs_engine::physics::PHYSICS_ID;
use ecs_engine::render_mesh::{RenderMesh, RENDER_MESH_ID};
use ecs_engine::scalar::{Quaternion, Scalar, Vector3};
use ecs_engine::transform::{Transform, Translation, TRANSFORM_ID, TRANSLATION_ID};

fn s(x: f32) -> Scalar {
    Scalar::from_bits(x.to_bits())
}

fn v3(x: f32, y: f32, z: f32) -> Vector3 {
    Vector3::new(s(x), s(y), s(z))
}

fn transform(x: f32) -> Component {
    Transform::new(BufferHandle { index: 0 }, v3(x, 0.0, 0.0), Quaternion::identity(), v3(1.0, 1.0, 1.0))
        .into_component()
}

fn mesh() -> Component {
    let material = Material::new(
        BufferHandle { index: 3 },
        TextureHandle { index: 4 },
        v3(1.0, 1.0, 1.0),
        s(1.0),
        s(0.0),
        0,
        ShaderHandle { index: 0 },
    );
    RenderMesh::new(BufferHandle { index: 1 }, BufferHandle { index: 2 }, material).into_component()
}

fn movement() -> Component {
    MovementComponent::new(s(1.0)).into_component()
}

fn player() -> Component {
    PlayerMovementComponent::new(s(5.0)).into_component()
}

/// Six entities with overlapping tags:
/// 0: mesh, transform            1: transform, movement
/// 2: mesh, transform, movement  3: (nothing)
/// 4: movement                   5: player, transform, mesh
fn population() -> EntityManager {
    let mut m = EntityManager::new();
    m.create_entity(vec![mesh(), transform(0.0)], vec![]);
    m.create_entity(vec![transform(1.0), movement()], vec![]);
    m.create_entity(vec![mesh(), transform(2.0), movement()], vec![]);
    m.create_entity(vec![], vec![]);
    m.create_entity(vec![movement()], vec![]);
    m.create_entity(vec![player(), transform(5.0), mesh()], vec![]);
    m
}

fn ids(found: &Vec<&Entity>) -> Vec<usize> {
    found.iter().map(|e| e.id).collect()
}

fn ids_mut(found: &Vec<&mut Entity>) -> Vec<usize> {
    found.iter().map(|e| e.id).collect()
}

#[test]
fn a_new_manager_is_empty() {
    let m = EntityManager::new();
    assert!(m.entities.is_empty());
    assert_eq!(m.find_entity(0), Err(LookupError::EntityNotFound));
    assert!(m.get_entities_with_type(TRANSFORM_ID).is_empty());
    assert!(m.get_entities_with_types(&[TRANSFORM_ID]).is_empty());
}

#[test]
fn ids_count_up_from_zero_and_are_the_slots() {
    let mut m = EntityManager::new();
    for expected in 0..5 {
        let id = m.create_entity(vec![transform(expected as f32)], vec![]);
        assert_eq!(id, expected);
        assert_eq!(m.entities.len(), expected + 1);
        assert_eq!(m.entities[expected].id, expected);
    }
}

#[test]
fn a_created_entity_is_found_with_what_it_was_given_in_order() {
    let mut m = population();
    let components = vec![movement(), transform(7.0), mesh(), transform(8.0)];
    let uniforms = vec![BindGroupHandle { index: 4 }, BindGroupHandle { index: 2 }, BindGroupHandle { index: 9 }];
    let id = m.create_entity(components.clone(), uniforms.clone());
    assert_eq!(id, 6);
    let slot = m.find_entity(id).unwrap();
    assert_eq!(slot, 6);
    assert_eq!(m.entities[slot].id, id);
    assert_eq!(m.entities[slot].components, components);
    assert_eq!(m.entities[slot].uniforms, uniforms);
    for earlier in 0..6 {
        assert_eq!(m.find_entity(earlier), Ok(earlier));
    }
}

#[test]
fn find_entity_fails_on_an_unknown_id() {
    let m = population();
    assert_eq!(m.find_entity(6), Err(LookupError::EntityNotFound));
    assert_eq!(m.find_entity(usize::MAX), Err(LookupError::EntityNotFound));
}

#[test]
fn find_entity_goes_by_the_stored_id_not_the_slot() {
    let mut m = population();
    m.entities[1].id = 40;
    m.entities[3].id = 40;
    assert_eq!(m.find_entity(40), Ok(1));
    assert_eq!(m.find_entity(1), Err(LookupError::EntityNotFound));
    assert_eq!(m.find_entity(2), Ok(2));
}

#[test]
fn query_for_one_tag_keeps_slot_order() {
    let m = population();
    assert_eq!(ids(&m.get_entities_with_type(TRANSFORM_ID)), vec![0, 1, 2, 5]);
    assert_eq!(ids(&m.get_entities_with_type(RENDER_MESH_ID)), vec![0, 2, 5]);
    assert_eq!(ids(&m.get_entities_with_type(MOVEMENT_ID)), vec![1, 2, 4]);
    assert_eq!(ids(&m.get_entities_with_type(PLAYER_MOVEMENT_ID)), vec![5]);
    assert!(m.get_entities_with_type(PHYSICS_ID).is_empty());
}

#[test]
fn query_for_several_tags_is_the_intersection() {
    let m = population();
    let all_tags = [RENDER_MESH_ID, TRANSLATION_ID, TRANSFORM_ID, MOVEMENT_ID, PLAYER_MOVEMENT_ID, PHYSICS_ID];
    let mut lists: Vec<Vec<u32>> = Vec::new();
    for a in all_tags {
        lists.push(vec![a]);
        for b in all_tags {
            lists.push(vec![a, b]);
            for c in all_tags {
                lists.push(vec![a, b, c]);
            }
        }
    }
    for tags in lists {
        let mut expected: Vec<usize> = (0..m.entities.len()).collect();
        for t in tags.iter() {
            let with_t = ids(&m.get_entities_with_type(*t));
            expected.retain(|id| with_t.contains(id));
        }
        assert_eq!(ids(&m.get_entities_with_types(&tags)), expected, "tags {:?}", tags);
    }
}

#[test]
fn query_results_for_chosen_tag_lists() {
    let m = population();
    assert_eq!(ids(&m.get_entities_with_types(&[TRANSFORM_ID, RENDER_MESH_ID])), vec![0, 2, 5]);
    assert_eq!(ids(&m.get_entities_with_types(&[RENDER_MESH_ID, TRANSFORM_ID])), vec![0, 2, 5]);
    assert_eq!(ids(&m.get_entities_with_types(&[MOVEMENT_ID, TRANSFORM_ID])), vec![1, 2]);
    assert_eq!(ids(&m.get_entities_with_types(&[MOVEMENT_ID, TRANSFORM_ID, RENDER_MESH_ID])), vec![2]);
    assert_eq!(ids(&m.get_entities_with_types(&[MOVEMENT_ID, MOVEMENT_ID])), vec![1, 2, 4]);
    assert_eq!(ids(&m.get_entities_with_types(&[PLAYER_MOVEMENT_ID, MOVEMENT_ID])), Vec::<usize>::new());
}

#[test]
fn query_for_no_tags_is_empty() {
    let mut m = population();
    assert!(m.get_entities_with_types(&[]).is_empty());
    assert!(m.get_entities_with_types_mut(&[]).is_empty());
    let mut empty = EntityManager::new();
    assert!(empty.get_entities_with_types(&[]).is_empty());
    assert!(empty.get_entities_with_types_mut(&[]).is_empty());
}

#[test]
fn a_tag_that_nothing_has_empties_the_query() {
    let m = population();
    assert!(m.get_entities_with_types(&[PHYSICS_ID]).is_empty());
    assert!(m.get_entities_with_types(&[TRANSFORM_ID, PHYSICS_ID]).is_empty());
    assert!(m.get_entities_with_types(&[PHYSICS_ID, TRANSFORM_ID]).is_empty());
    assert!(m.get_entities_with_types(&[TRANSFORM_ID, PHYSICS_ID, RENDER_MESH_ID]).is_empty());
}

#[test]
fn queries_see_an_entity_by_the_first_of_its_duplicates() {
    let mut m = EntityManager::new();
    m.create_entity(vec![transform(1.0), transform(2.0)], vec![]);
    let found = m.get_entities_with_type(TRANSFORM_ID);
    assert_eq!(ids(&found), vec![0]);
    assert_eq!(found[0].get_component::<Transform>(TRANSFORM_ID).unwrap().position, v3(1.0, 0.0, 0.0));
}

#[test]
fn mutable_queries_return_the_same_entities() {
    let mut m = population();
    assert_eq!(ids_mut(&m.get_entities_with_type_mut(TRANSFORM_ID)), vec![0, 1, 2, 5]);
    assert_eq!(ids_mut(&m.get_entities_with_type_mut(PHYSICS_ID)), Vec::<usize>::new());
    assert_eq!(ids_mut(&m.get_entities_with_types_mut(&[MOVEMENT_ID, TRANSFORM_ID])), vec![1, 2]);
    assert_eq!(ids_mut(&m.get_entities_with_types_mut(&[TRANSFORM_ID, RENDER_MESH_ID, MOVEMENT_ID])), vec![2]);
}

#[test]
fn what_is_done_through_a_mutable_query_is_done_to_the_manager() {
    let mut m = population();
    {
        let mut found = m.get_entities_with_types_mut(&[MOVEMENT_ID, TRANSFORM_ID]);
        for e in found.iter_mut() {
            let id = e.id;
            e.get_component_mut::<Transform>(TRANSFORM_ID).unwrap().position = v3(100.0 + id as f32, 0.0, 0.0);
            e.add_new_uniform(BindGroupHandle { index: id });
        }
    }
    let position = |m: &EntityManager, slot: usize| {
        m.entities[slot].get_component::<Transform>(TRANSFORM_ID).unwrap().position
    };
    assert_eq!(position(&m, 0), v3(0.0, 0.0, 0.0));
    assert_eq!(position(&m, 1), v3(101.0, 0.0, 0.0));
    assert_eq!(position(&m, 2), v3(102.0, 0.0, 0.0));
    assert_eq!(position(&m, 5), v3(5.0, 0.0, 0.0));
    assert_eq!(m.entities[1].uniforms, vec![BindGroupHandle { index: 1 }]);
    assert_eq!(m.entities[2].uniforms, vec![BindGroupHandle { index: 2 }]);
    assert!(m.entities[0].uniforms.is_empty());
    assert!(m.entities[3].components.is_empty());
    assert_eq!(m.entities.len(), 6);
}

#[test]
fn what_is_done_through_a_one_tag_mutable_query_is_done_to_the_manager() {
    let mut m = population();
    for e in m.get_entities_with_type_mut(PLAYER_MOVEMENT_ID) {
        e.get_component_mut::<PlayerMovementComponent>(PLAYER_MOVEMENT_ID).unwrap().points = 12;
    }
    assert_eq!(
        m.entities[5].get_component::<PlayerMovementComponent>(PLAYER_MOVEMENT_ID).unwrap().points,
        12
    );
}

#[test]
fn queries_go_by_ids_when_ids_are_out_of_order() {
    let mut m = EntityManager::new();
    m.create_entity(vec![transform(0.0)], vec![]);
    m.create_entity(vec![mesh()], vec![]);
    m.entities[1].id = 0;
    assert_eq!(m.get_entities_with_types(&[TRANSFORM_ID, RENDER_MESH_ID]).len(), 2);
    assert_eq!(m.get_entities_with_type(TRANSFORM_ID).len(), 1);
}

#[test]
fn get_component_data_reaches_a_slot() {
    let mut m = population();
    m.get_component_data::<Transform>(2, TRANSFORM_ID).unwrap().position = v3(0.0, -2.0, 0.0);
    assert_eq!(
        m.entities[2].get_component::<Transform>(TRANSFORM_ID).unwrap().position,
        v3(0.0, -2.0, 0.0)
    );
    assert_eq!(m.entities[1].get_component::<Transform>(TRANSFORM_ID).unwrap().position, v3(1.0, 0.0, 0.0));
}

#[test]
fn get_component_data_reports_each_failure() {
    let mut m = population();
    assert_eq!(m.get_component_data::<Transform>(6, TRANSFORM_ID), Err(LookupError::EntityNotFound));
    assert_eq!(m.get_component_data::<Transform>(3, TRANSFORM_ID), Err(LookupError::ComponentNotFound));
    assert_eq!(m.get_component_data::<Translation>(0, TRANSFORM_ID), Err(LookupError::DowncastMismatch));
    assert_eq!(m.entities[0].components, vec![mesh(), transform(0.0)]);
}

#[test]
fn add_component_data_attaches_and_hands_out_the_component() {
    let mut m = population();
    let slot = m.find_entity(3).unwrap();
    {
        let added = m.add_component_data::<MovementComponent>(&slot, MovementComponent::new(s(-0.25)).into_component());
        let added = added.unwrap();
        assert_eq!(added.speed, s(-0.25));
        added.speed = s(4.0);
    }
    assert_eq!(m.entities[3].components, vec![MovementComponent::new(s(4.0)).into_component()]);
    assert_eq!(ids(&m.get_entities_with_type(MOVEMENT_ID)), vec![1, 2, 3, 4]);
}

#[test]
fn add_component_data_hands_out_the_first_of_the_kind() {
    let mut m = population();
    {
        let first = m.add_component_data::<Transform>(&1, transform(50.0)).unwrap();
        assert_eq!(first.position, v3(1.0, 0.0, 0.0));
    }
    assert_eq!(m.entities[1].components, vec![transform(1.0), movement(), transform(50.0)]);
}

#[test]
fn add_component_data_reports_each_failure() {
    let mut m = population();
    assert_eq!(m.add_component_data::<Transform>(&6, transform(1.0)), Err(LookupError::EntityNotFound));
    assert_eq!(m.entities.len(), 6);
    assert_eq!(m.add_component_data::<Translation>(&3, transform(1.0)), Err(LookupError::DowncastMismatch));
    assert_eq!(m.entities[3].components, vec![transform(1.0)]);
}

#[test]
fn remove_component_data_detaches_the_first_match() {
    let mut m = EntityManager::new();
    let mut e = Entity::new(vec![transform(1.0), mesh(), transform(2.0)], 0);
    m.remove_component_data(&mut e, TRANSFORM_ID);
    assert_eq!(e.components, vec![mesh(), transform(2.0)]);
    assert!(m.entities.is_empty());
}

fn mesh_with(sort: i32, shader: usize) -> Component {
    let material = Material::new(
        BufferHandle { index: 3 },
        TextureHandle { index: 4 },
        v3(1.0, 1.0, 1.0),
        s(1.0),
        s(0.0),
        sort,
        ShaderHandle { index: shader },
    );
    RenderMesh::new(BufferHandle { index: 1 }, BufferHandle { index: 2 }, material).into_component()
}

#[test]
fn draw_order_is_by_sort_value_and_then_by_slot() {
    let mut m = EntityManager::new();
    m.create_entity(vec![mesh_with(0, 0)], vec![]);
    m.create_entity(vec![transform(1.0)], vec![]);
    m.create_entity(vec![mesh_with(5, 0)], vec![]);
    m.create_entity(vec![mesh_with(-1, 0)], vec![]);
    m.create_entity(vec![mesh_with(5, 1)], vec![]);
    m.create_entity(vec![transform(1.0), mesh_with(5, 0)], vec![]);
    m.create_entity(vec![mesh_with(0, 0), mesh_with(9, 1)], vec![]);
    m.create_entity(vec![mesh_with(i32::MAX, 0)], vec![]);
    m.create_entity(vec![mesh_with(i32::MIN, 0)], vec![]);
    assert_eq!(m.draw_order(ShaderHandle { index: 0 }), vec![7, 2, 5, 0, 6, 3, 8]);
    assert_eq!(m.draw_order(ShaderHandle { index: 1 }), vec![4]);
    assert_eq!(m.draw_order(ShaderHandle { index: 2 }), Vec::<usize>::new());
    assert_eq!(EntityManager::new().draw_order(ShaderHandle { index: 0 }), Vec::<usize>::new());
}

#[test]
fn ids_are_in_order_until_someone_writes_an_id() {
    let mut m = population();
    assert!(m.ids_are_in_order());
    assert!(EntityManager::new().ids_are_in_order());
    m.entities[4].id = 2;
    assert!(!m.ids_are_in_order());
    m.entities[4].id = 4;
    assert!(m.ids_are_in_order());
}

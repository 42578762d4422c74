use ecs_engine::handle::BufferHandle;
use ecs_engine::input_manager::{ElementState, InputEvent, InputManager, MouseButton, MousePosition, KEY_A, KEY_D};
use ecs_engine::renderer::{
    after_render, BaseUniforms, BloomUniform, Camera, FrameAction, RenderError, Renderer,
    TransformUniform,
};
use ecs_engine::scalar::{Point3, Quaternion, Scalar, Vector2, Vector3};
use ecs_engine::scene::{
    contains_bytes, parse_component, read_kind, split_bytes, ComponentDef, ComponentKind, SceneError,
    SceneLoader,
};
use ecs_engine::transform::Transform;

fn s(x: f32) -> Scalar {
    Scalar::from_bits(x.to_bits())
}

fn key(state: ElementState, code: u32) -> InputEvent {
    InputEvent::KeyboardInput { state, virtual_keycode: Some(code) }
}

#[test]
fn a_new_input_manager_tracks_nothing() {
    let m = InputManager::new();
    assert_eq!(m.try_get_key_value(KEY_A), Err(()));
    assert!(!m.is_pressed(KEY_A));
    assert_eq!(m.get_mouse_position(), MousePosition { x_bits: 0, y_bits: 0 });
    assert_eq!(m.get_mouse_button(), MouseButton::Left);
}

#[test]
fn keys_are_tracked_from_their_first_event() {
    let mut m = InputManager::new();
    m.update(&key(ElementState::Pressed, KEY_A));
    assert_eq!(m.try_get_key_value(KEY_A), Ok(ElementState::Pressed));
    assert_eq!(m.get_key_value(KEY_A), ElementState::Pressed);
    assert!(m.is_pressed(KEY_A));
    assert_eq!(m.try_get_key_value(KEY_D), Err(()));
    m.update(&key(ElementState::Released, KEY_A));
    assert_eq!(m.try_get_key_value(KEY_A), Ok(ElementState::Released));
    assert!(!m.is_pressed(KEY_A));
    m.update(&key(ElementState::Released, KEY_D));
    assert_eq!(m.get_key_value(KEY_D), ElementState::Released);
}

#[test]
fn events_without_a_key_code_change_no_key() {
    let mut m = InputManager::new();
    m.update(&InputEvent::KeyboardInput { state: ElementState::Pressed, virtual_keycode: None });
    m.update(&InputEvent::Other);
    for code in 0..200 {
        assert_eq!(m.try_get_key_value(code), Err(()));
    }
}

#[test]
fn mouse_events_are_remembered() {
    let mut m = InputManager::new();
    m.update(&InputEvent::MouseInput { button: MouseButton::Other(4) });
    assert_eq!(m.get_mouse_button(), MouseButton::Other(4));
    m.update(&InputEvent::MouseInput { button: MouseButton::Right });
    assert_eq!(m.get_mouse_button(), MouseButton::Right);
    let position = MousePosition { x_bits: 12.5f64.to_bits(), y_bits: 640.0f64.to_bits() };
    m.update(&InputEvent::CursorMoved { position });
    assert_eq!(m.get_mouse_position(), position);
    assert_eq!(f64::from_bits(m.get_mouse_position().x_bits), 12.5);
    assert_eq!(m.get_mouse_button(), MouseButton::Right);
}

#[test]
fn after_render_tells_passing_errors_from_fatal_ones() {
    assert_eq!(after_render(Ok(())), FrameAction::Continue);
    assert_eq!(after_render(Err(RenderError::Lost)), FrameAction::Recreate);
    assert_eq!(after_render(Err(RenderError::OutOfMemory)), FrameAction::Exit);
    assert_eq!(after_render(Err(RenderError::Outdated)), FrameAction::Continue);
    assert_eq!(after_render(Err(RenderError::Timeout)), FrameAction::Continue);
}

#[test]
fn writes_are_queued_in_order() {
    let mut r = Renderer::new();
    assert!(r.writes.is_empty());
    let one = TransformUniform {
        position: Vector3::new(s(1.0), s(2.0), s(3.0)),
        rotation: Quaternion::identity(),
        scale: Vector3::new(s(1.0), s(1.0), s(1.0)),
    };
    let two = TransformUniform { position: Vector3::zero(), ..one };
    r.write_buffer(&BufferHandle { index: 3 }, 16, one);
    r.write_buffer(&BufferHandle { index: 4 }, 0, two);
    assert_eq!(r.writes.len(), 2);
    assert_eq!((r.writes[0].buffer, r.writes[0].offset, r.writes[0].uniforms), (BufferHandle { index: 3 }, 16, one));
    assert_eq!((r.writes[1].buffer, r.writes[1].offset, r.writes[1].uniforms), (BufferHandle { index: 4 }, 0, two));
    let taken = r.take_writes();
    assert_eq!(taken.len(), 2);
    assert!(r.writes.is_empty());
}

#[test]
fn a_transform_uploads_its_three_factors_at_offset_zero() {
    let mut r = Renderer::new();
    let t = Transform::new(
        BufferHandle { index: 5 },
        Vector3::new(s(1.0), s(2.0), s(3.0)),
        Quaternion::new(s(0.0), Vector3::new(s(0.0), s(1.0), s(0.0))),
        Vector3::new(s(2.0), s(2.0), s(2.0)),
    );
    t.update_uniform_buffers(&mut r);
    assert_eq!(r.writes.len(), 1);
    assert_eq!(r.writes[0].buffer, BufferHandle { index: 5 });
    assert_eq!(r.writes[0].offset, 0);
    assert_eq!(
        r.writes[0].uniforms,
        TransformUniform { position: t.position, rotation: t.rotation, scale: t.scale }
    );
}

#[test]
fn the_camera_moves_with_its_target() {
    let mut c = Camera::new(
        BufferHandle { index: 2 },
        Point3::new(s(0.0), s(0.0), s(10.0)),
        Point3::new(s(0.0), s(0.0), s(-1.0)),
        Vector3::new(s(0.0), s(1.0), s(0.0)),
        s(1.5),
        s(45.0),
        s(0.1),
        s(100.0),
    );
    assert_eq!(c.get_buffer_reference(), &BufferHandle { index: 2 });
    c.move_camera(Point3::new(s(3.0), s(4.0), s(10.0)));
    assert_eq!(c.eye, Point3::new(s(3.0), s(4.0), s(10.0)));
    assert_eq!(c.target, Point3::new(s(3.0), s(4.0), s(-1.0)));
    assert_eq!(c.up, Vector3::new(s(0.0), s(1.0), s(0.0)));
    assert_eq!((c.aspect, c.fovy, c.znear, c.zfar), (s(1.5), s(45.0), s(0.1), s(100.0)));
}

#[test]
fn bloom_uniform_contents_are_its_one_byte() {
    assert_eq!(BloomUniform::new(1).horizonal, 1);
    assert_eq!(BloomUniform::new(1).contents(), vec![1u8]);
    assert_eq!(BloomUniform::new(0).contents(), vec![0u8]);
    assert_eq!(BloomUniform::new(255).contents(), vec![255u8]);
}

#[test]
fn contains_bytes_finds_a_needle_anywhere() {
    assert!(contains_bytes(b"entity [pos(1,2,3)]", b"entity"));
    assert!(contains_bytes(b"an entity", b"entity"));
    assert!(contains_bytes(b"entity", b"entity"));
    assert!(!contains_bytes(b"entit", b"entity"));
    assert!(!contains_bytes(b"", b"entity"));
    assert!(contains_bytes(b"", b""));
    assert!(contains_bytes(b"abc", b""));
    assert!(contains_bytes(b"aab", b"ab"));
    assert!(!contains_bytes(b"aba", b"bb"));
    assert!(contains_bytes(b"x//y", b"//"));
    assert!(!contains_bytes(b"x/y/", b"//"));
}

#[test]
fn entity_lines_name_an_entity_and_are_not_commented_out() {
    assert!(SceneLoader::is_entity_line(b"entity [name(tree) pos(0.0,1.0,0.0)]"));
    assert!(SceneLoader::is_entity_line(b"  entity[]"));
    assert!(!SceneLoader::is_entity_line(b""));
    assert!(!SceneLoader::is_entity_line(b"// entity [name(tree)]"));
    assert!(!SceneLoader::is_entity_line(b"entity [name(tree)] // the tree"));
    assert!(!SceneLoader::is_entity_line(b"camera [pos(0,0,10)]"));
    assert!(!SceneLoader::is_entity_line(b"Entity [name(tree)]"));
}

#[test]
fn load_component_keeps_the_entity_lines_in_order() {
    let lines: Vec<Vec<u8>> = vec![
        b"// a scene".to_vec(),
        b"entity [name(a)]".to_vec(),
        b"".to_vec(),
        b"entity [name(b)] // off".to_vec(),
        b"light [pos(0,0,0)]".to_vec(),
        b"entity [name(c)]".to_vec(),
    ];
    assert_eq!(SceneLoader::load_component(&lines), vec![b"entity [name(a)]".to_vec(), b"entity [name(c)]".to_vec()]);
    assert!(SceneLoader::load_component(&vec![]).is_empty());
}

fn texts(parts: &[&[u8]]) -> Vec<Vec<u8>> {
    parts.iter().map(|p| p.to_vec()).collect()
}

#[test]
fn split_cuts_at_every_separator_and_keeps_empty_parts() {
    assert_eq!(split_bytes(b"a,b,,c", b','), texts(&[b"a", b"b", b"", b"c"]));
    assert_eq!(split_bytes(b"", b','), texts(&[b""]));
    assert_eq!(split_bytes(b",", b','), texts(&[b"", b""]));
    assert_eq!(split_bytes(b"abc", b','), texts(&[b"abc"]));
    assert_eq!(split_bytes(b",abc,", b','), texts(&[b"", b"abc", b""]));
    for text in [&b"1.0,2.0,3.0"[..], &b",,"[..], &b"no separator"[..], &b""[..]] {
        let parts = split_bytes(text, b',');
        assert_eq!(parts.join(&b','), text.to_vec());
        assert!(parts.iter().all(|p| !p.contains(&b',')));
    }
}

#[test]
fn words_name_kinds() {
    assert_eq!(read_kind(b"name"), Some(ComponentKind::Name));
    assert_eq!(read_kind(b"pos"), Some(ComponentKind::Position));
    assert_eq!(read_kind(b"rot"), Some(ComponentKind::Rotation));
    assert_eq!(read_kind(b"scale"), Some(ComponentKind::Scale));
    assert_eq!(read_kind(b"material"), Some(ComponentKind::Material));
    assert_eq!(read_kind(b"physics"), Some(ComponentKind::Physics));
    assert_eq!(read_kind(b""), None);
    assert_eq!(read_kind(b"Name"), None);
    assert_eq!(read_kind(b"position"), None);
    assert_eq!(read_kind(b"po"), None);
}

#[test]
fn items_are_read_by_their_kind() {
    let item = |kind: ComponentKind, arguments: &[&[u8]]| Ok(ComponentDef { kind, arguments: texts(arguments) });
    assert_eq!(parse_component(b"name(tree)"), item(ComponentKind::Name, &[b"tree"]));
    assert_eq!(parse_component(b"pos(1.0,-2.5,3)"), item(ComponentKind::Position, &[b"1.0", b"-2.5", b"3"]));
    assert_eq!(parse_component(b"rot(0,0,90)"), item(ComponentKind::Rotation, &[b"0", b"0", b"90"]));
    assert_eq!(parse_component(b"scale(2,2,2)trailing"), item(ComponentKind::Scale, &[b"2", b"2", b"2"]));
    assert_eq!(parse_component(b"scale(2,2"), item(ComponentKind::Scale, &[b"2", b"2"]));
    assert_eq!(parse_component(b"pos()"), item(ComponentKind::Position, &[b""]));
    assert_eq!(
        parse_component(b"material(./data/textures/tree.png,(1.0,0.5,0.25))"),
        item(ComponentKind::Material, &[b"./data/textures/tree.png", b"1.0", b"0.5", b"0.25"])
    );
    assert_eq!(parse_component(b"physics"), item(ComponentKind::Physics, &[]));
    assert_eq!(parse_component(b"physics(box)"), item(ComponentKind::Physics, &[]));
    assert_eq!(parse_component(b"pos"), Err(SceneError::MissingArguments));
    assert_eq!(parse_component(b"name"), Err(SceneError::MissingArguments));
    assert_eq!(parse_component(b"material(tex.png,1,2,3)"), Err(SceneError::MissingArguments));
    assert_eq!(parse_component(b"colour(1,2,3)"), Err(SceneError::UnknownComponent));
    assert_eq!(parse_component(b""), Err(SceneError::UnknownComponent));
    assert_eq!(parse_component(b"(pos)"), Err(SceneError::UnknownComponent));
}

#[test]
fn an_entity_line_lists_its_components_in_order() {
    let parsed = SceneLoader::parse_entity(b"entity [name(tree) pos(0.0,1.0,0.0) physics scale(1,1,1)] rest [x]");
    assert_eq!(
        parsed,
        Ok(vec![
            ComponentDef { kind: ComponentKind::Name, arguments: texts(&[b"tree"]) },
            ComponentDef { kind: ComponentKind::Position, arguments: texts(&[b"0.0", b"1.0", b"0.0"]) },
            ComponentDef { kind: ComponentKind::Physics, arguments: texts(&[]) },
            ComponentDef { kind: ComponentKind::Scale, arguments: texts(&[b"1", b"1", b"1"]) },
        ])
    );
    assert_eq!(
        SceneLoader::parse_entity(b"entity [physics"),
        Ok(vec![ComponentDef { kind: ComponentKind::Physics, arguments: texts(&[]) }])
    );
    assert_eq!(SceneLoader::parse_entity(b"entity"), Err(SceneError::NoComponentList));
    assert_eq!(SceneLoader::parse_entity(b""), Err(SceneError::NoComponentList));
    assert_eq!(SceneLoader::parse_entity(b"entity []"), Err(SceneError::UnknownComponent));
    assert_eq!(SceneLoader::parse_entity(b"entity [ pos(1,2,3)]"), Err(SceneError::UnknownComponent));
    assert_eq!(SceneLoader::parse_entity(b"entity [pos(1,2,3)  physics]"), Err(SceneError::UnknownComponent));
    assert_eq!(SceneLoader::parse_entity(b"entity [pos(1,2,3) rot physics]"), Err(SceneError::MissingArguments));
    assert_eq!(SceneLoader::parse_entity(b"entity [light(1) rot]"), Err(SceneError::UnknownComponent));
}

#[test]
fn bloom_uniform_toggles_between_the_two_directions() {
    assert_eq!(BloomUniform::new(1).toggled(), BloomUniform::new(0));
    assert_eq!(BloomUniform::new(0).toggled(), BloomUniform::new(1));
    assert_eq!(BloomUniform::new(7).toggled(), BloomUniform::new(0));
}

#[test]
fn a_new_transform_uniform_changes_nothing_and_update_takes_the_factors() {
    let mut u = TransformUniform::new();
    assert_eq!(u.position, Vector3::zero());
    assert_eq!(u.rotation, Quaternion::identity());
    assert_eq!(u.scale, Vector3::new(s(1.0), s(1.0), s(1.0)));
    let t = Transform::new(
        BufferHandle { index: 5 },
        Vector3::new(s(1.0), s(2.0), s(3.0)),
        Quaternion::new(s(0.0), Vector3::new(s(0.0), s(1.0), s(0.0))),
        Vector3::new(s(2.0), s(2.0), s(2.0)),
    );
    u.update(&t);
    assert_eq!(u, TransformUniform { position: t.position, rotation: t.rotation, scale: t.scale });
}

#[test]
fn base_uniforms_hold_resolution_and_time() {
    let mut u = BaseUniforms::new();
    assert_eq!(u.iResolution, [s(0.0), s(0.0)]);
    assert_eq!(u.iTime, s(0.0));
    u.update(Vector2::new(s(1280.0), s(720.0)), s(1.5));
    assert_eq!(u.iResolution, [s(1280.0), s(720.0)]);
    assert_eq!(u.iTime, s(1.5));
}

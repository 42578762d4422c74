//! Components and their type tags.
//!
//! A component is one of a closed set of kinds. Each kind has a tag, a small
//! number that identifies it in lookups and queries; no two kinds share one.
//! `ComponentBase` ties each payload type to its kind, so that a lookup can
//! ask for a payload type and be refused when the stored kind is another.

use vstd::prelude::*;
use crate::movement::{MovementComponent, PlayerMovementComponent, MOVEMENT_ID, PLAYER_MOVEMENT_ID};
use crate::physics::{PhysicsComponent, PHYSICS_ID};
use crate::render_mesh::{RenderMesh, RENDER_MESH_ID};
use crate::transform::{
    NonUniformScale, Rotation, Transform, Translation, NON_UNIFORM_SCALE_ID, ROTATION_ID,
    TRANSFORM_ID, TRANSLATION_ID,
};

verus! {

#[derive(Clone, Copy, Debug, PartialEq, Eq)]
pub enum Component {
    RenderMesh(RenderMesh),
    Translation(Translation),
    Rotation(Rotation),
    NonUniformScale(NonUniformScale),
    Transform(Transform),
    Movement(MovementComponent),
    PlayerMovement(PlayerMovementComponent),
    Physics(PhysicsComponent),
}

impl Component {
    /// The tag of the component's kind.
    pub open spec fn tag(self) -> u32 {
        match self {
            Component::RenderMesh(_) => RENDER_MESH_ID,
            Component::Translation(_) => TRANSLATION_ID,
            Component::Rotation(_) => ROTATION_ID,
            Component::NonUniformScale(_) => NON_UNIFORM_SCALE_ID,
            Component::Transform(_) => TRANSFORM_ID,
            Component::Movement(_) => MOVEMENT_ID,
            Component::PlayerMovement(_) => PLAYER_MOVEMENT_ID,
            Component::Physics(_) => PHYSICS_ID,
        }
    }

    /// Whether two components are of the same kind.
    pub open spec fn same_kind(self, other: Component) -> bool {
        match (self, other) {
            (Component::RenderMesh(_), Component::RenderMesh(_)) => true,
            (Component::Translation(_), Component::Translation(_)) => true,
            (Component::Rotation(_), Component::Rotation(_)) => true,
            (Component::NonUniformScale(_), Component::NonUniformScale(_)) => true,
            (Component::Transform(_), Component::Transform(_)) => true,
            (Component::Movement(_), Component::Movement(_)) => true,
            (Component::PlayerMovement(_), Component::PlayerMovement(_)) => true,
            (Component::Physics(_), Component::Physics(_)) => true,
            _ => false,
        }
    }

    pub fn get_id(&self) -> (id: u32)
        ensures
            id == self.tag(),
    {
        match self {
            Component::RenderMesh(_) => RENDER_MESH_ID,
            Component::Translation(_) => TRANSLATION_ID,
            Component::Rotation(_) => ROTATION_ID,
            Component::NonUniformScale(_) => NON_UNIFORM_SCALE_ID,
            Component::Transform(_) => TRANSFORM_ID,
            Component::Movement(_) => MOVEMENT_ID,
            Component::PlayerMovement(_) => PLAYER_MOVEMENT_ID,
            Component::Physics(_) => PHYSICS_ID,
        }
    }
}

/// Tags identify kinds: two components carry the same tag exactly when they
/// are of the same kind.
pub proof fn lemma_tags_identify_kinds(a: Component, b: Component)
    ensures
        a.tag() == b.tag() <==> a.same_kind(b),
{
}

/// A payload type of exactly one component kind.
pub trait ComponentBase: Sized {
    /// The tag of the kind that holds this payload type.
    spec fn type_tag() -> u32;

    /// The component that holds `self`.
    spec fn wrap(self) -> Component;

    /// The payload of `component`, if its kind holds this payload type.
    spec fn unwrap(component: Component) -> Option<Self>;

    fn get_id(&self) -> (id: u32)
        ensures
            id == Self::type_tag(),
            id == self.wrap().tag(),
    ;

    fn into_component(self) -> (component: Component)
        ensures
            component == self.wrap(),
            component.tag() == Self::type_tag(),
            Self::unwrap(component) == Some(self),
    ;

    /// The payload behind `this`, or nothing if `this` is of another kind.
    fn downcast_ref(this: &Component) -> (payload: Option<&Self>)
        ensures
            match payload {
                Some(p) => Self::unwrap(*this) == Some(*p) && this.tag() == Self::type_tag() && *this == (*p).wrap(),
                None => Self::unwrap(*this) is None && this.tag() != Self::type_tag(),
            },
    ;

    /// Unique access to the payload behind `this`, or nothing, and then no
    /// change, if `this` is of another kind.
    fn downcast_ref_mut(this: &mut Component) -> (payload: Option<&mut Self>)
        ensures
            match payload {
                Some(p) => {
                    &&& Self::unwrap(*old(this)) == Some(*p)
                    &&& *old(this) == (*p).wrap()
                    &&& old(this).tag() == Self::type_tag()
                    &&& *final(this) == (*final(p)).wrap()
                    &&& final(this).tag() == Self::type_tag()
                },
                None => {
                    &&& Self::unwrap(*old(this)) is None
                    &&& old(this).tag() != Self::type_tag()
                    &&& *final(this) == *old(this)
                },
            },
    ;
}

/// The payload behind `this`, if it is a `T`.
pub fn downcast<T: ComponentBase>(this: &Component) -> (payload: Option<&T>)
    ensures
        match payload {
            Some(p) => T::unwrap(*this) == Some(*p) && this.tag() == T::type_tag() && *this == (*p).wrap(),
            None => T::unwrap(*this) is None && this.tag() != T::type_tag(),
        },
{
    T::downcast_ref(this)
}

/// Unique access to the payload behind `this`, if it is a `T`.
pub fn downcast_mut<T: ComponentBase>(this: &mut Component) -> (payload: Option<&mut T>)
    ensures
        match payload {
            Some(p) => {
                &&& T::unwrap(*old(this)) == Some(*p)
                &&& *old(this) == (*p).wrap()
                &&& old(this).tag() == T::type_tag()
                &&& *final(this) == (*final(p)).wrap()
                &&& final(this).tag() == T::type_tag()
            },
            None => {
                &&& T::unwrap(*old(this)) is None
                &&& old(this).tag() != T::type_tag()
                &&& *final(this) == *old(this)
            },
        },
{
    T::downcast_ref_mut(this)
}

impl ComponentBase for RenderMesh {
    open spec fn type_tag() -> u32 {
        RENDER_MESH_ID
    }

    open spec fn wrap(self) -> Component {
        Component::RenderMesh(self)
    }

    open spec fn unwrap(component: Component) -> Option<Self> {
        match component {
            Component::RenderMesh(p) => Some(p),
            _ => None,
        }
    }

    fn get_id(&self) -> (id: u32) {
        RENDER_MESH_ID
    }

    fn into_component(self) -> (component: Component) {
        Component::RenderMesh(self)
    }

    fn downcast_ref(this: &Component) -> (payload: Option<&Self>) {
        match this {
            Component::RenderMesh(p) => Some(p),
            _ => None,
        }
    }

    fn downcast_ref_mut(this: &mut Component) -> (payload: Option<&mut Self>) {
        match this {
            Component::RenderMesh(p) => Some(p),
            _ => None,
        }
    }
}

impl ComponentBase for Translation {
    open spec fn type_tag() -> u32 {
        TRANSLATION_ID
    }

    open spec fn wrap(self) -> Component {
        Component::Translation(self)
    }

    open spec fn unwrap(component: Component) -> Option<Self> {
        match component {
            Component::Translation(p) => Some(p),
            _ => None,
        }
    }

    fn get_id(&self) -> (id: u32) {
        TRANSLATION_ID
    }

    fn into_component(self) -> (component: Component) {
        Component::Translation(self)
    }

    fn downcast_ref(this: &Component) -> (payload: Option<&Self>) {
        match this {
            Component::Translation(p) => Some(p),
            _ => None,
        }
    }

    fn downcast_ref_mut(this: &mut Component) -> (payload: Option<&mut Self>) {
        match this {
            Component::Translation(p) => Some(p),
            _ => None,
        }
    }
}

impl ComponentBase for Rotation {
    open spec fn type_tag() -> u32 {
        ROTATION_ID
    }

    open spec fn wrap(self) -> Component {
        Component::Rotation(self)
    }

    open spec fn unwrap(component: Component) -> Option<Self> {
        match component {
            Component::Rotation(p) => Some(p),
            _ => None,
        }
    }

    fn get_id(&self) -> (id: u32) {
        ROTATION_ID
    }

    fn into_component(self) -> (component: Component) {
        Component::Rotation(self)
    }

    fn downcast_ref(this: &Component) -> (payload: Option<&Self>) {
        match this {
            Component::Rotation(p) => Some(p),
            _ => None,
        }
    }

    fn downcast_ref_mut(this: &mut Component) -> (payload: Option<&mut Self>) {
        match this {
            Component::Rotation(p) => Some(p),
            _ => None,
        }
    }
}

impl ComponentBase for NonUniformScale {
    open spec fn type_tag() -> u32 {
        NON_UNIFORM_SCALE_ID
    }

    open spec fn wrap(self) -> Component {
        Component::NonUniformScale(self)
    }

    open spec fn unwrap(component: Component) -> Option<Self> {
        match component {
            Component::NonUniformScale(p) => Some(p),
            _ => None,
        }
    }

    fn get_id(&self) -> (id: u32) {
        NON_UNIFORM_SCALE_ID
    }

    fn into_component(self) -> (component: Component) {
        Component::NonUniformScale(self)
    }

    fn downcast_ref(this: &Component) -> (payload: Option<&Self>) {
        match this {
            Component::NonUniformScale(p) => Some(p),
            _ => None,
        }
    }

    fn downcast_ref_mut(this: &mut Component) -> (payload: Option<&mut Self>) {
        match this {
            Component::NonUniformScale(p) => Some(p),
            _ => None,
        }
    }
}

impl ComponentBase for Transform {
    open spec fn type_tag() -> u32 {
        TRANSFORM_ID
    }

    open spec fn wrap(self) -> Component {
        Component::Transform(self)
    }

    open spec fn unwrap(component: Component) -> Option<Self> {
        match component {
            Component::Transform(p) => Some(p),
            _ => None,
        }
    }

    fn get_id(&self) -> (id: u32) {
        TRANSFORM_ID
    }

    fn into_component(self) -> (component: Component) {
        Component::Transform(self)
    }

    fn downcast_ref(this: &Component) -> (payload: Option<&Self>) {
        match this {
            Component::Transform(p) => Some(p),
            _ => None,
        }
    }

    fn downcast_ref_mut(this: &mut Component) -> (payload: Option<&mut Self>) {
        match this {
            Component::Transform(p) => Some(p),
            _ => None,
        }
    }
}

impl ComponentBase for MovementComponent {
    open spec fn type_tag() -> u32 {
        MOVEMENT_ID
    }

    open spec fn wrap(self) -> Component {
        Component::Movement(self)
    }

    open spec fn unwrap(component: Component) -> Option<Self> {
        match component {
            Component::Movement(p) => Some(p),
            _ => None,
        }
    }

    fn get_id(&self) -> (id: u32) {
        MOVEMENT_ID
    }

    fn into_component(self) -> (component: Component) {
        Component::Movement(self)
    }

    fn downcast_ref(this: &Component) -> (payload: Option<&Self>) {
        match this {
            Component::Movement(p) => Some(p),
            _ => None,
        }
    }

    fn downcast_ref_mut(this: &mut Component) -> (payload: Option<&mut Self>) {
        match this {
            Component::Movement(p) => Some(p),
            _ => None,
        }
    }
}

impl ComponentBase for PlayerMovementComponent {
    open spec fn type_tag() -> u32 {
        PLAYER_MOVEMENT_ID
    }

    open spec fn wrap(self) -> Component {
        Component::PlayerMovement(self)
    }

    open spec fn unwrap(component: Component) -> Option<Self> {
        match component {
            Component::PlayerMovement(p) => Some(p),
            _ => None,
        }
    }

    fn get_id(&self) -> (id: u32) {
        PLAYER_MOVEMENT_ID
    }

    fn into_component(self) -> (component: Component) {
        Component::PlayerMovement(self)
    }

    fn downcast_ref(this: &Component) -> (payload: Option<&Self>) {
        match this {
            Component::PlayerMovement(p) => Some(p),
            _ => None,
        }
    }

    fn downcast_ref_mut(this: &mut Component) -> (payload: Option<&mut Self>) {
        match this {
            Component::PlayerMovement(p) => Some(p),
            _ => None,
        }
    }
}

impl ComponentBase for PhysicsComponent {
    open spec fn type_tag() -> u32 {
        PHYSICS_ID
    }

    open spec fn wrap(self) -> Component {
        Component::Physics(self)
    }

    open spec fn unwrap(component: Component) -> Option<Self> {
        match component {
            Component::Physics(p) => Some(p),
            _ => None,
        }
    }

    fn get_id(&self) -> (id: u32) {
        PHYSICS_ID
    }

    fn into_component(self) -> (component: Component) {
        Component::Physics(self)
    }

    fn downcast_ref(this: &Component) -> (payload: Option<&Self>) {
        match this {
            Component::Physics(p) => Some(p),
            _ => None,
        }
    }

    fn downcast_ref_mut(this: &mut Component) -> (payload: Option<&mut Self>) {
        match this {
            Component::Physics(p) => Some(p),
            _ => None,
        }
    }
}

/// A component yields a payload of a type exactly when it carries the tag
/// of that type: asking for any other type yields nothing.
pub proof fn lemma_unwrap_matches_tag(c: Component)
    ensures
        (RenderMesh::unwrap(c) is Some) == (c.tag() == RenderMesh::type_tag()),
        (Translation::unwrap(c) is Some) == (c.tag() == Translation::type_tag()),
        (Rotation::unwrap(c) is Some) == (c.tag() == Rotation::type_tag()),
        (NonUniformScale::unwrap(c) is Some) == (c.tag() == NonUniformScale::type_tag()),
        (Transform::unwrap(c) is Some) == (c.tag() == Transform::type_tag()),
        (MovementComponent::unwrap(c) is Some) == (c.tag() == MovementComponent::type_tag()),
        (PlayerMovementComponent::unwrap(c) is Some) == (c.tag() == PlayerMovementComponent::type_tag()),
        (PhysicsComponent::unwrap(c) is Some) == (c.tag() == PhysicsComponent::type_tag()),
{
}

} // verus!

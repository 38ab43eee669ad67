//! Two systems that show what the scene holds, frame by frame: one is handed
//! the meshes, the other the cameras. Neither waits for another system.

use vstd::prelude::*;
use crate::dynamic::ComponentType;

verus! {

/// The identity of a system.
#[derive(Clone, Copy, Debug, PartialEq, Eq, Structural)]
pub struct SystemId(pub u64);

/// The component type of the cameras.
pub fn camera_component() -> (component: ComponentType)
    ensures
        component == ComponentType(2),
{
    ComponentType(2)
}

/// Shows the meshes of each frame.
#[derive(Clone, Copy, Debug)]
pub struct MeshDisplayer {}

impl MeshDisplayer {
    /// The component type whose instances the system is handed: the meshes.
    pub fn alloc_id(&self) -> (component: ComponentType)
        ensures
            component == ComponentType(0),
    {
        crate::def_render::mesh_component()
    }

    /// The systems that must have run before this one: none.
    pub fn dependencies() -> (systems: Vec<SystemId>)
        ensures
            systems@.len() == 0,
    {
        Vec::new()
    }
}

/// Shows the cameras of each frame.
#[derive(Clone, Copy, Debug)]
pub struct CameraDisplayer {}

impl CameraDisplayer {
    /// The component type whose instances the system is handed: the cameras.
    pub fn alloc_id(&self) -> (component: ComponentType)
        ensures
            component == ComponentType(2),
    {
        camera_component()
    }

    /// The systems that must have run before this one: none.
    pub fn dependencies() -> (systems: Vec<SystemId>)
        ensures
            systems@.len() == 0,
    {
        Vec::new()
    }
}

} // verus!

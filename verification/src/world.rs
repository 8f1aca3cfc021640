//! The world locator: one-time-per-session discovery of the object
//! registry, the world object and the primary camera.

use vstd::prelude::*;
use vstd::string::StrSliceExecFns;

use crate::error::DecodeError;
use crate::layout;
use crate::memory::{le_u64_at, read_sequence, read_u64, ForeignMemory};
use crate::unity::find_object;

verus! {

/// The six list heads of the foreign object registry.
#[derive(Clone, Copy, Debug, PartialEq, Eq, Structural)]
pub struct GameObjectManager {
    pub last_tagged_node: u64,
    pub tagged_nodes: u64,
    pub last_main_camera_tagged_node: u64,
    pub main_camera_tagged_nodes: u64,
    pub last_active_node: u64,
    pub active_nodes: u64,
}

/// The session-scoped addresses every refresh cycle starts from.
#[derive(Clone, Copy, Debug, PartialEq, Eq, Structural)]
pub struct WorldState {
    pub gom: GameObjectManager,
    pub world_address: u64,
    pub fps_camera_address: u64,
}

/// Discovers the session addresses: reads the object registry behind the
/// module base, then finds the world object in the active list and the
/// primary camera in the camera list by name.
pub fn get_world_state<M: ForeignMemory>(mem: &M) -> (r: Result<WorldState, DecodeError>)
    ensures
        r matches Err(e) ==> e is ReadFailure || e is LookupFailure,
{
    let gom_ptr = read_u64(mem, mem.base_address())?;
    let bytes = mem.read_bytes(gom_ptr, layout::GOM_SIZE as usize)?;
    let gom = GameObjectManager {
        last_tagged_node: le_u64_at(&bytes, 0),
        tagged_nodes: le_u64_at(&bytes, 8),
        last_main_camera_tagged_node: le_u64_at(&bytes, 16),
        main_camera_tagged_nodes: le_u64_at(&bytes, 24),
        last_active_node: le_u64_at(&bytes, 32),
        active_nodes: le_u64_at(&bytes, 40),
    };

    let world_name = ("GameWorld").as_bytes_vec();
    let world_ptr = find_object(mem, gom.active_nodes, &world_name)?;
    let mut world_chain: Vec<u64> = Vec::new();
    world_chain.push(layout::WORLD_CHAIN_0);
    world_chain.push(layout::WORLD_CHAIN_1);
    world_chain.push(layout::WORLD_CHAIN_2);
    let world = read_sequence(mem, world_ptr, &world_chain)?;

    let camera_name = ("FPS Camera").as_bytes_vec();
    let camera_ptr = find_object(mem, gom.main_camera_tagged_nodes, &camera_name)?;

    Ok(WorldState { world_address: world, gom, fps_camera_address: camera_ptr })
}

} // verus!

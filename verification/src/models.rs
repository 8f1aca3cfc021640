//! The player record: one shared base record with a role-keyed payload.

use vstd::prelude::*;
use vstd::string::StrSliceExecFns;

use crate::camera::{Camera, CameraType, InternalCamera};
use crate::error::DecodeError;
use crate::float_bits::F_ZERO;
use crate::layout;
use crate::maths::Vector3;
use crate::memory::{read_sequence, ForeignMemory};
use crate::player::ProceduralWeaponAnimation;
use crate::unity::find_object;
use crate::world::WorldState;

verus! {

/// The role payload of the locally controlled entity: the captured
/// cameras.
#[derive(Clone, Copy, Debug, PartialEq, Eq)]
pub struct LocalPlayer {
    pub fps_camera: Option<Camera>,
    pub optic_camera: Option<Camera>,
}

#[derive(Clone, Copy, Debug, PartialEq, Eq, Structural)]
pub struct EnemyPlayer {}

#[derive(Clone, Copy, Debug, PartialEq, Eq, Structural)]
pub struct AllyPlayer {}

#[derive(Clone, Copy, Debug, PartialEq, Eq, Structural)]
pub struct ScavPlayer {}

#[derive(Clone, Copy, Debug, PartialEq, Eq, Structural)]
pub struct DeadPlayer {}

/// The role-keyed payload.
#[derive(Clone, Copy, Debug, PartialEq, Eq)]
pub enum PlayerKind {
    Local(LocalPlayer),
    Enemy(EnemyPlayer),
    Ally(AllyPlayer),
    Scav(ScavPlayer),
    Dead(DeadPlayer),
}

/// The role tag, kept beside the payload for cheap dispatch.
#[derive(Clone, Copy, Debug, PartialEq, Eq, Structural)]
pub enum PlayerType {
    Enemy,
    Ally,
    Scav,
    Dead,
    Local,
}

/// One reported player.
#[derive(Clone, Debug, PartialEq, Eq)]
pub struct Player {
    pub address: u64,
    pub name: Vec<u8>,
    pub id: Vec<u8>,
    pub location: Vector3,
    pub direction: u32,
    pub last_aggressor: Option<Vec<u8>>,
    pub is_aiming: bool,
    pub kind: PlayerKind,
    pub player_type: PlayerType,
}

/// Whether two optional aggressor names hold the same text.
pub open spec fn same_aggressor(a: Option<Vec<u8>>, b: Option<Vec<u8>>) -> bool {
    match (a, b) {
        (Option::None, Option::None) => true,
        (Option::Some(x), Option::Some(y)) => x@ == y@,
        _ => false,
    }
}

/// Whether `p` is the minimal record of a dead entity at `location`:
/// every field zeroed or empty except the position.
pub open spec fn spec_dead_player(p: Player, location: Vector3) -> bool {
    &&& p.address == 0
    &&& p.name@ == Seq::<u8>::empty()
    &&& p.id@ == Seq::<u8>::empty()
    &&& p.location == location
    &&& p.direction == F_ZERO
    &&& p.last_aggressor is None
    &&& !p.is_aiming
    &&& p.kind is Dead
    &&& p.player_type is Dead
}

impl Player {
    /// The payload variant agrees with the role tag.
    pub open spec fn well_formed(&self) -> bool {
        match self.kind {
            PlayerKind::Local(_) => self.player_type is Local,
            PlayerKind::Enemy(_) => self.player_type is Enemy,
            PlayerKind::Ally(_) => self.player_type is Ally,
            PlayerKind::Scav(_) => self.player_type is Scav,
            PlayerKind::Dead(_) => self.player_type is Dead,
        }
    }

    /// A record classified as an enemy.
    pub fn new_enemy(
        address: u64,
        name: Vec<u8>,
        id: Vec<u8>,
        location: Vector3,
        direction: u32,
        last_aggressor: Option<Vec<u8>>,
        is_aiming: bool,
    ) -> (r: Player)
        ensures
            r.address == address,
            r.name@ == name@,
            r.id@ == id@,
            r.location == location,
            r.direction == direction,
            same_aggressor(r.last_aggressor, last_aggressor),
            r.is_aiming == is_aiming,
            r.kind is Enemy,
            r.player_type is Enemy,
            r.well_formed(),
    {
        Player {
            address,
            name,
            id,
            location,
            direction,
            last_aggressor,
            is_aiming,
            kind: PlayerKind::Enemy(EnemyPlayer {  }),
            player_type: PlayerType::Enemy,
        }
    }

    /// A record classified as an ally.
    pub fn new_ally(
        address: u64,
        name: Vec<u8>,
        id: Vec<u8>,
        location: Vector3,
        direction: u32,
        last_aggressor: Option<Vec<u8>>,
        is_aiming: bool,
    ) -> (r: Player)
        ensures
            r.address == address,
            r.name@ == name@,
            r.id@ == id@,
            r.location == location,
            r.direction == direction,
            same_aggressor(r.last_aggressor, last_aggressor),
            r.is_aiming == is_aiming,
            r.kind is Ally,
            r.player_type is Ally,
            r.well_formed(),
    {
        Player {
            address,
            name,
            id,
            location,
            direction,
            last_aggressor,
            is_aiming,
            kind: PlayerKind::Ally(AllyPlayer {  }),
            player_type: PlayerType::Ally,
        }
    }

    /// A record classified as a non-human-faction entity.
    pub fn new_scav(
        address: u64,
        name: Vec<u8>,
        id: Vec<u8>,
        location: Vector3,
        direction: u32,
        last_aggressor: Option<Vec<u8>>,
        is_aiming: bool,
    ) -> (r: Player)
        ensures
            r.address == address,
            r.name@ == name@,
            r.id@ == id@,
            r.location == location,
            r.direction == direction,
            same_aggressor(r.last_aggressor, last_aggressor),
            r.is_aiming == is_aiming,
            r.kind is Scav,
            r.player_type is Scav,
            r.well_formed(),
    {
        Player {
            address,
            name,
            id,
            location,
            direction,
            last_aggressor,
            is_aiming,
            kind: PlayerKind::Scav(ScavPlayer {  }),
            player_type: PlayerType::Scav,
        }
    }

    /// The minimal record of a dead entity: only the position is kept.
    pub fn new_dead(location: Vector3) -> (r: Player)
        ensures
            spec_dead_player(r, location),
            r.well_formed(),
    {
        Player {
            address: 0,
            name: Vec::new(),
            id: Vec::new(),
            location,
            direction: F_ZERO,
            last_aggressor: None,
            kind: PlayerKind::Dead(DeadPlayer {  }),
            is_aiming: false,
            player_type: PlayerType::Dead,
        }
    }

    /// The record of the locally controlled entity.  Zeroes the residual
    /// recoil state as a side effect, then captures the primary camera,
    /// and, while aiming, the optic camera found by name in the tagged
    /// object list.
    pub fn new_local<M: ForeignMemory>(
        address: u64,
        name: Vec<u8>,
        id: Vec<u8>,
        location: Vector3,
        direction: u32,
        last_aggressor: Option<Vec<u8>>,
        weapon_animator: ProceduralWeaponAnimation,
        is_aiming: bool,
        game_state: &WorldState,
        mem: &mut M,
    ) -> (r: Result<Player, DecodeError>)
        ensures
            r matches Ok(p) ==> {
                &&& p.address == address
                &&& p.name@ == name@
                &&& p.id@ == id@
                &&& p.location == location
                &&& p.direction == direction
                &&& same_aggressor(p.last_aggressor, last_aggressor)
                &&& p.is_aiming == is_aiming
                &&& p.player_type is Local
                &&& p.well_formed()
                &&& p.kind matches PlayerKind::Local(l) && l.fps_camera is Some && (
                l.fps_camera matches Some(c) ==> c.camera_type is FpsCamera) && (is_aiming
                    <==> l.optic_camera is Some) && (l.optic_camera matches Some(c)
                    ==> c.camera_type is OpticCamera)
            },
    {
        weapon_animator.zero_out_recoil(mem)?;

        let mut camera_chain: Vec<u64> = Vec::new();
        camera_chain.push(layout::CAMERA_CHAIN_0);
        camera_chain.push(layout::CAMERA_CHAIN_1);

        let updated_camera_leadup = read_sequence(mem, game_state.fps_camera_address, &camera_chain)?;
        let updated_camera = InternalCamera { address: updated_camera_leadup };
        let fov = updated_camera.get_fov(mem)?;
        let matrix = updated_camera.get_matrix(mem)?;
        let aspect_ratio = updated_camera.get_aspect_ratio(mem)?;
        let fps_camera = Camera { fov, matrix, aspect_ratio, camera_type: CameraType::FpsCamera };

        let mut optic_camera: Option<Camera> = None;
        if is_aiming {
            let optic_name = ("BaseOpticCamera(Clone)").as_bytes_vec();
            let optic_camera_address = find_object(mem, game_state.gom.tagged_nodes, &optic_name)?;
            let optic_camera_leadup = read_sequence(mem, optic_camera_address, &camera_chain)?;
            let optic_internal = InternalCamera { address: optic_camera_leadup };
            let optic_fov = optic_internal.get_fov(mem)?;
            let optic_matrix = optic_internal.get_matrix(mem)?;
            let optic_aspect_ratio = optic_internal.get_aspect_ratio(mem)?;
            optic_camera = Some(
                Camera {
                    fov: optic_fov,
                    matrix: optic_matrix,
                    aspect_ratio: optic_aspect_ratio,
                    camera_type: CameraType::OpticCamera,
                },
            );
        }

        Ok(
            Player {
                address,
                name,
                id,
                location,
                direction,
                last_aggressor,
                is_aiming,
                player_type: PlayerType::Local,
                kind: PlayerKind::Local(LocalPlayer { fps_camera: Some(fps_camera), optic_camera }),
            },
        )
    }

    /// The local payload, when this record is the local entity.
    pub fn as_local(&self) -> (r: Option<&LocalPlayer>)
        ensures
            r is Some <==> self.kind is Local,
            r matches Some(l) ==> self.kind == PlayerKind::Local(*l),
    {
        match &self.kind {
            PlayerKind::Local(local_player) => Some(local_player),
            _ => None,
        }
    }
}

} // verus!

//! From a foreign player structure to a `Player` record: the full decode,
//! the cheap incremental refresh of an already-known record, and the role
//! classification both share.

use vstd::prelude::*;

use crate::error::DecodeError;
use crate::layout;
use crate::maths::Vector3;
use crate::memory::ForeignMemory;
use crate::models::{same_aggressor, spec_dead_player, Player, PlayerType};
use crate::player::InternalPlayer;
use crate::text::copy_bytes;
use crate::world::WorldState;

verus! {

/// The role of a decoded entity.  The death flag outranks the local flag;
/// the local flag outranks the faction; the non-human faction is a
/// scavenger; everyone else is an enemy.
pub open spec fn spec_classify(is_dead: bool, is_local: bool, side: u32) -> PlayerType {
    if is_dead {
        PlayerType::Dead
    } else if is_local {
        PlayerType::Local
    } else if side == layout::SIDE_NON_HUMAN {
        PlayerType::Scav
    } else {
        PlayerType::Enemy
    }
}

/// Assigns the role of a decoded entity (`spec_classify` states the
/// priority order exactly).
pub fn classify_player(is_dead: bool, is_local: bool, side: u32) -> (r: PlayerType)
    ensures
        r == spec_classify(is_dead, is_local, side),
{
    if is_dead {
        PlayerType::Dead
    } else if is_local {
        PlayerType::Local
    } else if side == layout::SIDE_NON_HUMAN {
        PlayerType::Scav
    } else {
        PlayerType::Enemy
    }
}

/// Decodes the last aggressor's display name, treating any failure along
/// the chain as "no aggressor".  A returned name is a decoded display
/// name, so it holds no zero byte.
pub fn decode_last_aggressor<M: ForeignMemory>(mem: &M, internal_player: &InternalPlayer) -> (r:
    Option<Vec<u8>>)
    ensures
        r matches Some(n) ==> forall|j: int| 0 <= j < n@.len() ==> n@[j] != 0,
{
    let last_aggressor = internal_player.get_last_agressor(mem)?;
    let profile = match last_aggressor.get_profile(mem) {
        Ok(p) => p,
        Err(_) => {
            return None;
        },
    };
    let info = match profile.get_player_info(mem) {
        Ok(i) => i,
        Err(_) => {
            return None;
        },
    };
    match info.get_name(mem) {
        Ok(name) => Some(name),
        Err(_) => None,
    }
}

/// Fully decodes one entity: identity, orientation, position (flipped to
/// the rendering convention), flags, aggressor, and role; a local entity
/// additionally gets its cameras captured and its recoil state zeroed.
pub fn internal_player_to_player<M: ForeignMemory>(
    mem: &mut M,
    player_ptr: u64,
    game_state: &WorldState,
) -> (r: Result<Player, DecodeError>)
    ensures
        r matches Ok(p) ==> p.well_formed(),
{
    let internal_player = InternalPlayer { address: player_ptr };

    let movement_context = internal_player.get_movement_context(mem)?;
    let direction = movement_context.get_degrees(mem)?;

    let player_profile = internal_player.get_profile(mem)?;
    let player_info = player_profile.get_player_info(mem)?;
    let player_body = internal_player.get_body(mem)?;
    let weapon_animator = internal_player.get_procedural_weapon(mem)?;

    let name = player_info.get_name(mem)?;
    let side = player_info.get_side(mem)?;
    let id = player_profile.get_id(mem)?;
    let raw_location = player_body.get_location(mem)?;
    let location = Vector3::flip(raw_location);
    let is_dead = internal_player.is_dead(mem)?;
    let is_local = internal_player.is_local(mem)?;
    let is_aiming = weapon_animator.is_aiming(mem)?;
    let last_aggressor = decode_last_aggressor(mem, &internal_player);

    let player = match classify_player(is_dead, is_local, side) {
        PlayerType::Dead => Player::new_dead(location),
        PlayerType::Local => Player::new_local(
            player_ptr,
            name,
            id,
            location,
            direction,
            last_aggressor,
            weapon_animator,
            is_aiming,
            game_state,
            mem,
        )?,
        PlayerType::Scav => Player::new_scav(
            player_ptr,
            name,
            id,
            location,
            direction,
            last_aggressor,
            is_aiming,
        ),
        PlayerType::Ally => Player::new_ally(
            player_ptr,
            name,
            id,
            location,
            direction,
            last_aggressor,
            is_aiming,
        ),
        PlayerType::Enemy => Player::new_enemy(
            player_ptr,
            name,
            id,
            location,
            direction,
            last_aggressor,
            is_aiming,
        ),
    };

    Ok(player)
}

/// How an incremental refresh relates a new record to the cached one: a
/// death flag that reads true turns the record into the minimal dead
/// record (position preserved, everything else reset); otherwise only the
/// mutable fields change and the identity and role carry over.
pub open spec fn refreshed_from(
    new: Player,
    cached: Player,
    location: Vector3,
    direction: u32,
    aggressor: Option<Vec<u8>>,
    now_dead: bool,
) -> bool {
    if now_dead {
        spec_dead_player(new, location)
    } else {
        &&& new.address == cached.address
        &&& new.name@ == cached.name@
        &&& new.id@ == cached.id@
        &&& new.location == location
        &&& new.direction == direction
        &&& same_aggressor(new.last_aggressor, aggressor)
        &&& new.is_aiming == cached.is_aiming
        &&& new.kind == cached.kind
        &&& new.player_type == cached.player_type
    }
}

/// Builds the refreshed record from the cached one and the freshly read
/// mutable fields (`refreshed_from` states the result exactly).
pub fn apply_incremental(
    cached: &Player,
    location: Vector3,
    direction: u32,
    last_aggressor: Option<Vec<u8>>,
    now_dead: bool,
) -> (r: Player)
    ensures
        refreshed_from(r, *cached, location, direction, last_aggressor, now_dead),
        cached.well_formed() ==> r.well_formed(),
{
    if now_dead {
        Player::new_dead(location)
    } else {
        Player {
            address: cached.address,
            name: copy_bytes(&cached.name),
            id: copy_bytes(&cached.id),
            location,
            direction,
            last_aggressor,
            is_aiming: cached.is_aiming,
            kind: cached.kind,
            player_type: cached.player_type,
        }
    }
}

/// Whether a record could have come out of an incremental refresh of
/// `cached`: either the minimal dead record, or a record with `cached`'s
/// identity and role.
pub open spec fn incrementally_refreshed(new: Player, cached: Player) -> bool {
    ||| spec_dead_player(new, new.location)
    ||| {
        &&& new.address == cached.address
        &&& new.name@ == cached.name@
        &&& new.id@ == cached.id@
        &&& new.kind == cached.kind
        &&& new.player_type == cached.player_type
        &&& new.is_aiming == cached.is_aiming
    }
}

/// Incrementally refreshes one cached record: re-reads only the mutable
/// fields (position, facing, death flag, last aggressor), re-zeroes the
/// local entity's recoil, and never re-resolves identity.
pub fn refresh_player_incremental<M: ForeignMemory>(mem: &mut M, cached: &Player) -> (r: Result<
    Player,
    DecodeError,
>)
    ensures
        r matches Ok(p) ==> incrementally_refreshed(p, *cached),
        r matches Ok(p) ==> cached.well_formed() ==> p.well_formed(),
{
    let internal_player = InternalPlayer { address: cached.address };

    let movement_context = internal_player.get_movement_context(mem)?;
    let direction = movement_context.get_degrees(mem)?;
    let player_body = internal_player.get_body(mem)?;
    let raw_location = player_body.get_location(mem)?;
    let location = Vector3::flip(raw_location);
    let is_dead = internal_player.is_dead(mem)?;
    let last_aggressor = decode_last_aggressor(mem, &internal_player);

    if cached.player_type == PlayerType::Local {
        let weapon_animator = internal_player.get_procedural_weapon(mem)?;
        weapon_animator.zero_out_recoil(mem)?;
    }

    Ok(apply_incremental(cached, location, direction, last_aggressor, is_dead))
}

} // verus!

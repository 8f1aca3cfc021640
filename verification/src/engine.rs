//! The snapshot engine: per-cycle enumeration of the entity lists, the
//! full/incremental refresh decision, and the thermal toggle.
//!
//! A refresh is all-or-nothing: one entity's failed decode fails the whole
//! cycle, and the caller retries on the next polling tick.

use vstd::prelude::*;
use vstd::string::StrSliceExecFns;

use crate::error::DecodeError;
use crate::item::{corpse_id, corpse_name, corpse_name_synthesized, is_denied_name,
    spec_is_denied, InternalItem, Item};
use crate::layout;
use crate::mappers::{incrementally_refreshed, internal_player_to_player,
    refresh_player_incremental};
use crate::memory::{offset_addr, read_u32, read_u64, write_u32, write_u8, ForeignMemory};
use crate::models::Player;
use crate::text::{bytes_equal, contains_ignore_ascii_case};
use crate::unity::get_components;
use crate::world::{get_world_state, WorldState};

verus! {

/// Decodes one entry of the foreign item list, rejecting deny-listed
/// names: chains through the interactive wrapper to the item, its
/// template and its owning game object, resolves the position, and reads
/// the display name — or synthesizes it, for the generic corpse
/// container's identifier.
pub fn decode_item<M: ForeignMemory>(mem: &M, entity_address: u64) -> (r: Result<
    Item,
    DecodeError,
>)
    ensures
        r matches Ok(it) ==> !spec_is_denied(it.name@),
        r matches Ok(it) ==> corpse_name_synthesized(it.id@, it.name@),
        r matches Err(e) ==> e is ReadFailure || e is SizeSanityViolation || e is DecodeRejected,
{
    let unknown_ptr = read_u64(mem, offset_addr(entity_address, layout::OFF_ENTITY_UNKNOWN)?)?;
    let interactive_class = read_u64(
        mem,
        offset_addr(unknown_ptr, layout::OFF_UNKNOWN_INTERACTIVE)?,
    )?;
    let base_object = read_u64(
        mem,
        offset_addr(interactive_class, layout::OFF_INTERACTIVE_BASE_OBJECT)?,
    )?;
    let game_object_address = read_u64(
        mem,
        offset_addr(base_object, layout::OFF_BASE_OBJECT_GAME_OBJECT)?,
    )?;
    let item_address = read_u64(
        mem,
        offset_addr(interactive_class, layout::OFF_INTERACTIVE_ITEM)?,
    )?;
    let item_template = read_u64(mem, offset_addr(item_address, layout::OFF_ITEM_TEMPLATE)?)?;

    let internal = InternalItem {
        address: item_address,
        template_address: item_template,
        game_object_address,
    };

    let location = internal.get_location(mem)?;
    let id = internal.get_id(mem)?;
    let name = if bytes_equal(&id, &corpse_id()) {
        corpse_name()
    } else {
        internal.get_name(mem)?
    };

    if is_denied_name(&name) {
        return Err(DecodeError::DecodeRejected);
    }

    Ok(Item { address: item_address, name, location, id })
}

/// The decode engine: the memory capability plus the session addresses.
pub struct MemoryOperations<M: ForeignMemory> {
    pub memory: M,
    pub game_state: WorldState,
}

impl<M: ForeignMemory> MemoryOperations<M> {
    /// Opens a session: discovers the world state once, and keeps the
    /// capability for every later cycle.
    pub fn new(memory: M) -> (r: Result<MemoryOperations<M>, DecodeError>)
        ensures
            r matches Ok(ops) ==> ops.memory == memory,
            r matches Err(e) ==> e is ReadFailure || e is LookupFailure,
    {
        let game_state = get_world_state(&memory)?;
        Ok(MemoryOperations { memory, game_state })
    }

    /// The full refresh path: enumerates `current_length` pointer slots
    /// from the list's backing array and fully decodes every entity.
    ///
    /// A successful full refresh returns exactly one record per reported
    /// slot: `len(output) == current_length`.  A reported length of zero
    /// asks for no reads at all, so it always succeeds, with the empty
    /// collection.
    pub fn refresh_players_full(&mut self, current_length: usize, list_base: u64) -> (r: Result<
        Vec<Player>,
        DecodeError,
    >)
        requires
            current_length <= 0x8000_0000,
        ensures
            current_length == 0 ==> r is Ok,
            r matches Ok(v) ==> v@.len() == current_length,
            r matches Ok(v) ==> forall|i: int|
                0 <= i < v@.len() ==> (#[trigger] v@[i]).well_formed(),
    {
        let mut players: Vec<Player> = Vec::new();
        let mut i: usize = 0;
        while i < current_length
            invariant
                current_length <= 0x8000_0000,
                i <= current_length,
                players@.len() == i,
                forall|k: int| 0 <= k < i ==> (#[trigger] players@[k]).well_formed(),
            decreases current_length - i,
        {
            let slot = offset_addr(list_base, (i as u64) * layout::POINTER_STRIDE)?;
            let player_ptr = read_u64(&self.memory, slot)?;
            let player = internal_player_to_player(&mut self.memory, player_ptr, &self.game_state)?;
            players.push(player);
            i = i + 1;
        }
        Ok(players)
    }

    /// The incremental refresh path: re-decodes only the mutable fields of
    /// each previously known record, keeping identity and role, except
    /// that a death flag reading true resets the record to the minimal
    /// dead record with its position preserved.
    ///
    /// A successful incremental refresh never changes the collection's
    /// size: `len(output) == len(previous)`.  An empty previous collection
    /// asks for no reads at all, so it always succeeds, with the empty
    /// collection.
    pub fn refresh_players_incremental(&mut self, old_players: &Vec<Player>) -> (r: Result<
        Vec<Player>,
        DecodeError,
    >)
        ensures
            old_players@.len() == 0 ==> r is Ok,
            r matches Ok(v) ==> v@.len() == old_players@.len(),
            r matches Ok(v) ==> forall|i: int|
                0 <= i < v@.len() ==> incrementally_refreshed(#[trigger] v@[i], old_players@[i]),
            r matches Ok(v) ==> forall|i: int|
                0 <= i < v@.len() ==> old_players@[i].well_formed() ==> (
                #[trigger] v@[i]).well_formed(),
    {
        let count = old_players.len();
        let mut players: Vec<Player> = Vec::new();
        let mut i: usize = 0;
        while i < count
            invariant
                count == old_players@.len(),
                i <= count,
                players@.len() == i,
                forall|k: int|
                    0 <= k < i ==> incrementally_refreshed(
                        #[trigger] players@[k],
                        old_players@[k],
                    ),
                forall|k: int|
                    0 <= k < i ==> old_players@[k].well_formed() ==> (
                    #[trigger] players@[k]).well_formed(),
            decreases count - i,
        {
            let refreshed = refresh_player_incremental(&mut self.memory, &old_players[i])?;
            players.push(refreshed);
            i = i + 1;
        }
        Ok(players)
    }

    /// One refresh cycle over the player list.  Reads the foreign list's
    /// reported length; when it matches the cached collection's size the
    /// cheap incremental path runs, otherwise the whole collection is
    /// re-enumerated and decoded from scratch.  One failed decode fails
    /// the whole cycle.
    pub fn update_players(&mut self, old_players: &Vec<Player>) -> (r: Result<
        Vec<Player>,
        DecodeError,
    >)
        requires
            forall|i: int|
                0 <= i < old_players@.len() ==> (#[trigger] old_players@[i]).well_formed(),
        ensures
            r matches Ok(v) ==> forall|i: int|
                0 <= i < v@.len() ==> (#[trigger] v@[i]).well_formed(),
    {
        let player_list = read_u64(
            &self.memory,
            offset_addr(self.game_state.world_address, layout::OFF_WORLD_PLAYER_LIST)?,
        )?;
        let player_list_length = read_u32(
            &self.memory,
            offset_addr(player_list, layout::OFF_LIST_LENGTH)?,
        )?;
        let array_ptr = read_u64(&self.memory, offset_addr(player_list, layout::OFF_LIST_BASE)?)?;
        let player_list_base = offset_addr(array_ptr, layout::OFF_ARRAY_FIRST_SLOT)?;

        // A length with the high bit set is a negative count: no slots.
        let current_length: usize = if player_list_length >= 0x8000_0000u32 {
            0
        } else {
            player_list_length as usize
        };

        if current_length == old_players.len() {
            self.refresh_players_incremental(old_players)
        } else {
            self.refresh_players_full(current_length, player_list_base)
        }
    }

    /// One refresh cycle over the item list.  The previous collection is
    /// not consulted: the list is always re-enumerated in full.  A
    /// deny-listed name fails the whole cycle, so no reported item ever
    /// carries one.
    pub fn update_items(&self, _old_items: &Vec<Item>) -> (r: Result<Vec<Item>, DecodeError>)
        ensures
            r matches Ok(v) ==> forall|i: int|
                0 <= i < v@.len() ==> !spec_is_denied((#[trigger] v@[i]).name@),
            r matches Ok(v) ==> forall|i: int|
                0 <= i < v@.len() ==> corpse_name_synthesized(
                    (#[trigger] v@[i]).id@,
                    v@[i].name@,
                ),
            r matches Err(e) ==> e is ReadFailure || e is SizeSanityViolation
                || e is DecodeRejected,
    {
        let item_list = read_u64(
            &self.memory,
            offset_addr(self.game_state.world_address, layout::OFF_WORLD_ITEM_LIST)?,
        )?;
        let item_list_length = read_u32(
            &self.memory,
            offset_addr(item_list, layout::OFF_LIST_LENGTH)?,
        )?;
        let array_ptr = read_u64(&self.memory, offset_addr(item_list, layout::OFF_LIST_BASE)?)?;
        let item_list_base = offset_addr(array_ptr, layout::OFF_ARRAY_FIRST_SLOT)?;

        let current_length: usize = if item_list_length >= 0x8000_0000u32 {
            0
        } else {
            item_list_length as usize
        };

        let mut items: Vec<Item> = Vec::new();
        let mut i: usize = 0;
        while i < current_length
            invariant
                current_length <= 0x8000_0000,
                i <= current_length,
                items@.len() == i,
                forall|k: int| 0 <= k < i ==> !spec_is_denied((#[trigger] items@[k]).name@),
                forall|k: int|
                    0 <= k < i ==> corpse_name_synthesized(
                        (#[trigger] items@[k]).id@,
                        items@[k].name@,
                    ),
            decreases current_length - i,
        {
            let slot = offset_addr(item_list_base, (i as u64) * layout::POINTER_STRIDE)?;
            let entity_address = read_u64(&self.memory, slot)?;
            let item = decode_item(&self.memory, entity_address)?;
            items.push(item);
            i = i + 1;
        }
        Ok(items)
    }

    /// Flips the thermal-vision component of the primary camera: finds the
    /// component by name, programs its options, writes the passed state
    /// several times (the driver latches it reliably only after redundant
    /// writes), and returns the flipped state.
    pub fn toggle_thermal(&mut self, thermal_state: &bool) -> (r: Result<bool, DecodeError>)
        ensures
            r matches Ok(b) ==> b == !*thermal_state,
    {
        let components = get_components(&self.memory, self.game_state.fps_camera_address)?;
        let needle = ("thermalvision").as_bytes_vec();

        let n = components.len();
        let mut thermal: u64 = 0;
        let mut found = false;
        let mut i: usize = 0;
        while i < n
            invariant
                n == components@.len(),
                i <= n,
            decreases n - i,
        {
            if !found && contains_ignore_ascii_case(&components[i].name, &needle) {
                thermal = components[i].address;
                found = true;
            }
            i = i + 1;
        }
        if !found {
            return Err(DecodeError::LookupFailure);
        }

        let pixel_opts = read_u64(
            &self.memory,
            offset_addr(thermal, layout::OFF_THERMAL_PIXEL_OPTS)?,
        )?;
        write_u32(&mut self.memory, offset_addr(pixel_opts, layout::OFF_PIXEL_MAIN_TEX)?, 1)?;
        write_u32(&mut self.memory, offset_addr(pixel_opts, layout::OFF_PIXEL_RATIO)?, 0)?;

        let fps_opts = read_u64(
            &self.memory,
            offset_addr(thermal, layout::OFF_THERMAL_FPS_OPTS)?,
        )?;
        write_u32(
            &mut self.memory,
            offset_addr(fps_opts, layout::OFF_FPS_VALUE)?,
            layout::THERMAL_FPS_VALUE,
        )?;

        let state_byte: u8 = if *thermal_state {
            1
        } else {
            0
        };
        let state_address = offset_addr(thermal, layout::OFF_THERMAL_STATE)?;
        let mut repeat: usize = 0;
        while repeat < layout::THERMAL_WRITE_REPEATS
            decreases layout::THERMAL_WRITE_REPEATS - repeat,
        {
            write_u8(&mut self.memory, state_address, state_byte)?;
            repeat = repeat + 1;
        }

        Ok(!*thermal_state)
    }
}

} // verus!

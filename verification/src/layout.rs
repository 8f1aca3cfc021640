//! The byte-offset tables of the observed process's in-memory layout.
//!
//! Pure data, versioned per external-target build: changing the target's
//! build means updating this table, not the algorithms.  All offsets are
//! relative to the base address of the structure named in the constant.

use vstd::prelude::*;

verus! {

// --- session roots -------------------------------------------------------

/// In the object manager: start of a linked object node list (one of the
/// six list heads; the whole manager is six pointers).
pub const GOM_SIZE: u64 = 0x30;

/// Pointer chain from the world object node to the world state.
pub const WORLD_CHAIN_0: u64 = 0x30;

pub const WORLD_CHAIN_1: u64 = 0x18;

pub const WORLD_CHAIN_2: u64 = 0x28;

// --- tagged object nodes -------------------------------------------------

/// In a list node: the previous node link.
pub const OFF_NODE_PREVIOUS: u64 = 0x00;

/// In a list node: the next node link.
pub const OFF_NODE_NEXT: u64 = 0x08;

/// In a list node: the object the node tags.
pub const OFF_NODE_OBJECT: u64 = 0x10;

/// In a tagged object: pointer to its display name.
pub const OFF_OBJECT_NAME: u64 = 0x60;

/// In a game object: its component array.
pub const OFF_OBJECT_COMPONENTS: u64 = 0x30;

/// In a component slot: the component pointer (each slot is 16 bytes).
pub const COMPONENT_SLOT_STRIDE: u64 = 0x10;

pub const OFF_COMPONENT_IN_SLOT: u64 = 0x8;

/// In a component: its class pointer.
pub const OFF_COMPONENT_CLASS: u64 = 0x28;

/// In a class (after two more pointer hops): name and namespace pointers.
pub const OFF_CLASS_NAME: u64 = 0x48;

pub const OFF_CLASS_NAMESPACE: u64 = 0x50;

// --- entity lists in the world object ------------------------------------

/// In the world state: the registered player list.
pub const OFF_WORLD_PLAYER_LIST: u64 = 0x88;

/// In the world state: the loose item list.
pub const OFF_WORLD_ITEM_LIST: u64 = 0x68;

/// In a managed list object: the element count (32-bit).
pub const OFF_LIST_LENGTH: u64 = 0x18;

/// In a managed list object: the backing array; elements start 0x20 into it.
pub const OFF_LIST_BASE: u64 = 0x10;

pub const OFF_ARRAY_FIRST_SLOT: u64 = 0x20;

pub const POINTER_STRIDE: u64 = 0x8;

// --- players ---------------------------------------------------------------

pub const OFF_PLAYER_MOVEMENT_CONTEXT: u64 = 0x40;

pub const OFF_PLAYER_BODY: u64 = 0xA8;

pub const OFF_PLAYER_PROCEDURAL_WEAPON: u64 = 0x198;

pub const OFF_PLAYER_LAST_AGGRESSOR: u64 = 0x340;

pub const OFF_PLAYER_PROFILE: u64 = 0x4F0;

pub const OFF_PLAYER_IS_DEAD: u64 = 0x6D0;

pub const OFF_PLAYER_IS_LOCAL: u64 = 0x807;

pub const OFF_PROFILE_INFO: u64 = 0x28;

pub const OFF_PROFILE_ID: u64 = 0x18;

pub const OFF_INFO_NAME: u64 = 0x10;

/// In the player info: the faction ("side") code (32-bit).
pub const OFF_INFO_SIDE: u64 = 0x68;

pub const OFF_INFO_REGISTRATION_DATE: u64 = 0x6C;

/// The side code of the non-human faction, whose name is synthesized.
pub const SIDE_NON_HUMAN: u32 = 4;

pub const OFF_MOVEMENT_DEGREES: u64 = 0x22C;

// --- weapon animation -------------------------------------------------------

pub const OFF_WEAPON_BREATH: u64 = 0x28;

pub const OFF_WEAPON_WALK: u64 = 0x30;

pub const OFF_WEAPON_MOTION: u64 = 0x38;

pub const OFF_WEAPON_SHOOT: u64 = 0x48;

pub const OFF_BREATH_RECOIL: u64 = 0xA4;

pub const OFF_BREATH_IS_AIMING: u64 = 0xA0;

pub const OFF_WALK_RECOIL_0: u64 = 0x40;

pub const OFF_WALK_RECOIL_1: u64 = 0x44;

pub const OFF_MOTION_RECOIL: u64 = 0xD0;

pub const OFF_SHOOT_RECOIL_0: u64 = 0x40;

pub const OFF_SHOOT_RECOIL_1: u64 = 0x48;

// --- bodies and transforms ---------------------------------------------------

/// In the player body: the skeleton container.
pub const OFF_BODY_SKELETON: u64 = 0x28;

/// In the skeleton container: the bone transform values.
pub const OFF_SKELETON_VALUES: u64 = 0x28;

/// Pointer chain from the values object to the bone transform array.
pub const BONE_ARRAY_CHAIN_0: u64 = 0x10;

/// In the bone transform array: the first transform; one pointer per bone.
pub const OFF_BONE_ARRAY_FIRST: u64 = 0x20;

/// In a transform: the internal transform data.
pub const OFF_TRANSFORM_INTERNAL: u64 = 0x10;

/// In the internal transform data: the matrix table and the leaf index
/// (32-bit, negative when absent).
pub const OFF_TRANSFORM_MATRIX_TABLE: u64 = 0x38;

pub const OFF_TRANSFORM_INDEX: u64 = 0x40;

/// In the matrix table: the matrix buffer and the parallel parent-index
/// buffer.
pub const OFF_MATRIX_BUFFER: u64 = 0x18;

pub const OFF_PARENT_INDEX_BUFFER: u64 = 0x20;

/// Bytes of one 3x4 bone matrix in the buffer.
pub const BONE_MATRIX_STRIDE: usize = 48;

/// Bytes of one parent index in the buffer.
pub const PARENT_INDEX_STRIDE: usize = 4;

/// The ceiling on either buffer size implied by the leaf index; a larger
/// implied read means a corrupt or stale index.
pub const TRANSFORM_SIZE_CEILING: usize = 1_000_000;

/// The most parent links one resolution will follow before treating the
/// chain as corrupt (a cyclic table would otherwise never terminate).
pub const CHAIN_STEP_CEILING: usize = 1_000_000;

/// The most nodes one name search will visit before giving up.
pub const LIST_SCAN_CEILING: usize = 1_000_000;

/// The most component slots one scan will read; a larger count is treated
/// as a corrupt array.
pub const COMPONENT_COUNT_CEILING: u64 = 100_000;

// --- cameras ------------------------------------------------------------------

/// Pointer chain from a camera object to its internal camera.
pub const CAMERA_CHAIN_0: u64 = 0x30;

pub const CAMERA_CHAIN_1: u64 = 0x18;

pub const OFF_CAMERA_MATRIX: u64 = 0xDC;

pub const OFF_CAMERA_FOV: u64 = 0x15C;

pub const OFF_CAMERA_ASPECT_RATIO: u64 = 0x4C8;

// --- items ---------------------------------------------------------------------

/// Chain from an item list entry to the interactive wrapper and onward.
pub const OFF_ENTITY_UNKNOWN: u64 = 0x10;

pub const OFF_UNKNOWN_INTERACTIVE: u64 = 0x28;

pub const OFF_INTERACTIVE_BASE_OBJECT: u64 = 0x10;

pub const OFF_BASE_OBJECT_GAME_OBJECT: u64 = 0x30;

pub const OFF_INTERACTIVE_ITEM: u64 = 0x50;

pub const OFF_ITEM_TEMPLATE: u64 = 0x40;

pub const OFF_TEMPLATE_RARITY: u64 = 0xC4;

pub const OFF_TEMPLATE_ID: u64 = 0x50;

pub const OFF_GAME_OBJECT_NAME: u64 = 0x60;

/// Chain from a game object to the transform its position lives in.
pub const ITEM_LOCATION_CHAIN_0: u64 = 0x30;

pub const ITEM_LOCATION_CHAIN_1: u64 = 0x8;

pub const ITEM_LOCATION_CHAIN_2: u64 = 0x28;

// --- unity strings ----------------------------------------------------------------

/// A managed string header: 32-bit length, then the character data pointer.
pub const OFF_STRING_LENGTH: u64 = 0x10;

pub const OFF_STRING_DATA: u64 = 0x28;

pub const UNITY_STRING_HEADER: usize = 0x30;

/// The longest raw name read for an object or an item.
pub const NAME_READ_LIMIT: usize = 128;

// --- thermal component ---------------------------------------------------------------

pub const OFF_THERMAL_PIXEL_OPTS: u64 = 0x38;

pub const OFF_PIXEL_MAIN_TEX: u64 = 0x20;

pub const OFF_PIXEL_RATIO: u64 = 0x28;

pub const OFF_THERMAL_FPS_OPTS: u64 = 0x20;

pub const OFF_FPS_VALUE: u64 = 0x14;

pub const THERMAL_FPS_VALUE: u32 = 144;

pub const OFF_THERMAL_STATE: u64 = 0xE0;

/// The driver latches the state reliably only after several redundant
/// writes of the same value.
pub const THERMAL_WRITE_REPEATS: usize = 4;

} // verus!

//! The player decoder: address-tagged handles over the foreign player
//! structure and its sub-objects.

use vstd::prelude::*;
use vstd::string::{StrSliceExecFns, StringSliceAdditionalSpecFns};
use vstd::utf8::{encode_utf8, is_ascii_chars, is_ascii_chars_encode_utf8};

use crate::error::DecodeError;
use crate::float_bits::{add_bits, div_bits, lt_bits, mul_bits, f32_add, f32_div, f32_lt,
    f32_mul, F_DEG_180, F_DEG_360, F_PI, F_ZERO};
use crate::layout;
use crate::maths::Vector3;
use crate::memory::{offset_addr, read_flag, read_sequence, read_u32, read_u64, write_u64,
    ForeignMemory};
use crate::unity::transform_to_world_space;
use crate::unitystring::read_unity_string;

verus! {

/// A facing angle in degrees, as read, turned into radians: a negative
/// angle is first wrapped by a full turn, then the angle is scaled by
/// pi over 180, each step one rounded operation.
pub open spec fn direction_radians_bits(angle: u32) -> u32 {
    if lt_bits(angle, F_ZERO) {
        div_bits(mul_bits(add_bits(F_DEG_360, angle), F_PI), F_DEG_180)
    } else {
        div_bits(mul_bits(angle, F_PI), F_DEG_180)
    }
}

/// Turns a facing angle in degrees into radians, wrapping negative angles
/// by a full turn first.
pub fn convert_direction(angle: u32) -> (r: u32)
    ensures
        r == direction_radians_bits(angle),
{
    if f32_lt(angle, F_ZERO) {
        f32_div(f32_mul(f32_add(F_DEG_360, angle), F_PI), F_DEG_180)
    } else {
        f32_div(f32_mul(angle, F_PI), F_DEG_180)
    }
}

/// The name synthesized for a non-human-faction entity: a never-registered
/// profile is an automaton, a registered one a player borrowing the
/// faction.
pub open spec fn spec_scav_name(registration_date: u64) -> Seq<u8> {
    if registration_date == 0 {
        ("Bot Scav").spec_bytes()
    } else {
        ("Player Scav").spec_bytes()
    }
}

/// Neither synthesized name holds a zero byte.
pub proof fn lemma_scav_name_clean(registration_date: u64)
    ensures
        forall|j: int|
            0 <= j < spec_scav_name(registration_date).len() ==> spec_scav_name(
                registration_date,
            )[j] != 0,
{
    reveal_strlit("Bot Scav");
    reveal_strlit("Player Scav");
    let b = ("Bot Scav")@;
    let p = ("Player Scav")@;
    assert(b =~= seq!['B', 'o', 't', ' ', 'S', 'c', 'a', 'v']);
    assert(p =~= seq!['P', 'l', 'a', 'y', 'e', 'r', ' ', 'S', 'c', 'a', 'v']);
    assert(is_ascii_chars(b));
    assert(is_ascii_chars(p));
    is_ascii_chars_encode_utf8(b);
    is_ascii_chars_encode_utf8(p);
    assert forall|j: int| 0 <= j < encode_utf8(b).len() implies encode_utf8(b)[j] != 0 by {
        assert(encode_utf8(b)[j] == b[j] as u8);
    }
    assert forall|j: int| 0 <= j < encode_utf8(p).len() implies encode_utf8(p)[j] != 0 by {
        assert(encode_utf8(p)[j] == p[j] as u8);
    }
}

/// A handle on one player structure.
#[derive(Clone, Copy, Debug, PartialEq, Eq, Structural)]
pub struct InternalPlayer {
    pub address: u64,
}

impl InternalPlayer {
    /// Reads the death flag.
    pub fn is_dead<M: ForeignMemory>(&self, mem: &M) -> (r: Result<bool, DecodeError>)
        ensures
            r matches Err(e) ==> e is ReadFailure,
    {
        read_flag(mem, offset_addr(self.address, layout::OFF_PLAYER_IS_DEAD)?)
    }

    /// Reads the local-entity flag.
    pub fn is_local<M: ForeignMemory>(&self, mem: &M) -> (r: Result<bool, DecodeError>)
        ensures
            r matches Err(e) ==> e is ReadFailure,
    {
        read_flag(mem, offset_addr(self.address, layout::OFF_PLAYER_IS_LOCAL)?)
    }

    /// Follows the movement/orientation sub-object.
    pub fn get_movement_context<M: ForeignMemory>(&self, mem: &M) -> (r: Result<
        MovementContext,
        DecodeError,
    >)
        ensures
            r matches Err(e) ==> e is ReadFailure,
    {
        let ptr = read_u64(mem, offset_addr(self.address, layout::OFF_PLAYER_MOVEMENT_CONTEXT)?)?;
        Ok(MovementContext { address: ptr })
    }

    /// Follows the body sub-object.
    pub fn get_body<M: ForeignMemory>(&self, mem: &M) -> (r: Result<PlayerBody, DecodeError>)
        ensures
            r matches Err(e) ==> e is ReadFailure,
    {
        let ptr = read_u64(mem, offset_addr(self.address, layout::OFF_PLAYER_BODY)?)?;
        Ok(PlayerBody { address: ptr })
    }

    /// Follows the weapon-animation sub-object.
    pub fn get_procedural_weapon<M: ForeignMemory>(&self, mem: &M) -> (r: Result<
        ProceduralWeaponAnimation,
        DecodeError,
    >)
        ensures
            r matches Err(e) ==> e is ReadFailure,
    {
        let ptr = read_u64(
            mem,
            offset_addr(self.address, layout::OFF_PLAYER_PROCEDURAL_WEAPON)?,
        )?;
        Ok(ProceduralWeaponAnimation { address: ptr })
    }

    /// Follows the optional last-aggressor pointer: absent when the pointer
    /// is zero or cannot be read, so a returned handle is never null.
    pub fn get_last_agressor<M: ForeignMemory>(&self, mem: &M) -> (r: Option<InternalPlayer>)
        ensures
            r matches Some(p) ==> p.address != 0,
    {
        let slot = match offset_addr(self.address, layout::OFF_PLAYER_LAST_AGGRESSOR) {
            Ok(a) => a,
            Err(_) => {
                return None;
            },
        };
        let ptr = match read_u64(mem, slot) {
            Ok(p) => p,
            Err(_) => {
                return None;
            },
        };
        if ptr == 0 {
            return None;
        }
        Some(InternalPlayer { address: ptr })
    }

    /// Follows the profile sub-object.
    pub fn get_profile<M: ForeignMemory>(&self, mem: &M) -> (r: Result<PlayerProfile, DecodeError>)
        ensures
            r matches Err(e) ==> e is ReadFailure,
    {
        let ptr = read_u64(mem, offset_addr(self.address, layout::OFF_PLAYER_PROFILE)?)?;
        Ok(PlayerProfile { address: ptr })
    }
}

/// A handle on one player profile.
#[derive(Clone, Copy, Debug, PartialEq, Eq, Structural)]
pub struct PlayerProfile {
    pub address: u64,
}

impl PlayerProfile {
    /// Follows the player-info sub-object.
    pub fn get_player_info<M: ForeignMemory>(&self, mem: &M) -> (r: Result<
        PlayerInfo,
        DecodeError,
    >)
        ensures
            r matches Err(e) ==> e is ReadFailure,
    {
        let ptr = read_u64(mem, offset_addr(self.address, layout::OFF_PROFILE_INFO)?)?;
        Ok(PlayerInfo { address: ptr })
    }

    /// Reads the stable identifier string.
    pub fn get_id<M: ForeignMemory>(&self, mem: &M) -> (r: Result<Vec<u8>, DecodeError>)
        ensures
            r matches Err(e) ==> e is ReadFailure || e is SizeSanityViolation,
    {
        let ptr = read_u64(mem, offset_addr(self.address, layout::OFF_PROFILE_ID)?)?;
        read_unity_string(mem, ptr)
    }
}

/// A handle on one player-info record.
#[derive(Clone, Copy, Debug, PartialEq, Eq, Structural)]
pub struct PlayerInfo {
    pub address: u64,
}

impl PlayerInfo {
    /// Reads the faction ("side") code.
    pub fn get_side<M: ForeignMemory>(&self, mem: &M) -> (r: Result<u32, DecodeError>)
        ensures
            r matches Err(e) ==> e is ReadFailure,
    {
        read_u32(mem, offset_addr(self.address, layout::OFF_INFO_SIDE)?)
    }

    /// Reads the display name.  For the non-human faction the name pointer
    /// is not followed; a name is synthesized from the registration date
    /// instead (`spec_scav_name`).  Either way the name holds no zero
    /// byte.
    pub fn get_name<M: ForeignMemory>(&self, mem: &M) -> (r: Result<Vec<u8>, DecodeError>)
        ensures
            r matches Ok(v) ==> forall|j: int| 0 <= j < v@.len() ==> v@[j] != 0,
            r matches Err(e) ==> e is ReadFailure || e is SizeSanityViolation,
    {
        let name_ptr = read_u64(mem, offset_addr(self.address, layout::OFF_INFO_NAME)?)?;
        let side = read_u32(mem, offset_addr(self.address, layout::OFF_INFO_SIDE)?)?;
        let registration_date = read_u64(
            mem,
            offset_addr(self.address, layout::OFF_INFO_REGISTRATION_DATE)?,
        )?;
        if side == layout::SIDE_NON_HUMAN {
            proof {
                lemma_scav_name_clean(registration_date);
            }
            return Ok(scav_name(registration_date));
        }
        read_unity_string(mem, name_ptr)
    }
}

/// Synthesizes the display name of a non-human-faction entity.
pub fn scav_name(registration_date: u64) -> (r: Vec<u8>)
    ensures
        r@ == spec_scav_name(registration_date),
{
    if registration_date == 0 {
        ("Bot Scav").as_bytes_vec()
    } else {
        ("Player Scav").as_bytes_vec()
    }
}

/// A handle on one movement/orientation context.
#[derive(Clone, Copy, Debug, PartialEq, Eq, Structural)]
pub struct MovementContext {
    pub address: u64,
}

impl MovementContext {
    /// Reads the facing angle and converts it to radians
    /// (`direction_radians_bits` states the conversion exactly).
    pub fn get_degrees<M: ForeignMemory>(&self, mem: &M) -> (r: Result<u32, DecodeError>)
        ensures
            r matches Err(e) ==> e is ReadFailure,
    {
        let angle = read_u32(mem, offset_addr(self.address, layout::OFF_MOVEMENT_DEGREES)?)?;
        Ok(convert_direction(angle))
    }
}

/// A handle on one weapon-animation object.
#[derive(Clone, Copy, Debug, PartialEq, Eq, Structural)]
pub struct ProceduralWeaponAnimation {
    pub address: u64,
}

impl ProceduralWeaponAnimation {
    /// Zeroes the residual recoil state: one write of zero into each of the
    /// six recoil accumulators of the four reactor sub-objects.
    pub fn zero_out_recoil<M: ForeignMemory>(&self, mem: &mut M) -> (r: Result<(), DecodeError>)
        ensures
            r matches Err(e) ==> e is ReadFailure,
    {
        let breath_reactor = read_u64(mem, offset_addr(self.address, layout::OFF_WEAPON_BREATH)?)?;
        write_u64(mem, offset_addr(breath_reactor, layout::OFF_BREATH_RECOIL)?, 0)?;

        let walk_reactor = read_u64(mem, offset_addr(self.address, layout::OFF_WEAPON_WALK)?)?;
        write_u64(mem, offset_addr(walk_reactor, layout::OFF_WALK_RECOIL_0)?, 0)?;
        write_u64(mem, offset_addr(walk_reactor, layout::OFF_WALK_RECOIL_1)?, 0)?;

        let motion_reactor = read_u64(mem, offset_addr(self.address, layout::OFF_WEAPON_MOTION)?)?;
        write_u64(mem, offset_addr(motion_reactor, layout::OFF_MOTION_RECOIL)?, 0)?;

        let shoot_reactor = read_u64(mem, offset_addr(self.address, layout::OFF_WEAPON_SHOOT)?)?;
        write_u64(mem, offset_addr(shoot_reactor, layout::OFF_SHOOT_RECOIL_0)?, 0)?;
        write_u64(mem, offset_addr(shoot_reactor, layout::OFF_SHOOT_RECOIL_1)?, 0)?;

        Ok(())
    }

    /// Reads the aiming flag from the breath reactor.
    pub fn is_aiming<M: ForeignMemory>(&self, mem: &M) -> (r: Result<bool, DecodeError>)
        ensures
            r matches Err(e) ==> e is ReadFailure,
    {
        let breath_reactor = read_u64(mem, offset_addr(self.address, layout::OFF_WEAPON_BREATH)?)?;
        read_flag(mem, offset_addr(breath_reactor, layout::OFF_BREATH_IS_AIMING)?)
    }
}

/// A handle on one player body.
#[derive(Clone, Copy, Debug, PartialEq, Eq, Structural)]
pub struct PlayerBody {
    pub address: u64,
}

impl PlayerBody {
    /// Resolves the body's world-space position: follows the skeleton to
    /// the root bone's transform and resolves it
    /// (`transform_to_world_space`).  The position is in the unflipped
    /// bone convention.
    pub fn get_location<M: ForeignMemory>(&self, mem: &M) -> (r: Result<Vector3, DecodeError>)
        ensures
            r matches Err(e) ==> e is ReadFailure || e is SizeSanityViolation,
    {
        let ptr = read_u64(mem, offset_addr(self.address, layout::OFF_BODY_SKELETON)?)?;
        let values = read_u64(mem, offset_addr(ptr, layout::OFF_SKELETON_VALUES)?)?;
        let mut hops: Vec<u64> = Vec::new();
        hops.push(layout::BONE_ARRAY_CHAIN_0);
        let bone_matrix = read_sequence(mem, values, &hops)?;
        let root_slot = offset_addr(
            bone_matrix,
            layout::OFF_BONE_ARRAY_FIRST + Bones::HumanBase.index() * layout::POINTER_STRIDE,
        )?;
        let root_transform = read_u64(mem, root_slot)?;
        transform_to_world_space(mem, root_transform)
    }
}

/// The bone slots of the humanoid skeleton, by their index in the bone
/// transform array.
#[derive(Clone, Copy, Debug, PartialEq, Eq, Structural)]
pub enum Bones {
    HumanBase,
    HumanPelvis,
    HumanLThigh1,
    HumanLThigh2,
    HumanLCalf,
    HumanLFoot,
    HumanLToe,
    HumanRThigh1,
    HumanRThigh2,
    HumanRCalf,
    HumanRFoot,
    HumanRToe,
    HumanSpine1,
    HumanSpine2,
    HumanSpine3,
    HumanLCollarbone,
    HumanLUpperarm,
    HumanLForearm1,
    HumanLForearm2,
    HumanLForearm3,
    HumanLPalm,
    HumanRCollarbone,
    HumanRUpperarm,
    HumanRForearm1,
    HumanRForearm2,
    HumanRForearm3,
    HumanRPalm,
    HumanNeck,
    HumanHead,
}

impl Bones {
    /// The bone's index in the bone transform array.
    pub open spec fn spec_index(&self) -> u64 {
        match self {
            Bones::HumanBase => 0,
            Bones::HumanPelvis => 14,
            Bones::HumanLThigh1 => 15,
            Bones::HumanLThigh2 => 16,
            Bones::HumanLCalf => 17,
            Bones::HumanLFoot => 18,
            Bones::HumanLToe => 19,
            Bones::HumanRThigh1 => 20,
            Bones::HumanRThigh2 => 21,
            Bones::HumanRCalf => 22,
            Bones::HumanRFoot => 23,
            Bones::HumanRToe => 24,
            Bones::HumanSpine1 => 29,
            Bones::HumanSpine2 => 36,
            Bones::HumanSpine3 => 37,
            Bones::HumanLCollarbone => 89,
            Bones::HumanLUpperarm => 90,
            Bones::HumanLForearm1 => 91,
            Bones::HumanLForearm2 => 92,
            Bones::HumanLForearm3 => 93,
            Bones::HumanLPalm => 94,
            Bones::HumanRCollarbone => 110,
            Bones::HumanRUpperarm => 111,
            Bones::HumanRForearm1 => 112,
            Bones::HumanRForearm2 => 113,
            Bones::HumanRForearm3 => 114,
            Bones::HumanRPalm => 115,
            Bones::HumanNeck => 132,
            Bones::HumanHead => 133,
        }
    }

    /// The bone's index in the bone transform array.
    pub fn index(&self) -> (r: u64)
        ensures
            r == self.spec_index(),
    {
        match self {
            Bones::HumanBase => 0,
            Bones::HumanPelvis => 14,
            Bones::HumanLThigh1 => 15,
            Bones::HumanLThigh2 => 16,
            Bones::HumanLCalf => 17,
            Bones::HumanLFoot => 18,
            Bones::HumanLToe => 19,
            Bones::HumanRThigh1 => 20,
            Bones::HumanRThigh2 => 21,
            Bones::HumanRCalf => 22,
            Bones::HumanRFoot => 23,
            Bones::HumanRToe => 24,
            Bones::HumanSpine1 => 29,
            Bones::HumanSpine2 => 36,
            Bones::HumanSpine3 => 37,
            Bones::HumanLCollarbone => 89,
            Bones::HumanLUpperarm => 90,
            Bones::HumanLForearm1 => 91,
            Bones::HumanLForearm2 => 92,
            Bones::HumanLForearm3 => 93,
            Bones::HumanLPalm => 94,
            Bones::HumanRCollarbone => 110,
            Bones::HumanRUpperarm => 111,
            Bones::HumanRForearm1 => 112,
            Bones::HumanRForearm2 => 113,
            Bones::HumanRForearm3 => 114,
            Bones::HumanRPalm => 115,
            Bones::HumanNeck => 132,
            Bones::HumanHead => 133,
        }
    }
}

/// The non-human role codes of the observed process, by their flag value.
#[derive(Clone, Copy, Debug, PartialEq, Eq, Structural)]
pub enum ScavType {
    Marksman,
    Assault,
    BossTest,
    BossBully,
    FollowerTest,
    FollowerBully,
    BossKilla,
    BossKojaniy,
    FollowerKojaniy,
    PmcBot,
    CursedAssault,
    BossGluhar,
    FollowerGluharAssault,
    FollowerGluharSecurity,
    FollowerGluharScout,
    FollowerGluharSnipe,
    FollowerSanitar,
    BossSanitar,
    Test,
    AssaultGroup,
    SectantWarrior,
    SectantPriest,
    BossTagilla,
    FollowerTagilla,
}

impl ScavType {
    /// The role's flag value.
    pub open spec fn spec_flag(&self) -> u64 {
        match self {
            ScavType::Marksman => 1,
            ScavType::Assault => 2,
            ScavType::BossTest => 4,
            ScavType::BossBully => 8,
            ScavType::FollowerTest => 16,
            ScavType::FollowerBully => 32,
            ScavType::BossKilla => 64,
            ScavType::BossKojaniy => 128,
            ScavType::FollowerKojaniy => 256,
            ScavType::PmcBot => 512,
            ScavType::CursedAssault => 1024,
            ScavType::BossGluhar => 2048,
            ScavType::FollowerGluharAssault => 4096,
            ScavType::FollowerGluharSecurity => 8192,
            ScavType::FollowerGluharScout => 16384,
            ScavType::FollowerGluharSnipe => 32768,
            ScavType::FollowerSanitar => 65536,
            ScavType::BossSanitar => 131072,
            ScavType::Test => 262144,
            ScavType::AssaultGroup => 524288,
            ScavType::SectantWarrior => 1048576,
            ScavType::SectantPriest => 2097152,
            ScavType::BossTagilla => 4194304,
            ScavType::FollowerTagilla => 8388608,
        }
    }

    /// The role's flag value.
    pub fn flag(&self) -> (r: u64)
        ensures
            r == self.spec_flag(),
    {
        match self {
            ScavType::Marksman => 1,
            ScavType::Assault => 2,
            ScavType::BossTest => 4,
            ScavType::BossBully => 8,
            ScavType::FollowerTest => 16,
            ScavType::FollowerBully => 32,
            ScavType::BossKilla => 64,
            ScavType::BossKojaniy => 128,
            ScavType::FollowerKojaniy => 256,
            ScavType::PmcBot => 512,
            ScavType::CursedAssault => 1024,
            ScavType::BossGluhar => 2048,
            ScavType::FollowerGluharAssault => 4096,
            ScavType::FollowerGluharSecurity => 8192,
            ScavType::FollowerGluharScout => 16384,
            ScavType::FollowerGluharSnipe => 32768,
            ScavType::FollowerSanitar => 65536,
            ScavType::BossSanitar => 131072,
            ScavType::Test => 262144,
            ScavType::AssaultGroup => 524288,
            ScavType::SectantWarrior => 1048576,
            ScavType::SectantPriest => 2097152,
            ScavType::BossTagilla => 4194304,
            ScavType::FollowerTagilla => 8388608,
        }
    }
}

} // verus!

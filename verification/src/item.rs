//! The item decoder, the item record, and the deny list of container and
//! scenery names that must never be reported as loot.

use vstd::prelude::*;
use vstd::string::{StrSliceExecFns, StringSliceAdditionalSpecFns};

use crate::error::DecodeError;
use crate::layout;
use crate::maths::Vector3;
use crate::memory::{offset_addr, read_string, read_u32, read_u64, ForeignMemory};
use crate::text::{ascii_eq_ignore_case, eq_ignore_ascii_case};
use crate::unity::transform_to_world_space;
use crate::unitystring::read_unity_string;

verus! {

/// The names of container, door and cap objects that the foreign process
/// keeps in its item list but that are not loot.
pub open spec fn denied_names() -> Seq<Seq<u8>> {
    seq![
        ("body").spec_bytes(),
        ("XXXcap").spec_bytes(),
        ("Ammo_crate_Cap").spec_bytes(),
        ("Grenade_box_Door").spec_bytes(),
        ("Medical_Door").spec_bytes(),
        ("Toolbox_Door").spec_bytes(),
        ("card_file_box").spec_bytes(),
        ("cover_").spec_bytes(),
        ("lootable").spec_bytes(),
        ("scontainer_Blue_Barrel_Base_Cap").spec_bytes(),
        ("scontainer_wood_CAP").spec_bytes(),
        ("suitcase_plastic_lootable_open").spec_bytes(),
        ("weapon_box_cover").spec_bytes(),
    ]
}

/// Whether a decoded name equals a deny-listed name up to ASCII case.
pub open spec fn spec_is_denied(name: Seq<u8>) -> bool {
    exists|i: int|
        0 <= i < denied_names().len() && #[trigger] ascii_eq_ignore_case(name, denied_names()[i])
}

/// Tests a decoded name against the deny list, up to ASCII case.
pub fn is_denied_name(name: &Vec<u8>) -> (r: bool)
    ensures
        r == spec_is_denied(name@),
{
    let mut entries: Vec<Vec<u8>> = Vec::new();
    entries.push(("body").as_bytes_vec());
    entries.push(("XXXcap").as_bytes_vec());
    entries.push(("Ammo_crate_Cap").as_bytes_vec());
    entries.push(("Grenade_box_Door").as_bytes_vec());
    entries.push(("Medical_Door").as_bytes_vec());
    entries.push(("Toolbox_Door").as_bytes_vec());
    entries.push(("card_file_box").as_bytes_vec());
    entries.push(("cover_").as_bytes_vec());
    entries.push(("lootable").as_bytes_vec());
    entries.push(("scontainer_Blue_Barrel_Base_Cap").as_bytes_vec());
    entries.push(("scontainer_wood_CAP").as_bytes_vec());
    entries.push(("suitcase_plastic_lootable_open").as_bytes_vec());
    entries.push(("weapon_box_cover").as_bytes_vec());
    proof {
        assert(entries@.len() == denied_names().len());
        assert(forall|j: int|
            0 <= j < entries@.len() ==> entries@[j]@ == #[trigger] denied_names()[j]);
    }
    let n = entries.len();
    let mut i: usize = 0;
    while i < n
        invariant
            n == entries@.len(),
            n == denied_names().len(),
            forall|j: int| 0 <= j < n ==> entries@[j]@ == #[trigger] denied_names()[j],
            i <= n,
            forall|j: int|
                0 <= j < i ==> !(#[trigger] ascii_eq_ignore_case(name@, denied_names()[j])),
        decreases n - i,
    {
        if eq_ignore_ascii_case(name, &entries[i]) {
            return true;
        }
        i = i + 1;
    }
    false
}

/// The corpse rule: an item whose template identifier is the generic
/// corpse container's carries the synthesized name, never a read one.
pub open spec fn corpse_name_synthesized(id: Seq<u8>, name: Seq<u8>) -> bool {
    id == ("55d7217a4bdc2d86028b456d").spec_bytes() ==> name == ("Corpse").spec_bytes()
}

/// The stable identifier of the generic corpse container, whose display
/// name is synthesized rather than read.
pub fn corpse_id() -> (r: Vec<u8>)
    ensures
        r@ == ("55d7217a4bdc2d86028b456d").spec_bytes(),
{
    ("55d7217a4bdc2d86028b456d").as_bytes_vec()
}

/// The synthesized display name of a corpse.
pub fn corpse_name() -> (r: Vec<u8>)
    ensures
        r@ == ("Corpse").spec_bytes(),
{
    ("Corpse").as_bytes_vec()
}

/// One reported loose item.
#[derive(Clone, Debug, PartialEq, Eq)]
pub struct Item {
    pub address: u64,
    pub name: Vec<u8>,
    pub id: Vec<u8>,
    pub location: Vector3,
}

/// How rare an item's template says it is.
#[derive(Clone, Copy, Debug, PartialEq, Eq, Structural)]
pub enum ItemRarity {
    NotExist,
    Common,
    Rare,
    SuperRare,
}

impl ItemRarity {
    /// Decodes a rarity code; an unknown code is rejected.
    pub fn from_code(code: u32) -> (r: Result<ItemRarity, DecodeError>)
        ensures
            code == 0 ==> r == Ok::<ItemRarity, DecodeError>(ItemRarity::NotExist),
            code == 1 ==> r == Ok::<ItemRarity, DecodeError>(ItemRarity::Common),
            code == 2 ==> r == Ok::<ItemRarity, DecodeError>(ItemRarity::Rare),
            code == 3 ==> r == Ok::<ItemRarity, DecodeError>(ItemRarity::SuperRare),
            code > 3 ==> r == Err::<ItemRarity, DecodeError>(DecodeError::DecodeRejected),
    {
        match code {
            0 => Ok(ItemRarity::NotExist),
            1 => Ok(ItemRarity::Common),
            2 => Ok(ItemRarity::Rare),
            3 => Ok(ItemRarity::SuperRare),
            _ => Err(DecodeError::DecodeRejected),
        }
    }
}

/// A handle on one interactive item: the item object, its template, and
/// the game object that owns it.
#[derive(Clone, Copy, Debug, PartialEq, Eq, Structural)]
pub struct InternalItem {
    pub address: u64,
    pub template_address: u64,
    pub game_object_address: u64,
}

impl InternalItem {
    /// Reads the template's rarity code and decodes it
    /// (`ItemRarity::from_code` states the mapping exactly).
    pub fn get_rarity<M: ForeignMemory>(&self, mem: &M) -> (r: Result<ItemRarity, DecodeError>)
        ensures
            r matches Err(e) ==> e is ReadFailure || e is DecodeRejected,
    {
        let ptr = read_u64(mem, offset_addr(self.template_address, layout::OFF_TEMPLATE_RARITY)?)?;
        let code = read_u32(mem, ptr)?;
        ItemRarity::from_code(code)
    }

    /// Reads the template's stable identifier string.
    pub fn get_id<M: ForeignMemory>(&self, mem: &M) -> (r: Result<Vec<u8>, DecodeError>)
        ensures
            r matches Err(e) ==> e is ReadFailure || e is SizeSanityViolation,
    {
        let ptr = read_u64(mem, offset_addr(self.template_address, layout::OFF_TEMPLATE_ID)?)?;
        read_unity_string(mem, ptr)
    }

    /// Reads the owning game object's display name.
    pub fn get_name<M: ForeignMemory>(&self, mem: &M) -> (r: Result<Vec<u8>, DecodeError>)
        ensures
            r matches Err(e) ==> e is ReadFailure,
    {
        let ptr = read_u64(
            mem,
            offset_addr(self.game_object_address, layout::OFF_GAME_OBJECT_NAME)?,
        )?;
        read_string(mem, ptr, layout::NAME_READ_LIMIT)
    }

    /// Resolves the item's world-space position through its transform.
    pub fn get_location<M: ForeignMemory>(&self, mem: &M) -> (r: Result<Vector3, DecodeError>)
        ensures
            r matches Err(e) ==> e is ReadFailure || e is SizeSanityViolation,
    {
        let ptr_1 = read_u64(
            mem,
            offset_addr(self.game_object_address, layout::ITEM_LOCATION_CHAIN_0)?,
        )?;
        let ptr_2 = read_u64(mem, offset_addr(ptr_1, layout::ITEM_LOCATION_CHAIN_1)?)?;
        let container = read_u64(mem, offset_addr(ptr_2, layout::ITEM_LOCATION_CHAIN_2)?)?;
        transform_to_world_space(mem, container)
    }
}

} // verus!

//! End-to-end refresh cycles against a synthetic process image.

use radarcore::engine::MemoryOperations;
use radarcore::error::DecodeError;
use radarcore::fake_process::FakeProcess;
use radarcore::item::Item;
use radarcore::maths::Vector3;
use radarcore::memory::{read_u32, read_u64, read_u8};
use radarcore::models::{Player, PlayerKind, PlayerType};

const ORIGIN: u64 = 0x10_0000;
const SIZE: usize = 0x8_0000;

struct World {
    fp: FakeProcess,
    next: u64,
    world: u64,
    player_list: u64,
    player_array: u64,
    player_count: u32,
    item_list: u64,
    item_array: u64,
    item_count: u32,
    camera_object: u64,
    camera_internal: u64,
    tagged_head: u64,
}

struct PlayerSpec<'a> {
    name: &'a str,
    id: &'a str,
    side: u32,
    registration: u64,
    dead: bool,
    local: bool,
    aiming: bool,
    angle: f32,
    position: [f32; 3],
    aggressor_name: Option<&'a str>,
}

impl<'a> Default for PlayerSpec<'a> {
    fn default() -> Self {
        PlayerSpec {
            name: "Rival",
            id: "id-0001",
            side: 1,
            registration: 5,
            dead: false,
            local: false,
            aiming: false,
            angle: 45.0,
            position: [10.0, 20.0, 30.0],
            aggressor_name: None,
        }
    }
}

impl World {
    fn claim(&mut self, size: u64) -> u64 {
        let at = self.next;
        self.next = (self.next + size + 15) & !15;
        assert!(self.next < ORIGIN + SIZE as u64, "fake image exhausted");
        at
    }

    fn cstring(&mut self, text: &str) -> u64 {
        let buf = self.claim(text.len() as u64 + 1);
        for (i, b) in text.bytes().enumerate() {
            self.fp.poke_u8(buf + i as u64, b);
        }
        buf
    }

    fn unity_string(&mut self, text: &str) -> u64 {
        let header = self.claim(0x30);
        let data = self.claim(2 * text.len() as u64 + 2);
        self.fp.poke_u32(header + 0x10, text.len() as u32);
        self.fp.poke_u64(header + 0x28, data);
        for (i, b) in text.bytes().enumerate() {
            self.fp.poke_u8(data + 2 * i as u64, b);
            self.fp.poke_u8(data + 2 * i as u64 + 1, 0);
        }
        header
    }

    /// A single-node tagged list whose node tags `object`.
    fn tagged_node(&mut self, object: u64) -> u64 {
        let node = self.claim(24);
        self.fp.poke_u64(node, node);
        self.fp.poke_u64(node + 8, node);
        self.fp.poke_u64(node + 16, object);
        node
    }

    /// A transform whose resolved position is exactly `position`.
    fn transform(&mut self, position: [f32; 3]) -> u64 {
        let transform = self.claim(0x40);
        let internal = self.claim(0x60);
        let table = self.claim(0x40);
        let matrices = self.claim(48);
        let parents = self.claim(16);
        self.fp.poke_u64(transform + 0x10, internal);
        self.fp.poke_u64(internal + 0x38, table);
        self.fp.poke_u32(internal + 0x40, 0);
        self.fp.poke_u64(table + 0x18, matrices);
        self.fp.poke_u64(table + 0x20, parents);
        for (i, v) in position.iter().enumerate() {
            self.fp.poke_u32(matrices + 4 * i as u64, v.to_bits());
        }
        self.fp.poke_u32(parents, (-1i32) as u32);
        transform
    }

    fn new() -> World {
        let mut w = World {
            fp: FakeProcess::new(ORIGIN, SIZE),
            next: ORIGIN + 0x100,
            world: 0,
            player_list: 0,
            player_array: 0,
            player_count: 0,
            item_list: 0,
            item_array: 0,
            item_count: 0,
            camera_object: 0,
            camera_internal: 0,
            tagged_head: 0,
        };
        let gom = w.claim(0x30);
        w.fp.poke_u64(ORIGIN, gom);

        // The world object, in the active list.
        let world_object = w.claim(0x80);
        let world_name = w.cstring("GameWorld");
        w.fp.poke_u64(world_object + 0x60, world_name);
        let active_node = w.tagged_node(world_object);
        w.fp.poke_u64(gom + 0x28, active_node);

        let hop_a = w.claim(0x40);
        let hop_b = w.claim(0x40);
        let world = w.claim(0x100);
        w.fp.poke_u64(world_object + 0x30, hop_a);
        w.fp.poke_u64(hop_a + 0x18, hop_b);
        w.fp.poke_u64(hop_b + 0x28, world);
        w.world = world;

        // The primary camera, in the camera list.
        let camera_object = w.claim(0x80);
        let camera_name = w.cstring("FPS Camera");
        w.fp.poke_u64(camera_object + 0x60, camera_name);
        let camera_node = w.tagged_node(camera_object);
        w.fp.poke_u64(gom + 0x18, camera_node);

        let camera_hop = w.claim(0x40);
        let camera_internal = w.claim(0x500);
        w.fp.poke_u64(camera_object + 0x30, camera_hop);
        w.fp.poke_u64(camera_hop + 0x18, camera_internal);
        w.camera_object = camera_object;
        w.camera_internal = camera_internal;
        w.set_camera(62.0, 1.25);

        // The entity lists.
        let player_list = w.claim(0x40);
        let player_array = w.claim(0x20 + 64 * 8);
        w.fp.poke_u64(world + 0x88, player_list);
        w.fp.poke_u64(player_list + 0x10, player_array);
        w.player_list = player_list;
        w.player_array = player_array;

        let item_list = w.claim(0x40);
        let item_array = w.claim(0x20 + 64 * 8);
        w.fp.poke_u64(world + 0x68, item_list);
        w.fp.poke_u64(item_list + 0x10, item_array);
        w.item_list = item_list;
        w.item_array = item_array;

        // An (initially empty) tagged list head for the optic camera.
        let empty_tagged = w.claim(0x80);
        w.tagged_head = empty_tagged;
        w.fp.poke_u64(gom + 0x8, empty_tagged);

        w
    }

    fn set_camera(&mut self, fov: f32, aspect: f32) {
        let base = self.camera_internal;
        for i in 0..16u64 {
            self.fp.poke_u32(base + 0xDC + 4 * i, (i as f32 + 0.5).to_bits());
        }
        self.fp.poke_u32(base + 0x15C, fov.to_bits());
        self.fp.poke_u32(base + 0x4C8, aspect.to_bits());
    }

    /// Adds the optic camera to the tagged list.
    fn add_optic_camera(&mut self, fov: f32, aspect: f32) {
        let optic_object = self.claim(0x80);
        let name = self.cstring("BaseOpticCamera(Clone)");
        self.fp.poke_u64(optic_object + 0x60, name);
        let head = self.tagged_head;
        self.fp.poke_u64(head, head);
        self.fp.poke_u64(head + 8, head);
        self.fp.poke_u64(head + 16, optic_object);

        let hop = self.claim(0x40);
        let internal = self.claim(0x500);
        self.fp.poke_u64(optic_object + 0x30, hop);
        self.fp.poke_u64(hop + 0x18, internal);
        for i in 0..16u64 {
            self.fp.poke_u32(internal + 0xDC + 4 * i, (2.0 * i as f32).to_bits());
        }
        self.fp.poke_u32(internal + 0x15C, fov.to_bits());
        self.fp.poke_u32(internal + 0x4C8, aspect.to_bits());
    }

    /// Lays out one player structure and returns its base address.
    fn add_player(&mut self, spec: &PlayerSpec) -> u64 {
        let p = self.claim(0x900);

        let movement = self.claim(0x240);
        self.fp.poke_u64(p + 0x40, movement);
        self.fp.poke_u32(movement + 0x22C, spec.angle.to_bits());

        let profile = self.claim(0x40);
        self.fp.poke_u64(p + 0x4F0, profile);
        let info = self.claim(0x80);
        self.fp.poke_u64(profile + 0x28, info);
        let id_string = self.unity_string(spec.id);
        self.fp.poke_u64(profile + 0x18, id_string);
        let name_string = self.unity_string(spec.name);
        self.fp.poke_u64(info + 0x10, name_string);
        self.fp.poke_u32(info + 0x68, spec.side);
        self.fp.poke_u64(info + 0x6C, spec.registration);

        let body = self.claim(0x40);
        self.fp.poke_u64(p + 0xA8, body);
        let skeleton = self.claim(0x40);
        self.fp.poke_u64(body + 0x28, skeleton);
        let values = self.claim(0x40);
        self.fp.poke_u64(skeleton + 0x28, values);
        let bone_array = self.claim(0x40);
        self.fp.poke_u64(values + 0x10, bone_array);
        let transform = self.transform(spec.position);
        self.fp.poke_u64(bone_array + 0x20, transform);

        self.fp.poke_u8(p + 0x6D0, if spec.dead { 1 } else { 0 });
        self.fp.poke_u8(p + 0x807, if spec.local { 1 } else { 0 });

        let weapon = self.claim(0x60);
        self.fp.poke_u64(p + 0x198, weapon);
        let breath = self.claim(0x100);
        self.fp.poke_u64(weapon + 0x28, breath);
        self.fp.poke_u8(breath + 0xA0, if spec.aiming { 1 } else { 0 });
        let walk = self.claim(0x60);
        let motion = self.claim(0x100);
        let shoot = self.claim(0x60);
        self.fp.poke_u64(weapon + 0x30, walk);
        self.fp.poke_u64(weapon + 0x38, motion);
        self.fp.poke_u64(weapon + 0x48, shoot);

        if let Some(aggressor) = spec.aggressor_name {
            let a = self.claim(0x900);
            let a_profile = self.claim(0x40);
            self.fp.poke_u64(a + 0x4F0, a_profile);
            let a_info = self.claim(0x80);
            self.fp.poke_u64(a_profile + 0x28, a_info);
            let a_name = self.unity_string(aggressor);
            self.fp.poke_u64(a_info + 0x10, a_name);
            self.fp.poke_u32(a_info + 0x68, 1);
            self.fp.poke_u64(p + 0x340, a);
        }

        let slot = self.player_array + 0x20 + 8 * self.player_count as u64;
        self.fp.poke_u64(slot, p);
        self.player_count += 1;
        self.fp.poke_u32(self.player_list + 0x18, self.player_count);
        p
    }

    /// Lays out one interactive item and returns its list-entry address.
    fn add_item(&mut self, name: &str, id: &str, position: [f32; 3]) -> u64 {
        let entity = self.claim(0x40);
        let unknown = self.claim(0x40);
        let interactive = self.claim(0x80);
        let base_object = self.claim(0x40);
        let game_object = self.claim(0x80);
        let item = self.claim(0x60);
        let template = self.claim(0x100);

        self.fp.poke_u64(entity + 0x10, unknown);
        self.fp.poke_u64(unknown + 0x28, interactive);
        self.fp.poke_u64(interactive + 0x10, base_object);
        self.fp.poke_u64(base_object + 0x30, game_object);
        self.fp.poke_u64(interactive + 0x50, item);
        self.fp.poke_u64(item + 0x40, template);

        let id_string = self.unity_string(id);
        self.fp.poke_u64(template + 0x50, id_string);
        let name_buf = self.cstring(name);
        self.fp.poke_u64(game_object + 0x60, name_buf);

        let hop_1 = self.claim(0x40);
        let hop_2 = self.claim(0x40);
        let transform = self.transform(position);
        self.fp.poke_u64(game_object + 0x30, hop_1);
        self.fp.poke_u64(hop_1 + 0x8, hop_2);
        self.fp.poke_u64(hop_2 + 0x28, transform);

        let slot = self.item_array + 0x20 + 8 * self.item_count as u64;
        self.fp.poke_u64(slot, entity);
        self.item_count += 1;
        self.fp.poke_u32(self.item_list + 0x18, self.item_count);
        entity
    }
}

fn flipped(p: [f32; 3]) -> Vector3 {
    Vector3 { x: p[2].to_bits(), y: p[0].to_bits(), z: p[1].to_bits() }
}

fn radians(angle: f32) -> u32 {
    let a = if angle < 0.0 { 360.0 + angle } else { angle };
    (a * std::f32::consts::PI / 180.0).to_bits()
}

#[test]
fn session_discovers_the_world() {
    let w = World::new();
    let ops = MemoryOperations::new(w.fp).unwrap();
    assert_eq!(ops.game_state.world_address, w.world);
    assert_eq!(ops.game_state.fps_camera_address, w.camera_object);
}

#[test]
fn empty_collection_refreshes_to_empty() {
    let w = World::new();
    let mut ops = MemoryOperations::new(w.fp).unwrap();
    let players = ops.update_players(&Vec::new()).unwrap();
    assert!(players.is_empty());
    let items = ops.update_items(&Vec::new()).unwrap();
    assert!(items.is_empty());
}

#[test]
fn full_refresh_decodes_every_entity() {
    let mut w = World::new();
    w.add_player(&PlayerSpec { name: "Rival", id: "id-1", side: 1, ..Default::default() });
    w.add_player(&PlayerSpec {
        name: "ignored",
        id: "id-2",
        side: 4,
        registration: 0,
        angle: -90.0,
        position: [1.0, 2.0, 3.0],
        ..Default::default()
    });
    let mut ops = MemoryOperations::new(w.fp).unwrap();
    let players = ops.update_players(&Vec::new()).unwrap();
    assert_eq!(players.len(), 2);

    let rival = &players[0];
    assert_eq!(rival.name, b"Rival".to_vec());
    assert_eq!(rival.id, b"id-1".to_vec());
    assert_eq!(rival.location, flipped([10.0, 20.0, 30.0]));
    assert_eq!(rival.direction, radians(45.0));
    assert_eq!(rival.player_type, PlayerType::Enemy);
    assert!(matches!(rival.kind, PlayerKind::Enemy(_)));
    assert_eq!(rival.last_aggressor, None);

    // The non-human faction gets a synthesized name and the scavenger role.
    let scav = &players[1];
    assert_eq!(scav.name, b"Bot Scav".to_vec());
    assert_eq!(scav.player_type, PlayerType::Scav);
    assert_eq!(scav.direction, radians(-90.0));
    assert_eq!(scav.location, flipped([1.0, 2.0, 3.0]));
}

#[test]
fn aggressor_name_is_decoded_when_present() {
    let mut w = World::new();
    w.add_player(&PlayerSpec { aggressor_name: Some("Nemesis"), ..Default::default() });
    let mut ops = MemoryOperations::new(w.fp).unwrap();
    let players = ops.update_players(&Vec::new()).unwrap();
    assert_eq!(players[0].last_aggressor, Some(b"Nemesis".to_vec()));
}

#[test]
fn local_player_captures_the_primary_camera_and_zeroes_recoil() {
    let mut w = World::new();
    let p = w.add_player(&PlayerSpec { name: "Me", id: "self", local: true, ..Default::default() });
    // Seed a recoil accumulator with garbage; the decode must zero it.
    let weapon = read_u64(&w.fp, p + 0x198).unwrap();
    let breath = read_u64(&w.fp, weapon + 0x28).unwrap();
    w.fp.poke_u64(breath + 0xA4, 0xABCD_EF01);

    let mut ops = MemoryOperations::new(w.fp).unwrap();
    let players = ops.update_players(&Vec::new()).unwrap();
    assert_eq!(players.len(), 1);
    let me = &players[0];
    assert_eq!(me.player_type, PlayerType::Local);
    match &me.kind {
        PlayerKind::Local(local) => {
            let fps = local.fps_camera.as_ref().unwrap();
            assert_eq!(fps.fov, 62.0f32.to_bits());
            assert_eq!(fps.aspect_ratio, 1.25f32.to_bits());
            assert_eq!(fps.matrix.m11, 0.5f32.to_bits());
            assert_eq!(fps.matrix.m44, 15.5f32.to_bits());
            assert!(local.optic_camera.is_none());
        },
        other => panic!("expected a local payload, got {:?}", other),
    }
    assert_eq!(read_u64(&ops.memory, breath + 0xA4).unwrap(), 0);
}

#[test]
fn aiming_local_player_captures_the_optic_camera() {
    let mut w = World::new();
    w.add_optic_camera(19.4, 1.0);
    w.add_player(&PlayerSpec { local: true, aiming: true, ..Default::default() });
    let mut ops = MemoryOperations::new(w.fp).unwrap();
    let players = ops.update_players(&Vec::new()).unwrap();
    let me = &players[0];
    assert!(me.is_aiming);
    match &me.kind {
        PlayerKind::Local(local) => {
            let optic = local.optic_camera.as_ref().unwrap();
            assert_eq!(optic.fov, 19.4f32.to_bits());
            assert_eq!(optic.matrix.m12, 2.0f32.to_bits());
            let fps = local.fps_camera.as_ref().unwrap();
            assert_eq!(fps.fov, 62.0f32.to_bits());
        },
        other => panic!("expected a local payload, got {:?}", other),
    }
}

#[test]
fn unchanged_world_gives_structurally_equal_refreshes() {
    let mut w = World::new();
    w.add_player(&PlayerSpec { ..Default::default() });
    w.add_player(&PlayerSpec { name: "Second", id: "id-2", ..Default::default() });
    let mut ops = MemoryOperations::new(w.fp).unwrap();

    let first = ops.update_players(&Vec::new()).unwrap();
    let second = ops.update_players(&first).unwrap();
    let third = ops.update_players(&second).unwrap();

    assert_eq!(second.len(), first.len());
    assert_eq!(second, third);
    assert_eq!(second[0].name, first[0].name);
    assert_eq!(second[1].id, first[1].id);
}

#[test]
fn incremental_refresh_keeps_the_collection_size() {
    let mut w = World::new();
    let p = w.add_player(&PlayerSpec { ..Default::default() });
    let mut ops = MemoryOperations::new(w.fp).unwrap();
    let first = ops.update_players(&Vec::new()).unwrap();

    // Move the entity; the length is unchanged, so the path is incremental.
    let movement = read_u64(&ops.memory, p + 0x40).unwrap();
    ops.memory.poke_u32(movement + 0x22C, 10.0f32.to_bits());

    let second = ops.update_players(&first).unwrap();
    assert_eq!(second.len(), first.len());
    assert_eq!(second[0].direction, radians(10.0));
    assert_eq!(second[0].name, first[0].name);
    assert_eq!(second[0].id, first[0].id);
    assert_eq!(second[0].address, first[0].address);
}

#[test]
fn newly_dead_local_is_reclassified_on_the_incremental_path() {
    let mut w = World::new();
    let p = w.add_player(&PlayerSpec { name: "Me", id: "self", local: true, ..Default::default() });
    let mut ops = MemoryOperations::new(w.fp).unwrap();
    let first = ops.update_players(&Vec::new()).unwrap();
    assert_eq!(first[0].player_type, PlayerType::Local);

    // The death flag newly reads true.
    ops.memory.poke_u8(p + 0x6D0, 1);
    let second = ops.update_players(&first).unwrap();
    assert_eq!(second.len(), 1);
    let dead = &second[0];
    assert_eq!(dead.player_type, PlayerType::Dead);
    assert!(matches!(dead.kind, PlayerKind::Dead(_)));
    // The position is preserved; every other field is the dead default.
    assert_eq!(dead.location, first[0].location);
    assert_eq!(dead.address, 0);
    assert_eq!(dead.name, Vec::<u8>::new());
    assert_eq!(dead.id, Vec::<u8>::new());
    assert_eq!(dead.direction, 0);
    assert_eq!(dead.last_aggressor, None);
    assert!(!dead.is_aiming);
}

#[test]
fn shrunk_collection_forces_a_full_refresh() {
    let mut w = World::new();
    w.add_player(&PlayerSpec { ..Default::default() });
    w.add_player(&PlayerSpec { name: "Second", id: "id-2", ..Default::default() });
    let mut ops = MemoryOperations::new(w.fp).unwrap();
    let first = ops.update_players(&Vec::new()).unwrap();
    assert_eq!(first.len(), 2);

    // The foreign list now reports one entry: re-enumerate from scratch.
    ops.memory.poke_u32(w.player_list + 0x18, 1);
    let second = ops.update_players(&first).unwrap();
    assert_eq!(second.len(), 1);
}

#[test]
fn items_decode_with_corpse_synthesis() {
    let mut w = World::new();
    w.add_item("factory_key", "key-001", [5.0, 6.0, 7.0]);
    w.add_item("anything", "55d7217a4bdc2d86028b456d", [1.0, 1.0, 1.0]);
    let ops = MemoryOperations::new(w.fp).unwrap();
    let items: Vec<Item> = ops.update_items(&Vec::new()).unwrap();
    assert_eq!(items.len(), 2);
    assert_eq!(items[0].name, b"factory_key".to_vec());
    assert_eq!(items[0].id, b"key-001".to_vec());
    assert_eq!(items[0].location, Vector3 {
        x: 5.0f32.to_bits(),
        y: 6.0f32.to_bits(),
        z: 7.0f32.to_bits(),
    });
    assert_eq!(items[1].name, b"Corpse".to_vec());
}

#[test]
fn denied_item_fails_the_whole_batch() {
    let mut w = World::new();
    w.add_item("factory_key", "key-001", [5.0, 6.0, 7.0]);
    w.add_item("AMMO_CRATE_CAP", "cap-001", [0.5, 0.5, 0.5]);
    let ops = MemoryOperations::new(w.fp).unwrap();
    assert_eq!(ops.update_items(&Vec::new()), Err(DecodeError::DecodeRejected));
}

#[test]
fn thermal_toggle_programs_the_component_and_flips() {
    let mut w = World::new();
    // One component named like the thermal vision class.
    let array_base = read_u64(&w.fp, w.camera_object + 0x30).unwrap();
    w.fp.poke_u64(w.camera_object + 0x40, 1); // component count
    let component = w.claim(0x40);
    w.fp.poke_u64(array_base + 0x8, component);
    let thermal_class = w.claim(0x100);
    w.fp.poke_u64(component + 0x28, thermal_class);
    let mono_hop = w.claim(0x40);
    let mono = w.claim(0x80);
    w.fp.poke_u64(thermal_class, mono_hop);
    w.fp.poke_u64(mono_hop, mono);
    let class_name = w.cstring("ThermalVision");
    let namespace = w.cstring("EFT.CameraControl");
    w.fp.poke_u64(mono + 0x48, class_name);
    w.fp.poke_u64(mono + 0x50, namespace);

    let pixel_opts = w.claim(0x40);
    let fps_opts = w.claim(0x40);
    w.fp.poke_u64(thermal_class + 0x38, pixel_opts);
    w.fp.poke_u64(thermal_class + 0x20, fps_opts);

    let mut ops = MemoryOperations::new(w.fp).unwrap();
    assert_eq!(ops.toggle_thermal(&false), Ok(true));
    assert_eq!(read_u32(&ops.memory, pixel_opts + 0x20).unwrap(), 1);
    assert_eq!(read_u32(&ops.memory, pixel_opts + 0x28).unwrap(), 0);
    assert_eq!(read_u32(&ops.memory, fps_opts + 0x14).unwrap(), 144);
    assert_eq!(read_u8(&ops.memory, thermal_class + 0xE0).unwrap(), 0);

    assert_eq!(ops.toggle_thermal(&true), Ok(false));
    assert_eq!(read_u8(&ops.memory, thermal_class + 0xE0).unwrap(), 1);
}

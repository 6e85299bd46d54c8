use schematics::block_entity_data::BlockEntityData;
use schematics::nbt::NbtValue;
use schematics::{Schematic, SchematicError};
use valence_nbt::{Compound, List, Value};

fn root_with_block_entity(record: Compound) -> Compound {
    let mut blocks = Compound::new();
    blocks.insert("BlockEntities", Value::List(List::Compound(vec![record])));
    blocks.insert("Data", Value::ByteArray(vec![0]));
    blocks.insert("Palette", Value::Compound(Compound::new()));
    let mut sc = Compound::new();
    sc.insert("Width", Value::Short(1));
    sc.insert("Height", Value::Short(1));
    sc.insert("Length", Value::Short(1));
    sc.insert("Blocks", Value::Compound(blocks));
    sc.insert("Entities", Value::List(List::End));
    let mut root = Compound::new();
    root.insert("Schematic", Value::Compound(sc));
    root
}

fn record(outer_id: &str, pos: Option<Vec<i32>>, data: Option<Compound>) -> Compound {
    let mut rec = Compound::new();
    rec.insert("Id", Value::String(outer_id.to_string()));
    if let Some(p) = pos {
        rec.insert("Pos", Value::IntArray(p));
    }
    if let Some(d) = data {
        rec.insert("Data", Value::Compound(d));
    }
    rec
}

fn to_bytes(root: &Compound) -> Vec<u8> {
    let mut out = Vec::new();
    valence_nbt::to_binary(root, &mut out, "").unwrap();
    out
}

fn decode_one(record_compound: Compound) -> Result<Schematic, SchematicError> {
    Schematic::from_bytes(&to_bytes(&root_with_block_entity(record_compound)))
}

#[test]
fn sign_without_text_sides_gets_defaults() {
    let mut data = Compound::new();
    data.insert("id", Value::String("minecraft:sign".to_string()));
    let s = decode_one(record("minecraft:sign", Some(vec![1, 2, 3]), Some(data))).unwrap();
    assert_eq!(s.blocks.block_entities.len(), 1);
    let be = &s.blocks.block_entities[0];
    assert_eq!(be.id, "minecraft:sign");
    assert_eq!(be.pos, vec![1, 2, 3]);
    match &be.data {
        BlockEntityData::Sign(sign) => {
            assert_eq!(sign.front_text.color, "yellow");
            assert_eq!(sign.back_text.color, "black");
            assert_eq!(sign.front_text.has_glowing_text, 0);
            assert_eq!(sign.back_text.has_glowing_text, 0);
            assert!(sign.front_text.messages.is_empty());
            assert!(sign.back_text.messages.is_empty());
            assert_eq!(sign.is_waxed, 0);
        }
        other => panic!("expected a sign, got {:?}", other),
    }
}

#[test]
fn sign_with_text_fields_keeps_them() {
    let mut front = Compound::new();
    front.insert("color", Value::String("red".to_string()));
    front.insert("has_glowing_text", Value::Byte(1));
    front.insert(
        "messages",
        Value::List(List::String(vec!["hello".to_string(), "world".to_string()])),
    );
    let mut data = Compound::new();
    data.insert("id", Value::String("minecraft:sign".to_string()));
    data.insert("front_text", Value::Compound(front));
    data.insert("is_waxed", Value::Byte(1));
    let s = decode_one(record("minecraft:sign", Some(vec![0, 0, 0]), Some(data))).unwrap();
    match &s.blocks.block_entities[0].data {
        BlockEntityData::Sign(sign) => {
            assert_eq!(sign.front_text.color, "red");
            assert_eq!(sign.front_text.has_glowing_text, 1);
            assert_eq!(sign.front_text.messages, vec!["hello", "world"]);
            assert_eq!(sign.back_text.color, "black");
            assert_eq!(sign.is_waxed, 1);
        }
        other => panic!("expected a sign, got {:?}", other),
    }
}

#[test]
fn hanging_sign_decodes_like_sign() {
    let mut data_sign = Compound::new();
    data_sign.insert("id", Value::String("minecraft:sign".to_string()));
    let mut data_hanging = Compound::new();
    data_hanging.insert("id", Value::String("minecraft:hanging_sign".to_string()));
    let plain = decode_one(record("minecraft:sign", Some(vec![1, 2, 3]), Some(data_sign))).unwrap();
    let hanging = decode_one(record(
        "minecraft:hanging_sign",
        Some(vec![1, 2, 3]),
        Some(data_hanging),
    ))
    .unwrap();
    let plain_payload = match &plain.blocks.block_entities[0].data {
        BlockEntityData::Sign(sign) => sign,
        other => panic!("expected a sign, got {:?}", other),
    };
    let hanging_payload = match &hanging.blocks.block_entities[0].data {
        BlockEntityData::Sign(sign) => sign,
        other => panic!("expected a sign, got {:?}", other),
    };
    assert_eq!(plain_payload, hanging_payload);
}

#[test]
fn unknown_tag_decodes_to_default() {
    let mut data = Compound::new();
    data.insert("id", Value::String("minecraft:future_block".to_string()));
    let s = decode_one(record(
        "minecraft:future_block",
        Some(vec![4, 5, 6]),
        Some(data),
    ))
    .unwrap();
    match &s.blocks.block_entities[0].data {
        BlockEntityData::Default(d) => assert_eq!(d.id, "minecraft:future_block"),
        other => panic!("expected the fallback shape, got {:?}", other),
    }
}

#[test]
fn absent_data_compound_still_dispatches() {
    let s = decode_one(record("minecraft:bedrock", Some(vec![0, 0, 0]), None)).unwrap();
    match &s.blocks.block_entities[0].data {
        BlockEntityData::Default(d) => assert_eq!(d.id, ""),
        other => panic!("expected the fallback shape, got {:?}", other),
    }
}

#[test]
fn missing_pos_is_invalid_format() {
    let mut data = Compound::new();
    data.insert("id", Value::String("minecraft:sign".to_string()));
    match decode_one(record("minecraft:sign", None, Some(data))) {
        Err(SchematicError::InvalidFormat(_)) => {}
        other => panic!("expected invalid format, got {:?}", other),
    }
}

#[test]
fn two_component_pos_is_invalid_format() {
    let mut data = Compound::new();
    data.insert("id", Value::String("minecraft:sign".to_string()));
    match decode_one(record("minecraft:sign", Some(vec![1, 2]), Some(data))) {
        Err(SchematicError::InvalidFormat(_)) => {}
        other => panic!("expected invalid format, got {:?}", other),
    }
}

#[test]
fn missing_outer_id_is_invalid_format() {
    let mut rec = Compound::new();
    rec.insert("Pos", Value::IntArray(vec![1, 2, 3]));
    match decode_one(rec) {
        Err(SchematicError::InvalidFormat(_)) => {}
        other => panic!("expected invalid format, got {:?}", other),
    }
}

#[test]
fn chest_items_decode() {
    let mut item = Compound::new();
    item.insert("Slot", Value::Byte(0));
    item.insert("Count", Value::Byte(2));
    item.insert("id", Value::String("minecraft:stone".to_string()));
    let mut data = Compound::new();
    data.insert("id", Value::String("minecraft:chest".to_string()));
    data.insert("Items", Value::List(List::Compound(vec![item])));
    let s = decode_one(record("minecraft:chest", Some(vec![0, 1, 2]), Some(data))).unwrap();
    match &s.blocks.block_entities[0].data {
        BlockEntityData::Chest(chest) => {
            assert_eq!(chest.items.len(), 1);
            assert_eq!(chest.items[0].slot, 0);
            assert_eq!(chest.items[0].count, 2);
            assert_eq!(chest.items[0].id, "minecraft:stone");
            assert!(chest.items[0].tag.is_empty());
            assert_eq!(chest.custom_name, None);
            assert_eq!(chest.lock, None);
            assert_eq!(chest.loot_table, None);
            assert_eq!(chest.loot_table_seed, None);
            assert_eq!(chest.gold, None);
        }
        other => panic!("expected a chest, got {:?}", other),
    }
}

#[test]
fn chest_without_items_defaults_to_empty() {
    let mut data = Compound::new();
    data.insert("id", Value::String("minecraft:chest".to_string()));
    data.insert("CustomName", Value::String("loot".to_string()));
    let s = decode_one(record("minecraft:chest", Some(vec![0, 0, 0]), Some(data))).unwrap();
    match &s.blocks.block_entities[0].data {
        BlockEntityData::Chest(chest) => {
            assert!(chest.items.is_empty());
            assert_eq!(chest.custom_name, Some("loot".to_string()));
        }
        other => panic!("expected a chest, got {:?}", other),
    }
}

#[test]
fn malformed_item_fails_whole_decode() {
    let mut item = Compound::new();
    item.insert("Slot", Value::Byte(0));
    item.insert("id", Value::String("minecraft:stone".to_string()));
    let mut data = Compound::new();
    data.insert("id", Value::String("minecraft:chest".to_string()));
    data.insert("Items", Value::List(List::Compound(vec![item])));
    match decode_one(record("minecraft:chest", Some(vec![0, 0, 0]), Some(data))) {
        Err(SchematicError::InvalidFormat(_)) => {}
        other => panic!("expected invalid format, got {:?}", other),
    }
}

#[test]
fn comparator_reads_output_signal() {
    let mut data = Compound::new();
    data.insert("id", Value::String("minecraft:comparator".to_string()));
    data.insert("OutputSignal", Value::Int(12));
    let s = decode_one(record(
        "minecraft:comparator",
        Some(vec![0, 0, 0]),
        Some(data),
    ))
    .unwrap();
    match &s.blocks.block_entities[0].data {
        BlockEntityData::Comparator(c) => assert_eq!(c.output_signal, 12),
        other => panic!("expected a comparator, got {:?}", other),
    }
}

#[test]
fn furnace_reads_times_and_defaults() {
    let mut data = Compound::new();
    data.insert("id", Value::String("minecraft:furnace".to_string()));
    data.insert("BurnTime", Value::Short(7));
    let s = decode_one(record("minecraft:furnace", Some(vec![0, 0, 0]), Some(data))).unwrap();
    match &s.blocks.block_entities[0].data {
        BlockEntityData::Furnace(f) => {
            assert_eq!(f.burn_time, 7);
            assert_eq!(f.cook_time, 0);
            assert_eq!(f.cook_time_total, 0);
            assert!(f.items.is_empty());
            assert!(f.recipes_used.is_empty());
        }
        other => panic!("expected a furnace, got {:?}", other),
    }
}

#[test]
fn structure_block_passes_data_through() {
    let mut data = Compound::new();
    data.insert("id", Value::String("minecraft:structure_block".to_string()));
    data.insert("posX", Value::Int(5));
    let s = decode_one(record(
        "minecraft:structure_block",
        Some(vec![0, 0, 0]),
        Some(data),
    ))
    .unwrap();
    match &s.blocks.block_entities[0].data {
        BlockEntityData::StructureBlock(pairs) => {
            assert!(pairs.contains(&(
                "id".to_string(),
                NbtValue::Str("minecraft:structure_block".to_string())
            )));
            assert!(pairs.contains(&("posX".to_string(), NbtValue::Int(5))));
        }
        other => panic!("expected a structure block, got {:?}", other),
    }
}

#[test]
fn dispatcher_accepts_plain_tree_values() {
    let data = vec![
        (
            "id".to_string(),
            NbtValue::Str("minecraft:jukebox".to_string()),
        ),
        ("IsPlaying".to_string(), NbtValue::Byte(1)),
        ("TickCount".to_string(), NbtValue::Long(40)),
    ];
    match BlockEntityData::parse_block_entity_data(data) {
        Ok(BlockEntityData::JukeBox(j)) => {
            assert_eq!(j.is_playing, 1);
            assert_eq!(j.tick_count, 40);
            assert_eq!(j.record_start_tick, 0);
            assert!(j.record_item.is_empty());
        }
        other => panic!("expected a jukebox, got {:?}", other),
    }
}

#[test]
fn dispatcher_first_id_wins() {
    let data = vec![
        (
            "id".to_string(),
            NbtValue::Str("minecraft:comparator".to_string()),
        ),
        (
            "id".to_string(),
            NbtValue::Str("minecraft:chest".to_string()),
        ),
        ("OutputSignal".to_string(), NbtValue::Int(3)),
    ];
    match BlockEntityData::parse_block_entity_data(data) {
        Ok(BlockEntityData::Comparator(c)) => assert_eq!(c.output_signal, 3),
        other => panic!("expected a comparator, got {:?}", other),
    }
}

#[test]
fn non_string_messages_become_empty_lines() {
    let mut front = Compound::new();
    front.insert("messages", Value::List(List::Int(vec![1, 2])));
    let mut data = Compound::new();
    data.insert("id", Value::String("minecraft:sign".to_string()));
    data.insert("front_text", Value::Compound(front));
    let s = decode_one(record("minecraft:sign", Some(vec![0, 0, 0]), Some(data))).unwrap();
    match &s.blocks.block_entities[0].data {
        BlockEntityData::Sign(sign) => {
            assert_eq!(sign.front_text.messages, vec!["".to_string(), "".to_string()]);
        }
        other => panic!("expected a sign, got {:?}", other),
    }
}

#[test]
fn beehive_reads_flower_positions() {
    let mut bee = Compound::new();
    bee.insert("id", Value::String("minecraft:bee".to_string()));
    let mut data = Compound::new();
    data.insert("id", Value::String("minecraft:beehive".to_string()));
    data.insert("Bees", Value::List(List::Compound(vec![bee])));
    data.insert(
        "FlowerPos",
        Value::List(List::IntArray(vec![vec![1, 2, 3], vec![4, 5]])),
    );
    let s = decode_one(record("minecraft:beehive", Some(vec![0, 0, 0]), Some(data))).unwrap();
    match &s.blocks.block_entities[0].data {
        BlockEntityData::Beehive(b) => {
            assert_eq!(b.bees.len(), 1);
            assert_eq!(b.flower_pos, vec![(1, 2, 3), (0, 0, 0)]);
        }
        other => panic!("expected a beehive, got {:?}", other),
    }
}

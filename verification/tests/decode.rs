use std::io::Write;

use schematics::nbt::NbtValue;
use schematics::{Schematic, SchematicError};
use valence_nbt::{Compound, List, Value};

fn base_root() -> Compound {
    let mut blocks = Compound::new();
    blocks.insert("BlockEntities", Value::List(List::End));
    blocks.insert("Data", Value::ByteArray(vec![0, 1, 2]));
    blocks.insert("Palette", Value::Compound(Compound::new()));
    let mut sc = Compound::new();
    sc.insert("Width", Value::Short(2));
    sc.insert("Height", Value::Short(3));
    sc.insert("Length", Value::Short(4));
    sc.insert("Blocks", Value::Compound(blocks));
    sc.insert("Entities", Value::List(List::End));
    let mut root = Compound::new();
    root.insert("Schematic", Value::Compound(sc));
    root
}

fn to_bytes(root: &Compound) -> Vec<u8> {
    let mut out = Vec::new();
    valence_nbt::to_binary(root, &mut out, "").unwrap();
    out
}

fn gzip(bytes: &[u8]) -> Vec<u8> {
    let mut enc = flate2::write::GzEncoder::new(Vec::new(), flate2::Compression::default());
    enc.write_all(bytes).unwrap();
    enc.finish().unwrap()
}

fn root_without_schematic_field(name: &str) -> Compound {
    let mut root = base_root();
    if let Some(Value::Compound(sc)) = root.get_mut("Schematic") {
        sc.remove(name);
    }
    root
}

fn root_without_blocks_field(name: &str) -> Compound {
    let mut root = base_root();
    if let Some(Value::Compound(sc)) = root.get_mut("Schematic") {
        if let Some(Value::Compound(blocks)) = sc.get_mut("Blocks") {
            blocks.remove(name);
        }
    }
    root
}

#[test]
fn decodes_minimal_schematic() {
    let s = Schematic::from_bytes(&to_bytes(&base_root())).unwrap();
    assert_eq!(s.w, 2);
    assert_eq!(s.h, 3);
    assert_eq!(s.l, 4);
    assert_eq!(s.blocks.data, vec![0, 1, 2]);
    assert!(s.blocks.palette.is_empty());
    assert!(s.blocks.block_entities.is_empty());
    assert!(s.entities.is_empty());
}

#[test]
fn decode_is_idempotent() {
    let bytes = to_bytes(&base_root());
    let first = Schematic::from_bytes(&bytes);
    let second = Schematic::from_bytes(&bytes);
    assert_eq!(first, second);
}

#[test]
fn gzip_and_raw_decode_equal() {
    let raw = to_bytes(&base_root());
    let wrapped = gzip(&raw);
    assert_eq!(wrapped[0], 0x1f);
    assert_eq!(wrapped[1], 0x8b);
    let from_raw = Schematic::from_bytes(&raw).unwrap();
    let from_gzip = Schematic::from_bytes(&wrapped).unwrap();
    assert_eq!(from_raw, from_gzip);
}

#[test]
fn corrupt_gzip_is_parse_error() {
    let bytes = vec![0x1f, 0x8b, 0x00, 0x01, 0x02, 0x03];
    match Schematic::from_bytes(&bytes) {
        Err(SchematicError::ParseError(_)) => {}
        other => panic!("expected a parse error, got {:?}", other),
    }
}

#[test]
fn garbage_bytes_are_parse_error() {
    let bytes = vec![0x42, 0x42, 0x42, 0x42];
    match Schematic::from_bytes(&bytes) {
        Err(SchematicError::ParseError(_)) => {}
        other => panic!("expected a parse error, got {:?}", other),
    }
}

#[test]
fn empty_input_is_parse_error() {
    match Schematic::from_bytes(&[]) {
        Err(SchematicError::ParseError(_)) => {}
        other => panic!("expected a parse error, got {:?}", other),
    }
}

#[test]
fn missing_width_is_invalid_format() {
    let root = root_without_schematic_field("Width");
    match Schematic::from_bytes(&to_bytes(&root)) {
        Err(SchematicError::InvalidFormat(_)) => {}
        other => panic!("expected invalid format, got {:?}", other),
    }
}

#[test]
fn missing_height_is_invalid_format() {
    let root = root_without_schematic_field("Height");
    match Schematic::from_bytes(&to_bytes(&root)) {
        Err(SchematicError::InvalidFormat(_)) => {}
        other => panic!("expected invalid format, got {:?}", other),
    }
}

#[test]
fn missing_length_is_invalid_format() {
    let root = root_without_schematic_field("Length");
    match Schematic::from_bytes(&to_bytes(&root)) {
        Err(SchematicError::InvalidFormat(_)) => {}
        other => panic!("expected invalid format, got {:?}", other),
    }
}

#[test]
fn missing_blocks_is_invalid_format() {
    let root = root_without_schematic_field("Blocks");
    match Schematic::from_bytes(&to_bytes(&root)) {
        Err(SchematicError::InvalidFormat(_)) => {}
        other => panic!("expected invalid format, got {:?}", other),
    }
}

#[test]
fn missing_entities_is_invalid_format() {
    let root = root_without_schematic_field("Entities");
    match Schematic::from_bytes(&to_bytes(&root)) {
        Err(SchematicError::InvalidFormat(_)) => {}
        other => panic!("expected invalid format, got {:?}", other),
    }
}

#[test]
fn missing_palette_is_invalid_format() {
    let root = root_without_blocks_field("Palette");
    match Schematic::from_bytes(&to_bytes(&root)) {
        Err(SchematicError::InvalidFormat(_)) => {}
        other => panic!("expected invalid format, got {:?}", other),
    }
}

#[test]
fn missing_voxel_data_is_invalid_format() {
    let root = root_without_blocks_field("Data");
    match Schematic::from_bytes(&to_bytes(&root)) {
        Err(SchematicError::InvalidFormat(_)) => {}
        other => panic!("expected invalid format, got {:?}", other),
    }
}

#[test]
fn missing_block_entities_is_invalid_format() {
    let root = root_without_blocks_field("BlockEntities");
    match Schematic::from_bytes(&to_bytes(&root)) {
        Err(SchematicError::InvalidFormat(_)) => {}
        other => panic!("expected invalid format, got {:?}", other),
    }
}

#[test]
fn int_width_is_not_widened() {
    let mut root = base_root();
    if let Some(Value::Compound(sc)) = root.get_mut("Schematic") {
        sc.insert("Width", Value::Int(2));
    }
    match Schematic::from_bytes(&to_bytes(&root)) {
        Err(SchematicError::InvalidFormat(_)) => {}
        other => panic!("expected invalid format, got {:?}", other),
    }
}

#[test]
fn byte_array_and_byte_list_decode_alike() {
    let mut as_array = base_root();
    if let Some(Value::Compound(sc)) = as_array.get_mut("Schematic") {
        if let Some(Value::Compound(blocks)) = sc.get_mut("Blocks") {
            blocks.insert("Data", Value::ByteArray(vec![1, -2, 3]));
        }
    }
    let mut as_list = base_root();
    if let Some(Value::Compound(sc)) = as_list.get_mut("Schematic") {
        if let Some(Value::Compound(blocks)) = sc.get_mut("Blocks") {
            blocks.insert("Data", Value::List(List::Byte(vec![1, -2, 3])));
        }
    }
    let from_array = Schematic::from_bytes(&to_bytes(&as_array)).unwrap();
    let from_list = Schematic::from_bytes(&to_bytes(&as_list)).unwrap();
    assert_eq!(from_array.blocks.data, vec![1, -2, 3]);
    assert_eq!(from_array.blocks.data, from_list.blocks.data);
}

#[test]
fn mixed_list_voxel_data_is_invalid_format() {
    let mut root = base_root();
    if let Some(Value::Compound(sc)) = root.get_mut("Schematic") {
        if let Some(Value::Compound(blocks)) = sc.get_mut("Blocks") {
            blocks.insert("Data", Value::List(List::Int(vec![1, 2, 3])));
        }
    }
    match Schematic::from_bytes(&to_bytes(&root)) {
        Err(SchematicError::InvalidFormat(_)) => {}
        other => panic!("expected invalid format, got {:?}", other),
    }
}

#[test]
fn palette_passes_through() {
    let mut root = base_root();
    if let Some(Value::Compound(sc)) = root.get_mut("Schematic") {
        if let Some(Value::Compound(blocks)) = sc.get_mut("Blocks") {
            let mut palette = Compound::new();
            palette.insert("minecraft:stone", Value::Int(0));
            palette.insert("minecraft:dirt", Value::Int(1));
            blocks.insert("Palette", Value::Compound(palette));
        }
    }
    let s = Schematic::from_bytes(&to_bytes(&root)).unwrap();
    assert_eq!(s.blocks.palette.len(), 2);
    assert!(s
        .blocks
        .palette
        .contains(&("minecraft:stone".to_string(), NbtValue::Int(0))));
    assert!(s
        .blocks
        .palette
        .contains(&("minecraft:dirt".to_string(), NbtValue::Int(1))));
}

#[test]
fn entities_pass_through() {
    let mut root = base_root();
    if let Some(Value::Compound(sc)) = root.get_mut("Schematic") {
        let mut pig = Compound::new();
        pig.insert("id", Value::String("minecraft:pig".to_string()));
        sc.insert("Entities", Value::List(List::Compound(vec![pig])));
    }
    let s = Schematic::from_bytes(&to_bytes(&root)).unwrap();
    assert_eq!(s.entities.len(), 1);
    assert_eq!(
        s.entities[0],
        vec![(
            "id".to_string(),
            NbtValue::Str("minecraft:pig".to_string())
        )]
    );
}

#[test]
fn non_compound_entity_is_invalid_format() {
    let mut root = base_root();
    if let Some(Value::Compound(sc)) = root.get_mut("Schematic") {
        sc.insert("Entities", Value::List(List::Int(vec![7])));
    }
    match Schematic::from_bytes(&to_bytes(&root)) {
        Err(SchematicError::InvalidFormat(_)) => {}
        other => panic!("expected invalid format, got {:?}", other),
    }
}

#[test]
fn short_voxel_buffer_is_not_rejected() {
    // The extents bound the expected voxel count, but decode does not
    // enforce the bound; a shorter buffer still decodes.
    let mut root = base_root();
    if let Some(Value::Compound(sc)) = root.get_mut("Schematic") {
        if let Some(Value::Compound(blocks)) = sc.get_mut("Blocks") {
            blocks.insert("Data", Value::ByteArray(vec![9]));
        }
    }
    let s = Schematic::from_bytes(&to_bytes(&root)).unwrap();
    assert_eq!(i64::from(s.w) * i64::from(s.h) * i64::from(s.l), 24);
    assert_eq!(s.blocks.data.len(), 1);
}

#[test]
fn extreme_extents_decode_unchanged() {
    let mut root = base_root();
    if let Some(Value::Compound(sc)) = root.get_mut("Schematic") {
        sc.insert("Width", Value::Short(i16::MAX));
        sc.insert("Height", Value::Short(i16::MIN));
        sc.insert("Length", Value::Short(-1));
    }
    let s = Schematic::from_bytes(&to_bytes(&root)).unwrap();
    assert_eq!(s.w, i16::MAX);
    assert_eq!(s.h, i16::MIN);
    assert_eq!(s.l, -1);
}

//! The decoding pipeline: transport unwrapping, the call into the generic
//! binary tree parser, and the projection of the tree onto a `Schematic`.

use vstd::prelude::*;

use crate::block_entity::spec_block_entity;
use crate::nbt::{
    byte_data, compound_vecs_model, lemma_model_compound, lemma_model_list, list_model,
    pairs_model, spec_byte_data, spec_lookup, take_fields, NbtTree, NbtValue,
};
use crate::{
    BlockEntitySchematic, BlockEntitySchematicModel, BlocksWrapper, BlocksWrapperModel, Schematic,
    SchematicError, SchematicErrorModel, SchematicModel,
};
use valence_nbt::{Compound, List, Value};

verus! {

broadcast use vstd::std_specs::vec::group_vec_axioms, vstd::seq::group_seq_axioms;

#[verifier::external_type_specification]
#[verifier::external_body]
#[verifier::reject_recursive_types(S)]
pub struct ExValue<S>(Value<S>);

#[verifier::external_type_specification]
#[verifier::external_body]
#[verifier::reject_recursive_types(S)]
pub struct ExCompound<S>(Compound<S>);

#[verifier::external_type_specification]
#[verifier::external_body]
#[verifier::reject_recursive_types(S)]
pub struct ExList<S>(List<S>);

/// What gzip decompression yields on a byte stream, or nothing when the
/// stream is corrupt; decompression is a function of the bytes alone.
pub uninterp spec fn gunzip_of(bytes: Seq<u8>) -> Option<Seq<u8>>;

/// Relies on flate2's read::GzDecoder, drained by std's Read::read_to_end:
/// inflates the whole stream, or fails on a corrupt one; the outcome
/// depends on the input bytes alone.
#[verifier::external_body]
fn gunzip(bytes: &[u8]) -> (r: Option<Vec<u8>>)
    ensures
        match r {
            Some(out) => gunzip_of(bytes@) == Some(out@),
            None => gunzip_of(bytes@) is None,
        },
{
    let mut decoder = flate2::read::GzDecoder::new(bytes);
    let mut buffer = Vec::new();
    match std::io::Read::read_to_end(&mut decoder, &mut buffer) {
        Ok(_) => Some(buffer),
        Err(_) => None,
    }
}

/// What the generic binary tree parser yields on a byte stream: the root
/// compound's named children, or nothing when the stream is not a
/// well-formed tree; the result depends on the bytes alone.
pub uninterp spec fn nbt_parse_of(bytes: Seq<u8>) -> Option<Seq<(Seq<char>, NbtTree)>>;

/// Relies on valence_nbt::Value: moves each leaf and node into the
/// library's tree, one variant to one variant, floats as their raw bits.
#[verifier::external_body]
fn value_to_nbt(v: Value) -> NbtValue {
    match v {
        Value::Byte(x) => NbtValue::Byte(x),
        Value::Short(x) => NbtValue::Short(x),
        Value::Int(x) => NbtValue::Int(x),
        Value::Long(x) => NbtValue::Long(x),
        Value::Float(x) => NbtValue::Float(x.to_bits()),
        Value::Double(x) => NbtValue::Double(x.to_bits()),
        Value::ByteArray(x) => NbtValue::ByteArray(x),
        Value::IntArray(x) => NbtValue::IntArray(x),
        Value::LongArray(x) => NbtValue::LongArray(x),
        Value::String(x) => NbtValue::Str(x),
        Value::List(l) => NbtValue::List(list_to_values(l)),
        Value::Compound(c) => NbtValue::Compound(compound_to_pairs(c)),
    }
}

/// Relies on valence_nbt::List's by-value iterator: yields the elements in
/// list order, each converted.
#[verifier::external_body]
fn list_to_values(l: List) -> Vec<NbtValue> {
    l.into_iter().map(value_to_nbt).collect()
}

/// Relies on valence_nbt::Compound's by-value iterator: yields the named
/// children in the compound's fixed key order, each converted.
#[verifier::external_body]
fn compound_to_pairs(c: Compound) -> Vec<(String, NbtValue)> {
    c.into_iter().map(|(k, v)| (k, value_to_nbt(v))).collect()
}

/// Relies on valence_nbt::from_binary: parses a named binary tag stream
/// into its root compound, which the conversions above then restate in the
/// library's tree; the compound's key order is fixed by its contents, so
/// the whole result is a function of the bytes alone.
#[verifier::external_body]
fn parse_binary_nbt(bytes: &[u8]) -> (r: Option<Vec<(String, NbtValue)>>)
    ensures
        match r {
            Some(ps) => nbt_parse_of(bytes@) == Some(pairs_model(ps@)),
            None => nbt_parse_of(bytes@) is None,
        },
{
    let mut slice: &[u8] = bytes;
    match valence_nbt::from_binary::<String>(&mut slice) {
        Ok((compound, _root_name)) => Some(compound_to_pairs(compound)),
        Err(_) => None,
    }
}

/// A short leaf child of the given name, if one is present with that exact
/// width.
pub open spec fn spec_short_field(ps: Seq<(Seq<char>, NbtTree)>, key: Seq<char>) -> Option<i16> {
    match spec_lookup(ps, key) {
        Some(NbtTree::Short(v)) => Some(v),
        _ => None,
    }
}

/// A compound child of the given name, if one is present.
pub open spec fn spec_compound_field(ps: Seq<(Seq<char>, NbtTree)>, key: Seq<char>) -> Option<
    Seq<(Seq<char>, NbtTree)>,
> {
    match spec_lookup(ps, key) {
        Some(NbtTree::Compound(inner)) => Some(inner),
        _ => None,
    }
}

/// A list child of the given name, if one is present.
pub open spec fn spec_list_field(ps: Seq<(Seq<char>, NbtTree)>, key: Seq<char>) -> Option<
    Seq<NbtTree>,
> {
    match spec_lookup(ps, key) {
        Some(NbtTree::List(ts)) => Some(ts),
        _ => None,
    }
}

/// The entity list: every element must itself be a compound, and each is
/// passed through opaque.
pub open spec fn spec_entities_of(ts: Seq<NbtTree>) -> Option<Seq<Seq<(Seq<char>, NbtTree)>>> {
    if forall|i: int| 0 <= i < ts.len() ==> (#[trigger] ts[i]) is Compound {
        Some(Seq::new(ts.len(), |i: int| ts[i]->Compound_0))
    } else {
        None
    }
}

/// The block entity list, record by record, stopping at the first
/// malformed record.
pub open spec fn spec_block_entities(ts: Seq<NbtTree>) -> Result<
    Seq<BlockEntitySchematicModel>,
    SchematicErrorModel,
>
    decreases ts.len(),
{
    if ts.len() == 0 {
        Ok(Seq::empty())
    } else {
        match ts[0] {
            NbtTree::Compound(ps) => match spec_block_entity(ps) {
                Ok(b) => match spec_block_entities(ts.drop_first()) {
                    Ok(rest) => Ok(seq![b] + rest),
                    Err(e) => Err(e),
                },
                Err(e) => Err(e),
            },
            _ => Err(SchematicErrorModel::InvalidFormat("mistyped block entity record"@)),
        }
    }
}

/// The blocks sub-compound: a block entity list, the voxel index buffer in
/// either of its wire shapes, and the palette passed through opaque, each
/// required.
pub open spec fn spec_blocks(bs: Seq<(Seq<char>, NbtTree)>) -> Result<
    BlocksWrapperModel,
    SchematicErrorModel,
> {
    match spec_list_field(bs, "BlockEntities"@) {
        Some(ts) => match spec_block_entities(ts) {
            Ok(bes) => match spec_byte_data(spec_lookup(bs, "Data"@)) {
                Some(data) => match spec_compound_field(bs, "Palette"@) {
                    Some(palette) => Ok(
                        (BlocksWrapperModel { block_entities: bes, data, palette }),
                    ),
                    None => Err(SchematicErrorModel::InvalidFormat("missing or mistyped Palette"@)),
                },
                None => Err(SchematicErrorModel::InvalidFormat("missing or malformed Data"@)),
            },
            Err(e) => Err(e),
        },
        None => Err(SchematicErrorModel::InvalidFormat("missing or mistyped BlockEntities"@)),
    }
}

/// The schematic compound: the three sixteen-bit extents, the blocks
/// sub-compound, and the entity list, each required, checked in that
/// order, and the whole decode failing on the first violation.
pub open spec fn spec_schematic(sc: Seq<(Seq<char>, NbtTree)>) -> Result<
    SchematicModel,
    SchematicErrorModel,
> {
    match spec_short_field(sc, "Width"@) {
        Some(w) => match spec_short_field(sc, "Height"@) {
            Some(h) => match spec_short_field(sc, "Length"@) {
                Some(l) => match spec_compound_field(sc, "Blocks"@) {
                    Some(bs) => match spec_blocks(bs) {
                        Ok(blocks) => match spec_list_field(sc, "Entities"@) {
                            Some(ts) => match spec_entities_of(ts) {
                                Some(entities) => Ok(
                                    (SchematicModel { w, h, l, blocks, entities }),
                                ),
                                None => Err(
                                    SchematicErrorModel::InvalidFormat("mistyped entity record"@),
                                ),
                            },
                            None => Err(
                                SchematicErrorModel::InvalidFormat("missing or mistyped Entities"@),
                            ),
                        },
                        Err(e) => Err(e),
                    },
                    None => Err(SchematicErrorModel::InvalidFormat("missing or mistyped Blocks"@)),
                },
                None => Err(SchematicErrorModel::InvalidFormat("missing or mistyped Length"@)),
            },
            None => Err(SchematicErrorModel::InvalidFormat("missing or mistyped Height"@)),
        },
        None => Err(SchematicErrorModel::InvalidFormat("missing or mistyped Width"@)),
    }
}

/// The root compound must hold a compound child named "Schematic".
pub open spec fn spec_project(root: Seq<(Seq<char>, NbtTree)>) -> Result<
    SchematicModel,
    SchematicErrorModel,
> {
    match spec_compound_field(root, "Schematic"@) {
        Some(sc) => spec_schematic(sc),
        None => Err(SchematicErrorModel::InvalidFormat("missing or mistyped Schematic"@)),
    }
}

/// Whether a buffer opens with the two-byte gzip magic sequence.
pub open spec fn is_gzip_magic(bytes: Seq<u8>) -> bool {
    bytes.len() >= 2 && bytes[0] == 0x1fu8 && bytes[1] == 0x8bu8
}

/// Decoding an uncompressed buffer: parse the tree, then project it.
pub open spec fn spec_decode_raw(bytes: Seq<u8>) -> Result<SchematicModel, SchematicErrorModel> {
    match nbt_parse_of(bytes) {
        Some(root) => spec_project(root),
        None => Err(SchematicErrorModel::ParseError("binary tree parse failed"@)),
    }
}

/// The whole decode: unwrap the transport by the magic bytes, then decode
/// the raw buffer.
pub open spec fn spec_decode(bytes: Seq<u8>) -> Result<SchematicModel, SchematicErrorModel> {
    if is_gzip_magic(bytes) {
        match gunzip_of(bytes) {
            Some(payload) => spec_decode_raw(payload),
            None => Err(SchematicErrorModel::ParseError("gzip decompression failed"@)),
        }
    } else {
        spec_decode_raw(bytes)
    }
}

/// The abstract contents of a vector of block entities.
pub open spec fn bes_model(s: Seq<BlockEntitySchematic>) -> Seq<BlockEntitySchematicModel> {
    Seq::new(s.len(), |i: int| s[i]@)
}

fn decode_block_entities(es: Vec<NbtValue>) -> (r: Result<
    Vec<BlockEntitySchematic>,
    SchematicError,
>)
    ensures
        match r {
            Ok(out) => spec_block_entities(list_model(es@)) == Ok::<
                Seq<BlockEntitySchematicModel>,
                SchematicErrorModel,
            >(bes_model(out@)),
            Err(e) => spec_block_entities(list_model(es@)) == Err::<
                Seq<BlockEntitySchematicModel>,
                SchematicErrorModel,
            >(e@),
        },
{
    let ghost es0: Seq<NbtValue> = es@;
    let ghost ts: Seq<NbtTree> = list_model(es0);
    let mut rem = es;
    let mut out: Vec<BlockEntitySchematic> = Vec::new();
    proof {
        assert(ts.skip(0) =~= ts);
        match spec_block_entities(ts) {
            Ok(rest) => {
                assert(bes_model(out@) + rest =~= rest);
            },
            Err(_) => {},
        }
    }
    while rem.len() > 0
        invariant
            out@.len() + rem@.len() == es0.len(),
            ts == list_model(es0),
            es0 == es@,
            rem@ =~= es0.skip(out@.len() as int),
            spec_block_entities(ts) == (match spec_block_entities(
                ts.skip(out@.len() as int),
            ) {
                Ok(rest) => Ok::<Seq<BlockEntitySchematicModel>, SchematicErrorModel>(
                    bes_model(out@) + rest,
                ),
                Err(e) => Err(e),
            }),
        decreases rem@.len(),
    {
        let ghost k: int = out@.len() as int;
        let e = rem.remove(0);
        assert(e == es0[k]);
        proof {
            assert(ts.skip(k).drop_first() =~= ts.skip(k + 1));
            assert(ts.skip(k)[0] == ts[k]);
        }
        match e {
            NbtValue::Compound(ps) => {
                proof {
                    lemma_model_compound(ps);
                }
                match BlockEntitySchematic::from_compound(ps) {
                    Ok(b) => {
                        let ghost out_old: Seq<BlockEntitySchematic> = out@;
                        let ghost bm = b@;
                        out.push(b);
                        proof {
                            assert(rem@ =~= es0.skip(out@.len() as int));
                            assert(ts.skip(k).len() > 0);
                            match spec_block_entities(ts.skip(k + 1)) {
                                Ok(rest) => {
                                    assert(bes_model(out@) =~= bes_model(out_old).push(bm));
                                    assert(bes_model(out_old) + (seq![bm] + rest) =~= bes_model(
                                        out@,
                                    ) + rest);
                                },
                                Err(_) => {},
                            }
                        }
                    },
                    Err(err) => {
                        return Err(err);
                    },
                }
            },
            _ => {
                proof {
                    assert(!(ts[k] is Compound));
                }
                return Err(SchematicError::InvalidFormat(String::from_str(
                    "mistyped block entity record",
                )));
            },
        }
    }
    proof {
        assert(ts.skip(out@.len() as int) =~= Seq::<NbtTree>::empty());
        match spec_block_entities(ts) {
            Ok(rest) => {},
            Err(_) => {},
        }
        assert(bes_model(out@) + Seq::<BlockEntitySchematicModel>::empty() =~= bes_model(out@));
    }
    Ok(out)
}

fn decode_entities(es: Vec<NbtValue>) -> (r: Result<
    Vec<Vec<(String, NbtValue)>>,
    SchematicError,
>)
    ensures
        match r {
            Ok(out) => spec_entities_of(list_model(es@)) == Some(compound_vecs_model(out@)),
            Err(e) => spec_entities_of(list_model(es@)) is None && e@
                == SchematicErrorModel::InvalidFormat("mistyped entity record"@),
        },
{
    let ghost es0: Seq<NbtValue> = es@;
    let ghost ts: Seq<NbtTree> = list_model(es0);
    let mut rem = es;
    let mut out: Vec<Vec<(String, NbtValue)>> = Vec::new();
    while rem.len() > 0
        invariant
            out@.len() + rem@.len() == es0.len(),
            ts == list_model(es0),
            es0 == es@,
            rem@ =~= es0.skip(out@.len() as int),
            forall|j: int| 0 <= j < out@.len() ==> (#[trigger] ts[j]) is Compound,
            forall|j: int|
                0 <= j < out@.len() ==> pairs_model((#[trigger] out@[j])@) == ts[j]->Compound_0,
        decreases rem@.len(),
    {
        let ghost k: int = out@.len() as int;
        let e = rem.remove(0);
        assert(e == es0[k]);
        match e {
            NbtValue::Compound(ps) => {
                proof {
                    lemma_model_compound(ps);
                }
                out.push(ps);
                proof {
                    assert(rem@ =~= es0.skip(out@.len() as int));
                }
            },
            _ => {
                proof {
                    assert(!(ts[k] is Compound));
                }
                return Err(SchematicError::InvalidFormat(String::from_str(
                    "mistyped entity record",
                )));
            },
        }
    }
    proof {
        assert(compound_vecs_model(out@) =~= Seq::new(ts.len(), |i: int| ts[i]->Compound_0));
    }
    Ok(out)
}

fn decode_blocks(bs: Vec<(String, NbtValue)>) -> (r: Result<BlocksWrapper, SchematicError>)
    ensures
        match r {
            Ok(b) => spec_blocks(pairs_model(bs@)) == Ok::<BlocksWrapperModel, SchematicErrorModel>(
                b@,
            ),
            Err(e) => spec_blocks(pairs_model(bs@)) == Err::<
                BlocksWrapperModel,
                SchematicErrorModel,
            >(e@),
        },
{
    let keys: Vec<String> = vec![
        String::from_str("BlockEntities"),
        String::from_str("Data"),
        String::from_str("Palette"),
    ];
    proof {
        reveal_strlit("BlockEntities");
        reveal_strlit("Data");
        reveal_strlit("Palette");
        assert forall|m: int, n: int|
            0 <= m < n < keys@.len() implies keys@[m]@ != keys@[n]@ by {
            assert(keys@[0]@.len() == 13);
            assert(keys@[1]@.len() == 4);
            assert(keys@[2]@.len() == 7);
        }
    }
    let mut slots = take_fields(bs, &keys);
    let s_palette = slots.pop().unwrap();
    let s_data = slots.pop().unwrap();
    let s_entities = slots.pop().unwrap();
    let bes = match s_entities {
        Some(NbtValue::List(es)) => {
            proof {
                lemma_model_list(es);
            }
            match decode_block_entities(es) {
                Ok(bes) => bes,
                Err(e) => {
                    return Err(e);
                },
            }
        },
        _ => {
            return Err(SchematicError::InvalidFormat(String::from_str(
                "missing or mistyped BlockEntities",
            )));
        },
    };
    let data = match byte_data(s_data) {
        Some(d) => d,
        None => {
            return Err(SchematicError::InvalidFormat(String::from_str(
                "missing or malformed Data",
            )));
        },
    };
    let palette = match s_palette {
        Some(NbtValue::Compound(ps)) => {
            proof {
                lemma_model_compound(ps);
            }
            ps
        },
        _ => {
            return Err(SchematicError::InvalidFormat(String::from_str(
                "missing or mistyped Palette",
            )));
        },
    };
    Ok(BlocksWrapper { block_entities: bes, data, palette })
}

fn decode_schematic(sc: Vec<(String, NbtValue)>) -> (r: Result<Schematic, SchematicError>)
    ensures
        match r {
            Ok(s) => spec_schematic(pairs_model(sc@)) == Ok::<SchematicModel, SchematicErrorModel>(
                s@,
            ),
            Err(e) => spec_schematic(pairs_model(sc@)) == Err::<SchematicModel, SchematicErrorModel>(
                e@,
            ),
        },
{
    let keys: Vec<String> = vec![
        String::from_str("Width"),
        String::from_str("Height"),
        String::from_str("Length"),
        String::from_str("Blocks"),
        String::from_str("Entities"),
    ];
    proof {
        reveal_strlit("Width");
        reveal_strlit("Height");
        reveal_strlit("Length");
        reveal_strlit("Blocks");
        reveal_strlit("Entities");
        assert forall|m: int, n: int|
            0 <= m < n < keys@.len() implies keys@[m]@ != keys@[n]@ by {
            assert(keys@[0]@.len() == 5);
            assert(keys@[1]@.len() == 6);
            assert(keys@[2]@.len() == 6);
            assert(keys@[3]@.len() == 6);
            assert(keys@[4]@.len() == 8);
            assert(keys@[1]@[0] == 'H');
            assert(keys@[2]@[0] == 'L');
            assert(keys@[3]@[0] == 'B');
        }
    }
    let mut slots = take_fields(sc, &keys);
    let s_entities = slots.pop().unwrap();
    let s_blocks = slots.pop().unwrap();
    let s_length = slots.pop().unwrap();
    let s_height = slots.pop().unwrap();
    let s_width = slots.pop().unwrap();
    let w = match s_width {
        Some(NbtValue::Short(v)) => v,
        _ => {
            return Err(SchematicError::InvalidFormat(String::from_str(
                "missing or mistyped Width",
            )));
        },
    };
    let h = match s_height {
        Some(NbtValue::Short(v)) => v,
        _ => {
            return Err(SchematicError::InvalidFormat(String::from_str(
                "missing or mistyped Height",
            )));
        },
    };
    let l = match s_length {
        Some(NbtValue::Short(v)) => v,
        _ => {
            return Err(SchematicError::InvalidFormat(String::from_str(
                "missing or mistyped Length",
            )));
        },
    };
    let blocks = match s_blocks {
        Some(NbtValue::Compound(bs)) => {
            proof {
                lemma_model_compound(bs);
            }
            match decode_blocks(bs) {
                Ok(b) => b,
                Err(e) => {
                    return Err(e);
                },
            }
        },
        _ => {
            return Err(SchematicError::InvalidFormat(String::from_str(
                "missing or mistyped Blocks",
            )));
        },
    };
    let entities = match s_entities {
        Some(NbtValue::List(es)) => {
            proof {
                lemma_model_list(es);
            }
            match decode_entities(es) {
                Ok(ents) => ents,
                Err(e) => {
                    return Err(e);
                },
            }
        },
        _ => {
            return Err(SchematicError::InvalidFormat(String::from_str(
                "missing or mistyped Entities",
            )));
        },
    };
    Ok(Schematic { w, h, l, blocks, entities })
}

fn project(root: Vec<(String, NbtValue)>) -> (r: Result<Schematic, SchematicError>)
    ensures
        match r {
            Ok(s) => spec_project(pairs_model(root@)) == Ok::<SchematicModel, SchematicErrorModel>(
                s@,
            ),
            Err(e) => spec_project(pairs_model(root@)) == Err::<SchematicModel, SchematicErrorModel>(
                e@,
            ),
        },
{
    let keys: Vec<String> = vec![String::from_str("Schematic")];
    let mut slots = take_fields(root, &keys);
    let s_schematic = slots.pop().unwrap();
    match s_schematic {
        Some(NbtValue::Compound(sc)) => {
            proof {
                lemma_model_compound(sc);
            }
            decode_schematic(sc)
        },
        _ => Err(SchematicError::InvalidFormat(String::from_str("missing or mistyped Schematic"))),
    }
}

impl Schematic {
    /// Decodes a schematic from a byte buffer: detects and unwraps gzip
    /// compression by the magic bytes, parses the named binary tag tree,
    /// and projects it onto the typed model, all or nothing.
    pub fn from_bytes(bytes: &[u8]) -> (r: Result<Schematic, SchematicError>)
        ensures
            match r {
                Ok(s) => spec_decode(bytes@) == Ok::<SchematicModel, SchematicErrorModel>(s@),
                Err(e) => spec_decode(bytes@) == Err::<SchematicModel, SchematicErrorModel>(e@),
            },
    {
        let payload: Vec<u8>;
        if bytes.len() >= 2 && *vstd::slice::slice_index_get(bytes, 0) == 0x1fu8
            && *vstd::slice::slice_index_get(bytes, 1) == 0x8bu8 {
            match gunzip(bytes) {
                Some(buf) => {
                    payload = buf;
                },
                None => {
                    return Err(SchematicError::ParseError(String::from_str(
                        "gzip decompression failed",
                    )));
                },
            }
        } else {
            payload = vstd::slice::slice_to_vec(bytes);
        }
        match parse_binary_nbt(payload.as_slice()) {
            Some(root) => project(root),
            None => Err(SchematicError::ParseError(String::from_str("binary tree parse failed"))),
        }
    }
}

/// Decoding is a function of the input bytes: two decodes of the same
/// buffer yield the same result.
pub proof fn lemma_decode_deterministic(
    bytes: Seq<u8>,
    r1: Result<SchematicModel, SchematicErrorModel>,
    r2: Result<SchematicModel, SchematicErrorModel>,
)
    requires
        r1 == spec_decode(bytes),
        r2 == spec_decode(bytes),
    ensures
        r1 == r2,
{
}

/// A gzip-wrapped buffer and its raw payload decode to the same result,
/// whenever the payload does not itself open with the gzip magic bytes.
pub proof fn lemma_gzip_raw_agree(gz: Seq<u8>, raw: Seq<u8>)
    requires
        is_gzip_magic(gz),
        gunzip_of(gz) == Some(raw),
        !is_gzip_magic(raw),
    ensures
        spec_decode(gz) == spec_decode(raw),
{
}

/// Every block entity of a successfully decoded list carries exactly a
/// three-component position.
pub proof fn lemma_block_entities_pos_wf(ts: Seq<NbtTree>)
    ensures
        match spec_block_entities(ts) {
            Ok(bes) => forall|i: int|
                0 <= i < bes.len() ==> (#[trigger] bes[i]).pos.len() == 3,
            Err(_) => true,
        },
    decreases ts.len(),
{
    if ts.len() > 0 {
        lemma_block_entities_pos_wf(ts.drop_first());
        match spec_block_entities(ts) {
            Ok(bes) => {
                match ts[0] {
                    NbtTree::Compound(ps) => {
                        match spec_block_entity(ps) {
                            Ok(b) => {
                                assert(b.pos.len() == 3);
                                match spec_block_entities(ts.drop_first()) {
                                    Ok(rest) => {
                                        assert(bes == seq![b] + rest);
                                        assert forall|i: int|
                                            0 <= i < bes.len() implies (#[trigger] bes[i]).pos.len()
                                            == 3 by {
                                            if i > 0 {
                                                assert(bes[i] == rest[i - 1]);
                                            }
                                        }
                                    },
                                    Err(_) => {},
                                }
                            },
                            Err(_) => {},
                        }
                    },
                    _ => {},
                }
            },
            Err(_) => {},
        }
    }
}

/// Every block entity of a successfully decoded schematic carries exactly
/// a three-component position.
pub proof fn lemma_decoded_positions_wf(bytes: Seq<u8>)
    ensures
        match spec_decode(bytes) {
            Ok(s) => forall|i: int|
                0 <= i < s.blocks.block_entities.len() ==> (#[trigger] s.blocks.block_entities[i]).pos.len() == 3,
            Err(_) => true,
        },
{
    match spec_decode(bytes) {
        Ok(s) => {
            let payload = if is_gzip_magic(bytes) {
                gunzip_of(bytes)->Some_0
            } else {
                bytes
            };
            let root = nbt_parse_of(payload)->Some_0;
            let sc = spec_compound_field(root, "Schematic"@)->Some_0;
            let bs = spec_compound_field(sc, "Blocks"@)->Some_0;
            let ts = spec_list_field(bs, "BlockEntities"@)->Some_0;
            lemma_block_entities_pos_wf(ts);
        },
        Err(_) => {},
    }
}

/// Every failure of the block entity list is an invalid-format failure.
pub proof fn lemma_block_entities_err_kind(ts: Seq<NbtTree>)
    ensures
        match spec_block_entities(ts) {
            Ok(_) => true,
            Err(e) => e is InvalidFormat,
        },
    decreases ts.len(),
{
    if ts.len() > 0 {
        lemma_block_entities_err_kind(ts.drop_first());
    }
}

/// Every failure of the blocks sub-compound is an invalid-format failure.
pub proof fn lemma_blocks_err_kind(bs: Seq<(Seq<char>, NbtTree)>)
    ensures
        match spec_blocks(bs) {
            Ok(_) => true,
            Err(e) => e is InvalidFormat,
        },
{
    match spec_list_field(bs, "BlockEntities"@) {
        Some(ts) => lemma_block_entities_err_kind(ts),
        None => {},
    }
}

/// A schematic compound missing any of its three extents fails with an
/// invalid-format error, never with a panic or a zero-valued result.
pub proof fn lemma_missing_dimension(sc: Seq<(Seq<char>, NbtTree)>)
    requires
        spec_short_field(sc, "Width"@) is None || spec_short_field(sc, "Height"@) is None
            || spec_short_field(sc, "Length"@) is None,
    ensures
        spec_schematic(sc) is Err,
        match spec_schematic(sc) {
            Ok(_) => false,
            Err(e) => e is InvalidFormat,
        },
{
}

/// A blocks sub-compound missing its palette fails with an invalid-format
/// error.
pub proof fn lemma_missing_palette(bs: Seq<(Seq<char>, NbtTree)>)
    requires
        spec_compound_field(bs, "Palette"@) is None,
    ensures
        spec_blocks(bs) is Err,
        match spec_blocks(bs) {
            Ok(_) => false,
            Err(e) => e is InvalidFormat,
        },
{
    lemma_blocks_err_kind(bs);
}

/// A schematic compound missing its entity list fails with an
/// invalid-format error.
pub proof fn lemma_missing_entities(sc: Seq<(Seq<char>, NbtTree)>)
    requires
        spec_list_field(sc, "Entities"@) is None,
    ensures
        spec_schematic(sc) is Err,
        match spec_schematic(sc) {
            Ok(_) => false,
            Err(e) => e is InvalidFormat,
        },
{
    match spec_compound_field(sc, "Blocks"@) {
        Some(bs) => lemma_blocks_err_kind(bs),
        None => {},
    }
}

} // verus!

//! The block-entity tag dispatcher: given one record's data compound, pick
//! the payload shape named by its dispatch tag and decode that shape's
//! fields with per-field defaulting.

use vstd::prelude::*;

use crate::block_entity_data::{
    BlockEntityData, BlockEntityDataModel, DefaultBlockEntityData, DefaultBlockEntityDataModel,
    BannerBlockEntityData, BannerBlockEntityDataModel, BarrelBlockEntityData,
    BarrelBlockEntityDataModel, BeaconBlockEntityData, BeaconBlockEntityDataModel,
    BeehiveBlockEntityData, BeehiveBlockEntityDataModel, BlastFurnanceBlockEntityData,
    BlastFurnanceBlockEntityDataModel, BrewingStandBlockEntityData,
    BrewingStandBlockEntityDataModel, CampFireBlockEntityData, CampFireBlockEntityDataModel,
    ChestBlockEntityData, ChestBlockEntityDataModel, ChiseledBookShelfBlockEntityData,
    ChiseledBookShelfBlockEntityDataModel, CommandBlockEntityData, CommandBlockEntityDataModel,
    ComparatorBlockEntityData, ComparatorBlockEntityDataModel, ConduitBlockEntityData,
    ConduitBlockEntityDataModel, DispenserBlockEntityData, DispenserBlockEntityDataModel,
    DropperBlockEntityData, DropperBlockEntityDataModel, EndGatewayBlockEntityData,
    EndGatewayBlockEntityDataModel, FurnaceBlockEntityData, FurnaceBlockEntityDataModel,
    HopperBlockEntityData, HopperBlockEntityDataModel, Item, ItemModel, JigSawBlockEntityData,
    JigSawBlockEntityDataModel, JukeBoxBlockEntityData, JukeBoxBlockEntityDataModel,
    LecternBlockEntityData, LecternBlockEntityDataModel, Pattern, PatternModel,
    PistonBlockEntityData, PistonBlockEntityDataModel, ShulkerBoxBlockEntityData,
    ShulkerBoxBlockEntityDataModel, SignBlockEntityData, SignBlockEntityDataModel, SignTextData,
    SignTextDataModel, SkullBlockEntityData, SkullBlockEntityDataModel, SmokerBlockEntityData,
    SmokerBlockEntityDataModel, SoulCampFireBlockEntityData, SoulCampFireBlockEntityDataModel,
    TrappedChestBlockEntityData, TrappedChestBlockEntityDataModel,
};
use crate::nbt::{
    byte_as_int_or, byte_or, compound_list_or, compound_or, compound_vecs_model, float_bits_or,
    int_array_or, int_or, int_triples_or, lemma_model_compound, lemma_model_list, list_model,
    long_or, opt_byte, opt_long, opt_model, opt_string, pairs_model, spec_byte_as_int_or,
    spec_byte_or, spec_compound_list_or, spec_compound_or, spec_float_bits_or, spec_int_array_or,
    spec_int_or, spec_int_triples_or, spec_long_or, spec_lookup, spec_opt_byte, spec_opt_long,
    spec_opt_string, spec_short_or, spec_string_list_or, spec_string_or, short_or,
    string_list_or, string_or, take_fields, NbtTree, NbtValue,
};
use crate::nbt::find_string;
use crate::{BlockEntitySchematic, BlockEntitySchematicModel, SchematicError, SchematicErrorModel};

verus! {

broadcast use vstd::std_specs::vec::group_vec_axioms, vstd::seq::group_seq_axioms;

/// Whether one element of a container's item list is well formed: a
/// compound whose slot index, count, and identifier are present with their
/// expected leaf shapes.
pub open spec fn spec_item_ok(t: NbtTree) -> bool {
    &&& t is Compound
    &&& spec_opt_byte(spec_lookup(t->Compound_0, "Slot"@)) is Some
    &&& spec_opt_byte(spec_lookup(t->Compound_0, "Count"@)) is Some
    &&& spec_opt_string(spec_lookup(t->Compound_0, "id"@)) is Some
}

/// The decoded shape of a well-formed container item; its extra tag
/// defaults to an empty compound.
pub open spec fn spec_item_model(t: NbtTree) -> ItemModel {
    let ps = t->Compound_0;
    (ItemModel {
        count: spec_byte_or(spec_lookup(ps, "Count"@), 0),
        slot: spec_byte_or(spec_lookup(ps, "Slot"@), 0),
        id: spec_string_or(spec_lookup(ps, "id"@), Seq::empty()),
        tag: spec_compound_or(spec_lookup(ps, "tag"@)),
    })
}

/// The abstract contents of a vector of items.
pub open spec fn items_model(items: Seq<Item>) -> Seq<ItemModel> {
    Seq::new(items.len(), |i: int| items[i]@)
}

/// An item list field: an absent or non-list child defaults to no items; a
/// present list decodes item by item, and one malformed item fails the
/// whole list.
pub open spec fn spec_items_or(v: Option<NbtTree>) -> Option<Seq<ItemModel>> {
    match v {
        Some(NbtTree::List(ts)) => if forall|i: int|
            0 <= i < ts.len() ==> spec_item_ok(#[trigger] ts[i]) {
            Some(Seq::new(ts.len(), |i: int| spec_item_model(ts[i])))
        } else {
            None
        },
        _ => Some(Seq::empty()),
    }
}

/// The error every malformed container item produces.
pub open spec fn spec_item_error() -> SchematicErrorModel {
    SchematicErrorModel::InvalidFormat("malformed container item"@)
}

/// Decodes one element of a container's item list, strictly: a missing or
/// mistyped slot, count, or identifier is a hard failure.
pub fn decode_item(e: NbtValue) -> (r: Result<Item, SchematicError>)
    ensures
        match r {
            Ok(it) => spec_item_ok(e.model()) && it@ == spec_item_model(e.model()),
            Err(err) => !spec_item_ok(e.model()) && err@ == spec_item_error(),
        },
{
    match e {
        NbtValue::Compound(ps) => {
            proof {
                lemma_model_compound(ps);
            }
            let keys: Vec<String> = vec![
                String::from_str("Slot"),
                String::from_str("Count"),
                String::from_str("id"),
                String::from_str("tag"),
            ];
            proof {
                reveal_strlit("Slot");
                reveal_strlit("Count");
                reveal_strlit("id");
                reveal_strlit("tag");
                assert forall|m: int, n: int|
                    0 <= m < n < keys@.len() implies keys@[m]@ != keys@[n]@ by {
                    assert(keys@[0]@.len() == 4);
                    assert(keys@[1]@.len() == 5);
                    assert(keys@[2]@.len() == 2);
                    assert(keys@[3]@.len() == 3);
                }
            }
            let mut slots = take_fields(ps, &keys);
            let s_tag = slots.pop().unwrap();
            let s_id = slots.pop().unwrap();
            let s_count = slots.pop().unwrap();
            let s_slot = slots.pop().unwrap();
            let slot_v = opt_byte(s_slot);
            let count_v = opt_byte(s_count);
            let id_v = opt_string(s_id);
            match (slot_v, count_v, id_v) {
                (Some(slot), Some(count), Some(id)) => Ok(
                    Item { count, slot, id, tag: compound_or(s_tag) },
                ),
                _ => Err(SchematicError::InvalidFormat(String::from_str(
                    "malformed container item",
                ))),
            }
        },
        _ => Err(SchematicError::InvalidFormat(String::from_str("malformed container item"))),
    }
}

/// Decodes an item list field with per-item strictness.
pub fn items_or(v: Option<NbtValue>) -> (r: Result<Vec<Item>, SchematicError>)
    ensures
        match r {
            Ok(items) => spec_items_or(opt_model(v)) == Some(items_model(items@)),
            Err(err) => spec_items_or(opt_model(v)) is None && err@ == spec_item_error(),
        },
{
    match v {
        Some(NbtValue::List(es)) => {
            proof {
                lemma_model_list(es);
            }
            let ghost es0: Seq<NbtValue> = es@;
            let ghost ts: Seq<NbtTree> = list_model(es0);
            let mut es = es;
            let mut out: Vec<Item> = Vec::new();
            while es.len() > 0
                invariant
                    out@.len() + es@.len() == es0.len(),
                    ts == list_model(es0),
                    opt_model(v) == Some(NbtTree::List(ts)),
                    es@ =~= es0.skip(out@.len() as int),
                    forall|j: int|
                        0 <= j < out@.len() ==> spec_item_ok(#[trigger] ts[j]) && out@[j]@
                            == spec_item_model(ts[j]),
                decreases es@.len(),
            {
                let ghost k: int = out@.len() as int;
                let e = es.remove(0);
                assert(e == es0[k]);
                match decode_item(e) {
                    Ok(it) => {
                        out.push(it);
                    },
                    Err(err) => {
                        proof {
                            assert(!spec_item_ok(ts[k]));
                        }
                        return Err(err);
                    },
                }
                proof {
                    assert(es@ =~= es0.skip(out@.len() as int));
                }
            }
            proof {
                assert(items_model(out@) =~= Seq::new(
                    ts.len(),
                    |i: int| spec_item_model(ts[i]),
                ));
            }
            Ok(out)
        },
        _ => {
            let out: Vec<Item> = Vec::new();
            proof {
                assert(items_model(out@) =~= Seq::<ItemModel>::empty());
            }
            Ok(out)
        },
    }
}

/// One side of a sign.  An absent or mistyped side decodes against an
/// empty compound, so every field takes its default; the default color
/// differs per side.
pub open spec fn spec_sign_text(v: Option<NbtTree>, default_color: Seq<char>) -> SignTextDataModel {
    let ps = spec_compound_or(v);
    (SignTextDataModel {
        color: spec_string_or(spec_lookup(ps, "color"@), default_color),
        has_glowing_text: spec_byte_as_int_or(spec_lookup(ps, "has_glowing_text"@), 0),
        messages: spec_string_list_or(spec_lookup(ps, "messages"@)),
    })
}

fn decode_sign_text(v: Option<NbtValue>, default_color: String) -> (r: SignTextData)
    ensures
        r@ == spec_sign_text(opt_model(v), default_color@),
{
    let ps = compound_or(v);
    let keys: Vec<String> = vec![
        String::from_str("color"),
        String::from_str("has_glowing_text"),
        String::from_str("messages"),
    ];
    proof {
        reveal_strlit("color");
        reveal_strlit("has_glowing_text");
        reveal_strlit("messages");
        assert forall|m: int, n: int|
            0 <= m < n < keys@.len() implies keys@[m]@ != keys@[n]@ by {
            assert(keys@[0]@.len() == 5);
            assert(keys@[1]@.len() == 16);
            assert(keys@[2]@.len() == 8);
        }
    }
    let mut slots = take_fields(ps, &keys);
    let s_messages = slots.pop().unwrap();
    let s_glow = slots.pop().unwrap();
    let s_color = slots.pop().unwrap();
    SignTextData {
        color: string_or(s_color, default_color),
        has_glowing_text: byte_as_int_or(s_glow, 0),
        messages: string_list_or(s_messages),
    }
}

/// A sign record: a waxed flag and a text record per side, the front
/// defaulting to yellow text and the back to black text.
pub open spec fn spec_sign(ps: Seq<(Seq<char>, NbtTree)>) -> SignBlockEntityDataModel {
    (SignBlockEntityDataModel {
        back_text: spec_sign_text(spec_lookup(ps, "back_text"@), "black"@),
        front_text: spec_sign_text(spec_lookup(ps, "front_text"@), "yellow"@),
        is_waxed: spec_byte_or(spec_lookup(ps, "is_waxed"@), 0),
    })
}

fn decode_sign(data: Vec<(String, NbtValue)>) -> (r: SignBlockEntityData)
    ensures
        r@ == spec_sign(pairs_model(data@)),
{
    let keys: Vec<String> = vec![
        String::from_str("is_waxed"),
        String::from_str("front_text"),
        String::from_str("back_text"),
    ];
    proof {
        reveal_strlit("is_waxed");
        reveal_strlit("front_text");
        reveal_strlit("back_text");
        assert forall|m: int, n: int|
            0 <= m < n < keys@.len() implies keys@[m]@ != keys@[n]@ by {
            assert(keys@[0]@.len() == 8);
            assert(keys@[1]@.len() == 10);
            assert(keys@[2]@.len() == 9);
        }
    }
    let mut slots = take_fields(data, &keys);
    let s_back = slots.pop().unwrap();
    let s_front = slots.pop().unwrap();
    let s_waxed = slots.pop().unwrap();
    SignBlockEntityData {
        back_text: decode_sign_text(s_back, String::from_str("black")),
        front_text: decode_sign_text(s_front, String::from_str("yellow")),
        is_waxed: byte_or(s_waxed, 0),
    }
}

/// One banner pattern layer; a non-compound element decodes against an
/// empty compound, so both fields default to empty text.
pub open spec fn spec_pattern(t: NbtTree) -> PatternModel {
    let ps = spec_compound_or(Some(t));
    (PatternModel {
        color: spec_string_or(spec_lookup(ps, "color"@), Seq::empty()),
        pattern: spec_string_or(spec_lookup(ps, "pattern"@), Seq::empty()),
    })
}

/// A banner's pattern list: an absent or non-list child defaults to no
/// layers.
pub open spec fn spec_patterns_or(v: Option<NbtTree>) -> Seq<PatternModel> {
    match v {
        Some(NbtTree::List(ts)) => Seq::new(ts.len(), |i: int| spec_pattern(ts[i])),
        _ => Seq::empty(),
    }
}

/// The abstract contents of a vector of patterns.
pub open spec fn patterns_model(patterns: Seq<Pattern>) -> Seq<PatternModel> {
    Seq::new(patterns.len(), |i: int| patterns[i]@)
}

fn decode_pattern(e: NbtValue) -> (r: Pattern)
    ensures
        r@ == spec_pattern(e.model()),
{
    match e {
        NbtValue::Compound(ps) => {
            proof {
                lemma_model_compound(ps);
            }
            let keys: Vec<String> = vec![String::from_str("color"), String::from_str("pattern")];
            proof {
                reveal_strlit("color");
                reveal_strlit("pattern");
                assert forall|m: int, n: int|
                    0 <= m < n < keys@.len() implies keys@[m]@ != keys@[n]@ by {
                    assert(keys@[0]@.len() == 5);
                    assert(keys@[1]@.len() == 7);
                }
            }
            let mut slots = take_fields(ps, &keys);
            let s_pattern = slots.pop().unwrap();
            let s_color = slots.pop().unwrap();
            Pattern {
                color: string_or(s_color, String::new()),
                pattern: string_or(s_pattern, String::new()),
            }
        },
        _ => Pattern { color: String::new(), pattern: String::new() },
    }
}

fn patterns_or(v: Option<NbtValue>) -> (r: Vec<Pattern>)
    ensures
        patterns_model(r@) == spec_patterns_or(opt_model(v)),
{
    match v {
        Some(NbtValue::List(es)) => {
            proof {
                lemma_model_list(es);
            }
            let ghost es0: Seq<NbtValue> = es@;
            let ghost ts: Seq<NbtTree> = list_model(es0);
            let mut es = es;
            let mut out: Vec<Pattern> = Vec::new();
            while es.len() > 0
                invariant
                    out@.len() + es@.len() == es0.len(),
                    ts == list_model(es0),
                    es@ =~= es0.skip(out@.len() as int),
                    forall|j: int|
                        0 <= j < out@.len() ==> (#[trigger] out@[j])@ == spec_pattern(ts[j]),
                decreases es@.len(),
            {
                let ghost k: int = out@.len() as int;
                let e = es.remove(0);
                assert(e == es0[k]);
                let p = decode_pattern(e);
                out.push(p);
                proof {
                    assert(es@ =~= es0.skip(out@.len() as int));
                }
            }
            proof {
                assert(patterns_model(out@) =~= spec_patterns_or(Some(NbtTree::List(ts))));
            }
            out
        },
        _ => {
            let out: Vec<Pattern> = Vec::new();
            proof {
                assert(patterns_model(out@) =~= Seq::<PatternModel>::empty());
            }
            out
        },
    }
}

/// A banner record.
pub open spec fn spec_banner(ps: Seq<(Seq<char>, NbtTree)>) -> BannerBlockEntityDataModel {
    (BannerBlockEntityDataModel {
        custom_name: spec_opt_string(spec_lookup(ps, "CustomName"@)),
        patterns: spec_patterns_or(spec_lookup(ps, "patterns"@)),
    })
}

fn decode_banner(data: Vec<(String, NbtValue)>) -> (r: BannerBlockEntityData)
    ensures
        r@ == spec_banner(pairs_model(data@)),
{
    let keys: Vec<String> = vec![String::from_str("CustomName"), String::from_str("patterns")];
    proof {
        reveal_strlit("CustomName");
        reveal_strlit("patterns");
        assert forall|m: int, n: int|
            0 <= m < n < keys@.len() implies keys@[m]@ != keys@[n]@ by {
            assert(keys@[0]@.len() == 10);
            assert(keys@[1]@.len() == 8);
        }
    }
    let mut slots = take_fields(data, &keys);
    let s_patterns = slots.pop().unwrap();
    let s_name = slots.pop().unwrap();
    BannerBlockEntityData { custom_name: opt_string(s_name), patterns: patterns_or(s_patterns) }
}

/// A beacon record.
pub open spec fn spec_beacon(ps: Seq<(Seq<char>, NbtTree)>) -> BeaconBlockEntityDataModel {
    (BeaconBlockEntityDataModel {
        custom_name: spec_opt_string(spec_lookup(ps, "CustomName"@)),
        lock: spec_opt_string(spec_lookup(ps, "Lock"@)),
        levels: spec_int_or(spec_lookup(ps, "Levels"@), 0),
        primary: spec_int_or(spec_lookup(ps, "Primary"@), 0),
        secondary: spec_int_or(spec_lookup(ps, "Secondary"@), 0),
    })
}

fn decode_beacon(data: Vec<(String, NbtValue)>) -> (r: BeaconBlockEntityData)
    ensures
        r@ == spec_beacon(pairs_model(data@)),
{
    let keys: Vec<String> = vec![
        String::from_str("CustomName"),
        String::from_str("Lock"),
        String::from_str("Levels"),
        String::from_str("Primary"),
        String::from_str("Secondary"),
    ];
    proof {
        reveal_strlit("CustomName");
        reveal_strlit("Lock");
        reveal_strlit("Levels");
        reveal_strlit("Primary");
        reveal_strlit("Secondary");
        assert forall|m: int, n: int|
            0 <= m < n < keys@.len() implies keys@[m]@ != keys@[n]@ by {
            assert(keys@[0]@.len() == 10);
            assert(keys@[1]@.len() == 4);
            assert(keys@[2]@.len() == 6);
            assert(keys@[3]@.len() == 7);
            assert(keys@[4]@.len() == 9);
        }
    }
    let mut slots = take_fields(data, &keys);
    let s_secondary = slots.pop().unwrap();
    let s_primary = slots.pop().unwrap();
    let s_levels = slots.pop().unwrap();
    let s_lock = slots.pop().unwrap();
    let s_name = slots.pop().unwrap();
    BeaconBlockEntityData {
        custom_name: opt_string(s_name),
        lock: opt_string(s_lock),
        levels: int_or(s_levels, 0),
        primary: int_or(s_primary, 0),
        secondary: int_or(s_secondary, 0),
    }
}

/// A comparator record.
pub open spec fn spec_comparator(ps: Seq<(Seq<char>, NbtTree)>) -> ComparatorBlockEntityDataModel {
    (ComparatorBlockEntityDataModel {
        output_signal: spec_int_or(spec_lookup(ps, "OutputSignal"@), 0),
    })
}

fn decode_comparator(data: Vec<(String, NbtValue)>) -> (r: ComparatorBlockEntityData)
    ensures
        r@ == spec_comparator(pairs_model(data@)),
{
    let keys: Vec<String> = vec![String::from_str("OutputSignal")];
    let mut slots = take_fields(data, &keys);
    let s_signal = slots.pop().unwrap();
    ComparatorBlockEntityData { output_signal: int_or(s_signal, 0) }
}

/// A command block record.
pub open spec fn spec_command_block(ps: Seq<(Seq<char>, NbtTree)>) -> CommandBlockEntityDataModel {
    (CommandBlockEntityDataModel {
        auto: spec_byte_or(spec_lookup(ps, "auto"@), 0),
        command: spec_string_or(spec_lookup(ps, "Command"@), Seq::empty()),
        condition_met: spec_byte_or(spec_lookup(ps, "conditionMet"@), 0),
        custom_name: spec_opt_string(spec_lookup(ps, "CustomName"@)),
        last_execution: spec_long_or(spec_lookup(ps, "LastExecution"@), 0),
        last_output: spec_string_or(spec_lookup(ps, "LastOutput"@), Seq::empty()),
        powered: spec_byte_or(spec_lookup(ps, "powered"@), 0),
        success_count: spec_int_or(spec_lookup(ps, "SuccessCount"@), 0),
        track_output: spec_byte_or(spec_lookup(ps, "TrackOutput"@), 0),
        update_last_execution: spec_byte_or(spec_lookup(ps, "UpdateLastExecution"@), 0),
    })
}

fn decode_command_block(data: Vec<(String, NbtValue)>) -> (r: CommandBlockEntityData)
    ensures
        r@ == spec_command_block(pairs_model(data@)),
{
    let keys: Vec<String> = vec![
        String::from_str("auto"),
        String::from_str("Command"),
        String::from_str("conditionMet"),
        String::from_str("CustomName"),
        String::from_str("LastExecution"),
        String::from_str("LastOutput"),
        String::from_str("powered"),
        String::from_str("SuccessCount"),
        String::from_str("TrackOutput"),
        String::from_str("UpdateLastExecution"),
    ];
    proof {
        reveal_strlit("auto");
        reveal_strlit("Command");
        reveal_strlit("conditionMet");
        reveal_strlit("CustomName");
        reveal_strlit("LastExecution");
        reveal_strlit("LastOutput");
        reveal_strlit("powered");
        reveal_strlit("SuccessCount");
        reveal_strlit("TrackOutput");
        reveal_strlit("UpdateLastExecution");
        assert forall|m: int, n: int|
            0 <= m < n < keys@.len() implies keys@[m]@ != keys@[n]@ by {
            assert(keys@[0]@.len() == 4);
            assert(keys@[1]@.len() == 7);
            assert(keys@[2]@.len() == 12);
            assert(keys@[3]@.len() == 10);
            assert(keys@[4]@.len() == 13);
            assert(keys@[5]@.len() == 10);
            assert(keys@[6]@.len() == 7);
            assert(keys@[7]@.len() == 12);
            assert(keys@[8]@.len() == 11);
            assert(keys@[9]@.len() == 19);
            assert(keys@[1]@[0] == 'C');
            assert(keys@[6]@[0] == 'p');
            assert(keys@[2]@[0] == 'c');
            assert(keys@[7]@[0] == 'S');
            assert(keys@[3]@[0] == 'C');
            assert(keys@[5]@[0] == 'L');
        }
    }
    let mut slots = take_fields(data, &keys);
    let s_update = slots.pop().unwrap();
    let s_track = slots.pop().unwrap();
    let s_success = slots.pop().unwrap();
    let s_powered = slots.pop().unwrap();
    let s_last_output = slots.pop().unwrap();
    let s_last_execution = slots.pop().unwrap();
    let s_name = slots.pop().unwrap();
    let s_condition = slots.pop().unwrap();
    let s_command = slots.pop().unwrap();
    let s_auto = slots.pop().unwrap();
    CommandBlockEntityData {
        auto: byte_or(s_auto, 0),
        command: string_or(s_command, String::new()),
        condition_met: byte_or(s_condition, 0),
        custom_name: opt_string(s_name),
        last_execution: long_or(s_last_execution, 0),
        last_output: string_or(s_last_output, String::new()),
        powered: byte_or(s_powered, 0),
        success_count: int_or(s_success, 0),
        track_output: byte_or(s_track, 0),
        update_last_execution: byte_or(s_update, 0),
    }
}

/// A conduit record.
pub open spec fn spec_conduit(ps: Seq<(Seq<char>, NbtTree)>) -> ConduitBlockEntityDataModel {
    (ConduitBlockEntityDataModel { target: spec_int_array_or(spec_lookup(ps, "Target"@)) })
}

fn decode_conduit(data: Vec<(String, NbtValue)>) -> (r: ConduitBlockEntityData)
    ensures
        r@ == spec_conduit(pairs_model(data@)),
{
    let keys: Vec<String> = vec![String::from_str("Target")];
    let mut slots = take_fields(data, &keys);
    let s_target = slots.pop().unwrap();
    ConduitBlockEntityData { target: int_array_or(s_target) }
}

/// A jigsaw record.
pub open spec fn spec_jigsaw(ps: Seq<(Seq<char>, NbtTree)>) -> JigSawBlockEntityDataModel {
    (JigSawBlockEntityDataModel {
        final_state: spec_string_or(spec_lookup(ps, "final_state"@), Seq::empty()),
        joint: spec_opt_string(spec_lookup(ps, "joint"@)),
        name: spec_string_or(spec_lookup(ps, "name"@), Seq::empty()),
        pool: spec_string_or(spec_lookup(ps, "pool"@), Seq::empty()),
        target: spec_string_or(spec_lookup(ps, "target"@), Seq::empty()),
    })
}

fn decode_jigsaw(data: Vec<(String, NbtValue)>) -> (r: JigSawBlockEntityData)
    ensures
        r@ == spec_jigsaw(pairs_model(data@)),
{
    let keys: Vec<String> = vec![
        String::from_str("final_state"),
        String::from_str("joint"),
        String::from_str("name"),
        String::from_str("pool"),
        String::from_str("target"),
    ];
    proof {
        reveal_strlit("final_state");
        reveal_strlit("joint");
        reveal_strlit("name");
        reveal_strlit("pool");
        reveal_strlit("target");
        assert forall|m: int, n: int|
            0 <= m < n < keys@.len() implies keys@[m]@ != keys@[n]@ by {
            assert(keys@[0]@.len() == 11);
            assert(keys@[1]@.len() == 5);
            assert(keys@[2]@.len() == 4);
            assert(keys@[3]@.len() == 4);
            assert(keys@[4]@.len() == 6);
            assert(keys@[2]@[0] == 'n');
            assert(keys@[3]@[0] == 'p');
        }
    }
    let mut slots = take_fields(data, &keys);
    let s_target = slots.pop().unwrap();
    let s_pool = slots.pop().unwrap();
    let s_name = slots.pop().unwrap();
    let s_joint = slots.pop().unwrap();
    let s_final = slots.pop().unwrap();
    JigSawBlockEntityData {
        final_state: string_or(s_final, String::new()),
        joint: opt_string(s_joint),
        name: string_or(s_name, String::new()),
        pool: string_or(s_pool, String::new()),
        target: string_or(s_target, String::new()),
    }
}

/// A skull record.
pub open spec fn spec_skull(ps: Seq<(Seq<char>, NbtTree)>) -> SkullBlockEntityDataModel {
    (SkullBlockEntityDataModel {
        note_block_sound: spec_opt_string(spec_lookup(ps, "note_block_sound"@)),
        extra_type: spec_opt_string(spec_lookup(ps, "extra_type"@)),
        skull_owner: spec_compound_or(spec_lookup(ps, "skull_owner"@)),
    })
}

fn decode_skull(data: Vec<(String, NbtValue)>) -> (r: SkullBlockEntityData)
    ensures
        r@ == spec_skull(pairs_model(data@)),
{
    let keys: Vec<String> = vec![
        String::from_str("note_block_sound"),
        String::from_str("extra_type"),
        String::from_str("skull_owner"),
    ];
    proof {
        reveal_strlit("note_block_sound");
        reveal_strlit("extra_type");
        reveal_strlit("skull_owner");
        assert forall|m: int, n: int|
            0 <= m < n < keys@.len() implies keys@[m]@ != keys@[n]@ by {
            assert(keys@[0]@.len() == 16);
            assert(keys@[1]@.len() == 10);
            assert(keys@[2]@.len() == 11);
        }
    }
    let mut slots = take_fields(data, &keys);
    let s_owner = slots.pop().unwrap();
    let s_extra = slots.pop().unwrap();
    let s_sound = slots.pop().unwrap();
    SkullBlockEntityData {
        note_block_sound: opt_string(s_sound),
        extra_type: opt_string(s_extra),
        skull_owner: compound_or(s_owner),
    }
}

/// A barrel record; a malformed container item fails the decode.
pub open spec fn spec_barrel(ps: Seq<(Seq<char>, NbtTree)>) -> Option<
    BarrelBlockEntityDataModel,
> {
    match spec_items_or(spec_lookup(ps, "Items"@)) {
        Some(items) => Some(
            BarrelBlockEntityDataModel {
                custom_name: spec_opt_string(spec_lookup(ps, "CustomName"@)),
                items,
                lock: spec_opt_string(spec_lookup(ps, "Lock"@)),
                loot_table: spec_opt_string(spec_lookup(ps, "LootTable"@)),
                loot_table_seed: spec_opt_long(spec_lookup(ps, "LootTableSeed"@)),
            },
        ),
        None => None,
    }
}

fn decode_barrel(data: Vec<(String, NbtValue)>) -> (r: Result<
    BarrelBlockEntityData,
    SchematicError,
>)
    ensures
        match r {
            Ok(d) => spec_barrel(pairs_model(data@)) == Some(d@),
            Err(e) => spec_barrel(pairs_model(data@)) is None && e@ == spec_item_error(),
        },
{
    let keys: Vec<String> = vec![
        String::from_str("CustomName"),
        String::from_str("Items"),
        String::from_str("Lock"),
        String::from_str("LootTable"),
        String::from_str("LootTableSeed"),
    ];
    proof {
        reveal_strlit("CustomName");
        reveal_strlit("Items");
        reveal_strlit("Lock");
        reveal_strlit("LootTable");
        reveal_strlit("LootTableSeed");
        assert forall|m: int, n: int|
            0 <= m < n < keys@.len() implies keys@[m]@ != keys@[n]@ by {
            assert(keys@[0]@.len() == 10);
            assert(keys@[1]@.len() == 5);
            assert(keys@[2]@.len() == 4);
            assert(keys@[3]@.len() == 9);
            assert(keys@[4]@.len() == 13);
        }
    }
    let mut slots = take_fields(data, &keys);
    let s_seed = slots.pop().unwrap();
    let s_table = slots.pop().unwrap();
    let s_lock = slots.pop().unwrap();
    let s_items = slots.pop().unwrap();
    let s_name = slots.pop().unwrap();
    let items = match items_or(s_items) {
        Ok(it) => it,
        Err(e) => {
            return Err(e);
        },
    };
    Ok(
        BarrelBlockEntityData {
            custom_name: opt_string(s_name),
            items,
            lock: opt_string(s_lock),
            loot_table: opt_string(s_table),
            loot_table_seed: opt_long(s_seed),
        },
    )
}

/// A chest record; a malformed container item fails the decode.
pub open spec fn spec_chest(ps: Seq<(Seq<char>, NbtTree)>) -> Option<ChestBlockEntityDataModel> {
    match spec_items_or(spec_lookup(ps, "Items"@)) {
        Some(items) => Some(
            ChestBlockEntityDataModel {
                custom_name: spec_opt_string(spec_lookup(ps, "CustomName"@)),
                items,
                lock: spec_opt_string(spec_lookup(ps, "Lock"@)),
                loot_table: spec_opt_string(spec_lookup(ps, "LootTable"@)),
                loot_table_seed: spec_opt_long(spec_lookup(ps, "LootTableSeed"@)),
                gold: spec_opt_byte(spec_lookup(ps, "gold"@)),
            },
        ),
        None => None,
    }
}

fn decode_chest(data: Vec<(String, NbtValue)>) -> (r: Result<ChestBlockEntityData, SchematicError>)
    ensures
        match r {
            Ok(d) => spec_chest(pairs_model(data@)) == Some(d@),
            Err(e) => spec_chest(pairs_model(data@)) is None && e@ == spec_item_error(),
        },
{
    let keys: Vec<String> = vec![
        String::from_str("CustomName"),
        String::from_str("Items"),
        String::from_str("Lock"),
        String::from_str("LootTable"),
        String::from_str("LootTableSeed"),
        String::from_str("gold"),
    ];
    proof {
        reveal_strlit("CustomName");
        reveal_strlit("Items");
        reveal_strlit("Lock");
        reveal_strlit("LootTable");
        reveal_strlit("LootTableSeed");
        reveal_strlit("gold");
        assert forall|m: int, n: int|
            0 <= m < n < keys@.len() implies keys@[m]@ != keys@[n]@ by {
            assert(keys@[0]@.len() == 10);
            assert(keys@[1]@.len() == 5);
            assert(keys@[2]@.len() == 4);
            assert(keys@[3]@.len() == 9);
            assert(keys@[4]@.len() == 13);
            assert(keys@[5]@.len() == 4);
            assert(keys@[2]@[0] == 'L');
            assert(keys@[5]@[0] == 'g');
        }
    }
    let mut slots = take_fields(data, &keys);
    let s_gold = slots.pop().unwrap();
    let s_seed = slots.pop().unwrap();
    let s_table = slots.pop().unwrap();
    let s_lock = slots.pop().unwrap();
    let s_items = slots.pop().unwrap();
    let s_name = slots.pop().unwrap();
    let items = match items_or(s_items) {
        Ok(it) => it,
        Err(e) => {
            return Err(e);
        },
    };
    Ok(
        ChestBlockEntityData {
            custom_name: opt_string(s_name),
            items,
            lock: opt_string(s_lock),
            loot_table: opt_string(s_table),
            loot_table_seed: opt_long(s_seed),
            gold: opt_byte(s_gold),
        },
    )
}

/// A trapped chest record; the chest shape.
pub open spec fn spec_trapped_chest(ps: Seq<(Seq<char>, NbtTree)>) -> Option<
    TrappedChestBlockEntityDataModel,
> {
    match spec_items_or(spec_lookup(ps, "Items"@)) {
        Some(items) => Some(
            TrappedChestBlockEntityDataModel {
                custom_name: spec_opt_string(spec_lookup(ps, "CustomName"@)),
                items,
                lock: spec_opt_string(spec_lookup(ps, "Lock"@)),
                loot_table: spec_opt_string(spec_lookup(ps, "LootTable"@)),
                loot_table_seed: spec_opt_long(spec_lookup(ps, "LootTableSeed"@)),
                gold: spec_opt_byte(spec_lookup(ps, "gold"@)),
            },
        ),
        None => None,
    }
}

fn decode_trapped_chest(data: Vec<(String, NbtValue)>) -> (r: Result<
    TrappedChestBlockEntityData,
    SchematicError,
>)
    ensures
        match r {
            Ok(d) => spec_trapped_chest(pairs_model(data@)) == Some(d@),
            Err(e) => spec_trapped_chest(pairs_model(data@)) is None && e@ == spec_item_error(),
        },
{
    let keys: Vec<String> = vec![
        String::from_str("CustomName"),
        String::from_str("Items"),
        String::from_str("Lock"),
        String::from_str("LootTable"),
        String::from_str("LootTableSeed"),
        String::from_str("gold"),
    ];
    proof {
        reveal_strlit("CustomName");
        reveal_strlit("Items");
        reveal_strlit("Lock");
        reveal_strlit("LootTable");
        reveal_strlit("LootTableSeed");
        reveal_strlit("gold");
        assert forall|m: int, n: int|
            0 <= m < n < keys@.len() implies keys@[m]@ != keys@[n]@ by {
            assert(keys@[0]@.len() == 10);
            assert(keys@[1]@.len() == 5);
            assert(keys@[2]@.len() == 4);
            assert(keys@[3]@.len() == 9);
            assert(keys@[4]@.len() == 13);
            assert(keys@[5]@.len() == 4);
            assert(keys@[2]@[0] == 'L');
            assert(keys@[5]@[0] == 'g');
        }
    }
    let mut slots = take_fields(data, &keys);
    let s_gold = slots.pop().unwrap();
    let s_seed = slots.pop().unwrap();
    let s_table = slots.pop().unwrap();
    let s_lock = slots.pop().unwrap();
    let s_items = slots.pop().unwrap();
    let s_name = slots.pop().unwrap();
    let items = match items_or(s_items) {
        Ok(it) => it,
        Err(e) => {
            return Err(e);
        },
    };
    Ok(
        TrappedChestBlockEntityData {
            custom_name: opt_string(s_name),
            items,
            lock: opt_string(s_lock),
            loot_table: opt_string(s_table),
            loot_table_seed: opt_long(s_seed),
            gold: opt_byte(s_gold),
        },
    )
}

/// A dispenser record; a malformed container item fails the decode.
pub open spec fn spec_dispenser(ps: Seq<(Seq<char>, NbtTree)>) -> Option<
    DispenserBlockEntityDataModel,
> {
    match spec_items_or(spec_lookup(ps, "Items"@)) {
        Some(items) => Some(
            DispenserBlockEntityDataModel {
                custom_name: spec_opt_string(spec_lookup(ps, "CustomName"@)),
                items,
                lock: spec_opt_string(spec_lookup(ps, "Lock"@)),
                loot_table: spec_opt_string(spec_lookup(ps, "LootTable"@)),
                loot_table_seed: spec_opt_long(spec_lookup(ps, "LootTableSeed"@)),
            },
        ),
        None => None,
    }
}

fn decode_dispenser(data: Vec<(String, NbtValue)>) -> (r: Result<
    DispenserBlockEntityData,
    SchematicError,
>)
    ensures
        match r {
            Ok(d) => spec_dispenser(pairs_model(data@)) == Some(d@),
            Err(e) => spec_dispenser(pairs_model(data@)) is None && e@ == spec_item_error(),
        },
{
    let keys: Vec<String> = vec![
        String::from_str("CustomName"),
        String::from_str("Items"),
        String::from_str("Lock"),
        String::from_str("LootTable"),
        String::from_str("LootTableSeed"),
    ];
    proof {
        reveal_strlit("CustomName");
        reveal_strlit("Items");
        reveal_strlit("Lock");
        reveal_strlit("LootTable");
        reveal_strlit("LootTableSeed");
        assert forall|m: int, n: int|
            0 <= m < n < keys@.len() implies keys@[m]@ != keys@[n]@ by {
            assert(keys@[0]@.len() == 10);
            assert(keys@[1]@.len() == 5);
            assert(keys@[2]@.len() == 4);
            assert(keys@[3]@.len() == 9);
            assert(keys@[4]@.len() == 13);
        }
    }
    let mut slots = take_fields(data, &keys);
    let s_seed = slots.pop().unwrap();
    let s_table = slots.pop().unwrap();
    let s_lock = slots.pop().unwrap();
    let s_items = slots.pop().unwrap();
    let s_name = slots.pop().unwrap();
    let items = match items_or(s_items) {
        Ok(it) => it,
        Err(e) => {
            return Err(e);
        },
    };
    Ok(
        DispenserBlockEntityData {
            custom_name: opt_string(s_name),
            items,
            lock: opt_string(s_lock),
            loot_table: opt_string(s_table),
            loot_table_seed: opt_long(s_seed),
        },
    )
}

/// A dropper record; a malformed container item fails the decode.
pub open spec fn spec_dropper(ps: Seq<(Seq<char>, NbtTree)>) -> Option<
    DropperBlockEntityDataModel,
> {
    match spec_items_or(spec_lookup(ps, "Items"@)) {
        Some(items) => Some(
            DropperBlockEntityDataModel {
                custom_name: spec_opt_string(spec_lookup(ps, "CustomName"@)),
                items,
                lock: spec_opt_string(spec_lookup(ps, "Lock"@)),
                loot_table: spec_opt_string(spec_lookup(ps, "LootTable"@)),
                loot_table_seed: spec_opt_long(spec_lookup(ps, "LootTableSeed"@)),
                lunar: spec_byte_or(spec_lookup(ps, "Lunar"@), 0),
            },
        ),
        None => None,
    }
}

fn decode_dropper(data: Vec<(String, NbtValue)>) -> (r: Result<
    DropperBlockEntityData,
    SchematicError,
>)
    ensures
        match r {
            Ok(d) => spec_dropper(pairs_model(data@)) == Some(d@),
            Err(e) => spec_dropper(pairs_model(data@)) is None && e@ == spec_item_error(),
        },
{
    let keys: Vec<String> = vec![
        String::from_str("CustomName"),
        String::from_str("Items"),
        String::from_str("Lock"),
        String::from_str("LootTable"),
        String::from_str("LootTableSeed"),
        String::from_str("Lunar"),
    ];
    proof {
        reveal_strlit("CustomName");
        reveal_strlit("Items");
        reveal_strlit("Lock");
        reveal_strlit("LootTable");
        reveal_strlit("LootTableSeed");
        reveal_strlit("Lunar");
        assert forall|m: int, n: int|
            0 <= m < n < keys@.len() implies keys@[m]@ != keys@[n]@ by {
            assert(keys@[0]@.len() == 10);
            assert(keys@[1]@.len() == 5);
            assert(keys@[2]@.len() == 4);
            assert(keys@[3]@.len() == 9);
            assert(keys@[4]@.len() == 13);
            assert(keys@[5]@.len() == 5);
            assert(keys@[1]@[0] == 'I');
            assert(keys@[5]@[0] == 'L');
        }
    }
    let mut slots = take_fields(data, &keys);
    let s_lunar = slots.pop().unwrap();
    let s_seed = slots.pop().unwrap();
    let s_table = slots.pop().unwrap();
    let s_lock = slots.pop().unwrap();
    let s_items = slots.pop().unwrap();
    let s_name = slots.pop().unwrap();
    let items = match items_or(s_items) {
        Ok(it) => it,
        Err(e) => {
            return Err(e);
        },
    };
    Ok(
        DropperBlockEntityData {
            custom_name: opt_string(s_name),
            items,
            lock: opt_string(s_lock),
            loot_table: opt_string(s_table),
            loot_table_seed: opt_long(s_seed),
            lunar: byte_or(s_lunar, 0),
        },
    )
}

/// A hopper record; a malformed container item fails the decode.
pub open spec fn spec_hopper(ps: Seq<(Seq<char>, NbtTree)>) -> Option<
    HopperBlockEntityDataModel,
> {
    match spec_items_or(spec_lookup(ps, "Items"@)) {
        Some(items) => Some(
            HopperBlockEntityDataModel {
                custom_name: spec_opt_string(spec_lookup(ps, "CustomName"@)),
                items,
                lock: spec_opt_string(spec_lookup(ps, "Lock"@)),
                loot_table: spec_opt_string(spec_lookup(ps, "LootTable"@)),
                loot_table_seed: spec_opt_long(spec_lookup(ps, "LootTableSeed"@)),
                transfer_cooldown: spec_int_or(spec_lookup(ps, "TransferCooldown"@), 0),
            },
        ),
        None => None,
    }
}

fn decode_hopper(data: Vec<(String, NbtValue)>) -> (r: Result<
    HopperBlockEntityData,
    SchematicError,
>)
    ensures
        match r {
            Ok(d) => spec_hopper(pairs_model(data@)) == Some(d@),
            Err(e) => spec_hopper(pairs_model(data@)) is None && e@ == spec_item_error(),
        },
{
    let keys: Vec<String> = vec![
        String::from_str("CustomName"),
        String::from_str("Items"),
        String::from_str("Lock"),
        String::from_str("LootTable"),
        String::from_str("LootTableSeed"),
        String::from_str("TransferCooldown"),
    ];
    proof {
        reveal_strlit("CustomName");
        reveal_strlit("Items");
        reveal_strlit("Lock");
        reveal_strlit("LootTable");
        reveal_strlit("LootTableSeed");
        reveal_strlit("TransferCooldown");
        assert forall|m: int, n: int|
            0 <= m < n < keys@.len() implies keys@[m]@ != keys@[n]@ by {
            assert(keys@[0]@.len() == 10);
            assert(keys@[1]@.len() == 5);
            assert(keys@[2]@.len() == 4);
            assert(keys@[3]@.len() == 9);
            assert(keys@[4]@.len() == 13);
            assert(keys@[5]@.len() == 16);
        }
    }
    let mut slots = take_fields(data, &keys);
    let s_cooldown = slots.pop().unwrap();
    let s_seed = slots.pop().unwrap();
    let s_table = slots.pop().unwrap();
    let s_lock = slots.pop().unwrap();
    let s_items = slots.pop().unwrap();
    let s_name = slots.pop().unwrap();
    let items = match items_or(s_items) {
        Ok(it) => it,
        Err(e) => {
            return Err(e);
        },
    };
    Ok(
        HopperBlockEntityData {
            custom_name: opt_string(s_name),
            items,
            lock: opt_string(s_lock),
            loot_table: opt_string(s_table),
            loot_table_seed: opt_long(s_seed),
            transfer_cooldown: int_or(s_cooldown, 0),
        },
    )
}

/// A shulker box record; a malformed container item fails the decode.
pub open spec fn spec_shulker_box(ps: Seq<(Seq<char>, NbtTree)>) -> Option<
    ShulkerBoxBlockEntityDataModel,
> {
    match spec_items_or(spec_lookup(ps, "Items"@)) {
        Some(items) => Some(
            ShulkerBoxBlockEntityDataModel {
                custom_name: spec_opt_string(spec_lookup(ps, "CustomName"@)),
                items,
                lock: spec_opt_string(spec_lookup(ps, "Lock"@)),
                loot_table: spec_opt_string(spec_lookup(ps, "LootTable"@)),
                loot_table_seed: spec_opt_long(spec_lookup(ps, "LootTableSeed"@)),
            },
        ),
        None => None,
    }
}

fn decode_shulker_box(data: Vec<(String, NbtValue)>) -> (r: Result<
    ShulkerBoxBlockEntityData,
    SchematicError,
>)
    ensures
        match r {
            Ok(d) => spec_shulker_box(pairs_model(data@)) == Some(d@),
            Err(e) => spec_shulker_box(pairs_model(data@)) is None && e@ == spec_item_error(),
        },
{
    let keys: Vec<String> = vec![
        String::from_str("CustomName"),
        String::from_str("Items"),
        String::from_str("Lock"),
        String::from_str("LootTable"),
        String::from_str("LootTableSeed"),
    ];
    proof {
        reveal_strlit("CustomName");
        reveal_strlit("Items");
        reveal_strlit("Lock");
        reveal_strlit("LootTable");
        reveal_strlit("LootTableSeed");
        assert forall|m: int, n: int|
            0 <= m < n < keys@.len() implies keys@[m]@ != keys@[n]@ by {
            assert(keys@[0]@.len() == 10);
            assert(keys@[1]@.len() == 5);
            assert(keys@[2]@.len() == 4);
            assert(keys@[3]@.len() == 9);
            assert(keys@[4]@.len() == 13);
        }
    }
    let mut slots = take_fields(data, &keys);
    let s_seed = slots.pop().unwrap();
    let s_table = slots.pop().unwrap();
    let s_lock = slots.pop().unwrap();
    let s_items = slots.pop().unwrap();
    let s_name = slots.pop().unwrap();
    let items = match items_or(s_items) {
        Ok(it) => it,
        Err(e) => {
            return Err(e);
        },
    };
    Ok(
        ShulkerBoxBlockEntityData {
            custom_name: opt_string(s_name),
            items,
            lock: opt_string(s_lock),
            loot_table: opt_string(s_table),
            loot_table_seed: opt_long(s_seed),
        },
    )
}

/// A furnace record; the furnace family's shared shape.
pub open spec fn spec_furnace(ps: Seq<(Seq<char>, NbtTree)>) -> Option<
    FurnaceBlockEntityDataModel,
> {
    match spec_items_or(spec_lookup(ps, "Items"@)) {
        Some(items) => Some(
            FurnaceBlockEntityDataModel {
                burn_time: spec_short_or(spec_lookup(ps, "BurnTime"@), 0),
                cook_time: spec_short_or(spec_lookup(ps, "CookTime"@), 0),
                cook_time_total: spec_short_or(spec_lookup(ps, "CookTimeTotal"@), 0),
                custom_name: spec_opt_string(spec_lookup(ps, "CustomName"@)),
                items,
                lock: spec_opt_string(spec_lookup(ps, "Lock"@)),
                recipes_used: spec_compound_or(spec_lookup(ps, "RecipesUsed"@)),
            },
        ),
        None => None,
    }
}

fn decode_furnace(data: Vec<(String, NbtValue)>) -> (r: Result<
    FurnaceBlockEntityData,
    SchematicError,
>)
    ensures
        match r {
            Ok(d) => spec_furnace(pairs_model(data@)) == Some(d@),
            Err(e) => spec_furnace(pairs_model(data@)) is None && e@ == spec_item_error(),
        },
{
    let keys: Vec<String> = vec![
        String::from_str("BurnTime"),
        String::from_str("CookTime"),
        String::from_str("CookTimeTotal"),
        String::from_str("CustomName"),
        String::from_str("Items"),
        String::from_str("Lock"),
        String::from_str("RecipesUsed"),
    ];
    proof {
        reveal_strlit("BurnTime");
        reveal_strlit("CookTime");
        reveal_strlit("CookTimeTotal");
        reveal_strlit("CustomName");
        reveal_strlit("Items");
        reveal_strlit("Lock");
        reveal_strlit("RecipesUsed");
        assert forall|m: int, n: int|
            0 <= m < n < keys@.len() implies keys@[m]@ != keys@[n]@ by {
            assert(keys@[0]@.len() == 8);
            assert(keys@[1]@.len() == 8);
            assert(keys@[2]@.len() == 13);
            assert(keys@[3]@.len() == 10);
            assert(keys@[4]@.len() == 5);
            assert(keys@[5]@.len() == 4);
            assert(keys@[6]@.len() == 11);
            assert(keys@[0]@[0] == 'B');
            assert(keys@[1]@[0] == 'C');
        }
    }
    let mut slots = take_fields(data, &keys);
    let s_recipes = slots.pop().unwrap();
    let s_lock = slots.pop().unwrap();
    let s_items = slots.pop().unwrap();
    let s_name = slots.pop().unwrap();
    let s_ctt = slots.pop().unwrap();
    let s_ct = slots.pop().unwrap();
    let s_bt = slots.pop().unwrap();
    let items = match items_or(s_items) {
        Ok(it) => it,
        Err(e) => {
            return Err(e);
        },
    };
    Ok(
        FurnaceBlockEntityData {
            burn_time: short_or(s_bt, 0),
            cook_time: short_or(s_ct, 0),
            cook_time_total: short_or(s_ctt, 0),
            custom_name: opt_string(s_name),
            items,
            lock: opt_string(s_lock),
            recipes_used: compound_or(s_recipes),
        },
    )
}

/// A smoker record; the furnace family's shared shape.
pub open spec fn spec_smoker(ps: Seq<(Seq<char>, NbtTree)>) -> Option<
    SmokerBlockEntityDataModel,
> {
    match spec_items_or(spec_lookup(ps, "Items"@)) {
        Some(items) => Some(
            SmokerBlockEntityDataModel {
                burn_time: spec_short_or(spec_lookup(ps, "BurnTime"@), 0),
                cook_time: spec_short_or(spec_lookup(ps, "CookTime"@), 0),
                cook_time_total: spec_short_or(spec_lookup(ps, "CookTimeTotal"@), 0),
                custom_name: spec_opt_string(spec_lookup(ps, "CustomName"@)),
                items,
                lock: spec_opt_string(spec_lookup(ps, "Lock"@)),
                recipes_used: spec_compound_or(spec_lookup(ps, "RecipesUsed"@)),
            },
        ),
        None => None,
    }
}

fn decode_smoker(data: Vec<(String, NbtValue)>) -> (r: Result<
    SmokerBlockEntityData,
    SchematicError,
>)
    ensures
        match r {
            Ok(d) => spec_smoker(pairs_model(data@)) == Some(d@),
            Err(e) => spec_smoker(pairs_model(data@)) is None && e@ == spec_item_error(),
        },
{
    let keys: Vec<String> = vec![
        String::from_str("BurnTime"),
        String::from_str("CookTime"),
        String::from_str("CookTimeTotal"),
        String::from_str("CustomName"),
        String::from_str("Items"),
        String::from_str("Lock"),
        String::from_str("RecipesUsed"),
    ];
    proof {
        reveal_strlit("BurnTime");
        reveal_strlit("CookTime");
        reveal_strlit("CookTimeTotal");
        reveal_strlit("CustomName");
        reveal_strlit("Items");
        reveal_strlit("Lock");
        reveal_strlit("RecipesUsed");
        assert forall|m: int, n: int|
            0 <= m < n < keys@.len() implies keys@[m]@ != keys@[n]@ by {
            assert(keys@[0]@.len() == 8);
            assert(keys@[1]@.len() == 8);
            assert(keys@[2]@.len() == 13);
            assert(keys@[3]@.len() == 10);
            assert(keys@[4]@.len() == 5);
            assert(keys@[5]@.len() == 4);
            assert(keys@[6]@.len() == 11);
            assert(keys@[0]@[0] == 'B');
            assert(keys@[1]@[0] == 'C');
        }
    }
    let mut slots = take_fields(data, &keys);
    let s_recipes = slots.pop().unwrap();
    let s_lock = slots.pop().unwrap();
    let s_items = slots.pop().unwrap();
    let s_name = slots.pop().unwrap();
    let s_ctt = slots.pop().unwrap();
    let s_ct = slots.pop().unwrap();
    let s_bt = slots.pop().unwrap();
    let items = match items_or(s_items) {
        Ok(it) => it,
        Err(e) => {
            return Err(e);
        },
    };
    Ok(
        SmokerBlockEntityData {
            burn_time: short_or(s_bt, 0),
            cook_time: short_or(s_ct, 0),
            cook_time_total: short_or(s_ctt, 0),
            custom_name: opt_string(s_name),
            items,
            lock: opt_string(s_lock),
            recipes_used: compound_or(s_recipes),
        },
    )
}

/// A blast furnace record; the furnace family's shared shape.
pub open spec fn spec_blast_furnance(ps: Seq<(Seq<char>, NbtTree)>) -> Option<
    BlastFurnanceBlockEntityDataModel,
> {
    match spec_items_or(spec_lookup(ps, "Items"@)) {
        Some(items) => Some(
            BlastFurnanceBlockEntityDataModel {
                burn_time: spec_short_or(spec_lookup(ps, "BurnTime"@), 0),
                cook_time: spec_short_or(spec_lookup(ps, "CookTime"@), 0),
                cook_time_total: spec_short_or(spec_lookup(ps, "CookTimeTotal"@), 0),
                custom_name: spec_opt_string(spec_lookup(ps, "CustomName"@)),
                items,
                lock: spec_opt_string(spec_lookup(ps, "Lock"@)),
                recipes_used: spec_compound_or(spec_lookup(ps, "RecipesUsed"@)),
            },
        ),
        None => None,
    }
}

fn decode_blast_furnance(data: Vec<(String, NbtValue)>) -> (r: Result<
    BlastFurnanceBlockEntityData,
    SchematicError,
>)
    ensures
        match r {
            Ok(d) => spec_blast_furnance(pairs_model(data@)) == Some(d@),
            Err(e) => spec_blast_furnance(pairs_model(data@)) is None && e@ == spec_item_error(),
        },
{
    let keys: Vec<String> = vec![
        String::from_str("BurnTime"),
        String::from_str("CookTime"),
        String::from_str("CookTimeTotal"),
        String::from_str("CustomName"),
        String::from_str("Items"),
        String::from_str("Lock"),
        String::from_str("RecipesUsed"),
    ];
    proof {
        reveal_strlit("BurnTime");
        reveal_strlit("CookTime");
        reveal_strlit("CookTimeTotal");
        reveal_strlit("CustomName");
        reveal_strlit("Items");
        reveal_strlit("Lock");
        reveal_strlit("RecipesUsed");
        assert forall|m: int, n: int|
            0 <= m < n < keys@.len() implies keys@[m]@ != keys@[n]@ by {
            assert(keys@[0]@.len() == 8);
            assert(keys@[1]@.len() == 8);
            assert(keys@[2]@.len() == 13);
            assert(keys@[3]@.len() == 10);
            assert(keys@[4]@.len() == 5);
            assert(keys@[5]@.len() == 4);
            assert(keys@[6]@.len() == 11);
            assert(keys@[0]@[0] == 'B');
            assert(keys@[1]@[0] == 'C');
        }
    }
    let mut slots = take_fields(data, &keys);
    let s_recipes = slots.pop().unwrap();
    let s_lock = slots.pop().unwrap();
    let s_items = slots.pop().unwrap();
    let s_name = slots.pop().unwrap();
    let s_ctt = slots.pop().unwrap();
    let s_ct = slots.pop().unwrap();
    let s_bt = slots.pop().unwrap();
    let items = match items_or(s_items) {
        Ok(it) => it,
        Err(e) => {
            return Err(e);
        },
    };
    Ok(
        BlastFurnanceBlockEntityData {
            burn_time: short_or(s_bt, 0),
            cook_time: short_or(s_ct, 0),
            cook_time_total: short_or(s_ctt, 0),
            custom_name: opt_string(s_name),
            items,
            lock: opt_string(s_lock),
            recipes_used: compound_or(s_recipes),
        },
    )
}

/// A brewing stand record; a malformed container item fails the decode.
pub open spec fn spec_brewing_stand(ps: Seq<(Seq<char>, NbtTree)>) -> Option<
    BrewingStandBlockEntityDataModel,
> {
    match spec_items_or(spec_lookup(ps, "Items"@)) {
        Some(items) => Some(
            BrewingStandBlockEntityDataModel {
                brew_time: spec_short_or(spec_lookup(ps, "BrewTime"@), 0),
                custom_name: spec_opt_string(spec_lookup(ps, "CustomName"@)),
                items,
                lock: spec_opt_string(spec_lookup(ps, "Lock"@)),
            },
        ),
        None => None,
    }
}

fn decode_brewing_stand(data: Vec<(String, NbtValue)>) -> (r: Result<
    BrewingStandBlockEntityData,
    SchematicError,
>)
    ensures
        match r {
            Ok(d) => spec_brewing_stand(pairs_model(data@)) == Some(d@),
            Err(e) => spec_brewing_stand(pairs_model(data@)) is None && e@ == spec_item_error(),
        },
{
    let keys: Vec<String> = vec![
        String::from_str("BrewTime"),
        String::from_str("CustomName"),
        String::from_str("Items"),
        String::from_str("Lock"),
    ];
    proof {
        reveal_strlit("BrewTime");
        reveal_strlit("CustomName");
        reveal_strlit("Items");
        reveal_strlit("Lock");
        assert forall|m: int, n: int|
            0 <= m < n < keys@.len() implies keys@[m]@ != keys@[n]@ by {
            assert(keys@[0]@.len() == 8);
            assert(keys@[1]@.len() == 10);
            assert(keys@[2]@.len() == 5);
            assert(keys@[3]@.len() == 4);
        }
    }
    let mut slots = take_fields(data, &keys);
    let s_lock = slots.pop().unwrap();
    let s_items = slots.pop().unwrap();
    let s_name = slots.pop().unwrap();
    let s_brew = slots.pop().unwrap();
    let items = match items_or(s_items) {
        Ok(it) => it,
        Err(e) => {
            return Err(e);
        },
    };
    Ok(
        BrewingStandBlockEntityData {
            brew_time: short_or(s_brew, 0),
            custom_name: opt_string(s_name),
            items,
            lock: opt_string(s_lock),
        },
    )
}

/// A campfire record; a malformed container item fails the decode.
pub open spec fn spec_campfire(ps: Seq<(Seq<char>, NbtTree)>) -> Option<
    CampFireBlockEntityDataModel,
> {
    match spec_items_or(spec_lookup(ps, "Items"@)) {
        Some(items) => Some(
            CampFireBlockEntityDataModel {
                cooking_times: spec_int_array_or(spec_lookup(ps, "CookingTimes"@)),
                cooking_total_times: spec_int_array_or(spec_lookup(ps, "CookingTotalTimes"@)),
                items,
            },
        ),
        None => None,
    }
}

fn decode_campfire(data: Vec<(String, NbtValue)>) -> (r: Result<
    CampFireBlockEntityData,
    SchematicError,
>)
    ensures
        match r {
            Ok(d) => spec_campfire(pairs_model(data@)) == Some(d@),
            Err(e) => spec_campfire(pairs_model(data@)) is None && e@ == spec_item_error(),
        },
{
    let keys: Vec<String> = vec![
        String::from_str("CookingTimes"),
        String::from_str("CookingTotalTimes"),
        String::from_str("Items"),
    ];
    proof {
        reveal_strlit("CookingTimes");
        reveal_strlit("CookingTotalTimes");
        reveal_strlit("Items");
        assert forall|m: int, n: int|
            0 <= m < n < keys@.len() implies keys@[m]@ != keys@[n]@ by {
            assert(keys@[0]@.len() == 12);
            assert(keys@[1]@.len() == 17);
            assert(keys@[2]@.len() == 5);
        }
    }
    let mut slots = take_fields(data, &keys);
    let s_items = slots.pop().unwrap();
    let s_totals = slots.pop().unwrap();
    let s_times = slots.pop().unwrap();
    let items = match items_or(s_items) {
        Ok(it) => it,
        Err(e) => {
            return Err(e);
        },
    };
    Ok(
        CampFireBlockEntityData {
            cooking_times: int_array_or(s_times),
            cooking_total_times: int_array_or(s_totals),
            items,
        },
    )
}

/// A soul campfire record; the campfire shape.
pub open spec fn spec_soul_campfire(ps: Seq<(Seq<char>, NbtTree)>) -> Option<
    SoulCampFireBlockEntityDataModel,
> {
    match spec_items_or(spec_lookup(ps, "Items"@)) {
        Some(items) => Some(
            SoulCampFireBlockEntityDataModel {
                cooking_times: spec_int_array_or(spec_lookup(ps, "CookingTimes"@)),
                cooking_total_times: spec_int_array_or(spec_lookup(ps, "CookingTotalTimes"@)),
                items,
            },
        ),
        None => None,
    }
}

fn decode_soul_campfire(data: Vec<(String, NbtValue)>) -> (r: Result<
    SoulCampFireBlockEntityData,
    SchematicError,
>)
    ensures
        match r {
            Ok(d) => spec_soul_campfire(pairs_model(data@)) == Some(d@),
            Err(e) => spec_soul_campfire(pairs_model(data@)) is None && e@ == spec_item_error(),
        },
{
    let keys: Vec<String> = vec![
        String::from_str("CookingTimes"),
        String::from_str("CookingTotalTimes"),
        String::from_str("Items"),
    ];
    proof {
        reveal_strlit("CookingTimes");
        reveal_strlit("CookingTotalTimes");
        reveal_strlit("Items");
        assert forall|m: int, n: int|
            0 <= m < n < keys@.len() implies keys@[m]@ != keys@[n]@ by {
            assert(keys@[0]@.len() == 12);
            assert(keys@[1]@.len() == 17);
            assert(keys@[2]@.len() == 5);
        }
    }
    let mut slots = take_fields(data, &keys);
    let s_items = slots.pop().unwrap();
    let s_totals = slots.pop().unwrap();
    let s_times = slots.pop().unwrap();
    let items = match items_or(s_items) {
        Ok(it) => it,
        Err(e) => {
            return Err(e);
        },
    };
    Ok(
        SoulCampFireBlockEntityData {
            cooking_times: int_array_or(s_times),
            cooking_total_times: int_array_or(s_totals),
            items,
        },
    )
}

/// A chiseled bookshelf record; a malformed container item fails the
/// decode.
pub open spec fn spec_chiseled_bookshelf(ps: Seq<(Seq<char>, NbtTree)>) -> Option<
    ChiseledBookShelfBlockEntityDataModel,
> {
    match spec_items_or(spec_lookup(ps, "Items"@)) {
        Some(items) => Some(
            ChiseledBookShelfBlockEntityDataModel {
                items,
                last_interacted_slot: spec_int_or(spec_lookup(ps, "last_interacted_slot"@), 0),
            },
        ),
        None => None,
    }
}

fn decode_chiseled_bookshelf(data: Vec<(String, NbtValue)>) -> (r: Result<
    ChiseledBookShelfBlockEntityData,
    SchematicError,
>)
    ensures
        match r {
            Ok(d) => spec_chiseled_bookshelf(pairs_model(data@)) == Some(d@),
            Err(e) => spec_chiseled_bookshelf(pairs_model(data@)) is None && e@
                == spec_item_error(),
        },
{
    let keys: Vec<String> = vec![
        String::from_str("Items"),
        String::from_str("last_interacted_slot"),
    ];
    proof {
        reveal_strlit("Items");
        reveal_strlit("last_interacted_slot");
        assert forall|m: int, n: int|
            0 <= m < n < keys@.len() implies keys@[m]@ != keys@[n]@ by {
            assert(keys@[0]@.len() == 5);
            assert(keys@[1]@.len() == 20);
        }
    }
    let mut slots = take_fields(data, &keys);
    let s_slot = slots.pop().unwrap();
    let s_items = slots.pop().unwrap();
    let items = match items_or(s_items) {
        Ok(it) => it,
        Err(e) => {
            return Err(e);
        },
    };
    Ok(
        ChiseledBookShelfBlockEntityData { items, last_interacted_slot: int_or(s_slot, 0) },
    )
}

/// A beehive record.
pub open spec fn spec_beehive(ps: Seq<(Seq<char>, NbtTree)>) -> BeehiveBlockEntityDataModel {
    (BeehiveBlockEntityDataModel {
        bees: spec_compound_list_or(spec_lookup(ps, "Bees"@)),
        flower_pos: spec_int_triples_or(spec_lookup(ps, "FlowerPos"@)),
    })
}

fn decode_beehive(data: Vec<(String, NbtValue)>) -> (r: BeehiveBlockEntityData)
    ensures
        r@ == spec_beehive(pairs_model(data@)),
{
    let keys: Vec<String> = vec![String::from_str("Bees"), String::from_str("FlowerPos")];
    proof {
        reveal_strlit("Bees");
        reveal_strlit("FlowerPos");
        assert forall|m: int, n: int|
            0 <= m < n < keys@.len() implies keys@[m]@ != keys@[n]@ by {
            assert(keys@[0]@.len() == 4);
            assert(keys@[1]@.len() == 9);
        }
    }
    let mut slots = take_fields(data, &keys);
    let s_flowers = slots.pop().unwrap();
    let s_bees = slots.pop().unwrap();
    BeehiveBlockEntityData {
        bees: compound_list_or(s_bees),
        flower_pos: int_triples_or(s_flowers),
    }
}

/// An end gateway record.
pub open spec fn spec_end_gateway(ps: Seq<(Seq<char>, NbtTree)>) -> EndGatewayBlockEntityDataModel {
    (EndGatewayBlockEntityDataModel {
        age: spec_long_or(spec_lookup(ps, "Age"@), 0),
        extract_teleport: spec_byte_or(spec_lookup(ps, "ExactTeleport"@), 0),
        exit_portal: spec_compound_or(spec_lookup(ps, "ExitPortal"@)),
    })
}

fn decode_end_gateway(data: Vec<(String, NbtValue)>) -> (r: EndGatewayBlockEntityData)
    ensures
        r@ == spec_end_gateway(pairs_model(data@)),
{
    let keys: Vec<String> = vec![
        String::from_str("Age"),
        String::from_str("ExactTeleport"),
        String::from_str("ExitPortal"),
    ];
    proof {
        reveal_strlit("Age");
        reveal_strlit("ExactTeleport");
        reveal_strlit("ExitPortal");
        assert forall|m: int, n: int|
            0 <= m < n < keys@.len() implies keys@[m]@ != keys@[n]@ by {
            assert(keys@[0]@.len() == 3);
            assert(keys@[1]@.len() == 13);
            assert(keys@[2]@.len() == 10);
        }
    }
    let mut slots = take_fields(data, &keys);
    let s_portal = slots.pop().unwrap();
    let s_teleport = slots.pop().unwrap();
    let s_age = slots.pop().unwrap();
    EndGatewayBlockEntityData {
        age: long_or(s_age, 0),
        extract_teleport: byte_or(s_teleport, 0),
        exit_portal: compound_or(s_portal),
    }
}

/// A jukebox record.
pub open spec fn spec_jukebox(ps: Seq<(Seq<char>, NbtTree)>) -> JukeBoxBlockEntityDataModel {
    (JukeBoxBlockEntityDataModel {
        is_playing: spec_byte_or(spec_lookup(ps, "IsPlaying"@), 0),
        record_item: spec_compound_or(spec_lookup(ps, "RecordItem"@)),
        record_start_tick: spec_long_or(spec_lookup(ps, "RecordStartTick"@), 0),
        tick_count: spec_long_or(spec_lookup(ps, "TickCount"@), 0),
    })
}

fn decode_jukebox(data: Vec<(String, NbtValue)>) -> (r: JukeBoxBlockEntityData)
    ensures
        r@ == spec_jukebox(pairs_model(data@)),
{
    let keys: Vec<String> = vec![
        String::from_str("IsPlaying"),
        String::from_str("RecordItem"),
        String::from_str("RecordStartTick"),
        String::from_str("TickCount"),
    ];
    proof {
        reveal_strlit("IsPlaying");
        reveal_strlit("RecordItem");
        reveal_strlit("RecordStartTick");
        reveal_strlit("TickCount");
        assert forall|m: int, n: int|
            0 <= m < n < keys@.len() implies keys@[m]@ != keys@[n]@ by {
            assert(keys@[0]@.len() == 9);
            assert(keys@[1]@.len() == 10);
            assert(keys@[2]@.len() == 15);
            assert(keys@[3]@.len() == 9);
            assert(keys@[0]@[0] == 'I');
            assert(keys@[3]@[0] == 'T');
        }
    }
    let mut slots = take_fields(data, &keys);
    let s_count = slots.pop().unwrap();
    let s_start = slots.pop().unwrap();
    let s_record = slots.pop().unwrap();
    let s_playing = slots.pop().unwrap();
    JukeBoxBlockEntityData {
        is_playing: byte_or(s_playing, 0),
        record_item: compound_or(s_record),
        record_start_tick: long_or(s_start, 0),
        tick_count: long_or(s_count, 0),
    }
}

/// A lectern record.
pub open spec fn spec_lectern(ps: Seq<(Seq<char>, NbtTree)>) -> LecternBlockEntityDataModel {
    (LecternBlockEntityDataModel {
        book: spec_compound_or(spec_lookup(ps, "Book"@)),
        page: spec_int_or(spec_lookup(ps, "Page"@), 0),
    })
}

fn decode_lectern(data: Vec<(String, NbtValue)>) -> (r: LecternBlockEntityData)
    ensures
        r@ == spec_lectern(pairs_model(data@)),
{
    let keys: Vec<String> = vec![String::from_str("Book"), String::from_str("Page")];
    proof {
        reveal_strlit("Book");
        reveal_strlit("Page");
        assert forall|m: int, n: int|
            0 <= m < n < keys@.len() implies keys@[m]@ != keys@[n]@ by {
            assert(keys@[0]@.len() == 4);
            assert(keys@[1]@.len() == 4);
            assert(keys@[0]@[0] == 'B');
            assert(keys@[1]@[0] == 'P');
        }
    }
    let mut slots = take_fields(data, &keys);
    let s_page = slots.pop().unwrap();
    let s_book = slots.pop().unwrap();
    LecternBlockEntityData { book: compound_or(s_book), page: int_or(s_page, 0) }
}

/// A moving piston record.
pub open spec fn spec_piston(ps: Seq<(Seq<char>, NbtTree)>) -> PistonBlockEntityDataModel {
    (PistonBlockEntityDataModel {
        block_state: spec_compound_or(spec_lookup(ps, "blockState"@)),
        extending: spec_byte_or(spec_lookup(ps, "extending"@), 0),
        facing: spec_int_or(spec_lookup(ps, "facing"@), 0),
        progress_bits: spec_float_bits_or(spec_lookup(ps, "progress"@), 0),
        source: spec_byte_or(spec_lookup(ps, "source"@), 0),
    })
}

fn decode_piston(data: Vec<(String, NbtValue)>) -> (r: PistonBlockEntityData)
    ensures
        r@ == spec_piston(pairs_model(data@)),
{
    let keys: Vec<String> = vec![
        String::from_str("blockState"),
        String::from_str("extending"),
        String::from_str("facing"),
        String::from_str("progress"),
        String::from_str("source"),
    ];
    proof {
        reveal_strlit("blockState");
        reveal_strlit("extending");
        reveal_strlit("facing");
        reveal_strlit("progress");
        reveal_strlit("source");
        assert forall|m: int, n: int|
            0 <= m < n < keys@.len() implies keys@[m]@ != keys@[n]@ by {
            assert(keys@[0]@.len() == 10);
            assert(keys@[1]@.len() == 9);
            assert(keys@[2]@.len() == 6);
            assert(keys@[3]@.len() == 8);
            assert(keys@[4]@.len() == 6);
            assert(keys@[2]@[0] == 'f');
            assert(keys@[4]@[0] == 's');
        }
    }
    let mut slots = take_fields(data, &keys);
    let s_source = slots.pop().unwrap();
    let s_progress = slots.pop().unwrap();
    let s_facing = slots.pop().unwrap();
    let s_extending = slots.pop().unwrap();
    let s_state = slots.pop().unwrap();
    PistonBlockEntityData {
        block_state: compound_or(s_state),
        extending: byte_or(s_extending, 0),
        facing: int_or(s_facing, 0),
        progress_bits: float_bits_or(s_progress, 0),
        source: byte_or(s_source, 0),
    }
}

/// The dispatch tag of a data compound: its "id" string child, or empty
/// text when that child is absent or no string.
pub open spec fn spec_tag_of(ps: Seq<(Seq<char>, NbtTree)>) -> Seq<char> {
    spec_string_or(spec_lookup(ps, "id"@), Seq::empty())
}

/// The set of dispatch tags with a modeled payload shape.  Every other tag
/// decodes to the fallback shape.
pub open spec fn spec_known_tag(tag: Seq<char>) -> bool {
    ||| tag == "minecraft:sign"@
    ||| tag == "minecraft:hanging_sign"@
    ||| tag == "minecraft:banner"@
    ||| tag == "minecraft:barrel"@
    ||| tag == "minecraft:beacon"@
    ||| tag == "minecraft:bed"@
    ||| tag == "minecraft:beehive"@
    ||| tag == "minecraft:bell"@
    ||| tag == "minecraft:blast_furnance"@
    ||| tag == "minecraft:brewing_stand"@
    ||| tag == "minecraft:campfire"@
    ||| tag == "minecraft:chiseled_bookshelf"@
    ||| tag == "minecraft:chest"@
    ||| tag == "minecraft:comparator"@
    ||| tag == "minecraft:command_block"@
    ||| tag == "minecraft:conduit"@
    ||| tag == "minecraft:daylight_detector"@
    ||| tag == "minecraft:decorated_pot"@
    ||| tag == "minecraft:dispenser"@
    ||| tag == "minecraft:dropper"@
    ||| tag == "minecraft:enchanting_table"@
    ||| tag == "minecraft:ender_chest"@
    ||| tag == "minecraft:end_gateway"@
    ||| tag == "minecraft:end_portal"@
    ||| tag == "minecraft:furnace"@
    ||| tag == "minecraft:hopper"@
    ||| tag == "minecraft:jigsaw"@
    ||| tag == "minecraft:jukebox"@
    ||| tag == "minecraft:lectern"@
    ||| tag == "minecraft:mob_spawner"@
    ||| tag == "minecraft:piston"@
    ||| tag == "minecraft:shulker_box"@
    ||| tag == "minecraft:skull"@
    ||| tag == "minecraft:smoker"@
    ||| tag == "minecraft:soul_campfire"@
    ||| tag == "minecraft:structure_block"@
    ||| tag == "minecraft:trapped_chest"@
}

/// The whole dispatch: pick the payload shape named by the data compound's
/// tag and decode its fields; an unknown tag yields the fallback shape and
/// never fails.
pub open spec fn spec_dispatch(ps: Seq<(Seq<char>, NbtTree)>) -> Result<
    BlockEntityDataModel,
    SchematicErrorModel,
> {
    let tag = spec_tag_of(ps);
    if tag == "minecraft:sign"@ || tag == "minecraft:hanging_sign"@ {
        Ok(BlockEntityDataModel::Sign(spec_sign(ps)))
    } else if tag == "minecraft:banner"@ {
        Ok(BlockEntityDataModel::Banner(spec_banner(ps)))
    } else if tag == "minecraft:barrel"@ {
        match spec_barrel(ps) {
            Some(d) => Ok(BlockEntityDataModel::Barrel(d)),
            None => Err(spec_item_error()),
        }
    } else if tag == "minecraft:beacon"@ {
        Ok(BlockEntityDataModel::Beacon(spec_beacon(ps)))
    } else if tag == "minecraft:bed"@ {
        Ok(BlockEntityDataModel::Bed(DefaultBlockEntityDataModel { id: tag }))
    } else if tag == "minecraft:beehive"@ {
        Ok(BlockEntityDataModel::Beehive(spec_beehive(ps)))
    } else if tag == "minecraft:bell"@ {
        Ok(BlockEntityDataModel::Bell(DefaultBlockEntityDataModel { id: tag }))
    } else if tag == "minecraft:blast_furnance"@ {
        match spec_blast_furnance(ps) {
            Some(d) => Ok(BlockEntityDataModel::BlastFurnance(d)),
            None => Err(spec_item_error()),
        }
    } else if tag == "minecraft:brewing_stand"@ {
        match spec_brewing_stand(ps) {
            Some(d) => Ok(BlockEntityDataModel::BrewingStand(d)),
            None => Err(spec_item_error()),
        }
    } else if tag == "minecraft:campfire"@ {
        match spec_campfire(ps) {
            Some(d) => Ok(BlockEntityDataModel::CampFire(d)),
            None => Err(spec_item_error()),
        }
    } else if tag == "minecraft:chiseled_bookshelf"@ {
        match spec_chiseled_bookshelf(ps) {
            Some(d) => Ok(BlockEntityDataModel::ChiseledBookShelf(d)),
            None => Err(spec_item_error()),
        }
    } else if tag == "minecraft:chest"@ {
        match spec_chest(ps) {
            Some(d) => Ok(BlockEntityDataModel::Chest(d)),
            None => Err(spec_item_error()),
        }
    } else if tag == "minecraft:comparator"@ {
        Ok(BlockEntityDataModel::Comparator(spec_comparator(ps)))
    } else if tag == "minecraft:command_block"@ {
        Ok(BlockEntityDataModel::CommandBlock(spec_command_block(ps)))
    } else if tag == "minecraft:conduit"@ {
        Ok(BlockEntityDataModel::Conduit(spec_conduit(ps)))
    } else if tag == "minecraft:daylight_detector"@ {
        Ok(BlockEntityDataModel::DayLightDetector(DefaultBlockEntityDataModel { id: tag }))
    } else if tag == "minecraft:decorated_pot"@ {
        Ok(BlockEntityDataModel::DecoratedPot(DefaultBlockEntityDataModel { id: tag }))
    } else if tag == "minecraft:dispenser"@ {
        match spec_dispenser(ps) {
            Some(d) => Ok(BlockEntityDataModel::Dispenser(d)),
            None => Err(spec_item_error()),
        }
    } else if tag == "minecraft:dropper"@ {
        match spec_dropper(ps) {
            Some(d) => Ok(BlockEntityDataModel::Dropper(d)),
            None => Err(spec_item_error()),
        }
    } else if tag == "minecraft:enchanting_table"@ {
        Ok(BlockEntityDataModel::EnchantingTable(DefaultBlockEntityDataModel { id: tag }))
    } else if tag == "minecraft:ender_chest"@ {
        Ok(BlockEntityDataModel::EnderChest(DefaultBlockEntityDataModel { id: tag }))
    } else if tag == "minecraft:end_gateway"@ {
        Ok(BlockEntityDataModel::EndGateway(spec_end_gateway(ps)))
    } else if tag == "minecraft:end_portal"@ {
        Ok(BlockEntityDataModel::EndPortal(DefaultBlockEntityDataModel { id: tag }))
    } else if tag == "minecraft:furnace"@ {
        match spec_furnace(ps) {
            Some(d) => Ok(BlockEntityDataModel::Furnace(d)),
            None => Err(spec_item_error()),
        }
    } else if tag == "minecraft:hopper"@ {
        match spec_hopper(ps) {
            Some(d) => Ok(BlockEntityDataModel::Hopper(d)),
            None => Err(spec_item_error()),
        }
    } else if tag == "minecraft:jigsaw"@ {
        Ok(BlockEntityDataModel::JigSaw(spec_jigsaw(ps)))
    } else if tag == "minecraft:jukebox"@ {
        Ok(BlockEntityDataModel::JukeBox(spec_jukebox(ps)))
    } else if tag == "minecraft:lectern"@ {
        Ok(BlockEntityDataModel::Lectern(spec_lectern(ps)))
    } else if tag == "minecraft:mob_spawner"@ {
        Ok(BlockEntityDataModel::MobSpawner(DefaultBlockEntityDataModel { id: tag }))
    } else if tag == "minecraft:piston"@ {
        Ok(BlockEntityDataModel::Piston(spec_piston(ps)))
    } else if tag == "minecraft:shulker_box"@ {
        match spec_shulker_box(ps) {
            Some(d) => Ok(BlockEntityDataModel::ShulkerBox(d)),
            None => Err(spec_item_error()),
        }
    } else if tag == "minecraft:skull"@ {
        Ok(BlockEntityDataModel::Skull(spec_skull(ps)))
    } else if tag == "minecraft:smoker"@ {
        match spec_smoker(ps) {
            Some(d) => Ok(BlockEntityDataModel::Smoker(d)),
            None => Err(spec_item_error()),
        }
    } else if tag == "minecraft:soul_campfire"@ {
        match spec_soul_campfire(ps) {
            Some(d) => Ok(BlockEntityDataModel::SoulCampFire(d)),
            None => Err(spec_item_error()),
        }
    } else if tag == "minecraft:structure_block"@ {
        Ok(BlockEntityDataModel::StructureBlock(ps))
    } else if tag == "minecraft:trapped_chest"@ {
        match spec_trapped_chest(ps) {
            Some(d) => Ok(BlockEntityDataModel::TrappedChest(d)),
            None => Err(spec_item_error()),
        }
    } else {
        Ok(BlockEntityDataModel::Default(DefaultBlockEntityDataModel { id: tag }))
    }
}

impl BlockEntityData {
    /// Decodes one block entity's data compound by its dispatch tag.  An
    /// unrecognized tag decodes to the fallback shape; only a malformed
    /// item inside a known container shape fails.
    pub fn parse_block_entity_data(data: Vec<(String, NbtValue)>) -> (r: Result<
        BlockEntityData,
        SchematicError,
    >)
        ensures
            match r {
                Ok(d) => spec_dispatch(pairs_model(data@)) == Ok::<BlockEntityDataModel, SchematicErrorModel>(d@),
                Err(e) => spec_dispatch(pairs_model(data@)) == Err::<BlockEntityDataModel, SchematicErrorModel>(e@),
            },
    {
        let id = match find_string(&data, &String::from_str("id")) {
            Some(s) => s,
            None => String::new(),
        };
        if id == String::from_str("minecraft:sign") || id == String::from_str(
            "minecraft:hanging_sign",
        ) {
            Ok(BlockEntityData::Sign(decode_sign(data)))
        } else if id == String::from_str("minecraft:banner") {
            Ok(BlockEntityData::Banner(decode_banner(data)))
        } else if id == String::from_str("minecraft:barrel") {
            match decode_barrel(data) {
                Ok(d) => Ok(BlockEntityData::Barrel(d)),
                Err(e) => Err(e),
            }
        } else if id == String::from_str("minecraft:beacon") {
            Ok(BlockEntityData::Beacon(decode_beacon(data)))
        } else if id == String::from_str("minecraft:bed") {
            Ok(BlockEntityData::Bed(DefaultBlockEntityData { id }))
        } else if id == String::from_str("minecraft:beehive") {
            Ok(BlockEntityData::Beehive(decode_beehive(data)))
        } else if id == String::from_str("minecraft:bell") {
            Ok(BlockEntityData::Bell(DefaultBlockEntityData { id }))
        } else if id == String::from_str("minecraft:blast_furnance") {
            match decode_blast_furnance(data) {
                Ok(d) => Ok(BlockEntityData::BlastFurnance(d)),
                Err(e) => Err(e),
            }
        } else if id == String::from_str("minecraft:brewing_stand") {
            match decode_brewing_stand(data) {
                Ok(d) => Ok(BlockEntityData::BrewingStand(d)),
                Err(e) => Err(e),
            }
        } else if id == String::from_str("minecraft:campfire") {
            match decode_campfire(data) {
                Ok(d) => Ok(BlockEntityData::CampFire(d)),
                Err(e) => Err(e),
            }
        } else if id == String::from_str("minecraft:chiseled_bookshelf") {
            match decode_chiseled_bookshelf(data) {
                Ok(d) => Ok(BlockEntityData::ChiseledBookShelf(d)),
                Err(e) => Err(e),
            }
        } else if id == String::from_str("minecraft:chest") {
            match decode_chest(data) {
                Ok(d) => Ok(BlockEntityData::Chest(d)),
                Err(e) => Err(e),
            }
        } else if id == String::from_str("minecraft:comparator") {
            Ok(BlockEntityData::Comparator(decode_comparator(data)))
        } else if id == String::from_str("minecraft:command_block") {
            Ok(BlockEntityData::CommandBlock(decode_command_block(data)))
        } else if id == String::from_str("minecraft:conduit") {
            Ok(BlockEntityData::Conduit(decode_conduit(data)))
        } else if id == String::from_str("minecraft:daylight_detector") {
            Ok(BlockEntityData::DayLightDetector(DefaultBlockEntityData { id }))
        } else if id == String::from_str("minecraft:decorated_pot") {
            Ok(BlockEntityData::DecoratedPot(DefaultBlockEntityData { id }))
        } else if id == String::from_str("minecraft:dispenser") {
            match decode_dispenser(data) {
                Ok(d) => Ok(BlockEntityData::Dispenser(d)),
                Err(e) => Err(e),
            }
        } else if id == String::from_str("minecraft:dropper") {
            match decode_dropper(data) {
                Ok(d) => Ok(BlockEntityData::Dropper(d)),
                Err(e) => Err(e),
            }
        } else if id == String::from_str("minecraft:enchanting_table") {
            Ok(BlockEntityData::EnchantingTable(DefaultBlockEntityData { id }))
        } else if id == String::from_str("minecraft:ender_chest") {
            Ok(BlockEntityData::EnderChest(DefaultBlockEntityData { id }))
        } else if id == String::from_str("minecraft:end_gateway") {
            Ok(BlockEntityData::EndGateway(decode_end_gateway(data)))
        } else if id == String::from_str("minecraft:end_portal") {
            Ok(BlockEntityData::EndPortal(DefaultBlockEntityData { id }))
        } else if id == String::from_str("minecraft:furnace") {
            match decode_furnace(data) {
                Ok(d) => Ok(BlockEntityData::Furnace(d)),
                Err(e) => Err(e),
            }
        } else if id == String::from_str("minecraft:hopper") {
            match decode_hopper(data) {
                Ok(d) => Ok(BlockEntityData::Hopper(d)),
                Err(e) => Err(e),
            }
        } else if id == String::from_str("minecraft:jigsaw") {
            Ok(BlockEntityData::JigSaw(decode_jigsaw(data)))
        } else if id == String::from_str("minecraft:jukebox") {
            Ok(BlockEntityData::JukeBox(decode_jukebox(data)))
        } else if id == String::from_str("minecraft:lectern") {
            Ok(BlockEntityData::Lectern(decode_lectern(data)))
        } else if id == String::from_str("minecraft:mob_spawner") {
            Ok(BlockEntityData::MobSpawner(DefaultBlockEntityData { id }))
        } else if id == String::from_str("minecraft:piston") {
            Ok(BlockEntityData::Piston(decode_piston(data)))
        } else if id == String::from_str("minecraft:shulker_box") {
            match decode_shulker_box(data) {
                Ok(d) => Ok(BlockEntityData::ShulkerBox(d)),
                Err(e) => Err(e),
            }
        } else if id == String::from_str("minecraft:skull") {
            Ok(BlockEntityData::Skull(decode_skull(data)))
        } else if id == String::from_str("minecraft:smoker") {
            match decode_smoker(data) {
                Ok(d) => Ok(BlockEntityData::Smoker(d)),
                Err(e) => Err(e),
            }
        } else if id == String::from_str("minecraft:soul_campfire") {
            match decode_soul_campfire(data) {
                Ok(d) => Ok(BlockEntityData::SoulCampFire(d)),
                Err(e) => Err(e),
            }
        } else if id == String::from_str("minecraft:structure_block") {
            Ok(BlockEntityData::StructureBlock(data))
        } else if id == String::from_str("minecraft:trapped_chest") {
            match decode_trapped_chest(data) {
                Ok(d) => Ok(BlockEntityData::TrappedChest(d)),
                Err(e) => Err(e),
            }
        } else {
            Ok(BlockEntityData::Default(DefaultBlockEntityData { id }))
        }
    }
}

/// The position child of a block entity record, accepted only as an int
/// array of exactly three components.
pub open spec fn spec_pos_of(ps: Seq<(Seq<char>, NbtTree)>) -> Option<Seq<i32>> {
    match spec_lookup(ps, "Pos"@) {
        Some(NbtTree::IntArray(a)) => if a.len() == 3 {
            Some(a)
        } else {
            None
        },
        _ => None,
    }
}

/// One block entity record: its identifier and three-component position
/// are required; its data compound is optional and defaults to empty, so
/// the dispatch still runs.
pub open spec fn spec_block_entity(ps: Seq<(Seq<char>, NbtTree)>) -> Result<
    BlockEntitySchematicModel,
    SchematicErrorModel,
> {
    match spec_opt_string(spec_lookup(ps, "Id"@)) {
        Some(id) => match spec_pos_of(ps) {
            Some(pos) => match spec_dispatch(spec_compound_or(spec_lookup(ps, "Data"@))) {
                Ok(d) => Ok((BlockEntitySchematicModel { data: d, id, pos })),
                Err(e) => Err(e),
            },
            None => Err(
                SchematicErrorModel::InvalidFormat("missing or malformed block entity Pos"@),
            ),
        },
        None => Err(SchematicErrorModel::InvalidFormat("missing or mistyped block entity Id"@)),
    }
}

impl BlockEntitySchematic {
    /// Decodes one block entity record from its compound.
    pub fn from_compound(ps: Vec<(String, NbtValue)>) -> (r: Result<
        BlockEntitySchematic,
        SchematicError,
    >)
        ensures
            match r {
                Ok(b) => spec_block_entity(pairs_model(ps@)) == Ok::<BlockEntitySchematicModel, SchematicErrorModel>(b@) && b.wf(),
                Err(e) => spec_block_entity(pairs_model(ps@)) == Err::<BlockEntitySchematicModel, SchematicErrorModel>(e@),
            },
    {
        let keys: Vec<String> = vec![
            String::from_str("Id"),
            String::from_str("Pos"),
            String::from_str("Data"),
        ];
        proof {
            reveal_strlit("Id");
            reveal_strlit("Pos");
            reveal_strlit("Data");
            assert forall|m: int, n: int|
                0 <= m < n < keys@.len() implies keys@[m]@ != keys@[n]@ by {
                assert(keys@[0]@.len() == 2);
                assert(keys@[1]@.len() == 3);
                assert(keys@[2]@.len() == 4);
            }
        }
        let mut slots = take_fields(ps, &keys);
        let s_data = slots.pop().unwrap();
        let s_pos = slots.pop().unwrap();
        let s_id = slots.pop().unwrap();
        let id = match opt_string(s_id) {
            Some(s) => s,
            None => {
                return Err(SchematicError::InvalidFormat(String::from_str(
                    "missing or mistyped block entity Id",
                )));
            },
        };
        let pos = match s_pos {
            Some(NbtValue::IntArray(a)) => {
                if a.len() == 3 {
                    a
                } else {
                    return Err(SchematicError::InvalidFormat(String::from_str(
                        "missing or malformed block entity Pos",
                    )));
                }
            },
            _ => {
                return Err(SchematicError::InvalidFormat(String::from_str(
                    "missing or malformed block entity Pos",
                )));
            },
        };
        let data_pairs = compound_or(s_data);
        match BlockEntityData::parse_block_entity_data(data_pairs) {
            Ok(d) => Ok(BlockEntitySchematic { data: d, id, pos }),
            Err(e) => Err(e),
        }
    }
}

/// An unrecognized dispatch tag decodes to the fallback shape carrying
/// that tag, and never fails.
pub proof fn lemma_unknown_tag_is_default(ps: Seq<(Seq<char>, NbtTree)>)
    requires
        !spec_known_tag(spec_tag_of(ps)),
    ensures
        spec_dispatch(ps) == Ok::<BlockEntityDataModel, SchematicErrorModel>(
            BlockEntityDataModel::Default(DefaultBlockEntityDataModel { id: spec_tag_of(ps) }),
        ),
{
}

/// The hanging-sign tag is an alias: any record tagged with it decodes
/// into the sign variant with the same field decoding as a record tagged
/// with the sign tag, and both always succeed.
pub proof fn lemma_hanging_sign_alias(ps: Seq<(Seq<char>, NbtTree)>)
    requires
        spec_tag_of(ps) == "minecraft:sign"@ || spec_tag_of(ps) == "minecraft:hanging_sign"@,
    ensures
        spec_dispatch(ps) == Ok::<BlockEntityDataModel, SchematicErrorModel>(
            BlockEntityDataModel::Sign(spec_sign(ps)),
        ),
{
}

/// A sign record with absent front and back text compounds decodes the
/// front color to yellow, the back color to black, both glow flags to
/// zero, and both message lists to empty.
pub proof fn lemma_sign_defaults(ps: Seq<(Seq<char>, NbtTree)>)
    requires
        spec_lookup(ps, "front_text"@) is None,
        spec_lookup(ps, "back_text"@) is None,
    ensures
        spec_sign(ps).front_text.color == "yellow"@,
        spec_sign(ps).back_text.color == "black"@,
        spec_sign(ps).front_text.has_glowing_text == 0,
        spec_sign(ps).back_text.has_glowing_text == 0,
        spec_sign(ps).front_text.messages == Seq::<Seq<char>>::empty(),
        spec_sign(ps).back_text.messages == Seq::<Seq<char>>::empty(),
{
}

/// A record whose position is absent or not a three-component int array
/// fails with the invalid-format error, whatever its other fields hold.
pub proof fn lemma_malformed_pos(ps: Seq<(Seq<char>, NbtTree)>)
    requires
        spec_opt_string(spec_lookup(ps, "Id"@)) is Some,
        spec_pos_of(ps) is None,
    ensures
        spec_block_entity(ps) == Err::<BlockEntitySchematicModel, SchematicErrorModel>(
            SchematicErrorModel::InvalidFormat("missing or malformed block entity Pos"@),
        ),
{
}

} // verus!

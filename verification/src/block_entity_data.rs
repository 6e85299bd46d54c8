//! The typed payloads of block entities: one record shape per known tag,
//! plus the fallback shape that carries an unrecognized tag unchanged.

use vstd::prelude::*;

use crate::nbt::{pairs_model, NbtTree, NbtValue};

verus! {

broadcast use vstd::std_specs::vec::group_vec_axioms, vstd::seq::group_seq_axioms;

/// The fallback payload: just the raw dispatch tag of a block entity whose
/// shape is not modeled.  Decoding to this shape never fails.
#[derive(Debug, PartialEq)]
pub struct DefaultBlockEntityData {
    pub id: String,
}

/// The mathematical shape of a `DefaultBlockEntityData`.
pub struct DefaultBlockEntityDataModel {
    pub id: Seq<char>,
}

impl View for DefaultBlockEntityData {
    type V = DefaultBlockEntityDataModel;

    open spec fn view(&self) -> DefaultBlockEntityDataModel {
        (DefaultBlockEntityDataModel { id: self.id@ })
    }
}

/// One side of a sign: its text color, its glow flag, and its message
/// lines.
#[derive(Debug, PartialEq)]
pub struct SignTextData {
    pub color: String,
    pub has_glowing_text: i32,
    pub messages: Vec<String>,
}

/// The mathematical shape of a `SignTextData`.
pub struct SignTextDataModel {
    pub color: Seq<char>,
    pub has_glowing_text: i32,
    pub messages: Seq<Seq<char>>,
}

impl View for SignTextData {
    type V = SignTextDataModel;

    open spec fn view(&self) -> SignTextDataModel {
        (SignTextDataModel {
            color: self.color@,
            has_glowing_text: self.has_glowing_text,
            messages: self.messages.deep_view(),
        })
    }
}

/// A sign or hanging sign: two text sides and a waxed flag.
#[derive(Debug, PartialEq)]
pub struct SignBlockEntityData {
    pub back_text: SignTextData,
    pub front_text: SignTextData,
    pub is_waxed: i8,
}

/// The mathematical shape of a `SignBlockEntityData`.
pub struct SignBlockEntityDataModel {
    pub back_text: SignTextDataModel,
    pub front_text: SignTextDataModel,
    pub is_waxed: i8,
}

impl View for SignBlockEntityData {
    type V = SignBlockEntityDataModel;

    open spec fn view(&self) -> SignBlockEntityDataModel {
        (SignBlockEntityDataModel {
            back_text: self.back_text@,
            front_text: self.front_text@,
            is_waxed: self.is_waxed,
        })
    }
}

/// One banner pattern layer.
#[derive(Debug, PartialEq)]
pub struct Pattern {
    pub color: String,
    pub pattern: String,
}

/// The mathematical shape of a `Pattern`.
pub struct PatternModel {
    pub color: Seq<char>,
    pub pattern: Seq<char>,
}

impl View for Pattern {
    type V = PatternModel;

    open spec fn view(&self) -> PatternModel {
        (PatternModel { color: self.color@, pattern: self.pattern@ })
    }
}

/// A banner: an optional custom name and its pattern layers.
#[derive(Debug, PartialEq)]
pub struct BannerBlockEntityData {
    pub custom_name: Option<String>,
    pub patterns: Vec<Pattern>,
}

/// The mathematical shape of a `BannerBlockEntityData`.
pub struct BannerBlockEntityDataModel {
    pub custom_name: Option<Seq<char>>,
    pub patterns: Seq<PatternModel>,
}

impl View for BannerBlockEntityData {
    type V = BannerBlockEntityDataModel;

    open spec fn view(&self) -> BannerBlockEntityDataModel {
        (BannerBlockEntityDataModel {
            custom_name: self.custom_name.deep_view(),
            patterns: Seq::new(self.patterns@.len(), |i: int| self.patterns@[i]@),
        })
    }
}

/// One slot of a container: its slot index, its count, the item identifier,
/// and the item's opaque extra tag.
#[derive(Debug, PartialEq)]
pub struct Item {
    pub count: i8,
    pub slot: i8,
    pub id: String,
    pub tag: Vec<(String, NbtValue)>,
}

/// The mathematical shape of an `Item`.
pub struct ItemModel {
    pub count: i8,
    pub slot: i8,
    pub id: Seq<char>,
    pub tag: Seq<(Seq<char>, NbtTree)>,
}

impl View for Item {
    type V = ItemModel;

    open spec fn view(&self) -> ItemModel {
        (ItemModel {
            count: self.count,
            slot: self.slot,
            id: self.id@,
            tag: pairs_model(self.tag@),
        })
    }
}

/// The abstract contents of a vector of items.
pub open spec fn items_model(items: Seq<Item>) -> Seq<ItemModel> {
    Seq::new(items.len(), |i: int| items[i]@)
}

/// The abstract contents of a vector of opaque compounds.
pub open spec fn compounds_model(cs: Seq<Vec<(String, NbtValue)>>) -> Seq<
    Seq<(Seq<char>, NbtTree)>,
> {
    Seq::new(cs.len(), |i: int| pairs_model(cs[i]@))
}

/// A barrel: a plain lockable item container.
#[derive(Debug, PartialEq)]
pub struct BarrelBlockEntityData {
    pub custom_name: Option<String>,
    pub items: Vec<Item>,
    pub lock: Option<String>,
    pub loot_table: Option<String>,
    pub loot_table_seed: Option<i64>,
}

/// The mathematical shape of a `BarrelBlockEntityData`.
pub struct BarrelBlockEntityDataModel {
    pub custom_name: Option<Seq<char>>,
    pub items: Seq<ItemModel>,
    pub lock: Option<Seq<char>>,
    pub loot_table: Option<Seq<char>>,
    pub loot_table_seed: Option<i64>,
}

impl View for BarrelBlockEntityData {
    type V = BarrelBlockEntityDataModel;

    open spec fn view(&self) -> BarrelBlockEntityDataModel {
        (BarrelBlockEntityDataModel {
            custom_name: self.custom_name.deep_view(),
            items: items_model(self.items@),
            lock: self.lock.deep_view(),
            loot_table: self.loot_table.deep_view(),
            loot_table_seed: self.loot_table_seed,
        })
    }
}

/// A beacon: its name, lock, pyramid level, and effect choices.
#[derive(Debug, PartialEq)]
pub struct BeaconBlockEntityData {
    pub custom_name: Option<String>,
    pub lock: Option<String>,
    pub levels: i32,
    pub primary: i32,
    pub secondary: i32,
}

/// The mathematical shape of a `BeaconBlockEntityData`.
pub struct BeaconBlockEntityDataModel {
    pub custom_name: Option<Seq<char>>,
    pub lock: Option<Seq<char>>,
    pub levels: i32,
    pub primary: i32,
    pub secondary: i32,
}

impl View for BeaconBlockEntityData {
    type V = BeaconBlockEntityDataModel;

    open spec fn view(&self) -> BeaconBlockEntityDataModel {
        (BeaconBlockEntityDataModel {
            custom_name: self.custom_name.deep_view(),
            lock: self.lock.deep_view(),
            levels: self.levels,
            primary: self.primary,
            secondary: self.secondary,
        })
    }
}

/// A beehive: its occupants as opaque records and the remembered flower
/// positions.
#[derive(Debug, PartialEq)]
pub struct BeehiveBlockEntityData {
    pub bees: Vec<Vec<(String, NbtValue)>>,
    pub flower_pos: Vec<(i32, i32, i32)>,
}

/// The mathematical shape of a `BeehiveBlockEntityData`.
pub struct BeehiveBlockEntityDataModel {
    pub bees: Seq<Seq<(Seq<char>, NbtTree)>>,
    pub flower_pos: Seq<(i32, i32, i32)>,
}

impl View for BeehiveBlockEntityData {
    type V = BeehiveBlockEntityDataModel;

    open spec fn view(&self) -> BeehiveBlockEntityDataModel {
        (BeehiveBlockEntityDataModel {
            bees: compounds_model(self.bees@),
            flower_pos: self.flower_pos@,
        })
    }
}

/// The furnace family's shared shape: burn and cook progress, an item list,
/// and a record of used recipes kept opaque.
#[derive(Debug, PartialEq)]
pub struct BlastFurnanceBlockEntityData {
    pub burn_time: i16,
    pub cook_time: i16,
    pub cook_time_total: i16,
    pub custom_name: Option<String>,
    pub items: Vec<Item>,
    pub lock: Option<String>,
    pub recipes_used: Vec<(String, NbtValue)>,
}

/// The mathematical shape of a `BlastFurnanceBlockEntityData`.
pub struct BlastFurnanceBlockEntityDataModel {
    pub burn_time: i16,
    pub cook_time: i16,
    pub cook_time_total: i16,
    pub custom_name: Option<Seq<char>>,
    pub items: Seq<ItemModel>,
    pub lock: Option<Seq<char>>,
    pub recipes_used: Seq<(Seq<char>, NbtTree)>,
}

impl View for BlastFurnanceBlockEntityData {
    type V = BlastFurnanceBlockEntityDataModel;

    open spec fn view(&self) -> BlastFurnanceBlockEntityDataModel {
        (BlastFurnanceBlockEntityDataModel {
            burn_time: self.burn_time,
            cook_time: self.cook_time,
            cook_time_total: self.cook_time_total,
            custom_name: self.custom_name.deep_view(),
            items: items_model(self.items@),
            lock: self.lock.deep_view(),
            recipes_used: pairs_model(self.recipes_used@),
        })
    }
}

/// A brewing stand: brew progress, its name, its item list, and its lock.
#[derive(Debug, PartialEq)]
pub struct BrewingStandBlockEntityData {
    pub brew_time: i16,
    pub custom_name: Option<String>,
    pub items: Vec<Item>,
    pub lock: Option<String>,
}

/// The mathematical shape of a `BrewingStandBlockEntityData`.
pub struct BrewingStandBlockEntityDataModel {
    pub brew_time: i16,
    pub custom_name: Option<Seq<char>>,
    pub items: Seq<ItemModel>,
    pub lock: Option<Seq<char>>,
}

impl View for BrewingStandBlockEntityData {
    type V = BrewingStandBlockEntityDataModel;

    open spec fn view(&self) -> BrewingStandBlockEntityDataModel {
        (BrewingStandBlockEntityDataModel {
            brew_time: self.brew_time,
            custom_name: self.custom_name.deep_view(),
            items: items_model(self.items@),
            lock: self.lock.deep_view(),
        })
    }
}

/// A campfire: per-slot cooking progress and the items being cooked.
#[derive(Debug, PartialEq)]
pub struct CampFireBlockEntityData {
    pub cooking_times: Vec<i32>,
    pub cooking_total_times: Vec<i32>,
    pub items: Vec<Item>,
}

/// The mathematical shape of a `CampFireBlockEntityData`.
pub struct CampFireBlockEntityDataModel {
    pub cooking_times: Seq<i32>,
    pub cooking_total_times: Seq<i32>,
    pub items: Seq<ItemModel>,
}

impl View for CampFireBlockEntityData {
    type V = CampFireBlockEntityDataModel;

    open spec fn view(&self) -> CampFireBlockEntityDataModel {
        (CampFireBlockEntityDataModel {
            cooking_times: self.cooking_times@,
            cooking_total_times: self.cooking_total_times@,
            items: items_model(self.items@),
        })
    }
}

/// A chiseled bookshelf: its stored books and the last touched slot.
#[derive(Debug, PartialEq)]
pub struct ChiseledBookShelfBlockEntityData {
    pub items: Vec<Item>,
    pub last_interacted_slot: i32,
}

/// The mathematical shape of a `ChiseledBookShelfBlockEntityData`.
pub struct ChiseledBookShelfBlockEntityDataModel {
    pub items: Seq<ItemModel>,
    pub last_interacted_slot: i32,
}

impl View for ChiseledBookShelfBlockEntityData {
    type V = ChiseledBookShelfBlockEntityDataModel;

    open spec fn view(&self) -> ChiseledBookShelfBlockEntityDataModel {
        (ChiseledBookShelfBlockEntityDataModel {
            items: items_model(self.items@),
            last_interacted_slot: self.last_interacted_slot,
        })
    }
}

/// A chest: a lockable item container with loot-table bookkeeping.
#[derive(Debug, PartialEq)]
pub struct ChestBlockEntityData {
    pub custom_name: Option<String>,
    pub items: Vec<Item>,
    pub lock: Option<String>,
    pub loot_table: Option<String>,
    pub loot_table_seed: Option<i64>,
    pub gold: Option<i8>,
}

/// The mathematical shape of a `ChestBlockEntityData`.
pub struct ChestBlockEntityDataModel {
    pub custom_name: Option<Seq<char>>,
    pub items: Seq<ItemModel>,
    pub lock: Option<Seq<char>>,
    pub loot_table: Option<Seq<char>>,
    pub loot_table_seed: Option<i64>,
    pub gold: Option<i8>,
}

impl View for ChestBlockEntityData {
    type V = ChestBlockEntityDataModel;

    open spec fn view(&self) -> ChestBlockEntityDataModel {
        (ChestBlockEntityDataModel {
            custom_name: self.custom_name.deep_view(),
            items: items_model(self.items@),
            lock: self.lock.deep_view(),
            loot_table: self.loot_table.deep_view(),
            loot_table_seed: self.loot_table_seed,
            gold: self.gold,
        })
    }
}

/// A redstone comparator: its latched output strength.
#[derive(Debug, PartialEq)]
pub struct ComparatorBlockEntityData {
    pub output_signal: i32,
}

/// The mathematical shape of a `ComparatorBlockEntityData`.
pub struct ComparatorBlockEntityDataModel {
    pub output_signal: i32,
}

impl View for ComparatorBlockEntityData {
    type V = ComparatorBlockEntityDataModel;

    open spec fn view(&self) -> ComparatorBlockEntityDataModel {
        (ComparatorBlockEntityDataModel { output_signal: self.output_signal })
    }
}

/// A command block: its command text and execution bookkeeping.
#[derive(Debug, PartialEq)]
pub struct CommandBlockEntityData {
    pub auto: i8,
    pub command: String,
    pub condition_met: i8,
    pub custom_name: Option<String>,
    pub last_execution: i64,
    pub last_output: String,
    pub powered: i8,
    pub success_count: i32,
    pub track_output: i8,
    pub update_last_execution: i8,
}

/// The mathematical shape of a `CommandBlockEntityData`.
pub struct CommandBlockEntityDataModel {
    pub auto: i8,
    pub command: Seq<char>,
    pub condition_met: i8,
    pub custom_name: Option<Seq<char>>,
    pub last_execution: i64,
    pub last_output: Seq<char>,
    pub powered: i8,
    pub success_count: i32,
    pub track_output: i8,
    pub update_last_execution: i8,
}

impl View for CommandBlockEntityData {
    type V = CommandBlockEntityDataModel;

    open spec fn view(&self) -> CommandBlockEntityDataModel {
        (CommandBlockEntityDataModel {
            auto: self.auto,
            command: self.command@,
            condition_met: self.condition_met,
            custom_name: self.custom_name.deep_view(),
            last_execution: self.last_execution,
            last_output: self.last_output@,
            powered: self.powered,
            success_count: self.success_count,
            track_output: self.track_output,
            update_last_execution: self.update_last_execution,
        })
    }
}

/// A conduit: the position of its current target.
#[derive(Debug, PartialEq)]
pub struct ConduitBlockEntityData {
    pub target: Vec<i32>,
}

/// The mathematical shape of a `ConduitBlockEntityData`.
pub struct ConduitBlockEntityDataModel {
    pub target: Seq<i32>,
}

impl View for ConduitBlockEntityData {
    type V = ConduitBlockEntityDataModel;

    open spec fn view(&self) -> ConduitBlockEntityDataModel {
        (ConduitBlockEntityDataModel { target: self.target@ })
    }
}

/// A dispenser: a lockable item container with loot-table bookkeeping.
#[derive(Debug, PartialEq)]
pub struct DispenserBlockEntityData {
    pub custom_name: Option<String>,
    pub items: Vec<Item>,
    pub lock: Option<String>,
    pub loot_table: Option<String>,
    pub loot_table_seed: Option<i64>,
}

/// The mathematical shape of a `DispenserBlockEntityData`.
pub struct DispenserBlockEntityDataModel {
    pub custom_name: Option<Seq<char>>,
    pub items: Seq<ItemModel>,
    pub lock: Option<Seq<char>>,
    pub loot_table: Option<Seq<char>>,
    pub loot_table_seed: Option<i64>,
}

impl View for DispenserBlockEntityData {
    type V = DispenserBlockEntityDataModel;

    open spec fn view(&self) -> DispenserBlockEntityDataModel {
        (DispenserBlockEntityDataModel {
            custom_name: self.custom_name.deep_view(),
            items: items_model(self.items@),
            lock: self.lock.deep_view(),
            loot_table: self.loot_table.deep_view(),
            loot_table_seed: self.loot_table_seed,
        })
    }
}

/// A dropper: a lockable item container with one extra flag.
#[derive(Debug, PartialEq)]
pub struct DropperBlockEntityData {
    pub custom_name: Option<String>,
    pub items: Vec<Item>,
    pub lock: Option<String>,
    pub loot_table: Option<String>,
    pub loot_table_seed: Option<i64>,
    pub lunar: i8,
}

/// The mathematical shape of a `DropperBlockEntityData`.
pub struct DropperBlockEntityDataModel {
    pub custom_name: Option<Seq<char>>,
    pub items: Seq<ItemModel>,
    pub lock: Option<Seq<char>>,
    pub loot_table: Option<Seq<char>>,
    pub loot_table_seed: Option<i64>,
    pub lunar: i8,
}

impl View for DropperBlockEntityData {
    type V = DropperBlockEntityDataModel;

    open spec fn view(&self) -> DropperBlockEntityDataModel {
        (DropperBlockEntityDataModel {
            custom_name: self.custom_name.deep_view(),
            items: items_model(self.items@),
            lock: self.lock.deep_view(),
            loot_table: self.loot_table.deep_view(),
            loot_table_seed: self.loot_table_seed,
            lunar: self.lunar,
        })
    }
}

/// An end gateway: its age, its teleport mode, and its exit portal target
/// kept opaque.
#[derive(Debug, PartialEq)]
pub struct EndGatewayBlockEntityData {
    pub age: i64,
    pub extract_teleport: i8,
    pub exit_portal: Vec<(String, NbtValue)>,
}

/// The mathematical shape of an `EndGatewayBlockEntityData`.
pub struct EndGatewayBlockEntityDataModel {
    pub age: i64,
    pub extract_teleport: i8,
    pub exit_portal: Seq<(Seq<char>, NbtTree)>,
}

impl View for EndGatewayBlockEntityData {
    type V = EndGatewayBlockEntityDataModel;

    open spec fn view(&self) -> EndGatewayBlockEntityDataModel {
        (EndGatewayBlockEntityDataModel {
            age: self.age,
            extract_teleport: self.extract_teleport,
            exit_portal: pairs_model(self.exit_portal@),
        })
    }
}

/// A furnace: the furnace family's shared shape.
#[derive(Debug, PartialEq)]
pub struct FurnaceBlockEntityData {
    pub burn_time: i16,
    pub cook_time: i16,
    pub cook_time_total: i16,
    pub custom_name: Option<String>,
    pub items: Vec<Item>,
    pub lock: Option<String>,
    pub recipes_used: Vec<(String, NbtValue)>,
}

/// The mathematical shape of a `FurnaceBlockEntityData`.
pub struct FurnaceBlockEntityDataModel {
    pub burn_time: i16,
    pub cook_time: i16,
    pub cook_time_total: i16,
    pub custom_name: Option<Seq<char>>,
    pub items: Seq<ItemModel>,
    pub lock: Option<Seq<char>>,
    pub recipes_used: Seq<(Seq<char>, NbtTree)>,
}

impl View for FurnaceBlockEntityData {
    type V = FurnaceBlockEntityDataModel;

    open spec fn view(&self) -> FurnaceBlockEntityDataModel {
        (FurnaceBlockEntityDataModel {
            burn_time: self.burn_time,
            cook_time: self.cook_time,
            cook_time_total: self.cook_time_total,
            custom_name: self.custom_name.deep_view(),
            items: items_model(self.items@),
            lock: self.lock.deep_view(),
            recipes_used: pairs_model(self.recipes_used@),
        })
    }
}

/// A hopper: a lockable item container with a transfer cooldown.
#[derive(Debug, PartialEq)]
pub struct HopperBlockEntityData {
    pub custom_name: Option<String>,
    pub items: Vec<Item>,
    pub lock: Option<String>,
    pub loot_table: Option<String>,
    pub loot_table_seed: Option<i64>,
    pub transfer_cooldown: i32,
}

/// The mathematical shape of a `HopperBlockEntityData`.
pub struct HopperBlockEntityDataModel {
    pub custom_name: Option<Seq<char>>,
    pub items: Seq<ItemModel>,
    pub lock: Option<Seq<char>>,
    pub loot_table: Option<Seq<char>>,
    pub loot_table_seed: Option<i64>,
    pub transfer_cooldown: i32,
}

impl View for HopperBlockEntityData {
    type V = HopperBlockEntityDataModel;

    open spec fn view(&self) -> HopperBlockEntityDataModel {
        (HopperBlockEntityDataModel {
            custom_name: self.custom_name.deep_view(),
            items: items_model(self.items@),
            lock: self.lock.deep_view(),
            loot_table: self.loot_table.deep_view(),
            loot_table_seed: self.loot_table_seed,
            transfer_cooldown: self.transfer_cooldown,
        })
    }
}

/// A jigsaw block: its generation naming fields.
#[derive(Debug, PartialEq)]
pub struct JigSawBlockEntityData {
    pub final_state: String,
    pub joint: Option<String>,
    pub name: String,
    pub pool: String,
    pub target: String,
}

/// The mathematical shape of a `JigSawBlockEntityData`.
pub struct JigSawBlockEntityDataModel {
    pub final_state: Seq<char>,
    pub joint: Option<Seq<char>>,
    pub name: Seq<char>,
    pub pool: Seq<char>,
    pub target: Seq<char>,
}

impl View for JigSawBlockEntityData {
    type V = JigSawBlockEntityDataModel;

    open spec fn view(&self) -> JigSawBlockEntityDataModel {
        (JigSawBlockEntityDataModel {
            final_state: self.final_state@,
            joint: self.joint.deep_view(),
            name: self.name@,
            pool: self.pool@,
            target: self.target@,
        })
    }
}

/// A jukebox: the record being played, kept opaque, and its timing.
#[derive(Debug, PartialEq)]
pub struct JukeBoxBlockEntityData {
    pub is_playing: i8,
    pub record_item: Vec<(String, NbtValue)>,
    pub record_start_tick: i64,
    pub tick_count: i64,
}

/// The mathematical shape of a `JukeBoxBlockEntityData`.
pub struct JukeBoxBlockEntityDataModel {
    pub is_playing: i8,
    pub record_item: Seq<(Seq<char>, NbtTree)>,
    pub record_start_tick: i64,
    pub tick_count: i64,
}

impl View for JukeBoxBlockEntityData {
    type V = JukeBoxBlockEntityDataModel;

    open spec fn view(&self) -> JukeBoxBlockEntityDataModel {
        (JukeBoxBlockEntityDataModel {
            is_playing: self.is_playing,
            record_item: pairs_model(self.record_item@),
            record_start_tick: self.record_start_tick,
            tick_count: self.tick_count,
        })
    }
}

/// A lectern: the held book, kept opaque, and the open page.
#[derive(Debug, PartialEq)]
pub struct LecternBlockEntityData {
    pub book: Vec<(String, NbtValue)>,
    pub page: i32,
}

/// The mathematical shape of a `LecternBlockEntityData`.
pub struct LecternBlockEntityDataModel {
    pub book: Seq<(Seq<char>, NbtTree)>,
    pub page: i32,
}

impl View for LecternBlockEntityData {
    type V = LecternBlockEntityDataModel;

    open spec fn view(&self) -> LecternBlockEntityDataModel {
        (LecternBlockEntityDataModel { book: pairs_model(self.book@), page: self.page })
    }
}

/// A moving piston: the pushed block state kept opaque, its direction, and
/// its progress as raw float bits.
#[derive(Debug, PartialEq)]
pub struct PistonBlockEntityData {
    pub block_state: Vec<(String, NbtValue)>,
    pub extending: i8,
    pub facing: i32,
    pub progress_bits: u32,
    pub source: i8,
}

/// The mathematical shape of a `PistonBlockEntityData`.
pub struct PistonBlockEntityDataModel {
    pub block_state: Seq<(Seq<char>, NbtTree)>,
    pub extending: i8,
    pub facing: i32,
    pub progress_bits: u32,
    pub source: i8,
}

impl View for PistonBlockEntityData {
    type V = PistonBlockEntityDataModel;

    open spec fn view(&self) -> PistonBlockEntityDataModel {
        (PistonBlockEntityDataModel {
            block_state: pairs_model(self.block_state@),
            extending: self.extending,
            facing: self.facing,
            progress_bits: self.progress_bits,
            source: self.source,
        })
    }
}

/// A shulker box: a lockable item container with loot-table bookkeeping.
#[derive(Debug, PartialEq)]
pub struct ShulkerBoxBlockEntityData {
    pub custom_name: Option<String>,
    pub items: Vec<Item>,
    pub lock: Option<String>,
    pub loot_table: Option<String>,
    pub loot_table_seed: Option<i64>,
}

/// The mathematical shape of a `ShulkerBoxBlockEntityData`.
pub struct ShulkerBoxBlockEntityDataModel {
    pub custom_name: Option<Seq<char>>,
    pub items: Seq<ItemModel>,
    pub lock: Option<Seq<char>>,
    pub loot_table: Option<Seq<char>>,
    pub loot_table_seed: Option<i64>,
}

impl View for ShulkerBoxBlockEntityData {
    type V = ShulkerBoxBlockEntityDataModel;

    open spec fn view(&self) -> ShulkerBoxBlockEntityDataModel {
        (ShulkerBoxBlockEntityDataModel {
            custom_name: self.custom_name.deep_view(),
            items: items_model(self.items@),
            lock: self.lock.deep_view(),
            loot_table: self.loot_table.deep_view(),
            loot_table_seed: self.loot_table_seed,
        })
    }
}

/// A skull: its sound and type options and its owner kept opaque.
#[derive(Debug, PartialEq)]
pub struct SkullBlockEntityData {
    pub note_block_sound: Option<String>,
    pub extra_type: Option<String>,
    pub skull_owner: Vec<(String, NbtValue)>,
}

/// The mathematical shape of a `SkullBlockEntityData`.
pub struct SkullBlockEntityDataModel {
    pub note_block_sound: Option<Seq<char>>,
    pub extra_type: Option<Seq<char>>,
    pub skull_owner: Seq<(Seq<char>, NbtTree)>,
}

impl View for SkullBlockEntityData {
    type V = SkullBlockEntityDataModel;

    open spec fn view(&self) -> SkullBlockEntityDataModel {
        (SkullBlockEntityDataModel {
            note_block_sound: self.note_block_sound.deep_view(),
            extra_type: self.extra_type.deep_view(),
            skull_owner: pairs_model(self.skull_owner@),
        })
    }
}

/// A smoker: the furnace family's shared shape.
#[derive(Debug, PartialEq)]
pub struct SmokerBlockEntityData {
    pub burn_time: i16,
    pub cook_time: i16,
    pub cook_time_total: i16,
    pub custom_name: Option<String>,
    pub items: Vec<Item>,
    pub lock: Option<String>,
    pub recipes_used: Vec<(String, NbtValue)>,
}

/// The mathematical shape of a `SmokerBlockEntityData`.
pub struct SmokerBlockEntityDataModel {
    pub burn_time: i16,
    pub cook_time: i16,
    pub cook_time_total: i16,
    pub custom_name: Option<Seq<char>>,
    pub items: Seq<ItemModel>,
    pub lock: Option<Seq<char>>,
    pub recipes_used: Seq<(Seq<char>, NbtTree)>,
}

impl View for SmokerBlockEntityData {
    type V = SmokerBlockEntityDataModel;

    open spec fn view(&self) -> SmokerBlockEntityDataModel {
        (SmokerBlockEntityDataModel {
            burn_time: self.burn_time,
            cook_time: self.cook_time,
            cook_time_total: self.cook_time_total,
            custom_name: self.custom_name.deep_view(),
            items: items_model(self.items@),
            lock: self.lock.deep_view(),
            recipes_used: pairs_model(self.recipes_used@),
        })
    }
}

/// A soul campfire: the campfire shape.
#[derive(Debug, PartialEq)]
pub struct SoulCampFireBlockEntityData {
    pub cooking_times: Vec<i32>,
    pub cooking_total_times: Vec<i32>,
    pub items: Vec<Item>,
}

/// The mathematical shape of a `SoulCampFireBlockEntityData`.
pub struct SoulCampFireBlockEntityDataModel {
    pub cooking_times: Seq<i32>,
    pub cooking_total_times: Seq<i32>,
    pub items: Seq<ItemModel>,
}

impl View for SoulCampFireBlockEntityData {
    type V = SoulCampFireBlockEntityDataModel;

    open spec fn view(&self) -> SoulCampFireBlockEntityDataModel {
        (SoulCampFireBlockEntityDataModel {
            cooking_times: self.cooking_times@,
            cooking_total_times: self.cooking_total_times@,
            items: items_model(self.items@),
        })
    }
}

/// A trapped chest: the chest shape.
#[derive(Debug, PartialEq)]
pub struct TrappedChestBlockEntityData {
    pub custom_name: Option<String>,
    pub items: Vec<Item>,
    pub lock: Option<String>,
    pub loot_table: Option<String>,
    pub loot_table_seed: Option<i64>,
    pub gold: Option<i8>,
}

/// The mathematical shape of a `TrappedChestBlockEntityData`.
pub struct TrappedChestBlockEntityDataModel {
    pub custom_name: Option<Seq<char>>,
    pub items: Seq<ItemModel>,
    pub lock: Option<Seq<char>>,
    pub loot_table: Option<Seq<char>>,
    pub loot_table_seed: Option<i64>,
    pub gold: Option<i8>,
}

impl View for TrappedChestBlockEntityData {
    type V = TrappedChestBlockEntityDataModel;

    open spec fn view(&self) -> TrappedChestBlockEntityDataModel {
        (TrappedChestBlockEntityDataModel {
            custom_name: self.custom_name.deep_view(),
            items: items_model(self.items@),
            lock: self.lock.deep_view(),
            loot_table: self.loot_table.deep_view(),
            loot_table_seed: self.loot_table_seed,
            gold: self.gold,
        })
    }
}

/// The tagged union of block entity payloads: one variant per known
/// dispatch tag, and `Default` for every unrecognized tag.
#[derive(Debug, PartialEq)]
pub enum BlockEntityData {
    Sign(SignBlockEntityData),
    Banner(BannerBlockEntityData),
    Barrel(BarrelBlockEntityData),
    Beacon(BeaconBlockEntityData),
    Bed(DefaultBlockEntityData),
    Beehive(BeehiveBlockEntityData),
    Bell(DefaultBlockEntityData),
    BlastFurnance(BlastFurnanceBlockEntityData),
    BrewingStand(BrewingStandBlockEntityData),
    CampFire(CampFireBlockEntityData),
    ChiseledBookShelf(ChiseledBookShelfBlockEntityData),
    Chest(ChestBlockEntityData),
    Comparator(ComparatorBlockEntityData),
    CommandBlock(CommandBlockEntityData),
    Conduit(ConduitBlockEntityData),
    DayLightDetector(DefaultBlockEntityData),
    DecoratedPot(DefaultBlockEntityData),
    Dispenser(DispenserBlockEntityData),
    Dropper(DropperBlockEntityData),
    EnchantingTable(DefaultBlockEntityData),
    EnderChest(DefaultBlockEntityData),
    EndGateway(EndGatewayBlockEntityData),
    EndPortal(DefaultBlockEntityData),
    Furnace(FurnaceBlockEntityData),
    Hopper(HopperBlockEntityData),
    JigSaw(JigSawBlockEntityData),
    JukeBox(JukeBoxBlockEntityData),
    Lectern(LecternBlockEntityData),
    MobSpawner(DefaultBlockEntityData),
    Piston(PistonBlockEntityData),
    ShulkerBox(ShulkerBoxBlockEntityData),
    Skull(SkullBlockEntityData),
    Smoker(SmokerBlockEntityData),
    SoulCampFire(SoulCampFireBlockEntityData),
    StructureBlock(Vec<(String, NbtValue)>),
    TrappedChest(TrappedChestBlockEntityData),
    Default(DefaultBlockEntityData),
}

/// The mathematical shape of a `BlockEntityData`.
pub enum BlockEntityDataModel {
    Sign(SignBlockEntityDataModel),
    Banner(BannerBlockEntityDataModel),
    Barrel(BarrelBlockEntityDataModel),
    Beacon(BeaconBlockEntityDataModel),
    Bed(DefaultBlockEntityDataModel),
    Beehive(BeehiveBlockEntityDataModel),
    Bell(DefaultBlockEntityDataModel),
    BlastFurnance(BlastFurnanceBlockEntityDataModel),
    BrewingStand(BrewingStandBlockEntityDataModel),
    CampFire(CampFireBlockEntityDataModel),
    ChiseledBookShelf(ChiseledBookShelfBlockEntityDataModel),
    Chest(ChestBlockEntityDataModel),
    Comparator(ComparatorBlockEntityDataModel),
    CommandBlock(CommandBlockEntityDataModel),
    Conduit(ConduitBlockEntityDataModel),
    DayLightDetector(DefaultBlockEntityDataModel),
    DecoratedPot(DefaultBlockEntityDataModel),
    Dispenser(DispenserBlockEntityDataModel),
    Dropper(DropperBlockEntityDataModel),
    EnchantingTable(DefaultBlockEntityDataModel),
    EnderChest(DefaultBlockEntityDataModel),
    EndGateway(EndGatewayBlockEntityDataModel),
    EndPortal(DefaultBlockEntityDataModel),
    Furnace(FurnaceBlockEntityDataModel),
    Hopper(HopperBlockEntityDataModel),
    JigSaw(JigSawBlockEntityDataModel),
    JukeBox(JukeBoxBlockEntityDataModel),
    Lectern(LecternBlockEntityDataModel),
    MobSpawner(DefaultBlockEntityDataModel),
    Piston(PistonBlockEntityDataModel),
    ShulkerBox(ShulkerBoxBlockEntityDataModel),
    Skull(SkullBlockEntityDataModel),
    Smoker(SmokerBlockEntityDataModel),
    SoulCampFire(SoulCampFireBlockEntityDataModel),
    StructureBlock(Seq<(Seq<char>, NbtTree)>),
    TrappedChest(TrappedChestBlockEntityDataModel),
    Default(DefaultBlockEntityDataModel),
}

impl View for BlockEntityData {
    type V = BlockEntityDataModel;

    open spec fn view(&self) -> BlockEntityDataModel {
        match self {
            BlockEntityData::Sign(d) => BlockEntityDataModel::Sign(d@),
            BlockEntityData::Banner(d) => BlockEntityDataModel::Banner(d@),
            BlockEntityData::Barrel(d) => BlockEntityDataModel::Barrel(d@),
            BlockEntityData::Beacon(d) => BlockEntityDataModel::Beacon(d@),
            BlockEntityData::Bed(d) => BlockEntityDataModel::Bed(d@),
            BlockEntityData::Beehive(d) => BlockEntityDataModel::Beehive(d@),
            BlockEntityData::Bell(d) => BlockEntityDataModel::Bell(d@),
            BlockEntityData::BlastFurnance(d) => BlockEntityDataModel::BlastFurnance(d@),
            BlockEntityData::BrewingStand(d) => BlockEntityDataModel::BrewingStand(d@),
            BlockEntityData::CampFire(d) => BlockEntityDataModel::CampFire(d@),
            BlockEntityData::ChiseledBookShelf(d) => BlockEntityDataModel::ChiseledBookShelf(d@),
            BlockEntityData::Chest(d) => BlockEntityDataModel::Chest(d@),
            BlockEntityData::Comparator(d) => BlockEntityDataModel::Comparator(d@),
            BlockEntityData::CommandBlock(d) => BlockEntityDataModel::CommandBlock(d@),
            BlockEntityData::Conduit(d) => BlockEntityDataModel::Conduit(d@),
            BlockEntityData::DayLightDetector(d) => BlockEntityDataModel::DayLightDetector(d@),
            BlockEntityData::DecoratedPot(d) => BlockEntityDataModel::DecoratedPot(d@),
            BlockEntityData::Dispenser(d) => BlockEntityDataModel::Dispenser(d@),
            BlockEntityData::Dropper(d) => BlockEntityDataModel::Dropper(d@),
            BlockEntityData::EnchantingTable(d) => BlockEntityDataModel::EnchantingTable(d@),
            BlockEntityData::EnderChest(d) => BlockEntityDataModel::EnderChest(d@),
            BlockEntityData::EndGateway(d) => BlockEntityDataModel::EndGateway(d@),
            BlockEntityData::EndPortal(d) => BlockEntityDataModel::EndPortal(d@),
            BlockEntityData::Furnace(d) => BlockEntityDataModel::Furnace(d@),
            BlockEntityData::Hopper(d) => BlockEntityDataModel::Hopper(d@),
            BlockEntityData::JigSaw(d) => BlockEntityDataModel::JigSaw(d@),
            BlockEntityData::JukeBox(d) => BlockEntityDataModel::JukeBox(d@),
            BlockEntityData::Lectern(d) => BlockEntityDataModel::Lectern(d@),
            BlockEntityData::MobSpawner(d) => BlockEntityDataModel::MobSpawner(d@),
            BlockEntityData::Piston(d) => BlockEntityDataModel::Piston(d@),
            BlockEntityData::ShulkerBox(d) => BlockEntityDataModel::ShulkerBox(d@),
            BlockEntityData::Skull(d) => BlockEntityDataModel::Skull(d@),
            BlockEntityData::Smoker(d) => BlockEntityDataModel::Smoker(d@),
            BlockEntityData::SoulCampFire(d) => BlockEntityDataModel::SoulCampFire(d@),
            BlockEntityData::StructureBlock(ps) => BlockEntityDataModel::StructureBlock(
                pairs_model(ps@),
            ),
            BlockEntityData::TrappedChest(d) => BlockEntityDataModel::TrappedChest(d@),
            BlockEntityData::Default(d) => BlockEntityDataModel::Default(d@),
        }
    }
}

} // verus!

//! Decoder for the Sponge schematic format: a gzip-or-raw wrapped,
//! named-binary-tag encoded description of a rectangular voxel region,
//! projected onto a strongly typed in-memory model.

pub mod block_entity;
pub mod block_entity_data;
pub mod decode;
pub mod nbt;

use vstd::prelude::*;

use crate::block_entity_data::{BlockEntityData, BlockEntityDataModel};
use crate::nbt::{pairs_model, NbtTree, NbtValue};

verus! {

broadcast use vstd::std_specs::vec::group_vec_axioms, vstd::seq::group_seq_axioms;

/// The error taxonomy of the decoder.  Every failure of a decode call is
/// one of these; the carried text names the first structural violation.
#[derive(Debug, PartialEq)]
pub enum SchematicError {
    InvalidFormat(String),
    FileNotFound(String),
    ParseError(String),
    UnsupportedVersion(u32),
}

/// The mathematical shape of a `SchematicError`.
pub enum SchematicErrorModel {
    InvalidFormat(Seq<char>),
    FileNotFound(Seq<char>),
    ParseError(Seq<char>),
    UnsupportedVersion(u32),
}

impl View for SchematicError {
    type V = SchematicErrorModel;

    open spec fn view(&self) -> SchematicErrorModel {
        match self {
            SchematicError::InvalidFormat(m) => SchematicErrorModel::InvalidFormat(m@),
            SchematicError::FileNotFound(m) => SchematicErrorModel::FileNotFound(m@),
            SchematicError::ParseError(m) => SchematicErrorModel::ParseError(m@),
            SchematicError::UnsupportedVersion(v) => SchematicErrorModel::UnsupportedVersion(*v),
        }
    }
}

/// One block entity occurrence: the block identifier, its position, and the
/// decoded payload.  The position always holds exactly three components.
#[derive(Debug, PartialEq)]
pub struct BlockEntitySchematic {
    pub data: BlockEntityData,
    pub id: String,
    pub pos: Vec<i32>,
}

/// The mathematical shape of a `BlockEntitySchematic`.
pub struct BlockEntitySchematicModel {
    pub data: BlockEntityDataModel,
    pub id: Seq<char>,
    pub pos: Seq<i32>,
}

impl View for BlockEntitySchematic {
    type V = BlockEntitySchematicModel;

    open spec fn view(&self) -> BlockEntitySchematicModel {
        (BlockEntitySchematicModel { data: self.data@, id: self.id@, pos: self.pos@ })
    }
}

impl BlockEntitySchematic {
    /// The structural invariant of a decoded block entity: the position has
    /// exactly three components.
    pub open spec fn wf(self) -> bool {
        self.pos@.len() == 3
    }
}

/// The block-bearing part of a schematic: the block entity list, the raw
/// voxel index buffer, and the palette kept as an opaque generic mapping.
#[derive(Debug, PartialEq)]
pub struct BlocksWrapper {
    pub block_entities: Vec<BlockEntitySchematic>,
    pub data: Vec<i8>,
    pub palette: Vec<(String, NbtValue)>,
}

/// The mathematical shape of a `BlocksWrapper`.
pub struct BlocksWrapperModel {
    pub block_entities: Seq<BlockEntitySchematicModel>,
    pub data: Seq<i8>,
    pub palette: Seq<(Seq<char>, NbtTree)>,
}

impl View for BlocksWrapper {
    type V = BlocksWrapperModel;

    open spec fn view(&self) -> BlocksWrapperModel {
        (BlocksWrapperModel {
            block_entities: Seq::new(
                self.block_entities@.len(),
                |i: int| self.block_entities@[i]@,
            ),
            data: self.data@,
            palette: pairs_model(self.palette@),
        })
    }
}

/// The decoded region: its extents, its blocks, and its free-form entity
/// list, each entity kept as an opaque generic record.
#[derive(Debug, PartialEq)]
pub struct Schematic {
    pub w: i16,
    pub h: i16,
    pub l: i16,
    pub blocks: BlocksWrapper,
    pub entities: Vec<Vec<(String, NbtValue)>>,
}

/// The mathematical shape of a `Schematic`.
pub struct SchematicModel {
    pub w: i16,
    pub h: i16,
    pub l: i16,
    pub blocks: BlocksWrapperModel,
    pub entities: Seq<Seq<(Seq<char>, NbtTree)>>,
}

impl View for Schematic {
    type V = SchematicModel;

    open spec fn view(&self) -> SchematicModel {
        (SchematicModel {
            w: self.w,
            h: self.h,
            l: self.l,
            blocks: self.blocks@,
            entities: Seq::new(self.entities@.len(), |i: int| pairs_model(self.entities@[i]@)),
        })
    }
}

/// The named root wrapper around a schematic, mirroring the top-level
/// "Schematic" child of the tree's root compound.
#[derive(Debug, PartialEq)]
pub struct SchematicWrapper {
    pub schematic: Schematic,
}

} // verus!

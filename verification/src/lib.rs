//! Scepter: a typed, platform-neutral command model for driving the Eldiron
//! Creator, together with its machine-readable command catalog (the Lorebook)
//! and command plans; plus the integer logic of the SceneVM renderer: the
//! decisions of its native app runner, its scene bookkeeping, the screen-tile
//! binning of 2D triangles, its buffer layouts, its chunk bookkeeping and
//! draw-path decisions, and the UI widgets' undoable state.

pub mod command;
pub mod lorebook;
pub mod text;
pub mod plan;
pub mod runner;
pub mod scene;
pub mod ui;
pub mod tile_bins;
pub mod organic;
pub mod scene_data;
pub mod draw2d;
pub mod chunks;
pub mod draw3d;
pub mod bvh;

pub use command::{
    default_true, ActionRun, ActionRunScript, AttributesGet, AttributesPatch,
    GeometryCreateRoom, GeometryPlaceBuilderAsset, GridPoint, GridRect, RegionCreateSector,
    RegionPaintCells, RegionPaintOutline, RegionPaintRect, RegionPlaceCharacter, RegionPlaceItem,
    RegionRef, RegionRenderPreview, RegionSnapshot, RegionSummary, ScepterCapability,
    ScepterCommand, ScriptGet, ScriptPatch, ScriptTarget, ScriptTargetKind, ScriptValidate,
    TileContactSheet, TileCreateFromRgba, TileGroupCreate, TileGroupMember, TileList,
    TileMetadataPatch, TileSelector, TilesetGridDetect, TilesetImportAnim, TilesetImportBatch,
    TilesetImportMulti, TilesetImportSpec, TilesetImportTile, TilesetInspect,
    TilesetListUnimported, TilesetTileMeta, ToolSelect,
};
pub use lorebook::{built_in_commands, ScepterCommandMeta, ScepterLorebook, ScepterParamMeta};
pub use plan::ScepterPlan;

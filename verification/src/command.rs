use vstd::prelude::*;

verus! {

/// The JSON object map (string keys, JSON values) in which free-form
/// attribute values travel through a command unchanged.
#[verifier::external_type_specification]
#[verifier::external_body]
#[verifier::reject_recursive_types(K)]
#[verifier::reject_recursive_types(V)]
pub struct ExJsonMap<K, V>(serde_json::Map<K, V>);

/// A JSON value, the value type of those attribute maps.
#[verifier::external_type_specification]
#[verifier::external_body]
pub struct ExJsonValue(serde_json::Value);

/// `Clone` of `serde_json::Map<String, Value>` (serde_json's `map.rs`): it clones
/// the inner ordered map, so the copy holds the same entries, in the same
/// order, as the map it was made from; this contract treats the two as equal.
pub assume_specification[ <serde_json::Map<String, serde_json::Value> as Clone>::clone ](
    m: &serde_json::Map<String, serde_json::Value>,
) -> (res: serde_json::Map<String, serde_json::Value>)
    ensures
        res == *m,
;

/// A command capability that an adapter can use for permissions and UI warnings.
#[derive(Debug, Clone, Copy, PartialEq, Eq, Structural)]
pub enum ScepterCapability {
    /// Reads project-level data.
    ProjectRead,
    /// Changes project-level data.
    ProjectWrite,
    /// Reads tiles and tilesets.
    TileRead,
    /// Creates or changes tiles.
    TileWrite,
    /// Reads regions.
    RegionRead,
    /// Changes regions.
    RegionWrite,
    /// Reads attribute tables.
    AttributeRead,
    /// Changes attribute tables.
    AttributeWrite,
    /// Reads Eldrin scripts.
    ScriptRead,
    /// Changes Eldrin scripts.
    ScriptWrite,
    /// Renders previews.
    Preview,
    /// Walks the undo history.
    Undo,
    /// Exports data.
    Export,
}

/// How a caller refers to a region.
#[derive(Debug, Clone, PartialEq, Eq)]
pub enum RegionRef {
    /// By the region's id.
    Id { id: String },
    /// By the region's name.
    Name { name: String },
}

impl RegionRef {
    /// Refers to a region by its name.
    pub fn name(name: &str) -> (r: Self)
        ensures
            r matches RegionRef::Name { name: n } && n@ == name@,
    {
        RegionRef::Name { name: String::from_str(name) }
    }

    /// Refers to a region by its id.
    pub fn id(id: &str) -> (r: Self)
        ensures
            r matches RegionRef::Id { id: i } && i@ == id@,
    {
        RegionRef::Id { id: String::from_str(id) }
    }
}

/// How a caller refers to a tile or asks Creator to resolve one: by id, by
/// alias, or by a semantic query over role, procedural kind, style and tags.
#[derive(Debug, Clone, PartialEq, Eq)]
pub struct TileSelector {
    /// The tile's id.
    pub id: Option<String>,
    /// The tile's alias.
    pub alias: Option<String>,
    /// The Creator role the tile plays.
    pub role: Option<String>,
    /// The tile's procedural kind (floor, wall, door, ...).
    pub kind: Option<String>,
    /// The tile's procedural style (stone, forest, crypt, ...).
    pub style: Option<String>,
    /// Tags the tile carries.
    pub tags: Vec<String>,
}

impl TileSelector {
    /// Selects a tile by its alias; every other field is left unset.
    pub fn alias(alias: &str) -> (t: Self)
        ensures
            t.alias matches Some(a) && a@ == alias@,
            t.id is None,
            t.role is None,
            t.kind is None,
            t.style is None,
            t.tags@.len() == 0,
    {
        TileSelector { alias: Some(String::from_str(alias)), ..TileSelector::default() }
    }

    /// Asks Creator to resolve a tile by procedural style and kind; every other
    /// field is left unset.
    pub fn style_kind(style: &str, kind: &str) -> (t: Self)
        ensures
            t.style matches Some(s) && s@ == style@,
            t.kind matches Some(k) && k@ == kind@,
            t.id is None,
            t.alias is None,
            t.role is None,
            t.tags@.len() == 0,
    {
        TileSelector {
            style: Some(String::from_str(style)),
            kind: Some(String::from_str(kind)),
            ..TileSelector::default()
        }
    }
}

impl Default for TileSelector {
    /// The selector with no field set.
    fn default() -> (t: Self)
        ensures
            t.id is None,
            t.alias is None,
            t.role is None,
            t.kind is None,
            t.style is None,
            t.tags@.len() == 0,
    {
        TileSelector { id: None, alias: None, role: None, kind: None, style: None, tags: Vec::new() }
    }
}

/// A point on a 2D tile/grid plane.
pub type GridPoint = [i32; 2];

/// A 2D tile/grid rectangle: x, y, width, height.
pub type GridRect = [i32; 4];

/// Paints every cell of a rectangle in a 2D region with one tile.
#[derive(Debug, Clone, PartialEq, Eq)]
pub struct RegionPaintRect {
    /// The region to paint in.
    pub region: RegionRef,
    /// The tile to paint with.
    pub tile: TileSelector,
    /// The painted cells: x, y, width, height.
    pub rect: GridRect,
    /// The generated layer that receives the paint, if any.
    pub layer: Option<String>,
    /// Whether Creator selects the painted sectors afterwards.
    pub select: Option<bool>,
    /// Whether existing tile sectors on the target cells are cleared first.
    pub replace_existing: Option<bool>,
}

/// Paints the border cells of a rectangle in a 2D region with one tile.
#[derive(Debug, Clone, PartialEq, Eq)]
pub struct RegionPaintOutline {
    /// The region to paint in.
    pub region: RegionRef,
    /// The tile to paint with.
    pub tile: TileSelector,
    /// The outlined rectangle: x, y, width, height.
    pub rect: GridRect,
    /// The generated layer that receives the paint, if any.
    pub layer: Option<String>,
}

/// Paints a list of cells in a 2D region with one tile.
#[derive(Debug, Clone, PartialEq, Eq)]
pub struct RegionPaintCells {
    /// The region to paint in.
    pub region: RegionRef,
    /// The tile to paint with.
    pub tile: TileSelector,
    /// The painted cells, each as x, y.
    pub cells: Vec<GridPoint>,
    /// The generated layer that receives the paint, if any.
    pub layer: Option<String>,
    /// Whether Creator selects the painted sectors afterwards.
    pub select: Option<bool>,
    /// Whether existing tile sectors on the target cells are cleared first.
    pub replace_existing: Option<bool>,
}

/// Creates a named gameplay sector bounded by a polygon of grid points.
#[derive(Debug, Clone, PartialEq, Eq)]
pub struct RegionCreateSector {
    /// The region that receives the sector.
    pub region: RegionRef,
    /// The sector's name.
    pub name: String,
    /// The sector outline, in order.
    pub polygon: Vec<GridPoint>,
    /// The generated layer that receives the sector, if any.
    pub layer: Option<String>,
}

/// Places an instance of an item template at a grid point.
#[derive(Debug, Clone, PartialEq, Eq)]
pub struct RegionPlaceItem {
    /// The region that receives the item.
    pub region: RegionRef,
    /// The item template to instantiate.
    pub template: String,
    /// Where the item stands.
    pub at: GridPoint,
    /// The instance's own name, if it differs from the template's.
    pub name: Option<String>,
    /// The generated layer that receives the item, if any.
    pub layer: Option<String>,
}

/// Places an instance of a character template at a grid point.
#[derive(Debug, Clone, PartialEq, Eq)]
pub struct RegionPlaceCharacter {
    /// The region that receives the character.
    pub region: RegionRef,
    /// The character template to instantiate.
    pub template: String,
    /// Where the character stands.
    pub at: GridPoint,
    /// The instance's own name, if it differs from the template's.
    pub name: Option<String>,
    /// The generated layer that receives the character, if any.
    pub layer: Option<String>,
}

/// Renders a preview image of a region, or of part of it.
#[derive(Debug, Clone, PartialEq, Eq)]
pub struct RegionRenderPreview {
    /// The region to render.
    pub region: RegionRef,
    /// The part to render (x, y, width, height); the whole region when absent.
    pub bounds: Option<GridRect>,
    /// The integer zoom of the preview, if given.
    pub zoom: Option<u32>,
}

/// Reads a normalized 2D authoring snapshot of a region.
#[derive(Debug, Clone, PartialEq, Eq)]
pub struct RegionSnapshot {
    /// The region to read; Creator's current region when absent.
    pub region: Option<RegionRef>,
    /// Whether the answer includes the project's tile lookup table.
    pub include_tiles: bool,
}

/// Reads a compact summary of a region's 2D map.
#[derive(Debug, Clone, PartialEq, Eq)]
pub struct RegionSummary {
    /// The region to summarize; Creator's current region when absent.
    pub region: Option<RegionRef>,
    /// Whether the summary includes a coarse ASCII overview; requests that
    /// omit it take [`default_true`].
    pub include_ascii: bool,
}

/// The value a region summary request takes for `include_ascii` when it is omitted.
pub fn default_true() -> (b: bool)
    ensures
        b,
{
    true
}

/// Lists tiles, optionally narrowed by role, kind and style.
#[derive(Debug, Clone, PartialEq, Eq)]
pub struct TileList {
    /// Only tiles with this role, if given.
    pub role: Option<String>,
    /// Only tiles of this procedural kind, if given.
    pub kind: Option<String>,
    /// Only tiles of this procedural style, if given.
    pub style: Option<String>,
}

/// Renders a contact sheet of tiles for visual selection.
#[derive(Debug, Clone, PartialEq, Eq)]
pub struct TileContactSheet {
    /// The tiles on the sheet, in order.
    pub tiles: Vec<TileSelector>,
    /// The number of columns, if given.
    pub columns: Option<u32>,
}

/// Creates a tile from RGBA8 pixels and optional metadata.
#[derive(Debug, Clone, PartialEq, Eq)]
pub struct TileCreateFromRgba {
    /// The new tile's name.
    pub name: String,
    /// Pixel width.
    pub width: u32,
    /// Pixel height.
    pub height: u32,
    /// Base64-encoded RGBA8 pixel data. A later adapter can also accept binary frames.
    pub rgba_base64: String,
    /// The tile's alias, if any.
    pub alias: Option<String>,
    /// The tile's Creator role, if any.
    pub role: Option<String>,
    /// The tile's procedural kind, if any.
    pub procedural_kind: Option<String>,
    /// The tile's procedural style, if any.
    pub procedural_style: Option<String>,
    /// Whether the tile blocks 2D movement.
    pub blocking: bool,
}

/// Updates the metadata of an existing tile; absent fields stay as they are.
#[derive(Debug, Clone, PartialEq, Eq)]
pub struct TileMetadataPatch {
    /// The tile to update.
    pub tile: TileSelector,
    /// A replacement alias.
    pub alias: Option<String>,
    /// A replacement Creator role.
    pub role: Option<String>,
    /// A replacement procedural kind.
    pub procedural_kind: Option<String>,
    /// A replacement procedural style.
    pub procedural_style: Option<String>,
    /// A replacement procedural weight.
    pub procedural_weight: Option<u32>,
    /// A replacement 2D collision flag.
    pub blocking: Option<bool>,
}

/// One tile of a tile group, at its cell inside the group.
#[derive(Debug, Clone, PartialEq, Eq)]
pub struct TileGroupMember {
    /// The member tile.
    pub tile: TileSelector,
    /// Its cell within the group.
    pub at: GridPoint,
}

/// Creates a multi-tile group from existing tiles.
#[derive(Debug, Clone, PartialEq, Eq)]
pub struct TileGroupCreate {
    /// The group's name.
    pub name: String,
    /// The group's width and height in cells.
    pub size: GridPoint,
    /// The tiles of the group.
    pub members: Vec<TileGroupMember>,
    /// Searchable tags of the group.
    pub tags: Vec<String>,
}

/// Inspects a tileset image, its grid and its imported coverage.
#[derive(Debug, Clone, PartialEq, Eq)]
pub struct TilesetInspect {
    /// The tileset (id, file name or display name), if given.
    pub tileset: Option<String>,
}

/// Detects or suggests the cell grid of a tileset.
#[derive(Debug, Clone, PartialEq, Eq)]
pub struct TilesetGridDetect {
    /// The tileset (id, file name or display name).
    pub tileset: String,
}

/// Lists tileset cells that were not imported as tiles yet.
#[derive(Debug, Clone, PartialEq, Eq)]
pub struct TilesetListUnimported {
    /// The tileset (id, file name or display name).
    pub tileset: String,
}

/// Metadata given to a tile imported from a tileset.
#[derive(Debug, Clone, PartialEq, Eq)]
pub struct TilesetTileMeta {
    /// The tile's alias, if any.
    pub alias: Option<String>,
    /// The tile's Creator role, if any.
    pub role: Option<String>,
    /// The tile's procedural kind, if any.
    pub procedural_kind: Option<String>,
    /// The tile's procedural style, if any.
    pub procedural_style: Option<String>,
    /// The tile's procedural weight, if any.
    pub procedural_weight: Option<u32>,
    /// Whether the tile blocks 2D movement.
    pub blocking: bool,
    /// Searchable tags of the tile.
    pub tags: Vec<String>,
}

/// Imports one tileset cell as a tile.
#[derive(Debug, Clone, PartialEq, Eq)]
pub struct TilesetImportTile {
    /// The tileset (id, file name or display name).
    pub tileset: String,
    /// The cell, as x, y in the tileset grid.
    pub cell: GridPoint,
    /// Metadata for the new tile, if any.
    pub meta: Option<TilesetTileMeta>,
}

/// Imports several tileset cells as one animated tile.
#[derive(Debug, Clone, PartialEq, Eq)]
pub struct TilesetImportAnim {
    /// The tileset (id, file name or display name).
    pub tileset: String,
    /// The animation frames' cells, in order.
    pub cells: Vec<GridPoint>,
    /// Metadata for the new tile, if any.
    pub meta: Option<TilesetTileMeta>,
}

/// Imports a rectangle of tileset cells as a multi-tile group.
#[derive(Debug, Clone, PartialEq, Eq)]
pub struct TilesetImportMulti {
    /// The tileset (id, file name or display name).
    pub tileset: String,
    /// The cells: x, y, width, height in tileset cells.
    pub rect: GridRect,
    /// The created group's name.
    pub name: String,
    /// Searchable tags of the group.
    pub tags: Vec<String>,
}

/// One import of a tileset import batch.
#[derive(Debug, Clone, PartialEq, Eq)]
pub enum TilesetImportSpec {
    /// One cell as a tile.
    Tile { cell: GridPoint, meta: Option<TilesetTileMeta> },
    /// Several cells as one animated tile.
    Anim { cells: Vec<GridPoint>, meta: Option<TilesetTileMeta> },
    /// A rectangle of cells as a multi-tile group.
    Multi { rect: GridRect, name: String, tags: Vec<String> },
}

/// Imports a planned batch of tiles, animations and groups from one tileset.
#[derive(Debug, Clone, PartialEq, Eq)]
pub struct TilesetImportBatch {
    /// The tileset (id, file name or display name).
    pub tileset: String,
    /// A cell width and height that overrides the tileset's grid, if given.
    pub grid_size: Option<GridPoint>,
    /// The imports, in order.
    pub imports: Vec<TilesetImportSpec>,
}

/// What kind of object a script target names.
#[derive(Debug, Clone, Copy, PartialEq, Eq, Structural)]
pub enum ScriptTargetKind {
    World,
    Region,
    Character,
    Item,
}

/// The owner of an Eldrin script or of an attribute table. Character and item
/// targets name project templates unless a region selects a placed instance.
#[derive(Debug, Clone, PartialEq, Eq)]
pub struct ScriptTarget {
    /// The kind of target.
    pub kind: ScriptTargetKind,
    /// The region of a placed instance, if any.
    pub region: Option<RegionRef>,
    /// The target's name, if given.
    pub name: Option<String>,
    /// The target's id, if given.
    pub id: Option<String>,
}

/// Reads the Eldrin script of a target.
#[derive(Debug, Clone, PartialEq, Eq)]
pub struct ScriptGet {
    /// Whose script to read.
    pub target: ScriptTarget,
}

/// Replaces the Eldrin script of a target.
#[derive(Debug, Clone, PartialEq, Eq)]
pub struct ScriptPatch {
    /// Whose script to change.
    pub target: ScriptTarget,
    /// The replacement source.
    pub patch: String,
    /// Whether the source is validated before it is applied.
    pub validate: bool,
}

/// Validates Eldrin source for a target without applying it.
#[derive(Debug, Clone, PartialEq, Eq)]
pub struct ScriptValidate {
    /// The target the source is meant for.
    pub target: ScriptTarget,
    /// The source to validate.
    pub source: String,
}

/// Reads the TOML attribute table of a character or item.
#[derive(Debug, Clone, PartialEq, Eq)]
pub struct AttributesGet {
    /// Whose attributes to read.
    pub target: ScriptTarget,
}

/// Changes the attribute table of a character or item.
#[derive(Debug, Clone, PartialEq)]
pub struct AttributesPatch {
    /// Whose attributes to change.
    pub target: ScriptTarget,
    /// Attribute key/value pairs to set; carried through unchanged.
    pub values: serde_json::Map<String, serde_json::Value>,
    /// Attribute keys to remove.
    pub remove: Vec<String>,
    /// Whether the resulting table is validated before it is applied.
    pub validate: bool,
}

/// Runs one editor action by its id, with its parameters written as TOML.
#[derive(Debug, Clone, PartialEq, Eq)]
pub struct ActionRun {
    pub id: String,
    pub parameters_toml: String,
}

/// Runs an Eldrin script of editor actions.
#[derive(Debug, Clone, PartialEq, Eq)]
pub struct ActionRunScript {
    pub source: String,
}

/// Selects an editor tool by its id.
#[derive(Debug, Clone, PartialEq, Eq)]
pub struct ToolSelect {
    pub id: String,
}

/// A room primitive. Its height, a 32-bit float in region units, is held as
/// the float's IEEE-754 bit pattern.
#[derive(Debug, Clone, PartialEq, Eq)]
pub struct GeometryCreateRoom {
    pub region: RegionRef,
    pub name: String,
    pub rect: GridRect,
    pub height_bits: u32,
    pub wall_tile: Option<TileSelector>,
    pub floor_tile: Option<TileSelector>,
}

/// A builder asset placement. Its 3D position, three 32-bit floats in
/// region/world units, is held as the floats' IEEE-754 bit patterns.
#[derive(Debug, Clone, PartialEq, Eq)]
pub struct GeometryPlaceBuilderAsset {
    pub region: RegionRef,
    pub asset: String,
    pub at_bits: [u32; 3],
    pub on: Option<String>,
}


/// Typed Scepter commands. Each command's protocol name is its stable wire name.
#[derive(Debug, Clone, PartialEq)]
pub enum ScepterCommand {
    /// `scepter.help`
    ScepterHelp,
    /// `scepter.list_commands`
    ScepterListCommands,
    /// `scepter.describe_command`
    ScepterDescribeCommand { name: String },
    /// `project.describe`
    ProjectDescribe,
    /// `project.undo`
    ProjectUndo,
    /// `project.redo`
    ProjectRedo,
    /// `region.list`
    RegionList,
    /// `region.snapshot`
    RegionSnapshot(RegionSnapshot),
    /// `region.summary`
    RegionSummary(RegionSummary),
    /// `region.render_preview`
    RegionRenderPreview(RegionRenderPreview),
    /// `region.paint_rect`
    RegionPaintRect(RegionPaintRect),
    /// `region.paint_outline`
    RegionPaintOutline(RegionPaintOutline),
    /// `region.paint_cells`
    RegionPaintCells(RegionPaintCells),
    /// `region.create_sector`
    RegionCreateSector(RegionCreateSector),
    /// `region.place_item`
    RegionPlaceItem(RegionPlaceItem),
    /// `region.place_character`
    RegionPlaceCharacter(RegionPlaceCharacter),
    /// `tile.list`
    TileList(TileList),
    /// `tile.contact_sheet`
    TileContactSheet(TileContactSheet),
    /// `tile.create_from_rgba`
    TileCreateFromRgba(TileCreateFromRgba),
    /// `tile.set_meta`
    TileSetMeta(TileMetadataPatch),
    /// `tile_group.create`
    TileGroupCreate(TileGroupCreate),
    /// `tileset.list`
    TilesetList,
    /// `tileset.inspect`
    TilesetInspect(TilesetInspect),
    /// `tileset.grid_detect`
    TilesetGridDetect(TilesetGridDetect),
    /// `tileset.list_unimported`
    TilesetListUnimported(TilesetListUnimported),
    /// `tileset.import_tile`
    TilesetImportTile(TilesetImportTile),
    /// `tileset.import_anim`
    TilesetImportAnim(TilesetImportAnim),
    /// `tileset.import_multi`
    TilesetImportMulti(TilesetImportMulti),
    /// `tileset.import_batch`
    TilesetImportBatch(TilesetImportBatch),
    /// `script.get`
    ScriptGet(ScriptGet),
    /// `script.patch`
    ScriptPatch(ScriptPatch),
    /// `script.validate`
    ScriptValidate(ScriptValidate),
    /// `attributes.get`
    AttributesGet(AttributesGet),
    /// `attributes.patch`
    AttributesPatch(AttributesPatch),
    /// `action.list`
    ActionList,
    /// `action.run`
    ActionRun(ActionRun),
    /// `action.run_script`
    ActionRunScript(ActionRunScript),
    /// `tool.list`
    ToolList,
    /// `tool.select`
    ToolSelect(ToolSelect),
    /// `geometry.create_room`
    GeometryCreateRoom(GeometryCreateRoom),
    /// `geometry.place_builder_asset`
    GeometryPlaceBuilderAsset(GeometryPlaceBuilderAsset),
}

/// The stable protocol name of a command.
pub open spec fn protocol_name(c: ScepterCommand) -> Seq<char> {
    match c {
        ScepterCommand::ScepterHelp => "scepter.help"@,
        ScepterCommand::ScepterListCommands => "scepter.list_commands"@,
        ScepterCommand::ScepterDescribeCommand { .. } => "scepter.describe_command"@,
        ScepterCommand::ProjectDescribe => "project.describe"@,
        ScepterCommand::ProjectUndo => "project.undo"@,
        ScepterCommand::ProjectRedo => "project.redo"@,
        ScepterCommand::RegionList => "region.list"@,
        ScepterCommand::RegionSnapshot(..) => "region.snapshot"@,
        ScepterCommand::RegionSummary(..) => "region.summary"@,
        ScepterCommand::RegionRenderPreview(..) => "region.render_preview"@,
        ScepterCommand::RegionPaintRect(..) => "region.paint_rect"@,
        ScepterCommand::RegionPaintOutline(..) => "region.paint_outline"@,
        ScepterCommand::RegionPaintCells(..) => "region.paint_cells"@,
        ScepterCommand::RegionCreateSector(..) => "region.create_sector"@,
        ScepterCommand::RegionPlaceItem(..) => "region.place_item"@,
        ScepterCommand::RegionPlaceCharacter(..) => "region.place_character"@,
        ScepterCommand::TileList(..) => "tile.list"@,
        ScepterCommand::TileContactSheet(..) => "tile.contact_sheet"@,
        ScepterCommand::TileCreateFromRgba(..) => "tile.create_from_rgba"@,
        ScepterCommand::TileSetMeta(..) => "tile.set_meta"@,
        ScepterCommand::TileGroupCreate(..) => "tile_group.create"@,
        ScepterCommand::TilesetList => "tileset.list"@,
        ScepterCommand::TilesetInspect(..) => "tileset.inspect"@,
        ScepterCommand::TilesetGridDetect(..) => "tileset.grid_detect"@,
        ScepterCommand::TilesetListUnimported(..) => "tileset.list_unimported"@,
        ScepterCommand::TilesetImportTile(..) => "tileset.import_tile"@,
        ScepterCommand::TilesetImportAnim(..) => "tileset.import_anim"@,
        ScepterCommand::TilesetImportMulti(..) => "tileset.import_multi"@,
        ScepterCommand::TilesetImportBatch(..) => "tileset.import_batch"@,
        ScepterCommand::ScriptGet(..) => "script.get"@,
        ScepterCommand::ScriptPatch(..) => "script.patch"@,
        ScepterCommand::ScriptValidate(..) => "script.validate"@,
        ScepterCommand::AttributesGet(..) => "attributes.get"@,
        ScepterCommand::AttributesPatch(..) => "attributes.patch"@,
        ScepterCommand::ActionList => "action.list"@,
        ScepterCommand::ActionRun(..) => "action.run"@,
        ScepterCommand::ActionRunScript(..) => "action.run_script"@,
        ScepterCommand::ToolList => "tool.list"@,
        ScepterCommand::ToolSelect(..) => "tool.select"@,
        ScepterCommand::GeometryCreateRoom(..) => "geometry.create_room"@,
        ScepterCommand::GeometryPlaceBuilderAsset(..) => "geometry.place_builder_asset"@,
    }
}

/// The position of a command's variant in the list of command kinds.
pub open spec fn command_kind(c: ScepterCommand) -> int {
    match c {
        ScepterCommand::ScepterHelp => 0,
        ScepterCommand::ScepterListCommands => 1,
        ScepterCommand::ScepterDescribeCommand { .. } => 2,
        ScepterCommand::ProjectDescribe => 3,
        ScepterCommand::ProjectUndo => 4,
        ScepterCommand::ProjectRedo => 5,
        ScepterCommand::RegionList => 6,
        ScepterCommand::RegionSnapshot(..) => 7,
        ScepterCommand::RegionSummary(..) => 8,
        ScepterCommand::RegionRenderPreview(..) => 9,
        ScepterCommand::RegionPaintRect(..) => 10,
        ScepterCommand::RegionPaintOutline(..) => 11,
        ScepterCommand::RegionPaintCells(..) => 12,
        ScepterCommand::RegionCreateSector(..) => 13,
        ScepterCommand::RegionPlaceItem(..) => 14,
        ScepterCommand::RegionPlaceCharacter(..) => 15,
        ScepterCommand::TileList(..) => 16,
        ScepterCommand::TileContactSheet(..) => 17,
        ScepterCommand::TileCreateFromRgba(..) => 18,
        ScepterCommand::TileSetMeta(..) => 19,
        ScepterCommand::TileGroupCreate(..) => 20,
        ScepterCommand::TilesetList => 21,
        ScepterCommand::TilesetInspect(..) => 22,
        ScepterCommand::TilesetGridDetect(..) => 23,
        ScepterCommand::TilesetListUnimported(..) => 24,
        ScepterCommand::TilesetImportTile(..) => 25,
        ScepterCommand::TilesetImportAnim(..) => 26,
        ScepterCommand::TilesetImportMulti(..) => 27,
        ScepterCommand::TilesetImportBatch(..) => 28,
        ScepterCommand::ScriptGet(..) => 29,
        ScepterCommand::ScriptPatch(..) => 30,
        ScepterCommand::ScriptValidate(..) => 31,
        ScepterCommand::AttributesGet(..) => 32,
        ScepterCommand::AttributesPatch(..) => 33,
        ScepterCommand::ActionList => 34,
        ScepterCommand::ActionRun(..) => 35,
        ScepterCommand::ActionRunScript(..) => 36,
        ScepterCommand::ToolList => 37,
        ScepterCommand::ToolSelect(..) => 38,
        ScepterCommand::GeometryCreateRoom(..) => 39,
        ScepterCommand::GeometryPlaceBuilderAsset(..) => 40,
    }
}

/// The protocol name of the `k`-th command kind.
fn kind_name(k: usize) -> (n: &'static str)
    requires
        k < 41,
    ensures
        forall|c: ScepterCommand| command_kind(c) == k ==> n@ == protocol_name(c),
{
    if k == 0 {
        "scepter.help"
    } else if k == 1 {
        "scepter.list_commands"
    } else if k == 2 {
        "scepter.describe_command"
    } else if k == 3 {
        "project.describe"
    } else if k == 4 {
        "project.undo"
    } else if k == 5 {
        "project.redo"
    } else if k == 6 {
        "region.list"
    } else if k == 7 {
        "region.snapshot"
    } else if k == 8 {
        "region.summary"
    } else if k == 9 {
        "region.render_preview"
    } else if k == 10 {
        "region.paint_rect"
    } else if k == 11 {
        "region.paint_outline"
    } else if k == 12 {
        "region.paint_cells"
    } else if k == 13 {
        "region.create_sector"
    } else if k == 14 {
        "region.place_item"
    } else if k == 15 {
        "region.place_character"
    } else if k == 16 {
        "tile.list"
    } else if k == 17 {
        "tile.contact_sheet"
    } else if k == 18 {
        "tile.create_from_rgba"
    } else if k == 19 {
        "tile.set_meta"
    } else if k == 20 {
        "tile_group.create"
    } else if k == 21 {
        "tileset.list"
    } else if k == 22 {
        "tileset.inspect"
    } else if k == 23 {
        "tileset.grid_detect"
    } else if k == 24 {
        "tileset.list_unimported"
    } else if k == 25 {
        "tileset.import_tile"
    } else if k == 26 {
        "tileset.import_anim"
    } else if k == 27 {
        "tileset.import_multi"
    } else if k == 28 {
        "tileset.import_batch"
    } else if k == 29 {
        "script.get"
    } else if k == 30 {
        "script.patch"
    } else if k == 31 {
        "script.validate"
    } else if k == 32 {
        "attributes.get"
    } else if k == 33 {
        "attributes.patch"
    } else if k == 34 {
        "action.list"
    } else if k == 35 {
        "action.run"
    } else if k == 36 {
        "action.run_script"
    } else if k == 37 {
        "tool.list"
    } else if k == 38 {
        "tool.select"
    } else if k == 39 {
        "geometry.create_room"
    } else {
        "geometry.place_builder_asset"
    }
}

impl ScepterCommand {
    /// The position of this command's variant in the list of command kinds.
    fn kind_index(&self) -> (k: usize)
        ensures
            k == command_kind(*self),
    {
        match self {
            ScepterCommand::ScepterHelp => 0,
            ScepterCommand::ScepterListCommands => 1,
            ScepterCommand::ScepterDescribeCommand { .. } => 2,
            ScepterCommand::ProjectDescribe => 3,
            ScepterCommand::ProjectUndo => 4,
            ScepterCommand::ProjectRedo => 5,
            ScepterCommand::RegionList => 6,
            ScepterCommand::RegionSnapshot(..) => 7,
            ScepterCommand::RegionSummary(..) => 8,
            ScepterCommand::RegionRenderPreview(..) => 9,
            ScepterCommand::RegionPaintRect(..) => 10,
            ScepterCommand::RegionPaintOutline(..) => 11,
            ScepterCommand::RegionPaintCells(..) => 12,
            ScepterCommand::RegionCreateSector(..) => 13,
            ScepterCommand::RegionPlaceItem(..) => 14,
            ScepterCommand::RegionPlaceCharacter(..) => 15,
            ScepterCommand::TileList(..) => 16,
            ScepterCommand::TileContactSheet(..) => 17,
            ScepterCommand::TileCreateFromRgba(..) => 18,
            ScepterCommand::TileSetMeta(..) => 19,
            ScepterCommand::TileGroupCreate(..) => 20,
            ScepterCommand::TilesetList => 21,
            ScepterCommand::TilesetInspect(..) => 22,
            ScepterCommand::TilesetGridDetect(..) => 23,
            ScepterCommand::TilesetListUnimported(..) => 24,
            ScepterCommand::TilesetImportTile(..) => 25,
            ScepterCommand::TilesetImportAnim(..) => 26,
            ScepterCommand::TilesetImportMulti(..) => 27,
            ScepterCommand::TilesetImportBatch(..) => 28,
            ScepterCommand::ScriptGet(..) => 29,
            ScepterCommand::ScriptPatch(..) => 30,
            ScepterCommand::ScriptValidate(..) => 31,
            ScepterCommand::AttributesGet(..) => 32,
            ScepterCommand::AttributesPatch(..) => 33,
            ScepterCommand::ActionList => 34,
            ScepterCommand::ActionRun(..) => 35,
            ScepterCommand::ActionRunScript(..) => 36,
            ScepterCommand::ToolList => 37,
            ScepterCommand::ToolSelect(..) => 38,
            ScepterCommand::GeometryCreateRoom(..) => 39,
            ScepterCommand::GeometryPlaceBuilderAsset(..) => 40,
        }
    }

    /// The command's stable protocol name.
    pub fn name(&self) -> (n: &'static str)
        ensures
            n@ == protocol_name(*self),
    {
        kind_name(self.kind_index())
    }
}

/// The kind of command whose protocol name is `n`, or -1 when no command has that name.
pub open spec fn kind_of_protocol_name(n: Seq<char>) -> int {
    if n == "scepter.help"@ {
        0
    } else if n == "scepter.list_commands"@ {
        1
    } else if n == "scepter.describe_command"@ {
        2
    } else if n == "project.describe"@ {
        3
    } else if n == "project.undo"@ {
        4
    } else if n == "project.redo"@ {
        5
    } else if n == "region.list"@ {
        6
    } else if n == "region.snapshot"@ {
        7
    } else if n == "region.summary"@ {
        8
    } else if n == "region.render_preview"@ {
        9
    } else if n == "region.paint_rect"@ {
        10
    } else if n == "region.paint_outline"@ {
        11
    } else if n == "region.paint_cells"@ {
        12
    } else if n == "region.create_sector"@ {
        13
    } else if n == "region.place_item"@ {
        14
    } else if n == "region.place_character"@ {
        15
    } else if n == "tile.list"@ {
        16
    } else if n == "tile.contact_sheet"@ {
        17
    } else if n == "tile.create_from_rgba"@ {
        18
    } else if n == "tile.set_meta"@ {
        19
    } else if n == "tile_group.create"@ {
        20
    } else if n == "tileset.list"@ {
        21
    } else if n == "tileset.inspect"@ {
        22
    } else if n == "tileset.grid_detect"@ {
        23
    } else if n == "tileset.list_unimported"@ {
        24
    } else if n == "tileset.import_tile"@ {
        25
    } else if n == "tileset.import_anim"@ {
        26
    } else if n == "tileset.import_multi"@ {
        27
    } else if n == "tileset.import_batch"@ {
        28
    } else if n == "script.get"@ {
        29
    } else if n == "script.patch"@ {
        30
    } else if n == "script.validate"@ {
        31
    } else if n == "attributes.get"@ {
        32
    } else if n == "attributes.patch"@ {
        33
    } else if n == "action.list"@ {
        34
    } else if n == "action.run"@ {
        35
    } else if n == "action.run_script"@ {
        36
    } else if n == "tool.list"@ {
        37
    } else if n == "tool.select"@ {
        38
    } else if n == "geometry.create_room"@ {
        39
    } else if n == "geometry.place_builder_asset"@ {
        40
    } else {
        -1
    }
}

/// The fields of the request payload of command kind `k` (in the kind order
/// of [`command_kind`]), in declaration order, each with whether a request must
/// carry it: `true` for a field that is neither optional nor defaulted.
pub open spec fn payload_fields(k: int) -> Seq<(Seq<char>, bool)> {
    if k == 0 {
        Seq::empty()
    } else if k == 1 {
        Seq::empty()
    } else if k == 2 {
        seq![("name"@, true)]
    } else if k == 3 {
        Seq::empty()
    } else if k == 4 {
        Seq::empty()
    } else if k == 5 {
        Seq::empty()
    } else if k == 6 {
        Seq::empty()
    } else if k == 7 {
        seq![("region"@, false), ("include_tiles"@, false)]
    } else if k == 8 {
        seq![("region"@, false), ("include_ascii"@, false)]
    } else if k == 9 {
        seq![("region"@, true), ("bounds"@, false), ("zoom"@, false)]
    } else if k == 10 {
        seq![("region"@, true), ("tile"@, true), ("rect"@, true), ("layer"@, false), ("select"@, false), ("replace_existing"@, false)]
    } else if k == 11 {
        seq![("region"@, true), ("tile"@, true), ("rect"@, true), ("layer"@, false)]
    } else if k == 12 {
        seq![("region"@, true), ("tile"@, true), ("cells"@, true), ("layer"@, false), ("select"@, false), ("replace_existing"@, false)]
    } else if k == 13 {
        seq![("region"@, true), ("name"@, true), ("polygon"@, true), ("layer"@, false)]
    } else if k == 14 {
        seq![("region"@, true), ("template"@, true), ("at"@, true), ("name"@, false), ("layer"@, false)]
    } else if k == 15 {
        seq![("region"@, true), ("template"@, true), ("at"@, true), ("name"@, false), ("layer"@, false)]
    } else if k == 16 {
        seq![("role"@, false), ("kind"@, false), ("style"@, false)]
    } else if k == 17 {
        seq![("tiles"@, true), ("columns"@, false)]
    } else if k == 18 {
        seq![("name"@, true), ("width"@, true), ("height"@, true), ("rgba_base64"@, true), ("alias"@, false), ("role"@, false), ("procedural_kind"@, false), ("procedural_style"@, false), ("blocking"@, false)]
    } else if k == 19 {
        seq![("tile"@, true), ("alias"@, false), ("role"@, false), ("procedural_kind"@, false), ("procedural_style"@, false), ("procedural_weight"@, false), ("blocking"@, false)]
    } else if k == 20 {
        seq![("name"@, true), ("size"@, true), ("members"@, false), ("tags"@, false)]
    } else if k == 21 {
        Seq::empty()
    } else if k == 22 {
        seq![("tileset"@, false)]
    } else if k == 23 {
        seq![("tileset"@, true)]
    } else if k == 24 {
        seq![("tileset"@, true)]
    } else if k == 25 {
        seq![("tileset"@, true), ("cell"@, true), ("meta"@, false)]
    } else if k == 26 {
        seq![("tileset"@, true), ("cells"@, true), ("meta"@, false)]
    } else if k == 27 {
        seq![("tileset"@, true), ("rect"@, true), ("name"@, true), ("tags"@, false)]
    } else if k == 28 {
        seq![("tileset"@, true), ("grid_size"@, false), ("imports"@, true)]
    } else if k == 29 {
        seq![("target"@, true)]
    } else if k == 30 {
        seq![("target"@, true), ("patch"@, true), ("validate"@, false)]
    } else if k == 31 {
        seq![("target"@, true), ("source"@, true)]
    } else if k == 32 {
        seq![("target"@, true)]
    } else if k == 33 {
        seq![("target"@, true), ("values"@, false), ("remove"@, false), ("validate"@, false)]
    } else if k == 34 {
        Seq::empty()
    } else if k == 35 {
        seq![("id"@, true), ("parameters_toml"@, false)]
    } else if k == 36 {
        seq![("source"@, true)]
    } else if k == 37 {
        Seq::empty()
    } else if k == 38 {
        seq![("id"@, true)]
    } else if k == 39 {
        seq![("region"@, true), ("name"@, true), ("rect"@, true), ("height"@, true), ("wall_tile"@, false), ("floor_tile"@, false)]
    } else {
        seq![("region"@, true), ("asset"@, true), ("at"@, true), ("on"@, false)]
    }
}

/// Decoding a command's protocol name gives back the command's kind.
pub proof fn lemma_protocol_name_decodes(c: ScepterCommand)
    ensures
        kind_of_protocol_name(protocol_name(c)) == command_kind(c),
{
    broadcast use vstd::string::group_string_axioms;

    reveal_strlit("action.list");
    assert("action.list"@ =~= seq!['a', 'c', 't', 'i', 'o', 'n', '.', 'l', 'i', 's', 't']);
    reveal_strlit("action.run");
    assert("action.run"@ =~= seq!['a', 'c', 't', 'i', 'o', 'n', '.', 'r', 'u', 'n']);
    reveal_strlit("action.run_script");
    assert("action.run_script"@ =~= seq!['a', 'c', 't', 'i', 'o', 'n', '.', 'r', 'u', 'n', '_', 's', 'c', 'r', 'i', 'p', 't']);
    reveal_strlit("attributes.get");
    assert("attributes.get"@ =~= seq!['a', 't', 't', 'r', 'i', 'b', 'u', 't', 'e', 's', '.', 'g', 'e', 't']);
    reveal_strlit("attributes.patch");
    assert("attributes.patch"@ =~= seq!['a', 't', 't', 'r', 'i', 'b', 'u', 't', 'e', 's', '.', 'p', 'a', 't', 'c', 'h']);
    reveal_strlit("geometry.create_room");
    assert("geometry.create_room"@ =~= seq!['g', 'e', 'o', 'm', 'e', 't', 'r', 'y', '.', 'c', 'r', 'e', 'a', 't', 'e', '_', 'r', 'o', 'o', 'm']);
    reveal_strlit("geometry.place_builder_asset");
    assert("geometry.place_builder_asset"@ =~= seq!['g', 'e', 'o', 'm', 'e', 't', 'r', 'y', '.', 'p', 'l', 'a', 'c', 'e', '_', 'b', 'u', 'i', 'l', 'd', 'e', 'r', '_', 'a', 's', 's', 'e', 't']);
    reveal_strlit("project.describe");
    assert("project.describe"@ =~= seq!['p', 'r', 'o', 'j', 'e', 'c', 't', '.', 'd', 'e', 's', 'c', 'r', 'i', 'b', 'e']);
    reveal_strlit("project.redo");
    assert("project.redo"@ =~= seq!['p', 'r', 'o', 'j', 'e', 'c', 't', '.', 'r', 'e', 'd', 'o']);
    reveal_strlit("project.undo");
    assert("project.undo"@ =~= seq!['p', 'r', 'o', 'j', 'e', 'c', 't', '.', 'u', 'n', 'd', 'o']);
    reveal_strlit("region.create_sector");
    assert("region.create_sector"@ =~= seq!['r', 'e', 'g', 'i', 'o', 'n', '.', 'c', 'r', 'e', 'a', 't', 'e', '_', 's', 'e', 'c', 't', 'o', 'r']);
    reveal_strlit("region.list");
    assert("region.list"@ =~= seq!['r', 'e', 'g', 'i', 'o', 'n', '.', 'l', 'i', 's', 't']);
    reveal_strlit("region.paint_cells");
    assert("region.paint_cells"@ =~= seq!['r', 'e', 'g', 'i', 'o', 'n', '.', 'p', 'a', 'i', 'n', 't', '_', 'c', 'e', 'l', 'l', 's']);
    reveal_strlit("region.paint_outline");
    assert("region.paint_outline"@ =~= seq!['r', 'e', 'g', 'i', 'o', 'n', '.', 'p', 'a', 'i', 'n', 't', '_', 'o', 'u', 't', 'l', 'i', 'n', 'e']);
    reveal_strlit("region.paint_rect");
    assert("region.paint_rect"@ =~= seq!['r', 'e', 'g', 'i', 'o', 'n', '.', 'p', 'a', 'i', 'n', 't', '_', 'r', 'e', 'c', 't']);
    reveal_strlit("region.place_character");
    assert("region.place_character"@ =~= seq!['r', 'e', 'g', 'i', 'o', 'n', '.', 'p', 'l', 'a', 'c', 'e', '_', 'c', 'h', 'a', 'r', 'a', 'c', 't', 'e', 'r']);
    reveal_strlit("region.place_item");
    assert("region.place_item"@ =~= seq!['r', 'e', 'g', 'i', 'o', 'n', '.', 'p', 'l', 'a', 'c', 'e', '_', 'i', 't', 'e', 'm']);
    reveal_strlit("region.render_preview");
    assert("region.render_preview"@ =~= seq!['r', 'e', 'g', 'i', 'o', 'n', '.', 'r', 'e', 'n', 'd', 'e', 'r', '_', 'p', 'r', 'e', 'v', 'i', 'e', 'w']);
    reveal_strlit("region.snapshot");
    assert("region.snapshot"@ =~= seq!['r', 'e', 'g', 'i', 'o', 'n', '.', 's', 'n', 'a', 'p', 's', 'h', 'o', 't']);
    reveal_strlit("region.summary");
    assert("region.summary"@ =~= seq!['r', 'e', 'g', 'i', 'o', 'n', '.', 's', 'u', 'm', 'm', 'a', 'r', 'y']);
    reveal_strlit("scepter.describe_command");
    assert("scepter.describe_command"@ =~= seq!['s', 'c', 'e', 'p', 't', 'e', 'r', '.', 'd', 'e', 's', 'c', 'r', 'i', 'b', 'e', '_', 'c', 'o', 'm', 'm', 'a', 'n', 'd']);
    reveal_strlit("scepter.help");
    assert("scepter.help"@ =~= seq!['s', 'c', 'e', 'p', 't', 'e', 'r', '.', 'h', 'e', 'l', 'p']);
    reveal_strlit("scepter.list_commands");
    assert("scepter.list_commands"@ =~= seq!['s', 'c', 'e', 'p', 't', 'e', 'r', '.', 'l', 'i', 's', 't', '_', 'c', 'o', 'm', 'm', 'a', 'n', 'd', 's']);
    reveal_strlit("script.get");
    assert("script.get"@ =~= seq!['s', 'c', 'r', 'i', 'p', 't', '.', 'g', 'e', 't']);
    reveal_strlit("script.patch");
    assert("script.patch"@ =~= seq!['s', 'c', 'r', 'i', 'p', 't', '.', 'p', 'a', 't', 'c', 'h']);
    reveal_strlit("script.validate");
    assert("script.validate"@ =~= seq!['s', 'c', 'r', 'i', 'p', 't', '.', 'v', 'a', 'l', 'i', 'd', 'a', 't', 'e']);
    reveal_strlit("tile.contact_sheet");
    assert("tile.contact_sheet"@ =~= seq!['t', 'i', 'l', 'e', '.', 'c', 'o', 'n', 't', 'a', 'c', 't', '_', 's', 'h', 'e', 'e', 't']);
    reveal_strlit("tile.create_from_rgba");
    assert("tile.create_from_rgba"@ =~= seq!['t', 'i', 'l', 'e', '.', 'c', 'r', 'e', 'a', 't', 'e', '_', 'f', 'r', 'o', 'm', '_', 'r', 'g', 'b', 'a']);
    reveal_strlit("tile.list");
    assert("tile.list"@ =~= seq!['t', 'i', 'l', 'e', '.', 'l', 'i', 's', 't']);
    reveal_strlit("tile.set_meta");
    assert("tile.set_meta"@ =~= seq!['t', 'i', 'l', 'e', '.', 's', 'e', 't', '_', 'm', 'e', 't', 'a']);
    reveal_strlit("tile_group.create");
    assert("tile_group.create"@ =~= seq!['t', 'i', 'l', 'e', '_', 'g', 'r', 'o', 'u', 'p', '.', 'c', 'r', 'e', 'a', 't', 'e']);
    reveal_strlit("tileset.grid_detect");
    assert("tileset.grid_detect"@ =~= seq!['t', 'i', 'l', 'e', 's', 'e', 't', '.', 'g', 'r', 'i', 'd', '_', 'd', 'e', 't', 'e', 'c', 't']);
    reveal_strlit("tileset.import_anim");
    assert("tileset.import_anim"@ =~= seq!['t', 'i', 'l', 'e', 's', 'e', 't', '.', 'i', 'm', 'p', 'o', 'r', 't', '_', 'a', 'n', 'i', 'm']);
    reveal_strlit("tileset.import_batch");
    assert("tileset.import_batch"@ =~= seq!['t', 'i', 'l', 'e', 's', 'e', 't', '.', 'i', 'm', 'p', 'o', 'r', 't', '_', 'b', 'a', 't', 'c', 'h']);
    reveal_strlit("tileset.import_multi");
    assert("tileset.import_multi"@ =~= seq!['t', 'i', 'l', 'e', 's', 'e', 't', '.', 'i', 'm', 'p', 'o', 'r', 't', '_', 'm', 'u', 'l', 't', 'i']);
    reveal_strlit("tileset.import_tile");
    assert("tileset.import_tile"@ =~= seq!['t', 'i', 'l', 'e', 's', 'e', 't', '.', 'i', 'm', 'p', 'o', 'r', 't', '_', 't', 'i', 'l', 'e']);
    reveal_strlit("tileset.inspect");
    assert("tileset.inspect"@ =~= seq!['t', 'i', 'l', 'e', 's', 'e', 't', '.', 'i', 'n', 's', 'p', 'e', 'c', 't']);
    reveal_strlit("tileset.list");
    assert("tileset.list"@ =~= seq!['t', 'i', 'l', 'e', 's', 'e', 't', '.', 'l', 'i', 's', 't']);
    reveal_strlit("tileset.list_unimported");
    assert("tileset.list_unimported"@ =~= seq!['t', 'i', 'l', 'e', 's', 'e', 't', '.', 'l', 'i', 's', 't', '_', 'u', 'n', 'i', 'm', 'p', 'o', 'r', 't', 'e', 'd']);
    reveal_strlit("tool.list");
    assert("tool.list"@ =~= seq!['t', 'o', 'o', 'l', '.', 'l', 'i', 's', 't']);
    reveal_strlit("tool.select");
    assert("tool.select"@ =~= seq!['t', 'o', 'o', 'l', '.', 's', 'e', 'l', 'e', 'c', 't']);
    match c {
        ScepterCommand::ScepterHelp => {},
        ScepterCommand::ScepterListCommands => {},
        ScepterCommand::ScepterDescribeCommand { .. } => {},
        ScepterCommand::ProjectDescribe => {},
        ScepterCommand::ProjectUndo => {},
        ScepterCommand::ProjectRedo => {},
        ScepterCommand::RegionList => {},
        ScepterCommand::RegionSnapshot(..) => {},
        ScepterCommand::RegionSummary(..) => {},
        ScepterCommand::RegionRenderPreview(..) => {},
        ScepterCommand::RegionPaintRect(..) => {},
        ScepterCommand::RegionPaintOutline(..) => {},
        ScepterCommand::RegionPaintCells(..) => {},
        ScepterCommand::RegionCreateSector(..) => {},
        ScepterCommand::RegionPlaceItem(..) => {},
        ScepterCommand::RegionPlaceCharacter(..) => {},
        ScepterCommand::TileList(..) => {},
        ScepterCommand::TileContactSheet(..) => {},
        ScepterCommand::TileCreateFromRgba(..) => {},
        ScepterCommand::TileSetMeta(..) => {},
        ScepterCommand::TileGroupCreate(..) => {},
        ScepterCommand::TilesetList => {},
        ScepterCommand::TilesetInspect(..) => {},
        ScepterCommand::TilesetGridDetect(..) => {},
        ScepterCommand::TilesetListUnimported(..) => {},
        ScepterCommand::TilesetImportTile(..) => {},
        ScepterCommand::TilesetImportAnim(..) => {},
        ScepterCommand::TilesetImportMulti(..) => {},
        ScepterCommand::TilesetImportBatch(..) => {},
        ScepterCommand::ScriptGet(..) => {},
        ScepterCommand::ScriptPatch(..) => {},
        ScepterCommand::ScriptValidate(..) => {},
        ScepterCommand::AttributesGet(..) => {},
        ScepterCommand::AttributesPatch(..) => {},
        ScepterCommand::ActionList => {},
        ScepterCommand::ActionRun(..) => {},
        ScepterCommand::ActionRunScript(..) => {},
        ScepterCommand::ToolList => {},
        ScepterCommand::ToolSelect(..) => {},
        ScepterCommand::GeometryCreateRoom(..) => {},
        ScepterCommand::GeometryPlaceBuilderAsset(..) => {},
    }
}

/// The protocol name identifies the command kind: two commands with the same
/// protocol name are of the same kind.
pub proof fn lemma_protocol_name_identifies_kind(a: ScepterCommand, b: ScepterCommand)
    requires
        protocol_name(a) == protocol_name(b),
    ensures
        command_kind(a) == command_kind(b),
{
    lemma_protocol_name_decodes(a);
    lemma_protocol_name_decodes(b);
}

} // verus!

use scepter::{
    default_true, ActionRun, ActionRunScript, RegionPaintRect, RegionRef, RegionSnapshot,
    ScepterCommand, ScepterLorebook, ScepterPlan, TileSelector, ToolSelect, TilesetImportBatch,
    GeometryCreateRoom,
};

fn paint_rect() -> ScepterCommand {
    ScepterCommand::RegionPaintRect(RegionPaintRect {
        region: RegionRef::name("Harbor"),
        tile: TileSelector::alias("stone_floor_dark"),
        rect: [4, 4, 12, 8],
        layer: Some("ai.generated".to_string()),
        select: None,
        replace_existing: None,
    })
}

#[test]
fn command_name_is_stable_protocol_name() {
    let command = paint_rect();
    assert_eq!(command.name(), "region.paint_rect");
    let copy = command.clone();
    assert_eq!(copy, command);
    assert_eq!(copy.name(), "region.paint_rect");
}

#[test]
fn action_and_tool_commands_have_protocol_names() {
    let direct = ScepterCommand::ActionRun(ActionRun {
        id: "face.extrude".to_string(),
        parameters_toml: "amount = 2".to_string(),
    });
    assert_eq!(direct.name(), "action.run");
    let scripted = ScepterCommand::ActionRunScript(ActionRunScript {
        source: r#"editor_action("camera.isometric", "");"#.to_string(),
    });
    assert_eq!(scripted.name(), "action.run_script");
    let tool = ScepterCommand::ToolSelect(ToolSelect { id: "tool.geometry".to_string() });
    assert_eq!(tool.name(), "tool.select");
    assert_eq!(ScepterCommand::ActionList.name(), "action.list");
    assert_eq!(ScepterCommand::ToolList.name(), "tool.list");
}

#[test]
fn unit_and_named_commands_have_protocol_names() {
    assert_eq!(ScepterCommand::ScepterHelp.name(), "scepter.help");
    assert_eq!(ScepterCommand::ProjectUndo.name(), "project.undo");
    assert_eq!(ScepterCommand::ProjectRedo.name(), "project.redo");
    assert_eq!(ScepterCommand::TilesetList.name(), "tileset.list");
    assert_eq!(
        ScepterCommand::ScepterDescribeCommand { name: "region.list".to_string() }.name(),
        "scepter.describe_command"
    );
    let snap = ScepterCommand::RegionSnapshot(RegionSnapshot { region: None, include_tiles: true });
    assert_eq!(snap.name(), "region.snapshot");
    let batch = ScepterCommand::TilesetImportBatch(TilesetImportBatch {
        tileset: "dungeon_a.png".to_string(),
        grid_size: Some([32, 32]),
        imports: vec![],
    });
    assert_eq!(batch.name(), "tileset.import_batch");
    let room = ScepterCommand::GeometryCreateRoom(GeometryCreateRoom {
        region: RegionRef::id("r1"),
        name: "Small Stone Room".to_string(),
        rect: [0, 0, 8, 6],
        height_bits: 3.0f32.to_bits(),
        wall_tile: None,
        floor_tile: Some(TileSelector::style_kind("stone", "floor")),
    });
    assert_eq!(room.name(), "geometry.create_room");
}

#[test]
fn every_command_is_described_by_the_built_in_lorebook() {
    let lorebook = ScepterLorebook::built_in();
    let commands = vec![
        ScepterCommand::ScepterHelp,
        ScepterCommand::ScepterListCommands,
        ScepterCommand::ProjectDescribe,
        ScepterCommand::RegionList,
        ScepterCommand::TilesetList,
        ScepterCommand::ActionList,
        ScepterCommand::ToolList,
        paint_rect(),
    ];
    for c in commands {
        let meta = lorebook.describe_command(c.name()).expect("described");
        assert_eq!(meta.name, c.name());
    }
}

#[test]
fn region_refs_and_tile_selectors() {
    assert_eq!(RegionRef::name("Harbor"), RegionRef::Name { name: "Harbor".to_string() });
    assert_eq!(RegionRef::id("42"), RegionRef::Id { id: "42".to_string() });
    let t = TileSelector::alias("stone_floor_dark");
    assert_eq!(t.alias.as_deref(), Some("stone_floor_dark"));
    assert!(t.id.is_none() && t.role.is_none() && t.kind.is_none() && t.style.is_none() && t.tags.is_empty());
    let q = TileSelector::style_kind("stone", "floor");
    assert_eq!(q.style.as_deref(), Some("stone"));
    assert_eq!(q.kind.as_deref(), Some("floor"));
    assert!(q.alias.is_none() && q.id.is_none() && q.tags.is_empty());
    assert_eq!(TileSelector::default().alias, None);
    assert!(default_true());
}

#[test]
fn plan_keeps_commands_in_push_order() {
    let mut plan = ScepterPlan::new("Small Stone Room");
    assert_eq!(plan.name.as_deref(), Some("Small Stone Room"));
    assert!(plan.description.is_none());
    assert!(plan.is_empty());
    plan.push(paint_rect());
    plan.push(ScepterCommand::ProjectUndo);
    assert!(!plan.is_empty());
    assert_eq!(plan.commands.len(), 2);
    assert_eq!(plan.commands[0].name(), "region.paint_rect");
    assert_eq!(plan.commands[1].name(), "project.undo");
    assert!(ScepterPlan::default().is_empty());
    assert!(ScepterPlan::default().name.is_none());
}

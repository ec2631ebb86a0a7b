use scepter::{built_in_commands, ScepterCapability, ScepterLorebook, ScepterParamMeta, ScepterCommandMeta};

#[test]
fn lorebook_contains_first_slice_commands() {
    let lorebook = ScepterLorebook::built_in();
    for command in [
        "scepter.describe_command",
        "region.snapshot",
        "region.summary",
        "region.paint_rect",
        "region.create_sector",
        "region.place_item",
        "region.place_character",
        "tile.contact_sheet",
        "tile.set_meta",
        "tile_group.create",
        "tileset.import_batch",
        "script.validate",
        "action.list",
        "action.run",
        "action.run_script",
        "tool.list",
        "tool.select",
        "geometry.create_room",
    ] {
        assert!(
            lorebook.describe_command(command).is_some(),
            "missing {command}"
        );
    }

    let paint = lorebook.describe_command("region.paint_rect").unwrap();
    assert!(paint.previewable);
    assert!(paint.undoable);
    assert!(!paint.examples.is_empty());
}

#[test]
fn list_commands_is_sorted_and_complete() {
    let lorebook = ScepterLorebook::built_in();
    let names = lorebook.list_commands();
    assert_eq!(names.len(), built_in_commands().len());
    assert_eq!(names.len(), 41);
    for pair in names.windows(2) {
        assert!(pair[0] < pair[1], "{} !< {}", pair[0], pair[1]);
    }
    assert_eq!(names[0], "action.list");
    assert_eq!(names[names.len() - 1], "tool.select");
}

#[test]
fn describe_unknown_command_is_none() {
    let lorebook = ScepterLorebook::built_in();
    assert!(lorebook.describe_command("region.paint").is_none());
    assert!(lorebook.describe_command("").is_none());
    assert!(lorebook.describe_command("region.paint_rect ").is_none());
}

#[test]
fn describe_returns_the_named_help() {
    let lorebook = ScepterLorebook::built_in();
    let undo = lorebook.describe_command("project.undo").unwrap();
    assert_eq!(undo.name, "project.undo");
    assert_eq!(undo.capabilities, vec![ScepterCapability::Undo, ScepterCapability::ProjectWrite]);
    assert!(undo.undoable);
    assert!(!undo.previewable);
    assert!(undo.params.is_empty());
    let describe = lorebook.describe_command("scepter.describe_command").unwrap();
    assert_eq!(
        describe.params,
        vec![ScepterParamMeta::new("name", "Stable command name such as region.paint_rect.", true, "string")]
    );
}

#[test]
fn builders_set_their_fields() {
    let meta = ScepterCommandMeta::new("a.b", "desc")
        .params(vec![ScepterParamMeta::new("p", "d", false, "integer")])
        .capabilities(vec![ScepterCapability::Export])
        .previewable()
        .undoable()
        .examples(vec!["{}".to_string()]);
    assert_eq!(meta.name, "a.b");
    assert_eq!(meta.description, "desc");
    assert_eq!(meta.params.len(), 1);
    assert!(!meta.params[0].required);
    assert_eq!(meta.params[0].schema, "integer");
    assert_eq!(meta.capabilities, vec![ScepterCapability::Export]);
    assert!(meta.previewable && meta.undoable);
    assert_eq!(meta.examples, vec!["{}".to_string()]);
    let bare = ScepterCommandMeta::new("x", "y");
    assert!(!bare.previewable && !bare.undoable && bare.params.is_empty() && bare.examples.is_empty());
}

#[test]
fn default_lorebook_is_empty() {
    let lorebook = ScepterLorebook::default();
    assert!(lorebook.list_commands().is_empty());
    assert!(lorebook.describe_command("scepter.help").is_none());
}

#[test]
fn built_in_capabilities_follow_the_catalog_rules() {
    for m in built_in_commands() {
        assert!(!m.capabilities.is_empty(), "{} has no capability", m.name);
        let writes = m
            .capabilities
            .iter()
            .any(|c| matches!(
                c,
                ScepterCapability::ProjectWrite
                    | ScepterCapability::TileWrite
                    | ScepterCapability::RegionWrite
                    | ScepterCapability::AttributeWrite
                    | ScepterCapability::ScriptWrite
            ));
        assert_eq!(m.undoable, writes, "{}", m.name);
        if m.capabilities.contains(&ScepterCapability::Preview) {
            assert!(m.previewable, "{}", m.name);
        }
    }
    let lorebook = ScepterLorebook::built_in();
    let select = lorebook.describe_command("tool.select").unwrap();
    assert_eq!(select.capabilities, vec![ScepterCapability::ProjectRead]);
    assert!(!select.undoable);
}

#[test]
fn built_in_keeps_every_entry() {
    let lorebook = ScepterLorebook::built_in();
    assert_eq!(lorebook.list_commands().len(), built_in_commands().len());
    for m in built_in_commands() {
        assert_eq!(lorebook.describe_command(&m.name), Some(&m));
    }
}

#[test]
fn from_commands_sorts_and_keeps_the_later_duplicate() {
    let a = ScepterCommandMeta::new("b.cmd", "first");
    let b = ScepterCommandMeta::new("a.cmd", "other");
    let c = ScepterCommandMeta::new("b.cmd", "second");
    let lorebook = ScepterLorebook::from_commands(vec![a, b, c]);
    assert_eq!(lorebook.list_commands(), vec!["a.cmd", "b.cmd"]);
    assert_eq!(lorebook.describe_command("b.cmd").unwrap().description, "second");
    let copy = lorebook.clone();
    assert_eq!(copy, lorebook);
}

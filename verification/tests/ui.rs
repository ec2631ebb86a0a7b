use scepter::ui::{
    parse_usize, redo_description, slider_target, undo_description, ButtonGroupChangeCommand,
    ButtonGroupView, SliderTarget,
};

#[test]
fn parse_usize_matches_std() {
    for s in ["0", "7", "+7", "007", "18446744073709551615", "18446744073709551616", "", "+", "-1", "1a", " 1", "12 ", "99999999999999999999999"] {
        assert_eq!(parse_usize(s), s.parse::<usize>().ok(), "{s:?}");
    }
}

#[test]
fn slider_targets() {
    assert_eq!(slider_target("main_slider", 4), SliderTarget::Main);
    assert_eq!(slider_target("param_slider_0", 4), SliderTarget::Param(0));
    assert_eq!(slider_target("param_slider_3", 4), SliderTarget::Param(3));
    assert_eq!(slider_target("param_slider_4", 4), SliderTarget::Unbound);
    assert_eq!(slider_target("param_slider_", 4), SliderTarget::Unbound);
    assert_eq!(slider_target("param_slider_x", 4), SliderTarget::Unbound);
    assert_eq!(slider_target("param_slider_+2", 4), SliderTarget::Param(2));
    assert_eq!(slider_target("main_slider2", 4), SliderTarget::Unbound);
    assert_eq!(slider_target("param", 4), SliderTarget::Unbound);
}

#[test]
fn button_group_undo_and_redo() {
    let mut cmd = ButtonGroupChangeCommand::new("tabs".to_string(), 0, 2);
    let mut group = ButtonGroupView { active: Some(2), dirty: false };
    cmd.execute(&mut group, true);
    assert_eq!(group, ButtonGroupView { active: Some(2), dirty: false });
    cmd.undo(&mut group);
    assert_eq!(group, ButtonGroupView { active: Some(0), dirty: true });
    cmd.execute(&mut group, false);
    assert_eq!(group, ButtonGroupView { active: Some(2), dirty: true });
    let mut missing = ButtonGroupView { active: None, dirty: false };
    cmd.undo(&mut missing);
    assert_eq!(missing, ButtonGroupView { active: None, dirty: true });
    assert_eq!(cmd.description(), "Change Button Group");
    assert_eq!(cmd.group_id, "tabs");
}

#[test]
fn history_labels() {
    assert_eq!(undo_description(Some("Change Slider")).as_deref(), Some("Undo Change Slider"));
    assert_eq!(redo_description(Some("Change Button Group")).as_deref(), Some("Redo Change Button Group"));
    assert_eq!(undo_description(None), None);
    assert_eq!(redo_description(None), None);
}

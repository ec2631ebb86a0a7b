use scepter::runner::{
    export_data_step, export_result_code, import_data_step, load_project_step, load_result_code,
    outcome_code, result_code, save_project_step, save_result_code, unsaved_changes_code,
    frame_step, EntryStep, FfiRenderCtx, FrameStep, PresentStep, RenderError, RenderResult,
};

#[test]
fn present_once_per_frame() {
    let mut ctx = FfiRenderCtx::new((480, 270));
    assert_eq!(ctx.size(), (480, 270));
    assert_eq!(ctx.last_result, RenderResult::InitPending);
    assert_eq!(ctx.ensure_presented(), PresentStep::Present);
    assert_eq!(ctx.present(Ok(RenderResult::Presented)), Ok(RenderResult::Presented));
    assert_eq!(ctx.ensure_presented(), PresentStep::Done(RenderResult::Presented));
    ctx.begin_frame();
    assert_eq!(ctx.ensure_presented(), PresentStep::Present);
    assert_eq!(ctx.present(Err(RenderError::Failed)), Err(RenderError::Failed));
    // a failed presentation keeps the previous result but still counts as presented
    assert_eq!(ctx.ensure_presented(), PresentStep::Done(RenderResult::Presented));
}

#[test]
fn frame_step_reuses_the_last_result() {
    let mut ctx = FfiRenderCtx::new((10, 10));
    assert_eq!(frame_step(None, false), FrameStep::Finish(-1));
    assert_eq!(frame_step(Some(&ctx), false), FrameStep::Render);
    ctx.present(Ok(RenderResult::ReadbackPending));
    assert_eq!(frame_step(Some(&ctx), false), FrameStep::Finish(2));
    assert_eq!(frame_step(Some(&ctx), true), FrameStep::Render);
    ctx.resize((20, 5));
    assert_eq!(ctx.size, (20, 5));
    assert_eq!(frame_step(Some(&ctx), false), FrameStep::Render);
}

#[test]
fn status_codes() {
    assert_eq!(result_code(RenderResult::Presented), 0);
    assert_eq!(result_code(RenderResult::InitPending), 1);
    assert_eq!(result_code(RenderResult::ReadbackPending), 2);
    assert_eq!(outcome_code(Err(RenderError::Failed)), -1);
    assert_eq!(outcome_code(Ok(RenderResult::InitPending)), 1);
    assert_eq!(load_result_code(true), 0);
    assert_eq!(load_result_code(false), -3);
    assert_eq!(export_result_code(false), -3);
    assert_eq!(save_result_code(false), -2);
    assert_eq!(save_result_code(true), 0);
    assert_eq!(unsaved_changes_code(false, None), 0);
    assert_eq!(unsaved_changes_code(true, None), -1);
    assert_eq!(unsaved_changes_code(true, Some(true)), 1);
    assert_eq!(unsaved_changes_code(true, Some(false)), 0);
}

#[test]
fn entry_point_checks() {
    let json = br#"{"slider_value": 50.0}"#;
    assert_eq!(load_project_step(false, true, Some(json)), EntryStep::Finish(-5));
    assert_eq!(load_project_step(true, true, None), EntryStep::Finish(-2));
    assert_eq!(load_project_step(true, true, Some(&[])), EntryStep::Finish(-2));
    assert_eq!(load_project_step(true, false, Some(json)), EntryStep::Finish(-1));
    assert_eq!(load_project_step(true, true, Some(&[0xff, 0xfe])), EntryStep::Finish(-2));
    assert_eq!(load_project_step(true, true, Some(json)), EntryStep::Proceed);
    assert_eq!(import_data_step(false, true, Some(json)), EntryStep::Finish(-4));
    assert_eq!(import_data_step(true, true, Some("ß".as_bytes())), EntryStep::Proceed);
    assert_eq!(export_data_step(true, true, Some(b"json")), EntryStep::Proceed);
    assert_eq!(export_data_step(true, true, Some(&[0xc0, 0x80])), EntryStep::Finish(-2));
    assert_eq!(save_project_step(false, true), EntryStep::Finish(-4));
    assert_eq!(save_project_step(true, false), EntryStep::Finish(-1));
    assert_eq!(save_project_step(true, true), EntryStep::Proceed);
}

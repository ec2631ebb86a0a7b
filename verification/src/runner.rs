//! The decisions of the native app runner: when a frame is rendered or a
//! previous result reused, what a presentation leaves behind, and which status
//! code each runner entry point reports. The runner itself performs the window
//! and app work these functions ask for.

use vstd::prelude::*;

verus! {

/// What presenting a frame to the window produced.
#[derive(Debug, Clone, Copy, PartialEq, Eq, Structural)]
pub enum RenderResult {
    Presented,
    InitPending,
    ReadbackPending,
}

/// A presentation that failed.
#[derive(Debug, Clone, Copy, PartialEq, Eq, Structural)]
pub enum RenderError {
    Failed,
}

/// The runner's render context: the logical surface size, the last
/// presentation result, and whether the current frame was already presented.
#[derive(Debug, Clone, Copy, PartialEq, Eq)]
pub struct FfiRenderCtx {
    pub size: (u32, u32),
    pub last_result: RenderResult,
    pub presented: bool,
}

/// What [`FfiRenderCtx::ensure_presented`] asks of the runner.
#[derive(Debug, Clone, Copy, PartialEq, Eq, Structural)]
pub enum PresentStep {
    /// Present the frame to the window, then report the outcome to [`FfiRenderCtx::present`].
    Present,
    /// The frame was already presented; this is its result.
    Done(RenderResult),
}

/// The step [`FfiRenderCtx::ensure_presented`] takes in a given state.
pub open spec fn ensure_step(ctx: FfiRenderCtx) -> PresentStep {
    if ctx.presented {
        PresentStep::Done(ctx.last_result)
    } else {
        PresentStep::Present
    }
}

/// The state after a presentation with the given outcome.
pub open spec fn after_present(ctx: FfiRenderCtx, outcome: Result<RenderResult, RenderError>) -> FfiRenderCtx {
    FfiRenderCtx {
        size: ctx.size,
        last_result: match outcome {
            Ok(r) => r,
            Err(_) => ctx.last_result,
        },
        presented: true,
    }
}

impl FfiRenderCtx {
    /// A context for a surface of the given logical size; nothing presented yet.
    pub fn new(size: (u32, u32)) -> (c: Self)
        ensures
            c.size == size,
            c.last_result == RenderResult::InitPending,
            !c.presented,
    {
        FfiRenderCtx { size, last_result: RenderResult::InitPending, presented: false }
    }

    /// Starts a new frame: it has not been presented yet.
    pub fn begin_frame(&mut self)
        ensures
            *final(self) == (FfiRenderCtx { presented: false, ..*old(self) }),
    {
        self.presented = false;
    }

    /// The logical surface size.
    pub fn size(&self) -> (s: (u32, u32))
        ensures
            s == self.size,
    {
        self.size
    }

    /// Records the outcome of presenting the frame to the window: a result
    /// replaces the last one, and the frame counts as presented either way.
    /// The outcome is handed back.
    pub fn present(&mut self, outcome: Result<RenderResult, RenderError>) -> (r: Result<RenderResult, RenderError>)
        ensures
            *final(self) == after_present(*old(self), outcome),
            r == outcome,
    {
        if let Ok(res) = outcome {
            self.last_result = res;
        }
        self.presented = true;
        outcome
    }

    /// Makes sure the current frame is presented: asks for a presentation when
    /// there has been none since [`FfiRenderCtx::begin_frame`], and otherwise
    /// answers with the last result.
    pub fn ensure_presented(&self) -> (step: PresentStep)
        ensures
            step == ensure_step(*self),
    {
        if !self.presented {
            PresentStep::Present
        } else {
            PresentStep::Done(self.last_result)
        }
    }

    /// Adopts a new logical surface size; the next render presents again.
    pub fn resize(&mut self, size: (u32, u32))
        ensures
            *final(self) == (FfiRenderCtx { size: size, presented: false, ..*old(self) }),
    {
        self.size = size;
        self.presented = false;
    }
}

/// The status code the runner reports for a presentation result.
pub open spec fn result_code_spec(r: RenderResult) -> i32 {
    match r {
        RenderResult::Presented => 0,
        RenderResult::InitPending => 1,
        RenderResult::ReadbackPending => 2,
    }
}

/// The status code for a presentation result: 0 presented, 1 waiting for
/// initialization, 2 waiting for a readback.
pub fn result_code(r: RenderResult) -> (code: i32)
    ensures
        code == result_code_spec(r),
{
    match r {
        RenderResult::Presented => 0,
        RenderResult::InitPending => 1,
        RenderResult::ReadbackPending => 2,
    }
}

/// The status code for a presentation outcome: the result's code, or -1 on failure.
pub fn outcome_code(outcome: Result<RenderResult, RenderError>) -> (code: i32)
    ensures
        code == match outcome {
            Ok(r) => result_code_spec(r),
            Err(_) => -1i32,
        },
{
    match outcome {
        Ok(r) => result_code(r),
        Err(_) => -1,
    }
}

/// What a render request asks of the runner.
#[derive(Debug, Clone, Copy, PartialEq, Eq, Structural)]
pub enum FrameStep {
    /// Report this code without any GPU work.
    Finish(i32),
    /// Begin a frame, update and render the app, ensure the frame is presented,
    /// and report [`outcome_code`] of the result.
    Render,
}

/// The step the runner takes on a render request.
pub open spec fn frame_step_spec(ctx: Option<FfiRenderCtx>, needs_update: bool) -> FrameStep {
    match ctx {
        None => FrameStep::Finish(-1i32),
        Some(c) => if needs_update || !c.presented {
            FrameStep::Render
        } else {
            FrameStep::Finish(result_code_spec(c.last_result))
        },
    }
}

/// Decides a render request: with no runner the answer is -1; a frame is
/// rendered when the app needs an update or nothing was presented since the
/// last resize or frame start; otherwise the last result is reported again.
pub fn frame_step(ctx: Option<&FfiRenderCtx>, needs_update: bool) -> (step: FrameStep)
    ensures
        step == frame_step_spec(
            match ctx {
                Some(c) => Some(*c),
                None => None,
            },
            needs_update,
        ),
{
    match ctx {
        None => FrameStep::Finish(-1),
        Some(c) => {
            if needs_update || !c.presented {
                FrameStep::Render
            } else {
                FrameStep::Finish(result_code(c.last_result))
            }
        },
    }
}

/// A frame is presented at most once: after `begin_frame` a presentation is
/// asked for, and once its outcome is recorded, `ensure_presented` answers with
/// the recorded result (the new one on success, the previous one on failure)
/// without asking again. A render request that needs no update then reports
/// that result's code.
pub proof fn lemma_present_once(ctx: FfiRenderCtx, outcome: Result<RenderResult, RenderError>)
    ensures
        ensure_step(FfiRenderCtx { presented: false, ..ctx }) == PresentStep::Present,
        ensure_step(after_present(FfiRenderCtx { presented: false, ..ctx }, outcome))
            == PresentStep::Done(match outcome {
                Ok(r) => r,
                Err(_) => ctx.last_result,
            }),
        frame_step_spec(Some(after_present(ctx, outcome)), false)
            == FrameStep::Finish(result_code_spec(after_present(ctx, outcome).last_result)),
{
}

// ---------------------------------------------------------------------------
// Project and data entry points
// ---------------------------------------------------------------------------

/// `std::str::from_utf8(bytes).is_ok()`: per std's documentation, `from_utf8`
/// succeeds exactly when the bytes are valid UTF-8, which is vstd's `valid_utf8`.
#[verifier::external_body]
fn is_utf8(bytes: &[u8]) -> (ok: bool)
    ensures
        ok == vstd::utf8::valid_utf8(bytes@),
{
    std::str::from_utf8(bytes).is_ok()
}

/// What a project or data entry point asks of the runner after checking its input.
#[derive(Debug, Clone, Copy, PartialEq, Eq, Structural)]
pub enum EntryStep {
    /// Report this code and do nothing else.
    Finish(i32),
    /// Hand the request to the app; its answer decides the code.
    Proceed,
}

/// Input present: a non-null pointer to at least one byte.
pub open spec fn has_bytes(data: Option<Seq<u8>>) -> bool {
    data matches Some(d) && d.len() > 0
}

/// The view of optional input bytes.
pub open spec fn bytes_view(data: Option<&[u8]>) -> Option<Seq<u8>> {
    match data {
        Some(d) => Some(d@),
        None => None,
    }
}

/// The step of an entry point that reads UTF-8 text (a project, imported data,
/// or an export format name): `disabled_code` without the UI feature, -2 for
/// missing or empty input, -1 without a runner, -2 for input that is not UTF-8.
pub open spec fn text_entry_step_spec(
    ui_enabled: bool,
    runner_present: bool,
    data: Option<Seq<u8>>,
    disabled_code: i32,
) -> EntryStep {
    if !ui_enabled {
        EntryStep::Finish(disabled_code)
    } else if !has_bytes(data) {
        EntryStep::Finish(-2i32)
    } else if !runner_present {
        EntryStep::Finish(-1i32)
    } else if !vstd::utf8::valid_utf8(data->0) {
        EntryStep::Finish(-2i32)
    } else {
        EntryStep::Proceed
    }
}

fn text_entry_step(ui_enabled: bool, runner_present: bool, data: Option<&[u8]>, disabled_code: i32) -> (step: EntryStep)
    ensures
        step == text_entry_step_spec(ui_enabled, runner_present, bytes_view(data), disabled_code),
{
    if !ui_enabled {
        return EntryStep::Finish(disabled_code);
    }
    match data {
        None => EntryStep::Finish(-2i32),
        Some(d) => {
            if d.len() == 0 {
                EntryStep::Finish(-2i32)
            } else if !runner_present {
                EntryStep::Finish(-1i32)
            } else if !is_utf8(d) {
                EntryStep::Finish(-2i32)
            } else {
                EntryStep::Proceed
            }
        },
    }
}

/// Loading a project: -5 without the UI feature, otherwise the checks of
/// [`text_entry_step_spec`]; on `Proceed` the runner loads the JSON text and
/// reports [`load_result_code`].
pub fn load_project_step(ui_enabled: bool, runner_present: bool, json: Option<&[u8]>) -> (step: EntryStep)
    ensures
        step == text_entry_step_spec(ui_enabled, runner_present, bytes_view(json), -5i32),
{
    text_entry_step(ui_enabled, runner_present, json, -5)
}

/// Importing data (read as a JSON project; the file type is not consulted):
/// -4 without the UI feature, otherwise the checks of [`text_entry_step_spec`];
/// on `Proceed` the runner loads the text and reports [`load_result_code`].
pub fn import_data_step(ui_enabled: bool, runner_present: bool, data: Option<&[u8]>) -> (step: EntryStep)
    ensures
        step == text_entry_step_spec(ui_enabled, runner_present, bytes_view(data), -4i32),
{
    text_entry_step(ui_enabled, runner_present, data, -4)
}

/// Exporting data: -4 without the UI feature, otherwise the checks of
/// [`text_entry_step_spec`] on the format name; on `Proceed` the runner saves
/// the project as JSON (whatever the format) and reports [`export_result_code`].
pub fn export_data_step(ui_enabled: bool, runner_present: bool, format: Option<&[u8]>) -> (step: EntryStep)
    ensures
        step == text_entry_step_spec(ui_enabled, runner_present, bytes_view(format), -4i32),
{
    text_entry_step(ui_enabled, runner_present, format, -4)
}

/// The code after the app loaded (or imported) a project: 0 when it accepted
/// the text, -3 when it refused it.
pub fn load_result_code(loaded: bool) -> (code: i32)
    ensures
        code == if loaded { 0i32 } else { -3i32 },
{
    if loaded { 0 } else { -3 }
}

/// The code after an export: 0 when the app produced JSON, -3 when it did not.
pub fn export_result_code(saved: bool) -> (code: i32)
    ensures
        code == if saved { 0i32 } else { -3i32 },
{
    if saved { 0 } else { -3 }
}

/// Saving a project: -4 without the UI feature, -1 without a runner; on
/// `Proceed` the runner saves the project and reports [`save_result_code`].
pub fn save_project_step(ui_enabled: bool, runner_present: bool) -> (step: EntryStep)
    ensures
        step == if !ui_enabled {
            EntryStep::Finish(-4i32)
        } else if !runner_present {
            EntryStep::Finish(-1i32)
        } else {
            EntryStep::Proceed
        },
{
    if !ui_enabled {
        EntryStep::Finish(-4i32)
    } else if !runner_present {
        EntryStep::Finish(-1i32)
    } else {
        EntryStep::Proceed
    }
}

/// The code after a save: 0 when the app produced JSON, -2 when it did not.
pub fn save_result_code(saved: bool) -> (code: i32)
    ensures
        code == if saved { 0i32 } else { -2i32 },
{
    if saved { 0 } else { -2 }
}

/// The unsaved-changes query: 0 without the UI feature, -1 without a runner,
/// otherwise 1 when the app has unsaved changes and 0 when it has none.
pub fn unsaved_changes_code(ui_enabled: bool, has_changes: Option<bool>) -> (code: i32)
    ensures
        code == if !ui_enabled {
            0i32
        } else {
            match has_changes {
                None => -1i32,
                Some(true) => 1i32,
                Some(false) => 0i32,
            }
        },
{
    if !ui_enabled {
        return 0;
    }
    match has_changes {
        None => -1,
        Some(true) => 1,
        Some(false) => 0,
    }
}

/// A render request, over all states: without a runner it reports -1; an app
/// that needs an update, or a frame not yet presented, is rendered; otherwise
/// no GPU work is done and the last result's code (0 presented, 1 waiting for
/// initialization, 2 waiting for a readback) is reported again.
pub proof fn lemma_frame_step_rules(ctx: Option<FfiRenderCtx>, needs_update: bool)
    ensures
        ({
            let step = frame_step_spec(ctx, needs_update);
            &&& (ctx is None ==> step == FrameStep::Finish(-1i32))
            &&& (ctx matches Some(c) ==> (step == FrameStep::Render <==> (needs_update || !c.presented)))
            &&& (ctx matches Some(c) ==> (c.presented && !needs_update ==> step == FrameStep::Finish(
                if c.last_result == RenderResult::Presented {
                    0i32
                } else if c.last_result == RenderResult::InitPending {
                    1i32
                } else {
                    2i32
                },
            )))
        }),
{
}

/// A text entry point, over all inputs: it hands the request on exactly when
/// the UI feature is built, the input is present and non-empty, a runner
/// exists and the input is valid UTF-8; missing, empty or non-UTF-8 input is
/// answered -2 and a missing runner -1 (input checked first).
pub proof fn lemma_text_entry_rules(ui_enabled: bool, runner_present: bool, data: Option<Seq<u8>>, disabled_code: i32)
    ensures
        ({
            let step = text_entry_step_spec(ui_enabled, runner_present, data, disabled_code);
            &&& (step == EntryStep::Proceed <==> ui_enabled && data is Some && data->0.len() > 0 && runner_present
                && vstd::utf8::valid_utf8(data->0))
            &&& (!ui_enabled ==> step == EntryStep::Finish(disabled_code))
            &&& (ui_enabled && (data is None || data->0.len() == 0) ==> step == EntryStep::Finish(-2i32))
            &&& (ui_enabled && data is Some && data->0.len() > 0 && !runner_present ==> step == EntryStep::Finish(
                -1i32,
            ))
            &&& (ui_enabled && data is Some && data->0.len() > 0 && runner_present && !vstd::utf8::valid_utf8(
                data->0,
            ) ==> step == EntryStep::Finish(-2i32))
        }),
{
}

} // verus!

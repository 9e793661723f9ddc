//! The command dispatcher's decision core. The caller owns the read-decode-
//! execute-respond loop and the engine; each decoded command comes through
//! [`dispatch`], which either answers it outright or names the engine work to
//! be done, whose outcome then goes back through the renderer's `complete`
//! operations.
use vstd::prelude::*;
use crate::protocol::{check_protocol_version, Command, DaemonError, Response, ViewParams,
    PROTOCOL_VERSION};
use crate::renderer::{InitAction, ReloadAction, RenderAction, Renderer, StyleTarget, resolves};
use crate::style::style_kind_of;

verus! {

/// What the loop is to do with one decoded command.
pub enum DispatchStep {
    /// Answer with this response and read the next line.
    Respond { response: Response },
    /// Build a fresh engine per the action, load its style target, report the
    /// outcome through [`Renderer::complete_init`], answer, go on.
    EngineInit { action: InitAction },
    /// Load the action's style target into the existing engine, report the
    /// outcome through [`Renderer::complete_reload`], answer, go on.
    EngineReload { action: ReloadAction },
    /// Render one frame per the action, turn the outcome into the response
    /// through [`finish_render`], answer, go on.
    EngineRender { action: RenderAction },
    /// Render the views in order through a `BatchRun`, one
    /// [`Renderer::begin_render`] each, answer with its single response.
    RunBatch { views: Vec<ViewParams> },
    /// Remove these files best-effort, answer nothing, stop the loop.
    Quit { temp_paths: Vec<String> },
}

/// Routes one decoded command. An `init` is checked against the daemon's
/// protocol version and its dimensions validated before any state moves; a
/// `render` or `reload_style` before a successful `init` is refused here; a
/// `quit` clears the temporary-file registry and ends the loop.
pub fn dispatch(r: &mut Renderer, cmd: Command) -> (step: DispatchStep)
    requires
        old(r).wf(),
        old(r).temp_files@.len() < usize::MAX,
    ensures
        final(r).wf(),
        old(r).same_config(*final(r)),
        cmd matches Command::Init { width, height, style, pixel_ratio_bits, protocol_version }
            ==> {
            &&& !(protocol_version is None || protocol_version.unwrap()@ == PROTOCOL_VERSION@)
                ==> (step matches DispatchStep::Respond { response } && response.wf()
                && response.status is Error
                && *final(r) == *old(r) && (response.error matches Some(m)
                && m@ == crate::protocol::spec_message(DaemonError::ProtocolMismatch {
                    client: protocol_version.unwrap(),
                })))
            &&& (protocol_version is None || protocol_version.unwrap()@ == PROTOCOL_VERSION@)
                && width == 0 ==> (step matches DispatchStep::Respond { response }
                && response.wf() && response.status is Error && *final(r) == *old(r)
                && (response.error matches Some(m)
                && m@ == crate::protocol::spec_message(DaemonError::InitZeroWidth)))
            &&& (protocol_version is None || protocol_version.unwrap()@ == PROTOCOL_VERSION@)
                && width != 0 && height == 0 ==> (step matches DispatchStep::Respond { response }
                && response.wf() && response.status is Error && *final(r) == *old(r)
                && (response.error matches Some(m)
                && m@ == crate::protocol::spec_message(DaemonError::InitZeroHeight)))
            &&& (protocol_version is None || protocol_version.unwrap()@ == PROTOCOL_VERSION@)
                && width != 0 && height != 0 ==> (step matches DispatchStep::EngineInit { action }
                && action.width == width && action.height == height
                && action.pixel_ratio_bits == pixel_ratio_bits
                && resolves(action.target, style@, old(r).temp_dir@, old(r).pid as nat,
                    old(r).temp_files@.len() as nat)
                && (style_kind_of(style@) is Inline ==> (action.target matches
                    StyleTarget::TempFile { path, .. } && final(r).temp_files@
                    == old(r).temp_files@.push(path)))
                && (!(style_kind_of(style@) is Inline) ==> final(r).temp_files@
                    == old(r).temp_files@)
                && final(r).initialized == old(r).initialized)
        },
        cmd matches Command::ReloadStyle { style } ==> {
            &&& !old(r).initialized ==> (step matches DispatchStep::Respond { response }
                && response.wf() && response.status is Error && *final(r) == *old(r)
                && (response.error matches Some(m) && m@ == crate::protocol::spec_message(
                    DaemonError::ReloadNotInitialized,
                )))
            &&& old(r).initialized ==> (step matches DispatchStep::EngineReload { action }
                && resolves(action.target, style@, old(r).temp_dir@, old(r).pid as nat,
                    old(r).temp_files@.len() as nat)
                && (style_kind_of(style@) is Inline ==> (action.target matches
                    StyleTarget::TempFile { path, .. } && final(r).temp_files@
                    == old(r).temp_files@.push(path)))
                && (!(style_kind_of(style@) is Inline) ==> final(r).temp_files@
                    == old(r).temp_files@))
        },
        cmd matches Command::Render { view } ==> {
            &&& !old(r).initialized ==> (step matches DispatchStep::Respond { response }
                && response.wf() && response.status is Error && *final(r) == *old(r)
                && (response.error matches Some(m) && m@ == crate::protocol::spec_message(
                    DaemonError::RenderNotInitialized,
                )))
            &&& old(r).initialized ==> (step matches DispatchStep::EngineRender { action }
                && action.lat_bits == view.lat_bits && action.lon_bits == view.lon_bits
                && action.zoom_bits == view.zoom_bits && action.bearing_bits == view.bearing_bits
                && action.pitch_bits == view.pitch_bits && *final(r) == *old(r))
        },
        cmd matches Command::RenderBatch { views } ==> (step matches DispatchStep::RunBatch {
            views: vs } && vs == views && *final(r) == *old(r)),
        cmd is Quit ==> (step matches DispatchStep::Quit { temp_paths }
            && temp_paths == old(r).temp_files && final(r).temp_files@.len() == 0),
{
    match cmd {
        Command::Init { width, height, style, pixel_ratio_bits, protocol_version } => {
            if let Err(e) = check_protocol_version(&protocol_version) {
                return DispatchStep::Respond { response: Response::failure(&e) };
            }
            match r.begin_init(width, height, style, pixel_ratio_bits) {
                Ok(action) => DispatchStep::EngineInit { action },
                Err(e) => DispatchStep::Respond { response: Response::failure(&e) },
            }
        },
        Command::ReloadStyle { style } => {
            match r.begin_reload(style) {
                Ok(action) => DispatchStep::EngineReload { action },
                Err(e) => DispatchStep::Respond { response: Response::failure(&e) },
            }
        },
        Command::Render { view } => {
            match r.begin_render(&view) {
                Ok(action) => DispatchStep::EngineRender { action },
                Err(e) => DispatchStep::Respond { response: Response::failure(&e) },
            }
        },
        Command::RenderBatch { views } => DispatchStep::RunBatch { views },
        Command::Quit => DispatchStep::Quit { temp_paths: r.cleanup_temp_files() },
    }
}

/// Turns an `init` or `reload_style` completion into its response line.
pub fn respond_result(outcome: Result<(), DaemonError>) -> (r: Response)
    ensures
        r.wf(),
        outcome is Ok ==> (r.status is Success && r.png is None && r.error is None),
        outcome matches Err(e) ==> (r.status is Error && r.png is None
            && (r.error matches Some(m) && m@ == crate::protocol::spec_message(e))),
{
    match outcome {
        Ok(()) => Response::ok(),
        Err(e) => Response::failure(&e),
    }
}

/// Turns a single `render` engine outcome into its response line: the raster
/// is encoded and carried as the payload; an engine failure or an encode
/// failure answers with its error.
pub fn finish_render(outcome: Result<crate::codec::Raster, String>) -> (r: Response)
    ensures
        r.wf(),
        outcome matches Err(d) ==> (r.status is Error && r.png is None
            && (r.error matches Some(m) && m@ == crate::protocol::spec_message(
                DaemonError::EngineRender { detail: d },
            ))),
        outcome matches Ok(raster) ==> (r.status is Success ==> (r.png matches Some(p)
            && p@ == crate::codec::b64_of(
                crate::codec::png_of(raster.pixels@, raster.width, raster.height),
            ))),
        outcome matches Ok(raster) ==> (!raster.wf() ==> r.status is Error),
        outcome matches Ok(raster) ==> ((raster.wf() && raster.width > 0 && raster.height > 0)
            ==> r.status is Success),
{
    match outcome {
        Ok(raster) => {
            match crate::codec::encode_png(&raster) {
                Ok(png) => Response::ok_png(png),
                Err(e) => Response::failure(&e),
            }
        },
        Err(d) => Response::failure(&DaemonError::EngineRender { detail: d }),
    }
}

} // verus!

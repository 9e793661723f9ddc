//! The command protocol: typed commands, the uniform response shape, and the
//! error taxonomy with its textual messages. Floating-point view parameters
//! cross this crate as IEEE-754 bit patterns (`f64::to_bits`); the logic never
//! reads them, it only routes them to the engine.
use vstd::prelude::*;
use vstd::string::StringExecFns;

verus! {

/// The protocol version this daemon speaks; an `init` carrying a different
/// `protocol_version` tag is rejected.
pub const PROTOCOL_VERSION: &'static str = "1.0";

/// One camera specification: geographic center as (longitude, latitude),
/// zoom, bearing and pitch, all as `f64` bit patterns. `has_geojson` records
/// whether the view carried a source-update payload (accepted, but a no-op in
/// this core).
#[derive(Clone, Copy, Debug)]
pub struct ViewParams {
    pub lon_bits: u64,
    pub lat_bits: u64,
    pub zoom_bits: u64,
    pub bearing_bits: u64,
    pub pitch_bits: u64,
    pub has_geojson: bool,
}

/// One decoded command line.
#[derive(Debug)]
pub enum Command {
    Init {
        width: u32,
        height: u32,
        style: String,
        pixel_ratio_bits: u64,
        protocol_version: Option<String>,
    },
    ReloadStyle { style: String },
    Render { view: ViewParams },
    RenderBatch { views: Vec<ViewParams> },
    Quit,
}

/// Why a command failed. Every failure is reported on the response line where
/// it occurred; none aborts the daemon.
#[derive(Debug)]
pub enum DaemonError {
    /// The input line was not a well-formed command.
    Decode { detail: String },
    /// An `init` carried a protocol version other than [`PROTOCOL_VERSION`].
    ProtocolMismatch { client: String },
    /// `init` with width 0.
    InitZeroWidth,
    /// `init` with height 0.
    InitZeroHeight,
    /// The style could not be loaded during `init`.
    InitStyleLoad { detail: String },
    /// `reload_style` before a successful `init`.
    ReloadNotInitialized,
    /// The style could not be loaded during `reload_style`.
    ReloadStyleLoad { detail: String },
    /// `render` before a successful `init`.
    RenderNotInitialized,
    /// The engine reported a rendering failure.
    EngineRender { detail: String },
    /// `render_batch` before a successful `init`.
    BatchNotInitialized,
    /// The engine reported a rendering failure within a batch.
    BatchRender { detail: String },
    /// The raster could not be compressed to an image byte stream.
    Encode { detail: String },
}

/// The message text reported for each failure.
pub open spec fn spec_message(e: DaemonError) -> Seq<char> {
    match e {
        DaemonError::Decode { detail } => "Invalid command: "@ + detail@,
        DaemonError::ProtocolMismatch { client } => "Protocol version mismatch: client="@
            + client@ + ", daemon=1.0"@,
        DaemonError::InitZeroWidth => "Init failed: width must be non-zero"@,
        DaemonError::InitZeroHeight => "Init failed: height must be non-zero"@,
        DaemonError::InitStyleLoad { detail } => "Init failed: "@ + detail@,
        DaemonError::ReloadNotInitialized => "Reload style failed: renderer not initialized"@,
        DaemonError::ReloadStyleLoad { detail } => "Reload style failed: "@ + detail@,
        DaemonError::RenderNotInitialized => "Render failed: renderer not initialized"@,
        DaemonError::EngineRender { detail } => "Render failed: "@ + detail@,
        DaemonError::BatchNotInitialized => "Batch render failed: renderer not initialized"@,
        DaemonError::BatchRender { detail } => "Batch render failed: "@ + detail@,
        DaemonError::Encode { detail } => "Failed to encode PNG: "@ + detail@,
    }
}

impl DaemonError {
    /// Renders the message text.
    pub fn message(&self) -> (r: String)
        ensures
            r@ == spec_message(*self),
    {
        match self {
            DaemonError::Decode { detail } => String::from_str("Invalid command: ").concat(
                detail.as_str(),
            ),
            DaemonError::ProtocolMismatch { client } => String::from_str(
                "Protocol version mismatch: client=",
            ).concat(client.as_str()).concat(", daemon=1.0"),
            DaemonError::InitZeroWidth => String::from_str("Init failed: width must be non-zero"),
            DaemonError::InitZeroHeight => String::from_str("Init failed: height must be non-zero"),
            DaemonError::InitStyleLoad { detail } => String::from_str("Init failed: ").concat(
                detail.as_str(),
            ),
            DaemonError::ReloadNotInitialized => String::from_str(
                "Reload style failed: renderer not initialized",
            ),
            DaemonError::ReloadStyleLoad { detail } => String::from_str(
                "Reload style failed: ",
            ).concat(detail.as_str()),
            DaemonError::RenderNotInitialized => String::from_str(
                "Render failed: renderer not initialized",
            ),
            DaemonError::EngineRender { detail } => String::from_str("Render failed: ").concat(
                detail.as_str(),
            ),
            DaemonError::BatchNotInitialized => String::from_str(
                "Batch render failed: renderer not initialized",
            ),
            DaemonError::BatchRender { detail } => String::from_str(
                "Batch render failed: ",
            ).concat(detail.as_str()),
            DaemonError::Encode { detail } => String::from_str("Failed to encode PNG: ").concat(
                detail.as_str(),
            ),
        }
    }
}

/// Response status tag.
#[derive(PartialEq, Eq, Structural, Clone, Copy, Debug)]
pub enum Status {
    Success,
    Error,
}

/// The one response shape every command answers with: a status tag, an image
/// payload only on rendering success, an error message only on failure.
#[derive(Debug)]
pub struct Response {
    pub status: Status,
    pub png: Option<String>,
    pub error: Option<String>,
}

impl Response {
    /// The payload and the error message are mutually exclusive, and each is
    /// tied to its status tag.
    pub open spec fn wf(self) -> bool {
        &&& self.status is Error <==> self.error is Some
        &&& self.png is Some ==> self.status is Success
    }

    /// A bare success (for `init` and `reload_style`).
    pub fn ok() -> (r: Response)
        ensures
            r.wf(),
            r.status is Success,
            r.png is None,
            r.error is None,
    {
        Response { status: Status::Success, png: None, error: None }
    }

    /// A rendering success carrying the encoded image payload.
    pub fn ok_png(png: String) -> (r: Response)
        ensures
            r.wf(),
            r.status is Success,
            r.png == Some(png),
            r.error is None,
    {
        Response { status: Status::Success, png: Some(png), error: None }
    }

    /// A failure, with the message of `e`.
    pub fn failure(e: &DaemonError) -> (r: Response)
        ensures
            r.wf(),
            r.status is Error,
            r.png is None,
            r.error is Some,
            r.error.unwrap()@ == spec_message(*e),
    {
        Response { status: Status::Error, png: None, error: Some(e.message()) }
    }
}

/// Checks an `init` command's optional protocol version tag against
/// [`PROTOCOL_VERSION`]. A missing tag passes; a mismatched one is rejected
/// and the renderer state is to be left untouched.
pub fn check_protocol_version(version: &Option<String>) -> (r: Result<(), DaemonError>)
    ensures
        r is Ok <==> (version is None || version.unwrap()@ == PROTOCOL_VERSION@),
        r matches Err(e) ==> (e matches DaemonError::ProtocolMismatch { client }
            && client == version.unwrap()),
{
    match version {
        None => Ok(()),
        Some(v) => {
            let expected = String::from_str(PROTOCOL_VERSION);
            if v.eq(&expected) {
                Ok(())
            } else {
                Err(DaemonError::ProtocolMismatch { client: v.clone() })
            }
        },
    }
}

/// The response to an input line that could not be decoded as a command. The
/// loop goes on with the next line.
pub fn decode_failure_response(detail: String) -> (r: Response)
    ensures
        r.wf(),
        r.status is Error,
        r.png is None,
        r.error.unwrap()@ == spec_message(DaemonError::Decode { detail }),
{
    Response::failure(&DaemonError::Decode { detail })
}

} // verus!

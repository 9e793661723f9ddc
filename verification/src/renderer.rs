//! The renderer lifecycle state machine. The engine itself is an outside
//! capability driven by the caller; this module decides, for each command,
//! what the engine is to do, and records the outcome. It owns the registry of
//! temporary files created for inline styles; they are released only at quit
//! (deliberately, so a file the engine may still reference is never removed
//! while rendering goes on).
use vstd::prelude::*;
use crate::protocol::{DaemonError, ViewParams};
use crate::style::{classify_style, make_temp_path, style_kind_of, temp_path, StyleKind,
    lemma_temp_path_injective};

verus! {

/// The IEEE-754 bit pattern of the default pixel ratio, 1.0.
pub const DEFAULT_PIXEL_RATIO_BITS: u64 = 4607182418800017408;

/// How the engine is to load a style: by URL, from a freshly materialized
/// temporary file (whose `content` the caller must first write to `path`),
/// or from a pre-existing local path.
#[derive(Debug)]
pub enum StyleTarget {
    Url { url: String },
    TempFile { path: String, content: String },
    LocalPath { path: String },
}

/// What a successful `init` is to configure on the engine.
#[derive(Debug)]
pub struct InitAction {
    pub width: u32,
    pub height: u32,
    pub pixel_ratio_bits: u64,
    pub target: StyleTarget,
}

/// What a `reload_style` is to load into the existing engine.
#[derive(Debug)]
pub struct ReloadAction {
    pub target: StyleTarget,
}

/// One engine render call. The engine takes the geographic center as
/// (latitude, longitude) while views carry it as (longitude, latitude); the
/// swap happens here, in `begin_render`, and nowhere else.
#[derive(Clone, Copy, Debug)]
pub struct RenderAction {
    /// First engine argument: latitude, i.e. the view's second center entry.
    pub lat_bits: u64,
    /// Second engine argument: longitude, i.e. the view's first center entry.
    pub lon_bits: u64,
    pub zoom_bits: u64,
    pub bearing_bits: u64,
    pub pitch_bits: u64,
}

/// The relation a `StyleTarget` must bear to the style string it resolves,
/// given the registry length `counter` at resolution time.
pub open spec fn resolves(
    t: StyleTarget,
    style: Seq<char>,
    dir: Seq<char>,
    pid: nat,
    counter: nat,
) -> bool {
    match style_kind_of(style) {
        StyleKind::Url => t matches StyleTarget::Url { url } && url@ == style,
        StyleKind::Inline => t matches StyleTarget::TempFile { path, content }
            && content@ == style && path@ == temp_path(dir, pid, counter),
        StyleKind::LocalPath => t matches StyleTarget::LocalPath { path } && path@ == style,
    }
}

/// The renderer's own state: whether an engine instance is installed, the
/// configured output dimensions and pixel density, and the registry of
/// temporary files materialized for inline styles.
#[derive(Debug)]
pub struct Renderer {
    pub initialized: bool,
    pub width: u32,
    pub height: u32,
    pub pixel_ratio_bits: u64,
    /// Process identity, part of every temporary-file name.
    pub pid: u64,
    /// Directory prefix (separator included) under which temporary files live.
    pub temp_dir: String,
    /// Paths of all temporary files created so far, in creation order.
    pub temp_files: Vec<String>,
}

impl Renderer {
    /// Every registered path is the one its creation counter dictates; the
    /// registry length is the next counter value.
    pub open spec fn wf(self) -> bool {
        forall|i: int|
            0 <= i < self.temp_files@.len() ==> self.temp_files@[i]@ == temp_path(
                self.temp_dir@,
                self.pid as nat,
                i as nat,
            )
    }

    /// Both states hold the same configuration (everything but the registry).
    pub open spec fn same_config(self, other: Renderer) -> bool {
        &&& self.initialized == other.initialized
        &&& self.width == other.width
        &&& self.height == other.height
        &&& self.pixel_ratio_bits == other.pixel_ratio_bits
        &&& self.pid == other.pid
        &&& self.temp_dir == other.temp_dir
    }

    /// A fresh, uninitialized renderer for process `pid`, materializing
    /// temporary files under `temp_dir`.
    pub fn new(pid: u64, temp_dir: String) -> (r: Renderer)
        ensures
            r.wf(),
            !r.initialized,
            r.width == 512,
            r.height == 512,
            r.pixel_ratio_bits == DEFAULT_PIXEL_RATIO_BITS,
            r.pid == pid,
            r.temp_dir == temp_dir,
            r.temp_files@.len() == 0,
    {
        Renderer {
            initialized: false,
            width: 512,
            height: 512,
            pixel_ratio_bits: DEFAULT_PIXEL_RATIO_BITS,
            pid,
            temp_dir,
            temp_files: Vec::new(),
        }
    }

    /// Resolves a style reference to an engine-loadable target. Remote URLs
    /// and local paths pass through untouched; an inline definition is
    /// assigned a fresh temporary-file path, registered here and now — before
    /// the caller writes or loads it, so the file is tracked for cleanup even
    /// if loading fails.
    pub fn resolve_style(&mut self, style: String) -> (t: StyleTarget)
        requires
            old(self).wf(),
            old(self).temp_files@.len() < usize::MAX,
        ensures
            final(self).wf(),
            old(self).same_config(*final(self)),
            resolves(t, style@, old(self).temp_dir@, old(self).pid as nat,
                old(self).temp_files@.len() as nat),
            style_kind_of(style@) is Inline ==> (t matches StyleTarget::TempFile { path, .. }
                && final(self).temp_files@ == old(self).temp_files@.push(path)),
            !(style_kind_of(style@) is Inline) ==> final(self).temp_files@
                == old(self).temp_files@,
    {
        match classify_style(style.as_str()) {
            StyleKind::Url => StyleTarget::Url { url: style },
            StyleKind::Inline => {
                let path = make_temp_path(
                    self.temp_dir.as_str(),
                    self.pid,
                    self.temp_files.len() as u64,
                );
                self.temp_files.push(path.clone());
                StyleTarget::TempFile { path, content: style }
            },
            StyleKind::LocalPath => StyleTarget::LocalPath { path: style },
        }
    }

    /// Validates an `init` command and resolves its style. On success the
    /// returned action carries everything the engine needs; the renderer is
    /// marked initialized only once the caller reports the engine's success
    /// through [`Renderer::complete_init`]. Zero width or height is rejected
    /// without touching any state.
    pub fn begin_init(
        &mut self,
        width: u32,
        height: u32,
        style: String,
        pixel_ratio_bits: u64,
    ) -> (r: Result<InitAction, DaemonError>)
        requires
            old(self).wf(),
            old(self).temp_files@.len() < usize::MAX,
        ensures
            final(self).wf(),
            old(self).same_config(*final(self)),
            width == 0 ==> r == Result::<InitAction, DaemonError>::Err(
                DaemonError::InitZeroWidth,
            ) && *final(self) == *old(self),
            width != 0 && height == 0 ==> r == Result::<InitAction, DaemonError>::Err(
                DaemonError::InitZeroHeight,
            ) && *final(self) == *old(self),
            width != 0 && height != 0 ==> (r matches Ok(a)
                && a.width == width && a.height == height
                && a.pixel_ratio_bits == pixel_ratio_bits
                && resolves(a.target, style@, old(self).temp_dir@, old(self).pid as nat,
                    old(self).temp_files@.len() as nat)
                && (style_kind_of(style@) is Inline ==> (a.target matches
                    StyleTarget::TempFile { path, .. } && final(self).temp_files@
                    == old(self).temp_files@.push(path)))
                && (!(style_kind_of(style@) is Inline) ==> final(self).temp_files@
                    == old(self).temp_files@)),
    {
        if width == 0 {
            return Err(DaemonError::InitZeroWidth);
        }
        if height == 0 {
            return Err(DaemonError::InitZeroHeight);
        }
        let target = self.resolve_style(style);
        Ok(InitAction { width, height, pixel_ratio_bits, target })
    }

    /// Records the outcome of carrying out an `InitAction`. Only on success
    /// does the new configuration replace the old one — a failed `init` never
    /// installs a broken renderer as ready, and whatever engine was active
    /// before remains the active one.
    pub fn complete_init(
        &mut self,
        action: &InitAction,
        outcome: Result<(), String>,
    ) -> (r: Result<(), DaemonError>)
        requires
            old(self).wf(),
        ensures
            final(self).wf(),
            final(self).temp_files == old(self).temp_files,
            final(self).pid == old(self).pid,
            final(self).temp_dir == old(self).temp_dir,
            outcome is Ok ==> r is Ok && final(self).initialized
                && final(self).width == action.width
                && final(self).height == action.height
                && final(self).pixel_ratio_bits == action.pixel_ratio_bits,
            outcome matches Err(d) ==> r == Result::<(), DaemonError>::Err(
                DaemonError::InitStyleLoad { detail: d },
            ) && *final(self) == *old(self),
    {
        match outcome {
            Ok(()) => {
                self.initialized = true;
                self.width = action.width;
                self.height = action.height;
                self.pixel_ratio_bits = action.pixel_ratio_bits;
                Ok(())
            },
            Err(d) => Err(DaemonError::InitStyleLoad { detail: d }),
        }
    }

    /// Validates a `reload_style` command and resolves its style. Requires a
    /// previously initialized renderer; dimensions and pixel ratio are not
    /// touched, the new style goes into the existing engine instance.
    pub fn begin_reload(&mut self, style: String) -> (r: Result<ReloadAction, DaemonError>)
        requires
            old(self).wf(),
            old(self).temp_files@.len() < usize::MAX,
        ensures
            final(self).wf(),
            old(self).same_config(*final(self)),
            !old(self).initialized ==> r == Result::<ReloadAction, DaemonError>::Err(
                DaemonError::ReloadNotInitialized,
            ) && *final(self) == *old(self),
            old(self).initialized ==> (r matches Ok(a)
                && resolves(a.target, style@, old(self).temp_dir@, old(self).pid as nat,
                    old(self).temp_files@.len() as nat)
                && (style_kind_of(style@) is Inline ==> (a.target matches
                    StyleTarget::TempFile { path, .. } && final(self).temp_files@
                    == old(self).temp_files@.push(path)))
                && (!(style_kind_of(style@) is Inline) ==> final(self).temp_files@
                    == old(self).temp_files@)),
    {
        if !self.initialized {
            return Err(DaemonError::ReloadNotInitialized);
        }
        let target = self.resolve_style(style);
        Ok(ReloadAction { target })
    }

    /// Records the outcome of carrying out a `ReloadAction`. The renderer's
    /// own state is the same either way: on failure the engine keeps the
    /// style it had, on success the engine holds the new one.
    pub fn complete_reload(&self, outcome: Result<(), String>) -> (r: Result<(), DaemonError>)
        ensures
            outcome is Ok ==> r is Ok,
            outcome matches Err(d) ==> r == Result::<(), DaemonError>::Err(
                DaemonError::ReloadStyleLoad { detail: d },
            ),
    {
        match outcome {
            Ok(()) => Ok(()),
            Err(d) => Err(DaemonError::ReloadStyleLoad { detail: d }),
        }
    }

    /// Decides a `render` command: before any successful `init` it always
    /// fails with the not-initialized error, whatever the view parameters;
    /// afterwards it always yields the engine call, with the view's
    /// (longitude, latitude) center swapped into the engine's
    /// (latitude, longitude) order.
    pub fn begin_render(&self, view: &ViewParams) -> (r: Result<RenderAction, DaemonError>)
        ensures
            !self.initialized <==> r == Result::<RenderAction, DaemonError>::Err(
                DaemonError::RenderNotInitialized,
            ),
            self.initialized ==> (r matches Ok(a)
                && a.lat_bits == view.lat_bits
                && a.lon_bits == view.lon_bits
                && a.zoom_bits == view.zoom_bits
                && a.bearing_bits == view.bearing_bits
                && a.pitch_bits == view.pitch_bits),
    {
        if !self.initialized {
            return Err(DaemonError::RenderNotInitialized);
        }
        Ok(RenderAction {
            lat_bits: view.lat_bits,
            lon_bits: view.lon_bits,
            zoom_bits: view.zoom_bits,
            bearing_bits: view.bearing_bits,
            pitch_bits: view.pitch_bits,
        })
    }

    /// Hook for per-view geojson source updates in a batch. The wire format
    /// accepts the payload, but this core deliberately applies nothing: the
    /// hook succeeds and changes no state.
    pub fn update_geojson_sources(&mut self) -> (r: Result<(), DaemonError>)
        ensures
            r is Ok,
            *final(self) == *old(self),
    {
        Ok(())
    }

    /// Hands back every tracked temporary-file path, in creation order, and
    /// clears the registry; the caller removes the files, best-effort.
    /// Invoked exactly once, on `quit`.
    pub fn cleanup_temp_files(&mut self) -> (paths: Vec<String>)
        ensures
            final(self).wf(),
            old(self).same_config(*final(self)),
            final(self).temp_files@.len() == 0,
            paths == old(self).temp_files,
    {
        let mut paths = Vec::new();
        core::mem::swap(&mut paths, &mut self.temp_files);
        paths
    }

    /// No two tracked temporary files share a path: each was named by a
    /// distinct counter value, and the naming is injective in the counter.
    pub proof fn lemma_temp_paths_distinct(self)
        requires
            self.wf(),
        ensures
            forall|i: int, j: int|
                0 <= i < self.temp_files@.len() && 0 <= j < self.temp_files@.len() && i != j
                    ==> self.temp_files@[i]@ != self.temp_files@[j]@,
    {
        assert forall|i: int, j: int|
            0 <= i < self.temp_files@.len() && 0 <= j < self.temp_files@.len() && i != j
            implies self.temp_files@[i]@ != self.temp_files@[j]@ by {
            lemma_temp_path_injective(self.temp_dir@, self.pid as nat, i as nat, j as nat);
        }
    }
}

} // verus!

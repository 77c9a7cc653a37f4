//! The per-pass hot-reload state machine.
//!
//! One [`ReloadController`] governs one render pass: which compiled
//! program is current, which inputs are exposed, what the last failure
//! said, and when the last successful reload happened.  The driving layer
//! reads the file and runs the GPU steps; the controller decides, and its
//! contracts pin the two guarantees a reload must give: a failure never
//! touches the current program or its inputs, and a success replaces and
//! destroys exactly the one program it supersedes.

use vstd::prelude::*;

use crate::error::CoreError;
use crate::gpu::destroy_program;
use crate::gpu::handle_live;
use crate::gpu::CompiledProgramHandle;
use crate::gpu::ResourceLedger;
use crate::uniform::merge;
use crate::uniform::spec_merge;
use crate::uniform::UniformRegistry;

verus! {

broadcast use vstd::set::group_set_axioms;

/// The shortest span, in milliseconds, between two reload attempts of one
/// pass: a burst of filesystem events from a single save coalesces into
/// one recompile.
pub const RELOAD_DEBOUNCE_MS: u64 = 100;

/// What happened when the driving layer acted on a change signal: the
/// file read failed, the fresh source failed to build, or a new program is
/// ready together with the freshly detected inputs.
pub enum ReloadEvent {
    /// The watched file could not be read; the message describes why.
    ReadFailed(String),
    /// The read succeeded but the build did not; the error carries the
    /// diagnostic verbatim.
    CompileFailed(CoreError),
    /// A new program was built from the fresh source, whose detected
    /// inputs these are.
    Compiled(CompiledProgramHandle, UniformRegistry),
}

/// No GPU object is shared between two handles.
pub open spec fn handles_disjoint(a: CompiledProgramHandle, b: CompiledProgramHandle) -> bool {
    &&& a.program != b.program
    &&& a.program != b.vertex_array
    &&& a.vertex_array != b.program
    &&& a.vertex_array != b.vertex_array
}

/// The state of one render pass.
pub struct ReloadController {
    /// The current program, drawn every frame; `None` only while no build
    /// has ever succeeded for this pass.
    pub handle: Option<CompiledProgramHandle>,
    /// The pass's exposed inputs.
    pub uniforms: UniformRegistry,
    /// The last failure, shown until a reload succeeds.  An error and a
    /// live handle coexist: a failed reload keeps the previous program
    /// drawing.
    pub last_error: Option<CoreError>,
    /// When the last successful reload finished, on the driving layer's
    /// monotonic millisecond clock.
    pub last_reload_ms: u64,
    /// The path this pass watches, as raw bytes.
    pub watch_path: Vec<u8>,
}

impl ReloadController {
    /// The pass's inputs are well formed.
    pub open spec fn wf(self) -> bool {
        self.uniforms.wf()
    }

    /// The pass's program, if any, is live in the ledger.
    pub open spec fn live_in(self, ledger: ResourceLedger) -> bool {
        match self.handle {
            Some(h) => handle_live(ledger, h),
            None => true,
        }
    }

    /// May a change signal arriving at `now_ms` trigger a reload attempt,
    /// or does it fall within the debounce interval of the last one?
    pub open spec fn debounce_allows_spec(self, now_ms: u64) -> bool {
        now_ms >= self.last_reload_ms + RELOAD_DEBOUNCE_MS
    }

    /// A fresh pass state.
    pub fn new(
        watch_path: Vec<u8>,
        handle: Option<CompiledProgramHandle>,
        uniforms: UniformRegistry,
        now_ms: u64,
    ) -> (r: Self)
        requires
            uniforms.wf(),
        ensures
            r.wf(),
            r.handle == handle,
            r.uniforms == uniforms,
            r.last_error is None,
            r.last_reload_ms == now_ms,
            r.watch_path == watch_path,
    {
        ReloadController { handle, uniforms, last_error: None, last_reload_ms: now_ms, watch_path }
    }

    /// Decide whether a change signal arriving now is acted on.
    pub fn debounce_allows(&self, now_ms: u64) -> (r: bool)
        requires
            now_ms >= self.last_reload_ms,
        ensures
            r == self.debounce_allows_spec(now_ms),
    {
        now_ms - self.last_reload_ms >= RELOAD_DEBOUNCE_MS
    }

    /// Point this pass at another file.  Only the path changes; the
    /// program, inputs and error of the pass stand until the immediate
    /// load that follows reports its outcome.
    pub fn set_watch_path(&mut self, path: Vec<u8>)
        ensures
            final(self).watch_path == path,
            final(self).handle == old(self).handle,
            final(self).uniforms == old(self).uniforms,
            final(self).last_error == old(self).last_error,
            final(self).last_reload_ms == old(self).last_reload_ms,
    {
        self.watch_path = path;
    }

    /// Take the outcome of a reload attempt.
    ///
    /// On either failure the current program, the inputs and the reload
    /// time stand untouched — the preview keeps drawing the last good
    /// program — and the failure is published.  On success the one
    /// superseded program is destroyed, the new program becomes current,
    /// the fresh inputs are merged into the previous ones so compatible
    /// user-set values survive, the error is cleared, and the reload time
    /// is set to `now_ms`.
    pub fn apply_reload_outcome(
        &mut self,
        ledger: &mut ResourceLedger,
        event: ReloadEvent,
        now_ms: u64,
    )
        requires
            old(self).wf(),
            old(ledger).wf(),
            old(self).live_in(*old(ledger)),
            match event {
                ReloadEvent::Compiled(h, fresh) => {
                    &&& fresh.wf()
                    &&& handle_live(*old(ledger), h)
                    &&& match old(self).handle {
                        Some(prev) => handles_disjoint(prev, h),
                        None => true,
                    }
                },
                _ => true,
            },
        ensures
            final(self).wf(),
            final(ledger).wf(),
            final(self).live_in(*final(ledger)),
            final(self).watch_path == old(self).watch_path,
            final(ledger).allocated() == old(ledger).allocated(),
            match event {
                ReloadEvent::ReadFailed(m) => {
                    &&& final(self).handle == old(self).handle
                    &&& final(self).uniforms == old(self).uniforms
                    &&& final(self).last_error == Some(CoreError::FileRead(m))
                    &&& final(self).last_reload_ms == old(self).last_reload_ms
                    &&& final(ledger).live_set() == old(ledger).live_set()
                },
                ReloadEvent::CompileFailed(e) => {
                    &&& final(self).handle == old(self).handle
                    &&& final(self).uniforms == old(self).uniforms
                    &&& final(self).last_error == Some(e)
                    &&& final(self).last_reload_ms == old(self).last_reload_ms
                    &&& final(ledger).live_set() == old(ledger).live_set()
                },
                ReloadEvent::Compiled(h, fresh) => {
                    &&& final(self).handle == Some(h)
                    &&& final(self).uniforms.as_map() == spec_merge(
                        old(self).uniforms.as_map(),
                        fresh.as_map(),
                    )
                    &&& final(self).last_error is None
                    &&& final(self).last_reload_ms == now_ms
                    &&& final(ledger).live_set() == match old(self).handle {
                        Some(prev) => old(ledger).live_set().remove(prev.program).remove(
                            prev.vertex_array,
                        ),
                        None => old(ledger).live_set(),
                    }
                },
            },
    {
        match event {
            ReloadEvent::ReadFailed(m) => {
                self.last_error = Some(CoreError::FileRead(m));
            },
            ReloadEvent::CompileFailed(e) => {
                self.last_error = Some(e);
            },
            ReloadEvent::Compiled(h, fresh) => {
                match self.handle {
                    Some(prev) => {
                        destroy_program(ledger, prev);
                    },
                    None => {},
                }
                self.handle = Some(h);
                let merged = merge(&self.uniforms, &fresh);
                self.uniforms = merged;
                self.last_error = None;
                self.last_reload_ms = now_ms;
            },
        }
    }

    /// Take the outcome of loading a different file, pointed at by
    /// [`Self::set_watch_path`] just before.  The sequence is the same as
    /// a reload with two differences: it is a deliberate action, so it is
    /// not debounced and does not move the reload time; and the fresh
    /// inputs replace the previous ones outright instead of merging,
    /// because the previous file's values say nothing about the new file.
    pub fn apply_load_outcome(&mut self, ledger: &mut ResourceLedger, event: ReloadEvent)
        requires
            old(self).wf(),
            old(ledger).wf(),
            old(self).live_in(*old(ledger)),
            match event {
                ReloadEvent::Compiled(h, fresh) => {
                    &&& fresh.wf()
                    &&& handle_live(*old(ledger), h)
                    &&& match old(self).handle {
                        Some(prev) => handles_disjoint(prev, h),
                        None => true,
                    }
                },
                _ => true,
            },
        ensures
            final(self).wf(),
            final(ledger).wf(),
            final(self).live_in(*final(ledger)),
            final(self).watch_path == old(self).watch_path,
            final(self).last_reload_ms == old(self).last_reload_ms,
            final(ledger).allocated() == old(ledger).allocated(),
            match event {
                ReloadEvent::ReadFailed(m) => {
                    &&& final(self).handle == old(self).handle
                    &&& final(self).uniforms == old(self).uniforms
                    &&& final(self).last_error == Some(CoreError::FileRead(m))
                    &&& final(ledger).live_set() == old(ledger).live_set()
                },
                ReloadEvent::CompileFailed(e) => {
                    &&& final(self).handle == old(self).handle
                    &&& final(self).uniforms == old(self).uniforms
                    &&& final(self).last_error == Some(e)
                    &&& final(ledger).live_set() == old(ledger).live_set()
                },
                ReloadEvent::Compiled(h, fresh) => {
                    &&& final(self).handle == Some(h)
                    &&& final(self).uniforms == fresh
                    &&& final(self).last_error is None
                    &&& final(ledger).live_set() == match old(self).handle {
                        Some(prev) => old(ledger).live_set().remove(prev.program).remove(
                            prev.vertex_array,
                        ),
                        None => old(ledger).live_set(),
                    }
                },
            },
    {
        match event {
            ReloadEvent::ReadFailed(m) => {
                self.last_error = Some(CoreError::FileRead(m));
            },
            ReloadEvent::CompileFailed(e) => {
                self.last_error = Some(e);
            },
            ReloadEvent::Compiled(h, fresh) => {
                match self.handle {
                    Some(prev) => {
                        destroy_program(ledger, prev);
                    },
                    None => {},
                }
                self.handle = Some(h);
                self.uniforms = fresh;
                self.last_error = None;
            },
        }
    }

    /// Give the pass's program back at shutdown.
    pub fn shutdown(&mut self, ledger: &mut ResourceLedger)
        requires
            old(self).wf(),
            old(ledger).wf(),
            old(self).live_in(*old(ledger)),
        ensures
            final(self).wf(),
            final(ledger).wf(),
            final(self).handle is None,
            final(self).uniforms == old(self).uniforms,
            final(ledger).live_set() == match old(self).handle {
                Some(h) => old(ledger).live_set().remove(h.program).remove(h.vertex_array),
                None => old(ledger).live_set(),
            },
    {
        match self.handle {
            Some(h) => {
                destroy_program(ledger, h);
            },
            None => {},
        }
        self.handle = None;
    }
}

/// A successful reload is resource neutral: installing the newly built
/// program and destroying the one it replaces leaves exactly as many
/// objects live as before, and a failed attempt leaves the ledger
/// untouched altogether — so over any run of reload cycles, successful
/// and failing alike, the allocation counter returns to its baseline
/// once the final program is destroyed at shutdown.
pub proof fn lemma_reload_cycle_resource_neutral(
    before: Set<u64>,
    replaced: CompiledProgramHandle,
    fresh: CompiledProgramHandle,
)
    requires
        before.finite(),
        before.contains(replaced.program),
        before.contains(replaced.vertex_array),
        replaced.program != replaced.vertex_array,
        !before.contains(fresh.program),
        !before.contains(fresh.vertex_array),
        fresh.program != fresh.vertex_array,
    ensures
        before.insert(fresh.program).insert(fresh.vertex_array).remove(replaced.program).remove(
            replaced.vertex_array,
        ).len() == before.len(),
{
}

/// Debouncing coalesces a burst: once a reload has completed at some
/// instant — which sets the pass's reload time to it — a second change
/// signal arriving within the debounce interval is not acted on, so the
/// burst causes exactly the one recompile already performed, built from
/// the file contents read when the first signal was processed.
pub proof fn lemma_debounce_coalesces(c: ReloadController, t2: u64)
    requires
        (t2 as int) < c.last_reload_ms + RELOAD_DEBOUNCE_MS,
    ensures
        !c.debounce_allows_spec(t2),
{
}

} // verus!

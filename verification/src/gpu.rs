//! GPU object accounting and the program compile lifecycle.
//!
//! The GPU itself lives outside the library: the driving layer performs the
//! actual object creation, compilation and deletion, and reports what
//! happened.  The library decides what to do at every step and proves the
//! resource discipline: every object allocated on a path is released on
//! that path exactly once unless it is handed out in the resulting handle,
//! and a handle is destroyed at most once.
//!
//! A [`ResourceLedger`] names each GPU object by a fresh identifier and
//! tracks the set of identifiers that are live.  Its live count is the
//! allocation counter a test can read before and after a run of reload
//! cycles.

use vstd::prelude::*;

use crate::error::CoreError;

verus! {

broadcast use vstd::set::group_set_axioms;

/// Names and counts the GPU objects the tool owns.  Each allocation yields
/// a fresh identifier; a release must name a live identifier, so a double
/// release or a release of something never allocated cannot verify.
pub struct ResourceLedger {
    next_id: u64,
    live_count: u64,
    live: Ghost<Set<u64>>,
}

impl ResourceLedger {
    /// The identifiers of the objects currently live.
    pub closed spec fn live_set(self) -> Set<u64> {
        self.live@
    }

    /// How many identifiers were ever handed out.
    pub closed spec fn allocated(self) -> int {
        self.next_id as int
    }

    /// The ledger can hand out `n` more identifiers.
    pub open spec fn headroom(self, n: int) -> bool {
        self.allocated() + n <= u64::MAX as int
    }

    /// The live set is finite, counted exactly, and holds only identifiers
    /// that were handed out.
    pub closed spec fn wf(self) -> bool {
        &&& self.live@.finite()
        &&& self.live_count == self.live@.len()
        &&& self.live_count <= self.next_id
        &&& forall|id: u64| self.live@.contains(id) ==> id < self.next_id
    }

    /// An empty ledger: nothing live, nothing handed out.
    pub fn new() -> (r: Self)
        ensures
            r.wf(),
            r.live_set() == Set::<u64>::empty(),
            r.allocated() == 0,
    {
        ResourceLedger { next_id: 0, live_count: 0, live: Ghost(Set::empty()) }
    }

    /// The number of live objects: the allocation counter.
    pub fn live_objects(&self) -> (n: u64)
        requires
            self.wf(),
        ensures
            n == self.live_set().len(),
    {
        self.live_count
    }

    /// Record the creation of one GPU object and name it.
    pub fn allocate(&mut self) -> (id: u64)
        requires
            old(self).wf(),
            old(self).headroom(1),
        ensures
            final(self).wf(),
            !old(self).live_set().contains(id),
            final(self).live_set() == old(self).live_set().insert(id),
            final(self).allocated() == old(self).allocated() + 1,
            final(self).live_set().len() == old(self).live_set().len() + 1,
    {
        let id = self.next_id;
        self.next_id = self.next_id + 1;
        self.live_count = self.live_count + 1;
        proof {
            self.live@ = self.live@.insert(id);
        }
        id
    }

    /// Record the deletion of one live GPU object.
    pub fn release(&mut self, id: u64)
        requires
            old(self).wf(),
            old(self).live_set().contains(id),
        ensures
            final(self).wf(),
            final(self).live_set() == old(self).live_set().remove(id),
            final(self).allocated() == old(self).allocated(),
            final(self).live_set().len() == old(self).live_set().len() - 1,
    {
        self.live_count = self.live_count - 1;
        proof {
            self.live@ = self.live@.remove(id);
        }
    }
}

/// Ownership of exactly one GPU program object and one vertex-array
/// object.  A handle is only ever produced fully built; see
/// [`compile_program`].
#[derive(Clone, Copy, Debug, PartialEq, Eq, Structural)]
pub struct CompiledProgramHandle {
    pub program: u64,
    pub vertex_array: u64,
}

/// Both objects of the handle are live and distinct.
pub open spec fn handle_live(ledger: ResourceLedger, h: CompiledProgramHandle) -> bool {
    &&& ledger.live_set().contains(h.program)
    &&& ledger.live_set().contains(h.vertex_array)
    &&& h.program != h.vertex_array
}

/// What the GPU driver reported while a program was being built, in the
/// order the steps run: program object creation, the two stage compiles,
/// the link, and vertex-array creation.  The internally supplied vertex
/// stage is fixed text and never fails to compile; the fragment stage is
/// the user's source taken verbatim.  Each failure carries the driver's
/// diagnostic text unmodified.
pub enum CompileOutcome {
    ProgramAllocFailed(String),
    FragmentCompileFailed(String),
    LinkFailed(String),
    VertexArrayAllocFailed(String),
    Success,
}

/// Build a program from the driver's reported outcome, keeping the books.
///
/// On success exactly two objects are newly live: the program and the
/// vertex-array object of the returned handle; the two shader stage
/// objects were created and released again on the way.  On any failure
/// every object created during the attempt has been released: the live set
/// is exactly what it was, so no path leaks and no path releases twice.
pub fn compile_program(ledger: &mut ResourceLedger, outcome: CompileOutcome) -> (r: Result<
    CompiledProgramHandle,
    CoreError,
>)
    requires
        old(ledger).wf(),
        old(ledger).headroom(4),
    ensures
        final(ledger).wf(),
        final(ledger).allocated() <= old(ledger).allocated() + 4,
        match r {
            Ok(h) => {
                &&& outcome is Success
                &&& h.program != h.vertex_array
                &&& !old(ledger).live_set().contains(h.program)
                &&& !old(ledger).live_set().contains(h.vertex_array)
                &&& final(ledger).live_set() == old(ledger).live_set().insert(h.program).insert(
                    h.vertex_array,
                )
                &&& handle_live(*final(ledger), h)
            },
            Err(e) => {
                &&& match outcome {
                    CompileOutcome::ProgramAllocFailed(m) => e == CoreError::GpuResourceAllocation(
                        m,
                    ),
                    CompileOutcome::FragmentCompileFailed(m) => e == CoreError::ShaderCompile(m),
                    CompileOutcome::LinkFailed(m) => e == CoreError::ShaderLink(m),
                    CompileOutcome::VertexArrayAllocFailed(m) => e
                        == CoreError::GpuResourceAllocation(m),
                    CompileOutcome::Success => false,
                }
                &&& final(ledger).live_set() == old(ledger).live_set()
            },
        },
{
    match outcome {
        CompileOutcome::ProgramAllocFailed(m) => {
            // The very first creation failed: nothing to clean up.
            Err(CoreError::GpuResourceAllocation(m))
        },
        CompileOutcome::FragmentCompileFailed(m) => {
            // Program and vertex stage were built; the fragment stage was
            // created, failed to compile, and everything is torn down.
            let program = ledger.allocate();
            let vertex_shader = ledger.allocate();
            let fragment_shader = ledger.allocate();
            ledger.release(fragment_shader);
            ledger.release(vertex_shader);
            ledger.release(program);
            proof {
                assert(ledger.live_set() =~= old(ledger).live_set());
            }
            Err(CoreError::ShaderCompile(m))
        },
        CompileOutcome::LinkFailed(m) => {
            // Both stages compiled and were attached; the link failed, so
            // the stages are detached and released, then the program.
            let program = ledger.allocate();
            let vertex_shader = ledger.allocate();
            let fragment_shader = ledger.allocate();
            ledger.release(vertex_shader);
            ledger.release(fragment_shader);
            ledger.release(program);
            proof {
                assert(ledger.live_set() =~= old(ledger).live_set());
            }
            Err(CoreError::ShaderLink(m))
        },
        CompileOutcome::VertexArrayAllocFailed(m) => {
            // The program linked and the stage objects were already
            // released; the vertex-array creation failed, so the program
            // goes too rather than leak.
            let program = ledger.allocate();
            let vertex_shader = ledger.allocate();
            let fragment_shader = ledger.allocate();
            ledger.release(vertex_shader);
            ledger.release(fragment_shader);
            ledger.release(program);
            proof {
                assert(ledger.live_set() =~= old(ledger).live_set());
            }
            Err(CoreError::GpuResourceAllocation(m))
        },
        CompileOutcome::Success => {
            // The stage objects are released once the link has copied what
            // it needs; the program and the vertex-array object live on in
            // the handle.
            let program = ledger.allocate();
            let vertex_shader = ledger.allocate();
            let fragment_shader = ledger.allocate();
            ledger.release(vertex_shader);
            ledger.release(fragment_shader);
            let vertex_array = ledger.allocate();
            proof {
                assert(ledger.live_set() =~= old(ledger).live_set().insert(program).insert(
                    vertex_array,
                ));
            }
            Ok(CompiledProgramHandle { program, vertex_array })
        },
    }
}

/// Release the two objects of a handle.  The handle must be live, so a
/// handle can never be destroyed twice.
pub fn destroy_program(ledger: &mut ResourceLedger, handle: CompiledProgramHandle)
    requires
        old(ledger).wf(),
        handle_live(*old(ledger), handle),
    ensures
        final(ledger).wf(),
        final(ledger).live_set() == old(ledger).live_set().remove(handle.program).remove(
            handle.vertex_array,
        ),
        final(ledger).live_set().len() == old(ledger).live_set().len() - 2,
        final(ledger).allocated() == old(ledger).allocated(),
{
    ledger.release(handle.program);
    ledger.release(handle.vertex_array);
}

} // verus!

//! Single-pass versus two-pass frame composition.
//!
//! A frame is one pass when no post-process shader is loaded or the user
//! has it switched off; otherwise the main pass draws into an off-screen
//! intermediate target sized exactly to the output, and the post-process
//! pass draws into the true destination with the intermediate's color
//! texture injected as one extra sampler input under a reserved name.
//! Both passes of a frame see the same time and the same physical pixel
//! size; display scaling is the caller's business.
//!
//! The reserved input names — the two built-ins the draw step supplies and
//! the injected inter-pass texture — never appear in user-facing controls.

use vstd::prelude::*;

use crate::gpu::CompiledProgramHandle;
use crate::gpu::ResourceLedger;
use crate::uniform::clone_info;
use crate::uniform::clone_registry;
use crate::uniform::lemma_entries_map_contains;
use crate::uniform::lemma_entries_map_index;
use crate::uniform::bytes_eq;
use crate::uniform::TextureHandle;
use crate::uniform::UniformEntry;
use crate::uniform::UniformInfo;
use crate::uniform::UniformInfoV;
use crate::uniform::UniformRegistry;
use crate::uniform::UniformType;
use crate::uniform::UniformValue;
use crate::uniform::UniformValueV;
use crate::uniform::TextureHandleV;
use vstd::slice::slice_to_vec;

verus! {

/// The name of the built-in scalar input that carries the elapsed time:
/// `u_time`.
pub open spec fn time_name_spec() -> Seq<u8> {
    seq![117u8, 95u8, 116u8, 105u8, 109u8, 101u8]
}

/// The name of the built-in two-component input that carries the physical
/// pixel size of the draw: `u_resolution`.
pub open spec fn resolution_name_spec() -> Seq<u8> {
    seq![117u8, 95u8, 114u8, 101u8, 115u8, 111u8, 108u8, 117u8, 116u8, 105u8, 111u8, 110u8]
}

/// The reserved name under which the first pass's output is handed to the
/// post-process pass: `u_mainPass`.
pub open spec fn main_pass_name_spec() -> Seq<u8> {
    seq![117u8, 95u8, 109u8, 97u8, 105u8, 110u8, 80u8, 97u8, 115u8, 115u8]
}

/// A name the core reserves: the two built-ins and the inter-pass texture.
pub open spec fn is_reserved_name(n: Seq<u8>) -> bool {
    n == time_name_spec() || n == resolution_name_spec() || n == main_pass_name_spec()
}

/// The bytes of `u_time`.
pub fn time_name() -> (v: Vec<u8>)
    ensures
        v@ == time_name_spec(),
{
    let mut v: Vec<u8> = Vec::new();
    v.push(117);
    v.push(95);
    v.push(116);
    v.push(105);
    v.push(109);
    v.push(101);
    proof {
        assert(v@ =~= time_name_spec());
    }
    v
}

/// The bytes of `u_resolution`.
pub fn resolution_name() -> (v: Vec<u8>)
    ensures
        v@ == resolution_name_spec(),
{
    let mut v: Vec<u8> = Vec::new();
    v.push(117);
    v.push(95);
    v.push(114);
    v.push(101);
    v.push(115);
    v.push(111);
    v.push(108);
    v.push(117);
    v.push(116);
    v.push(105);
    v.push(111);
    v.push(110);
    proof {
        assert(v@ =~= resolution_name_spec());
    }
    v
}

/// The bytes of `u_mainPass`.
pub fn main_pass_name() -> (v: Vec<u8>)
    ensures
        v@ == main_pass_name_spec(),
{
    let mut v: Vec<u8> = Vec::new();
    v.push(117);
    v.push(95);
    v.push(109);
    v.push(97);
    v.push(105);
    v.push(110);
    v.push(80);
    v.push(97);
    v.push(115);
    v.push(115);
    proof {
        assert(v@ =~= main_pass_name_spec());
    }
    v
}

/// Is this name reserved by the core?
pub fn is_reserved(name: &[u8]) -> (r: bool)
    ensures
        r == is_reserved_name(name@),
{
    let t = time_name();
    let res = resolution_name();
    let mp = main_pass_name();
    bytes_eq(name, t.as_slice()) || bytes_eq(name, res.as_slice()) || bytes_eq(
        name,
        mp.as_slice(),
    )
}

/// Is this name one of the two built-ins the draw step itself supplies?
pub fn is_builtin(name: &[u8]) -> (r: bool)
    ensures
        r == (name@ == time_name_spec() || name@ == resolution_name_spec()),
{
    let t = time_name();
    let res = resolution_name();
    bytes_eq(name, t.as_slice()) || bytes_eq(name, res.as_slice())
}

/// Two-pass composition runs exactly when a post-process shader has been
/// loaded successfully and the user has it enabled.
pub fn use_two_pass(post_process_enabled: bool, post_process_loaded: bool) -> (r: bool)
    ensures
        r == (post_process_enabled && post_process_loaded),
{
    post_process_enabled && post_process_loaded
}

/// The off-screen color target the first pass of a two-pass frame draws
/// into.
#[derive(Clone, Copy, Debug, PartialEq, Eq, Structural)]
pub struct IntermediateTarget {
    pub framebuffer: u64,
    pub color_texture: u64,
    pub width: u32,
    pub height: u32,
}

/// Both objects of the target are live and distinct.
pub open spec fn target_live(ledger: ResourceLedger, t: IntermediateTarget) -> bool {
    &&& ledger.live_set().contains(t.framebuffer)
    &&& ledger.live_set().contains(t.color_texture)
    &&& t.framebuffer != t.color_texture
}

/// The cached intermediate target of the interactive loop.
pub struct Compositor {
    /// The cached target, present once a two-pass frame has been drawn.
    pub intermediate: Option<IntermediateTarget>,
}

impl Compositor {
    /// The cached target, if any, is live in the ledger.
    pub open spec fn live_in(self, ledger: ResourceLedger) -> bool {
        match self.intermediate {
            Some(t) => target_live(ledger, t),
            None => true,
        }
    }

    /// No target cached yet.
    pub fn new() -> (r: Self)
        ensures
            r.intermediate is None,
    {
        Compositor { intermediate: None }
    }

    /// Make the cached intermediate target match the requested output size
    /// exactly.  A target of the right size is kept as it is; a missing or
    /// stale-sized one is destroyed and a fresh pair of objects is
    /// allocated, never reused at the wrong size.
    pub fn ensure_intermediate(
        &mut self,
        ledger: &mut ResourceLedger,
        width: u32,
        height: u32,
    ) -> (t: IntermediateTarget)
        requires
            old(ledger).wf(),
            old(ledger).headroom(2),
            old(self).live_in(*old(ledger)),
        ensures
            final(ledger).wf(),
            final(self).intermediate == Some(t),
            t.width == width,
            t.height == height,
            target_live(*final(ledger), t),
            final(self).live_in(*final(ledger)),
            match old(self).intermediate {
                Some(p) => {
                    if p.width == width && p.height == height {
                        t == p && final(ledger).live_set() == old(ledger).live_set()
                    } else {
                        final(ledger).live_set() == old(ledger).live_set().remove(
                            p.framebuffer,
                        ).remove(p.color_texture).insert(t.framebuffer).insert(t.color_texture)
                    }
                },
                None => final(ledger).live_set() == old(ledger).live_set().insert(
                    t.framebuffer,
                ).insert(t.color_texture),
            },
    {
        match self.intermediate {
            Some(p) => {
                if p.width == width && p.height == height {
                    return p;
                }
                ledger.release(p.framebuffer);
                ledger.release(p.color_texture);
            },
            None => {},
        }
        let framebuffer = ledger.allocate();
        let color_texture = ledger.allocate();
        let t = IntermediateTarget { framebuffer, color_texture, width, height };
        self.intermediate = Some(t);
        t
    }

    /// Give the cached target back at shutdown.
    pub fn shutdown(&mut self, ledger: &mut ResourceLedger)
        requires
            old(ledger).wf(),
            old(self).live_in(*old(ledger)),
        ensures
            final(ledger).wf(),
            final(self).intermediate is None,
            final(ledger).live_set() == match old(self).intermediate {
                Some(t) => old(ledger).live_set().remove(t.framebuffer).remove(t.color_texture),
                None => old(ledger).live_set(),
            },
    {
        match self.intermediate {
            Some(t) => {
                ledger.release(t.framebuffer);
                ledger.release(t.color_texture);
            },
            None => {},
        }
        self.intermediate = None;
    }
}

/// The injected inter-pass input: the intermediate target's color texture
/// bound as a sampler, carrying no source path of its own.
pub open spec fn main_pass_input_spec(t: IntermediateTarget) -> UniformInfoV {
    UniformInfoV {
        uniform_type: UniformType::Sampler2D,
        value: UniformValueV::Sampler2D(
            Some(
                TextureHandleV {
                    path: Seq::empty(),
                    texture_id: Some(t.color_texture),
                    width: t.width,
                    height: t.height,
                },
            ),
        ),
    }
}

/// The post-process pass's input set for one two-pass frame: the pass's
/// own inputs plus the first pass's output under the reserved inter-pass
/// name.  The pass's stored registry is not touched; the injected entry
/// exists only in the per-frame copy, so it can never leak into controls
/// or into a merge.
pub fn with_main_pass_input(reg: &UniformRegistry, t: IntermediateTarget) -> (r: UniformRegistry)
    requires
        reg.wf(),
    ensures
        r.wf(),
        r.as_map() == reg.as_map().insert(main_pass_name_spec(), main_pass_input_spec(t)),
{
    let mut r = clone_registry(reg);
    let info = UniformInfo {
        uniform_type: UniformType::Sampler2D,
        value: UniformValue::Sampler2D(
            Some(
                TextureHandle {
                    path: Vec::new(),
                    texture_id: Some(t.color_texture),
                    width: t.width,
                    height: t.height,
                },
            ),
        ),
    };
    r.insert(main_pass_name(), info);
    r
}

/// The names a control panel shows for one pass: every declared input
/// except the reserved ones, each exactly once.  The list carries no
/// order of meaning; the panel sorts it for display.
pub fn visible_uniform_names(reg: &UniformRegistry) -> (names: Vec<Vec<u8>>)
    requires
        reg.wf(),
    ensures
        forall|i: int|
            0 <= i < names@.len() ==> reg.as_map().contains_key(#[trigger] names@[i]@)
                && !is_reserved_name(names@[i]@),
        forall|n: Seq<u8>|
            reg.as_map().contains_key(n) && !is_reserved_name(n) ==> exists|i: int|
                0 <= i < names@.len() && names@[i]@ == n,
        forall|i: int, j: int| 0 <= i < j < names@.len() ==> names@[i]@ != names@[j]@,
{
    let mut names: Vec<Vec<u8>> = Vec::new();
    let n = reg.len();
    let mut k: usize = 0;
    while k < n
        invariant
            n == reg@.len(),
            k <= n,
            reg.wf(),
            forall|i: int|
                0 <= i < names@.len() ==> exists|j: int|
                    0 <= j < k && #[trigger] names@[i]@ == reg@[j].name,
            forall|i: int| 0 <= i < names@.len() ==> !is_reserved_name(#[trigger] names@[i]@),
            forall|j: int|
                0 <= j < k && !is_reserved_name(#[trigger] reg@[j].name) ==> exists|i: int|
                    0 <= i < names@.len() && names@[i]@ == reg@[j].name,
            forall|i: int, j: int| 0 <= i < j < names@.len() ==> names@[i]@ != names@[j]@,
        decreases n - k,
    {
        let e = reg.entry_at(k);
        if !is_reserved(e.name.as_slice()) {
            let ghost before = names@;
            names.push(slice_to_vec(e.name.as_slice()));
            proof {
                assert(names@[names@.len() - 1]@ == reg@[k as int].name);
                assert(forall|i: int| 0 <= i < before.len() ==> names@[i] == before[i]);
                assert forall|j: int|
                    0 <= j < k + 1 && !is_reserved_name(#[trigger] reg@[j].name) implies exists|
                    i: int,
                |
                    0 <= i < names@.len() && names@[i]@ == reg@[j].name by {
                    if j < k {
                        let i0 = choose|i0: int|
                            0 <= i0 < before.len() && before[i0]@ == reg@[j].name;
                        assert(names@[i0]@ == reg@[j].name);
                    } else {
                        assert(names@[names@.len() - 1]@ == reg@[j].name);
                    }
                }
                assert forall|i: int, j: int|
                    0 <= i < j < names@.len() implies names@[i]@ != names@[j]@ by {
                    if j == names@.len() - 1 {
                        let jj = choose|jj: int| 0 <= jj < k && before[i]@ == reg@[jj].name;
                        assert(reg@[jj].name != reg@[k as int].name);
                    }
                }
            }
        }
        k = k + 1;
    }
    proof {
        assert forall|i: int|
            0 <= i < names@.len() implies reg.as_map().contains_key(names@[i]@)
            && !is_reserved_name(names@[i]@) by {
            let j = choose|j: int| 0 <= j < reg@.len() && names@[i]@ == reg@[j].name;
            lemma_entries_map_contains(reg@, names@[i]@);
        }
        assert forall|n2: Seq<u8>|
            reg.as_map().contains_key(n2) && !is_reserved_name(n2) implies exists|i: int|
            0 <= i < names@.len() && names@[i]@ == n2 by {
            lemma_entries_map_contains(reg@, n2);
            let j = choose|j: int| 0 <= j < reg@.len() && reg@[j].name == n2;
            assert(!is_reserved_name(reg@[j].name));
        }
    }
    names
}

/// The inputs one draw call binds from a pass's registry: every entry but
/// the two built-ins, which the draw step sets itself from the frame's
/// time and size.  An entry whose name the compiled program does not use
/// is handed over all the same; the GPU layer's lookup simply misses, and
/// that is expected, not an error — as is a sampler entry with no texture
/// loaded, which is skipped at bind time.
pub fn binding_plan(reg: &UniformRegistry) -> (plan: Vec<UniformEntry>)
    requires
        reg.wf(),
    ensures
        forall|i: int|
            0 <= i < plan@.len() ==> {
                &&& reg.as_map().contains_key(#[trigger] plan@[i]@.name)
                &&& plan@[i]@.info == reg.as_map()[plan@[i]@.name]
                &&& plan@[i]@.name != time_name_spec()
                &&& plan@[i]@.name != resolution_name_spec()
            },
        forall|n: Seq<u8>|
            reg.as_map().contains_key(n) && n != time_name_spec() && n != resolution_name_spec()
                ==> exists|i: int| 0 <= i < plan@.len() && plan@[i]@.name == n,
        forall|i: int, j: int| 0 <= i < j < plan@.len() ==> plan@[i]@.name != plan@[j]@.name,
{
    let mut plan: Vec<UniformEntry> = Vec::new();
    let n = reg.len();
    let mut k: usize = 0;
    while k < n
        invariant
            n == reg@.len(),
            k <= n,
            reg.wf(),
            forall|i: int|
                0 <= i < plan@.len() ==> exists|j: int|
                    0 <= j < k && #[trigger] plan@[i]@ == reg@[j],
            forall|i: int|
                0 <= i < plan@.len() ==> (#[trigger] plan@[i]@).name != time_name_spec()
                    && plan@[i]@.name != resolution_name_spec(),
            forall|j: int|
                0 <= j < k && (#[trigger] reg@[j].name) != time_name_spec() && reg@[j].name
                    != resolution_name_spec() ==> exists|i: int|
                    0 <= i < plan@.len() && plan@[i]@.name == reg@[j].name,
            forall|i: int, j: int| 0 <= i < j < plan@.len() ==> plan@[i]@.name != plan@[j]@.name,
        decreases n - k,
    {
        let e = reg.entry_at(k);
        if !is_builtin(e.name.as_slice()) {
            let ghost before = plan@;
            plan.push(
                UniformEntry { name: slice_to_vec(e.name.as_slice()), info: clone_info(&e.info) },
            );
            proof {
                assert(plan@[plan@.len() - 1]@ == reg@[k as int]);
                assert(forall|i: int| 0 <= i < before.len() ==> plan@[i] == before[i]);
                assert forall|j: int|
                    0 <= j < k + 1 && (#[trigger] reg@[j].name) != time_name_spec() && reg@[j].name
                        != resolution_name_spec() implies exists|i: int|
                    0 <= i < plan@.len() && plan@[i]@.name == reg@[j].name by {
                    if j < k {
                        let i0 = choose|i0: int|
                            0 <= i0 < before.len() && before[i0]@.name == reg@[j].name;
                        assert(plan@[i0]@.name == reg@[j].name);
                    } else {
                        assert(plan@[plan@.len() - 1]@.name == reg@[j].name);
                    }
                }
                assert forall|i: int, j: int|
                    0 <= i < j < plan@.len() implies plan@[i]@.name != plan@[j]@.name by {
                    if j == plan@.len() - 1 {
                        let jj = choose|jj: int| 0 <= jj < k && before[i]@ == reg@[jj];
                        assert(reg@[jj].name != reg@[k as int].name);
                    }
                }
            }
        }
        k = k + 1;
    }
    proof {
        assert forall|i: int| 0 <= i < plan@.len() implies {
            &&& reg.as_map().contains_key(plan@[i]@.name)
            &&& plan@[i]@.info == reg.as_map()[plan@[i]@.name]
            &&& plan@[i]@.name != time_name_spec()
            &&& plan@[i]@.name != resolution_name_spec()
        } by {
            let j = choose|j: int| 0 <= j < reg@.len() && plan@[i]@ == reg@[j];
            lemma_entries_map_index(reg@, j);
        }
        assert forall|n2: Seq<u8>|
            reg.as_map().contains_key(n2) && n2 != time_name_spec() && n2
                != resolution_name_spec() implies exists|i: int|
            0 <= i < plan@.len() && plan@[i]@.name == n2 by {
            lemma_entries_map_contains(reg@, n2);
            let j = choose|j: int| 0 <= j < reg@.len() && reg@[j].name == n2;
            assert(exists|i: int| 0 <= i < plan@.len() && plan@[i]@.name == reg@[j].name);
        }
    }
    plan
}

/// One draw of one compiled program: where it renders, at which logical
/// time, at which physical pixel size, and with which inputs.  The draw
/// step binds the program, sets the two built-ins from `time_bits` (the
/// elapsed seconds, by bit pattern) and the size, binds every entry of
/// `uniforms`, and issues the full-screen draw.
pub struct PassInvocation {
    /// The framebuffer to bind as destination; `None` is the caller's own
    /// destination (the screen region, or the export read-back target).
    pub target_framebuffer: Option<u64>,
    pub handle: CompiledProgramHandle,
    /// The logical time of the frame, as the bit pattern of the
    /// single-precision seconds value handed to the time built-in.
    pub time_bits: u32,
    pub width: u32,
    pub height: u32,
    pub uniforms: UniformRegistry,
}

/// The passes of one frame, in draw order: the first pass, then for a
/// two-pass frame the post-process pass.
pub struct FramePlan {
    pub first: PassInvocation,
    pub second: Option<PassInvocation>,
}

/// Plan a single-pass frame: the main program draws straight into the
/// destination at the requested size.
pub fn plan_single_pass(
    time_bits: u32,
    width: u32,
    height: u32,
    main_handle: CompiledProgramHandle,
    main_uniforms: &UniformRegistry,
) -> (plan: FramePlan)
    requires
        main_uniforms.wf(),
    ensures
        plan.second is None,
        plan.first.target_framebuffer is None,
        plan.first.handle == main_handle,
        plan.first.time_bits == time_bits,
        plan.first.width == width,
        plan.first.height == height,
        plan.first.uniforms.wf(),
        plan.first.uniforms.as_map() == main_uniforms.as_map(),
{
    let u = clone_registry(main_uniforms);
    FramePlan {
        first: PassInvocation {
            target_framebuffer: None,
            handle: main_handle,
            time_bits,
            width,
            height,
            uniforms: u,
        },
        second: None,
    }
}

/// Plan a two-pass frame.  The main pass draws into the intermediate
/// target, which must already have exactly the output size; the
/// post-process pass then draws into the destination with the
/// intermediate's color texture injected under the reserved inter-pass
/// name.  Both passes carry the same time and the same physical pixel
/// size, so interactive and export rendering of a frame agree.
pub fn plan_two_pass(
    time_bits: u32,
    width: u32,
    height: u32,
    main_handle: CompiledProgramHandle,
    main_uniforms: &UniformRegistry,
    post_handle: CompiledProgramHandle,
    post_uniforms: &UniformRegistry,
    intermediate: IntermediateTarget,
) -> (plan: FramePlan)
    requires
        main_uniforms.wf(),
        post_uniforms.wf(),
        intermediate.width == width,
        intermediate.height == height,
    ensures
        plan.first.target_framebuffer == Some(intermediate.framebuffer),
        plan.first.handle == main_handle,
        plan.first.time_bits == time_bits,
        plan.first.width == width,
        plan.first.height == height,
        plan.first.uniforms.wf(),
        plan.first.uniforms.as_map() == main_uniforms.as_map(),
        (plan.second is Some),
        ({
            let second = plan.second->Some_0;
            &&& second.target_framebuffer is None
            &&& second.handle == post_handle
            &&& second.time_bits == time_bits
            &&& second.width == width
            &&& second.height == height
            &&& second.uniforms.wf()
            &&& second.uniforms.as_map() == post_uniforms.as_map().insert(
                main_pass_name_spec(),
                main_pass_input_spec(intermediate),
            )
        }),
{
    let main_u = clone_registry(main_uniforms);
    let post_u = with_main_pass_input(post_uniforms, intermediate);
    FramePlan {
        first: PassInvocation {
            target_framebuffer: Some(intermediate.framebuffer),
            handle: main_handle,
            time_bits,
            width,
            height,
            uniforms: main_u,
        },
        second: Some(
            PassInvocation {
                target_framebuffer: None,
                handle: post_handle,
                time_bits,
                width,
                height,
                uniforms: post_u,
            },
        ),
    }
}

} // verus!

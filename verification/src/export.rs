//! Deterministic frame capture: single images and video frame sequences.
//!
//! Export renders the very pass plans the interactive loop renders, but at
//! logical times computed from the frame index, so the pixels do not
//! depend on how fast the machine renders.  The GPU reads pixels back
//! bottom row first; every captured frame is flipped to top-down row order
//! exactly once before it leaves the core.

use vstd::prelude::*;

use crate::error::CoreError;
use crate::gpu::ResourceLedger;

verus! {

/// How often, in frames, a running video export publishes its progress:
/// coarse enough to keep the overhead bounded.
pub const PROGRESS_INTERVAL_FRAMES: u32 = 10;

/// What a running export tells the surface.
#[derive(Debug, Clone, PartialEq, Eq)]
pub struct ExportProgress {
    pub current_frame: u32,
    pub total_frames: u32,
    /// A short human-readable line, distinct from compiler diagnostics.
    pub status: String,
}

/// Byte `c` of row `r` of `dst` equals byte `c` of row `height - 1 - r`
/// of `src`, for rows of `row` bytes.
pub open spec fn flipped_cell(src: Seq<u8>, dst: Seq<u8>, row: int, height: int, r: int, c: int) -> bool {
    dst[r * row + c] == src[(height - 1 - r) * row + c]
}

/// `dst` holds the rows of `src` in reverse order: the bottom row of the
/// bottom-up read-back is the top row of the image.
pub open spec fn rows_flipped(src: Seq<u8>, dst: Seq<u8>, width: int, height: int) -> bool {
    &&& dst.len() == src.len()
    &&& forall|r: int, c: int|
        0 <= r < height && 0 <= c < width * 4 ==> #[trigger] flipped_cell(
            src,
            dst,
            width * 4,
            height,
            r,
            c,
        )
}

/// Reverse the row order of a raw RGBA pixel buffer.  The GPU's read-back
/// is bottom-left-origin; images are top-left-origin, so every export path
/// applies this exactly once.
pub fn flip_image_vertically_raw(data: &[u8], width: u32, height: u32) -> (flipped: Vec<u8>)
    requires
        data@.len() == width as int * height as int * 4,
        width as int * height as int * 4 <= usize::MAX as int,
    ensures
        rows_flipped(data@, flipped@, width as int, height as int),
{
    let ghost rs: int = width as int * 4;
    let ghost h: int = height as int;
    let mut flipped: Vec<u8> = Vec::new();
    let mut r: usize = 0;
    while r < height as usize
        invariant
            data@.len() == width as int * height as int * 4,
            width as int * height as int * 4 <= usize::MAX as int,
            rs == width as int * 4,
            h == height as int,
            r <= h,
            flipped@.len() == r as int * rs,
            forall|rr: int, cc: int|
                0 <= rr < r && 0 <= cc < rs ==> #[trigger] flipped_cell(
                    data@,
                    flipped@,
                    rs,
                    h,
                    rr,
                    cc,
                ),
        decreases h - r,
    {
        proof {
            assert(r as int * rs + rs <= h * rs) by (nonlinear_arith)
                requires
                    0 <= rs,
                    r as int + 1 <= h,
            ;
            assert(h * rs == width as int * height as int * 4) by (nonlinear_arith)
                requires
                    rs == width as int * 4,
                    h == height as int,
            ;
        }
        let row_size: usize = (width as usize) * 4;
        let src_row: usize = (height as usize) - 1 - r;
        proof {
            assert(src_row as int * rs + rs <= h * rs) by (nonlinear_arith)
                requires
                    0 <= rs,
                    src_row as int + 1 <= h,
            ;
        }
        let base: usize = src_row * row_size;
        let mut c: usize = 0;
        while c < row_size
            invariant
                data@.len() == width as int * height as int * 4,
                data@.len() <= usize::MAX as int,
                rs == width as int * 4,
                h == height as int,
                row_size == rs,
                r < h,
                base == (h - 1 - r as int) * rs,
                base + rs <= data@.len(),
                c <= rs,
                flipped@.len() == r as int * rs + c,
                forall|rr: int, cc: int|
                    0 <= rr < r && 0 <= cc < rs ==> #[trigger] flipped_cell(
                        data@,
                        flipped@,
                        rs,
                        h,
                        rr,
                        cc,
                    ),
                forall|cc: int|
                    0 <= cc < c ==> #[trigger] flipped_cell(data@, flipped@, rs, h, r as int, cc),
            decreases rs - c,
        {
            proof {
                assert(r as int * rs + c < h * rs) by (nonlinear_arith)
                    requires
                        0 <= c < rs,
                        0 <= r as int,
                        r as int + 1 <= h,
                ;
            }
            let ghost before = flipped@;
            flipped.push(data[base + c]);
            proof {
                assert forall|rr: int, cc: int|
                    0 <= rr < r && 0 <= cc < rs implies #[trigger] flipped_cell(
                    data@,
                    flipped@,
                    rs,
                    h,
                    rr,
                    cc,
                ) by {
                    assert(flipped_cell(data@, before, rs, h, rr, cc));
                    assert(0 <= rr * rs + cc < before.len()) by (nonlinear_arith)
                        requires
                            0 <= cc < rs,
                            0 <= rr < r as int,
                            0 <= c,
                            before.len() == r as int * rs + c,
                    ;
                    assert(flipped@[rr * rs + cc] == before[rr * rs + cc]);
                }
                assert forall|cc: int| 0 <= cc < c + 1 implies #[trigger] flipped_cell(
                    data@,
                    flipped@,
                    rs,
                    h,
                    r as int,
                    cc,
                ) by {
                    if cc < c {
                        assert(flipped_cell(data@, before, rs, h, r as int, cc));
                        assert(0 <= r as int * rs + cc < before.len()) by (nonlinear_arith)
                            requires
                                0 <= cc < c,
                                0 <= r as int,
                                0 <= rs,
                                before.len() == r as int * rs + c,
                        ;
                        assert(flipped@[r as int * rs + cc] == before[r as int * rs + cc]);
                    } else {
                        assert(flipped@[r as int * rs + c] == data@[base + c]);
                        assert((h - 1 - r as int) * rs + c == base + c);
                    }
                }
            }
            c = c + 1;
        }
        proof {
            assert(r as int * rs + rs == (r as int + 1) * rs) by (nonlinear_arith);
        }
        r = r + 1;
    }
    proof {
        assert(h * rs == data@.len()) by (nonlinear_arith)
            requires
                rs == width as int * 4,
                h == height as int,
                data@.len() == width as int * height as int * 4,
        ;
    }
    flipped
}

/// After the mandatory flip, row 0 of the output equals the read-back's
/// last row: what the shader drew at the top of the screen is the top row
/// of the exported image.
pub proof fn lemma_flip_top_row(src: Seq<u8>, dst: Seq<u8>, width: int, height: int, c: int)
    requires
        rows_flipped(src, dst, width, height),
        height >= 1,
        0 <= c < width * 4,
    ensures
        dst[c] == src[(height - 1) * (width * 4) + c],
{
    assert(flipped_cell(src, dst, width * 4, height, 0, c));
    assert(dst[0 * (width * 4) + c] == src[(height - 1 - 0) * (width * 4) + c]);
}

/// One off-screen capture, the common path of single-image export and of
/// every video frame: a transient framebuffer-and-texture pair is
/// created, the GPU layer draws the frame's pass plan into it and reads
/// the raw bottom-up pixels back, the pair is released again on every
/// path, and the rows are flipped exactly once.
///
/// `framebuffer_complete` is the driver's completeness verdict on the
/// target; when it is false the capture yields nothing but still releases
/// everything it created, so the ledger is unchanged on success and
/// failure alike — a failing frame can never leak the target or leave it
/// bound.
pub fn offscreen_capture(
    ledger: &mut ResourceLedger,
    framebuffer_complete: bool,
    raw_pixels: Vec<u8>,
    width: u32,
    height: u32,
) -> (r: Result<Vec<u8>, CoreError>)
    requires
        old(ledger).wf(),
        old(ledger).headroom(2),
        raw_pixels@.len() == width as int * height as int * 4,
        width as int * height as int * 4 <= usize::MAX as int,
    ensures
        final(ledger).wf(),
        final(ledger).live_set() == old(ledger).live_set(),
        match r {
            Ok(pixels) => framebuffer_complete && rows_flipped(
                raw_pixels@,
                pixels@,
                width as int,
                height as int,
            ),
            Err(e) => !framebuffer_complete && e == CoreError::FramebufferIncomplete,
        },
{
    let framebuffer = ledger.allocate();
    let texture = ledger.allocate();
    if !framebuffer_complete {
        ledger.release(texture);
        ledger.release(framebuffer);
        proof {
            assert(ledger.live_set() =~= old(ledger).live_set());
        }
        return Err(CoreError::FramebufferIncomplete);
    }
    let flipped = flip_image_vertically_raw(raw_pixels.as_slice(), width, height);
    ledger.release(texture);
    ledger.release(framebuffer);
    proof {
        assert(ledger.live_set() =~= old(ledger).live_set());
    }
    Ok(flipped)
}

/// The deterministic rendering instant of one export frame: frame `index`
/// of a sequence renders at `index / frame_rate` seconds, whatever the
/// machine's speed.  The division is left to the GPU layer, which works
/// in its own number format; the core fixes the exact ratio.
#[derive(Clone, Copy, Debug, PartialEq, Eq, Structural)]
pub struct FrameRequest {
    pub index: u32,
    pub frame_rate: u32,
}

/// The request an export session makes for frame `index`.
pub open spec fn spec_frame_request(index: u32, frame_rate: u32) -> FrameRequest {
    FrameRequest { index, frame_rate }
}

/// Probe gate for video export: the external encoder was probed once per
/// session with a version query, and without it the export fails before
/// any frame is rendered — there is no silent fallback to another output
/// format.
pub fn check_encoder(encoder_available: bool) -> (r: Result<(), CoreError>)
    ensures
        encoder_available <==> r is Ok,
        !encoder_available ==> r == Result::<(), CoreError>::Err(CoreError::EncoderUnavailable),
{
    if encoder_available {
        Ok(())
    } else {
        Err(CoreError::EncoderUnavailable)
    }
}

/// A running video export: `frame_count` frames at `frame_rate`, streamed
/// to the external encoder in frame order.
#[derive(Debug)]
pub struct VideoExportSession {
    pub width: u32,
    pub height: u32,
    pub frame_count: u32,
    pub frame_rate: u32,
    /// The next frame to render; everything before it has been rendered
    /// and written.
    pub next_frame: u32,
    /// A frame failed to render or to reach the encoder: the export
    /// stopped right there.
    pub aborted: bool,
}

impl VideoExportSession {
    /// The next frame to render.
    pub open spec fn next(self) -> u32 {
        self.next_frame
    }

    /// Did a frame failure abort the export?
    pub open spec fn is_aborted(self) -> bool {
        self.aborted
    }

    /// The request the session makes now: the next frame, at its exact
    /// deterministic time, until every frame is done or a failure stopped
    /// the run.
    pub open spec fn spec_current_request(self) -> Option<FrameRequest> {
        if !self.is_aborted() && self.next() < self.frame_count {
            Some(spec_frame_request(self.next(), self.frame_rate))
        } else {
            None
        }
    }

    /// Are all frames rendered and written?
    pub open spec fn spec_completed(self) -> bool {
        !self.is_aborted() && self.next() == self.frame_count
    }

    /// Start a video export.  The encoder must have been probed: without
    /// it the session fails as [`CoreError::EncoderUnavailable`] with no
    /// frame rendered; a probe-passing encoder that then fails to start
    /// fails the session as [`CoreError::EncoderLaunch`] with the
    /// launcher's message, likewise before any frame.
    pub fn start(
        encoder_available: bool,
        launch_error: Option<String>,
        width: u32,
        height: u32,
        frame_count: u32,
        frame_rate: u32,
    ) -> (r: Result<VideoExportSession, CoreError>)
        requires
            frame_rate >= 1,
        ensures
            match r {
                Ok(s) => {
                    &&& encoder_available
                    &&& launch_error is None
                    &&& s.width == width
                    &&& s.height == height
                    &&& s.frame_count == frame_count
                    &&& s.frame_rate == frame_rate
                    &&& s.next() == 0
                    &&& !s.is_aborted()
                },
                Err(e) => {
                    &&& !encoder_available ==> e == CoreError::EncoderUnavailable
                    &&& encoder_available ==> (launch_error matches Some(m) && e
                        == CoreError::EncoderLaunch(m))
                },
            },
    {
        if let Err(e) = check_encoder(encoder_available) {
            return Err(e);
        }
        match launch_error {
            Some(m) => Err(CoreError::EncoderLaunch(m)),
            None => Ok(
                VideoExportSession {
                    width,
                    height,
                    frame_count,
                    frame_rate,
                    next_frame: 0,
                    aborted: false,
                },
            ),
        }
    }

    /// Did the export run to the end: every frame rendered and written?
    pub fn is_completed(&self) -> (r: bool)
        ensures
            r == self.spec_completed(),
    {
        !self.aborted && self.next_frame == self.frame_count
    }

    /// The frame to render now, if any.
    pub fn current_request(&self) -> (r: Option<FrameRequest>)
        ensures
            r == self.spec_current_request(),
    {
        if !self.aborted && self.next_frame < self.frame_count {
            Some(FrameRequest { index: self.next_frame, frame_rate: self.frame_rate })
        } else {
            None
        }
    }

    /// Take the outcome of one frame: rendered (or not) and, if rendered,
    /// written to the encoder's input pipe (or not).  Success moves on to
    /// the next frame; any failure aborts the export immediately — no
    /// further frame is requested, the pipe is closed without waiting for
    /// the encoder to finish cleanly.
    pub fn record_frame_result(&mut self, render_ok: bool, write_ok: bool)
        requires
            old(self).spec_current_request() is Some,
        ensures
            final(self).width == old(self).width,
            final(self).height == old(self).height,
            final(self).frame_count == old(self).frame_count,
            final(self).frame_rate == old(self).frame_rate,
            render_ok && write_ok ==> {
                &&& !final(self).is_aborted()
                &&& final(self).next() == old(self).next() + 1
            },
            !(render_ok && write_ok) ==> {
                &&& final(self).is_aborted()
                &&& final(self).next() == old(self).next()
                &&& final(self).spec_current_request() is None
            },
    {
        if render_ok && write_ok {
            self.next_frame = self.next_frame + 1;
        } else {
            self.aborted = true;
        }
    }

    /// The progress line to publish before rendering the current frame,
    /// if this frame is on the coarse reporting interval; the text is the
    /// surface's.
    pub fn progress_update(&self, status: String) -> (p: Option<ExportProgress>)
        ensures
            match p {
                Some(pr) => {
                    &&& self.next() % PROGRESS_INTERVAL_FRAMES == 0
                    &&& pr.current_frame == self.next()
                    &&& pr.total_frames == self.frame_count
                    &&& pr.status == status
                },
                None => self.next() % PROGRESS_INTERVAL_FRAMES != 0,
            },
    {
        if self.next_frame % PROGRESS_INTERVAL_FRAMES == 0 {
            Some(
                ExportProgress {
                    current_frame: self.next_frame,
                    total_frames: self.frame_count,
                    status,
                },
            )
        } else {
            None
        }
    }
}

/// Frame times are deterministic and exact: while an export is running,
/// the frame it requests is exactly the one after those already written,
/// and its rendering instant is the ratio of its index to the frame
/// rate — frame `i` of a sequence at rate `f` renders at `i / f` seconds,
/// on every machine and at any rendering speed.
pub proof fn lemma_frame_times_deterministic(s: VideoExportSession)
    requires
        !s.is_aborted(),
        s.next() < s.frame_count,
    ensures
        s.spec_current_request() == Some(FrameRequest { index: s.next(), frame_rate: s.frame_rate }),
{
}

} // verus!

//! The frame lifecycle: one frame is begun, its common uniforms are
//! populated, render passes record into its token, and it is ended.

use vstd::prelude::*;
use vstd::bytes::{spec_u32_to_le_bytes, u32_to_le_bytes};

verus! {

/// The time payload that shaders read, sixteen bytes in all.
#[derive(Copy, Clone, PartialEq, Eq, Structural, Debug)]
pub struct TimeUBO {
    /// Milliseconds within the current second.
    pub millis: u32,
    /// Whole seconds of the clock.
    pub secs: u32,
    /// Milliseconds since the previous population.
    pub dt_ms: u32,
    /// The number of the frame.
    pub frame_id: u32,
}

/// `x` as a `u32`, or the largest `u32` where it does not fit.
pub open spec fn saturated(x: int) -> u32 {
    if x < 0 {
        0
    } else if x > u32::MAX {
        u32::MAX
    } else {
        x as u32
    }
}

/// The payload of frame `frame_id` at clock reading `now_ms`, when the
/// previous reading was `prev_ms`: the millisecond of the second, the whole
/// seconds, and the milliseconds since the previous reading, the last two
/// held at the largest `u32` where they exceed it.
pub open spec fn time_payload(prev_ms: u64, now_ms: u64, frame_id: u32) -> TimeUBO {
    TimeUBO {
        millis: (now_ms % 1000) as u32,
        secs: saturated(now_ms as int / 1000),
        dt_ms: saturated(now_ms - prev_ms),
        frame_id,
    }
}

/// The frame number that follows `frame_id`; it wraps to zero after the
/// largest `u32`.
pub open spec fn next_frame_id(frame_id: u32) -> u32 {
    if frame_id == u32::MAX {
        0
    } else {
        (frame_id + 1) as u32
    }
}

impl TimeUBO {
    /// The byte layout of the payload: the four fields in declaration order,
    /// each as four little-endian bytes.
    pub open spec fn layout(self) -> Seq<u8> {
        spec_u32_to_le_bytes(self.millis) + spec_u32_to_le_bytes(self.secs)
            + spec_u32_to_le_bytes(self.dt_ms) + spec_u32_to_le_bytes(self.frame_id)
    }

    /// The sixteen bytes that are written to the time uniform buffer.
    pub fn to_bytes(&self) -> (bytes: Vec<u8>)
        ensures
            bytes@ == self.layout(),
            bytes@.len() == 16,
    {
        let mut bytes = u32_to_le_bytes(self.millis);
        let mut secs = u32_to_le_bytes(self.secs);
        let mut dt_ms = u32_to_le_bytes(self.dt_ms);
        let mut frame_id = u32_to_le_bytes(self.frame_id);
        bytes.append(&mut secs);
        bytes.append(&mut dt_ms);
        bytes.append(&mut frame_id);
        bytes
    }
}

fn saturate(x: u64) -> (r: u32)
    ensures
        r == saturated(x as int),
{
    if x > u32::MAX as u64 {
        u32::MAX
    } else {
        x as u32
    }
}

/// The single-use token of one frame: it carries the command recorder and
/// the views of that frame from `begin_frame` to `end_frame`.
pub struct FrameCtx<T> {
    recorder: T,
    serial: u64,
}

impl<T> FrameCtx<T> {
    /// The command recorder and the colour and depth views of this frame.
    pub closed spec fn recorder_of(&self) -> T {
        self.recorder
    }

    /// Which begun frame of its `GpuState` the token stands for.
    pub closed spec fn serial(&self) -> u64 {
        self.serial
    }

    /// The command recorder and the views of this frame.
    pub fn recorder(&self) -> (r: &T)
        ensures
            *r == self.recorder_of(),
    {
        &self.recorder
    }

    /// The command recorder and the views of this frame, to record into.
    pub fn recorder_mut(&mut self) -> (r: &mut T)
        ensures
            *r == old(self).recorder_of(),
            final(self).recorder_of() == *final(r),
            final(self).serial() == old(self).serial(),
    {
        &mut self.recorder
    }
}

/// The state of the renderer between and during frames. It owns the GPU
/// resources `G` (device, surface, shared uniform buffers, depth view).
pub struct GpuState<G> {
    gpu: G,
    start_ms: u64,
    prev_ms: u64,
    frame_counter: u32,
    in_frame: bool,
    serial: u64,
}

impl<G> GpuState<G> {
    /// The device and surface owner and the shared resource set.
    pub closed spec fn gpu_of(&self) -> G {
        self.gpu
    }

    /// The clock reading at which the state was created.
    pub closed spec fn start_ms_of(&self) -> u64 {
        self.start_ms
    }

    /// The clock reading of the previous population.
    pub closed spec fn prev_ms_of(&self) -> u64 {
        self.prev_ms
    }

    /// The number that the next populated payload carries.
    pub closed spec fn frame_counter_of(&self) -> u32 {
        self.frame_counter
    }

    /// Whether a frame was begun and not yet ended.
    pub closed spec fn in_frame_of(&self) -> bool {
        self.in_frame
    }

    /// How many frames were begun so far, wrapping.
    pub closed spec fn serial_of(&self) -> u64 {
        self.serial
    }

    /// Whether `token` is the token of the frame that is under way.
    pub open spec fn owes<T>(&self, token: FrameCtx<T>) -> bool {
        self.in_frame_of() && token.serial() == self.serial_of()
    }

    /// A state that owns `gpu`, created at clock reading `now_ms`, with no
    /// frame under way.
    pub fn new(gpu: G, now_ms: u64) -> (state: Self)
        ensures
            state.gpu_of() == gpu,
            state.start_ms_of() == now_ms,
            state.prev_ms_of() == now_ms,
            state.frame_counter_of() == 0,
            !state.in_frame_of(),
    {
        GpuState { gpu, start_ms: now_ms, prev_ms: now_ms, frame_counter: 0, in_frame: false, serial: 0 }
    }

    /// The GPU resources that the state owns.
    pub fn gpu(&self) -> (g: &G)
        ensures
            *g == self.gpu_of(),
    {
        &self.gpu
    }

    /// The clock reading at which the state was created.
    pub fn start_ms(&self) -> (ms: u64)
        ensures
            ms == self.start_ms_of(),
    {
        self.start_ms
    }

    /// The clock reading of the previous population.
    pub fn prev_ms(&self) -> (ms: u64)
        ensures
            ms == self.prev_ms_of(),
    {
        self.prev_ms
    }

    /// The number that the next populated payload carries.
    pub fn frame_counter(&self) -> (n: u32)
        ensures
            n == self.frame_counter_of(),
    {
        self.frame_counter
    }

    /// Whether a frame was begun and not yet ended.
    pub fn in_frame(&self) -> (b: bool)
        ensures
            b == self.in_frame_of(),
    {
        self.in_frame
    }

    /// Whether `token` is the token of the frame that is under way.
    pub fn is_owed<T>(&self, token: &FrameCtx<T>) -> (b: bool)
        ensures
            b == self.owes(*token),
    {
        self.in_frame && token.serial == self.serial
    }

    /// Begins a frame: `acquire` takes the next presentable image and makes
    /// the recorder, and the token that carries them is returned.
    pub fn begin_frame<T, A: FnOnce(&G) -> T>(&mut self, acquire: A) -> (token: FrameCtx<T>)
        requires
            !old(self).in_frame_of(),
            acquire.requires((&old(self).gpu_of(),)),
        ensures
            final(self).owes(token),
            acquire.ensures((&old(self).gpu_of(),), token.recorder_of()),
            final(self).gpu_of() == old(self).gpu_of(),
            final(self).start_ms_of() == old(self).start_ms_of(),
            final(self).prev_ms_of() == old(self).prev_ms_of(),
            final(self).frame_counter_of() == old(self).frame_counter_of(),
    {
        let recorder = acquire(&self.gpu);
        self.serial = self.serial.wrapping_add(1);
        self.in_frame = true;
        FrameCtx { recorder, serial: self.serial }
    }

    /// Computes the time payload of clock reading `now_ms`, then advances the
    /// frame counter and remembers the reading.
    pub fn populate_common_buffers(&mut self, now_ms: u64) -> (payload: TimeUBO)
        ensures
            payload == time_payload(old(self).prev_ms_of(), now_ms, old(self).frame_counter_of()),
            final(self).frame_counter_of() == next_frame_id(old(self).frame_counter_of()),
            final(self).prev_ms_of() == now_ms,
            final(self).start_ms_of() == old(self).start_ms_of(),
            final(self).in_frame_of() == old(self).in_frame_of(),
            final(self).serial_of() == old(self).serial_of(),
            final(self).gpu_of() == old(self).gpu_of(),
    {
        let dt_ms = if now_ms >= self.prev_ms {
            saturate(now_ms - self.prev_ms)
        } else {
            0
        };
        let payload = TimeUBO {
            millis: (now_ms % 1000) as u32,
            secs: saturate(now_ms / 1000),
            dt_ms,
            frame_id: self.frame_counter,
        };
        self.frame_counter = self.frame_counter.wrapping_add(1);
        self.prev_ms = now_ms;
        payload
    }

    /// Ends the frame under way: the token is consumed, and `submit` sends
    /// its recorded commands and presents the image.
    pub fn end_frame<T, R, S: FnOnce(&G, T) -> R>(
        &mut self,
        frame_ctx: FrameCtx<T>,
        submit: S,
    ) -> (receipt: R)
        requires
            old(self).owes(frame_ctx),
            submit.requires((&old(self).gpu_of(), frame_ctx.recorder_of())),
        ensures
            !final(self).in_frame_of(),
            submit.ensures((&old(self).gpu_of(), frame_ctx.recorder_of()), receipt),
            final(self).gpu_of() == old(self).gpu_of(),
            final(self).start_ms_of() == old(self).start_ms_of(),
            final(self).prev_ms_of() == old(self).prev_ms_of(),
            final(self).frame_counter_of() == old(self).frame_counter_of(),
    {
        let receipt = submit(&self.gpu, frame_ctx.recorder);
        self.in_frame = false;
        receipt
    }
}

} // verus!

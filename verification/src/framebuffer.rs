//! Framebuffer dispatcher: drains emulator-produced video frames from a
//! non-blocking channel each tick and turns them into an ordered sequence of
//! host outputs, announcing geometry only when it changes.
//!
//! The host outputs are returned as [`VideoEvent`] values in the exact order
//! the foreign calls must be made; the adapter that owns the boundary
//! performs them one by one.

use vstd::prelude::*;

verus! {

use crate::channel::channel_drain;

/// One video frame as produced by the emulation core: a pixel buffer with
/// its resolution.
pub struct DisplayFrame {
    pub width: u16,
    pub height: u16,
    pub data: Vec<u8>,
}

/// One host output of the dispatcher, in the order it must be performed.
pub enum VideoEvent {
    /// Announce a new display geometry to the host.
    Geometry(u32, u32),
    /// Transfer a frame's pixel data to the host.
    Blit(Vec<u8>),
}

/// The outputs produced for one frame arriving while the previously
/// dispatched frame had dimensions `(prev_w, prev_h)`: a geometry notice
/// first when either dimension differs, then the pixel payload.
pub open spec fn frame_events(prev_w: u16, prev_h: u16, frame: DisplayFrame) -> Seq<VideoEvent> {
    if frame.width != prev_w || frame.height != prev_h {
        seq![
            VideoEvent::Geometry(frame.width as u32, frame.height as u32),
            VideoEvent::Blit(frame.data),
        ]
    } else {
        seq![VideoEvent::Blit(frame.data)]
    }
}

/// The outputs produced for a whole sequence of frames dispatched in order,
/// starting from remembered dimensions `(prev_w, prev_h)`.
pub open spec fn dispatch_events(prev_w: u16, prev_h: u16, frames: Seq<DisplayFrame>) -> Seq<
    VideoEvent,
>
    decreases frames.len(),
{
    if frames.len() == 0 {
        Seq::empty()
    } else {
        frame_events(prev_w, prev_h, frames[0]) + dispatch_events(
            frames[0].width,
            frames[0].height,
            frames.skip(1),
        )
    }
}

/// The dimensions remembered after dispatching `frames` starting from
/// `(prev_w, prev_h)`.
pub open spec fn dims_after(prev_w: u16, prev_h: u16, frames: Seq<DisplayFrame>) -> (u16, u16) {
    if frames.len() == 0 {
        (prev_w, prev_h)
    } else {
        (frames.last().width, frames.last().height)
    }
}

/// Every geometry notice is immediately followed by a pixel payload; in
/// particular no notice is emitted without its frame, and none comes last.
pub open spec fn geometry_paired(events: Seq<VideoEvent>) -> bool {
    forall|i: int|
        0 <= i < events.len() && (#[trigger] events[i]) is Geometry ==> i + 1 < events.len()
            && events[i + 1] is Blit
}

/// Number of geometry notices in a sequence of outputs.
pub open spec fn geometry_count(events: Seq<VideoEvent>) -> nat
    decreases events.len(),
{
    if events.len() == 0 {
        0nat
    } else {
        (if events[0] is Geometry {
            1nat
        } else {
            0nat
        }) + geometry_count(events.skip(1))
    }
}

/// Number of frames in the sequence whose dimensions differ from their
/// predecessor's (the first frame compared against `(prev_w, prev_h)`).
pub open spec fn change_count(prev_w: u16, prev_h: u16, frames: Seq<DisplayFrame>) -> nat
    decreases frames.len(),
{
    if frames.len() == 0 {
        0nat
    } else {
        (if frames[0].width != prev_w || frames[0].height != prev_h {
            1nat
        } else {
            0nat
        }) + change_count(frames[0].width, frames[0].height, frames.skip(1))
    }
}

proof fn lemma_geometry_count_concat(a: Seq<VideoEvent>, b: Seq<VideoEvent>)
    ensures
        geometry_count(a + b) == geometry_count(a) + geometry_count(b),
    decreases a.len(),
{
    if a.len() == 0 {
        assert(a + b =~= b);
    } else {
        assert((a + b).skip(1) =~= a.skip(1) + b);
        lemma_geometry_count_concat(a.skip(1), b);
    }
}

proof fn lemma_paired_concat(a: Seq<VideoEvent>, b: Seq<VideoEvent>)
    requires
        geometry_paired(a),
        geometry_paired(b),
    ensures
        geometry_paired(a + b),
{
    assert forall|i: int| 0 <= i < (a + b).len() && (#[trigger] (a + b)[i]) is Geometry implies i
        + 1 < (a + b).len() && (a + b)[i + 1] is Blit by {
        if i < a.len() {
            assert(a[i] is Geometry);
        } else {
            assert(b[i - a.len()] is Geometry);
        }
    }
}

/// Law: dispatching a sequence of frames emits exactly one geometry notice
/// per frame whose dimensions differ from the previously dispatched frame's
/// (the first compared against the starting dimensions), and every notice
/// immediately precedes the corresponding pixel payload.
pub proof fn lemma_geometry_notices(prev_w: u16, prev_h: u16, frames: Seq<DisplayFrame>)
    ensures
        geometry_count(dispatch_events(prev_w, prev_h, frames)) == change_count(
            prev_w,
            prev_h,
            frames,
        ),
        geometry_paired(dispatch_events(prev_w, prev_h, frames)),
    decreases frames.len(),
{
    if frames.len() == 0 {
    } else {
        let head = frames[0];
        let chunk = frame_events(prev_w, prev_h, head);
        let rest = dispatch_events(head.width, head.height, frames.skip(1));
        lemma_geometry_notices(head.width, head.height, frames.skip(1));
        lemma_geometry_count_concat(chunk, rest);
        reveal_with_fuel(geometry_count, 4);
        if head.width != prev_w || head.height != prev_h {
            assert(chunk.skip(1) =~= seq![VideoEvent::Blit(head.data)]);
            assert(chunk.skip(1).skip(1) =~= Seq::<VideoEvent>::empty());
            assert(geometry_count(chunk) == 1);
        } else {
            assert(chunk.skip(1) =~= Seq::<VideoEvent>::empty());
            assert(geometry_count(chunk) == 0);
        }
        assert(geometry_paired(chunk));
        lemma_paired_concat(chunk, rest);
    }
}

/// Appending one frame to a dispatched sequence appends that frame's own
/// outputs, computed against the dimensions remembered so far.
proof fn lemma_dispatch_snoc(prev_w: u16, prev_h: u16, frames: Seq<DisplayFrame>, f: DisplayFrame)
    ensures
        dispatch_events(prev_w, prev_h, frames.push(f)) == dispatch_events(prev_w, prev_h, frames)
            + frame_events(
            dims_after(prev_w, prev_h, frames).0,
            dims_after(prev_w, prev_h, frames).1,
            f,
        ),
    decreases frames.len(),
{
    if frames.len() == 0 {
        assert(frames.push(f)[0] == f);
        assert(frames.push(f).skip(1) =~= Seq::<DisplayFrame>::empty());
        assert(dispatch_events(f.width, f.height, frames.push(f).skip(1)) =~= Seq::<
            VideoEvent,
        >::empty());
        assert(dispatch_events(prev_w, prev_h, frames.push(f)) =~= frame_events(
            prev_w,
            prev_h,
            f,
        ));
        assert(dispatch_events(prev_w, prev_h, frames) + frame_events(prev_w, prev_h, f)
            =~= frame_events(prev_w, prev_h, f));
    } else {
        let head = frames[0];
        assert(frames.push(f)[0] == head);
        assert(frames.push(f).skip(1) =~= frames.skip(1).push(f));
        lemma_dispatch_snoc(head.width, head.height, frames.skip(1), f);
        assert(dims_after(head.width, head.height, frames.skip(1)) == dims_after(
            prev_w,
            prev_h,
            frames,
        ));
        assert(dispatch_events(prev_w, prev_h, frames.push(f)) =~= dispatch_events(
            prev_w,
            prev_h,
            frames,
        ) + frame_events(dims_after(prev_w, prev_h, frames).0, dims_after(prev_w, prev_h, frames).1, f));
    }
}

/// Dispatcher state: the frame channel's receiving end and the dimensions of
/// the last dispatched frame (zero before any frame was dispatched).
pub struct FrameSender {
    pub receiver: crossbeam_channel::Receiver<DisplayFrame>,
    pub current_width: u16,
    pub current_height: u16,
}

impl FrameSender {
    /// A dispatcher over `receiver` that has dispatched nothing yet.
    pub fn new(receiver: crossbeam_channel::Receiver<DisplayFrame>) -> (sender: FrameSender)
        ensures
            sender.current_width == 0,
            sender.current_height == 0,
    {
        FrameSender { receiver, current_width: 0, current_height: 0 }
    }

    /// Dispatches one frame: a geometry notice first if either dimension
    /// differs from the last dispatched frame's, then the pixel payload.
    pub fn send_frame(&mut self, frame: DisplayFrame) -> (events: Vec<VideoEvent>)
        ensures
            events@ == frame_events(old(self).current_width, old(self).current_height, frame),
            final(self).current_width == frame.width,
            final(self).current_height == frame.height,
            final(self).receiver == old(self).receiver,
    {
        let mut events: Vec<VideoEvent> = Vec::new();
        if frame.width != self.current_width || frame.height != self.current_height {
            events.push(VideoEvent::Geometry(frame.width as u32, frame.height as u32));
            self.current_width = frame.width;
            self.current_height = frame.height;
        }
        events.push(VideoEvent::Blit(frame.data));
        proof {
            assert(events@ =~= frame_events(old(self).current_width, old(self).current_height, frame));
        }
        events
    }

    /// Drains every currently available frame from the channel, never
    /// blocking, and dispatches each in arrival order. The result is the
    /// dispatch sequence of the drained frames; geometry notices appear
    /// exactly at dimension changes and each directly precedes its payload.
    pub fn tick(&mut self) -> (events: Vec<VideoEvent>)
        ensures
            exists|frames: Seq<DisplayFrame>|
                {
                    &&& events@ == dispatch_events(
                        old(self).current_width,
                        old(self).current_height,
                        frames,
                    )
                    &&& (
                    final(self).current_width,
                    final(self).current_height,
                    ) == dims_after(old(self).current_width, old(self).current_height, frames)
                },
            geometry_paired(events@),
    {
        let ghost w0 = self.current_width;
        let ghost h0 = self.current_height;
        let ghost mut frames: Seq<DisplayFrame> = Seq::empty();
        let mut pending = channel_drain(&self.receiver);
        let mut events: Vec<VideoEvent> = Vec::new();
        while pending.len() > 0
            invariant
                self.receiver == old(self).receiver,
                events@ == dispatch_events(w0, h0, frames),
                (self.current_width, self.current_height) == dims_after(w0, h0, frames),
                w0 == old(self).current_width,
                h0 == old(self).current_height,
            decreases pending.len(),
        {
            let frame = pending.remove(0);
            let ghost f = frame;
            let mut produced = self.send_frame(frame);
            proof {
                lemma_dispatch_snoc(w0, h0, frames, f);
            }
            events.append(&mut produced);
            proof {
                frames = frames.push(f);
            }
        }
        proof {
            lemma_geometry_notices(w0, h0, frames);
        }
        events
    }
}

} // verus!

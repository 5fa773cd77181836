use vstd::arithmetic::div_mod::{lemma_mod_self_0, lemma_small_mod};
use vstd::prelude::*;

verus! {

/// What the controller knows between calls.
pub struct FrameSyncView {
    /// Number of frame slots, each with its own semaphores and fence.
    pub frames_in_flight: usize,
    /// The slot the next frame uses.
    pub frame: usize,
    /// For each slot, whether its fence is known to have signaled.
    pub slot_signaled: Seq<bool>,
    /// For each swapchain image, the slot whose fence guards it, if any.
    pub guards: Seq<Option<usize>>,
    /// Whether the window was resized since the swapchain was last built.
    pub resize_pending: bool,
}

/// Why a frame may not be submitted.
#[derive(Clone, Copy, Debug, PartialEq, Eq, Structural)]
pub enum FrameError {
    /// The swapchain has no image of that index.
    ImageOutOfRange,
    /// The fence that guards the image has not been seen to signal.
    ImageInFlight,
    /// The fence of the current slot has not been seen to signal.
    SlotInFlight,
}

/// The frame synchronisation controller: cycles through a fixed number of
/// frame slots and tracks which slot's fence guards each swapchain image, so
/// that no frame is submitted against an image or a slot whose previous work
/// may still be running.
///
/// Each frame: wait on the slot's fence (`current_frame`, then
/// `fence_signaled`); acquire an image; wait on the fence that
/// `image_fence_to_wait` names, if any; `submit`; present; `finish_frame`,
/// which says whether to rebuild the swapchain (then `swapchain_recreated`).
pub struct FrameSync {
    frames_in_flight: usize,
    frame: usize,
    slot_signaled: Vec<bool>,
    images_in_flight: Vec<Option<usize>>,
    resized: bool,
}

/// `n` slots whose fences have all signaled.
pub open spec fn all_signaled(n: nat) -> Seq<bool> {
    Seq::new(n, |i: int| true)
}

/// `n` swapchain images that no fence guards.
pub open spec fn no_guards(n: nat) -> Seq<Option<usize>> {
    Seq::new(n, |i: int| None)
}

impl View for FrameSync {
    type V = FrameSyncView;

    closed spec fn view(&self) -> FrameSyncView {
        FrameSyncView {
            frames_in_flight: self.frames_in_flight,
            frame: self.frame,
            slot_signaled: self.slot_signaled@,
            guards: self.images_in_flight@,
            resize_pending: self.resized,
        }
    }
}

impl FrameSyncView {
    /// The controller's invariant: the current slot exists, there is one
    /// fence flag per slot, and every guard names an existing slot.
    pub open spec fn wf(self) -> bool {
        &&& self.frames_in_flight >= 1
        &&& self.frame < self.frames_in_flight
        &&& self.slot_signaled.len() == self.frames_in_flight
        &&& forall|i: int|
            0 <= i < self.guards.len() ==> (#[trigger] self.guards[i] matches Some(s) ==> s
                < self.frames_in_flight)
    }

    /// Whether a frame in the current slot may target `image`: the image
    /// exists, the slot's own fence has signaled, and the image is either
    /// unguarded or guarded by a fence that has signaled.
    pub open spec fn may_submit(self, image: int) -> bool {
        &&& 0 <= image < self.guards.len()
        &&& self.slot_signaled[self.frame as int]
        &&& match self.guards[image] {
            None => true,
            Some(s) => self.slot_signaled[s as int],
        }
    }

    /// The state after a frame in the current slot is submitted against
    /// `image`: the image is guarded by the slot's fence, which is reset.
    pub open spec fn after_submit(self, image: int) -> FrameSyncView {
        FrameSyncView {
            slot_signaled: self.slot_signaled.update(self.frame as int, false),
            guards: self.guards.update(image, Some(self.frame)),
            ..self
        }
    }
}

/// A submitted image stays claimed: once a frame is submitted against
/// `image`, no further frame may target it (from any slot) until the fence
/// of the slot that submitted it is seen to signal.
pub proof fn lemma_submitted_image_refused(v: FrameSyncView, image: int, next_frame: usize)
    requires
        v.wf(),
        v.may_submit(image),
        next_frame < v.frames_in_flight,
    ensures
        !(FrameSyncView { frame: next_frame, ..v.after_submit(image) }).may_submit(image),
{
}

impl FrameSync {
    /// A controller with `frames_in_flight` slots, whose fences start
    /// signaled, and `image_count` unguarded swapchain images.
    pub fn new(frames_in_flight: usize, image_count: usize) -> (r: FrameSync)
        requires
            frames_in_flight >= 1,
        ensures
            r@.wf(),
            r@ == (FrameSyncView {
                frames_in_flight,
                frame: 0,
                slot_signaled: all_signaled(frames_in_flight as nat),
                guards: no_guards(image_count as nat),
                resize_pending: false,
            }),
    {
        let mut slot_signaled: Vec<bool> = Vec::new();
        let mut s: usize = 0;
        while s < frames_in_flight
            invariant
                s <= frames_in_flight,
                slot_signaled@ =~= all_signaled(s as nat),
            decreases frames_in_flight - s,
        {
            slot_signaled.push(true);
            s += 1;
        }
        let images_in_flight = Self::unguarded(image_count);
        FrameSync { frames_in_flight, frame: 0, slot_signaled, images_in_flight, resized: false }
    }

    fn unguarded(image_count: usize) -> (r: Vec<Option<usize>>)
        ensures
            r@ == no_guards(image_count as nat),
    {
        let mut r: Vec<Option<usize>> = Vec::new();
        let mut i: usize = 0;
        while i < image_count
            invariant
                i <= image_count,
                r@ =~= no_guards(i as nat),
            decreases image_count - i,
        {
            r.push(None);
            i += 1;
        }
        r
    }

    /// The slot of the frame being prepared; the host waits on its fence
    /// before anything else.
    pub fn current_frame(&self) -> (r: usize)
        ensures
            r == self@.frame,
    {
        self.frame
    }

    /// Number of frame slots.
    pub fn frames_in_flight(&self) -> (r: usize)
        ensures
            r == self@.frames_in_flight,
    {
        self.frames_in_flight
    }

    /// Number of swapchain images tracked.
    pub fn image_count(&self) -> (r: usize)
        ensures
            r == self@.guards.len(),
    {
        self.images_in_flight.len()
    }

    /// The slot whose fence guards `image`, if any.
    pub fn guard(&self, image: usize) -> (r: Option<usize>)
        requires
            image < self@.guards.len(),
        ensures
            r == self@.guards[image as int],
    {
        self.images_in_flight[image]
    }

    /// Records that the host saw the fence of `slot` signal.
    pub fn fence_signaled(&mut self, slot: usize)
        requires
            old(self)@.wf(),
            slot < old(self)@.frames_in_flight,
        ensures
            final(self)@.wf(),
            final(self)@ == (FrameSyncView {
                slot_signaled: old(self)@.slot_signaled.update(slot as int, true),
                ..old(self)@
            }),
    {
        self.slot_signaled.set(slot, true);
    }

    /// The slot whose fence the host must wait on before a frame may target
    /// `image`: the image's guard, unless that fence is already known to have
    /// signaled.
    pub fn image_fence_to_wait(&self, image: usize) -> (r: Option<usize>)
        requires
            self@.wf(),
            image < self@.guards.len(),
        ensures
            r == match self@.guards[image as int] {
                Some(s) => if self@.slot_signaled[s as int] {
                    None
                } else {
                    Some(s)
                },
                None => None,
            },
    {
        match self.images_in_flight[image] {
            Some(s) => if self.slot_signaled[s] {
                None
            } else {
                Some(s)
            },
            None => None,
        }
    }

    /// Claims `image` for the frame in the current slot, just before its
    /// command buffer is submitted with the slot's fence: the image becomes
    /// guarded by that fence, which is no longer signaled. Returns the slot.
    ///
    /// Refuses when the image does not exist, when the slot's fence has not
    /// signaled, or when the image's guarding fence has not signaled.
    pub fn submit(&mut self, image: usize) -> (r: Result<usize, FrameError>)
        requires
            old(self)@.wf(),
        ensures
            final(self)@.wf(),
            r is Ok <==> old(self)@.may_submit(image as int),
            r matches Ok(slot) ==> slot == old(self)@.frame && final(self)@ == old(
                self,
            )@.after_submit(image as int),
            r matches Err(e) ==> final(self)@ == old(self)@ && (e == FrameError::ImageOutOfRange
                <==> image >= old(self)@.guards.len()) && (e == FrameError::SlotInFlight <==> (
            image < old(self)@.guards.len() && !old(self)@.slot_signaled[old(self)@.frame as int]))
                && (e == FrameError::ImageInFlight <==> (image < old(self)@.guards.len()
                && old(self)@.slot_signaled[old(self)@.frame as int] && !old(self)@.may_submit(
                image as int,
            ))),
    {
        if image >= self.images_in_flight.len() {
            return Err(FrameError::ImageOutOfRange);
        }
        let slot = self.frame;
        if !self.slot_signaled[slot] {
            return Err(FrameError::SlotInFlight);
        }
        match self.images_in_flight[image] {
            Some(s) => {
                if !self.slot_signaled[s] {
                    return Err(FrameError::ImageInFlight);
                }
            },
            None => {},
        }
        self.images_in_flight.set(image, Some(slot));
        self.slot_signaled.set(slot, false);
        Ok(slot)
    }

    /// Records a window resize; the swapchain is rebuilt after the next
    /// present.
    pub fn notify_resized(&mut self)
        requires
            old(self)@.wf(),
        ensures
            final(self)@.wf(),
            final(self)@ == (FrameSyncView { resize_pending: true, ..old(self)@ }),
    {
        self.resized = true;
    }

    /// Ends the frame after its present: moves on to the next slot and says
    /// whether the swapchain must be rebuilt, which it must when the present
    /// reported it stale or a resize is pending. The pending resize is
    /// consumed.
    pub fn finish_frame(&mut self, present_stale: bool) -> (recreate: bool)
        requires
            old(self)@.wf(),
        ensures
            final(self)@.wf(),
            recreate == (present_stale || old(self)@.resize_pending),
            final(self)@ == (FrameSyncView {
                frame: ((old(self)@.frame + 1) % old(self)@.frames_in_flight as int) as usize,
                resize_pending: false,
                ..old(self)@
            }),
    {
        let recreate = present_stale || self.resized;
        proof {
            let n = self.frames_in_flight as int;
            if self.frame + 1 < n {
                lemma_small_mod((self.frame + 1) as nat, n as nat);
            } else {
                lemma_mod_self_0(n);
            }
        }
        self.resized = false;
        self.frame = if self.frame + 1 == self.frames_in_flight {
            0
        } else {
            self.frame + 1
        };
        recreate
    }

    /// Records that the swapchain was rebuilt with `image_count` images after
    /// the device went idle: every fence has signaled and no image is
    /// guarded.
    pub fn swapchain_recreated(&mut self, image_count: usize)
        requires
            old(self)@.wf(),
        ensures
            final(self)@.wf(),
            final(self)@ == (FrameSyncView {
                slot_signaled: all_signaled(old(self)@.frames_in_flight as nat),
                guards: no_guards(image_count as nat),
                ..old(self)@
            }),
    {
        let mut s: usize = 0;
        while s < self.frames_in_flight
            invariant
                self@.wf(),
                s <= self@.frames_in_flight,
                self@.frames_in_flight == old(self)@.frames_in_flight,
                self@.frame == old(self)@.frame,
                self@.guards == old(self)@.guards,
                self@.resize_pending == old(self)@.resize_pending,
                forall|i: int| 0 <= i < s ==> self@.slot_signaled[i],
            decreases self@.frames_in_flight - s,
        {
            self.slot_signaled.set(s, true);
            s += 1;
        }
        assert(self@.slot_signaled =~= all_signaled(self@.frames_in_flight as nat));
        self.images_in_flight = Self::unguarded(image_count);
    }
}

} // verus!

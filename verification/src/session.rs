use vstd::prelude::*;

verus! {

/// Per-frame parameters mirrored into the GPU-visible uniform block.
///
/// The shading program consumes one uniform block
/// `{ size: vec2<float32>, frame_index: uint32, pad: uint32 }` bound at slot 0.
/// `width` and `height` are the pixel dimensions the host converts to the two
/// floating-point `size` components when it writes the buffer; `frame_index`
/// is written as-is.
#[derive(Clone, Copy, Debug, PartialEq, Eq)]
pub struct FrameParams {
    pub width: u32,
    pub height: u32,
    pub frame_index: u32,
}

/// The surface session: the state behind the presentable surface.
///
/// `width` and `height` are the configured surface size in pixels (both at
/// least 1, so a degenerate surface is never configured); `frame` counts the
/// render calls issued since creation, wrapping on overflow. The uniform
/// block mirrors exactly these three values at all times.
#[derive(Clone, Copy, Debug, PartialEq, Eq)]
pub struct State {
    pub width: u32,
    pub height: u32,
    pub frame: u32,
}

impl State {
    /// Both configured dimensions are at least 1.
    pub open spec fn wf(self) -> bool {
        self.width >= 1 && self.height >= 1
    }

    /// The session as created for a window of the given pixel size: each
    /// dimension floored to at least 1, frame counter at 0.
    pub open spec fn created(width: u32, height: u32) -> State {
        State {
            width: if width == 0 { 1u32 } else { width },
            height: if height == 0 { 1u32 } else { height },
            frame: 0u32,
        }
    }

    /// The frame counter after one render call: incremented by one, wrapping
    /// to 0 at the representable maximum.
    pub open spec fn next_frame(f: u32) -> u32 {
        if f == u32::MAX { 0u32 } else { (f + 1) as u32 }
    }

    /// The session after `resize(w, h)`: unchanged when either dimension is
    /// 0, otherwise reconfigured to exactly (w, h) with the frame counter
    /// kept.
    pub open spec fn resized(self, w: u32, h: u32) -> State {
        if w == 0 || h == 0 {
            self
        } else {
            State { width: w, height: h, frame: self.frame }
        }
    }

    /// The session after one render call: only the frame counter advances.
    pub open spec fn advanced(self) -> State {
        State { width: self.width, height: self.height, frame: Self::next_frame(self.frame) }
    }

    /// The uniform-block contents this session writes to the GPU buffer.
    pub open spec fn params(self) -> FrameParams {
        FrameParams { width: self.width, height: self.height, frame_index: self.frame }
    }

    /// Creates the session for a window of the given pixel size. Each
    /// dimension is floored to at least 1 to avoid a degenerate surface; the
    /// frame counter starts at 0.
    pub fn new(width: u32, height: u32) -> (s: State)
        ensures
            s == State::created(width, height),
            s.frame == 0,
            s.wf(),
    {
        State {
            width: if width == 0 { 1 } else { width },
            height: if height == 0 { 1 } else { height },
            frame: 0,
        }
    }

    /// Updates the configured surface size. A no-op when either dimension is
    /// 0 (transient zero-size events during minimization must not produce a
    /// degenerate surface); otherwise stores exactly (w, h) and leaves the
    /// frame counter unchanged. Safe to call repeatedly and redundantly.
    pub fn resize(&mut self, w: u32, h: u32)
        ensures
            *final(self) == old(self).resized(w, h),
            (w == 0 || h == 0) ==> *final(self) == *old(self),
            (w >= 1 && h >= 1) ==> final(self).width == w && final(self).height == h,
            final(self).frame == old(self).frame,
            old(self).wf() ==> final(self).wf(),
    {
        if w == 0 || h == 0 {
            return;
        }
        self.width = w;
        self.height = h;
    }

    /// Advances the frame counter by one (wrapping at the representable
    /// maximum back to 0) and returns the uniform-block contents for the
    /// frame now to be rendered: the current configured size and the new
    /// frame index.
    pub fn render(&mut self) -> (p: FrameParams)
        ensures
            *final(self) == old(self).advanced(),
            p == final(self).params(),
            final(self).frame == State::next_frame(old(self).frame),
            old(self).frame < u32::MAX ==> final(self).frame == old(self).frame + 1,
            old(self).frame == u32::MAX ==> final(self).frame == 0,
            final(self).width == old(self).width,
            final(self).height == old(self).height,
            old(self).wf() ==> final(self).wf(),
    {
        self.frame = if self.frame == u32::MAX { 0 } else { self.frame + 1 };
        FrameParams { width: self.width, height: self.height, frame_index: self.frame }
    }
}

/// Law: after a resize to (w, h) with both dimensions at least 1, the next
/// render call observes uniform parameters whose size equals exactly (w, h),
/// and a frame index advanced by one from the session's counter.
pub proof fn lemma_params_after_resize(s: State, w: u32, h: u32)
    requires
        w >= 1,
        h >= 1,
    ensures
        s.resized(w, h).advanced().params().width == w,
        s.resized(w, h).advanced().params().height == h,
        s.resized(w, h).advanced().params().frame_index == State::next_frame(s.frame),
{
}

/// Picks the index of the color format to configure the surface with, given
/// for each advertised format whether it is sRGB-encoded: the first
/// sRGB-encoded format if the surface advertises one, else the first
/// advertised format. Returns None exactly when no format is advertised.
pub fn choose_format(srgb: &Vec<bool>) -> (r: Option<usize>)
    ensures
        (r is None) <==> srgb@.len() == 0,
        r matches Some(i) ==> i < srgb@.len(),
        (exists|j: int| 0 <= j < srgb@.len() && srgb@[j]) ==> (r matches Some(i)
            && srgb@[i as int] && (forall|j: int| 0 <= j < i ==> !srgb@[j])),
        (srgb@.len() > 0 && (forall|j: int| 0 <= j < srgb@.len() ==> !srgb@[j]))
            ==> r == Some(0usize),
{
    let n = srgb.len();
    let mut k: usize = 0;
    while k < n
        invariant
            n == srgb@.len(),
            k <= n,
            forall|j: int| 0 <= j < k ==> !srgb@[j],
        decreases n - k,
    {
        if srgb[k] {
            return Some(k);
        }
        k += 1;
    }
    if n == 0 {
        None
    } else {
        Some(0)
    }
}

} // verus!

//! Lifecycle of the image that the decoder writes and the renderer samples.
//!
//! The image type is left to the caller: this module decides when a new
//! image replaces the current one, when the renderer must wait for the
//! decoder, and when a replaced image may be destroyed.
use vstd::prelude::*;

verus! {

/// Frames for which a replaced image is kept before it is destroyed. A
/// submission still in flight is assumed to be done with it by then.
pub const DESTROY_AFTER_NUM_FRAMES: u32 = 60;

/// A replaced image with the number of frames since its replacement.
pub struct Retired<T> {
    pub image: T,
    pub age: u32,
}

/// What a shared texture is, as far as its lifecycle goes.
pub struct TextureState<T> {
    pub image: T,
    pub width: u32,
    pub height: u32,
    /// The decoder has written the current image at least once.
    pub ready: bool,
    /// The decoder has written since the renderer last waited for it.
    pub wait_pending: bool,
    pub pending: Option<(u32, u32)>,
    pub garbage: Seq<Retired<T>>,
}

/// Whether a request for a `w` by `h` image changes anything.
pub open spec fn resize_effective<T>(s: TextureState<T>, w: u32, h: u32) -> bool {
    (w != s.width || h != s.height) && w != 0 && h != 0
}

pub open spec fn request_step<T>(s: TextureState<T>, w: u32, h: u32) -> TextureState<T> {
    if resize_effective(s, w, h) {
        TextureState { pending: Some((w, h)), ..s }
    } else {
        s
    }
}

/// The current image replaced by `image`, at the size that was requested.
pub open spec fn resize_step<T>(s: TextureState<T>, image: T) -> TextureState<T> {
    TextureState {
        image,
        width: s.pending.unwrap().0,
        height: s.pending.unwrap().1,
        ready: false,
        wait_pending: false,
        pending: None,
        garbage: s.garbage.push(Retired { image: s.image, age: 0 }),
    }
}

pub open spec fn before_consume_step<T>(s: TextureState<T>) -> TextureState<T> {
    TextureState { wait_pending: false, ..s }
}

/// Replaced images after one more frame: each ages by one, and those past the
/// grace period are gone.
pub open spec fn survivors<T>(g: Seq<Retired<T>>) -> Seq<Retired<T>>
    decreases g.len(),
{
    if g.len() == 0 {
        Seq::empty()
    } else if g.last().age < DESTROY_AFTER_NUM_FRAMES {
        survivors(g.drop_last()).push(Retired { image: g.last().image, age: (g.last().age + 1) as u32 })
    } else {
        survivors(g.drop_last())
    }
}

/// Replaced images whose grace period ends with this frame.
pub open spec fn expired<T>(g: Seq<Retired<T>>) -> Seq<T>
    decreases g.len(),
{
    if g.len() == 0 {
        Seq::empty()
    } else if g.last().age < DESTROY_AFTER_NUM_FRAMES {
        expired(g.drop_last())
    } else {
        expired(g.drop_last()).push(g.last().image)
    }
}

pub open spec fn after_consume_step<T>(s: TextureState<T>) -> TextureState<T> {
    TextureState { garbage: survivors(s.garbage), ..s }
}

pub open spec fn produce_step<T>(s: TextureState<T>, drew: bool) -> TextureState<T> {
    TextureState { ready: s.ready || drew, wait_pending: true, ..s }
}

/// The image that the decoder writes into and the renderer samples, with the
/// images it replaced that are not yet destroyed.
pub struct SharedTexture<T> {
    image: T,
    width: u32,
    height: u32,
    ready: bool,
    gl_did_draw: bool,
    garbage: Vec<Retired<T>>,
    resize_requested: Option<(u32, u32)>,
}

impl<T> View for SharedTexture<T> {
    type V = TextureState<T>;

    closed spec fn view(&self) -> TextureState<T> {
        TextureState {
            image: self.image,
            width: self.width,
            height: self.height,
            ready: self.ready,
            wait_pending: self.gl_did_draw,
            pending: self.resize_requested,
            garbage: self.garbage@,
        }
    }
}

impl<T> TextureState<T> {
    /// The size is never zero, a pending size differs from the current one,
    /// and no replaced image is older than the grace period.
    pub open spec fn wf(&self) -> bool {
        &&& self.width > 0
        &&& self.height > 0
        &&& self.pending matches Some((w, h)) ==> resize_effective(*self, w, h)
        &&& forall|i: int|
            0 <= i < self.garbage.len() ==> (#[trigger] self.garbage[i]).age
                <= DESTROY_AFTER_NUM_FRAMES
    }
}

impl<T> SharedTexture<T> {
    /// A shared texture over a freshly created `w` by `h` image.
    pub fn create(image: T, w: u32, h: u32) -> (r: Self)
        requires
            w > 0,
            h > 0,
        ensures
            r@.wf(),
            r@ == (TextureState {
                image,
                width: w,
                height: h,
                ready: false,
                wait_pending: false,
                pending: None,
                garbage: Seq::<Retired<T>>::empty(),
            }),
    {
        let r = SharedTexture {
            image,
            width: w,
            height: h,
            ready: false,
            gl_did_draw: false,
            garbage: Vec::new(),
            resize_requested: None,
        };
        assert(r@.garbage =~= Seq::<Retired<T>>::empty());
        r
    }

    /// Whether the decoder has written the current image, so that it may be
    /// sampled.
    pub fn is_ready(&self) -> (r: bool)
        ensures
            r == self@.ready,
    {
        self.ready
    }

    pub fn width(&self) -> (r: u32)
        ensures
            r == self@.width,
    {
        self.width
    }

    pub fn height(&self) -> (r: u32)
        ensures
            r == self@.height,
    {
        self.height
    }

    /// The current image.
    pub fn image(&self) -> (r: &T)
        ensures
            *r == self@.image,
    {
        &self.image
    }

    /// The size that the next resize will give, if one is pending.
    pub fn pending_resize(&self) -> (r: Option<(u32, u32)>)
        ensures
            r == self@.pending,
    {
        self.resize_requested
    }

    /// Asks for a `w` by `h` image from the next resize on. A request for the
    /// current size or for a zero side changes nothing; otherwise it replaces
    /// any earlier request.
    pub fn request_resize(&mut self, w: u32, h: u32)
        requires
            old(self)@.wf(),
        ensures
            final(self)@ == request_step(old(self)@, w, h),
            final(self)@.wf(),
    {
        if (self.width != w || self.height != h) && w != 0 && h != 0 {
            self.resize_requested = Some((w, h));
        }
    }

    /// When a resize is pending, creates the replacement with
    /// `create(w, h)` and swaps it in. The replaced image is kept, with age
    /// zero, for destruction after the grace period; the new image is not
    /// ready until the decoder writes it.
    pub fn resize_maybe<F: FnOnce(u32, u32) -> T>(&mut self, create: F)
        requires
            old(self)@.wf(),
            forall|w: u32, h: u32| w > 0 && h > 0 ==> create.requires((w, h)),
        ensures
            final(self)@.wf(),
            old(self)@.pending is None ==> final(self)@ == old(self)@,
            old(self)@.pending matches Some((w, h)) ==> {
                &&& create.ensures((w, h), final(self)@.image)
                &&& final(self)@ == resize_step(old(self)@, final(self)@.image)
            },
    {
        if let Some((w, h)) = self.resize_requested {
            self.resize_requested = None;
            let mut retired = create(w, h);
            std::mem::swap(&mut self.image, &mut retired);
            self.width = w;
            self.height = h;
            self.garbage.push(Retired { image: retired, age: 0 });
            self.gl_did_draw = false;
            self.ready = false;
        }
    }

    /// Before the renderer samples the image: whether it must first wait for
    /// the decoder's "complete" signal. That is so once for each write of the
    /// decoder, however many came since the last wait.
    pub fn before_vk(&mut self) -> (wait: bool)
        requires
            old(self)@.wf(),
        ensures
            wait == old(self)@.wait_pending,
            final(self)@ == before_consume_step(old(self)@),
            final(self)@.wf(),
    {
        let wait = self.gl_did_draw;
        self.gl_did_draw = false;
        wait
    }

    /// After the renderer has sampled the image, once each frame (the caller
    /// then signals "ready" to the decoder): every replaced image ages by one
    /// frame, and those past the grace period are returned for destruction.
    pub fn after_vk(&mut self) -> (destroy: Vec<T>)
        requires
            old(self)@.wf(),
        ensures
            final(self)@ == after_consume_step(old(self)@),
            destroy@ == expired(old(self)@.garbage),
            final(self)@.wf(),
    {
        let ghost g = self.garbage@;
        let mut old_garbage: Vec<Retired<T>> = Vec::new();
        std::mem::swap(&mut self.garbage, &mut old_garbage);
        let mut destroy: Vec<T> = Vec::new();
        let mut i: usize = 0;
        let ghost n = g.len() as int;
        assert(n == old_garbage.len());
        while old_garbage.len() > 0
            invariant
                old_garbage@.len() + i == n,
                n <= usize::MAX,
                n == g.len(),
                old_garbage@ == g.subrange(i as int, n),
                self.garbage@ == survivors(g.take(i as int)),
                destroy@ == expired(g.take(i as int)),
                forall|k: int| 0 <= k < g.len() ==> (#[trigger] g[k]).age <= DESTROY_AFTER_NUM_FRAMES,
                self.image == old(self).image,
                self.width == old(self).width,
                self.height == old(self).height,
                self.ready == old(self).ready,
                self.gl_did_draw == old(self).gl_did_draw,
                self.resize_requested == old(self).resize_requested,
                g == old(self)@.garbage,
            decreases old_garbage@.len(),
        {
            let item = old_garbage.remove(0);
            proof {
                assert(item == g[i as int]);
                assert(g.take(i + 1).drop_last() =~= g.take(i as int));
                assert(g.take(i + 1).last() == g[i as int]);
            }
            if item.age < DESTROY_AFTER_NUM_FRAMES {
                self.garbage.push(Retired { image: item.image, age: item.age + 1 });
            } else {
                destroy.push(item.image);
            }
            i = i + 1;
            assert(old_garbage@ =~= g.subrange(i as int, n));
        }
        proof {
            assert(g.take(n) =~= g);
            lemma_survivors_young(g);
        }
        destroy
    }

    /// Runs the decoder's draw callback `f` on the current image. The image
    /// becomes ready when `f` reports that it wrote new content; either way
    /// the renderer will wait for the decoder before its next sampling.
    pub fn draw_gl<F: FnOnce() -> bool>(&mut self, f: F)
        requires
            old(self)@.wf(),
            f.requires(()),
        ensures
            final(self)@.wf(),
            exists|drew: bool| f.ensures((), drew) && final(self)@ == produce_step(old(self)@, drew),
    {
        let did_draw = f();
        if did_draw {
            self.ready = true;
        }
        self.gl_did_draw = true;
        assert(f.ensures((), did_draw) && self@ == produce_step(old(self)@, did_draw));
    }

    /// Gives up the current image, for its destruction.
    pub fn shutdown(self) -> (r: T)
        ensures
            r == self@.image,
    {
        self.image
    }
}

/// The state after a run of resize requests, in order.
pub open spec fn requests_applied<T>(s: TextureState<T>, reqs: Seq<(u32, u32)>) -> TextureState<T>
    decreases reqs.len(),
{
    if reqs.len() == 0 {
        s
    } else {
        request_step(requests_applied(s, reqs.drop_last()), reqs.last().0, reqs.last().1)
    }
}

/// The last request of a run that asks for a change.
pub open spec fn last_effective<T>(s: TextureState<T>, reqs: Seq<(u32, u32)>) -> Option<(u32, u32)>
    decreases reqs.len(),
{
    if reqs.len() == 0 {
        None
    } else if resize_effective(s, reqs.last().0, reqs.last().1) {
        Some(reqs.last())
    } else {
        last_effective(s, reqs.drop_last())
    }
}

/// Of a run of resize requests, only the last one that asks for a change
/// takes effect; a request for the current size or for a zero side changes
/// nothing.
pub proof fn lemma_last_request_wins<T>(s: TextureState<T>, reqs: Seq<(u32, u32)>)
    ensures
        forall|w: u32, h: u32| !resize_effective(s, w, h) ==> request_step(s, w, h) == s,
        requests_applied(s, reqs) == match last_effective(s, reqs) {
            Some((w, h)) => request_step(s, w, h),
            None => s,
        },
    decreases reqs.len(),
{
    if reqs.len() > 0 {
        lemma_last_request_wins(s, reqs.drop_last());
    }
}

/// Replaced images after `k` frames.
pub open spec fn after_frames<T>(g: Seq<Retired<T>>, k: nat) -> Seq<Retired<T>>
    decreases k,
{
    if k == 0 {
        g
    } else {
        survivors(after_frames(g, (k - 1) as nat))
    }
}

/// The replaced images whose age plus `k` stays within the grace period,
/// each `k` frames older.
pub open spec fn aged_by<T>(g: Seq<Retired<T>>, k: nat) -> Seq<Retired<T>>
    decreases g.len(),
{
    if g.len() == 0 {
        Seq::empty()
    } else if g.last().age + k <= DESTROY_AFTER_NUM_FRAMES {
        aged_by(g.drop_last(), k).push(Retired { image: g.last().image, age: (g.last().age + k) as u32 })
    } else {
        aged_by(g.drop_last(), k)
    }
}

/// The replaced images whose age plus `k` is the grace period exactly.
pub open spec fn due_after<T>(g: Seq<Retired<T>>, k: nat) -> Seq<T>
    decreases g.len(),
{
    if g.len() == 0 {
        Seq::empty()
    } else if g.last().age + k == DESTROY_AFTER_NUM_FRAMES {
        due_after(g.drop_last(), k).push(g.last().image)
    } else {
        due_after(g.drop_last(), k)
    }
}

proof fn lemma_one_more_frame<T>(g: Seq<Retired<T>>, k: nat)
    ensures
        survivors(aged_by(g, k)) == aged_by(g, k + 1),
        expired(aged_by(g, k)) == due_after(g, k),
    decreases g.len(),
{
    if g.len() > 0 {
        lemma_one_more_frame(g.drop_last(), k);
        let p = aged_by(g.drop_last(), k);
        if g.last().age + k <= DESTROY_AFTER_NUM_FRAMES {
            let q = p.push(Retired { image: g.last().image, age: (g.last().age + k) as u32 });
            assert(q.drop_last() =~= p);
        }
    }
}

/// A replaced image is kept, aging one frame per frame, while its age stays
/// within the grace period, and is handed out for destruction in the frame
/// in which its age would go past it, not before: an image replaced at age
/// zero is kept through frame 60 and destroyed in frame 61.
pub proof fn lemma_grace_period<T>(g: Seq<Retired<T>>, k: nat)
    requires
        forall|i: int| 0 <= i < g.len() ==> (#[trigger] g[i]).age <= DESTROY_AFTER_NUM_FRAMES,
    ensures
        after_frames(g, k) == aged_by(g, k),
        expired(after_frames(g, k)) == due_after(g, k),
    decreases k,
{
    lemma_aged_by_zero(g);
    if k > 0 {
        lemma_grace_period(g, (k - 1) as nat);
        lemma_one_more_frame(g, (k - 1) as nat);
    }
    lemma_one_more_frame(g, k);
}

proof fn lemma_aged_by_zero<T>(g: Seq<Retired<T>>)
    requires
        forall|i: int| 0 <= i < g.len() ==> (#[trigger] g[i]).age <= DESTROY_AFTER_NUM_FRAMES,
    ensures
        aged_by(g, 0) == g,
    decreases g.len(),
{
    if g.len() > 0 {
        let p = g.drop_last();
        assert forall|i: int| 0 <= i < p.len() implies (#[trigger] p[i]).age
            <= DESTROY_AFTER_NUM_FRAMES by {
            assert(p[i] == g[i]);
        }
        lemma_aged_by_zero(p);
        assert(g.last().age <= DESTROY_AFTER_NUM_FRAMES);
        assert(p.push(g.last()) =~= g);
    }
}

/// A frame in which the decoder writes nothing.
pub open spec fn idle_frame<T>(s: TextureState<T>) -> TextureState<T> {
    after_consume_step(before_consume_step(s))
}

pub open spec fn idle_frames<T>(s: TextureState<T>, k: nat) -> TextureState<T>
    decreases k,
{
    if k == 0 {
        s
    } else {
        idle_frame(idle_frames(s, (k - 1) as nat))
    }
}

/// Without a write of the decoder, the renderer waits for it at most once:
/// after a frame, `before_vk` reports no wait, and the image, its size, its
/// readiness and any pending request stay as they were.
pub proof fn lemma_idle_frames_wait_once<T>(s: TextureState<T>, k: nat)
    requires
        k > 0,
    ensures
        !idle_frames(s, k).wait_pending,
        idle_frames(s, k).image == s.image,
        idle_frames(s, k).width == s.width,
        idle_frames(s, k).height == s.height,
        idle_frames(s, k).ready == s.ready,
        idle_frames(s, k).pending == s.pending,
    decreases k,
{
    if k > 1 {
        lemma_idle_frames_wait_once(s, (k - 1) as nat);
    } else {
        assert(idle_frames(s, 0) == s);
    }
}

/// After a resize the new image is not ready, and stays so through frames in
/// which the decoder writes nothing; the replaced image is kept with age
/// zero, not destroyed.
pub proof fn lemma_resized_not_ready<T>(s: TextureState<T>, image: T, k: nat)
    requires
        s.pending is Some,
    ensures
        resize_step(s, image).garbage.last() == (Retired { image: s.image, age: 0 }),
        resize_step(s, image).garbage.len() == s.garbage.len() + 1,
        !idle_frames(resize_step(s, image), k).ready,
{
    if k > 0 {
        lemma_idle_frames_wait_once(resize_step(s, image), k);
    }
}

/// Survivors of a frame are within the grace period.
proof fn lemma_survivors_young<T>(g: Seq<Retired<T>>)
    ensures
        forall|k: int|
            0 <= k < survivors(g).len() ==> (#[trigger] survivors(g)[k]).age
                <= DESTROY_AFTER_NUM_FRAMES,
    decreases g.len(),
{
    if g.len() > 0 {
        let p = survivors(g.drop_last());
        lemma_survivors_young(g.drop_last());
        if g.last().age < DESTROY_AFTER_NUM_FRAMES {
            assert forall|k: int| 0 <= k < survivors(g).len() implies (
            #[trigger] survivors(g)[k]).age <= DESTROY_AFTER_NUM_FRAMES by {
                if k < p.len() {
                    assert(survivors(g)[k] == p[k]);
                }
            }
        }
    }
}

} // verus!

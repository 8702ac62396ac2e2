//! The surface-resize state machine.
//!
//! The render pass, pipeline, per-image views and framebuffers must stay
//! mutually consistent with the presentation surface's size and format:
//! when any of those change, all four are torn down and rebuilt together.
//! Teardown order matters: render pass, then pipeline, then framebuffers,
//! then the views they reference.  A rebuild is all-or-nothing; there is no
//! partial state.  The geometry buffers and the texture cache are
//! resolution-independent and untouched by a rebuild.
use vstd::prelude::*;

use crate::actions::GpuObject;
use crate::errors::BackendError;

verus! {

/// The value part of a surface state: what two rebuilds with equal
/// parameters have in common, with no claim about object identity.
#[derive(Clone, Copy, Debug, PartialEq, Eq, Structural)]
pub struct SurfaceDesc {
    /// Physical width of the surface, in pixels.
    pub width: u32,
    /// Physical height of the surface, in pixels.
    pub height: u32,
    /// Color format of the surface, as the graphics API encodes it.
    pub format: u32,
    /// Number of presentation images.
    pub image_count: usize,
}

/// The ghost model of a surface state: the value part, the tokens of the
/// four rebuilt object groups, and the next unused token.
#[verifier::ext_equal]
pub struct SurfaceModel {
    /// The value part.
    pub desc: SurfaceDesc,
    /// Token of the render pass.
    pub render_pass: u64,
    /// Token of the graphics pipeline.
    pub pipeline: u64,
    /// Tokens of the per-image views.
    pub views: Seq<u64>,
    /// Tokens of the per-image framebuffers.
    pub framebuffers: Seq<u64>,
    /// The next unused token.
    pub next: int,
}

/// The surface state after a rebuild whose first fresh token is `next`:
/// new tokens for the render pass, the pipeline, one view and one
/// framebuffer per presentation image, and the new value part.
pub open spec fn spec_rebuilt(
    next: int,
    width: u32,
    height: u32,
    format: u32,
    image_count: usize,
) -> SurfaceModel {
    SurfaceModel {
        desc: SurfaceDesc { width, height, format, image_count },
        render_pass: next as u64,
        pipeline: (next + 1) as u64,
        views: Seq::new(image_count as nat, |i: int| (next + 2 + i) as u64),
        framebuffers: Seq::new(
            image_count as nat,
            |i: int| (next + 2 + image_count + i) as u64,
        ),
        next: next + 2 + 2 * (image_count as int),
    }
}

/// How a rebuild transforms the model: everything is recreated under fresh
/// tokens and the value part follows the parameters alone.
pub open spec fn spec_update_surface(
    m: SurfaceModel,
    width: u32,
    height: u32,
    format: u32,
    image_count: usize,
) -> SurfaceModel {
    spec_rebuilt(m.next, width, height, format, image_count)
}

/// The destroy actions a rebuild emits for the old state, in order: render
/// pass, pipeline, framebuffers, then the views they reference.
pub open spec fn spec_teardown(m: SurfaceModel) -> Seq<GpuObject> {
    seq![GpuObject::RenderPass(m.render_pass), GpuObject::Pipeline(m.pipeline)]
        + m.framebuffers.map_values(|t: u64| GpuObject::Framebuffer(t)) + m.views.map_values(
        |t: u64| GpuObject::ImageView(t),
    )
}

/// The surface state: render target description, pipeline, per-image views
/// and framebuffers, all mutually consistent.
pub struct SurfaceState {
    width: u32,
    height: u32,
    format: u32,
    render_pass: u64,
    pipeline: u64,
    views: Vec<u64>,
    framebuffers: Vec<u64>,
    next_token: u64,
}

impl SurfaceState {
    /// One view and one framebuffer per presentation image.
    pub closed spec fn wf(self) -> bool {
        self.views@.len() == self.framebuffers@.len()
    }

    /// The ghost model.
    pub closed spec fn model(self) -> SurfaceModel {
        SurfaceModel {
            desc: SurfaceDesc {
                width: self.width,
                height: self.height,
                format: self.format,
                image_count: self.views@.len() as usize,
            },
            render_pass: self.render_pass,
            pipeline: self.pipeline,
            views: self.views@,
            framebuffers: self.framebuffers@,
            next: self.next_token as int,
        }
    }

    /// Build the initial surface state, with tokens starting at zero.
    /// Fails only when the token space cannot hold one view and one
    /// framebuffer per presentation image.
    pub fn new(width: u32, height: u32, format: u32, image_count: usize) -> (r: Result<
        Self,
        BackendError,
    >)
        ensures
            r matches Ok(s) ==> s.wf() && s.model() == spec_rebuilt(
                0,
                width,
                height,
                format,
                image_count,
            ),
            r is Err <==> 2 + 2 * (image_count as int) > u64::MAX,
            r is Err ==> r == Err::<Self, BackendError>(BackendError::TokenSpaceExhausted),
    {
        let mut s = SurfaceState {
            width: 0,
            height: 0,
            format: 0,
            render_pass: 0,
            pipeline: 0,
            views: Vec::new(),
            framebuffers: Vec::new(),
            next_token: 0,
        };
        match s.update_surface(width, height, format, image_count) {
            Ok(_) => Ok(s),
            Err(e) => Err(e),
        }
    }

    /// Tear down and rebuild for a new size, format and presentation image
    /// set.  Returns the destroy actions for the old objects, in order:
    /// render pass, pipeline, framebuffers, then views.  Fails only when
    /// the token space is exhausted; the state is then unchanged.
    #[verifier::loop_isolation(false)]
    pub fn update_surface(
        &mut self,
        width: u32,
        height: u32,
        format: u32,
        image_count: usize,
    ) -> (r: Result<Vec<GpuObject>, BackendError>)
        requires
            old(self).wf(),
        ensures
            final(self).wf(),
            r matches Ok(destroys) ==> final(self).model() == spec_update_surface(
                old(self).model(),
                width,
                height,
                format,
                image_count,
            ) && destroys@ == spec_teardown(old(self).model()),
            r is Err ==> *final(self) == *old(self) && r == Err::<Vec<GpuObject>, BackendError>(
                BackendError::TokenSpaceExhausted,
            ),
            r is Err <==> old(self).model().next + 2 + 2 * (image_count as int) > u64::MAX,
    {
        let needed: u128 = 2 + 2 * (image_count as u128);
        if (self.next_token as u128) + needed > (u64::MAX as u128) {
            return Err(BackendError::TokenSpaceExhausted);
        }
        let base = self.next_token;

        let mut destroys: Vec<GpuObject> = Vec::new();
        destroys.push(GpuObject::RenderPass(self.render_pass));
        destroys.push(GpuObject::Pipeline(self.pipeline));
        let mut i: usize = 0;
        while i < self.framebuffers.len()
            invariant
                i <= self.framebuffers@.len(),
                destroys@.len() == 2 + i,
                destroys@[0] == GpuObject::RenderPass(old(self).render_pass),
                destroys@[1] == GpuObject::Pipeline(old(self).pipeline),
                forall|j: int|
                    0 <= j < i ==> destroys@[2 + j] == GpuObject::Framebuffer(
                        self.framebuffers@[j],
                    ),
                *self == *old(self),
            decreases self.framebuffers@.len() - i,
        {
            destroys.push(GpuObject::Framebuffer(self.framebuffers[i]));
            i = i + 1;
        }
        let ghost fb_len = self.framebuffers@.len() as int;
        let mut i: usize = 0;
        while i < self.views.len()
            invariant
                i <= self.views@.len(),
                destroys@.len() == 2 + fb_len + i,
                destroys@[0] == GpuObject::RenderPass(old(self).render_pass),
                destroys@[1] == GpuObject::Pipeline(old(self).pipeline),
                fb_len == self.framebuffers@.len(),
                forall|j: int|
                    0 <= j < fb_len ==> destroys@[2 + j] == GpuObject::Framebuffer(
                        self.framebuffers@[j],
                    ),
                forall|j: int|
                    0 <= j < i ==> destroys@[2 + fb_len + j] == GpuObject::ImageView(
                        self.views@[j],
                    ),
                *self == *old(self),
            decreases self.views@.len() - i,
        {
            destroys.push(GpuObject::ImageView(self.views[i]));
            i = i + 1;
        }
        proof {
            assert(destroys@ =~= spec_teardown(old(self).model()));
        }

        self.width = width;
        self.height = height;
        self.format = format;
        self.render_pass = base;
        self.pipeline = base + 1;
        self.views = Vec::new();
        self.framebuffers = Vec::new();
        let mut k: usize = 0;
        while k < image_count
            invariant
                k <= image_count,
                (base as int) + 2 + 2 * (image_count as int) <= u64::MAX + 1,
                self.width == width,
                self.height == height,
                self.format == format,
                self.render_pass == base,
                self.pipeline == base + 1,
                self.framebuffers@.len() == 0,
                self.views@.len() == k,
                forall|j: int| 0 <= j < k ==> self.views@[j] == ((base as int) + 2 + j) as u64,
            decreases image_count - k,
        {
            self.views.push(base + 2 + (k as u64));
            k = k + 1;
        }
        let mut k: usize = 0;
        while k < image_count
            invariant
                k <= image_count,
                (base as int) + 2 + 2 * (image_count as int) <= u64::MAX + 1,
                self.width == width,
                self.height == height,
                self.format == format,
                self.render_pass == base,
                self.pipeline == base + 1,
                self.views@.len() == image_count,
                forall|j: int|
                    0 <= j < image_count ==> self.views@[j] == ((base as int) + 2 + j) as u64,
                self.framebuffers@.len() == k,
                forall|j: int|
                    0 <= j < k ==> self.framebuffers@[j] == ((base as int) + 2 + (image_count as int)
                        + j) as u64,
            decreases image_count - k,
        {
            self.framebuffers.push(base + 2 + (image_count as u64) + (k as u64));
            k = k + 1;
        }
        self.next_token = base + 2 + 2 * (image_count as u64);
        proof {
            assert(self.model().views =~= spec_rebuilt(
                base as int,
                width,
                height,
                format,
                image_count,
            ).views);
            assert(self.model().framebuffers =~= spec_rebuilt(
                base as int,
                width,
                height,
                format,
                image_count,
            ).framebuffers);
            assert(self.model() =~= spec_update_surface(
                old(self).model(),
                width,
                height,
                format,
                image_count,
            ));
        }
        Ok(destroys)
    }

    /// The value part of the current state.
    pub fn desc(&self) -> (r: SurfaceDesc)
        ensures
            r == self.model().desc,
    {
        SurfaceDesc {
            width: self.width,
            height: self.height,
            format: self.format,
            image_count: self.views.len(),
        }
    }

    /// Token of the current render pass.
    pub fn render_pass_token(&self) -> (r: u64)
        ensures
            r == self.model().render_pass,
    {
        self.render_pass
    }

    /// Token of the current pipeline.
    pub fn pipeline_token(&self) -> (r: u64)
        ensures
            r == self.model().pipeline,
    {
        self.pipeline
    }

    /// Tokens of the per-image views, by slot.
    pub fn view_tokens(&self) -> (r: &Vec<u64>)
        ensures
            r@ == self.model().views,
    {
        &self.views
    }

    /// Tokens of the per-image framebuffers, by slot.
    pub fn framebuffer_tokens(&self) -> (r: &Vec<u64>)
        ensures
            r@ == self.model().framebuffers,
    {
        &self.framebuffers
    }

    /// The teardown actions for the current state, in the same order a
    /// rebuild would emit them: render pass, pipeline, framebuffers, views.
    #[verifier::loop_isolation(false)]
    pub fn teardown_actions(&self) -> (r: Vec<GpuObject>)
        ensures
            r@ == spec_teardown(self.model()),
    {
        let mut destroys: Vec<GpuObject> = Vec::new();
        destroys.push(GpuObject::RenderPass(self.render_pass));
        destroys.push(GpuObject::Pipeline(self.pipeline));
        let mut i: usize = 0;
        while i < self.framebuffers.len()
            invariant
                i <= self.framebuffers@.len(),
                destroys@.len() == 2 + i,
                destroys@[0] == GpuObject::RenderPass(self.render_pass),
                destroys@[1] == GpuObject::Pipeline(self.pipeline),
                forall|j: int|
                    0 <= j < i ==> destroys@[2 + j] == GpuObject::Framebuffer(
                        self.framebuffers@[j],
                    ),
            decreases self.framebuffers@.len() - i,
        {
            destroys.push(GpuObject::Framebuffer(self.framebuffers[i]));
            i = i + 1;
        }
        let ghost fb_len = self.framebuffers@.len() as int;
        let mut i: usize = 0;
        while i < self.views.len()
            invariant
                i <= self.views@.len(),
                destroys@.len() == 2 + fb_len + i,
                destroys@[0] == GpuObject::RenderPass(self.render_pass),
                destroys@[1] == GpuObject::Pipeline(self.pipeline),
                fb_len == self.framebuffers@.len(),
                forall|j: int|
                    0 <= j < fb_len ==> destroys@[2 + j] == GpuObject::Framebuffer(
                        self.framebuffers@[j],
                    ),
                forall|j: int|
                    0 <= j < i ==> destroys@[2 + fb_len + j] == GpuObject::ImageView(
                        self.views@[j],
                    ),
            decreases self.views@.len() - i,
        {
            destroys.push(GpuObject::ImageView(self.views[i]));
            i = i + 1;
        }
        proof {
            assert(destroys@ =~= spec_teardown(self.model()));
        }
        destroys
    }
}

} // verus!

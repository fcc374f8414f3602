//! Per-frame rendering state and the frame plan.
//!
//! The GPU-side geometry buffers are mirrored here as exact bookkeeping: how
//! many points the point buffer holds, how many vertices the expanded
//! triangle buffer can take, and how many triangle-corner indices the face
//! buffers hold. One import replaces all of it atomically or not at all. Out
//! of that state, [`State::render_plan`] lays out the one frame protocol: the
//! uniform upload, the optional point-expansion compute dispatch (whose
//! workgroup count covers every point), the render pass with its optional
//! point and face draws, the GUI overlay, submit and present — in an order
//! that puts the expansion strictly before the draw that reads its output.

use crate::import::{ImportError, PlyData};
use vstd::prelude::*;

verus! {

/// Points one workgroup of the expansion compute pass handles.
pub const WORKGROUP_SIZE: u32 = 64;

/// Most points one import may carry, so that three billboard corners per
/// point still fit in a 32-bit draw count.
pub const MAX_POINTS: u32 = 1_431_655_765;

/// Bookkeeping of the point-rendering stage: the point buffer the compute
/// pass reads and the triangle buffer it fills for the draw to consume.
pub struct PointRenderer {
    /// Points in the GPU point buffer.
    pub num_points: u32,
    /// Vertices the GPU triangle buffer can hold. An empty stage keeps a
    /// one-vertex dummy buffer, since a zero-length buffer is rejected by
    /// some backends.
    pub triangle_capacity: u64,
}

impl PointRenderer {
    /// Whenever points are present, the triangle buffer was resized in the
    /// same import that delivered them: exactly three corners per point.
    pub open spec fn wf(self) -> bool {
        &&& self.num_points <= MAX_POINTS
        &&& self.num_points > 0 ==> self.triangle_capacity == 3 * self.num_points
        &&& self.triangle_capacity >= 1
    }

    pub fn new() -> (s: PointRenderer)
        ensures
            s.num_points == 0,
            s.triangle_capacity == 1,
            s.wf(),
    {
        PointRenderer { num_points: 0, triangle_capacity: 1 }
    }

    /// Take the point set of one import: record the new point count and, when
    /// points are present, resize the triangle buffer before any later
    /// dispatch can read it. An oversized point set is rejected whole.
    pub fn import_ply(&mut self, ply: &PlyData) -> (r: Result<(), ImportError>)
        requires
            old(self).wf(),
        ensures
            r is Ok <==> ply.point_vertices@.len() <= MAX_POINTS,
            r matches Err(e) ==> *final(self) == *old(self) && e == ImportError::TooManyVertices,
            r is Ok ==> final(self).num_points == ply.point_vertices@.len(),
            r is Ok && ply.point_vertices@.len() > 0 ==> final(self).triangle_capacity == 3
                * ply.point_vertices@.len(),
            r is Ok && ply.point_vertices@.len() == 0 ==> final(self).triangle_capacity
                == old(self).triangle_capacity,
            final(self).wf(),
    {
        let n = ply.point_vertices.len();
        if n > MAX_POINTS as usize {
            return Err(ImportError::TooManyVertices);
        }
        self.num_points = n as u32;
        if n == 0 {
            return Ok(());
        }
        self.triangle_capacity = 3 * (n as u64);
        Ok(())
    }

    /// Workgroup count of the expansion dispatch: enough groups of
    /// `WORKGROUP_SIZE` to cover every point, none at all without points.
    pub fn compute_dispatch(&self) -> (r: Option<u32>)
        requires
            self.wf(),
        ensures
            r is Some <==> self.num_points > 0,
            r matches Some(groups) ==> ({
                &&& groups == (self.num_points + WORKGROUP_SIZE - 1) as int / WORKGROUP_SIZE as int
                &&& groups * WORKGROUP_SIZE >= self.num_points
                &&& (groups - 1) * WORKGROUP_SIZE < self.num_points
            }),
    {
        if self.num_points == 0 {
            None
        } else {
            let groups = (self.num_points + WORKGROUP_SIZE - 1) / WORKGROUP_SIZE;
            Some(groups)
        }
    }

    /// Vertex count of the point draw: three corners per billboard, no draw
    /// at all without points.
    pub fn point_draw(&self) -> (r: Option<u32>)
        requires
            self.wf(),
        ensures
            r is Some <==> self.num_points > 0,
            r matches Some(vertices) ==> vertices == 3 * self.num_points,
    {
        if self.num_points == 0 {
            None
        } else {
            Some(3 * self.num_points)
        }
    }
}

/// Bookkeeping of the face-rendering stage: its vertex and index buffers.
pub struct FaceRenderer {
    /// Triangle-corner indices in the GPU index buffer.
    pub num_indices: u32,
    /// Vertices in the GPU face-vertex buffer (a dummy vertex when empty).
    pub num_face_vertices: u64,
}

impl FaceRenderer {
    /// Whole triangles, every index inside the vertex buffer.
    pub open spec fn wf(self) -> bool {
        self.num_indices % 3 == 0
    }

    pub fn new() -> (s: FaceRenderer)
        ensures
            s.num_indices == 0,
            s.num_face_vertices == 1,
            s.wf(),
    {
        FaceRenderer { num_indices: 0, num_face_vertices: 1 }
    }

    /// Take the face set of one import: replace both buffers and the index
    /// count. An index list too long for 32-bit draws is rejected whole.
    pub fn import_ply(&mut self, ply: &PlyData) -> (r: Result<(), ImportError>)
        requires
            old(self).wf(),
            ply.wf(),
        ensures
            r is Ok <==> ply.face_indices@.len() <= u32::MAX,
            r matches Err(e) ==> *final(self) == *old(self) && e == ImportError::TooManyIndices,
            r is Ok ==> final(self).num_indices == ply.face_indices@.len()
                && final(self).num_face_vertices == (if ply.face_vertices@.len() > 0 {
                ply.face_vertices@.len() as int
            } else {
                1int
            }),
            final(self).wf(),
    {
        let ni = ply.face_indices.len();
        if ni > u32::MAX as usize {
            return Err(ImportError::TooManyIndices);
        }
        let nv = ply.face_vertices.len();
        proof {
            assert(ply.face_indices@.len() % 3 == 0);
        }
        self.num_indices = ni as u32;
        self.num_face_vertices = if nv == 0 {
            1
        } else {
            nv as u64
        };
        Ok(())
    }

    /// Index count of the face draw; no draw at all without faces.
    pub fn face_draw(&self) -> (r: Option<u32>)
        ensures
            r is Some <==> self.num_indices > 0,
            r matches Some(indices) ==> indices == self.num_indices,
    {
        if self.num_indices == 0 {
            None
        } else {
            Some(self.num_indices)
        }
    }
}

/// One step of the per-frame protocol.
#[derive(Clone, Copy, Debug, PartialEq, Eq, Structural)]
pub enum PassStep {
    /// Upload the view-projection uniform recomputed from the camera.
    WriteUniform,
    /// Dispatch the point-expansion compute pass with this many workgroups.
    ComputeExpand { groups: u32 },
    /// Open the render pass, clearing the color target to black.
    BeginRender,
    /// Draw the point billboards: this many vertices.
    DrawPoints { vertices: u32 },
    /// Draw the faces: this many triangle-corner indices.
    DrawFaces { indices: u32 },
    /// Close the render pass.
    EndRender,
    /// Draw the GUI overlay into the same target, preserving what is there.
    DrawGui,
    /// Submit the single command buffer.
    Submit,
    /// Present the surface image.
    Present,
}

/// Workgroups needed to cover `n` points.
pub open spec fn groups_for(n: u32) -> int {
    (n + WORKGROUP_SIZE - 1) as int / WORKGROUP_SIZE as int
}

/// The frame protocol for the given stages, strictly ordered: uniform upload
/// first, then the compute expansion (only when points exist, and always
/// before the render pass that reads its output), then the render pass with
/// the point and face draws it has work for, then the GUI overlay, submit and
/// present.
pub open spec fn frame_steps(points: PointRenderer, faces: FaceRenderer) -> Seq<PassStep> {
    seq![PassStep::WriteUniform] + (if points.num_points > 0 {
        seq![PassStep::ComputeExpand { groups: groups_for(points.num_points) as u32 }]
    } else {
        Seq::empty()
    }) + seq![PassStep::BeginRender] + (if points.num_points > 0 {
        seq![PassStep::DrawPoints { vertices: (3 * points.num_points) as u32 }]
    } else {
        Seq::empty()
    }) + (if faces.num_indices > 0 {
        seq![PassStep::DrawFaces { indices: faces.num_indices }]
    } else {
        Seq::empty()
    }) + seq![PassStep::EndRender, PassStep::DrawGui, PassStep::Submit, PassStep::Present]
}

/// A presentation failure, by cause.
#[derive(Clone, Copy, Debug, PartialEq, Eq, Structural)]
pub enum SurfaceIssue {
    /// The surface was lost.
    Lost,
    /// The surface no longer matches the window.
    Outdated,
    /// The device is out of memory.
    OutOfMemory,
    /// Acquiring the next image timed out.
    Timeout,
}

/// What the frame loop does about a presentation failure.
#[derive(Clone, Copy, Debug, PartialEq, Eq, Structural)]
pub enum SurfaceResponse {
    /// Recreate the surface at the current window size and redraw.
    Reconfigure,
    /// Shut the application down cleanly.
    Exit,
    /// Log and try again next frame, without reconfiguring.
    Retry,
}

/// The recovery each failure calls for: a lost or outdated surface is
/// recoverable by reconfiguration, memory exhaustion is fatal, a timeout is
/// transient.
pub open spec fn surface_policy(issue: SurfaceIssue) -> SurfaceResponse {
    match issue {
        SurfaceIssue::Lost => SurfaceResponse::Reconfigure,
        SurfaceIssue::Outdated => SurfaceResponse::Reconfigure,
        SurfaceIssue::OutOfMemory => SurfaceResponse::Exit,
        SurfaceIssue::Timeout => SurfaceResponse::Retry,
    }
}

/// Classify one presentation failure into the action the frame loop takes.
pub fn classify_surface_issue(issue: SurfaceIssue) -> (r: SurfaceResponse)
    ensures
        r == surface_policy(issue),
{
    match issue {
        SurfaceIssue::Lost => SurfaceResponse::Reconfigure,
        SurfaceIssue::Outdated => SurfaceResponse::Reconfigure,
        SurfaceIssue::OutOfMemory => SurfaceResponse::Exit,
        SurfaceIssue::Timeout => SurfaceResponse::Retry,
    }
}

/// The rendering core: the two geometry stages and the surface size they are
/// presented at.
pub struct State {
    pub point_renderer: PointRenderer,
    pub face_renderer: FaceRenderer,
    pub surface_width: u32,
    pub surface_height: u32,
}

impl State {
    pub open spec fn wf(self) -> bool {
        self.point_renderer.wf() && self.face_renderer.wf()
    }

    pub fn new(width: u32, height: u32) -> (s: State)
        ensures
            s.point_renderer.num_points == 0,
            s.face_renderer.num_indices == 0,
            s.surface_width == width,
            s.surface_height == height,
            s.wf(),
    {
        State {
            point_renderer: PointRenderer::new(),
            face_renderer: FaceRenderer::new(),
            surface_width: width,
            surface_height: height,
        }
    }

    /// Record the new surface size; the shell reconfigures the surface and
    /// recomputes the pixel-size uniform from the same values. Geometry is
    /// untouched.
    pub fn resize(&mut self, width: u32, height: u32)
        ensures
            final(self).surface_width == width,
            final(self).surface_height == height,
            final(self).point_renderer == old(self).point_renderer,
            final(self).face_renderer == old(self).face_renderer,
            old(self).wf() ==> final(self).wf(),
    {
        self.surface_width = width;
        self.surface_height = height;
    }

    /// Take one import into both stages, atomically: either every buffer is
    /// replaced, or (for an oversized import) nothing is.
    pub fn import_ply(&mut self, ply: &PlyData) -> (r: Result<(), ImportError>)
        requires
            old(self).wf(),
            ply.wf(),
        ensures
            r is Ok <==> (ply.point_vertices@.len() <= MAX_POINTS && ply.face_indices@.len()
                <= u32::MAX),
            r is Err ==> *final(self) == *old(self),
            r is Ok ==> ({
                &&& final(self).point_renderer.num_points == ply.point_vertices@.len()
                &&& ply.point_vertices@.len() > 0 ==> final(self).point_renderer.triangle_capacity
                    == 3 * ply.point_vertices@.len()
                &&& final(self).face_renderer.num_indices == ply.face_indices@.len()
            }),
            final(self).surface_width == old(self).surface_width,
            final(self).surface_height == old(self).surface_height,
            final(self).wf(),
    {
        if ply.point_vertices.len() > MAX_POINTS as usize {
            return Err(ImportError::TooManyVertices);
        }
        if ply.face_indices.len() > u32::MAX as usize {
            return Err(ImportError::TooManyIndices);
        }
        let _ = self.point_renderer.import_ply(ply);
        let _ = self.face_renderer.import_ply(ply);
        Ok(())
    }

    /// Lay out one frame. The returned steps are exactly the frame protocol
    /// for the current stages, in order.
    pub fn render_plan(&self) -> (plan: Vec<PassStep>)
        requires
            self.wf(),
        ensures
            plan@ == frame_steps(self.point_renderer, self.face_renderer),
    {
        let mut plan: Vec<PassStep> = Vec::new();
        plan.push(PassStep::WriteUniform);
        match self.point_renderer.compute_dispatch() {
            Some(groups) => plan.push(PassStep::ComputeExpand { groups }),
            None => (),
        }
        plan.push(PassStep::BeginRender);
        match self.point_renderer.point_draw() {
            Some(vertices) => plan.push(PassStep::DrawPoints { vertices }),
            None => (),
        }
        match self.face_renderer.face_draw() {
            Some(indices) => plan.push(PassStep::DrawFaces { indices }),
            None => (),
        }
        plan.push(PassStep::EndRender);
        plan.push(PassStep::DrawGui);
        plan.push(PassStep::Submit);
        plan.push(PassStep::Present);
        proof {
            assert(plan@ =~= frame_steps(self.point_renderer, self.face_renderer));
        }
        plan
    }
}

/// The expansion pass always precedes the draw that reads the triangle
/// buffer it writes: same-queue submission order is the ordering this plan
/// relies on, so the plan puts the dependency in that order unconditionally.
pub proof fn lemma_expand_before_point_draw(points: PointRenderer, faces: FaceRenderer)
    ensures
        forall|i: int, j: int|
            0 <= i < frame_steps(points, faces).len() && 0 <= j < frame_steps(points, faces).len()
                && (#[trigger] frame_steps(points, faces)[i]) is ComputeExpand && (
            #[trigger] frame_steps(points, faces)[j]) is DrawPoints ==> i < j,
{
    let steps = frame_steps(points, faces);
    assert forall|i: int, j: int|
        0 <= i < steps.len() && 0 <= j < steps.len() && (#[trigger] steps[i]) is ComputeExpand && (
        #[trigger] steps[j]) is DrawPoints implies i < j by {
        if points.num_points > 0 {
            assert(steps[i] is ComputeExpand ==> i == 1);
            assert(steps[j] is DrawPoints ==> j == 3);
        } else {
            assert(!(steps[i] is ComputeExpand));
        }
    }
}

/// A frame planned without points issues no compute dispatch and no point
/// draw; one planned with points issues exactly one of each, the dispatch
/// covering all points and the draw covering all three corners per point.
pub proof fn lemma_plan_matches_points(points: PointRenderer, faces: FaceRenderer)
    requires
        points.wf(),
    ensures
        points.num_points == 0 ==> forall|i: int|
            0 <= i < frame_steps(points, faces).len() ==> !((#[trigger] frame_steps(
                points,
                faces,
            )[i]) is ComputeExpand) && !(frame_steps(points, faces)[i] is DrawPoints),
        points.num_points > 0 ==> ({
            let steps = frame_steps(points, faces);
            &&& steps[1] == (PassStep::ComputeExpand {
                groups: groups_for(points.num_points) as u32,
            })
            &&& steps[3] == (PassStep::DrawPoints { vertices: (3 * points.num_points) as u32 })
            &&& groups_for(points.num_points) * WORKGROUP_SIZE >= points.num_points
            &&& (groups_for(points.num_points) - 1) * WORKGROUP_SIZE < points.num_points
        }),
{
    let steps = frame_steps(points, faces);
    if points.num_points == 0 {
        assert forall|i: int| 0 <= i < steps.len() implies !((#[trigger] steps[i])
            is ComputeExpand) && !(steps[i] is DrawPoints) by {
            assert(steps[0] == PassStep::WriteUniform);
        }
    } else {
        let n = points.num_points;
        let g = groups_for(n);
        assert(g == (n + WORKGROUP_SIZE - 1) as int / WORKGROUP_SIZE as int);
        vstd::arithmetic::div_mod::lemma_fundamental_div_mod(
            (n + WORKGROUP_SIZE - 1) as int,
            WORKGROUP_SIZE as int,
        );
    }
}

} // verus!

use ennona::fixed::{Color, Vec3};
use ennona::import::{PlyData, Vertex};
use ennona::state::{classify_surface_issue, PassStep, State, SurfaceIssue, SurfaceResponse};

fn points_only(n: usize) -> PlyData {
    let v = Vertex { position: Vec3 { x: 0, y: 0, z: 0 }, color: Color { r: 0, g: 0, b: 0 } };
    PlyData { point_vertices: vec![v; n], face_vertices: Vec::new(), face_indices: Vec::new() }
}

#[test]
fn import_then_render_dispatches_and_draws_every_point() {
    let mut s = State::new(800, 600);
    s.import_ply(&points_only(130)).unwrap();
    let plan = s.render_plan();
    assert_eq!(
        plan,
        vec![
            PassStep::WriteUniform,
            PassStep::ComputeExpand { groups: 3 },
            PassStep::BeginRender,
            PassStep::DrawPoints { vertices: 390 },
            PassStep::EndRender,
            PassStep::DrawGui,
            PassStep::Submit,
            PassStep::Present,
        ]
    );
}

#[test]
fn empty_import_issues_no_dispatch_and_no_point_draw() {
    let mut s = State::new(800, 600);
    s.import_ply(&points_only(0)).unwrap();
    let plan = s.render_plan();
    assert_eq!(
        plan,
        vec![
            PassStep::WriteUniform,
            PassStep::BeginRender,
            PassStep::EndRender,
            PassStep::DrawGui,
            PassStep::Submit,
            PassStep::Present,
        ]
    );
}

#[test]
fn workgroup_count_is_a_ceiling() {
    let mut s = State::new(100, 100);
    s.import_ply(&points_only(64)).unwrap();
    assert_eq!(s.point_renderer.compute_dispatch(), Some(1));
    s.import_ply(&points_only(65)).unwrap();
    assert_eq!(s.point_renderer.compute_dispatch(), Some(2));
    s.import_ply(&points_only(1)).unwrap();
    assert_eq!(s.point_renderer.compute_dispatch(), Some(1));
}

#[test]
fn triangle_buffer_is_resized_with_the_point_buffer() {
    let mut s = State::new(100, 100);
    s.import_ply(&points_only(7)).unwrap();
    assert_eq!(s.point_renderer.num_points, 7);
    assert_eq!(s.point_renderer.triangle_capacity, 21);
}

#[test]
fn faces_draw_with_their_own_index_count() {
    let v = Vertex { position: Vec3 { x: 0, y: 0, z: 0 }, color: Color { r: 0, g: 0, b: 0 } };
    let ply = PlyData {
        point_vertices: Vec::new(),
        face_vertices: vec![v; 3],
        face_indices: vec![0, 1, 2],
    };
    let mut s = State::new(100, 100);
    s.import_ply(&ply).unwrap();
    let plan = s.render_plan();
    assert_eq!(
        plan,
        vec![
            PassStep::WriteUniform,
            PassStep::BeginRender,
            PassStep::DrawFaces { indices: 3 },
            PassStep::EndRender,
            PassStep::DrawGui,
            PassStep::Submit,
            PassStep::Present,
        ]
    );
}

#[test]
fn empty_point_import_keeps_the_old_buffers() {
    let mut s = State::new(100, 100);
    s.import_ply(&points_only(5)).unwrap();
    s.import_ply(&points_only(0)).unwrap();
    assert_eq!(s.point_renderer.num_points, 0);
    assert_eq!(s.point_renderer.triangle_capacity, 15);
}

#[test]
fn resize_reconfigures_without_touching_geometry() {
    let mut s = State::new(800, 600);
    s.import_ply(&points_only(4)).unwrap();
    s.resize(1024, 768);
    assert_eq!(s.surface_width, 1024);
    assert_eq!(s.surface_height, 768);
    assert_eq!(s.point_renderer.num_points, 4);
}

#[test]
fn surface_failures_classify_by_cause() {
    assert_eq!(classify_surface_issue(SurfaceIssue::Lost), SurfaceResponse::Reconfigure);
    assert_eq!(classify_surface_issue(SurfaceIssue::Outdated), SurfaceResponse::Reconfigure);
    assert_eq!(classify_surface_issue(SurfaceIssue::OutOfMemory), SurfaceResponse::Exit);
    assert_eq!(classify_surface_issue(SurfaceIssue::Timeout), SurfaceResponse::Retry);
}

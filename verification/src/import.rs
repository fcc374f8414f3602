//! Geometry and image import.
//!
//! A structured geometry file delivers "vertex" records (coordinates and byte
//! color channels) and "face" records (a polygon as a list of vertex
//! indices). This module builds the in-memory geometry out of them: vertices
//! referenced by faces are deduplicated into a face-vertex list in first-use
//! order, every polygon is fan-triangulated, and vertices no face references
//! become the point set. A raster image import is decoded from its bytes
//! (format sniffed from content) into raw RGBA pixels.
//!
//! The file I/O itself, and the parsing of the geometry file's syntax, happen
//! outside the library; the library receives plain records and does
//! everything that decides what geometry comes out of them.

use crate::fixed::{dist_sq, div_trunc, floor_sqrt, Color, Vec3, COORD_MAX};
use vstd::prelude::*;

verus! {

/// Why an import was rejected. A rejected import leaves all previous state
/// unchanged; nothing is partially applied.
#[derive(Clone, Copy, Debug, PartialEq, Eq, Structural)]
pub enum ImportError {
    /// The file extension maps to no known format.
    UnknownExtension,
    /// A record carried a key/value combination the format does not have.
    UnexpectedProperty,
    /// A coordinate lies outside the representable fixed-point range.
    ValueOutOfRange,
    /// A face references a vertex index outside the vertex list.
    InvalidFaceIndex,
    /// The vertex list is too long for 32-bit indexing.
    TooManyVertices,
    /// The triangle list is too long for 32-bit indexing.
    TooManyIndices,
    /// The image decoder could not make sense of the bytes.
    DecodeFailed,
}

/// One plain value parsed out of a geometry-file record.
#[derive(Clone, Debug, PartialEq, Eq)]
pub enum PropertyValue {
    /// A coordinate, already converted to fixed-point micro-units.
    Scalar(i64),
    /// A byte-valued color channel.
    Byte(u8),
    /// A list of vertex indices describing one polygon.
    IndexList(Vec<i32>),
    /// Any value kind the format does not have.
    Unsupported,
}

/// A vertex: a position and a color, used uniformly for points and face
/// corners.
#[derive(Clone, Copy, Debug, PartialEq, Eq, Structural)]
pub struct Vertex {
    pub position: Vec3,
    pub color: Color,
}

impl Vertex {
    /// Position within range, color channels normalized.
    pub open spec fn wf(self) -> bool {
        self.position.wf() && self.color.wf()
    }

    /// A fresh vertex with every field zeroed, ready to take properties.
    pub fn new() -> (v: Vertex)
        ensures
            v.position == (Vec3 { x: 0, y: 0, z: 0 }),
            v.color == (Color { r: 0, g: 0, b: 0 }),
            v.wf(),
    {
        Vertex { position: Vec3::zero(), color: Color::black() }
    }

    /// Apply one named property: `x`/`y`/`z` set a coordinate from a scalar,
    /// `red`/`green`/`blue` set a color channel from a byte normalized by
    /// 255. Any other combination is rejected loudly, and an out-of-range
    /// coordinate is rejected rather than wrapped.
    pub fn set_property(&mut self, key: &String, property: PropertyValue) -> (r: Result<
        (),
        ImportError,
    >)
        ensures
            r is Ok ==> *final(self) == vertex_property_step(*old(self), key@, property),
            r is Err ==> *final(self) == *old(self),
            r is Ok <==> vertex_property_ok(key@, property),
            r is Err ==> (r matches Err(e) && e == vertex_property_err(key@, property)),
            old(self).wf() ==> final(self).wf(),
    {
        proof {
            reveal_strlit("x");
            reveal_strlit("y");
            reveal_strlit("z");
            reveal_strlit("red");
            reveal_strlit("green");
            reveal_strlit("blue");
            assert("x"@.len() == 1 && "y"@.len() == 1 && "z"@.len() == 1);
            assert("red"@.len() == 3 && "green"@.len() == 5 && "blue"@.len() == 4);
            assert("x"@[0] == 'x' && "y"@[0] == 'y' && "z"@[0] == 'z');
            assert("x"@ != "y"@ && "x"@ != "z"@ && "y"@ != "z"@);
            assert(!is_color_key("x"@) && !is_color_key("y"@) && !is_color_key("z"@));
            assert(!is_coord_key("red"@) && !is_coord_key("green"@) && !is_coord_key("blue"@));
            assert("red"@ != "green"@ && "red"@ != "blue"@ && "green"@ != "blue"@);
        }
        let is_x = *key == String::from_str("x");
        let is_y = *key == String::from_str("y");
        let is_z = *key == String::from_str("z");
        if is_x || is_y || is_z {
            match property {
                PropertyValue::Scalar(v) => {
                    if v < -COORD_MAX || v > COORD_MAX {
                        Err(ImportError::ValueOutOfRange)
                    } else {
                        if is_x {
                            self.position.x = v;
                        } else if is_y {
                            self.position.y = v;
                        } else {
                            self.position.z = v;
                        }
                        Ok(())
                    }
                },
                _ => Err(ImportError::UnexpectedProperty),
            }
        } else {
            let is_r = *key == String::from_str("red");
            let is_g = *key == String::from_str("green");
            let is_b = *key == String::from_str("blue");
            if is_r || is_g || is_b {
                match property {
                    PropertyValue::Byte(v) => {
                        let channel: u32 = (v as u32) * 1_000_000 / 255;
                        if is_r {
                            self.color.r = channel;
                        } else if is_g {
                            self.color.g = channel;
                        } else {
                            self.color.b = channel;
                        }
                        Ok(())
                    },
                    _ => Err(ImportError::UnexpectedProperty),
                }
            } else {
                Err(ImportError::UnexpectedProperty)
            }
        }
    }
}

/// Whether a vertex key names a coordinate.
pub open spec fn is_coord_key(key: Seq<char>) -> bool {
    key == "x"@ || key == "y"@ || key == "z"@
}

/// Whether a vertex key names a color channel.
pub open spec fn is_color_key(key: Seq<char>) -> bool {
    key == "red"@ || key == "green"@ || key == "blue"@
}

/// Which key/value combinations a vertex record accepts.
pub open spec fn vertex_property_ok(key: Seq<char>, property: PropertyValue) -> bool {
    ||| (is_coord_key(key) && (property matches PropertyValue::Scalar(v) && -COORD_MAX <= v
        <= COORD_MAX))
    ||| (is_color_key(key) && property is Byte)
}

/// The error an unacceptable key/value combination draws: an in-format key
/// with an out-of-range coordinate is out of range, anything else is
/// unexpected.
pub open spec fn vertex_property_err(key: Seq<char>, property: PropertyValue) -> ImportError {
    if is_coord_key(key) && (property matches PropertyValue::Scalar(v) && !(-COORD_MAX <= v
        <= COORD_MAX)) {
        ImportError::ValueOutOfRange
    } else {
        ImportError::UnexpectedProperty
    }
}

/// The vertex an accepted property leaves behind.
pub open spec fn vertex_property_step(
    vertex: Vertex,
    key: Seq<char>,
    property: PropertyValue,
) -> Vertex {
    match property {
        PropertyValue::Scalar(v) => if key == "x"@ {
            Vertex { position: Vec3 { x: v, ..vertex.position }, ..vertex }
        } else if key == "y"@ {
            Vertex { position: Vec3 { y: v, ..vertex.position }, ..vertex }
        } else {
            Vertex { position: Vec3 { z: v, ..vertex.position }, ..vertex }
        },
        PropertyValue::Byte(v) => {
            let channel = (v * 1_000_000 / 255) as u32;
            if key == "red"@ {
                Vertex { color: Color { r: channel, ..vertex.color }, ..vertex }
            } else if key == "green"@ {
                Vertex { color: Color { g: channel, ..vertex.color }, ..vertex }
            } else {
                Vertex { color: Color { b: channel, ..vertex.color }, ..vertex }
            }
        },
        _ => vertex,
    }
}

/// One polygon of a geometry file: the indices of its corners in the file's
/// vertex list.
#[derive(Debug)]
pub struct Face {
    pub vertex_index: Vec<i32>,
}

impl Face {
    /// A fresh face with no corners, ready to take properties.
    pub fn new() -> (f: Face)
        ensures
            f.vertex_index@ == Seq::<i32>::empty(),
    {
        Face { vertex_index: Vec::new() }
    }

    /// Apply one named property: `vertex_index` sets the corner list. Any
    /// other combination is rejected loudly.
    pub fn set_property(&mut self, key: &String, property: PropertyValue) -> (r: Result<
        (),
        ImportError,
    >)
        ensures
            r is Ok <==> (key@ == "vertex_index"@ && property is IndexList),
            r is Ok ==> (property matches PropertyValue::IndexList(l)
                && final(self).vertex_index@ == l@),
            r is Err ==> *final(self) == *old(self) && (r matches Err(e) && e
                == ImportError::UnexpectedProperty),
    {
        proof {
            reveal_strlit("vertex_index");
        }
        if *key == String::from_str("vertex_index") {
            match property {
                PropertyValue::IndexList(l) => {
                    self.vertex_index = l;
                    Ok(())
                },
                _ => Err(ImportError::UnexpectedProperty),
            }
        } else {
            Err(ImportError::UnexpectedProperty)
        }
    }
}

/// The in-memory geometry an import produces: the vertices no face
/// references (drawn as points), the deduplicated face corners, and the
/// triangle-corner indices into the face-vertex list.
#[derive(Debug)]
pub struct PlyData {
    pub point_vertices: Vec<Vertex>,
    pub face_vertices: Vec<Vertex>,
    pub face_indices: Vec<u32>,
}

impl PlyData {
    /// The triangle list is whole (a multiple of three corners), every corner
    /// index lands inside the face-vertex list, and every vertex is within
    /// range.
    pub open spec fn wf(self) -> bool {
        &&& self.face_indices@.len() % 3 == 0
        &&& forall|k: int|
            0 <= k < self.face_indices@.len() ==> (#[trigger] self.face_indices@[k])
                < self.face_vertices@.len()
        &&& forall|i: int|
            0 <= i < self.point_vertices@.len() ==> (#[trigger] self.point_vertices@[i]).wf()
        &&& forall|j: int|
            0 <= j < self.face_vertices@.len() ==> (#[trigger] self.face_vertices@[j]).wf()
    }
}

/// The corner lists of a sequence of faces.
pub open spec fn face_seqs(faces: Seq<Face>) -> Seq<Seq<i32>> {
    faces.map_values(|f: Face| f.vertex_index@)
}

/// Every corner of every face indexes into a vertex list of length `nverts`.
pub open spec fn valid_faces(nverts: int, faces: Seq<Seq<i32>>) -> bool {
    forall|f: int, k: int|
        0 <= f < faces.len() && 0 <= k < faces[f].len() ==> 0 <= (#[trigger] faces[f][k]) < nverts
}

/// The position of an occurrence of `x` in `s` (the occurrence, once `s` has
/// no duplicates).
pub open spec fn pos_in(s: Seq<i32>, x: i32) -> int {
    choose|i: int| 0 <= i < s.len() && s[i] == x
}

/// Deduplication state and remapped corners after the first `k` corners of
/// one face: a first-seen vertex index is appended to the dedup list and the
/// corner takes its fresh position; a seen one only takes the position it
/// already has.
pub open spec fn remap_face(used0: Seq<i32>, idxs: Seq<i32>, k: int) -> (Seq<i32>, Seq<int>)
    decreases k,
{
    if k <= 0 {
        (used0, Seq::empty())
    } else {
        let (u, r) = remap_face(used0, idxs, k - 1);
        let x = idxs[k - 1];
        if u.contains(x) {
            (u, r.push(pos_in(u, x)))
        } else {
            (u.push(x), r.push(u.len() as int))
        }
    }
}

/// Fan triangulation of one remapped corner list: the first corner anchors
/// one triangle with each adjacent pair of later corners, in order.
pub open spec fn fan(r: Seq<int>) -> Seq<int>
    decreases r.len(),
{
    if r.len() < 3 {
        Seq::empty()
    } else {
        fan(r.drop_last()) + seq![r[0], r[r.len() - 2], r[r.len() - 1]]
    }
}

/// A four-cornered face fans into exactly two triangles: the first corner
/// anchors (a, b, c) and then (a, c, d), in that order.
pub proof fn lemma_fan_of_quad(a: int, b: int, c: int, d: int)
    ensures
        fan(seq![a, b, c, d]) =~= seq![a, b, c, a, c, d],
{
    let q = seq![a, b, c, d];
    assert(q.drop_last() =~= seq![a, b, c]);
    assert(q.drop_last().drop_last() =~= seq![a, b]);
    assert(fan(seq![a, b]) =~= Seq::<int>::empty());
    assert(fan(seq![a, b, c]) =~= seq![a, b, c]);
}

/// Dedup list and triangle corners after the first `n` faces.
pub open spec fn assemble_faces(faces: Seq<Seq<i32>>, n: int) -> (Seq<i32>, Seq<int>)
    decreases n,
{
    if n <= 0 {
        (Seq::empty(), Seq::empty())
    } else {
        let (u, t) = assemble_faces(faces, n - 1);
        let (u2, r) = remap_face(u, faces[n - 1], faces[n - 1].len() as int);
        (u2, t + fan(r))
    }
}

/// The vertices among the first `n` whose index no face uses, in order.
pub open spec fn unused_points(vertices: Seq<Vertex>, used: Seq<i32>, n: int) -> Seq<Vertex>
    decreases n,
{
    if n <= 0 {
        Seq::empty()
    } else {
        let pre = unused_points(vertices, used, n - 1);
        if used.contains((n - 1) as i32) {
            pre
        } else {
            pre.push(vertices[n - 1])
        }
    }
}

/// The dedup table mirrors the dedup list exactly: entry `i` holds the
/// position of vertex index `i` in the list, or nothing where `i` is unseen.
pub open spec fn table_inv(table: Seq<Option<u32>>, used: Seq<i32>, n: int) -> bool {
    &&& table.len() == n
    &&& 0 <= n <= 0x7fff_ffff
    &&& used.len() <= n
    &&& forall|i: int|
        0 <= i < n ==> match #[trigger] table[i] {
            Some(j) => 0 <= j < used.len() && used[j as int] == i as i32,
            None => !used.contains(i as i32),
        }
    &&& forall|j: int|
        0 <= j < used.len() ==> 0 <= (#[trigger] used[j]) < n && table[used[j] as int] == Some(
            j as u32,
        )
}

/// A vector of triangle corners matches its mathematical counterpart.
pub open spec fn matches_tris(ti: Seq<u32>, tris: Seq<int>) -> bool {
    ti.len() == tris.len() && forall|k: int| 0 <= k < tris.len() ==> (#[trigger] ti[k]) == tris[k]
}

/// The face-vertex list is the dedup list read through the vertex list.
pub open spec fn fv_inv(fv: Seq<Vertex>, used: Seq<i32>, vertices: Seq<Vertex>) -> bool {
    fv.len() == used.len() && forall|j: int|
        0 <= j < used.len() ==> (#[trigger] fv[j]) == vertices[used[j] as int]
}

/// Under the table invariant, the dedup list has one position per entry.
proof fn lemma_pos_unique(table: Seq<Option<u32>>, used: Seq<i32>, n: int, x: i32, j: int)
    requires
        table_inv(table, used, n),
        0 <= j < used.len(),
        used[j] == x,
    ensures
        pos_in(used, x) == j,
{
    assert(exists|i: int| 0 <= i < used.len() && used[i] == x) by {
        assert(0 <= j < used.len() && used[j] == x);
    }
    let i = pos_in(used, x);
    assert(0 <= i < used.len() && used[i] == x);
    assert(table[used[i] as int] == Some(i as u32));
    assert(table[used[j] as int] == Some(j as u32));
}

/// The remapped corner list is as long as what it remaps.
proof fn lemma_remap_face_len(used0: Seq<i32>, idxs: Seq<i32>, k: int)
    requires
        0 <= k,
    ensures
        remap_face(used0, idxs, k).1.len() == k,
    decreases k,
{
    if k > 0 {
        lemma_remap_face_len(used0, idxs, k - 1);
    }
}

/// While some vertex index is still unseen, the dedup list cannot have used
/// up the whole vertex range: its entries are distinct values of that range
/// that all avoid the unseen one.
proof fn lemma_fresh_index_bound(table: Seq<Option<u32>>, used: Seq<i32>, n: int, vi: int)
    requires
        table_inv(table, used, n),
        0 <= vi < n,
        table[vi] is None,
    ensures
        used.len() < n,
{
    broadcast use vstd::set::group_set_axioms;

    let ints = used.map_values(|x: i32| x as int);
    assert(ints.no_duplicates()) by {
        assert forall|i: int, j: int|
            0 <= i < ints.len() && 0 <= j < ints.len() && i != j implies ints[i] != ints[j] by {
            assert(ints[i] == used[i] as int);
            assert(ints[j] == used[j] as int);
            if used[i] == used[j] {
                assert(table[used[i] as int] == Some(i as u32));
                assert(table[used[j] as int] == Some(j as u32));
            }
        }
    }
    ints.unique_seq_to_set();
    let whole = vstd::set_lib::set_int_range(0, n);
    let range = whole.remove(vi);
    assert(ints.to_set().subset_of(range)) by {
        assert forall|x: int| ints.to_set().contains(x) implies range.contains(x) by {
            assert(ints.contains(x));
            let p = choose|p: int| 0 <= p < ints.len() && ints[p] == x;
            assert(used[p] as int == x);
            assert(table[x] == Some(p as u32));
            assert(0 <= x < n);
            assert(x != vi);
        }
    }
    vstd::set_lib::lemma_int_range(0, n);
    assert(whole.contains(vi));
    assert(range.len() == n - 1);
    vstd::set_lib::lemma_len_subset(ints.to_set(), range);
}

/// Build the viewer's geometry out of a file's vertex and face records:
/// deduplicate the face corners in first-use order, fan-triangulate every
/// polygon, and set aside the vertices no face references as points. A face
/// corner outside the vertex list rejects the whole import; nothing is
/// partially applied.
pub fn assemble_ply(vertices: &Vec<Vertex>, faces: &Vec<Face>) -> (r: Result<PlyData, ImportError>)
    requires
        forall|i: int| 0 <= i < vertices@.len() ==> (#[trigger] vertices@[i]).wf(),
    ensures
        r is Ok <==> (vertices@.len() <= 0x7fff_ffff && valid_faces(
            vertices@.len() as int,
            face_seqs(faces@),
        )),
        r matches Err(e) ==> e == (if vertices@.len() > 0x7fff_ffff {
            ImportError::TooManyVertices
        } else {
            ImportError::InvalidFaceIndex
        }),
        r matches Ok(d) ==> ({
            let (used, tris) = assemble_faces(face_seqs(faces@), faces@.len() as int);
            &&& fv_inv(d.face_vertices@, used, vertices@)
            &&& matches_tris(d.face_indices@, tris)
            &&& d.point_vertices@ == unused_points(vertices@, used, vertices@.len() as int)
            &&& d.wf()
        }),
{
    let ghost fs = face_seqs(faces@);
    let n = vertices.len();
    if n > 0x7fff_ffff {
        return Err(ImportError::TooManyVertices);
    }
    let mut table: Vec<Option<u32>> = Vec::new();
    let mut i: usize = 0;
    while i < n
        invariant
            i <= n,
            table@.len() == i,
            forall|q: int| 0 <= q < i ==> (#[trigger] table@[q]) is None,
        decreases n - i,
    {
        table.push(None);
        i = i + 1;
    }
    let mut face_vertices: Vec<Vertex> = Vec::new();
    let mut face_indices: Vec<u32> = Vec::new();

    let mut f: usize = 0;
    while f < faces.len()
        invariant
            n == vertices@.len(),
            n <= 0x7fff_ffff,
            forall|q: int| 0 <= q < vertices@.len() ==> (#[trigger] vertices@[q]).wf(),
            fs == face_seqs(faces@),
            f <= faces@.len(),
            fs.len() == faces@.len(),
            forall|f2: int, k2: int|
                0 <= f2 < f && 0 <= k2 < fs[f2].len() ==> 0 <= (#[trigger] fs[f2][k2]) < n,
            table_inv(table@, assemble_faces(fs, f as int).0, n as int),
            fv_inv(face_vertices@, assemble_faces(fs, f as int).0, vertices@),
            matches_tris(face_indices@, assemble_faces(fs, f as int).1),
            face_indices@.len() % 3 == 0,
            forall|k2: int|
                0 <= k2 < face_indices@.len() ==> (#[trigger] face_indices@[k2])
                    < face_vertices@.len(),
        decreases faces@.len() - f,
    {
        let ghost used_f = assemble_faces(fs, f as int).0;
        let ghost tris_f = assemble_faces(fs, f as int).1;
        let idxs = &faces[f].vertex_index;
        proof {
            assert(fs[f as int] == faces@[f as int].vertex_index@);
        }
        let mut remapped: Vec<u32> = Vec::new();
        let ghost fi0 = face_indices@;
        let mut k: usize = 0;
        while k < idxs.len()
            invariant
                n == vertices@.len(),
                n <= 0x7fff_ffff,
                forall|q: int| 0 <= q < vertices@.len() ==> (#[trigger] vertices@[q]).wf(),
                k <= idxs@.len(),
                fs == face_seqs(faces@),
                0 <= f < fs.len(),
                fs[f as int] == idxs@,
                used_f == assemble_faces(fs, f as int).0,
                forall|k2: int| 0 <= k2 < k ==> 0 <= (#[trigger] idxs@[k2]) < n,
                table_inv(table@, remap_face(used_f, idxs@, k as int).0, n as int),
                fv_inv(face_vertices@, remap_face(used_f, idxs@, k as int).0, vertices@),
                remapped@.len() == remap_face(used_f, idxs@, k as int).1.len(),
                forall|m: int|
                    0 <= m < remapped@.len() ==> (#[trigger] remapped@[m]) == remap_face(
                        used_f,
                        idxs@,
                        k as int,
                    ).1[m] && remapped@[m] < face_vertices@.len(),
                face_indices@ == fi0,
                forall|k2: int|
                    0 <= k2 < face_indices@.len() ==> (#[trigger] face_indices@[k2])
                        < face_vertices@.len(),
            decreases idxs@.len() - k,
        {
            let ghost u_k = remap_face(used_f, idxs@, k as int).0;
            let raw = idxs[k];
            if raw < 0 {
                proof {
                    assert(0 <= f < fs.len() && 0 <= k < fs[f as int].len() && !(0 <= fs[f as int][k as int] < n));
                    assert(!valid_faces(n as int, fs));
                }
                return Err(ImportError::InvalidFaceIndex);
            }
            let vi = raw as usize;
            if vi >= n {
                proof {
                    assert(fs[f as int][k as int] == raw);
                    assert(raw as int >= n);
                    assert(0 <= f < fs.len() && 0 <= k < fs[f as int].len() && !(0 <= fs[f as int][k as int] < n));
                    assert(!valid_faces(n as int, fs));
                }
                return Err(ImportError::InvalidFaceIndex);
            }
            let entry = table[vi];
            match entry {
                Some(j) => {
                    proof {
                        lemma_pos_unique(table@, u_k, n as int, raw, j as int);
                    }
                    remapped.push(j);
                },
                None => {
                    proof {
                        lemma_fresh_index_bound(table@, u_k, n as int, vi as int);
                    }
                    let ghost tbl0 = table@;
                    let j = face_vertices.len() as u32;
                    table.set(vi, Some(j));
                    face_vertices.push(vertices[vi]);
                    remapped.push(j);
                    proof {
                        let u2 = u_k.push(raw);
                        assert(u2 == remap_face(used_f, idxs@, k as int + 1).0);
                        assert(raw as int == vi as int);
                        assert forall|q: int| 0 <= q < n implies match #[trigger] table@[q] {
                            Some(j2) => 0 <= j2 < u2.len() && u2[j2 as int] == q as i32,
                            None => !u2.contains(q as i32),
                        } by {
                            if q == vi as int {
                                assert(table@[q] == Some(j));
                                assert(u2[u_k.len() as int] == raw);
                            } else {
                                assert(table@[q] == tbl0[q]);
                                match tbl0[q] {
                                    Some(j2) => {
                                        assert(u2[j2 as int] == u_k[j2 as int]);
                                    },
                                    None => {
                                        assert(!u_k.contains(q as i32));
                                        assert forall|p: int|
                                            0 <= p < u2.len() implies u2[p] != q as i32 by {
                                            if p < u_k.len() {
                                                assert(u2[p] == u_k[p]);
                                                if u_k[p] == q as i32 {
                                                    assert(u_k.contains(q as i32));
                                                }
                                            } else {
                                                assert(u2[p] == raw);
                                            }
                                        }
                                    },
                                }
                            }
                        }
                        assert forall|p: int|
                            0 <= p < u2.len() implies 0 <= (#[trigger] u2[p]) < n && table@[u2[p] as int]
                            == Some(p as u32) by {
                            if p < u_k.len() {
                                assert(u2[p] == u_k[p]);
                                assert(tbl0[u_k[p] as int] == Some(p as u32));
                                assert(u_k[p] as int != vi as int);
                                assert(table@[u_k[p] as int] == tbl0[u_k[p] as int]);
                            } else {
                                assert(p == u_k.len());
                                assert(u2[p] == raw);
                            }
                        }
                        assert(table_inv(table@, u2, n as int));
                    }
                },
            }
            k = k + 1;
        }
        // The whole face is remapped; emit its triangle fan.
        let ghost u_done = remap_face(used_f, idxs@, idxs@.len() as int).0;
        let ghost r_done = remap_face(used_f, idxs@, idxs@.len() as int).1;
        proof {
            lemma_remap_face_len(used_f, idxs@, idxs@.len() as int);
            assert(remapped@.len() == idxs@.len());
        }
        if remapped.len() >= 3 {
            let first = remapped[0];
            let mut m: usize = 2;
            proof {
                assert(r_done.subrange(0, 2).len() < 3);
                assert(tris_f + fan(r_done.subrange(0, 2)) =~= tris_f);
            }
            while m < remapped.len()
                invariant
                    2 <= m <= remapped@.len(),
                    remapped@.len() == r_done.len(),
                    3 <= r_done.len(),
                    first == remapped@[0],
                    forall|m2: int|
                        0 <= m2 < remapped@.len() ==> (#[trigger] remapped@[m2]) == r_done[m2]
                            && remapped@[m2] < face_vertices@.len(),
                    matches_tris(face_indices@, tris_f + fan(r_done.subrange(0, m as int))),
                    face_indices@.len() % 3 == 0,
                    forall|k2: int|
                        0 <= k2 < face_indices@.len() ==> (#[trigger] face_indices@[k2])
                            < face_vertices@.len(),
                decreases remapped@.len() - m,
            {
                let b = remapped[m - 1];
                let c = remapped[m];
                let ghost fi_before = face_indices@;
                face_indices.push(first);
                face_indices.push(b);
                face_indices.push(c);
                proof {
                    let pre = r_done.subrange(0, m as int);
                    let cur = r_done.subrange(0, m as int + 1);
                    assert(cur.drop_last() =~= pre);
                    assert(fan(cur) == fan(pre) + seq![cur[0], cur[cur.len() - 2], cur[cur.len() - 1]]);
                    assert(cur[0] == r_done[0] && cur[cur.len() - 2] == r_done[m as int - 1]
                        && cur[cur.len() - 1] == r_done[m as int]);
                    assert(face_indices@ =~= fi_before + seq![first, b, c]);
                    assert(tris_f + fan(cur) =~= (tris_f + fan(pre)) + seq![
                        r_done[0],
                        r_done[m as int - 1],
                        r_done[m as int],
                    ]);
                    assert(matches_tris(face_indices@, tris_f + fan(cur)));
                }
                m = m + 1;
            }
            proof {
                assert(r_done.subrange(0, r_done.len() as int) =~= r_done);
            }
        } else {
            proof {
                assert(fan(r_done).len() == 0);
                assert(matches_tris(face_indices@, tris_f + fan(r_done))) by {
                    assert(tris_f + fan(r_done) =~= tris_f);
                }
            }
        }
        proof {
            assert(fs[f as int].len() == idxs@.len());
            assert(assemble_faces(fs, f as int + 1).0 == u_done);
            assert(assemble_faces(fs, f as int + 1).1 == tris_f + fan(r_done));
        }
        f = f + 1;
    }
    let ghost used = assemble_faces(fs, fs.len() as int).0;
    // Whatever no face touched is drawn as a point.
    let mut point_vertices: Vec<Vertex> = Vec::new();
    let mut p: usize = 0;
    while p < n
        invariant
            n == vertices@.len(),
            n <= 0x7fff_ffff,
            p <= n,
            table_inv(table@, used, n as int),
            point_vertices@ == unused_points(vertices@, used, p as int),
        decreases n - p,
    {
        let entry = table[p];
        match entry {
            None => {
                point_vertices.push(vertices[p]);
            },
            Some(_) => {
                proof {
                    assert(used.contains(p as i32)) by {
                        let j = table@[p as int].unwrap();
                        assert(used[j as int] == p as i32);
                    }
                }
            },
        }
        p = p + 1;
    }
    proof {
        assert forall|q: int|
            0 <= q < point_vertices@.len() implies (#[trigger] point_vertices@[q]).wf() by {
            lemma_unused_points_from_vertices(vertices@, used, n as int, q);
        }
        assert forall|j: int|
            0 <= j < face_vertices@.len() implies (#[trigger] face_vertices@[j]).wf() by {
            assert(face_vertices@[j] == vertices@[used[j] as int]);
        }
    }
    Ok(PlyData { point_vertices, face_vertices, face_indices })
}

/// Every unused point is one of the vertices.
proof fn lemma_unused_points_from_vertices(
    vertices: Seq<Vertex>,
    used: Seq<i32>,
    n: int,
    q: int,
)
    requires
        n <= vertices.len(),
        0 <= q < unused_points(vertices, used, n).len(),
    ensures
        exists|i: int|
            0 <= i < n && unused_points(vertices, used, n)[q] == #[trigger] vertices[i],
    decreases n,
{
    if n > 0 {
        let pre = unused_points(vertices, used, n - 1);
        if q < pre.len() {
            lemma_unused_points_from_vertices(vertices, used, n - 1, q);
        } else {
            assert(unused_points(vertices, used, n)[q] == vertices[n - 1]);
        }
    }
}


/// A decoded raster image: dimensions and raw pixels, four bytes each.
#[derive(Debug)]
pub struct RasterImage {
    pub width: u32,
    pub height: u32,
    pub rgba: Vec<u8>,
}

impl RasterImage {
    /// Exactly four bytes for every pixel.
    pub open spec fn wf(self) -> bool {
        self.rgba@.len() == 4 * self.width * self.height
    }
}

/// What the image decoder makes of a byte stream: dimensions and RGBA pixels,
/// or nothing where the bytes decode as no supported raster format. The
/// result depends on the bytes alone.
pub uninterp spec fn decoded_of(bytes: Seq<u8>) -> Option<(u32, u32, Seq<u8>)>;

/// Relies on `image::load_from_memory` (the format is sniffed from the
/// content, not from any name) and on `DynamicImage::to_rgba8` /
/// `ImageBuffer::into_raw`, whose raw container holds width * height * 4
/// bytes. The outcome is a function of the bytes alone.
#[verifier::external_body]
fn decode_image_bytes(bytes: &Vec<u8>) -> (r: Option<(u32, u32, Vec<u8>)>)
    ensures
        match r {
            Some(t) => decoded_of(bytes@) == Some((t.0, t.1, t.2@)) && t.2@.len() == 4 * t.0 * t.1,
            None => decoded_of(bytes@) is None,
        },
{
    match image::load_from_memory(bytes) {
        Ok(img) => {
            let rgba = img.to_rgba8();
            let (w, h) = rgba.dimensions();
            Some((w, h, rgba.into_raw()))
        },
        Err(_) => None,
    }
}

/// Decode a raster image from its bytes.
pub fn import_image(bytes: &Vec<u8>) -> (r: Result<RasterImage, ImportError>)
    ensures
        r is Ok <==> decoded_of(bytes@) is Some,
        r matches Ok(img) ==> decoded_of(bytes@) == Some((img.width, img.height, img.rgba@))
            && img.wf(),
        r is Err ==> (r matches Err(e) && e == ImportError::DecodeFailed),
{
    match decode_image_bytes(bytes) {
        Some((width, height, rgba)) => Ok(RasterImage { width, height, rgba }),
        None => Err(ImportError::DecodeFailed),
    }
}

/// What one import delivers: exactly one of the two payload kinds, never a
/// partially built one.
#[derive(Debug)]
pub enum Import {
    /// A geometry import: points, face vertices and triangle indices.
    Ply(PlyData),
    /// A raster-image import: decoded pixels.
    Image(RasterImage),
}

/// Which import path a file extension selects.
#[derive(Clone, Copy, Debug, PartialEq, Eq, Structural)]
pub enum ImportKind {
    /// A structured geometry file.
    Ply,
    /// A raster image.
    Image,
    /// Neither: the import is rejected with a descriptive error.
    Unknown,
}

/// Map a file extension to its import path: `ply` is geometry, `png`, `jpg`
/// and `jpeg` are raster images, anything else is unknown.
pub fn import_kind(extension: &String) -> (k: ImportKind)
    ensures
        k == ImportKind::Ply <==> extension@ == "ply"@,
        k == ImportKind::Image <==> (extension@ == "png"@ || extension@ == "jpg"@ || extension@
            == "jpeg"@),
        k == ImportKind::Unknown <==> !(extension@ == "ply"@ || extension@ == "png"@ || extension@
            == "jpg"@ || extension@ == "jpeg"@),
{
    proof {
        reveal_strlit("ply");
        reveal_strlit("png");
        reveal_strlit("jpg");
        reveal_strlit("jpeg");
        assert("ply"@.len() == 3 && "png"@.len() == 3 && "jpg"@.len() == 3 && "jpeg"@.len() == 4);
        assert("ply"@[1] == 'l' && "png"@[1] == 'n' && "jpg"@[0] == 'j' && "ply"@[0] == 'p' && "png"@[0] == 'p');
        assert("ply"@ != "png"@ && "ply"@ != "jpg"@ && "ply"@ != "jpeg"@);
        assert("png"@ != "jpg"@ && "png"@ != "jpeg"@ && "jpg"@ != "jpeg"@);
    }
    if *extension == String::from_str("ply") {
        ImportKind::Ply
    } else if *extension == String::from_str("png") || *extension == String::from_str("jpg")
        || *extension == String::from_str("jpeg") {
        ImportKind::Image
    } else {
        ImportKind::Unknown
    }
}

/// Sum of the x coordinates of a vertex sequence.
pub open spec fn sum_x(s: Seq<Vertex>) -> int
    decreases s.len(),
{
    if s.len() == 0 {
        0
    } else {
        sum_x(s.drop_last()) + s.last().position.x
    }
}

/// Sum of the y coordinates of a vertex sequence.
pub open spec fn sum_y(s: Seq<Vertex>) -> int
    decreases s.len(),
{
    if s.len() == 0 {
        0
    } else {
        sum_y(s.drop_last()) + s.last().position.y
    }
}

/// Sum of the z coordinates of a vertex sequence.
pub open spec fn sum_z(s: Seq<Vertex>) -> int
    decreases s.len(),
{
    if s.len() == 0 {
        0
    } else {
        sum_z(s.drop_last()) + s.last().position.z
    }
}

/// Sum of the integer-square-root distances from `center` to each vertex.
pub open spec fn sum_sqrt_dists(center: Vec3, s: Seq<Vertex>) -> int
    decreases s.len(),
{
    if s.len() == 0 {
        0
    } else {
        sum_sqrt_dists(center, s.drop_last()) + floor_sqrt(dist_sq(center, s.last().position))
    }
}

/// Largest value one distance term, and hence the average distance, can take.
pub const DIST_TERM_MAX: i64 = 3_500_000_000_000_000;

/// A truncating mean stays within the bound its summands obey.
proof fn lemma_div_trunc_bound(s: int, n: int, c: int)
    requires
        1 <= n,
        0 <= c,
        -(n * c) <= s <= n * c,
    ensures
        -c <= div_trunc(s, n) <= c,
{
    vstd::arithmetic::div_mod::lemma_div_multiples_vanish(c, n);
    if s >= 0 {
        vstd::arithmetic::div_mod::lemma_div_is_ordered(s, n * c, n);
        vstd::arithmetic::div_mod::lemma_div_pos_is_pos(s, n);
    } else {
        vstd::arithmetic::div_mod::lemma_div_is_ordered(-s, n * c, n);
        vstd::arithmetic::div_mod::lemma_div_pos_is_pos(-s, n);
    }
}

/// The average position of all vertices provided, each coordinate the
/// truncating mean of that coordinate; nothing for an empty list, whose
/// average is undefined.
pub fn avg_vertex_position(vertices: &Vec<Vertex>) -> (r: Option<Vec3>)
    requires
        forall|i: int| 0 <= i < vertices@.len() ==> (#[trigger] vertices@[i]).wf(),
    ensures
        r is Some <==> vertices@.len() > 0,
        r matches Some(c) ==> ({
            &&& c.x == div_trunc(sum_x(vertices@), vertices@.len() as int)
            &&& c.y == div_trunc(sum_y(vertices@), vertices@.len() as int)
            &&& c.z == div_trunc(sum_z(vertices@), vertices@.len() as int)
            &&& c.wf()
        }),
{
    let n = vertices.len();
    if n == 0 {
        return None;
    }
    let mut sx: i128 = 0;
    let mut sy: i128 = 0;
    let mut sz: i128 = 0;
    let mut i: usize = 0;
    while i < n
        invariant
            n == vertices@.len(),
            forall|q: int| 0 <= q < vertices@.len() ==> (#[trigger] vertices@[q]).wf(),
            i <= n,
            sx == sum_x(vertices@.take(i as int)),
            sy == sum_y(vertices@.take(i as int)),
            sz == sum_z(vertices@.take(i as int)),
            -(i as int * COORD_MAX) <= sx <= i as int * COORD_MAX,
            -(i as int * COORD_MAX) <= sy <= i as int * COORD_MAX,
            -(i as int * COORD_MAX) <= sz <= i as int * COORD_MAX,
        decreases n - i,
    {
        let v = vertices[i];
        proof {
            assert(vertices@.take(i as int + 1).drop_last() =~= vertices@.take(i as int));
            assert(vertices@.take(i as int + 1).last() == vertices@[i as int]);
        }
        sx = sx + v.position.x as i128;
        sy = sy + v.position.y as i128;
        sz = sz + v.position.z as i128;
        i = i + 1;
    }
    proof {
        assert(vertices@.take(n as int) =~= vertices@);
        lemma_div_trunc_bound(sx as int, n as int, COORD_MAX as int);
        lemma_div_trunc_bound(sy as int, n as int, COORD_MAX as int);
        lemma_div_trunc_bound(sz as int, n as int, COORD_MAX as int);
    }
    let cx = crate::fixed::div_signed(sx, n as u64);
    let cy = crate::fixed::div_signed(sy, n as u64);
    let cz = crate::fixed::div_signed(sz, n as u64);
    Some(Vec3 { x: cx as i64, y: cy as i64, z: cz as i64 })
}

/// The average distance of all vertices to a center position, as the
/// truncating mean of the integer-square-root distances; zero for an empty
/// list.
pub fn avg_vertex_distance(center: Vec3, vertices: &Vec<Vertex>) -> (r: i64)
    requires
        center.wf(),
        forall|i: int| 0 <= i < vertices@.len() ==> (#[trigger] vertices@[i]).wf(),
    ensures
        vertices@.len() == 0 ==> r == 0,
        vertices@.len() > 0 ==> r == div_trunc(
            sum_sqrt_dists(center, vertices@),
            vertices@.len() as int,
        ),
        0 <= r <= DIST_TERM_MAX,
{
    let n = vertices.len();
    if n == 0 {
        return 0;
    }
    let mut sum: u128 = 0;
    let mut i: usize = 0;
    while i < n
        invariant
            n == vertices@.len(),
            center.wf(),
            forall|q: int| 0 <= q < vertices@.len() ==> (#[trigger] vertices@[q]).wf(),
            i <= n,
            sum == sum_sqrt_dists(center, vertices@.take(i as int)),
            sum <= i as int * DIST_TERM_MAX,
        decreases n - i,
    {
        let v = vertices[i];
        let dx = center.x - v.position.x;
        let dy = center.y - v.position.y;
        let dz = center.z - v.position.z;
        proof {
            assert((dx as int) * (dx as int) <= 4_000_000_000_000_000_000_000_000_000_000
                && (dx as int) * (dx as int) >= 0) by (nonlinear_arith)
                requires
                    -2_000_000_000_000_000 <= dx as int <= 2_000_000_000_000_000,
            ;
            assert((dy as int) * (dy as int) <= 4_000_000_000_000_000_000_000_000_000_000
                && (dy as int) * (dy as int) >= 0) by (nonlinear_arith)
                requires
                    -2_000_000_000_000_000 <= dy as int <= 2_000_000_000_000_000,
            ;
            assert((dz as int) * (dz as int) <= 4_000_000_000_000_000_000_000_000_000_000
                && (dz as int) * (dz as int) >= 0) by (nonlinear_arith)
                requires
                    -2_000_000_000_000_000 <= dz as int <= 2_000_000_000_000_000,
            ;
        }
        let qx: i128 = (dx as i128) * (dx as i128);
        let qy: i128 = (dy as i128) * (dy as i128);
        let qz: i128 = (dz as i128) * (dz as i128);
        let d2: u128 = (qx + qy + qz) as u128;
        proof {
            assert(d2 == dist_sq(center, vertices@[i as int].position));
        }
        let root = crate::fixed::isqrt(d2);
        proof {
            assert(root as int <= DIST_TERM_MAX) by (nonlinear_arith)
                requires
                    (root as int) * (root as int) <= 12_000_000_000_000_000_000_000_000_000_000,
                    root as int >= 0,
                    DIST_TERM_MAX == 3_500_000_000_000_000i64,
            ;
            assert(vertices@.take(i as int + 1).drop_last() =~= vertices@.take(i as int));
            assert(vertices@.take(i as int + 1).last() == vertices@[i as int]);
        }
        sum = sum + root as u128;
        i = i + 1;
    }
    proof {
        assert(vertices@.take(n as int) =~= vertices@);
        vstd::arithmetic::div_mod::lemma_div_multiples_vanish(DIST_TERM_MAX as int, n as int);
        vstd::arithmetic::div_mod::lemma_div_is_ordered(
            sum as int,
            n as int * DIST_TERM_MAX,
            n as int,
        );
    }
    let q = sum / (n as u128);
    q as i64
}

} // verus!

//! Parsing of mesh face records.
//!
//! A face line of a mesh file names three vertices, each as a run of
//! decimal indices separated by slashes.  The functions here classify
//! the record format, read the indices, and rebase the file-global
//! one-based indices to mesh-local zero-based ones.  Reading the file
//! itself, and the floating-point vertex data, is the caller's job.

use vstd::prelude::*;
use vstd::string::StrSliceExecFns;

use crate::text::{
    find_from,
    find_sub,
    first_pat,
    is_usize_literal,
    lemma_first_pat,
    lemma_seg_end,
    parse_usize,
    parse_usize_range,
    seg_end,
    usize_literal_value,
};

verus! {

/// A single triangle of a mesh, stored as indices into the mesh's
/// vertex, normal and texture-coordinate pools.
#[derive(Clone, Copy, Debug, PartialEq, Eq)]
pub struct Triangle {
    pub vertex_idx: [usize; 3],
    pub normal_idx: Option<[usize; 3]>,
    pub uv_idx: Option<[usize; 3]>,
    pub material_idx: usize,
}

impl Triangle {
    /// A triangle from its three vertex indices and its material index,
    /// with no normal or texture-coordinate indices.
    pub fn new(vertex_idx: [usize; 3], material_idx: usize) -> (t: Triangle)
        ensures
            t.vertex_idx == vertex_idx,
            t.normal_idx is None,
            t.uv_idx is None,
            t.material_idx == material_idx,
    {
        Triangle { vertex_idx, normal_idx: None, uv_idx: None, material_idx }
    }
}

/// Running totals of the pool sizes of the meshes read so far, used to
/// turn file-global one-based indices into mesh-local zero-based ones.
#[derive(Clone, Copy, Debug)]
pub struct IndexHelper {
    pub vertex_count: usize,
    pub normals_count: usize,
    pub uv_count: usize,
}

impl IndexHelper {
    /// A helper with all counts zero.
    pub fn new() -> (h: IndexHelper)
        ensures
            h.vertex_count == 0,
            h.normals_count == 0,
            h.uv_count == 0,
    {
        IndexHelper { vertex_count: 0, normals_count: 0, uv_count: 0 }
    }

    /// Adds the pool sizes of a finished mesh to the running totals.
    pub fn add_object(&mut self, vertices: usize, uvs: usize, normals: usize)
        requires
            old(self).vertex_count + vertices <= usize::MAX,
            old(self).uv_count + uvs <= usize::MAX,
            old(self).normals_count + normals <= usize::MAX,
        ensures
            final(self).vertex_count == old(self).vertex_count + vertices,
            final(self).uv_count == old(self).uv_count + uvs,
            final(self).normals_count == old(self).normals_count + normals,
    {
        self.vertex_count = self.vertex_count + vertices;
        self.uv_count = self.uv_count + uvs;
        self.normals_count = self.normals_count + normals;
    }

    /// Mesh-local index of a vertex from its file-global one-based index.
    pub fn get_vertex_index(&self, file_idx: usize) -> (r: usize)
        requires
            file_idx > self.vertex_count,
        ensures
            r == file_idx - self.vertex_count - 1,
    {
        file_idx - self.vertex_count - 1
    }

    /// Mesh-local index of a normal from its file-global one-based index.
    pub fn get_normals_index(&self, file_idx: usize) -> (r: usize)
        requires
            file_idx > self.normals_count,
        ensures
            r == file_idx - self.normals_count - 1,
    {
        file_idx - self.normals_count - 1
    }

    /// Mesh-local index of a texture-coordinate pair from its
    /// file-global one-based index.
    pub fn get_uv_index(&self, file_idx: usize) -> (r: usize)
        requires
            file_idx > self.uv_count,
        ensures
            r == file_idx - self.uv_count - 1,
    {
        file_idx - self.uv_count - 1
    }
}

/// The four shapes a face record's vertex tokens can take.
#[derive(Clone, Copy, Debug, PartialEq, Eq, Structural)]
pub enum FaceFormat {
    /// Vertex positions only, as in `1 2 3`.
    VPos,
    /// Positions and texture coordinates, as in `1/1 2/2 3/3`.
    VPosUv,
    /// Positions and normals, as in `1//1 2//2 3//3`.
    VPosN,
    /// Positions, texture coordinates and normals, as in `1/1/1 2/2/2 3/3/3`.
    VPosUvN,
}

/// The format a face token announces: a double slash means positions
/// and normals; no slash means positions only; a single slash means
/// positions and texture coordinates; two or more separate slashes mean
/// all three index kinds.
pub open spec fn format_of(t: Seq<char>) -> FaceFormat {
    if first_pat(t, "//"@, 0) >= 0 {
        FaceFormat::VPosN
    } else if seg_end(t, '/', 0) == t.len() {
        FaceFormat::VPos
    } else if seg_end(t, '/', seg_end(t, '/', 0) + 1) == t.len() {
        FaceFormat::VPosUv
    } else {
        FaceFormat::VPosUvN
    }
}

/// Position of the separator of a two-part token such as `3/7`.
pub open spec fn pair_split(t: Seq<char>, p: Seq<char>) -> int {
    first_pat(t, p, 0)
}

/// The digits before the separator of a two-part token.
pub open spec fn pair_left(t: Seq<char>, p: Seq<char>) -> Seq<char> {
    t.subrange(0, pair_split(t, p))
}

/// The digits after the separator of a two-part token.
pub open spec fn pair_right(t: Seq<char>, p: Seq<char>) -> Seq<char> {
    t.subrange(pair_split(t, p) + p.len(), t.len() as int)
}

/// A well-formed two-part token: the separator occurs, and both sides
/// are decimal numbers that fit in a `usize`.
pub open spec fn pair_token_ok(t: Seq<char>, p: Seq<char>) -> bool {
    &&& pair_split(t, p) >= 0
    &&& is_usize_literal(pair_left(t, p))
    &&& is_usize_literal(pair_right(t, p))
}

/// Value of the first number of a two-part token.
pub open spec fn pair_first(t: Seq<char>, p: Seq<char>) -> nat {
    usize_literal_value(pair_left(t, p))
}

/// Value of the second number of a two-part token.
pub open spec fn pair_second(t: Seq<char>, p: Seq<char>) -> nat {
    usize_literal_value(pair_right(t, p))
}

/// End of the first slash-separated segment of a three-part token.
pub open spec fn slash1(t: Seq<char>) -> int {
    seg_end(t, '/', 0)
}

/// End of the second slash-separated segment of a three-part token.
pub open spec fn slash2(t: Seq<char>) -> int {
    seg_end(t, '/', slash1(t) + 1)
}

/// End of the third slash-separated segment of a three-part token.
pub open spec fn slash3(t: Seq<char>) -> int {
    seg_end(t, '/', slash2(t) + 1)
}

/// A well-formed three-part token such as `2/7/5`: at least two
/// slashes, with a decimal number in each of the first three segments.
pub open spec fn triple_token_ok(t: Seq<char>) -> bool {
    &&& slash1(t) < t.len()
    &&& slash2(t) < t.len()
    &&& is_usize_literal(t.subrange(0, slash1(t)))
    &&& is_usize_literal(t.subrange(slash1(t) + 1, slash2(t)))
    &&& is_usize_literal(t.subrange(slash2(t) + 1, slash3(t)))
}

/// Value of the vertex index of a three-part token.
pub open spec fn triple_v(t: Seq<char>) -> nat {
    usize_literal_value(t.subrange(0, slash1(t)))
}

/// Value of the texture-coordinate index of a three-part token.
pub open spec fn triple_uv(t: Seq<char>) -> nat {
    usize_literal_value(t.subrange(slash1(t) + 1, slash2(t)))
}

/// Value of the normal index of a three-part token.
pub open spec fn triple_n(t: Seq<char>) -> nat {
    usize_literal_value(t.subrange(slash2(t) + 1, slash3(t)))
}

/// Well-formed tokens for a plain-position face: at least three tokens,
/// each a decimal number above the helper's vertex total.
pub open spec fn vpos_tokens_ok(tokens: Seq<String>, h: IndexHelper) -> bool {
    &&& tokens.len() >= 3
    &&& forall|i: int| 0 <= i < 3 ==> is_usize_literal(#[trigger] tokens[i]@)
    &&& forall|i: int| 0 <= i < 3 ==> usize_literal_value(#[trigger] tokens[i]@) > h.vertex_count
}

/// Well-formed tokens for a two-part face format: exactly three tokens,
/// each splitting on `p` into numbers above the respective totals.
pub open spec fn pair_tokens_ok(tokens: Seq<String>, p: Seq<char>, first_over: usize, second_over: usize) -> bool {
    &&& tokens.len() == 3
    &&& forall|i: int| 0 <= i < 3 ==> pair_token_ok(#[trigger] tokens[i]@, p)
    &&& forall|i: int| 0 <= i < 3 ==> pair_first(#[trigger] tokens[i]@, p) > first_over
    &&& forall|i: int| 0 <= i < 3 ==> pair_second(#[trigger] tokens[i]@, p) > second_over
}

/// Well-formed tokens for a full face record: at least three tokens,
/// each with three numbers above the respective totals.
pub open spec fn triple_tokens_ok(tokens: Seq<String>, h: IndexHelper) -> bool {
    &&& tokens.len() >= 3
    &&& forall|i: int| 0 <= i < 3 ==> triple_token_ok(#[trigger] tokens[i]@)
    &&& forall|i: int| 0 <= i < 3 ==> triple_v(#[trigger] tokens[i]@) > h.vertex_count
    &&& forall|i: int| 0 <= i < 3 ==> triple_uv(#[trigger] tokens[i]@) > h.uv_count
    &&& forall|i: int| 0 <= i < 3 ==> triple_n(#[trigger] tokens[i]@) > h.normals_count
}

impl FaceFormat {
    /// Classifies a face record from its first vertex token.
    pub fn determine_format(first: &str) -> (f: FaceFormat)
        ensures
            f == format_of(first@),
    {
        proof {
            reveal_strlit("//");
        }
        let n = first.unicode_len();
        match find_sub(first, "//", 0) {
            Some(_) => FaceFormat::VPosN,
            None => {
                let s1 = find_from(first, 0, '/');
                if s1 == n {
                    FaceFormat::VPos
                } else {
                    proof {
                        lemma_seg_end(first@, '/', 0);
                    }
                    let s2 = find_from(first, s1 + 1, '/');
                    if s2 == n {
                        FaceFormat::VPosUv
                    } else {
                        FaceFormat::VPosUvN
                    }
                }
            },
        }
    }

    /// Builds the triangle a face record describes: reads the indices
    /// of the first three vertex tokens according to the format, and
    /// rebases each through the helper.  Texture-coordinate and normal
    /// indices are present exactly where the format carries them.
    pub fn get_triangle(&self, tokens: &Vec<String>, idx_helper: &IndexHelper, mat_idx: usize) -> (t: Triangle)
        requires
            self is VPos ==> vpos_tokens_ok(tokens@, *idx_helper),
            self is VPosUv ==> pair_tokens_ok(tokens@, "/"@, idx_helper.vertex_count, idx_helper.uv_count),
            self is VPosN ==> pair_tokens_ok(tokens@, "//"@, idx_helper.vertex_count, idx_helper.normals_count),
            self is VPosUvN ==> triple_tokens_ok(tokens@, *idx_helper),
        ensures
            t.material_idx == mat_idx,
            self is VPos ==> t.normal_idx is None && t.uv_idx is None && (forall|i: int|
                0 <= i < 3 ==> #[trigger] t.vertex_idx@[i] == usize_literal_value(tokens@[i]@)
                    - idx_helper.vertex_count - 1),
            self is VPosUv || self is VPosN || self is VPosUvN ==> tokens@.len() >= 3,
            self is VPosUv ==> t.normal_idx is None && (forall|i: int|
                0 <= i < 3 ==> #[trigger] t.vertex_idx@[i] == pair_first(tokens@[i]@, "/"@)
                    - idx_helper.vertex_count - 1),
            self is VPosUv ==> (t.uv_idx matches Some(uv) && (forall|i: int|
                0 <= i < 3 ==> #[trigger] uv@[i] == pair_second(tokens@[i]@, "/"@)
                    - idx_helper.uv_count - 1)),
            self is VPosN ==> t.uv_idx is None && (forall|i: int|
                0 <= i < 3 ==> #[trigger] t.vertex_idx@[i] == pair_first(tokens@[i]@, "//"@)
                    - idx_helper.vertex_count - 1),
            self is VPosN ==> (t.normal_idx matches Some(nm) && (forall|i: int|
                0 <= i < 3 ==> #[trigger] nm@[i] == pair_second(tokens@[i]@, "//"@)
                    - idx_helper.normals_count - 1)),
            self is VPosUvN ==> forall|i: int|
                0 <= i < 3 ==> #[trigger] t.vertex_idx@[i] == triple_v(tokens@[i]@)
                    - idx_helper.vertex_count - 1,
            self is VPosUvN ==> (t.uv_idx matches Some(uv) && (forall|i: int|
                0 <= i < 3 ==> #[trigger] uv@[i] == triple_uv(tokens@[i]@) - idx_helper.uv_count
                    - 1)),
            self is VPosUvN ==> (t.normal_idx matches Some(nm) && (forall|i: int|
                0 <= i < 3 ==> #[trigger] nm@[i] == triple_n(tokens@[i]@)
                    - idx_helper.normals_count - 1)),
    {
        proof {
            reveal_strlit("/");
            reveal_strlit("//");
        }
        match self {
            FaceFormat::VPos => {
                let i1 = idx_helper.get_vertex_index(parse_next(tokens[0].as_str()));
                let i2 = idx_helper.get_vertex_index(parse_next(tokens[1].as_str()));
                let i3 = idx_helper.get_vertex_index(parse_next(tokens[2].as_str()));
                Triangle::new([i1, i2, i3], mat_idx)
            },
            FaceFormat::VPosUv => {
                let (v_idx, uv_idx) = get_tuple_index(tokens, "/");
                proof {
                    assert(v_idx@[0] == pair_first(tokens@[0]@, "/"@));
                    assert(v_idx@[1] == pair_first(tokens@[1]@, "/"@));
                    assert(v_idx@[2] == pair_first(tokens@[2]@, "/"@));
                    assert(uv_idx@[0] == pair_second(tokens@[0]@, "/"@));
                    assert(uv_idx@[1] == pair_second(tokens@[1]@, "/"@));
                    assert(uv_idx@[2] == pair_second(tokens@[2]@, "/"@));
                }
                let v0 = idx_helper.get_vertex_index(v_idx[0]);
                let v1 = idx_helper.get_vertex_index(v_idx[1]);
                let v2 = idx_helper.get_vertex_index(v_idx[2]);
                let u0 = idx_helper.get_uv_index(uv_idx[0]);
                let u1 = idx_helper.get_uv_index(uv_idx[1]);
                let u2 = idx_helper.get_uv_index(uv_idx[2]);
                let mut t = Triangle::new([v0, v1, v2], mat_idx);
                t.uv_idx = Some([u0, u1, u2]);
                t
            },
            FaceFormat::VPosN => {
                let (v_idx, n_idx) = get_tuple_index(tokens, "//");
                proof {
                    assert(v_idx@[0] == pair_first(tokens@[0]@, "//"@));
                    assert(v_idx@[1] == pair_first(tokens@[1]@, "//"@));
                    assert(v_idx@[2] == pair_first(tokens@[2]@, "//"@));
                    assert(n_idx@[0] == pair_second(tokens@[0]@, "//"@));
                    assert(n_idx@[1] == pair_second(tokens@[1]@, "//"@));
                    assert(n_idx@[2] == pair_second(tokens@[2]@, "//"@));
                }
                let v0 = idx_helper.get_vertex_index(v_idx[0]);
                let v1 = idx_helper.get_vertex_index(v_idx[1]);
                let v2 = idx_helper.get_vertex_index(v_idx[2]);
                let n0 = idx_helper.get_normals_index(n_idx[0]);
                let n1 = idx_helper.get_normals_index(n_idx[1]);
                let n2 = idx_helper.get_normals_index(n_idx[2]);
                let mut t = Triangle::new([v0, v1, v2], mat_idx);
                t.normal_idx = Some([n0, n1, n2]);
                t
            },
            FaceFormat::VPosUvN => {
                let (a0, b0, c0) = split_triple(tokens[0].as_str());
                let (a1, b1, c1) = split_triple(tokens[1].as_str());
                let (a2, b2, c2) = split_triple(tokens[2].as_str());
                let v0 = idx_helper.get_vertex_index(a0);
                let v1 = idx_helper.get_vertex_index(a1);
                let v2 = idx_helper.get_vertex_index(a2);
                let u0 = idx_helper.get_uv_index(b0);
                let u1 = idx_helper.get_uv_index(b1);
                let u2 = idx_helper.get_uv_index(b2);
                let n0 = idx_helper.get_normals_index(c0);
                let n1 = idx_helper.get_normals_index(c1);
                let n2 = idx_helper.get_normals_index(c2);
                let mut t = Triangle::new([v0, v1, v2], mat_idx);
                t.uv_idx = Some([u0, u1, u2]);
                t.normal_idx = Some([n0, n1, n2]);
                t
            },
        }
    }
}

/// Whether one token is a well-formed two-part token whose numbers
/// exceed the given totals.
fn pair_ok_over(t: &str, p: &str, first_over: usize, second_over: usize) -> (b: bool)
    requires
        p@.len() >= 1,
    ensures
        b == (pair_token_ok(t@, p@) && pair_first(t@, p@) > first_over && pair_second(t@, p@)
            > second_over),
{
    proof {
        lemma_first_pat(t@, p@, 0);
    }
    let i = match find_sub(t, p, 0) {
        Some(i) => i,
        None => {
            return false;
        },
    };
    let m = p.unicode_len();
    let n = t.unicode_len();
    let left = match parse_usize_range(t, 0, i) {
        Some(v) => v,
        None => {
            return false;
        },
    };
    let right = match parse_usize_range(t, i + m, n) {
        Some(v) => v,
        None => {
            return false;
        },
    };
    left > first_over && right > second_over
}

/// Whether one token is a well-formed three-part token whose numbers
/// exceed the helper's totals.
fn triple_ok_over(t: &str, h: &IndexHelper) -> (b: bool)
    ensures
        b == (triple_token_ok(t@) && triple_v(t@) > h.vertex_count && triple_uv(t@) > h.uv_count
            && triple_n(t@) > h.normals_count),
{
    let n = t.unicode_len();
    let e1 = find_from(t, 0, '/');
    proof {
        lemma_seg_end(t@, '/', 0);
    }
    if e1 == n {
        return false;
    }
    let e2 = find_from(t, e1 + 1, '/');
    proof {
        lemma_seg_end(t@, '/', e1 as int + 1);
    }
    if e2 == n {
        return false;
    }
    let e3 = find_from(t, e2 + 1, '/');
    proof {
        lemma_seg_end(t@, '/', e2 as int + 1);
    }
    let v = match parse_usize_range(t, 0, e1) {
        Some(v) => v,
        None => {
            return false;
        },
    };
    let u = match parse_usize_range(t, e1 + 1, e2) {
        Some(v) => v,
        None => {
            return false;
        },
    };
    let w = match parse_usize_range(t, e2 + 1, e3) {
        Some(v) => v,
        None => {
            return false;
        },
    };
    v > h.vertex_count && u > h.uv_count && w > h.normals_count
}

impl FaceFormat {
    /// Whether the tokens of a face record are well formed for this
    /// format, so that `get_triangle` accepts them: the format's token
    /// count, a number in every expected place, and each number large
    /// enough to rebase through the helper.
    pub fn tokens_ok(&self, tokens: &Vec<String>, idx_helper: &IndexHelper) -> (b: bool)
        ensures
            self is VPos ==> b == vpos_tokens_ok(tokens@, *idx_helper),
            self is VPosUv ==> b == pair_tokens_ok(
                tokens@,
                "/"@,
                idx_helper.vertex_count,
                idx_helper.uv_count,
            ),
            self is VPosN ==> b == pair_tokens_ok(
                tokens@,
                "//"@,
                idx_helper.vertex_count,
                idx_helper.normals_count,
            ),
            self is VPosUvN ==> b == triple_tokens_ok(tokens@, *idx_helper),
    {
        proof {
            reveal_strlit("/");
            reveal_strlit("//");
        }
        match self {
            FaceFormat::VPos => {
                if tokens.len() < 3 {
                    return false;
                }
                let mut ok = true;
                let mut i: usize = 0;
                while i < 3
                    invariant
                        self is VPos,
                        0 <= i <= 3,
                        tokens@.len() >= 3,
                        ok == forall|k: int|
                            0 <= k < i ==> is_usize_literal(#[trigger] tokens@[k]@)
                                && usize_literal_value(tokens@[k]@) > idx_helper.vertex_count,
                    decreases 3 - i,
                {
                    match crate::text::parse_usize(tokens[i].as_str()) {
                        Some(v) => {
                            if v <= idx_helper.vertex_count {
                                ok = false;
                            }
                        },
                        None => {
                            ok = false;
                        },
                    }
                    if !ok {
                        return false;
                    }
                    i = i + 1;
                }
                ok
            },
            FaceFormat::VPosUv => {
                if tokens.len() != 3 {
                    return false;
                }
                let b0 = pair_ok_over(
                    tokens[0].as_str(),
                    "/",
                    idx_helper.vertex_count,
                    idx_helper.uv_count,
                );
                let b1 = pair_ok_over(
                    tokens[1].as_str(),
                    "/",
                    idx_helper.vertex_count,
                    idx_helper.uv_count,
                );
                let b2 = pair_ok_over(
                    tokens[2].as_str(),
                    "/",
                    idx_helper.vertex_count,
                    idx_helper.uv_count,
                );
                b0 && b1 && b2
            },
            FaceFormat::VPosN => {
                if tokens.len() != 3 {
                    return false;
                }
                let b0 = pair_ok_over(
                    tokens[0].as_str(),
                    "//",
                    idx_helper.vertex_count,
                    idx_helper.normals_count,
                );
                let b1 = pair_ok_over(
                    tokens[1].as_str(),
                    "//",
                    idx_helper.vertex_count,
                    idx_helper.normals_count,
                );
                let b2 = pair_ok_over(
                    tokens[2].as_str(),
                    "//",
                    idx_helper.vertex_count,
                    idx_helper.normals_count,
                );
                b0 && b1 && b2
            },
            FaceFormat::VPosUvN => {
                if tokens.len() < 3 {
                    return false;
                }
                let b0 = triple_ok_over(tokens[0].as_str(), idx_helper);
                let b1 = triple_ok_over(tokens[1].as_str(), idx_helper);
                let b2 = triple_ok_over(tokens[2].as_str(), idx_helper);
                b0 && b1 && b2
            },
        }
    }
}

/// The two numbers of a single two-part token.
fn split_pair(t: &str, p: &str) -> (r: (usize, usize))
    requires
        p@.len() >= 1,
        pair_token_ok(t@, p@),
    ensures
        r.0 == pair_first(t@, p@),
        r.1 == pair_second(t@, p@),
{
    proof {
        lemma_first_pat(t@, p@, 0);
    }
    let i = find_sub(t, p, 0).unwrap();
    let m = p.unicode_len();
    let n = t.unicode_len();
    let left = parse_usize_range(t, 0, i).unwrap();
    let right = parse_usize_range(t, i + m, n).unwrap();
    (left, right)
}

/// The three numbers of a single three-part token such as `2/7/5`.
fn split_triple(t: &str) -> (r: (usize, usize, usize))
    requires
        triple_token_ok(t@),
    ensures
        r.0 == triple_v(t@),
        r.1 == triple_uv(t@),
        r.2 == triple_n(t@),
{
    let n = t.unicode_len();
    let e1 = find_from(t, 0, '/');
    proof {
        lemma_seg_end(t@, '/', 0);
    }
    let e2 = find_from(t, e1 + 1, '/');
    proof {
        lemma_seg_end(t@, '/', e1 as int + 1);
    }
    let e3 = find_from(t, e2 + 1, '/');
    proof {
        lemma_seg_end(t@, '/', e2 as int + 1);
    }
    let v = parse_usize_range(t, 0, e1).unwrap();
    let u = parse_usize_range(t, e1 + 1, e2).unwrap();
    let w = parse_usize_range(t, e2 + 1, e3).unwrap();
    (v, u, w)
}

/// Reads the two numbers of each token of a two-part face record.  The
/// first three slots of the result arrays hold the numbers of the
/// corresponding tokens; slots beyond the token count stay zero.
pub fn get_tuple_index(tokens: &Vec<String>, split_pat: &str) -> (r: ([usize; 3], [usize; 3]))
    requires
        split_pat@.len() >= 1,
        tokens@.len() <= 3,
        forall|i: int| 0 <= i < tokens@.len() ==> pair_token_ok(#[trigger] tokens[i]@, split_pat@),
    ensures
        forall|i: int|
            0 <= i < tokens@.len() ==> #[trigger] r.0@[i] == pair_first(tokens[i]@, split_pat@),
        forall|i: int|
            0 <= i < tokens@.len() ==> #[trigger] r.1@[i] == pair_second(tokens[i]@, split_pat@),
        forall|i: int| tokens@.len() <= i < 3 ==> #[trigger] r.0@[i] == 0,
        forall|i: int| tokens@.len() <= i < 3 ==> #[trigger] r.1@[i] == 0,
{
    let count = tokens.len();
    let (a0, b0) = if count > 0 {
        split_pair(tokens[0].as_str(), split_pat)
    } else {
        (0, 0)
    };
    let (a1, b1) = if count > 1 {
        split_pair(tokens[1].as_str(), split_pat)
    } else {
        (0, 0)
    };
    let (a2, b2) = if count > 2 {
        split_pair(tokens[2].as_str(), split_pat)
    } else {
        (0, 0)
    };
    ([a0, a1, a2], [b0, b1, b2])
}

/// Reads one token as a decimal `usize`, as the record parser does for
/// each index it consumes.
pub fn parse_next(s: &str) -> (r: usize)
    requires
        is_usize_literal(s@),
    ensures
        r == usize_literal_value(s@),
{
    parse_usize(s).unwrap()
}

} // verus!

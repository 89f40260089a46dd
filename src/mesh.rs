use vstd::arithmetic::div_mod::lemma_fundamental_div_mod_converse;
use vstd::prelude::*;

verus! {

/// Name under which the barycentric attribute is stored and read by the shader.
pub const ATTRIBUTE_BARYCENTRIC: &'static str = "Barycentric_Position";

/// One of the three canonical corner vectors of a triangle.
#[derive(Clone, Copy, Debug, PartialEq, Eq, Structural)]
pub enum Corner {
    /// The vector (1, 0, 0).
    X,
    /// The vector (0, 1, 0).
    Y,
    /// The vector (0, 0, 1).
    Z,
}

/// The components of a corner vector.
pub open spec fn corner_vector(c: Corner) -> Seq<u8> {
    match c {
        Corner::X => seq![1u8, 0u8, 0u8],
        Corner::Y => seq![0u8, 1u8, 0u8],
        Corner::Z => seq![0u8, 0u8, 1u8],
    }
}

impl Corner {
    /// The corner as a vector of three components, one of them 1.
    pub fn components(self) -> (r: [u8; 3])
        ensures
            r@ == corner_vector(self),
    {
        let r: [u8; 3] = match self {
            Corner::X => [1, 0, 0],
            Corner::Y => [0, 1, 0],
            Corner::Z => [0, 0, 1],
        };
        assert(r@ =~= corner_vector(self));
        r
    }
}

/// The ordering given to even triangles: (0,0,1), (0,1,0), (1,0,0).
pub open spec fn ordering_a(k: int) -> Corner {
    if k == 0 {
        Corner::Z
    } else if k == 1 {
        Corner::Y
    } else {
        Corner::X
    }
}

/// The ordering given to odd triangles: (0,1,0), (0,0,1), (1,0,0).
pub open spec fn ordering_b(k: int) -> Corner {
    if k == 0 {
        Corner::Y
    } else if k == 1 {
        Corner::Z
    } else {
        Corner::X
    }
}

/// The corner of vertex `i` of an expanded mesh: vertex `i % 3` of triangle
/// `i / 3`, taken from ordering A when that triangle is even, B when odd.
pub open spec fn barycentric_of(i: int) -> Corner {
    if (i / 3) % 2 == 0 {
        ordering_a(i % 3)
    } else {
        ordering_b(i % 3)
    }
}

/// The corners of the first `n` vertices of an expanded mesh.
pub open spec fn barycentric_seq(n: nat) -> Seq<Corner> {
    Seq::new(n, |i: int| barycentric_of(i))
}

/// The corner assigned to vertex `i` of an expanded mesh.
pub fn barycentric_corner(i: usize) -> (c: Corner)
    ensures
        c == barycentric_of(i as int),
{
    let k = i % 3;
    if (i / 3) % 2 == 0 {
        if k == 0 {
            Corner::Z
        } else if k == 1 {
            Corner::Y
        } else {
            Corner::X
        }
    } else {
        if k == 0 {
            Corner::Y
        } else if k == 1 {
            Corner::Z
        } else {
            Corner::X
        }
    }
}

/// The corners of the first `n` vertices of an expanded mesh, in order.
pub fn barycentric_corners(n: usize) -> (r: Vec<Corner>)
    ensures
        r@ == barycentric_seq(n as nat),
{
    let mut r: Vec<Corner> = Vec::with_capacity(n);
    let mut i: usize = 0;
    while i < n
        invariant
            i <= n,
            r@ == barycentric_seq(i as nat),
        decreases n - i,
    {
        r.push(barycentric_corner(i));
        i = i + 1;
        assert(r@ =~= barycentric_seq(i as nat));
    }
    r
}

/// Vertex `k` (0, 1 or 2) of triangle `t` takes corner `k` of ordering A
/// when `t` is even and of ordering B when `t` is odd.
pub proof fn lemma_parity_alternation(t: int, k: int)
    requires
        t >= 0,
        0 <= k < 3,
    ensures
        barycentric_of(3 * t + k) == if t % 2 == 0 {
            ordering_a(k)
        } else {
            ordering_b(k)
        },
{
    lemma_fundamental_div_mod_converse(3 * t + k, 3, t, k);
}

/// The set of corners that triangle `t` of a corner stream carries.
pub open spec fn triangle_corners(c: Seq<Corner>, t: int) -> Set<Corner> {
    set![c[3 * t], c[3 * t + 1], c[3 * t + 2]]
}

/// The three vertices of triangle `t` carry three different corners.
pub open spec fn corners_distinct(c: Seq<Corner>, t: int) -> bool {
    &&& c[3 * t] != c[3 * t + 1]
    &&& c[3 * t] != c[3 * t + 2]
    &&& c[3 * t + 1] != c[3 * t + 2]
}

/// Preprocessing a mesh of `n` triangles yields `3n` vertices, and the three
/// vertices of every triangle carry three distinct corners that together are
/// exactly (1,0,0), (0,1,0) and (0,0,1), whatever the triangle's parity.
pub proof fn lemma_preprocessed_triangles<V>(vs: Seq<V>, ix: Option<Seq<u32>>, n: nat)
    requires
        valid_triangles(vs, ix),
        expand(vs, ix).len() == 3 * n,
    ensures
        barycentric_seq(expand(vs, ix).len()).len() == 3 * n,
        forall|t: int|
            0 <= t < n ==> #[trigger] triangle_corners(barycentric_seq(3 * n), t) == set![
                Corner::X,
                Corner::Y,
                Corner::Z,
            ] && corners_distinct(barycentric_seq(3 * n), t),
{
    let c = barycentric_seq(3 * n);
    assert forall|t: int| 0 <= t < n implies #[trigger] triangle_corners(c, t) == set![
        Corner::X,
        Corner::Y,
        Corner::Z,
    ] && corners_distinct(c, t) by {
        lemma_parity_alternation(t, 0);
        lemma_parity_alternation(t, 1);
        lemma_parity_alternation(t, 2);
        assert(3 * t + 2 < 3 * n) by (nonlinear_arith)
            requires
                t < n,
        ;
        assert(triangle_corners(c, t) =~= set![Corner::X, Corner::Y, Corner::Z]);
    }
}

/// Expanding an already expanded mesh changes nothing, so preprocessing it
/// again gives the same vertices and the same corners.
pub proof fn lemma_preprocess_idempotent<V>(vs: Seq<V>, ix: Option<Seq<u32>>)
    ensures
        expand(expand(vs, ix), None) == expand(vs, ix),
        barycentric_seq(expand(expand(vs, ix), None).len()) == barycentric_seq(
            expand(vs, ix).len(),
        ),
{
}

/// How a vertex stream is assembled into primitives.
#[derive(Clone, Copy, Debug, PartialEq, Eq, Structural)]
pub enum Topology {
    PointList,
    LineList,
    LineStrip,
    TriangleList,
    TriangleStrip,
}

/// Why a mesh cannot be preprocessed.
#[derive(Clone, Copy, Debug, PartialEq, Eq, Structural)]
pub enum MeshError {
    /// The mesh is not a list of triangles.
    NotTriangleList,
    /// An index names a vertex that the mesh does not have.
    IndexOutOfRange,
    /// The vertex stream does not split into whole triangles.
    IncompleteTriangle,
}

/// Every index names one of the `n` vertices.
pub open spec fn indices_in_range(ix: Seq<u32>, n: nat) -> bool {
    forall|k: int| 0 <= k < ix.len() ==> (ix[k] as nat) < n
}

/// The vertex stream that a mesh draws: the vertices themselves when it has
/// no indices, else one vertex per index.
pub open spec fn expand<V>(vs: Seq<V>, ix: Option<Seq<u32>>) -> Seq<V> {
    match ix {
        Some(ix) => Seq::new(ix.len(), |k: int| vs[ix[k] as int]),
        None => vs,
    }
}

/// The view of an optional index buffer.
pub open spec fn index_view(ix: Option<Vec<u32>>) -> Option<Seq<u32>> {
    match ix {
        Some(v) => Some(v@),
        None => None,
    }
}

/// A triangle list over `vs`: indices in range, whole triangles.
pub open spec fn valid_triangles<V>(vs: Seq<V>, ix: Option<Seq<u32>>) -> bool {
    &&& match ix {
        Some(ix) => indices_in_range(ix, vs.len()),
        None => true,
    }
    &&& expand(vs, ix).len() % 3 == 0
}

/// A triangle mesh whose vertex records are of type `V` (position, normal,
/// uv, ...), optionally indexed, optionally carrying the barycentric
/// attribute.
pub struct TriangleMesh<V> {
    vertices: Vec<V>,
    indices: Option<Vec<u32>>,
    barycentric: Option<Vec<Corner>>,
}

impl<V> TriangleMesh<V> {
    /// The vertex records.
    pub closed spec fn vertex_seq(&self) -> Seq<V> {
        self.vertices@
    }

    /// The index buffer, if the mesh has one.
    pub closed spec fn index_seq(&self) -> Option<Seq<u32>> {
        index_view(self.indices)
    }

    /// The barycentric attribute, if it has been computed.
    pub closed spec fn corner_seq(&self) -> Option<Seq<Corner>> {
        match self.barycentric {
            Some(b) => Some(b@),
            None => None,
        }
    }

    #[verifier::type_invariant]
    spec fn well_formed(&self) -> bool {
        &&& valid_triangles(self.vertex_seq(), self.index_seq())
        &&& match self.corner_seq() {
            Some(b) => self.index_seq() is None && b.len() == self.vertex_seq().len(),
            None => true,
        }
    }

    /// Builds a mesh from a triangle list, rejecting what cannot be drawn
    /// as one.
    pub fn new(topology: Topology, vertices: Vec<V>, indices: Option<Vec<u32>>) -> (r: Result<
        Self,
        MeshError,
    >)
        ensures
            match r {
                Ok(m) => {
                    &&& topology == Topology::TriangleList
                    &&& valid_triangles(vertices@, index_view(indices))
                    &&& m.vertex_seq() == vertices@
                    &&& m.index_seq() == index_view(indices)
                    &&& m.corner_seq() is None
                },
                Err(e) => {
                    &&& (e == MeshError::NotTriangleList <==> topology != Topology::TriangleList)
                    &&& (e == MeshError::IndexOutOfRange <==> topology == Topology::TriangleList
                        && index_view(indices) is Some && !indices_in_range(
                        index_view(indices).unwrap(),
                        vertices@.len(),
                    ))
                    &&& (e == MeshError::IncompleteTriangle <==> topology
                        == Topology::TriangleList && !valid_triangles(
                        vertices@,
                        index_view(indices),
                    ) && (index_view(indices) is Some ==> indices_in_range(
                        index_view(indices).unwrap(),
                        vertices@.len(),
                    )))
                },
            },
    {
        if topology != Topology::TriangleList {
            return Err(MeshError::NotTriangleList);
        }
        let n = vertices.len();
        let count = match &indices {
            Some(ix) => {
                let mut k: usize = 0;
                while k < ix.len()
                    invariant
                        k <= ix@.len(),
                        n == vertices@.len(),
                        index_view(indices) == Some(ix@),
                        topology == Topology::TriangleList,
                        forall|j: int| 0 <= j < k ==> (ix@[j] as nat) < n,
                    decreases ix@.len() - k,
                {
                    if ix[k] as usize >= n {
                        assert(!indices_in_range(ix@, vertices@.len())) by {
                            assert((ix@[k as int] as nat) >= n);
                        }
                        return Err(MeshError::IndexOutOfRange);
                    }
                    k = k + 1;
                }
                ix.len()
            },
            None => n,
        };
        if count % 3 != 0 {
            return Err(MeshError::IncompleteTriangle);
        }
        Ok(TriangleMesh { vertices, indices, barycentric: None })
    }

    /// Number of vertex records.
    pub fn vertex_count(&self) -> (r: usize)
        ensures
            r == self.vertex_seq().len(),
    {
        self.vertices.len()
    }

    /// Number of triangles drawn.
    pub fn triangle_count(&self) -> (r: usize)
        ensures
            3 * r == expand(self.vertex_seq(), self.index_seq()).len(),
    {
        proof {
            use_type_invariant(self);
        }
        match &self.indices {
            Some(ix) => ix.len() / 3,
            None => self.vertices.len() / 3,
        }
    }

    /// The vertex records.
    pub fn vertices(&self) -> (r: &Vec<V>)
        ensures
            r@ == self.vertex_seq(),
    {
        &self.vertices
    }

    /// The index buffer, if any.
    pub fn indices(&self) -> (r: &Option<Vec<u32>>)
        ensures
            index_view(*r) == self.index_seq(),
    {
        &self.indices
    }

    /// The barycentric attribute, if computed.
    pub fn barycentric(&self) -> (r: &Option<Vec<Corner>>)
        ensures
            match *r {
                Some(b) => self.corner_seq() == Some(b@),
                None => self.corner_seq() is None,
            },
    {
        &self.barycentric
    }
}

impl<V: Copy> TriangleMesh<V> {
    /// Gives every drawn vertex a record of its own and drops the index
    /// buffer; a mesh without indices is left as it is.
    pub fn duplicate_vertices(&mut self)
        ensures
            final(self).vertex_seq() == expand(old(self).vertex_seq(), old(self).index_seq()),
            final(self).index_seq() is None,
            final(self).corner_seq() == old(self).corner_seq(),
    {
        proof {
            use_type_invariant(&*self);
        }
        let mut out: Vec<V> = Vec::new();
        match &self.indices {
            None => {
                return;
            },
            Some(ix) => {
                let mut k: usize = 0;
                while k < ix.len()
                    invariant
                        k <= ix@.len(),
                        indices_in_range(ix@, self.vertices@.len()),
                        out@ == expand(self.vertices@, Some(ix@)).take(k as int),
                    decreases ix@.len() - k,
                {
                    let j = ix[k] as usize;
                    out.push(self.vertices[j]);
                    k = k + 1;
                    assert(out@ =~= expand(self.vertices@, Some(ix@)).take(k as int));
                }
                assert(out@ =~= expand(self.vertices@, Some(ix@)));
            },
        }
        *self = TriangleMesh { vertices: out, indices: None, barycentric: None };
    }
}

/// Adds the barycentric attribute to a mesh, expanding shared vertices first.
pub trait ComputeBarycentric {
    fn compute_barycentric(&mut self);
}

impl<V: Copy> ComputeBarycentric for TriangleMesh<V> {
    /// Expands the mesh to one record per drawn vertex and sets each
    /// vertex's corner by the alternating rule.
    fn compute_barycentric(&mut self)
        ensures
            final(self).vertex_seq() == expand(old(self).vertex_seq(), old(self).index_seq()),
            final(self).index_seq() is None,
            final(self).corner_seq() == Some(barycentric_seq(final(self).vertex_seq().len())),
    {
        self.duplicate_vertices();
        proof {
            use_type_invariant(&*self);
        }
        let n = self.vertices.len();
        let corners = barycentric_corners(n);
        self.barycentric = Some(corners);
    }
}

} // verus!

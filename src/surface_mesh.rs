//! Indexed triangle meshes: vertices plus triangles that refer to them by index.

use std::collections::HashMap;
use vstd::prelude::*;

verus! {

broadcast use vstd::std_specs::hash::group_hash_axioms;

/// The three vertex indices of one triangle.
#[derive(Clone, Copy, PartialEq, Eq, Debug)]
pub struct TriangleIndices {
    pub indices: [usize; 3],
}

impl TriangleIndices {
    pub fn new(a: usize, b: usize, c: usize) -> (r: Self)
        ensures
            r.indices@ == seq![a, b, c],
    {
        let r = TriangleIndices { indices: [a, b, c] };
        proof {
            assert(r.indices@ =~= seq![a, b, c]);
        }
        r
    }
}

/// A triangle given by the positions of its corners.
#[derive(Clone, Copy, PartialEq, Eq, Debug)]
pub struct Triangle<V> {
    pub a: V,
    pub b: V,
    pub c: V,
}

/// Whether every index of every triangle names one of `n` vertices.
pub open spec fn indices_below(triangles: Seq<TriangleIndices>, n: nat) -> bool {
    forall|t: int, k: int|
        0 <= t < triangles.len() && 0 <= k < 3 ==> (#[trigger] triangles[t].indices@[k]) < n
}

/// An edge with its smaller endpoint first.
pub open spec fn sorted_edge(e: (usize, usize)) -> (usize, usize) {
    if e.1 < e.0 {
        (e.1, e.0)
    } else {
        e
    }
}

/// The edges of each triangle in the order that subdivision visits them:
/// `(a, b)`, `(a, c)`, `(b, c)`.
pub open spec fn triangle_edges(t: TriangleIndices) -> Seq<(usize, usize)> {
    let ix = t.indices@;
    seq![(ix[0], ix[1]), (ix[0], ix[2]), (ix[1], ix[2])]
}

/// The edges of all triangles, in visiting order, repeats included.
pub open spec fn raw_edges(triangles: Seq<TriangleIndices>) -> Seq<(usize, usize)>
    decreases triangles.len(),
{
    if triangles.len() == 0 {
        Seq::empty()
    } else {
        raw_edges(triangles.drop_last()) + triangle_edges(triangles.last())
    }
}

/// Whether an edge, in either direction, is among `edges`.
pub open spec fn edge_seen(edges: Seq<(usize, usize)>, e: (usize, usize)) -> bool {
    exists|k: int| 0 <= k < edges.len() && sorted_edge(#[trigger] edges[k]) == sorted_edge(e)
}

/// The first visit of each distinct edge, in visiting order.
pub open spec fn first_edges(raw: Seq<(usize, usize)>) -> Seq<(usize, usize)>
    decreases raw.len(),
{
    if raw.len() == 0 {
        Seq::empty()
    } else {
        let prev = first_edges(raw.drop_last());
        if edge_seen(prev, raw.last()) {
            prev
        } else {
            prev.push(raw.last())
        }
    }
}

/// The position of an edge among the distinct edges.
pub open spec fn edge_slot(edges: Seq<(usize, usize)>, e: (usize, usize)) -> int {
    choose|k: int| 0 <= k < edges.len() && sorted_edge(edges[k]) == sorted_edge(e)
}

/// The index of the midpoint vertex of an edge after subdivision: it follows
/// the `n` old vertices, in the order of the distinct edges.
pub open spec fn midpoint_index(n: nat, edges: Seq<(usize, usize)>, e: (usize, usize)) -> usize {
    (n + edge_slot(edges, e)) as usize
}

/// The four triangles that replace one triangle `(a, b, c)` when its edges
/// are split at their midpoints.
pub open spec fn split_triangle(t: TriangleIndices, n: nat, edges: Seq<(usize, usize)>) -> Seq<Seq<usize>> {
    let a = t.indices@[0];
    let b = t.indices@[1];
    let c = t.indices@[2];
    let ab = midpoint_index(n, edges, (a, b));
    let ac = midpoint_index(n, edges, (a, c));
    let bc = midpoint_index(n, edges, (b, c));
    seq![seq![a, ab, ac], seq![b, bc, ab], seq![c, ac, bc], seq![ab, bc, ac]]
}

/// A single number for an undirected edge.
spec fn edge_key(e: (usize, usize)) -> u128 {
    let s = sorted_edge(e);
    (s.0 as int * 0x1_0000_0000_0000_0000 + s.1 as int) as u128
}

proof fn lemma_edge_key_injective(e: (usize, usize), f: (usize, usize))
    ensures
        edge_key(e) == edge_key(f) <==> sorted_edge(e) == sorted_edge(f),
{
}

fn edge_key_of(a: usize, b: usize) -> (k: u128)
    ensures
        k == edge_key((a, b)),
{
    let (lo, hi) = if b < a {
        (b, a)
    } else {
        (a, b)
    };
    (lo as u128) * 0x1_0000_0000_0000_0000u128 + (hi as u128)
}

/// The midpoint table while a mesh is being subdivided: the vertex list is
/// the old one followed by one midpoint per distinct edge, and the map finds
/// each edge's midpoint by the edge's key.
spec fn midpoints_ok<V, F: Fn(V, V) -> V>(
    old_vertices: Seq<V>,
    vertices: Seq<V>,
    map: Map<u128, usize>,
    edges: Seq<(usize, usize)>,
    midpoint: F,
) -> bool {
    let n = old_vertices.len();
    &&& vertices.len() == n + edges.len()
    &&& forall|i: int| 0 <= i < n ==> #[trigger] vertices[i] == old_vertices[i]
    &&& forall|k: int|
        0 <= k < edges.len() ==> {
            &&& (#[trigger] edges[k]).0 < n
            &&& edges[k].1 < n
            &&& midpoint.ensures(
                (old_vertices[edges[k].0 as int], old_vertices[edges[k].1 as int]),
                vertices[n + k],
            )
            &&& map.contains_key(edge_key(edges[k]))
            &&& map[edge_key(edges[k])] == n + k
        }
    &&& forall|key: u128| #[trigger]
        map.contains_key(key) ==> exists|k: int|
            0 <= k < edges.len() && edge_key(#[trigger] edges[k]) == key
}

/// Records the midpoint of edge `(a, b)` unless the edge, in either
/// direction, already has one.
fn insert_midpoint<V: Copy, F: Fn(V, V) -> V>(
    old_vertices: &Vec<V>,
    vertices: &mut Vec<V>,
    map: &mut HashMap<u128, usize>,
    a: usize,
    b: usize,
    midpoint: &F,
    Ghost(raw): Ghost<Seq<(usize, usize)>>,
)
    requires
        a < old_vertices@.len(),
        b < old_vertices@.len(),
        forall|x: V, y: V| midpoint.requires((x, y)),
        midpoints_ok(old_vertices@, old(vertices)@, old(map)@, first_edges(raw), *midpoint),
    ensures
        midpoints_ok(old_vertices@, final(vertices)@, final(map)@, first_edges(raw.push((a, b))), *midpoint),
        final(map)@.contains_key(edge_key((a, b))),
        forall|key: u128| old(map)@.contains_key(key) ==> #[trigger] final(map)@.contains_key(key),
{
    let key = edge_key_of(a, b);
    let ghost edges = first_edges(raw);
    proof {
        assert(raw.push((a, b)).drop_last() =~= raw);
        assert(raw.push((a, b)).last() == (a, b));
    }
    if map.contains_key(&key) {
        proof {
            let k = choose|k: int| 0 <= k < edges.len() && edge_key(#[trigger] edges[k]) == key;
            lemma_edge_key_injective(edges[k], (a, b));
            assert(edge_seen(edges, (a, b)));
        }
    } else {
        proof {
            if edge_seen(edges, (a, b)) {
                let k = choose|k: int|
                    0 <= k < edges.len() && sorted_edge(#[trigger] edges[k]) == sorted_edge((a, b));
                lemma_edge_key_injective(edges[k], (a, b));
                assert(map@.contains_key(edge_key(edges[k])));
            }
        }
        let index = vertices.len();
        let m = midpoint(vertices[a], vertices[b]);
        let ghost before = vertices@;
        let ghost old_map = map@;
        vertices.push(m);
        map.insert(key, index);
        proof {
            let new_edges = edges.push((a, b));
            assert(first_edges(raw.push((a, b))) == new_edges);
            let n = old_vertices@.len();
            assert forall|k: int| 0 <= k < new_edges.len() implies {
                &&& (#[trigger] new_edges[k]).0 < n
                &&& new_edges[k].1 < n
                &&& midpoint.ensures(
                    (old_vertices@[new_edges[k].0 as int], old_vertices@[new_edges[k].1 as int]),
                    vertices@[n + k],
                )
                &&& map@.contains_key(edge_key(new_edges[k]))
                &&& map@[edge_key(new_edges[k])] == n + k
            } by {
                if k < edges.len() {
                    assert(new_edges[k] == edges[k]);
                    assert(old_map.contains_key(edge_key(edges[k])));
                    assert(vertices@[n + k] == before[n + k]);
                } else {
                    assert(new_edges[k] == (a, b));
                    assert(before[a as int] == old_vertices@[a as int]);
                    assert(before[b as int] == old_vertices@[b as int]);
                }
            }
            assert forall|key2: u128| #[trigger] map@.contains_key(key2) implies exists|k: int|
                0 <= k < new_edges.len() && edge_key(#[trigger] new_edges[k]) == key2 by {
                if key2 == key {
                    assert(new_edges[edges.len() as int] == (a, b));
                } else {
                    assert(old_map.contains_key(key2));
                    let k = choose|k: int| 0 <= k < edges.len() && edge_key(#[trigger] edges[k]) == key2;
                    assert(new_edges[k] == edges[k]);
                }
            }
            assert forall|i: int| 0 <= i < n implies #[trigger] vertices@[i] == old_vertices@[i] by {
                assert(vertices@[i] == before[i]);
            }
        }
    }
}

/// An element-by-element copy.
fn copy_vec<T: Copy>(v: &Vec<T>) -> (r: Vec<T>)
    ensures
        r@ == v@,
{
    let mut r: Vec<T> = Vec::new();
    let mut i: usize = 0;
    while i < v.len()
        invariant
            i <= v@.len(),
            r@ == v@.take(i as int),
        decreases v@.len() - i,
    {
        r.push(v[i]);
        proof {
            assert(v@.take(i + 1) =~= v@.take(i as int).push(v@[i as int]));
        }
        i = i + 1;
    }
    proof {
        assert(v@.take(v@.len() as int) =~= v@);
    }
    r
}

/// A mesh whose triangles index into its vertex list.
#[derive(Clone, PartialEq, Eq, Debug)]
pub struct SurfaceMesh<V> {
    vertices: Vec<V>,
    triangles: Vec<TriangleIndices>,
}

impl<V: Copy> SurfaceMesh<V> {
    pub closed spec fn spec_vertices(&self) -> Seq<V> {
        self.vertices@
    }

    pub closed spec fn spec_triangles(&self) -> Seq<TriangleIndices> {
        self.triangles@
    }

    /// Every triangle refers to existing vertices.
    pub open spec fn wf(&self) -> bool {
        indices_below(self.spec_triangles(), self.spec_vertices().len())
    }

    /// Builds a mesh, unless some triangle refers to a vertex that is not there.
    pub fn from_indices(vertices: Vec<V>, triangles: Vec<TriangleIndices>) -> (r: Option<Self>)
        ensures
            r.is_some() == indices_below(triangles@, vertices@.len()),
            r.is_some() ==> {
                &&& r.unwrap().wf()
                &&& r.unwrap().spec_vertices() == vertices@
                &&& r.unwrap().spec_triangles() == triangles@
            },
    {
        let num_vertices = vertices.len();
        let mut t: usize = 0;
        while t < triangles.len()
            invariant
                num_vertices == vertices@.len(),
                t <= triangles@.len(),
                indices_below(triangles@.take(t as int), num_vertices as nat),
            decreases triangles@.len() - t,
        {
            let tri = triangles[t];
            if !(tri.indices[0] < num_vertices && tri.indices[1] < num_vertices && tri.indices[2]
                < num_vertices) {
                proof {
                    assert(!(triangles@[t as int].indices@[0] < num_vertices
                        && triangles@[t as int].indices@[1] < num_vertices
                        && triangles@[t as int].indices@[2] < num_vertices));
                }
                return None;
            }
            proof {
                assert forall|u: int, k: int|
                    0 <= u < t + 1 && 0 <= k < 3 implies (#[trigger] triangles@.take(t + 1)[u].indices@[k])
                    < num_vertices by {
                    if u < t {
                        assert(triangles@.take(t as int)[u] == triangles@.take(t + 1)[u]);
                    }
                }
            }
            t = t + 1;
        }
        proof {
            assert(triangles@.take(t as int) =~= triangles@);
        }
        Some(SurfaceMesh { vertices: vertices, triangles: triangles })
    }

    pub fn vertices(&self) -> (r: &[V])
        ensures
            r@ == self.spec_vertices(),
    {
        self.vertices.as_slice()
    }

    pub fn triangle_indices(&self) -> (r: &[TriangleIndices])
        ensures
            r@ == self.spec_triangles(),
    {
        self.triangles.as_slice()
    }

    pub fn num_vertices(&self) -> (n: usize)
        ensures
            n == self.spec_vertices().len(),
    {
        self.vertices.len()
    }

    pub fn num_triangles(&self) -> (n: usize)
        ensures
            n == self.spec_triangles().len(),
    {
        self.triangles.len()
    }

    /// The corners of each triangle, in triangle order.
    pub fn triangles(&self) -> (r: Vec<Triangle<V>>)
        requires
            self.wf(),
        ensures
            r@.len() == self.spec_triangles().len(),
            forall|t: int| 0 <= t < r@.len() ==> #[trigger] r@[t] == self.corners(t),
    {
        let mut r: Vec<Triangle<V>> = Vec::new();
        let mut t: usize = 0;
        while t < self.triangles.len()
            invariant
                self.wf(),
                t <= self.spec_triangles().len(),
                r@.len() == t,
                forall|u: int| 0 <= u < t ==> #[trigger] r@[u] == self.corners(u),
            decreases self.spec_triangles().len() - t,
        {
            let tri = self.triangles[t];
            proof {
                assert(self.spec_triangles()[t as int].indices@[0] < self.spec_vertices().len());
                assert(self.spec_triangles()[t as int].indices@[1] < self.spec_vertices().len());
                assert(self.spec_triangles()[t as int].indices@[2] < self.spec_vertices().len());
            }
            r.push(Triangle {
                a: self.vertices[tri.indices[0]],
                b: self.vertices[tri.indices[1]],
                c: self.vertices[tri.indices[2]],
            });
            t = t + 1;
        }
        r
    }

    /// The corners of triangle `t`.
    pub open spec fn corners(&self, t: int) -> Triangle<V> {
        let ix = self.spec_triangles()[t].indices@;
        Triangle {
            a: self.spec_vertices()[ix[0] as int],
            b: self.spec_vertices()[ix[1] as int],
            c: self.spec_vertices()[ix[2] as int],
        }
    }

    /// A geometrically equal mesh in which every triangle has three vertices
    /// of its own: triangle `t` is made of vertices `3t`, `3t + 1`, `3t + 2`.
    pub fn replicate_vertices(&self) -> (r: Self)
        requires
            self.wf(),
            3 * self.spec_triangles().len() <= usize::MAX,
        ensures
            r.wf(),
            r.spec_vertices().len() == 3 * self.spec_triangles().len(),
            r.spec_triangles().len() == self.spec_triangles().len(),
            forall|t: int|
                0 <= t < r.spec_triangles().len() ==> (#[trigger] r.spec_triangles()[t]).indices@ == seq![
                    (3 * t) as usize,
                    (3 * t + 1) as usize,
                    (3 * t + 2) as usize,
                ],
            forall|t: int, k: int|
                0 <= t < self.spec_triangles().len() && 0 <= k < 3 ==> #[trigger] r.spec_vertices()[3
                    * t + k] == self.spec_vertices()[self.spec_triangles()[t].indices@[k] as int],
    {
        let n = self.triangles.len();
        let mut vertices: Vec<V> = Vec::new();
        let mut triangles: Vec<TriangleIndices> = Vec::new();
        let mut t: usize = 0;
        while t < n
            invariant
                self.wf(),
                n == self.spec_triangles().len(),
                3 * n <= usize::MAX,
                t <= n,
                vertices@.len() == 3 * t,
                triangles@.len() == t,
                forall|u: int|
                    0 <= u < t ==> (#[trigger] triangles@[u]).indices@ == seq![
                        (3 * u) as usize,
                        (3 * u + 1) as usize,
                        (3 * u + 2) as usize,
                    ],
                forall|u: int, k: int|
                    0 <= u < t && 0 <= k < 3 ==> #[trigger] vertices@[3 * u + k]
                        == self.spec_vertices()[self.spec_triangles()[u].indices@[k] as int],
            decreases n - t,
        {
            let tri = self.triangles[t];
            proof {
                assert(self.spec_triangles()[t as int].indices@[0] < self.spec_vertices().len());
                assert(self.spec_triangles()[t as int].indices@[1] < self.spec_vertices().len());
                assert(self.spec_triangles()[t as int].indices@[2] < self.spec_vertices().len());
            }
            let ghost before = vertices@;
            vertices.push(self.vertices[tri.indices[0]]);
            vertices.push(self.vertices[tri.indices[1]]);
            vertices.push(self.vertices[tri.indices[2]]);
            let first = 3 * t;
            triangles.push(TriangleIndices::new(first, first + 1, first + 2));
            proof {
                assert forall|u: int, k: int|
                    0 <= u < t + 1 && 0 <= k < 3 implies #[trigger] vertices@[3 * u + k]
                        == self.spec_vertices()[self.spec_triangles()[u].indices@[k] as int] by {
                    if u < t {
                        assert(vertices@[3 * u + k] == before[3 * u + k]);
                    }
                }
            }
            t = t + 1;
        }
        let r = SurfaceMesh { vertices, triangles };
        proof {
            assert forall|u: int, k: int|
                0 <= u < r.spec_triangles().len() && 0 <= k < 3 implies (#[trigger] r.spec_triangles()[u].indices@[k])
                < r.spec_vertices().len() by {
                assert(r.spec_triangles()[u].indices@ == seq![
                    (3 * u) as usize,
                    (3 * u + 1) as usize,
                    (3 * u + 2) as usize,
                ]);
            }
        }
        r
    }
    /// `r` is this mesh with every triangle split into four at the midpoints
    /// of its edges: each distinct edge gets one new vertex, computed by
    /// `midpoint` from the edge's endpoints and appended after the old
    /// vertices in the order in which edges are first met.
    pub open spec fn is_subdivision<F: Fn(V, V) -> V>(&self, r: Self, midpoint: F) -> bool {
        let n = self.spec_vertices().len();
        let edges = first_edges(raw_edges(self.spec_triangles()));
        &&& r.spec_vertices().len() == n + edges.len()
        &&& forall|i: int| 0 <= i < n ==> #[trigger] r.spec_vertices()[i] == self.spec_vertices()[i]
        &&& forall|k: int|
            0 <= k < edges.len() ==> midpoint.ensures(
                (self.spec_vertices()[(#[trigger] edges[k]).0 as int], self.spec_vertices()[edges[k].1 as int]),
                r.spec_vertices()[n + k],
            )
        &&& r.spec_triangles().len() == 4 * self.spec_triangles().len()
        &&& forall|t: int, j: int|
            0 <= t < self.spec_triangles().len() && 0 <= j < 4 ==> (#[trigger] r.spec_triangles()[4 * t + j]).indices@
                == split_triangle(self.spec_triangles()[t], n, edges)[j]
    }

    /// `chain` leads from this mesh to `r` in `times` subdivisions: it starts
    /// with a mesh equal to this one, ends with `r`, and each mesh in it is
    /// the subdivision of the one before.
    pub open spec fn is_subdivision_chain<F: Fn(V, V) -> V>(
        &self,
        chain: Seq<Self>,
        r: Self,
        times: nat,
        midpoint: F,
    ) -> bool {
        &&& chain.len() == times + 1
        &&& chain[0].spec_vertices() == self.spec_vertices()
        &&& chain[0].spec_triangles() == self.spec_triangles()
        &&& chain.last() == r
        &&& forall|i: int|
            #![trigger chain[i]]
            0 <= i < times ==> chain[i].wf() && chain[i].is_subdivision(chain[i + 1], midpoint)
    }

    /// Subdivides the mesh `times` times in a row.
    pub fn subdivide<F: Fn(V, V) -> V>(&self, times: u32, midpoint: &F) -> (r: Self)
        requires
            self.wf(),
            forall|x: V, y: V| midpoint.requires((x, y)),
        ensures
            r.wf(),
            exists|chain: Seq<Self>| #[trigger] self.is_subdivision_chain(chain, r, times as nat, *midpoint),
    {
        let mut mesh = SurfaceMesh { vertices: copy_vec(&self.vertices), triangles: copy_vec(&self.triangles) };
        let ghost chain = seq![mesh];
        proof {
            assert(chain[0] == mesh);
            assert(chain.last() == mesh);
        }
        let mut k: u32 = 0;
        while k < times
            invariant
                k <= times,
                mesh.wf(),
                forall|x: V, y: V| midpoint.requires((x, y)),
                self.is_subdivision_chain(chain, mesh, k as nat, *midpoint),
            decreases times - k,
        {
            let next = mesh.subdivide_once(midpoint);
            proof {
                let longer = chain.push(next);
                assert forall|i: int| 0 <= i < k + 1 implies #[trigger] longer[i].wf() && longer[i].is_subdivision(
                    longer[i + 1],
                    *midpoint,
                ) by {
                    if i < k {
                        assert(longer[i] == chain[i] && longer[i + 1] == chain[i + 1]);
                    } else {
                        assert(longer[i] == mesh && longer[i + 1] == next);
                    }
                }
                assert(longer[0] == chain[0]);
                assert(longer.last() == next);
                chain = longer;
            }
            mesh = next;
            k = k + 1;
        }
        proof {
            assert(self.is_subdivision_chain(chain, mesh, times as nat, *midpoint));
        }
        mesh
    }

    /// Splits every triangle into four at the midpoints of its edges. Each
    /// distinct edge gets one new vertex, computed by `midpoint` from the
    /// edge's endpoints, appended in the order in which edges are first met.
    pub fn subdivide_once<F: Fn(V, V) -> V>(&self, midpoint: &F) -> (r: Self)
        requires
            self.wf(),
            forall|x: V, y: V| midpoint.requires((x, y)),
        ensures
            r.wf(),
            self.is_subdivision(r, *midpoint),
    {
        let n = self.vertices.len();
        let num_triangles = self.triangles.len();
        let mut vertices = copy_vec(&self.vertices);
        proof {
            assert(raw_edges(self.spec_triangles().take(0)) =~= Seq::<(usize, usize)>::empty());
        }
        let mut map: HashMap<u128, usize> = HashMap::new();
        let mut t: usize = 0;
        while t < num_triangles
            invariant
                self.wf(),
                n == self.spec_vertices().len(),
                num_triangles == self.spec_triangles().len(),
                t <= num_triangles,
                forall|x: V, y: V| midpoint.requires((x, y)),
                midpoints_ok(
                    self.spec_vertices(),
                    vertices@,
                    map@,
                    first_edges(raw_edges(self.spec_triangles().take(t as int))),
                    *midpoint,
                ),
                forall|u: int, j: int|
                    0 <= u < t && 0 <= j < 3 ==> map@.contains_key(
                        edge_key(#[trigger] triangle_edges(self.spec_triangles()[u])[j]),
                    ),
            decreases num_triangles - t,
        {
            let tri = self.triangles[t];
            let a = tri.indices[0];
            let b = tri.indices[1];
            let c = tri.indices[2];
            let ghost raw = raw_edges(self.spec_triangles().take(t as int));
            let ghost old_map = map@;
            proof {
                assert(self.spec_triangles()[t as int].indices@[0] < n);
                assert(self.spec_triangles()[t as int].indices@[1] < n);
                assert(self.spec_triangles()[t as int].indices@[2] < n);
            }
            insert_midpoint(&self.vertices, &mut vertices, &mut map, a, b, midpoint, Ghost(raw));
            insert_midpoint(&self.vertices, &mut vertices, &mut map, a, c, midpoint, Ghost(raw.push((a, b))));
            insert_midpoint(
                &self.vertices,
                &mut vertices,
                &mut map,
                b,
                c,
                midpoint,
                Ghost(raw.push((a, b)).push((a, c))),
            );
            proof {
                let next = self.spec_triangles().take(t + 1);
                assert(next.drop_last() =~= self.spec_triangles().take(t as int));
                assert(next.last() == tri);
                assert(raw_edges(next) =~= raw.push((a, b)).push((a, c)).push((b, c)));
                assert forall|u: int, j: int|
                    0 <= u < t + 1 && 0 <= j < 3 implies map@.contains_key(
                        edge_key(#[trigger] triangle_edges(self.spec_triangles()[u])[j]),
                    ) by {
                    if u < t {
                        assert(old_map.contains_key(edge_key(triangle_edges(self.spec_triangles()[u])[j])));
                    }
                }
            }
            t = t + 1;
        }
        proof {
            assert(self.spec_triangles().take(num_triangles as int) =~= self.spec_triangles());
        }
        let ghost edges = first_edges(raw_edges(self.spec_triangles()));
        let mut triangles: Vec<TriangleIndices> = Vec::new();
        t = 0;
        while t < num_triangles
            invariant
                self.wf(),
                n == self.spec_vertices().len(),
                num_triangles == self.spec_triangles().len(),
                t <= num_triangles,
                midpoints_ok(self.spec_vertices(), vertices@, map@, edges, *midpoint),
                forall|u: int, j: int|
                    0 <= u < num_triangles && 0 <= j < 3 ==> map@.contains_key(
                        edge_key(#[trigger] triangle_edges(self.spec_triangles()[u])[j]),
                    ),
                triangles@.len() == 4 * t,
                forall|u: int, j: int|
                    0 <= u < t && 0 <= j < 4 ==> (#[trigger] triangles@[4 * u + j]).indices@
                        == split_triangle(self.spec_triangles()[u], n as nat, edges)[j],
                indices_below(triangles@, vertices@.len()),
            decreases num_triangles - t,
        {
            let tri = self.triangles[t];
            let a = tri.indices[0];
            let b = tri.indices[1];
            let c = tri.indices[2];
            proof {
                assert(self.spec_triangles()[t as int].indices@[0] < n);
                assert(self.spec_triangles()[t as int].indices@[1] < n);
                assert(self.spec_triangles()[t as int].indices@[2] < n);
                assert(triangle_edges(tri)[0] == (a, b));
                assert(triangle_edges(tri)[1] == (a, c));
                assert(triangle_edges(tri)[2] == (b, c));
            }
            let ab = self.lookup_midpoint(&map, a, b, Ghost(vertices@), Ghost(edges), midpoint);
            let ac = self.lookup_midpoint(&map, a, c, Ghost(vertices@), Ghost(edges), midpoint);
            let bc = self.lookup_midpoint(&map, b, c, Ghost(vertices@), Ghost(edges), midpoint);
            let ghost before = triangles@;
            triangles.push(TriangleIndices::new(a, ab, ac));
            triangles.push(TriangleIndices::new(b, bc, ab));
            triangles.push(TriangleIndices::new(c, ac, bc));
            triangles.push(TriangleIndices::new(ab, bc, ac));
            proof {
                let split = split_triangle(self.spec_triangles()[t as int], n as nat, edges);
                assert forall|u: int, j: int|
                    0 <= u < t + 1 && 0 <= j < 4 implies (#[trigger] triangles@[4 * u + j]).indices@
                        == split_triangle(self.spec_triangles()[u], n as nat, edges)[j] by {
                    if u < t {
                        assert(triangles@[4 * u + j] == before[4 * u + j]);
                    }
                }
                assert forall|u: int, k: int|
                    0 <= u < triangles@.len() && 0 <= k < 3 implies (#[trigger] triangles@[u].indices@[k])
                    < vertices@.len() by {
                    if u < before.len() {
                        assert(triangles@[u] == before[u]);
                    }
                }
            }
            t = t + 1;
        }
        SurfaceMesh { vertices, triangles }
    }

    /// The midpoint vertex of an edge that has one.
    fn lookup_midpoint<F: Fn(V, V) -> V>(
        &self,
        map: &HashMap<u128, usize>,
        a: usize,
        b: usize,
        Ghost(vertices): Ghost<Seq<V>>,
        Ghost(edges): Ghost<Seq<(usize, usize)>>,
        midpoint: &F,
    ) -> (m: usize)
        requires
            midpoints_ok(self.spec_vertices(), vertices, map@, edges, *midpoint),
            map@.contains_key(edge_key((a, b))),
        ensures
            m == midpoint_index(self.spec_vertices().len(), edges, (a, b)),
            m < vertices.len(),
    {
        let key = edge_key_of(a, b);
        let m = match map.get(&key) {
            Some(m) => *m,
            None => 0,
        };
        proof {
            let n = self.spec_vertices().len();
            let k = choose|k: int| 0 <= k < edges.len() && edge_key(#[trigger] edges[k]) == key;
            lemma_edge_key_injective(edges[k], (a, b));
            assert(sorted_edge(edges[k]) == sorted_edge((a, b)));
            let s = edge_slot(edges, (a, b));
            assert(0 <= s < edges.len() && sorted_edge(edges[s]) == sorted_edge((a, b)));
            lemma_edge_key_injective(edges[s], (a, b));
            assert(map@[edge_key(edges[s])] == n + s);
        }
        m
    }
}

} // verus!

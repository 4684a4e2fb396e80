//! Wireframe shapes: vertices and the edges that join them.
use vstd::prelude::*;

verus! {

/// A point whose coordinates are whole tenths of a world unit.
#[derive(Clone, Copy, Debug, PartialEq, Eq, Structural)]
pub struct GridPoint {
    pub x: i32,
    pub y: i32,
    pub z: i32,
}

impl GridPoint {
    pub fn new(x: i32, y: i32, z: i32) -> (r: GridPoint)
        ensures
            r == (GridPoint { x, y, z }),
    {
        GridPoint { x, y, z }
    }
}

/// Every edge names two vertices that exist.
pub open spec fn edges_in_range(vertices: Seq<GridPoint>, edges: Seq<(usize, usize)>) -> bool {
    forall|i: int|
        0 <= i < edges.len() ==> #[trigger] edges[i].0 < vertices.len() && edges[i].1
            < vertices.len()
}

/// A wireframe: vertex positions, and edges given as pairs of vertex indices.
pub struct Shape {
    vertices: Vec<GridPoint>,
    edges: Vec<(usize, usize)>,
}

impl View for Shape {
    type V = (Seq<GridPoint>, Seq<(usize, usize)>);

    closed spec fn view(&self) -> Self::V {
        (self.vertices@, self.edges@)
    }
}

impl Shape {
    #[verifier::type_invariant]
    spec fn edges_valid(self) -> bool {
        edges_in_range(self.vertices@, self.edges@)
    }

    /// The shape of `vertices` and `edges`, where every edge names two of the
    /// vertices; `None` where one does not.
    pub fn from_parts(vertices: Vec<GridPoint>, edges: Vec<(usize, usize)>) -> (r: Option<Shape>)
        ensures
            r is Some <==> edges_in_range(vertices@, edges@),
            r matches Some(s) ==> s@ == (vertices@, edges@),
    {
        let n = vertices.len();
        let mut i: usize = 0;
        while i < edges.len()
            invariant
                i <= edges.len(),
                n == vertices.len(),
                forall|j: int|
                    0 <= j < i ==> #[trigger] edges@[j].0 < n && edges@[j].1 < n,
            decreases edges.len() - i,
        {
            let (a, b) = edges[i];
            if a >= n || b >= n {
                return None;
            }
            i = i + 1;
        }
        Some(Shape { vertices, edges })
    }

    pub fn vertices(&self) -> (r: &Vec<GridPoint>)
        ensures
            r@ == self@.0,
            edges_in_range(self@.0, self@.1),
    {
        proof {
            use_type_invariant(self);
        }
        &self.vertices
    }

    pub fn edges(&self) -> (r: &Vec<(usize, usize)>)
        ensures
            r@ == self@.1,
            edges_in_range(self@.0, self@.1),
    {
        proof {
            use_type_invariant(self);
        }
        &self.edges
    }

    /// The two end points of edge `i`.
    pub fn segment(&self, i: usize) -> (r: (GridPoint, GridPoint))
        requires
            i < self@.1.len(),
        ensures
            r == (self@.0[self@.1[i as int].0 as int], self@.0[self@.1[i as int].1 as int]),
    {
        proof {
            use_type_invariant(self);
        }
        let (a, b) = self.edges[i];
        (self.vertices[a], self.vertices[b])
    }
}

/// Appends the edge `(a, b)` to `edges`, which all name one of `n` vertices.
fn push_edge(edges: &mut Vec<(usize, usize)>, n: usize, a: usize, b: usize)
    requires
        a < n,
        b < n,
        forall|i: int| 0 <= i < old(edges)@.len() ==> #[trigger] old(edges)@[i].0 < n && old(edges)@[i].1 < n,
    ensures
        final(edges)@ == old(edges)@.push((a, b)),
        forall|i: int| 0 <= i < final(edges)@.len() ==> #[trigger] final(edges)@[i].0 < n && final(edges)@[i].1 < n,
{
    edges.push((a, b));
    assert forall|i: int| 0 <= i < edges@.len() implies #[trigger] edges@[i].0 < n && edges@[i].1 < n by {
        if i < old(edges)@.len() {
            assert(edges@[i] == old(edges)@[i]);
        }
    }
}

/// The point `(x, y, z)`, in tenths.
pub open spec fn gp(x: int, y: int, z: int) -> GridPoint {
    GridPoint { x: x as i32, y: y as i32, z: z as i32 }
}

/// The twelve edges of a cube whose corners are the eight vertices from
/// `base` on, corners 0 to 3 round the far face and 4 to 7 round the near
/// one, corner `k + 4` in front of corner `k`: the far face, the near face,
/// then the four edges between them.
pub open spec fn cube_edges_at(base: usize) -> Seq<(usize, usize)> {
    let b = base as int;
    seq![
        (b as usize, (b + 1) as usize),
        ((b + 1) as usize, (b + 2) as usize),
        ((b + 2) as usize, (b + 3) as usize),
        ((b + 3) as usize, b as usize),
        ((b + 4) as usize, (b + 5) as usize),
        ((b + 5) as usize, (b + 6) as usize),
        ((b + 6) as usize, (b + 7) as usize),
        ((b + 7) as usize, (b + 4) as usize),
        (b as usize, (b + 4) as usize),
        ((b + 1) as usize, (b + 5) as usize),
        ((b + 2) as usize, (b + 6) as usize),
        ((b + 3) as usize, (b + 7) as usize),
    ]
}

/// The unit cube's corners, half a unit about the z axis, between 2.5 and
/// 3.5 units ahead.
pub open spec fn cube_vertex_table() -> Seq<GridPoint> {
    seq![
        gp(-5, -5, 35), gp(5, -5, 35), gp(5, 5, 35), gp(-5, 5, 35),
        gp(-5, -5, 25), gp(5, -5, 25), gp(5, 5, 25), gp(-5, 5, 25),
    ]
}

pub open spec fn cube_edge_table() -> Seq<(usize, usize)> {
    cube_edges_at(0)
}

/// A square base three units ahead, and the apex a unit nearer.
pub open spec fn pyramid_vertex_table() -> Seq<GridPoint> {
    seq![gp(-5, -5, 30), gp(5, -5, 30), gp(5, 5, 30), gp(-5, 5, 30), gp(0, 0, 20)]
}

/// Round the base, then from each base corner to the apex.
pub open spec fn pyramid_edge_table() -> Seq<(usize, usize)> {
    seq![
        (0usize, 1usize), (1, 2), (2, 3), (3, 0),
        (0, 4), (1, 4), (2, 4), (3, 4),
    ]
}

/// A triangle at 3.5 units ahead and the same triangle at 2.5.
pub open spec fn prism_vertex_table() -> Seq<GridPoint> {
    seq![
        gp(-5, -5, 35), gp(5, -5, 35), gp(0, 5, 35),
        gp(-5, -5, 25), gp(5, -5, 25), gp(0, 5, 25),
    ]
}

/// Round each triangle, then between their matching corners.
pub open spec fn prism_edge_table() -> Seq<(usize, usize)> {
    seq![
        (0usize, 1usize), (1, 2), (2, 0),
        (3, 4), (4, 5), (5, 3),
        (0, 3), (1, 4), (2, 5),
    ]
}

/// The unit cube's corners, then those of a cube 1.6 units wide about the
/// same centre.
pub open spec fn tesseract_vertex_table() -> Seq<GridPoint> {
    cube_vertex_table() + seq![
        gp(-8, -8, 38), gp(8, -8, 38), gp(8, 8, 38), gp(-8, 8, 38),
        gp(-8, -8, 22), gp(8, -8, 22), gp(8, 8, 22), gp(-8, 8, 22),
    ]
}

/// The inner cube's edges, the outer cube's, and each inner corner joined
/// to its outer one.
pub open spec fn tesseract_edge_table() -> Seq<(usize, usize)> {
    cube_edges_at(0) + cube_edges_at(8) + seq![
        (0usize, 8usize), (1, 9), (2, 10), (3, 11),
        (4, 12), (5, 13), (6, 14), (7, 15),
    ]
}

/// Two edges join the same pair of vertices.
pub open spec fn same_edge(e: (usize, usize), f: (usize, usize)) -> bool {
    (e.0 == f.0 && e.1 == f.1) || (e.0 == f.1 && e.1 == f.0)
}

/// No edge joins a vertex to itself, and no two edges join the same pair.
pub open spec fn simple_edges(edges: Seq<(usize, usize)>) -> bool {
    &&& forall|i: int| 0 <= i < edges.len() ==> #[trigger] edges[i].0 != edges[i].1
    &&& forall|i: int, j: int|
        0 <= i < j < edges.len() ==> !same_edge(#[trigger] edges[i], #[trigger] edges[j])
}

/// Every vertex lies `z` tenths ahead or further.
pub open spec fn all_ahead(vertices: Seq<GridPoint>, z: int) -> bool {
    forall|i: int| 0 <= i < vertices.len() ==> #[trigger] vertices[i].z >= z
}

/// Every edge runs along one axis and is `d` tenths long.
pub open spec fn axis_edges(vertices: Seq<GridPoint>, edges: Seq<(usize, usize)>, d: int) -> bool {
    forall|i: int| 0 <= i < edges.len() ==> axis_step(
        vertices[#[trigger] edges[i].0 as int],
        vertices[edges[i].1 as int],
        d,
    )
}

/// `q` is `d` away from `p` along exactly one axis.
pub open spec fn axis_step(p: GridPoint, q: GridPoint, d: int) -> bool {
    let dx = q.x - p.x;
    let dy = q.y - p.y;
    let dz = q.z - p.z;
    ||| (dx == d || dx == -d) && dy == 0 && dz == 0
    ||| dx == 0 && (dy == d || dy == -d) && dz == 0
    ||| dx == 0 && dy == 0 && (dz == d || dz == -d)
}

/// Appends the twelve edges of the cube whose corners are the vertices from
/// `base` on.
fn push_cube_edges(edges: &mut Vec<(usize, usize)>, n: usize, base: usize)
    requires
        base + 8 <= n,
        forall|i: int| 0 <= i < old(edges)@.len() ==> #[trigger] old(edges)@[i].0 < n && old(edges)@[i].1 < n,
    ensures
        final(edges)@ == old(edges)@ + cube_edges_at(base),
        forall|i: int| 0 <= i < final(edges)@.len() ==> #[trigger] final(edges)@[i].0 < n && final(edges)@[i].1 < n,
{
    let ghost before = edges@;
    push_edge(edges, n, base, base + 1);
    push_edge(edges, n, base + 1, base + 2);
    push_edge(edges, n, base + 2, base + 3);
    push_edge(edges, n, base + 3, base);
    push_edge(edges, n, base + 4, base + 5);
    push_edge(edges, n, base + 5, base + 6);
    push_edge(edges, n, base + 6, base + 7);
    push_edge(edges, n, base + 7, base + 4);
    push_edge(edges, n, base, base + 4);
    push_edge(edges, n, base + 1, base + 5);
    push_edge(edges, n, base + 2, base + 6);
    push_edge(edges, n, base + 3, base + 7);
    assert(edges@ =~= before + cube_edges_at(base));
}

/// The shapes the viewer can show.
pub struct MyShapes {
    pub cube: Shape,
    pub pyramid: Shape,
    pub prism: Shape,
    pub tesseract: Shape,
}

impl MyShapes {
    /// A unit cube centred three units ahead; a square pyramid with its apex
    /// toward the viewer; a triangular prism; and a tesseract drawn as a unit
    /// cube inside a larger one, with each corner joined to its counterpart.
    pub fn create_shapes() -> (r: MyShapes)
        ensures
            r.cube@ == (cube_vertex_table(), cube_edge_table()),
            r.pyramid@ == (pyramid_vertex_table(), pyramid_edge_table()),
            r.prism@ == (prism_vertex_table(), prism_edge_table()),
            r.tesseract@ == (tesseract_vertex_table(), tesseract_edge_table()),
            simple_edges(r.cube@.1),
            simple_edges(r.pyramid@.1),
            simple_edges(r.prism@.1),
            simple_edges(r.tesseract@.1),
            all_ahead(r.cube@.0, 20),
            all_ahead(r.pyramid@.0, 20),
            all_ahead(r.prism@.0, 20),
            all_ahead(r.tesseract@.0, 20),
            axis_edges(r.cube@.0, r.cube@.1, 10),
    {
        let cube_vertices = vec![
            GridPoint { x: -5, y: -5, z: 35 },
            GridPoint { x: 5, y: -5, z: 35 },
            GridPoint { x: 5, y: 5, z: 35 },
            GridPoint { x: -5, y: 5, z: 35 },
            GridPoint { x: -5, y: -5, z: 25 },
            GridPoint { x: 5, y: -5, z: 25 },
            GridPoint { x: 5, y: 5, z: 25 },
            GridPoint { x: -5, y: 5, z: 25 },
        ];
        let mut cube_edges: Vec<(usize, usize)> = Vec::new();
        push_cube_edges(&mut cube_edges, 8, 0);

        let pyramid_vertices = vec![
            GridPoint { x: -5, y: -5, z: 30 },
            GridPoint { x: 5, y: -5, z: 30 },
            GridPoint { x: 5, y: 5, z: 30 },
            GridPoint { x: -5, y: 5, z: 30 },
            GridPoint { x: 0, y: 0, z: 20 },
        ];
        let mut pyramid_edges: Vec<(usize, usize)> = Vec::new();
        push_edge(&mut pyramid_edges, 5, 0, 1);
        push_edge(&mut pyramid_edges, 5, 1, 2);
        push_edge(&mut pyramid_edges, 5, 2, 3);
        push_edge(&mut pyramid_edges, 5, 3, 0);
        push_edge(&mut pyramid_edges, 5, 0, 4);
        push_edge(&mut pyramid_edges, 5, 1, 4);
        push_edge(&mut pyramid_edges, 5, 2, 4);
        push_edge(&mut pyramid_edges, 5, 3, 4);

        let prism_vertices = vec![
            GridPoint { x: -5, y: -5, z: 35 },
            GridPoint { x: 5, y: -5, z: 35 },
            GridPoint { x: 0, y: 5, z: 35 },
            GridPoint { x: -5, y: -5, z: 25 },
            GridPoint { x: 5, y: -5, z: 25 },
            GridPoint { x: 0, y: 5, z: 25 },
        ];
        let mut prism_edges: Vec<(usize, usize)> = Vec::new();
        push_edge(&mut prism_edges, 6, 0, 1);
        push_edge(&mut prism_edges, 6, 1, 2);
        push_edge(&mut prism_edges, 6, 2, 0);
        push_edge(&mut prism_edges, 6, 3, 4);
        push_edge(&mut prism_edges, 6, 4, 5);
        push_edge(&mut prism_edges, 6, 5, 3);
        push_edge(&mut prism_edges, 6, 0, 3);
        push_edge(&mut prism_edges, 6, 1, 4);
        push_edge(&mut prism_edges, 6, 2, 5);

        let tesseract_vertices = vec![
            GridPoint { x: -5, y: -5, z: 35 },
            GridPoint { x: 5, y: -5, z: 35 },
            GridPoint { x: 5, y: 5, z: 35 },
            GridPoint { x: -5, y: 5, z: 35 },
            GridPoint { x: -5, y: -5, z: 25 },
            GridPoint { x: 5, y: -5, z: 25 },
            GridPoint { x: 5, y: 5, z: 25 },
            GridPoint { x: -5, y: 5, z: 25 },
            GridPoint { x: -8, y: -8, z: 38 },
            GridPoint { x: 8, y: -8, z: 38 },
            GridPoint { x: 8, y: 8, z: 38 },
            GridPoint { x: -8, y: 8, z: 38 },
            GridPoint { x: -8, y: -8, z: 22 },
            GridPoint { x: 8, y: -8, z: 22 },
            GridPoint { x: 8, y: 8, z: 22 },
            GridPoint { x: -8, y: 8, z: 22 },
        ];
        let mut tesseract_edges: Vec<(usize, usize)> = Vec::new();
        push_cube_edges(&mut tesseract_edges, 16, 0);
        push_cube_edges(&mut tesseract_edges, 16, 8);
        push_edge(&mut tesseract_edges, 16, 0, 8);
        push_edge(&mut tesseract_edges, 16, 1, 9);
        push_edge(&mut tesseract_edges, 16, 2, 10);
        push_edge(&mut tesseract_edges, 16, 3, 11);
        push_edge(&mut tesseract_edges, 16, 4, 12);
        push_edge(&mut tesseract_edges, 16, 5, 13);
        push_edge(&mut tesseract_edges, 16, 6, 14);
        push_edge(&mut tesseract_edges, 16, 7, 15);

        proof {
            assert(cube_vertices@ =~= cube_vertex_table());
            assert(cube_edges@ =~= cube_edge_table());
            assert(pyramid_vertices@ =~= pyramid_vertex_table());
            assert(pyramid_edges@ =~= pyramid_edge_table());
            assert(prism_vertices@ =~= prism_vertex_table());
            assert(prism_edges@ =~= prism_edge_table());
            assert(tesseract_vertices@ =~= tesseract_vertex_table());
            assert(tesseract_edges@ =~= tesseract_edge_table());
            lemma_shape_tables();
        }
        MyShapes {
            cube: Shape { vertices: cube_vertices, edges: cube_edges },
            pyramid: Shape { vertices: pyramid_vertices, edges: pyramid_edges },
            prism: Shape { vertices: prism_vertices, edges: prism_edges },
            tesseract: Shape { vertices: tesseract_vertices, edges: tesseract_edges },
        }
    }
}

/// No shape's edge joins a vertex to itself or repeats another edge; every
/// vertex lies at least two units ahead, in front of a camera at the origin
/// or one unit behind it; and each cube edge is one unit along one axis.
pub proof fn lemma_shape_tables()
    ensures
        simple_edges(cube_edge_table()),
        simple_edges(pyramid_edge_table()),
        simple_edges(prism_edge_table()),
        simple_edges(tesseract_edge_table()),
        all_ahead(cube_vertex_table(), 20),
        all_ahead(pyramid_vertex_table(), 20),
        all_ahead(prism_vertex_table(), 20),
        all_ahead(tesseract_vertex_table(), 20),
        axis_edges(cube_vertex_table(), cube_edge_table(), 10),
{
}

} // verus!

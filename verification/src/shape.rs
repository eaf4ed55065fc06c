use vstd::prelude::*;
use vstd::std_specs::convert::FromSpecImpl;
use crate::read::ParsedShape;
use crate::vector::UVec3;

verus! {

/// The kind of solid a rigid body is made of, at unit size.
#[derive(Clone, Copy, Debug, PartialEq, Eq, Structural, Hash)]
pub enum Shape {
    /// A box with unit edges, centred on its centre of mass.
    Cuboid,
}

impl Shape {
    /// The shape that a description names.
    pub open spec fn of(value: ParsedShape) -> Shape {
        match value {
            ParsedShape::Cuboid => Shape::Cuboid,
        }
    }
}

impl From<ParsedShape> for Shape {
    fn from(value: ParsedShape) -> (r: Shape) {
        match value {
            ParsedShape::Cuboid => Shape::Cuboid,
        }
    }
}

impl FromSpecImpl<ParsedShape> for Shape {
    open spec fn obeys_from_spec() -> bool {
        true
    }

    open spec fn from_spec(value: ParsedShape) -> Shape {
        Shape::of(value)
    }
}

/// The grid point `(i, j, k)` lies on the surface of the grid that has
/// `resolution` cells along each axis: one of its three places is the first
/// or the last along its axis.
pub open spec fn on_surface(i: int, j: int, k: int, resolution: UVec3) -> bool {
    i == 0 || i == resolution.x || j == 0 || j == resolution.y || k == 0 || k == resolution.z
}

/// One grid point comes before another: lower first place, or the same
/// first place and lower second place, or the same two and lower third.
pub open spec fn sample_precedes(p: (u32, u32, u32), q: (u32, u32, u32)) -> bool {
    p.0 < q.0 || (p.0 == q.0 && (p.1 < q.1 || (p.1 == q.1 && p.2 < q.2)))
}

/// The surface points `(i, j, k)` with `k` below `depth`, by rising `k`.
pub open spec fn line_samples(i: int, j: int, depth: int, resolution: UVec3) -> Seq<
    (u32, u32, u32),
>
    decreases depth,
{
    if depth <= 0 {
        Seq::empty()
    } else if on_surface(i, j, depth - 1, resolution) {
        line_samples(i, j, depth - 1, resolution).push((i as u32, j as u32, (depth - 1) as u32))
    } else {
        line_samples(i, j, depth - 1, resolution)
    }
}

/// The surface points `(i, j, k)` with `j` below `rows`, line by line.
pub open spec fn plane_samples(i: int, rows: int, resolution: UVec3) -> Seq<(u32, u32, u32)>
    decreases rows,
{
    if rows <= 0 {
        Seq::empty()
    } else {
        plane_samples(i, rows - 1, resolution) + line_samples(
            i,
            rows - 1,
            resolution.z + 1,
            resolution,
        )
    }
}

/// The surface points `(i, j, k)` with `i` below `planes`, plane by plane.
pub open spec fn grid_samples(planes: int, resolution: UVec3) -> Seq<(u32, u32, u32)>
    decreases planes,
{
    if planes <= 0 {
        Seq::empty()
    } else {
        grid_samples(planes - 1, resolution) + plane_samples(
            planes - 1,
            resolution.y + 1,
            resolution,
        )
    }
}

/// The grid points at which the surface of a cuboid is sampled: of the grid
/// with `resolution` cells along each axis, those that lie on its surface,
/// in rising order.
pub open spec fn spec_surface_samples(resolution: UVec3) -> Seq<(u32, u32, u32)> {
    grid_samples(resolution.x + 1, resolution)
}

/// A sequence of grid points stands in strictly rising order.
pub open spec fn samples_rise(samples: Seq<(u32, u32, u32)>) -> bool {
    forall|a: int, b: int|
        0 <= a < b < samples.len() ==> sample_precedes(#[trigger] samples[a], #[trigger] samples[b])
}

proof fn lemma_contains_of_concat(
    head: Seq<(u32, u32, u32)>,
    tail: Seq<(u32, u32, u32)>,
    p: (u32, u32, u32),
)
    ensures
        (head + tail).contains(p) <==> head.contains(p) || tail.contains(p),
{
    let all = head + tail;
    if head.contains(p) {
        let n = choose|n: int| 0 <= n < head.len() && head[n] == p;
        assert(all[n] == p);
    }
    if tail.contains(p) {
        let n = choose|n: int| 0 <= n < tail.len() && tail[n] == p;
        assert(all[head.len() + n] == p);
    }
    if all.contains(p) {
        let n = choose|n: int| 0 <= n < all.len() && all[n] == p;
        if n < head.len() {
            assert(head[n] == p);
        } else {
            assert(tail[n - head.len()] == p);
        }
    }
}

proof fn lemma_concat_rises(head: Seq<(u32, u32, u32)>, tail: Seq<(u32, u32, u32)>)
    requires
        samples_rise(head),
        samples_rise(tail),
        forall|p: (u32, u32, u32), q: (u32, u32, u32)|
            head.contains(p) && tail.contains(q) ==> sample_precedes(p, q),
    ensures
        samples_rise(head + tail),
{
    let all = head + tail;
    assert forall|a: int, b: int| 0 <= a < b < all.len() implies sample_precedes(
        #[trigger] all[a],
        #[trigger] all[b],
    ) by {
        if b < head.len() {
            assert(all[a] == head[a] && all[b] == head[b]);
        } else if a < head.len() {
            assert(all[a] == head[a] && all[b] == tail[b - head.len()]);
            assert(head.contains(head[a]));
            assert(tail.contains(tail[b - head.len()]));
        } else {
            assert(all[a] == tail[a - head.len()] && all[b] == tail[b - head.len()]);
        }
    }
}

/// Of one line of the grid, exactly the surface points below `depth` are
/// listed, in rising order.
pub proof fn lemma_line_samples(i: int, j: int, depth: int, resolution: UVec3)
    requires
        0 <= i <= resolution.x,
        0 <= j <= resolution.y,
        0 <= depth <= resolution.z + 1,
    ensures
        forall|p: (u32, u32, u32)| #[trigger]
            line_samples(i, j, depth, resolution).contains(p) <==> p.0 == i && p.1 == j && p.2
                < depth && on_surface(i, j, p.2 as int, resolution),
        samples_rise(line_samples(i, j, depth, resolution)),
    decreases depth,
{
    let line = line_samples(i, j, depth, resolution);
    if depth > 0 {
        lemma_line_samples(i, j, depth - 1, resolution);
        let before = line_samples(i, j, depth - 1, resolution);
        let last = (i as u32, j as u32, (depth - 1) as u32);
        if on_surface(i, j, depth - 1, resolution) {
            assert(line == before + seq![last]);
            assert forall|p: (u32, u32, u32)| #[trigger]
                line.contains(p) <==> p.0 == i && p.1 == j && p.2 < depth && on_surface(
                    i,
                    j,
                    p.2 as int,
                    resolution,
                ) by {
                lemma_contains_of_concat(before, seq![last], p);
                assert(seq![last][0] == last);
                assert(seq![last].contains(p) <==> p == last);
            }
            assert forall|p: (u32, u32, u32), q: (u32, u32, u32)|
                before.contains(p) && seq![last].contains(q) implies sample_precedes(p, q) by {
                assert(q == last);
            }
            lemma_concat_rises(before, seq![last]);
        } else {
            assert forall|p: (u32, u32, u32)| #[trigger]
                line.contains(p) <==> p.0 == i && p.1 == j && p.2 < depth && on_surface(
                    i,
                    j,
                    p.2 as int,
                    resolution,
                ) by {
                assert(before.contains(p) <==> p.0 == i && p.1 == j && p.2 < depth - 1
                    && on_surface(i, j, p.2 as int, resolution));
            }
        }
    } else {
        assert forall|p: (u32, u32, u32)| !#[trigger] line.contains(p) by {
            assert(line.len() == 0);
        }
    }
}

/// Of one plane of the grid, exactly the surface points in the lines below
/// `rows` are listed, in rising order.
pub proof fn lemma_plane_samples(i: int, rows: int, resolution: UVec3)
    requires
        0 <= i <= resolution.x,
        0 <= rows <= resolution.y + 1,
    ensures
        forall|p: (u32, u32, u32)| #[trigger]
            plane_samples(i, rows, resolution).contains(p) <==> p.0 == i && p.1 < rows && p.2
                <= resolution.z && on_surface(i, p.1 as int, p.2 as int, resolution),
        samples_rise(plane_samples(i, rows, resolution)),
    decreases rows,
{
    let plane = plane_samples(i, rows, resolution);
    if rows > 0 {
        lemma_plane_samples(i, rows - 1, resolution);
        lemma_line_samples(i, rows - 1, resolution.z + 1, resolution);
        let before = plane_samples(i, rows - 1, resolution);
        let line = line_samples(i, rows - 1, resolution.z + 1, resolution);
        assert forall|p: (u32, u32, u32)| #[trigger]
            plane.contains(p) <==> p.0 == i && p.1 < rows && p.2 <= resolution.z && on_surface(
                i,
                p.1 as int,
                p.2 as int,
                resolution,
            ) by {
            lemma_contains_of_concat(before, line, p);
            assert(before.contains(p) <==> p.0 == i && p.1 < rows - 1 && p.2 <= resolution.z
                && on_surface(i, p.1 as int, p.2 as int, resolution));
            assert(line.contains(p) <==> p.0 == i && p.1 == rows - 1 && p.2 < resolution.z + 1
                && on_surface(i, rows - 1, p.2 as int, resolution));
        }
        assert forall|p: (u32, u32, u32), q: (u32, u32, u32)|
            before.contains(p) && line.contains(q) implies sample_precedes(p, q) by {
            assert(p.0 == i && p.1 < rows - 1);
            assert(q.0 == i && q.1 == rows - 1);
        }
        lemma_concat_rises(before, line);
    } else {
        assert forall|p: (u32, u32, u32)| !#[trigger] plane.contains(p) by {
            assert(plane.len() == 0);
        }
    }
}

/// Of the grid, exactly the surface points in the planes below `planes` are
/// listed, in rising order.
pub proof fn lemma_grid_samples(planes: int, resolution: UVec3)
    requires
        0 <= planes <= resolution.x + 1,
    ensures
        forall|p: (u32, u32, u32)| #[trigger]
            grid_samples(planes, resolution).contains(p) <==> p.0 < planes && p.1 <= resolution.y
                && p.2 <= resolution.z && on_surface(p.0 as int, p.1 as int, p.2 as int, resolution),
        samples_rise(grid_samples(planes, resolution)),
    decreases planes,
{
    let grid = grid_samples(planes, resolution);
    if planes > 0 {
        lemma_grid_samples(planes - 1, resolution);
        lemma_plane_samples(planes - 1, resolution.y + 1, resolution);
        let before = grid_samples(planes - 1, resolution);
        let plane = plane_samples(planes - 1, resolution.y + 1, resolution);
        assert forall|p: (u32, u32, u32)| #[trigger]
            grid.contains(p) <==> p.0 < planes && p.1 <= resolution.y && p.2 <= resolution.z
                && on_surface(p.0 as int, p.1 as int, p.2 as int, resolution) by {
            lemma_contains_of_concat(before, plane, p);
            assert(before.contains(p) <==> p.0 < planes - 1 && p.1 <= resolution.y && p.2
                <= resolution.z && on_surface(p.0 as int, p.1 as int, p.2 as int, resolution));
            assert(plane.contains(p) <==> p.0 == planes - 1 && p.1 < resolution.y + 1 && p.2
                <= resolution.z && on_surface(planes - 1, p.1 as int, p.2 as int, resolution));
        }
        assert forall|p: (u32, u32, u32), q: (u32, u32, u32)|
            before.contains(p) && plane.contains(q) implies sample_precedes(p, q) by {
            assert(p.0 < planes - 1);
            assert(q.0 == planes - 1);
        }
        lemma_concat_rises(before, plane);
    } else {
        assert forall|p: (u32, u32, u32)| !#[trigger] grid.contains(p) by {
            assert(grid.len() == 0);
        }
    }
}

/// The samples of a surface are exactly the grid points that lie on it, each
/// once and in strictly rising order; there is at least one, and the first
/// is the corner `(0, 0, 0)`.
pub proof fn lemma_surface_samples(resolution: UVec3)
    ensures
        forall|p: (u32, u32, u32)| #[trigger]
            spec_surface_samples(resolution).contains(p) <==> p.0 <= resolution.x && p.1
                <= resolution.y && p.2 <= resolution.z && on_surface(
                p.0 as int,
                p.1 as int,
                p.2 as int,
                resolution,
            ),
        samples_rise(spec_surface_samples(resolution)),
        spec_surface_samples(resolution).len() > 0,
        spec_surface_samples(resolution)[0] == (0u32, 0u32, 0u32),
{
    let samples = spec_surface_samples(resolution);
    lemma_grid_samples(resolution.x + 1, resolution);
    let corner = (0u32, 0u32, 0u32);
    assert(samples.contains(corner));
    let n = choose|n: int| 0 <= n < samples.len() && samples[n] == corner;
    if n > 0 {
        assert(sample_precedes(samples[0], samples[n]));
    }
}

/// Lists the grid points at which the surface of a cuboid is sampled. Where
/// each point lies in space is for the caller to work out.
pub fn surface_samples(resolution: UVec3) -> (r: Vec<(u32, u32, u32)>)
    ensures
        r@ == spec_surface_samples(resolution),
        r@.len() > 0,
        r@[0] == (0u32, 0u32, 0u32),
        samples_rise(r@),
{
    proof {
        lemma_surface_samples(resolution);
    }
    let mut samples: Vec<(u32, u32, u32)> = Vec::new();
    let mut i: u64 = 0;
    while i <= resolution.x as u64
        invariant
            i <= resolution.x + 1,
            samples@ == grid_samples(i as int, resolution),
        decreases resolution.x + 1 - i,
    {
        let ghost planes = samples@;
        let mut j: u64 = 0;
        while j <= resolution.y as u64
            invariant
                i <= resolution.x,
                j <= resolution.y + 1,
                samples@ == planes + plane_samples(i as int, j as int, resolution),
            decreases resolution.y + 1 - j,
        {
            let ghost lines = samples@;
            let mut k: u64 = 0;
            while k <= resolution.z as u64
                invariant
                    i <= resolution.x,
                    j <= resolution.y,
                    k <= resolution.z + 1,
                    samples@ == lines + line_samples(i as int, j as int, k as int, resolution),
                decreases resolution.z + 1 - k,
            {
                if i == 0 || i == resolution.x as u64 || j == 0 || j == resolution.y as u64 || k
                    == 0 || k == resolution.z as u64 {
                    samples.push((i as u32, j as u32, k as u32));
                    assert(samples@ =~= lines + line_samples(
                        i as int,
                        j as int,
                        k + 1,
                        resolution,
                    ));
                }
                k += 1;
            }
            assert(samples@ =~= planes + plane_samples(i as int, j + 1, resolution));
            j += 1;
        }
        assert(samples@ =~= grid_samples(i + 1, resolution));
        i += 1;
    }
    samples
}

} // verus!

use crate::error::FbxError;
use vstd::prelude::*;

verus! {

/// A triangle of a polygon, by the places of its three corners among the
/// corners of the polygon.
#[derive(Clone, Copy, Debug, PartialEq, Eq, Structural)]
pub struct Triangle {
    pub a: usize,
    pub b: usize,
    pub c: usize,
}

/// What has to be known of a polygon to cut it into triangles. The corners
/// of the polygon are numbered around it, from 0.
#[derive(Debug)]
pub enum Polygon {
    /// A polygon of three corners.
    Triangle,
    /// A polygon of four corners. `same_side` says whether the normals at
    /// the corners 1 and 3 point to the same side.
    Quadrangle { same_side: bool },
    /// A polygon of five corners or more. For each corner,
    /// `normal_directions` says to which side the outline turns there.
    Larger { normal_directions: Vec<bool> },
}

/// How many of `signs` are `true`.
pub open spec fn count_true(signs: Seq<bool>) -> nat
    decreases signs.len(),
{
    if signs.len() == 0 {
        0
    } else {
        count_true(signs.drop_last()) + if signs.last() {
            1nat
        } else {
            0nat
        }
    }
}

/// Whether a polygon can be cut like a fan: the outline turns to the same
/// side at every corner, or at every corner but one.
pub open spec fn fan_shaped(signs: Seq<bool>) -> bool {
    signs.len() >= 3 && (count_true(signs) <= 1 || count_true(signs) >= signs.len() - 1)
}

/// Whether `center` is the corner that a fan-shaped polygon is cut from:
/// the first corner where the outline turns to the rarer side, or corner 0
/// where it turns to the same side everywhere.
pub open spec fn is_center(signs: Seq<bool>, center: int) -> bool {
    let rare = count_true(signs) <= 1;
    &&& 0 <= center < signs.len()
    &&& forall|i: int| 0 <= i < center ==> signs[i] != rare
    &&& signs[center] == rare || (center == 0 && forall|i: int|
        0 <= i < signs.len() ==> signs[i] != rare)
}

/// The corner that comes `steps` corners after `corner` around a polygon of
/// `n` corners, for `steps` up to `n`.
pub open spec fn around(corner: int, steps: int, n: int) -> int {
    if corner + steps >= n {
        corner + steps - n
    } else {
        corner + steps
    }
}

/// The triangles of a fan around `center`: each joins `center` with two
/// corners that follow one another, once around the polygon.
pub open spec fn fan(n: int, center: int) -> Seq<Triangle> {
    Seq::new(
        (n - 2) as nat,
        |k: int|
            Triangle {
                a: center as usize,
                b: around(center, 1 + k, n) as usize,
                c: around(center, 2 + k, n) as usize,
            },
    )
}

/// The two triangles of a quadrangle. Where the normals at the corners 1
/// and 3 point to the same side, it is cut from corner 0 to corner 2, else
/// from corner 1 to corner 3.
pub open spec fn quadrangle(same_side: bool) -> Seq<Triangle> {
    if same_side {
        seq![Triangle { a: 0, b: 1, c: 2 }, Triangle { a: 2, b: 3, c: 0 }]
    } else {
        seq![Triangle { a: 0, b: 1, c: 3 }, Triangle { a: 3, b: 1, c: 2 }]
    }
}

fn count(signs: &Vec<bool>) -> (r: usize)
    ensures
        r == count_true(signs@),
        r <= signs@.len(),
{
    let n: usize = signs.len();
    let mut r: usize = 0;
    let mut i: usize = 0;
    while i < n
        invariant
            n == signs@.len(),
            i <= n,
            r == count_true(signs@.subrange(0, i as int)),
            r <= i,
        decreases n - i,
    {
        proof {
            assert(signs@.subrange(0, i + 1).drop_last() =~= signs@.subrange(0, i as int));
        }
        if signs[i] {
            r += 1;
        }
        i += 1;
    }
    proof {
        assert(signs@.subrange(0, n as int) =~= signs@);
    }
    r
}

/// The corner that a fan-shaped polygon is cut from.
fn center_of(signs: &Vec<bool>, rare: bool) -> (center: usize)
    requires
        signs@.len() >= 1,
        rare == (count_true(signs@) <= 1),
    ensures
        is_center(signs@, center as int),
{
    let n: usize = signs.len();
    let mut i: usize = 0;
    while i < n
        invariant
            n == signs@.len(),
            i <= n,
            rare == (count_true(signs@) <= 1),
            forall|k: int| 0 <= k < i ==> signs@[k] != rare,
        decreases n - i,
    {
        if signs[i] == rare {
            return i;
        }
        i += 1;
    }
    0
}

/// The corner that comes `steps` corners after `corner`.
fn step_around(corner: usize, steps: usize, n: usize) -> (r: usize)
    requires
        corner < n,
        steps <= n,
    ensures
        r == around(corner as int, steps as int, n as int),
        r < n,
{
    if steps >= n - corner {
        steps - (n - corner)
    } else {
        corner + steps
    }
}

/// Cuts a polygon into triangles.
///
/// A triangle is its own triangle, and a quadrangle is cut along one of
/// its diagonals. A larger polygon is cut like a fan from one corner, which
/// works where the outline turns to the same side at every corner or at
/// every corner but one. Any other polygon cannot be cut.
pub fn triangulate(polygon: &Polygon) -> (r: Result<Vec<Triangle>, FbxError>)
    ensures
        match *polygon {
            Polygon::Triangle => r matches Ok(triangles) && triangles@ == seq![
                Triangle { a: 0, b: 1, c: 2 },
            ],
            Polygon::Quadrangle { same_side } => r matches Ok(triangles) && triangles@
                == quadrangle(same_side),
            Polygon::Larger { normal_directions } => if fan_shaped(normal_directions@) {
                r matches Ok(triangles) && exists|center: int|
                    is_center(normal_directions@, center) && #[trigger] fan(
                        normal_directions@.len() as int,
                        center,
                    ) == triangles@
            } else {
                r == Err::<Vec<Triangle>, FbxError>(FbxError::CouldNotTriangulate)
            },
        },
{
    let mut results: Vec<Triangle> = Vec::new();
    match polygon {
        Polygon::Triangle => {
            results.push(Triangle { a: 0, b: 1, c: 2 });
            assert(results@ =~= seq![Triangle { a: 0, b: 1, c: 2 }]);
        },
        Polygon::Quadrangle { same_side } => {
            if *same_side {
                results.push(Triangle { a: 0, b: 1, c: 2 });
                results.push(Triangle { a: 2, b: 3, c: 0 });
            } else {
                results.push(Triangle { a: 0, b: 1, c: 3 });
                results.push(Triangle { a: 3, b: 1, c: 2 });
            }
            assert(results@ =~= quadrangle(*same_side));
        },
        Polygon::Larger { normal_directions } => {
            let n: usize = normal_directions.len();
            if n < 3 {
                return Err(FbxError::CouldNotTriangulate);
            }
            let dirs_true_count: usize = count(normal_directions);
            if !(dirs_true_count <= 1 || dirs_true_count >= n - 1) {
                return Err(FbxError::CouldNotTriangulate);
            }
            // Zero or one angles are concave.
            let minor_sign: bool = dirs_true_count <= 1;
            let convex_index: usize = center_of(normal_directions, minor_sign);
            let mut k: usize = 0;
            while k < n - 2
                invariant
                    n == normal_directions@.len(),
                    n >= 3,
                    convex_index < n,
                    k <= n - 2,
                    results@ == fan(n as int, convex_index as int).subrange(0, k as int),
                decreases n - 2 - k,
            {
                let b: usize = step_around(convex_index, 1 + k, n);
                let c: usize = step_around(convex_index, 2 + k, n);
                results.push(Triangle { a: convex_index, b, c });
                k += 1;
                assert(results@ =~= fan(n as int, convex_index as int).subrange(0, k as int));
            }
            assert(results@ =~= fan(n as int, convex_index as int));
        },
    }
    Ok(results)
}

} // verus!

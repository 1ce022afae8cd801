//! The vertex orders of star polygons, and the checks that make a star
//! polygon well formed.
use vstd::arithmetic::div_mod::lemma_add_mod_noop;
use vstd::prelude::*;

verus! {

/// Why a star polygon cannot be drawn.
#[derive(Clone, Copy, Debug, PartialEq, Eq, Structural)]
pub enum ShapeError {
    /// Fewer than three vertices.
    TooFewVertices,
    /// A step of zero between joined vertices.
    ZeroStep,
    /// The vertex count and the step share a factor, so the walk closes
    /// before it has joined every vertex.
    NotCoprime,
    /// The step, taken modulo the vertex count, is 0, 1 or one less than
    /// the count, which leaves the star without concave corners.
    NotConcave,
}

/// The greatest common divisor of `a` and `b`; `gcd_of(a, 0) == a`.
pub open spec fn gcd_of(a: nat, b: nat) -> nat
    decreases b,
{
    if b == 0 {
        a
    } else {
        gcd_of(b, a % b)
    }
}

/// Relies on num::integer::gcd: the greatest common divisor of its two
/// arguments, with `gcd(x, 0) == x`.
#[verifier::external_body]
fn gcd(x: usize, y: usize) -> (r: usize)
    ensures
        r == gcd_of(x as nat, y as nat),
{
    num::integer::gcd(x, y)
}

/// What is wrong with the star polygon {`p`/`q`}, if anything.
pub open spec fn star_error(p: usize, q: usize) -> Option<ShapeError> {
    if q == 0 {
        Some(ShapeError::ZeroStep)
    } else if p < 3 {
        Some(ShapeError::TooFewVertices)
    } else if gcd_of(p as nat, q as nat) != 1 {
        Some(ShapeError::NotCoprime)
    } else {
        None
    }
}

/// `(idx + step) % p` for `idx` and `step` below `p`, without overflow.
fn add_mod(idx: usize, step: usize, p: usize) -> (r: usize)
    requires
        idx < p,
        step < p,
    ensures
        r == (idx + step) % (p as int),
{
    if idx >= p - step {
        let r = idx - (p - step);
        assert(r == (idx + step) % (p as int)) by {
            vstd::arithmetic::div_mod::lemma_fundamental_div_mod_converse(
                idx + step,
                p as int,
                1,
                r as int,
            );
        }
        r
    } else {
        assert((idx + step) % (p as int) == idx + step) by {
            vstd::arithmetic::div_mod::lemma_small_mod((idx + step) as nat, p as nat);
        }
        idx + step
    }
}

/// The order in which the star polygon {`p`/`q`} joins the vertices of a
/// regular `p`-gon: vertex 0, then every `q`-th vertex, until all `p` are
/// joined.
pub fn star_polygon_order(p: usize, q: usize) -> (r: Result<Vec<usize>, ShapeError>)
    ensures
        match r {
            Ok(order) => star_error(p, q) is None && order@.len() == p && forall|k: int|
                0 <= k < p ==> #[trigger] order@[k] == (k * q) % (p as int),
            Err(e) => star_error(p, q) == Some(e),
        },
{
    if q == 0 {
        return Err(ShapeError::ZeroStep);
    }
    if p < 3 {
        return Err(ShapeError::TooFewVertices);
    }
    if gcd(p, q) != 1 {
        return Err(ShapeError::NotCoprime);
    }
    let step = q % p;
    let mut order: Vec<usize> = Vec::new();
    let mut idx: usize = 0;
    let mut k: usize = 0;
    while k < p
        invariant
            3 <= p,
            k <= p,
            step == q % p,
            idx == (k * q) % (p as int),
            order@.len() == k,
            forall|j: int| 0 <= j < k ==> #[trigger] order@[j] == (j * q) % (p as int),
        decreases p - k,
    {
        order.push(idx);
        proof {
            lemma_add_mod_noop(k * q, q as int, p as int);
            assert(k * q + q == (k + 1) * q) by (nonlinear_arith);
            vstd::arithmetic::div_mod::lemma_mod_twice(q as int, p as int);
        }
        idx = add_mod(idx, step, p);
        k = k + 1;
    }
    Ok(order)
}

/// A vertex of an isotoxal star: on the outer circle or the inner one, at
/// `step` steps of the outer polygon from the first vertex (an inner vertex
/// lies half a step further on).
#[derive(Clone, Copy, Debug, PartialEq, Eq, Structural)]
pub struct StarVertex {
    pub outer: bool,
    pub step: usize,
}

/// What is wrong with the isotoxal star {`p`/`q`}, if anything.
pub open spec fn isotoxal_error(p: usize, q: usize) -> Option<ShapeError> {
    if p < 3 {
        Some(ShapeError::TooFewVertices)
    } else if q % p == 0 || q % p == 1 || q % p == p - 1 {
        Some(ShapeError::NotConcave)
    } else if gcd_of(p as nat, q as nat) != 1 {
        Some(ShapeError::NotCoprime)
    } else {
        None
    }
}

/// Vertex `i` of an isotoxal star whose inner vertices are shifted by
/// `shift` half steps.
pub open spec fn isotoxal_vertex(i: int, shift: int) -> StarVertex {
    if i % 2 == 0 {
        StarVertex { outer: true, step: (i / 2) as usize }
    } else {
        StarVertex { outer: false, step: ((i + shift) / 2) as usize }
    }
}

/// The `2 * p` vertices of the isotoxal star {`p`/`q`}, alternating between
/// the outer and the inner circle; `deformation` shifts the inner ones by
/// that many half steps.
pub fn isotoxal_star_order(p: usize, q: usize, deformation: Option<usize>) -> (r: Result<
    Vec<StarVertex>,
    ShapeError,
>)
    requires
        2 * p + (match deformation {
            Some(d) => d as int,
            None => 0,
        }) <= usize::MAX,
    ensures
        match r {
            Ok(v) => isotoxal_error(p, q) is None && v@.len() == 2 * p && forall|i: int|
                0 <= i < 2 * p ==> #[trigger] v@[i] == isotoxal_vertex(
                    i,
                    match deformation {
                        Some(d) => d as int,
                        None => 0,
                    },
                ),
            Err(e) => isotoxal_error(p, q) == Some(e),
        },
{
    if p < 3 {
        return Err(ShapeError::TooFewVertices);
    }
    let remainder = q % p;
    if remainder == 0 || remainder == 1 || remainder == p - 1 {
        return Err(ShapeError::NotConcave);
    }
    if gcd(p, q) != 1 {
        return Err(ShapeError::NotCoprime);
    }
    let shift = match deformation {
        Some(d) => d,
        None => 0,
    };
    let mut star: Vec<StarVertex> = Vec::new();
    let mut i: usize = 0;
    while i < 2 * p
        invariant
            2 * p + shift <= usize::MAX,
            i <= 2 * p,
            star@.len() == i,
            forall|j: int| 0 <= j < i ==> #[trigger] star@[j] == isotoxal_vertex(j, shift as int),
        decreases 2 * p - i,
    {
        let vertex = if i % 2 == 0 {
            StarVertex { outer: true, step: i / 2 }
        } else {
            StarVertex { outer: false, step: (i + shift) / 2 }
        };
        star.push(vertex);
        i = i + 1;
    }
    Ok(star)
}

} // verus!

//! The discrete rules of collision handling: which pairs are tested, which
//! narrow-phase test a pair of shapes gets, and which bodies a contact moves.

use vstd::prelude::*;

verus! {

/// Whether a rigid body is an immovable anchor or moves under the integrator.
#[derive(Clone, Copy, PartialEq, Eq, Debug, Structural)]
pub enum BodyKind {
    Static,
    Dynamic,
}

/// The variant of a collision shape.
#[derive(Clone, Copy, PartialEq, Eq, Debug, Structural)]
pub enum ShapeKind {
    Sphere,
    Cuboid,
}

/// The narrow-phase test that a pair of shapes gets.
#[derive(Clone, Copy, PartialEq, Eq, Debug, Structural)]
pub enum NarrowPhase {
    SphereSphere,
    SphereCuboid,
    CuboidCuboid,
}

/// The test for a pair of shapes, and whether the pair must be swapped to fit
/// the test's argument order (its normal then points the other way).
pub open spec fn spec_narrow_phase(a: ShapeKind, b: ShapeKind) -> (NarrowPhase, bool) {
    match (a, b) {
        (ShapeKind::Sphere, ShapeKind::Sphere) => (NarrowPhase::SphereSphere, false),
        (ShapeKind::Sphere, ShapeKind::Cuboid) => (NarrowPhase::SphereCuboid, false),
        (ShapeKind::Cuboid, ShapeKind::Sphere) => (NarrowPhase::SphereCuboid, true),
        (ShapeKind::Cuboid, ShapeKind::Cuboid) => (NarrowPhase::CuboidCuboid, false),
    }
}

/// Picks the narrow-phase test for a pair of shapes.
pub fn narrow_phase(a: ShapeKind, b: ShapeKind) -> (r: (NarrowPhase, bool))
    ensures
        r == spec_narrow_phase(a, b),
{
    match (a, b) {
        (ShapeKind::Sphere, ShapeKind::Sphere) => (NarrowPhase::SphereSphere, false),
        (ShapeKind::Sphere, ShapeKind::Cuboid) => (NarrowPhase::SphereCuboid, false),
        (ShapeKind::Cuboid, ShapeKind::Sphere) => (NarrowPhase::SphereCuboid, true),
        (ShapeKind::Cuboid, ShapeKind::Cuboid) => (NarrowPhase::CuboidCuboid, false),
    }
}

/// Both orders of a pair get the same test, and exactly one order of a mixed
/// pair is swapped, so the two orders report opposite normals.
pub proof fn lemma_narrow_phase_order_independent(a: ShapeKind, b: ShapeKind)
    ensures
        spec_narrow_phase(a, b).0 == spec_narrow_phase(b, a).0,
        a != b ==> spec_narrow_phase(a, b).1 != spec_narrow_phase(b, a).1,
        a == b ==> !spec_narrow_phase(a, b).1,
{
}

/// Which bodies of a contact pair are moved to resolve it.
#[derive(Clone, Copy, PartialEq, Eq, Debug, Structural)]
pub enum ContactResponse {
    /// Both are dynamic: each moves, in proportion to the other's mass.
    Both,
    /// Only the first is dynamic: it moves against the normal.
    FirstOnly,
    /// Only the second is dynamic: it moves along the normal.
    SecondOnly,
    /// Both are static: nothing moves.
    Neither,
}

pub open spec fn spec_contact_response(first: BodyKind, second: BodyKind) -> ContactResponse {
    match (first, second) {
        (BodyKind::Dynamic, BodyKind::Dynamic) => ContactResponse::Both,
        (BodyKind::Dynamic, BodyKind::Static) => ContactResponse::FirstOnly,
        (BodyKind::Static, BodyKind::Dynamic) => ContactResponse::SecondOnly,
        (BodyKind::Static, BodyKind::Static) => ContactResponse::Neither,
    }
}

/// Whether a response moves the first body of the pair.
pub open spec fn moves_first(r: ContactResponse) -> bool {
    r == ContactResponse::Both || r == ContactResponse::FirstOnly
}

/// Whether a response moves the second body of the pair.
pub open spec fn moves_second(r: ContactResponse) -> bool {
    r == ContactResponse::Both || r == ContactResponse::SecondOnly
}

/// Decides which bodies a contact between the two moves.
pub fn contact_response(first: BodyKind, second: BodyKind) -> (r: ContactResponse)
    ensures
        r == spec_contact_response(first, second),
{
    match (first, second) {
        (BodyKind::Dynamic, BodyKind::Dynamic) => ContactResponse::Both,
        (BodyKind::Dynamic, BodyKind::Static) => ContactResponse::FirstOnly,
        (BodyKind::Static, BodyKind::Dynamic) => ContactResponse::SecondOnly,
        (BodyKind::Static, BodyKind::Static) => ContactResponse::Neither,
    }
}

/// A contact moves a body exactly when it is dynamic: a static body is never
/// displaced, and the response does not depend on the order of the pair.
pub proof fn lemma_static_bodies_never_move(first: BodyKind, second: BodyKind)
    ensures
        moves_first(spec_contact_response(first, second)) <==> first == BodyKind::Dynamic,
        moves_second(spec_contact_response(first, second)) <==> second == BodyKind::Dynamic,
        moves_first(spec_contact_response(first, second)) == moves_second(
            spec_contact_response(second, first),
        ),
{
}

/// Every unordered pair of indices below `n`, once each, smaller index first,
/// in lexicographic order.
pub open spec fn is_all_pairs(pairs: Seq<(usize, usize)>, n: nat) -> bool {
    &&& forall|k: int| 0 <= k < pairs.len() ==> (#[trigger] pairs[k]).0 < pairs[k].1 && pairs[k].1 < n
    &&& forall|k: int, l: int|
        0 <= k < l < pairs.len() ==> pair_less(#[trigger] pairs[k], #[trigger] pairs[l])
    &&& forall|i: usize, j: usize| i < j < n ==> #[trigger] pairs.contains((i, j))
}

/// Lexicographic order on index pairs.
pub open spec fn pair_less(p: (usize, usize), q: (usize, usize)) -> bool {
    p.0 < q.0 || (p.0 == q.0 && p.1 < q.1)
}

/// Lists the pairs of a brute-force all-pairs test over `n` items.
pub fn collision_pairs(n: usize) -> (pairs: Vec<(usize, usize)>)
    ensures
        is_all_pairs(pairs@, n as nat),
{
    let mut pairs: Vec<(usize, usize)> = Vec::new();
    let mut i: usize = 0;
    while i < n
        invariant
            i <= n,
            forall|k: int| 0 <= k < pairs@.len() ==> (#[trigger] pairs@[k]).0 < pairs@[k].1 && pairs@[k].1 < n && pairs@[k].0 < i,
            forall|k: int, l: int|
                0 <= k < l < pairs@.len() ==> pair_less(#[trigger] pairs@[k], #[trigger] pairs@[l]),
            forall|a: usize, b: usize| a < b < n && a < i ==> #[trigger] pairs@.contains((a, b)),
        decreases n - i,
    {
        let mut j: usize = i + 1;
        let ghost start = pairs@.len();
        while j < n
            invariant
                i < n,
                i + 1 <= j <= n,
                start <= pairs@.len(),
                forall|k: int| 0 <= k < pairs@.len() ==> (#[trigger] pairs@[k]).0 < pairs@[k].1 && pairs@[k].1 < n && pairs@[k].0 <= i,
                forall|k: int| start <= k < pairs@.len() ==> (#[trigger] pairs@[k]).0 == i && pairs@[k].1 < j,
                forall|k: int| 0 <= k < start ==> (#[trigger] pairs@[k]).0 < i,
                forall|k: int, l: int|
                    0 <= k < l < pairs@.len() ==> pair_less(#[trigger] pairs@[k], #[trigger] pairs@[l]),
                forall|a: usize, b: usize|
                    a < b < n && (a < i || (a == i && b < j)) ==> #[trigger] pairs@.contains((a, b)),
            decreases n - j,
        {
            let ghost before = pairs@;
            pairs.push((i, j));
            assert forall|a: usize, b: usize|
                a < b < n && (a < i || (a == i && b < j + 1)) implies #[trigger] pairs@.contains((a, b)) by {
                if a == i && b == j {
                    assert(pairs@[before.len() as int] == (a, b));
                } else {
                    assert(before.contains((a, b)));
                    let k = choose|k: int| 0 <= k < before.len() && before[k] == (a, b);
                    assert(pairs@[k] == (a, b));
                }
            }
            j = j + 1;
        }
        i = i + 1;
    }
    pairs
}

/// The positions of the dynamic bodies, in order: the dense numbering under
/// which the integrator keeps its per-body buffers.
pub fn dynamic_slots(kinds: &[BodyKind]) -> (slots: Vec<usize>)
    ensures
        forall|k: int, l: int| 0 <= k < l < slots@.len() ==> slots@[k] < slots@[l],
        forall|k: int| 0 <= k < slots@.len() ==> #[trigger] slots@[k] < kinds@.len()
            && kinds@[slots@[k] as int] == BodyKind::Dynamic,
        forall|i: int| 0 <= i < kinds@.len() && #[trigger] kinds@[i] == BodyKind::Dynamic ==>
            slots@.contains(i as usize),
{
    let mut slots: Vec<usize> = Vec::new();
    let mut i: usize = 0;
    while i < kinds.len()
        invariant
            i <= kinds@.len(),
            forall|k: int, l: int| 0 <= k < l < slots@.len() ==> slots@[k] < slots@[l],
            forall|k: int| 0 <= k < slots@.len() ==> #[trigger] slots@[k] < i
                && kinds@[slots@[k] as int] == BodyKind::Dynamic,
            forall|m: int| 0 <= m < i && #[trigger] kinds@[m] == BodyKind::Dynamic ==>
                slots@.contains(m as usize),
        decreases kinds@.len() - i,
    {
        if kinds[i] == BodyKind::Dynamic {
            let ghost before = slots@;
            slots.push(i);
            assert forall|m: int| 0 <= m < i + 1 && #[trigger] kinds@[m] == BodyKind::Dynamic implies
                slots@.contains(m as usize) by {
                if m == i {
                    assert(slots@[before.len() as int] == m);
                } else {
                    assert(before.contains(m as usize));
                    let k = choose|k: int| 0 <= k < before.len() && before[k] == m as usize;
                    assert(slots@[k] == m);
                }
            }
        }
        i = i + 1;
    }
    slots
}

} // verus!

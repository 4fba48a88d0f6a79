//! Contains utilities useful (but not required) to use with scene data.

use vstd::prelude::*;

verus! {

/// A copy of a vector of plain values.
pub fn copy_of<T: Copy>(values: &Vec<T>) -> (out: Vec<T>)
    ensures
        out@ == values@,
{
    let mut out: Vec<T> = Vec::with_capacity(values.len());
    let mut i: usize = 0;
    while i < values.len()
        invariant
            i <= values.len(),
            out@ == values@.take(i as int),
        decreases values.len() - i,
    {
        out.push(values[i]);
        proof {
            assert(values@.take(i + 1) =~= values@.take(i as int).push(values[i as int]));
        }
        i = i + 1;
    }
    proof {
        assert(values@.take(values.len() as int) =~= values@);
    }
    out
}

/// The views of a sequence of values.
pub open spec fn views<T: View>(values: Seq<T>) -> Seq<T::V> {
    values.map_values(|x: T| x@)
}

/// The views of a sequence with one more value are the views of the
/// sequence with one more view.
pub proof fn views_of_push<T: View>(values: Seq<T>, value: T)
    ensures
        views(values.push(value)) == views(values).push(value@),
{
    assert(views(values.push(value)) =~= views(values).push(value@));
}

/// The view of a value that may be missing.
pub open spec fn view_of<T: View>(value: Option<T>) -> Option<T::V> {
    match value {
        Some(v) => Some(v@),
        None => None,
    }
}

/// The 32 bit integers of a sequence, each taken as unsigned.
pub open spec fn unsigned(values: Seq<i32>) -> Seq<u32> {
    values.map_values(|x: i32| x as u32)
}

/// The 32 bit integers of a vector, each taken as unsigned.
pub fn to_unsigned(values: &Vec<i32>) -> (out: Vec<u32>)
    ensures
        out@ == unsigned(values@),
{
    let mut out: Vec<u32> = Vec::with_capacity(values.len());
    let mut i: usize = 0;
    while i < values.len()
        invariant
            i <= values.len(),
            out@ == unsigned(values@.take(i as int)),
        decreases values.len() - i,
    {
        out.push(#[verifier::truncate] (values[i] as u32));
        proof {
            assert(unsigned(values@.take(i + 1)) =~= unsigned(values@.take(i as int)).push(
                values[i as int] as u32,
            ));
        }
        i = i + 1;
    }
    proof {
        assert(values@.take(values.len() as int) =~= values@);
    }
    out
}

/// The point that begins at `3 * index` in a flat list of coordinates.
pub open spec fn triple_at(flat: Seq<u32>, index: int) -> [u32; 3] {
    [flat[3 * index], flat[3 * index + 1], flat[3 * index + 2]]
}

/// The points of a flat list of coordinates, three to a point; what is left
/// over at the end is dropped.
pub open spec fn triples(flat: Seq<u32>) -> Seq<[u32; 3]> {
    Seq::new((flat.len() / 3) as nat, |i: int| triple_at(flat, i))
}

/// The points of a flat list of coordinates, three to a point.
pub fn to_triples(flat: &Vec<u32>) -> (out: Vec<[u32; 3]>)
    ensures
        out@ == triples(flat@),
{
    let n = flat.len() / 3;
    let mut out: Vec<[u32; 3]> = Vec::with_capacity(n);
    let mut i: usize = 0;
    while i < n
        invariant
            n == flat.len() / 3,
            i <= n,
            out@.len() == i,
            forall|j: int| 0 <= j < i ==> out@[j] == triple_at(flat@, j),
        decreases n - i,
    {
        let p: [u32; 3] = [flat[3 * i], flat[3 * i + 1], flat[3 * i + 2]];
        out.push(p);
        i = i + 1;
    }
    proof {
        assert(out@ =~= triples(flat@));
    }
    out
}

/// The pair that begins at `2 * index` in a flat list of coordinates.
pub open spec fn pair_at(flat: Seq<u32>, index: int) -> [u32; 2] {
    [flat[2 * index], flat[2 * index + 1]]
}

/// The pairs of a flat list of coordinates, two to a pair; one left over at
/// the end is dropped.
pub open spec fn pairs(flat: Seq<u32>) -> Seq<[u32; 2]> {
    Seq::new((flat.len() / 2) as nat, |i: int| pair_at(flat, i))
}

/// The pairs of a flat list of coordinates, two to a pair.
pub fn to_pairs(flat: &Vec<u32>) -> (out: Vec<[u32; 2]>)
    ensures
        out@ == pairs(flat@),
{
    let n = flat.len() / 2;
    let mut out: Vec<[u32; 2]> = Vec::with_capacity(n);
    let mut i: usize = 0;
    while i < n
        invariant
            n == flat.len() / 2,
            i <= n,
            out@.len() == i,
            forall|j: int| 0 <= j < i ==> out@[j] == pair_at(flat@, j),
        decreases n - i,
    {
        let p: [u32; 2] = [flat[2 * i], flat[2 * i + 1]];
        out.push(p);
        i = i + 1;
    }
    proof {
        assert(out@ =~= pairs(flat@));
    }
    out
}

/// The first three of a list of numbers, if there are that many.
pub open spec fn color_of(flat: Seq<u32>) -> Option<[u32; 3]> {
    if flat.len() >= 3 {
        Some([flat[0], flat[1], flat[2]])
    } else {
        None
    }
}

/// The first three of a list of numbers, if there are that many.
pub fn to_color(flat: &Vec<u32>) -> (r: Option<[u32; 3]>)
    ensures
        r == color_of(flat@),
{
    if flat.len() >= 3 {
        Some([flat[0], flat[1], flat[2]])
    } else {
        None
    }
}

/// The four by four matrix, row by row, of the first sixteen of a list of
/// numbers, if there are that many.
pub open spec fn matrix_of(flat: Seq<u32>) -> Option<[[u32; 4]; 4]> {
    if flat.len() >= 16 {
        Some(
            [
                [flat[0], flat[1], flat[2], flat[3]],
                [flat[4], flat[5], flat[6], flat[7]],
                [flat[8], flat[9], flat[10], flat[11]],
                [flat[12], flat[13], flat[14], flat[15]],
            ],
        )
    } else {
        None
    }
}

/// The four by four matrix of the first sixteen of a list of numbers.
pub fn to_matrix(flat: &Vec<u32>) -> (r: Option<[[u32; 4]; 4]>)
    ensures
        r == matrix_of(flat@),
{
    if flat.len() >= 16 {
        Some(
            [
                [flat[0], flat[1], flat[2], flat[3]],
                [flat[4], flat[5], flat[6], flat[7]],
                [flat[8], flat[9], flat[10], flat[11]],
                [flat[12], flat[13], flat[14], flat[15]],
            ],
        )
    } else {
        None
    }
}

/// How a polygon with so many corners is cut into triangles.
///
/// A triangle is itself. A quadrangle is cut from its first corner to its
/// third where the normals at its second and fourth corner agree, which is
/// so where neither corner, or each of them, is concave; else it is cut from
/// its second corner to its fourth. Any other polygon is not cut at all.
pub open spec fn reference_cut(corners: nat, normals_agree: bool) -> Seq<u32> {
    if corners == 3 {
        seq![0u32, 1u32, 2u32]
    } else if corners == 4 {
        if normals_agree {
            seq![0u32, 1u32, 2u32, 2u32, 3u32, 0u32]
        } else {
            seq![0u32, 1u32, 3u32, 3u32, 1u32, 2u32]
        }
    } else {
        Seq::empty()
    }
}

/// The triangles of `reference_cut` are triangles of the polygon.
pub proof fn reference_cut_is_of_the_polygon(corners: nat, normals_agree: bool)
    ensures
        reference_cut(corners, normals_agree).len() % 3 == 0,
        forall|i: int|
            0 <= i < reference_cut(corners, normals_agree).len() ==> reference_cut(
                corners,
                normals_agree,
            )[i] < corners,
{
}

/// Triangulates single polygon and returns the number of new triangles.
///
/// The triangles of `reference_cut` are added to `target`, three corners
/// each, a corner being the number of a corner of the polygon.
/// `normals_agree` says whether the dot product of the normals at the second
/// and the fourth corner is not negative; it matters for quadrangles only,
/// and it is for the caller to compute, in floating point.
pub fn triangulate_polygon(corners: usize, normals_agree: bool, target: &mut Vec<u32>) -> (count: u32)
    ensures
        final(target)@ == old(target)@ + reference_cut(corners as nat, normals_agree),
        count == reference_cut(corners as nat, normals_agree).len() / 3,
{
    if corners == 3 {
        // Given a triangle, no need of triangulation.
        target.push(0);
        target.push(1);
        target.push(2);
        proof {
            assert(target@ =~= old(target)@ + reference_cut(corners as nat, normals_agree));
        }
        1
    } else if corners == 4 {
        if normals_agree {
            // Cut from the first corner to the third.
            target.push(0);
            target.push(1);
            target.push(2);
            target.push(2);
            target.push(3);
            target.push(0);
        } else {
            // Cut from the second corner to the fourth.
            target.push(0);
            target.push(1);
            target.push(3);
            target.push(3);
            target.push(1);
            target.push(2);
        }
        proof {
            assert(target@ =~= old(target)@ + reference_cut(corners as nat, normals_agree));
        }
        2
    } else {
        // Not a polygon, or one with more corners than are supported.
        proof {
            assert(target@ =~= old(target)@ + reference_cut(corners as nat, normals_agree));
        }
        0
    }
}

} // verus!

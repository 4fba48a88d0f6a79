//! The polygons that the polygon vertex index of a mesh lists.

use vstd::prelude::*;
use crate::utils::{views, views_of_push};

verus! {

/// One polygon of a mesh: where its first corner stands in the polygon
/// vertex index, and its corners, which are indices of vertices.
#[derive(Debug, Clone)]
pub struct Polygon {
    pub start: usize,
    pub corners: Vec<u32>,
}

/// A polygon, as a mathematical value.
pub ghost struct Face {
    pub start: int,
    pub corners: Seq<u32>,
}

impl View for Polygon {
    type V = Face;

    open spec fn view(&self) -> Face {
        Face { start: self.start as int, corners: self.corners@ }
    }
}

/// The index that a negative entry stands for: its one's complement.
pub open spec fn complement(entry: i32) -> u32 {
    (-1 - entry) as u32
}

/// Where the polygon that begins at `from` ends: at the first negative
/// entry. `None` where no negative entry follows.
pub open spec fn polygon_end(index: Seq<i32>, from: int) -> Option<int>
    decreases index.len() - from,
{
    if from < 0 || from >= index.len() {
        None
    } else if index[from] < 0 {
        Some(from)
    } else {
        polygon_end(index, from + 1)
    }
}

/// The corners of the polygon that begins at `start` and ends at `end`: the
/// entries before the last as they are, and the last by its complement.
pub open spec fn corners_of(index: Seq<i32>, start: int, end: int) -> Seq<u32> {
    Seq::new(
        (end - start + 1) as nat,
        |i: int|
            if start + i < end {
                index[start + i] as u32
            } else {
                complement(index[end])
            },
    )
}

/// The polygons that the index lists from `start` on, one after another.
/// Entries after the last negative entry belong to no polygon.
pub open spec fn faces_from(index: Seq<i32>, start: int) -> Seq<Face>
    decreases index.len() - start,
{
    match polygon_end(index, start) {
        Some(end) => if start <= end < index.len() {
            seq![Face { start, corners: corners_of(index, start, end) }] + faces_from(index, end + 1)
        } else {
            Seq::empty()
        },
        None => Seq::empty(),
    }
}

/// The polygons that the index lists.
pub open spec fn faces_of(index: Seq<i32>) -> Seq<Face> {
    faces_from(index, 0)
}

/// A polygon ends at or after its start, within the index, at a negative
/// entry, with no negative entry before it.
pub proof fn polygon_end_is_first_negative(index: Seq<i32>, from: int)
    requires
        0 <= from,
    ensures
        polygon_end(index, from) matches Some(end) ==> from <= end < index.len() && index[end] < 0
            && forall|i: int| from <= i < end ==> index[i] >= 0,
        polygon_end(index, from) is None ==> forall|i: int| from <= i < index.len() ==> index[i] >= 0,
    decreases index.len() - from,
{
    if from < index.len() && index[from] >= 0 {
        polygon_end_is_first_negative(index, from + 1);
    }
}

/// Every polygon lies within the index, and there are no more polygons than entries.
pub proof fn faces_lie_within(index: Seq<i32>, start: int)
    requires
        0 <= start,
    ensures
        faces_from(index, start).len() <= index.len() - start || faces_from(index, start).len() == 0,
        forall|k: int|
            0 <= k < faces_from(index, start).len() ==> {
                let face = #[trigger] faces_from(index, start)[k];
                start <= face.start && face.corners.len() >= 1 && face.start + face.corners.len()
                    <= index.len()
            },
    decreases index.len() - start,
{
    polygon_end_is_first_negative(index, start);
    match polygon_end(index, start) {
        Some(end) => {
            faces_lie_within(index, end + 1);
            let rest = faces_from(index, end + 1);
            let all = faces_from(index, start);
            assert forall|k: int| 0 <= k < all.len() implies {
                let face = #[trigger] all[k];
                start <= face.start && face.corners.len() >= 1 && face.start + face.corners.len()
                    <= index.len()
            } by {
                if k > 0 {
                    assert(all[k] == rest[k - 1]);
                }
            }
        },
        None => {},
    }
}

/// Lists the polygons of a polygon vertex index.
pub fn split_polygons(index: &Vec<i32>) -> (out: Vec<Polygon>)
    ensures
        views(out@) == faces_of(index@),
{
    let mut out: Vec<Polygon> = Vec::new();
    let mut current: Vec<u32> = Vec::new();
    let mut start: usize = 0;
    let mut i: usize = 0;
    proof {
        assert(views(out@) =~= Seq::empty());
    }
    while i < index.len()
        invariant
            start <= i <= index.len(),
            current@.len() == i - start,
            forall|j: int| 0 <= j < current@.len() ==> current@[j] == index@[start + j] as u32,
            forall|j: int| start <= j < i ==> index@[j] >= 0,
            polygon_end(index@, start as int) == polygon_end(index@, i as int),
            views(out@) + faces_from(index@, start as int) == faces_of(index@),
        decreases index.len() - i,
    {
        let entry = index[i];
        if entry < 0 {
            assert(!entry >= 0 && !entry == -1 - entry) by (bit_vector)
                requires
                    entry < 0,
            ;
            current.push((!entry) as u32);
            let polygon = Polygon { start: start, corners: current };
            proof {
                assert(polygon_end(index@, i as int) == Some(i as int));
                assert(polygon@.corners =~= corners_of(index@, start as int, i as int));
                views_of_push(out@, polygon);
                assert(views(out@).push(polygon@) + faces_from(index@, i + 1) =~= views(out@) + (
                seq![polygon@] + faces_from(index@, i + 1)));
            }
            out.push(polygon);
            current = Vec::new();
            start = i + 1;
        } else {
            current.push(entry as u32);
        }
        i = i + 1;
    }
    proof {
        assert(polygon_end(index@, i as int) is None);
        assert(views(out@) + Seq::<Face>::empty() =~= views(out@));
    }
    out
}

} // verus!

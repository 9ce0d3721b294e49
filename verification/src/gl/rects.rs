//! Lists of scissor rectangles, as they are handed to an array call.
//!
//! Implementations commonly allow sixteen viewports, so a list of up to
//! sixteen rectangles is kept in place and only a longer one on the heap.

use vstd::prelude::*;
use smallvec::SmallVec;

verus! {

/// A rectangle: x, y, width and height.
pub type Rect = (i32, i32, i32, i32);

/// A list of rectangles in a `SmallVec` with room for sixteen in place.
#[verifier::external_body]
pub struct RectList {
    inner: SmallVec<[[i32; 4]; 16]>,
}

/// The rectangles of a list, first to last.
pub uninterp spec fn rects(list: RectList) -> Seq<Rect>;

/// `n` rectangles that are all zero.
pub open spec fn neutral_rects(n: nat) -> Seq<Rect> {
    Seq::new(n, |i: int| (0i32, 0i32, 0i32, 0i32))
}

/// `SmallVec::new`: a list that holds nothing.
#[verifier::external_body]
fn list_new() -> (list: RectList)
    ensures
        rects(list) == Seq::<Rect>::empty(),
{
    RectList { inner: SmallVec::new() }
}

/// The largest number of rectangles that a list is asked to hold. A list
/// grows to the next power of two, and sixteen bytes times that number have
/// to stay within what can be allocated.
pub const MAX_RECTS: usize = usize::MAX / 64;

/// `SmallVec::push`: the list with `rect` added at its end. The call panics
/// with "capacity overflow" where the list can grow no more, which
/// `requires` leaves out.
#[verifier::external_body]
fn list_push(list: &mut RectList, rect: Rect)
    requires
        rects(*old(list)).len() < MAX_RECTS,
    ensures
        rects(*final(list)) == rects(*old(list)).push(rect),
{
    list.inner.push([rect.0, rect.1, rect.2, rect.3])
}

/// `SmallVec::len`: the number of rectangles in the list.
#[verifier::external_body]
fn list_len(list: &RectList) -> (n: usize)
    ensures
        n == rects(*list).len(),
{
    list.inner.len()
}

/// `SmallVec::as_slice`: the rectangles of the list, first to last.
#[verifier::external_body]
fn list_items(list: &RectList) -> (items: Vec<Rect>)
    ensures
        items@ == rects(*list),
{
    list.inner.as_slice().iter().map(|r| (r[0], r[1], r[2], r[3])).collect()
}

impl RectList {
    /// A list that holds nothing.
    pub fn new() -> (list: RectList)
        ensures
            rects(list) == Seq::<Rect>::empty(),
    {
        list_new()
    }

    /// A list of `n` rectangles that are all zero.
    pub fn neutral(n: usize) -> (list: RectList)
        requires
            n <= MAX_RECTS,
        ensures
            rects(list) == neutral_rects(n as nat),
    {
        let mut list = list_new();
        let mut i: usize = 0;
        while i < n
            invariant
                i <= n,
                n <= MAX_RECTS,
                rects(list) == neutral_rects(i as nat),
            decreases n - i,
        {
            list_push(&mut list, (0, 0, 0, 0));
            assert(neutral_rects(i as nat).push((0i32, 0i32, 0i32, 0i32)) =~= neutral_rects(
                (i + 1) as nat,
            ));
            i = i + 1;
        }
        list
    }

    /// The number of rectangles in the list.
    pub fn len(&self) -> (n: usize)
        ensures
            n == rects(*self).len(),
    {
        list_len(self)
    }

    /// The rectangles of the list, first to last.
    pub fn to_vec(&self) -> (items: Vec<Rect>)
        ensures
            items@ == rects(*self),
    {
        list_items(self)
    }
}

} // verus!

//! A walk over the pixel positions of an image.
use vstd::prelude::*;

verus! {

/// Walks the pixel positions `(x, y)` of a `width` by `height` image, column
/// by column: `(0, 0), (0, 1), ..., (0, height - 1), (1, 0), ...`.
#[derive(Clone, Copy, Debug, PartialEq, Eq, Hash, Structural)]
pub struct ImageIterator {
    pub width: u32,
    pub height: u32,
    /// How many positions have been handed out.
    pub item: u64,
}

/// The number of positions of the walk.
pub open spec fn position_count(it: ImageIterator) -> nat {
    it.width as nat * it.height as nat
}

impl ImageIterator {
    pub fn new(width: u32, height: u32) -> (r: ImageIterator)
        ensures
            r.width == width,
            r.height == height,
            r.item == 0,
    {
        ImageIterator { width, height, item: 0 }
    }

    pub fn with_dimension(dimension: &(u32, u32)) -> (r: ImageIterator)
        ensures
            r.width == dimension.0,
            r.height == dimension.1,
            r.item == 0,
    {
        ImageIterator { width: dimension.0, height: dimension.1, item: 0 }
    }

    /// The next position, or `None` once every position has been handed out.
    pub fn next(&mut self) -> (r: Option<(u32, u32)>)
        ensures
            final(self).width == old(self).width,
            final(self).height == old(self).height,
            old(self).item < position_count(*old(self)) ==> (r == Some(
                ((old(self).item / (old(self).height as u64)) as u32, (old(self).item % (old(self).height as u64)) as u32),
            ) && final(self).item == old(self).item + 1),
            old(self).item >= position_count(*old(self)) ==> (r is None && final(self).item
                == old(self).item),
    {
        proof {
            crate::image::lemma_u32_product_bound(self.width, self.height);
        }
        let n: u64 = self.item;
        let h: u64 = self.height as u64;
        if n < self.width as u64 * h {
            self.item = n + 1;
            proof {
                assert(n / h < self.width) by (nonlinear_arith)
                    requires
                        n < self.width * h,
                        h > 0,
                ;
            }
            Some(((n / h) as u32, (n % h) as u32))
        } else {
            None
        }
    }
}

} // verus!

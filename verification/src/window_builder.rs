//! The shape of the window applied to an impulse response before its
//! frequency response is computed: a rising side, a flat top and a falling
//! side, their widths in samples. `K` names the kind of curve of a side; the
//! curves themselves are sampled by the caller.
use vstd::prelude::*;

verus! {

/// The geometry of a window: the kind and width of each side, and the whole
/// width, in samples.
#[derive(Debug, Clone, Copy)]
pub struct WindowBuilder<K> {
    left_side: K,
    left_side_width: usize,
    right_side: K,
    right_side_width: usize,
    width: usize,
}

/// The window made of the first `left_width` samples of `left`, ones up to
/// `width` samples less the right side, and `right` from its sample
/// `right_width` on.
pub open spec fn assembled<T>(
    left: Seq<T>,
    left_width: nat,
    right: Seq<T>,
    right_width: nat,
    width: nat,
    one: T,
) -> Seq<T> {
    let head = if left_width <= left.len() {
        left.take(left_width as int)
    } else {
        left
    };
    let tail = if right_width <= right.len() {
        right.skip(right_width as int)
    } else {
        Seq::empty()
    };
    head + Seq::new((width - left_width - right_width) as nat, |i: int| one) + tail
}

impl<K: Copy> WindowBuilder<K> {
    pub closed spec fn spec_left_side(&self) -> K {
        self.left_side
    }

    pub closed spec fn spec_right_side(&self) -> K {
        self.right_side
    }

    pub closed spec fn spec_left_side_width(&self) -> usize {
        self.left_side_width
    }

    pub closed spec fn spec_right_side_width(&self) -> usize {
        self.right_side_width
    }

    pub closed spec fn spec_width(&self) -> usize {
        self.width
    }

    /// A window `width` samples wide whose sides each take half of it.
    pub fn new(left_side: K, right_side: K, width: usize) -> (r: Self)
        ensures
            r.spec_left_side() == left_side,
            r.spec_right_side() == right_side,
            r.spec_left_side_width() == width / 2,
            r.spec_right_side_width() == width / 2,
            r.spec_width() == width,
    {
        WindowBuilder {
            left_side,
            left_side_width: width / 2,
            right_side,
            right_side_width: width / 2,
            width,
        }
    }

    /// The window first shown: both sides of kind `side`, the rising one
    /// 5512 samples wide and the falling one 22050, nothing flat between.
    pub fn with_default_widths(side: K) -> (r: Self)
        ensures
            r.spec_left_side() == side,
            r.spec_right_side() == side,
            r.spec_left_side_width() == 5512,
            r.spec_right_side_width() == 22050,
            r.spec_width() == 5512 + 22050,
    {
        let left_side_width: usize = 5512;
        let right_side_width: usize = 22050;
        WindowBuilder {
            left_side: side,
            left_side_width,
            right_side: side,
            right_side_width,
            width: left_side_width + right_side_width,
        }
    }

    /// Puts the window together from a sampled curve for each side, each
    /// sampled over twice its side's width: the first half of the left
    /// curve, ones, and the second half of the right curve.
    pub fn build<T: Copy>(&self, left: Vec<T>, right: Vec<T>, one: T) -> (r: Vec<T>)
        requires
            self.spec_left_side_width() + self.spec_right_side_width() <= self.spec_width(),
        ensures
            r@ == assembled(
                left@,
                self.spec_left_side_width() as nat,
                right@,
                self.spec_right_side_width() as nat,
                self.spec_width() as nat,
                one,
            ),
    {
        let mut window: Vec<T> = Vec::new();
        let mut i: usize = 0;
        while i < self.left_side_width && i < left.len()
            invariant
                i <= self.left_side_width,
                i <= left.len(),
                window@ == left@.take(i as int),
            decreases left.len() - i,
        {
            window.push(left[i]);
            assert(left@.take(i as int + 1) =~= left@.take(i as int).push(left@[i as int]));
            i = i + 1;
        }
        proof {
            if self.left_side_width <= left.len() {
                assert(window@ =~= left@.take(self.left_side_width as int));
            } else {
                assert(window@ =~= left@);
            }
        }
        let ghost head = window@;
        let ones = self.width - self.left_side_width - self.right_side_width;
        let mut k: usize = 0;
        while k < ones
            invariant
                k <= ones,
                window@ == head + Seq::new(k as nat, |j: int| one),
            decreases ones - k,
        {
            window.push(one);
            assert(Seq::new((k + 1) as nat, |j: int| one) =~= Seq::new(k as nat, |j: int| one).push(
                one,
            ));
            k = k + 1;
        }
        let ghost middle = window@;
        if self.right_side_width <= right.len() {
            let mut j: usize = self.right_side_width;
            while j < right.len()
                invariant
                    self.right_side_width <= j <= right.len(),
                    window@ == middle + right@.subrange(self.right_side_width as int, j as int),
                decreases right.len() - j,
            {
                window.push(right[j]);
                assert(right@.subrange(self.right_side_width as int, j as int + 1) =~= right@.subrange(
                    self.right_side_width as int,
                    j as int,
                ).push(right@[j as int]));
                j = j + 1;
            }
            assert(right@.subrange(self.right_side_width as int, right.len() as int)
                =~= right@.skip(self.right_side_width as int));
        } else {
            assert(middle + Seq::<T>::empty() =~= middle);
        }
        window
    }

    pub fn left_side(&self) -> (r: K)
        ensures
            r == self.spec_left_side(),
    {
        self.left_side
    }

    pub fn left_side_width(&self) -> (r: usize)
        ensures
            r == self.spec_left_side_width(),
    {
        self.left_side_width
    }

    /// The widest the rising side can be: the rest of the window.
    pub fn max_left_side_width(&self) -> (r: usize)
        requires
            self.spec_right_side_width() <= self.spec_width(),
        ensures
            r == self.spec_width() - self.spec_right_side_width(),
    {
        self.width - self.right_side_width
    }

    pub fn right_side(&self) -> (r: K)
        ensures
            r == self.spec_right_side(),
    {
        self.right_side
    }

    pub fn right_side_width(&self) -> (r: usize)
        ensures
            r == self.spec_right_side_width(),
    {
        self.right_side_width
    }

    /// The widest the falling side can be: the rest of the window.
    pub fn max_right_side_width(&self) -> (r: usize)
        requires
            self.spec_left_side_width() <= self.spec_width(),
        ensures
            r == self.spec_width() - self.spec_left_side_width(),
    {
        self.width - self.left_side_width
    }

    pub fn width(&self) -> (r: usize)
        ensures
            r == self.spec_width(),
    {
        self.width
    }

    pub fn set_left_side(&mut self, window: K) -> (r: &mut Self)
        ensures
            r.spec_left_side() == window,
            r.spec_left_side_width() == old(self).spec_left_side_width(),
            r.spec_right_side() == old(self).spec_right_side(),
            r.spec_right_side_width() == old(self).spec_right_side_width(),
            r.spec_width() == old(self).spec_width(),
            *final(self) == *final(r),
    {
        self.left_side = window;
        self
    }

    pub fn set_left_side_width(&mut self, width: usize) -> (r: &mut Self)
        ensures
            r.spec_left_side() == old(self).spec_left_side(),
            r.spec_left_side_width() == width,
            r.spec_right_side() == old(self).spec_right_side(),
            r.spec_right_side_width() == old(self).spec_right_side_width(),
            r.spec_width() == old(self).spec_width(),
            *final(self) == *final(r),
    {
        self.left_side_width = width;
        self
    }

    pub fn set_right_side(&mut self, window: K) -> (r: &mut Self)
        ensures
            r.spec_left_side() == old(self).spec_left_side(),
            r.spec_left_side_width() == old(self).spec_left_side_width(),
            r.spec_right_side() == window,
            r.spec_right_side_width() == old(self).spec_right_side_width(),
            r.spec_width() == old(self).spec_width(),
            *final(self) == *final(r),
    {
        self.right_side = window;
        self
    }

    pub fn set_right_side_width(&mut self, width: usize) -> (r: &mut Self)
        ensures
            r.spec_left_side() == old(self).spec_left_side(),
            r.spec_left_side_width() == old(self).spec_left_side_width(),
            r.spec_right_side() == old(self).spec_right_side(),
            r.spec_right_side_width() == width,
            r.spec_width() == old(self).spec_width(),
            *final(self) == *final(r),
    {
        self.right_side_width = width;
        self
    }

    pub fn set_width(&mut self, width: usize) -> (r: &mut Self)
        ensures
            r.spec_left_side() == old(self).spec_left_side(),
            r.spec_left_side_width() == old(self).spec_left_side_width(),
            r.spec_right_side() == old(self).spec_right_side(),
            r.spec_right_side_width() == old(self).spec_right_side_width(),
            r.spec_width() == width,
            *final(self) == *final(r),
    {
        self.width = width;
        self
    }
}

/// A window built from curves sampled over twice each side's width (a
/// curve of `n` samples may have one more) is as wide as the window asks,
/// plus that one sample.
pub proof fn law_built_window_width<T>(
    left: Seq<T>,
    left_width: nat,
    right: Seq<T>,
    right_width: nat,
    width: nat,
    one: T,
)
    requires
        left_width + right_width <= width,
        left.len() >= left_width,
        right.len() >= right_width,
    ensures
        assembled(left, left_width, right, right_width, width, one).len() == width - right_width
            + right.len() - right_width,
        right.len() == 2 * right_width ==> assembled(left, left_width, right, right_width, width, one).len() == width,
{
}

} // verus!

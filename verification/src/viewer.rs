use vstd::prelude::*;

verus! {

/// The browsing state: the ordered list of image paths still under
/// review, and the cursor naming the one on screen. The list shrinks
/// by one path per keep operation and never grows.
pub struct ImageSet {
    images: Vec<String>,
    index: usize,
}

impl ImageSet {
    /// The paths, in display order.
    pub closed spec fn paths(self) -> Seq<String> {
        self.images@
    }

    /// The cursor: the position of the path currently shown.
    pub closed spec fn cursor(self) -> int {
        self.index as int
    }

    /// The invariant: while any image remains the cursor names a valid
    /// position; once the set is empty the cursor rests at zero.
    pub open spec fn wf(self) -> bool {
        if self.paths().len() == 0 {
            self.cursor() == 0
        } else {
            0 <= self.cursor() < self.paths().len()
        }
    }

    /// Start browsing at the first image of the given list. An empty
    /// list is valid: the set then starts, and stays, empty.
    pub fn new(images: Vec<String>) -> (s: ImageSet)
        ensures
            s.paths() == images@,
            s.cursor() == 0,
            s.wf(),
    {
        ImageSet { images, index: 0 }
    }

    /// Step `magnitude` images forward. The step is all or nothing: if
    /// it would pass the last image it is rejected whole, and a set of
    /// fewer than two images never moves.
    pub fn step_forward(&mut self, magnitude: usize)
        requires
            old(self).wf(),
            magnitude >= 1,
        ensures
            final(self).wf(),
            final(self).paths() == old(self).paths(),
            final(self).cursor() == if old(self).paths().len() >= 2 && old(self).cursor()
                + magnitude < old(self).paths().len() {
                old(self).cursor() + magnitude
            } else {
                old(self).cursor()
            },
    {
        if self.images.len() <= 1 {
            return ;
        }
        if magnitude < self.images.len() && self.index < self.images.len() - magnitude {
            self.index = self.index + magnitude;
        }
    }

    /// Step `magnitude` images backward, or stay put if fewer than
    /// `magnitude` images lie before the cursor.
    pub fn step_backward(&mut self, magnitude: usize)
        requires
            old(self).wf(),
            magnitude >= 1,
        ensures
            final(self).wf(),
            final(self).paths() == old(self).paths(),
            final(self).cursor() == if old(self).cursor() >= magnitude {
                old(self).cursor() - magnitude
            } else {
                old(self).cursor()
            },
    {
        if self.index >= magnitude {
            self.index = self.index - magnitude;
        }
    }

    /// Take the path under the cursor out of the set and hand it back;
    /// on an empty set, do nothing. When the last position was removed
    /// the cursor falls back one step so it stays valid.
    pub fn remove_current(&mut self) -> (r: Option<String>)
        requires
            old(self).wf(),
        ensures
            final(self).wf(),
            old(self).paths().len() == 0 ==> r is None && final(self).paths() == old(
                self,
            ).paths() && final(self).cursor() == old(self).cursor(),
            old(self).paths().len() > 0 ==> (r matches Some(p) && p == old(self).paths()[old(
                self,
            ).cursor()]) && final(self).paths() == old(self).paths().remove(old(self).cursor())
                && final(self).cursor() == (if old(self).cursor() + 1 == old(self).paths().len()
                && old(self).paths().len() >= 2 {
                old(self).cursor() - 1
            } else {
                old(self).cursor()
            }),
    {
        if self.images.len() == 0 {
            return None;
        }
        let p = self.images.remove(self.index);
        if self.index >= self.images.len() && self.images.len() != 0 {
            self.index = self.index - 1;
        }
        Some(p)
    }

    /// The path under the cursor, or nothing once the set is empty.
    pub fn current(&self) -> (r: Option<&String>)
        requires
            self.wf(),
        ensures
            match r {
                Some(p) => self.paths().len() > 0 && *p == self.paths()[self.cursor()],
                None => self.paths().len() == 0,
            },
    {
        if self.images.len() == 0 {
            None
        } else {
            Some(&self.images[self.index])
        }
    }

    /// How many images remain.
    pub fn len(&self) -> (n: usize)
        ensures
            n == self.paths().len(),
    {
        self.images.len()
    }

    /// Whether any image remains.
    pub fn is_empty(&self) -> (e: bool)
        ensures
            e <==> self.paths().len() == 0,
    {
        self.images.len() == 0
    }

    /// The cursor's position.
    pub fn position(&self) -> (i: usize)
        ensures
            i == self.cursor(),
    {
        self.index
    }

    /// The path at a given position.
    pub fn get(&self, i: usize) -> (r: &String)
        requires
            i < self.paths().len(),
        ensures
            *r == self.paths()[i as int],
    {
        &self.images[i]
    }
}

} // verus!

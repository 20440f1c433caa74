//! Register cells and aligned buffers.
//!
//! A `Volatile` is one memory-mapped register as the library sees it: a cell
//! whose reads give what was last written to it. An `AlignedBuffer` is a
//! buffer of words with the alignment the hardware asks for.
use vstd::prelude::*;

verus! {

/// One register cell.
#[derive(Debug)]
pub struct Volatile<T> {
    value: T,
}

impl<T: Copy> View for Volatile<T> {
    type V = T;

    closed spec fn view(&self) -> T {
        self.value
    }
}

impl<T: Copy> Volatile<T> {
    /// A cell holding `value`.
    pub fn new(value: T) -> (r: Self)
        ensures
            r@ == value,
    {
        Volatile { value }
    }

    /// Reads the cell.
    pub fn get(&self) -> (r: T)
        ensures
            r == self@,
    {
        self.value
    }

    /// Writes `value` to the cell.
    pub fn set(&mut self, value: T)
        ensures
            final(self)@ == value,
    {
        self.value = value;
    }

    /// Reads the cell, applies `f` and writes the result back.
    pub fn map<F: Fn(T) -> T>(&mut self, f: F)
        requires
            f.requires((old(self)@,)),
        ensures
            f.ensures((old(self)@,), final(self)@),
    {
        let v = f(self.get());
        self.set(v)
    }

    /// Reads the cell, applies the closure `f` and writes the result back.
    pub fn map_closure<F: Fn(T) -> T>(&mut self, f: &F)
        requires
            f.requires((old(self)@,)),
        ensures
            f.ensures((old(self)@,), final(self)@),
    {
        let v = f(self.get());
        self.set(v)
    }
}

/// `n` is a power of two.
pub open spec fn is_power_of_two(n: nat) -> bool
    decreases n,
{
    if n == 1 {
        true
    } else if n == 0 || n % 2 == 1 {
        false
    } else {
        is_power_of_two(n / 2)
    }
}

/// A buffer of `len` elements whose start has the given alignment.
pub struct AlignedBuffer<T> {
    elements: Vec<T>,
    align: usize,
}

impl<T: Copy> View for AlignedBuffer<T> {
    type V = Seq<T>;

    closed spec fn view(&self) -> Seq<T> {
        self.elements@
    }
}

impl<T: Copy> AlignedBuffer<T> {
    /// The alignment the buffer was made with.
    pub closed spec fn alignment(&self) -> nat {
        self.align as nat
    }

    /// A buffer of `length` elements, each `fill`, aligned to `align` bytes.
    pub fn with_length_align(length: usize, align: usize, fill: T) -> (r: Self)
        requires
            is_power_of_two(align as nat),
        ensures
            r@ == Seq::new(length as nat, |i: int| fill),
            r.alignment() == align,
    {
        let mut elements: Vec<T> = Vec::new();
        let mut i: usize = 0;
        while i < length
            invariant
                i <= length,
                elements@ == Seq::new(i as nat, |j: int| fill),
            decreases length - i,
        {
            elements.push(fill);
            i = i + 1;
            assert(elements@ =~= Seq::new(i as nat, |j: int| fill));
        }
        AlignedBuffer { elements, align }
    }

    /// A buffer holding `elements`, aligned to `align` bytes.
    pub fn from_elements(elements: Vec<T>, align: usize) -> (r: Self)
        requires
            is_power_of_two(align as nat),
        ensures
            r@ == elements@,
            r.alignment() == align,
    {
        AlignedBuffer { elements, align }
    }

    /// Elements `from..to`.
    pub fn copy_range(&self, from: usize, to: usize) -> (r: Vec<T>)
        requires
            from <= to <= self@.len(),
        ensures
            r@ == self@.subrange(from as int, to as int),
    {
        let mut out: Vec<T> = Vec::new();
        let mut i = from;
        while i < to
            invariant
                from <= i <= to <= self@.len(),
                self@.len() == self.elements@.len(),
                out@ == self@.subrange(from as int, i as int),
            decreases to - i,
        {
            out.push(self.elements[i]);
            i = i + 1;
            assert(out@ =~= self@.subrange(from as int, i as int));
        }
        out
    }

    /// Number of elements.
    pub fn len(&self) -> (r: usize)
        ensures
            r == self@.len(),
    {
        self.elements.len()
    }

    /// Element `i`.
    pub fn get(&self, i: usize) -> (r: T)
        requires
            i < self@.len(),
        ensures
            r == self@[i as int],
    {
        self.elements[i]
    }

    /// Replaces element `i`.
    pub fn set(&mut self, i: usize, value: T)
        requires
            i < old(self)@.len(),
        ensures
            final(self)@ == old(self)@.update(i as int, value),
            final(self).alignment() == old(self).alignment(),
    {
        self.elements.set(i, value);
    }
}

} // verus!

//! Ordered registry of forwarding destinations.
//!
//! Insertion order is significant: the control surface removes entries
//! by their printed index. Duplicates are allowed. The element type is
//! left generic; the process around the relay keeps resolved socket
//! addresses in it, and everything the registry promises is independent
//! of what an entry is.

use vstd::prelude::*;

verus! {

/// One requested mutation of the registry: append an entry, or remove
/// the entry at an index.
pub enum RegOp<T> {
    Add(T),
    Rm(usize),
}

/// Effect of a single mutation on the registry's contents. A removal at
/// an out-of-range index leaves the contents alone.
pub open spec fn spec_apply_op<T>(s: Seq<T>, op: RegOp<T>) -> Seq<T> {
    match op {
        RegOp::Add(a) => s.push(a),
        RegOp::Rm(i) => {
            if i < s.len() {
                s.remove(i as int)
            } else {
                s
            }
        },
    }
}

/// Net effect of a sequence of mutations, applied in order.
pub open spec fn spec_apply_ops<T>(s: Seq<T>, ops: Seq<RegOp<T>>) -> Seq<T>
    decreases ops.len(),
{
    if ops.len() == 0 {
        s
    } else {
        spec_apply_ops(spec_apply_op(s, ops.first()), ops.drop_first())
    }
}

/// The ordered, runtime-mutable collection of forwarding addresses.
pub struct Registry<T> {
    addrs: Vec<T>,
}

impl<T> View for Registry<T> {
    type V = Seq<T>;

    closed spec fn view(&self) -> Seq<T> {
        self.addrs@
    }
}

impl<T> Registry<T> {
    /// A registry with no destinations.
    pub fn new() -> (r: Self)
        ensures
            r@ == Seq::<T>::empty(),
    {
        Registry { addrs: Vec::new() }
    }

    /// How many destinations are registered.
    pub fn len(&self) -> (n: usize)
        ensures
            n == self@.len(),
    {
        self.addrs.len()
    }

    /// The destination at index `i`, in insertion order.
    pub fn get(&self, i: usize) -> (r: &T)
        requires
            i < self@.len(),
        ensures
            *r == self@[i as int],
    {
        &self.addrs[i]
    }

    /// Appends a destination; every earlier entry keeps its index, and
    /// the new one stands at the next unused index.
    pub fn add(&mut self, a: T)
        ensures
            final(self)@ == old(self)@.push(a),
    {
        self.addrs.push(a);
    }

    /// Removes the entry at index `i`; later entries shift down by one.
    /// An out-of-range index changes nothing, and the result says
    /// whether anything was removed.
    pub fn rm(&mut self, i: usize) -> (removed: bool)
        ensures
            removed == (i < old(self)@.len()),
            i < old(self)@.len() ==> final(self)@ == old(self)@.remove(i as int),
            i >= old(self)@.len() ==> final(self)@ == old(self)@,
    {
        if i < self.addrs.len() {
            self.addrs.remove(i);
            true
        } else {
            false
        }
    }

    /// Applies a whole sequence of mutations in order. However the
    /// requests were interleaved with relay work, the final contents are
    /// exactly the net effect of the sequence: no entry is lost or
    /// duplicated beyond what the mutations themselves ask for.
    pub fn apply_ops(&mut self, ops: Vec<RegOp<T>>)
        ensures
            final(self)@ == spec_apply_ops(old(self)@, ops@),
    {
        let mut rest = ops;
        while rest.len() > 0
            invariant
                spec_apply_ops(self@, rest@) == spec_apply_ops(old(self)@, ops@),
            decreases rest@.len(),
        {
            let ghost prev = rest@;
            let op = rest.remove(0);
            proof {
                assert(rest@ =~= prev.drop_first());
            }
            match op {
                RegOp::Add(a) => self.add(a),
                RegOp::Rm(i) => {
                    self.rm(i);
                },
            }
        }
    }
}

} // verus!

//! Capability flags a type record may declare.
//!
//! The bit positions are a fixed external contract: they mirror the foreign
//! runtime's own native flag bits, so the runtime's internal feature checks
//! agree with what a descriptor declares. Callers combine flags with bitwise
//! OR; no validation happens here.

use vstd::prelude::*;

verus! {

/// Type object supports the runtime's garbage collector.
pub const GC: usize = 1;

/// Type object supports weak references.
pub const WEAKREF: usize = 2;

/// Type object can be used as the base type of another type.
pub const BASETYPE: usize = 4;

/// Instances of this type carry a dictionary of instance variables.
pub const DICT: usize = 8;

/// The type extends a host-defined base type.
pub const EXTENDED: usize = 16;

/// A flag set contains `flag` when every bit of `flag` is set in it.
pub open spec fn spec_has_flag(flags: usize, flag: usize) -> bool {
    flags & flag == flag
}

/// The flag set declaring exactly the chosen capabilities.
pub open spec fn spec_compose(
    gc: bool,
    weakref: bool,
    basetype: bool,
    dict: bool,
    extended: bool,
) -> usize {
    (if gc { GC } else { 0 }) | (if weakref { WEAKREF } else { 0 }) | (if basetype {
        BASETYPE
    } else {
        0
    }) | (if dict { DICT } else { 0 }) | (if extended { EXTENDED } else { 0 })
}

/// Test whether a flag set contains `flag`.
pub fn has_flag(flags: usize, flag: usize) -> (r: bool)
    ensures
        r == spec_has_flag(flags, flag),
{
    flags & flag == flag
}

/// Combining any subset of the five named flags with bitwise OR yields a set
/// that contains exactly that subset: decomposing it bit by bit recovers each
/// chosen flag and none of the others.
pub proof fn lemma_flag_composition(gc: bool, weakref: bool, basetype: bool, dict: bool, extended: bool)
    ensures
        spec_has_flag(spec_compose(gc, weakref, basetype, dict, extended), GC) == gc,
        spec_has_flag(spec_compose(gc, weakref, basetype, dict, extended), WEAKREF) == weakref,
        spec_has_flag(spec_compose(gc, weakref, basetype, dict, extended), BASETYPE) == basetype,
        spec_has_flag(spec_compose(gc, weakref, basetype, dict, extended), DICT) == dict,
        spec_has_flag(spec_compose(gc, weakref, basetype, dict, extended), EXTENDED) == extended,
{
    let v = spec_compose(gc, weakref, basetype, dict, extended);
    assert(v == (if gc { 1usize } else { 0 }) | (if weakref { 2usize } else { 0 }) | (if basetype {
        4usize
    } else {
        0
    }) | (if dict { 8usize } else { 0 }) | (if extended { 16usize } else { 0 }));
    assert({
        let w = (if gc { 1usize } else { 0 }) | (if weakref { 2usize } else { 0 }) | (if basetype {
            4usize
        } else {
            0
        }) | (if dict { 8usize } else { 0 }) | (if extended { 16usize } else { 0 });
        ((w & 1usize == 1usize) == gc) && ((w & 2usize == 2usize) == weakref) && ((w & 4usize
            == 4usize) == basetype) && ((w & 8usize == 8usize) == dict) && ((w & 16usize == 16usize)
            == extended)
    }) by (bit_vector);
}

} // verus!

//! Capability markers.
//!
//! A container instantiation is parameterized by a marker type selecting which
//! cross-cutting capabilities it exposes: duplication, cross-thread transfer
//! (send) and cross-thread sharing (sync), in any combination.  The markers
//! have no runtime representation; construction of a container checks, at
//! verification time, that the element type satisfies every requested
//! capability.

use vstd::prelude::*;

verus! {

/// Closes the marker hierarchy: only the markers of this module implement it.
pub trait Sealed {}

/// A capability request carried by a container instantiation.
///
/// Each implementor fixes, at the type level, which capabilities it demands of
/// the element type: duplication (`needs_cloneable`), cross-thread transfer
/// (`needs_send`) and cross-thread sharing (`needs_sync`).
pub trait Trait: Sealed {
    spec fn needs_cloneable() -> bool;

    spec fn needs_send() -> bool;

    spec fn needs_sync() -> bool;
}

/// A marker that demands duplicability of the element type.
///
/// A container whose marker implements this trait exposes duplication; the
/// obligation ties the trait to the `needs_cloneable` flag, so such a
/// container can only be built over an element type declared cloneable.
pub trait Cloneable: Trait {
    proof fn cloneable_marked()
        ensures
            Self::needs_cloneable(),
    ;
}

/// The capability request with flags fixed by the instantiation: duplication,
/// cross-thread transfer and cross-thread sharing, in that order.  The default
/// request is `Caps<false, false, false>`.
pub struct Caps<const CLONEABLE: bool, const SEND: bool, const SYNC: bool>;

impl<const CLONEABLE: bool, const SEND: bool, const SYNC: bool> Sealed
    for Caps<CLONEABLE, SEND, SYNC>
{

}

impl<const CLONEABLE: bool, const SEND: bool, const SYNC: bool> Trait
    for Caps<CLONEABLE, SEND, SYNC>
{
    open spec fn needs_cloneable() -> bool {
        CLONEABLE
    }

    open spec fn needs_send() -> bool {
        SEND
    }

    open spec fn needs_sync() -> bool {
        SYNC
    }
}

impl<const SEND: bool, const SYNC: bool> Cloneable for Caps<true, SEND, SYNC> {
    proof fn cloneable_marked() {
    }
}

} // verus!

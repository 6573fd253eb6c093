//! Thread-scope capability markers.
//!
//! The host runs plugin code on two very different threads: the main thread
//! (UI, project manipulation) and the real-time audio thread (buffer
//! processing). Most native entry points are only safe to call from one of
//! the two. The typed dispatch layer is generic over a usage-scope marker
//! type, and every thread-restricted method is bound by the matching
//! capability trait, so a handle of the wrong scope cannot even name the
//! operation — the partition costs nothing at runtime and is enforced
//! entirely at compile time.
//!
//! Both capability traits are sealed: no foreign type can claim a capability
//! and bypass the partition.

use vstd::prelude::*;

verus! {

/// Seal for the capability traits; implemented only by the two scope markers
/// defined here, so no other type can acquire a thread capability.
pub trait Sealed {

}

/// The privilege to execute functions that are only safe on the main thread.
pub trait MainThreadOnly: Sealed {

}

/// The privilege to execute functions that are only safe on the real-time
/// audio thread.
pub trait AudioThreadOnly: Sealed {

}

/// A usage scope that unlocks all functions safe to execute from the main
/// thread.
#[derive(Clone, Copy, PartialEq, Eq, Structural, Debug)]
pub struct MainThreadScope;

impl Sealed for MainThreadScope {

}

impl MainThreadOnly for MainThreadScope {

}

/// A usage scope that unlocks all functions safe to execute from the
/// real-time audio thread. Creating a handle of this scope is an explicit
/// step, and it is the caller's obligation to use that handle only inside the
/// real audio callback.
#[derive(Clone, Copy, PartialEq, Eq, Structural, Debug)]
pub struct RealTimeAudioThreadScope;

impl Sealed for RealTimeAudioThreadScope {

}

impl AudioThreadOnly for RealTimeAudioThreadScope {

}

} // verus!

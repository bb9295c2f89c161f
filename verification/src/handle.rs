//! Exclusive ownership of a native resource handle.
//!
//! A [`NativeHandle`] exists only for a raw value that the platform call
//! which produced it left valid. An ownership is meant to end in one of two
//! ways, both of which consume it: [`NativeHandle::release_to_external`]
//! hands the raw value to a subsystem that will free it itself, and
//! [`NativeHandle::into_release`] names the release call that is now owed to
//! the platform. Neither can be reached twice for one handle.
//!
//! The wrapper makes no platform call and has no destructor. A handle that
//! merely goes out of scope releases nothing: the resource stays with the
//! platform until the process ends. Whoever holds a handle that no
//! external owner takes must call [`NativeHandle::into_release`] and make
//! the call that it names.

use vstd::prelude::*;

verus! {

/// The null handle.
pub const NULL_HANDLE: isize = 0;

/// The platform's marker for an icon handle that names nothing.
pub const INVALID_HANDLE: isize = -1;

/// The kind of resource behind a handle. It decides which raw values name
/// a resource and which release primitive the platform offers for it.
#[derive(Clone, Copy, Debug, PartialEq, Eq, Structural)]
pub enum HandleKind {
    Icon,
    Window,
}

/// A raw value names a resource of the given kind: no handle is null, and
/// an icon handle is not the invalid marker either.
pub open spec fn valid_raw(kind: HandleKind, raw: isize) -> bool {
    match kind {
        HandleKind::Icon => raw != NULL_HANDLE && raw != INVALID_HANDLE,
        HandleKind::Window => raw != NULL_HANDLE,
    }
}

/// Tells whether a raw value names a resource of the given kind.
pub fn is_valid_raw(kind: HandleKind, raw: isize) -> (ok: bool)
    ensures
        ok == valid_raw(kind, raw),
{
    match kind {
        HandleKind::Icon => raw != NULL_HANDLE && raw != INVALID_HANDLE,
        HandleKind::Window => raw != NULL_HANDLE,
    }
}

/// A raw value that names no resource was offered for ownership.
#[derive(Clone, Copy, Debug, PartialEq, Eq, Structural)]
pub struct HandleAcquisitionError {
    pub kind: HandleKind,
    pub raw: isize,
}

/// The one release call that the platform is owed for a handle given up without a new owner.
#[derive(Clone, Copy, Debug, PartialEq, Eq, Structural)]
pub struct ReleaseRequest {
    pub kind: HandleKind,
    pub raw: isize,
}

/// Exclusive ownership of one valid native handle.
///
/// The value is neither `Clone` nor `Copy`, and both ways out of an
/// ownership take it by value: a handle that was released once is no longer
/// there to be released again, or to be used. Dropping the value releases
/// nothing; call [`NativeHandle::into_release`] to give the handle up.
#[must_use]
#[derive(Debug)]
pub struct NativeHandle {
    kind: HandleKind,
    raw: isize,
}

impl View for NativeHandle {
    type V = (HandleKind, isize);

    closed spec fn view(&self) -> (HandleKind, isize) {
        (self.kind, self.raw)
    }
}

impl NativeHandle {
    #[verifier::type_invariant]
    spec fn names_a_resource(&self) -> bool {
        valid_raw(self.kind, self.raw)
    }

    /// Takes ownership of `raw`, or refuses it when it names no resource.
    pub fn acquire(kind: HandleKind, raw: isize) -> (r: Result<NativeHandle, HandleAcquisitionError>)
        ensures
            r is Ok <==> valid_raw(kind, raw),
            r matches Ok(handle) ==> handle@ == (kind, raw),
            r matches Err(e) ==> e == (HandleAcquisitionError { kind, raw }),
    {
        if is_valid_raw(kind, raw) {
            Ok(NativeHandle { kind, raw })
        } else {
            Err(HandleAcquisitionError { kind, raw })
        }
    }

    /// The kind of the resource owned.
    pub fn kind(&self) -> (kind: HandleKind)
        ensures
            kind == self@.0,
    {
        self.kind
    }

    /// The raw value, lent for a platform call; ownership stays here.
    pub fn raw(&self) -> (raw: isize)
        ensures
            raw == self@.1,
            valid_raw(self@.0, raw),
    {
        proof {
            use_type_invariant(self);
        }
        self.raw
    }

    /// Ends this ownership by handing the raw value to an external owner,
    /// which from now on answers for releasing it. No release is owed here.
    pub fn release_to_external(self) -> (raw: isize)
        ensures
            raw == self@.1,
            valid_raw(self@.0, raw),
    {
        proof {
            use_type_invariant(&self);
        }
        self.raw
    }

    /// Ends this ownership without a new owner: the result is the release
    /// call that must now be made, once. This is the only way in which a
    /// handle that stays here is released.
    pub fn into_release(self) -> (request: ReleaseRequest)
        ensures
            request == (ReleaseRequest { kind: self@.0, raw: self@.1 }),
            valid_raw(request.kind, request.raw),
    {
        proof {
            use_type_invariant(&self);
        }
        ReleaseRequest { kind: self.kind, raw: self.raw }
    }
}

} // verus!

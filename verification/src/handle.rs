//! Handle registry primitives.
//!
//! The host runtime cannot hold native references, so a native object is
//! exposed to it as an opaque nonzero integer handle. The registry owns the
//! boxed objects; a handle is an index into it, offset by one so that zero
//! always means "no object". Casting a handle back validates it against the
//! registry instead of trusting an encoded address, which removes the
//! unchecked-lifetime hazard while keeping the external handle shape.

use vstd::prelude::*;

use crate::error::BridgeError;

verus! {

/// The opaque integer a native object is addressed by on the host side.
/// Zero always means "no object".
pub type ObjectHandle = i64;

/// The owned registry of live native objects of one erased type.
pub struct Registry<T> {
    slots: Vec<T>,
}

impl<T> View for Registry<T> {
    type V = Seq<T>;

    closed spec fn view(&self) -> Seq<T> {
        self.slots@
    }
}

impl<T> Registry<T> {
    /// Whether `h` is a live handle: nonzero and naming a boxed object.
    pub open spec fn live(self, h: int) -> bool {
        1 <= h && h <= self@.len()
    }

    /// The object a live handle names.
    pub open spec fn at(self, h: int) -> T
        recommends
            self.live(h),
    {
        self@[h - 1]
    }

    /// An empty registry, with no handle live.
    pub fn new() -> (r: Self)
        ensures
            r@ == Seq::<T>::empty(),
    {
        Registry { slots: Vec::new() }
    }

    /// Boxes a native object and exposes its address as a fresh nonzero
    /// handle. Handles already handed out stay live and keep naming the
    /// same objects.
    pub fn box_object(&mut self, obj: T) -> (h: ObjectHandle)
        requires
            old(self)@.len() < i64::MAX,
        ensures
            h == old(self)@.len() + 1,
            h != 0,
            final(self)@ == old(self)@.push(obj),
            final(self).live(h as int),
            final(self).at(h as int) == obj,
            forall|g: int|
                old(self).live(g) ==> final(self).live(g) && final(self).at(g) == old(self).at(g),
    {
        self.slots.push(obj);
        self.slots.len() as i64
    }

    /// Reinterprets a handle as a reference to the boxed object. A zero
    /// handle fails with [`BridgeError::NullHandle`]; the caller asserts
    /// that a nonzero handle is still live.
    pub fn native_handle_cast<'a>(&'a self, handle: ObjectHandle) -> (r: Result<&'a T, BridgeError>)
        requires
            handle == 0 || self.live(handle as int),
        ensures
            handle == 0 ==> r == Err::<&'a T, BridgeError>(BridgeError::NullHandle),
            handle != 0 ==> (r matches Ok(t) && *t == self.at(handle as int)),
    {
        if handle == 0 {
            return Err(BridgeError::NullHandle);
        }
        let n: usize = self.slots.len();
        let idx: usize = (handle - 1) as usize;
        assert(idx < n);
        Ok(&self.slots[idx])
    }

    /// Like [`Registry::native_handle_cast`], but treats zero as a
    /// legitimate "absent" argument rather than a caller mistake.
    pub fn native_handle_cast_optional<'a>(
        &'a self,
        handle: ObjectHandle,
    ) -> (r: Result<Option<&'a T>, BridgeError>)
        requires
            handle == 0 || self.live(handle as int),
        ensures
            handle == 0 ==> r == Ok::<Option<&'a T>, BridgeError>(None),
            handle != 0 ==> (r matches Ok(Some(t)) && *t == self.at(handle as int)),
    {
        if handle == 0 {
            return Ok(None);
        }
        let n: usize = self.slots.len();
        let idx: usize = (handle - 1) as usize;
        assert(idx < n);
        Ok(Some(&self.slots[idx]))
    }
}

/// Law: a handle handed out by boxing is never the null handle, is live, and
/// names exactly the object boxed, so casting it yields that object.
pub proof fn lemma_box_then_cast<T>(before: Registry<T>, after: Registry<T>, obj: T, h: ObjectHandle)
    requires
        h == before@.len() + 1,
        after@ == before@.push(obj),
    ensures
        h != 0,
        after.live(h as int),
        after.at(h as int) == obj,
{
}

/// Law: boxing another object invalidates no earlier handle and changes no
/// object an earlier handle names.
pub proof fn lemma_box_preserves_handles<T>(
    before: Registry<T>,
    after: Registry<T>,
    obj: T,
    g: int,
)
    requires
        after@ == before@.push(obj),
        before.live(g),
    ensures
        after.live(g),
        after.at(g) == before.at(g),
{
}

} // verus!

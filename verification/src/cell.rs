//! The fixed-capacity cell that stores one value of an erased type.

use vstd::prelude::*;

use crate::inline::Inline;

verus! {

/// A cell of `N` inline bytes that owns one value of an erased type.
///
/// Construction records the identity token of the value's type next to the
/// value's byte encoding; no record of the type itself survives. Every later
/// access nominates a type `T` and is answered only when `T`'s token equals
/// the recorded one, so the stored bytes are never read back at a type other
/// than the one they were written at.
pub struct StackAny<const N: usize> {
    type_id: u64,
    bytes: Vec<u8>,
}

impl<const N: usize> StackAny<N> {
    /// The stored bytes never outgrow the capacity.
    #[verifier::type_invariant]
    spec fn wf(self) -> bool {
        self.bytes@.len() <= N
    }

    /// The identity token recorded at construction.
    pub closed spec fn spec_type_id(self) -> u64 {
        self.type_id
    }

    /// The bytes of the stored value.
    pub closed spec fn spec_bytes(self) -> Seq<u8> {
        self.bytes@
    }

    /// Store `value` inline, if its type fits the capacity.
    ///
    /// Succeeds exactly when the byte size of `T` is at most `N`; an
    /// oversized value is reported, not a fault. On success the cell records
    /// `T`'s identity token and holds exactly the encoding of `value`.
    pub fn try_new<T: Inline>(value: T) -> (r: Option<Self>)
        ensures
            (r is Some) <==> T::spec_size() <= N,
            r is Some ==> (r.unwrap().spec_type_id() == T::spec_token()
                && r.unwrap().spec_bytes() == T::spec_encode(value)),
    {
        let size = T::size();
        if N < size {
            return None;
        }
        proof {
            T::lemma_encode_size(value);
        }
        let bytes = value.encode();
        Some(StackAny { type_id: T::token(), bytes })
    }

    /// Store `value` inline in a cell whose capacity is known to suffice.
    ///
    /// The fail-fast companion of [`Self::try_new`]: the size gate is
    /// discharged once and for all at verification time instead of being
    /// re-checked at every call.
    pub fn new<T: Inline>(value: T) -> (r: Self)
        requires
            T::spec_size() <= N,
        ensures
            r.spec_type_id() == T::spec_token(),
            r.spec_bytes() == T::spec_encode(value),
    {
        proof {
            T::lemma_encode_size(value);
        }
        let bytes = value.encode();
        StackAny { type_id: T::token(), bytes }
    }

    /// Read the stored value back at type `T`.
    ///
    /// Answers `None` whenever `T`'s identity token differs from the recorded
    /// one — never a fault, never reinterpreted bytes. When the tokens agree,
    /// the answer is exactly the decoding of the stored bytes, and the cell
    /// is left as it was.
    pub fn downcast_ref<T: Inline>(&self) -> (r: Option<T>)
        ensures
            self.spec_type_id() == T::spec_token() ==> r == T::spec_decode(self.spec_bytes()),
            self.spec_type_id() != T::spec_token() ==> r is None,
    {
        if T::token() != self.type_id {
            return None;
        }
        T::decode(self.bytes.as_slice())
    }

    /// Overwrite the stored value in place with `value`, at type `T`.
    ///
    /// Succeeds exactly when `T`'s identity token equals the recorded one and
    /// the stored bytes have `T`'s size; the identity token and the stored
    /// size are unchanged by the overwrite. On a mismatch the cell is left
    /// exactly as it was and `value` is handed back.
    pub fn downcast_mut<T: Inline>(&mut self, value: T) -> (r: Result<(), T>)
        ensures
            (r is Ok) <==> (old(self).spec_type_id() == T::spec_token()
                && old(self).spec_bytes().len() == T::spec_size()),
            r is Ok ==> (final(self).spec_type_id() == old(self).spec_type_id()
                && final(self).spec_bytes() == T::spec_encode(value)),
            r is Err ==> (*final(self) == *old(self) && r == Result::<(), T>::Err(value)),
    {
        proof {
            use_type_invariant(&*self);
            T::lemma_encode_size(value);
        }
        if T::token() == self.type_id && self.bytes.len() == T::size() {
            self.bytes = value.encode();
            Ok(())
        } else {
            Err(value)
        }
    }

    /// Move the stored value out at type `T`, consuming the cell.
    ///
    /// The same identity gate as [`Self::downcast_ref`]; on a match the cell
    /// gives up ownership of the value, and on a mismatch no value comes out.
    /// Because the cell is consumed, ownership of the stored value rests with
    /// exactly one party afterward: the caller on a match, nobody otherwise.
    pub fn downcast<T: Inline>(self) -> (r: Option<T>)
        ensures
            self.spec_type_id() == T::spec_token() ==> r == T::spec_decode(self.spec_bytes()),
            self.spec_type_id() != T::spec_token() ==> r is None,
    {
        if T::token() != self.type_id {
            return None;
        }
        T::decode(self.bytes.as_slice())
    }

    /// Read the stored value back at a type known to be the stored one.
    ///
    /// The fail-fast companion of [`Self::downcast_ref`]: the identity gate
    /// is discharged at verification time, so the mismatch outcome does not
    /// arise and no `Option` is returned.
    pub fn read<T: Inline>(&self) -> (r: T)
        requires
            self.spec_type_id() == T::spec_token(),
            T::spec_decode(self.spec_bytes()) is Some,
        ensures
            Some(r) == T::spec_decode(self.spec_bytes()),
    {
        match self.downcast_ref::<T>() {
            Some(v) => v,
            None => vstd::pervasive::unreached(),
        }
    }

    /// Overwrite the stored value at a type known to be the stored one.
    ///
    /// The fail-fast companion of [`Self::downcast_mut`]: the identity gate
    /// is discharged at verification time, so `value` is always consumed and
    /// nothing is handed back.
    pub fn write<T: Inline>(&mut self, value: T)
        requires
            old(self).spec_type_id() == T::spec_token(),
            old(self).spec_bytes().len() == T::spec_size(),
        ensures
            final(self).spec_type_id() == old(self).spec_type_id(),
            final(self).spec_bytes() == T::spec_encode(value),
    {
        let r = self.downcast_mut::<T>(value);
        match r {
            Ok(()) => (),
            Err(_) => vstd::pervasive::unreached(),
        }
    }

    /// Move the stored value out at a type known to be the stored one.
    ///
    /// The fail-fast companion of [`Self::downcast`]: the identity gate is
    /// discharged at verification time, and the value always comes out.
    pub fn extract<T: Inline>(self) -> (r: T)
        requires
            self.spec_type_id() == T::spec_token(),
            T::spec_decode(self.spec_bytes()) is Some,
        ensures
            Some(r) == T::spec_decode(self.spec_bytes()),
    {
        match self.downcast::<T>() {
            Some(v) => v,
            None => vstd::pervasive::unreached(),
        }
    }

    /// The recorded identity token.
    pub fn type_id(&self) -> (t: u64)
        ensures
            t == self.spec_type_id(),
    {
        self.type_id
    }

    /// How many bytes the stored value occupies; never more than `N`.
    pub fn stored_len(&self) -> (n: usize)
        ensures
            n == self.spec_bytes().len(),
            n <= N,
    {
        proof {
            use_type_invariant(&*self);
        }
        self.bytes.len()
    }
}

} // verus!

//! The laws the cell keeps, stated over its public model.

use vstd::prelude::*;

use crate::cell::StackAny;
use crate::inline::Inline;

verus! {

/// Round trip: a value stored at its own type is read and extracted back
/// unchanged. Any cell that holds `v`'s encoding under `T`'s token — in
/// particular the one [`StackAny::try_new`] builds whenever `T` fits —
/// decodes to exactly `v`, so `downcast::<T>` returns `Some(v)`.
pub proof fn lemma_round_trip<const N: usize, T: Inline>(v: T, cell: StackAny<N>)
    requires
        cell.spec_type_id() == T::spec_token(),
        cell.spec_bytes() == T::spec_encode(v),
    ensures
        T::spec_decode(cell.spec_bytes()) == Some(v),
{
    T::lemma_decode_of_encode(v);
}

/// Identity soundness: two distinct types are told apart even when their
/// byte sizes agree. A cell holding a value of `T` never passes the identity
/// gate of a `U` with a different token, so `downcast_ref::<U>` answers
/// `None` however well `U`'s size matches the stored bytes.
pub proof fn lemma_identity_soundness<const N: usize, T: Inline, U: Inline>(v: T, cell: StackAny<N>)
    requires
        T::spec_token() != U::spec_token(),
        T::spec_size() == U::spec_size(),
        cell.spec_type_id() == T::spec_token(),
        cell.spec_bytes() == T::spec_encode(v),
    ensures
        cell.spec_type_id() != U::spec_token(),
        cell.spec_bytes().len() == U::spec_size(),
{
    T::lemma_encode_size(v);
}

} // verus!

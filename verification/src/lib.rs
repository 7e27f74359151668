//! Fixed-capacity, stack-resident type erasure.
//!
//! A [`StackAny`] cell owns a small inline byte buffer of compile-time
//! capacity `N` together with a runtime token that identifies the concrete
//! type of the value stored in it. Construction moves a value's byte
//! representation into the buffer; every later access nominates a type and is
//! gated by the identity token, so bytes are never reinterpreted at the wrong
//! type. The [`Inline`] trait says which types can be stored: each one names
//! its identity token, its byte size, and the codec between its values and
//! the raw bytes the cell holds.
//!
//! Storable types are plain data: a value and its stored bytes determine one
//! another, so moving a value into a cell and back out is a byte codec, not a
//! reinterpretation, and the cell owes the value no cleanup of its own. The
//! cell owns the one copy of the stored bytes; consuming extraction is the
//! single way ownership of the value leaves it.

mod cell;
mod inline;
mod laws;

pub use cell::StackAny;
pub use inline::Inline;
pub use laws::lemma_identity_soundness;
pub use laws::lemma_round_trip;

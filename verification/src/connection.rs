//! The connection capability: the contract every assembled stack, and every
//! terminal transport at the bottom of a stack, presents to its caller.

use vstd::prelude::*;
use crate::gen_utils::ConnecteerGenerator;
use crate::middleware::PublicUncallable;

verus! {

/// A connection over a `Payload` type: sending a payload and receiving a
/// wire unit each return a one-shot producer of result items.
///
/// All the identity of a connection lives in its associated types and in the
/// two producer-returning operations. The producers are driven with a
/// `(connection, context)` pair, one resumption at a time; their whole
/// behaviour is pinned down by the per-implementation transition functions
/// [`ConnecteerGenerator::step`] together with [`Connection::send_spec`] and
/// [`Connection::receive_spec`], which name the exact producers `send` and
/// `receive` return.
///
/// The two operations demand a [`PublicUncallable`] witness, so only the
/// orchestration core (and the [`crate::Pipeline`] it drives) can start them.
pub trait Connection<Payload>: Sized {
    /// The terminal wire-unit type at the bottom of the stack.
    type Wrapped;

    /// The mutable per-connection state threaded through every operation.
    type Ctx;

    /// The error item type a send producer can yield.
    type SendError;

    /// The error item type a receive producer can yield.
    type ReceiveError;

    /// The error vocabulary of the layer below this one, if any.
    type NextError;

    /// The producer returned by [`Connection::send`].
    type SendGen: ConnecteerGenerator<Self, Self::Ctx, Yield = Result<Self::Wrapped, Self::SendError>>;

    /// The producer returned by [`Connection::receive`].
    type ReceiveGen: ConnecteerGenerator<Self, Self::Ctx, Yield = Result<Payload, Self::ReceiveError>>;

    /// The exact producer that sending `input` starts.
    spec fn send_spec(input: Payload) -> Self::SendGen;

    /// The exact producer that receiving `output` starts.
    spec fn receive_spec(output: Self::Wrapped) -> Self::ReceiveGen;

    /// Start sending a payload down the stack: the returned producer yields
    /// the resulting wire units, or send errors, in order.
    fn send<Uncallable: PublicUncallable>(input: Payload) -> (g: Self::SendGen)
        ensures
            g == Self::send_spec(input),
    ;

    /// Start receiving a wire unit back up the stack: the returned producer
    /// yields the recovered payloads, or receive errors, in order.
    fn receive<Uncallable: PublicUncallable>(output: Self::Wrapped) -> (g: Self::ReceiveGen)
        ensures
            g == Self::receive_spec(output),
    ;
}

} // verus!

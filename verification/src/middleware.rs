//! The middleware capability: one transform layer of a protocol stack.

use vstd::prelude::*;
use crate::connection::Connection;
use crate::gen_utils::ConnecteerGenerator;
use crate::stack::StackCtx;

verus! {

/// A bound that outside code can name but never satisfy: the only type that
/// implements it is this crate's sealed capability token. A method generic
/// over `Uncallable: PublicUncallable` can therefore be implemented by an
/// embedder's layer, but called only by the orchestration core.
pub trait PublicUncallable: crate::sealed::PublicUncallableSealed {}

impl PublicUncallable for crate::sealed::PublicUncallable {}

/// The context a middleware layer works on: its own slice paired with the
/// whole context of the layers below it.
pub type LayerCtx<M> = StackCtx<
    <M as Middleware>::Ctx,
    <<M as Middleware>::Next as Connection<<M as Middleware>::Message>>::Ctx,
>;

/// One transform layer: wraps payloads into messages on the way down and
/// unwraps messages back into payloads on the way up, delegating the rest of
/// the work to a nested `Next` connection over its message type.
///
/// Everything but the associated types is privileged: `wrap`, `unwrap`,
/// `create_wrap_error` and `create_unwrap_error` carry a
/// [`PublicUncallable`] bound, so an embedder implements them but only the
/// composition core (see [`crate::stack::Stack`]) calls them. This keeps a
/// layer's connection behaviour in lockstep with its middleware definition.
pub trait Middleware: Sized {
    /// The application-level unit entering and leaving the top of this layer.
    type Payload;

    /// What this layer produces when wrapping and consumes when unwrapping;
    /// equal to the payload type of the `Next` layer.
    type Message;

    /// The errors this layer's own wrap step can yield.
    type WrapError;

    /// The errors this layer's own unwrap step can yield.
    type UnwrapError;

    /// This layer's own slice of the per-connection context.
    type Ctx;

    /// The nested connection this layer delegates to.
    type Next: Connection<Self::Message>;

    /// The producer returned by [`Middleware::wrap`]. It is driven with this
    /// layer and the full context from this layer down, so a layer may read
    /// and mutate every part of the context it owns a projection of.
    type WrapGen: ConnecteerGenerator<Self, LayerCtx<Self>, Yield = Result<Self::Message, Self::WrapError>>;

    /// The producer returned by [`Middleware::unwrap`].
    type UnwrapGen: ConnecteerGenerator<Self, LayerCtx<Self>, Yield = Result<Self::Payload, Self::UnwrapError>>;

    /// The exact producer that wrapping `input` starts.
    spec fn wrap_spec(input: Self::Payload) -> Self::WrapGen;

    /// The exact producer that unwrapping `message` starts.
    spec fn unwrap_spec(message: Self::Message) -> Self::UnwrapGen;

    /// The exact error, and the layer state after producing it, that
    /// translating a send error of the `Next` layer gives.
    spec fn wrap_error_spec(
        self,
        err: <Self::Next as Connection<Self::Message>>::SendError,
    ) -> (Self::WrapError, Self);

    /// The exact error, and the layer state after producing it, that
    /// translating a receive error of the `Next` layer gives.
    spec fn unwrap_error_spec(
        self,
        err: <Self::Next as Connection<Self::Message>>::ReceiveError,
    ) -> (Self::UnwrapError, Self);

    /// Start wrapping a payload: the returned producer yields zero or more
    /// messages, or wrap errors, in order.
    fn wrap<Uncallable: PublicUncallable>(input: Self::Payload) -> (g: Self::WrapGen)
        ensures
            g == Self::wrap_spec(input),
    ;

    /// Start unwrapping a message: the returned producer yields zero or more
    /// payloads, or unwrap errors, in order.
    fn unwrap<Uncallable: PublicUncallable>(message: Self::Message) -> (g: Self::UnwrapGen)
        ensures
            g == Self::unwrap_spec(message),
    ;

    /// Translate a send error surfaced by the `Next` layer into this layer's
    /// own wrap-error vocabulary. Total; may update the layer's state.
    fn create_wrap_error<Uncallable: PublicUncallable>(
        &mut self,
        err: <Self::Next as Connection<Self::Message>>::SendError,
    ) -> (e: Self::WrapError)
        ensures
            ({
                let (e2, m2) = old(self).wrap_error_spec(err);
                e == e2 && *final(self) == m2
            }),
    ;

    /// Translate a receive error surfaced by the `Next` layer into this
    /// layer's own unwrap-error vocabulary. Total; may update the layer's
    /// state.
    fn create_unwrap_error<Uncallable: PublicUncallable>(
        &mut self,
        err: <Self::Next as Connection<Self::Message>>::ReceiveError,
    ) -> (e: Self::UnwrapError)
        ensures
            ({
                let (e2, m2) = old(self).unwrap_error_spec(err);
                e == e2 && *final(self) == m2
            }),
    ;
}

} // verus!

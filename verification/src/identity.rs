//! The identity terminal connection: a loopback transport that closes the
//! bottom of a stack without transforming anything.

use vstd::prelude::*;
use crate::connection::Connection;
use crate::gen_utils::ConnecteerGenerator;
use crate::gen_utils::Step;
use crate::middleware::PublicUncallable;

verus! {

/// A terminal connection over any payload type: sending a payload yields
/// exactly one wire unit holding that payload, receiving a wire unit yields
/// exactly one payload holding it back, and neither ever fails.
pub struct Base {}

/// The context of a [`Base`] connection; it carries no state.
pub struct BaseCtx {}

/// The error type of a [`Base`] connection. The transition function of
/// [`BaseGen`] shows that a `Base` producer never yields an error item.
#[derive(Debug, PartialEq, Eq, Clone)]
pub struct BaseError {}

/// The producer of a single pending item; both operations of [`Base`] use it.
pub enum BaseGen<T> {
    /// The item is still to be yielded.
    Ready(T),
    /// The item is out; the next resumption completes.
    Spent,
}

impl<T> ConnecteerGenerator<Base, BaseCtx> for BaseGen<T> {
    type Yield = Result<T, BaseError>;

    /// Yield the one item, then complete; the connection and the context
    /// are never touched.
    open spec fn step(self, conn: Base, ctx: BaseCtx) -> (Step<Self::Yield>, Self, Base, BaseCtx) {
        match self {
            BaseGen::Ready(v) => (Step::Yielded(Ok(v)), BaseGen::Spent, conn, ctx),
            BaseGen::Spent => (Step::Done, BaseGen::Spent, conn, ctx),
        }
    }

    fn resume(self, _conn: &mut Base, _ctx: &mut BaseCtx) -> (r: (Step<Self::Yield>, Self)) {
        match self {
            BaseGen::Ready(v) => (Step::Yielded(Ok(v)), BaseGen::Spent),
            BaseGen::Spent => (Step::Done, BaseGen::Spent),
        }
    }
}

impl<Payload> Connection<Payload> for Base {
    type Wrapped = Payload;

    type Ctx = BaseCtx;

    type SendError = BaseError;

    type ReceiveError = BaseError;

    type NextError = BaseError;

    type SendGen = BaseGen<Payload>;

    type ReceiveGen = BaseGen<Payload>;

    open spec fn send_spec(input: Payload) -> Self::SendGen {
        BaseGen::Ready(input)
    }

    open spec fn receive_spec(output: Payload) -> Self::ReceiveGen {
        BaseGen::Ready(output)
    }

    fn send<Uncallable: PublicUncallable>(input: Payload) -> (g: Self::SendGen) {
        BaseGen::Ready(input)
    }

    fn receive<Uncallable: PublicUncallable>(output: Payload) -> (g: Self::ReceiveGen) {
        BaseGen::Ready(output)
    }
}

} // verus!

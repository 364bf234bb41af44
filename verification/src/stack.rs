//! The composition rule: any middleware layer, paired with its nested
//! connection, behaves as a connection over the layer's payload type.

use vstd::prelude::*;
use crate::connection::Connection;
use crate::gen_utils::ConnecteerGenerator;
use crate::gen_utils::Step;
use crate::middleware::LayerCtx;
use crate::middleware::Middleware;
use crate::middleware::PublicUncallable;

verus! {

/// One layer of an assembled stack: a middleware together with the nested
/// connection it delegates to. `Stack<M, M::Next>` is itself a connection
/// over `M::Payload`, so stacks of any depth telescope by nesting.
pub struct Stack<M, N> {
    /// The transform layer.
    pub layer: M,
    /// The connection below it: a terminal transport, or a deeper stack.
    pub next: N,
}

/// The context of one stack layer: the layer's own slice paired with the
/// whole context of the layers below it. A layer's producers are driven with
/// the full `StackCtx` from that layer down, while the layers below receive
/// only the `next` projection — never a second independent handle.
pub struct StackCtx<Own, Rest> {
    /// This layer's own slice of the context.
    pub own: Own,
    /// The whole context of the layers below.
    pub next: Rest,
}

/// The send producer of a composed stack layer, fusing the layer's wrap
/// producer with one nested send producer at a time.
pub enum StackSendGen<WG, NG> {
    /// Resuming the layer's own wrap producer.
    Wrapping(WG),
    /// Driving the nested send producer started for the last wrapped message;
    /// the wrap producer is parked until it completes.
    Nested(WG, NG),
    /// The wrap producer has completed; no further items.
    Finished,
}

/// The receive producer of a composed stack layer, fusing the nested receive
/// producer with one unwrap producer at a time.
pub enum StackReceiveGen<RG, UG> {
    /// Driving the nested receive producer.
    Reading(RG),
    /// Driving the unwrap producer started for the last message the nested
    /// receive producer yielded; the nested producer is parked meanwhile.
    Unwrapping(RG, UG),
    /// The nested receive producer has completed; no further items.
    Finished,
}

impl<M: Middleware> Connection<M::Payload> for Stack<M, M::Next> {
    type Wrapped = <M::Next as Connection<M::Message>>::Wrapped;

    type Ctx = StackCtx<M::Ctx, <M::Next as Connection<M::Message>>::Ctx>;

    type SendError = M::WrapError;

    type ReceiveError = M::UnwrapError;

    type NextError = <M::Next as Connection<M::Message>>::ReceiveError;

    type SendGen = StackSendGen<M::WrapGen, <M::Next as Connection<M::Message>>::SendGen>;

    type ReceiveGen = StackReceiveGen<
        <M::Next as Connection<M::Message>>::ReceiveGen,
        M::UnwrapGen,
    >;

    open spec fn send_spec(input: M::Payload) -> Self::SendGen {
        StackSendGen::Wrapping(M::wrap_spec(input))
    }

    open spec fn receive_spec(output: Self::Wrapped) -> Self::ReceiveGen {
        StackReceiveGen::Reading(<M::Next as Connection<M::Message>>::receive_spec(output))
    }

    fn send<Uncallable: PublicUncallable>(input: M::Payload) -> (g: Self::SendGen) {
        StackSendGen::Wrapping(M::wrap::<Uncallable>(input))
    }

    fn receive<Uncallable: PublicUncallable>(output: Self::Wrapped) -> (g: Self::ReceiveGen) {
        StackReceiveGen::Reading(<M::Next as Connection<M::Message>>::receive::<Uncallable>(output))
    }
}

impl<M: Middleware> ConnecteerGenerator<Stack<M, M::Next>, LayerCtx<M>> for StackSendGen<
    M::WrapGen,
    <M::Next as Connection<M::Message>>::SendGen,
> {
    type Yield = Result<<M::Next as Connection<M::Message>>::Wrapped, M::WrapError>;

    /// One resumption of the composed send, exactly as the composition rule
    /// fixes it: wrap items of `Ok(message)` fan out into a nested send whose
    /// wire units pass through unchanged and whose errors are translated by
    /// this layer; the layer's own wrap errors pass through untranslated;
    /// completion of the wrap producer completes the whole operation.
    open spec fn step(self, conn: Stack<M, M::Next>, ctx: LayerCtx<M>) -> (
        Step<Self::Yield>,
        Self,
        Stack<M, M::Next>,
        LayerCtx<M>,
    ) {
        match self {
            StackSendGen::Wrapping(wg) => {
                let (item, wg2, layer2, ctx2) = wg.step(conn.layer, ctx);
                let conn2 = (Stack { layer: layer2, next: conn.next });
                match item {
                    Step::Yielded(out) => match out {
                        Ok(msg) => (
                            Step::Pending,
                            StackSendGen::Nested(
                                wg2,
                                <M::Next as Connection<M::Message>>::send_spec(msg),
                            ),
                            conn2,
                            ctx2,
                        ),
                        Err(e) => (Step::Yielded(Err(e)), StackSendGen::Wrapping(wg2), conn2, ctx2),
                    },
                    Step::Pending => (Step::Pending, StackSendGen::Wrapping(wg2), conn2, ctx2),
                    Step::Done => (Step::Done, StackSendGen::Finished, conn2, ctx2),
                }
            },
            StackSendGen::Nested(wg, ng) => {
                let (item, ng2, next2, nctx2) = ng.step(conn.next, ctx.next);
                let conn2 = (Stack { layer: conn.layer, next: next2 });
                let ctx2 = (StackCtx { own: ctx.own, next: nctx2 });
                match item {
                    Step::Yielded(out) => match out {
                        Ok(unit) => (
                            Step::Yielded(Ok(unit)),
                            StackSendGen::Nested(wg, ng2),
                            conn2,
                            ctx2,
                        ),
                        Err(e) => {
                            let (we, layer2) = conn.layer.wrap_error_spec(e);
                            (
                                Step::Yielded(Err(we)),
                                StackSendGen::Nested(wg, ng2),
                                (Stack { layer: layer2, next: next2 }),
                                ctx2,
                            )
                        },
                    },
                    Step::Pending => (Step::Pending, StackSendGen::Nested(wg, ng2), conn2, ctx2),
                    Step::Done => (Step::Pending, StackSendGen::Wrapping(wg), conn2, ctx2),
                }
            },
            StackSendGen::Finished => (Step::Done, StackSendGen::Finished, conn, ctx),
        }
    }

    fn resume(self, conn: &mut Stack<M, M::Next>, ctx: &mut LayerCtx<M>) -> (r: (
        Step<Self::Yield>,
        Self,
    )) {
        match self {
            StackSendGen::Wrapping(wg) => {
                let (item, wg2) = wg.resume(&mut conn.layer, ctx);
                match item {
                    Step::Yielded(out) => match out {
                        Ok(msg) => {
                            let ng = <M::Next as Connection<M::Message>>::send::<
                                crate::sealed::PublicUncallable,
                            >(msg);
                            (Step::Pending, StackSendGen::Nested(wg2, ng))
                        },
                        Err(e) => (Step::Yielded(Err(e)), StackSendGen::Wrapping(wg2)),
                    },
                    Step::Pending => (Step::Pending, StackSendGen::Wrapping(wg2)),
                    Step::Done => (Step::Done, StackSendGen::Finished),
                }
            },
            StackSendGen::Nested(wg, ng) => {
                let (item, ng2) = ng.resume(&mut conn.next, &mut ctx.next);
                match item {
                    Step::Yielded(out) => match out {
                        Ok(unit) => (Step::Yielded(Ok(unit)), StackSendGen::Nested(wg, ng2)),
                        Err(e) => {
                            let we = conn.layer.create_wrap_error::<
                                crate::sealed::PublicUncallable,
                            >(e);
                            (Step::Yielded(Err(we)), StackSendGen::Nested(wg, ng2))
                        },
                    },
                    Step::Pending => (Step::Pending, StackSendGen::Nested(wg, ng2)),
                    Step::Done => (Step::Pending, StackSendGen::Wrapping(wg)),
                }
            },
            StackSendGen::Finished => (Step::Done, StackSendGen::Finished),
        }
    }
}

impl<M: Middleware> ConnecteerGenerator<Stack<M, M::Next>, LayerCtx<M>> for StackReceiveGen<
    <M::Next as Connection<M::Message>>::ReceiveGen,
    M::UnwrapGen,
> {
    type Yield = Result<M::Payload, M::UnwrapError>;

    /// One resumption of the composed receive, the mirror of the send rule:
    /// each message the nested receive yields starts an unwrap whose items
    /// pass through unchanged, errors included; errors of the nested receive
    /// are translated by this layer; completion propagates from the nested
    /// receive producer's completion.
    open spec fn step(self, conn: Stack<M, M::Next>, ctx: LayerCtx<M>) -> (
        Step<Self::Yield>,
        Self,
        Stack<M, M::Next>,
        LayerCtx<M>,
    ) {
        match self {
            StackReceiveGen::Reading(rg) => {
                let (item, rg2, next2, nctx2) = rg.step(conn.next, ctx.next);
                let conn2 = (Stack { layer: conn.layer, next: next2 });
                let ctx2 = (StackCtx { own: ctx.own, next: nctx2 });
                match item {
                    Step::Yielded(out) => match out {
                        Ok(msg) => (
                            Step::Pending,
                            StackReceiveGen::Unwrapping(rg2, M::unwrap_spec(msg)),
                            conn2,
                            ctx2,
                        ),
                        Err(e) => {
                            let (ue, layer2) = conn.layer.unwrap_error_spec(e);
                            (
                                Step::Yielded(Err(ue)),
                                StackReceiveGen::Reading(rg2),
                                (Stack { layer: layer2, next: next2 }),
                                ctx2,
                            )
                        },
                    },
                    Step::Pending => (Step::Pending, StackReceiveGen::Reading(rg2), conn2, ctx2),
                    Step::Done => (Step::Done, StackReceiveGen::Finished, conn2, ctx2),
                }
            },
            StackReceiveGen::Unwrapping(rg, ug) => {
                let (item, ug2, layer2, ctx2) = ug.step(conn.layer, ctx);
                let conn2 = (Stack { layer: layer2, next: conn.next });
                match item {
                    Step::Yielded(out) => (
                        Step::Yielded(out),
                        StackReceiveGen::Unwrapping(rg, ug2),
                        conn2,
                        ctx2,
                    ),
                    Step::Pending => (
                        Step::Pending,
                        StackReceiveGen::Unwrapping(rg, ug2),
                        conn2,
                        ctx2,
                    ),
                    Step::Done => (Step::Pending, StackReceiveGen::Reading(rg), conn2, ctx2),
                }
            },
            StackReceiveGen::Finished => (Step::Done, StackReceiveGen::Finished, conn, ctx),
        }
    }

    fn resume(self, conn: &mut Stack<M, M::Next>, ctx: &mut LayerCtx<M>) -> (r: (
        Step<Self::Yield>,
        Self,
    )) {
        match self {
            StackReceiveGen::Reading(rg) => {
                let (item, rg2) = rg.resume(&mut conn.next, &mut ctx.next);
                match item {
                    Step::Yielded(out) => match out {
                        Ok(msg) => {
                            let ug = M::unwrap::<crate::sealed::PublicUncallable>(msg);
                            (Step::Pending, StackReceiveGen::Unwrapping(rg2, ug))
                        },
                        Err(e) => {
                            let ue = conn.layer.create_unwrap_error::<
                                crate::sealed::PublicUncallable,
                            >(e);
                            (Step::Yielded(Err(ue)), StackReceiveGen::Reading(rg2))
                        },
                    },
                    Step::Pending => (Step::Pending, StackReceiveGen::Reading(rg2)),
                    Step::Done => (Step::Done, StackReceiveGen::Finished),
                }
            },
            StackReceiveGen::Unwrapping(rg, ug) => {
                let (item, ug2) = ug.resume(&mut conn.layer, ctx);
                match item {
                    Step::Yielded(out) => (
                        Step::Yielded(out),
                        StackReceiveGen::Unwrapping(rg, ug2),
                    ),
                    Step::Pending => (Step::Pending, StackReceiveGen::Unwrapping(rg, ug2)),
                    Step::Done => (Step::Pending, StackReceiveGen::Reading(rg)),
                }
            },
            StackReceiveGen::Finished => (Step::Done, StackReceiveGen::Finished),
        }
    }
}

} // verus!

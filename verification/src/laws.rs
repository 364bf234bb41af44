//! Laws of the composition rule, proved once and for all over any middleware
//! and any nested connection.

use vstd::prelude::*;
use crate::connection::Connection;
use crate::gen_utils::ConnecteerGenerator;
use crate::gen_utils::Step;
use crate::gen_utils::run_completes;
use crate::gen_utils::run_items;
use crate::gen_utils::run_state;
use crate::identity::Base;
use crate::identity::BaseCtx;
use crate::identity::BaseError;
use crate::identity::BaseGen;
use crate::middleware::LayerCtx;
use crate::middleware::Middleware;
use crate::stack::Stack;
use crate::stack::StackCtx;
use crate::stack::StackSendGen;

verus! {

/// The send producer type of a composed stack layer.
pub type StackSendGenOf<M> = StackSendGen<
    <M as Middleware>::WrapGen,
    <<M as Middleware>::Next as Connection<<M as Middleware>::Message>>::SendGen,
>;

/// The receive producer type of a composed stack layer.
pub type StackReceiveGenOf<M> = crate::stack::StackReceiveGen<
    <<M as Middleware>::Next as Connection<<M as Middleware>::Message>>::ReceiveGen,
    <M as Middleware>::UnwrapGen,
>;

/// Law of the single-layer stack: a pipeline over a bare terminal
/// connection yields exactly that connection's own item sequence,
/// unmodified — shown here for the [`Base`] loopback terminal, whose send
/// and receive of `input` each yield exactly `Ok(input)` once and complete.
/// For any terminal connection, [`crate::Pipeline::drain_send`] and
/// [`crate::Pipeline::drain_receive`] already promise the connection's own
/// run verbatim.
pub proof fn lemma_single_layer_base<Payload>(
    input: Payload,
    conn: Base,
    ctx: BaseCtx,
    fuel: nat,
)
    requires
        fuel >= 2,
    ensures
        run_items(<Base as Connection<Payload>>::send_spec(input), conn, ctx, fuel) == seq![
            Ok::<Payload, BaseError>(input),
        ],
        run_items(<Base as Connection<Payload>>::receive_spec(input), conn, ctx, fuel) == seq![
            Ok::<Payload, BaseError>(input),
        ],
{
    assert(run_items(BaseGen::Ready(input), conn, ctx, fuel) =~= seq![
        Ok::<Payload, BaseError>(input),
    ] + run_items(BaseGen::Spent::<Payload>, conn, ctx, (fuel - 1) as nat));
    assert(run_items(BaseGen::Spent::<Payload>, conn, ctx, (fuel - 1) as nat) =~= Seq::empty());
    assert(run_items(BaseGen::Ready(input), conn, ctx, fuel) =~= seq![
        Ok::<Payload, BaseError>(input),
    ]);
}

/// Law: an exhausted composed send producer yields nothing, however often it
/// is resumed, and leaves the connection and the context untouched. In
/// particular, driving past completion can never replay an item.
pub proof fn lemma_send_finished_yields_nothing<M: Middleware>(
    conn: Stack<M, M::Next>,
    ctx: LayerCtx<M>,
    fuel: nat,
)
    ensures
        run_items(StackSendGenOf::<M>::Finished, conn, ctx, fuel) == Seq::<
            Result<<M::Next as Connection<M::Message>>::Wrapped, M::WrapError>,
        >::empty(),
{
}

/// Law: an exhausted composed receive producer likewise yields nothing,
/// however often it is resumed.
pub proof fn lemma_receive_finished_yields_nothing<M: Middleware>(
    conn: Stack<M, M::Next>,
    ctx: LayerCtx<M>,
    fuel: nat,
)
    ensures
        run_items(StackReceiveGenOf::<M>::Finished, conn, ctx, fuel) == Seq::<
            Result<M::Payload, M::UnwrapError>,
        >::empty(),
{
}

/// Law of context projection: a layer's own wrap or unwrap producer is
/// driven with the whole context from that layer down — so a mutation it
/// makes anywhere in it, the slices of deeper layers included, is in place
/// before the next resumption — while a nested producer is driven with
/// exactly the `next` projection of the current context and can never touch
/// this layer's own slice. There is one context, threaded by projection;
/// never a second independent handle.
pub proof fn lemma_context_projection<M: Middleware>(
    wg: M::WrapGen,
    ng: <M::Next as Connection<M::Message>>::SendGen,
    rg: <M::Next as Connection<M::Message>>::ReceiveGen,
    ug: M::UnwrapGen,
    conn: Stack<M, M::Next>,
    ctx: LayerCtx<M>,
)
    ensures
        StackSendGenOf::<M>::Wrapping(wg).step(conn, ctx).3 == wg.step(conn.layer, ctx).3,
        StackSendGenOf::<M>::Nested(wg, ng).step(conn, ctx).3.next == ng.step(
            conn.next,
            ctx.next,
        ).3,
        StackSendGenOf::<M>::Nested(wg, ng).step(conn, ctx).3.own == ctx.own,
        StackReceiveGenOf::<M>::Unwrapping(rg, ug).step(conn, ctx).3 == ug.step(
            conn.layer,
            ctx,
        ).3,
        StackReceiveGenOf::<M>::Reading(rg).step(conn, ctx).3.next == rg.step(
            conn.next,
            ctx.next,
        ).3,
        StackReceiveGenOf::<M>::Reading(rg).step(conn, ctx).3.own == ctx.own,
{
}

/// The result items a nested send producer yields.
pub type NextSendItem<M> = Result<
    <<M as Middleware>::Next as Connection<<M as Middleware>::Message>>::Wrapped,
    <<M as Middleware>::Next as Connection<<M as Middleware>::Message>>::SendError,
>;

/// The result items a composed send producer yields.
pub type StackSendItem<M> = Result<
    <<M as Middleware>::Next as Connection<<M as Middleware>::Message>>::Wrapped,
    <M as Middleware>::WrapError,
>;

/// The item sequence of a nested send as the layer above surfaces it: wire
/// units pass through unchanged, and each error is translated by the layer's
/// wrap-error translation in yield order, threading the layer state through
/// every translation. Returns the surfaced items and the final layer state.
pub open spec fn translate_send_errors<M: Middleware>(
    items: Seq<NextSendItem<M>>,
    layer: M,
) -> (Seq<StackSendItem<M>>, M)
    decreases items.len(),
{
    if items.len() == 0 {
        (Seq::empty(), layer)
    } else {
        match items[0] {
            Ok(w) => {
                let (rest, layer2) = translate_send_errors::<M>(items.skip(1), layer);
                (seq![Ok::<<M::Next as Connection<M::Message>>::Wrapped, M::WrapError>(w)] + rest, layer2)
            },
            Err(e) => {
                let pair = layer.wrap_error_spec(e);
                let (rest, layer2) = translate_send_errors::<M>(items.skip(1), pair.1);
                (seq![Err::<<M::Next as Connection<M::Message>>::Wrapped, M::WrapError>(pair.0)] + rest, layer2)
            },
        }
    }
}

/// The general interleaving law for one nested segment of a composed send:
/// while a nested send producer runs — from the moment the layer's wrap
/// yielded a message until the nested producer completes, after exactly `k`
/// resumptions — the composed producer yields exactly the nested producer's
/// own item sequence with its errors translated by this layer, and then
/// carries on with the parked wrap producer, from the states the segment
/// left behind. Together with the transition contracts of the wrapping
/// phase, this pins the whole composed run to the depth-first interleaving
/// of the composition rule, at any stack depth.
pub proof fn lemma_nested_send_segment<M: Middleware>(
    wg: M::WrapGen,
    ng: <M::Next as Connection<M::Message>>::SendGen,
    conn: Stack<M, M::Next>,
    ctx: LayerCtx<M>,
    k: nat,
    fuel: nat,
)
    requires
        run_completes(ng, conn.next, ctx.next, k),
        !run_completes(ng, conn.next, ctx.next, (k - 1) as nat),
        fuel >= k,
    ensures
        ({
            let (items, layer2) = translate_send_errors::<M>(
                run_items(ng, conn.next, ctx.next, k),
                conn.layer,
            );
            let (ng2, next2, nctx2) = run_state(ng, conn.next, ctx.next, k);
            run_items(StackSendGenOf::<M>::Nested(wg, ng), conn, ctx, fuel) == items + run_items(
                StackSendGenOf::<M>::Wrapping(wg),
                (Stack { layer: layer2, next: next2 }),
                (StackCtx { own: ctx.own, next: nctx2 }),
                (fuel - k) as nat,
            )
        }),
    decreases k,
{
    let (item, ng2, n2, nx2) = ng.step(conn.next, ctx.next);
    let g = StackSendGenOf::<M>::Nested(wg, ng);
    match item {
        Step::Done => {
            assert(k == 1) by {
                if k != 1 {
                    assert(run_completes(ng, conn.next, ctx.next, (k - 1) as nat));
                }
            }
            let conn2 = (Stack { layer: conn.layer, next: n2 });
            let ctx2 = (StackCtx { own: ctx.own, next: nx2 });
            assert(run_items(ng, conn.next, ctx.next, k) =~= Seq::empty());
            assert(run_items(g, conn, ctx, fuel) =~= run_items(
                StackSendGenOf::<M>::Wrapping(wg),
                conn2,
                ctx2,
                (fuel - 1) as nat,
            ));
            assert(Seq::empty() + run_items(
                StackSendGenOf::<M>::Wrapping(wg),
                conn2,
                ctx2,
                (fuel - 1) as nat,
            ) =~= run_items(StackSendGenOf::<M>::Wrapping(wg), conn2, ctx2, (fuel - 1) as nat));
        },
        Step::Pending => {
            assert(k != 1) by {
                if k == 1 {
                    assert(!run_completes(ng2, n2, nx2, 0));
                }
            }
            let conn2 = (Stack { layer: conn.layer, next: n2 });
            let ctx2 = (StackCtx { own: ctx.own, next: nx2 });
            assert(run_completes(ng2, n2, nx2, (k - 1) as nat));
            assert(!run_completes(ng2, n2, nx2, (k - 2) as nat));
            lemma_nested_send_segment::<M>(wg, ng2, conn2, ctx2, (k - 1) as nat, (fuel - 1) as nat);
            assert(run_items(ng, conn.next, ctx.next, k) == run_items(ng2, n2, nx2, (k - 1) as nat));
            assert(run_state(ng, conn.next, ctx.next, k) == run_state(ng2, n2, nx2, (k - 1) as nat));
            assert(run_items(g, conn, ctx, fuel) == run_items(
                StackSendGenOf::<M>::Nested(wg, ng2),
                conn2,
                ctx2,
                (fuel - 1) as nat,
            ));
        },
        Step::Yielded(out) => {
            assert(k != 1) by {
                if k == 1 {
                    assert(!run_completes(ng2, n2, nx2, 0));
                }
            }
            assert(run_completes(ng2, n2, nx2, (k - 1) as nat));
            assert(!run_completes(ng2, n2, nx2, (k - 2) as nat));
            let tail = run_items(ng2, n2, nx2, (k - 1) as nat);
            assert(run_items(ng, conn.next, ctx.next, k) == seq![out] + tail);
            assert((seq![out] + tail)[0] == out);
            assert((seq![out] + tail).skip(1) =~= tail);
            assert(run_state(ng, conn.next, ctx.next, k) == run_state(ng2, n2, nx2, (k - 1) as nat));
            match out {
                Ok(w) => {
                    let conn2 = (Stack { layer: conn.layer, next: n2 });
                    let ctx2 = (StackCtx { own: ctx.own, next: nx2 });
                    lemma_nested_send_segment::<M>(
                        wg,
                        ng2,
                        conn2,
                        ctx2,
                        (k - 1) as nat,
                        (fuel - 1) as nat,
                    );
                    let (rest, layer2) = translate_send_errors::<M>(tail, conn.layer);
                    let (ng3, next3, nctx3) = run_state(ng2, n2, nx2, (k - 1) as nat);
                    let wrapping_run = run_items(
                        StackSendGenOf::<M>::Wrapping(wg),
                        (Stack { layer: layer2, next: next3 }),
                        (StackCtx { own: ctx.own, next: nctx3 }),
                        (fuel - k) as nat,
                    );
                    assert(run_items(g, conn, ctx, fuel) == seq![
                        Ok::<<M::Next as Connection<M::Message>>::Wrapped, M::WrapError>(w),
                    ] + (rest + wrapping_run));
                    assert(seq![
                        Ok::<<M::Next as Connection<M::Message>>::Wrapped, M::WrapError>(w),
                    ] + (rest + wrapping_run) =~= (seq![
                        Ok::<<M::Next as Connection<M::Message>>::Wrapped, M::WrapError>(w),
                    ] + rest) + wrapping_run);
                },
                Err(e) => {
                    let pair = conn.layer.wrap_error_spec(e);
                    let conn2 = (Stack { layer: pair.1, next: n2 });
                    let ctx2 = (StackCtx { own: ctx.own, next: nx2 });
                    lemma_nested_send_segment::<M>(
                        wg,
                        ng2,
                        conn2,
                        ctx2,
                        (k - 1) as nat,
                        (fuel - 1) as nat,
                    );
                    let (rest, layer2) = translate_send_errors::<M>(tail, pair.1);
                    let (ng3, next3, nctx3) = run_state(ng2, n2, nx2, (k - 1) as nat);
                    let wrapping_run = run_items(
                        StackSendGenOf::<M>::Wrapping(wg),
                        (Stack { layer: layer2, next: next3 }),
                        (StackCtx { own: ctx.own, next: nctx3 }),
                        (fuel - k) as nat,
                    );
                    assert(run_items(g, conn, ctx, fuel) == seq![
                        Err::<<M::Next as Connection<M::Message>>::Wrapped, M::WrapError>(pair.0),
                    ] + (rest + wrapping_run));
                    assert(seq![
                        Err::<<M::Next as Connection<M::Message>>::Wrapped, M::WrapError>(pair.0),
                    ] + (rest + wrapping_run) =~= (seq![
                        Err::<<M::Next as Connection<M::Message>>::Wrapped, M::WrapError>(pair.0),
                    ] + rest) + wrapping_run);
                },
            }
        },
    }
}

/// The mirror of [`lemma_nested_send_segment`] for the way back up: while
/// an unwrap producer runs — from the moment the nested receive yielded a
/// message until the unwrap completes, after exactly `k` resumptions — the
/// composed receive yields exactly the unwrap producer's own item sequence,
/// payloads and unwrap errors alike, unchanged, and then carries on driving
/// the parked nested receive producer from the states the segment left.
pub proof fn lemma_unwrap_receive_segment<M: Middleware>(
    rg: <M::Next as Connection<M::Message>>::ReceiveGen,
    ug: M::UnwrapGen,
    conn: Stack<M, M::Next>,
    ctx: LayerCtx<M>,
    k: nat,
    fuel: nat,
)
    requires
        run_completes(ug, conn.layer, ctx, k),
        !run_completes(ug, conn.layer, ctx, (k - 1) as nat),
        fuel >= k,
    ensures
        ({
            let (ug2, layer2, ctx2) = run_state(ug, conn.layer, ctx, k);
            run_items(StackReceiveGenOf::<M>::Unwrapping(rg, ug), conn, ctx, fuel) == run_items(
                ug,
                conn.layer,
                ctx,
                k,
            ) + run_items(
                StackReceiveGenOf::<M>::Reading(rg),
                (Stack { layer: layer2, next: conn.next }),
                ctx2,
                (fuel - k) as nat,
            )
        }),
    decreases k,
{
    let (item, ug2, layer2, ctx2) = ug.step(conn.layer, ctx);
    let g = StackReceiveGenOf::<M>::Unwrapping(rg, ug);
    let conn2 = (Stack { layer: layer2, next: conn.next });
    match item {
        Step::Done => {
            assert(k == 1) by {
                if k != 1 {
                    assert(run_completes(ug, conn.layer, ctx, (k - 1) as nat));
                }
            }
            assert(run_items(ug, conn.layer, ctx, k) =~= Seq::empty());
            assert(run_items(g, conn, ctx, fuel) =~= run_items(
                StackReceiveGenOf::<M>::Reading(rg),
                conn2,
                ctx2,
                (fuel - 1) as nat,
            ));
            assert(Seq::empty() + run_items(
                StackReceiveGenOf::<M>::Reading(rg),
                conn2,
                ctx2,
                (fuel - 1) as nat,
            ) =~= run_items(StackReceiveGenOf::<M>::Reading(rg), conn2, ctx2, (fuel - 1) as nat));
        },
        Step::Pending => {
            assert(k != 1) by {
                if k == 1 {
                    assert(!run_completes(ug2, layer2, ctx2, 0));
                }
            }
            assert(run_completes(ug2, layer2, ctx2, (k - 1) as nat));
            assert(!run_completes(ug2, layer2, ctx2, (k - 2) as nat));
            lemma_unwrap_receive_segment::<M>(rg, ug2, conn2, ctx2, (k - 1) as nat, (fuel - 1) as nat);
            assert(run_items(ug, conn.layer, ctx, k) == run_items(ug2, layer2, ctx2, (k - 1) as nat));
            assert(run_state(ug, conn.layer, ctx, k) == run_state(ug2, layer2, ctx2, (k - 1) as nat));
            assert(run_items(g, conn, ctx, fuel) == run_items(
                StackReceiveGenOf::<M>::Unwrapping(rg, ug2),
                conn2,
                ctx2,
                (fuel - 1) as nat,
            ));
        },
        Step::Yielded(out) => {
            assert(k != 1) by {
                if k == 1 {
                    assert(!run_completes(ug2, layer2, ctx2, 0));
                }
            }
            assert(run_completes(ug2, layer2, ctx2, (k - 1) as nat));
            assert(!run_completes(ug2, layer2, ctx2, (k - 2) as nat));
            lemma_unwrap_receive_segment::<M>(rg, ug2, conn2, ctx2, (k - 1) as nat, (fuel - 1) as nat);
            let tail = run_items(ug2, layer2, ctx2, (k - 1) as nat);
            assert(run_items(ug, conn.layer, ctx, k) == seq![out] + tail);
            assert(run_state(ug, conn.layer, ctx, k) == run_state(ug2, layer2, ctx2, (k - 1) as nat));
            let (ug3, layer3, ctx3) = run_state(ug2, layer2, ctx2, (k - 1) as nat);
            let reading_run = run_items(
                StackReceiveGenOf::<M>::Reading(rg),
                (Stack { layer: layer3, next: conn.next }),
                ctx3,
                (fuel - k) as nat,
            );
            assert(run_items(g, conn, ctx, fuel) == seq![out] + (tail + reading_run));
            assert(seq![out] + (tail + reading_run) =~= (seq![out] + tail) + reading_run);
        },
    }
}

/// Law: the item sequence of a composed send is the depth-first interleaving
/// the composition rule fixes, shown here on the canonical two-item shape:
/// a layer whose wrap fans the payload out into two messages, over a nested
/// connection whose send fails for the first message with `e1` and delivers
/// the second as the wire unit `u`. The composed send yields exactly the
/// translated error followed by the untouched wire unit — nothing is
/// coalesced, reordered, or left untranslated.
///
/// Every hypothesis is one transition of a component producer; the
/// conclusion is the whole run of the composed producer, under any fuel
/// that covers its seven resumptions.
pub proof fn lemma_two_layer_interleaving<M: Middleware>(
    payload: M::Payload,
    m1: M::Message,
    m2: M::Message,
    e1: <M::Next as Connection<M::Message>>::SendError,
    we: M::WrapError,
    u: <M::Next as Connection<M::Message>>::Wrapped,
    wg0: M::WrapGen,
    wg1: M::WrapGen,
    wg2: M::WrapGen,
    wg3: M::WrapGen,
    ng10: <M::Next as Connection<M::Message>>::SendGen,
    ng11: <M::Next as Connection<M::Message>>::SendGen,
    ng12: <M::Next as Connection<M::Message>>::SendGen,
    ng20: <M::Next as Connection<M::Message>>::SendGen,
    ng21: <M::Next as Connection<M::Message>>::SendGen,
    ng22: <M::Next as Connection<M::Message>>::SendGen,
    layer0: M,
    layer1: M,
    layer2: M,
    layer3: M,
    layer4: M,
    next0: M::Next,
    next1: M::Next,
    next2: M::Next,
    next3: M::Next,
    next4: M::Next,
    ctx0: LayerCtx<M>,
    ctx1: LayerCtx<M>,
    ctx3: LayerCtx<M>,
    ctx4: LayerCtx<M>,
    nctx1: <M::Next as Connection<M::Message>>::Ctx,
    nctx2: <M::Next as Connection<M::Message>>::Ctx,
    nctx3: <M::Next as Connection<M::Message>>::Ctx,
    nctx4: <M::Next as Connection<M::Message>>::Ctx,
    fuel: nat,
)
    requires
        M::wrap_spec(payload) == wg0,
        wg0.step(layer0, ctx0) == (Step::Yielded(Ok::<M::Message, M::WrapError>(m1)), wg1, layer1, ctx1),
        <M::Next as Connection<M::Message>>::send_spec(m1) == ng10,
        ng10.step(next0, ctx1.next) == (
            Step::Yielded(
                Err::<<M::Next as Connection<M::Message>>::Wrapped, <M::Next as Connection<M::Message>>::SendError>(e1),
            ),
            ng11,
            next1,
            nctx1,
        ),
        layer1.wrap_error_spec(e1) == (we, layer2),
        ng11.step(next1, nctx1) == (
            Step::Done::<Result<<M::Next as Connection<M::Message>>::Wrapped, <M::Next as Connection<M::Message>>::SendError>>,
            ng12,
            next2,
            nctx2,
        ),
        wg1.step(layer2, (StackCtx { own: ctx1.own, next: nctx2 })) == (
            Step::Yielded(Ok::<M::Message, M::WrapError>(m2)),
            wg2,
            layer3,
            ctx3,
        ),
        <M::Next as Connection<M::Message>>::send_spec(m2) == ng20,
        ng20.step(next2, ctx3.next) == (
            Step::Yielded(
                Ok::<<M::Next as Connection<M::Message>>::Wrapped, <M::Next as Connection<M::Message>>::SendError>(u),
            ),
            ng21,
            next3,
            nctx3,
        ),
        ng21.step(next3, nctx3) == (
            Step::Done::<Result<<M::Next as Connection<M::Message>>::Wrapped, <M::Next as Connection<M::Message>>::SendError>>,
            ng22,
            next4,
            nctx4,
        ),
        wg2.step(layer3, (StackCtx { own: ctx3.own, next: nctx4 })) == (
            Step::Done::<Result<M::Message, M::WrapError>>,
            wg3,
            layer4,
            ctx4,
        ),
        fuel >= 7,
    ensures
        run_items(
            <Stack<M, M::Next> as Connection<M::Payload>>::send_spec(payload),
            (Stack { layer: layer0, next: next0 }),
            ctx0,
            fuel,
        ) == seq![
            Err::<<M::Next as Connection<M::Message>>::Wrapped, M::WrapError>(we),
            Ok::<<M::Next as Connection<M::Message>>::Wrapped, M::WrapError>(u),
        ],
{
    let g0 = StackSendGenOf::<M>::Wrapping(wg0);
    let c0 = (Stack { layer: layer0, next: next0 });
    let g1 = StackSendGenOf::<M>::Nested(wg1, ng10);
    let c1 = (Stack { layer: layer1, next: next0 });
    let g2 = StackSendGenOf::<M>::Nested(wg1, ng11);
    let c2 = (Stack { layer: layer2, next: next1 });
    let x2 = (StackCtx { own: ctx1.own, next: nctx1 });
    let g3 = StackSendGenOf::<M>::Wrapping(wg1);
    let c3 = (Stack { layer: layer2, next: next2 });
    let x3 = (StackCtx { own: ctx1.own, next: nctx2 });
    let g4 = StackSendGenOf::<M>::Nested(wg2, ng20);
    let c4 = (Stack { layer: layer3, next: next2 });
    let g5 = StackSendGenOf::<M>::Nested(wg2, ng21);
    let c5 = (Stack { layer: layer3, next: next3 });
    let x5 = (StackCtx { own: ctx3.own, next: nctx3 });
    let g6 = StackSendGenOf::<M>::Wrapping(wg2);
    let c6 = (Stack { layer: layer3, next: next4 });
    let x6 = (StackCtx { own: ctx3.own, next: nctx4 });
    assert(g0.step(c0, ctx0) == (Step::Pending::<Result<<M::Next as Connection<M::Message>>::Wrapped, M::WrapError>>, g1, c1, ctx1));
    assert(run_items(g0, c0, ctx0, fuel) =~= run_items(g1, c1, ctx1, (fuel - 1) as nat));
    assert(run_items(g1, c1, ctx1, (fuel - 1) as nat) =~= seq![
        Err::<<M::Next as Connection<M::Message>>::Wrapped, M::WrapError>(we),
    ] + run_items(g2, c2, x2, (fuel - 2) as nat));
    assert(run_items(g2, c2, x2, (fuel - 2) as nat) =~= run_items(g3, c3, x3, (fuel - 3) as nat));
    assert(run_items(g3, c3, x3, (fuel - 3) as nat) =~= run_items(g4, c4, ctx3, (fuel - 4) as nat));
    assert(run_items(g4, c4, ctx3, (fuel - 4) as nat) =~= seq![
        Ok::<<M::Next as Connection<M::Message>>::Wrapped, M::WrapError>(u),
    ] + run_items(g5, c5, x5, (fuel - 5) as nat));
    assert(run_items(g5, c5, x5, (fuel - 5) as nat) =~= run_items(g6, c6, x6, (fuel - 6) as nat));
    assert(run_items(g6, c6, x6, (fuel - 6) as nat) =~= Seq::empty());
    assert(run_items(g0, c0, ctx0, fuel) =~= seq![
        Err::<<M::Next as Connection<M::Message>>::Wrapped, M::WrapError>(we),
        Ok::<<M::Next as Connection<M::Message>>::Wrapped, M::WrapError>(u),
    ]);
}

/// Round-trip law: for a layer whose unwrap is the exact inverse of its wrap
/// — wrapping `payload` yields the one message `m`, and unwrapping `m`
/// yields `payload` back — over a transport that hands a received wire unit
/// back as the message it was sent for, the composed send of `payload`
/// yields exactly one wire unit `w`, and feeding that collected output into
/// the composed receive, from the very state the send left behind,
/// reproduces exactly `payload`.
pub proof fn lemma_round_trip<M: Middleware>(
    payload: M::Payload,
    m: M::Message,
    w: <M::Next as Connection<M::Message>>::Wrapped,
    wg0: M::WrapGen,
    wg1: M::WrapGen,
    wg2: M::WrapGen,
    ng0: <M::Next as Connection<M::Message>>::SendGen,
    ng1: <M::Next as Connection<M::Message>>::SendGen,
    ng2: <M::Next as Connection<M::Message>>::SendGen,
    rg0: <M::Next as Connection<M::Message>>::ReceiveGen,
    rg1: <M::Next as Connection<M::Message>>::ReceiveGen,
    rg2: <M::Next as Connection<M::Message>>::ReceiveGen,
    ug0: M::UnwrapGen,
    ug1: M::UnwrapGen,
    ug2: M::UnwrapGen,
    layer0: M,
    layer1: M,
    layer2: M,
    layer3: M,
    layer4: M,
    next0: M::Next,
    next1: M::Next,
    next2: M::Next,
    next3: M::Next,
    next4: M::Next,
    ctx0: LayerCtx<M>,
    ctx1: LayerCtx<M>,
    ctx2: LayerCtx<M>,
    ctx3: LayerCtx<M>,
    ctx4: LayerCtx<M>,
    nctx1: <M::Next as Connection<M::Message>>::Ctx,
    nctx2: <M::Next as Connection<M::Message>>::Ctx,
    nctx3: <M::Next as Connection<M::Message>>::Ctx,
    nctx5: <M::Next as Connection<M::Message>>::Ctx,
    send_fuel: nat,
    receive_fuel: nat,
)
    requires
        M::wrap_spec(payload) == wg0,
        wg0.step(layer0, ctx0) == (Step::Yielded(Ok::<M::Message, M::WrapError>(m)), wg1, layer1, ctx1),
        <M::Next as Connection<M::Message>>::send_spec(m) == ng0,
        ng0.step(next0, ctx1.next) == (
            Step::Yielded(
                Ok::<<M::Next as Connection<M::Message>>::Wrapped, <M::Next as Connection<M::Message>>::SendError>(w),
            ),
            ng1,
            next1,
            nctx1,
        ),
        ng1.step(next1, nctx1) == (
            Step::Done::<Result<<M::Next as Connection<M::Message>>::Wrapped, <M::Next as Connection<M::Message>>::SendError>>,
            ng2,
            next2,
            nctx2,
        ),
        wg1.step(layer1, (StackCtx { own: ctx1.own, next: nctx2 })) == (
            Step::Done::<Result<M::Message, M::WrapError>>,
            wg2,
            layer2,
            ctx2,
        ),
        <M::Next as Connection<M::Message>>::receive_spec(w) == rg0,
        rg0.step(next2, ctx2.next) == (
            Step::Yielded(
                Ok::<M::Message, <M::Next as Connection<M::Message>>::ReceiveError>(m),
            ),
            rg1,
            next3,
            nctx3,
        ),
        M::unwrap_spec(m) == ug0,
        ug0.step(layer2, (StackCtx { own: ctx2.own, next: nctx3 })) == (
            Step::Yielded(Ok::<M::Payload, M::UnwrapError>(payload)),
            ug1,
            layer3,
            ctx3,
        ),
        ug1.step(layer3, ctx3) == (
            Step::Done::<Result<M::Payload, M::UnwrapError>>,
            ug2,
            layer4,
            ctx4,
        ),
        rg1.step(next3, ctx4.next) == (
            Step::Done::<Result<M::Message, <M::Next as Connection<M::Message>>::ReceiveError>>,
            rg2,
            next4,
            nctx5,
        ),
        send_fuel >= 4,
        receive_fuel >= 4,
    ensures
        run_items(
            <Stack<M, M::Next> as Connection<M::Payload>>::send_spec(payload),
            (Stack { layer: layer0, next: next0 }),
            ctx0,
            send_fuel,
        ) == seq![Ok::<<M::Next as Connection<M::Message>>::Wrapped, M::WrapError>(w)],
        run_state(
            <Stack<M, M::Next> as Connection<M::Payload>>::send_spec(payload),
            (Stack { layer: layer0, next: next0 }),
            ctx0,
            send_fuel,
        ) == (
            StackSendGenOf::<M>::Finished,
            (Stack { layer: layer2, next: next2 }),
            ctx2,
        ),
        run_items(
            <Stack<M, M::Next> as Connection<M::Payload>>::receive_spec(w),
            (Stack { layer: layer2, next: next2 }),
            ctx2,
            receive_fuel,
        ) == seq![Ok::<M::Payload, M::UnwrapError>(payload)],
{
    let g0 = StackSendGenOf::<M>::Wrapping(wg0);
    let c0 = (Stack { layer: layer0, next: next0 });
    let g1 = StackSendGenOf::<M>::Nested(wg1, ng0);
    let c1 = (Stack { layer: layer1, next: next0 });
    let g2 = StackSendGenOf::<M>::Nested(wg1, ng1);
    let c2 = (Stack { layer: layer1, next: next1 });
    let x2 = (StackCtx { own: ctx1.own, next: nctx1 });
    let g3 = StackSendGenOf::<M>::Wrapping(wg1);
    let c3 = (Stack { layer: layer1, next: next2 });
    let x3 = (StackCtx { own: ctx1.own, next: nctx2 });
    let c4 = (Stack { layer: layer2, next: next2 });
    assert(run_items(g0, c0, ctx0, send_fuel) =~= run_items(g1, c1, ctx1, (send_fuel - 1) as nat));
    assert(run_items(g1, c1, ctx1, (send_fuel - 1) as nat) =~= seq![
        Ok::<<M::Next as Connection<M::Message>>::Wrapped, M::WrapError>(w),
    ] + run_items(g2, c2, x2, (send_fuel - 2) as nat));
    assert(run_items(g2, c2, x2, (send_fuel - 2) as nat) =~= run_items(
        g3,
        c3,
        x3,
        (send_fuel - 3) as nat,
    ));
    assert(run_items(g3, c3, x3, (send_fuel - 3) as nat) =~= Seq::empty());
    assert(run_items(g0, c0, ctx0, send_fuel) =~= seq![
        Ok::<<M::Next as Connection<M::Message>>::Wrapped, M::WrapError>(w),
    ]);
    assert(run_state(g0, c0, ctx0, send_fuel) == run_state(g1, c1, ctx1, (send_fuel - 1) as nat));
    assert(run_state(g1, c1, ctx1, (send_fuel - 1) as nat) == run_state(
        g2,
        c2,
        x2,
        (send_fuel - 2) as nat,
    ));
    assert(run_state(g2, c2, x2, (send_fuel - 2) as nat) == run_state(
        g3,
        c3,
        x3,
        (send_fuel - 3) as nat,
    ));
    assert(run_state(g3, c3, x3, (send_fuel - 3) as nat) == (
        StackSendGenOf::<M>::Finished,
        c4,
        ctx2,
    ));
    let r0 = StackReceiveGenOf::<M>::Reading(rg0);
    let r1 = StackReceiveGenOf::<M>::Unwrapping(rg1, ug0);
    let d1 = (Stack { layer: layer2, next: next3 });
    let y1 = (StackCtx { own: ctx2.own, next: nctx3 });
    let r2 = StackReceiveGenOf::<M>::Unwrapping(rg1, ug1);
    let d2 = (Stack { layer: layer3, next: next3 });
    let r3 = StackReceiveGenOf::<M>::Reading(rg1);
    let d3 = (Stack { layer: layer4, next: next3 });
    assert(run_items(r0, c4, ctx2, receive_fuel) =~= run_items(
        r1,
        d1,
        y1,
        (receive_fuel - 1) as nat,
    ));
    assert(run_items(r1, d1, y1, (receive_fuel - 1) as nat) =~= seq![
        Ok::<M::Payload, M::UnwrapError>(payload),
    ] + run_items(r2, d2, ctx3, (receive_fuel - 2) as nat));
    assert(run_items(r2, d2, ctx3, (receive_fuel - 2) as nat) =~= run_items(
        r3,
        d3,
        ctx4,
        (receive_fuel - 3) as nat,
    ));
    assert(run_items(r3, d3, ctx4, (receive_fuel - 3) as nat) =~= Seq::empty());
    assert(run_items(r0, c4, ctx2, receive_fuel) =~= seq![
        Ok::<M::Payload, M::UnwrapError>(payload),
    ]);
}

} // verus!

//! The pipeline: owns one fully assembled stack and its context, and drives
//! top-level operations without exposing the connection/context threading.

use vstd::prelude::*;
use crate::connection::Connection;
use crate::gen_utils::ConnecteerGenerator;
use crate::gen_utils::Step;
use crate::gen_utils::run_completes;
use crate::gen_utils::run_items;
use crate::gen_utils::run_state;

verus! {

/// The only way to pass a payload through a whole middleware chain.
///
/// A pipeline exclusively owns the assembled connection stack and the
/// top-level context for the stack's lifetime. `send` and `receive` start a
/// producer for one operation; `advance_send` and `advance_receive` resume
/// it against the pipeline's own connection and context, so the embedder
/// never threads that pair by hand and can never hold a second handle to it.
pub struct Pipeline<Con, Payload> where Con: Connection<Payload> {
    ctx: Con::Ctx,
    con: Con,
    _marker: core::marker::PhantomData<Payload>,
}

impl<Con, Payload> Pipeline<Con, Payload> where Con: Connection<Payload> {
    /// The connection stack the pipeline owns.
    pub closed spec fn con_spec(self) -> Con {
        self.con
    }

    /// The top-level context the pipeline owns.
    pub closed spec fn ctx_spec(self) -> Con::Ctx {
        self.ctx
    }

    /// Assemble a pipeline from a connection stack and its initial context.
    pub fn new(c: Con, ctx: Con::Ctx) -> (p: Pipeline<Con, Payload>)
        ensures
            p.con_spec() == c && p.ctx_spec() == ctx,
    {
        Pipeline { ctx, con: c, _marker: core::marker::PhantomData }
    }

    /// Read the top-level context.
    pub fn ctx(&self) -> (r: &Con::Ctx)
        ensures
            *r == self.ctx_spec(),
    {
        &self.ctx
    }

    /// Mutable access to the top-level context, between operations.
    pub fn ctx_mut(&mut self) -> (r: &mut Con::Ctx)
        ensures
            *r == old(self).ctx_spec(),
            final(self).ctx_spec() == *final(r),
            final(self).con_spec() == old(self).con_spec(),
    {
        &mut self.ctx
    }

    /// Start sending a payload: the returned producer, driven with
    /// `advance_send`, yields the resulting wire units or send errors.
    pub fn send(&self, message: Payload) -> (g: Con::SendGen)
        ensures
            g == Con::send_spec(message),
    {
        Con::send::<crate::sealed::PublicUncallable>(message)
    }

    /// Start receiving a wire unit: the returned producer, driven with
    /// `advance_receive`, yields the recovered payloads or receive errors.
    pub fn receive(&self, message: Con::Wrapped) -> (g: Con::ReceiveGen)
        ensures
            g == Con::receive_spec(message),
    {
        Con::receive::<crate::sealed::PublicUncallable>(message)
    }

    /// Resume a send producer once against the pipeline's own connection and
    /// context. The pipeline adds nothing: the item is exactly what the
    /// stack's transition function yields.
    pub fn advance_send(&mut self, g: Con::SendGen) -> (r: (
        Step<Result<Con::Wrapped, Con::SendError>>,
        Con::SendGen,
    ))
        ensures
            ({
                let (item, g2, con2, ctx2) = g.step(old(self).con_spec(), old(self).ctx_spec());
                r.0 == item && r.1 == g2 && final(self).con_spec() == con2
                    && final(self).ctx_spec() == ctx2
            }),
    {
        g.resume(&mut self.con, &mut self.ctx)
    }

    /// Resume a receive producer once against the pipeline's own connection
    /// and context. The pipeline adds nothing: the item is exactly what the
    /// stack's transition function yields.
    pub fn advance_receive(&mut self, g: Con::ReceiveGen) -> (r: (
        Step<Result<Payload, Con::ReceiveError>>,
        Con::ReceiveGen,
    ))
        ensures
            ({
                let (item, g2, con2, ctx2) = g.step(old(self).con_spec(), old(self).ctx_spec());
                r.0 == item && r.1 == g2 && final(self).con_spec() == con2
                    && final(self).ctx_spec() == ctx2
            }),
    {
        g.resume(&mut self.con, &mut self.ctx)
    }

    /// Drive a send producer for at most `max_resumptions` resumptions,
    /// collecting every item it yields, in order.
    ///
    /// The collected items are exactly the run of the producer's transition
    /// function from the pipeline's current state: a pipeline over a bare
    /// terminal connection therefore hands back that connection's own item
    /// sequence, unmodified. The producer comes back for a later call unless
    /// it completed within the budget, in which case it is gone for good.
    #[verifier::loop_isolation(false)]
    pub fn drain_send(&mut self, g: Con::SendGen, max_resumptions: usize) -> (r: (
        Vec<Result<Con::Wrapped, Con::SendError>>,
        Option<Con::SendGen>,
    ))
        ensures
            r.0@ == run_items(g, old(self).con_spec(), old(self).ctx_spec(), max_resumptions as nat),
            ({
                let (g2, con2, ctx2) = run_state(
                    g,
                    old(self).con_spec(),
                    old(self).ctx_spec(),
                    max_resumptions as nat,
                );
                let done = run_completes(
                    g,
                    old(self).con_spec(),
                    old(self).ctx_spec(),
                    max_resumptions as nat,
                );
                final(self).con_spec() == con2 && final(self).ctx_spec() == ctx2 && r.1 == (
                if done {
                    None
                } else {
                    Some(g2)
                })
            }),
    {
        let ghost g0 = g;
        let ghost con0 = self.con_spec();
        let ghost ctx0 = self.ctx_spec();
        let ghost fuel0 = max_resumptions as nat;
        let mut gen = g;
        let mut out: Vec<Result<Con::Wrapped, Con::SendError>> = Vec::new();
        let mut steps: usize = 0;
        while steps < max_resumptions
            invariant
                steps <= max_resumptions,
                out@ + run_items(
                    gen,
                    self.con_spec(),
                    self.ctx_spec(),
                    (max_resumptions - steps) as nat,
                ) == run_items(g0, con0, ctx0, fuel0),
                run_state(gen, self.con_spec(), self.ctx_spec(), (max_resumptions - steps) as nat)
                    == run_state(g0, con0, ctx0, fuel0),
                run_completes(
                    gen,
                    self.con_spec(),
                    self.ctx_spec(),
                    (max_resumptions - steps) as nat,
                ) == run_completes(g0, con0, ctx0, fuel0),
            decreases max_resumptions - steps,
        {
            let ghost rem = (max_resumptions - steps) as nat;
            let ghost gen_pre = gen;
            let ghost con_pre = self.con_spec();
            let ghost ctx_pre = self.ctx_spec();
            let (item, g2) = gen.resume(&mut self.con, &mut self.ctx);
            gen = g2;
            match item {
                Step::Yielded(v) => {
                    proof {
                        assert(run_items(gen_pre, con_pre, ctx_pre, rem) =~= seq![v] + run_items(
                            gen,
                            self.con_spec(),
                            self.ctx_spec(),
                            (rem - 1) as nat,
                        ));
                        assert(out@ + run_items(gen_pre, con_pre, ctx_pre, rem) =~= out@.push(v)
                            + run_items(gen, self.con_spec(), self.ctx_spec(), (rem - 1) as nat));
                    }
                    out.push(v);
                },
                Step::Pending => {},
                Step::Done => {
                    proof {
                        assert(run_items(gen_pre, con_pre, ctx_pre, rem) =~= Seq::empty());
                        assert(out@ + run_items(gen_pre, con_pre, ctx_pre, rem) =~= out@);
                        assert(run_completes(gen_pre, con_pre, ctx_pre, rem));
                        assert(run_state(gen_pre, con_pre, ctx_pre, rem) == (
                            gen,
                            self.con_spec(),
                            self.ctx_spec(),
                        ));
                    }
                    return (out, None);
                },
            }
            steps = steps + 1;
        }
        proof {
            assert(out@ + run_items(gen, self.con_spec(), self.ctx_spec(), 0) =~= out@);
        }
        (out, Some(gen))
    }

    /// Drive a receive producer for at most `max_resumptions` resumptions,
    /// collecting every item it yields, in order; the exact mirror of
    /// [`Pipeline::drain_send`].
    #[verifier::loop_isolation(false)]
    pub fn drain_receive(&mut self, g: Con::ReceiveGen, max_resumptions: usize) -> (r: (
        Vec<Result<Payload, Con::ReceiveError>>,
        Option<Con::ReceiveGen>,
    ))
        ensures
            r.0@ == run_items(g, old(self).con_spec(), old(self).ctx_spec(), max_resumptions as nat),
            ({
                let (g2, con2, ctx2) = run_state(
                    g,
                    old(self).con_spec(),
                    old(self).ctx_spec(),
                    max_resumptions as nat,
                );
                let done = run_completes(
                    g,
                    old(self).con_spec(),
                    old(self).ctx_spec(),
                    max_resumptions as nat,
                );
                final(self).con_spec() == con2 && final(self).ctx_spec() == ctx2 && r.1 == (
                if done {
                    None
                } else {
                    Some(g2)
                })
            }),
    {
        let ghost g0 = g;
        let ghost con0 = self.con_spec();
        let ghost ctx0 = self.ctx_spec();
        let ghost fuel0 = max_resumptions as nat;
        let mut gen = g;
        let mut out: Vec<Result<Payload, Con::ReceiveError>> = Vec::new();
        let mut steps: usize = 0;
        while steps < max_resumptions
            invariant
                steps <= max_resumptions,
                out@ + run_items(
                    gen,
                    self.con_spec(),
                    self.ctx_spec(),
                    (max_resumptions - steps) as nat,
                ) == run_items(g0, con0, ctx0, fuel0),
                run_state(gen, self.con_spec(), self.ctx_spec(), (max_resumptions - steps) as nat)
                    == run_state(g0, con0, ctx0, fuel0),
                run_completes(
                    gen,
                    self.con_spec(),
                    self.ctx_spec(),
                    (max_resumptions - steps) as nat,
                ) == run_completes(g0, con0, ctx0, fuel0),
            decreases max_resumptions - steps,
        {
            let ghost rem = (max_resumptions - steps) as nat;
            let ghost gen_pre = gen;
            let ghost con_pre = self.con_spec();
            let ghost ctx_pre = self.ctx_spec();
            let (item, g2) = gen.resume(&mut self.con, &mut self.ctx);
            gen = g2;
            match item {
                Step::Yielded(v) => {
                    proof {
                        assert(run_items(gen_pre, con_pre, ctx_pre, rem) =~= seq![v] + run_items(
                            gen,
                            self.con_spec(),
                            self.ctx_spec(),
                            (rem - 1) as nat,
                        ));
                        assert(out@ + run_items(gen_pre, con_pre, ctx_pre, rem) =~= out@.push(v)
                            + run_items(gen, self.con_spec(), self.ctx_spec(), (rem - 1) as nat));
                    }
                    out.push(v);
                },
                Step::Pending => {},
                Step::Done => {
                    proof {
                        assert(run_items(gen_pre, con_pre, ctx_pre, rem) =~= Seq::empty());
                        assert(out@ + run_items(gen_pre, con_pre, ctx_pre, rem) =~= out@);
                        assert(run_completes(gen_pre, con_pre, ctx_pre, rem));
                        assert(run_state(gen_pre, con_pre, ctx_pre, rem) == (
                            gen,
                            self.con_spec(),
                            self.ctx_spec(),
                        ));
                    }
                    return (out, None);
                },
            }
            steps = steps + 1;
        }
        proof {
            assert(out@ + run_items(gen, self.con_spec(), self.ctx_spec(), 0) =~= out@);
        }
        (out, Some(gen))
    }
}

} // verus!

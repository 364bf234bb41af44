//! The producer abstraction: one-shot suspendable operations that are driven
//! step by step with a fresh (connection, context) pair at every resumption.

use vstd::prelude::*;

verus! {

/// The outcome of resuming a producer once.
///
/// A resumption either yields the next item, or reports that it took an
/// internal step and must be resumed again before the next item (or
/// completion) is known, or signals that the producer is exhausted.
pub enum Step<T> {
    Yielded(T),
    Pending,
    Done,
}

/// A one-shot suspendable operation, driven with a connection and a context.
///
/// A producer is resumed repeatedly; each resumption consumes the producer
/// value and hands back its successor, so a producer can never be rewound or
/// driven past the state it has reached. The connection and the context are
/// borrowed only for the duration of one resumption: nothing can retain them
/// across a suspension point.
///
/// The whole behaviour of a producer is pinned down by its transition
/// function [`ConnecteerGenerator::step`]: `resume` must return exactly the
/// item `step` predicts and leave the producer, the connection and the
/// context in exactly the states `step` predicts.
pub trait ConnecteerGenerator<Conn, Ctx>: Sized {
    /// The item type this producer yields.
    type Yield;

    /// The transition function: from the current producer, connection and
    /// context states, the item (if any) of the next resumption and the
    /// successor states.
    spec fn step(self, conn: Conn, ctx: Ctx) -> (Step<Self::Yield>, Self, Conn, Ctx);

    /// Resume the producer once.
    fn resume(self, conn: &mut Conn, ctx: &mut Ctx) -> (r: (Step<Self::Yield>, Self))
        ensures
            ({
                let (item, gen, conn2, ctx2) = self.step(*old(conn), *old(ctx));
                r.0 == item && r.1 == gen && *final(conn) == conn2 && *final(ctx) == ctx2
            }),
    ;
}

/// A witness for the span between two suspension points of a producer.
///
/// A resume argument handed to [`ConnecteerGenerator::resume`] must not be
/// usable past the resumption it was handed for. Reborrowing it through
/// [`BetweenYields::adjust`] pins its lifetime to that of the witness, so a
/// driver loop that mints a fresh witness per resumption makes retaining a
/// connection or context handle across a suspension point unwritable.
pub struct BetweenYields();

impl BetweenYields {
    /// Reborrow a resume argument for the span of this witness alone,
    /// leaving the value behind it untouched.
    pub fn adjust<'between_yields, 'too_big, ResumeArg>(
        &'between_yields self,
        resume_arg: &'too_big mut ResumeArg,
    ) -> (r: &'between_yields mut ResumeArg) where 'too_big: 'between_yields
        ensures
            *r == *old(resume_arg),
            *final(resume_arg) == *final(r),
    {
        resume_arg
    }
}

/// Checks, at compile time, that a value satisfies the producer interface,
/// and hands it back unchanged.
pub fn gen_interface_check<Conn, Ctx, G: ConnecteerGenerator<Conn, Ctx>>(g: G) -> (r: G)
    ensures
        r == g,
{
    g
}

/// The item sequence a producer yields when resumed up to `fuel` times from
/// the given states: every resumption consumes one unit of fuel, and the run
/// stops early at the first completed resumption.
pub open spec fn run_items<Conn, Ctx, G: ConnecteerGenerator<Conn, Ctx>>(
    g: G,
    conn: Conn,
    ctx: Ctx,
    fuel: nat,
) -> Seq<G::Yield>
    decreases fuel,
{
    if fuel == 0 {
        Seq::empty()
    } else {
        let (item, g2, conn2, ctx2) = g.step(conn, ctx);
        match item {
            Step::Yielded(v) => seq![v] + run_items(g2, conn2, ctx2, (fuel - 1) as nat),
            Step::Pending => run_items(g2, conn2, ctx2, (fuel - 1) as nat),
            Step::Done => Seq::empty(),
        }
    }
}

/// The producer, connection and context states left behind by the run that
/// [`run_items`] describes, with the same fuel accounting.
pub open spec fn run_state<Conn, Ctx, G: ConnecteerGenerator<Conn, Ctx>>(
    g: G,
    conn: Conn,
    ctx: Ctx,
    fuel: nat,
) -> (G, Conn, Ctx)
    decreases fuel,
{
    if fuel == 0 {
        (g, conn, ctx)
    } else {
        let (item, g2, conn2, ctx2) = g.step(conn, ctx);
        match item {
            Step::Yielded(v) => run_state(g2, conn2, ctx2, (fuel - 1) as nat),
            Step::Pending => run_state(g2, conn2, ctx2, (fuel - 1) as nat),
            Step::Done => (g2, conn2, ctx2),
        }
    }
}

/// Whether a run of `fuel` resumptions from the given states reaches the
/// producer's completion.
pub open spec fn run_completes<Conn, Ctx, G: ConnecteerGenerator<Conn, Ctx>>(
    g: G,
    conn: Conn,
    ctx: Ctx,
    fuel: nat,
) -> bool
    decreases fuel,
{
    if fuel == 0 {
        false
    } else {
        let (item, g2, conn2, ctx2) = g.step(conn, ctx);
        match item {
            Step::Yielded(v) => run_completes(g2, conn2, ctx2, (fuel - 1) as nat),
            Step::Pending => run_completes(g2, conn2, ctx2, (fuel - 1) as nat),
            Step::Done => true,
        }
    }
}

} // verus!

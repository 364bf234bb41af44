use connecteer_capabilities::Connection;
use connecteer_capabilities::ConnecteerGenerator;
use connecteer_capabilities::Middleware;
use connecteer_capabilities::Pipeline;
use connecteer_capabilities::PublicUncallable;
use connecteer_capabilities::Stack;
use connecteer_capabilities::StackCtx;
use connecteer_capabilities::Step;

/// Bottom transport whose context slice carries a tag; every wire unit it
/// produces starts with the tag it observes at that resumption.
struct Tagger;

#[derive(Default)]
struct TaggerCtx {
    tag: u8,
}

#[derive(Debug, PartialEq, Eq)]
struct TaggerError;

struct TaggerSendGen(Option<Vec<u8>>);
struct TaggerReceiveGen(Option<Vec<u8>>);

impl ConnecteerGenerator<Tagger, TaggerCtx> for TaggerSendGen {
    type Yield = Result<Vec<u8>, TaggerError>;

    // Ghost transition hook; erased by verification and never called at run time.
    fn step(self, _: Tagger, _: TaggerCtx) -> (Step<Self::Yield>, Self, Tagger, TaggerCtx) {
        panic!()
    }

    fn resume(self, _conn: &mut Tagger, ctx: &mut TaggerCtx) -> (Step<Self::Yield>, Self) {
        match self.0 {
            Some(v) => {
                let mut unit = vec![ctx.tag];
                unit.extend_from_slice(&v);
                (Step::Yielded(Ok(unit)), TaggerSendGen(None))
            }
            None => (Step::Done, TaggerSendGen(None)),
        }
    }
}

impl ConnecteerGenerator<Tagger, TaggerCtx> for TaggerReceiveGen {
    type Yield = Result<Vec<u8>, TaggerError>;

    // Ghost transition hook; erased by verification and never called at run time.
    fn step(self, _: Tagger, _: TaggerCtx) -> (Step<Self::Yield>, Self, Tagger, TaggerCtx) {
        panic!()
    }

    fn resume(self, _conn: &mut Tagger, _ctx: &mut TaggerCtx) -> (Step<Self::Yield>, Self) {
        match self.0 {
            Some(v) => (Step::Yielded(Ok(v)), TaggerReceiveGen(None)),
            None => (Step::Done, TaggerReceiveGen(None)),
        }
    }
}

impl Connection<Vec<u8>> for Tagger {
    type Wrapped = Vec<u8>;
    type Ctx = TaggerCtx;
    type SendError = TaggerError;
    type ReceiveError = TaggerError;
    type NextError = TaggerError;
    type SendGen = TaggerSendGen;
    type ReceiveGen = TaggerReceiveGen;

    // Ghost model hooks; erased by verification and never called at run time.
    fn send_spec(_: Vec<u8>) -> TaggerSendGen {
        panic!()
    }

    fn receive_spec(_: Vec<u8>) -> TaggerReceiveGen {
        panic!()
    }

    fn send<Uncallable: PublicUncallable>(input: Vec<u8>) -> TaggerSendGen {
        TaggerSendGen(Some(input))
    }

    fn receive<Uncallable: PublicUncallable>(output: Vec<u8>) -> TaggerReceiveGen {
        TaggerReceiveGen(Some(output))
    }
}

/// A do-nothing middle layer: one message per payload, no error of its own.
struct Relay;

#[derive(Default)]
struct RelayCtx;

struct RelayWrapGen(Option<Vec<u8>>);
struct RelayUnwrapGen(Option<Vec<u8>>);

type RelayLayerCtx = StackCtx<RelayCtx, TaggerCtx>;

impl ConnecteerGenerator<Relay, RelayLayerCtx> for RelayWrapGen {
    type Yield = Result<Vec<u8>, TaggerError>;

    // Ghost transition hook; erased by verification and never called at run time.
    fn step(self, _: Relay, _: RelayLayerCtx) -> (Step<Self::Yield>, Self, Relay, RelayLayerCtx) {
        panic!()
    }

    fn resume(self, _conn: &mut Relay, _ctx: &mut RelayLayerCtx) -> (Step<Self::Yield>, Self) {
        match self.0 {
            Some(v) => (Step::Yielded(Ok(v)), RelayWrapGen(None)),
            None => (Step::Done, RelayWrapGen(None)),
        }
    }
}

impl ConnecteerGenerator<Relay, RelayLayerCtx> for RelayUnwrapGen {
    type Yield = Result<Vec<u8>, TaggerError>;

    // Ghost transition hook; erased by verification and never called at run time.
    fn step(self, _: Relay, _: RelayLayerCtx) -> (Step<Self::Yield>, Self, Relay, RelayLayerCtx) {
        panic!()
    }

    fn resume(self, _conn: &mut Relay, _ctx: &mut RelayLayerCtx) -> (Step<Self::Yield>, Self) {
        match self.0 {
            Some(v) => (Step::Yielded(Ok(v)), RelayUnwrapGen(None)),
            None => (Step::Done, RelayUnwrapGen(None)),
        }
    }
}

impl Middleware for Relay {
    type Payload = Vec<u8>;
    type Message = Vec<u8>;
    type WrapError = TaggerError;
    type UnwrapError = TaggerError;
    type Ctx = RelayCtx;
    type Next = Tagger;
    type WrapGen = RelayWrapGen;
    type UnwrapGen = RelayUnwrapGen;

    // Ghost model hooks; erased by verification and never called at run time.
    fn wrap_spec(_: Vec<u8>) -> RelayWrapGen {
        panic!()
    }

    fn unwrap_spec(_: Vec<u8>) -> RelayUnwrapGen {
        panic!()
    }

    fn wrap_error_spec(self, _: TaggerError) -> (TaggerError, Self) {
        panic!()
    }

    fn unwrap_error_spec(self, _: TaggerError) -> (TaggerError, Self) {
        panic!()
    }

    fn wrap<Uncallable: PublicUncallable>(input: Vec<u8>) -> RelayWrapGen {
        RelayWrapGen(Some(input))
    }

    fn unwrap<Uncallable: PublicUncallable>(message: Vec<u8>) -> RelayUnwrapGen {
        RelayUnwrapGen(Some(message))
    }

    fn create_wrap_error<Uncallable: PublicUncallable>(&mut self, err: TaggerError) -> TaggerError {
        err
    }

    fn create_unwrap_error<Uncallable: PublicUncallable>(
        &mut self,
        err: TaggerError,
    ) -> TaggerError {
        err
    }
}

/// The top layer: before yielding its message, it writes a tag deep into the
/// bottom transport's slice of the context it was handed.
struct Marker;

#[derive(Default)]
struct MarkerCtx;

struct MarkerWrapGen(Option<Vec<u8>>);
struct MarkerUnwrapGen(Option<Vec<u8>>);

type MarkerLayerCtx = StackCtx<MarkerCtx, StackCtx<RelayCtx, TaggerCtx>>;

impl ConnecteerGenerator<Marker, MarkerLayerCtx> for MarkerWrapGen {
    type Yield = Result<Vec<u8>, TaggerError>;

    // Ghost transition hook; erased by verification and never called at run time.
    fn step(
        self,
        _: Marker,
        _: MarkerLayerCtx,
    ) -> (Step<Self::Yield>, Self, Marker, MarkerLayerCtx) {
        panic!()
    }

    fn resume(self, _conn: &mut Marker, ctx: &mut MarkerLayerCtx) -> (Step<Self::Yield>, Self) {
        match self.0 {
            Some(v) => {
                if v.first() == Some(&b'm') {
                    ctx.next.next.tag = 7;
                }
                (Step::Yielded(Ok(v)), MarkerWrapGen(None))
            }
            None => (Step::Done, MarkerWrapGen(None)),
        }
    }
}

impl ConnecteerGenerator<Marker, MarkerLayerCtx> for MarkerUnwrapGen {
    type Yield = Result<Vec<u8>, TaggerError>;

    // Ghost transition hook; erased by verification and never called at run time.
    fn step(
        self,
        _: Marker,
        _: MarkerLayerCtx,
    ) -> (Step<Self::Yield>, Self, Marker, MarkerLayerCtx) {
        panic!()
    }

    fn resume(self, _conn: &mut Marker, _ctx: &mut MarkerLayerCtx) -> (Step<Self::Yield>, Self) {
        match self.0 {
            Some(v) => (Step::Yielded(Ok(v)), MarkerUnwrapGen(None)),
            None => (Step::Done, MarkerUnwrapGen(None)),
        }
    }
}

impl Middleware for Marker {
    type Payload = Vec<u8>;
    type Message = Vec<u8>;
    type WrapError = TaggerError;
    type UnwrapError = TaggerError;
    type Ctx = MarkerCtx;
    type Next = Stack<Relay, Tagger>;
    type WrapGen = MarkerWrapGen;
    type UnwrapGen = MarkerUnwrapGen;

    // Ghost model hooks; erased by verification and never called at run time.
    fn wrap_spec(_: Vec<u8>) -> MarkerWrapGen {
        panic!()
    }

    fn unwrap_spec(_: Vec<u8>) -> MarkerUnwrapGen {
        panic!()
    }

    fn wrap_error_spec(self, _: TaggerError) -> (TaggerError, Self) {
        panic!()
    }

    fn unwrap_error_spec(self, _: TaggerError) -> (TaggerError, Self) {
        panic!()
    }

    fn wrap<Uncallable: PublicUncallable>(input: Vec<u8>) -> MarkerWrapGen {
        MarkerWrapGen(Some(input))
    }

    fn unwrap<Uncallable: PublicUncallable>(message: Vec<u8>) -> MarkerUnwrapGen {
        MarkerUnwrapGen(Some(message))
    }

    fn create_wrap_error<Uncallable: PublicUncallable>(&mut self, err: TaggerError) -> TaggerError {
        err
    }

    fn create_unwrap_error<Uncallable: PublicUncallable>(
        &mut self,
        err: TaggerError,
    ) -> TaggerError {
        err
    }
}

type ThreeLayer = Stack<Marker, Stack<Relay, Tagger>>;

fn three_layer_pipeline() -> Pipeline<ThreeLayer, Vec<u8>> {
    Pipeline::new(
        Stack { layer: Marker, next: Stack { layer: Relay, next: Tagger } },
        StackCtx {
            own: MarkerCtx,
            next: StackCtx { own: RelayCtx, next: TaggerCtx::default() },
        },
    )
}

#[test]
fn top_layer_mutation_visible_to_bottom_layer() {
    let mut pipe = three_layer_pipeline();
    let gen = pipe.send(b"mx".to_vec());
    let (items, leftover) = pipe.drain_send(gen, 100);
    assert!(leftover.is_none());
    // Layer 1 set the tag to 7 before yielding; the bottom layer saw it on
    // its very next resumption and stamped it onto the wire unit.
    assert_eq!(items, vec![Ok(vec![7, b'm', b'x'])]);
}

#[test]
fn embedder_context_mutation_visible_to_layers() {
    let mut pipe = three_layer_pipeline();
    pipe.ctx_mut().next.next.tag = 3;
    // A payload that does not start with `m` leaves the tag to the embedder.
    let gen = pipe.send(b"y".to_vec());
    let (items, _) = pipe.drain_send(gen, 100);
    assert_eq!(items, vec![Ok(vec![3, b'y'])]);
    assert_eq!(pipe.ctx().next.next.tag, 3);
}

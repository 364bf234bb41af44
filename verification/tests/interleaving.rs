use connecteer_capabilities::Connection;
use connecteer_capabilities::ConnecteerGenerator;
use connecteer_capabilities::Middleware;
use connecteer_capabilities::Pipeline;
use connecteer_capabilities::PublicUncallable;
use connecteer_capabilities::Stack;
use connecteer_capabilities::StackCtx;
use connecteer_capabilities::Step;

/// Terminal transport: sending a message yields one `Ok` with the same
/// bytes, except for the message `b"boom"`, which yields one error instead.
struct Fallible;

#[derive(Default)]
struct FallibleCtx;

#[derive(Debug, PartialEq, Eq, Clone)]
struct TransportError(String);

struct FallibleSendGen(Option<Vec<u8>>);
struct FallibleReceiveGen(Vec<Result<Vec<u8>, TransportError>>);

impl ConnecteerGenerator<Fallible, FallibleCtx> for FallibleSendGen {
    type Yield = Result<Vec<u8>, TransportError>;

    // Ghost transition hook; erased by verification and never called at run time.
    fn step(self, _: Fallible, _: FallibleCtx) -> (Step<Self::Yield>, Self, Fallible, FallibleCtx) {
        panic!()
    }

    fn resume(self, _conn: &mut Fallible, _ctx: &mut FallibleCtx) -> (Step<Self::Yield>, Self) {
        match self.0 {
            Some(v) => {
                let item = if v == b"boom" {
                    Err(TransportError("transport refused".to_string()))
                } else {
                    Ok(v)
                };
                (Step::Yielded(item), FallibleSendGen(None))
            }
            None => (Step::Done, FallibleSendGen(None)),
        }
    }
}

impl ConnecteerGenerator<Fallible, FallibleCtx> for FallibleReceiveGen {
    type Yield = Result<Vec<u8>, TransportError>;

    // Ghost transition hook; erased by verification and never called at run time.
    fn step(self, _: Fallible, _: FallibleCtx) -> (Step<Self::Yield>, Self, Fallible, FallibleCtx) {
        panic!()
    }

    fn resume(self, _conn: &mut Fallible, _ctx: &mut FallibleCtx) -> (Step<Self::Yield>, Self) {
        let mut items = self.0;
        if items.is_empty() {
            (Step::Done, FallibleReceiveGen(items))
        } else {
            let item = items.remove(0);
            (Step::Yielded(item), FallibleReceiveGen(items))
        }
    }
}

impl Connection<Vec<u8>> for Fallible {
    type Wrapped = Vec<u8>;
    type Ctx = FallibleCtx;
    type SendError = TransportError;
    type ReceiveError = TransportError;
    type NextError = TransportError;
    type SendGen = FallibleSendGen;
    type ReceiveGen = FallibleReceiveGen;

    // Ghost model hooks; erased by verification and never called at run time.
    fn send_spec(_: Vec<u8>) -> FallibleSendGen {
        panic!()
    }

    fn receive_spec(_: Vec<u8>) -> FallibleReceiveGen {
        panic!()
    }

    fn send<Uncallable: PublicUncallable>(input: Vec<u8>) -> FallibleSendGen {
        FallibleSendGen(Some(input))
    }

    /// Receiving a wire unit surfaces one transport error first, then the
    /// unit itself, so a layer above sees an interleaved error stream.
    fn receive<Uncallable: PublicUncallable>(output: Vec<u8>) -> FallibleReceiveGen {
        if output == b"boom" {
            FallibleReceiveGen(vec![Err(TransportError("corrupt frame".to_string()))])
        } else {
            FallibleReceiveGen(vec![Ok(output)])
        }
    }
}

/// A layer that fans one payload out into two messages: first `b"boom"`
/// (which the transport refuses) and then the payload itself.
struct FanOut;

#[derive(Default)]
struct FanOutCtx;

#[derive(Debug, PartialEq, Eq)]
enum FanOutError {
    Own(String),
    Downstream(TransportError),
}

struct FanOutWrapGen(Vec<Result<Vec<u8>, FanOutError>>);
struct FanOutUnwrapGen(Option<Vec<u8>>);

type FanOutLayerCtx = StackCtx<FanOutCtx, FallibleCtx>;

impl ConnecteerGenerator<FanOut, FanOutLayerCtx> for FanOutWrapGen {
    type Yield = Result<Vec<u8>, FanOutError>;

    // Ghost transition hook; erased by verification and never called at run time.
    fn step(
        self,
        _: FanOut,
        _: FanOutLayerCtx,
    ) -> (Step<Self::Yield>, Self, FanOut, FanOutLayerCtx) {
        panic!()
    }

    fn resume(self, _conn: &mut FanOut, _ctx: &mut FanOutLayerCtx) -> (Step<Self::Yield>, Self) {
        let mut items = self.0;
        if items.is_empty() {
            (Step::Done, FanOutWrapGen(items))
        } else {
            let item = items.remove(0);
            (Step::Yielded(item), FanOutWrapGen(items))
        }
    }
}

impl ConnecteerGenerator<FanOut, FanOutLayerCtx> for FanOutUnwrapGen {
    type Yield = Result<Vec<u8>, FanOutError>;

    // Ghost transition hook; erased by verification and never called at run time.
    fn step(
        self,
        _: FanOut,
        _: FanOutLayerCtx,
    ) -> (Step<Self::Yield>, Self, FanOut, FanOutLayerCtx) {
        panic!()
    }

    fn resume(self, _conn: &mut FanOut, _ctx: &mut FanOutLayerCtx) -> (Step<Self::Yield>, Self) {
        match self.0 {
            Some(v) => (Step::Yielded(Ok(v)), FanOutUnwrapGen(None)),
            None => (Step::Done, FanOutUnwrapGen(None)),
        }
    }
}

impl Middleware for FanOut {
    type Payload = Vec<u8>;
    type Message = Vec<u8>;
    type WrapError = FanOutError;
    type UnwrapError = FanOutError;
    type Ctx = FanOutCtx;
    type Next = Fallible;
    type WrapGen = FanOutWrapGen;
    type UnwrapGen = FanOutUnwrapGen;

    // Ghost model hooks; erased by verification and never called at run time.
    fn wrap_spec(_: Vec<u8>) -> FanOutWrapGen {
        panic!()
    }

    fn unwrap_spec(_: Vec<u8>) -> FanOutUnwrapGen {
        panic!()
    }

    fn wrap_error_spec(self, _: TransportError) -> (FanOutError, Self) {
        panic!()
    }

    fn unwrap_error_spec(self, _: TransportError) -> (FanOutError, Self) {
        panic!()
    }

    /// Fans out into the refused probe message and then the payload itself;
    /// a payload of `b"failwrap"` makes the wrap step itself fail first.
    fn wrap<Uncallable: PublicUncallable>(input: Vec<u8>) -> FanOutWrapGen {
        if input == b"failwrap" {
            FanOutWrapGen(vec![Err(FanOutError::Own("wrap refused".to_string())), Ok(input)])
        } else {
            FanOutWrapGen(vec![Ok(b"boom".to_vec()), Ok(input)])
        }
    }

    fn unwrap<Uncallable: PublicUncallable>(message: Vec<u8>) -> FanOutUnwrapGen {
        FanOutUnwrapGen(Some(message))
    }

    fn create_wrap_error<Uncallable: PublicUncallable>(
        &mut self,
        err: TransportError,
    ) -> FanOutError {
        FanOutError::Downstream(err)
    }

    fn create_unwrap_error<Uncallable: PublicUncallable>(
        &mut self,
        err: TransportError,
    ) -> FanOutError {
        FanOutError::Downstream(err)
    }
}

type TwoLayer = Stack<FanOut, Fallible>;

fn two_layer_pipeline() -> Pipeline<TwoLayer, Vec<u8>> {
    Pipeline::new(
        Stack { layer: FanOut, next: Fallible },
        StackCtx { own: FanOutCtx, next: FallibleCtx },
    )
}

#[test]
fn send_interleaves_translated_error_then_unit() {
    let mut pipe = two_layer_pipeline();
    let gen = pipe.send(b"hello".to_vec());
    let (items, leftover) = pipe.drain_send(gen, 100);
    assert!(leftover.is_none());
    assert_eq!(
        items,
        vec![
            Err(FanOutError::Downstream(TransportError("transport refused".to_string()))),
            Ok(b"hello".to_vec()),
        ]
    );
}

#[test]
fn wrap_errors_surface_untranslated() {
    let mut pipe = two_layer_pipeline();
    let gen = pipe.send(b"failwrap".to_vec());
    let (items, leftover) = pipe.drain_send(gen, 100);
    assert!(leftover.is_none());
    assert_eq!(
        items,
        vec![Err(FanOutError::Own("wrap refused".to_string())), Ok(b"failwrap".to_vec())]
    );
}

#[test]
fn receive_translates_transport_errors() {
    let mut pipe = two_layer_pipeline();
    let gen = pipe.receive(b"boom".to_vec());
    let (items, leftover) = pipe.drain_receive(gen, 100);
    assert!(leftover.is_none());
    assert_eq!(
        items,
        vec![Err(FanOutError::Downstream(TransportError("corrupt frame".to_string())))]
    );
}

#[test]
fn receive_passes_unwrapped_payloads_through() {
    let mut pipe = two_layer_pipeline();
    let gen = pipe.receive(b"frame".to_vec());
    let (items, leftover) = pipe.drain_receive(gen, 100);
    assert!(leftover.is_none());
    assert_eq!(items, vec![Ok(b"frame".to_vec())]);
}

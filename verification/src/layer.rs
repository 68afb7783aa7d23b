//! A bidirectional pipeline of protocol stages.
//!
//! A [`LayerChain`] keeps its layers in a growable indexed collection, in
//! arrival order; neighbour links are the indices themselves.  The first
//! layer added is the head, the most recently added one the tail.  Dispatch
//! enters at the head (inbound) or at the tail (outbound) and hops between
//! neighbours as directed by each handler's own verdict, so a single external
//! call may cross several layers before a final result is produced.

use vstd::prelude::*;

use crate::function::Service;

verus! {

/// Free-form context carried alongside a payload.
#[derive(Debug, Clone, PartialEq)]
pub struct ChainContext {
    pub data: std::collections::HashMap<String, String>,
}

/// An opaque message passed between stages.
#[derive(Debug, Clone, PartialEq)]
pub struct PayLoad {
    pub data: Option<String>,
    pub ctx: Option<ChainContext>,
}

/// Which neighbour a layer's result should next be routed toward.
///
/// `Inbound` continues toward the most recently added layer (the tail),
/// `Outbound` toward the first added layer (the head).
#[derive(Debug, Clone, Copy, PartialEq, Eq, Structural)]
pub enum Direction {
    Inbound,
    Outbound,
}

/// What one handler invocation produced: a routing verdict and a payload.
#[derive(Debug, Clone, PartialEq)]
pub struct LayerResult {
    pub direction: Direction,
    pub data: Option<PayLoad>,
}

/// Every failure a chain can report, each an explicit returned value.
#[derive(Debug, Clone, PartialEq)]
pub enum ChainError {
    /// A handler was missing when a layer was built.
    Construction,
    /// Dispatch was attempted on a chain with no layers.
    EmptyChain,
    /// A user handler reported failure, with its message.
    Handler(String),
    /// A neighbour link could not be resolved to a live layer.  In this
    /// chain layers are linked by index into the chain's own storage and
    /// never removed, so every link stays live:
    /// [`lemma_dispatch_errors_are_handler_errors`] proves dispatch never
    /// produces this failure.  The variant remains part of the taxonomy for
    /// callers that match on it.
    BrokenLink,
}

/// A closure wrapped as a payload-processing [`Service`].
///
/// The closure must be total and deterministic; [`protocol_handler`] demands
/// both, and the type keeps them as an invariant.
pub struct ProtocolAware<F: Fn(Option<PayLoad>) -> Result<LayerResult, String>> {
    func: F,
}

impl<F: Fn(Option<PayLoad>) -> Result<LayerResult, String>> ProtocolAware<F> {
    #[verifier::type_invariant]
    spec fn inv(self) -> bool {
        &&& forall|i: Option<PayLoad>| #[trigger] call_requires(self.func, (i,))
        &&& forall|i: Option<PayLoad>, o1: Result<LayerResult, String>, o2: Result<LayerResult, String>|
            call_ensures(self.func, (i,), o1) && call_ensures(self.func, (i,), o2) ==> o1 == o2
    }
}

impl<F: Fn(Option<PayLoad>) -> Result<LayerResult, String>> Service<
    Option<PayLoad>,
    Result<LayerResult, String>,
> for ProtocolAware<F> {
    closed spec fn spec_call(&self, input: Option<PayLoad>) -> Result<LayerResult, String> {
        choose|o: Result<LayerResult, String>| call_ensures(self.func, (input,), o)
    }

    fn call(&self, input: Option<PayLoad>) -> (out: Result<LayerResult, String>) {
        proof {
            use_type_invariant(self);
        }
        (self.func)(input)
    }
}

/// Wrap a total, deterministic closure as a protocol handler.
pub fn protocol_handler<F: Fn(Option<PayLoad>) -> Result<LayerResult, String>>(f: F) -> (h:
    ProtocolAware<F>)
    requires
        forall|i: Option<PayLoad>| #[trigger] call_requires(f, (i,)),
        forall|i: Option<PayLoad>, o1: Result<LayerResult, String>, o2: Result<LayerResult, String>|
            call_ensures(f, (i,), o1) && call_ensures(f, (i,), o2) ==> o1 == o2,
    ensures
        forall|i: Option<PayLoad>, o: Result<LayerResult, String>|
            #[trigger] call_ensures(f, (i,), o) ==> h.spec_call(i) == o,
{
    ProtocolAware { func: f }
}

/// One stage of the pipeline: an inbound handler and an outbound handler.
#[derive(Clone)]
pub struct Layer<H> {
    pub inbound_handler: H,
    pub outbound_handler: H,
}

/// The result of the handler a direction selects: inbound work goes to the
/// inbound handler, outbound work to the outbound handler.
pub open spec fn handler_result<H: Service<Option<PayLoad>, Result<LayerResult, String>>>(
    l: Layer<H>,
    dir: Direction,
    p: Option<PayLoad>,
) -> Result<LayerResult, String> {
    match dir {
        Direction::Inbound => l.inbound_handler.spec_call(p),
        Direction::Outbound => l.outbound_handler.spec_call(p),
    }
}

/// What dispatch on a layer with no neighbours returns: the handler's direct
/// result, with a handler failure surfaced as [`ChainError::Handler`].
pub open spec fn solo_outcome<H: Service<Option<PayLoad>, Result<LayerResult, String>>>(
    l: Layer<H>,
    dir: Direction,
    p: Option<PayLoad>,
) -> Result<LayerResult, ChainError> {
    match handler_result(l, dir, p) {
        Result::Ok(res) => Result::Ok(res),
        Result::Err(m) => Result::Err(ChainError::Handler(m)),
    }
}

impl<H: Service<Option<PayLoad>, Result<LayerResult, String>>> Layer<H> {
    /// Build a layer from its two handlers.
    pub fn new(inbound_handler: H, outbound_handler: H) -> (l: Self)
        ensures
            l == (Layer { inbound_handler, outbound_handler }),
    {
        Self { inbound_handler, outbound_handler }
    }

    /// Dispatch inbound work on this layer alone.
    ///
    /// A layer outside a chain has no neighbours, so whatever direction the
    /// handler's result declares, there is no matching neighbour and the
    /// direct result is the final outcome.
    pub fn handle_inbound(&self, req: Option<PayLoad>) -> (r: Result<LayerResult, ChainError>)
        ensures
            r == solo_outcome(*self, Direction::Inbound, req),
    {
        match self.inbound_handler.call(req) {
            Result::Ok(res) => Result::Ok(res),
            Result::Err(m) => Result::Err(ChainError::Handler(m)),
        }
    }

    /// Dispatch outbound work on this layer alone; the mirror of
    /// [`Layer::handle_inbound`].
    pub fn handle_outbound(&self, req: Option<PayLoad>) -> (r: Result<LayerResult, ChainError>)
        ensures
            r == solo_outcome(*self, Direction::Outbound, req),
    {
        match self.outbound_handler.call(req) {
            Result::Ok(res) => Result::Ok(res),
            Result::Err(m) => Result::Err(ChainError::Handler(m)),
        }
    }
}

/// Step-by-step builder for a [`Layer`]; building fails unless both handlers
/// were supplied.
pub struct LayerBuilder<H> {
    inbound: Option<H>,
    outbound: Option<H>,
}

impl<H: Service<Option<PayLoad>, Result<LayerResult, String>>> LayerBuilder<H> {
    /// The inbound handler supplied so far.
    pub closed spec fn inbound_opt(&self) -> Option<H> {
        self.inbound
    }

    /// The outbound handler supplied so far.
    pub closed spec fn outbound_opt(&self) -> Option<H> {
        self.outbound
    }

    /// Start a builder with neither handler set.
    pub fn new() -> (b: Self)
        ensures
            b.inbound_opt() is None,
            b.outbound_opt() is None,
    {
        Self { inbound: None, outbound: None }
    }

    /// Supply the inbound handler.
    pub fn with_inbound_fn(self, handler: H) -> (b: Self)
        ensures
            b.inbound_opt() == Some(handler),
            b.outbound_opt() == self.outbound_opt(),
    {
        Self { inbound: Some(handler), outbound: self.outbound }
    }

    /// Supply the outbound handler.
    pub fn with_outbound_fn(self, handler: H) -> (b: Self)
        ensures
            b.outbound_opt() == Some(handler),
            b.inbound_opt() == self.inbound_opt(),
    {
        Self { inbound: self.inbound, outbound: Some(handler) }
    }

    /// Build the layer; fails with [`ChainError::Construction`] if either
    /// handler is missing.
    pub fn build(self) -> (r: Result<Layer<H>, ChainError>)
        ensures
            match (self.inbound_opt(), self.outbound_opt()) {
                (Some(i), Some(o)) => r == Result::<Layer<H>, ChainError>::Ok(
                    (Layer { inbound_handler: i, outbound_handler: o }),
                ),
                _ => r == Result::<Layer<H>, ChainError>::Err(ChainError::Construction),
            },
    {
        match (self.inbound, self.outbound) {
            (Some(i), Some(o)) => Result::Ok(Layer { inbound_handler: i, outbound_handler: o }),
            _ => Result::Err(ChainError::Construction),
        }
    }
}

/// The neighbour index a direction selects from layer `i`, if that neighbour
/// exists: `Inbound` moves toward the tail, `Outbound` toward the head.
pub open spec fn hop_index(len: int, dir: Direction, i: int) -> Option<int> {
    match dir {
        Direction::Inbound => if i + 1 < len {
            Some(i + 1)
        } else {
            None
        },
        Direction::Outbound => if i >= 1 {
            Some(i - 1)
        } else {
            None
        },
    }
}

/// The outcome of dispatch started at layer `i` in direction `dir`, if it is
/// reached within `fuel` handler invocations; `None` otherwise.
///
/// Each step invokes the handler the current direction selects, surfaces a
/// handler failure as [`ChainError::Handler`], and otherwise either hops to
/// the neighbour the result's direction selects or, at a boundary of the
/// chain, makes the direct result final.
pub open spec fn dispatch_fuel<H: Service<Option<PayLoad>, Result<LayerResult, String>>>(
    layers: Seq<Layer<H>>,
    dir: Direction,
    i: int,
    p: Option<PayLoad>,
    fuel: nat,
) -> Option<Result<LayerResult, ChainError>>
    decreases fuel,
{
    if fuel == 0 {
        None
    } else if !(0 <= i < layers.len()) {
        None
    } else {
        match handler_result(layers[i], dir, p) {
            Result::Err(m) => Some(Result::Err(ChainError::Handler(m))),
            Result::Ok(res) => match hop_index(layers.len() as int, res.direction, i) {
                None => Some(Result::Ok(res)),
                Some(j) => dispatch_fuel(layers, res.direction, j, res.data, (fuel - 1) as nat),
            },
        }
    }
}

/// Dispatch from the given entry settles on the outcome `out`.
pub open spec fn dispatches_to<H: Service<Option<PayLoad>, Result<LayerResult, String>>>(
    layers: Seq<Layer<H>>,
    dir: Direction,
    i: int,
    p: Option<PayLoad>,
    out: Result<LayerResult, ChainError>,
) -> bool {
    exists|fuel: nat| (#[trigger] dispatch_fuel(layers, dir, i, p, fuel)) == Some(out)
}

/// Dispatch from the given entry settles at all, in some finite number of
/// hops.  Handlers that keep redirecting to one another forever have no
/// outcome, just as an unbounded recursion would never return.
pub open spec fn converges<H: Service<Option<PayLoad>, Result<LayerResult, String>>>(
    layers: Seq<Layer<H>>,
    dir: Direction,
    i: int,
    p: Option<PayLoad>,
) -> bool {
    exists|fuel: nat| (#[trigger] dispatch_fuel(layers, dir, i, p, fuel)) is Some
}

/// Round trip of assembly and lookup: in a well-formed chain with at least
/// one layer, the head is the first layer added (index 0) and the tail the
/// last one added (the highest index), however many layers were added.
pub proof fn lemma_head_is_first_tail_is_last<
    H: Service<Option<PayLoad>, Result<LayerResult, String>>,
>(chain: LayerChain<H>)
    requires
        chain.wf(),
        chain.layer_seq().len() >= 1,
    ensures
        chain.head_idx() == Some(0usize),
        chain.tail_idx() == Some((chain.layer_seq().len() - 1) as usize),
{
}

/// More fuel never changes an outcome that was already reached: the
/// fuel-indexed dispatch is monotone in its fuel.
pub proof fn lemma_dispatch_fuel_monotone<H: Service<Option<PayLoad>, Result<LayerResult, String>>>(
    layers: Seq<Layer<H>>,
    dir: Direction,
    i: int,
    p: Option<PayLoad>,
    f1: nat,
    f2: nat,
)
    requires
        f1 <= f2,
        dispatch_fuel(layers, dir, i, p, f1) is Some,
    ensures
        dispatch_fuel(layers, dir, i, p, f2) == dispatch_fuel(layers, dir, i, p, f1),
    decreases f1,
{
    if 0 <= i < layers.len() {
        match handler_result(layers[i], dir, p) {
            Result::Err(m) => {},
            Result::Ok(res) => match hop_index(layers.len() as int, res.direction, i) {
                None => {},
                Some(j) => {
                    lemma_dispatch_fuel_monotone(
                        layers,
                        res.direction,
                        j,
                        res.data,
                        (f1 - 1) as nat,
                        (f2 - 1) as nat,
                    );
                },
            },
        }
    }
}

/// Dispatch settles on at most one outcome: whichever two outcomes it is
/// said to reach, they are the same.
pub proof fn lemma_dispatch_deterministic<H: Service<Option<PayLoad>, Result<LayerResult, String>>>(
    layers: Seq<Layer<H>>,
    dir: Direction,
    i: int,
    p: Option<PayLoad>,
    o1: Result<LayerResult, ChainError>,
    o2: Result<LayerResult, ChainError>,
)
    requires
        dispatches_to(layers, dir, i, p, o1),
        dispatches_to(layers, dir, i, p, o2),
    ensures
        o1 == o2,
{
    let f1: nat = choose|fuel: nat| (#[trigger] dispatch_fuel(layers, dir, i, p, fuel)) == Some(o1);
    let f2: nat = choose|fuel: nat| (#[trigger] dispatch_fuel(layers, dir, i, p, fuel)) == Some(o2);
    if f1 <= f2 {
        lemma_dispatch_fuel_monotone(layers, dir, i, p, f1, f2);
    } else {
        lemma_dispatch_fuel_monotone(layers, dir, i, p, f2, f1);
    }
}

/// Dispatch only ever reports a handler's own failure: it never produces
/// [`ChainError::EmptyChain`], [`ChainError::Construction`], or — the
/// neighbour indices of a chain always being live — [`ChainError::BrokenLink`].
pub proof fn lemma_dispatch_errors_are_handler_errors<
    H: Service<Option<PayLoad>, Result<LayerResult, String>>,
>(
    layers: Seq<Layer<H>>,
    dir: Direction,
    i: int,
    p: Option<PayLoad>,
    out: Result<LayerResult, ChainError>,
)
    requires
        dispatches_to(layers, dir, i, p, out),
    ensures
        out matches Result::Err(e) ==> e matches ChainError::Handler(_),
{
    let fuel: nat = choose|fuel: nat| (#[trigger] dispatch_fuel(layers, dir, i, p, fuel)) == Some(out);
    lemma_dispatch_fuel_errors(layers, dir, i, p, fuel);
}

proof fn lemma_dispatch_fuel_errors<H: Service<Option<PayLoad>, Result<LayerResult, String>>>(
    layers: Seq<Layer<H>>,
    dir: Direction,
    i: int,
    p: Option<PayLoad>,
    fuel: nat,
)
    ensures
        dispatch_fuel(layers, dir, i, p, fuel) matches Some(Result::Err(e))
            ==> e matches ChainError::Handler(_),
    decreases fuel,
{
    if fuel > 0 && 0 <= i < layers.len() {
        match handler_result(layers[i], dir, p) {
            Result::Err(m) => {},
            Result::Ok(res) => match hop_index(layers.len() as int, res.direction, i) {
                None => {},
                Some(j) => {
                    lemma_dispatch_fuel_errors(layers, res.direction, j, res.data, (fuel - 1) as nat);
                },
            },
        }
    }
}

/// On a single layer no direction has a matching neighbour, so dispatch
/// always settles, in one handler invocation, on the handler's direct result.
pub proof fn lemma_single_layer_dispatch<H: Service<Option<PayLoad>, Result<LayerResult, String>>>(
    l: Layer<H>,
    dir: Direction,
    p: Option<PayLoad>,
)
    ensures
        converges(seq![l], dir, 0, p),
        dispatches_to(seq![l], dir, 0, p, solo_outcome(l, dir, p)),
{
    assert(dispatch_fuel(seq![l], dir, 0, p, 1) == Some(solo_outcome(l, dir, p)));
}

/// Inbound dispatch consults the head's own inbound handler first: if that
/// handler fails, the chain's outcome is exactly that failure.
pub proof fn lemma_inbound_enters_at_head<H: Service<Option<PayLoad>, Result<LayerResult, String>>>(
    layers: Seq<Layer<H>>,
    p: Option<PayLoad>,
    m: String,
)
    requires
        layers.len() > 0,
        layers[0].inbound_handler.spec_call(p) == Result::<LayerResult, String>::Err(m),
    ensures
        converges(layers, Direction::Inbound, 0, p),
        dispatches_to(
            layers,
            Direction::Inbound,
            0,
            p,
            Result::<LayerResult, ChainError>::Err(ChainError::Handler(m)),
        ),
{
    assert(dispatch_fuel(layers, Direction::Inbound, 0, p, 1) == Some(
        Result::<LayerResult, ChainError>::Err(ChainError::Handler(m)),
    ));
}

/// Outbound dispatch consults the tail's own outbound handler first: if that
/// handler fails, the chain's outcome is exactly that failure.
pub proof fn lemma_outbound_enters_at_tail<H: Service<Option<PayLoad>, Result<LayerResult, String>>>(
    layers: Seq<Layer<H>>,
    p: Option<PayLoad>,
    m: String,
)
    requires
        layers.len() > 0,
        layers[layers.len() - 1].outbound_handler.spec_call(p) == Result::<LayerResult, String>::Err(
            m,
        ),
    ensures
        converges(layers, Direction::Outbound, layers.len() - 1, p),
        dispatches_to(
            layers,
            Direction::Outbound,
            layers.len() - 1,
            p,
            Result::<LayerResult, ChainError>::Err(ChainError::Handler(m)),
        ),
{
    assert(dispatch_fuel(layers, Direction::Outbound, layers.len() - 1, p, 1) == Some(
        Result::<LayerResult, ChainError>::Err(ChainError::Handler(m)),
    ));
}

/// Multi-hop redirection across two layers, entering inbound at the head.
///
/// The head passes the message up, the tail's inbound handler answers with an
/// outbound verdict, and the head's outbound handler then has the last word:
/// the chain's outcome is the head's own outbound result, not the tail's raw
/// output.
pub proof fn lemma_two_layer_redirect<H: Service<Option<PayLoad>, Result<LayerResult, String>>>(
    layers: Seq<Layer<H>>,
    p: Option<PayLoad>,
    r0: LayerResult,
    r1: LayerResult,
    r2: LayerResult,
)
    requires
        layers.len() == 2,
        layers[0].inbound_handler.spec_call(p) == Result::<LayerResult, String>::Ok(r0),
        r0.direction == Direction::Inbound,
        layers[1].inbound_handler.spec_call(r0.data) == Result::<LayerResult, String>::Ok(r1),
        r1.direction == Direction::Outbound,
        layers[0].outbound_handler.spec_call(r1.data) == Result::<LayerResult, String>::Ok(r2),
        r2.direction == Direction::Outbound,
    ensures
        converges(layers, Direction::Inbound, 0, p),
        dispatches_to(layers, Direction::Inbound, 0, p, Result::<LayerResult, ChainError>::Ok(r2)),
{
    assert(dispatch_fuel(layers, Direction::Outbound, 0, r1.data, 1) == Some(
        Result::<LayerResult, ChainError>::Ok(r2),
    ));
    assert(dispatch_fuel(layers, Direction::Inbound, 1, r0.data, 2) == Some(
        Result::<LayerResult, ChainError>::Ok(r2),
    ));
    assert(dispatch_fuel(layers, Direction::Inbound, 0, p, 3) == Some(
        Result::<LayerResult, ChainError>::Ok(r2),
    ));
}

/// Head/tail registry over the layers, in arrival order; the entry point for
/// dispatch.
///
/// The chain follows the single-owner discipline: assembly takes `&mut self`
/// and dispatch `&self`, both confined to whatever thread owns the chain,
/// and the structure is read-only during dispatch.  No internal
/// synchronization is performed; to share a chain across threads, the owner
/// must bring its own.
pub struct LayerChain<H> {
    layers: Vec<Layer<H>>,
    head: Option<usize>,
    tail: Option<usize>,
}

impl<H: Service<Option<PayLoad>, Result<LayerResult, String>>> LayerChain<H> {
    /// The layers, first-added first.
    pub closed spec fn layer_seq(&self) -> Seq<Layer<H>> {
        self.layers@
    }

    /// The index of the head: the first layer added.
    pub closed spec fn head_idx(&self) -> Option<usize> {
        self.head
    }

    /// The index of the tail: the most recently added layer.
    pub closed spec fn tail_idx(&self) -> Option<usize> {
        self.tail
    }

    /// The head is the first layer, the tail the last; both are absent
    /// exactly when the chain is empty.
    pub open spec fn wf(&self) -> bool {
        &&& self.head_idx() == (if self.layer_seq().len() == 0 {
            Option::<usize>::None
        } else {
            Some(0usize)
        })
        &&& self.tail_idx() == (if self.layer_seq().len() == 0 {
            Option::<usize>::None
        } else {
            Some((self.layer_seq().len() - 1) as usize)
        })
    }

    /// An empty chain: no layers, no head, no tail.
    pub fn new() -> (c: Self)
        ensures
            c.wf(),
            c.layer_seq() == Seq::<Layer<H>>::empty(),
            c.head_idx() is None,
            c.tail_idx() is None,
    {
        Self { layers: Vec::new(), head: None, tail: None }
    }

    /// Append a layer.  On an empty chain it becomes both head and tail;
    /// otherwise it becomes the new tail and the head is unchanged.
    pub fn add_layer(&mut self, layer: Layer<H>)
        requires
            old(self).wf(),
        ensures
            final(self).wf(),
            final(self).layer_seq() == old(self).layer_seq().push(layer),
            final(self).head_idx() == Some(0usize),
            final(self).tail_idx() == Some(old(self).layer_seq().len() as usize),
    {
        match self.tail {
            Some(_) => {
                self.layers.push(layer);
                self.tail = Some(self.layers.len() - 1);
            },
            None => {
                self.layers.push(layer);
                self.head = Some(0);
                self.tail = Some(0);
            },
        }
    }

    /// The index of the first layer added, if any.
    pub fn head(&self) -> (r: Option<usize>)
        requires
            self.wf(),
        ensures
            r == self.head_idx(),
            self.layer_seq().len() == 0 ==> r is None,
            self.layer_seq().len() > 0 ==> r == Some(0usize),
    {
        self.head
    }

    /// The index of the most recently added layer, if any.
    pub fn tail(&self) -> (r: Option<usize>)
        requires
            self.wf(),
        ensures
            r == self.tail_idx(),
            self.layer_seq().len() == 0 ==> r is None,
            self.layer_seq().len() > 0 ==> r == Some((self.layer_seq().len() - 1) as usize),
    {
        self.tail
    }

    /// Run dispatch from layer `idx`, with `fuel` bounding the number of
    /// handler invocations left; returns exactly the outcome the fuel-indexed
    /// specification gives.
    fn dispatch(
        &self,
        dir: Direction,
        idx: usize,
        req: Option<PayLoad>,
        Ghost(fuel): Ghost<nat>,
    ) -> (r: Result<LayerResult, ChainError>)
        requires
            idx < self.layer_seq().len(),
            dispatch_fuel(self.layer_seq(), dir, idx as int, req, fuel) is Some,
        ensures
            Some(r) == dispatch_fuel(self.layer_seq(), dir, idx as int, req, fuel),
        decreases fuel,
    {
        let ghost ls = self.layer_seq();
        let ghost req0 = req;
        let layer = &self.layers[idx];
        let hr = match dir {
            Direction::Inbound => layer.inbound_handler.call(req),
            Direction::Outbound => layer.outbound_handler.call(req),
        };
        proof {
            assert(hr == handler_result(ls[idx as int], dir, req0));
        }
        match hr {
            Result::Err(m) => Result::Err(ChainError::Handler(m)),
            Result::Ok(res) => {
                let LayerResult { direction, data } = res;
                let n: usize = self.layers.len();
                match direction {
                    Direction::Inbound => {
                        if idx < n - 1 {
                            self.dispatch(Direction::Inbound, idx + 1, data, Ghost((fuel - 1) as nat))
                        } else {
                            Result::Ok(LayerResult { direction, data })
                        }
                    },
                    Direction::Outbound => {
                        if idx > 0 {
                            self.dispatch(Direction::Outbound, idx - 1, data, Ghost((fuel - 1) as nat))
                        } else {
                            Result::Ok(LayerResult { direction, data })
                        }
                    },
                }
            },
        }
    }

    /// Dispatch a message entering at the head.
    ///
    /// Fails with [`ChainError::EmptyChain`] exactly when the chain has no
    /// layers; otherwise the outcome is the one dispatch from the head
    /// settles on.
    pub fn handle_inbound(&self, req: Option<PayLoad>) -> (r: Result<LayerResult, ChainError>)
        requires
            self.wf(),
            self.layer_seq().len() > 0 ==> converges(
                self.layer_seq(),
                Direction::Inbound,
                0,
                req,
            ),
        ensures
            self.layer_seq().len() == 0 ==> r == Result::<LayerResult, ChainError>::Err(
                ChainError::EmptyChain,
            ),
            self.layer_seq().len() > 0 ==> dispatches_to(
                self.layer_seq(),
                Direction::Inbound,
                0,
                req,
                r,
            ),
    {
        match self.head {
            None => Result::Err(ChainError::EmptyChain),
            Some(h) => {
                let ghost fuel: nat = choose|n: nat|
                    (#[trigger] dispatch_fuel(self.layer_seq(), Direction::Inbound, 0, req, n))
                        is Some;
                self.dispatch(Direction::Inbound, h, req, Ghost(fuel))
            },
        }
    }

    /// Dispatch a message entering at the tail; the mirror of
    /// [`LayerChain::handle_inbound`].
    pub fn handle_outbound(&self, req: Option<PayLoad>) -> (r: Result<LayerResult, ChainError>)
        requires
            self.wf(),
            self.layer_seq().len() > 0 ==> converges(
                self.layer_seq(),
                Direction::Outbound,
                self.layer_seq().len() - 1,
                req,
            ),
        ensures
            self.layer_seq().len() == 0 ==> r == Result::<LayerResult, ChainError>::Err(
                ChainError::EmptyChain,
            ),
            self.layer_seq().len() > 0 ==> dispatches_to(
                self.layer_seq(),
                Direction::Outbound,
                self.layer_seq().len() - 1,
                req,
                r,
            ),
    {
        match self.tail {
            None => Result::Err(ChainError::EmptyChain),
            Some(t) => {
                let len: usize = self.layers.len();
                proof {
                    assert(len == self.layer_seq().len());
                    assert(t as int == self.layer_seq().len() - 1);
                }
                let ghost fuel: nat = choose|f: nat|
                    (#[trigger] dispatch_fuel(
                        self.layer_seq(),
                        Direction::Outbound,
                        self.layer_seq().len() - 1,
                        req,
                        f,
                    )) is Some;
                self.dispatch(Direction::Outbound, t, req, Ghost(fuel))
            },
        }
    }
}

} // verus!

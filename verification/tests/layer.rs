use rioc::ChainError;
use rioc::Direction;
use rioc::Layer;
use rioc::LayerBuilder;
use rioc::LayerChain;
use rioc::LayerResult;
use rioc::PayLoad;
use rioc::ProtocolAware;
use rioc::Service;
use rioc::protocol_handler;

/// Every handler in these tests is a plain function of this type, so layers
/// with different behaviours still share one handler type.
type Handler = fn(Option<PayLoad>) -> Result<LayerResult, String>;

fn echo_inbound(req: Option<PayLoad>) -> Result<LayerResult, String> {
    let req = req.unwrap();
    Ok(LayerResult {
        direction: Direction::Inbound,
        data: Some(PayLoad { data: req.data, ctx: req.ctx }),
    })
}

fn echo_outbound(req: Option<PayLoad>) -> Result<LayerResult, String> {
    let req = req.unwrap();
    Ok(LayerResult {
        direction: Direction::Outbound,
        data: Some(PayLoad { data: req.data, ctx: req.ctx }),
    })
}

fn tagged_outbound(req: Option<PayLoad>) -> Result<LayerResult, String> {
    let req = req.unwrap();
    Ok(LayerResult {
        direction: Direction::Outbound,
        data: Some(PayLoad {
            data: req.data.map(|d| format!("{} (l0 outbound)", d)),
            ctx: req.ctx,
        }),
    })
}

fn head_failing_inbound(_req: Option<PayLoad>) -> Result<LayerResult, String> {
    Err("head inbound failed".to_string())
}

fn tail_failing_inbound(_req: Option<PayLoad>) -> Result<LayerResult, String> {
    Err("tail inbound failed".to_string())
}

fn failing_outbound(_req: Option<PayLoad>) -> Result<LayerResult, String> {
    Err("outbound broke".to_string())
}

fn echo_layer() -> Layer<ProtocolAware<Handler>> {
    Layer::new(
        protocol_handler(echo_inbound as Handler),
        protocol_handler(echo_outbound as Handler),
    )
}

#[test]
fn test_empty_chain() {
    let chain: LayerChain<ProtocolAware<Handler>> = LayerChain::new();
    let req = PayLoad { data: Some("test".to_string()), ctx: None };

    assert!(chain.handle_inbound(Some(req.clone())).is_err());
    assert!(chain.handle_outbound(Some(req)).is_err());
}

#[test]
fn test_single_layer_chain() {
    let layer = LayerBuilder::new()
        .with_inbound_fn(protocol_handler(
            (|req: Option<PayLoad>| {
                println!("layer inbound: {:?}", req);
                let req = req.unwrap();
                Ok(LayerResult {
                    direction: Direction::Inbound,
                    data: Some(PayLoad { data: req.data, ctx: req.ctx }),
                })
            }) as Handler,
        ))
        .with_outbound_fn(protocol_handler(
            (|req: Option<PayLoad>| {
                println!("layer outbound: {:?}", req);
                let req = req.unwrap();
                Ok(LayerResult {
                    direction: Direction::Outbound,
                    data: Some(PayLoad { data: req.data, ctx: req.ctx }),
                })
            }) as Handler,
        ))
        .build()
        .unwrap();

    let mut chain = LayerChain::new();
    chain.add_layer(layer);

    let req = PayLoad { data: Some("test".to_string()), ctx: None };

    assert!(chain.handle_inbound(Some(req.clone())).is_ok());
    assert!(chain.handle_outbound(Some(req)).is_ok());
}

#[test]
fn test_layer_builder() {
    let layer0 = LayerBuilder::new()
        .with_inbound_fn(protocol_handler(
            (|req: Option<PayLoad>| {
                println!("layer0 inbound: {:?}", req);
                let req = req.unwrap();
                Ok(LayerResult {
                    direction: Direction::Inbound,
                    data: Some(PayLoad { data: req.data, ctx: None }),
                })
            }) as Handler,
        ))
        .with_outbound_fn(protocol_handler(
            (|req: Option<PayLoad>| {
                println!("layer0 outbound: {:?}", req);
                let req = req.unwrap();
                Ok(LayerResult {
                    direction: Direction::Outbound,
                    data: Some(PayLoad { data: req.data, ctx: None }),
                })
            }) as Handler,
        ))
        .build()
        .unwrap();

    let layer1 = LayerBuilder::new()
        .with_inbound_fn(protocol_handler(
            (|req: Option<PayLoad>| {
                println!("layer1 inbound: {:?}", req);
                let req = req.unwrap();
                Ok(LayerResult {
                    direction: Direction::Inbound,
                    data: Some(PayLoad { data: req.data, ctx: None }),
                })
            }) as Handler,
        ))
        .with_outbound_fn(protocol_handler(
            (|req: Option<PayLoad>| {
                println!("layer1 outbound: {:?}", req);
                let req = req.unwrap();
                Ok(LayerResult {
                    direction: Direction::Outbound,
                    data: Some(PayLoad { data: req.data, ctx: None }),
                })
            }) as Handler,
        ))
        .build()
        .unwrap();

    let mut chain = LayerChain::new();
    chain.add_layer(layer0);
    chain.add_layer(layer1);

    let req = PayLoad { data: Some("hello".to_string()), ctx: None };
    chain.handle_inbound(Some(req)).unwrap();
    let req = PayLoad { data: Some("hello".to_string()), ctx: None };
    chain.handle_outbound(Some(req)).unwrap();
}

#[test]
fn empty_chain_reports_empty_chain_error() {
    let chain: LayerChain<ProtocolAware<Handler>> = LayerChain::new();
    let req = PayLoad { data: Some("test".to_string()), ctx: None };

    assert_eq!(chain.handle_inbound(Some(req.clone())), Err(ChainError::EmptyChain));
    assert_eq!(chain.handle_outbound(Some(req)), Err(ChainError::EmptyChain));
}

#[test]
fn single_layer_returns_handler_direct_result() {
    // The handler's direction has no matching neighbour in a one-layer
    // chain, so the chain's result is the handler's direct result.
    let mut chain = LayerChain::new();
    chain.add_layer(echo_layer());

    let req = PayLoad { data: Some("test".to_string()), ctx: None };
    let result = chain.handle_inbound(Some(req)).unwrap();
    assert_eq!(
        result,
        LayerResult {
            direction: Direction::Inbound,
            data: Some(PayLoad { data: Some("test".to_string()), ctx: None }),
        }
    );
}

#[test]
fn head_is_first_added_and_tail_is_last_added() {
    let mut chain = LayerChain::new();
    assert_eq!(chain.head(), None);
    assert_eq!(chain.tail(), None);

    for n in 0..3usize {
        chain.add_layer(echo_layer());
        assert_eq!(chain.head(), Some(0));
        assert_eq!(chain.tail(), Some(n));
    }
}

#[test]
fn inbound_dispatch_reaches_head_first() {
    // The head is the first layer added; a failing inbound handler there is
    // the first one consulted, so its message is the chain's outcome.
    let mut chain = LayerChain::new();
    chain.add_layer(Layer::new(
        protocol_handler(head_failing_inbound as Handler),
        protocol_handler(echo_outbound as Handler),
    ));
    chain.add_layer(Layer::new(
        protocol_handler(tail_failing_inbound as Handler),
        protocol_handler(echo_outbound as Handler),
    ));

    let req = PayLoad { data: Some("test".to_string()), ctx: None };
    assert_eq!(
        chain.handle_inbound(Some(req)),
        Err(ChainError::Handler("head inbound failed".to_string()))
    );
}

#[test]
fn two_layer_inbound_redirects_to_lower_outbound() {
    // L0 added first, L1 second.  L1's inbound handler redirects outbound,
    // echoing "hello", so the chain's inbound result is L0's own outbound
    // handling of "hello", not L1's raw output.
    let standalone_l0 = Layer::new(
        protocol_handler(echo_inbound as Handler),
        protocol_handler(tagged_outbound as Handler),
    );

    let mut chain = LayerChain::new();
    chain.add_layer(Layer::new(
        protocol_handler(echo_inbound as Handler),
        protocol_handler(tagged_outbound as Handler),
    ));
    chain.add_layer(Layer::new(
        protocol_handler(echo_outbound as Handler),
        protocol_handler(echo_outbound as Handler),
    ));

    let req = PayLoad { data: Some("hello".to_string()), ctx: None };
    let result = chain.handle_inbound(Some(req.clone())).unwrap();

    let expected = standalone_l0.handle_outbound(Some(req.clone())).unwrap();
    assert_eq!(result, expected);
    assert_eq!(
        result.data,
        Some(PayLoad { data: Some("hello (l0 outbound)".to_string()), ctx: None })
    );

    // L1's raw output is the plain echo, which is not what the chain
    // returned: the layer below had the last word.
    let l1_raw = protocol_handler(echo_outbound as Handler).call(Some(req)).unwrap();
    assert_ne!(result, l1_raw);
}

#[test]
fn failing_handler_message_is_preserved() {
    let mut chain = LayerChain::new();
    chain.add_layer(Layer::new(
        protocol_handler(echo_inbound as Handler),
        protocol_handler(failing_outbound as Handler),
    ));

    let req = PayLoad { data: Some("x".to_string()), ctx: None };
    assert_eq!(
        chain.handle_outbound(Some(req)),
        Err(ChainError::Handler("outbound broke".to_string()))
    );
}

#[test]
fn builder_without_inbound_fails_construction() {
    let r = LayerBuilder::new()
        .with_outbound_fn(protocol_handler(echo_outbound as Handler))
        .build();
    assert_eq!(r.err(), Some(ChainError::Construction));
}

#[test]
fn builder_without_outbound_fails_construction() {
    let r = LayerBuilder::<ProtocolAware<Handler>>::new().build();
    assert_eq!(r.err(), Some(ChainError::Construction));
}

#[test]
fn detached_layer_dispatches_its_own_handlers() {
    let layer = echo_layer();
    let req = PayLoad { data: Some("alone".to_string()), ctx: None };

    let inbound = layer.handle_inbound(Some(req.clone())).unwrap();
    assert_eq!(inbound.direction, Direction::Inbound);
    assert_eq!(inbound.data, Some(req.clone()));

    let outbound = layer.handle_outbound(Some(req.clone())).unwrap();
    assert_eq!(outbound.direction, Direction::Outbound);
    assert_eq!(outbound.data, Some(req));
}

#[test]
fn multi_hop_terminates_at_the_chain_boundary() {
    // Three layers of pass-up inbound handlers: the message crosses every
    // layer and the final outcome is the tail's result, the boundary of the
    // chain.
    let mut chain = LayerChain::new();
    for _ in 0..3 {
        chain.add_layer(echo_layer());
    }

    let req = PayLoad { data: Some("up".to_string()), ctx: None };
    let result = chain.handle_inbound(Some(req)).unwrap();
    assert_eq!(
        result,
        LayerResult {
            direction: Direction::Inbound,
            data: Some(PayLoad { data: Some("up".to_string()), ctx: None }),
        }
    );
}

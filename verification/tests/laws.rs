use signal_router::contract::{
    Actor, EndpointKind, EndpointTransport, Query, Response, RouterBootstrapOperation,
    RouterForwardRefusalReason, RouterForwardRefused, RouterMessageTraceQuery,
    RouterObservationScope, RouterSummaryQuery,
};
use signal_router::frame::{ContractMarker, Frame, FrameBody, NonEmpty, SignalFrameError, SubReply};
use signal_router::refusal::{EngineRefusal, EngineRefusalReason};
use signal_router::routes::{request_heads, InputRoute, OutputRoute, WireRoute};
use signal_router::seats::{
    declaration_seats, interface_seat, AuthoritySeat, DeclarationSeat, AUTHORITY_REVISION,
};
use signal_router::wire::{wire_clone, WireShape, WireShapeError, WireValue};

fn text(s: &str) -> WireValue {
    WireValue::Text(s.to_owned())
}

fn summary() -> Query {
    Query::Summary(RouterSummaryQuery { engine: "engine-1".to_owned() })
}

#[test]
fn an_actor_projects_onto_the_product_of_its_fields() {
    let actor = Actor {
        name: "tessa".to_owned(),
        process: 4242,
        endpoint: Some(EndpointTransport {
            endpoint_kind: EndpointKind::HarnessSocket,
            target: "/run/persona/harness.sock".to_owned(),
            auxiliary: None,
        }),
    };
    let expected = WireValue::Product(vec![
        text("tessa"),
        WireValue::Integer(4242),
        WireValue::Present(Box::new(WireValue::Product(vec![
            WireValue::Variant { ordinal: 2, fields: Vec::new() },
            text("/run/persona/harness.sock"),
            WireValue::Absent,
        ]))),
    ]);
    assert_eq!(actor.to_wire(), expected);
    assert_eq!(Actor::from_wire(expected), Ok(actor));
}

#[test]
fn a_refusal_record_crosses_the_wire_as_its_bare_reason() {
    let refused = RouterForwardRefused {
        forward_refusal_reason: RouterForwardRefusalReason::ReplayDetected,
    };
    assert_eq!(refused.to_wire(), WireValue::Variant { ordinal: 5, fields: Vec::new() });
    let reply = Response::ForwardRefused(refused);
    assert_eq!(
        reply.to_wire(),
        WireValue::Variant {
            ordinal: 6,
            fields: vec![WireValue::Variant { ordinal: 5, fields: Vec::new() }],
        }
    );
}

#[test]
fn negative_integers_cross_the_wire_by_their_bit_pattern() {
    let query = Query::MessageTrace(RouterMessageTraceQuery {
        engine: "engine-1".to_owned(),
        message_slot: -1,
    });
    let wire = query.to_wire();
    assert_eq!(
        wire,
        WireValue::Variant {
            ordinal: 8,
            fields: vec![WireValue::Product(vec![text("engine-1"), WireValue::Integer(u64::MAX)])],
        }
    );
    assert_eq!(Query::from_wire(wire), Ok(query));
}

#[test]
fn route_codes_are_the_wire_ordinals_of_the_heads() {
    let query = summary();
    assert_eq!(query.route(), InputRoute::Summary);
    assert_eq!(InputRoute::Summary.code(), 3);
    match query.to_wire() {
        WireValue::Variant { ordinal, .. } => assert_eq!(ordinal, 3),
        other => panic!("a request projects onto a variant, not {other:?}"),
    }
    assert_eq!(query.wire_route(), WireRoute { root: 0, variant: 3 });
    assert_eq!(OutputRoute::ForwardAccepted.code(), 14);
}

#[test]
fn a_request_route_is_logged_with_its_head_in_the_second_byte() {
    assert_eq!(summary().log_variant(), 3 * 256);
    let trace = Query::MessageTrace(RouterMessageTraceQuery {
        engine: "engine-1".to_owned(),
        message_slot: 7,
    });
    assert_eq!(trace.log_variant(), 8 * 256);
}

#[test]
fn wire_values_of_another_shape_are_refused() {
    assert_eq!(Query::from_wire(WireValue::Integer(0)), Err(WireShapeError));
    assert_eq!(
        Query::from_wire(WireValue::Variant { ordinal: 9, fields: vec![WireValue::Absent] }),
        Err(WireShapeError)
    );
    assert_eq!(
        Query::from_wire(WireValue::Variant { ordinal: 3, fields: Vec::new() }),
        Err(WireShapeError)
    );
    assert_eq!(
        Query::from_wire(WireValue::Variant {
            ordinal: 3,
            fields: vec![WireValue::Product(vec![text("a")]), WireValue::Product(vec![text("b")])],
        }),
        Err(WireShapeError)
    );
    assert_eq!(
        Query::from_wire(WireValue::Variant {
            ordinal: 3,
            fields: vec![WireValue::Product(vec![text("a"), text("b")])],
        }),
        Err(WireShapeError)
    );
    assert_eq!(
        EndpointKind::from_wire(WireValue::Variant { ordinal: 5, fields: Vec::new() }),
        Err(WireShapeError)
    );
    assert_eq!(
        RouterObservationScope::from_wire(WireValue::Variant {
            ordinal: 0,
            fields: vec![WireValue::Absent],
        }),
        Err(WireShapeError)
    );
    assert_eq!(
        <Vec<RouterBootstrapOperation>>::from_wire(WireValue::Sequence(vec![WireValue::Absent])),
        Err(WireShapeError)
    );
    assert_eq!(<Option<String>>::from_wire(WireValue::Boolean(true)), Err(WireShapeError));
    assert_eq!(bool::from_wire(WireValue::Boolean(true)), Ok(true));
    assert_eq!(u64::from_wire(text("7")), Err(WireShapeError));
}

#[test]
fn a_wire_clone_restores_the_same_value() {
    let query = summary();
    assert_eq!(wire_clone(&query), query);
}

#[test]
fn a_frame_carries_exactly_one_request() {
    let exchange = 5u64;
    assert!(NonEmpty::<Query>::from_vec(Vec::new()).is_none());
    let payloads = NonEmpty::from_vec(vec![summary(), summary()]).expect("two payloads");
    assert_eq!(payloads.len(), 2);
    let two: Frame<u64> = Frame {
        route: WireRoute { root: 0, variant: 3 },
        body: FrameBody::Request { exchange, payloads },
    };
    assert_eq!(
        ContractMarker::decode_single_request(two),
        Err(SignalFrameError::OperationCount { found: 2 })
    );
    let reply = Response::ForwardRefused(RouterForwardRefused {
        forward_refusal_reason: RouterForwardRefusalReason::UnknownPeer,
    });
    assert_eq!(
        ContractMarker::decode_single_request(reply.into_reply_frame(exchange)),
        Err(SignalFrameError::UnexpectedFrameBody)
    );
    assert_eq!(
        ContractMarker::decode_single_request(summary().into_frame(exchange)),
        Ok((exchange, summary()))
    );
}

#[test]
fn engine_refusals_carry_their_reason_and_detail() {
    let rejected = EngineRefusal::rejected("bad head".to_owned());
    assert_eq!(rejected.reason, EngineRefusalReason::Rejected);
    assert_eq!(rejected.detail, "bad head");
    let unavailable = EngineRefusal::unavailable("store closed".to_owned());
    assert_eq!(unavailable.reason, EngineRefusalReason::Unavailable);
    assert_eq!(unavailable.detail, "store closed");
}

#[test]
fn seats_hold_their_minted_values() {
    let seat = AuthoritySeat::new("Interface", 52373, 0xbf67db0d6e547001);
    assert_eq!(interface_seat(), seat);
    assert_eq!(AUTHORITY_REVISION, 1);
    let seats = declaration_seats();
    assert_eq!(seats.len(), 190);
    assert_eq!(
        seats[0],
        DeclarationSeat::new(None, "ObservationIdentifier", 34492, 0x5b52183c1fce1d05)
    );
    assert_eq!(seats[9].owner_local, Some(3986));
    assert_eq!(seats[9].spelling, "UnixUser");
}

#[test]
fn the_head_table_names_each_request_route() {
    let heads = request_heads();
    assert_eq!(
        heads,
        vec![
            "ChannelState",
            "SubmitRoutedObjects",
            "ForwardMessage",
            "Summary",
            "SessionClientProof",
            "SessionClientHello",
            "SessionData",
            "RegisterActor",
            "MessageTrace",
        ]
    );
    let route = summary().route();
    assert_eq!(route.head(), "Summary");
    assert_eq!(heads[route.code() as usize], route.head());
    assert_eq!(InputRoute::MessageTrace.head(), "MessageTrace");
}

#[test]
fn a_reply_frame_is_committed_with_one_answer() {
    let reply = Response::ForwardRefused(RouterForwardRefused {
        forward_refusal_reason: RouterForwardRefusalReason::UnknownPeer,
    });
    let frame = reply.clone().into_reply_frame(9u64);
    match frame.body {
        FrameBody::Reply { exchange, reply: envelope } => {
            assert_eq!(exchange, 9);
            assert!(envelope.committed);
            assert_eq!(envelope.sub_replies.len(), 1);
            match envelope.sub_replies.into_head() {
                SubReply::Answered(answered) => assert_eq!(answered, reply),
            }
        }
        FrameBody::Request { .. } => panic!("a reply frame carries a reply"),
    }
}

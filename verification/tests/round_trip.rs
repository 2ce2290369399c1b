use signal_router::contract::{
    Actor, ActorRegistered, ActorRegistrationDisposition, ActorRegistrationRefusalReason,
    ActorRegistrationRefused, ForwardMarker, ForwardedMessagePayload, Query, Response,
    RouterChannelState, RouterChannelStateQuery, RouterChannelStatus, RouterDeliveryStatus,
    RouterForwardAccepted, RouterForwardRefusalReason, RouterForwardRefused, RouterForwardRequest,
    RouterIdentityProof, RouterMessageTrace, RouterMessageTraceMissing, RouterMessageTraceQuery,
    RouterObservationScope, RouterObservationUnimplemented, RouterObservationUnimplementedReason,
    RouterPeerAttestation, RouterRoutedObjectsAccepted, RouterRoutedObjectsRefused,
    RouterSessionAccepted, RouterSessionClientHello, RouterSessionClientProof, RouterSessionData,
    RouterSessionRefused, RouterSessionServerHello, RouterSummary, RouterSummaryQuery,
    SessionRefusalReason, SignatureScheme,
};
use signal_router::frame::{ContractMarker, FrameBody, SubReply};
use signal_router::routes::WireRoute;
use signal_router::wire::WireShape;

fn fixture() -> String {
    "fixture".to_owned()
}

fn payload() -> ForwardedMessagePayload {
    ForwardedMessagePayload {
        source_actor: fixture(),
        destination_actor: fixture(),
        body: fixture(),
        attachments: Vec::new(),
        routed_objects: Vec::new(),
    }
}

fn identity_proof() -> RouterIdentityProof {
    RouterIdentityProof {
        proof_signer: fixture(),
        proof_scheme: SignatureScheme::Bls12_381MinSig,
        proof_public_key: fixture(),
        proof_signature: fixture(),
        proof_digest: fixture(),
        proof_challenge_nonce: fixture(),
        proof_attestation_issued_at: 7,
    }
}

fn requests() -> Vec<(Query, &'static str)> {
    vec![
        (
            Query::ChannelState(RouterChannelStateQuery { engine: fixture(), channel: fixture() }),
            "ChannelState",
        ),
        (Query::SubmitRoutedObjects(payload()), "SubmitRoutedObjects"),
        (
            Query::ForwardMessage(RouterForwardRequest {
                submission: payload(),
                attestation: RouterPeerAttestation {
                    signer: fixture(),
                    scheme: SignatureScheme::Bls12_381MinSig,
                    public_key: fixture(),
                    signature: fixture(),
                    content_digest: fixture(),
                    issued_at: 7,
                    nonce: fixture(),
                    attestation_issued_at: 7,
                },
                forward_marker: ForwardMarker::Origin,
                nonce: fixture(),
                issued_at: 7,
            }),
            "ForwardMessage",
        ),
        (Query::Summary(RouterSummaryQuery { engine: fixture() }), "Summary"),
        (
            Query::SessionClientProof(RouterSessionClientProof { initiator_proof: identity_proof() }),
            "SessionClientProof",
        ),
        (
            Query::SessionClientHello(RouterSessionClientHello {
                initiator_challenge: fixture(),
                initiator_ephemeral_key: fixture(),
            }),
            "SessionClientHello",
        ),
        (Query::SessionData(RouterSessionData { sealed_octets: Vec::new() }), "SessionData"),
        (
            Query::RegisterActor(Actor { name: fixture(), process: 7, endpoint: None }),
            "RegisterActor",
        ),
        (
            Query::MessageTrace(RouterMessageTraceQuery { engine: fixture(), message_slot: 7 }),
            "MessageTrace",
        ),
    ]
}

fn replies() -> Vec<(Response, &'static str)> {
    vec![
        (
            Response::ChannelState(RouterChannelState {
                engine: fixture(),
                channel: fixture(),
                channel_status: RouterChannelStatus::Installed,
            }),
            "ChannelState",
        ),
        (
            Response::MessageTrace(RouterMessageTrace {
                engine: fixture(),
                message_slot: 7,
                delivery_status: RouterDeliveryStatus::ForwardedRemote,
            }),
            "MessageTrace",
        ),
        (Response::SessionData(RouterSessionData { sealed_octets: Vec::new() }), "SessionData"),
        (
            Response::RoutedObjectsRefused(RouterRoutedObjectsRefused {
                forward_refusal_reason: RouterForwardRefusalReason::AlreadyForwarded,
            }),
            "RoutedObjectsRefused",
        ),
        (
            Response::Summary(RouterSummary {
                engine: fixture(),
                accepted_messages: 7,
                routed_messages: 7,
                deferred_messages: 7,
                failed_messages: 7,
            }),
            "Summary",
        ),
        (
            Response::ActorRegistrationRefused(ActorRegistrationRefused {
                registered_actor: fixture(),
                actor_registration_refusal_reason:
                    ActorRegistrationRefusalReason::RemoteRouterEndpointNotLocal,
            }),
            "ActorRegistrationRefused",
        ),
        (
            Response::ForwardRefused(RouterForwardRefused {
                forward_refusal_reason: RouterForwardRefusalReason::AlreadyForwarded,
            }),
            "ForwardRefused",
        ),
        (
            Response::MessageTraceMissing(RouterMessageTraceMissing {
                engine: fixture(),
                message_slot: 7,
            }),
            "MessageTraceMissing",
        ),
        (
            Response::RoutedObjectsAccepted(RouterRoutedObjectsAccepted { message_slot: 7 }),
            "RoutedObjectsAccepted",
        ),
        (
            Response::SessionRefused(RouterSessionRefused {
                refusal_reason: SessionRefusalReason::SessionCipherFailure,
            }),
            "SessionRefused",
        ),
        (
            Response::ActorRegistered(ActorRegistered {
                registered_actor: fixture(),
                actor_registration_disposition: ActorRegistrationDisposition::Registered,
            }),
            "ActorRegistered",
        ),
        (
            Response::Unimplemented(RouterObservationUnimplemented {
                observation_scope: RouterObservationScope::MessageTrace,
                observation_reason: RouterObservationUnimplementedReason::MessageTraceUnavailable,
            }),
            "Unimplemented",
        ),
        (
            Response::SessionAccepted(RouterSessionAccepted { key_confirmation: Vec::new() }),
            "SessionAccepted",
        ),
        (
            Response::SessionServerHello(RouterSessionServerHello {
                responder_challenge: fixture(),
                responder_ephemeral_key: fixture(),
                responder_proof: identity_proof(),
            }),
            "SessionServerHello",
        ),
        (
            Response::ForwardAccepted(RouterForwardAccepted { message_slot: 7 }),
            "ForwardAccepted",
        ),
    ]
}

#[test]
fn every_request_round_trips_through_the_bound_frame() {
    for (code, (request, head)) in requests().into_iter().enumerate() {
        let expected = request.clone();
        let exchange: (u64, &str, u64) = (31, "Connector", 1);
        assert_eq!(format!("{:?}", request.route()), head);
        let frame = request.into_frame(exchange);
        assert_eq!(frame.route, WireRoute { root: 0, variant: code as u8 });
        let (decoded_exchange, decoded) =
            ContractMarker::decode_single_request(frame).expect("request frame decodes");
        assert_eq!(decoded_exchange, exchange);
        assert_eq!(decoded, expected);
        let restored = Query::from_wire(expected.to_wire()).expect("request restores");
        assert_eq!(restored, expected);
    }
}

#[test]
fn every_reply_has_bound_frame_and_rkyv_behavior() {
    for (code, (reply, head)) in replies().into_iter().enumerate() {
        let expected = reply.clone();
        let exchange: (u64, &str, u64) = (37, "Connector", 1);
        assert_eq!(format!("{:?}", reply.route()), head);
        let frame = reply.clone().into_reply_frame(exchange);
        assert_eq!(frame.route, WireRoute { root: 1, variant: code as u8 });
        match frame.body {
            FrameBody::Reply { exchange: carried, reply: envelope } => {
                assert_eq!(carried, exchange);
                assert!(envelope.committed);
                let answers = envelope.sub_replies.into_vec();
                assert_eq!(answers.len(), 1);
                for answer in answers {
                    match answer {
                        SubReply::Answered(answered) => assert_eq!(answered, expected.clone()),
                    }
                }
            }
            FrameBody::Request { .. } => panic!("a reply frame carries a reply"),
        }
        let recovered = Response::from_wire(reply.to_wire()).expect("reply recovers");
        assert_eq!(recovered, expected);
    }
}

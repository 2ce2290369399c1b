use signal_router::contract::{
    Actor, ActorRegistered, ActorRegistrationDisposition, ActorRegistrationRefusalReason,
    ActorRegistrationRefused, EndpointKind, EndpointTransport, ForwardMarker,
    ForwardedMessagePayload, GrantDirectMessage, InstallStructuralChannels, OwnerIdentity, Query,
    RegisterActor, RegisterRemoteRouter, Response, RoutedContractObject, RouterBootstrapDocument,
    RouterBootstrapOperation, RouterChannelState, RouterChannelStateQuery, RouterChannelStatus,
    RouterDaemonConfiguration, RouterDeliveryStatus, RouterForwardAccepted,
    RouterForwardRefusalReason, RouterForwardRefused, RouterForwardRequest, RouterIdentityProof,
    RouterMessageTrace, RouterMessageTraceMissing, RouterMessageTraceQuery, RouterObservationScope,
    RouterObservationUnimplemented, RouterObservationUnimplementedReason, RouterPeerAttestation,
    RouterRoutedObjectsAccepted, RouterRoutedObjectsRefused, RouterSessionAccepted,
    RouterSessionClientHello, RouterSessionClientProof, RouterSessionData, RouterSessionRefused,
    RouterSessionServerHello, RouterSummary, RouterSummaryQuery, SessionRefusalReason,
    SignatureScheme,
};
use signal_router::document::BootstrapDocumentRecord;
use signal_router::wire::{WireShape, WireValue};

fn attestation() -> RouterPeerAttestation {
    RouterPeerAttestation {
        signer: String::from("goldragon"),
        scheme: SignatureScheme::Bls12_381MinPk,
        public_key: String::from("public-key"),
        signature: String::from("signature"),
        content_digest: String::from("content-digest"),
        issued_at: 1_757_600_000_000_000_000,
        nonce: String::from("nonce-1"),
        attestation_issued_at: 1_757_600_000_000_000_001,
    }
}

fn identity_proof() -> RouterIdentityProof {
    RouterIdentityProof {
        proof_signer: String::from("goldragon"),
        proof_scheme: SignatureScheme::Bls12_381MinSig,
        proof_public_key: String::from("public-key"),
        proof_signature: String::from("signature"),
        proof_digest: String::from("digest"),
        proof_challenge_nonce: String::from("nonce-2"),
        proof_attestation_issued_at: 1_757_600_000_000_000_002,
    }
}

fn forwarded_payload() -> ForwardedMessagePayload {
    ForwardedMessagePayload {
        source_actor: String::from("li"),
        destination_actor: String::from("tessa"),
        body: String::from("rebase onto main, please"),
        attachments: vec![String::from("attachment-1")],
        routed_objects: vec![RoutedContractObject {
            contract_name: String::from("signal-router"),
            contract_operation: String::from("ForwardMessage"),
            contract_payload_size: 3,
            payload_octets: vec![1, 2, 3],
        }],
    }
}

fn actor() -> Actor {
    Actor {
        name: String::from("tessa"),
        process: 4242,
        endpoint: Some(EndpointTransport {
            endpoint_kind: EndpointKind::HarnessSocket,
            target: String::from("/run/persona/harness.sock"),
            auxiliary: None,
        }),
    }
}

fn queries() -> Vec<Query> {
    vec![
        Query::Summary(RouterSummaryQuery {
            engine: String::from("engine-1"),
        }),
        Query::MessageTrace(RouterMessageTraceQuery {
            engine: String::from("engine-1"),
            message_slot: 7,
        }),
        Query::ChannelState(RouterChannelStateQuery {
            engine: String::from("engine-1"),
            channel: String::from("channel-aab"),
        }),
        Query::ForwardMessage(RouterForwardRequest {
            submission: forwarded_payload(),
            attestation: attestation(),
            forward_marker: ForwardMarker::Forwarded,
            nonce: String::from("nonce-3"),
            issued_at: 1_757_600_000_000_000_003,
        }),
        Query::SubmitRoutedObjects(forwarded_payload()),
        Query::SessionClientHello(RouterSessionClientHello {
            initiator_challenge: String::from("challenge-1"),
            initiator_ephemeral_key: String::from("ephemeral-1"),
        }),
        Query::SessionClientProof(RouterSessionClientProof {
            initiator_proof: identity_proof(),
        }),
        Query::SessionData(RouterSessionData {
            sealed_octets: vec![9, 8, 7],
        }),
        Query::RegisterActor(actor()),
    ]
}

fn responses() -> Vec<Response> {
    vec![
        Response::Summary(RouterSummary {
            engine: String::from("engine-1"),
            accepted_messages: 10,
            routed_messages: 9,
            deferred_messages: 1,
            failed_messages: 0,
        }),
        Response::MessageTrace(RouterMessageTrace {
            engine: String::from("engine-1"),
            message_slot: 7,
            delivery_status: RouterDeliveryStatus::Delivered,
        }),
        Response::MessageTraceMissing(RouterMessageTraceMissing {
            engine: String::from("engine-1"),
            message_slot: 8,
        }),
        Response::ChannelState(RouterChannelState {
            engine: String::from("engine-1"),
            channel: String::from("channel-aab"),
            channel_status: RouterChannelStatus::Installed,
        }),
        Response::ForwardAccepted(RouterForwardAccepted { message_slot: 7 }),
        Response::ForwardRefused(RouterForwardRefused {
            forward_refusal_reason: RouterForwardRefusalReason::ReplayDetected,
        }),
        Response::Unimplemented(RouterObservationUnimplemented {
            observation_scope: RouterObservationScope::MessageTrace,
            observation_reason: RouterObservationUnimplementedReason::MessageTraceUnavailable,
        }),
        Response::RoutedObjectsAccepted(RouterRoutedObjectsAccepted { message_slot: 11 }),
        Response::RoutedObjectsRefused(RouterRoutedObjectsRefused {
            forward_refusal_reason: RouterForwardRefusalReason::ChannelUnauthorized,
        }),
        Response::SessionServerHello(RouterSessionServerHello {
            responder_challenge: String::from("challenge-2"),
            responder_ephemeral_key: String::from("ephemeral-2"),
            responder_proof: identity_proof(),
        }),
        Response::SessionAccepted(RouterSessionAccepted {
            key_confirmation: vec![4, 5, 6],
        }),
        Response::SessionRefused(RouterSessionRefused {
            refusal_reason: SessionRefusalReason::ChallengeMismatch,
        }),
        Response::SessionData(RouterSessionData {
            sealed_octets: vec![9, 8, 7],
        }),
        Response::ActorRegistered(ActorRegistered {
            registered_actor: String::from("tessa"),
            actor_registration_disposition: ActorRegistrationDisposition::EndpointUpdated,
        }),
        Response::ActorRegistrationRefused(ActorRegistrationRefused {
            registered_actor: String::from("tessa"),
            actor_registration_refusal_reason:
                ActorRegistrationRefusalReason::RemoteRouterEndpointNotLocal,
        }),
    ]
}

fn configuration() -> RouterDaemonConfiguration {
    RouterDaemonConfiguration {
        router_socket_path: String::from("/run/router/router.sock"),
        router_socket_mode: 0o600,
        meta_router_socket_path: String::from("/run/router/meta-router.sock"),
        meta_router_socket_mode: 0o600,
        supervision_socket_path: String::from("/run/router/supervision.sock"),
        supervision_socket_mode: 0o600,
        store_path: String::from("/var/lib/router/store"),
        bootstrap_path: Some(String::from("/var/lib/router/bootstrap.datom")),
        owner_identity: OwnerIdentity::UnixUser(1000),
        tailnet_listen_address: Some(String::from("100.64.0.1")),
        router_identity: String::from("goldragon"),
        criome_socket_path: None,
    }
}

fn bootstrap_document() -> RouterBootstrapDocument {
    vec![
        RouterBootstrapOperation::RegisterActor(RegisterActor {
            actor: actor(),
            home: Some(String::from("goldragon")),
        }),
        RouterBootstrapOperation::GrantDirectMessage(GrantDirectMessage {
            source_actor: String::from("li"),
            destination_actor: String::from("tessa"),
        }),
        RouterBootstrapOperation::InstallStructuralChannels(InstallStructuralChannels {
            requester: String::from("li"),
        }),
        RouterBootstrapOperation::RegisterRemoteRouter(RegisterRemoteRouter {
            identity: String::from("hexis"),
            address: String::from("100.64.0.2"),
        }),
    ]
}

/// What a peer receives for a value is the archive of the value's wire
/// value; the archive is made and checked at the byte edge, outside this
/// library, so the round trips here stop at the wire value: the value is
/// projected onto its wire value and restored from it as the same type.
fn received<T: WireShape>(value: &T) -> T {
    let wire: WireValue = value.to_wire();
    T::from_wire(wire).expect("wire value restores")
}

#[test]
fn queries_round_trip_through_received_bytes() {
    for query in queries() {
        assert_eq!(received(&query), query);
    }
}

#[test]
fn responses_round_trip_through_received_bytes() {
    for response in responses() {
        assert_eq!(received(&response), response);
    }
}

#[test]
fn the_daemon_configuration_round_trips_through_received_bytes() {
    let configuration = configuration();
    assert_eq!(received(&configuration), configuration);
}

#[test]
fn a_bootstrap_document_round_trips_through_received_bytes() {
    let document = bootstrap_document();
    let root = BootstrapDocumentRecord::new(document.clone());
    assert_eq!(received(&root).into_document(), document);
}

#[test]
fn a_bootstrap_document_crosses_the_wire_as_a_record_of_one_sequence() {
    let document = bootstrap_document();
    let operations = || -> Vec<WireValue> {
        document.iter().map(|operation| operation.to_wire()).collect()
    };
    let wire = BootstrapDocumentRecord::new(document.clone()).to_wire();
    assert_eq!(wire, WireValue::Product(vec![WireValue::Sequence(operations())]));
    assert!(BootstrapDocumentRecord::from_wire(WireValue::Sequence(operations())).is_err());
}

#[test]
fn bare_heads_cross_the_wire_as_bare_heads() {
    let response = Response::Unimplemented(RouterObservationUnimplemented {
        observation_scope: RouterObservationScope::Summary,
        observation_reason: RouterObservationUnimplementedReason::NotInPrototypeScope,
    });
    assert_eq!(received(&response), response);
    assert_eq!(
        RouterObservationScope::Summary.to_wire(),
        WireValue::Variant { ordinal: 2, fields: Vec::new() }
    );
    assert_eq!(
        RouterObservationUnimplementedReason::NotInPrototypeScope.to_wire(),
        WireValue::Variant { ordinal: 1, fields: Vec::new() }
    );
}

//! The wire layout of every contract type, head by head and field by field:
//! the fixed ordinal each enum head crosses the wire under, and the order in
//! which each record's fields cross it. A value written by a peer is read
//! back as the head and the fields these laws name, because `from_wire`
//! restores exactly a value whose projection is the wire value read.

use vstd::prelude::*;

use crate::contract::{Actor, ActorRegistered, ActorRegistrationDisposition, ActorRegistrationRefusalReason, ActorRegistrationRefused, EndpointKind, EndpointTransport, ForwardMarker, ForwardedMessagePayload, GrantDirectMessage, InstallStructuralChannels, OwnerIdentity, Query, RegisterActor, RegisterRemoteRouter, Response, RoutedContractObject, RouterBootstrapOperation, RouterChannelState, RouterChannelStateQuery, RouterChannelStatus, RouterDaemonConfiguration, RouterDeliveryStatus, RouterForwardAccepted, RouterForwardRefusalReason, RouterForwardRefused, RouterForwardRequest, RouterIdentityProof, RouterMessageTrace, RouterMessageTraceMissing, RouterMessageTraceQuery, RouterObservationScope, RouterObservationUnimplemented, RouterObservationUnimplementedReason, RouterPeerAttestation, RouterRoutedObjectsAccepted, RouterRoutedObjectsRefused, RouterSessionAccepted, RouterSessionClientHello, RouterSessionClientProof, RouterSessionData, RouterSessionRefused, RouterSessionServerHello, RouterSummary, RouterSummaryQuery, SessionRefusalReason, SignatureScheme, UnixUserIdentifier};
use crate::wire::{WireModel, WireShape};

verus! {

/// A head without payload: its ordinal and no fields.
pub open spec fn bare_head(ordinal: u16) -> WireModel {
    WireModel::Variant { ordinal, fields: Seq::empty() }
}

/// A head with a payload: its ordinal and the payload's projection as its one
/// field.
pub open spec fn carried_head(ordinal: u16, payload: WireModel) -> WireModel {
    WireModel::Variant { ordinal, fields: seq![payload] }
}

/// Text crosses the wire as its characters, an unsigned integer as itself, a
/// flag as itself, and a signed integer as its two's-complement bit pattern:
/// its value when non-negative, its value plus 2^64 when negative.
pub proof fn law_scalar_layout(text: String, count: u64, flag: bool, signed: i64)
    ensures
        text.wire_model() == WireModel::Text(text@),
        count.wire_model() == WireModel::Integer(count),
        flag.wire_model() == WireModel::Boolean(flag),
        signed.wire_model() is Integer,
        signed >= 0 ==> signed.wire_model()->Integer_0 == signed,
        signed < 0 ==> signed.wire_model()->Integer_0 == signed + 0x1_0000_0000_0000_0000,
{
    let bits: u64 = signed as u64;
    assert(signed >= 0 ==> bits == signed) by (bit_vector)
        requires
            bits == signed as u64,
    ;
    assert(signed < 0 ==> bits == signed + 0x1_0000_0000_0000_0000) by (bit_vector)
        requires
            bits == signed as u64,
    ;
}

/// A sequence crosses the wire as the sequence of its elements' projections, in
/// order and of the same length.
pub proof fn law_sequence_layout<Value: WireShape>(values: Vec<Value>)
    ensures
        values.wire_model() is Sequence,
        values.wire_model()->Sequence_0.len() == values.len(),
        forall|i: int| 0 <= i < values.len() ==> (#[trigger] values.wire_model()->Sequence_0[i]) == values@[i].wire_model(),
{
}

/// An absent option crosses the wire as `Absent`, a present one as `Present`
/// around its value's projection.
pub proof fn law_option_layout<Value: WireShape>(option: Option<Value>)
    ensures
        option is None ==> option.wire_model() == WireModel::Absent,
        option is Some ==> option.wire_model() == WireModel::Present(Box::new(option->Some_0.wire_model())),
{
}

/// Each head of `OwnerIdentity` crosses the wire as its own fixed ordinal
/// carrying its payload's projection as its one field (`UnixUser` 0).
pub proof fn law_owner_identity_layout(value: OwnerIdentity)
    ensures
        value is UnixUser ==> value.wire_model() == carried_head(0, value->UnixUser_0.wire_model()),
{
}

/// A head of `OwnerIdentity` with one field restores exactly when its ordinal
/// names a head and the field restores as that head's payload.
pub proof fn law_owner_identity_restores_by_ordinal(field: WireModel)
    ensures
        OwnerIdentity::decodes(carried_head(0, field)) <==> <UnixUserIdentifier as WireShape>::decodes(field),
        forall|ordinal: u16| ordinal >= 1 ==> !#[trigger] OwnerIdentity::decodes(carried_head(ordinal, field)),
{
}

/// Each head of `EndpointKind` crosses the wire as its own fixed ordinal with
/// no fields (`RemoteRouter` 0, `Human` 1, `HarnessSocket` 2, `ComponentSocket`
/// 3, `PtySocket` 4), and a bare head restores exactly when its ordinal is one
/// of these.
pub proof fn law_endpoint_kind_layout(value: EndpointKind, ordinal: u16)
    ensures
        value is Human ==> value.wire_model() == bare_head(1),
        value is HarnessSocket ==> value.wire_model() == bare_head(2),
        value is PtySocket ==> value.wire_model() == bare_head(4),
        value is RemoteRouter ==> value.wire_model() == bare_head(0),
        value is ComponentSocket ==> value.wire_model() == bare_head(3),
        EndpointKind::decodes(bare_head(ordinal)) <==> ordinal < 5,
{
}

/// `EndpointTransport` crosses the wire as the product of its fields in
/// declaration order: `endpoint_kind`, `target`, `auxiliary`.
pub proof fn law_endpoint_transport_layout(value: EndpointTransport)
    ensures
        value.wire_model() is Product,
        value.wire_model()->Product_0.len() == 3,
        value.wire_model()->Product_0[0] == value.endpoint_kind.wire_model(),
        value.wire_model()->Product_0[1] == value.target.wire_model(),
        value.wire_model()->Product_0[2] == value.auxiliary.wire_model(),
{
}

/// `Actor` crosses the wire as the product of its fields in declaration order:
/// `name`, `process`, `endpoint`.
pub proof fn law_actor_layout(value: Actor)
    ensures
        value.wire_model() is Product,
        value.wire_model()->Product_0.len() == 3,
        value.wire_model()->Product_0[0] == value.name.wire_model(),
        value.wire_model()->Product_0[1] == value.process.wire_model(),
        value.wire_model()->Product_0[2] == value.endpoint.wire_model(),
{
}

/// `RegisterActor` crosses the wire as the product of its fields in declaration
/// order: `actor`, `home`.
pub proof fn law_register_actor_layout(value: RegisterActor)
    ensures
        value.wire_model() is Product,
        value.wire_model()->Product_0.len() == 2,
        value.wire_model()->Product_0[0] == value.actor.wire_model(),
        value.wire_model()->Product_0[1] == value.home.wire_model(),
{
}

/// Each head of `ActorRegistrationDisposition` crosses the wire as its own
/// fixed ordinal with no fields (`Registered` 0, `EndpointUpdated` 1), and a
/// bare head restores exactly when its ordinal is one of these.
pub proof fn law_actor_registration_disposition_layout(value: ActorRegistrationDisposition, ordinal: u16)
    ensures
        value is Registered ==> value.wire_model() == bare_head(0),
        value is EndpointUpdated ==> value.wire_model() == bare_head(1),
        ActorRegistrationDisposition::decodes(bare_head(ordinal)) <==> ordinal < 2,
{
}

/// `ActorRegistered` crosses the wire as the product of its fields in
/// declaration order: `registered_actor`, `actor_registration_disposition`.
pub proof fn law_actor_registered_layout(value: ActorRegistered)
    ensures
        value.wire_model() is Product,
        value.wire_model()->Product_0.len() == 2,
        value.wire_model()->Product_0[0] == value.registered_actor.wire_model(),
        value.wire_model()->Product_0[1] == value.actor_registration_disposition.wire_model(),
{
}

/// Each head of `ActorRegistrationRefusalReason` crosses the wire as its own
/// fixed ordinal with no fields (`RemoteRouterEndpointNotLocal` 0,
/// `ProcessIdentifierOutOfRange` 1), and a bare head restores exactly when its
/// ordinal is one of these.
pub proof fn law_actor_registration_refusal_reason_layout(value: ActorRegistrationRefusalReason, ordinal: u16)
    ensures
        value is ProcessIdentifierOutOfRange ==> value.wire_model() == bare_head(1),
        value is RemoteRouterEndpointNotLocal ==> value.wire_model() == bare_head(0),
        ActorRegistrationRefusalReason::decodes(bare_head(ordinal)) <==> ordinal < 2,
{
}

/// `ActorRegistrationRefused` crosses the wire as the product of its fields in
/// declaration order: `registered_actor`, `actor_registration_refusal_reason`.
pub proof fn law_actor_registration_refused_layout(value: ActorRegistrationRefused)
    ensures
        value.wire_model() is Product,
        value.wire_model()->Product_0.len() == 2,
        value.wire_model()->Product_0[0] == value.registered_actor.wire_model(),
        value.wire_model()->Product_0[1] == value.actor_registration_refusal_reason.wire_model(),
{
}

/// `GrantDirectMessage` crosses the wire as the product of its fields in
/// declaration order: `source_actor`, `destination_actor`.
pub proof fn law_grant_direct_message_layout(value: GrantDirectMessage)
    ensures
        value.wire_model() is Product,
        value.wire_model()->Product_0.len() == 2,
        value.wire_model()->Product_0[0] == value.source_actor.wire_model(),
        value.wire_model()->Product_0[1] == value.destination_actor.wire_model(),
{
}

/// `InstallStructuralChannels` crosses the wire as the product of its fields in
/// declaration order: `requester`.
pub proof fn law_install_structural_channels_layout(value: InstallStructuralChannels)
    ensures
        value.wire_model() is Product,
        value.wire_model()->Product_0.len() == 1,
        value.wire_model()->Product_0[0] == value.requester.wire_model(),
{
}

/// `RegisterRemoteRouter` crosses the wire as the product of its fields in
/// declaration order: `identity`, `address`.
pub proof fn law_register_remote_router_layout(value: RegisterRemoteRouter)
    ensures
        value.wire_model() is Product,
        value.wire_model()->Product_0.len() == 2,
        value.wire_model()->Product_0[0] == value.identity.wire_model(),
        value.wire_model()->Product_0[1] == value.address.wire_model(),
{
}

/// Each head of `RouterBootstrapOperation` crosses the wire as its own fixed
/// ordinal carrying its payload's projection as its one field (`RegisterActor`
/// 0, `GrantDirectMessage` 1, `InstallStructuralChannels` 2,
/// `RegisterRemoteRouter` 3).
pub proof fn law_router_bootstrap_operation_layout(value: RouterBootstrapOperation)
    ensures
        value is RegisterActor ==> value.wire_model() == carried_head(0, value->RegisterActor_0.wire_model()),
        value is GrantDirectMessage ==> value.wire_model() == carried_head(1, value->GrantDirectMessage_0.wire_model()),
        value is InstallStructuralChannels ==> value.wire_model() == carried_head(2, value->InstallStructuralChannels_0.wire_model()),
        value is RegisterRemoteRouter ==> value.wire_model() == carried_head(3, value->RegisterRemoteRouter_0.wire_model()),
{
}

/// A head of `RouterBootstrapOperation` with one field restores exactly when
/// its ordinal names a head and the field restores as that head's payload.
pub proof fn law_router_bootstrap_operation_restores_by_ordinal(field: WireModel)
    ensures
        RouterBootstrapOperation::decodes(carried_head(0, field)) <==> <RegisterActor as WireShape>::decodes(field),
        RouterBootstrapOperation::decodes(carried_head(1, field)) <==> <GrantDirectMessage as WireShape>::decodes(field),
        RouterBootstrapOperation::decodes(carried_head(2, field)) <==> <InstallStructuralChannels as WireShape>::decodes(field),
        RouterBootstrapOperation::decodes(carried_head(3, field)) <==> <RegisterRemoteRouter as WireShape>::decodes(field),
        forall|ordinal: u16| ordinal >= 4 ==> !#[trigger] RouterBootstrapOperation::decodes(carried_head(ordinal, field)),
{
}

/// Each head of `RouterObservationScope` crosses the wire as its own fixed
/// ordinal with no fields (`MessageTrace` 0, `ChannelState` 1, `Summary` 2),
/// and a bare head restores exactly when its ordinal is one of these.
pub proof fn law_router_observation_scope_layout(value: RouterObservationScope, ordinal: u16)
    ensures
        value is Summary ==> value.wire_model() == bare_head(2),
        value is MessageTrace ==> value.wire_model() == bare_head(0),
        value is ChannelState ==> value.wire_model() == bare_head(1),
        RouterObservationScope::decodes(bare_head(ordinal)) <==> ordinal < 3,
{
}

/// `RouterSummaryQuery` crosses the wire as the product of its fields in
/// declaration order: `engine`.
pub proof fn law_router_summary_query_layout(value: RouterSummaryQuery)
    ensures
        value.wire_model() is Product,
        value.wire_model()->Product_0.len() == 1,
        value.wire_model()->Product_0[0] == value.engine.wire_model(),
{
}

/// `RouterMessageTraceQuery` crosses the wire as the product of its fields in
/// declaration order: `engine`, `message_slot`.
pub proof fn law_router_message_trace_query_layout(value: RouterMessageTraceQuery)
    ensures
        value.wire_model() is Product,
        value.wire_model()->Product_0.len() == 2,
        value.wire_model()->Product_0[0] == value.engine.wire_model(),
        value.wire_model()->Product_0[1] == value.message_slot.wire_model(),
{
}

/// `RouterChannelStateQuery` crosses the wire as the product of its fields in
/// declaration order: `engine`, `channel`.
pub proof fn law_router_channel_state_query_layout(value: RouterChannelStateQuery)
    ensures
        value.wire_model() is Product,
        value.wire_model()->Product_0.len() == 2,
        value.wire_model()->Product_0[0] == value.engine.wire_model(),
        value.wire_model()->Product_0[1] == value.channel.wire_model(),
{
}

/// `RouterSummary` crosses the wire as the product of its fields in declaration
/// order: `engine`, `accepted_messages`, `routed_messages`,
/// `deferred_messages`, `failed_messages`.
pub proof fn law_router_summary_layout(value: RouterSummary)
    ensures
        value.wire_model() is Product,
        value.wire_model()->Product_0.len() == 5,
        value.wire_model()->Product_0[0] == value.engine.wire_model(),
        value.wire_model()->Product_0[1] == value.accepted_messages.wire_model(),
        value.wire_model()->Product_0[2] == value.routed_messages.wire_model(),
        value.wire_model()->Product_0[3] == value.deferred_messages.wire_model(),
        value.wire_model()->Product_0[4] == value.failed_messages.wire_model(),
{
}

/// Each head of `RouterDeliveryStatus` crosses the wire as its own fixed
/// ordinal with no fields (`ForwardedRemote` 0, `Deferred` 1, `Accepted` 2,
/// `Delivered` 3, `Routed` 4, `Failed` 5), and a bare head restores exactly
/// when its ordinal is one of these.
pub proof fn law_router_delivery_status_layout(value: RouterDeliveryStatus, ordinal: u16)
    ensures
        value is Accepted ==> value.wire_model() == bare_head(2),
        value is Routed ==> value.wire_model() == bare_head(4),
        value is Delivered ==> value.wire_model() == bare_head(3),
        value is Deferred ==> value.wire_model() == bare_head(1),
        value is Failed ==> value.wire_model() == bare_head(5),
        value is ForwardedRemote ==> value.wire_model() == bare_head(0),
        RouterDeliveryStatus::decodes(bare_head(ordinal)) <==> ordinal < 6,
{
}

/// `RouterMessageTrace` crosses the wire as the product of its fields in
/// declaration order: `engine`, `message_slot`, `delivery_status`.
pub proof fn law_router_message_trace_layout(value: RouterMessageTrace)
    ensures
        value.wire_model() is Product,
        value.wire_model()->Product_0.len() == 3,
        value.wire_model()->Product_0[0] == value.engine.wire_model(),
        value.wire_model()->Product_0[1] == value.message_slot.wire_model(),
        value.wire_model()->Product_0[2] == value.delivery_status.wire_model(),
{
}

/// `RouterMessageTraceMissing` crosses the wire as the product of its fields in
/// declaration order: `engine`, `message_slot`.
pub proof fn law_router_message_trace_missing_layout(value: RouterMessageTraceMissing)
    ensures
        value.wire_model() is Product,
        value.wire_model()->Product_0.len() == 2,
        value.wire_model()->Product_0[0] == value.engine.wire_model(),
        value.wire_model()->Product_0[1] == value.message_slot.wire_model(),
{
}

/// Each head of `RouterChannelStatus` crosses the wire as its own fixed ordinal
/// with no fields (`Installed` 0, `Missing` 1, `Disabled` 2), and a bare head
/// restores exactly when its ordinal is one of these.
pub proof fn law_router_channel_status_layout(value: RouterChannelStatus, ordinal: u16)
    ensures
        value is Installed ==> value.wire_model() == bare_head(0),
        value is Missing ==> value.wire_model() == bare_head(1),
        value is Disabled ==> value.wire_model() == bare_head(2),
        RouterChannelStatus::decodes(bare_head(ordinal)) <==> ordinal < 3,
{
}

/// `RouterChannelState` crosses the wire as the product of its fields in
/// declaration order: `engine`, `channel`, `channel_status`.
pub proof fn law_router_channel_state_layout(value: RouterChannelState)
    ensures
        value.wire_model() is Product,
        value.wire_model()->Product_0.len() == 3,
        value.wire_model()->Product_0[0] == value.engine.wire_model(),
        value.wire_model()->Product_0[1] == value.channel.wire_model(),
        value.wire_model()->Product_0[2] == value.channel_status.wire_model(),
{
}

/// Each head of `RouterObservationUnimplementedReason` crosses the wire as its
/// own fixed ordinal with no fields (`MessageTraceUnavailable` 0,
/// `NotInPrototypeScope` 1, `RouterStoreUnavailable` 2), and a bare head
/// restores exactly when its ordinal is one of these.
pub proof fn law_router_observation_unimplemented_reason_layout(value: RouterObservationUnimplementedReason, ordinal: u16)
    ensures
        value is NotInPrototypeScope ==> value.wire_model() == bare_head(1),
        value is RouterStoreUnavailable ==> value.wire_model() == bare_head(2),
        value is MessageTraceUnavailable ==> value.wire_model() == bare_head(0),
        RouterObservationUnimplementedReason::decodes(bare_head(ordinal)) <==> ordinal < 3,
{
}

/// `RouterObservationUnimplemented` crosses the wire as the product of its
/// fields in declaration order: `observation_scope`, `observation_reason`.
pub proof fn law_router_observation_unimplemented_layout(value: RouterObservationUnimplemented)
    ensures
        value.wire_model() is Product,
        value.wire_model()->Product_0.len() == 2,
        value.wire_model()->Product_0[0] == value.observation_scope.wire_model(),
        value.wire_model()->Product_0[1] == value.observation_reason.wire_model(),
{
}

/// Each head of `SignatureScheme` crosses the wire as its own fixed ordinal
/// with no fields (`Bls12_381MinSig` 0, `Bls12_381MinPk` 1), and a bare head
/// restores exactly when its ordinal is one of these.
pub proof fn law_signature_scheme_layout(value: SignatureScheme, ordinal: u16)
    ensures
        value is Bls12_381MinPk ==> value.wire_model() == bare_head(1),
        value is Bls12_381MinSig ==> value.wire_model() == bare_head(0),
        SignatureScheme::decodes(bare_head(ordinal)) <==> ordinal < 2,
{
}

/// `RouterPeerAttestation` crosses the wire as the product of its fields in
/// declaration order: `signer`, `scheme`, `public_key`, `signature`,
/// `content_digest`, `issued_at`, `nonce`, `attestation_issued_at`.
pub proof fn law_router_peer_attestation_layout(value: RouterPeerAttestation)
    ensures
        value.wire_model() is Product,
        value.wire_model()->Product_0.len() == 8,
        value.wire_model()->Product_0[0] == value.signer.wire_model(),
        value.wire_model()->Product_0[1] == value.scheme.wire_model(),
        value.wire_model()->Product_0[2] == value.public_key.wire_model(),
        value.wire_model()->Product_0[3] == value.signature.wire_model(),
        value.wire_model()->Product_0[4] == value.content_digest.wire_model(),
        value.wire_model()->Product_0[5] == value.issued_at.wire_model(),
        value.wire_model()->Product_0[6] == value.nonce.wire_model(),
        value.wire_model()->Product_0[7] == value.attestation_issued_at.wire_model(),
{
}

/// `RoutedContractObject` crosses the wire as the product of its fields in
/// declaration order: `contract_name`, `contract_operation`,
/// `contract_payload_size`, `payload_octets`.
pub proof fn law_routed_contract_object_layout(value: RoutedContractObject)
    ensures
        value.wire_model() is Product,
        value.wire_model()->Product_0.len() == 4,
        value.wire_model()->Product_0[0] == value.contract_name.wire_model(),
        value.wire_model()->Product_0[1] == value.contract_operation.wire_model(),
        value.wire_model()->Product_0[2] == value.contract_payload_size.wire_model(),
        value.wire_model()->Product_0[3] == value.payload_octets.wire_model(),
{
}

/// `ForwardedMessagePayload` crosses the wire as the product of its fields in
/// declaration order: `source_actor`, `destination_actor`, `body`,
/// `attachments`, `routed_objects`.
pub proof fn law_forwarded_message_payload_layout(value: ForwardedMessagePayload)
    ensures
        value.wire_model() is Product,
        value.wire_model()->Product_0.len() == 5,
        value.wire_model()->Product_0[0] == value.source_actor.wire_model(),
        value.wire_model()->Product_0[1] == value.destination_actor.wire_model(),
        value.wire_model()->Product_0[2] == value.body.wire_model(),
        value.wire_model()->Product_0[3] == value.attachments.wire_model(),
        value.wire_model()->Product_0[4] == value.routed_objects.wire_model(),
{
}

/// Each head of `ForwardMarker` crosses the wire as its own fixed ordinal with
/// no fields (`Origin` 0, `Forwarded` 1), and a bare head restores exactly when
/// its ordinal is one of these.
pub proof fn law_forward_marker_layout(value: ForwardMarker, ordinal: u16)
    ensures
        value is Origin ==> value.wire_model() == bare_head(0),
        value is Forwarded ==> value.wire_model() == bare_head(1),
        ForwardMarker::decodes(bare_head(ordinal)) <==> ordinal < 2,
{
}

/// `RouterForwardRequest` crosses the wire as the product of its fields in
/// declaration order: `submission`, `attestation`, `forward_marker`, `nonce`,
/// `issued_at`.
pub proof fn law_router_forward_request_layout(value: RouterForwardRequest)
    ensures
        value.wire_model() is Product,
        value.wire_model()->Product_0.len() == 5,
        value.wire_model()->Product_0[0] == value.submission.wire_model(),
        value.wire_model()->Product_0[1] == value.attestation.wire_model(),
        value.wire_model()->Product_0[2] == value.forward_marker.wire_model(),
        value.wire_model()->Product_0[3] == value.nonce.wire_model(),
        value.wire_model()->Product_0[4] == value.issued_at.wire_model(),
{
}

/// `RouterForwardAccepted` crosses the wire as the product of its fields in
/// declaration order: `message_slot`.
pub proof fn law_router_forward_accepted_layout(value: RouterForwardAccepted)
    ensures
        value.wire_model() is Product,
        value.wire_model()->Product_0.len() == 1,
        value.wire_model()->Product_0[0] == value.message_slot.wire_model(),
{
}

/// Each head of `RouterForwardRefusalReason` crosses the wire as its own fixed
/// ordinal with no fields (`AlreadyForwarded` 0, `SessionRequired` 1,
/// `MirrorDisabled` 2, `RecipientUnknown` 3, `AttestationInvalid` 4,
/// `ReplayDetected` 5, `UnknownPeer` 6, `ChannelUnauthorized` 7, `ClockSkew`
/// 8), and a bare head restores exactly when its ordinal is one of these.
pub proof fn law_router_forward_refusal_reason_layout(value: RouterForwardRefusalReason, ordinal: u16)
    ensures
        value is UnknownPeer ==> value.wire_model() == bare_head(6),
        value is AttestationInvalid ==> value.wire_model() == bare_head(4),
        value is ReplayDetected ==> value.wire_model() == bare_head(5),
        value is ClockSkew ==> value.wire_model() == bare_head(8),
        value is RecipientUnknown ==> value.wire_model() == bare_head(3),
        value is ChannelUnauthorized ==> value.wire_model() == bare_head(7),
        value is AlreadyForwarded ==> value.wire_model() == bare_head(0),
        value is MirrorDisabled ==> value.wire_model() == bare_head(2),
        value is SessionRequired ==> value.wire_model() == bare_head(1),
        RouterForwardRefusalReason::decodes(bare_head(ordinal)) <==> ordinal < 9,
{
}

/// `RouterForwardRefused` crosses the wire as its one field,
/// `forward_refusal_reason`, with nothing around it.
pub proof fn law_router_forward_refused_layout(value: RouterForwardRefused)
    ensures
        value.wire_model() == value.forward_refusal_reason.wire_model(),
{
}

/// `RouterRoutedObjectsAccepted` crosses the wire as the product of its fields
/// in declaration order: `message_slot`.
pub proof fn law_router_routed_objects_accepted_layout(value: RouterRoutedObjectsAccepted)
    ensures
        value.wire_model() is Product,
        value.wire_model()->Product_0.len() == 1,
        value.wire_model()->Product_0[0] == value.message_slot.wire_model(),
{
}

/// `RouterRoutedObjectsRefused` crosses the wire as its one field,
/// `forward_refusal_reason`, with nothing around it.
pub proof fn law_router_routed_objects_refused_layout(value: RouterRoutedObjectsRefused)
    ensures
        value.wire_model() == value.forward_refusal_reason.wire_model(),
{
}

/// `RouterIdentityProof` crosses the wire as the product of its fields in
/// declaration order: `proof_signer`, `proof_scheme`, `proof_public_key`,
/// `proof_signature`, `proof_digest`, `proof_challenge_nonce`,
/// `proof_attestation_issued_at`.
pub proof fn law_router_identity_proof_layout(value: RouterIdentityProof)
    ensures
        value.wire_model() is Product,
        value.wire_model()->Product_0.len() == 7,
        value.wire_model()->Product_0[0] == value.proof_signer.wire_model(),
        value.wire_model()->Product_0[1] == value.proof_scheme.wire_model(),
        value.wire_model()->Product_0[2] == value.proof_public_key.wire_model(),
        value.wire_model()->Product_0[3] == value.proof_signature.wire_model(),
        value.wire_model()->Product_0[4] == value.proof_digest.wire_model(),
        value.wire_model()->Product_0[5] == value.proof_challenge_nonce.wire_model(),
        value.wire_model()->Product_0[6] == value.proof_attestation_issued_at.wire_model(),
{
}

/// `RouterSessionClientHello` crosses the wire as the product of its fields in
/// declaration order: `initiator_challenge`, `initiator_ephemeral_key`.
pub proof fn law_router_session_client_hello_layout(value: RouterSessionClientHello)
    ensures
        value.wire_model() is Product,
        value.wire_model()->Product_0.len() == 2,
        value.wire_model()->Product_0[0] == value.initiator_challenge.wire_model(),
        value.wire_model()->Product_0[1] == value.initiator_ephemeral_key.wire_model(),
{
}

/// `RouterSessionServerHello` crosses the wire as the product of its fields in
/// declaration order: `responder_challenge`, `responder_ephemeral_key`,
/// `responder_proof`.
pub proof fn law_router_session_server_hello_layout(value: RouterSessionServerHello)
    ensures
        value.wire_model() is Product,
        value.wire_model()->Product_0.len() == 3,
        value.wire_model()->Product_0[0] == value.responder_challenge.wire_model(),
        value.wire_model()->Product_0[1] == value.responder_ephemeral_key.wire_model(),
        value.wire_model()->Product_0[2] == value.responder_proof.wire_model(),
{
}

/// `RouterSessionClientProof` crosses the wire as the product of its fields in
/// declaration order: `initiator_proof`.
pub proof fn law_router_session_client_proof_layout(value: RouterSessionClientProof)
    ensures
        value.wire_model() is Product,
        value.wire_model()->Product_0.len() == 1,
        value.wire_model()->Product_0[0] == value.initiator_proof.wire_model(),
{
}

/// `RouterSessionAccepted` crosses the wire as the product of its fields in
/// declaration order: `key_confirmation`.
pub proof fn law_router_session_accepted_layout(value: RouterSessionAccepted)
    ensures
        value.wire_model() is Product,
        value.wire_model()->Product_0.len() == 1,
        value.wire_model()->Product_0[0] == value.key_confirmation.wire_model(),
{
}

/// Each head of `SessionRefusalReason` crosses the wire as its own fixed
/// ordinal with no fields (`SessionCipherFailure` 0, `IdentityProofInvalid` 1,
/// `ChallengeMismatch` 2, `HandshakeMalformed` 3), and a bare head restores
/// exactly when its ordinal is one of these.
pub proof fn law_session_refusal_reason_layout(value: SessionRefusalReason, ordinal: u16)
    ensures
        value is IdentityProofInvalid ==> value.wire_model() == bare_head(1),
        value is ChallengeMismatch ==> value.wire_model() == bare_head(2),
        value is HandshakeMalformed ==> value.wire_model() == bare_head(3),
        value is SessionCipherFailure ==> value.wire_model() == bare_head(0),
        SessionRefusalReason::decodes(bare_head(ordinal)) <==> ordinal < 4,
{
}

/// `RouterSessionRefused` crosses the wire as the product of its fields in
/// declaration order: `refusal_reason`.
pub proof fn law_router_session_refused_layout(value: RouterSessionRefused)
    ensures
        value.wire_model() is Product,
        value.wire_model()->Product_0.len() == 1,
        value.wire_model()->Product_0[0] == value.refusal_reason.wire_model(),
{
}

/// `RouterSessionData` crosses the wire as the product of its fields in
/// declaration order: `sealed_octets`.
pub proof fn law_router_session_data_layout(value: RouterSessionData)
    ensures
        value.wire_model() is Product,
        value.wire_model()->Product_0.len() == 1,
        value.wire_model()->Product_0[0] == value.sealed_octets.wire_model(),
{
}

/// `RouterDaemonConfiguration` crosses the wire as the product of its fields in
/// declaration order: `router_socket_path`, `router_socket_mode`,
/// `meta_router_socket_path`, `meta_router_socket_mode`,
/// `supervision_socket_path`, `supervision_socket_mode`, `store_path`,
/// `bootstrap_path`, `owner_identity`, `tailnet_listen_address`,
/// `router_identity`, `criome_socket_path`.
pub proof fn law_router_daemon_configuration_layout(value: RouterDaemonConfiguration)
    ensures
        value.wire_model() is Product,
        value.wire_model()->Product_0.len() == 12,
        value.wire_model()->Product_0[0] == value.router_socket_path.wire_model(),
        value.wire_model()->Product_0[1] == value.router_socket_mode.wire_model(),
        value.wire_model()->Product_0[2] == value.meta_router_socket_path.wire_model(),
        value.wire_model()->Product_0[3] == value.meta_router_socket_mode.wire_model(),
        value.wire_model()->Product_0[4] == value.supervision_socket_path.wire_model(),
        value.wire_model()->Product_0[5] == value.supervision_socket_mode.wire_model(),
        value.wire_model()->Product_0[6] == value.store_path.wire_model(),
        value.wire_model()->Product_0[7] == value.bootstrap_path.wire_model(),
        value.wire_model()->Product_0[8] == value.owner_identity.wire_model(),
        value.wire_model()->Product_0[9] == value.tailnet_listen_address.wire_model(),
        value.wire_model()->Product_0[10] == value.router_identity.wire_model(),
        value.wire_model()->Product_0[11] == value.criome_socket_path.wire_model(),
{
}

/// Each head of `Query` crosses the wire as its own fixed ordinal carrying its
/// payload's projection as its one field (`ChannelState` 0,
/// `SubmitRoutedObjects` 1, `ForwardMessage` 2, `Summary` 3,
/// `SessionClientProof` 4, `SessionClientHello` 5, `SessionData` 6,
/// `RegisterActor` 7, `MessageTrace` 8).
pub proof fn law_query_layout(query: Query)
    ensures
        query is Summary ==> query.wire_model() == carried_head(3, query->Summary_0.wire_model()),
        query is MessageTrace ==> query.wire_model() == carried_head(8, query->MessageTrace_0.wire_model()),
        query is ChannelState ==> query.wire_model() == carried_head(0, query->ChannelState_0.wire_model()),
        query is ForwardMessage ==> query.wire_model() == carried_head(2, query->ForwardMessage_0.wire_model()),
        query is SubmitRoutedObjects ==> query.wire_model() == carried_head(1, query->SubmitRoutedObjects_0.wire_model()),
        query is SessionClientHello ==> query.wire_model() == carried_head(5, query->SessionClientHello_0.wire_model()),
        query is SessionClientProof ==> query.wire_model() == carried_head(4, query->SessionClientProof_0.wire_model()),
        query is SessionData ==> query.wire_model() == carried_head(6, query->SessionData_0.wire_model()),
        query is RegisterActor ==> query.wire_model() == carried_head(7, query->RegisterActor_0.wire_model()),
{
}

/// A head of `Query` with one field restores exactly when its ordinal names a
/// head and the field restores as that head's payload.
pub proof fn law_query_restores_by_ordinal(field: WireModel)
    ensures
        Query::decodes(carried_head(3, field)) <==> <RouterSummaryQuery as WireShape>::decodes(field),
        Query::decodes(carried_head(8, field)) <==> <RouterMessageTraceQuery as WireShape>::decodes(field),
        Query::decodes(carried_head(0, field)) <==> <RouterChannelStateQuery as WireShape>::decodes(field),
        Query::decodes(carried_head(2, field)) <==> <RouterForwardRequest as WireShape>::decodes(field),
        Query::decodes(carried_head(1, field)) <==> <ForwardedMessagePayload as WireShape>::decodes(field),
        Query::decodes(carried_head(5, field)) <==> <RouterSessionClientHello as WireShape>::decodes(field),
        Query::decodes(carried_head(4, field)) <==> <RouterSessionClientProof as WireShape>::decodes(field),
        Query::decodes(carried_head(6, field)) <==> <RouterSessionData as WireShape>::decodes(field),
        Query::decodes(carried_head(7, field)) <==> <Actor as WireShape>::decodes(field),
        forall|ordinal: u16| ordinal >= 9 ==> !#[trigger] Query::decodes(carried_head(ordinal, field)),
{
}

/// Each head of `Response` crosses the wire as its own fixed ordinal carrying
/// its payload's projection as its one field (`ChannelState` 0, `MessageTrace`
/// 1, `SessionData` 2, `RoutedObjectsRefused` 3, `Summary` 4,
/// `ActorRegistrationRefused` 5, `ForwardRefused` 6, `MessageTraceMissing` 7,
/// `RoutedObjectsAccepted` 8, `SessionRefused` 9, `ActorRegistered` 10,
/// `Unimplemented` 11, `SessionAccepted` 12, `SessionServerHello` 13,
/// `ForwardAccepted` 14).
pub proof fn law_response_layout(response: Response)
    ensures
        response is Summary ==> response.wire_model() == carried_head(4, response->Summary_0.wire_model()),
        response is MessageTrace ==> response.wire_model() == carried_head(1, response->MessageTrace_0.wire_model()),
        response is MessageTraceMissing ==> response.wire_model() == carried_head(7, response->MessageTraceMissing_0.wire_model()),
        response is ChannelState ==> response.wire_model() == carried_head(0, response->ChannelState_0.wire_model()),
        response is ForwardAccepted ==> response.wire_model() == carried_head(14, response->ForwardAccepted_0.wire_model()),
        response is ForwardRefused ==> response.wire_model() == carried_head(6, response->ForwardRefused_0.wire_model()),
        response is Unimplemented ==> response.wire_model() == carried_head(11, response->Unimplemented_0.wire_model()),
        response is RoutedObjectsAccepted ==> response.wire_model() == carried_head(8, response->RoutedObjectsAccepted_0.wire_model()),
        response is RoutedObjectsRefused ==> response.wire_model() == carried_head(3, response->RoutedObjectsRefused_0.wire_model()),
        response is SessionServerHello ==> response.wire_model() == carried_head(13, response->SessionServerHello_0.wire_model()),
        response is SessionAccepted ==> response.wire_model() == carried_head(12, response->SessionAccepted_0.wire_model()),
        response is SessionRefused ==> response.wire_model() == carried_head(9, response->SessionRefused_0.wire_model()),
        response is SessionData ==> response.wire_model() == carried_head(2, response->SessionData_0.wire_model()),
        response is ActorRegistered ==> response.wire_model() == carried_head(10, response->ActorRegistered_0.wire_model()),
        response is ActorRegistrationRefused ==> response.wire_model() == carried_head(5, response->ActorRegistrationRefused_0.wire_model()),
{
}

/// A head of `Response` with one field restores exactly when its ordinal names
/// a head and the field restores as that head's payload.
pub proof fn law_response_restores_by_ordinal(field: WireModel)
    ensures
        Response::decodes(carried_head(4, field)) <==> <RouterSummary as WireShape>::decodes(field),
        Response::decodes(carried_head(1, field)) <==> <RouterMessageTrace as WireShape>::decodes(field),
        Response::decodes(carried_head(7, field)) <==> <RouterMessageTraceMissing as WireShape>::decodes(field),
        Response::decodes(carried_head(0, field)) <==> <RouterChannelState as WireShape>::decodes(field),
        Response::decodes(carried_head(14, field)) <==> <RouterForwardAccepted as WireShape>::decodes(field),
        Response::decodes(carried_head(6, field)) <==> <RouterForwardRefused as WireShape>::decodes(field),
        Response::decodes(carried_head(11, field)) <==> <RouterObservationUnimplemented as WireShape>::decodes(field),
        Response::decodes(carried_head(8, field)) <==> <RouterRoutedObjectsAccepted as WireShape>::decodes(field),
        Response::decodes(carried_head(3, field)) <==> <RouterRoutedObjectsRefused as WireShape>::decodes(field),
        Response::decodes(carried_head(13, field)) <==> <RouterSessionServerHello as WireShape>::decodes(field),
        Response::decodes(carried_head(12, field)) <==> <RouterSessionAccepted as WireShape>::decodes(field),
        Response::decodes(carried_head(9, field)) <==> <RouterSessionRefused as WireShape>::decodes(field),
        Response::decodes(carried_head(2, field)) <==> <RouterSessionData as WireShape>::decodes(field),
        Response::decodes(carried_head(10, field)) <==> <ActorRegistered as WireShape>::decodes(field),
        Response::decodes(carried_head(5, field)) <==> <ActorRegistrationRefused as WireShape>::decodes(field),
        forall|ordinal: u16| ordinal >= 15 ==> !#[trigger] Response::decodes(carried_head(ordinal, field)),
{
}

} // verus!

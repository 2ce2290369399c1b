//! The structural wire projection of every contract type: a struct is the
//! product of its fields in order, a record of one transparent field is that
//! field, and an enum variant is its wire ordinal with its payload, if any.

use vstd::prelude::*;

use crate::contract::{
    AcceptedMessages, Actor, ActorRegistered, ActorRegistrationDisposition,
    ActorRegistrationRefusalReason, ActorRegistrationRefused, Address, Attachments, Attestation,
    AttestationIssuedAt, Auxiliary, Body, BootstrapPath, Channel, ChannelStatus, ContentDigest,
    ContractName, ContractOperation, ContractPayloadSize, CriomeSocketPath, DeferredMessages,
    DeliveryStatus, DestinationActor, Endpoint, EndpointKind, EndpointTransport, Engine,
    FailedMessages, ForwardMarker, ForwardRefusalReason, ForwardedMessagePayload,
    GrantDirectMessage, Home, Identity, InitiatorChallenge, InitiatorEphemeralKey,
    InitiatorProof, InstallStructuralChannels, IssuedAt, KeyConfirmation, MessageSlot,
    MetaRouterSocketMode, MetaRouterSocketPath, Name, Nonce, ObservationReason,
    ObservationScope, OwnerIdentity, PayloadOctets, Process, ProofAttestationIssuedAt,
    ProofChallengeNonce, ProofDigest, ProofPublicKey, ProofScheme, ProofSignature, ProofSigner,
    PublicKey, Query, RefusalReason, RegisterActor, RegisterRemoteRouter, RegisteredActor,
    Requester, ResponderChallenge, ResponderEphemeralKey, ResponderProof, Response,
    RoutedContractObject, RoutedMessages, RoutedObjects, RouterBootstrapOperation,
    RouterChannelState, RouterChannelStateQuery, RouterChannelStatus, RouterDaemonConfiguration,
    RouterDeliveryStatus, RouterForwardAccepted, RouterForwardRefusalReason,
    RouterForwardRefused, RouterForwardRequest, RouterIdentity, RouterIdentityProof,
    RouterMessageTrace, RouterMessageTraceMissing, RouterMessageTraceQuery,
    RouterObservationScope, RouterObservationUnimplemented,
    RouterObservationUnimplementedReason, RouterPeerAttestation, RouterRoutedObjectsAccepted,
    RouterRoutedObjectsRefused, RouterSessionAccepted, RouterSessionClientHello,
    RouterSessionClientProof, RouterSessionData, RouterSessionRefused, RouterSessionServerHello,
    RouterSocketMode, RouterSocketPath, RouterSummary, RouterSummaryQuery, Scheme, SealedOctets,
    SessionRefusalReason, Signature, SignatureScheme, Signer, SourceActor, StorePath,
    Submission, SupervisionSocketMode, SupervisionSocketPath, TailnetListenAddress, Target,
    UnixUserIdentifier,
};
use crate::wire::{
    lemma_models_of, models_of, one_field, WireModel, WireShape, WireShapeError, WireValue,
};

verus! {

impl WireShape for OwnerIdentity {
    open spec fn wire_model(&self) -> WireModel {
        match self {
            OwnerIdentity::UnixUser(payload) => WireModel::Variant {
                ordinal: 0,
                fields: seq![payload.wire_model()],
            },
        }
    }

    open spec fn decodes(model: WireModel) -> bool {
        match model {
            WireModel::Variant { ordinal, fields } => {
                &&& fields.len() == 1
                &&& match ordinal {
                    0 => <UnixUserIdentifier as WireShape>::decodes(fields[0]),
                    _ => false,
                }
            },
            _ => false,
        }
    }

    fn to_wire(&self) -> (wire: WireValue) {
        match self {
            OwnerIdentity::UnixUser(payload) => {
                let fields = vec![payload.to_wire()];
                proof {
                    lemma_models_of(fields@);
                    assert(models_of(fields@) =~= seq![payload.wire_model()]);
                }
                WireValue::Variant { ordinal: 0, fields }
            },
        }
    }

    fn from_wire(value: WireValue) -> (restored: Result<Self, WireShapeError>) {
        match value {
            WireValue::Variant { ordinal, fields } => {
                proof {
                    lemma_models_of(fields@);
                }
                let ghost parts = models_of(fields@);
                if ordinal == 0 {
                    let field = match one_field(fields) {
                        Ok(w) => w,
                        Err(e) => {
                            return Err(e);
                        },
                    };
                    match <UnixUserIdentifier as WireShape>::from_wire(field) {
                        Ok(payload) => {
                            assert(parts =~= seq![payload.wire_model()]);
                            Ok(OwnerIdentity::UnixUser(payload))
                        },
                        Err(e) => Err(e),
                    }
                } else {
                    Err(WireShapeError)
                }
            },
            _ => Err(WireShapeError),
        }
    }

    proof fn lemma_projection_decodes(&self) {
        match self {
            OwnerIdentity::UnixUser(payload) => payload.lemma_projection_decodes(),
        }
    }
}

impl WireShape for EndpointKind {
    open spec fn wire_model(&self) -> WireModel {
        match self {
            EndpointKind::Human => WireModel::Variant { ordinal: 1, fields: Seq::empty() },
            EndpointKind::HarnessSocket => WireModel::Variant { ordinal: 2, fields: Seq::empty() },
            EndpointKind::PtySocket => WireModel::Variant { ordinal: 4, fields: Seq::empty() },
            EndpointKind::RemoteRouter => WireModel::Variant { ordinal: 0, fields: Seq::empty() },
            EndpointKind::ComponentSocket => WireModel::Variant { ordinal: 3, fields: Seq::empty() },
        }
    }

    open spec fn decodes(model: WireModel) -> bool {
        match model {
            WireModel::Variant { ordinal, fields } => fields.len() == 0 && ordinal < 5,
            _ => false,
        }
    }

    fn to_wire(&self) -> (wire: WireValue) {
        let fields: Vec<WireValue> = Vec::new();
        proof {
            assert(models_of(fields@) =~= Seq::empty());
        }
        match self {
            EndpointKind::Human => WireValue::Variant { ordinal: 1, fields },
            EndpointKind::HarnessSocket => WireValue::Variant { ordinal: 2, fields },
            EndpointKind::PtySocket => WireValue::Variant { ordinal: 4, fields },
            EndpointKind::RemoteRouter => WireValue::Variant { ordinal: 0, fields },
            EndpointKind::ComponentSocket => WireValue::Variant { ordinal: 3, fields },
        }
    }

    fn from_wire(value: WireValue) -> (restored: Result<Self, WireShapeError>) {
        match value {
            WireValue::Variant { ordinal, fields } => {
                proof {
                    lemma_models_of(fields@);
                }
                if fields.len() != 0 {
                    return Err(WireShapeError);
                }
                assert(models_of(fields@) =~= Seq::empty());
                if ordinal == 0 {
                    Ok(EndpointKind::RemoteRouter)
                } else if ordinal == 1 {
                    Ok(EndpointKind::Human)
                } else if ordinal == 2 {
                    Ok(EndpointKind::HarnessSocket)
                } else if ordinal == 3 {
                    Ok(EndpointKind::ComponentSocket)
                } else if ordinal == 4 {
                    Ok(EndpointKind::PtySocket)
                } else {
                    Err(WireShapeError)
                }
            },
            _ => Err(WireShapeError),
        }
    }

    proof fn lemma_projection_decodes(&self) {
    }
}

impl WireShape for EndpointTransport {
    open spec fn wire_model(&self) -> WireModel {
        WireModel::Product(seq![self.endpoint_kind.wire_model(), self.target.wire_model(), self.auxiliary.wire_model()])
    }

    open spec fn decodes(model: WireModel) -> bool {
        match model {
            WireModel::Product(parts) => {
                &&& parts.len() == 3
                &&& <EndpointKind as WireShape>::decodes(parts[0])
                &&& <Target as WireShape>::decodes(parts[1])
                &&& <Auxiliary as WireShape>::decodes(parts[2])
            },
            _ => false,
        }
    }

    fn to_wire(&self) -> (wire: WireValue) {
        let fields = vec![self.endpoint_kind.to_wire(), self.target.to_wire(), self.auxiliary.to_wire()];
        proof {
            lemma_models_of(fields@);
            assert(models_of(fields@) =~= seq![self.endpoint_kind.wire_model(), self.target.wire_model(), self.auxiliary.wire_model()]);
        }
        WireValue::Product(fields)
    }

    fn from_wire(value: WireValue) -> (restored: Result<Self, WireShapeError>) {
        let ghost whole = value.model();
        match value {
            WireValue::Product(fields) => {
                proof {
                    lemma_models_of(fields@);
                }
                if fields.len() != 3 {
                    return Err(WireShapeError);
                }
                let ghost parts = fields@;
                let mut fields = fields;
                let w0 = fields.remove(0);
                assert(w0 == parts[0]);
                let w1 = fields.remove(0);
                assert(w1 == parts[1]);
                let w2 = fields.remove(0);
                assert(w2 == parts[2]);
                let endpoint_kind = match <EndpointKind as WireShape>::from_wire(w0) {
                    Ok(v) => v,
                    Err(e) => {
                        return Err(e);
                    },
                };
                let target = match <Target as WireShape>::from_wire(w1) {
                    Ok(v) => v,
                    Err(e) => {
                        return Err(e);
                    },
                };
                let auxiliary = match <Auxiliary as WireShape>::from_wire(w2) {
                    Ok(v) => v,
                    Err(e) => {
                        return Err(e);
                    },
                };
                let restored = EndpointTransport { endpoint_kind, target, auxiliary };
                assert(whole->Product_0 =~= seq![restored.endpoint_kind.wire_model(), restored.target.wire_model(), restored.auxiliary.wire_model()]);
                Ok(restored)
            },
            _ => Err(WireShapeError),
        }
    }

    proof fn lemma_projection_decodes(&self) {
        self.endpoint_kind.lemma_projection_decodes();
        self.target.lemma_projection_decodes();
        self.auxiliary.lemma_projection_decodes();
    }
}

impl WireShape for Actor {
    open spec fn wire_model(&self) -> WireModel {
        WireModel::Product(seq![self.name.wire_model(), self.process.wire_model(), self.endpoint.wire_model()])
    }

    open spec fn decodes(model: WireModel) -> bool {
        match model {
            WireModel::Product(parts) => {
                &&& parts.len() == 3
                &&& <Name as WireShape>::decodes(parts[0])
                &&& <Process as WireShape>::decodes(parts[1])
                &&& <Endpoint as WireShape>::decodes(parts[2])
            },
            _ => false,
        }
    }

    fn to_wire(&self) -> (wire: WireValue) {
        let fields = vec![self.name.to_wire(), self.process.to_wire(), self.endpoint.to_wire()];
        proof {
            lemma_models_of(fields@);
            assert(models_of(fields@) =~= seq![self.name.wire_model(), self.process.wire_model(), self.endpoint.wire_model()]);
        }
        WireValue::Product(fields)
    }

    fn from_wire(value: WireValue) -> (restored: Result<Self, WireShapeError>) {
        let ghost whole = value.model();
        match value {
            WireValue::Product(fields) => {
                proof {
                    lemma_models_of(fields@);
                }
                if fields.len() != 3 {
                    return Err(WireShapeError);
                }
                let ghost parts = fields@;
                let mut fields = fields;
                let w0 = fields.remove(0);
                assert(w0 == parts[0]);
                let w1 = fields.remove(0);
                assert(w1 == parts[1]);
                let w2 = fields.remove(0);
                assert(w2 == parts[2]);
                let name = match <Name as WireShape>::from_wire(w0) {
                    Ok(v) => v,
                    Err(e) => {
                        return Err(e);
                    },
                };
                let process = match <Process as WireShape>::from_wire(w1) {
                    Ok(v) => v,
                    Err(e) => {
                        return Err(e);
                    },
                };
                let endpoint = match <Endpoint as WireShape>::from_wire(w2) {
                    Ok(v) => v,
                    Err(e) => {
                        return Err(e);
                    },
                };
                let restored = Actor { name, process, endpoint };
                assert(whole->Product_0 =~= seq![restored.name.wire_model(), restored.process.wire_model(), restored.endpoint.wire_model()]);
                Ok(restored)
            },
            _ => Err(WireShapeError),
        }
    }

    proof fn lemma_projection_decodes(&self) {
        self.name.lemma_projection_decodes();
        self.process.lemma_projection_decodes();
        self.endpoint.lemma_projection_decodes();
    }
}

impl WireShape for RegisterActor {
    open spec fn wire_model(&self) -> WireModel {
        WireModel::Product(seq![self.actor.wire_model(), self.home.wire_model()])
    }

    open spec fn decodes(model: WireModel) -> bool {
        match model {
            WireModel::Product(parts) => {
                &&& parts.len() == 2
                &&& <Actor as WireShape>::decodes(parts[0])
                &&& <Home as WireShape>::decodes(parts[1])
            },
            _ => false,
        }
    }

    fn to_wire(&self) -> (wire: WireValue) {
        let fields = vec![self.actor.to_wire(), self.home.to_wire()];
        proof {
            lemma_models_of(fields@);
            assert(models_of(fields@) =~= seq![self.actor.wire_model(), self.home.wire_model()]);
        }
        WireValue::Product(fields)
    }

    fn from_wire(value: WireValue) -> (restored: Result<Self, WireShapeError>) {
        let ghost whole = value.model();
        match value {
            WireValue::Product(fields) => {
                proof {
                    lemma_models_of(fields@);
                }
                if fields.len() != 2 {
                    return Err(WireShapeError);
                }
                let ghost parts = fields@;
                let mut fields = fields;
                let w0 = fields.remove(0);
                assert(w0 == parts[0]);
                let w1 = fields.remove(0);
                assert(w1 == parts[1]);
                let actor = match <Actor as WireShape>::from_wire(w0) {
                    Ok(v) => v,
                    Err(e) => {
                        return Err(e);
                    },
                };
                let home = match <Home as WireShape>::from_wire(w1) {
                    Ok(v) => v,
                    Err(e) => {
                        return Err(e);
                    },
                };
                let restored = RegisterActor { actor, home };
                assert(whole->Product_0 =~= seq![restored.actor.wire_model(), restored.home.wire_model()]);
                Ok(restored)
            },
            _ => Err(WireShapeError),
        }
    }

    proof fn lemma_projection_decodes(&self) {
        self.actor.lemma_projection_decodes();
        self.home.lemma_projection_decodes();
    }
}

impl WireShape for ActorRegistrationDisposition {
    open spec fn wire_model(&self) -> WireModel {
        match self {
            ActorRegistrationDisposition::Registered => WireModel::Variant { ordinal: 0, fields: Seq::empty() },
            ActorRegistrationDisposition::EndpointUpdated => WireModel::Variant { ordinal: 1, fields: Seq::empty() },
        }
    }

    open spec fn decodes(model: WireModel) -> bool {
        match model {
            WireModel::Variant { ordinal, fields } => fields.len() == 0 && ordinal < 2,
            _ => false,
        }
    }

    fn to_wire(&self) -> (wire: WireValue) {
        let fields: Vec<WireValue> = Vec::new();
        proof {
            assert(models_of(fields@) =~= Seq::empty());
        }
        match self {
            ActorRegistrationDisposition::Registered => WireValue::Variant { ordinal: 0, fields },
            ActorRegistrationDisposition::EndpointUpdated => WireValue::Variant { ordinal: 1, fields },
        }
    }

    fn from_wire(value: WireValue) -> (restored: Result<Self, WireShapeError>) {
        match value {
            WireValue::Variant { ordinal, fields } => {
                proof {
                    lemma_models_of(fields@);
                }
                if fields.len() != 0 {
                    return Err(WireShapeError);
                }
                assert(models_of(fields@) =~= Seq::empty());
                if ordinal == 0 {
                    Ok(ActorRegistrationDisposition::Registered)
                } else if ordinal == 1 {
                    Ok(ActorRegistrationDisposition::EndpointUpdated)
                } else {
                    Err(WireShapeError)
                }
            },
            _ => Err(WireShapeError),
        }
    }

    proof fn lemma_projection_decodes(&self) {
    }
}

impl WireShape for ActorRegistered {
    open spec fn wire_model(&self) -> WireModel {
        WireModel::Product(seq![self.registered_actor.wire_model(), self.actor_registration_disposition.wire_model()])
    }

    open spec fn decodes(model: WireModel) -> bool {
        match model {
            WireModel::Product(parts) => {
                &&& parts.len() == 2
                &&& <RegisteredActor as WireShape>::decodes(parts[0])
                &&& <ActorRegistrationDisposition as WireShape>::decodes(parts[1])
            },
            _ => false,
        }
    }

    fn to_wire(&self) -> (wire: WireValue) {
        let fields = vec![self.registered_actor.to_wire(), self.actor_registration_disposition.to_wire()];
        proof {
            lemma_models_of(fields@);
            assert(models_of(fields@) =~= seq![self.registered_actor.wire_model(), self.actor_registration_disposition.wire_model()]);
        }
        WireValue::Product(fields)
    }

    fn from_wire(value: WireValue) -> (restored: Result<Self, WireShapeError>) {
        let ghost whole = value.model();
        match value {
            WireValue::Product(fields) => {
                proof {
                    lemma_models_of(fields@);
                }
                if fields.len() != 2 {
                    return Err(WireShapeError);
                }
                let ghost parts = fields@;
                let mut fields = fields;
                let w0 = fields.remove(0);
                assert(w0 == parts[0]);
                let w1 = fields.remove(0);
                assert(w1 == parts[1]);
                let registered_actor = match <RegisteredActor as WireShape>::from_wire(w0) {
                    Ok(v) => v,
                    Err(e) => {
                        return Err(e);
                    },
                };
                let actor_registration_disposition = match <ActorRegistrationDisposition as WireShape>::from_wire(w1) {
                    Ok(v) => v,
                    Err(e) => {
                        return Err(e);
                    },
                };
                let restored = ActorRegistered { registered_actor, actor_registration_disposition };
                assert(whole->Product_0 =~= seq![restored.registered_actor.wire_model(), restored.actor_registration_disposition.wire_model()]);
                Ok(restored)
            },
            _ => Err(WireShapeError),
        }
    }

    proof fn lemma_projection_decodes(&self) {
        self.registered_actor.lemma_projection_decodes();
        self.actor_registration_disposition.lemma_projection_decodes();
    }
}

impl WireShape for ActorRegistrationRefusalReason {
    open spec fn wire_model(&self) -> WireModel {
        match self {
            ActorRegistrationRefusalReason::ProcessIdentifierOutOfRange => WireModel::Variant { ordinal: 1, fields: Seq::empty() },
            ActorRegistrationRefusalReason::RemoteRouterEndpointNotLocal => WireModel::Variant { ordinal: 0, fields: Seq::empty() },
        }
    }

    open spec fn decodes(model: WireModel) -> bool {
        match model {
            WireModel::Variant { ordinal, fields } => fields.len() == 0 && ordinal < 2,
            _ => false,
        }
    }

    fn to_wire(&self) -> (wire: WireValue) {
        let fields: Vec<WireValue> = Vec::new();
        proof {
            assert(models_of(fields@) =~= Seq::empty());
        }
        match self {
            ActorRegistrationRefusalReason::ProcessIdentifierOutOfRange => WireValue::Variant { ordinal: 1, fields },
            ActorRegistrationRefusalReason::RemoteRouterEndpointNotLocal => WireValue::Variant { ordinal: 0, fields },
        }
    }

    fn from_wire(value: WireValue) -> (restored: Result<Self, WireShapeError>) {
        match value {
            WireValue::Variant { ordinal, fields } => {
                proof {
                    lemma_models_of(fields@);
                }
                if fields.len() != 0 {
                    return Err(WireShapeError);
                }
                assert(models_of(fields@) =~= Seq::empty());
                if ordinal == 0 {
                    Ok(ActorRegistrationRefusalReason::RemoteRouterEndpointNotLocal)
                } else if ordinal == 1 {
                    Ok(ActorRegistrationRefusalReason::ProcessIdentifierOutOfRange)
                } else {
                    Err(WireShapeError)
                }
            },
            _ => Err(WireShapeError),
        }
    }

    proof fn lemma_projection_decodes(&self) {
    }
}

impl WireShape for ActorRegistrationRefused {
    open spec fn wire_model(&self) -> WireModel {
        WireModel::Product(seq![self.registered_actor.wire_model(), self.actor_registration_refusal_reason.wire_model()])
    }

    open spec fn decodes(model: WireModel) -> bool {
        match model {
            WireModel::Product(parts) => {
                &&& parts.len() == 2
                &&& <RegisteredActor as WireShape>::decodes(parts[0])
                &&& <ActorRegistrationRefusalReason as WireShape>::decodes(parts[1])
            },
            _ => false,
        }
    }

    fn to_wire(&self) -> (wire: WireValue) {
        let fields = vec![self.registered_actor.to_wire(), self.actor_registration_refusal_reason.to_wire()];
        proof {
            lemma_models_of(fields@);
            assert(models_of(fields@) =~= seq![self.registered_actor.wire_model(), self.actor_registration_refusal_reason.wire_model()]);
        }
        WireValue::Product(fields)
    }

    fn from_wire(value: WireValue) -> (restored: Result<Self, WireShapeError>) {
        let ghost whole = value.model();
        match value {
            WireValue::Product(fields) => {
                proof {
                    lemma_models_of(fields@);
                }
                if fields.len() != 2 {
                    return Err(WireShapeError);
                }
                let ghost parts = fields@;
                let mut fields = fields;
                let w0 = fields.remove(0);
                assert(w0 == parts[0]);
                let w1 = fields.remove(0);
                assert(w1 == parts[1]);
                let registered_actor = match <RegisteredActor as WireShape>::from_wire(w0) {
                    Ok(v) => v,
                    Err(e) => {
                        return Err(e);
                    },
                };
                let actor_registration_refusal_reason = match <ActorRegistrationRefusalReason as WireShape>::from_wire(w1) {
                    Ok(v) => v,
                    Err(e) => {
                        return Err(e);
                    },
                };
                let restored = ActorRegistrationRefused { registered_actor, actor_registration_refusal_reason };
                assert(whole->Product_0 =~= seq![restored.registered_actor.wire_model(), restored.actor_registration_refusal_reason.wire_model()]);
                Ok(restored)
            },
            _ => Err(WireShapeError),
        }
    }

    proof fn lemma_projection_decodes(&self) {
        self.registered_actor.lemma_projection_decodes();
        self.actor_registration_refusal_reason.lemma_projection_decodes();
    }
}

impl WireShape for GrantDirectMessage {
    open spec fn wire_model(&self) -> WireModel {
        WireModel::Product(seq![self.source_actor.wire_model(), self.destination_actor.wire_model()])
    }

    open spec fn decodes(model: WireModel) -> bool {
        match model {
            WireModel::Product(parts) => {
                &&& parts.len() == 2
                &&& <SourceActor as WireShape>::decodes(parts[0])
                &&& <DestinationActor as WireShape>::decodes(parts[1])
            },
            _ => false,
        }
    }

    fn to_wire(&self) -> (wire: WireValue) {
        let fields = vec![self.source_actor.to_wire(), self.destination_actor.to_wire()];
        proof {
            lemma_models_of(fields@);
            assert(models_of(fields@) =~= seq![self.source_actor.wire_model(), self.destination_actor.wire_model()]);
        }
        WireValue::Product(fields)
    }

    fn from_wire(value: WireValue) -> (restored: Result<Self, WireShapeError>) {
        let ghost whole = value.model();
        match value {
            WireValue::Product(fields) => {
                proof {
                    lemma_models_of(fields@);
                }
                if fields.len() != 2 {
                    return Err(WireShapeError);
                }
                let ghost parts = fields@;
                let mut fields = fields;
                let w0 = fields.remove(0);
                assert(w0 == parts[0]);
                let w1 = fields.remove(0);
                assert(w1 == parts[1]);
                let source_actor = match <SourceActor as WireShape>::from_wire(w0) {
                    Ok(v) => v,
                    Err(e) => {
                        return Err(e);
                    },
                };
                let destination_actor = match <DestinationActor as WireShape>::from_wire(w1) {
                    Ok(v) => v,
                    Err(e) => {
                        return Err(e);
                    },
                };
                let restored = GrantDirectMessage { source_actor, destination_actor };
                assert(whole->Product_0 =~= seq![restored.source_actor.wire_model(), restored.destination_actor.wire_model()]);
                Ok(restored)
            },
            _ => Err(WireShapeError),
        }
    }

    proof fn lemma_projection_decodes(&self) {
        self.source_actor.lemma_projection_decodes();
        self.destination_actor.lemma_projection_decodes();
    }
}

impl WireShape for InstallStructuralChannels {
    open spec fn wire_model(&self) -> WireModel {
        WireModel::Product(seq![self.requester.wire_model()])
    }

    open spec fn decodes(model: WireModel) -> bool {
        match model {
            WireModel::Product(parts) => {
                &&& parts.len() == 1
                &&& <Requester as WireShape>::decodes(parts[0])
            },
            _ => false,
        }
    }

    fn to_wire(&self) -> (wire: WireValue) {
        let fields = vec![self.requester.to_wire()];
        proof {
            lemma_models_of(fields@);
            assert(models_of(fields@) =~= seq![self.requester.wire_model()]);
        }
        WireValue::Product(fields)
    }

    fn from_wire(value: WireValue) -> (restored: Result<Self, WireShapeError>) {
        let ghost whole = value.model();
        match value {
            WireValue::Product(fields) => {
                proof {
                    lemma_models_of(fields@);
                }
                if fields.len() != 1 {
                    return Err(WireShapeError);
                }
                let ghost parts = fields@;
                let mut fields = fields;
                let w0 = fields.remove(0);
                assert(w0 == parts[0]);
                let requester = match <Requester as WireShape>::from_wire(w0) {
                    Ok(v) => v,
                    Err(e) => {
                        return Err(e);
                    },
                };
                let restored = InstallStructuralChannels { requester };
                assert(whole->Product_0 =~= seq![restored.requester.wire_model()]);
                Ok(restored)
            },
            _ => Err(WireShapeError),
        }
    }

    proof fn lemma_projection_decodes(&self) {
        self.requester.lemma_projection_decodes();
    }
}

impl WireShape for RegisterRemoteRouter {
    open spec fn wire_model(&self) -> WireModel {
        WireModel::Product(seq![self.identity.wire_model(), self.address.wire_model()])
    }

    open spec fn decodes(model: WireModel) -> bool {
        match model {
            WireModel::Product(parts) => {
                &&& parts.len() == 2
                &&& <Identity as WireShape>::decodes(parts[0])
                &&& <Address as WireShape>::decodes(parts[1])
            },
            _ => false,
        }
    }

    fn to_wire(&self) -> (wire: WireValue) {
        let fields = vec![self.identity.to_wire(), self.address.to_wire()];
        proof {
            lemma_models_of(fields@);
            assert(models_of(fields@) =~= seq![self.identity.wire_model(), self.address.wire_model()]);
        }
        WireValue::Product(fields)
    }

    fn from_wire(value: WireValue) -> (restored: Result<Self, WireShapeError>) {
        let ghost whole = value.model();
        match value {
            WireValue::Product(fields) => {
                proof {
                    lemma_models_of(fields@);
                }
                if fields.len() != 2 {
                    return Err(WireShapeError);
                }
                let ghost parts = fields@;
                let mut fields = fields;
                let w0 = fields.remove(0);
                assert(w0 == parts[0]);
                let w1 = fields.remove(0);
                assert(w1 == parts[1]);
                let identity = match <Identity as WireShape>::from_wire(w0) {
                    Ok(v) => v,
                    Err(e) => {
                        return Err(e);
                    },
                };
                let address = match <Address as WireShape>::from_wire(w1) {
                    Ok(v) => v,
                    Err(e) => {
                        return Err(e);
                    },
                };
                let restored = RegisterRemoteRouter { identity, address };
                assert(whole->Product_0 =~= seq![restored.identity.wire_model(), restored.address.wire_model()]);
                Ok(restored)
            },
            _ => Err(WireShapeError),
        }
    }

    proof fn lemma_projection_decodes(&self) {
        self.identity.lemma_projection_decodes();
        self.address.lemma_projection_decodes();
    }
}

impl WireShape for RouterBootstrapOperation {
    open spec fn wire_model(&self) -> WireModel {
        match self {
            RouterBootstrapOperation::RegisterActor(payload) => WireModel::Variant {
                ordinal: 0,
                fields: seq![payload.wire_model()],
            },
            RouterBootstrapOperation::GrantDirectMessage(payload) => WireModel::Variant {
                ordinal: 1,
                fields: seq![payload.wire_model()],
            },
            RouterBootstrapOperation::InstallStructuralChannels(payload) => WireModel::Variant {
                ordinal: 2,
                fields: seq![payload.wire_model()],
            },
            RouterBootstrapOperation::RegisterRemoteRouter(payload) => WireModel::Variant {
                ordinal: 3,
                fields: seq![payload.wire_model()],
            },
        }
    }

    open spec fn decodes(model: WireModel) -> bool {
        match model {
            WireModel::Variant { ordinal, fields } => {
                &&& fields.len() == 1
                &&& match ordinal {
                    0 => <RegisterActor as WireShape>::decodes(fields[0]),
                    1 => <GrantDirectMessage as WireShape>::decodes(fields[0]),
                    2 => <InstallStructuralChannels as WireShape>::decodes(fields[0]),
                    3 => <RegisterRemoteRouter as WireShape>::decodes(fields[0]),
                    _ => false,
                }
            },
            _ => false,
        }
    }

    fn to_wire(&self) -> (wire: WireValue) {
        match self {
            RouterBootstrapOperation::RegisterActor(payload) => {
                let fields = vec![payload.to_wire()];
                proof {
                    lemma_models_of(fields@);
                    assert(models_of(fields@) =~= seq![payload.wire_model()]);
                }
                WireValue::Variant { ordinal: 0, fields }
            },
            RouterBootstrapOperation::GrantDirectMessage(payload) => {
                let fields = vec![payload.to_wire()];
                proof {
                    lemma_models_of(fields@);
                    assert(models_of(fields@) =~= seq![payload.wire_model()]);
                }
                WireValue::Variant { ordinal: 1, fields }
            },
            RouterBootstrapOperation::InstallStructuralChannels(payload) => {
                let fields = vec![payload.to_wire()];
                proof {
                    lemma_models_of(fields@);
                    assert(models_of(fields@) =~= seq![payload.wire_model()]);
                }
                WireValue::Variant { ordinal: 2, fields }
            },
            RouterBootstrapOperation::RegisterRemoteRouter(payload) => {
                let fields = vec![payload.to_wire()];
                proof {
                    lemma_models_of(fields@);
                    assert(models_of(fields@) =~= seq![payload.wire_model()]);
                }
                WireValue::Variant { ordinal: 3, fields }
            },
        }
    }

    fn from_wire(value: WireValue) -> (restored: Result<Self, WireShapeError>) {
        match value {
            WireValue::Variant { ordinal, fields } => {
                proof {
                    lemma_models_of(fields@);
                }
                let ghost parts = models_of(fields@);
                if ordinal == 0 {
                    let field = match one_field(fields) {
                        Ok(w) => w,
                        Err(e) => {
                            return Err(e);
                        },
                    };
                    match <RegisterActor as WireShape>::from_wire(field) {
                        Ok(payload) => {
                            assert(parts =~= seq![payload.wire_model()]);
                            Ok(RouterBootstrapOperation::RegisterActor(payload))
                        },
                        Err(e) => Err(e),
                    }
                } else if ordinal == 1 {
                    let field = match one_field(fields) {
                        Ok(w) => w,
                        Err(e) => {
                            return Err(e);
                        },
                    };
                    match <GrantDirectMessage as WireShape>::from_wire(field) {
                        Ok(payload) => {
                            assert(parts =~= seq![payload.wire_model()]);
                            Ok(RouterBootstrapOperation::GrantDirectMessage(payload))
                        },
                        Err(e) => Err(e),
                    }
                } else if ordinal == 2 {
                    let field = match one_field(fields) {
                        Ok(w) => w,
                        Err(e) => {
                            return Err(e);
                        },
                    };
                    match <InstallStructuralChannels as WireShape>::from_wire(field) {
                        Ok(payload) => {
                            assert(parts =~= seq![payload.wire_model()]);
                            Ok(RouterBootstrapOperation::InstallStructuralChannels(payload))
                        },
                        Err(e) => Err(e),
                    }
                } else if ordinal == 3 {
                    let field = match one_field(fields) {
                        Ok(w) => w,
                        Err(e) => {
                            return Err(e);
                        },
                    };
                    match <RegisterRemoteRouter as WireShape>::from_wire(field) {
                        Ok(payload) => {
                            assert(parts =~= seq![payload.wire_model()]);
                            Ok(RouterBootstrapOperation::RegisterRemoteRouter(payload))
                        },
                        Err(e) => Err(e),
                    }
                } else {
                    Err(WireShapeError)
                }
            },
            _ => Err(WireShapeError),
        }
    }

    proof fn lemma_projection_decodes(&self) {
        match self {
            RouterBootstrapOperation::RegisterActor(payload) => payload.lemma_projection_decodes(),
            RouterBootstrapOperation::GrantDirectMessage(payload) => payload.lemma_projection_decodes(),
            RouterBootstrapOperation::InstallStructuralChannels(payload) => payload.lemma_projection_decodes(),
            RouterBootstrapOperation::RegisterRemoteRouter(payload) => payload.lemma_projection_decodes(),
        }
    }
}

impl WireShape for RouterObservationScope {
    open spec fn wire_model(&self) -> WireModel {
        match self {
            RouterObservationScope::Summary => WireModel::Variant { ordinal: 2, fields: Seq::empty() },
            RouterObservationScope::MessageTrace => WireModel::Variant { ordinal: 0, fields: Seq::empty() },
            RouterObservationScope::ChannelState => WireModel::Variant { ordinal: 1, fields: Seq::empty() },
        }
    }

    open spec fn decodes(model: WireModel) -> bool {
        match model {
            WireModel::Variant { ordinal, fields } => fields.len() == 0 && ordinal < 3,
            _ => false,
        }
    }

    fn to_wire(&self) -> (wire: WireValue) {
        let fields: Vec<WireValue> = Vec::new();
        proof {
            assert(models_of(fields@) =~= Seq::empty());
        }
        match self {
            RouterObservationScope::Summary => WireValue::Variant { ordinal: 2, fields },
            RouterObservationScope::MessageTrace => WireValue::Variant { ordinal: 0, fields },
            RouterObservationScope::ChannelState => WireValue::Variant { ordinal: 1, fields },
        }
    }

    fn from_wire(value: WireValue) -> (restored: Result<Self, WireShapeError>) {
        match value {
            WireValue::Variant { ordinal, fields } => {
                proof {
                    lemma_models_of(fields@);
                }
                if fields.len() != 0 {
                    return Err(WireShapeError);
                }
                assert(models_of(fields@) =~= Seq::empty());
                if ordinal == 0 {
                    Ok(RouterObservationScope::MessageTrace)
                } else if ordinal == 1 {
                    Ok(RouterObservationScope::ChannelState)
                } else if ordinal == 2 {
                    Ok(RouterObservationScope::Summary)
                } else {
                    Err(WireShapeError)
                }
            },
            _ => Err(WireShapeError),
        }
    }

    proof fn lemma_projection_decodes(&self) {
    }
}

impl WireShape for RouterSummaryQuery {
    open spec fn wire_model(&self) -> WireModel {
        WireModel::Product(seq![self.engine.wire_model()])
    }

    open spec fn decodes(model: WireModel) -> bool {
        match model {
            WireModel::Product(parts) => {
                &&& parts.len() == 1
                &&& <Engine as WireShape>::decodes(parts[0])
            },
            _ => false,
        }
    }

    fn to_wire(&self) -> (wire: WireValue) {
        let fields = vec![self.engine.to_wire()];
        proof {
            lemma_models_of(fields@);
            assert(models_of(fields@) =~= seq![self.engine.wire_model()]);
        }
        WireValue::Product(fields)
    }

    fn from_wire(value: WireValue) -> (restored: Result<Self, WireShapeError>) {
        let ghost whole = value.model();
        match value {
            WireValue::Product(fields) => {
                proof {
                    lemma_models_of(fields@);
                }
                if fields.len() != 1 {
                    return Err(WireShapeError);
                }
                let ghost parts = fields@;
                let mut fields = fields;
                let w0 = fields.remove(0);
                assert(w0 == parts[0]);
                let engine = match <Engine as WireShape>::from_wire(w0) {
                    Ok(v) => v,
                    Err(e) => {
                        return Err(e);
                    },
                };
                let restored = RouterSummaryQuery { engine };
                assert(whole->Product_0 =~= seq![restored.engine.wire_model()]);
                Ok(restored)
            },
            _ => Err(WireShapeError),
        }
    }

    proof fn lemma_projection_decodes(&self) {
        self.engine.lemma_projection_decodes();
    }
}

impl WireShape for RouterMessageTraceQuery {
    open spec fn wire_model(&self) -> WireModel {
        WireModel::Product(seq![self.engine.wire_model(), self.message_slot.wire_model()])
    }

    open spec fn decodes(model: WireModel) -> bool {
        match model {
            WireModel::Product(parts) => {
                &&& parts.len() == 2
                &&& <Engine as WireShape>::decodes(parts[0])
                &&& <MessageSlot as WireShape>::decodes(parts[1])
            },
            _ => false,
        }
    }

    fn to_wire(&self) -> (wire: WireValue) {
        let fields = vec![self.engine.to_wire(), self.message_slot.to_wire()];
        proof {
            lemma_models_of(fields@);
            assert(models_of(fields@) =~= seq![self.engine.wire_model(), self.message_slot.wire_model()]);
        }
        WireValue::Product(fields)
    }

    fn from_wire(value: WireValue) -> (restored: Result<Self, WireShapeError>) {
        let ghost whole = value.model();
        match value {
            WireValue::Product(fields) => {
                proof {
                    lemma_models_of(fields@);
                }
                if fields.len() != 2 {
                    return Err(WireShapeError);
                }
                let ghost parts = fields@;
                let mut fields = fields;
                let w0 = fields.remove(0);
                assert(w0 == parts[0]);
                let w1 = fields.remove(0);
                assert(w1 == parts[1]);
                let engine = match <Engine as WireShape>::from_wire(w0) {
                    Ok(v) => v,
                    Err(e) => {
                        return Err(e);
                    },
                };
                let message_slot = match <MessageSlot as WireShape>::from_wire(w1) {
                    Ok(v) => v,
                    Err(e) => {
                        return Err(e);
                    },
                };
                let restored = RouterMessageTraceQuery { engine, message_slot };
                assert(whole->Product_0 =~= seq![restored.engine.wire_model(), restored.message_slot.wire_model()]);
                Ok(restored)
            },
            _ => Err(WireShapeError),
        }
    }

    proof fn lemma_projection_decodes(&self) {
        self.engine.lemma_projection_decodes();
        self.message_slot.lemma_projection_decodes();
    }
}

impl WireShape for RouterChannelStateQuery {
    open spec fn wire_model(&self) -> WireModel {
        WireModel::Product(seq![self.engine.wire_model(), self.channel.wire_model()])
    }

    open spec fn decodes(model: WireModel) -> bool {
        match model {
            WireModel::Product(parts) => {
                &&& parts.len() == 2
                &&& <Engine as WireShape>::decodes(parts[0])
                &&& <Channel as WireShape>::decodes(parts[1])
            },
            _ => false,
        }
    }

    fn to_wire(&self) -> (wire: WireValue) {
        let fields = vec![self.engine.to_wire(), self.channel.to_wire()];
        proof {
            lemma_models_of(fields@);
            assert(models_of(fields@) =~= seq![self.engine.wire_model(), self.channel.wire_model()]);
        }
        WireValue::Product(fields)
    }

    fn from_wire(value: WireValue) -> (restored: Result<Self, WireShapeError>) {
        let ghost whole = value.model();
        match value {
            WireValue::Product(fields) => {
                proof {
                    lemma_models_of(fields@);
                }
                if fields.len() != 2 {
                    return Err(WireShapeError);
                }
                let ghost parts = fields@;
                let mut fields = fields;
                let w0 = fields.remove(0);
                assert(w0 == parts[0]);
                let w1 = fields.remove(0);
                assert(w1 == parts[1]);
                let engine = match <Engine as WireShape>::from_wire(w0) {
                    Ok(v) => v,
                    Err(e) => {
                        return Err(e);
                    },
                };
                let channel = match <Channel as WireShape>::from_wire(w1) {
                    Ok(v) => v,
                    Err(e) => {
                        return Err(e);
                    },
                };
                let restored = RouterChannelStateQuery { engine, channel };
                assert(whole->Product_0 =~= seq![restored.engine.wire_model(), restored.channel.wire_model()]);
                Ok(restored)
            },
            _ => Err(WireShapeError),
        }
    }

    proof fn lemma_projection_decodes(&self) {
        self.engine.lemma_projection_decodes();
        self.channel.lemma_projection_decodes();
    }
}

impl WireShape for RouterSummary {
    open spec fn wire_model(&self) -> WireModel {
        WireModel::Product(seq![self.engine.wire_model(), self.accepted_messages.wire_model(), self.routed_messages.wire_model(), self.deferred_messages.wire_model(), self.failed_messages.wire_model()])
    }

    open spec fn decodes(model: WireModel) -> bool {
        match model {
            WireModel::Product(parts) => {
                &&& parts.len() == 5
                &&& <Engine as WireShape>::decodes(parts[0])
                &&& <AcceptedMessages as WireShape>::decodes(parts[1])
                &&& <RoutedMessages as WireShape>::decodes(parts[2])
                &&& <DeferredMessages as WireShape>::decodes(parts[3])
                &&& <FailedMessages as WireShape>::decodes(parts[4])
            },
            _ => false,
        }
    }

    fn to_wire(&self) -> (wire: WireValue) {
        let fields = vec![self.engine.to_wire(), self.accepted_messages.to_wire(), self.routed_messages.to_wire(), self.deferred_messages.to_wire(), self.failed_messages.to_wire()];
        proof {
            lemma_models_of(fields@);
            assert(models_of(fields@) =~= seq![self.engine.wire_model(), self.accepted_messages.wire_model(), self.routed_messages.wire_model(), self.deferred_messages.wire_model(), self.failed_messages.wire_model()]);
        }
        WireValue::Product(fields)
    }

    fn from_wire(value: WireValue) -> (restored: Result<Self, WireShapeError>) {
        let ghost whole = value.model();
        match value {
            WireValue::Product(fields) => {
                proof {
                    lemma_models_of(fields@);
                }
                if fields.len() != 5 {
                    return Err(WireShapeError);
                }
                let ghost parts = fields@;
                let mut fields = fields;
                let w0 = fields.remove(0);
                assert(w0 == parts[0]);
                let w1 = fields.remove(0);
                assert(w1 == parts[1]);
                let w2 = fields.remove(0);
                assert(w2 == parts[2]);
                let w3 = fields.remove(0);
                assert(w3 == parts[3]);
                let w4 = fields.remove(0);
                assert(w4 == parts[4]);
                let engine = match <Engine as WireShape>::from_wire(w0) {
                    Ok(v) => v,
                    Err(e) => {
                        return Err(e);
                    },
                };
                let accepted_messages = match <AcceptedMessages as WireShape>::from_wire(w1) {
                    Ok(v) => v,
                    Err(e) => {
                        return Err(e);
                    },
                };
                let routed_messages = match <RoutedMessages as WireShape>::from_wire(w2) {
                    Ok(v) => v,
                    Err(e) => {
                        return Err(e);
                    },
                };
                let deferred_messages = match <DeferredMessages as WireShape>::from_wire(w3) {
                    Ok(v) => v,
                    Err(e) => {
                        return Err(e);
                    },
                };
                let failed_messages = match <FailedMessages as WireShape>::from_wire(w4) {
                    Ok(v) => v,
                    Err(e) => {
                        return Err(e);
                    },
                };
                let restored = RouterSummary { engine, accepted_messages, routed_messages, deferred_messages, failed_messages };
                assert(whole->Product_0 =~= seq![restored.engine.wire_model(), restored.accepted_messages.wire_model(), restored.routed_messages.wire_model(), restored.deferred_messages.wire_model(), restored.failed_messages.wire_model()]);
                Ok(restored)
            },
            _ => Err(WireShapeError),
        }
    }

    proof fn lemma_projection_decodes(&self) {
        self.engine.lemma_projection_decodes();
        self.accepted_messages.lemma_projection_decodes();
        self.routed_messages.lemma_projection_decodes();
        self.deferred_messages.lemma_projection_decodes();
        self.failed_messages.lemma_projection_decodes();
    }
}

impl WireShape for RouterDeliveryStatus {
    open spec fn wire_model(&self) -> WireModel {
        match self {
            RouterDeliveryStatus::Accepted => WireModel::Variant { ordinal: 2, fields: Seq::empty() },
            RouterDeliveryStatus::Routed => WireModel::Variant { ordinal: 4, fields: Seq::empty() },
            RouterDeliveryStatus::Delivered => WireModel::Variant { ordinal: 3, fields: Seq::empty() },
            RouterDeliveryStatus::Deferred => WireModel::Variant { ordinal: 1, fields: Seq::empty() },
            RouterDeliveryStatus::Failed => WireModel::Variant { ordinal: 5, fields: Seq::empty() },
            RouterDeliveryStatus::ForwardedRemote => WireModel::Variant { ordinal: 0, fields: Seq::empty() },
        }
    }

    open spec fn decodes(model: WireModel) -> bool {
        match model {
            WireModel::Variant { ordinal, fields } => fields.len() == 0 && ordinal < 6,
            _ => false,
        }
    }

    fn to_wire(&self) -> (wire: WireValue) {
        let fields: Vec<WireValue> = Vec::new();
        proof {
            assert(models_of(fields@) =~= Seq::empty());
        }
        match self {
            RouterDeliveryStatus::Accepted => WireValue::Variant { ordinal: 2, fields },
            RouterDeliveryStatus::Routed => WireValue::Variant { ordinal: 4, fields },
            RouterDeliveryStatus::Delivered => WireValue::Variant { ordinal: 3, fields },
            RouterDeliveryStatus::Deferred => WireValue::Variant { ordinal: 1, fields },
            RouterDeliveryStatus::Failed => WireValue::Variant { ordinal: 5, fields },
            RouterDeliveryStatus::ForwardedRemote => WireValue::Variant { ordinal: 0, fields },
        }
    }

    fn from_wire(value: WireValue) -> (restored: Result<Self, WireShapeError>) {
        match value {
            WireValue::Variant { ordinal, fields } => {
                proof {
                    lemma_models_of(fields@);
                }
                if fields.len() != 0 {
                    return Err(WireShapeError);
                }
                assert(models_of(fields@) =~= Seq::empty());
                if ordinal == 0 {
                    Ok(RouterDeliveryStatus::ForwardedRemote)
                } else if ordinal == 1 {
                    Ok(RouterDeliveryStatus::Deferred)
                } else if ordinal == 2 {
                    Ok(RouterDeliveryStatus::Accepted)
                } else if ordinal == 3 {
                    Ok(RouterDeliveryStatus::Delivered)
                } else if ordinal == 4 {
                    Ok(RouterDeliveryStatus::Routed)
                } else if ordinal == 5 {
                    Ok(RouterDeliveryStatus::Failed)
                } else {
                    Err(WireShapeError)
                }
            },
            _ => Err(WireShapeError),
        }
    }

    proof fn lemma_projection_decodes(&self) {
    }
}

impl WireShape for RouterMessageTrace {
    open spec fn wire_model(&self) -> WireModel {
        WireModel::Product(seq![self.engine.wire_model(), self.message_slot.wire_model(), self.delivery_status.wire_model()])
    }

    open spec fn decodes(model: WireModel) -> bool {
        match model {
            WireModel::Product(parts) => {
                &&& parts.len() == 3
                &&& <Engine as WireShape>::decodes(parts[0])
                &&& <MessageSlot as WireShape>::decodes(parts[1])
                &&& <DeliveryStatus as WireShape>::decodes(parts[2])
            },
            _ => false,
        }
    }

    fn to_wire(&self) -> (wire: WireValue) {
        let fields = vec![self.engine.to_wire(), self.message_slot.to_wire(), self.delivery_status.to_wire()];
        proof {
            lemma_models_of(fields@);
            assert(models_of(fields@) =~= seq![self.engine.wire_model(), self.message_slot.wire_model(), self.delivery_status.wire_model()]);
        }
        WireValue::Product(fields)
    }

    fn from_wire(value: WireValue) -> (restored: Result<Self, WireShapeError>) {
        let ghost whole = value.model();
        match value {
            WireValue::Product(fields) => {
                proof {
                    lemma_models_of(fields@);
                }
                if fields.len() != 3 {
                    return Err(WireShapeError);
                }
                let ghost parts = fields@;
                let mut fields = fields;
                let w0 = fields.remove(0);
                assert(w0 == parts[0]);
                let w1 = fields.remove(0);
                assert(w1 == parts[1]);
                let w2 = fields.remove(0);
                assert(w2 == parts[2]);
                let engine = match <Engine as WireShape>::from_wire(w0) {
                    Ok(v) => v,
                    Err(e) => {
                        return Err(e);
                    },
                };
                let message_slot = match <MessageSlot as WireShape>::from_wire(w1) {
                    Ok(v) => v,
                    Err(e) => {
                        return Err(e);
                    },
                };
                let delivery_status = match <DeliveryStatus as WireShape>::from_wire(w2) {
                    Ok(v) => v,
                    Err(e) => {
                        return Err(e);
                    },
                };
                let restored = RouterMessageTrace { engine, message_slot, delivery_status };
                assert(whole->Product_0 =~= seq![restored.engine.wire_model(), restored.message_slot.wire_model(), restored.delivery_status.wire_model()]);
                Ok(restored)
            },
            _ => Err(WireShapeError),
        }
    }

    proof fn lemma_projection_decodes(&self) {
        self.engine.lemma_projection_decodes();
        self.message_slot.lemma_projection_decodes();
        self.delivery_status.lemma_projection_decodes();
    }
}

impl WireShape for RouterMessageTraceMissing {
    open spec fn wire_model(&self) -> WireModel {
        WireModel::Product(seq![self.engine.wire_model(), self.message_slot.wire_model()])
    }

    open spec fn decodes(model: WireModel) -> bool {
        match model {
            WireModel::Product(parts) => {
                &&& parts.len() == 2
                &&& <Engine as WireShape>::decodes(parts[0])
                &&& <MessageSlot as WireShape>::decodes(parts[1])
            },
            _ => false,
        }
    }

    fn to_wire(&self) -> (wire: WireValue) {
        let fields = vec![self.engine.to_wire(), self.message_slot.to_wire()];
        proof {
            lemma_models_of(fields@);
            assert(models_of(fields@) =~= seq![self.engine.wire_model(), self.message_slot.wire_model()]);
        }
        WireValue::Product(fields)
    }

    fn from_wire(value: WireValue) -> (restored: Result<Self, WireShapeError>) {
        let ghost whole = value.model();
        match value {
            WireValue::Product(fields) => {
                proof {
                    lemma_models_of(fields@);
                }
                if fields.len() != 2 {
                    return Err(WireShapeError);
                }
                let ghost parts = fields@;
                let mut fields = fields;
                let w0 = fields.remove(0);
                assert(w0 == parts[0]);
                let w1 = fields.remove(0);
                assert(w1 == parts[1]);
                let engine = match <Engine as WireShape>::from_wire(w0) {
                    Ok(v) => v,
                    Err(e) => {
                        return Err(e);
                    },
                };
                let message_slot = match <MessageSlot as WireShape>::from_wire(w1) {
                    Ok(v) => v,
                    Err(e) => {
                        return Err(e);
                    },
                };
                let restored = RouterMessageTraceMissing { engine, message_slot };
                assert(whole->Product_0 =~= seq![restored.engine.wire_model(), restored.message_slot.wire_model()]);
                Ok(restored)
            },
            _ => Err(WireShapeError),
        }
    }

    proof fn lemma_projection_decodes(&self) {
        self.engine.lemma_projection_decodes();
        self.message_slot.lemma_projection_decodes();
    }
}

impl WireShape for RouterChannelStatus {
    open spec fn wire_model(&self) -> WireModel {
        match self {
            RouterChannelStatus::Installed => WireModel::Variant { ordinal: 0, fields: Seq::empty() },
            RouterChannelStatus::Missing => WireModel::Variant { ordinal: 1, fields: Seq::empty() },
            RouterChannelStatus::Disabled => WireModel::Variant { ordinal: 2, fields: Seq::empty() },
        }
    }

    open spec fn decodes(model: WireModel) -> bool {
        match model {
            WireModel::Variant { ordinal, fields } => fields.len() == 0 && ordinal < 3,
            _ => false,
        }
    }

    fn to_wire(&self) -> (wire: WireValue) {
        let fields: Vec<WireValue> = Vec::new();
        proof {
            assert(models_of(fields@) =~= Seq::empty());
        }
        match self {
            RouterChannelStatus::Installed => WireValue::Variant { ordinal: 0, fields },
            RouterChannelStatus::Missing => WireValue::Variant { ordinal: 1, fields },
            RouterChannelStatus::Disabled => WireValue::Variant { ordinal: 2, fields },
        }
    }

    fn from_wire(value: WireValue) -> (restored: Result<Self, WireShapeError>) {
        match value {
            WireValue::Variant { ordinal, fields } => {
                proof {
                    lemma_models_of(fields@);
                }
                if fields.len() != 0 {
                    return Err(WireShapeError);
                }
                assert(models_of(fields@) =~= Seq::empty());
                if ordinal == 0 {
                    Ok(RouterChannelStatus::Installed)
                } else if ordinal == 1 {
                    Ok(RouterChannelStatus::Missing)
                } else if ordinal == 2 {
                    Ok(RouterChannelStatus::Disabled)
                } else {
                    Err(WireShapeError)
                }
            },
            _ => Err(WireShapeError),
        }
    }

    proof fn lemma_projection_decodes(&self) {
    }
}

impl WireShape for RouterChannelState {
    open spec fn wire_model(&self) -> WireModel {
        WireModel::Product(seq![self.engine.wire_model(), self.channel.wire_model(), self.channel_status.wire_model()])
    }

    open spec fn decodes(model: WireModel) -> bool {
        match model {
            WireModel::Product(parts) => {
                &&& parts.len() == 3
                &&& <Engine as WireShape>::decodes(parts[0])
                &&& <Channel as WireShape>::decodes(parts[1])
                &&& <ChannelStatus as WireShape>::decodes(parts[2])
            },
            _ => false,
        }
    }

    fn to_wire(&self) -> (wire: WireValue) {
        let fields = vec![self.engine.to_wire(), self.channel.to_wire(), self.channel_status.to_wire()];
        proof {
            lemma_models_of(fields@);
            assert(models_of(fields@) =~= seq![self.engine.wire_model(), self.channel.wire_model(), self.channel_status.wire_model()]);
        }
        WireValue::Product(fields)
    }

    fn from_wire(value: WireValue) -> (restored: Result<Self, WireShapeError>) {
        let ghost whole = value.model();
        match value {
            WireValue::Product(fields) => {
                proof {
                    lemma_models_of(fields@);
                }
                if fields.len() != 3 {
                    return Err(WireShapeError);
                }
                let ghost parts = fields@;
                let mut fields = fields;
                let w0 = fields.remove(0);
                assert(w0 == parts[0]);
                let w1 = fields.remove(0);
                assert(w1 == parts[1]);
                let w2 = fields.remove(0);
                assert(w2 == parts[2]);
                let engine = match <Engine as WireShape>::from_wire(w0) {
                    Ok(v) => v,
                    Err(e) => {
                        return Err(e);
                    },
                };
                let channel = match <Channel as WireShape>::from_wire(w1) {
                    Ok(v) => v,
                    Err(e) => {
                        return Err(e);
                    },
                };
                let channel_status = match <ChannelStatus as WireShape>::from_wire(w2) {
                    Ok(v) => v,
                    Err(e) => {
                        return Err(e);
                    },
                };
                let restored = RouterChannelState { engine, channel, channel_status };
                assert(whole->Product_0 =~= seq![restored.engine.wire_model(), restored.channel.wire_model(), restored.channel_status.wire_model()]);
                Ok(restored)
            },
            _ => Err(WireShapeError),
        }
    }

    proof fn lemma_projection_decodes(&self) {
        self.engine.lemma_projection_decodes();
        self.channel.lemma_projection_decodes();
        self.channel_status.lemma_projection_decodes();
    }
}

impl WireShape for RouterObservationUnimplementedReason {
    open spec fn wire_model(&self) -> WireModel {
        match self {
            RouterObservationUnimplementedReason::NotInPrototypeScope => WireModel::Variant { ordinal: 1, fields: Seq::empty() },
            RouterObservationUnimplementedReason::RouterStoreUnavailable => WireModel::Variant { ordinal: 2, fields: Seq::empty() },
            RouterObservationUnimplementedReason::MessageTraceUnavailable => WireModel::Variant { ordinal: 0, fields: Seq::empty() },
        }
    }

    open spec fn decodes(model: WireModel) -> bool {
        match model {
            WireModel::Variant { ordinal, fields } => fields.len() == 0 && ordinal < 3,
            _ => false,
        }
    }

    fn to_wire(&self) -> (wire: WireValue) {
        let fields: Vec<WireValue> = Vec::new();
        proof {
            assert(models_of(fields@) =~= Seq::empty());
        }
        match self {
            RouterObservationUnimplementedReason::NotInPrototypeScope => WireValue::Variant { ordinal: 1, fields },
            RouterObservationUnimplementedReason::RouterStoreUnavailable => WireValue::Variant { ordinal: 2, fields },
            RouterObservationUnimplementedReason::MessageTraceUnavailable => WireValue::Variant { ordinal: 0, fields },
        }
    }

    fn from_wire(value: WireValue) -> (restored: Result<Self, WireShapeError>) {
        match value {
            WireValue::Variant { ordinal, fields } => {
                proof {
                    lemma_models_of(fields@);
                }
                if fields.len() != 0 {
                    return Err(WireShapeError);
                }
                assert(models_of(fields@) =~= Seq::empty());
                if ordinal == 0 {
                    Ok(RouterObservationUnimplementedReason::MessageTraceUnavailable)
                } else if ordinal == 1 {
                    Ok(RouterObservationUnimplementedReason::NotInPrototypeScope)
                } else if ordinal == 2 {
                    Ok(RouterObservationUnimplementedReason::RouterStoreUnavailable)
                } else {
                    Err(WireShapeError)
                }
            },
            _ => Err(WireShapeError),
        }
    }

    proof fn lemma_projection_decodes(&self) {
    }
}

impl WireShape for RouterObservationUnimplemented {
    open spec fn wire_model(&self) -> WireModel {
        WireModel::Product(seq![self.observation_scope.wire_model(), self.observation_reason.wire_model()])
    }

    open spec fn decodes(model: WireModel) -> bool {
        match model {
            WireModel::Product(parts) => {
                &&& parts.len() == 2
                &&& <ObservationScope as WireShape>::decodes(parts[0])
                &&& <ObservationReason as WireShape>::decodes(parts[1])
            },
            _ => false,
        }
    }

    fn to_wire(&self) -> (wire: WireValue) {
        let fields = vec![self.observation_scope.to_wire(), self.observation_reason.to_wire()];
        proof {
            lemma_models_of(fields@);
            assert(models_of(fields@) =~= seq![self.observation_scope.wire_model(), self.observation_reason.wire_model()]);
        }
        WireValue::Product(fields)
    }

    fn from_wire(value: WireValue) -> (restored: Result<Self, WireShapeError>) {
        let ghost whole = value.model();
        match value {
            WireValue::Product(fields) => {
                proof {
                    lemma_models_of(fields@);
                }
                if fields.len() != 2 {
                    return Err(WireShapeError);
                }
                let ghost parts = fields@;
                let mut fields = fields;
                let w0 = fields.remove(0);
                assert(w0 == parts[0]);
                let w1 = fields.remove(0);
                assert(w1 == parts[1]);
                let observation_scope = match <ObservationScope as WireShape>::from_wire(w0) {
                    Ok(v) => v,
                    Err(e) => {
                        return Err(e);
                    },
                };
                let observation_reason = match <ObservationReason as WireShape>::from_wire(w1) {
                    Ok(v) => v,
                    Err(e) => {
                        return Err(e);
                    },
                };
                let restored = RouterObservationUnimplemented { observation_scope, observation_reason };
                assert(whole->Product_0 =~= seq![restored.observation_scope.wire_model(), restored.observation_reason.wire_model()]);
                Ok(restored)
            },
            _ => Err(WireShapeError),
        }
    }

    proof fn lemma_projection_decodes(&self) {
        self.observation_scope.lemma_projection_decodes();
        self.observation_reason.lemma_projection_decodes();
    }
}

impl WireShape for SignatureScheme {
    open spec fn wire_model(&self) -> WireModel {
        match self {
            SignatureScheme::Bls12_381MinPk => WireModel::Variant { ordinal: 1, fields: Seq::empty() },
            SignatureScheme::Bls12_381MinSig => WireModel::Variant { ordinal: 0, fields: Seq::empty() },
        }
    }

    open spec fn decodes(model: WireModel) -> bool {
        match model {
            WireModel::Variant { ordinal, fields } => fields.len() == 0 && ordinal < 2,
            _ => false,
        }
    }

    fn to_wire(&self) -> (wire: WireValue) {
        let fields: Vec<WireValue> = Vec::new();
        proof {
            assert(models_of(fields@) =~= Seq::empty());
        }
        match self {
            SignatureScheme::Bls12_381MinPk => WireValue::Variant { ordinal: 1, fields },
            SignatureScheme::Bls12_381MinSig => WireValue::Variant { ordinal: 0, fields },
        }
    }

    fn from_wire(value: WireValue) -> (restored: Result<Self, WireShapeError>) {
        match value {
            WireValue::Variant { ordinal, fields } => {
                proof {
                    lemma_models_of(fields@);
                }
                if fields.len() != 0 {
                    return Err(WireShapeError);
                }
                assert(models_of(fields@) =~= Seq::empty());
                if ordinal == 0 {
                    Ok(SignatureScheme::Bls12_381MinSig)
                } else if ordinal == 1 {
                    Ok(SignatureScheme::Bls12_381MinPk)
                } else {
                    Err(WireShapeError)
                }
            },
            _ => Err(WireShapeError),
        }
    }

    proof fn lemma_projection_decodes(&self) {
    }
}

impl WireShape for RouterPeerAttestation {
    open spec fn wire_model(&self) -> WireModel {
        WireModel::Product(seq![self.signer.wire_model(), self.scheme.wire_model(), self.public_key.wire_model(), self.signature.wire_model(), self.content_digest.wire_model(), self.issued_at.wire_model(), self.nonce.wire_model(), self.attestation_issued_at.wire_model()])
    }

    open spec fn decodes(model: WireModel) -> bool {
        match model {
            WireModel::Product(parts) => {
                &&& parts.len() == 8
                &&& <Signer as WireShape>::decodes(parts[0])
                &&& <Scheme as WireShape>::decodes(parts[1])
                &&& <PublicKey as WireShape>::decodes(parts[2])
                &&& <Signature as WireShape>::decodes(parts[3])
                &&& <ContentDigest as WireShape>::decodes(parts[4])
                &&& <IssuedAt as WireShape>::decodes(parts[5])
                &&& <Nonce as WireShape>::decodes(parts[6])
                &&& <AttestationIssuedAt as WireShape>::decodes(parts[7])
            },
            _ => false,
        }
    }

    fn to_wire(&self) -> (wire: WireValue) {
        let fields = vec![self.signer.to_wire(), self.scheme.to_wire(), self.public_key.to_wire(), self.signature.to_wire(), self.content_digest.to_wire(), self.issued_at.to_wire(), self.nonce.to_wire(), self.attestation_issued_at.to_wire()];
        proof {
            lemma_models_of(fields@);
            assert(models_of(fields@) =~= seq![self.signer.wire_model(), self.scheme.wire_model(), self.public_key.wire_model(), self.signature.wire_model(), self.content_digest.wire_model(), self.issued_at.wire_model(), self.nonce.wire_model(), self.attestation_issued_at.wire_model()]);
        }
        WireValue::Product(fields)
    }

    fn from_wire(value: WireValue) -> (restored: Result<Self, WireShapeError>) {
        let ghost whole = value.model();
        match value {
            WireValue::Product(fields) => {
                proof {
                    lemma_models_of(fields@);
                }
                if fields.len() != 8 {
                    return Err(WireShapeError);
                }
                let ghost parts = fields@;
                let mut fields = fields;
                let w0 = fields.remove(0);
                assert(w0 == parts[0]);
                let w1 = fields.remove(0);
                assert(w1 == parts[1]);
                let w2 = fields.remove(0);
                assert(w2 == parts[2]);
                let w3 = fields.remove(0);
                assert(w3 == parts[3]);
                let w4 = fields.remove(0);
                assert(w4 == parts[4]);
                let w5 = fields.remove(0);
                assert(w5 == parts[5]);
                let w6 = fields.remove(0);
                assert(w6 == parts[6]);
                let w7 = fields.remove(0);
                assert(w7 == parts[7]);
                let signer = match <Signer as WireShape>::from_wire(w0) {
                    Ok(v) => v,
                    Err(e) => {
                        return Err(e);
                    },
                };
                let scheme = match <Scheme as WireShape>::from_wire(w1) {
                    Ok(v) => v,
                    Err(e) => {
                        return Err(e);
                    },
                };
                let public_key = match <PublicKey as WireShape>::from_wire(w2) {
                    Ok(v) => v,
                    Err(e) => {
                        return Err(e);
                    },
                };
                let signature = match <Signature as WireShape>::from_wire(w3) {
                    Ok(v) => v,
                    Err(e) => {
                        return Err(e);
                    },
                };
                let content_digest = match <ContentDigest as WireShape>::from_wire(w4) {
                    Ok(v) => v,
                    Err(e) => {
                        return Err(e);
                    },
                };
                let issued_at = match <IssuedAt as WireShape>::from_wire(w5) {
                    Ok(v) => v,
                    Err(e) => {
                        return Err(e);
                    },
                };
                let nonce = match <Nonce as WireShape>::from_wire(w6) {
                    Ok(v) => v,
                    Err(e) => {
                        return Err(e);
                    },
                };
                let attestation_issued_at = match <AttestationIssuedAt as WireShape>::from_wire(w7) {
                    Ok(v) => v,
                    Err(e) => {
                        return Err(e);
                    },
                };
                let restored = RouterPeerAttestation { signer, scheme, public_key, signature, content_digest, issued_at, nonce, attestation_issued_at };
                assert(whole->Product_0 =~= seq![restored.signer.wire_model(), restored.scheme.wire_model(), restored.public_key.wire_model(), restored.signature.wire_model(), restored.content_digest.wire_model(), restored.issued_at.wire_model(), restored.nonce.wire_model(), restored.attestation_issued_at.wire_model()]);
                Ok(restored)
            },
            _ => Err(WireShapeError),
        }
    }

    proof fn lemma_projection_decodes(&self) {
        self.signer.lemma_projection_decodes();
        self.scheme.lemma_projection_decodes();
        self.public_key.lemma_projection_decodes();
        self.signature.lemma_projection_decodes();
        self.content_digest.lemma_projection_decodes();
        self.issued_at.lemma_projection_decodes();
        self.nonce.lemma_projection_decodes();
        self.attestation_issued_at.lemma_projection_decodes();
    }
}

impl WireShape for RoutedContractObject {
    open spec fn wire_model(&self) -> WireModel {
        WireModel::Product(seq![self.contract_name.wire_model(), self.contract_operation.wire_model(), self.contract_payload_size.wire_model(), self.payload_octets.wire_model()])
    }

    open spec fn decodes(model: WireModel) -> bool {
        match model {
            WireModel::Product(parts) => {
                &&& parts.len() == 4
                &&& <ContractName as WireShape>::decodes(parts[0])
                &&& <ContractOperation as WireShape>::decodes(parts[1])
                &&& <ContractPayloadSize as WireShape>::decodes(parts[2])
                &&& <PayloadOctets as WireShape>::decodes(parts[3])
            },
            _ => false,
        }
    }

    fn to_wire(&self) -> (wire: WireValue) {
        let fields = vec![self.contract_name.to_wire(), self.contract_operation.to_wire(), self.contract_payload_size.to_wire(), self.payload_octets.to_wire()];
        proof {
            lemma_models_of(fields@);
            assert(models_of(fields@) =~= seq![self.contract_name.wire_model(), self.contract_operation.wire_model(), self.contract_payload_size.wire_model(), self.payload_octets.wire_model()]);
        }
        WireValue::Product(fields)
    }

    fn from_wire(value: WireValue) -> (restored: Result<Self, WireShapeError>) {
        let ghost whole = value.model();
        match value {
            WireValue::Product(fields) => {
                proof {
                    lemma_models_of(fields@);
                }
                if fields.len() != 4 {
                    return Err(WireShapeError);
                }
                let ghost parts = fields@;
                let mut fields = fields;
                let w0 = fields.remove(0);
                assert(w0 == parts[0]);
                let w1 = fields.remove(0);
                assert(w1 == parts[1]);
                let w2 = fields.remove(0);
                assert(w2 == parts[2]);
                let w3 = fields.remove(0);
                assert(w3 == parts[3]);
                let contract_name = match <ContractName as WireShape>::from_wire(w0) {
                    Ok(v) => v,
                    Err(e) => {
                        return Err(e);
                    },
                };
                let contract_operation = match <ContractOperation as WireShape>::from_wire(w1) {
                    Ok(v) => v,
                    Err(e) => {
                        return Err(e);
                    },
                };
                let contract_payload_size = match <ContractPayloadSize as WireShape>::from_wire(w2) {
                    Ok(v) => v,
                    Err(e) => {
                        return Err(e);
                    },
                };
                let payload_octets = match <PayloadOctets as WireShape>::from_wire(w3) {
                    Ok(v) => v,
                    Err(e) => {
                        return Err(e);
                    },
                };
                let restored = RoutedContractObject { contract_name, contract_operation, contract_payload_size, payload_octets };
                assert(whole->Product_0 =~= seq![restored.contract_name.wire_model(), restored.contract_operation.wire_model(), restored.contract_payload_size.wire_model(), restored.payload_octets.wire_model()]);
                Ok(restored)
            },
            _ => Err(WireShapeError),
        }
    }

    proof fn lemma_projection_decodes(&self) {
        self.contract_name.lemma_projection_decodes();
        self.contract_operation.lemma_projection_decodes();
        self.contract_payload_size.lemma_projection_decodes();
        self.payload_octets.lemma_projection_decodes();
    }
}

impl WireShape for ForwardedMessagePayload {
    open spec fn wire_model(&self) -> WireModel {
        WireModel::Product(seq![self.source_actor.wire_model(), self.destination_actor.wire_model(), self.body.wire_model(), self.attachments.wire_model(), self.routed_objects.wire_model()])
    }

    open spec fn decodes(model: WireModel) -> bool {
        match model {
            WireModel::Product(parts) => {
                &&& parts.len() == 5
                &&& <SourceActor as WireShape>::decodes(parts[0])
                &&& <DestinationActor as WireShape>::decodes(parts[1])
                &&& <Body as WireShape>::decodes(parts[2])
                &&& <Attachments as WireShape>::decodes(parts[3])
                &&& <RoutedObjects as WireShape>::decodes(parts[4])
            },
            _ => false,
        }
    }

    fn to_wire(&self) -> (wire: WireValue) {
        let fields = vec![self.source_actor.to_wire(), self.destination_actor.to_wire(), self.body.to_wire(), self.attachments.to_wire(), self.routed_objects.to_wire()];
        proof {
            lemma_models_of(fields@);
            assert(models_of(fields@) =~= seq![self.source_actor.wire_model(), self.destination_actor.wire_model(), self.body.wire_model(), self.attachments.wire_model(), self.routed_objects.wire_model()]);
        }
        WireValue::Product(fields)
    }

    fn from_wire(value: WireValue) -> (restored: Result<Self, WireShapeError>) {
        let ghost whole = value.model();
        match value {
            WireValue::Product(fields) => {
                proof {
                    lemma_models_of(fields@);
                }
                if fields.len() != 5 {
                    return Err(WireShapeError);
                }
                let ghost parts = fields@;
                let mut fields = fields;
                let w0 = fields.remove(0);
                assert(w0 == parts[0]);
                let w1 = fields.remove(0);
                assert(w1 == parts[1]);
                let w2 = fields.remove(0);
                assert(w2 == parts[2]);
                let w3 = fields.remove(0);
                assert(w3 == parts[3]);
                let w4 = fields.remove(0);
                assert(w4 == parts[4]);
                let source_actor = match <SourceActor as WireShape>::from_wire(w0) {
                    Ok(v) => v,
                    Err(e) => {
                        return Err(e);
                    },
                };
                let destination_actor = match <DestinationActor as WireShape>::from_wire(w1) {
                    Ok(v) => v,
                    Err(e) => {
                        return Err(e);
                    },
                };
                let body = match <Body as WireShape>::from_wire(w2) {
                    Ok(v) => v,
                    Err(e) => {
                        return Err(e);
                    },
                };
                let attachments = match <Attachments as WireShape>::from_wire(w3) {
                    Ok(v) => v,
                    Err(e) => {
                        return Err(e);
                    },
                };
                let routed_objects = match <RoutedObjects as WireShape>::from_wire(w4) {
                    Ok(v) => v,
                    Err(e) => {
                        return Err(e);
                    },
                };
                let restored = ForwardedMessagePayload { source_actor, destination_actor, body, attachments, routed_objects };
                assert(whole->Product_0 =~= seq![restored.source_actor.wire_model(), restored.destination_actor.wire_model(), restored.body.wire_model(), restored.attachments.wire_model(), restored.routed_objects.wire_model()]);
                Ok(restored)
            },
            _ => Err(WireShapeError),
        }
    }

    proof fn lemma_projection_decodes(&self) {
        self.source_actor.lemma_projection_decodes();
        self.destination_actor.lemma_projection_decodes();
        self.body.lemma_projection_decodes();
        self.attachments.lemma_projection_decodes();
        self.routed_objects.lemma_projection_decodes();
    }
}

impl WireShape for ForwardMarker {
    open spec fn wire_model(&self) -> WireModel {
        match self {
            ForwardMarker::Origin => WireModel::Variant { ordinal: 0, fields: Seq::empty() },
            ForwardMarker::Forwarded => WireModel::Variant { ordinal: 1, fields: Seq::empty() },
        }
    }

    open spec fn decodes(model: WireModel) -> bool {
        match model {
            WireModel::Variant { ordinal, fields } => fields.len() == 0 && ordinal < 2,
            _ => false,
        }
    }

    fn to_wire(&self) -> (wire: WireValue) {
        let fields: Vec<WireValue> = Vec::new();
        proof {
            assert(models_of(fields@) =~= Seq::empty());
        }
        match self {
            ForwardMarker::Origin => WireValue::Variant { ordinal: 0, fields },
            ForwardMarker::Forwarded => WireValue::Variant { ordinal: 1, fields },
        }
    }

    fn from_wire(value: WireValue) -> (restored: Result<Self, WireShapeError>) {
        match value {
            WireValue::Variant { ordinal, fields } => {
                proof {
                    lemma_models_of(fields@);
                }
                if fields.len() != 0 {
                    return Err(WireShapeError);
                }
                assert(models_of(fields@) =~= Seq::empty());
                if ordinal == 0 {
                    Ok(ForwardMarker::Origin)
                } else if ordinal == 1 {
                    Ok(ForwardMarker::Forwarded)
                } else {
                    Err(WireShapeError)
                }
            },
            _ => Err(WireShapeError),
        }
    }

    proof fn lemma_projection_decodes(&self) {
    }
}

impl WireShape for RouterForwardRequest {
    open spec fn wire_model(&self) -> WireModel {
        WireModel::Product(seq![self.submission.wire_model(), self.attestation.wire_model(), self.forward_marker.wire_model(), self.nonce.wire_model(), self.issued_at.wire_model()])
    }

    open spec fn decodes(model: WireModel) -> bool {
        match model {
            WireModel::Product(parts) => {
                &&& parts.len() == 5
                &&& <Submission as WireShape>::decodes(parts[0])
                &&& <Attestation as WireShape>::decodes(parts[1])
                &&& <ForwardMarker as WireShape>::decodes(parts[2])
                &&& <Nonce as WireShape>::decodes(parts[3])
                &&& <IssuedAt as WireShape>::decodes(parts[4])
            },
            _ => false,
        }
    }

    fn to_wire(&self) -> (wire: WireValue) {
        let fields = vec![self.submission.to_wire(), self.attestation.to_wire(), self.forward_marker.to_wire(), self.nonce.to_wire(), self.issued_at.to_wire()];
        proof {
            lemma_models_of(fields@);
            assert(models_of(fields@) =~= seq![self.submission.wire_model(), self.attestation.wire_model(), self.forward_marker.wire_model(), self.nonce.wire_model(), self.issued_at.wire_model()]);
        }
        WireValue::Product(fields)
    }

    fn from_wire(value: WireValue) -> (restored: Result<Self, WireShapeError>) {
        let ghost whole = value.model();
        match value {
            WireValue::Product(fields) => {
                proof {
                    lemma_models_of(fields@);
                }
                if fields.len() != 5 {
                    return Err(WireShapeError);
                }
                let ghost parts = fields@;
                let mut fields = fields;
                let w0 = fields.remove(0);
                assert(w0 == parts[0]);
                let w1 = fields.remove(0);
                assert(w1 == parts[1]);
                let w2 = fields.remove(0);
                assert(w2 == parts[2]);
                let w3 = fields.remove(0);
                assert(w3 == parts[3]);
                let w4 = fields.remove(0);
                assert(w4 == parts[4]);
                let submission = match <Submission as WireShape>::from_wire(w0) {
                    Ok(v) => v,
                    Err(e) => {
                        return Err(e);
                    },
                };
                let attestation = match <Attestation as WireShape>::from_wire(w1) {
                    Ok(v) => v,
                    Err(e) => {
                        return Err(e);
                    },
                };
                let forward_marker = match <ForwardMarker as WireShape>::from_wire(w2) {
                    Ok(v) => v,
                    Err(e) => {
                        return Err(e);
                    },
                };
                let nonce = match <Nonce as WireShape>::from_wire(w3) {
                    Ok(v) => v,
                    Err(e) => {
                        return Err(e);
                    },
                };
                let issued_at = match <IssuedAt as WireShape>::from_wire(w4) {
                    Ok(v) => v,
                    Err(e) => {
                        return Err(e);
                    },
                };
                let restored = RouterForwardRequest { submission, attestation, forward_marker, nonce, issued_at };
                assert(whole->Product_0 =~= seq![restored.submission.wire_model(), restored.attestation.wire_model(), restored.forward_marker.wire_model(), restored.nonce.wire_model(), restored.issued_at.wire_model()]);
                Ok(restored)
            },
            _ => Err(WireShapeError),
        }
    }

    proof fn lemma_projection_decodes(&self) {
        self.submission.lemma_projection_decodes();
        self.attestation.lemma_projection_decodes();
        self.forward_marker.lemma_projection_decodes();
        self.nonce.lemma_projection_decodes();
        self.issued_at.lemma_projection_decodes();
    }
}

impl WireShape for RouterForwardAccepted {
    open spec fn wire_model(&self) -> WireModel {
        WireModel::Product(seq![self.message_slot.wire_model()])
    }

    open spec fn decodes(model: WireModel) -> bool {
        match model {
            WireModel::Product(parts) => {
                &&& parts.len() == 1
                &&& <MessageSlot as WireShape>::decodes(parts[0])
            },
            _ => false,
        }
    }

    fn to_wire(&self) -> (wire: WireValue) {
        let fields = vec![self.message_slot.to_wire()];
        proof {
            lemma_models_of(fields@);
            assert(models_of(fields@) =~= seq![self.message_slot.wire_model()]);
        }
        WireValue::Product(fields)
    }

    fn from_wire(value: WireValue) -> (restored: Result<Self, WireShapeError>) {
        let ghost whole = value.model();
        match value {
            WireValue::Product(fields) => {
                proof {
                    lemma_models_of(fields@);
                }
                if fields.len() != 1 {
                    return Err(WireShapeError);
                }
                let ghost parts = fields@;
                let mut fields = fields;
                let w0 = fields.remove(0);
                assert(w0 == parts[0]);
                let message_slot = match <MessageSlot as WireShape>::from_wire(w0) {
                    Ok(v) => v,
                    Err(e) => {
                        return Err(e);
                    },
                };
                let restored = RouterForwardAccepted { message_slot };
                assert(whole->Product_0 =~= seq![restored.message_slot.wire_model()]);
                Ok(restored)
            },
            _ => Err(WireShapeError),
        }
    }

    proof fn lemma_projection_decodes(&self) {
        self.message_slot.lemma_projection_decodes();
    }
}

impl WireShape for RouterForwardRefusalReason {
    open spec fn wire_model(&self) -> WireModel {
        match self {
            RouterForwardRefusalReason::UnknownPeer => WireModel::Variant { ordinal: 6, fields: Seq::empty() },
            RouterForwardRefusalReason::AttestationInvalid => WireModel::Variant { ordinal: 4, fields: Seq::empty() },
            RouterForwardRefusalReason::ReplayDetected => WireModel::Variant { ordinal: 5, fields: Seq::empty() },
            RouterForwardRefusalReason::ClockSkew => WireModel::Variant { ordinal: 8, fields: Seq::empty() },
            RouterForwardRefusalReason::RecipientUnknown => WireModel::Variant { ordinal: 3, fields: Seq::empty() },
            RouterForwardRefusalReason::ChannelUnauthorized => WireModel::Variant { ordinal: 7, fields: Seq::empty() },
            RouterForwardRefusalReason::AlreadyForwarded => WireModel::Variant { ordinal: 0, fields: Seq::empty() },
            RouterForwardRefusalReason::MirrorDisabled => WireModel::Variant { ordinal: 2, fields: Seq::empty() },
            RouterForwardRefusalReason::SessionRequired => WireModel::Variant { ordinal: 1, fields: Seq::empty() },
        }
    }

    open spec fn decodes(model: WireModel) -> bool {
        match model {
            WireModel::Variant { ordinal, fields } => fields.len() == 0 && ordinal < 9,
            _ => false,
        }
    }

    fn to_wire(&self) -> (wire: WireValue) {
        let fields: Vec<WireValue> = Vec::new();
        proof {
            assert(models_of(fields@) =~= Seq::empty());
        }
        match self {
            RouterForwardRefusalReason::UnknownPeer => WireValue::Variant { ordinal: 6, fields },
            RouterForwardRefusalReason::AttestationInvalid => WireValue::Variant { ordinal: 4, fields },
            RouterForwardRefusalReason::ReplayDetected => WireValue::Variant { ordinal: 5, fields },
            RouterForwardRefusalReason::ClockSkew => WireValue::Variant { ordinal: 8, fields },
            RouterForwardRefusalReason::RecipientUnknown => WireValue::Variant { ordinal: 3, fields },
            RouterForwardRefusalReason::ChannelUnauthorized => WireValue::Variant { ordinal: 7, fields },
            RouterForwardRefusalReason::AlreadyForwarded => WireValue::Variant { ordinal: 0, fields },
            RouterForwardRefusalReason::MirrorDisabled => WireValue::Variant { ordinal: 2, fields },
            RouterForwardRefusalReason::SessionRequired => WireValue::Variant { ordinal: 1, fields },
        }
    }

    fn from_wire(value: WireValue) -> (restored: Result<Self, WireShapeError>) {
        match value {
            WireValue::Variant { ordinal, fields } => {
                proof {
                    lemma_models_of(fields@);
                }
                if fields.len() != 0 {
                    return Err(WireShapeError);
                }
                assert(models_of(fields@) =~= Seq::empty());
                if ordinal == 0 {
                    Ok(RouterForwardRefusalReason::AlreadyForwarded)
                } else if ordinal == 1 {
                    Ok(RouterForwardRefusalReason::SessionRequired)
                } else if ordinal == 2 {
                    Ok(RouterForwardRefusalReason::MirrorDisabled)
                } else if ordinal == 3 {
                    Ok(RouterForwardRefusalReason::RecipientUnknown)
                } else if ordinal == 4 {
                    Ok(RouterForwardRefusalReason::AttestationInvalid)
                } else if ordinal == 5 {
                    Ok(RouterForwardRefusalReason::ReplayDetected)
                } else if ordinal == 6 {
                    Ok(RouterForwardRefusalReason::UnknownPeer)
                } else if ordinal == 7 {
                    Ok(RouterForwardRefusalReason::ChannelUnauthorized)
                } else if ordinal == 8 {
                    Ok(RouterForwardRefusalReason::ClockSkew)
                } else {
                    Err(WireShapeError)
                }
            },
            _ => Err(WireShapeError),
        }
    }

    proof fn lemma_projection_decodes(&self) {
    }
}

impl WireShape for RouterForwardRefused {
    open spec fn wire_model(&self) -> WireModel {
        self.forward_refusal_reason.wire_model()
    }

    open spec fn decodes(model: WireModel) -> bool {
        <ForwardRefusalReason as WireShape>::decodes(model)
    }

    fn to_wire(&self) -> (wire: WireValue) {
        self.forward_refusal_reason.to_wire()
    }

    fn from_wire(value: WireValue) -> (restored: Result<Self, WireShapeError>) {
        match <ForwardRefusalReason as WireShape>::from_wire(value) {
            Ok(v) => Ok(RouterForwardRefused { forward_refusal_reason: v }),
            Err(e) => Err(e),
        }
    }

    proof fn lemma_projection_decodes(&self) {
        self.forward_refusal_reason.lemma_projection_decodes();
    }
}

impl WireShape for RouterRoutedObjectsAccepted {
    open spec fn wire_model(&self) -> WireModel {
        WireModel::Product(seq![self.message_slot.wire_model()])
    }

    open spec fn decodes(model: WireModel) -> bool {
        match model {
            WireModel::Product(parts) => {
                &&& parts.len() == 1
                &&& <MessageSlot as WireShape>::decodes(parts[0])
            },
            _ => false,
        }
    }

    fn to_wire(&self) -> (wire: WireValue) {
        let fields = vec![self.message_slot.to_wire()];
        proof {
            lemma_models_of(fields@);
            assert(models_of(fields@) =~= seq![self.message_slot.wire_model()]);
        }
        WireValue::Product(fields)
    }

    fn from_wire(value: WireValue) -> (restored: Result<Self, WireShapeError>) {
        let ghost whole = value.model();
        match value {
            WireValue::Product(fields) => {
                proof {
                    lemma_models_of(fields@);
                }
                if fields.len() != 1 {
                    return Err(WireShapeError);
                }
                let ghost parts = fields@;
                let mut fields = fields;
                let w0 = fields.remove(0);
                assert(w0 == parts[0]);
                let message_slot = match <MessageSlot as WireShape>::from_wire(w0) {
                    Ok(v) => v,
                    Err(e) => {
                        return Err(e);
                    },
                };
                let restored = RouterRoutedObjectsAccepted { message_slot };
                assert(whole->Product_0 =~= seq![restored.message_slot.wire_model()]);
                Ok(restored)
            },
            _ => Err(WireShapeError),
        }
    }

    proof fn lemma_projection_decodes(&self) {
        self.message_slot.lemma_projection_decodes();
    }
}

impl WireShape for RouterRoutedObjectsRefused {
    open spec fn wire_model(&self) -> WireModel {
        self.forward_refusal_reason.wire_model()
    }

    open spec fn decodes(model: WireModel) -> bool {
        <ForwardRefusalReason as WireShape>::decodes(model)
    }

    fn to_wire(&self) -> (wire: WireValue) {
        self.forward_refusal_reason.to_wire()
    }

    fn from_wire(value: WireValue) -> (restored: Result<Self, WireShapeError>) {
        match <ForwardRefusalReason as WireShape>::from_wire(value) {
            Ok(v) => Ok(RouterRoutedObjectsRefused { forward_refusal_reason: v }),
            Err(e) => Err(e),
        }
    }

    proof fn lemma_projection_decodes(&self) {
        self.forward_refusal_reason.lemma_projection_decodes();
    }
}

impl WireShape for RouterIdentityProof {
    open spec fn wire_model(&self) -> WireModel {
        WireModel::Product(seq![self.proof_signer.wire_model(), self.proof_scheme.wire_model(), self.proof_public_key.wire_model(), self.proof_signature.wire_model(), self.proof_digest.wire_model(), self.proof_challenge_nonce.wire_model(), self.proof_attestation_issued_at.wire_model()])
    }

    open spec fn decodes(model: WireModel) -> bool {
        match model {
            WireModel::Product(parts) => {
                &&& parts.len() == 7
                &&& <ProofSigner as WireShape>::decodes(parts[0])
                &&& <ProofScheme as WireShape>::decodes(parts[1])
                &&& <ProofPublicKey as WireShape>::decodes(parts[2])
                &&& <ProofSignature as WireShape>::decodes(parts[3])
                &&& <ProofDigest as WireShape>::decodes(parts[4])
                &&& <ProofChallengeNonce as WireShape>::decodes(parts[5])
                &&& <ProofAttestationIssuedAt as WireShape>::decodes(parts[6])
            },
            _ => false,
        }
    }

    fn to_wire(&self) -> (wire: WireValue) {
        let fields = vec![self.proof_signer.to_wire(), self.proof_scheme.to_wire(), self.proof_public_key.to_wire(), self.proof_signature.to_wire(), self.proof_digest.to_wire(), self.proof_challenge_nonce.to_wire(), self.proof_attestation_issued_at.to_wire()];
        proof {
            lemma_models_of(fields@);
            assert(models_of(fields@) =~= seq![self.proof_signer.wire_model(), self.proof_scheme.wire_model(), self.proof_public_key.wire_model(), self.proof_signature.wire_model(), self.proof_digest.wire_model(), self.proof_challenge_nonce.wire_model(), self.proof_attestation_issued_at.wire_model()]);
        }
        WireValue::Product(fields)
    }

    fn from_wire(value: WireValue) -> (restored: Result<Self, WireShapeError>) {
        let ghost whole = value.model();
        match value {
            WireValue::Product(fields) => {
                proof {
                    lemma_models_of(fields@);
                }
                if fields.len() != 7 {
                    return Err(WireShapeError);
                }
                let ghost parts = fields@;
                let mut fields = fields;
                let w0 = fields.remove(0);
                assert(w0 == parts[0]);
                let w1 = fields.remove(0);
                assert(w1 == parts[1]);
                let w2 = fields.remove(0);
                assert(w2 == parts[2]);
                let w3 = fields.remove(0);
                assert(w3 == parts[3]);
                let w4 = fields.remove(0);
                assert(w4 == parts[4]);
                let w5 = fields.remove(0);
                assert(w5 == parts[5]);
                let w6 = fields.remove(0);
                assert(w6 == parts[6]);
                let proof_signer = match <ProofSigner as WireShape>::from_wire(w0) {
                    Ok(v) => v,
                    Err(e) => {
                        return Err(e);
                    },
                };
                let proof_scheme = match <ProofScheme as WireShape>::from_wire(w1) {
                    Ok(v) => v,
                    Err(e) => {
                        return Err(e);
                    },
                };
                let proof_public_key = match <ProofPublicKey as WireShape>::from_wire(w2) {
                    Ok(v) => v,
                    Err(e) => {
                        return Err(e);
                    },
                };
                let proof_signature = match <ProofSignature as WireShape>::from_wire(w3) {
                    Ok(v) => v,
                    Err(e) => {
                        return Err(e);
                    },
                };
                let proof_digest = match <ProofDigest as WireShape>::from_wire(w4) {
                    Ok(v) => v,
                    Err(e) => {
                        return Err(e);
                    },
                };
                let proof_challenge_nonce = match <ProofChallengeNonce as WireShape>::from_wire(w5) {
                    Ok(v) => v,
                    Err(e) => {
                        return Err(e);
                    },
                };
                let proof_attestation_issued_at = match <ProofAttestationIssuedAt as WireShape>::from_wire(w6) {
                    Ok(v) => v,
                    Err(e) => {
                        return Err(e);
                    },
                };
                let restored = RouterIdentityProof { proof_signer, proof_scheme, proof_public_key, proof_signature, proof_digest, proof_challenge_nonce, proof_attestation_issued_at };
                assert(whole->Product_0 =~= seq![restored.proof_signer.wire_model(), restored.proof_scheme.wire_model(), restored.proof_public_key.wire_model(), restored.proof_signature.wire_model(), restored.proof_digest.wire_model(), restored.proof_challenge_nonce.wire_model(), restored.proof_attestation_issued_at.wire_model()]);
                Ok(restored)
            },
            _ => Err(WireShapeError),
        }
    }

    proof fn lemma_projection_decodes(&self) {
        self.proof_signer.lemma_projection_decodes();
        self.proof_scheme.lemma_projection_decodes();
        self.proof_public_key.lemma_projection_decodes();
        self.proof_signature.lemma_projection_decodes();
        self.proof_digest.lemma_projection_decodes();
        self.proof_challenge_nonce.lemma_projection_decodes();
        self.proof_attestation_issued_at.lemma_projection_decodes();
    }
}

impl WireShape for RouterSessionClientHello {
    open spec fn wire_model(&self) -> WireModel {
        WireModel::Product(seq![self.initiator_challenge.wire_model(), self.initiator_ephemeral_key.wire_model()])
    }

    open spec fn decodes(model: WireModel) -> bool {
        match model {
            WireModel::Product(parts) => {
                &&& parts.len() == 2
                &&& <InitiatorChallenge as WireShape>::decodes(parts[0])
                &&& <InitiatorEphemeralKey as WireShape>::decodes(parts[1])
            },
            _ => false,
        }
    }

    fn to_wire(&self) -> (wire: WireValue) {
        let fields = vec![self.initiator_challenge.to_wire(), self.initiator_ephemeral_key.to_wire()];
        proof {
            lemma_models_of(fields@);
            assert(models_of(fields@) =~= seq![self.initiator_challenge.wire_model(), self.initiator_ephemeral_key.wire_model()]);
        }
        WireValue::Product(fields)
    }

    fn from_wire(value: WireValue) -> (restored: Result<Self, WireShapeError>) {
        let ghost whole = value.model();
        match value {
            WireValue::Product(fields) => {
                proof {
                    lemma_models_of(fields@);
                }
                if fields.len() != 2 {
                    return Err(WireShapeError);
                }
                let ghost parts = fields@;
                let mut fields = fields;
                let w0 = fields.remove(0);
                assert(w0 == parts[0]);
                let w1 = fields.remove(0);
                assert(w1 == parts[1]);
                let initiator_challenge = match <InitiatorChallenge as WireShape>::from_wire(w0) {
                    Ok(v) => v,
                    Err(e) => {
                        return Err(e);
                    },
                };
                let initiator_ephemeral_key = match <InitiatorEphemeralKey as WireShape>::from_wire(w1) {
                    Ok(v) => v,
                    Err(e) => {
                        return Err(e);
                    },
                };
                let restored = RouterSessionClientHello { initiator_challenge, initiator_ephemeral_key };
                assert(whole->Product_0 =~= seq![restored.initiator_challenge.wire_model(), restored.initiator_ephemeral_key.wire_model()]);
                Ok(restored)
            },
            _ => Err(WireShapeError),
        }
    }

    proof fn lemma_projection_decodes(&self) {
        self.initiator_challenge.lemma_projection_decodes();
        self.initiator_ephemeral_key.lemma_projection_decodes();
    }
}

impl WireShape for RouterSessionServerHello {
    open spec fn wire_model(&self) -> WireModel {
        WireModel::Product(seq![self.responder_challenge.wire_model(), self.responder_ephemeral_key.wire_model(), self.responder_proof.wire_model()])
    }

    open spec fn decodes(model: WireModel) -> bool {
        match model {
            WireModel::Product(parts) => {
                &&& parts.len() == 3
                &&& <ResponderChallenge as WireShape>::decodes(parts[0])
                &&& <ResponderEphemeralKey as WireShape>::decodes(parts[1])
                &&& <ResponderProof as WireShape>::decodes(parts[2])
            },
            _ => false,
        }
    }

    fn to_wire(&self) -> (wire: WireValue) {
        let fields = vec![self.responder_challenge.to_wire(), self.responder_ephemeral_key.to_wire(), self.responder_proof.to_wire()];
        proof {
            lemma_models_of(fields@);
            assert(models_of(fields@) =~= seq![self.responder_challenge.wire_model(), self.responder_ephemeral_key.wire_model(), self.responder_proof.wire_model()]);
        }
        WireValue::Product(fields)
    }

    fn from_wire(value: WireValue) -> (restored: Result<Self, WireShapeError>) {
        let ghost whole = value.model();
        match value {
            WireValue::Product(fields) => {
                proof {
                    lemma_models_of(fields@);
                }
                if fields.len() != 3 {
                    return Err(WireShapeError);
                }
                let ghost parts = fields@;
                let mut fields = fields;
                let w0 = fields.remove(0);
                assert(w0 == parts[0]);
                let w1 = fields.remove(0);
                assert(w1 == parts[1]);
                let w2 = fields.remove(0);
                assert(w2 == parts[2]);
                let responder_challenge = match <ResponderChallenge as WireShape>::from_wire(w0) {
                    Ok(v) => v,
                    Err(e) => {
                        return Err(e);
                    },
                };
                let responder_ephemeral_key = match <ResponderEphemeralKey as WireShape>::from_wire(w1) {
                    Ok(v) => v,
                    Err(e) => {
                        return Err(e);
                    },
                };
                let responder_proof = match <ResponderProof as WireShape>::from_wire(w2) {
                    Ok(v) => v,
                    Err(e) => {
                        return Err(e);
                    },
                };
                let restored = RouterSessionServerHello { responder_challenge, responder_ephemeral_key, responder_proof };
                assert(whole->Product_0 =~= seq![restored.responder_challenge.wire_model(), restored.responder_ephemeral_key.wire_model(), restored.responder_proof.wire_model()]);
                Ok(restored)
            },
            _ => Err(WireShapeError),
        }
    }

    proof fn lemma_projection_decodes(&self) {
        self.responder_challenge.lemma_projection_decodes();
        self.responder_ephemeral_key.lemma_projection_decodes();
        self.responder_proof.lemma_projection_decodes();
    }
}

impl WireShape for RouterSessionClientProof {
    open spec fn wire_model(&self) -> WireModel {
        WireModel::Product(seq![self.initiator_proof.wire_model()])
    }

    open spec fn decodes(model: WireModel) -> bool {
        match model {
            WireModel::Product(parts) => {
                &&& parts.len() == 1
                &&& <InitiatorProof as WireShape>::decodes(parts[0])
            },
            _ => false,
        }
    }

    fn to_wire(&self) -> (wire: WireValue) {
        let fields = vec![self.initiator_proof.to_wire()];
        proof {
            lemma_models_of(fields@);
            assert(models_of(fields@) =~= seq![self.initiator_proof.wire_model()]);
        }
        WireValue::Product(fields)
    }

    fn from_wire(value: WireValue) -> (restored: Result<Self, WireShapeError>) {
        let ghost whole = value.model();
        match value {
            WireValue::Product(fields) => {
                proof {
                    lemma_models_of(fields@);
                }
                if fields.len() != 1 {
                    return Err(WireShapeError);
                }
                let ghost parts = fields@;
                let mut fields = fields;
                let w0 = fields.remove(0);
                assert(w0 == parts[0]);
                let initiator_proof = match <InitiatorProof as WireShape>::from_wire(w0) {
                    Ok(v) => v,
                    Err(e) => {
                        return Err(e);
                    },
                };
                let restored = RouterSessionClientProof { initiator_proof };
                assert(whole->Product_0 =~= seq![restored.initiator_proof.wire_model()]);
                Ok(restored)
            },
            _ => Err(WireShapeError),
        }
    }

    proof fn lemma_projection_decodes(&self) {
        self.initiator_proof.lemma_projection_decodes();
    }
}

impl WireShape for RouterSessionAccepted {
    open spec fn wire_model(&self) -> WireModel {
        WireModel::Product(seq![self.key_confirmation.wire_model()])
    }

    open spec fn decodes(model: WireModel) -> bool {
        match model {
            WireModel::Product(parts) => {
                &&& parts.len() == 1
                &&& <KeyConfirmation as WireShape>::decodes(parts[0])
            },
            _ => false,
        }
    }

    fn to_wire(&self) -> (wire: WireValue) {
        let fields = vec![self.key_confirmation.to_wire()];
        proof {
            lemma_models_of(fields@);
            assert(models_of(fields@) =~= seq![self.key_confirmation.wire_model()]);
        }
        WireValue::Product(fields)
    }

    fn from_wire(value: WireValue) -> (restored: Result<Self, WireShapeError>) {
        let ghost whole = value.model();
        match value {
            WireValue::Product(fields) => {
                proof {
                    lemma_models_of(fields@);
                }
                if fields.len() != 1 {
                    return Err(WireShapeError);
                }
                let ghost parts = fields@;
                let mut fields = fields;
                let w0 = fields.remove(0);
                assert(w0 == parts[0]);
                let key_confirmation = match <KeyConfirmation as WireShape>::from_wire(w0) {
                    Ok(v) => v,
                    Err(e) => {
                        return Err(e);
                    },
                };
                let restored = RouterSessionAccepted { key_confirmation };
                assert(whole->Product_0 =~= seq![restored.key_confirmation.wire_model()]);
                Ok(restored)
            },
            _ => Err(WireShapeError),
        }
    }

    proof fn lemma_projection_decodes(&self) {
        self.key_confirmation.lemma_projection_decodes();
    }
}

impl WireShape for SessionRefusalReason {
    open spec fn wire_model(&self) -> WireModel {
        match self {
            SessionRefusalReason::IdentityProofInvalid => WireModel::Variant { ordinal: 1, fields: Seq::empty() },
            SessionRefusalReason::ChallengeMismatch => WireModel::Variant { ordinal: 2, fields: Seq::empty() },
            SessionRefusalReason::HandshakeMalformed => WireModel::Variant { ordinal: 3, fields: Seq::empty() },
            SessionRefusalReason::SessionCipherFailure => WireModel::Variant { ordinal: 0, fields: Seq::empty() },
        }
    }

    open spec fn decodes(model: WireModel) -> bool {
        match model {
            WireModel::Variant { ordinal, fields } => fields.len() == 0 && ordinal < 4,
            _ => false,
        }
    }

    fn to_wire(&self) -> (wire: WireValue) {
        let fields: Vec<WireValue> = Vec::new();
        proof {
            assert(models_of(fields@) =~= Seq::empty());
        }
        match self {
            SessionRefusalReason::IdentityProofInvalid => WireValue::Variant { ordinal: 1, fields },
            SessionRefusalReason::ChallengeMismatch => WireValue::Variant { ordinal: 2, fields },
            SessionRefusalReason::HandshakeMalformed => WireValue::Variant { ordinal: 3, fields },
            SessionRefusalReason::SessionCipherFailure => WireValue::Variant { ordinal: 0, fields },
        }
    }

    fn from_wire(value: WireValue) -> (restored: Result<Self, WireShapeError>) {
        match value {
            WireValue::Variant { ordinal, fields } => {
                proof {
                    lemma_models_of(fields@);
                }
                if fields.len() != 0 {
                    return Err(WireShapeError);
                }
                assert(models_of(fields@) =~= Seq::empty());
                if ordinal == 0 {
                    Ok(SessionRefusalReason::SessionCipherFailure)
                } else if ordinal == 1 {
                    Ok(SessionRefusalReason::IdentityProofInvalid)
                } else if ordinal == 2 {
                    Ok(SessionRefusalReason::ChallengeMismatch)
                } else if ordinal == 3 {
                    Ok(SessionRefusalReason::HandshakeMalformed)
                } else {
                    Err(WireShapeError)
                }
            },
            _ => Err(WireShapeError),
        }
    }

    proof fn lemma_projection_decodes(&self) {
    }
}

impl WireShape for RouterSessionRefused {
    open spec fn wire_model(&self) -> WireModel {
        WireModel::Product(seq![self.refusal_reason.wire_model()])
    }

    open spec fn decodes(model: WireModel) -> bool {
        match model {
            WireModel::Product(parts) => {
                &&& parts.len() == 1
                &&& <RefusalReason as WireShape>::decodes(parts[0])
            },
            _ => false,
        }
    }

    fn to_wire(&self) -> (wire: WireValue) {
        let fields = vec![self.refusal_reason.to_wire()];
        proof {
            lemma_models_of(fields@);
            assert(models_of(fields@) =~= seq![self.refusal_reason.wire_model()]);
        }
        WireValue::Product(fields)
    }

    fn from_wire(value: WireValue) -> (restored: Result<Self, WireShapeError>) {
        let ghost whole = value.model();
        match value {
            WireValue::Product(fields) => {
                proof {
                    lemma_models_of(fields@);
                }
                if fields.len() != 1 {
                    return Err(WireShapeError);
                }
                let ghost parts = fields@;
                let mut fields = fields;
                let w0 = fields.remove(0);
                assert(w0 == parts[0]);
                let refusal_reason = match <RefusalReason as WireShape>::from_wire(w0) {
                    Ok(v) => v,
                    Err(e) => {
                        return Err(e);
                    },
                };
                let restored = RouterSessionRefused { refusal_reason };
                assert(whole->Product_0 =~= seq![restored.refusal_reason.wire_model()]);
                Ok(restored)
            },
            _ => Err(WireShapeError),
        }
    }

    proof fn lemma_projection_decodes(&self) {
        self.refusal_reason.lemma_projection_decodes();
    }
}

impl WireShape for RouterSessionData {
    open spec fn wire_model(&self) -> WireModel {
        WireModel::Product(seq![self.sealed_octets.wire_model()])
    }

    open spec fn decodes(model: WireModel) -> bool {
        match model {
            WireModel::Product(parts) => {
                &&& parts.len() == 1
                &&& <SealedOctets as WireShape>::decodes(parts[0])
            },
            _ => false,
        }
    }

    fn to_wire(&self) -> (wire: WireValue) {
        let fields = vec![self.sealed_octets.to_wire()];
        proof {
            lemma_models_of(fields@);
            assert(models_of(fields@) =~= seq![self.sealed_octets.wire_model()]);
        }
        WireValue::Product(fields)
    }

    fn from_wire(value: WireValue) -> (restored: Result<Self, WireShapeError>) {
        let ghost whole = value.model();
        match value {
            WireValue::Product(fields) => {
                proof {
                    lemma_models_of(fields@);
                }
                if fields.len() != 1 {
                    return Err(WireShapeError);
                }
                let ghost parts = fields@;
                let mut fields = fields;
                let w0 = fields.remove(0);
                assert(w0 == parts[0]);
                let sealed_octets = match <SealedOctets as WireShape>::from_wire(w0) {
                    Ok(v) => v,
                    Err(e) => {
                        return Err(e);
                    },
                };
                let restored = RouterSessionData { sealed_octets };
                assert(whole->Product_0 =~= seq![restored.sealed_octets.wire_model()]);
                Ok(restored)
            },
            _ => Err(WireShapeError),
        }
    }

    proof fn lemma_projection_decodes(&self) {
        self.sealed_octets.lemma_projection_decodes();
    }
}

impl WireShape for RouterDaemonConfiguration {
    open spec fn wire_model(&self) -> WireModel {
        WireModel::Product(seq![self.router_socket_path.wire_model(), self.router_socket_mode.wire_model(), self.meta_router_socket_path.wire_model(), self.meta_router_socket_mode.wire_model(), self.supervision_socket_path.wire_model(), self.supervision_socket_mode.wire_model(), self.store_path.wire_model(), self.bootstrap_path.wire_model(), self.owner_identity.wire_model(), self.tailnet_listen_address.wire_model(), self.router_identity.wire_model(), self.criome_socket_path.wire_model()])
    }

    open spec fn decodes(model: WireModel) -> bool {
        match model {
            WireModel::Product(parts) => {
                &&& parts.len() == 12
                &&& <RouterSocketPath as WireShape>::decodes(parts[0])
                &&& <RouterSocketMode as WireShape>::decodes(parts[1])
                &&& <MetaRouterSocketPath as WireShape>::decodes(parts[2])
                &&& <MetaRouterSocketMode as WireShape>::decodes(parts[3])
                &&& <SupervisionSocketPath as WireShape>::decodes(parts[4])
                &&& <SupervisionSocketMode as WireShape>::decodes(parts[5])
                &&& <StorePath as WireShape>::decodes(parts[6])
                &&& <BootstrapPath as WireShape>::decodes(parts[7])
                &&& <OwnerIdentity as WireShape>::decodes(parts[8])
                &&& <TailnetListenAddress as WireShape>::decodes(parts[9])
                &&& <RouterIdentity as WireShape>::decodes(parts[10])
                &&& <CriomeSocketPath as WireShape>::decodes(parts[11])
            },
            _ => false,
        }
    }

    fn to_wire(&self) -> (wire: WireValue) {
        let fields = vec![self.router_socket_path.to_wire(), self.router_socket_mode.to_wire(), self.meta_router_socket_path.to_wire(), self.meta_router_socket_mode.to_wire(), self.supervision_socket_path.to_wire(), self.supervision_socket_mode.to_wire(), self.store_path.to_wire(), self.bootstrap_path.to_wire(), self.owner_identity.to_wire(), self.tailnet_listen_address.to_wire(), self.router_identity.to_wire(), self.criome_socket_path.to_wire()];
        proof {
            lemma_models_of(fields@);
            assert(models_of(fields@) =~= seq![self.router_socket_path.wire_model(), self.router_socket_mode.wire_model(), self.meta_router_socket_path.wire_model(), self.meta_router_socket_mode.wire_model(), self.supervision_socket_path.wire_model(), self.supervision_socket_mode.wire_model(), self.store_path.wire_model(), self.bootstrap_path.wire_model(), self.owner_identity.wire_model(), self.tailnet_listen_address.wire_model(), self.router_identity.wire_model(), self.criome_socket_path.wire_model()]);
        }
        WireValue::Product(fields)
    }

    fn from_wire(value: WireValue) -> (restored: Result<Self, WireShapeError>) {
        let ghost whole = value.model();
        match value {
            WireValue::Product(fields) => {
                proof {
                    lemma_models_of(fields@);
                }
                if fields.len() != 12 {
                    return Err(WireShapeError);
                }
                let ghost parts = fields@;
                let mut fields = fields;
                let w0 = fields.remove(0);
                assert(w0 == parts[0]);
                let w1 = fields.remove(0);
                assert(w1 == parts[1]);
                let w2 = fields.remove(0);
                assert(w2 == parts[2]);
                let w3 = fields.remove(0);
                assert(w3 == parts[3]);
                let w4 = fields.remove(0);
                assert(w4 == parts[4]);
                let w5 = fields.remove(0);
                assert(w5 == parts[5]);
                let w6 = fields.remove(0);
                assert(w6 == parts[6]);
                let w7 = fields.remove(0);
                assert(w7 == parts[7]);
                let w8 = fields.remove(0);
                assert(w8 == parts[8]);
                let w9 = fields.remove(0);
                assert(w9 == parts[9]);
                let w10 = fields.remove(0);
                assert(w10 == parts[10]);
                let w11 = fields.remove(0);
                assert(w11 == parts[11]);
                let router_socket_path = match <RouterSocketPath as WireShape>::from_wire(w0) {
                    Ok(v) => v,
                    Err(e) => {
                        return Err(e);
                    },
                };
                let router_socket_mode = match <RouterSocketMode as WireShape>::from_wire(w1) {
                    Ok(v) => v,
                    Err(e) => {
                        return Err(e);
                    },
                };
                let meta_router_socket_path = match <MetaRouterSocketPath as WireShape>::from_wire(w2) {
                    Ok(v) => v,
                    Err(e) => {
                        return Err(e);
                    },
                };
                let meta_router_socket_mode = match <MetaRouterSocketMode as WireShape>::from_wire(w3) {
                    Ok(v) => v,
                    Err(e) => {
                        return Err(e);
                    },
                };
                let supervision_socket_path = match <SupervisionSocketPath as WireShape>::from_wire(w4) {
                    Ok(v) => v,
                    Err(e) => {
                        return Err(e);
                    },
                };
                let supervision_socket_mode = match <SupervisionSocketMode as WireShape>::from_wire(w5) {
                    Ok(v) => v,
                    Err(e) => {
                        return Err(e);
                    },
                };
                let store_path = match <StorePath as WireShape>::from_wire(w6) {
                    Ok(v) => v,
                    Err(e) => {
                        return Err(e);
                    },
                };
                let bootstrap_path = match <BootstrapPath as WireShape>::from_wire(w7) {
                    Ok(v) => v,
                    Err(e) => {
                        return Err(e);
                    },
                };
                let owner_identity = match <OwnerIdentity as WireShape>::from_wire(w8) {
                    Ok(v) => v,
                    Err(e) => {
                        return Err(e);
                    },
                };
                let tailnet_listen_address = match <TailnetListenAddress as WireShape>::from_wire(w9) {
                    Ok(v) => v,
                    Err(e) => {
                        return Err(e);
                    },
                };
                let router_identity = match <RouterIdentity as WireShape>::from_wire(w10) {
                    Ok(v) => v,
                    Err(e) => {
                        return Err(e);
                    },
                };
                let criome_socket_path = match <CriomeSocketPath as WireShape>::from_wire(w11) {
                    Ok(v) => v,
                    Err(e) => {
                        return Err(e);
                    },
                };
                let restored = RouterDaemonConfiguration { router_socket_path, router_socket_mode, meta_router_socket_path, meta_router_socket_mode, supervision_socket_path, supervision_socket_mode, store_path, bootstrap_path, owner_identity, tailnet_listen_address, router_identity, criome_socket_path };
                assert(whole->Product_0 =~= seq![restored.router_socket_path.wire_model(), restored.router_socket_mode.wire_model(), restored.meta_router_socket_path.wire_model(), restored.meta_router_socket_mode.wire_model(), restored.supervision_socket_path.wire_model(), restored.supervision_socket_mode.wire_model(), restored.store_path.wire_model(), restored.bootstrap_path.wire_model(), restored.owner_identity.wire_model(), restored.tailnet_listen_address.wire_model(), restored.router_identity.wire_model(), restored.criome_socket_path.wire_model()]);
                Ok(restored)
            },
            _ => Err(WireShapeError),
        }
    }

    proof fn lemma_projection_decodes(&self) {
        self.router_socket_path.lemma_projection_decodes();
        self.router_socket_mode.lemma_projection_decodes();
        self.meta_router_socket_path.lemma_projection_decodes();
        self.meta_router_socket_mode.lemma_projection_decodes();
        self.supervision_socket_path.lemma_projection_decodes();
        self.supervision_socket_mode.lemma_projection_decodes();
        self.store_path.lemma_projection_decodes();
        self.bootstrap_path.lemma_projection_decodes();
        self.owner_identity.lemma_projection_decodes();
        self.tailnet_listen_address.lemma_projection_decodes();
        self.router_identity.lemma_projection_decodes();
        self.criome_socket_path.lemma_projection_decodes();
    }
}

impl WireShape for Query {
    open spec fn wire_model(&self) -> WireModel {
        match self {
            Query::Summary(payload) => WireModel::Variant {
                ordinal: 3,
                fields: seq![payload.wire_model()],
            },
            Query::MessageTrace(payload) => WireModel::Variant {
                ordinal: 8,
                fields: seq![payload.wire_model()],
            },
            Query::ChannelState(payload) => WireModel::Variant {
                ordinal: 0,
                fields: seq![payload.wire_model()],
            },
            Query::ForwardMessage(payload) => WireModel::Variant {
                ordinal: 2,
                fields: seq![payload.wire_model()],
            },
            Query::SubmitRoutedObjects(payload) => WireModel::Variant {
                ordinal: 1,
                fields: seq![payload.wire_model()],
            },
            Query::SessionClientHello(payload) => WireModel::Variant {
                ordinal: 5,
                fields: seq![payload.wire_model()],
            },
            Query::SessionClientProof(payload) => WireModel::Variant {
                ordinal: 4,
                fields: seq![payload.wire_model()],
            },
            Query::SessionData(payload) => WireModel::Variant {
                ordinal: 6,
                fields: seq![payload.wire_model()],
            },
            Query::RegisterActor(payload) => WireModel::Variant {
                ordinal: 7,
                fields: seq![payload.wire_model()],
            },
        }
    }

    open spec fn decodes(model: WireModel) -> bool {
        match model {
            WireModel::Variant { ordinal, fields } => {
                &&& fields.len() == 1
                &&& match ordinal {
                    0 => <RouterChannelStateQuery as WireShape>::decodes(fields[0]),
                    1 => <ForwardedMessagePayload as WireShape>::decodes(fields[0]),
                    2 => <RouterForwardRequest as WireShape>::decodes(fields[0]),
                    3 => <RouterSummaryQuery as WireShape>::decodes(fields[0]),
                    4 => <RouterSessionClientProof as WireShape>::decodes(fields[0]),
                    5 => <RouterSessionClientHello as WireShape>::decodes(fields[0]),
                    6 => <RouterSessionData as WireShape>::decodes(fields[0]),
                    7 => <Actor as WireShape>::decodes(fields[0]),
                    8 => <RouterMessageTraceQuery as WireShape>::decodes(fields[0]),
                    _ => false,
                }
            },
            _ => false,
        }
    }

    fn to_wire(&self) -> (wire: WireValue) {
        match self {
            Query::Summary(payload) => {
                let fields = vec![payload.to_wire()];
                proof {
                    lemma_models_of(fields@);
                    assert(models_of(fields@) =~= seq![payload.wire_model()]);
                }
                WireValue::Variant { ordinal: 3, fields }
            },
            Query::MessageTrace(payload) => {
                let fields = vec![payload.to_wire()];
                proof {
                    lemma_models_of(fields@);
                    assert(models_of(fields@) =~= seq![payload.wire_model()]);
                }
                WireValue::Variant { ordinal: 8, fields }
            },
            Query::ChannelState(payload) => {
                let fields = vec![payload.to_wire()];
                proof {
                    lemma_models_of(fields@);
                    assert(models_of(fields@) =~= seq![payload.wire_model()]);
                }
                WireValue::Variant { ordinal: 0, fields }
            },
            Query::ForwardMessage(payload) => {
                let fields = vec![payload.to_wire()];
                proof {
                    lemma_models_of(fields@);
                    assert(models_of(fields@) =~= seq![payload.wire_model()]);
                }
                WireValue::Variant { ordinal: 2, fields }
            },
            Query::SubmitRoutedObjects(payload) => {
                let fields = vec![payload.to_wire()];
                proof {
                    lemma_models_of(fields@);
                    assert(models_of(fields@) =~= seq![payload.wire_model()]);
                }
                WireValue::Variant { ordinal: 1, fields }
            },
            Query::SessionClientHello(payload) => {
                let fields = vec![payload.to_wire()];
                proof {
                    lemma_models_of(fields@);
                    assert(models_of(fields@) =~= seq![payload.wire_model()]);
                }
                WireValue::Variant { ordinal: 5, fields }
            },
            Query::SessionClientProof(payload) => {
                let fields = vec![payload.to_wire()];
                proof {
                    lemma_models_of(fields@);
                    assert(models_of(fields@) =~= seq![payload.wire_model()]);
                }
                WireValue::Variant { ordinal: 4, fields }
            },
            Query::SessionData(payload) => {
                let fields = vec![payload.to_wire()];
                proof {
                    lemma_models_of(fields@);
                    assert(models_of(fields@) =~= seq![payload.wire_model()]);
                }
                WireValue::Variant { ordinal: 6, fields }
            },
            Query::RegisterActor(payload) => {
                let fields = vec![payload.to_wire()];
                proof {
                    lemma_models_of(fields@);
                    assert(models_of(fields@) =~= seq![payload.wire_model()]);
                }
                WireValue::Variant { ordinal: 7, fields }
            },
        }
    }

    fn from_wire(value: WireValue) -> (restored: Result<Self, WireShapeError>) {
        match value {
            WireValue::Variant { ordinal, fields } => {
                proof {
                    lemma_models_of(fields@);
                }
                let ghost parts = models_of(fields@);
                if ordinal == 0 {
                    let field = match one_field(fields) {
                        Ok(w) => w,
                        Err(e) => {
                            return Err(e);
                        },
                    };
                    match <RouterChannelStateQuery as WireShape>::from_wire(field) {
                        Ok(payload) => {
                            assert(parts =~= seq![payload.wire_model()]);
                            Ok(Query::ChannelState(payload))
                        },
                        Err(e) => Err(e),
                    }
                } else if ordinal == 1 {
                    let field = match one_field(fields) {
                        Ok(w) => w,
                        Err(e) => {
                            return Err(e);
                        },
                    };
                    match <ForwardedMessagePayload as WireShape>::from_wire(field) {
                        Ok(payload) => {
                            assert(parts =~= seq![payload.wire_model()]);
                            Ok(Query::SubmitRoutedObjects(payload))
                        },
                        Err(e) => Err(e),
                    }
                } else if ordinal == 2 {
                    let field = match one_field(fields) {
                        Ok(w) => w,
                        Err(e) => {
                            return Err(e);
                        },
                    };
                    match <RouterForwardRequest as WireShape>::from_wire(field) {
                        Ok(payload) => {
                            assert(parts =~= seq![payload.wire_model()]);
                            Ok(Query::ForwardMessage(payload))
                        },
                        Err(e) => Err(e),
                    }
                } else if ordinal == 3 {
                    let field = match one_field(fields) {
                        Ok(w) => w,
                        Err(e) => {
                            return Err(e);
                        },
                    };
                    match <RouterSummaryQuery as WireShape>::from_wire(field) {
                        Ok(payload) => {
                            assert(parts =~= seq![payload.wire_model()]);
                            Ok(Query::Summary(payload))
                        },
                        Err(e) => Err(e),
                    }
                } else if ordinal == 4 {
                    let field = match one_field(fields) {
                        Ok(w) => w,
                        Err(e) => {
                            return Err(e);
                        },
                    };
                    match <RouterSessionClientProof as WireShape>::from_wire(field) {
                        Ok(payload) => {
                            assert(parts =~= seq![payload.wire_model()]);
                            Ok(Query::SessionClientProof(payload))
                        },
                        Err(e) => Err(e),
                    }
                } else if ordinal == 5 {
                    let field = match one_field(fields) {
                        Ok(w) => w,
                        Err(e) => {
                            return Err(e);
                        },
                    };
                    match <RouterSessionClientHello as WireShape>::from_wire(field) {
                        Ok(payload) => {
                            assert(parts =~= seq![payload.wire_model()]);
                            Ok(Query::SessionClientHello(payload))
                        },
                        Err(e) => Err(e),
                    }
                } else if ordinal == 6 {
                    let field = match one_field(fields) {
                        Ok(w) => w,
                        Err(e) => {
                            return Err(e);
                        },
                    };
                    match <RouterSessionData as WireShape>::from_wire(field) {
                        Ok(payload) => {
                            assert(parts =~= seq![payload.wire_model()]);
                            Ok(Query::SessionData(payload))
                        },
                        Err(e) => Err(e),
                    }
                } else if ordinal == 7 {
                    let field = match one_field(fields) {
                        Ok(w) => w,
                        Err(e) => {
                            return Err(e);
                        },
                    };
                    match <Actor as WireShape>::from_wire(field) {
                        Ok(payload) => {
                            assert(parts =~= seq![payload.wire_model()]);
                            Ok(Query::RegisterActor(payload))
                        },
                        Err(e) => Err(e),
                    }
                } else if ordinal == 8 {
                    let field = match one_field(fields) {
                        Ok(w) => w,
                        Err(e) => {
                            return Err(e);
                        },
                    };
                    match <RouterMessageTraceQuery as WireShape>::from_wire(field) {
                        Ok(payload) => {
                            assert(parts =~= seq![payload.wire_model()]);
                            Ok(Query::MessageTrace(payload))
                        },
                        Err(e) => Err(e),
                    }
                } else {
                    Err(WireShapeError)
                }
            },
            _ => Err(WireShapeError),
        }
    }

    proof fn lemma_projection_decodes(&self) {
        match self {
            Query::Summary(payload) => payload.lemma_projection_decodes(),
            Query::MessageTrace(payload) => payload.lemma_projection_decodes(),
            Query::ChannelState(payload) => payload.lemma_projection_decodes(),
            Query::ForwardMessage(payload) => payload.lemma_projection_decodes(),
            Query::SubmitRoutedObjects(payload) => payload.lemma_projection_decodes(),
            Query::SessionClientHello(payload) => payload.lemma_projection_decodes(),
            Query::SessionClientProof(payload) => payload.lemma_projection_decodes(),
            Query::SessionData(payload) => payload.lemma_projection_decodes(),
            Query::RegisterActor(payload) => payload.lemma_projection_decodes(),
        }
    }
}

impl WireShape for Response {
    open spec fn wire_model(&self) -> WireModel {
        match self {
            Response::Summary(payload) => WireModel::Variant {
                ordinal: 4,
                fields: seq![payload.wire_model()],
            },
            Response::MessageTrace(payload) => WireModel::Variant {
                ordinal: 1,
                fields: seq![payload.wire_model()],
            },
            Response::MessageTraceMissing(payload) => WireModel::Variant {
                ordinal: 7,
                fields: seq![payload.wire_model()],
            },
            Response::ChannelState(payload) => WireModel::Variant {
                ordinal: 0,
                fields: seq![payload.wire_model()],
            },
            Response::ForwardAccepted(payload) => WireModel::Variant {
                ordinal: 14,
                fields: seq![payload.wire_model()],
            },
            Response::ForwardRefused(payload) => WireModel::Variant {
                ordinal: 6,
                fields: seq![payload.wire_model()],
            },
            Response::Unimplemented(payload) => WireModel::Variant {
                ordinal: 11,
                fields: seq![payload.wire_model()],
            },
            Response::RoutedObjectsAccepted(payload) => WireModel::Variant {
                ordinal: 8,
                fields: seq![payload.wire_model()],
            },
            Response::RoutedObjectsRefused(payload) => WireModel::Variant {
                ordinal: 3,
                fields: seq![payload.wire_model()],
            },
            Response::SessionServerHello(payload) => WireModel::Variant {
                ordinal: 13,
                fields: seq![payload.wire_model()],
            },
            Response::SessionAccepted(payload) => WireModel::Variant {
                ordinal: 12,
                fields: seq![payload.wire_model()],
            },
            Response::SessionRefused(payload) => WireModel::Variant {
                ordinal: 9,
                fields: seq![payload.wire_model()],
            },
            Response::SessionData(payload) => WireModel::Variant {
                ordinal: 2,
                fields: seq![payload.wire_model()],
            },
            Response::ActorRegistered(payload) => WireModel::Variant {
                ordinal: 10,
                fields: seq![payload.wire_model()],
            },
            Response::ActorRegistrationRefused(payload) => WireModel::Variant {
                ordinal: 5,
                fields: seq![payload.wire_model()],
            },
        }
    }

    open spec fn decodes(model: WireModel) -> bool {
        match model {
            WireModel::Variant { ordinal, fields } => {
                &&& fields.len() == 1
                &&& match ordinal {
                    0 => <RouterChannelState as WireShape>::decodes(fields[0]),
                    1 => <RouterMessageTrace as WireShape>::decodes(fields[0]),
                    2 => <RouterSessionData as WireShape>::decodes(fields[0]),
                    3 => <RouterRoutedObjectsRefused as WireShape>::decodes(fields[0]),
                    4 => <RouterSummary as WireShape>::decodes(fields[0]),
                    5 => <ActorRegistrationRefused as WireShape>::decodes(fields[0]),
                    6 => <RouterForwardRefused as WireShape>::decodes(fields[0]),
                    7 => <RouterMessageTraceMissing as WireShape>::decodes(fields[0]),
                    8 => <RouterRoutedObjectsAccepted as WireShape>::decodes(fields[0]),
                    9 => <RouterSessionRefused as WireShape>::decodes(fields[0]),
                    10 => <ActorRegistered as WireShape>::decodes(fields[0]),
                    11 => <RouterObservationUnimplemented as WireShape>::decodes(fields[0]),
                    12 => <RouterSessionAccepted as WireShape>::decodes(fields[0]),
                    13 => <RouterSessionServerHello as WireShape>::decodes(fields[0]),
                    14 => <RouterForwardAccepted as WireShape>::decodes(fields[0]),
                    _ => false,
                }
            },
            _ => false,
        }
    }

    fn to_wire(&self) -> (wire: WireValue) {
        match self {
            Response::Summary(payload) => {
                let fields = vec![payload.to_wire()];
                proof {
                    lemma_models_of(fields@);
                    assert(models_of(fields@) =~= seq![payload.wire_model()]);
                }
                WireValue::Variant { ordinal: 4, fields }
            },
            Response::MessageTrace(payload) => {
                let fields = vec![payload.to_wire()];
                proof {
                    lemma_models_of(fields@);
                    assert(models_of(fields@) =~= seq![payload.wire_model()]);
                }
                WireValue::Variant { ordinal: 1, fields }
            },
            Response::MessageTraceMissing(payload) => {
                let fields = vec![payload.to_wire()];
                proof {
                    lemma_models_of(fields@);
                    assert(models_of(fields@) =~= seq![payload.wire_model()]);
                }
                WireValue::Variant { ordinal: 7, fields }
            },
            Response::ChannelState(payload) => {
                let fields = vec![payload.to_wire()];
                proof {
                    lemma_models_of(fields@);
                    assert(models_of(fields@) =~= seq![payload.wire_model()]);
                }
                WireValue::Variant { ordinal: 0, fields }
            },
            Response::ForwardAccepted(payload) => {
                let fields = vec![payload.to_wire()];
                proof {
                    lemma_models_of(fields@);
                    assert(models_of(fields@) =~= seq![payload.wire_model()]);
                }
                WireValue::Variant { ordinal: 14, fields }
            },
            Response::ForwardRefused(payload) => {
                let fields = vec![payload.to_wire()];
                proof {
                    lemma_models_of(fields@);
                    assert(models_of(fields@) =~= seq![payload.wire_model()]);
                }
                WireValue::Variant { ordinal: 6, fields }
            },
            Response::Unimplemented(payload) => {
                let fields = vec![payload.to_wire()];
                proof {
                    lemma_models_of(fields@);
                    assert(models_of(fields@) =~= seq![payload.wire_model()]);
                }
                WireValue::Variant { ordinal: 11, fields }
            },
            Response::RoutedObjectsAccepted(payload) => {
                let fields = vec![payload.to_wire()];
                proof {
                    lemma_models_of(fields@);
                    assert(models_of(fields@) =~= seq![payload.wire_model()]);
                }
                WireValue::Variant { ordinal: 8, fields }
            },
            Response::RoutedObjectsRefused(payload) => {
                let fields = vec![payload.to_wire()];
                proof {
                    lemma_models_of(fields@);
                    assert(models_of(fields@) =~= seq![payload.wire_model()]);
                }
                WireValue::Variant { ordinal: 3, fields }
            },
            Response::SessionServerHello(payload) => {
                let fields = vec![payload.to_wire()];
                proof {
                    lemma_models_of(fields@);
                    assert(models_of(fields@) =~= seq![payload.wire_model()]);
                }
                WireValue::Variant { ordinal: 13, fields }
            },
            Response::SessionAccepted(payload) => {
                let fields = vec![payload.to_wire()];
                proof {
                    lemma_models_of(fields@);
                    assert(models_of(fields@) =~= seq![payload.wire_model()]);
                }
                WireValue::Variant { ordinal: 12, fields }
            },
            Response::SessionRefused(payload) => {
                let fields = vec![payload.to_wire()];
                proof {
                    lemma_models_of(fields@);
                    assert(models_of(fields@) =~= seq![payload.wire_model()]);
                }
                WireValue::Variant { ordinal: 9, fields }
            },
            Response::SessionData(payload) => {
                let fields = vec![payload.to_wire()];
                proof {
                    lemma_models_of(fields@);
                    assert(models_of(fields@) =~= seq![payload.wire_model()]);
                }
                WireValue::Variant { ordinal: 2, fields }
            },
            Response::ActorRegistered(payload) => {
                let fields = vec![payload.to_wire()];
                proof {
                    lemma_models_of(fields@);
                    assert(models_of(fields@) =~= seq![payload.wire_model()]);
                }
                WireValue::Variant { ordinal: 10, fields }
            },
            Response::ActorRegistrationRefused(payload) => {
                let fields = vec![payload.to_wire()];
                proof {
                    lemma_models_of(fields@);
                    assert(models_of(fields@) =~= seq![payload.wire_model()]);
                }
                WireValue::Variant { ordinal: 5, fields }
            },
        }
    }

    fn from_wire(value: WireValue) -> (restored: Result<Self, WireShapeError>) {
        match value {
            WireValue::Variant { ordinal, fields } => {
                proof {
                    lemma_models_of(fields@);
                }
                let ghost parts = models_of(fields@);
                if ordinal == 0 {
                    let field = match one_field(fields) {
                        Ok(w) => w,
                        Err(e) => {
                            return Err(e);
                        },
                    };
                    match <RouterChannelState as WireShape>::from_wire(field) {
                        Ok(payload) => {
                            assert(parts =~= seq![payload.wire_model()]);
                            Ok(Response::ChannelState(payload))
                        },
                        Err(e) => Err(e),
                    }
                } else if ordinal == 1 {
                    let field = match one_field(fields) {
                        Ok(w) => w,
                        Err(e) => {
                            return Err(e);
                        },
                    };
                    match <RouterMessageTrace as WireShape>::from_wire(field) {
                        Ok(payload) => {
                            assert(parts =~= seq![payload.wire_model()]);
                            Ok(Response::MessageTrace(payload))
                        },
                        Err(e) => Err(e),
                    }
                } else if ordinal == 2 {
                    let field = match one_field(fields) {
                        Ok(w) => w,
                        Err(e) => {
                            return Err(e);
                        },
                    };
                    match <RouterSessionData as WireShape>::from_wire(field) {
                        Ok(payload) => {
                            assert(parts =~= seq![payload.wire_model()]);
                            Ok(Response::SessionData(payload))
                        },
                        Err(e) => Err(e),
                    }
                } else if ordinal == 3 {
                    let field = match one_field(fields) {
                        Ok(w) => w,
                        Err(e) => {
                            return Err(e);
                        },
                    };
                    match <RouterRoutedObjectsRefused as WireShape>::from_wire(field) {
                        Ok(payload) => {
                            assert(parts =~= seq![payload.wire_model()]);
                            Ok(Response::RoutedObjectsRefused(payload))
                        },
                        Err(e) => Err(e),
                    }
                } else if ordinal == 4 {
                    let field = match one_field(fields) {
                        Ok(w) => w,
                        Err(e) => {
                            return Err(e);
                        },
                    };
                    match <RouterSummary as WireShape>::from_wire(field) {
                        Ok(payload) => {
                            assert(parts =~= seq![payload.wire_model()]);
                            Ok(Response::Summary(payload))
                        },
                        Err(e) => Err(e),
                    }
                } else if ordinal == 5 {
                    let field = match one_field(fields) {
                        Ok(w) => w,
                        Err(e) => {
                            return Err(e);
                        },
                    };
                    match <ActorRegistrationRefused as WireShape>::from_wire(field) {
                        Ok(payload) => {
                            assert(parts =~= seq![payload.wire_model()]);
                            Ok(Response::ActorRegistrationRefused(payload))
                        },
                        Err(e) => Err(e),
                    }
                } else if ordinal == 6 {
                    let field = match one_field(fields) {
                        Ok(w) => w,
                        Err(e) => {
                            return Err(e);
                        },
                    };
                    match <RouterForwardRefused as WireShape>::from_wire(field) {
                        Ok(payload) => {
                            assert(parts =~= seq![payload.wire_model()]);
                            Ok(Response::ForwardRefused(payload))
                        },
                        Err(e) => Err(e),
                    }
                } else if ordinal == 7 {
                    let field = match one_field(fields) {
                        Ok(w) => w,
                        Err(e) => {
                            return Err(e);
                        },
                    };
                    match <RouterMessageTraceMissing as WireShape>::from_wire(field) {
                        Ok(payload) => {
                            assert(parts =~= seq![payload.wire_model()]);
                            Ok(Response::MessageTraceMissing(payload))
                        },
                        Err(e) => Err(e),
                    }
                } else if ordinal == 8 {
                    let field = match one_field(fields) {
                        Ok(w) => w,
                        Err(e) => {
                            return Err(e);
                        },
                    };
                    match <RouterRoutedObjectsAccepted as WireShape>::from_wire(field) {
                        Ok(payload) => {
                            assert(parts =~= seq![payload.wire_model()]);
                            Ok(Response::RoutedObjectsAccepted(payload))
                        },
                        Err(e) => Err(e),
                    }
                } else if ordinal == 9 {
                    let field = match one_field(fields) {
                        Ok(w) => w,
                        Err(e) => {
                            return Err(e);
                        },
                    };
                    match <RouterSessionRefused as WireShape>::from_wire(field) {
                        Ok(payload) => {
                            assert(parts =~= seq![payload.wire_model()]);
                            Ok(Response::SessionRefused(payload))
                        },
                        Err(e) => Err(e),
                    }
                } else if ordinal == 10 {
                    let field = match one_field(fields) {
                        Ok(w) => w,
                        Err(e) => {
                            return Err(e);
                        },
                    };
                    match <ActorRegistered as WireShape>::from_wire(field) {
                        Ok(payload) => {
                            assert(parts =~= seq![payload.wire_model()]);
                            Ok(Response::ActorRegistered(payload))
                        },
                        Err(e) => Err(e),
                    }
                } else if ordinal == 11 {
                    let field = match one_field(fields) {
                        Ok(w) => w,
                        Err(e) => {
                            return Err(e);
                        },
                    };
                    match <RouterObservationUnimplemented as WireShape>::from_wire(field) {
                        Ok(payload) => {
                            assert(parts =~= seq![payload.wire_model()]);
                            Ok(Response::Unimplemented(payload))
                        },
                        Err(e) => Err(e),
                    }
                } else if ordinal == 12 {
                    let field = match one_field(fields) {
                        Ok(w) => w,
                        Err(e) => {
                            return Err(e);
                        },
                    };
                    match <RouterSessionAccepted as WireShape>::from_wire(field) {
                        Ok(payload) => {
                            assert(parts =~= seq![payload.wire_model()]);
                            Ok(Response::SessionAccepted(payload))
                        },
                        Err(e) => Err(e),
                    }
                } else if ordinal == 13 {
                    let field = match one_field(fields) {
                        Ok(w) => w,
                        Err(e) => {
                            return Err(e);
                        },
                    };
                    match <RouterSessionServerHello as WireShape>::from_wire(field) {
                        Ok(payload) => {
                            assert(parts =~= seq![payload.wire_model()]);
                            Ok(Response::SessionServerHello(payload))
                        },
                        Err(e) => Err(e),
                    }
                } else if ordinal == 14 {
                    let field = match one_field(fields) {
                        Ok(w) => w,
                        Err(e) => {
                            return Err(e);
                        },
                    };
                    match <RouterForwardAccepted as WireShape>::from_wire(field) {
                        Ok(payload) => {
                            assert(parts =~= seq![payload.wire_model()]);
                            Ok(Response::ForwardAccepted(payload))
                        },
                        Err(e) => Err(e),
                    }
                } else {
                    Err(WireShapeError)
                }
            },
            _ => Err(WireShapeError),
        }
    }

    proof fn lemma_projection_decodes(&self) {
        match self {
            Response::Summary(payload) => payload.lemma_projection_decodes(),
            Response::MessageTrace(payload) => payload.lemma_projection_decodes(),
            Response::MessageTraceMissing(payload) => payload.lemma_projection_decodes(),
            Response::ChannelState(payload) => payload.lemma_projection_decodes(),
            Response::ForwardAccepted(payload) => payload.lemma_projection_decodes(),
            Response::ForwardRefused(payload) => payload.lemma_projection_decodes(),
            Response::Unimplemented(payload) => payload.lemma_projection_decodes(),
            Response::RoutedObjectsAccepted(payload) => payload.lemma_projection_decodes(),
            Response::RoutedObjectsRefused(payload) => payload.lemma_projection_decodes(),
            Response::SessionServerHello(payload) => payload.lemma_projection_decodes(),
            Response::SessionAccepted(payload) => payload.lemma_projection_decodes(),
            Response::SessionRefused(payload) => payload.lemma_projection_decodes(),
            Response::SessionData(payload) => payload.lemma_projection_decodes(),
            Response::ActorRegistered(payload) => payload.lemma_projection_decodes(),
            Response::ActorRegistrationRefused(payload) => payload.lemma_projection_decodes(),
        }
    }
}

/// The projection of every contract value restores: decoding the wire value
/// a value projects onto succeeds, and by `from_wire`'s contract the restored
/// value projects onto that same wire value.
pub proof fn law_projection_restores<Value: WireShape>(value: Value)
    ensures
        Value::decodes(value.wire_model()),
{
    value.lemma_projection_decodes();
}

/// Bare heads cross the wire as bare heads: a head of a closed enum without
/// payload projects onto its ordinal with no fields.
pub proof fn law_bare_heads_stay_bare(
    scope: RouterObservationScope,
    reason: RouterObservationUnimplementedReason,
)
    ensures
        scope.wire_model() matches WireModel::Variant { ordinal, fields } && fields.len() == 0,
        reason.wire_model() matches WireModel::Variant { ordinal, fields } && fields.len() == 0,
{
}

/// The request and reply roots are closed: an ordinal past their last head
/// never restores, whatever fields it carries.
pub proof fn law_roots_are_closed(ordinal: u16, fields: Seq<WireModel>)
    ensures
        ordinal >= 9 ==> !Query::decodes(WireModel::Variant { ordinal, fields }),
        ordinal >= 15 ==> !Response::decodes(WireModel::Variant { ordinal, fields }),
{
}

} // verus!

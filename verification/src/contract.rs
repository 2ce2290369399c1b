//! The typed wire vocabulary of the router contract: the request and reply
//! roots, every record they carry, the bootstrap document and the daemon
//! configuration. Wire enums are closed; absence is a positive answer.

use vstd::prelude::*;

verus! {

// The names the vocabulary gives its scalar and composite values.
pub type ObservationIdentifier = String;
pub type ActorIdentifier = String;
pub type EngineIdentifier = String;
pub type ChannelIdentifier = String;
pub type MessageSlot = i64;
pub type WirePath = String;
pub type SocketMode = i64;
pub type UnixUserIdentifier = i64;
pub type TailnetAddress = String;
pub type CriomeHostId = String;
pub type HostName = String;
pub type TimestampNanos = i64;
pub type ReplayNonce = String;
pub type ContractName = String;
pub type ContractOperation = String;
pub type ContractPayloadSize = i64;
pub type Engine = EngineIdentifier;
pub type Channel = ChannelIdentifier;
pub type Target = String;
pub type Auxiliary = Option<String>;
pub type Name = ActorIdentifier;
pub type Process = i64;
pub type Endpoint = Option<EndpointTransport>;
pub type Home = Option<CriomeHostId>;
pub type RegisteredActor = ActorIdentifier;
pub type SourceActor = ActorIdentifier;
pub type DestinationActor = ActorIdentifier;
pub type Requester = ActorIdentifier;
pub type Identity = CriomeHostId;
pub type Address = TailnetAddress;
pub type RouterBootstrapDocument = Vec<RouterBootstrapOperation>;
pub type AcceptedMessages = i64;
pub type RoutedMessages = i64;
pub type DeferredMessages = i64;
pub type FailedMessages = i64;
pub type DeliveryStatus = RouterDeliveryStatus;
pub type ChannelStatus = RouterChannelStatus;
pub type ObservationScope = RouterObservationScope;
pub type ObservationReason = RouterObservationUnimplementedReason;
pub type Signer = CriomeHostId;
pub type Scheme = SignatureScheme;
pub type PublicKey = String;
pub type Signature = String;
pub type ContentDigest = String;
pub type IssuedAt = TimestampNanos;
pub type Nonce = ReplayNonce;
pub type AttestationIssuedAt = TimestampNanos;
pub type Octet = i64;
pub type PayloadOctets = Vec<Octet>;
pub type Body = String;
pub type Attachment = String;
pub type Attachments = Vec<Attachment>;
pub type RoutedObjects = Vec<RoutedContractObject>;
pub type Submission = ForwardedMessagePayload;
pub type Attestation = RouterPeerAttestation;
pub type ForwardRefusalReason = RouterForwardRefusalReason;
pub type SessionChallenge = String;
pub type EphemeralPublicKey = String;
pub type ProofSigner = CriomeHostId;
pub type ProofScheme = SignatureScheme;
pub type ProofPublicKey = String;
pub type ProofSignature = String;
pub type ProofDigest = String;
pub type ProofChallengeNonce = ReplayNonce;
pub type ProofAttestationIssuedAt = TimestampNanos;
pub type InitiatorChallenge = SessionChallenge;
pub type InitiatorEphemeralKey = EphemeralPublicKey;
pub type ResponderChallenge = SessionChallenge;
pub type ResponderEphemeralKey = EphemeralPublicKey;
pub type ResponderProof = RouterIdentityProof;
pub type InitiatorProof = RouterIdentityProof;
pub type KeyConfirmation = Vec<Octet>;
pub type RefusalReason = SessionRefusalReason;
pub type SealedOctets = Vec<Octet>;
pub type RouterSocketPath = WirePath;
pub type RouterSocketMode = SocketMode;
pub type MetaRouterSocketPath = WirePath;
pub type MetaRouterSocketMode = SocketMode;
pub type SupervisionSocketPath = WirePath;
pub type SupervisionSocketMode = SocketMode;
pub type StorePath = WirePath;
pub type BootstrapPath = Option<WirePath>;
pub type TailnetListenAddress = Option<TailnetAddress>;
pub type RouterIdentity = CriomeHostId;
pub type CriomeSocketPath = Option<WirePath>;

/// The Unix identity that owns the router's sockets.
#[derive(Clone, Debug, PartialEq, Eq)]
pub enum OwnerIdentity {
    UnixUser(UnixUserIdentifier),
}

/// How an actor's endpoint is reached.
#[derive(Clone, Debug, PartialEq, Eq)]
pub enum EndpointKind {
    Human,
    HarnessSocket,
    PtySocket,
    RemoteRouter,
    ComponentSocket,
}

/// Where and how an actor's endpoint is reached. For a `RemoteRouter` endpoint the target
/// is a tailnet address and the auxiliary value the remote router's identity.
#[derive(Clone, Debug, PartialEq, Eq)]
pub struct EndpointTransport {
    pub endpoint_kind: EndpointKind,
    pub target: Target,
    pub auxiliary: Auxiliary,
}

/// An actor known to the router: its name, process and optional endpoint.
#[derive(Clone, Debug, PartialEq, Eq)]
pub struct Actor {
    pub name: Name,
    pub process: Process,
    pub endpoint: Endpoint,
}

/// Bootstrap registration of an actor; `home` names the remote router it lives behind,
/// absent for a local actor.
#[derive(Clone, Debug, PartialEq, Eq)]
pub struct RegisterActor {
    pub actor: Actor,
    pub home: Home,
}

/// What a successful actor registration did.
#[derive(Clone, Debug, PartialEq, Eq)]
pub enum ActorRegistrationDisposition {
    Registered,
    EndpointUpdated,
}

/// Reply: an actor was registered.
#[derive(Clone, Debug, PartialEq, Eq)]
pub struct ActorRegistered {
    pub registered_actor: RegisteredActor,
    pub actor_registration_disposition: ActorRegistrationDisposition,
}

/// Why an actor registration was refused.
#[derive(Clone, Debug, PartialEq, Eq)]
pub enum ActorRegistrationRefusalReason {
    ProcessIdentifierOutOfRange,
    RemoteRouterEndpointNotLocal,
}

/// Reply: an actor registration was refused.
#[derive(Clone, Debug, PartialEq, Eq)]
pub struct ActorRegistrationRefused {
    pub registered_actor: RegisteredActor,
    pub actor_registration_refusal_reason: ActorRegistrationRefusalReason,
}

/// Bootstrap grant of a direct-message channel from one actor to another.
#[derive(Clone, Debug, PartialEq, Eq)]
pub struct GrantDirectMessage {
    pub source_actor: SourceActor,
    pub destination_actor: DestinationActor,
}

/// Bootstrap installation of the structural channels of a requester.
#[derive(Clone, Debug, PartialEq, Eq)]
pub struct InstallStructuralChannels {
    pub requester: Requester,
}

/// Bootstrap peer manifest line: a remote router's identity and its tailnet address.
#[derive(Clone, Debug, PartialEq, Eq)]
pub struct RegisterRemoteRouter {
    pub identity: Identity,
    pub address: Address,
}

/// One operation of the manager-written bootstrap document.
#[derive(Clone, Debug, PartialEq, Eq)]
pub enum RouterBootstrapOperation {
    RegisterActor(RegisterActor),
    GrantDirectMessage(GrantDirectMessage),
    InstallStructuralChannels(InstallStructuralChannels),
    RegisterRemoteRouter(RegisterRemoteRouter),
}

/// Which observation a request asked for.
#[derive(Clone, Debug, PartialEq, Eq)]
pub enum RouterObservationScope {
    Summary,
    MessageTrace,
    ChannelState,
}

/// Request: a summary of an engine's message counts.
#[derive(Clone, Debug, PartialEq, Eq)]
pub struct RouterSummaryQuery {
    pub engine: Engine,
}

/// Request: what happened to the message in a slot.
#[derive(Clone, Debug, PartialEq, Eq)]
pub struct RouterMessageTraceQuery {
    pub engine: Engine,
    pub message_slot: MessageSlot,
}

/// Request: the state of a channel.
#[derive(Clone, Debug, PartialEq, Eq)]
pub struct RouterChannelStateQuery {
    pub engine: Engine,
    pub channel: Channel,
}

/// Reply: an engine's message counts.
#[derive(Clone, Debug, PartialEq, Eq)]
pub struct RouterSummary {
    pub engine: Engine,
    pub accepted_messages: AcceptedMessages,
    pub routed_messages: RoutedMessages,
    pub deferred_messages: DeferredMessages,
    pub failed_messages: FailedMessages,
}

/// The closed set of delivery states of a traced message.
#[derive(Clone, Debug, PartialEq, Eq)]
pub enum RouterDeliveryStatus {
    Accepted,
    Routed,
    Delivered,
    Deferred,
    Failed,
    ForwardedRemote,
}

/// Reply: the delivery status of a message slot that is present.
#[derive(Clone, Debug, PartialEq, Eq)]
pub struct RouterMessageTrace {
    pub engine: Engine,
    pub message_slot: MessageSlot,
    pub delivery_status: DeliveryStatus,
}

/// Reply: the traced message slot is not in the store.
#[derive(Clone, Debug, PartialEq, Eq)]
pub struct RouterMessageTraceMissing {
    pub engine: Engine,
    pub message_slot: MessageSlot,
}

/// The closed set of channel states; `Missing` is the positive answer that no channel is
/// bound.
#[derive(Clone, Debug, PartialEq, Eq)]
pub enum RouterChannelStatus {
    Installed,
    Missing,
    Disabled,
}

/// Reply: the state of a channel.
#[derive(Clone, Debug, PartialEq, Eq)]
pub struct RouterChannelState {
    pub engine: Engine,
    pub channel: Channel,
    pub channel_status: ChannelStatus,
}

/// Why an observation is not answered yet.
#[derive(Clone, Debug, PartialEq, Eq)]
pub enum RouterObservationUnimplementedReason {
    NotInPrototypeScope,
    RouterStoreUnavailable,
    MessageTraceUnavailable,
}

/// Reply: the observation is not implemented, and why.
#[derive(Clone, Debug, PartialEq, Eq)]
pub struct RouterObservationUnimplemented {
    pub observation_scope: ObservationScope,
    pub observation_reason: ObservationReason,
}

/// The closed set of signature schemes of a peer attestation.
#[derive(Clone, Debug, PartialEq, Eq)]
pub enum SignatureScheme {
    Bls12_381MinPk,
    Bls12_381MinSig,
}

/// A self-contained attestation of the forwarding peer.
#[derive(Clone, Debug, PartialEq, Eq)]
pub struct RouterPeerAttestation {
    pub signer: Signer,
    pub scheme: Scheme,
    pub public_key: PublicKey,
    pub signature: Signature,
    pub content_digest: ContentDigest,
    pub issued_at: IssuedAt,
    pub nonce: Nonce,
    pub attestation_issued_at: AttestationIssuedAt,
}

/// A payload-blind object of another contract riding inside a forward: its contract,
/// operation, declared size and opaque octets.
#[derive(Clone, Debug, PartialEq, Eq)]
pub struct RoutedContractObject {
    pub contract_name: ContractName,
    pub contract_operation: ContractOperation,
    pub contract_payload_size: ContractPayloadSize,
    pub payload_octets: PayloadOctets,
}

/// The self-contained essentials of a forwarded message.
#[derive(Clone, Debug, PartialEq, Eq)]
pub struct ForwardedMessagePayload {
    pub source_actor: SourceActor,
    pub destination_actor: DestinationActor,
    pub body: Body,
    pub attachments: Attachments,
    pub routed_objects: RoutedObjects,
}

/// The loop guard of a forward: an `Origin` submission may resolve remotely, a
/// `Forwarded` one never again.
#[derive(Clone, Debug, PartialEq, Eq)]
pub enum ForwardMarker {
    Origin,
    Forwarded,
}

/// Request: forward a message to this router from a peer router.
#[derive(Clone, Debug, PartialEq, Eq)]
pub struct RouterForwardRequest {
    pub submission: Submission,
    pub attestation: Attestation,
    pub forward_marker: ForwardMarker,
    pub nonce: Nonce,
    pub issued_at: IssuedAt,
}

/// Reply: the forward was accepted into a delivery slot.
#[derive(Clone, Debug, PartialEq, Eq)]
pub struct RouterForwardAccepted {
    pub message_slot: MessageSlot,
}

/// The closed set of reasons a forward is refused.
#[derive(Clone, Debug, PartialEq, Eq)]
pub enum RouterForwardRefusalReason {
    UnknownPeer,
    AttestationInvalid,
    ReplayDetected,
    ClockSkew,
    RecipientUnknown,
    ChannelUnauthorized,
    AlreadyForwarded,
    MirrorDisabled,
    SessionRequired,
}

/// Reply: the forward was refused. It crosses the wire as its bare reason.
#[derive(Clone, Debug, PartialEq, Eq)]
pub struct RouterForwardRefused {
    pub forward_refusal_reason: ForwardRefusalReason,
}

/// Reply: the routed objects were accepted into a delivery slot.
#[derive(Clone, Debug, PartialEq, Eq)]
pub struct RouterRoutedObjectsAccepted {
    pub message_slot: MessageSlot,
}

/// Reply: the routed objects were refused. It crosses the wire as its bare reason.
#[derive(Clone, Debug, PartialEq, Eq)]
pub struct RouterRoutedObjectsRefused {
    pub forward_refusal_reason: ForwardRefusalReason,
}

/// A router's proof of identity in the session handshake.
#[derive(Clone, Debug, PartialEq, Eq)]
pub struct RouterIdentityProof {
    pub proof_signer: ProofSigner,
    pub proof_scheme: ProofScheme,
    pub proof_public_key: ProofPublicKey,
    pub proof_signature: ProofSignature,
    pub proof_digest: ProofDigest,
    pub proof_challenge_nonce: ProofChallengeNonce,
    pub proof_attestation_issued_at: ProofAttestationIssuedAt,
}

/// Request: the initiator's opening of a peer session.
#[derive(Clone, Debug, PartialEq, Eq)]
pub struct RouterSessionClientHello {
    pub initiator_challenge: InitiatorChallenge,
    pub initiator_ephemeral_key: InitiatorEphemeralKey,
}

/// Reply: the responder's answer to a session opening.
#[derive(Clone, Debug, PartialEq, Eq)]
pub struct RouterSessionServerHello {
    pub responder_challenge: ResponderChallenge,
    pub responder_ephemeral_key: ResponderEphemeralKey,
    pub responder_proof: ResponderProof,
}

/// Request: the initiator's proof of identity.
#[derive(Clone, Debug, PartialEq, Eq)]
pub struct RouterSessionClientProof {
    pub initiator_proof: InitiatorProof,
}

/// Reply: the session was accepted.
#[derive(Clone, Debug, PartialEq, Eq)]
pub struct RouterSessionAccepted {
    pub key_confirmation: KeyConfirmation,
}

/// The closed set of reasons a session is refused.
#[derive(Clone, Debug, PartialEq, Eq)]
pub enum SessionRefusalReason {
    IdentityProofInvalid,
    ChallengeMismatch,
    HandshakeMalformed,
    SessionCipherFailure,
}

/// Reply: the session was refused.
#[derive(Clone, Debug, PartialEq, Eq)]
pub struct RouterSessionRefused {
    pub refusal_reason: RefusalReason,
}

/// Sealed session octets, as request or reply.
#[derive(Clone, Debug, PartialEq, Eq)]
pub struct RouterSessionData {
    pub sealed_octets: SealedOctets,
}

/// The router daemon's configuration record.
#[derive(Clone, Debug, PartialEq, Eq)]
pub struct RouterDaemonConfiguration {
    pub router_socket_path: RouterSocketPath,
    pub router_socket_mode: RouterSocketMode,
    pub meta_router_socket_path: MetaRouterSocketPath,
    pub meta_router_socket_mode: MetaRouterSocketMode,
    pub supervision_socket_path: SupervisionSocketPath,
    pub supervision_socket_mode: SupervisionSocketMode,
    pub store_path: StorePath,
    pub bootstrap_path: BootstrapPath,
    pub owner_identity: OwnerIdentity,
    pub tailnet_listen_address: TailnetListenAddress,
    pub router_identity: RouterIdentity,
    pub criome_socket_path: CriomeSocketPath,
}

/// The request root: one request is one `Query`.
#[derive(Clone, Debug, PartialEq, Eq)]
pub enum Query {
    Summary(RouterSummaryQuery),
    MessageTrace(RouterMessageTraceQuery),
    ChannelState(RouterChannelStateQuery),
    ForwardMessage(RouterForwardRequest),
    SubmitRoutedObjects(ForwardedMessagePayload),
    SessionClientHello(RouterSessionClientHello),
    SessionClientProof(RouterSessionClientProof),
    SessionData(RouterSessionData),
    RegisterActor(Actor),
}

/// The reply root: one reply is one `Response`.
#[derive(Clone, Debug, PartialEq, Eq)]
pub enum Response {
    Summary(RouterSummary),
    MessageTrace(RouterMessageTrace),
    MessageTraceMissing(RouterMessageTraceMissing),
    ChannelState(RouterChannelState),
    ForwardAccepted(RouterForwardAccepted),
    ForwardRefused(RouterForwardRefused),
    Unimplemented(RouterObservationUnimplemented),
    RoutedObjectsAccepted(RouterRoutedObjectsAccepted),
    RoutedObjectsRefused(RouterRoutedObjectsRefused),
    SessionServerHello(RouterSessionServerHello),
    SessionAccepted(RouterSessionAccepted),
    SessionRefused(RouterSessionRefused),
    SessionData(RouterSessionData),
    ActorRegistered(ActorRegistered),
    ActorRegistrationRefused(ActorRegistrationRefused),
}

} // verus!

//! The routing codes of the request and reply roots. A root's route names
//! its head; the route's code is the head's wire ordinal, and a frame route
//! pairs the root's code with it.

use vstd::prelude::*;

use crate::contract::{Query, Response};
use crate::wire::{WireModel, WireShape};

verus! {

/// The route of a request: one per request head, in wire-ordinal order.
#[derive(Clone, Copy, Debug, PartialEq, Eq)]
pub enum InputRoute {
    ChannelState,
    SubmitRoutedObjects,
    ForwardMessage,
    Summary,
    SessionClientProof,
    SessionClientHello,
    SessionData,
    RegisterActor,
    MessageTrace,
}

/// The route of a reply: one per reply head, in wire-ordinal order.
#[derive(Clone, Copy, Debug, PartialEq, Eq)]
pub enum OutputRoute {
    ChannelState,
    MessageTrace,
    SessionData,
    RoutedObjectsRefused,
    Summary,
    ActorRegistrationRefused,
    ForwardRefused,
    MessageTraceMissing,
    RoutedObjectsAccepted,
    SessionRefused,
    ActorRegistered,
    Unimplemented,
    SessionAccepted,
    SessionServerHello,
    ForwardAccepted,
}

/// The code of the request root.
pub const REQUEST_ROOT_CODE: u8 = 0;

/// The code of the reply root.
pub const REPLY_ROOT_CODE: u8 = 1;

/// The route of a frame: the code of its root and the code of its head.
#[derive(Clone, Copy, Debug, PartialEq, Eq)]
pub struct WireRoute {
    pub root: u8,
    pub variant: u8,
}

impl InputRoute {
    /// The route's code: its position among the request heads.
    pub open spec fn spec_code(self) -> u8 {
        match self {
            InputRoute::ChannelState => 0,
            InputRoute::SubmitRoutedObjects => 1,
            InputRoute::ForwardMessage => 2,
            InputRoute::Summary => 3,
            InputRoute::SessionClientProof => 4,
            InputRoute::SessionClientHello => 5,
            InputRoute::SessionData => 6,
            InputRoute::RegisterActor => 7,
            InputRoute::MessageTrace => 8,
        }
    }

    #[verifier::when_used_as_spec(spec_code)]
    pub fn code(self) -> (code: u8)
        ensures
            code == self.spec_code(),
    {
        match self {
            InputRoute::ChannelState => 0,
            InputRoute::SubmitRoutedObjects => 1,
            InputRoute::ForwardMessage => 2,
            InputRoute::Summary => 3,
            InputRoute::SessionClientProof => 4,
            InputRoute::SessionClientHello => 5,
            InputRoute::SessionData => 6,
            InputRoute::RegisterActor => 7,
            InputRoute::MessageTrace => 8,
        }
    }
}

impl OutputRoute {
    /// The route's code: its position among the reply heads.
    pub open spec fn spec_code(self) -> u8 {
        match self {
            OutputRoute::ChannelState => 0,
            OutputRoute::MessageTrace => 1,
            OutputRoute::SessionData => 2,
            OutputRoute::RoutedObjectsRefused => 3,
            OutputRoute::Summary => 4,
            OutputRoute::ActorRegistrationRefused => 5,
            OutputRoute::ForwardRefused => 6,
            OutputRoute::MessageTraceMissing => 7,
            OutputRoute::RoutedObjectsAccepted => 8,
            OutputRoute::SessionRefused => 9,
            OutputRoute::ActorRegistered => 10,
            OutputRoute::Unimplemented => 11,
            OutputRoute::SessionAccepted => 12,
            OutputRoute::SessionServerHello => 13,
            OutputRoute::ForwardAccepted => 14,
        }
    }

    #[verifier::when_used_as_spec(spec_code)]
    pub fn code(self) -> (code: u8)
        ensures
            code == self.spec_code(),
    {
        match self {
            OutputRoute::ChannelState => 0,
            OutputRoute::MessageTrace => 1,
            OutputRoute::SessionData => 2,
            OutputRoute::RoutedObjectsRefused => 3,
            OutputRoute::Summary => 4,
            OutputRoute::ActorRegistrationRefused => 5,
            OutputRoute::ForwardRefused => 6,
            OutputRoute::MessageTraceMissing => 7,
            OutputRoute::RoutedObjectsAccepted => 8,
            OutputRoute::SessionRefused => 9,
            OutputRoute::ActorRegistered => 10,
            OutputRoute::Unimplemented => 11,
            OutputRoute::SessionAccepted => 12,
            OutputRoute::SessionServerHello => 13,
            OutputRoute::ForwardAccepted => 14,
        }
    }
}

impl InputRoute {
    /// The name of the request head this route stands for.
    pub open spec fn spec_head(self) -> Seq<char> {
        match self {
            InputRoute::ChannelState => "ChannelState"@,
            InputRoute::SubmitRoutedObjects => "SubmitRoutedObjects"@,
            InputRoute::ForwardMessage => "ForwardMessage"@,
            InputRoute::Summary => "Summary"@,
            InputRoute::SessionClientProof => "SessionClientProof"@,
            InputRoute::SessionClientHello => "SessionClientHello"@,
            InputRoute::SessionData => "SessionData"@,
            InputRoute::RegisterActor => "RegisterActor"@,
            InputRoute::MessageTrace => "MessageTrace"@,
        }
    }

    /// The name of the request head this route stands for.
    pub fn head(self) -> (head: &'static str)
        ensures
            head@ == self.spec_head(),
    {
        match self {
            InputRoute::ChannelState => "ChannelState",
            InputRoute::SubmitRoutedObjects => "SubmitRoutedObjects",
            InputRoute::ForwardMessage => "ForwardMessage",
            InputRoute::Summary => "Summary",
            InputRoute::SessionClientProof => "SessionClientProof",
            InputRoute::SessionClientHello => "SessionClientHello",
            InputRoute::SessionData => "SessionData",
            InputRoute::RegisterActor => "RegisterActor",
            InputRoute::MessageTrace => "MessageTrace",
        }
    }
}

/// The name of the head a request is written under.
pub open spec fn request_head_name(query: &Query) -> Seq<char> {
    match query {
        Query::ChannelState(_) => "ChannelState"@,
        Query::SubmitRoutedObjects(_) => "SubmitRoutedObjects"@,
        Query::ForwardMessage(_) => "ForwardMessage"@,
        Query::Summary(_) => "Summary"@,
        Query::SessionClientProof(_) => "SessionClientProof"@,
        Query::SessionClientHello(_) => "SessionClientHello"@,
        Query::SessionData(_) => "SessionData"@,
        Query::RegisterActor(_) => "RegisterActor"@,
        Query::MessageTrace(_) => "MessageTrace"@,
    }
}

/// The request head names, in route-code order.
pub open spec fn request_head_table() -> Seq<Seq<char>> {
    seq![
        "ChannelState"@,
        "SubmitRoutedObjects"@,
        "ForwardMessage"@,
        "Summary"@,
        "SessionClientProof"@,
        "SessionClientHello"@,
        "SessionData"@,
        "RegisterActor"@,
        "MessageTrace"@,
    ]
}

/// The request head names, in route-code order.
pub fn request_heads() -> (heads: Vec<&'static str>)
    ensures
        heads.len() == request_head_table().len(),
        forall|i: int| 0 <= i < heads.len() ==> (#[trigger] heads@[i])@ == request_head_table()[i],
{
    let mut heads: Vec<&'static str> = Vec::new();
    heads.push("ChannelState");
    heads.push("SubmitRoutedObjects");
    heads.push("ForwardMessage");
    heads.push("Summary");
    heads.push("SessionClientProof");
    heads.push("SessionClientHello");
    heads.push("SessionData");
    heads.push("RegisterActor");
    heads.push("MessageTrace");
    heads
}

/// The route of each request head.
pub open spec fn input_route_of(query: &Query) -> InputRoute {
    match query {
        Query::ChannelState(_) => InputRoute::ChannelState,
        Query::SubmitRoutedObjects(_) => InputRoute::SubmitRoutedObjects,
        Query::ForwardMessage(_) => InputRoute::ForwardMessage,
        Query::Summary(_) => InputRoute::Summary,
        Query::SessionClientProof(_) => InputRoute::SessionClientProof,
        Query::SessionClientHello(_) => InputRoute::SessionClientHello,
        Query::SessionData(_) => InputRoute::SessionData,
        Query::RegisterActor(_) => InputRoute::RegisterActor,
        Query::MessageTrace(_) => InputRoute::MessageTrace,
    }
}

/// The route of each reply head.
pub open spec fn output_route_of(response: &Response) -> OutputRoute {
    match response {
        Response::ChannelState(_) => OutputRoute::ChannelState,
        Response::MessageTrace(_) => OutputRoute::MessageTrace,
        Response::SessionData(_) => OutputRoute::SessionData,
        Response::RoutedObjectsRefused(_) => OutputRoute::RoutedObjectsRefused,
        Response::Summary(_) => OutputRoute::Summary,
        Response::ActorRegistrationRefused(_) => OutputRoute::ActorRegistrationRefused,
        Response::ForwardRefused(_) => OutputRoute::ForwardRefused,
        Response::MessageTraceMissing(_) => OutputRoute::MessageTraceMissing,
        Response::RoutedObjectsAccepted(_) => OutputRoute::RoutedObjectsAccepted,
        Response::SessionRefused(_) => OutputRoute::SessionRefused,
        Response::ActorRegistered(_) => OutputRoute::ActorRegistered,
        Response::Unimplemented(_) => OutputRoute::Unimplemented,
        Response::SessionAccepted(_) => OutputRoute::SessionAccepted,
        Response::SessionServerHello(_) => OutputRoute::SessionServerHello,
        Response::ForwardAccepted(_) => OutputRoute::ForwardAccepted,
    }
}

/// The number a frame route is logged under: the root code in the low byte
/// and the head code in the byte above it.
pub open spec fn logged_route(route: WireRoute) -> int {
    route.root as u64 + route.variant as u64 * 256
}

impl Query {
    /// The route of this request's head.
    pub fn route(&self) -> (route: InputRoute)
        ensures
            route == input_route_of(self),
    {
        match self {
            Query::ChannelState(_) => InputRoute::ChannelState,
            Query::SubmitRoutedObjects(_) => InputRoute::SubmitRoutedObjects,
            Query::ForwardMessage(_) => InputRoute::ForwardMessage,
            Query::Summary(_) => InputRoute::Summary,
            Query::SessionClientProof(_) => InputRoute::SessionClientProof,
            Query::SessionClientHello(_) => InputRoute::SessionClientHello,
            Query::SessionData(_) => InputRoute::SessionData,
            Query::RegisterActor(_) => InputRoute::RegisterActor,
            Query::MessageTrace(_) => InputRoute::MessageTrace,
        }
    }

    /// The frame route of this request: the request root and its head.
    pub fn wire_route(&self) -> (route: WireRoute)
        ensures
            route == (WireRoute { root: REQUEST_ROOT_CODE, variant: input_route_of(self).spec_code() }),
    {
        WireRoute { root: REQUEST_ROOT_CODE, variant: self.route().code() }
    }

    /// The number this request's frame route is logged under.
    pub fn log_variant(&self) -> (logged: u64)
        ensures
            logged == logged_route(
                WireRoute { root: REQUEST_ROOT_CODE, variant: input_route_of(self).spec_code() },
            ),
    {
        let route = self.wire_route();
        let root = route.root as u64;
        let variant = route.variant as u64;
        let logged = root | (variant << 8u64);
        assert(logged == root + variant * 256) by (bit_vector)
            requires
                root < 256,
                variant < 256,
                logged == root | (variant << 8u64),
        ;
        logged
    }
}

impl Response {
    /// The route of this reply's head.
    pub fn route(&self) -> (route: OutputRoute)
        ensures
            route == output_route_of(self),
    {
        match self {
            Response::ChannelState(_) => OutputRoute::ChannelState,
            Response::MessageTrace(_) => OutputRoute::MessageTrace,
            Response::SessionData(_) => OutputRoute::SessionData,
            Response::RoutedObjectsRefused(_) => OutputRoute::RoutedObjectsRefused,
            Response::Summary(_) => OutputRoute::Summary,
            Response::ActorRegistrationRefused(_) => OutputRoute::ActorRegistrationRefused,
            Response::ForwardRefused(_) => OutputRoute::ForwardRefused,
            Response::MessageTraceMissing(_) => OutputRoute::MessageTraceMissing,
            Response::RoutedObjectsAccepted(_) => OutputRoute::RoutedObjectsAccepted,
            Response::SessionRefused(_) => OutputRoute::SessionRefused,
            Response::ActorRegistered(_) => OutputRoute::ActorRegistered,
            Response::Unimplemented(_) => OutputRoute::Unimplemented,
            Response::SessionAccepted(_) => OutputRoute::SessionAccepted,
            Response::SessionServerHello(_) => OutputRoute::SessionServerHello,
            Response::ForwardAccepted(_) => OutputRoute::ForwardAccepted,
        }
    }

    /// The frame route of this reply: the reply root and its head.
    pub fn wire_route(&self) -> (route: WireRoute)
        ensures
            route == (WireRoute { root: REPLY_ROOT_CODE, variant: output_route_of(self).spec_code() }),
    {
        WireRoute { root: REPLY_ROOT_CODE, variant: self.route().code() }
    }
}

/// A request's route code is the wire ordinal its head is projected under.
pub proof fn law_request_route_is_wire_ordinal(query: Query)
    ensures
        query.wire_model() matches WireModel::Variant { ordinal, fields }
            && ordinal == input_route_of(&query).spec_code() as u16,
{
}

/// A reply's route code is the wire ordinal its head is projected under.
pub proof fn law_reply_route_is_wire_ordinal(response: Response)
    ensures
        response.wire_model() matches WireModel::Variant { ordinal, fields }
            && ordinal == output_route_of(&response).spec_code() as u16,
{
}

/// Distinct request routes have distinct codes, and distinct reply routes
/// have distinct codes.
pub proof fn law_route_codes_are_distinct(a: InputRoute, b: InputRoute, c: OutputRoute, d: OutputRoute)
    ensures
        a.spec_code() == b.spec_code() ==> a == b,
        c.spec_code() == d.spec_code() ==> c == d,
        a.spec_code() < 9,
        c.spec_code() < 15,
{
}

/// The head name at a request's route code in the head table is the name of
/// the request's own head, and is the name its route stands for.
pub proof fn law_head_table_names_the_request(query: Query)
    ensures
        input_route_of(&query).spec_code() < request_head_table().len(),
        request_head_table()[input_route_of(&query).spec_code() as int] == request_head_name(&query),
        input_route_of(&query).spec_head() == request_head_name(&query),
{
}

} // verus!

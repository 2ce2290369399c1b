//! The frame boundary of the contract: a request frame carries its request
//! operations under the request root's route, a reply frame a committed reply
//! under the reply root's route, and a frame that is read as a request must
//! carry exactly one request operation.
//!
//! A frame is plain data here: a route and a body, with the request
//! operations of a request body held in a `NonEmpty` sequence and a reply
//! body holding a committed `ReplyEnvelope` of answers. This module builds
//! the request and reply frames of a value and decides what a received frame
//! means (`decode_single_request`). It does not turn frames into bytes or
//! bytes into frames, and it has no text form of a frame; the wire value of
//! each contract value is in `crate::wire`, and the request head names are in
//! `crate::routes::request_heads`.

use vstd::prelude::*;

use crate::contract::{Query, Response};
use crate::routes::{input_route_of, output_route_of, WireRoute, REPLY_ROOT_CODE, REQUEST_ROOT_CODE};

verus! {

/// The marker of this contract at the frame boundary.
pub struct ContractMarker;

/// The identifier this contract is allocated at the frame boundary.
pub const CONTRACT_ID: u16 = 7;

/// The revision of this contract's wire.
pub const WIRE_REVISION: u16 = 2;

/// Why a frame could not be made or read.
#[derive(Clone, Debug, PartialEq, Eq)]
pub enum SignalFrameError {
    FrameEncode,
    ArchiveDecode,
    UnexpectedFrameBody,
    OperationCount { found: usize },
}

/// A sequence of at least one item.
pub struct NonEmpty<T> {
    items: Vec<T>,
}

impl<T> NonEmpty<T> {
    #[verifier::type_invariant]
    spec fn holds_an_item(self) -> bool {
        self.items.len() >= 1
    }

    /// The items, in order.
    pub closed spec fn items(self) -> Seq<T> {
        self.items@
    }

    /// The sequence of the one item given.
    pub fn single(item: T) -> (one: Self)
        ensures
            one.items() == seq![item],
    {
        NonEmpty { items: vec![item] }
    }

    /// The sequence of the items given, if there is at least one.
    pub fn from_vec(items: Vec<T>) -> (made: Option<Self>)
        ensures
            made is Some <==> items.len() >= 1,
            made matches Some(m) ==> m.items() == items@,
    {
        if items.len() == 0 {
            None
        } else {
            Some(NonEmpty { items })
        }
    }

    /// The number of items; never zero.
    pub fn len(&self) -> (n: usize)
        ensures
            n == self.items().len(),
            n >= 1,
    {
        proof {
            use_type_invariant(self);
        }
        self.items.len()
    }

    /// The first item.
    pub fn into_head(self) -> (head: T)
        ensures
            head == self.items()[0],
    {
        proof {
            use_type_invariant(&self);
        }
        let mut items = self.items;
        items.remove(0)
    }

    /// The items, in order, as a vector.
    pub fn into_vec(self) -> (items: Vec<T>)
        ensures
            items@ == self.items(),
            items.len() >= 1,
    {
        proof {
            use_type_invariant(&self);
        }
        self.items
    }
}

/// The answer to one request operation: the operation succeeded, with this
/// reply.
pub enum SubReply {
    Answered(Response),
}

/// A reply: whether it is committed, and the answer to each request
/// operation.
pub struct ReplyEnvelope {
    pub committed: bool,
    pub sub_replies: NonEmpty<SubReply>,
}

/// What a frame carries, correlated by its exchange identifier.
pub enum FrameBody<Exchange> {
    Request { exchange: Exchange, payloads: NonEmpty<Query> },
    Reply { exchange: Exchange, reply: ReplyEnvelope },
}

/// A frame: its route and its body.
pub struct Frame<Exchange> {
    pub route: WireRoute,
    pub body: FrameBody<Exchange>,
}

/// What reading a single request out of a frame yields.
pub open spec fn single_request_of<Exchange>(frame: Frame<Exchange>) -> Result<(Exchange, Query), SignalFrameError> {
    match frame.body {
        FrameBody::Request { exchange, payloads } => if payloads.items().len() == 1 {
            Ok((exchange, payloads.items()[0]))
        } else {
            Err(SignalFrameError::OperationCount { found: payloads.items().len() as usize })
        },
        FrameBody::Reply { .. } => Err(SignalFrameError::UnexpectedFrameBody),
    }
}

impl Query {
    /// The frame that carries this request, alone, in the given exchange.
    pub fn into_frame<Exchange>(self, exchange: Exchange) -> (frame: Frame<Exchange>)
        ensures
            frame.route == (WireRoute { root: REQUEST_ROOT_CODE, variant: input_route_of(&self).spec_code() }),
            frame.body matches FrameBody::Request { exchange: e, payloads }
                && e == exchange && payloads.items() == seq![self],
    {
        let route = self.wire_route();
        Frame { route, body: FrameBody::Request { exchange, payloads: NonEmpty::single(self) } }
    }
}

impl Response {
    /// The frame that carries this reply, committed, as the one answer to the
    /// request of the given exchange.
    pub fn into_reply_frame<Exchange>(self, exchange: Exchange) -> (frame: Frame<Exchange>)
        ensures
            frame.route == (WireRoute { root: REPLY_ROOT_CODE, variant: output_route_of(&self).spec_code() }),
            frame.body matches FrameBody::Reply { exchange: e, reply }
                && e == exchange && reply.committed
                && reply.sub_replies.items() == seq![SubReply::Answered(self)],
    {
        let route = self.wire_route();
        let reply = ReplyEnvelope { committed: true, sub_replies: NonEmpty::single(SubReply::Answered(self)) };
        Frame { route, body: FrameBody::Reply { exchange, reply } }
    }
}

impl ContractMarker {
    /// The single request a received frame carries, with its exchange. A
    /// reply frame is refused, and so is a request frame that carries more
    /// than one request operation.
    pub fn decode_single_request<Exchange>(frame: Frame<Exchange>) -> (decoded: Result<(Exchange, Query), SignalFrameError>)
        ensures
            decoded == single_request_of(frame),
    {
        match frame.body {
            FrameBody::Request { exchange, payloads } => {
                let found = payloads.len();
                if found != 1 {
                    return Err(SignalFrameError::OperationCount { found });
                }
                Ok((exchange, payloads.into_head()))
            },
            FrameBody::Reply { .. } => Err(SignalFrameError::UnexpectedFrameBody),
        }
    }
}

/// A request framed alone reads back as the same request in the same
/// exchange.
pub proof fn law_framed_request_reads_back<Exchange>(query: Query, exchange: Exchange, frame: Frame<Exchange>)
    requires
        frame.body matches FrameBody::Request { exchange: e, payloads }
            && e == exchange && payloads.items() == seq![query],
    ensures
        single_request_of(frame) == Ok::<(Exchange, Query), SignalFrameError>((exchange, query)),
{
}

/// A reply frame never reads as a request.
pub proof fn law_reply_frame_is_no_request<Exchange>(frame: Frame<Exchange>)
    requires
        frame.body is Reply,
    ensures
        single_request_of(frame) == Err::<(Exchange, Query), SignalFrameError>(SignalFrameError::UnexpectedFrameBody),
{
}

} // verus!

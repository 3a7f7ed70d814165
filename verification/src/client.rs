//! The client half: submits requests, refuses a second request for a URI
//! that is in flight, and surfaces the responses that have arrived.

use crate::channel::clone_receiver;
use crate::channel::clone_sender;
use crate::channel::receive_ready;
use crate::channel::try_send;
use crate::envelope::Body;
use crate::envelope::Param;
use crate::error::ChannelError;
use crate::inflight::cleaned;
use crate::inflight::delivered_all;
use crate::inflight::distinct_uris;
use crate::inflight::entered;
use crate::inflight::peek;
use crate::inflight::tracks;
use crate::inflight::InFlight;
use crate::request::Request;
use crate::response::Response;
use crate::response::ResponseView;
use crate::topic::accepted_all;
use crate::topic::of_other_topics;
use crate::topic::of_topic;
use crate::topic::subscribed;
use crate::topic::Topics;
use crate::topic::TopicsView;
use crossbeam::channel::Receiver;
use crossbeam::channel::Sender;
use vstd::prelude::*;

verus! {

/// What submitting a request does to the table, and which result it may
/// give when the channel takes the request (`sent`) or not.
pub open spec fn submitted(
    table: Seq<ResponseView>,
    uri: Seq<char>,
    sent: bool,
    after: Seq<ResponseView>,
    result: Result<(), ChannelError>,
) -> bool {
    if tracks(table, uri) {
        after == table && result is Err && result->Err_0 == ChannelError::ReqExistInQueue
    } else {
        after == entered(table, uri) && if sent {
            result is Ok
        } else {
            result is Err && result->Err_0 == ChannelError::ReqSendError
        }
    }
}

/// The views of a sequence of responses.
pub open spec fn views(responses: Seq<Response>) -> Seq<ResponseView> {
    responses.map_values(|r: Response| r@)
}

/// What asking for a topic gives when `payloads` have arrived on the topic
/// channel: the payloads are taken in, those of the topic are handed out
/// in order of arrival and those of all other topics are kept until their
/// topic is asked for.
pub open spec fn fetched(
    topics: TopicsView,
    uri: Seq<char>,
    payloads: Seq<ResponseView>,
    out: Seq<ResponseView>,
    after: TopicsView,
) -> bool {
    let arrived = accepted_all(topics, payloads);
    &&& out == of_topic(arrived.buffer, uri)
    &&& after.buffer == of_other_topics(arrived.buffer, uri)
    &&& after.subjects == arrived.subjects
}

/// The result of a submission that passed the table, for each outcome of
/// the hand-over to the channel.
pub fn sent_or_failed(sent: bool) -> (r: Result<(), ChannelError>)
    ensures
        sent ==> r is Ok,
        !sent ==> r is Err && r->Err_0 == ChannelError::ReqSendError,
{
    if sent {
        Ok(())
    } else {
        Err(ChannelError::ReqSendError)
    }
}

/// The caller's handle on the broker.
pub struct ChannelClient {
    tx: Sender<Request>,
    rx: Receiver<Response>,
    topic_rx: Option<Receiver<Response>>,
    res_queue: InFlight,
    topics: Topics,
}

impl ChannelClient {
    /// The table of requests in flight.
    pub closed spec fn table(&self) -> Seq<ResponseView> {
        self.res_queue@
    }

    /// The topics subscribed to and the payloads kept for them.
    pub closed spec fn topics(&self) -> TopicsView {
        self.topics@
    }

    /// The end on which the client sends requests.
    pub closed spec fn requests(&self) -> Sender<Request> {
        self.tx
    }

    /// The end on which the client receives responses.
    pub closed spec fn responses(&self) -> Receiver<Response> {
        self.rx
    }

    /// The end on which the client receives published payloads, where it
    /// has one.
    pub closed spec fn topic_feed(&self) -> Option<Receiver<Response>> {
        self.topic_rx
    }

    /// A client that sends requests on `tx` and receives responses on `rx`.
    /// It has no request in flight, no subscription and no feed of topics.
    pub fn new(tx: Sender<Request>, rx: Receiver<Response>) -> (c: ChannelClient)
        ensures
            c.requests() == tx,
            c.responses() == rx,
            c.topic_feed() is None,
            c.table() == Seq::<ResponseView>::empty(),
            c.topics().subjects == Set::<Seq<char>>::empty(),
            c.topics().buffer == Seq::<ResponseView>::empty(),
    {
        ChannelClient { tx, rx, topic_rx: None, res_queue: InFlight::new(), topics: Topics::new() }
    }

    /// The same client, receiving published payloads on `topic_rx`.
    pub fn with_topics(self, topic_rx: Receiver<Response>) -> (c: ChannelClient)
        ensures
            c.topic_feed() == Some(topic_rx),
            c.requests() == self.requests(),
            c.responses() == self.responses(),
            c.table() == self.table(),
            c.topics() == self.topics(),
    {
        ChannelClient {
            tx: self.tx,
            rx: self.rx,
            topic_rx: Some(topic_rx),
            res_queue: self.res_queue,
            topics: self.topics,
        }
    }

    /// Another handle on the same channels, with a copy of the table and
    /// of the topics as they stand. The two share the channels: what
    /// arrives is taken in by the one that polls first.
    pub fn duplicate(&self) -> (c: ChannelClient)
        ensures
            c.requests() == self.requests(),
            c.responses() == self.responses(),
            c.topic_feed() == self.topic_feed(),
            c.table() == self.table(),
            c.topics() == self.topics(),
    {
        let topic_rx = match &self.topic_rx {
            Some(rx) => Some(clone_receiver(rx)),
            None => None,
        };
        ChannelClient {
            tx: clone_sender(&self.tx),
            rx: clone_receiver(&self.rx),
            topic_rx,
            res_queue: self.res_queue.duplicate(),
            topics: self.topics.duplicate(),
        }
    }

    /// Submits a request with a parameter and no body.
    pub fn req_with_param(&mut self, uri: String, param: Param) -> (r: Result<(), ChannelError>)
        ensures
            final(self).topics() == old(self).topics(),
            exists|sent: bool| submitted(old(self).table(), uri@, sent, final(self).table(), r),
    {
        let req = Request::new(uri, param, Body::empty());
        self.req(req)
    }

    /// Submits a request with a body and no parameter.
    pub fn req_with_body(&mut self, uri: String, body: Body) -> (r: Result<(), ChannelError>)
        ensures
            final(self).topics() == old(self).topics(),
            exists|sent: bool| submitted(old(self).table(), uri@, sent, final(self).table(), r),
    {
        let req = Request::new(uri, Param::empty(), body);
        self.req(req)
    }

    /// Submits a request with a parameter and a body.
    pub fn req_with_param_body(&mut self, uri: String, param: Param, body: Body) -> (r: Result<
        (),
        ChannelError,
    >)
        ensures
            final(self).topics() == old(self).topics(),
            exists|sent: bool| submitted(old(self).table(), uri@, sent, final(self).table(), r),
    {
        let req = Request::new(uri, param, body);
        self.req(req)
    }

    /// Submits a request. While an entry for its URI is in the table the
    /// request is refused with `ReqExistInQueue` and nothing changes.
    /// Otherwise a placeholder is entered and the request is handed to the
    /// channel without waiting; where the channel is full or closed the
    /// result is `ReqSendError`, and the placeholder stays until it is
    /// cleaned.
    pub fn req(&mut self, req: Request) -> (r: Result<(), ChannelError>)
        ensures
            final(self).topics() == old(self).topics(),
            exists|sent: bool| submitted(old(self).table(), req@.uri, sent, final(self).table(), r),
    {
        match self.res_queue.enter(req.uri_ref()) {
            Err(e) => {
                assert(submitted(old(self).table(), req@.uri, true, self.table(), Err(e)));
                Err(e)
            },
            Ok(()) => {
                let sent = try_send(&self.tx, req).is_ok();
                let r = sent_or_failed(sent);
                assert(submitted(old(self).table(), req@.uri, sent, self.table(), r));
                r
            },
        }
    }

    /// Takes in the responses that have arrived, without waiting: each
    /// stands in the place of the entry for its URI, and one for a URI
    /// that is not in the table is dropped. Returns whether any response
    /// arrived.
    pub fn run_once(&mut self) -> (received: bool)
        ensures
            final(self).topics() == old(self).topics(),
            exists|responses: Seq<ResponseView>|
                {
                    &&& final(self).table() == delivered_all(old(self).table(), responses)
                    &&& received == (responses.len() > 0)
                },
    {
        let batch = receive_ready(&self.rx);
        let ghost responses = batch@.map_values(|r: Response| r@);
        let received = self.res_queue.deliver_all(batch);
        assert(self.table() == delivered_all(old(self).table(), responses));
        received
    }

    /// As `run_once`, and shows the entry that was entered last.
    pub fn poll_once(&mut self) -> (r: Option<&Response>)
        ensures
            final(self).topics() == old(self).topics(),
            exists|responses: Seq<ResponseView>|
                final(self).table() == delivered_all(old(self).table(), responses),
            r is Some == (final(self).table().len() > 0),
            r is Some ==> r->0@ == final(self).table().last(),
    {
        let _ = self.run_once();
        self.res_queue.last()
    }

    /// The entry for the URI, left in place: a look changes nothing, so
    /// it shows the same until a response arrives or the entry is cleaned.
    pub fn search(&self, uri: &str) -> (r: Option<&Response>)
        ensures
            distinct_uris(self.table()),
            r is Some == peek(self.table(), uri@) is Some,
            r is Some ==> r->0@ == peek(self.table(), uri@)->0,
    {
        self.res_queue.peek(uri)
    }

    /// As `search`.
    pub fn fetch(&self, uri: &str) -> (r: Option<&Response>)
        ensures
            distinct_uris(self.table()),
            r is Some == peek(self.table(), uri@) is Some,
            r is Some ==> r->0@ == peek(self.table(), uri@)->0,
    {
        self.res_queue.peek(uri)
    }

    /// Removes the entry for the URI and hands it out.
    pub fn take(&mut self, uri: &str) -> (r: Option<Response>)
        ensures
            final(self).topics() == old(self).topics(),
            final(self).table() == cleaned(old(self).table(), uri@),
            !tracks(final(self).table(), uri@),
            r is Some == peek(old(self).table(), uri@) is Some,
            r is Some ==> r->0@ == peek(old(self).table(), uri@)->0,
    {
        self.res_queue.take(uri)
    }

    /// Removes the entry for the URI: the only way for the URI to be
    /// requested again.
    pub fn clean(&mut self, uri: &str)
        ensures
            final(self).topics() == old(self).topics(),
            final(self).table() == cleaned(old(self).table(), uri@),
            !tracks(final(self).table(), uri@),
    {
        self.res_queue.clean(uri)
    }

    /// Subscribes to a topic: records the interest in it. Payloads are
    /// kept until their topic is fetched, whether or not the topic was
    /// subscribed to when they arrived.
    pub fn subject(&mut self, uri: &str)
        ensures
            final(self).table() == old(self).table(),
            final(self).topics() == subscribed(old(self).topics(), uri@),
    {
        self.topics.subject(uri)
    }

    /// Hands out the payloads published to the topic and not yet handed
    /// out, in the order they were published. What has arrived on the
    /// topic channel is taken in first; payloads of other topics are kept
    /// until their topic is asked for. A second call finds none unless
    /// more have arrived.
    pub fn fetch_topic(&mut self, uri: &str) -> (out: Vec<Response>)
        ensures
            final(self).table() == old(self).table(),
            exists|payloads: Seq<ResponseView>| #[trigger]
                fetched(old(self).topics(), uri@, payloads, views(out@), final(self).topics()),
    {
        let published = match &self.topic_rx {
            Some(rx) => receive_ready(rx),
            None => Vec::new(),
        };
        let ghost payloads = published@.map_values(|r: Response| r@);
        self.topics.accept_all(published);
        let ghost arrived = self.topics();
        let out = self.topics.fetch(uri);
        proof {
            assert(arrived == accepted_all(old(self).topics(), payloads));
            assert(fetched(old(self).topics(), uri@, payloads, views(out@), self.topics()));
        }
        out
    }
}

impl Clone for ChannelClient {
    fn clone(&self) -> (c: ChannelClient)
        ensures
            c.requests() == self.requests(),
            c.responses() == self.responses(),
            c.topic_feed() == self.topic_feed(),
            c.table() == self.table(),
            c.topics() == self.topics(),
    {
        self.duplicate()
    }
}

} // verus!

//! The broker half: answers each request it is handed and sends the
//! response back.

use crate::channel::bounded_channel;
use crate::channel::clone_sender;
use crate::channel::try_send;
use crate::client::ChannelClient;
use crate::endpoint::settles;
use crate::endpoint::Endpoint;
use crate::error::ChannelError;
use crate::request::Request;
use crate::response::Response;
use crate::response::ResponseView;
use crate::topic::TopicPublisher;
use crossbeam::channel::Receiver;
use crossbeam::channel::Sender;
use vstd::prelude::*;

verus! {

/// Capacity of each channel between the client and the broker.
pub const CHANNEL_CAPACITY: usize = 100;

/// The broker's ends of the channels.
pub struct ChannelServer {
    rx: Receiver<Request>,
    tx: Sender<Response>,
}

impl ChannelServer {
    /// The end on which the broker receives requests.
    pub closed spec fn requests(&self) -> Receiver<Request> {
        self.rx
    }

    /// The end on which the broker sends responses.
    pub closed spec fn responses(&self) -> Sender<Response> {
        self.tx
    }

    /// A broker that receives requests on `req_rx` and sends responses on
    /// `res_tx`.
    pub fn new(req_rx: Receiver<Request>, res_tx: Sender<Response>) -> (s: ChannelServer)
        ensures
            s.requests() == req_rx,
            s.responses() == res_tx,
    {
        ChannelServer { rx: req_rx, tx: res_tx }
    }

    /// The end on which requests arrive, for the loop that waits on it.
    pub fn receiver(&self) -> (rx: &Receiver<Request>)
        ensures
            *rx == self.requests(),
    {
        &self.rx
    }

    /// A handle on the end on which responses leave, for a worker.
    pub fn sender(&self) -> (tx: Sender<Response>)
        ensures
            tx == self.responses(),
    {
        clone_sender(&self.tx)
    }

    /// The work done for one request: the endpoint answers it, and the
    /// response is handed to the channel without waiting. Every request
    /// gives one response, made whatever the channel then does: the
    /// endpoint's outcome settled for the request, carrying its URI.
    /// Delivery is best effort and never retried: where the channel is
    /// full or closed that response comes back as the error, for the
    /// caller to count or log before it is dropped.
    pub fn respond<E: Endpoint>(tx: &Sender<Response>, ep: &E, req: Request) -> (delivered: Result<
        (),
        Response,
    >)
        ensures
            exists|out: Result<E::Output, ChannelError>, made: ResponseView|
                #[trigger] ep.answers(req@, out) && #[trigger] settles(req@.uri, out, made) && (
                delivered is Err ==> delivered->Err_0@ == made),
    {
        let res = ep.get_response(req);
        let ghost made = res@;
        let delivered = try_send(tx, res);
        proof {
            let out = choose|out: Result<E::Output, ChannelError>| #[trigger]
                ep.answers(req@, out) && settles(req@.uri, out, made);
            assert(ep.answers(req@, out) && settles(req@.uri, out, made));
        }
        delivered
    }
}

/// The two halves of a broker, wired to each other.
pub struct ChannelService {
    client: ChannelClient,
    server: ChannelServer,
    publisher: TopicPublisher,
}

impl ChannelService {
    /// The client half.
    pub closed spec fn client(&self) -> ChannelClient {
        self.client
    }

    /// The broker half.
    pub closed spec fn server(&self) -> ChannelServer {
        self.server
    }

    /// The publisher of topics.
    pub closed spec fn publisher(&self) -> TopicPublisher {
        self.publisher
    }

    /// A client and a broker connected by a request channel, a response
    /// channel and a topic channel, each made to hold `CHANNEL_CAPACITY`
    /// messages. The client starts with no request in flight, no
    /// subscription and a feed of topics.
    pub fn new() -> (s: ChannelService)
        ensures
            s.client().table() == Seq::<ResponseView>::empty(),
            s.client().topics().subjects == Set::<Seq<char>>::empty(),
            s.client().topics().buffer == Seq::<ResponseView>::empty(),
            s.client().topic_feed() is Some,
    {
        let (req_tx, req_rx) = bounded_channel::<Request>(CHANNEL_CAPACITY);
        let (res_tx, res_rx) = bounded_channel::<Response>(CHANNEL_CAPACITY);
        let (topic_tx, topic_rx) = bounded_channel::<Response>(CHANNEL_CAPACITY);
        let client = ChannelClient::new(req_tx, res_rx).with_topics(topic_rx);
        let server = ChannelServer::new(req_rx, res_tx);
        ChannelService { client, server, publisher: TopicPublisher::new(topic_tx) }
    }

    /// Parts the service into its client and its broker. The publisher of
    /// topics is given up.
    pub fn split(self) -> (halves: (ChannelClient, ChannelServer))
        ensures
            halves.0 == self.client(),
            halves.1 == self.server(),
    {
        (self.client, self.server)
    }

    /// Parts the service into its client, its broker and the publisher of
    /// topics.
    pub fn split_with_topics(self) -> (parts: (ChannelClient, ChannelServer, TopicPublisher))
        ensures
            parts.0 == self.client(),
            parts.1 == self.server(),
            parts.2 == self.publisher(),
    {
        (self.client, self.server, self.publisher)
    }
}

} // verus!

//! Topics: payloads published outside the request/response cycle, kept
//! by the subscriber until their topic is fetched.

use crate::channel::clone_sender;
use crate::channel::try_send;
use crate::extensions::TypeTag;
use crate::order::reversed;
use crate::response::duplicate_all;
use crate::response::Response;
use crate::response::ResponseView;
use crate::text::str_eq;
use crossbeam::channel::Sender;
use vstd::prelude::*;

verus! {

/// Mathematical model of a subscriber's topics.
pub struct TopicsView {
    /// The topics subscribed to.
    pub subjects: Set<Seq<char>>,
    /// The payloads received and not yet fetched, in order of arrival.
    pub buffer: Seq<ResponseView>,
}

/// The state after a subscription to the topic.
pub open spec fn subscribed(topics: TopicsView, uri: Seq<char>) -> TopicsView {
    TopicsView { subjects: topics.subjects.insert(uri), ..topics }
}

/// The state after a payload arrives: it is kept, behind those that
/// arrived before, until its topic is fetched.
pub open spec fn accepted(topics: TopicsView, res: ResponseView) -> TopicsView {
    TopicsView { buffer: topics.buffer.push(res), ..topics }
}

/// The state after a batch of payloads arrives, first to last.
pub open spec fn accepted_all(topics: TopicsView, batch: Seq<ResponseView>) -> TopicsView
    decreases batch.len(),
{
    if batch.len() == 0 {
        topics
    } else {
        accepted(accepted_all(topics, batch.drop_last()), batch.last())
    }
}

/// The payloads of one topic among those kept, in order of arrival.
pub open spec fn of_topic(buffer: Seq<ResponseView>, uri: Seq<char>) -> Seq<ResponseView> {
    buffer.filter(|r: ResponseView| r.uri == uri)
}

/// The payloads of all other topics, in order of arrival.
pub open spec fn of_other_topics(buffer: Seq<ResponseView>, uri: Seq<char>) -> Seq<ResponseView> {
    buffer.filter(|r: ResponseView| r.uri != uri)
}

/// The payloads a subscriber has received and not yet fetched.
pub struct Topics {
    subjects: Vec<String>,
    buffer: Vec<Response>,
}

impl View for Topics {
    type V = TopicsView;

    closed spec fn view(&self) -> TopicsView {
        TopicsView {
            subjects: self.subjects@.map_values(|s: String| s@).to_set(),
            buffer: self.buffer@.map_values(|r: Response| r@),
        }
    }
}

impl Topics {
    /// No subscription, nothing received.
    pub fn new() -> (t: Topics)
        ensures
            t@.subjects == Set::<Seq<char>>::empty(),
            t@.buffer == Seq::<ResponseView>::empty(),
    {
        let t = Topics { subjects: Vec::new(), buffer: Vec::new() };
        assert(t@.subjects =~= Set::<Seq<char>>::empty());
        assert(t@.buffer =~= Seq::<ResponseView>::empty());
        t
    }

    /// The same subscriptions, and copies of the payloads kept.
    pub fn duplicate(&self) -> (t: Topics)
        ensures
            t@ == self@,
    {
        let mut subjects: Vec<String> = Vec::new();
        let mut i: usize = 0;
        while i < self.subjects.len()
            invariant
                i <= self.subjects@.len(),
                subjects@.len() == i,
                forall|k: int| 0 <= k < i ==> #[trigger] subjects@[k] == self.subjects@[k],
            decreases self.subjects@.len() - i,
        {
            subjects.push(self.subjects[i].clone());
            i += 1;
        }
        assert(subjects@ =~= self.subjects@);
        Topics { subjects, buffer: duplicate_all(&self.buffer) }
    }

    /// Whether the topic is subscribed to.
    pub fn is_subject(&self, uri: &str) -> (b: bool)
        ensures
            b == self@.subjects.contains(uri@),
    {
        let ghost names = self.subjects@.map_values(|s: String| s@);
        let mut i: usize = 0;
        while i < self.subjects.len()
            invariant
                i <= self.subjects@.len(),
                names == self.subjects@.map_values(|s: String| s@),
                forall|k: int| 0 <= k < i ==> #[trigger] names[k] != uri@,
            decreases self.subjects@.len() - i,
        {
            if str_eq(self.subjects[i].as_str(), uri) {
                assert(names[i as int] == uri@);
                return true;
            }
            i += 1;
        }
        false
    }

    /// Subscribes to the topic; a second subscription changes nothing.
    pub fn subject(&mut self, uri: &str)
        ensures
            final(self)@ == subscribed(old(self)@, uri@),
    {
        if !self.is_subject(uri) {
            let ghost before = self.subjects@.map_values(|s: String| s@);
            self.subjects.push(uri.to_owned());
            proof {
                let after = self.subjects@.map_values(|s: String| s@);
                assert(after =~= before.push(uri@));
                assert(after.to_set() =~= before.to_set().insert(uri@)) by {
                    assert forall|x: Seq<char>| after.to_set().contains(x) == before.to_set().insert(
                        uri@,
                    ).contains(x) by {
                        if after.contains(x) {
                            let i = choose|i: int| 0 <= i < after.len() && after[i] == x;
                            if i < before.len() {
                                assert(before[i] == x);
                            }
                        }
                        if before.contains(x) {
                            let i = choose|i: int| 0 <= i < before.len() && before[i] == x;
                            assert(after[i] == x);
                        }
                        if x == uri@ {
                            assert(after[before.len() as int] == x);
                        }
                    }
                }
            }
        } else {
            assert(self@.subjects =~= self@.subjects.insert(uri@));
        }
    }

    /// Takes a published payload in: it is kept until its topic is
    /// fetched. Returns whether its topic is subscribed to.
    pub fn accept(&mut self, res: Response) -> (wanted: bool)
        ensures
            wanted == old(self)@.subjects.contains(res@.uri),
            final(self)@ == accepted(old(self)@, res@),
    {
        let wanted = self.is_subject(res.uri_ref().as_str());
        let ghost before = self.buffer@.map_values(|r: Response| r@);
        self.buffer.push(res);
        assert(self.buffer@.map_values(|r: Response| r@) =~= before.push(res@));
        wanted
    }

    /// Takes a batch of published payloads in, first to last. Returns
    /// whether the batch held any payload.
    pub fn accept_all(&mut self, batch: Vec<Response>) -> (received: bool)
        ensures
            received == (batch@.len() > 0),
            final(self)@ == accepted_all(old(self)@, batch@.map_values(|r: Response| r@)),
    {
        let ghost all = batch@.map_values(|r: Response| r@);
        let received = batch.len() > 0;
        let mut rest = reversed(batch);
        let ghost start = self@;
        let ghost mut done: int = 0;
        assert(all.take(0) =~= Seq::<ResponseView>::empty());
        while rest.len() > 0
            invariant
                0 <= done,
                done + rest@.len() == all.len(),
                forall|k: int|
                    0 <= k < rest@.len() ==> (#[trigger] rest@[k])@ == all[all.len() - 1 - k],
                self@ == accepted_all(start, all.take(done)),
            decreases rest@.len(),
        {
            let r = rest.pop().unwrap();
            proof {
                assert(r@ == all[done]);
                let next = all.take(done + 1);
                assert(next.drop_last() =~= all.take(done));
                assert(next.last() == all[done]);
            }
            self.accept(r);
            proof {
                done = done + 1;
            }
        }
        assert(all.take(done) =~= all);
        received
    }

    /// Hands out the payloads kept for the topic, in order of arrival, and
    /// keeps those of the other topics.
    pub fn fetch(&mut self, uri: &str) -> (out: Vec<Response>)
        ensures
            out@.map_values(|r: Response| r@) == of_topic(old(self)@.buffer, uri@),
            final(self)@.buffer == of_other_topics(old(self)@.buffer, uri@),
            final(self)@.subjects == old(self)@.subjects,
    {
        let ghost all = self.buffer@.map_values(|r: Response| r@);
        let mut taken: Vec<Response> = Vec::new();
        std::mem::swap(&mut self.buffer, &mut taken);
        let mut rest = reversed(taken);
        let mut out: Vec<Response> = Vec::new();
        let mut keep: Vec<Response> = Vec::new();
        let ghost mut done: int = 0;
        proof {
            reveal(Seq::filter);
            assert(all.take(0) =~= Seq::<ResponseView>::empty());
            assert(keep@.map_values(|r: Response| r@) =~= Seq::<ResponseView>::empty());
            assert(out@.map_values(|r: Response| r@) =~= Seq::<ResponseView>::empty());
        }
        while rest.len() > 0
            invariant
                0 <= done,
                done + rest@.len() == all.len(),
                forall|k: int|
                    0 <= k < rest@.len() ==> (#[trigger] rest@[k])@ == all[all.len() - 1 - k],
                out@.map_values(|r: Response| r@) == of_topic(all.take(done), uri@),
                keep@.map_values(|r: Response| r@) == of_other_topics(all.take(done), uri@),
            decreases rest@.len(),
        {
            let r = rest.pop().unwrap();
            let ghost out_before = out@.map_values(|r: Response| r@);
            let ghost keep_before = keep@.map_values(|r: Response| r@);
            proof {
                reveal(Seq::filter);
                assert(r@ == all[done]);
                let next = all.take(done + 1);
                assert(next.drop_last() =~= all.take(done));
                assert(next.last() == all[done]);
            }
            if str_eq(r.uri_ref().as_str(), uri) {
                out.push(r);
                assert(out@.map_values(|r: Response| r@) =~= out_before.push(r@));
            } else {
                keep.push(r);
                assert(keep@.map_values(|r: Response| r@) =~= keep_before.push(r@));
            }
            proof {
                done = done + 1;
            }
        }
        assert(all.take(done) =~= all);
        self.buffer = keep;
        out
    }
}

impl Clone for Topics {
    fn clone(&self) -> (t: Topics)
        ensures
            t@ == self@,
    {
        self.duplicate()
    }
}

/// The sending end of the topic path, for handlers and other publishers.
pub struct TopicPublisher {
    tx: Sender<Response>,
}

impl TopicPublisher {
    /// The end on which the publisher sends.
    pub closed spec fn channel(&self) -> Sender<Response> {
        self.tx
    }

    /// A publisher on the given channel.
    pub fn new(tx: Sender<Response>) -> (p: TopicPublisher)
        ensures
            p.channel() == tx,
    {
        TopicPublisher { tx }
    }

    /// Publishes a payload: a response addressed to a topic. Delivery is
    /// best effort: the result says whether `try_publish` found the
    /// channel to take the payload; `false` says that the channel was full
    /// or closed and the payload is lost.
    pub fn publish(&self, res: Response) -> (sent: bool)
        ensures
            exists|taken: Result<(), Response>| #[trigger]
                call_ensures(Self::try_publish, (self, res), taken) && sent == (taken is Ok),
    {
        let taken = self.try_publish(res);
        taken.is_ok()
    }

    /// As `publish`, but a payload that the channel does not take is
    /// handed back for the caller to keep or retry.
    pub fn try_publish(&self, res: Response) -> (sent: Result<(), Response>)
        ensures
            sent is Err ==> sent->Err_0 == res,
    {
        try_send(&self.tx, res)
    }

    /// Another publisher on the same channel.
    pub fn duplicate(&self) -> (p: TopicPublisher)
        ensures
            p.channel() == self.channel(),
    {
        TopicPublisher { tx: clone_sender(&self.tx) }
    }
}

impl Clone for TopicPublisher {
    fn clone(&self) -> (p: TopicPublisher)
        ensures
            p.channel() == self.channel(),
    {
        self.duplicate()
    }
}

impl TypeTag for TopicPublisher {
    const TAG: &'static str = "TopicPublisher";
}

} // verus!

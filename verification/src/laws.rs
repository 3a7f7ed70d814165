//! Laws of the broker: what holds across several of its operations.

use crate::add_data::attaches;
use crate::add_data::with_data;
use crate::add_data::AddDataEndpoint;
use crate::client::fetched;
use crate::client::submitted;
use crate::endpoint::settles;
use crate::endpoint::Endpoint;
use crate::error::message_prefix;
use crate::error::ChannelError;
use crate::error::ErrorKind;
use crate::extensions::held_plain;
use crate::extensions::PlainView;
use crate::extensions::SharedValue;
use crate::extensions::TypeTag;
use crate::handler::handles;
use crate::handler::without_body;
use crate::inflight::cleaned;
use crate::inflight::delivered;
use crate::inflight::distinct_uris;
use crate::inflight::entered;
use crate::inflight::lemma_cleaned_forgets;
use crate::inflight::lemma_delivered_keeps_uris;
use crate::inflight::lemma_position_is_unique;
use crate::inflight::peek;
use crate::inflight::position;
use crate::inflight::tracks;
use crate::request::data::missing_data;
use crate::request::data::Data;
use crate::request::json::Json;
use crate::request::FromRequest;
use crate::request::RequestView;
use crate::response::IntoResponse;
use crate::response::Response;
use crate::response::ResponseView;
use crate::route::path_not_found;
use crate::route::Route;
use crate::runtime::answered;
use crate::runtime::answered_all;
use crate::runtime::last_answer_of;
use crate::runtime::first_asking;
use crate::runtime::AnswerView;
use crate::runtime::PendingView;
use crate::status::StatusKind;
use crate::topic::accepted;
use crate::topic::accepted_all;
use crate::topic::of_other_topics;
use crate::topic::of_topic;
use crate::topic::TopicsView;
use bytes::Bytes;
use vstd::prelude::*;
use vstd::utf8::*;

verus! {

/// While an entry for a URI is in the table, a submission for that URI is
/// refused with `ReqExistInQueue`, whatever the channel would have done,
/// and the table stays as it is.
pub proof fn law_duplicate_is_refused(
    table: Seq<ResponseView>,
    uri: Seq<char>,
    sent: bool,
    after: Seq<ResponseView>,
    result: Result<(), ChannelError>,
)
    requires
        tracks(table, uri),
        submitted(table, uri, sent, after, result),
    ensures
        result is Err,
        result->Err_0 == ChannelError::ReqExistInQueue,
        after == table,
{
}

/// Once the entry for a URI has been cleaned, a submission for that URI
/// passes the table: it is never refused as a duplicate, it succeeds
/// where the channel takes the request, and the URI is in flight again.
pub proof fn law_clean_frees_the_uri(
    table: Seq<ResponseView>,
    uri: Seq<char>,
    sent: bool,
    after: Seq<ResponseView>,
    result: Result<(), ChannelError>,
)
    requires
        distinct_uris(table),
        submitted(cleaned(table, uri), uri, sent, after, result),
    ensures
        !tracks(cleaned(table, uri), uri),
        sent ==> result is Ok,
        result is Err ==> result->Err_0 == ChannelError::ReqSendError,
        after == entered(cleaned(table, uri), uri),
        tracks(after, uri),
{
    lemma_cleaned_forgets(table, uri);
    let base = cleaned(table, uri);
    assert(after[base.len() as int].uri == uri);
}

/// Every table that submissions, deliveries and cleaning make of a table
/// without repeated URIs has no repeated URIs: at most one request per
/// URI is in flight.
pub proof fn law_at_most_one_entry_per_uri(
    table: Seq<ResponseView>,
    uri: Seq<char>,
    res: ResponseView,
)
    requires
        distinct_uris(table),
    ensures
        !tracks(table, uri) ==> distinct_uris(entered(table, uri)),
        distinct_uris(delivered(table, res)),
        distinct_uris(cleaned(table, uri)),
{
    if !tracks(table, uri) {
        crate::inflight::lemma_entered_is_distinct(table, uri);
    }
    lemma_delivered_keeps_uris(table, res);
    lemma_cleaned_forgets(table, uri);
}

/// A request for a registered URI is answered by the handler registered
/// under it. A request for any other URI is refused without any handler
/// being called, and the response it settles into is a failure that
/// echoes the URI and whose message ends in it.
pub proof fn law_routing<E: Endpoint<Output = Response>>(
    route: Route<E>,
    req: RequestView,
    out: Result<Response, ChannelError>,
    res: ResponseView,
)
    requires
        route.answers(req, out),
        settles(req.uri, out, res),
    ensures
        res.uri == req.uri,
        route.paths().contains(req.uri) ==> route.handler(req.uri).answers(req, out),
        !route.paths().contains(req.uri) ==> {
            &&& out is Err
            &&& out->Err_0@ == path_not_found(req.uri)
            &&& res.status.kind == StatusKind::Fail
            &&& res.status.message == message_prefix(ErrorKind::PathNotFoundError) + req.uri
            &&& res.body is None
        },
{
}

/// A text that is sent as a body, extracted as text by the handler and
/// returned as its result comes back as a body that decodes to the same
/// text.
pub proof fn law_text_round_trip(
    text: Seq<char>,
    req: RequestView,
    extracted: Result<String, ChannelError>,
    rest: Option<Seq<u8>>,
    res: ResponseView,
)
    requires
        req.body == Some(encode_utf8(text)),
        <String as FromRequest>::extracts(req, req.body, extracted, rest),
        extracted is Ok ==> settles(req.uri, extracted, res),
    ensures
        extracted is Ok,
        extracted->Ok_0@ == text,
        res.status.kind == StatusKind::Success,
        res.body is Some,
        valid_utf8(res.body->0),
        decode_utf8(res.body->0) == text,
{
    encode_utf8_valid_utf8(text);
    encode_utf8_decode_utf8(text);
    let back = extracted->Ok_0;
    let r = choose|r: ResponseView| #[trigger]
        back.becomes(r) && res == (ResponseView { uri: req.uri, ..r });
    assert(res.body == Some(encode_utf8(text)));
}

/// What a look at the table shows for a URI changes only when a response
/// for that URI arrives or its entry is cleaned: submissions, deliveries
/// and cleaning that concern another URI leave it as it is.
pub proof fn law_peek_is_stable(
    table: Seq<ResponseView>,
    uri: Seq<char>,
    other: Seq<char>,
    res: ResponseView,
)
    requires
        distinct_uris(table),
        other != uri,
        res.uri != uri,
    ensures
        !tracks(table, other) ==> peek(entered(table, other), uri) == peek(table, uri),
        peek(delivered(table, res), uri) == peek(table, uri),
        peek(cleaned(table, other), uri) == peek(table, uri),
{
    lemma_cleaned_forgets(table, other);
    lemma_delivered_keeps_uris(table, res);
    let sent = delivered(table, res);
    if tracks(table, uri) {
        let p = position(table, uri);
        assert(0 <= p < table.len() && table[p].uri == uri);
        assert(sent[p] == table[p]);
        lemma_position_is_unique(sent, p);
    }
    if !tracks(table, other) {
        crate::inflight::lemma_entered_is_distinct(table, other);
        let more = entered(table, other);
        if tracks(table, uri) {
            let p = position(table, uri);
            assert(0 <= p < table.len() && table[p].uri == uri);
            assert(more[p] == table[p]);
            lemma_position_is_unique(more, p);
        }
        if tracks(more, uri) {
            let q = position(more, uri);
            assert(0 <= q < more.len() && more[q].uri == uri);
            assert(q < table.len());
            assert(table[q].uri == uri);
        }
    }
}

/// A response that arrives for a URI in flight is what the next look at
/// that URI shows.
pub proof fn law_delivery_is_seen(table: Seq<ResponseView>, res: ResponseView)
    requires
        distinct_uris(table),
        tracks(table, res.uri),
    ensures
        peek(delivered(table, res), res.uri) == Some(res),
{
    lemma_delivered_keeps_uris(table, res);
    let p = position(table, res.uri);
    assert(0 <= p < table.len() && table[p].uri == res.uri);
    let sent = delivered(table, res);
    assert(sent[p] == res);
    lemma_position_is_unique(sent, p);
}

/// An extractor that consumes the body leaves none behind, so a second
/// one, of text or of JSON, fails with `BodyNoData`, and the response
/// that failure settles into is a failure with that error's message.
pub proof fn law_body_is_consumed_once(
    req: RequestView,
    before: Option<Seq<u8>>,
    first_text: Result<String, ChannelError>,
    first_json: Result<Json<serde_json::Value>, ChannelError>,
    left: Option<Seq<u8>>,
    second_text: Result<String, ChannelError>,
    second_json: Result<Json<serde_json::Value>, ChannelError>,
    rest: Option<Seq<u8>>,
    res: ResponseView,
)
    requires
        <String as FromRequest>::extracts(req, before, first_text, left) || <Json<
            serde_json::Value,
        > as FromRequest>::extracts(req, before, first_json, left),
        <String as FromRequest>::extracts(req, left, second_text, rest),
        <Json<serde_json::Value> as FromRequest>::extracts(req, left, second_json, rest),
        settles(req.uri, second_text, res),
    ensures
        left is None,
        second_text is Err && second_text->Err_0 == ChannelError::BodyNoData,
        second_json is Err && second_json->Err_0 == ChannelError::BodyNoData,
        res.status.kind == StatusKind::Fail,
        res.status.message == message_prefix(ErrorKind::BodyNoData),
{
    assert(message_prefix(ErrorKind::BodyNoData) + Seq::<char>::empty() =~= message_prefix(
        ErrorKind::BodyNoData,
    ));
}

/// Whether extracting an `A` consumes the body: it leaves none behind, and
/// finds none where one before it has consumed it.
pub open spec fn consumes_body<'a, A: FromRequest<'a>>() -> bool {
    forall|
        req: RequestView,
        before: Option<Seq<u8>>,
        out: Result<A, ChannelError>,
        after: Option<Seq<u8>>,
    | #[trigger]
        A::extracts(req, before, out, after) ==> after is None && (before is None ==> out is Err
            && out->Err_0 == ChannelError::BodyNoData)
}

/// Text, raw bytes and JSON are extracted by consuming the body.
pub proof fn lemma_body_consumers()
    ensures
        consumes_body::<String>(),
        consumes_body::<Json<serde_json::Value>>(),
        consumes_body::<Bytes>(),
        consumes_body::<Vec<u8>>(),
{
}

/// A handler whose function asks for the body twice, through any two
/// extractors that consume it, never runs its function: the request is
/// answered with a failure that carries its URI. Where the first
/// extraction cannot fail, the failure is that of the second, which finds
/// no body: `BodyNoData`, with that error's message.
pub proof fn law_handler_taking_the_body_twice_fails<
    'a,
    A: FromRequest<'a>,
    B: FromRequest<'a>,
    R: IntoResponse,
    F: Fn((A, B)) -> R,
>(f: F, req: RequestView, out: Result<Response, ChannelError>, res: ResponseView)
    requires
        consumes_body::<A>(),
        consumes_body::<B>(),
        handles::<(A, B), R, F>(f, req, out),
        settles(req.uri, out, res),
    ensures
        out is Err,
        res.uri == req.uri,
        res.status.kind == StatusKind::Fail,
        res.status.message == out->Err_0@.message(),
        (forall|first: Result<A, ChannelError>, mid: Option<Seq<u8>>| #[trigger]
            A::extracts(without_body(req), req.body, first, mid) ==> first is Ok) ==> {
            &&& out->Err_0 == ChannelError::BodyNoData
            &&& res.status.message == message_prefix(ErrorKind::BodyNoData)
        },
{
    let (arg, rest) = choose|arg: Result<(A, B), ChannelError>, rest: Option<Seq<u8>>|
        #[trigger] <(A, B) as FromRequest>::extracts(without_body(req), req.body, arg, rest)
            && match arg {
            Err(e) => out is Err && out->Err_0 == e,
            Ok(a) => out is Ok && exists|r: R|
                call_ensures(f, (a,), r) && #[trigger] r.becomes(out->Ok_0@),
        };
    let (first, mid) = choose|first: Result<A, ChannelError>, mid: Option<Seq<u8>>|
        #[trigger] A::extracts(without_body(req), req.body, first, mid) && match first {
            Err(e) => arg is Err && arg->Err_0 == e && rest == mid,
            Ok(a) => exists|second: Result<B, ChannelError>| #[trigger]
                B::extracts(without_body(req), mid, second, rest) && match second {
                    Err(e) => arg is Err && arg->Err_0 == e,
                    Ok(b) => arg is Ok && arg->Ok_0 == (a, b),
                },
        };
    assert(mid is None);
    assert(message_prefix(ErrorKind::BodyNoData) + Seq::<char>::empty() =~= message_prefix(
        ErrorKind::BodyNoData,
    ));
}

/// A handler that asks for the body as text and then as JSON, given a
/// request whose body is valid text, answers with a failure that carries
/// the request's URI and the message of `BodyNoData`.
pub proof fn law_text_then_json_fails<R: IntoResponse, F: Fn((String, Json<serde_json::Value>)) -> R>(
    f: F,
    req: RequestView,
    out: Result<Response, ChannelError>,
    res: ResponseView,
)
    requires
        req.body is Some,
        valid_utf8(req.body->0),
        handles::<(String, Json<serde_json::Value>), R, F>(f, req, out),
        settles(req.uri, out, res),
    ensures
        out is Err,
        out->Err_0 == ChannelError::BodyNoData,
        res.uri == req.uri,
        res.status.kind == StatusKind::Fail,
        res.status.message == message_prefix(ErrorKind::BodyNoData),
{
    lemma_body_consumers();
    law_handler_taking_the_body_twice_fails::<String, Json<serde_json::Value>, R, F>(
        f,
        req,
        out,
        res,
    );
}

/// The request that an endpoint wrapped with a shared value sees holds
/// exactly that value under the value's tag, and under every other tag
/// what the request held before; a tag under which nothing is attached is
/// reported missing by name.
pub proof fn law_attached_data_is_found(
    req: RequestView,
    tag: Seq<char>,
    value: SharedValue,
    other: Seq<char>,
)
    requires
        other != tag,
    ensures
        with_data(req, tag, value).extensions.contains_key(tag),
        with_data(req, tag, value).extensions[tag] == value,
        with_data(req, tag, value).extensions.contains_key(other) == req.extensions.contains_key(
            other,
        ),
        req.extensions.contains_key(other) ==> with_data(req, tag, value).extensions[other]
            == req.extensions[other],
        missing_data(other).kind == ErrorKind::GetDataError,
        missing_data(other).message() == message_prefix(ErrorKind::GetDataError) + other,
        with_data(req, tag, value).uri == req.uri,
        with_data(req, tag, value).param == req.param,
        with_data(req, tag, value).body == req.body,
{
}

/// Attaching two values of different tags gives the same request in
/// either order.
pub proof fn law_attachments_commute(
    req: RequestView,
    tag: Seq<char>,
    value: SharedValue,
    other: Seq<char>,
    other_value: SharedValue,
)
    requires
        other != tag,
    ensures
        with_data(with_data(req, tag, value), other, other_value) == with_data(
            with_data(req, other, other_value),
            tag,
            value,
        ),
{
    let a = with_data(with_data(req, tag, value), other, other_value);
    let b = with_data(with_data(req, other, other_value), tag, value);
    assert(a.extensions =~= b.extensions);
}

/// Two payloads published to a topic are handed out by the next fetch of
/// that topic, in the order they were published, behind what was kept for
/// the topic before; a second fetch, with nothing new arrived, finds none.
pub proof fn law_topic_order(
    topics: TopicsView,
    uri: Seq<char>,
    a: ResponseView,
    b: ResponseView,
    out: Seq<ResponseView>,
    after: TopicsView,
    again: Seq<ResponseView>,
    at_last: TopicsView,
)
    requires
        a.uri == uri,
        b.uri == uri,
        fetched(topics, uri, seq![a, b], out, after),
        fetched(after, uri, Seq::empty(), again, at_last),
    ensures
        out == of_topic(topics.buffer, uri).push(a).push(b),
        of_topic(topics.buffer, uri).len() == 0 ==> out == seq![a, b],
        again == Seq::<ResponseView>::empty(),
{
    reveal(Seq::filter);
    let s0 = topics;
    let batch = seq![a, b];
    assert(batch.drop_last() =~= seq![a]);
    assert(seq![a].drop_last() =~= Seq::<ResponseView>::empty());
    assert(batch.last() == b);
    assert(seq![a].last() == a);
    let s1 = accepted(s0, a);
    let s2 = accepted(s1, b);
    assert(accepted_all(s0, Seq::<ResponseView>::empty()) == s0);
    assert(accepted_all(s0, seq![a]) == s1);
    assert(accepted_all(s0, batch) == s2);
    assert(s1.buffer == topics.buffer.push(a));
    assert(s2.buffer == topics.buffer.push(a).push(b));
    assert(s2.buffer.drop_last() =~= s1.buffer);
    assert(s1.buffer.drop_last() =~= topics.buffer);
    assert(of_topic(s1.buffer, uri) == of_topic(topics.buffer, uri).push(a));
    assert(of_topic(s2.buffer, uri) == of_topic(topics.buffer, uri).push(a).push(b));
    if of_topic(topics.buffer, uri).len() == 0 {
        assert(out =~= seq![a, b]);
    }
    lemma_nothing_left(s2.buffer, uri);
    assert(accepted_all(after, Seq::<ResponseView>::empty()) == after);
}

/// Among the payloads of the other topics there is none of this topic.
pub proof fn lemma_nothing_left(buffer: Seq<ResponseView>, uri: Seq<char>)
    ensures
        of_topic(of_other_topics(buffer, uri), uri) == Seq::<ResponseView>::empty(),
    decreases buffer.len(),
{
    reveal(Seq::filter);
    if buffer.len() > 0 {
        lemma_nothing_left(buffer.drop_last(), uri);
        let rest = of_other_topics(buffer.drop_last(), uri);
        if buffer.last().uri != uri {
            assert(of_other_topics(buffer, uri) == rest.push(buffer.last()));
            assert(rest.push(buffer.last()).drop_last() =~= rest);
        }
    }
}

/// Fetching a topic leaves the payloads of every other topic as they
/// were: none is lost, and their order is kept.
pub proof fn lemma_others_are_kept(buffer: Seq<ResponseView>, uri: Seq<char>, other: Seq<char>)
    requires
        other != uri,
    ensures
        of_topic(of_other_topics(buffer, uri), other) == of_topic(buffer, other),
    decreases buffer.len(),
{
    reveal(Seq::filter);
    if buffer.len() > 0 {
        lemma_others_are_kept(buffer.drop_last(), uri, other);
        let rest = of_other_topics(buffer.drop_last(), uri);
        if buffer.last().uri != uri {
            assert(of_other_topics(buffer, uri) == rest.push(buffer.last()));
            assert(rest.push(buffer.last()).drop_last() =~= rest);
        }
    }
}

/// Payloads of different topics coexist until their own topic is fetched:
/// a fetch of one topic hands out none of another and loses none of it,
/// whether or not that topic was subscribed to.
pub proof fn law_topics_coexist(
    topics: TopicsView,
    uri: Seq<char>,
    other: Seq<char>,
    payloads: Seq<ResponseView>,
    out: Seq<ResponseView>,
    after: TopicsView,
)
    requires
        other != uri,
        fetched(topics, uri, payloads, out, after),
    ensures
        of_topic(out, other) == Seq::<ResponseView>::empty(),
        of_topic(after.buffer, other) == of_topic(accepted_all(topics, payloads).buffer, other),
        of_topic(after.buffer, uri) == Seq::<ResponseView>::empty(),
        after.subjects == topics.subjects,
{
    let arrived = accepted_all(topics, payloads);
    lemma_others_are_kept(arrived.buffer, uri, other);
    lemma_nothing_left(arrived.buffer, uri);
    lemma_accepting_keeps_subjects(topics, payloads);
    lemma_nothing_of_another(arrived.buffer, uri, other);
}

/// Taking payloads in changes no subscription.
pub proof fn lemma_accepting_keeps_subjects(topics: TopicsView, payloads: Seq<ResponseView>)
    ensures
        accepted_all(topics, payloads).subjects == topics.subjects,
    decreases payloads.len(),
{
    if payloads.len() > 0 {
        lemma_accepting_keeps_subjects(topics, payloads.drop_last());
    }
}

/// Among the payloads of one topic there is none of another.
pub proof fn lemma_nothing_of_another(buffer: Seq<ResponseView>, uri: Seq<char>, other: Seq<char>)
    requires
        other != uri,
    ensures
        of_topic(of_topic(buffer, uri), other) == Seq::<ResponseView>::empty(),
    decreases buffer.len(),
{
    reveal(Seq::filter);
    if buffer.len() > 0 {
        lemma_nothing_of_another(buffer.drop_last(), uri, other);
        let rest = of_topic(buffer.drop_last(), uri);
        if buffer.last().uri == uri {
            assert(of_topic(buffer, uri) == rest.push(buffer.last()));
            assert(rest.push(buffer.last()).drop_last() =~= rest);
        }
    }
}

/// An answer stands, in place, for the first request that asked for the
/// operation it answers: that request keeps what was asked, every other
/// request keeps its answer, and no request is added or lost.
pub proof fn law_answer_reaches_the_request_that_asked<R>(
    queue: Seq<PendingView<R>>,
    res: AnswerView,
    i: int,
)
    requires
        first_asking(queue, res.fun_id, i),
    ensures
        answered(queue, res).len() == queue.len(),
        answered(queue, res)[i].answer == res,
        answered(queue, res)[i].request == queue[i].request,
        answered(queue, res)[i].asked == queue[i].asked,
        forall|j: int|
            0 <= j < queue.len() && j != i ==> #[trigger] answered(queue, res)[j] == queue[j],
{
    let c = choose|c: int| first_asking(queue, res.fun_id, c);
    assert(first_asking(queue, res.fun_id, c));
    if c < i {
        assert(queue[c].asked != res.fun_id);
    }
    if i < c {
        assert(queue[i].asked != res.fun_id);
    }
}

/// With two requests for different operations in the queue and one
/// answer arrived, which is to the operation of the second: the second
/// request gets the answer, in place, the first keeps its own, and the
/// answer shown for the request made last is the one that arrived.
pub proof fn law_answer_for_the_second_of_two<R>(
    first: PendingView<R>,
    second: PendingView<R>,
    res: AnswerView,
)
    requires
        first.asked != second.asked,
        res.fun_id == second.asked,
    ensures
        answered_all(seq![first, second], seq![res]) == seq![
            first,
            PendingView { answer: res, ..second },
        ],
        last_answer_of(answered_all(seq![first, second], seq![res])) == Some(res),
{
    let queue = seq![first, second];
    let batch = seq![res];
    assert(batch.drop_last() =~= Seq::<AnswerView>::empty());
    assert(answered_all(queue, batch.drop_last()) == queue);
    assert(batch.last() == res);
    assert(first_asking(queue, res.fun_id, 1));
    law_answer_reaches_the_request_that_asked(queue, res, 1);
    assert(answered(queue, res) =~= seq![first, PendingView { answer: res, ..second }]);
}

/// An answer to an operation that no request in the queue asked for
/// changes nothing.
pub proof fn law_unasked_answer_changes_nothing<R>(queue: Seq<PendingView<R>>, res: AnswerView)
    requires
        forall|i: int| 0 <= i < queue.len() ==> (#[trigger] queue[i]).asked != res.fun_id,
    ensures
        answered(queue, res) == queue,
{
    if exists|i: int| first_asking(queue, res.fun_id, i) {
        let c = choose|c: int| first_asking(queue, res.fun_id, c);
        assert(queue[c].asked != res.fun_id);
    }
}

/// What a handler behind `data(v)` is given when it asks for a `T`. The
/// request it sees holds, under the tag of `T`, the handle that the
/// type's `share` made of a clone of `v`; the argument is what the type's
/// `look` at exactly that handle gives, extraction succeeds exactly where
/// the look finds a `T`, and a failure names the tag. The body is left as
/// it was.
pub proof fn law_attached_data_is_what_is_looked_at<'a, T: Clone + TypeTag>(
    v: T,
    handle: SharedValue,
    req: RequestView,
    before: Option<Seq<u8>>,
    out: Result<Data<&'a T>, ChannelError>,
    after: Option<Seq<u8>>,
)
    requires
        attaches(v, handle),
        <Data<&'a T> as FromRequest<'a>>::extracts(
            with_data(req, T::TAG@, handle),
            before,
            out,
            after,
        ),
    ensures
        after == before,
        exists|c: T| #[trigger]
            call_ensures(T::clone, (&v,), c) && call_ensures(T::share, (c,), handle),
        call_ensures(
            T::look,
            (&handle,),
            match out {
                Ok(d) => Some(d.0),
                Err(_) => None,
            },
        ),
        out is Err ==> out->Err_0@ == missing_data(T::TAG@),
{
}

/// Whether values of `T` travel plainly, `view` saying which plain value
/// each stands for: the handle made of a value holds it, the look at a
/// handle gives the value held exactly where it is of this type, and a
/// clone stands for the same plain value.
pub open spec fn travels_plainly<T: Clone + TypeTag>(view: spec_fn(T) -> PlainView) -> bool {
    &&& forall|v: T, h: SharedValue| #[trigger]
        call_ensures(T::share, (v,), h) ==> held_plain(h) == Some(plain_of(view, v))
    &&& forall|h: SharedValue, r: Option<&T>| #[trigger]
        call_ensures(T::look, (&h,), r) ==> (r is Some ==> held_plain(h) == Some(
            plain_of(view, *r->0),
        ))
    &&& forall|h: SharedValue, r: Option<&T>, t: T|
        #![trigger call_ensures(T::look, (&h,), r), plain_of(view, t)]
        call_ensures(T::look, (&h,), r) && held_plain(h) == Some(plain_of(view, t)) ==> r is Some
    &&& forall|v: T, c: T| #[trigger]
        call_ensures(T::clone, (&v,), c) ==> plain_of(view, c) == plain_of(view, v)
}

/// The plain value that `view` says a value stands for.
pub open spec fn plain_of<T>(view: spec_fn(T) -> PlainView, value: T) -> PlainView {
    view(value)
}

/// The plain types travel plainly.
pub proof fn lemma_plain_types_travel_plainly()
    ensures
        travels_plainly::<i32>(|v: i32| PlainView::I32(v)),
        travels_plainly::<i64>(|v: i64| PlainView::I64(v)),
        travels_plainly::<u32>(|v: u32| PlainView::U32(v)),
        travels_plainly::<u64>(|v: u64| PlainView::U64(v)),
        travels_plainly::<bool>(|v: bool| PlainView::Bool(v)),
        travels_plainly::<String>(|v: String| PlainView::Text(v@)),
{
}

/// A handler behind `data(v)` that asks for a value of a plain type
/// observes the attached value: extraction succeeds, and what it hands
/// the handler stands for the same plain value as `v`. The body is left
/// as it was.
pub proof fn law_attached_plain_value_is_observed<'a, T: Clone + TypeTag>(
    view: spec_fn(T) -> PlainView,
    v: T,
    handle: SharedValue,
    req: RequestView,
    before: Option<Seq<u8>>,
    out: Result<Data<&'a T>, ChannelError>,
    after: Option<Seq<u8>>,
)
    requires
        travels_plainly::<T>(view),
        attaches(v, handle),
        <Data<&'a T> as FromRequest<'a>>::extracts(
            with_data(req, T::TAG@, handle),
            before,
            out,
            after,
        ),
    ensures
        out is Ok,
        view(*out->Ok_0.0) == view(v),
        after == before,
{
    let c = choose|c: T| #[trigger]
        call_ensures(T::clone, (&v,), c) && call_ensures(T::share, (c,), handle);
    assert(held_plain(handle) == Some(plain_of(view, c)));
    let r: Option<&'a T> = match out {
        Ok(d) => Some(d.0),
        Err(_) => None,
    };
    assert(call_ensures(T::look, (&handle,), r));
}

/// An endpoint wrapped with a value of a plain type passes on, unchanged,
/// the outcome of the endpoint inside on a request that is the one it was
/// given in URI, parameter and body, and that holds under the type's tag
/// a handle on exactly the attached value.
pub proof fn law_wrapped_endpoint_sees_the_attached_value<E: Endpoint, T: Clone + TypeTag>(
    view: spec_fn(T) -> PlainView,
    v: T,
    wrapped: AddDataEndpoint<E, T>,
    req: RequestView,
    out: Result<E::Output, ChannelError>,
)
    requires
        travels_plainly::<T>(view),
        attaches(v, wrapped.attached()),
        wrapped.answers(req, out),
    ensures
        wrapped.inner().answers(with_data(req, T::TAG@, wrapped.attached()), out),
        held_plain(with_data(req, T::TAG@, wrapped.attached()).extensions[T::TAG@]) == Some(
            plain_of(view, v),
        ),
        with_data(req, T::TAG@, wrapped.attached()).uri == req.uri,
        with_data(req, T::TAG@, wrapped.attached()).param == req.param,
        with_data(req, T::TAG@, wrapped.attached()).body == req.body,
{
    let c = choose|c: T| #[trigger]
        call_ensures(T::clone, (&v,), c) && call_ensures(T::share, (c,), wrapped.attached());
    assert(held_plain(wrapped.attached()) == Some(plain_of(view, c)));
}

/// A handler behind `data(v)` that asks for an `i32` is handed `v`.
pub proof fn law_attached_number_is_observed<'a>(
    v: i32,
    handle: SharedValue,
    req: RequestView,
    before: Option<Seq<u8>>,
    out: Result<Data<&'a i32>, ChannelError>,
    after: Option<Seq<u8>>,
)
    requires
        attaches(v, handle),
        <Data<&'a i32> as FromRequest<'a>>::extracts(
            with_data(req, <i32 as TypeTag>::TAG@, handle),
            before,
            out,
            after,
        ),
    ensures
        out is Ok,
        *out->Ok_0.0 == v,
        after == before,
{
    lemma_plain_types_travel_plainly();
    law_attached_plain_value_is_observed::<i32>(
        |x: i32| PlainView::I32(x),
        v,
        handle,
        req,
        before,
        out,
        after,
    );
}

/// The answer to a request is what the next look at its URI shows. A
/// request that passed the table and was answered by the endpoint gives
/// one response, which carries the request's URI; once that response is
/// delivered, the look at the URI shows exactly it, and a failed outcome
/// shows as a failure with the error's message.
pub proof fn law_answer_is_seen<E: Endpoint>(
    ep: E,
    table: Seq<ResponseView>,
    req: RequestView,
    out: Result<E::Output, ChannelError>,
    res: ResponseView,
)
    requires
        distinct_uris(table),
        !tracks(table, req.uri),
        ep.answers(req, out),
        settles(req.uri, out, res),
    ensures
        res.uri == req.uri,
        tracks(entered(table, req.uri), req.uri),
        peek(delivered(entered(table, req.uri), res), req.uri) == Some(res),
        out is Err ==> res.status.kind == StatusKind::Fail && res.status.message
            == out->Err_0@.message() && res.body is None,
{
    crate::inflight::lemma_entered_is_distinct(table, req.uri);
    let waiting = entered(table, req.uri);
    assert(waiting[table.len() as int].uri == req.uri);
    law_delivery_is_seen(waiting, res);
}

/// A request for a URI that has no handler, once it passed the table and
/// its response is delivered, shows at its URI as a failure whose message
/// ends in the URI: it never stays ready or pending.
pub proof fn law_unrouted_request_is_seen_failed<E: Endpoint<Output = Response>>(
    route: Route<E>,
    table: Seq<ResponseView>,
    req: RequestView,
    out: Result<Response, ChannelError>,
    res: ResponseView,
)
    requires
        distinct_uris(table),
        !tracks(table, req.uri),
        !route.paths().contains(req.uri),
        route.answers(req, out),
        settles(req.uri, out, res),
    ensures
        peek(delivered(entered(table, req.uri), res), req.uri) == Some(res),
        res.uri == req.uri,
        res.status.kind == StatusKind::Fail,
        res.status.is_terminal(),
        res.status.message == message_prefix(ErrorKind::PathNotFoundError) + req.uri,
{
    law_answer_is_seen(route, table, req, out, res);
}

} // verus!

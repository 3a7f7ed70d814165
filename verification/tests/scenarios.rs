use bytes::Bytes;
use channel_server::handler::Handler;
use channel_server::request::data::Data;
use channel_server::request::json::Json;
use channel_server::request::param::ReqParam;
use channel_server::topic::TopicPublisher;
use channel_server::Body;
use channel_server::ChannelServer;
use channel_server::ChannelService;
use channel_server::Endpoint;
use channel_server::EndpointExt;
use channel_server::Param;
use channel_server::Request;
use channel_server::Response;
use channel_server::Route;
use channel_server::StatusKind;
use std::sync::Arc;

fn serve_pending<E: Endpoint>(server: &ChannelServer, ep: &E) {
    while let Ok(req) = server.receiver().try_recv() {
        let tx = server.sender();
        ChannelServer::respond(&tx, ep, req).unwrap();
    }
}

fn text(res: &Response) -> String {
    String::from_utf8(res.body_ref().to_vec().unwrap()).unwrap()
}

#[test]
fn echo_end_to_end() {
    let route = Route::new().at(
        "/echo",
        Handler::<String, String, _>::new(|body: String| format!("got:{}", body)).boxed(),
    );
    let (mut client, server) = ChannelService::new().split();
    client.req_with_body("/echo".to_string(), Body::from_string("abc".to_string())).unwrap();
    serve_pending(&server, &route);
    let mut polls = 0;
    while !client.run_once() {
        polls += 1;
        assert!(polls < 1000);
    }
    let res = client.search("/echo").unwrap();
    assert_eq!(res.status_ref().kind(), StatusKind::Success);
    assert_eq!(res.uri_ref(), "/echo");
    assert_eq!(text(res), "got:abc");
}

#[test]
fn missing_route_end_to_end() {
    let route: Route = Route::new();
    let (mut client, server) = ChannelService::new().split();
    client.req_with_body("/missing".to_string(), Body::empty()).unwrap();
    serve_pending(&server, &route);
    assert!(client.run_once());
    let res = client.search("/missing").unwrap();
    assert_eq!(res.status_ref().kind(), StatusKind::Fail);
    assert!(res.status_ref().message().contains("/missing"));
    assert_eq!(res.uri_ref(), "/missing");
}

#[test]
fn text_body_round_trip() {
    let route = Route::new().at(
        "/same",
        Handler::<String, String, _>::new(|body: String| body).boxed(),
    );
    let (mut client, server) = ChannelService::new().split();
    let sent = "plain, accents é, and 汉字 €";
    client.req_with_body("/same".to_string(), Body::from_string(sent.to_string())).unwrap();
    serve_pending(&server, &route);
    assert!(client.run_once());
    assert_eq!(text(client.search("/same").unwrap()), sent);
}

#[test]
fn topic_payloads_arrive_in_publish_order() {
    let (mut client, _server, publisher) = ChannelService::new().split_with_topics();
    client.subject("/t");
    assert!(publisher.publish(Response::topic("/t").body(Bytes::from_static(b"a"))));
    assert!(publisher.publish(Response::topic("/t").body(Bytes::from_static(b"b"))));
    let got: Vec<String> = client.fetch_topic("/t").iter().map(text).collect();
    assert_eq!(got, vec!["a".to_string(), "b".to_string()]);
    assert!(client.fetch_topic("/t").is_empty());
    assert!(!client.run_once());
    assert!(client.fetch_topic("/t").is_empty());
    assert!(publisher.publish(Response::topic("/t").body(Bytes::from_static(b"c"))));
    let got: Vec<String> = client.fetch_topic("/t").iter().map(text).collect();
    assert_eq!(got, vec!["c".to_string()]);
}

#[test]
fn payloads_wait_for_a_topic_that_was_never_subscribed_to() {
    let (mut client, _server, publisher) = ChannelService::new().split_with_topics();
    publisher.publish(Response::topic("/t").body(Bytes::from_static(b"a")));
    publisher.publish(Response::topic("/t").body(Bytes::from_static(b"b")));
    let got: Vec<String> = client.fetch_topic("/t").iter().map(text).collect();
    assert_eq!(got, vec!["a".to_string(), "b".to_string()]);
    assert!(client.fetch_topic("/t").is_empty());
}

#[test]
fn topics_are_independent_of_the_request_table() {
    let (mut client, _server, publisher) = ChannelService::new().split_with_topics();
    client.subject("/t");
    client.req_with_body("/t".to_string(), Body::empty()).unwrap();
    publisher.publish(Response::topic("/t").body(Bytes::from_static(b"a")));
    publisher.publish(Response::topic("/unheard").body(Bytes::from_static(b"x")));
    assert!(!client.run_once());
    assert_eq!(client.search("/t").unwrap().status_ref().kind(), StatusKind::Ready);
    assert_eq!(client.fetch_topic("/t").len(), 1);
    assert_eq!(client.search("/t").unwrap().status_ref().kind(), StatusKind::Ready);
    publisher.publish(Response::topic("/unheard").body(Bytes::from_static(b"y")));
    let got: Vec<String> = client.fetch_topic("/unheard").iter().map(text).collect();
    assert_eq!(got, vec!["x".to_string(), "y".to_string()]);
    assert!(client.fetch_topic("/unheard").is_empty());
}

#[test]
fn a_handler_publishes_through_an_attached_publisher() {
    let (mut client, server, publisher) = ChannelService::new().split_with_topics();
    let route = Route::new()
        .at(
            "/start",
            Handler::<Data<Arc<TopicPublisher>>, (), _>::new(|p: Data<Arc<TopicPublisher>>| {
                p.0.publish(Response::topic("/progress").body(Bytes::from_static(b"50%")));
                p.0.publish(Response::topic("/progress").body(Bytes::from_static(b"100%")));
            })
            .boxed(),
        )
        .data(publisher);
    client.subject("/progress");
    client.req_with_body("/start".to_string(), Body::empty()).unwrap();
    serve_pending(&server, &route);
    assert!(client.run_once());
    assert!(client.search("/start").unwrap().is_ok());
    let got: Vec<String> = client.fetch_topic("/progress").iter().map(text).collect();
    assert_eq!(got, vec!["50%".to_string(), "100%".to_string()]);
}

#[test]
fn test() {
    let route = Route::default()
        .at(
            "hello",
            Handler::<String, String, _>::new(|name: String| format!("hello: {}", name)).boxed(),
        )
        .at(
            "hello_json",
            Handler::<
                (ReqParam<serde_json::Value>, Json<serde_json::Value>, Data<Arc<i32>>),
                String,
                _,
            >::new(
                |(user, json, data): (
                    ReqParam<serde_json::Value>,
                    Json<serde_json::Value>,
                    Data<Arc<i32>>,
                )| {
                    format!("user: {:?}, json: {}, data: {}", user, json.0.as_str().unwrap(), data.0)
                },
            )
            .boxed(),
        )
        .data(1);

    let request = Request::with_body(
        "hello".into(),
        Body::from_string("this is a string".to_string()),
    );
    let res = route.get_response(request);
    println!("res: {:?}", res.status_ref());
    assert!(res.is_ok());
    assert_eq!(text(&res), "hello: this is a string");

    let mut user = serde_json::Map::new();
    user.insert("name".to_string(), serde_json::Value::String("maxu".to_string()));
    let request = Request::new(
        "hello_json".into(),
        Param::from_obj(&serde_json::Value::Object(user)),
        Body::from_string(serde_json::to_string("this is a json string").unwrap()),
    );
    let res = route.get_response(request);
    println!("res: {:?}", res.status_ref());
    assert!(res.is_ok());
    assert_eq!(
        text(&res),
        "user: ReqParam(Object {\"name\": String(\"maxu\")}), json: this is a json string, data: 1"
    );
}

#[test]
fn two_requests_in_flight_are_answered_independently() {
    let route = Route::default()
        .at(
            "hello",
            Handler::<String, String, _>::new(|name: String| format!("hello: {}", name)).boxed(),
        )
        .at(
            "hello_json",
            Handler::<
                (ReqParam<serde_json::Value>, Json<serde_json::Value>, Data<Arc<i32>>),
                String,
                _,
            >::new(
                |(user, json, data): (
                    ReqParam<serde_json::Value>,
                    Json<serde_json::Value>,
                    Data<Arc<i32>>,
                )| {
                    format!(
                        "user: {}, json: {}, data: {}",
                        user["name"].as_str().unwrap(),
                        json.as_str().unwrap(),
                        data.0
                    )
                },
            )
            .boxed(),
        )
        .data(1);
    let (mut client, server) = ChannelService::new().split();

    let uri1 = "hello".to_string();
    client
        .req(Request::with_body(uri1.clone(), Body::from_string("this is a string".to_string())))
        .unwrap();
    let uri2 = "hello_json".to_string();
    let mut user = serde_json::Map::new();
    user.insert("name".to_string(), serde_json::Value::String("maxu".to_string()));
    client
        .req(Request::new(
            uri2.clone(),
            Param::from_obj(&serde_json::Value::Object(user)),
            Body::from_string(serde_json::to_string("this is a json string").unwrap()),
        ))
        .unwrap();

    serve_pending(&server, &route);

    let mut res1_ok = false;
    let mut res2_ok = false;
    assert!(client.run_once());
    if let Some(res) = client.search(&uri1) {
        if res.is_ok() {
            assert_eq!(text(res), "hello: this is a string");
            client.clean(&uri1);
            res1_ok = true;
        }
    }
    if let Some(res) = client.search(&uri2) {
        if res.is_ok() {
            assert_eq!(text(res), "user: maxu, json: this is a json string, data: 1");
            client.clean(&uri2);
            res2_ok = true;
        }
    }
    assert!(res1_ok && res2_ok);
    assert!(client.search(&uri1).is_none());
    assert!(client.search(&uri2).is_none());
}

#[test]
fn fetching_one_topic_keeps_the_payloads_of_another() {
    let (mut client, _server, publisher) = ChannelService::new().split_with_topics();
    publisher.publish(Response::topic("/t").body(Bytes::from_static(b"t1")));
    publisher.publish(Response::topic("/s").body(Bytes::from_static(b"s1")));
    publisher.publish(Response::topic("/t").body(Bytes::from_static(b"t2")));
    let got: Vec<String> = client.fetch_topic("/s").iter().map(text).collect();
    assert_eq!(got, vec!["s1".to_string()]);
    let got: Vec<String> = client.fetch_topic("/t").iter().map(text).collect();
    assert_eq!(got, vec!["t1".to_string(), "t2".to_string()]);
    assert!(client.fetch_topic("/s").is_empty());
    assert!(client.fetch_topic("/t").is_empty());
}

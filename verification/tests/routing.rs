use channel_server::add_data::AddData;
use channel_server::endpoint::settle;
use channel_server::extensions::TypeTag;
use channel_server::handler::Handler;
use channel_server::request::data::Data;
use channel_server::request::json::Json;
use channel_server::request::param::ReqParam;
use channel_server::Body;
use channel_server::BoxEndpoint;
use channel_server::ChannelError;
use channel_server::Endpoint;
use channel_server::EndpointExt;
use channel_server::FromRequest;
use channel_server::IntoResponse;
use channel_server::Middleware;
use channel_server::Param;
use channel_server::Request;
use channel_server::Response;
use channel_server::Route;
use channel_server::StatusKind;
use std::sync::Arc;

#[derive(Clone)]
struct Hello;

impl Endpoint for Hello {
    type Output = Response;

    fn call(&self, req: Request) -> Result<Response, ChannelError> {
        let (req, mut body) = req.split();
        let name = <String as FromRequest>::from_request(&req, &mut body)?;
        Ok(format!("hello: {}", name).into_response())
    }
}

struct Twice;

impl Endpoint for Twice {
    type Output = Response;

    fn call(&self, req: Request) -> Result<Response, ChannelError> {
        let (req, mut body) = req.split();
        let first = String::from_request(&req, &mut body)?;
        let second = String::from_request(&req, &mut body)?;
        Ok(format!("{}{}", first, second).into_response())
    }
}

#[derive(Clone)]
struct NeedsNumber;

impl Endpoint for NeedsNumber {
    type Output = String;

    fn call(&self, req: Request) -> Result<String, ChannelError> {
        let (req, mut body) = req.split();
        let n = Data::<&i32>::from_request(&req, &mut body)?;
        Ok(format!("n={}", n.0))
    }
}

#[derive(Clone)]
struct Limit(u32);

impl TypeTag for Limit {
    const TAG: &'static str = "Limit";
}

struct NeedsLimit;

impl Endpoint for NeedsLimit {
    type Output = String;

    fn call(&self, req: Request) -> Result<String, ChannelError> {
        let (req, mut body) = req.split();
        let l = Data::<&Limit>::from_request(&req, &mut body)?;
        let n = Data::<&i32>::from_request(&req, &mut body)?;
        Ok(format!("limit={} n={}", l.0 .0, n.0))
    }
}

fn text_body(res: &mut Response) -> String {
    String::from_utf8(res.take_body().to_vec().unwrap()).unwrap()
}

#[test]
fn settle_stamps_the_uri_on_success() {
    let mut r = settle("/s".to_string(), Ok::<String, ChannelError>("fine".to_string()));
    assert_eq!(r.uri_ref(), "/s");
    assert_eq!(r.status_ref().kind(), StatusKind::Success);
    assert_eq!(text_body(&mut r), "fine");
}

#[test]
fn settle_turns_an_error_into_a_failure_with_its_message() {
    let r = settle("/s".to_string(), Err::<String, ChannelError>(ChannelError::ParseJsonError));
    assert_eq!(r.uri_ref(), "/s");
    assert_eq!(r.status_ref().kind(), StatusKind::Fail);
    assert_eq!(r.status_ref().message(), "解析json异常");
    assert!(!r.body_ref().has_data());
}

#[test]
fn get_response_echoes_the_uri() {
    let req = Request::with_body("/hello".to_string(), Body::from_string("bob".to_string()));
    let mut r = Hello.get_response(req);
    assert_eq!(r.uri_ref(), "/hello");
    assert!(r.is_ok());
    assert_eq!(text_body(&mut r), "hello: bob");
}

#[test]
fn get_response_of_double_body_extraction_is_a_failure() {
    let req = Request::with_body("/twice".to_string(), Body::from_string("bob".to_string()));
    let r = Twice.get_response(req);
    assert_eq!(r.uri_ref(), "/twice");
    assert_eq!(r.status_ref().kind(), StatusKind::Fail);
    assert_eq!(r.status_ref().message(), "the request body has no data");
}

#[test]
fn route_dispatches_by_exact_uri() {
    let route = Route::new().at("/hello", Hello.boxed()).at("/twice", Twice.boxed());
    assert!(route.contains("/hello"));
    assert!(route.contains("/twice"));
    assert!(!route.contains("/hell"));
    assert!(!route.contains("/hello/"));
    let req = Request::with_body("/hello".to_string(), Body::from_string("ann".to_string()));
    let mut r = route.get_response(req);
    assert!(r.is_ok());
    assert_eq!(r.uri_ref(), "/hello");
    assert_eq!(text_body(&mut r), "hello: ann");
}

#[test]
fn route_refuses_an_unregistered_uri() {
    let route = Route::new().at("/hello", Hello.boxed());
    let req = Request::with_body("/missing".to_string(), Body::from_string("ann".to_string()));
    let err = route.call(req).err().unwrap();
    assert!(matches!(&err, ChannelError::PathNotFoundError(u) if u == "/missing"));
    let req = Request::with_body("/missing".to_string(), Body::empty());
    let r = route.get_response(req);
    assert_eq!(r.uri_ref(), "/missing");
    assert_eq!(r.status_ref().kind(), StatusKind::Fail);
    assert_eq!(r.status_ref().message(), "路径未找到: /missing");
    assert!(r.status_ref().message().contains("/missing"));
}

#[test]
fn empty_route_refuses_everything() {
    let route: Route = Route::default();
    assert!(!route.contains(""));
    let r = route.get_response(Request::with_body(String::new(), Body::empty()));
    assert_eq!(r.status_ref().kind(), StatusKind::Fail);
    assert_eq!(r.status_ref().message(), "路径未找到: ");
}

#[test]
fn route_of_one_handler_type_needs_no_box() {
    let route: Route<Hello> = Route::new().at("/a", Hello).at("/b", Hello);
    let mut r = route.get_response(Request::with_body(
        "/b".to_string(),
        Body::from_string("b".to_string()),
    ));
    assert_eq!(text_body(&mut r), "hello: b");
}

#[test]
fn box_endpoint_calls_the_endpoint_inside() {
    let b = BoxEndpoint::new(Hello);
    let mut r = b.get_response(Request::with_body(
        "/x".to_string(),
        Body::from_string("box".to_string()),
    ));
    assert_eq!(text_body(&mut r), "hello: box");
}

#[test]
fn data_is_attached_to_every_request() {
    let ep = NeedsNumber.data(41i32);
    let mut r = ep.get_response(Request::with_body("/n".to_string(), Body::empty()));
    assert!(r.is_ok());
    assert_eq!(text_body(&mut r), "n=41");
    let mut r = ep.get_response(Request::with_body("/n".to_string(), Body::empty()));
    assert_eq!(text_body(&mut r), "n=41");
    let c = ep.clone();
    let mut r = c.get_response(Request::with_body("/n".to_string(), Body::empty()));
    assert_eq!(text_body(&mut r), "n=41");
}

#[test]
fn unattached_data_fails_naming_the_type() {
    let r = NeedsNumber.get_response(Request::with_body("/n".to_string(), Body::empty()));
    assert_eq!(r.status_ref().kind(), StatusKind::Fail);
    assert_eq!(r.status_ref().message(), "Get data 异常: i32");
    let ep = NeedsLimit.data(1i32);
    let r = ep.get_response(Request::with_body("/n".to_string(), Body::empty()));
    assert_eq!(r.status_ref().kind(), StatusKind::Fail);
    assert_eq!(r.status_ref().message(), "Get data 异常: Limit");
}

#[test]
fn middleware_composes_in_either_order() {
    let a = NeedsLimit.data(3i32).data(Limit(10));
    let b = NeedsLimit.data(Limit(10)).data(3i32);
    let mut ra = a.get_response(Request::with_body("/l".to_string(), Body::empty()));
    let mut rb = b.get_response(Request::with_body("/l".to_string(), Body::empty()));
    assert_eq!(text_body(&mut ra), "limit=10 n=3");
    assert_eq!(text_body(&mut rb), "limit=10 n=3");
}

#[test]
fn inner_data_of_the_same_type_wins() {
    let ep = NeedsNumber.data(1i32).data(2i32);
    let mut r = ep.get_response(Request::with_body("/n".to_string(), Body::empty()));
    assert_eq!(text_body(&mut r), "n=1");
}

#[test]
fn with_applies_the_middleware() {
    let ep = NeedsNumber.with(AddData::new(8i32));
    let mut r = ep.get_response(Request::with_body("/n".to_string(), Body::empty()));
    assert_eq!(text_body(&mut r), "n=8");
    let ep = AddData::new(9i32).transform(NeedsNumber);
    let mut r = ep.get_response(Request::with_body("/n".to_string(), Body::empty()));
    assert_eq!(text_body(&mut r), "n=9");
}

#[test]
fn route_with_data_serves_all_its_handlers() {
    let route = Route::new()
        .at("/hello", Hello.boxed())
        .at("/n", Handler::<Data<Arc<i32>>, String, _>::new(|d: Data<Arc<i32>>| {
            format!("n={}", d.0)
        }).boxed())
        .data(5i32);
    let mut r = route.get_response(Request::with_body("/n".to_string(), Body::empty()));
    assert_eq!(text_body(&mut r), "n=5");
    let mut r = route.get_response(Request::with_body(
        "/hello".to_string(),
        Body::from_string("x".to_string()),
    ));
    assert_eq!(text_body(&mut r), "hello: x");
    let r = route.get_response(Request::with_body("/none".to_string(), Body::empty()));
    assert_eq!(r.status_ref().message(), "路径未找到: /none");
}

#[test]
fn handler_extracts_calls_and_converts() {
    let echo = Handler::<String, String, _>::new(|body: String| format!("got:{}", body));
    let mut r = echo.get_response(Request::with_body(
        "/echo".to_string(),
        Body::from_string("abc".to_string()),
    ));
    assert!(r.is_ok());
    assert_eq!(r.uri_ref(), "/echo");
    assert_eq!(text_body(&mut r), "got:abc");
}

#[test]
fn handler_is_not_called_when_extraction_fails() {
    let h = Handler::<String, String, _>::new(|_body: String| -> String {
        panic!("the handler must not run")
    });
    let r = h.get_response(Request::with_body("/echo".to_string(), Body::empty()));
    assert_eq!(r.status_ref().kind(), StatusKind::Fail);
    assert_eq!(r.status_ref().message(), "the request body has no data");
    assert_eq!(r.uri_ref(), "/echo");
}

#[test]
fn handler_of_a_pair_that_takes_the_body_twice_fails() {
    let h = Handler::<(String, String), String, _>::new(|_both: (String, String)| -> String {
        panic!("the handler must not run")
    });
    let r = h.get_response(Request::with_body(
        "/twice".to_string(),
        Body::from_string("abc".to_string()),
    ));
    assert_eq!(r.status_ref().kind(), StatusKind::Fail);
    assert_eq!(r.status_ref().message(), "the request body has no data");
}

#[test]
fn handler_of_three_arguments() {
    let h = Handler::<(ReqParam<serde_json::Value>, Json<serde_json::Value>, Data<Arc<i32>>), String, _>::new(
        |(user, json, data): (ReqParam<serde_json::Value>, Json<serde_json::Value>, Data<Arc<i32>>)| {
            format!(
                "user: {}, json: {}, data: {}",
                user.0["name"].as_str().unwrap(),
                json.0.as_str().unwrap(),
                data.0
            )
        },
    )
    .data(1i32);
    let req = Request::new(
        "/hello_json".to_string(),
        Param::from_text("{\"name\":\"maxu\"}".to_string()),
        Body::from_string("\"this is a json string\"".to_string()),
    );
    let mut r = h.get_response(req);
    assert!(r.is_ok());
    assert_eq!(text_body(&mut r), "user: maxu, json: this is a json string, data: 1");
}

#[test]
fn a_cloned_route_dispatches_as_the_first() {
    let route: Route<Hello> = Route::new().at("/a", Hello).at("/b", Hello);
    let copy = route.clone();
    assert!(copy.contains("/a"));
    assert!(copy.contains("/b"));
    assert!(!copy.contains("/c"));
    let mut r = copy.get_response(Request::with_body(
        "/a".to_string(),
        Body::from_string("again".to_string()),
    ));
    assert_eq!(text_body(&mut r), "hello: again");
    let r = copy.get_response(Request::with_body("/c".to_string(), Body::empty()));
    assert_eq!(r.status_ref().message(), "路径未找到: /c");
    let more = copy.at("/c", Hello);
    assert!(more.contains("/c"));
    assert!(!route.contains("/c"));
}

use channel_server::extensions::Extensions;
use channel_server::extensions::SharedValue;
use channel_server::extensions::TypeTag;
use channel_server::request::data::found_or_missing;
use channel_server::request::data::locate;
use channel_server::request::data::Data;
use channel_server::request::json::Json;
use channel_server::request::param::ReqParam;
use channel_server::request::string::decode_text;
use channel_server::text::str_eq;
use channel_server::Body;
use channel_server::ChannelError;
use channel_server::FromRequest;
use channel_server::IntoResponse;
use channel_server::Param;
use channel_server::Request;
use channel_server::StatusKind;
use std::sync::Arc;

#[derive(Debug, PartialEq)]
struct Pool {
    size: usize,
}

impl TypeTag for Pool {
    const TAG: &'static str = "Pool";
}

fn request(body: Body) -> Request {
    Request::new("/x".to_string(), Param::empty(), body)
}

#[test]
fn str_eq_compares_by_content() {
    assert!(str_eq("", ""));
    assert!(str_eq("abc", "abc"));
    assert!(!str_eq("abc", "abd"));
    assert!(!str_eq("abc", "ab"));
    assert!(!str_eq("ab", "abc"));
    assert!(str_eq("路径", "路径"));
    assert!(!str_eq("路径", "路经"));
}

#[test]
fn string_extraction_consumes_the_body() {
    let (req, mut body) = request(Body::from_string("this is a string".to_string())).split();
    let s = String::from_request(&req, &mut body).unwrap();
    assert_eq!(s, "this is a string");
    assert!(!body.has_data());
}

#[test]
fn string_extraction_without_body_fails() {
    let (req, mut body) = request(Body::empty()).split();
    assert!(matches!(String::from_request(&req, &mut body), Err(ChannelError::BodyNoData)));
    assert!(matches!(
        String::from_request_without_body(&req),
        Err(ChannelError::BodyNoData)
    ));
}

#[test]
fn string_extraction_rejects_invalid_utf8() {
    let (req, mut body) = request(Body::from_vec(vec![0xff, 0xfe])).split();
    let err = String::from_request(&req, &mut body).unwrap_err();
    assert!(matches!(err, ChannelError::NotUtf8(_)));
    assert_eq!(
        err.to_string(),
        "parse utf8: invalid utf-8 sequence of 1 bytes from index 0"
    );
    assert!(!body.has_data());
}

#[test]
fn decode_text_round_trips_unicode() {
    assert_eq!(decode_text("héllo €".as_bytes().to_vec()).unwrap(), "héllo €");
    assert!(matches!(decode_text(vec![0x80]), Err(ChannelError::NotUtf8(_))));
    assert_eq!(decode_text(Vec::new()).unwrap(), "");
}

#[test]
fn second_body_extraction_fails_with_body_no_data() {
    let (req, mut body) = request(Body::from_string("once".to_string())).split();
    assert_eq!(String::from_request(&req, &mut body).unwrap(), "once");
    assert!(matches!(String::from_request(&req, &mut body), Err(ChannelError::BodyNoData)));
    assert!(matches!(
        Json::<serde_json::Value>::from_request(&req, &mut body),
        Err(ChannelError::BodyNoData)
    ));
}

#[test]
fn pair_extraction_of_two_bodies_fails() {
    let (req, mut body) = request(Body::from_string("once".to_string())).split();
    let r = <(String, String)>::from_request(&req, &mut body);
    assert!(matches!(r, Err(ChannelError::BodyNoData)));
}

#[test]
fn json_extraction_reads_the_body() {
    let (req, mut body) = request(Body::from_string("\"this is a json string\"".to_string())).split();
    let j = Json::<serde_json::Value>::from_request(&req, &mut body).unwrap();
    assert_eq!(j.0, serde_json::Value::String("this is a json string".to_string()));
    assert_eq!(j.as_str(), Some("this is a json string"));
    assert!(!body.has_data());
}

#[test]
fn json_extraction_rejects_malformed_input() {
    let (req, mut body) = request(Body::from_string("{\"a\":".to_string())).split();
    assert!(matches!(
        Json::<serde_json::Value>::from_request(&req, &mut body),
        Err(ChannelError::ParseJsonError)
    ));
    assert!(!body.has_data());
}

#[test]
fn json_extraction_without_body_fails() {
    let (req, mut body) = request(Body::empty()).split();
    assert!(matches!(
        Json::<serde_json::Value>::from_request(&req, &mut body),
        Err(ChannelError::BodyNoData)
    ));
}

#[test]
fn json_into_response_is_compact_json() {
    let v = serde_json::Value::Array(vec![
        serde_json::Value::Bool(true),
        serde_json::Value::Null,
        serde_json::Value::String("x".to_string()),
    ]);
    let mut r = Json(v).into_response();
    assert!(r.is_ok());
    assert_eq!(r.take_body().to_vec().unwrap(), b"[true,null,\"x\"]".to_vec());
}

#[test]
fn param_extraction_reads_the_param_not_the_body() {
    let mut m = serde_json::Map::new();
    m.insert("name".to_string(), serde_json::Value::String("maxu".to_string()));
    let req = Request::new(
        "/p".to_string(),
        Param::from_obj(&serde_json::Value::Object(m)),
        Body::from_string("untouched".to_string()),
    );
    let (req, mut body) = req.split();
    let p = ReqParam::<serde_json::Value>::from_request(&req, &mut body).unwrap();
    assert_eq!(p.0["name"], serde_json::Value::String("maxu".to_string()));
    assert_eq!(p["name"].as_str(), Some("maxu"));
    assert_eq!(body.to_vec().unwrap(), b"untouched".to_vec());
}

#[test]
fn param_extraction_without_param_fails() {
    let (req, mut body) = request(Body::from_string("b".to_string())).split();
    assert!(matches!(
        ReqParam::<serde_json::Value>::from_request(&req, &mut body),
        Err(ChannelError::ParamNoData)
    ));
    assert!(body.has_data());
}

#[test]
fn param_extraction_rejects_malformed_json() {
    let req = Request::with_param("/p".to_string(), Param::from_text("{oops".to_string()));
    let (req, mut body) = req.split();
    assert!(matches!(
        ReqParam::<serde_json::Value>::from_request(&req, &mut body),
        Err(ChannelError::ParseJsonError)
    ));
}

#[test]
fn extensions_keep_one_value_per_tag() {
    let mut e = Extensions::new();
    assert!(!e.contains("i32"));
    e.insert(1i32);
    e.insert("text".to_string());
    assert!(e.contains("i32"));
    assert!(e.contains("String"));
    assert_eq!(e.get::<i32>(), Some(&1));
    assert_eq!(e.get::<String>().map(|s| s.as_str()), Some("text"));
    e.insert(2i32);
    assert_eq!(e.get::<i32>(), Some(&2));
    assert_eq!(e.get::<String>().map(|s| s.as_str()), Some("text"));
    assert_eq!(e.get::<u64>(), None);
    assert_eq!(e.get::<bool>(), None);
}

#[test]
fn extensions_tagged_access() {
    let mut e = Extensions::new();
    e.insert_tagged("pool".to_string(), SharedValue::new(Pool { size: 4 }));
    assert!(e.contains("pool"));
    assert!(e.get_tagged("other").is_none());
    let v = e.get_tagged("pool").unwrap();
    assert_eq!(v.get::<Pool>(), Some(&Pool { size: 4 }));
    assert_eq!(v.get::<i32>(), None);
    let again = v.share();
    assert_eq!(again.get::<Pool>(), Some(&Pool { size: 4 }));
    assert_eq!(again.get_arc::<Pool>().map(|p| p.size), Some(4));
    let c = e.clone();
    assert_eq!(c.get_tagged("pool").unwrap().get::<Pool>(), Some(&Pool { size: 4 }));
}

#[test]
fn extensions_value_of_another_type_under_the_tag_is_not_handed_out() {
    let mut e = Extensions::new();
    e.insert_tagged("i32".to_string(), SharedValue::new("not a number".to_string()));
    assert_eq!(e.get::<i32>(), None);
}

#[test]
fn locate_names_the_missing_tag() {
    let mut e = Extensions::new();
    e.insert(7u64);
    assert!(locate(&e, "u64").is_ok());
    let err = locate(&e, "Pool").err().unwrap();
    assert!(matches!(&err, ChannelError::GetDataError(t) if t == "Pool"));
    assert_eq!(err.to_string(), "Get data 异常: Pool");
}

#[test]
fn data_extraction_finds_the_attached_value() {
    let mut req = request(Body::from_string("b".to_string()));
    req.extensions_mut().insert(Pool { size: 9 });
    let (req, mut body) = req.split();
    let d = Data::<&Pool>::from_request(&req, &mut body).unwrap();
    assert_eq!(d.0, &Pool { size: 9 });
    assert_eq!(*d, &Pool { size: 9 });
    assert_eq!(d.size, 9);
    assert!(body.has_data());
    let a = Data::<Arc<Pool>>::from_request(&req, &mut body).unwrap();
    assert_eq!(a.0.size, 9);
}

#[test]
fn data_extraction_of_an_unattached_type_names_it() {
    let mut req = request(Body::empty());
    req.extensions_mut().insert(1i32);
    let (req, mut body) = req.split();
    let err = Data::<&Pool>::from_request(&req, &mut body).err().unwrap();
    assert!(matches!(&err, ChannelError::GetDataError(t) if t == "Pool"));
    let err = Data::<Arc<u64>>::from_request(&req, &mut body).err().unwrap();
    assert!(matches!(&err, ChannelError::GetDataError(t) if t == "u64"));
    assert_eq!(err.into_response().status_ref().kind(), StatusKind::Fail);
}

#[test]
fn triple_extraction_runs_left_to_right() {
    let mut req = Request::new(
        "/t".to_string(),
        Param::from_text("{\"name\":\"maxu\"}".to_string()),
        Body::from_string("\"js\"".to_string()),
    );
    req.extensions_mut().insert(1i32);
    let (req, mut body) = req.split();
    let (p, j, d) = <(ReqParam<serde_json::Value>, Json<serde_json::Value>, Data<&i32>)>::from_request(
        &req, &mut body,
    )
    .unwrap();
    assert_eq!(p.0["name"].as_str(), Some("maxu"));
    assert_eq!(j.0.as_str(), Some("js"));
    assert_eq!(*d.0, 1);
}

#[test]
fn triple_extraction_stops_at_the_first_failure() {
    let req = Request::new("/t".to_string(), Param::empty(), Body::from_string("\"js\"".to_string()));
    let (req, mut body) = req.split();
    let r = <(ReqParam<serde_json::Value>, Json<serde_json::Value>, Data<&i32>)>::from_request(
        &req, &mut body,
    );
    assert!(matches!(r, Err(ChannelError::ParamNoData)));
    assert!(body.has_data());

    let r = <(Json<serde_json::Value>, ReqParam<serde_json::Value>, Data<&i32>)>::from_request(
        &req, &mut body,
    );
    assert!(matches!(r, Err(ChannelError::ParamNoData)));
    assert!(!body.has_data());
}

#[test]
fn raw_body_extraction_consumes_the_body() {
    let (req, mut body) = request(Body::from_vec(vec![0xff, 0x00, 0x7f])).split();
    assert_eq!(Vec::<u8>::from_request(&req, &mut body).unwrap(), vec![0xff, 0x00, 0x7f]);
    assert!(matches!(Vec::<u8>::from_request(&req, &mut body), Err(ChannelError::BodyNoData)));
    let (req, mut body) = request(Body::from_vec(vec![1, 2])).split();
    let b = bytes::Bytes::from_request(&req, &mut body).unwrap();
    assert_eq!(&b[..], &[1u8, 2][..]);
    assert!(matches!(bytes::Bytes::from_request(&req, &mut body), Err(ChannelError::BodyNoData)));
}

#[test]
fn found_or_missing_names_the_tag() {
    let d = found_or_missing("n", Some(3u8)).ok().unwrap();
    assert_eq!(d.0, 3);
    let err = found_or_missing::<u8>("n", None).err().unwrap();
    assert!(matches!(&err, ChannelError::GetDataError(t) if t == "n"));
}

#[test]
fn plain_values_come_back_as_they_went_in() {
    let mut e = Extensions::new();
    e.insert(-5i32);
    e.insert(1i64 << 40);
    e.insert(7u32);
    e.insert(u64::MAX);
    e.insert(true);
    e.insert("text".to_string());
    assert_eq!(e.get::<i32>(), Some(&-5));
    assert_eq!(e.get::<i64>(), Some(&(1i64 << 40)));
    assert_eq!(e.get::<u32>(), Some(&7));
    assert_eq!(e.get::<u64>(), Some(&u64::MAX));
    assert_eq!(e.get::<bool>(), Some(&true));
    assert_eq!(e.get::<String>().map(|s| s.as_str()), Some("text"));
}

#[test]
fn a_plain_handle_is_looked_at_by_its_own_type_only() {
    let h = 7i64.share();
    assert_eq!(<i64 as TypeTag>::look(&h), Some(&7));
    assert_eq!(<i64 as TypeTag>::look_arc(&h).map(|a| *a), Some(7));
    assert_eq!(<i32 as TypeTag>::look(&h), None);
    assert_eq!(<u64 as TypeTag>::look(&h), None);
    assert!(<i32 as TypeTag>::look_arc(&h).is_none());
    assert_eq!(<bool as TypeTag>::look(&h), None);
    assert_eq!(<String as TypeTag>::look(&h), None);
    let t = "abc".to_string().share();
    assert_eq!(<String as TypeTag>::look(&t).map(|s| s.as_str()), Some("abc"));
    assert_eq!(<String as TypeTag>::look_arc(&t).map(|s| s.len()), Some(3));
    assert_eq!(<u32 as TypeTag>::look(&t), None);
    let b = false.share();
    assert_eq!(<bool as TypeTag>::look(&b), Some(&false));
    assert_eq!(<bool as TypeTag>::look_arc(&b).map(|a| *a), Some(false));
    let u = 9u32.share();
    assert_eq!(<u32 as TypeTag>::look(&u), Some(&9));
    assert_eq!(<u32 as TypeTag>::look_arc(&u).map(|a| *a), Some(9));
    let w = 11u64.share();
    assert_eq!(<u64 as TypeTag>::look_arc(&w).map(|a| *a), Some(11));
    let i = 3i32.share();
    assert_eq!(<i32 as TypeTag>::look(&i), Some(&3));
    assert_eq!(<i32 as TypeTag>::look_arc(&i).map(|a| *a), Some(3));
}

#[test]
fn a_type_of_the_program_travels_by_its_tag_alone() {
    let h = Pool { size: 2 }.share();
    assert_eq!(Pool::look(&h), Some(&Pool { size: 2 }));
    assert_eq!(Pool::look_arc(&h).map(|p| p.size), Some(2));
    assert_eq!(<i32 as TypeTag>::look(&h), None);
}

use bytes::Bytes;
use channel_server::Body;
use channel_server::ChannelError;
use channel_server::ErrorKind;
use channel_server::IntoResponse;
use channel_server::Param;
use channel_server::Request;
use channel_server::Response;
use channel_server::StatusCode;
use channel_server::StatusKind;

fn body_bytes(res: &mut Response) -> Option<Vec<u8>> {
    res.take_body().to_vec()
}

#[test]
fn status_constructors_carry_default_messages() {
    assert_eq!(StatusCode::ok().kind(), StatusKind::Success);
    assert_eq!(StatusCode::ok().message(), "执行成功");
    assert_eq!(StatusCode::fail().kind(), StatusKind::Fail);
    assert_eq!(StatusCode::fail().message(), "执行失败");
    assert_eq!(StatusCode::pending().kind(), StatusKind::Pending);
    assert_eq!(StatusCode::pending().message(), "正在执行");
    assert_eq!(StatusCode::ready().kind(), StatusKind::Ready);
    assert_eq!(StatusCode::ready().message(), "准备就绪");
    assert_eq!(StatusCode::not_start().kind(), StatusKind::NotStart);
    assert_eq!(StatusCode::not_start().message(), "未执行");
    assert_eq!(StatusCode::default().kind(), StatusKind::Ready);
}

#[test]
fn status_is_ok_only_for_success() {
    assert!(StatusCode::ok().is_ok());
    assert!(!StatusCode::fail().is_ok());
    assert!(!StatusCode::pending().is_ok());
    assert!(!StatusCode::ready().is_ok());
    assert!(!StatusCode::not_start().is_ok());
    assert!(!StatusCode::failed("x".to_string()).is_ok());
}

#[test]
fn status_clone_keeps_kind_and_message() {
    let s = StatusCode::failed("boom".to_string());
    let c = s.clone();
    assert_eq!(c.kind(), StatusKind::Fail);
    assert_eq!(c.message(), "boom");
}

#[test]
fn error_messages() {
    assert_eq!(ChannelError::ReqExistInQueue.to_string(), "请求已经在队列中");
    assert_eq!(ChannelError::ReqSendError.to_string(), "请求发送失败");
    assert_eq!(ChannelError::Io("disk".to_string()).to_string(), "io: disk");
    assert_eq!(ChannelError::ParseJsonError.to_string(), "解析json异常");
    assert_eq!(ChannelError::BodyNoData.to_string(), "the request body has no data");
    assert_eq!(ChannelError::ParamNoData.to_string(), "the request param has no data");
    assert_eq!(ChannelError::NotUtf8("bad".to_string()).to_string(), "parse utf8: bad");
    assert_eq!(
        ChannelError::PathNotFoundError("/missing".to_string()).to_string(),
        "路径未找到: /missing"
    );
    assert_eq!(
        ChannelError::GetDataError("i32".to_string()).to_string(),
        "Get data 异常: i32"
    );
    assert_eq!(ChannelError::Custom("why".to_string()).to_string(), "异常: why");
}

#[test]
fn error_kinds() {
    assert_eq!(ChannelError::ReqExistInQueue.kind(), ErrorKind::ReqExistInQueue);
    assert_eq!(ChannelError::ReqSendError.kind(), ErrorKind::ReqSendError);
    assert_eq!(ChannelError::Io(String::new()).kind(), ErrorKind::Io);
    assert_eq!(ChannelError::ParseJsonError.kind(), ErrorKind::ParseJsonError);
    assert_eq!(ChannelError::BodyNoData.kind(), ErrorKind::BodyNoData);
    assert_eq!(ChannelError::ParamNoData.kind(), ErrorKind::ParamNoData);
    assert_eq!(ChannelError::NotUtf8(String::new()).kind(), ErrorKind::NotUtf8);
    assert_eq!(
        ChannelError::PathNotFoundError(String::new()).kind(),
        ErrorKind::PathNotFoundError
    );
    assert_eq!(ChannelError::GetDataError(String::new()).kind(), ErrorKind::GetDataError);
    assert_eq!(ChannelError::Custom(String::new()).kind(), ErrorKind::Custom);
}

#[test]
fn body_empty_has_nothing_to_take() {
    let mut b = Body::empty();
    assert!(!b.has_data());
    assert!(b.is_none());
    assert_eq!(b.len(), 0);
    assert!(matches!(b.take(), Err(ChannelError::BodyNoData)));
}

#[test]
fn body_is_taken_once() {
    let mut b = Body::from_string("abc".to_string());
    assert!(b.has_data());
    assert_eq!(b.as_ref().map(|x| x.len()), Some(3));
    let first = b.take().unwrap();
    assert_eq!(&first[..], b"abc");
    assert!(!b.has_data());
    assert!(matches!(b.take(), Err(ChannelError::BodyNoData)));
}

#[test]
fn body_from_string_holds_utf8_encoding() {
    let b = Body::from_string("é€".to_string());
    assert_eq!(b.to_vec().unwrap(), vec![0xc3, 0xa9, 0xe2, 0x82, 0xac]);
    assert_eq!(b.len(), 5);
}

#[test]
fn body_from_bytes_vec_and_static() {
    let a = Body::from_bytes(Bytes::from(vec![1u8, 2, 3]));
    assert_eq!(a.to_vec().unwrap(), vec![1u8, 2, 3]);
    let b = Body::from_vec(vec![9u8, 8]);
    assert_eq!(b.to_vec().unwrap(), vec![9u8, 8]);
    let c = Body::from_static(b"xyz");
    assert_eq!(c.to_vec().unwrap(), b"xyz".to_vec());
}

#[test]
fn body_take_vec_copies_payload() {
    let mut b = Body::from_vec(vec![7u8, 7, 7]);
    assert_eq!(b.take_vec().unwrap(), vec![7u8, 7, 7]);
    assert!(matches!(b.take_vec(), Err(ChannelError::BodyNoData)));
}

#[test]
fn body_clone_and_default() {
    let b = Body::from_vec(vec![1u8]);
    let mut c = b.clone();
    assert_eq!(c.take_vec().unwrap(), vec![1u8]);
    assert!(b.has_data());
    assert!(!Body::default().has_data());
}

#[test]
fn param_empty_is_an_error_only_when_read() {
    let p = Param::empty();
    assert!(matches!(p.as_ref(), Err(ChannelError::ParamNoData)));
}

#[test]
fn param_from_obj_is_compact_json() {
    let mut m = serde_json::Map::new();
    m.insert("name".to_string(), serde_json::Value::String("maxu".to_string()));
    let p = Param::from_obj(&serde_json::Value::Object(m));
    assert_eq!(p.as_ref().unwrap(), "{\"name\":\"maxu\"}");
    let q = p.clone();
    assert_eq!(q.as_ref().unwrap(), "{\"name\":\"maxu\"}");
}

#[test]
fn param_from_text_is_kept_as_it_is() {
    let p = Param::from_text("{not json".to_string());
    assert_eq!(p.as_ref().unwrap(), "{not json");
}

#[test]
fn request_constructors() {
    let r = Request::new(
        "/a".to_string(),
        Param::from_text("1".to_string()),
        Body::from_vec(vec![1u8, 2]),
    );
    assert_eq!(r.uri_ref(), "/a");
    assert_eq!(r.param().as_ref().unwrap(), "1");
    assert!(!r.extensions().contains("i32"));
    let (rest, mut body) = r.split();
    assert_eq!(rest.uri_ref(), "/a");
    assert_eq!(body.take_vec().unwrap(), vec![1u8, 2]);
    let (_, mut second) = rest.split();
    assert!(matches!(second.take(), Err(ChannelError::BodyNoData)));

    let p = Request::with_param("/p".to_string(), Param::from_text("2".to_string()));
    assert_eq!(p.param().as_ref().unwrap(), "2");
    let (_, b) = p.split();
    assert!(!b.has_data());

    let w = Request::with_body("/w".to_string(), Body::from_string("x".to_string()));
    assert!(matches!(w.param().as_ref(), Err(ChannelError::ParamNoData)));
    let (_, b) = w.split();
    assert_eq!(b.to_vec().unwrap(), b"x".to_vec());
}

#[test]
fn request_extensions_mut_attaches_values() {
    let mut r = Request::with_body("/e".to_string(), Body::empty());
    r.extensions_mut().insert(5i32);
    assert_eq!(r.extensions().get::<i32>(), Some(&5));
    assert_eq!(r.extensions().get::<u64>(), None);
    assert_eq!(r.uri_ref(), "/e");
}

#[test]
fn response_builders() {
    let r = Response::new();
    assert_eq!(r.uri_ref(), "");
    assert_eq!(r.status_ref().kind(), StatusKind::Ready);
    assert!(!r.body_ref().has_data());
    assert!(!r.is_ok());

    let mut r = Response::new()
        .uri("/u".to_string())
        .status(StatusCode::ok())
        .body(Bytes::from_static(b"payload"));
    assert_eq!(r.uri_ref(), "/u");
    assert!(r.is_ok());
    assert_eq!(r.body_len(), 7);
    assert_eq!(body_bytes(&mut r).unwrap(), b"payload".to_vec());
    assert_eq!(r.body_len(), 0);
    assert_eq!(body_bytes(&mut r), None);
    assert_eq!(r.uri_ref(), "/u");
    assert!(r.is_ok());
}

#[test]
fn response_topic_and_clone_and_default() {
    let t = Response::topic("/t");
    assert_eq!(t.uri_ref(), "/t");
    assert_eq!(t.status_ref().kind(), StatusKind::Ready);
    let r = Response::new().uri("/c".to_string()).body(Bytes::from_static(b"1"));
    let mut c = r.clone();
    assert_eq!(c.uri_ref(), "/c");
    assert_eq!(body_bytes(&mut c).unwrap(), b"1".to_vec());
    assert!(r.body_ref().has_data());
    let d = Response::default();
    assert_eq!(d.uri_ref(), "");
    assert_eq!(d.status_ref().kind(), StatusKind::Ready);
}

#[test]
fn into_response_of_each_kind() {
    let mut r = "text".to_string().into_response();
    assert!(r.is_ok());
    assert_eq!(r.status_ref().message(), "执行成功");
    assert_eq!(body_bytes(&mut r).unwrap(), b"text".to_vec());

    let mut r = "static".into_response();
    assert!(r.is_ok());
    assert_eq!(body_bytes(&mut r).unwrap(), b"static".to_vec());

    let bytes: &'static [u8] = b"raw";
    let mut r = bytes.into_response();
    assert!(r.is_ok());
    assert_eq!(body_bytes(&mut r).unwrap(), b"raw".to_vec());

    let mut r = Bytes::from(vec![1u8, 2]).into_response();
    assert!(r.is_ok());
    assert_eq!(body_bytes(&mut r).unwrap(), vec![1u8, 2]);

    let mut r = vec![3u8, 4].into_response();
    assert!(r.is_ok());
    assert_eq!(body_bytes(&mut r).unwrap(), vec![3u8, 4]);

    let mut r = ().into_response();
    assert!(r.is_ok());
    assert_eq!(body_bytes(&mut r), None);

    let keep = Response::new().uri("/k".to_string());
    let r = keep.into_response();
    assert_eq!(r.uri_ref(), "/k");
}

#[test]
fn error_into_response_is_a_failure_with_its_message() {
    let mut r = ChannelError::BodyNoData.into_response();
    assert_eq!(r.status_ref().kind(), StatusKind::Fail);
    assert_eq!(r.status_ref().message(), "the request body has no data");
    assert_eq!(r.uri_ref(), "");
    assert_eq!(body_bytes(&mut r), None);
}

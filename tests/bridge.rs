use grpc_web_bridge::{
    call, headers_accepted, is_reserved_name, names_match, on_fetch_settled, prepare_headers,
    receive_response, set_response_headers, status_is_valid, value_is_text, BodyStream, Client,
    Error, Header, HostHeader, HostResponse, Pulled, ReadResult,
};

fn h(name: &str, value: &str) -> Header {
    (name.as_bytes().to_vec(), value.as_bytes().to_vec())
}

fn host(name: &str, value: &str) -> HostHeader {
    (Some(name.as_bytes().to_vec()), Some(value.as_bytes().to_vec()))
}

fn reserved_three() -> Vec<Header> {
    vec![
        h("content-type", "application/grpc-web+proto"),
        h("accept", "application/grpc-web+proto"),
        h("x-grpc-web", "1"),
    ]
}

#[test]
fn scenario_a_outgoing_descriptor() {
    let body = vec![0u8, 0, 0, 0, 5, 0x68, 0x65, 0x6c, 0x6c, 0x6f];
    let client = Client::new("https://api.example.com".to_string());
    let req = client
        .call("/pkg.Service/Method", &vec![h("x-custom", "v")], Ok(body.clone()))
        .unwrap();
    assert_eq!(req.url, "https://api.example.com/pkg.Service/Method");
    assert_eq!(req.method, "POST");
    let mut expected = reserved_three();
    expected.push(h("x-custom", "v"));
    assert_eq!(req.headers, expected);
    assert_eq!(req.body, body);
}

#[test]
fn free_call_concatenates_without_normalizing() {
    let req = call("https://a.example/".to_string(), "/x?y=1", &vec![], Ok(vec![])).unwrap();
    assert_eq!(req.url, "https://a.example//x?y=1");
    assert_eq!(req.method, "POST");
    assert_eq!(req.headers, reserved_three());
    assert!(req.body.is_empty());
}

#[test]
fn caller_reserved_headers_are_dropped() {
    let caller = vec![
        h("content-type", "text/plain"),
        h("Accept", "*/*"),
        h("X-GRPC-WEB", "0"),
        h("authorization", "Bearer t"),
        h("x-trace", "a"),
        h("x-trace", "b"),
    ];
    let out = prepare_headers(&caller).unwrap();
    let mut expected = reserved_three();
    expected.push(h("authorization", "Bearer t"));
    expected.push(h("x-trace", "a"));
    expected.push(h("x-trace", "b"));
    assert_eq!(out, expected);
}

#[test]
fn non_text_header_value_fails_before_fetch() {
    let caller = vec![h("x-ok", "fine"), (b"x-bin".to_vec(), vec![0x66, 0xff])];
    assert_eq!(prepare_headers(&caller), Err(Error::HeaderValueError));
    let r = call("https://h".to_string(), "/p", &caller, Ok(vec![1, 2]));
    assert!(matches!(r, Err(Error::HeaderValueError)));
}

#[test]
fn non_text_value_under_dropped_name_is_ignored() {
    let caller = vec![
        (b"accept".to_vec(), vec![0x0a]),
        (b"Content-Type".to_vec(), vec![0xff]),
        h("x-grpc-web", "0"),
        h("x-keep", "k"),
    ];
    let mut expected = reserved_three();
    expected.push(h("x-keep", "k"));
    assert_eq!(prepare_headers(&caller), Ok(expected));
}

#[test]
fn non_text_value_under_grpc_web_name_fails() {
    let caller = vec![(b"x-grpc-web".to_vec(), vec![0x0a])];
    assert_eq!(prepare_headers(&caller), Err(Error::HeaderValueError));
}

#[test]
fn body_error_not_hidden_by_dropped_header() {
    let caller = vec![(b"content-type".to_vec(), vec![b'\n'])];
    let r = call("https://h".to_string(), "/p", &caller, Err(Error::MalformedResponse));
    assert!(matches!(r, Err(Error::MalformedResponse)));
}

#[test]
fn body_collection_error_is_passed_through() {
    let failure = Error::ProtocolStatusError { code: 13, message: "boom".to_string() };
    let r = call("https://h".to_string(), "/p", &vec![h("x", "1")], Err(failure.clone()));
    assert!(matches!(r, Err(e) if e == failure));
}

#[test]
fn header_error_comes_before_body_error() {
    let caller = vec![(b"x".to_vec(), vec![0x7f])];
    let r = call("https://h".to_string(), "/p", &caller, Err(Error::MalformedResponse));
    assert!(matches!(r, Err(Error::HeaderValueError)));
}

#[test]
fn scenario_b_host_rejection() {
    let r = on_fetch_settled(Err("NetworkError".to_string()));
    assert!(matches!(r, Err(Error::HostError(m)) if m == "NetworkError"));
}

#[test]
fn scenario_c_missing_content_type() {
    let resp = HostResponse { status: 200, headers: vec![host("x-other", "1")] };
    let r = on_fetch_settled(Ok(resp));
    assert!(matches!(r, Err(Error::MissingContentTypeHeader)));
}

#[test]
fn empty_content_type_counts_as_missing() {
    let entries = vec![host("content-type", "application/grpc-web+proto"), host("content-type", "")];
    assert!(matches!(receive_response(200, &entries), Err(Error::MissingContentTypeHeader)));
}

#[test]
fn missing_content_type_comes_before_invalid_status() {
    let r = receive_response(42, &vec![]);
    assert!(matches!(r, Err(Error::MissingContentTypeHeader)));
}

#[test]
fn invalid_status_is_http_error() {
    let entries = vec![host("content-type", "application/grpc-web+proto")];
    assert!(matches!(receive_response(99, &entries), Err(Error::HttpError)));
    assert!(matches!(receive_response(1000, &entries), Err(Error::HttpError)));
    assert!(receive_response(999, &entries).is_ok());
}

#[test]
fn invalid_response_header_is_http_error() {
    let entries = vec![
        host("content-type", "application/grpc-web+proto"),
        host("bad name", "v"),
    ];
    assert!(matches!(receive_response(200, &entries), Err(Error::HttpError)));
}

#[test]
fn response_head_is_decoded() {
    let entries: Vec<HostHeader> = vec![
        host("content-type", "application/grpc-web"),
        (None, Some(b"v".to_vec())),
        (Some(b"x-empty".to_vec()), None),
        host("grpc-status", "0"),
        host("Content-Type", "application/grpc-web+proto"),
    ];
    let head = on_fetch_settled(Ok(HostResponse { status: 200, headers: entries })).unwrap();
    assert_eq!(head.status, 200);
    assert_eq!(head.content_type, b"application/grpc-web+proto".to_vec());
    assert_eq!(
        head.headers,
        vec![
            h("content-type", "application/grpc-web"),
            h("grpc-status", "0"),
            h("Content-Type", "application/grpc-web+proto"),
        ]
    );
}

#[test]
fn set_response_headers_keeps_repeats_and_last_content_type() {
    let entries = vec![host("content-type", "a"), host("x", "1"), host("x", "2"), host("content-type", "b")];
    let (headers, ct) = set_response_headers(&entries);
    assert_eq!(headers, vec![h("content-type", "a"), h("x", "1"), h("x", "2"), h("content-type", "b")]);
    assert_eq!(ct, Some(b"b".to_vec()));
    let (none, ct) = set_response_headers(&vec![(None, None)]);
    assert!(none.is_empty());
    assert_eq!(ct, None);
}

#[test]
fn scenario_d_frames_follow_chunks() {
    let mut s = BodyStream::new();
    let chunk4 = vec![0u8, 1, 2, 3];
    let chunk10: Vec<u8> = (10u8..20).collect();
    let mut frames: Vec<Vec<u8>> = Vec::new();
    for read in [
        ReadResult::Chunk(chunk4.clone()),
        ReadResult::Chunk(vec![]),
        ReadResult::Chunk(chunk10.clone()),
        ReadResult::Done,
    ] {
        assert!(s.is_active());
        match s.on_read(read) {
            Pulled::Frame(f) => frames.push(f),
            Pulled::End => break,
            Pulled::Failed(e) => panic!("unexpected error {:?}", e),
        }
    }
    assert_eq!(frames, vec![chunk4.clone(), vec![], chunk10.clone()]);
    let non_empty: Vec<Vec<u8>> = frames.into_iter().filter(|f| !f.is_empty()).collect();
    assert_eq!(non_empty, vec![chunk4, chunk10]);
    assert!(!s.is_active());
    assert!(matches!(s.on_read(ReadResult::Chunk(vec![9])), Pulled::End));
    assert!(matches!(s.on_read(ReadResult::Done), Pulled::End));
}

#[test]
fn read_failure_surfaces_once() {
    let mut s = BodyStream::new();
    assert!(matches!(s.on_read(ReadResult::Chunk(vec![1])), Pulled::Frame(f) if f == vec![1]));
    assert!(matches!(
        s.on_read(ReadResult::Failed("reader broke".to_string())),
        Pulled::Failed(Error::HostError(m)) if m == "reader broke"
    ));
    assert!(!s.is_active());
    assert!(matches!(s.on_read(ReadResult::Failed("again".to_string())), Pulled::End));
}

#[test]
fn empty_stream_ends_at_once() {
    let mut s = BodyStream::empty();
    assert!(!s.is_active());
    assert!(matches!(s.on_read(ReadResult::Chunk(vec![1, 2])), Pulled::End));
}

#[test]
fn client_is_always_ready() {
    let c = Client::new("https://h".to_string());
    assert_eq!(c.base_url(), "https://h");
    assert!(c.poll_ready().is_ok());
    let d = c.clone();
    assert_eq!(d.base_url(), "https://h");
}

#[test]
fn name_and_value_checks() {
    assert!(names_match(b"Content-Type", b"content-type"));
    assert!(!names_match(b"content-typ", b"content-type"));
    assert!(!names_match(b"content_type", b"content-type"));
    assert!(is_reserved_name(b"ACCEPT"));
    assert!(is_reserved_name(b"x-grpc-web"));
    assert!(!is_reserved_name(b"accept-encoding"));
    assert!(value_is_text(b"a b\tc~"));
    assert!(value_is_text(b""));
    assert!(!value_is_text(&[0x80]));
    assert!(!value_is_text(&[0x7f]));
}

#[test]
fn http_validators() {
    assert!(!status_is_valid(0));
    assert!(!status_is_valid(99));
    assert!(status_is_valid(100));
    assert!(status_is_valid(200));
    assert!(status_is_valid(999));
    assert!(!status_is_valid(1000));
    assert!(headers_accepted(&vec![h("x-a", "ok value\t"), (b"x-b".to_vec(), vec![0x80])]));
    assert!(!headers_accepted(&vec![(b"x-c".to_vec(), vec![b'\n'])]));
    assert!(!headers_accepted(&vec![h("", "v")]));
    assert!(!headers_accepted(&vec![h("a:b", "v")]));
    assert!(headers_accepted(&vec![]));
    assert!(headers_accepted(&vec![h("X-Upper~Case!", "v")]));
    assert!(!headers_accepted(&vec![(vec![b'a'; 65536], b"v".to_vec())]));
    assert!(headers_accepted(&vec![(vec![b'A'; 65535], b"v".to_vec())]));
}

#[test]
fn prepare_request_fixes_post() {
    let req = grpc_web_bridge::prepare_request("u".to_string(), vec![h("a", "b")], vec![7]);
    assert_eq!(req.url, "u");
    assert_eq!(req.method, "POST");
    assert_eq!(req.headers, vec![h("a", "b")]);
    assert_eq!(req.body, vec![7]);
}

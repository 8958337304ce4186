use lotide::response::{
    error_response, routing_failure_response, typed_response, HttpResponse, RoutingFailure,
};
use lotide::{empty_response, res_to_error, simple_response, Error};

#[test]
fn simple_and_empty_responses() {
    let res = empty_response();
    assert_eq!(res, HttpResponse { status: 204, content_type: None, body: Vec::new() });
    let res = simple_response(404, "No such post");
    assert_eq!(res.status, 404);
    assert_eq!(res.body, b"No such post");
    assert_eq!(res.content_type, None);
    let res = typed_response("application/json", b"[]".to_vec());
    assert_eq!(res.status, 200);
    assert_eq!(res.content_type.as_deref(), Some("application/json"));
}

#[test]
fn remote_failures_become_errors_that_quote_the_body() {
    let ok = HttpResponse { status: 200, content_type: None, body: b"fine".to_vec() };
    assert_eq!(res_to_error(ok.clone()).unwrap(), ok);
    let created = HttpResponse { status: 299, content_type: None, body: Vec::new() };
    assert!(res_to_error(created).is_ok());
    for status in [199, 300, 404, 500] {
        let res = HttpResponse { status, content_type: None, body: b"went wrong".to_vec() };
        match res_to_error(res) {
            Err(Error::InternalStr(msg)) => {
                assert_eq!(msg, "Error in remote response: went wrong")
            }
            other => panic!("{:?}", other),
        }
    }
    let garbled = HttpResponse { status: 500, content_type: None, body: vec![b'a', 0xff, b'b'] };
    match res_to_error(garbled) {
        Err(Error::InternalStr(msg)) => assert_eq!(msg, "Error in remote response: a\u{fffd}b"),
        other => panic!("{:?}", other),
    }
}

#[test]
fn errors_end_in_responses() {
    let res = error_response(Error::UserError(simple_response(403, "no")));
    assert_eq!((res.status, res.body.as_slice()), (403, &b"no"[..]));
    let res = error_response(Error::RoutingError(RoutingFailure::NotFound));
    assert_eq!((res.status, res.body.as_slice()), (404, &b"Not Found"[..]));
    let res = error_response(Error::RoutingError(RoutingFailure::MethodNotAllowed));
    assert_eq!((res.status, res.body.as_slice()), (405, &b"Method Not Allowed"[..]));
    assert_eq!(routing_failure_response(RoutingFailure::NotFound).status, 404);
    for e in [
        Error::Internal("db down".to_owned()),
        Error::InternalStr("secret".to_owned()),
        Error::InternalStrStatic("secret"),
    ] {
        let res = error_response(e);
        assert_eq!((res.status, res.body.as_slice()), (500, &b"Internal Server Error"[..]));
    }
}

use std::cell::{Cell, RefCell};

use matrix_sdk::{
    Error, HttpClient, HttpSend, KeysQueryRequest, KeysUploadRequest, Method, RawResponse,
    Session, ToDeviceRequest, ToDeviceResponse, TransportFault, VersionsRequest, WireRequest,
};

/// A transport double replaying one canned response and counting calls.
struct CannedTransport {
    status: u16,
    body: Vec<u8>,
    calls: Cell<u32>,
    last_request: RefCell<Option<WireRequest>>,
}

impl CannedTransport {
    fn new(status: u16, body: &[u8]) -> CannedTransport {
        CannedTransport {
            status,
            body: body.to_vec(),
            calls: Cell::new(0),
            last_request: RefCell::new(None),
        }
    }
}

impl HttpSend for CannedTransport {
    fn send_request(&self, request: WireRequest) -> Result<RawResponse, TransportFault> {
        self.calls.set(self.calls.get() + 1);
        *self.last_request.borrow_mut() = Some(request);
        Ok(RawResponse {
            status: self.status,
            headers: vec![(Some("server".to_string()), "double".to_string())],
            body: self.body.clone(),
        })
    }
}

/// A transport double that always fails to connect.
struct FailingTransport {
    calls: Cell<u32>,
}

impl HttpSend for FailingTransport {
    fn send_request(&self, _request: WireRequest) -> Result<RawResponse, TransportFault> {
        self.calls.set(self.calls.get() + 1);
        Err(TransportFault::Connection)
    }
}

fn session() -> Session {
    Session {
        access_token: "token123".to_string(),
        user_id: "@alice:example.org".to_string(),
        device_id: "DEVICE".to_string(),
    }
}

fn client_with_session(transport: CannedTransport) -> HttpClient<CannedTransport> {
    let mut client = HttpClient::new(transport, "https://homeserver.example".to_string());
    client.set_session(session());
    client
}

#[test]
fn auth_required_without_session_and_no_transport_call() {
    let transport = CannedTransport::new(200, b"{}");
    let client = HttpClient::new(transport, "https://homeserver.example".to_string());
    let result = client.send(KeysUploadRequest { body: b"{}".to_vec() });
    assert!(matches!(result, Err(Error::AuthenticationRequired)));
    assert_eq!(client.inner.calls.get(), 0);
}

#[test]
fn no_auth_operation_sends_without_session() {
    let transport = CannedTransport::new(200, b"{\"versions\":[\"r0.6.0\"]}");
    let client = HttpClient::new(transport, "https://homeserver.example".to_string());
    let result = client.send(VersionsRequest {});
    let response = result.unwrap();
    assert_eq!(response.raw, b"{\"versions\":[\"r0.6.0\"]}".to_vec());
    assert_eq!(client.inner.calls.get(), 1);
}

#[test]
fn mutating_request_gets_json_content_type() {
    let transport = CannedTransport::new(200, b"{}");
    let client = client_with_session(transport);
    let request = client
        .prepare_request(KeysUploadRequest { body: b"{\"device_keys\":{}}".to_vec() })
        .unwrap();
    assert!(matches!(request.method, Method::Post));
    let content_types: Vec<&(String, String)> = request
        .headers
        .iter()
        .filter(|pair| pair.0 == "content-type")
        .collect();
    assert_eq!(content_types.len(), 1);
    assert_eq!(content_types[0].1, "application/json");
}

#[test]
fn sent_wire_request_carries_token_and_url() {
    let transport = CannedTransport::new(200, b"{}");
    let client = client_with_session(transport);
    client.send(KeysUploadRequest { body: b"{}".to_vec() }).unwrap();
    let guard = client.inner.last_request.borrow();
    let sent = guard.as_ref().unwrap();
    assert_eq!(sent.url, "https://homeserver.example/_matrix/client/r0/keys/upload");
    assert!(sent
        .headers
        .iter()
        .any(|pair| pair.0 == "authorization" && pair.1 == "Bearer token123"));
    assert!(sent
        .headers
        .iter()
        .any(|pair| pair.0 == "content-type" && pair.1 == "application/json"));
}

#[test]
fn key_upload_success_decodes_count() {
    let transport =
        CannedTransport::new(200, b"{\"one_time_key_counts\":{\"signed_curve25519\":50}}");
    let client = client_with_session(transport);
    let response = client.send(KeysUploadRequest { body: b"{}".to_vec() }).unwrap();
    assert_eq!(response.one_time_key_count, 50);
    assert_eq!(client.inner.calls.get(), 1);
}

#[test]
fn key_upload_success_without_count_field_is_zero() {
    let transport = CannedTransport::new(200, b"{}");
    let client = client_with_session(transport);
    let response = client.send(KeysUploadRequest { body: b"{}".to_vec() }).unwrap();
    assert_eq!(response.one_time_key_count, 0);
}

#[test]
fn protocol_error_carries_server_code() {
    let transport =
        CannedTransport::new(403, b"{\"errcode\":\"M_FORBIDDEN\",\"error\":\"Denied\"}");
    let client = client_with_session(transport);
    let result = client.send(KeysUploadRequest { body: b"{}".to_vec() });
    match result {
        Err(Error::Protocol(protocol)) => {
            assert_eq!(protocol.status, 403);
            assert_eq!(protocol.errcode, b"M_FORBIDDEN".to_vec());
        }
        other => panic!("expected a protocol error, got {:?}", other),
    }
}

#[test]
fn unrecognized_failure_body_is_a_decode_error() {
    let transport = CannedTransport::new(500, b"<html>oops</html>");
    let client = client_with_session(transport);
    let result = client.send(KeysUploadRequest { body: b"{}".to_vec() });
    assert!(matches!(result, Err(Error::ResponseDecode)));
}

#[test]
fn malformed_count_is_a_decode_error() {
    let transport =
        CannedTransport::new(200, b"{\"one_time_key_counts\":{\"signed_curve25519\":\"x\"}}");
    let client = client_with_session(transport);
    let result = client.send(KeysUploadRequest { body: b"{}".to_vec() });
    assert!(matches!(result, Err(Error::ResponseDecode)));
}

#[test]
fn oversized_count_is_a_decode_error() {
    let transport = CannedTransport::new(
        200,
        b"{\"one_time_key_counts\":{\"signed_curve25519\":99999999999999999999}}",
    );
    let client = client_with_session(transport);
    let result = client.send(KeysUploadRequest { body: b"{}".to_vec() });
    assert!(matches!(result, Err(Error::ResponseDecode)));
}

#[test]
fn connection_failure_is_a_transport_error() {
    let transport = FailingTransport { calls: Cell::new(0) };
    let mut client = HttpClient::new(transport, "https://homeserver.example".to_string());
    client.set_session(session());
    let result = client.send(KeysUploadRequest { body: b"{}".to_vec() });
    assert!(matches!(
        result,
        Err(Error::Transport(TransportFault::Connection))
    ));
    assert_eq!(client.inner.calls.get(), 1);
}

#[test]
fn malformed_base_address_is_a_construction_error() {
    let transport = CannedTransport::new(200, b"{}");
    let mut client = HttpClient::new(transport, "homeserver.example".to_string());
    client.set_session(session());
    let result = client.send(KeysUploadRequest { body: b"{}".to_vec() });
    assert!(matches!(result, Err(Error::RequestConstruction)));
    assert_eq!(client.inner.calls.get(), 0);
}

#[test]
fn to_device_delivery_uses_put_and_acknowledges() {
    let transport = CannedTransport::new(200, b"{}");
    let client = client_with_session(transport);
    let response = client
        .send(ToDeviceRequest {
            event_type: "m.room.encrypted".to_string(),
            txn_id: "txn-1".to_string(),
            body: b"{\"messages\":{}}".to_vec(),
        })
        .unwrap();
    assert_eq!(response, ToDeviceResponse {});
    let guard = client.inner.last_request.borrow();
    let sent = guard.as_ref().unwrap();
    assert!(matches!(sent.method, Method::Put));
    assert_eq!(
        sent.url,
        "https://homeserver.example/_matrix/client/r0/sendToDevice/m.room.encrypted/txn-1"
    );
    assert!(sent
        .headers
        .iter()
        .any(|pair| pair.0 == "content-type" && pair.1 == "application/json"));
}

#[test]
fn key_query_success_forwards_payload() {
    let body: &[u8] = b"{\"device_keys\":{\"@bob:example.org\":{}}}";
    let transport = CannedTransport::new(200, body);
    let client = client_with_session(transport);
    let response = client.send(KeysQueryRequest { body: b"{}".to_vec() }).unwrap();
    assert_eq!(response.raw, body.to_vec());
    let guard = client.inner.last_request.borrow();
    let sent = guard.as_ref().unwrap();
    assert_eq!(sent.url, "https://homeserver.example/_matrix/client/r0/keys/query");
}

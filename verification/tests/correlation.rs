use matrix_sdk::{
    IncomingResponse, KeysClaimResponse, KeysQueryResponse, KeysUploadRequest, KeysUploadResponse,
    OutgoingRequest, OutgoingRequests, ToDeviceRequest, ToDeviceResponse,
};

fn to_device_request() -> ToDeviceRequest {
    ToDeviceRequest {
        event_type: "m.room.encrypted".to_string(),
        txn_id: "txn-1".to_string(),
        body: b"{\"messages\":{}}".to_vec(),
    }
}

#[test]
fn envelope_round_trip_preserves_the_operation() {
    let operation = to_device_request();
    let envelope = OutgoingRequest::new(OutgoingRequests::from(operation.clone()));
    match envelope.request() {
        OutgoingRequests::ToDeviceRequest(read_back) => {
            assert_eq!(read_back.event_type, operation.event_type);
            assert_eq!(read_back.txn_id, operation.txn_id);
            assert_eq!(read_back.body, operation.body);
        }
        other => panic!("expected the to-device case, got {:?}", other),
    }
}

#[test]
fn envelope_identifier_is_stable() {
    let envelope = OutgoingRequest::new(OutgoingRequests::KeysUpload(KeysUploadRequest {
        body: b"{}".to_vec(),
    }));
    assert_eq!(envelope.request_id(), envelope.request_id());
}

#[test]
fn envelopes_never_share_an_identifier() {
    let mut ids: Vec<u128> = Vec::new();
    for _ in 0..512 {
        let envelope = OutgoingRequest::new(OutgoingRequests::KeysUpload(KeysUploadRequest {
            body: b"{}".to_vec(),
        }));
        ids.push(envelope.request_id());
    }
    for i in 0..ids.len() {
        for j in (i + 1)..ids.len() {
            assert_ne!(ids[i], ids[j]);
        }
    }
}

#[test]
fn upload_request_converts_to_the_upload_case() {
    let converted = OutgoingRequests::from(KeysUploadRequest { body: b"{}".to_vec() });
    assert!(matches!(converted, OutgoingRequests::KeysUpload(_)));
}

#[test]
fn to_device_response_resolves_to_the_to_device_case() {
    let envelope = OutgoingRequest::new(OutgoingRequests::from(to_device_request()));
    assert!(matches!(
        envelope.request(),
        OutgoingRequests::ToDeviceRequest(_)
    ));
    let response = ToDeviceResponse {};
    let resolved = IncomingResponse::from(&response);
    assert!(matches!(resolved, IncomingResponse::ToDevice(_)));
}

#[test]
fn each_response_resolves_to_its_own_case() {
    let upload = KeysUploadResponse { one_time_key_count: 3 };
    assert!(matches!(
        IncomingResponse::from(&upload),
        IncomingResponse::KeysUpload(_)
    ));
    let query = KeysQueryResponse { raw: b"{}".to_vec() };
    assert!(matches!(
        IncomingResponse::from(&query),
        IncomingResponse::KeysQuery(_)
    ));
    let claim = KeysClaimResponse { raw: b"{}".to_vec() };
    assert!(matches!(
        IncomingResponse::from(&claim),
        IncomingResponse::KeysClaim(_)
    ));
}

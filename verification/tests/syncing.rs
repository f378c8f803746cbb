//! Full synchronization, and the compression of what it carries.
use workspace_api::compression::compress_reply;
use workspace_api::compression::decompressed_part;
use workspace_api::compression::restore;
use workspace_api::compression::PayloadCompression;
use workspace_api::error::ApiError;
use workspace_api::error::Failure;
use workspace_api::full_sync::compressed_response;
use workspace_api::full_sync::compression_task_failed;
use workspace_api::full_sync::sync_message_sent;
use workspace_api::full_sync::sync_response;
use workspace_api::full_sync::DocStateParams;
use workspace_api::full_sync::ServerAnswer;
use workspace_api::full_sync::SyncFailure;
use workspace_api::full_sync::SyncRequest;
use workspace_api::full_sync::SyncResponse;
use workspace_api::full_sync::MAX_BODY_SIZE;
use workspace_api::ids::Id;
use workspace_api::user::header_or_empty;

fn request() -> SyncRequest {
    match SyncRequest::accept(Id { bytes: [1; 16] }, Id { bytes: [2; 16] }, 10) {
        Ok(request) => request,
        Err(_) => panic!("refused"),
    }
}

fn params(compression: Result<PayloadCompression, String>, doc_state: Vec<u8>, sv: Vec<u8>) -> DocStateParams<u8> {
    DocStateParams { collab_type: 3, compression, doc_state, sv }
}

fn invalid(error: ApiError) -> String {
    match error {
        ApiError::InvalidRequest(message) => message,
        _ => panic!("another kind of refusal"),
    }
}

fn internal(error: ApiError) -> String {
    match error {
        ApiError::Internal(message) => message,
        _ => panic!("another kind of refusal"),
    }
}

fn error_of<T>(result: Result<T, ApiError>) -> ApiError {
    match result {
        Ok(_) => panic!("accepted"),
        Err(error) => error,
    }
}

#[test]
fn the_size_of_the_body_is_limited() {
    let ws = Id { bytes: [1; 16] };
    let accept = |size: usize| SyncRequest::accept(ws, ws, size);
    assert_eq!(invalid(error_of(accept(0))), "body is empty");
    assert!(accept(1).is_ok());
    assert!(accept(MAX_BODY_SIZE).is_ok());
    assert_eq!(invalid(error_of(accept(MAX_BODY_SIZE + 1))), "body size exceeds limit: 52428800");
}

#[test]
fn a_body_that_does_not_decode_is_refused() {
    let read = request().read::<u8>(Err("bad tag".to_string()));
    assert_eq!(invalid(error_of(read)), "Failed to parse CollabDocStateParams: bad tag");
}

#[test]
fn an_empty_doc_state_is_refused_first() {
    let read = request().read(Ok(params(Err("unknown".to_string()), vec![], vec![])));
    assert_eq!(invalid(error_of(read)), "doc state is empty");
}

#[test]
fn an_unknown_compression_is_refused() {
    let read = request().read(Ok(params(Err("unknown".to_string()), vec![1], vec![])));
    assert_eq!(invalid(error_of(read)), "Failed to parse PayloadCompressionType: unknown");
}

#[test]
fn parts_that_do_not_decompress_are_refused() {
    let zstd = || Ok(PayloadCompression::Zstd);
    let read = request().read(Ok(params(zstd(), vec![1, 2, 3], vec![1])));
    assert!(invalid(error_of(read)).starts_with("Failed to decompress doc_state: "));
    let good = compress_reply(b"state").unwrap();
    let read = request().read(Ok(params(zstd(), good, vec![1, 2, 3])));
    assert!(invalid(error_of(read)).starts_with("Failed to decompress sv: "));
}

#[test]
fn the_parts_of_an_update_are_restored() {
    let doc_state = compress_reply(b"the state").unwrap();
    let sv = compress_reply(b"vector").unwrap();
    let update = match request().read(Ok(params(Ok(PayloadCompression::Zstd), doc_state, sv))) {
        Ok(update) => update,
        Err(_) => panic!("refused"),
    };
    let message = match update.identified::<()>(Ok(77), None, Some("0.7.4".to_string()), 1234) {
        Ok(message) => message,
        Err(_) => panic!("refused"),
    };
    assert_eq!(message.workspace_id, "01010101-0101-0101-0101-010101010101");
    assert_eq!(message.object_id, "02020202-0202-0202-0202-020202020202");
    assert_eq!(message.collab_type, 3);
    assert_eq!(message.update, b"the state");
    assert_eq!(message.state_vector, b"vector");
    assert_eq!(message.user.uid, 77);
    assert_eq!(message.user.device_id, "");
    assert_eq!(message.user.app_version, "0.7.4");
    assert_eq!(message.user.connect_at, 1234);
    assert_eq!(message.user.session_id.len(), 36);
}

#[test]
fn plain_parts_are_taken_as_they_are() {
    let update = match request().read(Ok(params(Ok(PayloadCompression::Plain), vec![5], vec![]))) {
        Ok(update) => update,
        Err(_) => panic!("refused"),
    };
    let message = match update.identified::<()>(Ok(1), Some("phone".to_string()), None, 0) {
        Ok(message) => message,
        Err(_) => panic!("refused"),
    };
    assert_eq!(message.update, vec![5]);
    assert!(message.state_vector.is_empty());
    assert_eq!(message.user.device_id, "phone");
    assert_eq!(message.user.app_version, "");
}

#[test]
fn a_packed_update_is_sent_like_a_plain_one() {
    let message = |compression: PayloadCompression, doc_state: Vec<u8>, sv: Vec<u8>| {
        let update = match request().read(Ok(params(Ok(compression), doc_state, sv))) {
            Ok(update) => update,
            Err(_) => panic!("refused"),
        };
        match update.identified::<()>(Ok(1), None, None, 0) {
            Ok(message) => message,
            Err(_) => panic!("refused"),
        }
    };
    let plain = message(PayloadCompression::Plain, b"state".to_vec(), b"vector".to_vec());
    let packed = message(
        PayloadCompression::Zstd,
        compress_reply(b"state").unwrap(),
        compress_reply(b"vector").unwrap(),
    );
    assert_eq!(plain.update, packed.update);
    assert_eq!(plain.state_vector, packed.state_vector);
    assert_eq!(plain.collab_type, packed.collab_type);
    assert_eq!(plain.workspace_id, packed.workspace_id);
    assert_eq!(plain.object_id, packed.object_id);
}

#[test]
fn an_unknown_user_ends_the_synchronization() {
    let update = match request().read(Ok(params(Ok(PayloadCompression::Plain), vec![5], vec![]))) {
        Ok(update) => update,
        Err(_) => panic!("refused"),
    };
    assert!(matches!(
        update.identified(Err("no such user"), None, None, 0),
        Err(Failure::Upstream("no such user"))
    ));
}

#[test]
fn restored_parts_are_assembled() {
    let failed = request().assembled(1u8, Err("broken".to_string()), Err("too".to_string()));
    assert_eq!(invalid(error_of(failed)), "Failed to decompress doc_state: broken");
    let failed = request().assembled(1u8, Ok(vec![1]), Err("short".to_string()));
    assert_eq!(invalid(error_of(failed)), "Failed to decompress sv: short");
    assert!(request().assembled(1u8, Ok(vec![1]), Ok(vec![2])).is_ok());
    let part = decompressed_part("sv", Err("x".to_string()));
    assert_eq!(invalid(error_of(part)), "Failed to decompress sv: x");
}

#[test]
fn compression_is_undone_by_decompression() {
    let data: Vec<u8> = (0..5000u32).map(|i| (i % 251) as u8).collect();
    let encoded = compress_reply(&data).unwrap();
    assert_ne!(encoded, data);
    assert!(encoded.len() < data.len());
    assert_eq!(restore(PayloadCompression::Zstd, encoded.clone()).unwrap(), data);
    assert_eq!(restore(PayloadCompression::Plain, encoded.clone()).unwrap(), encoded);
    assert_eq!(encoded, zstd::encode_all(&data[..], 3).unwrap());
    let empty = compress_reply(&[]).unwrap();
    assert!(!empty.is_empty());
    assert!(restore(PayloadCompression::Zstd, empty).unwrap().is_empty());
    assert!(restore(PayloadCompression::Zstd, data).is_err());
}

#[test]
fn a_message_that_is_not_taken_is_refused() {
    assert!(sync_message_sent(Ok(())).is_ok());
    let refused = sync_message_sent(Err("mailbox full".to_string()));
    assert_eq!(internal(error_of(refused)), "Failed to send message to server: mailbox full");
}

#[test]
fn the_servers_update_comes_back_compressed() {
    match sync_response::<()>(Ok(ServerAnswer::Update(b"missing".to_vec()))) {
        Ok(SyncResponse::Body(body)) => {
            assert_ne!(body, b"missing");
            assert_eq!(zstd::decode_all(&body[..]).unwrap(), b"missing");
        }
        _ => panic!("no body"),
    }
}

#[test]
fn other_answers_of_the_server_become_responses() {
    assert!(matches!(sync_response::<u8>(Ok(ServerAnswer::Nothing)), Ok(SyncResponse::ServerError)));
    assert!(matches!(
        sync_response::<u8>(Ok(ServerAnswer::Error(4))),
        Ok(SyncResponse::ErrorResponse(4))
    ));
    match sync_response::<u8>(Err("closed".to_string())) {
        Err(SyncFailure::Api(error)) => {
            assert_eq!(internal(error), "Failed to receive message from server: closed");
        }
        _ => panic!("not refused"),
    }
}

#[test]
fn failures_of_compression_are_reported() {
    assert!(matches!(
        compressed_response::<u8>(Err("full".to_string())),
        Err(SyncFailure::Compression(message)) if message == "full"
    ));
    assert!(matches!(
        compressed_response::<u8>(Ok(vec![1])),
        Ok(SyncResponse::Body(body)) if body == vec![1]
    ));
    assert_eq!(internal(compression_task_failed("cancelled")), "Failed to compress data: cancelled");
}

#[test]
fn a_missing_header_is_empty() {
    assert_eq!(header_or_empty(None), "");
    assert_eq!(header_or_empty(Some("v".to_string())), "v");
}

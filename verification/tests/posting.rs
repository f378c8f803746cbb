//! Posted realtime messages, and the creation of single objects.
use workspace_api::create_collab::BodySource;
use workspace_api::create_collab::CreateRequest;
use workspace_api::create_collab::DecodeFailure;
use workspace_api::create_collab::NewCollab;
use workspace_api::error::upstream;
use workspace_api::error::ApiError;
use workspace_api::error::Failure;
use workspace_api::operation::Operation;
use workspace_api::plan::Ending;
use workspace_api::plan::Step;
use workspace_api::realtime::accept_binary;
use workspace_api::realtime::accept_message;
use workspace_api::realtime::decompressed;
use workspace_api::realtime::message_bytes;
use workspace_api::realtime::open_envelope;
use workspace_api::realtime::stream_message_sent;
use workspace_api::realtime::BodyEncoding;
use workspace_api::realtime::MessageStream;
use workspace_api::realtime::Payload;
use workspace_api::reply::ReplyKind;

fn stream() -> MessageStream {
    match MessageStream::identified::<()>(Some("laptop".to_string()), Ok(12)) {
        Ok(stream) => stream,
        Err(_) => panic!("refused"),
    }
}

#[test]
fn a_posted_body_is_put_together() {
    let mut stream = stream();
    for piece in [b"ab".to_vec(), vec![], b"c".to_vec()] {
        stream = match stream.receive::<()>(Ok(piece)) {
            Ok(stream) => stream,
            Err(_) => panic!("refused"),
        };
    }
    assert_eq!(stream.body(), b"abc");
    let message = stream.into_message("decoded");
    assert_eq!(message.uid, 12);
    assert_eq!(message.device_id, "laptop");
    assert_eq!(message.message, "decoded");
}

#[test]
fn a_failed_item_ends_a_posted_message() {
    assert!(matches!(stream().receive(Err("reset")), Err(Failure::Upstream("reset"))));
}

#[test]
fn an_unknown_sender_ends_a_posted_message() {
    assert!(matches!(
        MessageStream::identified(None, Err("unknown")),
        Err(Failure::Upstream("unknown"))
    ));
}

#[test]
fn a_missing_device_is_empty() {
    match MessageStream::identified::<()>(None, Ok(1)) {
        Ok(stream) => assert_eq!(stream.into_message(()).device_id, ""),
        Err(_) => panic!("refused"),
    }
}

#[test]
fn the_envelope_comes_before_the_headers() {
    let opened = open_envelope(Err("bad field".to_string()), BodyEncoding::Compressed(Err("bad header")));
    assert!(matches!(
        opened,
        Err(Failure::Api(ApiError::Internal(message))) if message == "bad field"
    ));
    let opened = open_envelope(Ok(vec![1]), BodyEncoding::Compressed(Err("bad header")));
    assert!(matches!(opened, Err(Failure::Upstream("bad header"))));
    let opened = open_envelope::<()>(Ok(vec![1]), BodyEncoding::Compressed(Ok(64)));
    assert!(matches!(
        opened,
        Ok(Payload::Compressed { data, buffer_size: 64 }) if data == vec![1]
    ));
    let opened = open_envelope::<()>(Ok(vec![1]), BodyEncoding::Plain);
    assert!(matches!(opened, Ok(Payload::Ready(data)) if data == vec![1]));
}

#[test]
fn every_payload_is_a_binary_message() {
    assert!(matches!(message_bytes(vec![0, 159, 146, 150]), Ok(bytes) if bytes == vec![0, 159, 146, 150]));
    assert!(matches!(message_bytes(vec![]), Ok(bytes) if bytes.is_empty()));
    assert!(matches!(
        accept_binary(Err("Ping([])".to_string())),
        Err(ApiError::InvalidRequest(message)) if message == "Unsupported message type: Ping([])"
    ));
}

#[test]
fn a_failed_decompression_ends_a_posted_message() {
    assert!(matches!(decompressed::<()>(Ok(vec![4])), Ok(bytes) if bytes == vec![4]));
    assert!(matches!(decompressed(Err("bad data")), Err(Failure::Upstream("bad data"))));
    assert!(matches!(upstream::<u8, &str>(Ok(3)), Ok(3)));
    assert!(matches!(upstream::<u8, &str>(Err("down")), Err(Failure::Upstream("down"))));
}

#[test]
fn a_packed_message_is_read_like_a_plain_one() {
    let unpack = |data: Vec<u8>, size: usize| -> Result<Vec<u8>, &str> {
        if size == 8 {
            Ok(data.into_iter().map(|byte| byte - 1).collect())
        } else {
            Err("wrong size")
        }
    };
    let bytes_of = |data: Vec<u8>, encoding: BodyEncoding<&'static str>| {
        match open_envelope(Ok(data), encoding) {
            Ok(Payload::Ready(data)) => Ok(data),
            Ok(Payload::Compressed { data, buffer_size }) => decompressed(unpack(data, buffer_size)),
            Err(failure) => Err(failure),
        }
    };
    assert!(matches!(bytes_of(vec![1, 2], BodyEncoding::Plain), Ok(bytes) if bytes == vec![1, 2]));
    assert!(matches!(
        bytes_of(vec![2, 3], BodyEncoding::Compressed(Ok(8))),
        Ok(bytes) if bytes == vec![1, 2]
    ));
    assert!(matches!(
        bytes_of(vec![2, 3], BodyEncoding::Compressed(Ok(9))),
        Err(Failure::Upstream("wrong size"))
    ));
}

#[test]
fn bytes_that_hold_no_message_are_refused() {
    assert!(matches!(accept_message(Ok(5)), Ok(5)));
    assert!(matches!(
        accept_message::<u8>(Err("eof".to_string())),
        Err(ApiError::InvalidRequest(message)) if message == "Failed to parse RealtimeMessage: eof"
    ));
}

#[test]
fn a_busy_server_refuses_posted_messages() {
    assert!(stream_message_sent(Ok(())).is_ok());
    assert!(matches!(
        stream_message_sent(Err("full".to_string())),
        Err(ApiError::Internal(message))
            if message == "Failed to send message to websocket server, error:full"
    ));
}

fn json_request() -> CreateRequest {
    match CreateRequest::identified::<()>(Ok(9), BodyEncoding::Plain) {
        Ok(request) => request,
        Err(_) => panic!("refused"),
    }
}

fn compressed_request() -> CreateRequest {
    match CreateRequest::identified::<()>(Ok(9), BodyEncoding::Compressed(Ok(77))) {
        Ok(request) => request,
        Err(_) => panic!("refused"),
    }
}

fn collab(object_id: &str) -> NewCollab<u8> {
    NewCollab {
        workspace_id: "w".to_string(),
        object_id: object_id.to_string(),
        params: 42,
        description: "object 42".to_string(),
    }
}

#[test]
fn the_creator_comes_before_the_headers() {
    assert!(matches!(
        CreateRequest::identified(Err("nobody"), BodyEncoding::Compressed(Err("header"))),
        Err(Failure::Upstream("nobody"))
    ));
    assert!(matches!(
        CreateRequest::identified(Ok(1), BodyEncoding::Compressed(Err("header"))),
        Err(Failure::Upstream("header"))
    ));
    assert!(json_request().source() == BodySource::Json);
    assert!(compressed_request().source() == BodySource::Compressed { buffer_size: 77 });
}

#[test]
fn a_body_without_parameters_is_refused() {
    let refused = json_request().decoded::<u8, ()>(Err(DecodeFailure::Parse("eof".to_string())));
    assert!(matches!(
        refused,
        Err(Failure::Api(ApiError::InvalidRequest(message)))
            if message == "Failed to parse CreateCollabParams from JSON: eof"
    ));
    let refused = compressed_request().decoded::<u8, ()>(Err(DecodeFailure::Parse("eof".to_string())));
    assert!(matches!(
        refused,
        Err(Failure::Api(ApiError::InvalidRequest(message)))
            if message == "Failed to parse CreateCollabParams with brotli decompression data: eof"
    ));
    let refused = compressed_request().decoded::<u8, &str>(Err(DecodeFailure::Decompress("bad")));
    assert!(matches!(refused, Err(Failure::Upstream("bad"))));
}

#[test]
fn an_object_cannot_be_named_like_its_workspace() {
    let refused = json_request().decoded::<u8, ()>(Ok(collab("w")));
    assert!(matches!(
        refused,
        Err(Failure::Api(ApiError::InvalidRequest(message)))
            if message == "object_id cannot be the same as workspace_id"
    ));
}

#[test]
fn an_object_that_is_badly_encoded_is_refused() {
    let draft = match json_request().decoded::<u8, ()>(Ok(collab("o"))) {
        Ok(draft) => draft,
        Err(_) => panic!("refused"),
    };
    assert_eq!(*draft.params(), 42);
    assert!(matches!(
        draft.encoding_checked(Err("no doc".to_string())),
        Err(ApiError::NoRequiredData(message))
            if message == "collab doc state is not correct:o,no doc"
    ));
}

#[test]
fn a_new_object_is_indexed_and_stored() {
    let draft = match compressed_request().decoded::<u8, ()>(Ok(collab("o"))) {
        Ok(draft) => draft,
        Err(_) => panic!("refused"),
    };
    let creation = match draft.encoding_checked(Ok(())) {
        Ok(creation) => creation,
        Err(_) => panic!("refused"),
    };
    assert_eq!(creation.uid, 9);
    assert_eq!(creation.plan.steps.len(), 3);
    assert!(matches!(&creation.plan.steps[0], Step::Index { workspace_id } if workspace_id == "w"));
    assert!(matches!(&creation.plan.steps[1], Step::Begin));
    assert!(matches!(&creation.plan.steps[2], Step::Write));
    assert!(matches!(
        &creation.plan.ending,
        Ending::Commit(Operation::CreateCollab { workspace_id, params: 42, action })
            if workspace_id == "w" && action == "Create new collab: object 42"
    ));
    assert!(matches!(creation.plan.reply, ReplyKind::Empty));
}

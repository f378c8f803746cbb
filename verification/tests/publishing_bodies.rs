//! The body of a request that publishes objects.
use workspace_api::error::ApiError;
use workspace_api::ids::Id;
use workspace_api::publish;
use workspace_api::publish::BodyError;
use workspace_api::publish::NextItem;
use workspace_api::publish::Publication;
use workspace_api::publish::PublishReader;
use workspace_api::publish::MAX_DATA_SIZE;
use workspace_api::publish::MAX_METADATA_SIZE;

fn item(meta: &[u8], data: &[u8]) -> Vec<u8> {
    let mut bytes = (meta.len() as u32).to_le_bytes().to_vec();
    bytes.extend_from_slice(meta);
    bytes.extend_from_slice(&(data.len() as u32).to_le_bytes());
    bytes.extend_from_slice(data);
    bytes
}

fn workspace() -> Id {
    Id { bytes: [1; 16] }
}

fn user() -> Id {
    Id { bytes: [2; 16] }
}

fn read_body(body: &[u8]) -> Result<Publication<Vec<u8>>, BodyError> {
    publish::read_body(workspace(), user(), body)
}

fn refusal<T>(read: Result<T, BodyError>) -> String {
    match read {
        Err(BodyError::Refused(ApiError::InvalidRequest(message))) => message,
        _ => panic!("not refused"),
    }
}

#[test]
fn items_are_read_back_in_order() {
    let mut body = item(b"{}", b"first");
    body.extend(item(b"[1]", b""));
    body.extend([0, 0, 0, 0]);
    body.extend(b"behind the end");
    match read_body(&body) {
        Ok(publication) => {
            let items = publication.items;
            assert_eq!(publication.workspace_id.bytes, [1; 16]);
            assert_eq!(publication.user_uuid.bytes, [2; 16]);
            assert_eq!(items.len(), 2);
            assert_eq!(items[0].meta, b"{}");
            assert_eq!(items[0].data, b"first");
            assert_eq!(items[1].meta, b"[1]");
            assert!(items[1].data.is_empty());
        }
        Err(_) => panic!("not read"),
    }
}

#[test]
fn lengths_are_little_endian() {
    let mut body = vec![2, 1, 0, 0];
    body.extend(vec![b'm'; 258]);
    body.extend([0, 0, 0, 0]);
    body.extend([0, 0, 0, 0]);
    match read_body(&body) {
        Ok(publication) => assert_eq!(publication.items[0].meta.len(), 258),
        Err(_) => panic!("not read"),
    }
}

#[test]
fn a_body_without_items_is_refused() {
    assert_eq!(refusal(read_body(&[0, 0, 0, 0])), "did not receive any data to publish");
}

#[test]
fn large_metadata_is_refused_before_it_is_read() {
    let size = MAX_METADATA_SIZE + 1;
    assert_eq!(refusal(read_body(&size.to_le_bytes())), "metadata too large");
    assert!(matches!(read_body(&MAX_METADATA_SIZE.to_le_bytes()), Err(BodyError::Incomplete)));
    assert_eq!(MAX_METADATA_SIZE, 4194304);
}

#[test]
fn large_data_is_refused_before_it_is_read() {
    let mut body = vec![1, 0, 0, 0, b'm'];
    body.extend((MAX_DATA_SIZE + 1).to_le_bytes());
    assert_eq!(refusal(read_body(&body)), "data too large");
    let mut body = vec![1, 0, 0, 0, b'm'];
    body.extend(MAX_DATA_SIZE.to_le_bytes());
    assert!(matches!(read_body(&body), Err(BodyError::Incomplete)));
    assert_eq!(MAX_DATA_SIZE, 33554432);
}

#[test]
fn a_body_that_ends_early_is_incomplete() {
    let mut body = item(b"meta", b"data");
    for end in 0..body.len() {
        assert!(matches!(read_body(&body[..end]), Err(BodyError::Incomplete)));
    }
    assert!(matches!(read_body(&body), Err(BodyError::Incomplete)));
    body.extend([0, 0, 0, 0]);
    assert!(read_body(&body).is_ok());
}

#[test]
fn metadata_can_be_parsed_on_the_way() {
    let reader = PublishReader::<serde_json::Value>::new(workspace(), user());
    let expected = match reader.metadata_length([4, 0, 0, 0]) {
        Ok(NextItem::Metadata(expected)) => expected,
        _ => panic!("metadata expected"),
    };
    assert_eq!(expected.size(), 4);
    let expected = match expected.metadata(serde_json::Value::Bool(true)).data_length([2, 0, 0, 0]) {
        Ok(expected) => expected,
        Err(_) => panic!("data expected"),
    };
    assert_eq!(expected.size(), 2);
    let reader = expected.data(vec![8, 9]);
    match reader.metadata_length([0, 0, 0, 0]) {
        Ok(NextItem::End(publication)) => {
            let items = publication.items;
            assert_eq!(publication.workspace_id.bytes, [1; 16]);
            assert_eq!(publication.user_uuid.bytes, [2; 16]);
            assert_eq!(items.len(), 1);
            assert_eq!(items[0].meta, serde_json::Value::Bool(true));
            assert_eq!(items[0].data, vec![8, 9]);
        }
        _ => panic!("end expected"),
    }
}

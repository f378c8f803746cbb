//! Bodies made of frames, and batches of objects.
use workspace_api::batch::BatchUpload;
use workspace_api::batch::FrameReport;
use workspace_api::batch::FrameTask;
use workspace_api::error::ApiError;
use workspace_api::error::Failure;
use workspace_api::frames::FrameScanner;
use workspace_api::ids::Id;

fn frame(payload: &[u8]) -> Vec<u8> {
    let mut bytes = (payload.len() as u32).to_be_bytes().to_vec();
    bytes.extend_from_slice(payload);
    bytes
}

fn ok(bytes: &[u8]) -> Result<Vec<u8>, ()> {
    Ok(bytes.to_vec())
}

fn workspace() -> Id {
    Id { bytes: [0x11; 16] }
}

#[test]
fn payloads_are_read_back_in_order() {
    let mut scanner = FrameScanner::new();
    let mut body = frame(b"one");
    body.extend(frame(b""));
    body.extend(frame(b"three"));
    scanner.receive(ok(&body));
    assert_eq!(scanner.frames(), &vec![(4, 3), (11, 0), (15, 5)]);
    assert_eq!(scanner.into_payloads(), vec![b"one".to_vec(), vec![], b"three".to_vec()]);
}

#[test]
fn pieces_need_not_end_with_a_frame() {
    let mut body = frame(b"hello");
    body.extend(frame(&[9; 300]));
    let mut scanner = FrameScanner::new();
    for byte in &body {
        scanner.receive(ok(&[*byte]));
    }
    assert_eq!(scanner.into_payloads(), vec![b"hello".to_vec(), vec![9; 300]]);
}

#[test]
fn lengths_are_big_endian() {
    let mut scanner = FrameScanner::new();
    let mut body = vec![0, 0, 1, 2];
    body.extend(vec![7; 258]);
    scanner.receive(ok(&body));
    assert_eq!(scanner.into_payloads(), vec![vec![7; 258]]);
}

#[test]
fn unfinished_frames_are_dropped() {
    let mut scanner = FrameScanner::new();
    let mut body = frame(b"whole");
    body.extend([0, 0, 0, 9, 1, 2]);
    scanner.receive(ok(&body));
    assert_eq!(scanner.into_payloads(), vec![b"whole".to_vec()]);
    let mut scanner = FrameScanner::new();
    scanner.receive(ok(&[0, 0, 0]));
    assert!(scanner.into_payloads().is_empty());
    let mut scanner = FrameScanner::new();
    scanner.receive(ok(&[255, 255, 255, 255, 1]));
    assert!(scanner.into_payloads().is_empty());
}

#[test]
fn failed_items_are_passed_over() {
    let body = frame(b"abc");
    let mut scanner = FrameScanner::new();
    scanner.receive(ok(&body[..5]));
    scanner.receive(Err::<Vec<u8>, &str>("lost"));
    scanner.receive(ok(&body[5..]));
    assert_eq!(scanner.into_payloads(), vec![b"abc".to_vec()]);
}

#[test]
fn what_arrives_later_leaves_found_frames_alone() {
    let mut scanner = FrameScanner::new();
    scanner.receive(ok(&frame(b"first")));
    let early = scanner.frames().clone();
    scanner.receive(ok(&frame(b"second")));
    assert_eq!(scanner.frames()[..1], early[..]);
    assert_eq!(scanner.frames().len(), 2);
}

#[test]
fn the_sender_of_a_batch_comes_before_its_headers() {
    let refused = BatchUpload::identified(workspace(), Err("no user"), Err("no header"));
    assert!(matches!(refused, Err(Failure::Upstream("no user"))));
    let refused = BatchUpload::identified(workspace(), Ok(5), Err("no header"));
    assert!(matches!(refused, Err(Failure::Upstream("no header"))));
}

fn upload(body: &[u8]) -> BatchUpload {
    let mut upload = match BatchUpload::identified::<()>(workspace(), Ok(5), Ok(1024)) {
        Ok(upload) => upload,
        Err(_) => panic!("refused"),
    };
    upload.receive(ok(body));
    upload
}

#[test]
fn a_batch_has_one_task_per_frame() {
    let mut body = frame(b"one");
    body.extend(frame(b"two"));
    let (work, tasks) = upload(&body).finish::<u8>();
    assert_eq!(work.buffer_size(), 1024);
    assert_eq!(tasks.len(), 2);
    assert!(matches!(&tasks[0], FrameTask::Decompress(data) if data == b"one"));
    assert!(matches!(&tasks[1], FrameTask::Decompress(data) if data == b"two"));
}

#[test]
fn a_frame_that_passes_every_step_is_kept() {
    let task: FrameTask<u8> = FrameTask::Decompress(vec![1]);
    let task = task.reported(FrameReport::Bytes(vec![2]));
    assert!(matches!(&task, FrameTask::Parse(bytes) if bytes == &vec![2]));
    let task = task.reported(FrameReport::Params(3));
    assert!(matches!(task, FrameTask::Validate(3)));
    let task = task.reported(FrameReport::Passed);
    assert!(matches!(task, FrameTask::CheckEncoding(3)));
    let task = task.reported(FrameReport::Passed);
    assert!(matches!(task, FrameTask::Kept(3)));
    assert_eq!(task.into_verdict(), Some(3));
    assert_eq!(FrameTask::<u8>::Dropped.into_verdict(), None);
}

#[test]
fn a_frame_that_fails_a_step_is_dropped() {
    let start = || FrameTask::<u8>::Decompress(vec![1]);
    assert!(matches!(start().reported(FrameReport::Failed), FrameTask::Dropped));
    let parse = start().reported(FrameReport::Bytes(vec![2]));
    assert!(matches!(parse.reported(FrameReport::Failed), FrameTask::Dropped));
    let validate = FrameTask::<u8>::Validate(3);
    assert!(matches!(validate.reported(FrameReport::Failed), FrameTask::Dropped));
    let check = FrameTask::<u8>::CheckEncoding(3);
    assert!(matches!(check.reported(FrameReport::Failed), FrameTask::Dropped));
    let dropped = FrameTask::<u8>::Dropped;
    assert!(matches!(dropped.reported(FrameReport::Passed), FrameTask::Dropped));
}

#[test]
fn a_batch_stores_what_was_kept_in_order() {
    let (work, _) = upload(&frame(b"x")).finish::<u8>();
    let settled = work.settle::<u8, ()>(Ok(vec![None, Some(4), None, Some(2), Some(4)]));
    match settled {
        Ok(batch) => {
            assert_eq!(batch.workspace_id, "11111111-1111-1111-1111-111111111111");
            assert_eq!(batch.uid, 5);
            assert_eq!(batch.collabs, vec![4, 2, 4]);
        }
        Err(_) => panic!("refused"),
    }
}

#[test]
fn a_batch_without_objects_is_refused() {
    let (work, _) = upload(&[]).finish::<u8>();
    assert!(matches!(
        work.settle::<u8, ()>(Ok(vec![None, None])),
        Err(ApiError::InvalidRequest(message)) if message == "Empty collab params list"
    ));
    let (work, tasks) = upload(&[]).finish::<u8>();
    assert!(tasks.is_empty());
    assert!(matches!(
        work.settle::<u8, ()>(Ok(vec![])),
        Err(ApiError::InvalidRequest(message)) if message == "Empty collab params list"
    ));
}

#[test]
fn a_batch_whose_work_broke_down_is_refused() {
    let (work, _) = upload(&[]).finish::<u8>();
    assert!(matches!(
        work.settle::<u8, &str>(Err("panicked")),
        Err(ApiError::InvalidRequest(message)) if message == "Failed to decompress data"
    ));
}

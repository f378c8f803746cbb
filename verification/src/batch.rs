//! Creating many collaborative objects with one request.
//!
//! The body is a run of frames, each with one compressed object. [`BatchUpload`] takes the body in,
//! [`FrameTask`] says what is done with one frame, and [`BatchUpload::finish`] and
//! [`BatchWork::settle`] lead to what is stored. `C` is the type of an object's parameters.
use vstd::prelude::*;

use crate::error::ApiError;
use crate::error::Failure;
use crate::error::Problem;
use crate::frames::payloads_in;
use crate::frames::FrameScanner;
use crate::ids::Id;

verus! {

/// A batch whose sender is known and whose body is arriving.
pub struct BatchUpload {
    uid: i64,
    workspace_id: Id,
    buffer_size: usize,
    scanner: FrameScanner,
}

/// What is still to be done for a batch whose body has arrived.
pub struct BatchWork {
    uid: i64,
    workspace_id: Id,
    buffer_size: usize,
}

/// What the storage is given for a batch.
pub struct BatchInsert<C> {
    pub workspace_id: String,
    pub uid: i64,
    pub collabs: Vec<C>,
}

/// What is to be done next with the payload of one frame.
pub enum FrameTask<C> {
    /// Decompress these bytes.
    Decompress(Vec<u8>),
    /// Parse the parameters that these bytes hold.
    Parse(Vec<u8>),
    /// Validate the fields of these parameters.
    Validate(C),
    /// Check that the object in these parameters is encoded properly.
    CheckEncoding(C),
    /// Nothing: these parameters are kept.
    Kept(C),
    /// Nothing: the frame is dropped.
    Dropped,
}

/// What the step that a task asked for has come to.
pub enum FrameReport<C> {
    /// It gave these bytes.
    Bytes(Vec<u8>),
    /// It gave these parameters.
    Params(C),
    /// It found nothing wrong.
    Passed,
    /// It failed.
    Failed,
}

impl<C> FrameTask<C> {
    /// The task behind this one: a report other than the one asked for drops the frame, and
    /// parameters that passed every step are kept as they were parsed.
    pub open spec fn task_after(self, report: FrameReport<C>) -> FrameTask<C> {
        match (self, report) {
            (FrameTask::Decompress(_), FrameReport::Bytes(bytes)) => FrameTask::Parse(bytes),
            (FrameTask::Parse(_), FrameReport::Params(params)) => FrameTask::Validate(params),
            (FrameTask::Validate(params), FrameReport::Passed) => FrameTask::CheckEncoding(params),
            (FrameTask::CheckEncoding(params), FrameReport::Passed) => FrameTask::Kept(params),
            _ => FrameTask::Dropped,
        }
    }

    /// Goes on to the next task.
    pub fn reported(self, report: FrameReport<C>) -> (next: FrameTask<C>)
        ensures
            next == self.task_after(report),
            match (self, report) {
                (FrameTask::Decompress(_), FrameReport::Bytes(bytes)) => next
                    == FrameTask::<C>::Parse(bytes),
                (FrameTask::Parse(_), FrameReport::Params(params)) => next == FrameTask::Validate(
                    params,
                ),
                (FrameTask::Validate(params), FrameReport::Passed) => next
                    == FrameTask::CheckEncoding(params),
                (FrameTask::CheckEncoding(params), FrameReport::Passed) => next == FrameTask::Kept(
                    params,
                ),
                _ => next is Dropped,
            },
    {
        match (self, report) {
            (FrameTask::Decompress(_), FrameReport::Bytes(bytes)) => FrameTask::Parse(bytes),
            (FrameTask::Parse(_), FrameReport::Params(params)) => FrameTask::Validate(params),
            (FrameTask::Validate(params), FrameReport::Passed) => FrameTask::CheckEncoding(params),
            (FrameTask::CheckEncoding(params), FrameReport::Passed) => FrameTask::Kept(params),
            _ => FrameTask::Dropped,
        }
    }

    /// What has become of the frame: the parameters that are kept, if there are any.
    pub open spec fn verdict(self) -> Option<C> {
        match self {
            FrameTask::Kept(params) => Some(params),
            _ => None,
        }
    }

    /// What has become of the frame.
    pub fn into_verdict(self) -> (verdict: Option<C>)
        ensures
            verdict == self.verdict(),
            self matches FrameTask::Kept(params) ==> verdict == Some(params),
            self !is Kept ==> verdict is None,
    {
        match self {
            FrameTask::Kept(params) => Some(params),
            _ => None,
        }
    }
}

/// The task that a run of reports leads to.
pub open spec fn task_after_all<C>(task: FrameTask<C>, reports: Seq<FrameReport<C>>) -> FrameTask<C>
    decreases reports.len(),
{
    if reports.len() == 0 {
        task
    } else {
        task_after_all(task.task_after(reports[0]), reports.drop_first())
    }
}

/// A frame is kept only as a whole: exactly when it was decompressed, then parsed, then validated,
/// then found properly encoded, and what is kept is what was parsed.
pub proof fn kept_means_every_step_passed<C>(
    payload: Vec<u8>,
    reports: Seq<FrameReport<C>>,
    params: C,
)
    ensures
        task_after_all(FrameTask::Decompress(payload), reports) == FrameTask::Kept(params) <==> {
            &&& reports.len() == 4
            &&& reports[0] is Bytes
            &&& reports[1] == FrameReport::Params(params)
            &&& reports[2] is Passed
            &&& reports[3] is Passed
        },
{
    reveal_with_fuel(task_after_all, 6);
    let start = FrameTask::<C>::Decompress(payload);
    if reports.len() >= 1 {
        let r1 = reports.drop_first();
        if reports.len() >= 2 {
            let r2 = r1.drop_first();
            assert(r1[0] == reports[1]);
            if reports.len() >= 3 {
                let r3 = r2.drop_first();
                assert(r2[0] == reports[2]);
                if reports.len() >= 4 {
                    let r4 = r3.drop_first();
                    assert(r3[0] == reports[3]);
                    let fourth = start.task_after(reports[0]).task_after(reports[1]).task_after(
                        reports[2],
                    ).task_after(reports[3]);
                    assert(task_after_all(start, reports) == task_after_all(fourth, r4));
                    if r4.len() > 0 {
                        assert(fourth.task_after(r4[0]) == FrameTask::<C>::Dropped);
                        lemma_dropped_stays_dropped::<C>(r4.drop_first());
                    }
                }
            }
        }
    }
}

proof fn lemma_dropped_stays_dropped<C>(reports: Seq<FrameReport<C>>)
    ensures
        task_after_all(FrameTask::Dropped, reports) == FrameTask::<C>::Dropped,
    decreases reports.len(),
{
    if reports.len() > 0 {
        lemma_dropped_stays_dropped(reports.drop_first());
    }
}

/// The parameters that were kept, in the order of their frames.
pub open spec fn kept<C>(verdicts: Seq<Option<C>>) -> Seq<C>
    decreases verdicts.len(),
{
    if verdicts.len() == 0 {
        Seq::empty()
    } else {
        match verdicts.last() {
            Some(params) => kept(verdicts.drop_last()).push(params),
            None => kept(verdicts.drop_last()),
        }
    }
}

/// The parameters that were kept.
fn keep<C>(verdicts: Vec<Option<C>>) -> (params: Vec<C>)
    ensures
        params@ == kept(verdicts@),
{
    let mut params: Vec<C> = Vec::new();
    let ghost all = verdicts@;
    for verdict in iter: verdicts
        invariant
            iter.seq() == all,
            params@ == kept(all.take(iter.index() as int)),
    {
        proof {
            let seen = iter.index() as int;
            assert(all.take(seen + 1).drop_last() =~= all.take(seen));
            assert(all.take(seen + 1).last() == verdict);
        }
        if let Some(one) = verdict {
            params.push(one);
        }
    }
    assert(all.take(all.len() as int) =~= all);
    params
}

impl BatchUpload {
    pub closed spec fn wf(&self) -> bool {
        self.scanner.wf()
    }

    pub closed spec fn sender(&self) -> i64 {
        self.uid
    }

    pub closed spec fn workspace(&self) -> Id {
        self.workspace_id
    }

    pub closed spec fn buffer(&self) -> usize {
        self.buffer_size
    }

    /// The bytes of the body that have arrived.
    pub closed spec fn arrived(&self) -> Seq<u8> {
        self.scanner@
    }

    /// Starts to take in a batch once the sender's number has been asked for and the header that
    /// says how frames are compressed has been read. The sender comes first.
    pub fn identified<E>(
        workspace_id: Id,
        uid: Result<i64, E>,
        buffer_size: Result<usize, E>,
    ) -> (upload: Result<BatchUpload, Failure<E>>)
        ensures
            match (uid, buffer_size) {
                (Err(error), _) => upload == Err::<BatchUpload, Failure<E>>(
                    Failure::Upstream(error),
                ),
                (Ok(_), Err(error)) => upload == Err::<BatchUpload, Failure<E>>(
                    Failure::Upstream(error),
                ),
                (Ok(uid), Ok(buffer_size)) => upload matches Ok(upload) && {
                    &&& upload.wf()
                    &&& upload.sender() == uid
                    &&& upload.workspace() == workspace_id
                    &&& upload.buffer() == buffer_size
                    &&& upload.arrived().len() == 0
                },
            },
    {
        match uid {
            Err(error) => Err(Failure::Upstream(error)),
            Ok(uid) => match buffer_size {
                Err(error) => Err(Failure::Upstream(error)),
                Ok(buffer_size) => Ok(
                    BatchUpload { uid, workspace_id, buffer_size, scanner: FrameScanner::new() },
                ),
            },
        }
    }

    /// Takes in the next item of the body's stream. An item that failed to arrive is passed over.
    pub fn receive<E>(&mut self, item: Result<Vec<u8>, E>)
        requires
            old(self).wf(),
        ensures
            final(self).wf(),
            final(self).sender() == old(self).sender(),
            final(self).workspace() == old(self).workspace(),
            final(self).buffer() == old(self).buffer(),
            match item {
                Ok(bytes) => final(self).arrived() == old(self).arrived() + bytes@,
                Err(_) => final(self).arrived() == old(self).arrived(),
            },
    {
        self.scanner.receive(item);
    }

    /// Ends the body: one task for the payload of each whole frame, in the order of the body.
    pub fn finish<C>(self) -> (finished: (BatchWork, Vec<FrameTask<C>>))
        requires
            self.wf(),
        ensures
            finished.0.sender() == self.sender(),
            finished.0.workspace() == self.workspace(),
            finished.0.buffer() == self.buffer(),
            finished.1@.len() == payloads_in(self.arrived()).len(),
            forall|i: int|
                #![trigger finished.1@[i]]
                0 <= i < finished.1@.len() ==> {
                    &&& finished.1@[i] matches FrameTask::Decompress(payload)
                    &&& payload@ == payloads_in(self.arrived())[i]
                },
    {
        let ghost expected = payloads_in(self.scanner@);
        let payloads = self.scanner.into_payloads();
        let ghost all = payloads@;
        assert(all.map_values(|payload: Vec<u8>| payload@) == expected);
        let mut tasks: Vec<FrameTask<C>> = Vec::new();
        for payload in iter: payloads
            invariant
                iter.seq() == all,
                tasks@.len() == iter.index(),
                forall|i: int|
                    0 <= i < tasks@.len() ==> #[trigger] tasks@[i] == FrameTask::<C>::Decompress(
                        all[i],
                    ),
        {
            tasks.push(FrameTask::Decompress(payload));
        }
        assert(tasks@.len() == all.len());
        assert forall|i: int| #![trigger tasks@[i]] 0 <= i < tasks@.len() implies {
            &&& tasks@[i] matches FrameTask::Decompress(payload)
            &&& payload@ == expected[i]
        } by {
            assert(all.map_values(|payload: Vec<u8>| payload@)[i] == all[i]@);
        }
        let work = BatchWork {
            uid: self.uid,
            workspace_id: self.workspace_id,
            buffer_size: self.buffer_size,
        };
        (work, tasks)
    }
}

impl BatchWork {
    pub closed spec fn sender(&self) -> i64 {
        self.uid
    }

    pub closed spec fn workspace(&self) -> Id {
        self.workspace_id
    }

    pub closed spec fn buffer(&self) -> usize {
        self.buffer_size
    }

    /// The size of the buffer that decompressing a frame takes.
    pub fn buffer_size(&self) -> (size: usize)
        ensures
            size == self.buffer(),
    {
        self.buffer_size
    }

    /// What is stored once the work on the frames is over. `verdicts` holds, for each frame, the
    /// parameters that were kept, or nothing; it is an error when the work broke down. A batch of
    /// which nothing is kept is refused.
    pub fn settle<C, E>(self, verdicts: Result<Vec<Option<C>>, E>) -> (insert: Result<
        BatchInsert<C>,
        ApiError,
    >)
        ensures
            match verdicts {
                Err(_) => insert matches Err(error) && error@ == Problem::InvalidRequest(
                    "Failed to decompress data"@,
                ),
                Ok(verdicts) => if kept(verdicts@).len() == 0 {
                    insert matches Err(error) && error@ == Problem::InvalidRequest(
                        "Empty collab params list"@,
                    )
                } else {
                    insert matches Ok(insert) && {
                        &&& insert.workspace_id@ == self.workspace().spec_text()
                        &&& insert.uid == self.sender()
                        &&& insert.collabs@ == kept(verdicts@)
                    }
                },
            },
    {
        match verdicts {
            Err(_) => Err(ApiError::InvalidRequest("Failed to decompress data".to_owned())),
            Ok(verdicts) => {
                let collabs = keep(verdicts);
                if collabs.len() == 0 {
                    return Err(ApiError::InvalidRequest("Empty collab params list".to_owned()));
                }
                Ok(BatchInsert { workspace_id: self.workspace_id.text(), uid: self.uid, collabs })
            },
        }
    }
}

/// What is kept of a batch comes from its frames in their order: keeping goes on frame by frame,
/// and a dropped frame leaves no trace.
pub proof fn kept_is_split_by_frames<C>(first: Seq<Option<C>>, second: Seq<Option<C>>)
    ensures
        kept(first + second) == kept(first) + kept(second),
    decreases second.len(),
{
    if second.len() == 0 {
        assert(first + second =~= first);
        assert(kept(first) + kept(second) =~= kept(first));
    } else {
        kept_is_split_by_frames(first, second.drop_last());
        assert((first + second).drop_last() =~= first + second.drop_last());
        assert((first + second).last() == second.last());
        assert(kept(first + second) =~= kept(first) + kept(second));
    }
}

/// A frame that is kept leaves its parameters, and one that is not leaves nothing.
pub proof fn one_frame_is_kept_or_not<C>(params: C)
    ensures
        kept(seq![Some(params)]) == seq![params],
        kept(seq![None::<C>]) == Seq::<C>::empty(),
        kept(Seq::<Option<C>>::empty()) == Seq::<C>::empty(),
{
    reveal_with_fuel(kept, 3);
    let one = seq![Some(params)];
    let no = seq![None::<C>];
    assert(one.drop_last() =~= Seq::<Option<C>>::empty());
    assert(no.drop_last() =~= Seq::<Option<C>>::empty());
    assert(kept(one) =~= seq![params]);
}

/// Nothing is kept that was not parsed from some frame and passed: whatever is kept is the verdict
/// of a frame, and every verdict that keeps something is among what is kept.
pub proof fn what_is_kept_are_the_verdicts<C>(verdicts: Seq<Option<C>>, params: C)
    ensures
        kept(verdicts).contains(params) <==> verdicts.contains(Some(params)),
        kept(verdicts).len() <= verdicts.len(),
    decreases verdicts.len(),
{
    if verdicts.len() > 0 {
        let before = verdicts.drop_last();
        what_is_kept_are_the_verdicts(before, params);
        let last = verdicts.len() - 1;
        if verdicts.contains(Some(params)) {
            let i = choose|i: int| 0 <= i < verdicts.len() && verdicts[i] == Some(params);
            if i < last {
                assert(before[i] == Some(params));
                assert(before.contains(Some(params)));
                let k = choose|k: int| 0 <= k < kept(before).len() && kept(before)[k] == params;
                assert(kept(verdicts)[k] == params);
            } else {
                assert(kept(verdicts)[kept(before).len() as int] == params);
            }
        }
        if kept(verdicts).contains(params) {
            let k = choose|k: int| 0 <= k < kept(verdicts).len() && kept(verdicts)[k] == params;
            if k < kept(before).len() {
                assert(kept(before)[k] == params);
                assert(kept(before).contains(params));
                let i = choose|i: int| 0 <= i < before.len() && before[i] == Some(params);
                assert(verdicts[i] == Some(params));
            } else {
                assert(verdicts[last] == Some(params));
            }
        }
    }
}

} // verus!

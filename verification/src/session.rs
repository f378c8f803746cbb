//! Carrying out a plan.
//!
//! A [`Session`] says what the services behind this one are to be asked next ([`Session::ask`]) and
//! is told what came of it ([`Session::answer`]), until there is a reply or a refusal. The first
//! failure ends the request.
use vstd::prelude::*;

use crate::error::ApiError;
use crate::error::Failure;
use crate::error::Problem;
use crate::ids::hyphenated;
use crate::ids::Id;
use crate::operation::no_facts;
use crate::operation::Facts;
use crate::operation::Operation;
use crate::plan::covers;
use crate::plan::lemma_runs_three;
use crate::plan::lemma_runs_two;
use crate::plan::runs;
use crate::plan::with_permission;
use crate::plan::with_role;
use crate::plan::Ending;
use crate::plan::MemberChange;
use crate::plan::Permission;
use crate::plan::Plan;
use crate::plan::Step;
use crate::plan::Workspace;
use crate::reply::Output;
use crate::reply::Reply;
use crate::reply::ReplyKind;
use crate::reply::Role;
use crate::text::join;
use crate::user::RealtimeUser;

verus! {

/// What has become known while a request is served.
pub struct Known {
    pub caller: Option<Id>,
    pub uid: Option<i64>,
    pub user: Option<RealtimeUser>,
    pub member_uid: Option<i64>,
    pub doc_state: Option<Vec<u8>>,
    /// A transaction has begun.
    pub begun: bool,
    /// The operation has been written in that transaction.
    pub written: bool,
}

impl Known {
    /// Which facts are known.
    pub open spec fn facts(&self) -> Facts {
        Facts {
            caller: self.caller is Some,
            uid: self.uid is Some,
            user: self.user is Some,
            member: self.member_uid is Some,
            doc_state: self.doc_state is Some,
            begun: self.begun,
            written: self.written,
        }
    }

    /// Which facts are known.
    pub fn known_facts(&self) -> (facts: Facts)
        ensures
            facts == self.facts(),
    {
        Facts {
            caller: self.caller.is_some(),
            uid: self.uid.is_some(),
            user: self.user.is_some(),
            member: self.member_uid.is_some(),
            doc_state: self.doc_state.is_some(),
            begun: self.begun,
            written: self.written,
        }
    }

    /// What is known of a request at its start: the caller, if there is one.
    pub fn of_caller(caller: Option<Id>) -> (known: Known)
        ensures
            known == (Known {
                caller,
                uid: None,
                user: None,
                member_uid: None,
                doc_state: None,
                begun: false,
                written: false,
            }),
    {
        Known {
            caller,
            uid: None,
            user: None,
            member_uid: None,
            doc_state: None,
            begun: false,
            written: false,
        }
    }

    /// What is known of a request whose caller's number has been looked up already.
    pub fn of_user(caller: Id, uid: i64) -> (known: Known)
        ensures
            known == (Known {
                caller: Some(caller),
                uid: Some(uid),
                user: None,
                member_uid: None,
                doc_state: None,
                begun: false,
                written: false,
            }),
    {
        Known {
            caller: Some(caller),
            uid: Some(uid),
            user: None,
            member_uid: None,
            doc_state: None,
            begun: false,
            written: false,
        }
    }
}

/// What the services are to be asked next.
#[allow(inconsistent_fields)]
pub enum Ask<'a, P> {
    VerifyToken,
    ReadCaller,
    ValidatePayload,
    ResolveUid { user_uuid: Id },
    EnforcePermission { uid: i64, workspace_id: String, permission: Permission },
    EnforceRole { uid: i64, workspace_id: String, role: Role },
    EnforceCollabPermission {
        workspace_id: String,
        uid: i64,
        object_id: String,
        permission: Permission,
    },
    BuildUser { uid: i64 },
    CollabExists { workspace_id: &'a String, object_id: &'a String },
    FindMember { email: &'a String },
    CanIndex { workspace_id: &'a String },
    Index { workspace_id: &'a String, operation: &'a Operation<P> },
    FetchDocState { uid: i64, operation: &'a Operation<P>, from_editing_collab: bool },
    /// Begin a transaction.
    Begin,
    /// Perform the operation inside the transaction.
    Write { known: &'a Known, operation: &'a Operation<P> },
    /// Commit the transaction.
    Commit,
    Perform { known: &'a Known, operation: &'a Operation<P> },
    /// Nothing: the request can be concluded.
    Conclude,
}

/// What came of an ask. `E` is the error of a service.
pub enum Answer<P, E> {
    /// It succeeded, with nothing to tell.
    Done,
    Caller(Id),
    Uid(i64),
    User(RealtimeUser),
    MemberUid(i64),
    Choice(bool),
    DocState(Vec<u8>),
    /// The transaction has begun.
    Begun,
    /// The operation has been written inside the transaction.
    Written,
    Output(Output<P>),
    Failed(E),
}

/// What follows from an answer.
pub enum Turn<P, E> {
    /// There is more to ask.
    Continue(Session<P>),
    /// The request is over, with this reply.
    Reply(Reply<P>),
    /// The request is over, with this refusal.
    Refuse(Failure<E>),
}

/// A request that is being served.
pub struct Session<P> {
    pub known: Known,
    pub steps: Vec<Step>,
    /// How many of the steps have succeeded.
    pub next: usize,
    /// The object may be indexed, and that is what is asked for.
    pub indexing: bool,
    pub ending: Ending<P>,
    pub reply: ReplyKind,
}

/// What a change to the members of an object is refused with when the object does not exist.
pub open spec fn missing_collab(change: MemberChange, object_id: Seq<char>) -> Problem {
    let what = match change {
        MemberChange::Insert => "Fail to insert collab member. The Collab with object_id "@,
        MemberChange::Update => "Fail to update collab member. The Collab with object_id "@,
    };
    Problem::RecordNotFound(what + object_id + " does not exist"@)
}

/// The refusal of a change to the members of an object that does not exist.
fn refuse_missing_collab(change: MemberChange, object_id: &str) -> (error: ApiError)
    ensures
        error@ == missing_collab(change, object_id@),
{
    let what = match change {
        MemberChange::Insert => "Fail to insert collab member. The Collab with object_id ",
        MemberChange::Update => "Fail to update collab member. The Collab with object_id ",
    };
    ApiError::RecordNotFound(join(what, object_id).concat(" does not exist"))
}

/// What is known after an answer.
pub open spec fn learned<P, E>(known: Known, answer: Answer<P, E>) -> Known {
    match answer {
        Answer::Caller(caller) => Known { caller: Some(caller), ..known },
        Answer::Uid(uid) => Known { uid: Some(uid), ..known },
        Answer::User(user) => Known { user: Some(user), ..known },
        Answer::MemberUid(uid) => Known { member_uid: Some(uid), ..known },
        Answer::DocState(doc_state) => Known { doc_state: Some(doc_state), ..known },
        Answer::Begun => Known { begun: true, ..known },
        Answer::Written => Known { written: true, ..known },
        _ => known,
    }
}

/// What is known after an answer.
fn learn<P, E>(known: Known, answer: Answer<P, E>) -> (after: Known)
    ensures
        after == learned(known, answer),
{
    match answer {
        Answer::Caller(caller) => Known { caller: Some(caller), ..known },
        Answer::Uid(uid) => Known { uid: Some(uid), ..known },
        Answer::User(user) => Known { user: Some(user), ..known },
        Answer::MemberUid(uid) => Known { member_uid: Some(uid), ..known },
        Answer::DocState(doc_state) => Known { doc_state: Some(doc_state), ..known },
        Answer::Begun => Known { begun: true, ..known },
        Answer::Written => Known { written: true, ..known },
        _ => known,
    }
}

impl<P> Session<P> {
    /// What is left to do finds what it takes.
    pub open spec fn wf(&self) -> bool {
        &&& self.next <= self.steps@.len()
        &&& runs(self.steps@.skip(self.next as int), self.ending, self.known.facts())
        &&& self.indexing ==> self.next < self.steps@.len() && self.step() is Index
    }

    /// All steps have succeeded.
    pub open spec fn at_end(&self) -> bool {
        self.next == self.steps@.len()
    }

    /// The step that is being carried out.
    pub open spec fn step(&self) -> Step {
        self.steps@[self.next as int]
    }

    /// Starts to serve a request.
    pub fn start(plan: Plan<P>, known: Known) -> (session: Session<P>)
        requires
            plan.runs(known.facts()),
        ensures
            session.wf(),
            session == (Session {
                known,
                steps: plan.steps,
                next: 0,
                indexing: false,
                ending: plan.ending,
                reply: plan.reply,
            }),
    {
        assert(plan.steps@.skip(0) =~= plan.steps@);
        Session {
            known,
            steps: plan.steps,
            next: 0,
            indexing: false,
            ending: plan.ending,
            reply: plan.reply,
        }
    }

    /// `ask` is what is to be asked next.
    pub open spec fn asks(&self, ask: Ask<'_, P>) -> bool {
        if self.at_end() {
            match self.ending {
                Ending::Perform(performed) => ask matches Ask::Perform { known, operation }
                    && *known == self.known && *operation == performed,
                Ending::Commit(_) => ask is Commit,
                _ => ask is Conclude,
            }
        } else {
            self.asks_for_step(self.step(), ask)
        }
    }

    /// `ask` is what carries out `step`.
    pub open spec fn asks_for_step(&self, step: Step, ask: Ask<'_, P>) -> bool {
        match step {
            Step::VerifyToken => ask is VerifyToken,
            Step::ReadCaller => ask is ReadCaller,
            Step::ValidatePayload => ask is ValidatePayload,
            Step::ResolveUid => ask matches Ask::ResolveUid { user_uuid } && Some(user_uuid)
                == self.known.caller,
            Step::RequirePermission { workspace, permission: needed } => ask
                matches Ask::EnforcePermission { uid, workspace_id, permission } && {
                &&& Some(uid) == self.known.uid
                &&& workspace_id@ == workspace.spec_text()
                &&& permission == needed
            },
            Step::RequireRole { workspace, role: needed } => ask matches Ask::EnforceRole {
                uid,
                workspace_id,
                role,
            } && {
                &&& Some(uid) == self.known.uid
                &&& workspace_id@ == workspace.spec_text()
                &&& role == needed
            },
            Step::RequireCollabPermission {
                workspace_id: workspace,
                object_id: object,
                permission: needed,
            } => ask matches Ask::EnforceCollabPermission {
                workspace_id,
                uid,
                object_id,
                permission,
            } && {
                &&& workspace_id@ == workspace.spec_text()
                &&& Some(uid) == self.known.uid
                &&& object_id@ == object.spec_text()
                &&& permission == needed
            },
            Step::BuildUser => ask matches Ask::BuildUser { uid } && Some(uid) == self.known.uid,
            Step::RequireCollab { workspace_id: workspace, object_id: object, .. } => ask
                matches Ask::CollabExists { workspace_id, object_id } && *workspace_id == workspace
                && *object_id == object,
            Step::FindMember { email: address } => ask matches Ask::FindMember { email } && *email
                == address,
            Step::Index { workspace_id: workspace } => if self.indexing {
                ask matches Ask::Index { workspace_id, operation } && *workspace_id == workspace
                    && (self.ending == Ending::Perform(*operation) || self.ending
                    == Ending::Commit(*operation))
            } else {
                ask matches Ask::CanIndex { workspace_id } && *workspace_id == workspace
            },
            Step::FetchDocState { from_editing_collab: edited } => ask
                matches Ask::FetchDocState { uid, operation, from_editing_collab } && {
                &&& Some(uid) == self.known.uid
                &&& self.ending == Ending::Perform(*operation)
                &&& from_editing_collab == edited
            },
            Step::Begin => ask is Begin,
            Step::Write => ask matches Ask::Write { known, operation } && *known == self.known
                && self.ending == Ending::Commit(*operation),
        }
    }

    /// What the services are to be asked next. Whatever an operation takes is known by the time it
    /// is asked for.
    pub fn ask(&self) -> (ask: Ask<'_, P>)
        requires
            self.wf(),
        ensures
            self.asks(ask),
            ask matches Ask::Perform { known, operation } ==> covers(
                known.facts(),
                operation.needs(),
            ),
            ask matches Ask::Write { known, operation } ==> known.begun && covers(
                known.facts(),
                operation.needs(),
            ),
            ask is Commit ==> self.known.written,
    {
        proof {
            if !self.at_end() {
                assert(self.steps@.skip(self.next as int)[0] == self.step());
            }
        }
        if self.next == self.steps.len() {
            return match &self.ending {
                Ending::Perform(operation) => Ask::Perform { known: &self.known, operation },
                Ending::Commit(_) => Ask::Commit,
                _ => Ask::Conclude,
            };
        }
        match &self.steps[self.next] {
            Step::VerifyToken => Ask::VerifyToken,
            Step::ReadCaller => Ask::ReadCaller,
            Step::ValidatePayload => Ask::ValidatePayload,
            Step::ResolveUid => Ask::ResolveUid { user_uuid: self.known.caller.unwrap() },
            Step::RequirePermission { workspace, permission } => Ask::EnforcePermission {
                uid: self.known.uid.unwrap(),
                workspace_id: workspace.text(),
                permission: *permission,
            },
            Step::RequireRole { workspace, role } => Ask::EnforceRole {
                uid: self.known.uid.unwrap(),
                workspace_id: workspace.text(),
                role: *role,
            },
            Step::RequireCollabPermission { workspace_id, object_id, permission } =>
                Ask::EnforceCollabPermission {
                workspace_id: workspace_id.text(),
                uid: self.known.uid.unwrap(),
                object_id: object_id.text(),
                permission: *permission,
            },
            Step::BuildUser => Ask::BuildUser { uid: self.known.uid.unwrap() },
            Step::RequireCollab { workspace_id, object_id, .. } => Ask::CollabExists {
                workspace_id,
                object_id,
            },
            Step::FindMember { email } => Ask::FindMember { email },
            Step::Index { workspace_id } => {
                if !self.indexing {
                    return Ask::CanIndex { workspace_id };
                }
                match &self.ending {
                    Ending::Perform(operation) => Ask::Index { workspace_id, operation },
                    Ending::Commit(operation) => Ask::Index { workspace_id, operation },
                    _ => Ask::Conclude,
                }
            },
            Step::FetchDocState { from_editing_collab } => match &self.ending {
                Ending::Perform(operation) => Ask::FetchDocState {
                    uid: self.known.uid.unwrap(),
                    operation,
                    from_editing_collab: *from_editing_collab,
                },
                _ => Ask::Conclude,
            },
            Step::Begin => Ask::Begin,
            Step::Write => match &self.ending {
                Ending::Commit(operation) => Ask::Write { known: &self.known, operation },
                _ => Ask::Conclude,
            },
        }
    }

    /// The answer can be that to what is asked.
    pub open spec fn fits<E>(&self, answer: Answer<P, E>) -> bool {
        answer is Failed || if self.at_end() {
            match self.ending {
                Ending::Perform(_) => answer matches Answer::Output(output) && self.reply.fits(output),
                _ => answer is Done,
            }
        } else {
            match self.step() {
                Step::ReadCaller => answer is Caller,
                Step::ResolveUid => answer is Uid,
                Step::BuildUser => answer matches Answer::User(user) && Some(user.uid)
                    == self.known.uid,
                Step::RequireCollab { .. } => answer is Choice,
                Step::FindMember { .. } => answer is MemberUid,
                Step::FetchDocState { .. } => answer is DocState,
                Step::Begin => answer is Begun,
                Step::Write => answer is Written,
                Step::Index { .. } => if self.indexing {
                    answer is Done
                } else {
                    answer is Choice
                },
                _ => answer is Done,
            }
        }
    }

    /// Whether the answer can be that to what is asked.
    pub fn accepts<E>(&self, answer: &Answer<P, E>) -> (fits: bool)
        requires
            self.wf(),
        ensures
            fits == self.fits(*answer),
    {
        if let Answer::Failed(_) = answer {
            return true;
        }
        if self.next == self.steps.len() {
            return match &self.ending {
                Ending::Perform(_) => match answer {
                    Answer::Output(output) => self.reply.takes(output),
                    _ => false,
                },
                _ => matches!(answer, Answer::Done),
            };
        }
        match &self.steps[self.next] {
            Step::ReadCaller => matches!(answer, Answer::Caller(_)),
            Step::ResolveUid => matches!(answer, Answer::Uid(_)),
            Step::BuildUser => match answer {
                Answer::User(user) => match self.known.uid {
                    Some(uid) => user.uid == uid,
                    None => false,
                },
                _ => false,
            },
            Step::RequireCollab { .. } => matches!(answer, Answer::Choice(_)),
            Step::FindMember { .. } => matches!(answer, Answer::MemberUid(_)),
            Step::FetchDocState { .. } => matches!(answer, Answer::DocState(_)),
            Step::Begin => matches!(answer, Answer::Begun),
            Step::Write => matches!(answer, Answer::Written),
            Step::Index { .. } => if self.indexing {
                matches!(answer, Answer::Done)
            } else {
                matches!(answer, Answer::Choice(_))
            },
            _ => matches!(answer, Answer::Done),
        }
    }

    /// The answer says that the object whose member is changed does not exist.
    pub open spec fn collab_missing<E>(&self, answer: Answer<P, E>) -> bool {
        !self.at_end() && self.step() is RequireCollab && answer == Answer::<P, E>::Choice(false)
    }

    /// The answer lets the request go on.
    pub open spec fn goes_on<E>(&self, answer: Answer<P, E>) -> bool {
        !self.at_end() && answer !is Failed && !self.collab_missing(answer)
    }

    /// The session behind an answer that lets the request go on. An object that may be indexed is
    /// indexed before the next step.
    pub open spec fn after<E>(self, answer: Answer<P, E>) -> Session<P> {
        if self.step() is Index && !self.indexing && answer == Answer::<P, E>::Choice(true) {
            Session { indexing: true, ..self }
        } else {
            Session {
                known: learned(self.known, answer),
                next: (self.next + 1) as usize,
                indexing: false,
                ..self
            }
        }
    }

    /// `turn` concludes the request once all steps have succeeded.
    pub open spec fn concludes<E>(&self, answer: Answer<P, E>, turn: Turn<P, E>) -> bool {
        match self.ending {
            Ending::Refuse(error) => turn == Turn::<P, E>::Refuse(Failure::Api(error)),
            Ending::Reply | Ending::Commit(_) => turn == Turn::<P, E>::Reply(Reply::Empty),
            Ending::Perform(_) => match self.reply.problem(answer->Output_0) {
                Some(problem) => turn matches Turn::Refuse(failure) && failure.is_api(problem),
                None => turn matches Turn::Reply(reply) && self.reply.answers(
                    answer->Output_0,
                    reply,
                ),
            },
        }
    }

    /// `turn` is what follows from `answer`: a failure ends the request with exactly that failure,
    /// and so does an object that is missing; otherwise the request goes on to the next step, or is
    /// concluded behind the last one.
    pub open spec fn follows<E>(self, answer: Answer<P, E>, turn: Turn<P, E>) -> bool {
        &&& answer matches Answer::Failed(error) ==> turn == Turn::<P, E>::Refuse(
            Failure::Upstream(error),
        )
        &&& self.goes_on(answer) ==> turn == Turn::<P, E>::Continue(self.after(answer))
            && self.after(answer).wf()
        &&& self.collab_missing(answer) ==> (turn matches Turn::Refuse(failure) && failure.is_api(
            missing_collab(self.step()->change, self.step()->RequireCollab_object_id@),
        ))
        &&& self.at_end() && answer !is Failed ==> self.concludes(answer, turn)
    }

    /// Takes in what came of the last ask.
    pub fn answer<E>(self, answer: Answer<P, E>) -> (turn: Turn<P, E>)
        requires
            self.wf(),
            self.fits(answer),
        ensures
            self.follows(answer, turn),
    {
        let answer = match answer {
            Answer::Failed(error) => {
                return Turn::Refuse(Failure::Upstream(error));
            },
            other => other,
        };
        if self.next == self.steps.len() {
            return match self.ending {
                Ending::Refuse(error) => Turn::Refuse(Failure::Api(error)),
                Ending::Reply | Ending::Commit(_) => Turn::Reply(Reply::Empty),
                Ending::Perform(_) => match answer {
                    Answer::Output(output) => match self.reply.reply(output) {
                        Ok(reply) => Turn::Reply(reply),
                        Err(error) => Turn::Refuse(Failure::Api(error)),
                    },
                    _ => {
                        assert(false);
                        Turn::Reply(Reply::Empty)
                    },
                },
            };
        }
        let ghost rest = self.steps@.skip(self.next as int);
        proof {
            assert(rest[0] == self.step());
            assert(self.steps@.skip(self.next + 1) =~= rest.drop_first());
        }
        let chosen: Option<bool> = match &answer {
            Answer::Choice(chosen) => Some(*chosen),
            _ => None,
        };
        match &self.steps[self.next] {
            Step::RequireCollab { object_id, change, .. } => {
                if let Some(false) = chosen {
                    return Turn::Refuse(
                        Failure::Api(refuse_missing_collab(*change, object_id.as_str())),
                    );
                }
            },
            Step::Index { .. } => {
                if !self.indexing {
                    if let Some(true) = chosen {
                        return Turn::Continue(Session { indexing: true, ..self });
                    }
                }
            },
            _ => {},
        }
        let next: usize = self.next + 1;
        let known = learn(self.known, answer);
        let session = Session {
            known,
            steps: self.steps,
            next,
            indexing: false,
            ending: self.ending,
            reply: self.reply,
        };
        proof {
            assert(session == self.after(answer));
            assert(known.facts() == self.step().gives(self.known.facts()));
        }
        Turn::Continue(session)
    }
}

/// The session that a run of answers leads to, as long as each of them lets the request go on.
pub open spec fn reached<P, E>(start: Session<P>, answers: Seq<Answer<P, E>>) -> Option<Session<P>>
    decreases answers.len(),
{
    if answers.len() == 0 {
        Some(start)
    } else {
        match reached(start, answers.drop_last()) {
            None => None,
            Some(session) => if session.fits(answers.last()) && session.goes_on(answers.last()) {
                Some(session.after(answers.last()))
            } else {
                None
            },
        }
    }
}

/// Nothing is asked after a failure: a request with a failed answer among its answers does not go
/// on.
pub proof fn failure_ends_the_request<P, E>(
    start: Session<P>,
    answers: Seq<Answer<P, E>>,
    failed: int,
)
    requires
        0 <= failed < answers.len(),
        answers[failed] is Failed,
    ensures
        reached(start, answers) is None,
    decreases answers.len(),
{
    if failed < answers.len() - 1 {
        failure_ends_the_request(start, answers.drop_last(), failed);
    }
}

/// The answer at `k` was given to the step `i`, and let the request go on.
pub open spec fn answered<P, E>(
    start: Session<P>,
    answers: Seq<Answer<P, E>>,
    k: int,
    i: int,
) -> bool {
    &&& 0 <= k < answers.len()
    &&& reached(start, answers.take(k)) matches Some(session) && {
        &&& session.next == i
        &&& session.fits(answers[k])
        &&& session.goes_on(answers[k])
    }
}

/// Serving a request never changes what it is about, and it takes at least one answer to get past
/// a step.
proof fn lemma_course_kept<P, E>(start: Session<P>, answers: Seq<Answer<P, E>>)
    requires
        start.next == 0,
        start.wf(),
        reached(start, answers) is Some,
    ensures
        ({
            let session = reached(start, answers)->0;
            &&& session.steps == start.steps
            &&& session.ending == start.ending
            &&& session.reply == start.reply
            &&& session.next <= answers.len()
            &&& session.next <= start.steps@.len()
        }),
    decreases answers.len(),
{
    if answers.len() > 0 {
        lemma_course_kept(start, answers.drop_last());
    }
}

/// Every step that a request has got past was asked for and answered.
proof fn lemma_steps_answered<P, E>(start: Session<P>, answers: Seq<Answer<P, E>>, i: int)
    requires
        start.next == 0,
        start.wf(),
        reached(start, answers) is Some,
        0 <= i < reached(start, answers)->0.next,
    ensures
        exists|k: int| answered(start, answers, k, i),
    decreases answers.len(),
{
    let before = answers.drop_last();
    lemma_course_kept(start, before);
    let earlier = reached(start, before)->0;
    let last = answers.len() - 1;
    if i < earlier.next {
        lemma_steps_answered(start, before, i);
        let k = choose|k: int| answered(start, before, k, i);
        assert(before.take(k) =~= answers.take(k));
        assert(answered(start, answers, k, i));
    } else {
        assert(answers.take(last) =~= before);
        assert(answered(start, answers, last, i));
    }
}

/// The operation comes after everything that guards it: a request whose steps are over has had
/// each access check of its plan asked for, and each of them allowed what the request asks for.
pub proof fn operation_only_after_checks<P, E>(
    start: Session<P>,
    answers: Seq<Answer<P, E>>,
    i: int,
)
    requires
        start.next == 0,
        start.wf(),
        reached(start, answers) is Some,
        reached(start, answers)->0.at_end(),
        0 <= i < start.steps@.len(),
        start.steps@[i].is_check(),
    ensures
        exists|k: int| answered(start, answers, k, i) && answers[k] is Done,
{
    lemma_course_kept(start, answers);
    lemma_steps_answered(start, answers, i);
    let k = choose|k: int| answered(start, answers, k, i);
    assert(reached(start, answers.take(k)) is Some);
    lemma_course_kept(start, answers.take(k));
    assert(answers[k] is Done);
}

/// A request that has got somewhere has passed every point before, and never goes back.
proof fn lemma_never_back<P, E>(start: Session<P>, answers: Seq<Answer<P, E>>, k: int)
    requires
        start.next == 0,
        start.wf(),
        reached(start, answers) is Some,
        0 <= k <= answers.len(),
    ensures
        reached(start, answers.take(k)) is Some,
        reached(start, answers.take(k))->0.next <= reached(start, answers)->0.next,
    decreases answers.len(),
{
    if k == answers.len() {
        assert(answers.take(k) =~= answers);
    } else {
        let before = answers.drop_last();
        lemma_never_back(start, before, k);
        assert(before.take(k) =~= answers.take(k));
        lemma_course_kept(start, before);
        let earlier = reached(start, before)->0;
        assert(earlier.next < earlier.steps.len());
    }
}

/// A step succeeds once: no two answers are given to the same step, but for the two questions of
/// indexing.
pub proof fn steps_succeed_once<P, E>(
    start: Session<P>,
    answers: Seq<Answer<P, E>>,
    i: int,
    k: int,
    l: int,
)
    requires
        start.next == 0,
        start.wf(),
        0 <= i < start.steps@.len(),
        start.steps@[i] !is Index,
        answered(start, answers, k, i),
        answered(start, answers, l, i),
    ensures
        k == l,
{
    if k < l {
        lemma_behind_answered(start, answers, i, k, l);
    } else if l < k {
        lemma_behind_answered(start, answers, i, l, k);
    }
}

/// Behind the answer to a step, the request stands behind that step.
proof fn lemma_behind_answered<P, E>(
    start: Session<P>,
    answers: Seq<Answer<P, E>>,
    i: int,
    k: int,
    l: int,
)
    requires
        start.next == 0,
        start.wf(),
        0 <= i < start.steps@.len(),
        start.steps@[i] !is Index,
        answered(start, answers, k, i),
        k < l < answers.len(),
        reached(start, answers.take(l)) is Some,
    ensures
        reached(start, answers.take(l))->0.next > i,
{
    let here = answers.take(k);
    let next = answers.take(k + 1);
    assert(next.drop_last() =~= here);
    assert(next.last() == answers[k]);
    lemma_course_kept(start, here);
    let session = reached(start, here)->0;
    assert(session.step() == start.steps@[i]);
    assert(session.next < session.steps.len());
    assert(reached(start, next) == Some(session.after(answers[k])));
    lemma_never_back(start, answers.take(l), k + 1);
    assert(answers.take(l).take(k + 1) =~= next);
}

/// Nothing is missing on the way: from whatever a request has come to, what is left of it finds
/// what it takes, and so does its ending once all steps have succeeded.
pub proof fn operation_finds_what_it_takes<P, E>(start: Session<P>, answers: Seq<Answer<P, E>>)
    requires
        start.wf(),
        reached(start, answers) is Some,
    ensures
        reached(start, answers)->0.wf(),
        reached(start, answers)->0.at_end() ==> reached(start, answers)->0.ending.finds(
            reached(start, answers)->0.known.facts(),
        ),
    decreases answers.len(),
{
    if answers.len() > 0 {
        let answer = answers.last();
        operation_finds_what_it_takes(start, answers.drop_last());
        let earlier = reached(start, answers.drop_last())->0;
        let rest = earlier.steps@.skip(earlier.next as int);
        assert(earlier.next < earlier.steps.len());
        assert(rest[0] == earlier.step());
        assert(earlier.steps@.skip(earlier.next + 1) =~= rest.drop_first());
        assert(learned(earlier.known, answer).facts() == earlier.step().gives(
            earlier.known.facts(),
        ));
    }
    let now = reached(start, answers)->0;
    assert(now.wf());
    if now.at_end() {
        assert(now.steps@.skip(now.next as int).len() == 0);
    }
}

/// The answer at `k` was given to the step that writes the operation, and says that it has been
/// written.
pub open spec fn written_at<P, E>(start: Session<P>, answers: Seq<Answer<P, E>>, k: int) -> bool {
    &&& 0 <= k < answers.len()
    &&& reached(start, answers.take(k)) matches Some(session) && {
        &&& !session.at_end()
        &&& session.step() is Write
        &&& session.known.begun
        &&& answers[k] is Written
    }
}

/// A commit is asked for only once the operation has been written, in a transaction that had begun
/// by then: a write that failed, or that was never asked for, is not committed.
pub proof fn commit_only_after_write<P, E>(start: Session<P>, answers: Seq<Answer<P, E>>)
    requires
        start.wf(),
        !start.known.written,
        start.ending is Commit,
        reached(start, answers) is Some,
        reached(start, answers)->0.at_end(),
    ensures
        exists|k: int| written_at(start, answers, k),
{
    operation_finds_what_it_takes(start, answers);
    lemma_ending_kept(start, answers);
    lemma_written_was_answered(start, answers);
}

/// What is replied to is committed, and what is refused is not: a request that ends in a commit is
/// replied to exactly when its commit was asked for and succeeded, and that is after its operation
/// was written.
pub proof fn reply_means_committed<P, E>(
    start: Session<P>,
    answers: Seq<Answer<P, E>>,
    last: Answer<P, E>,
    turn: Turn<P, E>,
)
    requires
        start.wf(),
        !start.known.written,
        start.ending is Commit,
        reached(start, answers) is Some,
        reached(start, answers)->0.fits(last),
        reached(start, answers)->0.follows(last, turn),
    ensures
        turn is Reply <==> reached(start, answers)->0.at_end() && last is Done,
        turn is Reply ==> turn == Turn::<P, E>::Reply(Reply::Empty),
        reached(start, answers)->0.at_end() ==> exists|k: int| written_at(start, answers, k),
{
    lemma_ending_kept(start, answers);
    if reached(start, answers)->0.at_end() {
        commit_only_after_write(start, answers);
    }
}

/// Serving a request never changes how it ends.
proof fn lemma_ending_kept<P, E>(start: Session<P>, answers: Seq<Answer<P, E>>)
    requires
        reached(start, answers) is Some,
    ensures
        reached(start, answers)->0.ending == start.ending,
    decreases answers.len(),
{
    if answers.len() > 0 {
        lemma_ending_kept(start, answers.drop_last());
    }
}

/// What is written has been answered to be.
proof fn lemma_written_was_answered<P, E>(start: Session<P>, answers: Seq<Answer<P, E>>)
    requires
        start.wf(),
        !start.known.written,
        reached(start, answers) is Some,
        reached(start, answers)->0.known.written,
    ensures
        exists|k: int| written_at(start, answers, k),
    decreases answers.len(),
{
    let before = answers.drop_last();
    let earlier = reached(start, before)->0;
    let last = answers.len() - 1;
    if earlier.known.written {
        lemma_written_was_answered(start, before);
        let k = choose|k: int| written_at(start, before, k);
        assert(before.take(k) =~= answers.take(k));
        assert(written_at(start, answers, k));
    } else {
        operation_finds_what_it_takes(start, before);
        assert(earlier.steps@.skip(earlier.next as int)[0] == earlier.step());
        assert(answers.take(last) =~= before);
        assert(written_at(start, answers, last));
    }
}

/// A request comes to an end: a step takes two answers at most.
pub proof fn requests_come_to_an_end<P, E>(start: Session<P>, answers: Seq<Answer<P, E>>)
    requires
        start.next == 0,
        !start.indexing,
        start.wf(),
        reached(start, answers) is Some,
    ensures
        answers.len() <= 2 * start.steps@.len(),
{
    lemma_answers_counted(start, answers);
    lemma_course_kept(start, answers);
    operation_finds_what_it_takes(start, answers);
}

proof fn lemma_answers_counted<P, E>(start: Session<P>, answers: Seq<Answer<P, E>>)
    requires
        start.next == 0,
        !start.indexing,
        start.wf(),
        reached(start, answers) is Some,
    ensures
        answers.len() <= 2 * reached(start, answers)->0.next + if reached(
            start,
            answers,
        )->0.indexing {
            1int
        } else {
            0
        },
    decreases answers.len(),
{
    if answers.len() > 0 {
        lemma_answers_counted(start, answers.drop_last());
        lemma_course_kept(start, answers.drop_last());
        let earlier = reached(start, answers.drop_last())->0;
        assert(earlier.next < earlier.steps.len());
    }
}

/// One request is served for one user: once the caller's number has been looked up, every later
/// check and the operation are about that number, and so is the realtime user that is made for the
/// request.
pub proof fn one_user_per_request<P, E>(start: Session<P>, answers: Seq<Answer<P, E>>)
    requires
        start.next == 0,
        start.wf(),
        start.steps@.len() > 0,
        start.steps@[0] is ResolveUid,
        forall|i: int| 0 < i < start.steps@.len() ==> !(#[trigger] start.steps@[i] is ResolveUid),
        start.known.user is None,
        reached(start, answers) is Some,
        answers.len() > 0,
    ensures
        answers[0] is Uid,
        reached(start, answers)->0.known.uid == Some(answers[0]->Uid_0),
        reached(start, answers)->0.known.user matches Some(user) ==> user.uid
            == answers[0]->Uid_0,
    decreases answers.len(),
{
    let before = answers.drop_last();
    lemma_course_kept(start, before);
    if before.len() > 0 {
        one_user_per_request(start, before);
        let earlier = reached(start, before)->0;
        lemma_past_first(start, before);
        assert(!(start.steps@[earlier.next as int] is ResolveUid));
    }
}

/// With the first answer the request gets past a first step that looks up the caller's number.
proof fn lemma_past_first<P, E>(start: Session<P>, answers: Seq<Answer<P, E>>)
    requires
        start.next == 0,
        start.wf(),
        start.steps@.len() > 0,
        start.steps@[0] is ResolveUid,
        reached(start, answers) is Some,
        answers.len() > 0,
    ensures
        reached(start, answers)->0.next > 0,
    decreases answers.len(),
{
    let before = answers.drop_last();
    lemma_course_kept(start, before);
    let earlier = reached(start, before)->0;
    assert(earlier.next < start.steps.len());
    if before.len() > 0 {
        lemma_past_first(start, before);
    }
}

/// The services are asked exactly what the step at hand is about: its own workspace, object, right,
/// role or address, on behalf of the user whose number was looked up; and behind the last step
/// exactly the operation of the plan, with what has become known.
pub proof fn the_step_at_hand_is_asked_for<P>(session: Session<P>, ask: Ask<'_, P>)
    requires
        session.asks(ask),
    ensures
        session.next == session.steps@.len() ==> match session.ending {
            Ending::Perform(planned) => ask matches Ask::Perform { known, operation } && *known
                == session.known && *operation == planned,
            Ending::Commit(_) => ask is Commit,
            _ => ask is Conclude,
        },
        session.next < session.steps@.len() ==> match session.steps@[session.next as int] {
            Step::VerifyToken => ask is VerifyToken,
            Step::ReadCaller => ask is ReadCaller,
            Step::ValidatePayload => ask is ValidatePayload,
            Step::ResolveUid => ask matches Ask::ResolveUid { user_uuid } && session.known.caller
                == Some(user_uuid),
            Step::RequirePermission { workspace: Workspace::Id(id), permission: needed } => ask
                matches Ask::EnforcePermission { uid, workspace_id, permission } && {
                &&& session.known.uid == Some(uid)
                &&& workspace_id@ == hyphenated(id.bytes@)
                &&& permission == needed
            },
            Step::RequirePermission { workspace: Workspace::Name(name), permission: needed } => ask
                matches Ask::EnforcePermission { uid, workspace_id, permission } && {
                &&& session.known.uid == Some(uid)
                &&& workspace_id@ == name@
                &&& permission == needed
            },
            Step::RequireRole { workspace: Workspace::Id(id), role: needed } => ask
                matches Ask::EnforceRole { uid, workspace_id, role } && {
                &&& session.known.uid == Some(uid)
                &&& workspace_id@ == hyphenated(id.bytes@)
                &&& role == needed
            },
            Step::RequireRole { workspace: Workspace::Name(name), role: needed } => ask
                matches Ask::EnforceRole { uid, workspace_id, role } && {
                &&& session.known.uid == Some(uid)
                &&& workspace_id@ == name@
                &&& role == needed
            },
            Step::RequireCollabPermission {
                workspace_id: workspace,
                object_id: object,
                permission: needed,
            } => ask matches Ask::EnforceCollabPermission {
                workspace_id,
                uid,
                object_id,
                permission,
            } && {
                &&& workspace_id@ == hyphenated(workspace.bytes@)
                &&& session.known.uid == Some(uid)
                &&& object_id@ == hyphenated(object.bytes@)
                &&& permission == needed
            },
            Step::BuildUser => ask matches Ask::BuildUser { uid } && session.known.uid == Some(uid),
            Step::RequireCollab { workspace_id: workspace, object_id: object, .. } => ask
                matches Ask::CollabExists { workspace_id, object_id } && *workspace_id == workspace
                && *object_id == object,
            Step::FindMember { email: address } => ask matches Ask::FindMember { email } && *email
                == address,
            Step::Index { workspace_id: workspace } => if session.indexing {
                ask matches Ask::Index { workspace_id, operation } && *workspace_id == workspace
                    && (session.ending == Ending::Perform(*operation) || session.ending
                    == Ending::Commit(*operation))
            } else {
                ask matches Ask::CanIndex { workspace_id } && *workspace_id == workspace
            },
            Step::FetchDocState { from_editing_collab: edited } => ask
                matches Ask::FetchDocState { uid, operation, from_editing_collab } && {
                &&& session.known.uid == Some(uid)
                &&& session.ending == Ending::Perform(*operation)
                &&& from_editing_collab == edited
            },
            Step::Begin => ask is Begin,
            Step::Write => ask matches Ask::Write { known, operation } && *known == session.known
                && session.ending == Ending::Commit(*operation),
        },
{
}

/// An answer is accepted exactly if it can be one to what is asked: a failure always, a number
/// where a number was looked up, and so on; a realtime user only if it is that of the request.
pub proof fn answers_match_what_is_asked<P, E>(session: Session<P>, answer: Answer<P, E>)
    requires
        session.next <= session.steps@.len(),
    ensures
        session.fits(answer) <==> {
            ||| answer is Failed
            ||| session.next == session.steps@.len() && match session.ending {
                Ending::Perform(_) => answer matches Answer::Output(output) && session.reply.fits(
                    output,
                ),
                _ => answer is Done,
            }
            ||| session.next < session.steps@.len() && match session.steps@[session.next as int] {
                Step::ReadCaller => answer is Caller,
                Step::ResolveUid => answer is Uid,
                Step::BuildUser => answer matches Answer::User(user) && session.known.uid == Some(
                    user.uid,
                ),
                Step::RequireCollab { .. } => answer is Choice,
                Step::FindMember { .. } => answer is MemberUid,
                Step::FetchDocState { .. } => answer is DocState,
                Step::Begin => answer is Begun,
                Step::Write => answer is Written,
                Step::Index { .. } => if session.indexing {
                    answer is Done
                } else {
                    answer is Choice
                },
                Step::VerifyToken
                | Step::ValidatePayload
                | Step::RequirePermission { .. }
                | Step::RequireRole { .. }
                | Step::RequireCollabPermission { .. } => answer is Done,
            }
        },
{
}

/// What an answer says is what is known from then on, and nothing else changes: a number that was
/// looked up for a member is that member's, one that was looked up for the caller is the caller's.
pub proof fn answers_are_remembered_as_given<P, E>(known: Known, answer: Answer<P, E>)
    ensures
        learned(known, answer).caller == match answer {
            Answer::Caller(caller) => Some(caller),
            _ => known.caller,
        },
        learned(known, answer).uid == match answer {
            Answer::Uid(uid) => Some(uid),
            _ => known.uid,
        },
        learned(known, answer).user == match answer {
            Answer::User(user) => Some(user),
            _ => known.user,
        },
        learned(known, answer).member_uid == match answer {
            Answer::MemberUid(uid) => Some(uid),
            _ => known.member_uid,
        },
        learned(known, answer).doc_state == match answer {
            Answer::DocState(doc_state) => Some(doc_state),
            _ => known.doc_state,
        },
        learned(known, answer).begun == (known.begun || answer is Begun),
        learned(known, answer).written == (known.written || answer is Written),
{
}

/// What follows from an answer before the last step is behind the request. A failure ends it as it
/// is; an object that has to exist and does not ends it with the words for what was to be done; a
/// workspace that is indexed has the object indexed first; anything else leads to the next step,
/// with what was answered, and leaves the course of the request as it was.
pub proof fn answers_lead_to_the_next_step<P, E>(
    session: Session<P>,
    answer: Answer<P, E>,
    turn: Turn<P, E>,
)
    requires
        session.wf(),
        session.next < session.steps@.len(),
        session.fits(answer),
        session.follows(answer, turn),
    ensures
        match answer {
            Answer::Failed(error) => turn == Turn::<P, E>::Refuse(Failure::Upstream(error)),
            Answer::Choice(false) if session.steps@[session.next as int] is RequireCollab => turn
                matches Turn::Refuse(Failure::Api(ApiError::RecordNotFound(message))) && message@
                == if session.steps@[session.next as int]->change is Insert {
                "Fail to insert collab member. The Collab with object_id "@
            } else {
                "Fail to update collab member. The Collab with object_id "@
            } + session.steps@[session.next as int]->RequireCollab_object_id@ + " does not exist"@,
            Answer::Choice(true) if session.steps@[session.next as int] is Index => turn
                matches Turn::Continue(later) && {
                &&& later.next == session.next
                &&& later.indexing
                &&& later.known == session.known
                &&& later.steps == session.steps
                &&& later.ending == session.ending
                &&& later.reply == session.reply
            },
            _ => turn matches Turn::Continue(later) && {
                &&& later.next == session.next + 1
                &&& !later.indexing
                &&& later.steps == session.steps
                &&& later.ending == session.ending
                &&& later.reply == session.reply
                &&& later.known.caller == match answer {
                    Answer::Caller(caller) => Some(caller),
                    _ => session.known.caller,
                }
                &&& later.known.uid == match answer {
                    Answer::Uid(uid) => Some(uid),
                    _ => session.known.uid,
                }
                &&& later.known.user == match answer {
                    Answer::User(user) => Some(user),
                    _ => session.known.user,
                }
                &&& later.known.member_uid == match answer {
                    Answer::MemberUid(uid) => Some(uid),
                    _ => session.known.member_uid,
                }
                &&& later.known.doc_state == match answer {
                    Answer::DocState(doc_state) => Some(doc_state),
                    _ => session.known.doc_state,
                }
                &&& later.known.begun == (session.known.begun || answer is Begun)
                &&& later.known.written == (session.known.written || answer is Written)
            },
        },
{
    assert(session.next < session.steps.len());
}

/// What follows behind the last step: the reply of the plan's kind to what the operation gave, an
/// empty one where there was nothing to perform or the commit succeeded, the refusal that the plan
/// ends in, and a failure as it is.
pub proof fn the_last_answer_ends_the_request<P, E>(
    session: Session<P>,
    answer: Answer<P, E>,
    turn: Turn<P, E>,
)
    requires
        session.wf(),
        session.next == session.steps@.len(),
        session.fits(answer),
        session.follows(answer, turn),
    ensures
        turn !is Continue,
        answer matches Answer::Failed(error) ==> turn == Turn::<P, E>::Refuse(
            Failure::Upstream(error),
        ),
        answer !is Failed ==> match session.ending {
            Ending::Reply | Ending::Commit(_) => turn matches Turn::Reply(Reply::Empty),
            Ending::Refuse(error) => turn == Turn::<P, E>::Refuse(Failure::Api(error)),
            Ending::Perform(_) => answer matches Answer::Output(output) && match turn {
                Turn::Reply(reply) => session.reply.problem(output) is None
                    && session.reply.answers(output, reply),
                Turn::Refuse(Failure::Api(error)) => session.reply.problem(output) == Some(error@),
                _ => false,
            },
        },
{
}

/// A run of answers leads where answering one by one leads: without answers to the start, and with
/// one more answer to the session that goes on from it, if the request goes on.
pub proof fn answers_lead_one_by_one<P, E>(
    start: Session<P>,
    answers: Seq<Answer<P, E>>,
    answer: Answer<P, E>,
    turn: Turn<P, E>,
)
    requires
        start.next == 0,
        start.wf(),
    ensures
        reached(start, Seq::<Answer<P, E>>::empty()) == Some(start),
        reached(start, answers) is None ==> reached(start, answers.push(answer)) is None,
        reached(start, answers) matches Some(session) ==> (session.fits(answer) && session.follows(
            answer,
            turn,
        ) ==> reached(start, answers.push(answer)) == match turn {
            Turn::Continue(later) => Some(later),
            _ => None,
        }),
{
    assert(answers.push(answer).drop_last() =~= answers);
    if reached(start, answers) is Some {
        operation_finds_what_it_takes(start, answers);
    }
}

/// An answer is given to a step exactly if the request stood at that step when it came, and went on
/// with it.
pub proof fn answers_are_given_to_steps<P, E>(
    start: Session<P>,
    answers: Seq<Answer<P, E>>,
    k: int,
    i: int,
)
    ensures
        answered(start, answers, k, i) <==> {
            &&& 0 <= k < answers.len()
            &&& reached(start, answers.take(k)) matches Some(session) && session.next == i
            &&& reached(start, answers.take(k + 1)) is Some
        },
{
    if 0 <= k < answers.len() {
        assert(answers.take(k + 1).drop_last() =~= answers.take(k));
        assert(answers.take(k + 1).last() == answers[k]);
    }
}

/// Which facts are known of a request is read off what is known of it.
pub proof fn facts_are_read_off(known: Known)
    ensures
        known.facts().caller <==> known.caller is Some,
        known.facts().uid <==> known.uid is Some,
        known.facts().user <==> known.user is Some,
        known.facts().member <==> known.member_uid is Some,
        known.facts().doc_state <==> known.doc_state is Some,
        known.facts().begun <==> known.begun,
        known.facts().written <==> known.written,
{
}

/// The member that is changed is the one whose address was looked up: once the lookup of a plan has
/// been answered with a number, that number, and no other, is the member's for the rest of the
/// request, whatever the caller's number is.
pub proof fn the_member_found_is_the_member_changed<P, E>(
    start: Session<P>,
    answers: Seq<Answer<P, E>>,
    i: int,
    k: int,
)
    requires
        start.next == 0,
        start.wf(),
        0 <= i < start.steps@.len(),
        start.steps@[i] is FindMember,
        forall|j: int|
            0 <= j < start.steps@.len() && j != i ==> !(#[trigger] start.steps@[j] is FindMember),
        answered(start, answers, k, i),
        reached(start, answers) is Some,
    ensures
        answers[k] is MemberUid,
        reached(start, answers)->0.known.member_uid == Some(answers[k]->MemberUid_0),
    decreases answers.len(),
{
    let before = answers.drop_last();
    let last = answers.len() - 1;
    lemma_course_kept(start, before);
    lemma_course_kept(start, answers.take(k));
    let earlier = reached(start, before)->0;
    assert(answers.take(last) =~= before);
    assert(earlier.next < earlier.steps.len());
    if k < last {
        assert(before.take(k) =~= answers.take(k));
        assert(answered(start, before, k, i));
        the_member_found_is_the_member_changed(start, before, i, k);
        lemma_behind_answered(start, answers, i, k, last);
        assert(!(start.steps@[earlier.next as int] is FindMember));
    }
}

/// A request to change the role of a member, carried out from its start: the owner's right is
/// checked with the number of whoever sent it, the address is looked up, and the operation is
/// performed with the number that was found for it, whatever the two numbers are.
pub proof fn a_member_is_changed_by_address<P, E>(
    plan: Plan<P>,
    workspace_id: Id,
    email: String,
    changeset: P,
    caller: Id,
    uid: i64,
    member: i64,
    first: Turn<P, E>,
    second: Turn<P, E>,
    third: Turn<P, E>,
)
    requires
        plan.is(
            with_role(Workspace::Id(workspace_id), Role::Owner).push(Step::FindMember { email }),
            Operation::UpdateMember { workspace_id, changeset },
            ReplyKind::Empty,
        ),
        plan.runs(Facts { caller: true, ..no_facts() }),
        begun_with(plan, caller).follows(Answer::Uid(uid), first),
        first is Continue ==> first->Continue_0.follows(Answer::Done, second),
        second is Continue ==> second->Continue_0.follows(Answer::MemberUid(member), third),
    ensures
        first is Continue && second is Continue && third is Continue,
        forall|ask: Ask<'_, P>| #[trigger]
            first->Continue_0.asks(ask) ==> (ask matches Ask::EnforceRole {
                uid: asked,
                workspace_id: text,
                role,
            } && asked == uid && text@ == hyphenated(workspace_id.bytes@) && role is Owner),
        forall|ask: Ask<'_, P>| #[trigger]
            second->Continue_0.asks(ask) ==> (ask matches Ask::FindMember { email: address }
                && *address == email),
        forall|ask: Ask<'_, P>| #[trigger]
            third->Continue_0.asks(ask) ==> (ask matches Ask::Perform { known, operation } && {
                &&& known.member_uid == Some(member)
                &&& known.uid == Some(uid)
                &&& known.caller == Some(caller)
                &&& *operation == Operation::UpdateMember { workspace_id, changeset }
            }),
{
    let start = begun_with(plan, caller);
    lemma_runs_three(plan.steps@, plan.ending);
    assert(start.steps@.skip(0) =~= plan.steps@);
    assert(start.wf());
    assert(plan.steps@[0] is ResolveUid);
    assert(plan.steps@[2] == (Step::FindMember { email }));
    answers_lead_to_the_next_step(start, Answer::Uid(uid), first);
    let one = first->Continue_0;
    assert(one.wf());
    answers_lead_to_the_next_step(one, Answer::Done, second);
    let two = second->Continue_0;
    assert(two.wf());
    answers_lead_to_the_next_step(two, Answer::MemberUid(member), third);
}

/// A request at its start, of which the caller is known.
pub open spec fn begun_with<P>(plan: Plan<P>, caller: Id) -> Session<P> {
    Session {
        known: Known {
            caller: Some(caller),
            uid: None,
            user: None,
            member_uid: None,
            doc_state: None,
            begun: false,
            written: false,
        },
        steps: plan.steps,
        next: 0,
        indexing: false,
        ending: plan.ending,
        reply: plan.reply,
    }
}

/// A request that takes a permission, carried out from its start: exactly that permission is asked
/// for, for the number of whoever sent the request and for the workspace that it names, and once it
/// is granted exactly the operation is performed with that number. Whatever is refused ends it.
pub proof fn a_permission_is_checked_for_the_caller<P, E>(
    plan: Plan<P>,
    workspace_id: Id,
    needed: Permission,
    operation: Operation<P>,
    reply: ReplyKind,
    caller: Id,
    uid: i64,
    error: E,
    first: Turn<P, E>,
    second: Turn<P, E>,
    denied: Turn<P, E>,
)
    requires
        plan.is(with_permission(Workspace::Id(workspace_id), needed), operation, reply),
        plan.runs(Facts { caller: true, ..no_facts() }),
        begun_with(plan, caller).follows(Answer::Uid(uid), first),
        first is Continue ==> first->Continue_0.follows(Answer::Done, second)
            && first->Continue_0.follows(Answer::Failed(error), denied),
    ensures
        first is Continue && second is Continue,
        denied == Turn::<P, E>::Refuse(Failure::Upstream(error)),
        forall|ask: Ask<'_, P>| #[trigger]
            begun_with(plan, caller).asks(ask) ==> (ask matches Ask::ResolveUid { user_uuid }
                && user_uuid == caller),
        forall|ask: Ask<'_, P>| #[trigger]
            first->Continue_0.asks(ask) ==> (ask matches Ask::EnforcePermission {
                uid: asked,
                workspace_id: text,
                permission,
            } && asked == uid && text@ == hyphenated(workspace_id.bytes@) && permission == needed),
        forall|ask: Ask<'_, P>| #[trigger]
            second->Continue_0.asks(ask) ==> (ask matches Ask::Perform {
                known,
                operation: performed,
            } && {
                &&& known.uid == Some(uid)
                &&& known.caller == Some(caller)
                &&& *performed == operation
            }),
        second->Continue_0.reply == reply,
{
    let start = begun_with(plan, caller);
    lemma_runs_two(plan.steps@, plan.ending);
    assert(start.steps@.skip(0) =~= plan.steps@);
    assert(start.wf());
    assert(plan.steps@[0] is ResolveUid);
    answers_lead_to_the_next_step(start, Answer::Uid(uid), first);
    let one = first->Continue_0;
    answers_lead_to_the_next_step(one, Answer::Done, second);
}

/// A request that takes a role, carried out from its start: exactly that role is asked for, for the
/// number of whoever sent the request and for the workspace that it names, and once it is granted
/// exactly the operation is performed with that number.
pub proof fn a_role_is_checked_for_the_caller<P, E>(
    plan: Plan<P>,
    workspace_id: Id,
    needed: Role,
    operation: Operation<P>,
    reply: ReplyKind,
    caller: Id,
    uid: i64,
    first: Turn<P, E>,
    second: Turn<P, E>,
)
    requires
        plan.is(with_role(Workspace::Id(workspace_id), needed), operation, reply),
        plan.runs(Facts { caller: true, ..no_facts() }),
        begun_with(plan, caller).follows(Answer::Uid(uid), first),
        first is Continue ==> first->Continue_0.follows(Answer::Done, second),
    ensures
        first is Continue && second is Continue,
        forall|ask: Ask<'_, P>| #[trigger]
            first->Continue_0.asks(ask) ==> (ask matches Ask::EnforceRole {
                uid: asked,
                workspace_id: text,
                role,
            } && asked == uid && text@ == hyphenated(workspace_id.bytes@) && role == needed),
        forall|ask: Ask<'_, P>| #[trigger]
            second->Continue_0.asks(ask) ==> (ask matches Ask::Perform {
                known,
                operation: performed,
            } && {
                &&& known.uid == Some(uid)
                &&& known.caller == Some(caller)
                &&& *performed == operation
            }),
        second->Continue_0.reply == reply,
{
    let start = begun_with(plan, caller);
    lemma_runs_two(plan.steps@, plan.ending);
    assert(start.steps@.skip(0) =~= plan.steps@);
    assert(start.wf());
    assert(plan.steps@[0] is ResolveUid);
    answers_lead_to_the_next_step(start, Answer::Uid(uid), first);
    answers_lead_to_the_next_step(first->Continue_0, Answer::Done, second);
}

} // verus!

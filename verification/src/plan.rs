//! The course that a request takes: what has to hold before its operation, the operation, and the
//! reply.
use vstd::prelude::*;

use crate::error::ApiError;
use crate::ids::hyphenated;
use crate::ids::Id;
use crate::operation::no_facts;
use crate::operation::Facts;
use crate::operation::Operation;
use crate::reply::ReplyKind;
use crate::reply::Role;

verus! {

/// What a user may be allowed to do with a workspace or an object in it.
#[derive(Clone, Copy, PartialEq, Eq, Structural)]
pub enum Permission {
    Read,
    Write,
    Delete,
}

/// How a request names a workspace.
pub enum Workspace {
    Id(Id),
    Name(String),
}

impl Workspace {
    /// The text by which access to the workspace is checked.
    pub open spec fn spec_text(&self) -> Seq<char> {
        match self {
            Workspace::Id(id) => id.spec_text(),
            Workspace::Name(name) => name@,
        }
    }

    /// The text by which access to the workspace is checked.
    pub fn text(&self) -> (text: String)
        ensures
            text@ == self.spec_text(),
    {
        match self {
            Workspace::Id(id) => id.text(),
            Workspace::Name(name) => name.clone(),
        }
    }
}

/// What is done with a member of an object.
#[derive(Clone, Copy, PartialEq, Eq, Structural)]
pub enum MemberChange {
    Insert,
    Update,
}

/// Something that has to succeed before the operation is performed.
#[allow(inconsistent_fields)]
pub enum Step {
    /// The token that came with the request is verified.
    VerifyToken,
    /// The caller is read out of the token.
    ReadCaller,
    /// The fields of the payload are validated.
    ValidatePayload,
    /// The caller's number is looked up.
    ResolveUid,
    /// The user must have this permission in the workspace.
    RequirePermission { workspace: Workspace, permission: Permission },
    /// The user must have at least this role in the workspace.
    RequireRole { workspace: Workspace, role: Role },
    /// The user must have this permission for the object.
    RequireCollabPermission { workspace_id: Id, object_id: Id, permission: Permission },
    /// A realtime user is made for this request.
    BuildUser,
    /// The object whose member is changed must exist.
    RequireCollab { workspace_id: String, object_id: String, change: MemberChange },
    /// The number of the member with this address is looked up.
    FindMember { email: String },
    /// The object of the operation is indexed, if its workspace is.
    Index { workspace_id: String },
    /// The state of the operation's object is fetched: as it is being edited, or as it is stored.
    FetchDocState { from_editing_collab: bool },
    /// A transaction is begun.
    Begin,
    /// The operation is performed inside the transaction that has begun.
    Write,
}

/// What is done once all steps have succeeded.
pub enum Ending<P> {
    /// The operation is performed.
    Perform(Operation<P>),
    /// The transaction in which the operation has been written is committed.
    Commit(Operation<P>),
    /// The request is replied to as it is.
    Reply,
    /// The request is refused.
    Refuse(ApiError),
}

/// The course of a request.
pub struct Plan<P> {
    pub steps: Vec<Step>,
    pub ending: Ending<P>,
    pub reply: ReplyKind,
}

/// Everything in `needed` is known.
pub open spec fn covers(known: Facts, needed: Facts) -> bool {
    &&& needed.caller ==> known.caller
    &&& needed.uid ==> known.uid
    &&& needed.user ==> known.user
    &&& needed.member ==> known.member
    &&& needed.doc_state ==> known.doc_state
    &&& needed.begun ==> known.begun
    &&& needed.written ==> known.written
}

/// Whether everything in `needed` is known.
fn has_all(known: &Facts, needed: &Facts) -> (all: bool)
    ensures
        all == covers(*known, *needed),
{
    (!needed.caller || known.caller) && (!needed.uid || known.uid) && (!needed.user || known.user)
        && (!needed.member || known.member) && (!needed.doc_state || known.doc_state)
        && (!needed.begun || known.begun) && (!needed.written || known.written)
}

impl Step {
    /// The facts that this step takes.
    pub open spec fn needs(&self) -> Facts {
        match self {
            Step::ResolveUid => Facts { caller: true, ..no_facts() },
            Step::RequirePermission { .. }
            | Step::RequireRole { .. }
            | Step::RequireCollabPermission { .. }
            | Step::BuildUser
            | Step::FetchDocState { .. } => Facts { uid: true, ..no_facts() },
            Step::Write => Facts { begun: true, ..no_facts() },
            _ => no_facts(),
        }
    }

    /// What is known once this step has succeeded.
    pub open spec fn gives(&self, known: Facts) -> Facts {
        match self {
            Step::ReadCaller => Facts { caller: true, ..known },
            Step::ResolveUid => Facts { uid: true, ..known },
            Step::BuildUser => Facts { user: true, ..known },
            Step::FindMember { .. } => Facts { member: true, ..known },
            Step::FetchDocState { .. } => Facts { doc_state: true, ..known },
            Step::Begin => Facts { begun: true, ..known },
            Step::Write => Facts { written: true, ..known },
            _ => known,
        }
    }

    /// Whether the facts that this step takes are known.
    fn is_ready(&self, known: &Facts) -> (ready: bool)
        ensures
            ready == covers(*known, self.needs()),
    {
        match self {
            Step::ResolveUid => known.caller,
            Step::RequirePermission { .. }
            | Step::RequireRole { .. }
            | Step::RequireCollabPermission { .. }
            | Step::BuildUser
            | Step::FetchDocState { .. } => known.uid,
            Step::Write => known.begun,
            _ => true,
        }
    }

    /// What is known once this step has succeeded.
    fn after(&self, known: Facts) -> (after: Facts)
        ensures
            after == self.gives(known),
    {
        match self {
            Step::ReadCaller => Facts { caller: true, ..known },
            Step::ResolveUid => Facts { uid: true, ..known },
            Step::BuildUser => Facts { user: true, ..known },
            Step::FindMember { .. } => Facts { member: true, ..known },
            Step::FetchDocState { .. } => Facts { doc_state: true, ..known },
            Step::Begin => Facts { begun: true, ..known },
            Step::Write => Facts { written: true, ..known },
            _ => known,
        }
    }

    /// This step decides whether the user may do what the request asks for.
    pub open spec fn is_check(&self) -> bool {
        self is RequirePermission || self is RequireRole || self is RequireCollabPermission
    }

    /// The step makes sense before this ending: an operation that is written finds what it takes,
    /// and only an operation that is committed is written.
    pub open spec fn goes_with<P>(&self, ending: Ending<P>, known: Facts) -> bool {
        match self {
            Step::Index { .. } => ending is Perform || ending is Commit,
            Step::FetchDocState { .. } => ending is Perform,
            Step::Begin => ending is Commit,
            Step::Write => ending matches Ending::Commit(operation) && covers(
                known,
                operation.needs(),
            ),
            _ => true,
        }
    }

    /// Whether the step makes sense before this ending.
    fn fits_before<P>(&self, ending: &Ending<P>, known: &Facts) -> (fits: bool)
        ensures
            fits == self.goes_with(*ending, *known),
    {
        match self {
            Step::Index { .. } => matches!(ending, Ending::Perform(_) | Ending::Commit(_)),
            Step::FetchDocState { .. } => matches!(ending, Ending::Perform(_)),
            Step::Begin => matches!(ending, Ending::Commit(_)),
            Step::Write => match ending {
                Ending::Commit(operation) => has_all(known, &operation.needed()),
                _ => false,
            },
            _ => true,
        }
    }
}

impl<P> Ending<P> {
    /// The ending finds what it takes: an operation its facts, and a commit something that has been
    /// written.
    pub open spec fn finds(&self, known: Facts) -> bool {
        match self {
            Ending::Perform(operation) => covers(known, operation.needs()),
            Ending::Commit(_) => known.written,
            _ => true,
        }
    }
}

/// From what is known, every step and the ending find what they take.
pub open spec fn runs<P>(steps: Seq<Step>, ending: Ending<P>, known: Facts) -> bool
    decreases steps.len(),
{
    if steps.len() == 0 {
        ending.finds(known)
    } else {
        &&& covers(known, steps[0].needs())
        &&& steps[0].goes_with(ending, known)
        &&& runs(steps.drop_first(), ending, steps[0].gives(known))
    }
}

/// What is known of a request whose caller has been authenticated.
pub open spec fn caller_known() -> Facts {
    Facts { caller: true, ..no_facts() }
}

/// What is known of a request whose caller's number has been looked up.
pub open spec fn uid_known() -> Facts {
    Facts { caller: true, uid: true, ..no_facts() }
}

impl<P> Plan<P> {
    /// The plan can be carried out from what is known.
    pub open spec fn runs(&self, known: Facts) -> bool {
        runs(self.steps@, self.ending, known)
    }

    /// Whether the plan can be carried out from what is known.
    pub fn can_run(&self, known: Facts) -> (can: bool)
        ensures
            can == self.runs(known),
    {
        let mut facts: Facts = known;
        let mut i: usize = 0;
        assert(self.steps@.skip(0) =~= self.steps@);
        while i < self.steps.len()
            invariant
                i <= self.steps@.len(),
                runs(self.steps@, self.ending, known) == runs(
                    self.steps@.skip(i as int),
                    self.ending,
                    facts,
                ),
            decreases self.steps@.len() - i,
        {
            let step = &self.steps[i];
            assert(self.steps@.skip(i as int)[0] == *step);
            assert(self.steps@.skip(i as int).drop_first() =~= self.steps@.skip(i + 1));
            if !step.is_ready(&facts) {
                return false;
            }
            if !step.fits_before(&self.ending, &facts) {
                return false;
            }
            facts = step.after(facts);
            i += 1;
        }
        match &self.ending {
            Ending::Perform(operation) => has_all(&facts, &operation.needed()),
            Ending::Commit(_) => facts.written,
            _ => true,
        }
    }

    /// The plan is exactly this: these steps, then this operation, then a reply of this kind.
    pub open spec fn is(&self, steps: Seq<Step>, operation: Operation<P>, reply: ReplyKind) -> bool {
        &&& self.steps@ == steps
        &&& self.ending == Ending::Perform(operation)
        &&& self.reply == reply
    }

    /// The plan is exactly this: these steps, then a commit of this operation, then a reply without
    /// data.
    pub open spec fn commits(&self, steps: Seq<Step>, operation: Operation<P>) -> bool {
        &&& self.steps@ == steps
        &&& self.ending == Ending::Commit(operation)
        &&& self.reply is Empty
    }
}

/// The operation is performed for anyone.
pub open spec fn open_to_all() -> Seq<Step> {
    Seq::empty()
}

/// The operation takes the caller's number and nothing more.
pub open spec fn for_user() -> Seq<Step> {
    seq![Step::ResolveUid]
}

/// The operation takes a permission in the workspace.
pub open spec fn with_permission(workspace: Workspace, permission: Permission) -> Seq<Step> {
    seq![Step::ResolveUid, Step::RequirePermission { workspace, permission }]
}

/// The operation takes a role in the workspace.
pub open spec fn with_role(workspace: Workspace, role: Role) -> Seq<Step> {
    seq![Step::ResolveUid, Step::RequireRole { workspace, role }]
}

/// The operation takes a realtime user.
pub open spec fn as_web_user() -> Seq<Step> {
    seq![Step::ResolveUid, Step::BuildUser]
}

/// The operation takes a permission in the workspace and a realtime user.
pub open spec fn as_web_user_with_permission(workspace: Workspace, permission: Permission) -> Seq<
    Step,
> {
    seq![Step::ResolveUid, Step::RequirePermission { workspace, permission }, Step::BuildUser]
}

/// A plan for anyone.
pub fn plan_for_all<P>(operation: Operation<P>, reply: ReplyKind) -> (plan: Plan<P>)
    requires
        operation.needs() == no_facts(),
    ensures
        plan.is(open_to_all(), operation, reply),
        plan.steps@ == Seq::<Step>::empty(),
        plan.ending == Ending::Perform(operation),
        plan.reply == reply,
        plan.runs(no_facts()),
        plan.runs(caller_known()),
{
    let plan = Plan { steps: Vec::new(), ending: Ending::Perform(operation), reply };
    assert(plan.steps@ =~= open_to_all());
    plan
}

/// A plan for a user.
pub fn plan_for_user<P>(operation: Operation<P>, reply: ReplyKind) -> (plan: Plan<P>)
    requires
        covers(uid_known(), operation.needs()),
    ensures
        plan.is(for_user(), operation, reply),
        plan.steps@ == seq![Step::ResolveUid],
        plan.ending == Ending::Perform(operation),
        plan.reply == reply,
        plan.runs(caller_known()),
{
    let plan = Plan { steps: vec![Step::ResolveUid], ending: Ending::Perform(operation), reply };
    assert(plan.steps@ =~= for_user());
    proof {
        lemma_runs_one(plan.steps@, plan.ending);
    }
    plan
}

/// A plan for a user with a permission.
pub fn plan_with_permission<P>(
    workspace: Workspace,
    permission: Permission,
    operation: Operation<P>,
    reply: ReplyKind,
) -> (plan: Plan<P>)
    requires
        covers(uid_known(), operation.needs()),
    ensures
        plan.is(with_permission(workspace, permission), operation, reply),
        plan.steps@ == seq![
            Step::ResolveUid,
            Step::RequirePermission { workspace, permission },
        ],
        plan.ending == Ending::Perform(operation),
        plan.reply == reply,
        plan.runs(caller_known()),
{
    let plan = Plan {
        steps: vec![Step::ResolveUid, Step::RequirePermission { workspace, permission }],
        ending: Ending::Perform(operation),
        reply,
    };
    assert(plan.steps@ =~= with_permission(workspace, permission));
    proof {
        lemma_runs_two(plan.steps@, plan.ending);
    }
    plan
}

/// A plan for a user with a role.
pub fn plan_with_role<P>(
    workspace: Workspace,
    role: Role,
    operation: Operation<P>,
    reply: ReplyKind,
) -> (plan: Plan<P>)
    requires
        covers(uid_known(), operation.needs()),
    ensures
        plan.is(with_role(workspace, role), operation, reply),
        plan.steps@ == seq![Step::ResolveUid, Step::RequireRole { workspace, role }],
        plan.ending == Ending::Perform(operation),
        plan.reply == reply,
        plan.runs(caller_known()),
{
    let plan = Plan {
        steps: vec![Step::ResolveUid, Step::RequireRole { workspace, role }],
        ending: Ending::Perform(operation),
        reply,
    };
    assert(plan.steps@ =~= with_role(workspace, role));
    proof {
        lemma_runs_two(plan.steps@, plan.ending);
    }
    plan
}

/// A plan for a realtime user.
pub fn plan_as_web_user<P>(operation: Operation<P>, reply: ReplyKind) -> (plan: Plan<P>)
    requires
        covers(Facts { user: true, ..uid_known() }, operation.needs()),
    ensures
        plan.is(as_web_user(), operation, reply),
        plan.steps@ == seq![Step::ResolveUid, Step::BuildUser],
        plan.ending == Ending::Perform(operation),
        plan.reply == reply,
        plan.runs(caller_known()),
{
    let plan = Plan {
        steps: vec![Step::ResolveUid, Step::BuildUser],
        ending: Ending::Perform(operation),
        reply,
    };
    assert(plan.steps@ =~= as_web_user());
    proof {
        lemma_runs_two(plan.steps@, plan.ending);
    }
    plan
}

/// A plan for a realtime user with a permission.
pub fn plan_as_web_user_with_permission<P>(
    workspace: Workspace,
    permission: Permission,
    operation: Operation<P>,
    reply: ReplyKind,
) -> (plan: Plan<P>)
    requires
        covers(Facts { user: true, ..uid_known() }, operation.needs()),
    ensures
        plan.is(as_web_user_with_permission(workspace, permission), operation, reply),
        plan.steps@ == seq![
            Step::ResolveUid,
            Step::RequirePermission { workspace, permission },
            Step::BuildUser,
        ],
        plan.ending == Ending::Perform(operation),
        plan.reply == reply,
        plan.runs(caller_known()),
{
    let plan = Plan {
        steps: vec![
            Step::ResolveUid,
            Step::RequirePermission { workspace, permission },
            Step::BuildUser,
        ],
        ending: Ending::Perform(operation),
        reply,
    };
    assert(plan.steps@ =~= as_web_user_with_permission(workspace, permission));
    proof {
        lemma_runs_three(plan.steps@, plan.ending);
    }
    plan
}

/// How the course of one step unfolds.
pub proof fn lemma_runs_one<P>(steps: Seq<Step>, ending: Ending<P>)
    requires
        steps.len() == 1,
    ensures
        forall|known: Facts|
            #![trigger runs(steps, ending, known)]
            runs(steps, ending, known) == {
                &&& covers(known, steps[0].needs())
                &&& steps[0].goes_with(ending, known)
                &&& ending.finds(steps[0].gives(known))
            },
{
    reveal_with_fuel(runs, 3);
    assert(steps.drop_first().len() == 0);
}

/// How the course of two steps unfolds.
pub proof fn lemma_runs_two<P>(steps: Seq<Step>, ending: Ending<P>)
    requires
        steps.len() == 2,
    ensures
        forall|known: Facts|
            #![trigger runs(steps, ending, known)]
            runs(steps, ending, known) == {
                let first = steps[0].gives(known);
                &&& covers(known, steps[0].needs())
                &&& covers(first, steps[1].needs())
                &&& steps[0].goes_with(ending, known)
                &&& steps[1].goes_with(ending, first)
                &&& ending.finds(steps[1].gives(first))
            },
{
    reveal_with_fuel(runs, 4);
    let one = steps.drop_first();
    assert(one[0] == steps[1]);
    assert(one.drop_first().len() == 0);
}

/// How the course of three steps unfolds.
pub proof fn lemma_runs_three<P>(steps: Seq<Step>, ending: Ending<P>)
    requires
        steps.len() == 3,
    ensures
        forall|known: Facts|
            #![trigger runs(steps, ending, known)]
            runs(steps, ending, known) == {
                let first = steps[0].gives(known);
                let second = steps[1].gives(first);
                &&& covers(known, steps[0].needs())
                &&& covers(first, steps[1].needs())
                &&& covers(second, steps[2].needs())
                &&& steps[0].goes_with(ending, known)
                &&& steps[1].goes_with(ending, first)
                &&& steps[2].goes_with(ending, second)
                &&& ending.finds(steps[2].gives(second))
            },
{
    reveal_with_fuel(runs, 5);
    let one = steps.drop_first();
    let two = one.drop_first();
    assert(one[0] == steps[1]);
    assert(two[0] == steps[2]);
    assert(two.drop_first().len() == 0);
}

/// A request that takes a permission looks up the caller's number, and then has exactly that
/// permission checked for exactly that workspace; one that takes a role has exactly that role
/// checked. Nothing else comes before the operation, but for the realtime user where one is needed.
pub proof fn checks_are_the_ones_asked_for(workspace: Workspace, permission: Permission, role: Role)
    ensures
        with_permission(workspace, permission).len() == 2,
        with_permission(workspace, permission)[0] is ResolveUid,
        with_permission(workspace, permission)[1] == (Step::RequirePermission {
            workspace,
            permission,
        }),
        with_role(workspace, role).len() == 2,
        with_role(workspace, role)[0] is ResolveUid,
        with_role(workspace, role)[1] == (Step::RequireRole { workspace, role }),
        as_web_user_with_permission(workspace, permission).len() == 3,
        as_web_user_with_permission(workspace, permission)[0] is ResolveUid,
        as_web_user_with_permission(workspace, permission)[1] == (Step::RequirePermission {
            workspace,
            permission,
        }),
        as_web_user_with_permission(workspace, permission)[2] is BuildUser,
        as_web_user().len() == 2,
        as_web_user()[0] is ResolveUid,
        as_web_user()[1] is BuildUser,
        for_user().len() == 1,
        for_user()[0] is ResolveUid,
        open_to_all().len() == 0,
{
}

/// Requests with different needs have different courses: neither the workspace nor what is needed
/// there can be exchanged without a trace.
pub proof fn different_checks_are_different_courses(
    workspace: Workspace,
    permission: Permission,
    role: Role,
    other_workspace: Workspace,
    other_permission: Permission,
    other_role: Role,
)
    ensures
        with_permission(workspace, permission) == with_permission(other_workspace, other_permission)
            ==> workspace == other_workspace && permission == other_permission,
        with_role(workspace, role) == with_role(other_workspace, other_role) ==> workspace
            == other_workspace && role == other_role,
        with_permission(workspace, permission) != with_role(other_workspace, other_role),
{
    let first = with_permission(workspace, permission);
    let second = with_permission(other_workspace, other_permission);
    let third = with_role(workspace, role);
    let fourth = with_role(other_workspace, other_role);
    assert(first[1] == (Step::RequirePermission { workspace, permission }));
    assert(second[1] == (Step::RequirePermission {
        workspace: other_workspace,
        permission: other_permission,
    }));
    assert(third[1] == (Step::RequireRole { workspace, role }));
    assert(fourth[1] == (Step::RequireRole { workspace: other_workspace, role: other_role }));
}

/// A plan that is said to be of some steps, an operation and a reply has these and no others.
pub proof fn plans_are_what_they_are_said_to_be<P>(
    plan: Plan<P>,
    steps: Seq<Step>,
    operation: Operation<P>,
    reply: ReplyKind,
)
    ensures
        plan.is(steps, operation, reply) ==> plan.steps@ == steps && plan.ending
            == Ending::Perform(operation) && plan.reply == reply,
        plan.commits(steps, operation) ==> plan.steps@ == steps && plan.ending == Ending::Commit(
            operation,
        ) && plan.reply is Empty,
{
}

/// Whether a plan can be carried out is a matter of its steps, its ending and what is known, and of
/// nothing else.
pub proof fn plans_run_as_their_steps_do<P>(plan: Plan<P>, known: Facts)
    ensures
        plan.runs(known) <==> runs(plan.steps@, plan.ending, known),
{
}

/// Access to a workspace is checked by the text of its identifier, or by its name as it was sent.
pub proof fn workspaces_are_checked_by_their_text(id: Id, name: String)
    ensures
        Workspace::Id(id).spec_text() == hyphenated(id.bytes@),
        Workspace::Name(name).spec_text() == name@,
{
}

/// What a step takes and leaves: the caller for the number of a user, that number for every check,
/// a begun transaction for a write.
pub proof fn steps_build_on_each_other(step: Step, known: Facts)
    ensures
        step.needs().caller <==> step is ResolveUid,
        step.needs().uid <==> step is RequirePermission || step is RequireRole
            || step is RequireCollabPermission || step is BuildUser || step is FetchDocState,
        step.needs().begun <==> step is Write,
        step.gives(known).caller <==> known.caller || step is ReadCaller,
        step.gives(known).uid <==> known.uid || step is ResolveUid,
        step.gives(known).user <==> known.user || step is BuildUser,
        step.gives(known).member <==> known.member || step is FindMember,
        step.gives(known).doc_state <==> known.doc_state || step is FetchDocState,
        step.gives(known).begun <==> known.begun || step is Begin,
        step.gives(known).written <==> known.written || step is Write,
{
}

/// What goes before which ending: an object is indexed for an operation, its state is fetched for
/// one that is performed, and a transaction is begun and written for one that is committed and that
/// finds what it takes.
pub proof fn steps_go_with_their_ending<P>(step: Step, ending: Ending<P>, known: Facts)
    ensures
        step.goes_with(ending, known) <==> {
            &&& step is Index ==> ending is Perform || ending is Commit
            &&& step is FetchDocState ==> ending is Perform
            &&& step is Begin ==> ending is Commit
            &&& step is Write ==> (ending matches Ending::Commit(operation) && covers(
                known,
                operation.needs(),
            ))
        },
{
}

/// What is known of a request at first: nothing, the caller, or the caller and the caller's number.
pub proof fn little_is_known_at_first()
    ensures
        caller_known() == (Facts {
            caller: true,
            uid: false,
            user: false,
            member: false,
            doc_state: false,
            begun: false,
            written: false,
        }),
        uid_known() == (Facts {
            caller: true,
            uid: true,
            user: false,
            member: false,
            doc_state: false,
            begun: false,
            written: false,
        }),
        no_facts() == (Facts {
            caller: false,
            uid: false,
            user: false,
            member: false,
            doc_state: false,
            begun: false,
            written: false,
        }),
{
}

/// Access is decided by the steps that require a permission or a role, and by no others.
pub proof fn checks_decide_access(step: Step)
    ensures
        step.is_check() <==> match step {
            Step::RequirePermission { .. }
            | Step::RequireRole { .. }
            | Step::RequireCollabPermission { .. } => true,
            _ => false,
        },
{
}

/// What is needed is known only if each of the needed facts is.
pub proof fn nothing_needed_may_be_unknown(known: Facts, needed: Facts)
    ensures
        covers(known, needed) <==> {
            &&& needed.caller ==> known.caller
            &&& needed.uid ==> known.uid
            &&& needed.user ==> known.user
            &&& needed.member ==> known.member
            &&& needed.doc_state ==> known.doc_state
            &&& needed.begun ==> known.begun
            &&& needed.written ==> known.written
        },
{
}

/// A plan runs exactly if each of its steps finds what it takes in what the earlier ones left, and
/// its ending does behind all of them.
pub proof fn plans_run_step_by_step<P>(
    step: Step,
    steps: Seq<Step>,
    ending: Ending<P>,
    known: Facts,
)
    ensures
        runs(Seq::<Step>::empty(), ending, known) <==> match ending {
            Ending::Perform(operation) => covers(known, operation.needs()),
            Ending::Commit(_) => known.written,
            _ => true,
        },
        runs(seq![step] + steps, ending, known) <==> {
            &&& covers(known, step.needs())
            &&& step.goes_with(ending, known)
            &&& runs(steps, ending, step.gives(known))
        },
{
    assert((seq![step] + steps).drop_first() =~= steps);
    assert((seq![step] + steps)[0] == step);
}

} // verus!

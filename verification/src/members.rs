//! Requests about the members of a workspace.
use vstd::prelude::*;

use crate::ids::Id;
use crate::operation::Operation;
use crate::operation::no_facts;
use crate::plan::Ending;
use crate::plan::Plan;
use crate::plan::Step;
use crate::plan::Workspace;
use crate::plan::caller_known;
use crate::plan::lemma_runs_three;
use crate::plan::lemma_runs_two;
use crate::plan::open_to_all;
use crate::plan::plan_for_all;
use crate::plan::plan_with_role;
use crate::plan::with_role;
use crate::reply::ReplyKind;
use crate::reply::Role;

verus! {

/// Invites people to a workspace.
pub fn post_workspace_invite_handler<P>(
    user_uuid: Id,
    workspace_id: Id,
    invitations: P,
) -> (plan: Plan<P>)
    ensures
        plan.runs(caller_known()),
        plan.is(
            with_role(Workspace::Id(workspace_id), Role::Owner),
            Operation::InviteMembers { user_uuid, workspace_id, invitations },
            ReplyKind::Empty,
        ),
{
    plan_with_role(
        Workspace::Id(workspace_id),
        Role::Owner,
        Operation::InviteMembers { user_uuid, workspace_id, invitations },
        ReplyKind::Empty,
    )
}

/// Lists the invitations that the user has received.
pub fn get_workspace_invite_handler<P>(user_uuid: Id, status: Option<P>) -> (plan: Plan<P>)
    ensures
        plan.runs(no_facts()),
        plan.runs(caller_known()),
        plan.is(
            open_to_all(),
            Operation::ListInvitations { user_uuid, status },
            ReplyKind::Data,
        ),
{
    plan_for_all(
        Operation::ListInvitations { user_uuid, status },
        ReplyKind::Data,
    )
}

/// Reads one invitation that the user has received.
pub fn get_workspace_invite_by_id_handler<P>(user_uuid: Id, invite_id: Id) -> (plan: Plan<P>)
    ensures
        plan.runs(no_facts()),
        plan.runs(caller_known()),
        plan.is(
            open_to_all(),
            Operation::GetInvitation { user_uuid, invite_id },
            ReplyKind::Data,
        ),
{
    plan_for_all(
        Operation::GetInvitation { user_uuid, invite_id },
        ReplyKind::Data,
    )
}

/// Accepts an invitation. The token of the request is verified before the caller is read out of
/// it.
pub fn post_accept_workspace_invite_handler<P>(invite_id: Id) -> (plan: Plan<P>)
    ensures
        plan.runs(no_facts()),
        plan.is(
            seq![Step::VerifyToken, Step::ReadCaller, Step::ResolveUid],
            Operation::AcceptInvitation { invite_id },
            ReplyKind::Empty,
        ),
{
    let plan = Plan {
        steps: vec![Step::VerifyToken, Step::ReadCaller, Step::ResolveUid],
        ending: Ending::Perform(Operation::AcceptInvitation { invite_id }),
        reply: ReplyKind::Empty,
    };
    assert(plan.steps@ =~= seq![Step::VerifyToken, Step::ReadCaller, Step::ResolveUid]);
    proof {
        lemma_runs_three(plan.steps@, plan.ending);
    }
    plan
}

/// Lists the members of a workspace. Guests do not see them.
pub fn get_workspace_members_handler<P>(workspace_id: Id) -> (plan: Plan<P>)
    ensures
        plan.runs(caller_known()),
        plan.is(
            with_role(Workspace::Id(workspace_id), Role::Member),
            Operation::ListMembers { workspace_id },
            ReplyKind::Members,
        ),
{
    plan_with_role(
        Workspace::Id(workspace_id),
        Role::Member,
        Operation::ListMembers { workspace_id },
        ReplyKind::Members,
    )
}

/// Reads one member of a workspace. Guests do not see members.
pub fn get_workspace_member_handler<P>(workspace_id: Id, user_id: i64) -> (plan: Plan<P>)
    ensures
        plan.runs(caller_known()),
        plan.is(
            with_role(Workspace::Id(workspace_id), Role::Member),
            Operation::GetMember { workspace_id, user_id },
            ReplyKind::Member,
        ),
{
    plan_with_role(
        Workspace::Id(workspace_id),
        Role::Member,
        Operation::GetMember { workspace_id, user_id },
        ReplyKind::Member,
    )
}

/// Someone who is named as a member of a workspace, by an address.
pub struct WorkspaceMember(pub String);

/// The addresses of members, in the same order.
pub fn member_emails(members: Vec<WorkspaceMember>) -> (emails: Vec<String>)
    ensures
        emails@ == members@.map_values(|member: WorkspaceMember| member.0),
{
    let mut emails: Vec<String> = Vec::new();
    let ghost all = members@;
    for member in iter: members
        invariant
            iter.seq() == all,
            emails@.len() == iter.index(),
            forall|i: int| 0 <= i < emails@.len() ==> #[trigger] emails@[i] == all[i].0,
    {
        emails.push(member.0);
    }
    assert(emails@ =~= all.map_values(|member: WorkspaceMember| member.0));
    emails
}

/// Takes members out of a workspace.
pub fn remove_workspace_member_handler<P>(
    workspace_id: Id,
    members: Vec<WorkspaceMember>,
) -> (plan: Plan<P>)
    ensures
        plan.runs(caller_known()),
        plan.ending matches Ending::Perform(Operation::RemoveMembers { member_emails, .. }) && {
            &&& plan.is(
                with_role(Workspace::Id(workspace_id), Role::Owner),
                Operation::RemoveMembers { workspace_id, member_emails },
                ReplyKind::Empty,
            )
            &&& member_emails@ == members@.map_values(|member: WorkspaceMember| member.0)
        },
{
    plan_with_role(
        Workspace::Id(workspace_id),
        Role::Owner,
        Operation::RemoveMembers { workspace_id, member_emails: member_emails(members) },
        ReplyKind::Empty,
    )
}

/// Changes a member of a workspace. Only a change of the role has an effect: for any other change
/// the member is not even looked up.
pub fn update_workspace_member_handler<P>(
    workspace_id: Id,
    email: String,
    role: Option<Role>,
    changeset: P,
) -> (plan: Plan<P>)
    ensures
        plan.runs(caller_known()),
        match role {
            Some(_) => plan.is(
                with_role(Workspace::Id(workspace_id), Role::Owner).push(
                    Step::FindMember { email },
                ),
                Operation::UpdateMember { workspace_id, changeset },
                ReplyKind::Empty,
            ),
            None => {
                &&& plan.steps@ == with_role(Workspace::Id(workspace_id), Role::Owner)
                &&& plan.ending is Reply
                &&& plan.reply is Empty
            },
        },
{
    let workspace = Workspace::Id(workspace_id);
    if role.is_some() {
        let plan = Plan {
            steps: vec![
                Step::ResolveUid,
                Step::RequireRole { workspace, role: Role::Owner },
                Step::FindMember { email },
            ],
            ending: Ending::Perform(Operation::UpdateMember { workspace_id, changeset }),
            reply: ReplyKind::Empty,
        };
        proof {
            assert(plan.steps@ =~= with_role(workspace, Role::Owner).push(
                Step::FindMember { email },
            ));
            lemma_runs_three(plan.steps@, plan.ending);
        }
        plan
    } else {
        let plan = Plan {
            steps: vec![Step::ResolveUid, Step::RequireRole { workspace, role: Role::Owner }],
            ending: Ending::Reply,
            reply: ReplyKind::Empty,
        };
        proof {
            assert(plan.steps@ =~= with_role(workspace, Role::Owner));
            lemma_runs_two(plan.steps@, plan.ending);
        }
        plan
    }
}

} // verus!

//! Requests about collaborative objects, their snapshots and their members.
use vstd::prelude::*;

use crate::ids::Id;
use crate::operation::Operation;
use crate::operation::no_facts;
use crate::plan::Ending;
use crate::plan::MemberChange;
use crate::plan::Permission;
use crate::plan::Plan;
use crate::plan::Step;
use crate::plan::caller_known;
use crate::plan::for_user;
use crate::plan::lemma_runs_one;
use crate::plan::lemma_runs_three;
use crate::plan::lemma_runs_two;
use crate::plan::open_to_all;
use crate::plan::plan_for_all;
use crate::plan::plan_for_user;
use crate::reply::ReplyKind;

verus! {

/// Reads an object as it is being edited.
pub fn get_collab_handler<P>(
    workspace_id: String,
    object_id: String,
    collab_type: P,
) -> (plan: Plan<P>)
    ensures
        plan.runs(caller_known()),
        plan.is(
            for_user(),
            Operation::GetCollab {
                workspace_id,
                object_id,
                collab_type,
                from_editing_collab: true,
            },
            ReplyKind::Collab { object_id },
        ),
{
    let reply = ReplyKind::Collab { object_id: object_id.clone() };
    plan_for_user(
        Operation::GetCollab { workspace_id, object_id, collab_type, from_editing_collab: true },
        reply,
    )
}

/// Reads an object as it is being edited. The path names the object, the query its type.
pub fn v1_get_collab_handler<P>(
    workspace_id: String,
    object_id: String,
    collab_type: P,
) -> (plan: Plan<P>)
    ensures
        plan.runs(caller_known()),
        plan.is(
            for_user(),
            Operation::GetCollab {
                workspace_id,
                object_id,
                collab_type,
                from_editing_collab: true,
            },
            ReplyKind::Collab { object_id },
        ),
{
    get_collab_handler(workspace_id, object_id, collab_type)
}

/// Reads several objects as they are stored.
pub fn batch_get_collab_handler<P>(workspace_id: String, queries: P) -> (plan: Plan<P>)
    ensures
        plan.runs(caller_known()),
        plan.is(
            for_user(),
            Operation::BatchGetCollab { workspace_id, queries, from_editing_collab: false },
            ReplyKind::Data,
        ),
{
    plan_for_user(
        Operation::BatchGetCollab { workspace_id, queries, from_editing_collab: false },
        ReplyKind::Data,
    )
}

/// Stores a new state of an object, sooner or later. An object of an indexed workspace is indexed
/// first.
pub fn update_collab_handler<P>(workspace_id: String, params: P) -> (plan: Plan<P>)
    ensures
        plan.runs(caller_known()),
        plan.is(
            seq![Step::ResolveUid, Step::Index { workspace_id }],
            Operation::QueueCollab { workspace_id, params, write_immediately: false },
            ReplyKind::Empty,
        ),
{
    let plan = Plan {
        steps: vec![Step::ResolveUid, Step::Index { workspace_id: workspace_id.clone() }],
        ending: Ending::Perform(
            Operation::QueueCollab { workspace_id, params, write_immediately: false },
        ),
        reply: ReplyKind::Empty,
    };
    proof {
        assert(plan.steps@ =~= seq![Step::ResolveUid, Step::Index { workspace_id }]);
        lemma_runs_two(plan.steps@, plan.ending);
    }
    plan
}

/// Deletes an object. The fields of the request are validated before anything else.
pub fn delete_collab_handler<P>(workspace_id: String, object_id: String) -> (plan: Plan<P>)
    ensures
        plan.runs(caller_known()),
        plan.is(
            seq![Step::ValidatePayload, Step::ResolveUid],
            Operation::DeleteCollab { workspace_id, object_id },
            ReplyKind::Empty,
        ),
{
    let plan = Plan {
        steps: vec![Step::ValidatePayload, Step::ResolveUid],
        ending: Ending::Perform(Operation::DeleteCollab { workspace_id, object_id }),
        reply: ReplyKind::Empty,
    };
    proof {
        assert(plan.steps@ =~= seq![Step::ValidatePayload, Step::ResolveUid]);
        lemma_runs_two(plan.steps@, plan.ending);
    }
    plan
}

/// Applies an update that a web client has made to an object.
pub fn post_web_update_handler<P>(
    workspace_id: Id,
    object_id: Id,
    collab_type: P,
    doc_state: Vec<u8>,
) -> (plan: Plan<P>)
    ensures
        plan.runs(caller_known()),
        plan.is(
            seq![
                Step::ResolveUid,
                Step::RequireCollabPermission {
                    workspace_id,
                    object_id,
                    permission: Permission::Write,
                },
                Step::BuildUser,
            ],
            Operation::UpdatePageCollab { workspace_id, object_id, collab_type, doc_state },
            ReplyKind::Empty,
        ),
{
    let plan = Plan {
        steps: vec![
            Step::ResolveUid,
            Step::RequireCollabPermission {
                workspace_id,
                object_id,
                permission: Permission::Write,
            },
            Step::BuildUser,
        ],
        ending: Ending::Perform(
            Operation::UpdatePageCollab { workspace_id, object_id, collab_type, doc_state },
        ),
        reply: ReplyKind::Empty,
    };
    proof {
        assert(plan.steps@ =~= seq![
            Step::ResolveUid,
            Step::RequireCollabPermission {
                workspace_id,
                object_id,
                permission: Permission::Write,
            },
            Step::BuildUser,
        ]);
        lemma_runs_three(plan.steps@, plan.ending);
    }
    plan
}

/// Tells the embedding of an object. An object without one is not found.
pub fn get_collab_embed_info_handler<P>(object_id: String, collab_type: P) -> (plan: Plan<P>)
    ensures
        plan.runs(no_facts()),
        plan.is(
            open_to_all(),
            Operation::GetCollabEmbedInfo { object_id, collab_type },
            ReplyKind::Embedding { object_id },
        ),
{
    let reply = ReplyKind::Embedding { object_id: object_id.clone() };
    plan_for_all(Operation::GetCollabEmbedInfo { object_id, collab_type }, reply)
}

/// Tells the embeddings of several objects.
pub fn batch_get_collab_embed_info_handler<P>(queries: P) -> (plan: Plan<P>)
    ensures
        plan.runs(no_facts()),
        plan.runs(caller_known()),
        plan.is(
            open_to_all(),
            Operation::BatchGetCollabEmbedInfo { queries },
            ReplyKind::Data,
        ),
{
    plan_for_all(
        Operation::BatchGetCollabEmbedInfo { queries },
        ReplyKind::Data,
    )
}

/// Reads a snapshot of an object.
pub fn get_collab_snapshot_handler<P>(
    workspace_id: String,
    object_id: String,
    snapshot_id: i64,
) -> (plan: Plan<P>)
    ensures
        plan.runs(no_facts()),
        plan.runs(caller_known()),
        plan.is(
            open_to_all(),
            Operation::GetSnapshot { workspace_id, object_id, snapshot_id },
            ReplyKind::Data,
        ),
{
    plan_for_all(
        Operation::GetSnapshot { workspace_id, object_id, snapshot_id },
        ReplyKind::Data,
    )
}

/// Takes a snapshot of an object as it is being edited.
pub fn create_collab_snapshot_handler<P>(
    workspace_id: String,
    object_id: String,
    collab_type: P,
) -> (plan: Plan<P>)
    ensures
        plan.runs(caller_known()),
        plan.is(
            seq![Step::ResolveUid, Step::FetchDocState { from_editing_collab: true }],
            Operation::CreateSnapshot { workspace_id, object_id, collab_type },
            ReplyKind::Data,
        ),
{
    let plan = Plan {
        steps: vec![Step::ResolveUid, Step::FetchDocState { from_editing_collab: true }],
        ending: Ending::Perform(Operation::CreateSnapshot { workspace_id, object_id, collab_type }),
        reply: ReplyKind::Data,
    };
    proof {
        assert(plan.steps@ =~= seq![Step::ResolveUid, Step::FetchDocState { from_editing_collab: true }]);
        lemma_runs_two(plan.steps@, plan.ending);
    }
    plan
}

/// Lists the snapshots of an object.
pub fn get_all_collab_snapshot_list_handler<P>(
    workspace_id: String,
    object_id: String,
) -> (plan: Plan<P>)
    ensures
        plan.runs(no_facts()),
        plan.runs(caller_known()),
        plan.is(
            open_to_all(),
            Operation::ListSnapshots { workspace_id, object_id },
            ReplyKind::Data,
        ),
{
    plan_for_all(
        Operation::ListSnapshots { workspace_id, object_id },
        ReplyKind::Data,
    )
}

/// Adds a member to an object, which has to exist.
pub fn add_collab_member_handler<P>(
    workspace_id: String,
    object_id: String,
    member: P,
) -> (plan: Plan<P>)
    ensures
        plan.runs(no_facts()),
        plan.is(
            seq![Step::RequireCollab { workspace_id, object_id, change: MemberChange::Insert }],
            Operation::CreateCollabMember { member },
            ReplyKind::Empty,
        ),
{
    let plan = Plan {
        steps: vec![
            Step::RequireCollab { workspace_id, object_id, change: MemberChange::Insert },
        ],
        ending: Ending::Perform(Operation::CreateCollabMember { member }),
        reply: ReplyKind::Empty,
    };
    proof {
        assert(plan.steps@ =~= seq![
            Step::RequireCollab { workspace_id, object_id, change: MemberChange::Insert },
        ]);
        lemma_runs_one(plan.steps@, plan.ending);
    }
    plan
}

/// Changes a member of an object, which has to exist.
pub fn update_collab_member_handler<P>(
    user_uuid: Id,
    workspace_id: String,
    object_id: String,
    member: P,
) -> (plan: Plan<P>)
    ensures
        plan.runs(caller_known()),
        plan.is(
            seq![Step::RequireCollab { workspace_id, object_id, change: MemberChange::Update }],
            Operation::UpsertCollabMember { user_uuid, member },
            ReplyKind::Empty,
        ),
{
    let plan = Plan {
        steps: vec![
            Step::RequireCollab { workspace_id, object_id, change: MemberChange::Update },
        ],
        ending: Ending::Perform(Operation::UpsertCollabMember { user_uuid, member }),
        reply: ReplyKind::Empty,
    };
    proof {
        assert(plan.steps@ =~= seq![
            Step::RequireCollab { workspace_id, object_id, change: MemberChange::Update },
        ]);
        lemma_runs_one(plan.steps@, plan.ending);
    }
    plan
}

/// Reads a member of an object.
pub fn get_collab_member_handler<P>(member: P) -> (plan: Plan<P>)
    ensures
        plan.runs(no_facts()),
        plan.runs(caller_known()),
        plan.is(
            open_to_all(),
            Operation::GetCollabMember { member },
            ReplyKind::Data,
        ),
{
    plan_for_all(
        Operation::GetCollabMember { member },
        ReplyKind::Data,
    )
}

/// Takes a member out of an object.
pub fn remove_collab_member_handler<P>(member: P) -> (plan: Plan<P>)
    ensures
        plan.runs(no_facts()),
        plan.runs(caller_known()),
        plan.is(
            open_to_all(),
            Operation::DeleteCollabMember { member },
            ReplyKind::Empty,
        ),
{
    plan_for_all(
        Operation::DeleteCollabMember { member },
        ReplyKind::Empty,
    )
}

/// Lists the members of an object.
pub fn get_collab_member_list_handler<P>(query: P) -> (plan: Plan<P>)
    ensures
        plan.runs(no_facts()),
        plan.runs(caller_known()),
        plan.is(
            open_to_all(),
            Operation::ListCollabMembers { query },
            ReplyKind::Data,
        ),
{
    plan_for_all(
        Operation::ListCollabMembers { query },
        ReplyKind::Data,
    )
}

} // verus!

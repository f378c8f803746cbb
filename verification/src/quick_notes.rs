//! Requests about quick notes.
use vstd::prelude::*;

use crate::ids::Id;
use crate::operation::Operation;
use crate::plan::Plan;
use crate::plan::Workspace;
use crate::plan::caller_known;
use crate::plan::plan_with_role;
use crate::plan::with_role;
use crate::reply::ReplyKind;
use crate::reply::Role;

verus! {

/// Creates a quick note.
pub fn post_quick_note_handler<P>(workspace_id: Id, data: Option<P>) -> (plan: Plan<P>)
    ensures
        plan.runs(caller_known()),
        plan.is(
            with_role(Workspace::Id(workspace_id), Role::Member),
            Operation::CreateQuickNote { workspace_id, data },
            ReplyKind::Data,
        ),
{
    plan_with_role(
        Workspace::Id(workspace_id),
        Role::Member,
        Operation::CreateQuickNote { workspace_id, data },
        ReplyKind::Data,
    )
}

/// Lists the quick notes of the user.
pub fn list_quick_notes_handler<P>(
    workspace_id: Id,
    search_term: Option<String>,
    offset: Option<i32>,
    limit: Option<i32>,
) -> (plan: Plan<P>)
    ensures
        plan.runs(caller_known()),
        plan.is(
            with_role(Workspace::Id(workspace_id), Role::Member),
            Operation::ListQuickNotes { workspace_id, search_term, offset, limit },
            ReplyKind::Data,
        ),
{
    plan_with_role(
        Workspace::Id(workspace_id),
        Role::Member,
        Operation::ListQuickNotes { workspace_id, search_term, offset, limit },
        ReplyKind::Data,
    )
}

/// Changes a quick note.
pub fn update_quick_note_handler<P>(workspace_id: Id, quick_note_id: Id, data: P) -> (plan: Plan<P>)
    ensures
        plan.runs(caller_known()),
        plan.is(
            with_role(Workspace::Id(workspace_id), Role::Member),
            Operation::UpdateQuickNote { quick_note_id, data },
            ReplyKind::Empty,
        ),
{
    plan_with_role(
        Workspace::Id(workspace_id),
        Role::Member,
        Operation::UpdateQuickNote { quick_note_id, data },
        ReplyKind::Empty,
    )
}

/// Deletes a quick note.
pub fn delete_quick_note_handler<P>(workspace_id: Id, quick_note_id: Id) -> (plan: Plan<P>)
    ensures
        plan.runs(caller_known()),
        plan.is(
            with_role(Workspace::Id(workspace_id), Role::Member),
            Operation::DeleteQuickNote { quick_note_id },
            ReplyKind::Empty,
        ),
{
    plan_with_role(
        Workspace::Id(workspace_id),
        Role::Member,
        Operation::DeleteQuickNote { quick_note_id },
        ReplyKind::Empty,
    )
}

} // verus!

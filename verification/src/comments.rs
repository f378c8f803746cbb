//! Requests about comments on published views and reactions to them.
use vstd::prelude::*;

use crate::ids::Id;
use crate::operation::Operation;
use crate::operation::no_facts;
use crate::plan::Plan;
use crate::plan::caller_known;
use crate::plan::open_to_all;
use crate::plan::plan_for_all;
use crate::reply::ReplyKind;

verus! {

/// Lists the comments on a published view, as the caller sees them if there is one.
pub fn get_published_collab_comment_handler<P>(
    view_id: Id,
    user_uuid: Option<Id>,
) -> (plan: Plan<P>)
    ensures
        plan.runs(no_facts()),
        plan.runs(caller_known()),
        plan.is(
            open_to_all(),
            Operation::ListComments { view_id, user_uuid },
            ReplyKind::Comments,
        ),
{
    plan_for_all(
        Operation::ListComments { view_id, user_uuid },
        ReplyKind::Comments,
    )
}

/// Comments on a published view, or replies to a comment.
pub fn post_published_collab_comment_handler<P>(
    user_uuid: Id,
    view_id: Id,
    reply_comment_id: Option<Id>,
    content: String,
) -> (plan: Plan<P>)
    ensures
        plan.runs(no_facts()),
        plan.runs(caller_known()),
        plan.is(
            open_to_all(),
            Operation::CreateComment { view_id, reply_comment_id, content, user_uuid },
            ReplyKind::Empty,
        ),
{
    plan_for_all(
        Operation::CreateComment { view_id, reply_comment_id, content, user_uuid },
        ReplyKind::Empty,
    )
}

/// Deletes a comment.
pub fn delete_published_collab_comment_handler<P>(
    user_uuid: Id,
    view_id: Id,
    comment_id: Id,
) -> (plan: Plan<P>)
    ensures
        plan.runs(no_facts()),
        plan.runs(caller_known()),
        plan.is(
            open_to_all(),
            Operation::DeleteComment { view_id, comment_id, user_uuid },
            ReplyKind::Empty,
        ),
{
    plan_for_all(
        Operation::DeleteComment { view_id, comment_id, user_uuid },
        ReplyKind::Empty,
    )
}

/// Lists the reactions to the comments on a published view, or to one of them.
pub fn get_published_collab_reaction_handler<P>(
    view_id: Id,
    comment_id: Option<Id>,
) -> (plan: Plan<P>)
    ensures
        plan.runs(no_facts()),
        plan.runs(caller_known()),
        plan.is(
            open_to_all(),
            Operation::ListReactions { view_id, comment_id },
            ReplyKind::Reactions,
        ),
{
    plan_for_all(
        Operation::ListReactions { view_id, comment_id },
        ReplyKind::Reactions,
    )
}

/// Reacts to a comment.
pub fn post_published_collab_reaction_handler<P>(
    user_uuid: Id,
    view_id: Id,
    comment_id: Id,
    reaction_type: String,
) -> (plan: Plan<P>)
    ensures
        plan.runs(no_facts()),
        plan.runs(caller_known()),
        plan.is(
            open_to_all(),
            Operation::CreateReaction { comment_id, view_id, reaction_type, user_uuid },
            ReplyKind::Empty,
        ),
{
    plan_for_all(
        Operation::CreateReaction { comment_id, view_id, reaction_type, user_uuid },
        ReplyKind::Empty,
    )
}

/// Takes a reaction back.
pub fn delete_published_collab_reaction_handler<P>(
    user_uuid: Id,
    comment_id: Id,
    reaction_type: String,
) -> (plan: Plan<P>)
    ensures
        plan.runs(no_facts()),
        plan.runs(caller_known()),
        plan.is(
            open_to_all(),
            Operation::DeleteReaction { comment_id, reaction_type, user_uuid },
            ReplyKind::Empty,
        ),
{
    plan_for_all(
        Operation::DeleteReaction { comment_id, reaction_type, user_uuid },
        ReplyKind::Empty,
    )
}

} // verus!

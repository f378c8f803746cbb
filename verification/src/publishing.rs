//! Requests about publishing.
use vstd::prelude::*;

use crate::error::ApiError;
use crate::error::Problem;
use crate::ids::Id;
use crate::operation::Operation;
use crate::operation::no_facts;
use crate::plan::Permission;
use crate::plan::Plan;
use crate::plan::Workspace;
use crate::plan::caller_known;
use crate::plan::open_to_all;
use crate::plan::plan_for_all;
use crate::plan::plan_with_permission;
use crate::plan::plan_with_role;
use crate::plan::with_permission;
use crate::plan::with_role;
use crate::reply::ReplyKind;
use crate::reply::Role;

verus! {

/// Sets the view that the namespace of a workspace shows by default.
pub fn put_workspace_default_published_view_handler<P>(
    workspace_id: Id,
    view_id: Id,
) -> (plan: Plan<P>)
    ensures
        plan.runs(caller_known()),
        plan.is(
            with_role(Workspace::Id(workspace_id), Role::Owner),
            Operation::SetDefaultPublishView { workspace_id, view_id },
            ReplyKind::Empty,
        ),
{
    plan_with_role(
        Workspace::Id(workspace_id),
        Role::Owner,
        Operation::SetDefaultPublishView { workspace_id, view_id },
        ReplyKind::Empty,
    )
}

/// Lets the namespace of a workspace show no view by default.
pub fn delete_workspace_default_published_view_handler<P>(workspace_id: Id) -> (plan: Plan<P>)
    ensures
        plan.runs(caller_known()),
        plan.is(
            with_role(Workspace::Id(workspace_id), Role::Owner),
            Operation::UnsetDefaultPublishView { workspace_id },
            ReplyKind::Empty,
        ),
{
    plan_with_role(
        Workspace::Id(workspace_id),
        Role::Owner,
        Operation::UnsetDefaultPublishView { workspace_id },
        ReplyKind::Empty,
    )
}

/// Tells which view the namespace of a workspace shows by default.
pub fn get_workspace_published_default_info_handler<P>(workspace_id: Id) -> (plan: Plan<P>)
    ensures
        plan.runs(no_facts()),
        plan.runs(caller_known()),
        plan.is(
            open_to_all(),
            Operation::GetDefaultPublishInfo { workspace_id },
            ReplyKind::Data,
        ),
{
    plan_for_all(
        Operation::GetDefaultPublishInfo { workspace_id },
        ReplyKind::Data,
    )
}

/// Changes a namespace of a workspace.
pub fn put_publish_namespace_handler<P>(
    workspace_id: Id,
    old_namespace: String,
    new_namespace: String,
) -> (plan: Plan<P>)
    ensures
        plan.runs(caller_known()),
        plan.is(
            with_role(Workspace::Id(workspace_id), Role::Owner),
            Operation::SetPublishNamespace { workspace_id, old_namespace, new_namespace },
            ReplyKind::Empty,
        ),
{
    plan_with_role(
        Workspace::Id(workspace_id),
        Role::Owner,
        Operation::SetPublishNamespace { workspace_id, old_namespace, new_namespace },
        ReplyKind::Empty,
    )
}

/// Tells the namespace of a workspace.
pub fn get_publish_namespace_handler<P>(workspace_id: Id) -> (plan: Plan<P>)
    ensures
        plan.runs(no_facts()),
        plan.runs(caller_known()),
        plan.is(
            open_to_all(),
            Operation::GetPublishNamespace { workspace_id },
            ReplyKind::Data,
        ),
{
    plan_for_all(
        Operation::GetPublishNamespace { workspace_id },
        ReplyKind::Data,
    )
}

/// Tells the information and the metadata of the view that a namespace shows by default.
pub fn get_default_published_collab_info_meta_handler<P>(
    publish_namespace: String,
) -> (plan: Plan<P>)
    ensures
        plan.runs(no_facts()),
        plan.runs(caller_known()),
        plan.is(
            open_to_all(),
            Operation::GetDefaultPublishInfoMeta { publish_namespace },
            ReplyKind::InfoMeta,
        ),
{
    plan_for_all(
        Operation::GetDefaultPublishInfoMeta { publish_namespace },
        ReplyKind::InfoMeta,
    )
}

/// Reads the metadata of a published view.
pub fn get_v1_published_collab_handler<P>(
    publish_namespace: String,
    publish_name: String,
) -> (plan: Plan<P>)
    ensures
        plan.runs(no_facts()),
        plan.runs(caller_known()),
        plan.is(
            open_to_all(),
            Operation::GetPublishedMetadata { publish_namespace, publish_name },
            ReplyKind::Data,
        ),
{
    plan_for_all(
        Operation::GetPublishedMetadata { publish_namespace, publish_name },
        ReplyKind::Data,
    )
}

/// Reads the data of a published view.
pub fn get_published_collab_blob_handler<P>(
    publish_namespace: String,
    publish_name: String,
) -> (plan: Plan<P>)
    ensures
        plan.runs(no_facts()),
        plan.runs(caller_known()),
        plan.is(
            open_to_all(),
            Operation::GetPublishedBlob { publish_namespace, publish_name },
            ReplyKind::Blob,
        ),
{
    plan_for_all(
        Operation::GetPublishedBlob { publish_namespace, publish_name },
        ReplyKind::Blob,
    )
}

/// Copies a published view into a workspace.
pub fn post_published_duplicate_handler<P>(
    workspace_id: String,
    published_view_id: String,
    dest_view_id: String,
) -> (plan: Plan<P>)
    ensures
        plan.runs(caller_known()),
        plan.is(
            with_permission(Workspace::Name(workspace_id), Permission::Write),
            Operation::DuplicatePublished { published_view_id, workspace_id, dest_view_id },
            ReplyKind::Empty,
        ),
{
    plan_with_permission(
        Workspace::Name(workspace_id.clone()),
        Permission::Write,
        Operation::DuplicatePublished { published_view_id, workspace_id, dest_view_id },
        ReplyKind::Empty,
    )
}

/// Lists what is published of a workspace.
pub fn list_published_collab_info_handler<P>(workspace_id: Id) -> (plan: Plan<P>)
    ensures
        plan.runs(no_facts()),
        plan.runs(caller_known()),
        plan.is(
            open_to_all(),
            Operation::ListPublishInfo { workspace_id },
            ReplyKind::Data,
        ),
{
    plan_for_all(
        Operation::ListPublishInfo { workspace_id },
        ReplyKind::Data,
    )
}

/// Tells the publish information of a view, unless it has been unpublished.
pub fn get_published_collab_info_handler<P>(view_id: Id) -> (plan: Plan<P>)
    ensures
        plan.runs(no_facts()),
        plan.runs(caller_known()),
        plan.is(
            open_to_all(),
            Operation::GetPublishInfo { view_id },
            ReplyKind::StillPublished,
        ),
{
    plan_for_all(
        Operation::GetPublishInfo { view_id },
        ReplyKind::StillPublished,
    )
}

/// Tells the publish information of a view, whether or not it has been unpublished.
pub fn get_v1_published_collab_info_handler<P>(view_id: Id) -> (plan: Plan<P>)
    ensures
        plan.runs(no_facts()),
        plan.runs(caller_known()),
        plan.is(
            open_to_all(),
            Operation::GetPublishInfo { view_id },
            ReplyKind::PublishInfo,
        ),
{
    plan_for_all(
        Operation::GetPublishInfo { view_id },
        ReplyKind::PublishInfo,
    )
}

/// Tells the outline of what a namespace publishes.
pub fn get_workspace_publish_outline_handler<P>(publish_namespace: String) -> (plan: Plan<P>)
    ensures
        plan.runs(no_facts()),
        plan.runs(caller_known()),
        plan.is(
            open_to_all(),
            Operation::GetPublishOutline { publish_namespace },
            ReplyKind::Data,
        ),
{
    plan_for_all(
        Operation::GetPublishOutline { publish_namespace },
        ReplyKind::Data,
    )
}

/// Changes what is said of published views. A request without changes is refused.
pub fn patch_published_collabs_handler<P>(
    workspace_id: Id,
    user_uuid: Id,
    patches: Vec<P>,
) -> (plan: Result<Plan<P>, ApiError>)
    ensures
        if patches@.len() == 0 {
            plan matches Err(error) && error@ == Problem::InvalidRequest("No patches provided"@)
        } else {
            plan matches Ok(plan) && plan.runs(caller_known()) && plan.is(
                open_to_all(),
                Operation::PatchPublished { workspace_id, user_uuid, patches },
                ReplyKind::Empty,
            )
        },
{
    if patches.len() == 0 {
        return Err(ApiError::InvalidRequest("No patches provided".to_owned()));
    }
    Ok(
        plan_for_all(
            Operation::PatchPublished { workspace_id, user_uuid, patches },
            ReplyKind::Empty,
        ),
    )
}

/// Unpublishes views. A request without views is refused.
pub fn delete_published_collabs_handler<P>(
    workspace_id: Id,
    user_uuid: Id,
    view_ids: Vec<Id>,
) -> (plan: Result<Plan<P>, ApiError>)
    ensures
        if view_ids@.len() == 0 {
            plan matches Err(error) && error@ == Problem::InvalidRequest("No view_ids provided"@)
        } else {
            plan matches Ok(plan) && plan.runs(caller_known()) && plan.is(
                open_to_all(),
                Operation::Unpublish { workspace_id, view_ids, user_uuid },
                ReplyKind::Empty,
            )
        },
{
    if view_ids.len() == 0 {
        return Err(ApiError::InvalidRequest("No view_ids provided".to_owned()));
    }
    Ok(plan_for_all(Operation::Unpublish { workspace_id, view_ids, user_uuid }, ReplyKind::Empty))
}

} // verus!

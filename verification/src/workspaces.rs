//! Requests about workspaces and what is in them.
use vstd::prelude::*;

use crate::clock::clock_time;
use crate::clock::default_workspace_name;
use crate::clock::was_read;
use crate::clock::workspace_name;
use crate::clock::Timestamp;
use crate::ids::Id;
use crate::operation::Operation;
use crate::plan::caller_known;
use crate::plan::for_user;
use crate::plan::open_to_all;
use crate::plan::plan_for_all;
use crate::plan::plan_for_user;
use crate::plan::plan_with_permission;
use crate::plan::plan_with_role;
use crate::plan::with_permission;
use crate::plan::with_role;
use crate::plan::Ending;
use crate::plan::Permission;
use crate::plan::Plan;
use crate::plan::Step;
use crate::plan::Workspace;
use crate::reply::ReplyKind;
use crate::reply::Role;

verus! {

/// Creates a workspace for the user. A workspace without a name is named after the time of its
/// creation.
pub fn create_workspace_handler<P>(user_uuid: Id, asked_name: Option<String>) -> (plan: Plan<P>)
    ensures
        plan.runs(caller_known()),
        plan.ending matches Ending::Perform(Operation::CreateWorkspace { workspace_name, .. }) && {
            &&& plan.is(
                for_user(),
                Operation::CreateWorkspace { user_uuid, workspace_name },
                ReplyKind::Data,
            )
            &&& match asked_name {
                Some(name) => workspace_name == name,
                None => exists|now: Timestamp| #[trigger]
                    was_read(now) && clock_time(now) && workspace_name@ == default_workspace_name(
                        now.seconds as int,
                    ),
            }
        },
{
    let workspace_name = workspace_name(asked_name);
    plan_for_user(Operation::CreateWorkspace { user_uuid, workspace_name }, ReplyKind::Data)
}

/// Changes the name or the icon of a workspace.
pub fn patch_workspace_handler<P>(
    workspace_id: Id,
    workspace_name: Option<String>,
    workspace_icon: Option<String>,
) -> (plan: Plan<P>)
    ensures
        plan.runs(caller_known()),
        plan.is(
            with_permission(Workspace::Id(workspace_id), Permission::Write),
            Operation::PatchWorkspace { workspace_id, workspace_name, workspace_icon },
            ReplyKind::Empty,
        ),
        plan.steps@ == seq![
            Step::ResolveUid,
            Step::RequirePermission {
                workspace: Workspace::Id(workspace_id),
                permission: Permission::Write,
            },
        ],
{
    plan_with_permission(
        Workspace::Id(workspace_id),
        Permission::Write,
        Operation::PatchWorkspace { workspace_id, workspace_name, workspace_icon },
        ReplyKind::Empty,
    )
}

/// Deletes a workspace.
pub fn delete_workspace_handler<P>(workspace_id: Id) -> (plan: Plan<P>)
    ensures
        plan.runs(caller_known()),
        plan.is(
            with_permission(Workspace::Id(workspace_id), Permission::Delete),
            Operation::DeleteWorkspace { workspace_id },
            ReplyKind::Empty,
        ),
{
    plan_with_permission(
        Workspace::Id(workspace_id),
        Permission::Delete,
        Operation::DeleteWorkspace { workspace_id },
        ReplyKind::Empty,
    )
}

/// Lists the workspaces that the user owns or shares. Member counts and roles are given only when
/// they are asked for.
pub fn list_workspace_handler<P>(
    user_uuid: Id,
    include_member_count: Option<bool>,
    include_role: Option<bool>,
) -> (plan: Plan<P>)
    ensures
        plan.runs(caller_known()),
        plan.is(
            open_to_all(),
            Operation::ListWorkspaces {
                user_uuid,
                include_member_count: include_member_count == Some(true),
                include_role: include_role == Some(true),
            },
            ReplyKind::Data,
        ),
{
    plan_for_all(
        Operation::ListWorkspaces {
            user_uuid,
            include_member_count: include_member_count.unwrap_or(false),
            include_role: include_role.unwrap_or(false),
        },
        ReplyKind::Data,
    )
}

/// Reads the settings of a workspace.
pub fn get_workspace_settings_handler<P>(workspace_id: Id) -> (plan: Plan<P>)
    ensures
        plan.runs(caller_known()),
        plan.is(
            with_permission(Workspace::Id(workspace_id), Permission::Read),
            Operation::GetWorkspaceSettings { workspace_id },
            ReplyKind::Data,
        ),
{
    plan_with_permission(
        Workspace::Id(workspace_id),
        Permission::Read,
        Operation::GetWorkspaceSettings { workspace_id },
        ReplyKind::Data,
    )
}

/// Changes the settings of a workspace.
pub fn post_workspace_settings_handler<P>(workspace_id: Id, change: P) -> (plan: Plan<P>)
    ensures
        plan.runs(caller_known()),
        plan.is(
            with_permission(Workspace::Id(workspace_id), Permission::Write),
            Operation::UpdateWorkspaceSettings { workspace_id, change },
            ReplyKind::Data,
        ),
        plan.steps@ == seq![
            Step::ResolveUid,
            Step::RequirePermission {
                workspace: Workspace::Id(workspace_id),
                permission: Permission::Write,
            },
        ],
{
    plan_with_permission(
        Workspace::Id(workspace_id),
        Permission::Write,
        Operation::UpdateWorkspaceSettings { workspace_id, change },
        ReplyKind::Data,
    )
}

/// Opens a workspace.
pub fn open_workspace_handler<P>(user_uuid: Id, workspace_id: Id) -> (plan: Plan<P>)
    ensures
        plan.runs(caller_known()),
        plan.is(
            with_permission(Workspace::Id(workspace_id), Permission::Read),
            Operation::OpenWorkspace { user_uuid, workspace_id },
            ReplyKind::Data,
        ),
{
    plan_with_permission(
        Workspace::Id(workspace_id),
        Permission::Read,
        Operation::OpenWorkspace { user_uuid, workspace_id },
        ReplyKind::Data,
    )
}

/// Takes the user out of a workspace.
pub fn leave_workspace_handler<P>(user_uuid: Id, workspace_id: Id) -> (plan: Plan<P>)
    ensures
        plan.runs(caller_known()),
        plan.is(
            open_to_all(),
            Operation::LeaveWorkspace { user_uuid, workspace_id },
            ReplyKind::Empty,
        ),
{
    plan_for_all(Operation::LeaveWorkspace { user_uuid, workspace_id }, ReplyKind::Empty)
}

/// Tells how much the documents of a workspace take.
pub fn get_workspace_usage_handler<P>(workspace_id: Id) -> (plan: Plan<P>)
    ensures
        plan.runs(caller_known()),
        plan.is(
            with_role(Workspace::Id(workspace_id), Role::Owner),
            Operation::GetWorkspaceUsage { workspace_id },
            ReplyKind::Data,
        ),
{
    plan_with_role(
        Workspace::Id(workspace_id),
        Role::Owner,
        Operation::GetWorkspaceUsage { workspace_id },
        ReplyKind::Data,
    )
}

/// Reads the folder of a workspace: one level of it unless the client asks for more, and from the
/// workspace itself unless the client names another view.
pub fn get_workspace_folder_handler<P>(
    workspace_id: Id,
    asked_depth: Option<u32>,
    asked_root: Option<String>,
) -> (plan: Plan<P>)
    ensures
        plan.runs(caller_known()),
        plan.ending matches Ending::Perform(Operation::GetFolder { depth, root_view_id, .. }) && {
            &&& plan.is(
                with_permission(Workspace::Id(workspace_id), Permission::Read),
                Operation::GetFolder { workspace_id, depth, root_view_id },
                ReplyKind::Data,
            )
            &&& depth == if asked_depth is Some {
                asked_depth->0
            } else {
                1
            }
            &&& match asked_root {
                Some(root) => root_view_id == root,
                None => root_view_id@ == workspace_id.spec_text(),
            }
        },
{
    let root_view_id = match asked_root {
        Some(root) => root,
        None => workspace_id.text(),
    };
    plan_with_permission(
        Workspace::Id(workspace_id),
        Permission::Read,
        Operation::GetFolder { workspace_id, depth: asked_depth.unwrap_or(1), root_view_id },
        ReplyKind::Data,
    )
}

/// Lists the views that the user has opened recently.
pub fn get_recent_views_handler<P>(workspace_id: Id) -> (plan: Plan<P>)
    ensures
        plan.runs(caller_known()),
        plan.is(
            with_permission(Workspace::Id(workspace_id), Permission::Read),
            Operation::ListRecentViews { workspace_id },
            ReplyKind::Views,
        ),
{
    plan_with_permission(
        Workspace::Id(workspace_id),
        Permission::Read,
        Operation::ListRecentViews { workspace_id },
        ReplyKind::Views,
    )
}

/// Lists the views that the user has marked as favorites.
pub fn get_favorite_views_handler<P>(workspace_id: Id) -> (plan: Plan<P>)
    ensures
        plan.runs(caller_known()),
        plan.is(
            with_permission(Workspace::Id(workspace_id), Permission::Read),
            Operation::ListFavoriteViews { workspace_id },
            ReplyKind::Views,
        ),
{
    plan_with_permission(
        Workspace::Id(workspace_id),
        Permission::Read,
        Operation::ListFavoriteViews { workspace_id },
        ReplyKind::Views,
    )
}

/// Lists the views in the trash.
pub fn get_trash_views_handler<P>(workspace_id: Id) -> (plan: Plan<P>)
    ensures
        plan.runs(caller_known()),
        plan.is(
            with_permission(Workspace::Id(workspace_id), Permission::Read),
            Operation::ListTrashViews { workspace_id },
            ReplyKind::Views,
        ),
{
    plan_with_permission(
        Workspace::Id(workspace_id),
        Permission::Read,
        Operation::ListTrashViews { workspace_id },
        ReplyKind::Views,
    )
}

} // verus!

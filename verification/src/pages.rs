//! Requests about spaces and pages.
use vstd::prelude::*;

use crate::ids::Id;
use crate::operation::Operation;
use crate::plan::Permission;
use crate::plan::Plan;
use crate::plan::Workspace;
use crate::plan::as_web_user;
use crate::plan::as_web_user_with_permission;
use crate::plan::caller_known;
use crate::plan::for_user;
use crate::plan::plan_as_web_user;
use crate::plan::plan_as_web_user_with_permission;
use crate::plan::plan_for_user;
use crate::reply::ReplyKind;

verus! {

/// Creates a space.
pub fn post_space_handler<P>(
    workspace_id: Id,
    space_permission: P,
    name: String,
    space_icon: String,
    space_icon_color: String,
) -> (plan: Plan<P>)
    ensures
        plan.runs(caller_known()),
        plan.is(
            as_web_user(),
            Operation::CreateSpace {
                workspace_id,
                space_permission,
                name,
                space_icon,
                space_icon_color,
            },
            ReplyKind::Data,
        ),
{
    plan_as_web_user(
        Operation::CreateSpace {
            workspace_id,
            space_permission,
            name,
            space_icon,
            space_icon_color,
        },
        ReplyKind::Data,
    )
}

/// Changes a space.
pub fn update_space_handler<P>(
    workspace_id: Id,
    view_id: String,
    space_permission: P,
    name: String,
    space_icon: String,
    space_icon_color: String,
) -> (plan: Plan<P>)
    ensures
        plan.runs(caller_known()),
        plan.is(
            as_web_user(),
            Operation::UpdateSpace {
                workspace_id,
                view_id,
                space_permission,
                name,
                space_icon,
                space_icon_color,
            },
            ReplyKind::Empty,
        ),
{
    plan_as_web_user(
        Operation::UpdateSpace {
            workspace_id,
            view_id,
            space_permission,
            name,
            space_icon,
            space_icon_color,
        },
        ReplyKind::Empty,
    )
}

/// Creates a page.
pub fn post_page_view_handler<P>(
    workspace_id: Id,
    parent_view_id: String,
    layout: P,
    name: Option<String>,
) -> (plan: Plan<P>)
    ensures
        plan.runs(caller_known()),
        plan.is(
            as_web_user(),
            Operation::CreatePage { workspace_id, parent_view_id, layout, name },
            ReplyKind::Data,
        ),
{
    plan_as_web_user(
        Operation::CreatePage { workspace_id, parent_view_id, layout, name },
        ReplyKind::Data,
    )
}

/// Moves a page below another parent.
pub fn move_page_handler<P>(
    workspace_id: Id,
    view_id: String,
    new_parent_view_id: String,
    prev_view_id: Option<String>,
) -> (plan: Plan<P>)
    ensures
        plan.runs(caller_known()),
        plan.is(
            as_web_user(),
            Operation::MovePage { workspace_id, view_id, new_parent_view_id, prev_view_id },
            ReplyKind::Empty,
        ),
{
    plan_as_web_user(
        Operation::MovePage { workspace_id, view_id, new_parent_view_id, prev_view_id },
        ReplyKind::Empty,
    )
}

/// Moves a page to the trash.
pub fn move_page_to_trash_handler<P>(workspace_id: Id, view_id: String) -> (plan: Plan<P>)
    ensures
        plan.runs(caller_known()),
        plan.is(
            as_web_user(),
            Operation::MovePageToTrash { workspace_id, view_id },
            ReplyKind::Empty,
        ),
{
    plan_as_web_user(
        Operation::MovePageToTrash { workspace_id, view_id },
        ReplyKind::Empty,
    )
}

/// Takes a page out of the trash.
pub fn restore_page_from_trash_handler<P>(workspace_id: Id, view_id: String) -> (plan: Plan<P>)
    ensures
        plan.runs(caller_known()),
        plan.is(
            as_web_user(),
            Operation::RestorePage { workspace_id, view_id },
            ReplyKind::Empty,
        ),
{
    plan_as_web_user(
        Operation::RestorePage { workspace_id, view_id },
        ReplyKind::Empty,
    )
}

/// Takes all pages out of the trash.
pub fn restore_all_pages_from_trash_handler<P>(workspace_id: Id) -> (plan: Plan<P>)
    ensures
        plan.runs(caller_known()),
        plan.is(
            as_web_user(),
            Operation::RestoreAllPages { workspace_id },
            ReplyKind::Empty,
        ),
{
    plan_as_web_user(
        Operation::RestoreAllPages { workspace_id },
        ReplyKind::Empty,
    )
}

/// Deletes a page that is in the trash.
pub fn delete_page_from_trash_handler<P>(workspace_id: Id, view_id: String) -> (plan: Plan<P>)
    ensures
        plan.runs(caller_known()),
        plan.is(
            as_web_user_with_permission(Workspace::Id(workspace_id), Permission::Write),
            Operation::DeletePageFromTrash { workspace_id, view_id },
            ReplyKind::Empty,
        ),
{
    plan_as_web_user_with_permission(
        Workspace::Id(workspace_id),
        Permission::Write,
        Operation::DeletePageFromTrash { workspace_id, view_id },
        ReplyKind::Empty,
    )
}

/// Deletes all pages that are in the trash.
pub fn delete_all_pages_from_trash_handler<P>(workspace_id: Id) -> (plan: Plan<P>)
    ensures
        plan.runs(caller_known()),
        plan.is(
            as_web_user_with_permission(Workspace::Id(workspace_id), Permission::Write),
            Operation::DeleteAllPagesFromTrash { workspace_id },
            ReplyKind::Empty,
        ),
{
    plan_as_web_user_with_permission(
        Workspace::Id(workspace_id),
        Permission::Write,
        Operation::DeleteAllPagesFromTrash { workspace_id },
        ReplyKind::Empty,
    )
}

/// Changes the name, the icon or the extra data of a page. The extra data is passed on as text.
pub fn update_page_view_handler<P>(
    workspace_id: Id,
    view_id: String,
    name: String,
    icon: Option<P>,
    extra: Option<String>,
) -> (plan: Plan<P>)
    ensures
        plan.runs(caller_known()),
        plan.is(
            as_web_user(),
            Operation::UpdatePage { workspace_id, view_id, name, icon, extra },
            ReplyKind::Empty,
        ),
{
    plan_as_web_user(
        Operation::UpdatePage { workspace_id, view_id, name, icon, extra },
        ReplyKind::Empty,
    )
}

/// Reads a page.
pub fn get_page_view_handler<P>(workspace_id: Id, view_id: String) -> (plan: Plan<P>)
    ensures
        plan.runs(caller_known()),
        plan.is(
            for_user(),
            Operation::GetPage { workspace_id, view_id },
            ReplyKind::Data,
        ),
{
    plan_for_user(
        Operation::GetPage { workspace_id, view_id },
        ReplyKind::Data,
    )
}

} // verus!

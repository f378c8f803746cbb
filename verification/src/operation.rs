//! What the services behind this one are asked to do, and with which arguments.
use vstd::prelude::*;

use crate::clock::Timestamp;
use crate::ids::Id;

verus! {

/// A kind of database field.
#[derive(Clone, Copy, PartialEq, Eq, Structural)]
pub enum FieldType {
    Relation,
}

/// One operation of the services behind this one, with the arguments that the request fixes. `P`
/// is a value that the client sent and that is passed on unread.
///
/// What is only known later goes beside the operation: the caller, the user's number, the realtime
/// user, the number of the member that is changed, and the state of a document (see
/// [`crate::session::Known`]).
#[allow(inconsistent_fields)]
pub enum Operation<P> {
    CreateWorkspace { user_uuid: Id, workspace_name: String },
    PatchWorkspace {
        workspace_id: Id,
        workspace_name: Option<String>,
        workspace_icon: Option<String>,
    },
    DeleteWorkspace { workspace_id: Id },
    ListWorkspaces { user_uuid: Id, include_member_count: bool, include_role: bool },
    OpenWorkspace { user_uuid: Id, workspace_id: Id },
    LeaveWorkspace { user_uuid: Id, workspace_id: Id },
    GetWorkspaceSettings { workspace_id: Id },
    UpdateWorkspaceSettings { workspace_id: Id, change: P },
    GetWorkspaceUsage { workspace_id: Id },
    InviteMembers { user_uuid: Id, workspace_id: Id, invitations: P },
    ListInvitations { user_uuid: Id, status: Option<P> },
    GetInvitation { user_uuid: Id, invite_id: Id },
    AcceptInvitation { invite_id: Id },
    ListMembers { workspace_id: Id },
    GetMember { workspace_id: Id, user_id: i64 },
    RemoveMembers { workspace_id: Id, member_emails: Vec<String> },
    UpdateMember { workspace_id: Id, changeset: P },
    CreateCollab { workspace_id: String, params: P, action: String },
    QueueCollab { workspace_id: String, params: P, write_immediately: bool },
    DeleteCollab { workspace_id: String, object_id: String },
    GetCollab {
        workspace_id: String,
        object_id: String,
        collab_type: P,
        from_editing_collab: bool,
    },
    BatchGetCollab { workspace_id: String, queries: P, from_editing_collab: bool },
    UpdatePageCollab { workspace_id: Id, object_id: Id, collab_type: P, doc_state: Vec<u8> },
    GetCollabEmbedInfo { object_id: String, collab_type: P },
    BatchGetCollabEmbedInfo { queries: P },
    GetSnapshot { workspace_id: String, object_id: String, snapshot_id: i64 },
    CreateSnapshot { workspace_id: String, object_id: String, collab_type: P },
    ListSnapshots { workspace_id: String, object_id: String },
    CreateCollabMember { member: P },
    UpsertCollabMember { user_uuid: Id, member: P },
    GetCollabMember { member: P },
    DeleteCollabMember { member: P },
    ListCollabMembers { query: P },
    CreateSpace {
        workspace_id: Id,
        space_permission: P,
        name: String,
        space_icon: String,
        space_icon_color: String,
    },
    UpdateSpace {
        workspace_id: Id,
        view_id: String,
        space_permission: P,
        name: String,
        space_icon: String,
        space_icon_color: String,
    },
    CreatePage { workspace_id: Id, parent_view_id: String, layout: P, name: Option<String> },
    GetPage { workspace_id: Id, view_id: String },
    UpdatePage {
        workspace_id: Id,
        view_id: String,
        name: String,
        icon: Option<P>,
        extra: Option<String>,
    },
    MovePage {
        workspace_id: Id,
        view_id: String,
        new_parent_view_id: String,
        prev_view_id: Option<String>,
    },
    MovePageToTrash { workspace_id: Id, view_id: String },
    RestorePage { workspace_id: Id, view_id: String },
    RestoreAllPages { workspace_id: Id },
    DeletePageFromTrash { workspace_id: Id, view_id: String },
    DeleteAllPagesFromTrash { workspace_id: Id },
    GetFolder { workspace_id: Id, depth: u32, root_view_id: String },
    ListRecentViews { workspace_id: Id },
    ListFavoriteViews { workspace_id: Id },
    ListTrashViews { workspace_id: Id },
    SetDefaultPublishView { workspace_id: Id, view_id: Id },
    UnsetDefaultPublishView { workspace_id: Id },
    GetDefaultPublishInfo { workspace_id: Id },
    SetPublishNamespace { workspace_id: Id, old_namespace: String, new_namespace: String },
    GetPublishNamespace { workspace_id: Id },
    GetDefaultPublishInfoMeta { publish_namespace: String },
    GetPublishedMetadata { publish_namespace: String, publish_name: String },
    GetPublishedBlob { publish_namespace: String, publish_name: String },
    DuplicatePublished { published_view_id: String, workspace_id: String, dest_view_id: String },
    ListPublishInfo { workspace_id: Id },
    GetPublishInfo { view_id: Id },
    PatchPublished { workspace_id: Id, user_uuid: Id, patches: Vec<P> },
    Unpublish { workspace_id: Id, view_ids: Vec<Id>, user_uuid: Id },
    GetPublishOutline { publish_namespace: String },
    ListComments { view_id: Id, user_uuid: Option<Id> },
    CreateComment {
        view_id: Id,
        reply_comment_id: Option<Id>,
        content: String,
        user_uuid: Id,
    },
    DeleteComment { view_id: Id, comment_id: Id, user_uuid: Id },
    ListReactions { view_id: Id, comment_id: Option<Id> },
    CreateReaction { comment_id: Id, view_id: Id, reaction_type: String, user_uuid: Id },
    DeleteReaction { comment_id: Id, reaction_type: String, user_uuid: Id },
    ListDatabases { workspace_id: String },
    ListRowIds { workspace_id: String, database_id: String },
    InsertRow {
        workspace_id: String,
        database_id: String,
        row_id: Option<String>,
        cells: P,
        document: Option<String>,
    },
    UpsertRow {
        workspace_id: String,
        database_id: String,
        row_id: String,
        cells: P,
        document: Option<String>,
    },
    ListFields { workspace_id: String, database_id: String },
    AddField { workspace_id: String, database_id: String, field: P },
    ListRowIdsUpdated { workspace_id: String, database_id: String, after: Timestamp },
    ListRowDetails {
        workspace_id: String,
        database_id: String,
        row_ids: Vec<String>,
        unsupported_field_types: Vec<FieldType>,
        with_doc: bool,
    },
    CreateQuickNote { workspace_id: Id, data: Option<P> },
    ListQuickNotes {
        workspace_id: Id,
        search_term: Option<String>,
        offset: Option<i32>,
        limit: Option<i32>,
    },
    UpdateQuickNote { quick_note_id: Id, data: P },
    DeleteQuickNote { quick_note_id: Id },
}

/// Facts that become known while a request is served.
#[derive(Clone, Copy, PartialEq, Eq, Structural)]
pub struct Facts {
    /// The caller's identifier.
    pub caller: bool,
    /// The user's number.
    pub uid: bool,
    /// The realtime user.
    pub user: bool,
    /// The number of the member that is changed.
    pub member: bool,
    /// The state of the document.
    pub doc_state: bool,
    /// A transaction has begun.
    pub begun: bool,
    /// The operation has been written in that transaction.
    pub written: bool,
}

/// No facts.
pub open spec fn no_facts() -> Facts {
    Facts {
        caller: false,
        uid: false,
        user: false,
        member: false,
        doc_state: false,
        begun: false,
        written: false,
    }
}

impl<P> Operation<P> {
    /// The facts that this operation takes beside its own arguments.
    pub open spec fn needs(&self) -> Facts {
        match self {
            Operation::AcceptInvitation { .. } => Facts { caller: true, uid: true, ..no_facts() },
            Operation::UpdateMember { .. } => Facts { member: true, ..no_facts() },
            Operation::CreateSnapshot { .. } => Facts { doc_state: true, ..no_facts() },
            Operation::CreateWorkspace { .. }
            | Operation::CreateCollab { .. }
            | Operation::QueueCollab { .. }
            | Operation::DeleteCollab { .. }
            | Operation::GetCollab { .. }
            | Operation::BatchGetCollab { .. }
            | Operation::GetPage { .. }
            | Operation::DuplicatePublished { .. }
            | Operation::GetFolder { .. }
            | Operation::ListRecentViews { .. }
            | Operation::ListFavoriteViews { .. }
            | Operation::ListTrashViews { .. }
            | Operation::ListDatabases { .. }
            | Operation::InsertRow { .. }
            | Operation::UpsertRow { .. }
            | Operation::AddField { .. }
            | Operation::ListRowDetails { .. }
            | Operation::CreateQuickNote { .. }
            | Operation::ListQuickNotes { .. } => Facts { uid: true, ..no_facts() },
            Operation::UpdatePageCollab { .. }
            | Operation::CreateSpace { .. }
            | Operation::UpdateSpace { .. }
            | Operation::CreatePage { .. }
            | Operation::UpdatePage { .. }
            | Operation::MovePage { .. }
            | Operation::MovePageToTrash { .. }
            | Operation::RestorePage { .. }
            | Operation::RestoreAllPages { .. }
            | Operation::DeletePageFromTrash { .. }
            | Operation::DeleteAllPagesFromTrash { .. } => Facts { user: true, ..no_facts() },
            _ => no_facts(),
        }
    }

    /// The facts that this operation takes beside its own arguments.
    pub fn needed(&self) -> (needed: Facts)
        ensures
            needed == self.needs(),
    {
        let nothing = Facts {
            caller: false,
            uid: false,
            user: false,
            member: false,
            doc_state: false,
            begun: false,
            written: false,
        };
        match self {
            Operation::AcceptInvitation { .. } => Facts { caller: true, uid: true, ..nothing },
            Operation::UpdateMember { .. } => Facts { member: true, ..nothing },
            Operation::CreateSnapshot { .. } => Facts { doc_state: true, ..nothing },
            Operation::CreateWorkspace { .. }
            | Operation::CreateCollab { .. }
            | Operation::QueueCollab { .. }
            | Operation::DeleteCollab { .. }
            | Operation::GetCollab { .. }
            | Operation::BatchGetCollab { .. }
            | Operation::GetPage { .. }
            | Operation::DuplicatePublished { .. }
            | Operation::GetFolder { .. }
            | Operation::ListRecentViews { .. }
            | Operation::ListFavoriteViews { .. }
            | Operation::ListTrashViews { .. }
            | Operation::ListDatabases { .. }
            | Operation::InsertRow { .. }
            | Operation::UpsertRow { .. }
            | Operation::AddField { .. }
            | Operation::ListRowDetails { .. }
            | Operation::CreateQuickNote { .. }
            | Operation::ListQuickNotes { .. } => Facts { uid: true, ..nothing },
            Operation::UpdatePageCollab { .. }
            | Operation::CreateSpace { .. }
            | Operation::UpdateSpace { .. }
            | Operation::CreatePage { .. }
            | Operation::UpdatePage { .. }
            | Operation::MovePage { .. }
            | Operation::MovePageToTrash { .. }
            | Operation::RestorePage { .. }
            | Operation::RestoreAllPages { .. }
            | Operation::DeletePageFromTrash { .. }
            | Operation::DeleteAllPagesFromTrash { .. } => Facts { user: true, ..nothing },
            _ => nothing,
        }
    }
}

/// What an operation takes beside its arguments: the number of the member for a change of that
/// member, the state of the document for a snapshot, a realtime user for whatever is edited, and
/// the caller together with the caller's number to accept an invitation. Of the other operations,
/// some take the caller's number.
pub proof fn operations_take_what_they_are_about<P>(operation: Operation<P>)
    ensures
        operation.needs().member <==> operation is UpdateMember,
        operation.needs().doc_state <==> operation is CreateSnapshot,
        operation.needs().caller <==> operation is AcceptInvitation,
        operation.needs().user <==> {
            ||| operation is UpdatePageCollab
            ||| operation is CreateSpace
            ||| operation is UpdateSpace
            ||| operation is CreatePage
            ||| operation is UpdatePage
            ||| operation is MovePage
            ||| operation is MovePageToTrash
            ||| operation is RestorePage
            ||| operation is RestoreAllPages
            ||| operation is DeletePageFromTrash
            ||| operation is DeleteAllPagesFromTrash
        },
        operation.needs().uid <==> {
            ||| operation is AcceptInvitation
            ||| operation is CreateWorkspace
            ||| operation is CreateCollab
            ||| operation is QueueCollab
            ||| operation is DeleteCollab
            ||| operation is GetCollab
            ||| operation is BatchGetCollab
            ||| operation is GetPage
            ||| operation is DuplicatePublished
            ||| operation is GetFolder
            ||| operation is ListRecentViews
            ||| operation is ListFavoriteViews
            ||| operation is ListTrashViews
            ||| operation is ListDatabases
            ||| operation is InsertRow
            ||| operation is UpsertRow
            ||| operation is AddField
            ||| operation is ListRowDetails
            ||| operation is CreateQuickNote
            ||| operation is ListQuickNotes
        },
        !operation.needs().begun,
        !operation.needs().written,
{
}

} // verus!

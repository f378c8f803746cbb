//! The tables of routes: which handler serves a method on a pattern of paths.
//!
//! A table of routes is a [`Scope`]: a prefix and, under it, resources in the order in which a path
//! is matched against their patterns.
use vstd::prelude::*;

verus! {

/// The name of the path segment that holds the workspace.
pub const WORKSPACE_ID_PATH: &'static str = "workspace_id";

/// The name of the path segment that holds the object.
pub const COLLAB_OBJECT_ID_PATH: &'static str = "object_id";

/// The path of the workspaces.
pub const WORKSPACE_PATTERN: &'static str = "/api/workspace";

/// The path of the members of a workspace.
pub const WORKSPACE_MEMBER_PATTERN: &'static str = "/api/workspace/{workspace_id}/member";

/// The path of the invitations to a workspace.
pub const WORKSPACE_INVITE_PATTERN: &'static str = "/api/workspace/{workspace_id}/invite";

/// The path of an object.
pub const COLLAB_PATTERN: &'static str = "/api/workspace/{workspace_id}/collab/{object_id}";

/// The path of an object, in the first version of the interface.
pub const V1_COLLAB_PATTERN: &'static str = "/api/workspace/v1/{workspace_id}/collab/{object_id}";

/// The path of what a workspace publishes.
pub const WORKSPACE_PUBLISH_PATTERN: &'static str = "/api/workspace/{workspace_id}/publish";

/// The path of the namespace under which a workspace publishes.
pub const WORKSPACE_PUBLISH_NAMESPACE_PATTERN: &'static str =
    "/api/workspace/{workspace_id}/publish-namespace";

/// The largest body for an object, in bytes.
pub const COLLAB_PAYLOAD_LIMIT: usize = 5 * 1024 * 1024;

/// The largest body for a realtime message, in bytes.
pub const REALTIME_PAYLOAD_LIMIT: usize = 10 * 1024 * 1024;

/// The method of a request.
#[derive(Clone, Copy, Debug, PartialEq, Eq, Structural)]
pub enum Method {
    Get,
    Post,
    Put,
    Patch,
    Delete,
}

/// What serves a request.
#[derive(Clone, Copy, Debug, PartialEq, Eq, Structural)]
pub enum Handler {
    ListWorkspace,
    CreateWorkspace,
    PatchWorkspace,
    PostWorkspaceInvite,
    GetWorkspaceInvite,
    GetWorkspaceInviteById,
    PostAcceptWorkspaceInvite,
    DeleteWorkspace,
    GetWorkspaceSettings,
    PostWorkspaceSettings,
    OpenWorkspace,
    LeaveWorkspace,
    GetWorkspaceMembers,
    UpdateWorkspaceMember,
    RemoveWorkspaceMember,
    GetWorkspaceMember,
    CreateCollab,
    GetCollab,
    UpdateCollab,
    DeleteCollab,
    V1GetCollab,
    CollabFullSync,
    PostWebUpdate,
    AddCollabMember,
    GetCollabMember,
    UpdateCollabMember,
    RemoveCollabMember,
    GetCollabEmbedInfo,
    BatchGetCollabEmbedInfo,
    PostSpace,
    UpdateSpace,
    PostPageView,
    GetPageView,
    UpdatePageView,
    MovePage,
    MovePageToTrash,
    RestorePageFromTrash,
    RestoreAllPagesFromTrash,
    DeleteAllPagesFromTrash,
    BatchCreateCollab,
    GetWorkspaceUsage,
    GetCollabSnapshot,
    CreateCollabSnapshot,
    GetAllCollabSnapshotList,
    GetDefaultPublishedCollabInfoMeta,
    GetV1PublishedCollab,
    GetPublishedCollabBlob,
    PostPublishedDuplicate,
    ListPublishedCollabInfo,
    GetPublishedCollabInfo,
    GetV1PublishedCollabInfo,
    GetPublishedCollabComment,
    PostPublishedCollabComment,
    DeletePublishedCollabComment,
    GetPublishedCollabReaction,
    PostPublishedCollabReaction,
    DeletePublishedCollabReaction,
    PutPublishNamespace,
    GetPublishNamespace,
    PutWorkspaceDefaultPublishedView,
    DeleteWorkspaceDefaultPublishedView,
    GetWorkspacePublishedDefaultInfo,
    PostPublishCollabs,
    DeletePublishedCollabs,
    PatchPublishedCollabs,
    GetWorkspaceFolder,
    GetRecentViews,
    GetFavoriteViews,
    GetTrashViews,
    DeletePageFromTrash,
    GetWorkspacePublishOutline,
    GetCollabMemberList,
    BatchGetCollab,
    ListDatabase,
    ListDatabaseRowId,
    PostDatabaseRow,
    PutDatabaseRow,
    GetDatabaseFields,
    PostDatabaseFields,
    ListDatabaseRowIdUpdated,
    ListDatabaseRowDetails,
    ListQuickNotes,
    PostQuickNote,
    UpdateQuickNote,
    DeleteQuickNote,
    PostRealtimeMessageStream,
}

/// A pattern of paths, and what serves each method on them.
pub struct Resource {
    /// The pattern, behind the prefix of the scope. Names in braces stand for one segment each.
    pub pattern: &'static str,
    /// The largest body that is taken in, where it is not the usual one.
    pub payload_limit: Option<usize>,
    /// The handlers, in the order in which their methods are tried.
    pub routes: Vec<(Method, Handler)>,
}

/// A [`Resource`] as a mathematical value.
#[verifier::ext_equal]
pub struct ResourceModel {
    pub pattern: Seq<char>,
    pub payload_limit: Option<usize>,
    pub routes: Seq<(Method, Handler)>,
}

impl View for Resource {
    type V = ResourceModel;

    open spec fn view(&self) -> ResourceModel {
        ResourceModel {
            pattern: self.pattern@,
            payload_limit: self.payload_limit,
            routes: self.routes@,
        }
    }
}

/// Resources under one prefix.
pub struct Scope {
    pub prefix: &'static str,
    pub resources: Vec<Resource>,
}

/// The resources in memory as mathematical values.
pub open spec fn models(resources: Seq<Resource>) -> Seq<ResourceModel> {
    resources.map_values(|resource: Resource| resource@)
}

/// A resource in memory and the one that stands for it hold the same.
pub proof fn lemma_models(resources: Seq<Resource>)
    ensures
        models(resources).len() == resources.len(),
        forall|i: int|
            #![trigger resources[i]]
            #![trigger models(resources)[i]]
            0 <= i < resources.len() ==> {
                &&& models(resources)[i].pattern == resources[i].pattern@
                &&& models(resources)[i].payload_limit == resources[i].payload_limit
                &&& models(resources)[i].routes == resources[i].routes@
            },
{
}

impl View for Scope {
    type V = (Seq<char>, Seq<ResourceModel>);

    open spec fn view(&self) -> (Seq<char>, Seq<ResourceModel>) {
        (self.prefix@, models(self.resources@))
    }
}

/// A resource with a limit of its own for bodies.
pub open spec fn limited(
    pattern: Seq<char>,
    payload_limit: usize,
    routes: Seq<(Method, Handler)>,
) -> ResourceModel {
    ResourceModel { pattern, payload_limit: Some(payload_limit), routes }
}

/// A resource with the usual limit for bodies.
pub open spec fn resource(pattern: Seq<char>, routes: Seq<(Method, Handler)>) -> ResourceModel {
    ResourceModel { pattern, payload_limit: None, routes }
}

/// Workspaces, invitations and members.
pub open spec fn workspace_and_member_resources() -> Seq<ResourceModel> {
    seq![
        resource(
            ""@,
            seq![
                (Method::Get, Handler::ListWorkspace),
                (Method::Post, Handler::CreateWorkspace),
                (Method::Patch, Handler::PatchWorkspace),
            ],
        ),
        resource("/{workspace_id}/invite"@, seq![(Method::Post, Handler::PostWorkspaceInvite)]),
        resource("/invite"@, seq![(Method::Get, Handler::GetWorkspaceInvite)]),
        resource("/invite/{invite_id}"@, seq![(Method::Get, Handler::GetWorkspaceInviteById)]),
        resource(
            "/accept-invite/{invite_id}"@,
            seq![(Method::Post, Handler::PostAcceptWorkspaceInvite)],
        ),
        resource("/{workspace_id}"@, seq![(Method::Delete, Handler::DeleteWorkspace)]),
        resource(
            "/{workspace_id}/settings"@,
            seq![
                (Method::Get, Handler::GetWorkspaceSettings),
                (Method::Post, Handler::PostWorkspaceSettings),
            ],
        ),
        resource("/{workspace_id}/open"@, seq![(Method::Put, Handler::OpenWorkspace)]),
        resource("/{workspace_id}/leave"@, seq![(Method::Post, Handler::LeaveWorkspace)]),
        resource(
            "/{workspace_id}/member"@,
            seq![
                (Method::Get, Handler::GetWorkspaceMembers),
                (Method::Put, Handler::UpdateWorkspaceMember),
                (Method::Delete, Handler::RemoveWorkspaceMember),
            ],
        ),
        resource(
            "/{workspace_id}/member/user/{user_id}"@,
            seq![(Method::Get, Handler::GetWorkspaceMember)],
        ),
    ]
}

/// Collaborative objects.
pub open spec fn collab_resources() -> Seq<ResourceModel> {
    seq![
        limited(
            "/{workspace_id}/collab/{object_id}"@,
            COLLAB_PAYLOAD_LIMIT,
            seq![
                (Method::Post, Handler::CreateCollab),
                (Method::Get, Handler::GetCollab),
                (Method::Put, Handler::UpdateCollab),
                (Method::Delete, Handler::DeleteCollab),
            ],
        ),
        resource(
            "/v1/{workspace_id}/collab/{object_id}"@,
            seq![(Method::Get, Handler::V1GetCollab)],
        ),
        resource(
            "/v1/{workspace_id}/collab/{object_id}/full-sync"@,
            seq![(Method::Post, Handler::CollabFullSync)],
        ),
        resource(
            "/v1/{workspace_id}/collab/{object_id}/web-update"@,
            seq![(Method::Post, Handler::PostWebUpdate)],
        ),
        resource(
            "/{workspace_id}/collab/{object_id}/member"@,
            seq![
                (Method::Post, Handler::AddCollabMember),
                (Method::Get, Handler::GetCollabMember),
                (Method::Put, Handler::UpdateCollabMember),
                (Method::Delete, Handler::RemoveCollabMember),
            ],
        ),
        resource(
            "/{workspace_id}/collab/{object_id}/embed-info"@,
            seq![(Method::Get, Handler::GetCollabEmbedInfo)],
        ),
        resource(
            "/{workspace_id}/collab/embed-info/list"@,
            seq![(Method::Post, Handler::BatchGetCollabEmbedInfo)],
        ),
    ]
}

/// Spaces and pages.
pub open spec fn page_resources() -> Seq<ResourceModel> {
    seq![
        resource("/{workspace_id}/space"@, seq![(Method::Post, Handler::PostSpace)]),
        resource("/{workspace_id}/space/{view_id}"@, seq![(Method::Patch, Handler::UpdateSpace)]),
        resource("/{workspace_id}/page-view"@, seq![(Method::Post, Handler::PostPageView)]),
        resource(
            "/{workspace_id}/page-view/{view_id}"@,
            seq![(Method::Get, Handler::GetPageView), (Method::Patch, Handler::UpdatePageView)],
        ),
        resource(
            "/{workspace_id}/page-view/{view_id}/move"@,
            seq![(Method::Post, Handler::MovePage)],
        ),
        resource(
            "/{workspace_id}/page-view/{view_id}/move-to-trash"@,
            seq![(Method::Post, Handler::MovePageToTrash)],
        ),
        resource(
            "/{workspace_id}/page-view/{view_id}/restore-from-trash"@,
            seq![(Method::Post, Handler::RestorePageFromTrash)],
        ),
        resource(
            "/{workspace_id}/restore-all-pages-from-trash"@,
            seq![(Method::Post, Handler::RestoreAllPagesFromTrash)],
        ),
        resource(
            "/{workspace_id}/delete-all-pages-from-trash"@,
            seq![(Method::Post, Handler::DeleteAllPagesFromTrash)],
        ),
    ]
}

/// Batches, usage and snapshots.
pub open spec fn storage_resources() -> Seq<ResourceModel> {
    seq![
        resource("/{workspace_id}/batch/collab"@, seq![(Method::Post, Handler::BatchCreateCollab)]),
        resource("/{workspace_id}/usage"@, seq![(Method::Get, Handler::GetWorkspaceUsage)]),
        resource(
            "/{workspace_id}/{object_id}/snapshot"@,
            seq![
                (Method::Get, Handler::GetCollabSnapshot),
                (Method::Post, Handler::CreateCollabSnapshot),
            ],
        ),
        resource(
            "/{workspace_id}/{object_id}/snapshot/list"@,
            seq![(Method::Get, Handler::GetAllCollabSnapshotList)],
        ),
    ]
}

/// What is published, and what is said about it.
pub open spec fn publishing_resources() -> Seq<ResourceModel> {
    seq![
        resource(
            "/published/{publish_namespace}"@,
            seq![(Method::Get, Handler::GetDefaultPublishedCollabInfoMeta)],
        ),
        resource(
            "/v1/published/{publish_namespace}/{publish_name}"@,
            seq![(Method::Get, Handler::GetV1PublishedCollab)],
        ),
        resource(
            "/published/{publish_namespace}/{publish_name}/blob"@,
            seq![(Method::Get, Handler::GetPublishedCollabBlob)],
        ),
        resource(
            "{workspace_id}/published-duplicate"@,
            seq![(Method::Post, Handler::PostPublishedDuplicate)],
        ),
        resource(
            "/{workspace_id}/published-info"@,
            seq![(Method::Get, Handler::ListPublishedCollabInfo)],
        ),
        resource(
            "/published-info/{view_id}"@,
            seq![(Method::Get, Handler::GetPublishedCollabInfo)],
        ),
        resource(
            "/v1/published-info/{view_id}"@,
            seq![(Method::Get, Handler::GetV1PublishedCollabInfo)],
        ),
        resource(
            "/published-info/{view_id}/comment"@,
            seq![
                (Method::Get, Handler::GetPublishedCollabComment),
                (Method::Post, Handler::PostPublishedCollabComment),
                (Method::Delete, Handler::DeletePublishedCollabComment),
            ],
        ),
        resource(
            "/published-info/{view_id}/reaction"@,
            seq![
                (Method::Get, Handler::GetPublishedCollabReaction),
                (Method::Post, Handler::PostPublishedCollabReaction),
                (Method::Delete, Handler::DeletePublishedCollabReaction),
            ],
        ),
        resource(
            "/{workspace_id}/publish-namespace"@,
            seq![
                (Method::Put, Handler::PutPublishNamespace),
                (Method::Get, Handler::GetPublishNamespace),
            ],
        ),
        resource(
            "/{workspace_id}/publish-default"@,
            seq![
                (Method::Put, Handler::PutWorkspaceDefaultPublishedView),
                (Method::Delete, Handler::DeleteWorkspaceDefaultPublishedView),
                (Method::Get, Handler::GetWorkspacePublishedDefaultInfo),
            ],
        ),
        resource(
            "/{workspace_id}/publish"@,
            seq![
                (Method::Post, Handler::PostPublishCollabs),
                (Method::Delete, Handler::DeletePublishedCollabs),
                (Method::Patch, Handler::PatchPublishedCollabs),
            ],
        ),
    ]
}

/// Folders and views.
pub open spec fn view_resources() -> Seq<ResourceModel> {
    seq![
        resource("/{workspace_id}/folder"@, seq![(Method::Get, Handler::GetWorkspaceFolder)]),
        resource("/{workspace_id}/recent"@, seq![(Method::Get, Handler::GetRecentViews)]),
        resource("/{workspace_id}/favorite"@, seq![(Method::Get, Handler::GetFavoriteViews)]),
        resource("/{workspace_id}/trash"@, seq![(Method::Get, Handler::GetTrashViews)]),
        resource(
            "/{workspace_id}/trash/{view_id}"@,
            seq![(Method::Delete, Handler::DeletePageFromTrash)],
        ),
        resource(
            "/published-outline/{publish_namespace}"@,
            seq![(Method::Get, Handler::GetWorkspacePublishOutline)],
        ),
    ]
}

/// Members of objects, and several objects at once.
pub open spec fn collab_list_resources() -> Seq<ResourceModel> {
    seq![
        resource(
            "/{workspace_id}/collab/{object_id}/member/list"@,
            seq![(Method::Get, Handler::GetCollabMemberList)],
        ),
        resource(
            "/{workspace_id}/collab_list"@,
            seq![(Method::Get, Handler::BatchGetCollab), (Method::Post, Handler::BatchGetCollab)],
        ),
    ]
}

/// Databases.
pub open spec fn database_resources() -> Seq<ResourceModel> {
    seq![
        resource("/{workspace_id}/database"@, seq![(Method::Get, Handler::ListDatabase)]),
        resource(
            "/{workspace_id}/database/{database_id}/row"@,
            seq![
                (Method::Get, Handler::ListDatabaseRowId),
                (Method::Post, Handler::PostDatabaseRow),
                (Method::Put, Handler::PutDatabaseRow),
            ],
        ),
        resource(
            "/{workspace_id}/database/{database_id}/fields"@,
            seq![
                (Method::Get, Handler::GetDatabaseFields),
                (Method::Post, Handler::PostDatabaseFields),
            ],
        ),
        resource(
            "/{workspace_id}/database/{database_id}/row/updated"@,
            seq![(Method::Get, Handler::ListDatabaseRowIdUpdated)],
        ),
        resource(
            "/{workspace_id}/database/{database_id}/row/detail"@,
            seq![(Method::Get, Handler::ListDatabaseRowDetails)],
        ),
    ]
}

/// Quick notes.
pub open spec fn quick_note_resources() -> Seq<ResourceModel> {
    seq![
        resource(
            "/{workspace_id}/quick-note"@,
            seq![(Method::Get, Handler::ListQuickNotes), (Method::Post, Handler::PostQuickNote)],
        ),
        resource(
            "/{workspace_id}/quick-note/{quick_note_id}"@,
            seq![
                (Method::Put, Handler::UpdateQuickNote),
                (Method::Delete, Handler::DeleteQuickNote),
            ],
        ),
    ]
}

/// The resources for workspaces, in the order in which they are matched.
pub open spec fn workspace_resources() -> Seq<ResourceModel> {
    workspace_and_member_resources() + collab_resources() + page_resources() + storage_resources()
        + publishing_resources() + view_resources() + collab_list_resources()
        + database_resources() + quick_note_resources()
}

/// The resources for realtime messages.
pub open spec fn realtime_resources() -> Seq<ResourceModel> {
    seq![
        limited(
            "post/stream"@,
            REALTIME_PAYLOAD_LIMIT,
            seq![(Method::Post, Handler::PostRealtimeMessageStream)],
        ),
    ]
}

/// Adds a resource.
fn push(
    resources: &mut Vec<Resource>,
    pattern: &'static str,
    payload_limit: Option<usize>,
    routes: Vec<(Method, Handler)>,
)
    ensures
        models(final(resources)@) == models(old(resources)@).push(
            (ResourceModel { pattern: pattern@, payload_limit, routes: routes@ }),
        ),
{
    let ghost before = models(resources@);
    let resource = Resource { pattern, payload_limit, routes };
    resources.push(resource);
    assert(models(resources@) =~= before.push(resource@));
}

/// Adds the resources for: workspaces, invitations and members.
fn add_workspace_and_member_resources(resources: &mut Vec<Resource>)
    ensures
        models(final(resources)@) == models(old(resources)@) + workspace_and_member_resources(),
{
    push(
        resources,
        "",
        None,
        vec![
            (Method::Get, Handler::ListWorkspace),
            (Method::Post, Handler::CreateWorkspace),
            (Method::Patch, Handler::PatchWorkspace),
        ],
    );
    push(
        resources,
        "/{workspace_id}/invite",
        None,
        vec![(Method::Post, Handler::PostWorkspaceInvite)],
    );
    push(resources, "/invite", None, vec![(Method::Get, Handler::GetWorkspaceInvite)]);
    push(
        resources,
        "/invite/{invite_id}",
        None,
        vec![(Method::Get, Handler::GetWorkspaceInviteById)],
    );
    push(
        resources,
        "/accept-invite/{invite_id}",
        None,
        vec![(Method::Post, Handler::PostAcceptWorkspaceInvite)],
    );
    push(resources, "/{workspace_id}", None, vec![(Method::Delete, Handler::DeleteWorkspace)]);
    push(
        resources,
        "/{workspace_id}/settings",
        None,
        vec![
            (Method::Get, Handler::GetWorkspaceSettings),
            (Method::Post, Handler::PostWorkspaceSettings),
        ],
    );
    push(resources, "/{workspace_id}/open", None, vec![(Method::Put, Handler::OpenWorkspace)]);
    push(resources, "/{workspace_id}/leave", None, vec![(Method::Post, Handler::LeaveWorkspace)]);
    push(
        resources,
        "/{workspace_id}/member",
        None,
        vec![
            (Method::Get, Handler::GetWorkspaceMembers),
            (Method::Put, Handler::UpdateWorkspaceMember),
            (Method::Delete, Handler::RemoveWorkspaceMember),
        ],
    );
    push(
        resources,
        "/{workspace_id}/member/user/{user_id}",
        None,
        vec![(Method::Get, Handler::GetWorkspaceMember)],
    );
    assert(models(resources@) =~~= models(old(resources)@) + workspace_and_member_resources());
}

/// Adds the resources for: collaborative objects.
fn add_collab_resources(resources: &mut Vec<Resource>)
    ensures
        models(final(resources)@) == models(old(resources)@) + collab_resources(),
{
    push(
        resources,
        "/{workspace_id}/collab/{object_id}",
        Some(COLLAB_PAYLOAD_LIMIT),
        vec![
            (Method::Post, Handler::CreateCollab),
            (Method::Get, Handler::GetCollab),
            (Method::Put, Handler::UpdateCollab),
            (Method::Delete, Handler::DeleteCollab),
        ],
    );
    push(
        resources,
        "/v1/{workspace_id}/collab/{object_id}",
        None,
        vec![(Method::Get, Handler::V1GetCollab)],
    );
    push(
        resources,
        "/v1/{workspace_id}/collab/{object_id}/full-sync",
        None,
        vec![(Method::Post, Handler::CollabFullSync)],
    );
    push(
        resources,
        "/v1/{workspace_id}/collab/{object_id}/web-update",
        None,
        vec![(Method::Post, Handler::PostWebUpdate)],
    );
    push(
        resources,
        "/{workspace_id}/collab/{object_id}/member",
        None,
        vec![
            (Method::Post, Handler::AddCollabMember),
            (Method::Get, Handler::GetCollabMember),
            (Method::Put, Handler::UpdateCollabMember),
            (Method::Delete, Handler::RemoveCollabMember),
        ],
    );
    push(
        resources,
        "/{workspace_id}/collab/{object_id}/embed-info",
        None,
        vec![(Method::Get, Handler::GetCollabEmbedInfo)],
    );
    push(
        resources,
        "/{workspace_id}/collab/embed-info/list",
        None,
        vec![(Method::Post, Handler::BatchGetCollabEmbedInfo)],
    );
    assert(models(resources@) =~~= models(old(resources)@) + collab_resources());
}

/// Adds the resources for: spaces and pages.
fn add_page_resources(resources: &mut Vec<Resource>)
    ensures
        models(final(resources)@) == models(old(resources)@) + page_resources(),
{
    push(resources, "/{workspace_id}/space", None, vec![(Method::Post, Handler::PostSpace)]);
    push(
        resources,
        "/{workspace_id}/space/{view_id}",
        None,
        vec![(Method::Patch, Handler::UpdateSpace)],
    );
    push(resources, "/{workspace_id}/page-view", None, vec![(Method::Post, Handler::PostPageView)]);
    push(
        resources,
        "/{workspace_id}/page-view/{view_id}",
        None,
        vec![(Method::Get, Handler::GetPageView), (Method::Patch, Handler::UpdatePageView)],
    );
    push(
        resources,
        "/{workspace_id}/page-view/{view_id}/move",
        None,
        vec![(Method::Post, Handler::MovePage)],
    );
    push(
        resources,
        "/{workspace_id}/page-view/{view_id}/move-to-trash",
        None,
        vec![(Method::Post, Handler::MovePageToTrash)],
    );
    push(
        resources,
        "/{workspace_id}/page-view/{view_id}/restore-from-trash",
        None,
        vec![(Method::Post, Handler::RestorePageFromTrash)],
    );
    push(
        resources,
        "/{workspace_id}/restore-all-pages-from-trash",
        None,
        vec![(Method::Post, Handler::RestoreAllPagesFromTrash)],
    );
    push(
        resources,
        "/{workspace_id}/delete-all-pages-from-trash",
        None,
        vec![(Method::Post, Handler::DeleteAllPagesFromTrash)],
    );
    assert(models(resources@) =~~= models(old(resources)@) + page_resources());
}

/// Adds the resources for: batches, usage and snapshots.
fn add_storage_resources(resources: &mut Vec<Resource>)
    ensures
        models(final(resources)@) == models(old(resources)@) + storage_resources(),
{
    push(
        resources,
        "/{workspace_id}/batch/collab",
        None,
        vec![(Method::Post, Handler::BatchCreateCollab)],
    );
    push(resources, "/{workspace_id}/usage", None, vec![(Method::Get, Handler::GetWorkspaceUsage)]);
    push(
        resources,
        "/{workspace_id}/{object_id}/snapshot",
        None,
        vec![
            (Method::Get, Handler::GetCollabSnapshot),
            (Method::Post, Handler::CreateCollabSnapshot),
        ],
    );
    push(
        resources,
        "/{workspace_id}/{object_id}/snapshot/list",
        None,
        vec![(Method::Get, Handler::GetAllCollabSnapshotList)],
    );
    assert(models(resources@) =~~= models(old(resources)@) + storage_resources());
}

/// Adds the resources for: what is published, and what is said about it.
fn add_publishing_resources(resources: &mut Vec<Resource>)
    ensures
        models(final(resources)@) == models(old(resources)@) + publishing_resources(),
{
    push(
        resources,
        "/published/{publish_namespace}",
        None,
        vec![(Method::Get, Handler::GetDefaultPublishedCollabInfoMeta)],
    );
    push(
        resources,
        "/v1/published/{publish_namespace}/{publish_name}",
        None,
        vec![(Method::Get, Handler::GetV1PublishedCollab)],
    );
    push(
        resources,
        "/published/{publish_namespace}/{publish_name}/blob",
        None,
        vec![(Method::Get, Handler::GetPublishedCollabBlob)],
    );
    push(
        resources,
        "{workspace_id}/published-duplicate",
        None,
        vec![(Method::Post, Handler::PostPublishedDuplicate)],
    );
    push(
        resources,
        "/{workspace_id}/published-info",
        None,
        vec![(Method::Get, Handler::ListPublishedCollabInfo)],
    );
    push(
        resources,
        "/published-info/{view_id}",
        None,
        vec![(Method::Get, Handler::GetPublishedCollabInfo)],
    );
    push(
        resources,
        "/v1/published-info/{view_id}",
        None,
        vec![(Method::Get, Handler::GetV1PublishedCollabInfo)],
    );
    push(
        resources,
        "/published-info/{view_id}/comment",
        None,
        vec![
            (Method::Get, Handler::GetPublishedCollabComment),
            (Method::Post, Handler::PostPublishedCollabComment),
            (Method::Delete, Handler::DeletePublishedCollabComment),
        ],
    );
    push(
        resources,
        "/published-info/{view_id}/reaction",
        None,
        vec![
            (Method::Get, Handler::GetPublishedCollabReaction),
            (Method::Post, Handler::PostPublishedCollabReaction),
            (Method::Delete, Handler::DeletePublishedCollabReaction),
        ],
    );
    push(
        resources,
        "/{workspace_id}/publish-namespace",
        None,
        vec![
            (Method::Put, Handler::PutPublishNamespace),
            (Method::Get, Handler::GetPublishNamespace),
        ],
    );
    push(
        resources,
        "/{workspace_id}/publish-default",
        None,
        vec![
            (Method::Put, Handler::PutWorkspaceDefaultPublishedView),
            (Method::Delete, Handler::DeleteWorkspaceDefaultPublishedView),
            (Method::Get, Handler::GetWorkspacePublishedDefaultInfo),
        ],
    );
    push(
        resources,
        "/{workspace_id}/publish",
        None,
        vec![
            (Method::Post, Handler::PostPublishCollabs),
            (Method::Delete, Handler::DeletePublishedCollabs),
            (Method::Patch, Handler::PatchPublishedCollabs),
        ],
    );
    assert(models(resources@) =~~= models(old(resources)@) + publishing_resources());
}

/// Adds the resources for: folders and views.
fn add_view_resources(resources: &mut Vec<Resource>)
    ensures
        models(final(resources)@) == models(old(resources)@) + view_resources(),
{
    push(
        resources,
        "/{workspace_id}/folder",
        None,
        vec![(Method::Get, Handler::GetWorkspaceFolder)],
    );
    push(resources, "/{workspace_id}/recent", None, vec![(Method::Get, Handler::GetRecentViews)]);
    push(
        resources,
        "/{workspace_id}/favorite",
        None,
        vec![(Method::Get, Handler::GetFavoriteViews)],
    );
    push(resources, "/{workspace_id}/trash", None, vec![(Method::Get, Handler::GetTrashViews)]);
    push(
        resources,
        "/{workspace_id}/trash/{view_id}",
        None,
        vec![(Method::Delete, Handler::DeletePageFromTrash)],
    );
    push(
        resources,
        "/published-outline/{publish_namespace}",
        None,
        vec![(Method::Get, Handler::GetWorkspacePublishOutline)],
    );
    assert(models(resources@) =~~= models(old(resources)@) + view_resources());
}

/// Adds the resources for: members of objects, and several objects at once.
fn add_collab_list_resources(resources: &mut Vec<Resource>)
    ensures
        models(final(resources)@) == models(old(resources)@) + collab_list_resources(),
{
    push(
        resources,
        "/{workspace_id}/collab/{object_id}/member/list",
        None,
        vec![(Method::Get, Handler::GetCollabMemberList)],
    );
    push(
        resources,
        "/{workspace_id}/collab_list",
        None,
        vec![(Method::Get, Handler::BatchGetCollab), (Method::Post, Handler::BatchGetCollab)],
    );
    assert(models(resources@) =~~= models(old(resources)@) + collab_list_resources());
}

/// Adds the resources for: databases.
fn add_database_resources(resources: &mut Vec<Resource>)
    ensures
        models(final(resources)@) == models(old(resources)@) + database_resources(),
{
    push(resources, "/{workspace_id}/database", None, vec![(Method::Get, Handler::ListDatabase)]);
    push(
        resources,
        "/{workspace_id}/database/{database_id}/row",
        None,
        vec![
            (Method::Get, Handler::ListDatabaseRowId),
            (Method::Post, Handler::PostDatabaseRow),
            (Method::Put, Handler::PutDatabaseRow),
        ],
    );
    push(
        resources,
        "/{workspace_id}/database/{database_id}/fields",
        None,
        vec![
            (Method::Get, Handler::GetDatabaseFields),
            (Method::Post, Handler::PostDatabaseFields),
        ],
    );
    push(
        resources,
        "/{workspace_id}/database/{database_id}/row/updated",
        None,
        vec![(Method::Get, Handler::ListDatabaseRowIdUpdated)],
    );
    push(
        resources,
        "/{workspace_id}/database/{database_id}/row/detail",
        None,
        vec![(Method::Get, Handler::ListDatabaseRowDetails)],
    );
    assert(models(resources@) =~~= models(old(resources)@) + database_resources());
}

/// Adds the resources for: quick notes.
fn add_quick_note_resources(resources: &mut Vec<Resource>)
    ensures
        models(final(resources)@) == models(old(resources)@) + quick_note_resources(),
{
    push(
        resources,
        "/{workspace_id}/quick-note",
        None,
        vec![(Method::Get, Handler::ListQuickNotes), (Method::Post, Handler::PostQuickNote)],
    );
    push(
        resources,
        "/{workspace_id}/quick-note/{quick_note_id}",
        None,
        vec![(Method::Put, Handler::UpdateQuickNote), (Method::Delete, Handler::DeleteQuickNote)],
    );
    assert(models(resources@) =~~= models(old(resources)@) + quick_note_resources());
}

/// The routes for workspaces and everything in them.
pub fn workspace_scope() -> (scope: Scope)
    ensures
        scope@ == (WORKSPACE_PATTERN@, workspace_resources()),
        scope.prefix@ == "/api/workspace"@,
        scope.resources@.len() == workspace_resources().len(),
        forall|i: int|
            #![trigger scope.resources@[i]]
            0 <= i < scope.resources@.len() ==> {
                &&& scope.resources@[i].pattern@ == workspace_resources()[i].pattern
                &&& scope.resources@[i].payload_limit == workspace_resources()[i].payload_limit
                &&& scope.resources@[i].routes@ == workspace_resources()[i].routes
            },
{
    let mut resources: Vec<Resource> = Vec::new();
    assert(models(resources@) =~= Seq::<ResourceModel>::empty());
    add_workspace_and_member_resources(&mut resources);
    add_collab_resources(&mut resources);
    add_page_resources(&mut resources);
    add_storage_resources(&mut resources);
    add_publishing_resources(&mut resources);
    add_view_resources(&mut resources);
    add_collab_list_resources(&mut resources);
    add_database_resources(&mut resources);
    add_quick_note_resources(&mut resources);
    assert(models(resources@) =~= workspace_resources());
    proof {
        lemma_models(resources@);
    }
    Scope { prefix: WORKSPACE_PATTERN, resources }
}

/// The routes for realtime messages.
pub fn collab_scope() -> (scope: Scope)
    ensures
        scope@ == ("/api/realtime"@, realtime_resources()),
        scope.prefix@ == "/api/realtime"@,
        scope.resources@.len() == realtime_resources().len(),
        forall|i: int|
            #![trigger scope.resources@[i]]
            0 <= i < scope.resources@.len() ==> {
                &&& scope.resources@[i].pattern@ == realtime_resources()[i].pattern
                &&& scope.resources@[i].payload_limit == realtime_resources()[i].payload_limit
                &&& scope.resources@[i].routes@ == realtime_resources()[i].routes
            },
{
    let mut resources: Vec<Resource> = Vec::new();
    push(
        &mut resources,
        "post/stream",
        Some(REALTIME_PAYLOAD_LIMIT),
        vec![(Method::Post, Handler::PostRealtimeMessageStream)],
    );
    assert(models(resources@) =~~= realtime_resources());
    proof {
        lemma_models(resources@);
    }
    Scope { prefix: "/api/realtime", resources }
}

/// Where a handler stands: its resource in the list of them, and its route in that resource. For
/// [`Handler::BatchGetCollab`], which has two, the first of them. Realtime messages are listed
/// apart.
spec fn place(handler: Handler) -> (int, int) {
    match handler {
        Handler::ListWorkspace => (0, 0),
        Handler::CreateWorkspace => (0, 1),
        Handler::PatchWorkspace => (0, 2),
        Handler::PostWorkspaceInvite => (1, 0),
        Handler::GetWorkspaceInvite => (2, 0),
        Handler::GetWorkspaceInviteById => (3, 0),
        Handler::PostAcceptWorkspaceInvite => (4, 0),
        Handler::DeleteWorkspace => (5, 0),
        Handler::GetWorkspaceSettings => (6, 0),
        Handler::PostWorkspaceSettings => (6, 1),
        Handler::OpenWorkspace => (7, 0),
        Handler::LeaveWorkspace => (8, 0),
        Handler::GetWorkspaceMembers => (9, 0),
        Handler::UpdateWorkspaceMember => (9, 1),
        Handler::RemoveWorkspaceMember => (9, 2),
        Handler::GetWorkspaceMember => (10, 0),
        Handler::CreateCollab => (11, 0),
        Handler::GetCollab => (11, 1),
        Handler::UpdateCollab => (11, 2),
        Handler::DeleteCollab => (11, 3),
        Handler::V1GetCollab => (12, 0),
        Handler::CollabFullSync => (13, 0),
        Handler::PostWebUpdate => (14, 0),
        Handler::AddCollabMember => (15, 0),
        Handler::GetCollabMember => (15, 1),
        Handler::UpdateCollabMember => (15, 2),
        Handler::RemoveCollabMember => (15, 3),
        Handler::GetCollabEmbedInfo => (16, 0),
        Handler::BatchGetCollabEmbedInfo => (17, 0),
        Handler::PostSpace => (18, 0),
        Handler::UpdateSpace => (19, 0),
        Handler::PostPageView => (20, 0),
        Handler::GetPageView => (21, 0),
        Handler::UpdatePageView => (21, 1),
        Handler::MovePage => (22, 0),
        Handler::MovePageToTrash => (23, 0),
        Handler::RestorePageFromTrash => (24, 0),
        Handler::RestoreAllPagesFromTrash => (25, 0),
        Handler::DeleteAllPagesFromTrash => (26, 0),
        Handler::BatchCreateCollab => (27, 0),
        Handler::GetWorkspaceUsage => (28, 0),
        Handler::GetCollabSnapshot => (29, 0),
        Handler::CreateCollabSnapshot => (29, 1),
        Handler::GetAllCollabSnapshotList => (30, 0),
        Handler::GetDefaultPublishedCollabInfoMeta => (31, 0),
        Handler::GetV1PublishedCollab => (32, 0),
        Handler::GetPublishedCollabBlob => (33, 0),
        Handler::PostPublishedDuplicate => (34, 0),
        Handler::ListPublishedCollabInfo => (35, 0),
        Handler::GetPublishedCollabInfo => (36, 0),
        Handler::GetV1PublishedCollabInfo => (37, 0),
        Handler::GetPublishedCollabComment => (38, 0),
        Handler::PostPublishedCollabComment => (38, 1),
        Handler::DeletePublishedCollabComment => (38, 2),
        Handler::GetPublishedCollabReaction => (39, 0),
        Handler::PostPublishedCollabReaction => (39, 1),
        Handler::DeletePublishedCollabReaction => (39, 2),
        Handler::PutPublishNamespace => (40, 0),
        Handler::GetPublishNamespace => (40, 1),
        Handler::PutWorkspaceDefaultPublishedView => (41, 0),
        Handler::DeleteWorkspaceDefaultPublishedView => (41, 1),
        Handler::GetWorkspacePublishedDefaultInfo => (41, 2),
        Handler::PostPublishCollabs => (42, 0),
        Handler::DeletePublishedCollabs => (42, 1),
        Handler::PatchPublishedCollabs => (42, 2),
        Handler::GetWorkspaceFolder => (43, 0),
        Handler::GetRecentViews => (44, 0),
        Handler::GetFavoriteViews => (45, 0),
        Handler::GetTrashViews => (46, 0),
        Handler::DeletePageFromTrash => (47, 0),
        Handler::GetWorkspacePublishOutline => (48, 0),
        Handler::GetCollabMemberList => (49, 0),
        Handler::BatchGetCollab => (50, 0),
        Handler::ListDatabase => (51, 0),
        Handler::ListDatabaseRowId => (52, 0),
        Handler::PostDatabaseRow => (52, 1),
        Handler::PutDatabaseRow => (52, 2),
        Handler::GetDatabaseFields => (53, 0),
        Handler::PostDatabaseFields => (53, 1),
        Handler::ListDatabaseRowIdUpdated => (54, 0),
        Handler::ListDatabaseRowDetails => (55, 0),
        Handler::ListQuickNotes => (56, 0),
        Handler::PostQuickNote => (56, 1),
        Handler::UpdateQuickNote => (57, 0),
        Handler::DeleteQuickNote => (57, 1),
        Handler::PostRealtimeMessageStream => (0, 0),
    }
}

/// Every route of these resources, the first of which stands at `offset`, is the one place of its
/// handler; only several objects at once can be asked for in two ways.
spec fn in_place(resources: Seq<ResourceModel>, offset: int) -> bool {
    forall|i: int, k: int|
        0 <= i < resources.len() && 0 <= k < resources[i].routes.len() ==> {
            let route = #[trigger] resources[i].routes[k];
            place(route.1) == (offset + i, k) || route == (Method::Post, Handler::BatchGetCollab)
        }
}

/// The handler stands at its place among these resources, the first of which stands at `offset`.
spec fn stands_at(resources: Seq<ResourceModel>, offset: int, handler: Handler) -> bool {
    let (i, k) = place(handler);
    let routes = resources[i - offset].routes;
    0 <= k < routes.len() && routes[k].1 == handler
}

/// No method occurs twice in a resource.
pub open spec fn methods_once(resource: ResourceModel) -> bool {
    forall|j: int, k: int|
        0 <= j < k < resource.routes.len() ==> (#[trigger] resource.routes[j]).0
            != (#[trigger] resource.routes[k]).0
}

/// A number by which the patterns for workspaces are told apart: it is made of their length and of
/// the first character behind a leading workspace.
spec fn mark(pattern: Seq<char>) -> int {
    pattern.len() + if pattern.len() > 16 {
        1000 * (pattern[16] as int)
    } else {
        0
    }
}

/// Where the pattern with this mark stands in the list of resources.
spec fn rank(mark: int) -> int {
    if mark == 0 {
        0
    } else if mark == 105022 {
        1
    } else if mark == 7 {
        2
    } else if mark == 105019 {
        3
    } else if mark == 105026 {
        4
    } else if mark == 15 {
        5
    } else if mark == 115024 {
        6
    } else if mark == 111020 {
        7
    } else if mark == 108021 {
        8
    } else if mark == 109022 {
        9
    } else if mark == 109037 {
        10
    } else if mark == 99034 {
        11
    } else if mark == 100037 {
        12
    } else if mark == 100047 {
        13
    } else if mark == 100048 {
        14
    } else if mark == 99041 {
        15
    } else if mark == 99045 {
        16
    } else if mark == 99038 {
        17
    } else if mark == 115021 {
        18
    } else if mark == 115031 {
        19
    } else if mark == 112025 {
        20
    } else if mark == 112035 {
        21
    } else if mark == 112040 {
        22
    } else if mark == 112049 {
        23
    } else if mark == 112054 {
        24
    } else if mark == 114044 {
        25
    } else if mark == 100043 {
        26
    } else if mark == 98028 {
        27
    } else if mark == 117021 {
        28
    } else if mark == 123036 {
        29
    } else if mark == 123041 {
        30
    } else if mark == 105030 {
        31
    } else if mark == 117048 {
        32
    } else if mark == 105050 {
        33
    } else if mark == 117034 {
        34
    } else if mark == 112030 {
        35
    } else if mark == 123025 {
        36
    } else if mark == 102028 {
        37
    } else if mark == 123033 {
        38
    } else if mark == 123034 {
        39
    } else if mark == 112033 {
        40
    } else if mark == 112031 {
        41
    } else if mark == 112023 {
        42
    } else if mark == 102022 {
        43
    } else if mark == 114022 {
        44
    } else if mark == 102024 {
        45
    } else if mark == 116021 {
        46
    } else if mark == 116031 {
        47
    } else if mark == 110038 {
        48
    } else if mark == 99046 {
        49
    } else if mark == 99027 {
        50
    } else if mark == 100024 {
        51
    } else if mark == 100042 {
        52
    } else if mark == 100045 {
        53
    } else if mark == 100050 {
        54
    } else if mark == 100049 {
        55
    } else if mark == 113026 {
        56
    } else if mark == 113042 {
        57
    } else {
        -1
    }
}

proof fn lemma_workspace_and_member_resources()
    ensures
        workspace_and_member_resources().len() == 11,
        in_place(workspace_and_member_resources(), 0),
        forall|i: int|
            #![trigger workspace_and_member_resources()[i]]
            0 <= i < 11 ==> methods_once(workspace_and_member_resources()[i]) && rank(
                mark(workspace_and_member_resources()[i].pattern),
            ) == 0 + i,
        forall|handler: Handler|
            0 <= (#[trigger] place(handler)).0 < 11 && handler !is PostRealtimeMessageStream
                ==> stands_at(workspace_and_member_resources(), 0, handler),
{
    reveal_strlit("");
    reveal_strlit("/{workspace_id}/invite");
    reveal_strlit("/invite");
    reveal_strlit("/invite/{invite_id}");
    reveal_strlit("/accept-invite/{invite_id}");
    reveal_strlit("/{workspace_id}");
    reveal_strlit("/{workspace_id}/settings");
    reveal_strlit("/{workspace_id}/open");
    reveal_strlit("/{workspace_id}/leave");
    reveal_strlit("/{workspace_id}/member");
    reveal_strlit("/{workspace_id}/member/user/{user_id}");
}

proof fn lemma_collab_resources()
    ensures
        collab_resources().len() == 7,
        in_place(collab_resources(), 11),
        forall|i: int|
            #![trigger collab_resources()[i]]
            0 <= i < 7 ==> methods_once(collab_resources()[i]) && rank(
                mark(collab_resources()[i].pattern),
            ) == 11 + i,
        forall|handler: Handler|
            11 <= (#[trigger] place(handler)).0 < 18 && handler !is PostRealtimeMessageStream
                ==> stands_at(collab_resources(), 11, handler),
{
    reveal_strlit("/{workspace_id}/collab/{object_id}");
    reveal_strlit("/v1/{workspace_id}/collab/{object_id}");
    reveal_strlit("/v1/{workspace_id}/collab/{object_id}/full-sync");
    reveal_strlit("/v1/{workspace_id}/collab/{object_id}/web-update");
    reveal_strlit("/{workspace_id}/collab/{object_id}/member");
    reveal_strlit("/{workspace_id}/collab/{object_id}/embed-info");
    reveal_strlit("/{workspace_id}/collab/embed-info/list");
}

proof fn lemma_page_resources()
    ensures
        page_resources().len() == 9,
        in_place(page_resources(), 18),
        forall|i: int|
            #![trigger page_resources()[i]]
            0 <= i < 9 ==> methods_once(page_resources()[i]) && rank(
                mark(page_resources()[i].pattern),
            ) == 18 + i,
        forall|handler: Handler|
            18 <= (#[trigger] place(handler)).0 < 27 && handler !is PostRealtimeMessageStream
                ==> stands_at(page_resources(), 18, handler),
{
    reveal_strlit("/{workspace_id}/space");
    reveal_strlit("/{workspace_id}/space/{view_id}");
    reveal_strlit("/{workspace_id}/page-view");
    reveal_strlit("/{workspace_id}/page-view/{view_id}");
    reveal_strlit("/{workspace_id}/page-view/{view_id}/move");
    reveal_strlit("/{workspace_id}/page-view/{view_id}/move-to-trash");
    reveal_strlit("/{workspace_id}/page-view/{view_id}/restore-from-trash");
    reveal_strlit("/{workspace_id}/restore-all-pages-from-trash");
    reveal_strlit("/{workspace_id}/delete-all-pages-from-trash");
}

proof fn lemma_storage_resources()
    ensures
        storage_resources().len() == 4,
        in_place(storage_resources(), 27),
        forall|i: int|
            #![trigger storage_resources()[i]]
            0 <= i < 4 ==> methods_once(storage_resources()[i]) && rank(
                mark(storage_resources()[i].pattern),
            ) == 27 + i,
        forall|handler: Handler|
            27 <= (#[trigger] place(handler)).0 < 31 && handler !is PostRealtimeMessageStream
                ==> stands_at(storage_resources(), 27, handler),
{
    reveal_strlit("/{workspace_id}/batch/collab");
    reveal_strlit("/{workspace_id}/usage");
    reveal_strlit("/{workspace_id}/{object_id}/snapshot");
    reveal_strlit("/{workspace_id}/{object_id}/snapshot/list");
}

proof fn lemma_publishing_resources()
    ensures
        publishing_resources().len() == 12,
        in_place(publishing_resources(), 31),
        forall|i: int|
            #![trigger publishing_resources()[i]]
            0 <= i < 12 ==> methods_once(publishing_resources()[i]) && rank(
                mark(publishing_resources()[i].pattern),
            ) == 31 + i,
        forall|handler: Handler|
            31 <= (#[trigger] place(handler)).0 < 43 && handler !is PostRealtimeMessageStream
                ==> stands_at(publishing_resources(), 31, handler),
{
    reveal_strlit("/published/{publish_namespace}");
    reveal_strlit("/v1/published/{publish_namespace}/{publish_name}");
    reveal_strlit("/published/{publish_namespace}/{publish_name}/blob");
    reveal_strlit("{workspace_id}/published-duplicate");
    reveal_strlit("/{workspace_id}/published-info");
    reveal_strlit("/published-info/{view_id}");
    reveal_strlit("/v1/published-info/{view_id}");
    reveal_strlit("/published-info/{view_id}/comment");
    reveal_strlit("/published-info/{view_id}/reaction");
    reveal_strlit("/{workspace_id}/publish-namespace");
    reveal_strlit("/{workspace_id}/publish-default");
    reveal_strlit("/{workspace_id}/publish");
}

proof fn lemma_view_resources()
    ensures
        view_resources().len() == 6,
        in_place(view_resources(), 43),
        forall|i: int|
            #![trigger view_resources()[i]]
            0 <= i < 6 ==> methods_once(view_resources()[i]) && rank(
                mark(view_resources()[i].pattern),
            ) == 43 + i,
        forall|handler: Handler|
            43 <= (#[trigger] place(handler)).0 < 49 && handler !is PostRealtimeMessageStream
                ==> stands_at(view_resources(), 43, handler),
{
    reveal_strlit("/{workspace_id}/folder");
    reveal_strlit("/{workspace_id}/recent");
    reveal_strlit("/{workspace_id}/favorite");
    reveal_strlit("/{workspace_id}/trash");
    reveal_strlit("/{workspace_id}/trash/{view_id}");
    reveal_strlit("/published-outline/{publish_namespace}");
}

proof fn lemma_collab_list_resources()
    ensures
        collab_list_resources().len() == 2,
        in_place(collab_list_resources(), 49),
        forall|i: int|
            #![trigger collab_list_resources()[i]]
            0 <= i < 2 ==> methods_once(collab_list_resources()[i]) && rank(
                mark(collab_list_resources()[i].pattern),
            ) == 49 + i,
        forall|handler: Handler|
            49 <= (#[trigger] place(handler)).0 < 51 && handler !is PostRealtimeMessageStream
                ==> stands_at(collab_list_resources(), 49, handler),
{
    reveal_strlit("/{workspace_id}/collab/{object_id}/member/list");
    reveal_strlit("/{workspace_id}/collab_list");
}

proof fn lemma_database_resources()
    ensures
        database_resources().len() == 5,
        in_place(database_resources(), 51),
        forall|i: int|
            #![trigger database_resources()[i]]
            0 <= i < 5 ==> methods_once(database_resources()[i]) && rank(
                mark(database_resources()[i].pattern),
            ) == 51 + i,
        forall|handler: Handler|
            51 <= (#[trigger] place(handler)).0 < 56 && handler !is PostRealtimeMessageStream
                ==> stands_at(database_resources(), 51, handler),
{
    reveal_strlit("/{workspace_id}/database");
    reveal_strlit("/{workspace_id}/database/{database_id}/row");
    reveal_strlit("/{workspace_id}/database/{database_id}/fields");
    reveal_strlit("/{workspace_id}/database/{database_id}/row/updated");
    reveal_strlit("/{workspace_id}/database/{database_id}/row/detail");
}

proof fn lemma_quick_note_resources()
    ensures
        quick_note_resources().len() == 2,
        in_place(quick_note_resources(), 56),
        forall|i: int|
            #![trigger quick_note_resources()[i]]
            0 <= i < 2 ==> methods_once(quick_note_resources()[i]) && rank(
                mark(quick_note_resources()[i].pattern),
            ) == 56 + i,
        forall|handler: Handler|
            56 <= (#[trigger] place(handler)).0 < 58 && handler !is PostRealtimeMessageStream
                ==> stands_at(quick_note_resources(), 56, handler),
{
    reveal_strlit("/{workspace_id}/quick-note");
    reveal_strlit("/{workspace_id}/quick-note/{quick_note_id}");
}

/// Where the groups of resources stand in the whole list.
proof fn lemma_workspace_resources()
    ensures
        workspace_resources().len() == 58,
        forall|i: int|
            #![trigger workspace_resources()[i]]
            0 <= i < 11 ==> workspace_resources()[i] == workspace_and_member_resources()[i - 0],
        forall|i: int|
            #![trigger workspace_resources()[i]]
            11 <= i < 18 ==> workspace_resources()[i] == collab_resources()[i - 11],
        forall|i: int|
            #![trigger workspace_resources()[i]]
            18 <= i < 27 ==> workspace_resources()[i] == page_resources()[i - 18],
        forall|i: int|
            #![trigger workspace_resources()[i]]
            27 <= i < 31 ==> workspace_resources()[i] == storage_resources()[i - 27],
        forall|i: int|
            #![trigger workspace_resources()[i]]
            31 <= i < 43 ==> workspace_resources()[i] == publishing_resources()[i - 31],
        forall|i: int|
            #![trigger workspace_resources()[i]]
            43 <= i < 49 ==> workspace_resources()[i] == view_resources()[i - 43],
        forall|i: int|
            #![trigger workspace_resources()[i]]
            49 <= i < 51 ==> workspace_resources()[i] == collab_list_resources()[i - 49],
        forall|i: int|
            #![trigger workspace_resources()[i]]
            51 <= i < 56 ==> workspace_resources()[i] == database_resources()[i - 51],
        forall|i: int|
            #![trigger workspace_resources()[i]]
            56 <= i < 58 ==> workspace_resources()[i] == quick_note_resources()[i - 56],
{
    lemma_workspace_and_member_resources();
    lemma_collab_resources();
    lemma_page_resources();
    lemma_storage_resources();
    lemma_publishing_resources();
    lemma_view_resources();
    lemma_collab_list_resources();
    lemma_database_resources();
    lemma_quick_note_resources();
}

/// What is known of the resource at `i`.
proof fn lemma_resource(i: int)
    requires
        0 <= i < workspace_resources().len(),
    ensures
        methods_once(workspace_resources()[i]),
        rank(mark(workspace_resources()[i].pattern)) == i,
        forall|k: int|
            #![trigger workspace_resources()[i].routes[k]]
            0 <= k < workspace_resources()[i].routes.len() ==> place(
                workspace_resources()[i].routes[k].1,
            ) == (i, k) || workspace_resources()[i].routes[k] == (
                Method::Post,
                Handler::BatchGetCollab,
            ),
        forall|handler: Handler|
            (#[trigger] place(handler)).0 == i && handler !is PostRealtimeMessageStream
                ==> stands_at(workspace_resources(), 0, handler),
{
    lemma_workspace_resources();
    let whole = workspace_resources();

    if i < 11 {
        lemma_workspace_and_member_resources();
        assert(whole[i] == workspace_and_member_resources()[i - 0]);
    } else if i < 18 {
        lemma_collab_resources();
        assert(whole[i] == collab_resources()[i - 11]);
    } else if i < 27 {
        lemma_page_resources();
        assert(whole[i] == page_resources()[i - 18]);
    } else if i < 31 {
        lemma_storage_resources();
        assert(whole[i] == storage_resources()[i - 27]);
    } else if i < 43 {
        lemma_publishing_resources();
        assert(whole[i] == publishing_resources()[i - 31]);
    } else if i < 49 {
        lemma_view_resources();
        assert(whole[i] == view_resources()[i - 43]);
    } else if i < 51 {
        lemma_collab_list_resources();
        assert(whole[i] == collab_list_resources()[i - 49]);
    } else if i < 56 {
        lemma_database_resources();
        assert(whole[i] == database_resources()[i - 51]);
    } else {
        lemma_quick_note_resources();
        assert(whole[i] == quick_note_resources()[i - 56]);
    }
}

/// No two resources share a pattern, so that none of them is hidden behind an equal one.
pub proof fn patterns_occur_once(i: int, j: int)
    requires
        0 <= i < workspace_resources().len(),
        0 <= j < workspace_resources().len(),
        workspace_resources()[i].pattern == workspace_resources()[j].pattern,
    ensures
        i == j,
{
    lemma_resource(i);
    lemma_resource(j);
}

/// A method has one handler on a resource, so that none of them is hidden behind another.
pub proof fn methods_occur_once(i: int)
    ensures
        0 <= i < workspace_resources().len() ==> methods_once(workspace_resources()[i]),
        0 <= i < realtime_resources().len() ==> methods_once(realtime_resources()[i]),
{
    if 0 <= i < workspace_resources().len() {
        lemma_resource(i);
    }
}

/// A handler serves one method on one resource. The exception is the handler that reads several
/// objects at once.
pub proof fn handlers_occur_once(i: int, k: int, j: int, l: int)
    requires
        0 <= i < workspace_resources().len(),
        0 <= k < workspace_resources()[i].routes.len(),
        0 <= j < workspace_resources().len(),
        0 <= l < workspace_resources()[j].routes.len(),
        workspace_resources()[i].routes[k].1 == workspace_resources()[j].routes[l].1,
        workspace_resources()[i].routes[k].1 !is BatchGetCollab,
    ensures
        i == j && k == l,
{
    lemma_resource(i);
    lemma_resource(j);
}

/// The handler serves some method on some of these resources.
pub open spec fn serves(resources: Seq<ResourceModel>, handler: Handler) -> bool {
    exists|i: int, k: int|
        0 <= i < resources.len() && 0 <= k < resources[i].routes.len()
            && (#[trigger] resources[i].routes[k]).1 == handler
}

/// Every handler has a route: the one for realtime messages under its own prefix, all others
/// under that of the workspaces.
pub proof fn every_handler_is_routed(handler: Handler)
    ensures
        serves(
            if handler is PostRealtimeMessageStream {
                realtime_resources()
            } else {
                workspace_resources()
            },
            handler,
        ),
{
    let (i, k) = place(handler);
    if handler is PostRealtimeMessageStream {
        assert(realtime_resources()[0].routes[0].1 == handler);
    } else {
        lemma_workspace_resources();
        lemma_resource(i);
        assert(workspace_resources()[i].routes[k].1 == handler);
    }
}

/// The paths that are written out in full.
pub open spec fn full_patterns() -> Seq<Seq<char>> {
    seq![
        WORKSPACE_PATTERN@,
        WORKSPACE_MEMBER_PATTERN@,
        WORKSPACE_INVITE_PATTERN@,
        COLLAB_PATTERN@,
        V1_COLLAB_PATTERN@,
        WORKSPACE_PUBLISH_PATTERN@,
        WORKSPACE_PUBLISH_NAMESPACE_PATTERN@,
    ]
}

/// The path is that of a resource for workspaces.
pub open spec fn is_routed(path: Seq<char>) -> bool {
    exists|i: int|
        0 <= i < workspace_resources().len() && path == WORKSPACE_PATTERN@
            + #[trigger] workspace_resources()[i].pattern
}

/// The paths that are written out in full are those of resources.
pub proof fn full_patterns_are_routed(n: int)
    requires
        0 <= n < full_patterns().len(),
    ensures
        is_routed(full_patterns()[n]),
{
    lemma_workspace_resources();
    reveal_strlit("/api/workspace");
    let path = full_patterns()[n];
    if n == 0 {
        reveal_strlit("");
        assert(path =~= WORKSPACE_PATTERN@ + workspace_resources()[0].pattern);
    } else if n == 1 {
        reveal_strlit("/api/workspace/{workspace_id}/member");
        reveal_strlit("/{workspace_id}/member");
        assert(path =~= WORKSPACE_PATTERN@ + workspace_resources()[9].pattern);
    } else if n == 2 {
        reveal_strlit("/api/workspace/{workspace_id}/invite");
        reveal_strlit("/{workspace_id}/invite");
        assert(path =~= WORKSPACE_PATTERN@ + workspace_resources()[1].pattern);
    } else if n == 3 {
        reveal_strlit("/api/workspace/{workspace_id}/collab/{object_id}");
        reveal_strlit("/{workspace_id}/collab/{object_id}");
        assert(path =~= WORKSPACE_PATTERN@ + workspace_resources()[11].pattern);
    } else if n == 4 {
        reveal_strlit("/api/workspace/v1/{workspace_id}/collab/{object_id}");
        reveal_strlit("/v1/{workspace_id}/collab/{object_id}");
        assert(path =~= WORKSPACE_PATTERN@ + workspace_resources()[12].pattern);
    } else if n == 5 {
        reveal_strlit("/api/workspace/{workspace_id}/publish");
        reveal_strlit("/{workspace_id}/publish");
        assert(path =~= WORKSPACE_PATTERN@ + workspace_resources()[42].pattern);
    } else {
        reveal_strlit("/api/workspace/{workspace_id}/publish-namespace");
        reveal_strlit("/{workspace_id}/publish-namespace");
        assert(path =~= WORKSPACE_PATTERN@ + workspace_resources()[40].pattern);
    }
}

/// Workspaces, invitations and members are served where they are said to be: whatever route there
/// is leads from its pattern and its method to the handler for them, and to no other.
pub proof fn workspace_and_member_routes_lead_to_their_handlers(i: int, k: int)
    requires
        0 <= i < 11,
        0 <= k < workspace_resources()[i].routes.len(),
    ensures
        ({
            let pattern = workspace_resources()[i].pattern;
            let (method, handler) = workspace_resources()[i].routes[k];
            match handler {
                Handler::ListWorkspace => i == 0 && pattern == ""@ && method is Get,
                Handler::CreateWorkspace => i == 0 && pattern == ""@ && method is Post,
                Handler::PatchWorkspace => i == 0 && pattern == ""@ && method is Patch,
                Handler::PostWorkspaceInvite => i == 1 && pattern == "/{workspace_id}/invite"@
                    && method is Post,
                Handler::GetWorkspaceInvite => i == 2 && pattern == "/invite"@ && method is Get,
                Handler::GetWorkspaceInviteById => i == 3 && pattern == "/invite/{invite_id}"@
                    && method is Get,
                Handler::PostAcceptWorkspaceInvite => i == 4
                    && pattern == "/accept-invite/{invite_id}"@ && method is Post,
                Handler::DeleteWorkspace => i == 5 && pattern == "/{workspace_id}"@
                    && method is Delete,
                Handler::GetWorkspaceSettings => i == 6 && pattern == "/{workspace_id}/settings"@
                    && method is Get,
                Handler::PostWorkspaceSettings => i == 6 && pattern == "/{workspace_id}/settings"@
                    && method is Post,
                Handler::OpenWorkspace => i == 7 && pattern == "/{workspace_id}/open"@
                    && method is Put,
                Handler::LeaveWorkspace => i == 8 && pattern == "/{workspace_id}/leave"@
                    && method is Post,
                Handler::GetWorkspaceMembers => i == 9 && pattern == "/{workspace_id}/member"@
                    && method is Get,
                Handler::UpdateWorkspaceMember => i == 9 && pattern == "/{workspace_id}/member"@
                    && method is Put,
                Handler::RemoveWorkspaceMember => i == 9 && pattern == "/{workspace_id}/member"@
                    && method is Delete,
                Handler::GetWorkspaceMember => i == 10
                    && pattern == "/{workspace_id}/member/user/{user_id}"@ && method is Get,
                _ => false,
            }
        }),
{
    lemma_workspace_resources();
    assert(workspace_resources()[i] == workspace_and_member_resources()[i - 0]);
}

/// Objects are served where they are said to be: whatever route there is leads from its pattern
/// and its method to the handler for them, and to no other.
pub proof fn collab_routes_lead_to_their_handlers(i: int, k: int)
    requires
        11 <= i < 18,
        0 <= k < workspace_resources()[i].routes.len(),
    ensures
        ({
            let pattern = workspace_resources()[i].pattern;
            let (method, handler) = workspace_resources()[i].routes[k];
            match handler {
                Handler::CreateCollab => i == 11 && pattern == "/{workspace_id}/collab/{object_id}"@
                    && method is Post,
                Handler::GetCollab => i == 11 && pattern == "/{workspace_id}/collab/{object_id}"@
                    && method is Get,
                Handler::UpdateCollab => i == 11 && pattern == "/{workspace_id}/collab/{object_id}"@
                    && method is Put,
                Handler::DeleteCollab => i == 11 && pattern == "/{workspace_id}/collab/{object_id}"@
                    && method is Delete,
                Handler::V1GetCollab => i == 12
                    && pattern == "/v1/{workspace_id}/collab/{object_id}"@ && method is Get,
                Handler::CollabFullSync => i == 13
                    && pattern == "/v1/{workspace_id}/collab/{object_id}/full-sync"@
                    && method is Post,
                Handler::PostWebUpdate => i == 14
                    && pattern == "/v1/{workspace_id}/collab/{object_id}/web-update"@
                    && method is Post,
                Handler::AddCollabMember => i == 15
                    && pattern == "/{workspace_id}/collab/{object_id}/member"@ && method is Post,
                Handler::GetCollabMember => i == 15
                    && pattern == "/{workspace_id}/collab/{object_id}/member"@ && method is Get,
                Handler::UpdateCollabMember => i == 15
                    && pattern == "/{workspace_id}/collab/{object_id}/member"@ && method is Put,
                Handler::RemoveCollabMember => i == 15
                    && pattern == "/{workspace_id}/collab/{object_id}/member"@ && method is Delete,
                Handler::GetCollabEmbedInfo => i == 16
                    && pattern == "/{workspace_id}/collab/{object_id}/embed-info"@ && method is Get,
                Handler::BatchGetCollabEmbedInfo => i == 17
                    && pattern == "/{workspace_id}/collab/embed-info/list"@ && method is Post,
                _ => false,
            }
        }),
{
    lemma_workspace_resources();
    assert(workspace_resources()[i] == collab_resources()[i - 11]);
}

/// Spaces and pages are served where they are said to be: whatever route there is leads from its
/// pattern and its method to the handler for them, and to no other.
pub proof fn page_routes_lead_to_their_handlers(i: int, k: int)
    requires
        18 <= i < 27,
        0 <= k < workspace_resources()[i].routes.len(),
    ensures
        ({
            let pattern = workspace_resources()[i].pattern;
            let (method, handler) = workspace_resources()[i].routes[k];
            match handler {
                Handler::PostSpace => i == 18 && pattern == "/{workspace_id}/space"@
                    && method is Post,
                Handler::UpdateSpace => i == 19 && pattern == "/{workspace_id}/space/{view_id}"@
                    && method is Patch,
                Handler::PostPageView => i == 20 && pattern == "/{workspace_id}/page-view"@
                    && method is Post,
                Handler::GetPageView => i == 21 && pattern == "/{workspace_id}/page-view/{view_id}"@
                    && method is Get,
                Handler::UpdatePageView => i == 21
                    && pattern == "/{workspace_id}/page-view/{view_id}"@ && method is Patch,
                Handler::MovePage => i == 22
                    && pattern == "/{workspace_id}/page-view/{view_id}/move"@ && method is Post,
                Handler::MovePageToTrash => i == 23
                    && pattern == "/{workspace_id}/page-view/{view_id}/move-to-trash"@
                    && method is Post,
                Handler::RestorePageFromTrash => i == 24
                    && pattern == "/{workspace_id}/page-view/{view_id}/restore-from-trash"@
                    && method is Post,
                Handler::RestoreAllPagesFromTrash => i == 25
                    && pattern == "/{workspace_id}/restore-all-pages-from-trash"@ && method is Post,
                Handler::DeleteAllPagesFromTrash => i == 26
                    && pattern == "/{workspace_id}/delete-all-pages-from-trash"@ && method is Post,
                _ => false,
            }
        }),
{
    lemma_workspace_resources();
    assert(workspace_resources()[i] == page_resources()[i - 18]);
}

/// Batches, usage and snapshots are served where they are said to be: whatever route there is leads
/// from its pattern and its method to the handler for them, and to no other.
pub proof fn storage_routes_lead_to_their_handlers(i: int, k: int)
    requires
        27 <= i < 31,
        0 <= k < workspace_resources()[i].routes.len(),
    ensures
        ({
            let pattern = workspace_resources()[i].pattern;
            let (method, handler) = workspace_resources()[i].routes[k];
            match handler {
                Handler::BatchCreateCollab => i == 27 && pattern == "/{workspace_id}/batch/collab"@
                    && method is Post,
                Handler::GetWorkspaceUsage => i == 28 && pattern == "/{workspace_id}/usage"@
                    && method is Get,
                Handler::GetCollabSnapshot => i == 29
                    && pattern == "/{workspace_id}/{object_id}/snapshot"@ && method is Get,
                Handler::CreateCollabSnapshot => i == 29
                    && pattern == "/{workspace_id}/{object_id}/snapshot"@ && method is Post,
                Handler::GetAllCollabSnapshotList => i == 30
                    && pattern == "/{workspace_id}/{object_id}/snapshot/list"@ && method is Get,
                _ => false,
            }
        }),
{
    lemma_workspace_resources();
    assert(workspace_resources()[i] == storage_resources()[i - 27]);
}

/// What is published, and what is said about it, are served where they are said to be: whatever
/// route there is leads from its pattern and its method to the handler for them, and to no other.
pub proof fn publishing_routes_lead_to_their_handlers(i: int, k: int)
    requires
        31 <= i < 43,
        0 <= k < workspace_resources()[i].routes.len(),
    ensures
        ({
            let pattern = workspace_resources()[i].pattern;
            let (method, handler) = workspace_resources()[i].routes[k];
            match handler {
                Handler::GetDefaultPublishedCollabInfoMeta => i == 31
                    && pattern == "/published/{publish_namespace}"@ && method is Get,
                Handler::GetV1PublishedCollab => i == 32
                    && pattern == "/v1/published/{publish_namespace}/{publish_name}"@
                    && method is Get,
                Handler::GetPublishedCollabBlob => i == 33
                    && pattern == "/published/{publish_namespace}/{publish_name}/blob"@
                    && method is Get,
                Handler::PostPublishedDuplicate => i == 34
                    && pattern == "{workspace_id}/published-duplicate"@ && method is Post,
                Handler::ListPublishedCollabInfo => i == 35
                    && pattern == "/{workspace_id}/published-info"@ && method is Get,
                Handler::GetPublishedCollabInfo => i == 36
                    && pattern == "/published-info/{view_id}"@ && method is Get,
                Handler::GetV1PublishedCollabInfo => i == 37
                    && pattern == "/v1/published-info/{view_id}"@ && method is Get,
                Handler::GetPublishedCollabComment => i == 38
                    && pattern == "/published-info/{view_id}/comment"@ && method is Get,
                Handler::PostPublishedCollabComment => i == 38
                    && pattern == "/published-info/{view_id}/comment"@ && method is Post,
                Handler::DeletePublishedCollabComment => i == 38
                    && pattern == "/published-info/{view_id}/comment"@ && method is Delete,
                Handler::GetPublishedCollabReaction => i == 39
                    && pattern == "/published-info/{view_id}/reaction"@ && method is Get,
                Handler::PostPublishedCollabReaction => i == 39
                    && pattern == "/published-info/{view_id}/reaction"@ && method is Post,
                Handler::DeletePublishedCollabReaction => i == 39
                    && pattern == "/published-info/{view_id}/reaction"@ && method is Delete,
                Handler::PutPublishNamespace => i == 40
                    && pattern == "/{workspace_id}/publish-namespace"@ && method is Put,
                Handler::GetPublishNamespace => i == 40
                    && pattern == "/{workspace_id}/publish-namespace"@ && method is Get,
                Handler::PutWorkspaceDefaultPublishedView => i == 41
                    && pattern == "/{workspace_id}/publish-default"@ && method is Put,
                Handler::DeleteWorkspaceDefaultPublishedView => i == 41
                    && pattern == "/{workspace_id}/publish-default"@ && method is Delete,
                Handler::GetWorkspacePublishedDefaultInfo => i == 41
                    && pattern == "/{workspace_id}/publish-default"@ && method is Get,
                Handler::PostPublishCollabs => i == 42 && pattern == "/{workspace_id}/publish"@
                    && method is Post,
                Handler::DeletePublishedCollabs => i == 42 && pattern == "/{workspace_id}/publish"@
                    && method is Delete,
                Handler::PatchPublishedCollabs => i == 42 && pattern == "/{workspace_id}/publish"@
                    && method is Patch,
                _ => false,
            }
        }),
{
    lemma_workspace_resources();
    assert(workspace_resources()[i] == publishing_resources()[i - 31]);
}

/// Folders and views are served where they are said to be: whatever route there is leads from its
/// pattern and its method to the handler for them, and to no other.
pub proof fn view_routes_lead_to_their_handlers(i: int, k: int)
    requires
        43 <= i < 49,
        0 <= k < workspace_resources()[i].routes.len(),
    ensures
        ({
            let pattern = workspace_resources()[i].pattern;
            let (method, handler) = workspace_resources()[i].routes[k];
            match handler {
                Handler::GetWorkspaceFolder => i == 43 && pattern == "/{workspace_id}/folder"@
                    && method is Get,
                Handler::GetRecentViews => i == 44 && pattern == "/{workspace_id}/recent"@
                    && method is Get,
                Handler::GetFavoriteViews => i == 45 && pattern == "/{workspace_id}/favorite"@
                    && method is Get,
                Handler::GetTrashViews => i == 46 && pattern == "/{workspace_id}/trash"@
                    && method is Get,
                Handler::DeletePageFromTrash => i == 47
                    && pattern == "/{workspace_id}/trash/{view_id}"@ && method is Delete,
                Handler::GetWorkspacePublishOutline => i == 48
                    && pattern == "/published-outline/{publish_namespace}"@ && method is Get,
                _ => false,
            }
        }),
{
    lemma_workspace_resources();
    assert(workspace_resources()[i] == view_resources()[i - 43]);
}

/// Members of objects, and several objects at once, are served where they are said to be: whatever
/// route there is leads from its pattern and its method to the handler for them, and to no other.
pub proof fn collab_list_routes_lead_to_their_handlers(i: int, k: int)
    requires
        49 <= i < 51,
        0 <= k < workspace_resources()[i].routes.len(),
    ensures
        ({
            let pattern = workspace_resources()[i].pattern;
            let (method, handler) = workspace_resources()[i].routes[k];
            match handler {
                Handler::GetCollabMemberList => i == 49
                    && pattern == "/{workspace_id}/collab/{object_id}/member/list"@
                    && method is Get,
                Handler::BatchGetCollab => i == 50 && pattern == "/{workspace_id}/collab_list"@
                    && (method is Get || method is Post),
                _ => false,
            }
        }),
{
    lemma_workspace_resources();
    assert(workspace_resources()[i] == collab_list_resources()[i - 49]);
}

/// Databases are served where they are said to be: whatever route there is leads from its pattern
/// and its method to the handler for them, and to no other.
pub proof fn database_routes_lead_to_their_handlers(i: int, k: int)
    requires
        51 <= i < 56,
        0 <= k < workspace_resources()[i].routes.len(),
    ensures
        ({
            let pattern = workspace_resources()[i].pattern;
            let (method, handler) = workspace_resources()[i].routes[k];
            match handler {
                Handler::ListDatabase => i == 51 && pattern == "/{workspace_id}/database"@
                    && method is Get,
                Handler::ListDatabaseRowId => i == 52
                    && pattern == "/{workspace_id}/database/{database_id}/row"@ && method is Get,
                Handler::PostDatabaseRow => i == 52
                    && pattern == "/{workspace_id}/database/{database_id}/row"@ && method is Post,
                Handler::PutDatabaseRow => i == 52
                    && pattern == "/{workspace_id}/database/{database_id}/row"@ && method is Put,
                Handler::GetDatabaseFields => i == 53
                    && pattern == "/{workspace_id}/database/{database_id}/fields"@ && method is Get,
                Handler::PostDatabaseFields => i == 53
                    && pattern == "/{workspace_id}/database/{database_id}/fields"@
                    && method is Post,
                Handler::ListDatabaseRowIdUpdated => i == 54
                    && pattern == "/{workspace_id}/database/{database_id}/row/updated"@
                    && method is Get,
                Handler::ListDatabaseRowDetails => i == 55
                    && pattern == "/{workspace_id}/database/{database_id}/row/detail"@
                    && method is Get,
                _ => false,
            }
        }),
{
    lemma_workspace_resources();
    assert(workspace_resources()[i] == database_resources()[i - 51]);
}

/// Quick notes are served where they are said to be: whatever route there is leads from its pattern
/// and its method to the handler for them, and to no other.
pub proof fn quick_note_routes_lead_to_their_handlers(i: int, k: int)
    requires
        56 <= i < 58,
        0 <= k < workspace_resources()[i].routes.len(),
    ensures
        ({
            let pattern = workspace_resources()[i].pattern;
            let (method, handler) = workspace_resources()[i].routes[k];
            match handler {
                Handler::ListQuickNotes => i == 56 && pattern == "/{workspace_id}/quick-note"@
                    && method is Get,
                Handler::PostQuickNote => i == 56 && pattern == "/{workspace_id}/quick-note"@
                    && method is Post,
                Handler::UpdateQuickNote => i == 57
                    && pattern == "/{workspace_id}/quick-note/{quick_note_id}"@ && method is Put,
                Handler::DeleteQuickNote => i == 57
                    && pattern == "/{workspace_id}/quick-note/{quick_note_id}"@ && method is Delete,
                _ => false,
            }
        }),
{
    lemma_workspace_resources();
    assert(workspace_resources()[i] == quick_note_resources()[i - 56]);
}

/// Every handler can be reached: there is a route for it, under the workspaces or, for realtime
/// messages, under their own prefix. Several objects at once can be asked for by both of their
/// methods.
pub proof fn every_handler_can_be_reached(handler: Handler)
    ensures
        handler !is PostRealtimeMessageStream ==> exists|i: int, k: int|
            0 <= i < workspace_resources().len() && 0 <= k < workspace_resources()[i].routes.len()
                && (#[trigger] workspace_resources()[i].routes[k]).1 == handler,
        exists|i: int, k: int|
            0 <= i < workspace_resources().len() && 0 <= k < workspace_resources()[i].routes.len()
                && #[trigger] workspace_resources()[i].routes[k] == (
                Method::Get,
                Handler::BatchGetCollab,
            ),
        exists|i: int, k: int|
            0 <= i < workspace_resources().len() && 0 <= k < workspace_resources()[i].routes.len()
                && #[trigger] workspace_resources()[i].routes[k] == (
                Method::Post,
                Handler::BatchGetCollab,
            ),
{
    if handler !is PostRealtimeMessageStream {
        every_handler_is_routed(handler);
    }
    lemma_workspace_resources();
    assert(workspace_resources()[50] == collab_list_resources()[1]);
    assert(workspace_resources()[50].routes[0] == (Method::Get, Handler::BatchGetCollab));
    assert(workspace_resources()[50].routes[1] == (Method::Post, Handler::BatchGetCollab));
}

/// There are as many resources as there are patterns of paths, no method is served twice on any of
/// them, and only the body of an object may be larger than usual.
pub proof fn resources_are_told_apart(i: int, j: int, k: int)
    ensures
        workspace_resources().len() == 58,
        0 <= i < 58 && 0 <= j < k < workspace_resources()[i].routes.len()
            ==> workspace_resources()[i].routes[j].0 != workspace_resources()[i].routes[k].0,
        0 <= i < 58 ==> workspace_resources()[i].payload_limit == if (
        workspace_resources()[i].pattern == "/{workspace_id}/collab/{object_id}"@) {
            Some(5_242_880usize)
        } else {
            None
        },
{
    lemma_workspace_resources();
    if 0 <= i < 58 {
        methods_occur_once(i);
        assert(workspace_resources()[11] == collab_resources()[0]);
        if workspace_resources()[i].pattern == "/{workspace_id}/collab/{object_id}"@ {
            patterns_occur_once(i, 11);
        }
        lemma_payload_limit(i);
    }
}

/// Only the resource of an object has a limit of its own.
proof fn lemma_payload_limit(i: int)
    requires
        0 <= i < 58,
    ensures
        workspace_resources()[i].payload_limit is Some <==> i == 11,
{
    lemma_workspace_resources();
    let whole = workspace_resources();
    if i < 11 {
        assert(whole[i] == workspace_and_member_resources()[i]);
    } else if i < 18 {
        assert(whole[i] == collab_resources()[i - 11]);
    } else if i < 27 {
        assert(whole[i] == page_resources()[i - 18]);
    } else if i < 31 {
        assert(whole[i] == storage_resources()[i - 27]);
    } else if i < 43 {
        assert(whole[i] == publishing_resources()[i - 31]);
    } else if i < 49 {
        assert(whole[i] == view_resources()[i - 43]);
    } else if i < 51 {
        assert(whole[i] == collab_list_resources()[i - 49]);
    } else if i < 56 {
        assert(whole[i] == database_resources()[i - 51]);
    } else {
        assert(whole[i] == quick_note_resources()[i - 56]);
    }
}

/// Realtime messages are posted to one path, with bodies of up to ten mebibytes.
pub proof fn realtime_messages_are_posted_to_one_path()
    ensures
        realtime_resources().len() == 1,
        realtime_resources()[0].pattern == "post/stream"@,
        realtime_resources()[0].payload_limit == Some(10_485_760usize),
        realtime_resources()[0].routes.len() == 1,
        realtime_resources()[0].routes[0].0 is Post,
        realtime_resources()[0].routes[0].1 is PostRealtimeMessageStream,
{
}

/// Every request for a workspace that the table knows has one handler: a path and a method decide
/// between them who serves it.
pub proof fn path_and_method_decide(i: int, k: int, j: int, l: int)
    requires
        0 <= i < workspace_resources().len(),
        0 <= k < workspace_resources()[i].routes.len(),
        0 <= j < workspace_resources().len(),
        0 <= l < workspace_resources()[j].routes.len(),
        workspace_resources()[i].pattern == workspace_resources()[j].pattern,
        workspace_resources()[i].routes[k].0 == workspace_resources()[j].routes[l].0,
    ensures
        workspace_resources()[i].routes[k].1 == workspace_resources()[j].routes[l].1,
{
    patterns_occur_once(i, j);
    methods_occur_once(i);
}

/// What is posted to the publications of a workspace is published, what is deleted there is
/// unpublished, and what is patched there is changed, wherever the table has them.
pub proof fn publishing_and_unpublishing_are_told_apart(i: int, k: int)
    requires
        0 <= i < workspace_resources().len(),
        0 <= k < workspace_resources()[i].routes.len(),
        workspace_resources()[i].pattern == "/{workspace_id}/publish"@,
    ensures
        workspace_resources()[i].routes[k].0 is Post ==> workspace_resources()[i].routes[k].1
            is PostPublishCollabs,
        workspace_resources()[i].routes[k].0 is Delete ==> workspace_resources()[i].routes[k].1
            is DeletePublishedCollabs,
        workspace_resources()[i].routes[k].0 is Patch ==> workspace_resources()[i].routes[k].1
            is PatchPublishedCollabs,
{
    lemma_workspace_resources();
    assert(workspace_resources()[42] == publishing_resources()[11]);
    patterns_occur_once(i, 42);
    publishing_routes_lead_to_their_handlers(i, k);
}

/// The full paths are those of the workspaces, followed by the pattern of their resource.
pub proof fn full_paths_are_spelled_out()
    ensures
        WORKSPACE_PATTERN@ == "/api/workspace"@,
        WORKSPACE_MEMBER_PATTERN@ == WORKSPACE_PATTERN@ + "/{workspace_id}/member"@,
        WORKSPACE_INVITE_PATTERN@ == WORKSPACE_PATTERN@ + "/{workspace_id}/invite"@,
        COLLAB_PATTERN@ == WORKSPACE_PATTERN@ + "/{workspace_id}/collab/{object_id}"@,
        V1_COLLAB_PATTERN@ == WORKSPACE_PATTERN@ + "/v1/{workspace_id}/collab/{object_id}"@,
        WORKSPACE_PUBLISH_PATTERN@ == WORKSPACE_PATTERN@ + "/{workspace_id}/publish"@,
        WORKSPACE_PUBLISH_NAMESPACE_PATTERN@ == WORKSPACE_PATTERN@
            + "/{workspace_id}/publish-namespace"@,
        WORKSPACE_ID_PATH@ == "workspace_id"@,
        COLLAB_OBJECT_ID_PATH@ == "object_id"@,
        COLLAB_PAYLOAD_LIMIT == 5_242_880,
        REALTIME_PAYLOAD_LIMIT == 10_485_760,
{
    reveal_strlit("/api/workspace");
    reveal_strlit("/api/workspace/{workspace_id}/member");
    reveal_strlit("/{workspace_id}/member");
    reveal_strlit("/api/workspace/{workspace_id}/invite");
    reveal_strlit("/{workspace_id}/invite");
    reveal_strlit("/api/workspace/{workspace_id}/collab/{object_id}");
    reveal_strlit("/{workspace_id}/collab/{object_id}");
    reveal_strlit("/api/workspace/v1/{workspace_id}/collab/{object_id}");
    reveal_strlit("/v1/{workspace_id}/collab/{object_id}");
    reveal_strlit("/api/workspace/{workspace_id}/publish");
    reveal_strlit("/{workspace_id}/publish");
    reveal_strlit("/api/workspace/{workspace_id}/publish-namespace");
    reveal_strlit("/{workspace_id}/publish-namespace");
    assert(WORKSPACE_MEMBER_PATTERN@ =~= WORKSPACE_PATTERN@ + "/{workspace_id}/member"@);
    assert(WORKSPACE_INVITE_PATTERN@ =~= WORKSPACE_PATTERN@ + "/{workspace_id}/invite"@);
    assert(COLLAB_PATTERN@ =~= WORKSPACE_PATTERN@ + "/{workspace_id}/collab/{object_id}"@);
    assert(V1_COLLAB_PATTERN@ =~= WORKSPACE_PATTERN@ + "/v1/{workspace_id}/collab/{object_id}"@);
    assert(WORKSPACE_PUBLISH_PATTERN@ =~= WORKSPACE_PATTERN@ + "/{workspace_id}/publish"@);
    assert(WORKSPACE_PUBLISH_NAMESPACE_PATTERN@ =~= WORKSPACE_PATTERN@
        + "/{workspace_id}/publish-namespace"@);
}

} // verus!

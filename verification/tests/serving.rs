//! Requests that are carried out against scripted services.
use workspace_api::collabs;
use workspace_api::comments;
use workspace_api::databases;
use workspace_api::error::ApiError;
use workspace_api::error::Failure;
use workspace_api::ids::Id;
use workspace_api::members;
use workspace_api::members::WorkspaceMember;
use workspace_api::operation::Operation;
use workspace_api::pages;
use workspace_api::plan::Ending;
use workspace_api::plan::Permission;
use workspace_api::plan::Plan;
use workspace_api::plan::Step;
use workspace_api::publishing;
use workspace_api::quick_notes;
use workspace_api::reply::MemberRow;
use workspace_api::reply::Output;
use workspace_api::reply::Reply;
use workspace_api::reply::ReplyKind;
use workspace_api::reply::Role;
use workspace_api::session::Answer;
use workspace_api::session::Ask;
use workspace_api::session::Known;
use workspace_api::session::Session;
use workspace_api::session::Turn;
use workspace_api::user::RealtimeUser;
use workspace_api::workspaces;

const TEXT: &str = "03030303-0303-0303-0303-030303030303";

fn ws() -> Id {
    Id { bytes: [3; 16] }
}

fn me() -> Id {
    Id { bytes: [4; 16] }
}

fn user(uid: i64) -> RealtimeUser {
    RealtimeUser {
        uid,
        device_id: "d".to_string(),
        connect_at: 1,
        session_id: "s".to_string(),
        app_version: "v".to_string(),
    }
}

enum End {
    Reply(Reply<u8>),
    Refusal(Failure<&'static str>),
}

/// Serves a request with these answers, which have to be asked for as `asks` says.
fn run(plan: Plan<u8>, caller: Option<Id>, script: Vec<(&str, Answer<u8, &'static str>)>) -> End {
    run_from(plan, Known::of_caller(caller), script)
}

/// Serves a request of which this is known.
fn run_from(plan: Plan<u8>, known: Known, script: Vec<(&str, Answer<u8, &'static str>)>) -> End {
    assert!(plan.can_run(known.known_facts()));
    let mut session = Session::start(plan, known);
    let mut left = script.len();
    for (expected, answer) in script {
        left -= 1;
        assert_eq!(name(session.ask()), expected);
        assert!(session.accepts(&answer));
        match session.answer(answer) {
            Turn::Continue(next) => session = next,
            Turn::Reply(reply) => {
                assert_eq!(left, 0);
                return End::Reply(reply);
            }
            Turn::Refuse(failure) => {
                assert_eq!(left, 0);
                return End::Refusal(failure);
            }
        }
    }
    panic!("the request goes on")
}

fn name(ask: Ask<'_, u8>) -> String {
    match ask {
        Ask::VerifyToken => "token".to_string(),
        Ask::ReadCaller => "caller".to_string(),
        Ask::ValidatePayload => "validate".to_string(),
        Ask::ResolveUid { user_uuid } => format!("uid of {}", &user_uuid.text()[..2]),
        Ask::EnforcePermission { uid, workspace_id, permission } => {
            let what = match permission {
                Permission::Read => "read",
                Permission::Write => "write",
                Permission::Delete => "delete",
            };
            format!("{} may {} {}", uid, what, &workspace_id[..2])
        }
        Ask::EnforceRole { uid, workspace_id, role } => {
            let what = match role {
                Role::Owner => "owner",
                Role::Member => "member",
                Role::Guest => "guest",
            };
            format!("{} is {} of {}", uid, what, &workspace_id[..2])
        }
        Ask::EnforceCollabPermission { workspace_id, uid, object_id, permission } => {
            assert!(permission == Permission::Write);
            format!("{} may write {} in {}", uid, &object_id[..2], &workspace_id[..2])
        }
        Ask::BuildUser { uid } => format!("user {}", uid),
        Ask::CollabExists { workspace_id, object_id } => format!("{} in {}?", object_id, workspace_id),
        Ask::FindMember { email } => format!("member {}", email),
        Ask::CanIndex { workspace_id } => format!("index {}?", workspace_id),
        Ask::Index { workspace_id, .. } => format!("index {}", workspace_id),
        Ask::FetchDocState { uid, from_editing_collab, .. } => {
            assert!(from_editing_collab);
            format!("state for {}", uid)
        }
        Ask::Begin => "begin".to_string(),
        Ask::Write { known, operation } => {
            assert!(matches!(operation, Operation::CreateCollab { .. }));
            format!("write for {}", known.uid.unwrap())
        }
        Ask::Commit => "commit".to_string(),
        Ask::Perform { .. } => "perform".to_string(),
        Ask::Conclude => "conclude".to_string(),
    }
}

fn data(value: u8) -> Answer<u8, &'static str> {
    Answer::Output(Output::Data(value))
}

fn unit() -> Answer<u8, &'static str> {
    Answer::Output(Output::Unit)
}

#[test]
fn a_workspace_is_created_for_the_caller() {
    let plan = workspaces::create_workspace_handler(me(), Some("name".to_string()));
    assert!(matches!(
        &plan.ending,
        Ending::Perform(Operation::CreateWorkspace { workspace_name, .. }) if workspace_name == "name"
    ));
    let end = run(plan, Some(me()), vec![("uid of 04", Answer::Uid(8)), ("perform", data(1))]);
    assert!(matches!(end, End::Reply(Reply::Data(1))));
}

#[test]
fn a_permission_is_asked_for_before_the_operation() {
    let plan = workspaces::delete_workspace_handler(ws());
    let end = run(
        plan,
        Some(me()),
        vec![("uid of 04", Answer::Uid(8)), ("8 may delete 03", Answer::Done), ("perform", unit())],
    );
    assert!(matches!(end, End::Reply(Reply::Empty)));
}

#[test]
fn a_failed_check_ends_the_request() {
    let plan = workspaces::delete_workspace_handler(ws());
    let end = run(
        plan,
        Some(me()),
        vec![("uid of 04", Answer::Uid(8)), ("8 may delete 03", Answer::Failed("denied"))],
    );
    assert!(matches!(end, End::Refusal(Failure::Upstream("denied"))));
}

#[test]
fn an_unknown_caller_ends_the_request() {
    let plan = workspaces::get_workspace_settings_handler(ws());
    let end = run(plan, Some(me()), vec![("uid of 04", Answer::Failed("who?"))]);
    assert!(matches!(end, End::Refusal(Failure::Upstream("who?"))));
}

#[test]
fn a_failed_operation_ends_the_request() {
    let plan = publishing::get_publish_namespace_handler(ws());
    let end = run(plan, None, vec![("perform", Answer::Failed("gone"))]);
    assert!(matches!(end, End::Refusal(Failure::Upstream("gone"))));
}

#[test]
fn the_operation_finds_the_users_number() {
    let plan: Plan<u8> = quick_notes::post_quick_note_handler(ws(), Some(5));
    let session = Session::start(plan, Known::of_caller(Some(me())));
    let session = match session.answer::<()>(Answer::Uid(8)) {
        Turn::Continue(session) => session,
        _ => panic!("over"),
    };
    let session = match session.answer::<()>(Answer::Done) {
        Turn::Continue(session) => session,
        _ => panic!("over"),
    };
    match session.ask() {
        Ask::Perform { known, operation } => {
            assert_eq!(known.uid, Some(8));
            assert!(matches!(operation, Operation::CreateQuickNote { data: Some(5), .. }));
        }
        _ => panic!("something else is asked"),
    };
}

#[test]
fn answers_to_another_question_are_not_accepted() {
    let plan: Plan<u8> = workspaces::delete_workspace_handler(ws());
    let session = Session::start(plan, Known::of_caller(Some(me())));
    assert!(!session.accepts::<()>(&Answer::Done));
    assert!(!session.accepts::<()>(&Answer::Choice(true)));
    assert!(session.accepts::<()>(&Answer::Uid(1)));
    assert!(session.accepts(&Answer::Failed("x")));
}

#[test]
fn a_plan_cannot_start_without_what_it_takes() {
    let plan: Plan<u8> = workspaces::delete_workspace_handler(ws());
    assert!(!plan.can_run(Known::of_caller(None).known_facts()));
    assert!(plan.can_run(Known::of_caller(Some(me())).known_facts()));
    assert!(plan.can_run(Known::of_user(me(), 3).known_facts()));
    let plan: Plan<u8> = members::post_accept_workspace_invite_handler(ws());
    assert!(plan.can_run(Known::of_caller(None).known_facts()));
    let plan: Plan<u8> = Plan {
        steps: vec![],
        ending: Ending::Perform(Operation::UpdateMember { workspace_id: ws(), changeset: 1 }),
        reply: ReplyKind::Empty,
    };
    assert!(!plan.can_run(Known::of_user(me(), 3).known_facts()));
    let plan: Plan<u8> = Plan {
        steps: vec![Step::FetchDocState { from_editing_collab: true }],
        ending: Ending::Reply,
        reply: ReplyKind::Empty,
    };
    assert!(!plan.can_run(Known::of_user(me(), 3).known_facts()));
}

#[test]
fn an_invitation_is_accepted_with_a_verified_token() {
    let plan = members::post_accept_workspace_invite_handler(ws());
    let end = run(
        plan,
        None,
        vec![
            ("token", Answer::Done),
            ("caller", Answer::Caller(me())),
            ("uid of 04", Answer::Uid(2)),
            ("perform", unit()),
        ],
    );
    assert!(matches!(end, End::Reply(Reply::Empty)));
}

#[test]
fn members_are_shown_without_pictures() {
    let row = |name: &str, role: Role| MemberRow {
        name: name.to_string(),
        email: format!("{}@example.com", name),
        role,
    };
    let end = run(
        members::get_workspace_members_handler(ws()),
        Some(me()),
        vec![
            ("uid of 04", Answer::Uid(2)),
            ("2 is member of 03", Answer::Done),
            (
                "perform",
                Answer::Output(Output::MemberRows(vec![row("ann", Role::Owner), row("bob", Role::Guest)])),
            ),
        ],
    );
    match end {
        End::Reply(Reply::Members(members)) => {
            assert_eq!(members.len(), 2);
            assert_eq!(members[0].name, "ann");
            assert_eq!(members[0].email, "ann@example.com");
            assert!(members[0].role == Role::Owner);
            assert_eq!(members[0].avatar_url, None);
            assert_eq!(members[1].name, "bob");
        }
        _ => panic!("no members"),
    }
    let end = run(
        members::get_workspace_member_handler(ws(), 33),
        Some(me()),
        vec![
            ("uid of 04", Answer::Uid(2)),
            ("2 is member of 03", Answer::Done),
            ("perform", Answer::Output(Output::MemberRow(row("eve", Role::Member)))),
        ],
    );
    assert!(matches!(end, End::Reply(Reply::Member(member)) if member.name == "eve"));
}

#[test]
fn members_are_removed_by_address() {
    let names = vec![WorkspaceMember("a@x".to_string()), WorkspaceMember("b@x".to_string())];
    let plan: Plan<u8> = members::remove_workspace_member_handler(ws(), names);
    match plan.ending {
        Ending::Perform(Operation::RemoveMembers { member_emails, .. }) => {
            assert_eq!(member_emails, vec!["a@x".to_string(), "b@x".to_string()]);
        }
        _ => panic!("another operation"),
    }
}

#[test]
fn only_a_change_of_role_changes_a_member() {
    let plan = members::update_workspace_member_handler(ws(), "a@x".to_string(), Some(Role::Guest), 7);
    let end = run(
        plan,
        Some(me()),
        vec![
            ("uid of 04", Answer::Uid(2)),
            ("2 is owner of 03", Answer::Done),
            ("member a@x", Answer::MemberUid(6)),
            ("perform", unit()),
        ],
    );
    assert!(matches!(end, End::Reply(Reply::Empty)));
    let plan = members::update_workspace_member_handler(ws(), "a@x".to_string(), None, 7);
    let end = run(
        plan,
        Some(me()),
        vec![
            ("uid of 04", Answer::Uid(2)),
            ("2 is owner of 03", Answer::Done),
            ("conclude", Answer::Done),
        ],
    );
    assert!(matches!(end, End::Reply(Reply::Empty)));
}

#[test]
fn an_updated_object_is_indexed_if_its_workspace_is() {
    let plan = || collabs::update_collab_handler("w".to_string(), 3);
    let end = run(
        plan(),
        Some(me()),
        vec![
            ("uid of 04", Answer::Uid(2)),
            ("index w?", Answer::Choice(true)),
            ("index w", Answer::Done),
            ("perform", unit()),
        ],
    );
    assert!(matches!(end, End::Reply(Reply::Empty)));
    let end = run(
        plan(),
        Some(me()),
        vec![
            ("uid of 04", Answer::Uid(2)),
            ("index w?", Answer::Choice(false)),
            ("perform", unit()),
        ],
    );
    assert!(matches!(end, End::Reply(Reply::Empty)));
    let end = run(
        plan(),
        Some(me()),
        vec![
            ("uid of 04", Answer::Uid(2)),
            ("index w?", Answer::Choice(true)),
            ("index w", Answer::Failed("queue full")),
        ],
    );
    assert!(matches!(end, End::Refusal(Failure::Upstream("queue full"))));
}

fn creation() -> Plan<u8> {
    Plan {
        steps: vec![Step::Index { workspace_id: "w".to_string() }, Step::Begin, Step::Write],
        ending: Ending::Commit(Operation::CreateCollab {
            workspace_id: "w".to_string(),
            params: 1,
            action: "Create new collab: one".to_string(),
        }),
        reply: ReplyKind::Empty,
    }
}

#[test]
fn a_new_object_is_written_and_then_committed() {
    let end = run_from(
        creation(),
        Known::of_user(me(), 7),
        vec![
            ("index w?", Answer::Choice(true)),
            ("index w", Answer::Done),
            ("begin", Answer::Begun),
            ("write for 7", Answer::Written),
            ("commit", Answer::Done),
        ],
    );
    assert!(matches!(end, End::Reply(Reply::Empty)));
}

#[test]
fn a_failure_before_the_commit_leaves_nothing_committed() {
    let end = run_from(
        creation(),
        Known::of_user(me(), 7),
        vec![("index w?", Answer::Failed("no index"))],
    );
    assert!(matches!(end, End::Refusal(Failure::Upstream("no index"))));
    let end = run_from(
        creation(),
        Known::of_user(me(), 7),
        vec![("index w?", Answer::Choice(false)), ("begin", Answer::Failed("busy"))],
    );
    assert!(matches!(end, End::Refusal(Failure::Upstream("busy"))));
    let end = run_from(
        creation(),
        Known::of_user(me(), 7),
        vec![
            ("index w?", Answer::Choice(false)),
            ("begin", Answer::Begun),
            ("write for 7", Answer::Failed("duplicate")),
        ],
    );
    assert!(matches!(end, End::Refusal(Failure::Upstream("duplicate"))));
    let end = run_from(
        creation(),
        Known::of_user(me(), 7),
        vec![
            ("index w?", Answer::Choice(false)),
            ("begin", Answer::Begun),
            ("write for 7", Answer::Written),
            ("commit", Answer::Failed("lost")),
        ],
    );
    assert!(matches!(end, End::Refusal(Failure::Upstream("lost"))));
}

#[test]
fn nothing_is_committed_that_was_not_written() {
    let known = || Known::of_user(me(), 7).known_facts();
    let plan = |steps: Vec<Step>| Plan { steps, ..creation() };
    assert!(creation().can_run(known()));
    assert!(!plan(vec![]).can_run(known()));
    assert!(!plan(vec![Step::Begin]).can_run(known()));
    assert!(!plan(vec![Step::Write]).can_run(known()));
    assert!(plan(vec![Step::Begin, Step::Write]).can_run(known()));
    assert!(!creation().can_run(Known::of_caller(Some(me())).known_facts()));
}

#[test]
fn a_payload_is_validated_before_anything_else() {
    let plan = collabs::delete_collab_handler("w".to_string(), "o".to_string());
    let end = run(plan, Some(me()), vec![("validate", Answer::Failed("empty id"))]);
    assert!(matches!(end, End::Refusal(Failure::Upstream("empty id"))));
}

#[test]
fn members_of_missing_objects_are_not_changed() {
    let plan = collabs::add_collab_member_handler("w".to_string(), "o".to_string(), 1);
    let end = run(plan, None, vec![("o in w?", Answer::Choice(false))]);
    assert!(matches!(
        end,
        End::Refusal(Failure::Api(ApiError::RecordNotFound(message)))
            if message == "Fail to insert collab member. The Collab with object_id o does not exist"
    ));
    let plan = collabs::update_collab_member_handler(me(), "w".to_string(), "o".to_string(), 1);
    let end = run(plan, Some(me()), vec![("o in w?", Answer::Choice(false))]);
    assert!(matches!(
        end,
        End::Refusal(Failure::Api(ApiError::RecordNotFound(message)))
            if message == "Fail to update collab member. The Collab with object_id o does not exist"
    ));
    let plan = collabs::add_collab_member_handler("w".to_string(), "o".to_string(), 1);
    let end = run(plan, None, vec![("o in w?", Answer::Choice(true)), ("perform", unit())]);
    assert!(matches!(end, End::Reply(Reply::Empty)));
}

#[test]
fn an_object_comes_with_its_identifier() {
    let plan = collabs::get_collab_handler("w".to_string(), "o".to_string(), 1);
    let end = run(plan, Some(me()), vec![("uid of 04", Answer::Uid(2)), ("perform", data(9))]);
    assert!(matches!(
        end,
        End::Reply(Reply::Collab { encode_collab: 9, object_id }) if object_id == "o"
    ));
    let plan: Plan<u8> = collabs::v1_get_collab_handler("w".to_string(), "o".to_string(), 1);
    assert!(matches!(
        plan.ending,
        Ending::Perform(Operation::GetCollab { collab_type: 1, from_editing_collab: true, .. })
    ));
    let plan: Plan<u8> = collabs::batch_get_collab_handler("w".to_string(), 1);
    assert!(matches!(
        plan.ending,
        Ending::Perform(Operation::BatchGetCollab { queries: 1, from_editing_collab: false, .. })
    ));
}

#[test]
fn a_snapshot_takes_the_state_of_the_object() {
    let plan = collabs::create_collab_snapshot_handler("w".to_string(), "o".to_string(), 1);
    let end = run(
        plan,
        Some(me()),
        vec![
            ("uid of 04", Answer::Uid(2)),
            ("state for 2", Answer::DocState(vec![1, 2])),
            ("perform", data(4)),
        ],
    );
    assert!(matches!(end, End::Reply(Reply::Data(4))));
}

#[test]
fn a_web_client_needs_permission_for_the_object() {
    let object = Id { bytes: [5; 16] };
    let plan = collabs::post_web_update_handler(ws(), object, 1, vec![1]);
    let end = run(
        plan,
        Some(me()),
        vec![
            ("uid of 04", Answer::Uid(2)),
            ("2 may write 05 in 03", Answer::Done),
            ("user 2", Answer::User(user(2))),
            ("perform", unit()),
        ],
    );
    assert!(matches!(end, End::Reply(Reply::Empty)));
}

#[test]
fn a_missing_embedding_is_not_found() {
    let plan = || collabs::get_collab_embed_info_handler("o".to_string(), 1);
    let end = run(plan(), None, vec![("perform", Answer::Output(Output::Maybe(None)))]);
    assert!(matches!(
        end,
        End::Refusal(Failure::Api(ApiError::RecordNotFound(message)))
            if message == "Embedding for given object:o not found"
    ));
    let end = run(plan(), None, vec![("perform", Answer::Output(Output::Maybe(Some(3))))]);
    assert!(matches!(end, End::Reply(Reply::Data(3))));
}

#[test]
fn unpublished_objects_are_not_found_any_more() {
    let unpublished = || Answer::Output(Output::PublishInfo { info: 1, unpublished_timestamp: Some(2) });
    let end = run(publishing::get_published_collab_info_handler(ws()), None, vec![("perform", unpublished())]);
    assert!(matches!(
        end,
        End::Refusal(Failure::Api(ApiError::RecordNotFound(message)))
            if message == "Collab is unpublished"
    ));
    let published = || Answer::Output(Output::PublishInfo { info: 1, unpublished_timestamp: None });
    let end = run(publishing::get_published_collab_info_handler(ws()), None, vec![("perform", published())]);
    assert!(matches!(end, End::Reply(Reply::Data(1))));
    let end = run(publishing::get_v1_published_collab_info_handler(ws()), None, vec![("perform", unpublished())]);
    assert!(matches!(end, End::Reply(Reply::Data(1))));
}

#[test]
fn nothing_to_patch_or_unpublish_is_refused() {
    assert!(matches!(
        publishing::patch_published_collabs_handler::<u8>(ws(), me(), vec![]),
        Err(ApiError::InvalidRequest(message)) if message == "No patches provided"
    ));
    assert!(matches!(
        publishing::delete_published_collabs_handler::<u8>(ws(), me(), vec![]),
        Err(ApiError::InvalidRequest(message)) if message == "No view_ids provided"
    ));
    let plan = match publishing::patch_published_collabs_handler(ws(), me(), vec![1, 2]) {
        Ok(plan) => plan,
        Err(_) => panic!("refused"),
    };
    assert!(matches!(
        &plan.ending,
        Ending::Perform(Operation::PatchPublished { patches, .. }) if patches == &vec![1, 2]
    ));
    let end = run(plan, Some(me()), vec![("perform", unit())]);
    assert!(matches!(end, End::Reply(Reply::Empty)));
}

#[test]
fn replies_are_wrapped_as_clients_expect_them() {
    let end = run(
        publishing::get_default_published_collab_info_meta_handler("ns".to_string()),
        None,
        vec![("perform", Answer::Output(Output::InfoMeta { info: 1, meta: 2 }))],
    );
    assert!(matches!(end, End::Reply(Reply::InfoMeta { info: 1, meta: 2 })));
    let end = run(
        publishing::get_published_collab_blob_handler("ns".to_string(), "n".to_string()),
        None,
        vec![("perform", Answer::Output(Output::Blob(vec![7])))],
    );
    assert!(matches!(end, End::Reply(Reply::Blob(blob)) if blob == vec![7]));
    let end = run(comments::get_published_collab_comment_handler(ws(), None), None, vec![("perform", data(1))]);
    assert!(matches!(end, End::Reply(Reply::Comments { comments: 1 })));
    let end = run(comments::get_published_collab_reaction_handler(ws(), None), None, vec![("perform", data(1))]);
    assert!(matches!(end, End::Reply(Reply::Reactions { reactions: 1 })));
    let end = run(
        workspaces::get_trash_views_handler(ws()),
        Some(me()),
        vec![("uid of 04", Answer::Uid(2)), ("2 may read 03", Answer::Done), ("perform", data(1))],
    );
    assert!(matches!(end, End::Reply(Reply::Views { views: 1 })));
    let end = run(
        databases::put_database_row_handler("ws".to_string(), "db".to_string(), b"key".to_vec(), 1, None),
        Some(me()),
        vec![("uid of 04", Answer::Uid(2)), ("2 may write ws", Answer::Done), ("perform", unit())],
    );
    assert!(matches!(
        end,
        End::Reply(Reply::RowId { row_id }) if row_id == "c14d5abb-6798-7afd-aa83-20de6971d8ff"
    ));
}

#[test]
fn pages_are_changed_by_a_realtime_user() {
    let end = run(
        pages::move_page_handler(ws(), "v".to_string(), "p".to_string(), None),
        Some(me()),
        vec![("uid of 04", Answer::Uid(2)), ("user 2", Answer::User(user(2))), ("perform", unit())],
    );
    assert!(matches!(end, End::Reply(Reply::Empty)));
    let end = run(
        pages::delete_page_from_trash_handler(ws(), "v".to_string()),
        Some(me()),
        vec![
            ("uid of 04", Answer::Uid(2)),
            ("2 may write 03", Answer::Done),
            ("user 2", Answer::User(user(2))),
            ("perform", unit()),
        ],
    );
    assert!(matches!(end, End::Reply(Reply::Empty)));
}

#[test]
fn a_realtime_user_is_the_one_that_was_looked_up() {
    let plan: Plan<u8> = pages::move_page_to_trash_handler(ws(), "v".to_string());
    let session = Session::start(plan, Known::of_caller(Some(me())));
    assert!(!session.accepts::<()>(&Answer::User(user(2))));
    let session = match session.answer::<()>(Answer::Uid(1)) {
        Turn::Continue(session) => session,
        _ => panic!("over"),
    };
    assert!(!session.accepts::<()>(&Answer::User(user(2))));
    assert!(session.accepts::<()>(&Answer::User(user(1))));
}

#[test]
fn a_folder_is_read_from_its_workspace_by_default() {
    let plan: Plan<u8> = workspaces::get_workspace_folder_handler(ws(), None, None);
    assert!(matches!(
        plan.ending,
        Ending::Perform(Operation::GetFolder { depth: 1, root_view_id, .. }) if root_view_id == TEXT
    ));
    let plan: Plan<u8> = workspaces::get_workspace_folder_handler(ws(), Some(4), Some("v".to_string()));
    assert!(matches!(
        plan.ending,
        Ending::Perform(Operation::GetFolder { depth: 4, root_view_id, .. }) if root_view_id == "v"
    ));
}

#[test]
fn counts_and_roles_are_listed_only_on_demand() {
    let plan: Plan<u8> = workspaces::list_workspace_handler(me(), None, Some(true));
    assert!(plan.steps.is_empty());
    assert!(matches!(
        plan.ending,
        Ending::Perform(Operation::ListWorkspaces { include_member_count: false, include_role: true, .. })
    ));
}

#[test]
fn a_new_row_gets_its_identifier_from_the_storage() {
    let plan: Plan<u8> = databases::post_database_row_handler("w".to_string(), "d".to_string(), 1, None);
    assert!(matches!(
        plan.ending,
        Ending::Perform(Operation::InsertRow { row_id: None, cells: 1, document: None, .. })
    ));
}

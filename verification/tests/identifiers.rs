//! Identifiers, derived rows and the checks on requests for rows.
use workspace_api::databases::check_ids;
use workspace_api::databases::judge_ids;
use workspace_api::databases::list_database_row_details_handler;
use workspace_api::databases::put_database_row_handler;
use workspace_api::databases::refuse_id;
use workspace_api::error::ApiError;
use workspace_api::ids::check_id;
use workspace_api::ids::new_session_id;
use workspace_api::ids::row_id;
use workspace_api::ids::row_id_from_digest;
use workspace_api::ids::Id;
use workspace_api::operation::FieldType;
use workspace_api::operation::Operation;
use workspace_api::plan::Ending;
use workspace_api::plan::Permission;
use workspace_api::plan::Plan;
use workspace_api::plan::Step;
use workspace_api::reply::ReplyKind;

const WORKSPACE: &str = "11111111-2222-3333-4444-555555555555";
const DATABASE: &str = "aaaaaaaa-bbbb-cccc-dddd-eeeeeeeeeeee";

fn invalid(error: ApiError) -> String {
    match error {
        ApiError::InvalidRequest(message) => message,
        _ => panic!("another kind of refusal"),
    }
}

#[test]
fn id_text_is_hyphenated_lower_case() {
    let id = Id {
        bytes: [0x00, 0x01, 0x9a, 0xbc, 0xde, 0xf0, 0x12, 0x34, 0x56, 0x78, 0x9a, 0xbc, 0xde, 0xf0, 0xff, 0x0a],
    };
    assert_eq!(id.text(), "00019abc-def0-1234-5678-9abcdef0ff0a");
}

#[test]
fn ids_with_different_bytes_have_different_texts() {
    let mut other = [7u8; 16];
    other[15] = 8;
    assert_ne!(Id { bytes: [7; 16] }.text(), Id { bytes: other }.text());
}

#[test]
fn row_id_is_half_of_a_sha256_digest() {
    assert_eq!(row_id("ws", "db", b"key"), "c14d5abb-6798-7afd-aa83-20de6971d8ff");
    assert_eq!(row_id("", "", b""), "e3b0c442-98fc-1c14-9afb-f4c8996fb924");
}

#[test]
fn row_id_hashes_the_utf8_bytes_of_the_names() {
    assert_eq!(row_id(WORKSPACE, "db-\u{fc}", b"k"), "11b4f858-65d2-53b3-3ff5-83a2ea888699");
}

#[test]
fn row_id_depends_on_every_part() {
    let base = row_id(WORKSPACE, DATABASE, b"key");
    assert_eq!(base, row_id(WORKSPACE, DATABASE, b"key"));
    assert_ne!(base, row_id(DATABASE, DATABASE, b"key"));
    assert_ne!(base, row_id(WORKSPACE, WORKSPACE, b"key"));
    assert_ne!(base, row_id(WORKSPACE, DATABASE, b"other"));
}

#[test]
fn row_id_does_not_separate_names_that_are_no_identifiers() {
    assert_eq!(row_id("a", "bc", b"k"), row_id("ab", "c", b"k"));
    assert_eq!(row_id("a", "b", b"ck"), row_id("a", "bc", b"k"));
    assert_ne!(row_id(WORKSPACE, DATABASE, b"k"), row_id(DATABASE, WORKSPACE, b"k"));
}

#[test]
fn row_id_takes_the_first_half_of_the_digest() {
    let mut digest = [0u8; 32];
    for i in 0..32 {
        digest[i] = i as u8;
    }
    assert_eq!(row_id_from_digest(&digest), "00010203-0405-0607-0809-0a0b0c0d0e0f");
}

#[test]
fn session_ids_are_random_version_four() {
    let first = new_session_id();
    let second = new_session_id();
    assert_ne!(first, second);
    assert_eq!(first.len(), 36);
    let chars: Vec<char> = first.chars().collect();
    assert_eq!(chars[14], '4');
    assert!(matches!(chars[19], '8' | '9' | 'a' | 'b'));
    assert!(check_id(&first).is_ok());
}

#[test]
fn ids_are_accepted_in_their_usual_form() {
    assert!(check_id(WORKSPACE).is_ok());
    assert!(check_id(&Id { bytes: [0xff; 16] }.text()).is_ok());
    assert!(check_id("").is_err());
    assert!(check_id("not an identifier").is_err());
    assert!(check_id("11111111-2222-3333-4444-55555555555g").is_err());
}

#[test]
fn derived_row_ids_are_accepted_back() {
    let derived = row_id(WORKSPACE, DATABASE, b"key");
    assert!(check_ids(WORKSPACE, DATABASE, &vec![derived]).is_ok());
}

#[test]
fn bad_ids_are_refused_in_order() {
    let bad = "zz".to_string();
    let why = check_id("zz").unwrap_err();
    let good = WORKSPACE.to_string();
    // A complaint about the workspace quotes the database.
    assert_eq!(
        invalid(check_ids("zz", DATABASE, &vec![bad.clone()]).unwrap_err()),
        format!("invalid workspace id `{}`: {}", DATABASE, why)
    );
    assert_eq!(
        invalid(check_ids(WORKSPACE, "zz", &vec![bad.clone()]).unwrap_err()),
        format!("invalid database id `zz`: {}", why)
    );
    assert_eq!(
        invalid(check_ids(WORKSPACE, DATABASE, &vec![good.clone(), bad.clone()]).unwrap_err()),
        format!("invalid row id `zz`: {}", why)
    );
    assert!(check_ids(WORKSPACE, DATABASE, &vec![good]).is_ok());
    assert!(check_ids(WORKSPACE, DATABASE, &vec![]).is_ok());
}

#[test]
fn the_first_complaint_counts() {
    let rows = vec!["a".to_string(), "b".to_string(), "c".to_string()];
    let complaints = vec![None, Some("second".to_string()), Some("third".to_string())];
    let judged = judge_ids("db", &rows, None, None, &complaints);
    assert_eq!(invalid(judged.unwrap_err()), "invalid row id `b`: second");
    let judged = judge_ids("db", &rows, None, Some("no".to_string()), &complaints);
    assert_eq!(invalid(judged.unwrap_err()), "invalid database id `db`: no");
    let judged = judge_ids("db", &rows, Some("first".to_string()), Some("no".to_string()), &complaints);
    assert_eq!(invalid(judged.unwrap_err()), "invalid workspace id `db`: first");
    assert!(judge_ids("db", &rows, None, None, &vec![None, None, None]).is_ok());
}

#[test]
fn a_refused_id_is_quoted() {
    assert_eq!(invalid(refuse_id("row", "x", "too short")), "invalid row id `x`: too short");
}

#[test]
fn row_details_leave_relations_out() {
    let plan: Plan<()> = list_database_row_details_handler(
        WORKSPACE.to_string(),
        DATABASE.to_string(),
        vec![WORKSPACE.to_string()],
        None,
    );
    assert_eq!(plan.steps.len(), 2);
    assert!(matches!(plan.steps[0], Step::ResolveUid));
    assert!(matches!(
        &plan.steps[1],
        Step::RequirePermission { workspace, permission: Permission::Read } if workspace.text() == WORKSPACE
    ));
    match plan.ending {
        Ending::Perform(Operation::ListRowDetails { row_ids, unsupported_field_types, with_doc, .. }) => {
            assert_eq!(row_ids, vec![WORKSPACE.to_string()]);
            assert!(unsupported_field_types == vec![FieldType::Relation]);
            assert!(!with_doc);
        }
        _ => panic!("another operation"),
    }
}

#[test]
fn row_details_with_a_bad_id_are_refused_once_the_caller_is_known() {
    let plan: Plan<()> = list_database_row_details_handler(
        WORKSPACE.to_string(),
        DATABASE.to_string(),
        vec!["?".to_string()],
        Some(true),
    );
    assert_eq!(plan.steps.len(), 1);
    assert!(matches!(plan.steps[0], Step::ResolveUid));
    match plan.ending {
        Ending::Refuse(error) => {
            assert!(invalid(error).starts_with("invalid row id `?`: "));
        }
        _ => panic!("not refused"),
    }
}

#[test]
fn an_upserted_row_is_named_by_its_key() {
    let plan: Plan<u8> = put_database_row_handler(
        "ws".to_string(),
        "db".to_string(),
        b"key".to_vec(),
        9,
        Some("text".to_string()),
    );
    let expected = "c14d5abb-6798-7afd-aa83-20de6971d8ff";
    assert!(matches!(
        &plan.steps[1],
        Step::RequirePermission { permission: Permission::Write, .. }
    ));
    match plan.ending {
        Ending::Perform(Operation::UpsertRow { workspace_id, database_id, row_id, cells, document }) => {
            assert_eq!(workspace_id, "ws");
            assert_eq!(database_id, "db");
            assert_eq!(row_id, expected);
            assert_eq!(cells, 9);
            assert_eq!(document, Some("text".to_string()));
        }
        _ => panic!("another operation"),
    }
    assert!(matches!(plan.reply, ReplyKind::RowId { row_id } if row_id == expected));
}

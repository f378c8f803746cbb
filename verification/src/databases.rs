//! Requests about databases.
use vstd::prelude::*;
use vstd::utf8::encode_utf8;

use crate::clock::Timestamp;
use crate::clock::clock_time;
use crate::clock::updated_after;
use crate::clock::was_read;
use crate::clock::window_start;
use crate::error::ApiError;
use crate::error::Problem;
use crate::ids::check_id;
use crate::ids::hyphenated;
use crate::ids::is_id_text;
use crate::ids::parsed_uuid;
use crate::ids::row_id;
use crate::ids::row_message;
use crate::ids::sha256;
use crate::operation::FieldType;
use crate::operation::Operation;
use crate::plan::Ending;
use crate::plan::Permission;
use crate::plan::Plan;
use crate::plan::Step;
use crate::plan::Workspace;
use crate::plan::caller_known;
use crate::plan::for_user;
use crate::plan::lemma_runs_one;
use crate::plan::plan_for_user;
use crate::plan::plan_with_permission;
use crate::plan::with_permission;
use crate::reply::ReplyKind;
use crate::text::join;

verus! {

/// Lists the databases of a workspace.
pub fn list_database_handler<P>(workspace_id: String) -> (plan: Plan<P>)
    ensures
        plan.runs(caller_known()),
        plan.is(
            for_user(),
            Operation::ListDatabases { workspace_id },
            ReplyKind::Data,
        ),
{
    plan_for_user(
        Operation::ListDatabases { workspace_id },
        ReplyKind::Data,
    )
}

/// Lists the rows of a database.
pub fn list_database_row_id_handler<P>(workspace_id: String, database_id: String) -> (plan: Plan<P>)
    ensures
        plan.runs(caller_known()),
        plan.is(
            with_permission(Workspace::Name(workspace_id), Permission::Read),
            Operation::ListRowIds { workspace_id, database_id },
            ReplyKind::Data,
        ),
{
    plan_with_permission(
        Workspace::Name(workspace_id.clone()),
        Permission::Read,
        Operation::ListRowIds { workspace_id, database_id },
        ReplyKind::Data,
    )
}

/// Adds a row to a database, under an identifier that the storage picks.
pub fn post_database_row_handler<P>(
    workspace_id: String,
    database_id: String,
    cells: P,
    document: Option<String>,
) -> (plan: Plan<P>)
    ensures
        plan.runs(caller_known()),
        plan.is(
            with_permission(Workspace::Name(workspace_id), Permission::Write),
            Operation::InsertRow { workspace_id, database_id, row_id: None, cells, document },
            ReplyKind::Data,
        ),
{
    plan_with_permission(
        Workspace::Name(workspace_id.clone()),
        Permission::Write,
        Operation::InsertRow { workspace_id, database_id, row_id: None, cells, document },
        ReplyKind::Data,
    )
}

/// Adds a row to a database or replaces it. The client's key decides which row that is: the same
/// key in the same database of the same workspace is always the same row.
pub fn put_database_row_handler<P>(
    workspace_id: String,
    database_id: String,
    pre_hash: Vec<u8>,
    cells: P,
    document: Option<String>,
) -> (plan: Plan<P>)
    ensures
        plan.runs(caller_known()),
        plan.ending matches Ending::Perform(Operation::UpsertRow { row_id, .. }) && {
            &&& plan.is(
                with_permission(Workspace::Name(workspace_id), Permission::Write),
                Operation::UpsertRow { workspace_id, database_id, row_id, cells, document },
                ReplyKind::RowId { row_id },
            )
            &&& row_id@ == hyphenated(
                sha256(row_message(workspace_id@, database_id@, pre_hash@)).subrange(0, 16),
            )
            &&& row_id@ == hyphenated(
                sha256(
                    encode_utf8(workspace_id@) + encode_utf8(database_id@) + pre_hash@,
                ).subrange(0, 16),
            )
            &&& is_id_text(row_id@)
        },
{
    let row_id = row_id(workspace_id.as_str(), database_id.as_str(), pre_hash.as_slice());
    let reply = ReplyKind::RowId { row_id: row_id.clone() };
    plan_with_permission(
        Workspace::Name(workspace_id.clone()),
        Permission::Write,
        Operation::UpsertRow { workspace_id, database_id, row_id, cells, document },
        reply,
    )
}

/// Lists the fields of a database.
pub fn get_database_fields_handler<P>(workspace_id: String, database_id: String) -> (plan: Plan<P>)
    ensures
        plan.runs(caller_known()),
        plan.is(
            with_permission(Workspace::Name(workspace_id), Permission::Read),
            Operation::ListFields { workspace_id, database_id },
            ReplyKind::Data,
        ),
{
    plan_with_permission(
        Workspace::Name(workspace_id.clone()),
        Permission::Read,
        Operation::ListFields { workspace_id, database_id },
        ReplyKind::Data,
    )
}

/// Adds a field to a database.
pub fn post_database_fields_handler<P>(
    workspace_id: String,
    database_id: String,
    field: P,
) -> (plan: Plan<P>)
    ensures
        plan.runs(caller_known()),
        plan.is(
            with_permission(Workspace::Name(workspace_id), Permission::Write),
            Operation::AddField { workspace_id, database_id, field },
            ReplyKind::Data,
        ),
{
    plan_with_permission(
        Workspace::Name(workspace_id.clone()),
        Permission::Write,
        Operation::AddField { workspace_id, database_id, field },
        ReplyKind::Data,
    )
}

/// Lists the rows of a database that have been updated since a time: the one that the client asks
/// for, else an hour ago.
pub fn list_database_row_id_updated_handler<P>(
    workspace_id: String,
    database_id: String,
    asked_after: Option<Timestamp>,
) -> (plan: Plan<P>)
    ensures
        plan.runs(caller_known()),
        plan.ending matches Ending::Perform(Operation::ListRowIdsUpdated { after, .. }) && {
            &&& plan.is(
                with_permission(Workspace::Name(workspace_id), Permission::Read),
                Operation::ListRowIdsUpdated { workspace_id, database_id, after },
                ReplyKind::Data,
            )
            &&& match asked_after {
                Some(asked) => after == asked,
                None => exists|now: Timestamp| #[trigger]
                    was_read(now) && clock_time(now) && after == window_start(now) && after.seconds
                        == now.seconds - 3600 && after.nanos == now.nanos,
            }
        },
{
    let after = updated_after(asked_after);
    plan_with_permission(
        Workspace::Name(workspace_id.clone()),
        Permission::Read,
        Operation::ListRowIdsUpdated { workspace_id, database_id, after },
        ReplyKind::Data,
    )
}

/// What a request is refused with because `id` is not an identifier.
pub open spec fn invalid_id(what: Seq<char>, id: Seq<char>, message: Seq<char>) -> Problem {
    Problem::InvalidRequest("invalid "@ + what + " id `"@ + id + "`: "@ + message)
}

/// The refusal of a request because `id` is not an identifier.
pub fn refuse_id(what: &str, id: &str, message: &str) -> (error: ApiError)
    ensures
        error@ == invalid_id(what@, id@, message@),
        error@ == Problem::InvalidRequest("invalid "@ + what@ + " id `"@ + id@ + "`: "@ + message@),
{
    let text = join("invalid ", what).concat(" id `").concat(id).concat("`: ").concat(message);
    ApiError::InvalidRequest(text)
}

/// What the rows from `from` on are refused with, if they are: the first one that there is a
/// complaint about counts.
pub open spec fn rows_problem(
    row_ids: Seq<String>,
    complaints: Seq<Option<Seq<char>>>,
    from: int,
) -> Option<Problem>
    decreases row_ids.len() - from,
{
    if from < 0 || from >= row_ids.len() {
        None
    } else {
        match complaints[from] {
            Some(message) => Some(invalid_id("row"@, row_ids[from]@, message)),
            None => rows_problem(row_ids, complaints, from + 1),
        }
    }
}

/// What a request for rows is refused with, if it is, because of complaints about the identifiers
/// in it. The workspace comes first, then the database, then the rows; a complaint about the
/// workspace quotes the database.
pub open spec fn ids_problem(
    database_id: Seq<char>,
    row_ids: Seq<String>,
    workspace: Option<Seq<char>>,
    database: Option<Seq<char>>,
    rows: Seq<Option<Seq<char>>>,
) -> Option<Problem> {
    match (workspace, database) {
        (Some(message), _) => Some(invalid_id("workspace"@, database_id, message)),
        (None, Some(message)) => Some(invalid_id("database"@, database_id, message)),
        (None, None) => rows_problem(row_ids, rows, 0),
    }
}

/// A complaint as a mathematical value.
pub open spec fn complaint(message: Option<String>) -> Option<Seq<char>> {
    match message {
        Some(message) => Some(message@),
        None => None,
    }
}

/// Complaints as mathematical values.
pub open spec fn complaints(messages: Seq<Option<String>>) -> Seq<Option<Seq<char>>> {
    messages.map_values(|message: Option<String>| complaint(message))
}

/// The complaint about a text that is not an identifier.
pub open spec fn id_complaint(text: Seq<char>) -> Option<Seq<char>> {
    match parsed_uuid(text) {
        Err(message) => Some(message),
        Ok(_) => None,
    }
}

/// The complaints about the rows that are not identifiers.
pub open spec fn row_complaints(row_ids: Seq<String>) -> Seq<Option<Seq<char>>> {
    row_ids.map_values(|row_id: String| id_complaint(row_id@))
}

/// Settles what complaints about the identifiers in a request for rows come to.
pub fn judge_ids(
    database_id: &str,
    row_ids: &Vec<String>,
    workspace: Option<String>,
    database: Option<String>,
    rows: &Vec<Option<String>>,
) -> (judged: Result<(), ApiError>)
    requires
        rows@.len() == row_ids@.len(),
    ensures
        match ids_problem(
            database_id@,
            row_ids@,
            complaint(workspace),
            complaint(database),
            complaints(rows@),
        ) {
            Some(problem) => judged matches Err(error) && error@ == problem,
            None => judged is Ok,
        },
{
    if let Some(message) = workspace {
        return Err(refuse_id("workspace", database_id, message.as_str()));
    }
    if let Some(message) = database {
        return Err(refuse_id("database", database_id, message.as_str()));
    }
    let mut i: usize = 0;
    while i < row_ids.len()
        invariant
            i <= row_ids@.len(),
            rows@.len() == row_ids@.len(),
            workspace is None,
            database is None,
            rows_problem(row_ids@, complaints(rows@), 0) == rows_problem(
                row_ids@,
                complaints(rows@),
                i as int,
            ),
        decreases row_ids@.len() - i,
    {
        if let Some(message) = &rows[i] {
            return Err(refuse_id("row", row_ids[i].as_str(), message.as_str()));
        }
        i += 1;
    }
    Ok(())
}

/// The complaint about a text that is not an identifier.
fn complain(text: &str) -> (message: Option<String>)
    ensures
        complaint(message) == id_complaint(text@),
        is_id_text(text@) ==> message is None,
{
    match check_id(text) {
        Ok(()) => None,
        Err(message) => Some(message),
    }
}

/// Checks the identifiers in a request for rows. Identifiers in their usual form pass.
pub fn check_ids(workspace_id: &str, database_id: &str, row_ids: &Vec<String>) -> (checked: Result<
    (),
    ApiError,
>)
    ensures
        match ids_problem(
            database_id@,
            row_ids@,
            id_complaint(workspace_id@),
            id_complaint(database_id@),
            row_complaints(row_ids@),
        ) {
            Some(problem) => checked matches Err(error) && error@ == problem,
            None => checked is Ok,
        },
        is_id_text(workspace_id@) && is_id_text(database_id@) && (forall|i: int|
            0 <= i < row_ids@.len() ==> is_id_text((#[trigger] row_ids@[i])@)) ==> checked is Ok,
{
    let workspace = complain(workspace_id);
    let database = complain(database_id);
    let mut rows: Vec<Option<String>> = Vec::new();
    let mut i: usize = 0;
    while i < row_ids.len()
        invariant
            i <= row_ids@.len(),
            rows@.len() == i,
            forall|k: int|
                #![trigger rows@[k]]
                0 <= k < i ==> complaint(rows@[k]) == id_complaint(row_ids@[k]@) && (is_id_text(
                    row_ids@[k]@,
                ) ==> rows@[k] is None),
        decreases row_ids@.len() - i,
    {
        rows.push(complain(row_ids[i].as_str()));
        i += 1;
    }
    proof {
        assert(complaints(rows@) =~= row_complaints(row_ids@));
        if forall|i: int| 0 <= i < row_ids@.len() ==> is_id_text((#[trigger] row_ids@[i])@) {
            assert forall|k: int| 0 <= k < rows@.len() implies #[trigger] complaints(
                rows@,
            )[k] is None by {
                assert(rows@[k] is None) by {
                    assert(is_id_text(row_ids@[k]@));
                }
            }
            lemma_no_complaint(row_ids@, complaints(rows@), 0);
        }
    }
    judge_ids(database_id, row_ids, workspace, database, &rows)
}

/// Without a complaint no row is refused.
proof fn lemma_no_complaint(row_ids: Seq<String>, complaints: Seq<Option<Seq<char>>>, from: int)
    requires
        complaints.len() == row_ids.len(),
        forall|k: int| 0 <= k < complaints.len() ==> #[trigger] complaints[k] is None,
    ensures
        rows_problem(row_ids, complaints, from) is None,
    decreases row_ids.len() - from,
{
    if 0 <= from < row_ids.len() {
        lemma_no_complaint(row_ids, complaints, from + 1);
    }
}

/// The plan to read rows once their identifiers have been checked: a request that did not pass is
/// refused as soon as the caller is known.
pub fn row_details_plan<P>(
    checked: Result<(), ApiError>,
    workspace_id: String,
    database_id: String,
    row_ids: Vec<String>,
    asked_doc: Option<bool>,
) -> (plan: Plan<P>)
    ensures
        plan.runs(caller_known()),
        match checked {
            Err(error) => {
                &&& plan.steps@ == for_user()
                &&& plan.ending == Ending::<P>::Refuse(error)
                &&& plan.reply is Data
            },
            Ok(()) => plan.ending matches Ending::Perform(
                Operation::ListRowDetails { unsupported_field_types, .. },
            ) && {
                &&& plan.is(
                    with_permission(Workspace::Name(workspace_id), Permission::Read),
                    Operation::ListRowDetails {
                        workspace_id,
                        database_id,
                        row_ids,
                        unsupported_field_types,
                        with_doc: asked_doc == Some(true),
                    },
                    ReplyKind::Data,
                )
                &&& unsupported_field_types@ == seq![FieldType::Relation]
            },
        },
{
    if let Err(error) = checked {
        let plan = Plan {
            steps: vec![Step::ResolveUid],
            ending: Ending::Refuse(error),
            reply: ReplyKind::Data,
        };
        proof {
            assert(plan.steps@ =~= for_user());
            lemma_runs_one(plan.steps@, plan.ending);
        }
        return plan;
    }
    let unsupported_field_types: Vec<FieldType> = vec![FieldType::Relation];
    assert(unsupported_field_types@ =~= seq![FieldType::Relation]);
    plan_with_permission(
        Workspace::Name(workspace_id.clone()),
        Permission::Read,
        Operation::ListRowDetails {
            workspace_id,
            database_id,
            row_ids,
            unsupported_field_types,
            with_doc: asked_doc.unwrap_or(false),
        },
        ReplyKind::Data,
    )
}

/// Reads rows of a database, with their documents only when that is asked for. A request with
/// something that is not an identifier is refused, but not before the caller is known. Relations
/// are left out.
pub fn list_database_row_details_handler<P>(
    workspace_id: String,
    database_id: String,
    row_ids: Vec<String>,
    asked_doc: Option<bool>,
) -> (plan: Plan<P>)
    ensures
        plan.runs(caller_known()),
        match ids_problem(
            database_id@,
            row_ids@,
            id_complaint(workspace_id@),
            id_complaint(database_id@),
            row_complaints(row_ids@),
        ) {
            Some(problem) => {
                &&& plan.steps@ == for_user()
                &&& plan.ending matches Ending::Refuse(error) && error@ == problem
                &&& plan.reply is Data
            },
            None => plan.ending matches Ending::Perform(
                Operation::ListRowDetails { unsupported_field_types, .. },
            ) && {
                &&& plan.is(
                    with_permission(Workspace::Name(workspace_id), Permission::Read),
                    Operation::ListRowDetails {
                        workspace_id,
                        database_id,
                        row_ids,
                        unsupported_field_types,
                        with_doc: asked_doc == Some(true),
                    },
                    ReplyKind::Data,
                )
                &&& unsupported_field_types@ == seq![FieldType::Relation]
            },
        },
        is_id_text(workspace_id@) && is_id_text(database_id@) && (forall|i: int|
            0 <= i < row_ids@.len() ==> is_id_text((#[trigger] row_ids@[i])@))
            ==> plan.ending is Perform,
{
    let checked = check_ids(workspace_id.as_str(), database_id.as_str(), &row_ids);
    row_details_plan(checked, workspace_id, database_id, row_ids, asked_doc)
}

/// A request for rows passes exactly if there is no complaint about its workspace, its database or
/// any of its rows, however many they are.
pub proof fn requests_without_complaints_pass(
    database_id: Seq<char>,
    row_ids: Seq<String>,
    workspace: Option<Seq<char>>,
    database: Option<Seq<char>>,
    rows: Seq<Option<Seq<char>>>,
)
    requires
        rows.len() == row_ids.len(),
    ensures
        ids_problem(database_id, row_ids, workspace, database, rows) is None <==> {
            &&& workspace is None
            &&& database is None
            &&& forall|i: int| 0 <= i < rows.len() ==> #[trigger] rows[i] is None
        },
{
    if forall|i: int| 0 <= i < rows.len() ==> #[trigger] rows[i] is None {
        lemma_no_complaint(row_ids, rows, 0);
    } else {
        let bad = choose|i: int| 0 <= i < rows.len() && !(#[trigger] rows[i] is None);
        lemma_a_complaint_counts(row_ids, rows, 0, bad);
    }
}

/// A complaint about a row is not passed over.
proof fn lemma_a_complaint_counts(
    row_ids: Seq<String>,
    rows: Seq<Option<Seq<char>>>,
    from: int,
    bad: int,
)
    requires
        rows.len() == row_ids.len(),
        0 <= from <= bad < rows.len(),
        rows[bad] is Some,
    ensures
        rows_problem(row_ids, rows, from) is Some,
    decreases bad - from,
{
    if from < bad {
        lemma_a_complaint_counts(row_ids, rows, from + 1, bad);
    }
}

/// Where there is no complaint about the rows before `bad`, they make no difference.
proof fn lemma_first_complaint(
    row_ids: Seq<String>,
    rows: Seq<Option<Seq<char>>>,
    from: int,
    bad: int,
)
    requires
        rows.len() == row_ids.len(),
        0 <= from <= bad < rows.len(),
        forall|i: int| 0 <= i < bad ==> #[trigger] rows[i] is None,
    ensures
        rows_problem(row_ids, rows, from) == rows_problem(row_ids, rows, bad),
    decreases bad - from,
{
    if from < bad {
        assert(rows[from] is None);
        lemma_first_complaint(row_ids, rows, from + 1, bad);
    }
}

/// A request for rows is refused for the first complaint about it, in full: one about the workspace
/// comes before one about the database, and that before any about a row, of which the first in the
/// order of the request counts. The first two quote the database, the last the row.
pub proof fn the_first_complaint_about_an_id_counts(
    database_id: Seq<char>,
    row_ids: Seq<String>,
    workspace: Option<Seq<char>>,
    database: Option<Seq<char>>,
    rows: Seq<Option<Seq<char>>>,
    bad: int,
)
    requires
        rows.len() == row_ids.len(),
    ensures
        workspace matches Some(message) ==> ids_problem(
            database_id,
            row_ids,
            workspace,
            database,
            rows,
        ) == Some(
            Problem::InvalidRequest(
                "invalid "@ + "workspace"@ + " id `"@ + database_id + "`: "@ + message,
            ),
        ),
        workspace is None ==> (database matches Some(message) ==> ids_problem(
            database_id,
            row_ids,
            workspace,
            database,
            rows,
        ) == Some(
            Problem::InvalidRequest(
                "invalid "@ + "database"@ + " id `"@ + database_id + "`: "@ + message,
            ),
        )),
        workspace is None && database is None && 0 <= bad < rows.len() && (forall|i: int|
            0 <= i < bad ==> #[trigger] rows[i] is None) ==> (rows[bad] matches Some(message)
            ==> ids_problem(database_id, row_ids, workspace, database, rows) == Some(
            Problem::InvalidRequest(
                "invalid "@ + "row"@ + " id `"@ + row_ids[bad]@ + "`: "@ + message,
            ),
        )),
{
    if 0 <= bad < rows.len() && (forall|i: int| 0 <= i < bad ==> #[trigger] rows[i] is None) {
        lemma_first_complaint(row_ids, rows, 0, bad);
    }
}

/// A complaint about a text is what parsing it as an identifier says, and there is none about a
/// text that parses.
pub proof fn complaints_are_what_parsing_says(text: Seq<char>, message: String, row_ids: Seq<String>)
    ensures
        match parsed_uuid(text) {
            Ok(_) => id_complaint(text) is None,
            Err(error) => id_complaint(text) == Some(error),
        },
        complaint(Some(message)) == Some(message@),
        complaint(None) is None,
        row_complaints(row_ids).len() == row_ids.len(),
        forall|i: int|
            #![trigger row_ids[i]]
            0 <= i < row_ids.len() ==> row_complaints(row_ids)[i] == id_complaint(row_ids[i]@),
{
}

/// Complaints in memory are what they stand for.
pub proof fn complaints_are_kept_as_they_are(messages: Seq<Option<String>>, i: int)
    requires
        0 <= i < messages.len(),
    ensures
        complaints(messages).len() == messages.len(),
        messages[i] is None ==> complaints(messages)[i] is None,
        messages[i] matches Some(message) ==> complaints(messages)[i] == Some(message@),
{
}

} // verus!

//! What operations give back, and the replies that are made of it.
use vstd::prelude::*;

use crate::error::ApiError;
use crate::error::Problem;
use crate::text::join;

verus! {

/// What a member may do in a workspace.
#[derive(Clone, Copy, PartialEq, Eq, Structural)]
pub enum Role {
    Owner,
    Member,
    Guest,
}

/// A member of a workspace as it is stored.
pub struct MemberRow {
    pub name: String,
    pub email: String,
    pub role: Role,
}

/// A member of a workspace as clients see it.
pub struct Member {
    pub name: String,
    pub email: String,
    pub role: Role,
    pub avatar_url: Option<String>,
}

/// What an operation gave back. `P` is a value that is passed on unread.
pub enum Output<P> {
    Unit,
    Data(P),
    Maybe(Option<P>),
    Blob(Vec<u8>),
    MemberRow(MemberRow),
    MemberRows(Vec<MemberRow>),
    PublishInfo { info: P, unpublished_timestamp: Option<P> },
    InfoMeta { info: P, meta: P },
}

/// How the reply is made of what the operation gave back.
pub enum ReplyKind {
    /// No data.
    Empty,
    /// The data as it is.
    Data,
    /// The bytes as they are.
    Blob,
    /// A member, as clients see it.
    Member,
    /// Members, as clients see them.
    Members,
    /// An encoded object together with its identifier.
    Collab { object_id: String },
    /// Publish information, unless the object has been unpublished.
    StillPublished,
    /// Publish information as it is.
    PublishInfo,
    /// Publish information together with its metadata.
    InfoMeta,
    /// Comments.
    Comments,
    /// Reactions.
    Reactions,
    /// Views of a section.
    Views,
    /// The identifier of the row that was stored, whatever the storage gave back.
    RowId { row_id: String },
    /// The embedding of this object, if there is one.
    Embedding { object_id: String },
}

/// The reply to a request.
pub enum Reply<P> {
    Empty,
    Data(P),
    Blob(Vec<u8>),
    Member(Member),
    Members(Vec<Member>),
    Collab { encode_collab: P, object_id: String },
    InfoMeta { info: P, meta: P },
    Comments { comments: P },
    Reactions { reactions: P },
    Views { views: P },
    RowId { row_id: String },
}

/// What clients see of a stored member: everything but a picture, which is not stored.
pub open spec fn seen_member(row: MemberRow) -> Member {
    Member { name: row.name, email: row.email, role: row.role, avatar_url: None }
}

/// What clients see of a stored member.
pub fn workspace_member(row: MemberRow) -> (member: Member)
    ensures
        member == seen_member(row),
        member.name == row.name,
        member.email == row.email,
        member.role == row.role,
        member.avatar_url is None,
{
    Member { name: row.name, email: row.email, role: row.role, avatar_url: None }
}

/// What clients see of stored members, in the same order.
pub fn workspace_members(rows: Vec<MemberRow>) -> (members: Vec<Member>)
    ensures
        members@ == rows@.map_values(|row: MemberRow| seen_member(row)),
{
    let mut members: Vec<Member> = Vec::new();
    let ghost all = rows@;
    for row in iter: rows
        invariant
            iter.seq() == all,
            members@.len() == iter.index(),
            forall|i: int| 0 <= i < members@.len() ==> #[trigger] members@[i] == seen_member(all[i]),
    {
        members.push(workspace_member(row));
    }
    assert(members@ =~= all.map_values(|row: MemberRow| seen_member(row)));
    members
}

impl ReplyKind {
    /// The output is what a reply of this kind can be made of.
    pub open spec fn fits<P>(&self, output: Output<P>) -> bool {
        match self {
            ReplyKind::Empty | ReplyKind::RowId { .. } => true,
            ReplyKind::Blob => output is Blob,
            ReplyKind::Member => output is MemberRow,
            ReplyKind::Members => output is MemberRows,
            ReplyKind::StillPublished | ReplyKind::PublishInfo => output is PublishInfo,
            ReplyKind::InfoMeta => output is InfoMeta,
            ReplyKind::Embedding { .. } => output is Maybe,
            ReplyKind::Data | ReplyKind::Collab { .. } | ReplyKind::Comments | ReplyKind::Reactions
            | ReplyKind::Views => output is Data,
        }
    }

    /// Whether the output is what a reply of this kind can be made of.
    pub fn takes<P>(&self, output: &Output<P>) -> (fits: bool)
        ensures
            fits == self.fits(*output),
    {
        match self {
            ReplyKind::Empty | ReplyKind::RowId { .. } => true,
            ReplyKind::Blob => matches!(output, Output::Blob(_)),
            ReplyKind::Member => matches!(output, Output::MemberRow(_)),
            ReplyKind::Members => matches!(output, Output::MemberRows(_)),
            ReplyKind::StillPublished | ReplyKind::PublishInfo => matches!(output, Output::PublishInfo { .. }),
            ReplyKind::InfoMeta => matches!(output, Output::InfoMeta { .. }),
            ReplyKind::Embedding { .. } => matches!(output, Output::Maybe(_)),
            ReplyKind::Data | ReplyKind::Collab { .. } | ReplyKind::Comments | ReplyKind::Reactions
            | ReplyKind::Views => matches!(output, Output::Data(_)),
        }
    }

    /// What the request is refused with although the operation succeeded, if it is: an object that
    /// has been unpublished, or that has no embedding.
    pub open spec fn problem<P>(&self, output: Output<P>) -> Option<Problem> {
        match (self, output) {
            (
                ReplyKind::StillPublished,
                Output::PublishInfo { unpublished_timestamp: Some(_), .. },
            ) => Some(Problem::RecordNotFound("Collab is unpublished"@)),
            (ReplyKind::Embedding { object_id }, Output::Maybe(None)) => Some(
                Problem::RecordNotFound(
                    "Embedding for given object:"@ + object_id@ + " not found"@,
                ),
            ),
            _ => None,
        }
    }

    /// `reply` is the reply of this kind to `output`.
    pub open spec fn answers<P>(&self, output: Output<P>, reply: Reply<P>) -> bool {
        match (self, output) {
            (ReplyKind::Empty, _) => reply is Empty,
            (ReplyKind::RowId { row_id }, _) => reply == Reply::<P>::RowId { row_id: *row_id },
            (ReplyKind::Data, Output::Data(data)) => reply == Reply::Data(data),
            (ReplyKind::Blob, Output::Blob(blob)) => reply == Reply::<P>::Blob(blob),
            (ReplyKind::Member, Output::MemberRow(row)) => reply == Reply::<P>::Member(
                seen_member(row),
            ),
            (ReplyKind::Members, Output::MemberRows(rows)) => reply matches Reply::Members(members)
                && members@ == rows@.map_values(|row: MemberRow| seen_member(row)),
            (ReplyKind::Collab { object_id }, Output::Data(data)) => reply == Reply::Collab {
                encode_collab: data,
                object_id: *object_id,
            },
            (ReplyKind::StillPublished | ReplyKind::PublishInfo, Output::PublishInfo { info, .. })
                => reply == Reply::Data(info),
            (ReplyKind::InfoMeta, Output::InfoMeta { info, meta }) => reply == Reply::InfoMeta {
                info,
                meta,
            },
            (ReplyKind::Comments, Output::Data(data)) => reply == Reply::Comments {
                comments: data,
            },
            (ReplyKind::Reactions, Output::Data(data)) => reply == Reply::Reactions {
                reactions: data,
            },
            (ReplyKind::Views, Output::Data(data)) => reply == Reply::Views { views: data },
            (ReplyKind::Embedding { .. }, Output::Maybe(Some(data))) => reply == Reply::Data(data),
            _ => false,
        }
    }

    /// The reply of this kind to what the operation gave back, or the refusal.
    pub fn reply<P>(self, output: Output<P>) -> (reply: Result<Reply<P>, ApiError>)
        requires
            self.fits(output),
        ensures
            match self.problem(output) {
                Some(problem) => reply matches Err(error) && error@ == problem,
                None => reply matches Ok(reply) && self.answers(output, reply),
            },
    {
        match (self, output) {
            (ReplyKind::Empty, _) => Ok(Reply::Empty),
            (ReplyKind::RowId { row_id }, _) => Ok(Reply::RowId { row_id }),
            (ReplyKind::Data, Output::Data(data)) => Ok(Reply::Data(data)),
            (ReplyKind::Blob, Output::Blob(blob)) => Ok(Reply::Blob(blob)),
            (ReplyKind::Member, Output::MemberRow(row)) => Ok(Reply::Member(workspace_member(row))),
            (ReplyKind::Members, Output::MemberRows(rows)) => Ok(
                Reply::Members(workspace_members(rows)),
            ),
            (ReplyKind::Collab { object_id }, Output::Data(data)) => Ok(
                Reply::Collab { encode_collab: data, object_id },
            ),
            (ReplyKind::StillPublished, Output::PublishInfo { info, unpublished_timestamp }) => {
                if unpublished_timestamp.is_some() {
                    return Err(ApiError::RecordNotFound("Collab is unpublished".to_owned()));
                }
                Ok(Reply::Data(info))
            },
            (ReplyKind::PublishInfo, Output::PublishInfo { info, .. }) => Ok(Reply::Data(info)),
            (ReplyKind::InfoMeta, Output::InfoMeta { info, meta }) => Ok(
                Reply::InfoMeta { info, meta },
            ),
            (ReplyKind::Comments, Output::Data(data)) => Ok(Reply::Comments { comments: data }),
            (ReplyKind::Reactions, Output::Data(data)) => Ok(Reply::Reactions { reactions: data }),
            (ReplyKind::Views, Output::Data(data)) => Ok(Reply::Views { views: data }),
            (ReplyKind::Embedding { object_id }, Output::Maybe(found)) => match found {
                Some(data) => Ok(Reply::Data(data)),
                None => Err(
                    ApiError::RecordNotFound(
                        join("Embedding for given object:", object_id.as_str()).concat(" not found"),
                    ),
                ),
            },
            _ => {
                assert(false);
                Ok(Reply::Empty)
            },
        }
    }
}

/// Clients see of a member what is stored of it, unchanged, and no picture.
pub proof fn members_are_seen_as_stored(row: MemberRow)
    ensures
        seen_member(row).name == row.name,
        seen_member(row).email == row.email,
        seen_member(row).role == row.role,
        seen_member(row).avatar_url is None,
{
}

/// A reply hands on what the operation gave, unchanged and wrapped as its kind says; members come
/// as many as there are, in their order.
pub proof fn replies_hand_on_what_was_given<P>(kind: ReplyKind, output: Output<P>, reply: Reply<P>)
    requires
        kind.problem(output) is None,
        kind.answers(output, reply),
    ensures
        match kind {
            ReplyKind::Empty => reply is Empty,
            ReplyKind::Data => output matches Output::Data(data) && reply == Reply::Data(data),
            ReplyKind::Blob => output matches Output::Blob(blob) && reply == Reply::<P>::Blob(blob),
            ReplyKind::Member => output matches Output::MemberRow(row) && (reply
                matches Reply::Member(member) && member.name == row.name && member.email
                == row.email && member.role == row.role && member.avatar_url is None),
            ReplyKind::Members => output matches Output::MemberRows(rows) && (reply
                matches Reply::Members(members) && {
                &&& members@.len() == rows@.len()
                &&& forall|i: int|
                    #![trigger members@[i]]
                    0 <= i < rows@.len() ==> members@[i].name == rows@[i].name && members@[i].email
                        == rows@[i].email && members@[i].role == rows@[i].role
                        && members@[i].avatar_url is None
            }),
            ReplyKind::Collab { object_id: asked } => output matches Output::Data(data) && (reply
                matches Reply::Collab { encode_collab, object_id } && encode_collab == data
                && object_id == asked),
            ReplyKind::StillPublished => output matches Output::PublishInfo {
                info,
                unpublished_timestamp,
            } && unpublished_timestamp is None && reply == Reply::Data(info),
            ReplyKind::PublishInfo => output matches Output::PublishInfo { info, .. } && reply
                == Reply::Data(info),
            ReplyKind::InfoMeta => output matches Output::InfoMeta { info: i, meta: m } && (reply
                matches Reply::InfoMeta { info, meta } && info == i && meta == m),
            ReplyKind::Comments => output matches Output::Data(data) && (reply
                matches Reply::Comments { comments } && comments == data),
            ReplyKind::Reactions => output matches Output::Data(data) && (reply
                matches Reply::Reactions { reactions } && reactions == data),
            ReplyKind::Views => output matches Output::Data(data) && (reply matches Reply::Views {
                views,
            } && views == data),
            ReplyKind::RowId { row_id: stored } => reply matches Reply::RowId { row_id } && row_id
                == stored,
            ReplyKind::Embedding { .. } => output matches Output::Maybe(Some(data)) && reply
                == Reply::Data(data),
        },
{
}

/// What succeeded is refused in two cases only, each with its own words: an object that has been
/// unpublished where that matters, and an object without an embedding.
pub proof fn successes_are_refused_in_two_cases<P>(kind: ReplyKind, output: Output<P>)
    requires
        kind.fits(output),
    ensures
        kind.problem(output) is Some <==> {
            ||| kind is StillPublished && output->PublishInfo_unpublished_timestamp is Some
            ||| kind is Embedding && output->Maybe_0 is None
        },
        kind is StillPublished && kind.problem(output) is Some ==> kind.problem(output) == Some(
            Problem::RecordNotFound("Collab is unpublished"@),
        ),
        kind matches ReplyKind::Embedding { object_id } ==> (kind.problem(output) is Some
            ==> kind.problem(output) == Some(
            Problem::RecordNotFound("Embedding for given object:"@ + object_id@ + " not found"@),
        )),
{
}

/// Which outputs a reply of a kind can be made of.
pub proof fn outputs_fit_their_replies<P>(kind: ReplyKind, output: Output<P>)
    ensures
        kind.fits(output) <==> match kind {
            ReplyKind::Empty | ReplyKind::RowId { .. } => true,
            ReplyKind::Data
            | ReplyKind::Collab { .. }
            | ReplyKind::Comments
            | ReplyKind::Reactions
            | ReplyKind::Views => output is Data,
            ReplyKind::Blob => output is Blob,
            ReplyKind::Member => output is MemberRow,
            ReplyKind::Members => output is MemberRows,
            ReplyKind::StillPublished | ReplyKind::PublishInfo => output is PublishInfo,
            ReplyKind::InfoMeta => output is InfoMeta,
            ReplyKind::Embedding { .. } => output is Maybe,
        },
{
}

} // verus!

//! Creating one collaborative object.
//!
//! A request passes through these stages, and each stage is reached only from the one before: the
//! user is identified and the way the body is encoded is known ([`CreateRequest`]), the body is
//! decoded ([`CollabDraft`]), and the object in it is found to be properly encoded, which leaves
//! the plan to store it ([`CollabCreation`]). `P` is what the body says of the object.
use vstd::prelude::*;

use crate::error::ApiError;
use crate::error::Failure;
use crate::error::Problem;
use crate::operation::Operation;
use crate::plan::lemma_runs_three;
use crate::plan::uid_known;
use crate::plan::Ending;
use crate::plan::Plan;
use crate::plan::Step;
use crate::realtime::BodyEncoding;
use crate::reply::ReplyKind;
use crate::text::join;

verus! {

/// How the parameters are stored in the body.
#[derive(Clone, Copy, PartialEq, Eq, Structural)]
pub enum BodySource {
    /// As JSON.
    Json,
    /// Compressed; decompressing takes a buffer of this size.
    Compressed { buffer_size: usize },
}

/// Why a body gives no parameters.
pub enum DecodeFailure<E> {
    /// It could not be decompressed.
    Decompress(E),
    /// What it holds could not be parsed.
    Parse(String),
}

/// What a decoded body says.
pub struct NewCollab<P> {
    pub workspace_id: String,
    pub object_id: String,
    pub params: P,
    /// The parameters as they are shown to people.
    pub description: String,
}

/// A request whose user is identified.
pub struct CreateRequest {
    uid: i64,
    source: BodySource,
}

/// A request whose body has been decoded.
pub struct CollabDraft<P> {
    uid: i64,
    collab: NewCollab<P>,
}

/// A request that can be served: for which user, and how.
pub struct CollabCreation<P> {
    pub uid: i64,
    pub plan: Plan<P>,
}

/// What a body is refused with that does not hold parameters.
pub open spec fn not_parsed(source: BodySource, message: Seq<char>) -> Problem {
    match source {
        BodySource::Json => Problem::InvalidRequest(
            "Failed to parse CreateCollabParams from JSON: "@ + message,
        ),
        BodySource::Compressed { .. } => Problem::InvalidRequest(
            "Failed to parse CreateCollabParams with brotli decompression data: "@ + message,
        ),
    }
}

/// What an object is refused with that takes the identifier of its workspace.
pub open spec fn same_as_workspace() -> Problem {
    Problem::InvalidRequest("object_id cannot be the same as workspace_id"@)
}

/// What an object is refused with that is not properly encoded.
pub open spec fn badly_encoded(object_id: Seq<char>, message: Seq<char>) -> Problem {
    Problem::NoRequiredData("collab doc state is not correct:"@ + object_id + ","@ + message)
}

impl CreateRequest {
    pub closed spec fn sender(&self) -> i64 {
        self.uid
    }

    pub closed spec fn stored(&self) -> BodySource {
        self.source
    }

    /// Starts to serve a request once the sender's number has been asked for and the headers have
    /// been looked at. The sender comes first.
    pub fn identified<E>(uid: Result<i64, E>, encoding: BodyEncoding<E>) -> (request: Result<
        CreateRequest,
        Failure<E>,
    >)
        ensures
            match (uid, encoding) {
                (Err(error), _) => request == Err::<CreateRequest, Failure<E>>(
                    Failure::Upstream(error),
                ),
                (Ok(_), BodyEncoding::Compressed(Err(error))) => request == Err::<
                    CreateRequest,
                    Failure<E>,
                >(Failure::Upstream(error)),
                (Ok(uid), BodyEncoding::Plain) => request matches Ok(request) && request.sender()
                    == uid && request.stored() == BodySource::Json,
                (Ok(uid), BodyEncoding::Compressed(Ok(buffer_size))) => request matches Ok(request)
                    && request.sender() == uid && request.stored() == (BodySource::Compressed {
                    buffer_size,
                }),
            },
    {
        let uid: i64 = match uid {
            Ok(uid) => uid,
            Err(error) => {
                return Err(Failure::Upstream(error));
            },
        };
        match encoding {
            BodyEncoding::Plain => Ok(CreateRequest { uid, source: BodySource::Json }),
            BodyEncoding::Compressed(Ok(buffer_size)) => Ok(
                CreateRequest { uid, source: BodySource::Compressed { buffer_size } },
            ),
            BodyEncoding::Compressed(Err(error)) => Err(Failure::Upstream(error)),
        }
    }

    /// How the body is to be decoded.
    pub fn source(&self) -> (source: BodySource)
        ensures
            source == self.stored(),
    {
        self.source
    }

    /// Takes in what decoding the body has come to. Only a folder has the identifier of its
    /// workspace, and folders are not created this way.
    pub fn decoded<P, E>(self, decoded: Result<NewCollab<P>, DecodeFailure<E>>) -> (draft: Result<
        CollabDraft<P>,
        Failure<E>,
    >)
        ensures
            match decoded {
                Err(DecodeFailure::Decompress(error)) => draft == Err::<
                    CollabDraft<P>,
                    Failure<E>,
                >(Failure::Upstream(error)),
                Err(DecodeFailure::Parse(message)) => draft matches Err(failure) && failure.is_api(
                    not_parsed(self.stored(), message@),
                ),
                Ok(collab) => if collab.object_id@ == collab.workspace_id@ {
                    draft matches Err(failure) && failure.is_api(same_as_workspace())
                } else {
                    draft matches Ok(draft) && draft.sender() == self.sender() && draft@ == collab
                },
            },
            draft is Ok <==> (decoded matches Ok(collab) && collab.object_id@
                != collab.workspace_id@),
    {
        let collab = match decoded {
            Ok(collab) => collab,
            Err(DecodeFailure::Decompress(error)) => {
                return Err(Failure::Upstream(error));
            },
            Err(DecodeFailure::Parse(message)) => {
                let text = match self.source {
                    BodySource::Json => join(
                        "Failed to parse CreateCollabParams from JSON: ",
                        message.as_str(),
                    ),
                    BodySource::Compressed { .. } => join(
                        "Failed to parse CreateCollabParams with brotli decompression data: ",
                        message.as_str(),
                    ),
                };
                return Err(Failure::Api(ApiError::InvalidRequest(text)));
            },
        };
        if collab.object_id == collab.workspace_id {
            return Err(
                Failure::Api(
                    ApiError::InvalidRequest(
                        "object_id cannot be the same as workspace_id".to_owned(),
                    ),
                ),
            );
        }
        Ok(CollabDraft { uid: self.uid, collab })
    }
}

impl<P> View for CollabDraft<P> {
    type V = NewCollab<P>;

    /// What the body says.
    closed spec fn view(&self) -> NewCollab<P> {
        self.collab
    }
}

impl<P> CollabDraft<P> {
    pub closed spec fn sender(&self) -> i64 {
        self.uid
    }

    /// What the body says of the object, whose encoding is to be checked.
    pub fn params(&self) -> (params: &P)
        ensures
            *params == self@.params,
    {
        &self.collab.params
    }

    /// Takes in whether the object is properly encoded. If it is, it is indexed, if its workspace
    /// is, and then stored in a transaction of its own.
    pub fn encoding_checked(self, checked: Result<(), String>) -> (creation: Result<
        CollabCreation<P>,
        ApiError,
    >)
        ensures
            match checked {
                Err(message) => creation matches Err(error) && error@ == badly_encoded(
                    self@.object_id@,
                    message@,
                ),
                Ok(()) => creation matches Ok(creation) && creation.uid == self.sender()
                    && creation.plan.runs(uid_known()) && stores(creation.plan, self@),
            },
            creation is Ok <==> checked is Ok,
            creation matches Ok(creation) ==> {
                &&& creation.plan.steps@ == seq![
                    Step::Index { workspace_id: self@.workspace_id },
                    Step::Begin,
                    Step::Write,
                ]
                &&& creation.plan.ending matches Ending::Commit(
                    Operation::CreateCollab { workspace_id, params, action },
                ) && workspace_id == self@.workspace_id && params == self@.params && action@
                    == "Create new collab: "@ + self@.description@
            },
    {
        if let Err(message) = checked {
            let text = join("collab doc state is not correct:", self.collab.object_id.as_str());
            return Err(ApiError::NoRequiredData(text.concat(",").concat(message.as_str())));
        }
        let collab = self.collab;
        let action = join("Create new collab: ", collab.description.as_str());
        let workspace_id = collab.workspace_id;
        let plan = Plan {
            steps: vec![
                Step::Index { workspace_id: workspace_id.clone() },
                Step::Begin,
                Step::Write,
            ],
            ending: Ending::Commit(
                Operation::CreateCollab { workspace_id, params: collab.params, action },
            ),
            reply: ReplyKind::Empty,
        };
        proof {
            assert(plan.steps@ =~= seq![Step::Index { workspace_id }, Step::Begin, Step::Write]);
            lemma_runs_three(plan.steps@, plan.ending);
        }
        Ok(CollabCreation { uid: self.uid, plan })
    }
}

/// The plan stores this object in a transaction, and names the action after it.
pub open spec fn stores<P>(plan: Plan<P>, collab: NewCollab<P>) -> bool {
    let workspace_id = collab.workspace_id;
    plan.ending matches Ending::Commit(Operation::CreateCollab { action, .. }) && {
        &&& action@ == "Create new collab: "@ + collab.description@
        &&& plan.commits(
            seq![Step::Index { workspace_id }, Step::Begin, Step::Write],
            Operation::CreateCollab { workspace_id, params: collab.params, action },
        )
    }
}

/// What is wrong with a request to create an object is said in full: how its body was to be parsed,
/// or which object is not properly encoded, and why.
pub proof fn complaints_about_new_objects_are_complete(
    buffer_size: usize,
    object_id: Seq<char>,
    message: Seq<char>,
)
    ensures
        not_parsed(BodySource::Json, message) == Problem::InvalidRequest(
            "Failed to parse CreateCollabParams from JSON: "@ + message,
        ),
        not_parsed(BodySource::Compressed { buffer_size }, message) == Problem::InvalidRequest(
            "Failed to parse CreateCollabParams with brotli decompression data: "@ + message,
        ),
        same_as_workspace() == Problem::InvalidRequest(
            "object_id cannot be the same as workspace_id"@,
        ),
        badly_encoded(object_id, message) == Problem::NoRequiredData(
            "collab doc state is not correct:"@ + object_id + ","@ + message,
        ),
{
}

/// A plan that stores an object stores exactly that object in its own workspace, once it has been
/// indexed if it may be, and in one transaction.
pub proof fn objects_are_stored_where_they_belong<P>(plan: Plan<P>, collab: NewCollab<P>)
    requires
        stores(plan, collab),
    ensures
        plan.steps@.len() == 3,
        plan.steps@[0] == (Step::Index { workspace_id: collab.workspace_id }),
        plan.steps@[1] is Begin,
        plan.steps@[2] is Write,
        plan.reply is Empty,
        plan.ending matches Ending::Commit(
            Operation::CreateCollab { workspace_id, params, action },
        ) && workspace_id == collab.workspace_id && params == collab.params && action@
            == "Create new collab: "@ + collab.description@,
{
}

} // verus!

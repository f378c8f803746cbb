//! Full synchronization of one collaborative object over HTTP.
//!
//! A request passes through these stages, and each stage is reached only from the one before:
//! the body's size is accepted ([`SyncRequest`]), the update in it is read ([`SyncUpdate`]), the
//! user is identified ([`SyncMessage`], which is what the realtime server is sent), and the
//! server's answer becomes the response ([`SyncResponse`]).
use vstd::prelude::*;

use crate::compression::compress_reply;
use crate::compression::decompressed_part;
use crate::compression::not_decompressed;
use crate::compression::packs;
use crate::compression::restore;
use crate::compression::restored;
use crate::compression::zstd_decoded;
use crate::compression::zstd_encoded;
use crate::compression::PayloadCompression;
use crate::compression::REPLY_COMPRESSION_LEVEL;
use crate::error::ApiError;
use crate::error::Failure;
use crate::error::Problem;
use crate::ids::hyphenated;
use crate::ids::new_session_id;
use crate::ids::was_drawn;
use crate::ids::Id;
use crate::text::decimal;
use crate::text::decimal_text;
use crate::text::digits;
use crate::text::join;
use crate::user::header_or_empty;
use crate::user::RealtimeUser;

verus! {

/// The largest body that is accepted, in bytes.
pub const MAX_BODY_SIZE: usize = 1024 * 1024 * 50;

/// What a body of this many bytes is refused with, if it is.
pub open spec fn body_problem(size: int) -> Option<Problem> {
    if size == 0 {
        Some(Problem::InvalidRequest("body is empty"@))
    } else if size > MAX_BODY_SIZE {
        Some(
            Problem::InvalidRequest("body size exceeds limit: "@ + decimal(MAX_BODY_SIZE as int)),
        )
    } else {
        None
    }
}

/// The fields of the message in a body, as the decoder gives them. `T` is the type of the object.
pub struct DocStateParams<T> {
    pub collab_type: T,
    /// How the two parts below are stored, or the decoder's complaint about that field.
    pub compression: Result<PayloadCompression, String>,
    pub doc_state: Vec<u8>,
    pub sv: Vec<u8>,
}

/// What a decoded message is refused with, if it is. The first complaint counts, in this order: no
/// document state, an unknown compression, a document state or a state vector that does not
/// decompress.
pub open spec fn params_problem<T>(params: DocStateParams<T>) -> Option<Problem> {
    if params.doc_state@.len() == 0 {
        Some(Problem::InvalidRequest("doc state is empty"@))
    } else {
        match params.compression {
            Err(message) => Some(
                Problem::InvalidRequest("Failed to parse PayloadCompressionType: "@ + message@),
            ),
            Ok(compression) => match restored(compression, params.doc_state@) {
                Err(message) => Some(not_decompressed("doc_state"@, message)),
                Ok(_) => match restored(compression, params.sv@) {
                    Err(message) => Some(not_decompressed("sv"@, message)),
                    Ok(_) => None,
                },
            },
        }
    }
}

/// What the outcome of decoding a body is refused with, if it is.
pub open spec fn decoded_problem<T>(decoded: Result<DocStateParams<T>, String>) -> Option<Problem> {
    match decoded {
        Err(message) => Some(
            Problem::InvalidRequest("Failed to parse CollabDocStateParams: "@ + message@),
        ),
        Ok(params) => params_problem(params),
    }
}

/// A request whose body has an acceptable size and can be decoded.
pub struct SyncRequest {
    workspace_id: Id,
    object_id: Id,
}

/// A request whose update has been read.
pub struct SyncUpdate<T> {
    workspace_id: Id,
    object_id: Id,
    collab_type: T,
    doc_state: Vec<u8>,
    sv: Vec<u8>,
}

/// What the realtime server is sent.
pub struct SyncMessage<T> {
    pub user: RealtimeUser,
    pub workspace_id: String,
    pub object_id: String,
    pub collab_type: T,
    pub update: Vec<u8>,
    pub state_vector: Vec<u8>,
}

impl<T> SyncMessage<T> {
    /// The message carries this update.
    pub open spec fn carries(&self, update: SyncUpdate<T>) -> bool {
        &&& self.workspace_id@ == update.workspace().spec_text()
        &&& self.object_id@ == update.object().spec_text()
        &&& self.collab_type == update.kind()
        &&& self.update@ == update.update()
        &&& self.state_vector@ == update.state_vector()
    }
}

/// What the realtime server answered: the missing update, nothing, or its own error.
pub enum ServerAnswer<E> {
    Update(Vec<u8>),
    Nothing,
    Error(E),
}

/// The response of the request.
pub enum SyncResponse<E> {
    /// The missing update, compressed.
    Body(Vec<u8>),
    /// An internal server error without a body.
    ServerError,
    /// The response that the realtime server's error stands for.
    ErrorResponse(E),
}

/// Why there is no response of its own.
pub enum SyncFailure {
    Api(ApiError),
    /// The response could not be compressed.
    Compression(String),
}

impl SyncRequest {
    pub closed spec fn workspace(&self) -> Id {
        self.workspace_id
    }

    pub closed spec fn object(&self) -> Id {
        self.object_id
    }

    /// Accepts a request with a body of this size, or refuses it before the body is looked at.
    pub fn accept(workspace_id: Id, object_id: Id, body_size: usize) -> (accepted: Result<
        SyncRequest,
        ApiError,
    >)
        ensures
            match body_problem(body_size as int) {
                None => accepted matches Ok(request) && request.workspace() == workspace_id
                    && request.object() == object_id,
                Some(problem) => accepted matches Err(error) && error@ == problem,
            },
            accepted is Ok <==> 0 < body_size <= 52_428_800,
            body_size == 0 ==> (accepted matches Err(error) && error@ == Problem::InvalidRequest(
                "body is empty"@,
            )),
            body_size > 52_428_800 ==> (accepted matches Err(error) && error@
                == Problem::InvalidRequest("body size exceeds limit: "@ + decimal(52_428_800))),
    {
        if body_size == 0 {
            return Err(ApiError::InvalidRequest("body is empty".to_owned()));
        }
        if body_size > MAX_BODY_SIZE {
            let limit = decimal_text(MAX_BODY_SIZE as i64);
            return Err(
                ApiError::InvalidRequest(join("body size exceeds limit: ", limit.as_str())),
            );
        }
        Ok(SyncRequest { workspace_id, object_id })
    }

    /// Reads the update out of what the decoder made of the body.
    pub fn read<T>(self, decoded: Result<DocStateParams<T>, String>) -> (read: Result<
        SyncUpdate<T>,
        ApiError,
    >)
        ensures
            match decoded_problem(decoded) {
                Some(problem) => read matches Err(error) && error@ == problem,
                None => read matches Ok(update) && update.carries(self, decoded->Ok_0),
            },
            read matches Ok(update) ==> (decoded matches Ok(params) && {
                &&& params.doc_state@.len() > 0
                &&& update.workspace() == self.workspace()
                &&& update.object() == self.object()
                &&& update.kind() == params.collab_type
                &&& match params.compression {
                    Ok(PayloadCompression::Plain) => update.update() == params.doc_state@
                        && update.state_vector() == params.sv@,
                    Ok(PayloadCompression::Zstd) => zstd_decoded(params.doc_state@) == Ok::<
                        Seq<u8>,
                        Seq<char>,
                    >(update.update()) && zstd_decoded(params.sv@) == Ok::<Seq<u8>, Seq<char>>(
                        update.state_vector(),
                    ),
                    Err(_) => false,
                }
            }),
    {
        let params = match decoded {
            Ok(params) => params,
            Err(message) => {
                return Err(
                    ApiError::InvalidRequest(
                        join("Failed to parse CollabDocStateParams: ", message.as_str()),
                    ),
                );
            },
        };
        if params.doc_state.len() == 0 {
            return Err(ApiError::InvalidRequest("doc state is empty".to_owned()));
        }
        let compression = match params.compression {
            Ok(compression) => compression,
            Err(message) => {
                return Err(
                    ApiError::InvalidRequest(
                        join("Failed to parse PayloadCompressionType: ", message.as_str()),
                    ),
                );
            },
        };
        let doc_state = restore(compression, params.doc_state);
        let sv = restore(compression, params.sv);
        self.assembled(params.collab_type, doc_state, sv)
    }

    /// The update that is made of two parts, once both of them have been restored.
    pub fn assembled<T>(
        self,
        collab_type: T,
        doc_state: Result<Vec<u8>, String>,
        sv: Result<Vec<u8>, String>,
    ) -> (assembled: Result<SyncUpdate<T>, ApiError>)
        ensures
            match (doc_state, sv) {
                (Err(message), _) => assembled matches Err(error) && error@ == not_decompressed(
                    "doc_state"@,
                    message@,
                ),
                (Ok(_), Err(message)) => assembled matches Err(error) && error@
                    == not_decompressed("sv"@, message@),
                (Ok(doc_state), Ok(sv)) => assembled matches Ok(update) && {
                    &&& update.workspace() == self.workspace()
                    &&& update.object() == self.object()
                    &&& update.kind() == collab_type
                    &&& update.update() == doc_state@
                    &&& update.state_vector() == sv@
                },
            },
    {
        let doc_state = match decompressed_part("doc_state", doc_state) {
            Ok(doc_state) => doc_state,
            Err(error) => {
                return Err(error);
            },
        };
        let sv = match decompressed_part("sv", sv) {
            Ok(sv) => sv,
            Err(error) => {
                return Err(error);
            },
        };
        Ok(
            SyncUpdate {
                workspace_id: self.workspace_id,
                object_id: self.object_id,
                collab_type,
                doc_state,
                sv,
            },
        )
    }
}

impl<T> SyncUpdate<T> {
    pub closed spec fn workspace(&self) -> Id {
        self.workspace_id
    }

    pub closed spec fn object(&self) -> Id {
        self.object_id
    }

    pub closed spec fn kind(&self) -> T {
        self.collab_type
    }

    pub closed spec fn update(&self) -> Seq<u8> {
        self.doc_state@
    }

    pub closed spec fn state_vector(&self) -> Seq<u8> {
        self.sv@
    }

    /// The update is that of `params`, restored from how it was stored, for the object of
    /// `request`.
    pub open spec fn carries(&self, request: SyncRequest, params: DocStateParams<T>) -> bool {
        &&& self.workspace() == request.workspace()
        &&& self.object() == request.object()
        &&& self.kind() == params.collab_type
        &&& restored(params.compression->Ok_0, params.doc_state@) == Ok::<Seq<u8>, Seq<char>>(
            self.update(),
        )
        &&& restored(params.compression->Ok_0, params.sv@) == Ok::<Seq<u8>, Seq<char>>(
            self.state_vector(),
        )
    }

    /// The message for the realtime server, once the user's number has been asked for. A header
    /// that the client did not send counts as empty.
    pub fn identified<E>(
        self,
        uid: Result<i64, E>,
        device_id: Option<String>,
        app_version: Option<String>,
        connect_at: i64,
    ) -> (message: Result<SyncMessage<T>, Failure<E>>)
        ensures
            match uid {
                Err(error) => message == Err::<SyncMessage<T>, Failure<E>>(
                    Failure::Upstream(error),
                ),
                Ok(uid) => message matches Ok(message) && {
                    &&& message.carries(self)
                    &&& message.workspace_id@ == self.workspace().spec_text()
                    &&& message.object_id@ == self.object().spec_text()
                    &&& message.collab_type == self.kind()
                    &&& message.update@ == self.update()
                    &&& message.state_vector@ == self.state_vector()
                    &&& message.user.uid == uid
                    &&& message.user.connect_at == connect_at
                    &&& device_id is Some ==> message.user.device_id == device_id->0
                    &&& device_id is None ==> message.user.device_id@.len() == 0
                    &&& app_version is Some ==> message.user.app_version == app_version->0
                    &&& app_version is None ==> message.user.app_version@.len() == 0
                    &&& exists|bytes: Seq<u8>|
                        #![trigger hyphenated(bytes)]
                        bytes.len() == 16 && bytes[6] / 16 == 4 && bytes[8] / 64 == 2
                            && message.user.session_id@ == hyphenated(bytes) && was_drawn(bytes)
                },
            },
    {
        match uid {
            Err(error) => Err(Failure::Upstream(error)),
            Ok(uid) => {
                let user = RealtimeUser {
                    uid,
                    device_id: header_or_empty(device_id),
                    connect_at,
                    session_id: new_session_id(),
                    app_version: header_or_empty(app_version),
                };
                Ok(
                    SyncMessage {
                        user,
                        workspace_id: self.workspace_id.text(),
                        object_id: self.object_id.text(),
                        collab_type: self.collab_type,
                        update: self.doc_state,
                        state_vector: self.sv,
                    },
                )
            },
        }
    }
}

/// The two hold the same update, one as it is and the other with each part compressed. Whatever
/// compression makes of a part is such a compressed form (see [`crate::compression::packs`]).
pub open spec fn are_plain_and_packed<T>(
    plain: DocStateParams<T>,
    packed: DocStateParams<T>,
) -> bool {
    &&& plain.compression == Ok::<PayloadCompression, String>(PayloadCompression::Plain)
    &&& packed.compression == Ok::<PayloadCompression, String>(PayloadCompression::Zstd)
    &&& plain.collab_type == packed.collab_type
    &&& packs(packed.doc_state@, plain.doc_state@)
    &&& packs(packed.sv@, plain.sv@)
    &&& plain.doc_state@.len() > 0
}

/// An update may be sent compressed: a message whose parts are stored as they are and one whose
/// parts are stored compressed are both accepted.
pub proof fn plain_and_packed_updates_are_accepted<T>(
    plain: DocStateParams<T>,
    packed: DocStateParams<T>,
)
    requires
        are_plain_and_packed(plain, packed),
    ensures
        decoded_problem(Ok(plain)) is None,
        decoded_problem(Ok(packed)) is None,
{
}

/// It makes no difference to the realtime server whether an update was sent compressed: what it is
/// sent for the two differs at most in the user of the request.
pub proof fn plain_and_packed_updates_agree<T>(
    request: SyncRequest,
    plain: DocStateParams<T>,
    packed: DocStateParams<T>,
    plain_update: SyncUpdate<T>,
    packed_update: SyncUpdate<T>,
    plain_message: SyncMessage<T>,
    packed_message: SyncMessage<T>,
)
    requires
        are_plain_and_packed(plain, packed),
        plain_update.carries(request, plain),
        packed_update.carries(request, packed),
        plain_message.carries(plain_update),
        packed_message.carries(packed_update),
    ensures
        plain_message.update@ == plain.doc_state@,
        packed_message.update@ == plain.doc_state@,
        plain_message.state_vector@ == plain.sv@,
        packed_message.state_vector@ == plain.sv@,
        plain_message.collab_type == packed_message.collab_type,
        plain_message.workspace_id@ == packed_message.workspace_id@,
        plain_message.object_id@ == packed_message.object_id@,
{
}

/// What follows from whether the message could be handed to the realtime server.
pub fn sync_message_sent(sent: Result<(), String>) -> (accepted: Result<(), ApiError>)
    ensures
        match sent {
            Ok(()) => accepted is Ok,
            Err(message) => accepted matches Err(error) && error@ == Problem::Internal(
                "Failed to send message to server: "@ + message@,
            ),
        },
{
    match sent {
        Ok(()) => Ok(()),
        Err(message) => Err(
            ApiError::Internal(join("Failed to send message to server: ", message.as_str())),
        ),
    }
}

/// What the request is refused with when the task that compresses the response breaks down.
pub fn compression_task_failed(message: &str) -> (error: ApiError)
    ensures
        error@ == Problem::Internal("Failed to compress data: "@ + message@),
{
    ApiError::Internal(join("Failed to compress data: ", message))
}

/// The response answers what was received from the realtime server. An update comes back
/// compressed, and decompresses to what the server sent.
pub open spec fn answers<E>(
    received: Result<ServerAnswer<E>, String>,
    response: Result<SyncResponse<E>, SyncFailure>,
) -> bool {
    match received {
        Err(message) => response matches Err(SyncFailure::Api(error)) && error@
            == Problem::Internal("Failed to receive message from server: "@ + message@),
        Ok(ServerAnswer::Update(data)) => match zstd_encoded(
            data@,
            REPLY_COMPRESSION_LEVEL as int,
        ) {
            Ok(bytes) => response matches Ok(SyncResponse::Body(body)) && body@ == bytes
                && packs(bytes, data@),
            Err(message) => response matches Err(SyncFailure::Compression(error)) && error@
                == message,
        },
        Ok(ServerAnswer::Nothing) => response matches Ok(SyncResponse::ServerError),
        Ok(ServerAnswer::Error(error)) => response == Ok::<SyncResponse<E>, SyncFailure>(
            SyncResponse::ErrorResponse(error),
        ),
    }
}

/// The response to an update that was compressed with this outcome.
pub fn compressed_response<E>(encoded: Result<Vec<u8>, String>) -> (response: Result<
    SyncResponse<E>,
    SyncFailure,
>)
    ensures
        match encoded {
            Ok(body) => response == Ok::<SyncResponse<E>, SyncFailure>(SyncResponse::Body(body)),
            Err(message) => response == Err::<SyncResponse<E>, SyncFailure>(
                SyncFailure::Compression(message),
            ),
        },
{
    match encoded {
        Ok(body) => Ok(SyncResponse::Body(body)),
        Err(message) => Err(SyncFailure::Compression(message)),
    }
}

/// The response to what was received from the realtime server.
pub fn sync_response<E>(received: Result<ServerAnswer<E>, String>) -> (response: Result<
    SyncResponse<E>,
    SyncFailure,
>)
    ensures
        answers(received, response),
        match received {
            Err(message) => response matches Err(SyncFailure::Api(error)) && error@
                == Problem::Internal("Failed to receive message from server: "@ + message@),
            Ok(ServerAnswer::Update(data)) => match response {
                Ok(SyncResponse::Body(body)) => zstd_encoded(data@, 3) == Ok::<Seq<u8>, Seq<char>>(
                    body@,
                ) && zstd_decoded(body@) == Ok::<Seq<u8>, Seq<char>>(data@),
                Err(SyncFailure::Compression(message)) => zstd_encoded(data@, 3) == Err::<
                    Seq<u8>,
                    Seq<char>,
                >(message@),
                _ => false,
            },
            Ok(ServerAnswer::Nothing) => response matches Ok(SyncResponse::ServerError),
            Ok(ServerAnswer::Error(error)) => response == Ok::<SyncResponse<E>, SyncFailure>(
                SyncResponse::ErrorResponse(error),
            ),
        },
{
    match received {
        Err(message) => Err(
            SyncFailure::Api(
                ApiError::Internal(
                    join("Failed to receive message from server: ", message.as_str()),
                ),
            ),
        ),
        Ok(ServerAnswer::Update(data)) => compressed_response(compress_reply(data.as_slice())),
        Ok(ServerAnswer::Nothing) => Ok(SyncResponse::ServerError),
        Ok(ServerAnswer::Error(error)) => Ok(SyncResponse::ErrorResponse(error)),
    }
}

/// Bodies of every size from one byte to 50 MiB are accepted, and no others: an empty one and one
/// that is too large are refused, each for its own reason.
pub proof fn bodies_up_to_the_limit_are_accepted(size: int)
    requires
        0 <= size,
    ensures
        body_problem(size) is None <==> 0 < size <= 52_428_800,
        size == 0 ==> body_problem(size) == Some(Problem::InvalidRequest("body is empty"@)),
        size > 52_428_800 ==> body_problem(size) == Some(
            Problem::InvalidRequest("body size exceeds limit: "@ + "52428800"@),
        ),
{
    reveal_with_fuel(digits, 9);
    reveal_strlit("52428800");
    assert(decimal(52_428_800) =~= "52428800"@);
}

/// A decoded message is accepted exactly if it has a document state, a known compression, and two
/// parts that can be restored.
pub proof fn complete_updates_are_accepted<T>(params: DocStateParams<T>)
    ensures
        decoded_problem(Ok(params)) is None <==> {
            &&& params.doc_state@.len() > 0
            &&& match params.compression {
                Ok(PayloadCompression::Plain) => true,
                Ok(PayloadCompression::Zstd) => zstd_decoded(params.doc_state@) is Ok
                    && zstd_decoded(params.sv@) is Ok,
                Err(_) => false,
            }
        },
{
}

/// What is wrong with a message is said in full, and the first complaint counts.
pub proof fn the_first_complaint_about_an_update_counts<T>(
    params: DocStateParams<T>,
    message: String,
)
    ensures
        decoded_problem(Err::<DocStateParams<T>, String>(message)) == Some(
            Problem::InvalidRequest("Failed to parse CollabDocStateParams: "@ + message@),
        ),
        params.doc_state@.len() == 0 ==> decoded_problem(Ok(params)) == Some(
            Problem::InvalidRequest("doc state is empty"@),
        ),
        params.doc_state@.len() > 0 ==> match params.compression {
            Err(complaint) => decoded_problem(Ok(params)) == Some(
                Problem::InvalidRequest("Failed to parse PayloadCompressionType: "@ + complaint@),
            ),
            Ok(PayloadCompression::Plain) => decoded_problem(Ok(params)) is None,
            Ok(PayloadCompression::Zstd) => match (
                zstd_decoded(params.doc_state@),
                zstd_decoded(params.sv@),
            ) {
                (Err(complaint), _) => decoded_problem(Ok(params)) == Some(
                    Problem::InvalidRequest(
                        "Failed to decompress "@ + "doc_state"@ + ": "@ + complaint,
                    ),
                ),
                (Ok(_), Err(complaint)) => decoded_problem(Ok(params)) == Some(
                    Problem::InvalidRequest("Failed to decompress "@ + "sv"@ + ": "@ + complaint),
                ),
                _ => decoded_problem(Ok(params)) is None,
            },
        },
{
}

/// The realtime server is sent what the client sent: the update and the state vector as they are or
/// decompressed, for the object and of the type that the client named.
pub proof fn the_server_is_sent_what_the_client_sent<T>(
    request: SyncRequest,
    params: DocStateParams<T>,
    update: SyncUpdate<T>,
    message: SyncMessage<T>,
)
    requires
        decoded_problem(Ok(params)) is None,
        update.carries(request, params),
        message.carries(update),
    ensures
        message.workspace_id@ == hyphenated(request.workspace().bytes@),
        message.object_id@ == hyphenated(request.object().bytes@),
        message.collab_type == params.collab_type,
        match params.compression {
            Ok(PayloadCompression::Plain) => message.update@ == params.doc_state@
                && message.state_vector@ == params.sv@,
            Ok(PayloadCompression::Zstd) => zstd_decoded(params.doc_state@) == Ok::<
                Seq<u8>,
                Seq<char>,
            >(message.update@) && zstd_decoded(params.sv@) == Ok::<Seq<u8>, Seq<char>>(
                message.state_vector@,
            ),
            Err(_) => false,
        },
{
}

/// The response is what the realtime server answered: its update compressed, its error as it is,
/// and a server error where it had nothing.
pub proof fn the_response_is_what_the_server_answered<E>(
    received: Result<ServerAnswer<E>, String>,
    response: Result<SyncResponse<E>, SyncFailure>,
)
    requires
        answers(received, response),
    ensures
        response matches Ok(SyncResponse::Body(body)) ==> (received matches Ok(
            ServerAnswer::Update(data),
        ) && zstd_decoded(body@) == Ok::<Seq<u8>, Seq<char>>(data@)),
        response is Ok && response->Ok_0 is ServerError <==> received is Ok
            && received->Ok_0 is Nothing,
        response matches Ok(SyncResponse::ErrorResponse(error)) ==> received == Ok::<
            ServerAnswer<E>,
            String,
        >(ServerAnswer::Error(error)),
        response matches Err(SyncFailure::Api(error)) ==> (received matches Err(message) && error@
            == Problem::Internal("Failed to receive message from server: "@ + message@)),
        received matches Ok(ServerAnswer::Update(data)) ==> (response is Err <==> zstd_encoded(
            data@,
            3,
        ) is Err),
{
}

} // verus!

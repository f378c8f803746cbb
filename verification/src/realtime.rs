//! Realtime messages that a client posts over HTTP.
use vstd::prelude::*;

use crate::error::from_upstream;
use crate::error::upstream;
use crate::error::ApiError;
use crate::error::Failure;
use crate::error::Problem;
use crate::text::join;
use crate::user::header_or_empty;

verus! {

/// What the headers say of how a body is encoded. `E` is the complaint about a header that cannot
/// be read.
pub enum BodyEncoding<E> {
    /// No header asks for decompression.
    Plain,
    /// The body is compressed; decompressing takes a buffer of this size.
    Compressed(Result<usize, E>),
}

/// The payload of a message before it is decoded.
pub enum Payload {
    /// As it stands.
    Ready(Vec<u8>),
    /// Still to be decompressed with a buffer of this size.
    Compressed { data: Vec<u8>, buffer_size: usize },
}

/// What the websocket layer makes of a payload: the bytes of a binary message, or the description
/// of any other kind of message.
///
/// `tokio_tungstenite::tungstenite::Message::from` on a vector of bytes. Trusted: it is always a
/// binary message, and holds exactly those bytes.
#[verifier::external_body]
fn binary_message(payload: Vec<u8>) -> (message: Result<Vec<u8>, String>)
    ensures
        message is Ok && message->Ok_0 == payload,
{
    match tokio_tungstenite::tungstenite::Message::from(payload) {
        tokio_tungstenite::tungstenite::Message::Binary(bytes) => Ok(bytes),
        message => Err(format!("{:?}", message)),
    }
}

/// The bytes of a binary message; a message of any other kind is refused.
pub fn accept_binary(message: Result<Vec<u8>, String>) -> (bytes: Result<Vec<u8>, ApiError>)
    ensures
        match message {
            Ok(bytes_in) => bytes == Ok::<Vec<u8>, ApiError>(bytes_in),
            Err(kind) => bytes matches Err(error) && error@ == Problem::InvalidRequest(
                "Unsupported message type: "@ + kind@,
            ),
        },
{
    match message {
        Ok(bytes) => Ok(bytes),
        Err(kind) => Err(
            ApiError::InvalidRequest(join("Unsupported message type: ", kind.as_str())),
        ),
    }
}

/// `payload` is what the envelope of a posted message holds. The envelope's own decoding comes
/// first, then what the headers say. The headers are about what the envelope holds, which is handed
/// over as it is.
pub open spec fn opens<E>(
    decoded: Result<Vec<u8>, String>,
    encoding: BodyEncoding<E>,
    payload: Result<Payload, Failure<E>>,
) -> bool {
    match decoded {
        Err(message) => payload matches Err(failure) && failure.is_api(Problem::Internal(message@)),
        Ok(data) => match encoding {
            BodyEncoding::Plain => payload == Ok::<Payload, Failure<E>>(Payload::Ready(data)),
            BodyEncoding::Compressed(Ok(buffer_size)) => payload == Ok::<Payload, Failure<E>>(
                Payload::Compressed { data, buffer_size },
            ),
            BodyEncoding::Compressed(Err(error)) => payload == Err::<Payload, Failure<E>>(
                Failure::Upstream(error),
            ),
        },
    }
}

/// Takes the payload out of the envelope of a posted message.
pub fn open_envelope<E>(
    decoded: Result<Vec<u8>, String>,
    encoding: BodyEncoding<E>,
) -> (payload: Result<Payload, Failure<E>>)
    ensures
        opens(decoded, encoding, payload),
        match decoded {
            Err(message) => payload matches Err(Failure::Api(error)) && error@
                == Problem::Internal(message@),
            Ok(data) => match encoding {
                BodyEncoding::Plain => payload == Ok::<Payload, Failure<E>>(Payload::Ready(data)),
                BodyEncoding::Compressed(Ok(buffer_size)) => payload == Ok::<Payload, Failure<E>>(
                    Payload::Compressed { data, buffer_size },
                ),
                BodyEncoding::Compressed(Err(error)) => payload == Err::<Payload, Failure<E>>(
                    Failure::Upstream(error),
                ),
            },
        },
{
    match decoded {
        Err(message) => Err(Failure::Api(ApiError::Internal(message))),
        Ok(data) => match encoding {
            BodyEncoding::Plain => Ok(Payload::Ready(data)),
            BodyEncoding::Compressed(Ok(buffer_size)) => Ok(
                Payload::Compressed { data, buffer_size },
            ),
            BodyEncoding::Compressed(Err(error)) => Err(Failure::Upstream(error)),
        },
    }
}

/// The payload that decompression gave. A decompression that failed ends the request with its
/// error.
pub fn decompressed<E>(outcome: Result<Vec<u8>, E>) -> (payload: Result<Vec<u8>, Failure<E>>)
    ensures
        match outcome {
            Ok(bytes) => payload == Ok::<Vec<u8>, Failure<E>>(bytes),
            Err(error) => payload == Err::<Vec<u8>, Failure<E>>(Failure::Upstream(error)),
        },
{
    upstream(outcome)
}

/// The bytes that an opened envelope leads to when `decompress` is how bytes are decompressed with
/// a buffer of some size: those that are ready, or what decompressing the others has come to.
pub open spec fn payload_bytes<E>(
    opened: Result<Payload, Failure<E>>,
    decompress: spec_fn(Vec<u8>, usize) -> Result<Vec<u8>, E>,
) -> Result<Vec<u8>, Failure<E>> {
    match opened {
        Err(failure) => Err(failure),
        Ok(Payload::Ready(data)) => Ok(data),
        Ok(Payload::Compressed { data, buffer_size }) => from_upstream(
            decompress(data, buffer_size),
        ),
    }
}

/// A message may be posted compressed: an envelope that holds some bytes as they are and one that
/// holds them compressed, with a header that says so, lead to the same bytes.
pub proof fn plain_and_packed_messages_agree<E>(
    data: Vec<u8>,
    packed: Vec<u8>,
    buffer_size: usize,
    decompress: spec_fn(Vec<u8>, usize) -> Result<Vec<u8>, E>,
    opened_plain: Result<Payload, Failure<E>>,
    opened_packed: Result<Payload, Failure<E>>,
)
    requires
        opens(Ok(data), BodyEncoding::Plain, opened_plain),
        opens(Ok(packed), BodyEncoding::Compressed(Ok(buffer_size)), opened_packed),
        decompress(packed, buffer_size) == Ok::<Vec<u8>, E>(data),
    ensures
        payload_bytes(opened_plain, decompress) == Ok::<Vec<u8>, Failure<E>>(data),
        payload_bytes(opened_packed, decompress) == Ok::<Vec<u8>, Failure<E>>(data),
{
}

/// What goes wrong with a compressed message is reported as it is: a header that cannot be read
/// before anything is decompressed, and a decompression that fails.
pub proof fn failures_of_packed_messages_are_reported<E>(
    packed: Vec<u8>,
    header: Result<usize, E>,
    decompress: spec_fn(Vec<u8>, usize) -> Result<Vec<u8>, E>,
    opened: Result<Payload, Failure<E>>,
    error: E,
)
    requires
        opens(Ok(packed), BodyEncoding::Compressed(header), opened),
        match header {
            Err(complaint) => complaint == error,
            Ok(buffer_size) => decompress(packed, buffer_size) == Err::<Vec<u8>, E>(error),
        },
    ensures
        payload_bytes(opened, decompress) == Err::<Vec<u8>, Failure<E>>(Failure::Upstream(error)),
{
}

/// The bytes that hold the realtime message of a payload which needs no more decompression. Every
/// payload holds one.
pub fn message_bytes(payload: Vec<u8>) -> (bytes: Result<Vec<u8>, ApiError>)
    ensures
        bytes == Ok::<Vec<u8>, ApiError>(payload),
{
    accept_binary(binary_message(payload))
}

/// The realtime message, or the refusal when its bytes do not hold one.
pub fn accept_message<M>(decoded: Result<M, String>) -> (message: Result<M, ApiError>)
    ensures
        match decoded {
            Ok(decoded) => message == Ok::<M, ApiError>(decoded),
            Err(text) => message matches Err(error) && error@ == Problem::InvalidRequest(
                "Failed to parse RealtimeMessage: "@ + text@,
            ),
        },
{
    match decoded {
        Ok(message) => Ok(message),
        Err(text) => Err(
            ApiError::InvalidRequest(join("Failed to parse RealtimeMessage: ", text.as_str())),
        ),
    }
}

/// A posted message whose sender is known and whose body is arriving.
pub struct MessageStream {
    uid: i64,
    device_id: String,
    body: Vec<u8>,
}

/// What the realtime server is sent. `M` is the realtime message.
pub struct StreamMessage<M> {
    pub uid: i64,
    pub device_id: String,
    pub message: M,
}

impl MessageStream {
    pub closed spec fn sender(&self) -> i64 {
        self.uid
    }

    pub closed spec fn device(&self) -> Seq<char> {
        self.device_id@
    }

    /// The bytes of the body that have arrived.
    pub closed spec fn arrived(&self) -> Seq<u8> {
        self.body@
    }

    /// Starts to take in a message once the sender's number has been asked for. A device header
    /// that the client did not send counts as empty.
    pub fn identified<E>(device_id: Option<String>, uid: Result<i64, E>) -> (stream: Result<
        MessageStream,
        Failure<E>,
    >)
        ensures
            match uid {
                Err(error) => stream == Err::<MessageStream, Failure<E>>(Failure::Upstream(error)),
                Ok(uid) => stream matches Ok(stream) && {
                    &&& stream.sender() == uid
                    &&& device_id is Some ==> stream.device() == device_id->0@
                    &&& device_id is None ==> stream.device().len() == 0
                    &&& stream.arrived().len() == 0
                },
            },
    {
        match uid {
            Err(error) => Err(Failure::Upstream(error)),
            Ok(uid) => Ok(
                MessageStream { uid, device_id: header_or_empty(device_id), body: Vec::new() },
            ),
        }
    }

    /// Takes in the next item of the body's stream. An item that failed to arrive ends the request
    /// with its error.
    pub fn receive<E>(self, item: Result<Vec<u8>, E>) -> (stream: Result<MessageStream, Failure<E>>)
        ensures
            match item {
                Err(error) => stream == Err::<MessageStream, Failure<E>>(Failure::Upstream(error)),
                Ok(bytes) => stream matches Ok(stream) && {
                    &&& stream.sender() == self.sender()
                    &&& stream.device() == self.device()
                    &&& stream.arrived() == self.arrived() + bytes@
                },
            },
    {
        match item {
            Err(error) => Err(Failure::Upstream(error)),
            Ok(bytes) => {
                let mut body = self.body;
                let ghost before = body@;
                body.extend_from_slice(bytes.as_slice());
                assert(body@ =~= before + bytes@);
                Ok(MessageStream { uid: self.uid, device_id: self.device_id, body })
            },
        }
    }

    /// The body as far as it has arrived.
    pub fn body(&self) -> (body: &Vec<u8>)
        ensures
            body@ == self.arrived(),
    {
        &self.body
    }

    /// The message for the realtime server, once the realtime message in the body is decoded.
    pub fn into_message<M>(self, message: M) -> (sent: StreamMessage<M>)
        ensures
            sent.uid == self.sender(),
            sent.device_id@ == self.device(),
            sent.message == message,
    {
        StreamMessage { uid: self.uid, device_id: self.device_id, message }
    }
}

/// What follows from whether the message could be handed to the realtime server. Under heavy load
/// the server takes no messages; the client is expected to send again.
pub fn stream_message_sent(sent: Result<(), String>) -> (accepted: Result<(), ApiError>)
    ensures
        match sent {
            Ok(()) => accepted is Ok,
            Err(message) => accepted matches Err(error) && error@ == Problem::Internal(
                "Failed to send message to websocket server, error:"@ + message@,
            ),
        },
{
    match sent {
        Ok(()) => Ok(()),
        Err(message) => Err(
            ApiError::Internal(
                join("Failed to send message to websocket server, error:", message.as_str()),
            ),
        ),
    }
}

/// Opening an envelope hands over what it holds: nothing is decompressed that no header asks for,
/// what is to be decompressed is exactly what the envelope holds, and an envelope that does not
/// decode ends the request whatever the headers say.
pub proof fn envelopes_hand_over_what_they_hold<E>(
    data: Vec<u8>,
    message: String,
    buffer_size: usize,
    encoding: BodyEncoding<E>,
    opened: Result<Payload, Failure<E>>,
)
    ensures
        opens(Ok(data), BodyEncoding::Plain, opened) ==> opened == Ok::<Payload, Failure<E>>(
            Payload::Ready(data),
        ),
        opens(Ok(data), BodyEncoding::Compressed(Ok(buffer_size)), opened) ==> opened == Ok::<
            Payload,
            Failure<E>,
        >(Payload::Compressed { data, buffer_size }),
        opens(Err::<Vec<u8>, String>(message), encoding, opened) ==> (opened matches Err(
            Failure::Api(ApiError::Internal(text)),
        ) && text@ == message@),
{
}

} // verus!

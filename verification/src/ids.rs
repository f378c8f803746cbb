//! Identifiers: their text, and the identifiers of database rows that are derived from a hash.
use vstd::prelude::*;
use vstd::utf8::encode_utf8;
use vstd::utf8::encode_utf8_decode_utf8;
use vstd::utf8::is_ascii_chars;
use vstd::utf8::is_ascii_chars_encode_utf8;

use crate::call::value_of;
use sha2::Digest;

verus! {

/// A sixteen-byte identifier.
#[derive(Clone, Copy)]
pub struct Id {
    pub bytes: [u8; 16],
}

/// The hexadecimal digit for a value below sixteen, in lower case.
pub open spec fn hex_digit(value: int) -> char {
    if value < 10 {
        ('0' as int + value) as char
    } else {
        ('a' as int + value - 10) as char
    }
}

/// The bytes in hexadecimal, two digits each, the higher half of a byte first.
pub open spec fn hex(bytes: Seq<u8>) -> Seq<char> {
    Seq::new(
        2 * bytes.len(),
        |i: int|
            hex_digit(
                if i % 2 == 0 {
                    bytes[i / 2] as int / 16
                } else {
                    bytes[i / 2] as int % 16
                },
            ),
    )
}

/// The text of an identifier: 32 hexadecimal digits in groups of 8, 4, 4, 4 and 12, joined by
/// hyphens.
pub open spec fn hyphenated(bytes: Seq<u8>) -> Seq<char> {
    hex(bytes.subrange(0, 4)) + seq!['-'] + hex(bytes.subrange(4, 6)) + seq!['-'] + hex(
        bytes.subrange(6, 8),
    ) + seq!['-'] + hex(bytes.subrange(8, 10)) + seq!['-'] + hex(bytes.subrange(10, 16))
}

/// The text is the usual form of some identifier.
pub open spec fn is_id_text(text: Seq<char>) -> bool {
    exists|bytes: Seq<u8>| bytes.len() == 16 && text == #[trigger] hyphenated(bytes)
}

impl Id {
    /// The text of this identifier.
    pub open spec fn spec_text(self) -> Seq<char> {
        hyphenated(self.bytes@)
    }

    /// The text of this identifier.
    pub fn text(&self) -> (text: String)
        ensures
            text@ == self.spec_text(),
            text@ == hyphenated(self.bytes@),
    {
        format_uuid(self.bytes)
    }
}

/// `uuid::Uuid::from_bytes` and the `Display` of the identifier it gives.
///
/// Trusted: the text is the hyphenated form in lower case of exactly these bytes.
#[verifier::external_body]
fn format_uuid(bytes: [u8; 16]) -> (text: String)
    ensures
        text@ == hyphenated(bytes@),
{
    uuid::Uuid::from_bytes(bytes).to_string()
}

/// What `uuid::Uuid::parse_str` makes of a text: the sixteen bytes, or the text of its error.
pub uninterp spec fn parsed_uuid(text: Seq<char>) -> Result<Seq<u8>, Seq<char>>;

/// `uuid::Uuid::parse_str`, with its error as text.
///
/// Trusted: the result depends on the text alone, and the hyphenated form of any sixteen bytes is
/// read back as those bytes. Which other texts are accepted is left unsaid.
#[verifier::external_body]
fn parse_uuid(text: &str) -> (parsed: Result<[u8; 16], String>)
    ensures
        match parsed {
            Ok(bytes) => parsed_uuid(text@) == Ok::<Seq<u8>, Seq<char>>(bytes@),
            Err(message) => parsed_uuid(text@) == Err::<Seq<u8>, Seq<char>>(message@),
        },
        forall|bytes: Seq<u8>|
            bytes.len() == 16 && text@ == #[trigger] hyphenated(bytes) ==> parsed is Ok
                && parsed->Ok_0@ == bytes,
{
    match uuid::Uuid::parse_str(text) {
        Ok(uuid) => Ok(uuid.into_bytes()),
        Err(error) => Err(error.to_string()),
    }
}

/// `uuid::Uuid::new_v4`.
///
/// Trusted: the version digit is 4 and the variant is that of RFC 9562, whatever the other bits.
#[verifier::external_body]
fn random_uuid() -> (bytes: [u8; 16])
    ensures
        bytes@[6] / 16 == 4,
        bytes@[8] / 64 == 2,
{
    uuid::Uuid::new_v4().into_bytes()
}

/// The bytes were drawn at random.
pub closed spec fn was_drawn(bytes: Seq<u8>) -> bool {
    exists|drawn: [u8; 16]| call_ensures(random_uuid, (), drawn) && #[trigger] drawn@ == bytes
}

/// Bytes are drawn by asking for random ones, and in no other way.
proof fn drawn_bytes_come_from_chance(bytes: Seq<u8>)
    requires
        was_drawn(bytes),
    ensures
        exists|drawn: [u8; 16]| call_ensures(random_uuid, (), drawn) && #[trigger] drawn@ == bytes,
{
}

/// The SHA-256 digest of a message.
pub uninterp spec fn sha256(message: Seq<u8>) -> Seq<u8>;

/// `sha2::Sha256`: a new hasher, updated with the three parts in turn, then finalized.
///
/// Trusted: updating in parts hashes the parts as one message, and the digest, 32 bytes long,
/// depends on that message alone.
#[verifier::external_body]
fn sha256_of_parts(first: &[u8], second: &[u8], third: &[u8]) -> (digest: [u8; 32])
    ensures
        digest@ == sha256(first@ + second@ + third@),
{
    let mut hasher = sha2::Sha256::new();
    hasher.update(first);
    hasher.update(second);
    hasher.update(third);
    hasher.finalize().into()
}

/// The message whose digest identifies a row: workspace, database and the client's key, joined.
pub open spec fn row_message(
    workspace_id: Seq<char>,
    database_id: Seq<char>,
    key: Seq<u8>,
) -> Seq<u8> {
    encode_utf8(workspace_id) + encode_utf8(database_id) + key
}

/// The identifier that the first sixteen bytes of a digest give, as text.
pub fn row_id_from_digest(digest: &[u8; 32]) -> (row_id: String)
    ensures
        row_id@ == hyphenated(digest@.subrange(0, 16)),
        is_id_text(row_id@),
{
    let mut bytes: [u8; 16] = [0; 16];
    let mut i: usize = 0;
    while i < 16
        invariant
            i <= 16,
            bytes@.len() == 16,
            forall|k: int| 0 <= k < i ==> #[trigger] bytes@[k] == digest@[k],
        decreases 16 - i,
    {
        bytes[i] = digest[i];
        i += 1;
    }
    assert(bytes@ =~= digest@.subrange(0, 16));
    Id { bytes }.text()
}

/// The identifier of the row that a client's key stands for in a database of a workspace.
pub fn row_id(workspace_id: &str, database_id: &str, key: &[u8]) -> (row_id: String)
    ensures
        row_id@ == hyphenated(
            sha256(row_message(workspace_id@, database_id@, key@)).subrange(0, 16),
        ),
        row_id@ == hyphenated(
            sha256(encode_utf8(workspace_id@) + encode_utf8(database_id@) + key@).subrange(0, 16),
        ),
        is_id_text(row_id@),
{
    let digest = sha256_of_parts(workspace_id.as_bytes(), database_id.as_bytes(), key);
    row_id_from_digest(&digest)
}

/// A fresh identifier for a session, as text.
pub fn new_session_id() -> (session_id: String)
    ensures
        exists|bytes: Seq<u8>|
            #![trigger hyphenated(bytes)]
            bytes.len() == 16 && bytes[6] / 16 == 4 && bytes[8] / 64 == 2 && session_id@
                == hyphenated(bytes) && was_drawn(bytes),
{
    let bytes: [u8; 16] = value_of(random_uuid);
    let id = Id { bytes };
    assert(hyphenated(bytes@) == id.spec_text());
    assert(was_drawn(bytes@));
    id.text()
}

/// Hexadecimal digits tell the values below sixteen apart.
proof fn lemma_hex_digit_injective(x: int, y: int)
    requires
        0 <= x < 16,
        0 <= y < 16,
        hex_digit(x) == hex_digit(y),
    ensures
        x == y,
{
}

/// The two digits of the byte at `index` stand in `hex` at twice its place.
proof fn lemma_hex_byte(bytes: Seq<u8>, other: Seq<u8>, index: int)
    requires
        0 <= index < bytes.len(),
        bytes.len() == other.len(),
        hex(bytes)[2 * index] == hex(other)[2 * index],
        hex(bytes)[2 * index + 1] == hex(other)[2 * index + 1],
    ensures
        bytes[index] == other[index],
{
    assert((2 * index) / 2 == index && (2 * index) % 2 == 0);
    assert((2 * index + 1) / 2 == index && (2 * index + 1) % 2 == 1);
    lemma_hex_digit_injective(bytes[index] as int / 16, other[index] as int / 16);
    lemma_hex_digit_injective(bytes[index] as int % 16, other[index] as int % 16);
}

/// Equal groups of digits come from equal groups of bytes.
proof fn lemma_hex_injective(bytes: Seq<u8>, other: Seq<u8>)
    requires
        bytes.len() == other.len(),
        hex(bytes) == hex(other),
    ensures
        bytes == other,
{
    assert forall|i: int| 0 <= i < bytes.len() implies bytes[i] == other[i] by {
        lemma_hex_byte(bytes, other, i);
    }
    assert(bytes =~= other);
}

/// Identifiers are told apart by their texts: no two of them share one.
pub proof fn texts_tell_ids_apart(bytes: Seq<u8>, other: Seq<u8>)
    requires
        bytes.len() == 16,
        other.len() == 16,
        hyphenated(bytes) == hyphenated(other),
    ensures
        bytes == other,
{
    let x = hyphenated(bytes);
    let y = hyphenated(other);
    assert(x.subrange(0, 8) =~= hex(bytes.subrange(0, 4)));
    assert(y.subrange(0, 8) =~= hex(other.subrange(0, 4)));
    assert(x.subrange(9, 13) =~= hex(bytes.subrange(4, 6)));
    assert(y.subrange(9, 13) =~= hex(other.subrange(4, 6)));
    assert(x.subrange(14, 18) =~= hex(bytes.subrange(6, 8)));
    assert(y.subrange(14, 18) =~= hex(other.subrange(6, 8)));
    assert(x.subrange(19, 23) =~= hex(bytes.subrange(8, 10)));
    assert(y.subrange(19, 23) =~= hex(other.subrange(8, 10)));
    assert(x.subrange(24, 36) =~= hex(bytes.subrange(10, 16)));
    assert(y.subrange(24, 36) =~= hex(other.subrange(10, 16)));
    lemma_hex_injective(bytes.subrange(0, 4), other.subrange(0, 4));
    lemma_hex_injective(bytes.subrange(4, 6), other.subrange(4, 6));
    lemma_hex_injective(bytes.subrange(6, 8), other.subrange(6, 8));
    lemma_hex_injective(bytes.subrange(8, 10), other.subrange(8, 10));
    lemma_hex_injective(bytes.subrange(10, 16), other.subrange(10, 16));
    assert(bytes =~= bytes.subrange(0, 4) + bytes.subrange(4, 6) + bytes.subrange(6, 8)
        + bytes.subrange(8, 10) + bytes.subrange(10, 16));
    assert(other =~= other.subrange(0, 4) + other.subrange(4, 6) + other.subrange(6, 8)
        + other.subrange(8, 10) + other.subrange(10, 16));
}

/// The text of an identifier is plain ASCII, 36 characters long.
proof fn lemma_id_text_encoded(text: Seq<char>)
    requires
        is_id_text(text),
    ensures
        encode_utf8(text).len() == 36,
{
    let bytes = choose|bytes: Seq<u8>| bytes.len() == 16 && text == #[trigger] hyphenated(bytes);
    assert forall|i: int| 0 <= i < text.len() implies '\0' <= #[trigger] text[i] <= '\u{7f}' by {
        lemma_hyphenated_char(bytes, i);
    }
    assert(is_ascii_chars(text));
    is_ascii_chars_encode_utf8(text);
}

/// Every character of the text of an identifier is a hexadecimal digit or a hyphen.
proof fn lemma_hyphenated_char(bytes: Seq<u8>, i: int)
    requires
        bytes.len() == 16,
        0 <= i < hyphenated(bytes).len(),
    ensures
        hyphenated(bytes).len() == 36,
        '\0' <= hyphenated(bytes)[i] <= '\u{7f}',
{
    let parts = seq![
        bytes.subrange(0, 4),
        bytes.subrange(4, 6),
        bytes.subrange(6, 8),
        bytes.subrange(8, 10),
        bytes.subrange(10, 16),
    ];
    assert forall|part: Seq<u8>, k: int| 0 <= k < hex(part).len() implies '\0' <= #[trigger] hex(
        part,
    )[k] <= '\u{7f}' by {
        assert(0 <= part[k / 2] as int / 16 < 16);
    }
    let text = hyphenated(bytes);
    if i < 8 {
        assert(text[i] == hex(parts[0])[i]);
    } else if 9 <= i < 13 {
        assert(text[i] == hex(parts[1])[i - 9]);
    } else if 14 <= i < 18 {
        assert(text[i] == hex(parts[2])[i - 14]);
    } else if 19 <= i < 23 {
        assert(text[i] == hex(parts[3])[i - 19]);
    } else if 24 <= i {
        assert(text[i] == hex(parts[4])[i - 24]);
    }
}

/// Keys are kept apart: in workspaces and databases that are named by identifiers, no two keys are
/// hashed as the same message.
pub proof fn row_messages_tell_keys_apart(
    workspace_id: Seq<char>,
    database_id: Seq<char>,
    key: Seq<u8>,
    other_workspace_id: Seq<char>,
    other_database_id: Seq<char>,
    other_key: Seq<u8>,
)
    requires
        is_id_text(workspace_id),
        is_id_text(database_id),
        is_id_text(other_workspace_id),
        is_id_text(other_database_id),
        row_message(workspace_id, database_id, key) == row_message(
            other_workspace_id,
            other_database_id,
            other_key,
        ),
    ensures
        workspace_id == other_workspace_id,
        database_id == other_database_id,
        key == other_key,
{
    lemma_id_text_encoded(workspace_id);
    lemma_id_text_encoded(database_id);
    lemma_id_text_encoded(other_workspace_id);
    lemma_id_text_encoded(other_database_id);
    let message = row_message(workspace_id, database_id, key);
    assert(message.subrange(0, 36) =~= encode_utf8(workspace_id));
    assert(message.subrange(0, 36) =~= encode_utf8(other_workspace_id));
    assert(message.subrange(36, 72) =~= encode_utf8(database_id));
    assert(message.subrange(36, 72) =~= encode_utf8(other_database_id));
    assert(message.skip(72) =~= key);
    assert(message.skip(72) =~= other_key);
    encode_utf8_decode_utf8(workspace_id);
    encode_utf8_decode_utf8(other_workspace_id);
    encode_utf8_decode_utf8(database_id);
    encode_utf8_decode_utf8(other_database_id);
}

/// Whether a text names an identifier; if not, why.
pub fn check_id(text: &str) -> (checked: Result<(), String>)
    ensures
        match checked {
            Ok(()) => parsed_uuid(text@) is Ok,
            Err(message) => parsed_uuid(text@) == Err::<Seq<u8>, Seq<char>>(message@),
        },
        is_id_text(text@) ==> checked is Ok,
{
    match parse_uuid(text) {
        Ok(_) => Ok(()),
        Err(message) => Err(message),
    }
}

/// The message that is hashed for a row is the workspace, then the database, then the key, and more
/// of the key is more of the message.
pub proof fn row_messages_end_with_the_key(
    workspace_id: Seq<char>,
    database_id: Seq<char>,
    key: Seq<u8>,
    more: Seq<u8>,
)
    ensures
        row_message(workspace_id, database_id, Seq::empty()) == encode_utf8(workspace_id)
            + encode_utf8(database_id),
        row_message(workspace_id, database_id, key + more) == row_message(
            workspace_id,
            database_id,
            key,
        ) + more,
{
    assert(row_message(workspace_id, database_id, Seq::empty()) =~= encode_utf8(workspace_id)
        + encode_utf8(database_id));
    assert(row_message(workspace_id, database_id, key + more) =~= row_message(
        workspace_id,
        database_id,
        key,
    ) + more);
}

/// The value of a digit of an identifier's text.
pub open spec fn digit_value(digit: char) -> int {
    if digit <= '9' {
        digit as int - '0' as int
    } else {
        digit as int - 'a' as int + 10
    }
}

/// The text of an identifier spells its bytes in their order, two digits each, with hyphens at
/// fixed places and nothing else.
pub proof fn texts_spell_their_bytes(bytes: Seq<u8>, i: int)
    requires
        bytes.len() == 16,
        0 <= i < 16,
    ensures
        hyphenated(bytes).len() == 36,
        hyphenated(bytes)[8] == '-',
        hyphenated(bytes)[13] == '-',
        hyphenated(bytes)[18] == '-',
        hyphenated(bytes)[23] == '-',
        ({
            let at = 2 * i + if i < 4 {
                0int
            } else if i < 6 {
                1
            } else if i < 8 {
                2
            } else if i < 10 {
                3
            } else {
                4
            };
            let high = hyphenated(bytes)[at];
            let low = hyphenated(bytes)[at + 1];
            &&& '0' <= high <= '9' || 'a' <= high <= 'f'
            &&& '0' <= low <= '9' || 'a' <= low <= 'f'
            &&& bytes[i] == 16 * digit_value(high) + digit_value(low)
            &&& bytes[i] / 16 == if high <= '9' {
                high as int - 48
            } else {
                high as int - 87
            }
            &&& bytes[i] % 16 == if low <= '9' {
                low as int - 48
            } else {
                low as int - 87
            }
        }),
{
    lemma_hyphenated_char(bytes, 0);
    let text = hyphenated(bytes);
    let (first, last, at) = if i < 4 {
        (0int, 4int, 2 * i)
    } else if i < 6 {
        (4int, 6int, 2 * i + 1)
    } else if i < 8 {
        (6int, 8int, 2 * i + 2)
    } else if i < 10 {
        (8int, 10int, 2 * i + 3)
    } else {
        (10int, 16int, 2 * i + 4)
    };
    let part = bytes.subrange(first, last);
    let k = i - first;
    assert((2 * k) / 2 == k && (2 * k) % 2 == 0);
    assert((2 * k + 1) / 2 == k && (2 * k + 1) % 2 == 1);
    assert(hex(part)[2 * k] == hex_digit(bytes[i] as int / 16));
    assert(hex(part)[2 * k + 1] == hex_digit(bytes[i] as int % 16));
    assert(text[at] == hex(part)[2 * k]);
    assert(text[at + 1] == hex(part)[2 * k + 1]);
}

/// The text of an identifier is that of its bytes, and counts as the text of one.
pub proof fn ids_have_the_text_of_their_bytes(id: Id)
    ensures
        id.spec_text() == hyphenated(id.bytes@),
        is_id_text(id.spec_text()),
{
}

/// Only texts of sixteen bytes count as texts of identifiers.
pub proof fn texts_of_ids_come_from_bytes(text: Seq<char>)
    requires
        is_id_text(text),
    ensures
        exists|bytes: Seq<u8>| bytes.len() == 16 && text == #[trigger] hyphenated(bytes),
{
}

} // verus!

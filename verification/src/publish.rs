//! The body of a request that publishes collaborative objects.
//!
//! A body is a run of items. An item is its metadata and its data, each behind a four-byte
//! little-endian length. A metadata length of zero ends the body. The body is read piece by piece:
//! [`PublishReader`], [`MetadataExpected`], [`DataLengthExpected`] and [`DataExpected`] say what is
//! read next, and no length is acted on before it is checked. `M` is the type of the metadata.
use vstd::prelude::*;
use vstd::slice::slice_subrange;
use vstd::slice::slice_to_vec;

use crate::error::ApiError;
use crate::error::Problem;
use crate::ids::Id;

verus! {

/// How many bytes a length takes.
pub const LENGTH_SIZE: usize = 4;

/// The most bytes that the metadata of one item may take.
pub const MAX_METADATA_SIZE: u32 = 4 * 1024 * 1024;

/// The most bytes that the data of one item may take.
pub const MAX_DATA_SIZE: u32 = 32 * 1024 * 1024;

/// The number that four bytes hold, least significant byte first.
pub open spec fn little_endian(bytes: Seq<u8>) -> nat {
    (bytes[0] + bytes[1] * 0x100 + bytes[2] * 0x1_0000 + bytes[3] * 0x100_0000) as nat
}

/// The four bytes that hold `n`.
#[verifier::opaque]
pub open spec fn length_bytes(n: nat) -> Seq<u8> {
    let high = n / 0x100 / 0x100;
    seq![
        (n % 0x100) as u8,
        (n / 0x100 % 0x100) as u8,
        (high % 0x100) as u8,
        (high / 0x100 % 0x100) as u8,
    ]
}

/// What a body is refused with whose metadata is too large.
pub open spec fn metadata_too_large() -> Problem {
    Problem::InvalidRequest("metadata too large"@)
}

/// What a body is refused with whose data is too large.
pub open spec fn data_too_large() -> Problem {
    Problem::InvalidRequest("data too large"@)
}

/// What a body without items is refused with.
pub open spec fn nothing_to_publish() -> Problem {
    Problem::InvalidRequest("did not receive any data to publish"@)
}

/// One object to publish.
pub struct PublishItem<M> {
    pub meta: M,
    pub data: Vec<u8>,
}

impl<M> View for PublishItem<M> {
    type V = (M, Seq<u8>);

    open spec fn view(&self) -> (M, Seq<u8>) {
        (self.meta, self.data@)
    }
}

/// The items in memory, each as its metadata and its data.
pub open spec fn item_views<M>(items: Seq<PublishItem<M>>) -> Seq<(M, Seq<u8>)> {
    items.map_values(|item: PublishItem<M>| item@)
}

/// For which workspace items are published, and by whom.
#[derive(Clone, Copy)]
pub struct Destination {
    pub workspace_id: Id,
    pub user_uuid: Id,
}

/// What the storage is given to publish: items, at least one, and where they belong.
pub struct Publication<M> {
    pub items: Vec<PublishItem<M>>,
    pub workspace_id: Id,
    pub user_uuid: Id,
}

impl<M> Publication<M> {
    /// Where the items belong.
    pub open spec fn destination(&self) -> Destination {
        Destination { workspace_id: self.workspace_id, user_uuid: self.user_uuid }
    }
}

/// How far the reading of a body has come.
pub enum Stage<M> {
    /// The length of the next metadata is expected.
    Between { items: Seq<(M, Seq<u8>)> },
    /// So many bytes of metadata are expected.
    Metadata { items: Seq<(M, Seq<u8>)>, size: nat },
    /// The length of the data that belongs to `meta` is expected.
    DataLength { items: Seq<(M, Seq<u8>)>, meta: M },
    /// So many bytes of data are expected.
    Data { items: Seq<(M, Seq<u8>)>, meta: M, size: nat },
    /// The body has ended with these items.
    Ended { items: Seq<(M, Seq<u8>)> },
    /// The body is refused.
    Refused { problem: Problem },
    /// The body ended too early, or held metadata that does not parse.
    Broken,
}

/// The stage behind the length of some metadata.
pub open spec fn metadata_length_read<M>(items: Seq<(M, Seq<u8>)>, bytes: Seq<u8>) -> Stage<M> {
    let size = little_endian(bytes);
    if size > MAX_METADATA_SIZE {
        Stage::Refused { problem: metadata_too_large() }
    } else if size > 0 {
        Stage::Metadata { items, size }
    } else if items.len() == 0 {
        Stage::Refused { problem: nothing_to_publish() }
    } else {
        Stage::Ended { items }
    }
}

/// The stage behind the length of some data.
pub open spec fn data_length_read<M>(
    items: Seq<(M, Seq<u8>)>,
    meta: M,
    bytes: Seq<u8>,
) -> Stage<M> {
    let size = little_endian(bytes);
    if size > MAX_DATA_SIZE {
        Stage::Refused { problem: data_too_large() }
    } else {
        Stage::Data { items, meta, size }
    }
}

/// Between items: the length of the next metadata is expected.
pub struct PublishReader<M> {
    destination: Destination,
    items: Vec<PublishItem<M>>,
}

/// Metadata of a checked length is expected.
pub struct MetadataExpected<M> {
    destination: Destination,
    items: Vec<PublishItem<M>>,
    size: u32,
}

/// The length of the data that belongs to `meta` is expected.
pub struct DataLengthExpected<M> {
    destination: Destination,
    items: Vec<PublishItem<M>>,
    meta: M,
}

/// Data of a checked length is expected.
pub struct DataExpected<M> {
    destination: Destination,
    items: Vec<PublishItem<M>>,
    meta: M,
    size: u32,
}

/// What the length of the next metadata says.
pub enum NextItem<M> {
    /// Another item follows.
    Metadata(MetadataExpected<M>),
    /// The body has ended, and this is to be published.
    End(Publication<M>),
}

/// The number in four bytes.
fn read_little_endian(bytes: [u8; 4]) -> (value: u32)
    ensures
        value == little_endian(bytes@),
{
    let a: u32 = bytes[0] as u32;
    let b: u32 = bytes[1] as u32;
    let c: u32 = bytes[2] as u32;
    let d: u32 = bytes[3] as u32;
    a + b * 0x100 + c * 0x1_0000 + d * 0x100_0000
}

impl<M> PublishReader<M> {
    /// The items read so far.
    pub closed spec fn items(&self) -> Seq<(M, Seq<u8>)> {
        item_views(self.items@)
    }

    /// Where the items belong.
    pub closed spec fn destination(&self) -> Destination {
        self.destination
    }

    /// A reader at the start of a body.
    pub fn new(workspace_id: Id, user_uuid: Id) -> (reader: PublishReader<M>)
        ensures
            reader@ == (Stage::Between { items: Seq::<(M, Seq<u8>)>::empty() }),
            reader.destination() == (Destination { workspace_id, user_uuid }),
            reader.items() == Seq::<(M, Seq<u8>)>::empty(),
    {
        let reader = PublishReader {
            destination: Destination { workspace_id, user_uuid },
            items: Vec::new(),
        };
        assert(item_views(reader.items@) =~= Seq::<(M, Seq<u8>)>::empty());
        reader
    }

    /// Takes in the length of the next metadata.
    pub fn metadata_length(self, bytes: [u8; 4]) -> (next: Result<NextItem<M>, ApiError>)
        ensures
            match metadata_length_read(self.items(), bytes@) {
                Stage::Refused { problem } => next matches Err(error) && error@ == problem,
                Stage::Ended { items } => next matches Ok(NextItem::End(publication)) && {
                    &&& item_views(publication.items@) == items
                    &&& publication.destination() == self.destination()
                },
                stage => next matches Ok(NextItem::Metadata(expected)) && {
                    &&& expected@ == stage
                    &&& expected.destination() == self.destination()
                },
            },
            ({
                let size = bytes@[0] + 256 * (bytes@[1] + 256 * (bytes@[2] + 256 * bytes@[3]));
                match next {
                    Err(error) => if size > 4_194_304 {
                        error@ == Problem::InvalidRequest("metadata too large"@)
                    } else {
                        &&& size == 0
                        &&& self.items().len() == 0
                        &&& error@ == Problem::InvalidRequest(
                            "did not receive any data to publish"@,
                        )
                    },
                    Ok(NextItem::Metadata(expected)) => {
                        &&& 0 < size <= 4_194_304
                        &&& expected.wanted() == size
                        &&& expected.items() == self.items()
                        &&& expected.destination() == self.destination()
                    },
                    Ok(NextItem::End(publication)) => {
                        &&& size == 0
                        &&& self.items().len() > 0
                        &&& publication.items@.len() == self.items().len()
                        &&& publication.workspace_id == self.destination().workspace_id
                        &&& publication.user_uuid == self.destination().user_uuid
                        &&& forall|i: int|
                            #![trigger publication.items@[i]]
                            0 <= i < publication.items@.len() ==> self.items()[i] == (
                                publication.items@[i].meta,
                                publication.items@[i].data@,
                            )
                    },
                }
            }),
    {
        let size: u32 = read_little_endian(bytes);
        if size > MAX_METADATA_SIZE {
            return Err(ApiError::InvalidRequest("metadata too large".to_owned()));
        }
        if size == 0 {
            if self.items.len() == 0 {
                return Err(
                    ApiError::InvalidRequest("did not receive any data to publish".to_owned()),
                );
            }
            return Ok(
                NextItem::End(
                    Publication {
                        items: self.items,
                        workspace_id: self.destination.workspace_id,
                        user_uuid: self.destination.user_uuid,
                    },
                ),
            );
        }
        Ok(
            NextItem::Metadata(
                MetadataExpected { destination: self.destination, items: self.items, size },
            ),
        )
    }
}

impl<M> View for PublishReader<M> {
    type V = Stage<M>;

    open spec fn view(&self) -> Stage<M> {
        Stage::Between { items: self.items() }
    }
}

impl<M> MetadataExpected<M> {
    /// The items read before.
    pub closed spec fn items(&self) -> Seq<(M, Seq<u8>)> {
        item_views(self.items@)
    }

    /// How many bytes of metadata are expected.
    pub closed spec fn wanted(&self) -> nat {
        self.size as nat
    }

    /// Where the items belong.
    pub closed spec fn destination(&self) -> Destination {
        self.destination
    }

    /// How many bytes of metadata to read.
    pub fn size(&self) -> (size: u32)
        ensures
            size == self.wanted(),
    {
        self.size
    }

    /// Takes in the metadata that those bytes hold.
    pub fn metadata(self, meta: M) -> (next: DataLengthExpected<M>)
        ensures
            next@ == (Stage::DataLength { items: self.items(), meta }),
            next.destination() == self.destination(),
            next.items() == self.items(),
            next.metadata() == meta,
    {
        DataLengthExpected { destination: self.destination, items: self.items, meta }
    }
}

impl<M> View for MetadataExpected<M> {
    type V = Stage<M>;

    open spec fn view(&self) -> Stage<M> {
        Stage::Metadata { items: self.items(), size: self.wanted() }
    }
}

impl<M> DataLengthExpected<M> {
    /// The items read before.
    pub closed spec fn items(&self) -> Seq<(M, Seq<u8>)> {
        item_views(self.items@)
    }

    /// The metadata of the item that is being read.
    pub closed spec fn metadata(&self) -> M {
        self.meta
    }

    /// Where the items belong.
    pub closed spec fn destination(&self) -> Destination {
        self.destination
    }

    /// Takes in the length of the data.
    pub fn data_length(self, bytes: [u8; 4]) -> (next: Result<DataExpected<M>, ApiError>)
        ensures
            match data_length_read(self.items(), self.metadata(), bytes@) {
                Stage::Refused { problem } => next matches Err(error) && error@ == problem,
                stage => next matches Ok(expected) && {
                    &&& expected@ == stage
                    &&& expected.destination() == self.destination()
                },
            },
            ({
                let size = bytes@[0] + 256 * (bytes@[1] + 256 * (bytes@[2] + 256 * bytes@[3]));
                match next {
                    Err(error) => size > 33_554_432 && error@ == Problem::InvalidRequest(
                        "data too large"@,
                    ),
                    Ok(expected) => {
                        &&& size <= 33_554_432
                        &&& expected.wanted() == size
                        &&& expected.items() == self.items()
                        &&& expected.destination() == self.destination()
                        &&& expected.metadata() == self.metadata()
                    },
                }
            }),
    {
        let size: u32 = read_little_endian(bytes);
        if size > MAX_DATA_SIZE {
            return Err(ApiError::InvalidRequest("data too large".to_owned()));
        }
        Ok(
            DataExpected {
                destination: self.destination,
                items: self.items,
                meta: self.meta,
                size,
            },
        )
    }
}

impl<M> View for DataLengthExpected<M> {
    type V = Stage<M>;

    open spec fn view(&self) -> Stage<M> {
        Stage::DataLength { items: self.items(), meta: self.metadata() }
    }
}

impl<M> DataExpected<M> {
    /// The items read before.
    pub closed spec fn items(&self) -> Seq<(M, Seq<u8>)> {
        item_views(self.items@)
    }

    /// The metadata of the item that is being read.
    pub closed spec fn metadata(&self) -> M {
        self.meta
    }

    /// How many bytes of data are expected.
    pub closed spec fn wanted(&self) -> nat {
        self.size as nat
    }

    /// Where the items belong.
    pub closed spec fn destination(&self) -> Destination {
        self.destination
    }

    /// How many bytes of data to read.
    pub fn size(&self) -> (size: u32)
        ensures
            size == self.wanted(),
    {
        self.size
    }

    /// Takes in the data, which completes the item.
    pub fn data(self, data: Vec<u8>) -> (next: PublishReader<M>)
        requires
            data@.len() == self.wanted(),
        ensures
            next@ == (Stage::Between { items: self.items().push((self.metadata(), data@)) }),
            next.destination() == self.destination(),
            next.items() == self.items().push((self.metadata(), data@)),
    {
        let mut items = self.items;
        let ghost before = item_views(items@);
        items.push(PublishItem { meta: self.meta, data });
        let next = PublishReader { destination: self.destination, items };
        assert(item_views(items@) =~= before.push((self.meta, data@)));
        next
    }
}

impl<M> View for DataExpected<M> {
    type V = Stage<M>;

    open spec fn view(&self) -> Stage<M> {
        Stage::Data { items: self.items(), meta: self.metadata(), size: self.wanted() }
    }
}

/// How reading a body ends.
pub enum Reading<M> {
    /// With these items.
    Items(Seq<(M, Seq<u8>)>),
    /// With a refusal.
    Refused(Problem),
    /// The body ended too early, or held metadata that does not parse.
    Broken,
}

/// What reading `input` to its end gives when `before` has been read already and `parse` is how
/// metadata is parsed.
pub open spec fn reading<M>(
    before: Seq<(M, Seq<u8>)>,
    input: Seq<u8>,
    parse: spec_fn(Seq<u8>) -> Option<M>,
) -> Reading<M>
    decreases input.len(),
{
    if input.len() < LENGTH_SIZE {
        Reading::Broken
    } else {
        let meta_size = little_endian(input);
        let meta_end = LENGTH_SIZE + meta_size;
        if meta_size > MAX_METADATA_SIZE {
            Reading::Refused(metadata_too_large())
        } else if meta_size == 0 {
            if before.len() == 0 {
                Reading::Refused(nothing_to_publish())
            } else {
                Reading::Items(before)
            }
        } else if input.len() < meta_end {
            Reading::Broken
        } else {
            match parse(input.subrange(LENGTH_SIZE as int, meta_end as int)) {
                None => Reading::Broken,
                Some(meta) => {
                    let rest = input.skip(meta_end as int);
                    if rest.len() < LENGTH_SIZE {
                        Reading::Broken
                    } else {
                        let data_size = little_endian(rest);
                        let data_end = LENGTH_SIZE + data_size;
                        if data_size > MAX_DATA_SIZE {
                            Reading::Refused(data_too_large())
                        } else if rest.len() < data_end {
                            Reading::Broken
                        } else {
                            reading(
                                before.push((meta, rest.subrange(LENGTH_SIZE as int, data_end as int))),
                                rest.skip(data_end as int),
                                parse,
                            )
                        }
                    }
                },
            }
        }
    }
}

impl<M> Stage<M> {
    /// How many bytes are read at this stage.
    pub open spec fn wants(self) -> nat {
        match self {
            Stage::Between { .. } | Stage::DataLength { .. } => LENGTH_SIZE as nat,
            Stage::Metadata { size, .. } | Stage::Data { size, .. } => size,
            _ => 0,
        }
    }

    /// The stage behind this one, once the bytes that it wants have been read. Metadata is parsed
    /// by `parse`.
    pub open spec fn behind(self, bytes: Seq<u8>, parse: spec_fn(Seq<u8>) -> Option<M>) -> Stage<M> {
        match self {
            Stage::Between { items } => metadata_length_read(items, bytes),
            Stage::Metadata { items, .. } => match parse(bytes) {
                Some(meta) => Stage::DataLength { items, meta },
                None => Stage::Broken,
            },
            Stage::DataLength { items, meta } => data_length_read(items, meta, bytes),
            Stage::Data { items, meta, .. } => Stage::Between { items: items.push((meta, bytes)) },
            ended => ended,
        }
    }

}

/// What a run of the stages over `input` ends with: at each of them the bytes that it wants are
/// taken from the input.
pub open spec fn run_of_stages<M>(
    stage: Stage<M>,
    input: Seq<u8>,
    parse: spec_fn(Seq<u8>) -> Option<M>,
) -> Reading<M>
    decreases
            input.len(),
            if stage is Metadata || stage is Data {
                1int
            } else {
                0
            },
{
    match stage {
        Stage::Ended { items } => Reading::Items(items),
        Stage::Refused { problem } => Reading::Refused(problem),
        Stage::Broken => Reading::Broken,
        _ => if input.len() < stage.wants() {
            Reading::Broken
        } else {
            let wanted = stage.wants() as int;
            run_of_stages(stage.behind(input.take(wanted), parse), input.skip(wanted), parse)
        },
    }
}

/// The stages read what a body says: a run of them over a body, with each metadata parsed on the
/// way, ends as reading the body does.
pub proof fn stages_read_the_body<M>(body: Seq<u8>, parse: spec_fn(Seq<u8>) -> Option<M>)
    ensures
        run_of_stages(Stage::Between { items: Seq::empty() }, body, parse) == reading(
            Seq::empty(),
            body,
            parse,
        ),
{
    lemma_stages_read(Seq::empty(), body, parse);
}

/// The stages go on from the items that have been read as reading does.
proof fn lemma_stages_read<M>(
    before: Seq<(M, Seq<u8>)>,
    input: Seq<u8>,
    parse: spec_fn(Seq<u8>) -> Option<M>,
)
    ensures
        run_of_stages(Stage::Between { items: before }, input, parse) == reading(
            before,
            input,
            parse,
        ),
    decreases input.len(),
{
    if input.len() >= LENGTH_SIZE {
        let size = little_endian(input);
        let first = input.take(LENGTH_SIZE as int);
        assert(little_endian(first) == size);
        let behind = input.skip(LENGTH_SIZE as int);
        let stage = metadata_length_read(before, first);
        assert(run_of_stages(Stage::Between { items: before }, input, parse) == run_of_stages(
            stage,
            behind,
            parse,
        ));
        if 0 < size <= MAX_METADATA_SIZE && input.len() >= LENGTH_SIZE + size {
            let bytes = input.subrange(LENGTH_SIZE as int, (LENGTH_SIZE + size) as int);
            let rest = input.skip((LENGTH_SIZE + size) as int);
            assert(behind.take(size as int) =~= bytes);
            assert(behind.skip(size as int) =~= rest);
            assert(run_of_stages(stage, behind, parse) == run_of_stages(
                stage.behind(bytes, parse),
                rest,
                parse,
            ));
            if let Some(meta) = parse(bytes) {
                assert(stage.behind(bytes, parse) == Stage::DataLength { items: before, meta });
                lemma_data_read(before, meta, rest, parse);
            }
        }
    }
}

/// The stages read the data behind some metadata as reading does.
proof fn lemma_data_read<M>(
    before: Seq<(M, Seq<u8>)>,
    meta: M,
    rest: Seq<u8>,
    parse: spec_fn(Seq<u8>) -> Option<M>,
)
    ensures
        run_of_stages(Stage::DataLength { items: before, meta }, rest, parse) == if rest.len()
            < LENGTH_SIZE {
            Reading::Broken
        } else if little_endian(rest) > MAX_DATA_SIZE {
            Reading::Refused(data_too_large())
        } else if rest.len() < LENGTH_SIZE + little_endian(rest) {
            Reading::Broken
        } else {
            reading(
                before.push(
                    (
                        meta,
                        rest.subrange(
                            LENGTH_SIZE as int,
                            (LENGTH_SIZE + little_endian(rest)) as int,
                        ),
                    ),
                ),
                rest.skip((LENGTH_SIZE + little_endian(rest)) as int),
                parse,
            )
        },
    decreases rest.len(),
{
    if rest.len() >= LENGTH_SIZE {
        let size = little_endian(rest);
        let first = rest.take(LENGTH_SIZE as int);
        assert(little_endian(first) == size);
        let behind = rest.skip(LENGTH_SIZE as int);
        let stage = data_length_read(before, meta, first);
        assert(run_of_stages(Stage::DataLength { items: before, meta }, rest, parse)
            == run_of_stages(stage, behind, parse));
        if size <= MAX_DATA_SIZE && behind.len() >= size {
            let data = rest.subrange(LENGTH_SIZE as int, (LENGTH_SIZE + size) as int);
            let tail = rest.skip((LENGTH_SIZE + size) as int);
            assert(behind.take(size as int) =~= data);
            assert(behind.skip(size as int) =~= tail);
            lemma_stages_read(before.push((meta, data)), tail, parse);
        }
    }
}

/// Why a body in memory gives no items.
pub enum BodyError {
    /// The body is refused.
    Refused(ApiError),
    /// The body ends too early.
    Incomplete,
}

/// Items whose metadata is left as bytes.
pub open spec fn raw_items(items: Seq<(Vec<u8>, Seq<u8>)>) -> Seq<(Seq<u8>, Seq<u8>)> {
    items.map_values(|item: (Vec<u8>, Seq<u8>)| (item.0@, item.1))
}

/// What reading a whole body gives when metadata is left as bytes.
pub open spec fn raw_reading(before: Seq<(Seq<u8>, Seq<u8>)>, input: Seq<u8>) -> Reading<Seq<u8>> {
    reading(before, input, |bytes: Seq<u8>| Some(bytes))
}

/// Four bytes of a body.
fn four_bytes(body: &[u8], at: usize) -> (bytes: [u8; 4])
    requires
        at + LENGTH_SIZE <= body@.len(),
    ensures
        bytes@ == body@.subrange(at as int, at + LENGTH_SIZE),
{
    let bytes: [u8; 4] = [body[at], body[at + 1], body[at + 2], body[at + 3]];
    assert(bytes@ =~= body@.subrange(at as int, at + LENGTH_SIZE));
    bytes
}

/// Reads a body that has arrived as a whole, and leaves the metadata as bytes.
pub fn read_body(workspace_id: Id, user_uuid: Id, body: &[u8]) -> (read: Result<
    Publication<Vec<u8>>,
    BodyError,
>)
    ensures
        match raw_reading(Seq::empty(), body@) {
            Reading::Items(expected) => read matches Ok(publication) && {
                &&& raw_items(item_views(publication.items@)) == expected
                &&& publication.destination() == (Destination { workspace_id, user_uuid })
                &&& publication.workspace_id == workspace_id
                &&& publication.user_uuid == user_uuid
                &&& publication.items@.len() == expected.len()
                &&& forall|i: int|
                    #![trigger publication.items@[i]]
                    0 <= i < expected.len() ==> publication.items@[i].meta@ == expected[i].0
                        && publication.items@[i].data@ == expected[i].1
            },
            Reading::Refused(problem) => read matches Err(BodyError::Refused(error)) && error@
                == problem,
            Reading::Broken => read matches Err(BodyError::Incomplete),
        },
{
    let mut reader: PublishReader<Vec<u8>> = PublishReader::new(workspace_id, user_uuid);
    let mut at: usize = 0;
    let ghost whole = raw_reading(Seq::empty(), body@);
    proof {
        assert(raw_items(reader.items()) =~= Seq::<(Seq<u8>, Seq<u8>)>::empty());
        assert(body@.skip(0) =~= body@);
    }
    loop
        invariant
            at <= body@.len(),
            whole == raw_reading(Seq::empty(), body@),
            reader.destination() == (Destination { workspace_id, user_uuid }),
            raw_reading(raw_items(reader.items()), body@.skip(at as int)) == whole,
        decreases body@.len() - at,
    {
        let ghost input = body@.skip(at as int);
        let ghost before = raw_items(reader.items());
        if body.len() - at < LENGTH_SIZE {
            return Err(BodyError::Incomplete);
        }
        let bytes = four_bytes(body, at);
        assert(little_endian(bytes@) == little_endian(input));
        let expected = match reader.metadata_length(bytes) {
            Err(error) => {
                return Err(BodyError::Refused(error));
            },
            Ok(NextItem::End(publication)) => {
                proof {
                    let expected = raw_items(item_views(publication.items@));
                    assert forall|i: int|
                        #![trigger publication.items@[i]]
                        0 <= i < publication.items@.len() implies publication.items@[i].meta@
                        == expected[i].0 && publication.items@[i].data@ == expected[i].1 by {
                        assert(item_views(publication.items@)[i] == publication.items@[i]@);
                    }
                }
                return Ok(publication);
            },
            Ok(NextItem::Metadata(expected)) => expected,
        };
        at = at + LENGTH_SIZE;
        let meta_size: usize = expected.size() as usize;
        if body.len() - at < meta_size {
            return Err(BodyError::Incomplete);
        }
        let meta = slice_to_vec(slice_subrange(body, at, at + meta_size));
        assert(meta@ =~= input.subrange(LENGTH_SIZE as int, LENGTH_SIZE + meta_size));
        at = at + meta_size;
        let ghost rest = input.skip(LENGTH_SIZE + meta_size);
        assert(body@.skip(at as int) =~= rest);
        let expected = expected.metadata(meta);
        if body.len() - at < LENGTH_SIZE {
            return Err(BodyError::Incomplete);
        }
        let bytes = four_bytes(body, at);
        assert(bytes@[0] == rest[0] && bytes@[1] == rest[1]);
        assert(bytes@[2] == rest[2] && bytes@[3] == rest[3]);
        let expected = match expected.data_length(bytes) {
            Err(error) => {
                return Err(BodyError::Refused(error));
            },
            Ok(expected) => expected,
        };
        at = at + LENGTH_SIZE;
        let data_size: usize = expected.size() as usize;
        if body.len() - at < data_size {
            return Err(BodyError::Incomplete);
        }
        let data = slice_to_vec(slice_subrange(body, at, at + data_size));
        assert(data@ =~= rest.subrange(LENGTH_SIZE as int, LENGTH_SIZE + data_size));
        at = at + data_size;
        assert(body@.skip(at as int) =~= rest.skip(LENGTH_SIZE + data_size));
        reader = expected.data(data);
        assert(raw_items(reader.items()) =~= before.push((meta@, data@)));
    }
}

/// The bytes of one item.
pub open spec fn item_bytes(item: (Seq<u8>, Seq<u8>)) -> Seq<u8> {
    length_bytes(item.0.len()) + item.0 + length_bytes(item.1.len()) + item.1
}

/// The body that carries these items, each given as the bytes of its metadata and its data.
pub open spec fn published_body(items: Seq<(Seq<u8>, Seq<u8>)>) -> Seq<u8>
    decreases items.len(),
{
    if items.len() == 0 {
        length_bytes(0)
    } else {
        item_bytes(items[0]) + published_body(items.drop_first())
    }
}

/// The item can be carried: its metadata is not empty, and neither part is too large.
pub open spec fn can_be_published(item: (Seq<u8>, Seq<u8>)) -> bool {
    0 < item.0.len() <= MAX_METADATA_SIZE && item.1.len() <= MAX_DATA_SIZE
}

/// Four bytes that hold a length are read as that length, whatever stands behind them.
proof fn lemma_length_read_back(n: nat, rest: Seq<u8>)
    requires
        n <= u32::MAX,
    ensures
        little_endian(length_bytes(n) + rest) == n,
        length_bytes(n).len() == LENGTH_SIZE,
{
    reveal(length_bytes);
    let middle = n / 0x100;
    let high = middle / 0x100;
    assert(n == 0x100 * middle + n % 0x100);
    assert(middle == 0x100 * high + middle % 0x100);
    assert(high == 0x100 * (high / 0x100) + high % 0x100);
    assert(high / 0x100 < 0x100);
    let bytes = length_bytes(n) + rest;
    assert(bytes[0] == length_bytes(n)[0]);
    assert(bytes[1] == length_bytes(n)[1]);
    assert(bytes[2] == length_bytes(n)[2]);
    assert(bytes[3] == length_bytes(n)[3]);
}

/// What a client publishes is what is read: the items of a body come back in their order, with
/// their data unchanged and their metadata parsed, and nothing behind the end of the body counts.
pub proof fn published_items_are_read_back<M>(
    items: Seq<(Seq<u8>, Seq<u8>)>,
    behind: Seq<u8>,
    parse: spec_fn(Seq<u8>) -> Option<M>,
)
    requires
        items.len() > 0,
        forall|i: int|
            0 <= i < items.len() ==> can_be_published(#[trigger] items[i]) && parse(
                items[i].0,
            ) is Some,
    ensures
        reading(Seq::empty(), published_body(items) + behind, parse) == Reading::Items(
            parsed_items(items, parse),
        ),
        run_of_stages(
            Stage::Between { items: Seq::empty() },
            published_body(items) + behind,
            parse,
        ) == Reading::Items(parsed_items(items, parse)),
{
    stages_read_the_body(published_body(items) + behind, parse);
    lemma_read_back(Seq::<(M, Seq<u8>)>::empty(), items, behind, parse);
    let parsed = parsed_items(items, parse);
    assert(Seq::<(M, Seq<u8>)>::empty() + parsed =~= parsed);
}

/// How the bytes of one item, followed by others, fall apart.
proof fn lemma_item_taken_apart(item: (Seq<u8>, Seq<u8>), tail: Seq<u8>)
    requires
        can_be_published(item),
    ensures
        ({
            let input = item_bytes(item) + tail;
            let meta_end = LENGTH_SIZE + item.0.len();
            let rest = input.skip(meta_end as int);
            let data_end = LENGTH_SIZE + item.1.len();
            &&& meta_end <= input.len()
            &&& little_endian(input) == item.0.len()
            &&& input.subrange(LENGTH_SIZE as int, meta_end as int) == item.0
            &&& data_end <= rest.len()
            &&& little_endian(rest) == item.1.len()
            &&& rest.subrange(LENGTH_SIZE as int, data_end as int) == item.1
            &&& rest.skip(data_end as int) == tail
        }),
{
    let (meta, data) = item;
    let input = item_bytes(item) + tail;
    let meta_end = LENGTH_SIZE + meta.len();
    let data_end = LENGTH_SIZE + data.len();
    let rest = length_bytes(data.len()) + (data + tail);
    lemma_length_read_back(meta.len(), meta + rest);
    lemma_length_read_back(data.len(), data + tail);
    assert(input =~= length_bytes(meta.len()) + (meta + rest));
    assert(input.subrange(LENGTH_SIZE as int, meta_end as int) =~= meta);
    assert(input.skip(meta_end as int) =~= rest);
    assert(rest.subrange(LENGTH_SIZE as int, data_end as int) =~= data);
    assert(rest.skip(data_end as int) =~= tail);
}

/// Reading goes from one item to the next.
proof fn lemma_item_read<M>(
    before: Seq<(M, Seq<u8>)>,
    item: (Seq<u8>, Seq<u8>),
    tail: Seq<u8>,
    parse: spec_fn(Seq<u8>) -> Option<M>,
)
    requires
        can_be_published(item),
        parse(item.0) is Some,
    ensures
        reading(before, item_bytes(item) + tail, parse) == reading(
            before.push((parse(item.0)->0, item.1)),
            tail,
            parse,
        ),
{
    lemma_item_taken_apart(item, tail);
}

/// How a body begins.
proof fn lemma_body_split(items: Seq<(Seq<u8>, Seq<u8>)>, behind: Seq<u8>)
    requires
        items.len() > 0,
    ensures
        published_body(items) + behind == item_bytes(items[0]) + (published_body(items.drop_first())
            + behind),
{
    assert(published_body(items) + behind =~= item_bytes(items[0]) + (published_body(
        items.drop_first(),
    ) + behind));
}

/// Items with their metadata parsed.
pub open spec fn parsed_items<M>(
    items: Seq<(Seq<u8>, Seq<u8>)>,
    parse: spec_fn(Seq<u8>) -> Option<M>,
) -> Seq<(M, Seq<u8>)> {
    items.map_values(|item: (Seq<u8>, Seq<u8>)| (parse(item.0)->0, item.1))
}

/// The first item and the later ones, parsed, are the items parsed.
proof fn lemma_parsed_split<M>(
    before: Seq<(M, Seq<u8>)>,
    items: Seq<(Seq<u8>, Seq<u8>)>,
    parse: spec_fn(Seq<u8>) -> Option<M>,
)
    requires
        items.len() > 0,
    ensures
        before.push((parse(items[0].0)->0, items[0].1)) + parsed_items(items.drop_first(), parse)
            == before + parsed_items(items, parse),
{
    assert(before.push((parse(items[0].0)->0, items[0].1)) + parsed_items(items.drop_first(), parse)
        =~= before + parsed_items(items, parse));
}

/// The items behind `before` are read in their order.
proof fn lemma_read_back<M>(
    before: Seq<(M, Seq<u8>)>,
    items: Seq<(Seq<u8>, Seq<u8>)>,
    behind: Seq<u8>,
    parse: spec_fn(Seq<u8>) -> Option<M>,
)
    requires
        before.len() + items.len() > 0,
        forall|i: int|
            0 <= i < items.len() ==> can_be_published(#[trigger] items[i]) && parse(
                items[i].0,
            ) is Some,
    ensures
        reading(before, published_body(items) + behind, parse) == Reading::Items(
            before + parsed_items(items, parse),
        ),
    decreases items.len(),
{
    if items.len() == 0 {
        lemma_length_read_back(0, behind);
        assert(before + parsed_items(items, parse) =~= before);
    } else {
        let item = items[0];
        let later = items.drop_first();
        assert forall|i: int| 0 <= i < later.len() implies can_be_published(#[trigger] later[i])
            && parse(later[i].0) is Some by {
            assert(later[i] == items[i + 1]);
        }
        lemma_body_split(items, behind);
        lemma_item_read(before, item, published_body(later) + behind, parse);
        lemma_read_back(before.push((parse(item.0)->0, item.1)), later, behind, parse);
        lemma_parsed_split(before, items, parse);
    }
}

/// A length is read with its least significant byte first, whatever stands behind it.
pub proof fn lengths_are_little_endian(a: u8, b: u8, c: u8, d: u8, rest: Seq<u8>)
    ensures
        little_endian(seq![a, b, c, d] + rest) == a + 256 * (b + 256 * (c + 256 * d)),
{
    let bytes = seq![a, b, c, d] + rest;
    assert(bytes[0] == a && bytes[1] == b && bytes[2] == c && bytes[3] == d);
}

/// A body is read item by item: an item whose parts have acceptable sizes is added to those read
/// before, with its metadata parsed and its data unchanged, and then the rest is read. Metadata
/// that does not parse breaks the body.
pub proof fn an_item_is_read_and_then_the_rest<M>(
    before: Seq<(M, Seq<u8>)>,
    meta_size: (u8, u8, u8, u8),
    meta: Seq<u8>,
    data_size: (u8, u8, u8, u8),
    data: Seq<u8>,
    rest: Seq<u8>,
    parse: spec_fn(Seq<u8>) -> Option<M>,
)
    requires
        meta.len() == meta_size.0 + 256 * (meta_size.1 + 256 * (meta_size.2 + 256 * meta_size.3)),
        data.len() == data_size.0 + 256 * (data_size.1 + 256 * (data_size.2 + 256 * data_size.3)),
        0 < meta.len() <= 4_194_304,
        data.len() <= 33_554_432,
    ensures
        reading(
            before,
            seq![meta_size.0, meta_size.1, meta_size.2, meta_size.3] + meta + seq![
                data_size.0,
                data_size.1,
                data_size.2,
                data_size.3,
            ] + data + rest,
            parse,
        ) == match parse(meta) {
            Some(parsed) => reading(before.push((parsed, data)), rest, parse),
            None => Reading::Broken,
        },
{
    let head = seq![meta_size.0, meta_size.1, meta_size.2, meta_size.3];
    let middle = seq![data_size.0, data_size.1, data_size.2, data_size.3];
    let input = head + meta + middle + data + rest;
    let behind = middle + (data + rest);
    let meta_end = LENGTH_SIZE + meta.len();
    let data_end = LENGTH_SIZE + data.len();
    assert(input =~= head + (meta + behind));
    lengths_are_little_endian(
        meta_size.0,
        meta_size.1,
        meta_size.2,
        meta_size.3,
        meta + behind,
    );
    lengths_are_little_endian(data_size.0, data_size.1, data_size.2, data_size.3, data + rest);
    assert(input.subrange(LENGTH_SIZE as int, meta_end as int) =~= meta);
    assert(input.skip(meta_end as int) =~= behind);
    assert(behind.subrange(LENGTH_SIZE as int, data_end as int) =~= data);
    assert(behind.skip(data_end as int) =~= rest);
}

/// A metadata length of zero ends a body, whatever stands behind it: with the items read before, or
/// with a refusal if there are none.
pub proof fn a_length_of_zero_ends_the_body<M>(
    before: Seq<(M, Seq<u8>)>,
    rest: Seq<u8>,
    parse: spec_fn(Seq<u8>) -> Option<M>,
)
    ensures
        reading(before, seq![0u8, 0, 0, 0] + rest, parse) == if before.len() > 0 {
            Reading::Items(before)
        } else {
            Reading::Refused(Problem::InvalidRequest("did not receive any data to publish"@))
        },
{
    lengths_are_little_endian(0, 0, 0, 0, rest);
}

/// Parts that are too large are refused by their length alone: metadata of more than 4 MiB, and
/// data of more than 32 MiB behind metadata that is fine.
pub proof fn large_parts_are_refused<M>(
    before: Seq<(M, Seq<u8>)>,
    meta_size: (u8, u8, u8, u8),
    meta: Seq<u8>,
    data_size: (u8, u8, u8, u8),
    rest: Seq<u8>,
    parse: spec_fn(Seq<u8>) -> Option<M>,
)
    ensures
        meta_size.0 + 256 * (meta_size.1 + 256 * (meta_size.2 + 256 * meta_size.3)) > 4_194_304
            ==> reading(
            before,
            seq![meta_size.0, meta_size.1, meta_size.2, meta_size.3] + rest,
            parse,
        ) == Reading::<M>::Refused(Problem::InvalidRequest("metadata too large"@)),
        0 < meta.len() <= 4_194_304 && meta.len() == meta_size.0 + 256 * (meta_size.1 + 256 * (
        meta_size.2 + 256 * meta_size.3)) && parse(meta) is Some && data_size.0 + 256 * (data_size.1
            + 256 * (data_size.2 + 256 * data_size.3)) > 33_554_432 ==> reading(
            before,
            seq![meta_size.0, meta_size.1, meta_size.2, meta_size.3] + meta + seq![
                data_size.0,
                data_size.1,
                data_size.2,
                data_size.3,
            ] + rest,
            parse,
        ) == Reading::<M>::Refused(Problem::InvalidRequest("data too large"@)),
{
    let head = seq![meta_size.0, meta_size.1, meta_size.2, meta_size.3];
    let middle = seq![data_size.0, data_size.1, data_size.2, data_size.3];
    lengths_are_little_endian(meta_size.0, meta_size.1, meta_size.2, meta_size.3, rest);
    let input = head + meta + middle + rest;
    let behind = middle + rest;
    let meta_end = LENGTH_SIZE + meta.len();
    assert(input =~= head + (meta + behind));
    lengths_are_little_endian(
        meta_size.0,
        meta_size.1,
        meta_size.2,
        meta_size.3,
        meta + behind,
    );
    lengths_are_little_endian(data_size.0, data_size.1, data_size.2, data_size.3, rest);
    assert(input.subrange(LENGTH_SIZE as int, meta_end as int) =~= meta);
    assert(input.skip(meta_end as int) =~= behind);
}

/// A body that ends before a part that it announces gives no items: inside a length, inside
/// metadata, or inside data.
pub proof fn a_body_that_ends_early_is_broken<M>(
    before: Seq<(M, Seq<u8>)>,
    meta_size: (u8, u8, u8, u8),
    meta: Seq<u8>,
    data_size: (u8, u8, u8, u8),
    short: Seq<u8>,
    parse: spec_fn(Seq<u8>) -> Option<M>,
)
    requires
        0 < meta_size.0 + 256 * (meta_size.1 + 256 * (meta_size.2 + 256 * meta_size.3))
            <= 4_194_304,
        data_size.0 + 256 * (data_size.1 + 256 * (data_size.2 + 256 * data_size.3)) <= 33_554_432,
    ensures
        short.len() < 4 ==> reading(before, short, parse) is Broken,
        short.len() < meta_size.0 + 256 * (meta_size.1 + 256 * (meta_size.2 + 256 * meta_size.3))
            ==> reading(
            before,
            seq![meta_size.0, meta_size.1, meta_size.2, meta_size.3] + short,
            parse,
        ) is Broken,
        meta.len() == meta_size.0 + 256 * (meta_size.1 + 256 * (meta_size.2 + 256 * meta_size.3))
            && short.len() < 4 ==> reading(
            before,
            seq![meta_size.0, meta_size.1, meta_size.2, meta_size.3] + meta + short,
            parse,
        ) is Broken,
        meta.len() == meta_size.0 + 256 * (meta_size.1 + 256 * (meta_size.2 + 256 * meta_size.3))
            && short.len() < data_size.0 + 256 * (data_size.1 + 256 * (data_size.2 + 256
            * data_size.3)) ==> reading(
            before,
            seq![meta_size.0, meta_size.1, meta_size.2, meta_size.3] + meta + seq![
                data_size.0,
                data_size.1,
                data_size.2,
                data_size.3,
            ] + short,
            parse,
        ) is Broken,
{
    let head = seq![meta_size.0, meta_size.1, meta_size.2, meta_size.3];
    let middle = seq![data_size.0, data_size.1, data_size.2, data_size.3];
    let meta_end = LENGTH_SIZE + meta.len();
    lengths_are_little_endian(meta_size.0, meta_size.1, meta_size.2, meta_size.3, short);
    let without_length = head + meta + short;
    assert(without_length =~= head + (meta + short));
    lengths_are_little_endian(meta_size.0, meta_size.1, meta_size.2, meta_size.3, meta + short);
    assert(without_length.subrange(LENGTH_SIZE as int, meta_end as int) =~= meta);
    assert(without_length.skip(meta_end as int) =~= short);
    let without_data = head + meta + middle + short;
    let behind = middle + short;
    assert(without_data =~= head + (meta + behind));
    lengths_are_little_endian(meta_size.0, meta_size.1, meta_size.2, meta_size.3, meta + behind);
    lengths_are_little_endian(data_size.0, data_size.1, data_size.2, data_size.3, short);
    assert(without_data.subrange(LENGTH_SIZE as int, meta_end as int) =~= meta);
    assert(without_data.skip(meta_end as int) =~= behind);
}

/// Reading with metadata left as bytes is reading with metadata that always parses, to itself.
pub proof fn raw_metadata_always_parses(
    before: Seq<(Seq<u8>, Seq<u8>)>,
    input: Seq<u8>,
    parse: spec_fn(Seq<u8>) -> Option<Seq<u8>>,
)
    requires
        forall|bytes: Seq<u8>| #[trigger] parse(bytes) == Some(bytes),
    ensures
        raw_reading(before, input) == reading(before, input, parse),
{
    assert(parse =~= |bytes: Seq<u8>| Some(bytes));
}

/// Items in memory are what they stand for: as many, in the same order, each with its metadata and
/// its data.
pub proof fn items_are_kept_as_they_are<M>(items: Seq<PublishItem<M>>, i: int)
    requires
        0 <= i < items.len(),
    ensures
        item_views(items).len() == items.len(),
        item_views(items)[i] == (items[i].meta, items[i].data@),
{
}

/// A publication belongs to the workspace and the user that it names.
pub proof fn publications_belong_where_they_say<M>(publication: Publication<M>)
    ensures
        publication.destination().workspace_id == publication.workspace_id,
        publication.destination().user_uuid == publication.user_uuid,
{
}

} // verus!

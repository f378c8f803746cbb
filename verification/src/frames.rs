//! Length-prefixed frames in a body that arrives in pieces.
//!
//! A body is a run of frames. A frame is a four-byte big-endian length followed by that many bytes
//! of payload. The pieces in which a body arrives need not end where a frame ends.
use vstd::prelude::*;
use vstd::slice::slice_subrange;
use vstd::slice::slice_to_vec;

verus! {

/// How many bytes the length in front of a payload takes.
pub const PREFIX_LEN: usize = 4;

/// The number that the four bytes from `at` on hold, most significant byte first.
pub open spec fn big_endian(bytes: Seq<u8>, at: int) -> nat {
    (bytes[at] * 0x100_0000 + bytes[at + 1] * 0x1_0000 + bytes[at + 2] * 0x100 + bytes[at
        + 3]) as nat
}

/// A whole frame stands at `at`: its length prefix and all of its payload have arrived.
pub open spec fn whole_frame_at(bytes: Seq<u8>, at: int) -> bool {
    &&& 0 <= at
    &&& at + PREFIX_LEN <= bytes.len()
    &&& at + PREFIX_LEN + big_endian(bytes, at) <= bytes.len()
}

/// The payloads of the whole frames from `at` on, each as the offset and the length of its bytes.
pub open spec fn frames_from(bytes: Seq<u8>, at: int) -> Seq<(int, int)>
    decreases bytes.len() - at,
{
    if whole_frame_at(bytes, at) {
        let size = big_endian(bytes, at) as int;
        seq![(at + PREFIX_LEN, size)] + frames_from(bytes, at + PREFIX_LEN + size)
    } else {
        Seq::empty()
    }
}

/// Where the last of the whole frames from `at` on ends.
pub open spec fn frames_end(bytes: Seq<u8>, at: int) -> int
    decreases bytes.len() - at,
{
    if whole_frame_at(bytes, at) {
        frames_end(bytes, at + PREFIX_LEN + big_endian(bytes, at))
    } else {
        at
    }
}

/// The bytes that an offset and a length select.
pub open spec fn span(bytes: Seq<u8>, place: (int, int)) -> Seq<u8> {
    bytes.subrange(place.0, place.0 + place.1)
}

/// The payloads of the whole frames of a body.
pub open spec fn payloads_in(bytes: Seq<u8>) -> Seq<Seq<u8>> {
    frames_from(bytes, 0).map_values(|place: (int, int)| span(bytes, place))
}

/// The length prefix for a payload of `size` bytes.
#[verifier::opaque]
pub open spec fn prefix_of(size: nat) -> Seq<u8> {
    let high = size / 0x100 / 0x100;
    seq![
        (high / 0x100 % 0x100) as u8,
        (high % 0x100) as u8,
        (size / 0x100 % 0x100) as u8,
        (size % 0x100) as u8,
    ]
}

/// The body that carries these payloads, one frame each.
pub open spec fn framed(payloads: Seq<Seq<u8>>) -> Seq<u8>
    decreases payloads.len(),
{
    if payloads.len() == 0 {
        Seq::empty()
    } else {
        prefix_of(payloads[0].len()) + payloads[0] + framed(payloads.drop_first())
    }
}

/// The places of frames as they are kept in memory.
pub open spec fn places(frames: Seq<(usize, usize)>) -> Seq<(int, int)> {
    frames.map_values(|frame: (usize, usize)| (frame.0 as int, frame.1 as int))
}

/// Collects a body piece by piece and finds the whole frames in it.
pub struct FrameScanner {
    buffer: Vec<u8>,
    frames: Vec<(usize, usize)>,
    offset: usize,
}

impl View for FrameScanner {
    type V = Seq<u8>;

    /// The bytes of the body that have arrived.
    closed spec fn view(&self) -> Seq<u8> {
        self.buffer@
    }
}

impl FrameScanner {
    /// The frames found are those of the bytes that have arrived, and the scan stands behind them.
    pub closed spec fn wf(&self) -> bool {
        &&& places(self.frames@) == frames_from(self.buffer@, 0)
        &&& self.offset == frames_end(self.buffer@, 0)
        &&& self.offset <= self.buffer@.len()
    }

    /// A scanner to which nothing has arrived.
    pub fn new() -> (scanner: FrameScanner)
        ensures
            scanner.wf(),
            scanner@ == Seq::<u8>::empty(),
    {
        let scanner = FrameScanner { buffer: Vec::new(), frames: Vec::new(), offset: 0 };
        assert(places(scanner.frames@) =~= frames_from(scanner.buffer@, 0));
        scanner
    }

    /// Takes in the next item of the body's stream. An item that failed to arrive is passed over.
    pub fn receive<E>(&mut self, item: Result<Vec<u8>, E>)
        requires
            old(self).wf(),
        ensures
            final(self).wf(),
            match item {
                Ok(bytes) => final(self)@ == old(self)@ + bytes@,
                Err(_) => final(self)@ == old(self)@,
            },
    {
        if let Ok(bytes) = item {
            self.extend(bytes.as_slice());
        }
    }

    /// Takes in the next bytes of the body and finds the frames that they complete.
    fn extend(&mut self, bytes: &[u8])
        requires
            old(self).wf(),
        ensures
            final(self).wf(),
            final(self)@ == old(self)@ + bytes@,
    {
        let ghost before = self.buffer@;
        self.buffer.extend_from_slice(bytes);
        assert(self.buffer@ =~= before + bytes@);
        proof {
            lemma_frames_kept(before, bytes@, 0);
        }
        let ghost all = self.buffer@;
        while self.buffer.len() - self.offset >= PREFIX_LEN
            invariant
                self.buffer@ == all,
                self.offset <= all.len(),
                frames_from(all, 0) == places(self.frames@) + frames_from(all, self.offset as int),
                frames_end(all, 0) == frames_end(all, self.offset as int),
            ensures
                self.buffer@ == all,
                self.offset <= all.len(),
                !whole_frame_at(all, self.offset as int),
                frames_from(all, 0) == places(self.frames@) + frames_from(all, self.offset as int),
                frames_end(all, 0) == frames_end(all, self.offset as int),
            decreases all.len() - self.offset,
        {
            let start: usize = self.offset;
            let size: usize = read_big_endian(self.buffer.as_slice(), start) as usize;
            if size > self.buffer.len() - start - PREFIX_LEN {
                break;
            }
            let ghost found = self.frames@;
            self.frames.push((start + PREFIX_LEN, size));
            self.offset = start + PREFIX_LEN + size;
            proof {
                assert(whole_frame_at(all, start as int));
                assert(places(self.frames@) =~= places(found).push(
                    ((start + PREFIX_LEN) as int, size as int),
                ));
                assert(places(found) + (seq![((start + PREFIX_LEN) as int, size as int)]
                    + frames_from(all, self.offset as int)) =~= places(self.frames@) + frames_from(
                    all,
                    self.offset as int,
                ));
            }
        }
        assert(places(self.frames@) + Seq::<(int, int)>::empty() =~= places(self.frames@));
    }

    /// The offset and the length of the payload of each whole frame, in the order of the body.
    pub fn frames(&self) -> (frames: &Vec<(usize, usize)>)
        requires
            self.wf(),
        ensures
            places(frames@) == frames_from(self@, 0),
    {
        &self.frames
    }

    /// The payload of each whole frame, in the order of the body. Bytes behind the last whole
    /// frame are dropped.
    pub fn into_payloads(self) -> (payloads: Vec<Vec<u8>>)
        requires
            self.wf(),
        ensures
            payloads@.map_values(|payload: Vec<u8>| payload@) == payloads_in(self@),
    {
        let mut payloads: Vec<Vec<u8>> = Vec::new();
        let count: usize = self.frames.len();
        let mut i: usize = 0;
        while i < count
            invariant
                self.wf(),
                i <= count,
                count == self.frames@.len(),
                payloads@.len() == i,
                forall|k: int|
                    0 <= k < i ==> (#[trigger] payloads@[k])@ == span(
                        self.buffer@,
                        places(self.frames@)[k],
                    ),
            decreases count - i,
        {
            let (offset, len): (usize, usize) = self.frames[i];
            proof {
                frames_lie_inside_the_body(self.buffer@, 0, i as int);
                assert(places(self.frames@)[i as int] == (offset as int, len as int));
            }
            let payload = slice_subrange(self.buffer.as_slice(), offset, offset + len);
            payloads.push(slice_to_vec(payload));
            i += 1;
        }
        assert(payloads@.map_values(|payload: Vec<u8>| payload@) =~= payloads_in(self.buffer@));
        payloads
    }
}

/// The number in the four bytes from `at` on.
fn read_big_endian(bytes: &[u8], at: usize) -> (value: u32)
    requires
        at + PREFIX_LEN <= bytes@.len(),
    ensures
        value == big_endian(bytes@, at as int),
{
    let a: u32 = bytes[at] as u32;
    let b: u32 = bytes[at + 1] as u32;
    let c: u32 = bytes[at + 2] as u32;
    let d: u32 = bytes[at + 3] as u32;
    a * 0x100_0000 + b * 0x1_0000 + c * 0x100 + d
}

/// Every frame found lies inside the bytes, behind its length prefix.
pub proof fn frames_lie_inside_the_body(bytes: Seq<u8>, at: int, index: int)
    requires
        0 <= at,
        0 <= index < frames_from(bytes, at).len(),
    ensures
        at + PREFIX_LEN <= frames_from(bytes, at)[index].0,
        0 <= frames_from(bytes, at)[index].1,
        frames_from(bytes, at)[index].0 + frames_from(bytes, at)[index].1 <= frames_end(bytes, at)
            <= bytes.len(),
    decreases bytes.len() - at,
{
    let size = big_endian(bytes, at) as int;
    let rest = at + PREFIX_LEN + size;
    lemma_end_in_bounds(bytes, rest);
    if index > 0 {
        frames_lie_inside_the_body(bytes, rest, index - 1);
    }
}

proof fn lemma_end_in_bounds(bytes: Seq<u8>, at: int)
    requires
        0 <= at <= bytes.len(),
    ensures
        at <= frames_end(bytes, at) <= bytes.len(),
    decreases bytes.len() - at,
{
    if whole_frame_at(bytes, at) {
        lemma_end_in_bounds(bytes, at + PREFIX_LEN + big_endian(bytes, at));
    }
}

/// More bytes behind do not touch the frames found so far, and the scan goes on where it stood.
proof fn lemma_frames_kept(bytes: Seq<u8>, more: Seq<u8>, at: int)
    requires
        0 <= at <= bytes.len(),
    ensures
        frames_from(bytes + more, at) == frames_from(bytes, at) + frames_from(
            bytes + more,
            frames_end(bytes, at),
        ),
        frames_end(bytes + more, at) == frames_end(bytes + more, frames_end(bytes, at)),
        at <= frames_end(bytes, at) <= bytes.len(),
    decreases bytes.len() - at,
{
    lemma_end_in_bounds(bytes, at);
    if whole_frame_at(bytes, at) {
        let size = big_endian(bytes, at) as int;
        let rest = at + PREFIX_LEN + size;
        assert(big_endian(bytes + more, at) == size);
        assert(whole_frame_at(bytes + more, at));
        lemma_frames_kept(bytes, more, rest);
        assert(frames_from(bytes, at) + frames_from(bytes + more, frames_end(bytes, rest))
            =~= seq![(at + PREFIX_LEN, size)] + (frames_from(bytes, rest) + frames_from(
            bytes + more,
            frames_end(bytes, rest),
        )));
    } else {
        assert(frames_from(bytes, at) =~= Seq::<(int, int)>::empty());
        assert(Seq::<(int, int)>::empty() + frames_from(bytes + more, at) =~= frames_from(
            bytes + more,
            at,
        ));
    }
}

/// What has been found is final: the payloads of a body that has arrived in part are the first
/// payloads of the whole body, whatever arrives later.
pub proof fn arrival_only_adds_payloads(arrived: Seq<u8>, more: Seq<u8>)
    ensures
        payloads_in(arrived).is_prefix_of(payloads_in(arrived + more)),
{
    lemma_frames_kept(arrived, more, 0);
    let early = frames_from(arrived, 0);
    let all = frames_from(arrived + more, 0);
    assert forall|i: int| 0 <= i < early.len() implies payloads_in(arrived)[i] == payloads_in(
        arrived + more,
    )[i] by {
        assert(all[i] == early[i]);
        frames_lie_inside_the_body(arrived, 0, i);
        assert(span(arrived, early[i]) =~= span(arrived + more, all[i]));
    }
    assert(payloads_in(arrived) =~= payloads_in(arrived + more).take(early.len() as int));
}

/// A sender that frames its payloads has them read back as they were, in their order, and an
/// unfinished frame behind them adds nothing.
pub proof fn framed_payloads_are_read_back(payloads: Seq<Seq<u8>>, unfinished: Seq<u8>)
    requires
        forall|i: int| 0 <= i < payloads.len() ==> (#[trigger] payloads[i]).len() <= u32::MAX,
        !whole_frame_at(unfinished, 0),
    ensures
        payloads_in(framed(payloads) + unfinished) == payloads,
{
    let body = framed(payloads) + unfinished;
    assert(Seq::<u8>::empty() + framed(payloads) + unfinished =~= body);
    reveal(all_fit);
    lemma_framed_from(body, Seq::empty(), payloads, unfinished);
    lemma_payloads_from(body, 0);
}

/// The payloads of the whole frames from `at` on.
spec fn payloads_from(bytes: Seq<u8>, at: int) -> Seq<Seq<u8>>
    decreases bytes.len() - at,
{
    if whole_frame_at(bytes, at) {
        let size = big_endian(bytes, at) as int;
        seq![span(bytes, (at + PREFIX_LEN, size))] + payloads_from(bytes, at + PREFIX_LEN + size)
    } else {
        Seq::empty()
    }
}

/// The payloads are what stands at the places of the frames.
proof fn lemma_payloads_from(bytes: Seq<u8>, at: int)
    ensures
        payloads_from(bytes, at) == frames_from(bytes, at).map_values(
            |place: (int, int)| span(bytes, place),
        ),
    decreases bytes.len() - at,
{
    let spans = frames_from(bytes, at).map_values(|place: (int, int)| span(bytes, place));
    if whole_frame_at(bytes, at) {
        lemma_payloads_from(bytes, at + PREFIX_LEN + big_endian(bytes, at));
        assert(payloads_from(bytes, at) =~= spans);
    } else {
        assert(spans =~= Seq::<Seq<u8>>::empty());
    }
}

/// A length prefix holds the length.
proof fn lemma_prefix(size: nat)
    requires
        size <= u32::MAX,
    ensures
        prefix_of(size).len() == PREFIX_LEN,
        big_endian(prefix_of(size), 0) == size,
{
    reveal(prefix_of);
    let middle = size / 0x100;
    let high = middle / 0x100;
    assert(size == 0x100 * middle + size % 0x100);
    assert(middle == 0x100 * high + middle % 0x100);
    assert(high == 0x100 * (high / 0x100) + high % 0x100);
    assert(high / 0x100 < 0x100);
}

/// The frame of `first`, with other bytes before and behind it, is found where it stands.
proof fn lemma_frame_found(before: Seq<u8>, first: Seq<u8>, tail: Seq<u8>)
    requires
        first.len() <= u32::MAX,
    ensures
        ({
            let body = before + (prefix_of(first.len()) + first + tail);
            let at = before.len() as int;
            &&& whole_frame_at(body, at)
            &&& big_endian(body, at) == first.len()
            &&& span(body, (at + PREFIX_LEN, first.len() as int)) == first
        }),
{
    let prefix = prefix_of(first.len());
    let body = before + (prefix + first + tail);
    let at = before.len() as int;
    lemma_prefix(first.len());
    assert(body[at] == prefix[0]);
    assert(body[at + 1] == prefix[1]);
    assert(body[at + 2] == prefix[2]);
    assert(body[at + 3] == prefix[3]);
    assert(span(body, (at + PREFIX_LEN, first.len() as int)) =~= first);
}

/// An unfinished frame is not found, whatever stands before it.
proof fn lemma_unfinished_not_found(before: Seq<u8>, unfinished: Seq<u8>)
    requires
        !whole_frame_at(unfinished, 0),
    ensures
        !whole_frame_at(before + unfinished, before.len() as int),
{
    let body = before + unfinished;
    let at = before.len() as int;
    if whole_frame_at(body, at) {
        assert(unfinished[0] == body[at]);
        assert(unfinished[1] == body[at + 1]);
        assert(unfinished[2] == body[at + 2]);
        assert(unfinished[3] == body[at + 3]);
    }
}

/// How a framed body begins.
proof fn lemma_framed_split(before: Seq<u8>, payloads: Seq<Seq<u8>>, unfinished: Seq<u8>)
    requires
        payloads.len() > 0,
    ensures
        ({
            let body = before + framed(payloads) + unfinished;
            let first = payloads[0];
            let prefix = prefix_of(first.len());
            let rest = framed(payloads.drop_first());
            &&& body == before + (prefix + first + (rest + unfinished))
            &&& body == (before + (prefix + first)) + rest + unfinished
        }),
{
    let body = before + framed(payloads) + unfinished;
    let first = payloads[0];
    let prefix = prefix_of(first.len());
    let rest = framed(payloads.drop_first());
    assert(body =~= before + (prefix + first + (rest + unfinished)));
    assert(body =~= (before + (prefix + first)) + rest + unfinished);
}

/// One frame is read, and then those behind it.
proof fn lemma_payload_read(bytes: Seq<u8>, at: int, payload: Seq<u8>)
    requires
        whole_frame_at(bytes, at),
        big_endian(bytes, at) == payload.len(),
        span(bytes, (at + PREFIX_LEN, payload.len() as int)) == payload,
    ensures
        payloads_from(bytes, at) == seq![payload] + payloads_from(
            bytes,
            at + PREFIX_LEN + payload.len(),
        ),
{
}

/// Every payload is short enough for its length to be written in front of it.
#[verifier::opaque]
spec fn all_fit(payloads: Seq<Seq<u8>>) -> bool {
    forall|i: int| 0 <= i < payloads.len() ==> (#[trigger] payloads[i]).len() <= u32::MAX
}

/// Payloads taken apart into the first of them and the rest.
proof fn lemma_first_and_rest(payloads: Seq<Seq<u8>>)
    requires
        payloads.len() > 0,
        all_fit(payloads),
    ensures
        payloads[0].len() <= u32::MAX,
        all_fit(payloads.drop_first()),
        payloads == seq![payloads[0]] + payloads.drop_first(),
{
    reveal(all_fit);
    let rest = payloads.drop_first();
    assert forall|i: int| 0 <= i < rest.len() implies (#[trigger] rest[i]).len() <= u32::MAX by {
        assert(rest[i] == payloads[i + 1]);
    }
    assert(payloads =~= seq![payloads[0]] + rest);
}

/// The payloads framed behind `before` are read from there on.
proof fn lemma_framed_from(
    body: Seq<u8>,
    before: Seq<u8>,
    payloads: Seq<Seq<u8>>,
    unfinished: Seq<u8>,
)
    requires
        body == before + framed(payloads) + unfinished,
        all_fit(payloads),
        !whole_frame_at(unfinished, 0),
    ensures
        payloads_from(body, before.len() as int) == payloads,
    decreases payloads.len(),
{
    if payloads.len() == 0 {
        assert(body =~= before + unfinished);
        lemma_unfinished_not_found(before, unfinished);
        assert(payloads =~= Seq::<Seq<u8>>::empty());
    } else {
        let first = payloads[0];
        let rest = payloads.drop_first();
        let head = before + (prefix_of(first.len()) + first);
        lemma_first_and_rest(payloads);
        lemma_framed_split(before, payloads, unfinished);
        lemma_prefix(first.len());
        lemma_frame_found(before, first, framed(rest) + unfinished);
        lemma_framed_from(body, head, rest, unfinished);
        lemma_payload_read(body, before.len() as int, first);
    }
}

/// A length is read with its most significant byte first.
pub proof fn lengths_are_big_endian(before: Seq<u8>, a: u8, b: u8, c: u8, d: u8, rest: Seq<u8>)
    ensures
        big_endian(before + seq![a, b, c, d] + rest, before.len() as int) == ((a * 256 + b) * 256
            + c) * 256 + d,
{
    let bytes = before + seq![a, b, c, d] + rest;
    let at = before.len() as int;
    assert(bytes[at] == a && bytes[at + 1] == b && bytes[at + 2] == c && bytes[at + 3] == d);
}

/// Payloads do not depend on what stands before their frames.
proof fn lemma_payloads_shifted(before: Seq<u8>, bytes: Seq<u8>, at: int)
    requires
        0 <= at <= bytes.len(),
    ensures
        payloads_from(before + bytes, before.len() + at) == payloads_from(bytes, at),
    decreases bytes.len() - at,
{
    let body = before + bytes;
    let start = before.len() + at;
    if bytes.len() - at >= PREFIX_LEN {
        assert(body[start] == bytes[at]);
        assert(body[start + 1] == bytes[at + 1]);
        assert(body[start + 2] == bytes[at + 2]);
        assert(body[start + 3] == bytes[at + 3]);
        assert(big_endian(body, start) == big_endian(bytes, at));
        if whole_frame_at(bytes, at) {
            let size = big_endian(bytes, at) as int;
            lemma_payloads_shifted(before, bytes, at + PREFIX_LEN + size);
            assert(span(body, (start + PREFIX_LEN, size)) =~= span(bytes, (at + PREFIX_LEN, size)));
        }
    }
}

/// A body is read frame by frame: a length, that many bytes of payload, and then the rest as if it
/// were a body of its own. This holds of payloads of every size.
pub proof fn a_frame_is_read_and_then_the_rest(
    a: u8,
    b: u8,
    c: u8,
    d: u8,
    payload: Seq<u8>,
    rest: Seq<u8>,
)
    requires
        payload.len() == ((a * 256 + b) * 256 + c) * 256 + d,
    ensures
        payloads_in(seq![a, b, c, d] + payload + rest) == seq![payload] + payloads_in(rest),
{
    let head = seq![a, b, c, d] + payload;
    let body = seq![a, b, c, d] + payload + rest;
    assert(Seq::<u8>::empty() + seq![a, b, c, d] + (payload + rest) =~= body);
    lengths_are_big_endian(Seq::empty(), a, b, c, d, payload + rest);
    assert(big_endian(body, 0) == payload.len());
    assert(span(body, (PREFIX_LEN as int, payload.len() as int)) =~= payload);
    lemma_payload_read(body, 0, payload);
    lemma_payloads_shifted(head, rest, 0);
    assert(head.len() == PREFIX_LEN + payload.len());
    lemma_payloads_from(body, 0);
    lemma_payloads_from(rest, 0);
}

/// Bytes that do not make up a whole frame hold no payload: fewer than a length takes, or fewer
/// than the length says.
pub proof fn an_unfinished_frame_holds_nothing(bytes: Seq<u8>)
    requires
        bytes.len() < 4 || bytes.len() < 4 + (((bytes[0] * 256 + bytes[1]) * 256 + bytes[2]) * 256
            + bytes[3]),
    ensures
        payloads_in(bytes) == Seq::<Seq<u8>>::empty(),
{
    assert(payloads_in(bytes) =~= Seq::<Seq<u8>>::empty());
}

/// The places of the frames are those of their payloads: the first stands behind one length, each
/// later one behind the payload before it and one more length, and what stands at a place is the
/// payload.
pub proof fn places_are_those_of_payloads(bytes: Seq<u8>, i: int)
    requires
        0 <= i < frames_from(bytes, 0).len(),
    ensures
        frames_from(bytes, 0).len() == payloads_in(bytes).len(),
        ({
            let (offset, len) = frames_from(bytes, 0)[i];
            &&& bytes.subrange(offset, offset + len) == payloads_in(bytes)[i]
            &&& len == payloads_in(bytes)[i].len()
            &&& i == 0 ==> offset == 4
            &&& i > 0 ==> offset == frames_from(bytes, 0)[i - 1].0 + frames_from(bytes, 0)[i - 1].1
                + 4
        }),
{
    frames_lie_inside_the_body(bytes, 0, i);
    lemma_places_follow(bytes, 0, i);
}

/// Each frame found stands right behind the one before.
proof fn lemma_places_follow(bytes: Seq<u8>, at: int, i: int)
    requires
        0 <= at,
        0 <= i < frames_from(bytes, at).len(),
    ensures
        i == 0 ==> frames_from(bytes, at)[i].0 == at + 4,
        i > 0 ==> frames_from(bytes, at)[i].0 == frames_from(bytes, at)[i - 1].0 + frames_from(
            bytes,
            at,
        )[i - 1].1 + 4,
    decreases bytes.len() - at,
{
    let next = at + PREFIX_LEN + big_endian(bytes, at);
    if i > 0 {
        lemma_places_follow(bytes, next, i - 1);
        assert(frames_from(bytes, at)[i] == frames_from(bytes, next)[i - 1]);
        if i > 1 {
            assert(frames_from(bytes, at)[i - 1] == frames_from(bytes, next)[i - 2]);
        }
    }
}

/// Places in memory are the places they stand for.
pub proof fn places_are_kept_as_they_are(frames: Seq<(usize, usize)>, i: int)
    requires
        0 <= i < frames.len(),
    ensures
        places(frames).len() == frames.len(),
        places(frames)[i].0 == frames[i].0,
        places(frames)[i].1 == frames[i].1,
{
}

} // verus!

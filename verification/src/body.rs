//! The size-policed accumulator: drains a chunked body into one buffer and
//! stops as soon as the payload proves larger than the limit.

use crate::codec::{decoded, decoding};
use crate::config::DEFAULT_LIMIT;
use crate::error::CborPayloadError;
use actix_web::error::PayloadError;
use vstd::prelude::*;

verus! {

/// The media type of CBOR on the wire.
pub const CONTENT_TYPE: &'static str = "application/cbor";

/// The media type of CBOR on the wire, as a sequence of characters.
pub open spec fn canonical_media_type() -> Seq<char> {
    "application/cbor"@
}

/// Whether `accepted` is an answer that the content-type check may give.
///
/// An absent media type is refused. With a predicate, the answer is the
/// predicate's own on the declared type; without one, exactly the canonical
/// media type is accepted.
pub open spec fn content_type_verdict<P: Fn(&str) -> bool>(
    declared: Option<&str>,
    predicate: Option<&P>,
    accepted: bool,
) -> bool {
    match declared {
        None => !accepted,
        Some(media_type) => match predicate {
            Some(p) => call_ensures(*p, (media_type,), accepted),
            None => accepted == (media_type@ == canonical_media_type()),
        },
    }
}

/// The content-type check: decides from the declared media type alone whether
/// a body may be read at all.
pub fn accepts_content_type<P: Fn(&str) -> bool>(
    declared: Option<&str>,
    predicate: Option<&P>,
) -> (accepted: bool)
    requires
        declared is Some && predicate is Some ==> call_requires(
            *predicate->0,
            (declared->0,),
        ),
    ensures
        content_type_verdict(declared, predicate, accepted),
{
    match declared {
        None => false,
        Some(media_type) => match predicate {
            Some(p) => p(media_type),
            None => media_type.to_owned() == CONTENT_TYPE.to_owned(),
        },
    }
}

/// What the accumulator reads of a request before it reads the body.
#[derive(Debug)]
pub struct RequestHead<'a> {
    /// The declared media type, without parameters; `None` where the request
    /// declares none or declares one that cannot be read.
    pub content_type: Option<&'a str>,
    /// The declared total length of the body, if the request declares one.
    pub content_length: Option<usize>,
}

/// One answer of a chunk source.
#[derive(Debug)]
pub enum Event<'a> {
    /// The next piece of the body; it may be empty.
    Chunk(&'a [u8]),
    /// The body is complete.
    End,
    /// The source failed.
    Fault(PayloadError),
}

/// What the accumulator asks for after an event.
#[derive(Debug)]
pub enum Step {
    /// The chunk was taken: request the next one.
    Continue(Accumulator),
    /// The body is complete: this is the buffer.
    Complete(Vec<u8>),
    /// The read is over: the buffer is dropped and this fault is the result.
    Failed(CborPayloadError),
}

/// A body that has passed or failed the content-type check and has not been
/// read yet.
#[derive(Debug)]
pub struct CborBody {
    limit: usize,
    length: Option<usize>,
    rejected: bool,
}

/// The reading state: the bytes received so far, never more than the limit.
#[derive(Debug)]
pub struct Accumulator {
    buffer: Vec<u8>,
    bytes_read: usize,
    limit: usize,
}

/// What one item of a source already in memory adds to the body: a chunk
/// adds its bytes, a fault adds nothing.
pub open spec fn chunk_bytes(item: Result<Vec<u8>, PayloadError>) -> Seq<u8> {
    match item {
        Ok(chunk) => chunk@,
        Err(_) => Seq::empty(),
    }
}

/// The result of feeding `items`, then the end of the body, to an accumulator
/// that holds `buffered` under `limit`.
///
/// A fault ends the read with `Payload`; a chunk that takes the total over the
/// limit ends it with `Overflow`; otherwise the chunk is appended and the read
/// goes on. When the items run out the buffer is the result.
pub open spec fn drained(
    limit: usize,
    buffered: Seq<u8>,
    items: Seq<Result<Vec<u8>, PayloadError>>,
) -> Result<Seq<u8>, CborPayloadError>
    decreases items.len(),
{
    if items.len() == 0 {
        Ok(buffered)
    } else {
        match items[0] {
            Err(fault) => Err(CborPayloadError::Payload(fault)),
            Ok(chunk) => if buffered.len() + chunk@.len() > limit {
                Err(CborPayloadError::Overflow)
            } else {
                drained(limit, buffered + chunk@, items.drop_first())
            },
        }
    }
}

/// The result of reading a body from a source that yields `items` and then
/// ends, given the answer of the content-type check, the declared length and the limit.
///
/// A refused media type gives `ContentType` and a declared length over the
/// limit gives `Overflow`, both whatever the source holds; otherwise the
/// source is drained into an empty buffer.
pub open spec fn read_outcome(
    accepted: bool,
    declared_length: Option<usize>,
    limit: usize,
    items: Seq<Result<Vec<u8>, PayloadError>>,
) -> Result<Seq<u8>, CborPayloadError> {
    if !accepted {
        Err(CborPayloadError::ContentType)
    } else if declared_length is Some && declared_length->0 > limit {
        Err(CborPayloadError::Overflow)
    } else {
        drained(limit, Seq::empty(), items)
    }
}

/// Whether `read` is a typed result of a read that ended with `body`: a fault
/// of the read stands as it is; a completed buffer is handed to `decode`, and
/// the codec's answer decides.
pub open spec fn typed_outcome<T, D: FnOnce(&[u8]) -> Result<T, serde_cbor::Error>>(
    body: Result<Seq<u8>, CborPayloadError>,
    decode: D,
    read: Result<T, CborPayloadError>,
) -> bool {
    match body {
        Err(fault) => read == Err::<T, _>(fault),
        Ok(bytes) => exists|buffer: &[u8], answer: Result<T, serde_cbor::Error>|
            {
                &&& buffer@ == bytes
                &&& #[trigger] call_ensures(decode, (buffer,), answer)
                &&& read == decoding(answer)
            },
    }
}

/// The bytes of a result, where it holds a buffer.
pub open spec fn body_view(result: Result<Vec<u8>, CborPayloadError>) -> Result<
    Seq<u8>,
    CborPayloadError,
> {
    match result {
        Ok(body) => Ok(body@),
        Err(fault) => Err(fault),
    }
}

impl CborBody {
    /// The limit that will be enforced.
    pub closed spec fn spec_limit(&self) -> usize {
        self.limit
    }

    /// The total length that the request declares, if it declares one.
    pub closed spec fn spec_length(&self) -> Option<usize> {
        self.length
    }

    /// Whether the content-type check refused the request.
    pub closed spec fn spec_rejected(&self) -> bool {
        self.rejected
    }

    /// The result of reading this body from a source that yields `items` and
    /// then ends.
    pub open spec fn outcome(&self, items: Seq<Result<Vec<u8>, PayloadError>>) -> Result<
        Seq<u8>,
        CborPayloadError,
    > {
        read_outcome(!self.spec_rejected(), self.spec_length(), self.spec_limit(), items)
    }

    /// Passes the declared media type through the content-type check and notes
    /// the declared length. Reads nothing. The limit is [`DEFAULT_LIMIT`]
    /// until [`CborBody::limit`] sets another.
    pub fn new<P: Fn(&str) -> bool>(head: &RequestHead<'_>, ctype: Option<&P>) -> (body: Self)
        requires
            head.content_type is Some && ctype is Some ==> call_requires(
                *ctype->0,
                (head.content_type->0,),
            ),
        ensures
            content_type_verdict(head.content_type, ctype, !body.spec_rejected()),
            body.spec_length() == head.content_length,
            body.spec_limit() == DEFAULT_LIMIT,
    {
        let accepted = accepts_content_type(head.content_type, ctype);
        CborBody { limit: DEFAULT_LIMIT, length: head.content_length, rejected: !accepted }
    }

    /// Sets the largest payload accepted, in bytes.
    pub fn limit(self, limit: usize) -> (body: Self)
        ensures
            body.spec_limit() == limit,
            body.spec_length() == self.spec_length(),
            body.spec_rejected() == self.spec_rejected(),
    {
        CborBody { limit, length: self.length, rejected: self.rejected }
    }

    /// Whether the content-type check refused the request.
    #[verifier::when_used_as_spec(spec_rejected)]
    pub fn rejected(&self) -> (rejected: bool)
        ensures
            rejected == self.spec_rejected(),
    {
        self.rejected
    }

    /// The checks that come before the first chunk is requested.
    ///
    /// Fails with `ContentType` if the content-type check refused the request, else with
    /// `Overflow` if the declared length is over the limit. Otherwise the
    /// reading state is handed out, empty.
    pub fn start(self) -> (started: Result<Accumulator, CborPayloadError>)
        ensures
            self.spec_rejected() ==> started == Err::<Accumulator, _>(
                CborPayloadError::ContentType,
            ),
            !self.spec_rejected() && self.spec_length() is Some && self.spec_length()->0
                > self.spec_limit() ==> started == Err::<Accumulator, _>(
                CborPayloadError::Overflow,
            ),
            !self.spec_rejected() && !(self.spec_length() is Some && self.spec_length()->0
                > self.spec_limit()) ==> started is Ok && started->Ok_0.buffered()
                == Seq::<u8>::empty() && started->Ok_0.spec_limit() == self.spec_limit(),
    {
        if self.rejected {
            return Err(CborPayloadError::ContentType);
        }
        if let Some(length) = self.length {
            if length > self.limit {
                return Err(CborPayloadError::Overflow);
            }
        }
        Ok(Accumulator { buffer: Vec::with_capacity(8192), bytes_read: 0, limit: self.limit })
    }

    /// Reads the whole body from a source that is already in memory: `items`
    /// in order, then the end of the body.
    pub fn collect(self, items: Vec<Result<Vec<u8>, PayloadError>>) -> (read: Result<
        Vec<u8>,
        CborPayloadError,
    >)
        ensures
            body_view(read) == self.outcome(items@),
    {
        let mut state = match self.start() {
            Ok(state) => state,
            Err(fault) => {
                return Err(fault);
            },
        };
        let ghost limit = self.spec_limit();
        let ghost target = self.outcome(items@);
        assert(items@.skip(0) == items@);
        for item in it: items.into_iter()
            invariant
                it.seq() == items@,
                state.spec_limit() == limit,
                target == self.outcome(items@),
                drained(limit, state.buffered(), items@.skip(it.index() as int)) == target,
        {
            let ghost rest = items@.skip(it.index() as int);
            assert(rest.len() > 0 && rest[0] == item);
            assert(rest.drop_first() == items@.skip(it.index() + 1));
            let step = match item {
                Ok(chunk) => state.feed(Event::Chunk(chunk.as_slice())),
                Err(fault) => state.feed(Event::Fault(fault)),
            };
            match step {
                Step::Continue(next) => {
                    state = next;
                },
                Step::Complete(body) => {
                    return Ok(body);
                },
                Step::Failed(fault) => {
                    return Err(fault);
                },
            }
        }
        assert(items@.skip(items@.len() as int).len() == 0);
        match state.feed(Event::End) {
            Step::Complete(body) => Ok(body),
            Step::Continue(next) => Ok(next.finish()),
            Step::Failed(fault) => Err(fault),
        }
    }
}

impl CborBody {
    /// Reads the whole body from a source that is already in memory and
    /// decodes it: `decode` is called once, on the completed buffer, and not
    /// at all if the read fails.
    pub fn read<T, D: FnOnce(&[u8]) -> Result<T, serde_cbor::Error>>(
        self,
        items: Vec<Result<Vec<u8>, PayloadError>>,
        decode: D,
    ) -> (read: Result<T, CborPayloadError>)
        requires
            forall|buffer: &[u8]| call_requires(decode, (buffer,)),
        ensures
            typed_outcome(self.outcome(items@), decode, read),
    {
        match self.collect(items) {
            Ok(buffer) => {
                let answer = decode(buffer.as_slice());
                decoded(answer)
            },
            Err(fault) => Err(fault),
        }
    }
}

impl Accumulator {
    #[verifier::type_invariant]
    spec fn within_limit(self) -> bool {
        &&& self.bytes_read == self.buffer@.len()
        &&& self.bytes_read <= self.limit
    }

    /// The bytes received so far.
    pub closed spec fn buffered(&self) -> Seq<u8> {
        self.buffer@
    }

    /// The limit that is enforced.
    pub closed spec fn spec_limit(&self) -> usize {
        self.limit
    }

    /// The number of bytes received so far. It never exceeds the limit.
    pub fn bytes_read(&self) -> (count: usize)
        ensures
            count == self.buffered().len(),
            count <= self.spec_limit(),
    {
        proof {
            use_type_invariant(self);
        }
        self.bytes_read
    }

    /// The limit that is enforced.
    #[verifier::when_used_as_spec(spec_limit)]
    pub fn limit(&self) -> (limit: usize)
        ensures
            limit == self.spec_limit(),
    {
        self.limit
    }

    /// Takes one answer of the chunk source and says what to do next.
    ///
    /// A chunk is appended and the next one requested, unless the total would
    /// then exceed the limit: that ends the read with `Overflow`. The end of
    /// the body yields the buffer. A fault of the source ends the read with
    /// `Payload`, carrying the fault.
    pub fn feed(self, event: Event<'_>) -> (step: Step)
        ensures
            match event {
                Event::Chunk(chunk) => if self.buffered().len() + chunk@.len()
                    > self.spec_limit() {
                    step == Step::Failed(CborPayloadError::Overflow)
                } else {
                    &&& step is Continue
                    &&& step->Continue_0.buffered() == self.buffered() + chunk@
                    &&& step->Continue_0.spec_limit() == self.spec_limit()
                    &&& step->Continue_0.buffered().len() <= self.spec_limit()
                },
                Event::End => {
                    &&& step is Complete
                    &&& step->Complete_0@ == self.buffered()
                    &&& step->Complete_0@.len() <= self.spec_limit()
                },
                Event::Fault(fault) => step == Step::Failed(CborPayloadError::Payload(fault)),
            },
    {
        proof {
            use_type_invariant(&self);
        }
        match event {
            Event::Chunk(chunk) => {
                if chunk.len() > self.limit - self.bytes_read {
                    Step::Failed(CborPayloadError::Overflow)
                } else {
                    let mut buffer = self.buffer;
                    buffer.extend_from_slice(chunk);
                    assert(buffer@ == self.buffer@ + chunk@);
                    Step::Continue(
                        Accumulator {
                            buffer,
                            bytes_read: self.bytes_read + chunk.len(),
                            limit: self.limit,
                        },
                    )
                }
            },
            Event::End => Step::Complete(self.finish()),
            Event::Fault(fault) => Step::Failed(CborPayloadError::Payload(fault)),
        }
    }

    fn finish(self) -> (body: Vec<u8>)
        ensures
            body@ == self.buffered(),
            body@.len() <= self.spec_limit(),
    {
        proof {
            use_type_invariant(&self);
        }
        self.buffer
    }
}

/// The bytes that the first `count` items of a source deliver, in order.
/// Its length is the running total after `count` items.
pub open spec fn received(items: Seq<Result<Vec<u8>, PayloadError>>, count: int) -> Seq<u8>
    decreases count,
{
    if count <= 0 {
        Seq::empty()
    } else {
        received(items, count - 1) + chunk_bytes(items[count - 1])
    }
}

/// Whether the first `count` items are all chunks, none of them a fault.
pub open spec fn all_chunks(items: Seq<Result<Vec<u8>, PayloadError>>, count: int) -> bool {
    forall|i: int| 0 <= i < count ==> (#[trigger] items[i]) is Ok
}

proof fn lemma_received_shift(items: Seq<Result<Vec<u8>, PayloadError>>, count: int)
    requires
        1 <= count <= items.len(),
    ensures
        received(items, count) == chunk_bytes(items[0]) + received(
            items.drop_first(),
            count - 1,
        ),
    decreases count,
{
    if count == 1 {
        assert(received(items, 0) == Seq::<u8>::empty());
        assert(received(items.drop_first(), 0) == Seq::<u8>::empty());
        assert(received(items, 1) == received(items, 0) + chunk_bytes(items[0]));
    } else {
        lemma_received_shift(items, count - 1);
        assert(items.drop_first()[count - 2] == items[count - 1]);
        assert(received(items.drop_first(), count - 1) == received(
            items.drop_first(),
            count - 2,
        ) + chunk_bytes(items[count - 1]));
    }
}

/// The running total never shrinks as more items are counted.
pub proof fn lemma_received_grows(
    items: Seq<Result<Vec<u8>, PayloadError>>,
    fewer: int,
    more: int,
)
    requires
        fewer <= more,
    ensures
        received(items, fewer).len() <= received(items, more).len(),
    decreases more - fewer,
{
    if fewer < more {
        lemma_received_grows(items, fewer, more - 1);
        if more <= 0 {
            assert(received(items, more).len() == 0);
            assert(received(items, more - 1).len() == 0);
        }
    }
}

/// While chunks arrive and the running total stays within the limit, the
/// accumulator keeps reading: after `count` such items it holds what they
/// delivered and goes on with the rest.
pub proof fn lemma_drained_prefix(
    limit: usize,
    buffered: Seq<u8>,
    items: Seq<Result<Vec<u8>, PayloadError>>,
    count: int,
)
    requires
        0 <= count <= items.len(),
        all_chunks(items, count),
        buffered.len() + received(items, count).len() <= limit,
    ensures
        drained(limit, buffered, items) == drained(
            limit,
            buffered + received(items, count),
            items.skip(count),
        ),
    decreases count,
{
    if count == 0 {
        assert(items.skip(0) == items);
        assert(buffered + received(items, 0) == buffered);
    } else {
        let rest = items.drop_first();
        let chunk = chunk_bytes(items[0]);
        assert(items[0] is Ok);
        lemma_received_shift(items, count);
        assert forall|i: int| 0 <= i < count - 1 implies (#[trigger] rest[i]) is Ok by {
            assert(rest[i] == items[i + 1]);
        }
        lemma_drained_prefix(limit, buffered + chunk, rest, count - 1);
        assert(rest.skip(count - 1) == items.skip(count));
        assert((buffered + chunk) + received(rest, count - 1) == buffered + received(
            items,
            count,
        ));
    }
}

/// A body whose chunks all arrive and together stay within the limit is read
/// to its end: the result is every byte delivered, in order.
pub proof fn lemma_drained_complete(limit: usize, items: Seq<Result<Vec<u8>, PayloadError>>)
    requires
        all_chunks(items, items.len() as int),
        received(items, items.len() as int).len() <= limit,
    ensures
        drained(limit, Seq::empty(), items) == Ok::<Seq<u8>, CborPayloadError>(
            received(items, items.len() as int),
        ),
{
    let count = items.len() as int;
    lemma_drained_prefix(limit, Seq::empty(), items, count);
    assert(items.skip(count).len() == 0);
    assert(Seq::<u8>::empty() + received(items, count) == received(items, count));
}

/// The read fails with `Overflow` at the first chunk that takes the running
/// total over the limit, and not later: whatever follows that chunk, the
/// result is the same, and the chunks before it were all taken. What the
/// request declared as its length plays no part in this.
pub proof fn lemma_drained_overflow(
    limit: usize,
    items: Seq<Result<Vec<u8>, PayloadError>>,
    at: int,
)
    requires
        0 <= at < items.len(),
        all_chunks(items, at + 1),
        received(items, at).len() <= limit < received(items, at + 1).len(),
    ensures
        drained(limit, Seq::empty(), items) == Err::<Seq<u8>, _>(CborPayloadError::Overflow),
        drained(limit, Seq::empty(), items.take(at + 1)) == Err::<Seq<u8>, _>(
            CborPayloadError::Overflow,
        ),
        drained(limit, Seq::empty(), items.take(at)) == Ok::<Seq<u8>, CborPayloadError>(
            received(items, at),
        ),
{
    lemma_overflow_at(limit, items, at);
    let upto = items.take(at + 1);
    assert forall|i: int| 0 <= i < at + 1 implies (#[trigger] upto[i]) is Ok by {
        assert(upto[i] == items[i]);
    }
    lemma_received_take(items, at + 1, at);
    lemma_received_take(items, at + 1, at + 1);
    lemma_overflow_at(limit, upto, at);
    let before = items.take(at);
    assert forall|i: int| 0 <= i < at implies (#[trigger] before[i]) is Ok by {
        assert(before[i] == items[i]);
    }
    lemma_received_take(items, at, at);
    lemma_drained_complete(limit, before);
}

/// The read fails with `Payload` at the first fault of the source, carrying
/// that fault, provided the chunks before it stayed within the limit.
pub proof fn lemma_drained_fault(
    limit: usize,
    items: Seq<Result<Vec<u8>, PayloadError>>,
    at: int,
)
    requires
        0 <= at < items.len(),
        all_chunks(items, at),
        received(items, at).len() <= limit,
        items[at] is Err,
    ensures
        drained(limit, Seq::empty(), items) == Err::<Seq<u8>, _>(
            CborPayloadError::Payload(items[at]->Err_0),
        ),
{
    lemma_drained_prefix(limit, Seq::empty(), items, at);
    assert(items.skip(at)[0] == items[at]);
}

proof fn lemma_overflow_at(limit: usize, items: Seq<Result<Vec<u8>, PayloadError>>, at: int)
    requires
        0 <= at < items.len(),
        all_chunks(items, at + 1),
        received(items, at).len() <= limit < received(items, at + 1).len(),
    ensures
        drained(limit, Seq::empty(), items) == Err::<Seq<u8>, _>(CborPayloadError::Overflow),
{
    lemma_drained_prefix(limit, Seq::empty(), items, at);
    assert(items.skip(at)[0] == items[at]);
    assert(items[at] is Ok);
    assert(Seq::<u8>::empty() + received(items, at) == received(items, at));
}

proof fn lemma_received_take(items: Seq<Result<Vec<u8>, PayloadError>>, keep: int, count: int)
    requires
        0 <= count <= keep <= items.len(),
    ensures
        received(items.take(keep), count) == received(items, count),
    decreases count,
{
    if count > 0 {
        lemma_received_take(items, keep, count - 1);
        assert(items.take(keep)[count - 1] == items[count - 1]);
    }
}

/// A request whose media type the content-type check refused fails with `ContentType`
/// whatever its source holds: nothing is read from it.
pub proof fn lemma_rejected_reads_nothing(
    body: CborBody,
    items: Seq<Result<Vec<u8>, PayloadError>>,
)
    requires
        body.spec_rejected(),
    ensures
        body.outcome(items) == Err::<Seq<u8>, _>(CborPayloadError::ContentType),
        body.outcome(items) == body.outcome(Seq::empty()),
{
}

/// A request that passed the content-type check and declares a length over the limit fails
/// with `Overflow` whatever its source holds: no chunk is requested.
pub proof fn lemma_declared_overflow_reads_nothing(
    body: CborBody,
    items: Seq<Result<Vec<u8>, PayloadError>>,
)
    requires
        !body.spec_rejected(),
        body.spec_length() is Some,
        body.spec_length()->0 > body.spec_limit(),
    ensures
        body.outcome(items) == Err::<Seq<u8>, _>(CborPayloadError::Overflow),
        body.outcome(items) == body.outcome(Seq::empty()),
{
}

/// The content-type check refuses a request that declares no media type, and, where no
/// predicate is configured, one that declares any but the canonical type.
pub proof fn lemma_content_type_refused<P: Fn(&str) -> bool>(
    declared: Option<&str>,
    predicate: Option<&P>,
    accepted: bool,
)
    requires
        content_type_verdict(declared, predicate, accepted),
        declared is None || (predicate is None && declared->0@ != canonical_media_type()),
    ensures
        !accepted,
{
}

} // verus!

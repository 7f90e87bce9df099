//! The two-phase buffer protocol: ask once without a buffer to learn how many
//! bytes the answer needs, then ask again with a buffer of exactly that size,
//! and once more if the answer grew in between.

use crate::windows::utils::memory::{alloc_s, RawBuffer};
use vstd::prelude::*;

verus! {

/// Why a negotiation gave no buffer.
#[derive(Debug, Clone, Copy, PartialEq, Eq, Structural)]
pub enum NegotiationError {
    /// The answer kept outgrowing the buffer until no attempt was left.
    Unstable,
    /// The memory for a buffer could not be had.
    AllocationFailure,
}

/// What one native call reported, together with the buffer it was given.
pub struct QueryReply {
    /// The call reported success.
    pub success: bool,
    /// Bytes that the answer needs, as the call reported them.
    pub needed: usize,
    /// Elements that the call says it wrote.
    pub returned: usize,
    /// The buffer that was handed to the call.
    pub buffer: RawBuffer,
}

/// One native call: the buffer it was given and what it reported.
pub struct Exchange {
    pub request: RawBuffer,
    pub reply: QueryReply,
}

/// What the protocol makes of one reply.
pub enum Verdict {
    /// The buffer holds the answer.
    Filled,
    /// There is nothing to return.
    Empty,
    /// The answer does not fit and no attempt is left.
    Unstable,
    /// The answer does not fit; ask again with a buffer of the reported size.
    Retry,
}

/// What to do after a reply.
pub enum NegotiationStep {
    /// The negotiation is over and this is its result.
    Done(RawBuffer),
    /// The negotiation is over without a result.
    Failed(NegotiationError),
    /// Ask again with a buffer of `capacity` bytes.
    Retry { capacity: usize },
}

/// The call succeeded on the buffer of `capacity` bytes that it was given,
/// and the elements it says it wrote fit in that buffer.
pub open spec fn is_filled(reply: QueryReply, capacity: usize, stride: usize) -> bool {
    &&& reply.success
    &&& reply.buffer.bytes@.len() == capacity
    &&& reply.returned * stride <= capacity
}

/// What the protocol makes of `reply`, given to a call with a buffer of
/// `capacity` bytes when `attempts_left` further calls are allowed.
pub open spec fn verdict(reply: QueryReply, capacity: usize, stride: usize, attempts_left: usize)
    -> Verdict {
    if is_filled(reply, capacity, stride) {
        Verdict::Filled
    } else if reply.needed == 0 {
        Verdict::Empty
    } else if attempts_left == 0 {
        Verdict::Unstable
    } else {
        Verdict::Retry
    }
}

/// The buffer that a negotiation returns when `reply` filled it: the bytes
/// that came back, holding the elements that the call says it wrote.
pub open spec fn is_result_of(buffer: RawBuffer, reply: QueryReply, stride: usize) -> bool {
    &&& buffer.bytes@ == reply.buffer.bytes@
    &&& buffer.stride == stride
    &&& buffer.count == reply.returned
}

/// `step` is what follows from `reply`.
pub open spec fn follows(
    step: NegotiationStep,
    reply: QueryReply,
    capacity: usize,
    stride: usize,
    attempts_left: usize,
) -> bool {
    match verdict(reply, capacity, stride, attempts_left) {
        Verdict::Filled => step matches NegotiationStep::Done(buffer) && is_result_of(
            buffer,
            reply,
            stride,
        ),
        Verdict::Empty => step matches NegotiationStep::Done(buffer) && buffer.is_blank(0, stride),
        Verdict::Unstable => step == NegotiationStep::Failed(NegotiationError::Unstable),
        Verdict::Retry => step == (NegotiationStep::Retry { capacity: reply.needed }),
    }
}

/// Decides what follows from the reply to a call that was given a buffer of
/// `capacity` bytes for elements of `stride` bytes, when `attempts_left`
/// further calls are allowed.
///
/// A successful call whose elements fit in the buffer ends the negotiation
/// with that buffer. Any other reply that asks for no bytes ends it with an
/// empty buffer, which is no error. Any other reply asks for a buffer of the
/// size it reports, which is granted while attempts are left.
pub fn next_step(reply: QueryReply, capacity: usize, stride: usize, attempts_left: usize) -> (step:
    NegotiationStep)
    ensures
        follows(step, reply, capacity, stride, attempts_left),
        step matches NegotiationStep::Done(buffer) ==> buffer.wf(),
{
    if reply.success && reply.buffer.len() == capacity {
        match reply.returned.checked_mul(stride) {
            Some(bytes) => {
                if bytes <= capacity {
                    return NegotiationStep::Done(
                        RawBuffer { bytes: reply.buffer.bytes, stride, count: reply.returned },
                    );
                }
            },
            None => {},
        }
    }
    if reply.needed == 0 {
        NegotiationStep::Done(RawBuffer::empty(stride))
    } else if attempts_left == 0 {
        NegotiationStep::Failed(NegotiationError::Unstable)
    } else {
        NegotiationStep::Retry { capacity: reply.needed }
    }
}

/// Bytes of the buffer given to call `index` of `log`: none to the first
/// call, and to each later call as many as the reply before it asked for.
pub open spec fn capacity_at(log: Seq<Exchange>, index: int) -> usize {
    if index <= 0 {
        0
    } else {
        log[index - 1].reply.needed
    }
}

/// Calls that are still allowed after call `index`, of `max_attempts` calls
/// with a buffer.
pub open spec fn attempts_after(max_attempts: usize, index: int) -> usize {
    if 0 <= index <= max_attempts {
        (max_attempts - index) as usize
    } else {
        0
    }
}

/// `log` is a course that a negotiation with `query` about `target` can
/// take, up to and without what follows from its last reply: every call was
/// given a blank buffer of the size that the protocol prescribes, every reply
/// is one that `query` can give to that buffer, and every reply but the last
/// asked for another call.
pub open spec fn is_course<T, Q: Fn(T, RawBuffer) -> QueryReply>(
    query: Q,
    target: T,
    stride: usize,
    max_attempts: usize,
    log: Seq<Exchange>,
) -> bool {
    &&& 1 <= log.len() <= max_attempts + 1
    &&& forall|i: int|
        0 <= i < log.len() ==> {
            &&& (#[trigger] log[i]).request.is_blank(capacity_at(log, i) as nat, stride)
            &&& call_ensures(query, (target, log[i].request), log[i].reply)
        }
    &&& forall|i: int|
        0 <= i < log.len() - 1 ==> verdict(
            (#[trigger] log[i]).reply,
            capacity_at(log, i),
            stride,
            attempts_after(max_attempts, i),
        ) is Retry
}

/// `result` is what a negotiation returns when `log` is the course it took.
/// Where the last reply asked for another call, the negotiation stopped
/// because the buffer for that call could not be allocated.
pub open spec fn is_outcome(
    result: Result<RawBuffer, NegotiationError>,
    stride: usize,
    max_attempts: usize,
    log: Seq<Exchange>,
) -> bool {
    let last = log.len() - 1;
    match verdict(
        log[last].reply,
        capacity_at(log, last),
        stride,
        attempts_after(max_attempts, last),
    ) {
        Verdict::Filled => result matches Ok(buffer) && is_result_of(
            buffer,
            log[last].reply,
            stride,
        ),
        Verdict::Empty => result matches Ok(buffer) && buffer.is_blank(0, stride),
        Verdict::Unstable => result == Err::<RawBuffer, NegotiationError>(
            NegotiationError::Unstable,
        ),
        Verdict::Retry => result == Err::<RawBuffer, NegotiationError>(
            NegotiationError::AllocationFailure,
        ),
    }
}

/// `result` is something that a negotiation with `query` about `target` can
/// return: the outcome of a course that it can take.
pub open spec fn negotiates<T, Q: Fn(T, RawBuffer) -> QueryReply>(
    query: Q,
    target: T,
    stride: usize,
    max_attempts: usize,
    result: Result<RawBuffer, NegotiationError>,
) -> bool {
    exists|log: Seq<Exchange>| #[trigger]
        is_course(query, target, stride, max_attempts, log) && is_outcome(
            result,
            stride,
            max_attempts,
            log,
        )
}

/// Every reply that `query` can give to a call without a buffer asks for no
/// bytes.
pub open spec fn hints_nothing<T, Q: Fn(T, RawBuffer) -> QueryReply>(
    query: Q,
    target: T,
    stride: usize,
) -> bool {
    forall|request: RawBuffer, reply: QueryReply|
        request.is_blank(0, stride) && call_ensures(query, (target, request), reply)
            ==> reply.needed == 0
}

/// Runs the two-phase protocol with `query` as the native call, for elements
/// of `stride` bytes. Every call is handed `target`, which says what is asked
/// about, and a buffer.
///
/// The first call gets a buffer of no bytes and reports how many the answer
/// needs. Each further call gets a fresh zeroed buffer of exactly the size
/// that the reply before it reported; at most `max_attempts` such calls are
/// made. [`next_step`] decides after each reply.
///
/// The result is the buffer that a call filled, with the number of elements
/// that the call reported; an empty buffer where there is nothing to return;
/// `Unstable` where the answer still did not fit after the last attempt; and
/// `AllocationFailure` where a buffer could not be allocated.
pub fn negotiate<T: Copy, Q: Fn(T, RawBuffer) -> QueryReply>(
    query: &Q,
    target: T,
    stride: usize,
    max_attempts: usize,
) -> (result: Result<RawBuffer, NegotiationError>)
    requires
        forall|request: RawBuffer| call_requires(*query, (target, request)),
    ensures
        negotiates(*query, target, stride, max_attempts, result),
        result matches Ok(buffer) ==> buffer.wf() && buffer.stride == stride,
        hints_nothing(*query, target, stride) ==> (result matches Ok(buffer)
            && buffer.bytes@.len() == 0 && buffer.count * stride == 0),
{
    let mut buffer = RawBuffer::empty(stride);
    let mut capacity: usize = 0;
    let mut attempts_left: usize = max_attempts;
    let ghost mut log: Seq<Exchange> = Seq::empty();
    loop
        invariant
            forall|request: RawBuffer| call_requires(*query, (target, request)),
            buffer.is_blank(capacity as nat, stride),
            attempts_left <= max_attempts,
            log.len() == max_attempts - attempts_left,
            capacity == capacity_at(log, log.len() as int),
            log.len() > 0 ==> !hints_nothing(*query, target, stride),
            forall|i: int|
                0 <= i < log.len() ==> {
                    &&& (#[trigger] log[i]).request.is_blank(capacity_at(log, i) as nat, stride)
                    &&& call_ensures(*query, (target, log[i].request), log[i].reply)
                    &&& verdict(
                        log[i].reply,
                        capacity_at(log, i),
                        stride,
                        attempts_after(max_attempts, i),
                    ) is Retry
                },
        decreases attempts_left,
    {
        let ghost request = buffer;
        let reply = query(target, buffer);
        let ghost shown = reply;
        let ghost before = log;
        proof {
            log = before.push(Exchange { request, reply: shown });
        }
        match next_step(reply, capacity, stride, attempts_left) {
            NegotiationStep::Done(filled) => {
                proof {
                    assert(is_course(*query, target, stride, max_attempts, log));
                }
                return Ok(filled);
            },
            NegotiationStep::Failed(error) => {
                proof {
                    assert(is_course(*query, target, stride, max_attempts, log));
                }
                return Err(error);
            },
            NegotiationStep::Retry { capacity: needed } => {
                match alloc_s(needed, stride) {
                    None => {
                        proof {
                            assert(is_course(*query, target, stride, max_attempts, log));
                        }
                        return Err(NegotiationError::AllocationFailure);
                    },
                    Some(fresh) => {
                        buffer = fresh;
                        capacity = needed;
                        attempts_left = attempts_left - 1;
                    },
                }
            },
        }
    }
}

} // verus!

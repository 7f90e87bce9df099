//! The capability probe: which question to put to the device next, and what
//! its bins are once the last answer is in.
//!
//! The probe asks for the number of bins, then for the bin identifiers, then
//! for the table of bin names, and stops early as soon as an answer shows
//! that the rest cannot be trusted.

use crate::common::base::device_capabilities::{CapabilitiesView, DeviceCapabilities};
use crate::windows::utils::memory::RawBuffer;
use crate::windows::utils::strings::{bytes_to_string, units_of, wide_text};
use libc::{c_int, c_ushort};
use vstd::prelude::*;
use vstd::slice::slice_subrange;

verus! {

/// Native code of the capability "bins".
pub const DC_BINS: c_ushort = 6;

/// Native code of the capability "bin names".
pub const DC_BINNAMES: c_ushort = 12;

/// Bytes of one bin identifier.
pub const BIN_ID_BYTES: usize = 2;

/// Text units in one slot of the table of bin names.
pub const BIN_NAME_UNITS: usize = 24;

/// Bytes of one slot of the table of bin names.
pub const BIN_NAME_BYTES: usize = 48;

/// Largest number of bins that a device can report.
pub const MAX_BINS: u64 = 0x7fff_ffff;

/// The question put to the device.
#[derive(Debug, Clone, Copy, PartialEq, Eq, Structural)]
pub enum CapabilityQueryKind {
    /// How many bins are there? Asked without a buffer.
    BinCount,
    /// Which identifiers do the bins have?
    BinIds,
    /// Which names do the bins have?
    BinNames,
}

/// What the device answered: a count, or a negative number where it does not
/// support the question, and the buffer that was handed to it.
pub struct CapabilityReply {
    pub count: c_int,
    pub buffer: RawBuffer,
}

/// A question together with the size of the buffer that goes with it.
#[derive(Debug, Clone, Copy, PartialEq, Eq, Structural)]
pub struct CapabilityRequest {
    pub kind: CapabilityQueryKind,
    pub size: u64,
}

/// Where a probe stands.
pub enum ProbeState {
    /// The number of bins is to be asked for.
    QueryBinCount,
    /// The identifiers of `bin_count` bins are to be asked for.
    QueryBinIds { bin_count: u64 },
    /// The names of `bin_count` bins are to be asked for.
    QueryBinNames { bin_count: u64 },
    /// Every answer was usable.
    Done(DeviceCapabilities),
    /// The device does not report its bins, or not their identifiers.
    Unsupported(DeviceCapabilities),
    /// The bins are known but their names are not.
    PartialResult(DeviceCapabilities),
}

/// What a [`ProbeState`] says.
pub enum ProbeView {
    QueryBinCount,
    QueryBinIds { bin_count: nat },
    QueryBinNames { bin_count: nat },
    Done(CapabilitiesView),
    Unsupported(CapabilitiesView),
    PartialResult(CapabilitiesView),
}

impl View for ProbeState {
    type V = ProbeView;

    open spec fn view(&self) -> ProbeView {
        match *self {
            ProbeState::QueryBinCount => ProbeView::QueryBinCount,
            ProbeState::QueryBinIds { bin_count } => ProbeView::QueryBinIds {
                bin_count: bin_count as nat,
            },
            ProbeState::QueryBinNames { bin_count } => ProbeView::QueryBinNames {
                bin_count: bin_count as nat,
            },
            ProbeState::Done(capabilities) => ProbeView::Done(capabilities@),
            ProbeState::Unsupported(capabilities) => ProbeView::Unsupported(capabilities@),
            ProbeState::PartialResult(capabilities) => ProbeView::PartialResult(capabilities@),
        }
    }
}

/// The name in slot `index` of a table of bin names.
pub open spec fn bin_name_at(table: Seq<u8>, index: int) -> Seq<char> {
    wide_text(units_of(table.subrange(index * BIN_NAME_BYTES, (index + 1) * BIN_NAME_BYTES)))
}

/// The names in the first `bin_count` slots of a table of bin names, each
/// slot decoded by itself.
pub open spec fn bin_names_of(table: Seq<u8>, bin_count: nat) -> Seq<Seq<char>> {
    Seq::new(bin_count, |index: int| bin_name_at(table, index))
}

impl ProbeView {
    /// A state that asks for identifiers or names does so for at least one
    /// bin and for no more than a device can report; a state that holds
    /// capabilities holds well-formed ones.
    pub open spec fn wf(self) -> bool {
        match self {
            ProbeView::QueryBinCount => true,
            ProbeView::QueryBinIds { bin_count } => 0 < bin_count <= MAX_BINS,
            ProbeView::QueryBinNames { bin_count } => 0 < bin_count <= MAX_BINS,
            ProbeView::Done(capabilities) => capabilities.wf(),
            ProbeView::Unsupported(capabilities) => capabilities.wf(),
            ProbeView::PartialResult(capabilities) => capabilities.wf(),
        }
    }

    /// The question that this state asks, with the size in bytes of the
    /// zeroed buffer that goes with it. A state that asks nothing is final.
    pub open spec fn pending(self) -> Option<(CapabilityQueryKind, nat)> {
        match self {
            ProbeView::QueryBinCount => Some((CapabilityQueryKind::BinCount, 0nat)),
            ProbeView::QueryBinIds { bin_count } => Some(
                (CapabilityQueryKind::BinIds, bin_count * BIN_ID_BYTES as nat),
            ),
            ProbeView::QueryBinNames { bin_count } => Some(
                (CapabilityQueryKind::BinNames, bin_count * BIN_NAME_BYTES as nat),
            ),
            _ => None,
        }
    }

    /// The capabilities that a final state holds.
    pub open spec fn capabilities(self) -> CapabilitiesView {
        match self {
            ProbeView::Done(capabilities) => capabilities,
            ProbeView::Unsupported(capabilities) => capabilities,
            ProbeView::PartialResult(capabilities) => capabilities,
            _ => CapabilitiesView::unnamed(0),
        }
    }

    /// The state that follows when the pending question is answered with
    /// `count` and the buffer comes back holding `table`.
    ///
    /// A negative bin count means that the device does not report bins. No
    /// bins at all end the probe at once. A count of identifiers other than
    /// the bin count ends it without names, and so does a count of names
    /// other than the bin count, or a table of another size than was handed
    /// out. A final state stays as it is.
    pub open spec fn next(self, count: int, table: Seq<u8>) -> ProbeView {
        match self {
            ProbeView::QueryBinCount => if count < 0 {
                ProbeView::Unsupported(CapabilitiesView::unnamed(0))
            } else if count == 0 {
                ProbeView::Done(CapabilitiesView::unnamed(0))
            } else {
                ProbeView::QueryBinIds { bin_count: count as nat }
            },
            ProbeView::QueryBinIds { bin_count } => if count == bin_count {
                ProbeView::QueryBinNames { bin_count }
            } else {
                ProbeView::Unsupported(CapabilitiesView::unnamed(bin_count))
            },
            ProbeView::QueryBinNames { bin_count } => if count == bin_count && table.len()
                == bin_count * BIN_NAME_BYTES {
                ProbeView::Done(
                    CapabilitiesView { bin_count, bin_names: bin_names_of(table, bin_count) },
                )
            } else {
                ProbeView::PartialResult(CapabilitiesView::unnamed(bin_count))
            },
            _ => self,
        }
    }
}

/// Bytes of one element of the answer to a question of `kind`.
pub open spec fn stride_of(kind: CapabilityQueryKind) -> usize {
    match kind {
        CapabilityQueryKind::BinCount => 1usize,
        CapabilityQueryKind::BinIds => BIN_ID_BYTES,
        CapabilityQueryKind::BinNames => BIN_NAME_BYTES,
    }
}

impl CapabilityQueryKind {
    /// The native code under which the question is asked. The identifiers are
    /// asked for under the same code as the count, with a buffer.
    pub fn code(&self) -> (code: c_ushort)
        ensures
            code == (match *self {
                CapabilityQueryKind::BinCount => DC_BINS,
                CapabilityQueryKind::BinIds => DC_BINS,
                CapabilityQueryKind::BinNames => DC_BINNAMES,
            }),
    {
        match self {
            CapabilityQueryKind::BinCount => DC_BINS,
            CapabilityQueryKind::BinIds => DC_BINS,
            CapabilityQueryKind::BinNames => DC_BINNAMES,
        }
    }

    /// Bytes of one element of the answer.
    pub fn stride(&self) -> (stride: usize)
        ensures
            stride == stride_of(*self),
    {
        match self {
            CapabilityQueryKind::BinCount => 1,
            CapabilityQueryKind::BinIds => BIN_ID_BYTES,
            CapabilityQueryKind::BinNames => BIN_NAME_BYTES,
        }
    }
}

/// Decodes the name in slot `index` of a table of bin names. A slot without
/// a terminator is taken whole; an empty or malformed slot gives the empty
/// string.
pub fn decode_bin_name(table: &[u8], index: usize) -> (name: String)
    requires
        (index + 1) * BIN_NAME_BYTES <= table@.len(),
    ensures
        name@ == bin_name_at(table@, index as int),
{
    assert(table@.len() == table.len());
    let start: usize = index * BIN_NAME_BYTES;
    let slot = slice_subrange(table, start, start + BIN_NAME_BYTES);
    bytes_to_string(slot)
}

/// Decodes the first `bin_count` slots of a table of bin names, each by
/// itself, so that name `i` belongs to bin `i` whatever the other slots hold.
pub fn decode_bin_names(table: &[u8], bin_count: usize) -> (names: Vec<String>)
    requires
        bin_count * BIN_NAME_BYTES <= table@.len(),
    ensures
        names.deep_view() == bin_names_of(table@, bin_count as nat),
        names@.len() == bin_count,
{
    let mut names: Vec<String> = Vec::new();
    let mut index: usize = 0;
    while index < bin_count
        invariant
            index <= bin_count,
            bin_count * BIN_NAME_BYTES <= table@.len(),
            names@.len() == index,
            forall|i: int| 0 <= i < index ==> (#[trigger] names@[i])@ == bin_name_at(table@, i),
        decreases bin_count - index,
    {
        let name = decode_bin_name(table, index);
        names.push(name);
        index = index + 1;
    }
    names
}

impl ProbeState {
    /// See [`ProbeView::wf`].
    pub open spec fn wf(&self) -> bool {
        self@.wf()
    }

    /// The state in which every probe starts.
    pub fn start() -> (state: ProbeState)
        ensures
            state@ == ProbeView::QueryBinCount,
            state.wf(),
    {
        ProbeState::QueryBinCount
    }

    /// The question to ask in this state, or `None` where the probe is over.
    pub fn pending(&self) -> (request: Option<CapabilityRequest>)
        requires
            self.wf(),
        ensures
            match self@.pending() {
                Some((kind, size)) => request == Some(CapabilityRequest { kind, size: size as u64 })
                    && size <= u64::MAX,
                None => request is None,
            },
    {
        match self {
            ProbeState::QueryBinCount => Some(
                CapabilityRequest { kind: CapabilityQueryKind::BinCount, size: 0 },
            ),
            ProbeState::QueryBinIds { bin_count } => Some(
                CapabilityRequest {
                    kind: CapabilityQueryKind::BinIds,
                    size: *bin_count * (BIN_ID_BYTES as u64),
                },
            ),
            ProbeState::QueryBinNames { bin_count } => Some(
                CapabilityRequest {
                    kind: CapabilityQueryKind::BinNames,
                    size: *bin_count * (BIN_NAME_BYTES as u64),
                },
            ),
            _ => None,
        }
    }

    /// Takes the answer to the pending question and moves on.
    pub fn advance(self, reply: CapabilityReply) -> (next: ProbeState)
        requires
            self.wf(),
        ensures
            next@ == self@.next(reply.count as int, reply.buffer.bytes@),
            next.wf(),
    {
        match self {
            ProbeState::QueryBinCount => {
                if reply.count < 0 {
                    ProbeState::Unsupported(DeviceCapabilities::unnamed(0))
                } else if reply.count == 0 {
                    ProbeState::Done(DeviceCapabilities::unnamed(0))
                } else {
                    ProbeState::QueryBinIds { bin_count: reply.count as u64 }
                }
            },
            ProbeState::QueryBinIds { bin_count } => {
                if reply.count > 0 && reply.count as u64 == bin_count {
                    ProbeState::QueryBinNames { bin_count }
                } else {
                    ProbeState::Unsupported(DeviceCapabilities::unnamed(bin_count))
                }
            },
            ProbeState::QueryBinNames { bin_count } => {
                let slot_bytes: u64 = BIN_NAME_BYTES as u64;
                if reply.count > 0 && reply.count as u64 == bin_count && reply.buffer.len() as u64
                    == bin_count * slot_bytes {
                    let names = decode_bin_names(reply.buffer.bytes.as_slice(), bin_count as usize);
                    ProbeState::Done(DeviceCapabilities::new(bin_count, names))
                } else {
                    ProbeState::PartialResult(DeviceCapabilities::unnamed(bin_count))
                }
            },
            ProbeState::Done(capabilities) => ProbeState::Done(capabilities),
            ProbeState::Unsupported(capabilities) => ProbeState::Unsupported(capabilities),
            ProbeState::PartialResult(capabilities) => ProbeState::PartialResult(capabilities),
        }
    }

    /// Ends the probe: the capabilities of a final state, and `None` while a
    /// question is still pending.
    pub fn finish(self) -> (capabilities: Option<DeviceCapabilities>)
        ensures
            match capabilities {
                Some(found) => self@.pending() is None && found@ == self@.capabilities(),
                None => self@.pending() is Some,
            },
            self.wf() ==> (capabilities matches Some(found) ==> found.wf()),
    {
        match self {
            ProbeState::Done(capabilities) => Some(capabilities),
            ProbeState::Unsupported(capabilities) => Some(capabilities),
            ProbeState::PartialResult(capabilities) => Some(capabilities),
            _ => None,
        }
    }
}

/// One question put to the device: its kind, the buffer that went with it,
/// and what the device answered.
pub struct CapabilityExchange {
    pub kind: CapabilityQueryKind,
    pub request: RawBuffer,
    pub reply: CapabilityReply,
}

/// The state of a probe that has seen the answers in `log`, in order.
pub open spec fn state_after(log: Seq<CapabilityExchange>) -> ProbeView
    decreases log.len(),
{
    if log.len() == 0 {
        ProbeView::QueryBinCount
    } else {
        state_after(log.drop_last()).next(
            log.last().reply.count as int,
            log.last().reply.buffer.bytes@,
        )
    }
}

/// `exchange` puts the question that is pending in `state`, with a zeroed
/// buffer of the size that goes with it.
pub open spec fn asks_pending(state: ProbeView, exchange: CapabilityExchange) -> bool {
    match state.pending() {
        Some((kind, size)) => exchange.kind == kind && exchange.request.is_blank(
            size,
            stride_of(kind),
        ),
        None => false,
    }
}

/// Every question in `log` is the one that was pending after the answers
/// before it: `log` is the course of one probe, complete or not.
pub open spec fn follows_protocol(log: Seq<CapabilityExchange>) -> bool {
    forall|i: int| 0 <= i < log.len() ==> asks_pending(state_after(log.take(i)), #[trigger] log[i])
}

/// Where `first` and `second` put the same question with the same buffer,
/// they got the same answer.
pub open spec fn answers_alike(first: CapabilityExchange, second: CapabilityExchange) -> bool {
    first.kind == second.kind && first.request.bytes@ == second.request.bytes@ ==> {
        &&& first.reply.count == second.reply.count
        &&& first.reply.buffer.bytes@ == second.reply.buffer.bytes@
    }
}

/// The device did not change between the probes `first` and `second`: the
/// same question with the same buffer got the same answer in both.
pub open spec fn same_answers(first: Seq<CapabilityExchange>, second: Seq<CapabilityExchange>)
    -> bool {
    forall|i: int, j: int|
        0 <= i < first.len() && 0 <= j < second.len() ==> #[trigger] answers_alike(
            first[i],
            second[j],
        )
}

/// Steps that a probe in `state` can still take.
pub open spec fn steps_left(state: ProbeView) -> nat {
    match state {
        ProbeView::QueryBinCount => 3,
        ProbeView::QueryBinIds { .. } => 2,
        ProbeView::QueryBinNames { .. } => 1,
        _ => 0,
    }
}

/// Whatever the device answers, a probe is in a well-formed state; so the
/// capabilities it ends with have either no names or one name for each bin.
pub proof fn lemma_probe_state_wf(log: Seq<CapabilityExchange>)
    ensures
        state_after(log).wf(),
        state_after(log).capabilities().wf(),
    decreases log.len(),
{
    if log.len() > 0 {
        lemma_probe_state_wf(log.drop_last());
    }
}

/// A probe puts at most three questions, the first of which asks for the
/// number of bins without a buffer.
pub proof fn lemma_probe_length(log: Seq<CapabilityExchange>)
    requires
        follows_protocol(log),
    ensures
        log.len() + steps_left(state_after(log)) <= 3,
        log.len() > 0 ==> log[0].kind == CapabilityQueryKind::BinCount,
    decreases log.len(),
{
    if log.len() > 0 {
        let before = log.drop_last();
        assert forall|i: int| 0 <= i < before.len() implies asks_pending(
            state_after(before.take(i)),
            #[trigger] before[i],
        ) by {
            assert(before.take(i) =~= log.take(i));
        }
        lemma_probe_length(before);
    }
}

/// A device that reports no bins is not asked for bin identifiers or for bin
/// names: a probe puts such a question only after the count query was
/// answered with a positive number, and a probe that ends with no bins has
/// put the count query alone.
pub proof fn lemma_no_bins_no_further_query(log: Seq<CapabilityExchange>)
    requires
        follows_protocol(log),
        log.len() > 0,
    ensures
        forall|i: int|
            0 <= i < log.len() && (#[trigger] log[i]).kind != CapabilityQueryKind::BinCount
                ==> log[0].reply.count > 0,
        log[0].reply.count <= 0 ==> log.len() == 1,
        state_after(log).pending() is None && state_after(log).capabilities().bin_count == 0
            ==> log.len() == 1,
{
    lemma_probe_length(log);
    let first = log.take(1);
    assert(first.drop_last() =~= Seq::<CapabilityExchange>::empty());
    assert(log.take(0) =~= Seq::<CapabilityExchange>::empty());
    if log.len() >= 2 {
        assert(log.take(2).drop_last() =~= first);
    }
}

/// Two probes of a device that did not change in between end in the same
/// state, and so report the same capabilities.
pub proof fn lemma_probe_repeatable(
    first: Seq<CapabilityExchange>,
    second: Seq<CapabilityExchange>,
)
    requires
        follows_protocol(first),
        follows_protocol(second),
        state_after(first).pending() is None,
        state_after(second).pending() is None,
        same_answers(first, second),
    ensures
        first.len() == second.len(),
        state_after(first) == state_after(second),
        state_after(first).capabilities() == state_after(second).capabilities(),
{
    let shared: int = if first.len() <= second.len() {
        first.len() as int
    } else {
        second.len() as int
    };
    lemma_same_prefix(first, second, shared);
    assert(first.take(first.len() as int) =~= first);
    assert(second.take(second.len() as int) =~= second);
    if shared < second.len() {
        assert(asks_pending(state_after(second.take(shared)), second[shared]));
    }
    if shared < first.len() {
        assert(asks_pending(state_after(first.take(shared)), first[shared]));
    }
}

/// Two probes of a device that did not change are in the same state after
/// the same number of answers.
pub proof fn lemma_same_prefix(
    first: Seq<CapabilityExchange>,
    second: Seq<CapabilityExchange>,
    len: int,
)
    requires
        follows_protocol(first),
        follows_protocol(second),
        same_answers(first, second),
        0 <= len <= first.len(),
        len <= second.len(),
    ensures
        state_after(first.take(len)) == state_after(second.take(len)),
    decreases len,
{
    if len > 0 {
        lemma_same_prefix(first, second, len - 1);
        assert(answers_alike(first[len - 1], second[len - 1]));
        assert(first.take(len).drop_last() =~= first.take(len - 1));
        assert(second.take(len).drop_last() =~= second.take(len - 1));
    }
}

} // verus!

//! Printers and their bins, as the spooler reports them.
//!
//! The native calls are handed in as functions. Each takes what is asked
//! about and the buffer to fill, and gives the buffer back with its reply.

#![allow(non_snake_case)]
#![allow(non_camel_case_types)]

use crate::common::base::device_capabilities::DeviceCapabilities;
use crate::common::traits::platform::{PlatformDeviceCapabilitiesGetters, PlatformPrinterGetters};
use crate::windows::utils::memory::{alloc_s, dealloc_s, RawBuffer};
use crate::windows::utils::strings::{
    decimal_string,
    decimal_text,
    read_units,
    terminator_index,
    text_end,
    text_units,
    units_of,
    wchar_t_to_string,
    wide_text,
    TEXT_UNIT_BYTES,
};
use crate::windows::winspool::negotiation::{
    hints_nothing,
    negotiate,
    negotiates,
    NegotiationError,
    QueryReply,
};
use crate::windows::winspool::probe::{
    answers_alike,
    asks_pending,
    follows_protocol,
    lemma_no_bins_no_further_query,
    lemma_probe_repeatable,
    state_after,
    steps_left,
    CapabilityExchange,
    CapabilityQueryKind,
    CapabilityReply,
    ProbeState,
    ProbeView,
};
use vstd::prelude::*;

verus! {

/// Calls with a buffer that a negotiation makes before it gives up.
pub const MAX_ATTEMPTS: usize = 2;

/// Bit of `Attributes` that marks a shared printer.
pub const PRINTER_ATTRIBUTE_SHARED: u32 = 0x0000_0008;

/// One printer of the spooler's list, copied out of the enumeration buffer.
/// Text fields hold the text units as the spooler wrote them; the text of a
/// field stops at its first zero unit, if it has one.
#[derive(Debug)]
pub struct PRINTER_INFO_2W {
    pub pPrinterName: Vec<u16>,
    pub pPortName: Vec<u16>,
    pub pDriverName: Vec<u16>,
    pub pComment: Vec<u16>,
    pub pLocation: Vec<u16>,
    pub pPrintProcessor: Vec<u16>,
    pub pDatatype: Vec<u16>,
    pub Attributes: u32,
    pub Status: u32,
}

impl Clone for PRINTER_INFO_2W {
    fn clone(&self) -> (copy: Self)
        ensures
            copy.pPrinterName@ == self.pPrinterName@,
            copy.pPortName@ == self.pPortName@,
            copy.pDriverName@ == self.pDriverName@,
            copy.pComment@ == self.pComment@,
            copy.pLocation@ == self.pLocation@,
            copy.pPrintProcessor@ == self.pPrintProcessor@,
            copy.pDatatype@ == self.pDatatype@,
            copy.Attributes == self.Attributes,
            copy.Status == self.Status,
    {
        PRINTER_INFO_2W {
            pPrinterName: self.pPrinterName.clone(),
            pPortName: self.pPortName.clone(),
            pDriverName: self.pDriverName.clone(),
            pComment: self.pComment.clone(),
            pLocation: self.pLocation.clone(),
            pPrintProcessor: self.pPrintProcessor.clone(),
            pDatatype: self.pDatatype.clone(),
            Attributes: self.Attributes,
            Status: self.Status,
        }
    }
}

/// Lists the printers that the spooler knows under the filter `name` (all of
/// them for `None`), by the two-phase protocol with `query` as the native
/// call and at most [`MAX_ATTEMPTS`] calls with a buffer.
///
/// The result holds the records as the spooler wrote them, `record_size`
/// bytes each. No printer at all is an empty buffer and no error. There is
/// no partial list: either a call filled the buffer, or the result is an
/// error.
pub fn enum_printers<'a, Q: Fn(Option<&'a str>, RawBuffer) -> QueryReply>(
    name: Option<&'a str>,
    record_size: usize,
    query: &Q,
) -> (result: Result<RawBuffer, NegotiationError>)
    requires
        forall|request: RawBuffer| call_requires(*query, (name, request)),
    ensures
        negotiates(*query, name, record_size, MAX_ATTEMPTS, result),
        result matches Ok(buffer) ==> buffer.wf() && buffer.stride == record_size,
        hints_nothing(*query, name, record_size) ==> (result matches Ok(buffer)
            && buffer.bytes@.len() == 0 && buffer.count * record_size == 0),
{
    negotiate(query, name, record_size, MAX_ATTEMPTS)
}

/// `log` is a course that a probe of `printer` with `query` can take: every
/// question is the one that the protocol prescribes, and every answer is one
/// that `query` can give to it.
pub open spec fn is_probe<Q>(
    query: Q,
    printer: &PRINTER_INFO_2W,
    log: Seq<CapabilityExchange>,
) -> bool where Q: Fn(&PRINTER_INFO_2W, CapabilityQueryKind, RawBuffer) -> CapabilityReply {
    &&& log.len() >= 1
    &&& follows_protocol(log)
    &&& forall|i: int|
        0 <= i < log.len() ==> call_ensures(
            query,
            (printer, (#[trigger] log[i]).kind, log[i].request),
            log[i].reply,
        )
}

/// `result` is what a probe returns when `log` is the course it took: the
/// capabilities of the state it ended in, found after the count query alone
/// where there is no bin; or `AllocationFailure` where the buffer for the
/// next question could not be allocated.
pub open spec fn is_probe_outcome(
    result: Result<DeviceCapabilities, NegotiationError>,
    log: Seq<CapabilityExchange>,
) -> bool {
    match result {
        Ok(capabilities) => {
            &&& state_after(log).pending() is None
            &&& capabilities@ == state_after(log).capabilities()
            &&& capabilities.bin_count == 0 ==> log.len() == 1
        },
        Err(error) => {
            &&& error == NegotiationError::AllocationFailure
            &&& state_after(log).pending() is Some
        },
    }
}

/// `result` is something that a probe of `printer` with `query` can return:
/// the outcome of a course that it can take.
pub open spec fn probes<Q>(
    query: Q,
    printer: &PRINTER_INFO_2W,
    result: Result<DeviceCapabilities, NegotiationError>,
) -> bool where Q: Fn(&PRINTER_INFO_2W, CapabilityQueryKind, RawBuffer) -> CapabilityReply {
    exists|log: Seq<CapabilityExchange>| #[trigger]
        is_probe(query, printer, log) && is_probe_outcome(result, log)
}

/// The bin count that the getters report for the outcome of a probe: that of
/// the capabilities found, and none where the probe failed.
pub open spec fn reported_bin_count(result: Result<DeviceCapabilities, NegotiationError>) -> u64 {
    match result {
        Ok(capabilities) => capabilities.bin_count,
        Err(_) => 0,
    }
}

/// The bin names that the getters report for the outcome of a probe: those
/// of the capabilities found, and none where the probe failed.
pub open spec fn reported_bin_names(result: Result<DeviceCapabilities, NegotiationError>) -> Seq<
    Seq<char>,
> {
    match result {
        Ok(capabilities) => capabilities@.bin_names,
        Err(_) => Seq::empty(),
    }
}

/// Finds the bins of `printer`, with `query` as the native call.
///
/// The device is asked for the number of bins, without a buffer. A negative
/// answer means that it does not report bins: the result is no bin and no
/// name. No bins end the probe at once. Otherwise the device is asked for
/// the bin identifiers, with a zeroed buffer of two bytes for each bin; if it
/// does not report as many identifiers as bins, the result is the bin count
/// without names, and the names are not asked for. Otherwise it is asked for
/// the bin names, with a zeroed buffer of one slot for each bin; if it
/// reports as many names as bins, each slot is decoded by itself, and else
/// the result is the bin count without names.
///
/// The buffers are released before the function returns. The only error is
/// `AllocationFailure`, where a buffer could not be allocated.
pub fn get_device_capabilities<Q>(printer: &PRINTER_INFO_2W, query: &Q) -> (result: Result<
    DeviceCapabilities,
    NegotiationError,
>) where Q: Fn(&PRINTER_INFO_2W, CapabilityQueryKind, RawBuffer) -> CapabilityReply
    requires
        forall|kind: CapabilityQueryKind, request: RawBuffer|
            call_requires(*query, (printer, kind, request)),
    ensures
        probes(*query, printer, result),
        result matches Ok(capabilities) ==> capabilities.wf(),
{
    let mut state = ProbeState::start();
    let ghost mut log: Seq<CapabilityExchange> = Seq::empty();
    loop
        invariant
            forall|kind: CapabilityQueryKind, request: RawBuffer|
                call_requires(*query, (printer, kind, request)),
            state.wf(),
            state@ == state_after(log),
            follows_protocol(log),
            log.len() == 0 ==> state@ == ProbeView::QueryBinCount,
            forall|i: int|
                0 <= i < log.len() ==> call_ensures(
                    *query,
                    (printer, (#[trigger] log[i]).kind, log[i].request),
                    log[i].reply,
                ),
        ensures
            state@.pending() is None,
        decreases steps_left(state@),
    {
        let request = match state.pending() {
            Some(request) => request,
            None => {
                break ;
            },
        };
        if request.size > usize::MAX as u64 {
            proof {
                assert(is_probe(*query, printer, log));
            }
            return Err(NegotiationError::AllocationFailure);
        }
        let buffer = match alloc_s(request.size as usize, request.kind.stride()) {
            Some(buffer) => buffer,
            None => {
                return Err(NegotiationError::AllocationFailure);
            },
        };
        let ghost shown_request = buffer;
        let reply = query(printer, request.kind, buffer);
        let ghost exchange = CapabilityExchange {
            kind: request.kind,
            request: shown_request,
            reply,
        };
        let ghost before = log;
        proof {
            log = before.push(exchange);
            assert forall|i: int| 0 <= i < log.len() implies asks_pending(
                state_after(log.take(i)),
                #[trigger] log[i],
            ) by {
                if i < before.len() {
                    assert(log.take(i) =~= before.take(i));
                } else {
                    assert(log.take(i) =~= before);
                }
            }
        }
        state = state.advance(reply);
    }
    match state.finish() {
        Some(capabilities) => {
            proof {
                if capabilities.bin_count == 0 {
                    lemma_no_bins_no_further_query(log);
                }
                assert(is_probe(*query, printer, log));
            }
            Ok(capabilities)
        },
        None => Err(NegotiationError::AllocationFailure),
    }
}

/// The device behind `query` does not change: asked the same question about
/// `printer` with buffers of the same content, it gives the same count and
/// leaves the same bytes in the buffer.
pub open spec fn is_steady<Q>(query: Q, printer: &PRINTER_INFO_2W) -> bool where
    Q: Fn(&PRINTER_INFO_2W, CapabilityQueryKind, RawBuffer) -> CapabilityReply,
 {
    forall|
        kind: CapabilityQueryKind,
        first: RawBuffer,
        second: RawBuffer,
        one: CapabilityReply,
        other: CapabilityReply,
    |
        #![trigger
            call_ensures(query, (printer, kind, first), one),
            call_ensures(query, (printer, kind, second), other),
        ]
        call_ensures(query, (printer, kind, first), one) && call_ensures(
            query,
            (printer, kind, second),
            other,
        ) && first.bytes@ == second.bytes@ ==> one.count == other.count && one.buffer.bytes@
            == other.buffer.bytes@
}

/// Two probes of a device that does not change find the same capabilities.
pub proof fn lemma_probes_agree<Q>(
    query: Q,
    printer: &PRINTER_INFO_2W,
    first: DeviceCapabilities,
    second: DeviceCapabilities,
) where Q: Fn(&PRINTER_INFO_2W, CapabilityQueryKind, RawBuffer) -> CapabilityReply
    requires
        is_steady(query, printer),
        probes(query, printer, Ok(first)),
        probes(query, printer, Ok(second)),
    ensures
        first@ == second@,
{
    let first_log = choose|log: Seq<CapabilityExchange>| #[trigger]
        is_probe(query, printer, log) && is_probe_outcome(Ok(first), log);
    let second_log = choose|log: Seq<CapabilityExchange>| #[trigger]
        is_probe(query, printer, log) && is_probe_outcome(Ok(second), log);
    assert forall|i: int, j: int|
        0 <= i < first_log.len() && 0 <= j < second_log.len() implies #[trigger] answers_alike(
        first_log[i],
        second_log[j],
    ) by {}
    lemma_probe_repeatable(first_log, second_log);
}

/// Releases the buffer of an enumeration. The records in it are gone with
/// it: whatever is still needed has to be copied out before.
pub fn free(printers: RawBuffer) {
    if printers.len() > 0 {
        dealloc_s(printers);
    }
}

/// Two identifiers are the same where their texts agree unit by unit.
pub open spec fn same_identifier(left: Seq<u16>, right: Seq<u16>) -> bool {
    text_units(left) == text_units(right)
}

/// Printer `index` is the first of `printers` whose name is `identifier`.
pub open spec fn is_first_match(
    printers: Seq<PRINTER_INFO_2W>,
    identifier: Seq<u16>,
    index: int,
) -> bool {
    &&& 0 <= index < printers.len()
    &&& same_identifier(printers[index].pPrinterName@, identifier)
    &&& forall|i: int|
        0 <= i < index ==> !same_identifier((#[trigger] printers[i]).pPrinterName@, identifier)
}

/// `found` is the default printer among `printers` when the default
/// identifier is `identifier`: the first printer that bears it, and none
/// where no printer does.
pub open spec fn is_default_among(
    found: Option<&PRINTER_INFO_2W>,
    printers: Seq<PRINTER_INFO_2W>,
    identifier: Seq<u16>,
) -> bool {
    match found {
        Some(printer) => exists|index: int| #[trigger]
            is_first_match(printers, identifier, index) && *printer == printers[index],
        None => forall|i: int|
            0 <= i < printers.len() ==> !same_identifier(
                (#[trigger] printers[i]).pPrinterName@,
                identifier,
            ),
    }
}

/// Tells whether two identifiers are the same: whether their texts, each up
/// to its first zero unit, agree unit by unit.
pub fn identifiers_match(left: &[u16], right: &[u16]) -> (same: bool)
    ensures
        same == same_identifier(left@, right@),
{
    let end: usize = terminator_index(left);
    if terminator_index(right) != end {
        return false;
    }
    let mut index: usize = 0;
    while index < end
        invariant
            index <= end,
            end == text_end(left@),
            end == text_end(right@),
            end <= left@.len(),
            end <= right@.len(),
            forall|i: int| 0 <= i < index ==> left@[i] == right@[i],
        decreases end - index,
    {
        if left[index] != right[index] {
            assert(text_units(left@)[index as int] != text_units(right@)[index as int]);
            return false;
        }
        index = index + 1;
    }
    assert(text_units(left@) =~= text_units(right@));
    true
}

/// Picks the default printer out of `printers`: the first whose name is
/// `default_identifier`. Where the identifier names none of them, as after
/// the default printer was removed, there is no default.
pub fn find_default_printer<'a>(
    printers: &'a [PRINTER_INFO_2W],
    default_identifier: &[u16],
) -> (found: Option<&'a PRINTER_INFO_2W>)
    ensures
        is_default_among(found, printers@, default_identifier@),
{
    let mut index: usize = 0;
    while index < printers.len()
        invariant
            index <= printers@.len(),
            forall|i: int|
                0 <= i < index ==> !same_identifier(
                    (#[trigger] printers@[i]).pPrinterName@,
                    default_identifier@,
                ),
        decreases printers@.len() - index,
    {
        let printer = &printers[index];
        if identifiers_match(printer.pPrinterName.as_slice(), default_identifier) {
            assert(is_first_match(printers@, default_identifier@, index as int));
            return Some(printer);
        }
        index = index + 1;
    }
    None
}

/// `result` is what the query for the default identifier returns when the
/// negotiation behind it ended with `negotiated`: the text units in the
/// buffer, or the error.
pub open spec fn is_identifier_of(
    result: Result<Vec<u16>, NegotiationError>,
    negotiated: Result<RawBuffer, NegotiationError>,
) -> bool {
    match negotiated {
        Ok(buffer) => result matches Ok(identifier) && identifier@ == units_of(buffer.bytes@),
        Err(error) => result == Err::<Vec<u16>, NegotiationError>(error),
    }
}

/// `result` is something that the query for the default identifier can
/// return with `query` as the native call: what it makes of the outcome of a
/// negotiation for text units with at most [`MAX_ATTEMPTS`] buffers.
pub open spec fn names_default<Q: Fn((), RawBuffer) -> QueryReply>(
    query: Q,
    result: Result<Vec<u16>, NegotiationError>,
) -> bool {
    exists|negotiated: Result<RawBuffer, NegotiationError>| #[trigger]
        negotiates(query, (), TEXT_UNIT_BYTES, MAX_ATTEMPTS, negotiated) && is_identifier_of(
            result,
            negotiated,
        )
}

/// Asks the spooler for the identifier of the default printer, by the
/// two-phase protocol with `query` as the native call: the size of the
/// identifier is not known before the first call.
///
/// The result holds the text units that the spooler wrote. An empty buffer,
/// which is no error, gives no unit at all.
pub fn get_default_identifier<Q: Fn((), RawBuffer) -> QueryReply>(query: &Q) -> (result: Result<
    Vec<u16>,
    NegotiationError,
>)
    requires
        forall|request: RawBuffer| call_requires(*query, ((), request)),
    ensures
        names_default(*query, result),
{
    match negotiate(query, (), TEXT_UNIT_BYTES, MAX_ATTEMPTS) {
        Ok(buffer) => Ok(read_units(buffer.bytes.as_slice())),
        Err(error) => Err(error),
    }
}

/// `result` is what the search for the default printer returns when the
/// query for the default identifier ended with `identifier`.
pub open spec fn is_default_of(
    result: Result<Option<&PRINTER_INFO_2W>, NegotiationError>,
    printers: Seq<PRINTER_INFO_2W>,
    identifier: Result<Vec<u16>, NegotiationError>,
) -> bool {
    match identifier {
        Ok(units) => result matches Ok(found) && is_default_among(found, printers, units@),
        Err(error) => result == Err::<Option<&PRINTER_INFO_2W>, NegotiationError>(error),
    }
}

/// Finds the default printer among `printers`: asks the spooler for the
/// default identifier with `query`, and picks the first printer that bears
/// it. An identifier that none of them bears gives `Ok(None)`; only a failed
/// negotiation is an error.
pub fn get_default_printer<'a, Q: Fn((), RawBuffer) -> QueryReply>(
    printers: &'a [PRINTER_INFO_2W],
    query: &Q,
) -> (result: Result<Option<&'a PRINTER_INFO_2W>, NegotiationError>)
    requires
        forall|request: RawBuffer| call_requires(*query, ((), request)),
    ensures
        exists|identifier: Result<Vec<u16>, NegotiationError>| #[trigger]
            names_default(*query, identifier) && is_default_of(result, printers@, identifier),
{
    match &get_default_identifier(query) {
        Ok(units) => Ok(find_default_printer(printers, units.as_slice())),
        Err(error) => Err(*error),
    }
}

impl PRINTER_INFO_2W {
    /// The name under which the printer is shown.
    pub fn get_name(&self) -> (name: String)
        ensures
            name@ == wide_text(self.pPrinterName@),
    {
        wchar_t_to_string(self.pPrinterName.as_slice())
    }

    /// Whether this is the default printer: whether its name is the default
    /// identifier that the spooler gives when asked with `query`. A failed
    /// negotiation gives `false`.
    pub fn get_is_default<Q: Fn((), RawBuffer) -> QueryReply>(&self, query: &Q) -> (is_default: bool)
        requires
            forall|request: RawBuffer| call_requires(*query, ((), request)),
        ensures
            exists|identifier: Result<Vec<u16>, NegotiationError>| #[trigger]
                names_default(*query, identifier) && is_default == self.bears(identifier),
    {
        match &get_default_identifier(query) {
            Ok(units) => identifiers_match(self.pPrinterName.as_slice(), units.as_slice()),
            Err(_) => false,
        }
    }

    /// The printer's name is the identifier that a query ended with.
    pub open spec fn bears(&self, identifier: Result<Vec<u16>, NegotiationError>) -> bool {
        match identifier {
            Ok(units) => same_identifier(self.pPrinterName@, units@),
            Err(_) => false,
        }
    }

    /// The name under which the system knows the printer.
    pub fn get_system_name(&self) -> (name: String)
        ensures
            name@ == wide_text(self.pPrinterName@),
    {
        wchar_t_to_string(self.pPrinterName.as_slice())
    }

    /// The name of the driver, which tells make and model.
    pub fn get_marker_and_model(&self) -> (model: String)
        ensures
            model@ == wide_text(self.pDriverName@),
    {
        wchar_t_to_string(self.pDriverName.as_slice())
    }

    /// Whether the printer is shared.
    pub fn get_is_shared(&self) -> (shared: bool)
        ensures
            shared == (self.Attributes & PRINTER_ATTRIBUTE_SHARED == PRINTER_ATTRIBUTE_SHARED),
    {
        (self.Attributes & PRINTER_ATTRIBUTE_SHARED) == PRINTER_ATTRIBUTE_SHARED
    }

    /// The spooler knows no address for a printer: always empty.
    pub fn get_uri(&self) -> (uri: String)
        ensures
            uri@ == Seq::<char>::empty(),
    {
        String::new()
    }

    /// Where the printer stands.
    pub fn get_location(&self) -> (location: String)
        ensures
            location@ == wide_text(self.pLocation@),
    {
        wchar_t_to_string(self.pLocation.as_slice())
    }

    /// The status code as a decimal numeral.
    pub fn get_state(&self) -> (state: String)
        ensures
            state@ == decimal_text(self.Status as nat),
    {
        decimal_string(self.Status)
    }

    /// The port that the printer is attached to.
    pub fn get_port_name(&self) -> (port: String)
        ensures
            port@ == wide_text(self.pPortName@),
    {
        wchar_t_to_string(self.pPortName.as_slice())
    }

    /// The print processor.
    pub fn get_processor(&self) -> (processor: String)
        ensures
            processor@ == wide_text(self.pPrintProcessor@),
    {
        wchar_t_to_string(self.pPrintProcessor.as_slice())
    }

    /// The comment that describes the printer.
    pub fn get_description(&self) -> (description: String)
        ensures
            description@ == wide_text(self.pComment@),
    {
        wchar_t_to_string(self.pComment.as_slice())
    }

    /// The data type that the printer takes by default.
    pub fn get_data_type(&self) -> (data_type: String)
        ensures
            data_type@ == wide_text(self.pDatatype@),
    {
        wchar_t_to_string(self.pDatatype.as_slice())
    }

    /// Number of bins of this printer, found by a probe with `query`; zero
    /// where the device does not report bins or the probe failed. Nothing is
    /// kept between calls: every call probes anew.
    pub fn get_bin_count<Q>(&self, query: &Q) -> (bin_count: u64) where
        Q: Fn(&PRINTER_INFO_2W, CapabilityQueryKind, RawBuffer) -> CapabilityReply,

        requires
            forall|kind: CapabilityQueryKind, request: RawBuffer|
                call_requires(*query, (self, kind, request)),
        ensures
            exists|result: Result<DeviceCapabilities, NegotiationError>| #[trigger]
                probes(*query, self, result) && bin_count == reported_bin_count(result),
    {
        let result = get_device_capabilities(self, query);
        match result {
            Ok(capabilities) => capabilities.bin_count,
            Err(_) => 0,
        }
    }

    /// Names of the bins of this printer, found by a probe with `query`;
    /// none where they are not known or the probe failed. Nothing is kept
    /// between calls: every call probes anew.
    pub fn get_bin_names<Q>(&self, query: &Q) -> (bin_names: Vec<String>) where
        Q: Fn(&PRINTER_INFO_2W, CapabilityQueryKind, RawBuffer) -> CapabilityReply,

        requires
            forall|kind: CapabilityQueryKind, request: RawBuffer|
                call_requires(*query, (self, kind, request)),
        ensures
            exists|result: Result<DeviceCapabilities, NegotiationError>| #[trigger]
                probes(*query, self, result) && bin_names.deep_view() == reported_bin_names(
                    result,
                ),
    {
        let result = get_device_capabilities(self, query);
        match result {
            Ok(capabilities) => capabilities.bin_names,
            Err(_) => Vec::new(),
        }
    }
}

/// A printer of the spooler's list together with the native calls that
/// answer questions about it: one that names the default printer, and one
/// that asks the device for a capability. The getters put these calls anew
/// each time; nothing is kept between them.
pub struct SpoolerPrinter<D, C> where
    D: Fn((), RawBuffer) -> QueryReply,
    C: Fn(&PRINTER_INFO_2W, CapabilityQueryKind, RawBuffer) -> CapabilityReply,
 {
    info: PRINTER_INFO_2W,
    default_query: D,
    capability_query: C,
}

impl<D, C> SpoolerPrinter<D, C> where
    D: Fn((), RawBuffer) -> QueryReply,
    C: Fn(&PRINTER_INFO_2W, CapabilityQueryKind, RawBuffer) -> CapabilityReply,
 {
    /// Both native calls can be made with any buffer.
    #[verifier::type_invariant]
    spec fn callable(&self) -> bool {
        &&& forall|request: RawBuffer| call_requires(self.default_query, ((), request))
        &&& forall|kind: CapabilityQueryKind, request: RawBuffer|
            call_requires(self.capability_query, (&self.info, kind, request))
    }

    /// The record of the printer.
    pub closed spec fn record(&self) -> PRINTER_INFO_2W {
        self.info
    }

    /// The native call that names the default printer.
    pub closed spec fn default_query(&self) -> D {
        self.default_query
    }

    /// The native call that asks the device for a capability.
    pub closed spec fn capability_query(&self) -> C {
        self.capability_query
    }

    /// Puts a record and the native calls for it together.
    pub fn new(info: PRINTER_INFO_2W, default_query: D, capability_query: C) -> (printer: Self)
        requires
            forall|request: RawBuffer| call_requires(default_query, ((), request)),
            forall|kind: CapabilityQueryKind, request: RawBuffer|
                call_requires(capability_query, (&info, kind, request)),
        ensures
            printer.record() == info,
            printer.default_query() == default_query,
            printer.capability_query() == capability_query,
    {
        SpoolerPrinter { info, default_query, capability_query }
    }

    /// The record of the printer.
    pub fn info(&self) -> (info: &PRINTER_INFO_2W)
        ensures
            *info == self.record(),
    {
        &self.info
    }
}

impl<D, C> PlatformPrinterGetters for SpoolerPrinter<D, C> where
    D: Fn((), RawBuffer) -> QueryReply,
    C: Fn(&PRINTER_INFO_2W, CapabilityQueryKind, RawBuffer) -> CapabilityReply,
 {
    fn get_name(&self) -> (name: String)
        ensures
            name@ == wide_text(self.record().pPrinterName@),
    {
        self.info.get_name()
    }

    fn get_is_default(&self) -> (is_default: bool)
        ensures
            exists|identifier: Result<Vec<u16>, NegotiationError>| #[trigger]
                names_default(self.default_query(), identifier) && is_default
                    == self.record().bears(identifier),
    {
        proof {
            use_type_invariant(self);
        }
        let is_default = self.info.get_is_default(&self.default_query);
        proof {
            let identifier = choose|identifier: Result<Vec<u16>, NegotiationError>| #[trigger]
                names_default(self.default_query, identifier) && is_default == self.info.bears(
                    identifier,
                );
            assert(names_default(self.default_query(), identifier));
        }
        is_default
    }

    fn get_system_name(&self) -> (name: String)
        ensures
            name@ == wide_text(self.record().pPrinterName@),
    {
        self.info.get_system_name()
    }

    fn get_marker_and_model(&self) -> (model: String)
        ensures
            model@ == wide_text(self.record().pDriverName@),
    {
        self.info.get_marker_and_model()
    }

    fn get_is_shared(&self) -> (shared: bool)
        ensures
            shared == (self.record().Attributes & PRINTER_ATTRIBUTE_SHARED
                == PRINTER_ATTRIBUTE_SHARED),
    {
        self.info.get_is_shared()
    }

    fn get_uri(&self) -> (uri: String)
        ensures
            uri@ == Seq::<char>::empty(),
    {
        self.info.get_uri()
    }

    fn get_location(&self) -> (location: String)
        ensures
            location@ == wide_text(self.record().pLocation@),
    {
        self.info.get_location()
    }

    fn get_state(&self) -> (state: String)
        ensures
            state@ == decimal_text(self.record().Status as nat),
    {
        self.info.get_state()
    }

    fn get_port_name(&self) -> (port: String)
        ensures
            port@ == wide_text(self.record().pPortName@),
    {
        self.info.get_port_name()
    }

    fn get_processor(&self) -> (processor: String)
        ensures
            processor@ == wide_text(self.record().pPrintProcessor@),
    {
        self.info.get_processor()
    }

    fn get_description(&self) -> (description: String)
        ensures
            description@ == wide_text(self.record().pComment@),
    {
        self.info.get_description()
    }

    fn get_data_type(&self) -> (data_type: String)
        ensures
            data_type@ == wide_text(self.record().pDatatype@),
    {
        self.info.get_data_type()
    }
}

impl<D, C> PlatformDeviceCapabilitiesGetters for SpoolerPrinter<D, C> where
    D: Fn((), RawBuffer) -> QueryReply,
    C: Fn(&PRINTER_INFO_2W, CapabilityQueryKind, RawBuffer) -> CapabilityReply,
 {
    fn get_bin_count(&self) -> (bin_count: u64)
        ensures
            exists|result: Result<DeviceCapabilities, NegotiationError>| #[trigger]
                probes(self.capability_query(), &self.record(), result) && bin_count
                    == reported_bin_count(result),
    {
        proof {
            use_type_invariant(self);
        }
        let bin_count = self.info.get_bin_count(&self.capability_query);
        proof {
            let result = choose|result: Result<DeviceCapabilities, NegotiationError>| #[trigger]
                probes(self.capability_query, &self.info, result) && bin_count
                    == reported_bin_count(result);
            assert(probes(self.capability_query(), &self.record(), result));
        }
        bin_count
    }

    fn get_bin_names(&self) -> (bin_names: Vec<String>)
        ensures
            exists|result: Result<DeviceCapabilities, NegotiationError>| #[trigger]
                probes(self.capability_query(), &self.record(), result) && bin_names.deep_view()
                    == reported_bin_names(result),
    {
        proof {
            use_type_invariant(self);
        }
        let bin_names = self.info.get_bin_names(&self.capability_query);
        proof {
            let result = choose|result: Result<DeviceCapabilities, NegotiationError>| #[trigger]
                probes(self.capability_query, &self.info, result) && bin_names.deep_view()
                    == reported_bin_names(result);
            assert(probes(self.capability_query(), &self.record(), result));
        }
        bin_names
    }
}

} // verus!

use printers::windows::utils::memory::RawBuffer;
use printers::windows::winspool::info::{
    find_default_printer, get_default_identifier, get_default_printer, identifiers_match,
    PRINTER_ATTRIBUTE_SHARED, PRINTER_INFO_2W,
};
use printers::windows::winspool::negotiation::{NegotiationError, QueryReply};
use std::cell::RefCell;

fn wide(text: &str) -> Vec<u16> {
    text.encode_utf16().collect()
}

fn printer(name: &str) -> PRINTER_INFO_2W {
    PRINTER_INFO_2W {
        pPrinterName: wide(name),
        pPortName: wide("LPT1:"),
        pDriverName: wide("Generic PCL"),
        pComment: wide("second floor"),
        pLocation: wide("Room 2"),
        pPrintProcessor: wide("winprint"),
        pDatatype: wide("RAW"),
        Attributes: 0x0000_0848,
        Status: 128,
    }
}

/// A native call that reports `identifier` as the default, ended by a zero
/// unit, once the buffer is large enough.
fn default_is(identifier: &str) -> impl Fn((), RawBuffer) -> QueryReply {
    let mut units = wide(identifier);
    units.push(0);
    move |_: (), mut buffer: RawBuffer| {
        let needed = units.len() * 2;
        if buffer.bytes.len() < needed {
            return QueryReply { success: false, needed, returned: 0, buffer };
        }
        for (i, unit) in units.iter().enumerate() {
            buffer.bytes[2 * i] = (unit & 0xff) as u8;
            buffer.bytes[2 * i + 1] = (unit >> 8) as u8;
        }
        QueryReply { success: true, needed, returned: units.len(), buffer }
    }
}

#[test]
fn default_identifier_that_no_printer_bears_means_no_default() {
    let printers = vec![printer("Office"), printer("Lab")];
    assert!(find_default_printer(&printers, &wide("Removed")).is_none());
    let found = get_default_printer(&printers, &default_is("Removed"));
    assert!(matches!(found, Ok(None)));
}

#[test]
fn default_printer_is_the_one_that_bears_the_identifier() {
    let printers = vec![printer("Office"), printer("Lab"), printer("Attic")];
    let found = find_default_printer(&printers, &wide("Lab")).expect("Lab is listed");
    assert!(std::ptr::eq(found, &printers[1]));
    let found = get_default_printer(&printers, &default_is("Attic")).expect("negotiated");
    assert!(std::ptr::eq(found.expect("Attic is listed"), &printers[2]));
}

#[test]
fn first_of_two_printers_with_the_same_name_is_the_default() {
    let printers = vec![printer("Office"), printer("Twin"), printer("Twin")];
    let found = find_default_printer(&printers, &wide("Twin")).expect("Twin is listed");
    assert!(std::ptr::eq(found, &printers[1]));
}

#[test]
fn identifiers_are_compared_unit_by_unit() {
    let printers = vec![printer("Office"), printer("office"), printer("Offic"), printer("Office ")];
    let found = find_default_printer(&printers[1..], &wide("Office"));
    assert!(found.is_none());
    assert!(identifiers_match(&wide("Office"), &wide("Office")));
    assert!(!identifiers_match(&wide("Office"), &wide("office")));
    assert!(!identifiers_match(&wide("Office"), &wide("Offic")));
    assert!(!identifiers_match(&wide("Offic"), &wide("Office")));
    assert!(!identifiers_match(&wide("Office"), &wide("Offlce")));
}

#[test]
fn identifiers_stop_at_the_terminator() {
    assert!(identifiers_match(&[0x4c, 0x61, 0x62, 0, 0x7a], &wide("Lab")));
    assert!(identifiers_match(&wide("Lab"), &[0x4c, 0x61, 0x62, 0, 0, 0]));
    assert!(!identifiers_match(&[0x4c, 0, 0x61, 0x62], &wide("Lab")));
    assert!(identifiers_match(&[], &[0, 0x41]));
}

#[test]
fn no_printers_have_no_default() {
    let printers: Vec<PRINTER_INFO_2W> = Vec::new();
    assert!(find_default_printer(&printers, &wide("Office")).is_none());
}

#[test]
fn default_identifier_is_negotiated_in_two_calls() {
    let sizes: RefCell<Vec<usize>> = RefCell::new(Vec::new());
    let native = default_is("Office");
    let query = |target: (), buffer: RawBuffer| {
        sizes.borrow_mut().push(buffer.bytes.len());
        native(target, buffer)
    };
    let identifier = get_default_identifier(&query).expect("negotiated");
    assert_eq!(*sizes.borrow(), vec![0, 14]);
    let mut expected = wide("Office");
    expected.push(0);
    assert_eq!(identifier, expected);
}

#[test]
fn no_default_identifier_at_all_is_no_error() {
    let query = |_: (), buffer: RawBuffer| QueryReply {
        success: false,
        needed: 0,
        returned: 0,
        buffer,
    };
    assert_eq!(get_default_identifier(&query).expect("nothing is no error"), Vec::<u16>::new());
    let printers = vec![printer("Office")];
    let found = get_default_printer(&printers, &query).expect("nothing is no error");
    assert!(found.is_none());
}

#[test]
fn unstable_default_identifier_is_an_error() {
    let query = |_: (), buffer: RawBuffer| {
        let needed = buffer.bytes.len() + 2;
        QueryReply { success: false, needed, returned: 0, buffer }
    };
    assert_eq!(get_default_identifier(&query).err(), Some(NegotiationError::Unstable));
    let printers = vec![printer("Office")];
    assert_eq!(get_default_printer(&printers, &query).err(), Some(NegotiationError::Unstable));
    assert!(!printers[0].get_is_default(&query));
}

#[test]
fn printer_knows_whether_it_is_the_default() {
    assert!(printer("Office").get_is_default(&default_is("Office")));
    assert!(!printer("Office").get_is_default(&default_is("Lab")));
    // only the first unit agrees
    assert!(!printer("Office").get_is_default(&default_is("Other")));
}

#[test]
fn identity_getters_decode_the_text_fields() {
    let office = printer("Office");
    assert_eq!(office.get_name(), "Office");
    assert_eq!(office.get_system_name(), "Office");
    assert_eq!(office.get_marker_and_model(), "Generic PCL");
    assert_eq!(office.get_location(), "Room 2");
    assert_eq!(office.get_port_name(), "LPT1:");
    assert_eq!(office.get_processor(), "winprint");
    assert_eq!(office.get_description(), "second floor");
    assert_eq!(office.get_data_type(), "RAW");
    assert_eq!(office.get_uri(), "");
    assert_eq!(office.get_state(), "128");
}

#[test]
fn shared_flag_is_bit_three_of_the_attributes() {
    assert_eq!(PRINTER_ATTRIBUTE_SHARED, 8);
    let mut office = printer("Office");
    assert!(office.get_is_shared());
    office.Attributes = 0x0000_0840;
    assert!(!office.get_is_shared());
    office.Attributes = 8;
    assert!(office.get_is_shared());
    office.Attributes = 0xffff_fff7;
    assert!(!office.get_is_shared());
}

#[test]
fn status_is_given_in_decimal() {
    let mut office = printer("Office");
    office.Status = 0;
    assert_eq!(office.get_state(), "0");
    office.Status = 4_294_967_295;
    assert_eq!(office.get_state(), "4294967295");
}

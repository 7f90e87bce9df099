use printers::common::base::device_capabilities::DeviceCapabilities;
use printers::common::base::printer::Printer;
use printers::common::base::printer_bins;
use printers::common::base::PrinterWithCapabilities;
use printers::common::traits::platform::PlatformDeviceCapabilitiesGetters;

struct Fixed {
    bin_count: u64,
    bin_names: Vec<&'static str>,
}

impl PlatformDeviceCapabilitiesGetters for Fixed {
    fn get_bin_count(&self) -> u64 {
        self.bin_count
    }

    fn get_bin_names(&self) -> Vec<String> {
        self.bin_names.iter().map(|name| name.to_string()).collect()
    }
}

fn names(list: &[&str]) -> Vec<String> {
    list.iter().map(|name| name.to_string()).collect()
}

#[test]
fn capabilities_keep_one_name_for_each_bin() {
    let capabilities = DeviceCapabilities::new(2, names(&["Upper", "Lower"]));
    assert_eq!(capabilities.bin_count, 2);
    assert_eq!(capabilities.bin_names, names(&["Upper", "Lower"]));
}

#[test]
fn capabilities_drop_names_that_cannot_be_matched_to_the_bins() {
    let capabilities = DeviceCapabilities::new(3, names(&["Upper", "Lower"]));
    assert_eq!(capabilities.bin_count, 3);
    assert!(capabilities.bin_names.is_empty());
    let capabilities = DeviceCapabilities::new(0, names(&["Upper"]));
    assert_eq!(capabilities.bin_count, 0);
    assert!(capabilities.bin_names.is_empty());
}

#[test]
fn capabilities_without_names() {
    let capabilities = DeviceCapabilities::unnamed(5);
    assert_eq!(capabilities.bin_count, 5);
    assert!(capabilities.bin_names.is_empty());
    let capabilities = DeviceCapabilities::new(0, Vec::new());
    assert_eq!(capabilities.bin_count, 0);
    assert!(capabilities.bin_names.is_empty());
}

#[test]
fn capabilities_are_built_from_the_getters_of_a_backend() {
    let backend = Fixed { bin_count: 2, bin_names: vec!["Tray 1", "Tray 2"] };
    let capabilities = DeviceCapabilities::from_platform_device_capabilities_getters(&backend);
    assert_eq!(capabilities.bin_count, 2);
    assert_eq!(capabilities.bin_names, names(&["Tray 1", "Tray 2"]));
}

#[test]
fn capabilities_from_a_backend_that_disagrees_with_itself_have_no_names() {
    let backend = Fixed { bin_count: 2, bin_names: vec!["Tray 1", "Tray 2", "Tray 3"] };
    let capabilities = DeviceCapabilities::from_platform_device_capabilities_getters(&backend);
    assert_eq!(capabilities.bin_count, 2);
    assert!(capabilities.bin_names.is_empty());
}

#[test]
fn capabilities_are_copied_by_clone() {
    let capabilities = DeviceCapabilities::new(2, names(&["Upper", "Lower"]));
    let copy = capabilities.clone();
    assert_eq!(copy.bin_count, 2);
    assert_eq!(copy.bin_names, capabilities.bin_names);
    assert_eq!(format!("{:?}", copy), format!("{:?}", capabilities));
}

#[test]
fn byte_sized_capabilities_keep_what_the_platform_gave() {
    let capabilities = printer_bins::DeviceCapabilities::from_platform_device_capabilities(
        3,
        names(&["Auto", "Manual"]),
    );
    assert_eq!(capabilities.dc_bins, 3);
    assert_eq!(capabilities.dc_binnames, names(&["Auto", "Manual"]));
    let copy = capabilities.clone();
    assert_eq!(copy.dc_bins, 3);
    assert_eq!(copy.dc_binnames, names(&["Auto", "Manual"]));
}

#[test]
fn printer_is_paired_with_its_capabilities() {
    let printer = Printer {
        name: "Office".to_string(),
        system_name: "Office".to_string(),
        driver_name: "Generic PCL".to_string(),
        uri: String::new(),
        port_name: "LPT1:".to_string(),
        processor: "winprint".to_string(),
        data_type: "RAW".to_string(),
        description: String::new(),
        location: "Room 2".to_string(),
        is_default: true,
        is_shared: false,
        state: "0".to_string(),
    };
    let paired = PrinterWithCapabilities {
        printer,
        device_capabilities: DeviceCapabilities::new(1, names(&["Tray"])),
    };
    assert_eq!(paired.printer.name, "Office");
    assert_eq!(paired.device_capabilities.bin_count, 1);
    assert_eq!(paired.device_capabilities.bin_names, names(&["Tray"]));
}

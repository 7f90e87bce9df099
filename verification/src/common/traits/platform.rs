//! What a backend has to offer for each printer it knows.

use vstd::prelude::*;

verus! {

/// Identity of one printer, as its backend reports it.
pub trait PlatformPrinterGetters {
    fn get_name(&self) -> String;

    fn get_is_default(&self) -> bool;

    fn get_system_name(&self) -> String;

    fn get_marker_and_model(&self) -> String;

    fn get_is_shared(&self) -> bool;

    fn get_uri(&self) -> String;

    fn get_location(&self) -> String;

    fn get_state(&self) -> String;

    fn get_port_name(&self) -> String;

    fn get_processor(&self) -> String;

    fn get_description(&self) -> String;

    fn get_data_type(&self) -> String;
}

/// Paper bins of one printer, as its backend reports them. A backend may ask
/// the device anew on every call, so two calls need not agree.
pub trait PlatformDeviceCapabilitiesGetters {
    fn get_bin_count(&self) -> u64;

    fn get_bin_names(&self) -> Vec<String>;
}

} // verus!

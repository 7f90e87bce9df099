use vstd::prelude::*;

pub mod device_capabilities;
pub mod printer;
pub mod printer_bins;

verus! {

/// A printer together with the bins it was found to have.
#[derive(Debug)]
pub struct PrinterWithCapabilities {
    pub printer: printer::Printer,
    pub device_capabilities: device_capabilities::DeviceCapabilities,
}

} // verus!

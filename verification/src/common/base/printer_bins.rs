use vstd::prelude::*;

verus! {

/// Bins of a printer with a count that fits in one byte.
#[derive(Debug)]
pub struct DeviceCapabilities {
    pub dc_bins: u8,
    pub dc_binnames: Vec<String>,
}

impl Clone for DeviceCapabilities {
    fn clone(&self) -> (copy: Self)
        ensures
            copy.dc_bins == self.dc_bins,
            copy.dc_binnames.deep_view() == self.dc_binnames.deep_view(),
    {
        let copy = DeviceCapabilities {
            dc_bins: self.dc_bins,
            dc_binnames: self.dc_binnames.clone(),
        };
        copy
    }
}

impl DeviceCapabilities {
    /// Keeps the count and the names exactly as the platform gave them.
    pub fn from_platform_device_capabilities(
        platform_dc_bins: u8,
        platform_dc_binnames: Vec<String>,
    ) -> (capabilities: Self)
        ensures
            capabilities.dc_bins == platform_dc_bins,
            capabilities.dc_binnames == platform_dc_binnames,
    {
        DeviceCapabilities { dc_bins: platform_dc_bins, dc_binnames: platform_dc_binnames }
    }
}

} // verus!

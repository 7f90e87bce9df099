use crate::common::traits::platform::PlatformDeviceCapabilitiesGetters;
use vstd::prelude::*;

verus! {

/// The paper bins of a printer.
#[derive(Debug)]
pub struct DeviceCapabilities {
    pub bin_count: u64,
    pub bin_names: Vec<String>,
}

/// What a [`DeviceCapabilities`] says: how many bins, and their names in order.
pub struct CapabilitiesView {
    pub bin_count: nat,
    pub bin_names: Seq<Seq<char>>,
}

impl CapabilitiesView {
    /// Either no name is known, or every bin has one.
    pub open spec fn wf(self) -> bool {
        self.bin_names.len() == 0 || self.bin_names.len() == self.bin_count
    }

    /// `bin_count` bins of which no name is known.
    pub open spec fn unnamed(bin_count: nat) -> CapabilitiesView {
        CapabilitiesView { bin_count, bin_names: Seq::empty() }
    }

    /// `bin_count` bins with `bin_names`, where there is one name for each
    /// bin, and without names otherwise.
    pub open spec fn aligned(bin_count: nat, bin_names: Seq<Seq<char>>) -> CapabilitiesView {
        if bin_names.len() == bin_count {
            CapabilitiesView { bin_count, bin_names }
        } else {
            CapabilitiesView::unnamed(bin_count)
        }
    }
}

impl View for DeviceCapabilities {
    type V = CapabilitiesView;

    open spec fn view(&self) -> CapabilitiesView {
        CapabilitiesView {
            bin_count: self.bin_count as nat,
            bin_names: self.bin_names.deep_view(),
        }
    }
}

impl Clone for DeviceCapabilities {
    fn clone(&self) -> (copy: Self)
        ensures
            copy@ == self@,
    {
        let copy = DeviceCapabilities {
            bin_count: self.bin_count,
            bin_names: self.bin_names.clone(),
        };
        copy
    }
}

impl DeviceCapabilities {
    /// Either no name is known, or every bin has one.
    pub open spec fn wf(&self) -> bool {
        self@.wf()
    }

    /// `bin_count` bins of which no name is known.
    pub fn unnamed(bin_count: u64) -> (capabilities: DeviceCapabilities)
        ensures
            capabilities@ == CapabilitiesView::unnamed(bin_count as nat),
            capabilities.wf(),
    {
        let capabilities = DeviceCapabilities { bin_count, bin_names: Vec::new() };
        assert(capabilities.bin_names.deep_view() =~= Seq::<Seq<char>>::empty());
        capabilities
    }

    /// Puts a bin count and a list of names together. The names are kept only
    /// if there is exactly one for each bin: a list of another length cannot
    /// be matched to the bins and is dropped.
    pub fn new(bin_count: u64, bin_names: Vec<String>) -> (capabilities: DeviceCapabilities)
        ensures
            capabilities@ == CapabilitiesView::aligned(bin_count as nat, bin_names.deep_view()),
            capabilities.bin_count == bin_count,
            capabilities.wf(),
    {
        if bin_names.len() as u64 == bin_count {
            DeviceCapabilities { bin_count, bin_names }
        } else {
            DeviceCapabilities::unnamed(bin_count)
        }
    }

    /// Asks a backend for the bin count and for the bin names, one call each,
    /// and puts the two answers together with [`DeviceCapabilities::new`].
    /// The backend may change between the two calls, so all that is known of
    /// the result is that it is well formed.
    pub fn from_platform_device_capabilities_getters(
        platform_device_capabilities: &dyn PlatformDeviceCapabilitiesGetters,
    ) -> (device_capabilities: DeviceCapabilities)
        ensures
            device_capabilities.wf(),
    {
        let bin_count = platform_device_capabilities.get_bin_count();
        let bin_names = platform_device_capabilities.get_bin_names();
        DeviceCapabilities::new(bin_count, bin_names)
    }
}

} // verus!

use vstd::prelude::*;

verus! {

/// Identity of one printer in plain values.
#[derive(Debug)]
pub struct Printer {
    pub name: String,
    pub system_name: String,
    pub driver_name: String,
    pub uri: String,
    pub port_name: String,
    pub processor: String,
    pub data_type: String,
    pub description: String,
    pub location: String,
    pub is_default: bool,
    pub is_shared: bool,
    pub state: String,
}

impl Clone for Printer {
    fn clone(&self) -> (copy: Self)
        ensures
            copy == *self,
    {
        Printer {
            name: self.name.clone(),
            system_name: self.system_name.clone(),
            driver_name: self.driver_name.clone(),
            uri: self.uri.clone(),
            port_name: self.port_name.clone(),
            processor: self.processor.clone(),
            data_type: self.data_type.clone(),
            description: self.description.clone(),
            location: self.location.clone(),
            is_default: self.is_default,
            is_shared: self.is_shared,
            state: self.state.clone(),
        }
    }
}

} // verus!

//! Bookkeeping for named assets. Loading is not wired up yet: the manager
//! keeps a catalog of handles and every operation on it leaves the catalog
//! unchanged, which the contracts state exactly.

use vstd::prelude::*;

verus! {

use std::collections::HashMap;

/// A loaded asset.
pub enum Resource {
    Image { width: u32, height: u32, data: Vec<u8> },
}

/// A named entry of the catalog: where the asset comes from and, once loaded,
/// its contents.
pub struct ResourceHandle {
    name: String,
    path: String,
    data: Option<Box<Resource>>,
}

/// The catalog of assets, keyed by name.
pub struct ResourceManager {
    map: HashMap<String, ResourceHandle>,
}

impl View for ResourceManager {
    type V = Map<String, ResourceHandle>;

    closed spec fn view(&self) -> Map<String, ResourceHandle> {
        self.map@
    }
}

impl ResourceManager {
    /// Builds a manager with an empty catalog.
    pub fn new() -> (m: ResourceManager)
        ensures
            m@ == Map::<String, ResourceHandle>::empty(),
    {
        ResourceManager { map: HashMap::new() }
    }

    /// Registers nothing: the catalog is left unchanged.
    pub fn add_resource(&mut self, _name: String, _path: String)
        ensures
            final(self)@ == old(self)@,
    {
    }

    /// Loads nothing: the catalog is left unchanged.
    pub fn load_resource(&mut self, _name: &str)
        ensures
            final(self)@ == old(self)@,
    {
    }

    /// Looks nothing up: the catalog is left unchanged.
    pub fn get_resource(&mut self, _name: &str)
        ensures
            final(self)@ == old(self)@,
    {
    }
}

} // verus!

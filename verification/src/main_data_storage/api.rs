use vstd::prelude::*;

use std::sync::Arc;

verus! {

/// Figures of a storage, as shown to its users.
pub trait StorageInfo {
    fn flash_page_size(&self) -> usize;

    fn flash_size(&self) -> usize;

    fn used_pages(&self) -> usize;
}

/// A storage driver that can hand out readers of its figures.
pub trait StorageDriver: Sized {
    type Info: StorageInfo;

    /// Whether `info` is the reader of figures that this driver makes from
    /// the shared reference to `driver`. A driver that does not describe it
    /// keeps this open.
    open spec fn spec_accessor(&self, driver: Self, info: Self::Info) -> bool {
        true
    }

    fn make_info_accessor(&self, driver: Arc<Self>) -> (r: Self::Info)
        ensures
            self.spec_accessor(*driver, r),
    ;
}

/// A storage behind a shared driver.
pub struct Storage<D: StorageDriver> {
    driver: Arc<D>,
}

impl<D: StorageDriver> Storage<D> {
    /// The driver behind this storage.
    pub closed spec fn spec_driver(&self) -> D {
        *self.driver
    }

    pub fn new(driver: D) -> (r: Self)
        ensures
            r.spec_driver() == driver,
    {
        Self { driver: Arc::new(driver) }
    }

    /// A reader of the figures, made by the driver from a shared reference to itself.
    pub fn make_info_accessor(&self) -> (r: D::Info)
        ensures
            self.spec_driver().spec_accessor(self.spec_driver(), r),
    {
        self.driver.make_info_accessor(Arc::clone(&self.driver))
    }
}

} // verus!

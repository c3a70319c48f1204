pub use crate::maps::{OutputMap, SerialMap, StorageMap};
pub use crate::sets::{OutputSet, SerialSet, StorageSet};

//! The interface to the key-value store that keeps the settings across
//! restarts. The store itself is somebody else's: whatever it answers is taken
//! as it comes.

use vstd::prelude::*;
use crate::error::FlashError;

verus! {

pub trait Readable<T> {
    fn read(&self, field: &str) -> Result<T, FlashError>;
}

pub trait Writable<T> {
    fn write(&mut self, field: &str, value: T) -> Result<(), FlashError>;
}

} // verus!

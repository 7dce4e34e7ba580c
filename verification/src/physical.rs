//! Constants of the supported chipsets.

pub mod esp32s3;

pub use self::esp32s3 as hardware;

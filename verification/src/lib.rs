//! Verified logic for wireless earbuds: the hi-res microphone of AirPods and the
//! version queries of devices by Nothing.
pub mod audio;
pub mod bluetooth;
pub mod devices;

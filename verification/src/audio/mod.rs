pub mod capture;
pub mod eld;
pub mod monitor;
pub mod monitor_laws;
pub mod session;
pub mod status;

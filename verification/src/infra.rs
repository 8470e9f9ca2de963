//! Local infrastructure: marks on injected packets, the stop file, the agent
//! pipe, the capture driver.

pub mod event_tag;
pub mod named_pipe;
pub mod sentinel;
pub mod windivert_driver;

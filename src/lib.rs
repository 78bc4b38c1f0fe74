//! Device-memory allocation and host/device transfers for a Vulkan backend.
//!
//! The library decides; the device acts. Every operation is a verified step
//! machine that hands out driver commands as plain values (`driver`) and
//! takes the driver's replies back, so that allocation, mapping, teardown
//! and staged copies are proved to keep the allocation table consistent and
//! to release what they create on every path.
pub mod command;
pub mod driver;
pub mod memory;
pub mod result_code;
pub mod transfer;
pub mod vendor;

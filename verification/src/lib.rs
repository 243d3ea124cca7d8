//! Host-side driver core for ST-Link debug probes.
//!
//! The crate holds what such a driver decides: which plugged devices are
//! probes, how a session with one is opened, how a command is framed and
//! followed through its transfers, in which order a probe may be operated,
//! and what an identification register says. It performs no I/O.

pub mod catalog;
pub mod dap_access;
pub mod debug_probe;
pub mod error;
pub mod frame;
pub mod idcode;
pub mod transport;
pub mod usb_interface;

pub use catalog::{Catalog, STLinkInfo, USB_VID};
pub use dap_access::DAPAccess;
pub use debug_probe::{DebugProbe, Operation, ProbeError, ProbeSession, ProbeState, WireProtocol};
pub use error::UsbError;
pub use frame::{CommandFrame, CMD_LEN};
pub use idcode::{
    compose_target_id, debug_port, parse_target_id, protocol_name, validate_idcode, DebugPort,
    Mismatch,
};
pub use transport::{
    Progress, Reply, Request, Stage, DRAIN_LEN, DRAIN_TIMEOUT_MS, INTERFACE, TIMEOUT_MS,
};
pub use usb_interface::{
    get_all_plugged_devices, select_device, usb_match, DeviceDescriptor, STLinkUSBDevice,
};

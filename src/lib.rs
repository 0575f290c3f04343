//! Layered dissection of captured Ethernet frames: a flat per-packet summary
//! record plus a nested detail tree, with a registry of user handlers for the
//! protocols that are not built in.
use vstd::prelude::*;

pub mod dissect;
pub mod info;
pub mod laws;
pub mod registry;
pub mod text;
pub mod tree;

pub use dissect::{dissect, icmp_type_and_code};
pub use info::{set_info, set_proto, CaptureHeader, PacketInfo, Timestamp};
pub use registry::{set_dissector, DissectorTable, Handler, RegisterError, Scope};
pub use text::{hwaddr_str, ipaddr_str};

verus! {

} // verus!

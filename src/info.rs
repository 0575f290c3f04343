//! The summary record that every layer of a packet fills in.
use vstd::prelude::*;

verus! {

/// When a frame was captured: seconds and nanoseconds.
#[derive(Clone, Copy, Debug, PartialEq, Eq, Structural)]
pub struct Timestamp {
    pub sec: i64,
    pub nsec: u64,
}

/// What the capture source reports with each frame.
#[derive(Clone, Copy, Debug, PartialEq, Eq, Structural)]
pub struct CaptureHeader {
    pub ts_sec: i64,
    pub ts_usec: u32,
    pub len: u32,
}

/// The flat summary of one packet.
#[derive(Debug)]
pub struct PacketInfo {
    pub num: u32,
    pub time: Timestamp,
    pub len: u32,
    pub net_src: Option<String>,
    pub net_dst: Option<String>,
    pub src_port: Option<u16>,
    pub dst_port: Option<u16>,
    pub proto: Option<String>,
    pub info: Option<String>,
}

/// The summary with its texts seen as character sequences.
pub struct InfoView {
    pub num: u32,
    pub time: Timestamp,
    pub len: u32,
    pub net_src: Option<Seq<char>>,
    pub net_dst: Option<Seq<char>>,
    pub src_port: Option<u16>,
    pub dst_port: Option<u16>,
    pub proto: Option<Seq<char>>,
    pub info: Option<Seq<char>>,
}

/// An optional text seen as an optional character sequence.
pub open spec fn opt_view(o: Option<String>) -> Option<Seq<char>> {
    match o {
        Some(s) => Some(s@),
        None => None,
    }
}

impl View for PacketInfo {
    type V = InfoView;

    open spec fn view(&self) -> InfoView {
        InfoView {
            num: self.num,
            time: self.time,
            len: self.len,
            net_src: opt_view(self.net_src),
            net_dst: opt_view(self.net_dst),
            src_port: self.src_port,
            dst_port: self.dst_port,
            proto: opt_view(self.proto),
            info: opt_view(self.info),
        }
    }
}

/// The summary of a frame before any layer has looked at it.
pub open spec fn initial_info(num: u32, hdr: CaptureHeader) -> InfoView {
    InfoView {
        num,
        time: Timestamp { sec: hdr.ts_sec, nsec: (hdr.ts_usec * 1000) as u64 },
        len: hdr.len,
        net_src: None,
        net_dst: None,
        src_port: None,
        dst_port: None,
        proto: None,
        info: None,
    }
}

impl PacketInfo {
    /// A summary with the capture metadata filled in and nothing else.
    pub fn new(num: u32, hdr: CaptureHeader) -> (r: PacketInfo)
        ensures
            r@ == initial_info(num, hdr),
    {
        let nsec: u64 = hdr.ts_usec as u64 * 1000;
        PacketInfo {
            num,
            time: Timestamp { sec: hdr.ts_sec, nsec },
            len: hdr.len,
            net_src: None,
            net_dst: None,
            src_port: None,
            dst_port: None,
            proto: None,
            info: None,
        }
    }
}

/// Sets the protocol label, whatever it held.
pub fn set_proto(pinfo: &mut PacketInfo, proto: String)
    ensures
        final(pinfo)@ == (InfoView { proto: Some(proto@), ..old(pinfo)@ }),
{
    pinfo.proto = Some(proto);
}

/// Sets the one-line description, whatever it held.
pub fn set_info(pinfo: &mut PacketInfo, info: String)
    ensures
        final(pinfo)@ == (InfoView { info: Some(info@), ..old(pinfo)@ }),
{
    pinfo.info = Some(info);
}

} // verus!

//! The layer dissectors: Ethernet, then IPv4, then TCP, UDP or ICMP, with the
//! registry consulted for any other ethertype or IP protocol number.
use vstd::prelude::*;
use crate::info::{CaptureHeader, InfoView, PacketInfo, initial_info};
use crate::registry::{DissectorTable, Handler, TableView};
use crate::text::{dec, dec_string, hw_text, hwaddr_str, ip_text, ipaddr_str};
use crate::tree::{empty_text, leaf, leaf_text, node, node_text};

verus! {

pub const ETHERTYPE_IPV4: u16 = 0x0800;

pub const IPPROTO_ICMP: u8 = 1;

pub const IPPROTO_TCP: u8 = 6;

pub const IPPROTO_UDP: u8 = 17;

pub const ETHERNET_HEADER_LEN: usize = 14;

pub const IPV4_HEADER_LEN: usize = 20;

// ----- the model -----

/// The 16-bit big-endian number at `b[i]`, `b[i + 1]`.
pub open spec fn be16(b: Seq<u8>, i: int) -> u16 {
    (b[i] as int * 256 + b[i + 1] as int) as u16
}

/// An option that keeps what it holds and otherwise takes `v`.
pub open spec fn fill(o: Option<Seq<char>>, v: Seq<char>) -> Option<Seq<char>> {
    match o {
        Some(x) => Some(x),
        None => Some(v),
    }
}

/// The marker left where a layer's header did not fit in what was captured.
pub open spec fn truncated_text(layer: Seq<char>) -> Seq<char> {
    leaf_text("Truncated"@, layer)
}

/// The leaf for a protocol number that neither the dissectors nor the registry know.
pub open spec fn unknown_text(key: nat) -> Seq<char> {
    leaf_text(dec(key), "unknown protocol"@)
}

/// The one-line description of a port pair: `TCP 80 -> 1234`.
pub open spec fn ports_summary(name: Seq<char>, s: u16, d: u16) -> Seq<char> {
    name + " "@ + dec(s as nat) + " -> "@ + dec(d as nat)
}

/// The tree of a TCP or UDP header: source port, then destination port.
pub open spec fn ports_tree(title: Seq<char>, s: u16, d: u16) -> Seq<char> {
    node_text(
        title,
        "Src Port: "@ + dec(s as nat) + ", Dst Port: "@ + dec(d as nat),
        node_text(
            "Source Port"@,
            dec(s as nat),
            leaf_text("Destination Port"@, dec(d as nat)),
            empty_text(),
        ),
        empty_text(),
    )
}

/// TCP or UDP: the ports from the first four bytes.
pub open spec fn ports_view(name: Seq<char>, title: Seq<char>, data: Seq<u8>, info: InfoView) -> (Seq<char>, InfoView) {
    if data.len() < 4 {
        (truncated_text(name), info)
    } else {
        let s = be16(data, 0);
        let d = be16(data, 2);
        (
            ports_tree(title, s, d),
            InfoView {
                src_port: Some(s),
                dst_port: Some(d),
                info: Some(ports_summary(name, s, d)),
                ..info
            },
        )
    }
}

/// The labels of an ICMP type and code.
pub open spec fn icmp_labels(typ: u8, cod: u8) -> (Seq<char>, Seq<char>) {
    if typ == 0 {
        ("Echo Reply(0)"@, dec(cod as nat))
    } else if typ == 3 {
        (
            "Destination Unreachable(3)"@,
            if cod == 0 {
                "net unreachable(0)"@
            } else if cod == 1 {
                "host unreachable(1)"@
            } else if cod == 2 {
                "protocol unreachable(2)"@
            } else if cod == 3 {
                "port unreachable(3)"@
            } else if cod == 4 {
                "fragmentation needed and DF set(4)"@
            } else if cod == 5 {
                "source route failed(5)"@
            } else {
                "unknown code"@
            },
        )
    } else if typ == 8 {
        ("Echo Request(8)"@, dec(cod as nat))
    } else {
        ("Not implemented yet"@, "Sorry"@)
    }
}

/// ICMP: type and code from the first two bytes.
pub open spec fn icmp_view(data: Seq<u8>, info: InfoView) -> (Seq<char>, InfoView) {
    if data.len() < 2 {
        (truncated_text("ICMP"@), info)
    } else {
        let (t, c) = icmp_labels(data[0], data[1]);
        (
            node_text(
                "Internet Control Message Protocol"@,
                "icmp"@,
                node_text("Type"@, t, node_text("Code"@, c, leaf_text("Data"@, "..."@), empty_text()), empty_text()),
                empty_text(),
            ),
            InfoView { info: Some("ICMP "@ + t + ", "@ + c), ..info },
        )
    }
}

/// The IP protocol numbers with a dissector of their own.
pub open spec fn builtin_transport(p: u8) -> bool {
    p == IPPROTO_TCP || p == IPPROTO_UDP || p == IPPROTO_ICMP
}

/// The built-in dissector of a transport protocol.
pub open spec fn transport_view(p: u8, data: Seq<u8>, info: InfoView) -> (Seq<char>, InfoView) {
    if p == IPPROTO_TCP {
        ports_view("TCP"@, "Transmission Control Protocol"@, data, info)
    } else if p == IPPROTO_UDP {
        ports_view("UDP"@, "User Datagram Protocol"@, data, info)
    } else {
        icmp_view(data, info)
    }
}

/// The label of an IP protocol number.
pub open spec fn proto_label(p: u8) -> Seq<char> {
    if p == IPPROTO_TCP {
        "TCP"@
    } else if p == IPPROTO_UDP {
        "UDP"@
    } else if p == IPPROTO_ICMP {
        "ICMP"@
    } else {
        dec(p as nat)
    }
}

/// The one-line description of an IPv4 header.
pub open spec fn ip_summary(data: Seq<u8>) -> Seq<char> {
    "IP "@ + ip_text(data.subrange(12, 16)) + " -> "@ + ip_text(data.subrange(16, 20))
}

/// An IPv4 header (at least 20 bytes), given the tree and summary that came
/// back from its payload: its addresses and protocol always win, its
/// description only where the payload left none.
pub open spec fn ip_finish(data: Seq<u8>, payload: Seq<char>, after: InfoView) -> (Seq<char>, InfoView) {
    let src = ip_text(data.subrange(12, 16));
    let dst = ip_text(data.subrange(16, 20));
    let p = data[9];
    (
        node_text(
            "Internet Protocol v4"@,
            ip_summary(data),
            node_text(
                "Time to live"@,
                dec(data[8] as nat),
                node_text(
                    "Protocol"@,
                    proto_label(p),
                    node_text("Source"@, src, node_text("Destination"@, dst, payload, empty_text()), empty_text()),
                    empty_text(),
                ),
                empty_text(),
            ),
            empty_text(),
        ),
        InfoView {
            net_src: Some(src),
            net_dst: Some(dst),
            proto: Some(proto_label(p)),
            info: fill(after.info, ip_summary(data)),
            ..after
        },
    )
}

/// IPv4 and what it carries; `(t, a)` is the tree and summary that a
/// registered handler or the unknown-protocol branch gave, used only for a
/// protocol that is not built in.
pub open spec fn ip_view(data: Seq<u8>, info: InfoView, t: Seq<char>, a: InfoView) -> (Seq<char>, InfoView) {
    if data.len() < 20 {
        (truncated_text("IPv4"@), info)
    } else {
        let p = data[9];
        let inner = if builtin_transport(p) {
            transport_view(p, data.subrange(20, data.len() as int), info)
        } else {
            (t, a)
        };
        ip_finish(data, inner.0, inner.1)
    }
}

/// The label of an ethertype.
pub open spec fn type_label(typ: u16) -> Seq<char> {
    if typ == ETHERTYPE_IPV4 {
        "IPv4"@
    } else {
        dec(typ as nat)
    }
}

/// The one-line description of an Ethernet header.
pub open spec fn eth_summary(frame: Seq<u8>) -> Seq<char> {
    "Ethernet "@ + hw_text(frame.subrange(6, 12)) + " -> "@ + hw_text(frame.subrange(0, 6))
}

/// An Ethernet header (at least 14 bytes), given the tree and summary that
/// came back from its payload: its addresses and description fill only what
/// the payload left empty.
pub open spec fn eth_finish(frame: Seq<u8>, payload: Seq<char>, after: InfoView) -> (Seq<char>, InfoView) {
    let dst = hw_text(frame.subrange(0, 6));
    let src = hw_text(frame.subrange(6, 12));
    (
        node_text(
            "Ethernet"@,
            eth_summary(frame),
            node_text(
                "Destination"@,
                dst,
                node_text(
                    "Source"@,
                    src,
                    node_text("Type"@, type_label(be16(frame, 12)), payload, empty_text()),
                    empty_text(),
                ),
                empty_text(),
            ),
            empty_text(),
        ),
        InfoView {
            net_src: fill(after.net_src, src),
            net_dst: fill(after.net_dst, dst),
            info: fill(after.info, eth_summary(frame)),
            ..after
        },
    )
}

/// A whole frame; `(t, a)` as for `ip_view`, used only where the frame is
/// handed to the registry.
pub open spec fn frame_view(frame: Seq<u8>, info: InfoView, t: Seq<char>, a: InfoView) -> (Seq<char>, InfoView) {
    if frame.len() < 14 {
        (truncated_text("Ethernet"@), info)
    } else if be16(frame, 12) == ETHERTYPE_IPV4 {
        let inner = ip_view(frame.subrange(14, frame.len() as int), info, t, a);
        eth_finish(frame, inner.0, inner.1)
    } else {
        eth_finish(frame, t, a)
    }
}

/// What handing a payload to the registry under `key` gives: with no handler
/// there, the unknown-protocol leaf and the summary untouched; with one, some
/// tree and a summary in which only the protocol label and the description
/// may have changed.
pub open spec fn delegated(info: InfoView, t: Seq<char>, a: InfoView, found: bool, key: nat) -> bool {
    if found {
        a == (InfoView { proto: a.proto, info: a.info, ..info })
    } else {
        t == unknown_text(key) && a == info
    }
}

/// What the registry's answer must be, for the frame's one point of
/// delegation if it has one.
pub open spec fn dispatch_ok<H>(tbl: TableView<H>, frame: Seq<u8>, info: InfoView, t: Seq<char>, a: InfoView) -> bool {
    if frame.len() >= 14 && be16(frame, 12) != ETHERTYPE_IPV4 {
        let typ = be16(frame, 12);
        delegated(info, t, a, tbl.net.contains_key(typ), typ as nat)
    } else if frame.len() >= 34 && !builtin_transport(frame[23]) {
        let p = frame[23];
        delegated(info, t, a, tbl.transport.contains_key(p), p as nat)
    } else {
        true
    }
}

// ----- the code -----

/// Relies on byteorder's `BigEndian::read_u16`: the first two bytes of the
/// slice, most significant first (it panics on a shorter slice).
#[verifier::external_body]
fn read_u16_be(buf: &[u8]) -> (r: u16)
    requires
        buf@.len() >= 2,
    ensures
        r == be16(buf@, 0),
{
    <byteorder::BigEndian as byteorder::ByteOrder>::read_u16(buf)
}

fn slice_from(data: &[u8], from: usize) -> (r: &[u8])
    requires
        from <= data@.len(),
    ensures
        r@ == data@.subrange(from as int, data@.len() as int),
{
    let n = data.len();
    vstd::slice::slice_subrange(data, from, n)
}

fn truncated(layer: &str) -> (r: String)
    ensures
        r@ == truncated_text(layer@),
{
    leaf("Truncated", layer)
}

fn ports_summary_string(name: &str, s: u16, d: u16) -> (r: String)
    ensures
        r@ == ports_summary(name@, s, d),
{
    let mut v = String::from_str(name);
    v.append(" ");
    v.append(dec_string(s as u32).as_str());
    v.append(" -> ");
    v.append(dec_string(d as u32).as_str());
    v
}

fn dissect_ports(data: &[u8], mut pinfo: PacketInfo, name: &str, title: &str) -> (r: (String, PacketInfo))
    ensures
        (r.0@, r.1@) == ports_view(name@, title@, data@, pinfo@),
{
    if data.len() < 4 {
        return (truncated(name), pinfo);
    }
    let src_port = read_u16_be(data);
    let dst_port = read_u16_be(slice_from(data, 2));
    proof {
        assert(data@.subrange(2, data@.len() as int)[0] == data@[2]);
        assert(data@.subrange(2, data@.len() as int)[1] == data@[3]);
    }
    let src_text = dec_string(src_port as u32);
    let dst_text = dec_string(dst_port as u32);
    let mut display = String::from_str("Src Port: ");
    display.append(src_text.as_str());
    display.append(", Dst Port: ");
    display.append(dst_text.as_str());
    let dst_node = leaf("Destination Port", dst_text.as_str());
    let src_node = node("Source Port", src_text.as_str(), dst_node.as_str(), "()");
    let tree = node(title, display.as_str(), src_node.as_str(), "()");
    pinfo.info = Some(ports_summary_string(name, src_port, dst_port));
    pinfo.src_port = Some(src_port);
    pinfo.dst_port = Some(dst_port);
    (tree, pinfo)
}

fn dissect_tcp(data: &[u8], pinfo: PacketInfo) -> (r: (String, PacketInfo))
    ensures
        (r.0@, r.1@) == transport_view(IPPROTO_TCP, data@, pinfo@),
{
    dissect_ports(data, pinfo, "TCP", "Transmission Control Protocol")
}

fn dissect_udp(data: &[u8], pinfo: PacketInfo) -> (r: (String, PacketInfo))
    ensures
        (r.0@, r.1@) == transport_view(IPPROTO_UDP, data@, pinfo@),
{
    dissect_ports(data, pinfo, "UDP", "User Datagram Protocol")
}


/// The labels of an ICMP type and code, as the summary and tree show them.
pub fn icmp_type_and_code(typ: u8, cod: u8) -> (r: (String, String))
    ensures
        (r.0@, r.1@) == icmp_labels(typ, cod),
{
    match typ {
        0 => (String::from_str("Echo Reply(0)"), dec_string(cod as u32)),
        3 => {
            let t = String::from_str("Destination Unreachable(3)");
            match cod {
                0 => (t, String::from_str("net unreachable(0)")),
                1 => (t, String::from_str("host unreachable(1)")),
                2 => (t, String::from_str("protocol unreachable(2)")),
                3 => (t, String::from_str("port unreachable(3)")),
                4 => (t, String::from_str("fragmentation needed and DF set(4)")),
                5 => (t, String::from_str("source route failed(5)")),
                _ => (t, String::from_str("unknown code")),
            }
        },
        8 => (String::from_str("Echo Request(8)"), dec_string(cod as u32)),
        _ => (String::from_str("Not implemented yet"), String::from_str("Sorry")),
    }
}

fn dissect_icmp(data: &[u8], mut pinfo: PacketInfo) -> (r: (String, PacketInfo))
    ensures
        (r.0@, r.1@) == transport_view(IPPROTO_ICMP, data@, pinfo@),
{
    if data.len() < 2 {
        return (truncated("ICMP"), pinfo);
    }
    let (type_val, code_val) = icmp_type_and_code(data[0], data[1]);
    let mut icmp_val = String::from_str("ICMP ");
    icmp_val.append(type_val.as_str());
    icmp_val.append(", ");
    icmp_val.append(code_val.as_str());
    let data_node = leaf("Data", "...");
    let code_node = node("Code", code_val.as_str(), data_node.as_str(), "()");
    let type_node = node("Type", type_val.as_str(), code_node.as_str(), "()");
    let tree = node("Internet Control Message Protocol", "icmp", type_node.as_str(), "()");
    pinfo.info = Some(icmp_val);
    (tree, pinfo)
}

/// Hands a payload to a handler. The handler sees the capture metadata, the
/// ports and the protocol label and description so far; of what it does to
/// the summary only the protocol label and the description are kept. A
/// failure becomes the handler-error leaf.
fn call_handler<H: Handler>(h: &H, key: u32, payload: &[u8], pinfo: PacketInfo) -> (r: (String, PacketInfo))
    ensures
        delegated(pinfo@, r.0@, r.1@, true, key as nat),
{
    let PacketInfo { num, time, len, net_src, net_dst, src_port, dst_port, proto, info } = pinfo;
    let mut handle = PacketInfo {
        num,
        time,
        len,
        net_src: None,
        net_dst: None,
        src_port,
        dst_port,
        proto,
        info,
    };
    let res = h.dissect(payload, &mut handle);
    let tree = match res {
        Some(t) => t,
        None => leaf(dec_string(key).as_str(), "handler error"),
    };
    (tree, PacketInfo { num, time, len, net_src, net_dst, src_port, dst_port, proto: handle.proto, info: handle.info })
}

/// Dispatches on a key: the registered handler if there is one, else the
/// unknown-protocol leaf.
fn delegate<H: Handler>(found: Option<&H>, key: u32, payload: &[u8], pinfo: PacketInfo) -> (r: (String, PacketInfo))
    ensures
        delegated(pinfo@, r.0@, r.1@, found is Some, key as nat),
{
    match found {
        Some(h) => call_handler(h, key, payload, pinfo),
        None => (leaf(dec_string(key).as_str(), "unknown protocol"), pinfo),
    }
}

fn proto_label_string(p: u8) -> (r: String)
    ensures
        r@ == proto_label(p),
{
    if p == IPPROTO_TCP {
        String::from_str("TCP")
    } else if p == IPPROTO_UDP {
        String::from_str("UDP")
    } else if p == IPPROTO_ICMP {
        String::from_str("ICMP")
    } else {
        dec_string(p as u32)
    }
}

fn dissect_ip<H: Handler>(data: &[u8], pinfo: PacketInfo, disct_tbl: &DissectorTable<H>) -> (r: (
    String,
    PacketInfo,
    Ghost<(Seq<char>, InfoView)>,
))
    ensures
        (r.0@, r.1@) == ip_view(data@, pinfo@, r.2@.0, r.2@.1),
        data@.len() >= 20 && !builtin_transport(data@[9]) ==> delegated(
            pinfo@,
            r.2@.0,
            r.2@.1,
            disct_tbl@.transport.contains_key(data@[9]),
            data@[9] as nat,
        ),
{
    if data.len() < IPV4_HEADER_LEN {
        return (truncated("IPv4"), pinfo, Ghost((Seq::empty(), pinfo@)));
    }
    let ttl_val = data[8];
    let p = data[9];
    let src_val = ipaddr_str(slice_from(data, 12));
    let dst_val = ipaddr_str(slice_from(data, 16));
    proof {
        assert(data@.subrange(12, data@.len() as int).subrange(0, 4) =~= data@.subrange(12, 16));
        assert(data@.subrange(16, data@.len() as int).subrange(0, 4) =~= data@.subrange(16, 20));
        assert(ip_text(data@.subrange(12, data@.len() as int)) == ip_text(data@.subrange(12, 16)));
        assert(ip_text(data@.subrange(16, data@.len() as int)) == ip_text(data@.subrange(16, 20)));
    }
    let mut ip_val = String::from_str("IP ");
    ip_val.append(src_val.as_str());
    ip_val.append(" -> ");
    ip_val.append(dst_val.as_str());
    let payload = slice_from(data, IPV4_HEADER_LEN);
    let ghost t: Seq<char> = Seq::empty();
    let ghost a: InfoView = pinfo@;
    let (inner_tree, mut pinfo) = if p == IPPROTO_TCP {
        dissect_tcp(payload, pinfo)
    } else if p == IPPROTO_UDP {
        dissect_udp(payload, pinfo)
    } else if p == IPPROTO_ICMP {
        dissect_icmp(payload, pinfo)
    } else {
        let found = disct_tbl.transport(p);
        let res = delegate(found, p as u32, payload, pinfo);
        proof {
            t = res.0@;
            a = res.1@;
        }
        res
    };
    let proto_val = proto_label_string(p);
    let dst_node = node("Destination", dst_val.as_str(), inner_tree.as_str(), "()");
    let src_node = node("Source", src_val.as_str(), dst_node.as_str(), "()");
    let proto_node = node("Protocol", proto_val.as_str(), src_node.as_str(), "()");
    let ttl_node = node("Time to live", dec_string(ttl_val as u32).as_str(), proto_node.as_str(), "()");
    let tree = node("Internet Protocol v4", ip_val.as_str(), ttl_node.as_str(), "()");
    pinfo.net_src = Some(src_val);
    pinfo.net_dst = Some(dst_val);
    pinfo.proto = Some(proto_val);
    if pinfo.info.is_none() {
        pinfo.info = Some(ip_val);
    }
    (tree, pinfo, Ghost((t, a)))
}

fn type_label_string(typ: u16) -> (r: String)
    ensures
        r@ == type_label(typ),
{
    if typ == ETHERTYPE_IPV4 {
        String::from_str("IPv4")
    } else {
        dec_string(typ as u32)
    }
}

fn dissect_ethernet<H: Handler>(data: &[u8], pinfo: PacketInfo, disct_tbl: &DissectorTable<H>) -> (r: (
    String,
    PacketInfo,
    Ghost<(Seq<char>, InfoView)>,
))
    ensures
        (r.0@, r.1@) == frame_view(data@, pinfo@, r.2@.0, r.2@.1),
        dispatch_ok(disct_tbl@, data@, pinfo@, r.2@.0, r.2@.1),
{
    if data.len() < ETHERNET_HEADER_LEN {
        return (truncated("Ethernet"), pinfo, Ghost((Seq::empty(), pinfo@)));
    }
    let dst_val = hwaddr_str(data);
    let src_val = hwaddr_str(slice_from(data, 6));
    let typ = read_u16_be(slice_from(data, 12));
    proof {
        assert(data@.subrange(0, 6) =~= data@.subrange(0, 6).subrange(0, 6));
        assert(hw_text(data@) == hw_text(data@.subrange(0, 6)));
        assert(hw_text(data@.subrange(6, data@.len() as int)) == hw_text(data@.subrange(6, 12)));
        assert(data@.subrange(12, data@.len() as int)[0] == data@[12]);
        assert(data@.subrange(12, data@.len() as int)[1] == data@[13]);
    }
    let mut eth_val = String::from_str("Ethernet ");
    eth_val.append(src_val.as_str());
    eth_val.append(" -> ");
    eth_val.append(dst_val.as_str());
    let payload = slice_from(data, ETHERNET_HEADER_LEN);
    let ghost t: Seq<char> = Seq::empty();
    let ghost a: InfoView = pinfo@;
    let (inner_tree, mut pinfo) = if typ == ETHERTYPE_IPV4 {
        let (tr, inf, g) = dissect_ip(payload, pinfo, disct_tbl);
        proof {
            t = g@.0;
            a = g@.1;
            if data@.len() >= 34 {
                assert(payload@[9] == data@[23]);
            }
        }
        (tr, inf)
    } else {
        let found = disct_tbl.net(typ);
        let res = delegate(found, typ as u32, payload, pinfo);
        proof {
            t = res.0@;
            a = res.1@;
        }
        res
    };
    let type_val = type_label_string(typ);
    let type_node = node("Type", type_val.as_str(), inner_tree.as_str(), "()");
    let src_node = node("Source", src_val.as_str(), type_node.as_str(), "()");
    let dst_node = node("Destination", dst_val.as_str(), src_node.as_str(), "()");
    let tree = node("Ethernet", eth_val.as_str(), dst_node.as_str(), "()");
    if pinfo.net_src.is_none() {
        pinfo.net_src = Some(src_val);
    }
    if pinfo.net_dst.is_none() {
        pinfo.net_dst = Some(dst_val);
    }
    if pinfo.info.is_none() {
        pinfo.info = Some(eth_val);
    }
    (tree, pinfo, Ghost((t, a)))
}

/// Dissects one captured frame: returns its detail tree and its summary.
/// For a frame that goes to a registered handler or to the unknown-protocol
/// branch, the result is that of some answer of the registry that fits what
/// the table holds.
pub fn dissect<H: Handler>(n: u32, hdr: CaptureHeader, data: Vec<u8>, disct_tbl: &DissectorTable<H>) -> (r: (
    String,
    PacketInfo,
))
    ensures
        exists|t: Seq<char>, a: InfoView|
            dispatch_ok(disct_tbl@, data@, initial_info(n, hdr), t, a) && (r.0@, r.1@) == #[trigger] frame_view(
                data@,
                initial_info(n, hdr),
                t,
                a,
            ),
{
    let pinfo = PacketInfo::new(n, hdr);
    let (tree, pinfo, g) = dissect_ethernet(data.as_slice(), pinfo, disct_tbl);
    proof {
        let _ = frame_view(data@, initial_info(n, hdr), g@.0, g@.1);
    }
    (tree, pinfo)
}

} // verus!

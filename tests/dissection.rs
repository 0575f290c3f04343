use std::cell::RefCell;
use std::rc::Rc;

use sexp::{Atom, Sexp};
use wire_shake::dissect::{ETHERNET_HEADER_LEN, IPV4_HEADER_LEN};
use wire_shake::{
    dissect, hwaddr_str, icmp_type_and_code, ipaddr_str, set_dissector, set_info, set_proto,
    CaptureHeader, DissectorTable, Handler, PacketInfo, RegisterError,
};

/// Records every payload it is given and answers with a fixed tree.
struct Recorder {
    calls: Rc<RefCell<Vec<Vec<u8>>>>,
    reply: Option<String>,
    proto: Option<String>,
}

impl Handler for Recorder {
    fn dissect(&self, payload: &[u8], pinfo: &mut PacketInfo) -> Option<String> {
        self.calls.borrow_mut().push(payload.to_vec());
        if let Some(p) = &self.proto {
            set_proto(pinfo, p.clone());
        }
        self.reply.clone()
    }
}

fn recorder(reply: Option<&str>, proto: Option<&str>) -> (Recorder, Rc<RefCell<Vec<Vec<u8>>>>) {
    let calls = Rc::new(RefCell::new(Vec::new()));
    let r = Recorder {
        calls: calls.clone(),
        reply: reply.map(|s| s.to_string()),
        proto: proto.map(|s| s.to_string()),
    };
    (r, calls)
}

fn header(len: u32) -> CaptureHeader {
    CaptureHeader { ts_sec: 1_500_000_000, ts_usec: 250, len }
}

fn ethernet(ethertype: u16, payload: &[u8]) -> Vec<u8> {
    let mut f = vec![0x00, 0x11, 0x22, 0x33, 0x44, 0x55, 0xaa, 0xbb, 0xcc, 0xdd, 0xee, 0x0f];
    f.push((ethertype >> 8) as u8);
    f.push(ethertype as u8);
    f.extend_from_slice(payload);
    f
}

fn ipv4(proto: u8, payload: &[u8]) -> Vec<u8> {
    let mut p = vec![0x45, 0, 0, 0, 0, 0, 0, 0, 64, proto, 0, 0, 192, 168, 1, 10, 10, 0, 0, 1];
    p.extend_from_slice(payload);
    p
}

fn run(frame: Vec<u8>) -> (String, PacketInfo) {
    let tbl: DissectorTable<Recorder> = DissectorTable::new();
    let len = frame.len() as u32;
    dissect(7, header(len), frame, &tbl)
}

fn tcp_frame(src: u16, dst: u16) -> Vec<u8> {
    let tcp = [(src >> 8) as u8, src as u8, (dst >> 8) as u8, dst as u8, 0, 0, 0, 1];
    ethernet(0x0800, &ipv4(6, &tcp))
}

#[test]
fn tcp_frame_fills_ports_and_info() {
    let (_, info) = run(tcp_frame(443, 51234));
    assert_eq!(info.src_port, Some(443));
    assert_eq!(info.dst_port, Some(51234));
    assert_eq!(info.info.as_deref(), Some("TCP 443 -> 51234"));
    assert_eq!(info.proto.as_deref(), Some("TCP"));
    assert_eq!(info.net_src.as_deref(), Some("192.168.1.10"));
    assert_eq!(info.net_dst.as_deref(), Some("10.0.0.1"));
    assert_eq!(info.num, 7);
    assert_eq!(info.len, 42);
    assert_eq!(info.time.sec, 1_500_000_000);
    assert_eq!(info.time.nsec, 250_000);
}

#[test]
fn tcp_ports_are_big_endian() {
    for (s, d) in [(0u16, 65535u16), (0x0102, 0x0304), (80, 8080), (65535, 1)] {
        let (_, info) = run(tcp_frame(s, d));
        assert_eq!(info.src_port, Some(s));
        assert_eq!(info.dst_port, Some(d));
        assert_eq!(info.info, Some(format!("TCP {} -> {}", s, d)));
    }
}

#[test]
fn tcp_tree_text() {
    let (tree, _) = run(tcp_frame(80, 1234));
    let expected = [
        "((\"Ethernet\" \"Ethernet aa:bb:cc:dd:ee:0f -> 00:11:22:33:44:55\") ",
        "((\"Destination\" \"00:11:22:33:44:55\") ",
        "((\"Source\" \"aa:bb:cc:dd:ee:0f\") ",
        "((\"Type\" \"IPv4\") ",
        "((\"Internet Protocol v4\" \"IP 192.168.1.10 -> 10.0.0.1\") ",
        "((\"Time to live\" \"64\") ",
        "((\"Protocol\" \"TCP\") ",
        "((\"Source\" \"192.168.1.10\") ",
        "((\"Destination\" \"10.0.0.1\") ",
        "((\"Transmission Control Protocol\" \"Src Port: 80, Dst Port: 1234\") ",
        "((\"Source Port\" \"80\") ((\"Destination Port\" \"1234\") () ()) ()) ()) ",
        "()) ()) ()) ()) ()) ()) ()) ()) ())",
    ]
    .join("");
    assert_eq!(tree, expected);
}

fn label(node: &Sexp) -> (String, String) {
    match node {
        Sexp::List(items) => match &items[0] {
            Sexp::List(kv) => match (&kv[0], &kv[1]) {
                (Sexp::Atom(Atom::S(k)), Sexp::Atom(Atom::S(v))) => (k.clone(), v.clone()),
                _ => panic!("label is not two strings"),
            },
            _ => panic!("label is not a list"),
        },
        _ => panic!("node is not a list"),
    }
}

fn child(node: &Sexp) -> &Sexp {
    match node {
        Sexp::List(items) => {
            assert_eq!(items.len(), 3);
            match &items[2] {
                Sexp::List(s) => assert!(s.is_empty()),
                _ => panic!("sibling is not a list"),
            }
            &items[1]
        }
        _ => panic!("node is not a list"),
    }
}

fn is_empty(node: &Sexp) -> bool {
    matches!(node, Sexp::List(items) if items.is_empty())
}

/// Walks the chain of fields below a layer node; returns their names and the
/// node that hangs from the last one.
fn fields(layer: &Sexp) -> (Vec<String>, Sexp) {
    let mut names = Vec::new();
    let mut cur = child(layer).clone();
    loop {
        names.push(label(&cur).0);
        let next = child(&cur).clone();
        let next_is_field = !is_empty(&next) && {
            let (k, _) = label(&next);
            !["Internet Protocol v4", "Transmission Control Protocol"].contains(&k.as_str())
        };
        if !next_is_field {
            return (names, next);
        }
        cur = next;
    }
}

#[test]
fn tcp_tree_parses_into_three_layers() {
    let (tree, _) = run(tcp_frame(80, 1234));
    let root = sexp::parse(&tree).unwrap();
    assert_eq!(label(&root).0, "Ethernet");
    let (eth_fields, ip) = fields(&root);
    assert_eq!(eth_fields, vec!["Destination", "Source", "Type"]);
    assert_eq!(label(&ip).0, "Internet Protocol v4");
    let (ip_fields, tcp) = fields(&ip);
    assert_eq!(ip_fields, vec!["Time to live", "Protocol", "Source", "Destination"]);
    assert_eq!(label(&tcp), ("Transmission Control Protocol".to_string(), "Src Port: 80, Dst Port: 1234".to_string()));
    let (tcp_fields, rest) = fields(&tcp);
    assert_eq!(tcp_fields, vec!["Source Port", "Destination Port"]);
    assert!(is_empty(&rest));
}

#[test]
fn udp_frame() {
    let udp = [0x00, 0x35, 0xc3, 0x50, 0, 8, 0, 0];
    let (tree, info) = run(ethernet(0x0800, &ipv4(17, &udp)));
    assert_eq!(info.src_port, Some(53));
    assert_eq!(info.dst_port, Some(50000));
    assert_eq!(info.info.as_deref(), Some("UDP 53 -> 50000"));
    assert_eq!(info.proto.as_deref(), Some("UDP"));
    assert!(tree.contains("((\"User Datagram Protocol\" \"Src Port: 53, Dst Port: 50000\") ((\"Source Port\" \"53\") ((\"Destination Port\" \"50000\") () ()) ()) ())"));
}

#[test]
fn icmp_frame() {
    let (tree, info) = run(ethernet(0x0800, &ipv4(1, &[3, 1, 0, 0])));
    assert_eq!(info.info.as_deref(), Some("ICMP Destination Unreachable(3), host unreachable(1)"));
    assert_eq!(info.proto.as_deref(), Some("ICMP"));
    assert_eq!(info.src_port, None);
    assert!(tree.contains("((\"Internet Control Message Protocol\" \"icmp\") ((\"Type\" \"Destination Unreachable(3)\") ((\"Code\" \"host unreachable(1)\") ((\"Data\" \"...\") () ()) ()) ()) ())"));
}

#[test]
fn icmp_labels_table() {
    let s = |a: &str, b: &str| (a.to_string(), b.to_string());
    assert_eq!(icmp_type_and_code(0, 0), s("Echo Reply(0)", "0"));
    assert_eq!(icmp_type_and_code(0, 17), s("Echo Reply(0)", "17"));
    assert_eq!(icmp_type_and_code(3, 0), s("Destination Unreachable(3)", "net unreachable(0)"));
    assert_eq!(icmp_type_and_code(3, 1), s("Destination Unreachable(3)", "host unreachable(1)"));
    assert_eq!(icmp_type_and_code(3, 2), s("Destination Unreachable(3)", "protocol unreachable(2)"));
    assert_eq!(icmp_type_and_code(3, 3), s("Destination Unreachable(3)", "port unreachable(3)"));
    assert_eq!(icmp_type_and_code(3, 4), s("Destination Unreachable(3)", "fragmentation needed and DF set(4)"));
    assert_eq!(icmp_type_and_code(3, 5), s("Destination Unreachable(3)", "source route failed(5)"));
    assert_eq!(icmp_type_and_code(3, 6), s("Destination Unreachable(3)", "unknown code"));
    assert_eq!(icmp_type_and_code(3, 255), s("Destination Unreachable(3)", "unknown code"));
    assert_eq!(icmp_type_and_code(8, 0), s("Echo Request(8)", "0"));
    assert_eq!(icmp_type_and_code(8, 200), s("Echo Request(8)", "200"));
    assert_eq!(icmp_type_and_code(5, 1), s("Not implemented yet", "Sorry"));
    assert_eq!(icmp_type_and_code(255, 3), s("Not implemented yet", "Sorry"));
}

#[test]
fn address_texts() {
    assert_eq!(ipaddr_str(&[192, 168, 0, 1]), "192.168.0.1");
    assert_eq!(ipaddr_str(&[0, 0, 0, 0, 99]), "0.0.0.0");
    assert_eq!(ipaddr_str(&[255, 10, 100, 7]), "255.10.100.7");
    assert_eq!(hwaddr_str(&[0, 0x1a, 0xff, 0x0b, 0x10, 0x9c]), "00:1a:ff:0b:10:9c");
}

#[test]
fn link_layer_truncated_at_thirteen_bytes() {
    let frame = ethernet(0x0800, &[])[..13].to_vec();
    let (tree, info) = run(frame);
    assert_eq!(tree, "((\"Truncated\" \"Ethernet\") () ())");
    assert_eq!(info.src_port, None);
    assert_eq!(info.dst_port, None);
    assert_eq!(info.net_src, None);
    assert_eq!(info.proto, None);
    assert_eq!(info.info, None);
    assert_eq!(info.len, 13);
}

#[test]
fn transport_truncated_after_complete_ip_header() {
    let frame = ethernet(0x0800, &ipv4(6, &[0, 80, 4]));
    assert_eq!(frame.len(), ETHERNET_HEADER_LEN + IPV4_HEADER_LEN + 3);
    let (tree, info) = run(frame);
    assert_eq!(info.src_port, None);
    assert_eq!(info.dst_port, None);
    assert_eq!(info.net_src.as_deref(), Some("192.168.1.10"));
    assert_eq!(info.net_dst.as_deref(), Some("10.0.0.1"));
    assert_eq!(info.proto.as_deref(), Some("TCP"));
    assert_eq!(info.info.as_deref(), Some("IP 192.168.1.10 -> 10.0.0.1"));
    assert!(tree.contains("((\"Destination\" \"10.0.0.1\") ((\"Truncated\" \"TCP\") () ()) ())"));
}

#[test]
fn network_layer_truncated() {
    let (tree, info) = run(ethernet(0x0800, &[0x45, 0, 0]));
    assert_eq!(info.net_src.as_deref(), Some("aa:bb:cc:dd:ee:0f"));
    assert_eq!(info.net_dst.as_deref(), Some("00:11:22:33:44:55"));
    assert_eq!(info.info.as_deref(), Some("Ethernet aa:bb:cc:dd:ee:0f -> 00:11:22:33:44:55"));
    assert_eq!(info.proto, None);
    assert!(tree.contains("((\"Type\" \"IPv4\") ((\"Truncated\" \"IPv4\") () ()) ())"));
}

#[test]
fn unknown_ethertype_without_handler() {
    let (tree, info) = run(ethernet(0x0806, &[1, 2, 3]));
    assert!(tree.contains("((\"Type\" \"2054\") ((\"2054\" \"unknown protocol\") () ()) ())"));
    assert_eq!(info.net_src.as_deref(), Some("aa:bb:cc:dd:ee:0f"));
    assert_eq!(info.proto, None);
    assert_eq!(info.info.as_deref(), Some("Ethernet aa:bb:cc:dd:ee:0f -> 00:11:22:33:44:55"));
}

#[test]
fn unknown_ip_protocol_without_handler() {
    let (tree, info) = run(ethernet(0x0800, &ipv4(47, &[9, 9])));
    assert!(tree.contains("((\"Protocol\" \"47\")"));
    assert!(tree.contains("((\"Destination\" \"10.0.0.1\") ((\"47\" \"unknown protocol\") () ()) ())"));
    assert_eq!(info.proto.as_deref(), Some("47"));
    assert_eq!(info.info.as_deref(), Some("IP 192.168.1.10 -> 10.0.0.1"));
}

#[test]
fn net_handler_gets_payload_after_link_header() {
    let (h, calls) = recorder(Some("((\"Custom\" \"x\") () ())"), Some("CUSTOM"));
    let mut tbl = DissectorTable::new();
    assert_eq!(set_dissector(&mut tbl, "net", 0x88B5, h), Ok(()));
    let frame = ethernet(0x88B5, &[5, 6, 7, 8]);
    let (tree, info) = dissect(1, header(18), frame.clone(), &tbl);
    assert_eq!(*calls.borrow(), vec![frame[14..].to_vec()]);
    assert!(tree.contains("((\"Type\" \"34997\") ((\"Custom\" \"x\") () ()) ())"));
    assert_eq!(info.proto.as_deref(), Some("CUSTOM"));
    assert_eq!(info.net_src.as_deref(), Some("aa:bb:cc:dd:ee:0f"));
    assert_eq!(info.net_dst.as_deref(), Some("00:11:22:33:44:55"));
    assert_eq!(info.info.as_deref(), Some("Ethernet aa:bb:cc:dd:ee:0f -> 00:11:22:33:44:55"));
}

/// Sets the description instead of the protocol label.
struct Describer;

impl Handler for Describer {
    fn dissect(&self, payload: &[u8], pinfo: &mut PacketInfo) -> Option<String> {
        set_info(pinfo, format!("GRE {} bytes", payload.len()));
        Some("((\"GRE\" \"\") () ())".to_string())
    }
}

#[test]
fn transport_handler_description_wins_over_ip() {
    let mut tbl = DissectorTable::new();
    assert_eq!(set_dissector(&mut tbl, "transport", 47, Describer), Ok(()));
    let (tree, info) = dissect(2, header(40), ethernet(0x0800, &ipv4(47, &[1, 2, 3, 4, 5, 6])), &tbl);
    assert_eq!(info.info.as_deref(), Some("GRE 6 bytes"));
    assert_eq!(info.proto.as_deref(), Some("47"));
    assert_eq!(info.net_src.as_deref(), Some("192.168.1.10"));
    assert!(tree.contains("((\"Destination\" \"10.0.0.1\") ((\"GRE\" \"\") () ()) ())"));
}

#[test]
fn failing_handler_leaves_error_leaf() {
    let (h, calls) = recorder(None, None);
    let mut tbl = DissectorTable::new();
    assert_eq!(set_dissector(&mut tbl, "net", 0x86DD, h), Ok(()));
    let (tree, info) = dissect(3, header(20), ethernet(0x86DD, &[0; 6]), &tbl);
    assert_eq!(calls.borrow().len(), 1);
    assert!(tree.contains("((\"34525\" \"handler error\") () ())"));
    assert_eq!(info.proto, None);
}

#[test]
fn registration_errors() {
    let (h1, _) = recorder(None, None);
    let (h2, _) = recorder(None, None);
    let (h3, c3) = recorder(Some("()"), None);
    let mut tbl = DissectorTable::new();
    assert_eq!(set_dissector(&mut tbl, "link", 1, h1), Err(RegisterError::UnknownScope));
    assert_eq!(set_dissector(&mut tbl, "transport", 256, h2), Err(RegisterError::KeyOutOfRange));
    assert_eq!(set_dissector(&mut tbl, "net", 65536, h3), Err(RegisterError::KeyOutOfRange));
    assert!(tbl.net(0).is_none());
    assert!(tbl.transport(0).is_none());
    assert!(c3.borrow().is_empty());
}

#[test]
fn port_scopes_take_sixteen_bit_keys() {
    let (h1, _) = recorder(None, None);
    let (h2, _) = recorder(None, None);
    let mut tbl = DissectorTable::new();
    assert_eq!(set_dissector(&mut tbl, "tcp", 8080, h1), Ok(()));
    assert_eq!(set_dissector(&mut tbl, "udp", 5353, h2), Ok(()));
    assert!(tbl.tcp(8080).is_some());
    assert!(tbl.udp(5353).is_some());
    assert!(tbl.tcp(5353).is_none());
    assert!(tbl.net(8080).is_none());
}

#[test]
fn later_registration_replaces_earlier() {
    let (h1, c1) = recorder(Some("((\"A\" \"\") () ())"), None);
    let (h2, c2) = recorder(Some("((\"B\" \"\") () ())"), None);
    let mut tbl = DissectorTable::new();
    assert_eq!(set_dissector(&mut tbl, "net", 0x88B5, h1), Ok(()));
    assert_eq!(set_dissector(&mut tbl, "net", 0x88B5, h2), Ok(()));
    let (tree, _) = dissect(1, header(15), ethernet(0x88B5, &[1]), &tbl);
    assert!(c1.borrow().is_empty());
    assert_eq!(c2.borrow().len(), 1);
    assert!(tree.contains("((\"B\" \"\") () ())"));
}

#[test]
fn setters_replace_fields() {
    let mut info = PacketInfo::new(9, header(60));
    set_proto(&mut info, "ARP".to_string());
    set_info(&mut info, "who has".to_string());
    set_proto(&mut info, "RARP".to_string());
    assert_eq!(info.proto.as_deref(), Some("RARP"));
    assert_eq!(info.info.as_deref(), Some("who has"));
    assert_eq!(info.num, 9);
    assert_eq!(info.net_src, None);
}

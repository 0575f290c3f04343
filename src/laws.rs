//! Properties that relate the dissectors, the registry and the summary.
use vstd::prelude::*;
use crate::dissect::{
    be16, dispatch_ok, eth_finish, frame_view, ports_summary, ETHERTYPE_IPV4, IPPROTO_TCP,
};
use crate::info::InfoView;
use crate::registry::{Scope, TableView};
use crate::text::hw_text;

verus! {

/// A frame that carries TCP over IPv4, with both headers complete, ends with
/// the two ports read big-endian from the first four bytes of the TCP header
/// and the description `TCP <src> -> <dst>`, whatever the registry holds.
pub proof fn lemma_tcp_ports(frame: Seq<u8>, info: InfoView, t: Seq<char>, a: InfoView)
    requires
        frame.len() >= 38,
        be16(frame, 12) == ETHERTYPE_IPV4,
        frame[23] == IPPROTO_TCP,
    ensures
        ({
            let s = be16(frame, 34);
            let d = be16(frame, 36);
            let r = frame_view(frame, info, t, a).1;
            r.src_port == Some(s) && r.dst_port == Some(d) && r.info == Some(ports_summary("TCP"@, s, d))
        }),
{
    let data = frame.subrange(14, frame.len() as int);
    let tcp = data.subrange(20, data.len() as int);
    assert(data[9] == frame[23]);
    assert(tcp[0] == frame[34] && tcp[1] == frame[35] && tcp[2] == frame[36] && tcp[3] == frame[37]);
}

/// A frame whose ethertype is not IPv4 but has a registered handler ends
/// with the hardware source and destination addresses as its network
/// addresses, the handler being unable to set them.
pub proof fn lemma_link_fallback<H>(tbl: TableView<H>, frame: Seq<u8>, info: InfoView, t: Seq<char>, a: InfoView)
    requires
        frame.len() >= 14,
        be16(frame, 12) != ETHERTYPE_IPV4,
        tbl.net.contains_key(be16(frame, 12)),
        info.net_src is None,
        info.net_dst is None,
        dispatch_ok(tbl, frame, info, t, a),
    ensures
        frame_view(frame, info, t, a).1.net_src == Some(hw_text(frame.subrange(6, 12))),
        frame_view(frame, info, t, a).1.net_dst == Some(hw_text(frame.subrange(0, 6))),
{
}

/// After a handler is registered for an ethertype, it is what a lookup of that
/// ethertype finds, and a frame of that ethertype goes to it: its tree hangs
/// under the Ethernet type field, and it may change only the protocol label
/// and the description.
pub proof fn lemma_net_registration<H>(
    tbl: TableView<H>,
    key: u16,
    h: H,
    frame: Seq<u8>,
    info: InfoView,
    t: Seq<char>,
    a: InfoView,
)
    requires
        key != ETHERTYPE_IPV4,
        frame.len() >= 14,
        be16(frame, 12) == key,
        dispatch_ok(tbl.insert(Scope::Net, key as nat, h), frame, info, t, a),
    ensures
        tbl.insert(Scope::Net, key as nat, h).lookup(Scope::Net, key as nat) == Some(h),
        frame_view(frame, info, t, a) == eth_finish(frame, t, a),
        a == (InfoView { proto: a.proto, info: a.info, ..info }),
{
    let tbl2 = tbl.insert(Scope::Net, key as nat, h);
    assert(tbl2.net.contains_key(key));
}

} // verus!

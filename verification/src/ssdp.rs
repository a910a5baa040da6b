//! SSDP discovery: the multicast search datagram, response parsing, and
//! first-seen de-duplication of the devices that answer.

use crate::numerals::u16_dec;
use crate::numerals::u16_to_string;
use crate::text::contains_from;
use crate::text::find_in_str;
use crate::text::header_value;
use crate::text::header_value_spec;
use vstd::prelude::*;

verus! {

/// A device that answered the multicast search: the description URL it
/// advertises, its unique service name, and the echoed search target.
#[derive(Debug, Clone)]
pub struct DiscoveredDevice {
    pub location: String,
    pub usn: String,
    pub st: String,
}

/// The mathematical image of a `DiscoveredDevice`.
pub ghost struct DiscoveredDeviceView {
    pub location: Seq<char>,
    pub usn: Seq<char>,
    pub st: Seq<char>,
}

impl View for DiscoveredDevice {
    type V = DiscoveredDeviceView;

    open spec fn view(&self) -> DiscoveredDeviceView {
        DiscoveredDeviceView { location: self.location@, usn: self.usn@, st: self.st@ }
    }
}

/// The search-target token that identifies a media renderer.
pub open spec fn media_renderer_target_spec() -> Seq<char> {
    "urn:schemas-upnp-org:device:MediaRenderer:1"@
}

/// The search-target token that identifies a media renderer.
pub fn media_renderer_target() -> (r: &'static str)
    ensures
        r@ == media_renderer_target_spec(),
{
    "urn:schemas-upnp-org:device:MediaRenderer:1"
}

/// The multicast search datagram for the given group address and port.
pub open spec fn search_request_spec(addr: Seq<char>, port: u16) -> Seq<char> {
    "M-SEARCH * HTTP/1.1\r\nHOST: "@ + addr + ":"@ + u16_dec(port)
        + "\r\nMAN: \"ssdp:discover\"\r\nMX: 5\r\nST: ssdp:all\r\n\r\n"@
}

/// Builds the multicast search datagram.
pub fn build_search_request(addr: &str, port: u16) -> (r: String)
    ensures
        r@ == search_request_spec(addr@, port),
{
    let mut s = String::from_str("M-SEARCH * HTTP/1.1\r\nHOST: ");
    s.append(addr);
    s.append(":");
    let p = u16_to_string(port);
    s.append(p.as_str());
    s.append("\r\nMAN: \"ssdp:discover\"\r\nMX: 5\r\nST: ssdp:all\r\n\r\n");
    proof {
        assert(s@ =~= search_request_spec(addr@, port));
    }
    s
}

/// The record a discovery response parses to: each field is the trimmed
/// value of its header line, empty when the header is absent.
pub open spec fn device_of_response(s: Seq<char>) -> DiscoveredDeviceView {
    DiscoveredDeviceView {
        location: header_value_spec(s, "LOCATION:"@),
        usn: header_value_spec(s, "USN:"@),
        st: header_value_spec(s, "ST:"@),
    }
}

/// Parses one discovery response.  The datagram is accepted exactly when its
/// text mentions the search-target token `target`; each field defaults to
/// the empty string when its header is absent.
pub fn parse_ssdp_response(s: &str, target: &str) -> (r: Option<DiscoveredDevice>)
    ensures
        (r is Some) == contains_from(s@, target@, 0),
        r matches Some(d) ==> d@ == device_of_response(s@),
{
    match find_in_str(s, target, 0) {
        None => None,
        Some(_) => {
            let location = header_value(s, "LOCATION:");
            let usn = header_value(s, "USN:");
            let st = header_value(s, "ST:");
            Some(DiscoveredDevice { location, usn, st })
        },
    }
}

/// The device list already holds an entry with unique service name `usn`.
pub open spec fn has_usn(devs: Seq<DiscoveredDeviceView>, usn: Seq<char>) -> bool {
    exists|k: int| 0 <= k < devs.len() && devs[k].usn == usn
}

/// Adding one accepted response to the result list: dropped when its unique
/// service name is already present, appended otherwise.
pub open spec fn register_spec(
    devs: Seq<DiscoveredDeviceView>,
    d: DiscoveredDeviceView,
) -> Seq<DiscoveredDeviceView> {
    if has_usn(devs, d.usn) {
        devs
    } else {
        devs.push(d)
    }
}

/// The images of a sequence of discovered devices.
pub open spec fn device_views(s: Seq<DiscoveredDevice>) -> Seq<DiscoveredDeviceView> {
    s.map_values(|d: DiscoveredDevice| d@)
}

/// Appends a parsed response to the result list unless a device with the
/// same unique service name was already collected; the first answer wins.
pub fn register_device(devices: &mut Vec<DiscoveredDevice>, d: DiscoveredDevice)
    ensures
        device_views(final (devices)@) == register_spec(device_views(old(devices)@), d@),
{
    let mut i: usize = 0;
    while i < devices.len()
        invariant
            i <= devices.len(),
            devices@ == old(devices)@,
            forall|k: int| 0 <= k < i ==> device_views(devices@)[k].usn != d@.usn,
        decreases devices.len() - i,
    {
        if devices[i].usn == d.usn {
            proof {
                assert(device_views(devices@)[i as int].usn == d@.usn);
                assert(has_usn(device_views(devices@), d@.usn));
            }
            return ;
        }
        i += 1;
    }
    proof {
        assert(!has_usn(device_views(devices@), d@.usn));
        assert(device_views(devices@.push(d)) =~= device_views(devices@).push(d@));
    }
    devices.push(d);
}

/// The discovery result after a sequence of accepted responses, processed in
/// arrival order.
pub open spec fn collect_devices(rs: Seq<DiscoveredDeviceView>) -> Seq<DiscoveredDeviceView>
    decreases rs.len(),
{
    if rs.len() == 0 {
        Seq::empty()
    } else {
        register_spec(collect_devices(rs.drop_last()), rs.last())
    }
}

/// The index of the first response whose unique service name is `u`.
pub open spec fn first_with_usn(rs: Seq<DiscoveredDeviceView>, u: Seq<char>) -> int
    decreases rs.len(),
{
    if rs.len() == 0 {
        0
    } else if has_usn(rs.drop_last(), u) {
        first_with_usn(rs.drop_last(), u)
    } else {
        rs.len() - 1
    }
}

proof fn lemma_first_with_usn(rs: Seq<DiscoveredDeviceView>, u: Seq<char>)
    requires
        has_usn(rs, u),
    ensures
        0 <= first_with_usn(rs, u) < rs.len(),
        rs[first_with_usn(rs, u)].usn == u,
        forall|j: int| 0 <= j < first_with_usn(rs, u) ==> rs[j].usn != u,
    decreases rs.len(),
{
    if has_usn(rs.drop_last(), u) {
        lemma_first_with_usn(rs.drop_last(), u);
        assert forall|j: int| 0 <= j < first_with_usn(rs, u) implies rs[j].usn != u by {
            assert(rs.drop_last()[j].usn == rs[j].usn);
        }
    } else {
        let k = choose|k: int| 0 <= k < rs.len() && rs[k].usn == u;
        if k < rs.len() - 1 {
            assert(rs.drop_last()[k].usn == u);
            assert(has_usn(rs.drop_last(), u));
        }
        assert(rs[rs.len() - 1].usn == u);
        assert forall|j: int| 0 <= j < rs.len() - 1 implies rs[j].usn != u by {
            if rs[j].usn == u {
                assert(rs.drop_last()[j].usn == u);
                assert(has_usn(rs.drop_last(), u));
            }
        }
    }
}

/// Law: for any sequence of accepted responses, devices sharing a unique
/// service name collapse to exactly one entry of the discovery result — the
/// collected entries carry pairwise distinct names, every name that answered
/// is represented — the entry kept for a name is the first response received
/// with it, and entries stand in the order those first responses arrived.
pub proof fn lemma_discovery_first_seen_wins(rs: Seq<DiscoveredDeviceView>)
    ensures
        forall|i: int|
            0 <= i < collect_devices(rs).len() ==> has_usn(
                rs,
                #[trigger] collect_devices(rs)[i].usn,
            ),
        forall|i: int, j: int|
            0 <= i < j < collect_devices(rs).len() ==> collect_devices(rs)[i].usn
                != collect_devices(rs)[j].usn,
        forall|k: int| 0 <= k < rs.len() ==> has_usn(collect_devices(rs), #[trigger] rs[k].usn),
        forall|i: int|
            0 <= i < collect_devices(rs).len() ==> #[trigger] collect_devices(rs)[i] == rs[
                first_with_usn(rs, collect_devices(rs)[i].usn)],
        forall|i: int, j: int|
            0 <= i < j < collect_devices(rs).len() ==> first_with_usn(
                rs,
                #[trigger] collect_devices(rs)[i].usn,
            ) < first_with_usn(rs, #[trigger] collect_devices(rs)[j].usn),
    decreases rs.len(),
{
    if rs.len() == 0 {
    } else {
        let prefix = rs.drop_last();
        let prev = collect_devices(prefix);
        let d = rs.last();
        let cur = collect_devices(rs);
        lemma_discovery_first_seen_wins(prefix);
        assert forall|u: Seq<char>| has_usn(prefix, u) implies #[trigger] has_usn(rs, u) by {
            let k = choose|k: int| 0 <= k < prefix.len() && prefix[k].usn == u;
            assert(rs[k].usn == u);
        }
        assert forall|u: Seq<char>| has_usn(prefix, u) implies first_with_usn(rs, u)
            == first_with_usn(prefix, u) && rs[first_with_usn(rs, u)] == prefix[first_with_usn(
            prefix,
            u,
        )] by {
            lemma_first_with_usn(prefix, u);
        }
        if has_usn(prev, d.usn) {
            assert(cur == prev);
            assert forall|k: int| 0 <= k < rs.len() implies has_usn(
                cur,
                #[trigger] rs[k].usn,
            ) by {
                if k < rs.len() - 1 {
                    assert(prefix[k].usn == rs[k].usn);
                    assert(has_usn(prev, prefix[k].usn));
                }
            }
            assert forall|i: int, j: int| 0 <= i < j < cur.len() implies first_with_usn(
                rs,
                #[trigger] cur[i].usn,
            ) < first_with_usn(rs, #[trigger] cur[j].usn) by {
                assert(has_usn(prefix, prev[i].usn));
                assert(has_usn(prefix, prev[j].usn));
            }
        } else {
            assert(cur == prev.push(d));
            assert forall|i: int| 0 <= i < cur.len() implies has_usn(
                rs,
                #[trigger] cur[i].usn,
            ) by {
                if i < prev.len() {
                    assert(cur[i] == prev[i]);
                    assert(has_usn(prefix, prev[i].usn));
                } else {
                    assert(cur[i] == d);
                    assert(rs[rs.len() - 1].usn == d.usn);
                }
            }
            assert forall|i: int, j: int| 0 <= i < j < cur.len() implies cur[i].usn
                != cur[j].usn by {
                if j == prev.len() {
                    if cur[i].usn == d.usn {
                        assert(prev[i].usn == d.usn);
                        assert(has_usn(prev, d.usn));
                    }
                }
            }
            assert forall|k: int| 0 <= k < rs.len() implies has_usn(
                cur,
                #[trigger] rs[k].usn,
            ) by {
                if k < rs.len() - 1 {
                    assert(prefix[k].usn == rs[k].usn);
                    assert(has_usn(prev, prefix[k].usn));
                    let t = choose|t: int| 0 <= t < prev.len() && prev[t].usn == prefix[k].usn;
                    assert(cur[t].usn == rs[k].usn);
                } else {
                    assert(cur[prev.len() as int].usn == rs[k].usn);
                }
            }
            assert forall|i: int| 0 <= i < cur.len() implies #[trigger] cur[i] == rs[first_with_usn(
                rs,
                cur[i].usn,
            )] by {
                if i < prev.len() {
                    assert(cur[i] == prev[i]);
                    assert(has_usn(prefix, prev[i].usn));
                } else {
                    assert(cur[i] == d);
                    if has_usn(prefix, d.usn) {
                        assert(has_usn(prev, d.usn));
                    }
                    assert(first_with_usn(rs, d.usn) == rs.len() - 1);
                }
            }
            assert forall|i: int, j: int| 0 <= i < j < cur.len() implies first_with_usn(
                rs,
                #[trigger] cur[i].usn,
            ) < first_with_usn(rs, #[trigger] cur[j].usn) by {
                assert(cur[i] == prev[i]);
                assert(has_usn(prefix, prev[i].usn));
                if j < prev.len() {
                    assert(cur[j] == prev[j]);
                    assert(has_usn(prefix, prev[j].usn));
                } else {
                    assert(cur[j] == d);
                    lemma_first_with_usn(prefix, prev[i].usn);
                    if has_usn(prefix, d.usn) {
                        assert(has_usn(prev, d.usn));
                    }
                    assert(first_with_usn(rs, d.usn) == rs.len() - 1);
                }
            }
        }
    }
}

/// The total of a sequence of attempt durations.
pub open spec fn total_duration(ds: Seq<int>) -> int
    decreases ds.len(),
{
    if ds.len() == 0 {
        0
    } else {
        total_duration(ds.drop_last()) + ds.last()
    }
}

/// Law: a receive loop that starts a further attempt only while the deadline
/// has not passed, and whose attempts each take at most `per`, runs for at
/// least the deadline, at least one attempt's duration, and less than the
/// deadline plus one in-flight attempt.
///
/// `ds` lists the durations of the attempts actually made: each one is
/// non-negative and bounded by `per`; the time elapsed before the last
/// attempt was still short of `deadline` — otherwise that attempt would not
/// have started — and the loop only returns once the deadline has passed.
pub proof fn lemma_discovery_window(ds: Seq<int>, deadline: int, per: int)
    requires
        0 < per,
        0 < deadline,
        ds.len() > 0,
        forall|k: int| 0 <= k < ds.len() ==> 0 <= #[trigger] ds[k] <= per,
        total_duration(ds.drop_last()) < deadline,
        total_duration(ds) >= deadline,
    ensures
        deadline <= total_duration(ds) < deadline + per,
        per <= deadline ==> per <= total_duration(ds),
{
    assert(ds[ds.len() - 1] <= per);
}

/// The discovery loop starts another receive attempt exactly while the
/// elapsed time is short of the deadline.
pub fn discovery_window_open(elapsed_ms: u64, deadline_ms: u64) -> (r: bool)
    ensures
        r == (elapsed_ms < deadline_ms),
{
    elapsed_ms < deadline_ms
}

} // verus!

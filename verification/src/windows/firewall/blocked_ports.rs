//! The loopback ports that stay blocked beside the allowed proxy ports.

use crate::text::{concat3, decimal_string};
use vstd::prelude::*;
use vstd::string::*;

verus! {

/// The last port.
pub const LAST_PORT: u32 = 65535;

/// An inclusive range of ports.
#[derive(Clone, Copy, Debug, PartialEq, Eq, Structural)]
pub struct PortRange {
    pub start: u32,
    pub end: u32,
}

impl PortRange {
    /// Whether the range holds a port.
    pub open spec fn holds(self, port: int) -> bool {
        self.start <= port <= self.end
    }

    /// The range as a firewall rule spells it.
    pub open spec fn text(self) -> Seq<char> {
        if self.start == self.end {
            crate::text::decimal(self.start as nat)
        } else {
            crate::text::decimal(self.start as nat) + "-"@ + crate::text::decimal(self.end as nat)
        }
    }
}

/// Whether a port is one that the sandbox may reach. Port 0 is none.
pub open spec fn is_allowed_port(proxy_ports: Seq<u16>, port: int) -> bool {
    exists|index: int| #![trigger proxy_ports[index]] 0 <= index < proxy_ports.len() && proxy_ports[index] == port && port != 0
}

/// Whether some range holds a port.
pub open spec fn some_range_holds(ranges: Seq<PortRange>, port: int) -> bool {
    exists|index: int| 0 <= index < ranges.len() && (#[trigger] ranges[index]).holds(port)
}

/// Whether the ranges lie apart, in increasing order, with a gap between any two.
pub open spec fn lie_apart(ranges: Seq<PortRange>) -> bool {
    &&& forall|index: int|
        0 <= index < ranges.len() ==> 1 <= (#[trigger] ranges[index]).start <= ranges[index].end <= LAST_PORT
    &&& forall|first: int, second: int|
        0 <= first < second < ranges.len() ==> (#[trigger] ranges[first]).end + 1 < (#[trigger] ranges[second]).start
}

/// Whether the ranges are those of the ports that stay blocked: every port from 1 on
/// that is not allowed, in as few ranges as there can be.
pub open spec fn are_blocked_ranges(ranges: Seq<PortRange>, proxy_ports: Seq<u16>) -> bool {
    &&& lie_apart(ranges)
    &&& forall|port: int|
        1 <= port <= LAST_PORT ==> (#[trigger] some_range_holds(ranges, port)) == !is_allowed_port(proxy_ports, port)
}

/// The ranges as a firewall rule spells them.
pub open spec fn ranges_text(ranges: Seq<PortRange>) -> Seq<char>
    decreases ranges.len(),
{
    if ranges.len() == 0 {
        Seq::empty()
    } else if ranges.len() == 1 {
        ranges[0].text()
    } else {
        ranges_text(ranges.drop_last()) + ","@ + ranges.last().text()
    }
}

/// An inclusive range of ports as a firewall rule spells it.
pub fn port_range_string(start: u32, end: u32) -> (result: String)
    ensures
        result@ == (PortRange { start, end }).text(),
{
    if start == end {
        decimal_string(start as u64)
    } else {
        let first = decimal_string(start as u64);
        let last = decimal_string(end as u64);
        concat3(first.as_str(), "-", last.as_str())
    }
}

fn join_ranges(ranges: &Vec<PortRange>) -> (result: String)
    ensures
        result@ == ranges_text(ranges@),
{
    let mut text = String::new();
    for index in 0..ranges.len()
        invariant
            text@ == ranges_text(ranges@.take(index as int)),
    {
        let range = port_range_string(ranges[index].start, ranges[index].end);
        let ghost taken = ranges@.take(index + 1);
        assert(taken.drop_last() =~= ranges@.take(index as int));
        if index == 0 {
            text = range;
        } else {
            text = concat3(text.as_str(), ",", range.as_str());
        }
    }
    assert(ranges@.take(ranges.len() as int) =~= ranges@);
    text
}

fn allowed_flags(proxy_ports: &Vec<u16>) -> (result: Vec<bool>)
    ensures
        result.len() == LAST_PORT + 1,
        forall|port: int| 0 <= port <= LAST_PORT ==> #[trigger] result@[port] == is_allowed_port(proxy_ports@, port),
{
    let mut flags: Vec<bool> = Vec::new();
    while flags.len() < 65536
        invariant
            flags.len() <= 65536,
            forall|port: int| 0 <= port < flags.len() ==> !(#[trigger] flags@[port]),
        decreases 65536 - flags.len(),
    {
        flags.push(false);
    }
    for index in 0..proxy_ports.len()
        invariant
            flags.len() == 65536,
            forall|port: int|
                0 <= port < 65536 ==> #[trigger] flags@[port] == is_allowed_port(
                    proxy_ports@.take(index as int),
                    port,
                ),
    {
        let port = proxy_ports[index];
        let ghost before = flags@;
        let ghost seen = proxy_ports@.take(index as int);
        let ghost taken = proxy_ports@.take(index + 1);
        if port != 0 {
            flags.set(port as usize, true);
        }
        assert forall|other: int| 0 <= other < 65536 implies #[trigger] flags@[other] == is_allowed_port(taken, other) by {
            assert(before[other] == is_allowed_port(seen, other));
            if is_allowed_port(seen, other) {
                let place = choose|place: int| 0 <= place < seen.len() && seen[place] == other && other != 0;
                assert(taken[place] == other);
            }
            if is_allowed_port(taken, other) {
                let place = choose|place: int| 0 <= place < taken.len() && taken[place] == other && other != 0;
                if place < index {
                    assert(seen[place] == other);
                }
            }
            if other == port && port != 0 {
                assert(taken[index as int] == other);
            }
        }
    }
    assert(proxy_ports@.take(proxy_ports.len() as int) =~= proxy_ports@);
    flags
}

proof fn lemma_push_range(ranges: Seq<PortRange>, range: PortRange, port: int)
    ensures
        some_range_holds(ranges.push(range), port) == (some_range_holds(ranges, port) || range.holds(port)),
{
    let longer = ranges.push(range);
    if some_range_holds(ranges, port) {
        let index = choose|index: int| 0 <= index < ranges.len() && (#[trigger] ranges[index]).holds(port);
        assert(longer[index].holds(port));
    }
    if range.holds(port) {
        assert(longer[ranges.len() as int].holds(port));
    }
    if some_range_holds(longer, port) {
        let index = choose|index: int| 0 <= index < longer.len() && (#[trigger] longer[index]).holds(port);
        if index < ranges.len() {
            assert(ranges[index].holds(port));
        }
    }
}

/// Whether the ranges below `start` are complete, and every port from `start` up to
/// `next` is blocked.
spec fn scanned(ranges: Seq<PortRange>, proxy_ports: Seq<u16>, start: int, next: int) -> bool {
    &&& lie_apart(ranges)
    &&& forall|index: int| 0 <= index < ranges.len() ==> (#[trigger] ranges[index]).end + 1 < start
    &&& forall|port: int|
        1 <= port < start ==> (#[trigger] some_range_holds(ranges, port)) == !is_allowed_port(proxy_ports, port)
    &&& forall|port: int| start <= port < next ==> !(#[trigger] is_allowed_port(proxy_ports, port))
}

proof fn lemma_range_is_closed(ranges: Seq<PortRange>, range: PortRange, proxy_ports: Seq<u16>, next: int)
    requires
        scanned(ranges, proxy_ports, range.start as int, next),
        range.end == next - 1,
        1 <= range.start <= range.end <= LAST_PORT,
    ensures
        lie_apart(ranges.push(range)),
        forall|port: int|
            1 <= port < next ==> (#[trigger] some_range_holds(ranges.push(range), port)) == !is_allowed_port(
                proxy_ports,
                port,
            ),
{
    assert forall|port: int| 1 <= port < next implies (#[trigger] some_range_holds(ranges.push(range), port))
        == !is_allowed_port(proxy_ports, port) by {
        lemma_push_range(ranges, range, port);
        if port >= range.start {
            assert(!is_allowed_port(proxy_ports, port));
        } else {
            assert(some_range_holds(ranges, port) == !is_allowed_port(proxy_ports, port));
        }
    }
}

/// The ranges of the ports that stay blocked.
fn blocked_ranges(proxy_ports: &Vec<u16>) -> (result: Vec<PortRange>)
    ensures
        are_blocked_ranges(result@, proxy_ports@),
{
    let flags = allowed_flags(proxy_ports);
    let mut ranges: Vec<PortRange> = Vec::new();
    let mut start: u32 = 1;
    let mut port: u32 = 1;
    while port <= LAST_PORT
        invariant
            flags.len() == LAST_PORT + 1,
            forall|port: int|
                0 <= port <= LAST_PORT ==> #[trigger] flags@[port] == is_allowed_port(proxy_ports@, port),
            1 <= start <= port <= LAST_PORT + 1,
            scanned(ranges@, proxy_ports@, start as int, port as int),
        decreases LAST_PORT + 1 - port,
    {
        if flags[port as usize] {
            let ghost before = ranges@;
            assert(is_allowed_port(proxy_ports@, port as int));
            if port > start {
                let range = PortRange { start, end: port - 1 };
                proof {
                    lemma_range_is_closed(ranges@, range, proxy_ports@, port as int);
                }
                ranges.push(range);
            }
            assert(!some_range_holds(ranges@, port as int));
            start = port + 1;
        }
        port = port + 1;
    }
    if start <= LAST_PORT {
        let range = PortRange { start, end: LAST_PORT };
        proof {
            lemma_range_is_closed(ranges@, range, proxy_ports@, port as int);
        }
        ranges.push(range);
    }
    ranges
}

/// The list of ports that stay blocked, as a firewall rule spells it.
///
/// There is no such list where no port is allowed, so that the rule blocks every port
/// without one, nor where no port stays blocked.
pub open spec fn blocked_ports_text(proxy_ports: Seq<u16>) -> Option<Seq<char>> {
    if (forall|port: int| !(#[trigger] is_allowed_port(proxy_ports, port))) || (forall|port: int|
        1 <= port <= LAST_PORT ==> #[trigger] is_allowed_port(proxy_ports, port)) {
        None
    } else {
        Some(ranges_text(choose|ranges: Seq<PortRange>| #[trigger] are_blocked_ranges(ranges, proxy_ports)))
    }
}

/// The list of ports that stay blocked, as a firewall rule spells it.
///
/// There is no such list where no port is allowed, so that the rule blocks every port
/// without one, nor where no port stays blocked.
pub fn blocked_loopback_tcp_remote_ports(proxy_ports: &Vec<u16>) -> (result: Option<String>)
    ensures
        result.deep_view() == blocked_ports_text(proxy_ports@),
{
    let mut any = false;
    for index in 0..proxy_ports.len()
        invariant
            any == exists|place: int| 0 <= place < index && #[trigger] proxy_ports@[place] != 0,
    {
        if proxy_ports[index] != 0 {
            any = true;
        }
    }
    if !any {
        return None;
    }
    proof {
        let place = choose|place: int| 0 <= place < proxy_ports.len() && #[trigger] proxy_ports@[place] != 0;
        assert(is_allowed_port(proxy_ports@, proxy_ports@[place] as int));
    }
    let ranges = blocked_ranges(proxy_ports);
    if ranges.len() == 0 {
        assert forall|port: int| 1 <= port <= LAST_PORT implies #[trigger] is_allowed_port(proxy_ports@, port) by {
            assert(!some_range_holds(ranges@, port));
        }
        None
    } else {
        proof {
            assert(ranges@[0].holds(ranges@[0].start as int));
            assert(some_range_holds(ranges@, ranges@[0].start as int));
            assert(!is_allowed_port(proxy_ports@, ranges@[0].start as int));
            let chosen = choose|ranges: Seq<PortRange>| #[trigger] are_blocked_ranges(ranges, proxy_ports@);
            blocked_ranges_are_unique(ranges@, chosen, proxy_ports@);
        }
        Some(join_ranges(&ranges))
    }
}

proof fn lemma_first_range(left: Seq<PortRange>, right: Seq<PortRange>, proxy_ports: Seq<u16>, index: int)
    requires
        are_blocked_ranges(left, proxy_ports),
        are_blocked_ranges(right, proxy_ports),
        0 <= index < left.len(),
        index <= right.len(),
        left.take(index) == right.take(index),
    ensures
        index < right.len(),
        right[index].start <= left[index].start,
{
    let port = left[index].start as int;
    assert(left[index].holds(port));
    assert(some_range_holds(left, port));
    assert(some_range_holds(right, port));
    let place = choose|place: int| 0 <= place < right.len() && (#[trigger] right[place]).holds(port);
    if place < index {
        assert(left.take(index)[place] == left[place]);
        assert(right.take(index)[place] == right[place]);
        assert(left[place].end + 1 < left[index].start);
    }
    if place > index {
        assert(right[index].end + 1 < right[place].start);
    }
}

proof fn lemma_range_end(left: Seq<PortRange>, right: Seq<PortRange>, proxy_ports: Seq<u16>, index: int)
    requires
        are_blocked_ranges(left, proxy_ports),
        are_blocked_ranges(right, proxy_ports),
        0 <= index < left.len(),
        index < right.len(),
        left[index].start == right[index].start,
    ensures
        left[index].end <= right[index].end,
{
    if left[index].end > right[index].end {
        let port = right[index].end + 1;
        assert(left[index].holds(port));
        assert(some_range_holds(left, port));
        assert(some_range_holds(right, port));
        let place = choose|place: int| 0 <= place < right.len() && (#[trigger] right[place]).holds(port);
        if place < index {
            assert(right[place].end + 1 < right[index].start);
        }
        if place > index {
            assert(right[index].end + 1 < right[place].start);
        }
    }
}

proof fn lemma_ranges_agree(left: Seq<PortRange>, right: Seq<PortRange>, proxy_ports: Seq<u16>, count: int)
    requires
        are_blocked_ranges(left, proxy_ports),
        are_blocked_ranges(right, proxy_ports),
        0 <= count <= left.len(),
    ensures
        count <= right.len(),
        left.take(count) == right.take(count),
    decreases count,
{
    if count > 0 {
        let index = count - 1;
        lemma_ranges_agree(left, right, proxy_ports, index);
        lemma_first_range(left, right, proxy_ports, index);
        lemma_first_range(right, left, proxy_ports, index);
        lemma_range_end(left, right, proxy_ports, index);
        lemma_range_end(right, left, proxy_ports, index);
        assert(left.take(count) =~= left.take(index).push(left[index]));
        assert(right.take(count) =~= right.take(index).push(right[index]));
    } else {
        assert(left.take(0) =~= right.take(0));
    }
}

/// There is exactly one way to write the blocked ports in as few ranges as there can
/// be, so the allowed ports determine the list.
pub proof fn blocked_ranges_are_unique(left: Seq<PortRange>, right: Seq<PortRange>, proxy_ports: Seq<u16>)
    requires
        are_blocked_ranges(left, proxy_ports),
        are_blocked_ranges(right, proxy_ports),
    ensures
        left == right,
{
    lemma_ranges_agree(left, right, proxy_ports, left.len() as int);
    lemma_ranges_agree(right, left, proxy_ports, right.len() as int);
    assert(left.take(left.len() as int) =~= left);
    assert(right.take(right.len() as int) =~= right);
}

proof fn lemma_ports_are_scanned(proxy_ports: Seq<u16>, next: int) -> (found: (Seq<PortRange>, int))
    requires
        1 <= next <= LAST_PORT + 1,
    ensures
        1 <= found.1 <= next,
        scanned(found.0, proxy_ports, found.1, next),
    decreases next,
{
    if next == 1 {
        (Seq::empty(), 1)
    } else {
        let port = next - 1;
        let (ranges, start) = lemma_ports_are_scanned(proxy_ports, port);
        if !is_allowed_port(proxy_ports, port) {
            (ranges, start)
        } else if start < port {
            let range = PortRange { start: start as u32, end: (port - 1) as u32 };
            lemma_range_is_closed(ranges, range, proxy_ports, port);
            assert(!some_range_holds(ranges.push(range), port));
            (ranges.push(range), next)
        } else {
            assert(!some_range_holds(ranges, port));
            (ranges, next)
        }
    }
}

/// The blocked ports can always be written in as few ranges as there can be, whichever
/// ports are allowed.
pub proof fn blocked_ranges_exist(proxy_ports: Seq<u16>)
    ensures
        exists|ranges: Seq<PortRange>| #[trigger] are_blocked_ranges(ranges, proxy_ports),
{
    let end = LAST_PORT + 1;
    let (ranges, start) = lemma_ports_are_scanned(proxy_ports, end);
    if start <= LAST_PORT {
        let range = PortRange { start: start as u32, end: LAST_PORT };
        lemma_range_is_closed(ranges, range, proxy_ports, end);
        assert(are_blocked_ranges(ranges.push(range), proxy_ports));
    } else {
        assert(are_blocked_ranges(ranges, proxy_ports));
    }
}

/// Where there is a list of the ports that stay blocked, it is that of the only ranges
/// that hold exactly the ports that are not allowed.
pub proof fn blocked_ports_are_listed(proxy_ports: Seq<u16>, ranges: Seq<PortRange>)
    requires
        are_blocked_ranges(ranges, proxy_ports),
    ensures
        blocked_ports_text(proxy_ports) matches Some(text) ==> text == ranges_text(ranges),
{
    let chosen = choose|ranges: Seq<PortRange>| #[trigger] are_blocked_ranges(ranges, proxy_ports);
    blocked_ranges_are_unique(ranges, chosen, proxy_ports);
}

/// No allowed port is blocked, and every other port is.
pub proof fn blocked_ranges_complement_the_allowed_ports(ranges: Seq<PortRange>, proxy_ports: Seq<u16>, port: int)
    requires
        are_blocked_ranges(ranges, proxy_ports),
    ensures
        some_range_holds(ranges, port) <==> 1 <= port <= LAST_PORT && !is_allowed_port(proxy_ports, port),
{
    if some_range_holds(ranges, port) {
        let index = choose|index: int| 0 <= index < ranges.len() && (#[trigger] ranges[index]).holds(port);
        assert(1 <= ranges[index].start <= ranges[index].end <= LAST_PORT);
    }
}

/// Ranges are spelled one after the other with a comma between any two, each by its first
/// and its last port, or by its only one.
pub proof fn ranges_are_spelled_in_full(first: Seq<PortRange>, second: Seq<PortRange>, range: PortRange)
    requires
        first.len() > 0,
        second.len() > 0,
    ensures
        ranges_text(first + second) == ranges_text(first) + ","@ + ranges_text(second),
        ranges_text(seq![range]) == (if range.start == range.end {
            crate::text::decimal(range.start as nat)
        } else {
            crate::text::decimal(range.start as nat) + "-"@ + crate::text::decimal(range.end as nat)
        }),
    decreases second.len(),
{
    let whole = first + second;
    assert(whole.drop_last() =~= first + second.drop_last());
    assert(whole.last() == second.last());
    if second.len() == 1 {
        assert(whole.drop_last() =~= first);
        assert(second[0] == second.last());
    } else {
        ranges_are_spelled_in_full(first, second.drop_last(), range);
        let head = ranges_text(first);
        let tail = ranges_text(second.drop_last());
        assert(head + ","@ + tail + ","@ + second.last().text() =~= head + ","@ + (tail + ","@ + second.last().text()));
    }
}

} // verus!

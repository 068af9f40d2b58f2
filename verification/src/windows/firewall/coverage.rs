//! Which traffic of the offline account the firewall rules block.

use crate::windows::firewall::blocked_ports::PortRange;
use crate::windows::firewall::rules::{BlockRuleModel, FirewallChangeModel};
use crate::windows::namespace::WindowsSandboxPolicyNamespace;
use vstd::prelude::*;
use vstd::string::*;

verus! {

/// An address that traffic goes to, as a number.
pub enum RemoteAddress {
    V4(nat),
    V6(nat),
}

impl RemoteAddress {
    /// Whether the number is one of the address space.
    pub open spec fn is_valid(self) -> bool {
        match self {
            RemoteAddress::V4(value) => value < 0x1_0000_0000,
            RemoteAddress::V6(value) => value < 0x1_0000_0000_0000_0000_0000_0000_0000_0000,
        }
    }

    /// Whether traffic to the address stays on the host.
    pub open spec fn is_loopback(self) -> bool {
        match self {
            RemoteAddress::V4(value) => value / 0x100_0000 == 127,
            RemoteAddress::V6(value) => value == 1,
        }
    }
}

/// An IPv4 address in its usual spelling.
pub open spec fn v4_text(value: nat) -> Seq<char> {
    crate::text::decimal(value / 0x100_0000) + "."@ + crate::text::decimal(value / 0x1_0000 % 256) + "."@
        + crate::text::decimal(value / 0x100 % 256) + "."@ + crate::text::decimal(value % 256)
}

/// The number of an IPv6 address, by its groups.
pub open spec fn v6_number(groups: Seq<nat>) -> nat
    decreases groups.len(),
{
    if groups.len() == 0 {
        0
    } else {
        0x1_0000 * v6_number(groups.drop_last()) + groups.last()
    }
}

/// Groups in hexadecimal, with colons between them.
pub open spec fn groups_text(groups: Seq<nat>) -> Seq<char> {
    crate::text::separated(groups.map_values(|group: nat| crate::text::numeral(group, 16)), ":"@)
}

/// The groups without those that are zero at their start.
pub open spec fn without_leading_zeros(groups: Seq<nat>) -> Seq<nat>
    decreases groups.len(),
{
    if groups.len() > 0 && groups[0] == 0 {
        without_leading_zeros(groups.drop_first())
    } else {
        groups
    }
}

/// An IPv6 address as it is spelled: two colons stand for the zeros at its start.
pub open spec fn v6_text(groups: Seq<nat>) -> Seq<char> {
    if groups.len() > 0 && groups[0] == 0 {
        "::"@ + groups_text(without_leading_zeros(groups))
    } else {
        groups_text(groups)
    }
}

/// Two to the power of a number.
pub open spec fn doubled(times: nat) -> nat
    decreases times,
{
    if times == 0 {
        1
    } else {
        2 * doubled((times - 1) as nat)
    }
}

/// One item of a list of addresses. IPv6 addresses are given by their eight groups.
pub enum AddressItem {
    V4Range(nat, nat),
    /// The first address of a network, and the number of leading bits that its addresses
    /// share.
    V4Prefix(nat, nat),
    V6One(Seq<nat>),
    V6Range(Seq<nat>, Seq<nat>),
    /// The first address of a network, and the number of leading bits that its addresses
    /// share.
    V6Prefix(Seq<nat>, nat),
}

impl AddressItem {
    /// The item as a firewall rule spells it.
    pub open spec fn text(self) -> Seq<char> {
        match self {
            AddressItem::V4Range(first, last) => v4_text(first) + "-"@ + v4_text(last),
            AddressItem::V4Prefix(first, bits) => v4_text(first) + "/"@ + crate::text::decimal(bits),
            AddressItem::V6One(groups) => v6_text(groups),
            AddressItem::V6Range(first, last) => v6_text(first) + "-"@ + v6_text(last),
            AddressItem::V6Prefix(first, bits) => v6_text(first) + "/"@ + crate::text::decimal(bits),
        }
    }

    /// Whether the item holds an address.
    pub open spec fn holds(self, address: RemoteAddress) -> bool {
        match (self, address) {
            (AddressItem::V4Range(first, last), RemoteAddress::V4(value)) => first <= value <= last,
            (AddressItem::V4Prefix(first, bits), RemoteAddress::V4(value)) => first <= value < first + doubled(
                (32 - bits) as nat,
            ),
            (AddressItem::V6One(groups), RemoteAddress::V6(value)) => value == v6_number(groups),
            (AddressItem::V6Range(first, last), RemoteAddress::V6(value)) => v6_number(first) <= value <= v6_number(
                last,
            ),
            (AddressItem::V6Prefix(first, bits), RemoteAddress::V6(value)) => v6_number(first) <= value < v6_number(
                first,
            ) + doubled((128 - bits) as nat),
            _ => false,
        }
    }
}

/// A list of addresses as a firewall rule spells it.
pub open spec fn list_text(items: Seq<AddressItem>) -> Seq<char> {
    crate::text::separated(items.map_values(|item: AddressItem| item.text()), ","@)
}

/// Whether some item holds an address.
pub open spec fn list_holds(items: Seq<AddressItem>, address: RemoteAddress) -> bool {
    exists|index: int| 0 <= index < items.len() && (#[trigger] items[index]).holds(address)
}

/// Whether a text, read as a list of addresses, holds an address.
pub open spec fn text_holds(text: Seq<char>, address: RemoteAddress) -> bool {
    exists|items: Seq<AddressItem>| #[trigger] list_text(items) == text && list_holds(items, address)
}

/// Whether a text, read as a list of ports, holds a port.
pub open spec fn text_holds_port(text: Seq<char>, port: int) -> bool {
    exists|ranges: Seq<PortRange>| #[trigger] crate::windows::firewall::blocked_ports::ranges_text(ranges) == text
        && crate::windows::firewall::blocked_ports::some_range_holds(ranges, port)
}

/// Whether a rule blocks what an account sends by a protocol to an address and a port.
pub open spec fn blocks(
    rule: BlockRuleModel,
    account: Seq<char>,
    protocol: int,
    address: RemoteAddress,
    port: int,
) -> bool {
    &&& rule.local_user_spec == "O:LSD:(A;;CC;;;"@ + account + ")"@
    &&& rule.protocol == 256 || rule.protocol == protocol
    &&& rule.remote_addresses matches Some(text) ==> text_holds(text, address)
    &&& rule.remote_ports matches Some(text) ==> text_holds_port(text, port)
}

/// Whether some rule blocks what an account sends by a protocol to an address and a port.
pub open spec fn is_blocked(
    rules: Map<Seq<char>, BlockRuleModel>,
    account: Seq<char>,
    protocol: int,
    address: RemoteAddress,
    port: int,
) -> bool {
    exists|name: Seq<char>|
        #[trigger] rules.contains_key(name) && blocks(rules[name], account, protocol, address, port)
}

proof fn lemma_decimals()
    ensures
        crate::text::decimal(0) == "0"@,
        crate::text::decimal(8) == "8"@,
        crate::text::decimal(126) == "126"@,
        crate::text::decimal(127) == "127"@,
        crate::text::decimal(128) == "128"@,
        crate::text::decimal(255) == "255"@,
        crate::text::numeral(2, 16) == "2"@,
        crate::text::numeral(0xffff, 16) == "ffff"@,
{
    reveal_with_fuel(crate::text::numeral, 5);
    reveal_strlit("0");
    reveal_strlit("2");
    reveal_strlit("8");
    reveal_strlit("126");
    reveal_strlit("127");
    reveal_strlit("128");
    reveal_strlit("255");
    reveal_strlit("ffff");
    assert(crate::text::decimal(0) =~= "0"@);
    assert(crate::text::decimal(8) =~= "8"@);
    assert(crate::text::decimal(126) =~= "126"@);
    assert(crate::text::decimal(127) =~= "127"@);
    assert(crate::text::decimal(128) =~= "128"@);
    assert(crate::text::decimal(255) =~= "255"@);
    assert(crate::text::numeral(2, 16) =~= "2"@);
    assert(crate::text::numeral(0xffff, 16) =~= "ffff"@);
}

/// The groups of the last IPv6 address.
spec fn last_groups() -> Seq<nat> {
    seq![0xffffnat, 0xffff, 0xffff, 0xffff, 0xffff, 0xffff, 0xffff, 0xffff]
}

/// The groups of the IPv6 address with this number below the first group.
spec fn low_groups(value: nat) -> Seq<nat> {
    seq![0nat, 0, 0, 0, 0, 0, 0, value]
}

proof fn lemma_v6_numbers(value: nat)
    ensures
        v6_number(low_groups(value)) == value,
        v6_number(last_groups()) == 0xffff_ffff_ffff_ffff_ffff_ffff_ffff_ffff,
{
    let low = low_groups(value);
    let last = last_groups();
    assert(low.take(0) =~= Seq::<nat>::empty());
    assert(forall|count: int| #![trigger low.take(count)] 0 < count <= 8 ==> low.take(count).drop_last() =~= low.take(count - 1));
    assert(forall|count: int| #![trigger last.take(count)] 0 < count <= 8 ==> last.take(count).drop_last() =~= last.take(count - 1));
    assert(v6_number(low.take(0)) == 0);
    assert(v6_number(low.take(1)) == 0);
    assert(v6_number(low.take(2)) == 0);
    assert(v6_number(low.take(3)) == 0);
    assert(v6_number(low.take(4)) == 0);
    assert(v6_number(low.take(5)) == 0);
    assert(v6_number(low.take(6)) == 0);
    assert(v6_number(low.take(7)) == 0);
    assert(low.take(8) =~= low);
    assert(v6_number(last.take(0)) == 0);
    assert(v6_number(last.take(1)) == 0xffff);
    assert(v6_number(last.take(2)) == 0xffff_ffff);
    assert(v6_number(last.take(3)) == 0xffff_ffff_ffff);
    assert(v6_number(last.take(4)) == 0xffff_ffff_ffff_ffff);
    assert(v6_number(last.take(5)) == 0xffff_ffff_ffff_ffff_ffff);
    assert(v6_number(last.take(6)) == 0xffff_ffff_ffff_ffff_ffff_ffff);
    assert(v6_number(last.take(7)) == 0xffff_ffff_ffff_ffff_ffff_ffff_ffff);
    assert(last.take(8) =~= last);
}

proof fn lemma_v6_texts()
    ensures
        v6_text(low_groups(0)) == "::"@,
        v6_text(low_groups(2)) == "::2"@,
        v6_text(last_groups()) == "ffff:ffff:ffff:ffff:ffff:ffff:ffff:ffff"@,
{
    lemma_decimals();
    lemma_leading_zeros(0);
    lemma_leading_zeros(2);
    let none = Seq::<nat>::empty();
    assert(groups_text(none) =~= Seq::<char>::empty());
    assert("::"@ + groups_text(none) =~= "::"@);
    let two = seq![2nat];
    assert(groups_text(two) =~= "2"@);
    reveal_strlit("::");
    reveal_strlit("2");
    reveal_strlit("::2");
    assert("::"@ + "2"@ =~= "::2"@);
    let last = last_groups();
    let texts = last.map_values(|group: nat| crate::text::numeral(group, 16));
    assert(forall|index: int| 0 <= index < 8 ==> #[trigger] texts[index] == "ffff"@);
    assert(forall|count: int| #![trigger texts.take(count)] 0 < count <= 8 ==> texts.take(count).drop_last() =~= texts.take(count - 1));
    reveal_strlit("ffff");
    reveal_strlit(":");
    reveal_strlit("ffff:ffff:ffff:ffff:ffff:ffff:ffff:ffff");
    let whole = "ffff:ffff:ffff:ffff:ffff:ffff:ffff:ffff"@;
    let so_far = |count: int| crate::text::separated(texts.take(count), ":"@);
    assert(so_far(1) =~= whole.take(4));
    assert(so_far(2) =~= whole.take(9));
    assert(so_far(3) =~= whole.take(14));
    assert(so_far(4) =~= whole.take(19));
    assert(so_far(5) =~= whole.take(24));
    assert(so_far(6) =~= whole.take(29));
    assert(so_far(7) =~= whole.take(34));
    assert(so_far(8) =~= whole);
    assert(texts.take(8) =~= texts);
}

proof fn lemma_leading_zeros(value: nat)
    ensures
        without_leading_zeros(low_groups(value)) == if value == 0 {
            Seq::<nat>::empty()
        } else {
            seq![value]
        },
{
    let low = low_groups(value);
    assert(forall|count: int| #![trigger low.skip(count)] 0 <= count < 8 ==> low.skip(count).drop_first() =~= low.skip(count + 1));
    assert(low.skip(0) =~= low);
    assert(low.skip(7) =~= seq![value]);
    assert(low.skip(8) =~= Seq::<nat>::empty());
    assert(without_leading_zeros(low.skip(8)) == low.skip(8));
    assert(without_leading_zeros(low.skip(7)) == if value == 0 {
        low.skip(8)
    } else {
        low.skip(7)
    });
    assert(without_leading_zeros(low.skip(6)) == without_leading_zeros(low.skip(7)));
    assert(without_leading_zeros(low.skip(5)) == without_leading_zeros(low.skip(6)));
    assert(without_leading_zeros(low.skip(4)) == without_leading_zeros(low.skip(5)));
    assert(without_leading_zeros(low.skip(3)) == without_leading_zeros(low.skip(4)));
    assert(without_leading_zeros(low.skip(2)) == without_leading_zeros(low.skip(3)));
    assert(without_leading_zeros(low.skip(1)) == without_leading_zeros(low.skip(2)));
    assert(without_leading_zeros(low.skip(0)) == without_leading_zeros(low.skip(1)));
}

/// The items of the addresses beyond the loopback addresses.
spec fn outer_items() -> Seq<AddressItem> {
    seq![
        AddressItem::V4Range(0, 0x7eff_ffff),
        AddressItem::V4Range(0x8000_0000, 0xffff_ffff),
        AddressItem::V6One(low_groups(0)),
        AddressItem::V6Range(low_groups(2), last_groups()),
    ]
}

/// The items of the loopback addresses.
spec fn inner_items() -> Seq<AddressItem> {
    seq![AddressItem::V4Prefix(0x7f00_0000, 8), AddressItem::V6Prefix(low_groups(0), 127)]
}

proof fn lemma_outer_text()
    ensures
        list_text(outer_items())
            == "0.0.0.0-126.255.255.255,128.0.0.0-255.255.255.255,::,::2-ffff:ffff:ffff:ffff:ffff:ffff:ffff:ffff"@,
{
    lemma_decimals();
    lemma_v6_texts();
    let whole =
        "0.0.0.0-126.255.255.255,128.0.0.0-255.255.255.255,::,::2-ffff:ffff:ffff:ffff:ffff:ffff:ffff:ffff"@;
    let items = outer_items();
    let texts = items.map_values(|item: AddressItem| item.text());
    lemma_outer_v4();
    reveal_strlit(":");
    reveal_strlit(",");
    reveal_strlit("-");
    reveal_strlit("::");
    reveal_strlit("::2");
    reveal_strlit("ffff:ffff:ffff:ffff:ffff:ffff:ffff:ffff");
    reveal_strlit("0.0.0.0-126.255.255.255");
    reveal_strlit("128.0.0.0-255.255.255.255");
    reveal_strlit("0.0.0.0-126.255.255.255,128.0.0.0-255.255.255.255,::,::2-ffff:ffff:ffff:ffff:ffff:ffff:ffff:ffff");
    assert(texts[0] =~= whole.subrange(0, 23));
    assert(texts[1] =~= whole.subrange(24, 49));
    assert(texts[2] =~= whole.subrange(50, 52));
    assert(texts[3] =~= whole.subrange(53, 96));
    assert(forall|count: int| #![trigger texts.take(count)] 0 < count <= 4 ==> texts.take(count).drop_last() =~= texts.take(count - 1));
    let so_far = |count: int| crate::text::separated(texts.take(count), ","@);
    assert(so_far(1) =~= whole.take(23));
    assert(so_far(2) =~= whole.take(49));
    assert(so_far(3) =~= whole.take(52));
    assert(so_far(4) =~= whole);
    assert(texts.take(4) =~= texts);
}

proof fn lemma_outer_v4()
    ensures
        AddressItem::V4Range(0, 0x7eff_ffff).text() == "0.0.0.0-126.255.255.255"@,
        AddressItem::V4Range(0x8000_0000, 0xffff_ffff).text() == "128.0.0.0-255.255.255.255"@,
{
    lemma_decimals();
    reveal_strlit(".");
    reveal_strlit("-");
    reveal_strlit("0");
    reveal_strlit("126");
    reveal_strlit("128");
    reveal_strlit("255");
    reveal_strlit("0.0.0.0-126.255.255.255");
    reveal_strlit("128.0.0.0-255.255.255.255");
    assert(AddressItem::V4Range(0, 0x7eff_ffff).text() =~= "0.0.0.0-126.255.255.255"@);
    assert(AddressItem::V4Range(0x8000_0000, 0xffff_ffff).text() =~= "128.0.0.0-255.255.255.255"@);
}

proof fn lemma_inner_text()
    ensures
        list_text(inner_items()) == "127.0.0.0/8,::/127"@,
{
    lemma_decimals();
    lemma_v6_texts();
    reveal_strlit(".");
    reveal_strlit("/");
    reveal_strlit(",");
    reveal_strlit("0");
    reveal_strlit("8");
    reveal_strlit("127");
    reveal_strlit("::");
    reveal_strlit("127.0.0.0/8,::/127");
    let texts = inner_items().map_values(|item: AddressItem| item.text());
    assert(texts[0] =~= "127.0.0.0/8,::/127"@.take(11));
    assert(texts[1] =~= "127.0.0.0/8,::/127"@.skip(12));
    assert(texts.drop_last() =~= seq![texts[0]]);
    assert(crate::text::separated(texts.drop_last(), ","@) == texts[0]);
    assert(crate::text::separated(texts, ","@) =~= "127.0.0.0/8,::/127"@);
}

proof fn lemma_doubled()
    ensures
        doubled(24) == 0x100_0000,
        doubled(1) == 2,
{
    reveal_with_fuel(doubled, 26);
}

/// The addresses beyond loopback are listed exactly: an address is held by the list if and
/// only if it is not a loopback address.
pub proof fn outer_addresses_are_listed_exactly(address: RemoteAddress) -> (items: Seq<AddressItem>)
    requires
        address.is_valid(),
    ensures
        list_text(items) == crate::windows::firewall::rules::NON_LOOPBACK_REMOTE_ADDRESSES@,
        list_holds(items, address) <==> !address.is_loopback(),
{
    lemma_outer_text();
    lemma_v6_numbers(0);
    lemma_v6_numbers(2);
    let items = outer_items();
    match address {
        RemoteAddress::V4(value) => {
            assert(items[0].holds(address) || items[1].holds(address) <==> !address.is_loopback());
        },
        RemoteAddress::V6(value) => {
            assert(items[2].holds(address) || items[3].holds(address) <==> !address.is_loopback());
        },
    }
    items
}

/// The loopback addresses are listed: an address is held by the list if and only if it is a
/// loopback address or the unspecified IPv6 address next to it.
pub proof fn loopback_addresses_are_listed(address: RemoteAddress) -> (items: Seq<AddressItem>)
    requires
        address.is_valid(),
    ensures
        list_text(items) == crate::windows::firewall::rules::LOOPBACK_REMOTE_ADDRESSES@,
        list_holds(items, address) <==> address.is_loopback() || address == RemoteAddress::V6(0),
{
    lemma_inner_text();
    lemma_v6_numbers(0);
    lemma_doubled();
    let items = inner_items();
    match address {
        RemoteAddress::V4(value) => {
            assert(items[0].holds(address) <==> address.is_loopback());
        },
        RemoteAddress::V6(value) => {
            assert(items[1].holds(address) <==> value <= 1);
        },
    }
    items
}

/// The rules after everything that confines the offline account was applied to some rules.
pub open spec fn confined(
    rules: Map<Seq<char>, BlockRuleModel>,
    namespace: WindowsSandboxPolicyNamespace,
    account: Seq<char>,
    proxy_ports: Seq<u16>,
    allow_local_binding: bool,
) -> Map<Seq<char>, BlockRuleModel> {
    crate::windows::firewall::rules::rules_after(
        rules,
        crate::windows::firewall::rules::proxy_allowlist_changes(
            namespace,
            account,
            proxy_ports,
            allow_local_binding,
        ).push(
            FirewallChangeModel::Block(
                crate::windows::firewall::rules::outbound_block(
                    crate::windows::firewall::rules::rule_names_of(namespace),
                    crate::windows::firewall::rules::user_scope(account),
                    account,
                ),
            ),
        ),
    )
}

/// Once the rules are applied, whatever stood there before, the offline account reaches
/// nothing beyond the host: every protocol to every address that is not a loopback address
/// is blocked on every port, in every mode.
pub proof fn offline_accounts_never_leave_the_host(
    rules: Map<Seq<char>, BlockRuleModel>,
    namespace: WindowsSandboxPolicyNamespace,
    account: Seq<char>,
    proxy_ports: Seq<u16>,
    allow_local_binding: bool,
    protocol: int,
    address: RemoteAddress,
    port: int,
)
    requires
        address.is_valid(),
        !address.is_loopback(),
    ensures
        is_blocked(
            confined(rules, namespace, account, proxy_ports, allow_local_binding),
            account,
            protocol,
            address,
            port,
        ),
{
    let after = confined(rules, namespace, account, proxy_ports, allow_local_binding);
    crate::windows::firewall::rules::applied_changes_meet_the_demands(
        rules,
        namespace,
        account,
        proxy_ports,
        allow_local_binding,
        0,
    );
    let name = crate::windows::firewall::rules::rule_names_of(namespace).outbound_block@;
    let items = outer_addresses_are_listed_exactly(address);
    assert(text_holds(crate::windows::firewall::rules::NON_LOOPBACK_REMOTE_ADDRESSES@, address));
    assert(after.contains_key(name));
    assert(blocks(after[name], account, protocol, address, port));
}

/// Without local binding, the offline account reaches the host itself by TCP on the proxy
/// ports alone: UDP to a loopback address is blocked on every port, and TCP on every port
/// but those that were asked for.
pub proof fn offline_accounts_reach_their_proxy_only(
    rules: Map<Seq<char>, BlockRuleModel>,
    namespace: WindowsSandboxPolicyNamespace,
    account: Seq<char>,
    proxy_ports: Seq<u16>,
    address: RemoteAddress,
    port: int,
)
    requires
        address.is_valid(),
        address.is_loopback(),
        1 <= port <= 65535,
    ensures
        is_blocked(confined(rules, namespace, account, proxy_ports, false), account, 17, address, port),
        !(exists|index: int| 0 <= index < proxy_ports.len() && #[trigger] proxy_ports[index] == port) ==> is_blocked(
            confined(rules, namespace, account, proxy_ports, false),
            account,
            6,
            address,
            port,
        ),
{
    let after = confined(rules, namespace, account, proxy_ports, false);
    let names = crate::windows::firewall::rules::rule_names_of(namespace);
    crate::windows::firewall::rules::applied_changes_meet_the_demands(rules, namespace, account, proxy_ports, false, 2);
    crate::windows::firewall::rules::applied_changes_meet_the_demands(rules, namespace, account, proxy_ports, false, 3);
    let items = loopback_addresses_are_listed(address);
    assert(text_holds(crate::windows::firewall::rules::LOOPBACK_REMOTE_ADDRESSES@, address));
    let udp = names.loopback_udp_block@;
    assert(after.contains_key(udp));
    assert(blocks(after[udp], account, 17, address, port));
    let tcp = names.loopback_tcp_block@;
    assert(after.contains_key(tcp));
    if !(exists|index: int| 0 <= index < proxy_ports.len() && #[trigger] proxy_ports[index] == port) {
        assert(!crate::windows::firewall::blocked_ports::is_allowed_port(proxy_ports, port));
        crate::windows::firewall::blocked_ports::blocked_ranges_exist(proxy_ports);
        let ranges = choose|ranges: Seq<PortRange>| #[trigger]
            crate::windows::firewall::blocked_ports::are_blocked_ranges(ranges, proxy_ports);
        crate::windows::firewall::blocked_ports::blocked_ports_are_listed(proxy_ports, ranges);
        assert(crate::windows::firewall::blocked_ports::some_range_holds(ranges, port));
        if let Some(text) = crate::windows::firewall::blocked_ports::blocked_ports_text(proxy_ports) {
            assert(text_holds_port(text, port));
        }
        assert(blocks(after[tcp], account, 6, address, port));
    }
}

/// A port that was asked for stays open: where a list of ports narrows the TCP block, it is
/// the list of ranges that hold no port that was asked for; and it is narrowed exactly where
/// some port was asked for and some other port is left to block.
pub proof fn proxy_ports_stay_open(proxy_ports: Seq<u16>, index: int)
    requires
        0 <= index < proxy_ports.len(),
        proxy_ports[index] != 0,
        exists|port: int|
            1 <= port <= 65535 && !(#[trigger] crate::windows::firewall::blocked_ports::is_allowed_port(
                proxy_ports,
                port,
            )),
    ensures
        crate::windows::firewall::blocked_ports::blocked_ports_text(proxy_ports) matches Some(text) && exists|
            ranges: Seq<PortRange>,
        | #[trigger] crate::windows::firewall::blocked_ports::ranges_text(ranges) == text
            && !crate::windows::firewall::blocked_ports::some_range_holds(ranges, proxy_ports[index] as int),
{
    let port = proxy_ports[index] as int;
    assert(crate::windows::firewall::blocked_ports::is_allowed_port(proxy_ports, port));
    crate::windows::firewall::blocked_ports::blocked_ranges_exist(proxy_ports);
    let ranges = choose|ranges: Seq<PortRange>| #[trigger]
        crate::windows::firewall::blocked_ports::are_blocked_ranges(ranges, proxy_ports);
    crate::windows::firewall::blocked_ports::blocked_ports_are_listed(proxy_ports, ranges);
    assert(!crate::windows::firewall::blocked_ports::some_range_holds(ranges, port));
}

/// With local binding the loopback addresses are left open: neither loopback rule nor the
/// old allow rule stands any more. Without it the allow rule is gone as well, so that no
/// rule of the namespace opens anything; and no rule of another name is touched.
pub proof fn modes_leave_no_stale_rule(
    rules: Map<Seq<char>, BlockRuleModel>,
    namespace: WindowsSandboxPolicyNamespace,
    account: Seq<char>,
    proxy_ports: Seq<u16>,
    allow_local_binding: bool,
    name: Seq<char>,
)
    ensures
        ({
            let after = confined(rules, namespace, account, proxy_ports, allow_local_binding);
            let names = crate::windows::firewall::rules::rule_names_of(namespace);
            &&& !after.contains_key(names.proxy_allow@)
            &&& allow_local_binding ==> !after.contains_key(names.loopback_tcp_block@) && !after.contains_key(
                names.loopback_udp_block@,
            )
            &&& !allow_local_binding ==> after.contains_key(names.loopback_tcp_block@) && after.contains_key(
                names.loopback_udp_block@,
            )
            &&& !names.internal_names().contains(name) ==> (after.contains_key(name) <==> rules.contains_key(name)) && (
            rules.contains_key(name) ==> after[name] == rules[name])
        }),
{
    let after = confined(rules, namespace, account, proxy_ports, allow_local_binding);
    let names = crate::windows::firewall::rules::rule_names_of(namespace);
    crate::windows::firewall::rules::applied_changes_meet_the_demands(rules, namespace, account, proxy_ports, allow_local_binding, 1);
    crate::windows::firewall::rules::applied_changes_meet_the_demands(rules, namespace, account, proxy_ports, allow_local_binding, 2);
    crate::windows::firewall::rules::applied_changes_meet_the_demands(rules, namespace, account, proxy_ports, allow_local_binding, 3);
    if !names.internal_names().contains(name) {
        let listed = names.internal_names();
        assert(listed[0] == names.outbound_block@ && listed[1] == names.loopback_tcp_block@);
        assert(listed[2] == names.loopback_udp_block@ && listed[3] == names.proxy_allow@);
        let changes = crate::windows::firewall::rules::proxy_allowlist_changes(
            namespace,
            account,
            proxy_ports,
            allow_local_binding,
        );
        let last = FirewallChangeModel::Block(
            crate::windows::firewall::rules::outbound_block(
                names,
                crate::windows::firewall::rules::user_scope(account),
                account,
            ),
        );
        assert(changes.push(last).drop_last() =~= changes);
        reveal_with_fuel(crate::windows::firewall::rules::rules_after, 6);
        assert(changes.len() == 4 ==> changes.drop_last()[2] == changes[2]);
    }
}

} // verus!

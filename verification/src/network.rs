//! IP addresses and networks: reading them from text, writing them back,
//! classifying them, and expanding a network into its addresses.

use crate::error::{prefixed, ScanError, ScanErrorView};
use crate::model::IpAddress;
use crate::text::{
    all_digits, chars_of, contains, decimal_text, decimal_value, parse_decimal, push_decimal, split,
    split_text, string_of, texts,
};
use std::collections::HashSet;
use vstd::arithmetic::div_mod::lemma_fundamental_div_mod;
use vstd::arithmetic::power2::{
    lemma2_to64, lemma_pow2_adds, lemma_pow2_pos, lemma_pow2_strictly_increases, pow2,
};
use vstd::prelude::*;

verus! {

broadcast use vstd::std_specs::hash::group_hash_axioms;

/// The error with which the `cidr` crate refuses a text.
#[verifier::external_type_specification]
#[verifier::external_body]
pub struct ExNetworkParseError(cidr::errors::NetworkParseError);

/// A network in CIDR notation: its first address and the length of the prefix
/// that all its addresses share.
#[derive(Clone, Copy, Debug, PartialEq, Eq, Structural)]
#[allow(inconsistent_fields)]
pub enum IpNetwork {
    V4 { first: u32, prefix_len: u8 },
    V6 { first: u128, prefix_len: u8 },
}

impl IpNetwork {
    /// The number of bits in an address of the network's family.
    pub open spec fn address_bits(self) -> nat {
        match self {
            IpNetwork::V4 { .. } => 32,
            IpNetwork::V6 { .. } => 128,
        }
    }

    /// The length of the prefix.
    pub open spec fn prefix(self) -> nat {
        match self {
            IpNetwork::V4 { prefix_len, .. } => prefix_len as nat,
            IpNetwork::V6 { prefix_len, .. } => prefix_len as nat,
        }
    }

    /// The first address of the network, as its number.
    pub open spec fn first_number(self) -> nat {
        match self {
            IpNetwork::V4 { first, .. } => first as nat,
            IpNetwork::V6 { first, .. } => first as nat,
        }
    }

    /// The number of addresses in the network.
    pub open spec fn size(self) -> nat {
        pow2((self.address_bits() - self.prefix()) as nat)
    }

    /// The prefix is no longer than an address, and the bits after it are zero
    /// in the first address.
    pub open spec fn wf(self) -> bool {
        &&& self.prefix() <= self.address_bits()
        &&& self.first_number() % self.size() == 0
    }

    /// The address at offset `i` from the first.
    pub open spec fn address(self, i: nat) -> IpAddress {
        match self {
            IpNetwork::V4 { first, .. } => IpAddress::V4((first + i) as u32),
            IpNetwork::V6 { first, .. } => IpAddress::V6((first + i) as u128),
        }
    }
}

/// The network that the `cidr` crate reads from a text, if it reads one.
pub uninterp spec fn cidr_network(text: Seq<char>) -> Option<IpNetwork>;

/// Calls `cidr::IpCidr::from_str`. The crate accepts an address, or an address,
/// `/` and a prefix length, and refuses a prefix longer than the address and an
/// address with bits set after the prefix; so what comes back is well formed.
/// Which texts it accepts is left to the crate: the result has a name.
#[verifier::external_body]
pub(crate) fn parse_network(text: &str) -> (r: Result<IpNetwork, cidr::errors::NetworkParseError>)
    ensures
        r matches Ok(n) ==> cidr_network(text@) == Some(n) && n.wf(),
        r is Err ==> cidr_network(text@) is None,
{
    match text.parse::<cidr::IpCidr>()? {
        cidr::IpCidr::V4(c) => Ok(
            IpNetwork::V4 { first: c.first_address().into(), prefix_len: c.network_length() },
        ),
        cidr::IpCidr::V6(c) => Ok(
            IpNetwork::V6 { first: c.first_address().into(), prefix_len: c.network_length() },
        ),
    }
}

/// The text of an IPv6 address, as the `cidr` crate prints a host network.
pub uninterp spec fn ipv6_text(address: u128) -> Seq<char>;

/// Calls `cidr::Ipv6Cidr::new_host` and its `Display`, which for a host network
/// prints the address alone. The text is a function of the address.
#[verifier::external_body]
fn format_ipv6(address: u128) -> (r: String)
    ensures
        r@ == ipv6_text(address),
{
    cidr::Ipv6Cidr::new_host(address.into()).to_string()
}

/// The number written by one part of a dotted quad: one to three decimal
/// digits, no leading zero, at most 255.
pub open spec fn octet_value(s: Seq<char>) -> Option<nat> {
    if 1 <= s.len() <= 3 && all_digits(s) && (s.len() == 1 || s[0] != '0') && decimal_value(s)
        <= 255 {
        Some(decimal_value(s))
    } else {
        None
    }
}

/// The IPv4 address written by a dotted quad: four octets separated by dots.
pub open spec fn ipv4_number(s: Seq<char>) -> Option<u32> {
    let parts = split_text(s, '.');
    if parts.len() == 4 && octet_value(parts[0]) is Some && octet_value(parts[1]) is Some
        && octet_value(parts[2]) is Some && octet_value(parts[3]) is Some {
        Some(
            (octet_value(parts[0])->0 * 0x100_0000 + octet_value(parts[1])->0 * 0x1_0000
                + octet_value(parts[2])->0 * 0x100 + octet_value(parts[3])->0) as u32,
        )
    } else {
        None
    }
}

fn parse_octet(s: &Vec<char>) -> (r: Option<u32>)
    ensures
        match r {
            Some(v) => octet_value(s@) == Some(v as nat),
            None => octet_value(s@) is None,
        },
{
    if s.len() < 1 || s.len() > 3 {
        return None;
    }
    if s[0] == '+' || (s.len() > 1 && s[0] == '0') {
        assert(!all_digits(s@) || s@[0] == '0') by {
            if all_digits(s@) {
                assert(crate::text::is_digit(s@[0]));
            }
        }
        return None;
    }
    match parse_decimal(s, 255) {
        Some(v) => Some(v as u32),
        None => None,
    }
}

/// Reads a dotted quad.
pub fn parse_ipv4(s: &Vec<char>) -> (r: Option<u32>)
    ensures
        r == ipv4_number(s@),
{
    let parts = split(s, '.');
    if parts.len() != 4 {
        return None;
    }
    assert(texts(parts@)[0] == parts@[0]@ && texts(parts@)[1] == parts@[1]@ && texts(parts@)[2]
        == parts@[2]@ && texts(parts@)[3] == parts@[3]@);
    let a = parse_octet(&parts[0]);
    let b = parse_octet(&parts[1]);
    let c = parse_octet(&parts[2]);
    let d = parse_octet(&parts[3]);
    match (a, b, c, d) {
        (Some(a), Some(b), Some(c), Some(d)) => Some(a * 0x100_0000 + b * 0x1_0000 + c * 0x100 + d),
        _ => None,
    }
}

/// The dotted quad of an IPv4 address.
pub open spec fn ipv4_text(n: u32) -> Seq<char> {
    decimal_text((n / 0x100_0000) as nat) + seq!['.'] + decimal_text((n / 0x1_0000 % 0x100) as nat)
        + seq!['.'] + decimal_text((n / 0x100 % 0x100) as nat) + seq!['.'] + decimal_text(
        (n % 0x100) as nat,
    )
}

/// The text of an address: a dotted quad for IPv4, the `cidr` crate's text for
/// IPv6.
pub open spec fn address_text(ip: IpAddress) -> Seq<char> {
    match ip {
        IpAddress::V4(n) => ipv4_text(n),
        IpAddress::V6(n) => ipv6_text(n),
    }
}

/// Writes an address as text.
pub fn format_address(ip: &IpAddress) -> (r: String)
    ensures
        r@ == address_text(*ip),
{
    match ip {
        IpAddress::V4(n) => {
            let n: u32 = *n;
            let mut out: Vec<char> = Vec::new();
            push_decimal(&mut out, (n / 0x100_0000) as u128);
            out.push('.');
            push_decimal(&mut out, (n / 0x1_0000 % 0x100) as u128);
            out.push('.');
            push_decimal(&mut out, (n / 0x100 % 0x100) as u128);
            out.push('.');
            push_decimal(&mut out, (n % 0x100) as u128);
            assert(out@ =~= ipv4_text(n));
            string_of(&out)
        },
        IpAddress::V6(n) => format_ipv6(*n),
    }
}

/// The address that a text writes, given what the `cidr` crate read from it: a
/// dotted quad, or else a single IPv6 address read from a text without `/`.
pub open spec fn address_given(s: Seq<char>, parsed: Option<IpNetwork>) -> Option<IpAddress> {
    match ipv4_number(s) {
        Some(n) => Some(IpAddress::V4(n)),
        None => match parsed {
            Some(IpNetwork::V6 { first, prefix_len }) => if prefix_len == 128 && !crate::text::contains_text(
                s,
                seq!['/'],
            ) {
                Some(IpAddress::V6(first))
            } else {
                None
            },
            _ => None,
        },
    }
}

/// The address that a text writes.
pub open spec fn address_of_text(s: Seq<char>) -> Option<IpAddress> {
    address_given(s, cidr_network(s))
}

/// Decides what address a text writes, given what the `cidr` crate read from it.
pub fn address_from_parse(s: &Vec<char>, parsed: Option<IpNetwork>) -> (r: Option<IpAddress>)
    ensures
        r == address_given(s@, parsed),
{
    match parse_ipv4(s) {
        Some(n) => Some(IpAddress::V4(n)),
        None => match parsed {
            Some(IpNetwork::V6 { first, prefix_len }) => {
                let mut slash: Vec<char> = Vec::new();
                slash.push('/');
                assert(slash@ =~= seq!['/']);
                if prefix_len == 128 && !contains(s, &slash) {
                    Some(IpAddress::V6(first))
                } else {
                    None
                }
            },
            _ => None,
        },
    }
}

/// Reads an address from text.
pub fn parse_address(text: &str) -> (r: Option<IpAddress>)
    ensures
        r == address_of_text(text@),
{
    let s = chars_of(text);
    let parsed = match parse_network(text) {
        Ok(n) => Some(n),
        Err(_) => None,
    };
    address_from_parse(&s, parsed)
}

/// At most this many addresses are taken from one network.
pub open spec fn max_ips() -> nat {
    65536
}

/// The addresses of a network in rising order, cut off after `max_ips()`.
pub open spec fn expansion(n: IpNetwork) -> Seq<IpAddress> {
    Seq::new(
        if n.size() < max_ips() {
            n.size()
        } else {
            max_ips()
        },
        |i: int| n.address(i as nat),
    )
}

/// A network whose first address is a multiple of its size ends within the
/// address space.
pub proof fn lemma_network_fits(first: nat, bits: nat, prefix: nat)
    requires
        prefix <= bits,
        first < pow2(bits),
        first % pow2((bits - prefix) as nat) == 0,
    ensures
        first + pow2((bits - prefix) as nat) <= pow2(bits),
{
    let size = pow2((bits - prefix) as nat);
    lemma_pow2_pos((bits - prefix) as nat);
    lemma_pow2_adds(prefix, (bits - prefix) as nat);
    lemma_fundamental_div_mod(first as int, size as int);
    let q = first as int / size as int;
    let top = pow2(prefix) as int;
    assert(first == size * q);
    assert(pow2(bits) == top * size);
    assert(q < top) by (nonlinear_arith)
        requires
            size * q < top * size,
            size > 0,
    ;
    assert(size * q + size <= top * size) by (nonlinear_arith)
        requires
            q + 1 <= top,
            size > 0,
    ;
}

/// Two to the power `k`, for small `k`.
fn small_pow2(k: u8) -> (r: u32)
    requires
        k <= 16,
    ensures
        r == pow2(k as nat),
        r <= 65536,
{
    let mut r: u32 = 1;
    let mut i: u8 = 0;
    proof {
        lemma2_to64();
    }
    while i < k
        invariant
            i <= k <= 16,
            r == pow2(i as nat),
            r <= pow2(16),
            pow2(16) == 65536,
        decreases k - i,
    {
        proof {
            vstd::arithmetic::power2::lemma_pow2_unfold((i + 1) as nat);
            if i + 1 < 16 {
                lemma_pow2_strictly_increases((i + 1) as nat, 16);
            }
        }
        r = r * 2;
        i = i + 1;
    }
    r
}

/// The addresses of a well-formed network, cut off after `max_ips()`.
pub(crate) fn expand_network(n: &IpNetwork) -> (r: Vec<IpAddress>)
    requires
        n.wf(),
    ensures
        r@ == expansion(*n),
{
    let (bits, prefix_len): (u8, u8) = match n {
        IpNetwork::V4 { prefix_len, .. } => (32, *prefix_len),
        IpNetwork::V6 { prefix_len, .. } => (128, *prefix_len),
    };
    let host_bits: u8 = bits - prefix_len;
    let count: u32 = if host_bits >= 16 {
        65536
    } else {
        small_pow2(host_bits)
    };
    proof {
        lemma2_to64();
        lemma_pow2_adds(64, 64);
        assert(pow2(128) == 0x1_0000_0000_0000_0000_0000_0000_0000_0000);
        if host_bits > 16 {
            lemma_pow2_strictly_increases(16, host_bits as nat);
        }
        lemma_network_fits(n.first_number(), n.address_bits(), n.prefix());
    }
    assert(count == if n.size() < max_ips() {
        n.size()
    } else {
        max_ips()
    });
    let mut out: Vec<IpAddress> = Vec::new();
    let mut i: u32 = 0;
    while i < count
        invariant
            i <= count,
            count <= n.size(),
            count == expansion(*n).len(),
            n.first_number() + n.size() <= pow2(n.address_bits()),
            pow2(32) == 0x1_0000_0000,
            pow2(128) == 0x1_0000_0000_0000_0000_0000_0000_0000_0000,
            out@ == expansion(*n).take(i as int),
        decreases count - i,
    {
        let a = match n {
            IpNetwork::V4 { first, .. } => IpAddress::V4(*first + i),
            IpNetwork::V6 { first, .. } => IpAddress::V6(*first + i as u128),
        };
        out.push(a);
        assert(out@ =~= expansion(*n).take(i + 1));
        i = i + 1;
    }
    assert(expansion(*n).take(count as int) =~= expansion(*n));
    out
}

/// The kind of an address.
#[derive(Clone, Copy, Debug, PartialEq, Eq, Structural)]
pub enum IpType {
    Loopback,
    Private,
    Public,
    Multicast,
    Broadcast,
    IPv6,
}

/// What is known of an address by looking at it.
#[derive(Clone, Copy, Debug, PartialEq, Eq, Structural)]
pub struct NetworkInfo {
    pub ip: IpAddress,
    pub is_private: bool,
    pub ip_type: IpType,
}

/// The first octet of an IPv4 address.
pub open spec fn octet_a(n: u32) -> int {
    n as int / 0x100_0000
}

/// The second octet of an IPv4 address.
pub open spec fn octet_b(n: u32) -> int {
    n as int / 0x1_0000 % 0x100
}

/// The first 16 bits of an IPv6 address.
pub open spec fn segment_a(n: u128) -> int {
    n as int / 0x1_0000_0000_0000_0000_0000_0000_0000
}

/// The private IPv4 ranges: 10/8, 172.16/12 and 192.168/16.
pub open spec fn v4_private(n: u32) -> bool {
    octet_a(n) == 10 || (octet_a(n) == 172 && 16 <= octet_b(n) <= 31) || (octet_a(n) == 192
        && octet_b(n) == 168)
}

/// The IPv4 loopback range 127/8.
pub open spec fn v4_loopback(n: u32) -> bool {
    octet_a(n) == 127
}

/// The IPv4 link-local range 169.254/16.
pub open spec fn v4_link_local(n: u32) -> bool {
    octet_a(n) == 169 && octet_b(n) == 254
}

/// The IPv4 multicast range 224/4.
pub open spec fn v4_multicast(n: u32) -> bool {
    224 <= octet_a(n) <= 239
}

/// An address that is not routed on the public internet: for IPv4 the
/// private, loopback and link-local ranges; for IPv6 the loopback and the
/// unspecified address, the site-local range fec0::/10 and the unique local
/// range fc00::/7.
pub open spec fn private_address(ip: IpAddress) -> bool {
    match ip {
        IpAddress::V4(n) => v4_private(n) || v4_loopback(n) || v4_link_local(n),
        IpAddress::V6(n) => n == 1 || n == 0 || 0xfec0 <= segment_a(n) <= 0xfeff || 0xfc00
            <= segment_a(n) <= 0xfdff,
    }
}

/// The kind of an address: the first that applies of loopback, private,
/// multicast and broadcast for IPv4, else public; every IPv6 address is of
/// kind `IPv6`.
pub open spec fn address_kind(ip: IpAddress) -> IpType {
    match ip {
        IpAddress::V4(n) => if v4_loopback(n) {
            IpType::Loopback
        } else if v4_private(n) {
            IpType::Private
        } else if v4_multicast(n) {
            IpType::Multicast
        } else if n == 0xffff_ffff {
            IpType::Broadcast
        } else {
            IpType::Public
        },
        IpAddress::V6(_) => IpType::IPv6,
    }
}

/// The addresses among the first `n` of `addrs` that `excluded` does not hold,
/// in order.
pub open spec fn kept(addrs: Seq<IpAddress>, excluded: Set<IpAddress>, n: int) -> Seq<IpAddress>
    decreases n,
{
    if n <= 0 {
        Seq::empty()
    } else if excluded.contains(addrs[n - 1]) {
        kept(addrs, excluded, n - 1)
    } else {
        kept(addrs, excluded, n - 1).push(addrs[n - 1])
    }
}

/// The addresses that the first `n` exclusions cover, where `nets` holds what
/// each exclusion was read as: an exclusion that is no network covers nothing.
pub open spec fn excluded_by(nets: Seq<Option<IpNetwork>>, n: int) -> Set<IpAddress>
    decreases n,
{
    if n <= 0 {
        Set::empty()
    } else {
        match nets[n - 1] {
            Some(net) => excluded_by(nets, n - 1).union(expansion(net).to_set()),
            None => excluded_by(nets, n - 1),
        }
    }
}

/// The targets that the first `n` ranges give, where `nets` holds what each
/// range was read as and `texts` the ranges as written: every address of every
/// range in order, without the excluded ones. The first range that is no
/// network fails the list.
pub open spec fn targets_of(
    texts: Seq<Seq<char>>,
    nets: Seq<Option<IpNetwork>>,
    excluded: Set<IpAddress>,
    n: int,
) -> Result<Seq<IpAddress>, ScanErrorView>
    decreases n,
{
    if n <= 0 {
        Ok(Seq::empty())
    } else {
        match targets_of(texts, nets, excluded, n - 1) {
            Err(e) => Err(e),
            Ok(found) => match nets[n - 1] {
                Some(net) => Ok(
                    found + kept(expansion(net), excluded, expansion(net).len() as int),
                ),
                None => Err(
                    ScanErrorView::Validation {
                        message: "Invalid CIDR notation: "@ + texts[n - 1],
                    },
                ),
            },
        }
    }
}

/// What each of a list of texts is read as by the `cidr` crate.
pub open spec fn networks_of(texts: Seq<Seq<char>>) -> Seq<Option<IpNetwork>> {
    Seq::new(texts.len(), |i: int| cidr_network(texts[i]))
}

/// The target list of `ranges` without `excludes`.
pub open spec fn target_list(ranges: Seq<Seq<char>>, excludes: Seq<Seq<char>>) -> Result<
    Seq<IpAddress>,
    ScanErrorView,
> {
    targets_of(
        ranges,
        networks_of(ranges),
        excluded_by(networks_of(excludes), excludes.len() as int),
        ranges.len() as int,
    )
}

/// Once the ranges up to `n` fail, so do the ranges up to any later point,
/// with the same error.
pub proof fn lemma_targets_error_stays(
    texts: Seq<Seq<char>>,
    nets: Seq<Option<IpNetwork>>,
    excluded: Set<IpAddress>,
    n: int,
    m: int,
)
    requires
        n <= m,
        targets_of(texts, nets, excluded, n) is Err,
    ensures
        targets_of(texts, nets, excluded, m) == targets_of(texts, nets, excluded, n),
    decreases m - n,
{
    if n < m {
        lemma_targets_error_stays(texts, nets, excluded, n, m - 1);
    }
}

/// The addresses that two sets of numbers stand for, one set per family.
pub open spec fn held(v4: Set<u32>, v6: Set<u128>) -> Set<IpAddress> {
    Set::new(
        |a: IpAddress|
            match a {
                IpAddress::V4(n) => v4.contains(n),
                IpAddress::V6(n) => v6.contains(n),
            },
    )
}

/// Tools over addresses and networks.
pub struct NetworkUtils;

impl NetworkUtils {
    /// The addresses of the network that `cidr` writes, cut off after
    /// `max_ips()`.
    pub fn expand_cidr(cidr: &str) -> (r: Result<Vec<IpAddress>, ScanError>)
        ensures
            match r {
                Ok(v) => cidr_network(cidr@) matches Some(n) && v@ == expansion(n),
                Err(e) => cidr_network(cidr@) is None && e@ == (ScanErrorView::Validation {
                    message: "Invalid CIDR notation: "@ + cidr@,
                }),
            },
    {
        match parse_network(cidr) {
            Ok(n) => Ok(expand_network(&n)),
            Err(_) => Err(
                ScanError::Validation { message: prefixed("Invalid CIDR notation: ", cidr) },
            ),
        }
    }

    /// Whether an address is not routed on the public internet.
    pub fn is_private_ip(ip: &IpAddress) -> (b: bool)
        ensures
            b == private_address(*ip),
    {
        match ip {
            IpAddress::V4(n) => {
                let a: u32 = *n / 0x100_0000;
                let b: u32 = *n / 0x1_0000 % 0x100;
                a == 10 || (a == 172 && 16 <= b && b <= 31) || (a == 192 && b == 168) || a == 127
                    || (a == 169 && b == 254)
            },
            IpAddress::V6(n) => {
                let s: u128 = *n / 0x1_0000_0000_0000_0000_0000_0000_0000;
                *n == 1 || *n == 0 || (0xfec0 <= s && s <= 0xfeff) || (0xfc00 <= s && s <= 0xfdff)
            },
        }
    }

    /// The kind of an address.
    pub fn classify_ip(ip: &IpAddress) -> (t: IpType)
        ensures
            t == address_kind(*ip),
    {
        match ip {
            IpAddress::V4(n) => {
                let a: u32 = *n / 0x100_0000;
                let b: u32 = *n / 0x1_0000 % 0x100;
                if a == 127 {
                    IpType::Loopback
                } else if a == 10 || (a == 172 && 16 <= b && b <= 31) || (a == 192 && b == 168) {
                    IpType::Private
                } else if 224 <= a && a <= 239 {
                    IpType::Multicast
                } else if *n == 0xffff_ffff {
                    IpType::Broadcast
                } else {
                    IpType::Public
                }
            },
            IpAddress::V6(_) => IpType::IPv6,
        }
    }

    /// What is known of an address by looking at it.
    pub fn get_network_info(ip: &IpAddress) -> (info: NetworkInfo)
        ensures
            info == (NetworkInfo {
                ip: *ip,
                is_private: private_address(*ip),
                ip_type: address_kind(*ip),
            }),
    {
        NetworkInfo { ip: *ip, is_private: Self::is_private_ip(ip), ip_type: Self::classify_ip(ip) }
    }
}

/// Reads each of a list of texts as a network.
pub fn parse_networks(texts: &Vec<String>) -> (r: Vec<Option<IpNetwork>>)
    ensures
        r@ == networks_of(texts.deep_view()),
        forall|i: int| 0 <= i < r.len() ==> ((#[trigger] r@[i]) matches Some(n) ==> n.wf()),
{
    let mut out: Vec<Option<IpNetwork>> = Vec::new();
    let mut i: usize = 0;
    while i < texts.len()
        invariant
            i <= texts.len(),
            out@ == networks_of(texts.deep_view()).take(i as int),
            forall|j: int| 0 <= j < out.len() ==> ((#[trigger] out@[j]) matches Some(n) ==> n.wf()),
        decreases texts.len() - i,
    {
        assert(texts.deep_view()[i as int] == texts@[i as int]@);
        let parsed = match parse_network(texts[i].as_str()) {
            Ok(n) => Some(n),
            Err(_) => None,
        };
        out.push(parsed);
        assert(out@ =~= networks_of(texts.deep_view()).take(i + 1));
        i += 1;
    }
    assert(networks_of(texts.deep_view()).take(texts@.len() as int) =~= networks_of(
        texts.deep_view(),
    ));
    out
}

impl NetworkUtils {
    /// The target list of `ranges`, given what each range and each exclusion
    /// was read as.
    pub fn target_list_from(
        ranges: &Vec<String>,
        range_nets: &Vec<Option<IpNetwork>>,
        exclude_nets: &Vec<Option<IpNetwork>>,
    ) -> (r: Result<Vec<IpAddress>, ScanError>)
        requires
            range_nets.len() == ranges.len(),
            forall|i: int|
                0 <= i < range_nets.len() ==> ((#[trigger] range_nets@[i]) matches Some(n)
                    ==> n.wf()),
            forall|i: int|
                0 <= i < exclude_nets.len() ==> ((#[trigger] exclude_nets@[i]) matches Some(n)
                    ==> n.wf()),
        ensures
            match r {
                Ok(v) => targets_of(
                    ranges.deep_view(),
                    range_nets@,
                    excluded_by(exclude_nets@, exclude_nets@.len() as int),
                    ranges@.len() as int,
                ) == Ok::<Seq<IpAddress>, ScanErrorView>(v@),
                Err(e) => targets_of(
                    ranges.deep_view(),
                    range_nets@,
                    excluded_by(exclude_nets@, exclude_nets@.len() as int),
                    ranges@.len() as int,
                ) == Err::<Seq<IpAddress>, ScanErrorView>(e@),
            },
    {
        let mut v4: HashSet<u32> = HashSet::new();
        let mut v6: HashSet<u128> = HashSet::new();
        let mut i: usize = 0;
        assert(held(v4@, v6@) =~= excluded_by(exclude_nets@, 0));
        while i < exclude_nets.len()
            invariant
                i <= exclude_nets.len(),
                forall|k: int|
                    0 <= k < exclude_nets.len() ==> ((#[trigger] exclude_nets@[k]) matches Some(n)
                        ==> n.wf()),
                held(v4@, v6@) == excluded_by(exclude_nets@, i as int),
            decreases exclude_nets.len() - i,
        {
            match &exclude_nets[i] {
                Some(net) => {
                    let addrs = expand_network(net);
                    let ghost before = held(v4@, v6@);
                    let mut k: usize = 0;
                    assert(held(v4@, v6@) =~= before.union(addrs@.take(0).to_set()));
                    while k < addrs.len()
                        invariant
                            k <= addrs.len(),
                            held(v4@, v6@) == before.union(addrs@.take(k as int).to_set()),
                        decreases addrs.len() - k,
                    {
                        let ghost old4 = v4@;
                        let ghost old6 = v6@;
                        match addrs[k] {
                            IpAddress::V4(n) => {
                                v4.insert(n);
                            },
                            IpAddress::V6(n) => {
                                v6.insert(n);
                            },
                        }
                        proof {
                            let cur = addrs@.take(k as int);
                            assert(addrs@.take(k + 1) =~= cur.push(addrs@[k as int]));
                            cur.lemma_push_to_set_commute(addrs@[k as int]);
                            assert(held(v4@, v6@) =~= held(old4, old6).insert(addrs@[k as int]));
                            assert(held(v4@, v6@) =~= before.union(addrs@.take(k + 1).to_set()));
                        }
                        k += 1;
                    }
                    assert(addrs@.take(addrs@.len() as int) =~= addrs@);
                },
                None => {},
            }
            i += 1;
        }
        let ghost excluded = excluded_by(exclude_nets@, exclude_nets@.len() as int);
        let ghost texts = ranges.deep_view();
        let mut targets: Vec<IpAddress> = Vec::new();
        let mut j: usize = 0;
        while j < ranges.len()
            invariant
                j <= ranges.len(),
                range_nets.len() == ranges.len(),
                texts == ranges.deep_view(),
                excluded == excluded_by(exclude_nets@, exclude_nets@.len() as int),
                forall|k: int|
                    0 <= k < range_nets.len() ==> ((#[trigger] range_nets@[k]) matches Some(n)
                        ==> n.wf()),
                held(v4@, v6@) == excluded,
                targets_of(texts, range_nets@, excluded, j as int) == Ok::<
                    Seq<IpAddress>,
                    ScanErrorView,
                >(targets@),
            decreases ranges.len() - j,
        {
            assert(texts[j as int] == ranges@[j as int]@);
            match &range_nets[j] {
                Some(net) => {
                    let addrs = expand_network(net);
                    let ghost before = targets@;
                    let mut k: usize = 0;
                    while k < addrs.len()
                        invariant
                            k <= addrs.len(),
                            held(v4@, v6@) == excluded,
                            targets@ == before + kept(addrs@, excluded, k as int),
                        decreases addrs.len() - k,
                    {
                        let a = addrs[k];
                        let skip: bool = match a {
                            IpAddress::V4(n) => v4.contains(&n),
                            IpAddress::V6(n) => v6.contains(&n),
                        };
                        assert(skip == excluded.contains(a));
                        if !skip {
                            targets.push(a);
                        }
                        assert(targets@ =~= before + kept(addrs@, excluded, k + 1));
                        k += 1;
                    }
                },
                None => {
                    let e = ScanError::Validation {
                        message: prefixed("Invalid CIDR notation: ", ranges[j].as_str()),
                    };
                    proof {
                        assert(range_nets@[j as int] is None);
                        assert(targets_of(texts, range_nets@, excluded, j + 1) == Err::<
                            Seq<IpAddress>,
                            ScanErrorView,
                        >(e@));
                        lemma_targets_error_stays(
                            texts,
                            range_nets@,
                            excluded,
                            j + 1,
                            ranges@.len() as int,
                        );
                    }
                    return Err(e);
                },
            }
            j += 1;
        }
        Ok(targets)
    }

    /// Every address of every range in order, without the addresses of the
    /// exclusions. An exclusion that is no network excludes nothing; a range
    /// that is no network fails the list.
    pub fn generate_target_list(ranges: &Vec<String>, excludes: &Vec<String>) -> (r: Result<
        Vec<IpAddress>,
        ScanError,
    >)
        ensures
            match r {
                Ok(v) => target_list(ranges.deep_view(), excludes.deep_view()) == Ok::<
                    Seq<IpAddress>,
                    ScanErrorView,
                >(v@),
                Err(e) => target_list(ranges.deep_view(), excludes.deep_view()) == Err::<
                    Seq<IpAddress>,
                    ScanErrorView,
                >(e@),
            },
    {
        let exclude_nets = parse_networks(excludes);
        let range_nets = parse_networks(ranges);
        Self::target_list_from(ranges, &range_nets, &exclude_nets)
    }
}

/// What is kept of a list is its difference with the excluded set: an address
/// is kept exactly when it is listed and not excluded.
pub proof fn lemma_kept_is_difference(addrs: Seq<IpAddress>, excluded: Set<IpAddress>, n: int)
    requires
        0 <= n <= addrs.len(),
    ensures
        forall|a: IpAddress|
            #![trigger kept(addrs, excluded, n).contains(a)]
            #![trigger addrs.take(n).contains(a)]
            kept(addrs, excluded, n).contains(a) <==> (addrs.take(n).contains(a)
                && !excluded.contains(a)),
    decreases n,
{
    if n > 0 {
        lemma_kept_is_difference(addrs, excluded, n - 1);
        let before = kept(addrs, excluded, n - 1);
        let last = addrs[n - 1];
        let shorter = addrs.take(n - 1);
        let longer = addrs.take(n);
        assert(longer =~= shorter.push(last));
        let now = kept(addrs, excluded, n);
        assert forall|a: IpAddress| now.contains(a) implies longer.contains(a)
            && !excluded.contains(a) by {
            let i = choose|i: int| 0 <= i < now.len() && now[i] == a;
            if !excluded.contains(last) && i == before.len() {
                assert(longer[n - 1] == a);
            } else {
                assert(before[i] == a);
                assert(before.contains(a));
                let j = choose|j: int| 0 <= j < shorter.len() && shorter[j] == a;
                assert(longer[j] == a);
            }
        }
        assert forall|a: IpAddress| longer.contains(a) && !excluded.contains(a) implies now.contains(
            a,
        ) by {
            let i = choose|i: int| 0 <= i < longer.len() && longer[i] == a;
            if i == n - 1 {
                assert(a == last);
                assert(now[before.len() as int] == a);
            } else {
                assert(shorter[i] == a);
                assert(shorter.contains(a));
                assert(before.contains(a));
                let j = choose|j: int| 0 <= j < before.len() && before[j] == a;
                assert(now[j] == a);
            }
        }
    }
}

} // verus!

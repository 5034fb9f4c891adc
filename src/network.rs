use vstd::prelude::*;
use vstd::string::{StrSliceExecFns, StringExecFns};
use crate::text::{joined, text_eq};

verus! {

/// One host-side binding of a published container port.
#[derive(Debug, Clone)]
pub struct HostBinding {
    pub host_ip: Option<String>,
    pub host_port: Option<String>,
}

/// A container port (such as `8080/tcp`) and the host bindings the engine reported for it.
#[derive(Debug, Clone)]
pub struct PortEntry {
    pub key: String,
    pub bindings: Option<Vec<HostBinding>>,
}

/// The part of a container's reported network settings that endpoint extraction reads.
#[derive(Debug, Clone)]
pub struct NetworkConfig {
    pub ip_address: Option<String>,
    pub ports: Vec<PortEntry>,
}

/// How the engine is reached, which decides where a container's endpoint is read from.
#[derive(Debug, Clone, Copy, PartialEq, Eq, Structural)]
pub enum Topology {
    /// Local privileged socket: published ports are bound on host interfaces.
    Privileged,
    /// Unprivileged or remote engine: the container is reached on its own address.
    Unprivileged,
}

pub open spec fn privileged_socket() -> Seq<char> {
    "unix:///var/run/docker.sock"@
}

pub open spec fn topology_for(endpoint: Seq<char>) -> Topology {
    if endpoint == privileged_socket() {
        Topology::Privileged
    } else {
        Topology::Unprivileged
    }
}

/// Infers the topology from the engine endpoint: only the canonical local socket is privileged.
pub fn topology_of(engine_endpoint: &str) -> (r: Topology)
    ensures
        r == topology_for(engine_endpoint@),
{
    if text_eq(engine_endpoint, "unix:///var/run/docker.sock") {
        Topology::Privileged
    } else {
        Topology::Unprivileged
    }
}

/// The key under which the engine reports a TCP container port.
pub open spec fn port_key(port: Seq<char>) -> Seq<char> {
    port + "/tcp"@
}

/// The first entry reported for `key`, if any.
pub open spec fn find_entry(entries: Seq<PortEntry>, key: Seq<char>) -> Option<PortEntry>
    decreases entries.len(),
{
    if entries.len() == 0 {
        None
    } else if entries[0].key@ == key {
        Some(entries[0])
    } else {
        find_entry(entries.drop_first(), key)
    }
}

pub open spec fn is_ipv4_text(ip: Seq<char>) -> bool {
    !ip.contains(':')
}

/// A binding with a non-empty host address and port; with `v4_only`, the address must be IPv4.
pub open spec fn binding_fits(b: HostBinding, v4_only: bool) -> bool {
    match (b.host_ip, b.host_port) {
        (Some(ip), Some(port)) => ip@.len() > 0 && port@.len() > 0 && (!v4_only
            || is_ipv4_text(ip@)),
        _ => false,
    }
}

pub open spec fn binding_pair(b: HostBinding) -> (Seq<char>, Seq<char>) {
    (b.host_ip.unwrap()@, b.host_port.unwrap()@)
}

/// The host address and port of the first binding that fits, in reported order.
pub open spec fn first_fit(bs: Seq<HostBinding>, v4_only: bool) -> Option<(Seq<char>, Seq<char>)>
    decreases bs.len(),
{
    if bs.len() == 0 {
        None
    } else if binding_fits(bs[0], v4_only) {
        Some(binding_pair(bs[0]))
    } else {
        first_fit(bs.drop_first(), v4_only)
    }
}

/// Host-side selection: the first IPv4 binding, else the first binding of any family.
pub open spec fn host_endpoint(bs: Seq<HostBinding>) -> Option<(Seq<char>, Seq<char>)> {
    match first_fit(bs, true) {
        Some(pair) => Some(pair),
        None => first_fit(bs, false),
    }
}

/// The endpoint at which a container listening on `port` is reached.
pub open spec fn endpoint_of(config: NetworkConfig, topology: Topology, port: Seq<char>) -> Option<
    (Seq<char>, Seq<char>),
> {
    match find_entry(config.ports@, port_key(port)) {
        None => None,
        Some(entry) => match topology {
            Topology::Privileged => match entry.bindings {
                Some(bs) => host_endpoint(bs@),
                None => None,
            },
            Topology::Unprivileged => match config.ip_address {
                Some(ip) => if ip@.len() > 0 {
                    Some((ip@, port))
                } else {
                    None
                },
                None => None,
            },
        },
    }
}

pub open spec fn pair_view(r: Option<(String, String)>) -> Option<(Seq<char>, Seq<char>)> {
    match r {
        Some((a, b)) => Some((a@, b@)),
        None => None,
    }
}

proof fn lemma_find_entry_suffix(entries: Seq<PortEntry>, key: Seq<char>, i: int)
    requires
        0 <= i < entries.len(),
    ensures
        find_entry(entries.subrange(i, entries.len() as int), key) == if entries[i].key@ == key {
            Some(entries[i])
        } else {
            find_entry(entries.subrange(i + 1, entries.len() as int), key)
        },
{
    let s = entries.subrange(i, entries.len() as int);
    assert(s.drop_first() =~= entries.subrange(i + 1, entries.len() as int));
}

proof fn lemma_first_fit_suffix(bs: Seq<HostBinding>, v4_only: bool, i: int)
    requires
        0 <= i < bs.len(),
    ensures
        first_fit(bs.subrange(i, bs.len() as int), v4_only) == if binding_fits(bs[i], v4_only) {
            Some(binding_pair(bs[i]))
        } else {
            first_fit(bs.subrange(i + 1, bs.len() as int), v4_only)
        },
{
    let s = bs.subrange(i, bs.len() as int);
    assert(s.drop_first() =~= bs.subrange(i + 1, bs.len() as int));
}

fn is_ipv4(ip: &str) -> (r: bool)
    ensures
        r == is_ipv4_text(ip@),
{
    let n = ip.unicode_len();
    let mut i: usize = 0;
    while i < n
        invariant
            n == ip@.len(),
            i <= n,
            forall|j: int| 0 <= j < i ==> ip@[j] != ':',
        decreases n - i,
    {
        if ip.get_char(i) == ':' {
            return false;
        }
        i = i + 1;
    }
    true
}

fn fits(b: &HostBinding, v4_only: bool) -> (r: bool)
    ensures
        r == binding_fits(*b, v4_only),
{
    match (&b.host_ip, &b.host_port) {
        (Some(ip), Some(port)) => ip.unicode_len() > 0 && port.unicode_len() > 0 && (!v4_only
            || is_ipv4(ip.as_str())),
        _ => false,
    }
}

fn pick_binding(bs: &Vec<HostBinding>, v4_only: bool) -> (r: Option<(String, String)>)
    ensures
        pair_view(r) == first_fit(bs@, v4_only),
{
    let mut i: usize = 0;
    proof {
        assert(bs@.subrange(0, bs@.len() as int) =~= bs@);
    }
    while i < bs.len()
        invariant
            i <= bs@.len(),
            first_fit(bs@.subrange(i as int, bs@.len() as int), v4_only) == first_fit(bs@, v4_only),
        decreases bs@.len() - i,
    {
        proof {
            lemma_first_fit_suffix(bs@, v4_only, i as int);
        }
        let b = &bs[i];
        if fits(b, v4_only) {
            match (&b.host_ip, &b.host_port) {
                (Some(ip), Some(port)) => {
                    return Some((ip.clone(), port.clone()));
                },
                _ => {},
            }
        }
        i = i + 1;
    }
    None
}

fn entry_for<'a>(entries: &'a Vec<PortEntry>, key: &str) -> (r: Option<&'a PortEntry>)
    ensures
        match r {
            Some(e) => find_entry(entries@, key@) == Some(*e),
            None => find_entry(entries@, key@) is None,
        },
{
    let mut i: usize = 0;
    proof {
        assert(entries@.subrange(0, entries@.len() as int) =~= entries@);
    }
    while i < entries.len()
        invariant
            i <= entries@.len(),
            find_entry(entries@.subrange(i as int, entries@.len() as int), key@) == find_entry(
                entries@,
                key@,
            ),
        decreases entries@.len() - i,
    {
        proof {
            lemma_find_entry_suffix(entries@, key@, i as int);
        }
        if text_eq(entries[i].key.as_str(), key) {
            return Some(&entries[i]);
        }
        i = i + 1;
    }
    None
}

/// Reads the endpoint of a container listening on `port` from its network configuration.
/// `None` means the engine did not report the expected network shape.
pub fn extract_endpoint(config: &NetworkConfig, topology: Topology, port: &str) -> (r: Option<
    (String, String),
>)
    ensures
        pair_view(r) == endpoint_of(*config, topology, port@),
{
    let key = joined(port, "/tcp");
    match entry_for(&config.ports, key.as_str()) {
        None => None,
        Some(entry) => match topology {
            Topology::Privileged => match &entry.bindings {
                Some(bs) => match pick_binding(bs, true) {
                    Some(pair) => Some(pair),
                    None => pick_binding(bs, false),
                },
                None => None,
            },
            Topology::Unprivileged => match &config.ip_address {
                Some(ip) => {
                    if ip.unicode_len() > 0 {
                        Some((ip.clone(), String::from_str(port)))
                    } else {
                        None
                    }
                },
                None => None,
            },
        },
    }
}

proof fn lemma_first_fit_reported(bs: Seq<HostBinding>, v4_only: bool)
    requires
        first_fit(bs, v4_only) is Some,
    ensures
        exists|i: int|
            0 <= i < bs.len() && binding_fits(bs[i], false) && binding_pair(bs[i]) == first_fit(
                bs,
                v4_only,
            ).unwrap(),
    decreases bs.len(),
{
    if binding_fits(bs[0], v4_only) {
        assert(binding_fits(bs[0], false));
    } else {
        lemma_first_fit_reported(bs.drop_first(), v4_only);
        let i = choose|i: int|
            0 <= i < bs.drop_first().len() && binding_fits(bs.drop_first()[i], false)
                && binding_pair(bs.drop_first()[i]) == first_fit(bs.drop_first(), v4_only).unwrap();
        assert(bs[i + 1] == bs.drop_first()[i]);
    }
}

proof fn lemma_first_fit_found(bs: Seq<HostBinding>, i: int)
    requires
        0 <= i < bs.len(),
        binding_fits(bs[i], false),
    ensures
        first_fit(bs, false) is Some,
    decreases bs.len(),
{
    if !binding_fits(bs[0], false) {
        assert(bs.drop_first()[i - 1] == bs[i]);
        lemma_first_fit_found(bs.drop_first(), i - 1);
    }
}

/// Under the privileged topology, when the entry for `port` holds a usable binding, the
/// endpoint is found, and it is the host address and host-side port of a reported binding.
pub proof fn lemma_privileged_endpoint_is_host_binding(
    config: NetworkConfig,
    port: Seq<char>,
    entry: PortEntry,
    i: int,
)
    requires
        find_entry(config.ports@, port_key(port)) == Some(entry),
        entry.bindings is Some,
        0 <= i < entry.bindings.unwrap()@.len(),
        binding_fits(entry.bindings.unwrap()@[i], false),
    ensures
        endpoint_of(config, Topology::Privileged, port) is Some,
        exists|j: int|
            0 <= j < entry.bindings.unwrap()@.len() && binding_fits(
                entry.bindings.unwrap()@[j],
                false,
            ) && binding_pair(entry.bindings.unwrap()@[j]) == endpoint_of(
                config,
                Topology::Privileged,
                port,
            ).unwrap(),
{
    let bs = entry.bindings.unwrap()@;
    lemma_first_fit_found(bs, i);
    if first_fit(bs, true) is Some {
        lemma_first_fit_reported(bs, true);
    } else {
        lemma_first_fit_reported(bs, false);
    }
}

/// Under the unprivileged topology, a container exposing `port` with an assigned address is
/// reached at that address on `port` itself, never on a host-remapped port.
pub proof fn lemma_unprivileged_endpoint_is_container_address(
    config: NetworkConfig,
    port: Seq<char>,
)
    requires
        find_entry(config.ports@, port_key(port)) is Some,
        config.ip_address is Some,
        config.ip_address.unwrap()@.len() > 0,
    ensures
        endpoint_of(config, Topology::Unprivileged, port) == Some(
            (config.ip_address.unwrap()@, port),
        ),
{
}

/// Without an entry for `port`, neither topology yields an endpoint.
pub proof fn lemma_no_entry_no_endpoint(config: NetworkConfig, port: Seq<char>)
    requires
        find_entry(config.ports@, port_key(port)) is None,
    ensures
        endpoint_of(config, Topology::Privileged, port) is None,
        endpoint_of(config, Topology::Unprivileged, port) is None,
{
}

} // verus!

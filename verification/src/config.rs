//! The policy configuration, the logical service descriptor, and the
//! tag parser: the naming convention `name-port-protocol` on a peer
//! tag is turned into zero or one service descriptor per tag.

use vstd::prelude::*;
use vstd::string::StringExecFns;
use crate::assoc::{assoc_insert, assoc_vec_insert, pairs_view};
use crate::strutil::{
    join_seq, join_with, lemma_split_seq_len, lower_of, parse_u16, parses_as_u16, split_on,
    split_seq, string_eq_str, strip_tag_prefix, strip_tag_prefix_seq, to_lowercase, trim,
    trim_seq, u16_value, views_of,
};

verus! {

/// The protocol family of a service: one of the three independent
/// sections of the generated configuration.
#[derive(Clone, Copy, Debug, PartialEq, Eq, Structural)]
pub enum Protocol {
    Http,
    Tcp,
    Udp,
}

/// Case-insensitive protocol naming: `tcp` and `udp` name those
/// families, everything else (including `http` and `https`) is HTTP.
pub open spec fn spec_protocol_from(s: Seq<char>) -> Protocol {
    if lower_of(s) == "tcp"@ {
        Protocol::Tcp
    } else if lower_of(s) == "udp"@ {
        Protocol::Udp
    } else {
        Protocol::Http
    }
}

impl Protocol {
    /// Parses a protocol name, leniently: an unknown name falls back
    /// to HTTP and is never an error.
    pub fn from_str(s: &str) -> (r: Protocol)
        ensures
            r == spec_protocol_from(s@),
    {
        let l = to_lowercase(s);
        if string_eq_str(&l, "tcp") {
            Protocol::Tcp
        } else if string_eq_str(&l, "udp") {
            Protocol::Udp
        } else {
            Protocol::Http
        }
    }
}

/// One logical service inferred for a peer: name, optional port
/// (absent means the policy default applies at the use site),
/// protocol family, and URL scheme.
#[derive(Clone, Debug, PartialEq)]
pub struct ServiceInfo {
    pub name: String,
    pub port: Option<u16>,
    pub protocol: Protocol,
    pub scheme: String,
}

/// The mathematical value of a service descriptor.
pub struct ServiceInfoGhost {
    pub name: Seq<char>,
    pub port: Option<u16>,
    pub protocol: Protocol,
    pub scheme: Seq<char>,
}

impl ServiceInfo {
    /// A copy with the same value, field by field.
    pub fn duplicate(&self) -> (r: ServiceInfo)
        ensures
            r@ == self@,
    {
        ServiceInfo {
            name: self.name.clone(),
            port: self.port,
            protocol: self.protocol,
            scheme: self.scheme.clone(),
        }
    }
}

impl View for ServiceInfo {
    type V = ServiceInfoGhost;

    open spec fn view(&self) -> ServiceInfoGhost {
        ServiceInfoGhost {
            name: self.name@,
            port: self.port,
            protocol: self.protocol,
            scheme: self.scheme@,
        }
    }
}

/// The policy knobs that drive filtering and synthesis. Constructed
/// once at startup and passed by reference; the mapping tables are
/// association lists with unique keys.
#[derive(Clone, Debug, PartialEq)]
pub struct ProviderConfig {
    /// Custom daemon socket path, if any.
    pub tailscale_socket_path: Option<String>,
    /// Port used for a service that names none.
    pub default_port: u16,
    /// Whether exit nodes are left out.
    pub exclude_exit_nodes: bool,
    /// If set, only peers carrying one of these tags are included.
    pub include_tags: Option<Vec<String>>,
    /// If set, peers with these hostnames are left out.
    pub exclude_hostnames: Option<Vec<String>>,
    /// Health-check path added to HTTP services, if any.
    pub health_check_path: Option<String>,
    /// Refresh period of the background loop, in seconds.
    pub update_interval_seconds: u64,
    /// Port of the HTTP server that hands the configuration out.
    pub server_port: u16,
    /// If set, peers inactive for longer than this are left out.
    pub max_inactive_seconds: Option<i64>,
    /// If set, only peers with one of these operating systems are
    /// included.
    pub include_os: Option<Vec<String>>,
    /// Whether peers with expired node keys are left out.
    pub exclude_expired: bool,
    /// Whether port and protocol are read from the tag itself.
    pub extract_protocol_from_tag: bool,
    /// Explicit tag to service mapping.
    pub tag_service_mapping: Option<Vec<(String, ServiceInfo)>>,
    /// Scheme used for a service that names none.
    pub default_scheme: String,
    /// Protocol used for a service that names none.
    pub default_protocol: Protocol,
    /// Service name to domain mapping for router rules.
    pub service_domain_mapping: Option<Vec<(String, String)>>,
}

/// The mathematical value of the policy configuration.
pub struct ProviderConfigGhost {
    pub tailscale_socket_path: Option<Seq<char>>,
    pub default_port: u16,
    pub exclude_exit_nodes: bool,
    pub include_tags: Option<Seq<Seq<char>>>,
    pub exclude_hostnames: Option<Seq<Seq<char>>>,
    pub health_check_path: Option<Seq<char>>,
    pub update_interval_seconds: u64,
    pub server_port: u16,
    pub max_inactive_seconds: Option<i64>,
    pub include_os: Option<Seq<Seq<char>>>,
    pub exclude_expired: bool,
    pub extract_protocol_from_tag: bool,
    pub tag_service_mapping: Option<Seq<(Seq<char>, ServiceInfoGhost)>>,
    pub default_scheme: Seq<char>,
    pub default_protocol: Protocol,
    pub service_domain_mapping: Option<Seq<(Seq<char>, Seq<char>)>>,
}

/// The view of an optional string.
pub open spec fn opt_str_view(o: Option<String>) -> Option<Seq<char>> {
    match o {
        Some(s) => Some(s@),
        None => None,
    }
}

/// The views of an optional list of strings.
pub open spec fn opt_strs_view(o: Option<Vec<String>>) -> Option<Seq<Seq<char>>> {
    match o {
        Some(v) => Some(views_of(v@)),
        None => None,
    }
}

impl View for ProviderConfig {
    type V = ProviderConfigGhost;

    open spec fn view(&self) -> ProviderConfigGhost {
        ProviderConfigGhost {
            tailscale_socket_path: opt_str_view(self.tailscale_socket_path),
            default_port: self.default_port,
            exclude_exit_nodes: self.exclude_exit_nodes,
            include_tags: opt_strs_view(self.include_tags),
            exclude_hostnames: opt_strs_view(self.exclude_hostnames),
            health_check_path: opt_str_view(self.health_check_path),
            update_interval_seconds: self.update_interval_seconds,
            server_port: self.server_port,
            max_inactive_seconds: self.max_inactive_seconds,
            include_os: opt_strs_view(self.include_os),
            exclude_expired: self.exclude_expired,
            extract_protocol_from_tag: self.extract_protocol_from_tag,
            tag_service_mapping: match self.tag_service_mapping {
                Some(m) => Some(pairs_view(m@)),
                None => None,
            },
            default_scheme: self.default_scheme@,
            default_protocol: self.default_protocol,
            service_domain_mapping: match self.service_domain_mapping {
                Some(m) => Some(pairs_view(m@)),
                None => None,
            },
        }
    }
}

/// The configuration with every knob at its stated default.
pub open spec fn spec_default_config() -> ProviderConfigGhost {
    ProviderConfigGhost {
        tailscale_socket_path: None,
        default_port: 80,
        exclude_exit_nodes: true,
        include_tags: None,
        exclude_hostnames: None,
        health_check_path: Some("/health"@),
        update_interval_seconds: 30,
        server_port: 8080,
        max_inactive_seconds: None,
        include_os: None,
        exclude_expired: true,
        extract_protocol_from_tag: true,
        tag_service_mapping: None,
        default_scheme: "http"@,
        default_protocol: Protocol::Http,
        service_domain_mapping: None,
    }
}

impl Default for ProviderConfig {
    /// The stated defaults: port 80, HTTP, scheme `http`, exit nodes
    /// and expired peers excluded, tag extraction on, health-check
    /// path `/health`, refresh every thirty seconds.
    fn default() -> (r: ProviderConfig)
        ensures
            r@ == spec_default_config(),
    {
        ProviderConfig {
            tailscale_socket_path: None,
            default_port: 80,
            exclude_exit_nodes: true,
            include_tags: None,
            exclude_hostnames: None,
            health_check_path: Some(String::from_str("/health")),
            update_interval_seconds: 30,
            server_port: 8080,
            max_inactive_seconds: None,
            include_os: None,
            exclude_expired: true,
            extract_protocol_from_tag: true,
            tag_service_mapping: None,
            default_scheme: String::from_str("http"),
            default_protocol: Protocol::Http,
            service_domain_mapping: None,
        }
    }
}

/// The scheme chosen for a parsed protocol segment: `https` exactly
/// when the segment names it (case-insensitively), otherwise the
/// protocol's own default scheme.
pub open spec fn spec_scheme_for(seg: Seq<char>, protocol: Protocol) -> Seq<char> {
    match protocol {
        Protocol::Http => if lower_of(seg) == "https"@ {
            "https"@
        } else {
            "http"@
        },
        Protocol::Tcp => "tcp"@,
        Protocol::Udp => "udp"@,
    }
}

fn scheme_for(seg: &str, protocol: Protocol) -> (r: String)
    ensures
        r@ == spec_scheme_for(seg@, protocol),
{
    match protocol {
        Protocol::Http => {
            let l = to_lowercase(seg);
            if string_eq_str(&l, "https") {
                String::from_str("https")
            } else {
                String::from_str("http")
            }
        },
        Protocol::Tcp => String::from_str("tcp"),
        Protocol::Udp => String::from_str("udp"),
    }
}

/// What the tag parser yields for one tag under one policy: the
/// positional convention `name`, `name-port` or `name-port-protocol`
/// (with a multi-segment name when there are more than three
/// segments), or nothing when the port segment is not a number.
pub open spec fn spec_parse_tag(tag: Seq<char>, cfg: ProviderConfigGhost) -> Option<
    ServiceInfoGhost,
> {
    let clean = strip_tag_prefix_seq(tag);
    if !cfg.extract_protocol_from_tag {
        Some(ServiceInfoGhost {
            name: clean,
            port: Some(cfg.default_port),
            protocol: cfg.default_protocol,
            scheme: cfg.default_scheme,
        })
    } else {
        let parts = split_seq(clean, '-');
        if parts.len() == 1 {
            Some(ServiceInfoGhost {
                name: parts[0],
                port: Some(cfg.default_port),
                protocol: cfg.default_protocol,
                scheme: cfg.default_scheme,
            })
        } else if parts.len() == 2 {
            if parses_as_u16(parts[1]) {
                Some(ServiceInfoGhost {
                    name: parts[0],
                    port: Some((u16_value(parts[1]) as u16)),
                    protocol: cfg.default_protocol,
                    scheme: cfg.default_scheme,
                })
            } else {
                None
            }
        } else if parts.len() == 3 {
            if parses_as_u16(parts[1]) {
                let protocol = spec_protocol_from(parts[2]);
                Some(ServiceInfoGhost {
                    name: parts[0],
                    port: Some((u16_value(parts[1]) as u16)),
                    protocol,
                    scheme: spec_scheme_for(parts[2], protocol),
                })
            } else {
                None
            }
        } else {
            if parses_as_u16(parts[parts.len() - 2]) {
                let protocol = spec_protocol_from(parts[parts.len() - 1]);
                Some(ServiceInfoGhost {
                    name: join_seq(parts.subrange(0, parts.len() - 2), '-'),
                    port: Some((u16_value(parts[parts.len() - 2]) as u16)),
                    protocol,
                    scheme: spec_scheme_for(parts[parts.len() - 1], protocol),
                })
            } else {
                None
            }
        }
    }
}

impl ProviderConfig {
    /// Reads one service descriptor out of a peer tag, after
    /// stripping the `tag:` prefix the daemon adds. With extraction
    /// disabled every tag maps to a descriptor made of policy
    /// defaults; otherwise the positional rules apply and a
    /// non-numeric port segment excludes the tag.
    pub fn parse_service_info_from_tag(&self, tag: &str) -> (r: Option<ServiceInfo>)
        ensures
            (match r {
                Some(si) => spec_parse_tag(tag@, self@) == Some(si@),
                None => spec_parse_tag(tag@, self@) is None,
            }),
    {
        let clean_tag = strip_tag_prefix(tag);
        if !self.extract_protocol_from_tag {
            return Some(ServiceInfo {
                name: String::from_str(clean_tag),
                port: Some(self.default_port),
                protocol: self.default_protocol,
                scheme: self.default_scheme.clone(),
            });
        }
        let parts = split_on(clean_tag, '-');
        proof {
            lemma_split_seq_len(clean_tag@, '-');
        }
        if parts.len() == 1 {
            Some(ServiceInfo {
                name: parts[0].clone(),
                port: Some(self.default_port),
                protocol: self.default_protocol,
                scheme: self.default_scheme.clone(),
            })
        } else if parts.len() == 2 {
            match parse_u16(parts[1].as_str()) {
                Some(port) => Some(ServiceInfo {
                    name: parts[0].clone(),
                    port: Some(port),
                    protocol: self.default_protocol,
                    scheme: self.default_scheme.clone(),
                }),
                None => None,
            }
        } else if parts.len() == 3 {
            match parse_u16(parts[1].as_str()) {
                Some(port) => {
                    let protocol = Protocol::from_str(parts[2].as_str());
                    let scheme = scheme_for(parts[2].as_str(), protocol);
                    Some(ServiceInfo { name: parts[0].clone(), port: Some(port), protocol, scheme })
                },
                None => None,
            }
        } else {
            match parse_u16(parts[parts.len() - 2].as_str()) {
                Some(port) => {
                    let last = parts.len() - 1;
                    let protocol = Protocol::from_str(parts[last].as_str());
                    let scheme = scheme_for(parts[last].as_str(), protocol);
                    let mut name_parts: Vec<String> = Vec::new();
                    let mut i: usize = 0;
                    while i < parts.len() - 2
                        invariant
                            i <= parts@.len() - 2,
                            parts@.len() >= 4,
                            views_of(name_parts@) =~= views_of(parts@).subrange(0, i as int),
                        decreases parts@.len() - 2 - i,
                    {
                        let ghost pre = name_parts@;
                        name_parts.push(parts[i].clone());
                        proof {
                            assert(views_of(pre).len() == pre.len());
                            assert(views_of(parts@).subrange(0, i as int).len() == i);
                            assert(pre.len() == i);
                            assert(name_parts@.len() == i + 1);
                            assert forall|j: int| 0 <= j < i + 1 implies views_of(name_parts@)[j]
                                == views_of(parts@)[j] by {
                                if j < i {
                                    assert(name_parts@[j] == pre[j]);
                                    assert(views_of(pre)[j] == views_of(parts@).subrange(
                                        0,
                                        i as int,
                                    )[j]);
                                } else {
                                    assert(name_parts@[j] == parts@[i as int]);
                                }
                            }
                            assert(views_of(name_parts@) =~= views_of(parts@).subrange(
                                0,
                                i + 1,
                            ));
                        }
                        i = i + 1;
                    }
                    let name = join_with(&name_parts, '-');
                    proof {
                        assert(views_of(parts@).subrange(0, parts@.len() - 2) =~= split_seq(
                            strip_tag_prefix_seq(tag@),
                            '-',
                        ).subrange(0, split_seq(strip_tag_prefix_seq(tag@), '-').len() - 2));
                    }
                    Some(ServiceInfo { name, port: Some(port), protocol, scheme })
                },
                None => None,
            }
        }
    }
}


/// The domain-mapping entries accumulated after the first `k`
/// comma-separated entries: each well-shaped `service:domain` entry
/// is inserted, later entries for the same service winning.
pub open spec fn spec_domain_entries(entries: Seq<Seq<char>>, k: int) -> Seq<(Seq<char>, Seq<
    char,
>)>
    decreases k,
{
    if k <= 0 {
        Seq::empty()
    } else {
        let m = spec_domain_entries(entries, k - 1);
        let parts = split_seq(trim_seq(entries[k - 1]), ':');
        if parts.len() == 2 {
            assoc_insert(m, trim_seq(parts[0]), trim_seq(parts[1]))
        } else {
            m
        }
    }
}

/// What parsing a `service:domain,service:domain` string yields:
/// nothing for an empty string or when no entry is well-shaped.
pub open spec fn spec_parse_domain_mapping(s: Seq<char>) -> Option<Seq<(Seq<char>, Seq<char>)>> {
    if s.len() == 0 {
        None
    } else {
        let entries = split_seq(s, ',');
        let m = spec_domain_entries(entries, entries.len() as int);
        if m.len() == 0 {
            None
        } else {
            Some(m)
        }
    }
}

/// What one `tag:port[:protocol]` entry of the service mapping
/// yields: the tag, mapped to a descriptor named after it, or
/// nothing when the entry is not well-shaped.
pub open spec fn spec_service_entry(entry: Seq<char>) -> Option<(Seq<char>, ServiceInfoGhost)> {
    let parts = split_seq(trim_seq(entry), ':');
    if parts.len() >= 2 && parses_as_u16(trim_seq(parts[1])) {
        let tag = trim_seq(parts[0]);
        let protocol = if parts.len() >= 3 {
            spec_protocol_from(trim_seq(parts[2]))
        } else {
            Protocol::Http
        };
        let scheme = match protocol {
            Protocol::Http => "http"@,
            Protocol::Tcp => "tcp"@,
            Protocol::Udp => "udp"@,
        };
        Some(
            (
                tag,
                ServiceInfoGhost {
                    name: tag,
                    port: Some((u16_value(trim_seq(parts[1])) as u16)),
                    protocol,
                    scheme,
                },
            ),
        )
    } else {
        None
    }
}

/// The service-mapping entries accumulated after the first `k`
/// comma-separated entries.
pub open spec fn spec_service_entries(entries: Seq<Seq<char>>, k: int) -> Seq<(Seq<char>,
    ServiceInfoGhost,
)>
    decreases k,
{
    if k <= 0 {
        Seq::empty()
    } else {
        let m = spec_service_entries(entries, k - 1);
        match spec_service_entry(entries[k - 1]) {
            Some(p) => assoc_insert(m, p.0, p.1),
            None => m,
        }
    }
}

/// What parsing a `tag:port:protocol,...` string yields: nothing for
/// an empty string or when no entry is well-shaped.
pub open spec fn spec_parse_service_mapping(s: Seq<char>) -> Option<Seq<(Seq<char>,
    ServiceInfoGhost,
)>> {
    if s.len() == 0 {
        None
    } else {
        let entries = split_seq(s, ',');
        let m = spec_service_entries(entries, entries.len() as int);
        if m.len() == 0 {
            None
        } else {
            Some(m)
        }
    }
}

impl ProviderConfig {
    /// Parses a domain mapping from its `service:domain,...` string
    /// form. Entries without exactly one `:` are dropped; an empty
    /// result is reported as no mapping at all.
    pub fn parse_domain_mapping(mapping_str: &str) -> (r: Option<Vec<(String, String)>>)
        ensures
            (match r {
                Some(m) => spec_parse_domain_mapping(mapping_str@) == Some(pairs_view(m@)),
                None => spec_parse_domain_mapping(mapping_str@) is None,
            }),
    {
        if mapping_str.unicode_len() == 0 {
            return None;
        }
        let entries = split_on(mapping_str, ',');
        let mut mapping: Vec<(String, String)> = Vec::new();
        let mut i: usize = 0;
        while i < entries.len()
            invariant
                i <= entries@.len(),
                views_of(entries@) == split_seq(mapping_str@, ','),
                pairs_view(mapping@) == spec_domain_entries(views_of(entries@), i as int),
            decreases entries@.len() - i,
        {
            let trimmed = trim(entries[i].as_str());
            let parts = split_on(trimmed.as_str(), ':');
            if parts.len() == 2 {
                let service = trim(parts[0].as_str());
                let domain = trim(parts[1].as_str());
                assoc_vec_insert(&mut mapping, service, domain);
            }
            i = i + 1;
        }
        if mapping.len() == 0 {
            None
        } else {
            Some(mapping)
        }
    }

    /// Parses a service mapping from its `tag:port:protocol,...`
    /// string form. Entries whose port is not a number are dropped;
    /// an empty result is reported as no mapping at all.
    pub fn parse_service_mapping(mapping_str: &str) -> (r: Option<Vec<(String, ServiceInfo)>>)
        ensures
            (match r {
                Some(m) => spec_parse_service_mapping(mapping_str@) == Some(pairs_view(m@)),
                None => spec_parse_service_mapping(mapping_str@) is None,
            }),
    {
        if mapping_str.unicode_len() == 0 {
            return None;
        }
        let entries = split_on(mapping_str, ',');
        let mut mapping: Vec<(String, ServiceInfo)> = Vec::new();
        let mut i: usize = 0;
        while i < entries.len()
            invariant
                i <= entries@.len(),
                views_of(entries@) == split_seq(mapping_str@, ','),
                pairs_view(mapping@) == spec_service_entries(views_of(entries@), i as int),
            decreases entries@.len() - i,
        {
            let trimmed = trim(entries[i].as_str());
            let parts = split_on(trimmed.as_str(), ':');
            if parts.len() >= 2 {
                let tag = trim(parts[0].as_str());
                let port_str = trim(parts[1].as_str());
                match parse_u16(port_str.as_str()) {
                    Some(port) => {
                        let protocol = if parts.len() >= 3 {
                            let p = trim(parts[2].as_str());
                            Protocol::from_str(p.as_str())
                        } else {
                            Protocol::Http
                        };
                        let scheme = match protocol {
                            Protocol::Http => String::from_str("http"),
                            Protocol::Tcp => String::from_str("tcp"),
                            Protocol::Udp => String::from_str("udp"),
                        };
                        let info = ServiceInfo { name: tag.clone(), port: Some(port), protocol, scheme };
                        assoc_vec_insert(&mut mapping, tag, info);
                    },
                    None => {},
                }
            }
            i = i + 1;
        }
        if mapping.len() == 0 {
            None
        } else {
            Some(mapping)
        }
    }
}


/// For every tag and policy, parsing is total and never fails but
/// for one cause: with extraction disabled every tag yields a
/// descriptor, and with extraction enabled a tag of up to three
/// segments yields one exactly when it is a bare name or its port
/// segment is a number — a bad port yields exclusion, nothing else.
pub proof fn lemma_parse_tag_short_total(tag: Seq<char>, cfg: ProviderConfigGhost)
    requires
        split_seq(strip_tag_prefix_seq(tag), '-').len() <= 3,
    ensures
        ({
            let parts = split_seq(strip_tag_prefix_seq(tag), '-');
            spec_parse_tag(tag, cfg) is Some <==> (!cfg.extract_protocol_from_tag || parts.len()
                <= 1 || parses_as_u16(parts[1]))
        }),
{
    lemma_split_seq_len(strip_tag_prefix_seq(tag), '-');
}

} // verus!

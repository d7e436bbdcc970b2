//! The synthesis pipeline: which peers are included, which logical
//! services each peer exposes, and the deterministic construction of
//! the routing configuration from one status snapshot.

use vstd::prelude::*;
use vstd::string::StringExecFns;
use crate::assoc::{assoc_get, assoc_insert, assoc_vec_get, assoc_vec_insert, pairs_view};
use crate::config::{
    spec_parse_tag, ProviderConfig, ProviderConfigGhost, Protocol, ServiceInfo, ServiceInfoGhost,
};
use crate::status::{peers_view, PeerStatus, PeerStatusGhost, Status, StatusGhost};
use crate::strutil::{
    contains_seq, contains_sub, dec_str, push_dec_u32, sanitize, sanitize_seq, str_eq,
    string_eq_str, strip_tag_prefix, strip_tag_prefix_seq, views_of,
};
use crate::traefik::{
    elems_view, DynamicConfig, DynamicConfigGhost, HealthCheck, HealthCheckGhost, HttpConfig,
    HttpConfigGhost, LoadBalancer, LoadBalancerGhost, Router, RouterGhost, Server, ServerGhost,
    Service, ServiceGhost, TcpConfig, TcpConfigGhost, TcpLoadBalancer, TcpLoadBalancerGhost,
    TcpRouter, TcpRouterGhost, TcpServer, TcpServerGhost, TcpService, TcpServiceGhost, UdpConfig,
    UdpConfigGhost, UdpLoadBalancer, UdpLoadBalancerGhost, UdpRouter, UdpRouterGhost, UdpServer,
    UdpServerGhost, UdpService, UdpServiceGhost,
};

verus! {

/// Membership of a string in a list of strings.
pub open spec fn seq_contains_str(ss: Seq<Seq<char>>, x: Seq<char>) -> bool {
    exists|i: int| 0 <= i < ss.len() && ss[i] == x
}

fn vec_contains_string(v: &Vec<String>, x: &str) -> (r: bool)
    ensures
        r == seq_contains_str(views_of(v@), x@),
{
    let mut i: usize = 0;
    while i < v.len()
        invariant
            i <= v@.len(),
            forall|j: int| 0 <= j < i ==> views_of(v@)[j] != x@,
        decreases v@.len() - i,
    {
        if str_eq(v[i].as_str(), x) {
            assert(views_of(v@)[i as int] == x@);
            return true;
        }
        i = i + 1;
    }
    false
}

/// Whether some configured tag occurs, as a substring, in some peer
/// tag once its `tag:` prefix is stripped.
pub open spec fn spec_has_matching_tag(tags: Seq<Seq<char>>, ptags: Seq<Seq<char>>) -> bool {
    exists|ti: int, pi: int|
        0 <= ti < tags.len() && 0 <= pi < ptags.len() && #[trigger] contains_seq(
            strip_tag_prefix_seq(ptags[pi]),
            tags[ti],
        )
}

fn has_matching_tag(tags: &Vec<String>, ptags: &Vec<String>) -> (r: bool)
    ensures
        r == spec_has_matching_tag(views_of(tags@), views_of(ptags@)),
{
    let mut ti: usize = 0;
    while ti < tags.len()
        invariant
            ti <= tags@.len(),
            forall|a: int, b: int|
                0 <= a < ti && 0 <= b < views_of(ptags@).len() ==> !(#[trigger] contains_seq(
                    strip_tag_prefix_seq(views_of(ptags@)[b]),
                    views_of(tags@)[a],
                )),
        decreases tags@.len() - ti,
    {
        let mut pi: usize = 0;
        while pi < ptags.len()
            invariant
                ti < tags@.len(),
                pi <= ptags@.len(),
                forall|b: int|
                    0 <= b < pi ==> !(#[trigger] contains_seq(
                        strip_tag_prefix_seq(views_of(ptags@)[b]),
                        views_of(tags@)[ti as int],
                    )),
            decreases ptags@.len() - pi,
        {
            let clean = strip_tag_prefix(ptags[pi].as_str());
            if contains_sub(clean, tags[ti].as_str()) {
                assert(contains_seq(
                    strip_tag_prefix_seq(views_of(ptags@)[pi as int]),
                    views_of(tags@)[ti as int],
                ));
                return true;
            }
            pi = pi + 1;
        }
        ti = ti + 1;
    }
    false
}

/// The whole inclusion rule for one peer: it is online; it is no
/// exit node when those are excluded; it carries a configured tag
/// when an include list is set; its hostname is not excluded; it was
/// active recently enough when an inactivity bound is set (a
/// last-write at the epoch counts as never active); its operating
/// system is allowed when a list is set; and it is not expired when
/// expired peers are excluded.
pub open spec fn spec_should_include(
    peer: PeerStatusGhost,
    cfg: ProviderConfigGhost,
    now_unix: i64,
) -> bool {
    &&& peer.online == Some(true)
    &&& !(cfg.exclude_exit_nodes && peer.exit_node)
    &&& (match cfg.include_tags {
        Some(tags) => match peer.tags {
            Some(ptags) => spec_has_matching_tag(tags, ptags),
            None => false,
        },
        None => true,
    })
    &&& (match cfg.exclude_hostnames {
        Some(hs) => !seq_contains_str(hs, peer.hostname),
        None => true,
    })
    &&& (match cfg.max_inactive_seconds {
        Some(m) => peer.last_write_unix != 0 && now_unix - peer.last_write_unix <= m,
        None => true,
    })
    &&& (match cfg.include_os {
        Some(oss) => seq_contains_str(oss, peer.os),
        None => true,
    })
    &&& !(cfg.exclude_expired && peer.expired == Some(true))
}

/// A peer tag kept by the include filter: with an include list the
/// descriptor's name must be on it, without one everything passes.
pub open spec fn spec_name_included(
    include_tags: Option<Seq<Seq<char>>>,
    name: Seq<char>,
) -> bool {
    match include_tags {
        Some(tags) => seq_contains_str(tags, name),
        None => true,
    }
}

/// The descriptors parsed out of the peer's own tags, in tag order,
/// kept subject to the include filter.
pub open spec fn spec_tag_services(
    ptags: Seq<Seq<char>>,
    cfg: ProviderConfigGhost,
    k: int,
) -> Seq<ServiceInfoGhost>
    decreases k,
{
    if k <= 0 {
        Seq::empty()
    } else {
        let rest = spec_tag_services(ptags, cfg, k - 1);
        match spec_parse_tag(ptags[k - 1], cfg) {
            Some(si) => if spec_name_included(cfg.include_tags, si.name) {
                rest.push(si)
            } else {
                rest
            },
            None => rest,
        }
    }
}

/// The descriptors added by the explicit tag-to-service mapping, in
/// tag order, kept subject to the include filter.
pub open spec fn spec_mapped_services(
    ptags: Seq<Seq<char>>,
    mapping: Seq<(Seq<char>, ServiceInfoGhost)>,
    include_tags: Option<Seq<Seq<char>>>,
    k: int,
) -> Seq<ServiceInfoGhost>
    decreases k,
{
    if k <= 0 {
        Seq::empty()
    } else {
        let rest = spec_mapped_services(ptags, mapping, include_tags, k - 1);
        match assoc_get(mapping, strip_tag_prefix_seq(ptags[k - 1])) {
            Some(si) => if spec_name_included(include_tags, si.name) {
                rest.push(si)
            } else {
                rest
            },
            None => rest,
        }
    }
}

/// The synthetic descriptor used for a peer without tags when no
/// include list is configured.
pub open spec fn spec_default_service(cfg: ProviderConfigGhost) -> ServiceInfoGhost {
    ServiceInfoGhost {
        name: "default"@,
        port: Some(cfg.default_port),
        protocol: cfg.default_protocol,
        scheme: cfg.default_scheme,
    }
}

/// Every logical service one peer exposes: the descriptors parsed
/// from its tags (or the synthetic default when it has no tags and
/// no include list is set), followed by the explicitly mapped ones.
pub open spec fn spec_extract_services(
    peer: PeerStatusGhost,
    cfg: ProviderConfigGhost,
) -> Seq<ServiceInfoGhost> {
    let base = match peer.tags {
        Some(ptags) => spec_tag_services(ptags, cfg, ptags.len() as int),
        None => if cfg.include_tags is None {
            seq![spec_default_service(cfg)]
        } else {
            Seq::empty()
        },
    };
    let mapped = match (cfg.tag_service_mapping, peer.tags) {
        (Some(m), Some(ptags)) => spec_mapped_services(
            ptags,
            m,
            cfg.include_tags,
            ptags.len() as int,
        ),
        _ => Seq::empty(),
    };
    base + mapped
}

/// The generated service name: `tailscale-` plus the sanitized
/// hostname, plus the descriptor's name unless that is `default`.
pub open spec fn spec_service_name(hostname: Seq<char>, name: Seq<char>) -> Seq<char> {
    if name == "default"@ {
        "tailscale-"@ + sanitize_seq(hostname)
    } else {
        "tailscale-"@ + sanitize_seq(hostname) + "-"@ + name
    }
}

/// The generated router name: the service name plus `-router`.
pub open spec fn spec_router_name(hostname: Seq<char>, name: Seq<char>) -> Seq<char> {
    spec_service_name(hostname, name) + "-router"@
}

/// The verified synthesizer: it owns the policy and turns status
/// snapshots into routing configurations.
pub struct TraefikProvider {
    pub config: ProviderConfig,
}

impl TraefikProvider {
    /// A synthesizer for the given policy.
    pub fn new(config: ProviderConfig) -> (r: TraefikProvider)
        ensures
            r.config == config,
    {
        TraefikProvider { config }
    }

    /// Whether the peer passes every filter of the policy.
    pub fn should_include_peer(&self, peer: &PeerStatus, now_unix: i64) -> (r: bool)
        ensures
            r == spec_should_include(peer@, self.config@, now_unix),
    {
        let online = match peer.online {
            Some(b) => b,
            None => false,
        };
        if !online {
            return false;
        }
        if self.config.exclude_exit_nodes && peer.exit_node {
            return false;
        }
        match &self.config.include_tags {
            Some(tags) => {
                match &peer.tags {
                    Some(ptags) => {
                        if !has_matching_tag(tags, ptags) {
                            return false;
                        }
                    },
                    None => {
                        return false;
                    },
                }
            },
            None => {},
        }
        match &self.config.exclude_hostnames {
            Some(hs) => {
                if vec_contains_string(hs, self_hostname(peer)) {
                    return false;
                }
            },
            None => {},
        }
        match self.config.max_inactive_seconds {
            Some(m) => {
                if peer.last_write_unix == 0 {
                    return false;
                }
                let diff: i128 = (now_unix as i128) - (peer.last_write_unix as i128);
                if diff > (m as i128) {
                    return false;
                }
            },
            None => {},
        }
        match &self.config.include_os {
            Some(oss) => {
                if !vec_contains_string(oss, peer.os.as_str()) {
                    return false;
                }
            },
            None => {},
        }
        if self.config.exclude_expired {
            let expired = match peer.expired {
                Some(b) => b,
                None => false,
            };
            if expired {
                return false;
            }
        }
        true
    }

    /// Every descriptor the peer yields under the policy.
    pub fn extract_service_infos_from_peer(&self, peer: &PeerStatus) -> (r: Vec<ServiceInfo>)
        ensures
            elems_view(r@) == spec_extract_services(peer@, self.config@),
    {
        let mut out: Vec<ServiceInfo> = Vec::new();
        match &peer.tags {
            Some(ptags) => {
                let ghost vptags = views_of(ptags@);
                let mut i: usize = 0;
                while i < ptags.len()
                    invariant
                        i <= ptags@.len(),
                        vptags == views_of(ptags@),
                        elems_view(out@) == spec_tag_services(vptags, self.config@, i as int),
                    decreases ptags@.len() - i,
                {
                    match self.config.parse_service_info_from_tag(ptags[i].as_str()) {
                        Some(si) => {
                            if self.name_included(&si.name) {
                                let ghost pre = out@;
                                out.push(si);
                                proof {
                                    assert(elems_view(out@) =~= elems_view(pre).push(si@));
                                }
                            }
                        },
                        None => {},
                    }
                    i = i + 1;
                }
            },
            None => {
                if self.config.include_tags.is_none() {
                    let si = ServiceInfo {
                        name: String::from_str("default"),
                        port: Some(self.config.default_port),
                        protocol: self.config.default_protocol,
                        scheme: self.config.default_scheme.clone(),
                    };
                    let ghost pre = out@;
                    out.push(si);
                    proof {
                        assert(elems_view(out@) =~= seq![spec_default_service(self.config@)]);
                    }
                }
            },
        }
        let ghost base = elems_view(out@);
        match &self.config.tag_service_mapping {
            Some(mapping) => {
                match &peer.tags {
                    Some(ptags) => {
                        let ghost vptags = views_of(ptags@);
                        let mut i: usize = 0;
                        while i < ptags.len()
                            invariant
                                i <= ptags@.len(),
                                vptags == views_of(ptags@),
                                base.len() <= elems_view(out@).len(),
                                elems_view(out@) == base + spec_mapped_services(
                                    vptags,
                                    pairs_view(mapping@),
                                    self.config@.include_tags,
                                    i as int,
                                ),
                            decreases ptags@.len() - i,
                        {
                            let clean = strip_tag_prefix(ptags[i].as_str());
                            match assoc_vec_get(mapping, clean) {
                                Some(mapped) => {
                                    if self.name_included(&mapped.name) {
                                        let ghost pre = out@;
                                        let m = mapped.duplicate();
                                        out.push(m);
                                        proof {
                                            assert(elems_view(out@) =~= elems_view(pre).push(
                                                mapped@,
                                            ));
                                            assert(elems_view(pre).push(mapped@) =~= base + (
                                            spec_mapped_services(
                                                vptags,
                                                pairs_view(mapping@),
                                                self.config@.include_tags,
                                                i as int,
                                            ).push(mapped@)));
                                        }
                                    }
                                },
                                None => {},
                            }
                            i = i + 1;
                        }
                    },
                    None => {
                        proof {
                            assert(elems_view(out@) =~= base + Seq::<ServiceInfoGhost>::empty());
                        }
                    },
                }
            },
            None => {
                proof {
                    assert(elems_view(out@) =~= base + Seq::<ServiceInfoGhost>::empty());
                }
            },
        }
        out
    }

    /// Whether a descriptor name passes the include filter.
    fn name_included(&self, name: &String) -> (r: bool)
        ensures
            r == spec_name_included(self.config@.include_tags, name@),
    {
        match &self.config.include_tags {
            Some(tags) => vec_contains_string(tags, name.as_str()),
            None => true,
        }
    }

    /// The stable service name for one (peer, descriptor) pair.
    pub fn generate_service_name_from_info(
        &self,
        peer: &PeerStatus,
        service_info: &ServiceInfo,
    ) -> (r: String)
        ensures
            r@ == spec_service_name(peer@.hostname, service_info@.name),
    {
        let hostname_safe = sanitize(self_hostname(peer));
        let mut r = String::from_str("tailscale-");
        r.append(hostname_safe.as_str());
        if !string_eq_str(&service_info.name, "default") {
            r.append("-");
            r.append(service_info.name.as_str());
        }
        r
    }

    /// The router name for one (peer, descriptor) pair.
    pub fn generate_router_name_from_info(
        &self,
        peer: &PeerStatus,
        service_info: &ServiceInfo,
    ) -> (r: String)
        ensures
            r@ == spec_router_name(peer@.hostname, service_info@.name),
    {
        let mut r = self.generate_service_name_from_info(peer, service_info);
        r.append("-router");
        r
    }
}

/// The peer's hostname as a string slice.
fn self_hostname(peer: &PeerStatus) -> (r: &str)
    ensures
        r@ == peer@.hostname,
{
    peer.hostname.as_str()
}


/// The port a (peer, descriptor) pair serves on: the descriptor's
/// own port, or the policy default.
pub open spec fn spec_port_of(si: ServiceInfoGhost, cfg: ProviderConfigGhost) -> u16 {
    match si.port {
        Some(p) => p,
        None => cfg.default_port,
    }
}

/// The backend URL of an HTTP service: scheme, first mesh address
/// of the peer, and port.
pub open spec fn spec_http_url(
    peer: PeerStatusGhost,
    si: ServiceInfoGhost,
    cfg: ProviderConfigGhost,
) -> Seq<char> {
    si.scheme + "://"@ + peer.tailscale_ips[0] + ":"@ + dec_str(spec_port_of(si, cfg) as int)
}

/// The backend address of a TCP or UDP service: first mesh address
/// of the peer, and port.
pub open spec fn spec_backend_addr(
    peer: PeerStatusGhost,
    si: ServiceInfoGhost,
    cfg: ProviderConfigGhost,
) -> Seq<char> {
    peer.tailscale_ips[0] + ":"@ + dec_str(spec_port_of(si, cfg) as int)
}

/// The HTTP service built for a peer with at least one mesh
/// address: one weighted backend, and the policy's health check.
pub open spec fn spec_http_service(
    peer: PeerStatusGhost,
    si: ServiceInfoGhost,
    cfg: ProviderConfigGhost,
) -> ServiceGhost {
    ServiceGhost {
        load_balancer: LoadBalancerGhost {
            servers: seq![ServerGhost { url: spec_http_url(peer, si, cfg), weight: Some(1i32) }],
            health_check: match cfg.health_check_path {
                Some(p) => Some(
                    HealthCheckGhost { path: p, interval: Some("30s"@), timeout: Some("5s"@) },
                ),
                None => None,
            },
        },
    }
}

/// The catch-all host rule used when no domain is mapped.
pub open spec fn spec_default_host_rule() -> Seq<char> {
    "HostRegexp(`.*`)"@
}

/// The rule of an HTTP router: a host match on the mapped domain if
/// the service name has one, else the catch-all rule.
pub open spec fn spec_http_rule(name: Seq<char>, cfg: ProviderConfigGhost) -> Seq<char> {
    match cfg.service_domain_mapping {
        Some(m) => match assoc_get(m, name) {
            Some(d) => "Host(`"@ + d + "`)"@,
            None => spec_default_host_rule(),
        },
        None => spec_default_host_rule(),
    }
}

pub open spec fn spec_http_router(
    si: ServiceInfoGhost,
    cfg: ProviderConfigGhost,
    service_name: Seq<char>,
) -> RouterGhost {
    RouterGhost {
        rule: spec_http_rule(si.name, cfg),
        service: service_name,
        middlewares: None,
        priority: None,
        tls: None,
    }
}

pub open spec fn spec_tcp_service(
    peer: PeerStatusGhost,
    si: ServiceInfoGhost,
    cfg: ProviderConfigGhost,
) -> TcpServiceGhost {
    TcpServiceGhost {
        load_balancer: TcpLoadBalancerGhost {
            servers: seq![
                TcpServerGhost { address: spec_backend_addr(peer, si, cfg), weight: Some(1i32) },
            ],
        },
    }
}

/// The rule of a TCP router: an SNI match on the mapped domain if
/// the service name has one, else the SNI wildcard.
pub open spec fn spec_tcp_rule(name: Seq<char>, cfg: ProviderConfigGhost) -> Seq<char> {
    match cfg.service_domain_mapping {
        Some(m) => match assoc_get(m, name) {
            Some(d) => "HostSNI(`"@ + d + "`)"@,
            None => "HostSNI(`*`)"@,
        },
        None => "HostSNI(`*`)"@,
    }
}

pub open spec fn spec_tcp_router(
    si: ServiceInfoGhost,
    cfg: ProviderConfigGhost,
    service_name: Seq<char>,
) -> TcpRouterGhost {
    TcpRouterGhost { rule: spec_tcp_rule(si.name, cfg), service: service_name, tls: None }
}

pub open spec fn spec_udp_service(
    peer: PeerStatusGhost,
    si: ServiceInfoGhost,
    cfg: ProviderConfigGhost,
) -> UdpServiceGhost {
    UdpServiceGhost {
        load_balancer: UdpLoadBalancerGhost {
            servers: seq![
                UdpServerGhost { address: spec_backend_addr(peer, si, cfg), weight: Some(1i32) },
            ],
        },
    }
}

pub open spec fn spec_udp_router(service_name: Seq<char>) -> UdpRouterGhost {
    UdpRouterGhost { service: service_name }
}

impl TraefikProvider {
    /// The HTTP service for a (peer, descriptor) pair, or nothing
    /// when the peer reports no mesh address.
    pub fn create_http_service_from_peer(&self, peer: &PeerStatus, service_info: &ServiceInfo) -> (r:
        Option<Service>)
        ensures
            (match r {
                Some(s) => peer@.tailscale_ips.len() > 0 && s@ == spec_http_service(
                    peer@,
                    service_info@,
                    self.config@,
                ),
                None => peer@.tailscale_ips.len() == 0,
            }),
    {
        if peer.tailscale_ips.len() == 0 {
            return None;
        }
        let port = match service_info.port {
            Some(p) => p,
            None => self.config.default_port,
        };
        let mut url = service_info.scheme.clone();
        url.append("://");
        url.append(peer.tailscale_ips[0].as_str());
        url.append(":");
        push_dec_u32(port as u32, &mut url);
        let health_check = match &self.config.health_check_path {
            Some(path) => Some(
                HealthCheck {
                    path: path.clone(),
                    interval: Some(String::from_str("30s")),
                    timeout: Some(String::from_str("5s")),
                },
            ),
            None => None,
        };
        let server = Server { url, weight: Some(1) };
        let s = Service { load_balancer: LoadBalancer { servers: vec![server], health_check } };
        proof {
            assert(peer@.tailscale_ips[0] == peer.tailscale_ips@[0]@);
            assert(s@.load_balancer.servers =~= spec_http_service(
                peer@,
                service_info@,
                self.config@,
            ).load_balancer.servers);
        }
        Some(s)
    }

    /// The catch-all host rule.
    fn generate_default_host_rule(&self, _peer: &PeerStatus) -> (r: String)
        ensures
            r@ == spec_default_host_rule(),
    {
        String::from_str("HostRegexp(`.*`)")
    }

    /// The HTTP router for a (peer, descriptor) pair.
    pub fn create_http_router_for_peer(
        &self,
        peer: &PeerStatus,
        service_info: &ServiceInfo,
        service_name: &str,
    ) -> (r: Option<Router>)
        ensures
            (match r {
                Some(rt) => rt@ == spec_http_router(service_info@, self.config@, service_name@),
                None => false,
            }),
    {
        let rule = match &self.config.service_domain_mapping {
            Some(m) => match assoc_vec_get(m, service_info.name.as_str()) {
                Some(domain) => {
                    let mut s = String::from_str("Host(`");
                    s.append(domain.as_str());
                    s.append("`)");
                    s
                },
                None => self.generate_default_host_rule(peer),
            },
            None => self.generate_default_host_rule(peer),
        };
        Some(
            Router {
                rule,
                service: String::from_str(service_name),
                middlewares: None,
                priority: None,
                tls: None,
            },
        )
    }

    /// The TCP service for a (peer, descriptor) pair, or nothing
    /// when the peer reports no mesh address.
    pub fn create_tcp_service_from_peer(&self, peer: &PeerStatus, service_info: &ServiceInfo) -> (r:
        Option<TcpService>)
        ensures
            (match r {
                Some(s) => peer@.tailscale_ips.len() > 0 && s@ == spec_tcp_service(
                    peer@,
                    service_info@,
                    self.config@,
                ),
                None => peer@.tailscale_ips.len() == 0,
            }),
    {
        if peer.tailscale_ips.len() == 0 {
            return None;
        }
        let port = match service_info.port {
            Some(p) => p,
            None => self.config.default_port,
        };
        let mut address = peer.tailscale_ips[0].clone();
        address.append(":");
        push_dec_u32(port as u32, &mut address);
        let server = TcpServer { address, weight: Some(1) };
        let s = TcpService { load_balancer: TcpLoadBalancer { servers: vec![server] } };
        proof {
            assert(peer@.tailscale_ips[0] == peer.tailscale_ips@[0]@);
            assert(s@.load_balancer.servers =~= spec_tcp_service(
                peer@,
                service_info@,
                self.config@,
            ).load_balancer.servers);
        }
        Some(s)
    }

    /// The TCP router for a (peer, descriptor) pair.
    pub fn create_tcp_router_for_peer(
        &self,
        peer: &PeerStatus,
        service_info: &ServiceInfo,
        service_name: &str,
    ) -> (r: Option<TcpRouter>)
        ensures
            (match r {
                Some(rt) => rt@ == spec_tcp_router(service_info@, self.config@, service_name@),
                None => false,
            }),
    {
        let rule = match &self.config.service_domain_mapping {
            Some(m) => match assoc_vec_get(m, service_info.name.as_str()) {
                Some(domain) => {
                    let mut s = String::from_str("HostSNI(`");
                    s.append(domain.as_str());
                    s.append("`)");
                    s
                },
                None => String::from_str("HostSNI(`*`)"),
            },
            None => String::from_str("HostSNI(`*`)"),
        };
        Some(TcpRouter { rule, service: String::from_str(service_name), tls: None })
    }

    /// The UDP service for a (peer, descriptor) pair, or nothing
    /// when the peer reports no mesh address.
    pub fn create_udp_service_from_peer(&self, peer: &PeerStatus, service_info: &ServiceInfo) -> (r:
        Option<UdpService>)
        ensures
            (match r {
                Some(s) => peer@.tailscale_ips.len() > 0 && s@ == spec_udp_service(
                    peer@,
                    service_info@,
                    self.config@,
                ),
                None => peer@.tailscale_ips.len() == 0,
            }),
    {
        if peer.tailscale_ips.len() == 0 {
            return None;
        }
        let port = match service_info.port {
            Some(p) => p,
            None => self.config.default_port,
        };
        let mut address = peer.tailscale_ips[0].clone();
        address.append(":");
        push_dec_u32(port as u32, &mut address);
        let server = UdpServer { address, weight: Some(1) };
        let s = UdpService { load_balancer: UdpLoadBalancer { servers: vec![server] } };
        proof {
            assert(peer@.tailscale_ips[0] == peer.tailscale_ips@[0]@);
            assert(s@.load_balancer.servers =~= spec_udp_service(
                peer@,
                service_info@,
                self.config@,
            ).load_balancer.servers);
        }
        Some(s)
    }

    /// The UDP router for a (peer, descriptor) pair: only a service
    /// reference, UDP routes on nothing.
    pub fn create_udp_router_for_peer(
        &self,
        _peer: &PeerStatus,
        _service_info: &ServiceInfo,
        service_name: &str,
    ) -> (r: Option<UdpRouter>)
        ensures
            (match r {
                Some(rt) => rt@ == spec_udp_router(service_name@),
                None => false,
            }),
    {
        Some(UdpRouter { service: String::from_str(service_name) })
    }
}


/// The six routing tables a synthesis run fills.
pub struct SynthTables {
    pub http_routers: Seq<(Seq<char>, RouterGhost)>,
    pub http_services: Seq<(Seq<char>, ServiceGhost)>,
    pub tcp_routers: Seq<(Seq<char>, TcpRouterGhost)>,
    pub tcp_services: Seq<(Seq<char>, TcpServiceGhost)>,
    pub udp_routers: Seq<(Seq<char>, UdpRouterGhost)>,
    pub udp_services: Seq<(Seq<char>, UdpServiceGhost)>,
}

pub open spec fn spec_empty_tables() -> SynthTables {
    SynthTables {
        http_routers: Seq::empty(),
        http_services: Seq::empty(),
        tcp_routers: Seq::empty(),
        tcp_services: Seq::empty(),
        udp_routers: Seq::empty(),
        udp_services: Seq::empty(),
    }
}

/// What one (peer, descriptor) pair adds: nothing when the peer has
/// no mesh address, otherwise a service and a router in the tables
/// of the descriptor's protocol family, under the generated names.
pub open spec fn spec_add_pair(
    t: SynthTables,
    peer: PeerStatusGhost,
    si: ServiceInfoGhost,
    cfg: ProviderConfigGhost,
) -> SynthTables {
    if peer.tailscale_ips.len() == 0 {
        t
    } else {
        let sname = spec_service_name(peer.hostname, si.name);
        let rname = spec_router_name(peer.hostname, si.name);
        match si.protocol {
            Protocol::Http => SynthTables {
                http_services: assoc_insert(t.http_services, sname, spec_http_service(
                    peer,
                    si,
                    cfg,
                )),
                http_routers: assoc_insert(t.http_routers, rname, spec_http_router(
                    si,
                    cfg,
                    sname,
                )),
                ..t
            },
            Protocol::Tcp => SynthTables {
                tcp_services: assoc_insert(t.tcp_services, sname, spec_tcp_service(
                    peer,
                    si,
                    cfg,
                )),
                tcp_routers: assoc_insert(t.tcp_routers, rname, spec_tcp_router(si, cfg, sname)),
                ..t
            },
            Protocol::Udp => SynthTables {
                udp_services: assoc_insert(t.udp_services, sname, spec_udp_service(
                    peer,
                    si,
                    cfg,
                )),
                udp_routers: assoc_insert(t.udp_routers, rname, spec_udp_router(sname)),
                ..t
            },
        }
    }
}

/// The tables after the first `k` descriptors of one peer.
pub open spec fn spec_add_services(
    t: SynthTables,
    peer: PeerStatusGhost,
    sis: Seq<ServiceInfoGhost>,
    cfg: ProviderConfigGhost,
    k: int,
) -> SynthTables
    decreases k,
{
    if k <= 0 {
        t
    } else {
        spec_add_pair(spec_add_services(t, peer, sis, cfg, k - 1), peer, sis[k - 1], cfg)
    }
}

/// What one peer entry adds: nothing for an absent or filtered-out
/// peer, otherwise everything its descriptors yield.
pub open spec fn spec_add_peer(
    t: SynthTables,
    popt: Option<PeerStatusGhost>,
    cfg: ProviderConfigGhost,
    now_unix: i64,
) -> SynthTables {
    match popt {
        Some(p) => if spec_should_include(p, cfg, now_unix) {
            let sis = spec_extract_services(p, cfg);
            spec_add_services(t, p, sis, cfg, sis.len() as int)
        } else {
            t
        },
        None => t,
    }
}

/// The tables after the first `k` peer entries of the snapshot.
pub open spec fn spec_synth_peers(
    t: SynthTables,
    peers: Seq<(Seq<char>, Option<PeerStatusGhost>)>,
    cfg: ProviderConfigGhost,
    now_unix: i64,
    k: int,
) -> SynthTables
    decreases k,
{
    if k <= 0 {
        t
    } else {
        spec_add_peer(spec_synth_peers(t, peers, cfg, now_unix, k - 1), peers[k - 1].1, cfg,
            now_unix)
    }
}

/// The whole synthesis: every peer entry is folded into the tables,
/// and each protocol section appears exactly when it holds at least
/// one router or service — so a snapshot with no peers, or with no
/// peer map at all, yields no section whatever.
pub open spec fn spec_synthesize(
    st: StatusGhost,
    cfg: ProviderConfigGhost,
    now_unix: i64,
) -> DynamicConfigGhost {
    let t = match st.peers {
        None => spec_empty_tables(),
        Some(ps) => spec_synth_peers(spec_empty_tables(), ps, cfg, now_unix, ps.len() as int),
    };
    DynamicConfigGhost {
        http: if t.http_services.len() == 0 && t.http_routers.len() == 0 {
            None
        } else {
            Some(
                HttpConfigGhost {
                    routers: t.http_routers,
                    services: t.http_services,
                    middlewares: Seq::empty(),
                },
            )
        },
        tcp: if t.tcp_services.len() == 0 && t.tcp_routers.len() == 0 {
            None
        } else {
            Some(TcpConfigGhost { routers: t.tcp_routers, services: t.tcp_services })
        },
        udp: if t.udp_services.len() == 0 && t.udp_routers.len() == 0 {
            None
        } else {
            Some(UdpConfigGhost { routers: t.udp_routers, services: t.udp_services })
        },
    }
}

impl TraefikProvider {
    /// One full synthesis run over a status snapshot, at a given
    /// time: deterministic in all three arguments.
    pub fn generate_config(&self, status: &Status, now_unix: i64) -> (r: DynamicConfig)
        ensures
            r@ == spec_synthesize(status@, self.config@, now_unix),
    {
        let peers = match &status.peers {
            Some(ps) => ps,
            None => {
                // no peer map at all counts as no peers: no section
                // has anything to hold, so none is present
                return DynamicConfig { http: None, tcp: None, udp: None };
            },
        };
        let ghost vpeers = peers_view(peers@);
        let ghost cfg = self.config@;
        let mut http_routers: Vec<(String, Router)> = Vec::new();
        let mut http_services: Vec<(String, Service)> = Vec::new();
        let mut tcp_routers: Vec<(String, TcpRouter)> = Vec::new();
        let mut tcp_services: Vec<(String, TcpService)> = Vec::new();
        let mut udp_routers: Vec<(String, UdpRouter)> = Vec::new();
        let mut udp_services: Vec<(String, UdpService)> = Vec::new();
        proof {
            assert(pairs_view(http_routers@) =~= Seq::<(Seq<char>, RouterGhost)>::empty());
            assert(pairs_view(http_services@) =~= Seq::<(Seq<char>, ServiceGhost)>::empty());
            assert(pairs_view(tcp_routers@) =~= Seq::<(Seq<char>, TcpRouterGhost)>::empty());
            assert(pairs_view(tcp_services@) =~= Seq::<(Seq<char>, TcpServiceGhost)>::empty());
            assert(pairs_view(udp_routers@) =~= Seq::<(Seq<char>, UdpRouterGhost)>::empty());
            assert(pairs_view(udp_services@) =~= Seq::<(Seq<char>, UdpServiceGhost)>::empty());
        }
        let mut pi: usize = 0;
        while pi < peers.len()
            invariant
                pi <= peers@.len(),
                vpeers == peers_view(peers@),
                cfg == self.config@,
                (SynthTables {
                    http_routers: pairs_view(http_routers@),
                    http_services: pairs_view(http_services@),
                    tcp_routers: pairs_view(tcp_routers@),
                    tcp_services: pairs_view(tcp_services@),
                    udp_routers: pairs_view(udp_routers@),
                    udp_services: pairs_view(udp_services@),
                }) == spec_synth_peers(spec_empty_tables(), vpeers, cfg, now_unix, pi as int),
            decreases peers@.len() - pi,
        {
            let ghost t_prev = spec_synth_peers(spec_empty_tables(), vpeers, cfg, now_unix,
                pi as int);
            match &peers[pi].1 {
                Some(peer) => {
                    proof {
                        assert(vpeers[pi as int].1 == Some(peer@));
                    }
                    if self.should_include_peer(peer, now_unix) {
                        let sis = self.extract_service_infos_from_peer(peer);
                        let ghost vsis = elems_view(sis@);
                        let mut sj: usize = 0;
                        while sj < sis.len()
                            invariant
                                sj <= sis@.len(),
                                vsis == elems_view(sis@),
                                cfg == self.config@,
                                (SynthTables {
                                    http_routers: pairs_view(http_routers@),
                                    http_services: pairs_view(http_services@),
                                    tcp_routers: pairs_view(tcp_routers@),
                                    tcp_services: pairs_view(tcp_services@),
                                    udp_routers: pairs_view(udp_routers@),
                                    udp_services: pairs_view(udp_services@),
                                }) == spec_add_services(t_prev, peer@, vsis, cfg, sj as int),
                            decreases sis@.len() - sj,
                        {
                            let si = &sis[sj];
                            let service_name = self.generate_service_name_from_info(peer, si);
                            let router_name = self.generate_router_name_from_info(peer, si);
                            match si.protocol {
                                Protocol::Http => {
                                    match self.create_http_service_from_peer(peer, si) {
                                        Some(service) => {
                                            assoc_vec_insert(
                                                &mut http_services,
                                                service_name.clone(),
                                                service,
                                            );
                                            match self.create_http_router_for_peer(
                                                peer,
                                                si,
                                                service_name.as_str(),
                                            ) {
                                                Some(router) => {
                                                    assoc_vec_insert(
                                                        &mut http_routers,
                                                        router_name,
                                                        router,
                                                    );
                                                },
                                                None => {},
                                            }
                                        },
                                        None => {},
                                    }
                                },
                                Protocol::Tcp => {
                                    match self.create_tcp_service_from_peer(peer, si) {
                                        Some(service) => {
                                            assoc_vec_insert(
                                                &mut tcp_services,
                                                service_name.clone(),
                                                service,
                                            );
                                            match self.create_tcp_router_for_peer(
                                                peer,
                                                si,
                                                service_name.as_str(),
                                            ) {
                                                Some(router) => {
                                                    assoc_vec_insert(
                                                        &mut tcp_routers,
                                                        router_name,
                                                        router,
                                                    );
                                                },
                                                None => {},
                                            }
                                        },
                                        None => {},
                                    }
                                },
                                Protocol::Udp => {
                                    match self.create_udp_service_from_peer(peer, si) {
                                        Some(service) => {
                                            assoc_vec_insert(
                                                &mut udp_services,
                                                service_name.clone(),
                                                service,
                                            );
                                            match self.create_udp_router_for_peer(
                                                peer,
                                                si,
                                                service_name.as_str(),
                                            ) {
                                                Some(router) => {
                                                    assoc_vec_insert(
                                                        &mut udp_routers,
                                                        router_name,
                                                        router,
                                                    );
                                                },
                                                None => {},
                                            }
                                        },
                                        None => {},
                                    }
                                },
                            }
                            sj = sj + 1;
                        }
                        proof {
                            assert(vsis.len() == sis@.len());
                        }
                    }
                },
                None => {
                    proof {
                        assert(vpeers[pi as int].1 is None);
                    }
                },
            }
            pi = pi + 1;
        }
        let http = if http_services.len() == 0 && http_routers.len() == 0 {
            None
        } else {
            Some(
                HttpConfig {
                    services: http_services,
                    routers: http_routers,
                    middlewares: Vec::new(),
                },
            )
        };
        let tcp = if tcp_services.len() == 0 && tcp_routers.len() == 0 {
            None
        } else {
            Some(TcpConfig { services: tcp_services, routers: tcp_routers })
        };
        let udp = if udp_services.len() == 0 && udp_routers.len() == 0 {
            None
        } else {
            Some(UdpConfig { services: udp_services, routers: udp_routers })
        };
        let r = DynamicConfig { http, tcp, udp };
        proof {
            let spec_r = spec_synthesize(status@, self.config@, now_unix);
            if r@.http is Some {
                assert(r@.http->Some_0.middlewares =~= Seq::<(Seq<char>,
                    crate::traefik::MiddlewareGhost)>::empty());
            }
            assert(r@ == spec_r);
        }
        r
    }
}


/// Relies on chrono's Utc::now and timestamp: the current wall
/// clock, as unix seconds. Nothing is promised of the value: the
/// clock may say anything, and the synthesis is verified for every
/// time it may hand back. Utc::now panics only on a system clock
/// standing before 1970 — an environment condition no input could
/// exclude.
#[verifier::external_body]
fn now_unix_seconds() -> i64 {
    chrono::Utc::now().timestamp()
}

impl TraefikProvider {
    /// One full synthesis run at the current wall-clock time: the
    /// result is the stated synthesis at some time the clock chose.
    pub fn generate_config_now(&self, status: &Status) -> (r: DynamicConfig)
        ensures
            exists|now: i64| r@ == #[trigger] spec_synthesize(status@, self.config@, now),
    {
        let now = now_unix_seconds();
        self.generate_config(status, now)
    }
}


/// The generated service name is a function of the hostname and the
/// descriptor name alone: calls on equal values agree.
pub proof fn lemma_service_name_stable(
    h1: Seq<char>,
    n1: Seq<char>,
    h2: Seq<char>,
    n2: Seq<char>,
)
    requires
        h1 == h2,
        n1 == n2,
    ensures
        spec_service_name(h1, n1) == spec_service_name(h2, n2),
        spec_router_name(h1, n1) == spec_router_name(h2, n2),
{
}

/// Synthesis is deterministic: two runs over equal snapshots, equal
/// policies and equal times give equal configurations, record for
/// record.
pub proof fn lemma_synthesize_deterministic(
    s1: StatusGhost,
    s2: StatusGhost,
    cfg1: ProviderConfigGhost,
    cfg2: ProviderConfigGhost,
    now1: i64,
    now2: i64,
)
    requires
        s1 == s2,
        cfg1 == cfg2,
        now1 == now2,
    ensures
        spec_synthesize(s1, cfg1, now1) == spec_synthesize(s2, cfg2, now2),
{
}

/// An offline peer is excluded whatever the rest of the policy and
/// the clock say.
pub proof fn lemma_offline_excluded(peer: PeerStatusGhost, cfg: ProviderConfigGhost, now_unix: i64)
    requires
        peer.online != Some(true),
    ensures
        !spec_should_include(peer, cfg, now_unix),
{
}

/// Excluding exit nodes only shrinks or preserves the included peer
/// set: every peer included under the policy with the exclusion on
/// is included under the same policy with it off.
pub proof fn lemma_exclude_exit_nodes_shrinks(
    peer: PeerStatusGhost,
    strict: ProviderConfigGhost,
    lax: ProviderConfigGhost,
    now_unix: i64,
)
    requires
        strict.exclude_exit_nodes,
        lax == (ProviderConfigGhost { exclude_exit_nodes: false, ..strict }),
        spec_should_include(peer, strict, now_unix),
    ensures
        spec_should_include(peer, lax, now_unix),
{
}

} // verus!

//! The records of the generated dynamic configuration: per protocol
//! family a table of routers and a table of services, each keyed by
//! generated name. The tables are association lists with unique
//! keys, in the order the synthesis run produced them.

use vstd::prelude::*;
use crate::assoc::pairs_view;

verus! {

/// A TLS block on an HTTP router.
#[derive(Clone, Debug, PartialEq)]
pub struct TlsConfig {
    pub cert_resolver: Option<String>,
}

pub struct TlsConfigGhost {
    pub cert_resolver: Option<Seq<char>>,
}

impl View for TlsConfig {
    type V = TlsConfigGhost;

    open spec fn view(&self) -> TlsConfigGhost {
        TlsConfigGhost {
            cert_resolver: match self.cert_resolver {
                Some(c) => Some(c@),
                None => None,
            },
        }
    }
}

/// An HTTP router: a rule and the service it forwards to.
#[derive(Clone, Debug, PartialEq)]
pub struct Router {
    pub rule: String,
    pub service: String,
    pub middlewares: Option<Vec<String>>,
    pub priority: Option<i32>,
    pub tls: Option<TlsConfig>,
}

pub struct RouterGhost {
    pub rule: Seq<char>,
    pub service: Seq<char>,
    pub middlewares: Option<Seq<Seq<char>>>,
    pub priority: Option<i32>,
    pub tls: Option<TlsConfigGhost>,
}

impl View for Router {
    type V = RouterGhost;

    open spec fn view(&self) -> RouterGhost {
        RouterGhost {
            rule: self.rule@,
            service: self.service@,
            middlewares: match self.middlewares {
                Some(m) => Some(crate::strutil::views_of(m@)),
                None => None,
            },
            priority: self.priority,
            tls: match self.tls {
                Some(t) => Some(t@),
                None => None,
            },
        }
    }
}

/// One weighted HTTP backend.
#[derive(Clone, Debug, PartialEq)]
pub struct Server {
    pub url: String,
    pub weight: Option<i32>,
}

pub struct ServerGhost {
    pub url: Seq<char>,
    pub weight: Option<i32>,
}

impl View for Server {
    type V = ServerGhost;

    open spec fn view(&self) -> ServerGhost {
        ServerGhost { url: self.url@, weight: self.weight }
    }
}

/// The health check added to an HTTP load balancer.
#[derive(Clone, Debug, PartialEq)]
pub struct HealthCheck {
    pub path: String,
    pub interval: Option<String>,
    pub timeout: Option<String>,
}

pub struct HealthCheckGhost {
    pub path: Seq<char>,
    pub interval: Option<Seq<char>>,
    pub timeout: Option<Seq<char>>,
}

impl View for HealthCheck {
    type V = HealthCheckGhost;

    open spec fn view(&self) -> HealthCheckGhost {
        HealthCheckGhost {
            path: self.path@,
            interval: match self.interval {
                Some(i) => Some(i@),
                None => None,
            },
            timeout: match self.timeout {
                Some(t) => Some(t@),
                None => None,
            },
        }
    }
}

/// The backend pool of one HTTP service.
#[derive(Clone, Debug, PartialEq)]
pub struct LoadBalancer {
    pub servers: Vec<Server>,
    pub health_check: Option<HealthCheck>,
}

pub struct LoadBalancerGhost {
    pub servers: Seq<ServerGhost>,
    pub health_check: Option<HealthCheckGhost>,
}

/// The views of a sequence of viewable values.
pub open spec fn elems_view<EV: View>(v: Seq<EV>) -> Seq<EV::V> {
    Seq::new(v.len(), |i: int| v[i]@)
}

impl View for LoadBalancer {
    type V = LoadBalancerGhost;

    open spec fn view(&self) -> LoadBalancerGhost {
        LoadBalancerGhost {
            servers: elems_view(self.servers@),
            health_check: match self.health_check {
                Some(h) => Some(h@),
                None => None,
            },
        }
    }
}

/// One HTTP service.
#[derive(Clone, Debug, PartialEq)]
pub struct Service {
    pub load_balancer: LoadBalancer,
}

pub struct ServiceGhost {
    pub load_balancer: LoadBalancerGhost,
}

impl View for Service {
    type V = ServiceGhost;

    open spec fn view(&self) -> ServiceGhost {
        ServiceGhost { load_balancer: self.load_balancer@ }
    }
}

/// Headers rewriting, one of the middleware shapes.
#[derive(Clone, Debug, PartialEq)]
pub struct HeadersMiddleware {
    pub custom_request_headers: Option<Vec<(String, String)>>,
    pub custom_response_headers: Option<Vec<(String, String)>>,
}

pub struct HeadersMiddlewareGhost {
    pub custom_request_headers: Option<Seq<(Seq<char>, Seq<char>)>>,
    pub custom_response_headers: Option<Seq<(Seq<char>, Seq<char>)>>,
}

impl View for HeadersMiddleware {
    type V = HeadersMiddlewareGhost;

    open spec fn view(&self) -> HeadersMiddlewareGhost {
        HeadersMiddlewareGhost {
            custom_request_headers: match self.custom_request_headers {
                Some(h) => Some(pairs_view(h@)),
                None => None,
            },
            custom_response_headers: match self.custom_response_headers {
                Some(h) => Some(pairs_view(h@)),
                None => None,
            },
        }
    }
}

/// Request retrying, one of the middleware shapes.
#[derive(Clone, Copy, Debug, PartialEq, Eq, Structural)]
pub struct RetryMiddleware {
    pub attempts: i32,
}

/// One HTTP middleware.
#[derive(Clone, Debug, PartialEq)]
pub struct Middleware {
    pub headers: Option<HeadersMiddleware>,
    pub retry: Option<RetryMiddleware>,
}

pub struct MiddlewareGhost {
    pub headers: Option<HeadersMiddlewareGhost>,
    pub retry: Option<RetryMiddleware>,
}

impl View for Middleware {
    type V = MiddlewareGhost;

    open spec fn view(&self) -> MiddlewareGhost {
        MiddlewareGhost {
            headers: match self.headers {
                Some(h) => Some(h@),
                None => None,
            },
            retry: self.retry,
        }
    }
}

/// A TLS block on a TCP router.
#[derive(Clone, Copy, Debug, PartialEq, Eq, Structural)]
pub struct TcpTlsConfig {
    pub passthrough: Option<bool>,
}

/// A TCP router: an SNI rule and the service it forwards to.
#[derive(Clone, Debug, PartialEq)]
pub struct TcpRouter {
    pub rule: String,
    pub service: String,
    pub tls: Option<TcpTlsConfig>,
}

pub struct TcpRouterGhost {
    pub rule: Seq<char>,
    pub service: Seq<char>,
    pub tls: Option<TcpTlsConfig>,
}

impl View for TcpRouter {
    type V = TcpRouterGhost;

    open spec fn view(&self) -> TcpRouterGhost {
        TcpRouterGhost { rule: self.rule@, service: self.service@, tls: self.tls }
    }
}

/// One weighted TCP backend.
#[derive(Clone, Debug, PartialEq)]
pub struct TcpServer {
    pub address: String,
    pub weight: Option<i32>,
}

pub struct TcpServerGhost {
    pub address: Seq<char>,
    pub weight: Option<i32>,
}

impl View for TcpServer {
    type V = TcpServerGhost;

    open spec fn view(&self) -> TcpServerGhost {
        TcpServerGhost { address: self.address@, weight: self.weight }
    }
}

/// The backend pool of one TCP service.
#[derive(Clone, Debug, PartialEq)]
pub struct TcpLoadBalancer {
    pub servers: Vec<TcpServer>,
}

pub struct TcpLoadBalancerGhost {
    pub servers: Seq<TcpServerGhost>,
}

impl View for TcpLoadBalancer {
    type V = TcpLoadBalancerGhost;

    open spec fn view(&self) -> TcpLoadBalancerGhost {
        TcpLoadBalancerGhost { servers: elems_view(self.servers@) }
    }
}

/// One TCP service.
#[derive(Clone, Debug, PartialEq)]
pub struct TcpService {
    pub load_balancer: TcpLoadBalancer,
}

pub struct TcpServiceGhost {
    pub load_balancer: TcpLoadBalancerGhost,
}

impl View for TcpService {
    type V = TcpServiceGhost;

    open spec fn view(&self) -> TcpServiceGhost {
        TcpServiceGhost { load_balancer: self.load_balancer@ }
    }
}

/// A UDP router: UDP has no content to match on, so it only names
/// its service.
#[derive(Clone, Debug, PartialEq)]
pub struct UdpRouter {
    pub service: String,
}

pub struct UdpRouterGhost {
    pub service: Seq<char>,
}

impl View for UdpRouter {
    type V = UdpRouterGhost;

    open spec fn view(&self) -> UdpRouterGhost {
        UdpRouterGhost { service: self.service@ }
    }
}

/// One weighted UDP backend.
#[derive(Clone, Debug, PartialEq)]
pub struct UdpServer {
    pub address: String,
    pub weight: Option<i32>,
}

pub struct UdpServerGhost {
    pub address: Seq<char>,
    pub weight: Option<i32>,
}

impl View for UdpServer {
    type V = UdpServerGhost;

    open spec fn view(&self) -> UdpServerGhost {
        UdpServerGhost { address: self.address@, weight: self.weight }
    }
}

/// The backend pool of one UDP service.
#[derive(Clone, Debug, PartialEq)]
pub struct UdpLoadBalancer {
    pub servers: Vec<UdpServer>,
}

pub struct UdpLoadBalancerGhost {
    pub servers: Seq<UdpServerGhost>,
}

impl View for UdpLoadBalancer {
    type V = UdpLoadBalancerGhost;

    open spec fn view(&self) -> UdpLoadBalancerGhost {
        UdpLoadBalancerGhost { servers: elems_view(self.servers@) }
    }
}

/// One UDP service.
#[derive(Clone, Debug, PartialEq)]
pub struct UdpService {
    pub load_balancer: UdpLoadBalancer,
}

pub struct UdpServiceGhost {
    pub load_balancer: UdpLoadBalancerGhost,
}

impl View for UdpService {
    type V = UdpServiceGhost;

    open spec fn view(&self) -> UdpServiceGhost {
        UdpServiceGhost { load_balancer: self.load_balancer@ }
    }
}

/// The HTTP section: routers and services by generated name.
#[derive(Clone, Debug, PartialEq)]
pub struct HttpConfig {
    pub routers: Vec<(String, Router)>,
    pub services: Vec<(String, Service)>,
    pub middlewares: Vec<(String, Middleware)>,
}

pub struct HttpConfigGhost {
    pub routers: Seq<(Seq<char>, RouterGhost)>,
    pub services: Seq<(Seq<char>, ServiceGhost)>,
    pub middlewares: Seq<(Seq<char>, MiddlewareGhost)>,
}

impl View for HttpConfig {
    type V = HttpConfigGhost;

    open spec fn view(&self) -> HttpConfigGhost {
        HttpConfigGhost {
            routers: pairs_view(self.routers@),
            services: pairs_view(self.services@),
            middlewares: pairs_view(self.middlewares@),
        }
    }
}

/// The TCP section.
#[derive(Clone, Debug, PartialEq)]
pub struct TcpConfig {
    pub routers: Vec<(String, TcpRouter)>,
    pub services: Vec<(String, TcpService)>,
}

pub struct TcpConfigGhost {
    pub routers: Seq<(Seq<char>, TcpRouterGhost)>,
    pub services: Seq<(Seq<char>, TcpServiceGhost)>,
}

impl View for TcpConfig {
    type V = TcpConfigGhost;

    open spec fn view(&self) -> TcpConfigGhost {
        TcpConfigGhost {
            routers: pairs_view(self.routers@),
            services: pairs_view(self.services@),
        }
    }
}

/// The UDP section.
#[derive(Clone, Debug, PartialEq)]
pub struct UdpConfig {
    pub routers: Vec<(String, UdpRouter)>,
    pub services: Vec<(String, UdpService)>,
}

pub struct UdpConfigGhost {
    pub routers: Seq<(Seq<char>, UdpRouterGhost)>,
    pub services: Seq<(Seq<char>, UdpServiceGhost)>,
}

impl View for UdpConfig {
    type V = UdpConfigGhost;

    open spec fn view(&self) -> UdpConfigGhost {
        UdpConfigGhost {
            routers: pairs_view(self.routers@),
            services: pairs_view(self.services@),
        }
    }
}

/// The whole generated configuration: a section is present exactly
/// when it has at least one router or service.
#[derive(Clone, Debug, PartialEq)]
pub struct DynamicConfig {
    pub http: Option<HttpConfig>,
    pub tcp: Option<TcpConfig>,
    pub udp: Option<UdpConfig>,
}

pub struct DynamicConfigGhost {
    pub http: Option<HttpConfigGhost>,
    pub tcp: Option<TcpConfigGhost>,
    pub udp: Option<UdpConfigGhost>,
}

impl View for DynamicConfig {
    type V = DynamicConfigGhost;

    open spec fn view(&self) -> DynamicConfigGhost {
        DynamicConfigGhost {
            http: match self.http {
                Some(h) => Some(h@),
                None => None,
            },
            tcp: match self.tcp {
                Some(t) => Some(t@),
                None => None,
            },
            udp: match self.udp {
                Some(u) => Some(u@),
                None => None,
            },
        }
    }
}

} // verus!

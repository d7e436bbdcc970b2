//! The status document of the mesh daemon, modelled with plain
//! values: timestamps are unix seconds, and the peer map is an
//! ordered sequence of key/peer pairs. The wire form of the document
//! (with its RFC 3339 timestamps and free-form capability values)
//! lives outside the library and is converted into these types.

use vstd::prelude::*;
use crate::strutil::views_of;

verus! {

/// A stable node identifier, as the daemon reports it.
#[derive(Clone, Debug, PartialEq, Eq, Hash)]
pub struct StableNodeID(pub String);

impl View for StableNodeID {
    type V = Seq<char>;

    open spec fn view(&self) -> Seq<char> {
        self.0@
    }
}

/// A node public key in its textual form.
#[derive(Clone, Debug, PartialEq, Eq, Hash)]
pub struct NodePublic(pub String);

impl View for NodePublic {
    type V = Seq<char>;

    open spec fn view(&self) -> Seq<char> {
        self.0@
    }
}

/// A user identifier.
#[derive(Clone, Copy, Debug, PartialEq, Eq, Hash, Structural)]
pub struct UserID(pub i64);

impl View for UserID {
    type V = i64;

    open spec fn view(&self) -> i64 {
        self.0
    }
}

/// A node capability name.
#[derive(Clone, Debug, PartialEq, Eq, Hash)]
pub struct NodeCapability(pub String);

impl View for NodeCapability {
    type V = Seq<char>;

    open spec fn view(&self) -> Seq<char> {
        self.0@
    }
}

/// The tailnet the daemon is joined to.
#[derive(Clone, Debug, PartialEq)]
pub struct TailnetStatus {
    pub name: String,
    pub magic_dns_suffix: String,
    pub magic_dns_enabled: bool,
}

pub struct TailnetStatusGhost {
    pub name: Seq<char>,
    pub magic_dns_suffix: Seq<char>,
    pub magic_dns_enabled: bool,
}

impl View for TailnetStatus {
    type V = TailnetStatusGhost;

    open spec fn view(&self) -> TailnetStatusGhost {
        TailnetStatusGhost {
            name: self.name@,
            magic_dns_suffix: self.magic_dns_suffix@,
            magic_dns_enabled: self.magic_dns_enabled,
        }
    }
}

/// The exit node currently in use, if any.
#[derive(Clone, Debug, PartialEq)]
pub struct ExitNodeStatus {
    pub id: StableNodeID,
    pub online: bool,
    pub tailscale_ips: Vec<String>,
}

pub struct ExitNodeStatusGhost {
    pub id: Seq<char>,
    pub online: bool,
    pub tailscale_ips: Seq<Seq<char>>,
}

impl View for ExitNodeStatus {
    type V = ExitNodeStatusGhost;

    open spec fn view(&self) -> ExitNodeStatusGhost {
        ExitNodeStatusGhost {
            id: self.id@,
            online: self.online,
            tailscale_ips: views_of(self.tailscale_ips@),
        }
    }
}

/// A user known to the daemon.
#[derive(Clone, Debug, PartialEq)]
pub struct UserProfile {
    pub id: UserID,
    pub login_name: String,
    pub display_name: String,
    pub profile_pic_url: Option<String>,
}

pub struct UserProfileGhost {
    pub id: i64,
    pub login_name: Seq<char>,
    pub display_name: Seq<char>,
    pub profile_pic_url: Option<Seq<char>>,
}

impl View for UserProfile {
    type V = UserProfileGhost;

    open spec fn view(&self) -> UserProfileGhost {
        UserProfileGhost {
            id: self.id@,
            login_name: self.login_name@,
            display_name: self.display_name@,
            profile_pic_url: match self.profile_pic_url {
                Some(u) => Some(u@),
                None => None,
            },
        }
    }
}

/// What the daemon reports about available client versions.
#[derive(Clone, Debug, PartialEq)]
pub struct ClientVersion {
    pub running_latest: Option<bool>,
    pub latest_version: Option<String>,
    pub urgent_security_update: Option<bool>,
    pub notify: Option<bool>,
    pub notify_url: Option<String>,
    pub notify_text: Option<String>,
}

pub struct ClientVersionGhost {
    pub running_latest: Option<bool>,
    pub latest_version: Option<Seq<char>>,
    pub urgent_security_update: Option<bool>,
    pub notify: Option<bool>,
    pub notify_url: Option<Seq<char>>,
    pub notify_text: Option<Seq<char>>,
}

impl View for ClientVersion {
    type V = ClientVersionGhost;

    open spec fn view(&self) -> ClientVersionGhost {
        ClientVersionGhost {
            running_latest: self.running_latest,
            latest_version: match self.latest_version {
                Some(v) => Some(v@),
                None => None,
            },
            urgent_security_update: self.urgent_security_update,
            notify: self.notify,
            notify_url: match self.notify_url {
                Some(u) => Some(u@),
                None => None,
            },
            notify_text: match self.notify_text {
                Some(x) => Some(x@),
                None => None,
            },
        }
    }
}

/// Whether a peer can receive files, and if not, why.
#[derive(Clone, Copy, Debug, PartialEq, Eq, Structural)]
pub enum TaildropTargetStatus {
    Unknown,
    Available,
    NoNetmapAvailable,
    IpnStateNotRunning,
    MissingCap,
    Offline,
    NoPeerInfo,
    UnsupportedOS,
    NoPeerAPI,
    OwnedByOtherUser,
}

/// The numeric code of each taildrop target state on the wire.
pub open spec fn spec_taildrop_code(s: TaildropTargetStatus) -> i32 {
    match s {
        TaildropTargetStatus::Unknown => 0,
        TaildropTargetStatus::Available => 1,
        TaildropTargetStatus::NoNetmapAvailable => 2,
        TaildropTargetStatus::IpnStateNotRunning => 3,
        TaildropTargetStatus::MissingCap => 4,
        TaildropTargetStatus::Offline => 5,
        TaildropTargetStatus::NoPeerInfo => 6,
        TaildropTargetStatus::UnsupportedOS => 7,
        TaildropTargetStatus::NoPeerAPI => 8,
        TaildropTargetStatus::OwnedByOtherUser => 9,
    }
}

impl TaildropTargetStatus {
    /// The state behind a wire code; unknown codes map to `Unknown`.
    pub fn from_code(value: i32) -> (r: TaildropTargetStatus)
        ensures
            0 <= value <= 9 ==> spec_taildrop_code(r) == value,
            !(0 <= value <= 9) ==> r == TaildropTargetStatus::Unknown,
    {
        if value == 1 {
            TaildropTargetStatus::Available
        } else if value == 2 {
            TaildropTargetStatus::NoNetmapAvailable
        } else if value == 3 {
            TaildropTargetStatus::IpnStateNotRunning
        } else if value == 4 {
            TaildropTargetStatus::MissingCap
        } else if value == 5 {
            TaildropTargetStatus::Offline
        } else if value == 6 {
            TaildropTargetStatus::NoPeerInfo
        } else if value == 7 {
            TaildropTargetStatus::UnsupportedOS
        } else if value == 8 {
            TaildropTargetStatus::NoPeerAPI
        } else if value == 9 {
            TaildropTargetStatus::OwnedByOtherUser
        } else {
            TaildropTargetStatus::Unknown
        }
    }

    /// The wire code of this state.
    pub fn code(&self) -> (r: i32)
        ensures
            r == spec_taildrop_code(*self),
    {
        match self {
            TaildropTargetStatus::Unknown => 0,
            TaildropTargetStatus::Available => 1,
            TaildropTargetStatus::NoNetmapAvailable => 2,
            TaildropTargetStatus::IpnStateNotRunning => 3,
            TaildropTargetStatus::MissingCap => 4,
            TaildropTargetStatus::Offline => 5,
            TaildropTargetStatus::NoPeerInfo => 6,
            TaildropTargetStatus::UnsupportedOS => 7,
            TaildropTargetStatus::NoPeerAPI => 8,
            TaildropTargetStatus::OwnedByOtherUser => 9,
        }
    }
}

/// One peer of the mesh, as one status snapshot reports it.
/// Timestamps are unix seconds; zero stands for the epoch, which the
/// daemon uses for "never".
#[derive(Clone, Debug, PartialEq)]
pub struct PeerStatus {
    pub id: StableNodeID,
    pub public_key: NodePublic,
    pub hostname: String,
    pub dns_name: String,
    pub os: String,
    pub user_id: UserID,
    pub tailscale_ips: Vec<String>,
    pub tags: Option<Vec<String>>,
    pub cur_addr: String,
    pub relay: String,
    pub rx_bytes: i64,
    pub tx_bytes: i64,
    pub created_unix: i64,
    pub last_write_unix: i64,
    pub last_seen_unix: i64,
    pub last_handshake_unix: i64,
    pub online: Option<bool>,
    pub exit_node: bool,
    pub exit_node_option: bool,
    pub active: bool,
    pub in_network_map: bool,
    pub in_magic_sock: bool,
    pub in_engine: bool,
    pub taildrop_target: Option<TaildropTargetStatus>,
    pub key_expiry_unix: Option<i64>,
    pub expired: Option<bool>,
}

/// The mathematical value of a peer record.
pub struct PeerStatusGhost {
    pub id: Seq<char>,
    pub public_key: Seq<char>,
    pub hostname: Seq<char>,
    pub dns_name: Seq<char>,
    pub os: Seq<char>,
    pub user_id: i64,
    pub tailscale_ips: Seq<Seq<char>>,
    pub tags: Option<Seq<Seq<char>>>,
    pub cur_addr: Seq<char>,
    pub relay: Seq<char>,
    pub rx_bytes: i64,
    pub tx_bytes: i64,
    pub created_unix: i64,
    pub last_write_unix: i64,
    pub last_seen_unix: i64,
    pub last_handshake_unix: i64,
    pub online: Option<bool>,
    pub exit_node: bool,
    pub exit_node_option: bool,
    pub active: bool,
    pub in_network_map: bool,
    pub in_magic_sock: bool,
    pub in_engine: bool,
    pub taildrop_target: Option<TaildropTargetStatus>,
    pub key_expiry_unix: Option<i64>,
    pub expired: Option<bool>,
}

impl View for PeerStatus {
    type V = PeerStatusGhost;

    open spec fn view(&self) -> PeerStatusGhost {
        PeerStatusGhost {
            id: self.id@,
            public_key: self.public_key@,
            hostname: self.hostname@,
            dns_name: self.dns_name@,
            os: self.os@,
            user_id: self.user_id@,
            tailscale_ips: views_of(self.tailscale_ips@),
            tags: match self.tags {
                Some(ts) => Some(views_of(ts@)),
                None => None,
            },
            cur_addr: self.cur_addr@,
            relay: self.relay@,
            rx_bytes: self.rx_bytes,
            tx_bytes: self.tx_bytes,
            created_unix: self.created_unix,
            last_write_unix: self.last_write_unix,
            last_seen_unix: self.last_seen_unix,
            last_handshake_unix: self.last_handshake_unix,
            online: self.online,
            exit_node: self.exit_node,
            exit_node_option: self.exit_node_option,
            active: self.active,
            in_network_map: self.in_network_map,
            in_magic_sock: self.in_magic_sock,
            in_engine: self.in_engine,
            taildrop_target: self.taildrop_target,
            key_expiry_unix: self.key_expiry_unix,
            expired: self.expired,
        }
    }
}

/// One status snapshot of the daemon: its own state and the peers it
/// knows, keyed by node public key.
#[derive(Clone, Debug, PartialEq)]
pub struct Status {
    pub version: String,
    pub tun: bool,
    pub backend_state: String,
    pub have_node_key: Option<bool>,
    pub auth_url: String,
    pub tailscale_ips: Vec<String>,
    pub self_peer: Option<PeerStatus>,
    pub exit_node_status: Option<ExitNodeStatus>,
    pub health: Vec<String>,
    pub magic_dns_suffix: String,
    pub current_tailnet: Option<TailnetStatus>,
    pub cert_domains: Option<Vec<String>>,
    pub peers: Option<Vec<(NodePublic, Option<PeerStatus>)>>,
    pub user: Option<Vec<(UserID, UserProfile)>>,
    pub client_version: Option<ClientVersion>,
}

/// The peer sequence of a snapshot, as pairs of key view and
/// optional peer view.
pub open spec fn peers_view(v: Seq<(NodePublic, Option<PeerStatus>)>) -> Seq<(Seq<char>, Option<
    PeerStatusGhost,
>)> {
    Seq::new(
        v.len(),
        |i: int|
            (
                v[i].0@,
                match v[i].1 {
                    Some(p) => Some(p@),
                    None => None,
                },
            ),
    )
}

/// The mathematical value of a status snapshot, reduced to what the
/// synthesis pipeline reads.
pub struct StatusGhost {
    pub version: Seq<char>,
    pub backend_state: Seq<char>,
    pub peers: Option<Seq<(Seq<char>, Option<PeerStatusGhost>)>>,
}

impl View for Status {
    type V = StatusGhost;

    open spec fn view(&self) -> StatusGhost {
        StatusGhost {
            version: self.version@,
            backend_state: self.backend_state@,
            peers: match self.peers {
                Some(ps) => Some(peers_view(ps@)),
                None => None,
            },
        }
    }
}

} // verus!

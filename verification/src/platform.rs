//! Platform-side failures of finding the daemon's local address.
//! The discovery itself reads the filesystem and the process table
//! and runs outside the library; these are the values it reports.

use vstd::prelude::*;
use vstd::string::StringExecFns;
use vstd::string::StrSliceExecFns;
use crate::strutil::{
    find_sep, find_sub, lemma_find_sep_unique, lemma_find_sub, parse_u16, parses_as_u16,
    split_on, split_seq, index_of_sub, views_of,
};

verus! {

/// Why no local daemon address could be found.
#[derive(Clone, Debug, PartialEq)]
pub enum PlatformError {
    UnsupportedOS(String),
    SocketNotFound(String),
    PermissionDenied(String),
}

/// The mathematical value of a platform failure.
pub enum PlatformErrorGhost {
    UnsupportedOS(Seq<char>),
    SocketNotFound(Seq<char>),
    PermissionDenied(Seq<char>),
}

impl View for PlatformError {
    type V = PlatformErrorGhost;

    open spec fn view(&self) -> PlatformErrorGhost {
        match self {
            PlatformError::UnsupportedOS(m) => PlatformErrorGhost::UnsupportedOS(m@),
            PlatformError::SocketNotFound(m) => PlatformErrorGhost::SocketNotFound(m@),
            PlatformError::PermissionDenied(m) => PlatformErrorGhost::PermissionDenied(m@),
        }
    }
}

/// The failure, written out for a reader.
pub open spec fn spec_platform_error_message(e: PlatformErrorGhost) -> Seq<char> {
    match e {
        PlatformErrorGhost::UnsupportedOS(m) => "Unsupported operating system: "@ + m,
        PlatformErrorGhost::SocketNotFound(m) => "Tailscale socket not found at: "@ + m,
        PlatformErrorGhost::PermissionDenied(m) => "Permission denied: "@ + m,
    }
}

impl PlatformError {
    /// The failure, written out for a reader.
    pub fn message(&self) -> (r: String)
        ensures
            r@ == spec_platform_error_message(self@),
    {
        match self {
            PlatformError::UnsupportedOS(m) => {
                let mut s = String::from_str("Unsupported operating system: ");
                s.append(m.as_str());
                s
            },
            PlatformError::SocketNotFound(m) => {
                let mut s = String::from_str("Tailscale socket not found at: ");
                s.append(m.as_str());
                s
            },
            PlatformError::PermissionDenied(m) => {
                let mut s = String::from_str("Permission denied: ");
                s.append(m.as_str());
                s
            },
        }
    }
}

/// The discovery of the daemon's default local address; the lookup
/// itself happens outside the library.
pub struct SocketPath;


/// The descriptor of the local TCP endpoint with a credential, as
/// the daemon discovery writes it.
pub open spec fn spec_local_tcp_endpoint(port_str: Seq<char>, token: Seq<char>) -> Seq<char> {
    "tcp://127.0.0.1:"@ + port_str + ":"@ + token
}

/// Builds the connection descriptor for a local TCP port and its
/// credential token.
pub fn build_local_tcp_endpoint(port_str: &str, token: &str) -> (r: String)
    ensures
        r@ == spec_local_tcp_endpoint(port_str@, token@),
{
    let mut r = String::from_str("tcp://127.0.0.1:");
    r.append(port_str);
    r.append(":");
    r.append(token);
    r
}

/// What one line of the process table yields: behind the first
/// occurrence of the proof-file marker stand the port, a dash, and
/// the token; a line without the marker, without the dash, or with
/// a port that is no sixteen-bit number yields nothing.
pub open spec fn spec_proof_line(line: Seq<char>) -> Option<Seq<char>> {
    let pat = ".tailscale.ipn.macos/sameuserproof-"@;
    let i = find_sub(line, pat);
    if i < 0 {
        None
    } else {
        let suffix = line.subrange(i + pat.len(), line.len() as int);
        let d = find_sep(suffix, '-');
        if d == suffix.len() {
            None
        } else {
            let port_str = suffix.subrange(0, d);
            let token = suffix.subrange(d + 1, suffix.len() as int);
            if parses_as_u16(port_str) {
                Some(spec_local_tcp_endpoint(port_str, token))
            } else {
                None
            }
        }
    }
}

/// The endpoint taken from the first line that yields one, among
/// the first `k` lines.
pub open spec fn spec_same_user_proof(lines: Seq<Seq<char>>, k: int) -> Option<Seq<char>>
    decreases k,
{
    if k <= 0 {
        None
    } else {
        match spec_same_user_proof(lines, k - 1) {
            Some(e) => Some(e),
            None => spec_proof_line(lines[k - 1]),
        }
    }
}

/// A line that yields an endpoint settles the whole scan, whatever
/// follows it.
proof fn lemma_same_user_proof_found(lines: Seq<Seq<char>>, i: int, k: int)
    requires
        0 <= i < k <= lines.len(),
        spec_same_user_proof(lines, i) is None,
        spec_proof_line(lines[i]) is Some,
    ensures
        spec_same_user_proof(lines, k) == spec_proof_line(lines[i]),
    decreases k,
{
    if k > i + 1 {
        lemma_same_user_proof_found(lines, i, k - 1);
    }
}

/// Reads the daemon's local TCP endpoint out of the process table
/// listing: the first line naming a proof file gives port and
/// token. The listing itself comes from the caller.
pub fn parse_same_user_proof(output: &str) -> (r: Option<String>)
    ensures
        ({
            let lines = split_seq(output@, '\n');
            match r {
                Some(s) => spec_same_user_proof(lines, lines.len() as int) == Some(s@),
                None => spec_same_user_proof(lines, lines.len() as int) is None,
            }
        }),
{
    let lines = split_on(output, '\n');
    let mut i: usize = 0;
    while i < lines.len()
        invariant
            i <= lines@.len(),
            views_of(lines@) == split_seq(output@, '\n'),
            spec_same_user_proof(views_of(lines@), i as int) is None,
        decreases lines@.len() - i,
    {
        let line = lines[i].as_str();
        let pattern = ".tailscale.ipn.macos/sameuserproof-";
        let ghost vline = views_of(lines@)[i as int];
        proof {
            assert(vline == line@);
        }
        match index_of_sub(line, pattern) {
            Some(p) => {
                proof {
                    lemma_find_sub(line@, pattern@);
                }
                let n = line.unicode_len();
                let patlen = pattern.unicode_len();
                let suffix = line.substring_char(p + patlen, n);
                let sn = suffix.unicode_len();
                let mut d: usize = 0;
                while d < sn && suffix.get_char(d) != '-'
                    invariant
                        d <= sn,
                        sn == suffix@.len(),
                        forall|j: int| 0 <= j < d ==> suffix@[j] != '-',
                    decreases sn - d,
                {
                    d = d + 1;
                }
                proof {
                    lemma_find_sep_unique(suffix@, '-', d as int);
                }
                if d < sn {
                    let port_str = suffix.substring_char(0, d);
                    let token = suffix.substring_char(d + 1, sn);
                    match parse_u16(port_str) {
                        Some(_) => {
                            let r = build_local_tcp_endpoint(port_str, token);
                            proof {
                                assert(spec_proof_line(vline) == Some(r@));
                                lemma_same_user_proof_found(
                                    views_of(lines@),
                                    i as int,
                                    lines@.len() as int,
                                );
                            }
                            return Some(r);
                        },
                        None => {
                            proof {
                                assert(spec_proof_line(vline) is None);
                            }
                        },
                    }
                } else {
                    proof {
                        assert(spec_proof_line(vline) is None);
                    }
                }
            },
            None => {
                proof {
                    assert(spec_proof_line(vline) is None);
                }
            },
        }
        i = i + 1;
    }
    None
}

} // verus!

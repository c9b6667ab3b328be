//! Inbound configuration of the core: already-validated values handed in by
//! the process that owns it. Parsing raw flags stays outside; only the role
//! names themselves are decoded here.

use vstd::prelude::*;
use vstd::string::StringSliceAdditionalSpecFns;

use crate::identity::PeerId;
use crate::multiaddr::Multiaddr;
use crate::relay::Role;

verus! {

/// The UTF-8 bytes of the role name `dial`.
pub open spec fn dial_name() -> Seq<u8> {
    seq![0x64u8, 0x69u8, 0x61u8, 0x6cu8]
}

/// The UTF-8 bytes of the role name `listen`.
pub open spec fn listen_name() -> Seq<u8> {
    seq![0x6cu8, 0x69u8, 0x73u8, 0x74u8, 0x65u8, 0x6eu8]
}

/// Decodes a role name: `dial` or `listen`, nothing else.
pub fn parse_role(s: &str) -> (r: Result<Role, String>)
    ensures
        r matches Ok(role) ==> ((role is Dialer && s.spec_bytes() == dial_name()) || (role
            is Listener && s.spec_bytes() == listen_name())),
        r is Ok <==> (s.spec_bytes() == dial_name() || s.spec_bytes() == listen_name()),
{
    let b = s.as_bytes();
    if b.len() == 4 && b[0] == 0x64 && b[1] == 0x69 && b[2] == 0x61 && b[3] == 0x6c {
        proof {
            assert(s.spec_bytes() =~= dial_name());
        }
        Ok(Role::Dialer)
    } else if b.len() == 6 && b[0] == 0x6c && b[1] == 0x69 && b[2] == 0x73 && b[3] == 0x74 && b[4]
        == 0x65 && b[5] == 0x6e {
        proof {
            assert(s.spec_bytes() =~= listen_name());
        }
        Ok(Role::Listener)
    } else {
        proof {
            if s.spec_bytes() == dial_name() {
                assert(b@.len() == 4 && b@[0] == 0x64 && b@[1] == 0x69 && b@[2] == 0x61 && b@[3]
                    == 0x6c);
            }
            if s.spec_bytes() == listen_name() {
                assert(b@.len() == 6 && b@[0] == 0x6c && b@[1] == 0x69 && b@[2] == 0x73 && b@[3]
                    == 0x74 && b@[4] == 0x65 && b@[5] == 0x6e);
            }
        }
        Err(String::from_str("Expected either 'dial' or 'listen'"))
    }
}

/// What the core's bootstrap entry point consumes: role, identity seed, the
/// well-known relay address, and — for a dialer — the target peer.
pub struct Config {
    /// Listener or dialer.
    pub role: Role,
    /// Seed of the deterministic identity.
    pub seed: u8,
    /// The well-known relay to bootstrap through.
    pub relay_address: Multiaddr,
    /// The peer to hole punch to; required exactly for the dialer role.
    pub remote_peer: Option<PeerId>,
}

} // verus!

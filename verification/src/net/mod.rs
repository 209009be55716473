//! UDP match protocol shared by the client and the dedicated server.
use vstd::prelude::*;

pub mod client;
pub mod proto;
pub mod receive;
pub mod server;

verus! {

/// Which side of the match protocol this process plays.
#[derive(Clone, Copy, PartialEq, Eq, Debug, Structural)]
pub enum NetRole {
    Local,
    Client,
    Server,
}

impl Default for NetRole {
    fn default() -> (r: Self)
        ensures
            r == NetRole::Local,
    {
        NetRole::Local
    }
}

impl NetRole {
    pub fn is_client(self) -> (r: bool)
        ensures
            r == (self == NetRole::Client),
    {
        self == NetRole::Client
    }

    pub fn is_server(self) -> (r: bool)
        ensures
            r == (self == NetRole::Server),
    {
        self == NetRole::Server
    }

    pub fn online(self) -> (r: bool)
        ensures
            r == (self != NetRole::Local),
    {
        self != NetRole::Local
    }
}

} // verus!

use vstd::prelude::*;

use crate::error::{Error, Result};

verus! {

/// One host that serves the event socket.
#[derive(Debug)]
pub struct Server {
    pub host: String,
    pub port: u16,
    pub ws_port: u16,
    pub wss_port: u16,
}

/// Checks the outcome of endpoint discovery: the host list and the token are
/// handed back unchanged when there is at least one host, and `NoServer` is
/// returned when there is none.
pub fn check_servers(servers: Vec<Server>, token: String) -> (r: Result<(Vec<Server>, String)>)
    ensures
        match r {
            Ok((s, t)) => servers@.len() > 0 && s@ == servers@ && t@ == token@,
            Err(e) => servers@.len() == 0 && e == Error::NoServer,
        },
{
    if servers.len() == 0 {
        Err(Error::NoServer)
    } else {
        Ok((servers, token))
    }
}

} // verus!

//! What the server announces about itself to clients looking for it, and
//! whether it is announcing.

use vstd::prelude::*;
use vstd::string::*;

verus! {

/// What a server announces.
#[derive(Debug, Clone)]
pub struct ServerInfo {
    pub hostname: String,
    pub ip: String,
    pub port: u16,
    pub version: String,
    pub capabilities: Vec<String>,
}

/// `hostname::get`: the machine's host name, lossily as UTF-8, or `None`
/// when it cannot be read. It depends on the machine: nothing is claimed of
/// the value.
#[verifier::external_body]
fn machine_hostname() -> Option<String> {
    match hostname::get() {
        Ok(h) => Some(h.to_string_lossy().to_string()),
        Err(_) => None,
    }
}

/// The version the server announces.
pub open spec fn server_version() -> Seq<char> {
    "1.0.0"@
}

/// The capabilities the server announces.
pub open spec fn server_capabilities() -> Seq<Seq<char>> {
    seq!["dolphin"@, "gamecube"@, "wii"@, "h264"@, "nvenc"@, "tailscale"@]
}

/// Whether `info` announces host `host` (`dpstream-server` when the host
/// name is unknown) at `ip` and `port`, with the server's version and
/// capabilities.
pub open spec fn announces(info: ServerInfo, host: Option<Seq<char>>, ip: Seq<char>, port: u16) -> bool {
    &&& info.hostname@ == match host {
        Some(h) => h,
        None => "dpstream-server"@,
    }
    &&& info.ip@ == ip
    &&& info.port == port
    &&& info.version@ == server_version()
    &&& info.capabilities@.map_values(|c: String| c@) == server_capabilities()
}

/// The view of an optional string.
pub open spec fn opt_view(s: Option<String>) -> Option<Seq<char>> {
    match s {
        Some(x) => Some(x@),
        None => None,
    }
}

/// What the server announces when its host name reads `host`.
pub fn server_info_for(host: Option<String>, ip: String, port: u16) -> (info: ServerInfo)
    ensures
        announces(info, opt_view(host), ip@, port),
{
    let hostname = match host {
        Some(h) => h,
        None => String::from_str("dpstream-server"),
    };
    let capabilities = vec![
        String::from_str("dolphin"),
        String::from_str("gamecube"),
        String::from_str("wii"),
        String::from_str("h264"),
        String::from_str("nvenc"),
        String::from_str("tailscale"),
    ];
    assert(capabilities@.map_values(|c: String| c@) =~= server_capabilities());
    ServerInfo { hostname, ip, port, version: String::from_str("1.0.0"), capabilities }
}

/// Announcement of the server to clients on the network.
pub struct DiscoveryService {
    server_info: ServerInfo,
    advertising: bool,
}

impl DiscoveryService {
    pub closed spec fn spec_info(&self) -> ServerInfo {
        self.server_info
    }

    pub closed spec fn spec_advertising(&self) -> bool {
        self.advertising
    }

    /// A service for `ip` and `port` under the machine's host name, not yet
    /// announcing.
    pub fn new(ip: String, port: u16) -> (r: Result<Self, anyhow::Error>)
        ensures
            r matches Ok(d) && !d.spec_advertising() && exists|host: Option<Seq<char>>|
                #[trigger] announces(d.spec_info(), host, ip@, port),
    {
        let host = machine_hostname();
        let ghost host_view = opt_view(host);
        let ghost ip_view = ip@;
        let server_info = server_info_for(host, ip, port);
        let d = DiscoveryService { server_info, advertising: false };
        assert(announces(d.spec_info(), host_view, ip_view, port));
        Ok(d)
    }

    /// Starts announcing; announcing again changes nothing.
    pub fn start_advertising(&mut self) -> (r: Result<(), anyhow::Error>)
        ensures
            r is Ok,
            final(self).spec_advertising(),
            final(self).spec_info() == old(self).spec_info(),
    {
        self.advertising = true;
        Ok(())
    }

    /// Stops announcing; stopping again changes nothing.
    pub fn stop_advertising(&mut self) -> (r: Result<(), anyhow::Error>)
        ensures
            r is Ok,
            !final(self).spec_advertising(),
            final(self).spec_info() == old(self).spec_info(),
    {
        self.advertising = false;
        Ok(())
    }

    pub fn is_advertising(&self) -> (b: bool)
        ensures
            b == self.spec_advertising(),
    {
        self.advertising
    }

    pub fn get_server_info(&self) -> (info: &ServerInfo)
        ensures
            *info == self.spec_info(),
    {
        &self.server_info
    }

    /// Servers found on the network: without a discovery backend built in,
    /// none.
    pub fn discover_servers(timeout_ms: u64) -> (r: Result<Vec<ServerInfo>, anyhow::Error>)
        ensures
            r matches Ok(v) && v@.len() == 0,
    {
        Ok(Vec::new())
    }
}

} // verus!

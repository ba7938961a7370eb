//! The Tailscale VPN connection: its settings, the status it reports and
//! the connection state kept from it.

use crate::error::VpnError;
use crate::text::{join, joined, split_on, split_pieces};
use vstd::prelude::*;
use vstd::string::*;

verus! {

/// Settings of the Tailscale node.
#[derive(Debug, Clone)]
pub struct TailscaleConfig {
    pub auth_key: String,
    pub hostname: String,
    pub advertise_routes: Vec<String>,
    pub accept_dns: bool,
}

/// Relay and endpoints of the node.
#[derive(Debug, Clone)]
pub struct MagicsockStatus {
    pub derp: String,
    pub endpoints: Vec<String>,
}

/// The part of `tailscale status --json` the server uses.
#[derive(Debug, Clone)]
pub struct TailscaleStatus {
    pub backend_state: String,
    pub health: Vec<String>,
    pub magicsock: MagicsockStatus,
    pub tailscale_ips: Vec<String>,
    pub hostname: String,
    pub os: String,
    pub version: String,
}

/// What `str::parse::<bool>` gives.
pub open spec fn parsed_bool(s: Seq<char>) -> Option<bool> {
    if s == "true"@ {
        Some(true)
    } else if s == "false"@ {
        Some(false)
    } else {
        None
    }
}

/// Parses `true` or `false`, as `str::parse::<bool>` does.
pub fn parse_bool(s: &str) -> (r: Option<bool>)
    ensures
        r == parsed_bool(s@),
{
    let given = String::from_str(s);
    if given == String::from_str("true") {
        Some(true)
    } else if given == String::from_str("false") {
        Some(false)
    } else {
        None
    }
}

/// The view of an optional string.
pub open spec fn opt_view(s: Option<String>) -> Option<Seq<char>> {
    match s {
        Some(x) => Some(x@),
        None => None,
    }
}

/// A setting, or its default when unset.
pub open spec fn or_default(s: Option<Seq<char>>, default: Seq<char>) -> Seq<char> {
    match s {
        Some(x) => x,
        None => default,
    }
}

/// The views of a list of strings.
pub open spec fn views(v: Seq<String>) -> Seq<Seq<char>> {
    v.map_values(|x: String| x@)
}

impl TailscaleConfig {
    /// The settings from the values of `TAILSCALE_AUTH_KEY`,
    /// `TAILSCALE_HOSTNAME`, `TAILSCALE_ROUTES` and `TAILSCALE_ACCEPT_DNS`:
    /// the key is required; the host name defaults to `dpstream-server`, the
    /// routes (comma separated) to `192.168.1.0/24`, DNS acceptance to
    /// `true`, which must read `true` or `false`.
    pub fn from_settings(
        auth_key: Option<String>,
        hostname: Option<String>,
        routes: Option<String>,
        accept_dns: Option<String>,
    ) -> (r: Result<Self, VpnError>)
        ensures
            auth_key is None ==> (r matches Err(VpnError::Config(m))
                && m@ == "TAILSCALE_AUTH_KEY environment variable not set"@),
            auth_key is Some && parsed_bool(or_default(opt_view(accept_dns), "true"@)) is None
                ==> (r matches Err(VpnError::Config(m)) && m@ == "Invalid TAILSCALE_ACCEPT_DNS value"@),
            auth_key is Some && parsed_bool(or_default(opt_view(accept_dns), "true"@)) is Some
                ==> (r matches Ok(c) && {
                &&& c.auth_key@ == auth_key.unwrap()@
                &&& c.hostname@ == or_default(opt_view(hostname), "dpstream-server"@)
                &&& views(c.advertise_routes@) == split_pieces(
                    or_default(opt_view(routes), "192.168.1.0/24"@),
                    ',',
                )
                &&& Some(c.accept_dns) == parsed_bool(or_default(opt_view(accept_dns), "true"@))
            }),
    {
        let auth_key = match auth_key {
            Some(k) => k,
            None => {
                return Err(
                    VpnError::Config(
                        String::from_str("TAILSCALE_AUTH_KEY environment variable not set"),
                    ),
                );
            },
        };
        let hostname = match hostname {
            Some(h) => h,
            None => String::from_str("dpstream-server"),
        };
        let routes = match routes {
            Some(r) => r,
            None => String::from_str("192.168.1.0/24"),
        };
        let advertise_routes = split_on(routes.as_str(), ',');
        let accept_dns_text = match accept_dns {
            Some(a) => a,
            None => String::from_str("true"),
        };
        match parse_bool(accept_dns_text.as_str()) {
            Some(accept_dns) => Ok(TailscaleConfig { auth_key, hostname, advertise_routes, accept_dns }),
            None => Err(VpnError::Config(String::from_str("Invalid TAILSCALE_ACCEPT_DNS value"))),
        }
    }
}

/// What `serde_json` reports when a text is not JSON, if it is not.
pub uninterp spec fn json_parse_error(doc: Seq<char>) -> Option<Seq<char>>;

/// The string at `key` of a JSON text's top object, if there is one.
pub uninterp spec fn json_top_str(doc: Seq<char>, key: Seq<char>) -> Option<Seq<char>>;

/// The string at `key2` inside the value at `key1` of a JSON text, if there
/// is one.
pub uninterp spec fn json_nested_str(doc: Seq<char>, key1: Seq<char>, key2: Seq<char>) -> Option<
    Seq<char>,
>;

/// How the array at `member` of the object at `key` of a JSON document
/// looks.
#[derive(Debug, Clone)]
pub enum JsonArrayLookup {
    /// The value at `key` is not an object.
    NotObject,
    /// The object has no `member`.
    MissingMember,
    /// The member is not an array.
    NotArray,
    /// The array's items, as strings where they are strings.
    Items(Vec<Option<String>>),
}

/// The views of the items of an array lookup: `None` for each kind of
/// absence, else the items' strings.
pub open spec fn lookup_view(l: JsonArrayLookup) -> Option<Seq<Option<Seq<char>>>> {
    match l {
        JsonArrayLookup::Items(v) => Some(v@.map_values(|x: Option<String>| opt_view(x))),
        _ => None,
    }
}

/// What `json_member_array` finds, as a kind: 0 no object, 1 no member, 2 not
/// an array, 3 items.
pub uninterp spec fn json_member_array_kind(doc: Seq<char>, key: Seq<char>, member: Seq<char>) -> int;

/// The items found by `json_member_array`, when it finds an array.
pub uninterp spec fn json_member_array_items(doc: Seq<char>, key: Seq<char>, member: Seq<char>) -> Seq<
    Option<Seq<char>>,
>;

/// The kind of an array lookup, numbered as in `json_member_array_kind`.
pub open spec fn lookup_kind(l: JsonArrayLookup) -> int {
    match l {
        JsonArrayLookup::NotObject => 0,
        JsonArrayLookup::MissingMember => 1,
        JsonArrayLookup::NotArray => 2,
        JsonArrayLookup::Items(_) => 3,
    }
}

/// `serde_json::from_str::<Value>`: the error's text when `doc` is not
/// JSON. A function of `doc` alone.
#[verifier::external_body]
fn json_error(doc: &str) -> (e: Option<String>)
    ensures
        opt_view(e) == json_parse_error(doc@),
{
    match serde_json::from_str::<serde_json::Value>(doc) {
        Ok(_) => None,
        Err(e) => Some(e.to_string()),
    }
}

/// `value[key].as_str()` of the parsed document (`None` also when `doc` is
/// not JSON). A function of its arguments alone.
#[verifier::external_body]
fn json_str_at(doc: &str, key: &str) -> (s: Option<String>)
    ensures
        opt_view(s) == json_top_str(doc@, key@),
{
    match serde_json::from_str::<serde_json::Value>(doc) {
        Ok(v) => v[key].as_str().map(|s| s.to_string()),
        Err(_) => None,
    }
}

/// `value[key1][key2].as_str()` of the parsed document (`None` also when
/// `doc` is not JSON). A function of its arguments alone.
#[verifier::external_body]
fn json_nested_str_at(doc: &str, key1: &str, key2: &str) -> (s: Option<String>)
    ensures
        opt_view(s) == json_nested_str(doc@, key1@, key2@),
{
    match serde_json::from_str::<serde_json::Value>(doc) {
        Ok(v) => v[key1][key2].as_str().map(|s| s.to_string()),
        Err(_) => None,
    }
}

/// `value[key].as_object()`, then the object's `member` with `get`, then
/// `as_array()`, each item by `as_str()` (a document that is not JSON counts
/// as no object). A function of its arguments alone.
#[verifier::external_body]
fn json_member_array(doc: &str, key: &str, member: &str) -> (l: JsonArrayLookup)
    ensures
        lookup_kind(l) == json_member_array_kind(doc@, key@, member@),
        lookup_kind(l) == 3 ==> lookup_view(l) == Some(
            json_member_array_items(doc@, key@, member@),
        ),
{
    let v: serde_json::Value = match serde_json::from_str(doc) {
        Ok(v) => v,
        Err(_) => return JsonArrayLookup::NotObject,
    };
    match v[key].as_object().map(|o| o.get(member).map(|m| m.as_array())) {
        None => JsonArrayLookup::NotObject,
        Some(None) => JsonArrayLookup::MissingMember,
        Some(Some(None)) => JsonArrayLookup::NotArray,
        Some(Some(Some(a))) => JsonArrayLookup::Items(
            a.iter().map(|i| i.as_str().map(|s| s.to_string())).collect(),
        ),
    }
}

/// The strings among a list of optional strings, in order.
pub open spec fn somes(v: Seq<Option<Seq<char>>>) -> Seq<Seq<char>>
    decreases v.len(),
{
    if v.len() == 0 {
        Seq::empty()
    } else {
        match v.last() {
            Some(s) => somes(v.drop_last()).push(s),
            None => somes(v.drop_last()),
        }
    }
}

/// The status read from a JSON document whose parts are given: the
/// backend state (`Unknown` when missing), the node's addresses, host name
/// and OS, and the version (`unknown` when missing).
pub open spec fn status_fields_ok(
    st: TailscaleStatus,
    backend: Option<Seq<char>>,
    ips: Seq<Seq<char>>,
    host: Option<Seq<char>>,
    os: Option<Seq<char>>,
    version: Option<Seq<char>>,
) -> bool {
    &&& st.backend_state@ == or_default(backend, "Unknown"@)
    &&& views(st.tailscale_ips@) == ips
    &&& st.hostname@ == or_default(host, "unknown"@)
    &&& st.os@ == or_default(os, "unknown"@)
    &&& st.version@ == or_default(version, "unknown"@)
    &&& st.health@.len() == 0
    &&& st.magicsock.derp@ == "unknown"@
    &&& st.magicsock.endpoints@.len() == 0
}

/// The node's addresses as the status parser reads them: the strings of the
/// `TailscaleIPs` array of `Self`, none when `Self` is no object or the
/// member is no array.
pub open spec fn status_ips(doc: Seq<char>) -> Seq<Seq<char>> {
    if json_member_array_kind(doc, "Self"@, "TailscaleIPs"@) == 3 {
        somes(json_member_array_items(doc, "Self"@, "TailscaleIPs"@))
    } else {
        Seq::empty()
    }
}

/// Reads the status from the output of `tailscale status --json`. A
/// document that is not JSON gives a configuration error with the parser's
/// message. A `Self` object without `TailscaleIPs` is left out by the
/// precondition: reading it fails in `serde_json`'s map indexing.
pub fn parse_tailscale_status(json_str: &str) -> (r: Result<TailscaleStatus, VpnError>)
    requires
        json_member_array_kind(json_str@, "Self"@, "TailscaleIPs"@) != 1,
    ensures
        json_parse_error(json_str@) matches Some(e) ==> (r matches Err(VpnError::Config(m)) && m@
            == "Failed to parse status JSON: "@ + e),
        json_parse_error(json_str@) is None ==> (r matches Ok(st) && status_fields_ok(
            st,
            json_top_str(json_str@, "BackendState"@),
            status_ips(json_str@),
            json_nested_str(json_str@, "Self"@, "HostName"@),
            json_nested_str(json_str@, "Self"@, "OS"@),
            json_top_str(json_str@, "Version"@),
        )),
{
    match json_error(json_str) {
        Some(e) => {
            let mut m = String::from_str("Failed to parse status JSON: ");
            m.append(e.as_str());
            return Err(VpnError::Config(m));
        },
        None => {},
    }
    let backend_state = match json_str_at(json_str, "BackendState") {
        Some(s) => s,
        None => String::from_str("Unknown"),
    };
    let mut tailscale_ips: Vec<String> = Vec::new();
    let lookup = json_member_array(json_str, "Self", "TailscaleIPs");
    match lookup {
        JsonArrayLookup::Items(items) => {
            let ghost iv = items@.map_values(|x: Option<String>| opt_view(x));
            let mut i: usize = 0;
            while i < items.len()
                invariant
                    i <= items.len(),
                    iv == items@.map_values(|x: Option<String>| opt_view(x)),
                    views(tailscale_ips@) == somes(iv.take(i as int)),
                decreases items.len() - i,
            {
                proof {
                    assert(iv.take(i + 1).drop_last() =~= iv.take(i as int));
                }
                match &items[i] {
                    Some(ip) => {
                        tailscale_ips.push(ip.clone());
                        assert(views(tailscale_ips@) =~= somes(iv.take(i as int)).push(ip@));
                    },
                    None => {},
                }
                i = i + 1;
            }
            assert(iv.take(items.len() as int) =~= iv);
            assert(lookup_kind(JsonArrayLookup::Items(items)) == 3);
            assert(iv == json_member_array_items(json_str@, "Self"@, "TailscaleIPs"@));
        },
        _ => {
            assert(views(tailscale_ips@) =~= Seq::<Seq<char>>::empty());
        },
    }
    assert(views(tailscale_ips@) == status_ips(json_str@));
    let hostname = match json_nested_str_at(json_str, "Self", "HostName") {
        Some(s) => s,
        None => String::from_str("unknown"),
    };
    let os = match json_nested_str_at(json_str, "Self", "OS") {
        Some(s) => s,
        None => String::from_str("unknown"),
    };
    let version = match json_str_at(json_str, "Version") {
        Some(s) => s,
        None => String::from_str("unknown"),
    };
    let health: Vec<String> = Vec::new();
    let endpoints: Vec<String> = Vec::new();
    let st = TailscaleStatus {
        backend_state,
        health,
        magicsock: MagicsockStatus { derp: String::from_str("unknown"), endpoints },
        tailscale_ips,
        hostname,
        os,
        version,
    };
    Ok(st)
}

/// Reads the status as `parse_tailscale_status` does, or returns `None` for a
/// document whose `Self` object has no `TailscaleIPs`, which that parser
/// cannot read.
pub fn parse_tailscale_status_checked(json_str: &str) -> (r: Option<Result<TailscaleStatus, VpnError>>)
    ensures
        json_member_array_kind(json_str@, "Self"@, "TailscaleIPs"@) == 1 <==> r is None,
        r matches Some(res) ==> {
            &&& json_parse_error(json_str@) matches Some(e) ==> (res matches Err(VpnError::Config(m))
                && m@ == "Failed to parse status JSON: "@ + e)
            &&& json_parse_error(json_str@) is None ==> (res matches Ok(st) && status_fields_ok(
                st,
                json_top_str(json_str@, "BackendState"@),
                status_ips(json_str@),
                json_nested_str(json_str@, "Self"@, "HostName"@),
                json_nested_str(json_str@, "Self"@, "OS"@),
                json_top_str(json_str@, "Version"@),
            ))
        },
{
    match json_member_array(json_str, "Self", "TailscaleIPs") {
        JsonArrayLookup::MissingMember => None,
        _ => Some(parse_tailscale_status(json_str)),
    }
}

/// The arguments of the `tailscale` invocation that brings the node up with
/// the auth key.
pub open spec fn auth_args(config: TailscaleConfig) -> Seq<Seq<char>> {
    seq!["up"@, "--auth-key"@, config.auth_key@]
}

/// The arguments of `tailscale up` with the auth key.
pub fn auth_arguments(config: &TailscaleConfig) -> (v: Vec<String>)
    ensures
        views(v@) == auth_args(*config),
{
    let v = vec![String::from_str("up"), String::from_str("--auth-key"), config.auth_key.clone()];
    assert(views(v@) =~= auth_args(*config));
    v
}

/// The arguments of each `tailscale set` invocation that configures the
/// node: the host name; the routes joined with commas, when there are any;
/// DNS acceptance, when it is wanted.
pub open spec fn node_args(config: TailscaleConfig) -> Seq<Seq<Seq<char>>> {
    let host = seq!["set"@, "--hostname"@, config.hostname@];
    let routes = seq!["set"@, "--advertise-routes"@, joined(views(config.advertise_routes@), ","@)];
    let dns = seq!["set"@, "--accept-dns"@];
    seq![host] + (if config.advertise_routes@.len() > 0 {
        seq![routes]
    } else {
        Seq::empty()
    }) + (if config.accept_dns {
        seq![dns]
    } else {
        Seq::empty()
    })
}

/// The argument lists of the invocations that configure the node, in order.
pub fn node_configuration_arguments(config: &TailscaleConfig) -> (v: Vec<Vec<String>>)
    ensures
        v@.map_values(|c: Vec<String>| views(c@)) == node_args(*config),
{
    let mut v: Vec<Vec<String>> = Vec::new();
    let host = vec![String::from_str("set"), String::from_str("--hostname"), config.hostname.clone()];
    assert(views(host@) =~= seq!["set"@, "--hostname"@, config.hostname@]);
    v.push(host);
    let ghost expected_host: Seq<Seq<Seq<char>>> = seq![seq!["set"@, "--hostname"@, config.hostname@]];
    assert(v@.map_values(|c: Vec<String>| views(c@)) =~= expected_host);
    if config.advertise_routes.len() > 0 {
        let routes = vec![
            String::from_str("set"),
            String::from_str("--advertise-routes"),
            join(&config.advertise_routes, ","),
        ];
        assert(views(routes@) =~= seq![
            "set"@,
            "--advertise-routes"@,
            joined(views(config.advertise_routes@), ","@),
        ]);
        let ghost before = v@.map_values(|c: Vec<String>| views(c@));
        v.push(routes);
        assert(v@.map_values(|c: Vec<String>| views(c@)) =~= before.push(views(routes@)));
    }
    if config.accept_dns {
        let dns = vec![String::from_str("set"), String::from_str("--accept-dns")];
        assert(views(dns@) =~= seq!["set"@, "--accept-dns"@]);
        let ghost before = v@.map_values(|c: Vec<String>| views(c@));
        v.push(dns);
        assert(v@.map_values(|c: Vec<String>| views(c@)) =~= before.push(views(dns@)));
    }
    assert(v@.map_values(|c: Vec<String>| views(c@)) =~= node_args(*config));
    v
}

/// The connection to the Tailscale network.
pub struct VpnManager {
    config: TailscaleConfig,
    connected: bool,
    tailscale_ip: Option<String>,
    last_status: Option<TailscaleStatus>,
}

impl VpnManager {
    pub closed spec fn spec_connected(&self) -> bool {
        self.connected
    }

    pub closed spec fn spec_ip(&self) -> Option<Seq<char>> {
        opt_view(self.tailscale_ip)
    }

    pub closed spec fn spec_status(&self) -> Option<TailscaleStatus> {
        self.last_status
    }

    pub closed spec fn spec_config(&self) -> TailscaleConfig {
        self.config
    }

    /// The manager is connected exactly when it has an address.
    pub closed spec fn wf(&self) -> bool {
        self.connected == (self.tailscale_ip is Some)
    }

    /// A manager for `config`, not connected.
    pub fn new(config: TailscaleConfig) -> (m: Self)
        ensures
            m.wf(),
            !m.spec_connected(),
            m.spec_ip() is None,
            m.spec_status() is None,
            m.spec_config() == config,
    {
        VpnManager { config, connected: false, tailscale_ip: None, last_status: None }
    }

    /// Takes a status reading: when the backend is `Running` and the node
    /// has an address, the first address becomes the connection's address,
    /// the status is kept, and the address is returned. Otherwise nothing
    /// changes.
    pub fn accept_status(&mut self, status: TailscaleStatus) -> (r: Option<String>)
        ensures
            (status.backend_state@ == "Running"@ && status.tailscale_ips@.len() > 0) ==> {
                &&& r matches Some(ip) && ip@ == status.tailscale_ips@[0]@
                &&& final(self).spec_connected()
                &&& final(self).spec_ip() == Some(status.tailscale_ips@[0]@)
                &&& final(self).spec_status() == Some(status)
            },
            !(status.backend_state@ == "Running"@ && status.tailscale_ips@.len() > 0) ==> {
                &&& r is None
                &&& final(self).spec_connected() == old(self).spec_connected()
                &&& final(self).spec_ip() == old(self).spec_ip()
                &&& final(self).spec_status() == old(self).spec_status()
            },
            final(self).spec_config() == old(self).spec_config(),
            old(self).wf() ==> final(self).wf(),
    {
        if status.backend_state == String::from_str("Running") && status.tailscale_ips.len() > 0 {
            let ip = status.tailscale_ips[0].clone();
            self.tailscale_ip = Some(ip.clone());
            self.connected = true;
            self.last_status = Some(status);
            Some(ip)
        } else {
            None
        }
    }

    /// Forgets the connection after the node went down.
    pub fn mark_disconnected(&mut self)
        ensures
            final(self).wf(),
            !final(self).spec_connected(),
            final(self).spec_ip() is None,
            final(self).spec_status() is None,
            final(self).spec_config() == old(self).spec_config(),
    {
        self.connected = false;
        self.tailscale_ip = None;
        self.last_status = None;
    }

    /// Keeps a fresh status reading.
    pub fn set_status(&mut self, status: TailscaleStatus)
        ensures
            final(self).spec_status() == Some(status),
            final(self).spec_connected() == old(self).spec_connected(),
            final(self).spec_ip() == old(self).spec_ip(),
            final(self).spec_config() == old(self).spec_config(),
            old(self).wf() ==> final(self).wf(),
    {
        self.last_status = Some(status);
    }

    pub fn is_connected(&self) -> (b: bool)
        ensures
            b == self.spec_connected(),
    {
        self.connected
    }

    pub fn get_ip(&self) -> (ip: Option<&String>)
        ensures
            match ip {
                Some(s) => self.spec_ip() == Some(s@),
                None => self.spec_ip() is None,
            },
    {
        self.tailscale_ip.as_ref()
    }

    pub fn get_status_snapshot(&self) -> (s: Option<&TailscaleStatus>)
        ensures
            match s {
                Some(st) => self.spec_status() == Some(*st),
                None => self.spec_status() is None,
            },
    {
        self.last_status.as_ref()
    }

    pub fn get_config(&self) -> (c: &TailscaleConfig)
        ensures
            *c == self.spec_config(),
    {
        &self.config
    }
}

/// A manager made by `new` and changed only by its methods is connected
/// exactly when it has an address.
pub proof fn lemma_connected_iff_address(m: VpnManager)
    requires
        m.wf(),
    ensures
        m.spec_connected() == (m.spec_ip() is Some),
{
}

} // verus!

//! The game-stream host: its clients, the emulator window it streams, and
//! its answers to Moonlight's requests.

use crate::error::error_with_message;
use vstd::prelude::*;
use vstd::string::*;

verus! {

/// Settings of the stream; bitrates in kbit/s.
#[derive(Debug, Clone)]
pub struct StreamConfig {
    /// `nvenc`, `vaapi` or `software`.
    pub encoder: String,
    pub bitrate: u32,
    pub width: u32,
    pub height: u32,
    pub fps: u32,
    pub audio_bitrate: u32,
}

impl Default for StreamConfig {
    /// NVENC at 15 Mbit/s, 1080p at 60 frames per second, 128 kbit/s audio.
    fn default() -> (c: Self)
        ensures
            c.encoder@ == "nvenc"@,
            c.bitrate == 15000,
            c.width == 1920,
            c.height == 1080,
            c.fps == 60,
            c.audio_bitrate == 128,
    {
        StreamConfig {
            encoder: String::from_str("nvenc"),
            bitrate: 15000,
            width: 1920,
            height: 1080,
            fps: 60,
            audio_bitrate: 128,
        }
    }
}

/// A client of the host; it connected at `connected_at`, seconds since 1970
/// UTC.
#[derive(Debug, Clone)]
pub struct ClientInfo {
    pub id: String,
    pub name: String,
    pub address: String,
    pub capabilities: Vec<String>,
    pub connected_at: i64,
}

/// Figures of the stream.
#[derive(Debug, Clone, Copy, PartialEq, Eq)]
pub struct StreamStats {
    pub active_clients: u32,
    pub current_bitrate: u32,
    pub frames_encoded: u64,
    pub frames_dropped: u64,
    pub average_latency_ms: u32,
    pub network_bytes_sent: u64,
}

/// Whether `caps` holds `cap`.
pub open spec fn has_capability(caps: Seq<String>, cap: Seq<char>) -> bool {
    exists|i: int| 0 <= i < caps.len() && #[trigger] caps[i]@ == cap
}

/// Whether a client can take the stream: it decodes H.264 and speaks the
/// GameStream protocol.
pub open spec fn capable(caps: Seq<String>) -> bool {
    has_capability(caps, "h264_decode"@) && has_capability(caps, "gamestream_protocol"@)
}

fn holds(caps: &Vec<String>, cap: &str) -> (b: bool)
    ensures
        b == has_capability(caps@, cap@),
{
    let wanted = String::from_str(cap);
    let mut i: usize = 0;
    while i < caps.len()
        invariant
            i <= caps@.len(),
            wanted@ == cap@,
            forall|j: int| 0 <= j < i ==> #[trigger] caps@[j]@ != cap@,
        decreases caps@.len() - i,
    {
        if caps[i] == wanted {
            return true;
        }
        i = i + 1;
    }
    false
}

/// Whether a client announces the capabilities the stream needs.
pub fn validate_client_capabilities(capabilities: &Vec<String>) -> (b: bool)
    ensures
        b == capable(capabilities@),
{
    holds(capabilities, "h264_decode") && holds(capabilities, "gamestream_protocol")
}

/// No two entries share a key.
pub open spec fn unique_keys(entries: Seq<(String, ClientInfo)>) -> bool {
    forall|i: int, j: int|
        0 <= i < j < entries.len() ==> #[trigger] entries[i].0@ != #[trigger] entries[j].0@
}

/// Whether `entries` holds key `k`.
pub open spec fn has_key(entries: Seq<(String, ClientInfo)>, k: Seq<char>) -> bool {
    exists|i: int| 0 <= i < entries.len() && #[trigger] entries[i].0@ == k
}

/// Whether `after` is `before` with the client under `k` replaced by
/// `client`, or with it appended where `k` was not yet present.
pub open spec fn client_recorded(
    before: Seq<(String, ClientInfo)>,
    after: Seq<(String, ClientInfo)>,
    k: Seq<char>,
    client: ClientInfo,
) -> bool {
    if has_key(before, k) {
        exists|i: int|
            0 <= i < before.len() && #[trigger] before[i].0@ == k && after == before.update(
                i,
                (before[i].0, client),
            )
    } else {
        &&& after.len() == before.len() + 1
        &&& after.take(before.len() as int) == before
        &&& after.last().0@ == k
        &&& after.last().1 == client
    }
}

/// Whether `after` is `before` without the entry under `k`, or `before`
/// itself where `k` is absent.
pub open spec fn client_removed(before: Seq<(String, ClientInfo)>, after: Seq<(String, ClientInfo)>, k: Seq<char>) -> bool {
    if has_key(before, k) {
        exists|i: int|
            0 <= i < before.len() && #[trigger] before[i].0@ == k && after == before.remove(i)
    } else {
        after == before
    }
}

/// Index of the entry under `k`, if there is one.
fn find_client(entries: &Vec<(String, ClientInfo)>, k: &str) -> (r: Option<usize>)
    ensures
        match r {
            Some(i) => i < entries@.len() && entries@[i as int].0@ == k@,
            None => !has_key(entries@, k@),
        },
{
    let key = String::from_str(k);
    let mut i: usize = 0;
    while i < entries.len()
        invariant
            i <= entries@.len(),
            key@ == k@,
            forall|j: int| 0 <= j < i ==> #[trigger] entries@[j].0@ != k@,
        decreases entries@.len() - i,
    {
        if entries[i].0 == key {
            return Some(i);
        }
        i = i + 1;
    }
    None
}

/// The Moonlight answer listing the host's one application.
pub open spec fn app_list_response_text() -> Seq<char> {
    "<?xml version=\"1.0\" encoding=\"utf-8\"?>\n<root protocol=\"1\" status_code=\"200\">\n    <app>\n        <AppTitle>Dolphin - GameCube/Wii Emulator</AppTitle>\n        <ID>1</ID>\n        <IsRunning>0</IsRunning>\n        <MaxControllers>4</MaxControllers>\n    </app>\n</root>"@
}

fn app_list_response() -> (s: &'static str)
    ensures
        s@ == app_list_response_text(),
{
    "<?xml version=\"1.0\" encoding=\"utf-8\"?>\n<root protocol=\"1\" status_code=\"200\">\n    <app>\n        <AppTitle>Dolphin - GameCube/Wii Emulator</AppTitle>\n        <ID>1</ID>\n        <IsRunning>0</IsRunning>\n        <MaxControllers>4</MaxControllers>\n    </app>\n</root>"
}

/// The Moonlight answer to a launch.
pub open spec fn launch_response_text() -> Seq<char> {
    "<?xml version=\"1.0\" encoding=\"utf-8\"?>\n<root protocol=\"1\" status_code=\"200\">\n    <sessionUrl0>rtsp://192.168.1.100:48010</sessionUrl0>\n</root>"@
}

fn launch_response() -> (s: &'static str)
    ensures
        s@ == launch_response_text(),
{
    "<?xml version=\"1.0\" encoding=\"utf-8\"?>\n<root protocol=\"1\" status_code=\"200\">\n    <sessionUrl0>rtsp://192.168.1.100:48010</sessionUrl0>\n</root>"
}

/// The Moonlight answer to a resume.
pub open spec fn resume_response_text() -> Seq<char> {
    "<?xml version=\"1.0\" encoding=\"utf-8\"?>\n<root protocol=\"1\" status_code=\"200\">\n    <resume>1</resume>\n</root>"@
}

fn resume_response() -> (s: &'static str)
    ensures
        s@ == resume_response_text(),
{
    "<?xml version=\"1.0\" encoding=\"utf-8\"?>\n<root protocol=\"1\" status_code=\"200\">\n    <resume>1</resume>\n</root>"
}

/// The Moonlight answer to a quit.
pub open spec fn quit_response_text() -> Seq<char> {
    "<?xml version=\"1.0\" encoding=\"utf-8\"?>\n<root protocol=\"1\" status_code=\"200\">\n    <resume>0</resume>\n</root>"@
}

fn quit_response() -> (s: &'static str)
    ensures
        s@ == quit_response_text(),
{
    "<?xml version=\"1.0\" encoding=\"utf-8\"?>\n<root protocol=\"1\" status_code=\"200\">\n    <resume>0</resume>\n</root>"
}

/// The host of the game stream.
pub struct DolphinStreamHost {
    config: StreamConfig,
    active_clients: Vec<(String, ClientInfo)>,
    dolphin_window_id: Option<u64>,
    tailscale_ip: String,
}

impl DolphinStreamHost {
    /// The clients, each under its id, in the order they came.
    pub closed spec fn clients(&self) -> Seq<(String, ClientInfo)> {
        self.active_clients@
    }

    /// The streamed window.
    pub closed spec fn window(&self) -> Option<u64> {
        self.dolphin_window_id
    }

    pub closed spec fn spec_config(&self) -> StreamConfig {
        self.config
    }

    pub closed spec fn spec_ip(&self) -> Seq<char> {
        self.tailscale_ip@
    }

    /// No two clients share an id.
    pub closed spec fn wf(&self) -> bool {
        unique_keys(self.active_clients@)
    }

    /// A host for `config` at `tailscale_ip`, with no clients and no window.
    pub fn new(config: StreamConfig, tailscale_ip: String) -> (r: Result<Self, anyhow::Error>)
        ensures
            r matches Ok(h) && {
                &&& h.wf()
                &&& h.clients().len() == 0
                &&& h.window() is None
                &&& h.spec_config() == config
                &&& h.spec_ip() == tailscale_ip@
            },
    {
        Ok(DolphinStreamHost { config, active_clients: Vec::new(), dolphin_window_id: None, tailscale_ip })
    }

    /// Takes a client under `client_id`, replacing one already there, if it
    /// has the capabilities the stream needs; otherwise refuses it and
    /// nothing changes.
    pub fn add_client(&mut self, client_id: &str, client_info: ClientInfo) -> (r: Result<(), anyhow::Error>)
        requires
            old(self).wf(),
        ensures
            final(self).wf(),
            final(self).window() == old(self).window(),
            final(self).spec_config() == old(self).spec_config(),
            capable(client_info.capabilities@) ==> r is Ok && client_recorded(
                old(self).clients(),
                final(self).clients(),
                client_id@,
                client_info,
            ),
            !capable(client_info.capabilities@) ==> r is Err && final(self).clients() == old(self).clients(),
    {
        if !validate_client_capabilities(&client_info.capabilities) {
            let mut message = String::from_str("Client ");
            message.append(client_id);
            message.append(" does not support required capabilities");
            return Err(error_with_message(message));
        }
        match find_client(&self.active_clients, client_id) {
            Some(i) => {
                let key = self.active_clients[i].0.clone();
                self.active_clients.set(i, (key, client_info));
                proof {
                    assert(self.clients() =~= old(self).clients().update(
                        i as int,
                        (old(self).clients()[i as int].0, client_info),
                    ));
                    assert forall|a: int, b: int|
                        0 <= a < b < self.clients().len() implies #[trigger] self.clients()[a].0@
                        != #[trigger] self.clients()[b].0@ by {
                        assert(self.clients()[a].0@ == old(self).clients()[a].0@);
                        assert(self.clients()[b].0@ == old(self).clients()[b].0@);
                    }
                }
            },
            None => {
                self.active_clients.push((String::from_str(client_id), client_info));
                proof {
                    assert forall|a: int, b: int|
                        0 <= a < b < self.clients().len() implies #[trigger] self.clients()[a].0@
                        != #[trigger] self.clients()[b].0@ by {
                        if b == self.clients().len() - 1 {
                            assert(old(self).clients()[a].0@ != client_id@);
                        } else {
                            assert(self.clients()[a] == old(self).clients()[a]);
                            assert(self.clients()[b] == old(self).clients()[b]);
                        }
                    }
                    assert(self.clients().take(old(self).clients().len() as int) =~= old(self).clients());
                }
            },
        }
        Ok(())
    }

    /// Drops the client under `client_id`, if there is one.
    pub fn remove_client(&mut self, client_id: &str) -> (r: Result<(), anyhow::Error>)
        requires
            old(self).wf(),
        ensures
            r is Ok,
            final(self).wf(),
            client_removed(old(self).clients(), final(self).clients(), client_id@),
            final(self).window() == old(self).window(),
            final(self).spec_config() == old(self).spec_config(),
    {
        match find_client(&self.active_clients, client_id) {
            Some(i) => {
                let _removed = self.active_clients.remove(i);
                proof {
                    assert forall|a: int, b: int|
                        0 <= a < b < self.clients().len() implies #[trigger] self.clients()[a].0@
                        != #[trigger] self.clients()[b].0@ by {
                        let oa = if a < i { a } else { a + 1 };
                        let ob = if b < i { b } else { b + 1 };
                        assert(self.clients()[a] == old(self).clients()[oa]);
                        assert(self.clients()[b] == old(self).clients()[ob]);
                    }
                }
            },
            None => {},
        }
        Ok(())
    }

    /// Streams the emulator window `dolphin_window_id`.
    pub fn start_game_stream(&mut self, dolphin_window_id: u64) -> (r: Result<(), anyhow::Error>)
        ensures
            r is Ok,
            final(self).window() == Some(dolphin_window_id),
            final(self).clients() == old(self).clients(),
            final(self).spec_config() == old(self).spec_config(),
            final(self).wf() == old(self).wf(),
    {
        self.dolphin_window_id = Some(dolphin_window_id);
        Ok(())
    }

    /// Stops streaming the window.
    pub fn stop_game_stream(&mut self) -> (r: Result<(), anyhow::Error>)
        ensures
            r is Ok,
            final(self).window() is None,
            final(self).clients() == old(self).clients(),
            final(self).spec_config() == old(self).spec_config(),
            final(self).wf() == old(self).wf(),
    {
        self.dolphin_window_id = None;
        Ok(())
    }

    /// The figures of the stream: the number of clients (cut to 32 bits),
    /// the configured bitrate, and fixed stand-ins for the rest.
    pub fn get_stream_stats(&self) -> (s: StreamStats)
        ensures
            s == (StreamStats {
                active_clients: self.clients().len() as u32,
                current_bitrate: self.spec_config().bitrate,
                frames_encoded: 0,
                frames_dropped: 0,
                average_latency_ms: 25,
                network_bytes_sent: 0,
            }),
    {
        StreamStats {
            active_clients: self.active_clients.len() as u32,
            current_bitrate: self.config.bitrate,
            frames_encoded: 0,
            frames_dropped: 0,
            average_latency_ms: 25,
            network_bytes_sent: 0,
        }
    }

    /// Whether a window is streamed to at least one client.
    pub fn is_streaming(&self) -> (b: bool)
        ensures
            b == (self.window() is Some && self.clients().len() > 0),
    {
        self.dolphin_window_id.is_some() && self.active_clients.len() > 0
    }

    /// The clients, in the order they came.
    pub fn get_active_clients(&self) -> (v: Vec<&ClientInfo>)
        ensures
            v@.len() == self.clients().len(),
            forall|i: int| 0 <= i < v@.len() ==> *#[trigger] v@[i] == self.clients()[i].1,
    {
        let mut v: Vec<&ClientInfo> = Vec::new();
        let mut i: usize = 0;
        while i < self.active_clients.len()
            invariant
                i <= self.active_clients@.len(),
                v@.len() == i,
                forall|j: int| 0 <= j < i ==> *#[trigger] v@[j] == self.active_clients@[j].1,
            decreases self.active_clients@.len() - i,
        {
            v.push(&self.active_clients[i].1);
            i = i + 1;
        }
        v
    }

    /// Answers a Moonlight request: the application list, a launch, a
    /// resume, or a quit (which stops the stream first); any other request
    /// type is refused.
    pub fn handle_moonlight_request(&mut self, request_type: &str, params: &Vec<(String, String)>) -> (r: Result<String, anyhow::Error>)
        ensures
            request_type@ == "applist"@ ==> (r matches Ok(s) && s@ == app_list_response_text()),
            request_type@ == "launch"@ ==> (r matches Ok(s) && s@ == launch_response_text()),
            request_type@ == "resume"@ ==> (r matches Ok(s) && s@ == resume_response_text()),
            request_type@ == "quit"@ ==> (r matches Ok(s) && s@ == quit_response_text()
                && final(self).window() is None),
            request_type@ != "quit"@ ==> final(self).window() == old(self).window(),
            !(request_type@ == "applist"@ || request_type@ == "launch"@ || request_type@
                == "resume"@ || request_type@ == "quit"@) ==> r is Err,
            final(self).clients() == old(self).clients(),
            final(self).spec_config() == old(self).spec_config(),
            final(self).wf() == old(self).wf(),
    {
        proof {
            reveal_strlit("applist");
            reveal_strlit("launch");
            reveal_strlit("resume");
            reveal_strlit("quit");
            assert("launch"@.len() != "applist"@.len());
            assert("resume"@.len() != "applist"@.len());
            assert("quit"@.len() != "applist"@.len());
            assert("resume"@[0] != "launch"@[0]);
            assert("quit"@.len() != "launch"@.len());
            assert("quit"@.len() != "resume"@.len());
        }
        let t = String::from_str(request_type);
        if t == String::from_str("applist") {
            Ok(String::from_str(app_list_response()))
        } else if t == String::from_str("launch") {
            Ok(String::from_str(launch_response()))
        } else if t == String::from_str("resume") {
            Ok(String::from_str(resume_response()))
        } else if t == String::from_str("quit") {
            let _stopped = self.stop_game_stream();
            Ok(String::from_str(quit_response()))
        } else {
            let mut message = String::from_str("Unknown request type: ");
            message.append(request_type);
            Err(error_with_message(message))
        }
    }
}

} // verus!

//! Pairing of clients with the server by a short PIN, and the session
//! tokens that paired clients present.

use crate::clock::unix_now_secs;
use crate::text::{append_decimal, decimal, digit, digit_char, push_char};
use vstd::hash_map::StringHashMap;
use vstd::prelude::*;
use vstd::string::*;

verus! {

/// A client's request to pair.
#[derive(Debug, Clone)]
pub struct PairingRequest {
    pub client_id: String,
    pub client_name: String,
    pub capabilities: Vec<String>,
}

/// The server's answer to a pairing attempt.
#[derive(Debug, Clone)]
pub struct PairingResponse {
    pub success: bool,
    pub session_token: Option<String>,
    pub server_cert: Option<String>,
    pub error: Option<String>,
}

/// The PIN shown for time `t`: the last four decimal digits of `t`, with
/// leading zeros.
pub open spec fn pin_text(t: nat) -> Seq<char> {
    seq![
        digit_char((t / 1000) % 10),
        digit_char((t / 100) % 10),
        digit_char((t / 10) % 10),
        digit_char(t % 10),
    ]
}

/// The session token issued at time `t`.
pub open spec fn token_text(t: nat) -> Seq<char> {
    "session_"@ + decimal(t)
}

/// Whether the paired clients hold `token` for `client_id`.
pub open spec fn verifies(paired: Map<Seq<char>, Seq<char>>, client_id: Seq<char>, token: Seq<char>) -> bool {
    paired.contains_key(client_id) && paired[client_id] == token
}

/// The views of the stored tokens.
pub open spec fn token_views(m: Map<Seq<char>, String>) -> Map<Seq<char>, Seq<char>> {
    m.map_values(|t: String| t@)
}

/// Pending pairings by PIN and the session tokens of paired clients.
pub struct PairingManager {
    paired_clients: StringHashMap<String>,
    pending_pairs: StringHashMap<PairingRequest>,
}

impl PairingManager {
    /// Tokens of paired clients, by client id.
    pub closed spec fn paired(&self) -> Map<Seq<char>, Seq<char>> {
        token_views(self.paired_clients@)
    }

    /// Requests waiting for their PIN, by PIN.
    pub closed spec fn pending(&self) -> Map<Seq<char>, PairingRequest> {
        self.pending_pairs@
    }

    /// No client paired and nothing pending.
    pub fn new() -> (m: Self)
        ensures
            m.paired() == Map::<Seq<char>, Seq<char>>::empty(),
            m.pending() == Map::<Seq<char>, PairingRequest>::empty(),
    {
        let m = PairingManager { paired_clients: StringHashMap::new(), pending_pairs: StringHashMap::new() };
        assert(m.paired() =~= Map::<Seq<char>, Seq<char>>::empty());
        m
    }

    /// Files `request` under a fresh PIN and returns the PIN. A request
    /// already filed under the same PIN is replaced.
    pub fn initiate_pairing(&mut self, request: PairingRequest) -> (r: Result<String, anyhow::Error>)
        ensures
            r matches Ok(pin) && exists|t: nat| pin@ == #[trigger] pin_text(t),
            r matches Ok(pin) && final(self).pending() == old(self).pending().insert(pin@, request),
            final(self).paired() == old(self).paired(),
    {
        let pairing_pin = self.generate_pin();
        self.pending_pairs.insert(pairing_pin.clone(), request);
        Ok(pairing_pin)
    }

    /// Completes the pairing filed under `pin`: the request leaves the
    /// pending list, its client is paired with a new session token, and the
    /// response carries the token and the server certificate. For an unknown
    /// PIN the response is a failure and nothing changes.
    pub fn complete_pairing(&mut self, pin: &str) -> (r: Result<PairingResponse, anyhow::Error>)
        ensures
            old(self).pending().contains_key(pin@) ==> {
                &&& r matches Ok(resp) && {
                    &&& resp.success
                    &&& resp.session_token matches Some(token) && {
                        &&& exists|t: nat| token@ == #[trigger] token_text(t)
                        &&& final(self).paired() == old(self).paired().insert(
                            old(self).pending()[pin@].client_id@,
                            token@,
                        )
                    }
                    &&& resp.server_cert matches Some(cert) && cert@ == "mock_cert"@
                    &&& resp.error is None
                }
                &&& final(self).pending() == old(self).pending().remove(pin@)
            },
            !old(self).pending().contains_key(pin@) ==> {
                &&& r matches Ok(resp) && {
                    &&& !resp.success
                    &&& resp.session_token is None
                    &&& resp.server_cert is None
                    &&& resp.error matches Some(e) && e@ == "Invalid or expired PIN"@
                }
                &&& final(self).pending() == old(self).pending()
                &&& final(self).paired() == old(self).paired()
            },
    {
        let client_id = match self.pending_pairs.get(pin) {
            Some(request) => Some(request.client_id.clone()),
            None => None,
        };
        match client_id {
            Some(client_id) => {
                self.pending_pairs.remove(pin);
                let session_token = self.generate_session_token();
                self.paired_clients.insert(client_id, session_token.clone());
                proof {
                    assert(token_views(self.paired_clients@) =~= token_views(
                        old(self).paired_clients@,
                    ).insert(client_id@, session_token@));
                }
                Ok(
                    PairingResponse {
                        success: true,
                        session_token: Some(session_token),
                        server_cert: Some(String::from_str("mock_cert")),
                        error: None,
                    },
                )
            },
            None => Ok(
                PairingResponse {
                    success: false,
                    session_token: None,
                    server_cert: None,
                    error: Some(String::from_str("Invalid or expired PIN")),
                },
            ),
        }
    }

    /// Whether `client_id` is paired and holds `token`.
    pub fn verify_client(&self, client_id: &str, token: &str) -> (b: bool)
        ensures
            b == verifies(self.paired(), client_id@, token@),
    {
        match self.paired_clients.get(client_id) {
            Some(stored_token) => {
                let given = String::from_str(token);
                *stored_token == given
            },
            None => false,
        }
    }

    /// A four-digit PIN from the clock.
    pub fn generate_pin(&self) -> (pin: String)
        ensures
            exists|t: nat| pin@ == #[trigger] pin_text(t),
    {
        let pin = pin_for_time(unix_now_secs());
        pin
    }

    /// A session token from the clock.
    pub fn generate_session_token(&self) -> (token: String)
        ensures
            exists|t: nat| token@ == #[trigger] token_text(t),
    {
        token_for_time(unix_now_secs())
    }
}

impl Default for PairingManager {
    fn default() -> (m: Self)
        ensures
            m.paired() == Map::<Seq<char>, Seq<char>>::empty(),
            m.pending() == Map::<Seq<char>, PairingRequest>::empty(),
    {
        Self::new()
    }
}

/// The PIN for time `t` (seconds since 1970): `t` modulo 10000, as four
/// digits.
pub fn pin_for_time(t: u64) -> (pin: String)
    ensures
        pin@ == pin_text(t as nat),
{
    let mut pin = String::new();
    push_char(&mut pin, digit((t / 1000) % 10));
    push_char(&mut pin, digit((t / 100) % 10));
    push_char(&mut pin, digit((t / 10) % 10));
    push_char(&mut pin, digit(t % 10));
    assert(pin@ =~= pin_text(t as nat));
    pin
}

/// The session token for time `t`: `session_` and the decimal time.
pub fn token_for_time(t: u64) -> (token: String)
    ensures
        token@ == token_text(t as nat),
{
    let mut token = String::from_str("session_");
    append_decimal(&mut token, t);
    token
}

/// The law of pairing: once a client has been paired with a token, that
/// client and token verify, and no other client's verification changes.
pub proof fn lemma_paired_client_verifies(
    paired: Map<Seq<char>, Seq<char>>,
    client_id: Seq<char>,
    token: Seq<char>,
    other: Seq<char>,
    other_token: Seq<char>,
)
    ensures
        verifies(paired.insert(client_id, token), client_id, token),
        other != client_id ==> (verifies(paired.insert(client_id, token), other, other_token)
            == verifies(paired, other, other_token)),
{
}

} // verus!

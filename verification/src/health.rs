//! Health and readiness reporting of the server.

use crate::clock::unix_now_secs;
use vstd::prelude::*;
use vstd::string::*;

verus! {

/// Condition of the service or of one of its parts.
#[derive(Debug, Clone, Copy, PartialEq, Eq)]
pub enum ServiceStatus {
    Healthy,
    Degraded,
    Unhealthy,
}

/// The latest result of one named health check.
#[derive(Debug, Clone)]
pub struct HealthCheck {
    pub status: ServiceStatus,
    pub message: String,
    /// Seconds since 1970.
    pub last_updated: u64,
    pub duration_ms: u64,
}

/// The health of the service: the overall status and every check by name.
#[derive(Debug, Clone)]
pub struct HealthStatus {
    pub status: ServiceStatus,
    pub timestamp: u64,
    pub version: String,
    pub uptime_seconds: u64,
    pub checks: Vec<(String, HealthCheck)>,
}

/// Whether one precondition of serving holds.
#[derive(Debug, Clone)]
pub struct ReadinessCheck {
    pub name: String,
    pub ready: bool,
    pub message: String,
}

/// Whether the service can take traffic, with the checks it rests on.
#[derive(Debug, Clone)]
pub struct ReadinessStatus {
    pub ready: bool,
    pub timestamp: u64,
    pub checks: Vec<ReadinessCheck>,
}

/// The overall status of a set of checks: unhealthy if any check is,
/// otherwise degraded if any check is, otherwise (no checks included)
/// healthy.
pub open spec fn overall_status(statuses: Seq<ServiceStatus>) -> ServiceStatus {
    if exists|i: int| 0 <= i < statuses.len() && statuses[i] == ServiceStatus::Unhealthy {
        ServiceStatus::Unhealthy
    } else if exists|i: int| 0 <= i < statuses.len() && statuses[i] == ServiceStatus::Degraded {
        ServiceStatus::Degraded
    } else {
        ServiceStatus::Healthy
    }
}

/// The statuses of named checks.
pub open spec fn statuses_of(checks: Seq<(String, HealthCheck)>) -> Seq<ServiceStatus> {
    checks.map_values(|c: (String, HealthCheck)| c.1.status)
}

/// The names of named checks.
pub open spec fn names_of(checks: Seq<(String, HealthCheck)>) -> Seq<Seq<char>> {
    checks.map_values(|c: (String, HealthCheck)| c.0@)
}

/// No two checks share a name.
pub open spec fn unique_names(checks: Seq<(String, HealthCheck)>) -> bool {
    forall|i: int, j: int|
        0 <= i < j < checks.len() ==> #[trigger] checks[i].0@ != #[trigger] checks[j].0@
}

/// The overall status of the named checks.
pub fn determine_overall_status(checks: &Vec<(String, HealthCheck)>) -> (s: ServiceStatus)
    ensures
        s == overall_status(statuses_of(checks@)),
{
    let ghost st = statuses_of(checks@);
    if checks.len() == 0 {
        return ServiceStatus::Healthy;
    }
    let mut has_unhealthy = false;
    let mut has_degraded = false;
    let mut i: usize = 0;
    while i < checks.len()
        invariant
            i <= checks.len(),
            st == statuses_of(checks@),
            has_unhealthy <==> exists|k: int| 0 <= k < i && st[k] == ServiceStatus::Unhealthy,
            has_degraded <==> exists|k: int| 0 <= k < i && st[k] == ServiceStatus::Degraded,
        decreases checks.len() - i,
    {
        match checks[i].1.status {
            ServiceStatus::Healthy => {},
            ServiceStatus::Unhealthy => {
                has_unhealthy = true;
            },
            ServiceStatus::Degraded => {
                has_degraded = true;
            },
        }
        assert(st[i as int] == checks@[i as int].1.status);
        i = i + 1;
    }
    if has_unhealthy {
        ServiceStatus::Unhealthy
    } else if has_degraded {
        ServiceStatus::Degraded
    } else {
        ServiceStatus::Healthy
    }
}

/// A readiness report: ready exactly when every check is.
pub fn readiness_from(checks: Vec<ReadinessCheck>, timestamp: u64) -> (r: ReadinessStatus)
    ensures
        r.ready == (forall|i: int| 0 <= i < checks@.len() ==> #[trigger] checks@[i].ready),
        r.timestamp == timestamp,
        r.checks@ == checks@,
{
    let mut ready = true;
    let mut i: usize = 0;
    while i < checks.len()
        invariant
            i <= checks.len(),
            ready == (forall|k: int| 0 <= k < i ==> #[trigger] checks@[k].ready),
        decreases checks.len() - i,
    {
        ready = ready && checks[i].ready;
        i = i + 1;
    }
    ReadinessStatus { ready, timestamp, checks }
}

/// A readiness check with the given name, state and message.
fn readiness_check(name: &str, ready: bool, message: &str) -> (c: ReadinessCheck)
    ensures
        c.name@ == name@,
        c.ready == ready,
        c.message@ == message@,
{
    ReadinessCheck { name: String::from_str(name), ready, message: String::from_str(message) }
}

/// The check of the emulator binary, from whether it was found.
pub fn dolphin_check(found: bool) -> (c: ReadinessCheck)
    ensures
        c.name@ == "dolphin_emulator"@,
        c.ready == found,
        c.message@ == if found {
            "Dolphin emulator binary is available"@
        } else {
            "Dolphin emulator binary not found"@
        },
{
    if found {
        readiness_check("dolphin_emulator", true, "Dolphin emulator binary is available")
    } else {
        readiness_check("dolphin_emulator", false, "Dolphin emulator binary not found")
    }
}

/// The check of the streaming service, which is always ready.
pub fn streaming_service_check() -> (c: ReadinessCheck)
    ensures
        c.name@ == "streaming_service"@,
        c.ready,
        c.message@ == "Streaming service is ready"@,
{
    readiness_check("streaming_service", true, "Streaming service is ready")
}

/// The check of the cache, which is always ready.
pub fn redis_check() -> (c: ReadinessCheck)
    ensures
        c.name@ == "redis_cache"@,
        c.ready,
        c.message@ == "Redis cache is accessible"@,
{
    readiness_check("redis_cache", true, "Redis cache is accessible")
}

/// A check that passes with `ok_message`, or fails with `failure` and the
/// error's text.
fn probe_check(name: &str, error: Option<String>, ok_message: &str, failure: &str) -> (c: ReadinessCheck)
    ensures
        c.name@ == name@,
        c.ready == error is None,
        c.message@ == match error {
            None => ok_message@,
            Some(e) => failure@ + e@,
        },
{
    match error {
        None => readiness_check(name, true, ok_message),
        Some(e) => {
            let mut m = String::from_str(failure);
            m.append(e.as_str());
            ReadinessCheck { name: String::from_str(name), ready: false, message: m }
        },
    }
}

/// The check of the streaming port, from the error of binding it, if any.
pub fn network_interface_check(bind_error: Option<String>) -> (c: ReadinessCheck)
    ensures
        c.name@ == "network_interface"@,
        c.ready == bind_error is None,
        c.message@ == match bind_error {
            None => "Network interface is available"@,
            Some(e) => "Network interface check failed: "@ + e@,
        },
{
    probe_check(
        "network_interface",
        bind_error,
        "Network interface is available",
        "Network interface check failed: ",
    )
}

/// The check of the data directory, from the error of reading it, if any.
pub fn disk_space_check(error: Option<String>) -> (c: ReadinessCheck)
    ensures
        c.name@ == "disk_space"@,
        c.ready == error is None,
        c.message@ == match error {
            None => "Sufficient disk space available"@,
            Some(e) => "Disk space check failed: "@ + e@,
        },
{
    probe_check("disk_space", error, "Sufficient disk space available", "Disk space check failed: ")
}

/// Whether `after` is `before` with the result of check `name` replaced
/// by `check`, or, where no check of that name was kept, with it appended.
pub open spec fn check_recorded(
    before: Seq<(String, HealthCheck)>,
    after: Seq<(String, HealthCheck)>,
    name: Seq<char>,
    check: HealthCheck,
) -> bool {
    if exists|i: int| 0 <= i < before.len() && #[trigger] before[i].0@ == name {
        exists|i: int|
            0 <= i < before.len() && #[trigger] before[i].0@ == name && after == before.update(
                i,
                (before[i].0, check),
            )
    } else {
        &&& after.len() == before.len() + 1
        &&& after.take(before.len() as int) == before
        &&& after.last().0@ == name
        &&& after.last().1 == check
    }
}

/// Keeps the latest result of each named check.
pub struct HealthMonitor {
    start_time: u64,
    version: String,
    checks: Vec<(String, HealthCheck)>,
}

impl HealthMonitor {
    /// The checks, by name.
    pub closed spec fn spec_checks(&self) -> Seq<(String, HealthCheck)> {
        self.checks@
    }

    /// Start time, seconds since 1970.
    pub closed spec fn spec_start(&self) -> u64 {
        self.start_time
    }

    /// The version reported.
    pub closed spec fn spec_version(&self) -> Seq<char> {
        self.version@
    }

    /// No two checks share a name.
    pub closed spec fn wf(&self) -> bool {
        unique_names(self.checks@)
    }

    /// A monitor started at time `now` with no checks.
    pub fn new_at(version: String, now: u64) -> (m: Self)
        ensures
            m.wf(),
            m.spec_checks().len() == 0,
            m.spec_version() == version@,
            m.spec_start() == now,
    {
        HealthMonitor { start_time: now, version, checks: Vec::new() }
    }

    /// A monitor started now with no checks.
    pub fn new(version: String) -> (m: Self)
        ensures
            m.wf(),
            m.spec_checks().len() == 0,
            m.spec_version() == version@,
    {
        Self::new_at(version, unix_now_secs())
    }

    /// Records the result of check `name` at time `now`, replacing the
    /// previous result of that check.
    pub fn update_check_at(&mut self, name: &str, status: ServiceStatus, message: String, now: u64)
        requires
            old(self).wf(),
        ensures
            final(self).wf(),
            final(self).spec_start() == old(self).spec_start(),
            final(self).spec_version() == old(self).spec_version(),
            check_recorded(
                old(self).spec_checks(),
                final(self).spec_checks(),
                name@,
                HealthCheck { status, message, last_updated: now, duration_ms: 0 },
            ),
    {
        let check = HealthCheck { status, message, last_updated: now, duration_ms: 0 };
        let key = String::from_str(name);
        let mut i: usize = 0;
        while i < self.checks.len()
            invariant
                i <= self.checks.len(),
                self.checks@ == old(self).checks@,
                self.start_time == old(self).start_time,
                self.version == old(self).version,
                unique_names(self.checks@),
                key@ == name@,
                check == (HealthCheck { status, message, last_updated: now, duration_ms: 0 }),
                forall|k: int| 0 <= k < i ==> #[trigger] self.checks@[k].0@ != name@,
            decreases self.checks.len() - i,
        {
            if self.checks[i].0 == key {
                let existing = self.checks[i].0.clone();
                self.checks.set(i, (existing, check));
                proof {
                    assert(self.spec_checks() =~= old(self).spec_checks().update(
                        i as int,
                        (old(self).spec_checks()[i as int].0, check),
                    ));
                    assert(old(self).spec_checks()[i as int].0@ == name@);
                    assert forall|a: int, b: int|
                        0 <= a < b < self.checks@.len() implies #[trigger] self.checks@[a].0@
                        != #[trigger] self.checks@[b].0@ by {
                        assert(self.checks@[a].0@ == old(self).checks@[a].0@);
                        assert(self.checks@[b].0@ == old(self).checks@[b].0@);
                    }
                }
                return;
            }
            i = i + 1;
        }
        self.checks.push((key, check));
        proof {
            assert forall|a: int, b: int|
                0 <= a < b < self.checks@.len() implies #[trigger] self.checks@[a].0@
                != #[trigger] self.checks@[b].0@ by {
                if b == self.checks@.len() - 1 {
                    assert(old(self).checks@[a].0@ != name@);
                } else {
                    assert(self.checks@[a] == old(self).checks@[a]);
                    assert(self.checks@[b] == old(self).checks@[b]);
                }
            }
            assert(self.checks@.take(old(self).checks@.len() as int) =~= old(self).checks@);
        }
    }

    /// Records the result of check `name` now.
    pub fn update_check(&mut self, name: &str, status: ServiceStatus, message: String)
        requires
            old(self).wf(),
        ensures
            final(self).wf(),
            final(self).spec_start() == old(self).spec_start(),
            final(self).spec_version() == old(self).spec_version(),
            exists|now: u64|
                #[trigger] check_recorded(
                    old(self).spec_checks(),
                    final(self).spec_checks(),
                    name@,
                    HealthCheck { status, message, last_updated: now, duration_ms: 0 },
                ),
    {
        let now = unix_now_secs();
        self.update_check_at(name, status, message, now);
    }

    /// The health at time `now`: the overall status of the checks, the
    /// version, the time since the start (zero if the clock went back) and
    /// the checks themselves.
    pub fn health_status_at(&self, now: u64) -> (h: HealthStatus)
        ensures
            h.status == overall_status(statuses_of(self.spec_checks())),
            h.timestamp == now,
            h.version@ == self.spec_version(),
            h.uptime_seconds == if now >= self.spec_start() {
                (now - self.spec_start()) as u64
            } else {
                0
            },
            h.checks@ == self.spec_checks(),
    {
        let status = determine_overall_status(&self.checks);
        let uptime = if now >= self.start_time {
            now - self.start_time
        } else {
            0
        };
        let mut checks: Vec<(String, HealthCheck)> = Vec::new();
        let mut i: usize = 0;
        while i < self.checks.len()
            invariant
                i <= self.checks.len(),
                checks@ == self.checks@.subrange(0, i as int),
            decreases self.checks.len() - i,
        {
            let entry = &self.checks[i];
            let copy = HealthCheck {
                status: entry.1.status,
                message: entry.1.message.clone(),
                last_updated: entry.1.last_updated,
                duration_ms: entry.1.duration_ms,
            };
            checks.push((entry.0.clone(), copy));
            assert(checks@ =~= self.checks@.subrange(0, i + 1));
            i = i + 1;
        }
        assert(checks@ =~= self.checks@);
        HealthStatus { status, timestamp: now, version: self.version.clone(), uptime_seconds: uptime, checks }
    }

    /// The health now.
    pub fn get_health_status(&self) -> (h: HealthStatus)
        ensures
            h.status == overall_status(statuses_of(self.spec_checks())),
            h.version@ == self.spec_version(),
            h.checks@ == self.spec_checks(),
    {
        self.health_status_at(unix_now_secs())
    }
}

/// A degraded or unhealthy check always shows in the overall status, and a
/// service with no checks is healthy.
pub proof fn lemma_worst_status_wins(statuses: Seq<ServiceStatus>, i: int)
    requires
        0 <= i < statuses.len(),
    ensures
        statuses[i] == ServiceStatus::Unhealthy ==> overall_status(statuses)
            == ServiceStatus::Unhealthy,
        statuses[i] == ServiceStatus::Degraded ==> overall_status(statuses)
            != ServiceStatus::Healthy,
        overall_status(Seq::<ServiceStatus>::empty()) == ServiceStatus::Healthy,
{
}

} // verus!

//! The update workflow as an explicit state machine.
//!
//! One run is strictly sequential: load the cache, resolve the current
//! address, stop if it is unchanged, otherwise resolve the zone and record
//! identifiers, perform the update, and finally persist the new address.
//! The machine holds the state between those steps and decides, from each
//! step's outcome, what to do next. The embedding program performs each
//! [`Action`] the machine asks for — a file read, an HTTP call — and hands
//! the outcome back as an [`Event`]; every decision stays here, where it is
//! verified against [`step_rel`], the exact transition relation.

use crate::api::ApiError;
use vstd::pervasive::unreached;
use vstd::prelude::*;

verus! {

/// What a run is configured with: the zone name, the fully-qualified
/// domain to update, and whether a cache of the last reported address is
/// kept at all.
pub struct Config {
    pub zone: String,
    pub domain: String,
    pub cache_enabled: bool,
}

/// What loading the cache found. A missing cache file is not an error: it
/// stands for "never reported anything yet".
pub enum CacheLoad {
    Missing,
    Present { ip: String },
}

/// The failure that ended a run, by category: cache I/O, transport,
/// provider-reported, or missing configuration.
pub enum RunError {
    Io { message: String },
    Network { message: String },
    Api { error: ApiError },
    Config { message: String },
}

/// The diagnostic text of a [`RunError`], variant by variant.
pub open spec fn run_error_text(e: RunError) -> Seq<char> {
    match e {
        RunError::Io { message } => "Cache file error: "@ + message@,
        RunError::Network { message } => "Network error: "@ + message@,
        RunError::Api { error } => crate::api::api_error_text(error),
        RunError::Config { message } => "Configuration error: "@ + message@,
    }
}

impl RunError {
    /// Renders the error for diagnostics.
    pub fn describe(&self) -> (r: String)
        ensures
            r@ == run_error_text(*self),
    {
        match self {
            RunError::Io { message } => {
                let mut r = String::from_str("Cache file error: ");
                r.append(message.as_str());
                r
            },
            RunError::Network { message } => {
                let mut r = String::from_str("Network error: ");
                r.append(message.as_str());
                r
            },
            RunError::Api { error } => error.describe(),
            RunError::Config { message } => {
                let mut r = String::from_str("Configuration error: ");
                r.append(message.as_str());
                r
            },
        }
    }
}

/// The step of the workflow whose outcome the machine is waiting on, with
/// the values carried between steps.
pub enum Phase {
    AwaitCache,
    AwaitIp { cached: Option<String> },
    AwaitZone { current: String },
    AwaitRecord { current: String, zone_id: String },
    AwaitUpdate { current: String, zone_id: String, record_id: String },
    AwaitPersist { current: String },
    Done { result: Result<(), RunError> },
}

/// What the embedding program is asked to do next.
pub enum Action {
    ReadCache,
    FetchCurrentIp,
    LookupZone { zone: String },
    LookupRecord { zone_id: String, domain: String },
    PutUpdate { zone_id: String, record_id: String, domain: String, ip: String },
    WriteCache { ip: String },
    Stop,
}

/// The outcome of an action, handed back to the machine. The `Err` payload
/// of a cache or network outcome is the underlying error's text.
pub enum Event {
    CacheLoaded { outcome: Result<CacheLoad, String> },
    IpResolved { outcome: Result<String, String> },
    ZoneResolved { outcome: Result<String, ApiError> },
    RecordResolved { outcome: Result<String, ApiError> },
    UpdateFinished { outcome: Result<(), ApiError> },
    CacheWritten { outcome: Result<(), String> },
}

/// Which event a phase awaits: each action has exactly one kind of answer,
/// and a finished run accepts none.
pub open spec fn accepts(phase: Phase, event: Event) -> bool {
    match phase {
        Phase::AwaitCache => event is CacheLoaded,
        Phase::AwaitIp { .. } => event is IpResolved,
        Phase::AwaitZone { .. } => event is ZoneResolved,
        Phase::AwaitRecord { .. } => event is RecordResolved,
        Phase::AwaitUpdate { .. } => event is UpdateFinished,
        Phase::AwaitPersist { .. } => event is CacheWritten,
        Phase::Done { .. } => false,
    }
}

/// The machine's exact transition relation: `post` and `action` are what
/// stepping `pre` with `event` yields. Every failure ends the run at once;
/// an unchanged address ends it successfully before any provider call; the
/// cache write is asked for only right after a successful update, and only
/// when caching is enabled.
pub open spec fn step_rel(pre: Machine, event: Event, post: Machine, action: Action) -> bool {
    post.config == pre.config && match (pre.phase, event) {
        (Phase::AwaitCache, Event::CacheLoaded { outcome }) => match outcome {
            Ok(CacheLoad::Missing) => {
                &&& post.phase matches Phase::AwaitIp { cached }
                &&& cached matches Some(c)
                &&& c@ == "0.0.0.0"@
                &&& action is FetchCurrentIp
            },
            Ok(CacheLoad::Present { ip }) => {
                &&& post.phase matches Phase::AwaitIp { cached }
                &&& cached == Some(ip)
                &&& action is FetchCurrentIp
            },
            Err(m) => {
                &&& post.phase matches Phase::Done { result }
                &&& result matches Err(e)
                &&& e matches RunError::Io { message }
                &&& message == m
                &&& action is Stop
            },
        },
        (Phase::AwaitIp { cached }, Event::IpResolved { outcome }) => match outcome {
            Ok(ip) => {
                if cached matches Some(c) && c@ == ip@ {
                    &&& post.phase matches Phase::Done { result }
                    &&& result is Ok
                    &&& action is Stop
                } else {
                    &&& post.phase matches Phase::AwaitZone { current }
                    &&& current == ip
                    &&& action matches Action::LookupZone { zone }
                    &&& zone == pre.config.zone
                }
            },
            Err(m) => {
                &&& post.phase matches Phase::Done { result }
                &&& result matches Err(e)
                &&& e matches RunError::Network { message }
                &&& message == m
                &&& action is Stop
            },
        },
        (Phase::AwaitZone { current }, Event::ZoneResolved { outcome }) => match outcome {
            Ok(zone_id) => {
                &&& post.phase matches Phase::AwaitRecord { current: pc, zone_id: pz }
                &&& pc == current
                &&& pz == zone_id
                &&& action matches Action::LookupRecord { zone_id: az, domain }
                &&& az == zone_id
                &&& domain == pre.config.domain
            },
            Err(e) => {
                &&& post.phase matches Phase::Done { result }
                &&& result matches Err(re)
                &&& re matches RunError::Api { error }
                &&& error == e
                &&& action is Stop
            },
        },
        (Phase::AwaitRecord { current, zone_id }, Event::RecordResolved { outcome }) => match outcome {
            Ok(record_id) => {
                &&& post.phase matches Phase::AwaitUpdate { current: pc, zone_id: pz, record_id: pr }
                &&& pc == current
                &&& pz == zone_id
                &&& pr == record_id
                &&& action matches Action::PutUpdate { zone_id: az, record_id: ar, domain, ip }
                &&& az == zone_id
                &&& ar == record_id
                &&& domain == pre.config.domain
                &&& ip == current
            },
            Err(e) => {
                &&& post.phase matches Phase::Done { result }
                &&& result matches Err(re)
                &&& re matches RunError::Api { error }
                &&& error == e
                &&& action is Stop
            },
        },
        (Phase::AwaitUpdate { current, zone_id, record_id }, Event::UpdateFinished { outcome }) => match outcome {
            Ok(_) => {
                if pre.config.cache_enabled {
                    &&& post.phase matches Phase::AwaitPersist { current: pc }
                    &&& pc == current
                    &&& action matches Action::WriteCache { ip }
                    &&& ip == current
                } else {
                    &&& post.phase matches Phase::Done { result }
                    &&& result is Ok
                    &&& action is Stop
                }
            },
            Err(e) => {
                &&& post.phase matches Phase::Done { result }
                &&& result matches Err(re)
                &&& re matches RunError::Api { error }
                &&& error == e
                &&& action is Stop
            },
        },
        (Phase::AwaitPersist { current }, Event::CacheWritten { outcome }) => match outcome {
            Ok(_) => {
                &&& post.phase matches Phase::Done { result }
                &&& result is Ok
                &&& action is Stop
            },
            Err(m) => {
                &&& post.phase matches Phase::Done { result }
                &&& result matches Err(e)
                &&& e matches RunError::Io { message }
                &&& message == m
                &&& action is Stop
            },
        },
        _ => false,
    }
}

/// One run of the update workflow.
pub struct Machine {
    pub config: Config,
    pub phase: Phase,
}

impl Machine {
    /// Starts a run; the returned action is the first thing to do. With
    /// caching disabled the cache load is skipped and no cached address
    /// exists, so the run will always proceed to the update.
    pub fn new(config: Config) -> (r: (Machine, Action))
        ensures
            r.0.config == config,
            config.cache_enabled ==> r.0.phase is AwaitCache && r.1 is ReadCache,
            !config.cache_enabled ==> (r.0.phase matches Phase::AwaitIp { cached } && cached
                is None) && r.1 is FetchCurrentIp,
    {
        if config.cache_enabled {
            (Machine { config, phase: Phase::AwaitCache }, Action::ReadCache)
        } else {
            (Machine { config, phase: Phase::AwaitIp { cached: None } }, Action::FetchCurrentIp)
        }
    }

    /// Steps the run with the outcome of the action it was waiting on and
    /// returns the successor machine together with the next action.
    pub fn step(self, event: Event) -> (r: (Machine, Action))
        requires
            accepts(self.phase, event),
        ensures
            step_rel(self, event, r.0, r.1),
    {
        let Machine { config, phase } = self;
        match (phase, event) {
            (Phase::AwaitCache, Event::CacheLoaded { outcome }) => match outcome {
                Ok(CacheLoad::Missing) => (
                    Machine {
                        config,
                        phase: Phase::AwaitIp { cached: Some(String::from_str("0.0.0.0")) },
                    },
                    Action::FetchCurrentIp,
                ),
                Ok(CacheLoad::Present { ip }) => (
                    Machine { config, phase: Phase::AwaitIp { cached: Some(ip) } },
                    Action::FetchCurrentIp,
                ),
                Err(m) => (
                    Machine {
                        config,
                        phase: Phase::Done { result: Err(RunError::Io { message: m }) },
                    },
                    Action::Stop,
                ),
            },
            (Phase::AwaitIp { cached }, Event::IpResolved { outcome }) => match outcome {
                Ok(ip) => {
                    let unchanged = match &cached {
                        Some(c) => *c == ip,
                        None => false,
                    };
                    if unchanged {
                        (Machine { config, phase: Phase::Done { result: Ok(()) } }, Action::Stop)
                    } else {
                        let zone = config.zone.clone();
                        (
                            Machine { config, phase: Phase::AwaitZone { current: ip } },
                            Action::LookupZone { zone },
                        )
                    }
                },
                Err(m) => (
                    Machine {
                        config,
                        phase: Phase::Done { result: Err(RunError::Network { message: m }) },
                    },
                    Action::Stop,
                ),
            },
            (Phase::AwaitZone { current }, Event::ZoneResolved { outcome }) => match outcome {
                Ok(zone_id) => {
                    let domain = config.domain.clone();
                    let az = zone_id.clone();
                    (
                        Machine { config, phase: Phase::AwaitRecord { current, zone_id } },
                        Action::LookupRecord { zone_id: az, domain },
                    )
                },
                Err(e) => (
                    Machine {
                        config,
                        phase: Phase::Done { result: Err(RunError::Api { error: e }) },
                    },
                    Action::Stop,
                ),
            },
            (Phase::AwaitRecord { current, zone_id }, Event::RecordResolved { outcome }) => match outcome {
                Ok(record_id) => {
                    let domain = config.domain.clone();
                    let az = zone_id.clone();
                    let ar = record_id.clone();
                    let ip = current.clone();
                    (
                        Machine {
                            config,
                            phase: Phase::AwaitUpdate { current, zone_id, record_id },
                        },
                        Action::PutUpdate { zone_id: az, record_id: ar, domain, ip },
                    )
                },
                Err(e) => (
                    Machine {
                        config,
                        phase: Phase::Done { result: Err(RunError::Api { error: e }) },
                    },
                    Action::Stop,
                ),
            },
            (Phase::AwaitUpdate { current, .. }, Event::UpdateFinished { outcome }) => match outcome {
                Ok(()) => {
                    if config.cache_enabled {
                        let ip = current.clone();
                        (
                            Machine { config, phase: Phase::AwaitPersist { current } },
                            Action::WriteCache { ip },
                        )
                    } else {
                        (Machine { config, phase: Phase::Done { result: Ok(()) } }, Action::Stop)
                    }
                },
                Err(e) => (
                    Machine {
                        config,
                        phase: Phase::Done { result: Err(RunError::Api { error: e }) },
                    },
                    Action::Stop,
                ),
            },
            (Phase::AwaitPersist { .. }, Event::CacheWritten { outcome }) => match outcome {
                Ok(()) => (
                    Machine { config, phase: Phase::Done { result: Ok(()) } },
                    Action::Stop,
                ),
                Err(m) => (
                    Machine {
                        config,
                        phase: Phase::Done { result: Err(RunError::Io { message: m }) },
                    },
                    Action::Stop,
                ),
            },
            _ => unreached(),
        }
    }
}

/// The cached address a cache load stands for: a missing cache file acts
/// as the sentinel "0.0.0.0", which no real address equals, so a first
/// run always proceeds to the update.
pub open spec fn effective_cached(load: CacheLoad) -> Seq<char> {
    match load {
        CacheLoad::Missing => "0.0.0.0"@,
        CacheLoad::Present { ip } => ip@,
    }
}

/// Actions that contact the provider's API.
pub open spec fn is_provider_call(a: Action) -> bool {
    a is LookupZone || a is LookupRecord || a is PutUpdate
}

/// The machine that event `i` of a run was fed to: the starting machine
/// for the first event, the previous step's successor after that.
pub open spec fn machine_before(m0: Machine, machines: Seq<Machine>, i: int) -> Machine {
    if i == 0 {
        m0
    } else {
        machines[i - 1]
    }
}

/// A run of the machine from `m0`: each event in turn was of the awaited
/// kind and was stepped, yielding machine `machines[i]` and action
/// `actions[i]`.
pub open spec fn is_run(
    m0: Machine,
    events: Seq<Event>,
    machines: Seq<Machine>,
    actions: Seq<Action>,
) -> bool {
    &&& machines.len() == events.len()
    &&& actions.len() == events.len()
    &&& forall|i: int|
        0 <= i < events.len() ==> accepts(machine_before(m0, machines, i).phase, #[trigger] events[i])
    &&& forall|i: int|
        0 <= i < events.len() ==> step_rel(
            machine_before(m0, machines, i),
            #[trigger] events[i],
            machines[i],
            actions[i],
        )
}

/// When the address is unchanged, the run is a no-op: if the loaded cache
/// holds `c`, the current address resolves to `v`, and `c` and `v` are
/// equal as strings, the run stops successfully right after the address
/// check — it performs no provider call at all and no cache write.
pub proof fn lemma_unchanged_run_is_noop(
    m0: Machine,
    events: Seq<Event>,
    machines: Seq<Machine>,
    actions: Seq<Action>,
    c: String,
    v: String,
)
    requires
        is_run(m0, events, machines, actions),
        m0.phase is AwaitCache,
        events.len() >= 2,
        events[0] matches Event::CacheLoaded { outcome: Ok(CacheLoad::Present { ip }) } && ip == c,
        events[1] matches Event::IpResolved { outcome: Ok(ip) } && ip == v,
        c@ == v@,
    ensures
        events.len() == 2,
        actions[0] is FetchCurrentIp,
        actions[1] is Stop,
        machines[1].phase matches Phase::Done { result } && result is Ok,
        forall|i: int| 0 <= i < actions.len() ==> !is_provider_call(#[trigger] actions[i]),
        forall|i: int| 0 <= i < actions.len() ==> !(#[trigger] actions[i] is WriteCache),
{
    assert(step_rel(machine_before(m0, machines, 0), events[0], machines[0], actions[0]));
    assert(machines[0].phase matches Phase::AwaitIp { cached } && cached == Some(c));
    assert(step_rel(machine_before(m0, machines, 1), events[1], machines[1], actions[1]));
    assert(machines[1].phase matches Phase::Done { result } && result is Ok);
    if events.len() > 2 {
        assert(accepts(machine_before(m0, machines, 2).phase, events[2]));
        assert(false);
    }
    assert forall|i: int| 0 <= i < actions.len() implies !is_provider_call(#[trigger] actions[i])
        && !(actions[i] is WriteCache) by {
        if i == 0 {
            assert(actions[0] is FetchCurrentIp);
        } else {
            assert(actions[1] is Stop);
        }
    }
}

/// When the cached and the current address differ, a run that ends
/// successfully performs exactly one zone lookup, one record lookup and
/// one update, in that order: its actions are exactly the address fetch,
/// the three provider calls — each built from the previous answer — the
/// cache write of the new address, and the stop.
pub proof fn lemma_changed_run_updates_once(
    m0: Machine,
    events: Seq<Event>,
    machines: Seq<Machine>,
    actions: Seq<Action>,
    v: String,
)
    requires
        is_run(m0, events, machines, actions),
        m0.phase is AwaitCache,
        m0.config.cache_enabled,
        events.len() >= 2,
        events[0] matches Event::CacheLoaded { outcome: Ok(load) } && effective_cached(load)
            != v@,
        events[1] matches Event::IpResolved { outcome: Ok(ip) } && ip == v,
        machines[events.len() - 1].phase matches Phase::Done { result } && result is Ok,
    ensures
        events.len() == 6,
        actions[0] is FetchCurrentIp,
        actions[1] matches Action::LookupZone { zone } && zone == m0.config.zone,
        ({
            &&& events[2] matches Event::ZoneResolved { outcome: Ok(zid) }
            &&& actions[2] matches Action::LookupRecord { zone_id, domain }
            &&& zone_id == zid
            &&& domain == m0.config.domain
        }),
        ({
            &&& events[2] matches Event::ZoneResolved { outcome: Ok(zid) }
            &&& events[3] matches Event::RecordResolved { outcome: Ok(rid) }
            &&& actions[3] matches Action::PutUpdate { zone_id, record_id, domain, ip }
            &&& zone_id == zid
            &&& record_id == rid
            &&& domain == m0.config.domain
            &&& ip == v
        }),
        actions[4] matches Action::WriteCache { ip } && ip == v,
        actions[5] is Stop,
{
    assert(step_rel(machine_before(m0, machines, 0), events[0], machines[0], actions[0]));
    assert(machines[0].phase matches Phase::AwaitIp { cached } && cached matches Some(cc) && cc@
        != v@);
    assert(step_rel(machine_before(m0, machines, 1), events[1], machines[1], actions[1]));
    assert(machines[1].phase matches Phase::AwaitZone { current } && current == v);
    if events.len() == 2 {
        assert(false);
    }
    assert(accepts(machines[1].phase, events[2]));
    assert(step_rel(machine_before(m0, machines, 2), events[2], machines[2], actions[2]));
    if events[2] matches Event::ZoneResolved { outcome: Err(e) } {
        assert(machines[2].phase is Done);
        if events.len() == 3 {
            assert(machines[2].phase matches Phase::Done { result } && result is Err);
            assert(false);
        } else {
            assert(accepts(machine_before(m0, machines, 3).phase, events[3]));
            assert(false);
        }
    }
    assert(events[2] matches Event::ZoneResolved { outcome: Ok(zid) }
        && machines[2].phase matches Phase::AwaitRecord { current, zone_id } && current == v
        && zone_id == zid);
    if events.len() == 3 {
        assert(false);
    }
    assert(accepts(machines[2].phase, events[3]));
    assert(step_rel(machine_before(m0, machines, 3), events[3], machines[3], actions[3]));
    if events[3] matches Event::RecordResolved { outcome: Err(e) } {
        assert(machines[3].phase is Done);
        if events.len() == 4 {
            assert(machines[3].phase matches Phase::Done { result } && result is Err);
            assert(false);
        } else {
            assert(accepts(machine_before(m0, machines, 4).phase, events[4]));
            assert(false);
        }
    }
    assert(events[3] matches Event::RecordResolved { outcome: Ok(rid) }
        && machines[3].phase matches Phase::AwaitUpdate { current, zone_id, record_id } && current
        == v && record_id == rid);
    if events.len() == 4 {
        assert(false);
    }
    assert(accepts(machines[3].phase, events[4]));
    assert(step_rel(machine_before(m0, machines, 4), events[4], machines[4], actions[4]));
    if events[4] matches Event::UpdateFinished { outcome: Err(e) } {
        assert(machines[4].phase is Done);
        if events.len() == 5 {
            assert(machines[4].phase matches Phase::Done { result } && result is Err);
            assert(false);
        } else {
            assert(accepts(machine_before(m0, machines, 5).phase, events[5]));
            assert(false);
        }
    }
    assert(machines[4].phase matches Phase::AwaitPersist { current } && current == v);
    if events.len() == 5 {
        assert(false);
    }
    assert(accepts(machines[4].phase, events[5]));
    assert(step_rel(machine_before(m0, machines, 5), events[5], machines[5], actions[5]));
    assert(machines[5].phase is Done);
    if events.len() > 6 {
        assert(accepts(machine_before(m0, machines, 6).phase, events[6]));
        assert(false);
    }
}

/// Reporting the same address twice is idempotent: after a successful run
/// that updated the record to `v` and wrote `v` to the cache, a second run
/// whose cache load answers exactly what was written and whose current
/// address resolves to `v` again stops successfully without any provider
/// call or cache write.
pub proof fn lemma_second_run_is_noop(
    m1: Machine,
    events1: Seq<Event>,
    machines1: Seq<Machine>,
    actions1: Seq<Action>,
    m2: Machine,
    events2: Seq<Event>,
    machines2: Seq<Machine>,
    actions2: Seq<Action>,
    v: String,
    w: String,
)
    requires
        is_run(m1, events1, machines1, actions1),
        m1.phase is AwaitCache,
        m1.config.cache_enabled,
        events1.len() >= 2,
        events1[0] matches Event::CacheLoaded { outcome: Ok(load) } && effective_cached(load)
            != v@,
        events1[1] matches Event::IpResolved { outcome: Ok(ip) } && ip == v,
        machines1[events1.len() - 1].phase matches Phase::Done { result } && result is Ok,
        is_run(m2, events2, machines2, actions2),
        m2.phase is AwaitCache,
        events2.len() >= 2,
        events2[0] matches Event::CacheLoaded { outcome: Ok(CacheLoad::Present { ip }) } && ip
            == w,
        w@ == v@,
        events2[1] matches Event::IpResolved { outcome: Ok(ip) } && ip == v,
    ensures
        actions1[4] matches Action::WriteCache { ip } && ip == v,
        events2.len() == 2,
        actions2[1] is Stop,
        machines2[1].phase matches Phase::Done { result } && result is Ok,
        forall|i: int| 0 <= i < actions2.len() ==> !is_provider_call(#[trigger] actions2[i]),
{
    lemma_changed_run_updates_once(m1, events1, machines1, actions1, v);
    lemma_unchanged_run_is_noop(m2, events2, machines2, actions2, w, v);
}

/// In any run, wherever a cache write is asked for, the event just handed
/// in was a successful update — the cache is never written before the
/// provider confirmed the record.
pub proof fn lemma_run_writes_cache_only_after_success(
    m0: Machine,
    events: Seq<Event>,
    machines: Seq<Machine>,
    actions: Seq<Action>,
    i: int,
)
    requires
        is_run(m0, events, machines, actions),
        0 <= i < events.len(),
        actions[i] is WriteCache,
    ensures
        events[i] matches Event::UpdateFinished { outcome } && outcome is Ok,
        machine_before(m0, machines, i).config.cache_enabled,
{
    assert(step_rel(machine_before(m0, machines, i), events[i], machines[i], actions[i]));
    lemma_cache_write_iff_update_success(
        machine_before(m0, machines, i),
        events[i],
        machines[i],
        actions[i],
    );
}

/// Where a phase stands in the workflow; steps only ever move forward.
pub open spec fn phase_rank(p: Phase) -> int {
    match p {
        Phase::AwaitCache => 0,
        Phase::AwaitIp { .. } => 1,
        Phase::AwaitZone { .. } => 2,
        Phase::AwaitRecord { .. } => 3,
        Phase::AwaitUpdate { .. } => 4,
        Phase::AwaitPersist { .. } => 5,
        Phase::Done { .. } => 6,
    }
}

/// Every step moves the workflow strictly forward: there are no back-edges,
/// so no step of a run can repeat.
pub proof fn lemma_step_advances(pre: Machine, event: Event, post: Machine, action: Action)
    requires
        step_rel(pre, event, post, action),
    ensures
        phase_rank(post.phase) > phase_rank(pre.phase),
{
}

proof fn lemma_rank_monotonic(
    m0: Machine,
    events: Seq<Event>,
    machines: Seq<Machine>,
    actions: Seq<Action>,
    i: int,
    j: int,
)
    requires
        is_run(m0, events, machines, actions),
        0 <= i <= j < events.len(),
    ensures
        phase_rank(machine_before(m0, machines, i).phase) + (j - i) <= phase_rank(
            machine_before(m0, machines, j).phase,
        ),
    decreases j - i,
{
    if i < j {
        lemma_rank_monotonic(m0, events, machines, actions, i, j - 1);
        assert(step_rel(
            machine_before(m0, machines, j - 1),
            events[j - 1],
            machines[j - 1],
            actions[j - 1],
        ));
    }
}

/// A run never takes more than six steps: the workflow has six stations
/// and no back-edges.
pub proof fn lemma_run_is_bounded(
    m0: Machine,
    events: Seq<Event>,
    machines: Seq<Machine>,
    actions: Seq<Action>,
)
    requires
        is_run(m0, events, machines, actions),
    ensures
        events.len() <= 6,
{
    if events.len() > 6 {
        lemma_rank_monotonic(m0, events, machines, actions, 0, 6);
        assert(accepts(machine_before(m0, machines, 6).phase, events[6]));
        assert(false);
    }
}

/// The update call is attempted at most once per run: no run's actions ask
/// for it twice.
pub proof fn lemma_update_attempted_at_most_once(
    m0: Machine,
    events: Seq<Event>,
    machines: Seq<Machine>,
    actions: Seq<Action>,
    i: int,
    j: int,
)
    requires
        is_run(m0, events, machines, actions),
        0 <= i < j < events.len(),
        actions[i] is PutUpdate,
    ensures
        !(actions[j] is PutUpdate),
{
    assert(step_rel(machine_before(m0, machines, i), events[i], machines[i], actions[i]));
    assert(phase_rank(machines[i].phase) == 4);
    lemma_rank_monotonic(m0, events, machines, actions, i + 1, j);
    assert(step_rel(machine_before(m0, machines, j), events[j], machines[j], actions[j]));
    if actions[j] is PutUpdate {
        assert(machine_before(m0, machines, j).phase is AwaitRecord);
        assert(false);
    }
}

/// The cache write happens exactly when the update succeeded: a step asks
/// for a cache write if and only if it was waiting on the update call,
/// that call reported success, and caching is enabled.
pub proof fn lemma_cache_write_iff_update_success(
    pre: Machine,
    event: Event,
    post: Machine,
    action: Action,
)
    requires
        step_rel(pre, event, post, action),
    ensures
        action is WriteCache ==> (event matches Event::UpdateFinished { outcome } && outcome is Ok
            && pre.phase is AwaitUpdate && pre.config.cache_enabled),
        pre.phase is AwaitUpdate && pre.config.cache_enabled && (
        event matches Event::UpdateFinished { outcome } && outcome is Ok) ==> action
            is WriteCache,
{
}

} // verus!

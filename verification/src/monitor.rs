//! The health watchdog: what state a service is in, which changes of state
//! are worth a notification, and when a crashed service is started again.
//!
//! Nothing here waits, starts a process or delivers a notification. Each
//! function says what is to be done, and whoever runs the watchdog does it.

use crate::daemon::{outcome_view, Probe, ProbeView};
use crate::json::text_member;
use crate::text::{appended, decimal, decimal_text, same_text};
use vstd::hash_map::StringHashMap;
use vstd::prelude::*;
use vstd::string::*;

verus! {

/// The state of a service at one polling instant.
#[derive(Clone, Copy, Debug, PartialEq, Eq, Structural)]
pub enum ServiceState {
    /// The daemon answered its health query and is well.
    Running,
    /// The service has no reachable endpoint.
    Stopped,
    /// The daemon answered its health query and reports that it is degraded.
    Unhealthy,
    /// The endpoint is there, but the health query failed.
    Error,
}

/// How the watchdog restarts services. Set once, never changed.
#[derive(Clone, Copy, Debug)]
pub struct WatchdogConfig {
    /// Whether crashed services are restarted at all.
    pub enabled: bool,
    /// How many restarts a service is given before it is left alone; 0 sets no limit.
    pub max_restarts: u32,
    /// How long to wait before a restart, in seconds.
    pub restart_delay_secs: u64,
}

/// What a change of state means.
#[derive(Clone, Copy, Debug, PartialEq, Eq, Structural)]
pub enum Transition {
    /// A running service fails its health query.
    Crashed,
    /// A running service has lost its endpoint.
    Stopped,
    /// A running service reports that it is degraded.
    Degraded,
    /// A degraded service is well again.
    Recovered,
    /// A service that was down is running.
    Started,
    /// Any other pair of states.
    Other,
}

/// A message for the user.
#[derive(Debug, PartialEq, Eq)]
pub struct Notification {
    pub title: String,
    pub message: String,
}

/// The content of a `Notification`.
pub struct NotificationView {
    pub title: Seq<char>,
    pub message: Seq<char>,
}

impl View for Notification {
    type V = NotificationView;

    open spec fn view(&self) -> NotificationView {
        NotificationView { title: self.title@, message: self.message@ }
    }
}

/// What the watchdog decided about restarting a service.
#[derive(Debug, PartialEq, Eq)]
pub enum RestartDecision {
    /// No restart is called for.
    Stay,
    /// The service has used up its restarts; the user is told so.
    Refused { attempt: u32, notification: Notification },
    /// The service is to be started once the delay has passed.
    Restart { attempt: u32, delay_secs: u64 },
}

/// The content of a `RestartDecision`.
pub enum RestartDecisionView {
    Stay,
    Refused { attempt: u32, notification: NotificationView },
    Restart { attempt: u32, delay_secs: u64 },
}

impl View for RestartDecision {
    type V = RestartDecisionView;

    open spec fn view(&self) -> RestartDecisionView {
        match self {
            RestartDecision::Stay => RestartDecisionView::Stay,
            RestartDecision::Refused { attempt, notification } => RestartDecisionView::Refused {
                attempt: *attempt,
                notification: notification@,
            },
            RestartDecision::Restart { attempt, delay_secs } => RestartDecisionView::Restart {
                attempt: *attempt,
                delay_secs: *delay_secs,
            },
        }
    }
}

/// What follows from a change of state.
#[derive(Debug, PartialEq, Eq)]
pub struct StateChange {
    /// What the change means.
    pub transition: Transition,
    /// What the log says of the change.
    pub log: String,
    /// The notification to deliver, if the change is worth one.
    pub notification: Option<Notification>,
    /// Whether the service is to be restarted.
    pub restart: RestartDecision,
}

/// The content of a `StateChange`.
pub struct StateChangeView {
    pub transition: Transition,
    pub log: Seq<char>,
    pub notification: Option<NotificationView>,
    pub restart: RestartDecisionView,
}

impl View for StateChange {
    type V = StateChangeView;

    open spec fn view(&self) -> StateChangeView {
        StateChangeView {
            transition: self.transition,
            log: self.log@,
            notification: match self.notification {
                Some(n) => Some(n@),
                None => None,
            },
            restart: self.restart@,
        }
    }
}

/// The restart attempts on record, service by service. A service without a
/// record has made none.
pub struct RestartTracker {
    pub attempts: StringHashMap<u32>,
}

impl View for RestartTracker {
    type V = Map<Seq<char>, u32>;

    open spec fn view(&self) -> Map<Seq<char>, u32> {
        self.attempts@
    }
}

/// The state that a status word of a healthy answer stands for: a degraded
/// service says so, and every other word counts as running.
pub open spec fn state_of_status(status: Seq<char>) -> ServiceState {
    if status == "degraded"@ || status == "unhealthy"@ {
        ServiceState::Unhealthy
    } else {
        ServiceState::Running
    }
}

/// The state of a service, given how its health query ended.
pub open spec fn service_state(probe: ProbeView) -> ServiceState {
    match probe {
        ProbeView::Unreachable => ServiceState::Stopped,
        ProbeView::ConnectFailed => ServiceState::Error,
        ProbeView::CallFailed => ServiceState::Error,
        ProbeView::Answered(reply) => if reply.ok {
            match reply.result {
                Some(result) => state_of_status(result.text_at("status"@, "running"@)),
                None => ServiceState::Running,
            }
        } else {
            ServiceState::Error
        },
    }
}

/// What a change from `prev` to `current` means.
pub open spec fn transition(prev: ServiceState, current: ServiceState) -> Transition {
    match (prev, current) {
        (ServiceState::Running, ServiceState::Error) => Transition::Crashed,
        (ServiceState::Running, ServiceState::Stopped) => Transition::Stopped,
        (ServiceState::Running, ServiceState::Unhealthy) => Transition::Degraded,
        (ServiceState::Unhealthy, ServiceState::Running) => Transition::Recovered,
        (ServiceState::Error, ServiceState::Running) => Transition::Started,
        (ServiceState::Stopped, ServiceState::Running) => Transition::Started,
        _ => Transition::Other,
    }
}

/// The name of a state, as the log shows it.
pub open spec fn state_name(state: ServiceState) -> Seq<char> {
    match state {
        ServiceState::Running => "Running"@,
        ServiceState::Stopped => "Stopped"@,
        ServiceState::Unhealthy => "Unhealthy"@,
        ServiceState::Error => "Error"@,
    }
}

/// What the log says of a change from `prev` to `current` of the service
/// `name`. A change that means nothing is logged with its two states.
pub open spec fn change_log(name: Seq<char>, prev: ServiceState, current: ServiceState) -> Seq<
    char,
> {
    match transition(prev, current) {
        Transition::Crashed => name + " crashed"@,
        Transition::Stopped => name + " stopped"@,
        Transition::Degraded => name + " is unhealthy"@,
        Transition::Recovered => name + " recovered"@,
        Transition::Started => name + " started"@,
        Transition::Other => name + " state: "@ + state_name(prev) + " \u{2192} "@ + state_name(
            current,
        ),
    }
}

/// Whether a transition calls for a restart: a crash and an unexpected stop do.
pub open spec fn restart_eligible(t: Transition) -> bool {
    t == Transition::Crashed || t == Transition::Stopped
}

/// The notification for a change from `prev` to `current` of the service
/// `name`; a change that means nothing brings none.
pub open spec fn notice(name: Seq<char>, prev: ServiceState, current: ServiceState) -> Option<
    NotificationView,
> {
    match (prev, current) {
        (ServiceState::Running, ServiceState::Error) => Some(
            NotificationView { title: "FGP Service Crashed"@, message: name + " daemon crashed"@ },
        ),
        (ServiceState::Running, ServiceState::Stopped) => Some(
            NotificationView {
                title: "FGP Service Stopped"@,
                message: name + " daemon stopped unexpectedly"@,
            },
        ),
        (ServiceState::Running, ServiceState::Unhealthy) => Some(
            NotificationView {
                title: "FGP Service Unhealthy"@,
                message: name + " daemon is unhealthy"@,
            },
        ),
        (ServiceState::Unhealthy, ServiceState::Running) => Some(
            NotificationView {
                title: "FGP Service Recovered"@,
                message: name + " daemon recovered"@,
            },
        ),
        (ServiceState::Error, ServiceState::Running) => Some(
            NotificationView {
                title: "FGP Service Started"@,
                message: name + " daemon is now running"@,
            },
        ),
        (ServiceState::Stopped, ServiceState::Running) => Some(
            NotificationView { title: "FGP Service Started"@, message: name + " daemon started"@ },
        ),
        _ => None,
    }
}

/// The restart attempts on record for `name`.
pub open spec fn recorded(attempts: Map<Seq<char>, u32>, name: Seq<char>) -> u32 {
    if attempts.contains_key(name) {
        attempts[name]
    } else {
        0
    }
}

/// The number of the next restart attempt of `name`. The count stops at the
/// largest number it can hold.
pub open spec fn next_attempt(attempts: Map<Seq<char>, u32>, name: Seq<char>) -> u32 {
    if recorded(attempts, name) < u32::MAX {
        (recorded(attempts, name) + 1) as u32
    } else {
        u32::MAX
    }
}

/// The record after one more attempt of `name` has been counted.
pub open spec fn counted(attempts: Map<Seq<char>, u32>, name: Seq<char>) -> Map<Seq<char>, u32> {
    attempts.insert(name, next_attempt(attempts, name))
}

/// Whether the attempt with the given number is one too many.
pub open spec fn over_limit(config: WatchdogConfig, attempt: u32) -> bool {
    config.max_restarts > 0 && attempt > config.max_restarts
}

/// The notification that a service has used up its restarts.
pub open spec fn limit_notice(name: Seq<char>, config: WatchdogConfig) -> NotificationView {
    NotificationView {
        title: "FGP Restart Limit Reached"@,
        message: name + " exceeded "@ + decimal(config.max_restarts as nat)
            + " restart attempts"@,
    }
}

/// The notification that a restart did not succeed.
pub open spec fn failure_notice(name: Seq<char>, error: Seq<char>) -> NotificationView {
    NotificationView {
        title: "FGP Restart Failed"@,
        message: "Failed to restart "@ + name + ": "@ + error,
    }
}

/// The decision on the attempt with the given number: it is refused when it
/// is over the limit, and goes ahead after the configured delay otherwise.
pub open spec fn decision(name: Seq<char>, config: WatchdogConfig, attempt: u32)
    -> RestartDecisionView {
    if over_limit(config, attempt) {
        RestartDecisionView::Refused { attempt, notification: limit_notice(name, config) }
    } else {
        RestartDecisionView::Restart { attempt, delay_secs: config.restart_delay_secs }
    }
}

/// What the log says of a decision on the service `name`: that the service
/// is left alone, or which attempt of how many is made. Where no restart is
/// called for the log says nothing.
pub open spec fn decision_log(name: Seq<char>, config: WatchdogConfig, made: RestartDecisionView)
    -> Option<Seq<char>> {
    match made {
        RestartDecisionView::Stay => None,
        RestartDecisionView::Refused { .. } => Some(
            name + " exceeded max restarts ("@ + decimal(config.max_restarts as nat)
                + "), not restarting"@,
        ),
        RestartDecisionView::Restart { attempt, .. } => Some(
            "Restarting "@ + name + " (attempt "@ + decimal(attempt as nat) + (if config.max_restarts
                > 0 {
                "/"@ + decimal(config.max_restarts as nat)
            } else {
                Seq::empty()
            }) + ")..."@,
        ),
    }
}

/// What the log says of how the restart of `name` ended.
pub open spec fn outcome_log(name: Seq<char>, outcome: Result<(), Seq<char>>) -> Seq<char> {
    match outcome {
        Ok(_) => name + " restart initiated"@,
        Err(e) => "Failed to restart "@ + name + ": "@ + e,
    }
}

/// The notification of how the restart of `name` ended: a failure is told,
/// a success is not.
pub open spec fn outcome_notice(name: Seq<char>, outcome: Result<(), Seq<char>>) -> Option<
    NotificationView,
> {
    match outcome {
        Ok(_) => None,
        Err(e) => Some(failure_notice(name, e)),
    }
}

/// How the limit on restarts is shown to the user.
pub open spec fn limit_text(config: WatchdogConfig) -> Seq<char> {
    if config.max_restarts == 0 {
        "unlimited"@
    } else {
        decimal(config.max_restarts as nat)
    }
}

/// Whether a change from `prev` to `current` sets off the restart procedure.
pub open spec fn restart_due(config: WatchdogConfig, prev: ServiceState, current: ServiceState)
    -> bool {
    config.enabled && restart_eligible(transition(prev, current))
}

/// What follows from a change from `prev` to `current` of the service `name`.
pub open spec fn reaction(
    name: Seq<char>,
    prev: ServiceState,
    current: ServiceState,
    config: WatchdogConfig,
    attempts: Map<Seq<char>, u32>,
) -> StateChangeView {
    StateChangeView {
        transition: transition(prev, current),
        log: change_log(name, prev, current),
        notification: notice(name, prev, current),
        restart: if restart_due(config, prev, current) {
            decision(name, config, next_attempt(attempts, name))
        } else {
            RestartDecisionView::Stay
        },
    }
}

/// The record of attempts after a change from `prev` to `current` of `name`.
pub open spec fn attempts_after(
    name: Seq<char>,
    prev: ServiceState,
    current: ServiceState,
    config: WatchdogConfig,
    attempts: Map<Seq<char>, u32>,
) -> Map<Seq<char>, u32> {
    if restart_due(config, prev, current) {
        counted(attempts, name)
    } else {
        attempts
    }
}

/// The watchdog's memory: its configuration, the state in which each service
/// was last seen, and the restart attempts on record.
pub struct Monitor {
    config: WatchdogConfig,
    states: StringHashMap<ServiceState>,
    tracker: RestartTracker,
}

/// The content of a `Monitor`.
pub struct MonitorView {
    pub config: WatchdogConfig,
    pub states: Map<Seq<char>, ServiceState>,
    pub attempts: Map<Seq<char>, u32>,
}

impl View for Monitor {
    type V = MonitorView;

    closed spec fn view(&self) -> MonitorView {
        MonitorView { config: self.config, states: self.states@, attempts: self.tracker@ }
    }
}

/// What holds of the watchdog's memory between any two observations: only a
/// service that was seen, and was last seen in another state than running,
/// has restart attempts on record.
pub open spec fn consistent(m: MonitorView) -> bool {
    forall|name: Seq<char>| #[trigger]
        m.attempts.contains_key(name) ==> m.states.contains_key(name) && m.states[name]
            != ServiceState::Running
}

/// The watchdog's memory after the service `name` was seen in the state
/// `current`, and what follows from the observation. A first observation and
/// an unchanged state are only remembered. A changed state brings its
/// reaction, and a return to the running state clears the attempts of `name`.
pub open spec fn observed(m: MonitorView, name: Seq<char>, current: ServiceState) -> (
    MonitorView,
    Option<StateChangeView>,
) {
    if m.states.contains_key(name) && m.states[name] != current {
        let prev = m.states[name];
        let record = attempts_after(name, prev, current, m.config, m.attempts);
        (
            MonitorView {
                config: m.config,
                states: m.states.insert(name, current),
                attempts: if current == ServiceState::Running {
                    record.remove(name)
                } else {
                    record
                },
            },
            Some(reaction(name, prev, current, m.config, m.attempts)),
        )
    } else {
        (
            MonitorView {
                config: m.config,
                states: m.states.insert(name, current),
                attempts: m.attempts,
            },
            None,
        )
    }
}

impl RestartTracker {
    /// A tracker without records.
    pub fn new() -> (tracker: RestartTracker)
        ensures
            tracker@ == Map::<Seq<char>, u32>::empty(),
    {
        RestartTracker { attempts: StringHashMap::new() }
    }

    /// The restart attempts on record for `name`.
    pub fn attempts_for(&self, name: &str) -> (n: u32)
        ensures
            n == recorded(self@, name@),
    {
        match self.attempts.get(name) {
            Some(n) => *n,
            None => 0,
        }
    }

    /// Counts one more attempt of `name` and gives its number.
    pub fn count(&mut self, name: &str) -> (attempt: u32)
        ensures
            attempt == next_attempt(old(self)@, name@),
            final(self)@ == counted(old(self)@, name@),
    {
        let so_far = self.attempts_for(name);
        let attempt = if so_far < u32::MAX {
            so_far + 1
        } else {
            so_far
        };
        self.attempts.insert(name.to_owned(), attempt);
        attempt
    }

    /// Forgets the attempts of `name`.
    pub fn clear(&mut self, name: &str)
        ensures
            final(self)@ == old(self)@.remove(name@),
            recorded(final(self)@, name@) == 0,
    {
        self.attempts.remove(name);
    }
}

impl Default for RestartTracker {
    fn default() -> (tracker: RestartTracker)
        ensures
            tracker@ == Map::<Seq<char>, u32>::empty(),
    {
        RestartTracker::new()
    }
}

impl WatchdogConfig {
    /// The configuration for the given settings.
    pub fn new(enabled: bool, max_restarts: u32, restart_delay_secs: u64) -> (config:
        WatchdogConfig)
        ensures
            config.enabled == enabled,
            config.max_restarts == max_restarts,
            config.restart_delay_secs == restart_delay_secs,
    {
        WatchdogConfig { enabled, max_restarts, restart_delay_secs }
    }

    /// The limit on restarts, as shown to the user.
    pub fn limit_label(&self) -> (label: String)
        ensures
            label@ == limit_text(*self),
    {
        if self.max_restarts == 0 {
            "unlimited".to_owned()
        } else {
            decimal_text(self.max_restarts)
        }
    }

    /// Whether the number of restarts is limited.
    pub fn is_limited(&self) -> (limited: bool)
        ensures
            limited == (self.max_restarts > 0),
    {
        self.max_restarts > 0
    }
}

/// Reads the state of a service off the outcome of its health query.
pub fn get_service_state(probe: &Probe) -> (state: ServiceState)
    ensures
        state == service_state(probe@),
{
    match probe {
        Probe::Unreachable => ServiceState::Stopped,
        Probe::ConnectFailed => ServiceState::Error,
        Probe::CallFailed => ServiceState::Error,
        Probe::Answered(reply) => {
            if !reply.ok {
                return ServiceState::Error;
            }
            match &reply.result {
                Some(result) => {
                    let status = text_member(result, "status", "running");
                    if same_text(status, "degraded") || same_text(status, "unhealthy") {
                        ServiceState::Unhealthy
                    } else {
                        ServiceState::Running
                    }
                },
                None => ServiceState::Running,
            }
        },
    }
}

/// Tells what a change from `prev` to `current` means.
pub fn classify(prev: ServiceState, current: ServiceState) -> (t: Transition)
    ensures
        t == transition(prev, current),
{
    match (prev, current) {
        (ServiceState::Running, ServiceState::Error) => Transition::Crashed,
        (ServiceState::Running, ServiceState::Stopped) => Transition::Stopped,
        (ServiceState::Running, ServiceState::Unhealthy) => Transition::Degraded,
        (ServiceState::Unhealthy, ServiceState::Running) => Transition::Recovered,
        (ServiceState::Error, ServiceState::Running) => Transition::Started,
        (ServiceState::Stopped, ServiceState::Running) => Transition::Started,
        _ => Transition::Other,
    }
}

impl ServiceState {
    /// The name of the state, as the log shows it.
    pub fn name(&self) -> (name: &'static str)
        ensures
            name@ == state_name(*self),
    {
        match self {
            ServiceState::Running => "Running",
            ServiceState::Stopped => "Stopped",
            ServiceState::Unhealthy => "Unhealthy",
            ServiceState::Error => "Error",
        }
    }
}

/// Writes what the log says of a change of state.
pub fn log_line(name: &str, prev: ServiceState, current: ServiceState) -> (line: String)
    ensures
        line@ == change_log(name@, prev, current),
{
    match classify(prev, current) {
        Transition::Crashed => appended(name, " crashed"),
        Transition::Stopped => appended(name, " stopped"),
        Transition::Degraded => appended(name, " is unhealthy"),
        Transition::Recovered => appended(name, " recovered"),
        Transition::Started => appended(name, " started"),
        Transition::Other => {
            let mut line = appended(name, " state: ");
            line.append(prev.name());
            line.append(" \u{2192} ");
            line.append(current.name());
            line
        },
    }
}

/// Makes a notification.
fn notification(title: &str, message: String) -> (n: Notification)
    ensures
        n@ == (NotificationView { title: title@, message: message@ }),
{
    Notification { title: title.to_owned(), message }
}

/// Writes the notification for a change of state, if the change is worth one.
pub fn notification_for(name: &str, prev: ServiceState, current: ServiceState) -> (n: Option<
    Notification,
>)
    ensures
        match n {
            Some(n) => notice(name@, prev, current) == Some(n@),
            None => notice(name@, prev, current) is None,
        },
{
    match (prev, current) {
        (ServiceState::Running, ServiceState::Error) => Some(
            notification("FGP Service Crashed", appended(name, " daemon crashed")),
        ),
        (ServiceState::Running, ServiceState::Stopped) => Some(
            notification("FGP Service Stopped", appended(name, " daemon stopped unexpectedly")),
        ),
        (ServiceState::Running, ServiceState::Unhealthy) => Some(
            notification("FGP Service Unhealthy", appended(name, " daemon is unhealthy")),
        ),
        (ServiceState::Unhealthy, ServiceState::Running) => Some(
            notification("FGP Service Recovered", appended(name, " daemon recovered")),
        ),
        (ServiceState::Error, ServiceState::Running) => Some(
            notification("FGP Service Started", appended(name, " daemon is now running")),
        ),
        (ServiceState::Stopped, ServiceState::Running) => Some(
            notification("FGP Service Started", appended(name, " daemon started")),
        ),
        _ => None,
    }
}

/// Counts a restart attempt of the crashed service `name` and decides whether
/// the restart goes ahead. An attempt over the limit is counted and refused.
pub fn attempt_restart(name: &str, watchdog: &WatchdogConfig, restart_tracker: &mut RestartTracker)
    -> (outcome: RestartDecision)
    ensures
        final(restart_tracker)@ == counted(old(restart_tracker)@, name@),
        outcome@ == decision(name@, *watchdog, next_attempt(old(restart_tracker)@, name@)),
{
    let attempt = restart_tracker.count(name);
    if watchdog.max_restarts > 0 && attempt > watchdog.max_restarts {
        let mut message = appended(name, " exceeded ");
        message.append(decimal_text(watchdog.max_restarts).as_str());
        message.append(" restart attempts");
        RestartDecision::Refused {
            attempt,
            notification: notification("FGP Restart Limit Reached", message),
        }
    } else {
        RestartDecision::Restart { attempt, delay_secs: watchdog.restart_delay_secs }
    }
}

/// Writes what the log says of a decision on the service `name`.
pub fn restart_log(name: &str, watchdog: &WatchdogConfig, made: &RestartDecision) -> (line: Option<
    String,
>)
    ensures
        match line {
            Some(text) => decision_log(name@, *watchdog, made@) == Some(text@),
            None => decision_log(name@, *watchdog, made@) is None,
        },
{
    match made {
        RestartDecision::Stay => None,
        RestartDecision::Refused { .. } => {
            let mut line = appended(name, " exceeded max restarts (");
            line.append(decimal_text(watchdog.max_restarts).as_str());
            line.append("), not restarting");
            Some(line)
        },
        RestartDecision::Restart { attempt, .. } => {
            let mut line = appended("Restarting ", name);
            line.append(" (attempt ");
            line.append(decimal_text(*attempt).as_str());
            if watchdog.max_restarts > 0 {
                line.append("/");
                line.append(decimal_text(watchdog.max_restarts).as_str());
            }
            line.append(")...");
            Some(line)
        },
    }
}

/// What is logged and told of the end of a restart.
#[derive(Debug, PartialEq, Eq)]
pub struct RestartReport {
    /// What the log says.
    pub log: String,
    /// The notification to deliver, if the restart failed.
    pub notification: Option<Notification>,
}

/// Says what is logged and told once the restart of `name` has ended: a
/// failure is logged and notified, a success is only logged. The record of
/// attempts stays as it is either way.
pub fn restart_outcome(name: &str, outcome: &Result<(), String>) -> (report: RestartReport)
    ensures
        report.log@ == outcome_log(name@, outcome_view(*outcome)),
        match report.notification {
            Some(n) => outcome_notice(name@, outcome_view(*outcome)) == Some(n@),
            None => outcome_notice(name@, outcome_view(*outcome)) is None,
        },
{
    match outcome {
        Ok(_) => RestartReport { log: appended(name, " restart initiated"), notification: None },
        Err(e) => {
            let mut log = appended("Failed to restart ", name);
            log.append(": ");
            log.append(e.as_str());
            RestartReport { log, notification: Some(restart_failed(name, e.as_str())) }
        },
    }
}

/// Writes the notification that the restart of `name` failed with `error`.
pub fn restart_failed(name: &str, error: &str) -> (n: Notification)
    ensures
        n@ == failure_notice(name@, error@),
{
    let mut message = appended("Failed to restart ", name);
    message.append(": ");
    message.append(error);
    notification("FGP Restart Failed", message)
}

/// Decides what follows from a change of the service `name` from `prev` to
/// `current`: what the change means, what the user is told, and, where the
/// watchdog restarts services and the change calls for it, whether the
/// service is started again.
pub fn handle_state_change(
    name: &str,
    prev: ServiceState,
    current: ServiceState,
    watchdog: &WatchdogConfig,
    restart_tracker: &mut RestartTracker,
) -> (change: StateChange)
    ensures
        change@ == reaction(name@, prev, current, *watchdog, old(restart_tracker)@),
        final(restart_tracker)@ == attempts_after(
            name@,
            prev,
            current,
            *watchdog,
            old(restart_tracker)@,
        ),
{
    let transition = classify(prev, current);
    let notification = notification_for(name, prev, current);
    let eligible = match transition {
        Transition::Crashed => true,
        Transition::Stopped => true,
        _ => false,
    };
    let restart = if watchdog.enabled && eligible {
        attempt_restart(name, watchdog, restart_tracker)
    } else {
        RestartDecision::Stay
    };
    StateChange { transition, log: log_line(name, prev, current), notification, restart }
}

/// The content of a change that may be absent.
pub open spec fn change_view(change: Option<StateChange>) -> Option<StateChangeView> {
    match change {
        Some(c) => Some(c@),
        None => None,
    }
}

impl Monitor {
    /// A watchdog that has seen no service yet.
    pub fn new(config: WatchdogConfig) -> (monitor: Monitor)
        ensures
            monitor@.config == config,
            monitor@.states == Map::<Seq<char>, ServiceState>::empty(),
            monitor@.attempts == Map::<Seq<char>, u32>::empty(),
            consistent(monitor@),
    {
        Monitor { config, states: StringHashMap::new(), tracker: RestartTracker::new() }
    }

    /// The configuration of the watchdog.
    pub fn config(&self) -> (config: WatchdogConfig)
        ensures
            config == self@.config,
    {
        self.config
    }

    /// The state in which `name` was last seen, if it was seen.
    pub fn last_state(&self, name: &str) -> (state: Option<ServiceState>)
        ensures
            match state {
                Some(s) => self@.states.contains_key(name@) && self@.states[name@] == s,
                None => !self@.states.contains_key(name@),
            },
    {
        match self.states.get(name) {
            Some(s) => Some(*s),
            None => None,
        }
    }

    /// The restart attempts on record for `name`.
    pub fn attempts_for(&self, name: &str) -> (n: u32)
        ensures
            n == recorded(self@.attempts, name@),
    {
        self.tracker.attempts_for(name)
    }

    /// Takes note that the service `name` is in the state `current`, and says
    /// what follows from it. A consistent memory stays consistent.
    pub fn check_service(&mut self, name: &str, current: ServiceState) -> (change: Option<
        StateChange,
    >)
        ensures
            (final(self)@, change_view(change)) == observed(old(self)@, name@, current),
            consistent(old(self)@) ==> consistent(final(self)@),
    {
        proof {
            if consistent(self@) {
                lemma_observed_consistent(self@, name@, current);
            }
        }
        let prev = self.last_state(name);
        let change = match prev {
            Some(prev) => {
                if prev != current {
                    let change = handle_state_change(
                        name,
                        prev,
                        current,
                        &self.config,
                        &mut self.tracker,
                    );
                    if current == ServiceState::Running {
                        self.tracker.clear(name);
                    }
                    Some(change)
                } else {
                    None
                }
            },
            None => None,
        };
        self.states.insert(name.to_owned(), current);
        change
    }
}

/// Observations keep the watchdog's memory consistent.
pub proof fn lemma_observed_consistent(m: MonitorView, name: Seq<char>, current: ServiceState)
    requires
        consistent(m),
    ensures
        consistent(observed(m, name, current).0),
{
}

/// A service that is seen running has no restart attempts on record, however
/// it got there.
pub proof fn lemma_running_clears_attempts(m: MonitorView, name: Seq<char>)
    requires
        consistent(m),
    ensures
        recorded(observed(m, name, ServiceState::Running).0.attempts, name) == 0,
{
}

/// When a running service crashes and then runs again, the watchdog restarts
/// it once, at the crash, as its first attempt, whatever the limit; the
/// return to the running state brings no restart and leaves no attempt on
/// record.
pub proof fn lemma_crash_then_recovery(m: MonitorView, name: Seq<char>, crash: ServiceState)
    requires
        consistent(m),
        m.config.enabled,
        m.states.contains_key(name),
        m.states[name] == ServiceState::Running,
        crash == ServiceState::Error || crash == ServiceState::Stopped,
    ensures
        ({
            let (down, first) = observed(m, name, crash);
            let (up, second) = observed(down, name, ServiceState::Running);
            &&& first is Some
            &&& first->0.restart == RestartDecisionView::Restart {
                attempt: 1,
                delay_secs: m.config.restart_delay_secs,
            }
            &&& recorded(down.attempts, name) == 1
            &&& second is Some
            &&& second->0.restart == RestartDecisionView::Stay
            &&& recorded(up.attempts, name) == 0
            &&& consistent(up)
        }),
{
    lemma_observed_consistent(m, name, crash);
    lemma_observed_consistent(observed(m, name, crash).0, name, ServiceState::Running);
}

/// A change to or from the degraded state, in either direction, is answered
/// with exactly one notification and never with a restart attempt: nothing is
/// counted and nothing is decided.
pub proof fn lemma_degradation_never_restarts(
    name: Seq<char>,
    config: WatchdogConfig,
    attempts: Map<Seq<char>, u32>,
)
    ensures
        reaction(name, ServiceState::Running, ServiceState::Unhealthy, config, attempts).notification
            is Some,
        reaction(name, ServiceState::Running, ServiceState::Unhealthy, config, attempts).restart
            == RestartDecisionView::Stay,
        attempts_after(name, ServiceState::Running, ServiceState::Unhealthy, config, attempts)
            == attempts,
        reaction(name, ServiceState::Unhealthy, ServiceState::Running, config, attempts).notification
            is Some,
        reaction(name, ServiceState::Unhealthy, ServiceState::Running, config, attempts).restart
            == RestartDecisionView::Stay,
        attempts_after(name, ServiceState::Unhealthy, ServiceState::Running, config, attempts)
            == attempts,
{
}

/// Only a crash and an unexpected stop of a running service can lead to a
/// restart, and only while the watchdog restarts services.
pub proof fn lemma_restart_only_after_crash(
    name: Seq<char>,
    prev: ServiceState,
    current: ServiceState,
    config: WatchdogConfig,
    attempts: Map<Seq<char>, u32>,
)
    ensures
        reaction(name, prev, current, config, attempts).restart is Restart ==> config.enabled
            && prev == ServiceState::Running && (current == ServiceState::Error || current
            == ServiceState::Stopped),
        reaction(name, prev, current, config, attempts).restart is Restart ==> !over_limit(
            config,
            next_attempt(attempts, name),
        ),
{
}

/// With a limit of one restart, a service without attempts on record is
/// restarted at its first crash; a second crash before any recovery is counted
/// too, and is refused with the notification that the limit is reached.
pub proof fn lemma_second_crash_refused(
    name: Seq<char>,
    current: ServiceState,
    config: WatchdogConfig,
    attempts: Map<Seq<char>, u32>,
)
    requires
        config.enabled,
        config.max_restarts == 1,
        current == ServiceState::Error || current == ServiceState::Stopped,
        recorded(attempts, name) == 0,
    ensures
        ({
            let running = ServiceState::Running;
            let first = reaction(name, running, current, config, attempts);
            let record = attempts_after(name, running, current, config, attempts);
            let second = reaction(name, running, current, config, record);
            &&& first.restart == RestartDecisionView::Restart {
                attempt: 1,
                delay_secs: config.restart_delay_secs,
            }
            &&& second.restart == RestartDecisionView::Refused {
                attempt: 2,
                notification: limit_notice(name, config),
            }
            &&& limit_notice(name, config).title == "FGP Restart Limit Reached"@
            &&& recorded(attempts_after(name, running, current, config, record), name) == 2
        }),
{
}

/// Once the limit is passed every further crash is refused: the count only
/// grows, and nothing but a return to the running state brings it down.
pub proof fn lemma_refusal_persists(
    name: Seq<char>,
    config: WatchdogConfig,
    attempts: Map<Seq<char>, u32>,
)
    requires
        over_limit(config, recorded(attempts, name)),
    ensures
        next_attempt(attempts, name) >= recorded(attempts, name),
        decision(name, config, next_attempt(attempts, name)) is Refused,
{
}

} // verus!

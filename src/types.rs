use vstd::prelude::*;

verus! {

/// Schema version of the task document; `V1_2` unless chosen otherwise.
#[derive(Debug, Clone, Copy, PartialEq, Eq, Structural)]
pub enum Version {
    /// Windows Vista, Windows Server 2008
    V1_2,
    /// Windows 10
    V1_4,
}

impl Default for Version {
    fn default() -> (r: Self)
        ensures
            r == Version::V1_2,
    {
        Version::V1_2
    }
}

/// The literal text of a schema version.
pub open spec fn version_text(v: Version) -> Seq<char> {
    match v {
        Version::V1_2 => "1.2"@,
        Version::V1_4 => "1.4"@,
    }
}

impl Version {
    /// The text written for this version: `1.2` or `1.4`.
    pub fn to_string(&self) -> (r: String)
        ensures
            r@ == version_text(*self),
    {
        match self {
            Version::V1_2 => String::from_str("1.2"),
            Version::V1_4 => String::from_str("1.4"),
        }
    }
}

/// A full task definition: triggers and actions keep the order they were pushed in.
#[derive(Debug)]
pub struct Task {
    pub version: Version,
    pub triggers: Vec<Trigger>,
    pub actions: Vec<Action>,
    pub settings: Settings,
}

impl Default for Task {
    fn default() -> (r: Self)
        ensures
            r.version == Version::V1_2,
            r.triggers@.len() == 0,
            r.actions@.len() == 0,
            default_settings(r.settings),
    {
        Task {
            version: Version::default(),
            triggers: Vec::new(),
            actions: Vec::new(),
            settings: Settings::default(),
        }
    }
}

/// A condition that starts the task.
#[derive(Debug)]
pub enum Trigger {
    /// Fires when an entry matching `subscription` appears in an event log;
    /// `value_queries` name values extracted from that entry.
    EventTrigger { enabled: bool, subscription: Subscription, value_queries: Vec<Value> },
}

/// An event-log query: every event of provider `source` in channel `log`,
/// narrowed to one event id when `event_id` is set.
#[derive(Debug)]
pub struct Subscription {
    pub log: String,
    pub source: String,
    pub event_id: Option<isize>,
}

/// A named extraction expression bound into an event trigger's values.
#[derive(Debug)]
pub struct Value {
    pub name: String,
    pub value: String,
}

/// A unit of work the task performs.
#[derive(Debug)]
pub enum Action {
    /// Runs `command`, with `arguments` when they are given.
    Exec { command: String, arguments: Option<String> },
}

/// Execution policy of the scheduler for the task.
#[derive(Debug)]
pub struct Settings {
    /// default IgnoreNew
    pub multiple_instances_policy: MultipleInstancesPolicy,
    /// default true
    pub disallow_start_if_on_batteries: bool,
    /// default true
    pub stop_if_going_on_batteries: bool,
    /// default true
    pub allow_hard_terminate: bool,
    /// default false
    pub start_when_available: bool,
    /// default false
    pub run_only_if_network_available: bool,
    pub idle_settings: IdleSettings,
    /// default true
    pub allow_start_on_demand: bool,
    /// default true
    pub enabled: bool,
    /// default false
    pub hidden: bool,
    /// default false
    pub run_only_if_idle: bool,
    /// default false
    pub wake_to_run: bool,
    /// an ISO-8601 duration, default PT72H
    pub execution_time_limit: String,
    /// default 7; not range-checked here
    pub priority: u8,
}

/// The schema defaults of every setting.
pub open spec fn default_settings(s: Settings) -> bool {
    &&& s.multiple_instances_policy == MultipleInstancesPolicy::IgnoreNew
    &&& s.disallow_start_if_on_batteries
    &&& s.stop_if_going_on_batteries
    &&& s.allow_hard_terminate
    &&& !s.start_when_available
    &&& !s.run_only_if_network_available
    &&& s.idle_settings == IdleSettings { stop_on_idle_end: true, restart_on_idle: false }
    &&& s.allow_start_on_demand
    &&& s.enabled
    &&& !s.hidden
    &&& !s.run_only_if_idle
    &&& !s.wake_to_run
    &&& s.execution_time_limit@ == "PT72H"@
    &&& s.priority == 7
}

impl Default for Settings {
    fn default() -> (r: Self)
        ensures
            default_settings(r),
    {
        Settings {
            multiple_instances_policy: MultipleInstancesPolicy::default(),
            disallow_start_if_on_batteries: true,
            stop_if_going_on_batteries: true,
            allow_hard_terminate: true,
            start_when_available: false,
            run_only_if_network_available: false,
            idle_settings: IdleSettings::default(),
            allow_start_on_demand: true,
            enabled: true,
            hidden: false,
            run_only_if_idle: false,
            wake_to_run: false,
            execution_time_limit: String::from_str("PT72H"),
            priority: 7,
        }
    }
}

/// What the scheduler does when the task starts while an instance still runs.
#[derive(Debug, Clone, Copy, PartialEq, Eq, Structural)]
pub enum MultipleInstancesPolicy {
    IgnoreNew,
    Queue,
}

impl Default for MultipleInstancesPolicy {
    fn default() -> (r: Self)
        ensures
            r == MultipleInstancesPolicy::IgnoreNew,
    {
        MultipleInstancesPolicy::IgnoreNew
    }
}

/// The literal text of a policy.
pub open spec fn policy_text(p: MultipleInstancesPolicy) -> Seq<char> {
    match p {
        MultipleInstancesPolicy::IgnoreNew => "IgnoreNew"@,
        MultipleInstancesPolicy::Queue => "Queue"@,
    }
}

impl MultipleInstancesPolicy {
    /// The text written for this policy: `IgnoreNew` or `Queue`.
    pub fn to_string(&self) -> (r: String)
        ensures
            r@ == policy_text(*self),
    {
        match self {
            MultipleInstancesPolicy::IgnoreNew => String::from_str("IgnoreNew"),
            MultipleInstancesPolicy::Queue => String::from_str("Queue"),
        }
    }
}

/// Behaviour of the task around idle time.
#[derive(Debug, Clone, Copy, PartialEq, Eq, Structural)]
pub struct IdleSettings {
    /// default true
    pub stop_on_idle_end: bool,
    /// default false
    pub restart_on_idle: bool,
}

impl Default for IdleSettings {
    fn default() -> (r: Self)
        ensures
            r == (IdleSettings { stop_on_idle_end: true, restart_on_idle: false }),
    {
        IdleSettings { stop_on_idle_end: true, restart_on_idle: false }
    }
}

} // verus!

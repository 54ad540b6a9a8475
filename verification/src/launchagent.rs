//! The core job descriptor: one `launchd` job, its rendering to a property
//! list, and a builder for field-by-field assembly.

use vstd::prelude::*;

use crate::constraints::{
    ProcessType, ResourceLimits, SessionType, process_type_value, resource_limits_value,
    session_type_value,
};
use crate::ipc::{
    InetdCompatibility, MachServiceConfig, SocketValue, inetd_compatibility_value,
    mach_service_config_value, opt_string_or_u32, socket_value_union,
};
use crate::keep_alive::{KeepAlive, keep_alive_value, keep_alive_wf};
use crate::triggers::{CalendarInterval, calendar_interval_value};
use crate::unions::{StringOrU32, StringOrVec, string_or_vec_value};
use crate::value::{
    PlistValue, SpecDict, SpecValue, dict_get, dict_has_key, keys_unique, opt_bool, opt_entry,
    opt_i8,
    opt_str_arr, opt_string, opt_u32, pairs_rep, push_entry, push_opt_bool, push_opt_i8,
    push_opt_str_vec, push_opt_string, push_opt_u32, push_opt_value, spec_value_of,
    str_arr_map_entries, str_map_entries, values_rep,
};

verus! {

broadcast use crate::value::lemma_empty_concat, crate::value::lemma_dict_get_concat,
    crate::value::lemma_opt_entry_get;

/// One `launchd` job, as an XML property list models it.
///
/// `label` is the only required field; every other field is independently
/// optional, and an unset field is omitted from the rendering entirely.
/// Map-valued fields are kept as key/value pair lists so that the rendered
/// key order is deterministic. Each key belongs in such a list at most once
/// — the builder's map setters require it, and a direct construction owes
/// the same — since the wire format is keyed and duplicate entries would
/// merge there.
pub struct LaunchAgent {
    /// Uniquely identifies the job to `launchd`.
    pub label: String,
    /// Whether the job should be loaded by default.
    pub disabled: Option<bool>,
    /// The user to run the job as; only for jobs in the privileged system
    /// domain.
    pub user_name: Option<String>,
    /// The group to run the job as; only for jobs in the privileged system
    /// domain.
    pub group_name: Option<String>,
    /// If set, the daemon expects to be run as if launched from `inetd`.
    pub inetd_compatibility: Option<InetdCompatibility>,
    /// The hosts this configuration applies to. Kept for format compatibility;
    /// the key is no longer supported by the init system.
    pub limit_load_to_hosts: Option<Vec<String>>,
    /// The hosts this configuration does not apply to. Kept for format
    /// compatibility; the key is no longer supported by the init system.
    pub limit_load_from_hosts: Option<Vec<String>>,
    /// The session types this configuration applies to.
    pub limit_load_to_session_type: Option<SessionType>,
    /// The hardware this configuration applies to: each key names a subdomain
    /// of the "hw" `sysctl(3)` domain, each value lists the values that load.
    pub limit_load_to_hardware: Option<Vec<(String, Vec<String>)>>,
    /// The hardware this configuration does not apply to.
    pub limit_load_from_hardware: Option<Vec<(String, Vec<String>)>>,
    /// The absolute path to the executable; required in the absence of
    /// program arguments.
    pub program: Option<String>,
    /// An app-bundle relative path to the executable.
    pub bundle_program: Option<String>,
    /// The argument vector passed to the job when a process is spawned;
    /// required in the absence of a program path.
    pub program_arguments: Option<Vec<String>>,
    /// Update the program arguments with the `glob(3)` mechanism before
    /// invocation.
    pub enable_globbing: Option<bool>,
    /// The job tracks outstanding transactions to mark itself active.
    pub enable_transactions: Option<bool>,
    /// Opts the job into the system's Pressured Exit facility.
    pub enable_pressured_exit: Option<bool>,
    /// Kept for format compatibility; setting it to `false` once meant an
    /// unconditional keep-alive.
    pub on_demand: Option<bool>,
    /// Kept for format compatibility; renders under `ServiceIPC`.
    pub service_ipc: Option<bool>,
    /// Whether the job is kept continuously running, unconditionally or under
    /// the given conditions.
    pub keep_alive: Option<KeepAlive>,
    /// Whether the job is launched once at load time.
    pub run_at_load: Option<bool>,
    /// A directory to `chroot(2)` to before running the job.
    pub root_directory: Option<String>,
    /// A directory to `chdir(2)` to before running the job.
    pub working_directory: Option<String>,
    /// Additional environment variables to set before running the job.
    pub environment_variables: Option<Vec<(String, String)>>,
    /// The value passed to `umask(2)` before running the job: a decimal
    /// integer, or a string read under `strtoul(3)` rules.
    pub umask: Option<StringOrU32>,
    /// The recommended idle time out, in seconds. Kept for format
    /// compatibility; no longer implemented.
    pub time_out: Option<u32>,
    /// Seconds between `SIGTERM` and `SIGKILL` when the job is stopped.
    pub exit_time_out: Option<u32>,
    /// Seconds the init system waits between respawns of the job.
    pub throttle_interval: Option<u32>,
    /// Whether `initgroups(3)` should initialize the group list for the job.
    pub init_groups: Option<bool>,
    /// Start the job whenever one of these paths is modified.
    pub watch_paths: Option<Vec<String>>,
    /// Keep the job alive as long as these directories are not empty.
    pub queue_directories: Option<Vec<String>>,
    /// Start the job every time a filesystem is mounted.
    pub start_on_mount: Option<bool>,
    /// Start the job every N seconds.
    pub start_interval: Option<u32>,
    /// Start the job on each of these calendar intervals.
    pub start_calendar_interval: Option<Vec<CalendarInterval>>,
    /// The path mapped to the job's standard input.
    pub standard_in_path: Option<String>,
    /// The path that receives the job's standard output.
    pub standard_out_path: Option<String>,
    /// The path that receives the job's standard error.
    pub standard_error_path: Option<String>,
    /// Raise the init system's log mask to debug while handling this job.
    pub debug: Option<bool>,
    /// Launch the job suspended, so a debugger can attach at the first
    /// instruction.
    pub wait_for_debugger: Option<bool>,
    /// Soft resource limits to impose on the job.
    pub soft_resource_limits: Option<ResourceLimits>,
    /// Hard resource limits to impose on the job.
    pub hard_resource_limits: Option<ResourceLimits>,
    /// The `nice(3)` value applied to the daemon.
    pub nice: Option<i8>,
    /// The intended purpose of the job, which picks its resource policy.
    pub process_type: Option<ProcessType>,
    /// Do not kill the remaining processes of the job's process group when
    /// the job dies.
    pub abandon_process_group: Option<bool>,
    /// Treat the daemon as low priority for filesystem I/O; renders under
    /// `LowPriorityIO`.
    pub low_priority_io: Option<bool>,
    /// Treat the daemon as low priority for filesystem I/O when throttled to
    /// background; renders under `LowPriorityBackgroundIO`.
    pub low_priority_background_io: Option<bool>,
    /// The dataless-file materialization policy for the job.
    pub materialized_dataless_files: Option<bool>,
    /// The job can be run once and only once per boot.
    pub launch_only_once: Option<bool>,
    /// Mach services to register: each key names a service, each value is a
    /// boolean or an object form.
    pub mach_services: Option<Vec<(String, MachServiceConfig)>>,
    /// Launch-on-demand sockets: each key is an application-chosen name, each
    /// value one socket or a list of sockets.
    pub sockets: Option<Vec<(String, SocketValue)>>,
    /// Higher-level launch-on-demand event sources: subsystem name, then
    /// event name, then an event descriptor of string pairs.
    pub launch_events: Option<Vec<(String, Vec<(String, Vec<(String, String)>)>)>>,
    /// Kept for format compatibility; no longer implemented.
    pub hopefully_exits_last: Option<String>,
    /// Kept for format compatibility; no longer implemented.
    pub hopefully_exits_first: Option<String>,
    /// Spawn the job into a new security audit session.
    pub session_create: Option<bool>,
    /// Opt the job's timers out of coalescing, for more precise firing.
    pub legacy_timers: Option<bool>,
    /// The bundles associated with this job in the login-items UI.
    pub associated_bundle_identifiers: Option<StringOrVec>,
}

/// Whether one event subsystem's map holds each event name once, and each
/// event descriptor each of its keys once.
pub open spec fn event_subsystem_keys_unique(m: Seq<(String, Vec<(String, String)>)>) -> bool {
    &&& keys_unique(m)
    &&& forall|i: int| 0 <= i < m.len() ==> keys_unique((#[trigger] m[i]).1@)
}

/// Whether a launch-event map holds each key once at every one of its three
/// levels: subsystem, event name, and descriptor key.
pub open spec fn launch_events_keys_unique(
    m: Seq<(String, Vec<(String, Vec<(String, String)>)>)>,
) -> bool {
    &&& keys_unique(m)
    &&& forall|i: int| 0 <= i < m.len() ==> event_subsystem_keys_unique((#[trigger] m[i]).1@)
}

/// An optional inetd-compatibility descriptor, as an optional rendered value.
pub open spec fn opt_inetd(v: Option<InetdCompatibility>) -> Option<SpecValue> {
    match v {
        Some(c) => Some(inetd_compatibility_value(c)),
        None => None,
    }
}

/// An optional session-type restriction, as an optional rendered value.
pub open spec fn opt_session_type(v: Option<SessionType>) -> Option<SpecValue> {
    match v {
        Some(s) => Some(session_type_value(s)),
        None => None,
    }
}

/// An optional keep-alive policy, as an optional rendered value.
pub open spec fn opt_keep_alive(v: Option<KeepAlive>) -> Option<SpecValue> {
    match v {
        Some(k) => Some(keep_alive_value(k)),
        None => None,
    }
}

/// An optional resource-limit table, as an optional rendered value.
pub open spec fn opt_resource_limits(v: Option<ResourceLimits>) -> Option<SpecValue> {
    match v {
        Some(r) => Some(resource_limits_value(r)),
        None => None,
    }
}

/// An optional process type, as an optional rendered value.
pub open spec fn opt_process_type(v: Option<ProcessType>) -> Option<SpecValue> {
    match v {
        Some(p) => Some(process_type_value(p)),
        None => None,
    }
}

/// An optional string-or-list, as an optional rendered value.
pub open spec fn opt_string_or_vec(v: Option<StringOrVec>) -> Option<SpecValue> {
    match v {
        Some(s) => Some(string_or_vec_value(s)),
        None => None,
    }
}

/// An optional string-to-string map, as an optional rendered dictionary.
pub open spec fn opt_str_map(v: Option<Vec<(String, String)>>) -> Option<SpecValue> {
    match v {
        Some(m) => Some(SpecValue::Dict(str_map_entries(m@))),
        None => None,
    }
}

/// An optional hardware map, as an optional rendered dictionary of arrays.
pub open spec fn opt_str_arr_map(v: Option<Vec<(String, Vec<String>)>>) -> Option<SpecValue> {
    match v {
        Some(m) => Some(SpecValue::Dict(str_arr_map_entries(m@))),
        None => None,
    }
}

/// The rendered entries of a Mach-service map, in the given order.
pub open spec fn mach_map_entries(m: Seq<(String, MachServiceConfig)>) -> SpecDict {
    m.map_values(|p: (String, MachServiceConfig)| (p.0@, mach_service_config_value(p.1)))
}

/// An optional Mach-service map, as an optional rendered dictionary.
pub open spec fn opt_mach_map(v: Option<Vec<(String, MachServiceConfig)>>) -> Option<SpecValue> {
    match v {
        Some(m) => Some(SpecValue::Dict(mach_map_entries(m@))),
        None => None,
    }
}

/// The rendered entries of a socket map, in the given order.
pub open spec fn socket_map_entries(m: Seq<(String, SocketValue)>) -> SpecDict {
    m.map_values(|p: (String, SocketValue)| (p.0@, socket_value_union(p.1)))
}

/// An optional socket map, as an optional rendered dictionary.
pub open spec fn opt_socket_map(v: Option<Vec<(String, SocketValue)>>) -> Option<SpecValue> {
    match v {
        Some(m) => Some(SpecValue::Dict(socket_map_entries(m@))),
        None => None,
    }
}

/// The rendered entries of one event subsystem: event name to descriptor.
pub open spec fn event_dict_entries(m: Seq<(String, Vec<(String, String)>)>) -> SpecDict {
    m.map_values(
        |p: (String, Vec<(String, String)>)| (p.0@, SpecValue::Dict(str_map_entries(p.1@))),
    )
}

/// The rendered entries of the launch-event map: subsystem to its events.
pub open spec fn launch_events_entries(
    m: Seq<(String, Vec<(String, Vec<(String, String)>)>)>,
) -> SpecDict {
    m.map_values(
        |p: (String, Vec<(String, Vec<(String, String)>)>)| (
            p.0@,
            SpecValue::Dict(event_dict_entries(p.1@)),
        ),
    )
}

/// An optional launch-event map, as an optional rendered dictionary.
pub open spec fn opt_launch_events(
    v: Option<Vec<(String, Vec<(String, Vec<(String, String)>)>)>>,
) -> Option<SpecValue> {
    match v {
        Some(m) => Some(SpecValue::Dict(launch_events_entries(m@))),
        None => None,
    }
}

/// An optional list of calendar intervals, as an optional rendered array.
pub open spec fn opt_calendar_arr(v: Option<Vec<CalendarInterval>>) -> Option<SpecValue> {
    match v {
        Some(a) => Some(
            SpecValue::Arr(a@.map_values(|c: CalendarInterval| calendar_interval_value(c))),
        ),
        None => None,
    }
}

/// The rendered dictionary entries of a [`LaunchAgent`]: the label first,
/// then one entry per set optional field, in declaration order, under the
/// historical key names (`ServiceIPC`, `LowPriorityIO` and
/// `LowPriorityBackgroundIO` keep their special casing).
pub open spec fn agent_entries(a: LaunchAgent) -> SpecDict {
    opt_entry("Label"@, Some(SpecValue::Str(a.label@))) + opt_entry(
        "Disabled"@,
        opt_bool(a.disabled),
    )
        + opt_entry("UserName"@, opt_string(a.user_name)) + opt_entry(
        "GroupName"@,
        opt_string(a.group_name),
    ) + opt_entry("InetdCompatibility"@, opt_inetd(a.inetd_compatibility)) + opt_entry(
        "LimitLoadToHosts"@,
        opt_str_arr(a.limit_load_to_hosts),
    ) + opt_entry("LimitLoadFromHosts"@, opt_str_arr(a.limit_load_from_hosts)) + opt_entry(
        "LimitLoadToSessionType"@,
        opt_session_type(a.limit_load_to_session_type),
    ) + opt_entry("LimitLoadToHardware"@, opt_str_arr_map(a.limit_load_to_hardware)) + opt_entry(
        "LimitLoadFromHardware"@,
        opt_str_arr_map(a.limit_load_from_hardware),
    ) + opt_entry("Program"@, opt_string(a.program)) + opt_entry(
        "BundleProgram"@,
        opt_string(a.bundle_program),
    ) + opt_entry("ProgramArguments"@, opt_str_arr(a.program_arguments)) + opt_entry(
        "EnableGlobbing"@,
        opt_bool(a.enable_globbing),
    ) + opt_entry("EnableTransactions"@, opt_bool(a.enable_transactions)) + opt_entry(
        "EnablePressuredExit"@,
        opt_bool(a.enable_pressured_exit),
    ) + opt_entry("OnDemand"@, opt_bool(a.on_demand)) + opt_entry(
        "ServiceIPC"@,
        opt_bool(a.service_ipc),
    ) + opt_entry("KeepAlive"@, opt_keep_alive(a.keep_alive)) + opt_entry(
        "RunAtLoad"@,
        opt_bool(a.run_at_load),
    ) + opt_entry("RootDirectory"@, opt_string(a.root_directory)) + opt_entry(
        "WorkingDirectory"@,
        opt_string(a.working_directory),
    ) + opt_entry("EnvironmentVariables"@, opt_str_map(a.environment_variables)) + opt_entry(
        "Umask"@,
        opt_string_or_u32(a.umask),
    ) + opt_entry("TimeOut"@, opt_u32(a.time_out)) + opt_entry(
        "ExitTimeOut"@,
        opt_u32(a.exit_time_out),
    ) + opt_entry("ThrottleInterval"@, opt_u32(a.throttle_interval)) + opt_entry(
        "InitGroups"@,
        opt_bool(a.init_groups),
    ) + opt_entry("WatchPaths"@, opt_str_arr(a.watch_paths)) + opt_entry(
        "QueueDirectories"@,
        opt_str_arr(a.queue_directories),
    ) + opt_entry("StartOnMount"@, opt_bool(a.start_on_mount)) + opt_entry(
        "StartInterval"@,
        opt_u32(a.start_interval),
    ) + opt_entry("StartCalendarInterval"@, opt_calendar_arr(a.start_calendar_interval))
        + opt_entry("StandardInPath"@, opt_string(a.standard_in_path)) + opt_entry(
        "StandardOutPath"@,
        opt_string(a.standard_out_path),
    ) + opt_entry("StandardErrorPath"@, opt_string(a.standard_error_path)) + opt_entry(
        "Debug"@,
        opt_bool(a.debug),
    ) + opt_entry("WaitForDebugger"@, opt_bool(a.wait_for_debugger)) + opt_entry(
        "SoftResourceLimits"@,
        opt_resource_limits(a.soft_resource_limits),
    ) + opt_entry("HardResourceLimits"@, opt_resource_limits(a.hard_resource_limits)) + opt_entry(
        "Nice"@,
        opt_i8(a.nice),
    ) + opt_entry("ProcessType"@, opt_process_type(a.process_type)) + opt_entry(
        "AbandonProcessGroup"@,
        opt_bool(a.abandon_process_group),
    ) + opt_entry("LowPriorityIO"@, opt_bool(a.low_priority_io)) + opt_entry(
        "LowPriorityBackgroundIO"@,
        opt_bool(a.low_priority_background_io),
    ) + opt_entry("MaterializedDatalessFiles"@, opt_bool(a.materialized_dataless_files))
        + opt_entry("LaunchOnlyOnce"@, opt_bool(a.launch_only_once)) + opt_entry(
        "MachServices"@,
        opt_mach_map(a.mach_services),
    ) + opt_entry("Sockets"@, opt_socket_map(a.sockets)) + opt_entry(
        "LaunchEvents"@,
        opt_launch_events(a.launch_events),
    ) + opt_entry("HopefullyExitsLast"@, opt_string(a.hopefully_exits_last)) + opt_entry(
        "HopefullyExitsFirst"@,
        opt_string(a.hopefully_exits_first),
    ) + opt_entry("SessionCreate"@, opt_bool(a.session_create)) + opt_entry(
        "LegacyTimers"@,
        opt_bool(a.legacy_timers),
    ) + opt_entry(
        "AssociatedBundleIdentifiers"@,
        opt_string_or_vec(a.associated_bundle_identifiers),
    )
}

/// The rendered form of a [`LaunchAgent`]: one dictionary for the whole job.
pub open spec fn agent_value(a: LaunchAgent) -> SpecValue {
    SpecValue::Dict(agent_entries(a))
}

/// Renders a Mach-service map as a plist dictionary.
fn mach_map_value(m: &Vec<(String, MachServiceConfig)>) -> (r: PlistValue)
    ensures
        r@ == SpecValue::Dict(mach_map_entries(m@)),
{
    let mut entries: Vec<(String, PlistValue)> = Vec::new();
    let mut i: usize = 0;
    while i < m.len()
        invariant
            i <= m.len(),
            entries@.len() == i,
            forall|j: int| 0 <= j < i ==> entries@[j].0@ == m@[j].0@ && spec_value_of(
                #[trigger] entries@[j].1,
            ) == mach_service_config_value(m@[j].1),
        decreases m.len() - i,
    {
        let cv = m[i].1.to_value();
        let pair = (m[i].0.clone(), cv);
        entries.push(pair);
        i = i + 1;
    }
    proof {
        crate::value::lemma_pairs_rep_props(entries@);
        assert(pairs_rep(entries@) =~= mach_map_entries(m@));
    }
    PlistValue::Dictionary(entries)
}

/// Renders a socket map as a plist dictionary.
fn socket_map_value(m: &Vec<(String, SocketValue)>) -> (r: PlistValue)
    ensures
        r@ == SpecValue::Dict(socket_map_entries(m@)),
{
    let mut entries: Vec<(String, PlistValue)> = Vec::new();
    let mut i: usize = 0;
    while i < m.len()
        invariant
            i <= m.len(),
            entries@.len() == i,
            forall|j: int| 0 <= j < i ==> entries@[j].0@ == m@[j].0@ && spec_value_of(
                #[trigger] entries@[j].1,
            ) == socket_value_union(m@[j].1),
        decreases m.len() - i,
    {
        let sv = m[i].1.to_value();
        let pair = (m[i].0.clone(), sv);
        entries.push(pair);
        i = i + 1;
    }
    proof {
        crate::value::lemma_pairs_rep_props(entries@);
        assert(pairs_rep(entries@) =~= socket_map_entries(m@));
    }
    PlistValue::Dictionary(entries)
}

/// Renders one event subsystem's events as a plist dictionary.
fn event_dict_value(m: &Vec<(String, Vec<(String, String)>)>) -> (r: PlistValue)
    ensures
        r@ == SpecValue::Dict(event_dict_entries(m@)),
{
    let mut entries: Vec<(String, PlistValue)> = Vec::new();
    let mut i: usize = 0;
    while i < m.len()
        invariant
            i <= m.len(),
            entries@.len() == i,
            forall|j: int| 0 <= j < i ==> entries@[j].0@ == m@[j].0@ && spec_value_of(
                #[trigger] entries@[j].1,
            ) == SpecValue::Dict(str_map_entries(m@[j].1@)),
        decreases m.len() - i,
    {
        let dv = crate::value::str_map_value(&m[i].1);
        let pair = (m[i].0.clone(), dv);
        entries.push(pair);
        i = i + 1;
    }
    proof {
        crate::value::lemma_pairs_rep_props(entries@);
        assert(pairs_rep(entries@) =~= event_dict_entries(m@));
    }
    PlistValue::Dictionary(entries)
}

/// Renders the launch-event map as a plist dictionary of dictionaries.
fn launch_events_value(m: &Vec<(String, Vec<(String, Vec<(String, String)>)>)>) -> (r: PlistValue)
    ensures
        r@ == SpecValue::Dict(launch_events_entries(m@)),
{
    let mut entries: Vec<(String, PlistValue)> = Vec::new();
    let mut i: usize = 0;
    while i < m.len()
        invariant
            i <= m.len(),
            entries@.len() == i,
            forall|j: int| 0 <= j < i ==> entries@[j].0@ == m@[j].0@ && spec_value_of(
                #[trigger] entries@[j].1,
            ) == SpecValue::Dict(event_dict_entries(m@[j].1@)),
        decreases m.len() - i,
    {
        let dv = event_dict_value(&m[i].1);
        let pair = (m[i].0.clone(), dv);
        entries.push(pair);
        i = i + 1;
    }
    proof {
        crate::value::lemma_pairs_rep_props(entries@);
        assert(pairs_rep(entries@) =~= launch_events_entries(m@));
    }
    PlistValue::Dictionary(entries)
}

/// Renders a list of calendar intervals as a plist array of dictionaries.
fn calendar_arr_value(a: &Vec<CalendarInterval>) -> (r: PlistValue)
    ensures
        r@ == SpecValue::Arr(a@.map_values(|c: CalendarInterval| calendar_interval_value(c))),
{
    let mut items: Vec<PlistValue> = Vec::new();
    let mut i: usize = 0;
    while i < a.len()
        invariant
            i <= a.len(),
            items@.len() == i,
            forall|j: int| 0 <= j < i ==> spec_value_of(#[trigger] items@[j])
                == calendar_interval_value(a@[j]),
        decreases a.len() - i,
    {
        let cv = a[i].to_value();
        items.push(cv);
        i = i + 1;
    }
    proof {
        crate::value::lemma_values_rep_props(items@);
        assert(values_rep(items@) =~= a@.map_values(
            |c: CalendarInterval| calendar_interval_value(c),
        ));
    }
    PlistValue::Array(items)
}

impl LaunchAgent {
    /// Renders the job as one dictionary: the label, then exactly the set
    /// optional fields, in declaration order, under their historical keys.
    #[verifier::rlimit(50)]
    pub fn to_value(&self) -> (v: PlistValue)
        ensures
            v@ == agent_value(*self),
    {
        let mut entries: Vec<(String, PlistValue)> = Vec::new();
        push_entry(&mut entries, "Label", PlistValue::String(self.label.clone()));
        push_opt_bool(&mut entries, "Disabled", self.disabled);
        push_opt_string(&mut entries, "UserName", &self.user_name);
        push_opt_string(&mut entries, "GroupName", &self.group_name);
        let iv = match &self.inetd_compatibility {
            Some(c) => Some(c.to_value()),
            None => None,
        };
        push_opt_value(
            &mut entries,
            "InetdCompatibility",
            iv,
            Ghost(opt_inetd(self.inetd_compatibility)),
        );
        push_opt_str_vec(&mut entries, "LimitLoadToHosts", &self.limit_load_to_hosts);
        push_opt_str_vec(&mut entries, "LimitLoadFromHosts", &self.limit_load_from_hosts);
        let stv = match &self.limit_load_to_session_type {
            Some(s) => Some(s.to_value()),
            None => None,
        };
        push_opt_value(
            &mut entries,
            "LimitLoadToSessionType",
            stv,
            Ghost(opt_session_type(self.limit_load_to_session_type)),
        );
        let hwv = match &self.limit_load_to_hardware {
            Some(m) => Some(crate::value::str_arr_map_value(m)),
            None => None,
        };
        push_opt_value(
            &mut entries,
            "LimitLoadToHardware",
            hwv,
            Ghost(opt_str_arr_map(self.limit_load_to_hardware)),
        );
        let hwfv = match &self.limit_load_from_hardware {
            Some(m) => Some(crate::value::str_arr_map_value(m)),
            None => None,
        };
        push_opt_value(
            &mut entries,
            "LimitLoadFromHardware",
            hwfv,
            Ghost(opt_str_arr_map(self.limit_load_from_hardware)),
        );
        push_opt_string(&mut entries, "Program", &self.program);
        push_opt_string(&mut entries, "BundleProgram", &self.bundle_program);
        push_opt_str_vec(&mut entries, "ProgramArguments", &self.program_arguments);
        push_opt_bool(&mut entries, "EnableGlobbing", self.enable_globbing);
        push_opt_bool(&mut entries, "EnableTransactions", self.enable_transactions);
        push_opt_bool(&mut entries, "EnablePressuredExit", self.enable_pressured_exit);
        push_opt_bool(&mut entries, "OnDemand", self.on_demand);
        push_opt_bool(&mut entries, "ServiceIPC", self.service_ipc);
        let kav = match &self.keep_alive {
            Some(k) => Some(k.to_value()),
            None => None,
        };
        push_opt_value(&mut entries, "KeepAlive", kav, Ghost(opt_keep_alive(self.keep_alive)));
        push_opt_bool(&mut entries, "RunAtLoad", self.run_at_load);
        push_opt_string(&mut entries, "RootDirectory", &self.root_directory);
        push_opt_string(&mut entries, "WorkingDirectory", &self.working_directory);
        let evv = match &self.environment_variables {
            Some(m) => Some(crate::value::str_map_value(m)),
            None => None,
        };
        push_opt_value(
            &mut entries,
            "EnvironmentVariables",
            evv,
            Ghost(opt_str_map(self.environment_variables)),
        );
        let umv = match &self.umask {
            Some(u) => Some(u.to_value()),
            None => None,
        };
        push_opt_value(&mut entries, "Umask", umv, Ghost(opt_string_or_u32(self.umask)));
        push_opt_u32(&mut entries, "TimeOut", self.time_out);
        push_opt_u32(&mut entries, "ExitTimeOut", self.exit_time_out);
        push_opt_u32(&mut entries, "ThrottleInterval", self.throttle_interval);
        push_opt_bool(&mut entries, "InitGroups", self.init_groups);
        push_opt_str_vec(&mut entries, "WatchPaths", &self.watch_paths);
        push_opt_str_vec(&mut entries, "QueueDirectories", &self.queue_directories);
        push_opt_bool(&mut entries, "StartOnMount", self.start_on_mount);
        push_opt_u32(&mut entries, "StartInterval", self.start_interval);
        let civ = match &self.start_calendar_interval {
            Some(a) => Some(calendar_arr_value(a)),
            None => None,
        };
        push_opt_value(
            &mut entries,
            "StartCalendarInterval",
            civ,
            Ghost(opt_calendar_arr(self.start_calendar_interval)),
        );
        push_opt_string(&mut entries, "StandardInPath", &self.standard_in_path);
        push_opt_string(&mut entries, "StandardOutPath", &self.standard_out_path);
        push_opt_string(&mut entries, "StandardErrorPath", &self.standard_error_path);
        push_opt_bool(&mut entries, "Debug", self.debug);
        push_opt_bool(&mut entries, "WaitForDebugger", self.wait_for_debugger);
        let srv = match &self.soft_resource_limits {
            Some(r) => Some(r.to_value()),
            None => None,
        };
        push_opt_value(
            &mut entries,
            "SoftResourceLimits",
            srv,
            Ghost(opt_resource_limits(self.soft_resource_limits)),
        );
        let hrv = match &self.hard_resource_limits {
            Some(r) => Some(r.to_value()),
            None => None,
        };
        push_opt_value(
            &mut entries,
            "HardResourceLimits",
            hrv,
            Ghost(opt_resource_limits(self.hard_resource_limits)),
        );
        push_opt_i8(&mut entries, "Nice", self.nice);
        let ptv = match &self.process_type {
            Some(p) => Some(p.to_value()),
            None => None,
        };
        push_opt_value(
            &mut entries,
            "ProcessType",
            ptv,
            Ghost(opt_process_type(self.process_type)),
        );
        push_opt_bool(&mut entries, "AbandonProcessGroup", self.abandon_process_group);
        push_opt_bool(&mut entries, "LowPriorityIO", self.low_priority_io);
        push_opt_bool(&mut entries, "LowPriorityBackgroundIO", self.low_priority_background_io);
        push_opt_bool(&mut entries, "MaterializedDatalessFiles", self.materialized_dataless_files);
        push_opt_bool(&mut entries, "LaunchOnlyOnce", self.launch_only_once);
        let msv = match &self.mach_services {
            Some(m) => Some(mach_map_value(m)),
            None => None,
        };
        push_opt_value(&mut entries, "MachServices", msv, Ghost(opt_mach_map(self.mach_services)));
        let skv = match &self.sockets {
            Some(m) => Some(socket_map_value(m)),
            None => None,
        };
        push_opt_value(&mut entries, "Sockets", skv, Ghost(opt_socket_map(self.sockets)));
        let lev = match &self.launch_events {
            Some(m) => Some(launch_events_value(m)),
            None => None,
        };
        push_opt_value(
            &mut entries,
            "LaunchEvents",
            lev,
            Ghost(opt_launch_events(self.launch_events)),
        );
        push_opt_string(&mut entries, "HopefullyExitsLast", &self.hopefully_exits_last);
        push_opt_string(&mut entries, "HopefullyExitsFirst", &self.hopefully_exits_first);
        push_opt_bool(&mut entries, "SessionCreate", self.session_create);
        push_opt_bool(&mut entries, "LegacyTimers", self.legacy_timers);
        let abv = match &self.associated_bundle_identifiers {
            Some(s) => Some(s.to_value()),
            None => None,
        };
        push_opt_value(
            &mut entries,
            "AssociatedBundleIdentifiers",
            abv,
            Ghost(opt_string_or_vec(self.associated_bundle_identifiers)),
        );
        proof {
            assert(pairs_rep(entries@) == agent_entries(*self));
        }
        PlistValue::Dictionary(entries)
    }
}

/// Scanning the rendered entries resolves the keys of fields 1 through 11;
/// any other key falls through to the earlier entries.
#[verifier::rlimit(100)]
proof fn lemma_agent_scan_1(a: LaunchAgent)
    ensures
        forall|k: Seq<char>| #[trigger] dict_get(opt_entry("Label"@, Some(SpecValue::Str(a.label@)))
            + opt_entry("Disabled"@, opt_bool(a.disabled))
            + opt_entry("UserName"@, opt_string(a.user_name))
            + opt_entry("GroupName"@, opt_string(a.group_name))
            + opt_entry("InetdCompatibility"@, opt_inetd(a.inetd_compatibility))
            + opt_entry("LimitLoadToHosts"@, opt_str_arr(a.limit_load_to_hosts))
            + opt_entry("LimitLoadFromHosts"@, opt_str_arr(a.limit_load_from_hosts))
            + opt_entry("LimitLoadToSessionType"@, opt_session_type(a.limit_load_to_session_type))
            + opt_entry("LimitLoadToHardware"@, opt_str_arr_map(a.limit_load_to_hardware))
            + opt_entry("LimitLoadFromHardware"@, opt_str_arr_map(a.limit_load_from_hardware))
            + opt_entry("Program"@, opt_string(a.program)), k) == (if k == "Program"@ && a.program is Some {
            opt_string(a.program)
        } else {
            if k == "LimitLoadFromHardware"@ && a.limit_load_from_hardware is Some {
            opt_str_arr_map(a.limit_load_from_hardware)
        } else {
            if k == "LimitLoadToHardware"@ && a.limit_load_to_hardware is Some {
            opt_str_arr_map(a.limit_load_to_hardware)
        } else {
            if k == "LimitLoadToSessionType"@ && a.limit_load_to_session_type is Some {
            opt_session_type(a.limit_load_to_session_type)
        } else {
            if k == "LimitLoadFromHosts"@ && a.limit_load_from_hosts is Some {
            opt_str_arr(a.limit_load_from_hosts)
        } else {
            if k == "LimitLoadToHosts"@ && a.limit_load_to_hosts is Some {
            opt_str_arr(a.limit_load_to_hosts)
        } else {
            if k == "InetdCompatibility"@ && a.inetd_compatibility is Some {
            opt_inetd(a.inetd_compatibility)
        } else {
            if k == "GroupName"@ && a.group_name is Some {
            opt_string(a.group_name)
        } else {
            if k == "UserName"@ && a.user_name is Some {
            opt_string(a.user_name)
        } else {
            if k == "Disabled"@ && a.disabled is Some {
            opt_bool(a.disabled)
        } else {
            if k == "Label"@ {
            Some(SpecValue::Str(a.label@))
        } else {
            None
        }
        }
        }
        }
        }
        }
        }
        }
        }
        }
        }),
{
}

/// Scanning the rendered entries resolves the keys of fields 12 through 22;
/// any other key falls through to the earlier entries.
#[verifier::rlimit(100)]
proof fn lemma_agent_scan_2(a: LaunchAgent)
    ensures
        forall|k: Seq<char>| #[trigger] dict_get(opt_entry("Label"@, Some(SpecValue::Str(a.label@)))
            + opt_entry("Disabled"@, opt_bool(a.disabled))
            + opt_entry("UserName"@, opt_string(a.user_name))
            + opt_entry("GroupName"@, opt_string(a.group_name))
            + opt_entry("InetdCompatibility"@, opt_inetd(a.inetd_compatibility))
            + opt_entry("LimitLoadToHosts"@, opt_str_arr(a.limit_load_to_hosts))
            + opt_entry("LimitLoadFromHosts"@, opt_str_arr(a.limit_load_from_hosts))
            + opt_entry("LimitLoadToSessionType"@, opt_session_type(a.limit_load_to_session_type))
            + opt_entry("LimitLoadToHardware"@, opt_str_arr_map(a.limit_load_to_hardware))
            + opt_entry("LimitLoadFromHardware"@, opt_str_arr_map(a.limit_load_from_hardware))
            + opt_entry("Program"@, opt_string(a.program))
            + opt_entry("BundleProgram"@, opt_string(a.bundle_program))
            + opt_entry("ProgramArguments"@, opt_str_arr(a.program_arguments))
            + opt_entry("EnableGlobbing"@, opt_bool(a.enable_globbing))
            + opt_entry("EnableTransactions"@, opt_bool(a.enable_transactions))
            + opt_entry("EnablePressuredExit"@, opt_bool(a.enable_pressured_exit))
            + opt_entry("OnDemand"@, opt_bool(a.on_demand))
            + opt_entry("ServiceIPC"@, opt_bool(a.service_ipc))
            + opt_entry("KeepAlive"@, opt_keep_alive(a.keep_alive))
            + opt_entry("RunAtLoad"@, opt_bool(a.run_at_load))
            + opt_entry("RootDirectory"@, opt_string(a.root_directory))
            + opt_entry("WorkingDirectory"@, opt_string(a.working_directory)), k) == (
            if k == "WorkingDirectory"@ && a.working_directory is Some {
            opt_string(a.working_directory)
        } else {
            if k == "RootDirectory"@ && a.root_directory is Some {
            opt_string(a.root_directory)
        } else {
            if k == "RunAtLoad"@ && a.run_at_load is Some {
            opt_bool(a.run_at_load)
        } else {
            if k == "KeepAlive"@ && a.keep_alive is Some {
            opt_keep_alive(a.keep_alive)
        } else {
            if k == "ServiceIPC"@ && a.service_ipc is Some {
            opt_bool(a.service_ipc)
        } else {
            if k == "OnDemand"@ && a.on_demand is Some {
            opt_bool(a.on_demand)
        } else {
            if k == "EnablePressuredExit"@ && a.enable_pressured_exit is Some {
            opt_bool(a.enable_pressured_exit)
        } else {
            if k == "EnableTransactions"@ && a.enable_transactions is Some {
            opt_bool(a.enable_transactions)
        } else {
            if k == "EnableGlobbing"@ && a.enable_globbing is Some {
            opt_bool(a.enable_globbing)
        } else {
            if k == "ProgramArguments"@ && a.program_arguments is Some {
            opt_str_arr(a.program_arguments)
        } else {
            if k == "BundleProgram"@ && a.bundle_program is Some {
            opt_string(a.bundle_program)
        } else {
            dict_get(opt_entry("Label"@, Some(SpecValue::Str(a.label@)))
                + opt_entry("Disabled"@, opt_bool(a.disabled))
                + opt_entry("UserName"@, opt_string(a.user_name))
                + opt_entry("GroupName"@, opt_string(a.group_name))
                + opt_entry("InetdCompatibility"@, opt_inetd(a.inetd_compatibility))
                + opt_entry("LimitLoadToHosts"@, opt_str_arr(a.limit_load_to_hosts))
                + opt_entry("LimitLoadFromHosts"@, opt_str_arr(a.limit_load_from_hosts))
                + opt_entry("LimitLoadToSessionType"@, opt_session_type(a.limit_load_to_session_type))
                + opt_entry("LimitLoadToHardware"@, opt_str_arr_map(a.limit_load_to_hardware))
                + opt_entry("LimitLoadFromHardware"@, opt_str_arr_map(a.limit_load_from_hardware))
                + opt_entry("Program"@, opt_string(a.program)), k)
        }
        }
        }
        }
        }
        }
        }
        }
        }
        }
        }),
{
}

/// Scanning the rendered entries resolves the keys of fields 23 through 33;
/// any other key falls through to the earlier entries.
#[verifier::rlimit(100)]
proof fn lemma_agent_scan_3(a: LaunchAgent)
    ensures
        forall|k: Seq<char>| #[trigger] dict_get(opt_entry("Label"@, Some(SpecValue::Str(a.label@)))
            + opt_entry("Disabled"@, opt_bool(a.disabled))
            + opt_entry("UserName"@, opt_string(a.user_name))
            + opt_entry("GroupName"@, opt_string(a.group_name))
            + opt_entry("InetdCompatibility"@, opt_inetd(a.inetd_compatibility))
            + opt_entry("LimitLoadToHosts"@, opt_str_arr(a.limit_load_to_hosts))
            + opt_entry("LimitLoadFromHosts"@, opt_str_arr(a.limit_load_from_hosts))
            + opt_entry("LimitLoadToSessionType"@, opt_session_type(a.limit_load_to_session_type))
            + opt_entry("LimitLoadToHardware"@, opt_str_arr_map(a.limit_load_to_hardware))
            + opt_entry("LimitLoadFromHardware"@, opt_str_arr_map(a.limit_load_from_hardware))
            + opt_entry("Program"@, opt_string(a.program))
            + opt_entry("BundleProgram"@, opt_string(a.bundle_program))
            + opt_entry("ProgramArguments"@, opt_str_arr(a.program_arguments))
            + opt_entry("EnableGlobbing"@, opt_bool(a.enable_globbing))
            + opt_entry("EnableTransactions"@, opt_bool(a.enable_transactions))
            + opt_entry("EnablePressuredExit"@, opt_bool(a.enable_pressured_exit))
            + opt_entry("OnDemand"@, opt_bool(a.on_demand))
            + opt_entry("ServiceIPC"@, opt_bool(a.service_ipc))
            + opt_entry("KeepAlive"@, opt_keep_alive(a.keep_alive))
            + opt_entry("RunAtLoad"@, opt_bool(a.run_at_load))
            + opt_entry("RootDirectory"@, opt_string(a.root_directory))
            + opt_entry("WorkingDirectory"@, opt_string(a.working_directory))
            + opt_entry("EnvironmentVariables"@, opt_str_map(a.environment_variables))
            + opt_entry("Umask"@, opt_string_or_u32(a.umask))
            + opt_entry("TimeOut"@, opt_u32(a.time_out))
            + opt_entry("ExitTimeOut"@, opt_u32(a.exit_time_out))
            + opt_entry("ThrottleInterval"@, opt_u32(a.throttle_interval))
            + opt_entry("InitGroups"@, opt_bool(a.init_groups))
            + opt_entry("WatchPaths"@, opt_str_arr(a.watch_paths))
            + opt_entry("QueueDirectories"@, opt_str_arr(a.queue_directories))
            + opt_entry("StartOnMount"@, opt_bool(a.start_on_mount))
            + opt_entry("StartInterval"@, opt_u32(a.start_interval))
            + opt_entry("StartCalendarInterval"@, opt_calendar_arr(a.start_calendar_interval)), k) == (
            if k == "StartCalendarInterval"@ && a.start_calendar_interval is Some {
            opt_calendar_arr(a.start_calendar_interval)
        } else {
            if k == "StartInterval"@ && a.start_interval is Some {
            opt_u32(a.start_interval)
        } else {
            if k == "StartOnMount"@ && a.start_on_mount is Some {
            opt_bool(a.start_on_mount)
        } else {
            if k == "QueueDirectories"@ && a.queue_directories is Some {
            opt_str_arr(a.queue_directories)
        } else {
            if k == "WatchPaths"@ && a.watch_paths is Some {
            opt_str_arr(a.watch_paths)
        } else {
            if k == "InitGroups"@ && a.init_groups is Some {
            opt_bool(a.init_groups)
        } else {
            if k == "ThrottleInterval"@ && a.throttle_interval is Some {
            opt_u32(a.throttle_interval)
        } else {
            if k == "ExitTimeOut"@ && a.exit_time_out is Some {
            opt_u32(a.exit_time_out)
        } else {
            if k == "TimeOut"@ && a.time_out is Some {
            opt_u32(a.time_out)
        } else {
            if k == "Umask"@ && a.umask is Some {
            opt_string_or_u32(a.umask)
        } else {
            if k == "EnvironmentVariables"@ && a.environment_variables is Some {
            opt_str_map(a.environment_variables)
        } else {
            dict_get(opt_entry("Label"@, Some(SpecValue::Str(a.label@)))
                + opt_entry("Disabled"@, opt_bool(a.disabled))
                + opt_entry("UserName"@, opt_string(a.user_name))
                + opt_entry("GroupName"@, opt_string(a.group_name))
                + opt_entry("InetdCompatibility"@, opt_inetd(a.inetd_compatibility))
                + opt_entry("LimitLoadToHosts"@, opt_str_arr(a.limit_load_to_hosts))
                + opt_entry("LimitLoadFromHosts"@, opt_str_arr(a.limit_load_from_hosts))
                + opt_entry("LimitLoadToSessionType"@, opt_session_type(a.limit_load_to_session_type))
                + opt_entry("LimitLoadToHardware"@, opt_str_arr_map(a.limit_load_to_hardware))
                + opt_entry("LimitLoadFromHardware"@, opt_str_arr_map(a.limit_load_from_hardware))
                + opt_entry("Program"@, opt_string(a.program))
                + opt_entry("BundleProgram"@, opt_string(a.bundle_program))
                + opt_entry("ProgramArguments"@, opt_str_arr(a.program_arguments))
                + opt_entry("EnableGlobbing"@, opt_bool(a.enable_globbing))
                + opt_entry("EnableTransactions"@, opt_bool(a.enable_transactions))
                + opt_entry("EnablePressuredExit"@, opt_bool(a.enable_pressured_exit))
                + opt_entry("OnDemand"@, opt_bool(a.on_demand))
                + opt_entry("ServiceIPC"@, opt_bool(a.service_ipc))
                + opt_entry("KeepAlive"@, opt_keep_alive(a.keep_alive))
                + opt_entry("RunAtLoad"@, opt_bool(a.run_at_load))
                + opt_entry("RootDirectory"@, opt_string(a.root_directory))
                + opt_entry("WorkingDirectory"@, opt_string(a.working_directory)), k)
        }
        }
        }
        }
        }
        }
        }
        }
        }
        }
        }),
{
}

/// Scanning the rendered entries resolves the keys of fields 34 through 44;
/// any other key falls through to the earlier entries.
#[verifier::rlimit(100)]
proof fn lemma_agent_scan_4(a: LaunchAgent)
    ensures
        forall|k: Seq<char>| #[trigger] dict_get(opt_entry("Label"@, Some(SpecValue::Str(a.label@)))
            + opt_entry("Disabled"@, opt_bool(a.disabled))
            + opt_entry("UserName"@, opt_string(a.user_name))
            + opt_entry("GroupName"@, opt_string(a.group_name))
            + opt_entry("InetdCompatibility"@, opt_inetd(a.inetd_compatibility))
            + opt_entry("LimitLoadToHosts"@, opt_str_arr(a.limit_load_to_hosts))
            + opt_entry("LimitLoadFromHosts"@, opt_str_arr(a.limit_load_from_hosts))
            + opt_entry("LimitLoadToSessionType"@, opt_session_type(a.limit_load_to_session_type))
            + opt_entry("LimitLoadToHardware"@, opt_str_arr_map(a.limit_load_to_hardware))
            + opt_entry("LimitLoadFromHardware"@, opt_str_arr_map(a.limit_load_from_hardware))
            + opt_entry("Program"@, opt_string(a.program))
            + opt_entry("BundleProgram"@, opt_string(a.bundle_program))
            + opt_entry("ProgramArguments"@, opt_str_arr(a.program_arguments))
            + opt_entry("EnableGlobbing"@, opt_bool(a.enable_globbing))
            + opt_entry("EnableTransactions"@, opt_bool(a.enable_transactions))
            + opt_entry("EnablePressuredExit"@, opt_bool(a.enable_pressured_exit))
            + opt_entry("OnDemand"@, opt_bool(a.on_demand))
            + opt_entry("ServiceIPC"@, opt_bool(a.service_ipc))
            + opt_entry("KeepAlive"@, opt_keep_alive(a.keep_alive))
            + opt_entry("RunAtLoad"@, opt_bool(a.run_at_load))
            + opt_entry("RootDirectory"@, opt_string(a.root_directory))
            + opt_entry("WorkingDirectory"@, opt_string(a.working_directory))
            + opt_entry("EnvironmentVariables"@, opt_str_map(a.environment_variables))
            + opt_entry("Umask"@, opt_string_or_u32(a.umask))
            + opt_entry("TimeOut"@, opt_u32(a.time_out))
            + opt_entry("ExitTimeOut"@, opt_u32(a.exit_time_out))
            + opt_entry("ThrottleInterval"@, opt_u32(a.throttle_interval))
            + opt_entry("InitGroups"@, opt_bool(a.init_groups))
            + opt_entry("WatchPaths"@, opt_str_arr(a.watch_paths))
            + opt_entry("QueueDirectories"@, opt_str_arr(a.queue_directories))
            + opt_entry("StartOnMount"@, opt_bool(a.start_on_mount))
            + opt_entry("StartInterval"@, opt_u32(a.start_interval))
            + opt_entry("StartCalendarInterval"@, opt_calendar_arr(a.start_calendar_interval))
            + opt_entry("StandardInPath"@, opt_string(a.standard_in_path))
            + opt_entry("StandardOutPath"@, opt_string(a.standard_out_path))
            + opt_entry("StandardErrorPath"@, opt_string(a.standard_error_path))
            + opt_entry("Debug"@, opt_bool(a.debug))
            + opt_entry("WaitForDebugger"@, opt_bool(a.wait_for_debugger))
            + opt_entry("SoftResourceLimits"@, opt_resource_limits(a.soft_resource_limits))
            + opt_entry("HardResourceLimits"@, opt_resource_limits(a.hard_resource_limits))
            + opt_entry("Nice"@, opt_i8(a.nice))
            + opt_entry("ProcessType"@, opt_process_type(a.process_type))
            + opt_entry("AbandonProcessGroup"@, opt_bool(a.abandon_process_group))
            + opt_entry("LowPriorityIO"@, opt_bool(a.low_priority_io)), k) == (
            if k == "LowPriorityIO"@ && a.low_priority_io is Some {
            opt_bool(a.low_priority_io)
        } else {
            if k == "AbandonProcessGroup"@ && a.abandon_process_group is Some {
            opt_bool(a.abandon_process_group)
        } else {
            if k == "ProcessType"@ && a.process_type is Some {
            opt_process_type(a.process_type)
        } else {
            if k == "Nice"@ && a.nice is Some {
            opt_i8(a.nice)
        } else {
            if k == "HardResourceLimits"@ && a.hard_resource_limits is Some {
            opt_resource_limits(a.hard_resource_limits)
        } else {
            if k == "SoftResourceLimits"@ && a.soft_resource_limits is Some {
            opt_resource_limits(a.soft_resource_limits)
        } else {
            if k == "WaitForDebugger"@ && a.wait_for_debugger is Some {
            opt_bool(a.wait_for_debugger)
        } else {
            if k == "Debug"@ && a.debug is Some {
            opt_bool(a.debug)
        } else {
            if k == "StandardErrorPath"@ && a.standard_error_path is Some {
            opt_string(a.standard_error_path)
        } else {
            if k == "StandardOutPath"@ && a.standard_out_path is Some {
            opt_string(a.standard_out_path)
        } else {
            if k == "StandardInPath"@ && a.standard_in_path is Some {
            opt_string(a.standard_in_path)
        } else {
            dict_get(opt_entry("Label"@, Some(SpecValue::Str(a.label@)))
                + opt_entry("Disabled"@, opt_bool(a.disabled))
                + opt_entry("UserName"@, opt_string(a.user_name))
                + opt_entry("GroupName"@, opt_string(a.group_name))
                + opt_entry("InetdCompatibility"@, opt_inetd(a.inetd_compatibility))
                + opt_entry("LimitLoadToHosts"@, opt_str_arr(a.limit_load_to_hosts))
                + opt_entry("LimitLoadFromHosts"@, opt_str_arr(a.limit_load_from_hosts))
                + opt_entry("LimitLoadToSessionType"@, opt_session_type(a.limit_load_to_session_type))
                + opt_entry("LimitLoadToHardware"@, opt_str_arr_map(a.limit_load_to_hardware))
                + opt_entry("LimitLoadFromHardware"@, opt_str_arr_map(a.limit_load_from_hardware))
                + opt_entry("Program"@, opt_string(a.program))
                + opt_entry("BundleProgram"@, opt_string(a.bundle_program))
                + opt_entry("ProgramArguments"@, opt_str_arr(a.program_arguments))
                + opt_entry("EnableGlobbing"@, opt_bool(a.enable_globbing))
                + opt_entry("EnableTransactions"@, opt_bool(a.enable_transactions))
                + opt_entry("EnablePressuredExit"@, opt_bool(a.enable_pressured_exit))
                + opt_entry("OnDemand"@, opt_bool(a.on_demand))
                + opt_entry("ServiceIPC"@, opt_bool(a.service_ipc))
                + opt_entry("KeepAlive"@, opt_keep_alive(a.keep_alive))
                + opt_entry("RunAtLoad"@, opt_bool(a.run_at_load))
                + opt_entry("RootDirectory"@, opt_string(a.root_directory))
                + opt_entry("WorkingDirectory"@, opt_string(a.working_directory))
                + opt_entry("EnvironmentVariables"@, opt_str_map(a.environment_variables))
                + opt_entry("Umask"@, opt_string_or_u32(a.umask))
                + opt_entry("TimeOut"@, opt_u32(a.time_out))
                + opt_entry("ExitTimeOut"@, opt_u32(a.exit_time_out))
                + opt_entry("ThrottleInterval"@, opt_u32(a.throttle_interval))
                + opt_entry("InitGroups"@, opt_bool(a.init_groups))
                + opt_entry("WatchPaths"@, opt_str_arr(a.watch_paths))
                + opt_entry("QueueDirectories"@, opt_str_arr(a.queue_directories))
                + opt_entry("StartOnMount"@, opt_bool(a.start_on_mount))
                + opt_entry("StartInterval"@, opt_u32(a.start_interval))
                + opt_entry("StartCalendarInterval"@, opt_calendar_arr(a.start_calendar_interval)), k)
        }
        }
        }
        }
        }
        }
        }
        }
        }
        }
        }),
{
}

/// Scanning the rendered entries resolves the keys of fields 45 through 55;
/// any other key falls through to the earlier entries.
#[verifier::rlimit(100)]
proof fn lemma_agent_scan_5(a: LaunchAgent)
    ensures
        forall|k: Seq<char>| #[trigger] dict_get(agent_entries(a), k) == (
        if k == "AssociatedBundleIdentifiers"@ && a.associated_bundle_identifiers is Some {
            opt_string_or_vec(a.associated_bundle_identifiers)
        } else {
            if k == "LegacyTimers"@ && a.legacy_timers is Some {
            opt_bool(a.legacy_timers)
        } else {
            if k == "SessionCreate"@ && a.session_create is Some {
            opt_bool(a.session_create)
        } else {
            if k == "HopefullyExitsFirst"@ && a.hopefully_exits_first is Some {
            opt_string(a.hopefully_exits_first)
        } else {
            if k == "HopefullyExitsLast"@ && a.hopefully_exits_last is Some {
            opt_string(a.hopefully_exits_last)
        } else {
            if k == "LaunchEvents"@ && a.launch_events is Some {
            opt_launch_events(a.launch_events)
        } else {
            if k == "Sockets"@ && a.sockets is Some {
            opt_socket_map(a.sockets)
        } else {
            if k == "MachServices"@ && a.mach_services is Some {
            opt_mach_map(a.mach_services)
        } else {
            if k == "LaunchOnlyOnce"@ && a.launch_only_once is Some {
            opt_bool(a.launch_only_once)
        } else {
            if k == "MaterializedDatalessFiles"@ && a.materialized_dataless_files is Some {
            opt_bool(a.materialized_dataless_files)
        } else {
            if k == "LowPriorityBackgroundIO"@ && a.low_priority_background_io is Some {
            opt_bool(a.low_priority_background_io)
        } else {
            dict_get(opt_entry("Label"@, Some(SpecValue::Str(a.label@)))
                + opt_entry("Disabled"@, opt_bool(a.disabled))
                + opt_entry("UserName"@, opt_string(a.user_name))
                + opt_entry("GroupName"@, opt_string(a.group_name))
                + opt_entry("InetdCompatibility"@, opt_inetd(a.inetd_compatibility))
                + opt_entry("LimitLoadToHosts"@, opt_str_arr(a.limit_load_to_hosts))
                + opt_entry("LimitLoadFromHosts"@, opt_str_arr(a.limit_load_from_hosts))
                + opt_entry("LimitLoadToSessionType"@, opt_session_type(a.limit_load_to_session_type))
                + opt_entry("LimitLoadToHardware"@, opt_str_arr_map(a.limit_load_to_hardware))
                + opt_entry("LimitLoadFromHardware"@, opt_str_arr_map(a.limit_load_from_hardware))
                + opt_entry("Program"@, opt_string(a.program))
                + opt_entry("BundleProgram"@, opt_string(a.bundle_program))
                + opt_entry("ProgramArguments"@, opt_str_arr(a.program_arguments))
                + opt_entry("EnableGlobbing"@, opt_bool(a.enable_globbing))
                + opt_entry("EnableTransactions"@, opt_bool(a.enable_transactions))
                + opt_entry("EnablePressuredExit"@, opt_bool(a.enable_pressured_exit))
                + opt_entry("OnDemand"@, opt_bool(a.on_demand))
                + opt_entry("ServiceIPC"@, opt_bool(a.service_ipc))
                + opt_entry("KeepAlive"@, opt_keep_alive(a.keep_alive))
                + opt_entry("RunAtLoad"@, opt_bool(a.run_at_load))
                + opt_entry("RootDirectory"@, opt_string(a.root_directory))
                + opt_entry("WorkingDirectory"@, opt_string(a.working_directory))
                + opt_entry("EnvironmentVariables"@, opt_str_map(a.environment_variables))
                + opt_entry("Umask"@, opt_string_or_u32(a.umask))
                + opt_entry("TimeOut"@, opt_u32(a.time_out))
                + opt_entry("ExitTimeOut"@, opt_u32(a.exit_time_out))
                + opt_entry("ThrottleInterval"@, opt_u32(a.throttle_interval))
                + opt_entry("InitGroups"@, opt_bool(a.init_groups))
                + opt_entry("WatchPaths"@, opt_str_arr(a.watch_paths))
                + opt_entry("QueueDirectories"@, opt_str_arr(a.queue_directories))
                + opt_entry("StartOnMount"@, opt_bool(a.start_on_mount))
                + opt_entry("StartInterval"@, opt_u32(a.start_interval))
                + opt_entry("StartCalendarInterval"@, opt_calendar_arr(a.start_calendar_interval))
                + opt_entry("StandardInPath"@, opt_string(a.standard_in_path))
                + opt_entry("StandardOutPath"@, opt_string(a.standard_out_path))
                + opt_entry("StandardErrorPath"@, opt_string(a.standard_error_path))
                + opt_entry("Debug"@, opt_bool(a.debug))
                + opt_entry("WaitForDebugger"@, opt_bool(a.wait_for_debugger))
                + opt_entry("SoftResourceLimits"@, opt_resource_limits(a.soft_resource_limits))
                + opt_entry("HardResourceLimits"@, opt_resource_limits(a.hard_resource_limits))
                + opt_entry("Nice"@, opt_i8(a.nice))
                + opt_entry("ProcessType"@, opt_process_type(a.process_type))
                + opt_entry("AbandonProcessGroup"@, opt_bool(a.abandon_process_group))
                + opt_entry("LowPriorityIO"@, opt_bool(a.low_priority_io)), k)
        }
        }
        }
        }
        }
        }
        }
        }
        }
        }
        }),
{
    let d = opt_entry("Label"@, Some(SpecValue::Str(a.label@)))
        + opt_entry("Disabled"@, opt_bool(a.disabled))
        + opt_entry("UserName"@, opt_string(a.user_name))
        + opt_entry("GroupName"@, opt_string(a.group_name))
        + opt_entry("InetdCompatibility"@, opt_inetd(a.inetd_compatibility))
        + opt_entry("LimitLoadToHosts"@, opt_str_arr(a.limit_load_to_hosts))
        + opt_entry("LimitLoadFromHosts"@, opt_str_arr(a.limit_load_from_hosts))
        + opt_entry("LimitLoadToSessionType"@, opt_session_type(a.limit_load_to_session_type))
        + opt_entry("LimitLoadToHardware"@, opt_str_arr_map(a.limit_load_to_hardware))
        + opt_entry("LimitLoadFromHardware"@, opt_str_arr_map(a.limit_load_from_hardware))
        + opt_entry("Program"@, opt_string(a.program))
        + opt_entry("BundleProgram"@, opt_string(a.bundle_program))
        + opt_entry("ProgramArguments"@, opt_str_arr(a.program_arguments))
        + opt_entry("EnableGlobbing"@, opt_bool(a.enable_globbing))
        + opt_entry("EnableTransactions"@, opt_bool(a.enable_transactions))
        + opt_entry("EnablePressuredExit"@, opt_bool(a.enable_pressured_exit))
        + opt_entry("OnDemand"@, opt_bool(a.on_demand))
        + opt_entry("ServiceIPC"@, opt_bool(a.service_ipc))
        + opt_entry("KeepAlive"@, opt_keep_alive(a.keep_alive))
        + opt_entry("RunAtLoad"@, opt_bool(a.run_at_load))
        + opt_entry("RootDirectory"@, opt_string(a.root_directory))
        + opt_entry("WorkingDirectory"@, opt_string(a.working_directory))
        + opt_entry("EnvironmentVariables"@, opt_str_map(a.environment_variables))
        + opt_entry("Umask"@, opt_string_or_u32(a.umask))
        + opt_entry("TimeOut"@, opt_u32(a.time_out))
        + opt_entry("ExitTimeOut"@, opt_u32(a.exit_time_out))
        + opt_entry("ThrottleInterval"@, opt_u32(a.throttle_interval))
        + opt_entry("InitGroups"@, opt_bool(a.init_groups))
        + opt_entry("WatchPaths"@, opt_str_arr(a.watch_paths))
        + opt_entry("QueueDirectories"@, opt_str_arr(a.queue_directories))
        + opt_entry("StartOnMount"@, opt_bool(a.start_on_mount))
        + opt_entry("StartInterval"@, opt_u32(a.start_interval))
        + opt_entry("StartCalendarInterval"@, opt_calendar_arr(a.start_calendar_interval))
        + opt_entry("StandardInPath"@, opt_string(a.standard_in_path))
        + opt_entry("StandardOutPath"@, opt_string(a.standard_out_path))
        + opt_entry("StandardErrorPath"@, opt_string(a.standard_error_path))
        + opt_entry("Debug"@, opt_bool(a.debug))
        + opt_entry("WaitForDebugger"@, opt_bool(a.wait_for_debugger))
        + opt_entry("SoftResourceLimits"@, opt_resource_limits(a.soft_resource_limits))
        + opt_entry("HardResourceLimits"@, opt_resource_limits(a.hard_resource_limits))
        + opt_entry("Nice"@, opt_i8(a.nice))
        + opt_entry("ProcessType"@, opt_process_type(a.process_type))
        + opt_entry("AbandonProcessGroup"@, opt_bool(a.abandon_process_group))
        + opt_entry("LowPriorityIO"@, opt_bool(a.low_priority_io))
        + opt_entry("LowPriorityBackgroundIO"@, opt_bool(a.low_priority_background_io))
        + opt_entry("MaterializedDatalessFiles"@, opt_bool(a.materialized_dataless_files))
        + opt_entry("LaunchOnlyOnce"@, opt_bool(a.launch_only_once))
        + opt_entry("MachServices"@, opt_mach_map(a.mach_services))
        + opt_entry("Sockets"@, opt_socket_map(a.sockets))
        + opt_entry("LaunchEvents"@, opt_launch_events(a.launch_events))
        + opt_entry("HopefullyExitsLast"@, opt_string(a.hopefully_exits_last))
        + opt_entry("HopefullyExitsFirst"@, opt_string(a.hopefully_exits_first))
        + opt_entry("SessionCreate"@, opt_bool(a.session_create))
        + opt_entry("LegacyTimers"@, opt_bool(a.legacy_timers))
        + opt_entry("AssociatedBundleIdentifiers"@, opt_string_or_vec(a.associated_bundle_identifiers));
    assert(agent_entries(a) == d);
}

/// The lookups of fields 1 through 11, resolved against the scan.
#[verifier::rlimit(100)]
proof fn lemma_agent_lookup_a(a: LaunchAgent)
    ensures
        dict_get(agent_entries(a), "Label"@) == Some(SpecValue::Str(a.label@)),
        dict_get(agent_entries(a), "Disabled"@) == opt_bool(a.disabled),
        dict_get(agent_entries(a), "UserName"@) == opt_string(a.user_name),
        dict_get(agent_entries(a), "GroupName"@) == opt_string(a.group_name),
        dict_get(agent_entries(a), "InetdCompatibility"@) == opt_inetd(a.inetd_compatibility),
        dict_get(agent_entries(a), "LimitLoadToHosts"@) == opt_str_arr(a.limit_load_to_hosts),
        dict_get(agent_entries(a), "LimitLoadFromHosts"@) == opt_str_arr(a.limit_load_from_hosts),
        dict_get(agent_entries(a), "LimitLoadToSessionType"@) == opt_session_type(a.limit_load_to_session_type),
        dict_get(agent_entries(a), "LimitLoadToHardware"@) == opt_str_arr_map(a.limit_load_to_hardware),
        dict_get(agent_entries(a), "LimitLoadFromHardware"@) == opt_str_arr_map(a.limit_load_from_hardware),
        dict_get(agent_entries(a), "Program"@) == opt_string(a.program),
{
    lemma_agent_scan_5(a);
    lemma_agent_scan_4(a);
    lemma_agent_scan_3(a);
    lemma_agent_scan_2(a);
    lemma_agent_scan_1(a);
    reveal_strlit("Label");
    reveal_strlit("Disabled");
    reveal_strlit("UserName");
    reveal_strlit("GroupName");
    reveal_strlit("InetdCompatibility");
    reveal_strlit("LimitLoadToHosts");
    reveal_strlit("LimitLoadFromHosts");
    reveal_strlit("LimitLoadToSessionType");
    reveal_strlit("LimitLoadToHardware");
    reveal_strlit("LimitLoadFromHardware");
    reveal_strlit("Program");
    reveal_strlit("BundleProgram");
    reveal_strlit("ProgramArguments");
    reveal_strlit("EnableGlobbing");
    reveal_strlit("EnableTransactions");
    reveal_strlit("EnablePressuredExit");
    reveal_strlit("OnDemand");
    reveal_strlit("ServiceIPC");
    reveal_strlit("KeepAlive");
    reveal_strlit("RunAtLoad");
    reveal_strlit("RootDirectory");
    reveal_strlit("WorkingDirectory");
    reveal_strlit("EnvironmentVariables");
    reveal_strlit("Umask");
    reveal_strlit("TimeOut");
    reveal_strlit("ExitTimeOut");
    reveal_strlit("ThrottleInterval");
    reveal_strlit("InitGroups");
    reveal_strlit("WatchPaths");
    reveal_strlit("QueueDirectories");
    reveal_strlit("StartOnMount");
    reveal_strlit("StartInterval");
    reveal_strlit("StartCalendarInterval");
    reveal_strlit("StandardInPath");
    reveal_strlit("StandardOutPath");
    reveal_strlit("StandardErrorPath");
    reveal_strlit("Debug");
    reveal_strlit("WaitForDebugger");
    reveal_strlit("SoftResourceLimits");
    reveal_strlit("HardResourceLimits");
    reveal_strlit("Nice");
    reveal_strlit("ProcessType");
    reveal_strlit("AbandonProcessGroup");
    reveal_strlit("LowPriorityIO");
    reveal_strlit("LowPriorityBackgroundIO");
    reveal_strlit("MaterializedDatalessFiles");
    reveal_strlit("LaunchOnlyOnce");
    reveal_strlit("MachServices");
    reveal_strlit("Sockets");
    reveal_strlit("LaunchEvents");
    reveal_strlit("HopefullyExitsLast");
    reveal_strlit("HopefullyExitsFirst");
    reveal_strlit("SessionCreate");
    reveal_strlit("LegacyTimers");
    reveal_strlit("AssociatedBundleIdentifiers");
    assert("Label"@.len() == 5);
    assert("Disabled"@.len() == 8);
    assert("UserName"@.len() == 8);
    assert("GroupName"@.len() == 9);
    assert("InetdCompatibility"@.len() == 18);
    assert("LimitLoadToHosts"@.len() == 16);
    assert("LimitLoadFromHosts"@.len() == 18);
    assert("LimitLoadToSessionType"@.len() == 22);
    assert("LimitLoadToHardware"@.len() == 19);
    assert("LimitLoadFromHardware"@.len() == 21);
    assert("Program"@.len() == 7);
    assert("BundleProgram"@.len() == 13);
    assert("ProgramArguments"@.len() == 16);
    assert("EnableGlobbing"@.len() == 14);
    assert("EnableTransactions"@.len() == 18);
    assert("EnablePressuredExit"@.len() == 19);
    assert("OnDemand"@.len() == 8);
    assert("ServiceIPC"@.len() == 10);
    assert("KeepAlive"@.len() == 9);
    assert("RunAtLoad"@.len() == 9);
    assert("RootDirectory"@.len() == 13);
    assert("WorkingDirectory"@.len() == 16);
    assert("EnvironmentVariables"@.len() == 20);
    assert("Umask"@.len() == 5);
    assert("TimeOut"@.len() == 7);
    assert("ExitTimeOut"@.len() == 11);
    assert("ThrottleInterval"@.len() == 16);
    assert("InitGroups"@.len() == 10);
    assert("WatchPaths"@.len() == 10);
    assert("QueueDirectories"@.len() == 16);
    assert("StartOnMount"@.len() == 12);
    assert("StartInterval"@.len() == 13);
    assert("StartCalendarInterval"@.len() == 21);
    assert("StandardInPath"@.len() == 14);
    assert("StandardOutPath"@.len() == 15);
    assert("StandardErrorPath"@.len() == 17);
    assert("Debug"@.len() == 5);
    assert("WaitForDebugger"@.len() == 15);
    assert("SoftResourceLimits"@.len() == 18);
    assert("HardResourceLimits"@.len() == 18);
    assert("Nice"@.len() == 4);
    assert("ProcessType"@.len() == 11);
    assert("AbandonProcessGroup"@.len() == 19);
    assert("LowPriorityIO"@.len() == 13);
    assert("LowPriorityBackgroundIO"@.len() == 23);
    assert("MaterializedDatalessFiles"@.len() == 25);
    assert("LaunchOnlyOnce"@.len() == 14);
    assert("MachServices"@.len() == 12);
    assert("Sockets"@.len() == 7);
    assert("LaunchEvents"@.len() == 12);
    assert("HopefullyExitsLast"@.len() == 18);
    assert("HopefullyExitsFirst"@.len() == 19);
    assert("SessionCreate"@.len() == 13);
    assert("LegacyTimers"@.len() == 12);
    assert("AssociatedBundleIdentifiers"@.len() == 27);
    assert("AbandonProcessGroup"@[0] == 'A');
    assert("BundleProgram"@[0] == 'B');
    assert("Debug"@[0] == 'D');
    assert("Disabled"@[0] == 'D');
    assert("EnableGlobbing"@[0] == 'E');
    assert("EnablePressuredExit"@[0] == 'E');
    assert("EnableTransactions"@[0] == 'E');
    assert("ExitTimeOut"@[0] == 'E');
    assert("GroupName"@[0] == 'G');
    assert("HardResourceLimits"@[0] == 'H');
    assert("HardResourceLimits"@[1] == 'a');
    assert("HopefullyExitsFirst"@[0] == 'H');
    assert("HopefullyExitsLast"@[0] == 'H');
    assert("HopefullyExitsLast"@[1] == 'o');
    assert("InetdCompatibility"@[0] == 'I');
    assert("InitGroups"@[0] == 'I');
    assert("KeepAlive"@[0] == 'K');
    assert("Label"@[0] == 'L');
    assert("LaunchEvents"@[0] == 'L');
    assert("LaunchEvents"@[1] == 'a');
    assert("LaunchOnlyOnce"@[0] == 'L');
    assert("LegacyTimers"@[0] == 'L');
    assert("LegacyTimers"@[1] == 'e');
    assert("LimitLoadFromHardware"@[0] == 'L');
    assert("LimitLoadFromHosts"@[0] == 'L');
    assert("LimitLoadToHardware"@[0] == 'L');
    assert("LimitLoadToHosts"@[0] == 'L');
    assert("LowPriorityIO"@[0] == 'L');
    assert("MachServices"@[0] == 'M');
    assert("OnDemand"@[0] == 'O');
    assert("ProcessType"@[0] == 'P');
    assert("Program"@[0] == 'P');
    assert("ProgramArguments"@[0] == 'P');
    assert("QueueDirectories"@[0] == 'Q');
    assert("RootDirectory"@[0] == 'R');
    assert("RunAtLoad"@[0] == 'R');
    assert("ServiceIPC"@[0] == 'S');
    assert("SessionCreate"@[0] == 'S');
    assert("SessionCreate"@[1] == 'e');
    assert("Sockets"@[0] == 'S');
    assert("SoftResourceLimits"@[0] == 'S');
    assert("StandardInPath"@[0] == 'S');
    assert("StandardOutPath"@[0] == 'S');
    assert("StartCalendarInterval"@[0] == 'S');
    assert("StartInterval"@[0] == 'S');
    assert("StartInterval"@[1] == 't');
    assert("StartOnMount"@[0] == 'S');
    assert("ThrottleInterval"@[0] == 'T');
    assert("TimeOut"@[0] == 'T');
    assert("Umask"@[0] == 'U');
    assert("UserName"@[0] == 'U');
    assert("WaitForDebugger"@[0] == 'W');
    assert("WatchPaths"@[0] == 'W');
    assert("WorkingDirectory"@[0] == 'W');
}

/// The lookups of fields 12 through 22, resolved against the scan.
#[verifier::rlimit(100)]
proof fn lemma_agent_lookup_b(a: LaunchAgent)
    ensures
        dict_get(agent_entries(a), "BundleProgram"@) == opt_string(a.bundle_program),
        dict_get(agent_entries(a), "ProgramArguments"@) == opt_str_arr(a.program_arguments),
        dict_get(agent_entries(a), "EnableGlobbing"@) == opt_bool(a.enable_globbing),
        dict_get(agent_entries(a), "EnableTransactions"@) == opt_bool(a.enable_transactions),
        dict_get(agent_entries(a), "EnablePressuredExit"@) == opt_bool(a.enable_pressured_exit),
        dict_get(agent_entries(a), "OnDemand"@) == opt_bool(a.on_demand),
        dict_get(agent_entries(a), "ServiceIPC"@) == opt_bool(a.service_ipc),
        dict_get(agent_entries(a), "KeepAlive"@) == opt_keep_alive(a.keep_alive),
        dict_get(agent_entries(a), "RunAtLoad"@) == opt_bool(a.run_at_load),
        dict_get(agent_entries(a), "RootDirectory"@) == opt_string(a.root_directory),
        dict_get(agent_entries(a), "WorkingDirectory"@) == opt_string(a.working_directory),
{
    lemma_agent_scan_5(a);
    lemma_agent_scan_4(a);
    lemma_agent_scan_3(a);
    lemma_agent_scan_2(a);
    lemma_agent_scan_1(a);
    reveal_strlit("Label");
    reveal_strlit("Disabled");
    reveal_strlit("UserName");
    reveal_strlit("GroupName");
    reveal_strlit("InetdCompatibility");
    reveal_strlit("LimitLoadToHosts");
    reveal_strlit("LimitLoadFromHosts");
    reveal_strlit("LimitLoadToSessionType");
    reveal_strlit("LimitLoadToHardware");
    reveal_strlit("LimitLoadFromHardware");
    reveal_strlit("Program");
    reveal_strlit("BundleProgram");
    reveal_strlit("ProgramArguments");
    reveal_strlit("EnableGlobbing");
    reveal_strlit("EnableTransactions");
    reveal_strlit("EnablePressuredExit");
    reveal_strlit("OnDemand");
    reveal_strlit("ServiceIPC");
    reveal_strlit("KeepAlive");
    reveal_strlit("RunAtLoad");
    reveal_strlit("RootDirectory");
    reveal_strlit("WorkingDirectory");
    reveal_strlit("EnvironmentVariables");
    reveal_strlit("Umask");
    reveal_strlit("TimeOut");
    reveal_strlit("ExitTimeOut");
    reveal_strlit("ThrottleInterval");
    reveal_strlit("InitGroups");
    reveal_strlit("WatchPaths");
    reveal_strlit("QueueDirectories");
    reveal_strlit("StartOnMount");
    reveal_strlit("StartInterval");
    reveal_strlit("StartCalendarInterval");
    reveal_strlit("StandardInPath");
    reveal_strlit("StandardOutPath");
    reveal_strlit("StandardErrorPath");
    reveal_strlit("Debug");
    reveal_strlit("WaitForDebugger");
    reveal_strlit("SoftResourceLimits");
    reveal_strlit("HardResourceLimits");
    reveal_strlit("Nice");
    reveal_strlit("ProcessType");
    reveal_strlit("AbandonProcessGroup");
    reveal_strlit("LowPriorityIO");
    reveal_strlit("LowPriorityBackgroundIO");
    reveal_strlit("MaterializedDatalessFiles");
    reveal_strlit("LaunchOnlyOnce");
    reveal_strlit("MachServices");
    reveal_strlit("Sockets");
    reveal_strlit("LaunchEvents");
    reveal_strlit("HopefullyExitsLast");
    reveal_strlit("HopefullyExitsFirst");
    reveal_strlit("SessionCreate");
    reveal_strlit("LegacyTimers");
    reveal_strlit("AssociatedBundleIdentifiers");
    assert("Label"@.len() == 5);
    assert("Disabled"@.len() == 8);
    assert("UserName"@.len() == 8);
    assert("GroupName"@.len() == 9);
    assert("InetdCompatibility"@.len() == 18);
    assert("LimitLoadToHosts"@.len() == 16);
    assert("LimitLoadFromHosts"@.len() == 18);
    assert("LimitLoadToSessionType"@.len() == 22);
    assert("LimitLoadToHardware"@.len() == 19);
    assert("LimitLoadFromHardware"@.len() == 21);
    assert("Program"@.len() == 7);
    assert("BundleProgram"@.len() == 13);
    assert("ProgramArguments"@.len() == 16);
    assert("EnableGlobbing"@.len() == 14);
    assert("EnableTransactions"@.len() == 18);
    assert("EnablePressuredExit"@.len() == 19);
    assert("OnDemand"@.len() == 8);
    assert("ServiceIPC"@.len() == 10);
    assert("KeepAlive"@.len() == 9);
    assert("RunAtLoad"@.len() == 9);
    assert("RootDirectory"@.len() == 13);
    assert("WorkingDirectory"@.len() == 16);
    assert("EnvironmentVariables"@.len() == 20);
    assert("Umask"@.len() == 5);
    assert("TimeOut"@.len() == 7);
    assert("ExitTimeOut"@.len() == 11);
    assert("ThrottleInterval"@.len() == 16);
    assert("InitGroups"@.len() == 10);
    assert("WatchPaths"@.len() == 10);
    assert("QueueDirectories"@.len() == 16);
    assert("StartOnMount"@.len() == 12);
    assert("StartInterval"@.len() == 13);
    assert("StartCalendarInterval"@.len() == 21);
    assert("StandardInPath"@.len() == 14);
    assert("StandardOutPath"@.len() == 15);
    assert("StandardErrorPath"@.len() == 17);
    assert("Debug"@.len() == 5);
    assert("WaitForDebugger"@.len() == 15);
    assert("SoftResourceLimits"@.len() == 18);
    assert("HardResourceLimits"@.len() == 18);
    assert("Nice"@.len() == 4);
    assert("ProcessType"@.len() == 11);
    assert("AbandonProcessGroup"@.len() == 19);
    assert("LowPriorityIO"@.len() == 13);
    assert("LowPriorityBackgroundIO"@.len() == 23);
    assert("MaterializedDatalessFiles"@.len() == 25);
    assert("LaunchOnlyOnce"@.len() == 14);
    assert("MachServices"@.len() == 12);
    assert("Sockets"@.len() == 7);
    assert("LaunchEvents"@.len() == 12);
    assert("HopefullyExitsLast"@.len() == 18);
    assert("HopefullyExitsFirst"@.len() == 19);
    assert("SessionCreate"@.len() == 13);
    assert("LegacyTimers"@.len() == 12);
    assert("AssociatedBundleIdentifiers"@.len() == 27);
    assert("AbandonProcessGroup"@[0] == 'A');
    assert("BundleProgram"@[0] == 'B');
    assert("Debug"@[0] == 'D');
    assert("Disabled"@[0] == 'D');
    assert("EnableGlobbing"@[0] == 'E');
    assert("EnablePressuredExit"@[0] == 'E');
    assert("EnableTransactions"@[0] == 'E');
    assert("ExitTimeOut"@[0] == 'E');
    assert("GroupName"@[0] == 'G');
    assert("HardResourceLimits"@[0] == 'H');
    assert("HardResourceLimits"@[1] == 'a');
    assert("HopefullyExitsFirst"@[0] == 'H');
    assert("HopefullyExitsLast"@[0] == 'H');
    assert("HopefullyExitsLast"@[1] == 'o');
    assert("InetdCompatibility"@[0] == 'I');
    assert("InitGroups"@[0] == 'I');
    assert("KeepAlive"@[0] == 'K');
    assert("Label"@[0] == 'L');
    assert("LaunchEvents"@[0] == 'L');
    assert("LaunchEvents"@[1] == 'a');
    assert("LaunchOnlyOnce"@[0] == 'L');
    assert("LegacyTimers"@[0] == 'L');
    assert("LegacyTimers"@[1] == 'e');
    assert("LimitLoadFromHardware"@[0] == 'L');
    assert("LimitLoadFromHosts"@[0] == 'L');
    assert("LimitLoadToHardware"@[0] == 'L');
    assert("LimitLoadToHosts"@[0] == 'L');
    assert("LowPriorityIO"@[0] == 'L');
    assert("MachServices"@[0] == 'M');
    assert("OnDemand"@[0] == 'O');
    assert("ProcessType"@[0] == 'P');
    assert("Program"@[0] == 'P');
    assert("ProgramArguments"@[0] == 'P');
    assert("QueueDirectories"@[0] == 'Q');
    assert("RootDirectory"@[0] == 'R');
    assert("RunAtLoad"@[0] == 'R');
    assert("ServiceIPC"@[0] == 'S');
    assert("SessionCreate"@[0] == 'S');
    assert("SessionCreate"@[1] == 'e');
    assert("Sockets"@[0] == 'S');
    assert("SoftResourceLimits"@[0] == 'S');
    assert("StandardInPath"@[0] == 'S');
    assert("StandardOutPath"@[0] == 'S');
    assert("StartCalendarInterval"@[0] == 'S');
    assert("StartInterval"@[0] == 'S');
    assert("StartInterval"@[1] == 't');
    assert("StartOnMount"@[0] == 'S');
    assert("ThrottleInterval"@[0] == 'T');
    assert("TimeOut"@[0] == 'T');
    assert("Umask"@[0] == 'U');
    assert("UserName"@[0] == 'U');
    assert("WaitForDebugger"@[0] == 'W');
    assert("WatchPaths"@[0] == 'W');
    assert("WorkingDirectory"@[0] == 'W');
}

/// The lookups of fields 23 through 33, resolved against the scan.
#[verifier::rlimit(100)]
proof fn lemma_agent_lookup_c(a: LaunchAgent)
    ensures
        dict_get(agent_entries(a), "EnvironmentVariables"@) == opt_str_map(a.environment_variables),
        dict_get(agent_entries(a), "Umask"@) == opt_string_or_u32(a.umask),
        dict_get(agent_entries(a), "TimeOut"@) == opt_u32(a.time_out),
        dict_get(agent_entries(a), "ExitTimeOut"@) == opt_u32(a.exit_time_out),
        dict_get(agent_entries(a), "ThrottleInterval"@) == opt_u32(a.throttle_interval),
        dict_get(agent_entries(a), "InitGroups"@) == opt_bool(a.init_groups),
        dict_get(agent_entries(a), "WatchPaths"@) == opt_str_arr(a.watch_paths),
        dict_get(agent_entries(a), "QueueDirectories"@) == opt_str_arr(a.queue_directories),
        dict_get(agent_entries(a), "StartOnMount"@) == opt_bool(a.start_on_mount),
        dict_get(agent_entries(a), "StartInterval"@) == opt_u32(a.start_interval),
        dict_get(agent_entries(a), "StartCalendarInterval"@) == opt_calendar_arr(a.start_calendar_interval),
{
    lemma_agent_scan_5(a);
    lemma_agent_scan_4(a);
    lemma_agent_scan_3(a);
    lemma_agent_scan_2(a);
    lemma_agent_scan_1(a);
    reveal_strlit("Label");
    reveal_strlit("Disabled");
    reveal_strlit("UserName");
    reveal_strlit("GroupName");
    reveal_strlit("InetdCompatibility");
    reveal_strlit("LimitLoadToHosts");
    reveal_strlit("LimitLoadFromHosts");
    reveal_strlit("LimitLoadToSessionType");
    reveal_strlit("LimitLoadToHardware");
    reveal_strlit("LimitLoadFromHardware");
    reveal_strlit("Program");
    reveal_strlit("BundleProgram");
    reveal_strlit("ProgramArguments");
    reveal_strlit("EnableGlobbing");
    reveal_strlit("EnableTransactions");
    reveal_strlit("EnablePressuredExit");
    reveal_strlit("OnDemand");
    reveal_strlit("ServiceIPC");
    reveal_strlit("KeepAlive");
    reveal_strlit("RunAtLoad");
    reveal_strlit("RootDirectory");
    reveal_strlit("WorkingDirectory");
    reveal_strlit("EnvironmentVariables");
    reveal_strlit("Umask");
    reveal_strlit("TimeOut");
    reveal_strlit("ExitTimeOut");
    reveal_strlit("ThrottleInterval");
    reveal_strlit("InitGroups");
    reveal_strlit("WatchPaths");
    reveal_strlit("QueueDirectories");
    reveal_strlit("StartOnMount");
    reveal_strlit("StartInterval");
    reveal_strlit("StartCalendarInterval");
    reveal_strlit("StandardInPath");
    reveal_strlit("StandardOutPath");
    reveal_strlit("StandardErrorPath");
    reveal_strlit("Debug");
    reveal_strlit("WaitForDebugger");
    reveal_strlit("SoftResourceLimits");
    reveal_strlit("HardResourceLimits");
    reveal_strlit("Nice");
    reveal_strlit("ProcessType");
    reveal_strlit("AbandonProcessGroup");
    reveal_strlit("LowPriorityIO");
    reveal_strlit("LowPriorityBackgroundIO");
    reveal_strlit("MaterializedDatalessFiles");
    reveal_strlit("LaunchOnlyOnce");
    reveal_strlit("MachServices");
    reveal_strlit("Sockets");
    reveal_strlit("LaunchEvents");
    reveal_strlit("HopefullyExitsLast");
    reveal_strlit("HopefullyExitsFirst");
    reveal_strlit("SessionCreate");
    reveal_strlit("LegacyTimers");
    reveal_strlit("AssociatedBundleIdentifiers");
    assert("Label"@.len() == 5);
    assert("Disabled"@.len() == 8);
    assert("UserName"@.len() == 8);
    assert("GroupName"@.len() == 9);
    assert("InetdCompatibility"@.len() == 18);
    assert("LimitLoadToHosts"@.len() == 16);
    assert("LimitLoadFromHosts"@.len() == 18);
    assert("LimitLoadToSessionType"@.len() == 22);
    assert("LimitLoadToHardware"@.len() == 19);
    assert("LimitLoadFromHardware"@.len() == 21);
    assert("Program"@.len() == 7);
    assert("BundleProgram"@.len() == 13);
    assert("ProgramArguments"@.len() == 16);
    assert("EnableGlobbing"@.len() == 14);
    assert("EnableTransactions"@.len() == 18);
    assert("EnablePressuredExit"@.len() == 19);
    assert("OnDemand"@.len() == 8);
    assert("ServiceIPC"@.len() == 10);
    assert("KeepAlive"@.len() == 9);
    assert("RunAtLoad"@.len() == 9);
    assert("RootDirectory"@.len() == 13);
    assert("WorkingDirectory"@.len() == 16);
    assert("EnvironmentVariables"@.len() == 20);
    assert("Umask"@.len() == 5);
    assert("TimeOut"@.len() == 7);
    assert("ExitTimeOut"@.len() == 11);
    assert("ThrottleInterval"@.len() == 16);
    assert("InitGroups"@.len() == 10);
    assert("WatchPaths"@.len() == 10);
    assert("QueueDirectories"@.len() == 16);
    assert("StartOnMount"@.len() == 12);
    assert("StartInterval"@.len() == 13);
    assert("StartCalendarInterval"@.len() == 21);
    assert("StandardInPath"@.len() == 14);
    assert("StandardOutPath"@.len() == 15);
    assert("StandardErrorPath"@.len() == 17);
    assert("Debug"@.len() == 5);
    assert("WaitForDebugger"@.len() == 15);
    assert("SoftResourceLimits"@.len() == 18);
    assert("HardResourceLimits"@.len() == 18);
    assert("Nice"@.len() == 4);
    assert("ProcessType"@.len() == 11);
    assert("AbandonProcessGroup"@.len() == 19);
    assert("LowPriorityIO"@.len() == 13);
    assert("LowPriorityBackgroundIO"@.len() == 23);
    assert("MaterializedDatalessFiles"@.len() == 25);
    assert("LaunchOnlyOnce"@.len() == 14);
    assert("MachServices"@.len() == 12);
    assert("Sockets"@.len() == 7);
    assert("LaunchEvents"@.len() == 12);
    assert("HopefullyExitsLast"@.len() == 18);
    assert("HopefullyExitsFirst"@.len() == 19);
    assert("SessionCreate"@.len() == 13);
    assert("LegacyTimers"@.len() == 12);
    assert("AssociatedBundleIdentifiers"@.len() == 27);
    assert("AbandonProcessGroup"@[0] == 'A');
    assert("BundleProgram"@[0] == 'B');
    assert("Debug"@[0] == 'D');
    assert("Disabled"@[0] == 'D');
    assert("EnableGlobbing"@[0] == 'E');
    assert("EnablePressuredExit"@[0] == 'E');
    assert("EnableTransactions"@[0] == 'E');
    assert("ExitTimeOut"@[0] == 'E');
    assert("GroupName"@[0] == 'G');
    assert("HardResourceLimits"@[0] == 'H');
    assert("HardResourceLimits"@[1] == 'a');
    assert("HopefullyExitsFirst"@[0] == 'H');
    assert("HopefullyExitsLast"@[0] == 'H');
    assert("HopefullyExitsLast"@[1] == 'o');
    assert("InetdCompatibility"@[0] == 'I');
    assert("InitGroups"@[0] == 'I');
    assert("KeepAlive"@[0] == 'K');
    assert("Label"@[0] == 'L');
    assert("LaunchEvents"@[0] == 'L');
    assert("LaunchEvents"@[1] == 'a');
    assert("LaunchOnlyOnce"@[0] == 'L');
    assert("LegacyTimers"@[0] == 'L');
    assert("LegacyTimers"@[1] == 'e');
    assert("LimitLoadFromHardware"@[0] == 'L');
    assert("LimitLoadFromHosts"@[0] == 'L');
    assert("LimitLoadToHardware"@[0] == 'L');
    assert("LimitLoadToHosts"@[0] == 'L');
    assert("LowPriorityIO"@[0] == 'L');
    assert("MachServices"@[0] == 'M');
    assert("OnDemand"@[0] == 'O');
    assert("ProcessType"@[0] == 'P');
    assert("Program"@[0] == 'P');
    assert("ProgramArguments"@[0] == 'P');
    assert("QueueDirectories"@[0] == 'Q');
    assert("RootDirectory"@[0] == 'R');
    assert("RunAtLoad"@[0] == 'R');
    assert("ServiceIPC"@[0] == 'S');
    assert("SessionCreate"@[0] == 'S');
    assert("SessionCreate"@[1] == 'e');
    assert("Sockets"@[0] == 'S');
    assert("SoftResourceLimits"@[0] == 'S');
    assert("StandardInPath"@[0] == 'S');
    assert("StandardOutPath"@[0] == 'S');
    assert("StartCalendarInterval"@[0] == 'S');
    assert("StartInterval"@[0] == 'S');
    assert("StartInterval"@[1] == 't');
    assert("StartOnMount"@[0] == 'S');
    assert("ThrottleInterval"@[0] == 'T');
    assert("TimeOut"@[0] == 'T');
    assert("Umask"@[0] == 'U');
    assert("UserName"@[0] == 'U');
    assert("WaitForDebugger"@[0] == 'W');
    assert("WatchPaths"@[0] == 'W');
    assert("WorkingDirectory"@[0] == 'W');
}

/// The lookups of fields 34 through 44, resolved against the scan.
#[verifier::rlimit(100)]
proof fn lemma_agent_lookup_d(a: LaunchAgent)
    ensures
        dict_get(agent_entries(a), "StandardInPath"@) == opt_string(a.standard_in_path),
        dict_get(agent_entries(a), "StandardOutPath"@) == opt_string(a.standard_out_path),
        dict_get(agent_entries(a), "StandardErrorPath"@) == opt_string(a.standard_error_path),
        dict_get(agent_entries(a), "Debug"@) == opt_bool(a.debug),
        dict_get(agent_entries(a), "WaitForDebugger"@) == opt_bool(a.wait_for_debugger),
        dict_get(agent_entries(a), "SoftResourceLimits"@) == opt_resource_limits(a.soft_resource_limits),
        dict_get(agent_entries(a), "HardResourceLimits"@) == opt_resource_limits(a.hard_resource_limits),
        dict_get(agent_entries(a), "Nice"@) == opt_i8(a.nice),
        dict_get(agent_entries(a), "ProcessType"@) == opt_process_type(a.process_type),
        dict_get(agent_entries(a), "AbandonProcessGroup"@) == opt_bool(a.abandon_process_group),
        dict_get(agent_entries(a), "LowPriorityIO"@) == opt_bool(a.low_priority_io),
{
    lemma_agent_scan_5(a);
    lemma_agent_scan_4(a);
    lemma_agent_scan_3(a);
    lemma_agent_scan_2(a);
    lemma_agent_scan_1(a);
    reveal_strlit("Label");
    reveal_strlit("Disabled");
    reveal_strlit("UserName");
    reveal_strlit("GroupName");
    reveal_strlit("InetdCompatibility");
    reveal_strlit("LimitLoadToHosts");
    reveal_strlit("LimitLoadFromHosts");
    reveal_strlit("LimitLoadToSessionType");
    reveal_strlit("LimitLoadToHardware");
    reveal_strlit("LimitLoadFromHardware");
    reveal_strlit("Program");
    reveal_strlit("BundleProgram");
    reveal_strlit("ProgramArguments");
    reveal_strlit("EnableGlobbing");
    reveal_strlit("EnableTransactions");
    reveal_strlit("EnablePressuredExit");
    reveal_strlit("OnDemand");
    reveal_strlit("ServiceIPC");
    reveal_strlit("KeepAlive");
    reveal_strlit("RunAtLoad");
    reveal_strlit("RootDirectory");
    reveal_strlit("WorkingDirectory");
    reveal_strlit("EnvironmentVariables");
    reveal_strlit("Umask");
    reveal_strlit("TimeOut");
    reveal_strlit("ExitTimeOut");
    reveal_strlit("ThrottleInterval");
    reveal_strlit("InitGroups");
    reveal_strlit("WatchPaths");
    reveal_strlit("QueueDirectories");
    reveal_strlit("StartOnMount");
    reveal_strlit("StartInterval");
    reveal_strlit("StartCalendarInterval");
    reveal_strlit("StandardInPath");
    reveal_strlit("StandardOutPath");
    reveal_strlit("StandardErrorPath");
    reveal_strlit("Debug");
    reveal_strlit("WaitForDebugger");
    reveal_strlit("SoftResourceLimits");
    reveal_strlit("HardResourceLimits");
    reveal_strlit("Nice");
    reveal_strlit("ProcessType");
    reveal_strlit("AbandonProcessGroup");
    reveal_strlit("LowPriorityIO");
    reveal_strlit("LowPriorityBackgroundIO");
    reveal_strlit("MaterializedDatalessFiles");
    reveal_strlit("LaunchOnlyOnce");
    reveal_strlit("MachServices");
    reveal_strlit("Sockets");
    reveal_strlit("LaunchEvents");
    reveal_strlit("HopefullyExitsLast");
    reveal_strlit("HopefullyExitsFirst");
    reveal_strlit("SessionCreate");
    reveal_strlit("LegacyTimers");
    reveal_strlit("AssociatedBundleIdentifiers");
    assert("Label"@.len() == 5);
    assert("Disabled"@.len() == 8);
    assert("UserName"@.len() == 8);
    assert("GroupName"@.len() == 9);
    assert("InetdCompatibility"@.len() == 18);
    assert("LimitLoadToHosts"@.len() == 16);
    assert("LimitLoadFromHosts"@.len() == 18);
    assert("LimitLoadToSessionType"@.len() == 22);
    assert("LimitLoadToHardware"@.len() == 19);
    assert("LimitLoadFromHardware"@.len() == 21);
    assert("Program"@.len() == 7);
    assert("BundleProgram"@.len() == 13);
    assert("ProgramArguments"@.len() == 16);
    assert("EnableGlobbing"@.len() == 14);
    assert("EnableTransactions"@.len() == 18);
    assert("EnablePressuredExit"@.len() == 19);
    assert("OnDemand"@.len() == 8);
    assert("ServiceIPC"@.len() == 10);
    assert("KeepAlive"@.len() == 9);
    assert("RunAtLoad"@.len() == 9);
    assert("RootDirectory"@.len() == 13);
    assert("WorkingDirectory"@.len() == 16);
    assert("EnvironmentVariables"@.len() == 20);
    assert("Umask"@.len() == 5);
    assert("TimeOut"@.len() == 7);
    assert("ExitTimeOut"@.len() == 11);
    assert("ThrottleInterval"@.len() == 16);
    assert("InitGroups"@.len() == 10);
    assert("WatchPaths"@.len() == 10);
    assert("QueueDirectories"@.len() == 16);
    assert("StartOnMount"@.len() == 12);
    assert("StartInterval"@.len() == 13);
    assert("StartCalendarInterval"@.len() == 21);
    assert("StandardInPath"@.len() == 14);
    assert("StandardOutPath"@.len() == 15);
    assert("StandardErrorPath"@.len() == 17);
    assert("Debug"@.len() == 5);
    assert("WaitForDebugger"@.len() == 15);
    assert("SoftResourceLimits"@.len() == 18);
    assert("HardResourceLimits"@.len() == 18);
    assert("Nice"@.len() == 4);
    assert("ProcessType"@.len() == 11);
    assert("AbandonProcessGroup"@.len() == 19);
    assert("LowPriorityIO"@.len() == 13);
    assert("LowPriorityBackgroundIO"@.len() == 23);
    assert("MaterializedDatalessFiles"@.len() == 25);
    assert("LaunchOnlyOnce"@.len() == 14);
    assert("MachServices"@.len() == 12);
    assert("Sockets"@.len() == 7);
    assert("LaunchEvents"@.len() == 12);
    assert("HopefullyExitsLast"@.len() == 18);
    assert("HopefullyExitsFirst"@.len() == 19);
    assert("SessionCreate"@.len() == 13);
    assert("LegacyTimers"@.len() == 12);
    assert("AssociatedBundleIdentifiers"@.len() == 27);
    assert("AbandonProcessGroup"@[0] == 'A');
    assert("BundleProgram"@[0] == 'B');
    assert("Debug"@[0] == 'D');
    assert("Disabled"@[0] == 'D');
    assert("EnableGlobbing"@[0] == 'E');
    assert("EnablePressuredExit"@[0] == 'E');
    assert("EnableTransactions"@[0] == 'E');
    assert("ExitTimeOut"@[0] == 'E');
    assert("GroupName"@[0] == 'G');
    assert("HardResourceLimits"@[0] == 'H');
    assert("HardResourceLimits"@[1] == 'a');
    assert("HopefullyExitsFirst"@[0] == 'H');
    assert("HopefullyExitsLast"@[0] == 'H');
    assert("HopefullyExitsLast"@[1] == 'o');
    assert("InetdCompatibility"@[0] == 'I');
    assert("InitGroups"@[0] == 'I');
    assert("KeepAlive"@[0] == 'K');
    assert("Label"@[0] == 'L');
    assert("LaunchEvents"@[0] == 'L');
    assert("LaunchEvents"@[1] == 'a');
    assert("LaunchOnlyOnce"@[0] == 'L');
    assert("LegacyTimers"@[0] == 'L');
    assert("LegacyTimers"@[1] == 'e');
    assert("LimitLoadFromHardware"@[0] == 'L');
    assert("LimitLoadFromHosts"@[0] == 'L');
    assert("LimitLoadToHardware"@[0] == 'L');
    assert("LimitLoadToHosts"@[0] == 'L');
    assert("LowPriorityIO"@[0] == 'L');
    assert("MachServices"@[0] == 'M');
    assert("OnDemand"@[0] == 'O');
    assert("ProcessType"@[0] == 'P');
    assert("Program"@[0] == 'P');
    assert("ProgramArguments"@[0] == 'P');
    assert("QueueDirectories"@[0] == 'Q');
    assert("RootDirectory"@[0] == 'R');
    assert("RunAtLoad"@[0] == 'R');
    assert("ServiceIPC"@[0] == 'S');
    assert("SessionCreate"@[0] == 'S');
    assert("SessionCreate"@[1] == 'e');
    assert("Sockets"@[0] == 'S');
    assert("SoftResourceLimits"@[0] == 'S');
    assert("StandardInPath"@[0] == 'S');
    assert("StandardOutPath"@[0] == 'S');
    assert("StartCalendarInterval"@[0] == 'S');
    assert("StartInterval"@[0] == 'S');
    assert("StartInterval"@[1] == 't');
    assert("StartOnMount"@[0] == 'S');
    assert("ThrottleInterval"@[0] == 'T');
    assert("TimeOut"@[0] == 'T');
    assert("Umask"@[0] == 'U');
    assert("UserName"@[0] == 'U');
    assert("WaitForDebugger"@[0] == 'W');
    assert("WatchPaths"@[0] == 'W');
    assert("WorkingDirectory"@[0] == 'W');
}

/// The lookups of fields 45 through 55, resolved against the scan.
#[verifier::rlimit(100)]
proof fn lemma_agent_lookup_e(a: LaunchAgent)
    ensures
        dict_get(agent_entries(a), "LowPriorityBackgroundIO"@) == opt_bool(a.low_priority_background_io),
        dict_get(agent_entries(a), "MaterializedDatalessFiles"@) == opt_bool(a.materialized_dataless_files),
        dict_get(agent_entries(a), "LaunchOnlyOnce"@) == opt_bool(a.launch_only_once),
        dict_get(agent_entries(a), "MachServices"@) == opt_mach_map(a.mach_services),
        dict_get(agent_entries(a), "Sockets"@) == opt_socket_map(a.sockets),
        dict_get(agent_entries(a), "LaunchEvents"@) == opt_launch_events(a.launch_events),
        dict_get(agent_entries(a), "HopefullyExitsLast"@) == opt_string(a.hopefully_exits_last),
        dict_get(agent_entries(a), "HopefullyExitsFirst"@) == opt_string(a.hopefully_exits_first),
        dict_get(agent_entries(a), "SessionCreate"@) == opt_bool(a.session_create),
        dict_get(agent_entries(a), "LegacyTimers"@) == opt_bool(a.legacy_timers),
        dict_get(agent_entries(a), "AssociatedBundleIdentifiers"@) == opt_string_or_vec(a.associated_bundle_identifiers),
{
    lemma_agent_scan_5(a);
    lemma_agent_scan_4(a);
    lemma_agent_scan_3(a);
    lemma_agent_scan_2(a);
    lemma_agent_scan_1(a);
    reveal_strlit("Label");
    reveal_strlit("Disabled");
    reveal_strlit("UserName");
    reveal_strlit("GroupName");
    reveal_strlit("InetdCompatibility");
    reveal_strlit("LimitLoadToHosts");
    reveal_strlit("LimitLoadFromHosts");
    reveal_strlit("LimitLoadToSessionType");
    reveal_strlit("LimitLoadToHardware");
    reveal_strlit("LimitLoadFromHardware");
    reveal_strlit("Program");
    reveal_strlit("BundleProgram");
    reveal_strlit("ProgramArguments");
    reveal_strlit("EnableGlobbing");
    reveal_strlit("EnableTransactions");
    reveal_strlit("EnablePressuredExit");
    reveal_strlit("OnDemand");
    reveal_strlit("ServiceIPC");
    reveal_strlit("KeepAlive");
    reveal_strlit("RunAtLoad");
    reveal_strlit("RootDirectory");
    reveal_strlit("WorkingDirectory");
    reveal_strlit("EnvironmentVariables");
    reveal_strlit("Umask");
    reveal_strlit("TimeOut");
    reveal_strlit("ExitTimeOut");
    reveal_strlit("ThrottleInterval");
    reveal_strlit("InitGroups");
    reveal_strlit("WatchPaths");
    reveal_strlit("QueueDirectories");
    reveal_strlit("StartOnMount");
    reveal_strlit("StartInterval");
    reveal_strlit("StartCalendarInterval");
    reveal_strlit("StandardInPath");
    reveal_strlit("StandardOutPath");
    reveal_strlit("StandardErrorPath");
    reveal_strlit("Debug");
    reveal_strlit("WaitForDebugger");
    reveal_strlit("SoftResourceLimits");
    reveal_strlit("HardResourceLimits");
    reveal_strlit("Nice");
    reveal_strlit("ProcessType");
    reveal_strlit("AbandonProcessGroup");
    reveal_strlit("LowPriorityIO");
    reveal_strlit("LowPriorityBackgroundIO");
    reveal_strlit("MaterializedDatalessFiles");
    reveal_strlit("LaunchOnlyOnce");
    reveal_strlit("MachServices");
    reveal_strlit("Sockets");
    reveal_strlit("LaunchEvents");
    reveal_strlit("HopefullyExitsLast");
    reveal_strlit("HopefullyExitsFirst");
    reveal_strlit("SessionCreate");
    reveal_strlit("LegacyTimers");
    reveal_strlit("AssociatedBundleIdentifiers");
    assert("Label"@.len() == 5);
    assert("Disabled"@.len() == 8);
    assert("UserName"@.len() == 8);
    assert("GroupName"@.len() == 9);
    assert("InetdCompatibility"@.len() == 18);
    assert("LimitLoadToHosts"@.len() == 16);
    assert("LimitLoadFromHosts"@.len() == 18);
    assert("LimitLoadToSessionType"@.len() == 22);
    assert("LimitLoadToHardware"@.len() == 19);
    assert("LimitLoadFromHardware"@.len() == 21);
    assert("Program"@.len() == 7);
    assert("BundleProgram"@.len() == 13);
    assert("ProgramArguments"@.len() == 16);
    assert("EnableGlobbing"@.len() == 14);
    assert("EnableTransactions"@.len() == 18);
    assert("EnablePressuredExit"@.len() == 19);
    assert("OnDemand"@.len() == 8);
    assert("ServiceIPC"@.len() == 10);
    assert("KeepAlive"@.len() == 9);
    assert("RunAtLoad"@.len() == 9);
    assert("RootDirectory"@.len() == 13);
    assert("WorkingDirectory"@.len() == 16);
    assert("EnvironmentVariables"@.len() == 20);
    assert("Umask"@.len() == 5);
    assert("TimeOut"@.len() == 7);
    assert("ExitTimeOut"@.len() == 11);
    assert("ThrottleInterval"@.len() == 16);
    assert("InitGroups"@.len() == 10);
    assert("WatchPaths"@.len() == 10);
    assert("QueueDirectories"@.len() == 16);
    assert("StartOnMount"@.len() == 12);
    assert("StartInterval"@.len() == 13);
    assert("StartCalendarInterval"@.len() == 21);
    assert("StandardInPath"@.len() == 14);
    assert("StandardOutPath"@.len() == 15);
    assert("StandardErrorPath"@.len() == 17);
    assert("Debug"@.len() == 5);
    assert("WaitForDebugger"@.len() == 15);
    assert("SoftResourceLimits"@.len() == 18);
    assert("HardResourceLimits"@.len() == 18);
    assert("Nice"@.len() == 4);
    assert("ProcessType"@.len() == 11);
    assert("AbandonProcessGroup"@.len() == 19);
    assert("LowPriorityIO"@.len() == 13);
    assert("LowPriorityBackgroundIO"@.len() == 23);
    assert("MaterializedDatalessFiles"@.len() == 25);
    assert("LaunchOnlyOnce"@.len() == 14);
    assert("MachServices"@.len() == 12);
    assert("Sockets"@.len() == 7);
    assert("LaunchEvents"@.len() == 12);
    assert("HopefullyExitsLast"@.len() == 18);
    assert("HopefullyExitsFirst"@.len() == 19);
    assert("SessionCreate"@.len() == 13);
    assert("LegacyTimers"@.len() == 12);
    assert("AssociatedBundleIdentifiers"@.len() == 27);
    assert("AbandonProcessGroup"@[0] == 'A');
    assert("BundleProgram"@[0] == 'B');
    assert("Debug"@[0] == 'D');
    assert("Disabled"@[0] == 'D');
    assert("EnableGlobbing"@[0] == 'E');
    assert("EnablePressuredExit"@[0] == 'E');
    assert("EnableTransactions"@[0] == 'E');
    assert("ExitTimeOut"@[0] == 'E');
    assert("GroupName"@[0] == 'G');
    assert("HardResourceLimits"@[0] == 'H');
    assert("HardResourceLimits"@[1] == 'a');
    assert("HopefullyExitsFirst"@[0] == 'H');
    assert("HopefullyExitsLast"@[0] == 'H');
    assert("HopefullyExitsLast"@[1] == 'o');
    assert("InetdCompatibility"@[0] == 'I');
    assert("InitGroups"@[0] == 'I');
    assert("KeepAlive"@[0] == 'K');
    assert("Label"@[0] == 'L');
    assert("LaunchEvents"@[0] == 'L');
    assert("LaunchEvents"@[1] == 'a');
    assert("LaunchOnlyOnce"@[0] == 'L');
    assert("LegacyTimers"@[0] == 'L');
    assert("LegacyTimers"@[1] == 'e');
    assert("LimitLoadFromHardware"@[0] == 'L');
    assert("LimitLoadFromHosts"@[0] == 'L');
    assert("LimitLoadToHardware"@[0] == 'L');
    assert("LimitLoadToHosts"@[0] == 'L');
    assert("LowPriorityIO"@[0] == 'L');
    assert("MachServices"@[0] == 'M');
    assert("OnDemand"@[0] == 'O');
    assert("ProcessType"@[0] == 'P');
    assert("Program"@[0] == 'P');
    assert("ProgramArguments"@[0] == 'P');
    assert("QueueDirectories"@[0] == 'Q');
    assert("RootDirectory"@[0] == 'R');
    assert("RunAtLoad"@[0] == 'R');
    assert("ServiceIPC"@[0] == 'S');
    assert("SessionCreate"@[0] == 'S');
    assert("SessionCreate"@[1] == 'e');
    assert("Sockets"@[0] == 'S');
    assert("SoftResourceLimits"@[0] == 'S');
    assert("StandardInPath"@[0] == 'S');
    assert("StandardOutPath"@[0] == 'S');
    assert("StartCalendarInterval"@[0] == 'S');
    assert("StartInterval"@[0] == 'S');
    assert("StartInterval"@[1] == 't');
    assert("StartOnMount"@[0] == 'S');
    assert("ThrottleInterval"@[0] == 'T');
    assert("TimeOut"@[0] == 'T');
    assert("Umask"@[0] == 'U');
    assert("UserName"@[0] == 'U');
    assert("WaitForDebugger"@[0] == 'W');
    assert("WatchPaths"@[0] == 'W');
    assert("WorkingDirectory"@[0] == 'W');
}

/// The job's rendered dictionary carries, under each historical key, exactly
/// the rendering of the corresponding field: the label always, and each
/// optional field exactly when it is set, its key absent when it is not.
pub proof fn lemma_agent_field_fidelity(a: LaunchAgent)
    ensures
        dict_get(agent_entries(a), "Label"@) == Some(SpecValue::Str(a.label@)),
        dict_get(agent_entries(a), "Disabled"@) == opt_bool(a.disabled),
        dict_get(agent_entries(a), "UserName"@) == opt_string(a.user_name),
        dict_get(agent_entries(a), "GroupName"@) == opt_string(a.group_name),
        dict_get(agent_entries(a), "InetdCompatibility"@) == opt_inetd(a.inetd_compatibility),
        dict_get(agent_entries(a), "LimitLoadToHosts"@) == opt_str_arr(a.limit_load_to_hosts),
        dict_get(agent_entries(a), "LimitLoadFromHosts"@) == opt_str_arr(a.limit_load_from_hosts),
        dict_get(agent_entries(a), "LimitLoadToSessionType"@) == opt_session_type(a.limit_load_to_session_type),
        dict_get(agent_entries(a), "LimitLoadToHardware"@) == opt_str_arr_map(a.limit_load_to_hardware),
        dict_get(agent_entries(a), "LimitLoadFromHardware"@) == opt_str_arr_map(a.limit_load_from_hardware),
        dict_get(agent_entries(a), "Program"@) == opt_string(a.program),
        dict_get(agent_entries(a), "BundleProgram"@) == opt_string(a.bundle_program),
        dict_get(agent_entries(a), "ProgramArguments"@) == opt_str_arr(a.program_arguments),
        dict_get(agent_entries(a), "EnableGlobbing"@) == opt_bool(a.enable_globbing),
        dict_get(agent_entries(a), "EnableTransactions"@) == opt_bool(a.enable_transactions),
        dict_get(agent_entries(a), "EnablePressuredExit"@) == opt_bool(a.enable_pressured_exit),
        dict_get(agent_entries(a), "OnDemand"@) == opt_bool(a.on_demand),
        dict_get(agent_entries(a), "ServiceIPC"@) == opt_bool(a.service_ipc),
        dict_get(agent_entries(a), "KeepAlive"@) == opt_keep_alive(a.keep_alive),
        dict_get(agent_entries(a), "RunAtLoad"@) == opt_bool(a.run_at_load),
        dict_get(agent_entries(a), "RootDirectory"@) == opt_string(a.root_directory),
        dict_get(agent_entries(a), "WorkingDirectory"@) == opt_string(a.working_directory),
        dict_get(agent_entries(a), "EnvironmentVariables"@) == opt_str_map(a.environment_variables),
        dict_get(agent_entries(a), "Umask"@) == opt_string_or_u32(a.umask),
        dict_get(agent_entries(a), "TimeOut"@) == opt_u32(a.time_out),
        dict_get(agent_entries(a), "ExitTimeOut"@) == opt_u32(a.exit_time_out),
        dict_get(agent_entries(a), "ThrottleInterval"@) == opt_u32(a.throttle_interval),
        dict_get(agent_entries(a), "InitGroups"@) == opt_bool(a.init_groups),
        dict_get(agent_entries(a), "WatchPaths"@) == opt_str_arr(a.watch_paths),
        dict_get(agent_entries(a), "QueueDirectories"@) == opt_str_arr(a.queue_directories),
        dict_get(agent_entries(a), "StartOnMount"@) == opt_bool(a.start_on_mount),
        dict_get(agent_entries(a), "StartInterval"@) == opt_u32(a.start_interval),
        dict_get(agent_entries(a), "StartCalendarInterval"@) == opt_calendar_arr(a.start_calendar_interval),
        dict_get(agent_entries(a), "StandardInPath"@) == opt_string(a.standard_in_path),
        dict_get(agent_entries(a), "StandardOutPath"@) == opt_string(a.standard_out_path),
        dict_get(agent_entries(a), "StandardErrorPath"@) == opt_string(a.standard_error_path),
        dict_get(agent_entries(a), "Debug"@) == opt_bool(a.debug),
        dict_get(agent_entries(a), "WaitForDebugger"@) == opt_bool(a.wait_for_debugger),
        dict_get(agent_entries(a), "SoftResourceLimits"@) == opt_resource_limits(a.soft_resource_limits),
        dict_get(agent_entries(a), "HardResourceLimits"@) == opt_resource_limits(a.hard_resource_limits),
        dict_get(agent_entries(a), "Nice"@) == opt_i8(a.nice),
        dict_get(agent_entries(a), "ProcessType"@) == opt_process_type(a.process_type),
        dict_get(agent_entries(a), "AbandonProcessGroup"@) == opt_bool(a.abandon_process_group),
        dict_get(agent_entries(a), "LowPriorityIO"@) == opt_bool(a.low_priority_io),
        dict_get(agent_entries(a), "LowPriorityBackgroundIO"@) == opt_bool(a.low_priority_background_io),
        dict_get(agent_entries(a), "MaterializedDatalessFiles"@) == opt_bool(a.materialized_dataless_files),
        dict_get(agent_entries(a), "LaunchOnlyOnce"@) == opt_bool(a.launch_only_once),
        dict_get(agent_entries(a), "MachServices"@) == opt_mach_map(a.mach_services),
        dict_get(agent_entries(a), "Sockets"@) == opt_socket_map(a.sockets),
        dict_get(agent_entries(a), "LaunchEvents"@) == opt_launch_events(a.launch_events),
        dict_get(agent_entries(a), "HopefullyExitsLast"@) == opt_string(a.hopefully_exits_last),
        dict_get(agent_entries(a), "HopefullyExitsFirst"@) == opt_string(a.hopefully_exits_first),
        dict_get(agent_entries(a), "SessionCreate"@) == opt_bool(a.session_create),
        dict_get(agent_entries(a), "LegacyTimers"@) == opt_bool(a.legacy_timers),
        dict_get(agent_entries(a), "AssociatedBundleIdentifiers"@) == opt_string_or_vec(a.associated_bundle_identifiers),
{
    lemma_agent_lookup_a(a);
    lemma_agent_lookup_b(a);
    lemma_agent_lookup_c(a);
    lemma_agent_lookup_d(a);
    lemma_agent_lookup_e(a);
}

/// A key appears in the job's rendered dictionary exactly when it is the
/// label's key or the key of a set optional field: no other key ever
/// appears.
#[verifier::rlimit(100)]
pub proof fn lemma_agent_keys(a: LaunchAgent)
    ensures
        forall|k: Seq<char>| #[trigger] dict_has_key(agent_entries(a), k) <==> (
            k == "Label"@
            || (k == "Disabled"@ && a.disabled is Some)
            || (k == "UserName"@ && a.user_name is Some)
            || (k == "GroupName"@ && a.group_name is Some)
            || (k == "InetdCompatibility"@ && a.inetd_compatibility is Some)
            || (k == "LimitLoadToHosts"@ && a.limit_load_to_hosts is Some)
            || (k == "LimitLoadFromHosts"@ && a.limit_load_from_hosts is Some)
            || (k == "LimitLoadToSessionType"@ && a.limit_load_to_session_type is Some)
            || (k == "LimitLoadToHardware"@ && a.limit_load_to_hardware is Some)
            || (k == "LimitLoadFromHardware"@ && a.limit_load_from_hardware is Some)
            || (k == "Program"@ && a.program is Some)
            || (k == "BundleProgram"@ && a.bundle_program is Some)
            || (k == "ProgramArguments"@ && a.program_arguments is Some)
            || (k == "EnableGlobbing"@ && a.enable_globbing is Some)
            || (k == "EnableTransactions"@ && a.enable_transactions is Some)
            || (k == "EnablePressuredExit"@ && a.enable_pressured_exit is Some)
            || (k == "OnDemand"@ && a.on_demand is Some)
            || (k == "ServiceIPC"@ && a.service_ipc is Some)
            || (k == "KeepAlive"@ && a.keep_alive is Some)
            || (k == "RunAtLoad"@ && a.run_at_load is Some)
            || (k == "RootDirectory"@ && a.root_directory is Some)
            || (k == "WorkingDirectory"@ && a.working_directory is Some)
            || (k == "EnvironmentVariables"@ && a.environment_variables is Some)
            || (k == "Umask"@ && a.umask is Some)
            || (k == "TimeOut"@ && a.time_out is Some)
            || (k == "ExitTimeOut"@ && a.exit_time_out is Some)
            || (k == "ThrottleInterval"@ && a.throttle_interval is Some)
            || (k == "InitGroups"@ && a.init_groups is Some)
            || (k == "WatchPaths"@ && a.watch_paths is Some)
            || (k == "QueueDirectories"@ && a.queue_directories is Some)
            || (k == "StartOnMount"@ && a.start_on_mount is Some)
            || (k == "StartInterval"@ && a.start_interval is Some)
            || (k == "StartCalendarInterval"@ && a.start_calendar_interval is Some)
            || (k == "StandardInPath"@ && a.standard_in_path is Some)
            || (k == "StandardOutPath"@ && a.standard_out_path is Some)
            || (k == "StandardErrorPath"@ && a.standard_error_path is Some)
            || (k == "Debug"@ && a.debug is Some)
            || (k == "WaitForDebugger"@ && a.wait_for_debugger is Some)
            || (k == "SoftResourceLimits"@ && a.soft_resource_limits is Some)
            || (k == "HardResourceLimits"@ && a.hard_resource_limits is Some)
            || (k == "Nice"@ && a.nice is Some)
            || (k == "ProcessType"@ && a.process_type is Some)
            || (k == "AbandonProcessGroup"@ && a.abandon_process_group is Some)
            || (k == "LowPriorityIO"@ && a.low_priority_io is Some)
            || (k == "LowPriorityBackgroundIO"@ && a.low_priority_background_io is Some)
            || (k == "MaterializedDatalessFiles"@ && a.materialized_dataless_files is Some)
            || (k == "LaunchOnlyOnce"@ && a.launch_only_once is Some)
            || (k == "MachServices"@ && a.mach_services is Some)
            || (k == "Sockets"@ && a.sockets is Some)
            || (k == "LaunchEvents"@ && a.launch_events is Some)
            || (k == "HopefullyExitsLast"@ && a.hopefully_exits_last is Some)
            || (k == "HopefullyExitsFirst"@ && a.hopefully_exits_first is Some)
            || (k == "SessionCreate"@ && a.session_create is Some)
            || (k == "LegacyTimers"@ && a.legacy_timers is Some)
            || (k == "AssociatedBundleIdentifiers"@ && a.associated_bundle_identifiers is Some)
        ),
{
    lemma_agent_scan_5(a);
    lemma_agent_scan_4(a);
    lemma_agent_scan_3(a);
    lemma_agent_scan_2(a);
    lemma_agent_scan_1(a);
}

/// The one way building a job can fail: the required label was never set.
#[derive(Debug)]
pub enum BuildError {
    MissingLabel,
}

/// Accumulates job fields in any order; setting is idempotent and the last
/// write wins. Building succeeds exactly when the label has been supplied.
pub struct LaunchAgentBuilder {
    /// The label accumulated so far; required at build time.
    pub label: Option<String>,
    /// See [`LaunchAgent::disabled`].
    pub disabled: Option<bool>,
    /// See [`LaunchAgent::user_name`].
    pub user_name: Option<String>,
    /// See [`LaunchAgent::group_name`].
    pub group_name: Option<String>,
    /// See [`LaunchAgent::inetd_compatibility`].
    pub inetd_compatibility: Option<InetdCompatibility>,
    /// See [`LaunchAgent::limit_load_to_hosts`].
    pub limit_load_to_hosts: Option<Vec<String>>,
    /// See [`LaunchAgent::limit_load_from_hosts`].
    pub limit_load_from_hosts: Option<Vec<String>>,
    /// See [`LaunchAgent::limit_load_to_session_type`].
    pub limit_load_to_session_type: Option<SessionType>,
    /// See [`LaunchAgent::limit_load_to_hardware`].
    pub limit_load_to_hardware: Option<Vec<(String, Vec<String>)>>,
    /// See [`LaunchAgent::limit_load_from_hardware`].
    pub limit_load_from_hardware: Option<Vec<(String, Vec<String>)>>,
    /// See [`LaunchAgent::program`].
    pub program: Option<String>,
    /// See [`LaunchAgent::bundle_program`].
    pub bundle_program: Option<String>,
    /// See [`LaunchAgent::program_arguments`].
    pub program_arguments: Option<Vec<String>>,
    /// See [`LaunchAgent::enable_globbing`].
    pub enable_globbing: Option<bool>,
    /// See [`LaunchAgent::enable_transactions`].
    pub enable_transactions: Option<bool>,
    /// See [`LaunchAgent::enable_pressured_exit`].
    pub enable_pressured_exit: Option<bool>,
    /// See [`LaunchAgent::on_demand`].
    pub on_demand: Option<bool>,
    /// See [`LaunchAgent::service_ipc`].
    pub service_ipc: Option<bool>,
    /// See [`LaunchAgent::keep_alive`].
    pub keep_alive: Option<KeepAlive>,
    /// See [`LaunchAgent::run_at_load`].
    pub run_at_load: Option<bool>,
    /// See [`LaunchAgent::root_directory`].
    pub root_directory: Option<String>,
    /// See [`LaunchAgent::working_directory`].
    pub working_directory: Option<String>,
    /// See [`LaunchAgent::environment_variables`].
    pub environment_variables: Option<Vec<(String, String)>>,
    /// See [`LaunchAgent::umask`].
    pub umask: Option<StringOrU32>,
    /// See [`LaunchAgent::time_out`].
    pub time_out: Option<u32>,
    /// See [`LaunchAgent::exit_time_out`].
    pub exit_time_out: Option<u32>,
    /// See [`LaunchAgent::throttle_interval`].
    pub throttle_interval: Option<u32>,
    /// See [`LaunchAgent::init_groups`].
    pub init_groups: Option<bool>,
    /// See [`LaunchAgent::watch_paths`].
    pub watch_paths: Option<Vec<String>>,
    /// See [`LaunchAgent::queue_directories`].
    pub queue_directories: Option<Vec<String>>,
    /// See [`LaunchAgent::start_on_mount`].
    pub start_on_mount: Option<bool>,
    /// See [`LaunchAgent::start_interval`].
    pub start_interval: Option<u32>,
    /// See [`LaunchAgent::start_calendar_interval`].
    pub start_calendar_interval: Option<Vec<CalendarInterval>>,
    /// See [`LaunchAgent::standard_in_path`].
    pub standard_in_path: Option<String>,
    /// See [`LaunchAgent::standard_out_path`].
    pub standard_out_path: Option<String>,
    /// See [`LaunchAgent::standard_error_path`].
    pub standard_error_path: Option<String>,
    /// See [`LaunchAgent::debug`].
    pub debug: Option<bool>,
    /// See [`LaunchAgent::wait_for_debugger`].
    pub wait_for_debugger: Option<bool>,
    /// See [`LaunchAgent::soft_resource_limits`].
    pub soft_resource_limits: Option<ResourceLimits>,
    /// See [`LaunchAgent::hard_resource_limits`].
    pub hard_resource_limits: Option<ResourceLimits>,
    /// See [`LaunchAgent::nice`].
    pub nice: Option<i8>,
    /// See [`LaunchAgent::process_type`].
    pub process_type: Option<ProcessType>,
    /// See [`LaunchAgent::abandon_process_group`].
    pub abandon_process_group: Option<bool>,
    /// See [`LaunchAgent::low_priority_io`].
    pub low_priority_io: Option<bool>,
    /// See [`LaunchAgent::low_priority_background_io`].
    pub low_priority_background_io: Option<bool>,
    /// See [`LaunchAgent::materialized_dataless_files`].
    pub materialized_dataless_files: Option<bool>,
    /// See [`LaunchAgent::launch_only_once`].
    pub launch_only_once: Option<bool>,
    /// See [`LaunchAgent::mach_services`].
    pub mach_services: Option<Vec<(String, MachServiceConfig)>>,
    /// See [`LaunchAgent::sockets`].
    pub sockets: Option<Vec<(String, SocketValue)>>,
    /// See [`LaunchAgent::launch_events`].
    pub launch_events: Option<Vec<(String, Vec<(String, Vec<(String, String)>)>)>>,
    /// See [`LaunchAgent::hopefully_exits_last`].
    pub hopefully_exits_last: Option<String>,
    /// See [`LaunchAgent::hopefully_exits_first`].
    pub hopefully_exits_first: Option<String>,
    /// See [`LaunchAgent::session_create`].
    pub session_create: Option<bool>,
    /// See [`LaunchAgent::legacy_timers`].
    pub legacy_timers: Option<bool>,
    /// See [`LaunchAgent::associated_bundle_identifiers`].
    pub associated_bundle_identifiers: Option<StringOrVec>,
}

/// A builder with no field set yet.
pub open spec fn builder_unset() -> LaunchAgentBuilder {
    LaunchAgentBuilder {
        label: None,
        disabled: None,
        user_name: None,
        group_name: None,
        inetd_compatibility: None,
        limit_load_to_hosts: None,
        limit_load_from_hosts: None,
        limit_load_to_session_type: None,
        limit_load_to_hardware: None,
        limit_load_from_hardware: None,
        program: None,
        bundle_program: None,
        program_arguments: None,
        enable_globbing: None,
        enable_transactions: None,
        enable_pressured_exit: None,
        on_demand: None,
        service_ipc: None,
        keep_alive: None,
        run_at_load: None,
        root_directory: None,
        working_directory: None,
        environment_variables: None,
        umask: None,
        time_out: None,
        exit_time_out: None,
        throttle_interval: None,
        init_groups: None,
        watch_paths: None,
        queue_directories: None,
        start_on_mount: None,
        start_interval: None,
        start_calendar_interval: None,
        standard_in_path: None,
        standard_out_path: None,
        standard_error_path: None,
        debug: None,
        wait_for_debugger: None,
        soft_resource_limits: None,
        hard_resource_limits: None,
        nice: None,
        process_type: None,
        abandon_process_group: None,
        low_priority_io: None,
        low_priority_background_io: None,
        materialized_dataless_files: None,
        launch_only_once: None,
        mach_services: None,
        sockets: None,
        launch_events: None,
        hopefully_exits_last: None,
        hopefully_exits_first: None,
        session_create: None,
        legacy_timers: None,
        associated_bundle_identifiers: None,
    }
}

/// The job that a successful build hands out: the builder's label, required,
/// and every optional field exactly as accumulated.
pub open spec fn built_from(b: LaunchAgentBuilder, a: LaunchAgent) -> bool {
    &&& b.label matches Some(l) && a.label == l
    &&& a.disabled == b.disabled
    &&& a.user_name == b.user_name
    &&& a.group_name == b.group_name
    &&& a.inetd_compatibility == b.inetd_compatibility
    &&& a.limit_load_to_hosts == b.limit_load_to_hosts
    &&& a.limit_load_from_hosts == b.limit_load_from_hosts
    &&& a.limit_load_to_session_type == b.limit_load_to_session_type
    &&& a.limit_load_to_hardware == b.limit_load_to_hardware
    &&& a.limit_load_from_hardware == b.limit_load_from_hardware
    &&& a.program == b.program
    &&& a.bundle_program == b.bundle_program
    &&& a.program_arguments == b.program_arguments
    &&& a.enable_globbing == b.enable_globbing
    &&& a.enable_transactions == b.enable_transactions
    &&& a.enable_pressured_exit == b.enable_pressured_exit
    &&& a.on_demand == b.on_demand
    &&& a.service_ipc == b.service_ipc
    &&& a.keep_alive == b.keep_alive
    &&& a.run_at_load == b.run_at_load
    &&& a.root_directory == b.root_directory
    &&& a.working_directory == b.working_directory
    &&& a.environment_variables == b.environment_variables
    &&& a.umask == b.umask
    &&& a.time_out == b.time_out
    &&& a.exit_time_out == b.exit_time_out
    &&& a.throttle_interval == b.throttle_interval
    &&& a.init_groups == b.init_groups
    &&& a.watch_paths == b.watch_paths
    &&& a.queue_directories == b.queue_directories
    &&& a.start_on_mount == b.start_on_mount
    &&& a.start_interval == b.start_interval
    &&& a.start_calendar_interval == b.start_calendar_interval
    &&& a.standard_in_path == b.standard_in_path
    &&& a.standard_out_path == b.standard_out_path
    &&& a.standard_error_path == b.standard_error_path
    &&& a.debug == b.debug
    &&& a.wait_for_debugger == b.wait_for_debugger
    &&& a.soft_resource_limits == b.soft_resource_limits
    &&& a.hard_resource_limits == b.hard_resource_limits
    &&& a.nice == b.nice
    &&& a.process_type == b.process_type
    &&& a.abandon_process_group == b.abandon_process_group
    &&& a.low_priority_io == b.low_priority_io
    &&& a.low_priority_background_io == b.low_priority_background_io
    &&& a.materialized_dataless_files == b.materialized_dataless_files
    &&& a.launch_only_once == b.launch_only_once
    &&& a.mach_services == b.mach_services
    &&& a.sockets == b.sockets
    &&& a.launch_events == b.launch_events
    &&& a.hopefully_exits_last == b.hopefully_exits_last
    &&& a.hopefully_exits_first == b.hopefully_exits_first
    &&& a.session_create == b.session_create
    &&& a.legacy_timers == b.legacy_timers
    &&& a.associated_bundle_identifiers == b.associated_bundle_identifiers
}

/// Every optional field of the job other than the invocation fields
/// (`program` and `program_arguments`) is unset.
pub open spec fn blank_except_invocation(a: LaunchAgent) -> bool {
    &&& a.disabled is None
    &&& a.user_name is None
    &&& a.group_name is None
    &&& a.inetd_compatibility is None
    &&& a.limit_load_to_hosts is None
    &&& a.limit_load_from_hosts is None
    &&& a.limit_load_to_session_type is None
    &&& a.limit_load_to_hardware is None
    &&& a.limit_load_from_hardware is None
    &&& a.bundle_program is None
    &&& a.enable_globbing is None
    &&& a.enable_transactions is None
    &&& a.enable_pressured_exit is None
    &&& a.on_demand is None
    &&& a.service_ipc is None
    &&& a.keep_alive is None
    &&& a.run_at_load is None
    &&& a.root_directory is None
    &&& a.working_directory is None
    &&& a.environment_variables is None
    &&& a.umask is None
    &&& a.time_out is None
    &&& a.exit_time_out is None
    &&& a.throttle_interval is None
    &&& a.init_groups is None
    &&& a.watch_paths is None
    &&& a.queue_directories is None
    &&& a.start_on_mount is None
    &&& a.start_interval is None
    &&& a.start_calendar_interval is None
    &&& a.standard_in_path is None
    &&& a.standard_out_path is None
    &&& a.standard_error_path is None
    &&& a.debug is None
    &&& a.wait_for_debugger is None
    &&& a.soft_resource_limits is None
    &&& a.hard_resource_limits is None
    &&& a.nice is None
    &&& a.process_type is None
    &&& a.abandon_process_group is None
    &&& a.low_priority_io is None
    &&& a.low_priority_background_io is None
    &&& a.materialized_dataless_files is None
    &&& a.launch_only_once is None
    &&& a.mach_services is None
    &&& a.sockets is None
    &&& a.launch_events is None
    &&& a.hopefully_exits_last is None
    &&& a.hopefully_exits_first is None
    &&& a.session_create is None
    &&& a.legacy_timers is None
    &&& a.associated_bundle_identifiers is None
}

impl Default for LaunchAgentBuilder {
    /// Starts with no field set.
    fn default() -> (r: Self)
        ensures
            r == builder_unset(),
    {
        LaunchAgentBuilder {
            label: None,
            disabled: None,
            user_name: None,
            group_name: None,
            inetd_compatibility: None,
            limit_load_to_hosts: None,
            limit_load_from_hosts: None,
            limit_load_to_session_type: None,
            limit_load_to_hardware: None,
            limit_load_from_hardware: None,
            program: None,
            bundle_program: None,
            program_arguments: None,
            enable_globbing: None,
            enable_transactions: None,
            enable_pressured_exit: None,
            on_demand: None,
            service_ipc: None,
            keep_alive: None,
            run_at_load: None,
            root_directory: None,
            working_directory: None,
            environment_variables: None,
            umask: None,
            time_out: None,
            exit_time_out: None,
            throttle_interval: None,
            init_groups: None,
            watch_paths: None,
            queue_directories: None,
            start_on_mount: None,
            start_interval: None,
            start_calendar_interval: None,
            standard_in_path: None,
            standard_out_path: None,
            standard_error_path: None,
            debug: None,
            wait_for_debugger: None,
            soft_resource_limits: None,
            hard_resource_limits: None,
            nice: None,
            process_type: None,
            abandon_process_group: None,
            low_priority_io: None,
            low_priority_background_io: None,
            materialized_dataless_files: None,
            launch_only_once: None,
            mach_services: None,
            sockets: None,
            launch_events: None,
            hopefully_exits_last: None,
            hopefully_exits_first: None,
            session_create: None,
            legacy_timers: None,
            associated_bundle_identifiers: None,
        }
    }
}

impl LaunchAgentBuilder {
    /// Sets the required label; the last write wins.
    pub fn label(self, value: String) -> (r: Self)
        ensures
            r == (LaunchAgentBuilder { label: Some(value), ..self }),
    {
        LaunchAgentBuilder { label: Some(value), ..self }
    }

    /// Sets whether the job is loaded by default; the last write wins.
    pub fn disabled(self, value: bool) -> (r: Self)
        ensures
            r == (LaunchAgentBuilder { disabled: Some(value), ..self }),
    {
        LaunchAgentBuilder { disabled: Some(value), ..self }
    }

    /// Sets the user name; the last write wins.
    pub fn user_name(self, value: String) -> (r: Self)
        ensures
            r == (LaunchAgentBuilder { user_name: Some(value), ..self }),
    {
        LaunchAgentBuilder { user_name: Some(value), ..self }
    }

    /// Sets the group name; the last write wins.
    pub fn group_name(self, value: String) -> (r: Self)
        ensures
            r == (LaunchAgentBuilder { group_name: Some(value), ..self }),
    {
        LaunchAgentBuilder { group_name: Some(value), ..self }
    }

    /// Sets the inetd-compatibility descriptor; the last write wins.
    pub fn inetd_compatibility(self, value: InetdCompatibility) -> (r: Self)
        ensures
            r == (LaunchAgentBuilder { inetd_compatibility: Some(value), ..self }),
    {
        LaunchAgentBuilder { inetd_compatibility: Some(value), ..self }
    }

    /// Sets the host allow list; the last write wins.
    pub fn limit_load_to_hosts(self, value: Vec<String>) -> (r: Self)
        ensures
            r == (LaunchAgentBuilder { limit_load_to_hosts: Some(value), ..self }),
    {
        LaunchAgentBuilder { limit_load_to_hosts: Some(value), ..self }
    }

    /// Sets the host deny list; the last write wins.
    pub fn limit_load_from_hosts(self, value: Vec<String>) -> (r: Self)
        ensures
            r == (LaunchAgentBuilder { limit_load_from_hosts: Some(value), ..self }),
    {
        LaunchAgentBuilder { limit_load_from_hosts: Some(value), ..self }
    }

    /// Sets the session-type restriction; the last write wins.
    pub fn limit_load_to_session_type(self, value: SessionType) -> (r: Self)
        ensures
            r == (LaunchAgentBuilder { limit_load_to_session_type: Some(value), ..self }),
    {
        LaunchAgentBuilder { limit_load_to_session_type: Some(value), ..self }
    }

    /// Sets the hardware allow map; the last write wins.
    pub fn limit_load_to_hardware(self, value: Vec<(String, Vec<String>)>) -> (r: Self)
        requires
            keys_unique(value@),
        ensures
            r == (LaunchAgentBuilder { limit_load_to_hardware: Some(value), ..self }),
    {
        LaunchAgentBuilder { limit_load_to_hardware: Some(value), ..self }
    }

    /// Sets the hardware deny map; the last write wins.
    pub fn limit_load_from_hardware(self, value: Vec<(String, Vec<String>)>) -> (r: Self)
        requires
            keys_unique(value@),
        ensures
            r == (LaunchAgentBuilder { limit_load_from_hardware: Some(value), ..self }),
    {
        LaunchAgentBuilder { limit_load_from_hardware: Some(value), ..self }
    }

    /// Sets the program path; the last write wins.
    pub fn program(self, value: String) -> (r: Self)
        ensures
            r == (LaunchAgentBuilder { program: Some(value), ..self }),
    {
        LaunchAgentBuilder { program: Some(value), ..self }
    }

    /// Sets the bundle-relative program path; the last write wins.
    pub fn bundle_program(self, value: String) -> (r: Self)
        ensures
            r == (LaunchAgentBuilder { bundle_program: Some(value), ..self }),
    {
        LaunchAgentBuilder { bundle_program: Some(value), ..self }
    }

    /// Replaces the whole argument vector; the last write wins.
    pub fn program_arguments(self, value: Vec<String>) -> (r: Self)
        ensures
            r == (LaunchAgentBuilder { program_arguments: Some(value), ..self }),
    {
        LaunchAgentBuilder { program_arguments: Some(value), ..self }
    }

    /// Appends one program argument, starting the vector where none exists.
    pub fn program_argument(self, value: String) -> (r: Self)
        ensures
            r.program_arguments matches Some(v) && v@ == (match self.program_arguments {
                Some(w) => w@,
                None => Seq::empty(),
            }).push(value),
            r == (LaunchAgentBuilder { program_arguments: r.program_arguments, ..self }),
    {
        let mut v: Vec<String> = match self.program_arguments {
            Some(w) => w,
            None => Vec::new(),
        };
        v.push(value);
        LaunchAgentBuilder { program_arguments: Some(v), ..self }
    }

    /// Sets the globbing flag; the last write wins.
    pub fn enable_globbing(self, value: bool) -> (r: Self)
        ensures
            r == (LaunchAgentBuilder { enable_globbing: Some(value), ..self }),
    {
        LaunchAgentBuilder { enable_globbing: Some(value), ..self }
    }

    /// Sets the transactions flag; the last write wins.
    pub fn enable_transactions(self, value: bool) -> (r: Self)
        ensures
            r == (LaunchAgentBuilder { enable_transactions: Some(value), ..self }),
    {
        LaunchAgentBuilder { enable_transactions: Some(value), ..self }
    }

    /// Sets the pressured-exit flag; the last write wins.
    pub fn enable_pressured_exit(self, value: bool) -> (r: Self)
        ensures
            r == (LaunchAgentBuilder { enable_pressured_exit: Some(value), ..self }),
    {
        LaunchAgentBuilder { enable_pressured_exit: Some(value), ..self }
    }

    /// Sets the legacy on-demand flag; the last write wins.
    pub fn on_demand(self, value: bool) -> (r: Self)
        ensures
            r == (LaunchAgentBuilder { on_demand: Some(value), ..self }),
    {
        LaunchAgentBuilder { on_demand: Some(value), ..self }
    }

    /// Sets the legacy service-IPC flag; the last write wins.
    pub fn service_ipc(self, value: bool) -> (r: Self)
        ensures
            r == (LaunchAgentBuilder { service_ipc: Some(value), ..self }),
    {
        LaunchAgentBuilder { service_ipc: Some(value), ..self }
    }

    /// Sets the keep-alive policy; the last write wins.
    pub fn keep_alive(self, value: KeepAlive) -> (r: Self)
        requires
            keep_alive_wf(value),
        ensures
            r == (LaunchAgentBuilder { keep_alive: Some(value), ..self }),
    {
        LaunchAgentBuilder { keep_alive: Some(value), ..self }
    }

    /// Sets the run-at-load flag; the last write wins.
    pub fn run_at_load(self, value: bool) -> (r: Self)
        ensures
            r == (LaunchAgentBuilder { run_at_load: Some(value), ..self }),
    {
        LaunchAgentBuilder { run_at_load: Some(value), ..self }
    }

    /// Sets the root directory; the last write wins.
    pub fn root_directory(self, value: String) -> (r: Self)
        ensures
            r == (LaunchAgentBuilder { root_directory: Some(value), ..self }),
    {
        LaunchAgentBuilder { root_directory: Some(value), ..self }
    }

    /// Sets the working directory; the last write wins.
    pub fn working_directory(self, value: String) -> (r: Self)
        ensures
            r == (LaunchAgentBuilder { working_directory: Some(value), ..self }),
    {
        LaunchAgentBuilder { working_directory: Some(value), ..self }
    }

    /// Sets the environment variables; the last write wins.
    pub fn environment_variables(self, value: Vec<(String, String)>) -> (r: Self)
        requires
            keys_unique(value@),
        ensures
            r == (LaunchAgentBuilder { environment_variables: Some(value), ..self }),
    {
        LaunchAgentBuilder { environment_variables: Some(value), ..self }
    }

    /// Sets the umask; the last write wins.
    pub fn umask(self, value: StringOrU32) -> (r: Self)
        ensures
            r == (LaunchAgentBuilder { umask: Some(value), ..self }),
    {
        LaunchAgentBuilder { umask: Some(value), ..self }
    }

    /// Sets the legacy idle time out; the last write wins.
    pub fn time_out(self, value: u32) -> (r: Self)
        ensures
            r == (LaunchAgentBuilder { time_out: Some(value), ..self }),
    {
        LaunchAgentBuilder { time_out: Some(value), ..self }
    }

    /// Sets the exit time out; the last write wins.
    pub fn exit_time_out(self, value: u32) -> (r: Self)
        ensures
            r == (LaunchAgentBuilder { exit_time_out: Some(value), ..self }),
    {
        LaunchAgentBuilder { exit_time_out: Some(value), ..self }
    }

    /// Sets the throttle interval; the last write wins.
    pub fn throttle_interval(self, value: u32) -> (r: Self)
        ensures
            r == (LaunchAgentBuilder { throttle_interval: Some(value), ..self }),
    {
        LaunchAgentBuilder { throttle_interval: Some(value), ..self }
    }

    /// Sets the init-groups flag; the last write wins.
    pub fn init_groups(self, value: bool) -> (r: Self)
        ensures
            r == (LaunchAgentBuilder { init_groups: Some(value), ..self }),
    {
        LaunchAgentBuilder { init_groups: Some(value), ..self }
    }

    /// Sets the watched paths; the last write wins.
    pub fn watch_paths(self, value: Vec<String>) -> (r: Self)
        ensures
            r == (LaunchAgentBuilder { watch_paths: Some(value), ..self }),
    {
        LaunchAgentBuilder { watch_paths: Some(value), ..self }
    }

    /// Sets the queue directories; the last write wins.
    pub fn queue_directories(self, value: Vec<String>) -> (r: Self)
        ensures
            r == (LaunchAgentBuilder { queue_directories: Some(value), ..self }),
    {
        LaunchAgentBuilder { queue_directories: Some(value), ..self }
    }

    /// Sets the start-on-mount flag; the last write wins.
    pub fn start_on_mount(self, value: bool) -> (r: Self)
        ensures
            r == (LaunchAgentBuilder { start_on_mount: Some(value), ..self }),
    {
        LaunchAgentBuilder { start_on_mount: Some(value), ..self }
    }

    /// Sets the start interval; the last write wins.
    pub fn start_interval(self, value: u32) -> (r: Self)
        ensures
            r == (LaunchAgentBuilder { start_interval: Some(value), ..self }),
    {
        LaunchAgentBuilder { start_interval: Some(value), ..self }
    }

    /// Sets the calendar intervals; the last write wins.
    pub fn start_calendar_interval(self, value: Vec<CalendarInterval>) -> (r: Self)
        ensures
            r == (LaunchAgentBuilder { start_calendar_interval: Some(value), ..self }),
    {
        LaunchAgentBuilder { start_calendar_interval: Some(value), ..self }
    }

    /// Sets the standard-input path; the last write wins.
    pub fn standard_in_path(self, value: String) -> (r: Self)
        ensures
            r == (LaunchAgentBuilder { standard_in_path: Some(value), ..self }),
    {
        LaunchAgentBuilder { standard_in_path: Some(value), ..self }
    }

    /// Sets the standard-output path; the last write wins.
    pub fn standard_out_path(self, value: String) -> (r: Self)
        ensures
            r == (LaunchAgentBuilder { standard_out_path: Some(value), ..self }),
    {
        LaunchAgentBuilder { standard_out_path: Some(value), ..self }
    }

    /// Sets the standard-error path; the last write wins.
    pub fn standard_error_path(self, value: String) -> (r: Self)
        ensures
            r == (LaunchAgentBuilder { standard_error_path: Some(value), ..self }),
    {
        LaunchAgentBuilder { standard_error_path: Some(value), ..self }
    }

    /// Sets the debug flag; the last write wins.
    pub fn debug(self, value: bool) -> (r: Self)
        ensures
            r == (LaunchAgentBuilder { debug: Some(value), ..self }),
    {
        LaunchAgentBuilder { debug: Some(value), ..self }
    }

    /// Sets the wait-for-debugger flag; the last write wins.
    pub fn wait_for_debugger(self, value: bool) -> (r: Self)
        ensures
            r == (LaunchAgentBuilder { wait_for_debugger: Some(value), ..self }),
    {
        LaunchAgentBuilder { wait_for_debugger: Some(value), ..self }
    }

    /// Sets the soft resource limits; the last write wins.
    pub fn soft_resource_limits(self, value: ResourceLimits) -> (r: Self)
        ensures
            r == (LaunchAgentBuilder { soft_resource_limits: Some(value), ..self }),
    {
        LaunchAgentBuilder { soft_resource_limits: Some(value), ..self }
    }

    /// Sets the hard resource limits; the last write wins.
    pub fn hard_resource_limits(self, value: ResourceLimits) -> (r: Self)
        ensures
            r == (LaunchAgentBuilder { hard_resource_limits: Some(value), ..self }),
    {
        LaunchAgentBuilder { hard_resource_limits: Some(value), ..self }
    }

    /// Sets the nice value; the last write wins.
    pub fn nice(self, value: i8) -> (r: Self)
        ensures
            r == (LaunchAgentBuilder { nice: Some(value), ..self }),
    {
        LaunchAgentBuilder { nice: Some(value), ..self }
    }

    /// Sets the process type; the last write wins.
    pub fn process_type(self, value: ProcessType) -> (r: Self)
        ensures
            r == (LaunchAgentBuilder { process_type: Some(value), ..self }),
    {
        LaunchAgentBuilder { process_type: Some(value), ..self }
    }

    /// Sets the abandon-process-group flag; the last write wins.
    pub fn abandon_process_group(self, value: bool) -> (r: Self)
        ensures
            r == (LaunchAgentBuilder { abandon_process_group: Some(value), ..self }),
    {
        LaunchAgentBuilder { abandon_process_group: Some(value), ..self }
    }

    /// Sets the low-priority I/O flag; the last write wins.
    pub fn low_priority_io(self, value: bool) -> (r: Self)
        ensures
            r == (LaunchAgentBuilder { low_priority_io: Some(value), ..self }),
    {
        LaunchAgentBuilder { low_priority_io: Some(value), ..self }
    }

    /// Sets the low-priority background I/O flag; the last write wins.
    pub fn low_priority_background_io(self, value: bool) -> (r: Self)
        ensures
            r == (LaunchAgentBuilder { low_priority_background_io: Some(value), ..self }),
    {
        LaunchAgentBuilder { low_priority_background_io: Some(value), ..self }
    }

    /// Sets the dataless-file policy; the last write wins.
    pub fn materialized_dataless_files(self, value: bool) -> (r: Self)
        ensures
            r == (LaunchAgentBuilder { materialized_dataless_files: Some(value), ..self }),
    {
        LaunchAgentBuilder { materialized_dataless_files: Some(value), ..self }
    }

    /// Sets the launch-only-once flag; the last write wins.
    pub fn launch_only_once(self, value: bool) -> (r: Self)
        ensures
            r == (LaunchAgentBuilder { launch_only_once: Some(value), ..self }),
    {
        LaunchAgentBuilder { launch_only_once: Some(value), ..self }
    }

    /// Sets the Mach-service map; the last write wins.
    pub fn mach_services(self, value: Vec<(String, MachServiceConfig)>) -> (r: Self)
        requires
            keys_unique(value@),
        ensures
            r == (LaunchAgentBuilder { mach_services: Some(value), ..self }),
    {
        LaunchAgentBuilder { mach_services: Some(value), ..self }
    }

    /// Sets the socket map; the last write wins.
    pub fn sockets(self, value: Vec<(String, SocketValue)>) -> (r: Self)
        requires
            keys_unique(value@),
        ensures
            r == (LaunchAgentBuilder { sockets: Some(value), ..self }),
    {
        LaunchAgentBuilder { sockets: Some(value), ..self }
    }

    /// Sets the launch-event map; the last write wins.
    pub fn launch_events(
        self,
        value: Vec<(String, Vec<(String, Vec<(String, String)>)>)>,
    ) -> (r: Self)
        requires
            launch_events_keys_unique(value@),
        ensures
            r == (LaunchAgentBuilder { launch_events: Some(value), ..self }),
    {
        LaunchAgentBuilder { launch_events: Some(value), ..self }
    }

    /// Sets the legacy exits-last hint; the last write wins.
    pub fn hopefully_exits_last(self, value: String) -> (r: Self)
        ensures
            r == (LaunchAgentBuilder { hopefully_exits_last: Some(value), ..self }),
    {
        LaunchAgentBuilder { hopefully_exits_last: Some(value), ..self }
    }

    /// Sets the legacy exits-first hint; the last write wins.
    pub fn hopefully_exits_first(self, value: String) -> (r: Self)
        ensures
            r == (LaunchAgentBuilder { hopefully_exits_first: Some(value), ..self }),
    {
        LaunchAgentBuilder { hopefully_exits_first: Some(value), ..self }
    }

    /// Sets the session-create flag; the last write wins.
    pub fn session_create(self, value: bool) -> (r: Self)
        ensures
            r == (LaunchAgentBuilder { session_create: Some(value), ..self }),
    {
        LaunchAgentBuilder { session_create: Some(value), ..self }
    }

    /// Sets the legacy-timers flag; the last write wins.
    pub fn legacy_timers(self, value: bool) -> (r: Self)
        ensures
            r == (LaunchAgentBuilder { legacy_timers: Some(value), ..self }),
    {
        LaunchAgentBuilder { legacy_timers: Some(value), ..self }
    }

    /// Sets the associated bundle identifiers; the last write wins.
    pub fn associated_bundle_identifiers(self, value: StringOrVec) -> (r: Self)
        ensures
            r == (LaunchAgentBuilder { associated_bundle_identifiers: Some(value), ..self }),
    {
        LaunchAgentBuilder { associated_bundle_identifiers: Some(value), ..self }
    }

    /// Materializes the job. Succeeds exactly when the label has been set;
    /// the job carries every field as accumulated.
    pub fn build(self) -> (r: Result<LaunchAgent, BuildError>)
        ensures
            r is Ok <==> self.label is Some,
            r matches Ok(a) ==> built_from(self, a),
            r matches Err(e) ==> e == BuildError::MissingLabel,
    {
        match self.label {
            None => Err(BuildError::MissingLabel),
            Some(l) => Ok(
                LaunchAgent {
                    label: l,
                    disabled: self.disabled,
                    user_name: self.user_name,
                    group_name: self.group_name,
                    inetd_compatibility: self.inetd_compatibility,
                    limit_load_to_hosts: self.limit_load_to_hosts,
                    limit_load_from_hosts: self.limit_load_from_hosts,
                    limit_load_to_session_type: self.limit_load_to_session_type,
                    limit_load_to_hardware: self.limit_load_to_hardware,
                    limit_load_from_hardware: self.limit_load_from_hardware,
                    program: self.program,
                    bundle_program: self.bundle_program,
                    program_arguments: self.program_arguments,
                    enable_globbing: self.enable_globbing,
                    enable_transactions: self.enable_transactions,
                    enable_pressured_exit: self.enable_pressured_exit,
                    on_demand: self.on_demand,
                    service_ipc: self.service_ipc,
                    keep_alive: self.keep_alive,
                    run_at_load: self.run_at_load,
                    root_directory: self.root_directory,
                    working_directory: self.working_directory,
                    environment_variables: self.environment_variables,
                    umask: self.umask,
                    time_out: self.time_out,
                    exit_time_out: self.exit_time_out,
                    throttle_interval: self.throttle_interval,
                    init_groups: self.init_groups,
                    watch_paths: self.watch_paths,
                    queue_directories: self.queue_directories,
                    start_on_mount: self.start_on_mount,
                    start_interval: self.start_interval,
                    start_calendar_interval: self.start_calendar_interval,
                    standard_in_path: self.standard_in_path,
                    standard_out_path: self.standard_out_path,
                    standard_error_path: self.standard_error_path,
                    debug: self.debug,
                    wait_for_debugger: self.wait_for_debugger,
                    soft_resource_limits: self.soft_resource_limits,
                    hard_resource_limits: self.hard_resource_limits,
                    nice: self.nice,
                    process_type: self.process_type,
                    abandon_process_group: self.abandon_process_group,
                    low_priority_io: self.low_priority_io,
                    low_priority_background_io: self.low_priority_background_io,
                    materialized_dataless_files: self.materialized_dataless_files,
                    launch_only_once: self.launch_only_once,
                    mach_services: self.mach_services,
                    sockets: self.sockets,
                    launch_events: self.launch_events,
                    hopefully_exits_last: self.hopefully_exits_last,
                    hopefully_exits_first: self.hopefully_exits_first,
                    session_create: self.session_create,
                    legacy_timers: self.legacy_timers,
                    associated_bundle_identifiers: self.associated_bundle_identifiers,
                },
            ),
        }
    }
}

impl LaunchAgent {
    /// A job with the given label and program path, and nothing else set.
    pub fn new(label: String, program: &str) -> (r: Self)
        ensures
            r.label == label,
            r.program matches Some(p) && p@ == program@,
            r.program_arguments is None,
            blank_except_invocation(r),
    {
        let b = LaunchAgentBuilder::default().label(label).program(program.to_owned());
        b.build().unwrap()
    }

    /// A job with the given label and argument vector, and nothing else set.
    pub fn new_with_args(label: String, program_arguments: Vec<&str>) -> (r: Self)
        ensures
            r.label == label,
            r.program is None,
            r.program_arguments matches Some(v) && v.deep_view()
                == program_arguments.deep_view(),
            blank_except_invocation(r),
    {
        let mut args: Vec<String> = Vec::new();
        let mut i: usize = 0;
        while i < program_arguments.len()
            invariant
                i <= program_arguments.len(),
                args@.len() == i,
                forall|j: int| 0 <= j < i ==> (#[trigger] args@[j])@ == program_arguments@[j]@,
            decreases program_arguments.len() - i,
        {
            args.push(program_arguments[i].to_owned());
            i = i + 1;
        }
        proof {
            assert(args.deep_view() =~= program_arguments.deep_view());
        }
        let b = LaunchAgentBuilder::default().label(label).program_arguments(args);
        b.build().unwrap()
    }
}

} // verus!

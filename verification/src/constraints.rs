//! Job constraints: resource limits, session types, and process types.

use vstd::prelude::*;

use crate::value::{
    PlistValue, SpecDict, SpecValue, dict_get, dict_has_key, opt_entry, opt_u32, pairs_rep,
    push_opt_u32, str_arr,
};

verus! {

broadcast use crate::value::lemma_empty_concat, crate::value::lemma_dict_get_concat,
    crate::value::lemma_opt_entry_get;

/// Soft or hard resource limits to be imposed on a job: nine independent
/// optional unsigned limits, each omitted from the rendering when unset.
#[derive(Clone)]
pub struct ResourceLimits {
    /// The largest size (in bytes) core file that may be created.
    pub core: Option<u32>,
    /// The maximum amount of cpu time (in seconds) to be used by each process.
    pub cpu: Option<u32>,
    /// The maximum size (in bytes) of the data segment for a process.
    pub data: Option<u32>,
    /// The largest size (in bytes) file that may be created.
    pub file_size: Option<u32>,
    /// The maximum size (in bytes) which a process may lock into memory.
    pub memory_lock: Option<u32>,
    /// The maximum number of open files for this process.
    pub number_of_files: Option<u32>,
    /// The maximum number of simultaneous processes for this UID.
    pub number_of_processes: Option<u32>,
    /// The maximum size (in bytes) to which a process's resident set size may grow.
    pub resident_set_size: Option<u32>,
    /// The maximum size (in bytes) of the stack segment for a process.
    pub stack: Option<u32>,
}

/// The rendered dictionary entries of a [`ResourceLimits`]: one entry per set
/// field, in declaration order, under the historical key names. The `cpu`
/// field renders under the key `CPU`.
pub open spec fn resource_limits_entries(r: ResourceLimits) -> SpecDict {
    opt_entry("Core"@, opt_u32(r.core)) + opt_entry("CPU"@, opt_u32(r.cpu)) + opt_entry(
        "Data"@,
        opt_u32(r.data),
    ) + opt_entry("FileSize"@, opt_u32(r.file_size)) + opt_entry(
        "MemoryLock"@,
        opt_u32(r.memory_lock),
    ) + opt_entry("NumberOfFiles"@, opt_u32(r.number_of_files)) + opt_entry(
        "NumberOfProcesses"@,
        opt_u32(r.number_of_processes),
    ) + opt_entry("ResidentSetSize"@, opt_u32(r.resident_set_size)) + opt_entry(
        "Stack"@,
        opt_u32(r.stack),
    )
}

/// The rendered form of a [`ResourceLimits`].
pub open spec fn resource_limits_value(r: ResourceLimits) -> SpecValue {
    SpecValue::Dict(resource_limits_entries(r))
}

impl ResourceLimits {
    /// Renders the limits as a dictionary holding exactly the set fields.
    pub fn to_value(&self) -> (v: PlistValue)
        ensures
            v@ == resource_limits_value(*self),
    {
        let mut entries: Vec<(String, PlistValue)> = Vec::new();
        push_opt_u32(&mut entries, "Core", self.core);
        push_opt_u32(&mut entries, "CPU", self.cpu);
        push_opt_u32(&mut entries, "Data", self.data);
        push_opt_u32(&mut entries, "FileSize", self.file_size);
        push_opt_u32(&mut entries, "MemoryLock", self.memory_lock);
        push_opt_u32(&mut entries, "NumberOfFiles", self.number_of_files);
        push_opt_u32(&mut entries, "NumberOfProcesses", self.number_of_processes);
        push_opt_u32(&mut entries, "ResidentSetSize", self.resident_set_size);
        push_opt_u32(&mut entries, "Stack", self.stack);
        proof {
            assert(pairs_rep(entries@) == resource_limits_entries(*self));
        }
        PlistValue::Dictionary(entries)
    }
}

/// Accumulates resource-limit fields in any order; absent fields stay unset.
pub struct ResourceLimitsBuilder {
    /// The limits accumulated so far.
    pub limits: ResourceLimits,
}

impl Default for ResourceLimitsBuilder {
    /// Starts with every limit unset.
    fn default() -> (r: Self)
        ensures
            r.limits == (ResourceLimits {
                core: None,
                cpu: None,
                data: None,
                file_size: None,
                memory_lock: None,
                number_of_files: None,
                number_of_processes: None,
                resident_set_size: None,
                stack: None,
            }),
    {
        ResourceLimitsBuilder {
            limits: ResourceLimits {
                core: None,
                cpu: None,
                data: None,
                file_size: None,
                memory_lock: None,
                number_of_files: None,
                number_of_processes: None,
                resident_set_size: None,
                stack: None,
            },
        }
    }
}

impl ResourceLimitsBuilder {
    /// Sets the core-file size limit; the last write wins.
    pub fn core_size(self, value: u32) -> (r: Self)
        ensures
            r.limits == (ResourceLimits { core: Some(value), ..self.limits }),
    {
        ResourceLimitsBuilder { limits: ResourceLimits { core: Some(value), ..self.limits } }
    }

    /// Sets the cpu-seconds limit; the last write wins.
    pub fn cpu(self, value: u32) -> (r: Self)
        ensures
            r.limits == (ResourceLimits { cpu: Some(value), ..self.limits }),
    {
        ResourceLimitsBuilder { limits: ResourceLimits { cpu: Some(value), ..self.limits } }
    }

    /// Sets the data-segment size limit; the last write wins.
    pub fn data(self, value: u32) -> (r: Self)
        ensures
            r.limits == (ResourceLimits { data: Some(value), ..self.limits }),
    {
        ResourceLimitsBuilder { limits: ResourceLimits { data: Some(value), ..self.limits } }
    }

    /// Sets the file-size limit; the last write wins.
    pub fn file_size(self, value: u32) -> (r: Self)
        ensures
            r.limits == (ResourceLimits { file_size: Some(value), ..self.limits }),
    {
        ResourceLimitsBuilder { limits: ResourceLimits { file_size: Some(value), ..self.limits } }
    }

    /// Sets the memory-lock size limit; the last write wins.
    pub fn memory_lock(self, value: u32) -> (r: Self)
        ensures
            r.limits == (ResourceLimits { memory_lock: Some(value), ..self.limits }),
    {
        ResourceLimitsBuilder {
            limits: ResourceLimits { memory_lock: Some(value), ..self.limits },
        }
    }

    /// Sets the open-file count limit; the last write wins.
    pub fn number_of_files(self, value: u32) -> (r: Self)
        ensures
            r.limits == (ResourceLimits { number_of_files: Some(value), ..self.limits }),
    {
        ResourceLimitsBuilder {
            limits: ResourceLimits { number_of_files: Some(value), ..self.limits },
        }
    }

    /// Sets the process count limit; the last write wins.
    pub fn number_of_processes(self, value: u32) -> (r: Self)
        ensures
            r.limits == (ResourceLimits { number_of_processes: Some(value), ..self.limits }),
    {
        ResourceLimitsBuilder {
            limits: ResourceLimits { number_of_processes: Some(value), ..self.limits },
        }
    }

    /// Sets the resident-set size limit; the last write wins.
    pub fn resident_set_size(self, value: u32) -> (r: Self)
        ensures
            r.limits == (ResourceLimits { resident_set_size: Some(value), ..self.limits }),
    {
        ResourceLimitsBuilder {
            limits: ResourceLimits { resident_set_size: Some(value), ..self.limits },
        }
    }

    /// Sets the stack-segment size limit; the last write wins.
    pub fn stack(self, value: u32) -> (r: Self)
        ensures
            r.limits == (ResourceLimits { stack: Some(value), ..self.limits }),
    {
        ResourceLimitsBuilder { limits: ResourceLimits { stack: Some(value), ..self.limits } }
    }

    /// Materializes the accumulated limits; always succeeds.
    pub fn build(self) -> (r: ResourceLimits)
        ensures
            r == self.limits,
    {
        self.limits
    }
}

/// The rendered dictionary holds an entry for a limit exactly when that limit
/// is set, under its documented key (`CPU` for the cpu limit), carrying the
/// exact numeric value; no other key ever appears.
#[verifier::rlimit(100)]
pub proof fn lemma_resource_limits_fidelity(r: ResourceLimits)
    ensures
        dict_get(resource_limits_entries(r), "Core"@) == opt_u32(r.core),
        dict_get(resource_limits_entries(r), "CPU"@) == opt_u32(r.cpu),
        dict_get(resource_limits_entries(r), "Data"@) == opt_u32(r.data),
        dict_get(resource_limits_entries(r), "FileSize"@) == opt_u32(r.file_size),
        dict_get(resource_limits_entries(r), "MemoryLock"@) == opt_u32(r.memory_lock),
        dict_get(resource_limits_entries(r), "NumberOfFiles"@) == opt_u32(r.number_of_files),
        dict_get(resource_limits_entries(r), "NumberOfProcesses"@) == opt_u32(
            r.number_of_processes,
        ),
        dict_get(resource_limits_entries(r), "ResidentSetSize"@) == opt_u32(r.resident_set_size),
        dict_get(resource_limits_entries(r), "Stack"@) == opt_u32(r.stack),
        forall|k: Seq<char>| #[trigger] dict_has_key(resource_limits_entries(r), k) <==> (
            (k == "Core"@ && r.core is Some) || (k == "CPU"@ && r.cpu is Some) || (k == "Data"@
                && r.data is Some) || (k == "FileSize"@ && r.file_size is Some) || (k
                == "MemoryLock"@ && r.memory_lock is Some) || (k == "NumberOfFiles"@
                && r.number_of_files is Some) || (k == "NumberOfProcesses"@
                && r.number_of_processes is Some) || (k == "ResidentSetSize"@
                && r.resident_set_size is Some) || (k == "Stack"@ && r.stack is Some)
        ),
{
    let s1 = opt_entry("Core"@, opt_u32(r.core));
    let s2 = opt_entry("CPU"@, opt_u32(r.cpu));
    let s3 = opt_entry("Data"@, opt_u32(r.data));
    let s4 = opt_entry("FileSize"@, opt_u32(r.file_size));
    let s5 = opt_entry("MemoryLock"@, opt_u32(r.memory_lock));
    let s6 = opt_entry("NumberOfFiles"@, opt_u32(r.number_of_files));
    let s7 = opt_entry("NumberOfProcesses"@, opt_u32(r.number_of_processes));
    let s8 = opt_entry("ResidentSetSize"@, opt_u32(r.resident_set_size));
    let s9 = opt_entry("Stack"@, opt_u32(r.stack));
    let d = s1 + s2 + s3 + s4 + s5 + s6 + s7 + s8 + s9;
    assert(resource_limits_entries(r) == d);
    reveal_strlit("Core");
    reveal_strlit("CPU");
    reveal_strlit("Data");
    reveal_strlit("FileSize");
    reveal_strlit("MemoryLock");
    reveal_strlit("NumberOfFiles");
    reveal_strlit("NumberOfProcesses");
    reveal_strlit("ResidentSetSize");
    reveal_strlit("Stack");
    assert("Core"@.len() == 4);
    assert("CPU"@.len() == 3);
    assert("Data"@.len() == 4);
    assert("FileSize"@.len() == 8);
    assert("MemoryLock"@.len() == 10);
    assert("NumberOfFiles"@.len() == 13);
    assert("NumberOfProcesses"@.len() == 17);
    assert("ResidentSetSize"@.len() == 15);
    assert("Stack"@.len() == 5);
    assert("Core"@[1] == 'o' && "Data"@[1] == 'a');
}

/// The type of session a job may be run in: one session name or several.
#[derive(Clone)]
pub enum SessionType {
    Single(String),
    Many(Vec<String>),
}

/// The rendered form of a [`SessionType`]: the bare active variant.
pub open spec fn session_type_value(v: SessionType) -> SpecValue {
    match v {
        SessionType::Single(s) => SpecValue::Str(s@),
        SessionType::Many(a) => str_arr(a@),
    }
}

impl SessionType {
    /// Renders the active variant with no surrounding tag.
    pub fn to_value(&self) -> (r: PlistValue)
        ensures
            r@ == session_type_value(*self),
    {
        match self {
            SessionType::Single(s) => PlistValue::String(s.clone()),
            SessionType::Many(a) => crate::value::str_vec_value(a),
        }
    }
}

/// The rendered form determines the variant and its content: equal renderings
/// come only from the same variant holding equal content.
pub proof fn lemma_session_type_value_injective(a: SessionType, b: SessionType)
    requires
        session_type_value(a) == session_type_value(b),
    ensures
        a matches SessionType::Single(x) ==> (b matches SessionType::Single(y) && x@ == y@),
        a matches SessionType::Many(x) ==> (b matches SessionType::Many(y) && x.deep_view()
            == y.deep_view()),
{
    match (a, b) {
        (SessionType::Many(x), SessionType::Many(y)) => {
            let fx = x@.map_values(|s: String| SpecValue::Str(s@));
            let fy = y@.map_values(|s: String| SpecValue::Str(s@));
            assert(fx == fy);
            assert forall|i: int| 0 <= i < x@.len() implies x@[i]@ == y@[i]@ by {
                assert(fx[i] == fy[i]);
            }
            assert(x.deep_view() =~= y.deep_view());
        },
        _ => {},
    }
}

/// The intended purpose of a job, which picks the system's resource policy.
#[derive(Clone)]
pub enum ProcessType {
    /// Work not directly requested by the user, run under limits that keep it
    /// from disrupting the user experience.
    Background,
    /// Equivalent to no process type being set.
    Standard,
    /// Moves between background and interactive classification based on
    /// activity over XPC connections.
    Adaptive,
    /// Runs with no resource limitation, like an app; for jobs that a
    /// responsive user experience depends on.
    Interactive,
}

/// The rendered form of a [`ProcessType`]: the variant name as a string.
pub open spec fn process_type_value(v: ProcessType) -> SpecValue {
    match v {
        ProcessType::Background => SpecValue::Str("Background"@),
        ProcessType::Standard => SpecValue::Str("Standard"@),
        ProcessType::Adaptive => SpecValue::Str("Adaptive"@),
        ProcessType::Interactive => SpecValue::Str("Interactive"@),
    }
}

impl ProcessType {
    /// Renders the classification as its name.
    pub fn to_value(&self) -> (r: PlistValue)
        ensures
            r@ == process_type_value(*self),
    {
        match self {
            ProcessType::Background => PlistValue::String("Background".to_owned()),
            ProcessType::Standard => PlistValue::String("Standard".to_owned()),
            ProcessType::Adaptive => PlistValue::String("Adaptive".to_owned()),
            ProcessType::Interactive => PlistValue::String("Interactive".to_owned()),
        }
    }
}

} // verus!

//! The keep-alive policy: a bare boolean or a dictionary of liveness
//! conditions, rendered with no wrapper tag.

use vstd::prelude::*;

use crate::value::{
    PlistValue, SpecDict, SpecValue, bool_map_entries, bool_map_value, dict_get, dict_has_key,
    opt_bool, opt_entry, pairs_rep, push_entry, push_opt_bool,
};

verus! {

broadcast use crate::value::lemma_empty_concat, crate::value::lemma_dict_get_concat,
    crate::value::lemma_opt_entry_get;

/// Whether a job is kept continuously running or started on demand.
///
/// The boolean form restarts (or never restarts) the job unconditionally. The
/// object form carries independent optional conditions, which the init system
/// combines with OR; this type only carries them. The network-state condition
/// is kept for format compatibility but is functionally inert.
#[derive(Clone)]
pub enum KeepAlive {
    Bool(bool),
    Object {
        /// Restart while the program exits cleanly (or, when `false`, while it
        /// does not).
        successful_exit: Option<bool>,
        /// Kept for format compatibility; no longer implemented.
        network_state: Option<bool>,
        /// Keep alive while each listed path exists (or, per entry, while it
        /// does not).
        path_state: Option<Vec<(String, bool)>>,
        /// Keep alive while another named job is loaded (or not loaded).
        other_job_enabled: Option<Vec<(String, bool)>>,
        /// Restart while the job exits on a crash signal (or, when `false`,
        /// while it does not).
        crashed: Option<bool>,
    },
}

/// Whether each condition map of a keep-alive policy holds its keys once:
/// what a rendered policy needs to match the written document structurally.
pub open spec fn keep_alive_wf(v: KeepAlive) -> bool {
    match v {
        KeepAlive::Bool(_) => true,
        KeepAlive::Object { path_state, other_job_enabled, .. } => {
            &&& (path_state matches Some(m) ==> crate::value::keys_unique(m@))
            &&& (other_job_enabled matches Some(m) ==> crate::value::keys_unique(m@))
        },
    }
}

/// An optional string-to-boolean map field, as an optional rendered value.
pub open spec fn opt_bool_map(v: Option<Vec<(String, bool)>>) -> Option<SpecValue> {
    match v {
        Some(m) => Some(SpecValue::Dict(bool_map_entries(m@))),
        None => None,
    }
}

/// The rendered dictionary entries of the object form: one entry per set
/// condition, in declaration order.
pub open spec fn keep_alive_object_entries(
    successful_exit: Option<bool>,
    network_state: Option<bool>,
    path_state: Option<Vec<(String, bool)>>,
    other_job_enabled: Option<Vec<(String, bool)>>,
    crashed: Option<bool>,
) -> SpecDict {
    opt_entry("SuccessfulExit"@, opt_bool(successful_exit)) + opt_entry(
        "NetworkState"@,
        opt_bool(network_state),
    ) + opt_entry("PathState"@, opt_bool_map(path_state)) + opt_entry(
        "OtherJobEnabled"@,
        opt_bool_map(other_job_enabled),
    ) + opt_entry("Crashed"@, opt_bool(crashed))
}

/// The rendered form of a [`KeepAlive`]: a bare boolean, or the bare
/// dictionary of set conditions.
pub open spec fn keep_alive_value(v: KeepAlive) -> SpecValue {
    match v {
        KeepAlive::Bool(b) => SpecValue::Bool(b),
        KeepAlive::Object {
            successful_exit,
            network_state,
            path_state,
            other_job_enabled,
            crashed,
        } => SpecValue::Dict(
            keep_alive_object_entries(
                successful_exit,
                network_state,
                path_state,
                other_job_enabled,
                crashed,
            ),
        ),
    }
}

/// The object form's dictionary holds an entry for a condition exactly when
/// that condition is set, carrying its exact value; an unset condition's key
/// never appears.
pub proof fn lemma_keep_alive_object_fidelity(
    successful_exit: Option<bool>,
    network_state: Option<bool>,
    path_state: Option<Vec<(String, bool)>>,
    other_job_enabled: Option<Vec<(String, bool)>>,
    crashed: Option<bool>,
)
    ensures
        dict_get(
            keep_alive_object_entries(
                successful_exit,
                network_state,
                path_state,
                other_job_enabled,
                crashed,
            ),
            "SuccessfulExit"@,
        ) == opt_bool(successful_exit),
        dict_get(
            keep_alive_object_entries(
                successful_exit,
                network_state,
                path_state,
                other_job_enabled,
                crashed,
            ),
            "NetworkState"@,
        ) == opt_bool(network_state),
        dict_get(
            keep_alive_object_entries(
                successful_exit,
                network_state,
                path_state,
                other_job_enabled,
                crashed,
            ),
            "PathState"@,
        ) == opt_bool_map(path_state),
        dict_get(
            keep_alive_object_entries(
                successful_exit,
                network_state,
                path_state,
                other_job_enabled,
                crashed,
            ),
            "OtherJobEnabled"@,
        ) == opt_bool_map(other_job_enabled),
        dict_get(
            keep_alive_object_entries(
                successful_exit,
                network_state,
                path_state,
                other_job_enabled,
                crashed,
            ),
            "Crashed"@,
        ) == opt_bool(crashed),
        forall|k: Seq<char>|
            #[trigger] dict_has_key(
                keep_alive_object_entries(
                    successful_exit,
                    network_state,
                    path_state,
                    other_job_enabled,
                    crashed,
                ),
                k,
            ) <==> ((k == "SuccessfulExit"@ && successful_exit is Some) || (k == "NetworkState"@
                && network_state is Some) || (k == "PathState"@ && path_state is Some) || (k
                == "OtherJobEnabled"@ && other_job_enabled is Some) || (k == "Crashed"@
                && crashed is Some)),
{
    let s1 = opt_entry("SuccessfulExit"@, opt_bool(successful_exit));
    let s2 = opt_entry("NetworkState"@, opt_bool(network_state));
    let s3 = opt_entry("PathState"@, opt_bool_map(path_state));
    let s4 = opt_entry("OtherJobEnabled"@, opt_bool_map(other_job_enabled));
    let s5 = opt_entry("Crashed"@, opt_bool(crashed));
    let d = s1 + s2 + s3 + s4 + s5;
    assert(keep_alive_object_entries(
        successful_exit,
        network_state,
        path_state,
        other_job_enabled,
        crashed,
    ) == d);
    reveal_strlit("SuccessfulExit");
    reveal_strlit("NetworkState");
    reveal_strlit("PathState");
    reveal_strlit("OtherJobEnabled");
    reveal_strlit("Crashed");
    assert("SuccessfulExit"@.len() == 14);
    assert("NetworkState"@.len() == 12);
    assert("PathState"@.len() == 9);
    assert("OtherJobEnabled"@.len() == 15);
    assert("Crashed"@.len() == 7);
}

/// An object policy with only the crash condition set renders as a dictionary
/// holding exactly the one `Crashed` entry.
pub proof fn lemma_keep_alive_crashed_only(c: bool)
    ensures
        keep_alive_value(
            KeepAlive::Object {
                successful_exit: None,
                network_state: None,
                path_state: None,
                other_job_enabled: None,
                crashed: Some(c),
            },
        ) == SpecValue::Dict(seq![("Crashed"@, SpecValue::Bool(c))]),
{
    assert(keep_alive_object_entries(None, None, None, None, Some(c)) =~= seq![
        ("Crashed"@, SpecValue::Bool(c)),
    ]);
}

/// The rendered form determines the variant and its content: equal renderings
/// come only from the same variant holding equal content.
pub proof fn lemma_keep_alive_value_injective(a: KeepAlive, b: KeepAlive)
    requires
        keep_alive_value(a) == keep_alive_value(b),
    ensures
        a matches KeepAlive::Bool(x) ==> (b matches KeepAlive::Bool(y) && x == y),
        a is Object ==> b is Object,
        a matches KeepAlive::Object {
            successful_exit: se1,
            network_state: ns1,
            path_state: ps1,
            other_job_enabled: oj1,
            crashed: c1,
        } ==> (b matches KeepAlive::Object {
            successful_exit: se2,
            network_state: ns2,
            path_state: ps2,
            other_job_enabled: oj2,
            crashed: c2,
        } && se1 == se2 && ns1 == ns2 && c1 == c2 && ps1.deep_view() == ps2.deep_view()
            && oj1.deep_view() == oj2.deep_view()),
{
    match (a, b) {
        (
            KeepAlive::Object {
                successful_exit: se1,
                network_state: ns1,
                path_state: ps1,
                other_job_enabled: oj1,
                crashed: c1,
            },
            KeepAlive::Object {
                successful_exit: se2,
                network_state: ns2,
                path_state: ps2,
                other_job_enabled: oj2,
                crashed: c2,
            },
        ) => {
            lemma_keep_alive_object_fidelity(se1, ns1, ps1, oj1, c1);
            lemma_keep_alive_object_fidelity(se2, ns2, ps2, oj2, c2);
            match (ps1, ps2) {
                (Some(m1), Some(m2)) => {
                    crate::value::lemma_bool_map_entries_injective(m1@, m2@);
                    assert(m1.deep_view() =~= m2.deep_view());
                },
                _ => {},
            }
            match (oj1, oj2) {
                (Some(m1), Some(m2)) => {
                    crate::value::lemma_bool_map_entries_injective(m1@, m2@);
                    assert(m1.deep_view() =~= m2.deep_view());
                },
                _ => {},
            }
        },
        _ => {},
    }
}

impl KeepAlive {
    /// Renders the active variant with no surrounding tag.
    pub fn to_value(&self) -> (v: PlistValue)
        ensures
            v@ == keep_alive_value(*self),
    {
        match self {
            KeepAlive::Bool(b) => PlistValue::Boolean(*b),
            KeepAlive::Object {
                successful_exit,
                network_state,
                path_state,
                other_job_enabled,
                crashed,
            } => {
                let mut entries: Vec<(String, PlistValue)> = Vec::new();
                push_opt_bool(&mut entries, "SuccessfulExit", *successful_exit);
                push_opt_bool(&mut entries, "NetworkState", *network_state);
                match path_state {
                    Some(m) => {
                        let mv = bool_map_value(m);
                        push_entry(&mut entries, "PathState", mv);
                    },
                    None => {
                        proof {
                            assert(pairs_rep(entries@) + opt_entry(
                                "PathState"@,
                                opt_bool_map(*path_state),
                            ) =~= pairs_rep(entries@));
                        }
                    },
                }
                match other_job_enabled {
                    Some(m) => {
                        let mv = bool_map_value(m);
                        push_entry(&mut entries, "OtherJobEnabled", mv);
                    },
                    None => {
                        proof {
                            assert(pairs_rep(entries@) + opt_entry(
                                "OtherJobEnabled"@,
                                opt_bool_map(*other_job_enabled),
                            ) =~= pairs_rep(entries@));
                        }
                    },
                }
                push_opt_bool(&mut entries, "Crashed", *crashed);
                proof {
                    assert(pairs_rep(entries@) == keep_alive_object_entries(
                        *successful_exit,
                        *network_state,
                        *path_state,
                        *other_job_enabled,
                        *crashed,
                    ));
                }
                PlistValue::Dictionary(entries)
            },
        }
    }
}

} // verus!

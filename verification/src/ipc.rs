//! The IPC surface of a job: inetd compatibility, Mach service registration,
//! and launch-on-demand sockets.

use vstd::prelude::*;

use crate::defaults::default_false;
use crate::unions::{StringOrU32, string_or_u32_value};
use crate::value::{
    PlistValue, SpecDict, SpecValue, dict_get, dict_has_key, opt_bool, opt_entry, opt_string,
    opt_u32, pairs_rep, push_opt_bool, push_opt_string, push_opt_u32, push_opt_value,
    spec_value_of, str_arr, values_rep,
};

verus! {

broadcast use crate::value::lemma_empty_concat, crate::value::lemma_dict_get_concat,
    crate::value::lemma_opt_entry_get;

/// Marks a daemon that expects to be run as if launched from `inetd`.
#[derive(Clone)]
pub struct InetdCompatibility {
    /// Corresponds to the "wait" or "nowait" option of `inetd`. If `true`,
    /// the listening socket is passed via the standard I/O file descriptors;
    /// if `false`, `accept(2)` is called on behalf of the job.
    pub wait: Option<bool>,
}

/// The rendered dictionary entries of an [`InetdCompatibility`].
pub open spec fn inetd_compatibility_entries(c: InetdCompatibility) -> SpecDict {
    opt_entry("Wait"@, opt_bool(c.wait))
}

/// The rendered form of an [`InetdCompatibility`].
pub open spec fn inetd_compatibility_value(c: InetdCompatibility) -> SpecValue {
    SpecValue::Dict(inetd_compatibility_entries(c))
}

impl InetdCompatibility {
    /// Renders the descriptor as a dictionary holding exactly the set fields.
    pub fn to_value(&self) -> (v: PlistValue)
        ensures
            v@ == inetd_compatibility_value(*self),
    {
        let mut entries: Vec<(String, PlistValue)> = Vec::new();
        push_opt_bool(&mut entries, "Wait", self.wait);
        proof {
            assert(pairs_rep(entries@) == inetd_compatibility_entries(*self));
        }
        PlistValue::Dictionary(entries)
    }
}

/// The object form of a Mach service registration.
///
/// Both options default to `false`, and the object form always renders both
/// keys explicitly, so an unset option appears as an explicit `false`.
#[derive(Clone)]
pub struct MachService {
    /// If `true`, clients receive port-death notifications when the job lets
    /// go of the receive right; if `false`, the port is recycled.
    pub reset_at_close: bool,
    /// Reserve the name in the namespace, but make look-ups fail until the
    /// job has checked in.
    pub hide_until_check_in: bool,
}

impl Default for MachService {
    /// Both options off, as the format's defaults prescribe.
    fn default() -> (r: Self)
        ensures
            r == (MachService { reset_at_close: false, hide_until_check_in: false }),
    {
        MachService { reset_at_close: default_false(), hide_until_check_in: default_false() }
    }
}

/// The rendered dictionary entries of a [`MachService`]: always both keys.
pub open spec fn mach_service_entries(m: MachService) -> SpecDict {
    seq![("ResetAtClose"@, SpecValue::Bool(m.reset_at_close))] + seq![
        ("HideUntilCheckIn"@, SpecValue::Bool(m.hide_until_check_in)),
    ]
}

/// The rendered form of a [`MachService`].
pub open spec fn mach_service_value(m: MachService) -> SpecValue {
    SpecValue::Dict(mach_service_entries(m))
}

impl MachService {
    /// Renders the object form; both boolean keys are always present.
    pub fn to_value(&self) -> (v: PlistValue)
        ensures
            v@ == mach_service_value(*self),
    {
        let mut entries: Vec<(String, PlistValue)> = Vec::new();
        crate::value::push_entry(&mut entries, "ResetAtClose", PlistValue::Boolean(
            self.reset_at_close,
        ));
        crate::value::push_entry(&mut entries, "HideUntilCheckIn", PlistValue::Boolean(
            self.hide_until_check_in,
        ));
        proof {
            assert(pairs_rep(entries@) == mach_service_entries(*self));
        }
        PlistValue::Dictionary(entries)
    }
}

/// One Mach service registration: boolean shorthand or the object form.
#[derive(Clone)]
pub enum MachServiceConfig {
    Bool(bool),
    Object(MachService),
}

/// The rendered form of a [`MachServiceConfig`]: the bare active variant.
pub open spec fn mach_service_config_value(v: MachServiceConfig) -> SpecValue {
    match v {
        MachServiceConfig::Bool(b) => SpecValue::Bool(b),
        MachServiceConfig::Object(m) => mach_service_value(m),
    }
}

impl MachServiceConfig {
    /// Renders the active variant with no surrounding tag.
    pub fn to_value(&self) -> (v: PlistValue)
        ensures
            v@ == mach_service_config_value(*self),
    {
        match self {
            MachServiceConfig::Bool(b) => PlistValue::Boolean(*b),
            MachServiceConfig::Object(m) => m.to_value(),
        }
    }
}

/// The rendered form determines the variant and its content: equal renderings
/// come only from the same variant holding equal content.
pub proof fn lemma_mach_service_config_value_injective(a: MachServiceConfig, b: MachServiceConfig)
    requires
        mach_service_config_value(a) == mach_service_config_value(b),
    ensures
        a matches MachServiceConfig::Bool(x) ==> (b matches MachServiceConfig::Bool(y) && x == y),
        a matches MachServiceConfig::Object(x) ==> (b matches MachServiceConfig::Object(y) && x
            == y),
{
    match (a, b) {
        (MachServiceConfig::Object(x), MachServiceConfig::Object(y)) => {
            assert(mach_service_entries(x)[0] == mach_service_entries(y)[0]);
            assert(mach_service_entries(x)[1] == mach_service_entries(y)[1]);
        },
        _ => {},
    }
}

/// The type of socket to create.
#[derive(Clone)]
pub enum SocketType {
    Stream,
    Dgram,
    Seqpacket,
}

/// The rendered form of a [`SocketType`]: the variant name as a string.
pub open spec fn socket_type_value(v: SocketType) -> SpecValue {
    match v {
        SocketType::Stream => SpecValue::Str("Stream"@),
        SocketType::Dgram => SpecValue::Str("Dgram"@),
        SocketType::Seqpacket => SpecValue::Str("Seqpacket"@),
    }
}

impl SocketType {
    /// Renders the type as its name.
    pub fn to_value(&self) -> (r: PlistValue)
        ensures
            r@ == socket_type_value(*self),
    {
        match self {
            SocketType::Stream => PlistValue::String("Stream".to_owned()),
            SocketType::Dgram => PlistValue::String("Dgram".to_owned()),
            SocketType::Seqpacket => PlistValue::String("Seqpacket".to_owned()),
        }
    }
}

/// The family of socket to create.
#[derive(Clone)]
pub enum SocketFamily {
    IPv4,
    IPv6,
    IPv4v6,
    Unix,
}

/// The rendered form of a [`SocketFamily`]: the variant name as a string.
pub open spec fn socket_family_value(v: SocketFamily) -> SpecValue {
    match v {
        SocketFamily::IPv4 => SpecValue::Str("IPv4"@),
        SocketFamily::IPv6 => SpecValue::Str("IPv6"@),
        SocketFamily::IPv4v6 => SpecValue::Str("IPv4v6"@),
        SocketFamily::Unix => SpecValue::Str("Unix"@),
    }
}

impl SocketFamily {
    /// Renders the family as its name.
    pub fn to_value(&self) -> (r: PlistValue)
        ensures
            r@ == socket_family_value(*self),
    {
        match self {
            SocketFamily::IPv4 => PlistValue::String("IPv4".to_owned()),
            SocketFamily::IPv6 => PlistValue::String("IPv6".to_owned()),
            SocketFamily::IPv4v6 => PlistValue::String("IPv4v6".to_owned()),
            SocketFamily::Unix => PlistValue::String("Unix".to_owned()),
        }
    }
}

/// The protocol to be passed to `socket(2)`.
#[derive(Clone)]
pub enum SocketProtocol {
    TCP,
    UDP,
}

/// The rendered form of a [`SocketProtocol`]: the variant name as a string.
pub open spec fn socket_protocol_value(v: SocketProtocol) -> SpecValue {
    match v {
        SocketProtocol::TCP => SpecValue::Str("TCP"@),
        SocketProtocol::UDP => SpecValue::Str("UDP"@),
    }
}

impl SocketProtocol {
    /// Renders the protocol as its name.
    pub fn to_value(&self) -> (r: PlistValue)
        ensures
            r@ == socket_protocol_value(*self),
    {
        match self {
            SocketProtocol::TCP => PlistValue::String("TCP".to_owned()),
            SocketProtocol::UDP => PlistValue::String("UDP".to_owned()),
        }
    }
}

/// A Bonjour registration request: a flag, one service name, or several.
#[derive(Clone)]
pub enum Bonjour {
    Bool(bool),
    String(String),
    Array(Vec<String>),
}

/// The rendered form of a [`Bonjour`]: the bare active variant.
pub open spec fn bonjour_value(v: Bonjour) -> SpecValue {
    match v {
        Bonjour::Bool(b) => SpecValue::Bool(b),
        Bonjour::String(s) => SpecValue::Str(s@),
        Bonjour::Array(a) => str_arr(a@),
    }
}

impl Bonjour {
    /// Renders the active variant with no surrounding tag.
    pub fn to_value(&self) -> (r: PlistValue)
        ensures
            r@ == bonjour_value(*self),
    {
        match self {
            Bonjour::Bool(b) => PlistValue::Boolean(*b),
            Bonjour::String(s) => PlistValue::String(s.clone()),
            Bonjour::Array(a) => crate::value::str_vec_value(a),
        }
    }
}

/// The rendered form determines the variant and its content: equal renderings
/// come only from the same variant holding equal content.
pub proof fn lemma_bonjour_value_injective(a: Bonjour, b: Bonjour)
    requires
        bonjour_value(a) == bonjour_value(b),
    ensures
        a matches Bonjour::Bool(x) ==> (b matches Bonjour::Bool(y) && x == y),
        a matches Bonjour::String(x) ==> (b matches Bonjour::String(y) && x@ == y@),
        a matches Bonjour::Array(x) ==> (b matches Bonjour::Array(y) && x.deep_view()
            == y.deep_view()),
{
    match (a, b) {
        (Bonjour::Array(x), Bonjour::Array(y)) => {
            let fx = x@.map_values(|s: String| SpecValue::Str(s@));
            let fy = y@.map_values(|s: String| SpecValue::Str(s@));
            assert(fx == fy);
            assert forall|i: int| 0 <= i < x@.len() implies x@[i]@ == y@[i]@ by {
                assert(fx[i] == fy[i]);
            }
            assert(x.deep_view() =~= y.deep_view());
        },
        _ => {},
    }
}

/// An optional socket type, as an optional rendered value.
pub open spec fn opt_socket_type(v: Option<SocketType>) -> Option<SpecValue> {
    match v {
        Some(t) => Some(socket_type_value(t)),
        None => None,
    }
}

/// An optional socket family, as an optional rendered value.
pub open spec fn opt_socket_family(v: Option<SocketFamily>) -> Option<SpecValue> {
    match v {
        Some(f) => Some(socket_family_value(f)),
        None => None,
    }
}

/// An optional socket protocol, as an optional rendered value.
pub open spec fn opt_socket_protocol(v: Option<SocketProtocol>) -> Option<SpecValue> {
    match v {
        Some(p) => Some(socket_protocol_value(p)),
        None => None,
    }
}

/// An optional string-or-integer, as an optional rendered value.
pub open spec fn opt_string_or_u32(v: Option<StringOrU32>) -> Option<SpecValue> {
    match v {
        Some(s) => Some(string_or_u32_value(s)),
        None => None,
    }
}

/// An optional Bonjour request, as an optional rendered value.
pub open spec fn opt_bonjour(v: Option<Bonjour>) -> Option<SpecValue> {
    match v {
        Some(b) => Some(bonjour_value(b)),
        None => None,
    }
}

/// One launch-on-demand socket: up to thirteen independent optional fields,
/// each omitted from the rendering when unset. The `Sock`-prefixed key names
/// are the format's historical spelling.
#[derive(Clone)]
pub struct Socket {
    /// What type of socket to create; renders under `SockType`.
    pub socket_type: Option<SocketType>,
    /// Whether to listen (`true`, the default read by the init system) or
    /// connect; renders under `SockPassive`.
    pub passive: Option<bool>,
    /// The node to connect or bind to; renders under `SockNodeName`.
    pub node_name: Option<String>,
    /// The service on the node: a port number or a service name; renders
    /// under `SockServiceName`.
    pub service_name: Option<StringOrU32>,
    /// The requested address family; renders under `SockFamily`.
    pub family: Option<SocketFamily>,
    /// The protocol to be passed to `socket(2)`; renders under `SockProtocol`.
    pub protocol: Option<SocketProtocol>,
    /// The filesystem path to connect or bind to, for Unix-family sockets;
    /// renders under `SockPathName`.
    pub path_name: Option<String>,
    /// The environment-variable key under which a securely generated socket
    /// path is handed to the job.
    pub secure_socket_with_key: Option<String>,
    /// The user ID that should own the domain socket; renders under
    /// `SockPathOwner`.
    pub path_owner: Option<u32>,
    /// The group ID of the domain socket; renders under `SockPathGroup`.
    pub path_group: Option<u32>,
    /// The mode of the socket, in decimal (the format has no octal notation);
    /// renders under `SockPathMode`.
    pub path_mode: Option<u32>,
    /// A Bonjour registration request for the service.
    pub bonjour: Option<Bonjour>,
    /// A multicast group for the datagram socket to join.
    pub multicast_group: Option<String>,
}

/// The rendered dictionary entries of a [`Socket`]: one entry per set field,
/// in declaration order, under the historical key names.
pub open spec fn socket_entries(s: Socket) -> SpecDict {
    opt_entry("SockType"@, opt_socket_type(s.socket_type)) + opt_entry(
        "SockPassive"@,
        opt_bool(s.passive),
    ) + opt_entry("SockNodeName"@, opt_string(s.node_name)) + opt_entry(
        "SockServiceName"@,
        opt_string_or_u32(s.service_name),
    ) + opt_entry("SockFamily"@, opt_socket_family(s.family)) + opt_entry(
        "SockProtocol"@,
        opt_socket_protocol(s.protocol),
    ) + opt_entry("SockPathName"@, opt_string(s.path_name)) + opt_entry(
        "SecureSocketWithKey"@,
        opt_string(s.secure_socket_with_key),
    ) + opt_entry("SockPathOwner"@, opt_u32(s.path_owner)) + opt_entry(
        "SockPathGroup"@,
        opt_u32(s.path_group),
    ) + opt_entry("SockPathMode"@, opt_u32(s.path_mode)) + opt_entry(
        "Bonjour"@,
        opt_bonjour(s.bonjour),
    ) + opt_entry("MulticastGroup"@, opt_string(s.multicast_group))
}

/// The rendered form of a [`Socket`].
pub open spec fn socket_value(s: Socket) -> SpecValue {
    SpecValue::Dict(socket_entries(s))
}

impl Socket {
    /// Renders the socket as a dictionary holding exactly the set fields.
    pub fn to_value(&self) -> (v: PlistValue)
        ensures
            v@ == socket_value(*self),
    {
        let mut entries: Vec<(String, PlistValue)> = Vec::new();
        let tv = match &self.socket_type {
            Some(t) => Some(t.to_value()),
            None => None,
        };
        push_opt_value(&mut entries, "SockType", tv, Ghost(opt_socket_type(self.socket_type)));
        push_opt_bool(&mut entries, "SockPassive", self.passive);
        push_opt_string(&mut entries, "SockNodeName", &self.node_name);
        let sv = match &self.service_name {
            Some(n) => Some(n.to_value()),
            None => None,
        };
        push_opt_value(
            &mut entries,
            "SockServiceName",
            sv,
            Ghost(opt_string_or_u32(self.service_name)),
        );
        let fv = match &self.family {
            Some(f) => Some(f.to_value()),
            None => None,
        };
        push_opt_value(&mut entries, "SockFamily", fv, Ghost(opt_socket_family(self.family)));
        let pv = match &self.protocol {
            Some(p) => Some(p.to_value()),
            None => None,
        };
        push_opt_value(
            &mut entries,
            "SockProtocol",
            pv,
            Ghost(opt_socket_protocol(self.protocol)),
        );
        push_opt_string(&mut entries, "SockPathName", &self.path_name);
        push_opt_string(&mut entries, "SecureSocketWithKey", &self.secure_socket_with_key);
        push_opt_u32(&mut entries, "SockPathOwner", self.path_owner);
        push_opt_u32(&mut entries, "SockPathGroup", self.path_group);
        push_opt_u32(&mut entries, "SockPathMode", self.path_mode);
        let bv = match &self.bonjour {
            Some(b) => Some(b.to_value()),
            None => None,
        };
        push_opt_value(&mut entries, "Bonjour", bv, Ghost(opt_bonjour(self.bonjour)));
        push_opt_string(&mut entries, "MulticastGroup", &self.multicast_group);
        proof {
            assert(pairs_rep(entries@) == socket_entries(*self));
        }
        PlistValue::Dictionary(entries)
    }
}

/// The rendered dictionary holds an entry for a socket field exactly when
/// that field is set, under its historical key, carrying its exact rendered
/// value; an unset field's key never appears.
#[verifier::rlimit(100)]
pub proof fn lemma_socket_fidelity(s: Socket)
    ensures
        dict_get(socket_entries(s), "SockType"@) == opt_socket_type(s.socket_type),
        dict_get(socket_entries(s), "SockPassive"@) == opt_bool(s.passive),
        dict_get(socket_entries(s), "SockNodeName"@) == opt_string(s.node_name),
        dict_get(socket_entries(s), "SockServiceName"@) == opt_string_or_u32(s.service_name),
        dict_get(socket_entries(s), "SockFamily"@) == opt_socket_family(s.family),
        dict_get(socket_entries(s), "SockProtocol"@) == opt_socket_protocol(s.protocol),
        dict_get(socket_entries(s), "SockPathName"@) == opt_string(s.path_name),
        dict_get(socket_entries(s), "SecureSocketWithKey"@) == opt_string(
            s.secure_socket_with_key,
        ),
        dict_get(socket_entries(s), "SockPathOwner"@) == opt_u32(s.path_owner),
        dict_get(socket_entries(s), "SockPathGroup"@) == opt_u32(s.path_group),
        dict_get(socket_entries(s), "SockPathMode"@) == opt_u32(s.path_mode),
        dict_get(socket_entries(s), "Bonjour"@) == opt_bonjour(s.bonjour),
        dict_get(socket_entries(s), "MulticastGroup"@) == opt_string(s.multicast_group),
{
    let s1 = opt_entry("SockType"@, opt_socket_type(s.socket_type));
    let s2 = opt_entry("SockPassive"@, opt_bool(s.passive));
    let s3 = opt_entry("SockNodeName"@, opt_string(s.node_name));
    let s4 = opt_entry("SockServiceName"@, opt_string_or_u32(s.service_name));
    let s5 = opt_entry("SockFamily"@, opt_socket_family(s.family));
    let s6 = opt_entry("SockProtocol"@, opt_socket_protocol(s.protocol));
    let s7 = opt_entry("SockPathName"@, opt_string(s.path_name));
    let s8 = opt_entry("SecureSocketWithKey"@, opt_string(s.secure_socket_with_key));
    let s9 = opt_entry("SockPathOwner"@, opt_u32(s.path_owner));
    let s10 = opt_entry("SockPathGroup"@, opt_u32(s.path_group));
    let s11 = opt_entry("SockPathMode"@, opt_u32(s.path_mode));
    let s12 = opt_entry("Bonjour"@, opt_bonjour(s.bonjour));
    let s13 = opt_entry("MulticastGroup"@, opt_string(s.multicast_group));
    let d = s1 + s2 + s3 + s4 + s5 + s6 + s7 + s8 + s9 + s10 + s11 + s12 + s13;
    assert(socket_entries(s) == d);
    reveal_strlit("SockType");
    reveal_strlit("SockPassive");
    reveal_strlit("SockNodeName");
    reveal_strlit("SockServiceName");
    reveal_strlit("SockFamily");
    reveal_strlit("SockProtocol");
    reveal_strlit("SockPathName");
    reveal_strlit("SecureSocketWithKey");
    reveal_strlit("SockPathOwner");
    reveal_strlit("SockPathGroup");
    reveal_strlit("SockPathMode");
    reveal_strlit("Bonjour");
    reveal_strlit("MulticastGroup");
    assert("SockType"@.len() == 8);
    assert("SockPassive"@.len() == 11);
    assert("SockNodeName"@.len() == 12);
    assert("SockServiceName"@.len() == 15);
    assert("SockFamily"@.len() == 10);
    assert("SockProtocol"@.len() == 12);
    assert("SockPathName"@.len() == 12);
    assert("SecureSocketWithKey"@.len() == 19);
    assert("SockPathOwner"@.len() == 13);
    assert("SockPathGroup"@.len() == 13);
    assert("SockPathMode"@.len() == 12);
    assert("Bonjour"@.len() == 7);
    assert("MulticastGroup"@.len() == 14);
    assert("SockNodeName"@[4] == 'N');
    assert("SockPathGroup"@[8] == 'G');
    assert("SockPathMode"@[4] == 'P');
    assert("SockPathMode"@[5] == 'a');
    assert("SockPathMode"@[8] == 'M');
    assert("SockPathName"@[4] == 'P');
    assert("SockPathName"@[5] == 'a');
    assert("SockPathName"@[8] == 'N');
    assert("SockPathOwner"@[8] == 'O');
    assert("SockProtocol"@[4] == 'P');
    assert("SockProtocol"@[5] == 'r');
}

/// A key appears in a socket's rendered dictionary exactly when it is the
/// key of a set field: no other key ever appears.
#[verifier::rlimit(100)]
pub proof fn lemma_socket_keys(s: Socket)
    ensures
        forall|k: Seq<char>| #[trigger] dict_has_key(socket_entries(s), k) <==> ((k == "SockType"@
            && s.socket_type is Some) || (k == "SockPassive"@ && s.passive is Some) || (k
            == "SockNodeName"@ && s.node_name is Some) || (k == "SockServiceName"@
            && s.service_name is Some) || (k == "SockFamily"@ && s.family is Some) || (k
            == "SockProtocol"@ && s.protocol is Some) || (k == "SockPathName"@
            && s.path_name is Some) || (k == "SecureSocketWithKey"@
            && s.secure_socket_with_key is Some) || (k == "SockPathOwner"@
            && s.path_owner is Some) || (k == "SockPathGroup"@ && s.path_group is Some) || (k
            == "SockPathMode"@ && s.path_mode is Some) || (k == "Bonjour"@ && s.bonjour is Some)
            || (k == "MulticastGroup"@ && s.multicast_group is Some)),
{
    let s1 = opt_entry("SockType"@, opt_socket_type(s.socket_type));
    let s2 = opt_entry("SockPassive"@, opt_bool(s.passive));
    let s3 = opt_entry("SockNodeName"@, opt_string(s.node_name));
    let s4 = opt_entry("SockServiceName"@, opt_string_or_u32(s.service_name));
    let s5 = opt_entry("SockFamily"@, opt_socket_family(s.family));
    let s6 = opt_entry("SockProtocol"@, opt_socket_protocol(s.protocol));
    let s7 = opt_entry("SockPathName"@, opt_string(s.path_name));
    let s8 = opt_entry("SecureSocketWithKey"@, opt_string(s.secure_socket_with_key));
    let s9 = opt_entry("SockPathOwner"@, opt_u32(s.path_owner));
    let s10 = opt_entry("SockPathGroup"@, opt_u32(s.path_group));
    let s11 = opt_entry("SockPathMode"@, opt_u32(s.path_mode));
    let s12 = opt_entry("Bonjour"@, opt_bonjour(s.bonjour));
    let s13 = opt_entry("MulticastGroup"@, opt_string(s.multicast_group));
    let d = s1 + s2 + s3 + s4 + s5 + s6 + s7 + s8 + s9 + s10 + s11 + s12 + s13;
    assert(socket_entries(s) == d);
}

/// The rendered dictionary of a socket determines every field: equal
/// renderings come only from sockets that agree, field by field, up to the
/// views of their strings and the renderings of their nested unions.
#[verifier::rlimit(100)]
pub proof fn lemma_socket_value_injective(s1: Socket, s2: Socket)
    requires
        socket_value(s1) == socket_value(s2),
    ensures
        s1.socket_type == s2.socket_type,
        s1.passive == s2.passive,
        s1.node_name.deep_view() == s2.node_name.deep_view(),
        opt_string_or_u32(s1.service_name) == opt_string_or_u32(s2.service_name),
        s1.family == s2.family,
        s1.protocol == s2.protocol,
        s1.path_name.deep_view() == s2.path_name.deep_view(),
        s1.secure_socket_with_key.deep_view() == s2.secure_socket_with_key.deep_view(),
        s1.path_owner == s2.path_owner,
        s1.path_group == s2.path_group,
        s1.path_mode == s2.path_mode,
        opt_bonjour(s1.bonjour) == opt_bonjour(s2.bonjour),
        s1.multicast_group.deep_view() == s2.multicast_group.deep_view(),
{
    lemma_socket_fidelity(s1);
    lemma_socket_fidelity(s2);
    reveal_strlit("Stream");
    reveal_strlit("Dgram");
    reveal_strlit("Seqpacket");
    reveal_strlit("IPv4");
    reveal_strlit("IPv6");
    reveal_strlit("IPv4v6");
    reveal_strlit("Unix");
    reveal_strlit("TCP");
    reveal_strlit("UDP");
    assert("Stream"@.len() == 6);
    assert("Dgram"@.len() == 5);
    assert("Seqpacket"@.len() == 9);
    assert("IPv4"@.len() == 4);
    assert("IPv6"@.len() == 4);
    assert("IPv4v6"@.len() == 6);
    assert("Unix"@.len() == 4);
    assert("TCP"@.len() == 3);
    assert("UDP"@.len() == 3);
    assert("IPv4"@[3] == '4' && "IPv6"@[3] == '6' && "Unix"@[0] == 'U' && "IPv4"@[0] == 'I');
    assert("TCP"@[0] == 'T' && "UDP"@[0] == 'U');
}

/// The rendered form determines the variant and its content: a single socket
/// and a socket list never render alike, and equal renderings carry equal
/// socket renderings, position by position.
pub proof fn lemma_socket_value_union_injective(a: SocketValue, b: SocketValue)
    requires
        socket_value_union(a) == socket_value_union(b),
    ensures
        a matches SocketValue::Single(x) ==> (b matches SocketValue::Single(y) && socket_value(x)
            == socket_value(y)),
        a matches SocketValue::Many(x) ==> (b matches SocketValue::Many(y) && x@.len() == y@.len()
            && (forall|i: int| 0 <= i < x@.len() ==> socket_value(#[trigger] x@[i])
            == socket_value(y@[i]))),
{
    match (a, b) {
        (SocketValue::Many(x), SocketValue::Many(y)) => {
            let fx = x@.map_values(|s: Socket| socket_value(s));
            let fy = y@.map_values(|s: Socket| socket_value(s));
            assert(fx.len() == x@.len());
            assert(fy.len() == y@.len());
            assert forall|i: int| 0 <= i < x@.len() implies socket_value(#[trigger] x@[i])
                == socket_value(y@[i]) by {
                assert(fx[i] == fy[i]);
            }
        },
        _ => {},
    }
}

/// One socket or a list of sockets, as stored under one name in the job's
/// socket map.
#[derive(Clone)]
pub enum SocketValue {
    Single(Socket),
    Many(Vec<Socket>),
}

/// A list of sockets, rendered as an array of socket dictionaries.
pub open spec fn socket_arr(v: Seq<Socket>) -> SpecValue {
    SpecValue::Arr(v.map_values(|s: Socket| socket_value(s)))
}

/// The rendered form of a [`SocketValue`]: the bare active variant.
pub open spec fn socket_value_union(v: SocketValue) -> SpecValue {
    match v {
        SocketValue::Single(s) => socket_value(s),
        SocketValue::Many(a) => socket_arr(a@),
    }
}

impl SocketValue {
    /// Renders the active variant with no surrounding tag.
    pub fn to_value(&self) -> (r: PlistValue)
        ensures
            r@ == socket_value_union(*self),
    {
        match self {
            SocketValue::Single(s) => s.to_value(),
            SocketValue::Many(a) => {
                let mut items: Vec<PlistValue> = Vec::new();
                let mut i: usize = 0;
                while i < a.len()
                    invariant
                        i <= a.len(),
                        items@.len() == i,
                        forall|j: int| 0 <= j < i ==> spec_value_of(#[trigger] items@[j])
                            == socket_value(a@[j]),
                    decreases a.len() - i,
                {
                    let sv = a[i].to_value();
                    items.push(sv);
                    i = i + 1;
                }
                proof {
                    crate::value::lemma_values_rep_props(items@);
                    assert(values_rep(items@) =~= a@.map_values(|s: Socket| socket_value(s)));
                }
                PlistValue::Array(items)
            },
        }
    }
}

} // verus!

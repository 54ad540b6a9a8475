use launchagent::{
    Bonjour, CalendarInterval, InetdCompatibility, KeepAlive, LaunchAgent, LaunchAgentBuilder,
    MachService, MachServiceConfig, ProcessType, ResourceLimits, SessionType, Socket,
    SocketFamily, SocketProtocol, SocketType, SocketValue, StringOrU32, StringOrVec,
    plist_file_path,
};

fn decode(agent: &LaunchAgent) -> plist::Value {
    let bytes = agent.to_xml().unwrap();
    plist::Value::from_reader_xml(&bytes[..]).unwrap()
}

fn minimal() -> LaunchAgentBuilder {
    LaunchAgentBuilder::default().label("com.example.test".to_string())
}

#[test]
fn minimal_agent_renders_only_its_label() {
    let agent = minimal().build().unwrap();
    let v = decode(&agent);
    let dict = v.as_dictionary().unwrap();
    assert_eq!(dict.len(), 1);
    assert_eq!(dict.get("Label").unwrap().as_string().unwrap(), "com.example.test");
}

#[test]
fn unset_fields_are_omitted_for_every_key() {
    let agent = LaunchAgent::new("com.example.test".to_string(), "/usr/bin/example");
    let v = decode(&agent);
    let dict = v.as_dictionary().unwrap();
    let optional_keys = [
        "Disabled",
        "UserName",
        "GroupName",
        "InetdCompatibility",
        "LimitLoadToHosts",
        "LimitLoadFromHosts",
        "LimitLoadToSessionType",
        "LimitLoadToHardware",
        "LimitLoadFromHardware",
        "BundleProgram",
        "ProgramArguments",
        "EnableGlobbing",
        "EnableTransactions",
        "EnablePressuredExit",
        "OnDemand",
        "ServiceIPC",
        "KeepAlive",
        "RunAtLoad",
        "RootDirectory",
        "WorkingDirectory",
        "EnvironmentVariables",
        "Umask",
        "TimeOut",
        "ExitTimeOut",
        "ThrottleInterval",
        "InitGroups",
        "WatchPaths",
        "QueueDirectories",
        "StartOnMount",
        "StartInterval",
        "StartCalendarInterval",
        "StandardInPath",
        "StandardOutPath",
        "StandardErrorPath",
        "Debug",
        "WaitForDebugger",
        "SoftResourceLimits",
        "HardResourceLimits",
        "Nice",
        "ProcessType",
        "AbandonProcessGroup",
        "LowPriorityIO",
        "LowPriorityBackgroundIO",
        "MaterializedDatalessFiles",
        "LaunchOnlyOnce",
        "MachServices",
        "Sockets",
        "LaunchEvents",
        "HopefullyExitsLast",
        "HopefullyExitsFirst",
        "SessionCreate",
        "LegacyTimers",
        "AssociatedBundleIdentifiers",
    ];
    for key in optional_keys {
        assert!(!dict.contains_key(key), "unexpected key {key}");
    }
    assert_eq!(dict.len(), 2);
    assert!(dict.contains_key("Label"));
    assert!(dict.contains_key("Program"));
}

#[test]
fn set_fields_round_trip_under_their_exact_keys() {
    let agent = minimal()
        .program("/usr/bin/example".to_string())
        .disabled(true)
        .user_name("nobody".to_string())
        .run_at_load(true)
        .nice(-5)
        .start_interval(300)
        .throttle_interval(10)
        .working_directory("/tmp".to_string())
        .standard_out_path("/tmp/out.log".to_string())
        .environment_variables(vec![
            ("PATH".to_string(), "/usr/bin".to_string()),
            ("HOME".to_string(), "/var/empty".to_string()),
        ])
        .watch_paths(vec!["/etc/hosts".to_string()])
        .process_type(ProcessType::Interactive)
        .build()
        .unwrap();
    let v = decode(&agent);
    let dict = v.as_dictionary().unwrap();

    let expected_keys = vec![
        "Label",
        "Disabled",
        "UserName",
        "Program",
        "RunAtLoad",
        "WorkingDirectory",
        "EnvironmentVariables",
        "ThrottleInterval",
        "WatchPaths",
        "StartInterval",
        "StandardOutPath",
        "Nice",
        "ProcessType",
    ];
    let keys: Vec<&String> = dict.keys().collect();
    assert_eq!(keys.len(), expected_keys.len());
    for key in &expected_keys {
        assert!(dict.contains_key(key), "missing key {key}");
    }

    assert_eq!(dict.get("Disabled").unwrap().as_boolean().unwrap(), true);
    assert_eq!(dict.get("UserName").unwrap().as_string().unwrap(), "nobody");
    assert_eq!(dict.get("Program").unwrap().as_string().unwrap(), "/usr/bin/example");
    assert_eq!(dict.get("RunAtLoad").unwrap().as_boolean().unwrap(), true);
    assert_eq!(dict.get("Nice").unwrap().as_signed_integer().unwrap(), -5);
    assert_eq!(dict.get("StartInterval").unwrap().as_unsigned_integer().unwrap(), 300);
    assert_eq!(dict.get("ThrottleInterval").unwrap().as_unsigned_integer().unwrap(), 10);
    assert_eq!(
        dict.get("ProcessType").unwrap().as_string().unwrap(),
        "Interactive"
    );

    let env = dict.get("EnvironmentVariables").unwrap().as_dictionary().unwrap();
    assert_eq!(env.len(), 2);
    assert_eq!(env.get("PATH").unwrap().as_string().unwrap(), "/usr/bin");
    assert_eq!(env.get("HOME").unwrap().as_string().unwrap(), "/var/empty");

    let paths = dict.get("WatchPaths").unwrap().as_array().unwrap();
    assert_eq!(paths.len(), 1);
    assert_eq!(paths[0].as_string().unwrap(), "/etc/hosts");
}

#[test]
fn resource_limits_pass_through_with_cpu_rename() {
    let limits = ResourceLimits {
        core: Some(1),
        cpu: Some(2),
        data: Some(3),
        file_size: Some(4),
        memory_lock: Some(5),
        number_of_files: Some(6),
        number_of_processes: Some(7),
        resident_set_size: Some(8),
        stack: Some(9),
    };
    let agent = minimal()
        .soft_resource_limits(limits.clone())
        .hard_resource_limits(limits)
        .build()
        .unwrap();
    let v = decode(&agent);
    let dict = v.as_dictionary().unwrap();
    for key in ["SoftResourceLimits", "HardResourceLimits"] {
        let rl = dict.get(key).unwrap().as_dictionary().unwrap();
        assert_eq!(rl.len(), 9);
        assert_eq!(rl.get("Core").unwrap().as_unsigned_integer().unwrap(), 1);
        assert_eq!(rl.get("CPU").unwrap().as_unsigned_integer().unwrap(), 2);
        assert!(!rl.contains_key("Cpu"));
        assert_eq!(rl.get("Data").unwrap().as_unsigned_integer().unwrap(), 3);
        assert_eq!(rl.get("FileSize").unwrap().as_unsigned_integer().unwrap(), 4);
        assert_eq!(rl.get("MemoryLock").unwrap().as_unsigned_integer().unwrap(), 5);
        assert_eq!(rl.get("NumberOfFiles").unwrap().as_unsigned_integer().unwrap(), 6);
        assert_eq!(rl.get("NumberOfProcesses").unwrap().as_unsigned_integer().unwrap(), 7);
        assert_eq!(rl.get("ResidentSetSize").unwrap().as_unsigned_integer().unwrap(), 8);
        assert_eq!(rl.get("Stack").unwrap().as_unsigned_integer().unwrap(), 9);
    }
}

#[test]
fn keep_alive_boolean_is_a_bare_boolean() {
    let agent = minimal().keep_alive(KeepAlive::Bool(true)).build().unwrap();
    let v = decode(&agent);
    let dict = v.as_dictionary().unwrap();
    assert_eq!(dict.get("KeepAlive").unwrap().as_boolean().unwrap(), true);
}

#[test]
fn keep_alive_object_with_only_crashed_renders_one_entry() {
    let agent = minimal()
        .keep_alive(KeepAlive::Object {
            successful_exit: None,
            network_state: None,
            path_state: None,
            other_job_enabled: None,
            crashed: Some(true),
        })
        .build()
        .unwrap();
    let v = decode(&agent);
    let ka = v.as_dictionary().unwrap().get("KeepAlive").unwrap().as_dictionary().unwrap();
    assert_eq!(ka.len(), 1);
    assert_eq!(ka.get("Crashed").unwrap().as_boolean().unwrap(), true);
}

#[test]
fn keep_alive_object_conditions_render_in_full() {
    let agent = minimal()
        .keep_alive(KeepAlive::Object {
            successful_exit: Some(false),
            network_state: Some(true),
            path_state: Some(vec![("/var/run/marker".to_string(), true)]),
            other_job_enabled: Some(vec![("com.example.peer".to_string(), false)]),
            crashed: Some(true),
        })
        .build()
        .unwrap();
    let v = decode(&agent);
    let ka = v.as_dictionary().unwrap().get("KeepAlive").unwrap().as_dictionary().unwrap();
    assert_eq!(ka.len(), 5);
    assert_eq!(ka.get("SuccessfulExit").unwrap().as_boolean().unwrap(), false);
    assert_eq!(ka.get("NetworkState").unwrap().as_boolean().unwrap(), true);
    let ps = ka.get("PathState").unwrap().as_dictionary().unwrap();
    assert_eq!(ps.get("/var/run/marker").unwrap().as_boolean().unwrap(), true);
    let oj = ka.get("OtherJobEnabled").unwrap().as_dictionary().unwrap();
    assert_eq!(oj.get("com.example.peer").unwrap().as_boolean().unwrap(), false);
    assert_eq!(ka.get("Crashed").unwrap().as_boolean().unwrap(), true);
}

#[test]
fn umask_integer_variant_is_a_bare_integer() {
    let agent = minimal().umask(StringOrU32::Integer(493)).build().unwrap();
    let v = decode(&agent);
    let dict = v.as_dictionary().unwrap();
    assert_eq!(dict.get("Umask").unwrap().as_unsigned_integer().unwrap(), 493);
}

#[test]
fn umask_numeral_string_variant_stays_a_string() {
    let agent = minimal().umask(StringOrU32::String("0755".to_string())).build().unwrap();
    let v = decode(&agent);
    let dict = v.as_dictionary().unwrap();
    assert_eq!(dict.get("Umask").unwrap().as_string().unwrap(), "0755");
}

#[test]
fn bundle_identifiers_single_and_many_render_bare() {
    let single = minimal()
        .associated_bundle_identifiers(StringOrVec::String("com.example.app".to_string()))
        .build()
        .unwrap();
    let v = decode(&single);
    assert_eq!(
        v.as_dictionary()
            .unwrap()
            .get("AssociatedBundleIdentifiers")
            .unwrap()
            .as_string()
            .unwrap(),
        "com.example.app"
    );

    let many = minimal()
        .associated_bundle_identifiers(StringOrVec::Vec(vec![
            "com.example.app".to_string(),
            "com.example.helper".to_string(),
        ]))
        .build()
        .unwrap();
    let v = decode(&many);
    let ids = v
        .as_dictionary()
        .unwrap()
        .get("AssociatedBundleIdentifiers")
        .unwrap()
        .as_array()
        .unwrap();
    assert_eq!(ids.len(), 2);
    assert_eq!(ids[0].as_string().unwrap(), "com.example.app");
    assert_eq!(ids[1].as_string().unwrap(), "com.example.helper");
}

#[test]
fn session_type_single_and_many_render_bare() {
    let single = minimal()
        .limit_load_to_session_type(SessionType::Single("Aqua".to_string()))
        .build()
        .unwrap();
    let v = decode(&single);
    assert_eq!(
        v.as_dictionary().unwrap().get("LimitLoadToSessionType").unwrap().as_string().unwrap(),
        "Aqua"
    );

    let many = minimal()
        .limit_load_to_session_type(SessionType::Many(vec![
            "Aqua".to_string(),
            "LoginWindow".to_string(),
        ]))
        .build()
        .unwrap();
    let v = decode(&many);
    let types = v
        .as_dictionary()
        .unwrap()
        .get("LimitLoadToSessionType")
        .unwrap()
        .as_array()
        .unwrap();
    assert_eq!(types.len(), 2);
    assert_eq!(types[0].as_string().unwrap(), "Aqua");
    assert_eq!(types[1].as_string().unwrap(), "LoginWindow");
}

#[test]
fn mach_service_boolean_and_object_forms() {
    let agent = minimal()
        .mach_services(vec![
            ("com.example.simple".to_string(), MachServiceConfig::Bool(true)),
            (
                "com.example.full".to_string(),
                MachServiceConfig::Object(MachService {
                    reset_at_close: true,
                    hide_until_check_in: false,
                }),
            ),
            (
                "com.example.defaulted".to_string(),
                MachServiceConfig::Object(MachService::default()),
            ),
        ])
        .build()
        .unwrap();
    let v = decode(&agent);
    let services = v.as_dictionary().unwrap().get("MachServices").unwrap().as_dictionary().unwrap();
    assert_eq!(services.len(), 3);
    assert_eq!(services.get("com.example.simple").unwrap().as_boolean().unwrap(), true);
    let full = services.get("com.example.full").unwrap().as_dictionary().unwrap();
    assert_eq!(full.get("ResetAtClose").unwrap().as_boolean().unwrap(), true);
    assert_eq!(full.get("HideUntilCheckIn").unwrap().as_boolean().unwrap(), false);
    let defaulted = services.get("com.example.defaulted").unwrap().as_dictionary().unwrap();
    assert_eq!(defaulted.len(), 2);
    assert_eq!(defaulted.get("ResetAtClose").unwrap().as_boolean().unwrap(), false);
    assert_eq!(defaulted.get("HideUntilCheckIn").unwrap().as_boolean().unwrap(), false);
}

#[test]
fn sockets_single_and_many_with_historical_keys() {
    let listener = Socket {
        socket_type: Some(SocketType::Stream),
        passive: Some(true),
        node_name: Some("localhost".to_string()),
        service_name: Some(StringOrU32::Integer(8080)),
        family: Some(SocketFamily::IPv4v6),
        protocol: Some(SocketProtocol::TCP),
        path_name: None,
        secure_socket_with_key: None,
        path_owner: None,
        path_group: None,
        path_mode: None,
        bonjour: Some(Bonjour::Bool(true)),
        multicast_group: None,
    };
    let unix_socket = Socket {
        socket_type: Some(SocketType::Dgram),
        passive: None,
        node_name: None,
        service_name: Some(StringOrU32::String("ssh".to_string())),
        family: Some(SocketFamily::Unix),
        protocol: Some(SocketProtocol::UDP),
        path_name: Some("/var/run/example.sock".to_string()),
        secure_socket_with_key: Some("EXAMPLE_SOCKET".to_string()),
        path_owner: Some(501),
        path_group: Some(20),
        path_mode: Some(384),
        bonjour: Some(Bonjour::Array(vec!["_example._tcp".to_string()])),
        multicast_group: Some("224.0.0.251".to_string()),
    };
    let agent = minimal()
        .sockets(vec![
            ("listener".to_string(), SocketValue::Single(listener.clone())),
            (
                "both".to_string(),
                SocketValue::Many(vec![listener, unix_socket]),
            ),
        ])
        .build()
        .unwrap();
    let v = decode(&agent);
    let sockets = v.as_dictionary().unwrap().get("Sockets").unwrap().as_dictionary().unwrap();
    assert_eq!(sockets.len(), 2);

    let single = sockets.get("listener").unwrap().as_dictionary().unwrap();
    assert_eq!(single.get("SockType").unwrap().as_string().unwrap(), "Stream");
    assert_eq!(single.get("SockPassive").unwrap().as_boolean().unwrap(), true);
    assert_eq!(single.get("SockNodeName").unwrap().as_string().unwrap(), "localhost");
    assert_eq!(single.get("SockServiceName").unwrap().as_unsigned_integer().unwrap(), 8080);
    assert_eq!(single.get("SockFamily").unwrap().as_string().unwrap(), "IPv4v6");
    assert_eq!(single.get("SockProtocol").unwrap().as_string().unwrap(), "TCP");
    assert_eq!(single.get("Bonjour").unwrap().as_boolean().unwrap(), true);
    assert!(!single.contains_key("SockPathName"));
    assert!(!single.contains_key("SockPathMode"));

    let both = sockets.get("both").unwrap().as_array().unwrap();
    assert_eq!(both.len(), 2);
    let second = both[1].as_dictionary().unwrap();
    assert_eq!(second.get("SockType").unwrap().as_string().unwrap(), "Dgram");
    assert_eq!(second.get("SockServiceName").unwrap().as_string().unwrap(), "ssh");
    assert_eq!(second.get("SockFamily").unwrap().as_string().unwrap(), "Unix");
    assert_eq!(second.get("SockProtocol").unwrap().as_string().unwrap(), "UDP");
    assert_eq!(
        second.get("SockPathName").unwrap().as_string().unwrap(),
        "/var/run/example.sock"
    );
    assert_eq!(
        second.get("SecureSocketWithKey").unwrap().as_string().unwrap(),
        "EXAMPLE_SOCKET"
    );
    assert_eq!(second.get("SockPathOwner").unwrap().as_unsigned_integer().unwrap(), 501);
    assert_eq!(second.get("SockPathGroup").unwrap().as_unsigned_integer().unwrap(), 20);
    assert_eq!(second.get("SockPathMode").unwrap().as_unsigned_integer().unwrap(), 384);
    let names = second.get("Bonjour").unwrap().as_array().unwrap();
    assert_eq!(names[0].as_string().unwrap(), "_example._tcp");
    assert_eq!(second.get("MulticastGroup").unwrap().as_string().unwrap(), "224.0.0.251");
}

#[test]
fn calendar_intervals_render_as_an_array_of_dictionaries() {
    let morning = CalendarInterval {
        minute: Some(30),
        hour: Some(9),
        day: None,
        weekday: Some(1),
        month: None,
    };
    let yearly = CalendarInterval {
        minute: Some(0),
        hour: Some(0),
        day: Some(1),
        weekday: None,
        month: Some(1),
    };
    let agent = minimal().start_calendar_interval(vec![morning, yearly]).build().unwrap();
    let v = decode(&agent);
    let intervals = v
        .as_dictionary()
        .unwrap()
        .get("StartCalendarInterval")
        .unwrap()
        .as_array()
        .unwrap();
    assert_eq!(intervals.len(), 2);
    let first = intervals[0].as_dictionary().unwrap();
    assert_eq!(first.len(), 3);
    assert_eq!(first.get("Minute").unwrap().as_unsigned_integer().unwrap(), 30);
    assert_eq!(first.get("Hour").unwrap().as_unsigned_integer().unwrap(), 9);
    assert_eq!(first.get("Weekday").unwrap().as_unsigned_integer().unwrap(), 1);
    assert!(!first.contains_key("Day"));
    assert!(!first.contains_key("Month"));
    let second = intervals[1].as_dictionary().unwrap();
    assert_eq!(second.len(), 4);
    assert_eq!(second.get("Day").unwrap().as_unsigned_integer().unwrap(), 1);
    assert_eq!(second.get("Month").unwrap().as_unsigned_integer().unwrap(), 1);
}

#[test]
fn inetd_compatibility_renders_its_wait_flag() {
    let agent = minimal()
        .inetd_compatibility(InetdCompatibility { wait: Some(false) })
        .build()
        .unwrap();
    let v = decode(&agent);
    let inetd = v
        .as_dictionary()
        .unwrap()
        .get("InetdCompatibility")
        .unwrap()
        .as_dictionary()
        .unwrap();
    assert_eq!(inetd.len(), 1);
    assert_eq!(inetd.get("Wait").unwrap().as_boolean().unwrap(), false);
}

#[test]
fn launch_events_render_three_levels_deep() {
    let agent = minimal()
        .launch_events(vec![(
            "com.apple.iokit.matching".to_string(),
            vec![(
                "com.example.device-attach".to_string(),
                vec![
                    ("IOProviderClass".to_string(), "IOUSBDevice".to_string()),
                    ("IOMatchLaunchStream".to_string(), "1".to_string()),
                ],
            )],
        )])
        .build()
        .unwrap();
    let v = decode(&agent);
    let events = v.as_dictionary().unwrap().get("LaunchEvents").unwrap().as_dictionary().unwrap();
    let subsystem = events.get("com.apple.iokit.matching").unwrap().as_dictionary().unwrap();
    let descriptor = subsystem
        .get("com.example.device-attach")
        .unwrap()
        .as_dictionary()
        .unwrap();
    assert_eq!(descriptor.len(), 2);
    assert_eq!(descriptor.get("IOProviderClass").unwrap().as_string().unwrap(), "IOUSBDevice");
    assert_eq!(descriptor.get("IOMatchLaunchStream").unwrap().as_string().unwrap(), "1");
}

#[test]
fn renamed_keys_keep_their_historical_casing() {
    let agent = minimal()
        .service_ipc(true)
        .low_priority_io(true)
        .low_priority_background_io(false)
        .build()
        .unwrap();
    let v = decode(&agent);
    let dict = v.as_dictionary().unwrap();
    assert_eq!(dict.get("ServiceIPC").unwrap().as_boolean().unwrap(), true);
    assert_eq!(dict.get("LowPriorityIO").unwrap().as_boolean().unwrap(), true);
    assert_eq!(dict.get("LowPriorityBackgroundIO").unwrap().as_boolean().unwrap(), false);
    assert!(!dict.contains_key("ServiceIpc"));
    assert!(!dict.contains_key("LowPriorityIo"));
}

#[test]
fn hardware_limits_render_as_dictionaries_of_arrays() {
    let agent = minimal()
        .limit_load_to_hardware(vec![(
            "model".to_string(),
            vec!["MacBookPro4,2".to_string()],
        )])
        .build()
        .unwrap();
    let v = decode(&agent);
    let hw = v
        .as_dictionary()
        .unwrap()
        .get("LimitLoadToHardware")
        .unwrap()
        .as_dictionary()
        .unwrap();
    let models = hw.get("model").unwrap().as_array().unwrap();
    assert_eq!(models.len(), 1);
    assert_eq!(models[0].as_string().unwrap(), "MacBookPro4,2");
}

#[test]
fn save_targets_the_label_named_file() {
    assert_eq!(
        plist_file_path("/tmp/out", "com.example.test"),
        "/tmp/out/com.example.test.plist"
    );
    assert_eq!(
        plist_file_path("/tmp/out/nested/deep", "com.example.test"),
        "/tmp/out/nested/deep/com.example.test.plist"
    );
}

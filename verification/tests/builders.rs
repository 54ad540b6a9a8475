use launchagent::{
    BuildError, CalendarIntervalBuilder, LaunchAgent, LaunchAgentBuilder, ResourceLimitsBuilder,
};

#[test]
fn can_create_simple_launch_agent() {
    let agent = LaunchAgent::new("com.example.test".to_string(), "/usr/bin/example");

    assert_eq!(agent.label, "com.example.test");
    assert_eq!(agent.program.unwrap(), "/usr/bin/example");
    assert_eq!(agent.program_arguments, None);
}

#[test]
fn can_create_simple_launch_agent_with_args() {
    let agent = LaunchAgent::new_with_args(
        "com.example.test".to_string(),
        vec!["/usr/bin/example", "--option", "value"],
    );

    assert_eq!(agent.label, "com.example.test");
    assert_eq!(
        agent.program_arguments.unwrap(),
        vec!["/usr/bin/example", "--option", "value"]
    );
}

#[test]
fn build_without_label_fails() {
    let r = LaunchAgentBuilder::default().program("/usr/bin/example".to_string()).build();
    assert!(matches!(r, Err(BuildError::MissingLabel)));
}

#[test]
fn build_with_only_label_succeeds() {
    let agent = LaunchAgentBuilder::default()
        .label("com.example.test".to_string())
        .build()
        .unwrap();
    assert_eq!(agent.label, "com.example.test");
    assert_eq!(agent.program, None);
    assert_eq!(agent.program_arguments, None);
    assert_eq!(agent.disabled, None);
}

#[test]
fn last_write_wins() {
    let agent = LaunchAgentBuilder::default()
        .label("com.example.first".to_string())
        .label("com.example.second".to_string())
        .build()
        .unwrap();
    assert_eq!(agent.label, "com.example.second");
}

#[test]
fn program_argument_appends_in_order() {
    let agent = LaunchAgentBuilder::default()
        .label("com.example.test".to_string())
        .program_argument("/usr/bin/example".to_string())
        .program_argument("--option".to_string())
        .program_argument("value".to_string())
        .build()
        .unwrap();
    assert_eq!(
        agent.program_arguments.unwrap(),
        vec!["/usr/bin/example", "--option", "value"]
    );
}

#[test]
fn resource_limits_builder_collects_fields() {
    let limits = ResourceLimitsBuilder::default()
        .core_size(1)
        .cpu(2)
        .data(3)
        .file_size(4)
        .memory_lock(5)
        .number_of_files(6)
        .number_of_processes(7)
        .resident_set_size(8)
        .stack(9)
        .build();
    assert_eq!(limits.core, Some(1));
    assert_eq!(limits.cpu, Some(2));
    assert_eq!(limits.data, Some(3));
    assert_eq!(limits.file_size, Some(4));
    assert_eq!(limits.memory_lock, Some(5));
    assert_eq!(limits.number_of_files, Some(6));
    assert_eq!(limits.number_of_processes, Some(7));
    assert_eq!(limits.resident_set_size, Some(8));
    assert_eq!(limits.stack, Some(9));
}

#[test]
fn calendar_interval_builder_leaves_wildcards_unset() {
    let interval = CalendarIntervalBuilder::default().minute(30).hour(9).build();
    assert_eq!(interval.minute, Some(30));
    assert_eq!(interval.hour, Some(9));
    assert_eq!(interval.day, None);
    assert_eq!(interval.weekday, None);
    assert_eq!(interval.month, None);
}

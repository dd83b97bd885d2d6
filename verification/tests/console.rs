use uplink::config::{Config, Persistence, Stats, StreamConfig, Streams};
use uplink::console::{banner, log_level, log_modules, CommandLine, LogLevel, LOGO};
use uplink::text::decimal_text;
use uplink::uplink::Uplink;

fn commandline(modules: Vec<String>) -> CommandLine {
    CommandLine {
        version: "1.2.3".to_owned(),
        profile: "release".to_owned(),
        commit_sha: "abcdef".to_owned(),
        commit_date: "2022-12-24".to_owned(),
        verbose: 2,
        modules,
    }
}

fn config() -> Config {
    let stream = |name: &str, topic: &str| StreamConfig {
        name: name.to_owned(),
        topic: topic.to_owned(),
        buf_size: 64,
    };
    let mut streams = Streams::new();
    streams.insert(stream("can", "/can"));
    streams.insert(stream("action_status", "/status"));
    Config {
        project_id: "demo".to_owned(),
        device_id: "123".to_owned(),
        broker: "localhost".to_owned(),
        port: 1883,
        bridge_port: 5555,
        authentication: false,
        max_packet_size: 1048576,
        max_inflight: 100,
        keep_alive: 60,
        flush_period: None,
        streams,
        persistence: None,
        download_path: None,
        stats: Stats { enabled: false, process_names: vec![] },
    }
}

#[test]
fn verbosity_sets_the_level() {
    assert_eq!(log_level(0), LogLevel::Warn);
    assert_eq!(log_level(1), LogLevel::Info);
    assert_eq!(log_level(2), LogLevel::Debug);
    assert_eq!(log_level(3), LogLevel::Trace);
    assert_eq!(log_level(255), LogLevel::Trace);
}

#[test]
fn own_modules_are_shown_by_default() {
    assert_eq!(log_modules(&commandline(vec![])), vec!["uplink", "disk"]);
    let modules = vec!["rumqttc".to_owned(), "tokio".to_owned()];
    assert_eq!(log_modules(&commandline(modules.clone())), modules);
}

#[test]
fn numbers_are_decimal() {
    assert_eq!(decimal_text(0), "0");
    assert_eq!(decimal_text(1234567890), "1234567890");
    assert_eq!(decimal_text(u64::MAX), "18446744073709551615");
}

#[test]
fn plain_banner() {
    let lines = banner(&commandline(vec![]), &config());
    assert_eq!(
        lines,
        vec![
            LOGO,
            "    version: 1.2.3",
            "    profile: release",
            "    commit_sha: abcdef",
            "    commit_date: 2022-12-24",
            "    project_id: demo",
            "    device_id: 123",
            "    remote: localhost:1883",
            "    bridge_port: 5555",
            "    secure_transport: false",
            "    max_packet_size: 1048576",
            "    max_inflight_messages: 100",
            "    keep_alive_timeout: 60",
            "\n",
        ]
    );
}

#[test]
fn full_banner() {
    let mut config = config();
    config.authentication = true;
    config.persistence = Some(Persistence {
        path: "/tmp/uplink".to_owned(),
        max_file_size: 104857600,
        max_file_count: 3,
    });
    config.download_path = Some("/var/ota".to_owned());
    config.stats =
        Stats { enabled: true, process_names: vec!["uplink".to_owned(), "a\"b".to_owned()] };
    let lines = banner(&commandline(vec![]), &config);
    assert_eq!(lines[9], "    secure_transport: true");
    assert_eq!(
        lines[13..],
        [
            "    persistence_dir: /tmp/uplink",
            "    persistence_max_segment_size: 104857600",
            "    persistence_max_segment_count: 3",
            "    download_path: /var/ota",
            "    processes: [\"uplink\", \"a\\\"b\"]",
            "\n",
        ]
    );
}

#[test]
fn answers_to_actions_go_out_at_once() {
    let uplink = Uplink::new(&config());
    assert_eq!(uplink.action_status.name, "action_status");
    assert_eq!(uplink.action_status.topic, "/status");
    assert_eq!(uplink.action_status.buf_size, 1);
    assert!(!uplink.enable_stats);
}

//! What the program shows on the console.

use vstd::prelude::*;

use crate::config::Config;
use crate::text::{decimal, decimal_text};

verus! {

/// What the command line and the build say about the program.
#[derive(Debug)]
pub struct CommandLine {
    pub version: String,
    pub profile: String,
    pub commit_sha: String,
    pub commit_date: String,
    /// How often verbosity was asked for.
    pub verbose: u8,
    /// The modules whose messages are shown; if none, those of the uplink.
    pub modules: Vec<String>,
}

/// The least severe messages that are shown.
#[derive(Clone, Copy, Debug, PartialEq, Eq, Structural)]
pub enum LogLevel {
    Warn,
    Info,
    Debug,
    Trace,
}

/// The level that a verbosity asks for.
pub fn log_level(verbose: u8) -> (level: LogLevel)
    ensures
        verbose == 0 ==> level == LogLevel::Warn,
        verbose == 1 ==> level == LogLevel::Info,
        verbose == 2 ==> level == LogLevel::Debug,
        verbose > 2 ==> level == LogLevel::Trace,
{
    match verbose {
        0 => LogLevel::Warn,
        1 => LogLevel::Info,
        2 => LogLevel::Debug,
        _ => LogLevel::Trace,
    }
}

/// The mathematical value of a list of texts.
pub open spec fn texts_view(texts: Seq<String>) -> Seq<Seq<char>> {
    texts.map_values(|text: String| text@)
}

/// The modules whose messages are shown.
pub fn log_modules(commandline: &CommandLine) -> (modules: Vec<String>)
    ensures
        texts_view(modules@) == if commandline.modules@.len() == 0 {
            seq!["uplink"@, "disk"@]
        } else {
            texts_view(commandline.modules@)
        },
{
    let mut modules: Vec<String> = Vec::new();
    if commandline.modules.is_empty() {
        modules.push("uplink".to_owned());
        modules.push("disk".to_owned());
        assert(texts_view(modules@) =~= seq!["uplink"@, "disk"@]);
        return modules;
    }
    let count = commandline.modules.len();
    for i in 0..count
        invariant
            count == commandline.modules@.len(),
            texts_view(modules@) == texts_view(commandline.modules@).take(i as int),
    {
        let ghost all = texts_view(commandline.modules@);
        add_line(&mut modules, commandline.modules[i].clone());
        assert(all.take(i + 1) =~= all.take(i as int).push(all[i as int]));
    }
    assert(texts_view(modules@) =~= texts_view(commandline.modules@));
    modules
}

/// The text that `Debug` of the standard library gives to a list of texts.
pub uninterp spec fn debug_list(texts: Seq<Seq<char>>) -> Seq<char>;

/// Renders a list with the `Debug` implementation of `Vec<String>`, through `std::format`. The
/// text depends on the texts in the list alone.
#[verifier::external_body]
fn debug_text(texts: &Vec<String>) -> (text: String)
    ensures
        text@ == debug_list(texts_view(texts@)),
{
    format!("{:?}", texts)
}

/// The program's name in large letters.
pub const LOGO: &'static str =
    "\n    ░█░▒█░▄▀▀▄░█░░░▀░░█▀▀▄░█░▄\n    ░█░▒█░█▄▄█░█░░░█▀░█░▒█░█▀▄\n    ░░▀▀▀░█░░░░▀▀░▀▀▀░▀░░▀░▀░▀\n    ";

/// A setting as it is shown.
pub open spec fn entry(label: Seq<char>, value: Seq<char>) -> Seq<char> {
    "    "@ + label + ": "@ + value
}

fn entry_text(label: &str, value: &str) -> (text: String)
    ensures
        text@ == entry(label@, value@),
{
    "    ".to_owned().concat(label).concat(": ").concat(value)
}

/// The truth value as it is shown.
pub open spec fn truth(value: bool) -> Seq<char> {
    if value {
        "true"@
    } else {
        "false"@
    }
}

/// The lines that are shown at start: the logo, what was built, and the settings, as far as they
/// are made.
pub open spec fn banner_lines(commandline: CommandLine, config: Config) -> Seq<Seq<char>> {
    seq![
        LOGO@,
        entry("version"@, commandline.version@),
        entry("profile"@, commandline.profile@),
        entry("commit_sha"@, commandline.commit_sha@),
        entry("commit_date"@, commandline.commit_date@),
        entry("project_id"@, config.project_id@),
        entry("device_id"@, config.device_id@),
        entry("remote"@, config.broker@ + ":"@ + decimal(config.port as nat)),
        entry("bridge_port"@, decimal(config.bridge_port as nat)),
        entry("secure_transport"@, truth(config.authentication)),
        entry("max_packet_size"@, decimal(config.max_packet_size as nat)),
        entry("max_inflight_messages"@, decimal(config.max_inflight as nat)),
        entry("keep_alive_timeout"@, decimal(config.keep_alive as nat)),
    ] + (match config.persistence {
        Some(persistence) => seq![
            entry("persistence_dir"@, persistence.path@),
            entry("persistence_max_segment_size"@, decimal(persistence.max_file_size as nat)),
            entry("persistence_max_segment_count"@, decimal(persistence.max_file_count as nat)),
        ],
        None => seq![],
    }) + (match config.download_path {
        Some(path) => seq![entry("download_path"@, path@)],
        None => seq![],
    }) + (if config.stats.enabled {
        seq![entry("processes"@, debug_list(texts_view(config.stats.process_names@)))]
    } else {
        seq![]
    }) + seq!["\n"@]
}

fn add_line(lines: &mut Vec<String>, line: String)
    ensures
        texts_view(final(lines)@) == texts_view(old(lines)@).push(line@),
{
    lines.push(line);
    assert(texts_view(lines@) =~= texts_view(old(lines)@).push(line@));
}

/// The lines that are shown at start.
pub fn banner(commandline: &CommandLine, config: &Config) -> (lines: Vec<String>)
    ensures
        texts_view(lines@) == banner_lines(*commandline, *config),
{
    let mut lines: Vec<String> = Vec::new();
    let port = decimal_text(config.port as u64);
    let remote = config.broker.clone().concat(":").concat(port.as_str());
    let secure = if config.authentication {
        "true"
    } else {
        "false"
    };
    let bridge_port = decimal_text(config.bridge_port as u64);
    let max_packet_size = decimal_text(config.max_packet_size as u64);
    let max_inflight = decimal_text(config.max_inflight as u64);
    let keep_alive = decimal_text(config.keep_alive);

    add_line(&mut lines, LOGO.to_owned());
    add_line(&mut lines, entry_text("version", commandline.version.as_str()));
    add_line(&mut lines, entry_text("profile", commandline.profile.as_str()));
    add_line(&mut lines, entry_text("commit_sha", commandline.commit_sha.as_str()));
    add_line(&mut lines, entry_text("commit_date", commandline.commit_date.as_str()));
    add_line(&mut lines, entry_text("project_id", config.project_id.as_str()));
    add_line(&mut lines, entry_text("device_id", config.device_id.as_str()));
    add_line(&mut lines, entry_text("remote", remote.as_str()));
    add_line(&mut lines, entry_text("bridge_port", bridge_port.as_str()));
    add_line(&mut lines, entry_text("secure_transport", secure));
    add_line(&mut lines, entry_text("max_packet_size", max_packet_size.as_str()));
    add_line(&mut lines, entry_text("max_inflight_messages", max_inflight.as_str()));
    add_line(&mut lines, entry_text("keep_alive_timeout", keep_alive.as_str()));
    if let Some(persistence) = &config.persistence {
        let size = decimal_text(persistence.max_file_size as u64);
        let count = decimal_text(persistence.max_file_count as u64);
        add_line(&mut lines, entry_text("persistence_dir", persistence.path.as_str()));
        add_line(&mut lines, entry_text("persistence_max_segment_size", size.as_str()));
        add_line(&mut lines, entry_text("persistence_max_segment_count", count.as_str()));
    }
    if let Some(path) = &config.download_path {
        add_line(&mut lines, entry_text("download_path", path.as_str()));
    }
    if config.stats.enabled {
        let processes = debug_text(&config.stats.process_names);
        add_line(&mut lines, entry_text("processes", processes.as_str()));
    }
    add_line(&mut lines, "\n".to_owned());
    assert(texts_view(lines@) =~= banner_lines(*commandline, *config));
    lines
}

/// The settings are shown in this order, each behind its label: first what was built, then what the
/// device connects to and how; numbers in decimal notation, and truth values as such.
pub proof fn law_banner_shows_the_settings(commandline: CommandLine, config: Config)
    ensures
        ({
            let lines = banner_lines(commandline, config);
            let persistence: int = if config.persistence is Some { 3 } else { 0 };
            let download: int = if config.download_path is Some { 1 } else { 0 };
            let processes: int = if config.stats.enabled { 1 } else { 0 };
            &&& lines.len() == 13 + persistence + download + processes + 1
            &&& lines[0] == LOGO@
            &&& lines[1] == "    "@ + "version"@ + ": "@ + commandline.version@
            &&& lines[2] == "    "@ + "profile"@ + ": "@ + commandline.profile@
            &&& lines[3] == "    "@ + "commit_sha"@ + ": "@ + commandline.commit_sha@
            &&& lines[4] == "    "@ + "commit_date"@ + ": "@ + commandline.commit_date@
            &&& lines[5] == "    "@ + "project_id"@ + ": "@ + config.project_id@
            &&& lines[6] == "    "@ + "device_id"@ + ": "@ + config.device_id@
            &&& lines[7] == "    "@ + "remote"@ + ": "@ + (config.broker@ + ":"@ + decimal(
                config.port as nat,
            ))
            &&& lines[8] == "    "@ + "bridge_port"@ + ": "@ + decimal(config.bridge_port as nat)
            &&& lines[9] == "    "@ + "secure_transport"@ + ": "@ + if config.authentication {
                "true"@
            } else {
                "false"@
            }
            &&& lines[10] == "    "@ + "max_packet_size"@ + ": "@ + decimal(
                config.max_packet_size as nat,
            )
            &&& lines[11] == "    "@ + "max_inflight_messages"@ + ": "@ + decimal(
                config.max_inflight as nat,
            )
            &&& lines[12] == "    "@ + "keep_alive_timeout"@ + ": "@ + decimal(
                config.keep_alive as nat,
            )
            &&& config.persistence matches Some(kept) ==> {
                &&& lines[13] == "    "@ + "persistence_dir"@ + ": "@ + kept.path@
                &&& lines[14] == "    "@ + "persistence_max_segment_size"@ + ": "@ + decimal(
                    kept.max_file_size as nat,
                )
                &&& lines[15] == "    "@ + "persistence_max_segment_count"@ + ": "@ + decimal(
                    kept.max_file_count as nat,
                )
            }
            &&& config.download_path matches Some(path) ==> lines[13 + persistence] == "    "@
                + "download_path"@ + ": "@ + path@
            &&& config.stats.enabled ==> lines[13 + persistence + download] == "    "@
                + "processes"@ + ": "@ + debug_list(
                config.stats.process_names@.map_values(|name: String| name@),
            )
            &&& lines.last() == "\n"@
        }),
{
    assert(texts_view(config.stats.process_names@) =~= config.stats.process_names@.map_values(
        |name: String| name@,
    ));
}

} // verus!

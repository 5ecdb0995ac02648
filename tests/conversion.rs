use std::collections::HashSet;

use audiomorpher::batch::{Batch, Tally};
use audiomorpher::cli::{
    done_message, help_lines, install_instructions, parse_args, platform_from_os, Invocation,
    Platform,
};
use audiomorpher::discovery::{select_candidates, Candidate, FoundEntry};
use audiomorpher::naming::{
    find_last_dot, is_source_file, log_file_path, output_directory, output_path_for, same_text,
};
use audiomorpher::runner::{
    conversion_report, converter_arguments, converter_program, plan_file, probe_arguments,
    ConverterRun, FilePlan, LogItem, Outcome,
};

fn entry(path: &str, name: &str) -> FoundEntry {
    FoundEntry { path: path.to_string(), name: name.to_string() }
}

fn candidate(input: &str, output: &str) -> Candidate {
    Candidate { input: input.to_string(), output: output.to_string() }
}

fn line_of(item: &LogItem) -> Option<&str> {
    match item {
        LogItem::Line(s) => Some(s.as_str()),
        LogItem::Raw(_) => None,
    }
}

fn exited(success: bool) -> ConverterRun {
    ConverterRun::Exited { success, stdout: Vec::new(), stderr: Vec::new() }
}

#[test]
fn source_extension_is_matched_exactly() {
    assert!(is_source_file("a.m4a"));
    assert!(is_source_file("a.b.m4a"));
    assert!(!is_source_file("a.M4A"));
    assert!(!is_source_file("a.m4a.txt"));
    assert!(!is_source_file(".m4a"));
    assert!(!is_source_file("m4a"));
    assert!(!is_source_file("a.m4"));
    assert!(!is_source_file(""));
    assert!(!is_source_file("notes.txt"));
}

#[test]
fn last_dot_is_found() {
    assert_eq!(find_last_dot("a.b.c"), Some(3));
    assert_eq!(find_last_dot("abc"), None);
    assert_eq!(find_last_dot(".x"), Some(0));
    assert_eq!(find_last_dot("音乐.m4a"), Some(2));
}

#[test]
fn same_text_compares_characters() {
    assert!(same_text("m4a", "m4a"));
    assert!(!same_text("m4a", "m4b"));
    assert!(!same_text("m4a", "m4a "));
    assert!(same_text("", ""));
}

#[test]
fn output_path_swaps_extension() {
    assert_eq!(output_path_for("a.m4a"), "./output/a.mp3");
    assert_eq!(output_path_for("a.b.m4a"), "./output/a.b.mp3");
    assert_eq!(output_path_for("音乐.m4a"), "./output/音乐.mp3");
    assert_eq!(output_path_for("plain"), "./output/plain.mp3");
    assert_eq!(output_path_for(".hidden"), "./output/.hidden.mp3");
}

#[test]
fn fixed_paths() {
    assert_eq!(output_directory(), "./output");
    assert_eq!(log_file_path(), "./ffmpeg.log");
}

#[test]
fn discovery_keeps_only_matching_files() {
    let entries = vec![
        entry("dir", "dir"),
        entry("dir/one.m4a", "one.m4a"),
        entry("dir/two.mp3", "two.mp3"),
        entry("dir/x/three.m4a", "three.m4a"),
        entry("dir/four.M4A", "four.M4A"),
        entry("dir/five.m4a", "five.m4a"),
        entry("dir/six.wav", "six.wav"),
    ];
    let found = select_candidates(&entries);
    assert_eq!(found.len(), 3);
    let inputs: Vec<&str> = found.iter().map(|c| c.input.as_str()).collect();
    assert_eq!(inputs, vec!["dir/one.m4a", "dir/x/three.m4a", "dir/five.m4a"]);
    assert_eq!(found[1].output, "./output/three.mp3");
}

#[test]
fn discovery_of_nothing() {
    assert!(select_candidates(&Vec::new()).is_empty());
    let entries = vec![entry("in/notes.txt", "notes.txt")];
    assert!(select_candidates(&entries).is_empty());
}

#[test]
fn existing_output_is_skipped_with_one_line() {
    let c = candidate("in/a.m4a", "./output/a.mp3");
    match plan_file(&c, true) {
        FilePlan::Skip { log_line } => assert_eq!(log_line, "文件已存在，跳过：./output/a.mp3"),
        FilePlan::Convert => panic!("an existing output must be skipped"),
    }
    assert!(matches!(plan_file(&c, false), FilePlan::Convert));
}

#[test]
fn converter_is_called_with_input_and_output() {
    let c = candidate("in/a.m4a", "./output/a.mp3");
    assert_eq!(converter_arguments(&c), vec!["-i", "in/a.m4a", "./output/a.mp3"]);
    assert_eq!(converter_program(), "ffmpeg");
    assert_eq!(probe_arguments(), vec!["-version"]);
}

#[test]
fn success_is_logged_with_mapping() {
    let c = candidate("in/a.m4a", "./output/a.mp3");
    let run = ConverterRun::Exited { success: true, stdout: Vec::new(), stderr: b"diag".to_vec() };
    let r = conversion_report(&c, run);
    assert_eq!(r.outcome, Outcome::Succeeded);
    assert!(r.console.is_none());
    assert_eq!(r.log.len(), 2);
    assert!(matches!(&r.log[0], LogItem::Raw(b) if b == b"diag"));
    assert_eq!(line_of(&r.log[1]), Some("Successfully converted: in/a.m4a -> ./output/a.mp3"));
}

#[test]
fn captured_output_is_logged_in_order() {
    let c = candidate("in/a.m4a", "./output/a.mp3");
    let run = ConverterRun::Exited { success: true, stdout: b"out".to_vec(), stderr: b"err".to_vec() };
    let r = conversion_report(&c, run);
    assert_eq!(r.log.len(), 3);
    assert!(matches!(&r.log[0], LogItem::Raw(b) if b == b"out"));
    assert!(matches!(&r.log[1], LogItem::Raw(b) if b == b"err"));
}

#[test]
fn failed_exit_is_logged_and_printed() {
    let c = candidate("in/a.m4a", "./output/a.mp3");
    let r = conversion_report(&c, exited(false));
    assert_eq!(r.outcome, Outcome::Failed);
    assert_eq!(r.log.len(), 1);
    assert_eq!(line_of(&r.log[0]), Some("Error converting file in/a.m4a: FFmpeg conversion failed"));
    assert_eq!(r.console.as_deref(), Some("Failed to convert in/a.m4a to MP3"));
}

#[test]
fn converter_that_did_not_start_is_logged() {
    let c = candidate("in/a.m4a", "./output/a.mp3");
    let run = ConverterRun::NotStarted { reason: "No such file or directory".to_string() };
    let r = conversion_report(&c, run);
    assert_eq!(r.outcome, Outcome::Failed);
    assert!(r.console.is_none());
    assert_eq!(
        line_of(&r.log[0]),
        Some("Error converting file in/a.m4a: No such file or directory")
    );
}

#[test]
fn tally_counts_each_outcome() {
    let mut t = Tally::new(3);
    t.record(Outcome::Skipped);
    t.record(Outcome::Succeeded);
    assert!(!t.is_finished());
    t.record(Outcome::Failed);
    assert!(t.is_finished());
    assert_eq!((t.done, t.skipped, t.converted, t.failed), (3, 1, 1, 1));
}

#[test]
fn empty_batch_does_not_start() {
    assert!(Batch::start(Vec::new()).is_none());
}

/// Runs a batch over a set of existing outputs, with a converter that succeeds
/// unless the input is listed as failing; returns the tally and the log lines.
fn run_batch(
    candidates: Vec<Candidate>,
    existing: &mut HashSet<String>,
    failing: &[&str],
) -> (Tally, Vec<String>) {
    let mut batch = Batch::start(candidates).expect("candidates were given");
    let mut lines = Vec::new();
    while let Some(c) = batch.current() {
        let (input, output) = (c.input.clone(), c.output.clone());
        match batch.check_output(existing.contains(&output)) {
            FilePlan::Skip { log_line } => lines.push(log_line),
            FilePlan::Convert => {
                let ok = !failing.contains(&input.as_str());
                if ok {
                    existing.insert(output);
                }
                let report = batch.finish_conversion(exited(ok));
                lines.extend(report.log.iter().filter_map(|i| line_of(i).map(str::to_string)));
            }
        }
    }
    let t = batch.tally();
    (Tally { total: t.total, done: t.done, skipped: t.skipped, converted: t.converted, failed: t.failed }, lines)
}

#[test]
fn second_run_converts_nothing() {
    let entries = vec![entry("in/a.m4a", "a.m4a"), entry("in/b.m4a", "b.m4a")];
    let mut fs = HashSet::new();
    let (first, _) = run_batch(select_candidates(&entries), &mut fs, &[]);
    assert_eq!((first.done, first.converted, first.skipped), (2, 2, 0));
    let (second, lines) = run_batch(select_candidates(&entries), &mut fs, &[]);
    assert_eq!((second.done, second.converted, second.skipped), (2, 0, 2));
    assert_eq!(lines, vec!["文件已存在，跳过：./output/a.mp3", "文件已存在，跳过：./output/b.mp3"]);
}

#[test]
fn failed_file_does_not_stop_the_batch() {
    let entries = vec![entry("in/a.m4a", "a.m4a"), entry("in/b.m4a", "b.m4a")];
    let mut fs = HashSet::new();
    let (t, lines) = run_batch(select_candidates(&entries), &mut fs, &["in/a.m4a"]);
    assert_eq!((t.done, t.converted, t.failed), (2, 1, 1));
    assert!(lines[0].contains("in/a.m4a"));
    assert!(!fs.contains("./output/a.mp3"));
    assert!(fs.contains("./output/b.mp3"));
}

#[test]
fn end_to_end_three_sources_and_a_note() {
    let entries = vec![
        entry("in", "in"),
        entry("in/a.m4a", "a.m4a"),
        entry("in/b.m4a", "b.m4a"),
        entry("in/notes.txt", "notes.txt"),
        entry("in/sub", "sub"),
        entry("in/sub/c.m4a", "c.m4a"),
    ];
    let mut fs = HashSet::new();
    let (t, lines) = run_batch(select_candidates(&entries), &mut fs, &[]);
    assert_eq!((t.done, t.converted), (3, 3));
    for out in ["./output/a.mp3", "./output/b.mp3", "./output/c.mp3"] {
        assert!(fs.contains(out));
    }
    assert_eq!(fs.len(), 3);
    assert_eq!(
        lines,
        vec![
            "Successfully converted: in/a.m4a -> ./output/a.mp3",
            "Successfully converted: in/b.m4a -> ./output/b.mp3",
            "Successfully converted: in/sub/c.m4a -> ./output/c.mp3",
        ]
    );
}

#[test]
fn arguments_choose_help_or_directory() {
    let args = |v: &[&str]| v.iter().map(|s| s.to_string()).collect::<Vec<String>>();
    assert!(matches!(parse_args(&args(&["prog", "-h", "x"])), Invocation::Help));
    match parse_args(&args(&["prog", "music"])) {
        Invocation::Convert { input_dir } => assert_eq!(input_dir, "music"),
        Invocation::Help => panic!("not a help request"),
    }
    match parse_args(&args(&["prog"])) {
        Invocation::Convert { input_dir } => assert_eq!(input_dir, "."),
        Invocation::Help => panic!("not a help request"),
    }
    match parse_args(&args(&["prog", "-hx"])) {
        Invocation::Convert { input_dir } => assert_eq!(input_dir, "-hx"),
        Invocation::Help => panic!("not a help request"),
    }
}

#[test]
fn platforms_and_instructions() {
    assert_eq!(platform_from_os("macos"), Platform::MacOs);
    assert_eq!(platform_from_os("linux"), Platform::Linux);
    assert_eq!(platform_from_os("windows"), Platform::Windows);
    assert_eq!(platform_from_os("freebsd"), Platform::Other);
    assert_eq!(install_instructions(Platform::MacOs), vec!["请使用 Homebrew 安装 ffmpeg：", "brew install ffmpeg"]);
    assert_eq!(install_instructions(Platform::Linux).len(), 3);
    assert_eq!(install_instructions(Platform::Windows).len(), 1);
    assert!(install_instructions(Platform::Other)[0].contains("https://ffmpeg.org"));
}

#[test]
fn help_and_closing_text() {
    let help = help_lines();
    assert_eq!(help.len(), 7);
    assert_eq!(help[0], "AudioMorpher - 音频转换工具");
    assert_eq!(done_message("/tmp/output"), "转换完成，请打开 /tmp/output 查看转换后的文件。");
}

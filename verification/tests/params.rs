use hypcmp::annotations::{annotate, generate_jq_cmd, Annotations};
use hypcmp::params::{json_file_name, Benchmark, Hyperfined, Run};

fn strings(items: &[&str]) -> Vec<String> {
    items.iter().map(|s| s.to_string()).collect()
}

fn some(s: &str) -> Option<String> {
    Some(s.to_string())
}

fn size_annotation() -> Annotations {
    let mut kw = Annotations::new();
    assert!(kw.add("size".to_string(), "wc -c f".to_string()));
    kw
}

const JQ_SIZE: &str = "jq --arg size $(wc -c f) '.results[0].size=$size' out.json";

#[test]
fn jq() {
    let key = "filesize";
    let cmd = "ls -al /tmp/Cargo.toml.dd | awk '{{print $5}}'";
    let json = "out.json";
    let expected = "jq --arg filesize $(ls -al /tmp/Cargo.toml.dd | awk '{{print $5}}') '.results[0].filesize=$filesize' out.json";

    assert_eq!(expected, generate_jq_cmd(key, cmd, json))
}

#[test]
fn jq_with_empty_parts() {
    assert_eq!(generate_jq_cmd("", "", ""), "jq --arg  $() '.results[0].=$' ");
}

#[test]
fn run_arguments_are_order_stable() {
    let run = Run::new(
        Some(strings(&["a", "b"])),
        some("rm -f x"),
        None,
        None,
        None,
        None,
        "sleep 1".to_string(),
    );
    let expected = strings(&[
        "--parameter-list",
        "commit",
        "a,b",
        "--cleanup",
        "rm -f x",
        "--setup",
        "checkout {commit}",
        "sleep 1",
    ]);
    assert_eq!(run.to_hyperfine_params(), expected);
    assert_eq!(run.to_hyperfine(), expected);
}

#[test]
fn run_with_every_setting() {
    let run = Run::new(
        None,
        some("clean"),
        some("prep"),
        some("make"),
        some("zsh"),
        None,
        "cmd".to_string(),
    );
    assert_eq!(
        run.to_hyperfine_params(),
        strings(&[
            "--shell",
            "zsh",
            "--cleanup",
            "clean",
            "--prepare",
            "prep",
            "--setup",
            "make",
            "cmd"
        ])
    );
}

#[test]
fn run_with_command_alone() {
    let run = Run::new(None, None, None, None, None, None, "cmd".to_string());
    assert_eq!(run.to_hyperfine_params(), strings(&["cmd"]));
}

#[test]
fn shell_is_dropped_with_commits_and_setup() {
    let run = Run::new(
        Some(strings(&["v1"])),
        None,
        None,
        some("make"),
        some("zsh"),
        None,
        "cmd".to_string(),
    );
    assert_eq!(
        run.to_hyperfine_params(),
        strings(&[
            "--parameter-list",
            "commit",
            "v1",
            "--setup",
            "checkout {commit} && make",
            "cmd"
        ])
    );
}

#[test]
fn shell_is_dropped_only_beside_commits_and_setup() {
    let run = |commits: bool, setup: bool, shell: bool| {
        Run::new(
            if commits { Some(strings(&["v1"])) } else { None },
            None,
            None,
            if setup { some("make") } else { None },
            if shell { some("zsh") } else { None },
            None,
            "cmd".to_string(),
        )
    };
    assert!(run(true, true, true).shell_is_dropped());
    assert!(!run(true, true, false).shell_is_dropped());
    assert!(!run(true, false, true).shell_is_dropped());
    assert!(!run(false, true, true).shell_is_dropped());
}

#[test]
fn shell_is_kept_with_commits_alone() {
    let run = Run::new(
        Some(strings(&["v1"])),
        None,
        None,
        None,
        some("zsh"),
        None,
        "cmd".to_string(),
    );
    assert_eq!(
        run.to_hyperfine_params(),
        strings(&[
            "--shell",
            "zsh",
            "--parameter-list",
            "commit",
            "v1",
            "--setup",
            "checkout {commit}",
            "cmd"
        ])
    );
}

#[test]
fn shell_is_kept_with_setup_alone() {
    let run = Run::new(None, None, None, some("make"), some("zsh"), None, "cmd".to_string());
    assert_eq!(
        run.to_hyperfine_params(),
        strings(&["--shell", "zsh", "--setup", "make", "cmd"])
    );
}

#[test]
fn empty_commit_list_names_no_parameter() {
    let run = Run::new(Some(Vec::new()), None, None, None, None, None, "cmd".to_string());
    assert_eq!(
        run.to_hyperfine_params(),
        strings(&["--setup", "checkout {commit}", "cmd"])
    );
}

#[test]
fn single_commit_is_not_separated() {
    let run = Run::new(Some(strings(&["abc"])), None, None, None, None, None, "c".to_string());
    assert_eq!(run.to_hyperfine_params()[2], "abc");
}

#[test]
fn export_request_follows_the_arguments() {
    let run = Run::new(None, None, None, None, None, None, "cmd".to_string());
    assert_eq!(
        run.to_hyperfine_with_json("out.json"),
        strings(&["cmd", "--export-json", "out.json"])
    );
}

#[test]
fn annotation_joins_existing_cleanup() {
    let params = strings(&["--cleanup", "C", "cmd"]);
    let out = annotate(params, &size_annotation(), "out.json");
    assert_eq!(out, vec![
        "--cleanup".to_string(),
        format!("{}&&C", JQ_SIZE),
        "cmd".to_string()
    ]);
    assert_ne!(out[1], format!("C&&{}", JQ_SIZE));
    assert_eq!(out.iter().filter(|p| p.as_str() == "--cleanup").count(), 1);
}

#[test]
fn annotation_joins_the_cleanup_of_its_run() {
    let run = Run::new(
        None,
        some("C"),
        None,
        None,
        None,
        Some(size_annotation()),
        "cmd".to_string(),
    );
    let chain = format!("{}&&C", JQ_SIZE);
    assert_eq!(
        run.to_hyperfine_params_for("out.json"),
        vec!["--cleanup".to_string(), chain, "cmd".to_string()]
    );
}

#[test]
fn annotation_joins_a_cleanup_behind_the_export() {
    let run = Run::new(None, some("C"), None, None, None, None, "cmd".to_string());
    let chain = format!("{}&&C", JQ_SIZE);
    assert_eq!(
        run.to_hyperfine_with_json_and_annotations("out.json", &size_annotation()),
        vec![
            "--cleanup".to_string(),
            chain.clone(),
            "cmd".to_string(),
            "--export-json".to_string(),
            "out.json".to_string()
        ]
    );
    let b = Benchmark::new("o".to_string(), strings(&["--runs", "3", "--cleanup", "C"]));
    assert_eq!(
        b.to_hyperfine_with_json_and_annotations("out.json", &size_annotation()),
        vec![
            "--runs".to_string(),
            "3".to_string(),
            "--cleanup".to_string(),
            chain,
            "--export-json".to_string(),
            "out.json".to_string()
        ]
    );
}

#[test]
fn annotation_without_cleanup_makes_one() {
    let out = annotate(strings(&["--prepare", "p"]), &size_annotation(), "out.json");
    assert_eq!(out, strings(&["--prepare", "p", "--cleanup", JQ_SIZE]));
}

#[test]
fn annotation_after_a_flag_without_value() {
    let out = annotate(strings(&["x", "--cleanup"]), &size_annotation(), "out.json");
    assert_eq!(out, strings(&["x", "--cleanup", JQ_SIZE]));
}

#[test]
fn annotations_are_chained_in_order() {
    let mut kw = Annotations::new();
    assert!(kw.add("a".to_string(), "x".to_string()));
    assert!(kw.add("b".to_string(), "y".to_string()));
    let out = annotate(strings(&["--cleanup", "C"]), &kw, "j");
    assert_eq!(
        out[1],
        "jq --arg a $(x) '.results[0].a=$a' j&&jq --arg b $(y) '.results[0].b=$b' j&&C"
    );

    let mut kw = Annotations::new();
    assert!(kw.add("b".to_string(), "y".to_string()));
    assert!(kw.add("a".to_string(), "x".to_string()));
    let out = annotate(strings(&["--cleanup", "C"]), &kw, "j");
    assert_eq!(
        out[1],
        "jq --arg b $(y) '.results[0].b=$b' j&&jq --arg a $(x) '.results[0].a=$a' j&&C"
    );
}

#[test]
fn no_annotations_leave_the_cleanup() {
    let out = annotate(strings(&["--cleanup", "C"]), &Annotations::new(), "j");
    assert_eq!(out, strings(&["--cleanup", "C"]));
    let out = annotate(strings(&["cmd"]), &Annotations::new(), "j");
    assert_eq!(out, strings(&["cmd", "--cleanup", ""]));
}

#[test]
fn only_the_first_cleanup_is_joined() {
    let out = annotate(
        strings(&["--cleanup", "A", "--cleanup", "B"]),
        &size_annotation(),
        "out.json",
    );
    assert_eq!(out[1], format!("{}&&A", JQ_SIZE));
    assert_eq!(out[3], "B");
}

#[test]
fn annotations_refuse_a_second_command_for_a_field() {
    let mut kw = size_annotation();
    assert!(!kw.add("size".to_string(), "other".to_string()));
    assert_eq!(kw.len(), 1);
    assert_eq!(kw.command(0), "wc -c f");
    assert!(kw.contains_key(&"size".to_string()));
    assert!(!kw.contains_key(&"time".to_string()));
    assert!(kw.add("time".to_string(), "date".to_string()));
    assert_eq!(kw.key(1), "time");
}

#[test]
fn annotated_run_keeps_its_command_last() {
    let run = Run::new(
        Some(strings(&["a"])),
        None,
        some("p"),
        None,
        None,
        Some(size_annotation()),
        "cmd".to_string(),
    );
    assert_eq!(
        run.to_hyperfine_params_for("out.json"),
        strings(&[
            "--parameter-list",
            "commit",
            "a",
            "--prepare",
            "p",
            "--setup",
            "checkout {commit}",
            "--cleanup",
            JQ_SIZE,
            "cmd"
        ])
    );
}

#[test]
fn run_without_annotations_ignores_the_report() {
    let run = Run::new(None, some("C"), None, None, None, None, "cmd".to_string());
    assert_eq!(run.to_hyperfine_params_for("out.json"), run.to_hyperfine_params());
}

#[test]
fn benchmark_shares_its_parameters() {
    let b = Benchmark::new("report.json".to_string(), strings(&["hyperfine", "--runs", "3"]));
    assert_eq!(b.to_hyperfine_params(), strings(&["hyperfine", "--runs", "3"]));
    assert_eq!(b.to_hyperfine(), strings(&["hyperfine", "--runs", "3"]));
    assert_eq!(b.output(), "report.json");
    assert_eq!(b.destination(), Some(&"report.json".to_string()));
    assert_eq!(b.run_count(), 0);
    assert_eq!(Benchmark::new(String::new(), Vec::new()).destination(), None);
}

#[test]
fn benchmark_command_line() {
    let mut b = Benchmark::new("o".to_string(), strings(&["--runs", "3"]));
    let run = Run::new(Some(strings(&["a", "b"])), some("rm -f x"), None, None, None, None,
        "cmd".to_string());
    assert!(b.add_run("build".to_string(), run));
    assert_eq!(
        b.command_line(0, "/tmp/build.json"),
        strings(&[
            "--runs",
            "3",
            "--command-name",
            "build",
            "--export-json",
            "/tmp/build.json",
            "--parameter-list",
            "commit",
            "a,b",
            "--cleanup",
            "rm -f x",
            "--setup",
            "checkout {commit}",
            "cmd"
        ])
    );
}

#[test]
fn benchmark_refuses_a_label_twice() {
    let mut b = Benchmark::new("o".to_string(), Vec::new());
    assert!(b.add_run("x".to_string(), Run::new(None, None, None, None, None, None,
        "one".to_string())));
    assert!(!b.add_run("x".to_string(), Run::new(None, None, None, None, None, None,
        "two".to_string())));
    assert!(b.add_run("y".to_string(), Run::new(None, None, None, None, None, None,
        "three".to_string())));
    assert_eq!(b.run_count(), 2);
    assert_eq!(b.label(0), "x");
    assert_eq!(b.run(0).to_hyperfine_params(), strings(&["one"]));
    assert_eq!(b.label(1), "y");
    assert_eq!(b.find_run(&"y".to_string()), Some(1));
    assert_eq!(b.find_run(&"z".to_string()), None);
}

#[test]
fn report_file_is_named_after_the_label() {
    assert_eq!(json_file_name("build"), "build.json");
    assert_eq!(json_file_name(""), ".json");
}

#[test]
fn benchmark_description() {
    let mut b = Benchmark::new("o".to_string(), strings(&["--runs", "3"]));
    assert_eq!(b.describe(), "Common Settings:\n[\"--runs\", \"3\"]\n\n");
    assert!(b.add_run("x".to_string(), Run::new(None, None, None, None, None, None,
        "one".to_string())));
    assert_eq!(
        b.describe(),
        "Common Settings:\n[\"--runs\", \"3\"]\nSubcommand Settings: \"x\"\n[\"one\"]\n\n"
    );
}

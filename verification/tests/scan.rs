use std::collections::HashMap;

use gst::config::Config;
use gst::entry::{Entry, ListingItem};
use gst::protocol::{Line, Reply, Request, Step};
use gst::provider::{CheckGitProjects, ExecuteType, Information};
use gst::render::VerboseMode;
use gst::walk::Phase;

/// A file system and a client that exist in memory only.
struct World {
    cwd: String,
    listings: HashMap<String, Result<Vec<(String, bool)>, String>>,
    listing_failures: HashMap<String, (usize, String)>,
    reports: HashMap<String, (String, String)>,
    asked: Vec<String>,
}

fn world() -> World {
    World {
        cwd: String::from("/here"),
        listings: HashMap::new(),
        listing_failures: HashMap::new(),
        reports: HashMap::new(),
        asked: Vec::new(),
    }
}

fn dir(world: &mut World, path: &str, entries: &[(&str, bool)]) {
    let listing = entries.iter().map(|(name, is_dir)| (name.to_string(), *is_dir)).collect();
    world.listings.insert(path.to_string(), Ok(listing));
}

fn report(world: &mut World, workdir: &str, stdout: &str, stderr: &str) {
    world.reports.insert(workdir.to_string(), (stdout.to_string(), stderr.to_string()));
}

fn last_component(path: &str) -> String {
    match path.rfind('/') {
        Some(at) => path[at + 1..].to_string(),
        None => path.to_string(),
    }
}

fn parent_of(path: &str) -> String {
    match path.rfind('/') {
        Some(at) => path[..at].to_string(),
        None => String::new(),
    }
}

fn answer(world: &mut World, request: &Request) -> Option<Reply> {
    match request {
        Request::CurrentDir => {
            world.asked.push(String::from("cwd"));
            Some(Reply::CurrentDir(world.cwd.clone()))
        }
        Request::Probe(path) => {
            world.asked.push(format!("probe {}", path));
            Some(Reply::Probed { is_dir: world.listings.contains_key(path), parent: parent_of(path) })
        }
        Request::List(path) => {
            world.asked.push(format!("list {}", path));
            let listing = match world.listings.get(path) {
                Some(Ok(entries)) => {
                    let mut items = Vec::new();
                    for (index, (name, is_dir)) in entries.iter().enumerate() {
                        if let Some((at, reason)) = world.listing_failures.get(path) {
                            if *at == index {
                                items.push(ListingItem::Failed(reason.clone()));
                                break;
                            }
                        }
                        items.push(ListingItem::Found(Entry {
                            path: format!("{}/{}", path, name),
                            name: name.clone(),
                            parent: path.clone(),
                            project: last_component(path),
                            is_dir: *is_dir,
                        }));
                    }
                    Ok(items)
                }
                Some(Err(reason)) => Err(reason.clone()),
                None => Err(String::from("No such file or directory")),
            };
            Some(Reply::Listed(listing))
        }
        Request::Query(workdir) => {
            world.asked.push(format!("query {}", workdir));
            let (stdout, stderr) = world.reports.get(workdir).cloned().unwrap_or((
                String::new(),
                String::from("fatal: not a git repository"),
            ));
            Some(Reply::Queried { stdout, stderr })
        }
        Request::Done | Request::Abort => None,
    }
}

struct Run {
    out: Vec<String>,
    err: Vec<String>,
    aborted: bool,
    verdict: Information,
    deepest: usize,
}

fn drive(scan: &mut CheckGitProjects, world: &mut World) -> Run {
    let mut run = Run {
        out: Vec::new(),
        err: Vec::new(),
        aborted: false,
        verdict: Information::AllGreen,
        deepest: 0,
    };
    let mut reply = Reply::Start;
    for _ in 0..10_000 {
        let Step { lines, request } = scan.scan(reply);
        for line in lines {
            match line {
                Line::Stdout(text) => run.out.push(text),
                Line::Stderr(text) => run.err.push(text),
            }
        }
        if scan.stack.len() > run.deepest {
            run.deepest = scan.stack.len();
        }
        match answer(world, &request) {
            Some(next) => reply = next,
            None => {
                run.aborted = matches!(request, Request::Abort);
                run.verdict = scan.project_state.read();
                return run;
            }
        }
    }
    panic!("the scan did not end");
}

fn config_with(roots: &[&str]) -> Config {
    let mut config = Config::defaults("1.0.0");
    for root in roots {
        config.add_path(root);
    }
    config
}

const RED_CROSS: &str = "[\x1b[31m⨯\x1b[0m]";
const ALL_CLEAR: &str = "[\x1b[32m✓\x1b[0m] All projects are up to date";

#[test]
fn empty_root_yields_no_repository_found() {
    let mut w = world();
    dir(&mut w, "/work", &[]);
    let config = config_with(&["/work"]);
    let mut scan =
        CheckGitProjects::init(&config, ExecuteType::FromConfig, VerboseMode::Nothing, 5, 0);
    let run = drive(&mut scan, &mut w);
    assert!(run.out.is_empty());
    assert_eq!(
        run.err,
        vec![format!("{} - /work\n └─■ Err: Cannot find any `.git` directory", RED_CROSS)]
    );
    assert!(!run.aborted);
    assert_eq!(run.verdict, Information::Warning);
    assert_eq!(scan.found_git_dir, Information::NotFoundGitDir);
    assert_eq!(w.asked, vec!["probe /work", "list /work"]);
}

#[test]
fn clean_repository_prints_nothing_but_the_all_clear() {
    let mut w = world();
    dir(&mut w, "/work", &[("proj", true)]);
    dir(&mut w, "/work/proj", &[(".git", true), ("README", false)]);
    dir(&mut w, "/work/proj/.git", &[("HEAD", false)]);
    report(&mut w, "/work/proj", "## main...origin/main\n", "");
    let config = config_with(&["/work"]);
    let mut scan =
        CheckGitProjects::init(&config, ExecuteType::FromConfig, VerboseMode::Nothing, 5, 0);
    let run = drive(&mut scan, &mut w);
    assert!(run.out.is_empty());
    assert_eq!(run.err, vec![ALL_CLEAR.to_string()]);
    assert_eq!(run.verdict, Information::AllGreen);
    assert!(!run.aborted);
    assert_eq!(scan.phase, Phase::Finished);
    assert_eq!(
        w.asked,
        vec![
            "probe /work",
            "list /work",
            "list /work/proj",
            "query /work/proj",
            "list /work/proj/.git",
        ]
    );
}

#[test]
fn ahead_repository_prints_its_line_and_warns() {
    let mut w = world();
    dir(&mut w, "/work", &[("proj", true)]);
    dir(&mut w, "/work/proj", &[(".git", true)]);
    dir(&mut w, "/work/proj/.git", &[]);
    report(&mut w, "/work/proj", "## main...origin/main [ahead 1]\n", "");
    let config = config_with(&["/work"]);
    let mut scan =
        CheckGitProjects::init(&config, ExecuteType::FromConfig, VerboseMode::Nothing, 5, 0);
    let run = drive(&mut scan, &mut w);
    assert_eq!(run.out, vec!["[\x1b[33m→\x1b[0m] - proj".to_string()]);
    assert!(run.err.is_empty());
    assert_eq!(run.verdict, Information::Warning);
    assert!(!run.aborted);
}

#[test]
fn missing_root_is_reported_and_the_next_root_is_scanned() {
    let mut w = world();
    dir(&mut w, "/work", &[("proj", true)]);
    dir(&mut w, "/work/proj", &[(".git", true)]);
    dir(&mut w, "/work/proj/.git", &[]);
    report(&mut w, "/work/proj", "## main...origin/main\n M src/lib.rs\n", "");
    let config = config_with(&["/gone", "/work"]);
    let mut scan =
        CheckGitProjects::init(&config, ExecuteType::FromConfig, VerboseMode::Nothing, 5, 0);
    let run = drive(&mut scan, &mut w);
    assert_eq!(
        run.err,
        vec![format!("{} - /gone\n └─■ Err: Is not a valid path", RED_CROSS)]
    );
    assert_eq!(run.out, vec!["[\x1b[33m◎\x1b[0m] - proj".to_string()]);
    assert_eq!(run.verdict, Information::Warning);
    assert_eq!(w.asked[0], "probe /gone");
    assert_eq!(w.asked[1], "probe /work");
}

#[test]
fn marker_below_the_depth_bound_is_never_visited() {
    let mut w = world();
    dir(&mut w, "/work", &[("proj", true)]);
    dir(&mut w, "/work/proj", &[(".git", true)]);
    dir(&mut w, "/work/proj/.git", &[]);
    report(&mut w, "/work/proj", "## main...origin/main [ahead 1]\n", "");
    let config = config_with(&["/work"]);
    let mut scan =
        CheckGitProjects::init(&config, ExecuteType::FromConfig, VerboseMode::Nothing, 1, 0);
    let run = drive(&mut scan, &mut w);
    assert!(run.out.is_empty());
    assert_eq!(
        run.err,
        vec![format!("{} - /work\n └─■ Err: Cannot find any `.git` directory", RED_CROSS)]
    );
    assert_eq!(w.asked, vec!["probe /work", "list /work", "list /work/proj"]);
    assert_eq!(run.deepest, 2);
    assert_eq!(scan.found_git_dir, Information::NotFoundGitDir);
}

#[test]
fn depth_never_exceeds_the_bound_by_more_than_one() {
    let mut w = world();
    dir(&mut w, "/r", &[("a", true)]);
    dir(&mut w, "/r/a", &[("b", true)]);
    dir(&mut w, "/r/a/b", &[("c", true)]);
    dir(&mut w, "/r/a/b/c", &[("d", true)]);
    dir(&mut w, "/r/a/b/c/d", &[(".git", true)]);
    let config = config_with(&["/r"]);
    let mut scan =
        CheckGitProjects::init(&config, ExecuteType::FromConfig, VerboseMode::Nothing, 3, 0);
    let run = drive(&mut scan, &mut w);
    assert_eq!(run.deepest, 4);
    assert_eq!(w.asked, vec!["probe /r", "list /r", "list /r/a", "list /r/a/b", "list /r/a/b/c"]);
    assert_eq!(scan.stack.len(), 0);
}

#[test]
fn siblings_are_walked_at_the_depth_of_the_first() {
    let mut w = world();
    dir(&mut w, "/r", &[("a", true), ("b", true)]);
    dir(&mut w, "/r/a", &[("deep", true)]);
    dir(&mut w, "/r/a/deep", &[("deeper", true)]);
    dir(&mut w, "/r/a/deep/deeper", &[]);
    dir(&mut w, "/r/b", &[(".git", true)]);
    dir(&mut w, "/r/b/.git", &[]);
    report(&mut w, "/r/b", "## main...origin/main [behind 2]\n", "");
    let config = config_with(&["/r"]);
    let mut scan =
        CheckGitProjects::init(&config, ExecuteType::FromConfig, VerboseMode::Nothing, 2, 0);
    let run = drive(&mut scan, &mut w);
    assert_eq!(run.out, vec!["[\x1b[33m←\x1b[0m] - b".to_string()]);
    assert_eq!(
        w.asked,
        vec![
            "probe /r",
            "list /r",
            "list /r/a",
            "list /r/a/deep",
            "list /r/b",
            "query /r/b",
            "list /r/b/.git",
        ]
    );
}

#[test]
fn no_roots_aborts_with_a_hint() {
    let mut w = world();
    let config = config_with(&[]);
    let mut scan =
        CheckGitProjects::init(&config, ExecuteType::FromConfig, VerboseMode::Nothing, 5, 0);
    let run = drive(&mut scan, &mut w);
    assert!(run.aborted);
    assert_eq!(
        run.err,
        vec!["No paths configured. Provide project paths via `-p, --path <PATH>`\n or `--paths \"<PATH> <PATH> <PATH>\"`".to_string()]
    );
    assert!(w.asked.is_empty());
}

#[test]
fn current_directory_is_the_only_root_when_asked_for() {
    let mut w = world();
    w.cwd = String::from("/here");
    dir(&mut w, "/here", &[(".git", true)]);
    dir(&mut w, "/here/.git", &[]);
    report(&mut w, "/here", "## main\n", "");
    let config = config_with(&["/elsewhere"]);
    let mut scan =
        CheckGitProjects::init(&config, ExecuteType::CurrentPath, VerboseMode::Verbose2, 5, 0);
    let run = drive(&mut scan, &mut w);
    assert_eq!(run.out, vec!["[\x1b[32m✓\x1b[0m] - /here".to_string()]);
    assert_eq!(run.err, vec![ALL_CLEAR.to_string()]);
    assert_eq!(w.asked, vec!["cwd", "probe /here", "list /here", "query /here", "list /here/.git"]);
}

#[test]
fn empty_report_aborts_the_run() {
    let mut w = world();
    dir(&mut w, "/work", &[(".git", true)]);
    report(&mut w, "/work", "", "");
    let config = config_with(&["/work"]);
    let mut scan =
        CheckGitProjects::init(&config, ExecuteType::FromConfig, VerboseMode::Nothing, 5, 0);
    let run = drive(&mut scan, &mut w);
    assert!(run.aborted);
    assert_eq!(
        run.err,
        vec!["/work - Cannot read Git output. Maybe Git is not installed, or not in $PATH"
            .to_string()]
    );
    assert_eq!(scan.phase, Phase::Aborted);
}

#[test]
fn query_failure_is_reported_and_siblings_go_on() {
    let mut w = world();
    dir(&mut w, "/work", &[("bad", true), ("good", true)]);
    dir(&mut w, "/work/bad", &[(".git", false)]);
    dir(&mut w, "/work/good", &[(".git", false)]);
    report(&mut w, "/work/bad", "", "fatal: broken");
    report(&mut w, "/work/good", "## main\n", "");
    let config = config_with(&["/work"]);
    let mut scan =
        CheckGitProjects::init(&config, ExecuteType::FromConfig, VerboseMode::Verbose1, 5, 0);
    let run = drive(&mut scan, &mut w);
    assert_eq!(run.err, vec![format!("{} - /work/bad\n └─■ Err: fatal: broken", RED_CROSS)]);
    assert_eq!(run.out, vec!["[\x1b[32m✓\x1b[0m] - good".to_string()]);
    assert_eq!(run.verdict, Information::Warning);
}

#[test]
fn listing_failure_stops_that_subtree_only() {
    let mut w = world();
    dir(&mut w, "/work", &[("locked", true), ("open", true)]);
    w.listings.insert("/work/locked".to_string(), Err("Permission denied".to_string()));
    dir(&mut w, "/work/open", &[(".git", true)]);
    dir(&mut w, "/work/open/.git", &[]);
    report(&mut w, "/work/open", "## main\n", "");
    let config = config_with(&["/work"]);
    let mut scan =
        CheckGitProjects::init(&config, ExecuteType::FromConfig, VerboseMode::Nothing, 5, 0);
    let run = drive(&mut scan, &mut w);
    assert_eq!(run.err, vec![format!("{} - /work\n └─■ Err: Permission denied", RED_CROSS)]);
    assert!(run.out.is_empty());
    assert_eq!(run.verdict, Information::Warning);
    assert!(w.asked.contains(&"query /work/open".to_string()));
}

#[test]
fn failed_listing_item_ends_the_directory() {
    let mut w = world();
    dir(&mut w, "/work", &[("a", false), ("b", true), (".git", true)]);
    w.listing_failures.insert("/work".to_string(), (1, "Input/output error".to_string()));
    let config = config_with(&["/work"]);
    let mut scan =
        CheckGitProjects::init(&config, ExecuteType::FromConfig, VerboseMode::Nothing, 5, 0);
    let run = drive(&mut scan, &mut w);
    assert_eq!(
        run.err,
        vec![
            format!("{} - \n └─■ Err: Input/output error", RED_CROSS),
            format!("{} - /work\n └─■ Err: Cannot find any `.git` directory", RED_CROSS),
        ]
    );
    assert_eq!(w.asked, vec!["probe /work", "list /work"]);
}

#[test]
fn marker_without_parent_is_a_query_error() {
    let config = config_with(&["/work"]);
    let mut scan =
        CheckGitProjects::init(&config, ExecuteType::FromConfig, VerboseMode::Nothing, 5, 0);
    let first = scan.scan(Reply::Start);
    assert!(matches!(first.request, Request::Probe(_)));
    let second = scan.scan(Reply::Probed { is_dir: true, parent: String::from("/") });
    assert!(matches!(second.request, Request::List(_)));
    let orphan = Entry {
        path: String::from(".git"),
        name: String::from(".git"),
        parent: String::new(),
        project: String::new(),
        is_dir: false,
    };
    let third = scan.scan(Reply::Listed(Ok(vec![ListingItem::Found(orphan)])));
    assert!(matches!(third.request, Request::Done));
    assert_eq!(third.lines.len(), 1);
    match &third.lines[0] {
        Line::Stderr(text) => {
            assert_eq!(text, &format!("{} - \n └─■ Err: Could not determine path", RED_CROSS))
        }
        Line::Stdout(_) => panic!("a diagnostic belongs on the error stream"),
    }
    assert_eq!(scan.found_git_dir, Information::FoundGitDir);
    assert_eq!(scan.project_state.read(), Information::Warning);
}

#[test]
fn reply_that_does_not_answer_aborts() {
    let config = config_with(&["/work"]);
    let mut scan =
        CheckGitProjects::init(&config, ExecuteType::FromConfig, VerboseMode::Nothing, 5, 0);
    scan.scan(Reply::Start);
    let step = scan.scan(Reply::CurrentDir(String::from("/x")));
    assert!(matches!(step.request, Request::Abort));
    assert!(step.lines.is_empty());
    let again = scan.scan(Reply::Start);
    assert!(matches!(again.request, Request::Abort));
}

#[test]
fn finished_scan_stays_finished() {
    let mut w = world();
    dir(&mut w, "/work", &[]);
    let config = config_with(&["/work"]);
    let mut scan =
        CheckGitProjects::init(&config, ExecuteType::FromConfig, VerboseMode::Nothing, 5, 0);
    drive(&mut scan, &mut w);
    let step = scan.scan(Reply::Start);
    assert!(matches!(step.request, Request::Done));
    assert!(step.lines.is_empty());
}

#[test]
fn height_bound_above_the_root_visits_nothing() {
    let mut w = world();
    dir(&mut w, "/work", &[(".git", true)]);
    report(&mut w, "/work", "## main [ahead 1]\n", "");
    let config = config_with(&["/work"]);
    let mut scan =
        CheckGitProjects::init(&config, ExecuteType::FromConfig, VerboseMode::Nothing, 5, 2);
    let run = drive(&mut scan, &mut w);
    assert!(run.out.is_empty());
    assert_eq!(w.asked, vec!["probe /work", "list /work"]);
    assert_eq!(scan.found_git_dir, Information::NotFoundGitDir);
}

#[test]
fn failing_root_after_a_clean_one_suppresses_the_all_clear() {
    let mut w = world();
    dir(&mut w, "/work", &[(".git", true)]);
    dir(&mut w, "/work/.git", &[]);
    report(&mut w, "/work", "## main\n", "");
    dir(&mut w, "/empty", &[]);
    let config = config_with(&["/work", "/empty"]);
    let mut scan =
        CheckGitProjects::init(&config, ExecuteType::FromConfig, VerboseMode::Nothing, 5, 0);
    let run = drive(&mut scan, &mut w);
    assert_eq!(
        run.err,
        vec![format!("{} - /empty\n └─■ Err: Cannot find any `.git` directory", RED_CROSS)]
    );
    assert!(scan.scanned);
    assert_eq!(run.verdict, Information::Warning);
}

#[test]
fn run_ends_within_the_work_it_holds() {
    let mut w = world();
    dir(&mut w, "/r", &[("a", true), ("b", true), ("c", false)]);
    dir(&mut w, "/r/a", &[(".git", true), ("x", true)]);
    dir(&mut w, "/r/a/.git", &[("HEAD", false)]);
    dir(&mut w, "/r/a/x", &[("y", true)]);
    dir(&mut w, "/r/a/x/y", &[]);
    dir(&mut w, "/r/b", &[(".git", false)]);
    dir(&mut w, "/q", &[]);
    report(&mut w, "/r/a", "## main\n", "");
    report(&mut w, "/r/b", "## main [ahead 1]\n", "");
    let config = config_with(&["/r", "/gone", "/q"]);
    let mut scan =
        CheckGitProjects::init(&config, ExecuteType::FromConfig, VerboseMode::Nothing, 5, 0);
    let mut turns: usize = 0;
    let mut listed: usize = 0;
    let mut reply = Reply::Start;
    loop {
        let step = scan.scan(reply);
        turns += 1;
        match answer(&mut w, &step.request) {
            Some(next) => {
                if let Reply::Listed(Ok(items)) = &next {
                    listed += items.len();
                }
                reply = next;
            }
            None => break,
        }
    }
    assert_eq!(listed, 8);
    assert!(turns <= 4 * 3 + 9 + 3 * listed);
    assert_eq!(scan.phase, Phase::Finished);
    assert_eq!(scan.stack.len(), 0);
}

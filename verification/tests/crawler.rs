use file_crawler::authority::{Received, Step, TaskAuthority, TaskKind};
use file_crawler::builder::config::EntryDecision;
use file_crawler::builder::context::NoContext;
use file_crawler::builder::marker::{Async, NonAsync};
use file_crawler::builder::{Crawler, CrawlerError};
use file_crawler::pattern::Pattern;
use std::sync::Arc;
use std::sync::atomic::{AtomicU32, Ordering};

#[test]
fn new_crawler_has_default_settings() {
    let crawler: Crawler<NonAsync, NoContext> = Crawler::new();
    assert!(crawler.uses_current_dir());
    let config = crawler.into_config("/here");
    assert_eq!(config.start_dir(), "/here");
    assert_eq!(config.max_depth(), None);
    assert_eq!(config.file_regex(), None);
    assert_eq!(config.folder_regex(), None);
}

#[test]
fn new_async_crawler_has_default_settings() {
    let crawler: Crawler<Async, NoContext> = Crawler::new_async();
    assert!(crawler.uses_current_dir());
    let config = crawler.into_config("cwd");
    assert_eq!(config.start_dir(), "cwd");
    assert_eq!(config.max_depth(), None);
}

#[test]
fn default_crawler_takes_context_default() {
    let crawler: Crawler<NonAsync, u32> = Crawler::default();
    assert!(crawler.uses_current_dir());
    let config = crawler.into_config("x");
    assert_eq!(**config.context(), 0);
}

#[test]
fn start_dir_replaces_current_dir() {
    let crawler = Crawler::new().start_dir("C:\\user\\foo");
    assert!(!crawler.uses_current_dir());
    let config = crawler.into_config("ignored");
    assert_eq!(config.start_dir(), "C:\\user\\foo");
}

#[test]
fn later_start_dir_wins() {
    let config = Crawler::new().start_dir("a").start_dir("b").into_config("c");
    assert_eq!(config.start_dir(), "b");
}

#[test]
fn settings_are_kept_by_every_setter() {
    let config = Crawler::new()
        .start_dir("root")
        .file_regex(r"^.*\.txt$")
        .folder_regex("src")
        .search_depth(3)
        .context(AtomicU32::new(7))
        .into_config("cwd");
    assert_eq!(config.start_dir(), "root");
    assert_eq!(config.file_regex(), Some(r"^.*\.txt$"));
    assert_eq!(config.folder_regex(), Some("src"));
    assert_eq!(config.max_depth(), Some(3));
    assert_eq!(config.context().load(Ordering::SeqCst), 7);
}

#[test]
fn async_setters_keep_settings() {
    let config = Crawler::new_async()
        .search_depth(1)
        .start_dir("dir")
        .context(String::from("ctx"))
        .file_regex("a")
        .into_config("cwd");
    assert_eq!(config.start_dir(), "dir");
    assert_eq!(config.max_depth(), Some(1));
    assert_eq!(config.file_regex(), Some("a"));
    assert_eq!(config.context().as_str(), "ctx");
}

#[test]
fn file_regex_filters_visits() {
    let config = Crawler::new().file_regex(r"^.*\.txt$").into_config("d");
    assert_eq!(config.decide("notes.txt", false), EntryDecision::Visit);
    assert_eq!(config.decide("image.png", false), EntryDecision::Skip);
    assert!(config.validate_file_regex("a.txt"));
    assert!(!config.validate_file_regex("a.txt.bak"));
}

#[test]
fn folder_regex_filters_descent() {
    let config = Crawler::new().folder_regex("keep").into_config("d");
    assert_eq!(config.decide("keep_me", true), EntryDecision::Descend);
    assert_eq!(config.decide("other", true), EntryDecision::Skip);
    // files are not held to the folder regex
    assert_eq!(config.decide("other.txt", false), EntryDecision::Visit);
}

#[test]
fn no_regex_takes_everything() {
    let config = Crawler::new().into_config("d");
    assert_eq!(config.decide("x", true), EntryDecision::Descend);
    assert_eq!(config.decide("y", false), EntryDecision::Visit);
    assert!(config.validate_file_regex("anything"));
    assert!(config.validate_folder_regex("anything"));
}

#[test]
fn depth_limit_stops_descent() {
    let config = Crawler::new().search_depth(1).into_config("d");
    assert_eq!(config.decide("sub", true), EntryDecision::Descend);
    let child = config.descend("d/sub");
    assert_eq!(child.start_dir(), "d/sub");
    assert_eq!(child.max_depth(), Some(0));
    // at the limit a directory is left alone; files are still visited
    assert_eq!(child.decide("deeper", true), EntryDecision::Skip);
    assert_eq!(child.decide("file", false), EntryDecision::Visit);
}

#[test]
fn depth_limit_zero_never_hands_a_directory_to_the_action() {
    let config = Crawler::new().search_depth(0).file_regex(r"\.txt$").into_config("d");
    assert_eq!(config.decide("dir", true), EntryDecision::Skip);
    assert_eq!(config.decide("dir.txt", true), EntryDecision::Skip);
    assert_eq!(config.decide("file.txt", false), EntryDecision::Visit);
    let unfiltered = Crawler::new().search_depth(0).into_config("d");
    assert_eq!(unfiltered.decide("dir", true), EntryDecision::Skip);
}

#[test]
fn descend_keeps_regexes_and_context() {
    let config = Crawler::new()
        .file_regex("x$")
        .folder_regex("^d")
        .context(AtomicU32::new(1))
        .into_config("d");
    let child = config.descend("d/e");
    assert_eq!(child.file_regex(), Some("x$"));
    assert_eq!(child.folder_regex(), Some("^d"));
    assert_eq!(child.max_depth(), None);
    assert!(child.validate_file_regex("ax"));
    assert!(!child.validate_file_regex("xa"));
    assert!(Arc::ptr_eq(config.context(), child.context()));
    child.context().fetch_add(1, Ordering::SeqCst);
    assert_eq!(config.context().load(Ordering::SeqCst), 2);
    let grandchild = child.descend("d/e/f");
    assert!(grandchild.validate_folder_regex("dd"));
    assert!(!grandchild.validate_folder_regex("ed"));
}

#[test]
fn invalid_file_regex_is_refused() {
    match Crawler::new().try_file_regex("foo(bar") {
        Err(CrawlerError::FileRegex(e)) => assert_eq!(e.pattern, "foo(bar"),
        _ => panic!("the regex should have been refused"),
    }
}

#[test]
fn invalid_folder_regex_is_refused() {
    match Crawler::new_async().try_folder_regex("[") {
        Err(CrawlerError::FolderRegex(e)) => assert_eq!(e.pattern, "["),
        _ => panic!("the regex should have been refused"),
    }
}

#[test]
fn valid_regex_is_accepted_by_try() {
    let crawler = Crawler::new().try_file_regex(r"^.*\.elf$").unwrap().try_folder_regex("b").unwrap();
    let config = crawler.into_config("d");
    assert_eq!(config.file_regex(), Some(r"^.*\.elf$"));
    assert_eq!(config.folder_regex(), Some("b"));
}

#[test]
fn pattern_keeps_its_source() {
    let p = Pattern::new("b+").unwrap();
    assert_eq!(p.as_str(), "b+");
    let q = p.clone();
    assert_eq!(q.as_str(), "b+");
    match Pattern::new("(") {
        Err(e) => assert_eq!(e.pattern, "("),
        Ok(_) => panic!("the pattern should have been refused"),
    }
}

#[test]
fn regex_matches_anywhere_in_the_name() {
    let config = Crawler::new().file_regex("b+").into_config("d");
    assert!(config.validate_file_regex("abbc"));
    assert!(!config.validate_file_regex("ac"));
    assert_eq!(config.decide("abc", false), EntryDecision::Visit);
    assert_eq!(config.decide("y", false), EntryDecision::Skip);
}

#[test]
fn clone_keeps_settings() {
    let crawler = Crawler::new().start_dir("s").file_regex("f").search_depth(2).context(5u8);
    let copy = crawler.clone();
    let a = crawler.into_config("c");
    let b = copy.into_config("c");
    assert_eq!(a.start_dir(), b.start_dir());
    assert_eq!(a.file_regex(), b.file_regex());
    assert_eq!(a.max_depth(), b.max_depth());
    assert_eq!(**a.context(), **b.context());
}

#[test]
fn into_context_gives_back_the_context() {
    let config = Crawler::new().context(vec![1, 2, 3]).into_config("d");
    let ctx = config.into_context();
    assert_eq!(Arc::into_inner(ctx), Some(vec![1, 2, 3]));
}

#[test]
fn authority_finishes_when_all_tasks_are_joined() {
    let mut authority = TaskAuthority::new();
    assert_eq!(authority.step(), Step::Finish);
    authority.receive(Received::Task(TaskKind::Recursion));
    assert_eq!(authority.step(), Step::Poll { recursion: true, action: false });
    authority.receive(Received::Task(TaskKind::Action));
    authority.receive(Received::Empty);
    assert_eq!(authority.step(), Step::Poll { recursion: true, action: true });
    authority.joined(TaskKind::Recursion, true);
    assert_eq!(authority.step(), Step::Poll { recursion: false, action: true });
    authority.joined(TaskKind::Action, true);
    assert_eq!(authority.step(), Step::Finish);
}

#[test]
fn authority_fails_after_a_failed_task() {
    let mut authority = TaskAuthority::new();
    authority.receive(Received::Task(TaskKind::Action));
    authority.receive(Received::Task(TaskKind::Action));
    assert!(authority.has_room(TaskKind::Action));
    authority.joined(TaskKind::Action, false);
    assert_eq!(authority.step(), Step::Fail);
    authority.joined(TaskKind::Action, true);
    assert_eq!(authority.step(), Step::Fail);
}

#[test]
fn setters_of_different_settings_commute() {
    let a = Crawler::new().start_dir("s").search_depth(4).file_regex("f").folder_regex("g").into_config("c");
    let b = Crawler::new().folder_regex("g").file_regex("f").search_depth(4).start_dir("s").into_config("c");
    assert_eq!(a.start_dir(), b.start_dir());
    assert_eq!(a.max_depth(), b.max_depth());
    assert_eq!(a.file_regex(), b.file_regex());
    assert_eq!(a.folder_regex(), b.folder_regex());
}

#[test]
fn depth_limit_bounds_a_chain_of_descents() {
    let mut config = Crawler::new().search_depth(3).into_config("r");
    let mut entered = 0;
    while config.decide("d", true) == EntryDecision::Descend {
        config = config.descend("r/d");
        entered += 1;
    }
    assert_eq!(entered, 3);
    assert_eq!(config.max_depth(), Some(0));
}

/// The directories of a small file system: each lists its entries and whether they are directories.
fn listing(dir: &str) -> Vec<(String, String, bool)> {
    let entries: &[(&str, bool)] = match dir {
        "r" => &[("r/a.txt", false), ("r/b.png", false), ("r/sub", true), ("r/skip", true)],
        "r/sub" => &[("r/sub/c.txt", false), ("r/sub/deep", true)],
        "r/sub/deep" => &[("r/sub/deep/d.txt", false)],
        "r/skip" => &[("r/skip/e.txt", false)],
        _ => &[],
    };
    entries
        .iter()
        .map(|(p, d)| (p.to_string(), p.rsplit('/').next().unwrap().to_string(), *d))
        .collect()
}

fn crawl<C>(config: &file_crawler::builder::config::Config<C>, visited: &mut Vec<String>) {
    for (path, name, is_dir) in listing(config.start_dir()) {
        match config.decide(&name, is_dir) {
            EntryDecision::Descend => crawl(&config.descend(&path), visited),
            EntryDecision::Visit => visited.push(path),
            EntryDecision::Skip => {}
        }
    }
}

#[test]
fn crawl_visits_exactly_the_matching_files_in_scope() {
    let config = Crawler::new()
        .start_dir("r")
        .file_regex(r"\.txt$")
        .folder_regex("sub")
        .search_depth(1)
        .into_config("cwd");
    let mut visited = Vec::new();
    crawl(&config, &mut visited);
    assert_eq!(visited, vec!["r/a.txt".to_string(), "r/sub/c.txt".to_string()]);
}

#[test]
fn crawl_without_limits_visits_every_file() {
    let config = Crawler::new().start_dir("r").into_config("cwd");
    let mut visited = Vec::new();
    crawl(&config, &mut visited);
    assert_eq!(
        visited,
        vec!["r/a.txt", "r/b.png", "r/sub/c.txt", "r/sub/deep/d.txt", "r/skip/e.txt"]
            .into_iter()
            .map(String::from)
            .collect::<Vec<_>>()
    );
}

#[test]
fn regexes_see_the_entry_name_not_its_directory() {
    // the directory "txt_files" holds "a.png": its path ends with a name that the
    // regex refuses, though the directory part would match
    let config = Crawler::new().file_regex("^txt").into_config("d");
    assert_eq!(config.decide("a.png", false), EntryDecision::Skip);
    assert_eq!(config.decide("txt_notes", false), EntryDecision::Visit);
}

#[test]
fn no_start_dir_is_the_working_directory() {
    let a = Crawler::new().search_depth(2).into_config("/work");
    let b = Crawler::new().search_depth(2).start_dir("/work").into_config("/elsewhere");
    assert_eq!(a.start_dir(), b.start_dir());
    assert_eq!(a.max_depth(), b.max_depth());
}

#[test]
fn filters_only_remove_files_and_each_file_comes_once() {
    let strict = Crawler::new().start_dir("r").file_regex(r"\.txt$").search_depth(1).into_config("c");
    let loose = Crawler::new().start_dir("r").into_config("c");
    let mut strict_visits = Vec::new();
    let mut loose_visits = Vec::new();
    crawl(&strict, &mut strict_visits);
    crawl(&loose, &mut loose_visits);
    assert!(strict_visits.iter().all(|p| loose_visits.contains(p)));
    for (i, p) in loose_visits.iter().enumerate() {
        assert!(!loose_visits[i + 1..].contains(p));
    }
    assert_eq!(strict_visits, vec!["r/a.txt".to_string(), "r/sub/c.txt".to_string(), "r/skip/e.txt".to_string()]);
}

//! The configuration that a crawl carries into every directory it reads, and the
//! decision it takes for each entry of a directory.

use vstd::prelude::*;
use std::sync::Arc;
use crate::pattern::{Pattern, regex_is_match};
use crate::builder::{Crawler, CrawlerView, StartDir, pattern_view, clone_pattern};

verus! {

/// Calls `Clone::clone` of `std::sync::Arc`, which makes another pointer to the
/// same allocation; the contract claims that it points to an equal value.
#[verifier::external_body]
fn clone_arc<T>(a: &Arc<T>) -> (res: Arc<T>)
    ensures
        res == *a,
{
    Arc::clone(a)
}

/// What a directory's configuration holds, as values.
pub struct ConfigView {
    /// The directory that is read.
    pub start_dir: Seq<char>,
    pub file_regex: Option<Seq<char>>,
    pub folder_regex: Option<Seq<char>>,
    /// How many more folder layers may be entered below `start_dir`; `None`: no limit.
    pub max_depth: Option<u32>,
}

/// Whether an optional regex takes `text`: no regex takes everything.
pub open spec fn accepts(regex: Option<Seq<char>>, text: Seq<char>) -> bool {
    match regex {
        Some(r) => regex_is_match(r, text),
        None => true,
    }
}

/// What the crawl does with one entry of a directory.
#[derive(Debug, Clone, Copy, PartialEq, Eq)]
pub enum EntryDecision {
    /// Read the directory, one layer deeper.
    Descend,
    /// Run the action on the entry.
    Visit,
    /// Leave the entry alone.
    Skip,
}

/// Whether the configuration still allows entering a directory.
pub open spec fn may_enter(v: ConfigView) -> bool {
    v.max_depth != Some(0u32)
}

/// The decision for an entry whose file name is `name`: a directory is entered
/// while the depth limit allows and the folder regex takes its name, and left
/// alone otherwise; a file is visited when the file regex takes its name. The
/// action only ever runs on files, and the regexes see the entry's name, not the
/// path of the directory it is in.
pub open spec fn decision(v: ConfigView, name: Seq<char>, is_dir: bool) -> EntryDecision {
    if is_dir {
        if may_enter(v) && accepts(v.folder_regex, name) {
            EntryDecision::Descend
        } else {
            EntryDecision::Skip
        }
    } else if accepts(v.file_regex, name) {
        EntryDecision::Visit
    } else {
        EntryDecision::Skip
    }
}

/// One layer less of depth; no limit stays no limit.
pub open spec fn lower_depth(depth: Option<u32>) -> Option<u32> {
    match depth {
        Some(d) => Some((d - 1) as u32),
        None => None,
    }
}

/// The configuration of the directory `path` entered from `v`.
pub open spec fn child_view(v: ConfigView, path: Seq<char>) -> ConfigView {
    ConfigView { start_dir: path, max_depth: lower_depth(v.max_depth), ..v }
}

/// The configuration of the start directory of a crawler with settings `v`,
/// where `current_dir` is the process's working directory.
pub open spec fn config_of(v: CrawlerView, current_dir: Seq<char>) -> ConfigView {
    ConfigView {
        start_dir: match v.start_dir {
            Some(p) => p,
            None => current_dir,
        },
        file_regex: v.file_regex,
        folder_regex: v.folder_regex,
        max_depth: v.max_depth,
    }
}

/// The configuration of one directory of a crawl.
#[derive(Debug)]
pub struct Config<C> {
    start_dir: String,
    file_regex: Option<Pattern>,
    folder_regex: Option<Pattern>,
    max_depth: Option<u32>,
    context: Arc<C>,
}

impl<C> View for Config<C> {
    type V = ConfigView;

    closed spec fn view(&self) -> ConfigView {
        ConfigView {
            start_dir: self.start_dir@,
            file_regex: pattern_view(self.file_regex),
            folder_regex: pattern_view(self.folder_regex),
            max_depth: self.max_depth,
        }
    }
}

impl<C> Config<C> {
    /// The shared context.
    pub closed spec fn context_value(&self) -> Arc<C> {
        self.context
    }

    /// The configuration of a crawler whose start directory is set.
    pub fn from_crawler<A>(value: Crawler<A, C>) -> (res: Self)
        requires
            value@.start_dir is Some,
        ensures
            res@ == (ConfigView {
                start_dir: value@.start_dir.unwrap(),
                file_regex: value@.file_regex,
                folder_regex: value@.folder_regex,
                max_depth: value@.max_depth,
            }),
            *res.context_value() == value.context_value(),
    {
        let start_dir = match value.start_dir {
            StartDir::Custom(path) => path,
            StartDir::Current => vstd::pervasive::unreached(),
        };
        Config {
            start_dir,
            context: Arc::new(value.context),
            file_regex: value.file_regex,
            folder_regex: value.folder_regex,
            max_depth: value.max_depth,
        }
    }

    /// Whether the folder regex (if any) takes `text`.
    pub fn validate_folder_regex(&self, text: &str) -> (res: bool)
        ensures
            res == accepts(self@.folder_regex, text@),
    {
        match &self.folder_regex {
            Some(regex) => regex.is_match(text),
            None => true,
        }
    }

    /// Whether the file regex (if any) takes `text`.
    pub fn validate_file_regex(&self, text: &str) -> (res: bool)
        ensures
            res == accepts(self@.file_regex, text@),
    {
        match &self.file_regex {
            Some(regex) => regex.is_match(text),
            None => true,
        }
    }

    /// What to do with the entry of this directory whose file name is `name`
    /// (the last component of its path), given whether it is a directory.
    pub fn decide(&self, name: &str, is_dir: bool) -> (res: EntryDecision)
        ensures
            res == decision(self@, name@, is_dir),
    {
        if is_dir {
            if !matches!(self.max_depth, Some(0)) && self.validate_folder_regex(name) {
                EntryDecision::Descend
            } else {
                EntryDecision::Skip
            }
        } else if self.validate_file_regex(name) {
            EntryDecision::Visit
        } else {
            EntryDecision::Skip
        }
    }

    /// The configuration for the subdirectory `path`: the same regexes and
    /// context, one layer less of depth.
    pub fn descend(&self, path: &str) -> (res: Config<C>)
        requires
            may_enter(self@),
        ensures
            res@ == child_view(self@, path@),
            res.context_value() == self.context_value(),
    {
        Config {
            start_dir: path.to_owned(),
            max_depth: match self.max_depth {
                Some(depth) => Some(depth - 1),
                None => None,
            },
            folder_regex: clone_pattern(&self.folder_regex),
            file_regex: clone_pattern(&self.file_regex),
            context: clone_arc(&self.context),
        }
    }

    /// The directory this configuration reads.
    pub fn start_dir(&self) -> (res: &str)
        ensures
            res@ == self@.start_dir,
    {
        self.start_dir.as_str()
    }

    /// The source of the file regex, if one is set.
    pub fn file_regex(&self) -> (res: Option<&str>)
        ensures
            match res {
                Some(r) => self@.file_regex == Some(r@),
                None => self@.file_regex is None,
            },
    {
        match &self.file_regex {
            Some(p) => Some(p.as_str()),
            None => None,
        }
    }

    /// The source of the folder regex, if one is set.
    pub fn folder_regex(&self) -> (res: Option<&str>)
        ensures
            match res {
                Some(r) => self@.folder_regex == Some(r@),
                None => self@.folder_regex is None,
            },
    {
        match &self.folder_regex {
            Some(p) => Some(p.as_str()),
            None => None,
        }
    }

    /// The remaining depth.
    pub fn max_depth(&self) -> (res: Option<u32>)
        ensures
            res == self@.max_depth,
    {
        self.max_depth
    }

    /// The shared context.
    pub fn context(&self) -> (res: &Arc<C>)
        ensures
            *res == self.context_value(),
    {
        &self.context
    }

    /// Gives up the configuration, keeping its context.
    pub fn into_context(self) -> (res: Arc<C>)
        ensures
            res == self.context_value(),
    {
        self.context
    }
}

impl<A, C> Crawler<A, C> {
    /// Whether the crawler starts in the process's working directory.
    pub fn uses_current_dir(&self) -> (res: bool)
        ensures
            res == (self@.start_dir is None),
    {
        matches!(self.start_dir, StartDir::Current)
    }

    /// The configuration of the start directory, where `current_dir` is the
    /// working directory (read only when no start directory was set).
    pub fn into_config(self, current_dir: &str) -> (res: Config<C>)
        ensures
            res@ == config_of(self@, current_dir@),
            *res.context_value() == self.context_value(),
    {
        let crawler = if self.uses_current_dir() {
            self.start_dir_(current_dir)
        } else {
            self
        };
        Config::from_crawler(crawler)
    }
}

} // verus!

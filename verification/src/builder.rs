//! The `Crawler` builder: where to start, which entries to take, how deep to go,
//! and what context the user's action shares.

pub mod marker;
pub mod context;
pub mod config;

use vstd::prelude::*;
use std::marker::PhantomData;
use crate::pattern::{Pattern, InvalidPattern, regex_compiles};
use crate::builder::context::NoContext;
use crate::builder::marker::{Async, NonAsync};

verus! {

/// Where a crawl starts.
#[derive(Debug)]
enum StartDir {
    /// The working directory of the process when the crawl is run.
    Current,
    /// A directory given by the user.
    Custom(String),
}

/// The settings of a crawler, as values.
pub struct CrawlerView {
    /// `None`: the process's working directory at run time.
    pub start_dir: Option<Seq<char>>,
    /// The source of the file regex, if one is set.
    pub file_regex: Option<Seq<char>>,
    /// The source of the folder regex, if one is set.
    pub folder_regex: Option<Seq<char>>,
    /// How many folder layers below the start directory are entered; `None`: no limit.
    pub max_depth: Option<u32>,
}

/// The settings of a fresh crawler: current directory, no regexes, no depth limit.
pub open spec fn default_view() -> CrawlerView {
    CrawlerView { start_dir: None, file_regex: None, folder_regex: None, max_depth: None }
}

pub open spec fn with_start_dir(v: CrawlerView, path: Seq<char>) -> CrawlerView {
    CrawlerView { start_dir: Some(path), ..v }
}

pub open spec fn with_file_regex(v: CrawlerView, regex: Seq<char>) -> CrawlerView {
    CrawlerView { file_regex: Some(regex), ..v }
}

pub open spec fn with_folder_regex(v: CrawlerView, regex: Seq<char>) -> CrawlerView {
    CrawlerView { folder_regex: Some(regex), ..v }
}

pub open spec fn with_max_depth(v: CrawlerView, depth: u32) -> CrawlerView {
    CrawlerView { max_depth: Some(depth), ..v }
}

/// The source text of an optional pattern.
pub open spec fn pattern_view(p: Option<Pattern>) -> Option<Seq<char>> {
    match p {
        Some(p) => Some(p@),
        None => None,
    }
}

/// Why a setting was refused.
#[derive(Debug)]
pub enum CrawlerError {
    /// The file regex does not compile.
    FileRegex(InvalidPattern),
    /// The folder regex does not compile.
    FolderRegex(InvalidPattern),
}

/// The core of this library.
/// Create one with `Crawler::new` or `Crawler::new_async` to get started.
#[derive(Debug)]
pub struct Crawler<A, C> {
    start_dir: StartDir,
    file_regex: Option<Pattern>,
    folder_regex: Option<Pattern>,
    max_depth: Option<u32>,
    context: C,
    async_marker: PhantomData<A>,
}

impl<A, C> View for Crawler<A, C> {
    type V = CrawlerView;

    closed spec fn view(&self) -> CrawlerView {
        CrawlerView {
            start_dir: match self.start_dir {
                StartDir::Current => None,
                StartDir::Custom(p) => Some(p@),
            },
            file_regex: pattern_view(self.file_regex),
            folder_regex: pattern_view(self.folder_regex),
            max_depth: self.max_depth,
        }
    }
}

/// Compiles a pattern that is known to compile.
fn compiled(regex: &str) -> (res: Pattern)
    requires
        regex_compiles(regex@),
    ensures
        res@ == regex@,
{
    match Pattern::new(regex) {
        Ok(p) => p,
        Err(_) => vstd::pervasive::unreached(),
    }
}

impl<A, C> Crawler<A, C> {
    /// The context that the user's action will share.
    pub closed spec fn context_value(&self) -> C {
        self.context
    }

    /// A crawler with the default settings and the given context.
    fn with_context(context: C) -> (res: Self)
        ensures
            res@ == default_view(),
            res.context_value() == context,
    {
        Crawler {
            start_dir: StartDir::Current,
            file_regex: None,
            folder_regex: None,
            max_depth: None,
            context,
            async_marker: PhantomData,
        }
    }

    pub(crate) fn start_dir_(self, path: &str) -> (res: Self)
        ensures
            res@ == with_start_dir(self@, path@),
            res.context_value() == self.context_value(),
    {
        Crawler { start_dir: StartDir::Custom(path.to_owned()), ..self }
    }

    pub(crate) fn file_regex_(self, regex: &str) -> (res: Self)
        requires
            regex_compiles(regex@),
        ensures
            res@ == with_file_regex(self@, regex@),
            res.context_value() == self.context_value(),
    {
        Crawler { file_regex: Some(compiled(regex)), ..self }
    }

    pub(crate) fn folder_regex_(self, regex: &str) -> (res: Self)
        requires
            regex_compiles(regex@),
        ensures
            res@ == with_folder_regex(self@, regex@),
            res.context_value() == self.context_value(),
    {
        Crawler { folder_regex: Some(compiled(regex)), ..self }
    }

    pub(crate) fn search_depth_(self, depth: u32) -> (res: Self)
        ensures
            res@ == with_max_depth(self@, depth),
            res.context_value() == self.context_value(),
    {
        Crawler { max_depth: Some(depth), ..self }
    }

    pub(crate) fn context_<CNEW>(self, context: CNEW) -> (res: Crawler<A, CNEW>)
        ensures
            res@ == self@,
            res.context_value() == context,
    {
        Crawler::<A, CNEW> {
            context,
            start_dir: self.start_dir,
            file_regex: self.file_regex,
            folder_regex: self.folder_regex,
            max_depth: self.max_depth,
            async_marker: self.async_marker,
        }
    }
}

impl Clone for StartDir {
    fn clone(&self) -> (res: Self)
        ensures
            res == *self,
    {
        match self {
            StartDir::Current => StartDir::Current,
            StartDir::Custom(p) => StartDir::Custom(p.clone()),
        }
    }
}

/// A copy of an optional pattern, with the same source text.
fn clone_pattern(p: &Option<Pattern>) -> (res: Option<Pattern>)
    ensures
        pattern_view(res) == pattern_view(*p),
{
    match p {
        Some(p) => Some(p.clone()),
        None => None,
    }
}

impl<A, C: Clone> Clone for Crawler<A, C> {
    /// A crawler with the same settings; the context is cloned with `C`'s own `clone`.
    fn clone(&self) -> (res: Self)
        ensures
            res@ == self@,
            cloned::<C>(self.context_value(), res.context_value()),
    {
        Crawler {
            start_dir: self.start_dir.clone(),
            file_regex: clone_pattern(&self.file_regex),
            folder_regex: clone_pattern(&self.folder_regex),
            max_depth: self.max_depth,
            context: self.context.clone(),
            async_marker: PhantomData,
        }
    }
}

impl<A, C: Default> Default for Crawler<A, C> {
    /// A crawler with the default settings and `C`'s default context.
    fn default() -> (res: Self)
        ensures
            res@ == default_view(),
            call_ensures(C::default, (), res.context_value()),
    {
        Self::with_context(C::default())
    }
}

impl Crawler<NonAsync, NoContext> {
    /// A crawler that runs on threads, with the default settings: it starts in
    /// the current directory, takes every entry and has no depth limit.
    pub fn new() -> (res: Self)
        ensures
            res@ == default_view(),
    {
        Self::with_context(NoContext)
    }
}

impl Crawler<Async, NoContext> {
    /// An asynchronous crawler, with the default settings: it starts in the
    /// current directory, takes every entry and has no depth limit.
    pub fn new_async() -> (res: Self)
        ensures
            res@ == default_view(),
    {
        Self::with_context(NoContext)
    }
}


impl<C: Send + Sync> Crawler<NonAsync, C> {
    /// Starts the crawl in `path` in place of the current directory.
    pub fn start_dir(self, path: &str) -> (res: Self)
        ensures
            res@ == with_start_dir(self@, path@),
            res.context_value() == self.context_value(),
    {
        self.start_dir_(path)
    }

    /// Runs the action only on files whose name matches `regex`. The regex is compiled here, so that a bad one shows
    /// up when the crawler is made, not when it runs.
    pub fn file_regex(self, regex: &str) -> (res: Self)
        requires
            regex_compiles(regex@),
        ensures
            res@ == with_file_regex(self@, regex@),
            res.context_value() == self.context_value(),
    {
        self.file_regex_(regex)
    }

    /// Enters only directories whose name matches `regex`; compiled here, as
    /// for `file_regex`.
    pub fn folder_regex(self, regex: &str) -> (res: Self)
        requires
            regex_compiles(regex@),
        ensures
            res@ == with_folder_regex(self@, regex@),
            res.context_value() == self.context_value(),
    {
        self.folder_regex_(regex)
    }

    /// `file_regex`, or the regex crate's refusal of `regex`.
    pub fn try_file_regex(self, regex: &str) -> (res: Result<Self, CrawlerError>)
        ensures
            match res {
                Ok(c) => regex_compiles(regex@) && c@ == with_file_regex(self@, regex@)
                    && c.context_value() == self.context_value(),
                Err(e) => !regex_compiles(regex@) && (e matches CrawlerError::FileRegex(p)
                    && p.pattern@ == regex@),
            },
    {
        match Pattern::new(regex) {
            Ok(_) => Ok(self.file_regex(regex)),
            Err(e) => Err(CrawlerError::FileRegex(e)),
        }
    }

    /// `folder_regex`, or the regex crate's refusal of `regex`.
    pub fn try_folder_regex(self, regex: &str) -> (res: Result<Self, CrawlerError>)
        ensures
            match res {
                Ok(c) => regex_compiles(regex@) && c@ == with_folder_regex(self@, regex@)
                    && c.context_value() == self.context_value(),
                Err(e) => !regex_compiles(regex@) && (e matches CrawlerError::FolderRegex(p)
                    && p.pattern@ == regex@),
            },
    {
        match Pattern::new(regex) {
            Ok(_) => Ok(self.folder_regex(regex)),
            Err(e) => Err(CrawlerError::FolderRegex(e)),
        }
    }

    /// Enters at most `depth` folder layers below the start directory.
    pub fn search_depth(self, depth: u32) -> (res: Self)
        ensures
            res@ == with_max_depth(self@, depth),
            res.context_value() == self.context_value(),
    {
        self.search_depth_(depth)
    }

    /// Replaces the context that the action shares; the settings stay.
    pub fn context<CNEW: Send + Sync>(self, context: CNEW) -> (res: Crawler<NonAsync, CNEW>)
        ensures
            res@ == self@,
            res.context_value() == context,
    {
        self.context_(context)
    }
}

impl<C: Send + Sync + 'static> Crawler<Async, C> {
    /// Starts the crawl in `path` in place of the current directory.
    pub fn start_dir(self, path: &str) -> (res: Self)
        ensures
            res@ == with_start_dir(self@, path@),
            res.context_value() == self.context_value(),
    {
        self.start_dir_(path)
    }

    /// Runs the action only on files whose name matches `regex`. The regex is compiled here, so that a bad one shows
    /// up when the crawler is made, not when it runs.
    pub fn file_regex(self, regex: &str) -> (res: Self)
        requires
            regex_compiles(regex@),
        ensures
            res@ == with_file_regex(self@, regex@),
            res.context_value() == self.context_value(),
    {
        self.file_regex_(regex)
    }

    /// Enters only directories whose name matches `regex`; compiled here, as
    /// for `file_regex`.
    pub fn folder_regex(self, regex: &str) -> (res: Self)
        requires
            regex_compiles(regex@),
        ensures
            res@ == with_folder_regex(self@, regex@),
            res.context_value() == self.context_value(),
    {
        self.folder_regex_(regex)
    }

    /// `file_regex`, or the regex crate's refusal of `regex`.
    pub fn try_file_regex(self, regex: &str) -> (res: Result<Self, CrawlerError>)
        ensures
            match res {
                Ok(c) => regex_compiles(regex@) && c@ == with_file_regex(self@, regex@)
                    && c.context_value() == self.context_value(),
                Err(e) => !regex_compiles(regex@) && (e matches CrawlerError::FileRegex(p)
                    && p.pattern@ == regex@),
            },
    {
        match Pattern::new(regex) {
            Ok(_) => Ok(self.file_regex(regex)),
            Err(e) => Err(CrawlerError::FileRegex(e)),
        }
    }

    /// `folder_regex`, or the regex crate's refusal of `regex`.
    pub fn try_folder_regex(self, regex: &str) -> (res: Result<Self, CrawlerError>)
        ensures
            match res {
                Ok(c) => regex_compiles(regex@) && c@ == with_folder_regex(self@, regex@)
                    && c.context_value() == self.context_value(),
                Err(e) => !regex_compiles(regex@) && (e matches CrawlerError::FolderRegex(p)
                    && p.pattern@ == regex@),
            },
    {
        match Pattern::new(regex) {
            Ok(_) => Ok(self.folder_regex(regex)),
            Err(e) => Err(CrawlerError::FolderRegex(e)),
        }
    }

    /// Enters at most `depth` folder layers below the start directory.
    pub fn search_depth(self, depth: u32) -> (res: Self)
        ensures
            res@ == with_max_depth(self@, depth),
            res.context_value() == self.context_value(),
    {
        self.search_depth_(depth)
    }

    /// Replaces the context that the action shares; the settings stay.
    pub fn context<CNEW: Send + Sync + 'static>(self, context: CNEW) -> (res: Crawler<Async, CNEW>)
        ensures
            res@ == self@,
            res.context_value() == context,
    {
        self.context_(context)
    }
}

} // verus!

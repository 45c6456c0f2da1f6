//! Properties of the crawler that span several operations.

use vstd::prelude::*;
use crate::builder::{CrawlerView, default_view, pattern_view, with_start_dir, with_file_regex, with_folder_regex, with_max_depth};
use crate::builder::config::{ConfigView, EntryDecision, decision, child_view, accepts, may_enter, config_of, lower_depth};
use crate::pattern::{Pattern, regex_is_match};
use crate::authority::{AuthorityView, Event, TaskKind, Step, initial, after, next_step, pending};

verus! {

/// A fresh crawler starts in the working directory, with no regexes and no
/// depth limit.
pub proof fn law_fresh_crawler_takes_everything()
    ensures
        default_view().start_dir is None,
        default_view().file_regex is None,
        default_view().folder_regex is None,
        default_view().max_depth is None,
{
}

/// Each setter stores exactly the value it is given, and leaves every other
/// setting as it was.
pub proof fn law_setter_stores_its_value(v: CrawlerView, path: Seq<char>, regex: Seq<char>, depth: u32)
    ensures
        with_start_dir(v, path).start_dir == Some(path),
        with_start_dir(v, path).file_regex == v.file_regex,
        with_start_dir(v, path).folder_regex == v.folder_regex,
        with_start_dir(v, path).max_depth == v.max_depth,
        with_file_regex(v, regex).file_regex == Some(regex),
        with_file_regex(v, regex).start_dir == v.start_dir,
        with_file_regex(v, regex).folder_regex == v.folder_regex,
        with_file_regex(v, regex).max_depth == v.max_depth,
        with_folder_regex(v, regex).folder_regex == Some(regex),
        with_folder_regex(v, regex).start_dir == v.start_dir,
        with_folder_regex(v, regex).file_regex == v.file_regex,
        with_folder_regex(v, regex).max_depth == v.max_depth,
        with_max_depth(v, depth).max_depth == Some(depth),
        with_max_depth(v, depth).start_dir == v.start_dir,
        with_max_depth(v, depth).file_regex == v.file_regex,
        with_max_depth(v, depth).folder_regex == v.folder_regex,
{
}

/// The start directory's configuration carries the crawler's settings over
/// unchanged, and starts in the crawler's start directory or, when none is
/// set, in the working directory.
pub proof fn law_config_carries_settings(v: CrawlerView, current_dir: Seq<char>)
    ensures
        config_of(v, current_dir).file_regex == v.file_regex,
        config_of(v, current_dir).folder_regex == v.folder_regex,
        config_of(v, current_dir).max_depth == v.max_depth,
        v.start_dir matches Some(p) ==> config_of(v, current_dir).start_dir == p,
        v.start_dir is None ==> config_of(v, current_dir).start_dir == current_dir,
{
}

/// A stored pattern is seen by its source text, and no pattern is seen as none.
pub proof fn law_pattern_seen_by_its_text(p: Option<Pattern>)
    ensures
        p matches Some(q) ==> pattern_view(p) == Some(q@),
        p is None ==> pattern_view(p) is None,
{
}

/// A filter with a regex takes a text exactly when the regex matches it, with
/// no other condition on the text; without a regex it takes every text.
pub proof fn law_filter_is_the_regex(regex: Seq<char>, text: Seq<char>)
    ensures
        accepts(Some(regex), text) == regex_is_match(regex, text),
        accepts(None, text),
{
}

/// The decision for an entry, in terms of the settings alone: a file is visited
/// exactly when there is no file regex or it matches the name; a directory is
/// entered exactly when the depth left is not zero and there is no folder regex
/// or it matches the name; a file is never entered and a directory never visited.
pub proof fn law_decision_in_terms_of_settings(v: ConfigView, name: Seq<char>)
    ensures
        (decision(v, name, false) == EntryDecision::Visit) == match v.file_regex {
            Some(r) => regex_is_match(r, name),
            None => true,
        },
        decision(v, name, false) != EntryDecision::Descend,
        (decision(v, name, true) == EntryDecision::Descend) == (v.max_depth != Some(0u32) && match v.folder_regex {
            Some(r) => regex_is_match(r, name),
            None => true,
        }),
        decision(v, name, true) != EntryDecision::Visit,
{
}

/// Entering a subdirectory keeps both regexes, starts in the subdirectory, and
/// takes one layer off a depth limit (no limit stays no limit).
pub proof fn law_child_keeps_regexes(v: ConfigView, path: Seq<char>)
    ensures
        child_view(v, path).file_regex == v.file_regex,
        child_view(v, path).folder_regex == v.folder_regex,
        child_view(v, path).start_dir == path,
        v.max_depth is Some && v.max_depth.unwrap() > 0
            ==> child_view(v, path).max_depth == Some((v.max_depth.unwrap() - 1) as u32),
        v.max_depth is None ==> child_view(v, path).max_depth is None,
        lower_depth(v.max_depth) == child_view(v, path).max_depth,
{
}

/// Settings of different kinds do not interfere: setting one and then another
/// gives the same crawler as the other order.
pub proof fn law_setters_commute(v: CrawlerView, path: Seq<char>, file: Seq<char>, folder: Seq<char>, depth: u32)
    ensures
        with_start_dir(with_file_regex(v, file), path) == with_file_regex(with_start_dir(v, path), file),
        with_start_dir(with_folder_regex(v, folder), path) == with_folder_regex(with_start_dir(v, path), folder),
        with_start_dir(with_max_depth(v, depth), path) == with_max_depth(with_start_dir(v, path), depth),
        with_file_regex(with_folder_regex(v, folder), file) == with_folder_regex(with_file_regex(v, file), folder),
        with_file_regex(with_max_depth(v, depth), file) == with_max_depth(with_file_regex(v, file), depth),
        with_folder_regex(with_max_depth(v, depth), folder) == with_max_depth(with_folder_regex(v, folder), depth),
{
}

/// Setting the same kind of setting twice keeps only the later value.
pub proof fn law_later_setting_wins(v: CrawlerView, a: Seq<char>, b: Seq<char>, d1: u32, d2: u32)
    ensures
        with_start_dir(with_start_dir(v, a), b) == with_start_dir(v, b),
        with_file_regex(with_file_regex(v, a), b) == with_file_regex(v, b),
        with_folder_regex(with_folder_regex(v, a), b) == with_folder_regex(v, b),
        with_max_depth(with_max_depth(v, d1), d2) == with_max_depth(v, d2),
{
}

/// The action runs only on files, and only if the file regex takes the file's
/// name; a directory is entered only if the depth limit allows it and the folder
/// regex takes its name, and is left alone otherwise.
pub proof fn law_regexes_filter(v: ConfigView, name: Seq<char>, is_dir: bool)
    ensures
        decision(v, name, is_dir) == EntryDecision::Visit ==> !is_dir && accepts(v.file_regex, name),
        decision(v, name, is_dir) == EntryDecision::Descend
            ==> is_dir && may_enter(v) && accepts(v.folder_regex, name),
        decision(v, name, is_dir) == EntryDecision::Skip ==> if is_dir {
            !(may_enter(v) && accepts(v.folder_regex, name))
        } else {
            !accepts(v.file_regex, name)
        },
{
}

/// A crawler without a start directory starts where `start_dir` with the
/// working directory would start it: the two give the same configuration.
pub proof fn law_current_dir_is_default_start(v: CrawlerView, current_dir: Seq<char>, other: Seq<char>)
    requires
        v.start_dir is None,
    ensures
        config_of(v, current_dir) == config_of(with_start_dir(v, current_dir), other),
{
}

/// `b` is the configuration of a directory entered from `a`: the depth limit
/// allows entering, and `b` is `a`'s configuration for that directory.
pub open spec fn enters(a: ConfigView, b: ConfigView) -> bool {
    &&& may_enter(a)
    &&& b == child_view(a, b.start_dir)
}

/// The `i`-th directory of `chain` enters the next one.
pub open spec fn link(chain: Seq<ConfigView>, i: int) -> bool {
    enters(chain[i], chain[i + 1])
}

/// A path of directories down the tree, each entered from the one before.
pub open spec fn is_descent(chain: Seq<ConfigView>) -> bool {
    forall|i: int| 0 <= i < chain.len() - 1 ==> #[trigger] link(chain, i)
}

/// A crawl that starts with a depth limit of `depth` reads directories at most
/// `depth` layers below its start directory, and the `i`-th layer has
/// `depth - i` layers left.
pub proof fn law_depth_limit(chain: Seq<ConfigView>, depth: u32)
    requires
        chain.len() > 0,
        chain[0].max_depth == Some(depth),
        is_descent(chain),
    ensures
        chain.len() <= depth + 1,
        forall|i: int| 0 <= i < chain.len() ==> #[trigger] chain[i].max_depth == Some((depth - i) as u32),
    decreases chain.len(),
{
    if chain.len() > 1 {
        let prefix = chain.drop_last();
        assert forall|i: int| 0 <= i < prefix.len() - 1 implies #[trigger] link(prefix, i) by {
            assert(link(chain, i));
        }
        law_depth_limit(prefix, depth);
        let k = chain.len() - 2;
        assert(link(chain, k));
        assert(chain[k] == prefix[k]);
        assert forall|i: int| 0 <= i < chain.len() implies #[trigger] chain[i].max_depth == Some((depth - i) as u32) by {
            if i < chain.len() - 1 {
                assert(chain[i] == prefix[i]);
            }
        }
    }
}

/// Without a depth limit, every directory entered keeps having none.
pub proof fn law_no_limit_stays(chain: Seq<ConfigView>)
    requires
        chain.len() > 0,
        chain[0].max_depth is None,
        is_descent(chain),
    ensures
        forall|i: int| 0 <= i < chain.len() ==> #[trigger] chain[i].max_depth is None,
    decreases chain.len(),
{
    if chain.len() > 1 {
        let prefix = chain.drop_last();
        assert forall|i: int| 0 <= i < prefix.len() - 1 implies #[trigger] link(prefix, i) by {
            assert(link(chain, i));
        }
        law_no_limit_stays(prefix);
        let k = chain.len() - 2;
        assert(link(chain, k));
        assert(chain[k] == prefix[k]);
        assert forall|i: int| 0 <= i < chain.len() implies #[trigger] chain[i].max_depth is None by {
            if i < chain.len() - 1 {
                assert(chain[i] == prefix[i]);
            }
        }
    }
}

/// Every directory a crawl enters keeps the regexes of the start directory.
pub proof fn law_descent_keeps_regexes(chain: Seq<ConfigView>)
    requires
        chain.len() > 0,
        is_descent(chain),
    ensures
        forall|i: int| 0 <= i < chain.len() ==> (#[trigger] chain[i]).file_regex == chain[0].file_regex
            && chain[i].folder_regex == chain[0].folder_regex,
    decreases chain.len(),
{
    if chain.len() > 1 {
        let prefix = chain.drop_last();
        assert forall|i: int| 0 <= i < prefix.len() - 1 implies #[trigger] link(prefix, i) by {
            assert(link(chain, i));
        }
        law_descent_keeps_regexes(prefix);
        let k = chain.len() - 2;
        assert(link(chain, k));
        assert(chain[k] == prefix[k]);
        assert forall|i: int| 0 <= i < chain.len() implies (#[trigger] chain[i]).file_regex == chain[0].file_regex
            && chain[i].folder_regex == chain[0].folder_regex by {
            if i < chain.len() - 1 {
                assert(chain[i] == prefix[i]);
            }
        }
    }
}

/// An entry of a directory listing: its path, its file name, and whether it is
/// a directory.
pub struct EntryView {
    pub path: Seq<char>,
    pub name: Seq<char>,
    pub is_dir: bool,
}

/// A file system, as the listing of the directory at each path.
pub type Listing = spec_fn(Seq<char>) -> Seq<EntryView>;

/// Whether the crawl of the directory configured by `v`, reading at most
/// `levels` layers of directories (the start directory is the first), runs the
/// action on `p`: some entry of the directory has path `p` and is visited, or is
/// a directory that is entered and whose crawl runs the action on `p`.
pub open spec fn visits(fs: Listing, v: ConfigView, levels: nat, p: Seq<char>) -> bool
    decreases levels,
{
    levels > 0 && exists|i: int| #![trigger fs(v.start_dir)[i]] 0 <= i < fs(v.start_dir).len() && {
        let e = fs(v.start_dir)[i];
        ||| e.path == p && decision(v, e.name, e.is_dir) == EntryDecision::Visit
        ||| decision(v, e.name, e.is_dir) == EntryDecision::Descend
            && visits(fs, child_view(v, e.path), (levels - 1) as nat, p)
    }
}

/// The `i`-th entry of the directory configured by `v` leads the crawl to run
/// the action on `p`.
pub open spec fn reaches(fs: Listing, v: ConfigView, levels: nat, p: Seq<char>, i: int) -> bool {
    let e = fs(v.start_dir)[i];
    ||| e.path == p && decision(v, e.name, e.is_dir) == EntryDecision::Visit
    ||| decision(v, e.name, e.is_dir) == EntryDecision::Descend
        && visits(fs, child_view(v, e.path), (levels - 1) as nat, p)
}

/// `visits` is the search for an entry that `reaches` `p`.
proof fn lemma_visits_unfold(fs: Listing, v: ConfigView, levels: nat, p: Seq<char>)
    requires
        levels > 0,
    ensures
        visits(fs, v, levels, p) <==> exists|i: int| 0 <= i < fs(v.start_dir).len() && #[trigger] reaches(fs, v, levels, p, i),
{
    if visits(fs, v, levels, p) {
        let i = choose|i: int| #![trigger fs(v.start_dir)[i]] 0 <= i < fs(v.start_dir).len() && {
            let e = fs(v.start_dir)[i];
            ||| e.path == p && decision(v, e.name, e.is_dir) == EntryDecision::Visit
            ||| decision(v, e.name, e.is_dir) == EntryDecision::Descend
                && visits(fs, child_view(v, e.path), (levels - 1) as nat, p)
        };
        assert(reaches(fs, v, levels, p, i));
    }
}

/// Whether `p` is listed as a file in some directory, under a name that
/// `regex` takes.
pub open spec fn is_accepted_file(fs: Listing, regex: Option<Seq<char>>, p: Seq<char>) -> bool {
    exists|q: Seq<char>, i: int| #![trigger fs(q)[i]]
        0 <= i < fs(q).len() && fs(q)[i].path == p && !fs(q)[i].is_dir && accepts(regex, fs(q)[i].name)
}

/// Whatever the file system, the crawl runs the action only on paths that are
/// listed as files (never on a directory) whose name the file regex takes.
pub proof fn law_crawl_visits_only_matching_files(fs: Listing, v: ConfigView, levels: nat, p: Seq<char>)
    requires
        visits(fs, v, levels, p),
    ensures
        is_accepted_file(fs, v.file_regex, p),
    decreases levels,
{
    lemma_visits_unfold(fs, v, levels, p);
    let i = choose|i: int| 0 <= i < fs(v.start_dir).len() && #[trigger] reaches(fs, v, levels, p, i);
    let e = fs(v.start_dir)[i];
    if e.path == p && decision(v, e.name, e.is_dir) == EntryDecision::Visit {
        assert(fs(v.start_dir)[i] == e);
    } else {
        law_crawl_visits_only_matching_files(fs, child_view(v, e.path), (levels - 1) as nat, p);
    }
}

/// Every file of the start directory whose name the file regex takes is visited.
pub proof fn law_crawl_visits_matching_start_files(fs: Listing, v: ConfigView, levels: nat, i: int)
    requires
        levels > 0,
        0 <= i < fs(v.start_dir).len(),
        !fs(v.start_dir)[i].is_dir,
        accepts(v.file_regex, fs(v.start_dir)[i].name),
    ensures
        visits(fs, v, levels, fs(v.start_dir)[i].path),
{
    lemma_visits_unfold(fs, v, levels, fs(v.start_dir)[i].path);
    assert(reaches(fs, v, levels, fs(v.start_dir)[i].path, i));
}

/// The `k`-th directory of `chain` lists the next one as a directory that the
/// crawl enters, and the next configuration is the one for that directory.
pub open spec fn listed_link(fs: Listing, chain: Seq<ConfigView>, k: int) -> bool {
    exists|j: int| #![trigger fs(chain[k].start_dir)[j]]
        0 <= j < fs(chain[k].start_dir).len()
        && fs(chain[k].start_dir)[j].path == chain[k + 1].start_dir
        && decision(chain[k], fs(chain[k].start_dir)[j].name, fs(chain[k].start_dir)[j].is_dir)
            == EntryDecision::Descend
        && chain[k + 1] == child_view(chain[k], chain[k + 1].start_dir)
}

/// A path of listed directories from the start down the tree, each of which the
/// crawl enters.
pub open spec fn in_scope_chain(fs: Listing, chain: Seq<ConfigView>) -> bool {
    forall|k: int| 0 <= k < chain.len() - 1 ==> #[trigger] listed_link(fs, chain, k)
}

/// Completeness: every file in the crawl's scope is visited. For a chain of
/// directories that the crawl enters, from the start down to some directory,
/// every file of that directory whose name the file regex takes is visited by
/// a crawl that may read as many layers as the chain has directories.
pub proof fn law_crawl_visits_files_in_scope(fs: Listing, chain: Seq<ConfigView>, levels: nat, i: int)
    requires
        chain.len() > 0,
        chain.len() <= levels,
        in_scope_chain(fs, chain),
        0 <= i < fs(chain.last().start_dir).len(),
        !fs(chain.last().start_dir)[i].is_dir,
        accepts(chain.last().file_regex, fs(chain.last().start_dir)[i].name),
    ensures
        visits(fs, chain[0], levels, fs(chain.last().start_dir)[i].path),
    decreases chain.len(),
{
    let p = fs(chain.last().start_dir)[i].path;
    if chain.len() == 1 {
        law_crawl_visits_matching_start_files(fs, chain[0], levels, i);
    } else {
        let rest = chain.drop_first();
        assert forall|k: int| 0 <= k < rest.len() - 1 implies #[trigger] listed_link(fs, rest, k) by {
            assert(listed_link(fs, chain, k + 1));
            let j = choose|j: int| #![trigger fs(chain[k + 1].start_dir)[j]]
                0 <= j < fs(chain[k + 1].start_dir).len()
                && fs(chain[k + 1].start_dir)[j].path == chain[k + 2].start_dir
                && decision(chain[k + 1], fs(chain[k + 1].start_dir)[j].name, fs(chain[k + 1].start_dir)[j].is_dir)
                    == EntryDecision::Descend
                && chain[k + 2] == child_view(chain[k + 1], chain[k + 2].start_dir);
            assert(rest[k] == chain[k + 1] && rest[k + 1] == chain[k + 2]);
            assert(fs(rest[k].start_dir)[j] == fs(chain[k + 1].start_dir)[j]);
        }
        assert(rest.last() == chain.last());
        law_crawl_visits_files_in_scope(fs, rest, (levels - 1) as nat, i);
        assert(listed_link(fs, chain, 0));
        let j = choose|j: int| #![trigger fs(chain[0].start_dir)[j]]
            0 <= j < fs(chain[0].start_dir).len()
            && fs(chain[0].start_dir)[j].path == chain[1].start_dir
            && decision(chain[0], fs(chain[0].start_dir)[j].name, fs(chain[0].start_dir)[j].is_dir)
                == EntryDecision::Descend
            && chain[1] == child_view(chain[0], chain[1].start_dir);
        assert(rest[0] == chain[1]);
        lemma_visits_unfold(fs, chain[0], levels, p);
        assert(reaches(fs, chain[0], levels, p, j));
    }
}

/// `w` takes everything `v` takes: the same start directory, each regex either
/// the same or none, and a depth limit no tighter.
pub open spec fn relaxes(w: ConfigView, v: ConfigView) -> bool {
    &&& w.start_dir == v.start_dir
    &&& (w.file_regex == v.file_regex || w.file_regex is None)
    &&& (w.folder_regex == v.folder_regex || w.folder_regex is None)
    &&& match (w.max_depth, v.max_depth) {
        (None, _) => true,
        (Some(dw), Some(dv)) => dw >= dv,
        (Some(_), None) => false,
    }
}

/// Regexes and the depth limit only ever remove files from a crawl: a crawl
/// with looser settings visits every path the stricter one visits.
pub proof fn law_filters_only_remove(fs: Listing, v: ConfigView, w: ConfigView, levels: nat, p: Seq<char>)
    requires
        relaxes(w, v),
        visits(fs, v, levels, p),
    ensures
        visits(fs, w, levels, p),
    decreases levels,
{
    lemma_visits_unfold(fs, v, levels, p);
    lemma_visits_unfold(fs, w, levels, p);
    let i = choose|i: int| 0 <= i < fs(v.start_dir).len() && #[trigger] reaches(fs, v, levels, p, i);
    let e = fs(v.start_dir)[i];
    if e.path == p && decision(v, e.name, e.is_dir) == EntryDecision::Visit {
        assert(reaches(fs, w, levels, p, i));
    } else {
        let cv = child_view(v, e.path);
        let cw = child_view(w, e.path);
        assert(relaxes(cw, cv));
        law_filters_only_remove(fs, cv, cw, (levels - 1) as nat, p);
        assert(reaches(fs, w, levels, p, i));
    }
}

/// With a depth limit of `depth`, reading `depth + 1` layers of directories
/// already finds every path the crawl visits: allowing more layers finds
/// nothing new, whatever the file system.
pub proof fn law_depth_bounds_crawl(fs: Listing, v: ConfigView, depth: u32, levels: nat, p: Seq<char>)
    requires
        v.max_depth == Some(depth),
        levels >= depth + 1,
    ensures
        visits(fs, v, levels, p) == visits(fs, v, (depth + 1) as nat, p),
    decreases depth,
{
    let m = (depth + 1) as nat;
    lemma_visits_unfold(fs, v, levels, p);
    lemma_visits_unfold(fs, v, m, p);
    assert forall|i: int| 0 <= i < fs(v.start_dir).len() implies
        #[trigger] reaches(fs, v, levels, p, i) == reaches(fs, v, m, p, i) by {
        let e = fs(v.start_dir)[i];
        if decision(v, e.name, e.is_dir) == EntryDecision::Descend {
            assert(depth > 0);
            law_depth_bounds_crawl(fs, child_view(v, e.path), (depth - 1) as u32, (levels - 1) as nat, p);
        }
    }
    if visits(fs, v, levels, p) {
        let i = choose|i: int| 0 <= i < fs(v.start_dir).len() && #[trigger] reaches(fs, v, levels, p, i);
        assert(reaches(fs, v, m, p, i));
    }
    if visits(fs, v, m, p) {
        let i = choose|i: int| 0 <= i < fs(v.start_dir).len() && #[trigger] reaches(fs, v, m, p, i);
        assert(reaches(fs, v, levels, p, i));
    }
}

/// The paths the crawl of the directory configured by `v` runs the action on,
/// reading at most `levels` layers, in the order of the listings: each entry in
/// turn, and in place of an entered directory its whole crawl.
pub open spec fn crawl(fs: Listing, v: ConfigView, levels: nat) -> Seq<Seq<char>>
    decreases levels, 1int, 0int,
{
    if levels == 0 {
        Seq::empty()
    } else {
        crawl_from(fs, v, levels, 0)
    }
}

/// The crawl of the entries of the directory from the `i`-th on.
pub open spec fn crawl_from(fs: Listing, v: ConfigView, levels: nat, i: int) -> Seq<Seq<char>>
    decreases levels, 0int, fs(v.start_dir).len() - i,
{
    if levels == 0 || i < 0 || i >= fs(v.start_dir).len() {
        Seq::empty()
    } else {
        crawl_entry(fs, v, levels, i) + crawl_from(fs, v, levels, i + 1)
    }
}

/// What the crawl gives for the `i`-th entry of the directory: the entry itself
/// when it is visited, the crawl of the directory when it is entered, nothing
/// when it is left alone.
pub open spec fn crawl_entry(fs: Listing, v: ConfigView, levels: nat, i: int) -> Seq<Seq<char>>
    decreases levels, 0int, 0int,
{
    if levels == 0 || i < 0 || i >= fs(v.start_dir).len() {
        Seq::empty()
    } else {
        let e = fs(v.start_dir)[i];
        match decision(v, e.name, e.is_dir) {
            EntryDecision::Visit => seq![e.path],
            EntryDecision::Descend => crawl(fs, child_view(v, e.path), (levels - 1) as nat),
            EntryDecision::Skip => Seq::empty(),
        }
    }
}

/// A path in the crawl of the entries from the `i`-th on comes from one of them.
proof fn lemma_crawl_from_index(fs: Listing, v: ConfigView, levels: nat, i: int, x: Seq<char>) -> (j: int)
    requires
        crawl_from(fs, v, levels, i).contains(x),
    ensures
        i <= j < fs(v.start_dir).len(),
        crawl_entry(fs, v, levels, j).contains(x),
    decreases fs(v.start_dir).len() - i,
{
    broadcast use vstd::seq_lib::group_seq_properties;
    if crawl_entry(fs, v, levels, i).contains(x) {
        i
    } else {
        lemma_crawl_from_index(fs, v, levels, i + 1, x)
    }
}

/// What an entry from the `i`-th on gives is in the crawl of those entries.
proof fn lemma_crawl_from_has(fs: Listing, v: ConfigView, levels: nat, i: int, j: int, x: Seq<char>)
    requires
        levels > 0,
        0 <= i <= j < fs(v.start_dir).len(),
        crawl_entry(fs, v, levels, j).contains(x),
    ensures
        crawl_from(fs, v, levels, i).contains(x),
    decreases j - i,
{
    broadcast use vstd::seq_lib::group_seq_properties;
    if i < j {
        lemma_crawl_from_has(fs, v, levels, i + 1, j, x);
    }
}

/// The crawl holds exactly the paths that `visits` names.
proof fn lemma_crawl_contains(fs: Listing, v: ConfigView, levels: nat, x: Seq<char>)
    ensures
        crawl(fs, v, levels).contains(x) == visits(fs, v, levels, x),
    decreases levels,
{
    if levels > 0 {
        assert forall|j: int| 0 <= j < fs(v.start_dir).len() implies
            #[trigger] crawl_entry(fs, v, levels, j).contains(x) == reaches(fs, v, levels, x, j) by {
            let e = fs(v.start_dir)[j];
            if decision(v, e.name, e.is_dir) == EntryDecision::Descend {
                lemma_crawl_contains(fs, child_view(v, e.path), (levels - 1) as nat, x);
            }
            if decision(v, e.name, e.is_dir) == EntryDecision::Visit {
                assert(seq![e.path].contains(x) == (e.path == x)) by {
                    if x == e.path {
                        assert(seq![e.path][0] == x);
                    }
                }
            }
        }
        lemma_visits_unfold(fs, v, levels, x);
        if crawl(fs, v, levels).contains(x) {
            let j = lemma_crawl_from_index(fs, v, levels, 0, x);
            assert(reaches(fs, v, levels, x, j));
        }
        if visits(fs, v, levels, x) {
            let j = choose|j: int| 0 <= j < fs(v.start_dir).len() && #[trigger] reaches(fs, v, levels, x, j);
            assert(crawl_entry(fs, v, levels, j).contains(x));
            lemma_crawl_from_has(fs, v, levels, 0, j, x);
        }
    }
}

/// The file system is a tree: every listed entry has the listing directory as
/// its parent and lies one level deeper, and no listing names a path twice.
pub open spec fn is_tree(fs: Listing, parent: spec_fn(Seq<char>) -> Seq<char>, depth: spec_fn(Seq<char>) -> int) -> bool {
    &&& forall|q: Seq<char>, i: int| #![trigger fs(q)[i]] 0 <= i < fs(q).len()
        ==> parent(fs(q)[i].path) == q && depth(fs(q)[i].path) == depth(q) + 1
    &&& forall|q: Seq<char>, i: int, j: int| #![trigger fs(q)[i], fs(q)[j]]
        0 <= i < fs(q).len() && 0 <= j < fs(q).len() && i != j ==> fs(q)[i].path != fs(q)[j].path
}

/// The directory `k` levels above `p`.
pub open spec fn ancestor(parent: spec_fn(Seq<char>) -> Seq<char>, p: Seq<char>, k: nat) -> Seq<char>
    decreases k,
{
    if k == 0 {
        p
    } else {
        parent(ancestor(parent, p, (k - 1) as nat))
    }
}

/// A path that the `j`-th entry gives lies `k` levels below that entry.
proof fn lemma_entry_under(
    fs: Listing,
    parent: spec_fn(Seq<char>) -> Seq<char>,
    depth: spec_fn(Seq<char>) -> int,
    v: ConfigView,
    levels: nat,
    j: int,
    x: Seq<char>,
) -> (k: nat)
    requires
        is_tree(fs, parent, depth),
        0 <= j < fs(v.start_dir).len(),
        crawl_entry(fs, v, levels, j).contains(x),
    ensures
        ancestor(parent, x, k) == fs(v.start_dir)[j].path,
        depth(x) == depth(fs(v.start_dir)[j].path) + k,
    decreases levels,
{
    let e = fs(v.start_dir)[j];
    if decision(v, e.name, e.is_dir) == EntryDecision::Visit {
        assert(x == e.path);
        0
    } else {
        let c = child_view(v, e.path);
        let l = (levels - 1) as nat;
        assert(crawl(fs, c, l).contains(x));
        let j2 = lemma_crawl_from_index(fs, c, l, 0, x);
        let k2 = lemma_entry_under(fs, parent, depth, c, l, j2, x);
        let e2 = fs(e.path)[j2];
        assert(parent(e2.path) == e.path && depth(e2.path) == depth(e.path) + 1);
        assert(ancestor(parent, x, k2 + 1) == parent(ancestor(parent, x, k2)));
        k2 + 1
    }
}

/// On a tree, the crawl names no path twice.
proof fn lemma_crawl_no_duplicates(
    fs: Listing,
    parent: spec_fn(Seq<char>) -> Seq<char>,
    depth: spec_fn(Seq<char>) -> int,
    v: ConfigView,
    levels: nat,
)
    requires
        is_tree(fs, parent, depth),
    ensures
        crawl(fs, v, levels).no_duplicates(),
    decreases levels, 1int, 0int,
{
    if levels > 0 {
        lemma_crawl_from_no_duplicates(fs, parent, depth, v, levels, 0);
    }
}

/// On a tree, the crawl of the entries from the `i`-th on names no path twice.
proof fn lemma_crawl_from_no_duplicates(
    fs: Listing,
    parent: spec_fn(Seq<char>) -> Seq<char>,
    depth: spec_fn(Seq<char>) -> int,
    v: ConfigView,
    levels: nat,
    i: int,
)
    requires
        is_tree(fs, parent, depth),
        levels > 0,
        0 <= i,
    ensures
        crawl_from(fs, v, levels, i).no_duplicates(),
    decreases levels, 0int, fs(v.start_dir).len() - i,
{
    if i < fs(v.start_dir).len() {
        let q = v.start_dir;
        let a = crawl_entry(fs, v, levels, i);
        let b = crawl_from(fs, v, levels, i + 1);
        let e = fs(q)[i];
        if decision(v, e.name, e.is_dir) == EntryDecision::Descend {
            lemma_crawl_no_duplicates(fs, parent, depth, child_view(v, e.path), (levels - 1) as nat);
        }
        lemma_crawl_from_no_duplicates(fs, parent, depth, v, levels, i + 1);
        assert forall|ia: int, ib: int| 0 <= ia < a.len() && 0 <= ib < b.len() implies a[ia] != b[ib] by {
            if a[ia] == b[ib] {
                let x = a[ia];
                assert(a.contains(x));
                assert(b.contains(x));
                let j = lemma_crawl_from_index(fs, v, levels, i + 1, x);
                let k1 = lemma_entry_under(fs, parent, depth, v, levels, i, x);
                let k2 = lemma_entry_under(fs, parent, depth, v, levels, j, x);
                assert(depth(fs(q)[i].path) == depth(q) + 1);
                assert(depth(fs(q)[j].path) == depth(q) + 1);
                assert(fs(q)[i].path != fs(q)[j].path);
            }
        }
        vstd::seq_lib::lemma_no_dup_in_concat(a, b);
    }
}

/// Exactly once: on a file system that is a tree, the crawl runs the action on
/// no path twice, and on exactly the paths that `visits` names; with
/// `law_crawl_visits_files_in_scope`, every file in scope is visited once.
pub proof fn law_crawl_visits_each_file_once(
    fs: Listing,
    parent: spec_fn(Seq<char>) -> Seq<char>,
    depth: spec_fn(Seq<char>) -> int,
    v: ConfigView,
    levels: nat,
)
    requires
        is_tree(fs, parent, depth),
    ensures
        crawl(fs, v, levels).no_duplicates(),
        forall|p: Seq<char>| #[trigger] crawl(fs, v, levels).contains(p) <==> visits(fs, v, levels, p),
{
    lemma_crawl_no_duplicates(fs, parent, depth, v, levels);
    assert forall|p: Seq<char>| #[trigger] crawl(fs, v, levels).contains(p) <==> visits(fs, v, levels, p) by {
        lemma_crawl_contains(fs, v, levels, p);
    }
}

/// Each event changes exactly what it reports: a spawn adds one task of its
/// kind, a join takes one away and marks the authority failed when the task
/// failed; nothing else changes, and a failure is never forgotten.
pub proof fn law_events_count_tasks(s: AuthorityView, kind: TaskKind, ok: bool)
    ensures
        pending(after(s, Event::Spawned(kind)), kind) == pending(s, kind) + 1,
        after(s, Event::Spawned(kind)).failed == s.failed,
        pending(s, kind) > 0 ==> pending(after(s, Event::Joined(kind, ok)), kind) + 1 == pending(s, kind),
        after(s, Event::Joined(kind, ok)).failed == (s.failed || !ok),
        forall|other: TaskKind| other != kind ==> pending(after(s, Event::Spawned(kind)), other) == pending(s, other)
            && pending(after(s, Event::Joined(kind, ok)), other) == pending(s, other),
{
}

/// An authority starts with no pending task and no failure; a spawn or a join
/// of a reading task touches only the reading count, one of an action task
/// only the action count.
pub proof fn law_authority_fields(s: AuthorityView, ok: bool)
    ensures
        initial().recursion == 0 && initial().action == 0 && !initial().failed,
        after(s, Event::Spawned(TaskKind::Recursion)) == (AuthorityView { recursion: s.recursion + 1, ..s }),
        after(s, Event::Spawned(TaskKind::Action)) == (AuthorityView { action: s.action + 1, ..s }),
        s.recursion > 0 ==> after(s, Event::Joined(TaskKind::Recursion, ok)) == (AuthorityView {
            recursion: (s.recursion - 1) as nat,
            action: s.action,
            failed: s.failed || !ok,
        }),
        s.action > 0 ==> after(s, Event::Joined(TaskKind::Action, ok)) == (AuthorityView {
            recursion: s.recursion,
            action: (s.action - 1) as nat,
            failed: s.failed || !ok,
        }),
        pending(s, TaskKind::Recursion) == s.recursion,
        pending(s, TaskKind::Action) == s.action,
{
}

/// The authority fails exactly when a joined task has failed; otherwise it
/// finishes exactly when no task is pending, and else polls every set that has
/// pending tasks and only those.
pub proof fn law_step_in_terms_of_state(s: AuthorityView)
    ensures
        (next_step(s) == Step::Fail) == s.failed,
        (next_step(s) == Step::Finish) == (!s.failed && s.recursion == 0 && s.action == 0),
        !s.failed && (s.recursion > 0 || s.action > 0)
            ==> next_step(s) == (Step::Poll { recursion: s.recursion > 0, action: s.action > 0 }),
{
}

/// The state after a sequence of events, from `s`.
pub open spec fn after_all(s: AuthorityView, events: Seq<Event>) -> AuthorityView
    decreases events.len(),
{
    if events.len() == 0 {
        s
    } else {
        after(after_all(s, events.drop_last()), events.last())
    }
}

/// How many tasks of `kind` the events spawn.
pub open spec fn spawned(events: Seq<Event>, kind: TaskKind) -> nat
    decreases events.len(),
{
    if events.len() == 0 {
        0
    } else {
        spawned(events.drop_last(), kind) + if events.last() == Event::Spawned(kind) { 1nat } else { 0nat }
    }
}

/// How many tasks of `kind` the events join.
pub open spec fn joined(events: Seq<Event>, kind: TaskKind) -> nat
    decreases events.len(),
{
    if events.len() == 0 {
        0
    } else {
        joined(events.drop_last(), kind) + if events.last() matches Event::Joined(k, _) && k == kind { 1nat } else { 0nat }
    }
}

/// Whether one of the events joins a failed task.
pub open spec fn any_failed(events: Seq<Event>) -> bool
    decreases events.len(),
{
    if events.len() == 0 {
        false
    } else {
        any_failed(events.drop_last()) || events.last() matches Event::Joined(_, false)
    }
}

/// Every join is of a task that was spawned and not yet joined.
pub open spec fn well_ordered(events: Seq<Event>) -> bool
    decreases events.len(),
{
    if events.len() == 0 {
        true
    } else {
        &&& well_ordered(events.drop_last())
        &&& events.last() matches Event::Joined(k, _) ==> pending(after_all(initial(), events.drop_last()), k) > 0
    }
}

/// From the start, the authority counts exactly the spawned tasks that are not
/// yet joined, and remembers whether any joined task failed; so it finishes
/// exactly when every spawned task has been joined and none failed, and a
/// failure ends the crawl whatever comes after it.
pub proof fn law_authority_counts(events: Seq<Event>)
    requires
        well_ordered(events),
    ensures
        after_all(initial(), events).recursion + joined(events, TaskKind::Recursion)
            == spawned(events, TaskKind::Recursion),
        after_all(initial(), events).action + joined(events, TaskKind::Action)
            == spawned(events, TaskKind::Action),
        after_all(initial(), events).failed == any_failed(events),
        (next_step(after_all(initial(), events)) == Step::Finish) <==> (
            spawned(events, TaskKind::Recursion) == joined(events, TaskKind::Recursion)
            && spawned(events, TaskKind::Action) == joined(events, TaskKind::Action)
            && !any_failed(events)),
        (next_step(after_all(initial(), events)) == Step::Fail) == any_failed(events),
        !any_failed(events) && next_step(after_all(initial(), events)) != Step::Finish
            ==> next_step(after_all(initial(), events)) == (Step::Poll {
                recursion: spawned(events, TaskKind::Recursion) > joined(events, TaskKind::Recursion),
                action: spawned(events, TaskKind::Action) > joined(events, TaskKind::Action),
            }),
    decreases events.len(),
{
    if events.len() > 0 {
        law_authority_counts(events.drop_last());
    }
}

} // verus!

//! Listing the files to search.
//!
//! The `ignore` crate walks each root and applies `.gitignore`, `.ignore`, the
//! hidden-file rule and the inc_globs/exclude globs; the walker keeps the entries
//! that are files.

use std::path::PathBuf;

use ignore::overrides::{Override, OverrideBuilder};
use ignore::{Walk, WalkBuilder};
use vstd::prelude::*;

use crate::error::{io_error_other, ErrorView, SearchError, SearchResult};
use crate::search::config::SearchConfig;
use crate::util::text::joined;

verus! {

/// An `ignore` walk being configured.
#[verifier::external_type_specification]
#[verifier::external_body]
pub struct ExWalkBuilder(WalkBuilder);

/// An `ignore` walk.
#[verifier::external_type_specification]
#[verifier::external_body]
pub struct ExWalk(Walk);

/// An entry that an `ignore` walk yields.
#[verifier::external_type_specification]
#[verifier::external_body]
pub struct ExDirEntry(ignore::DirEntry);

/// An error that an `ignore` walk yields.
#[verifier::external_type_specification]
#[verifier::external_body]
pub struct ExIgnoreError(ignore::Error);

/// A set of `ignore` glob overrides being built.
#[verifier::external_type_specification]
#[verifier::external_body]
pub struct ExOverrideBuilder(OverrideBuilder);

/// A built set of `ignore` glob overrides.
#[verifier::external_type_specification]
#[verifier::external_body]
pub struct ExOverride(Override);

/// One entry that a walk yielded.
pub struct WalkEntry {
    /// Its path.
    pub path: PathBuf,
    /// Whether it is a regular file; `None` where the entry has no file type.
    pub is_file: Option<bool>,
}

// ---------------------------------------------------------------------------
// The `ignore` crate
// ---------------------------------------------------------------------------

/// `WalkBuilder::new`.
#[verifier::external_body]
fn walk_builder_new(root: &PathBuf) -> WalkBuilder {
    WalkBuilder::new(root)
}

/// `WalkBuilder::add`: one more root.
#[verifier::external_body]
fn walk_builder_add(builder: &mut WalkBuilder, root: &PathBuf) {
    builder.add(root);
}

/// `WalkBuilder::hidden`: whether hidden files are skipped.
#[verifier::external_body]
fn walk_builder_hidden(builder: &mut WalkBuilder, yes: bool) {
    builder.hidden(yes);
}

/// `WalkBuilder::git_ignore`: whether `.gitignore` files are read.
#[verifier::external_body]
fn walk_builder_git_ignore(builder: &mut WalkBuilder, yes: bool) {
    builder.git_ignore(yes);
}

/// `WalkBuilder::git_exclude`: whether `.git/info/exclude` is read.
#[verifier::external_body]
fn walk_builder_git_exclude(builder: &mut WalkBuilder, yes: bool) {
    builder.git_exclude(yes);
}

/// `WalkBuilder::git_global`: whether the global git ignore file is read.
#[verifier::external_body]
fn walk_builder_git_global(builder: &mut WalkBuilder, yes: bool) {
    builder.git_global(yes);
}

/// `WalkBuilder::parents`: whether ignore files of parent directories are read.
#[verifier::external_body]
fn walk_builder_parents(builder: &mut WalkBuilder, yes: bool) {
    builder.parents(yes);
}

/// `WalkBuilder::ignore`: whether `.ignore` files are read.
#[verifier::external_body]
fn walk_builder_ignore(builder: &mut WalkBuilder, yes: bool) {
    builder.ignore(yes);
}

/// `WalkBuilder::overrides`: the inc_globs/exclude globs.
#[verifier::external_body]
fn walk_builder_overrides(builder: &mut WalkBuilder, overrides: Override) {
    builder.overrides(overrides);
}

/// `WalkBuilder::build`.
#[verifier::external_body]
fn walk_builder_build(builder: &WalkBuilder) -> Walk {
    builder.build()
}

/// The entries of a walk, in the order `Walk::next` yields them, each entry
/// reduced to its path and whether it is a file, each error to its message.
/// What the walk yields depends on the disk.
#[verifier::external_body]
fn walk_entries(walk: Walk) -> Vec<Result<WalkEntry, String>> {
    walk.map(|entry| match entry {
        Ok(e) => Ok(WalkEntry { is_file: e.file_type().map(|t| t.is_file()), path: e.into_path() }),
        Err(err) => Err(err.to_string()),
    }).collect()
}

/// `OverrideBuilder::new`: globs relative to `root`.
#[verifier::external_body]
fn override_builder_new(root: &PathBuf) -> OverrideBuilder {
    OverrideBuilder::new(root)
}

/// The message of the error that `OverrideBuilder::add` gives for `glob`, or
/// `None` where the glob parses.
pub uninterp spec fn glob_error(glob: Seq<char>) -> Option<Seq<char>>;

/// `OverrideBuilder::add`, its error reduced to its message. Whether a glob
/// parses, and the message, depend on the glob alone.
#[verifier::external_body]
fn override_builder_add(builder: &mut OverrideBuilder, glob: &str) -> (r: Option<String>)
    ensures
        match r {
            None => glob_error(glob@) is None,
            Some(m) => glob_error(glob@) == Some(m@),
        },
{
    match builder.add(glob) {
        Ok(_) => None,
        Err(e) => Some(e.to_string()),
    }
}

/// The message of the error that `OverrideBuilder::build` gives once the
/// globs `globs` were added (without error) to a new builder, or `None` where
/// the overrides build. It depends on those globs alone.
pub uninterp spec fn override_build_error(globs: Seq<Seq<char>>) -> Option<Seq<char>>;

/// `OverrideBuilder::build` of the plan's builder, its error reduced to its
/// message.
#[verifier::external_body]
fn override_builder_build(plan: &GlobPlan) -> (r: Result<Override, String>)
    ensures
        match r {
            Ok(_) => override_build_error(plan@) is None,
            Err(m) => override_build_error(plan@) == Some(m@),
        },
{
    plan.builder.build().map_err(|e| e.to_string())
}

/// `PathBuf::from(".")`: the current directory.
#[verifier::external_body]
fn current_dir() -> PathBuf {
    PathBuf::from(".")
}

// ---------------------------------------------------------------------------
// Specification
// ---------------------------------------------------------------------------

/// The files among walk entries, or the message of the first error met.
pub open spec fn spec_collect_files(entries: Seq<Result<WalkEntry, String>>) -> Result<Seq<PathBuf>, Seq<char>>
    decreases entries.len(),
{
    if entries.len() == 0 {
        Ok(Seq::empty())
    } else {
        match entries[0] {
            Err(m) => Err(m@),
            Ok(e) => match spec_collect_files(entries.drop_first()) {
                Err(m) => Err(m),
                Ok(rest) => if e.is_file == Some(true) {
                    Ok(seq![e.path] + rest)
                } else {
                    Ok(rest)
                },
            },
        }
    }
}

/// `acc` in front of what a collection gives.
pub open spec fn prepend_files(acc: Seq<PathBuf>, r: Result<Seq<PathBuf>, Seq<char>>) -> Result<Seq<PathBuf>, Seq<char>> {
    match r {
        Ok(rest) => Ok(acc + rest),
        Err(m) => Err(m),
    }
}

/// The message of an include glob that does not parse.
pub open spec fn bad_include_message(glob: Seq<char>, err: Seq<char>) -> Seq<char> {
    "无效的 include glob '"@ + glob + "': "@ + err
}

/// The message of an exclude glob that does not parse.
pub open spec fn bad_exclude_message(glob: Seq<char>, err: Seq<char>) -> Seq<char> {
    "无效的 exclude glob '"@ + glob + "': "@ + err
}

/// The exclude form of a glob: `!` in front.
pub open spec fn negated(glob: Seq<char>) -> Seq<char> {
    "!"@ + glob
}

/// The first include glob (from index `i` on) that does not parse, as its
/// error message.
pub open spec fn first_bad_include(globs: Seq<String>, i: int) -> Option<Seq<char>>
    decreases globs.len() - i,
{
    if i >= globs.len() || i < 0 {
        None
    } else if glob_error(globs[i]@) is Some {
        Some(bad_include_message(globs[i]@, glob_error(globs[i]@)->0))
    } else {
        first_bad_include(globs, i + 1)
    }
}

/// The first exclude glob (from index `i` on) whose `!` form does not parse,
/// as its error message.
pub open spec fn first_bad_exclude(globs: Seq<String>, i: int) -> Option<Seq<char>>
    decreases globs.len() - i,
{
    if i >= globs.len() || i < 0 {
        None
    } else if glob_error(negated(globs[i]@)) is Some {
        Some(bad_exclude_message(globs[i]@, glob_error(negated(globs[i]@))->0))
    } else {
        first_bad_exclude(globs, i + 1)
    }
}

/// The message of the first glob that does not parse: include globs first,
/// then exclude globs.
pub open spec fn first_bad_glob(cfg: SearchConfig) -> Option<Seq<char>> {
    match first_bad_include(cfg.include_globs@, 0) {
        Some(m) => Some(m),
        None => first_bad_exclude(cfg.exclude_globs@, 0),
    }
}

/// The configuration filters files by glob.
pub open spec fn has_globs(cfg: SearchConfig) -> bool {
    cfg.include_globs@.len() > 0 || cfg.exclude_globs@.len() > 0
}

// ---------------------------------------------------------------------------
// The walker
// ---------------------------------------------------------------------------

/// The files among walk entries, in order; the first error met stops the
/// collection and becomes an I/O error.
pub fn collect_files(entries: Vec<Result<WalkEntry, String>>) -> (r: SearchResult<Vec<PathBuf>>)
    ensures
        match spec_collect_files(entries@) {
            Ok(paths) => r matches Ok(v) && v@ == paths,
            Err(_) => r matches Err(e) && e@ == ErrorView::Io,
        },
{
    let ghost all = entries@;
    let mut files: Vec<PathBuf> = Vec::new();
    let mut i: usize = 0;
    assert(all.skip(0) =~= all);
    while i < entries.len()
        invariant
            i <= all.len(),
            entries@ == all,
            spec_collect_files(all) == prepend_files(files@, spec_collect_files(all.skip(i as int))),
        decreases all.len() - i,
    {
        proof {
            assert(all.skip(i as int)[0] == all[i as int]);
            assert(all.skip(i as int).drop_first() =~= all.skip(i + 1));
        }
        match &entries[i] {
            Err(m) => {
                let msg = joined("遍历失败: ", m.as_str());
                return Err(SearchError::Io(io_error_other(msg)));
            },
            Ok(e) => {
                if let Some(true) = e.is_file {
                    let ghost before = files@;
                    files.push(e.path.clone());
                    proof {
                        assert forall|rest_paths: Seq<PathBuf>| true implies before + (seq![files@.last()]
                            + rest_paths) =~= files@ + rest_paths by {}
                    }
                }
            },
        }
        i = i + 1;
    }
    assert(all.skip(i as int) =~= Seq::<Result<WalkEntry, String>>::empty());
    assert(files@ + Seq::<PathBuf>::empty() =~= files@);
    Ok(files)
}

// ---------------------------------------------------------------------------
// What is handed to a walk
// ---------------------------------------------------------------------------

/// The settings handed to a walk: the roots in order, each option as it was
/// last set (`None` where it was never set), and the globs of the overrides,
/// where overrides were set.
pub struct WalkSettings {
    pub roots: Seq<PathBuf>,
    pub hidden: Option<bool>,
    pub git_ignore: Option<bool>,
    pub git_exclude: Option<bool>,
    pub git_global: Option<bool>,
    pub parents: Option<bool>,
    pub ignore: Option<bool>,
    pub overrides: Option<Seq<Seq<char>>>,
}

/// The settings of a walk over `roots` before any option is set.
pub open spec fn fresh_settings(roots: Seq<PathBuf>) -> WalkSettings {
    WalkSettings {
        roots,
        hidden: None,
        git_ignore: None,
        git_exclude: None,
        git_global: None,
        parents: None,
        ignore: None,
        overrides: None,
    }
}

/// `s` with the rules of every search: hidden files skipped unless
/// `search_hidden`, and all five ignore sources read.
pub open spec fn with_rules(s: WalkSettings, search_hidden: bool) -> WalkSettings {
    WalkSettings {
        roots: s.roots,
        hidden: Some(!search_hidden),
        git_ignore: Some(true),
        git_exclude: Some(true),
        git_global: Some(true),
        parents: Some(true),
        ignore: Some(true),
        overrides: s.overrides,
    }
}

/// `s` with the overrides `globs`.
pub open spec fn with_overrides(s: WalkSettings, globs: Seq<Seq<char>>) -> WalkSettings {
    WalkSettings {
        roots: s.roots,
        hidden: s.hidden,
        git_ignore: s.git_ignore,
        git_exclude: s.git_exclude,
        git_global: s.git_global,
        parents: s.parents,
        ignore: s.ignore,
        overrides: Some(globs),
    }
}

/// The globs of a configuration as the overrides take them: the include globs
/// as they are, then the exclude globs with `!` in front.
pub open spec fn glob_list(cfg: SearchConfig) -> Seq<Seq<char>> {
    cfg.include_globs@.map_values(|g: String| g@) + cfg.exclude_globs@.map_values(|g: String| negated(g@))
}

/// The globs among `globs` that parse, in order.
pub open spec fn parsing_globs(globs: Seq<Seq<char>>) -> Seq<Seq<char>>
    decreases globs.len(),
{
    if globs.len() == 0 {
        Seq::empty()
    } else if glob_error(globs.last()) is None {
        parsing_globs(globs.drop_last()).push(globs.last())
    } else {
        parsing_globs(globs.drop_last())
    }
}

/// The configuration has globs, and one of them does not parse or their
/// overrides do not build.
pub open spec fn globs_fail(cfg: SearchConfig) -> bool {
    has_globs(cfg) && (first_bad_glob(cfg) is Some || override_build_error(glob_list(cfg)) is Some)
}

/// The settings of the walk of one root: the rules of every search, and the
/// overrides of the configuration's globs where it has globs.
pub open spec fn root_settings(cfg: SearchConfig, root: PathBuf) -> WalkSettings {
    let base = with_rules(fresh_settings(seq![root]), cfg.search_hidden);
    if has_globs(cfg) {
        with_overrides(base, glob_list(cfg))
    } else {
        base
    }
}

/// The settings of the walk over `roots`: the rules of every search, and,
/// where the configuration has globs, overrides of the globs that parse,
/// when those build.
pub open spec fn walk_settings(cfg: SearchConfig, roots: Seq<PathBuf>) -> WalkSettings {
    let base = with_rules(fresh_settings(roots), cfg.search_hidden);
    if has_globs(cfg) && override_build_error(parsing_globs(glob_list(cfg))) is None {
        with_overrides(base, parsing_globs(glob_list(cfg)))
    } else {
        base
    }
}

/// A `WalkBuilder` with the record of the settings the library handed to it.
pub struct WalkPlan {
    builder: WalkBuilder,
    settings: Ghost<WalkSettings>,
}

impl View for WalkPlan {
    type V = WalkSettings;

    closed spec fn view(&self) -> WalkSettings {
        self.settings@
    }
}

impl WalkPlan {
    /// A walk of `root`.
    pub fn new(root: &PathBuf) -> (p: Self)
        ensures
            p@ == fresh_settings(seq![*root]),
    {
        WalkPlan { builder: walk_builder_new(root), settings: Ghost(fresh_settings(seq![*root])) }
    }

    /// One more root, walked after the others.
    pub fn add_root(&mut self, root: &PathBuf)
        ensures
            final(self)@ == (WalkSettings { roots: old(self)@.roots.push(*root), ..old(self)@ }),
    {
        walk_builder_add(&mut self.builder, root);
        proof {
            self.settings = Ghost(WalkSettings { roots: self.settings@.roots.push(*root), ..self.settings@ });
        }
    }

    /// Whether hidden files are skipped.
    pub fn hidden(&mut self, yes: bool)
        ensures
            final(self)@ == (WalkSettings { hidden: Some(yes), ..old(self)@ }),
    {
        walk_builder_hidden(&mut self.builder, yes);
        proof {
            self.settings = Ghost(WalkSettings { hidden: Some(yes), ..self.settings@ });
        }
    }

    /// Whether `.gitignore` files are read.
    pub fn git_ignore(&mut self, yes: bool)
        ensures
            final(self)@ == (WalkSettings { git_ignore: Some(yes), ..old(self)@ }),
    {
        walk_builder_git_ignore(&mut self.builder, yes);
        proof {
            self.settings = Ghost(WalkSettings { git_ignore: Some(yes), ..self.settings@ });
        }
    }

    /// Whether `.git/info/exclude` is read.
    pub fn git_exclude(&mut self, yes: bool)
        ensures
            final(self)@ == (WalkSettings { git_exclude: Some(yes), ..old(self)@ }),
    {
        walk_builder_git_exclude(&mut self.builder, yes);
        proof {
            self.settings = Ghost(WalkSettings { git_exclude: Some(yes), ..self.settings@ });
        }
    }

    /// Whether the global git ignore file is read.
    pub fn git_global(&mut self, yes: bool)
        ensures
            final(self)@ == (WalkSettings { git_global: Some(yes), ..old(self)@ }),
    {
        walk_builder_git_global(&mut self.builder, yes);
        proof {
            self.settings = Ghost(WalkSettings { git_global: Some(yes), ..self.settings@ });
        }
    }

    /// Whether the ignore files of parent directories are read.
    pub fn parents(&mut self, yes: bool)
        ensures
            final(self)@ == (WalkSettings { parents: Some(yes), ..old(self)@ }),
    {
        walk_builder_parents(&mut self.builder, yes);
        proof {
            self.settings = Ghost(WalkSettings { parents: Some(yes), ..self.settings@ });
        }
    }

    /// Whether `.ignore` files are read.
    pub fn ignore(&mut self, yes: bool)
        ensures
            final(self)@ == (WalkSettings { ignore: Some(yes), ..old(self)@ }),
    {
        walk_builder_ignore(&mut self.builder, yes);
        proof {
            self.settings = Ghost(WalkSettings { ignore: Some(yes), ..self.settings@ });
        }
    }

    /// The overrides built from a glob plan.
    pub fn overrides(&mut self, o: GlobOverrides)
        ensures
            final(self)@ == with_overrides(old(self)@, o@),
    {
        let ghost globs = o@;
        walk_builder_overrides(&mut self.builder, o.overrides);
        proof {
            self.settings = Ghost(with_overrides(self.settings@, globs));
        }
    }

    /// The walk.
    pub fn build(&self) -> Walk {
        walk_builder_build(&self.builder)
    }

    /// Walks with these settings and gathers what the walk yields.
    pub fn run(&self) -> (r: RootWalk)
        ensures
            r.settings@ == self@,
    {
        RootWalk { entries: walk_entries(self.build()), settings: Ghost(self@) }
    }
}

/// What the walk of one root yielded, with the settings that walk was
/// built from.
pub struct RootWalk {
    pub entries: Vec<Result<WalkEntry, String>>,
    pub settings: Ghost<WalkSettings>,
}

/// An `OverrideBuilder` with the globs it took, in order.
pub struct GlobPlan {
    builder: OverrideBuilder,
    globs: Ghost<Seq<Seq<char>>>,
}

impl View for GlobPlan {
    type V = Seq<Seq<char>>;

    closed spec fn view(&self) -> Seq<Seq<char>> {
        self.globs@
    }
}

impl GlobPlan {
    /// Overrides relative to `root`, without globs.
    pub fn new(root: &PathBuf) -> (p: Self)
        ensures
            p@ == Seq::<Seq<char>>::empty(),
    {
        GlobPlan { builder: override_builder_new(root), globs: Ghost(Seq::empty()) }
    }

    /// Adds a glob; a glob that does not parse is left out, and its message returned.
    pub fn add(&mut self, glob: &str) -> (r: Option<String>)
        ensures
            match r {
                None => glob_error(glob@) is None && final(self)@ == old(self)@.push(glob@),
                Some(m) => glob_error(glob@) == Some(m@) && final(self)@ == old(self)@,
            },
    {
        let r = override_builder_add(&mut self.builder, glob);
        proof {
            if r is None {
                self.globs = Ghost(self.globs@.push(glob@));
            }
        }
        r
    }

    /// The overrides of the globs taken, or the message of why they do not build.
    pub fn build(&self) -> (r: Result<GlobOverrides, String>)
        ensures
            match r {
                Ok(o) => override_build_error(self@) is None && o@ == self@,
                Err(m) => override_build_error(self@) == Some(m@),
            },
    {
        match override_builder_build(self) {
            Ok(o) => Ok(GlobOverrides { overrides: o, globs: Ghost(self.globs@) }),
            Err(m) => Err(m),
        }
    }
}

/// Built overrides, with the globs they were built from.
pub struct GlobOverrides {
    overrides: Override,
    globs: Ghost<Seq<Seq<char>>>,
}

impl View for GlobOverrides {
    type V = Seq<Seq<char>>;

    closed spec fn view(&self) -> Seq<Seq<char>> {
        self.globs@
    }
}


/// The files of the walks of several roots, root after root, or the message
/// of the first error met, in the first walk that meets one.
pub open spec fn spec_files_of_walks(walks: Seq<Vec<Result<WalkEntry, String>>>) -> Result<Seq<PathBuf>, Seq<char>>
    decreases walks.len(),
{
    if walks.len() == 0 {
        Ok(Seq::empty())
    } else {
        match spec_collect_files(walks[0]@) {
            Err(m) => Err(m),
            Ok(first) => prepend_files(first, spec_files_of_walks(walks.drop_first())),
        }
    }
}

/// The walk entries hold an error.
pub open spec fn walk_failed(entries: Seq<Result<WalkEntry, String>>) -> bool {
    exists|i: int| 0 <= i < entries.len() && #[trigger] entries[i] is Err
}

/// A collection fails exactly where an entry is an error.
proof fn lemma_collect_fails_on_error(entries: Seq<Result<WalkEntry, String>>)
    ensures
        spec_collect_files(entries) is Err <==> walk_failed(entries),
    decreases entries.len(),
{
    if entries.len() > 0 {
        let rest = entries.drop_first();
        lemma_collect_fails_on_error(rest);
        if walk_failed(rest) {
            let i = choose|i: int| 0 <= i < rest.len() && #[trigger] rest[i] is Err;
            assert(entries[i + 1] is Err);
        }
        if walk_failed(entries) && entries[0] is Ok {
            let i = choose|i: int| 0 <= i < entries.len() && #[trigger] entries[i] is Err;
            assert(rest[i - 1] is Err);
        }
    }
}

/// Joining walks fails where one of them met an error.
proof fn lemma_files_of_walks_fails(walks: Seq<Vec<Result<WalkEntry, String>>>, k: int)
    requires
        0 <= k < walks.len(),
        spec_collect_files(walks[k]@) is Err,
    ensures
        spec_files_of_walks(walks) is Err,
    decreases walks.len(),
{
    if k > 0 {
        let rest = walks.drop_first();
        assert(rest[k - 1] == walks[k]);
        lemma_files_of_walks_fails(rest, k - 1);
    }
}

/// Whether a walk met an error.
pub fn walk_has_error(entries: &Vec<Result<WalkEntry, String>>) -> (r: bool)
    ensures
        r == walk_failed(entries@),
        r == spec_collect_files(entries@) is Err,
{
    proof {
        lemma_collect_fails_on_error(entries@);
    }
    let mut i: usize = 0;
    while i < entries.len()
        invariant
            i <= entries@.len(),
            forall|j: int| 0 <= j < i ==> !(#[trigger] entries@[j] is Err),
        decreases entries@.len() - i,
    {
        if entries[i].is_err() {
            assert(entries@[i as int] is Err);
            proof {
                lemma_collect_fails_on_error(entries@);
            }
            return true;
        }
        i = i + 1;
    }
    false
}

/// The files of the walks of several roots, root after root, in order; the
/// first walk that met an error stops the collection with an I/O error.
pub fn files_of_walks(per_root: Vec<Vec<Result<WalkEntry, String>>>) -> (r: SearchResult<Vec<PathBuf>>)
    ensures
        match spec_files_of_walks(per_root@) {
            Ok(paths) => r matches Ok(v) && v@ == paths,
            Err(_) => r matches Err(e) && e@ == ErrorView::Io,
        },
{
    let ghost all = per_root@;
    let mut files: Vec<PathBuf> = Vec::new();
    let ghost mut i: int = 0;
    assert(all.skip(0) =~= all);
    for entries in it: per_root.into_iter()
        invariant
            it.seq() == all,
            i == it.index(),
            0 <= i <= all.len(),
            spec_files_of_walks(all) == prepend_files(files@, spec_files_of_walks(all.skip(i))),
    {
        proof {
            assert(all.skip(i)[0] == all[i]);
            assert(all.skip(i).drop_first() =~= all.skip(i + 1));
        }
        match collect_files(entries) {
            Ok(mut found) => {
                let ghost before = files@;
                let ghost got = found@;
                files.append(&mut found);
                proof {
                    assert forall|rest: Seq<PathBuf>| true implies before + (got + rest) =~= files@ + rest by {}
                }
            },
            Err(e) => {
                return Err(e);
            },
        }
        proof {
            i = i + 1;
        }
    }
    proof {
        assert(all.skip(i) =~= Seq::<Vec<Result<WalkEntry, String>>>::empty());
        assert(files@ + Seq::<PathBuf>::empty() =~= files@);
    }
    Ok(files)
}

/// A walk, with the settings it was built with.
pub struct PlannedWalk {
    walk: Walk,
    settings: Ghost<WalkSettings>,
}

impl View for PlannedWalk {
    type V = WalkSettings;

    closed spec fn view(&self) -> WalkSettings {
        self.settings@
    }
}

impl PlannedWalk {
    /// The walk itself, to iterate.
    pub fn into_walk(self) -> Walk {
        self.walk
    }
}

/// Lists the files of the configured roots.
pub struct Walker {
    config: SearchConfig,
}

impl Walker {
    /// The configuration the walker follows.
    pub closed spec fn spec_config(&self) -> SearchConfig {
        self.config
    }

    /// A walker for `config`.
    pub fn new(config: SearchConfig) -> (w: Self)
        ensures
            w.spec_config() == config,
    {
        Walker { config }
    }

    /// Sets the rules every walk follows: hidden files as configured, and all
    /// of `.gitignore`, `.git/info/exclude`, the global git ignore file,
    /// parent directories' ignore files and `.ignore`.
    fn configure(&self, plan: &mut WalkPlan)
        ensures
            final(plan)@ == with_rules(old(plan)@, self.config.search_hidden),
    {
        plan.hidden(!self.config.search_hidden);
        plan.git_ignore(true);
        plan.git_exclude(true);
        plan.git_global(true);
        plan.parents(true);
        plan.ignore(true);
    }

    /// The include globs as they are, and the exclude globs with `!` in front,
    /// relative to `root`. It fails exactly when a glob does not parse (the
    /// first such one is reported) or when the overrides do not build.
    fn build_overrides(&self, root: &PathBuf) -> (r: SearchResult<GlobOverrides>)
        ensures
            match r {
                Ok(o) => {
                    &&& first_bad_glob(self.config) is None
                    &&& override_build_error(glob_list(self.config)) is None
                    &&& o@ == glob_list(self.config)
                },
                Err(e) => match first_bad_glob(self.config) {
                    Some(m) => e@ == ErrorView::InvalidPattern(m),
                    None => override_build_error(glob_list(self.config)) is Some && e@
                        == ErrorView::InvalidPattern(
                        "构建 glob 覆盖规则失败: "@ + override_build_error(glob_list(self.config))->0,
                    ),
                },
            },
    {
        let mut plan = GlobPlan::new(root);
        let inc_globs = &self.config.include_globs;
        let ghost incs = inc_globs@.map_values(|g: String| g@);
        let ghost excs = self.config.exclude_globs@.map_values(|g: String| negated(g@));
        let mut i: usize = 0;
        while i < inc_globs.len()
            invariant
                i <= inc_globs@.len(),
                inc_globs@ == self.config.include_globs@,
                incs == inc_globs@.map_values(|g: String| g@),
                first_bad_include(inc_globs@, 0) == first_bad_include(inc_globs@, i as int),
                plan@ == incs.take(i as int),
            decreases inc_globs@.len() - i,
        {
            if let Some(e) = plan.add(inc_globs[i].as_str()) {
                let m = joined("无效的 include glob '", inc_globs[i].as_str());
                let m = joined(m.as_str(), "': ");
                let m = joined(m.as_str(), e.as_str());
                return Err(SearchError::InvalidPattern(m));
            }
            assert(incs.take(i + 1) =~= incs.take(i as int).push(incs[i as int]));
            i = i + 1;
        }
        assert(incs.take(i as int) =~= incs);
        let exclude = &self.config.exclude_globs;
        let mut j: usize = 0;
        while j < exclude.len()
            invariant
                j <= exclude@.len(),
                exclude@ == self.config.exclude_globs@,
                excs == exclude@.map_values(|g: String| negated(g@)),
                first_bad_include(self.config.include_globs@, 0) is None,
                first_bad_exclude(exclude@, 0) == first_bad_exclude(exclude@, j as int),
                plan@ == incs + excs.take(j as int),
            decreases exclude@.len() - j,
        {
            let glob = joined("!", exclude[j].as_str());
            if let Some(e) = plan.add(glob.as_str()) {
                let m = joined("无效的 exclude glob '", exclude[j].as_str());
                let m = joined(m.as_str(), "': ");
                let m = joined(m.as_str(), e.as_str());
                return Err(SearchError::InvalidPattern(m));
            }
            assert(incs + excs.take(j + 1) =~= (incs + excs.take(j as int)).push(excs[j as int]));
            j = j + 1;
        }
        assert(incs + excs.take(j as int) =~= glob_list(self.config));
        match plan.build() {
            Ok(o) => Ok(o),
            Err(e) => Err(SearchError::InvalidPattern(joined("构建 glob 覆盖规则失败: ", e.as_str()))),
        }
    }

    /// What is handed to the walk of one root: the rules of every search,
    /// and the overrides of the globs where there are globs; it fails exactly
    /// where the overrides do.
    pub fn plan_root(&self, root: &PathBuf) -> (r: SearchResult<WalkPlan>)
        ensures
            match r {
                Ok(p) => p@ == root_settings(self.spec_config(), *root) && (has_globs(self.spec_config())
                    ==> first_bad_glob(self.spec_config()) is None && override_build_error(
                    glob_list(self.spec_config()),
                ) is None),
                Err(e) => has_globs(self.spec_config()) && e@ is InvalidPattern && (first_bad_glob(
                    self.spec_config(),
                ) is Some ==> e@ == ErrorView::InvalidPattern(first_bad_glob(self.spec_config())->0))
                    && (first_bad_glob(self.spec_config()) is Some || override_build_error(
                    glob_list(self.spec_config()),
                ) is Some),
            },
    {
        let mut plan = WalkPlan::new(root);
        self.configure(&mut plan);
        if self.config.include_globs.len() > 0 || self.config.exclude_globs.len() > 0 {
            let overrides = match self.build_overrides(root) {
                Ok(o) => o,
                Err(e) => return Err(e),
            };
            plan.overrides(overrides);
        }
        Ok(plan)
    }

    /// The walks of the roots, root after root: the walk of each is built
    /// from the settings of `plan_root` for that root, and the walks stop
    /// after one that met an error. Without roots there are none; a glob that
    /// does not parse is reported as an invalid pattern.
    pub fn root_walks(&self) -> (r: SearchResult<Vec<RootWalk>>)
        ensures
            self.spec_config().roots@.len() == 0 ==> (r matches Ok(ws) && ws@.len() == 0),
            self.spec_config().roots@.len() > 0 && has_globs(self.spec_config()) && first_bad_glob(
                self.spec_config(),
            ) is Some ==> (r matches Err(e) && e@ == ErrorView::InvalidPattern(
                first_bad_glob(self.spec_config())->0,
            )),
            r matches Err(e) ==> (e@ is InvalidPattern && self.spec_config().roots@.len() > 0 && globs_fail(
                self.spec_config(),
            )),
            r matches Ok(ws) ==> {
                &&& ws@.len() <= self.spec_config().roots@.len()
                &&& forall|i: int|
                    0 <= i < ws@.len() ==> (#[trigger] ws@[i]).settings@ == root_settings(
                        self.spec_config(),
                        self.spec_config().roots@[i],
                    )
                &&& forall|i: int| 0 <= i < ws@.len() - 1 ==> !walk_failed((#[trigger] ws@[i]).entries@)
                &&& ws@.len() < self.spec_config().roots@.len() ==> ws@.len() > 0 && walk_failed(
                    ws@.last().entries@,
                )
            },
    {
        let mut walks: Vec<RootWalk> = Vec::new();
        let mut i: usize = 0;
        let mut failed = false;
        while i < self.config.roots.len() && !failed
            invariant
                i <= self.config.roots@.len(),
                i == 0 ==> !failed,
                i > 0 ==> !(has_globs(self.config) && first_bad_glob(self.config) is Some),
                walks@.len() == i,
                forall|j: int|
                    0 <= j < i ==> (#[trigger] walks@[j]).settings@ == root_settings(
                        self.config,
                        self.config.roots@[j],
                    ),
                forall|j: int| 0 <= j < i - 1 ==> !walk_failed((#[trigger] walks@[j]).entries@),
                i > 0 ==> (failed <==> walk_failed(walks@[i - 1].entries@)),
            decreases self.config.roots@.len() - i,
        {
            let plan = match self.plan_root(&self.config.roots[i]) {
                Ok(p) => p,
                Err(e) => return Err(e),
            };
            let walked = plan.run();
            failed = walk_has_error(&walked.entries);
            walks.push(walked);
            i = i + 1;
        }
        Ok(walks)
    }

    /// The files of every root, root after root: the walks of `root_walks`,
    /// whose files `files_of_walks` joins. Without roots there are none; a
    /// glob that does not parse is reported as an invalid pattern, a failure
    /// of the walk as an I/O error. A list comes back only after a walk of
    /// every root.
    pub fn files(&self) -> (r: SearchResult<Vec<PathBuf>>)
        ensures
            self.spec_config().roots@.len() == 0 ==> (r matches Ok(v) && v@.len() == 0),
            self.spec_config().roots@.len() > 0 && has_globs(self.spec_config()) && first_bad_glob(
                self.spec_config(),
            ) is Some ==> (r matches Err(e) && e@ == ErrorView::InvalidPattern(
                first_bad_glob(self.spec_config())->0,
            )),
            r matches Err(e) ==> (e@ == ErrorView::Io || (e@ is InvalidPattern && self.spec_config().roots@.len()
                > 0 && globs_fail(self.spec_config()))),
            r matches Ok(v) ==> exists|walks: Seq<Vec<Result<WalkEntry, String>>>|
                walks.len() == self.spec_config().roots@.len() && #[trigger] spec_files_of_walks(walks) == Ok::<
                    Seq<PathBuf>,
                    Seq<char>,
                >(v@),
    {
        let root_walks = match self.root_walks() {
            Ok(ws) => ws,
            Err(e) => return Err(e),
        };
        let ghost made = root_walks@;
        let mut walks: Vec<Vec<Result<WalkEntry, String>>> = Vec::new();
        for walked in it: root_walks.into_iter()
            invariant
                it.seq() == made,
                walks@.len() == it.index(),
                forall|j: int| 0 <= j < walks@.len() ==> #[trigger] walks@[j] == made[j].entries,
        {
            walks.push(walked.entries);
        }
        proof {
            let n = made.len() as int;
            if n == 0 {
                assert(walks@ =~= Seq::<Vec<Result<WalkEntry, String>>>::empty());
            }
            if n < self.config.roots@.len() {
                assert(walks@[n - 1] == made[n - 1].entries);
                lemma_collect_fails_on_error(walks@[n - 1]@);
                lemma_files_of_walks_fails(walks@, n - 1);
            }
        }
        let ghost joined_walks = walks@;
        let r = files_of_walks(walks);
        proof {
            if let Ok(v) = &r {
                assert(spec_files_of_walks(joined_walks) == Ok::<Seq<PathBuf>, Seq<char>>(v@));
            }
        }
        r
    }

    /// What is handed to the one walk over all roots (the current directory
    /// where there is none): the roots in order, the rules of every search,
    /// and, where there are globs, overrides of the globs that parse, when
    /// those build.
    pub fn plan_walk(&self) -> (p: WalkPlan)
        ensures
            self.spec_config().roots@.len() > 0 ==> p@.roots == self.spec_config().roots@,
            self.spec_config().roots@.len() == 0 ==> p@.roots.len() == 1,
            p@ == walk_settings(self.spec_config(), p@.roots),
    {
        let config = &self.config;
        let first_root = if config.roots.len() > 0 {
            config.roots[0].clone()
        } else {
            current_dir()
        };
        let mut plan = WalkPlan::new(&first_root);
        let mut i: usize = 1;
        while i < config.roots.len()
            invariant
                1 <= i,
                config.roots@.len() > 0 ==> i <= config.roots@.len() && plan@.roots == config.roots@.take(
                    i as int,
                ),
                config.roots@.len() == 0 ==> plan@.roots.len() == 1,
                plan@ == fresh_settings(plan@.roots),
            decreases config.roots@.len() - i,
        {
            plan.add_root(&config.roots[i]);
            assert(config.roots@.take(i + 1) =~= config.roots@.take(i as int).push(config.roots@[i as int]));
            i = i + 1;
        }
        proof {
            if config.roots@.len() > 0 {
                assert(config.roots@.take(i as int) =~= config.roots@);
            }
        }
        self.configure(&mut plan);
        if config.include_globs.len() > 0 || config.exclude_globs.len() > 0 {
            let mut globs = GlobPlan::new(&first_root);
            let ghost incs = config.include_globs@.map_values(|g: String| g@);
            let ghost excs = config.exclude_globs@.map_values(|g: String| negated(g@));
            let mut j: usize = 0;
            while j < config.include_globs.len()
                invariant
                    j <= config.include_globs@.len(),
                    incs == config.include_globs@.map_values(|g: String| g@),
                    globs@ == parsing_globs(incs.take(j as int)),
                decreases config.include_globs@.len() - j,
            {
                let _ = globs.add(config.include_globs[j].as_str());
                assert(incs.take(j + 1).drop_last() =~= incs.take(j as int));
                j = j + 1;
            }
            assert(incs.take(j as int) =~= incs);
            let mut k: usize = 0;
            while k < config.exclude_globs.len()
                invariant
                    k <= config.exclude_globs@.len(),
                    excs == config.exclude_globs@.map_values(|g: String| negated(g@)),
                    globs@ == parsing_globs(incs + excs.take(k as int)),
                decreases config.exclude_globs@.len() - k,
            {
                let glob = joined("!", config.exclude_globs[k].as_str());
                let _ = globs.add(glob.as_str());
                assert((incs + excs.take(k + 1)).drop_last() =~= incs + excs.take(k as int));
                k = k + 1;
            }
            assert(incs + excs.take(k as int) =~= glob_list(*config));
            if let Ok(overrides) = globs.build() {
                plan.overrides(overrides);
            }
        }
        plan
    }

    /// One walk over all roots (the current directory where there is none),
    /// with the settings of `plan_walk`, for a caller that searches files as
    /// they come. Globs that do not parse are left out here; `files` reports
    /// them.
    pub fn walk(self) -> (r: PlannedWalk)
        ensures
            self.spec_config().roots@.len() > 0 ==> r@.roots == self.spec_config().roots@,
            self.spec_config().roots@.len() == 0 ==> r@.roots.len() == 1,
            r@ == walk_settings(self.spec_config(), r@.roots),
    {
        let plan = self.plan_walk();
        PlannedWalk { walk: plan.build(), settings: Ghost(plan@) }
    }
}

} // verus!

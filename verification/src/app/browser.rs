//! The repository browser, adding repositories, and path completion.
use vstd::prelude::*;

use super::helpers::{
    common_prefix, common_prefix_of, display_path, display_path_for_ui, file_name_of, lowercase_of,
    path_file_name, unicode_lowercase,
};
use super::jobs::{Job, OpenOrigin};
use super::preview::bounded;
use super::status_tab::{only_says, status_set};
use super::finish::error_text;
use super::{App, BrowserEntry, InputMode, Screen};
use crate::git::status::{byte_len, utf8_width};
use crate::order::{sort_indices_by_str, stably_sorted_by_str};
use crate::repo_registry::{canonical_repo_path, normalize_repo_path_input, paths_of, pick_paths, unquoted};
use crate::runtime_paths::{path_join_on, path_join_on_exec};
use crate::text::{
    cat, chars_of, join, join_strings, lemma_filter_map_step, owned, starts_with, starts_with_str, str_eq,
    string_of, trim, views,
};

verus! {

/// A browser entry as plain values: name, path, directory, repository root.
pub type EntryModel = (Seq<char>, Seq<char>, bool, bool);

pub open spec fn entry_model(e: BrowserEntry) -> EntryModel {
    (e.name@, e.path@, e.is_dir, e.is_git_root)
}

pub open spec fn entries_model(v: Seq<BrowserEntry>) -> Seq<EntryModel> {
    v.map_values(|e: BrowserEntry| entry_model(e))
}

/// The entries the browser lists: all, or those not starting with a dot.
pub open spec fn listed_entries(v: Seq<EntryModel>, show_hidden: bool) -> Seq<EntryModel> {
    v.filter_map(|e: EntryModel| if show_hidden || !starts_with(e.0, "."@) { Some(e) } else { None })
}

/// The order of the browser: directories first, then by lower-cased name.
pub open spec fn browser_key(e: EntryModel) -> Seq<char> {
    seq![if e.2 { '0' } else { '1' }] + lowercase_of(e.0)
}

pub open spec fn browser_keys(v: Seq<EntryModel>) -> Seq<Seq<char>> {
    v.map_values(|e: EntryModel| browser_key(e))
}

pub open spec fn pick_entries(v: Seq<EntryModel>, idx: Seq<usize>) -> Seq<EntryModel> {
    idx.map_values(|i: usize| v[i as int])
}

/// The first position of `c` in `v`, if it is there.
pub open spec fn first_index_of(v: Seq<Seq<char>>, c: Seq<char>) -> Option<int>
    decreases v.len(),
{
    if v.len() == 0 {
        None
    } else {
        match first_index_of(v.drop_last(), c) {
            Some(i) => Some(i),
            None => if v.last() == c {
                Some(v.len() - 1)
            } else {
                None
            },
        }
    }
}

// ---------------------------------------------------------------------
// Completion
// ---------------------------------------------------------------------
/// A directory entry offered for completion: name and whether it is a directory.
pub type Candidate = (Seq<char>, bool);

pub open spec fn candidates_view(v: Seq<(String, bool)>) -> Seq<Candidate> {
    v.map_values(|c: (String, bool)| (c.0@, c.1))
}

/// The entries whose lower-cased name starts with the lower-cased fragment.
pub open spec fn matching(v: Seq<Candidate>, fragment: Seq<char>) -> Seq<Candidate> {
    v.filter_map(|c: Candidate| if starts_with(lowercase_of(c.0), lowercase_of(fragment)) { Some(c) } else { None })
}

pub open spec fn pick_candidates(v: Seq<Candidate>, idx: Seq<usize>) -> Seq<Candidate> {
    idx.map_values(|i: usize| v[i as int])
}

pub open spec fn names_of(v: Seq<Candidate>) -> Seq<Seq<char>> {
    v.map_values(|c: Candidate| c.0)
}

/// The UTF-8 length of `s`, held to `u64`.
pub open spec fn capped_bytes(s: Seq<char>) -> int {
    if byte_len(s) < u64::MAX {
        byte_len(s)
    } else {
        u64::MAX as int
    }
}

/// Whether the first candidate named `name` is a directory.
pub open spec fn named_dir(v: Seq<Candidate>, name: Seq<char>) -> bool
    decreases v.len(),
{
    if v.len() == 0 {
        false
    } else if v[0].0 == name {
        v[0].1
    } else {
        named_dir(v.drop_first(), name)
    }
}

pub open spec fn separator(windows: bool) -> char {
    if windows {
        '\\'
    } else {
        '/'
    }
}

/// The completed path: the common start of the sorted names where it
/// adds to the fragment, else the first name; a directory gains a separator.
pub open spec fn completed_text(base: Seq<char>, fragment: Seq<char>, sorted: Seq<Candidate>, windows: bool) -> Seq<char> {
    let names = names_of(sorted);
    let cp = common_prefix_of(names);
    let path = if capped_bytes(cp) > capped_bytes(fragment) {
        path_join_on(base, cp, windows)
    } else {
        path_join_on(base, sorted[0].0, windows)
    };
    let fname = match file_name_of(path) {
        Some(n) => n,
        None => Seq::empty(),
    };
    if named_dir(sorted, fname) && !(path.len() > 0 && path.last() == separator(windows)) {
        path.push(separator(windows))
    } else {
        path
    }
}

pub open spec fn first_names(names: Seq<Seq<char>>, n: int) -> Seq<char> {
    join(names.take(if names.len() < n { names.len() as int } else { n }), ", "@)
}

fn byte_length(s: &str) -> (res: u64)
    ensures
        res == capped_bytes(s@),
{
    let v = chars_of(s);
    let mut acc: u64 = 0;
    let mut i: usize = 0;
    assert(v@.skip(0) =~= v@);
    while i < v.len()
        invariant
            i <= v.len(),
            v@ == s@,
            acc <= u64::MAX,
            acc == u64::MAX || byte_len(s@) == acc + byte_len(v@.skip(i as int)),
            acc == u64::MAX ==> byte_len(s@) >= u64::MAX,
        decreases v.len() - i,
    {
        let ghost rest = v@.skip(i as int);
        assert(rest.drop_first() =~= v@.skip(i + 1));
        assert(rest[0] == v@[i as int]);
        let c = v[i];
        let u = c as u32;
        let w: u64 = if u < 0x80 {
            1
        } else if u < 0x800 {
            2
        } else if u < 0x10000 {
            3
        } else {
            4
        };
        assert(w == utf8_width(v@[i as int]));
        proof {
            lemma_byte_len_nonneg(v@.skip(i + 1));
        }
        acc = acc.saturating_add(w);
        i = i + 1;
    }
    proof {
        lemma_byte_len_nonneg(s@);
    }
    assert(v@.skip(i as int).len() == 0);
    acc
}

proof fn lemma_byte_len_nonneg(s: Seq<char>)
    ensures
        byte_len(s) >= 0,
    decreases s.len(),
{
    if s.len() > 0 {
        lemma_byte_len_nonneg(s.drop_first());
    }
}

/// What [`App::browser_enter_selected`] does: `a` before, `b` after, `r` its result.
pub open spec fn browser_enter_selected_done(a: App, b: App, r: Result<Option<Job>, String>) -> bool {
    &&& (a.selected_browser >= a.browser_entries@.len() ==> only_says(a, b, r, "No entry selected"@))
    &&& (a.selected_browser < a.browser_entries@.len() ==> ({
            let e = a.browser_entries@[a.selected_browser as int];
            if e.is_git_root {
                &&& b == a
                &&& r matches Ok(Some(Job::AddRepo { input, from_browser: true }))
                &&& input@ == e.path@
            } else if e.is_dir {
                &&& b == (App {
                    browser_dir: b.browser_dir,
                    selected_browser: 0,
                    status_message: b.status_message,
                    ..a
                })
                &&& b.browser_dir@ == e.path@
                &&& b.status_message@ == "Browsing "@ + e.path@
                &&& r matches Ok(Some(Job::ListDirectory { dir }))
                &&& dir@ == e.path@
            } else {
                only_says(a, b, r, "Selected entry is not a directory"@)
            }
        }))
}

/// What [`App::add_repo_from_input`] does: `a` before, `b` after, `r` its result.
pub open spec fn add_repo_from_input_done(a: App, b: App, r: Result<Option<Job>, String>) -> bool {
    &&& (b == a)
    &&& (unquoted(trim(trim(a.input_buffer@))).len() == 0 ==> r is Err && r->Err_0@ == "Path cannot be empty"@)
    &&& (unquoted(trim(trim(a.input_buffer@))).len() > 0 ==> ({
            &&& r matches Ok(Some(Job::AddRepo { input, from_browser: false }))
            &&& input@ == unquoted(trim(trim(a.input_buffer@)))
        }))
}

impl App {
    /// Takes the browser directory's entries as listed: hidden ones kept
    /// out unless shown, directories first, by lower-cased name.
    pub fn finish_list_directory(&mut self, listing: Result<Vec<BrowserEntry>, String>)
        ensures
            match listing {
                Err(e) => status_set(*old(self), *final(self), error_text(e@)),
                Ok(entries) => {
                    let kept = listed_entries(entries_model(entries@), old(self).show_hidden_browser_entries);
                    &&& *final(self) == (App {
                        browser_entries: final(self).browser_entries,
                        selected_browser: bounded(old(self).selected_browser, kept.len() as int),
                        ..*old(self)
                    })
                    &&& exists|idx: Seq<usize>| #[trigger] stably_sorted_by_str(browser_keys(kept), idx)
                        && entries_model(final(self).browser_entries@) == pick_entries(kept, idx)
                },
            },
    {
        let entries = match listing {
            Err(e) => {
                self.status_message = cat("Error: ", e.as_str());
                return;
            },
            Ok(v) => v,
        };
        let ghost all = entries_model(entries@);
        let mut kept: Vec<BrowserEntry> = Vec::new();
        let mut k: usize = 0;
        while k < entries.len()
            invariant
                k <= entries.len(),
                all == entries_model(entries@),
                entries_model(kept@) == listed_entries(all.take(k as int), self.show_hidden_browser_entries),
            decreases entries.len() - k,
        {
            proof {
                lemma_filter_map_step(
                    all,
                    |e: EntryModel| if self.show_hidden_browser_entries || !starts_with(e.0, "."@) { Some(e) } else { None },
                    k as int,
                );
            }
            let e = &entries[k];
            assert(entry_model(*e) == all[k as int]);
            if self.show_hidden_browser_entries || !starts_with_str(e.name.as_str(), ".") {
                let ghost before = entries_model(kept@);
                let copy = BrowserEntry { name: e.name.clone(), path: e.path.clone(), is_dir: e.is_dir, is_git_root: e.is_git_root };
                kept.push(copy);
                assert(entries_model(kept@) =~= before.push(all[k as int]));
            }
            k = k + 1;
        }
        assert(all.take(k as int) =~= all);
        let ghost kv = entries_model(kept@);
        let mut keys: Vec<Vec<char>> = Vec::new();
        let mut j: usize = 0;
        while j < kept.len()
            invariant
                j <= kept.len(),
                kv == entries_model(kept@),
                keys@.map_values(|k: Vec<char>| k@) == browser_keys(kv.take(j as int)),
            decreases kept.len() - j,
        {
            let mut key: Vec<char> = Vec::new();
            key.push(if kept[j].is_dir {
                '0'
            } else {
                '1'
            });
            let low = chars_of(unicode_lowercase(kept[j].name.as_str()).as_str());
            let mut t: usize = 0;
            while t < low.len()
                invariant
                    t <= low.len(),
                    key@ == seq![if kept@[j as int].is_dir { '0' } else { '1' }] + low@.take(t as int),
                decreases low.len() - t,
            {
                key.push(low[t]);
                assert(seq![if kept@[j as int].is_dir { '0' } else { '1' }] + low@.take(t + 1) =~= (seq![
                    if kept@[j as int].is_dir { '0' } else { '1' },
                ] + low@.take(t as int)).push(low@[t as int]));
                t = t + 1;
            }
            assert(low@.take(t as int) =~= low@);
            assert(key@ == browser_key(kv[j as int]));
            let ghost before = keys@;
            keys.push(key);
            assert(keys@.map_values(|k: Vec<char>| k@) =~= before.map_values(|k: Vec<char>| k@).push(browser_key(kv[j as int])));
            assert(browser_keys(kv.take(j + 1)) =~= browser_keys(kv.take(j as int)).push(browser_key(kv[j as int])));
            j = j + 1;
        }
        assert(kv.take(j as int) =~= kv);
        let idx = sort_indices_by_str(&keys);
        let mut sorted: Vec<BrowserEntry> = Vec::new();
        let mut m: usize = 0;
        while m < idx.len()
            invariant
                m <= idx.len(),
                idx@.len() == kept@.len(),
                forall|i: int| 0 <= i < idx@.len() ==> (#[trigger] idx@[i] as int) < kept@.len(),
                kv == entries_model(kept@),
                entries_model(sorted@) == pick_entries(kv, idx@.take(m as int)),
            decreases idx.len() - m,
        {
            let e = &kept[idx[m]];
            let copy = BrowserEntry { name: e.name.clone(), path: e.path.clone(), is_dir: e.is_dir, is_git_root: e.is_git_root };
            let ghost before = entries_model(sorted@);
            sorted.push(copy);
            assert(entries_model(sorted@) =~= before.push(kv[idx@[m as int] as int]));
            assert(pick_entries(kv, idx@.take(m + 1)) =~= pick_entries(kv, idx@.take(m as int)).push(kv[idx@[m as int] as int]));
            m = m + 1;
        }
        assert(idx@.take(m as int) =~= idx@);
        let n = sorted.len();
        self.browser_entries = sorted;
        self.selected_browser = if n == 0 {
            0
        } else if self.selected_browser < n - 1 {
            self.selected_browser
        } else {
            n - 1
        };
    }

    /// Enters the selected directory, or adds and opens it where it is a repository root.
    pub fn browser_enter_selected(&mut self) -> (res: Result<Option<Job>, String>)
        ensures
            browser_enter_selected_done(*old(self), *final(self), res),
    {
        if self.selected_browser >= self.browser_entries.len() {
            self.status_message = owned("No entry selected");
            return Ok(None);
        }
        let path = self.browser_entries[self.selected_browser].path.clone();
        if self.browser_entries[self.selected_browser].is_git_root {
            return Ok(Some(Job::AddRepo { input: path, from_browser: true }));
        }
        if self.browser_entries[self.selected_browser].is_dir {
            self.status_message = cat("Browsing ", path.as_str());
            self.browser_dir = path.clone();
            self.selected_browser = 0;
            return Ok(Some(Job::ListDirectory { dir: path }));
        }
        self.status_message = owned("Selected entry is not a directory");
        Ok(None)
    }

    /// Asks to resolve and add the typed repository path.
    pub fn add_repo_from_input(&mut self) -> (res: Result<Option<Job>, String>)
        ensures
            add_repo_from_input_done(*old(self), *final(self), res),
    {
        let typed = crate::text::trimmed(self.input_buffer.as_str());
        match canonical_repo_path(typed.as_str()) {
            Err(m) => Err(m),
            Ok(p) => Ok(Some(Job::AddRepo { input: p, from_browser: false })),
        }
    }

    /// Tracks the resolved repository root `outcome` holds: selects it,
    /// saves the registry where it was new, and then relabels the list
    /// (typed path) or opens it (from the browser).
    pub fn finish_add_repo(&mut self, from_browser: bool, outcome: Result<String, String>) -> (res: Vec<Job>)
        ensures
            match outcome {
                Err(e) => status_set(*old(self), *final(self), error_text(e@)) && res@.len() == 0,
                Ok(c) => {
                    let added = !old(self).registry.paths().contains(c@);
                    &&& *final(self) == (App {
                        registry: final(self).registry,
                        selected_repo: final(self).selected_repo,
                        input_mode: final(self).input_mode,
                        input_buffer: final(self).input_buffer,
                        input_cursor: final(self).input_cursor,
                        status_message: final(self).status_message,
                        ..*old(self)
                    })
                    &&& !added ==> final(self).registry.paths() == old(self).registry.paths()
                    &&& added ==> exists|idx: Seq<usize>|
                        #[trigger] stably_sorted_by_str(old(self).registry.paths().push(c@), idx)
                            && final(self).registry.paths() == pick_paths(old(self).registry.paths().push(c@), idx)
                    &&& final(self).registry.paths().contains(c@)
                    &&& forall|p: Seq<char>|
                        #[trigger] final(self).registry.paths().contains(p) <==> (old(self).registry.paths().contains(p)
                            || p == c@)
                    &&& old(self).registry.well_formed() ==> final(self).registry.well_formed()
                    &&& final(self).selected_repo == match first_index_of(final(self).registry.paths(), c@) {
                        Some(i) => i as usize,
                        None => old(self).selected_repo,
                    }
                    &&& res@.len() == (if added { 1int } else { 0int }) + 1
                    &&& added ==> res@[0] == Job::SaveRegistry
                    &&& if from_browser {
                        &&& final(self).input_mode == old(self).input_mode
                        &&& final(self).input_buffer == old(self).input_buffer
                        &&& final(self).input_cursor == old(self).input_cursor
                        &&& final(self).status_message == old(self).status_message
                        &&& res@.last() matches Job::OpenRepo { path, origin: OpenOrigin::Browser } && path@ == c@
                    } else {
                        &&& final(self).input_mode == InputMode::Inactive
                        &&& final(self).input_buffer@.len() == 0 && final(self).input_cursor == 0
                        &&& final(self).status_message@ == "Added repository "@ + display_path(c@, old(self).windows)
                        &&& res@.last() is ReadRepoLabels
                    }
                },
            },
    {
        let canonical = match outcome {
            Err(e) => {
                self.status_message = cat("Error: ", e.as_str());
                return Vec::new();
            },
            Ok(c) => c,
        };
        let added = self.registry.add_repo(canonical.as_str());
        match position_of(&self.registry, canonical.as_str()) {
            Some(i) => {
                self.selected_repo = i;
            },
            None => {},
        }
        let mut jobs: Vec<Job> = Vec::new();
        if added {
            jobs.push(Job::SaveRegistry);
        }
        if from_browser {
            jobs.push(Job::OpenRepo { path: canonical, origin: OpenOrigin::Browser });
        } else {
            self.input_mode = InputMode::Inactive;
            self.input_buffer = String::new();
            self.input_cursor = 0;
            self.status_message = cat("Added repository ", display_path_for_ui(canonical.as_str(), self.windows).as_str());
            jobs.push(Job::ReadRepoLabels { paths: self.repo_paths() });
        }
        jobs
    }
}

/// Where `c` first stands among the registry's paths.
fn position_of(registry: &crate::repo_registry::RepoRegistry, c: &str) -> (res: Option<usize>)
    ensures
        match res {
            Some(i) => first_index_of(registry.paths(), c@) == Some(i as int),
            None => first_index_of(registry.paths(), c@) is None,
        },
{
    let ghost paths = registry.paths();
    let mut i: usize = 0;
    while i < registry.repos.len()
        invariant
            i <= registry.repos.len(),
            paths == registry.paths(),
            first_index_of(paths.take(i as int), c@) is None,
        decreases registry.repos.len() - i,
    {
        assert(paths.take(i + 1).drop_last() =~= paths.take(i as int));
        if str_eq(registry.repos[i].path.as_str(), c) {
            assert(paths.take(i + 1).last() == paths[i as int]);
            proof {
                lemma_first_index_extends(paths, c@, i as int + 1);
            }
            return Some(i);
        }
        i = i + 1;
    }
    assert(paths.take(i as int) =~= paths);
    None
}

proof fn lemma_first_index_extends(v: Seq<Seq<char>>, c: Seq<char>, n: int)
    requires
        0 < n <= v.len(),
        first_index_of(v.take(n - 1), c) is None,
        v[n - 1] == c,
    ensures
        first_index_of(v, c) == Some(n - 1),
    decreases v.len() - n,
{
    if n == v.len() {
        assert(v.take(n - 1) =~= v.drop_last());
    } else {
        assert(v.take(n).drop_last() =~= v.take(n - 1));
        assert(first_index_of(v.take(n), c) == Some(n - 1));
        lemma_first_index_prefix(v, c, n);
    }
}

proof fn lemma_first_index_prefix(v: Seq<Seq<char>>, c: Seq<char>, n: int)
    requires
        0 <= n <= v.len(),
        first_index_of(v.take(n), c) is Some,
    ensures
        first_index_of(v, c) == first_index_of(v.take(n), c),
    decreases v.len() - n,
{
    if n < v.len() {
        assert(v.take(n + 1).drop_last() =~= v.take(n));
        lemma_first_index_prefix(v, c, n + 1);
    } else {
        assert(v.take(n) =~= v);
    }
}

fn first_names_exec(names: &Vec<String>, n: usize) -> (res: String)
    ensures
        res@ == first_names(views(names@), n as int),
{
    let k = if names.len() < n {
        names.len()
    } else {
        n
    };
    let mut part: Vec<String> = Vec::new();
    let mut i: usize = 0;
    while i < k
        invariant
            i <= k <= names.len(),
            views(part@) == views(names@).take(i as int),
        decreases k - i,
    {
        let c = names[i].clone();
        let ghost before = views(part@);
        part.push(c);
        assert(views(part@) =~= before.push(c@));
        assert(views(names@).take(i + 1) =~= views(names@).take(i as int).push(names@[i as int]@));
        i = i + 1;
    }
    join_strings(&part, ", ")
}

fn named_dir_exec(v: &Vec<(String, bool)>, name: &str) -> (res: bool)
    ensures
        res == named_dir(candidates_view(v@), name@),
{
    let ghost cv = candidates_view(v@);
    let mut i: usize = 0;
    assert(cv.skip(0) =~= cv);
    while i < v.len()
        invariant
            i <= v.len(),
            cv == candidates_view(v@),
            named_dir(cv, name@) == named_dir(cv.skip(i as int), name@),
        decreases v.len() - i,
    {
        assert(cv.skip(i as int)[0] == (v@[i as int].0@, v@[i as int].1));
        assert(cv.skip(i as int).drop_first() =~= cv.skip(i + 1));
        if str_eq(v[i].0.as_str(), name) {
            return v[i].1;
        }
        i = i + 1;
    }
    false
}

impl App {
    /// Completes the typed repository path (in the popup for one).
    pub fn autocomplete_input(&mut self) -> (res: Result<Option<Job>, String>)
        ensures
            old(self).input_mode != InputMode::AddRepoPath ==> *final(self) == *old(self) && res == Ok::<Option<Job>, String>(None),
            old(self).input_mode == InputMode::AddRepoPath && unquoted(trim(old(self).input_buffer@)).len() == 0 ==> only_says(
                *old(self),
                *final(self),
                res,
                "Type a path first, then press [Tab] to autocomplete."@,
            ),
            old(self).input_mode == InputMode::AddRepoPath && unquoted(trim(old(self).input_buffer@)).len() > 0 ==> ({
                &&& *final(self) == *old(self)
                &&& res matches Ok(Some(Job::Autocomplete { normalized }))
                &&& normalized@ == unquoted(trim(old(self).input_buffer@))
            }),
    {
        if self.input_mode != InputMode::AddRepoPath {
            return Ok(None);
        }
        let normalized = normalize_repo_path_input(self.input_buffer.as_str());
        if normalized.as_str().unicode_len() == 0 {
            self.status_message = owned("Type a path first, then press [Tab] to autocomplete.");
            return Ok(None);
        }
        Ok(Some(Job::Autocomplete { normalized }))
    }

    /// Completes the typed path from the entries of `base_dir` (a
    /// directory where `base_is_dir`) whose names start with `fragment`,
    /// letters of either case alike.
    #[verifier::rlimit(60)]
    pub fn finish_autocomplete(&mut self, base_dir: String, fragment: String, base_is_dir: bool, listing: Result<Vec<(String, bool)>, String>)
        ensures
            !base_is_dir ==> status_set(*old(self), *final(self), "Autocomplete base directory does not exist: "@ + base_dir@),
            base_is_dir ==> match listing {
                Err(e) => status_set(*old(self), *final(self), error_text(e@)),
                Ok(v) => {
                    let m = matching(candidates_view(v@), fragment@);
                    if m.len() == 0 {
                        status_set(*old(self), *final(self), "No path matches found for autocomplete."@)
                    } else {
                        exists|idx: Seq<usize>| #[trigger] stably_sorted_by_str(names_of(m), idx) && ({
                            let sorted = pick_candidates(m, idx);
                            let names = names_of(sorted);
                            if names.len() > 1 && capped_bytes(common_prefix_of(names)) <= capped_bytes(fragment@) {
                                status_set(
                                    *old(self),
                                    *final(self),
                                    "Multiple matches; keep typing to narrow autocomplete: "@ + first_names(names, 8),
                                )
                            } else {
                                &&& *final(self) == (App {
                                    input_buffer: final(self).input_buffer,
                                    input_cursor: final(self).input_cursor,
                                    status_message: final(self).status_message,
                                    ..*old(self)
                                })
                                &&& final(self).input_buffer@ == completed_text(base_dir@, fragment@, sorted, old(self).windows)
                                &&& final(self).input_cursor == final(self).input_buffer@.len()
                                &&& final(self).status_message@ == if names.len() == 1 {
                                    "Autocomplete applied (single match)."@
                                } else {
                                    "Autocomplete candidates: "@ + first_names(names, 5)
                                }
                            }
                        })
                    }
                },
            },
    {
        if !base_is_dir {
            self.status_message = cat("Autocomplete base directory does not exist: ", base_dir.as_str());
            return;
        }
        let entries = match listing {
            Err(e) => {
                self.status_message = cat("Error: ", e.as_str());
                return;
            },
            Ok(v) => v,
        };
        let ghost all = candidates_view(entries@);
        let low_frag = unicode_lowercase(fragment.as_str());
        let mut cands: Vec<(String, bool)> = Vec::new();
        let mut k: usize = 0;
        while k < entries.len()
            invariant
                k <= entries.len(),
                all == candidates_view(entries@),
                low_frag@ == lowercase_of(fragment@),
                candidates_view(cands@) == matching(all.take(k as int), fragment@),
            decreases entries.len() - k,
        {
            proof {
                lemma_filter_map_step(
                    all,
                    |c: Candidate| if starts_with(lowercase_of(c.0), lowercase_of(fragment@)) { Some(c) } else { None },
                    k as int,
                );
            }
            let low = unicode_lowercase(entries[k].0.as_str());
            assert(all[k as int] == (entries@[k as int].0@, entries@[k as int].1));
            if starts_with_str(low.as_str(), low_frag.as_str()) {
                let ghost before = candidates_view(cands@);
                let c = (entries[k].0.clone(), entries[k].1);
                cands.push(c);
                assert(candidates_view(cands@) =~= before.push(all[k as int]));
            }
            k = k + 1;
        }
        assert(all.take(k as int) =~= all);
        let ghost m = candidates_view(cands@);
        if cands.len() == 0 {
            self.status_message = owned("No path matches found for autocomplete.");
            return;
        }
        let mut keys: Vec<Vec<char>> = Vec::new();
        let mut j: usize = 0;
        while j < cands.len()
            invariant
                j <= cands.len(),
                m == candidates_view(cands@),
                keys@.map_values(|k: Vec<char>| k@) == names_of(m).take(j as int),
            decreases cands.len() - j,
        {
            let key = chars_of(cands[j].0.as_str());
            let ghost before = keys@;
            keys.push(key);
            assert(keys@.map_values(|k: Vec<char>| k@) =~= before.map_values(|k: Vec<char>| k@).push(m[j as int].0));
            assert(names_of(m).take(j + 1) =~= names_of(m).take(j as int).push(m[j as int].0));
            j = j + 1;
        }
        assert(names_of(m).take(j as int) =~= names_of(m));
        let idx = sort_indices_by_str(&keys);
        let mut sorted: Vec<(String, bool)> = Vec::new();
        let mut names: Vec<String> = Vec::new();
        let mut t: usize = 0;
        while t < idx.len()
            invariant
                t <= idx.len(),
                idx@.len() == cands@.len(),
                forall|i: int| 0 <= i < idx@.len() ==> (#[trigger] idx@[i] as int) < cands@.len(),
                m == candidates_view(cands@),
                candidates_view(sorted@) == pick_candidates(m, idx@.take(t as int)),
                views(names@) == names_of(pick_candidates(m, idx@.take(t as int))),
            decreases idx.len() - t,
        {
            let c = &cands[idx[t]];
            let copy = (c.0.clone(), c.1);
            let name = c.0.clone();
            let ghost before = candidates_view(sorted@);
            let ghost before_names = views(names@);
            sorted.push(copy);
            names.push(name);
            assert(candidates_view(sorted@) =~= before.push(m[idx@[t as int] as int]));
            assert(views(names@) =~= before_names.push(m[idx@[t as int] as int].0));
            assert(pick_candidates(m, idx@.take(t + 1)) =~= pick_candidates(m, idx@.take(t as int)).push(m[idx@[t as int] as int]));
            assert(names_of(pick_candidates(m, idx@.take(t + 1))) =~= names_of(pick_candidates(m, idx@.take(t as int))).push(
                m[idx@[t as int] as int].0,
            ));
            t = t + 1;
        }
        assert(idx@.take(t as int) =~= idx@);
        let ghost sv = pick_candidates(m, idx@);
        assert(stably_sorted_by_str(names_of(m), idx@));
        let cp = common_prefix(&names);
        let cp_bytes = byte_length(cp.as_str());
        let frag_bytes = byte_length(fragment.as_str());
        if names.len() > 1 && cp_bytes <= frag_bytes {
            let preview = first_names_exec(&names, 8);
            self.status_message = cat("Multiple matches; keep typing to narrow autocomplete: ", preview.as_str());
            return;
        }
        let completed_path = if cp_bytes > frag_bytes {
            path_join_on_exec(base_dir.as_str(), cp.as_str(), self.windows)
        } else {
            path_join_on_exec(base_dir.as_str(), sorted[0].0.as_str(), self.windows)
        };
        let fname = match path_file_name(completed_path.as_str()) {
            Some(n) => n,
            None => String::new(),
        };
        let matched_dir = named_dir_exec(&sorted, fname.as_str());
        let sep = if self.windows {
            '\\'
        } else {
            '/'
        };
        let pv = chars_of(completed_path.as_str());
        let ends_sep = pv.len() > 0 && pv[pv.len() - 1] == sep;
        let mut completed = completed_path;
        if matched_dir && !ends_sep {
            crate::text::push_char(&mut completed, sep);
        }
        self.input_cursor = completed.as_str().unicode_len();
        self.input_buffer = completed;
        self.status_message = if names.len() == 1 {
            owned("Autocomplete applied (single match).")
        } else {
            cat("Autocomplete candidates: ", first_names_exec(&names, 5).as_str())
        };
    }
}

} // verus!

//! The changed files of a commit shown as a tree of directories and files.
use vstd::prelude::*;

use crate::order::{str_lt, str_lt_exec};
use crate::text::{
    chars_of, lemma_filter_map_step, opt_string_view, owned, push_char, str_eq, string_of,
    string_of_range, strip_leading_char, strip_leading_char_str, strip_prefix_all,
    strip_prefix_all_str,
};

verus! {

/// A changed file: its path and its status letters.
#[derive(Debug, Clone)]
pub struct FileLeaf {
    pub path: String,
    pub status: String,
}

#[derive(Debug, Clone, Copy, PartialEq, Eq, Structural)]
pub enum TreeRowKind {
    Directory,
    File,
}

/// One visible line of the tree.
#[derive(Debug, Clone)]
pub struct TreeRow {
    pub path: String,
    pub name: String,
    pub depth: usize,
    pub kind: TreeRowKind,
    pub status: Option<String>,
    pub expanded: bool,
}

/// A file as plain values: path and status.
pub type Leaf = (Seq<char>, Seq<char>);

/// A row as plain values: path, name, depth, kind, status, expanded.
pub type RowModel = (Seq<char>, Seq<char>, nat, TreeRowKind, Option<Seq<char>>, bool);

impl FileLeaf {
    pub open spec fn model(&self) -> Leaf {
        (self.path@, self.status@)
    }
}

impl TreeRow {
    pub open spec fn model(&self) -> RowModel {
        (self.path@, self.name@, self.depth as nat, self.kind, opt_string_view(self.status), self.expanded)
    }
}

pub open spec fn leaves_view(v: Seq<FileLeaf>) -> Seq<Leaf> {
    v.map_values(|l: FileLeaf| l.model())
}

pub open spec fn rows_view(v: Seq<TreeRow>) -> Seq<RowModel> {
    v.map_values(|r: TreeRow| r.model())
}

// ---------------------------------------------------------------------
// Paths
// ---------------------------------------------------------------------
/// Where the last `/` of `p` stands.
pub open spec fn last_slash(p: Seq<char>) -> Option<int>
    decreases p.len(),
{
    if p.len() == 0 {
        None
    } else if p.last() == '/' {
        Some(p.len() - 1)
    } else {
        last_slash(p.drop_last())
    }
}

/// The text before the last `/`, or nothing (`rsplit_once('/')`).
pub open spec fn parent_of(p: Seq<char>) -> Seq<char> {
    match last_slash(p) {
        Some(i) => p.take(i),
        None => Seq::empty(),
    }
}

/// The text after the last `/`, or all of `p`.
pub open spec fn name_of(p: Seq<char>) -> Seq<char> {
    match last_slash(p) {
        Some(i) => p.skip(i + 1),
        None => p,
    }
}

/// A path as the tree keeps it: `\` turned into `/`, leading `./` removed.
pub open spec fn normalize_tree_path(p: Seq<char>) -> Seq<char> {
    strip_prefix_all(p.map_values(|c: char| if c == '\\' { '/' } else { c }), "./"@)
}

/// The files kept from `files`: paths normalized, those left empty dropped.
pub open spec fn normalized_leaves(files: Seq<Leaf>) -> Seq<Leaf> {
    files.filter_map(|l: Leaf| kept_leaf(l))
}

/// A file with its path normalized, unless that leaves the path empty.
pub open spec fn kept_leaf(l: Leaf) -> Option<Leaf> {
    if normalize_tree_path(l.0).len() == 0 {
        None
    } else {
        Some((normalize_tree_path(l.0), l.1))
    }
}

/// The directories above `p`, one for each of its `/` from left to
/// right: the text before that `/` without the leading `/`s (the segments
/// before it joined with `/`, where the empty leading segments add none).
pub open spec fn path_dirs(p: Seq<char>) -> Seq<Seq<char>>
    decreases p.len(),
{
    if p.len() == 0 {
        Seq::empty()
    } else if p.last() == '/' {
        path_dirs(p.drop_last()).push(strip_leading_char(p.drop_last(), '/'))
    } else {
        path_dirs(p.drop_last())
    }
}

// ---------------------------------------------------------------------
// Ordered collections
// ---------------------------------------------------------------------
/// `x` added to the ordered, repetition-free `s`.
pub open spec fn insert_unique(s: Seq<Seq<char>>, x: Seq<char>) -> Seq<Seq<char>>
    decreases s.len(),
{
    if s.len() == 0 {
        seq![x]
    } else if s[0] == x {
        s
    } else if str_lt(x, s[0]) {
        seq![x] + s
    } else {
        seq![s[0]] + insert_unique(s.drop_first(), x)
    }
}

/// Each of `xs` added in turn to `s`.
pub open spec fn insert_all_unique(s: Seq<Seq<char>>, xs: Seq<Seq<char>>) -> Seq<Seq<char>>
    decreases xs.len(),
{
    if xs.len() == 0 {
        s
    } else {
        insert_unique(insert_all_unique(s, xs.drop_last()), xs.last())
    }
}

/// Every directory above some file, in order, each once.
pub open spec fn dir_list(files: Seq<Leaf>) -> Seq<Seq<char>>
    decreases files.len(),
{
    if files.len() == 0 {
        Seq::empty()
    } else {
        insert_all_unique(dir_list(files.drop_last()), path_dirs(files.last().0))
    }
}

/// Every directory above some file, as a set.
pub open spec fn dir_set(files: Seq<Leaf>) -> Set<Seq<char>> {
    Set::new(|d: Seq<char>| exists|k: int| 0 <= k < files.len() && path_dirs(files[k].0).contains(d))
}

/// `x` placed after every file of `s` whose path is not greater.
pub open spec fn insert_by_path(s: Seq<Leaf>, x: Leaf) -> Seq<Leaf>
    decreases s.len(),
{
    if s.len() == 0 {
        seq![x]
    } else if str_lt(x.0, s[0].0) {
        seq![x] + s
    } else {
        seq![s[0]] + insert_by_path(s.drop_first(), x)
    }
}

/// The files ordered by path, files of one path in their order in `s`.
pub open spec fn sort_by_path(s: Seq<Leaf>) -> Seq<Leaf>
    decreases s.len(),
{
    if s.len() == 0 {
        s
    } else {
        insert_by_path(sort_by_path(s.drop_last()), s.last())
    }
}

// ---------------------------------------------------------------------
// Rows
// ---------------------------------------------------------------------
/// The directories of `dirs` directly under `q`.
pub open spec fn children(dirs: Seq<Seq<char>>, q: Seq<char>) -> Seq<Seq<char>> {
    dirs.filter_map(|d: Seq<char>| if parent_of(d) == q { Some(d) } else { None })
}

/// The files of `files` directly under `q`.
pub open spec fn files_under(files: Seq<Leaf>, q: Seq<char>) -> Seq<Leaf> {
    files.filter_map(|f: Leaf| if parent_of(f.0) == q { Some(f) } else { None })
}

pub open spec fn dir_row(d: Seq<char>, depth: nat, expanded: bool) -> RowModel {
    (d, name_of(d), depth, TreeRowKind::Directory, None, expanded)
}

pub open spec fn file_row(f: Leaf, depth: nat) -> RowModel {
    (f.0, name_of(f.0), depth, TreeRowKind::File, Some(f.1), false)
}

pub open spec fn file_rows(fs: Seq<Leaf>, depth: nat) -> Seq<RowModel> {
    fs.map_values(|f: Leaf| file_row(f, depth))
}

/// The rows under `q` at `depth`: its directories in order, each followed
/// by its own rows where it is expanded, then its files. `fuel` bounds
/// the nesting; [`row_fuel`] is more than any nesting of directories.
pub open spec fn subtree(
    dirs: Seq<Seq<char>>,
    files: Seq<Leaf>,
    e: Set<Seq<char>>,
    q: Seq<char>,
    depth: nat,
    fuel: nat,
) -> Seq<RowModel>
    decreases fuel, 1nat, 0nat,
{
    dir_rows(dirs, files, e, children(dirs, q), depth, fuel) + file_rows(files_under(files, q), depth)
}

/// The rows of the directories `ds` at `depth` and of what is under those expanded.
pub open spec fn dir_rows(
    dirs: Seq<Seq<char>>,
    files: Seq<Leaf>,
    e: Set<Seq<char>>,
    ds: Seq<Seq<char>>,
    depth: nat,
    fuel: nat,
) -> Seq<RowModel>
    decreases fuel, 0nat, ds.len(),
{
    if ds.len() == 0 {
        Seq::empty()
    } else {
        let d = ds.last();
        dir_rows(dirs, files, e, ds.drop_last(), depth, fuel) + seq![dir_row(d, depth, e.contains(d))]
            + if e.contains(d) && fuel > 0 {
            subtree(dirs, files, e, d, depth + 1, (fuel - 1) as nat)
        } else {
            Seq::empty()
        }
    }
}

/// The longest path among the files.
pub open spec fn max_path_len(files: Seq<Leaf>) -> nat
    decreases files.len(),
{
    if files.len() == 0 {
        0
    } else {
        let m = max_path_len(files.drop_last());
        if files.last().0.len() > m {
            files.last().0.len()
        } else {
            m
        }
    }
}

/// The nesting allowed: no directory is nested deeper than its path is long.
pub open spec fn row_fuel(files: Seq<Leaf>) -> nat {
    max_path_len(files)
}

/// The visible rows of the files `files` with the directories `e` expanded.
pub open spec fn tree_rows(files: Seq<Leaf>, e: Set<Seq<char>>) -> Seq<RowModel> {
    subtree(dir_list(files), sort_by_path(files), e, Seq::empty(), 0, row_fuel(files))
}

// ---------------------------------------------------------------------
// Lemmas
// ---------------------------------------------------------------------
proof fn lemma_insert_unique_at(s: Seq<Seq<char>>, x: Seq<char>, i: int)
    requires
        0 <= i <= s.len(),
        forall|k: int| 0 <= k < i ==> s[k] != x && !str_lt(x, s[k]),
    ensures
        insert_unique(s, x) == s.take(i) + insert_unique(s.skip(i), x),
    decreases i,
{
    if i > 0 {
        let t = s.drop_first();
        assert forall|k: int| 0 <= k < i - 1 implies t[k] != x && !str_lt(x, t[k]) by {
            assert(t[k] == s[k + 1]);
        }
        lemma_insert_unique_at(t, x, i - 1);
        assert(t.skip(i - 1) =~= s.skip(i));
        assert(seq![s[0]] + t.take(i - 1) =~= s.take(i));
        assert(seq![s[0]] + (t.take(i - 1) + insert_unique(t.skip(i - 1), x)) =~= s.take(i)
            + insert_unique(s.skip(i), x));
    } else {
        assert(s.skip(0) =~= s);
        assert(s.take(0) + insert_unique(s.skip(0), x) =~= insert_unique(s, x));
    }
}

proof fn lemma_insert_by_path_at(s: Seq<Leaf>, x: Leaf, i: int)
    requires
        0 <= i <= s.len(),
        forall|k: int| 0 <= k < i ==> !str_lt(x.0, s[k].0),
    ensures
        insert_by_path(s, x) == s.take(i) + insert_by_path(s.skip(i), x),
    decreases i,
{
    if i > 0 {
        let t = s.drop_first();
        assert forall|k: int| 0 <= k < i - 1 implies !str_lt(x.0, t[k].0) by {
            assert(t[k] == s[k + 1]);
        }
        lemma_insert_by_path_at(t, x, i - 1);
        assert(t.skip(i - 1) =~= s.skip(i));
        assert(seq![s[0]] + t.take(i - 1) =~= s.take(i));
        assert(seq![s[0]] + (t.take(i - 1) + insert_by_path(t.skip(i - 1), x)) =~= s.take(i)
            + insert_by_path(s.skip(i), x));
    } else {
        assert(s.skip(0) =~= s);
        assert(s.take(0) + insert_by_path(s.skip(0), x) =~= insert_by_path(s, x));
    }
}


// ---------------------------------------------------------------------
// Executable helpers
// ---------------------------------------------------------------------
fn copy_leaf(l: &FileLeaf) -> (res: FileLeaf)
    ensures
        res.model() == l.model(),
{
    FileLeaf { path: l.path.clone(), status: l.status.clone() }
}

fn last_slash_exec(v: &Vec<char>) -> (res: Option<usize>)
    ensures
        match res {
            Some(i) => i < v.len() && last_slash(v@) == Some(i as int),
            None => last_slash(v@) == None::<int>,
        },
{
    let mut i: usize = v.len();
    assert(v@.take(i as int) =~= v@);
    while i > 0 && v[i - 1] != '/'
        invariant
            i <= v.len(),
            last_slash(v@) == last_slash(v@.take(i as int)),
        decreases i,
    {
        assert(v@.take(i as int).drop_last() =~= v@.take(i - 1));
        i = i - 1;
    }
    if i == 0 {
        None
    } else {
        Some(i - 1)
    }
}

/// The text of `p` before its last `/`.
fn parent_of_exec(p: &str) -> (res: String)
    ensures
        res@ == parent_of(p@),
{
    let v = chars_of(p);
    match last_slash_exec(&v) {
        Some(i) => string_of_range(&v, 0, i),
        None => String::new(),
    }
}

/// The text of `p` after its last `/`.
fn name_of_exec(p: &str) -> (res: String)
    ensures
        res@ == name_of(p@),
{
    let v = chars_of(p);
    match last_slash_exec(&v) {
        Some(i) => string_of_range(&v, i + 1, v.len()),
        None => owned(p),
    }
}

/// `p` with `\` turned into `/` and leading `./` removed.
pub fn normalize_tree_path_exec(p: &str) -> (res: String)
    ensures
        res@ == normalize_tree_path(p@),
{
    let v = chars_of(p);
    let mut w: Vec<char> = Vec::new();
    let mut i: usize = 0;
    while i < v.len()
        invariant
            i <= v.len(),
            w@ == v@.take(i as int).map_values(|c: char| if c == '\\' { '/' } else { c }),
        decreases v.len() - i,
    {
        let c = v[i];
        w.push(if c == '\\' { '/' } else { c });
        assert(w@ =~= v@.take(i + 1).map_values(|c: char| if c == '\\' { '/' } else { c }));
        i = i + 1;
    }
    assert(v@.take(i as int) =~= v@);
    let s = string_of(&w);
    strip_prefix_all_str(s.as_str(), "./")
}

fn path_dirs_exec(p: &str) -> (res: Vec<String>)
    ensures
        crate::text::views(res@) == path_dirs(p@),
{
    let v = chars_of(p);
    let mut res: Vec<String> = Vec::new();
    let mut i: usize = 0;
    while i < v.len()
        invariant
            i <= v.len(),
            v@ == p@,
            crate::text::views(res@) == path_dirs(v@.take(i as int)),
        decreases v.len() - i,
    {
        let ghost before = res@;
        assert(v@.take(i + 1).drop_last() =~= v@.take(i as int));
        if v[i] == '/' {
            let prefix = string_of_range(&v, 0, i);
            assert(prefix@ =~= v@.take(i as int));
            let d = strip_leading_char_str(prefix.as_str(), '/');
            res.push(d);
            assert(crate::text::views(res@) =~= crate::text::views(before).push(d@));
        }
        i = i + 1;
    }
    assert(v@.take(i as int) =~= v@);
    res
}

fn str_lt_strs(a: &str, b: &str) -> (res: bool)
    ensures
        res == str_lt(a@, b@),
{
    str_lt_exec(&chars_of(a), &chars_of(b))
}

fn insert_unique_exec(list: &mut Vec<String>, x: String)
    ensures
        crate::text::views(final(list)@) == insert_unique(crate::text::views(old(list)@), x@),
{
    let ghost s = crate::text::views(list@);
    let mut i: usize = 0;
    while i < list.len() && !str_lt_strs(x.as_str(), list[i].as_str())
        invariant
            i <= list.len(),
            s == crate::text::views(list@),
            forall|k: int| 0 <= k < i ==> s[k] != x@ && !str_lt(x@, s[k]),
        decreases list.len() - i,
    {
        if str_eq(list[i].as_str(), x.as_str()) {
            proof {
                lemma_insert_unique_at(s, x@, i as int);
                assert(s.skip(i as int)[0] == s[i as int]);
                assert(s.take(i as int) + s.skip(i as int) =~= s);
            }
            return;
        }
        i = i + 1;
    }
    proof {
        if i < list.len() {
            crate::order::lemma_str_lt_irreflexive(x@);
            assert(s.skip(i as int)[0] == s[i as int]);
        }
    }
    proof {
        lemma_insert_unique_at(s, x@, i as int);
    }
    let ghost xv = x@;
    list.insert(i, x);
    assert(crate::text::views(list@) =~= s.take(i as int) + (seq![xv] + s.skip(i as int)));
}

/// Every directory above some file, in order, each once.
fn collect_all_dirs(files: &Vec<FileLeaf>) -> (res: Vec<String>)
    ensures
        crate::text::views(res@) == dir_list(leaves_view(files@)),
{
    let ghost f = leaves_view(files@);
    let mut res: Vec<String> = Vec::new();
    let mut k: usize = 0;
    while k < files.len()
        invariant
            k <= files.len(),
            f == leaves_view(files@),
            crate::text::views(res@) == dir_list(f.take(k as int)),
        decreases files.len() - k,
    {
        assert(f.take(k + 1).drop_last() =~= f.take(k as int));
        assert(f.take(k + 1).last() == files@[k as int].model());
        let ds = path_dirs_exec(files[k].path.as_str());
        let ghost start = crate::text::views(res@);
        let mut j: usize = 0;
        while j < ds.len()
            invariant
                j <= ds.len(),
                crate::text::views(res@) == insert_all_unique(start, crate::text::views(ds@).take(j as int)),
            decreases ds.len() - j,
        {
            let ghost dv = crate::text::views(ds@);
            assert(dv.take(j + 1).drop_last() =~= dv.take(j as int));
            insert_unique_exec(&mut res, ds[j].clone());
            j = j + 1;
        }
        assert(crate::text::views(ds@).take(j as int) =~= crate::text::views(ds@));
        k = k + 1;
    }
    assert(f.take(k as int) =~= f);
    res
}

fn insert_by_path_exec(list: &mut Vec<FileLeaf>, x: FileLeaf)
    ensures
        leaves_view(final(list)@) == insert_by_path(leaves_view(old(list)@), x.model()),
{
    let ghost s = leaves_view(list@);
    let mut i: usize = 0;
    while i < list.len() && !str_lt_strs(x.path.as_str(), list[i].path.as_str())
        invariant
            i <= list.len(),
            s == leaves_view(list@),
            forall|k: int| 0 <= k < i ==> !str_lt(x.model().0, s[k].0),
        decreases list.len() - i,
    {
        i = i + 1;
    }
    proof {
        lemma_insert_by_path_at(s, x.model(), i as int);
    }
    let ghost xm = x.model();
    list.insert(i, x);
    assert(leaves_view(list@) =~= s.take(i as int) + (seq![xm] + s.skip(i as int)));
}

/// The files ordered by path, files of one path in their given order.
fn sort_leaves(files: &Vec<FileLeaf>) -> (res: Vec<FileLeaf>)
    ensures
        leaves_view(res@) == sort_by_path(leaves_view(files@)),
{
    let ghost f = leaves_view(files@);
    let mut res: Vec<FileLeaf> = Vec::new();
    let mut k: usize = 0;
    while k < files.len()
        invariant
            k <= files.len(),
            f == leaves_view(files@),
            leaves_view(res@) == sort_by_path(f.take(k as int)),
        decreases files.len() - k,
    {
        assert(f.take(k + 1).drop_last() =~= f.take(k as int));
        insert_by_path_exec(&mut res, copy_leaf(&files[k]));
        k = k + 1;
    }
    assert(f.take(k as int) =~= f);
    res
}

fn max_path_len_exec(files: &Vec<FileLeaf>) -> (res: usize)
    ensures
        res == max_path_len(leaves_view(files@)),
{
    let ghost f = leaves_view(files@);
    let mut m: usize = 0;
    let mut k: usize = 0;
    while k < files.len()
        invariant
            k <= files.len(),
            f == leaves_view(files@),
            m == max_path_len(f.take(k as int)),
        decreases files.len() - k,
    {
        assert(f.take(k + 1).drop_last() =~= f.take(k as int));
        let l = files[k].path.as_str().unicode_len();
        if l > m {
            m = l;
        }
        k = k + 1;
    }
    assert(f.take(k as int) =~= f);
    m
}

fn contains_string(v: &Vec<String>, x: &str) -> (res: bool)
    ensures
        res == crate::text::views(v@).contains(x@),
{
    let mut i: usize = 0;
    while i < v.len()
        invariant
            i <= v.len(),
            forall|k: int| 0 <= k < i ==> v@[k]@ != x@,
        decreases v.len() - i,
    {
        if str_eq(v[i].as_str(), x) {
            assert(crate::text::views(v@)[i as int] == x@);
            return true;
        }
        i = i + 1;
    }
    false
}

/// Appends to `rows` the rows under `parent` at `depth`.
fn add_rows(
    parent: &str,
    depth: usize,
    fuel: usize,
    expanded: &Vec<String>,
    dirs: &Vec<String>,
    files: &Vec<FileLeaf>,
    rows: &mut Vec<TreeRow>,
)
    requires
        depth + fuel <= usize::MAX,
    ensures
        rows_view(final(rows)@) == rows_view(old(rows)@) + subtree(
            crate::text::views(dirs@),
            leaves_view(files@),
            crate::text::views(expanded@).to_set(),
            parent@,
            depth as nat,
            fuel as nat,
        ),
    decreases fuel,
{
    let ghost dv = crate::text::views(dirs@);
    let ghost fv = leaves_view(files@);
    let ghost e = crate::text::views(expanded@).to_set();
    let ghost start = rows_view(rows@);
    let ghost ch = children(dv, parent@);
    let mut j: usize = 0;
    while j < dirs.len()
        invariant
            j <= dirs.len(),
            depth + fuel <= usize::MAX,
            dv == crate::text::views(dirs@),
            fv == leaves_view(files@),
            e == crate::text::views(expanded@).to_set(),
            ch == children(dv, parent@),
            rows_view(rows@) == start + dir_rows(dv, fv, e, children(dv.take(j as int), parent@), depth as nat, fuel as nat),
        decreases dirs.len() - j,
    {
        proof {
            lemma_filter_map_step(dv, |d: Seq<char>| if parent_of(d) == parent@ { Some(d) } else { None }, j as int);
        }
        let d = dirs[j].as_str();
        assert(d@ == dv[j as int]);
        let pd = parent_of_exec(d);
        if str_eq(pd.as_str(), parent) {
            let ghost before = rows_view(rows@);
            let ghost prev = children(dv.take(j as int), parent@);
            let ghost next = children(dv.take(j + 1), parent@);
            assert(next == prev.push(d@));
            assert(next.drop_last() =~= prev);
            let is_open = contains_string(expanded, d);
            assert(is_open == e.contains(d@));
            rows.push(TreeRow {
                path: owned(d),
                name: name_of_exec(d),
                depth,
                kind: TreeRowKind::Directory,
                status: None,
                expanded: is_open,
            });
            assert(rows_view(rows@) =~= before.push(dir_row(d@, depth as nat, is_open)));
            if is_open && fuel > 0 {
                let ghost mid = rows_view(rows@);
                add_rows(d, depth + 1, fuel - 1, expanded, dirs, files, rows);
                assert(rows_view(rows@) =~= start + dir_rows(dv, fv, e, next, depth as nat, fuel as nat));
            } else {
                assert(rows_view(rows@) =~= start + dir_rows(dv, fv, e, next, depth as nat, fuel as nat));
            }
        }
        j = j + 1;
    }
    assert(dv.take(j as int) =~= dv);
    let ghost after_dirs = rows_view(rows@);
    let mut k: usize = 0;
    while k < files.len()
        invariant
            k <= files.len(),
            fv == leaves_view(files@),
            rows_view(rows@) == after_dirs + file_rows(files_under(fv.take(k as int), parent@), depth as nat),
        decreases files.len() - k,
    {
        proof {
            lemma_filter_map_step(fv, |f: Leaf| if parent_of(f.0) == parent@ { Some(f) } else { None }, k as int);
        }
        let f = &files[k];
        assert(f.model() == fv[k as int]);
        let pf = parent_of_exec(f.path.as_str());
        if str_eq(pf.as_str(), parent) {
            let ghost before = rows_view(rows@);
            rows.push(TreeRow {
                path: f.path.clone(),
                name: name_of_exec(f.path.as_str()),
                depth,
                kind: TreeRowKind::File,
                status: Some(f.status.clone()),
                expanded: false,
            });
            assert(rows_view(rows@) =~= before.push(file_row(f.model(), depth as nat)));
            assert(file_rows(files_under(fv.take(k + 1), parent@), depth as nat) =~= file_rows(
                files_under(fv.take(k as int), parent@),
                depth as nat,
            ).push(file_row(f.model(), depth as nat)));
        }
        k = k + 1;
    }
    assert(fv.take(k as int) =~= fv);
}

/// The visible rows of `files` with the directories `expanded` open.
fn build_rows(files: &Vec<FileLeaf>, expanded: &Vec<String>) -> (res: Vec<TreeRow>)
    ensures
        rows_view(res@) == tree_rows(leaves_view(files@), crate::text::views(expanded@).to_set()),
{
    let dirs = collect_all_dirs(files);
    let sorted = sort_leaves(files);
    let fuel = max_path_len_exec(files);
    let mut rows: Vec<TreeRow> = Vec::new();
    add_rows("", 0, fuel, expanded, &dirs, &sorted, &mut rows);
    proof {
        reveal_strlit("");
    }
    assert(""@ =~= Seq::<char>::empty());
    assert(rows_view(rows@) =~= tree_rows(leaves_view(files@), crate::text::views(expanded@).to_set()));
    rows
}

// ---------------------------------------------------------------------
// Directory sets
// ---------------------------------------------------------------------
proof fn lemma_insert_unique_set(s: Seq<Seq<char>>, x: Seq<char>)
    ensures
        insert_unique(s, x).to_set() == s.to_set().insert(x),
    decreases s.len(),
{
    broadcast use vstd::seq_lib::lemma_seq_concat_contains_all_elements;

    let r = insert_unique(s, x);
    assert(seq![x][0] == x);
    assert forall|y: Seq<char>| seq![x].contains(y) <==> y == x by {
        if seq![x].contains(y) {
            let k = choose|k: int| 0 <= k < 1 && seq![x][k] == y;
            assert(k == 0);
        }
    }
    if s.len() == 0 {
        assert forall|y: Seq<char>| r.contains(y) <==> s.contains(y) || y == x by {}
    } else if s[0] == x {
        assert forall|y: Seq<char>| r.contains(y) <==> s.contains(y) || y == x by {
            if y == x {
                assert(s[0] == y);
            }
        }
    } else if str_lt(x, s[0]) {
        assert(r == seq![x] + s);
        assert forall|y: Seq<char>| r.contains(y) <==> s.contains(y) || y == x by {}
    } else {
        let t = s.drop_first();
        lemma_insert_unique_set(t, x);
        assert(s =~= seq![s[0]] + t);
        assert(r == seq![s[0]] + insert_unique(t, x));
        assert forall|y: Seq<char>| seq![s[0]].contains(y) <==> y == s[0] by {
            if seq![s[0]].contains(y) {
                let k = choose|k: int| 0 <= k < 1 && seq![s[0]][k] == y;
                assert(k == 0);
            }
            if y == s[0] {
                assert(seq![s[0]][0] == y);
            }
        }
        assert forall|y: Seq<char>| r.contains(y) <==> s.contains(y) || y == x by {
            assert(insert_unique(t, x).to_set().contains(y) == insert_unique(t, x).contains(y));
        }
    }
    assert(r.to_set() =~= s.to_set().insert(x));
}

proof fn lemma_insert_all_unique_set(s: Seq<Seq<char>>, xs: Seq<Seq<char>>)
    ensures
        insert_all_unique(s, xs).to_set() == s.to_set() + xs.to_set(),
    decreases xs.len(),
{
    broadcast use vstd::seq_lib::lemma_seq_contains_after_push;

    if xs.len() > 0 {
        lemma_insert_all_unique_set(s, xs.drop_last());
        lemma_insert_unique_set(insert_all_unique(s, xs.drop_last()), xs.last());
        assert(xs =~= xs.drop_last().push(xs.last()));
        assert(insert_all_unique(s, xs).to_set() =~= s.to_set() + xs.to_set());
    } else {
        assert(s.to_set() + xs.to_set() =~= s.to_set());
    }
}

/// The ordered directory list holds exactly the directories above the files.
pub proof fn lemma_dir_list_is_dir_set(files: Seq<Leaf>)
    ensures
        dir_list(files).to_set() == dir_set(files),
    decreases files.len(),
{
    if files.len() > 0 {
        let init = files.drop_last();
        lemma_dir_list_is_dir_set(init);
        lemma_insert_all_unique_set(dir_list(init), path_dirs(files.last().0));
        assert forall|d: Seq<char>| dir_set(files).contains(d) <==> dir_set(init).contains(d) || path_dirs(
            files.last().0,
        ).contains(d) by {
            if dir_set(files).contains(d) {
                let k = choose|k: int| 0 <= k < files.len() && path_dirs(files[k].0).contains(d);
                if k < files.len() - 1 {
                    assert(init[k] == files[k]);
                }
            }
            if dir_set(init).contains(d) {
                let k = choose|k: int| 0 <= k < init.len() && path_dirs(init[k].0).contains(d);
                assert(files[k] == init[k]);
            }
            if path_dirs(files.last().0).contains(d) {
                assert(path_dirs(files[files.len() - 1].0).contains(d));
            }
        }
        assert(dir_list(files).to_set() =~= dir_set(files));
    } else {
        assert(dir_list(files).to_set() =~= dir_set(files));
    }
}

/// `s` is strictly increasing.
spec fn strictly_sorted(s: Seq<Seq<char>>) -> bool {
    forall|i: int, j: int| 0 <= i < j < s.len() ==> str_lt(#[trigger] s[i], #[trigger] s[j])
}

proof fn lemma_insert_unique_sorted(s: Seq<Seq<char>>, x: Seq<char>)
    requires
        strictly_sorted(s),
    ensures
        strictly_sorted(insert_unique(s, x)),
    decreases s.len(),
{
    if s.len() == 0 {
    } else if s[0] == x {
    } else if str_lt(x, s[0]) {
        let r = seq![x] + s;
        assert forall|i: int, j: int| 0 <= i < j < r.len() implies str_lt(#[trigger] r[i], #[trigger] r[j]) by {
            if i == 0 {
                if j > 1 {
                    assert(str_lt(s[0], s[j - 1]));
                    crate::order::lemma_str_lt_trans(x, s[0], s[j - 1]);
                }
            } else {
                assert(r[i] == s[i - 1] && r[j] == s[j - 1]);
            }
        }
    } else {
        let t = s.drop_first();
        assert(strictly_sorted(t)) by {
            assert forall|i: int, j: int| 0 <= i < j < t.len() implies str_lt(#[trigger] t[i], #[trigger] t[j]) by {
                assert(t[i] == s[i + 1] && t[j] == s[j + 1]);
            }
        }
        lemma_insert_unique_sorted(t, x);
        lemma_insert_unique_set(t, x);
        crate::order::lemma_str_lt_total(x, s[0]);
        let it = insert_unique(t, x);
        let r = seq![s[0]] + it;
        assert forall|j: int| 0 <= j < it.len() implies str_lt(s[0], #[trigger] it[j]) by {
            assert(it.to_set().contains(it[j]));
            if it[j] != x {
                assert(t.to_set().contains(it[j]));
                let k = choose|k: int| 0 <= k < t.len() && t[k] == it[j];
                assert(s[k + 1] == t[k]);
            }
        }
        assert forall|i: int, j: int| 0 <= i < j < r.len() implies str_lt(#[trigger] r[i], #[trigger] r[j]) by {
            if i == 0 {
                assert(r[j] == it[j - 1]);
            } else {
                assert(r[i] == it[i - 1] && r[j] == it[j - 1]);
            }
        }
    }
}

proof fn lemma_insert_all_unique_sorted(s: Seq<Seq<char>>, xs: Seq<Seq<char>>)
    requires
        strictly_sorted(s),
    ensures
        strictly_sorted(insert_all_unique(s, xs)),
    decreases xs.len(),
{
    if xs.len() > 0 {
        lemma_insert_all_unique_sorted(s, xs.drop_last());
        lemma_insert_unique_sorted(insert_all_unique(s, xs.drop_last()), xs.last());
    }
}

/// The directory list is strictly increasing, so no directory is in it twice.
proof fn lemma_dir_list_sorted(files: Seq<Leaf>)
    ensures
        strictly_sorted(dir_list(files)),
        dir_list(files).no_duplicates(),
    decreases files.len(),
{
    if files.len() > 0 {
        lemma_dir_list_sorted(files.drop_last());
        lemma_insert_all_unique_sorted(dir_list(files.drop_last()), path_dirs(files.last().0));
    }
    let l = dir_list(files);
    assert forall|i: int, j: int| 0 <= i < l.len() && 0 <= j < l.len() && i != j implies l[i] != l[j] by {
        if i < j {
            assert(str_lt(l[i], l[j]));
            crate::order::lemma_str_lt_irreflexive(l[i]);
        } else {
            assert(str_lt(l[j], l[i]));
            crate::order::lemma_str_lt_irreflexive(l[j]);
        }
    }
}

proof fn lemma_last_slash_in(p: Seq<char>)
    ensures
        last_slash(p) matches Some(i) ==> 0 <= i < p.len(),
    decreases p.len(),
{
    if p.len() > 0 && p.last() != '/' {
        lemma_last_slash_in(p.drop_last());
    }
}

proof fn lemma_parent_shorter(p: Seq<char>)
    requires
        p.len() > 0,
    ensures
        parent_of(p).len() < p.len(),
{
    lemma_last_slash_in(p);
}

/// `x` lies strictly under `q`: walking up its parents reaches `q`.
spec fn under(x: Seq<char>, q: Seq<char>) -> bool
    decreases x.len(),
{
    if x.len() == 0 {
        false
    } else {
        proof {
            lemma_parent_shorter(x);
        }
        parent_of(x) == q || under(parent_of(x), q)
    }
}

/// The first of `x` and its parents whose parent is `q`.
spec fn top(x: Seq<char>, q: Seq<char>) -> Seq<char>
    decreases x.len(),
{
    if x.len() == 0 || parent_of(x) == q {
        x
    } else {
        proof {
            lemma_parent_shorter(x);
        }
        top(parent_of(x), q)
    }
}

proof fn lemma_under_longer(x: Seq<char>, c: Seq<char>)
    requires
        under(x, c),
    ensures
        x.len() > c.len(),
    decreases x.len(),
{
    lemma_parent_shorter(x);
    if parent_of(x) != c {
        lemma_under_longer(parent_of(x), c);
    }
}

/// What lies under a child `c` of `q` lies under `q`, below `c`.
proof fn lemma_top_through(x: Seq<char>, c: Seq<char>, q: Seq<char>)
    requires
        under(x, c),
        parent_of(c) == q,
        c.len() > q.len(),
    ensures
        top(x, q) == c,
        under(x, q),
    decreases x.len(),
{
    lemma_parent_shorter(x);
    let y = parent_of(x);
    assert(under(c, q));
    assert(top(c, q) == c);
    if y != c {
        lemma_under_longer(y, c);
        lemma_top_through(y, c, q);
    }
}

/// The children of `q` in `dirs` are directories of `dirs` whose parent is
/// `q`, none twice where `dirs` has none twice.
proof fn lemma_children(dirs: Seq<Seq<char>>, q: Seq<char>)
    ensures
        forall|c: Seq<char>| #[trigger] children(dirs, q).contains(c) ==> dirs.contains(c) && parent_of(c) == q,
        dirs.no_duplicates() ==> children(dirs, q).no_duplicates(),
    decreases dirs.len(),
{
    if dirs.len() > 0 {
        let init = dirs.drop_last();
        lemma_children(init, q);
        let ci = children(init, q);
        let l = dirs.last();
        assert forall|c: Seq<char>| ci.contains(c) implies dirs.contains(c) by {
            let k = choose|k: int| 0 <= k < init.len() && init[k] == c;
            assert(dirs[k] == c);
        }
        assert(dirs[dirs.len() - 1] == l);
        if parent_of(l) == q {
            assert(children(dirs, q) == ci + seq![l]);
            assert forall|c: Seq<char>| #[trigger] (ci + seq![l]).contains(c) implies dirs.contains(c) && parent_of(c) == q by {
                let k = choose|k: int| 0 <= k < (ci + seq![l]).len() && (ci + seq![l])[k] == c;
                if k < ci.len() {
                    assert(ci[k] == c);
                    assert(ci.contains(c));
                }
            }
            if dirs.no_duplicates() {
                assert(init.no_duplicates());
                assert(!init.contains(l)) by {
                    if init.contains(l) {
                        let k = choose|k: int| 0 <= k < init.len() && init[k] == l;
                        assert(dirs[k] == dirs[dirs.len() - 1]);
                    }
                }
                assert(!ci.contains(l));
                let r = ci + seq![l];
                assert forall|i: int, j: int| 0 <= i < r.len() && 0 <= j < r.len() && i != j implies r[i] != r[j] by {
                    if i < ci.len() && j < ci.len() {
                    } else if i < ci.len() {
                        assert(r[j] == l && r[i] == ci[i]);
                    } else if j < ci.len() {
                        assert(r[i] == l && r[j] == ci[j]);
                    }
                }
            }
        } else {
            assert(children(dirs, q) == ci);
        }
    }
}

/// No directory shows in two rows.
spec fn dir_rows_distinct(rows: Seq<RowModel>) -> bool {
    forall|i: int, j: int|
        0 <= i < j < rows.len() && (#[trigger] rows[i]).3 == TreeRowKind::Directory && (#[trigger] rows[j]).3
            == TreeRowKind::Directory ==> rows[i].0 != rows[j].0
}

/// Each directory row shows a directory of `dirs` under `q` (or the
/// unnamed one), at or below one of `ds`.
spec fn rows_below(rows: Seq<RowModel>, q: Seq<char>, ds: Seq<Seq<char>>, dirs: Seq<Seq<char>>) -> bool {
    forall|i: int|
        0 <= i < rows.len() && (#[trigger] rows[i]).3 == TreeRowKind::Directory ==> (under(rows[i].0, q)
            || rows[i].0.len() == 0) && ds.contains(top(rows[i].0, q)) && dirs.contains(rows[i].0)
}

proof fn lemma_rows_below_concat(
    a: Seq<RowModel>,
    b: Seq<RowModel>,
    q: Seq<char>,
    ds: Seq<Seq<char>>,
    dirs: Seq<Seq<char>>,
)
    requires
        rows_below(a, q, ds, dirs),
        rows_below(b, q, ds, dirs),
    ensures
        rows_below(a + b, q, ds, dirs),
{
    assert forall|i: int| 0 <= i < (a + b).len() && (#[trigger] (a + b)[i]).3 == TreeRowKind::Directory implies (under(
        (a + b)[i].0,
        q,
    ) || (a + b)[i].0.len() == 0) && ds.contains(top((a + b)[i].0, q)) && dirs.contains((a + b)[i].0) by {
        if i < a.len() {
            assert((a + b)[i] == a[i]);
        } else {
            assert((a + b)[i] == b[i - a.len()]);
        }
    }
}

proof fn lemma_distinct_concat(a: Seq<RowModel>, b: Seq<RowModel>)
    requires
        dir_rows_distinct(a),
        dir_rows_distinct(b),
        forall|i: int, j: int|
            0 <= i < a.len() && 0 <= j < b.len() && (#[trigger] a[i]).3 == TreeRowKind::Directory && (
            #[trigger] b[j]).3 == TreeRowKind::Directory ==> a[i].0 != b[j].0,
    ensures
        dir_rows_distinct(a + b),
{
    let r = a + b;
    assert forall|i: int, j: int|
        0 <= i < j < r.len() && (#[trigger] r[i]).3 == TreeRowKind::Directory && (#[trigger] r[j]).3
            == TreeRowKind::Directory implies r[i].0 != r[j].0 by {
        if j < a.len() {
            assert(r[i] == a[i] && r[j] == a[j]);
        } else if i >= a.len() {
            assert(r[i] == b[i - a.len()] && r[j] == b[j - a.len()]);
        } else {
            assert(r[i] == a[i] && r[j] == b[j - a.len()]);
        }
    }
}

proof fn lemma_files_no_dirs(fs: Seq<Leaf>, depth: nat, q: Seq<char>, ds: Seq<Seq<char>>, dirs: Seq<Seq<char>>)
    ensures
        rows_below(file_rows(fs, depth), q, ds, dirs),
        dir_rows_distinct(file_rows(fs, depth)),
{
    let r = file_rows(fs, depth);
    assert forall|i: int| 0 <= i < r.len() implies (#[trigger] r[i]).3 == TreeRowKind::File by {}
}

proof fn lemma_unique_subtree(
    dirs: Seq<Seq<char>>,
    files: Seq<Leaf>,
    e: Set<Seq<char>>,
    q: Seq<char>,
    depth: nat,
    fuel: nat,
)
    requires
        dirs.no_duplicates(),
        dirs.contains(Seq::<char>::empty()) ==> !e.contains(Seq::<char>::empty()),
    ensures
        rows_below(subtree(dirs, files, e, q, depth, fuel), q, children(dirs, q), dirs),
        dir_rows_distinct(subtree(dirs, files, e, q, depth, fuel)),
    decreases fuel, 1nat, 0nat,
{
    let ds = children(dirs, q);
    lemma_children(dirs, q);
    lemma_unique_dir_rows(dirs, files, e, q, ds, depth, fuel);
    let a = dir_rows(dirs, files, e, ds, depth, fuel);
    let b = file_rows(files_under(files, q), depth);
    lemma_files_no_dirs(files_under(files, q), depth, q, ds, dirs);
    lemma_rows_below_concat(a, b, q, ds, dirs);
    assert forall|i: int, j: int|
        0 <= i < a.len() && 0 <= j < b.len() && (#[trigger] a[i]).3 == TreeRowKind::Directory && (
        #[trigger] b[j]).3 == TreeRowKind::Directory implies a[i].0 != b[j].0 by {
        assert(b[j].3 == TreeRowKind::File);
    }
    lemma_distinct_concat(a, b);
}

proof fn lemma_unique_dir_rows(
    dirs: Seq<Seq<char>>,
    files: Seq<Leaf>,
    e: Set<Seq<char>>,
    q: Seq<char>,
    ds: Seq<Seq<char>>,
    depth: nat,
    fuel: nat,
)
    requires
        dirs.no_duplicates(),
        dirs.contains(Seq::<char>::empty()) ==> !e.contains(Seq::<char>::empty()),
        ds.no_duplicates(),
        forall|c: Seq<char>| #[trigger] ds.contains(c) ==> dirs.contains(c) && parent_of(c) == q,
    ensures
        rows_below(dir_rows(dirs, files, e, ds, depth, fuel), q, ds, dirs),
        dir_rows_distinct(dir_rows(dirs, files, e, ds, depth, fuel)),
    decreases fuel, 0nat, ds.len(),
{
    if ds.len() > 0 {
        let c = ds.last();
        let init = ds.drop_last();
        assert(ds[ds.len() - 1] == c);
        assert(ds.contains(c));
        assert(dirs.contains(c));
        if c.len() == 0 {
            assert(c =~= Seq::<char>::empty());
        } else {
            lemma_parent_shorter(c);
        }
        assert forall|x: Seq<char>| #[trigger] init.contains(x) implies ds.contains(x) by {
            let k = choose|k: int| 0 <= k < init.len() && init[k] == x;
            assert(ds[k] == x);
        }
        assert(init.no_duplicates());
        assert(!init.contains(c)) by {
            if init.contains(c) {
                let k = choose|k: int| 0 <= k < init.len() && init[k] == c;
                assert(ds[k] == ds[ds.len() - 1]);
            }
        }
        lemma_unique_dir_rows(dirs, files, e, q, init, depth, fuel);
        let head = dir_rows(dirs, files, e, init, depth, fuel);
        let own = seq![dir_row(c, depth, e.contains(c))];
        let sub = if e.contains(c) && fuel > 0 {
            subtree(dirs, files, e, c, depth + 1, (fuel - 1) as nat)
        } else {
            Seq::empty()
        };
        assert(dir_rows(dirs, files, e, ds, depth, fuel) == head + own + sub);
        // the head lies below the other children
        assert(rows_below(head, q, ds, dirs)) by {
            assert forall|i: int| 0 <= i < head.len() && (#[trigger] head[i]).3 == TreeRowKind::Directory implies (under(
                head[i].0,
                q,
            ) || head[i].0.len() == 0) && ds.contains(top(head[i].0, q)) && dirs.contains(head[i].0) by {
                assert(init.contains(top(head[i].0, q)));
            }
        }
        // the child's own row
        assert(under(c, q) || c.len() == 0);
        assert(top(c, q) == c);
        assert(rows_below(own, q, ds, dirs)) by {
            assert forall|i: int| 0 <= i < own.len() && (#[trigger] own[i]).3 == TreeRowKind::Directory implies (under(
                own[i].0,
                q,
            ) || own[i].0.len() == 0) && ds.contains(top(own[i].0, q)) && dirs.contains(own[i].0) by {
                assert(own[i] == dir_row(c, depth, e.contains(c)));
            }
        }
        assert(dir_rows_distinct(own));
        // what lies under the child
        if e.contains(c) && fuel > 0 {
            assert(c.len() > 0);
            lemma_unique_subtree(dirs, files, e, c, depth + 1, (fuel - 1) as nat);
            lemma_children(dirs, c);
        }
        assert(forall|i: int|
            0 <= i < sub.len() && (#[trigger] sub[i]).3 == TreeRowKind::Directory ==> under(sub[i].0, c)
                && dirs.contains(sub[i].0));
        assert(rows_below(sub, q, ds, dirs)) by {
            assert forall|i: int| 0 <= i < sub.len() && (#[trigger] sub[i]).3 == TreeRowKind::Directory implies (under(
                sub[i].0,
                q,
            ) || sub[i].0.len() == 0) && ds.contains(top(sub[i].0, q)) && dirs.contains(sub[i].0) by {
                lemma_top_through(sub[i].0, c, q);
            }
        }
        assert(dir_rows_distinct(sub));
        lemma_rows_below_concat(head, own, q, ds, dirs);
        lemma_rows_below_concat(head + own, sub, q, ds, dirs);
        assert forall|i: int, j: int|
            0 <= i < head.len() && 0 <= j < own.len() && (#[trigger] head[i]).3 == TreeRowKind::Directory && (
            #[trigger] own[j]).3 == TreeRowKind::Directory implies head[i].0 != own[j].0 by {
            assert(own[j].0 == c);
            assert(init.contains(top(head[i].0, q)));
        }
        lemma_distinct_concat(head, own);
        assert forall|i: int, j: int|
            0 <= i < (head + own).len() && 0 <= j < sub.len() && (#[trigger] (head + own)[i]).3
                == TreeRowKind::Directory && (#[trigger] sub[j]).3 == TreeRowKind::Directory implies (head
            + own)[i].0 != sub[j].0 by {
            lemma_top_through(sub[j].0, c, q);
            if i < head.len() {
                assert((head + own)[i] == head[i]);
                assert(init.contains(top(head[i].0, q)));
            } else {
                assert((head + own)[i] == own[i - head.len()]);
                lemma_under_longer(sub[j].0, c);
            }
        }
        lemma_distinct_concat(head + own, sub);
    }
}

/// No row among the first `n` of `rows` shows the directory `d`.
spec fn no_dir_row_before(rows: Seq<RowModel>, d: Seq<char>, n: int) -> bool {
    forall|k: int| 0 <= k < n && k < rows.len() && (#[trigger] rows[k]).3 == TreeRowKind::Directory ==> rows[k].0 != d
}

/// Opening a directory that shows in no row changes no row.
proof fn lemma_open_unseen_subtree(
    dirs: Seq<Seq<char>>,
    files: Seq<Leaf>,
    e: Set<Seq<char>>,
    d: Seq<char>,
    q: Seq<char>,
    depth: nat,
    fuel: nat,
)
    requires
        no_dir_row_before(
            subtree(dirs, files, e, q, depth, fuel),
            d,
            subtree(dirs, files, e, q, depth, fuel).len() as int,
        ),
    ensures
        subtree(dirs, files, e.insert(d), q, depth, fuel) == subtree(dirs, files, e, q, depth, fuel),
    decreases fuel, 1nat, 0nat,
{
    let a = dir_rows(dirs, files, e, children(dirs, q), depth, fuel);
    let b = file_rows(files_under(files, q), depth);
    let r = a + b;
    assert forall|k: int| 0 <= k < a.len() && (#[trigger] a[k]).3 == TreeRowKind::Directory implies a[k].0 != d by {
        assert(r[k] == a[k]);
    }
    lemma_open_unseen_dir_rows(dirs, files, e, d, children(dirs, q), depth, fuel);
}

proof fn lemma_open_unseen_dir_rows(
    dirs: Seq<Seq<char>>,
    files: Seq<Leaf>,
    e: Set<Seq<char>>,
    d: Seq<char>,
    ds: Seq<Seq<char>>,
    depth: nat,
    fuel: nat,
)
    requires
        no_dir_row_before(
            dir_rows(dirs, files, e, ds, depth, fuel),
            d,
            dir_rows(dirs, files, e, ds, depth, fuel).len() as int,
        ),
    ensures
        dir_rows(dirs, files, e.insert(d), ds, depth, fuel) == dir_rows(dirs, files, e, ds, depth, fuel),
    decreases fuel, 0nat, ds.len(),
{
    if ds.len() > 0 {
        let c = ds.last();
        let head = dir_rows(dirs, files, e, ds.drop_last(), depth, fuel);
        let own = seq![dir_row(c, depth, e.contains(c))];
        let sub = if e.contains(c) && fuel > 0 {
            subtree(dirs, files, e, c, depth + 1, (fuel - 1) as nat)
        } else {
            Seq::empty()
        };
        let r = head + own + sub;
        assert(dir_rows(dirs, files, e, ds, depth, fuel) == r);
        assert forall|k: int| 0 <= k < head.len() && (#[trigger] head[k]).3 == TreeRowKind::Directory implies head[k].0
            != d by {
            assert(r[k] == head[k]);
        }
        lemma_open_unseen_dir_rows(dirs, files, e, d, ds.drop_last(), depth, fuel);
        assert(r[head.len() as int] == own[0]);
        assert(c != d);
        assert(e.insert(d).contains(c) == e.contains(c));
        if e.contains(c) && fuel > 0 {
            assert forall|k: int| 0 <= k < sub.len() && (#[trigger] sub[k]).3 == TreeRowKind::Directory implies sub[k].0
                != d by {
                assert(r[head.len() + 1 + k] == sub[k]);
            }
            lemma_open_unseen_subtree(dirs, files, e, d, c, depth + 1, (fuel - 1) as nat);
        }
    }
}

/// Opening the directory of the first row that shows it keeps that row
/// where it was, now open.
proof fn lemma_open_first_subtree(
    dirs: Seq<Seq<char>>,
    files: Seq<Leaf>,
    e: Set<Seq<char>>,
    d: Seq<char>,
    q: Seq<char>,
    depth: nat,
    fuel: nat,
    i: int,
)
    requires
        0 <= i < subtree(dirs, files, e, q, depth, fuel).len(),
        subtree(dirs, files, e, q, depth, fuel)[i].3 == TreeRowKind::Directory,
        subtree(dirs, files, e, q, depth, fuel)[i].0 == d,
        no_dir_row_before(subtree(dirs, files, e, q, depth, fuel), d, i),
    ensures
        i < subtree(dirs, files, e.insert(d), q, depth, fuel).len(),
        subtree(dirs, files, e.insert(d), q, depth, fuel)[i].3 == TreeRowKind::Directory,
        subtree(dirs, files, e.insert(d), q, depth, fuel)[i].0 == d,
        subtree(dirs, files, e.insert(d), q, depth, fuel)[i].5,
    decreases fuel, 1nat, 0nat,
{
    let a = dir_rows(dirs, files, e, children(dirs, q), depth, fuel);
    let b = file_rows(files_under(files, q), depth);
    let r = a + b;
    if i >= a.len() {
        assert(r[i] == b[i - a.len()]);
        assert(false);
    }
    assert(r[i] == a[i]);
    assert forall|k: int| 0 <= k < i && k < a.len() && (#[trigger] a[k]).3 == TreeRowKind::Directory implies a[k].0 != d by {
        assert(r[k] == a[k]);
    }
    lemma_open_first_dir_rows(dirs, files, e, d, children(dirs, q), depth, fuel, i);
    let a2 = dir_rows(dirs, files, e.insert(d), children(dirs, q), depth, fuel);
    let b2 = file_rows(files_under(files, q), depth);
    assert((a2 + b2)[i] == a2[i]);
}

proof fn lemma_open_first_dir_rows(
    dirs: Seq<Seq<char>>,
    files: Seq<Leaf>,
    e: Set<Seq<char>>,
    d: Seq<char>,
    ds: Seq<Seq<char>>,
    depth: nat,
    fuel: nat,
    i: int,
)
    requires
        0 <= i < dir_rows(dirs, files, e, ds, depth, fuel).len(),
        dir_rows(dirs, files, e, ds, depth, fuel)[i].3 == TreeRowKind::Directory,
        dir_rows(dirs, files, e, ds, depth, fuel)[i].0 == d,
        no_dir_row_before(dir_rows(dirs, files, e, ds, depth, fuel), d, i),
    ensures
        i < dir_rows(dirs, files, e.insert(d), ds, depth, fuel).len(),
        dir_rows(dirs, files, e.insert(d), ds, depth, fuel)[i].3 == TreeRowKind::Directory,
        dir_rows(dirs, files, e.insert(d), ds, depth, fuel)[i].0 == d,
        dir_rows(dirs, files, e.insert(d), ds, depth, fuel)[i].5,
    decreases fuel, 0nat, ds.len(),
{
    let e2 = e.insert(d);
    let c = ds.last();
    let head = dir_rows(dirs, files, e, ds.drop_last(), depth, fuel);
    let own = seq![dir_row(c, depth, e.contains(c))];
    let sub = if e.contains(c) && fuel > 0 {
        subtree(dirs, files, e, c, depth + 1, (fuel - 1) as nat)
    } else {
        Seq::empty()
    };
    let r = head + own + sub;
    assert(dir_rows(dirs, files, e, ds, depth, fuel) == r);
    let head2 = dir_rows(dirs, files, e2, ds.drop_last(), depth, fuel);
    let own2 = seq![dir_row(c, depth, e2.contains(c))];
    let sub2 = if e2.contains(c) && fuel > 0 {
        subtree(dirs, files, e2, c, depth + 1, (fuel - 1) as nat)
    } else {
        Seq::empty()
    };
    let r2 = head2 + own2 + sub2;
    assert(dir_rows(dirs, files, e2, ds, depth, fuel) == r2);
    if i < head.len() {
        assert(r[i] == head[i]);
        assert forall|k: int| 0 <= k < i && k < head.len() && (#[trigger] head[k]).3 == TreeRowKind::Directory implies head[k].0
            != d by {
            assert(r[k] == head[k]);
        }
        lemma_open_first_dir_rows(dirs, files, e, d, ds.drop_last(), depth, fuel, i);
        assert(r2[i] == head2[i]);
    } else {
        assert forall|k: int| 0 <= k < head.len() && (#[trigger] head[k]).3 == TreeRowKind::Directory implies head[k].0
            != d by {
            assert(r[k] == head[k]);
        }
        lemma_open_unseen_dir_rows(dirs, files, e, d, ds.drop_last(), depth, fuel);
        assert(head2 == head);
        if i == head.len() {
            assert(r[i] == own[0]);
            assert(c == d);
            assert(r2[i] == own2[0]);
        } else {
            assert(r[head.len() as int] == own[0]);
            assert(c != d);
            assert(e2.contains(c) == e.contains(c));
            let j = i - head.len() - 1;
            assert(r[i] == sub[j]);
            assert(e.contains(c) && fuel > 0);
            assert forall|k: int| 0 <= k < j && k < sub.len() && (#[trigger] sub[k]).3 == TreeRowKind::Directory implies sub[k].0
                != d by {
                assert(r[head.len() + 1 + k] == sub[k]);
            }
            lemma_open_first_subtree(dirs, files, e, d, c, depth + 1, (fuel - 1) as nat, j);
            assert(r2[i] == sub2[j]);
        }
    }
}

proof fn lemma_strip_leading_shorter(s: Seq<char>, c: char)
    ensures
        strip_leading_char(s, c).len() <= s.len(),
    decreases s.len(),
{
    if s.len() > 0 && s[0] == c {
        lemma_strip_leading_shorter(s.drop_first(), c);
    }
}

/// The directories above a path are shorter than it.
proof fn lemma_path_dirs_shorter(p: Seq<char>)
    ensures
        forall|d: Seq<char>| #[trigger] path_dirs(p).contains(d) ==> d.len() < p.len(),
    decreases p.len(),
{
    if p.len() > 0 {
        let init = p.drop_last();
        lemma_path_dirs_shorter(init);
        if p.last() == '/' {
            lemma_strip_leading_shorter(init, '/');
            let x = strip_leading_char(init, '/');
            assert forall|d: Seq<char>| #[trigger] path_dirs(p).contains(d) implies d.len() < p.len() by {
                let k = choose|k: int| 0 <= k < path_dirs(p).len() && path_dirs(p)[k] == d;
                if k < path_dirs(init).len() {
                    assert(path_dirs(init)[k] == d);
                    assert(path_dirs(init).contains(d));
                } else {
                    assert(d == x);
                }
            }
        }
    }
}

proof fn lemma_max_path_len(files: Seq<Leaf>, k: int)
    requires
        0 <= k < files.len(),
    ensures
        files[k].0.len() <= max_path_len(files),
    decreases files.len(),
{
    if k < files.len() - 1 {
        lemma_max_path_len(files.drop_last(), k);
        assert(files.drop_last()[k] == files[k]);
    }
}

/// Every listed directory is shorter than the longest file path.
proof fn lemma_dirs_shorter(files: Seq<Leaf>)
    ensures
        forall|d: Seq<char>| #[trigger] dir_list(files).contains(d) ==> d.len() < max_path_len(files),
{
    lemma_dir_list_is_dir_set(files);
    assert forall|d: Seq<char>| #[trigger] dir_list(files).contains(d) implies d.len() < max_path_len(files) by {
        assert(dir_list(files).to_set().contains(d));
        assert(dir_set(files).contains(d));
        let k = choose|k: int| 0 <= k < files.len() && path_dirs(files[k].0).contains(d);
        lemma_path_dirs_shorter(files[k].0);
        lemma_max_path_len(files, k);
    }
}

/// With at least `bound - |q|` levels of nesting allowed, allowing more
/// changes no row: the allowance is never used up.
proof fn lemma_fuel_subtree(
    dirs: Seq<Seq<char>>,
    files: Seq<Leaf>,
    e: Set<Seq<char>>,
    q: Seq<char>,
    depth: nat,
    f: nat,
    g: nat,
    bound: nat,
)
    requires
        forall|d: Seq<char>| #[trigger] dirs.contains(d) ==> d.len() < bound,
        dirs.contains(Seq::<char>::empty()) ==> !e.contains(Seq::<char>::empty()),
        f + q.len() >= bound,
        g >= f,
    ensures
        subtree(dirs, files, e, q, depth, g) == subtree(dirs, files, e, q, depth, f),
    decreases f, 1nat, 0nat,
{
    lemma_children(dirs, q);
    lemma_fuel_dir_rows(dirs, files, e, q, children(dirs, q), depth, f, g, bound);
}

proof fn lemma_fuel_dir_rows(
    dirs: Seq<Seq<char>>,
    files: Seq<Leaf>,
    e: Set<Seq<char>>,
    q: Seq<char>,
    ds: Seq<Seq<char>>,
    depth: nat,
    f: nat,
    g: nat,
    bound: nat,
)
    requires
        forall|d: Seq<char>| #[trigger] dirs.contains(d) ==> d.len() < bound,
        dirs.contains(Seq::<char>::empty()) ==> !e.contains(Seq::<char>::empty()),
        forall|c: Seq<char>| #[trigger] ds.contains(c) ==> dirs.contains(c) && parent_of(c) == q,
        f + q.len() >= bound,
        g >= f,
    ensures
        dir_rows(dirs, files, e, ds, depth, g) == dir_rows(dirs, files, e, ds, depth, f),
    decreases f, 0nat, ds.len(),
{
    if ds.len() > 0 {
        let c = ds.last();
        let init = ds.drop_last();
        assert(ds[ds.len() - 1] == c);
        assert(ds.contains(c));
        assert forall|x: Seq<char>| #[trigger] init.contains(x) implies dirs.contains(x) && parent_of(x) == q by {
            let k = choose|k: int| 0 <= k < init.len() && init[k] == x;
            assert(ds[k] == x);
            assert(ds.contains(x));
        }
        lemma_fuel_dir_rows(dirs, files, e, q, init, depth, f, g, bound);
        if e.contains(c) {
            if c.len() == 0 {
                assert(c =~= Seq::<char>::empty());
            }
            lemma_parent_shorter(c);
            assert(f > 0);
            lemma_fuel_subtree(dirs, files, e, c, depth + 1, (f - 1) as nat, (g - 1) as nat, bound);
        }
    }
}

/// The rows are those of an unbounded walk: allowing deeper nesting than
/// the longest path changes no row (unless the unnamed directory of
/// absolute paths is open, where the walk would not end).
pub proof fn law_rows_need_no_more_nesting(files: Seq<Leaf>, e: Set<Seq<char>>, extra: nat)
    requires
        dir_set(files).contains(Seq::<char>::empty()) ==> !e.contains(Seq::<char>::empty()),
    ensures
        subtree(dir_list(files), sort_by_path(files), e, Seq::empty(), 0, row_fuel(files) + extra) == tree_rows(
            files,
            e,
        ),
{
    lemma_dirs_shorter(files);
    lemma_dir_list_is_dir_set(files);
    assert(dir_list(files).contains(Seq::<char>::empty()) ==> !e.contains(Seq::<char>::empty())) by {
        if dir_list(files).contains(Seq::<char>::empty()) {
            assert(dir_list(files).to_set().contains(Seq::<char>::empty()));
        }
    }
    lemma_fuel_subtree(
        dir_list(files),
        sort_by_path(files),
        e,
        Seq::empty(),
        0,
        row_fuel(files),
        row_fuel(files) + extra,
        max_path_len(files),
    );
}

/// Every directory row says whether its directory is open.
pub open spec fn flags_truthful(rows: Seq<RowModel>, e: Set<Seq<char>>) -> bool {
    forall|i: int|
        0 <= i < rows.len() && (#[trigger] rows[i]).3 == TreeRowKind::Directory ==> rows[i].5 == e.contains(
            rows[i].0,
        )
}

proof fn lemma_flags_concat(a: Seq<RowModel>, b: Seq<RowModel>, e: Set<Seq<char>>)
    requires
        flags_truthful(a, e),
        flags_truthful(b, e),
    ensures
        flags_truthful(a + b, e),
{
    assert forall|i: int| 0 <= i < (a + b).len() && (#[trigger] (a + b)[i]).3 == TreeRowKind::Directory implies (a
        + b)[i].5 == e.contains((a + b)[i].0) by {
        if i < a.len() {
            assert((a + b)[i] == a[i]);
        } else {
            assert((a + b)[i] == b[i - a.len()]);
        }
    }
}

proof fn lemma_flags_subtree(
    dirs: Seq<Seq<char>>,
    files: Seq<Leaf>,
    e: Set<Seq<char>>,
    q: Seq<char>,
    depth: nat,
    fuel: nat,
)
    ensures
        flags_truthful(subtree(dirs, files, e, q, depth, fuel), e),
    decreases fuel, 1nat, 0nat,
{
    let fs = file_rows(files_under(files, q), depth);
    lemma_flags_dir_rows(dirs, files, e, children(dirs, q), depth, fuel);
    assert(flags_truthful(fs, e)) by {
        assert forall|i: int| 0 <= i < fs.len() implies (#[trigger] fs[i]).3 == TreeRowKind::File by {}
    }
    lemma_flags_concat(dir_rows(dirs, files, e, children(dirs, q), depth, fuel), fs, e);
}

proof fn lemma_flags_dir_rows(
    dirs: Seq<Seq<char>>,
    files: Seq<Leaf>,
    e: Set<Seq<char>>,
    ds: Seq<Seq<char>>,
    depth: nat,
    fuel: nat,
)
    ensures
        flags_truthful(dir_rows(dirs, files, e, ds, depth, fuel), e),
    decreases fuel, 0nat, ds.len(),
{
    if ds.len() > 0 {
        let d = ds.last();
        let head = dir_rows(dirs, files, e, ds.drop_last(), depth, fuel);
        let own = seq![dir_row(d, depth, e.contains(d))];
        lemma_flags_dir_rows(dirs, files, e, ds.drop_last(), depth, fuel);
        assert(flags_truthful(own, e));
        lemma_flags_concat(head, own, e);
        if e.contains(d) && fuel > 0 {
            lemma_flags_subtree(dirs, files, e, d, depth + 1, (fuel - 1) as nat);
            lemma_flags_concat(head + own, subtree(dirs, files, e, d, depth + 1, (fuel - 1) as nat), e);
        } else {
            assert(flags_truthful(Seq::<RowModel>::empty(), e));
            lemma_flags_concat(head + own, Seq::<RowModel>::empty(), e);
        }
    }
}

/// Each directory row of a tree shows whether that directory is open.
pub proof fn law_rows_show_expansion(files: Seq<Leaf>, e: Set<Seq<char>>)
    ensures
        flags_truthful(tree_rows(files, e), e),
{
    lemma_flags_subtree(dir_list(files), sort_by_path(files), e, Seq::empty(), 0, row_fuel(files));
}

/// With every directory expanded, as `expand_all_dirs` leaves the tree,
/// every directory row shows as open.
pub proof fn law_all_expanded_rows_open(files: Seq<Leaf>)
    requires
        !dir_set(files).contains(Seq::<char>::empty()),
    ensures
        forall|i: int|
            0 <= i < tree_rows(files, dir_set(files)).len() && (#[trigger] tree_rows(files, dir_set(files))[i]).3
                == TreeRowKind::Directory ==> tree_rows(files, dir_set(files))[i].5,
{
    let e = dir_set(files);
    let dirs = dir_list(files);
    let r = tree_rows(files, e);
    lemma_dir_list_is_dir_set(files);
    lemma_dir_list_sorted(files);
    assert(dirs.contains(Seq::<char>::empty()) ==> !e.contains(Seq::<char>::empty())) by {
        if dirs.contains(Seq::<char>::empty()) {
            assert(dirs.to_set().contains(Seq::<char>::empty()));
        }
    }
    lemma_unique_subtree(dirs, sort_by_path(files), e, Seq::empty(), 0, row_fuel(files));
    law_rows_show_expansion(files, e);
    assert forall|i: int| 0 <= i < r.len() && (#[trigger] r[i]).3 == TreeRowKind::Directory implies r[i].5 by {
        assert(dirs.contains(r[i].0));
        assert(dirs.to_set().contains(r[i].0));
    }
}

// ---------------------------------------------------------------------
// The tree
// ---------------------------------------------------------------------
/// The changed files of one commit, the directories the user opened, and
/// the rows that follow from both.
#[derive(Debug, Clone)]
pub struct ChangedFilesTree {
    files: Vec<FileLeaf>,
    expanded_dirs: Vec<String>,
    rows: Vec<TreeRow>,
}

impl ChangedFilesTree {
    /// The files, normalized, in the order they were given.
    pub closed spec fn files_model(&self) -> Seq<Leaf> {
        leaves_view(self.files@)
    }

    /// The directories that are open.
    pub closed spec fn expanded(&self) -> Set<Seq<char>> {
        crate::text::views(self.expanded_dirs@).to_set()
    }

    /// The visible rows.
    pub closed spec fn rows_model(&self) -> Seq<RowModel> {
        rows_view(self.rows@)
    }

    /// The rows are those of the files with the open directories.
    pub open spec fn wf(&self) -> bool {
        self.rows_model() == tree_rows(self.files_model(), self.expanded())
    }

    /// An empty tree.
    pub fn new() -> (res: Self)
        ensures
            res.wf(),
            res.files_model().len() == 0,
            res.expanded().is_empty(),
            res.rows_model().len() == 0,
    {
        let res = ChangedFilesTree { files: Vec::new(), expanded_dirs: Vec::new(), rows: Vec::new() };
        assert(res.expanded() =~= Set::<Seq<char>>::empty());
        assert(res.rows_model() =~= tree_rows(res.files_model(), res.expanded()));
        res
    }

    fn rebuild_rows(&mut self)
        ensures
            final(self).wf(),
            final(self).files_model() == old(self).files_model(),
            final(self).expanded() == old(self).expanded(),
    {
        self.rows = build_rows(&self.files, &self.expanded_dirs);
    }

    /// Forgets the files, the open directories and the rows.
    pub fn clear(&mut self)
        ensures
            final(self).wf(),
            final(self).files_model().len() == 0,
            final(self).expanded().is_empty(),
            final(self).rows_model().len() == 0,
    {
        self.files.clear();
        self.expanded_dirs.clear();
        self.rows.clear();
        assert(self.expanded() =~= Set::<Seq<char>>::empty());
        assert(self.rows_model() =~= tree_rows(self.files_model(), self.expanded()));
    }

    /// Takes new files (normalized, those with an empty path dropped) and
    /// rebuilds the rows; the open directories stay open.
    pub fn set_files(&mut self, files: Vec<FileLeaf>)
        ensures
            final(self).wf(),
            final(self).files_model() == normalized_leaves(leaves_view(files@)),
            final(self).expanded() == old(self).expanded(),
    {
        let ghost f = leaves_view(files@);
        let mut kept: Vec<FileLeaf> = Vec::new();
        let mut k: usize = 0;
        while k < files.len()
            invariant
                k <= files.len(),
                f == leaves_view(files@),
                leaves_view(kept@) == normalized_leaves(f.take(k as int)),
            decreases files.len() - k,
        {
            proof {
                lemma_filter_map_step(f, |l: Leaf| kept_leaf(l), k as int);
            }
            let p = normalize_tree_path_exec(files[k].path.as_str());
            assert(files@[k as int].model() == f[k as int]);
            if p.as_str().unicode_len() > 0 {
                let ghost before = leaves_view(kept@);
                kept.push(FileLeaf { path: p, status: files[k].status.clone() });
                assert(leaves_view(kept@) =~= before.push((normalize_tree_path(f[k as int].0), f[k as int].1)));
            }
            k = k + 1;
        }
        assert(f.take(k as int) =~= f);
        self.files = kept;
        self.rebuild_rows();
    }

    /// Opens every directory above some file.
    pub fn expand_all_dirs(&mut self)
        requires
            !dir_set(old(self).files_model()).contains(Seq::<char>::empty()),
        ensures
            final(self).wf(),
            final(self).files_model() == old(self).files_model(),
            final(self).expanded() == dir_set(old(self).files_model()),
    {
        self.expanded_dirs = collect_all_dirs(&self.files);
        proof {
            lemma_dir_list_is_dir_set(leaves_view(self.files@));
        }
        self.rebuild_rows();
    }

    /// The visible rows.
    pub fn rows(&self) -> (res: &[TreeRow])
        ensures
            rows_view(res@) == self.rows_model(),
    {
        self.rows.as_slice()
    }

    /// How many rows are visible.
    pub fn len(&self) -> (res: usize)
        ensures
            res == self.rows_model().len(),
    {
        self.rows.len()
    }

    /// The row at `idx`, if there is one.
    pub fn row(&self, idx: usize) -> (res: Option<&TreeRow>)
        ensures
            match res {
                Some(r) => idx < self.rows_model().len() && r.model() == self.rows_model()[idx as int],
                None => idx >= self.rows_model().len(),
            },
    {
        if idx < self.rows.len() {
            Some(&self.rows[idx])
        } else {
            None
        }
    }

    /// The path of the row at `idx`, if there is one.
    pub fn row_path(&self, idx: usize) -> (res: Option<&str>)
        ensures
            match res {
                Some(p) => idx < self.rows_model().len() && p@ == self.rows_model()[idx as int].0,
                None => idx >= self.rows_model().len(),
            },
    {
        if idx < self.rows.len() {
            Some(self.rows[idx].path.as_str())
        } else {
            None
        }
    }

    /// The first row whose path is `path`.
    pub fn find_row_index_by_path(&self, path: &str) -> (res: Option<usize>)
        ensures
            match res {
                Some(i) => i < self.rows_model().len() && self.rows_model()[i as int].0 == path@ && forall|k: int|
                    0 <= k < i ==> self.rows_model()[k].0 != path@,
                None => forall|k: int| 0 <= k < self.rows_model().len() ==> self.rows_model()[k].0 != path@,
            },
    {
        let mut i: usize = 0;
        while i < self.rows.len()
            invariant
                i <= self.rows.len(),
                forall|k: int| 0 <= k < i ==> self.rows_model()[k].0 != path@,
            decreases self.rows.len() - i,
        {
            assert(self.rows_model()[i as int] == self.rows@[i as int].model());
            if str_eq(self.rows[i].path.as_str(), path) {
                return Some(i);
            }
            i = i + 1;
        }
        None
    }

    /// The path of the row at `idx` where that row is a file.
    pub fn selected_file_path(&self, idx: usize) -> (res: Option<String>)
        ensures
            match res {
                Some(p) => idx < self.rows_model().len() && self.rows_model()[idx as int].3 == TreeRowKind::File
                    && p@ == self.rows_model()[idx as int].0,
                None => idx >= self.rows_model().len() || self.rows_model()[idx as int].3 != TreeRowKind::File,
            },
    {
        if idx < self.rows.len() {
            assert(self.rows_model()[idx as int] == self.rows@[idx as int].model());
            if self.rows[idx].kind == TreeRowKind::File {
                return Some(self.rows[idx].path.clone());
            }
        }
        None
    }

    /// Opens the directory at row `idx`; false (and nothing changes) where
    /// that row is not a closed directory.
    pub fn expand_selected_dir(&mut self, idx: usize) -> (res: bool)
        requires
            old(self).wf(),
            idx < old(self).rows_model().len() && old(self).rows_model()[idx as int].3 == TreeRowKind::Directory
                ==> old(self).rows_model()[idx as int].0.len() > 0,
        ensures
            final(self).wf(),
            final(self).files_model() == old(self).files_model(),
            res == (idx < old(self).rows_model().len() && old(self).rows_model()[idx as int].3
                == TreeRowKind::Directory && !old(self).rows_model()[idx as int].5),
            res ==> final(self).expanded() == old(self).expanded().insert(old(self).rows_model()[idx as int].0),
            !res ==> final(self).rows_model() == old(self).rows_model() && final(self).expanded() == old(self).expanded(),
    {
        if idx >= self.rows.len() {
            return false;
        }
        assert(self.rows_model()[idx as int] == self.rows@[idx as int].model());
        if self.rows[idx].kind != TreeRowKind::Directory || self.rows[idx].expanded {
            return false;
        }
        let p = self.rows[idx].path.clone();
        let ghost pv = p@;
        let ghost before = crate::text::views(self.expanded_dirs@);
        self.expanded_dirs.push(p);
        assert(crate::text::views(self.expanded_dirs@) =~= before.push(pv));
        assert(self.expanded() =~= before.to_set().insert(pv)) by {
            broadcast use vstd::seq_lib::lemma_seq_contains_after_push;
        }
        self.rebuild_rows();
        true
    }

    /// Closes the directory at row `idx`; false (and nothing changes) where
    /// that row is not an open directory.
    pub fn collapse_selected_dir(&mut self, idx: usize) -> (res: bool)
        requires
            old(self).wf(),
        ensures
            final(self).wf(),
            final(self).files_model() == old(self).files_model(),
            res == (idx < old(self).rows_model().len() && old(self).rows_model()[idx as int].3
                == TreeRowKind::Directory && old(self).rows_model()[idx as int].5),
            res ==> final(self).expanded() == old(self).expanded().remove(old(self).rows_model()[idx as int].0),
            !res ==> final(self).rows_model() == old(self).rows_model() && final(self).expanded() == old(self).expanded(),
    {
        if idx >= self.rows.len() {
            return false;
        }
        assert(self.rows_model()[idx as int] == self.rows@[idx as int].model());
        if self.rows[idx].kind != TreeRowKind::Directory || !self.rows[idx].expanded {
            return false;
        }
        let ghost pv = self.rows@[idx as int].path@;
        let ghost old_e = crate::text::views(self.expanded_dirs@);
        let mut kept: Vec<String> = Vec::new();
        let mut k: usize = 0;
        while k < self.expanded_dirs.len()
            invariant
                k <= self.expanded_dirs.len(),
                idx < self.rows.len(),
                pv == self.rows@[idx as int].path@,
                old_e == crate::text::views(self.expanded_dirs@),
                forall|y: Seq<char>| crate::text::views(kept@).contains(y) <==> (y != pv && old_e.take(k as int).contains(y)),
            decreases self.expanded_dirs.len() - k,
        {
            let ghost before = crate::text::views(kept@);
            let same = str_eq(self.expanded_dirs[k].as_str(), self.rows[idx].path.as_str());
            assert(old_e[k as int] == self.expanded_dirs@[k as int]@);
            if !same {
                kept.push(self.expanded_dirs[k].clone());
                assert(crate::text::views(kept@) =~= before.push(old_e[k as int]));
            }
            proof {
                broadcast use vstd::seq_lib::lemma_seq_contains_after_push;

                assert(old_e.take(k + 1) =~= old_e.take(k as int).push(old_e[k as int]));
            }
            k = k + 1;
        }
        assert(old_e.take(k as int) =~= old_e);
        self.expanded_dirs = kept;
        assert(self.expanded() =~= old_e.to_set().remove(pv));
        self.rebuild_rows();
        true
    }
}

impl Default for ChangedFilesTree {
    fn default() -> (res: Self)
        ensures
            res.wf(),
            res.files_model().len() == 0,
            res.expanded().is_empty(),
            res.rows_model().len() == 0,
    {
        ChangedFilesTree::new()
    }
}


/// Opening a closed directory and then closing it again, wherever its row
/// then stands, gives back the rows and open directories there were.
pub proof fn law_collapse_undoes_expand(
    t0: ChangedFilesTree,
    t1: ChangedFilesTree,
    t2: ChangedFilesTree,
    i: int,
    j: int,
)
    requires
        t0.wf(),
        t2.wf(),
        t1.files_model() == t0.files_model(),
        t2.files_model() == t1.files_model(),
        0 <= i < t0.rows_model().len(),
        t0.rows_model()[i].3 == TreeRowKind::Directory,
        !t0.rows_model()[i].5,
        t1.expanded() == t0.expanded().insert(t0.rows_model()[i].0),
        0 <= j < t1.rows_model().len(),
        t1.rows_model()[j].0 == t0.rows_model()[i].0,
        t2.expanded() == t1.expanded().remove(t1.rows_model()[j].0),
    ensures
        t2.expanded() == t0.expanded(),
        t2.rows_model() == t0.rows_model(),
{
    law_rows_show_expansion(t0.files_model(), t0.expanded());
    assert(t0.rows_model()[i].5 == t0.expanded().contains(t0.rows_model()[i].0));
    assert(t2.expanded() =~= t0.expanded());
}


/// Opening the closed directory of a row keeps that row where it was, now
/// open, so that closing it there gives back the rows there were (unless
/// the unnamed directory of absolute paths is open).
pub proof fn law_expand_then_collapse_same_row(
    t0: ChangedFilesTree,
    t1: ChangedFilesTree,
    t2: ChangedFilesTree,
    i: int,
)
    requires
        t0.wf(),
        t1.wf(),
        t2.wf(),
        t1.files_model() == t0.files_model(),
        t2.files_model() == t1.files_model(),
        dir_set(t0.files_model()).contains(Seq::<char>::empty()) ==> !t0.expanded().contains(
            Seq::<char>::empty(),
        ),
        0 <= i < t0.rows_model().len(),
        t0.rows_model()[i].3 == TreeRowKind::Directory,
        !t0.rows_model()[i].5,
        t1.expanded() == t0.expanded().insert(t0.rows_model()[i].0),
        t2.expanded() == t1.expanded().remove(t1.rows_model()[i].0),
    ensures
        i < t1.rows_model().len(),
        t1.rows_model()[i].3 == TreeRowKind::Directory,
        t1.rows_model()[i].0 == t0.rows_model()[i].0,
        t1.rows_model()[i].5,
        t2.rows_model() == t0.rows_model(),
{
    let f = t0.files_model();
    let e = t0.expanded();
    let d = t0.rows_model()[i].0;
    let dirs = dir_list(f);
    let r = tree_rows(f, e);
    lemma_dir_list_sorted(f);
    lemma_dir_list_is_dir_set(f);
    assert(dirs.contains(Seq::<char>::empty()) ==> !e.contains(Seq::<char>::empty())) by {
        if dirs.contains(Seq::<char>::empty()) {
            assert(dirs.to_set().contains(Seq::<char>::empty()));
        }
    }
    lemma_unique_subtree(dirs, sort_by_path(f), e, Seq::empty(), 0, row_fuel(f));
    assert(no_dir_row_before(r, d, i)) by {
        assert forall|k: int| 0 <= k < i && k < r.len() && (#[trigger] r[k]).3 == TreeRowKind::Directory implies r[k].0
            != d by {
            assert(r[i].3 == TreeRowKind::Directory);
        }
    }
    lemma_open_first_subtree(dirs, sort_by_path(f), e, d, Seq::empty(), 0, row_fuel(f), i);
    law_rows_show_expansion(f, e);
    assert(r[i].5 == e.contains(r[i].0));
    assert(t2.expanded() =~= e);
}

} // verus!

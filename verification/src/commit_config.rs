//! The commit policy of a repository: the conventional-commit types it
//! knows, the releasable ones, and the guarded path prefixes, possibly
//! overridden by the repository's `.gittuit/commit_config.json`.
use vstd::prelude::*;

use crate::json::{
    invalid_type, invalid_type_text, is_digits_str, is_integer_str, is_integer_text, item_models, json_model, lemma_parts_model,
    member_models, member_names, parse_json, parsed_json, Json, JsonModel,
};
use crate::runtime_paths::{path_join_on, path_join_on_exec};
use crate::text::{
    all_digits, cat, cat3, decimal, decimal_string, digits_value, lemma_trim_idempotent, owned, parse_usize, parse_usize_exec, str_eq,
    trim, trimmed,
};

verus! {

/// The policy in force.
#[derive(Debug, Clone)]
pub struct CommitPolicy {
    pub all_types: Vec<String>,
    pub releasable_types: Vec<String>,
    pub guarded_prefixes: Vec<String>,
}

/// The policy, with the warnings met while reading the override.
#[derive(Debug)]
pub struct CommitPolicyLoadResult {
    pub policy: CommitPolicy,
    pub warnings: Vec<String>,
}

/// The fields an override file may set.
#[derive(Debug, Clone)]
pub struct CommitPolicyOverride {
    pub schema_version: Option<u32>,
    pub all_types: Option<Vec<String>>,
    pub releasable_types: Option<Vec<String>>,
    pub guarded_prefixes: Option<Vec<String>>,
}

/// What reading the override file gave.
#[derive(Debug)]
pub enum OverrideRead {
    /// There is no such file.
    Missing,
    /// The file could not be read; the error text.
    Unreadable(String),
    /// The file is not JSON; the parser's error text.
    InvalidJson(String),
    /// The file is JSON: its top-level keys (those of an object, in the
    /// parser's order) and the typed reading of it or its error text.
    Parsed { keys: Vec<String>, fields: Result<CommitPolicyOverride, String> },
}

/// The override of one repository: where the file is (as shown) and what reading it gave.
#[derive(Debug)]
pub struct RepoConfigRead {
    pub path: String,
    pub read: OverrideRead,
}

pub open spec fn list_view(v: Seq<String>) -> Seq<Seq<char>> {
    v.map_values(|s: String| s@)
}

pub open spec fn policy_view(p: CommitPolicy) -> (Seq<Seq<char>>, Seq<Seq<char>>, Seq<Seq<char>>) {
    (list_view(p.all_types@), list_view(p.releasable_types@), list_view(p.guarded_prefixes@))
}

/// The schema version this policy format has.
pub open spec fn supported_schema_version() -> u32 {
    1
}

/// The types of the default policy.
pub open spec fn default_all_types() -> Seq<Seq<char>> {
    seq![
        "feat"@,
        "fix"@,
        "docs"@,
        "chore"@,
        "refactor"@,
        "test"@,
        "build"@,
        "ci"@,
        "perf"@,
        "revert"@,
    ]
}

pub open spec fn default_policy() -> (Seq<Seq<char>>, Seq<Seq<char>>, Seq<Seq<char>>) {
    (default_all_types(), seq!["feat"@, "fix"@], seq!["src/"@])
}

/// A list as the policy keeps it: entries trimmed, empty ones dropped,
/// and only the first of equal ones kept.
pub open spec fn normalized(list: Seq<Seq<char>>) -> Seq<Seq<char>>
    decreases list.len(),
{
    if list.len() == 0 {
        Seq::empty()
    } else {
        let prev = normalized(list.drop_last());
        let t = trim(list.last());
        if t.len() == 0 || prev.contains(t) {
            prev
        } else {
            prev.push(t)
        }
    }
}

/// The first releasable type that is not among all types, if any.
pub open spec fn first_unknown(all: Seq<Seq<char>>, rel: Seq<Seq<char>>) -> Option<Seq<char>>
    decreases rel.len(),
{
    if rel.len() == 0 {
        None
    } else {
        match first_unknown(all, rel.drop_last()) {
            Some(r) => Some(r),
            None => if all.contains(rel.last()) {
                None
            } else {
                Some(rel.last())
            },
        }
    }
}

/// Why a policy is refused, if it is.
pub open spec fn policy_error(p: (Seq<Seq<char>>, Seq<Seq<char>>, Seq<Seq<char>>)) -> Option<Seq<char>> {
    if p.0.len() == 0 {
        Some("all_types must contain at least one value"@)
    } else {
        match first_unknown(p.0, p.1) {
            Some(r) => Some("releasable type '"@ + r + "' is missing from all_types"@),
            None => None,
        }
    }
}

pub open spec fn opt_list_view(o: Option<Vec<String>>) -> Option<Seq<Seq<char>>> {
    match o {
        Some(v) => Some(list_view(v@)),
        None => None,
    }
}

/// The policy that an override makes of `base`, or why it is refused.
pub open spec fn overridden(
    base: (Seq<Seq<char>>, Seq<Seq<char>>, Seq<Seq<char>>),
    version: Option<u32>,
    all: Option<Seq<Seq<char>>>,
    rel: Option<Seq<Seq<char>>>,
    guarded: Option<Seq<Seq<char>>>,
) -> Result<(Seq<Seq<char>>, Seq<Seq<char>>, Seq<Seq<char>>), Seq<char>> {
    if version is Some && version->0 != supported_schema_version() {
        Err(
            "schema_version "@ + decimal(version->0 as nat) + " is not supported (expected 1)"@,
        )
    } else if all is Some && normalized(all->0).len() == 0 {
        Err("all_types cannot be empty"@)
    } else {
        let next = (
            match all {
                Some(l) => normalized(l),
                None => base.0,
            },
            match rel {
                Some(l) => normalized(l),
                None => base.1,
            },
            match guarded {
                Some(l) => normalized(l),
                None => base.2,
            },
        );
        match policy_error(next) {
            Some(e) => Err(e),
            None => Ok(next),
        }
    }
}

impl Default for CommitPolicy {
    /// The built-in policy: ten conventional types, `feat` and `fix`
    /// releasable, `src/` guarded.
    fn default() -> (res: CommitPolicy)
        ensures
            policy_view(res) == default_policy(),
    {
        let all = vec![
            owned("feat"),
            owned("fix"),
            owned("docs"),
            owned("chore"),
            owned("refactor"),
            owned("test"),
            owned("build"),
            owned("ci"),
            owned("perf"),
            owned("revert"),
        ];
        let rel = vec![owned("feat"), owned("fix")];
        let guarded = vec![owned("src/")];
        let res = CommitPolicy { all_types: all, releasable_types: rel, guarded_prefixes: guarded };
        assert(list_view(res.all_types@) =~= default_all_types());
        assert(list_view(res.releasable_types@) =~= seq!["feat"@, "fix"@]);
        assert(list_view(res.guarded_prefixes@) =~= seq!["src/"@]);
        res
    }
}

fn copy_list(v: &Vec<String>) -> (res: Vec<String>)
    ensures
        list_view(res@) == list_view(v@),
{
    let mut res: Vec<String> = Vec::new();
    let mut i: usize = 0;
    while i < v.len()
        invariant
            i <= v.len(),
            list_view(res@) == list_view(v@.take(i as int)),
        decreases v.len() - i,
    {
        let ghost before = res@;
        res.push(v[i].clone());
        assert(list_view(res@) =~= list_view(before).push(v@[i as int]@));
        assert(list_view(v@.take(i + 1)) =~= list_view(v@.take(i as int)).push(v@[i as int]@));
        i = i + 1;
    }
    assert(v@.take(i as int) =~= v@);
    res
}

fn list_contains(v: &Vec<String>, s: &str) -> (res: bool)
    ensures
        res == list_view(v@).contains(s@),
{
    let mut i: usize = 0;
    while i < v.len()
        invariant
            i <= v.len(),
            forall|k: int| 0 <= k < i ==> v@[k]@ != s@,
        decreases v.len() - i,
    {
        if str_eq(v[i].as_str(), s) {
            assert(list_view(v@)[i as int] == s@);
            return true;
        }
        i = i + 1;
    }
    proof {
        if list_view(v@).contains(s@) {
            let k = choose|k: int| 0 <= k < list_view(v@).len() && list_view(v@)[k] == s@;
            assert(v@[k]@ == s@);
        }
    }
    false
}

/// Trims the entries, drops empty ones and keeps the first of equal ones.
pub fn normalize_list(list: &Vec<String>) -> (res: Vec<String>)
    ensures
        list_view(res@) == normalized(list_view(list@)),
{
    let ghost lv = list_view(list@);
    let mut res: Vec<String> = Vec::new();
    let mut i: usize = 0;
    while i < list.len()
        invariant
            i <= list.len(),
            lv == list_view(list@),
            list_view(res@) == normalized(lv.take(i as int)),
        decreases list.len() - i,
    {
        assert(lv.take(i + 1).drop_last() =~= lv.take(i as int));
        assert(lv.take(i + 1).last() == list@[i as int]@);
        let t = trimmed(list[i].as_str());
        if t.as_str().unicode_len() > 0 && !list_contains(&res, t.as_str()) {
            let ghost before = res@;
            res.push(t);
            assert(list_view(res@) =~= list_view(before).push(t@));
        }
        i = i + 1;
    }
    assert(lv.take(i as int) =~= lv);
    res
}

/// [`normalize_list`], refusing a list that ends up empty.
pub fn normalize_non_empty_list(field_name: &str, list: &Vec<String>) -> (res: Result<Vec<String>, String>)
    ensures
        match res {
            Ok(v) => list_view(v@) == normalized(list_view(list@)) && v@.len() > 0,
            Err(m) => normalized(list_view(list@)).len() == 0 && m@ == field_name@ + " cannot be empty"@,
        },
{
    let normalized_list = normalize_list(list);
    if normalized_list.len() == 0 {
        return Err(cat(field_name, " cannot be empty"));
    }
    Ok(normalized_list)
}

/// Refuses a policy without types, or with a releasable type that is not
/// among its types (the first such one is named).
pub fn validate_policy(policy: &CommitPolicy) -> (res: Result<(), String>)
    ensures
        match res {
            Ok(()) => policy_error(policy_view(*policy)) is None,
            Err(m) => policy_error(policy_view(*policy)) == Some(m@),
        },
{
    if policy.all_types.len() == 0 {
        return Err(owned("all_types must contain at least one value"));
    }
    let ghost all = list_view(policy.all_types@);
    let ghost rel = list_view(policy.releasable_types@);
    let mut i: usize = 0;
    while i < policy.releasable_types.len()
        invariant
            i <= policy.releasable_types.len(),
            all == list_view(policy.all_types@),
            rel == list_view(policy.releasable_types@),
            all.len() > 0,
            first_unknown(all, rel.take(i as int)) is None,
        decreases policy.releasable_types.len() - i,
    {
        assert(rel.take(i + 1).drop_last() =~= rel.take(i as int));
        assert(rel.take(i + 1).last() == policy.releasable_types@[i as int]@);
        if !list_contains(&policy.all_types, policy.releasable_types[i].as_str()) {
            assert(first_unknown(all, rel.take(i + 1)) == Some(rel[i as int]));
            assert(rel.take(i + 1) =~= rel.take(i + 1));
            proof {
                lemma_first_unknown_prefix(all, rel, i + 1);
            }
            return Err(cat3("releasable type '", policy.releasable_types[i].as_str(), "' is missing from all_types"));
        }
        i = i + 1;
    }
    assert(rel.take(i as int) =~= rel);
    Ok(())
}

/// A found unknown type stays the first one when the list grows.
proof fn lemma_first_unknown_prefix(all: Seq<Seq<char>>, rel: Seq<Seq<char>>, k: int)
    requires
        0 <= k <= rel.len(),
        first_unknown(all, rel.take(k)) is Some,
    ensures
        first_unknown(all, rel) == first_unknown(all, rel.take(k)),
    decreases rel.len() - k,
{
    if k < rel.len() {
        assert(rel.take(k + 1).drop_last() =~= rel.take(k));
        lemma_first_unknown_prefix(all, rel, k + 1);
    } else {
        assert(rel.take(k) =~= rel);
    }
}

/// The policy that `override_cfg` makes of `base`: a foreign schema
/// version, an `all_types` list that normalizes to nothing, or a policy
/// that fails validation are refused with their reason.
pub fn apply_override(base: &CommitPolicy, override_cfg: &CommitPolicyOverride) -> (res: Result<CommitPolicy, String>)
    ensures
        match res {
            Ok(p) => overridden(
                policy_view(*base),
                override_cfg.schema_version,
                opt_list_view(override_cfg.all_types),
                opt_list_view(override_cfg.releasable_types),
                opt_list_view(override_cfg.guarded_prefixes),
            ) == Ok::<_, Seq<char>>(policy_view(p)),
            Err(m) => overridden(
                policy_view(*base),
                override_cfg.schema_version,
                opt_list_view(override_cfg.all_types),
                opt_list_view(override_cfg.releasable_types),
                opt_list_view(override_cfg.guarded_prefixes),
            ) == Err::<(Seq<Seq<char>>, Seq<Seq<char>>, Seq<Seq<char>>), _>(m@),
        },
{
    match override_cfg.schema_version {
        Some(version) => {
            if version != 1 {
                let v = decimal_string(version as usize);
                let head = cat("schema_version ", v.as_str());
                return Err(cat(head.as_str(), " is not supported (expected 1)"));
            }
        },
        None => {},
    }
    let all = match &override_cfg.all_types {
        Some(list) => match normalize_non_empty_list("all_types", list) {
            Ok(v) => v,
            Err(e) => {
                proof {
                    reveal_strlit("all_types");
                }
                assert(e@ =~= "all_types cannot be empty"@) by {
                    reveal_strlit("all_types cannot be empty");
                    reveal_strlit(" cannot be empty");
                }
                return Err(e);
            },
        },
        None => copy_list(&base.all_types),
    };
    let rel = match &override_cfg.releasable_types {
        Some(list) => normalize_list(list),
        None => copy_list(&base.releasable_types),
    };
    let guarded = match &override_cfg.guarded_prefixes {
        Some(list) => normalize_list(list),
        None => copy_list(&base.guarded_prefixes),
    };
    let next = CommitPolicy { all_types: all, releasable_types: rel, guarded_prefixes: guarded };
    match validate_policy(&next) {
        Ok(()) => Ok(next),
        Err(e) => Err(e),
    }
}

/// The keys of the override file that the format does not know, in order.
pub fn unknown_field_names(keys: &Vec<String>) -> (res: Vec<String>)
    ensures
        list_view(res@) == list_view(keys@).filter(|k: Seq<char>| !supported_fields().contains(k)),
{
    let supported = vec![
        owned("schema_version"),
        owned("all_types"),
        owned("releasable_types"),
        owned("guarded_prefixes"),
    ];
    assert(list_view(supported@) =~= supported_fields());
    let ghost kv = list_view(keys@);
    let ghost f = |k: Seq<char>| !supported_fields().contains(k);
    let mut res: Vec<String> = Vec::new();
    let mut i: usize = 0;
    while i < keys.len()
        invariant
            i <= keys.len(),
            kv == list_view(keys@),
            f == (|k: Seq<char>| !supported_fields().contains(k)),
            list_view(supported@) == supported_fields(),
            list_view(res@) == kv.take(i as int).filter(f),
        decreases keys.len() - i,
    {
        proof {
            reveal(Seq::filter);
            assert(kv.take(i + 1).drop_last() =~= kv.take(i as int));
        }
        if !list_contains(&supported, keys[i].as_str()) {
            let ghost before = res@;
            res.push(keys[i].clone());
            assert(list_view(res@) =~= list_view(before).push(kv[i as int]));
        }
        i = i + 1;
    }
    assert(kv.take(i as int) =~= kv);
    res
}

pub open spec fn supported_fields() -> Seq<Seq<char>> {
    seq!["schema_version"@, "all_types"@, "releasable_types"@, "guarded_prefixes"@]
}

/// The fields of an override as plain values.
pub type OverrideModel = (Option<u32>, Option<Seq<Seq<char>>>, Option<Seq<Seq<char>>>, Option<Seq<Seq<char>>>);

pub open spec fn override_model(o: CommitPolicyOverride) -> OverrideModel {
    (o.schema_version, opt_list_view(o.all_types), opt_list_view(o.releasable_types), opt_list_view(o.guarded_prefixes))
}

/// `res` is the override `want` describes, or fails with its text.
pub open spec fn override_agrees(res: Result<CommitPolicyOverride, String>, want: Result<OverrideModel, Seq<char>>) -> bool {
    match want {
        Ok(m) => res matches Ok(o) && override_model(o) == m,
        Err(e) => res matches Err(x) && x@ == e,
    }
}

/// An optional `u32` field read from a JSON value, as serde reads it.
pub open spec fn u32_field(m: JsonModel) -> Result<Option<u32>, Seq<char>> {
    match m {
        JsonModel::Null => Ok(None),
        JsonModel::Number(t) => if t.len() > 0 && all_digits(t) && digits_value(t) <= u32::MAX {
            Ok(Some(digits_value(t) as u32))
        } else if is_integer_text(t) {
            Err("invalid value: integer `"@ + t + "`, expected u32"@)
        } else {
            Err(invalid_type(m, "u32"@))
        },
        _ => Err(invalid_type(m, "u32"@)),
    }
}

/// The texts of an array of strings, or the error at its first other value.
pub open spec fn texts_of(items: Seq<JsonModel>) -> Result<Seq<Seq<char>>, Seq<char>>
    decreases items.len(),
{
    if items.len() == 0 {
        Ok(Seq::empty())
    } else {
        match texts_of(items.drop_last()) {
            Err(e) => Err(e),
            Ok(v) => match items.last() {
                JsonModel::Text(t) => Ok(v.push(t)),
                other => Err(invalid_type(other, "a string"@)),
            },
        }
    }
}

/// An optional list-of-strings field read from a JSON value, as serde reads it.
pub open spec fn list_field(m: JsonModel) -> Result<Option<Seq<Seq<char>>>, Seq<char>> {
    match m {
        JsonModel::Null => Ok(None),
        JsonModel::Array(items) => match texts_of(items) {
            Ok(v) => Ok(Some(v)),
            Err(e) => Err(e),
        },
        _ => Err(invalid_type(m, "a sequence"@)),
    }
}

/// `o` with the field named `key` read from `value`; other names are ignored.
pub open spec fn with_field(o: OverrideModel, key: Seq<char>, value: JsonModel) -> Result<OverrideModel, Seq<char>> {
    if key == "schema_version"@ {
        match u32_field(value) {
            Ok(x) => Ok((x, o.1, o.2, o.3)),
            Err(e) => Err(e),
        }
    } else if key == "all_types"@ {
        match list_field(value) {
            Ok(x) => Ok((o.0, x, o.2, o.3)),
            Err(e) => Err(e),
        }
    } else if key == "releasable_types"@ {
        match list_field(value) {
            Ok(x) => Ok((o.0, o.1, x, o.3)),
            Err(e) => Err(e),
        }
    } else if key == "guarded_prefixes"@ {
        match list_field(value) {
            Ok(x) => Ok((o.0, o.1, o.2, x)),
            Err(e) => Err(e),
        }
    } else {
        Ok(o)
    }
}

/// The override that named fields give, read in order; the first bad one fails it.
pub open spec fn fields_override(fields: Seq<(Seq<char>, JsonModel)>) -> Result<OverrideModel, Seq<char>>
    decreases fields.len(),
{
    if fields.len() == 0 {
        Ok((None, None, None, None))
    } else {
        match fields_override(fields.drop_last()) {
            Err(e) => Err(e),
            Ok(o) => with_field(o, fields.last().0, fields.last().1),
        }
    }
}

/// The first `n` (at most four) values of an array, named as the fields in order.
pub open spec fn positional(items: Seq<JsonModel>, n: int) -> Seq<(Seq<char>, JsonModel)> {
    Seq::new(n as nat, |i: int| (supported_fields()[i], items[i]))
}

/// The override an array gives: its values are the four fields in order.
pub open spec fn items_override(items: Seq<JsonModel>) -> Result<OverrideModel, Seq<char>> {
    let n = if items.len() < 4 { items.len() as int } else { 4 };
    match fields_override(positional(items, n)) {
        Err(e) => Err(e),
        Ok(o) => if items.len() < 4 {
            Err("invalid length "@ + decimal(items.len()) + ", expected struct CommitPolicyOverride with 4 elements"@)
        } else if items.len() > 4 {
            Err("invalid length "@ + decimal(items.len()) + ", expected fewer elements in array"@)
        } else {
            Ok(o)
        },
    }
}

/// What serde makes of a JSON value as an override: an object's fields by
/// name, an array's by position, anything else refused.
pub open spec fn override_of(m: JsonModel) -> Result<OverrideModel, Seq<char>> {
    match m {
        JsonModel::Object(fields) => fields_override(fields),
        JsonModel::Array(items) => items_override(items),
        _ => Err(invalid_type(m, "struct CommitPolicyOverride"@)),
    }
}

/// What reading the override file gives: `text` is `None` where there is
/// no file, the error text where it could not be read, and its contents
/// otherwise.
pub open spec fn read_agrees(read: OverrideRead, text: Option<Result<String, String>>) -> bool {
    match text {
        None => read is Missing,
        Some(Err(e)) => read matches OverrideRead::Unreadable(x) && x@ == e@,
        Some(Ok(raw)) => match parsed_json(raw@) {
            Err(pe) => read matches OverrideRead::InvalidJson(x) && x@ == pe,
            Ok(m) => read matches OverrideRead::Parsed { keys, fields } && list_view(keys@) == member_names(m)
                && override_agrees(fields, override_of(m)),
        },
    }
}

fn u32_field_exec(v: &Json) -> (res: Result<Option<u32>, String>)
    ensures
        match u32_field(json_model(*v)) {
            Ok(x) => res == Ok::<Option<u32>, String>(x),
            Err(e) => res matches Err(m) && m@ == e,
        },
{
    match v {
        Json::Null => Ok(None),
        Json::Number(t) => {
            if is_digits_str(t.as_str()) {
                proof {
                    assert(crate::text::sign_stripped(t@) == t@);
                }
                match parse_usize_exec(t.as_str()) {
                    Some(n) => {
                        if n <= 4294967295usize {
                            return Ok(Some(n as u32));
                        }
                    },
                    None => {},
                }
            }
            if is_integer_str(t.as_str()) {
                Err(cat3("invalid value: integer `", t.as_str(), "`, expected u32"))
            } else {
                Err(invalid_type_text(v, "u32"))
            }
        },
        _ => Err(invalid_type_text(v, "u32")),
    }
}
proof fn lemma_texts_error_stays(items: Seq<JsonModel>, k: int)
    requires
        0 <= k <= items.len(),
        texts_of(items.take(k)) is Err,
    ensures
        texts_of(items) == texts_of(items.take(k)),
    decreases items.len() - k,
{
    if k < items.len() {
        assert(items.take(k + 1).drop_last() =~= items.take(k));
        lemma_texts_error_stays(items, k + 1);
    } else {
        assert(items.take(k) =~= items);
    }
}

proof fn lemma_fields_error_stays(fields: Seq<(Seq<char>, JsonModel)>, k: int)
    requires
        0 <= k <= fields.len(),
        fields_override(fields.take(k)) is Err,
    ensures
        fields_override(fields) == fields_override(fields.take(k)),
    decreases fields.len() - k,
{
    if k < fields.len() {
        assert(fields.take(k + 1).drop_last() =~= fields.take(k));
        lemma_fields_error_stays(fields, k + 1);
    } else {
        assert(fields.take(k) =~= fields);
    }
}

fn list_field_exec(v: &Json) -> (res: Result<Option<Vec<String>>, String>)
    ensures
        match list_field(json_model(*v)) {
            Ok(x) => res matches Ok(r) && opt_list_view(r) == x,
            Err(e) => res matches Err(m) && m@ == e,
        },
{
    match v {
        Json::Null => Ok(None),
        Json::Array(items) => {
            let ghost model = item_models(items@);
            proof {
                lemma_parts_model(*v);
            }
            let mut out: Vec<String> = Vec::new();
            assert(model.take(0) =~= Seq::<JsonModel>::empty());
            assert(list_view(out@) =~= Seq::<Seq<char>>::empty());
            let mut i: usize = 0;
            while i < items.len()
                invariant
                    i <= items.len(),
                    model == item_models(items@),
                    json_model(*v) == JsonModel::Array(model),
                    texts_of(model.take(i as int)) == Ok::<Seq<Seq<char>>, Seq<char>>(list_view(out@)),
                decreases items.len() - i,
            {
                assert(model.take(i + 1).drop_last() =~= model.take(i as int));
                assert(model.take(i + 1).last() == json_model(items@[i as int]));
                match &items[i] {
                    Json::Text(t) => {
                        let ghost before = out@;
                        out.push(t.clone());
                        assert(list_view(out@) =~= list_view(before).push(t@));
                    },
                    other => {
                        proof {
                            lemma_texts_error_stays(model, i as int + 1);
                        }
                        return Err(invalid_type_text(other, "a string"));
                    },
                }
                i = i + 1;
            }
            assert(model.take(i as int) =~= model);
            Ok(Some(out))
        },
        _ => Err(invalid_type_text(v, "a sequence")),
    }
}

fn with_field_exec(o: CommitPolicyOverride, key: &str, value: &Json) -> (res: Result<CommitPolicyOverride, String>)
    ensures
        override_agrees(res, with_field(override_model(o), key@, json_model(*value))),
{
    if str_eq(key, "schema_version") {
        match u32_field_exec(value) {
            Ok(x) => Ok(CommitPolicyOverride { schema_version: x, ..o }),
            Err(e) => Err(e),
        }
    } else if str_eq(key, "all_types") {
        match list_field_exec(value) {
            Ok(x) => Ok(CommitPolicyOverride { all_types: x, ..o }),
            Err(e) => Err(e),
        }
    } else if str_eq(key, "releasable_types") {
        match list_field_exec(value) {
            Ok(x) => Ok(CommitPolicyOverride { releasable_types: x, ..o }),
            Err(e) => Err(e),
        }
    } else if str_eq(key, "guarded_prefixes") {
        match list_field_exec(value) {
            Ok(x) => Ok(CommitPolicyOverride { guarded_prefixes: x, ..o }),
            Err(e) => Err(e),
        }
    } else {
        Ok(o)
    }
}

fn no_override() -> (res: CommitPolicyOverride)
    ensures
        override_model(res) == (None::<u32>, None::<Seq<Seq<char>>>, None::<Seq<Seq<char>>>, None::<Seq<Seq<char>>>),
{
    CommitPolicyOverride { schema_version: None, all_types: None, releasable_types: None, guarded_prefixes: None }
}

/// The override the members of a JSON object give, read in order.
fn object_override(members: &Vec<(String, Json)>) -> (res: Result<CommitPolicyOverride, String>)
    ensures
        override_agrees(res, fields_override(member_models(members@))),
{
    let ghost fields = member_models(members@);
    let mut o = no_override();
    assert(fields.take(0) =~= Seq::<(Seq<char>, JsonModel)>::empty());
    let mut i: usize = 0;
    while i < members.len()
        invariant
            i <= members.len(),
            fields == member_models(members@),
            fields_override(fields.take(i as int)) == Ok::<OverrideModel, Seq<char>>(override_model(o)),
        decreases members.len() - i,
    {
        assert(fields.take(i + 1).drop_last() =~= fields.take(i as int));
        assert(fields.take(i + 1).last() == (members@[i as int].0@, json_model(members@[i as int].1)));
        match with_field_exec(o, members[i].0.as_str(), &members[i].1) {
            Ok(next) => {
                o = next;
            },
            Err(e) => {
                proof {
                    lemma_fields_error_stays(fields, i as int + 1);
                }
                return Err(e);
            },
        }
        i = i + 1;
    }
    assert(fields.take(i as int) =~= fields);
    Ok(o)
}

/// The override the values of a JSON array give, the fields in order.
fn array_override(items: &Vec<Json>) -> (res: Result<CommitPolicyOverride, String>)
    ensures
        override_agrees(res, items_override(item_models(items@))),
{
    let ghost model = item_models(items@);
    let names = vec!["schema_version", "all_types", "releasable_types", "guarded_prefixes"];
    assert(names@.map_values(|n: &str| n@) =~= supported_fields());
    let n: usize = if items.len() < 4 { items.len() } else { 4 };
    let ghost fields = positional(model, n as int);
    let mut o = no_override();
    assert(fields.take(0) =~= Seq::<(Seq<char>, JsonModel)>::empty());
    let mut i: usize = 0;
    while i < n
        invariant
            i <= n <= 4,
            n == (if items@.len() < 4 { items@.len() } else { 4 }),
            model == item_models(items@),
            fields == positional(model, n as int),
            names@.map_values(|n: &str| n@) == supported_fields(),
            names@.len() == 4,
            fields_override(fields.take(i as int)) == Ok::<OverrideModel, Seq<char>>(override_model(o)),
        decreases n - i,
    {
        assert(fields.take(i + 1).drop_last() =~= fields.take(i as int));
        assert(names@.map_values(|n: &str| n@)[i as int] == names@[i as int]@);
        assert(fields.take(i + 1).last() == (names@[i as int]@, json_model(items@[i as int])));
        match with_field_exec(o, names[i], &items[i]) {
            Ok(next) => {
                o = next;
            },
            Err(e) => {
                proof {
                    lemma_fields_error_stays(fields, i as int + 1);
                    assert(model.len() == items@.len());
                }
                return Err(e);
            },
        }
        i = i + 1;
    }
    assert(fields.take(i as int) =~= fields);
    if items.len() < 4 {
        let head = cat3("invalid length ", decimal_string(items.len()).as_str(), ", expected struct CommitPolicyOverride with 4 elements");
        return Err(head);
    }
    if items.len() > 4 {
        let head = cat3("invalid length ", decimal_string(items.len()).as_str(), ", expected fewer elements in array");
        return Err(head);
    }
    Ok(o)
}

/// What reading the repository's override file gave, from its path and
/// what was read: `None` where there is no file, the error text where it
/// could not be read, its contents otherwise. The contents are parsed as
/// JSON; an object's member names are kept in order, and the fields are
/// read from the value as serde reads them.
pub fn read_override_text(path: &str, text: Option<Result<String, String>>) -> (res: RepoConfigRead)
    ensures
        res.path@ == path@,
        read_agrees(res.read, text),
{
    let read = match text {
        None => OverrideRead::Missing,
        Some(Err(e)) => OverrideRead::Unreadable(e),
        Some(Ok(raw)) => match parse_json(raw.as_str()) {
            Err(e) => OverrideRead::InvalidJson(e),
            Ok(value) => {
                let keys = member_names_exec(&value);
                let fields = match &value {
                    Json::Object(members) => {
                        proof {
                            lemma_parts_model(value);
                        }
                        object_override(members)
                    },
                    Json::Array(items) => {
                        proof {
                            lemma_parts_model(value);
                        }
                        array_override(items)
                    },
                    other => Err(invalid_type_text(other, "struct CommitPolicyOverride")),
                };
                OverrideRead::Parsed { keys, fields }
            },
        },
    };
    RepoConfigRead { path: owned(path), read }
}

fn member_names_exec(v: &Json) -> (res: Vec<String>)
    ensures
        list_view(res@) == member_names(json_model(*v)),
{
    match v {
        Json::Object(members) => {
            let ghost fields = member_models(members@);
            proof {
                lemma_parts_model(*v);
            }
            let mut out: Vec<String> = Vec::new();
            let mut i: usize = 0;
            while i < members.len()
                invariant
                    i <= members.len(),
                    fields == member_models(members@),
                    list_view(out@) == fields.take(i as int).map_values(|f: (Seq<char>, JsonModel)| f.0),
                decreases members.len() - i,
            {
                let ghost before = out@;
                out.push(members[i].0.clone());
                assert(list_view(out@) =~= list_view(before).push(members@[i as int].0@));
                assert(fields.take(i + 1).map_values(|f: (Seq<char>, JsonModel)| f.0) =~= fields.take(i as int).map_values(
                    |f: (Seq<char>, JsonModel)| f.0,
                ).push(fields[i as int].0));
                i = i + 1;
            }
            assert(fields.take(i as int) =~= fields);
            out
        },
        _ => Vec::new(),
    }
}

/// Where a repository keeps its override: `.gittuit/commit_config.json`
/// under its root, joined by the platform's rules.
pub fn repo_config_path(repo_root: &str, windows: bool) -> (res: String)
    ensures
        res@ == path_join_on(path_join_on(repo_root@, ".gittuit"@, windows), "commit_config.json"@, windows),
{
    let dir = path_join_on_exec(repo_root, ".gittuit", windows);
    path_join_on_exec(dir.as_str(), "commit_config.json", windows)
}

/// The label that warnings give the repository's override file.
pub open spec fn repo_label() -> Seq<char> {
    "Repo config"@
}

/// Warnings and the override that the file gives, if any.
pub open spec fn read_outcome(
    path: Seq<char>,
    read: OverrideRead,
) -> (Seq<Seq<char>>, Option<CommitPolicyOverride>) {
    let at = repo_label() + " at "@ + path;
    match read {
        OverrideRead::Missing => (Seq::empty(), None),
        OverrideRead::Unreadable(e) => (seq![at + " could not be read: "@ + e@], None),
        OverrideRead::InvalidJson(e) => (seq![at + " is not valid JSON: "@ + e@], None),
        OverrideRead::Parsed { keys, fields } => {
            let unknown = list_view(keys@).filter(|k: Seq<char>| !supported_fields().contains(k)).map_values(
                |k: Seq<char>| at + " contains unsupported field '"@ + k + "' (ignored)."@,
            );
            match fields {
                Ok(o) => (unknown, Some(o)),
                Err(e) => (unknown.push(at + " has invalid fields: "@ + e@), None),
            }
        },
    }
}

/// What loading gives for an optional repository override.
pub open spec fn load_outcome(repo_config: Option<RepoConfigRead>) -> (
    (Seq<Seq<char>>, Seq<Seq<char>>, Seq<Seq<char>>),
    Seq<Seq<char>>,
) {
    match repo_config {
        None => (default_policy(), Seq::empty()),
        Some(rc) => {
            let out = read_outcome(rc.path@, rc.read);
            match out.1 {
                None => (default_policy(), out.0),
                Some(o) => match overridden(
                    default_policy(),
                    o.schema_version,
                    opt_list_view(o.all_types),
                    opt_list_view(o.releasable_types),
                    opt_list_view(o.guarded_prefixes),
                ) {
                    Ok(p) => (p, out.0),
                    Err(e) => (
                        default_policy(),
                        out.0.push("Repo config at "@ + rc.path@ + " was ignored: "@ + e),
                    ),
                },
            }
        },
    }
}

/// The effective commit policy: the built-in one, overridden by the
/// repository's file when it reads well; every problem met becomes a
/// warning and leaves the built-in policy in force.
pub fn load_effective_commit_policy(repo_config: Option<RepoConfigRead>) -> (res: CommitPolicyLoadResult)
    ensures
        (policy_view(res.policy), list_view(res.warnings@)) == load_outcome(repo_config),
{
    let policy = CommitPolicy::default();
    let mut warnings: Vec<String> = Vec::new();
    match repo_config {
        None => {
            assert(list_view(warnings@) =~= Seq::<Seq<char>>::empty());
            CommitPolicyLoadResult { policy, warnings }
        },
        Some(rc) => {
            let at = cat3("Repo config", " at ", rc.path.as_str());
            let ghost out = read_outcome(rc.path@, rc.read);
            let found: Option<CommitPolicyOverride> = match rc.read {
                OverrideRead::Missing => None,
                OverrideRead::Unreadable(e) => {
                    warnings.push(cat3(at.as_str(), " could not be read: ", e.as_str()));
                    None
                },
                OverrideRead::InvalidJson(e) => {
                    warnings.push(cat3(at.as_str(), " is not valid JSON: ", e.as_str()));
                    None
                },
                OverrideRead::Parsed { keys, fields } => {
                    let unknown = unknown_field_names(&keys);
                    let ghost uv = list_view(unknown@);
                    let mut j: usize = 0;
                    while j < unknown.len()
                        invariant
                            j <= unknown.len(),
                            uv == list_view(unknown@),
                            at@ == repo_label() + " at "@ + rc.path@,
                            list_view(warnings@) == uv.take(j as int).map_values(
                                |k: Seq<char>| at@ + " contains unsupported field '"@ + k + "' (ignored)."@,
                            ),
                        decreases unknown.len() - j,
                    {
                        let head = cat3(at.as_str(), " contains unsupported field '", unknown[j].as_str());
                        let w = cat(head.as_str(), "' (ignored).");
                        let ghost before = warnings@;
                        warnings.push(w);
                        assert(list_view(warnings@) =~= list_view(before).push(w@));
                        assert(uv.take(j + 1).map_values(
                            |k: Seq<char>| at@ + " contains unsupported field '"@ + k + "' (ignored)."@,
                        ) =~= uv.take(j as int).map_values(
                            |k: Seq<char>| at@ + " contains unsupported field '"@ + k + "' (ignored)."@,
                        ).push(w@));
                        j = j + 1;
                    }
                    assert(uv.take(j as int) =~= uv);
                    match fields {
                        Ok(o) => Some(o),
                        Err(e) => {
                            let ghost before = warnings@;
                            let w = cat3(at.as_str(), " has invalid fields: ", e.as_str());
                            warnings.push(w);
                            assert(list_view(warnings@) =~= list_view(before).push(w@));
                            None
                        },
                    }
                },
            };
            assert(list_view(warnings@) =~= out.0);
            match found {
                None => CommitPolicyLoadResult { policy, warnings },
                Some(o) => match apply_override(&policy, &o) {
                    Ok(next) => CommitPolicyLoadResult { policy: next, warnings },
                    Err(err) => {
                        let head = cat3("Repo config at ", rc.path.as_str(), " was ignored: ");
                        let w = cat(head.as_str(), err.as_str());
                        let ghost before = warnings@;
                        warnings.push(w);
                        assert(list_view(warnings@) =~= list_view(before).push(w@));
                        CommitPolicyLoadResult { policy, warnings }
                    },
                },
            }
        },
    }
}


/// Every entry of a normalized list is trimmed and non-empty, and no
/// entry occurs twice.
pub proof fn lemma_normalized_clean(list: Seq<Seq<char>>)
    ensures
        forall|i: int|
            0 <= i < normalized(list).len() ==> #[trigger] trim(normalized(list)[i])
                == normalized(list)[i] && normalized(list)[i].len() > 0,
        normalized(list).no_duplicates(),
    decreases list.len(),
{
    if list.len() > 0 {
        lemma_normalized_clean(list.drop_last());
        lemma_trim_idempotent(list.last());
    }
}

/// A list whose entries are trimmed, non-empty and distinct is its own
/// normal form.
proof fn lemma_clean_is_normal(list: Seq<Seq<char>>)
    requires
        forall|i: int| 0 <= i < list.len() ==> #[trigger] trim(list[i]) == list[i] && list[i].len() > 0,
        list.no_duplicates(),
    ensures
        normalized(list) == list,
    decreases list.len(),
{
    if list.len() > 0 {
        let prev = list.drop_last();
        assert forall|i: int| 0 <= i < prev.len() implies #[trigger] trim(prev[i]) == prev[i]
            && prev[i].len() > 0 by {
            assert(prev[i] == list[i]);
        }
        lemma_clean_is_normal(prev);
        assert(trim(list.last()) == list[list.len() - 1]);
        if prev.contains(list.last()) {
            let k = choose|k: int| 0 <= k < prev.len() && prev[k] == list.last();
            assert(list[k] == list[list.len() - 1]);
        }
        assert(prev.push(list.last()) =~= list);
    }
}

/// Normalizing a normalized list changes nothing.
pub proof fn law_normalize_idempotent(list: Seq<Seq<char>>)
    ensures
        normalized(normalized(list)) == normalized(list),
{
    lemma_normalized_clean(list);
    lemma_clean_is_normal(normalized(list));
}

/// The built-in policy passes validation.
pub proof fn law_default_policy_valid()
    ensures
        policy_error(default_policy()) is None,
{
    let all = default_all_types();
    let rel = seq!["feat"@, "fix"@];
    assert(all[0] == "feat"@ && all[1] == "fix"@);
    assert(rel.drop_last() =~= seq!["feat"@]);
    assert(rel.drop_last().drop_last() =~= Seq::<Seq<char>>::empty());
    assert(all.contains(rel[0]));
    assert(all.contains(rel[1]));
    assert(first_unknown(all, rel.drop_last().drop_last()) is None);
    assert(first_unknown(all, rel.drop_last()) is None);
    assert(first_unknown(all, rel) is None);
    assert(all.len() > 0);
}

/// Whatever the repository's override file holds, the effective commit
/// policy passes validation: an accepted override is a valid policy, and
/// any other outcome leaves the built-in one in force.
pub proof fn law_effective_policy_valid(repo_config: Option<RepoConfigRead>)
    ensures
        policy_error(load_outcome(repo_config).0) is None,
{
    law_default_policy_valid();
}

/// An override that declares schema version 1 is read exactly as one that
/// declares none: the version refuses nothing there.
pub proof fn law_version_one_is_accepted(
    base: (Seq<Seq<char>>, Seq<Seq<char>>, Seq<Seq<char>>),
    all: Option<Seq<Seq<char>>>,
    rel: Option<Seq<Seq<char>>>,
    guarded: Option<Seq<Seq<char>>>,
)
    ensures
        overridden(base, Some(1u32), all, rel, guarded) == overridden(base, None, all, rel, guarded),
{
}

/// Any other declared version refuses the override, whatever it sets.
pub proof fn law_other_versions_are_refused(
    base: (Seq<Seq<char>>, Seq<Seq<char>>, Seq<Seq<char>>),
    v: u32,
    all: Option<Seq<Seq<char>>>,
    rel: Option<Seq<Seq<char>>>,
    guarded: Option<Seq<Seq<char>>>,
)
    requires
        v != 1,
    ensures
        overridden(base, Some(v), all, rel, guarded) == Err::<(Seq<Seq<char>>, Seq<Seq<char>>, Seq<Seq<char>>), Seq<char>>(
            "schema_version "@ + decimal(v as nat) + " is not supported (expected 1)"@,
        ),
{
}

/// Normalizing keeps exactly the non-empty trimmed entries: each of them is
/// in the result, and each entry of the result is one of them.
pub proof fn law_normalize_keeps_entries(list: Seq<Seq<char>>)
    ensures
        forall|i: int| 0 <= i < list.len() && trim(#[trigger] list[i]).len() > 0 ==> normalized(list).contains(trim(list[i])),
        forall|x: Seq<char>| #[trigger] normalized(list).contains(x) ==> exists|i: int| 0 <= i < list.len() && trim(list[i]) == x,
    decreases list.len(),
{
    if list.len() > 0 {
        let init = list.drop_last();
        law_normalize_keeps_entries(init);
        let prev = normalized(init);
        let t = trim(list.last());
        assert forall|i: int| 0 <= i < list.len() && trim(#[trigger] list[i]).len() > 0 implies normalized(list).contains(
            trim(list[i]),
        ) by {
            if i < list.len() - 1 {
                assert(init[i] == list[i]);
                assert(prev.contains(trim(list[i])));
                if !(t.len() == 0 || prev.contains(t)) {
                    let m = choose|m: int| 0 <= m < prev.len() && prev[m] == trim(list[i]);
                    assert(prev.push(t)[m] == trim(list[i]));
                }
            } else {
                if !(t.len() == 0 || prev.contains(t)) {
                    assert(prev.push(t)[prev.len() as int] == t);
                }
            }
        }
        assert forall|x: Seq<char>| #[trigger] normalized(list).contains(x) implies exists|i: int|
            0 <= i < list.len() && trim(list[i]) == x by {
            if prev.contains(x) {
                let i = choose|i: int| 0 <= i < init.len() && trim(init[i]) == x;
                assert(list[i] == init[i]);
            } else {
                let m = choose|m: int| 0 <= m < normalized(list).len() && normalized(list)[m] == x;
                assert(x == t);
                assert(trim(list[list.len() - 1]) == x);
            }
        }
    }
}

} // verus!

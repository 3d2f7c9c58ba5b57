//! Deep merging of TOML documents: the user's configuration file is laid
//! over the system-wide one.
use vstd::prelude::*;

use crate::text::str_eq;

verus! {

#[verifier::external_type_specification]
#[verifier::external_body]
pub struct ExTomlValue(toml::Value);

/// A TOML value: a table of named values, or any other value, which the
/// merge carries through untouched.
pub enum TomlTree {
    Table(TomlEntries),
    Leaf(toml::Value),
}

/// The entries of a table, in order.
pub enum TomlEntries {
    Nil,
    Cons(String, Box<TomlTree>, Box<TomlEntries>),
}

/// The value stored under `key`, when there is one (the first one).
pub open spec fn lookup(e: TomlEntries, key: Seq<char>) -> Option<TomlTree>
    decreases e,
{
    match e {
        TomlEntries::Nil => None,
        TomlEntries::Cons(k, v, rest) => if k@ == key {
            Some(*v)
        } else {
            lookup(*rest, key)
        },
    }
}

/// `e` with `value` stored under `key`: the value of the existing entry is
/// replaced in place, or a new entry is added at the end.
pub open spec fn insert(e: TomlEntries, key: String, value: TomlTree) -> TomlEntries
    decreases e,
{
    match e {
        TomlEntries::Nil => TomlEntries::Cons(key, Box::new(value), Box::new(TomlEntries::Nil)),
        TomlEntries::Cons(k, v, rest) => if k@ == key@ {
            TomlEntries::Cons(k, Box::new(value), rest)
        } else {
            TomlEntries::Cons(k, v, Box::new(insert(*rest, key, value)))
        },
    }
}

/// Whether no key occurs twice.
pub open spec fn keys_distinct(e: TomlEntries) -> bool
    decreases e,
{
    match e {
        TomlEntries::Nil => true,
        TomlEntries::Cons(k, _, rest) => lookup(*rest, k@) is None && keys_distinct(*rest),
    }
}

/// `over` laid over `base`: two tables merge entry by entry, anything else
/// is replaced by `over`.
pub open spec fn merge_tree(base: TomlTree, over: TomlTree) -> TomlTree
    decreases over,
{
    match over {
        TomlTree::Table(r) => match base {
            TomlTree::Table(l) => TomlTree::Table(merge_entries(l, r)),
            _ => over,
        },
        _ => over,
    }
}

/// The entries of `right` laid, one by one, over the entries `left`: an
/// entry whose old and new values are both tables is merged, any other
/// entry is replaced or added.
pub open spec fn merge_entries(left: TomlEntries, right: TomlEntries) -> TomlEntries
    decreases right,
{
    match right {
        TomlEntries::Nil => left,
        TomlEntries::Cons(k, v, rest) => {
            let merged = match lookup(left, k@) {
                Some(existing) => if existing is Table && *v is Table {
                    merge_tree(existing, *v)
                } else {
                    *v
                },
                None => *v,
            };
            merge_entries(insert(left, k, merged), *rest)
        },
    }
}

/// The value under `key` in `e`, taken out and replaced by an empty table.
fn take_value(e: TomlEntries, key: &String) -> (r: (TomlEntries, Option<TomlTree>))
    ensures
        r.1 == lookup(e, key@),
        forall|k: String, v: TomlTree| k@ == key@ ==> #[trigger] insert(r.0, k, v) == insert(e, k, v),
        forall|k: Seq<char>| k != key@ ==> #[trigger] lookup(r.0, k) == lookup(e, k),
    decreases e,
{
    match e {
        TomlEntries::Nil => (TomlEntries::Nil, None),
        TomlEntries::Cons(k, v, rest) => {
            if str_eq(k.as_str(), key.as_str()) {
                let r0 = TomlEntries::Cons(k, Box::new(TomlTree::Table(TomlEntries::Nil)), rest);
                assert forall|kk: String, vv: TomlTree| kk@ == key@ implies #[trigger] insert(
                    r0,
                    kk,
                    vv,
                ) == insert(e, kk, vv) by {}
                (r0, Some(*v))
            } else {
                let ghost rest_v = *rest;
                let (rest2, found) = take_value(*rest, key);
                let r0 = TomlEntries::Cons(k, v, Box::new(rest2));
                assert forall|kk: String, vv: TomlTree| kk@ == key@ implies #[trigger] insert(
                    r0,
                    kk,
                    vv,
                ) == insert(e, kk, vv) by {
                    assert(insert(rest2, kk, vv) == insert(rest_v, kk, vv));
                }
                assert forall|kk: Seq<char>| kk != key@ implies #[trigger] lookup(r0, kk) == lookup(
                    e,
                    kk,
                ) by {
                    assert(lookup(rest2, kk) == lookup(rest_v, kk));
                }
                (r0, found)
            }
        },
    }
}

/// `e` with `value` stored under `key`.
fn put_value(e: TomlEntries, key: String, value: TomlTree) -> (r: TomlEntries)
    ensures
        r == insert(e, key, value),
    decreases e,
{
    match e {
        TomlEntries::Nil => TomlEntries::Cons(key, Box::new(value), Box::new(TomlEntries::Nil)),
        TomlEntries::Cons(k, v, rest) => {
            if str_eq(k.as_str(), key.as_str()) {
                TomlEntries::Cons(k, Box::new(value), rest)
            } else {
                TomlEntries::Cons(k, v, Box::new(put_value(*rest, key, value)))
            }
        },
    }
}

/// `over` laid over `base` (see `merge_tree`).
pub fn merge_toml(base: TomlTree, over: TomlTree) -> (r: TomlTree)
    ensures
        r == merge_tree(base, over),
    decreases over,
{
    match over {
        TomlTree::Table(r) => match base {
            TomlTree::Table(l) => TomlTree::Table(merge_table(l, r)),
            _ => TomlTree::Table(r),
        },
        _ => over,
    }
}

/// The entries of `right` laid over `left` (see `merge_entries`).
fn merge_table(left: TomlEntries, right: TomlEntries) -> (r: TomlEntries)
    ensures
        r == merge_entries(left, right),
    decreases right,
{
    match right {
        TomlEntries::Nil => left,
        TomlEntries::Cons(k, v, rest) => {
            let (left2, existing) = take_value(left, &k);
            let merged = match existing {
                Some(e) => match (e, *v) {
                    (TomlTree::Table(el), TomlTree::Table(vr)) => merge_toml(
                        TomlTree::Table(el),
                        TomlTree::Table(vr),
                    ),
                    (_, v2) => v2,
                },
                None => *v,
            };
            let left3 = put_value(left2, k, merged);
            merge_table(left3, *rest)
        },
    }
}


/// What the value under `key` becomes when `v` is laid over `existing`.
pub open spec fn laid_over(existing: Option<TomlTree>, v: TomlTree) -> TomlTree {
    match existing {
        Some(e) => if e is Table && v is Table {
            merge_tree(e, v)
        } else {
            v
        },
        None => v,
    }
}

/// After storing a value under a key, looking the key up gives that value,
/// and every other key keeps its value.
pub proof fn lemma_lookup_insert(e: TomlEntries, k: String, v: TomlTree, q: Seq<char>)
    ensures
        lookup(insert(e, k, v), q) == (if q == k@ {
            Some(v)
        } else {
            lookup(e, q)
        }),
    decreases e,
{
    match e {
        TomlEntries::Nil => {},
        TomlEntries::Cons(k2, v2, rest) => {
            if k2@ != k@ {
                lemma_lookup_insert(*rest, k, v, q);
            }
        },
    }
}

/// Laying a table over another: a key the override sets takes the
/// override's value (merged with the old one when both are tables), and
/// every key the override leaves out keeps the base's value.
pub proof fn lemma_merge_entries_lookup(left: TomlEntries, right: TomlEntries, q: Seq<char>)
    requires
        keys_distinct(right),
    ensures
        lookup(merge_entries(left, right), q) == match lookup(right, q) {
            None => lookup(left, q),
            Some(v) => Some(laid_over(lookup(left, q), v)),
        },
    decreases right,
{
    match right {
        TomlEntries::Nil => {},
        TomlEntries::Cons(k, v, rest) => {
            let merged = laid_over(lookup(left, k@), *v);
            let left2 = insert(left, k, merged);
            lemma_merge_entries_lookup(left2, *rest, q);
            lemma_lookup_insert(left, k, merged, q);
        },
    }
}

/// What `toml::from_str::<toml::Value>` makes of a text: its tree (tables
/// as entries in the order of the value's map, other values as leaves), or
/// the text of its error.
pub uninterp spec fn toml_text_tree(text: Seq<char>) -> Result<TomlTree, Seq<char>>;

/// A parsed TOML value as a tree: tables become entries, in the order of
/// the value's map, anything else a leaf.
///
/// Trusted: a conversion of `toml::Value`, one variant for one, with
/// nothing stated of it; `parse_toml_tree`, whose body calls it, states the
/// result.
#[verifier::external_body]
fn toml_value_tree(value: toml::Value) -> TomlTree {
    match value {
        toml::Value::Table(table) => {
            let mut entries = TomlEntries::Nil;
            for (key, value) in table.into_iter().rev() {
                entries = TomlEntries::Cons(key, Box::new(toml_value_tree(value)), Box::new(entries));
            }
            TomlTree::Table(entries)
        },
        other => TomlTree::Leaf(other),
    }
}

/// The tree of a TOML text, or the text of the parser's error.
///
/// Trusted: `toml::from_str::<toml::Value>` and `toml::de::Error`'s
/// `Display`; what it gives depends on the text alone.
#[verifier::external_body]
fn parse_toml_tree(text: &str) -> (r: Result<TomlTree, String>)
    ensures
        r is Ok <==> toml_text_tree(text@) is Ok,
        r matches Ok(t) ==> toml_text_tree(text@)->Ok_0 == t,
        r matches Err(m) ==> toml_text_tree(text@)->Err_0 == m@,
{
    toml::from_str::<toml::Value>(text).map(toml_value_tree).map_err(|e| e.to_string())
}

/// The configuration tree in effect: the user's file, when there is one,
/// laid over the system-wide settings (`merge_tree`), both read as TOML;
/// the parser's error for the first text that is not TOML.
pub fn layered_config_tree(system_text: &str, user_text: Option<&str>) -> (r: Result<
    TomlTree,
    String,
>)
    ensures
        match toml_text_tree(system_text@) {
            Err(e) => r matches Err(m) && m@ == e,
            Ok(system) => match user_text {
                None => r matches Ok(m) && m == system,
                Some(t) => match toml_text_tree(t@) {
                    Ok(u) => r matches Ok(m) && m == merge_tree(system, u),
                    Err(e) => r matches Err(m) && m@ == e,
                },
            },
        },
{
    let system = match parse_toml_tree(system_text) {
        Ok(t) => t,
        Err(m) => {
            return Err(m);
        },
    };
    match user_text {
        None => Ok(system),
        Some(t) => match parse_toml_tree(t) {
            Ok(user) => Ok(merge_toml(system, user)),
            Err(m) => Err(m),
        },
    }
}

} // verus!

//! A TOML document tree, read with the `toml` crate, and the table
//! operations the configuration migration is built from.
use crate::text::{owned, seq_less, str_eq, text_less};
use vstd::prelude::*;

verus! {

/// A TOML value. Floats and datetimes keep their TOML text.
///
/// Tables hold their entries in ascending key order with each key once, as
/// the `toml` crate's map does.
#[derive(Debug, PartialEq, Eq)]
pub enum TomlValue {
    String(String),
    Integer(i64),
    Float(String),
    Boolean(bool),
    Datetime(String),
    Array(Vec<TomlValue>),
    Table(Vec<TomlEntry>),
}

/// One `key = value` entry of a TOML table.
#[derive(Debug, PartialEq, Eq)]
pub struct TomlEntry {
    pub key: String,
    pub value: TomlValue,
}

/// A TOML value with its text as character sequences.
pub enum TomlView {
    String(Seq<char>),
    Integer(i64),
    Float(Seq<char>),
    Boolean(bool),
    Datetime(Seq<char>),
    Array(Seq<TomlView>),
    Table(Seq<(Seq<char>, TomlView)>),
}

pub open spec fn toml_view(v: TomlValue) -> TomlView
    decreases v,
{
    match v {
        TomlValue::String(s) => TomlView::String(s@),
        TomlValue::Integer(i) => TomlView::Integer(i),
        TomlValue::Float(s) => TomlView::Float(s@),
        TomlValue::Boolean(b) => TomlView::Boolean(b),
        TomlValue::Datetime(s) => TomlView::Datetime(s@),
        TomlValue::Array(items) => TomlView::Array(
            Seq::new(
                items.len() as nat,
                |i: int|
                    {
                        if 0 <= i < items.len() {
                            proof {
                                vstd::std_specs::vec::axiom_vec_index_decreases(items, i);
                            }
                            toml_view(items[i])
                        } else {
                            TomlView::Boolean(false)
                        }
                    },
            ),
        ),
        TomlValue::Table(entries) => TomlView::Table(
            Seq::new(
                entries.len() as nat,
                |i: int|
                    {
                        if 0 <= i < entries.len() {
                            proof {
                                vstd::std_specs::vec::axiom_vec_index_decreases(entries, i);
                            }
                            (entries[i].key@, toml_view(entries[i].value))
                        } else {
                            (Seq::empty(), TomlView::Boolean(false))
                        }
                    },
            ),
        ),
    }
}

impl View for TomlValue {
    type V = TomlView;

    open spec fn view(&self) -> TomlView {
        toml_view(*self)
    }
}

/// The entries of a table as key and value views.
pub open spec fn entries_view(es: Seq<TomlEntry>) -> Seq<(Seq<char>, TomlView)> {
    es.map_values(|e: TomlEntry| (e.key@, e.value@))
}

pub proof fn lemma_table_view(es: Vec<TomlEntry>)
    ensures
        TomlValue::Table(es)@ == TomlView::Table(entries_view(es@)),
{
    assert(TomlValue::Table(es)@->Table_0 =~= entries_view(es@));
}

pub proof fn lemma_array_view(items: Vec<TomlValue>)
    ensures
        TomlValue::Array(items)@ == TomlView::Array(items@.map_values(|v: TomlValue| v@)),
{
    assert(TomlValue::Array(items)@->Array_0 =~= items@.map_values(|v: TomlValue| v@));
}

/// The value of `toml::Value`, declared so that it can be handed between trusted items.
#[verifier::external_type_specification]
#[verifier::external_body]
pub struct ExTomlValue(toml::Value);

/// What the `toml` crate reads from a document: its tree, or the text of its error.
pub uninterp spec fn toml_document(text: Seq<char>) -> Result<TomlView, Seq<char>>;

pub open spec fn toml_outcome(r: Result<TomlValue, String>) -> Result<TomlView, Seq<char>> {
    match r {
        Ok(v) => Ok(v@),
        Err(e) => Err(e@),
    }
}

/// Every table in a tree, at any depth, holds each key once.
pub open spec fn tables_unique(v: TomlView) -> bool
    decreases v, 0nat,
{
    match v {
        TomlView::Table(t) => keys_unique(t) && entries_tables_unique(t, t.len()),
        TomlView::Array(a) => items_tables_unique(a, a.len()),
        _ => true,
    }
}

/// The values of the first `n` entries hold each key once in every table.
pub open spec fn entries_tables_unique(t: Seq<(Seq<char>, TomlView)>, n: nat) -> bool
    decreases t, n,
{
    if n == 0 || n > t.len() {
        true
    } else {
        proof {
            assert(decreases_to!(t => t[n - 1]));
        }
        entries_tables_unique(t, (n - 1) as nat) && tables_unique(t[n - 1].1)
    }
}

/// The first `n` items hold each key once in every table.
pub open spec fn items_tables_unique(a: Seq<TomlView>, n: nat) -> bool
    decreases a, n,
{
    if n == 0 || n > a.len() {
        true
    } else {
        proof {
            assert(decreases_to!(a => a[n - 1]));
        }
        items_tables_unique(a, (n - 1) as nat) && tables_unique(a[n - 1])
    }
}

proof fn lemma_entries_tables_unique(t: Seq<(Seq<char>, TomlView)>, n: nat)
    requires
        n <= t.len(),
    ensures
        entries_tables_unique(t, n) <==> forall|i: int| 0 <= i < n ==> #[trigger] tables_unique(t[i].1),
    decreases n,
{
    if n > 0 {
        lemma_entries_tables_unique(t, (n - 1) as nat);
        assert(entries_tables_unique(t, n) == (entries_tables_unique(t, (n - 1) as nat) && tables_unique(
            t[n - 1].1,
        )));
        assert(tables_unique(t[n - 1].1) == tables_unique(t[(n - 1) as int].1));
    }
}

proof fn lemma_items_tables_unique(a: Seq<TomlView>, n: nat)
    requires
        n <= a.len(),
    ensures
        items_tables_unique(a, n) <==> forall|i: int| 0 <= i < n ==> #[trigger] tables_unique(a[i]),
    decreases n,
{
    if n > 0 {
        lemma_items_tables_unique(a, (n - 1) as nat);
        assert(items_tables_unique(a, n) == (items_tables_unique(a, (n - 1) as nat) && tables_unique(a[n - 1])));
    }
}

/// What `tables_unique` says of a table and of an array.
pub proof fn lemma_tables_unique_unfold(v: TomlView)
    ensures
        v matches TomlView::Table(t) ==> (tables_unique(v) <==> keys_unique(t) && forall|i: int|
            0 <= i < t.len() ==> #[trigger] tables_unique(t[i].1)),
        v matches TomlView::Array(a) ==> (tables_unique(v) <==> forall|i: int|
            0 <= i < a.len() ==> #[trigger] tables_unique(a[i])),
{
    match v {
        TomlView::Table(t) => lemma_entries_tables_unique(t, t.len()),
        TomlView::Array(a) => lemma_items_tables_unique(a, a.len()),
        _ => {},
    }
}

/// Reads a TOML document with `toml::from_str::<toml::Value>`.
///
/// The contract claims that the outcome is a function of the text: the
/// document's tree, or the rendering of `toml::de::Error`; and that every
/// table of the tree holds each key once, as the crate's `toml::Table` (a
/// map from key to value) does. A document is a table; its keys come in the
/// order of the crate's map (ascending). What the tree is for a given text
/// is the crate's grammar and is not stated here.
#[verifier::external_body]
pub fn parse_toml_document(text: &str) -> (r: Result<TomlValue, String>)
    ensures
        toml_outcome(r) == toml_document(text@),
        r matches Ok(v) ==> tables_unique(v@),
{
    match toml::from_str::<toml::Value>(text) {
        Ok(value) => Ok(toml_value_from(value)),
        Err(error) => Err(error.to_string()),
    }
}

/// Converts `toml::Value` into [`TomlValue`], one variant per arm (floats
/// and datetimes by their `to_string` text). Only [`parse_toml_document`]
/// calls it; nothing is promised of it on its own.
#[verifier::external_body]
fn toml_value_from(value: toml::Value) -> TomlValue {
    match value {
        toml::Value::String(s) => TomlValue::String(s),
        toml::Value::Integer(i) => TomlValue::Integer(i),
        toml::Value::Float(f) => TomlValue::Float(f.to_string()),
        toml::Value::Boolean(b) => TomlValue::Boolean(b),
        toml::Value::Datetime(d) => TomlValue::Datetime(d.to_string()),
        toml::Value::Array(items) => TomlValue::Array(items.into_iter().map(toml_value_from).collect()),
        toml::Value::Table(map) => TomlValue::Table(
            map.into_iter().map(|(key, v)| TomlEntry { key, value: toml_value_from(v) }).collect(),
        ),
    }
}

/// Position of the first entry with key `k`.
pub open spec fn key_index(t: Seq<(Seq<char>, TomlView)>, k: Seq<char>) -> Option<int> {
    if exists|i: int| 0 <= i < t.len() && (#[trigger] t[i]).0 == k {
        Some(choose|i: int| 0 <= i < t.len() && t[i].0 == k && forall|j: int| 0 <= j < i ==> (#[trigger] t[j]).0 != k)
    } else {
        None
    }
}

pub proof fn lemma_key_index(t: Seq<(Seq<char>, TomlView)>, k: Seq<char>)
    ensures
        key_index(t, k) matches Some(i) ==> 0 <= i < t.len() && t[i].0 == k && forall|j: int| 0 <= j < i ==> (#[trigger] t[j]).0 != k,
        key_index(t, k) is None ==> forall|j: int| 0 <= j < t.len() ==> (#[trigger] t[j]).0 != k,
{
    if exists|i: int| 0 <= i < t.len() && (#[trigger] t[i]).0 == k {
        let i0 = choose|i: int| 0 <= i < t.len() && (#[trigger] t[i]).0 == k;
        lemma_first_key(t, k, i0);
    }
}

proof fn lemma_first_key(t: Seq<(Seq<char>, TomlView)>, k: Seq<char>, i0: int)
    requires
        0 <= i0 < t.len(),
        t[i0].0 == k,
    ensures
        exists|i: int| 0 <= i < t.len() && t[i].0 == k && forall|j: int| 0 <= j < i ==> (#[trigger] t[j]).0 != k,
    decreases i0,
{
    if exists|j: int| 0 <= j < i0 && (#[trigger] t[j]).0 == k {
        let j = choose|j: int| 0 <= j < i0 && (#[trigger] t[j]).0 == k;
        lemma_first_key(t, k, j);
    } else {
        assert(forall|j: int| 0 <= j < i0 ==> (#[trigger] t[j]).0 != k);
    }
}

/// The value under key `k`.
pub open spec fn table_get(t: Seq<(Seq<char>, TomlView)>, k: Seq<char>) -> Option<TomlView> {
    match key_index(t, k) {
        Some(i) => Some(t[i].1),
        None => None,
    }
}

/// The table without key `k`.
pub open spec fn table_remove(t: Seq<(Seq<char>, TomlView)>, k: Seq<char>) -> Seq<(Seq<char>, TomlView)> {
    match key_index(t, k) {
        Some(i) => t.remove(i),
        None => t,
    }
}

/// The first entry with key `k` is at `i`.
pub proof fn lemma_key_index_at(t: Seq<(Seq<char>, TomlView)>, k: Seq<char>, i: int)
    requires
        0 <= i < t.len(),
        t[i].0 == k,
        forall|j: int| 0 <= j < i ==> (#[trigger] t[j]).0 != k,
    ensures
        key_index(t, k) == Some(i),
{
    lemma_key_index(t, k);
    let i1 = key_index(t, k)->0;
    assert(!(i1 < i));
    assert(!(i < i1)) by {
        if i < i1 {
            assert(t[i].0 != k);
        }
    }
}

/// Removing key `k` leaves the value under any other key as it was.
pub proof fn lemma_table_get_after_remove(t: Seq<(Seq<char>, TomlView)>, k: Seq<char>, k2: Seq<char>)
    requires
        k != k2,
    ensures
        table_get(table_remove(t, k), k2) == table_get(t, k2),
{
    lemma_key_index(t, k);
    lemma_key_index(t, k2);
    if let Some(i) = key_index(t, k) {
        let u = t.remove(i);
        lemma_key_index(u, k2);
        match key_index(t, k2) {
            Some(j) => {
                if j < i {
                    assert forall|m: int| 0 <= m < j implies (#[trigger] u[m]).0 != k2 by {
                        assert(u[m] == t[m]);
                    }
                    lemma_key_index_at(u, k2, j);
                } else {
                    assert(j != i);
                    assert forall|m: int| 0 <= m < j - 1 implies (#[trigger] u[m]).0 != k2 by {
                        if m < i {
                            assert(u[m] == t[m]);
                        } else {
                            assert(u[m] == t[m + 1]);
                        }
                    }
                    assert(u[j - 1] == t[j]);
                    lemma_key_index_at(u, k2, j - 1);
                }
            },
            None => {
                if let Some(j) = key_index(u, k2) {
                    if j < i {
                        assert(u[j] == t[j]);
                    } else {
                        assert(u[j] == t[j + 1]);
                    }
                }
            },
        }
    }
}

/// Where a new key goes: before the first larger key.
pub open spec fn insert_position(t: Seq<(Seq<char>, TomlView)>, k: Seq<char>) -> int {
    if exists|i: int| 0 <= i < t.len() && seq_less(k, (#[trigger] t[i]).0) {
        choose|i: int| 0 <= i < t.len() && seq_less(k, t[i].0) && forall|j: int| 0 <= j < i ==> !seq_less(k, (#[trigger] t[j]).0)
    } else {
        t.len() as int
    }
}

/// The table with `k` set to `v`: replaced in place, or added in key order.
pub open spec fn table_insert(t: Seq<(Seq<char>, TomlView)>, k: Seq<char>, v: TomlView) -> Seq<(Seq<char>, TomlView)> {
    match key_index(t, k) {
        Some(i) => t.update(i, (k, v)),
        None => t.insert(insert_position(t, k), (k, v)),
    }
}

proof fn lemma_first_larger(t: Seq<(Seq<char>, TomlView)>, k: Seq<char>, i0: int)
    requires
        0 <= i0 < t.len(),
        seq_less(k, t[i0].0),
    ensures
        exists|i: int| 0 <= i < t.len() && seq_less(k, t[i].0) && forall|j: int| 0 <= j < i ==> !seq_less(k, (#[trigger] t[j]).0),
    decreases i0,
{
    if exists|j: int| 0 <= j < i0 && seq_less(k, (#[trigger] t[j]).0) {
        let j = choose|j: int| 0 <= j < i0 && seq_less(k, (#[trigger] t[j]).0);
        lemma_first_larger(t, k, j);
    } else {
        assert(forall|j: int| 0 <= j < i0 ==> !seq_less(k, (#[trigger] t[j]).0));
    }
}

proof fn lemma_insert_position_bounds(t: Seq<(Seq<char>, TomlView)>, k: Seq<char>)
    ensures
        0 <= insert_position(t, k) <= t.len(),
{
    if exists|i: int| 0 <= i < t.len() && seq_less(k, (#[trigger] t[i]).0) {
        let c = choose|i: int| 0 <= i < t.len() && seq_less(k, (#[trigger] t[i]).0);
        lemma_first_larger(t, k, c);
    }
}

/// Setting key `k` leaves the value under any other key as it was, and
/// gives `k` the value set.
pub proof fn lemma_table_get_after_insert(t: Seq<(Seq<char>, TomlView)>, k: Seq<char>, v: TomlView, k2: Seq<char>)
    ensures
        table_get(table_insert(t, k, v), k) == Some(v),
        k != k2 ==> table_get(table_insert(t, k, v), k2) == table_get(t, k2),
{
    lemma_key_index(t, k);
    lemma_key_index(t, k2);
    match key_index(t, k) {
        Some(i) => {
            let u = t.update(i, (k, v));
            assert forall|m: int| 0 <= m < i implies (#[trigger] u[m]).0 != k by {
                assert(u[m] == t[m]);
            }
            lemma_key_index_at(u, k, i);
            if k != k2 {
                lemma_key_index(u, k2);
                match key_index(t, k2) {
                    Some(j) => {
                        assert forall|m: int| 0 <= m < j implies (#[trigger] u[m]).0 != k2 by {
                            if m != i {
                                assert(u[m] == t[m]);
                            }
                        }
                        assert(j != i);
                        lemma_key_index_at(u, k2, j);
                    },
                    None => {
                        if let Some(j) = key_index(u, k2) {
                            assert(j != i);
                            assert(u[j] == t[j]);
                        }
                    },
                }
            }
        },
        None => {
            let p = insert_position(t, k);
            lemma_insert_position_bounds(t, k);
            let u = t.insert(p, (k, v));
            assert forall|m: int| 0 <= m < p implies (#[trigger] u[m]).0 != k by {
                assert(u[m] == t[m]);
            }
            lemma_key_index_at(u, k, p);
            if k != k2 {
                lemma_key_index(u, k2);
                match key_index(t, k2) {
                    Some(j) => {
                        if j < p {
                            assert forall|m: int| 0 <= m < j implies (#[trigger] u[m]).0 != k2 by {
                                assert(u[m] == t[m]);
                            }
                            lemma_key_index_at(u, k2, j);
                        } else {
                            assert forall|m: int| 0 <= m < j + 1 implies (#[trigger] u[m]).0 != k2 by {
                                if m < p {
                                    assert(u[m] == t[m]);
                                } else if m > p {
                                    assert(u[m] == t[m - 1]);
                                }
                            }
                            assert(u[j + 1] == t[j]);
                            lemma_key_index_at(u, k2, j + 1);
                        }
                    },
                    None => {
                        if let Some(j) = key_index(u, k2) {
                            if j < p {
                                assert(u[j] == t[j]);
                            } else if j > p {
                                assert(u[j] == t[j - 1]);
                            }
                        }
                    },
                }
            }
        },
    }
}

/// No key occurs twice among the entries.
pub open spec fn keys_unique(t: Seq<(Seq<char>, TomlView)>) -> bool {
    forall|i: int, j: int| 0 <= i < j < t.len() ==> (#[trigger] t[i]).0 != (#[trigger] t[j]).0
}

/// Every entry's value has property `p`.
pub open spec fn values_ok(t: Seq<(Seq<char>, TomlView)>, p: spec_fn(TomlView) -> bool) -> bool {
    forall|j: int| 0 <= j < t.len() ==> p(#[trigger] t[j].1)
}

/// Removing a key keeps the keys unique and every value's property, and
/// leaves the key absent when it occurred once.
pub proof fn lemma_remove_keeps(t: Seq<(Seq<char>, TomlView)>, k: Seq<char>, p: spec_fn(TomlView) -> bool)
    ensures
        keys_unique(t) ==> keys_unique(table_remove(t, k)),
        keys_unique(t) ==> table_get(table_remove(t, k), k) is None,
        values_ok(t, p) ==> values_ok(table_remove(t, k), p),
        table_get(t, k) is None ==> table_remove(t, k) == t,
{
    lemma_key_index(t, k);
    if let Some(i) = key_index(t, k) {
        let u = t.remove(i);
        assert forall|a: int| 0 <= a < u.len() implies u[a] == (if a < i { t[a] } else { t[a + 1] }) by {}
        if keys_unique(t) {
            assert forall|a: int, b: int| 0 <= a < b < u.len() implies (#[trigger] u[a]).0 != (#[trigger] u[b]).0 by {
                let a1 = if a < i { a } else { a + 1 };
                let b1 = if b < i { b } else { b + 1 };
                assert(u[a] == t[a1] && u[b] == t[b1] && a1 < b1);
            }
            lemma_key_index(u, k);
            if let Some(j) = key_index(u, k) {
                let j1 = if j < i { j } else { j + 1 };
                assert(u[j] == t[j1]);
                if j1 < i {
                    assert(t[j1].0 != t[i].0);
                } else {
                    assert(t[i].0 != t[j1].0);
                }
            }
        }
        if values_ok(t, p) {
            assert forall|a: int| 0 <= a < u.len() implies p(#[trigger] u[a].1) by {
                if a < i {
                    assert(u[a] == t[a]);
                } else {
                    assert(u[a] == t[a + 1]);
                }
            }
        }
    }
}

/// Setting a key keeps the keys unique, and every value's property when the
/// value set has it; setting a key to the value it has changes nothing.
pub proof fn lemma_insert_keeps(
    t: Seq<(Seq<char>, TomlView)>,
    k: Seq<char>,
    v: TomlView,
    p: spec_fn(TomlView) -> bool,
)
    ensures
        keys_unique(t) ==> keys_unique(table_insert(t, k, v)),
        values_ok(t, p) && p(v) ==> values_ok(table_insert(t, k, v), p),
        table_get(t, k) == Some(v) ==> table_insert(t, k, v) == t,
{
    lemma_key_index(t, k);
    match key_index(t, k) {
        Some(i) => {
            let u = t.update(i, (k, v));
            if keys_unique(t) {
                assert forall|a: int, b: int| 0 <= a < b < u.len() implies (#[trigger] u[a]).0 != (#[trigger] u[b]).0 by {
                    assert(u[a].0 == t[a].0 && u[b].0 == t[b].0);
                }
            }
            if table_get(t, k) == Some(v) {
                assert(u =~= t);
            }
        },
        None => {
            lemma_insert_position_bounds(t, k);
            let q = insert_position(t, k);
            let u = t.insert(q, (k, v));
            assert forall|a: int| 0 <= a < u.len() implies u[a] == (if a < q { t[a] } else if a == q { (k, v) } else {
                t[a - 1]
            }) by {}
            if keys_unique(t) {
                assert forall|a: int, b: int| 0 <= a < b < u.len() implies (#[trigger] u[a]).0 != (#[trigger] u[b]).0 by {
                    let a1 = if a < q { a } else { a - 1 };
                    let b1 = if b < q { b } else { b - 1 };
                    if a != q && b != q {
                        assert(u[a] == t[a1] && u[b] == t[b1] && a1 < b1);
                    } else if a == q {
                        assert(u[b] == t[b1]);
                    } else {
                        assert(u[a] == t[a1]);
                    }
                }
            }
            if values_ok(t, p) && p(v) {
                assert forall|a: int| 0 <= a < u.len() implies p(#[trigger] u[a].1) by {
                    if a < q {
                        assert(u[a] == t[a]);
                    } else if a > q {
                        assert(u[a] == t[a - 1]);
                    }
                }
            }
        },
    }
}

/// The value under a key of a table whose values all have property `p` has it.
pub proof fn lemma_get_ok(t: Seq<(Seq<char>, TomlView)>, k: Seq<char>, p: spec_fn(TomlView) -> bool)
    ensures
        values_ok(t, p) && table_get(t, k) is Some ==> p(table_get(t, k)->0),
{
    lemma_key_index(t, k);
}

/// Two tables with the same keys in the same places find the same keys,
/// and the one has unique keys when the other has.
pub proof fn lemma_same_keys(t: Seq<(Seq<char>, TomlView)>, u: Seq<(Seq<char>, TomlView)>, k: Seq<char>)
    requires
        t.len() == u.len(),
        forall|j: int| 0 <= j < t.len() ==> (#[trigger] t[j]).0 == u[j].0,
    ensures
        table_get(t, k) is None <==> table_get(u, k) is None,
        keys_unique(t) ==> keys_unique(u),
{
    lemma_key_index(t, k);
    lemma_key_index(u, k);
    if key_index(u, k) is Some {
        assert(t[key_index(u, k)->0].0 == k);
    }
    if key_index(t, k) is Some {
        assert(u[key_index(t, k)->0].0 == k);
    }
    if keys_unique(t) {
        assert forall|a: int, b: int| 0 <= a < b < u.len() implies (#[trigger] u[a]).0 != (#[trigger] u[b]).0 by {
            assert(t[a].0 == u[a].0 && t[b].0 == u[b].0);
        }
    }
}

/// Position of the entry with key `key`.
pub fn find_entry(es: &Vec<TomlEntry>, key: &str) -> (r: Option<usize>)
    ensures
        match r {
            Some(i) => key_index(entries_view(es@), key@) == Some(i as int) && i < es@.len(),
            None => key_index(entries_view(es@), key@) is None,
        },
{
    let ghost t = entries_view(es@);
    let mut i: usize = 0;
    while i < es.len()
        invariant
            i <= es.len(),
            t == entries_view(es@),
            forall|j: int| 0 <= j < i ==> (#[trigger] t[j]).0 != key@,
        decreases es.len() - i,
    {
        if str_eq(es[i].key.as_str(), key) {
            proof {
                assert(t[i as int].0 == key@);
                let w = choose|w: int| 0 <= w < t.len() && t[w].0 == key@ && forall|j: int| 0 <= j < w ==> (#[trigger] t[j]).0 != key@;
                assert(0 <= w < t.len() && t[w].0 == key@ && forall|j: int| 0 <= j < w ==> (#[trigger] t[j]).0 != key@) by {
                    assert(0 <= i < t.len() && t[i as int].0 == key@ && forall|j: int| 0 <= j < i ==> (#[trigger] t[j]).0 != key@);
                }
                if w < i {
                    assert(t[w].0 != key@);
                }
                if w > i {
                    assert(t[i as int].0 != key@);
                }
            }
            return Some(i);
        }
        i = i + 1;
    }
    None
}

/// Removes the entry with key `key`, handing back its value.
pub fn remove_entry(es: Vec<TomlEntry>, key: &str) -> (r: (Vec<TomlEntry>, Option<TomlValue>))
    ensures
        entries_view(r.0@) == table_remove(entries_view(es@), key@),
        match r.1 {
            Some(v) => table_get(entries_view(es@), key@) == Some(v@),
            None => table_get(entries_view(es@), key@) is None,
        },
{
    let mut es = es;
    match find_entry(&es, key) {
        Some(i) => {
            let ghost before = es@;
            let removed = es.remove(i);
            assert(entries_view(es@) =~= entries_view(before).remove(i as int));
            (es, Some(removed.value))
        },
        None => (es, None),
    }
}

/// The position before the first key larger than `key`.
fn sorted_position(es: &Vec<TomlEntry>, key: &str) -> (r: usize)
    ensures
        r as int == insert_position(entries_view(es@), key@),
        r <= es@.len(),
{
    let ghost t = entries_view(es@);
    let mut p: usize = 0;
    while p < es.len() && !text_less(key, es[p].key.as_str())
        invariant
            p <= es.len(),
            t == entries_view(es@),
            forall|j: int| 0 <= j < p ==> !seq_less(key@, (#[trigger] t[j]).0),
        decreases es.len() - p,
    {
        p = p + 1;
    }
    proof {
        if p < es.len() {
            assert(seq_less(key@, t[p as int].0));
            let w = choose|w: int| 0 <= w < t.len() && seq_less(key@, t[w].0) && forall|j: int| 0 <= j < w ==> !seq_less(key@, (#[trigger] t[j]).0);
            assert(0 <= w < t.len() && seq_less(key@, t[w].0) && forall|j: int| 0 <= j < w ==> !seq_less(key@, (#[trigger] t[j]).0)) by {
                assert(0 <= p < t.len() && seq_less(key@, t[p as int].0) && forall|j: int| 0 <= j < p ==> !seq_less(key@, (#[trigger] t[j]).0));
            }
            if w < p {
                assert(!seq_less(key@, t[w].0));
            }
            if w > p {
                assert(!seq_less(key@, t[p as int].0));
            }
        } else {
            if exists|j: int| 0 <= j < t.len() && seq_less(key@, (#[trigger] t[j]).0) {
                let j = choose|j: int| 0 <= j < t.len() && seq_less(key@, (#[trigger] t[j]).0);
                assert(!seq_less(key@, t[j].0));
            }
        }
    }
    p
}

/// Sets `key` to `value`: in place when the key is there, else in key order.
pub fn insert_entry(es: Vec<TomlEntry>, key: &str, value: TomlValue) -> (r: Vec<TomlEntry>)
    ensures
        entries_view(r@) == table_insert(entries_view(es@), key@, value@),
{
    let mut es = es;
    let ghost t = entries_view(es@);
    let ghost vv = value@;
    proof {
        lemma_key_index(t, key@);
    }
    match find_entry(&es, key) {
        Some(i) => {
            let ghost before = es@;
            let old = es.remove(i);
            assert(old == before[i as int]);
            let entry = TomlEntry { key: old.key, value };
            let ghost e = entry;
            es.insert(i, entry);
            assert(es@ =~= before.update(i as int, e));
            assert(entries_view(es@) =~= t.update(i as int, (key@, vv)));
            es
        },
        None => {
            let p = sorted_position(&es, key);
            let ghost before = es@;
            let entry = TomlEntry { key: owned(key), value };
            let ghost e = entry;
            es.insert(p, entry);
            assert(es@ =~= before.insert(p as int, e));
            assert(entries_view(es@) =~= t.insert(p as int, (key@, vv)));
            es
        },
    }
}

/// A copy of a value with the same view.
pub fn clone_value(v: &TomlValue) -> (r: TomlValue)
    ensures
        r@ == v@,
    decreases v,
{
    match v {
        TomlValue::String(s) => TomlValue::String(owned(s.as_str())),
        TomlValue::Integer(i) => TomlValue::Integer(*i),
        TomlValue::Float(s) => TomlValue::Float(owned(s.as_str())),
        TomlValue::Boolean(b) => TomlValue::Boolean(*b),
        TomlValue::Datetime(s) => TomlValue::Datetime(owned(s.as_str())),
        TomlValue::Array(items) => {
            let mut out: Vec<TomlValue> = Vec::new();
            let mut i: usize = 0;
            while i < items.len()
                invariant
                    i <= items.len(),
                    out@.len() == i,
                    *v == TomlValue::Array(*items),
                    forall|j: int| 0 <= j < i ==> (#[trigger] out@[j])@ == items@[j]@,
                decreases items.len() - i,
            {
                proof {
                    vstd::std_specs::vec::axiom_vec_index_decreases(*items, i as int);
                    assert(decreases_to!(*v => (*v)->Array_0));
                }
                let c = clone_value(&items[i]);
                out.push(c);
                i = i + 1;
            }
            proof {
                lemma_array_view(out);
                lemma_array_view(*items);
                assert(out@.map_values(|x: TomlValue| x@) =~= items@.map_values(|x: TomlValue| x@));
            }
            TomlValue::Array(out)
        },
        TomlValue::Table(es) => {
            let mut out: Vec<TomlEntry> = Vec::new();
            let mut i: usize = 0;
            while i < es.len()
                invariant
                    i <= es.len(),
                    out@.len() == i,
                    *v == TomlValue::Table(*es),
                    forall|j: int| 0 <= j < i ==> (#[trigger] out@[j]).key@ == es@[j].key@ && out@[j].value@ == es@[j].value@,
                decreases es.len() - i,
            {
                proof {
                    vstd::std_specs::vec::axiom_vec_index_decreases(*es, i as int);
                    assert(decreases_to!(*v => (*v)->Table_0));
                    assert(decreases_to!(es@[i as int] => es@[i as int].value));
                }
                let c = clone_value(&es[i].value);
                out.push(TomlEntry { key: owned(es[i].key.as_str()), value: c });
                i = i + 1;
            }
            proof {
                lemma_table_view(out);
                lemma_table_view(*es);
                assert(entries_view(out@) =~= entries_view(es@));
            }
            TomlValue::Table(out)
        },
    }
}

/// Whether two values have the same view: same variant, same text or
/// number, and entries or items equal in order.
pub fn value_eq(a: &TomlValue, b: &TomlValue) -> (r: bool)
    ensures
        r == (a@ == b@),
    decreases a,
{
    match (a, b) {
        (TomlValue::String(x), TomlValue::String(y)) => str_eq(x.as_str(), y.as_str()),
        (TomlValue::Integer(x), TomlValue::Integer(y)) => *x == *y,
        (TomlValue::Float(x), TomlValue::Float(y)) => str_eq(x.as_str(), y.as_str()),
        (TomlValue::Boolean(x), TomlValue::Boolean(y)) => *x == *y,
        (TomlValue::Datetime(x), TomlValue::Datetime(y)) => str_eq(x.as_str(), y.as_str()),
        (TomlValue::Array(xs), TomlValue::Array(ys)) => {
            proof {
                lemma_array_view(*xs);
                lemma_array_view(*ys);
            }
            let ghost vx = xs@.map_values(|x: TomlValue| x@);
            let ghost vy = ys@.map_values(|x: TomlValue| x@);
            if xs.len() != ys.len() {
                assert(vx.len() != vy.len());
                return false;
            }
            let mut i: usize = 0;
            while i < xs.len()
                invariant
                    i <= xs.len(),
                    xs.len() == ys.len(),
                    *a == TomlValue::Array(*xs),
                    a@ == TomlView::Array(vx),
                    b@ == TomlView::Array(vy),
                    vx == xs@.map_values(|x: TomlValue| x@),
                    vy == ys@.map_values(|x: TomlValue| x@),
                    forall|j: int| 0 <= j < i ==> vx[j] == vy[j],
                decreases xs.len() - i,
            {
                proof {
                    vstd::std_specs::vec::axiom_vec_index_decreases(*xs, i as int);
                    assert(decreases_to!(*a => (*a)->Array_0));
                }
                if !value_eq(&xs[i], &ys[i]) {
                    assert(vx[i as int] != vy[i as int]);
                    return false;
                }
                i = i + 1;
            }
            assert(vx =~= vy);
            true
        },
        (TomlValue::Table(xs), TomlValue::Table(ys)) => {
            proof {
                lemma_table_view(*xs);
                lemma_table_view(*ys);
            }
            let ghost vx = entries_view(xs@);
            let ghost vy = entries_view(ys@);
            if xs.len() != ys.len() {
                assert(vx.len() != vy.len());
                return false;
            }
            let mut i: usize = 0;
            while i < xs.len()
                invariant
                    i <= xs.len(),
                    xs.len() == ys.len(),
                    *a == TomlValue::Table(*xs),
                    a@ == TomlView::Table(vx),
                    b@ == TomlView::Table(vy),
                    vx == entries_view(xs@),
                    vy == entries_view(ys@),
                    forall|j: int| 0 <= j < i ==> vx[j] == vy[j],
                decreases xs.len() - i,
            {
                proof {
                    vstd::std_specs::vec::axiom_vec_index_decreases(*xs, i as int);
                    assert(decreases_to!(*a => (*a)->Table_0));
                    assert(decreases_to!(xs@[i as int] => xs@[i as int].value));
                }
                if !str_eq(xs[i].key.as_str(), ys[i].key.as_str()) {
                    assert(vx[i as int].0 != vy[i as int].0);
                    return false;
                }
                if !value_eq(&xs[i].value, &ys[i].value) {
                    assert(vx[i as int].1 != vy[i as int].1);
                    return false;
                }
                i = i + 1;
            }
            assert(vx =~= vy);
            true
        },
        _ => false,
    }
}

} // verus!

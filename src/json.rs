use vstd::prelude::*;

verus! {

/// The mathematical content of a JSON document: objects keep their entries
/// in document order.
pub enum Json {
    Null,
    Bool(bool),
    Number(Seq<char>),
    Str(Seq<char>),
    Array(Seq<Json>),
    Object(Seq<(Seq<char>, Json)>),
}

/// A JSON document. Numbers are held as their text, so that nothing is lost
/// when a document passes through; objects keep their entries in order.
#[derive(Debug, PartialEq)]
pub enum JsonValue {
    Null,
    Bool(bool),
    Number(String),
    Str(String),
    Array(Vec<JsonValue>),
    Object(Vec<(String, JsonValue)>),
}

/// The content of a document.
pub open spec fn json_of(j: JsonValue) -> Json
    decreases j,
{
    match j {
        JsonValue::Null => Json::Null,
        JsonValue::Bool(b) => Json::Bool(b),
        JsonValue::Number(n) => Json::Number(n@),
        JsonValue::Str(s) => Json::Str(s@),
        JsonValue::Array(v) => Json::Array(items_of(v@)),
        JsonValue::Object(es) => Json::Object(entries_of(es@)),
    }
}

/// The content of a sequence of array items.
pub open spec fn items_of(s: Seq<JsonValue>) -> Seq<Json>
    decreases s,
{
    if s.len() == 0 {
        Seq::empty()
    } else {
        items_of(s.drop_last()).push(json_of(s.last()))
    }
}

/// The content of a sequence of object entries.
pub open spec fn entries_of(s: Seq<(String, JsonValue)>) -> Seq<(Seq<char>, Json)>
    decreases s,
{
    if s.len() == 0 {
        Seq::empty()
    } else {
        entries_of(s.drop_last()).push((s.last().0@, json_of(s.last().1)))
    }
}

impl View for JsonValue {
    type V = Json;

    open spec fn view(&self) -> Json {
        json_of(*self)
    }
}

/// Index of the first entry keyed `k`, if any.
pub open spec fn key_index(es: Seq<(Seq<char>, Json)>, k: Seq<char>) -> Option<int>
    decreases es.len(),
{
    if es.len() == 0 {
        None
    } else if es[0].0 == k {
        Some(0)
    } else {
        match key_index(es.drop_first(), k) {
            Some(i) => Some(i + 1),
            None => None,
        }
    }
}

/// The value of the first entry keyed `k`, if any.
pub open spec fn lookup(es: Seq<(Seq<char>, Json)>, k: Seq<char>) -> Option<Json> {
    match key_index(es, k) {
        Some(i) => Some(es[i].1),
        None => None,
    }
}

/// `key_index` finds the first entry with the key, and only that.
pub proof fn lemma_key_index(es: Seq<(Seq<char>, Json)>, k: Seq<char>)
    ensures
        match key_index(es, k) {
            Some(i) => 0 <= i < es.len() && es[i].0 == k && forall|j: int|
                0 <= j < i ==> #[trigger] es[j].0 != k,
            None => forall|j: int| 0 <= j < es.len() ==> #[trigger] es[j].0 != k,
        },
    decreases es.len(),
{
    if es.len() > 0 && es[0].0 != k {
        lemma_key_index(es.drop_first(), k);
        let t = es.drop_first();
        assert forall|j: int| 1 <= j < es.len() implies #[trigger] es[j].0 == t[j - 1].0 by {}
    }
}

/// An entry is the first one keyed `k` exactly when `key_index` says so.
pub proof fn lemma_key_index_is(es: Seq<(Seq<char>, Json)>, k: Seq<char>, i: int)
    requires
        0 <= i < es.len(),
        es[i].0 == k,
        forall|j: int| 0 <= j < i ==> #[trigger] es[j].0 != k,
    ensures
        key_index(es, k) == Some(i),
{
    lemma_key_index(es, k);
    match key_index(es, k) {
        Some(m) => {
            if m < i {
                assert(es[m].0 != k);
            } else if m > i {
                assert(es[i].0 != k);
            }
        },
        None => {
            assert(es[i].0 != k);
        },
    }
}

/// Replacing values leaves the position of every key where it was.
pub proof fn lemma_key_index_same_keys(
    es: Seq<(Seq<char>, Json)>,
    fs: Seq<(Seq<char>, Json)>,
    k: Seq<char>,
)
    requires
        es.len() == fs.len(),
        forall|j: int| 0 <= j < es.len() ==> #[trigger] es[j].0 == fs[j].0,
    ensures
        key_index(es, k) == key_index(fs, k),
{
    lemma_key_index(es, k);
    lemma_key_index(fs, k);
    match key_index(es, k) {
        Some(i) => {
            assert(fs[i].0 == es[i].0);
            assert forall|j: int| 0 <= j < i implies #[trigger] fs[j].0 != k by {
                assert(es[j].0 == fs[j].0);
            }
            lemma_key_index_is(fs, k, i);
        },
        None => {
            match key_index(fs, k) {
                Some(i) => {
                    assert(es[i].0 == fs[i].0);
                },
                None => {},
            }
        },
    }
}

/// Items are viewed one for one.
pub proof fn lemma_items_of(s: Seq<JsonValue>)
    ensures
        items_of(s).len() == s.len(),
        forall|i: int| 0 <= i < s.len() ==> #[trigger] items_of(s)[i] == json_of(s[i]),
    decreases s.len(),
{
    if s.len() > 0 {
        lemma_items_of(s.drop_last());
    }
}

/// Entries are viewed one for one.
pub proof fn lemma_entries_of(s: Seq<(String, JsonValue)>)
    ensures
        entries_of(s).len() == s.len(),
        forall|i: int|
            0 <= i < s.len() ==> #[trigger] entries_of(s)[i] == (s[i].0@, json_of(s[i].1)),
    decreases s.len(),
{
    if s.len() > 0 {
        lemma_entries_of(s.drop_last());
    }
}

/// Viewing an item appended at the end.
pub proof fn lemma_items_push(s: Seq<JsonValue>, x: JsonValue)
    ensures
        items_of(s.push(x)) == items_of(s).push(json_of(x)),
{
    assert(s.push(x).drop_last() =~= s);
}

/// Viewing entries after one of them is replaced.
pub proof fn lemma_entries_update(s: Seq<(String, JsonValue)>, i: int, e: (String, JsonValue))
    requires
        0 <= i < s.len(),
    ensures
        entries_of(s.update(i, e)) == entries_of(s).update(i, (e.0@, json_of(e.1))),
{
    lemma_entries_of(s);
    lemma_entries_of(s.update(i, e));
    assert(entries_of(s.update(i, e)) =~= entries_of(s).update(i, (e.0@, json_of(e.1))));
}

/// Viewing entries after one is appended.
pub proof fn lemma_entries_push(s: Seq<(String, JsonValue)>, e: (String, JsonValue))
    ensures
        entries_of(s.push(e)) == entries_of(s).push((e.0@, json_of(e.1))),
{
    assert(s.push(e).drop_last() =~= s);
}

/// Position of the first entry keyed `key`.
pub fn find_key(es: &Vec<(String, JsonValue)>, key: &String) -> (r: Option<usize>)
    ensures
        match r {
            Some(i) => key_index(entries_of(es@), key@) == Some(i as int),
            None => key_index(entries_of(es@), key@) is None,
        },
{
    proof {
        lemma_entries_of(es@);
        lemma_key_index(entries_of(es@), key@);
    }
    let ghost m = entries_of(es@);
    let mut i: usize = 0;
    while i < es.len()
        invariant
            i <= es@.len(),
            m == entries_of(es@),
            m.len() == es@.len(),
            forall|j: int| 0 <= j < es@.len() ==> #[trigger] m[j] == (es@[j].0@, json_of(es@[j].1)),
            forall|j: int| 0 <= j < i ==> #[trigger] m[j].0 != key@,
        decreases es.len() - i,
    {
        if es[i].0 == *key {
            proof {
                lemma_key_index_is(m, key@, i as int);
            }
            return Some(i);
        }
        i = i + 1;
    }
    None
}

} // verus!

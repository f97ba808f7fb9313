use vstd::prelude::*;
use crate::json::{
    entries_of, find_key, items_of, json_of, key_index, lemma_entries_of, lemma_entries_update,
    lemma_items_push, lemma_key_index, lemma_key_index_same_keys, lookup, Json, JsonValue,
};
use crate::version::SemVer;

verus! {

/// Loader releases from this one on declare their libraries correctly.
pub const FIXED_MAJOR: u64 = 0;
pub const FIXED_MINOR: u64 = 17;
pub const FIXED_PATCH: u64 = 7;

/// The coordinate prefix of the hashed-mappings library that older loader
/// descriptors declared beside the intermediary mappings.
pub open spec fn legacy_prefix() -> Seq<char> {
    "org.quiltmc:hashed"@
}

/// Whether `p` is a prefix of `s`.
pub open spec fn starts_with(s: Seq<char>, p: Seq<char>) -> bool {
    p.len() <= s.len() && s.subrange(0, p.len() as int) == p
}

/// A library entry whose `name` is a string under the legacy prefix.
pub open spec fn is_legacy(lib: Json) -> bool {
    match lib {
        Json::Object(es) => match lookup(es, "name"@) {
            Some(Json::Str(n)) => starts_with(n, legacy_prefix()),
            _ => false,
        },
        _ => false,
    }
}

/// The library entries that are not legacy, in their order.
pub open spec fn kept_libraries(s: Seq<Json>) -> Seq<Json>
    decreases s.len(),
{
    if s.len() == 0 {
        Seq::empty()
    } else if is_legacy(s.last()) {
        kept_libraries(s.drop_last())
    } else {
        kept_libraries(s.drop_last()).push(s.last())
    }
}

/// Whether the descriptor of loader `v` needs the legacy libraries dropped.
pub open spec fn needs_patch(v: SemVer) -> bool {
    v.below(FIXED_MAJOR, FIXED_MINOR, FIXED_PATCH)
}

/// The descriptor `d` as the loader `v` should see it: for loaders before the
/// fix, the `libraries` array of a descriptor object loses its legacy entries;
/// anything else is left as it is.
pub open spec fn patched(d: Json, v: SemVer) -> Json {
    if needs_patch(v) {
        match d {
            Json::Object(es) => match key_index(es, "libraries"@) {
                Some(i) => match es[i].1 {
                    Json::Array(ls) => Json::Object(
                        es.update(i, (es[i].0, Json::Array(kept_libraries(ls)))),
                    ),
                    _ => d,
                },
                None => d,
            },
            _ => d,
        }
    } else {
        d
    }
}

/// Dropping legacy entries a second time drops nothing more.
pub proof fn lemma_kept_libraries_idempotent(s: Seq<Json>)
    ensures
        kept_libraries(kept_libraries(s)) == kept_libraries(s),
    decreases s.len(),
{
    if s.len() > 0 {
        lemma_kept_libraries_idempotent(s.drop_last());
        let r = kept_libraries(s.drop_last());
        if !is_legacy(s.last()) {
            assert(r.push(s.last()).drop_last() =~= r);
        }
    }
}

/// Patching is idempotent: a patched descriptor is left as it is by a second
/// patch for the same loader version.
pub proof fn lemma_patch_idempotent(d: Json, v: SemVer)
    ensures
        patched(patched(d, v), v) == patched(d, v),
{
    if needs_patch(v) {
        if let Json::Object(es) = d {
            if let Some(i) = key_index(es, "libraries"@) {
                lemma_key_index(es, "libraries"@);
                if let Json::Array(ls) = es[i].1 {
                    let fs = es.update(i, (es[i].0, Json::Array(kept_libraries(ls))));
                    lemma_key_index_same_keys(es, fs, "libraries"@);
                    lemma_kept_libraries_idempotent(ls);
                    assert(fs.update(i, (fs[i].0, Json::Array(kept_libraries(kept_libraries(ls)))))
                        =~= fs);
                }
            }
        }
    }
}

/// Whether `p` is a prefix of `s`.
fn has_prefix(s: &String, p: &str) -> (r: bool)
    ensures
        r == starts_with(s@, p@),
{
    let n = s.unicode_len();
    let m = p.unicode_len();
    if m > n {
        return false;
    }
    let mut i: usize = 0;
    while i < m
        invariant
            m <= n,
            n == s@.len(),
            m == p@.len(),
            i <= m,
            s@.subrange(0, i as int) == p@.subrange(0, i as int),
        decreases m - i,
    {
        if s.as_str().get_char(i) != p.get_char(i) {
            assert(s@.subrange(0, m as int)[i as int] != p@[i as int]);
            return false;
        }
        i = i + 1;
        assert(s@.subrange(0, i as int) =~= s@.subrange(0, (i - 1) as int).push(s@[i - 1]));
        assert(p@.subrange(0, i as int) =~= p@.subrange(0, (i - 1) as int).push(p@[i - 1]));
    }
    assert(p@.subrange(0, m as int) =~= p@);
    true
}

/// Whether a library entry is one of the legacy hashed-mappings libraries.
pub fn is_legacy_library(lib: &JsonValue) -> (r: bool)
    ensures
        r == is_legacy(lib@),
{
    match lib {
        JsonValue::Object(es) => {
            let key = String::from_str("name");
            proof {
                lemma_entries_of(es@);
                lemma_key_index(entries_of(es@), "name"@);
            }
            match find_key(es, &key) {
                None => false,
                Some(i) => {
                    proof {
                        assert(entries_of(es@)[i as int].1 == json_of(es@[i as int].1));
                    }
                    match &es[i].1 {
                        JsonValue::Str(n) => {
                            proof {
                                assert(json_of(es@[i as int].1) == Json::Str(n@));
                            }
                            has_prefix(n, "org.quiltmc:hashed")
                        },
                        _ => false,
                    }
                },
            }
        },
        _ => false,
    }
}

/// The library entries of `libs` that are not legacy, in their order.
fn keep_libraries(libs: Vec<JsonValue>) -> (r: Vec<JsonValue>)
    ensures
        items_of(r@) == kept_libraries(items_of(libs@)),
{
    let ghost orig = libs@;
    let mut rest = libs;
    let mut out: Vec<JsonValue> = Vec::new();
    let mut k: usize = 0;
    let total = rest.len();
    while rest.len() > 0
        invariant
            k + rest@.len() == orig.len(),
            orig.len() == total,
            rest@ == orig.subrange(k as int, orig.len() as int),
            items_of(out@) == kept_libraries(items_of(orig.subrange(0, k as int))),
        decreases rest@.len(),
    {
        let x = rest.remove(0);
        proof {
            assert(orig.subrange(0, k + 1) =~= orig.subrange(0, k as int).push(x));
            lemma_items_push(orig.subrange(0, k as int), x);
            let pre = items_of(orig.subrange(0, k as int));
            assert(pre.push(json_of(x)).drop_last() =~= pre);
        }
        if !is_legacy_library(&x) {
            proof {
                lemma_items_push(out@, x);
            }
            out.push(x);
        }
        k = k + 1;
        assert(rest@ =~= orig.subrange(k as int, orig.len() as int));
    }
    assert(orig.subrange(0, k as int) =~= orig);
    out
}

/// Applies the compatibility quirks for loader `loader` to a launch
/// descriptor.
pub fn patch(descriptor: JsonValue, loader: &SemVer) -> (r: JsonValue)
    ensures
        r@ == patched(descriptor@, *loader),
{
    if !loader.is_below(FIXED_MAJOR, FIXED_MINOR, FIXED_PATCH) {
        return descriptor;
    }
    match descriptor {
        JsonValue::Object(es) => {
            let mut es = es;
            let key = String::from_str("libraries");
            proof {
                lemma_entries_of(es@);
                lemma_key_index(entries_of(es@), "libraries"@);
            }
            match find_key(&es, &key) {
                None => JsonValue::Object(es),
                Some(i) => {
                    let ghost old_es = es@;
                    let (k, val) = es.remove(i);
                    match val {
                        JsonValue::Array(ls) => {
                            let kept = keep_libraries(ls);
                            es.insert(i, (k, JsonValue::Array(kept)));
                            proof {
                                assert(es@ =~= old_es.update(i as int, es@[i as int]));
                                lemma_entries_update(old_es, i as int, es@[i as int]);
                                let m = entries_of(old_es);
                                assert(m[i as int] == (old_es[i as int].0@, json_of(old_es[i as int].1)));
                                assert(json_of(es@[i as int].1) == Json::Array(items_of(kept@)));
                            }
                            JsonValue::Object(es)
                        },
                        other => {
                            es.insert(i, (k, other));
                            proof {
                                assert(es@ =~= old_es);
                            }
                            JsonValue::Object(es)
                        },
                    }
                },
            }
        },
        other => other,
    }
}

} // verus!

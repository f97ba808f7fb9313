use vstd::prelude::*;
use crate::error::InstallError;
use crate::json::{
    entries_of, find_key, json_of, key_index, lemma_entries_of, lemma_entries_push,
    lemma_entries_update, lemma_key_index, lemma_key_index_is, lemma_key_index_same_keys, lookup,
    Json, JsonValue,
};
use crate::version::{LoaderVersion, MinecraftVersion};

verus! {

/// `quilt-loader-<loader>-<game>`: a directory name, a file stem and a key
/// of the launcher's profile map at once.
pub open spec fn profile_name_of(loader: Seq<char>, game: Seq<char>) -> Seq<char> {
    "quilt-loader-"@ + loader + seq!['-'] + game
}

/// The profile name for a loader and a game version.
pub fn profile_name(loader: &LoaderVersion, game: &MinecraftVersion) -> (r: String)
    ensures
        r@ == profile_name_of(loader.text(), game.version@),
{
    let mut r = String::from_str("quilt-loader-");
    let l = loader.to_text();
    r.append(l.as_str());
    r.push('-');
    r.append(game.version.as_str());
    r
}

/// The entries `es` with the value at key `k` set to `v`: the first entry
/// keyed `k` is replaced in place, or a new entry is appended.
pub open spec fn set_entry(es: Seq<(Seq<char>, Json)>, k: Seq<char>, v: Json) -> Seq<
    (Seq<char>, Json),
> {
    match key_index(es, k) {
        Some(i) => es.update(i, (k, v)),
        None => es.push((k, v)),
    }
}

/// The profile store `store` with its `profiles` entry `name` set to
/// `entry`; none where the store is not an object whose `profiles` is an
/// object.
pub open spec fn merged_store(store: Json, name: Seq<char>, entry: Json) -> Option<Json> {
    match store {
        Json::Object(top) => match key_index(top, "profiles"@) {
            Some(p) => match top[p].1 {
                Json::Object(ps) => Some(
                    Json::Object(top.update(p, (top[p].0, Json::Object(set_entry(ps, name, entry))))),
                ),
                _ => None,
            },
            None => None,
        },
        _ => None,
    }
}

/// No two entries share a key.
pub open spec fn keys_unique(es: Seq<(Seq<char>, Json)>) -> bool {
    forall|i: int, j: int| 0 <= i < j < es.len() ==> #[trigger] es[i].0 != #[trigger] es[j].0
}

/// The profile map of a store, where it has one.
pub open spec fn profiles_of(store: Json) -> Option<Seq<(Seq<char>, Json)>> {
    match store {
        Json::Object(top) => match lookup(top, "profiles"@) {
            Some(Json::Object(ps)) => Some(ps),
            _ => None,
        },
        _ => None,
    }
}

/// Setting a key leaves every other entry where and as it was, and the key
/// then maps to the new value.
pub proof fn lemma_set_entry(es: Seq<(Seq<char>, Json)>, k: Seq<char>, v: Json)
    ensures
        lookup(set_entry(es, k, v), k) == Some(v),
        set_entry(es, k, v).len() >= es.len(),
        forall|j: int| 0 <= j < es.len() && es[j].0 != k ==> set_entry(es, k, v)[j] == es[j],
        forall|j: int|
            0 <= j < set_entry(es, k, v).len() && set_entry(es, k, v)[j].0 != k ==> j < es.len()
                && set_entry(es, k, v)[j] == es[j],
        keys_unique(es) ==> keys_unique(set_entry(es, k, v)),
{
    lemma_key_index(es, k);
    let r = set_entry(es, k, v);
    match key_index(es, k) {
        Some(i) => {
            assert forall|j: int| 0 <= j < i implies #[trigger] r[j].0 != k by {
                assert(r[j] == es[j]);
            }
            lemma_key_index_is(r, k, i);
        },
        None => {
            assert forall|j: int| 0 <= j < es.len() implies #[trigger] r[j].0 != k by {
                assert(r[j] == es[j]);
            }
            lemma_key_index_is(r, k, es.len() as int);
        },
    }
}

/// Merging a profile entry changes the store at one place only: every other
/// top-level field and every other profile keeps its key, value and position,
/// and the profile map then maps `name` to `entry`.
pub proof fn lemma_merge_preserves(store: Json, name: Seq<char>, entry: Json)
    requires
        merged_store(store, name, entry) is Some,
    ensures
        ({
            let top = store->Object_0;
            let merged = merged_store(store, name, entry)->Some_0;
            let p = key_index(top, "profiles"@)->Some_0;
            let ps = top[p].1->Object_0;
            &&& merged is Object
            &&& merged->Object_0.len() == top.len()
            &&& forall|j: int|
                0 <= j < top.len() && j != p ==> #[trigger] merged->Object_0[j] == top[j]
            &&& merged->Object_0[p].0 == top[p].0
            &&& profiles_of(merged) is Some
            &&& lookup(profiles_of(merged)->Some_0, name) == Some(entry)
            &&& forall|j: int|
                0 <= j < ps.len() && ps[j].0 != name ==> #[trigger] profiles_of(merged)->Some_0[j]
                    == ps[j]
        }),
{
    let top = store->Object_0;
    let p = key_index(top, "profiles"@)->Some_0;
    let ps = top[p].1->Object_0;
    lemma_key_index(top, "profiles"@);
    let merged_top = top.update(p, (top[p].0, Json::Object(set_entry(ps, name, entry))));
    lemma_key_index_same_keys(top, merged_top, "profiles"@);
    lemma_set_entry(ps, name, entry);
}

/// Merging the same profile name twice leaves what merging once leaves: the
/// second entry replaces the first, so reinstalling never duplicates a
/// profile, and a store whose profile keys are unique keeps them unique.
pub proof fn lemma_merge_twice(store: Json, name: Seq<char>, first: Json, second: Json)
    requires
        merged_store(store, name, first) is Some,
    ensures
        merged_store(merged_store(store, name, first)->Some_0, name, second) == merged_store(
            store,
            name,
            second,
        ),
        profiles_of(store) is Some && keys_unique(profiles_of(store)->Some_0) ==> keys_unique(
            profiles_of(merged_store(store, name, second)->Some_0)->Some_0,
        ),
{
    let top = store->Object_0;
    let p = key_index(top, "profiles"@)->Some_0;
    let ps = top[p].1->Object_0;
    lemma_key_index(top, "profiles"@);
    let once = set_entry(ps, name, first);
    let top1 = top.update(p, (top[p].0, Json::Object(once)));
    lemma_key_index_same_keys(top, top1, "profiles"@);
    lemma_set_entry(ps, name, first);
    lemma_set_entry(ps, name, second);
    lemma_key_index(ps, name);
    lemma_key_index(once, name);
    match key_index(ps, name) {
        Some(i) => {
            assert(set_entry(once, name, second) =~= set_entry(ps, name, second));
        },
        None => {
            assert(key_index(once, name) == Some(ps.len() as int));
            assert(set_entry(once, name, second) =~= set_entry(ps, name, second));
        },
    }
    let top2 = top.update(p, (top[p].0, Json::Object(set_entry(ps, name, second))));
    assert(top1.update(p, (top1[p].0, Json::Object(set_entry(once, name, second)))) =~= top2);
    lemma_key_index_same_keys(top, top2, "profiles"@);
}

/// Sets the entry `name` of a profile map to `entry`.
fn set_profile(ps: &mut Vec<(String, JsonValue)>, name: String, entry: JsonValue)
    ensures
        entries_of(final(ps)@) == set_entry(entries_of(old(ps)@), name@, entry@),
{
    proof {
        lemma_entries_of(ps@);
        lemma_key_index(entries_of(ps@), name@);
    }
    match find_key(ps, &name) {
        Some(i) => {
            let ghost before = ps@;
            let _ = ps.remove(i);
            ps.insert(i, (name, entry));
            proof {
                assert(ps@ =~= before.update(i as int, ps@[i as int]));
                lemma_entries_update(before, i as int, ps@[i as int]);
            }
        },
        None => {
            let ghost before = ps@;
            ps.push((name, entry));
            proof {
                lemma_entries_push(before, ps@.last());
                assert(before.push(ps@.last()) =~= ps@);
            }
        },
    }
}

/// The launcher's profile store: a document whose `profiles` object maps
/// profile names to entries, beside any other fields, all of which are kept
/// as they are.
#[derive(Debug)]
pub struct LauncherProfiles {
    fields: Vec<(String, JsonValue)>,
}

impl LauncherProfiles {
    /// The store as a document.
    pub closed spec fn view(&self) -> Json {
        Json::Object(entries_of(self.fields@))
    }

    /// The store has a `profiles` object.
    pub closed spec fn wf(&self) -> bool {
        profiles_of(self.view()) is Some
    }

    /// Reads a store from its document; one without a `profiles` object is
    /// refused, since rebuilding it would lose the launcher's own data.
    pub fn decode(document: JsonValue) -> (r: Result<LauncherProfiles, InstallError>)
        ensures
            profiles_of(document@) is Some ==> r is Ok && r->Ok_0.wf() && r->Ok_0.view()
                == document@,
            profiles_of(document@) is None ==> r is Err && r->Err_0 is MalformedStore,
    {
        match document {
            JsonValue::Object(fields) => {
                let key = String::from_str("profiles");
                proof {
                    lemma_entries_of(fields@);
                    lemma_key_index(entries_of(fields@), "profiles"@);
                }
                match find_key(&fields, &key) {
                    None => Err(InstallError::MalformedStore(key)),
                    Some(p) => {
                        proof {
                            assert(entries_of(fields@)[p as int].1 == json_of(fields@[p as int].1));
                        }
                        if let JsonValue::Object(_) = &fields[p].1 {
                            Ok(LauncherProfiles { fields })
                        } else {
                            Err(InstallError::MalformedStore(key))
                        }
                    },
                }
            },
            _ => Err(InstallError::MalformedStore(String::from_str("profiles"))),
        }
    }

    /// Inserts or replaces the profile `name`; the store changes at that one
    /// key and nowhere else.
    pub fn insert(&mut self, name: String, entry: JsonValue)
        requires
            old(self).wf(),
        ensures
            final(self).wf(),
            Some(final(self).view()) == merged_store(old(self).view(), name@, entry@),
    {
        let ghost before = self.fields@;
        let key = String::from_str("profiles");
        proof {
            lemma_entries_of(before);
            lemma_key_index(entries_of(before), "profiles"@);
        }
        match find_key(&self.fields, &key) {
            None => {},
            Some(p) => {
                let (k, val) = self.fields.remove(p);
                proof {
                    assert(entries_of(before)[p as int] == (k@, json_of(val)));
                }
                match val {
                    JsonValue::Object(ps) => {
                        let mut ps = ps;
                        set_profile(&mut ps, name, entry);
                        self.fields.insert(p, (k, JsonValue::Object(ps)));
                        proof {
                            assert(self.fields@ =~= before.update(p as int, self.fields@[p as int]));
                            lemma_entries_update(before, p as int, self.fields@[p as int]);
                            lemma_merge_preserves(
                                Json::Object(entries_of(before)),
                                name@,
                                entry@,
                            );
                        }
                    },
                    other => {
                        self.fields.insert(p, (k, other));
                    },
                }
            },
        }
    }

    /// The store as a document.
    pub fn into_document(self) -> (r: JsonValue)
        ensures
            r@ == self.view(),
    {
        JsonValue::Object(self.fields)
    }
}

/// A store has a `profiles` object exactly when a profile can be merged
/// into it.
pub proof fn lemma_profiles_merge(store: Json, name: Seq<char>, entry: Json)
    ensures
        profiles_of(store) is Some <==> merged_store(store, name, entry) is Some,
{
}

/// Inserts or replaces the profile `name` of a launcher profile store. The
/// store is changed at that one key and nowhere else; a store that is not an
/// object with a `profiles` object is refused, since rebuilding it would lose
/// the launcher's own data.
pub fn merge_profile(store: JsonValue, name: String, entry: JsonValue) -> (r: Result<
    JsonValue,
    InstallError,
>)
    ensures
        match merged_store(store@, name@, entry@) {
            Some(m) => r is Ok && r->Ok_0@ == m,
            None => r is Err && r->Err_0 is MalformedStore,
        },
{
    proof {
        lemma_profiles_merge(store@, name@, entry@);
    }
    match LauncherProfiles::decode(store) {
        Err(e) => Err(e),
        Ok(profiles) => {
            let mut profiles = profiles;
            profiles.insert(name, entry);
            Ok(profiles.into_document())
        },
    }
}

/// The text that base64's standard engine (padded, standard alphabet)
/// writes for the bytes.
pub uninterp spec fn base64_of(bytes: Seq<u8>) -> Seq<char>;

/// Relies on `base64::engine::general_purpose::STANDARD.encode`: the padded
/// standard-alphabet text of the bytes.
#[verifier::external_body]
fn encode_base64(bytes: &[u8]) -> (r: String)
    ensures
        r@ == base64_of(bytes@),
{
    base64::Engine::encode(&base64::engine::general_purpose::STANDARD, bytes)
}

/// Relies on `chrono::Utc::now`, written by `to_rfc3339_opts` with automatic
/// second fractions and a `Z` suffix, which is how the launcher's store
/// writes its timestamps. Nothing is known of the time it reads.
#[verifier::external_body]
pub(crate) fn current_timestamp() -> (r: String) {
    chrono::Utc::now().to_rfc3339_opts(chrono::SecondsFormat::AutoSi, true)
}

/// A PNG image as a data URI.
pub open spec fn icon_uri_of(png: Seq<u8>) -> Seq<char> {
    "data:image/png;base64,"@ + base64_of(png)
}

/// The icon of a profile: the PNG bytes as a base64 data URI.
pub fn icon_data_uri(png: &[u8]) -> (r: String)
    ensures
        r@ == icon_uri_of(png@),
{
    let mut r = String::from_str("data:image/png;base64,");
    let encoded = encode_base64(png);
    r.append(encoded.as_str());
    r
}

/// The display name of the profile for a game version.
pub open spec fn profile_title_of(game: Seq<char>) -> Seq<char> {
    "Quilt Loader "@ + game
}

/// A launcher profile entry.
#[derive(Debug, Clone)]
pub struct Profile {
    pub name: String,
    pub profile_type: String,
    /// RFC 3339 timestamp of creation.
    pub created: String,
    pub last_version_id: String,
    /// PNG icon as a data URI.
    pub icon: String,
}

impl Profile {
    /// The entry as the store holds it, fields in this order.
    pub open spec fn json(&self) -> Json {
        Json::Object(
            seq![
                ("name"@, Json::Str(self.name@)),
                ("type"@, Json::Str(self.profile_type@)),
                ("created"@, Json::Str(self.created@)),
                ("lastVersionId"@, Json::Str(self.last_version_id@)),
                ("icon"@, Json::Str(self.icon@)),
            ],
        )
    }

    /// The entry for `profile_name` on a game version, created at `created`
    /// and showing `icon`, a data URI.
    pub fn new(game: &MinecraftVersion, profile_name: String, created: String, icon: String) -> (r:
        Profile)
        ensures
            r.name@ == profile_title_of(game.version@),
            r.profile_type@ == "custom"@,
            r.created@ == created@,
            r.last_version_id@ == profile_name@,
            r.icon@ == icon@,
    {
        let mut name = String::from_str("Quilt Loader ");
        name.append(game.version.as_str());
        Profile {
            name,
            profile_type: String::from_str("custom"),
            created,
            last_version_id: profile_name,
            icon,
        }
    }

    /// The entry for `profile_name` on a game version, created now and
    /// showing the PNG `icon_png`.
    pub fn create(game: &MinecraftVersion, profile_name: String, icon_png: &[u8]) -> (r: Profile)
        ensures
            r.name@ == profile_title_of(game.version@),
            r.profile_type@ == "custom"@,
            r.last_version_id@ == profile_name@,
            r.icon@ == icon_uri_of(icon_png@),
    {
        let now = current_timestamp();
        Profile::new(game, profile_name, now, icon_data_uri(icon_png))
    }

    /// The entry as a JSON object.
    pub fn to_json(self) -> (r: JsonValue)
        ensures
            r@ == self.json(),
    {
        let ghost me = self;
        let mut es: Vec<(String, JsonValue)> = Vec::new();
        es.push((String::from_str("name"), JsonValue::Str(self.name)));
        es.push((String::from_str("type"), JsonValue::Str(self.profile_type)));
        es.push((String::from_str("created"), JsonValue::Str(self.created)));
        es.push((String::from_str("lastVersionId"), JsonValue::Str(self.last_version_id)));
        es.push((String::from_str("icon"), JsonValue::Str(self.icon)));
        proof {
            lemma_entries_of(es@);
            assert(entries_of(es@) =~= me.json()->Object_0);
        }
        JsonValue::Object(es)
    }
}

} // verus!

use vstd::prelude::*;
use vstd::utf8::encode_utf8;
use crate::error::InstallError;
use crate::json::{
    entries_of, find_key, items_of, json_of, key_index, lemma_entries_of, lemma_items_of,
    lemma_key_index, lookup, Json, JsonValue,
};
use crate::manifest::{crlf, push_wrapped, wrap_header};
use crate::maven::{resolve_coordinate, resolved, ResolvedArtifact};

verus! {

/// Why a server launch descriptor cannot be installed.
pub enum PlanError {
    /// A field the installer reads is absent or not a string (or array).
    MissingField(Seq<char>),
    /// A library's coordinate lacks its separators.
    BadCoordinate(Seq<char>),
}

/// The string value of the first entry keyed `k`, if it is a string.
pub open spec fn str_field(es: Seq<(Seq<char>, Json)>, k: Seq<char>) -> Option<Seq<char>> {
    match lookup(es, k) {
        Some(Json::Str(s)) => Some(s),
        _ => None,
    }
}

/// The download URL and relative path of one library entry
/// `{name: coordinate, url: repository}`.
pub open spec fn library_plan(l: Json) -> Result<(Seq<char>, Seq<char>), PlanError> {
    match l {
        Json::Object(es) => match str_field(es, "name"@) {
            None => Err(PlanError::MissingField("name"@)),
            Some(n) => match str_field(es, "url"@) {
                None => Err(PlanError::MissingField("url"@)),
                Some(u) => match resolved(n, u) {
                    None => Err(PlanError::BadCoordinate(n)),
                    Some(r) => Ok(r),
                },
            },
        },
        _ => Err(PlanError::MissingField("name"@)),
    }
}

/// The plans of all library entries in order, or the first failure.
pub open spec fn libraries_plan(ls: Seq<Json>) -> Result<Seq<(Seq<char>, Seq<char>)>, PlanError>
    decreases ls.len(),
{
    if ls.len() == 0 {
        Ok(Seq::empty())
    } else {
        match libraries_plan(ls.drop_last()) {
            Err(e) => Err(e),
            Ok(ps) => match library_plan(ls.last()) {
                Err(e) => Err(e),
                Ok(p) => Ok(ps.push(p)),
            },
        }
    }
}

/// The first failing library decides the failure of the whole list.
proof fn lemma_plan_failure_stays(s: Seq<Json>, k: int)
    requires
        0 <= k <= s.len(),
        libraries_plan(s.take(k)) is Err,
    ensures
        libraries_plan(s) == libraries_plan(s.take(k)),
    decreases s.len(),
{
    if k == s.len() {
        assert(s.take(k) =~= s);
    } else {
        assert(s.drop_last().take(k) =~= s.take(k));
        lemma_plan_failure_stays(s.drop_last(), k);
    }
}

/// The main class and library plans of a server launch descriptor.
pub open spec fn server_plan_of(d: Json) -> Result<
    (Seq<char>, Seq<(Seq<char>, Seq<char>)>),
    PlanError,
> {
    match d {
        Json::Object(es) => match str_field(es, "launcherMainClass"@) {
            None => Err(PlanError::MissingField("launcherMainClass"@)),
            Some(m) => match lookup(es, "libraries"@) {
                Some(Json::Array(ls)) => match libraries_plan(ls) {
                    Err(e) => Err(e),
                    Ok(ps) => Ok((m, ps)),
                },
                _ => Err(PlanError::MissingField("libraries"@)),
            },
        },
        _ => Err(PlanError::MissingField("launcherMainClass"@)),
    }
}

/// Where a library lies relative to the launch jar's directory.
pub open spec fn class_path_entry(relative: Seq<char>) -> Seq<char> {
    "libraries/"@ + relative
}

/// The class path of the launch jar: each library's location relative to
/// the jar, separated by single spaces.
pub open spec fn class_path_of(ps: Seq<(Seq<char>, Seq<char>)>) -> Seq<char>
    decreases ps.len(),
{
    if ps.len() == 0 {
        Seq::empty()
    } else if ps.len() == 1 {
        class_path_entry(ps[0].1)
    } else {
        class_path_of(ps.drop_last()) + seq![' '] + class_path_entry(ps.last().1)
    }
}

/// The launch jar's manifest: version, main class and class path headers,
/// each wrapped to the manifest format, then the blank line that ends the
/// main section.
pub open spec fn manifest_of(main_class: Seq<char>, class_path: Seq<char>) -> Seq<u8> {
    wrap_header(encode_utf8("Manifest-Version: 1.0"@)) + wrap_header(
        encode_utf8("Main-Class: "@ + main_class),
    ) + wrap_header(encode_utf8("Class-Path: "@ + class_path)) + crlf()
}

/// The name of the launch jar in the install directory.
pub const LAUNCH_JAR: &'static str = "quilt-server-launch.jar";

/// The name of the one entry of the launch jar.
pub const MANIFEST_ENTRY: &'static str = "META-INF/MANIFEST.MF";

/// The directory, under the install directory, that holds the libraries.
pub const LIBRARIES_DIR: &'static str = "libraries";

/// Appends the header `line` in the manifest format.
fn push_header(out: &mut Vec<u8>, line: &String)
    ensures
        final(out)@ == old(out)@ + wrap_header(encode_utf8(line@)),
{
    push_wrapped(out, line.as_str().as_bytes());
}

/// The manifest of a launch jar with the given main class and class path.
pub fn build_manifest(main_class: &str, class_path: &str) -> (r: Vec<u8>)
    ensures
        r@ == manifest_of(main_class@, class_path@),
{
    let mut out: Vec<u8> = Vec::new();
    let version = String::from_str("Manifest-Version: 1.0");
    push_header(&mut out, &version);
    let mut main = String::from_str("Main-Class: ");
    main.append(main_class);
    push_header(&mut out, &main);
    let mut cp = String::from_str("Class-Path: ");
    cp.append(class_path);
    push_header(&mut out, &cp);
    out.push(13u8);
    out.push(10u8);
    assert(out@ =~= manifest_of(main_class@, class_path@));
    out
}

/// The string value of the entry keyed `key`, if it is a string.
fn string_field(es: &Vec<(String, JsonValue)>, key: &str) -> (r: Option<String>)
    ensures
        match str_field(entries_of(es@), key@) {
            Some(s) => r is Some && r->0@ == s,
            None => r is None,
        },
{
    let k = String::from_str(key);
    proof {
        lemma_entries_of(es@);
        lemma_key_index(entries_of(es@), key@);
    }
    match find_key(es, &k) {
        None => None,
        Some(i) => match &es[i].1 {
            JsonValue::Str(s) => Some(s.clone()),
            _ => None,
        },
    }
}

/// Resolves one library entry of a server descriptor.
pub fn plan_library(lib: &JsonValue) -> (r: Result<ResolvedArtifact, InstallError>)
    ensures
        match library_plan(lib@) {
            Ok((u, p)) => r is Ok && r->Ok_0.download_url@ == u && r->Ok_0.relative_path@ == p,
            Err(PlanError::MissingField(f)) => r is Err && r->Err_0 is MalformedDescriptor
                && r->Err_0->MalformedDescriptor_0@ == f,
            Err(PlanError::BadCoordinate(c)) => r is Err && r->Err_0 is MalformedCoordinate
                && r->Err_0->MalformedCoordinate_0@ == c,
        },
{
    match lib {
        JsonValue::Object(es) => match string_field(es, "name") {
            None => Err(InstallError::MalformedDescriptor(String::from_str("name"))),
            Some(name) => match string_field(es, "url") {
                None => Err(InstallError::MalformedDescriptor(String::from_str("url"))),
                Some(url) => resolve_coordinate(name.as_str(), url.as_str()),
            },
        },
        _ => Err(InstallError::MalformedDescriptor(String::from_str("name"))),
    }
}

/// What a server install writes: the libraries to fetch, the launch jar's
/// class path and its manifest.
#[derive(Debug)]
pub struct ServerPlan {
    pub main_class: String,
    /// Each library's download URL and path under the libraries directory.
    pub libraries: Vec<ResolvedArtifact>,
    pub class_path: String,
    /// Content of the launch jar's manifest entry.
    pub manifest: Vec<u8>,
}

/// The plans of `libs`, with the class path they make.
fn plan_libraries(libs: &Vec<JsonValue>) -> (r: Result<(Vec<ResolvedArtifact>, String), InstallError>)
    ensures
        match libraries_plan(items_of(libs@)) {
            Ok(ps) => r is Ok && r->Ok_0.0@.len() == ps.len() && (forall|i: int|
                0 <= i < ps.len() ==> (#[trigger] r->Ok_0.0@[i]).download_url@ == ps[i].0
                    && r->Ok_0.0@[i].relative_path@ == ps[i].1) && r->Ok_0.1@ == class_path_of(ps),
            Err(PlanError::MissingField(f)) => r is Err && r->Err_0 is MalformedDescriptor
                && r->Err_0->MalformedDescriptor_0@ == f,
            Err(PlanError::BadCoordinate(c)) => r is Err && r->Err_0 is MalformedCoordinate
                && r->Err_0->MalformedCoordinate_0@ == c,
        },
{
    proof {
        lemma_items_of(libs@);
    }
    let ghost all = items_of(libs@);
    let mut out: Vec<ResolvedArtifact> = Vec::new();
    let mut cp = String::new();
    let mut i: usize = 0;
    while i < libs.len()
        invariant
            i <= libs@.len(),
            all == items_of(libs@),
            all.len() == libs@.len(),
            forall|j: int| 0 <= j < libs@.len() ==> #[trigger] all[j] == json_of(libs@[j]),
            libraries_plan(all.take(i as int)) is Ok,
            ({
                let ps = libraries_plan(all.take(i as int))->Ok_0;
                &&& out@.len() == ps.len()
                &&& forall|j: int|
                    0 <= j < ps.len() ==> (#[trigger] out@[j]).download_url@ == ps[j].0
                        && out@[j].relative_path@ == ps[j].1
                &&& cp@ == class_path_of(ps)
            }),
        decreases libs.len() - i,
    {
        let ghost ps = libraries_plan(all.take(i as int))->Ok_0;
        assert(all.take(i + 1).drop_last() =~= all.take(i as int));
        assert(all.take(i + 1).last() == json_of(libs@[i as int]));
        match plan_library(&libs[i]) {
            Err(e) => {
                proof {
                    lemma_plan_failure_stays(all, i + 1);
                }
                return Err(e);
            },
            Ok(a) => {
                let ghost p = (a.download_url@, a.relative_path@);
                let ghost out_before = out@;
                if i > 0 {
                    cp.push(' ');
                }
                cp.append("libraries/");
                cp.append(a.relative_path.as_str());
                out.push(a);
                proof {
                    let qs = ps.push(p);
                    assert(libraries_plan(all.take(i + 1)) == Ok::<_, PlanError>(qs));
                    assert(qs.drop_last() =~= ps);
                    if i == 0 {
                        assert(ps.len() == 0);
                        assert(cp@ =~= class_path_of(qs));
                    } else {
                        assert(cp@ =~= class_path_of(qs));
                    }
                    assert forall|j: int| 0 <= j < qs.len() implies (#[trigger] out@[j]).download_url@
                        == qs[j].0 && out@[j].relative_path@ == qs[j].1 by {
                        if j < ps.len() {
                            assert(out@[j] == out_before[j]);
                        }
                    }
                }
                i = i + 1;
            },
        }
    }
    assert(all.take(i as int) =~= all);
    Ok((out, cp))
}

/// Plans a server install from its launch descriptor: the main class, every
/// library's download and the launch jar's manifest. A descriptor that lacks
/// a field, or a library whose coordinate cannot be resolved, is refused
/// before anything is written.
pub fn plan_server(descriptor: &JsonValue) -> (r: Result<ServerPlan, InstallError>)
    ensures
        match server_plan_of(descriptor@) {
            Ok((m, ps)) => r is Ok && r->Ok_0.main_class@ == m && r->Ok_0.libraries@.len()
                == ps.len() && (forall|i: int|
                0 <= i < ps.len() ==> (#[trigger] r->Ok_0.libraries@[i]).download_url@ == ps[i].0
                    && r->Ok_0.libraries@[i].relative_path@ == ps[i].1) && r->Ok_0.class_path@
                == class_path_of(ps) && r->Ok_0.manifest@ == manifest_of(m, class_path_of(ps)),
            Err(PlanError::MissingField(f)) => r is Err && r->Err_0 is MalformedDescriptor
                && r->Err_0->MalformedDescriptor_0@ == f,
            Err(PlanError::BadCoordinate(c)) => r is Err && r->Err_0 is MalformedCoordinate
                && r->Err_0->MalformedCoordinate_0@ == c,
        },
{
    match descriptor {
        JsonValue::Object(es) => match string_field(es, "launcherMainClass") {
            None => Err(InstallError::MalformedDescriptor(String::from_str("launcherMainClass"))),
            Some(main_class) => {
                let key = String::from_str("libraries");
                proof {
                    lemma_entries_of(es@);
                    lemma_key_index(entries_of(es@), "libraries"@);
                }
                match find_key(es, &key) {
                    None => Err(InstallError::MalformedDescriptor(key)),
                    Some(i) => match &es[i].1 {
                        JsonValue::Array(libs) => match plan_libraries(libs) {
                            Err(e) => Err(e),
                            Ok((libraries, class_path)) => {
                                let manifest = build_manifest(
                                    main_class.as_str(),
                                    class_path.as_str(),
                                );
                                Ok(ServerPlan { main_class, libraries, class_path, manifest })
                            },
                        },
                        _ => Err(InstallError::MalformedDescriptor(key)),
                    },
                }
            },
        },
        _ => Err(InstallError::MalformedDescriptor(String::from_str("launcherMainClass"))),
    }
}

} // verus!

use quilt_installer::catalog::{get_versions, select_loader_version, select_minecraft_version};
use quilt_installer::cli::{LoaderVersionCLI, MCVersionCLI, Subcommands};
use quilt_installer::compat::{is_legacy_library, patch};
use quilt_installer::error::InstallError;
use quilt_installer::installer::{request_for, ClientInstallation, InstallationRequest, ServerInstallation};
use quilt_installer::json::JsonValue;
use quilt_installer::manifest::push_wrapped;
use quilt_installer::maven::resolve_coordinate;
use quilt_installer::profiles::{icon_data_uri, merge_profile, profile_name, LauncherProfiles, Profile};
use quilt_installer::server::{build_manifest, plan_server};
use quilt_installer::version::{push_decimal, LoaderVersion, MinecraftVersion, SemVer};

fn s(t: &str) -> String {
    t.to_string()
}

fn text(t: &str) -> JsonValue {
    JsonValue::Str(s(t))
}

fn object(entries: Vec<(&str, JsonValue)>) -> JsonValue {
    JsonValue::Object(entries.into_iter().map(|(k, v)| (s(k), v)).collect())
}

fn game(v: &str, stable: bool) -> MinecraftVersion {
    MinecraftVersion { version: s(v), stable }
}

fn loader(v: &str) -> LoaderVersion {
    LoaderVersion::from_parts('+', 1, s("org.quiltmc:quilt-loader:") + v, v).unwrap()
}

fn library(name: &str, url: &str) -> JsonValue {
    object(vec![("name", text(name)), ("url", text(url))])
}

fn descriptor() -> JsonValue {
    object(vec![
        ("id", text("quilt-loader")),
        (
            "libraries",
            JsonValue::Array(vec![
                library("org.quiltmc:hashed:1.19.2", "https://maven.quiltmc.org/repository/release/"),
                library("net.fabricmc:intermediary:1.19.2", "https://maven.fabricmc.net/"),
                library("org.quiltmc:quilt-loader:0.17.0", "https://maven.quiltmc.org/repository/release/"),
            ]),
        ),
        ("launcherMainClass", text("org.quiltmc.loader.impl.launch.knot.KnotClient")),
    ])
}

fn library_names(d: &JsonValue) -> Vec<String> {
    let JsonValue::Object(es) = d else { panic!("not an object") };
    let (_, libs) = es.iter().find(|(k, _)| k == "libraries").unwrap();
    let JsonValue::Array(ls) = libs else { panic!("not an array") };
    ls.iter()
        .map(|l| {
            let JsonValue::Object(f) = l else { panic!("not an object") };
            match &f[0].1 {
                JsonValue::Str(n) => n.clone(),
                _ => panic!("no name"),
            }
        })
        .collect()
}

#[test]
fn resolve_coordinate_maps_group_to_path() {
    let r = resolve_coordinate("a.b:c:1.0", "https://repo/").unwrap();
    assert_eq!(r.relative_path, "a/b/c/1.0/c-1.0.jar");
    assert_eq!(r.download_url, "https://repo/a/b/c/1.0/c-1.0.jar");
}

#[test]
fn resolve_coordinate_adds_missing_slash() {
    let r = resolve_coordinate("org.quiltmc:quilt-loader:0.19.0", "https://maven.quiltmc.org").unwrap();
    assert_eq!(r.relative_path, "org/quiltmc/quilt-loader/0.19.0/quilt-loader-0.19.0.jar");
    assert_eq!(
        r.download_url,
        "https://maven.quiltmc.org/org/quiltmc/quilt-loader/0.19.0/quilt-loader-0.19.0.jar"
    );
}

#[test]
fn resolve_coordinate_keeps_text_after_second_colon() {
    let r = resolve_coordinate("g:a:1.0:natives", "https://r/").unwrap();
    assert_eq!(r.relative_path, "g/a/1.0:natives/a-1.0:natives.jar");
}

#[test]
fn resolve_coordinate_refuses_missing_colons() {
    assert_eq!(
        resolve_coordinate("a.b:c", "https://repo/"),
        Err(InstallError::MalformedCoordinate(s("a.b:c")))
    );
    assert_eq!(
        resolve_coordinate("abc", "https://repo/"),
        Err(InstallError::MalformedCoordinate(s("abc")))
    );
}

#[test]
fn select_stable_game_version() {
    let catalog = vec![game("1.20.1", true), game("1.20.2-rc1", false)];
    let catalog = vec![catalog[1].clone(), catalog[0].clone()];
    let r = select_minecraft_version(&catalog, &MCVersionCLI::Stable).unwrap();
    assert_eq!(r.version, "1.20.1");
    let catalog = vec![game("1.20.1", true), game("1.20.2-rc1", false)];
    let r = select_minecraft_version(&catalog, &MCVersionCLI::Stable).unwrap();
    assert_eq!(r.version, "1.20.1");
}

#[test]
fn select_snapshot_and_custom_game_version() {
    let catalog = vec![game("1.20.1", true), game("1.20.2-rc1", false)];
    let r = select_minecraft_version(&catalog, &MCVersionCLI::Snapshot).unwrap();
    assert_eq!(r.version, "1.20.2-rc1");
    let r = select_minecraft_version(&catalog, &MCVersionCLI::Custom(s("1.20.1"))).unwrap();
    assert_eq!(r.version, "1.20.1");
    assert_eq!(
        select_minecraft_version(&catalog, &MCVersionCLI::Custom(s("1.7.10"))).unwrap_err(),
        InstallError::VersionNotFound(s("1.7.10"))
    );
}

#[test]
fn select_stable_twice_gives_same_version() {
    let catalog = vec![game("23w31a", false), game("1.20.1", true), game("1.20", true)];
    let a = select_minecraft_version(&catalog, &MCVersionCLI::Stable).unwrap();
    let b = select_minecraft_version(&catalog, &MCVersionCLI::Stable).unwrap();
    assert_eq!(a.version, b.version);
    assert_eq!(a.version, "1.20.1");
}

#[test]
fn select_beta_loader_version() {
    let catalog = vec![loader("0.20.0-beta.5"), loader("0.19.2")];
    let r = select_loader_version(&catalog, &LoaderVersionCLI::Beta).unwrap();
    assert_eq!(r.to_text(), "0.20.0-beta.5");
    let r = select_loader_version(&catalog, &LoaderVersionCLI::Stable).unwrap();
    assert_eq!(r.to_text(), "0.19.2");
    let r = select_loader_version(&catalog, &LoaderVersionCLI::Custom(s("0.19.2"))).unwrap();
    assert_eq!(r.version.patch, 2);
}

#[test]
fn select_missing_loader_names_choice() {
    let catalog = vec![loader("0.19.2")];
    assert_eq!(
        select_loader_version(&catalog, &LoaderVersionCLI::Beta).unwrap_err(),
        InstallError::VersionNotFound(s("beta"))
    );
    assert_eq!(
        select_loader_version(&catalog, &LoaderVersionCLI::Custom(s("9.9.9"))).unwrap_err(),
        InstallError::VersionNotFound(s("9.9.9"))
    );
}

#[test]
fn get_versions_reports_game_failure_first() {
    let games = vec![game("1.20.1", true)];
    let loaders = vec![loader("0.19.2")];
    let r = get_versions(&games, &loaders, &MCVersionCLI::Snapshot, &LoaderVersionCLI::Beta);
    assert_eq!(r.unwrap_err(), InstallError::VersionNotFound(s("snapshot")));
    let (g, l) = get_versions(&games, &loaders, &MCVersionCLI::Stable, &LoaderVersionCLI::Stable).unwrap();
    assert_eq!(g.version, "1.20.1");
    assert_eq!(l.to_text(), "0.19.2");
}

#[test]
fn choices_read_words_in_any_case() {
    assert_eq!(MCVersionCLI::from(s("STABLE")), MCVersionCLI::Stable);
    assert_eq!(MCVersionCLI::from(s("Snapshot")), MCVersionCLI::Snapshot);
    assert_eq!(MCVersionCLI::from(s("1.20.1")), MCVersionCLI::Custom(s("1.20.1")));
    assert_eq!(LoaderVersionCLI::from(s("Beta")), LoaderVersionCLI::Beta);
    assert_eq!(LoaderVersionCLI::from(s("stable")), LoaderVersionCLI::Stable);
    assert_eq!(LoaderVersionCLI::from(s("0.19.2-RC")), LoaderVersionCLI::Custom(s("0.19.2-RC")));
    assert_eq!(MCVersionCLI::default(), MCVersionCLI::Stable);
}

#[test]
fn semver_parses_and_prints() {
    let v = SemVer::parse("1.20.3-beta.2+build.7").unwrap();
    assert_eq!((v.major, v.minor, v.patch), (1, 20, 3));
    assert_eq!(v.pre, "beta.2");
    assert_eq!(v.build, "build.7");
    assert_eq!(v.to_text(), "1.20.3-beta.2+build.7");
    assert!(v.is_prerelease());
    assert_eq!(SemVer::parse("1.x"), Err(InstallError::InvalidVersion(s("1.x"))));
    let mut out = String::new();
    push_decimal(&mut out, 18446744073709551615);
    assert_eq!(out, "18446744073709551615");
}

#[test]
fn semver_below_release() {
    let v = SemVer::parse("0.17.7-beta.1").unwrap();
    assert!(v.is_below(0, 17, 7));
    assert!(SemVer::parse("0.17.6").unwrap().is_below(0, 17, 7));
    assert!(!SemVer::parse("0.17.7").unwrap().is_below(0, 17, 7));
    assert!(!SemVer::parse("0.17.7+build").unwrap().is_below(0, 17, 7));
    assert!(!SemVer::parse("1.0.0").unwrap().is_below(0, 17, 7));
}

#[test]
fn patch_drops_hashed_for_old_loaders() {
    let v = SemVer::parse("0.17.6").unwrap();
    let d = patch(descriptor(), &v);
    assert_eq!(
        library_names(&d),
        vec![s("net.fabricmc:intermediary:1.19.2"), s("org.quiltmc:quilt-loader:0.17.0")]
    );
}

#[test]
fn patch_leaves_new_loaders_alone() {
    let v = SemVer::parse("0.17.7").unwrap();
    assert_eq!(patch(descriptor(), &v), descriptor());
    let v = SemVer::parse("0.19.0-beta.3").unwrap();
    assert_eq!(patch(descriptor(), &v), descriptor());
}

#[test]
fn patch_is_idempotent() {
    for version in ["0.17.6", "0.17.7-beta.1", "0.17.7", "0.18.1"] {
        let v = SemVer::parse(version).unwrap();
        let once = patch(descriptor(), &v);
        let twice = patch(patch(descriptor(), &v), &v);
        assert_eq!(once, twice);
    }
}

#[test]
fn patch_keeps_other_shapes() {
    let v = SemVer::parse("0.16.0").unwrap();
    assert_eq!(patch(JsonValue::Null, &v), JsonValue::Null);
    let d = object(vec![("libraries", text("none"))]);
    assert_eq!(patch(d, &v), object(vec![("libraries", text("none"))]));
    assert!(is_legacy_library(&library("org.quiltmc:hashed:1.19", "u")));
    assert!(!is_legacy_library(&library("org.quiltmc:hash:1.19", "u")));
}

fn store() -> JsonValue {
    object(vec![
        ("settings", object(vec![("crashAssistance", JsonValue::Bool(true))])),
        (
            "profiles",
            object(vec![
                ("vanilla", object(vec![("name", text("Latest")), ("type", text("latest-release"))])),
                ("forge", object(vec![("name", text("forge")), ("extra", JsonValue::Number(s("3")))])),
            ]),
        ),
        ("version", JsonValue::Number(s("3"))),
    ])
}

fn entry(created: &str) -> JsonValue {
    object(vec![("name", text("Quilt Loader 1.20.1")), ("created", text(created))])
}

#[test]
fn merge_preserves_unrelated_keys() {
    let merged = merge_profile(store(), s("quilt-loader-0.19.2-1.20.1"), entry("t1")).unwrap();
    let expected = object(vec![
        ("settings", object(vec![("crashAssistance", JsonValue::Bool(true))])),
        (
            "profiles",
            object(vec![
                ("vanilla", object(vec![("name", text("Latest")), ("type", text("latest-release"))])),
                ("forge", object(vec![("name", text("forge")), ("extra", JsonValue::Number(s("3")))])),
                ("quilt-loader-0.19.2-1.20.1", entry("t1")),
            ]),
        ),
        ("version", JsonValue::Number(s("3"))),
    ]);
    assert_eq!(merged, expected);
}

#[test]
fn merge_twice_keeps_one_entry() {
    let name = s("quilt-loader-0.19.2-1.20.1");
    let once = merge_profile(store(), name.clone(), entry("t1")).unwrap();
    let twice = merge_profile(once, name.clone(), entry("t2")).unwrap();
    assert_eq!(twice, merge_profile(store(), name, entry("t2")).unwrap());
}

#[test]
fn merge_refuses_store_without_profiles() {
    let bad = object(vec![("settings", object(vec![]))]);
    assert_eq!(
        merge_profile(bad, s("p"), entry("t")),
        Err(InstallError::MalformedStore(s("profiles")))
    );
    let bad = object(vec![("profiles", JsonValue::Array(vec![]))]);
    assert!(matches!(merge_profile(bad, s("p"), entry("t")), Err(InstallError::MalformedStore(_))));
    assert!(matches!(merge_profile(JsonValue::Null, s("p"), entry("t")), Err(InstallError::MalformedStore(_))));
}

#[test]
fn profile_name_and_entry() {
    let g = game("1.20.1", true);
    let l = loader("0.19.2");
    let name = profile_name(&l, &g);
    assert_eq!(name, "quilt-loader-0.19.2-1.20.1");
    let p = Profile::new(&g, name.clone(), s("2024-01-01T00:00:00Z"), icon_data_uri(&[1, 2, 3]));
    assert_eq!(
        p.to_json(),
        object(vec![
            ("name", text("Quilt Loader 1.20.1")),
            ("type", text("custom")),
            ("created", text("2024-01-01T00:00:00Z")),
            ("lastVersionId", text("quilt-loader-0.19.2-1.20.1")),
            ("icon", text("data:image/png;base64,AQID")),
        ])
    );
    assert_eq!(icon_data_uri(&[0xff, 0xfe]), "data:image/png;base64,//4=");
    let now = Profile::create(&g, name, &[]);
    assert_eq!(now.icon, "data:image/png;base64,");
    assert!(now.created.ends_with('Z'));
}

fn client(generate_profile: bool) -> ClientInstallation {
    ClientInstallation {
        minecraft_version: game("1.20.1", true),
        loader_version: loader("0.19.2"),
        install_dir: s("/home/u/.minecraft"),
        generate_profile,
    }
}

#[test]
fn client_request_layout_and_description() {
    let c = client(true);
    let layout = c.layout();
    assert_eq!(layout.profile_dir, "versions/quilt-loader-0.19.2-1.20.1");
    assert_eq!(layout.descriptor_file, "quilt-loader-0.19.2-1.20.1.json");
    assert_eq!(layout.placeholder_jar, "quilt-loader-0.19.2-1.20.1.jar");
    assert_eq!(
        layout.descriptor_url,
        "https://meta.quiltmc.org/v3/versions/loader/1.20.1/0.19.2/profile/json"
    );
    assert_eq!(
        c.describe(),
        "Quilt Loader 0.19.2 for Minecraft 1.20.1 to /home/u/.minecraft and generating profile"
    );
    assert_eq!(client(false).describe(), "Quilt Loader 0.19.2 for Minecraft 1.20.1 to /home/u/.minecraft");
    assert_eq!(
        c.check_install_dir(false),
        Err(InstallError::InvalidInstallDir(s("/home/u/.minecraft")))
    );
    assert_eq!(c.check_install_dir(true), Ok(()));
}

#[test]
fn client_reinstall_registers_one_profile() {
    let c = client(true);
    let once = c.register_profile_at(store(), s("t1"), s("data:i")).unwrap();
    let twice = c.register_profile_at(once, s("t2"), s("data:i")).unwrap();
    let JsonValue::Object(top) = &twice else { panic!("not an object") };
    let JsonValue::Object(ps) = &top[1].1 else { panic!("no profiles") };
    assert_eq!(ps.iter().filter(|(k, _)| k == "quilt-loader-0.19.2-1.20.1").count(), 1);
    assert_eq!(ps.len(), 3);
    let first = c.prepare_descriptor(descriptor());
    let second = c.prepare_descriptor(descriptor());
    assert_eq!(first, second);
}

#[test]
fn request_for_targets() {
    let r = request_for(
        Subcommands::Client { no_profile: true, install_dir: s("d") },
        game("1.20.1", true),
        loader("0.19.2"),
    );
    match r {
        InstallationRequest::Client(c) => {
            assert!(!c.generate_profile);
            assert_eq!(c.install_dir, "d");
        }
        _ => panic!("expected a client request"),
    }
    let r = request_for(
        Subcommands::Server { no_script: false, no_jar: true, install_dir: s("srv") },
        game("1.20.1", true),
        loader("0.19.2"),
    );
    match r {
        InstallationRequest::Server(sv) => {
            assert!(sv.generate_script);
            assert!(!sv.download_jar);
            assert_eq!(sv.scripts_to_write(true, false), (false, true));
        }
        _ => panic!("expected a server request"),
    }
}

fn unwrap_manifest_lines(bytes: &[u8]) -> Vec<Vec<u8>> {
    let mut lines = Vec::new();
    let mut cur = Vec::new();
    let mut i = 0;
    while i < bytes.len() {
        if bytes[i] == 13 && i + 1 < bytes.len() && bytes[i + 1] == 10 {
            lines.push(cur);
            cur = Vec::new();
            i += 2;
        } else {
            cur.push(bytes[i]);
            i += 1;
        }
    }
    assert!(cur.is_empty());
    lines
}

#[test]
fn wrapped_lines_fit_and_unwrap() {
    let long: Vec<u8> = (0..300u32).map(|i| b'a' + (i % 26) as u8).collect();
    for n in [0usize, 1, 71, 72, 73, 143, 144, 300] {
        let mut out = Vec::new();
        push_wrapped(&mut out, &long[..n]);
        let lines = unwrap_manifest_lines(&out);
        let mut joined = lines[0].clone();
        for l in &lines[1..] {
            assert_eq!(l[0], b' ');
            joined.extend_from_slice(&l[1..]);
        }
        assert!(lines.iter().all(|l| l.len() <= 72));
        assert_eq!(joined, long[..n].to_vec());
    }
}

#[test]
fn manifest_layout() {
    let m = build_manifest("a.Main", "libraries/x.jar");
    assert_eq!(
        m,
        b"Manifest-Version: 1.0\r\nMain-Class: a.Main\r\nClass-Path: libraries/x.jar\r\n\r\n".to_vec()
    );
}

#[test]
fn server_plan_builds_class_path() {
    let v = SemVer::parse("0.17.6").unwrap();
    let d = patch(descriptor(), &v);
    let plan = plan_server(&d).unwrap();
    assert_eq!(plan.main_class, "org.quiltmc.loader.impl.launch.knot.KnotClient");
    assert_eq!(plan.libraries.len(), 2);
    assert_eq!(
        plan.libraries[0].download_url,
        "https://maven.fabricmc.net/net/fabricmc/intermediary/1.19.2/intermediary-1.19.2.jar"
    );
    let cp = "libraries/net/fabricmc/intermediary/1.19.2/intermediary-1.19.2.jar libraries/org/quiltmc/quilt-loader/0.17.0/quilt-loader-0.17.0.jar";
    assert_eq!(plan.class_path, cp);
    let lines = unwrap_manifest_lines(&plan.manifest);
    assert!(lines.iter().all(|l| l.len() <= 72));
    let header = lines.iter().position(|l| l.starts_with(b"Class-Path: ")).unwrap();
    let mut joined = lines[header].clone();
    for l in &lines[header + 1..] {
        if l.is_empty() {
            break;
        }
        assert_eq!(l[0], b' ');
        joined.extend_from_slice(&l[1..]);
    }
    assert_eq!(joined, format!("Class-Path: {cp}").into_bytes());
}

#[test]
fn server_plan_refuses_missing_main_class() {
    let d = object(vec![(
        "libraries",
        JsonValue::Array(vec![
            library("a:b:1", "https://r/"),
            library("c:d:2", "https://r/"),
            library("e:f:3", "https://r/"),
        ]),
    )]);
    assert_eq!(
        plan_server(&d).unwrap_err(),
        InstallError::MalformedDescriptor(s("launcherMainClass"))
    );
}

#[test]
fn server_plan_names_missing_library_field() {
    let d = object(vec![
        ("launcherMainClass", text("M")),
        ("libraries", JsonValue::Array(vec![object(vec![("name", text("a:b:1"))])])),
    ]);
    assert_eq!(plan_server(&d).unwrap_err(), InstallError::MalformedDescriptor(s("url")));
    let d = object(vec![("launcherMainClass", text("M"))]);
    assert_eq!(plan_server(&d).unwrap_err(), InstallError::MalformedDescriptor(s("libraries")));
    let d = object(vec![
        ("launcherMainClass", text("M")),
        ("libraries", JsonValue::Array(vec![library("ab", "https://r/")])),
    ]);
    assert_eq!(plan_server(&d).unwrap_err(), InstallError::MalformedCoordinate(s("ab")));
}

#[test]
fn server_request_plans_after_patch() {
    let sv = ServerInstallation {
        minecraft_version: game("1.19.2", true),
        loader_version: loader("0.17.6"),
        install_dir: s("srv"),
        download_jar: true,
        generate_script: true,
    };
    assert_eq!(
        sv.descriptor_url(),
        "https://meta.quiltmc.org/v3/versions/loader/1.19.2/0.17.6/server/json"
    );
    let plan = sv.plan(descriptor()).unwrap();
    assert_eq!(plan.libraries.len(), 2);
}

#[test]
fn launcher_profiles_insert_replaces_in_place() {
    let mut profiles = LauncherProfiles::decode(store()).unwrap();
    profiles.insert(s("vanilla"), entry("t3"));
    let expected = object(vec![
        ("settings", object(vec![("crashAssistance", JsonValue::Bool(true))])),
        (
            "profiles",
            object(vec![
                ("vanilla", entry("t3")),
                ("forge", object(vec![("name", text("forge")), ("extra", JsonValue::Number(s("3")))])),
            ]),
        ),
        ("version", JsonValue::Number(s("3"))),
    ]);
    assert_eq!(profiles.into_document(), expected);
    assert!(matches!(
        LauncherProfiles::decode(object(vec![("profiles", text("x"))])),
        Err(InstallError::MalformedStore(_))
    ));
}

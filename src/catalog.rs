use vstd::prelude::*;
use crate::cli::{LoaderVersionCLI, MCVersionCLI};
use crate::error::InstallError;
use crate::version::{LoaderVersion, MinecraftVersion, SemVer};

verus! {

/// The metadata endpoint listing game versions, newest first.
pub const GAME_VERSIONS_URL: &'static str = "https://meta.quiltmc.org/v3/versions/game";

/// The metadata endpoint listing loader versions, newest first.
pub const LOADER_VERSIONS_URL: &'static str = "https://meta.quiltmc.org/v3/versions/loader";

/// Whether a game version answers a choice.
pub open spec fn game_matches(v: MinecraftVersion, c: MCVersionCLI) -> bool {
    match c {
        MCVersionCLI::Stable => v.stable,
        MCVersionCLI::Snapshot => !v.stable,
        MCVersionCLI::Custom(s) => v.version@ == s@,
    }
}

/// Whether a loader version answers a choice.
pub open spec fn loader_matches(v: LoaderVersion, c: LoaderVersionCLI) -> bool {
    match c {
        LoaderVersionCLI::Stable => !v.version.is_pre(),
        LoaderVersionCLI::Beta => v.version.is_pre(),
        LoaderVersionCLI::Custom(s) => v.text() == s@,
    }
}

/// Index of the first game version that answers the choice.
pub open spec fn first_game(vs: Seq<MinecraftVersion>, c: MCVersionCLI) -> Option<int>
    decreases vs.len(),
{
    if vs.len() == 0 {
        None
    } else if game_matches(vs[0], c) {
        Some(0)
    } else {
        match first_game(vs.drop_first(), c) {
            Some(i) => Some(i + 1),
            None => None,
        }
    }
}

/// Index of the first loader version that answers the choice.
pub open spec fn first_loader(vs: Seq<LoaderVersion>, c: LoaderVersionCLI) -> Option<int>
    decreases vs.len(),
{
    if vs.len() == 0 {
        None
    } else if loader_matches(vs[0], c) {
        Some(0)
    } else {
        match first_loader(vs.drop_first(), c) {
            Some(i) => Some(i + 1),
            None => None,
        }
    }
}

/// The word a not-found failure names for a game choice.
pub open spec fn game_choice_name(c: MCVersionCLI) -> Seq<char> {
    match c {
        MCVersionCLI::Stable => "stable"@,
        MCVersionCLI::Snapshot => "snapshot"@,
        MCVersionCLI::Custom(s) => s@,
    }
}

/// The word a not-found failure names for a loader choice.
pub open spec fn loader_choice_name(c: LoaderVersionCLI) -> Seq<char> {
    match c {
        LoaderVersionCLI::Stable => "stable"@,
        LoaderVersionCLI::Beta => "beta"@,
        LoaderVersionCLI::Custom(s) => s@,
    }
}

/// The selected entry is the first in catalog order that answers the choice:
/// it answers it and no earlier entry does.
pub proof fn lemma_first_game(vs: Seq<MinecraftVersion>, c: MCVersionCLI)
    ensures
        match first_game(vs, c) {
            Some(i) => 0 <= i < vs.len() && game_matches(vs[i], c) && forall|j: int|
                0 <= j < i ==> !game_matches(#[trigger] vs[j], c),
            None => forall|j: int| 0 <= j < vs.len() ==> !game_matches(#[trigger] vs[j], c),
        },
    decreases vs.len(),
{
    if vs.len() > 0 && !game_matches(vs[0], c) {
        lemma_first_game(vs.drop_first(), c);
        assert forall|j: int| 1 <= j < vs.len() implies #[trigger] vs[j] == vs.drop_first()[j
            - 1] by {}
    }
}

/// The selected entry is the first in catalog order that answers the choice:
/// it answers it and no earlier entry does.
pub proof fn lemma_first_loader(vs: Seq<LoaderVersion>, c: LoaderVersionCLI)
    ensures
        match first_loader(vs, c) {
            Some(i) => 0 <= i < vs.len() && loader_matches(vs[i], c) && forall|j: int|
                0 <= j < i ==> !loader_matches(#[trigger] vs[j], c),
            None => forall|j: int| 0 <= j < vs.len() ==> !loader_matches(#[trigger] vs[j], c),
        },
    decreases vs.len(),
{
    if vs.len() > 0 && !loader_matches(vs[0], c) {
        lemma_first_loader(vs.drop_first(), c);
        assert forall|j: int| 1 <= j < vs.len() implies #[trigger] vs[j] == vs.drop_first()[j
            - 1] by {}
    }
}

proof fn lemma_first_game_is(vs: Seq<MinecraftVersion>, c: MCVersionCLI, i: int)
    requires
        0 <= i <= vs.len(),
        i < vs.len() ==> game_matches(vs[i], c),
        forall|j: int| 0 <= j < i ==> !game_matches(#[trigger] vs[j], c),
    ensures
        first_game(vs, c) == (if i < vs.len() { Some(i) } else { None::<int> }),
{
    lemma_first_game(vs, c);
    match first_game(vs, c) {
        Some(m) => {
            if m < i {
                assert(!game_matches(vs[m], c));
            } else if m > i {
                assert(!game_matches(vs[i], c));
            }
        },
        None => {
            if i < vs.len() {
                assert(!game_matches(vs[i], c));
            }
        },
    }
}

proof fn lemma_first_loader_is(vs: Seq<LoaderVersion>, c: LoaderVersionCLI, i: int)
    requires
        0 <= i <= vs.len(),
        i < vs.len() ==> loader_matches(vs[i], c),
        forall|j: int| 0 <= j < i ==> !loader_matches(#[trigger] vs[j], c),
    ensures
        first_loader(vs, c) == (if i < vs.len() { Some(i) } else { None::<int> }),
{
    lemma_first_loader(vs, c);
    match first_loader(vs, c) {
        Some(m) => {
            if m < i {
                assert(!loader_matches(vs[m], c));
            } else if m > i {
                assert(!loader_matches(vs[i], c));
            }
        },
        None => {
            if i < vs.len() {
                assert(!loader_matches(vs[i], c));
            }
        },
    }
}

/// Whether a game version answers a choice.
fn game_answers(v: &MinecraftVersion, c: &MCVersionCLI) -> (r: bool)
    ensures
        r == game_matches(*v, *c),
{
    match c {
        MCVersionCLI::Stable => v.stable,
        MCVersionCLI::Snapshot => !v.stable,
        MCVersionCLI::Custom(s) => v.version == *s,
    }
}

/// Whether a loader version answers a choice.
fn loader_answers(v: &LoaderVersion, c: &LoaderVersionCLI) -> (r: bool)
    ensures
        r == loader_matches(*v, *c),
{
    match c {
        LoaderVersionCLI::Stable => !v.version.is_prerelease(),
        LoaderVersionCLI::Beta => v.version.is_prerelease(),
        LoaderVersionCLI::Custom(s) => v.to_text() == *s,
    }
}

/// The word that names a game choice.
fn game_choice_word(c: &MCVersionCLI) -> (r: String)
    ensures
        r@ == game_choice_name(*c),
{
    match c {
        MCVersionCLI::Stable => String::from_str("stable"),
        MCVersionCLI::Snapshot => String::from_str("snapshot"),
        MCVersionCLI::Custom(s) => s.clone(),
    }
}

/// The word that names a loader choice.
fn loader_choice_word(c: &LoaderVersionCLI) -> (r: String)
    ensures
        r@ == loader_choice_name(*c),
{
    match c {
        LoaderVersionCLI::Stable => String::from_str("stable"),
        LoaderVersionCLI::Beta => String::from_str("beta"),
        LoaderVersionCLI::Custom(s) => s.clone(),
    }
}

/// A copy of a game version.
pub fn copy_game(v: &MinecraftVersion) -> (r: MinecraftVersion)
    ensures
        r == *v,
{
    MinecraftVersion { version: v.version.clone(), stable: v.stable }
}

/// A copy of a loader version.
pub fn copy_loader(v: &LoaderVersion) -> (r: LoaderVersion)
    ensures
        r == *v,
{
    LoaderVersion {
        separator: v.separator,
        build: v.build,
        maven: v.maven.clone(),
        version: SemVer {
            major: v.version.major,
            minor: v.version.minor,
            patch: v.version.patch,
            pre: v.version.pre.clone(),
            build: v.version.build.clone(),
        },
    }
}

/// Selects a game version from a catalog given newest first: the first
/// stable one, the first snapshot, or the first named exactly. Where none
/// answers, the failure names the choice.
pub fn select_minecraft_version(versions: &Vec<MinecraftVersion>, choice: &MCVersionCLI) -> (r:
    Result<MinecraftVersion, InstallError>)
    ensures
        match first_game(versions@, *choice) {
            Some(i) => r == Ok::<MinecraftVersion, InstallError>(versions@[i]),
            None => r is Err && r->Err_0 is VersionNotFound && r->Err_0->VersionNotFound_0@
                == game_choice_name(*choice),
        },
{
    let mut i: usize = 0;
    while i < versions.len()
        invariant
            i <= versions@.len(),
            forall|j: int| 0 <= j < i ==> !game_matches(#[trigger] versions@[j], *choice),
        decreases versions.len() - i,
    {
        if game_answers(&versions[i], choice) {
            proof {
                lemma_first_game_is(versions@, *choice, i as int);
            }
            return Ok(copy_game(&versions[i]));
        }
        i = i + 1;
    }
    proof {
        lemma_first_game_is(versions@, *choice, i as int);
    }
    Err(InstallError::VersionNotFound(game_choice_word(choice)))
}

/// Selects a loader version from a catalog given newest first: the first
/// release, the first pre-release, or the first whose version text is the
/// one named. Where none answers, the failure names the choice.
pub fn select_loader_version(versions: &Vec<LoaderVersion>, choice: &LoaderVersionCLI) -> (r:
    Result<LoaderVersion, InstallError>)
    ensures
        match first_loader(versions@, *choice) {
            Some(i) => r == Ok::<LoaderVersion, InstallError>(versions@[i]),
            None => r is Err && r->Err_0 is VersionNotFound && r->Err_0->VersionNotFound_0@
                == loader_choice_name(*choice),
        },
{
    let mut i: usize = 0;
    while i < versions.len()
        invariant
            i <= versions@.len(),
            forall|j: int| 0 <= j < i ==> !loader_matches(#[trigger] versions@[j], *choice),
        decreases versions.len() - i,
    {
        if loader_answers(&versions[i], choice) {
            proof {
                lemma_first_loader_is(versions@, *choice, i as int);
            }
            return Ok(copy_loader(&versions[i]));
        }
        i = i + 1;
    }
    proof {
        lemma_first_loader_is(versions@, *choice, i as int);
    }
    Err(InstallError::VersionNotFound(loader_choice_word(choice)))
}

/// Selects both versions; the game version's failure comes first.
pub fn get_versions(
    minecraft_versions: &Vec<MinecraftVersion>,
    loader_versions: &Vec<LoaderVersion>,
    minecraft_version: &MCVersionCLI,
    loader_version: &LoaderVersionCLI,
) -> (r: Result<(MinecraftVersion, LoaderVersion), InstallError>)
    ensures
        match (
            first_game(minecraft_versions@, *minecraft_version),
            first_loader(loader_versions@, *loader_version),
        ) {
            (Some(i), Some(j)) => r == Ok::<(MinecraftVersion, LoaderVersion), InstallError>(
                (minecraft_versions@[i], loader_versions@[j]),
            ),
            (None, _) => r is Err && r->Err_0 is VersionNotFound && r->Err_0->VersionNotFound_0@
                == game_choice_name(*minecraft_version),
            (Some(_), None) => r is Err && r->Err_0 is VersionNotFound
                && r->Err_0->VersionNotFound_0@ == loader_choice_name(*loader_version),
        },
{
    let game = match select_minecraft_version(minecraft_versions, minecraft_version) {
        Ok(g) => g,
        Err(e) => {
            return Err(e);
        },
    };
    let loader = match select_loader_version(loader_versions, loader_version) {
        Ok(l) => l,
        Err(e) => {
            return Err(e);
        },
    };
    Ok((game, loader))
}

} // verus!

use vstd::prelude::*;

verus! {

/// The text as `str::to_lowercase` writes it.
pub uninterp spec fn lower_of(s: Seq<char>) -> Seq<char>;

/// Relies on `str::to_lowercase`, whose result depends on the characters
/// alone.
#[verifier::external_body]
fn lowercase(s: &str) -> (r: String)
    ensures
        r@ == lower_of(s@),
{
    s.to_lowercase()
}

/// Which game version to install.
#[derive(Debug, Clone, PartialEq, Eq)]
pub enum MCVersionCLI {
    /// The newest stable release.
    Stable,
    /// The newest snapshot.
    Snapshot,
    /// A version named exactly.
    Custom(String),
}

/// Which loader version to install.
#[derive(Debug, Clone, PartialEq, Eq)]
pub enum LoaderVersionCLI {
    /// The newest release.
    Stable,
    /// The newest pre-release.
    Beta,
    /// A version named exactly.
    Custom(String),
}

/// The game choice that a word names, given its lowercase form.
pub open spec fn game_choice_of(folded: Seq<char>, word: String) -> MCVersionCLI {
    if folded == "stable"@ {
        MCVersionCLI::Stable
    } else if folded == "snapshot"@ {
        MCVersionCLI::Snapshot
    } else {
        MCVersionCLI::Custom(word)
    }
}

/// The loader choice that a word names, given its lowercase form.
pub open spec fn loader_choice_of(folded: Seq<char>, word: String) -> LoaderVersionCLI {
    if folded == "stable"@ {
        LoaderVersionCLI::Stable
    } else if folded == "beta"@ {
        LoaderVersionCLI::Beta
    } else {
        LoaderVersionCLI::Custom(word)
    }
}

impl MCVersionCLI {
    /// The choice that `word` names, `folded` being its lowercase form: the
    /// words `stable` and `snapshot` in any case, else the exact version.
    pub fn from_folded(folded: &str, word: String) -> (r: MCVersionCLI)
        ensures
            r == game_choice_of(folded@, word),
    {
        let f = String::from_str(folded);
        if f == String::from_str("stable") {
            MCVersionCLI::Stable
        } else if f == String::from_str("snapshot") {
            MCVersionCLI::Snapshot
        } else {
            MCVersionCLI::Custom(word)
        }
    }
}

impl LoaderVersionCLI {
    /// The choice that `word` names, `folded` being its lowercase form: the
    /// words `stable` and `beta` in any case, else the exact version.
    pub fn from_folded(folded: &str, word: String) -> (r: LoaderVersionCLI)
        ensures
            r == loader_choice_of(folded@, word),
    {
        let f = String::from_str(folded);
        if f == String::from_str("stable") {
            LoaderVersionCLI::Stable
        } else if f == String::from_str("beta") {
            LoaderVersionCLI::Beta
        } else {
            LoaderVersionCLI::Custom(word)
        }
    }
}

impl From<String> for MCVersionCLI {
    fn from(s: String) -> (r: MCVersionCLI) {
        let folded = lowercase(s.as_str());
        MCVersionCLI::from_folded(folded.as_str(), s)
    }
}

impl vstd::std_specs::convert::FromSpecImpl<String> for MCVersionCLI {
    open spec fn obeys_from_spec() -> bool {
        true
    }

    open spec fn from_spec(s: String) -> MCVersionCLI {
        game_choice_of(lower_of(s@), s)
    }
}

impl From<String> for LoaderVersionCLI {
    fn from(s: String) -> (r: LoaderVersionCLI) {
        let folded = lowercase(s.as_str());
        LoaderVersionCLI::from_folded(folded.as_str(), s)
    }
}

impl vstd::std_specs::convert::FromSpecImpl<String> for LoaderVersionCLI {
    open spec fn obeys_from_spec() -> bool {
        true
    }

    open spec fn from_spec(s: String) -> LoaderVersionCLI {
        loader_choice_of(lower_of(s@), s)
    }
}

impl Default for MCVersionCLI {
    fn default() -> (r: MCVersionCLI)
        ensures
            r == MCVersionCLI::Stable,
    {
        MCVersionCLI::Stable
    }
}

impl Default for LoaderVersionCLI {
    fn default() -> (r: LoaderVersionCLI)
        ensures
            r == LoaderVersionCLI::Stable,
    {
        LoaderVersionCLI::Stable
    }
}

/// What to install, and where.
#[derive(Debug, Clone, PartialEq, Eq)]
pub enum Subcommands {
    /// The loader for a launcher installation.
    Client {
        /// Leave the launcher's profile store alone.
        no_profile: bool,
        install_dir: String,
    },
    /// A standalone server.
    Server {
        /// Write no start scripts.
        no_script: bool,
        /// Fetch no server jar.
        no_jar: bool,
        install_dir: String,
    },
}

/// The command line: an install target and the two version choices.
#[derive(Debug, Clone, PartialEq, Eq)]
pub struct Args {
    pub subcommand: Option<Subcommands>,
    pub minecraft_version: MCVersionCLI,
    pub loader_version: LoaderVersionCLI,
}

} // verus!

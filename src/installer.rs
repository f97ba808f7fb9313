use vstd::prelude::*;
use crate::cli::Subcommands;
use crate::compat::{patch, patched};
use crate::error::InstallError;
use crate::json::{Json, JsonValue};
use crate::profiles::{
    current_timestamp, icon_data_uri, icon_uri_of, merge_profile, merged_store, profile_name, profile_name_of, profile_title_of,
    Profile,
};
use crate::server::{class_path_of, manifest_of, plan_server, server_plan_of, PlanError, ServerPlan};
use crate::version::{LoaderVersion, MinecraftVersion};

verus! {

/// The two install targets.
#[derive(Debug, Clone, Copy, PartialEq, Eq)]
pub enum Installation {
    Client,
    Server,
}

impl Default for Installation {
    fn default() -> (r: Installation)
        ensures
            r == Installation::Client,
    {
        Installation::Client
    }
}

/// A request to install the loader into a launcher installation.
#[derive(Debug, Clone)]
pub struct ClientInstallation {
    pub minecraft_version: MinecraftVersion,
    pub loader_version: LoaderVersion,
    pub install_dir: String,
    pub generate_profile: bool,
}

/// A request to assemble a standalone server.
#[derive(Debug, Clone)]
pub struct ServerInstallation {
    pub minecraft_version: MinecraftVersion,
    pub loader_version: LoaderVersion,
    pub install_dir: String,
    pub download_jar: bool,
    pub generate_script: bool,
}

/// Either install request.
#[derive(Debug, Clone)]
pub enum InstallationRequest {
    Client(ClientInstallation),
    Server(ServerInstallation),
}

/// The request that a command line's target makes with the selected
/// versions: each `no_...` flag turns the matching step off.
pub fn request_for(target: Subcommands, game: MinecraftVersion, loader: LoaderVersion) -> (r:
    InstallationRequest)
    ensures
        match target {
            Subcommands::Client { no_profile, install_dir } => r matches InstallationRequest::Client(c)
                && c.minecraft_version == game && c.loader_version == loader && c.install_dir
                == install_dir && c.generate_profile == !no_profile,
            Subcommands::Server { no_script, no_jar, install_dir } => r matches InstallationRequest::Server(
                s,
            ) && s.minecraft_version == game && s.loader_version == loader && s.install_dir
                == install_dir && s.download_jar == !no_jar && s.generate_script == !no_script,
        },
{
    match target {
        Subcommands::Client { no_profile, install_dir } => InstallationRequest::Client(
            ClientInstallation {
                minecraft_version: game,
                loader_version: loader,
                install_dir,
                generate_profile: !no_profile,
            },
        ),
        Subcommands::Server { no_script, no_jar, install_dir } => InstallationRequest::Server(
            ServerInstallation {
                minecraft_version: game,
                loader_version: loader,
                install_dir,
                download_jar: !no_jar,
                generate_script: !no_script,
            },
        ),
    }
}

/// The metadata endpoint of the launch descriptor of a (game, loader) pair;
/// `kind` is `profile` for the client, `server` for the server.
pub open spec fn descriptor_url_of(game: Seq<char>, loader: Seq<char>, kind: Seq<char>) -> Seq<
    char,
> {
    "https://meta.quiltmc.org/v3/versions/loader/"@ + game + seq!['/'] + loader + seq!['/'] + kind
        + "/json"@
}

fn descriptor_url(game: &MinecraftVersion, loader: &LoaderVersion, kind: &str) -> (r: String)
    ensures
        r@ == descriptor_url_of(game.version@, loader.text(), kind@),
{
    let mut r = String::from_str("https://meta.quiltmc.org/v3/versions/loader/");
    r.append(game.version.as_str());
    r.push('/');
    let l = loader.to_text();
    r.append(l.as_str());
    r.push('/');
    r.append(kind);
    r.append("/json");
    r
}

/// Where a client install writes, relative to the install directory.
#[derive(Debug, Clone)]
pub struct ClientLayout {
    /// `quilt-loader-<loader>-<game>`.
    pub profile_name: String,
    /// `versions/<profile_name>`.
    pub profile_dir: String,
    /// `<profile_name>.json`, inside the profile directory.
    pub descriptor_file: String,
    /// `<profile_name>.jar`, an empty placeholder beside the descriptor.
    pub placeholder_jar: String,
    /// Where the client launch descriptor is fetched from.
    pub descriptor_url: String,
}

/// The launcher's profile store, whose presence marks an install directory.
pub const PROFILE_STORE: &'static str = "launcher_profiles.json";

/// The text that a client install request describes itself with.
pub open spec fn client_description(
    loader: Seq<char>,
    game: Seq<char>,
    dir: Seq<char>,
    generate_profile: bool,
) -> Seq<char> {
    "Quilt Loader "@ + loader + " for Minecraft "@ + game + " to "@ + dir + if generate_profile {
        " and generating profile"@
    } else {
        Seq::<char>::empty()
    }
}

/// The profile entry the store gets for a request, created at `created`
/// and showing the data URI `icon`.
pub open spec fn profile_entry_of(
    game: Seq<char>,
    created: Seq<char>,
    name: Seq<char>,
    icon: Seq<char>,
) -> Json {
    Json::Object(
        seq![
            ("name"@, Json::Str(profile_title_of(game))),
            ("type"@, Json::Str("custom"@)),
            ("created"@, Json::Str(created)),
            ("lastVersionId"@, Json::Str(name)),
            ("icon"@, Json::Str(icon)),
        ],
    )
}

impl ClientInstallation {
    /// The profile name of this request.
    pub open spec fn name(&self) -> Seq<char> {
        profile_name_of(self.loader_version.text(), self.minecraft_version.version@)
    }

    /// Refuses an install directory that holds no launcher profile store;
    /// `has_store` tells whether it does.
    pub fn check_install_dir(&self, has_store: bool) -> (r: Result<(), InstallError>)
        ensures
            has_store ==> r is Ok,
            !has_store ==> r is Err && r->Err_0 is InvalidInstallDir
                && r->Err_0->InvalidInstallDir_0@ == self.install_dir@,
    {
        if has_store {
            Ok(())
        } else {
            Err(InstallError::InvalidInstallDir(self.install_dir.clone()))
        }
    }

    /// The client launch descriptor as it is written: the fetched one with the
    /// compatibility quirks of this loader version applied.
    pub fn prepare_descriptor(&self, fetched: JsonValue) -> (r: JsonValue)
        ensures
            r@ == patched(fetched@, self.loader_version.version),
    {
        patch(fetched, &self.loader_version.version)
    }

    /// The profile store with this request's profile, created at `created`
    /// and showing the data URI `icon`, set under its name; a store without a
    /// `profiles` object is refused.
    pub fn register_profile_at(&self, store: JsonValue, created: String, icon: String) -> (r:
        Result<JsonValue, InstallError>)
        ensures
            match merged_store(
                store@,
                self.name(),
                profile_entry_of(self.minecraft_version.version@, created@, self.name(), icon@),
            ) {
                Some(m) => r is Ok && r->Ok_0@ == m,
                None => r is Err && r->Err_0 is MalformedStore,
            },
    {
        let name = profile_name(&self.loader_version, &self.minecraft_version);
        let profile = Profile::new(&self.minecraft_version, name.clone(), created, icon);
        let entry = profile.to_json();
        merge_profile(store, name, entry)
    }

    /// The profile store with this request's profile, created now, set under
    /// its name; a store without a `profiles` object is refused. Whether the
    /// store is refused does not depend on the entry.
    pub fn register_profile(&self, store: JsonValue, icon_png: &[u8]) -> (r: Result<
        JsonValue,
        InstallError,
    >)
        ensures
            merged_store(store@, self.name(), Json::Null) is None ==> r is Err && r->Err_0 is MalformedStore,
            merged_store(store@, self.name(), Json::Null) is Some ==> exists|created: Seq<char>|
                r == Ok::<JsonValue, InstallError>(r->Ok_0) && Some(r->Ok_0@) == #[trigger] merged_store(
                    store@,
                    self.name(),
                    profile_entry_of(
                        self.minecraft_version.version@,
                        created,
                        self.name(),
                        icon_uri_of(icon_png@),
                    ),
                ),
    {
        let now = current_timestamp();
        self.register_profile_at(store, now, icon_data_uri(icon_png))
    }

    /// Where this request writes.
    pub fn layout(&self) -> (r: ClientLayout)
        ensures
            r.profile_name@ == self.name(),
            r.profile_dir@ == "versions/"@ + self.name(),
            r.descriptor_file@ == self.name() + ".json"@,
            r.placeholder_jar@ == self.name() + ".jar"@,
            r.descriptor_url@ == descriptor_url_of(
                self.minecraft_version.version@,
                self.loader_version.text(),
                "profile"@,
            ),
    {
        let name = profile_name(&self.loader_version, &self.minecraft_version);
        let mut dir = String::from_str("versions/");
        dir.append(name.as_str());
        let mut descriptor_file = name.clone();
        descriptor_file.append(".json");
        let mut placeholder_jar = name.clone();
        placeholder_jar.append(".jar");
        ClientLayout {
            profile_name: name,
            profile_dir: dir,
            descriptor_file,
            placeholder_jar,
            descriptor_url: descriptor_url(&self.minecraft_version, &self.loader_version, "profile"),
        }
    }

    /// A one-line account of the request.
    pub fn describe(&self) -> (r: String)
        ensures
            r@ == client_description(
                self.loader_version.text(),
                self.minecraft_version.version@,
                self.install_dir@,
                self.generate_profile,
            ),
    {
        let mut r = String::from_str("Quilt Loader ");
        let l = self.loader_version.to_text();
        r.append(l.as_str());
        r.append(" for Minecraft ");
        r.append(self.minecraft_version.version.as_str());
        r.append(" to ");
        r.append(self.install_dir.as_str());
        if self.generate_profile {
            r.append(" and generating profile");
        }
        proof {
            if !self.generate_profile {
                assert(r@ =~= client_description(
                    self.loader_version.text(),
                    self.minecraft_version.version@,
                    self.install_dir@,
                    self.generate_profile,
                ));
            }
        }
        r
    }
}

/// The start script for POSIX systems.
pub const RUN_SH: &'static str = "#!/usr/bin/env sh\njava -Xmx2G -XX:+UseG1GC -XX:+ParallelRefProcEnabled -jar quilt-server-launch.jar nogui\n";

/// The start script for Windows.
pub const RUN_BAT: &'static str = "@echo off\r\njava -Xmx2G -XX:+UseG1GC -XX:+ParallelRefProcEnabled -jar quilt-server-launch.jar nogui\r\npause\r\n";

impl ServerInstallation {
    /// Plans the install from the fetched server launch descriptor, after the
    /// compatibility quirks of this loader version; nothing is planned from a
    /// descriptor that lacks a field.
    pub fn plan(&self, fetched: JsonValue) -> (r: Result<ServerPlan, InstallError>)
        ensures
            match server_plan_of(patched(fetched@, self.loader_version.version)) {
                Ok((m, ps)) => r is Ok && r->Ok_0.main_class@ == m && r->Ok_0.libraries@.len()
                    == ps.len() && (forall|i: int|
                    0 <= i < ps.len() ==> (#[trigger] r->Ok_0.libraries@[i]).download_url@
                        == ps[i].0 && r->Ok_0.libraries@[i].relative_path@ == ps[i].1)
                    && r->Ok_0.class_path@ == class_path_of(ps) && r->Ok_0.manifest@
                    == manifest_of(m, class_path_of(ps)),
                Err(PlanError::MissingField(f)) => r is Err && r->Err_0 is MalformedDescriptor
                    && r->Err_0->MalformedDescriptor_0@ == f,
                Err(PlanError::BadCoordinate(c)) => r is Err && r->Err_0 is MalformedCoordinate
                    && r->Err_0->MalformedCoordinate_0@ == c,
            },
    {
        let descriptor = patch(fetched, &self.loader_version.version);
        plan_server(&descriptor)
    }

    /// Which start scripts to write, `run.sh` then `run.bat`: only when
    /// scripts are asked for, and never over one that exists.
    pub fn scripts_to_write(&self, run_sh_exists: bool, run_bat_exists: bool) -> (r: (bool, bool))
        ensures
            r.0 == (self.generate_script && !run_sh_exists),
            r.1 == (self.generate_script && !run_bat_exists),
    {
        (self.generate_script && !run_sh_exists, self.generate_script && !run_bat_exists)
    }

    /// Where the server launch descriptor is fetched from.
    pub fn descriptor_url(&self) -> (r: String)
        ensures
            r@ == descriptor_url_of(
                self.minecraft_version.version@,
                self.loader_version.text(),
                "server"@,
            ),
    {
        descriptor_url(&self.minecraft_version, &self.loader_version, "server")
    }
}

} // verus!

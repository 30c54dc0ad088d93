//! The sandbox that a snapshot is made in.

use crate::commands::launch::BootSource;
use crate::commands::snapshot::{
    asset, asset_path, build_boot, build_boot_source, script_path, BUILD_TMP_MB,
};
use crate::config::image::file_models;
use crate::config::{ConfigAction, ImageConfig, SetupFile, SETUP_SCRIPT_NAME};
use crate::git_access::env_models;
use crate::network::sdk::{policy_model, PolicyModel};
use crate::table::Table;
use microsandbox_network::policy::NetworkPolicy;
use vstd::prelude::*;

verus! {

/// Directory of the guest that is kept in memory while a snapshot is made.
pub const BUILD_TMP_DIR: &'static str = "/tmp";

/// Permissions of the setup script: it is run as it is.
pub const SETUP_SCRIPT_MODE: u32 = 0o755;

/// A file that the guest finds at `path`.
#[derive(Debug)]
pub struct GuestFile {
    pub path: String,
    pub content: Vec<u8>,
}

/// All that is needed to boot the sandbox that a snapshot is made in.
#[derive(Debug)]
pub struct BuildPlan {
    /// Name of the sandbox.
    pub name: String,
    pub boot: BootSource,
    pub memory_mb: u32,
    pub cpus: u8,
    pub network: NetworkPolicy,
    /// Directory that is kept in memory.
    pub tmp_dir: &'static str,
    /// Size of that directory in MiB.
    pub tmp_mb: u32,
    pub env: Vec<(String, String)>,
    /// Where the guest finds the setup script.
    pub script_path: String,
    pub script: String,
    pub script_mode: u32,
    pub files: Vec<GuestFile>,
}

/// The policy under which nothing is forbidden.
pub open spec fn unrestricted() -> PolicyModel {
    PolicyModel { egress: ConfigAction::Allow, ingress: ConfigAction::Allow, rules: Seq::empty() }
}

/// The entries of a table of variables.
pub open spec fn variables_of(pairs: Seq<(Seq<char>, String)>) -> Seq<(Seq<char>, Seq<char>)> {
    Seq::new(pairs.len(), |i: int| (pairs[i].0, pairs[i].1@))
}

/// The contents of files of the guest.
pub open spec fn guest_models(files: Seq<GuestFile>) -> Seq<(Seq<char>, Seq<u8>)> {
    Seq::new(files.len(), |i: int| (files[i].path@, files[i].content@))
}

/// Where the guest finds setup files.
pub open spec fn assets_of(files: Seq<(Seq<char>, Seq<u8>)>) -> Seq<(Seq<char>, Seq<u8>)> {
    Seq::new(files.len(), |i: int| (asset(files[i].0), files[i].1))
}

/// The entries of a table of variables.
fn list_variables(table: &Table<String>) -> (r: Vec<(String, String)>)
    ensures
        env_models(r@) == variables_of(table.pairs()),
{
    let ghost all = variables_of(table.pairs());
    let mut r: Vec<(String, String)> = Vec::new();
    let n: usize = table.len();
    let mut i: usize = 0;
    assert(env_models(r@) =~= all.take(0));
    while i < n
        invariant
            i <= n == table.pairs().len(),
            all == variables_of(table.pairs()),
            env_models(r@) == all.take(i as int),
        decreases n - i,
    {
        let ghost before = r@;
        let pair = (table.key_at(i).to_owned(), table.value_at(i).clone());
        r.push(pair);
        assert(all[i as int] == (pair.0@, pair.1@));
        assert(env_models(r@) =~= env_models(before).push((pair.0@, pair.1@)));
        assert(all.take(i + 1) =~= all.take(i as int).push(all[i as int]));
        i += 1;
    }
    assert(all.take(i as int) =~= all);
    r
}

/// The setup files in their places.
fn place_files(setup: &Vec<SetupFile>) -> (r: Vec<GuestFile>)
    ensures
        guest_models(r@) == assets_of(file_models(setup@)),
{
    let ghost all = assets_of(file_models(setup@));
    let mut r: Vec<GuestFile> = Vec::new();
    let mut i: usize = 0;
    assert(guest_models(r@) =~= all.take(0));
    while i < setup.len()
        invariant
            i <= setup.len(),
            all == assets_of(file_models(setup@)),
            guest_models(r@) == all.take(i as int),
        decreases setup.len() - i,
    {
        let ghost before = r@;
        let mut content: Vec<u8> = Vec::new();
        content.extend_from_slice(setup[i].content.as_slice());
        assert(content@ =~= setup[i as int].content@);
        let file = GuestFile { path: asset_path(setup[i].name.as_str()), content };
        r.push(file);
        assert(all[i as int] == (file.path@, file.content@));
        assert(guest_models(r@) =~= guest_models(before).push((file.path@, file.content@)));
        assert(all.take(i + 1) =~= all.take(i as int).push(all[i as int]));
        i += 1;
    }
    assert(all.take(i as int) =~= all);
    r
}

/// The sandbox called `name` in which `script` makes the snapshot of an image: it boots from the
/// base, may reach everything, has room for what is built, knows the variables of the image, and
/// finds the script and the setup files in place.
pub fn build_plan(image: &ImageConfig, script: &str, name: &str, memory_mb: u32, cpus: u8) -> (r:
    BuildPlan)
    ensures
        r.name@ == name@,
        r.boot@ == build_boot(*image),
        r.memory_mb == memory_mb,
        r.cpus == cpus,
        policy_model(r.network) == unrestricted(),
        r.tmp_dir@ == BUILD_TMP_DIR@,
        r.tmp_mb == BUILD_TMP_MB,
        env_models(r.env@) == variables_of(image.env.pairs()),
        r.script_path@ == asset(SETUP_SCRIPT_NAME@),
        r.script@ == script@,
        r.script_mode == SETUP_SCRIPT_MODE,
        guest_models(r.files@) == assets_of(file_models(image.setup_files@)),
{
    BuildPlan {
        name: name.to_owned(),
        boot: build_boot_source(image),
        memory_mb,
        cpus,
        network: NetworkPolicy::allow_all(),
        tmp_dir: BUILD_TMP_DIR,
        tmp_mb: BUILD_TMP_MB,
        env: list_variables(&image.env),
        script_path: script_path(),
        script: script.to_owned(),
        script_mode: SETUP_SCRIPT_MODE,
        files: place_files(&image.setup_files),
    }
}

} // verus!

//! The launch manifest that every installed title carries in its install
//! directory, and the set of manifests that a caller has read.

use crate::paths::{joined_path, path_join};
use vstd::prelude::*;

verus! {

/// One command of a manifest.
#[derive(Debug, PartialEq, Eq)]
pub struct FuelCommand {
    /// Where to run the command, relative to the install directory.
    pub working_subdir_override: Option<String>,
    /// The executable, relative to the install directory.
    pub command: String,
    pub args: Option<Vec<String>>,
    pub auth_scopes: Option<Vec<String>>,
    /// Present where the title is started by the Twitch client itself.
    pub client_id: Option<String>,
}

/// What a `FuelCommand` holds, as mathematical values.
pub ghost struct FuelCommandModel {
    pub working_subdir_override: Option<Seq<char>>,
    pub command: Seq<char>,
    pub args: Option<Seq<Seq<char>>>,
    pub auth_scopes: Option<Seq<Seq<char>>>,
    pub client_id: Option<Seq<char>>,
}

impl DeepView for FuelCommand {
    type V = FuelCommandModel;

    open spec fn deep_view(&self) -> FuelCommandModel {
        FuelCommandModel {
            working_subdir_override: self.working_subdir_override.deep_view(),
            command: self.command@,
            args: self.args.deep_view(),
            auth_scopes: self.auth_scopes.deep_view(),
            client_id: self.client_id.deep_view(),
        }
    }
}

impl View for FuelCommand {
    type V = FuelCommandModel;

    open spec fn view(&self) -> FuelCommandModel {
        self.deep_view()
    }
}

/// A launch manifest. Only `main` decides how a title is started;
/// `post_install` is run by the installer and is carried along unread.
#[derive(Debug, PartialEq, Eq)]
pub struct Fuel {
    pub schema_version: String,
    pub post_install: Option<Vec<FuelCommand>>,
    pub main: FuelCommand,
}

/// What a `Fuel` holds, as mathematical values.
pub ghost struct FuelModel {
    pub schema_version: Seq<char>,
    pub post_install: Option<Seq<FuelCommandModel>>,
    pub main: FuelCommandModel,
}

impl View for Fuel {
    type V = FuelModel;

    open spec fn view(&self) -> FuelModel {
        FuelModel {
            schema_version: self.schema_version@,
            post_install: self.post_install.deep_view(),
            main: self.main@,
        }
    }
}

/// A manifest that was read and parsed, with the install directory it was
/// found in.
#[derive(Debug, PartialEq, Eq)]
pub struct Manifest {
    pub install_directory: String,
    pub fuel: Fuel,
}

/// What a `Manifest` holds, as mathematical values.
pub ghost struct ManifestModel {
    pub install_directory: Seq<char>,
    pub fuel: FuelModel,
}

impl View for Manifest {
    type V = ManifestModel;

    open spec fn view(&self) -> ManifestModel {
        ManifestModel { install_directory: self.install_directory@, fuel: self.fuel@ }
    }
}

/// The models of a sequence of manifests, in order.
pub open spec fn manifest_models(manifests: Seq<Manifest>) -> Seq<ManifestModel> {
    Seq::new(manifests.len(), |i: int| manifests[i]@)
}

/// The name of the manifest file inside an install directory.
pub open spec fn manifest_file_name() -> Seq<char> {
    "fuel.json"@
}

/// Entry `i` is the first manifest of `directory`.
pub open spec fn is_first_manifest(
    manifests: Seq<ManifestModel>,
    directory: Seq<char>,
    i: int,
) -> bool {
    &&& 0 <= i < manifests.len()
    &&& manifests[i].install_directory == directory
    &&& forall|j: int| 0 <= j < i ==> manifests[j].install_directory != directory
}

/// The manifest that the set holds for `directory`: that of the first entry
/// with this directory, none where no entry has it.
pub open spec fn manifest_for(manifests: Seq<ManifestModel>, directory: Seq<char>) -> Option<
    FuelModel,
> {
    if exists|i: int| is_first_manifest(manifests, directory, i) {
        Some(manifests[choose|i: int| is_first_manifest(manifests, directory, i)].fuel)
    } else {
        None
    }
}

/// Only one entry can be the first manifest of a directory.
pub proof fn lemma_first_manifest_unique(
    manifests: Seq<ManifestModel>,
    directory: Seq<char>,
    i: int,
    j: int,
)
    requires
        is_first_manifest(manifests, directory, i),
        is_first_manifest(manifests, directory, j),
    ensures
        i == j,
{
    if i < j {
        assert(manifests[i].install_directory != directory);
    } else if j < i {
        assert(manifests[j].install_directory != directory);
    }
}

/// The path of the manifest of the title installed in `install_directory`.
pub fn manifest_path(install_directory: &str) -> (path: String)
    ensures
        path@ == joined_path(install_directory@, manifest_file_name()),
{
    path_join(install_directory, "fuel.json")
}

/// Looks up the manifest of `directory` among those that were read.
///
/// Returns the index of the first entry with this directory.
pub fn find_manifest(manifests: &Vec<Manifest>, directory: &String) -> (found: Option<usize>)
    ensures
        match found {
            Some(i) => is_first_manifest(manifest_models(manifests@), directory@, i as int),
            None => forall|i: int|
                0 <= i < manifests.len() ==> manifests[i].install_directory@ != directory@,
        },
        found is Some <==> manifest_for(manifest_models(manifests@), directory@) is Some,
        found matches Some(i) ==> manifest_for(manifest_models(manifests@), directory@) == Some(
            manifests[i as int].fuel@,
        ),
{
    let ghost models = manifest_models(manifests@);
    let mut i: usize = 0;
    while i < manifests.len()
        invariant
            i <= manifests.len(),
            models == manifest_models(manifests@),
            forall|j: int| 0 <= j < i ==> models[j].install_directory != directory@,
        decreases manifests.len() - i,
    {
        if manifests[i].install_directory == *directory {
            proof {
                assert(is_first_manifest(models, directory@, i as int));
                let c = choose|c: int| is_first_manifest(models, directory@, c);
                lemma_first_manifest_unique(models, directory@, c, i as int);
            }
            return Some(i);
        }
        i = i + 1;
    }
    proof {
        assert forall|c: int| !is_first_manifest(models, directory@, c) by {
            if 0 <= c < models.len() {
                assert(models[c].install_directory != directory@);
            }
        }
        assert forall|c: int| 0 <= c < manifests.len() implies manifests[c].install_directory@
            != directory@ by {
            assert(models[c].install_directory != directory@);
        }
    }
    None
}

} // verus!

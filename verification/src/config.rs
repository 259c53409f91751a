//! The persisted configuration as the library sees it: the saved repository
//! records, the optional binary override, and the setup flag. Reading and
//! writing the file itself is the caller's business; every rule about the
//! content is decided here.

use vstd::prelude::*;

use crate::errors::AppError;
use crate::text::{is_blank, spec_blank, str_eq};
use crate::validate::{
    password_verdict_matches, repo_id_verdict_matches, repo_verdict_matches, spec_validate_password,
    spec_validate_repo_id, spec_validate_repository, validate_password, validate_repo_id,
    validate_repository_path, PasswordVerdict, RepoIdVerdict, RepoVerdict,
};

verus! {

/// One saved repository record: an id used as a filesystem and database
/// key, a display name, the locator, and the password.
#[derive(Debug)]
pub struct SavedRepository {
    pub id: String,
    pub name: String,
    pub path: String,
    pub password: String,
}

/// The mathematical value of a [`SavedRepository`].
pub struct SavedRepositoryV {
    pub id: Seq<char>,
    pub name: Seq<char>,
    pub path: Seq<char>,
    pub password: Seq<char>,
}

impl View for SavedRepository {
    type V = SavedRepositoryV;

    open spec fn view(&self) -> SavedRepositoryV {
        SavedRepositoryV {
            id: self.id@,
            name: self.name@,
            path: self.path@,
            password: self.password@,
        }
    }
}

impl DeepView for SavedRepository {
    type V = SavedRepositoryV;

    open spec fn deep_view(&self) -> SavedRepositoryV {
        self.view()
    }
}

impl Clone for SavedRepository {
    fn clone(&self) -> (r: Self)
        ensures
            r@ == self@,
    {
        SavedRepository {
            id: self.id.clone(),
            name: self.name.clone(),
            path: self.path.clone(),
            password: self.password.clone(),
        }
    }
}

/// The whole persisted configuration.
#[derive(Debug)]
pub struct AppConfig {
    pub repositories: Vec<SavedRepository>,
    pub restic_binary_path: Option<String>,
    pub setup_completed: Option<bool>,
}

impl Default for AppConfig {
    /// A fresh configuration: no repositories, no override, setup not done.
    fn default() -> (r: Self)
        ensures
            r.repositories@.len() == 0,
            r.restic_binary_path is None,
            r.setup_completed is None,
    {
        AppConfig { repositories: Vec::new(), restic_binary_path: None, setup_completed: None }
    }
}

// ------------------------------------------------------------------
// Validating a batch of saved repositories
// ------------------------------------------------------------------

/// Every rule one saved record must meet before the batch may be persisted.
pub open spec fn spec_entry_ok(v: SavedRepositoryV) -> bool {
    &&& spec_validate_repo_id(v.id) is Accept
    &&& spec_validate_repository(v.path) is Accept
    &&& spec_validate_password(v.password) is Accept
    &&& !spec_blank(v.name)
    &&& v.name.len() <= 200
}

/// The error reported for a record that breaks a rule, checked in the order
/// the rules are applied: id, locator, password, then the name.
pub open spec fn entry_error_matches(v: SavedRepositoryV, e: AppError) -> bool {
    if !(spec_validate_repo_id(v.id) is Accept) {
        repo_id_verdict_matches(spec_validate_repo_id(v.id), Err(e))
    } else if !(spec_validate_repository(v.path) is Accept) {
        repo_verdict_matches(spec_validate_repository(v.path), Err(e))
    } else if !(spec_validate_password(v.password) is Accept) {
        password_verdict_matches(spec_validate_password(v.password), Err(e))
    } else if spec_blank(v.name) {
        e is EmptyRepositoryName
    } else if v.name.len() > 200 {
        e is RepositoryNameTooLong
    } else {
        false
    }
}

/// Checks a batch of saved repositories record by record, in order, and
/// reports the first record that breaks a rule.
pub fn validate_saved_repositories(repos: &Vec<SavedRepository>) -> (r: Result<(), AppError>)
    ensures
        r is Ok <==> (forall|j: int|
            0 <= j < repos.deep_view().len() ==> spec_entry_ok(#[trigger] repos.deep_view()[j])),
        r matches Err(e) ==> exists|j: int|
            0 <= j < repos.deep_view().len() && entry_error_matches(
                #[trigger] repos.deep_view()[j],
                e,
            ) && (forall|k: int| 0 <= k < j ==> spec_entry_ok(#[trigger] repos.deep_view()[k])),
{
    let ghost dv = repos.deep_view();
    let mut i: usize = 0;
    while i < repos.len()
        invariant
            dv == repos.deep_view(),
            dv.len() == repos@.len(),
            i <= repos@.len(),
            forall|k: int| 0 <= k < i ==> spec_entry_ok(#[trigger] dv[k]),
        decreases repos@.len() - i,
    {
        proof {
            assert(repos@[i as int].deep_view() == dv[i as int]);
        }
        let repo = &repos[i];
        match validate_repo_id(repo.id.as_str()) {
            Err(e) => {
                return Err(e);
            },
            Ok(()) => {},
        }
        match validate_repository_path(repo.path.as_str()) {
            Err(e) => {
                return Err(e);
            },
            Ok(()) => {},
        }
        match validate_password(repo.password.as_str()) {
            Err(e) => {
                return Err(e);
            },
            Ok(()) => {},
        }
        if is_blank(repo.name.as_str()) {
            return Err(AppError::EmptyRepositoryName);
        }
        if repo.name.as_str().unicode_len() > 200 {
            return Err(AppError::RepositoryNameTooLong);
        }
        i += 1;
    }
    Ok(())
}

// ------------------------------------------------------------------
// Configuration updates
// ------------------------------------------------------------------

/// Replaces the saved repositories, leaving the rest of the configuration
/// untouched.
pub fn apply_repositories(config: &mut AppConfig, repositories: Vec<SavedRepository>)
    ensures
        final (config).repositories == repositories,
        final (config).restic_binary_path == old(config).restic_binary_path,
        final (config).setup_completed == old(config).setup_completed,
{
    config.repositories = repositories;
}

/// Removes every saved repository whose id equals `repo_id`, keeping the
/// order of the rest and leaving the other fields untouched.
pub fn remove_repository_from(config: &mut AppConfig, repo_id: &str)
    ensures
        final (config).repositories.deep_view() == old(config).repositories.deep_view().filter(
            |v: SavedRepositoryV| v.id != repo_id@,
        ),
        final (config).restic_binary_path == old(config).restic_binary_path,
        final (config).setup_completed == old(config).setup_completed,
{
    let ghost dv = config.repositories.deep_view();
    let ghost pred = |v: SavedRepositoryV| v.id != repo_id@;
    let mut kept: Vec<SavedRepository> = Vec::new();
    let mut i: usize = 0;
    proof {
        reveal(Seq::filter);
        assert(dv.take(0) =~= Seq::<SavedRepositoryV>::empty());
        assert(dv.take(0).filter(pred) =~= Seq::<SavedRepositoryV>::empty());
    }
    while i < config.repositories.len()
        invariant
            dv == config.repositories.deep_view(),
            dv.len() == config.repositories@.len(),
            i <= config.repositories@.len(),
            pred == (|v: SavedRepositoryV| v.id != repo_id@),
            kept.deep_view() == dv.take(i as int).filter(pred),
        decreases config.repositories@.len() - i,
    {
        let ghost prev = kept.deep_view();
        proof {
            reveal(Seq::filter);
            assert(config.repositories@[i as int].deep_view() == dv[i as int]);
            assert(dv.take(i as int + 1).drop_last() =~= dv.take(i as int));
            assert(dv.take(i as int + 1).last() == dv[i as int]);
        }
        if !str_eq(config.repositories[i].id.as_str(), repo_id) {
            kept.push(config.repositories[i].clone());
            proof {
                reveal(Seq::filter);
                assert(pred(dv[i as int]));
                assert(kept.deep_view() =~= prev.push(dv[i as int]));
                assert(dv.take(i as int + 1).filter(pred) == dv.take(i as int).filter(pred).push(
                    dv[i as int],
                ));
            }
        } else {
            proof {
                reveal(Seq::filter);
                assert(!pred(dv[i as int]));
                assert(dv.take(i as int + 1).filter(pred) == dv.take(i as int).filter(pred));
            }
        }
        i += 1;
    }
    proof {
        assert(dv.take(dv.len() as int) =~= dv);
    }
    config.repositories = kept;
}

/// Persist-side decision of the binary override: stores the path (or clears
/// it) and marks setup as completed, leaving the repositories untouched.
pub fn apply_binary_path(config: &mut AppConfig, path: Option<String>)
    ensures
        final (config).restic_binary_path == path,
        final (config).setup_completed == Some(true),
        final (config).repositories == old(config).repositories,
{
    config.restic_binary_path = path;
    config.setup_completed = Some(true);
}

/// Marks setup as completed, leaving everything else untouched.
pub fn mark_setup_completed_in(config: &mut AppConfig)
    ensures
        final (config).setup_completed == Some(true),
        final (config).repositories == old(config).repositories,
        final (config).restic_binary_path == old(config).restic_binary_path,
{
    config.setup_completed = Some(true);
}

// ------------------------------------------------------------------
// The configuration file's place
// ------------------------------------------------------------------

/// The configuration file inside a given data directory: the application's
/// own folder, then the file name.
pub open spec fn spec_config_file_path(data_dir: Seq<char>) -> Seq<char> {
    data_dir + "/app.restic-restore/config.json"@
}

/// Renders the configuration file's path under `data_dir`.
pub fn config_file_path_for(data_dir: &str) -> (r: String)
    ensures
        r@ == spec_config_file_path(data_dir@),
{
    let mut s = String::from_str(data_dir);
    s.append("/app.restic-restore/config.json");
    s
}

/// Resolves the configuration file's path under the platform's local
/// application-data directory, when the platform reports one.
pub fn get_config_file_path() -> (r: Result<String, String>)
    ensures
        (match r {
            Ok(p) => exists|d: Seq<char>| p@ == spec_config_file_path(d),
            Err(m) => m@ == "Could not find Application Support directory"@,
        }),
{
    match crate::locate::data_local_dir_path() {
        Some(d) => {
            let p = config_file_path_for(d.as_str());
            proof {
                assert(p@ == spec_config_file_path(d@));
            }
            Ok(p)
        },
        None => Err(String::from_str("Could not find Application Support directory")),
    }
}

} // verus!

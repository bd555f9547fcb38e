//! The persisted connections: what is kept of them on disk, and how a
//! change of one connection changes what is kept.

use vstd::prelude::*;
use vstd::string::*;
use crate::error::{AppError, AppErrorView, AppResult};
use crate::models::{S3Connection, S3ConnectionView, S3ConnectionWithSecret};
use crate::state::{put, without, ConnectionMap};

verus! {

/// `std::path::PathBuf`, a path of the file system. Nothing is known of
/// what it holds.
#[verifier::external_type_specification]
#[verifier::external_body]
pub struct ExPathBuf(std::path::PathBuf);

/// Calls `directories::ProjectDirs::from` and copies the `config_dir` of
/// what it gives. The answer comes from the platform and the environment of
/// the process, so nothing is claimed of it.
#[verifier::external_body]
pub(crate) fn project_config_dir(
    qualifier: &str,
    organization: &str,
    application: &str,
) -> (dir: Option<std::path::PathBuf>) {
    directories::ProjectDirs::from(qualifier, organization, application).map(
        |dirs| dirs.config_dir().to_path_buf(),
    )
}

/// The qualifier under which the platform is asked for the configuration
/// directory.
pub const PROJECT_QUALIFIER: &'static str = "dev";

/// The organization under which the platform is asked for the
/// configuration directory.
pub const PROJECT_ORGANIZATION: &'static str = "codycody31";

/// The application under which the platform is asked for the configuration
/// directory.
pub const PROJECT_APPLICATION: &'static str = "baul";

/// The name of the file that holds the persisted connections.
pub const CONFIG_FILE: &'static str = "connections.json";

/// What reading the connections file gave.
pub enum ConfigFile {
    /// There is no file.
    Missing,
    /// The file could not be read; the text is the system's description.
    Unreadable(String),
    /// The file is no well-formed JSON of connections; the text is the
    /// parser's description.
    Malformed(String),
    /// The connections that the file holds.
    Parsed(ConnectionMap<S3Connection>),
}

/// The persisted connections.
pub struct ConfigService;

/// How a missing configuration directory is reported.
pub open spec fn no_config_dir() -> AppErrorView {
    AppErrorView::ConfigError("Could not determine config directory"@)
}

impl ConfigService {
    /// The directory of the configuration, given what the platform names:
    /// that directory, or a configuration error where it names none.
    pub fn config_dir_of(platform_dir: Option<std::path::PathBuf>) -> (dir: AppResult<
        std::path::PathBuf,
    >)
        ensures
            match platform_dir {
                Some(path) => dir == Ok::<std::path::PathBuf, AppError>(path),
                None => dir matches Err(e) && e@ == no_config_dir(),
            },
    {
        match platform_dir {
            Some(path) => Ok(path),
            None => Err(AppError::ConfigError("Could not determine config directory".to_owned())),
        }
    }

    /// The directory of the configuration as the platform names it for this
    /// application. Whether it exists is not asked.
    pub fn get_config_dir() -> (dir: AppResult<std::path::PathBuf>)
        ensures
            dir matches Err(e) ==> e@ == no_config_dir(),
    {
        Self::config_dir_of(
            project_config_dir(PROJECT_QUALIFIER, PROJECT_ORGANIZATION, PROJECT_APPLICATION),
        )
    }

    /// The connections that are persisted. Where there is no file, none
    /// are, which is no failure. A file that cannot be read is an I/O error
    /// and one that cannot be parsed a serialization error.
    pub fn load_connections(file: ConfigFile) -> (loaded: AppResult<ConnectionMap<S3Connection>>)
        ensures
            match file {
                ConfigFile::Missing => loaded matches Ok(connections) && connections.entries()
                    == Seq::<(Seq<char>, S3ConnectionView)>::empty(),
                ConfigFile::Unreadable(description) => loaded matches Err(e) && e@
                    == AppErrorView::IoError(description@),
                ConfigFile::Malformed(description) => loaded matches Err(e) && e@
                    == AppErrorView::SerializationError(description@),
                ConfigFile::Parsed(connections) => loaded == Ok::<
                    ConnectionMap<S3Connection>,
                    AppError,
                >(connections),
            },
    {
        match file {
            ConfigFile::Missing => Ok(ConnectionMap::new()),
            ConfigFile::Unreadable(description) => Err(AppError::IoError(description)),
            ConfigFile::Malformed(description) => Err(AppError::SerializationError(description)),
            ConfigFile::Parsed(connections) => Ok(connections),
        }
    }

    /// Records `connection` among the persisted ones, under its id and
    /// without its secret key.
    pub fn save_connection(
        stored: &mut ConnectionMap<S3Connection>,
        connection: &S3ConnectionWithSecret,
    )
        ensures
            final(stored).entries() == put(
                old(stored).entries(),
                connection@.id,
                connection@.public(),
            ),
    {
        stored.insert(connection.id.clone(), connection.public());
    }

    /// Takes the connection under `connection_id` out of the persisted
    /// ones; an id that is not among them is no failure.
    pub fn delete_connection(stored: &mut ConnectionMap<S3Connection>, connection_id: &str)
        ensures
            final(stored).entries() == without(old(stored).entries(), connection_id@),
    {
        stored.remove(connection_id);
    }
}

} // verus!

//! Managing the registered connections: creating, changing, removing,
//! exporting and importing them.

use vstd::prelude::*;
use vstd::string::*;
use crate::commands::stamps::{fresh_id, unix_now};
use crate::error::{AppError, AppErrorView, AppResult};
use crate::models::{
    BucketInfo, S3Connection, S3ConnectionView, S3ConnectionWithSecret,
    S3ConnectionWithSecretView, S3Provider,
};
use crate::state::{has_key, lookup, put, without, AppState};
use crate::text::{join_text, decimal, decimal_text};

verus! {

/// The only version of the export format that is read.
pub const EXPORT_VERSION: u32 = 1;

/// A connection as it is exported: without id, secret and timestamps.
#[derive(Debug, PartialEq, Eq)]
pub struct ExportedConnection {
    pub name: String,
    pub provider: S3Provider,
    pub endpoint: String,
    pub region: String,
    pub access_key: String,
    pub use_ssl: bool,
    pub use_path_style: bool,
}

/// The mathematical value of an [`ExportedConnection`].
pub struct ExportedConnectionView {
    pub name: Seq<char>,
    pub provider: S3Provider,
    pub endpoint: Seq<char>,
    pub region: Seq<char>,
    pub access_key: Seq<char>,
    pub use_ssl: bool,
    pub use_path_style: bool,
}

impl View for ExportedConnection {
    type V = ExportedConnectionView;

    open spec fn view(&self) -> ExportedConnectionView {
        ExportedConnectionView {
            name: self.name@,
            provider: self.provider,
            endpoint: self.endpoint@,
            region: self.region@,
            access_key: self.access_key@,
            use_ssl: self.use_ssl,
            use_path_style: self.use_path_style,
        }
    }
}

impl DeepView for ExportedConnection {
    type V = ExportedConnectionView;

    open spec fn deep_view(&self) -> ExportedConnectionView {
        self@
    }
}

/// A set of exported connections under a format version.
#[derive(Debug, PartialEq, Eq)]
pub struct ConnectionExport {
    pub version: u32,
    pub connections: Vec<ExportedConnection>,
}

/// The mathematical value of a [`ConnectionExport`].
pub struct ConnectionExportView {
    pub version: u32,
    pub connections: Seq<ExportedConnectionView>,
}

impl View for ConnectionExport {
    type V = ConnectionExportView;

    open spec fn view(&self) -> ConnectionExportView {
        ConnectionExportView {
            version: self.version,
            connections: self.connections.deep_view(),
        }
    }
}

impl DeepView for ConnectionExport {
    type V = ConnectionExportView;

    open spec fn deep_view(&self) -> ConnectionExportView {
        self@
    }
}

/// What to change of a connection; a field that is `None` stays as it is.
#[derive(Debug, PartialEq, Eq)]
pub struct ConnectionUpdate {
    pub name: Option<String>,
    pub provider: Option<S3Provider>,
    pub endpoint: Option<String>,
    pub region: Option<String>,
    pub access_key: Option<String>,
    pub secret_key: Option<String>,
    pub use_ssl: Option<bool>,
    pub use_path_style: Option<bool>,
}

/// The mathematical value of a [`ConnectionUpdate`].
pub struct ConnectionUpdateView {
    pub name: Option<Seq<char>>,
    pub provider: Option<S3Provider>,
    pub endpoint: Option<Seq<char>>,
    pub region: Option<Seq<char>>,
    pub access_key: Option<Seq<char>>,
    pub secret_key: Option<Seq<char>>,
    pub use_ssl: Option<bool>,
    pub use_path_style: Option<bool>,
}

impl View for ConnectionUpdate {
    type V = ConnectionUpdateView;

    open spec fn view(&self) -> ConnectionUpdateView {
        ConnectionUpdateView {
            name: self.name.deep_view(),
            provider: self.provider,
            endpoint: self.endpoint.deep_view(),
            region: self.region.deep_view(),
            access_key: self.access_key.deep_view(),
            secret_key: self.secret_key.deep_view(),
            use_ssl: self.use_ssl,
            use_path_style: self.use_path_style,
        }
    }
}

/// `new` where there is one, else `old`.
pub open spec fn replaced<T>(old: T, new: Option<T>) -> T {
    match new {
        Some(value) => value,
        None => old,
    }
}

impl ConnectionUpdateView {
    /// The connection after the first part of the update: name, provider,
    /// endpoint, region, access key and secret key.
    pub open spec fn staged(self, conn: S3ConnectionWithSecretView) -> S3ConnectionWithSecretView {
        S3ConnectionWithSecretView {
            name: replaced(conn.name, self.name),
            provider: replaced(conn.provider, self.provider),
            endpoint: replaced(conn.endpoint, self.endpoint),
            region: replaced(conn.region, self.region),
            access_key: replaced(conn.access_key, self.access_key),
            secret_key: replaced(conn.secret_key, self.secret_key),
            ..conn
        }
    }

    /// The connection after the whole update, made at time `now`.
    pub open spec fn applied(self, conn: S3ConnectionWithSecretView, now: i64) -> S3ConnectionWithSecretView {
        S3ConnectionWithSecretView {
            use_ssl: replaced(conn.use_ssl, self.use_ssl),
            use_path_style: replaced(conn.use_path_style, self.use_path_style),
            updated_at: now,
            ..self.staged(conn)
        }
    }
}

fn replace_text(old: String, new: &Option<String>) -> (out: String)
    ensures
        out@ == replaced(old@, new.deep_view()),
{
    match new {
        Some(value) => value.clone(),
        None => old,
    }
}

impl ConnectionUpdate {
    fn stage(&self, conn: S3ConnectionWithSecret) -> (out: S3ConnectionWithSecret)
        ensures
            out@ == self@.staged(conn@),
    {
        S3ConnectionWithSecret {
            id: conn.id,
            name: replace_text(conn.name, &self.name),
            provider: match self.provider {
                Some(provider) => provider,
                None => conn.provider,
            },
            endpoint: replace_text(conn.endpoint, &self.endpoint),
            region: replace_text(conn.region, &self.region),
            access_key: replace_text(conn.access_key, &self.access_key),
            secret_key: replace_text(conn.secret_key, &self.secret_key),
            use_ssl: conn.use_ssl,
            use_path_style: conn.use_path_style,
            created_at: conn.created_at,
            updated_at: conn.updated_at,
        }
    }

    fn apply(&self, conn: S3ConnectionWithSecret, now: i64) -> (out: S3ConnectionWithSecret)
        ensures
            out@ == self@.applied(conn@, now),
    {
        let staged = self.stage(conn);
        S3ConnectionWithSecret {
            id: staged.id,
            name: staged.name,
            provider: staged.provider,
            endpoint: staged.endpoint,
            region: staged.region,
            access_key: staged.access_key,
            secret_key: staged.secret_key,
            use_ssl: match self.use_ssl {
                Some(flag) => flag,
                None => staged.use_ssl,
            },
            use_path_style: match self.use_path_style {
                Some(flag) => flag,
                None => staged.use_path_style,
            },
            created_at: staged.created_at,
            updated_at: now,
        }
    }
}

/// The connection record that belongs to the given id, time and settings:
/// created and updated at `now`.
pub open spec fn connection_record(
    id: Seq<char>,
    now: i64,
    settings: ExportedConnectionView,
    secret_key: Seq<char>,
) -> S3ConnectionWithSecretView {
    S3ConnectionWithSecretView {
        id,
        name: settings.name,
        provider: settings.provider,
        endpoint: settings.endpoint,
        region: settings.region,
        access_key: settings.access_key,
        secret_key,
        use_ssl: settings.use_ssl,
        use_path_style: settings.use_path_style,
        created_at: now,
        updated_at: now,
    }
}

impl S3ConnectionWithSecret {
    /// Builds the record of a connection that comes into being at `now`
    /// under `id`.
    pub fn assemble(
        id: String,
        now: i64,
        settings: ExportedConnection,
        secret_key: String,
    ) -> (conn: Self)
        ensures
            conn@ == connection_record(id@, now, settings@, secret_key@),
    {
        S3ConnectionWithSecret {
            id,
            name: settings.name,
            provider: settings.provider,
            endpoint: settings.endpoint,
            region: settings.region,
            access_key: settings.access_key,
            secret_key,
            use_ssl: settings.use_ssl,
            use_path_style: settings.use_path_style,
            created_at: now,
            updated_at: now,
        }
    }

    /// What is exported of the connection.
    pub fn exported(&self) -> (out: ExportedConnection)
        ensures
            out@ == exported_of(self@),
    {
        ExportedConnection {
            name: self.name.clone(),
            provider: self.provider,
            endpoint: self.endpoint.clone(),
            region: self.region.clone(),
            access_key: self.access_key.clone(),
            use_ssl: self.use_ssl,
            use_path_style: self.use_path_style,
        }
    }
}

/// What is exported of a connection: its settings, without id, secret key
/// and timestamps.
pub open spec fn exported_of(conn: S3ConnectionWithSecretView) -> ExportedConnectionView {
    ExportedConnectionView {
        name: conn.name,
        provider: conn.provider,
        endpoint: conn.endpoint,
        region: conn.region,
        access_key: conn.access_key,
        use_ssl: conn.use_ssl,
        use_path_style: conn.use_path_style,
    }
}

/// A new connection with the given settings: under a fresh id, created now.
pub fn new_connection(
    name: String,
    provider: S3Provider,
    endpoint: String,
    region: String,
    access_key: String,
    secret_key: String,
    use_ssl: bool,
    use_path_style: bool,
) -> (conn: S3ConnectionWithSecret)
    ensures
        conn@ == connection_record(
            conn@.id,
            conn@.created_at,
            ExportedConnectionView {
                name: name@,
                provider,
                endpoint: endpoint@,
                region: region@,
                access_key: access_key@,
                use_ssl,
                use_path_style,
            },
            secret_key@,
        ),
{
    let id: String = fresh_id();
    let now: i64 = unix_now();
    S3ConnectionWithSecret::assemble(
        id,
        now,
        ExportedConnection { name, provider, endpoint, region, access_key, use_ssl, use_path_style },
        secret_key,
    )
}

/// Registers a new connection once its secret is in the secret store.
/// `secret_stored` is what storing the secret under the connection's id
/// gave: on a failure nothing is registered and the failure is handed on.
pub fn create_connection(
    state: &mut AppState,
    connection: S3ConnectionWithSecret,
    secret_stored: AppResult<()>,
) -> (created: AppResult<S3ConnectionWithSecret>)
    ensures
        match secret_stored {
            Err(error) => {
                &&& created == Err::<S3ConnectionWithSecret, AppError>(error)
                &&& final(state).connections.entries() == old(state).connections.entries()
            },
            Ok(_) => {
                &&& created matches Ok(registered) && registered@ == connection@
                &&& final(state).connections.entries() == put(
                    old(state).connections.entries(),
                    connection@.id,
                    connection@,
                )
            },
        },
{
    match secret_stored {
        Err(error) => Err(error),
        Ok(_) => {
            state.connections.insert(connection.id.clone(), connection.clone());
            Ok(connection)
        },
    }
}

/// The records of `entries`, in their order, without the secret keys.
pub open spec fn public_records(
    entries: Seq<(Seq<char>, S3ConnectionWithSecretView)>,
) -> Seq<S3ConnectionView> {
    Seq::new(entries.len(), |i: int| entries[i].1.public())
}

/// Every registered connection, in the order of registration, without its
/// secret key.
pub fn list_connections(state: &AppState) -> (records: Vec<S3Connection>)
    ensures
        records.deep_view() == public_records(state.connections.entries()),
{
    let mut records: Vec<S3Connection> = Vec::new();
    let n: usize = state.connections.len();
    let mut i: usize = 0;
    while i < n
        invariant
            n == state.connections.entries().len(),
            i <= n,
            records.deep_view() == public_records(state.connections.entries()).take(i as int),
        decreases n - i,
    {
        let entry = state.connections.entry_at(i);
        let ghost before = records.deep_view();
        let record = entry.1.public();
        records.push(record);
        assert(records.deep_view() =~= before.push(record@));
        assert(public_records(state.connections.entries()).take(i + 1) =~= public_records(
            state.connections.entries(),
        ).take(i as int).push(record@));
        i += 1;
    }
    assert(public_records(state.connections.entries()).take(n as int) =~= public_records(
        state.connections.entries(),
    ));
    records
}

/// The connection that is registered under `connection_id`, with its secret
/// key: what an operation on a backend starts from.
pub fn find_connection(state: &AppState, connection_id: &str) -> (found: AppResult<
    S3ConnectionWithSecret,
>)
    ensures
        match lookup(state.connections.entries(), connection_id@) {
            Some(conn) => found matches Ok(c) && c@ == conn,
            None => found matches Err(e) && e@ == AppErrorView::ConnectionNotFound(connection_id@),
        },
{
    match state.connections.get(connection_id) {
        Some(conn) => Ok(conn.clone()),
        None => Err(AppError::ConnectionNotFound(connection_id.to_owned())),
    }
}

/// The connection that is registered under `connection_id`, without its
/// secret key.
pub fn get_connection(state: &AppState, connection_id: &str) -> (found: AppResult<S3Connection>)
    ensures
        match lookup(state.connections.entries(), connection_id@) {
            Some(conn) => found matches Ok(record) && record@ == conn.public(),
            None => found matches Err(e) && e@ == AppErrorView::ConnectionNotFound(connection_id@),
        },
{
    match state.connections.get(connection_id) {
        Some(conn) => Ok(conn.public()),
        None => Err(AppError::ConnectionNotFound(connection_id.to_owned())),
    }
}

/// The first part of an update: name, provider, endpoint, region, access key
/// and secret key are written into the registry. Where the update names a
/// secret key it is handed back: it has to go into the secret store before
/// the update is completed, and if that fails the registry stays as it is
/// now.
pub fn stage_update(
    state: &mut AppState,
    connection_id: &str,
    update: &ConnectionUpdate,
) -> (staged: AppResult<Option<String>>)
    ensures
        match lookup(old(state).connections.entries(), connection_id@) {
            Some(conn) => {
                &&& staged matches Ok(secret) && secret.deep_view() == update@.secret_key
                &&& final(state).connections.entries() == put(
                    old(state).connections.entries(),
                    connection_id@,
                    update@.staged(conn),
                )
            },
            None => {
                &&& staged matches Err(e) && e@ == AppErrorView::ConnectionNotFound(connection_id@)
                &&& final(state).connections.entries() == old(state).connections.entries()
            },
        },
{
    let staged = match state.connections.get(connection_id) {
        None => {
            return Err(AppError::ConnectionNotFound(connection_id.to_owned()));
        },
        Some(conn) => update.stage(conn.clone()),
    };
    state.connections.insert(connection_id.to_owned(), staged);
    Ok(update.secret_key.clone())
}

/// Completes an update at time `now`: every field that the update names is
/// set, and the time of the update is recorded.
pub fn update_connection_at(
    state: &mut AppState,
    connection_id: &str,
    update: &ConnectionUpdate,
    now: i64,
) -> (updated: AppResult<S3ConnectionWithSecret>)
    ensures
        match lookup(old(state).connections.entries(), connection_id@) {
            Some(conn) => {
                &&& updated matches Ok(c) && c@ == update@.applied(conn, now)
                &&& final(state).connections.entries() == put(
                    old(state).connections.entries(),
                    connection_id@,
                    update@.applied(conn, now),
                )
            },
            None => {
                &&& updated matches Err(e) && e@ == AppErrorView::ConnectionNotFound(connection_id@)
                &&& final(state).connections.entries() == old(state).connections.entries()
            },
        },
{
    let applied = match state.connections.get(connection_id) {
        None => {
            return Err(AppError::ConnectionNotFound(connection_id.to_owned()));
        },
        Some(conn) => update.apply(conn.clone(), now),
    };
    state.connections.insert(connection_id.to_owned(), applied.clone());
    Ok(applied)
}

/// Completes an update now.
pub fn update_connection(
    state: &mut AppState,
    connection_id: &str,
    update: &ConnectionUpdate,
) -> (updated: AppResult<S3ConnectionWithSecret>)
    ensures
        match lookup(old(state).connections.entries(), connection_id@) {
            Some(conn) => {
                &&& updated matches Ok(c)
                &&& c@ == update@.applied(conn, c@.updated_at)
                &&& final(state).connections.entries() == put(
                    old(state).connections.entries(),
                    connection_id@,
                    c@,
                )
            },
            None => {
                &&& updated matches Err(e) && e@ == AppErrorView::ConnectionNotFound(connection_id@)
                &&& final(state).connections.entries() == old(state).connections.entries()
            },
        },
{
    let now: i64 = unix_now();
    update_connection_at(state, connection_id, update, now)
}

/// Takes the connection under `connection_id` out of the registry; an id
/// that is not registered is no failure. Says whether it was registered.
pub fn delete_connection(state: &mut AppState, connection_id: &str) -> (was_registered: bool)
    ensures
        was_registered == has_key(old(state).connections.entries(), connection_id@),
        final(state).connections.entries() == without(
            old(state).connections.entries(),
            connection_id@,
        ),
{
    state.connections.remove(connection_id).is_some()
}

/// The connection that a trial of the given settings runs under: it is
/// registered nowhere, is called `test`, and carries no timestamps.
pub fn test_connection(
    endpoint: String,
    region: String,
    access_key: String,
    secret_key: String,
    use_ssl: bool,
    use_path_style: bool,
    provider: S3Provider,
) -> (probe: S3ConnectionWithSecret)
    ensures
        probe@ == (S3ConnectionWithSecretView {
            id: "test"@,
            name: "test"@,
            provider,
            endpoint: endpoint@,
            region: region@,
            access_key: access_key@,
            secret_key: secret_key@,
            use_ssl,
            use_path_style,
            created_at: 0,
            updated_at: 0,
        }),
{
    S3ConnectionWithSecret {
        id: "test".to_owned(),
        name: "test".to_owned(),
        provider,
        endpoint,
        region,
        access_key,
        secret_key,
        use_ssl,
        use_path_style,
        created_at: 0,
        updated_at: 0,
    }
}

/// What a trial of a connection reports, given what the listing of its
/// buckets gave: `true` when the listing succeeded, however many buckets
/// it lists, and the listing's failure when it failed. A trial never
/// reports `false`, and it registers and stores nothing.
pub fn trial_outcome(listing: AppResult<Vec<BucketInfo>>) -> (outcome: AppResult<bool>)
    ensures
        match listing {
            Ok(_) => outcome == Ok::<bool, AppError>(true),
            Err(error) => outcome == Err::<bool, AppError>(error),
        },
{
    match listing {
        Ok(_) => Ok(true),
        Err(error) => Err(error),
    }
}

/// What is exported of `entries`, in their order.
pub open spec fn exported_records(
    entries: Seq<(Seq<char>, S3ConnectionWithSecretView)>,
) -> Seq<ExportedConnectionView> {
    Seq::new(entries.len(), |i: int| exported_of(entries[i].1))
}

/// Every registered connection in the export format, under version 1.
pub fn export_connections(state: &AppState) -> (export: ConnectionExport)
    ensures
        export@.version == 1,
        export@.connections == exported_records(state.connections.entries()),
{
    let mut connections: Vec<ExportedConnection> = Vec::new();
    let n: usize = state.connections.len();
    let mut i: usize = 0;
    while i < n
        invariant
            n == state.connections.entries().len(),
            i <= n,
            connections.deep_view() == exported_records(state.connections.entries()).take(i as int),
        decreases n - i,
    {
        let entry = state.connections.entry_at(i);
        let ghost before = connections.deep_view();
        let exported = entry.1.exported();
        connections.push(exported);
        assert(connections.deep_view() =~= before.push(exported@));
        assert(exported_records(state.connections.entries()).take(i + 1) =~= exported_records(
            state.connections.entries(),
        ).take(i as int).push(exported@));
        i += 1;
    }
    assert(exported_records(state.connections.entries()).take(n as int) =~= exported_records(
        state.connections.entries(),
    ));
    ConnectionExport { version: EXPORT_VERSION, connections }
}

/// Registers one imported connection under `id` at time `now`. Its secret
/// key is empty until the user sets one.
pub fn import_connection_as(
    state: &mut AppState,
    exported: ExportedConnection,
    id: String,
    now: i64,
) -> (imported: S3ConnectionWithSecret)
    ensures
        imported@ == connection_record(id@, now, exported@, Seq::empty()),
        final(state).connections.entries() == put(
            old(state).connections.entries(),
            id@,
            imported@,
        ),
{
    let connection = S3ConnectionWithSecret::assemble(id, now, exported, String::new());
    state.connections.insert(connection.id.clone(), connection.clone());
    connection
}

/// The registry after each of `records` is registered under its id, in
/// order.
pub open spec fn register_all(
    entries: Seq<(Seq<char>, S3ConnectionWithSecretView)>,
    records: Seq<S3ConnectionWithSecretView>,
) -> Seq<(Seq<char>, S3ConnectionWithSecretView)>
    decreases records.len(),
{
    if records.len() == 0 {
        entries
    } else {
        put(register_all(entries, records.drop_last()), records.last().id, records.last())
    }
}

/// How an export of a version other than 1 is refused.
pub open spec fn unsupported_version(version: u32) -> AppErrorView {
    AppErrorView::BackendError("Unsupported export version: "@ + decimal(version as nat))
}

/// Whether `imported` is what an import of `exported` registers: one
/// connection for each exported one, in order, with its settings, an empty
/// secret key and one time of creation and update.
pub open spec fn imports_of(
    imported: Seq<S3ConnectionWithSecretView>,
    exported: Seq<ExportedConnectionView>,
) -> bool {
    &&& imported.len() == exported.len()
    &&& forall|i: int|
        0 <= i < imported.len() ==> #[trigger] imported[i] == connection_record(
            imported[i].id,
            imported[i].created_at,
            exported[i],
            Seq::empty(),
        )
}

/// Imports an export. `parsed` is what parsing the export gave: an export
/// that is no well-formed JSON of the export format is a serialization
/// error, and one of a version other than 1 is refused; in both cases
/// nothing is registered. Otherwise every exported connection is registered
/// under a fresh id, created now, and the new connections are handed back
/// in the order of the export.
pub fn import_connections(
    state: &mut AppState,
    parsed: Result<ConnectionExport, String>,
) -> (imported: AppResult<Vec<S3ConnectionWithSecret>>)
    ensures
        match parsed {
            Err(description) => {
                &&& imported matches Err(e) && e@ == AppErrorView::SerializationError(description@)
                &&& final(state).connections.entries() == old(state).connections.entries()
            },
            Ok(import) => if import@.version != 1 {
                &&& imported matches Err(e) && e@ == unsupported_version(import@.version)
                &&& final(state).connections.entries() == old(state).connections.entries()
            } else {
                &&& imported matches Ok(connections)
                &&& imports_of(connections.deep_view(), import@.connections)
                &&& final(state).connections.entries() == register_all(
                    old(state).connections.entries(),
                    connections.deep_view(),
                )
            },
        },
{
    let import = match parsed {
        Err(description) => {
            return Err(AppError::SerializationError(description));
        },
        Ok(import) => import,
    };
    let ConnectionExport { version, connections } = import;
    if version != EXPORT_VERSION {
        let description = join_text("Unsupported export version: ", decimal_text(version as u64).as_str());
        return Err(AppError::BackendError(description));
    }
    let ghost exported = connections.deep_view();
    let ghost before = state.connections.entries();
    let mut imported: Vec<S3ConnectionWithSecret> = Vec::new();
    assert(imported.deep_view() =~= Seq::empty());
    for one in it: connections
        invariant
            exported == connections.deep_view(),
            before == old(state).connections.entries(),
            it.seq().len() == exported.len(),
            forall|j: int| 0 <= j < exported.len() ==> (#[trigger] it.seq()[j])@ == exported[j],
            imports_of(imported.deep_view(), exported.take(it.index())),
            state.connections.entries() == register_all(before, imported.deep_view()),
    {
        let id: String = fresh_id();
        let now: i64 = unix_now();
        let ghost so_far = imported.deep_view();
        let connection = import_connection_as(state, one, id, now);
        imported.push(connection);
        proof {
            let grown = imported.deep_view();
            assert(grown =~= so_far.push(connection@));
            assert(grown.drop_last() =~= so_far);
            assert(exported.take(it.index() + 1) =~= exported.take(it.index()).push(one@));
        }
    }
    assert(exported.take(exported.len() as int) =~= exported);
    Ok(imported)
}

/// Puts a saved connection back into the registry under `key`, with the
/// secret that the secret store gave for it. A secret that could not be read
/// counts as empty: the connection is registered all the same.
pub fn restore_connection(
    state: &mut AppState,
    key: String,
    record: S3Connection,
    secret: AppResult<String>,
)
    ensures
        final(state).connections.entries() == put(
            old(state).connections.entries(),
            key@,
            record@.with_secret(
                match secret {
                    Ok(text) => text@,
                    Err(_) => Seq::empty(),
                },
            ),
        ),
{
    let secret_key = match secret {
        Ok(text) => text,
        Err(_) => String::new(),
    };
    state.connections.insert(key, record.with_secret(secret_key));
}

} // verus!

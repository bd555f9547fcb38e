pub mod connection;
pub mod object;
pub mod stamps;

pub use connection::{
    create_connection, delete_connection, export_connections, find_connection, get_connection,
    import_connection_as, import_connections, list_connections, new_connection,
    restore_connection, stage_update, test_connection, trial_outcome, update_connection,
    update_connection_at, ConnectionExport, ConnectionUpdate, ExportedConnection,
};
pub use object::{
    delete_objects, download_file, get_object_text, get_presigned_url, upload_file, DeleteStep,
    UploadPlan,
};

use vstd::prelude::*;

verus! {

/// The error value the library hands back: a stable machine-readable code and a
/// message that is safe to show to the user.
#[derive(Debug, Clone)]
pub struct AppError {
    pub code: String,
    pub message: String,
}

impl AppError {
    /// Builds an error from its code and message.
    pub fn new(code: &str, message: &str) -> (error: AppError)
        ensures
            error.code@ == code@,
            error.message@ == message@,
    {
        AppError { code: code.to_owned(), message: message.to_owned() }
    }

    /// The error reported when the local database cannot be opened.
    pub fn database_open() -> (error: AppError)
        ensures
            error.code@ == "database_open_failed"@,
            error.message@ == "Unable to open the local database."@,
    {
        Self::new("database_open_failed", "Unable to open the local database.")
    }

    /// The error reported for any failed database statement; it reveals no SQL.
    pub fn database_operation() -> (error: AppError)
        ensures
            error.code@ == "database_operation_failed"@,
            error.message@ == "The database operation failed."@,
    {
        Self::new("database_operation_failed", "The database operation failed.")
    }

    /// The error reported when the library cannot be backed up before an update.
    pub fn backup_failed() -> (error: AppError)
        ensures
            error.code@ == "backup_failed"@,
            error.message@ == "Unable to protect the library before updating."@,
    {
        Self::new("backup_failed", "Unable to protect the library before updating.")
    }

    /// The text shown for this error: its message alone.
    pub fn to_string(&self) -> (text: String)
        ensures
            text@ == self.message@,
    {
        self.message.clone()
    }
}

} // verus!

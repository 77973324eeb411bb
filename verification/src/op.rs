//! The catalogue of supported operations.
//!
//! Each operation names one action of the record-management shell.  The
//! catalogue fixes, per operation, the collaborator script that carries it
//! out, the number of positional arguments that script expects, and the
//! prefix under which a failed run is reported.

use vstd::prelude::*;

verus! {

/// One named action of the record-management shell.
#[derive(Clone, Copy, PartialEq, Eq, Structural, Debug)]
pub enum Operation {
    /// Validate a username and password.
    Login,
    /// Create a baptismal record.
    CreateRecord,
    /// List every baptismal record.
    ListRecords,
    /// Update one baptismal record.
    UpdateRecord,
    /// Delete one baptismal record.
    DeleteRecord,
    /// Create a parish staff entry.
    CreateStaff,
    /// List every parish staff entry.
    ListStaff,
    /// Update one parish staff entry.
    UpdateStaff,
    /// Delete one parish staff entry.
    DeleteStaff,
    /// Retrieve the audit log.
    ListAuditLogs,
    /// List every user account.
    ListUsers,
    /// Write a database backup.
    BackupDatabase,
    /// Restore the database from a backup.
    ImportDatabase,
}

/// The file name of the collaborator script that carries out `op`.
pub open spec fn script_name_spec(op: Operation) -> Seq<char> {
    match op {
        Operation::Login => "validateUser.js"@,
        Operation::CreateRecord => "createRecord.js"@,
        Operation::ListRecords => "getRecords.js"@,
        Operation::UpdateRecord => "updateRecord.js"@,
        Operation::DeleteRecord => "deleteRecord.js"@,
        Operation::CreateStaff => "createParishStaff.js"@,
        Operation::ListStaff => "getParishStaff.js"@,
        Operation::UpdateStaff => "updateParishStaff.js"@,
        Operation::DeleteStaff => "deleteParishStaff.js"@,
        Operation::ListAuditLogs => "getAuditLogs.js"@,
        Operation::ListUsers => "getAllUsers.js"@,
        Operation::BackupDatabase => "backupDatabase.js"@,
        Operation::ImportDatabase => "importDatabase.js"@,
    }
}

/// The number of positional arguments the script of `op` expects, which is
/// the same however many optional parameters the caller supplied.
pub open spec fn arity_spec(op: Operation) -> nat {
    match op {
        Operation::Login => 2,
        Operation::CreateRecord => 8,
        Operation::ListRecords => 0,
        Operation::UpdateRecord => 9,
        Operation::DeleteRecord => 2,
        Operation::CreateStaff => 4,
        Operation::ListStaff => 0,
        Operation::UpdateStaff => 5,
        Operation::DeleteStaff => 2,
        Operation::ListAuditLogs => 0,
        Operation::ListUsers => 0,
        Operation::BackupDatabase => 2,
        Operation::ImportDatabase => 2,
    }
}

/// The prefix under which a run of `op` that exited with a failure status
/// is reported.
pub open spec fn error_prefix_spec(op: Operation) -> Seq<char> {
    match op {
        Operation::Login => "Authentication failed: "@,
        Operation::CreateRecord => "Failed to create record: "@,
        Operation::ListRecords => "Failed to fetch records: "@,
        Operation::UpdateRecord => "Failed to update record: "@,
        Operation::DeleteRecord => "Failed to delete record: "@,
        Operation::CreateStaff => "Failed to create parish staff: "@,
        Operation::ListStaff => "Failed to fetch parish staff: "@,
        Operation::UpdateStaff => "Failed to update parish staff: "@,
        Operation::DeleteStaff => "Failed to delete parish staff: "@,
        Operation::ListAuditLogs => "Failed to fetch audit logs: "@,
        Operation::ListUsers => "Failed to fetch users: "@,
        Operation::BackupDatabase => "Backup failed: "@,
        Operation::ImportDatabase => "Import failed: "@,
    }
}

/// The prefix under which a run of `op` that could not be launched at all
/// is reported.
pub open spec fn spawn_prefix_spec(op: Operation) -> Seq<char> {
    match op {
        Operation::BackupDatabase => "Failed to execute backup command: "@,
        Operation::ImportDatabase => "Failed to execute import command: "@,
        _ => "Failed to execute node process: "@,
    }
}

/// The interpreter every collaborator script runs under.
pub open spec fn interpreter_spec() -> Seq<char> {
    "node"@
}

impl Operation {
    /// The file name of the collaborator script that carries out this
    /// operation.
    pub fn script_name(self) -> (r: &'static str)
        ensures
            r@ == script_name_spec(self),
    {
        match self {
            Operation::Login => "validateUser.js",
            Operation::CreateRecord => "createRecord.js",
            Operation::ListRecords => "getRecords.js",
            Operation::UpdateRecord => "updateRecord.js",
            Operation::DeleteRecord => "deleteRecord.js",
            Operation::CreateStaff => "createParishStaff.js",
            Operation::ListStaff => "getParishStaff.js",
            Operation::UpdateStaff => "updateParishStaff.js",
            Operation::DeleteStaff => "deleteParishStaff.js",
            Operation::ListAuditLogs => "getAuditLogs.js",
            Operation::ListUsers => "getAllUsers.js",
            Operation::BackupDatabase => "backupDatabase.js",
            Operation::ImportDatabase => "importDatabase.js",
        }
    }

    /// The number of positional arguments the script of this operation
    /// expects.
    pub fn arity(self) -> (r: usize)
        ensures
            r == arity_spec(self),
    {
        match self {
            Operation::Login => 2,
            Operation::CreateRecord => 8,
            Operation::ListRecords => 0,
            Operation::UpdateRecord => 9,
            Operation::DeleteRecord => 2,
            Operation::CreateStaff => 4,
            Operation::ListStaff => 0,
            Operation::UpdateStaff => 5,
            Operation::DeleteStaff => 2,
            Operation::ListAuditLogs => 0,
            Operation::ListUsers => 0,
            Operation::BackupDatabase => 2,
            Operation::ImportDatabase => 2,
        }
    }

    /// The prefix under which a failed run of this operation is reported.
    pub fn error_prefix(self) -> (r: &'static str)
        ensures
            r@ == error_prefix_spec(self),
    {
        match self {
            Operation::Login => "Authentication failed: ",
            Operation::CreateRecord => "Failed to create record: ",
            Operation::ListRecords => "Failed to fetch records: ",
            Operation::UpdateRecord => "Failed to update record: ",
            Operation::DeleteRecord => "Failed to delete record: ",
            Operation::CreateStaff => "Failed to create parish staff: ",
            Operation::ListStaff => "Failed to fetch parish staff: ",
            Operation::UpdateStaff => "Failed to update parish staff: ",
            Operation::DeleteStaff => "Failed to delete parish staff: ",
            Operation::ListAuditLogs => "Failed to fetch audit logs: ",
            Operation::ListUsers => "Failed to fetch users: ",
            Operation::BackupDatabase => "Backup failed: ",
            Operation::ImportDatabase => "Import failed: ",
        }
    }

    /// The prefix under which a launch failure of this operation is
    /// reported.
    pub fn spawn_prefix(self) -> (r: &'static str)
        ensures
            r@ == spawn_prefix_spec(self),
    {
        match self {
            Operation::BackupDatabase => "Failed to execute backup command: ",
            Operation::ImportDatabase => "Failed to execute import command: ",
            _ => "Failed to execute node process: ",
        }
    }
}

/// The interpreter every collaborator script runs under.
pub fn interpreter() -> (r: &'static str)
    ensures
        r@ == interpreter_spec(),
{
    "node"
}

} // verus!

//! Typed invocation requests and their positional argument encoding.
//!
//! A request carries the caller-supplied values for one operation.  The
//! encoder flattens it into the ordered argument vector the collaborator
//! script expects: strings are passed through, an omitted optional value
//! becomes an empty string (never a missing position), and an integer
//! becomes its canonical base-10 text.

use vstd::prelude::*;
use crate::numeral::{decimal_text, i32_to_decimal};
use crate::op::{arity_spec, Operation};

verus! {

/// The caller-supplied argument values for one operation.
pub enum Request {
    /// Validate a username and password.
    Login { username: String, password: String },
    /// Create a baptismal record.
    CreateRecord {
        child_name: String,
        father_name: Option<String>,
        mother_name: Option<String>,
        birth_date: String,
        birth_place: String,
        baptism_date: String,
        priest_name: String,
        created_by: i32,
    },
    /// List every baptismal record.
    ListRecords,
    /// Update one baptismal record.
    UpdateRecord {
        record_id: i32,
        child_name: String,
        father_name: Option<String>,
        mother_name: Option<String>,
        birth_date: String,
        birth_place: String,
        baptism_date: String,
        priest_name: String,
        updated_by: i32,
    },
    /// Delete one baptismal record.
    DeleteRecord { record_id: i32, deleted_by: i32 },
    /// Create a parish staff entry.
    CreateStaff { name: String, title: Option<String>, role: Option<String>, created_by: i32 },
    /// List every parish staff entry.
    ListStaff,
    /// Update one parish staff entry.
    UpdateStaff {
        staff_id: i32,
        name: String,
        title: Option<String>,
        role: Option<String>,
        updated_by: i32,
    },
    /// Delete one parish staff entry.
    DeleteStaff { staff_id: i32, deleted_by: i32 },
    /// Retrieve the audit log.
    ListAuditLogs,
    /// List every user account.
    ListUsers,
    /// Write a database backup.
    BackupDatabase { backup_path: String, user_id: i32 },
    /// Restore the database from a backup.
    ImportDatabase { backup_path: String, user_id: i32 },
}

/// The operation a request invokes.
pub open spec fn operation_of(req: Request) -> Operation {
    match req {
        Request::Login { .. } => Operation::Login,
        Request::CreateRecord { .. } => Operation::CreateRecord,
        Request::ListRecords => Operation::ListRecords,
        Request::UpdateRecord { .. } => Operation::UpdateRecord,
        Request::DeleteRecord { .. } => Operation::DeleteRecord,
        Request::CreateStaff { .. } => Operation::CreateStaff,
        Request::ListStaff => Operation::ListStaff,
        Request::UpdateStaff { .. } => Operation::UpdateStaff,
        Request::DeleteStaff { .. } => Operation::DeleteStaff,
        Request::ListAuditLogs => Operation::ListAuditLogs,
        Request::ListUsers => Operation::ListUsers,
        Request::BackupDatabase { .. } => Operation::BackupDatabase,
        Request::ImportDatabase { .. } => Operation::ImportDatabase,
    }
}

/// The text an optional parameter is encoded as: its value when present,
/// the empty string when omitted.
pub open spec fn opt_text(o: Option<String>) -> Seq<char> {
    match o {
        Option::Some(s) => s@,
        Option::None => Seq::empty(),
    }
}

/// The ordered argument vector a request is encoded as, one entry per
/// parameter slot of its operation.
pub open spec fn encoded_args(req: Request) -> Seq<Seq<char>> {
    match req {
        Request::Login { username, password } => seq![username@, password@],
        Request::CreateRecord {
            child_name,
            father_name,
            mother_name,
            birth_date,
            birth_place,
            baptism_date,
            priest_name,
            created_by,
        } => seq![
            child_name@,
            opt_text(father_name),
            opt_text(mother_name),
            birth_date@,
            birth_place@,
            baptism_date@,
            priest_name@,
            decimal_text(created_by as int),
        ],
        Request::ListRecords => seq![],
        Request::UpdateRecord {
            record_id,
            child_name,
            father_name,
            mother_name,
            birth_date,
            birth_place,
            baptism_date,
            priest_name,
            updated_by,
        } => seq![
            decimal_text(record_id as int),
            child_name@,
            opt_text(father_name),
            opt_text(mother_name),
            birth_date@,
            birth_place@,
            baptism_date@,
            priest_name@,
            decimal_text(updated_by as int),
        ],
        Request::DeleteRecord { record_id, deleted_by } => seq![
            decimal_text(record_id as int),
            decimal_text(deleted_by as int),
        ],
        Request::CreateStaff { name, title, role, created_by } => seq![
            name@,
            opt_text(title),
            opt_text(role),
            decimal_text(created_by as int),
        ],
        Request::ListStaff => seq![],
        Request::UpdateStaff { staff_id, name, title, role, updated_by } => seq![
            decimal_text(staff_id as int),
            name@,
            opt_text(title),
            opt_text(role),
            decimal_text(updated_by as int),
        ],
        Request::DeleteStaff { staff_id, deleted_by } => seq![
            decimal_text(staff_id as int),
            decimal_text(deleted_by as int),
        ],
        Request::ListAuditLogs => seq![],
        Request::ListUsers => seq![],
        Request::BackupDatabase { backup_path, user_id } => seq![
            backup_path@,
            decimal_text(user_id as int),
        ],
        Request::ImportDatabase { backup_path, user_id } => seq![
            backup_path@,
            decimal_text(user_id as int),
        ],
    }
}

/// The views of a vector of argument strings.
pub open spec fn arg_views(args: Seq<String>) -> Seq<Seq<char>> {
    args.map_values(|a: String| a@)
}

/// A request is always encoded to exactly the argument count its
/// operation's script expects, whichever optional parameters were
/// supplied.
pub proof fn lemma_arity_fixed(req: Request)
    ensures
        encoded_args(req).len() == arity_spec(operation_of(req)),
{
}

impl Request {
    /// The operation this request invokes.
    pub fn operation(&self) -> (op: Operation)
        ensures
            op == operation_of(*self),
    {
        match self {
            Request::Login { .. } => Operation::Login,
            Request::CreateRecord { .. } => Operation::CreateRecord,
            Request::ListRecords => Operation::ListRecords,
            Request::UpdateRecord { .. } => Operation::UpdateRecord,
            Request::DeleteRecord { .. } => Operation::DeleteRecord,
            Request::CreateStaff { .. } => Operation::CreateStaff,
            Request::ListStaff => Operation::ListStaff,
            Request::UpdateStaff { .. } => Operation::UpdateStaff,
            Request::DeleteStaff { .. } => Operation::DeleteStaff,
            Request::ListAuditLogs => Operation::ListAuditLogs,
            Request::ListUsers => Operation::ListUsers,
            Request::BackupDatabase { .. } => Operation::BackupDatabase,
            Request::ImportDatabase { .. } => Operation::ImportDatabase,
        }
    }
}

/// The string an optional parameter is passed as: a copy of its value when
/// present, the empty string when omitted.
fn opt_arg(o: &Option<String>) -> (r: String)
    ensures
        r@ == opt_text(*o),
{
    match o {
        Option::Some(s) => s.clone(),
        Option::None => String::new(),
    }
}

/// Encodes a request into the ordered argument vector of its operation.
pub fn encode_args(req: &Request) -> (args: Vec<String>)
    ensures
        arg_views(args@) == encoded_args(*req),
{
    let mut v: Vec<String> = Vec::new();
    match req {
        Request::Login { username, password } => {
            v.push(username.clone());
            v.push(password.clone());
        },
        Request::CreateRecord {
            child_name,
            father_name,
            mother_name,
            birth_date,
            birth_place,
            baptism_date,
            priest_name,
            created_by,
        } => {
            v.push(child_name.clone());
            v.push(opt_arg(father_name));
            v.push(opt_arg(mother_name));
            v.push(birth_date.clone());
            v.push(birth_place.clone());
            v.push(baptism_date.clone());
            v.push(priest_name.clone());
            v.push(i32_to_decimal(*created_by));
        },
        Request::ListRecords => {},
        Request::UpdateRecord {
            record_id,
            child_name,
            father_name,
            mother_name,
            birth_date,
            birth_place,
            baptism_date,
            priest_name,
            updated_by,
        } => {
            v.push(i32_to_decimal(*record_id));
            v.push(child_name.clone());
            v.push(opt_arg(father_name));
            v.push(opt_arg(mother_name));
            v.push(birth_date.clone());
            v.push(birth_place.clone());
            v.push(baptism_date.clone());
            v.push(priest_name.clone());
            v.push(i32_to_decimal(*updated_by));
        },
        Request::DeleteRecord { record_id, deleted_by } => {
            v.push(i32_to_decimal(*record_id));
            v.push(i32_to_decimal(*deleted_by));
        },
        Request::CreateStaff { name, title, role, created_by } => {
            v.push(name.clone());
            v.push(opt_arg(title));
            v.push(opt_arg(role));
            v.push(i32_to_decimal(*created_by));
        },
        Request::ListStaff => {},
        Request::UpdateStaff { staff_id, name, title, role, updated_by } => {
            v.push(i32_to_decimal(*staff_id));
            v.push(name.clone());
            v.push(opt_arg(title));
            v.push(opt_arg(role));
            v.push(i32_to_decimal(*updated_by));
        },
        Request::DeleteStaff { staff_id, deleted_by } => {
            v.push(i32_to_decimal(*staff_id));
            v.push(i32_to_decimal(*deleted_by));
        },
        Request::ListAuditLogs => {},
        Request::ListUsers => {},
        Request::BackupDatabase { backup_path, user_id } => {
            v.push(backup_path.clone());
            v.push(i32_to_decimal(*user_id));
        },
        Request::ImportDatabase { backup_path, user_id } => {
            v.push(backup_path.clone());
            v.push(i32_to_decimal(*user_id));
        },
    }
    proof {
        assert(arg_views(v@) =~~= encoded_args(*req));
    }
    v
}

} // verus!

//! Moving an older single-file database to the three-database layout.
use vstd::prelude::*;

verus! {

/// Whether the accounts, sessions and settings of an older single-file
/// database are copied into the system database: the logs file must exist
/// and still hold an `admin_user` table, and the system database must have
/// no admin yet (a count that cannot be read counts as none).
pub open spec fn spec_should_split(file_exists: bool, has_admin_table: bool, system_admins: Option<i64>) -> bool {
    file_exists && has_admin_table && match system_admins {
        Some(n) => n <= 0,
        None => true,
    }
}

/// Decides whether the legacy tables are split out. The caller asks for the
/// table only where the file exists, and counts admins only where the
/// table exists.
pub fn should_split_legacy(file_exists: bool, has_admin_table: bool, system_admins: Option<i64>) -> (r: bool)
    ensures
        r == spec_should_split(file_exists, has_admin_table, system_admins),
{
    if !file_exists || !has_admin_table {
        return false;
    }
    match system_admins {
        Some(n) => n <= 0,
        None => true,
    }
}

/// A system database that already has an admin is never overwritten.
pub proof fn law_split_never_overwrites(file_exists: bool, has_admin_table: bool, n: i64)
    requires
        n > 0,
    ensures
        !spec_should_split(file_exists, has_admin_table, Some(n)),
{
}

} // verus!

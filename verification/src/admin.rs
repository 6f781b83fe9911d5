//! What the administration command prints: scan totals, library status and accounts.

use vstd::prelude::*;
use vstd::string::*;
use crate::client_inventory::InventoryRefreshReport;
use crate::db::{SystemStatus, UserRecord};
use crate::text::{decimal, push_decimal, push_signed_decimal, signed_decimal};

verus! {

pub open spec fn scan_summary_text(r: InventoryRefreshReport) -> Seq<char> {
    "Scan terminé : visités="@ + decimal(r.visited as nat) + " acceptés="@ + decimal(r.accepted as nat)
        + " ignorés="@ + decimal(r.ignored as nat) + " absents="@ + decimal(r.missing as nat)
        + " erreurs="@ + decimal(r.issues as nat)
}

/// The line that closes a library scan.
pub fn scan_summary(report: &InventoryRefreshReport) -> (r: String)
    ensures
        r@ == scan_summary_text(*report),
{
    let mut s = String::from_str("Scan terminé : visités=");
    push_decimal(&mut s, report.visited);
    s.append(" acceptés=");
    push_decimal(&mut s, report.accepted);
    s.append(" ignorés=");
    push_decimal(&mut s, report.ignored);
    s.append(" absents=");
    push_decimal(&mut s, report.missing);
    s.append(" erreurs=");
    push_decimal(&mut s, report.issues);
    s
}

/// The header of the library status.
pub const STATUS_HEADER: &'static str = "SYSTEM_ID\tDISPONIBLES\tABSENTS";

pub open spec fn status_line_text(s: SystemStatus) -> Seq<char> {
    signed_decimal(s.system_id as int) + "\t"@ + decimal(s.available as nat) + "\t"@ + decimal(
        s.missing as nat,
    )
}

/// One system's line of the library status.
pub fn status_line(status: &SystemStatus) -> (r: String)
    ensures
        r@ == status_line_text(*status),
{
    let mut s = String::new();
    push_signed_decimal(&mut s, status.system_id);
    s.append("\t");
    push_decimal(&mut s, status.available);
    s.append("\t");
    push_decimal(&mut s, status.missing);
    s
}

/// The header of the account list.
pub const USERS_HEADER: &'static str = "ID\tACTIF\tSOURCE\tRÔLE\tUTILISATEUR";

pub open spec fn user_line_text(u: UserRecord) -> Seq<char> {
    signed_decimal(u.user_id as int) + "\t"@ + (if u.enabled { "true"@ } else { "false"@ }) + "\t"@
        + (if u.sso { "sso"@ } else { "local"@ }) + "\t"@ + u.role@ + "\t"@ + u.username@
}

/// One account's line of the account list.
pub fn user_line(user: &UserRecord) -> (r: String)
    ensures
        r@ == user_line_text(*user),
{
    let mut s = String::new();
    push_signed_decimal(&mut s, user.user_id);
    s.append("\t");
    s.append(if user.enabled { "true" } else { "false" });
    s.append("\t");
    s.append(if user.sso { "sso" } else { "local" });
    s.append("\t");
    s.append(user.role.as_str());
    s.append("\t");
    s.append(user.username.as_str());
    s
}

} // verus!

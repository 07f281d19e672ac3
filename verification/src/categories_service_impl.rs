//! Product categories of a company.

use crate::db::DbOutcome;
use crate::ids::{uuid_text, uuid_to_text};
use crate::text::{bool_text, bool_to_text};
use crate::timestamp::Timestamp;
use vstd::prelude::*;

verus! {

/// A row of the product categories of a company.
pub struct RecordProductCategory {
    pub id: u128,
    pub company_id: u128,
    pub name: String,
    pub description: String,
    pub parent_category_id: Option<u128>,
    pub created_at: Timestamp,
    pub modified_at: Timestamp,
    pub is_active: bool,
}

/// Why reading categories failed.
pub struct ProductServiceError {
    pub error_code: i32,
    pub error_message: String,
}

/// The statement that reads the categories of a company in a given state.
pub fn get_categories_by_company_id_statement(company_id: u128, is_active: bool) -> (s: String)
    ensures
        s@ == "SELECT * FROM get_company_by_id_and_status('"@ + uuid_text(company_id) + "', "@
            + bool_text(is_active) + ");"@,
{
    let mut s = String::from_str("SELECT * FROM get_company_by_id_and_status('");
    let t = uuid_to_text(company_id);
    s.append(t.as_str());
    s.append("', ");
    let b = bool_to_text(is_active);
    s.append(b.as_str());
    s.append(");");
    s
}

/// What reading the categories of a company comes to: the rows as they
/// came, or a 500 with the database's message.
pub fn get_categories_by_company_id_outcome(db: DbOutcome<Vec<RecordProductCategory>>) -> (r: Result<Vec<RecordProductCategory>, ProductServiceError>)
    ensures
        match db {
            DbOutcome::ConnectionFailed(m) => r matches Err(e) && e.error_code == 500 && e.error_message@ == m@,
            DbOutcome::QueryFailed(m) => r matches Err(e) && e.error_code == 500 && e.error_message@ == m@,
            DbOutcome::Completed(rows) => r matches Ok(v) && v == rows,
        },
{
    match db {
        DbOutcome::ConnectionFailed(m) => Err(ProductServiceError { error_code: 500, error_message: m }),
        DbOutcome::QueryFailed(m) => Err(ProductServiceError { error_code: 500, error_message: m }),
        DbOutcome::Completed(rows) => Ok(rows),
    }
}

} // verus!

//! Companies: creation, lookup by id and paged listing.

use crate::db::DbOutcome;
use crate::ids::{new_random_id, uuid_text, uuid_to_text};
use crate::text::{nat_text, u64_text};
use crate::timestamp::Timestamp;
use vstd::prelude::*;

verus! {

/// A row of `company`.
pub struct RecordCompany {
    pub id: u128,
    pub name: String,
    pub email: String,
    pub subscription_tier: String,
    pub max_products: i32,
    pub max_categories: i32,
    pub is_enabled: bool,
    pub operates_in: u128,
    pub created_at: Timestamp,
    pub updated_at: Timestamp,
}

/// A company as the service hands it out.
pub struct CompanyDTO {
    pub id: String,
    pub name: String,
    pub email: String,
    pub subscription_tier: String,
    pub max_products: usize,
    pub max_categories: usize,
    pub is_enabled: bool,
    pub operates_in: String,
    pub created_at: String,
    pub updated_at: String,
}

/// Why a company operation failed.
pub struct CompanyDTOError {
    pub error_code: String,
    pub error_message: String,
}

/// A page of companies and the total count reported with it.
pub struct CompanyDTOWithCount {
    pub data: Vec<CompanyDTO>,
    pub total_count: usize,
}

/// A request to add a company.
pub struct AddCompanyDTO {
    pub name: String,
    pub email: String,
    pub is_enabled: bool,
    pub operates_in: u128,
}

/// An insert ready to run: the fresh id and the statement; the values are
/// bound in the order id, name, email, is_enabled, operates_in.
pub struct CompanyInsert {
    pub id: u128,
    pub statement: String,
}

/// The insert statement for a company.
pub const COMPANY_INSERT: &'static str = "INSERT into companies(id, name, email, is_enabled, operates_in) values($1, $2, $3, $4, $5)";

/// The columns every company query selects (the text keeps the line breaks
/// of the query as it is sent).
pub const COMPANY_SELECT: &'static str = "SELECT c.id, \n                c.name,\n                c. email, \n                c.subscription_tier, \n                c.max_products,\n                c.max_categories, \n                c.is_enabled, \n                c.operates_in, \n                c.created_at, \n                c.updated_at FROM company AS c";

/// `dto` is the company the service makes of `row`; the limits are taken
/// with `as usize` (a negative limit wraps).
pub open spec fn is_company_of(dto: CompanyDTO, row: RecordCompany) -> bool {
    &&& dto.id@ == uuid_text(row.id)
    &&& dto.name@ == row.name@
    &&& dto.email@ == row.email@
    &&& dto.subscription_tier@ == row.subscription_tier@
    &&& dto.max_products == row.max_products as usize
    &&& dto.max_categories == row.max_categories as usize
    &&& dto.is_enabled == row.is_enabled
    &&& dto.operates_in@ == uuid_text(row.operates_in)
    &&& dto.created_at@ == row.created_at.text()
    &&& dto.updated_at@ == row.updated_at.text()
}

/// `e` carries exactly this code and message.
pub open spec fn is_company_error(e: CompanyDTOError, code: Seq<char>, message: Seq<char>) -> bool {
    e.error_code@ == code && e.error_message@ == message
}

/// The company made of a database row.
pub fn company_from_record(row: &RecordCompany) -> (dto: CompanyDTO)
    ensures
        is_company_of(dto, *row),
        dto.id@ == uuid_text(row.id),
        dto.name@ == row.name@,
        dto.email@ == row.email@,
        dto.subscription_tier@ == row.subscription_tier@,
        dto.max_products == row.max_products as usize,
        dto.max_categories == row.max_categories as usize,
        dto.is_enabled == row.is_enabled,
        dto.operates_in@ == uuid_text(row.operates_in),
        dto.created_at@ == row.created_at.text(),
        dto.updated_at@ == row.updated_at.text(),
{
    CompanyDTO {
        id: uuid_to_text(row.id),
        name: row.name.clone(),
        email: row.email.clone(),
        subscription_tier: row.subscription_tier.clone(),
        max_products: row.max_products as usize,
        max_categories: row.max_categories as usize,
        is_enabled: row.is_enabled,
        operates_in: uuid_to_text(row.operates_in),
        created_at: row.created_at.to_text(),
        updated_at: row.updated_at.to_text(),
    }
}

/// Prepares the insert of a new company under a fresh random (version 4)
/// id.
pub fn prepare_company_insert() -> (r: CompanyInsert)
    ensures
        r.statement@ == COMPANY_INSERT@,
        (r.id >> 76u128) & 0xfu128 == 4,
        (r.id >> 62u128) & 0x3u128 == 2,
{
    let id = new_random_id();
    CompanyInsert { id, statement: String::from_str(COMPANY_INSERT) }
}

/// What creating a company comes to: the company made of the inserted row,
/// or a 500 with the database's message.
pub fn create_outcome(db: DbOutcome<RecordCompany>) -> (r: Result<CompanyDTO, CompanyDTOError>)
    ensures
        match db {
            DbOutcome::ConnectionFailed(m) => r matches Err(e) && is_company_error(e, "500"@, m@),
            DbOutcome::QueryFailed(m) => r matches Err(e) && is_company_error(e, "500"@, m@),
            DbOutcome::Completed(row) => r matches Ok(dto) && is_company_of(dto, row),
        },
{
    match db {
        DbOutcome::ConnectionFailed(m) => Err(CompanyDTOError { error_code: String::from_str("500"), error_message: m }),
        DbOutcome::QueryFailed(m) => Err(CompanyDTOError { error_code: String::from_str("500"), error_message: m }),
        DbOutcome::Completed(row) => Ok(company_from_record(&row)),
    }
}

/// The statement that reads a company by its id.
pub fn get_by_id_statement(id: u128) -> (s: String)
    ensures
        s@ == COMPANY_SELECT@ + " WHERE c.id = '"@ + uuid_text(id) + "'"@,
{
    let mut s = String::from_str(COMPANY_SELECT);
    s.append(" WHERE c.id = '");
    let t = uuid_to_text(id);
    s.append(t.as_str());
    s.append("'");
    s
}

/// What reading a company comes to: a failed connection is a 500, a failed
/// query a 400.
pub fn get_by_id_outcome(db: DbOutcome<RecordCompany>) -> (r: Result<CompanyDTO, CompanyDTOError>)
    ensures
        match db {
            DbOutcome::ConnectionFailed(m) => r matches Err(e) && is_company_error(e, "500"@, m@),
            DbOutcome::QueryFailed(m) => r matches Err(e) && is_company_error(e, "400"@, m@),
            DbOutcome::Completed(row) => r matches Ok(dto) && is_company_of(dto, row),
        },
{
    match db {
        DbOutcome::ConnectionFailed(m) => Err(CompanyDTOError { error_code: String::from_str("500"), error_message: m }),
        DbOutcome::QueryFailed(m) => Err(CompanyDTOError { error_code: String::from_str("400"), error_message: m }),
        DbOutcome::Completed(row) => Ok(company_from_record(&row)),
    }
}

/// The statement that reads one page of companies.
pub fn get_companies_by_filters_statement(offset: usize, limit: usize) -> (s: String)
    ensures
        s@ == COMPANY_SELECT@ + " OFFSET "@ + nat_text(offset as nat) + " LIMIT "@ + nat_text(limit as nat),
{
    let mut s = String::from_str(COMPANY_SELECT);
    s.append(" OFFSET ");
    let o = u64_text(offset as u64);
    s.append(o.as_str());
    s.append(" LIMIT ");
    let l = u64_text(limit as u64);
    s.append(l.as_str());
    s
}

/// What reading a page of companies comes to: every row, in order, with a
/// total count of 0; a failed connection is a 500, a failed query a 400.
pub fn get_companies_by_filters_outcome(db: DbOutcome<Vec<RecordCompany>>) -> (r: Result<CompanyDTOWithCount, CompanyDTOError>)
    ensures
        match db {
            DbOutcome::ConnectionFailed(m) => r matches Err(e) && is_company_error(e, "500"@, m@),
            DbOutcome::QueryFailed(m) => r matches Err(e) && is_company_error(e, "400"@, m@),
            DbOutcome::Completed(rows) => r matches Ok(page) && page.total_count == 0
                && page.data.len() == rows.len()
                && forall|i: int| 0 <= i < rows.len() ==> is_company_of(#[trigger] page.data[i], rows[i]),
        },
{
    match db {
        DbOutcome::ConnectionFailed(m) => Err(CompanyDTOError { error_code: String::from_str("500"), error_message: m }),
        DbOutcome::QueryFailed(m) => Err(CompanyDTOError { error_code: String::from_str("400"), error_message: m }),
        DbOutcome::Completed(rows) => {
            let mut found_data: Vec<CompanyDTO> = Vec::new();
            let mut i: usize = 0;
            while i < rows.len()
                invariant
                    i <= rows.len(),
                    found_data.len() == i,
                    forall|j: int| 0 <= j < i ==> is_company_of(#[trigger] found_data[j], rows[j]),
                decreases rows.len() - i,
            {
                let dto = company_from_record(&rows[i]);
                found_data.push(dto);
                i = i + 1;
            }
            Ok(CompanyDTOWithCount { data: found_data, total_count: 0 })
        },
    }
}

// ---------------------------------------------------------------- laws

/// Looking a company up by id hands out both of its limits as stored: the
/// product limit is the row's `max_products` and the category limit the
/// row's `max_categories` (each taken `as usize`), so two different
/// non-negative limits stay different.
pub proof fn lemma_lookup_keeps_both_limits(row: RecordCompany, r: Result<CompanyDTO, CompanyDTOError>)
    requires
        r matches Ok(dto) && is_company_of(dto, row),
    ensures
        r matches Ok(dto) && dto.max_products == row.max_products as usize
            && dto.max_categories == row.max_categories as usize,
        0 <= row.max_products && 0 <= row.max_categories && row.max_products != row.max_categories
            ==> (r matches Ok(dto) && dto.max_products != dto.max_categories),
{
}

/// A created company is handed back with the name and the e-mail address of
/// the inserted row, each in its own field.
pub proof fn lemma_created_company_keeps_name_and_email(row: RecordCompany, r: Result<CompanyDTO, CompanyDTOError>)
    requires
        r matches Ok(dto) && is_company_of(dto, row),
    ensures
        r matches Ok(dto) && dto.name@ == row.name@ && dto.email@ == row.email@,
{
}

/// Every company of a page carries, field by field, what its row holds: its
/// id, name, e-mail, tier, limits, state and region, and as `created_at`
/// and `updated_at` the texts of the row's own creation and update times.
pub proof fn lemma_page_entries_are_their_rows(rows: Seq<RecordCompany>, data: Seq<CompanyDTO>)
    requires
        data.len() == rows.len(),
        forall|i: int| 0 <= i < rows.len() ==> is_company_of(#[trigger] data[i], rows[i]),
    ensures
        forall|i: int| #![trigger data[i]] 0 <= i < rows.len() ==> {
            &&& data[i].id@ == uuid_text(rows[i].id)
            &&& data[i].name@ == rows[i].name@
            &&& data[i].email@ == rows[i].email@
            &&& data[i].subscription_tier@ == rows[i].subscription_tier@
            &&& data[i].max_products == rows[i].max_products as usize
            &&& data[i].max_categories == rows[i].max_categories as usize
            &&& data[i].is_enabled == rows[i].is_enabled
            &&& data[i].operates_in@ == uuid_text(rows[i].operates_in)
            &&& data[i].created_at@ == rows[i].created_at.text()
            &&& data[i].updated_at@ == rows[i].updated_at.text()
        },
{
}

} // verus!

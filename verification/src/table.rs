//! Records as rows of text: which columns a table has, and what stands in
//! each cell.

use vstd::prelude::*;
use vstd::string::StringExecFns;
use crate::crt::{Crt, CrtField, CrtView};
use crate::decode::views_of;
use crate::text::{decimal_string, decimal_text, lines_view};

verus! {

impl CrtField {
    /// The heading of the column that shows this member.
    pub open spec fn heading(self) -> Seq<char> {
        match self {
            CrtField::Id => "crt.sh ID"@,
            CrtField::CommonName => "Matching Identities"@,
            CrtField::EntryTimestamp => "Logged At"@,
            CrtField::IssuerCaId => "Issuer CA ID"@,
            CrtField::IssuerName => "Issuer Name"@,
            CrtField::NameValue => "SAN"@,
            CrtField::NotAfter => "Not After"@,
            CrtField::NotBefore => "Not Before"@,
            CrtField::ResultCount => "result_count"@,
            CrtField::SerialNumber => "Serial Number"@,
        }
    }

    /// The heading of the column that shows this member.
    pub fn title(self) -> (title: &'static str)
        ensures
            title@ == self.heading(),
    {
        match self {
            CrtField::Id => "crt.sh ID",
            CrtField::CommonName => "Matching Identities",
            CrtField::EntryTimestamp => "Logged At",
            CrtField::IssuerCaId => "Issuer CA ID",
            CrtField::IssuerName => "Issuer Name",
            CrtField::NameValue => "SAN",
            CrtField::NotAfter => "Not After",
            CrtField::NotBefore => "Not Before",
            CrtField::ResultCount => "result_count",
            CrtField::SerialNumber => "Serial Number",
        }
    }
}

/// The member that a column name stands for.
pub open spec fn field_named(name: Seq<char>) -> Option<CrtField> {
    if name == CrtField::Id.key() {
        Some(CrtField::Id)
    } else if name == CrtField::CommonName.key() {
        Some(CrtField::CommonName)
    } else if name == CrtField::EntryTimestamp.key() {
        Some(CrtField::EntryTimestamp)
    } else if name == CrtField::IssuerCaId.key() {
        Some(CrtField::IssuerCaId)
    } else if name == CrtField::IssuerName.key() {
        Some(CrtField::IssuerName)
    } else if name == CrtField::NameValue.key() {
        Some(CrtField::NameValue)
    } else if name == CrtField::NotAfter.key() {
        Some(CrtField::NotAfter)
    } else if name == CrtField::NotBefore.key() {
        Some(CrtField::NotBefore)
    } else if name == CrtField::ResultCount.key() {
        Some(CrtField::ResultCount)
    } else if name == CrtField::SerialNumber.key() {
        Some(CrtField::SerialNumber)
    } else {
        None
    }
}

fn names(name: &String, field: CrtField) -> (same: bool)
    ensures
        same == (name@ == field.key()),
{
    let key = String::from_str(field.name());
    *name == key
}

/// Finds the member that a column name stands for.
pub fn column_field(name: &String) -> (field: Option<CrtField>)
    ensures
        field == field_named(name@),
{
    if names(name, CrtField::Id) {
        Some(CrtField::Id)
    } else if names(name, CrtField::CommonName) {
        Some(CrtField::CommonName)
    } else if names(name, CrtField::EntryTimestamp) {
        Some(CrtField::EntryTimestamp)
    } else if names(name, CrtField::IssuerCaId) {
        Some(CrtField::IssuerCaId)
    } else if names(name, CrtField::IssuerName) {
        Some(CrtField::IssuerName)
    } else if names(name, CrtField::NameValue) {
        Some(CrtField::NameValue)
    } else if names(name, CrtField::NotAfter) {
        Some(CrtField::NotAfter)
    } else if names(name, CrtField::NotBefore) {
        Some(CrtField::NotBefore)
    } else if names(name, CrtField::ResultCount) {
        Some(CrtField::ResultCount)
    } else if names(name, CrtField::SerialNumber) {
        Some(CrtField::SerialNumber)
    } else {
        None
    }
}

/// The members that the first `count` column names stand for, in order;
/// names that stand for none are passed over.
pub open spec fn columns_named(names: Seq<Seq<char>>, count: nat) -> Seq<CrtField>
    decreases count,
{
    if count == 0 {
        Seq::empty()
    } else {
        let before = columns_named(names, (count - 1) as nat);
        match field_named(names[count - 1]) {
            Some(field) => before.push(field),
            None => before,
        }
    }
}

/// Picks the columns of a table by their names, in the order given. A name
/// that stands for no member of a record is passed over.
pub fn select_columns(column_names: &Vec<String>) -> (columns: Vec<CrtField>)
    ensures
        columns@ == columns_named(lines_view(column_names@), column_names@.len()),
{
    let mut columns: Vec<CrtField> = Vec::new();
    let mut i: usize = 0;
    while i < column_names.len()
        invariant
            i <= column_names.len(),
            columns@ == columns_named(lines_view(column_names@), i as nat),
        decreases column_names.len() - i,
    {
        if let Some(field) = column_field(&column_names[i]) {
            columns.push(field);
        }
        i += 1;
    }
    columns
}

/// A whole number in decimal, with a minus sign where it is below zero.
pub open spec fn signed_decimal_text(n: int) -> Seq<char> {
    if n < 0 {
        "-"@ + decimal_text((-n) as nat)
    } else {
        decimal_text(n as nat)
    }
}

/// Writes a whole number in decimal, with a minus sign where it is below
/// zero.
pub fn signed_decimal_string(n: i64) -> (text: String)
    ensures
        text@ == signed_decimal_text(n as int),
{
    if n < 0 {
        let magnitude: u64 = (-(n + 1)) as u64 + 1;
        let mut text = String::from_str("-");
        text.append(decimal_string(magnitude).as_str());
        text
    } else {
        decimal_string(n as u64)
    }
}

/// What stands in the cell of a record under a column. A record without a
/// time stamp has an empty cell there.
pub open spec fn cell_text(record: CrtView, field: CrtField) -> Seq<char> {
    match field {
        CrtField::Id => decimal_text(record.id as nat),
        CrtField::CommonName => record.common_name,
        CrtField::EntryTimestamp => match record.entry_timestamp {
            Some(text) => text,
            None => Seq::empty(),
        },
        CrtField::IssuerCaId => signed_decimal_text(record.issuer_ca_id as int),
        CrtField::IssuerName => record.issuer_name,
        CrtField::NameValue => record.name_value,
        CrtField::NotAfter => record.not_after,
        CrtField::NotBefore => record.not_before,
        CrtField::ResultCount => decimal_text(record.result_count as nat),
        CrtField::SerialNumber => record.serial_number,
    }
}

impl Crt {
    /// Writes what stands in the cell of this record under a column.
    pub fn cell(&self, field: CrtField) -> (text: String)
        ensures
            text@ == cell_text(self@, field),
    {
        match field {
            CrtField::Id => decimal_string(self.id),
            CrtField::CommonName => self.common_name.clone(),
            CrtField::EntryTimestamp => match &self.entry_timestamp {
                Some(text) => text.clone(),
                None => String::new(),
            },
            CrtField::IssuerCaId => signed_decimal_string(self.issuer_ca_id),
            CrtField::IssuerName => self.issuer_name.clone(),
            CrtField::NameValue => self.name_value.clone(),
            CrtField::NotAfter => self.not_after.clone(),
            CrtField::NotBefore => self.not_before.clone(),
            CrtField::ResultCount => decimal_string(self.result_count as u64),
            CrtField::SerialNumber => self.serial_number.clone(),
        }
    }
}

/// The headings of the columns, in order.
pub open spec fn headings_of(columns: Seq<CrtField>) -> Seq<Seq<char>> {
    Seq::new(columns.len(), |i: int| columns[i].heading())
}

/// The cells of a record under the columns, in order.
pub open spec fn row_of(record: CrtView, columns: Seq<CrtField>) -> Seq<Seq<char>> {
    Seq::new(columns.len(), |i: int| cell_text(record, columns[i]))
}

/// The rows of the records, in order.
pub open spec fn rows_of(records: Seq<CrtView>, columns: Seq<CrtField>) -> Seq<Seq<Seq<char>>> {
    Seq::new(records.len(), |i: int| row_of(records[i], columns))
}

/// Records laid out as a table of text.
#[derive(Debug, Clone, PartialEq, Eq)]
pub struct Table {
    pub titles: Vec<String>,
    pub rows: Vec<Vec<String>>,
}

/// The rows of a table, each as sequences of characters.
pub open spec fn rows_view(rows: Seq<Vec<String>>) -> Seq<Seq<Seq<char>>> {
    Seq::new(rows.len(), |i: int| lines_view(rows[i]@))
}

fn titles_of(columns: &Vec<CrtField>) -> (titles: Vec<String>)
    ensures
        lines_view(titles@) == headings_of(columns@),
{
    let mut titles: Vec<String> = Vec::new();
    let mut i: usize = 0;
    while i < columns.len()
        invariant
            i <= columns.len(),
            lines_view(titles@) == headings_of(columns@).take(i as int),
        decreases columns.len() - i,
    {
        let title = String::from_str(columns[i].title());
        titles.push(title);
        proof {
            assert(headings_of(columns@).take(i + 1) =~= headings_of(columns@).take(i as int).push(title@));
        }
        i += 1;
    }
    titles
}

fn cells_of(record: &Crt, columns: &Vec<CrtField>) -> (cells: Vec<String>)
    ensures
        lines_view(cells@) == row_of(record@, columns@),
{
    let mut cells: Vec<String> = Vec::new();
    let mut i: usize = 0;
    while i < columns.len()
        invariant
            i <= columns.len(),
            lines_view(cells@) == row_of(record@, columns@).take(i as int),
        decreases columns.len() - i,
    {
        let cell = record.cell(columns[i]);
        cells.push(cell);
        proof {
            assert(row_of(record@, columns@).take(i + 1) =~= row_of(record@, columns@).take(i as int).push(
                cell@,
            ));
        }
        i += 1;
    }
    cells
}

/// Lays records out as a table: a heading for each column, and a row of
/// cells for each record, in the order of the records.
pub fn table_of(records: &Vec<Crt>, columns: &Vec<CrtField>) -> (table: Table)
    ensures
        lines_view(table.titles@) == headings_of(columns@),
        rows_view(table.rows@) == rows_of(views_of(records@), columns@),
{
    let titles = titles_of(columns);
    let mut rows: Vec<Vec<String>> = Vec::new();
    let ghost wanted = rows_of(views_of(records@), columns@);
    let mut i: usize = 0;
    while i < records.len()
        invariant
            i <= records.len(),
            wanted == rows_of(views_of(records@), columns@),
            rows_view(rows@) == wanted.take(i as int),
        decreases records.len() - i,
    {
        let cells = cells_of(&records[i], columns);
        rows.push(cells);
        proof {
            assert(wanted.take(i + 1) =~= wanted.take(i as int).push(lines_view(cells@)));
        }
        i += 1;
    }
    Table { titles, rows }
}

} // verus!

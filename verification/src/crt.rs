//! The certificate record that the search service reports.

use vstd::prelude::*;

verus! {

/// One certificate, as the service lists it.
///
/// `entry_timestamp` is optional because the service may leave it out or send
/// `null`. `issuer_ca_id` is signed because the service sends `-1` for an
/// issuer it does not know; the number is kept as it came.
#[derive(Debug, Clone, PartialEq, Eq)]
pub struct Crt {
    pub id: u64,
    pub common_name: String,
    pub entry_timestamp: Option<String>,
    pub issuer_ca_id: i64,
    pub issuer_name: String,
    pub name_value: String,
    pub not_after: String,
    pub not_before: String,
    pub result_count: u32,
    pub serial_number: String,
}

/// A record with its texts as sequences of characters.
pub struct CrtView {
    pub id: u64,
    pub common_name: Seq<char>,
    pub entry_timestamp: Option<Seq<char>>,
    pub issuer_ca_id: i64,
    pub issuer_name: Seq<char>,
    pub name_value: Seq<char>,
    pub not_after: Seq<char>,
    pub not_before: Seq<char>,
    pub result_count: u32,
    pub serial_number: Seq<char>,
}

impl View for Crt {
    type V = CrtView;

    open spec fn view(&self) -> CrtView {
        CrtView {
            id: self.id,
            common_name: self.common_name@,
            entry_timestamp: match self.entry_timestamp {
                Some(text) => Some(text@),
                None => None,
            },
            issuer_ca_id: self.issuer_ca_id,
            issuer_name: self.issuer_name@,
            name_value: self.name_value@,
            not_after: self.not_after@,
            not_before: self.not_before@,
            result_count: self.result_count,
            serial_number: self.serial_number@,
        }
    }
}

/// The members of a record, in the order in which they are decoded.
#[derive(Debug, Clone, Copy, PartialEq, Eq, Structural)]
pub enum CrtField {
    Id,
    CommonName,
    EntryTimestamp,
    IssuerCaId,
    IssuerName,
    NameValue,
    NotAfter,
    NotBefore,
    ResultCount,
    SerialNumber,
}

impl CrtField {
    /// The name under which the service sends this member.
    pub open spec fn key(self) -> Seq<char> {
        match self {
            CrtField::Id => "id"@,
            CrtField::CommonName => "common_name"@,
            CrtField::EntryTimestamp => "entry_timestamp"@,
            CrtField::IssuerCaId => "issuer_ca_id"@,
            CrtField::IssuerName => "issuer_name"@,
            CrtField::NameValue => "name_value"@,
            CrtField::NotAfter => "not_after"@,
            CrtField::NotBefore => "not_before"@,
            CrtField::ResultCount => "result_count"@,
            CrtField::SerialNumber => "serial_number"@,
        }
    }

    /// The name under which the service sends this member.
    pub fn name(self) -> (name: &'static str)
        ensures
            name@ == self.key(),
    {
        match self {
            CrtField::Id => "id",
            CrtField::CommonName => "common_name",
            CrtField::EntryTimestamp => "entry_timestamp",
            CrtField::IssuerCaId => "issuer_ca_id",
            CrtField::IssuerName => "issuer_name",
            CrtField::NameValue => "name_value",
            CrtField::NotAfter => "not_after",
            CrtField::NotBefore => "not_before",
            CrtField::ResultCount => "result_count",
            CrtField::SerialNumber => "serial_number",
        }
    }
}

} // verus!

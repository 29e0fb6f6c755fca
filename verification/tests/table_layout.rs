use rs_crtsh::crt::{Crt, CrtField};
use rs_crtsh::table::{column_field, select_columns, signed_decimal_string, table_of, Table};

fn sample(id: u64, entry_timestamp: Option<&str>, issuer_ca_id: i64) -> Crt {
    Crt {
        id,
        common_name: String::from("example.com"),
        entry_timestamp: entry_timestamp.map(String::from),
        issuer_ca_id,
        issuer_name: String::from("R3"),
        name_value: String::from("example.com"),
        not_after: String::from("2024-04-01"),
        not_before: String::from("2024-01-02"),
        result_count: 2,
        serial_number: String::from("03ab"),
    }
}

fn all_fields() -> Vec<CrtField> {
    vec![
        CrtField::Id,
        CrtField::CommonName,
        CrtField::EntryTimestamp,
        CrtField::IssuerCaId,
        CrtField::IssuerName,
        CrtField::NameValue,
        CrtField::NotAfter,
        CrtField::NotBefore,
        CrtField::ResultCount,
        CrtField::SerialNumber,
    ]
}

#[test]
fn every_member_is_found_by_its_name() {
    for field in all_fields() {
        assert_eq!(column_field(&String::from(field.name())), Some(field));
    }
    assert_eq!(column_field(&String::from("ID")), None);
    assert_eq!(column_field(&String::from("")), None);
    assert_eq!(column_field(&String::from("san")), None);
}

#[test]
fn columns_keep_the_order_given_and_pass_over_unknown_names() {
    let names = vec![
        String::from("not_after"),
        String::from("unknown"),
        String::from("id"),
        String::from("id"),
    ];
    assert_eq!(select_columns(&names), vec![CrtField::NotAfter, CrtField::Id, CrtField::Id]);
    assert_eq!(select_columns(&vec![]), vec![]);
}

#[test]
fn signed_numbers_are_written_as_std_does() {
    for n in [0i64, 1, -1, 9, -9, 10, -10, 183267, -183267, i64::MAX, i64::MIN] {
        assert_eq!(signed_decimal_string(n), n.to_string());
    }
}

#[test]
fn cells_show_each_member() {
    let record = sample(42, Some("2024-01-01"), -1);
    assert_eq!(record.cell(CrtField::Id), "42");
    assert_eq!(record.cell(CrtField::CommonName), "example.com");
    assert_eq!(record.cell(CrtField::EntryTimestamp), "2024-01-01");
    assert_eq!(record.cell(CrtField::IssuerCaId), "-1");
    assert_eq!(record.cell(CrtField::IssuerName), "R3");
    assert_eq!(record.cell(CrtField::NameValue), "example.com");
    assert_eq!(record.cell(CrtField::NotAfter), "2024-04-01");
    assert_eq!(record.cell(CrtField::NotBefore), "2024-01-02");
    assert_eq!(record.cell(CrtField::ResultCount), "2");
    assert_eq!(record.cell(CrtField::SerialNumber), "03ab");
    assert_eq!(sample(1, None, 5).cell(CrtField::EntryTimestamp), "");
}

#[test]
fn headings_name_the_columns() {
    let titles: Vec<&str> = all_fields().into_iter().map(|field| field.title()).collect();
    assert_eq!(
        titles,
        vec![
            "crt.sh ID",
            "Matching Identities",
            "Logged At",
            "Issuer CA ID",
            "Issuer Name",
            "SAN",
            "Not After",
            "Not Before",
            "result_count",
            "Serial Number"
        ]
    );
}

#[test]
fn table_has_a_row_for_each_record() {
    let records = vec![sample(1, None, -1), sample(2, Some("t"), 7)];
    let columns = vec![CrtField::Id, CrtField::EntryTimestamp, CrtField::IssuerCaId];
    assert_eq!(
        table_of(&records, &columns),
        Table {
            titles: vec![String::from("crt.sh ID"), String::from("Logged At"), String::from("Issuer CA ID")],
            rows: vec![
                vec![String::from("1"), String::new(), String::from("-1")],
                vec![String::from("2"), String::from("t"), String::from("7")],
            ],
        }
    );
    assert_eq!(table_of(&vec![], &columns).rows, Vec::<Vec<String>>::new());
    assert_eq!(
        table_of(&records, &vec![]),
        Table { titles: vec![], rows: vec![vec![], vec![]] }
    );
}

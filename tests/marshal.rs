use chrono::{NaiveDate, NaiveTime};
use postgres_mcp::marshal::{
    column_kind, decode_cell, json_cell, row_to_json, rows_to_json, Cell, ColumnInfo,
    ColumnKind, Field, RowSource,
};

enum Fake {
    Null,
    Int(i64),
    Text(String),
    Bool(bool),
    Float(f64),
    Date(NaiveDate),
    Time(NaiveTime),
}

struct FakeRow {
    cells: Vec<Fake>,
}

impl RowSource for FakeRow {
    fn i16_at(&self, idx: usize) -> Option<i16> {
        match self.cells.get(idx) {
            Some(Fake::Int(v)) => i16::try_from(*v).ok(),
            _ => None,
        }
    }
    fn i32_at(&self, idx: usize) -> Option<i32> {
        match self.cells.get(idx) {
            Some(Fake::Int(v)) => i32::try_from(*v).ok(),
            _ => None,
        }
    }
    fn i64_at(&self, idx: usize) -> Option<i64> {
        match self.cells.get(idx) {
            Some(Fake::Int(v)) => Some(*v),
            _ => None,
        }
    }
    fn text_at(&self, idx: usize) -> Option<String> {
        match self.cells.get(idx) {
            Some(Fake::Text(v)) => Some(v.clone()),
            _ => None,
        }
    }
    fn bool_at(&self, idx: usize) -> Option<bool> {
        match self.cells.get(idx) {
            Some(Fake::Bool(v)) => Some(*v),
            _ => None,
        }
    }
    fn float4_at(&self, idx: usize) -> Option<serde_json::Number> {
        self.float8_at(idx)
    }
    fn float8_at(&self, idx: usize) -> Option<serde_json::Number> {
        match self.cells.get(idx) {
            Some(Fake::Float(v)) => serde_json::Number::from_f64(*v),
            _ => None,
        }
    }
    fn timestamp_at(&self, idx: usize) -> Option<chrono::NaiveDateTime> {
        match self.cells.get(idx) {
            Some(Fake::Date(d)) => Some(d.and_hms_opt(3, 4, 5).unwrap()),
            _ => None,
        }
    }
    fn date_at(&self, idx: usize) -> Option<NaiveDate> {
        match self.cells.get(idx) {
            Some(Fake::Date(d)) => Some(*d),
            _ => None,
        }
    }
    fn document_text_at(&self, idx: usize) -> Option<String> {
        self.text_at(idx)
    }
    fn time_at(&self, idx: usize) -> Option<NaiveTime> {
        match self.cells.get(idx) {
            Some(Fake::Time(t)) => Some(*t),
            _ => None,
        }
    }
    fn read_i16(&self, idx: usize) -> Option<i16> {
        self.i16_at(idx)
    }
    fn read_i32(&self, idx: usize) -> Option<i32> {
        self.i32_at(idx)
    }
    fn read_i64(&self, idx: usize) -> Option<i64> {
        self.i64_at(idx)
    }
    fn read_text(&self, idx: usize) -> Option<String> {
        self.text_at(idx)
    }
    fn read_bool(&self, idx: usize) -> Option<bool> {
        self.bool_at(idx)
    }
    fn read_float4(&self, idx: usize) -> Option<serde_json::Number> {
        self.float4_at(idx)
    }
    fn read_float8(&self, idx: usize) -> Option<serde_json::Number> {
        self.float8_at(idx)
    }
    fn read_timestamp(&self, idx: usize) -> Option<chrono::NaiveDateTime> {
        self.timestamp_at(idx)
    }
    fn read_date(&self, idx: usize) -> Option<chrono::NaiveDate> {
        self.date_at(idx)
    }
    fn read_time(&self, idx: usize) -> Option<chrono::NaiveTime> {
        self.time_at(idx)
    }
    fn read_document_text(&self, idx: usize) -> Option<String> {
        self.document_text_at(idx)
    }
}

fn col(name: &str, declared: &str) -> ColumnInfo {
    ColumnInfo { name: name.to_string(), declared: declared.to_string() }
}

fn value<'a>(fields: &'a [Field], key: &str) -> &'a Cell {
    let hits: Vec<&Field> = fields.iter().filter(|f| f.key == key).collect();
    assert_eq!(hits.len(), 1, "key {} appears once", key);
    &hits[0].value
}

#[test]
fn dispatch_table_names() {
    let table = [
        ("int2", ColumnKind::SmallInt),
        ("int4", ColumnKind::Int),
        ("int8", ColumnKind::BigInt),
        ("text", ColumnKind::Text),
        ("varchar", ColumnKind::Text),
        ("bpchar", ColumnKind::Text),
        ("name", ColumnKind::Text),
        ("bool", ColumnKind::Bool),
        ("float4", ColumnKind::Real),
        ("float8", ColumnKind::Double),
        ("numeric", ColumnKind::Numeric),
        ("timestamp", ColumnKind::Timestamp),
        ("timestamptz", ColumnKind::Timestamp),
        ("date", ColumnKind::Date),
        ("time", ColumnKind::Time),
        ("timetz", ColumnKind::Time),
        ("uuid", ColumnKind::Uuid),
        ("json", ColumnKind::Document),
        ("jsonb", ColumnKind::Document),
    ];
    for (name, kind) in table {
        assert_eq!(column_kind(name), kind, "{}", name);
    }
    assert_eq!(column_kind("bytea"), ColumnKind::Unknown);
    assert_eq!(column_kind("INT4"), ColumnKind::Unknown);
    assert_eq!(column_kind(""), ColumnKind::Unknown);
}

#[test]
fn unknown_type_is_null() {
    let row = FakeRow { cells: vec![Fake::Text("raw".to_string())] };
    assert!(matches!(decode_cell(&row, 0, ColumnKind::Unknown), Cell::Null));
    let fields = row_to_json(&vec![col("blob", "bytea")], &row);
    assert_eq!(fields.len(), 1);
    assert!(matches!(value(&fields, "blob"), Cell::Null));
}

#[test]
fn every_column_gives_one_key() {
    let row = FakeRow {
        cells: vec![
            Fake::Int(7),
            Fake::Text("ann".to_string()),
            Fake::Bool(true),
            Fake::Null,
            Fake::Float(1.5),
        ],
    };
    let cols = vec![
        col("id", "int4"),
        col("name", "varchar"),
        col("active", "bool"),
        col("note", "text"),
        col("score", "float8"),
    ];
    let fields = row_to_json(&cols, &row);
    assert_eq!(fields.len(), 5);
    assert!(matches!(value(&fields, "id"), Cell::Int(7)));
    assert!(matches!(value(&fields, "name"), Cell::Text(s) if s == "ann"));
    assert!(matches!(value(&fields, "active"), Cell::Bool(true)));
    assert!(matches!(value(&fields, "note"), Cell::Null));
    assert!(matches!(value(&fields, "score"), Cell::Number(n) if n.as_f64() == Some(1.5)));
}

#[test]
fn duplicate_names_keep_last() {
    let row = FakeRow { cells: vec![Fake::Int(1), Fake::Int(2)] };
    let fields = row_to_json(&vec![col("x", "int8"), col("x", "int8")], &row);
    assert_eq!(fields.len(), 1);
    assert!(matches!(value(&fields, "x"), Cell::Int(2)));
}

#[test]
fn failed_decode_is_null() {
    let row = FakeRow { cells: vec![Fake::Text("seven".to_string()), Fake::Int(70000)] };
    let fields = row_to_json(&vec![col("a", "int4"), col("b", "int2")], &row);
    assert!(matches!(value(&fields, "a"), Cell::Null));
    assert!(matches!(value(&fields, "b"), Cell::Null));
}

#[test]
fn small_int_widens() {
    let row = FakeRow { cells: vec![Fake::Int(-300)] };
    assert!(matches!(decode_cell(&row, 0, ColumnKind::SmallInt), Cell::Int(-300)));
}

#[test]
fn non_finite_float_is_null() {
    let row = FakeRow { cells: vec![Fake::Float(f64::NAN)] };
    assert!(matches!(decode_cell(&row, 0, ColumnKind::Real), Cell::Null));
}

#[test]
fn temporal_values_render_as_text() {
    let d = NaiveDate::from_ymd_opt(2024, 1, 2).unwrap();
    let t = NaiveTime::from_hms_opt(13, 45, 0).unwrap();
    let row = FakeRow { cells: vec![Fake::Date(d), Fake::Date(d), Fake::Time(t)] };
    let fields = row_to_json(
        &vec![col("ts", "timestamp"), col("day", "date"), col("at", "time")],
        &row,
    );
    assert!(matches!(value(&fields, "ts"), Cell::Text(s) if s == "2024-01-02 03:04:05"));
    assert!(matches!(value(&fields, "day"), Cell::Text(s) if s == "2024-01-02"));
    assert!(matches!(value(&fields, "at"), Cell::Text(s) if s == "13:45:00"));
}

#[test]
fn numeric_and_uuid_read_as_text() {
    let row = FakeRow { cells: vec![Fake::Text("12.50".to_string()), Fake::Null] };
    assert!(matches!(decode_cell(&row, 0, ColumnKind::Numeric), Cell::Text(s) if s == "12.50"));
    assert!(matches!(decode_cell(&row, 1, ColumnKind::Uuid), Cell::Null));
}

#[test]
fn documents_are_reparsed() {
    match json_cell(Some("{\"a\": [1, 2]}".to_string())) {
        Cell::Document(v) => {
            assert_eq!(v["a"][1], serde_json::Value::from(2));
        }
        other => panic!("expected a document, got {:?}", other),
    }
    assert!(matches!(json_cell(Some("{not json".to_string())), Cell::Null));
    assert!(matches!(json_cell(None), Cell::Null));
}

#[test]
fn document_column_in_row() {
    let row = FakeRow { cells: vec![Fake::Text("[true]".to_string()), Fake::Text("oops".to_string())] };
    let fields = row_to_json(&vec![col("doc", "jsonb"), col("bad", "json")], &row);
    assert!(matches!(value(&fields, "doc"), Cell::Document(v) if v[0] == serde_json::Value::Bool(true)));
    assert!(matches!(value(&fields, "bad"), Cell::Null));
}

#[test]
fn rows_marshal_in_order() {
    let rows = vec![FakeRow { cells: vec![Fake::Int(1)] }, FakeRow { cells: vec![Fake::Int(2)] }];
    let out = rows_to_json(&vec![col("n", "int8")], &rows);
    assert_eq!(out.len(), 2);
    assert!(matches!(value(&out[0], "n"), Cell::Int(1)));
    assert!(matches!(value(&out[1], "n"), Cell::Int(2)));
    let empty: Vec<FakeRow> = Vec::new();
    assert!(rows_to_json(&vec![col("n", "int8")], &empty).is_empty());
}

#[test]
fn row_without_columns_is_empty_object() {
    let row = FakeRow { cells: Vec::new() };
    assert!(row_to_json(&Vec::new(), &row).is_empty());
}

use postgres_mcp::marshal::{MemoryRow, Stored};

#[test]
fn memory_row_values_come_out_as_themselves() {
    let row = MemoryRow {
        cells: vec![
            Stored::Int(-5),
            Stored::Text("bob".to_string()),
            Stored::Bool(false),
            Stored::Null,
            Stored::Int(40000),
            Stored::Date(NaiveDate::from_ymd_opt(1999, 12, 31).unwrap()),
            Stored::Text("{\"k\": null}".to_string()),
        ],
    };
    let cols = vec![
        col("a", "int8"),
        col("b", "text"),
        col("c", "bool"),
        col("d", "int4"),
        col("e", "int2"),
        col("f", "date"),
        col("g", "jsonb"),
        col("h", "float8"),
    ];
    let fields = row_to_json(&cols, &row);
    assert_eq!(fields.len(), 8);
    assert!(matches!(value(&fields, "a"), Cell::Int(-5)));
    assert!(matches!(value(&fields, "b"), Cell::Text(s) if s == "bob"));
    assert!(matches!(value(&fields, "c"), Cell::Bool(false)));
    assert!(matches!(value(&fields, "d"), Cell::Null));
    assert!(matches!(value(&fields, "e"), Cell::Null));
    assert!(matches!(value(&fields, "f"), Cell::Text(s) if s == "1999-12-31"));
    assert!(matches!(value(&fields, "g"), Cell::Document(v) if v["k"].is_null()));
    assert!(matches!(value(&fields, "h"), Cell::Null));
}

#[test]
fn memory_row_marshals_the_same_twice() {
    let row = MemoryRow { cells: vec![Stored::Int(1), Stored::Text("x".to_string()), Stored::Int(3)] };
    let cols = vec![col("p", "int4"), col("q", "varchar"), col("p", "int4")];
    let once = row_to_json(&cols, &row);
    let twice = row_to_json(&cols, &row);
    assert_eq!(format!("{:?}", once), format!("{:?}", twice));
    assert_eq!(once.len(), 2);
    assert_eq!(once[0].key, "p");
    assert_eq!(once[1].key, "q");
    assert!(matches!(once[0].value, Cell::Int(3)));
}

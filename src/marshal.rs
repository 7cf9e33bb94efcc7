//! The type-dispatch marshaler: each column's declared type picks a decode path,
//! and a row becomes a JSON-shaped object with one key per distinct column name.

use vstd::prelude::*;
use crate::text::same_text;

verus! {

#[verifier::external_type_specification]
#[verifier::external_body]
pub struct ExJsonValue(serde_json::Value);

#[verifier::external_type_specification]
#[verifier::external_body]
pub struct ExJsonNumber(serde_json::Number);

#[verifier::external_type_specification]
#[verifier::external_body]
pub struct ExNaiveDateTime(chrono::NaiveDateTime);

#[verifier::external_type_specification]
#[verifier::external_body]
pub struct ExNaiveDate(chrono::NaiveDate);

#[verifier::external_type_specification]
#[verifier::external_body]
pub struct ExNaiveTime(chrono::NaiveTime);

/// What `serde_json::from_str::<serde_json::Value>` makes of a text: the
/// document, or `None` when the text is not a single JSON document.
pub uninterp spec fn parsed_json(s: Seq<char>) -> Option<serde_json::Value>;

/// The text that chrono's `Display` gives for a timestamp.
pub uninterp spec fn timestamp_text_of(t: chrono::NaiveDateTime) -> Seq<char>;

/// The text that chrono's `Display` gives for a date.
pub uninterp spec fn date_text_of(d: chrono::NaiveDate) -> Seq<char>;

/// The text that chrono's `Display` gives for a time of day.
pub uninterp spec fn time_text_of(t: chrono::NaiveTime) -> Seq<char>;

/// Relies on `serde_json::from_str::<serde_json::Value>`: the parsed document, `Ok`
/// exactly when the text is a single JSON document; a function of the text alone.
#[verifier::external_body]
fn parse_document(s: &str) -> (r: Option<serde_json::Value>)
    ensures
        r == parsed_json(s@),
{
    serde_json::from_str::<serde_json::Value>(s).ok()
}

/// Relies on chrono's `Display` for `NaiveDateTime`: its canonical text form, a
/// function of the value.
#[verifier::external_body]
fn timestamp_text(t: &chrono::NaiveDateTime) -> (r: String)
    ensures
        r@ == timestamp_text_of(*t),
{
    t.to_string()
}

/// Relies on chrono's `Display` for `NaiveDate`: its canonical text form, a
/// function of the value.
#[verifier::external_body]
fn date_text(d: &chrono::NaiveDate) -> (r: String)
    ensures
        r@ == date_text_of(*d),
{
    d.to_string()
}

/// Relies on chrono's `Display` for `NaiveTime`: its canonical text form, a
/// function of the value.
#[verifier::external_body]
fn time_text(t: &chrono::NaiveTime) -> (r: String)
    ensures
        r@ == time_text_of(*t),
{
    t.to_string()
}

/// The decode path that a column's declared type selects.
#[derive(Clone, Copy, Debug, PartialEq, Eq, Structural)]
pub enum ColumnKind {
    SmallInt,
    Int,
    BigInt,
    Text,
    Bool,
    Real,
    Double,
    Numeric,
    Timestamp,
    Date,
    Time,
    Uuid,
    Document,
    /// Any type outside the table; its cells always marshal to null.
    Unknown,
}

/// The dispatch table from a store type name to its decode path.
pub open spec fn kind_of_type(t: Seq<char>) -> ColumnKind {
    if t == "int2"@ {
        ColumnKind::SmallInt
    } else if t == "int4"@ {
        ColumnKind::Int
    } else if t == "int8"@ {
        ColumnKind::BigInt
    } else if t == "text"@ || t == "varchar"@ || t == "bpchar"@ || t == "name"@ {
        ColumnKind::Text
    } else if t == "bool"@ {
        ColumnKind::Bool
    } else if t == "float4"@ {
        ColumnKind::Real
    } else if t == "float8"@ {
        ColumnKind::Double
    } else if t == "numeric"@ {
        ColumnKind::Numeric
    } else if t == "timestamp"@ || t == "timestamptz"@ {
        ColumnKind::Timestamp
    } else if t == "date"@ {
        ColumnKind::Date
    } else if t == "time"@ || t == "timetz"@ {
        ColumnKind::Time
    } else if t == "uuid"@ {
        ColumnKind::Uuid
    } else if t == "json"@ || t == "jsonb"@ {
        ColumnKind::Document
    } else {
        ColumnKind::Unknown
    }
}

/// Looks up the decode path of a store type name.
pub fn column_kind(declared: &str) -> (r: ColumnKind)
    ensures
        r == kind_of_type(declared@),
{
    let t = declared;
    if same_text(t, "int2") {
        ColumnKind::SmallInt
    } else if same_text(t, "int4") {
        ColumnKind::Int
    } else if same_text(t, "int8") {
        ColumnKind::BigInt
    } else if same_text(t, "text") || same_text(t, "varchar") || same_text(t, "bpchar")
        || same_text(t, "name") {
        ColumnKind::Text
    } else if same_text(t, "bool") {
        ColumnKind::Bool
    } else if same_text(t, "float4") {
        ColumnKind::Real
    } else if same_text(t, "float8") {
        ColumnKind::Double
    } else if same_text(t, "numeric") {
        ColumnKind::Numeric
    } else if same_text(t, "timestamp") || same_text(t, "timestamptz") {
        ColumnKind::Timestamp
    } else if same_text(t, "date") {
        ColumnKind::Date
    } else if same_text(t, "time") || same_text(t, "timetz") {
        ColumnKind::Time
    } else if same_text(t, "uuid") {
        ColumnKind::Uuid
    } else if same_text(t, "json") || same_text(t, "jsonb") {
        ColumnKind::Document
    } else {
        ColumnKind::Unknown
    }
}

/// One marshaled value. Numbers that the store holds as floating point arrive
/// already as JSON numbers; structured documents as parsed JSON.
#[derive(Debug)]
pub enum Cell {
    Null,
    Bool(bool),
    Int(i64),
    Text(String),
    Number(serde_json::Number),
    Document(serde_json::Value),
}

/// A cell's value, with text as characters.
pub enum CellView {
    Null,
    Bool(bool),
    Int(i64),
    Text(Seq<char>),
    Number(serde_json::Number),
    Document(serde_json::Value),
}

impl View for Cell {
    type V = CellView;

    open spec fn view(&self) -> CellView {
        match self {
            Cell::Null => CellView::Null,
            Cell::Bool(b) => CellView::Bool(*b),
            Cell::Int(k) => CellView::Int(*k),
            Cell::Text(s) => CellView::Text(s@),
            Cell::Number(n) => CellView::Number(*n),
            Cell::Document(v) => CellView::Document(*v),
        }
    }
}

/// The characters of an optional string.
pub open spec fn opt_text(o: Option<String>) -> Option<Seq<char>> {
    match o {
        Some(s) => Some(s@),
        None => None,
    }
}

/// Typed access to the cells of one result row, by column position. Each read
/// yields `None` when the cell is SQL null or cannot be decoded as asked. The
/// `_at` functions name what each read yields, which depends on the row and the
/// position alone; an implementation gives them the results of its reads.
pub trait RowSource {
    spec fn i16_at(&self, idx: usize) -> Option<i16>;

    spec fn i32_at(&self, idx: usize) -> Option<i32>;

    spec fn i64_at(&self, idx: usize) -> Option<i64>;

    spec fn text_at(&self, idx: usize) -> Option<String>;

    spec fn bool_at(&self, idx: usize) -> Option<bool>;

    spec fn float4_at(&self, idx: usize) -> Option<serde_json::Number>;

    spec fn float8_at(&self, idx: usize) -> Option<serde_json::Number>;

    spec fn timestamp_at(&self, idx: usize) -> Option<chrono::NaiveDateTime>;

    spec fn date_at(&self, idx: usize) -> Option<chrono::NaiveDate>;

    spec fn time_at(&self, idx: usize) -> Option<chrono::NaiveTime>;

    spec fn document_text_at(&self, idx: usize) -> Option<String>;

    fn read_i16(&self, idx: usize) -> (r: Option<i16>)
        ensures
            r == self.i16_at(idx),
    ;

    fn read_i32(&self, idx: usize) -> (r: Option<i32>)
        ensures
            r == self.i32_at(idx),
    ;

    fn read_i64(&self, idx: usize) -> (r: Option<i64>)
        ensures
            r == self.i64_at(idx),
    ;

    fn read_text(&self, idx: usize) -> (r: Option<String>)
        ensures
            r == self.text_at(idx),
    ;

    fn read_bool(&self, idx: usize) -> (r: Option<bool>)
        ensures
            r == self.bool_at(idx),
    ;

    fn read_float4(&self, idx: usize) -> (r: Option<serde_json::Number>)
        ensures
            r == self.float4_at(idx),
    ;

    fn read_float8(&self, idx: usize) -> (r: Option<serde_json::Number>)
        ensures
            r == self.float8_at(idx),
    ;

    fn read_timestamp(&self, idx: usize) -> (r: Option<chrono::NaiveDateTime>)
        ensures
            r == self.timestamp_at(idx),
    ;

    fn read_date(&self, idx: usize) -> (r: Option<chrono::NaiveDate>)
        ensures
            r == self.date_at(idx),
    ;

    fn read_time(&self, idx: usize) -> (r: Option<chrono::NaiveTime>)
        ensures
            r == self.time_at(idx),
    ;

    /// The text of a structured document (JSON or JSONB) cell.
    fn read_document_text(&self, idx: usize) -> (r: Option<String>)
        ensures
            r == self.document_text_at(idx),
    ;
}

/// The cell that a structured document's text gives: the parsed document, or null
/// when the text does not parse or the cell is null.
pub open spec fn document_cell(text: Option<Seq<char>>) -> CellView {
    match text {
        Some(s) => match parsed_json(s) {
            Some(v) => CellView::Document(v),
            None => CellView::Null,
        },
        None => CellView::Null,
    }
}

/// A text cell, or null.
pub open spec fn text_cell_of(text: Option<Seq<char>>) -> CellView {
    match text {
        Some(s) => CellView::Text(s),
        None => CellView::Null,
    }
}

/// The cell at `idx` of `row` along the decode path `kind`: the value read, in
/// its JSON form, or null when the read yields nothing. An unknown type is null.
pub open spec fn cell_of<R: RowSource>(kind: ColumnKind, row: R, idx: usize) -> CellView {
    match kind {
        ColumnKind::SmallInt => match row.i16_at(idx) {
            Some(v) => CellView::Int(v as i64),
            None => CellView::Null,
        },
        ColumnKind::Int => match row.i32_at(idx) {
            Some(v) => CellView::Int(v as i64),
            None => CellView::Null,
        },
        ColumnKind::BigInt => match row.i64_at(idx) {
            Some(v) => CellView::Int(v),
            None => CellView::Null,
        },
        ColumnKind::Text | ColumnKind::Numeric | ColumnKind::Uuid => text_cell_of(opt_text(row.text_at(idx))),
        ColumnKind::Bool => match row.bool_at(idx) {
            Some(v) => CellView::Bool(v),
            None => CellView::Null,
        },
        ColumnKind::Real => match row.float4_at(idx) {
            Some(v) => CellView::Number(v),
            None => CellView::Null,
        },
        ColumnKind::Double => match row.float8_at(idx) {
            Some(v) => CellView::Number(v),
            None => CellView::Null,
        },
        ColumnKind::Timestamp => match row.timestamp_at(idx) {
            Some(v) => CellView::Text(timestamp_text_of(v)),
            None => CellView::Null,
        },
        ColumnKind::Date => match row.date_at(idx) {
            Some(v) => CellView::Text(date_text_of(v)),
            None => CellView::Null,
        },
        ColumnKind::Time => match row.time_at(idx) {
            Some(v) => CellView::Text(time_text_of(v)),
            None => CellView::Null,
        },
        ColumnKind::Document => document_cell(opt_text(row.document_text_at(idx))),
        ColumnKind::Unknown => CellView::Null,
    }
}

/// A structured-document cell from its text: the parsed document when the text
/// parses, null when it does not or when the cell is null.
pub fn json_cell(text: Option<String>) -> (r: Cell)
    ensures
        r@ == document_cell(opt_text(text)),
{
    match text {
        Some(s) => match parse_document(s.as_str()) {
            Some(v) => Cell::Document(v),
            None => Cell::Null,
        },
        None => Cell::Null,
    }
}

/// A text cell from an optional string: the text, or null.
pub fn text_cell(v: Option<String>) -> (r: Cell)
    ensures
        r@ == text_cell_of(opt_text(v)),
{
    match v {
        Some(s) => Cell::Text(s),
        None => Cell::Null,
    }
}

/// Decodes the cell at `idx` along the path `kind`.
pub fn decode_cell<R: RowSource>(row: &R, idx: usize, kind: ColumnKind) -> (r: Cell)
    ensures
        r@ == cell_of(kind, *row, idx),
{
    match kind {
        ColumnKind::SmallInt => match row.read_i16(idx) {
            Some(v) => Cell::Int(v as i64),
            None => Cell::Null,
        },
        ColumnKind::Int => match row.read_i32(idx) {
            Some(v) => Cell::Int(v as i64),
            None => Cell::Null,
        },
        ColumnKind::BigInt => match row.read_i64(idx) {
            Some(v) => Cell::Int(v),
            None => Cell::Null,
        },
        ColumnKind::Text | ColumnKind::Numeric | ColumnKind::Uuid => text_cell(row.read_text(idx)),
        ColumnKind::Bool => match row.read_bool(idx) {
            Some(v) => Cell::Bool(v),
            None => Cell::Null,
        },
        ColumnKind::Real => match row.read_float4(idx) {
            Some(v) => Cell::Number(v),
            None => Cell::Null,
        },
        ColumnKind::Double => match row.read_float8(idx) {
            Some(v) => Cell::Number(v),
            None => Cell::Null,
        },
        ColumnKind::Timestamp => match row.read_timestamp(idx) {
            Some(v) => Cell::Text(timestamp_text(&v)),
            None => Cell::Null,
        },
        ColumnKind::Date => match row.read_date(idx) {
            Some(v) => Cell::Text(date_text(&v)),
            None => Cell::Null,
        },
        ColumnKind::Time => match row.read_time(idx) {
            Some(v) => Cell::Text(time_text(&v)),
            None => Cell::Null,
        },
        ColumnKind::Document => json_cell(row.read_document_text(idx)),
        ColumnKind::Unknown => Cell::Null,
    }
}

/// A result column: its name and the store's name for its type.
#[derive(Debug)]
pub struct ColumnInfo {
    pub name: String,
    pub declared: String,
}

/// One key of a marshaled row and its value.
#[derive(Debug)]
pub struct Field {
    pub key: String,
    pub value: Cell,
}

/// The keys and values of marshaled fields, in order.
pub open spec fn field_views(fields: Seq<Field>) -> Seq<(Seq<char>, CellView)> {
    fields.map_values(|f: Field| (f.key@, f.value@))
}

/// The object made of the first `n` columns: each column in turn sets its name
/// to its cell, overwriting the value of an earlier column of the same name in
/// place and otherwise adding a key at the end.
pub open spec fn object_upto<R: RowSource>(cols: Seq<ColumnInfo>, row: R, n: nat) -> Seq<
    (Seq<char>, CellView),
>
    decreases n,
{
    if n == 0 {
        seq![]
    } else {
        let prev = object_upto(cols, row, (n - 1) as nat);
        let key = cols[n - 1].name@;
        let value = cell_of(kind_of_type(cols[n - 1].declared@), row, (n - 1) as usize);
        if exists|j: int| 0 <= j < prev.len() && #[trigger] prev[j].0 == key {
            let j = choose|j: int| 0 <= j < prev.len() && #[trigger] prev[j].0 == key;
            prev.update(j, (key, value))
        } else {
            prev.push((key, value))
        }
    }
}

/// The object that a row with the columns `cols` marshals to.
pub open spec fn object_of<R: RowSource>(cols: Seq<ColumnInfo>, row: R) -> Seq<
    (Seq<char>, CellView),
> {
    object_upto(cols, row, cols.len())
}

/// No key occurs twice.
pub open spec fn keys_unique(fields: Seq<Field>) -> bool {
    forall|i: int, j: int|
        0 <= i < j < fields.len() ==> #[trigger] fields[i].key@ != #[trigger] fields[j].key@
}

/// Column `c` is the last column called `name`.
pub open spec fn last_named(cols: Seq<ColumnInfo>, c: int, name: Seq<char>) -> bool {
    &&& 0 <= c < cols.len()
    &&& cols[c].name@ == name
    &&& forall|d: int| c < d < cols.len() ==> #[trigger] cols[d].name@ != name
}

/// Some field is keyed `name`.
pub open spec fn has_key(fields: Seq<Field>, name: Seq<char>) -> bool {
    exists|j: int| 0 <= j < fields.len() && #[trigger] fields[j].key@ == name
}

/// The field's value is the cell of the last column named by its key.
pub open spec fn valued_by<R: RowSource>(cols: Seq<ColumnInfo>, row: R, f: Field) -> bool {
    exists|c: int|
        #[trigger] last_named(cols, c, f.key@) && f.value@ == cell_of(
            kind_of_type(cols[c].declared@),
            row,
            c as usize,
        )
}

/// `fields` marshals `row` with the columns `cols`: one key per distinct column
/// name, each valued by the cell of the last column of that name.
pub open spec fn marshals<R: RowSource>(cols: Seq<ColumnInfo>, row: R, fields: Seq<Field>) -> bool {
    &&& keys_unique(fields)
    &&& forall|c: int| 0 <= c < cols.len() ==> has_key(fields, #[trigger] cols[c].name@)
    &&& forall|j: int| 0 <= j < fields.len() ==> valued_by(cols, row, #[trigger] fields[j])
}

/// Finds the position of the field keyed `key`, if there is one.
fn find_key(fields: &Vec<Field>, key: &String) -> (r: Option<usize>)
    ensures
        r is Some ==> r->0 < fields@.len() && fields@[r->0 as int].key@ == key@,
        r is None ==> forall|j: int| 0 <= j < fields@.len() ==> fields@[j].key@ != key@,
{
    let mut j: usize = 0;
    while j < fields.len()
        invariant
            j <= fields@.len(),
            forall|k: int| 0 <= k < j ==> fields@[k].key@ != key@,
        decreases fields@.len() - j,
    {
        if fields[j].key == *key {
            return Some(j);
        }
        j += 1;
    }
    None
}

/// Marshals one row: every column yields a key, a later column of the same name
/// overwrites an earlier one, and no cell ever fails the call.
pub fn row_to_json<R: RowSource>(columns: &Vec<ColumnInfo>, row: &R) -> (r: Vec<Field>)
    ensures
        field_views(r@) == object_of(columns@, *row),
        marshals(columns@, *row, r@),
{
    let ghost cols = columns@;
    let mut out: Vec<Field> = Vec::new();
    let ghost mut src: Seq<int> = Seq::empty();
    let ghost mut pos: Seq<int> = Seq::empty();
    let mut c: usize = 0;
    while c < columns.len()
        invariant
            cols == columns@,
            c <= cols.len(),
            out@.len() == src.len(),
            pos.len() == c,
            keys_unique(out@),
            field_views(out@) == object_upto(cols, *row, c as nat),
            forall|j: int|
                0 <= j < out@.len() ==> {
                    &&& 0 <= #[trigger] src[j] < c
                    &&& cols[src[j]].name@ == out@[j].key@
                    &&& forall|d: int| src[j] < d < c ==> #[trigger] cols[d].name@ != out@[j].key@
                    &&& out@[j].value@ == cell_of(
                        kind_of_type(cols[src[j]].declared@),
                        *row,
                        src[j] as usize,
                    )
                },
            forall|d: int|
                0 <= d < c ==> 0 <= #[trigger] pos[d] < out@.len() && out@[pos[d]].key@
                    == cols[d].name@,
        decreases cols.len() - c,
    {
        let kind = column_kind(columns[c].declared.as_str());
        let cell = decode_cell(row, c, kind);
        let key = columns[c].name.clone();
        let ghost prev = field_views(out@);
        let ghost entry = (key@, cell@);
        match find_key(&out, &key) {
            Some(j) => {
                proof {
                    assert(prev[j as int].0 == key@);
                    let jj = choose|jj: int| 0 <= jj < prev.len() && #[trigger] prev[jj].0 == key@;
                    if jj != j as int {
                        if jj < j as int {
                            assert(out@[jj].key@ != out@[j as int].key@);
                        } else {
                            assert(out@[j as int].key@ != out@[jj].key@);
                        }
                    }
                }
                out[j] = Field { key, value: cell };
                proof {
                    assert(field_views(out@) =~= prev.update(j as int, entry));
                    src = src.update(j as int, c as int);
                    pos = pos.push(j as int);
                }
            },
            None => {
                proof {
                    assert(!exists|jj: int| 0 <= jj < prev.len() && #[trigger] prev[jj].0 == key@);
                }
                out.push(Field { key, value: cell });
                proof {
                    assert(field_views(out@) =~= prev.push(entry));
                    src = src.push(c as int);
                    pos = pos.push(out@.len() - 1);
                }
            },
        }
        c += 1;
    }
    assert forall|d: int| 0 <= d < cols.len() implies has_key(out@, #[trigger] cols[d].name@) by {
        assert(out@[pos[d]].key@ == cols[d].name@);
    }
    assert forall|j: int| 0 <= j < out@.len() implies valued_by(cols, *row, #[trigger] out@[j]) by {
        assert(last_named(cols, src[j], out@[j].key@));
    }
    out
}

/// Marshals every row of a result set, in order.
pub fn rows_to_json<R: RowSource>(columns: &Vec<ColumnInfo>, rows: &Vec<R>) -> (r: Vec<
    Vec<Field>,
>)
    ensures
        r@.len() == rows@.len(),
        forall|i: int|
            0 <= i < r@.len() ==> field_views(#[trigger] r@[i]@) == object_of(columns@, rows@[i])
                && marshals(columns@, rows@[i], r@[i]@),
{
    let mut out: Vec<Vec<Field>> = Vec::new();
    let mut i: usize = 0;
    while i < rows.len()
        invariant
            i <= rows@.len(),
            out@.len() == i,
            forall|k: int|
                0 <= k < i ==> field_views(#[trigger] out@[k]@) == object_of(columns@, rows@[k])
                    && marshals(columns@, rows@[k], out@[k]@),
        decreases rows@.len() - i,
    {
        out.push(row_to_json(columns, &rows[i]));
        i += 1;
    }
    out
}

/// Marshaling is total and keeps names one to one: every column's name is the key
/// of exactly one field, and when the last column of that name has a type outside
/// the dispatch table, that field is null.
pub proof fn lemma_marshal_total<R: RowSource>(
    cols: Seq<ColumnInfo>,
    row: R,
    fields: Seq<Field>,
    c: int,
)
    requires
        marshals(cols, row, fields),
        0 <= c < cols.len(),
    ensures
        exists|j: int|
            0 <= j < fields.len() && #[trigger] fields[j].key@ == cols[c].name@ && forall|k: int|
                0 <= k < fields.len() && #[trigger] fields[k].key@ == cols[c].name@ ==> k == j,
        last_named(cols, c, cols[c].name@) && kind_of_type(cols[c].declared@)
            == ColumnKind::Unknown ==> forall|j: int|
            0 <= j < fields.len() && #[trigger] fields[j].key@ == cols[c].name@
                ==> fields[j].value@ == CellView::Null,
{
    let name = cols[c].name@;
    assert(has_key(fields, cols[c].name@));
    let j = choose|j: int| 0 <= j < fields.len() && #[trigger] fields[j].key@ == name;
    assert forall|k: int| 0 <= k < fields.len() && #[trigger] fields[k].key@ == name implies k
        == j by {
        if k < j {
            assert(fields[k].key@ != fields[j].key@);
        } else if j < k {
            assert(fields[j].key@ != fields[k].key@);
        }
    }
    if last_named(cols, c, name) && kind_of_type(cols[c].declared@) == ColumnKind::Unknown {
        assert forall|i: int| 0 <= i < fields.len() && #[trigger] fields[i].key@ == name implies
            fields[i].value@ == CellView::Null by {
            assert(valued_by(cols, row, fields[i]));
            let d = choose|d: int|
                #[trigger] last_named(cols, d, fields[i].key@) && fields[i].value@ == cell_of(
                    kind_of_type(cols[d].declared@),
                    row,
                    d as usize,
                );
            if d < c {
                assert(cols[c].name@ != name);
            } else if c < d {
                assert(cols[d].name@ != name);
            }
        }
    }
}

/// Marshaling the same row twice gives the same object, key for key and value for
/// value, in the same order.
pub proof fn lemma_marshal_deterministic<R: RowSource>(
    cols: Seq<ColumnInfo>,
    row: R,
    first: Seq<Field>,
    second: Seq<Field>,
)
    requires
        field_views(first) == object_of(cols, row),
        field_views(second) == object_of(cols, row),
    ensures
        field_views(first) == field_views(second),
{
}

/// Whatever the cells hold, the keys of a marshaled row are exactly the column
/// names.
pub proof fn lemma_keys_follow_columns<R: RowSource>(
    cols: Seq<ColumnInfo>,
    row: R,
    fields: Seq<Field>,
    name: Seq<char>,
)
    requires
        marshals(cols, row, fields),
    ensures
        has_key(fields, name) <==> exists|c: int| 0 <= c < cols.len() && #[trigger] cols[c].name@ == name,
{
    if has_key(fields, name) {
        let j = choose|j: int| 0 <= j < fields.len() && #[trigger] fields[j].key@ == name;
        assert(valued_by(cols, row, fields[j]));
        let c = choose|c: int|
            #[trigger] last_named(cols, c, fields[j].key@) && fields[j].value@ == cell_of(
                kind_of_type(cols[c].declared@),
                row,
                c as usize,
            );
        assert(0 <= c < cols.len() && cols[c].name@ == name);
    }
    if exists|c: int| 0 <= c < cols.len() && #[trigger] cols[c].name@ == name {
        let c = choose|c: int| 0 <= c < cols.len() && #[trigger] cols[c].name@ == name;
        assert(has_key(fields, cols[c].name@));
    }
}

/// A stored cell of an in-memory row.
#[derive(Debug)]
pub enum Stored {
    Null,
    Int(i64),
    Text(String),
    Bool(bool),
    Timestamp(chrono::NaiveDateTime),
    Date(chrono::NaiveDate),
    Time(chrono::NaiveTime),
}

/// A row held in memory, one stored cell per column. Integer reads narrow only
/// when the value fits; text and documents both read text cells. It holds no
/// floating-point cells, so its float reads yield nothing.
#[derive(Debug)]
pub struct MemoryRow {
    pub cells: Vec<Stored>,
}

impl MemoryRow {
    /// The stored cell at `idx`, if the row has that many cells.
    pub open spec fn stored(&self, idx: usize) -> Option<Stored> {
        if idx < self.cells@.len() {
            Some(self.cells@[idx as int])
        } else {
            None
        }
    }

    fn int_cell(&self, idx: usize) -> (r: Option<i64>)
        ensures
            r == match self.stored(idx) {
                Some(Stored::Int(k)) => Some(k),
                _ => None::<i64>,
            },
    {
        if idx < self.cells.len() {
            match &self.cells[idx] {
                Stored::Int(k) => Some(*k),
                _ => None,
            }
        } else {
            None
        }
    }

    fn text_cell(&self, idx: usize) -> (r: Option<String>)
        ensures
            r == match self.stored(idx) {
                Some(Stored::Text(s)) => Some(s),
                _ => None::<String>,
            },
    {
        if idx < self.cells.len() {
            match &self.cells[idx] {
                Stored::Text(s) => Some(s.clone()),
                _ => None,
            }
        } else {
            None
        }
    }
}

impl RowSource for MemoryRow {
    open spec fn i16_at(&self, idx: usize) -> Option<i16> {
        match self.stored(idx) {
            Some(Stored::Int(k)) => if i16::MIN <= k <= i16::MAX {
                Some(k as i16)
            } else {
                None
            },
            _ => None,
        }
    }

    open spec fn i32_at(&self, idx: usize) -> Option<i32> {
        match self.stored(idx) {
            Some(Stored::Int(k)) => if i32::MIN <= k <= i32::MAX {
                Some(k as i32)
            } else {
                None
            },
            _ => None,
        }
    }

    open spec fn i64_at(&self, idx: usize) -> Option<i64> {
        match self.stored(idx) {
            Some(Stored::Int(k)) => Some(k),
            _ => None,
        }
    }

    open spec fn text_at(&self, idx: usize) -> Option<String> {
        match self.stored(idx) {
            Some(Stored::Text(s)) => Some(s),
            _ => None,
        }
    }

    open spec fn bool_at(&self, idx: usize) -> Option<bool> {
        match self.stored(idx) {
            Some(Stored::Bool(b)) => Some(b),
            _ => None,
        }
    }

    open spec fn float4_at(&self, idx: usize) -> Option<serde_json::Number> {
        None
    }

    open spec fn float8_at(&self, idx: usize) -> Option<serde_json::Number> {
        None
    }

    open spec fn timestamp_at(&self, idx: usize) -> Option<chrono::NaiveDateTime> {
        match self.stored(idx) {
            Some(Stored::Timestamp(t)) => Some(t),
            _ => None,
        }
    }

    open spec fn date_at(&self, idx: usize) -> Option<chrono::NaiveDate> {
        match self.stored(idx) {
            Some(Stored::Date(d)) => Some(d),
            _ => None,
        }
    }

    open spec fn time_at(&self, idx: usize) -> Option<chrono::NaiveTime> {
        match self.stored(idx) {
            Some(Stored::Time(t)) => Some(t),
            _ => None,
        }
    }

    open spec fn document_text_at(&self, idx: usize) -> Option<String> {
        self.text_at(idx)
    }

    fn read_i16(&self, idx: usize) -> (r: Option<i16>) {
        match self.int_cell(idx) {
            Some(k) => if -32768 <= k && k <= 32767 {
                Some(k as i16)
            } else {
                None
            },
            None => None,
        }
    }

    fn read_i32(&self, idx: usize) -> (r: Option<i32>) {
        match self.int_cell(idx) {
            Some(k) => if -2147483648 <= k && k <= 2147483647 {
                Some(k as i32)
            } else {
                None
            },
            None => None,
        }
    }

    fn read_i64(&self, idx: usize) -> (r: Option<i64>) {
        self.int_cell(idx)
    }

    fn read_text(&self, idx: usize) -> (r: Option<String>) {
        self.text_cell(idx)
    }

    fn read_bool(&self, idx: usize) -> (r: Option<bool>) {
        if idx < self.cells.len() {
            match &self.cells[idx] {
                Stored::Bool(b) => Some(*b),
                _ => None,
            }
        } else {
            None
        }
    }

    fn read_float4(&self, idx: usize) -> (r: Option<serde_json::Number>) {
        None
    }

    fn read_float8(&self, idx: usize) -> (r: Option<serde_json::Number>) {
        None
    }

    fn read_timestamp(&self, idx: usize) -> (r: Option<chrono::NaiveDateTime>) {
        if idx < self.cells.len() {
            match &self.cells[idx] {
                Stored::Timestamp(t) => Some(*t),
                _ => None,
            }
        } else {
            None
        }
    }

    fn read_date(&self, idx: usize) -> (r: Option<chrono::NaiveDate>) {
        if idx < self.cells.len() {
            match &self.cells[idx] {
                Stored::Date(d) => Some(*d),
                _ => None,
            }
        } else {
            None
        }
    }

    fn read_time(&self, idx: usize) -> (r: Option<chrono::NaiveTime>) {
        if idx < self.cells.len() {
            match &self.cells[idx] {
                Stored::Time(t) => Some(*t),
                _ => None,
            }
        } else {
            None
        }
    }

    fn read_document_text(&self, idx: usize) -> (r: Option<String>) {
        self.text_cell(idx)
    }
}

} // verus!

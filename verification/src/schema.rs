use vstd::prelude::*;

verus! {

/// The primitive cell types of the output schema.
#[derive(Debug, Clone, Copy, PartialEq, Eq, Structural)]
pub enum PrimKind {
    Utf8,
    Int32,
    Int64,
    Boolean,
    Float32,
}

/// One field of a struct-valued column.
#[derive(Debug, Clone)]
pub struct SubField {
    pub name: String,
    pub kind: PrimKind,
    pub nullable: bool,
}

/// A column is either a primitive or a one-level struct of primitives.
#[derive(Debug, Clone)]
pub enum ColumnKind {
    Prim(PrimKind),
    StructOf(Vec<SubField>),
}

/// One declared output column: its name, type and nullability.
#[derive(Debug, Clone)]
pub struct Column {
    pub name: String,
    pub kind: ColumnKind,
    pub nullable: bool,
}

/// A primitive cell value. Float32 cells carry the number's literal text:
/// the verified core holds no floating point value, and the consumer
/// parses the text into its own 32-bit float representation.
#[derive(Debug, Clone, PartialEq)]
pub enum PrimCell {
    Null,
    Utf8(String),
    Int32(i32),
    Int64(i64),
    Boolean(bool),
    Float32Text(String),
}

/// One cell of an output row: a primitive, or a struct of primitives for
/// the struct-valued columns.
#[derive(Debug, Clone, PartialEq)]
pub enum CellValue {
    Prim(PrimCell),
    StructVal(Vec<PrimCell>),
}

/// A primitive cell fits a slot exactly when its type matches, or it is
/// null and the slot is nullable.
pub open spec fn prim_conforms(c: PrimCell, kind: PrimKind, nullable: bool) -> bool {
    match c {
        PrimCell::Null => nullable,
        PrimCell::Utf8(_) => kind == PrimKind::Utf8,
        PrimCell::Int32(_) => kind == PrimKind::Int32,
        PrimCell::Int64(_) => kind == PrimKind::Int64,
        PrimCell::Boolean(_) => kind == PrimKind::Boolean,
        PrimCell::Float32Text(_) => kind == PrimKind::Float32,
    }
}

/// A cell fits a column exactly when its shape and type match the
/// column's declaration, with null only where the column is nullable.
pub open spec fn cell_conforms(c: CellValue, col: Column) -> bool {
    match c {
        CellValue::Prim(p) => match col.kind {
            ColumnKind::Prim(k) => prim_conforms(p, k, col.nullable),
            ColumnKind::StructOf(_) => p matches PrimCell::Null && col.nullable,
        },
        CellValue::StructVal(ps) => match col.kind {
            ColumnKind::Prim(_) => false,
            ColumnKind::StructOf(subs) => ps@.len() == subs@.len() && forall|j: int|
                0 <= j < ps@.len() ==> prim_conforms(
                    #[trigger] ps@[j],
                    subs@[j].kind,
                    subs@[j].nullable,
                ),
        },
    }
}

/// A row fits a schema when it has one conforming cell per column.
pub open spec fn row_conforms(schema: Seq<Column>, row: Seq<CellValue>) -> bool {
    row.len() == schema.len() && forall|j: int|
        0 <= j < row.len() ==> cell_conforms(#[trigger] row[j], schema[j])
}

/// The columnar output batch: a declared schema and one cell row per
/// input record, in input order.
#[derive(Debug)]
pub struct ProjectedBatch {
    pub schema: Vec<Column>,
    pub rows: Vec<Vec<CellValue>>,
}

impl ProjectedBatch {
    /// Every row fits the declared schema.
    pub open spec fn wf(self) -> bool {
        forall|i: int| 0 <= i < self.rows@.len() ==> row_conforms(
            self.schema@,
            (#[trigger] self.rows@[i])@,
        )
    }

    pub fn num_rows(&self) -> (n: usize)
        ensures
            n == self.rows@.len(),
    {
        self.rows.len()
    }
}

/// The five fields of a game's `white`/`black` struct column, all
/// required; the service's `@id` key is kept verbatim as a column name.
pub open spec fn is_side_fields(fs: Seq<SubField>) -> bool {
    &&& fs.len() == 5
    &&& fs[0].name@ == "rating"@ && fs[0].kind == PrimKind::Int32 && !fs[0].nullable
    &&& fs[1].name@ == "result"@ && fs[1].kind == PrimKind::Utf8 && !fs[1].nullable
    &&& fs[2].name@ == "@id"@ && fs[2].kind == PrimKind::Utf8 && !fs[2].nullable
    &&& fs[3].name@ == "username"@ && fs[3].kind == PrimKind::Utf8 && !fs[3].nullable
    &&& fs[4].name@ == "uuid"@ && fs[4].kind == PrimKind::Utf8 && !fs[4].nullable
}

/// The two fields of the `accuracies` struct column; the struct as a
/// whole is nullable, but once present both sides are required.
pub open spec fn is_accuracies_fields(fs: Seq<SubField>) -> bool {
    &&& fs.len() == 2
    &&& fs[0].name@ == "white"@ && fs[0].kind == PrimKind::Float32 && !fs[0].nullable
    &&& fs[1].name@ == "black"@ && fs[1].kind == PrimKind::Float32 && !fs[1].nullable
}

/// The declared game schema: fifteen columns, with `url`, `pgn` and
/// `accuracies` the only nullable ones.
pub open spec fn is_game_schema(s: Seq<Column>) -> bool {
    &&& s.len() == 15
    &&& s[0].name@ == "end_time"@ && s[0].kind == ColumnKind::Prim(PrimKind::Int64) && !s[0].nullable
    &&& s[1].name@ == "url"@ && s[1].kind == ColumnKind::Prim(PrimKind::Utf8) && s[1].nullable
    &&& s[2].name@ == "pgn"@ && s[2].kind == ColumnKind::Prim(PrimKind::Utf8) && s[2].nullable
    &&& s[3].name@ == "time_control"@ && s[3].kind == ColumnKind::Prim(PrimKind::Utf8) && !s[3].nullable
    &&& s[4].name@ == "rated"@ && s[4].kind == ColumnKind::Prim(PrimKind::Boolean) && !s[4].nullable
    &&& s[5].name@ == "tcn"@ && s[5].kind == ColumnKind::Prim(PrimKind::Utf8) && !s[5].nullable
    &&& s[6].name@ == "uuid"@ && s[6].kind == ColumnKind::Prim(PrimKind::Utf8) && !s[6].nullable
    &&& s[7].name@ == "initial_setup"@ && s[7].kind == ColumnKind::Prim(PrimKind::Utf8) && !s[7].nullable
    &&& s[8].name@ == "fen"@ && s[8].kind == ColumnKind::Prim(PrimKind::Utf8) && !s[8].nullable
    &&& s[9].name@ == "time_class"@ && s[9].kind == ColumnKind::Prim(PrimKind::Utf8) && !s[9].nullable
    &&& s[10].name@ == "rules"@ && s[10].kind == ColumnKind::Prim(PrimKind::Utf8) && !s[10].nullable
    &&& s[11].name@ == "eco"@ && s[11].kind == ColumnKind::Prim(PrimKind::Utf8) && !s[11].nullable
    &&& s[12].name@ == "accuracies"@ && s[12].nullable && (s[12].kind matches ColumnKind::StructOf(fs) && is_accuracies_fields(fs@))
    &&& s[13].name@ == "white"@ && !s[13].nullable && (s[13].kind matches ColumnKind::StructOf(fs) && is_side_fields(fs@))
    &&& s[14].name@ == "black"@ && !s[14].nullable && (s[14].kind matches ColumnKind::StructOf(fs) && is_side_fields(fs@))
}

/// The declared profile schema: sixteen columns, with `url` and `title`
/// the only nullable ones; the service's `@id` key is kept verbatim.
pub open spec fn is_profile_schema(s: Seq<Column>) -> bool {
    &&& s.len() == 16
    &&& s[0].name@ == "avatar"@ && s[0].kind == ColumnKind::Prim(PrimKind::Utf8) && !s[0].nullable
    &&& s[1].name@ == "player_id"@ && s[1].kind == ColumnKind::Prim(PrimKind::Int32) && !s[1].nullable
    &&& s[2].name@ == "@id"@ && s[2].kind == ColumnKind::Prim(PrimKind::Utf8) && !s[2].nullable
    &&& s[3].name@ == "url"@ && s[3].kind == ColumnKind::Prim(PrimKind::Utf8) && s[3].nullable
    &&& s[4].name@ == "name"@ && s[4].kind == ColumnKind::Prim(PrimKind::Utf8) && !s[4].nullable
    &&& s[5].name@ == "username"@ && s[5].kind == ColumnKind::Prim(PrimKind::Utf8) && !s[5].nullable
    &&& s[6].name@ == "title"@ && s[6].kind == ColumnKind::Prim(PrimKind::Utf8) && s[6].nullable
    &&& s[7].name@ == "followers"@ && s[7].kind == ColumnKind::Prim(PrimKind::Int32) && !s[7].nullable
    &&& s[8].name@ == "country"@ && s[8].kind == ColumnKind::Prim(PrimKind::Utf8) && !s[8].nullable
    &&& s[9].name@ == "location"@ && s[9].kind == ColumnKind::Prim(PrimKind::Utf8) && !s[9].nullable
    &&& s[10].name@ == "last_online"@ && s[10].kind == ColumnKind::Prim(PrimKind::Int64) && !s[10].nullable
    &&& s[11].name@ == "joined"@ && s[11].kind == ColumnKind::Prim(PrimKind::Int64) && !s[11].nullable
    &&& s[12].name@ == "status"@ && s[12].kind == ColumnKind::Prim(PrimKind::Utf8) && !s[12].nullable
    &&& s[13].name@ == "is_streamer"@ && s[13].kind == ColumnKind::Prim(PrimKind::Boolean) && !s[13].nullable
    &&& s[14].name@ == "verified"@ && s[14].kind == ColumnKind::Prim(PrimKind::Boolean) && !s[14].nullable
    &&& s[15].name@ == "league"@ && s[15].kind == ColumnKind::Prim(PrimKind::Utf8) && !s[15].nullable
}

fn prim_column(name: &str, kind: PrimKind, nullable: bool) -> (c: Column)
    ensures
        c.name@ == name@ && c.kind == ColumnKind::Prim(kind) && c.nullable == nullable,
{
    Column { name: name.to_owned(), kind: ColumnKind::Prim(kind), nullable }
}

fn sub_field(name: &str, kind: PrimKind, nullable: bool) -> (f: SubField)
    ensures
        f.name@ == name@ && f.kind == kind && f.nullable == nullable,
{
    SubField { name: name.to_owned(), kind, nullable }
}

/// The side struct fields, in declaration order.
fn side_fields() -> (fs: Vec<SubField>)
    ensures
        is_side_fields(fs@),
{
    let mut fs: Vec<SubField> = Vec::new();
    fs.push(sub_field("rating", PrimKind::Int32, false));
    fs.push(sub_field("result", PrimKind::Utf8, false));
    fs.push(sub_field("@id", PrimKind::Utf8, false));
    fs.push(sub_field("username", PrimKind::Utf8, false));
    fs.push(sub_field("uuid", PrimKind::Utf8, false));
    fs
}

/// The declared output schema for game batches.
pub fn game_schema() -> (s: Vec<Column>)
    ensures
        is_game_schema(s@),
{
    let mut acc: Vec<SubField> = Vec::new();
    acc.push(sub_field("white", PrimKind::Float32, false));
    acc.push(sub_field("black", PrimKind::Float32, false));
    let mut s: Vec<Column> = Vec::new();
    s.push(prim_column("end_time", PrimKind::Int64, false));
    s.push(prim_column("url", PrimKind::Utf8, true));
    s.push(prim_column("pgn", PrimKind::Utf8, true));
    s.push(prim_column("time_control", PrimKind::Utf8, false));
    s.push(prim_column("rated", PrimKind::Boolean, false));
    s.push(prim_column("tcn", PrimKind::Utf8, false));
    s.push(prim_column("uuid", PrimKind::Utf8, false));
    s.push(prim_column("initial_setup", PrimKind::Utf8, false));
    s.push(prim_column("fen", PrimKind::Utf8, false));
    s.push(prim_column("time_class", PrimKind::Utf8, false));
    s.push(prim_column("rules", PrimKind::Utf8, false));
    s.push(prim_column("eco", PrimKind::Utf8, false));
    s.push(
        Column {
            name: "accuracies".to_owned(),
            kind: ColumnKind::StructOf(acc),
            nullable: true,
        },
    );
    s.push(
        Column { name: "white".to_owned(), kind: ColumnKind::StructOf(side_fields()), nullable: false },
    );
    s.push(
        Column { name: "black".to_owned(), kind: ColumnKind::StructOf(side_fields()), nullable: false },
    );
    s
}

/// The declared output schema for profile batches.
pub fn profile_schema() -> (s: Vec<Column>)
    ensures
        is_profile_schema(s@),
{
    let mut s: Vec<Column> = Vec::new();
    s.push(prim_column("avatar", PrimKind::Utf8, false));
    s.push(prim_column("player_id", PrimKind::Int32, false));
    s.push(prim_column("@id", PrimKind::Utf8, false));
    s.push(prim_column("url", PrimKind::Utf8, true));
    s.push(prim_column("name", PrimKind::Utf8, false));
    s.push(prim_column("username", PrimKind::Utf8, false));
    s.push(prim_column("title", PrimKind::Utf8, true));
    s.push(prim_column("followers", PrimKind::Int32, false));
    s.push(prim_column("country", PrimKind::Utf8, false));
    s.push(prim_column("location", PrimKind::Utf8, false));
    s.push(prim_column("last_online", PrimKind::Int64, false));
    s.push(prim_column("joined", PrimKind::Int64, false));
    s.push(prim_column("status", PrimKind::Utf8, false));
    s.push(prim_column("is_streamer", PrimKind::Boolean, false));
    s.push(prim_column("verified", PrimKind::Boolean, false));
    s.push(prim_column("league", PrimKind::Utf8, false));
    s
}

} // verus!

use vstd::prelude::*;

use crate::decode::spec_opt_bool;
use crate::decode::spec_opt_i32;
use crate::decode::spec_opt_i64;
use crate::decode::spec_opt_num_text;
use crate::decode::spec_opt_string;
use crate::errors::IngestError;
use crate::games::Accuracies;
use crate::games::Game;
use crate::games::Games;
use crate::games::PlayerInformation;
use crate::games::game_matches_model;
use crate::json::JsonModel;
use crate::json::model_entry;
use crate::json::model_is_null;
use crate::schema::CellValue;
use crate::schema::Column;
use crate::schema::PrimCell;
use crate::schema::ProjectedBatch;
use crate::schema::game_schema;
use crate::schema::is_game_schema;
use crate::schema::row_conforms;

verus! {

/// A `SchemaProjectionError` naming the required field that is missing.
pub(crate) fn missing_field(field: &str) -> (e: IngestError)
    ensures
        e matches IngestError::SchemaProjectionError(m) && m@ == "missing required field: "@
            + field@,
{
    IngestError::SchemaProjectionError(
        "missing required field: ".to_owned().concat(field),
    )
}

/// All five side fields are present, as the schema requires.
pub open spec fn side_ok(s: PlayerInformation) -> bool {
    s.rating is Some && s.result is Some && s.id is Some && s.username is Some && s.uuid is Some
}

/// Both accuracy sides are present; required once the struct exists.
pub open spec fn accuracies_ok(a: Accuracies) -> bool {
    a.white is Some && a.black is Some
}

/// A game satisfies the declared game schema: every non-nullable column's
/// source field is present, and present structs are complete.
pub open spec fn game_ok(g: Game) -> bool {
    &&& g.end_time is Some
    &&& g.time_control is Some
    &&& g.rated is Some
    &&& g.tcn is Some
    &&& g.uuid is Some
    &&& g.initial_setup is Some
    &&& g.fen is Some
    &&& g.time_class is Some
    &&& g.rules is Some
    &&& g.eco is Some
    &&& (g.accuracies matches Some(a) ==> accuracies_ok(a))
    &&& (g.white matches Some(w) && side_ok(w))
    &&& (g.black matches Some(b) && side_ok(b))
}

/// The side object under the key is present, non-null and complete, as
/// the schema's `white`/`black` struct columns require.
pub open spec fn model_side_projects(m: JsonModel, k: Seq<char>) -> bool {
    match model_entry(m, k) {
        Option::None => false,
        Option::Some(x) => {
            &&& !model_is_null(x)
            &&& spec_opt_i32(x, "rating"@) matches Some(Some(_))
            &&& spec_opt_string(x, "result"@) matches Some(Some(_))
            &&& spec_opt_string(x, "@id"@) matches Some(Some(_))
            &&& spec_opt_string(x, "username"@) matches Some(Some(_))
            &&& spec_opt_string(x, "uuid"@) matches Some(Some(_))
        },
    }
}

/// The modelled game satisfies the declared schema: every required
/// field is present and non-null, both side structs are complete, and a
/// present accuracies struct holds both numbers.
pub open spec fn model_game_projects(m: JsonModel) -> bool {
    &&& spec_opt_i64(m, "end_time"@) matches Some(Some(_))
    &&& spec_opt_string(m, "time_control"@) matches Some(Some(_))
    &&& spec_opt_bool(m, "rated"@) matches Some(Some(_))
    &&& spec_opt_string(m, "tcn"@) matches Some(Some(_))
    &&& spec_opt_string(m, "uuid"@) matches Some(Some(_))
    &&& spec_opt_string(m, "initial_setup"@) matches Some(Some(_))
    &&& spec_opt_string(m, "fen"@) matches Some(Some(_))
    &&& spec_opt_string(m, "time_class"@) matches Some(Some(_))
    &&& spec_opt_string(m, "rules"@) matches Some(Some(_))
    &&& spec_opt_string(m, "eco"@) matches Some(Some(_))
    &&& (match model_entry(m, "accuracies"@) {
        Option::None => true,
        Option::Some(x) => model_is_null(x) || (spec_opt_num_text(x, "white"@) matches Some(Some(_)) && spec_opt_num_text(x, "black"@) matches Some(Some(_))),
    })
    &&& model_side_projects(m, "white"@)
    &&& model_side_projects(m, "black"@)
}

/// A game that holds its model's values satisfies the schema exactly
/// when the model does.
pub proof fn lemma_game_ok_of_model(g: Game, m: JsonModel)
    requires
        game_matches_model(g, m),
    ensures
        game_ok(g) <==> model_game_projects(m),
{
}

/// The row holds the projection of some game that carries exactly the
/// model's field values and satisfies the schema.
pub open spec fn game_row_of_model(row: Seq<CellValue>, m: JsonModel) -> bool {
    exists|g: Game| game_matches_model(g, m) && game_ok(g) && game_row_matches(g, row)
}

/// A missing optional string maps to a null cell, a present one to text.
pub open spec fn opt_utf8_cell(o: Option<String>) -> PrimCell {
    match o {
        Option::None => PrimCell::Null,
        Option::Some(s) => PrimCell::Utf8(s),
    }
}

/// The cells of a side struct column, in declaration order.
pub open spec fn side_cells(w: PlayerInformation) -> Seq<PrimCell> {
    seq![
        PrimCell::Int32(w.rating.unwrap()),
        PrimCell::Utf8(w.result.unwrap()),
        PrimCell::Utf8(w.id.unwrap()),
        PrimCell::Utf8(w.username.unwrap()),
        PrimCell::Utf8(w.uuid.unwrap()),
    ]
}

/// The cells of the accuracies struct column.
pub open spec fn accuracies_cells(a: Accuracies) -> Seq<PrimCell> {
    seq![
        PrimCell::Float32Text(a.white.unwrap()),
        PrimCell::Float32Text(a.black.unwrap()),
    ]
}

/// The row a game projects to, cell by cell, in schema column order.
pub open spec fn game_row_matches(g: Game, row: Seq<CellValue>) -> bool {
    &&& row.len() == 15
    &&& row[0] == CellValue::Prim(PrimCell::Int64(g.end_time.unwrap()))
    &&& row[1] == CellValue::Prim(opt_utf8_cell(g.url))
    &&& row[2] == CellValue::Prim(opt_utf8_cell(g.pgn))
    &&& row[3] == CellValue::Prim(PrimCell::Utf8(g.time_control.unwrap()))
    &&& row[4] == CellValue::Prim(PrimCell::Boolean(g.rated.unwrap()))
    &&& row[5] == CellValue::Prim(PrimCell::Utf8(g.tcn.unwrap()))
    &&& row[6] == CellValue::Prim(PrimCell::Utf8(g.uuid.unwrap()))
    &&& row[7] == CellValue::Prim(PrimCell::Utf8(g.initial_setup.unwrap()))
    &&& row[8] == CellValue::Prim(PrimCell::Utf8(g.fen.unwrap()))
    &&& row[9] == CellValue::Prim(PrimCell::Utf8(g.time_class.unwrap()))
    &&& row[10] == CellValue::Prim(PrimCell::Utf8(g.rules.unwrap()))
    &&& row[11] == CellValue::Prim(PrimCell::Utf8(g.eco.unwrap()))
    &&& (g.accuracies is None ==> row[12] == CellValue::Prim(PrimCell::Null))
    &&& (g.accuracies matches Some(a) ==> (row[12] matches CellValue::StructVal(ps) && ps@
        == accuracies_cells(a)))
    &&& (g.white matches Some(w) ==> (row[13] matches CellValue::StructVal(ps) && ps@
        == side_cells(w)))
    &&& (g.black matches Some(b) ==> (row[14] matches CellValue::StructVal(ps) && ps@
        == side_cells(b)))
}

/// A row built for a game that satisfies the schema conforms to any
/// column list declaring the game schema.
pub proof fn lemma_game_row_conforms(g: Game, row: Seq<CellValue>, schema: Seq<Column>)
    requires
        game_ok(g),
        game_row_matches(g, row),
        is_game_schema(schema),
    ensures
        row_conforms(schema, row),
{
    assert forall|j: int| 0 <= j < row.len() implies crate::schema::cell_conforms(
        row[j],
        schema[j],
    ) by {
        if j == 12 {
            if g.accuracies is Some {
                let a = g.accuracies.unwrap();
                assert(accuracies_cells(a).len() == 2);
            }
        } else if j == 13 {
            let w = g.white.unwrap();
            assert(side_cells(w).len() == 5);
        } else if j == 14 {
            let b = g.black.unwrap();
            assert(side_cells(b).len() == 5);
        }
    }
}

/// Builds the struct cell for one side, failing with
/// `SchemaProjectionError` exactly when one of the five required side
/// fields is missing.
fn side_cell(side: &PlayerInformation) -> (r: Result<CellValue, IngestError>)
    ensures
        r is Ok <==> side_ok(*side),
        r matches Ok(c) ==> (c matches CellValue::StructVal(ps) && ps@ == side_cells(*side)),
        r matches Err(e) ==> e matches IngestError::SchemaProjectionError(_),
{
    let rating = match &side.rating {
        Some(x) => *x,
        None => {
            return Err(missing_field("rating"));
        },
    };
    let result = match &side.result {
        Some(s) => s.clone(),
        None => {
            return Err(missing_field("result"));
        },
    };
    let id = match &side.id {
        Some(s) => s.clone(),
        None => {
            return Err(missing_field("@id"));
        },
    };
    let username = match &side.username {
        Some(s) => s.clone(),
        None => {
            return Err(missing_field("username"));
        },
    };
    let uuid = match &side.uuid {
        Some(s) => s.clone(),
        None => {
            return Err(missing_field("uuid"));
        },
    };
    let mut ps: Vec<PrimCell> = Vec::new();
    ps.push(PrimCell::Int32(rating));
    ps.push(PrimCell::Utf8(result));
    ps.push(PrimCell::Utf8(id));
    ps.push(PrimCell::Utf8(username));
    ps.push(PrimCell::Utf8(uuid));
    proof {
        assert(ps@ =~= side_cells(*side));
    }
    Ok(CellValue::StructVal(ps))
}

/// Projects one game onto the declared game schema: a missing required
/// field fails with `SchemaProjectionError`; missing optional fields
/// become null cells.
pub fn game_row(g: &Game) -> (r: Result<Vec<CellValue>, IngestError>)
    ensures
        r is Ok <==> game_ok(*g),
        r matches Ok(row) ==> game_row_matches(*g, row@),
        r matches Err(e) ==> e matches IngestError::SchemaProjectionError(_),
{
    let end_time = match &g.end_time {
        Some(x) => *x,
        None => {
            return Err(missing_field("end_time"));
        },
    };
    let time_control = match &g.time_control {
        Some(s) => s.clone(),
        None => {
            return Err(missing_field("time_control"));
        },
    };
    let rated = match &g.rated {
        Some(x) => *x,
        None => {
            return Err(missing_field("rated"));
        },
    };
    let tcn = match &g.tcn {
        Some(s) => s.clone(),
        None => {
            return Err(missing_field("tcn"));
        },
    };
    let uuid = match &g.uuid {
        Some(s) => s.clone(),
        None => {
            return Err(missing_field("uuid"));
        },
    };
    let initial_setup = match &g.initial_setup {
        Some(s) => s.clone(),
        None => {
            return Err(missing_field("initial_setup"));
        },
    };
    let fen = match &g.fen {
        Some(s) => s.clone(),
        None => {
            return Err(missing_field("fen"));
        },
    };
    let time_class = match &g.time_class {
        Some(s) => s.clone(),
        None => {
            return Err(missing_field("time_class"));
        },
    };
    let rules = match &g.rules {
        Some(s) => s.clone(),
        None => {
            return Err(missing_field("rules"));
        },
    };
    let eco = match &g.eco {
        Some(s) => s.clone(),
        None => {
            return Err(missing_field("eco"));
        },
    };
    let acc_cell = match &g.accuracies {
        None => CellValue::Prim(PrimCell::Null),
        Some(a) => {
            let white_text = match &a.white {
                Some(s) => s.clone(),
                None => {
                    return Err(missing_field("accuracies.white"));
                },
            };
            let black_text = match &a.black {
                Some(s) => s.clone(),
                None => {
                    return Err(missing_field("accuracies.black"));
                },
            };
            let mut ps: Vec<PrimCell> = Vec::new();
            ps.push(PrimCell::Float32Text(white_text));
            ps.push(PrimCell::Float32Text(black_text));
            proof {
                assert(ps@ =~= accuracies_cells(g.accuracies.unwrap()));
            }
            CellValue::StructVal(ps)
        },
    };
    let white_cell = match &g.white {
        Some(w) => match side_cell(w) {
            Ok(c) => c,
            Err(e) => {
                return Err(e);
            },
        },
        None => {
            return Err(missing_field("white"));
        },
    };
    let black_cell = match &g.black {
        Some(b) => match side_cell(b) {
            Ok(c) => c,
            Err(e) => {
                return Err(e);
            },
        },
        None => {
            return Err(missing_field("black"));
        },
    };
    let mut row: Vec<CellValue> = Vec::new();
    row.push(CellValue::Prim(PrimCell::Int64(end_time)));
    row.push(
        CellValue::Prim(
            match &g.url {
                Some(s) => PrimCell::Utf8(s.clone()),
                None => PrimCell::Null,
            },
        ),
    );
    row.push(
        CellValue::Prim(
            match &g.pgn {
                Some(s) => PrimCell::Utf8(s.clone()),
                None => PrimCell::Null,
            },
        ),
    );
    row.push(CellValue::Prim(PrimCell::Utf8(time_control)));
    row.push(CellValue::Prim(PrimCell::Boolean(rated)));
    row.push(CellValue::Prim(PrimCell::Utf8(tcn)));
    row.push(CellValue::Prim(PrimCell::Utf8(uuid)));
    row.push(CellValue::Prim(PrimCell::Utf8(initial_setup)));
    row.push(CellValue::Prim(PrimCell::Utf8(fen)));
    row.push(CellValue::Prim(PrimCell::Utf8(time_class)));
    row.push(CellValue::Prim(PrimCell::Utf8(rules)));
    row.push(CellValue::Prim(PrimCell::Utf8(eco)));
    row.push(acc_cell);
    row.push(white_cell);
    row.push(black_cell);
    Ok(row)
}

/// Converts the aggregated games into the fixed-schema columnar batch.
///
/// All-or-nothing: the batch is produced exactly when every record
/// satisfies the schema, with one row per record in input order; the
/// first record missing a required field fails the whole batch with
/// `SchemaProjectionError`. Rows are never reordered or skipped.
pub fn project_games(games: &Games) -> (r: Result<ProjectedBatch, IngestError>)
    ensures
        r is Ok <==> (forall|i: int|
            0 <= i < games.games@.len() ==> game_ok(#[trigger] games.games@[i])),
        r matches Ok(b) ==> is_game_schema(b.schema@),
        r matches Ok(b) ==> b.rows@.len() == games.games@.len(),
        r matches Ok(b) ==> (forall|i: int|
            0 <= i < games.games@.len() ==> game_row_matches(
                games.games@[i],
                (#[trigger] b.rows@[i])@,
            )),
        r matches Ok(b) ==> b.wf(),
        r matches Err(e) ==> e matches IngestError::SchemaProjectionError(_),
{
    let schema = game_schema();
    let mut rows: Vec<Vec<CellValue>> = Vec::new();
    let mut i: usize = 0;
    while i < games.games.len()
        invariant
            i <= games.games@.len(),
            rows@.len() == i,
            is_game_schema(schema@),
            forall|k: int| 0 <= k < i ==> game_ok(#[trigger] games.games@[k]),
            forall|k: int| 0 <= k < i ==> game_row_matches(
                games.games@[k],
                (#[trigger] rows@[k])@,
            ),
            forall|k: int| 0 <= k < i ==> row_conforms(schema@, (#[trigger] rows@[k])@),
        decreases games.games@.len() - i,
    {
        match game_row(&games.games[i]) {
            Ok(row) => {
                proof {
                    lemma_game_row_conforms(games.games@[i as int], row@, schema@);
                }
                rows.push(row);
            },
            Err(e) => {
                proof {
                    assert(!game_ok(games.games@[i as int]));
                }
                return Err(e);
            },
        }
        i = i + 1;
    }
    Ok(ProjectedBatch { schema, rows })
}

} // verus!

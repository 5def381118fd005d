use chess_ingest::errors::IngestError;
use chess_ingest::games::Accuracies;
use chess_ingest::games::Game;
use chess_ingest::games::Games;
use chess_ingest::games::PlayerInformation;
use chess_ingest::profiles::PlayerProfile;
use chess_ingest::profiles::PlayerProfiles;
use chess_ingest::profiles::project_profiles;
use chess_ingest::projection::game_row;
use chess_ingest::projection::project_games;
use chess_ingest::schema::CellValue;
use chess_ingest::schema::ColumnKind;
use chess_ingest::schema::PrimCell;
use chess_ingest::schema::game_schema;
use chess_ingest::schema::profile_schema;

fn side(rating: i32, name: &str) -> PlayerInformation {
    PlayerInformation {
        rating: Some(rating),
        result: Some(String::from("win")),
        id: Some(format!("https://api.chess.com/pub/player/{}", name)),
        username: Some(String::from(name)),
        uuid: Some(format!("{}-uuid", name)),
    }
}

fn complete_game() -> Game {
    Game {
        url: Some(String::from("https://www.chess.com/game/live/1")),
        pgn: Some(String::from("1. e4 e5")),
        time_control: Some(String::from("600")),
        end_time: Some(1684108800),
        rated: Some(true),
        fen: Some(String::from("8/8/8/8/8/8/8/8 w - - 0 1")),
        accuracies: Some(Accuracies {
            white: Some(String::from("87.5")),
            black: Some(String::from("92.25")),
        }),
        tcn: Some(String::from("mCZR")),
        uuid: Some(String::from("g1")),
        initial_setup: Some(String::from("")),
        time_class: Some(String::from("rapid")),
        rules: Some(String::from("chess")),
        white: Some(side(1500, "w")),
        black: Some(side(1400, "b")),
        eco: Some(String::from("C20")),
    }
}

fn complete_profile() -> PlayerProfile {
    PlayerProfile {
        avatar: Some(String::from("https://images.chesscomfiles.com/a.png")),
        player_id: Some(41),
        id: Some(String::from("https://api.chess.com/pub/player/alice")),
        url: Some(String::from("https://www.chess.com/member/alice")),
        name: Some(String::from("Alice")),
        username: Some(String::from("alice")),
        title: None,
        followers: Some(7),
        country: Some(String::from("https://api.chess.com/pub/country/NO")),
        location: Some(String::from("Oslo")),
        last_online: Some(1684108800),
        joined: Some(1600000000),
        status: Some(String::from("premium")),
        is_streamer: Some(false),
        verified: Some(true),
        league: Some(String::from("Crystal")),
        streaming_platforms: Some(vec![]),
    }
}

#[test]
fn missing_optional_fields_project_to_null_cells() {
    let mut g = complete_game();
    g.url = None;
    g.pgn = None;
    g.accuracies = None;
    let row = game_row(&g).unwrap();
    assert_eq!(row.len(), 15);
    assert_eq!(row[1], CellValue::Prim(PrimCell::Null));
    assert_eq!(row[2], CellValue::Prim(PrimCell::Null));
    assert_eq!(row[12], CellValue::Prim(PrimCell::Null));
    assert_eq!(row[0], CellValue::Prim(PrimCell::Int64(1684108800)));
}

#[test]
fn missing_required_side_rating_fails_projection() {
    let mut g = complete_game();
    let mut w = side(1500, "w");
    w.rating = None;
    g.white = Some(w);
    let games = Games { games: vec![g] };
    assert!(matches!(
        project_games(&games),
        Err(IngestError::SchemaProjectionError(_))
    ));
}

#[test]
fn missing_required_top_level_field_fails_projection() {
    let mut g = complete_game();
    g.time_control = None;
    assert!(matches!(
        game_row(&g),
        Err(IngestError::SchemaProjectionError(_))
    ));
    let mut g = complete_game();
    g.white = None;
    assert!(matches!(
        game_row(&g),
        Err(IngestError::SchemaProjectionError(_))
    ));
}

#[test]
fn present_accuracies_require_both_sides() {
    let mut g = complete_game();
    g.accuracies = Some(Accuracies {
        white: Some(String::from("87.5")),
        black: None,
    });
    assert!(matches!(
        game_row(&g),
        Err(IngestError::SchemaProjectionError(_))
    ));
}

#[test]
fn complete_game_projects_to_full_row() {
    let games = Games { games: vec![complete_game()] };
    let batch = project_games(&games).unwrap();
    assert_eq!(batch.rows.len(), 1);
    let row = &batch.rows[0];
    assert_eq!(
        row[3],
        CellValue::Prim(PrimCell::Utf8(String::from("600")))
    );
    assert_eq!(row[4], CellValue::Prim(PrimCell::Boolean(true)));
    match &row[12] {
        CellValue::StructVal(ps) => {
            assert_eq!(ps[0], PrimCell::Float32Text(String::from("87.5")));
            assert_eq!(ps[1], PrimCell::Float32Text(String::from("92.25")));
        }
        other => panic!("accuracies cell is not a struct: {:?}", other),
    }
    match &row[13] {
        CellValue::StructVal(ps) => {
            assert_eq!(ps[0], PrimCell::Int32(1500));
            assert_eq!(
                ps[2],
                PrimCell::Utf8(String::from("https://api.chess.com/pub/player/w"))
            );
        }
        other => panic!("white cell is not a struct: {:?}", other),
    }
}

#[test]
fn projection_is_all_or_nothing() {
    let good = complete_game();
    let mut bad = complete_game();
    bad.end_time = None;
    let games = Games { games: vec![good, bad] };
    assert!(matches!(
        project_games(&games),
        Err(IngestError::SchemaProjectionError(_))
    ));
}

#[test]
fn game_schema_keeps_the_literal_at_id_key() {
    let schema = game_schema();
    assert_eq!(schema.len(), 15);
    assert_eq!(schema[13].name, "white");
    match &schema[13].kind {
        ColumnKind::StructOf(fs) => {
            assert_eq!(fs[2].name, "@id");
            assert!(!fs[2].nullable);
        }
        other => panic!("white column is not a struct: {:?}", other),
    }
    match &schema[14].kind {
        ColumnKind::StructOf(fs) => assert_eq!(fs[2].name, "@id"),
        other => panic!("black column is not a struct: {:?}", other),
    }
}

#[test]
fn profile_schema_keeps_the_literal_at_id_key() {
    let schema = profile_schema();
    assert_eq!(schema.len(), 16);
    assert_eq!(schema[2].name, "@id");
    assert!(!schema[2].nullable);
}

#[test]
fn complete_profile_projects_to_full_row() {
    let mut profiles = PlayerProfiles::new();
    profiles.push_payload(complete_profile());
    let batch = project_profiles(profiles).unwrap();
    assert_eq!(batch.rows.len(), 1);
    let row = &batch.rows[0];
    assert_eq!(row.len(), 16);
    assert_eq!(
        row[2],
        CellValue::Prim(PrimCell::Utf8(String::from(
            "https://api.chess.com/pub/player/alice"
        )))
    );
    assert_eq!(row[6], CellValue::Prim(PrimCell::Null));
    assert_eq!(row[13], CellValue::Prim(PrimCell::Boolean(false)));
}

#[test]
fn profile_missing_required_field_fails_projection() {
    let mut p = complete_profile();
    p.league = None;
    let mut profiles = PlayerProfiles::new();
    profiles.push_payload(p);
    assert!(matches!(
        project_profiles(profiles),
        Err(IngestError::SchemaProjectionError(_))
    ));
}

#[test]
fn profile_nullable_fields_project_to_null_cells() {
    let mut p = complete_profile();
    p.url = None;
    p.title = None;
    let mut profiles = PlayerProfiles::new();
    profiles.push_payload(p);
    let batch = project_profiles(profiles).unwrap();
    assert_eq!(batch.rows[0][3], CellValue::Prim(PrimCell::Null));
    assert_eq!(batch.rows[0][6], CellValue::Prim(PrimCell::Null));
}

#[test]
fn streaming_platforms_are_dropped_by_the_schema() {
    let mut p = complete_profile();
    p.streaming_platforms = Some(vec![String::from("twitch")]);
    let mut profiles = PlayerProfiles::new();
    profiles.push_payload(p);
    let batch = project_profiles(profiles).unwrap();
    assert_eq!(batch.rows[0].len(), 16);
    assert_eq!(batch.schema.len(), 16);
    for col in &batch.schema {
        assert_ne!(col.name, "streaming_platforms");
    }
}

#[test]
fn empty_projection_yields_empty_batch() {
    let games = Games { games: vec![] };
    let batch = project_games(&games).unwrap();
    assert_eq!(batch.rows.len(), 0);
    let profiles = PlayerProfiles::new();
    let batch = project_profiles(profiles).unwrap();
    assert_eq!(batch.rows.len(), 0);
}

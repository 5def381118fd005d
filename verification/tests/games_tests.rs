use chess_ingest::errors::IngestError;
use chess_ingest::games::Games;
use chess_ingest::games::decode_games_body;

fn game_json(uuid: &str) -> String {
    format!(
        r#"{{
            "url": "https://www.chess.com/game/live/1",
            "pgn": "1. e4 e5",
            "time_control": "600",
            "end_time": 1684108800,
            "rated": true,
            "fen": "8/8/8/8/8/8/8/8 w - - 0 1",
            "accuracies": {{"white": 87.5, "black": 92.25}},
            "tcn": "mCZR",
            "uuid": "{}",
            "initial_setup": "",
            "time_class": "rapid",
            "rules": "chess",
            "white": {{"rating": 1500, "result": "win", "@id": "https://api.chess.com/pub/player/w", "username": "w", "uuid": "wu"}},
            "black": {{"rating": 1400, "result": "resigned", "@id": "https://api.chess.com/pub/player/b", "username": "b", "uuid": "bu"}},
            "eco": "C20"
        }}"#,
        uuid
    )
}

fn games_body(uuids: &[&str]) -> String {
    let games: Vec<String> = uuids.iter().map(|u| game_json(u)).collect();
    format!(r#"{{"games": [{}]}}"#, games.join(", "))
}

#[test]
fn decode_games_body_reads_every_field() {
    let games = decode_games_body(&games_body(&["g1", "g2"])).unwrap();
    assert_eq!(games.len(), 2);
    let g = &games[0];
    assert_eq!(g.url.as_deref(), Some("https://www.chess.com/game/live/1"));
    assert_eq!(g.pgn.as_deref(), Some("1. e4 e5"));
    assert_eq!(g.time_control.as_deref(), Some("600"));
    assert_eq!(g.end_time, Some(1684108800));
    assert_eq!(g.rated, Some(true));
    assert_eq!(g.uuid.as_deref(), Some("g1"));
    assert_eq!(g.time_class.as_deref(), Some("rapid"));
    assert_eq!(g.rules.as_deref(), Some("chess"));
    assert_eq!(g.eco.as_deref(), Some("C20"));
    let acc = g.accuracies.as_ref().unwrap();
    assert_eq!(acc.white.as_deref(), Some("87.5"));
    assert_eq!(acc.black.as_deref(), Some("92.25"));
    let white = g.white.as_ref().unwrap();
    assert_eq!(white.rating, Some(1500));
    assert_eq!(white.result.as_deref(), Some("win"));
    assert_eq!(white.id.as_deref(), Some("https://api.chess.com/pub/player/w"));
    assert_eq!(white.username.as_deref(), Some("w"));
    assert_eq!(white.uuid.as_deref(), Some("wu"));
}

#[test]
fn decode_games_body_maps_absent_and_null_to_none() {
    let body = r#"{"games": [{"url": null, "time_control": "600", "end_time": 1, "rated": false}]}"#;
    let games = decode_games_body(body).unwrap();
    assert_eq!(games.len(), 1);
    assert_eq!(games[0].url, None);
    assert_eq!(games[0].pgn, None);
    assert!(games[0].accuracies.is_none());
    assert!(games[0].white.is_none());
}

#[test]
fn decode_games_body_rejects_bad_shapes() {
    assert!(matches!(
        decode_games_body("nonsense"),
        Err(IngestError::PayloadParseError(_))
    ));
    assert!(matches!(
        decode_games_body(r#"{"other": []}"#),
        Err(IngestError::PayloadParseError(_))
    ));
    assert!(matches!(
        decode_games_body(r#"{"games": {}}"#),
        Err(IngestError::PayloadParseError(_))
    ));
    assert!(matches!(
        decode_games_body(r#"{"games": [{"rated": "yes"}]}"#),
        Err(IngestError::PayloadParseError(_))
    ));
    assert!(matches!(
        decode_games_body(r#"{"games": [{"white": {"rating": "high"}}]}"#),
        Err(IngestError::PayloadParseError(_))
    ));
}

#[test]
fn rating_outside_32_bit_range_is_payload_parse_error() {
    let body = r#"{"games": [{"white": {"rating": 4294967296}}]}"#;
    assert!(matches!(
        decode_games_body(body),
        Err(IngestError::PayloadParseError(_))
    ));
}

#[test]
fn aggregation_over_zero_archives_is_empty_not_an_error() {
    let no_bodies: Vec<Vec<String>> = vec![];
    let games = Games::new(&no_bodies).unwrap();
    assert_eq!(games.games.len(), 0);
    let empty_per_player: Vec<Vec<String>> = vec![vec![], vec![]];
    let games = Games::new(&empty_per_player).unwrap();
    assert_eq!(games.games.len(), 0);
}

#[test]
fn aggregation_concatenates_in_player_then_chronological_order() {
    let bodies = vec![
        vec![games_body(&["a1"])],
        vec![games_body(&["b1"])],
    ];
    let games = Games::new(&bodies).unwrap();
    assert_eq!(games.games.len(), 2);
    assert_eq!(games.games[0].uuid.as_deref(), Some("a1"));
    assert_eq!(games.games[1].uuid.as_deref(), Some("b1"));
}

#[test]
fn aggregation_keeps_chronological_order_within_a_player() {
    let bodies = vec![vec![
        games_body(&["april1", "april2"]),
        games_body(&["may1"]),
    ]];
    let games = Games::new(&bodies).unwrap();
    assert_eq!(games.games.len(), 3);
    assert_eq!(games.games[0].uuid.as_deref(), Some("april1"));
    assert_eq!(games.games[1].uuid.as_deref(), Some("april2"));
    assert_eq!(games.games[2].uuid.as_deref(), Some("may1"));
}

#[test]
fn aggregation_fails_whole_call_on_one_bad_body() {
    let bodies = vec![vec![games_body(&["ok1"])], vec![String::from("broken")]];
    assert!(matches!(
        Games::new(&bodies),
        Err(IngestError::PayloadParseError(_))
    ));
}

use chess_ingest::errors::IngestError;
use chess_ingest::ingestors::games_batch_from_bodies;
use chess_ingest::ingestors::profiles_batch_from_bodies;
use chess_ingest::ingestors::resolve_player_archives;
use chess_ingest::months::CalendarMonth;

fn archives_body(urls: &[&str]) -> String {
    let quoted: Vec<String> = urls.iter().map(|u| format!("\"{}\"", u)).collect();
    format!("{{\"archives\": [{}]}}", quoted.join(", "))
}

fn small_game(uuid: &str) -> String {
    format!(
        r#"{{
            "time_control": "600",
            "end_time": 1684108800,
            "rated": true,
            "fen": "8/8/8/8/8/8/8/8 w - - 0 1",
            "tcn": "mC",
            "uuid": "{}",
            "initial_setup": "",
            "time_class": "rapid",
            "rules": "chess",
            "white": {{"rating": 1500, "result": "win", "@id": "https://api.chess.com/pub/player/w", "username": "w", "uuid": "wu"}},
            "black": {{"rating": 1400, "result": "resigned", "@id": "https://api.chess.com/pub/player/b", "username": "b", "uuid": "bu"}},
            "eco": "C20"
        }}"#,
        uuid
    )
}

fn profile_body(username: &str) -> String {
    format!(
        r#"{{
            "avatar": "https://images.chesscomfiles.com/a.png",
            "player_id": 41,
            "@id": "https://api.chess.com/pub/player/{}",
            "url": "https://www.chess.com/member/{}",
            "name": "Alice",
            "username": "{}",
            "followers": 7,
            "country": "https://api.chess.com/pub/country/NO",
            "location": "Oslo",
            "last_online": 1684108800,
            "joined": 1600000000,
            "status": "premium",
            "is_streamer": false,
            "verified": true,
            "league": "Crystal",
            "streaming_platforms": []
        }}"#,
        username, username, username
    )
}

#[test]
fn one_archive_with_two_games_yields_a_two_row_batch() {
    let alice_archives = archives_body(&[
        "https://api.chess.com/pub/player/alice/games/archives/2023/05",
    ]);
    let resolved = resolve_player_archives(&vec![alice_archives], "2023/05", "2023/05").unwrap();
    assert_eq!(resolved.players.len(), 1);
    assert_eq!(resolved.players[0].archives.len(), 1);
    assert_eq!(
        resolved.range.start_month,
        CalendarMonth { year: 2023, month: 5 }
    );

    let month_body = format!(
        r#"{{"games": [{}, {}]}}"#,
        small_game("g1"),
        small_game("g2")
    );
    let batch = games_batch_from_bodies(&vec![vec![month_body]]).unwrap();
    assert_eq!(batch.rows.len(), 2);
    assert_eq!(batch.schema.len(), 15);
}

#[test]
fn out_of_range_request_yields_an_empty_batch_not_an_error() {
    let alice_archives = archives_body(&[
        "https://api.chess.com/pub/player/alice/games/archives/2023/05",
    ]);
    let resolved = resolve_player_archives(&vec![alice_archives], "2023/06", "2023/06").unwrap();
    assert_eq!(resolved.players.len(), 1);
    assert_eq!(resolved.players[0].archives.len(), 0);

    let no_surviving_archives: Vec<Vec<String>> = vec![vec![]];
    let batch = games_batch_from_bodies(&no_surviving_archives).unwrap();
    assert_eq!(batch.rows.len(), 0);
}

#[test]
fn resolve_validates_range_before_touching_bodies() {
    let junk_bodies = vec![String::from("this body is never parsed")];
    assert!(matches!(
        resolve_player_archives(&junk_bodies, "2023/06", "2023/05"),
        Err(IngestError::InvalidRange)
    ));
}

#[test]
fn resolve_rejects_malformed_month_strings_first() {
    let junk_bodies = vec![String::from("this body is never parsed")];
    assert!(matches!(
        resolve_player_archives(&junk_bodies, "junk", "2023/05"),
        Err(IngestError::InvalidDateFormat(_))
    ));
    assert!(matches!(
        resolve_player_archives(&junk_bodies, "2023/05", "junk"),
        Err(IngestError::InvalidDateFormat(_))
    ));
}

#[test]
fn resolve_surfaces_bad_archive_payloads() {
    let bodies = vec![String::from("not json at all")];
    assert!(matches!(
        resolve_player_archives(&bodies, "2023/05", "2023/05"),
        Err(IngestError::PayloadParseError(_))
    ));
}

#[test]
fn profile_pipeline_yields_one_row_per_player() {
    let bodies = vec![profile_body("alice"), profile_body("bob")];
    let batch = profiles_batch_from_bodies(&bodies).unwrap();
    assert_eq!(batch.rows.len(), 2);
    assert_eq!(batch.schema.len(), 16);
}

#[test]
fn profile_pipeline_fails_on_missing_required_field() {
    let body = r#"{"username": "alice"}"#;
    assert!(matches!(
        profiles_batch_from_bodies(&vec![String::from(body)]),
        Err(IngestError::SchemaProjectionError(_))
    ));
}

#[test]
fn zero_players_yield_empty_batches() {
    let batch = profiles_batch_from_bodies(&vec![]).unwrap();
    assert_eq!(batch.rows.len(), 0);
    let batch = games_batch_from_bodies(&vec![]).unwrap();
    assert_eq!(batch.rows.len(), 0);
}

#[test]
fn error_messages_carry_their_context() {
    assert_eq!(
        IngestError::InvalidRange.message(),
        "end month cannot be earlier than start month"
    );
    assert_eq!(
        IngestError::NetworkError(String::from("connection refused")).message(),
        "network error: connection refused"
    );
    assert!(IngestError::InvalidDateFormat(String::from("x"))
        .message()
        .starts_with("invalid date format: "));
    assert!(IngestError::PayloadParseError(String::from("x"))
        .message()
        .starts_with("payload parse error: "));
    assert!(IngestError::SchemaProjectionError(String::from("x"))
        .message()
        .starts_with("schema projection error: "));
}

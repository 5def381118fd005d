use chess_ingest::archives::ArchiveDateRange;
use chess_ingest::archives::PlayerArchives;
use chess_ingest::archives::PlayersArchives;
use chess_ingest::archives::archive_url_month;
use chess_ingest::archives::archives_endpoint;
use chess_ingest::archives::parse_archives_body;
use chess_ingest::archives::profile_endpoint;
use chess_ingest::errors::IngestError;
use chess_ingest::months::CalendarMonth;

#[test]
fn range_with_end_before_start_fails_construction() {
    let start = CalendarMonth { year: 2023, month: 5 };
    let end = CalendarMonth { year: 2023, month: 4 };
    assert!(matches!(
        ArchiveDateRange::new(start, end),
        Err(IngestError::InvalidRange)
    ));
    assert!(matches!(
        PlayersArchives::new(start, end),
        Err(IngestError::InvalidRange)
    ));
}

#[test]
fn range_with_end_not_before_start_succeeds() {
    let start = CalendarMonth { year: 2023, month: 5 };
    let equal = ArchiveDateRange::new(start, start).unwrap();
    assert_eq!(equal.start_month, start);
    assert_eq!(equal.end_month, start);
    let later = CalendarMonth { year: 2024, month: 1 };
    assert!(ArchiveDateRange::new(start, later).is_ok());
    assert!(PlayersArchives::new(start, later).is_ok());
}

#[test]
fn archive_url_month_reads_trailing_segment() {
    let m = archive_url_month("https://api.chess.com/pub/player/alice/games/archives/2023/01")
        .unwrap();
    assert_eq!(m, CalendarMonth { year: 2023, month: 1 });
}

#[test]
fn archive_url_without_date_is_payload_parse_error() {
    assert!(matches!(
        archive_url_month("short"),
        Err(IngestError::PayloadParseError(_))
    ));
    assert!(matches!(
        archive_url_month("12/25"),
        Err(IngestError::PayloadParseError(_))
    ));
    assert!(matches!(
        archive_url_month("https://api.chess.com/pub/player/alice/games/archives"),
        Err(IngestError::PayloadParseError(_))
    ));
}

#[test]
fn filter_keeps_exactly_the_urls_in_range() {
    let base = "https://api.chess.com/pub/player/alice/games/archives/";
    let urls = vec![
        format!("{}2022/11", base),
        format!("{}2022/12", base),
        format!("{}2023/01", base),
    ];
    let player = PlayerArchives { archives: urls };
    let bound = CalendarMonth { year: 2022, month: 12 };
    let range = ArchiveDateRange::new(bound, bound).unwrap();
    let filtered = player.filter_months(&range).unwrap();
    assert_eq!(filtered.archives, vec![format!("{}2022/12", base)]);
}

#[test]
fn filter_preserves_order_of_surviving_urls() {
    let base = "https://api.chess.com/pub/player/alice/games/archives/";
    let urls = vec![
        format!("{}2022/11", base),
        format!("{}2022/12", base),
        format!("{}2023/01", base),
        format!("{}2023/02", base),
    ];
    let player = PlayerArchives { archives: urls };
    let range = ArchiveDateRange::new(
        CalendarMonth { year: 2022, month: 12 },
        CalendarMonth { year: 2023, month: 1 },
    )
    .unwrap();
    let filtered = player.filter_months(&range).unwrap();
    assert_eq!(
        filtered.archives,
        vec![format!("{}2022/12", base), format!("{}2023/01", base)]
    );
}

#[test]
fn filter_is_inclusive_on_both_ends() {
    let base = "https://api.chess.com/pub/player/alice/games/archives/";
    let urls = vec![
        format!("{}2022/11", base),
        format!("{}2022/12", base),
        format!("{}2023/01", base),
    ];
    let player = PlayerArchives { archives: urls.clone() };
    let range = ArchiveDateRange::new(
        CalendarMonth { year: 2022, month: 11 },
        CalendarMonth { year: 2023, month: 1 },
    )
    .unwrap();
    let filtered = player.filter_months(&range).unwrap();
    assert_eq!(filtered.archives, urls);
}

#[test]
fn filter_fails_on_unparseable_archive_date() {
    let player = PlayerArchives {
        archives: vec![String::from("https://api.chess.com/pub/x/nodate!")],
    };
    let bound = CalendarMonth { year: 2022, month: 12 };
    let range = ArchiveDateRange::new(bound, bound).unwrap();
    assert!(matches!(
        player.filter_months(&range),
        Err(IngestError::PayloadParseError(_))
    ));
}

#[test]
fn add_player_archive_appends_filtered_index() {
    let base = "https://api.chess.com/pub/player/bob/games/archives/";
    let mut all = PlayersArchives::new(
        CalendarMonth { year: 2023, month: 5 },
        CalendarMonth { year: 2023, month: 5 },
    )
    .unwrap();
    let player = PlayerArchives {
        archives: vec![format!("{}2023/04", base), format!("{}2023/05", base)],
    };
    all.add_player_archive(player).unwrap();
    assert_eq!(all.players.len(), 1);
    assert_eq!(all.players[0].archives, vec![format!("{}2023/05", base)]);
}

#[test]
fn parse_archives_body_reads_url_list() {
    let body = "{\"archives\": [\"https://a/2023/04\", \"https://a/2023/05\"]}";
    let parsed = parse_archives_body(body).unwrap();
    assert_eq!(
        parsed.archives,
        vec![
            String::from("https://a/2023/04"),
            String::from("https://a/2023/05")
        ]
    );
}

#[test]
fn parse_archives_body_rejects_bad_shapes() {
    assert!(matches!(
        parse_archives_body("not json"),
        Err(IngestError::PayloadParseError(_))
    ));
    assert!(matches!(
        parse_archives_body("{\"other\": []}"),
        Err(IngestError::PayloadParseError(_))
    ));
    assert!(matches!(
        parse_archives_body("{\"archives\": 3}"),
        Err(IngestError::PayloadParseError(_))
    ));
    assert!(matches!(
        parse_archives_body("{\"archives\": [1, 2]}"),
        Err(IngestError::PayloadParseError(_))
    ));
}

#[test]
fn endpoints_follow_the_service_layout() {
    let base = "https://api.chess.com/pub/";
    assert_eq!(
        archives_endpoint(base, "alice"),
        "https://api.chess.com/pub/player/alice/games/archives"
    );
    assert_eq!(
        profile_endpoint(base, "alice"),
        "https://api.chess.com/pub/player/alice"
    );
}

use vstd::prelude::*;

use crate::archives::PlayersArchives;
use crate::archives::all_views_have_months;
use crate::archives::archives_body_decodes;
use crate::archives::body_url_views;
use crate::archives::filtered_url_views;
use crate::archives::lemma_filtered_views;
use crate::archives::parse_archives_body;
use crate::archives::url_has_month;
use crate::decode::strs_view;
use crate::errors::IngestError;
use crate::games::Games;
use crate::games::all_bodies_decode;
use crate::games::all_models;
use crate::games::game_matches_model;
use crate::games::lemma_all_models_empty;
use crate::json::json_of;
use crate::months::is_month_string;
use crate::months::month_format_ok;
use crate::months::month_string_to_date;
use crate::months::month_text_lt;
use crate::months::month_value;
use crate::months::year_value;
use crate::profiles::PlayerProfiles;
use crate::profiles::decode_profile_body;
use crate::profiles::lemma_profile_ok_of_model;
use crate::profiles::model_profile_projects;
use crate::profiles::profile_body_decodes;
use crate::profiles::profile_body_projects;
use crate::profiles::profile_matches_model;
use crate::profiles::profile_ok;
use crate::profiles::profile_row_matches;
use crate::profiles::profile_row_of_model;
use crate::profiles::project_profiles;
use crate::projection::game_ok;
use crate::projection::game_row_matches;
use crate::projection::game_row_of_model;
use crate::projection::lemma_game_ok_of_model;
use crate::projection::model_game_projects;
use crate::projection::project_games;
use crate::schema::ProjectedBatch;
use crate::schema::is_game_schema;
use crate::schema::is_profile_schema;

verus! {

/// Every archive-list body decodes, and every URL it lists ends in a
/// strict month segment.
pub open spec fn all_archive_bodies_resolve(bodies: Seq<String>) -> bool {
    forall|i: int| 0 <= i < bodies.len() ==> #[trigger] archives_body_decodes(bodies[i]@)
        && all_views_have_months(body_url_views(bodies[i]@))
}

/// Resolves per-player archive-list payloads against a requested month
/// range: parses both month strings, validates the range, decodes each
/// player's archive list and keeps exactly the URLs whose embedded month
/// lies within the range, per player, in order.
///
/// The caller supplies one fetched archive-list body per player, in the
/// order the players were requested.
pub fn resolve_player_archives(bodies: &Vec<String>, start_month: &str, end_month: &str) -> (r:
    Result<PlayersArchives, IngestError>)
    ensures
        !month_format_ok(start_month@) ==> r matches Err(IngestError::InvalidDateFormat(_)),
        !month_format_ok(end_month@) ==> r matches Err(IngestError::InvalidDateFormat(_)),
        is_month_string(start_month@) && is_month_string(end_month@) && month_text_lt(end_month@, start_month@) ==> r matches Err(IngestError::InvalidRange),
        is_month_string(start_month@) && is_month_string(end_month@) && !month_text_lt(end_month@, start_month@) && all_archive_bodies_resolve(bodies@) ==> r is Ok,
        r matches Ok(pa) ==> pa.players@.len() == bodies@.len(),
        r matches Ok(pa) ==> (forall|i: int| 0 <= i < bodies@.len() ==> #[trigger] archives_body_decodes(bodies@[i]@)),
        r matches Ok(pa) ==> pa.range.wf(),
        r matches Ok(pa) ==> (is_month_string(start_month@) ==> pa.range.start_month.year == year_value(start_month@) && pa.range.start_month.month == month_value(start_month@)),
        r matches Ok(pa) ==> (is_month_string(end_month@) ==> pa.range.end_month.year == year_value(end_month@) && pa.range.end_month.month == month_value(end_month@)),
        r matches Ok(pa) ==> (forall|i: int| 0 <= i < bodies@.len() && archives_body_decodes(bodies@[i]@) && all_views_have_months(body_url_views(bodies@[i]@)) ==> strs_view((#[trigger] pa.players@[i]).archives@) == filtered_url_views(body_url_views(bodies@[i]@), pa.range)),
        r matches Err(e) ==> (e matches IngestError::InvalidDateFormat(_) || e matches IngestError::InvalidRange || e matches IngestError::PayloadParseError(_)),
{
    let start = match month_string_to_date(start_month) {
        Ok(m) => m,
        Err(e) => {
            return Err(e);
        },
    };
    let end = match month_string_to_date(end_month) {
        Ok(m) => m,
        Err(e) => {
            return Err(e);
        },
    };
    let mut archives = match PlayersArchives::new(start, end) {
        Ok(pa) => pa,
        Err(e) => {
            return Err(e);
        },
    };
    let mut i: usize = 0;
    while i < bodies.len()
        invariant
            month_format_ok(start_month@),
            month_format_ok(end_month@),
            is_month_string(start_month@) ==> start.year == year_value(start_month@) && start.month == month_value(start_month@),
            is_month_string(end_month@) ==> end.year == year_value(end_month@) && end.month == month_value(end_month@),
            i <= bodies@.len(),
            archives.players@.len() == i,
            archives.range.wf(),
            archives.range.start_month == start,
            archives.range.end_month == end,
            forall|k: int| 0 <= k < i ==> #[trigger] archives_body_decodes(bodies@[k]@),
            forall|k: int| 0 <= k < i && archives_body_decodes(bodies@[k]@) && all_views_have_months(body_url_views(bodies@[k]@)) ==> strs_view((#[trigger] archives.players@[k]).archives@) == filtered_url_views(body_url_views(bodies@[k]@), archives.range),
        decreases bodies@.len() - i,
    {
        let player = match parse_archives_body(bodies[i].as_str()) {
            Ok(p) => p,
            Err(e) => {
                proof {
                    assert(!archives_body_decodes(bodies@[i as int]@));
                }
                return Err(e);
            },
        };
        let ghost players_prev = archives.players@;
        let ghost resolves_here = archives_body_decodes(bodies@[i as int]@)
            && all_views_have_months(body_url_views(bodies@[i as int]@));
        proof {
            if resolves_here {
                assert(strs_view(player.archives@) == body_url_views(bodies@[i as int]@));
                assert forall|q: int| 0 <= q < player.archives@.len() implies url_has_month(
                    #[trigger] player.archives@[q]@,
                ) by {
                    assert(strs_view(player.archives@)[q] == player.archives@[q]@);
                    assert(url_has_month(body_url_views(bodies@[i as int]@)[q]));
                }
                assert(crate::archives::all_urls_have_months(player.archives@));
            }
        }
        let ghost player_urls = player.archives@;
        match archives.add_player_archive(player) {
            Ok(_) => {
                proof {
                    assert forall|k: int| 0 <= k < players_prev.len() implies #[trigger] archives.players@[k] == players_prev[k] by {
                        assert(archives.players@.take(players_prev.len() as int)[k]
                            == archives.players@[k]);
                    }
                    if resolves_here {
                        lemma_filtered_views(player_urls, archives.range);
                        assert(strs_view(archives.players@.last().archives@) == filtered_url_views(
                            body_url_views(bodies@[i as int]@),
                            archives.range,
                        ));
                    }
                }
            },
            Err(e) => {
                proof {
                    if resolves_here {
                        assert(false);
                    }
                }
                return Err(e);
            },
        }
        i = i + 1;
    }
    Ok(archives)
}

/// Builds the games batch from the fetched archive bodies, grouped per
/// player in request order, each player's bodies in chronological order:
/// decodes and concatenates every month's games, then projects them onto
/// the declared game schema. Succeeds exactly when every body decodes
/// and every decoded game satisfies the schema; all-or-nothing, and zero
/// archives yield an empty batch, not an error.
pub fn games_batch_from_bodies(bodies: &Vec<Vec<String>>) -> (r: Result<
    ProjectedBatch,
    IngestError,
>)
    ensures
        r is Ok <==> (all_bodies_decode(bodies@) && (forall|k: int| 0 <= k < all_models(bodies@).len() ==> model_game_projects(#[trigger] all_models(bodies@)[k]))),
        r matches Ok(b) ==> is_game_schema(b.schema@),
        r matches Ok(b) ==> b.rows@.len() == all_models(bodies@).len(),
        r matches Ok(b) ==> (forall|k: int| 0 <= k < all_models(bodies@).len() ==> game_row_of_model((#[trigger] b.rows@[k])@, all_models(bodies@)[k])),
        r matches Ok(b) ==> b.wf(),
        (forall|i: int| 0 <= i < bodies@.len() ==> (#[trigger] bodies@[i])@.len() == 0) ==> (r matches Ok(b) && b.rows@.len() == 0),
        r matches Err(e) ==> (e matches IngestError::PayloadParseError(_) || e matches IngestError::SchemaProjectionError(_)),
{
    let games = match Games::new(bodies) {
        Ok(g) => g,
        Err(e) => {
            return Err(e);
        },
    };
    proof {
        assert forall|k: int| 0 <= k < all_models(bodies@).len() implies (game_ok(
            games.games@[k],
        ) <==> model_game_projects(#[trigger] all_models(bodies@)[k])) by {
            lemma_game_ok_of_model(games.games@[k], all_models(bodies@)[k]);
        }
        if forall|i: int| 0 <= i < bodies@.len() ==> (#[trigger] bodies@[i])@.len() == 0 {
            lemma_all_models_empty(bodies@);
        }
    }
    match project_games(&games) {
        Ok(b) => {
            proof {
                assert forall|k: int| 0 <= k < all_models(bodies@).len() implies model_game_projects(#[trigger] all_models(bodies@)[k]) by {
                    assert(game_ok(games.games@[k]));
                }
                assert forall|k: int| 0 <= k < all_models(bodies@).len() implies game_row_of_model((#[trigger] b.rows@[k])@, all_models(bodies@)[k]) by {
                    let g0 = games.games@[k];
                    assert(game_matches_model(g0, all_models(bodies@)[k]) && game_ok(g0)
                        && game_row_matches(g0, b.rows@[k]@));
                }
            }
            Ok(b)
        },
        Err(e) => {
            proof {
                let k = choose|k: int| 0 <= k < games.games@.len() && !game_ok(
                    #[trigger] games.games@[k],
                );
                assert(!model_game_projects(all_models(bodies@)[k]));
            }
            Err(e)
        },
    }
}

/// Builds the profiles batch from the fetched profile bodies, one per
/// player in request order: decodes each profile and projects the
/// collection onto the declared profile schema. Succeeds exactly when
/// every body decodes to a profile that satisfies the schema, with row
/// `i` the projection of body `i`; all-or-nothing, and zero players
/// yield an empty batch, not an error.
pub fn profiles_batch_from_bodies(bodies: &Vec<String>) -> (r: Result<
    ProjectedBatch,
    IngestError,
>)
    ensures
        r is Ok <==> (forall|i: int| 0 <= i < bodies@.len() ==> #[trigger] profile_body_projects(bodies@[i]@)),
        r matches Ok(b) ==> is_profile_schema(b.schema@),
        r matches Ok(b) ==> b.rows@.len() == bodies@.len(),
        r matches Ok(b) ==> (forall|i: int| 0 <= i < bodies@.len() ==> profile_row_of_model((#[trigger] b.rows@[i])@, json_of(bodies@[i]@).unwrap())),
        r matches Ok(b) ==> b.wf(),
        bodies@.len() == 0 ==> (r matches Ok(b) && b.rows@.len() == 0),
        r matches Err(e) ==> (e matches IngestError::PayloadParseError(_) || e matches IngestError::SchemaProjectionError(_)),
{
    let mut results = PlayerProfiles::new();
    let mut i: usize = 0;
    while i < bodies.len()
        invariant
            i <= bodies@.len(),
            results.payloads@.len() == i,
            is_profile_schema(results.schema@),
            forall|k: int| 0 <= k < i ==> #[trigger] profile_body_decodes(bodies@[k]@),
            forall|k: int| 0 <= k < i ==> profile_matches_model(
                #[trigger] results.payloads@[k],
                json_of(bodies@[k]@).unwrap(),
            ),
        decreases bodies@.len() - i,
    {
        let payload = match decode_profile_body(bodies[i].as_str()) {
            Ok(p) => p,
            Err(e) => {
                proof {
                    assert(!profile_body_decodes(bodies@[i as int]@));
                    assert(!profile_body_projects(bodies@[i as int]@));
                }
                return Err(e);
            },
        };
        results.push_payload(payload);
        i = i + 1;
    }
    let ghost payloads = results.payloads@;
    proof {
        assert forall|k: int| 0 <= k < bodies@.len() implies (profile_ok(#[trigger] payloads[k])
            <==> model_profile_projects(json_of(bodies@[k]@).unwrap())) by {
            assert(profile_body_decodes(bodies@[k]@));
            lemma_profile_ok_of_model(payloads[k], json_of(bodies@[k]@).unwrap());
        }
    }
    match project_profiles(results) {
        Ok(b) => {
            proof {
                assert forall|k: int| 0 <= k < bodies@.len() implies #[trigger] profile_body_projects(bodies@[k]@) by {
                    assert(profile_body_decodes(bodies@[k]@));
                    assert(profile_ok(payloads[k]));
                    assert(model_profile_projects(json_of(bodies@[k]@).unwrap()));
                }
                assert forall|k: int| 0 <= k < bodies@.len() implies profile_row_of_model((#[trigger] b.rows@[k])@, json_of(bodies@[k]@).unwrap()) by {
                    let p0 = payloads[k];
                    assert(profile_matches_model(p0, json_of(bodies@[k]@).unwrap()) && profile_ok(
                        p0,
                    ) && profile_row_matches(p0, b.rows@[k]@));
                }
            }
            Ok(b)
        },
        Err(e) => {
            proof {
                let k = choose|k: int| 0 <= k < payloads.len() && !profile_ok(
                    #[trigger] payloads[k],
                );
                assert(!profile_body_projects(bodies@[k]@));
            }
            Err(e)
        },
    }
}

} // verus!

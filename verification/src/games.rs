use vstd::prelude::*;

use crate::decode::opt_str_view;
use crate::decode::payload_err;
use crate::decode::read_opt_bool;
use crate::decode::read_opt_i32;
use crate::decode::read_opt_i64;
use crate::decode::read_opt_number_text;
use crate::decode::read_opt_string;
use crate::decode::spec_opt_bool;
use crate::decode::spec_opt_i32;
use crate::decode::spec_opt_i64;
use crate::decode::spec_opt_num_text;
use crate::decode::spec_opt_string;
use crate::errors::IngestError;
use crate::json::JsonModel;
use crate::json::json_as_array;
use crate::json::json_get;
use crate::json::json_is_null;
use crate::json::json_model;
use crate::json::json_of;
use crate::json::json_parse;
use crate::json::model_arr;
use crate::json::model_entry;
use crate::json::model_is_null;

verus! {

/// One side's information inside a game record, exactly as the service
/// sent it: an absent or null field is `None`. The output schema later
/// requires all five fields; that rule is enforced at projection time.
#[derive(Debug, Clone)]
pub struct PlayerInformation {
    pub rating: Option<i32>,
    pub result: Option<String>,
    /// The service's `@id` key, kept under that literal name downstream.
    pub id: Option<String>,
    pub username: Option<String>,
    pub uuid: Option<String>,
}

/// Engine-computed accuracy percentages for each side. The numeric
/// literals are kept as text: the verified core never holds a floating
/// point value, and the consumer parses the text into its own format.
#[derive(Debug, Clone)]
pub struct Accuracies {
    pub white: Option<String>,
    pub black: Option<String>,
}

/// One finished game as decoded from the service's JSON: every field
/// explicit, with `None` standing for absent-or-null. Which absences are
/// legal is decided by the output schema at projection time.
#[derive(Debug, Clone)]
pub struct Game {
    pub url: Option<String>,
    pub pgn: Option<String>,
    pub time_control: Option<String>,
    pub end_time: Option<i64>,
    pub rated: Option<bool>,
    pub fen: Option<String>,
    pub accuracies: Option<Accuracies>,
    pub tcn: Option<String>,
    pub uuid: Option<String>,
    pub initial_setup: Option<String>,
    pub time_class: Option<String>,
    pub rules: Option<String>,
    pub white: Option<PlayerInformation>,
    pub black: Option<PlayerInformation>,
    pub eco: Option<String>,
}

/// The side object decodes without a type error.
pub open spec fn spec_side_ok(m: JsonModel) -> bool {
    &&& spec_opt_i32(m, "rating"@) is Some
    &&& spec_opt_string(m, "result"@) is Some
    &&& spec_opt_string(m, "@id"@) is Some
    &&& spec_opt_string(m, "username"@) is Some
    &&& spec_opt_string(m, "uuid"@) is Some
}

/// The decoded side holds exactly the modelled field values.
pub open spec fn side_matches_model(s: PlayerInformation, m: JsonModel) -> bool {
    &&& Some(s.rating) == spec_opt_i32(m, "rating"@)
    &&& Some(opt_str_view(s.result)) == spec_opt_string(m, "result"@)
    &&& Some(opt_str_view(s.id)) == spec_opt_string(m, "@id"@)
    &&& Some(opt_str_view(s.username)) == spec_opt_string(m, "username"@)
    &&& Some(opt_str_view(s.uuid)) == spec_opt_string(m, "uuid"@)
}

/// The accuracies object decodes without a type error.
pub open spec fn spec_acc_ok(m: JsonModel) -> bool {
    spec_opt_num_text(m, "white"@) is Some && spec_opt_num_text(m, "black"@) is Some
}

/// The decoded accuracies hold exactly the modelled number texts.
pub open spec fn acc_matches_model(a: Accuracies, m: JsonModel) -> bool {
    Some(opt_str_view(a.white)) == spec_opt_num_text(m, "white"@) && Some(opt_str_view(a.black))
        == spec_opt_num_text(m, "black"@)
}

/// The game object decodes without a type error: every field read
/// succeeds and each present, non-null nested object decodes too.
pub open spec fn spec_game_ok(m: JsonModel) -> bool {
    &&& spec_opt_string(m, "url"@) is Some
    &&& spec_opt_string(m, "pgn"@) is Some
    &&& spec_opt_string(m, "time_control"@) is Some
    &&& spec_opt_i64(m, "end_time"@) is Some
    &&& spec_opt_bool(m, "rated"@) is Some
    &&& spec_opt_string(m, "fen"@) is Some
    &&& spec_opt_string(m, "tcn"@) is Some
    &&& spec_opt_string(m, "uuid"@) is Some
    &&& spec_opt_string(m, "initial_setup"@) is Some
    &&& spec_opt_string(m, "time_class"@) is Some
    &&& spec_opt_string(m, "rules"@) is Some
    &&& spec_opt_string(m, "eco"@) is Some
    &&& (match model_entry(m, "accuracies"@) {
        Option::None => true,
        Option::Some(x) => model_is_null(x) || spec_acc_ok(x),
    })
    &&& (match model_entry(m, "white"@) {
        Option::None => true,
        Option::Some(x) => model_is_null(x) || spec_side_ok(x),
    })
    &&& (match model_entry(m, "black"@) {
        Option::None => true,
        Option::Some(x) => model_is_null(x) || spec_side_ok(x),
    })
}

/// The decoded game holds exactly the modelled field values, with `None`
/// for every absent-or-null field.
pub open spec fn game_matches_model(g: Game, m: JsonModel) -> bool {
    &&& Some(opt_str_view(g.url)) == spec_opt_string(m, "url"@)
    &&& Some(opt_str_view(g.pgn)) == spec_opt_string(m, "pgn"@)
    &&& Some(opt_str_view(g.time_control)) == spec_opt_string(m, "time_control"@)
    &&& Some(g.end_time) == spec_opt_i64(m, "end_time"@)
    &&& Some(g.rated) == spec_opt_bool(m, "rated"@)
    &&& Some(opt_str_view(g.fen)) == spec_opt_string(m, "fen"@)
    &&& Some(opt_str_view(g.tcn)) == spec_opt_string(m, "tcn"@)
    &&& Some(opt_str_view(g.uuid)) == spec_opt_string(m, "uuid"@)
    &&& Some(opt_str_view(g.initial_setup)) == spec_opt_string(m, "initial_setup"@)
    &&& Some(opt_str_view(g.time_class)) == spec_opt_string(m, "time_class"@)
    &&& Some(opt_str_view(g.rules)) == spec_opt_string(m, "rules"@)
    &&& Some(opt_str_view(g.eco)) == spec_opt_string(m, "eco"@)
    &&& (match model_entry(m, "accuracies"@) {
        Option::None => g.accuracies is None,
        Option::Some(x) => if model_is_null(x) {
            g.accuracies is None
        } else {
            g.accuracies matches Some(a) && acc_matches_model(a, x)
        },
    })
    &&& (match model_entry(m, "white"@) {
        Option::None => g.white is None,
        Option::Some(x) => if model_is_null(x) {
            g.white is None
        } else {
            g.white matches Some(w) && side_matches_model(w, x)
        },
    })
    &&& (match model_entry(m, "black"@) {
        Option::None => g.black is None,
        Option::Some(x) => if model_is_null(x) {
            g.black is None
        } else {
            g.black matches Some(b) && side_matches_model(b, x)
        },
    })
}

/// Decodes the `white`/`black` side object of a game.
pub fn decode_side(v: &serde_json::Value) -> (r: Result<PlayerInformation, IngestError>)
    ensures
        r is Ok <==> spec_side_ok(json_model(*v)),
        r matches Ok(s) ==> side_matches_model(s, json_model(*v)),
        r matches Err(e) ==> e matches IngestError::PayloadParseError(_),
{
    let rating = match read_opt_i32(v, "rating") {
        Ok(x) => x,
        Err(e) => {
            return Err(e);
        },
    };
    let result = match read_opt_string(v, "result") {
        Ok(x) => x,
        Err(e) => {
            return Err(e);
        },
    };
    let id = match read_opt_string(v, "@id") {
        Ok(x) => x,
        Err(e) => {
            return Err(e);
        },
    };
    let username = match read_opt_string(v, "username") {
        Ok(x) => x,
        Err(e) => {
            return Err(e);
        },
    };
    let uuid = match read_opt_string(v, "uuid") {
        Ok(x) => x,
        Err(e) => {
            return Err(e);
        },
    };
    Ok(PlayerInformation { rating, result, id, username, uuid })
}

/// Decodes the optional `accuracies` object of a game.
pub fn decode_accuracies(v: &serde_json::Value) -> (r: Result<Accuracies, IngestError>)
    ensures
        r is Ok <==> spec_acc_ok(json_model(*v)),
        r matches Ok(a) ==> acc_matches_model(a, json_model(*v)),
        r matches Err(e) ==> e matches IngestError::PayloadParseError(_),
{
    let white = match read_opt_number_text(v, "white") {
        Ok(x) => x,
        Err(e) => {
            return Err(e);
        },
    };
    let black = match read_opt_number_text(v, "black") {
        Ok(x) => x,
        Err(e) => {
            return Err(e);
        },
    };
    Ok(Accuracies { white, black })
}

/// Decodes one game record from its JSON object; a field of the wrong
/// kind fails the whole call with `PayloadParseError`.
pub fn decode_game(v: &serde_json::Value) -> (r: Result<Game, IngestError>)
    ensures
        r is Ok <==> spec_game_ok(json_model(*v)),
        r matches Ok(g) ==> game_matches_model(g, json_model(*v)),
        r matches Err(e) ==> e matches IngestError::PayloadParseError(_),
{
    let url = match read_opt_string(v, "url") {
        Ok(x) => x,
        Err(e) => {
            return Err(e);
        },
    };
    let pgn = match read_opt_string(v, "pgn") {
        Ok(x) => x,
        Err(e) => {
            return Err(e);
        },
    };
    let time_control = match read_opt_string(v, "time_control") {
        Ok(x) => x,
        Err(e) => {
            return Err(e);
        },
    };
    let end_time = match read_opt_i64(v, "end_time") {
        Ok(x) => x,
        Err(e) => {
            return Err(e);
        },
    };
    let rated = match read_opt_bool(v, "rated") {
        Ok(x) => x,
        Err(e) => {
            return Err(e);
        },
    };
    let fen = match read_opt_string(v, "fen") {
        Ok(x) => x,
        Err(e) => {
            return Err(e);
        },
    };
    let tcn = match read_opt_string(v, "tcn") {
        Ok(x) => x,
        Err(e) => {
            return Err(e);
        },
    };
    let uuid = match read_opt_string(v, "uuid") {
        Ok(x) => x,
        Err(e) => {
            return Err(e);
        },
    };
    let initial_setup = match read_opt_string(v, "initial_setup") {
        Ok(x) => x,
        Err(e) => {
            return Err(e);
        },
    };
    let time_class = match read_opt_string(v, "time_class") {
        Ok(x) => x,
        Err(e) => {
            return Err(e);
        },
    };
    let rules = match read_opt_string(v, "rules") {
        Ok(x) => x,
        Err(e) => {
            return Err(e);
        },
    };
    let eco = match read_opt_string(v, "eco") {
        Ok(x) => x,
        Err(e) => {
            return Err(e);
        },
    };
    let accuracies = match json_get(v, "accuracies") {
        None => None,
        Some(a) => {
            if json_is_null(a) {
                None
            } else {
                match decode_accuracies(a) {
                    Ok(x) => Some(x),
                    Err(e) => {
                        return Err(e);
                    },
                }
            }
        },
    };
    let white = match json_get(v, "white") {
        None => None,
        Some(w) => {
            if json_is_null(w) {
                None
            } else {
                match decode_side(w) {
                    Ok(x) => Some(x),
                    Err(e) => {
                        return Err(e);
                    },
                }
            }
        },
    };
    let black = match json_get(v, "black") {
        None => None,
        Some(b) => {
            if json_is_null(b) {
                None
            } else {
                match decode_side(b) {
                    Ok(x) => Some(x),
                    Err(e) => {
                        return Err(e);
                    },
                }
            }
        },
    };
    Ok(
        Game {
            url,
            pgn,
            time_control,
            end_time,
            rated,
            fen,
            accuracies,
            tcn,
            uuid,
            initial_setup,
            time_class,
            rules,
            white,
            black,
            eco,
        },
    )
}

/// The model of a month's payload has a `games` array whose games all
/// decode.
pub open spec fn games_body_ok(m: JsonModel) -> bool {
    &&& model_entry(m, "games"@) is Some
    &&& model_arr(model_entry(m, "games"@).unwrap()) is Some
    &&& forall|i: int| 0 <= i < games_models(m).len() ==> spec_game_ok(#[trigger] games_models(m)[i])
}

/// The game models of a month's payload, in the order the service sent
/// them.
pub open spec fn games_models(m: JsonModel) -> Seq<JsonModel> {
    model_arr(model_entry(m, "games"@).unwrap()).unwrap()
}

/// Every decoded game holds exactly its model's field values, in order.
pub open spec fn games_match_models(gs: Seq<Game>, ms: Seq<JsonModel>) -> bool {
    gs.len() == ms.len() && forall|i: int| 0 <= i < gs.len() ==> game_matches_model(
        #[trigger] gs[i],
        ms[i],
    )
}

/// Decodes one month's archive payload `{ "games": [ ... ] }` into its
/// list of games, in the order the service sent them; any shape mismatch
/// is a `PayloadParseError` naming what failed.
pub fn decode_games_body(body: &str) -> (r: Result<Vec<Game>, IngestError>)
    ensures
        r is Ok <==> (json_of(body@) matches Some(m) && games_body_ok(m)),
        r matches Ok(gs) ==> games_match_models(gs@, games_models(json_of(body@).unwrap())),
        r matches Err(e) ==> e matches IngestError::PayloadParseError(_),
{
    let root = match json_parse(body) {
        Ok(v) => v,
        Err(msg) => {
            return Err(payload_err("games payload is not valid JSON: ", msg.as_str()));
        },
    };
    let games_field = match json_get(&root, "games") {
        Some(f) => f,
        None => {
            return Err(payload_err("games payload misses a key: ", "games"));
        },
    };
    let arr = match json_as_array(games_field) {
        Some(a) => a,
        None => {
            return Err(payload_err("games payload field is not an array: ", "games"));
        },
    };
    let ghost ms = games_models(json_model(root));
    let mut out: Vec<Game> = Vec::new();
    let mut i: usize = 0;
    while i < arr.len()
        invariant
            json_of(body@) == Some(json_model(root)),
            model_entry(json_model(root), "games"@) == Some(json_model(*games_field)),
            model_arr(json_model(*games_field)) is Some,
            ms == games_models(json_model(root)),
            arr@.len() == ms.len(),
            forall|q: int| 0 <= q < ms.len() ==> json_model(arr@[q]) == ms[q],
            i <= ms.len(),
            out@.len() == i,
            forall|q: int| 0 <= q < i ==> spec_game_ok(#[trigger] ms[q]),
            forall|q: int| 0 <= q < i ==> game_matches_model(#[trigger] out@[q], ms[q]),
        decreases arr@.len() - i,
    {
        match decode_game(&arr[i]) {
            Ok(g) => out.push(g),
            Err(e) => {
                proof {
                    assert(!spec_game_ok(ms[i as int]));
                }
                return Err(e);
            },
        }
        i = i + 1;
    }
    Ok(out)
}

/// The per-archive game lists as mathematical sequences.
pub open spec fn pages_view(pages: Seq<Vec<Game>>) -> Seq<Seq<Game>> {
    Seq::new(pages.len(), |i: int| pages[i]@)
}

/// Concatenation of per-archive game lists, first page first.
pub open spec fn concat_pages(pages: Seq<Seq<Game>>) -> Seq<Game>
    decreases pages.len(),
{
    if pages.len() == 0 {
        Seq::empty()
    } else {
        pages.first() + concat_pages(pages.drop_first())
    }
}

/// The flat ordered collection of games aggregated across all players
/// and months. Shared games are not deduplicated: a game appears once per
/// player whose archive listed it.
#[derive(Debug)]
pub struct Games {
    pub games: Vec<Game>,
}

/// Concatenates per-archive game lists into one flat sequence, keeping
/// the pages' order and each page's internal order; nothing is dropped,
/// added, reordered or deduplicated.
pub fn aggregate_pages(pages: Vec<Vec<Game>>) -> (r: Games)
    ensures
        r.games@ == concat_pages(pages_view(pages@)),
{
    let mut games: Vec<Game> = Vec::new();
    let mut remaining = pages;
    while remaining.len() > 0
        invariant
            games@ + concat_pages(pages_view(remaining@)) == concat_pages(pages_view(pages@)),
        decreases remaining@.len(),
    {
        let ghost prev = remaining@;
        let mut page = remaining.remove(0);
        proof {
            assert(pages_view(prev).drop_first() =~= pages_view(remaining@));
            assert(pages_view(prev).first() == page@);
            assert(concat_pages(pages_view(prev)) == page@ + concat_pages(
                pages_view(remaining@),
            ));
            assert(games@ + page@ + concat_pages(pages_view(remaining@)) =~= games@
                + concat_pages(pages_view(prev)));
        }
        while page.len() > 0
            invariant
                games@ + page@ + concat_pages(pages_view(remaining@)) == concat_pages(
                    pages_view(pages@),
                ),
            decreases page@.len(),
        {
            let ghost pagep = page@;
            let ghost gamesp = games@;
            let g = page.remove(0);
            games.push(g);
            proof {
                assert(gamesp.push(g) + pagep.remove(0) =~= gamesp + pagep);
            }
        }
        proof {
            assert(games@ + page@ + concat_pages(pages_view(remaining@)) =~= games@
                + concat_pages(pages_view(remaining@)));
        }
    }
    proof {
        assert(pages_view(remaining@).len() == 0);
        assert(games@ + concat_pages(pages_view(remaining@)) =~= games@);
    }
    Games { games }
}

/// One month's body decodes to its games list.
pub open spec fn body_decodes(s: Seq<char>) -> bool {
    json_of(s) matches Some(m) && games_body_ok(m)
}

/// The game models of one decoded body.
pub open spec fn body_models(s: Seq<char>) -> Seq<JsonModel> {
    games_models(json_of(s).unwrap())
}

/// The game models of one player's bodies, in chronological order.
pub open spec fn player_models(bs: Seq<String>) -> Seq<JsonModel>
    decreases bs.len(),
{
    if bs.len() == 0 {
        Seq::empty()
    } else {
        player_models(bs.drop_last()) + body_models(bs.last()@)
    }
}

/// The game models of all bodies: players in request order outside,
/// each player's months in chronological order inside.
pub open spec fn all_models(bodies: Seq<Vec<String>>) -> Seq<JsonModel>
    decreases bodies.len(),
{
    if bodies.len() == 0 {
        Seq::empty()
    } else {
        all_models(bodies.drop_last()) + player_models(bodies.last()@)
    }
}

/// Every supplied body decodes to a games list.
pub open spec fn all_bodies_decode(bodies: Seq<Vec<String>>) -> bool {
    forall|i: int, j: int| 0 <= i < bodies.len() && 0 <= j < bodies[i]@.len()
        ==> #[trigger] body_decodes(bodies[i]@[j]@)
}

/// With no archive body anywhere, no game model exists.
pub proof fn lemma_all_models_empty(bodies: Seq<Vec<String>>)
    requires
        forall|i: int| 0 <= i < bodies.len() ==> (#[trigger] bodies[i])@.len() == 0,
    ensures
        all_models(bodies).len() == 0,
    decreases bodies.len(),
{
    if bodies.len() > 0 {
        assert(bodies.last()@.len() == 0);
        assert(player_models(bodies.last()@).len() == 0);
        assert forall|i: int| 0 <= i < bodies.drop_last().len() implies (#[trigger] bodies.drop_last()[i])@.len() == 0 by {
            assert(bodies.drop_last()[i] == bodies[i]);
        }
        lemma_all_models_empty(bodies.drop_last());
    }
}

/// Appending one page concatenates it at the end.
proof fn lemma_concat_pages_push(pages: Seq<Seq<Game>>, p: Seq<Game>)
    ensures
        concat_pages(pages.push(p)) == concat_pages(pages) + p,
    decreases pages.len(),
{
    if pages.len() == 0 {
        assert(pages.push(p).drop_first() =~= Seq::<Seq<Game>>::empty());
        assert(pages.push(p).first() == p);
        assert(concat_pages(pages.push(p)) == p + concat_pages(pages.push(p).drop_first()));
        assert(p + Seq::<Game>::empty() =~= p);
        assert(Seq::<Game>::empty() + p =~= p);
    } else {
        assert(pages.push(p).drop_first() =~= pages.drop_first().push(p));
        lemma_concat_pages_push(pages.drop_first(), p);
        assert(concat_pages(pages.push(p)) == pages.first() + (concat_pages(pages.drop_first())
            + p));
        assert(pages.first() + (concat_pages(pages.drop_first()) + p) =~= (pages.first()
            + concat_pages(pages.drop_first())) + p);
    }
}

/// Matching lists concatenate to a matching list.
proof fn lemma_games_match_concat(g1: Seq<Game>, m1: Seq<JsonModel>, g2: Seq<Game>, m2: Seq<
    JsonModel,
>)
    requires
        games_match_models(g1, m1),
        games_match_models(g2, m2),
    ensures
        games_match_models(g1 + g2, m1 + m2),
{
    assert forall|i: int| 0 <= i < (g1 + g2).len() implies game_matches_model(
        #[trigger] (g1 + g2)[i],
        (m1 + m2)[i],
    ) by {
        if i < g1.len() {
            assert((g1 + g2)[i] == g1[i]);
            assert((m1 + m2)[i] == m1[i]);
        } else {
            assert((g1 + g2)[i] == g2[i - g1.len()]);
            assert((m1 + m2)[i] == m2[i - m1.len()]);
        }
    }
}

impl Games {
    /// Walks every surviving archive body, outer order the players as
    /// supplied, inner order each player's archives as supplied, decodes
    /// each month's games and concatenates them into one flat collection.
    /// Succeeds exactly when every body decodes; the first parse failure
    /// aborts the whole aggregation with no partial result, and zero
    /// archives yield an empty collection, not an error.
    pub fn new(bodies: &Vec<Vec<String>>) -> (r: Result<Games, IngestError>)
        ensures
            r is Ok <==> all_bodies_decode(bodies@),
            r matches Ok(g) ==> games_match_models(g.games@, all_models(bodies@)),
            r matches Err(e) ==> e matches IngestError::PayloadParseError(_),
    {
        let mut pages: Vec<Vec<Game>> = Vec::new();
        let mut i: usize = 0;
        while i < bodies.len()
            invariant
                i <= bodies@.len(),
                forall|i2: int, j2: int| 0 <= i2 < i && 0 <= j2 < bodies@[i2]@.len()
                    ==> #[trigger] body_decodes(bodies@[i2]@[j2]@),
                games_match_models(
                    concat_pages(pages_view(pages@)),
                    all_models(bodies@.take(i as int)),
                ),
            decreases bodies@.len() - i,
        {
            let player_bodies = &bodies[i];
            let mut j: usize = 0;
            while j < player_bodies.len()
                invariant
                    i < bodies@.len(),
                    j <= player_bodies@.len(),
                    player_bodies@ == bodies@[i as int]@,
                    forall|i2: int, j2: int| 0 <= i2 < i && 0 <= j2 < bodies@[i2]@.len()
                        ==> #[trigger] body_decodes(bodies@[i2]@[j2]@),
                    forall|j2: int| 0 <= j2 < j ==> #[trigger] body_decodes(
                        player_bodies@[j2]@,
                    ),
                    games_match_models(
                        concat_pages(pages_view(pages@)),
                        all_models(bodies@.take(i as int)) + player_models(
                            player_bodies@.take(j as int),
                        ),
                    ),
                decreases player_bodies@.len() - j,
            {
                let ghost pages_prev = pages@;
                match decode_games_body(player_bodies[j].as_str()) {
                    Ok(page) => {
                        proof {
                            lemma_games_match_concat(
                                concat_pages(pages_view(pages_prev)),
                                all_models(bodies@.take(i as int)) + player_models(
                                    player_bodies@.take(j as int),
                                ),
                                page@,
                                body_models(player_bodies@[j as int]@),
                            );
                        }
                        pages.push(page);
                        proof {
                            assert(pages_view(pages@) =~= pages_view(pages_prev).push(page@));
                            lemma_concat_pages_push(pages_view(pages_prev), page@);
                            assert(player_bodies@.take(j + 1).drop_last() =~= player_bodies@.take(
                                j as int,
                            ));
                            assert(player_models(player_bodies@.take(j + 1)) == player_models(
                                player_bodies@.take(j as int),
                            ) + body_models(player_bodies@[j as int]@));
                            assert((all_models(bodies@.take(i as int)) + player_models(
                                player_bodies@.take(j as int),
                            )) + body_models(player_bodies@[j as int]@) =~= all_models(
                                bodies@.take(i as int),
                            ) + player_models(player_bodies@.take(j + 1)));
                        }
                    },
                    Err(e) => {
                        proof {
                            assert(!body_decodes(bodies@[i as int]@[j as int]@));
                            assert(!all_bodies_decode(bodies@));
                        }
                        return Err(e);
                    },
                }
                j = j + 1;
            }
            i = i + 1;
            proof {
                assert(player_bodies@.take(player_bodies@.len() as int) =~= player_bodies@);
                assert(bodies@.take(i as int).drop_last() =~= bodies@.take(i - 1));
                assert(all_models(bodies@.take(i as int)) == all_models(bodies@.take(i - 1))
                    + player_models(bodies@[i - 1]@));
            }
        }
        proof {
            assert(bodies@.take(bodies@.len() as int) =~= bodies@);
        }
        let aggregated = aggregate_pages(pages);
        Ok(aggregated)
    }
}

} // verus!

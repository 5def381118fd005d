use vstd::prelude::*;

use crate::decode::opt_str_view;
use crate::decode::opt_strs_view;
use crate::decode::payload_err;
use crate::decode::read_opt_bool;
use crate::decode::read_opt_i32;
use crate::decode::read_opt_i64;
use crate::decode::read_opt_string;
use crate::decode::read_opt_string_list;
use crate::decode::spec_opt_bool;
use crate::decode::spec_opt_i32;
use crate::decode::spec_opt_i64;
use crate::decode::spec_opt_string;
use crate::decode::spec_opt_string_list;
use crate::errors::IngestError;
use crate::json::JsonModel;
use crate::json::json_of;
use crate::json::json_parse;
use crate::schema::CellValue;
use crate::schema::Column;
use crate::schema::PrimCell;
use crate::schema::ProjectedBatch;
use crate::schema::is_profile_schema;
use crate::schema::profile_schema;
use crate::schema::row_conforms;
use crate::projection::missing_field;
use crate::projection::opt_utf8_cell;

verus! {

/// One player's profile as decoded from the service's JSON: every field
/// explicit, with `None` standing for absent-or-null. Which absences are
/// legal is decided by the output schema at projection time;
/// `streaming_platforms` is not in the schema and is dropped there.
#[derive(Debug, Clone)]
pub struct PlayerProfile {
    pub avatar: Option<String>,
    pub player_id: Option<i32>,
    /// The service's `@id` key, kept under that literal name downstream.
    pub id: Option<String>,
    pub url: Option<String>,
    pub name: Option<String>,
    pub username: Option<String>,
    pub title: Option<String>,
    pub followers: Option<i32>,
    pub country: Option<String>,
    pub location: Option<String>,
    pub last_online: Option<i64>,
    pub joined: Option<i64>,
    pub status: Option<String>,
    pub is_streamer: Option<bool>,
    pub verified: Option<bool>,
    pub league: Option<String>,
    pub streaming_platforms: Option<Vec<String>>,
}

/// The profile object decodes without a type error: every field read
/// succeeds.
pub open spec fn spec_profile_ok(m: JsonModel) -> bool {
    &&& spec_opt_string(m, "avatar"@) is Some
    &&& spec_opt_i32(m, "player_id"@) is Some
    &&& spec_opt_string(m, "@id"@) is Some
    &&& spec_opt_string(m, "url"@) is Some
    &&& spec_opt_string(m, "name"@) is Some
    &&& spec_opt_string(m, "username"@) is Some
    &&& spec_opt_string(m, "title"@) is Some
    &&& spec_opt_i32(m, "followers"@) is Some
    &&& spec_opt_string(m, "country"@) is Some
    &&& spec_opt_string(m, "location"@) is Some
    &&& spec_opt_i64(m, "last_online"@) is Some
    &&& spec_opt_i64(m, "joined"@) is Some
    &&& spec_opt_string(m, "status"@) is Some
    &&& spec_opt_bool(m, "is_streamer"@) is Some
    &&& spec_opt_bool(m, "verified"@) is Some
    &&& spec_opt_string(m, "league"@) is Some
    &&& spec_opt_string_list(m, "streaming_platforms"@) is Some
}

/// The decoded profile holds exactly the modelled field values, with
/// `None` for every absent-or-null field.
pub open spec fn profile_matches_model(p: PlayerProfile, m: JsonModel) -> bool {
    &&& Some(opt_str_view(p.avatar)) == spec_opt_string(m, "avatar"@)
    &&& Some(p.player_id) == spec_opt_i32(m, "player_id"@)
    &&& Some(opt_str_view(p.id)) == spec_opt_string(m, "@id"@)
    &&& Some(opt_str_view(p.url)) == spec_opt_string(m, "url"@)
    &&& Some(opt_str_view(p.name)) == spec_opt_string(m, "name"@)
    &&& Some(opt_str_view(p.username)) == spec_opt_string(m, "username"@)
    &&& Some(opt_str_view(p.title)) == spec_opt_string(m, "title"@)
    &&& Some(p.followers) == spec_opt_i32(m, "followers"@)
    &&& Some(opt_str_view(p.country)) == spec_opt_string(m, "country"@)
    &&& Some(opt_str_view(p.location)) == spec_opt_string(m, "location"@)
    &&& Some(p.last_online) == spec_opt_i64(m, "last_online"@)
    &&& Some(p.joined) == spec_opt_i64(m, "joined"@)
    &&& Some(opt_str_view(p.status)) == spec_opt_string(m, "status"@)
    &&& Some(p.is_streamer) == spec_opt_bool(m, "is_streamer"@)
    &&& Some(p.verified) == spec_opt_bool(m, "verified"@)
    &&& Some(opt_str_view(p.league)) == spec_opt_string(m, "league"@)
    &&& Some(opt_strs_view(p.streaming_platforms)) == spec_opt_string_list(m, "streaming_platforms"@)
}

/// The modelled profile satisfies the declared schema: every required
/// field is present and non-null (`url` and `title` stay nullable).
pub open spec fn model_profile_projects(m: JsonModel) -> bool {
    &&& spec_opt_string(m, "avatar"@) matches Some(Some(_))
    &&& spec_opt_i32(m, "player_id"@) matches Some(Some(_))
    &&& spec_opt_string(m, "@id"@) matches Some(Some(_))
    &&& spec_opt_string(m, "name"@) matches Some(Some(_))
    &&& spec_opt_string(m, "username"@) matches Some(Some(_))
    &&& spec_opt_i32(m, "followers"@) matches Some(Some(_))
    &&& spec_opt_string(m, "country"@) matches Some(Some(_))
    &&& spec_opt_string(m, "location"@) matches Some(Some(_))
    &&& spec_opt_i64(m, "last_online"@) matches Some(Some(_))
    &&& spec_opt_i64(m, "joined"@) matches Some(Some(_))
    &&& spec_opt_string(m, "status"@) matches Some(Some(_))
    &&& spec_opt_bool(m, "is_streamer"@) matches Some(Some(_))
    &&& spec_opt_bool(m, "verified"@) matches Some(Some(_))
    &&& spec_opt_string(m, "league"@) matches Some(Some(_))
}

/// A profile that holds its model's values satisfies the schema exactly
/// when the model does.
pub proof fn lemma_profile_ok_of_model(p: PlayerProfile, m: JsonModel)
    requires
        profile_matches_model(p, m),
    ensures
        profile_ok(p) <==> model_profile_projects(m),
{
}

/// The row holds the projection of some profile that carries exactly
/// the model's field values and satisfies the schema.
pub open spec fn profile_row_of_model(row: Seq<CellValue>, m: JsonModel) -> bool {
    exists|p: PlayerProfile| profile_matches_model(p, m) && profile_ok(p) && profile_row_matches(
        p,
        row,
    )
}

/// The body parses and decodes to a profile record.
pub open spec fn profile_body_decodes(s: Seq<char>) -> bool {
    json_of(s) matches Some(m) && spec_profile_ok(m)
}

/// The body decodes and its profile satisfies the declared schema.
pub open spec fn profile_body_projects(s: Seq<char>) -> bool {
    profile_body_decodes(s) && model_profile_projects(json_of(s).unwrap())
}

/// Decodes one profile payload into its explicit record; succeeds
/// exactly when the body is a JSON document whose present fields have
/// the expected kinds, and fails with `PayloadParseError` otherwise.
pub fn decode_profile_body(body: &str) -> (r: Result<PlayerProfile, IngestError>)
    ensures
        r is Ok <==> (json_of(body@) matches Some(m) && spec_profile_ok(m)),
        r matches Ok(p) ==> profile_matches_model(p, json_of(body@).unwrap()),
        r matches Err(e) ==> e matches IngestError::PayloadParseError(_),
{
    let root = match json_parse(body) {
        Ok(v) => v,
        Err(msg) => {
            return Err(payload_err("profile payload is not valid JSON: ", msg.as_str()));
        },
    };
    let avatar = match read_opt_string(&root, "avatar") {
        Ok(x) => x,
        Err(e) => {
            return Err(e);
        },
    };
    let player_id = match read_opt_i32(&root, "player_id") {
        Ok(x) => x,
        Err(e) => {
            return Err(e);
        },
    };
    let id = match read_opt_string(&root, "@id") {
        Ok(x) => x,
        Err(e) => {
            return Err(e);
        },
    };
    let url = match read_opt_string(&root, "url") {
        Ok(x) => x,
        Err(e) => {
            return Err(e);
        },
    };
    let name = match read_opt_string(&root, "name") {
        Ok(x) => x,
        Err(e) => {
            return Err(e);
        },
    };
    let username = match read_opt_string(&root, "username") {
        Ok(x) => x,
        Err(e) => {
            return Err(e);
        },
    };
    let title = match read_opt_string(&root, "title") {
        Ok(x) => x,
        Err(e) => {
            return Err(e);
        },
    };
    let followers = match read_opt_i32(&root, "followers") {
        Ok(x) => x,
        Err(e) => {
            return Err(e);
        },
    };
    let country = match read_opt_string(&root, "country") {
        Ok(x) => x,
        Err(e) => {
            return Err(e);
        },
    };
    let location = match read_opt_string(&root, "location") {
        Ok(x) => x,
        Err(e) => {
            return Err(e);
        },
    };
    let last_online = match read_opt_i64(&root, "last_online") {
        Ok(x) => x,
        Err(e) => {
            return Err(e);
        },
    };
    let joined = match read_opt_i64(&root, "joined") {
        Ok(x) => x,
        Err(e) => {
            return Err(e);
        },
    };
    let status = match read_opt_string(&root, "status") {
        Ok(x) => x,
        Err(e) => {
            return Err(e);
        },
    };
    let is_streamer = match read_opt_bool(&root, "is_streamer") {
        Ok(x) => x,
        Err(e) => {
            return Err(e);
        },
    };
    let verified = match read_opt_bool(&root, "verified") {
        Ok(x) => x,
        Err(e) => {
            return Err(e);
        },
    };
    let league = match read_opt_string(&root, "league") {
        Ok(x) => x,
        Err(e) => {
            return Err(e);
        },
    };
    let streaming_platforms = match read_opt_string_list(&root, "streaming_platforms") {
        Ok(x) => x,
        Err(e) => {
            return Err(e);
        },
    };
    Ok(
        PlayerProfile {
            avatar,
            player_id,
            id,
            url,
            name,
            username,
            title,
            followers,
            country,
            location,
            last_online,
            joined,
            status,
            is_streamer,
            verified,
            league,
            streaming_platforms,
        },
    )
}

/// A profile satisfies the declared profile schema: every non-nullable
/// column's source field is present (`url` and `title` are the nullable
/// ones; `streaming_platforms` is outside the schema).
pub open spec fn profile_ok(p: PlayerProfile) -> bool {
    &&& p.avatar is Some
    &&& p.player_id is Some
    &&& p.id is Some
    &&& p.name is Some
    &&& p.username is Some
    &&& p.followers is Some
    &&& p.country is Some
    &&& p.location is Some
    &&& p.last_online is Some
    &&& p.joined is Some
    &&& p.status is Some
    &&& p.is_streamer is Some
    &&& p.verified is Some
    &&& p.league is Some
}

/// The row a profile projects to, cell by cell, in schema column order;
/// fields absent from the schema are dropped.
pub open spec fn profile_row_matches(p: PlayerProfile, row: Seq<CellValue>) -> bool {
    &&& row.len() == 16
    &&& row[0] == CellValue::Prim(PrimCell::Utf8(p.avatar.unwrap()))
    &&& row[1] == CellValue::Prim(PrimCell::Int32(p.player_id.unwrap()))
    &&& row[2] == CellValue::Prim(PrimCell::Utf8(p.id.unwrap()))
    &&& row[3] == CellValue::Prim(opt_utf8_cell(p.url))
    &&& row[4] == CellValue::Prim(PrimCell::Utf8(p.name.unwrap()))
    &&& row[5] == CellValue::Prim(PrimCell::Utf8(p.username.unwrap()))
    &&& row[6] == CellValue::Prim(opt_utf8_cell(p.title))
    &&& row[7] == CellValue::Prim(PrimCell::Int32(p.followers.unwrap()))
    &&& row[8] == CellValue::Prim(PrimCell::Utf8(p.country.unwrap()))
    &&& row[9] == CellValue::Prim(PrimCell::Utf8(p.location.unwrap()))
    &&& row[10] == CellValue::Prim(PrimCell::Int64(p.last_online.unwrap()))
    &&& row[11] == CellValue::Prim(PrimCell::Int64(p.joined.unwrap()))
    &&& row[12] == CellValue::Prim(PrimCell::Utf8(p.status.unwrap()))
    &&& row[13] == CellValue::Prim(PrimCell::Boolean(p.is_streamer.unwrap()))
    &&& row[14] == CellValue::Prim(PrimCell::Boolean(p.verified.unwrap()))
    &&& row[15] == CellValue::Prim(PrimCell::Utf8(p.league.unwrap()))
}

/// A row built for a profile that satisfies the schema conforms to any
/// column list declaring the profile schema.
pub proof fn lemma_profile_row_conforms(p: PlayerProfile, row: Seq<CellValue>, schema: Seq<Column>)
    requires
        profile_ok(p),
        profile_row_matches(p, row),
        is_profile_schema(schema),
    ensures
        row_conforms(schema, row),
{
    assert forall|j: int| 0 <= j < row.len() implies crate::schema::cell_conforms(
        row[j],
        schema[j],
    ) by {}
}

/// Projects one profile onto the declared profile schema: a missing
/// required field fails with `SchemaProjectionError`; missing `url` or
/// `title` become null cells; `streaming_platforms` is dropped.
pub fn profile_row(p: &PlayerProfile) -> (r: Result<Vec<CellValue>, IngestError>)
    ensures
        r is Ok <==> profile_ok(*p),
        r matches Ok(row) ==> profile_row_matches(*p, row@),
        r matches Err(e) ==> e matches IngestError::SchemaProjectionError(_),
{
    let avatar = match &p.avatar {
        Some(s) => s.clone(),
        None => {
            return Err(missing_field("avatar"));
        },
    };
    let player_id = match &p.player_id {
        Some(x) => *x,
        None => {
            return Err(missing_field("player_id"));
        },
    };
    let id = match &p.id {
        Some(s) => s.clone(),
        None => {
            return Err(missing_field("@id"));
        },
    };
    let name = match &p.name {
        Some(s) => s.clone(),
        None => {
            return Err(missing_field("name"));
        },
    };
    let username = match &p.username {
        Some(s) => s.clone(),
        None => {
            return Err(missing_field("username"));
        },
    };
    let followers = match &p.followers {
        Some(x) => *x,
        None => {
            return Err(missing_field("followers"));
        },
    };
    let country = match &p.country {
        Some(s) => s.clone(),
        None => {
            return Err(missing_field("country"));
        },
    };
    let location = match &p.location {
        Some(s) => s.clone(),
        None => {
            return Err(missing_field("location"));
        },
    };
    let last_online = match &p.last_online {
        Some(x) => *x,
        None => {
            return Err(missing_field("last_online"));
        },
    };
    let joined = match &p.joined {
        Some(x) => *x,
        None => {
            return Err(missing_field("joined"));
        },
    };
    let status = match &p.status {
        Some(s) => s.clone(),
        None => {
            return Err(missing_field("status"));
        },
    };
    let is_streamer = match &p.is_streamer {
        Some(x) => *x,
        None => {
            return Err(missing_field("is_streamer"));
        },
    };
    let verified = match &p.verified {
        Some(x) => *x,
        None => {
            return Err(missing_field("verified"));
        },
    };
    let league = match &p.league {
        Some(s) => s.clone(),
        None => {
            return Err(missing_field("league"));
        },
    };
    let mut row: Vec<CellValue> = Vec::new();
    row.push(CellValue::Prim(PrimCell::Utf8(avatar)));
    row.push(CellValue::Prim(PrimCell::Int32(player_id)));
    row.push(CellValue::Prim(PrimCell::Utf8(id)));
    row.push(
        CellValue::Prim(
            match &p.url {
                Some(s) => PrimCell::Utf8(s.clone()),
                None => PrimCell::Null,
            },
        ),
    );
    row.push(CellValue::Prim(PrimCell::Utf8(name)));
    row.push(CellValue::Prim(PrimCell::Utf8(username)));
    row.push(
        CellValue::Prim(
            match &p.title {
                Some(s) => PrimCell::Utf8(s.clone()),
                None => PrimCell::Null,
            },
        ),
    );
    row.push(CellValue::Prim(PrimCell::Int32(followers)));
    row.push(CellValue::Prim(PrimCell::Utf8(country)));
    row.push(CellValue::Prim(PrimCell::Utf8(location)));
    row.push(CellValue::Prim(PrimCell::Int64(last_online)));
    row.push(CellValue::Prim(PrimCell::Int64(joined)));
    row.push(CellValue::Prim(PrimCell::Utf8(status)));
    row.push(CellValue::Prim(PrimCell::Boolean(is_streamer)));
    row.push(CellValue::Prim(PrimCell::Boolean(verified)));
    row.push(CellValue::Prim(PrimCell::Utf8(league)));
    Ok(row)
}

/// The profiles collected for one batch, with the schema they will be
/// projected onto.
pub struct PlayerProfiles {
    pub payloads: Vec<PlayerProfile>,
    pub schema: Vec<Column>,
}

impl PlayerProfiles {
    /// An empty collection carrying the declared profile schema.
    pub fn new() -> (r: PlayerProfiles)
        ensures
            r.payloads@.len() == 0,
            is_profile_schema(r.schema@),
    {
        PlayerProfiles { payloads: Vec::new(), schema: profile_schema() }
    }

    /// Appends one decoded profile, leaving the schema untouched.
    pub fn push_payload(&mut self, payload: PlayerProfile)
        ensures
            final(self).payloads@ == old(self).payloads@.push(payload),
            final(self).schema == old(self).schema,
    {
        self.payloads.push(payload)
    }
}

impl Default for PlayerProfiles {
    fn default() -> (r: PlayerProfiles)
        ensures
            r.payloads@.len() == 0,
            is_profile_schema(r.schema@),
    {
        PlayerProfiles::new()
    }
}

/// Converts the collected profiles into the fixed-schema columnar batch.
///
/// All-or-nothing: the batch is produced exactly when every profile
/// satisfies the schema, with one row per profile in input order; the
/// first profile missing a required field fails the whole batch with
/// `SchemaProjectionError`.
pub fn project_profiles(profiles: PlayerProfiles) -> (r: Result<ProjectedBatch, IngestError>)
    requires
        is_profile_schema(profiles.schema@),
    ensures
        r is Ok <==> (forall|i: int|
            0 <= i < profiles.payloads@.len() ==> profile_ok(#[trigger] profiles.payloads@[i])),
        r matches Ok(b) ==> is_profile_schema(b.schema@),
        r matches Ok(b) ==> b.rows@.len() == profiles.payloads@.len(),
        r matches Ok(b) ==> (forall|i: int|
            0 <= i < profiles.payloads@.len() ==> profile_row_matches(
                profiles.payloads@[i],
                (#[trigger] b.rows@[i])@,
            )),
        r matches Ok(b) ==> b.wf(),
        r matches Err(e) ==> e matches IngestError::SchemaProjectionError(_),
{
    let mut rows: Vec<Vec<CellValue>> = Vec::new();
    let mut i: usize = 0;
    while i < profiles.payloads.len()
        invariant
            i <= profiles.payloads@.len(),
            rows@.len() == i,
            is_profile_schema(profiles.schema@),
            forall|k: int| 0 <= k < i ==> profile_ok(#[trigger] profiles.payloads@[k]),
            forall|k: int| 0 <= k < i ==> profile_row_matches(
                profiles.payloads@[k],
                (#[trigger] rows@[k])@,
            ),
            forall|k: int| 0 <= k < i ==> row_conforms(profiles.schema@, (#[trigger] rows@[k])@),
        decreases profiles.payloads@.len() - i,
    {
        match profile_row(&profiles.payloads[i]) {
            Ok(row) => {
                proof {
                    lemma_profile_row_conforms(
                        profiles.payloads@[i as int],
                        row@,
                        profiles.schema@,
                    );
                }
                rows.push(row);
            },
            Err(e) => {
                proof {
                    assert(!profile_ok(profiles.payloads@[i as int]));
                }
                return Err(e);
            },
        }
        i = i + 1;
    }
    Ok(ProjectedBatch { schema: profiles.schema, rows })
}

} // verus!

use vstd::prelude::*;

use crate::decode::all_str_items;
use crate::decode::payload_err;
use crate::decode::str_items;
use crate::decode::strs_view;
use crate::errors::IngestError;
use crate::json::JsonModel;
use crate::json::json_as_array;
use crate::json::json_as_string;
use crate::json::json_get;
use crate::json::json_model;
use crate::json::json_of;
use crate::json::json_parse;
use crate::json::model_arr;
use crate::json::model_entry;
use crate::months::CalendarMonth;
use crate::months::is_month_string;
use crate::months::month_value;
use crate::months::parse_date_utc;
use crate::months::year_value;

verus! {

/// An inclusive range of calendar months, validated at construction:
/// the end month is never earlier than the start month.
#[derive(Debug, Clone, Copy, PartialEq, Eq, Structural)]
pub struct ArchiveDateRange {
    pub start_month: CalendarMonth,
    pub end_month: CalendarMonth,
}

impl ArchiveDateRange {
    pub open spec fn wf(self) -> bool {
        self.start_month.spec_le(self.end_month)
    }

    /// A month lies in the range iff it is between both ends, inclusive.
    pub open spec fn spec_contains(self, m: CalendarMonth) -> bool {
        self.start_month.spec_le(m) && m.spec_le(self.end_month)
    }

    /// Builds a range, failing fast with `InvalidRange` exactly when the
    /// end month lies before the start month; no fetch happens first.
    pub fn new(start_month: CalendarMonth, end_month: CalendarMonth) -> (r: Result<
        ArchiveDateRange,
        IngestError,
    >)
        ensures
            end_month.spec_lt(start_month) <==> r matches Err(IngestError::InvalidRange),
            !end_month.spec_lt(start_month) ==> (r matches Ok(g) && g.start_month == start_month
                && g.end_month == end_month),
            r matches Ok(g) ==> g.wf(),
    {
        if end_month.lt(&start_month) {
            Err(IngestError::InvalidRange)
        } else {
            Ok(ArchiveDateRange { start_month, end_month })
        }
    }

    pub fn contains(&self, m: &CalendarMonth) -> (r: bool)
        ensures
            r == self.spec_contains(*m),
    {
        self.start_month.le(m) && m.le(&self.end_month)
    }
}

/// The trailing `YYYY/MM` segment of an archive URL: its last seven
/// characters (the whole URL if it is shorter than that).
pub open spec fn url_month_part(u: Seq<char>) -> Seq<char> {
    if u.len() >= 7 {
        u.skip(u.len() - 7)
    } else {
        u
    }
}

/// Whether the URL ends in a strict `YYYY/MM` segment.
pub open spec fn url_has_month(u: Seq<char>) -> bool {
    is_month_string(url_month_part(u))
}

pub open spec fn url_year(u: Seq<char>) -> int {
    year_value(url_month_part(u))
}

pub open spec fn url_month(u: Seq<char>) -> int {
    month_value(url_month_part(u))
}

/// The calendar month spelled by a strict `YYYY/MM` text.
pub open spec fn month_of(s: Seq<char>) -> CalendarMonth {
    CalendarMonth { year: year_value(s) as i32, month: month_value(s) as u32 }
}

/// The calendar month embedded in an archive URL's trailing segment.
pub open spec fn url_month_of(u: Seq<char>) -> CalendarMonth {
    month_of(url_month_part(u))
}

/// The months embedded in a list of archive URLs, position by position.
pub open spec fn url_months_of(us: Seq<String>) -> Seq<CalendarMonth> {
    Seq::new(us.len(), |i: int| url_month_of(us[i]@))
}

/// Every URL in the list ends in a strict `YYYY/MM` segment.
pub open spec fn all_urls_have_months(us: Seq<String>) -> bool {
    forall|i: int| 0 <= i < us.len() ==> #[trigger] url_has_month(us[i]@)
}

/// Every URL text in the list ends in a strict `YYYY/MM` segment.
pub open spec fn all_views_have_months(us: Seq<Seq<char>>) -> bool {
    forall|i: int| 0 <= i < us.len() ==> #[trigger] url_has_month(us[i])
}

/// The URL texts whose month lies in the range, original order kept.
pub open spec fn filtered_url_views(us: Seq<Seq<char>>, range: ArchiveDateRange) -> Seq<Seq<char>>
    decreases us.len(),
{
    if us.len() == 0 {
        Seq::empty()
    } else if range.spec_contains(url_month_of(us.last())) {
        filtered_url_views(us.drop_last(), range).push(us.last())
    } else {
        filtered_url_views(us.drop_last(), range)
    }
}

/// Filtering the owned URL strings and filtering their texts agree.
pub proof fn lemma_filtered_views(us: Seq<String>, range: ArchiveDateRange)
    ensures
        strs_view(filtered_urls(us, url_months_of(us), range)) == filtered_url_views(
            strs_view(us),
            range,
        ),
    decreases us.len(),
{
    if us.len() == 0 {
        assert(strs_view(filtered_urls(us, url_months_of(us), range)) =~= filtered_url_views(
            strs_view(us),
            range,
        ));
    } else {
        lemma_filtered_views(us.drop_last(), range);
        assert(url_months_of(us).drop_last() =~= url_months_of(us.drop_last()));
        assert(strs_view(us).drop_last() =~= strs_view(us.drop_last()));
        assert(url_months_of(us).last() == url_month_of(us.last()@));
        assert(strs_view(us).last() == us.last()@);
        let prior = filtered_urls(us.drop_last(), url_months_of(us.drop_last()), range);
        if range.spec_contains(url_month_of(us.last()@)) {
            assert(filtered_urls(us, url_months_of(us), range) == prior.push(us.last()));
            assert(strs_view(prior.push(us.last())) =~= strs_view(prior).push(us.last()@));
        } else {
            assert(filtered_urls(us, url_months_of(us), range) == prior);
        }
    }
}

/// The URLs whose month lies in the range, in their original order.
pub open spec fn filtered_urls(
    us: Seq<String>,
    ms: Seq<CalendarMonth>,
    range: ArchiveDateRange,
) -> Seq<String>
    decreases us.len(),
{
    if us.len() == 0 || us.len() != ms.len() {
        Seq::empty()
    } else if range.spec_contains(ms.last()) {
        filtered_urls(us.drop_last(), ms.drop_last(), range).push(us.last())
    } else {
        filtered_urls(us.drop_last(), ms.drop_last(), range)
    }
}

/// The filtered list holds a URL exactly when some position of the input
/// holds that URL with a month inside the range; filtering keeps nothing
/// else and drops nothing in range.
pub proof fn lemma_filtered_urls_membership(
    us: Seq<String>,
    ms: Seq<CalendarMonth>,
    range: ArchiveDateRange,
    u: String,
)
    requires
        us.len() == ms.len(),
    ensures
        filtered_urls(us, ms, range).contains(u) <==> exists|i: int|
            0 <= i < us.len() && us[i] == u && range.spec_contains(ms[i]),
    decreases us.len(),
{
    if us.len() == 0 {
    } else {
        lemma_filtered_urls_membership(us.drop_last(), ms.drop_last(), range, u);
        let prior = filtered_urls(us.drop_last(), ms.drop_last(), range);
        let last = us.len() - 1;
        if range.spec_contains(ms.last()) {
            assert(filtered_urls(us, ms, range) == prior.push(us.last()));
            if prior.push(us.last()).contains(u) {
                if u == us.last() {
                    assert(us[last] == u && range.spec_contains(ms[last]));
                } else {
                    assert(prior.contains(u)) by {
                        let j = choose|j: int|
                            0 <= j < prior.push(us.last()).len() && prior.push(us.last())[j] == u;
                        assert(prior[j] == u);
                    }
                }
            }
            if exists|i: int| 0 <= i < us.len() && us[i] == u && range.spec_contains(ms[i]) {
                let i = choose|i: int| 0 <= i < us.len() && us[i] == u && range.spec_contains(
                    ms[i],
                );
                if i < last {
                    assert(us.drop_last()[i] == u && range.spec_contains(ms.drop_last()[i]));
                    assert(prior.contains(u));
                    let j = choose|j: int| 0 <= j < prior.len() && prior[j] == u;
                    assert(prior.push(us.last())[j] == u);
                } else {
                    assert(prior.push(us.last()).last() == u);
                }
            }
        } else {
            if prior.contains(u) {
                let j = choose|j: int| 0 <= j < prior.len() && prior[j] == u;
            }
            if exists|i: int| 0 <= i < us.len() && us[i] == u && range.spec_contains(ms[i]) {
                let i = choose|i: int| 0 <= i < us.len() && us[i] == u && range.spec_contains(
                    ms[i],
                );
                assert(i != last);
                assert(us.drop_last()[i] == u && range.spec_contains(ms.drop_last()[i]));
            }
        }
    }
}

/// Extracts the trailing `YYYY/MM` segment of an archive URL, appends the
/// synthetic day, and parses it into a calendar month. A URL too short to
/// hold the segment is rejected outright, and a URL whose embedded date
/// cannot be parsed is a `PayloadParseError`: both signal an upstream
/// contract violation and are surfaced, never skipped.
pub fn archive_url_month(url: &str) -> (r: Result<CalendarMonth, IngestError>)
    ensures
        url@.len() < 7 ==> r matches Err(IngestError::PayloadParseError(_)),
        url_has_month(url@) ==> (r matches Ok(m) && m.year == url_year(url@) && m.month
            == url_month(url@)),
        r matches Ok(m) ==> m.wf(),
        r matches Err(e) ==> e matches IngestError::PayloadParseError(_),
{
    let n = url.unicode_len();
    if n < 7 {
        return Err(
            IngestError::PayloadParseError(
                String::from_str("archive URL is shorter than its trailing date segment: ").concat(
                    url,
                ),
            ),
        );
    }
    let tail = url.substring_char(n - 7, n);
    let mut with_day = tail.to_owned();
    with_day.append("/27");
    proof {
        reveal_strlit("/27");
        if url_has_month(url@) {
            assert(with_day@.take(7) =~= url_month_part(url@));
        }
    }
    match parse_date_utc(with_day.as_str()) {
        Ok((y, m)) => Ok(CalendarMonth { year: y, month: m }),
        Err(msg) => Err(
            IngestError::PayloadParseError(
                String::from_str("archive URL does not end in a parseable date: ").concat(
                    url,
                ).concat(": ").concat(msg.as_str()),
            ),
        ),
    }
}

/// Keeps exactly the URLs whose month lies within the range, preserving
/// the original order.
pub fn filter_urls_in_range(
    urls: &Vec<String>,
    months: &Vec<CalendarMonth>,
    range: &ArchiveDateRange,
) -> (r: Vec<String>)
    requires
        urls@.len() == months@.len(),
    ensures
        r@ == filtered_urls(urls@, months@, *range),
{
    let mut kept: Vec<String> = Vec::new();
    let mut i: usize = 0;
    while i < urls.len()
        invariant
            urls@.len() == months@.len(),
            i <= urls@.len(),
            kept@ == filtered_urls(urls@.take(i as int), months@.take(i as int), *range),
        decreases urls@.len() - i,
    {
        proof {
            assert(urls@.take(i + 1).drop_last() =~= urls@.take(i as int));
            assert(months@.take(i + 1).drop_last() =~= months@.take(i as int));
            assert(urls@.take(i + 1).last() == urls@[i as int]);
            assert(months@.take(i + 1).last() == months@[i as int]);
        }
        if range.contains(&months[i]) {
            kept.push(urls[i].clone());
        }
        i = i + 1;
    }
    proof {
        assert(urls@.take(urls@.len() as int) =~= urls@);
        assert(months@.take(urls@.len() as int) =~= months@);
    }
    kept
}

/// One player's list of monthly archive URLs, as returned by the remote
/// service (one per calendar month the player has ever played), later
/// narrowed to the subset matching a requested range.
#[derive(Debug, Clone)]
pub struct PlayerArchives {
    pub archives: Vec<String>,
}

impl PlayerArchives {
    /// Parses the month embedded in every archive URL, in order. Any URL
    /// without a parseable date fails the whole call with
    /// `PayloadParseError`; nothing is silently dropped.
    pub fn archive_months(&self) -> (r: Result<Vec<CalendarMonth>, IngestError>)
        ensures
            all_urls_have_months(self.archives@) ==> (r matches Ok(ms) && ms@ == url_months_of(
                self.archives@,
            )),
            r matches Ok(ms) ==> ms@.len() == self.archives@.len(),
            r matches Ok(ms) ==> (forall|j: int| 0 <= j < self.archives@.len() ==> (#[trigger] self.archives@[j])@.len() >= 7),
            r matches Err(e) ==> e matches IngestError::PayloadParseError(_),
    {
        let mut months: Vec<CalendarMonth> = Vec::new();
        let mut i: usize = 0;
        while i < self.archives.len()
            invariant
                i <= self.archives@.len(),
                months@.len() == i,
                forall|j: int| 0 <= j < i ==> (#[trigger] self.archives@[j])@.len() >= 7,
                forall|j: int|
                    0 <= j < i && url_has_month(self.archives@[j]@) ==> (#[trigger] months@[j]).year
                        == url_year(self.archives@[j]@) && months@[j].month == url_month(
                        self.archives@[j]@,
                    ),
            decreases self.archives@.len() - i,
        {
            match archive_url_month(self.archives[i].as_str()) {
                Ok(m) => {
                    months.push(m);
                }
                Err(e) => {
                    return Err(e);
                }
            }
            i = i + 1;
        }
        proof {
            if all_urls_have_months(self.archives@) {
                assert(months@ =~= url_months_of(self.archives@));
            }
        }
        Ok(months)
    }

    /// Narrows the archive list to the URLs whose embedded month lies
    /// within the range, inclusive on both ends, preserving order.
    pub fn filter_months(self, range: &ArchiveDateRange) -> (r: Result<
        PlayerArchives,
        IngestError,
    >)
        ensures
            all_urls_have_months(self.archives@) ==> (r matches Ok(p) && p.archives@
                == filtered_urls(self.archives@, url_months_of(self.archives@), *range)),
            r matches Ok(p) ==> (forall|j: int| 0 <= j < self.archives@.len() ==> (#[trigger] self.archives@[j])@.len() >= 7),
            r matches Err(e) ==> e matches IngestError::PayloadParseError(_),
    {
        let months = match self.archive_months() {
            Ok(ms) => ms,
            Err(e) => {
                return Err(e);
            }
        };
        let archives = filter_urls_in_range(&self.archives, &months, range);
        Ok(PlayerArchives { archives })
    }
}

/// The per-player archive indexes surviving the date filter, in the order
/// the players were supplied.
#[derive(Debug)]
pub struct PlayersArchives {
    pub players: Vec<PlayerArchives>,
    pub range: ArchiveDateRange,
}

impl PlayersArchives {
    /// Validates the range eagerly: an end month before the start month
    /// is `InvalidRange`, raised before any fetch would happen.
    pub fn new(start_month: CalendarMonth, end_month: CalendarMonth) -> (r: Result<
        PlayersArchives,
        IngestError,
    >)
        ensures
            end_month.spec_lt(start_month) <==> r matches Err(IngestError::InvalidRange),
            !end_month.spec_lt(start_month) ==> (r matches Ok(pa) && pa.players@.len() == 0
                && pa.range.start_month == start_month && pa.range.end_month == end_month),
            r matches Ok(pa) ==> pa.range.wf(),
    {
        match ArchiveDateRange::new(start_month, end_month) {
            Ok(range) => Ok(PlayersArchives { players: Vec::new(), range }),
            Err(e) => Err(e),
        }
    }

    /// Filters one player's archives against the stored range and appends
    /// the surviving index; an unparseable archive date fails the call and
    /// leaves the collection unchanged.
    pub fn add_player_archive(&mut self, player: PlayerArchives) -> (r: Result<(), IngestError>)
        ensures
            final(self).range == old(self).range,
            r matches Ok(_) ==> final(self).players@.len() == old(self).players@.len() + 1,
            r matches Ok(_) ==> final(self).players@.take(old(self).players@.len() as int) == old(self).players@,
            all_urls_have_months(player.archives@) ==> (r matches Ok(_) && final(self).players@.last().archives@ == filtered_urls(player.archives@, url_months_of(player.archives@), old(self).range)),
            r matches Err(e) ==> (e matches IngestError::PayloadParseError(_) && *final(self) == *old(self)),
    {
        let filtered = match player.filter_months(&self.range) {
            Ok(p) => p,
            Err(e) => {
                return Err(e);
            }
        };
        self.players.push(filtered);
        proof {
            assert(self.players@.take(self.players@.len() - 1) =~= old(self).players@);
        }
        Ok(())
    }
}

/// The model of an archive-list payload has an `archives` array holding
/// only strings.
pub open spec fn archives_body_ok(m: JsonModel) -> bool {
    &&& model_entry(m, "archives"@) is Some
    &&& model_arr(model_entry(m, "archives"@).unwrap()) is Some
    &&& all_str_items(model_arr(model_entry(m, "archives"@).unwrap()).unwrap())
}

/// The body parses and has the archive-list shape.
pub open spec fn archives_body_decodes(s: Seq<char>) -> bool {
    json_of(s) matches Some(m) && archives_body_ok(m)
}

/// The URL texts listed by a decoded archive-list payload, in order.
pub open spec fn body_url_views(s: Seq<char>) -> Seq<Seq<char>> {
    str_items(model_arr(model_entry(json_of(s).unwrap(), "archives"@).unwrap()).unwrap())
}

/// Decodes one player's archive-list payload `{ "archives": [ ... ] }`
/// into the ordered list of archive URLs; succeeds exactly when the body
/// has that shape, and any mismatch fails with `PayloadParseError`.
pub fn parse_archives_body(body: &str) -> (r: Result<PlayerArchives, IngestError>)
    ensures
        r is Ok <==> archives_body_decodes(body@),
        r matches Ok(p) ==> strs_view(p.archives@) == body_url_views(body@),
        r matches Err(e) ==> e matches IngestError::PayloadParseError(_),
{
    let root = match json_parse(body) {
        Ok(v) => v,
        Err(msg) => {
            return Err(payload_err("archive list is not valid JSON: ", msg.as_str()));
        },
    };
    let field = match json_get(&root, "archives") {
        Some(f) => f,
        None => {
            return Err(payload_err("archive list misses a key: ", "archives"));
        },
    };
    let arr = match json_as_array(field) {
        Some(a) => a,
        None => {
            return Err(payload_err("archive list field is not an array: ", "archives"));
        },
    };
    let ghost ms = model_arr(json_model(*field)).unwrap();
    let mut archives: Vec<String> = Vec::new();
    let mut i: usize = 0;
    while i < arr.len()
        invariant
            json_of(body@) == Some(json_model(root)),
            model_entry(json_model(root), "archives"@) == Some(json_model(*field)),
            model_arr(json_model(*field)) == Some(ms),
            arr@.len() == ms.len(),
            forall|q: int| 0 <= q < ms.len() ==> json_model(arr@[q]) == ms[q],
            i <= ms.len(),
            archives@.len() == i,
            forall|q: int| 0 <= q < i ==> crate::json::model_str(#[trigger] ms[q]) is Some,
            forall|q: int| 0 <= q < i ==> archives@[q]@ == crate::json::model_str(#[trigger] ms[q]).unwrap(),
        decreases arr@.len() - i,
    {
        match json_as_string(&arr[i]) {
            Some(s) => archives.push(s),
            None => {
                proof {
                    assert(crate::json::model_str(ms[i as int]) is None);
                    assert(!all_str_items(ms));
                }
                return Err(payload_err("archive list element is not a string: ", "archives"));
            },
        }
        i = i + 1;
    }
    proof {
        assert(all_str_items(ms));
        assert(strs_view(archives@) =~= str_items(ms));
    }
    Ok(PlayerArchives { archives })
}

/// The remote endpoint listing all of one player's monthly archives.
pub fn archives_endpoint(base: &str, player: &str) -> (r: String)
    ensures
        r@ == base@ + "player/"@ + player@ + "/games/archives"@,
{
    let mut url = base.to_owned();
    url.append("player/");
    url.append(player);
    url.append("/games/archives");
    url
}

/// The remote endpoint serving one player's profile.
pub fn profile_endpoint(base: &str, player: &str) -> (r: String)
    ensures
        r@ == base@ + "player/"@ + player@,
{
    let mut url = base.to_owned();
    url.append("player/");
    url.append(player);
    url
}

} // verus!

use vstd::prelude::*;
use crate::json::{json_doc_of, parse_json, Json};
use crate::model::{Corner, Episode, Error, NewInfo, Series};

verus! {

/// The value under `key` in an object's member list: the first pair
/// carrying the key (the parse boundary keeps keys unique).
pub open spec fn spec_member(ms: Seq<(String, Json)>, key: Seq<char>) -> Option<Json>
    decreases ms.len(),
{
    if ms.len() == 0 {
        None
    } else if ms[0].0@ == key {
        Some(ms[0].1)
    } else {
        spec_member(ms.skip(1), key)
    }
}

/// The member of `j` under `key`: None when `j` is no object or has no
/// such member.
pub open spec fn spec_field(j: Json, key: Seq<char>) -> Option<Json> {
    match j {
        Json::Object(ms) => spec_member(ms@, key),
        _ => None,
    }
}

/// The text of the string member of `j` under `key`, if there is one.
pub open spec fn spec_str_field(j: Json, key: Seq<char>) -> Option<Seq<char>> {
    match spec_field(j, key) {
        Some(Json::Str(s)) => Some(s@),
        _ => None,
    }
}

/// The value of the unsigned integer member of `j` under `key`, if
/// there is one.
pub open spec fn spec_uint_field(j: Json, key: Seq<char>) -> Option<u64> {
    match spec_field(j, key) {
        Some(Json::UInt(n)) => Some(n),
        _ => None,
    }
}

/// Whether `j` is a well-shaped corner object: the four string fields
/// are all present.
pub open spec fn spec_corner_shape_ok(j: Json) -> bool {
    spec_str_field(j, "title"@) is Some && spec_str_field(j, "corner_name"@) is Some
        && spec_str_field(j, "series_site_id"@) is Some && spec_str_field(
        j,
        "corner_site_id"@,
    ) is Some
}

/// Whether `c` holds exactly the four string fields of `j`.
pub open spec fn spec_corner_matches(c: Corner, j: Json) -> bool {
    spec_str_field(j, "title"@) == Some(c.title@) && spec_str_field(j, "corner_name"@) == Some(
        c.corner_name@,
    ) && spec_str_field(j, "series_site_id"@) == Some(c.series_site_id@) && spec_str_field(
        j,
        "corner_site_id"@,
    ) == Some(c.corner_site_id@)
}

/// Whether `j` is an array of well-shaped corner objects.
pub open spec fn spec_corners_shape_ok(j: Json) -> bool {
    j matches Json::Array(items) && (forall|i: int|
        0 <= i < items@.len() ==> spec_corner_shape_ok(#[trigger] items@[i]))
}

/// Whether `cs` holds exactly the corners of the array `j`, in order.
pub open spec fn spec_corners_match(cs: Seq<Corner>, j: Json) -> bool {
    j matches Json::Array(items) && cs.len() == items@.len() && (forall|i: int|
        0 <= i < cs.len() ==> spec_corner_matches(cs[i], #[trigger] items@[i]))
}

/// Whether `j` is a well-shaped episode object: the id is an unsigned
/// integer in the episode id range, and the four string fields are all
/// present.
pub open spec fn spec_episode_shape_ok(j: Json) -> bool {
    (spec_uint_field(j, "id"@) matches Some(n) && n <= u32::MAX) && spec_str_field(
        j,
        "program_title"@,
    ) is Some && spec_str_field(j, "onair_date"@) is Some && spec_str_field(
        j,
        "stream_url"@,
    ) is Some && spec_str_field(j, "program_sub_title"@) is Some
}

/// Whether `e` holds exactly the five fields of `j`.
pub open spec fn spec_episode_matches(e: Episode, j: Json) -> bool {
    spec_uint_field(j, "id"@) == Some(e.id as u64) && spec_str_field(j, "program_title"@) == Some(
        e.program_title@,
    ) && spec_str_field(j, "onair_date"@) == Some(e.onair_date@) && spec_str_field(
        j,
        "stream_url"@,
    ) == Some(e.stream_url@) && spec_str_field(j, "program_sub_title"@) == Some(
        e.program_sub_title@,
    )
}

/// Whether `j` is a well-shaped series object: id in range, title
/// present, and an `episodes` array of well-shaped episode objects.
pub open spec fn spec_series_shape_ok(j: Json) -> bool {
    (spec_uint_field(j, "id"@) matches Some(n) && n <= u32::MAX) && spec_str_field(
        j,
        "title"@,
    ) is Some && (spec_field(j, "episodes"@) matches Some(ep) && ep matches Json::Array(items)
        && (forall|i: int| 0 <= i < items@.len() ==> spec_episode_shape_ok(#[trigger] items@[i])))
}

/// Whether `s` holds exactly the id, title and episodes of `j`, the
/// episodes in the array's order.
pub open spec fn spec_series_matches(s: Series, j: Json) -> bool {
    spec_uint_field(j, "id"@) == Some(s.id as u64) && spec_str_field(j, "title"@) == Some(s.title@)
        && (spec_field(j, "episodes"@) matches Some(ep) && ep matches Json::Array(items)
        && s.episodes@.len() == items@.len() && (forall|i: int|
        0 <= i < items@.len() ==> spec_episode_matches(s.episodes@[i], #[trigger] items@[i])))
}

/// Whether `j` is a well-shaped new-arrivals catalog: a `corners`
/// member holding an array of well-shaped corner objects.
pub open spec fn spec_new_info_shape_ok(j: Json) -> bool {
    spec_field(j, "corners"@) matches Some(f) && spec_corners_shape_ok(f)
}

/// Whether `info` holds exactly the corners of `j`'s `corners` member.
pub open spec fn spec_new_info_matches(info: NewInfo, j: Json) -> bool {
    spec_field(j, "corners"@) matches Some(f) && spec_corners_match(info.corners@, f)
}

proof fn lemma_member_step(ms: Seq<(String, Json)>, key: Seq<char>, i: int)
    requires
        0 <= i < ms.len(),
        forall|k: int| 0 <= k < i ==> (#[trigger] ms[k].0)@ != key,
    ensures
        ms[i].0@ == key ==> spec_member(ms, key) == Some(ms[i].1),
        ms[i].0@ != key ==> spec_member(ms, key) == spec_member(ms.skip(i + 1), key),
    decreases i,
{
    if i == 0 {
        assert(ms.skip(1) =~= ms.skip(i + 1));
    } else {
        assert(ms.skip(1)[i - 1] == ms[i]);
        assert(forall|k: int| 0 <= k < i - 1 ==> (#[trigger] ms.skip(1)[k].0)@ != key);
        lemma_member_step(ms.skip(1), key, i - 1);
        assert(ms.skip(1).skip(i) =~= ms.skip(i + 1));
    }
}

/// Looks the key up in an object's member list.
fn member<'a>(ms: &'a Vec<(String, Json)>, key: &str) -> (r: Option<&'a Json>)
    ensures
        (match r {
            Some(f) => spec_member(ms@, key@) == Some(*f),
            None => spec_member(ms@, key@) is None,
        }),
{
    let key_owned = key.to_owned();
    let mut i: usize = 0;
    while i < ms.len()
        invariant
            i <= ms.len(),
            key_owned@ == key@,
            forall|k: int| 0 <= k < i ==> (#[trigger] ms@[k].0)@ != key@,
        decreases ms.len() - i,
    {
        if ms[i].0 == key_owned {
            proof {
                lemma_member_step(ms@, key@, i as int);
            }
            return Some(&ms[i].1);
        }
        i = i + 1;
    }
    proof {
        if ms@.len() > 0 {
            lemma_member_step(ms@, key@, ms@.len() - 1);
        }
    }
    None
}

/// Reads the string member under `key`, as `spec_str_field` has it.
fn str_field(j: &Json, key: &str) -> (r: Option<String>)
    ensures
        (match r {
            Some(s) => spec_str_field(*j, key@) == Some(s@),
            None => spec_str_field(*j, key@) is None,
        }),
{
    let ms = match j {
        Json::Object(ms) => ms,
        _ => {
            return None;
        },
    };
    match member(ms, key) {
        Some(Json::Str(s)) => Some(s.clone()),
        _ => None,
    }
}

/// Reads the unsigned integer member under `key`, as `spec_uint_field`
/// has it.
fn uint_field(j: &Json, key: &str) -> (r: Option<u64>)
    ensures
        r == spec_uint_field(*j, key@),
{
    let ms = match j {
        Json::Object(ms) => ms,
        _ => {
            return None;
        },
    };
    match member(ms, key) {
        Some(Json::UInt(n)) => Some(*n),
        _ => None,
    }
}

/// Reads the member under `key`, as `spec_field` has it.
fn field<'a>(j: &'a Json, key: &str) -> (r: Option<&'a Json>)
    ensures
        (match r {
            Some(f) => spec_field(*j, key@) == Some(*f),
            None => spec_field(*j, key@) is None,
        }),
{
    let ms = match j {
        Json::Object(ms) => ms,
        _ => {
            return None;
        },
    };
    member(ms, key)
}

/// Assembles a corner from its four fields: one comes out exactly when
/// all four are present, and it holds them unchanged.
pub fn corner_from_parts(
    title: Option<String>,
    corner_name: Option<String>,
    series_site_id: Option<String>,
    corner_site_id: Option<String>,
) -> (r: Option<Corner>)
    ensures
        r is Some <==> (title is Some && corner_name is Some && series_site_id is Some
            && corner_site_id is Some),
        r matches Some(c) ==> c.title == title.unwrap() && c.corner_name == corner_name.unwrap()
            && c.series_site_id == series_site_id.unwrap()
            && c.corner_site_id == corner_site_id.unwrap(),
{
    match (title, corner_name, series_site_id, corner_site_id) {
        (Some(title), Some(corner_name), Some(series_site_id), Some(corner_site_id)) => Some(
            Corner { title, corner_name, series_site_id, corner_site_id },
        ),
        _ => None,
    }
}

/// Assembles an episode from its five fields: one comes out exactly
/// when all five are present and the id fits the episode id range, and
/// it holds them unchanged.
pub fn episode_from_parts(
    id: Option<u64>,
    program_title: Option<String>,
    onair_date: Option<String>,
    stream_url: Option<String>,
    program_sub_title: Option<String>,
) -> (r: Option<Episode>)
    ensures
        r is Some <==> (id matches Some(n) && n <= u32::MAX && program_title is Some
            && onair_date is Some && stream_url is Some && program_sub_title is Some),
        r matches Some(e) ==> e.id == id.unwrap() && e.program_title == program_title.unwrap()
            && e.onair_date == onair_date.unwrap() && e.stream_url == stream_url.unwrap()
            && e.program_sub_title == program_sub_title.unwrap(),
{
    match (id, program_title, onair_date, stream_url, program_sub_title) {
        (Some(id), Some(program_title), Some(onair_date), Some(stream_url), Some(program_sub_title)) => {
            if id <= u32::MAX as u64 {
                Some(Episode {
                    id: id as u32,
                    program_title,
                    onair_date,
                    stream_url,
                    program_sub_title,
                })
            } else {
                None
            }
        },
        _ => None,
    }
}

/// Assembles a series from its fields: one comes out exactly when id
/// and title are present and the id fits the series id range, and it
/// holds them and the already decoded episodes unchanged.
pub fn series_from_parts(id: Option<u64>, title: Option<String>, episodes: Vec<Episode>) -> (r:
    Option<Series>)
    ensures
        r is Some <==> (id matches Some(n) && n <= u32::MAX && title is Some),
        r matches Some(s) ==> s.id == id.unwrap() && s.title == title.unwrap() && s.episodes@
            == episodes@,
{
    match (id, title) {
        (Some(id), Some(title)) => {
            if id <= u32::MAX as u64 {
                Some(Series { id: id as u32, title, episodes })
            } else {
                None
            }
        },
        _ => None,
    }
}

/// Reads one corner out of a document value; the field assembly itself
/// is `corner_from_parts`.
fn corner_from_value(j: &Json) -> (r: Option<Corner>)
    ensures
        r is Some <==> spec_corner_shape_ok(*j),
        r matches Some(c) ==> spec_corner_matches(c, *j),
{
    let title = str_field(j, "title");
    let corner_name = str_field(j, "corner_name");
    let series_site_id = str_field(j, "series_site_id");
    let corner_site_id = str_field(j, "corner_site_id");
    corner_from_parts(title, corner_name, series_site_id, corner_site_id)
}

/// Reads one episode out of a document value; the field assembly
/// itself is `episode_from_parts`.
fn episode_from_value(j: &Json) -> (r: Option<Episode>)
    ensures
        r is Some <==> spec_episode_shape_ok(*j),
        r matches Some(e) ==> spec_episode_matches(e, *j),
{
    let id = uint_field(j, "id");
    let program_title = str_field(j, "program_title");
    let onair_date = str_field(j, "onair_date");
    let stream_url = str_field(j, "stream_url");
    let program_sub_title = str_field(j, "program_sub_title");
    episode_from_parts(id, program_title, onair_date, stream_url, program_sub_title)
}

/// Reads a whole array of corners; None exactly when the value is no
/// array or some element is no well-shaped corner.
fn corners_from_value(j: &Json) -> (r: Option<Vec<Corner>>)
    ensures
        r is Some <==> spec_corners_shape_ok(*j),
        r matches Some(cs) ==> spec_corners_match(cs@, *j),
{
    let items = match j {
        Json::Array(items) => items,
        _ => {
            return None;
        },
    };
    let mut corners: Vec<Corner> = Vec::new();
    let mut i: usize = 0;
    while i < items.len()
        invariant
            i <= items.len(),
            *j matches Json::Array(its) && its@ == items@,
            corners@.len() == i,
            forall|k: int| 0 <= k < i ==> spec_corner_shape_ok(#[trigger] items@[k]),
            forall|k: int| 0 <= k < i ==> spec_corner_matches(corners@[k], #[trigger] items@[k]),
        decreases items.len() - i,
    {
        match corner_from_value(&items[i]) {
            Some(c) => corners.push(c),
            None => {
                return None;
            },
        }
        i = i + 1;
    }
    Some(corners)
}

fn decode_error(source: &str) -> (r: Error)
    ensures
        r matches Error::Decode { source: s } && s@ == source@,
{
    Error::Decode { source: source.to_owned() }
}

/// Decodes the selection file's text: a JSON array of corner objects.
/// It succeeds exactly when the parser accepts the text and every
/// element carries the four corner fields, and then returns exactly
/// the document's corners, in order. Every failure names `source`, so
/// the caller can report which file was at fault.
pub fn decode_corners(text: &str, source: &str) -> (r: Result<Vec<Corner>, Error>)
    ensures
        r is Ok <==> (json_doc_of(text@) matches Some(d) && spec_corners_shape_ok(d)),
        r matches Ok(cs) ==> spec_corners_match(cs@, json_doc_of(text@).unwrap()),
        r matches Err(e) ==> (e matches Error::Decode { source: s } && s@ == source@),
{
    let doc = match parse_json(text) {
        Some(d) => d,
        None => {
            return Err(decode_error(source));
        },
    };
    match corners_from_value(&doc) {
        Some(corners) => Ok(corners),
        None => Err(decode_error(source)),
    }
}

/// Decodes a new-arrivals catalog body: an object whose `corners`
/// member is an array of corner objects. It succeeds exactly when the
/// parser accepts the text and the document has that shape, and then
/// returns exactly the document's corners, in order. Failures name
/// `source`.
pub fn decode_new_info(text: &str, source: &str) -> (r: Result<NewInfo, Error>)
    ensures
        r is Ok <==> (json_doc_of(text@) matches Some(d) && spec_new_info_shape_ok(d)),
        r matches Ok(info) ==> spec_new_info_matches(info, json_doc_of(text@).unwrap()),
        r matches Err(e) ==> (e matches Error::Decode { source: s } && s@ == source@),
{
    let doc = match parse_json(text) {
        Some(d) => d,
        None => {
            return Err(decode_error(source));
        },
    };
    let corners_field = match field(&doc, "corners") {
        Some(f) => f,
        None => {
            return Err(decode_error(source));
        },
    };
    match corners_from_value(corners_field) {
        Some(corners) => Ok(NewInfo { corners }),
        None => Err(decode_error(source)),
    }
}

/// Decodes a series body: an object with `id`, `title` and an
/// `episodes` array, each episode with its five fields. It succeeds
/// exactly when the parser accepts the text and the document has that
/// shape, and then returns exactly the document's id, title and
/// episodes, in the array's order. Failures name `source`.
pub fn decode_series(text: &str, source: &str) -> (r: Result<Series, Error>)
    ensures
        r is Ok <==> (json_doc_of(text@) matches Some(d) && spec_series_shape_ok(d)),
        r matches Ok(s) ==> spec_series_matches(s, json_doc_of(text@).unwrap()),
        r matches Err(e) ==> (e matches Error::Decode { source: s } && s@ == source@),
{
    let doc = match parse_json(text) {
        Some(d) => d,
        None => {
            return Err(decode_error(source));
        },
    };
    let id = uint_field(&doc, "id");
    let title = str_field(&doc, "title");
    let episodes_field = match field(&doc, "episodes") {
        Some(f) => f,
        None => {
            return Err(decode_error(source));
        },
    };
    let items = match episodes_field {
        Json::Array(items) => items,
        _ => {
            return Err(decode_error(source));
        },
    };
    let mut episodes: Vec<Episode> = Vec::new();
    let mut i: usize = 0;
    while i < items.len()
        invariant
            i <= items.len(),
            json_doc_of(text@) == Some(doc),
            spec_field(doc, "episodes"@) matches Some(ep) && ep matches Json::Array(its) && its@
                == items@,
            id == spec_uint_field(doc, "id"@),
            (match title {
                Some(s) => spec_str_field(doc, "title"@) == Some(s@),
                None => spec_str_field(doc, "title"@) is None,
            }),
            episodes@.len() == i,
            forall|k: int| 0 <= k < i ==> spec_episode_shape_ok(#[trigger] items@[k]),
            forall|k: int| 0 <= k < i ==> spec_episode_matches(episodes@[k], #[trigger] items@[k]),
        decreases items.len() - i,
    {
        match episode_from_value(&items[i]) {
            Some(e) => episodes.push(e),
            None => {
                return Err(decode_error(source));
            },
        }
        i = i + 1;
    }
    match series_from_parts(id, title, episodes) {
        Some(s) => Ok(s),
        None => Err(decode_error(source)),
    }
}

} // verus!

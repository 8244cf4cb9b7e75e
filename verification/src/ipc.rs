//! The player's line-delimited JSON control protocol: the exact command
//! lines the client writes, the junk filter over reported metadata values,
//! and the verified step that one line of the event stream performs on the
//! running stream metadata.

use vstd::prelude::*;
use vstd::string::*;

use crate::metadata::StreamMetadata;
use crate::text::{
    dec_str, i64_to_string, int_dec_str, opt_string_eq, starts_with_spec, str_eq,
    str_starts_with, trim_spec, trim_str, u64_to_string,
};

verus! {

/// The one-shot command that reads the property named `prop`.
pub fn get_property_command(prop: &str) -> (r: String)
    ensures
        r@ == "{\"command\":[\"get_property\",\""@ + prop@ + "\"]}"@,
{
    let mut r = "{\"command\":[\"get_property\",\"".to_owned();
    r.append(prop);
    r.append("\"]}");
    proof {
        assert(r@ =~= "{\"command\":[\"get_property\",\""@ + prop@ + "\"]}"@);
    }
    r
}

/// The command that cycles the pause property.
pub fn cycle_pause_command() -> (r: String)
    ensures
        r@ == "{\"command\":[\"cycle\",\"pause\"]}"@,
{
    "{\"command\":[\"cycle\",\"pause\"]}".to_owned()
}

/// The command that asks the player process to exit cleanly.
pub fn quit_command() -> (r: String)
    ensures
        r@ == "{\"command\":[\"quit\"]}"@,
{
    "{\"command\":[\"quit\"]}".to_owned()
}

/// The command that seeks by `secs` seconds relative to the current
/// position; negative values seek backward.
pub fn seek_command(secs: i64) -> (r: String)
    ensures
        r@ == "{\"command\":[\"seek\",\""@ + int_dec_str(secs as int) + "\",\"relative\"]}"@,
{
    let num = i64_to_string(secs);
    let mut r = "{\"command\":[\"seek\",\"".to_owned();
    r.append(num.as_str());
    r.append("\",\"relative\"]}");
    proof {
        assert(r@ =~= "{\"command\":[\"seek\",\""@ + int_dec_str(secs as int)
            + "\",\"relative\"]}"@);
    }
    r
}

/// The command that sets the volume property to `volume` (0 to 100).
pub fn set_volume_command(volume: u8) -> (r: String)
    ensures
        r@ == "{\"command\":[\"set_property\",\"volume\","@ + dec_str(volume as nat) + "]}"@,
{
    let num = u64_to_string(volume as u64);
    let mut r = "{\"command\":[\"set_property\",\"volume\",".to_owned();
    r.append(num.as_str());
    r.append("]}");
    proof {
        assert(r@ =~= "{\"command\":[\"set_property\",\"volume\","@ + dec_str(volume as nat)
            + "]}"@);
    }
    r
}

/// The registration command for the property named `prop` under the numeric
/// registration id `id`.
pub open spec fn observe_cmd_spec(id: nat, prop: Seq<char>) -> Seq<char> {
    "{\"command\":[\"observe_property\","@ + dec_str(id) + ",\""@ + prop + "\"]}"@
}

/// The command that registers interest in the property named `prop` under
/// the numeric registration id `id`.
pub fn observe_property_command(id: u64, prop: &str) -> (r: String)
    ensures
        r@ == observe_cmd_spec(id as nat, prop@),
{
    let num = u64_to_string(id);
    let mut r = "{\"command\":[\"observe_property\",".to_owned();
    r.append(num.as_str());
    r.append(",\"");
    r.append(prop);
    r.append("\"]}");
    proof {
        assert(r@ =~= "{\"command\":[\"observe_property\","@ + dec_str(id as nat) + ",\""@
            + prop@ + "\"]}"@);
    }
    r
}

/// The four property registrations the metadata observer sends when its
/// connection opens: ids 1 to 4 mapped to the title, station-name, artist
/// and album properties, in the order they are written. The same table, read
/// backwards, is `observed_field`.
pub fn metadata_observe_commands() -> (r: Vec<String>)
    ensures
        r@.len() == 4,
        r@[0]@ == observe_cmd_spec(1, "media-title"@),
        r@[1]@ == observe_cmd_spec(2, "metadata/by-key/icy-name"@),
        r@[2]@ == observe_cmd_spec(3, "metadata/by-key/artist"@),
        r@[3]@ == observe_cmd_spec(4, "metadata/by-key/album"@),
{
    let mut r: Vec<String> = Vec::new();
    r.push(observe_property_command(1, "media-title"));
    r.push(observe_property_command(2, "metadata/by-key/icy-name"));
    r.push(observe_property_command(3, "metadata/by-key/artist"));
    r.push(observe_property_command(4, "metadata/by-key/album"));
    r
}

/// A command line as written to the socket: the command followed by the
/// newline that delimits it.
pub fn framed_command(cmd: &str) -> (r: String)
    ensures
        r@ == cmd@ + "\n"@,
{
    let mut r = cmd.to_owned();
    r.append("\n");
    r
}

/// The volume that a step of `delta` from `current` lands on, clamped to
/// the property's 0 to 100 range.
pub fn volume_target(current: i64, delta: i64) -> (v: u8)
    requires
        0 <= current <= 100,
    ensures
        v as int == (if current + delta < 0 {
            0int
        } else if current + delta > 100 {
            100int
        } else {
            current + delta
        }),
{
    if delta >= 100 {
        100
    } else if delta <= -101 {
        0
    } else {
        let sum = current + delta;
        if sum < 0 {
            0
        } else if sum > 100 {
            100
        } else {
            sum as u8
        }
    }
}

/// A reported metadata value that must not be surfaced: empty once trimmed,
/// the literal placeholder, a raw URL, or an echo of the URL being played.
pub open spec fn junk_spec(val: Seq<char>, url: Seq<char>) -> bool {
    ||| trim_spec(val).len() == 0
    ||| trim_spec(val) == "stream"@
    ||| starts_with_spec(trim_spec(val), "http://"@)
    ||| starts_with_spec(trim_spec(val), "https://"@)
    ||| trim_spec(val) == url
}

/// Whether a reported metadata value is junk rather than real track
/// information, given the URL currently being played.
pub fn is_junk_metadata(val: &str, url: &str) -> (r: bool)
    ensures
        r == junk_spec(val@, url@),
{
    let trimmed = trim_str(val);
    trimmed.is_empty() || str_eq(trimmed, "stream") || str_starts_with(trimmed, "http://")
        || str_starts_with(trimmed, "https://") || str_eq(trimmed, url)
}

/// The value stored for a reported datum: the trimmed text when it passes
/// the junk filter, nothing otherwise.
pub open spec fn clean_value_spec(data: Option<Seq<char>>, url: Seq<char>) -> Option<Seq<char>> {
    match data {
        Some(v) => if junk_spec(v, url) {
            None
        } else {
            Some(trim_spec(v))
        },
        None => None,
    }
}

/// The metadata field registered under `id`: 1 is the title, 2 the station
/// name, 3 the artist, 4 the album.
pub open spec fn observed_field(m: StreamMetadata, id: u64) -> Option<Seq<char>> {
    if id == 1 {
        m.title.deep_view()
    } else if id == 2 {
        m.station_name.deep_view()
    } else if id == 3 {
        m.artist.deep_view()
    } else if id == 4 {
        m.album.deep_view()
    } else {
        None
    }
}

/// How one property-change datum moves the metadata from `m0` to `m1`, and
/// whether a metadata-changed event is owed: the registered field takes the
/// filtered value and every other field stays; the event is owed exactly
/// when the field changed and the result is not entirely empty. An id
/// outside the four registrations changes nothing.
pub open spec fn observe_transition(
    m0: StreamMetadata,
    m1: StreamMetadata,
    id: u64,
    data: Option<Seq<char>>,
    url: Seq<char>,
    emitted: bool,
) -> bool {
    if 1 <= id <= 4 {
        let clean = clean_value_spec(data, url);
        &&& observed_field(m1, id) == clean
        &&& (id != 1 ==> m1.title == m0.title)
        &&& (id != 2 ==> m1.station_name == m0.station_name)
        &&& (id != 3 ==> m1.artist == m0.artist)
        &&& (id != 4 ==> m1.album == m0.album)
        &&& emitted == (clean != observed_field(m0, id) && !m1.spec_is_empty())
    } else {
        m1 == m0 && !emitted
    }
}

/// Apply one property-change datum to the running metadata: the field
/// registered under `id` takes the filtered value, and the result says
/// whether a metadata-changed event is owed.
pub fn apply_property_change(
    meta: &mut StreamMetadata,
    id: u64,
    data: Option<String>,
    url: &str,
) -> (emit: bool)
    ensures
        observe_transition(*old(meta), *final(meta), id, data.deep_view(), url@, emit),
{
    let clean: Option<String> = match &data {
        Some(v) => {
            if is_junk_metadata(v.as_str(), url) {
                None
            } else {
                Some(trim_str(v.as_str()).to_owned())
            }
        },
        None => None,
    };
    let changed: bool;
    if id == 1 {
        changed = !opt_string_eq(&meta.title, &clean);
        meta.title = clean;
    } else if id == 2 {
        changed = !opt_string_eq(&meta.station_name, &clean);
        meta.station_name = clean;
    } else if id == 3 {
        changed = !opt_string_eq(&meta.artist, &clean);
        meta.artist = clean;
    } else if id == 4 {
        changed = !opt_string_eq(&meta.album, &clean);
        meta.album = clean;
    } else {
        return false;
    }
    changed && !meta.is_empty()
}

/// The event name, registration id and datum text of one line of the
/// player's event stream, where the line parses as a JSON object; a line
/// that does not parse yields no fields. The result depends on the line's
/// characters alone.
pub uninterp spec fn event_fields_of(line: Seq<char>) -> (
    Option<Seq<char>>,
    Option<u64>,
    Option<Seq<char>>,
);

/// Relies on serde_json::from_str, serde_json::Value::get,
/// serde_json::Value::as_str and serde_json::Value::as_u64: pulls the
/// "event", "id" and "data" fields out of one line of the event stream.
#[verifier::external_body]
fn parse_event_fields(line: &str) -> (r: (Option<String>, Option<u64>, Option<String>))
    ensures
        (match r.0 {
            Some(s) => event_fields_of(line@).0 == Some(s@),
            None => event_fields_of(line@).0 is None,
        }),
        r.1 == event_fields_of(line@).1,
        (match r.2 {
            Some(s) => event_fields_of(line@).2 == Some(s@),
            None => event_fields_of(line@).2 is None,
        }),
{
    match serde_json::from_str::<serde_json::Value>(line) {
        Ok(v) => (
            match v.get("event") { Some(e) => e.as_str().map(str::to_owned), None => None },
            match v.get("id") { Some(i) => i.as_u64(), None => None },
            match v.get("data") { Some(d) => d.as_str().map(str::to_owned), None => None },
        ),
        Err(_) => (None, None, None),
    }
}

/// One line of the observation stream applied to the running metadata: a
/// property-change event updates the registered field through the junk
/// filter, and the updated metadata is handed back exactly when a
/// metadata-changed event is owed; any other line changes nothing.
pub fn observer_step(meta: &mut StreamMetadata, url: &str, line: &str) -> (emit: Option<
    StreamMetadata,
>)
    ensures
        (match (event_fields_of(line@).0, event_fields_of(line@).1) {
            (Some(ev), Some(id)) => if ev == "property-change"@ {
                &&& observe_transition(
                    *old(meta),
                    *final(meta),
                    id,
                    event_fields_of(line@).2,
                    url@,
                    emit is Some,
                )
                &&& (emit matches Some(m) ==> m == *final(meta))
            } else {
                *final(meta) == *old(meta) && emit is None
            },
            _ => *final(meta) == *old(meta) && emit is None,
        }),
{
    let (ev, id, data) = parse_event_fields(line);
    match (ev, id) {
        (Some(e), Some(i)) => {
            if str_eq(e.as_str(), "property-change") {
                let changed = apply_property_change(meta, i, data, url);
                if changed {
                    Some(meta.clone())
                } else {
                    None
                }
            } else {
                None
            }
        },
        _ => None,
    }
}

} // verus!

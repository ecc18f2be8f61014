//! Heartbeats: the positions posted along the trip, and what the map shows.
//!
//! Coordinates are carried, never computed on: each is held as the bit
//! pattern of its IEEE-754 double (`f64::to_bits`).

use vstd::prelude::*;

use crate::time::Timestamp;

verus! {

/// A posted position, as stored in the `heartbeats` table.
#[derive(Debug)]
pub struct Heartbeat {
    /// Bit pattern of the latitude.
    pub latitude_bits: u64,
    /// Bit pattern of the longitude.
    pub longitude_bits: u64,
    /// When the heartbeat was stored.
    pub timestamp: Timestamp,
    pub description: Option<String>,
    pub picture_id: Option<String>,
}

/// A copy of an optional text.
fn copy_text(text: &Option<String>) -> (c: Option<String>)
    ensures
        c == *text,
{
    match text {
        Some(s) => Some(s.clone()),
        None => None,
    }
}

impl Clone for Heartbeat {
    fn clone(&self) -> (c: Self)
        ensures
            c == *self,
    {
        Heartbeat {
            latitude_bits: self.latitude_bits,
            longitude_bits: self.longitude_bits,
            timestamp: self.timestamp,
            description: copy_text(&self.description),
            picture_id: copy_text(&self.picture_id),
        }
    }
}

/// The latest heartbeat together with the history of earlier positions.
#[derive(Debug)]
pub struct HeartbeatResponse {
    pub latitude_bits: u64,
    pub longitude_bits: u64,
    pub timestamp: Timestamp,
    pub description: Option<String>,
    pub picture_id: Option<String>,
    pub history: Vec<Heartbeat>,
}

/// The history kept after answering with `latest`: `latest` is appended when
/// the history is not empty and its first entry has another timestamp;
/// otherwise the history stays as it was.
pub open spec fn history_after(history: Seq<Heartbeat>, latest: Heartbeat) -> Seq<Heartbeat> {
    if history.len() > 0 && history[0].timestamp != latest.timestamp {
        history.push(latest)
    } else {
        history
    }
}

/// Answers a request for the latest heartbeat: the answer carries `latest`
/// and the history as it was before the call; the kept history then records
/// `latest` as `history_after` says.
pub fn heartbeat_get(history: &mut Vec<Heartbeat>, latest: Heartbeat) -> (r: HeartbeatResponse)
    ensures
        final(history)@ == history_after(old(history)@, latest),
        old(history)@.len() > 0 && old(history)@[0].timestamp != latest.timestamp
            ==> final(history)@ == old(history)@.push(latest),
        !(old(history)@.len() > 0 && old(history)@[0].timestamp != latest.timestamp)
            ==> final(history)@ == old(history)@,
        r.history@ == old(history)@,
        r.latitude_bits == latest.latitude_bits,
        r.longitude_bits == latest.longitude_bits,
        r.timestamp == latest.timestamp,
        r.description == latest.description,
        r.picture_id == latest.picture_id,
{
    let previous = history.clone();
    assert(previous@ =~= history@);
    if history.len() > 0 && history[0].timestamp != latest.timestamp {
        history.push(latest.clone());
    }
    HeartbeatResponse {
        latitude_bits: latest.latitude_bits,
        longitude_bits: latest.longitude_bits,
        timestamp: latest.timestamp,
        description: latest.description,
        picture_id: latest.picture_id,
        history: previous,
    }
}

/// What the map page shows: the latest position, its description and picture
/// id (empty when absent), and the history.
#[derive(Debug)]
pub struct IndexPage {
    pub latitude_bits: u64,
    pub longitude_bits: u64,
    pub timestamp: Timestamp,
    pub description: String,
    pub picture_id: String,
    pub history: Vec<Heartbeat>,
}

/// The text of an optional text, empty when absent.
pub open spec fn text_or_empty(text: Option<String>) -> Seq<char> {
    match text {
        Some(s) => s@,
        None => Seq::empty(),
    }
}

/// An optional text, or the empty text.
fn text_or_default(text: Option<String>) -> (s: String)
    ensures
        s@ == text_or_empty(text),
        text matches Some(t) ==> s@ == t@,
        text is None ==> s@.len() == 0,
{
    match text {
        Some(s) => s,
        None => String::new(),
    }
}

/// Builds the map page from the latest heartbeat and the kept history.
pub fn index(latest: Heartbeat, history: Vec<Heartbeat>) -> (p: IndexPage)
    ensures
        p.latitude_bits == latest.latitude_bits,
        p.longitude_bits == latest.longitude_bits,
        p.timestamp == latest.timestamp,
        p.description@ == text_or_empty(latest.description),
        p.picture_id@ == text_or_empty(latest.picture_id),
        latest.description matches Some(d) ==> p.description@ == d@,
        latest.description is None ==> p.description@.len() == 0,
        latest.picture_id matches Some(i) ==> p.picture_id@ == i@,
        latest.picture_id is None ==> p.picture_id@.len() == 0,
        p.history@ == history@,
{
    IndexPage {
        latitude_bits: latest.latitude_bits,
        longitude_bits: latest.longitude_bits,
        timestamp: latest.timestamp,
        description: text_or_default(latest.description),
        picture_id: text_or_default(latest.picture_id),
        history,
    }
}

/// Answering never loses a position and adds at most one: the kept history
/// starts with the previous history and is at most one entry longer, and an
/// added entry is the latest heartbeat.
pub proof fn history_grows_by_at_most_latest(history: Seq<Heartbeat>, latest: Heartbeat)
    ensures
        history_after(history, latest).len() <= history.len() + 1,
        history_after(history, latest).subrange(0, history.len() as int) == history,
        history_after(history, latest).len() == history.len() + 1
            ==> history_after(history, latest).last() == latest,
        history.len() == 0 ==> history_after(history, latest) == history,
{
    assert(history_after(history, latest).subrange(0, history.len() as int) =~= history);
}

/// A changed latest heartbeat is always recorded, however long the history
/// is: when the history is not empty and its first entry's timestamp differs
/// from the latest one's, the kept history is the old one with the latest
/// heartbeat added at its end, one entry longer; otherwise it is unchanged.
pub proof fn changed_latest_is_recorded(history: Seq<Heartbeat>, latest: Heartbeat)
    ensures
        history.len() > 0 && history[0].timestamp != latest.timestamp ==> {
            &&& history_after(history, latest).len() == history.len() + 1
            &&& history_after(history, latest).last() == latest
            &&& forall|i: int| 0 <= i < history.len() ==> history_after(history, latest)[i] == history[i]
        },
        !(history.len() > 0 && history[0].timestamp != latest.timestamp) ==> history_after(history, latest)
            == history,
{
}

/// The page shows a present text as it is, whatever its length, and shows
/// nothing only for an absent one.
pub proof fn present_text_is_shown_whole(text: Option<String>)
    ensures
        text matches Some(s) ==> text_or_empty(text) == s@,
        text is None ==> text_or_empty(text).len() == 0,
{
}

} // verus!

//! Optionally-known metadata of the stream being played, as reported by the
//! player process, together with its display strings.

use vstd::prelude::*;
use vstd::string::*;

use crate::text::clone_opt_string;

verus! {

/// Metadata fields of the currently playing stream. Each field is absent
/// until the player reports a usable value for it.
#[derive(Debug)]
pub struct StreamMetadata {
    pub station_name: Option<String>,
    pub title: Option<String>,
    pub artist: Option<String>,
    pub album: Option<String>,
}

impl StreamMetadata {
    /// True iff no field is known.
    pub open spec fn spec_is_empty(&self) -> bool {
        &&& self.station_name is None
        &&& self.title is None
        &&& self.artist is None
        &&& self.album is None
    }

    /// Fresh metadata with every field unknown.
    pub fn new() -> (r: Self)
        ensures
            r.spec_is_empty(),
    {
        StreamMetadata { station_name: None, title: None, artist: None, album: None }
    }

    /// True iff no field is known.
    pub fn is_empty(&self) -> (r: bool)
        ensures
            r == self.spec_is_empty(),
    {
        self.station_name.is_none() && self.title.is_none() && self.artist.is_none()
            && self.album.is_none()
    }
}

impl Default for StreamMetadata {
    /// Same as `new`: every field unknown.
    fn default() -> (r: Self)
        ensures
            r.spec_is_empty(),
    {
        StreamMetadata { station_name: None, title: None, artist: None, album: None }
    }
}

impl StreamMetadata {
    /// The title line: artist and title joined when both are known, else
    /// whichever of the two is known, else nothing.
    pub open spec fn display_title_spec(&self) -> Option<Seq<char>> {
        match (self.artist, self.title) {
            (Some(a), Some(t)) => Some(a@ + " - "@ + t@),
            (Some(a), None) => Some(a@),
            (None, Some(t)) => Some(t@),
            (None, None) => None,
        }
    }

    /// "artist - title" when both are known, else whichever is known.
    pub fn display_title(&self) -> (r: Option<String>)
        ensures
            (match r {
                Some(s) => self.display_title_spec() == Some(s@),
                None => self.display_title_spec() is None,
            }),
    {
        match (&self.artist, &self.title) {
            (Some(a), Some(t)) => {
                let mut s = a.clone();
                s.append(" - ");
                s.append(t.as_str());
                Some(s)
            },
            (Some(a), None) => Some(a.clone()),
            (None, Some(t)) => Some(t.clone()),
            (None, None) => None,
        }
    }

    /// The subtitle line: the station name when known, else the album.
    pub open spec fn display_subtitle_spec(&self) -> Option<Seq<char>> {
        match (self.station_name, self.album) {
            (Some(s), _) => Some(s@),
            (None, Some(al)) => Some(al@),
            (None, None) => None,
        }
    }

    /// The station name when known, else the album.
    pub fn display_subtitle(&self) -> (r: Option<String>)
        ensures
            (match r {
                Some(s) => self.display_subtitle_spec() == Some(s@),
                None => self.display_subtitle_spec() is None,
            }),
    {
        match (&self.station_name, &self.album) {
            (Some(s), _) => Some(s.clone()),
            (None, Some(al)) => Some(al.clone()),
            (None, None) => None,
        }
    }
}

impl Clone for StreamMetadata {
    /// An equal copy, field by field.
    fn clone(&self) -> (r: Self)
        ensures
            r == *self,
    {
        StreamMetadata {
            station_name: clone_opt_string(&self.station_name),
            title: clone_opt_string(&self.title),
            artist: clone_opt_string(&self.artist),
            album: clone_opt_string(&self.album),
        }
    }
}

} // verus!

//! Data model of the discovery surface: the universal item type that the
//! queue and the lists work with, and the station/episode records behind it.

use vstd::prelude::*;
use vstd::string::*;

use crate::text::{
    dec_str, join_spec, join_strings, split_char, split_spec, str_eq, strip_leading,
    strip_leading_spec, u64_to_string,
};

verus! {

/// Universal content type: everything the client can list, queue or play.
/// The queue treats it opaquely except for the live-channel variant, whose
/// channel number is a stable identity key.
#[derive(Debug, Clone)]
pub enum DiscoveryItem {
    NtsLiveChannel {
        channel: u8,
        show_name: String,
        broadcast_title: String,
        genres: Vec<String>,
        start: String,
        end: String,
    },
    NtsEpisode {
        name: String,
        show_alias: String,
        episode_alias: String,
        genres: Vec<String>,
        location: Option<String>,
        audio_url: Option<String>,
        description: Option<String>,
    },
    NtsMixtape {
        title: String,
        subtitle: String,
        stream_url: String,
        mixtape_alias: String,
    },
    NtsShow {
        name: String,
        show_alias: String,
        genres: Vec<String>,
        location: Option<String>,
        description: Option<String>,
    },
    DirectUrl {
        url: String,
        title: Option<String>,
    },
    NtsGenre {
        name: String,
        genre_id: String,
    },
}

impl DiscoveryItem {
    /// The plain display title: the show, episode, mixtape or genre name; a
    /// direct URL falls back to the URL itself when it has no title.
    pub open spec fn title_spec(&self) -> Seq<char> {
        match self {
            DiscoveryItem::NtsLiveChannel { show_name, .. } => show_name@,
            DiscoveryItem::NtsEpisode { name, .. } => name@,
            DiscoveryItem::NtsMixtape { title, .. } => title@,
            DiscoveryItem::NtsShow { name, .. } => name@,
            DiscoveryItem::DirectUrl { url, title } => match title {
                Some(t) => t@,
                None => url@,
            },
            DiscoveryItem::NtsGenre { name, .. } => name@,
        }
    }

    /// Display title for a list row.
    pub fn title(&self) -> (r: &str)
        ensures
            r@ == self.title_spec(),
    {
        match self {
            DiscoveryItem::NtsLiveChannel { show_name, .. } => show_name.as_str(),
            DiscoveryItem::NtsEpisode { name, .. } => name.as_str(),
            DiscoveryItem::NtsMixtape { title, .. } => title.as_str(),
            DiscoveryItem::NtsShow { name, .. } => name.as_str(),
            DiscoveryItem::DirectUrl { url, title } => match title {
                Some(t) => t.as_str(),
                None => url.as_str(),
            },
            DiscoveryItem::NtsGenre { name, .. } => name.as_str(),
        }
    }

    /// The display title with the source prefixed for station content.
    pub open spec fn display_title_spec(&self) -> Seq<char> {
        match self {
            DiscoveryItem::NtsLiveChannel { channel, show_name, .. } => "NTS "@ + dec_str(
                *channel as nat,
            ) + " - "@ + show_name@,
            DiscoveryItem::NtsEpisode { name, .. } => "NTS Radio: "@ + name@,
            DiscoveryItem::NtsMixtape { title, .. } => "NTS Radio: "@ + title@,
            DiscoveryItem::NtsShow { name, .. } => "NTS Radio: "@ + name@,
            DiscoveryItem::DirectUrl { url, title } => match title {
                Some(t) => t@,
                None => url@,
            },
            DiscoveryItem::NtsGenre { name, .. } => name@,
        }
    }

    /// Display title with a source prefix for station content.
    pub fn display_title(&self) -> (r: String)
        ensures
            r@ == self.display_title_spec(),
    {
        match self {
            DiscoveryItem::NtsLiveChannel { channel, show_name, .. } => {
                let num = u64_to_string(*channel as u64);
                let mut r = "NTS ".to_owned();
                r.append(num.as_str());
                r.append(" - ");
                r.append(show_name.as_str());
                proof {
                    assert(r@ =~= "NTS "@ + dec_str(*channel as nat) + " - "@ + show_name@);
                }
                r
            },
            DiscoveryItem::NtsEpisode { name, .. } => {
                let mut r = "NTS Radio: ".to_owned();
                r.append(name.as_str());
                r
            },
            DiscoveryItem::NtsMixtape { title, .. } => {
                let mut r = "NTS Radio: ".to_owned();
                r.append(title.as_str());
                r
            },
            DiscoveryItem::NtsShow { name, .. } => {
                let mut r = "NTS Radio: ".to_owned();
                r.append(name.as_str());
                r
            },
            DiscoveryItem::DirectUrl { url, title } => match title {
                Some(t) => t.clone(),
                None => url.clone(),
            },
            DiscoveryItem::NtsGenre { name, .. } => name.clone(),
        }
    }

    /// The secondary info line: the genre list, with the location appended
    /// for episodes and shows that carry one.
    pub open spec fn subtitle_spec(&self) -> Seq<char> {
        match self {
            DiscoveryItem::NtsLiveChannel { genres, .. } => join_spec(genres.deep_view(), ", "@),
            DiscoveryItem::NtsEpisode { genres, location, .. } => match location {
                Some(l) => join_spec(genres.deep_view(), ", "@) + " \u{b7} "@ + l@,
                None => join_spec(genres.deep_view(), ", "@),
            },
            DiscoveryItem::NtsMixtape { subtitle, .. } => subtitle@,
            DiscoveryItem::NtsShow { genres, location, .. } => match location {
                Some(l) => join_spec(genres.deep_view(), ", "@) + " \u{b7} "@ + l@,
                None => join_spec(genres.deep_view(), ", "@),
            },
            DiscoveryItem::DirectUrl { .. } => "Direct URL"@,
            DiscoveryItem::NtsGenre { .. } => "Genre"@,
        }
    }

    /// Secondary info line (genres, location, subtitle).
    pub fn subtitle(&self) -> (r: String)
        ensures
            r@ == self.subtitle_spec(),
    {
        match self {
            DiscoveryItem::NtsLiveChannel { genres, .. } => join_strings(genres, ", "),
            DiscoveryItem::NtsEpisode { genres, location, .. } => {
                let mut r = join_strings(genres, ", ");
                match location {
                    Some(l) => {
                        r.append(" \u{b7} ");
                        r.append(l.as_str());
                    },
                    None => {},
                }
                r
            },
            DiscoveryItem::NtsMixtape { subtitle, .. } => subtitle.clone(),
            DiscoveryItem::NtsShow { genres, location, .. } => {
                let mut r = join_strings(genres, ", ");
                match location {
                    Some(l) => {
                        r.append(" \u{b7} ");
                        r.append(l.as_str());
                    },
                    None => {},
                }
                r
            },
            DiscoveryItem::DirectUrl { .. } => "Direct URL".to_owned(),
            DiscoveryItem::NtsGenre { .. } => "Genre".to_owned(),
        }
    }

    /// The URL handed to the player: live channels map to the two fixed relay
    /// streams, episodes to their first audio source, mixtapes to their
    /// stream endpoint; shows and genres are not playable.
    pub open spec fn playback_url_spec(&self) -> Option<Seq<char>> {
        match self {
            DiscoveryItem::NtsLiveChannel { channel, .. } => if *channel == 1 {
                Some("https://stream-relay-geo.ntslive.net/stream"@)
            } else if *channel == 2 {
                Some("https://stream-relay-geo.ntslive.net/stream2"@)
            } else {
                None
            },
            DiscoveryItem::NtsEpisode { audio_url, .. } => match audio_url {
                Some(u) => Some(u@),
                None => None,
            },
            DiscoveryItem::NtsMixtape { stream_url, .. } => Some(stream_url@),
            DiscoveryItem::NtsShow { .. } => None,
            DiscoveryItem::DirectUrl { url, .. } => Some(url@),
            DiscoveryItem::NtsGenre { .. } => None,
        }
    }

    /// The URL to hand to the player, or nothing when the item cannot be
    /// played directly.
    pub fn playback_url(&self) -> (r: Option<String>)
        ensures
            (match r {
                Some(u) => self.playback_url_spec() == Some(u@),
                None => self.playback_url_spec() is None,
            }),
    {
        match self {
            DiscoveryItem::NtsLiveChannel { channel, .. } => {
                if *channel == 1 {
                    Some("https://stream-relay-geo.ntslive.net/stream".to_owned())
                } else if *channel == 2 {
                    Some("https://stream-relay-geo.ntslive.net/stream2".to_owned())
                } else {
                    None
                }
            },
            DiscoveryItem::NtsEpisode { audio_url, .. } => match audio_url {
                Some(u) => Some(u.clone()),
                None => None,
            },
            DiscoveryItem::NtsMixtape { stream_url, .. } => Some(stream_url.clone()),
            DiscoveryItem::NtsShow { .. } => None,
            DiscoveryItem::DirectUrl { url, .. } => Some(url.clone()),
            DiscoveryItem::NtsGenre { .. } => None,
        }
    }

    /// The stable key a favorites store files this item under.
    pub open spec fn favorite_key_spec(&self) -> Seq<char> {
        match self {
            DiscoveryItem::NtsLiveChannel { channel, .. } => "nts:live:"@ + dec_str(
                *channel as nat,
            ),
            DiscoveryItem::NtsEpisode { show_alias, episode_alias, .. } => "nts:episode:"@
                + show_alias@ + ":"@ + episode_alias@,
            DiscoveryItem::NtsMixtape { mixtape_alias, .. } => "nts:mixtape:"@ + mixtape_alias@,
            DiscoveryItem::NtsShow { show_alias, .. } => "nts:show:"@ + show_alias@,
            DiscoveryItem::DirectUrl { url, .. } => "direct:"@ + url@,
            DiscoveryItem::NtsGenre { genre_id, .. } => "genre:"@ + genre_id@,
        }
    }

    /// Unique key for the favorites lookup.
    pub fn favorite_key(&self) -> (r: String)
        ensures
            r@ == self.favorite_key_spec(),
    {
        match self {
            DiscoveryItem::NtsLiveChannel { channel, .. } => {
                let num = u64_to_string(*channel as u64);
                let mut r = "nts:live:".to_owned();
                r.append(num.as_str());
                r
            },
            DiscoveryItem::NtsEpisode { show_alias, episode_alias, .. } => {
                let mut r = "nts:episode:".to_owned();
                r.append(show_alias.as_str());
                r.append(":");
                r.append(episode_alias.as_str());
                proof {
                    assert(r@ =~= "nts:episode:"@ + show_alias@ + ":"@ + episode_alias@);
                }
                r
            },
            DiscoveryItem::NtsMixtape { mixtape_alias, .. } => {
                let mut r = "nts:mixtape:".to_owned();
                r.append(mixtape_alias.as_str());
                r
            },
            DiscoveryItem::NtsShow { show_alias, .. } => {
                let mut r = "nts:show:".to_owned();
                r.append(show_alias.as_str());
                r
            },
            DiscoveryItem::DirectUrl { url, .. } => {
                let mut r = "direct:".to_owned();
                r.append(url.as_str());
                r
            },
            DiscoveryItem::NtsGenre { genre_id, .. } => {
                let mut r = "genre:".to_owned();
                r.append(genre_id.as_str());
                r
            },
        }
    }
}

/// A hypermedia link of the station's API.
#[derive(Debug, Clone)]
pub struct ApiLink {
    pub rel: String,
    pub href: String,
    pub link_type: Option<String>,
}

/// A genre tag as the station's API reports it.
#[derive(Debug, Clone)]
pub struct Genre {
    pub id: String,
    pub value: String,
}

/// Artwork in the sizes the station's API offers.
#[derive(Debug, Clone)]
pub struct NtsMedia {
    pub background_large: Option<String>,
    pub background_medium_large: Option<String>,
    pub background_medium: Option<String>,
    pub background_small: Option<String>,
    pub background_thumb: Option<String>,
    pub picture_large: Option<String>,
    pub picture_medium_large: Option<String>,
    pub picture_medium: Option<String>,
    pub picture_small: Option<String>,
    pub picture_thumb: Option<String>,
}

/// One playable audio source of an episode.
#[derive(Debug, Clone)]
pub struct AudioSource {
    pub url: String,
    pub source: String,
}

/// Size and position of one page of results.
#[derive(Debug, Clone)]
pub struct ResultSet {
    pub count: u64,
    pub offset: u64,
    pub limit: u64,
}

/// Pagination envelope of a paged response.
#[derive(Debug, Clone)]
pub struct PaginationMetadata {
    pub resultset: ResultSet,
}

/// The genre catalogue response.
#[derive(Debug, Clone)]
pub struct NtsGenresResponse {
    pub results: Vec<NtsGenreCategory>,
}

/// A genre category with its subgenres.
#[derive(Debug, Clone)]
pub struct NtsGenreCategory {
    pub id: String,
    pub name: String,
    pub subgenres: Vec<NtsSubgenre>,
}

/// A subgenre of a genre category.
#[derive(Debug, Clone)]
pub struct NtsSubgenre {
    pub id: String,
    pub name: String,
}

/// The episode-search response.
#[derive(Debug, Clone)]
pub struct NtsSearchResponse {
    pub metadata: Option<PaginationMetadata>,
    pub results: Vec<NtsSearchEpisode>,
}

/// A genre tag as the search endpoint reports it.
#[derive(Debug, Clone)]
pub struct NtsSearchGenre {
    pub id: String,
    pub name: String,
}

/// The article a search hit belongs to, identified by its path.
#[derive(Debug, Clone)]
pub struct NtsSearchArticle {
    pub path: String,
}

/// One episode as the search endpoint reports it.
#[derive(Debug, Clone)]
pub struct NtsSearchEpisode {
    pub title: String,
    pub article: Option<NtsSearchArticle>,
    pub audio_sources: Option<Vec<AudioSource>>,
    pub genres: Option<Vec<NtsSearchGenre>>,
    pub location: Option<String>,
    pub local_date: Option<String>,
}

/// A contributor credit of a mixtape.
#[derive(Debug, Clone)]
pub struct MixtapeCredit {
    pub name: String,
    pub path: String,
}

/// Artwork of a mixtape.
#[derive(Debug, Clone)]
pub struct MixtapeMedia {
    pub animation_large_landscape: Option<String>,
    pub animation_large_portrait: Option<String>,
    pub animation_thumb: Option<String>,
    pub icon_black: Option<String>,
    pub icon_white: Option<String>,
    pub picture_large: Option<String>,
    pub picture_medium: Option<String>,
    pub picture_medium_large: Option<String>,
    pub picture_small: Option<String>,
    pub picture_thumb: Option<String>,
}

/// One mixtape as the mixtape endpoint reports it.
#[derive(Debug, Clone)]
pub struct NtsMixtape {
    pub mixtape_alias: String,
    pub title: String,
    pub subtitle: String,
    pub description: Option<String>,
    pub description_html: Option<String>,
    pub audio_stream_endpoint: String,
    pub credits: Vec<MixtapeCredit>,
    pub media: Option<MixtapeMedia>,
    pub now_playing_topic: Option<String>,
    pub links: Option<Vec<ApiLink>>,
}

/// The show and episode aliases encoded in an article path of the form
/// "/shows/{show}/episodes/{episode}"; anything else yields two empty
/// aliases.
pub open spec fn article_aliases(path: Seq<char>) -> (Seq<char>, Seq<char>) {
    let parts = split_spec(strip_leading_spec(path, '/'), '/');
    if parts.len() == 4 && parts[0] == "shows"@ && parts[2] == "episodes"@ {
        (parts[1], parts[3])
    } else {
        (Seq::<char>::empty(), Seq::<char>::empty())
    }
}

/// The show and episode aliases read out of an article path.
fn parse_article_aliases(path: &str) -> (r: (String, String))
    ensures
        (r.0@, r.1@) == article_aliases(path@),
{
    let stripped = strip_leading(path, '/');
    let parts = split_char(stripped, '/');
    if parts.len() == 4 && str_eq(parts[0].as_str(), "shows") && str_eq(
        parts[2].as_str(),
        "episodes",
    ) {
        proof {
            assert(parts.deep_view()[1] == parts@[1]@);
            assert(parts.deep_view()[3] == parts@[3]@);
            assert(parts.deep_view()[0] == parts@[0]@);
            assert(parts.deep_view()[2] == parts@[2]@);
        }
        (parts[1].clone(), parts[3].clone())
    } else {
        proof {
            if parts.deep_view().len() == 4 {
                assert(parts.deep_view()[0] == parts@[0]@);
                assert(parts.deep_view()[2] == parts@[2]@);
            }
        }
        (String::new(), String::new())
    }
}

/// The names of the search genres, in order.
pub open spec fn genre_name_views(gs: Seq<NtsSearchGenre>) -> Seq<Seq<char>> {
    gs.map(|i: int, g: NtsSearchGenre| g.name@)
}

/// The names of the search genres, in order.
fn search_genre_names(gs: &Vec<NtsSearchGenre>) -> (r: Vec<String>)
    ensures
        r.deep_view() == genre_name_views(gs@),
{
    let n = gs.len();
    let mut r: Vec<String> = Vec::new();
    let mut k: usize = 0;
    while k < n
        invariant
            n == gs@.len(),
            k <= n,
            r@.len() == k,
            forall|i: int| 0 <= i < k ==> r@[i]@ == gs@[i].name@,
        decreases n - k,
    {
        r.push(gs[k].name.clone());
        k += 1;
    }
    proof {
        assert(r.deep_view() =~= genre_name_views(gs@));
    }
    r
}

/// A search hit turned into the universal item type: the aliases come out
/// of the article path, the genres keep their names, and the first audio
/// source becomes the playback URL.
pub fn search_episode_to_discovery(ep: NtsSearchEpisode) -> (r: DiscoveryItem)
    ensures
        (match r {
            DiscoveryItem::NtsEpisode {
                name,
                show_alias,
                episode_alias,
                genres,
                location,
                audio_url,
                description,
            } => {
                &&& name == ep.title
                &&& (match ep.article {
                    Some(a) => (show_alias@, episode_alias@) == article_aliases(a.path@),
                    None => show_alias@ == Seq::<char>::empty() && episode_alias@
                        == Seq::<char>::empty(),
                })
                &&& genres.deep_view() == (match ep.genres {
                    Some(gs) => genre_name_views(gs@),
                    None => Seq::<Seq<char>>::empty(),
                })
                &&& location == ep.location
                &&& (match ep.audio_sources {
                    Some(ss) => (if ss@.len() > 0 {
                        audio_url matches Some(u) && u@ == ss@[0].url@
                    } else {
                        audio_url is None
                    }),
                    None => audio_url is None,
                })
                &&& description is None
            },
            _ => false,
        }),
{
    let (show_alias, episode_alias) = match &ep.article {
        Some(a) => parse_article_aliases(a.path.as_str()),
        None => (String::new(), String::new()),
    };
    let genres = match &ep.genres {
        Some(gs) => search_genre_names(gs),
        None => Vec::new(),
    };
    proof {
        if ep.genres is None {
            assert(Seq::<Seq<char>>::empty() =~= genre_name_views(Seq::<NtsSearchGenre>::empty()));
        }
    }
    let audio_url = match &ep.audio_sources {
        Some(ss) => {
            if ss.len() > 0 {
                Some(ss[0].url.clone())
            } else {
                None
            }
        },
        None => None,
    };
    DiscoveryItem::NtsEpisode {
        name: ep.title,
        show_alias,
        episode_alias,
        genres,
        location: ep.location,
        audio_url,
        description: None,
    }
}

} // verus!

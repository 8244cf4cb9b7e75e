//! Stored favorites and history rows, as the persistence collaborator hands
//! them back, and their conversion to the universal item type.

use vstd::prelude::*;
use vstd::string::*;

use crate::models::DiscoveryItem;
use crate::text::{clone_opt_string, str_eq};

verus! {

/// One stored favorite.
#[derive(Debug, Clone)]
pub struct FavoriteRecord {
    pub id: i64,
    pub key: String,
    pub source: String,
    pub item_type: String,
    pub title: String,
    pub url: Option<String>,
    pub metadata_json: String,
    pub created_at: String,
}

/// One stored history row.
#[derive(Debug, Clone)]
pub struct HistoryRecord {
    pub id: i64,
    pub key: String,
    pub source: String,
    pub title: String,
    pub url: Option<String>,
    pub played_at: String,
    pub duration_secs: Option<u64>,
}

/// The episode item a stored row reconstructs: the stored title as name,
/// the stored key as episode alias, the stored URL as audio source, and
/// everything else empty.
pub open spec fn episode_of_row(
    r: DiscoveryItem,
    title: String,
    key: String,
    url: Option<String>,
) -> bool {
    match r {
        DiscoveryItem::NtsEpisode {
            name,
            show_alias,
            episode_alias,
            genres,
            location,
            audio_url,
            description,
        } => {
            &&& name == title
            &&& show_alias@.len() == 0
            &&& episode_alias == key
            &&& genres@.len() == 0
            &&& location is None
            &&& audio_url == url
            &&& description is None
        },
        _ => false,
    }
}

/// The direct-URL item a stored row reconstructs: the stored URL (empty if
/// absent) and the stored title.
pub open spec fn direct_of_row(r: DiscoveryItem, title: String, url: Option<String>) -> bool {
    match r {
        DiscoveryItem::DirectUrl { url: u, title: t } => {
            &&& (match url {
                Some(stored) => u == stored,
                None => u@.len() == 0,
            })
            &&& t == Some(title)
        },
        _ => false,
    }
}

/// The live-channel item a stored row reconstructs: channel one, the stored
/// title as show name and broadcast title, and empty genres and timestamps.
pub open spec fn live_of_row(r: DiscoveryItem, title: String) -> bool {
    match r {
        DiscoveryItem::NtsLiveChannel { channel, show_name, broadcast_title, genres, start, end } => {
            &&& channel == 1
            &&& show_name == title
            &&& broadcast_title == title
            &&& genres@.len() == 0
            &&& start@.len() == 0
            &&& end@.len() == 0
        },
        _ => false,
    }
}

/// The mixtape item a stored row reconstructs.
pub open spec fn mixtape_of_row(
    r: DiscoveryItem,
    title: String,
    key: String,
    url: Option<String>,
) -> bool {
    match r {
        DiscoveryItem::NtsMixtape { title: t, subtitle, stream_url, mixtape_alias } => {
            &&& t == title
            &&& subtitle@.len() == 0
            &&& (match url {
                Some(stored) => stream_url == stored,
                None => stream_url@.len() == 0,
            })
            &&& mixtape_alias == key
        },
        _ => false,
    }
}

impl FavoriteRecord {
    /// Rebuild the discovery item this favorite stands for, by its stored
    /// source and item type; unknown combinations fall back to an episode.
    pub fn to_discovery_item(&self) -> (r: DiscoveryItem)
        ensures
            (if self.source@ == "nts"@ && self.item_type@ == "episode"@ {
                episode_of_row(r, self.title, self.key, self.url)
            } else if self.source@ == "nts"@ && self.item_type@ == "mixtape"@ {
                mixtape_of_row(r, self.title, self.key, self.url)
            } else if self.source@ == "nts"@ && self.item_type@ == "live"@ {
                live_of_row(r, self.title)
            } else if self.source@ == "direct"@ && self.item_type@ == "url"@ {
                direct_of_row(r, self.title, self.url)
            } else {
                episode_of_row(r, self.title, self.key, self.url)
            }),
    {
        let is_nts = str_eq(self.source.as_str(), "nts");
        let is_direct = str_eq(self.source.as_str(), "direct");
        if is_nts && str_eq(self.item_type.as_str(), "episode") {
            DiscoveryItem::NtsEpisode {
                name: self.title.clone(),
                show_alias: String::new(),
                episode_alias: self.key.clone(),
                genres: Vec::new(),
                location: None,
                audio_url: clone_opt_string(&self.url),
                description: None,
            }
        } else if is_nts && str_eq(self.item_type.as_str(), "mixtape") {
            DiscoveryItem::NtsMixtape {
                title: self.title.clone(),
                subtitle: String::new(),
                stream_url: match &self.url {
                    Some(u) => u.clone(),
                    None => String::new(),
                },
                mixtape_alias: self.key.clone(),
            }
        } else if is_nts && str_eq(self.item_type.as_str(), "live") {
            DiscoveryItem::NtsLiveChannel {
                channel: 1,
                show_name: self.title.clone(),
                broadcast_title: self.title.clone(),
                genres: Vec::new(),
                start: String::new(),
                end: String::new(),
            }
        } else if is_direct && str_eq(self.item_type.as_str(), "url") {
            DiscoveryItem::DirectUrl {
                url: match &self.url {
                    Some(u) => u.clone(),
                    None => String::new(),
                },
                title: Some(self.title.clone()),
            }
        } else {
            DiscoveryItem::NtsEpisode {
                name: self.title.clone(),
                show_alias: String::new(),
                episode_alias: self.key.clone(),
                genres: Vec::new(),
                location: None,
                audio_url: clone_opt_string(&self.url),
                description: None,
            }
        }
    }
}

impl HistoryRecord {
    /// Rebuild the discovery item this history row stands for: a direct URL
    /// for the direct source, an episode for everything else.
    pub fn to_discovery_item(&self) -> (r: DiscoveryItem)
        ensures
            (if self.source@ == "direct"@ {
                direct_of_row(r, self.title, self.url)
            } else {
                episode_of_row(r, self.title, self.key, self.url)
            }),
    {
        if str_eq(self.source.as_str(), "direct") {
            DiscoveryItem::DirectUrl {
                url: match &self.url {
                    Some(u) => u.clone(),
                    None => String::new(),
                },
                title: Some(self.title.clone()),
            }
        } else {
            DiscoveryItem::NtsEpisode {
                name: self.title.clone(),
                show_alias: String::new(),
                episode_alias: self.key.clone(),
                genres: Vec::new(),
                location: None,
                audio_url: clone_opt_string(&self.url),
                description: None,
            }
        }
    }
}

} // verus!

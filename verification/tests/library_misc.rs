// Stream-metadata display strings, stored-record conversions, search-hit
// conversion, key bindings, panel selectors and the shared text helpers.

use clisten::config::KeybindingConfig;
use clisten::metadata::StreamMetadata;
use clisten::models::{
    AudioSource, DiscoveryItem, NtsSearchArticle, NtsSearchEpisode, NtsSearchGenre,
    search_episode_to_discovery,
};
use clisten::records::{FavoriteRecord, HistoryRecord};
use clisten::text;
use clisten::ui::{NtsSubTab, VisualizerKind};

// ── Stream metadata ──────────────────────────────────────────────────────────

#[test]
fn test_stream_metadata_display_strings() {
    let mut m = StreamMetadata::new();
    assert!(m.is_empty());
    assert!(m.display_title().is_none());
    assert!(m.display_subtitle().is_none());

    m.title = Some("Song".to_string());
    assert!(!m.is_empty());
    assert_eq!(m.display_title().as_deref(), Some("Song"));

    m.artist = Some("Artist".to_string());
    assert_eq!(m.display_title().as_deref(), Some("Artist - Song"));

    m.album = Some("Album".to_string());
    assert_eq!(m.display_subtitle().as_deref(), Some("Album"));

    m.station_name = Some("NTS 1".to_string());
    assert_eq!(m.display_subtitle().as_deref(), Some("NTS 1"));

    let only_artist = StreamMetadata {
        station_name: None,
        title: None,
        artist: Some("Artist".to_string()),
        album: None,
    };
    assert_eq!(only_artist.display_title().as_deref(), Some("Artist"));
}

// ── Stored records ───────────────────────────────────────────────────────────

fn favorite(source: &str, item_type: &str, url: Option<&str>) -> FavoriteRecord {
    FavoriteRecord {
        id: 1,
        key: "the-key".to_string(),
        source: source.to_string(),
        item_type: item_type.to_string(),
        title: "The Title".to_string(),
        url: url.map(String::from),
        metadata_json: "\"\"".to_string(),
        created_at: "2026-01-01".to_string(),
    }
}

#[test]
fn test_favorite_record_round_trips_by_kind() {
    let ep = favorite("nts", "episode", Some("http://a")).to_discovery_item();
    if let DiscoveryItem::NtsEpisode {
        name,
        episode_alias,
        audio_url,
        show_alias,
        ..
    } = ep
    {
        assert_eq!(name, "The Title");
        assert_eq!(episode_alias, "the-key");
        assert_eq!(audio_url.as_deref(), Some("http://a"));
        assert_eq!(show_alias, "");
    } else {
        panic!("expected NtsEpisode");
    }

    let mix = favorite("nts", "mixtape", Some("http://m")).to_discovery_item();
    if let DiscoveryItem::NtsMixtape {
        title, stream_url, mixtape_alias, ..
    } = mix
    {
        assert_eq!(title, "The Title");
        assert_eq!(stream_url, "http://m");
        assert_eq!(mixtape_alias, "the-key");
    } else {
        panic!("expected NtsMixtape");
    }

    let live = favorite("nts", "live", None).to_discovery_item();
    if let DiscoveryItem::NtsLiveChannel {
        channel, show_name, ..
    } = live
    {
        assert_eq!(channel, 1);
        assert_eq!(show_name, "The Title");
    } else {
        panic!("expected NtsLiveChannel");
    }

    let direct = favorite("direct", "url", Some("http://d")).to_discovery_item();
    if let DiscoveryItem::DirectUrl { url, title } = direct {
        assert_eq!(url, "http://d");
        assert_eq!(title.as_deref(), Some("The Title"));
    } else {
        panic!("expected DirectUrl");
    }

    // An unknown combination falls back to an episode.
    let odd = favorite("odd", "thing", None).to_discovery_item();
    assert!(matches!(odd, DiscoveryItem::NtsEpisode { .. }));
}

#[test]
fn test_favorite_record_to_discovery_item() {
    // The record a favorites store hands back for a stored episode.
    let record = FavoriteRecord {
        id: 1,
        key: "nts:episode:test-show:discovery-ep1".to_string(),
        source: "nts".to_string(),
        item_type: "episode".to_string(),
        title: "Discovery Item Show".to_string(),
        url: Some("https://soundcloud.com/ntslive/discovery-ep1".to_string()),
        metadata_json: "\"Ambient \u{b7} London\"".to_string(),
        created_at: "2026-01-01".to_string(),
    };
    let discovery = record.to_discovery_item();
    assert_eq!(discovery.title(), "Discovery Item Show");
    assert!(matches!(discovery, DiscoveryItem::NtsEpisode { .. }));
}

#[test]
fn test_history_record_to_discovery_item() {
    // The row a history store hands back for a played episode.
    let record = HistoryRecord {
        id: 1,
        key: "nts:episode:test-show:history-ep1".to_string(),
        source: "nts".to_string(),
        title: "History Item Show".to_string(),
        url: Some("https://soundcloud.com/ntslive/history-ep1".to_string()),
        played_at: "2026-01-01".to_string(),
        duration_secs: None,
    };
    let discovery = record.to_discovery_item();
    assert_eq!(discovery.title(), "History Item Show");
    assert!(matches!(discovery, DiscoveryItem::NtsEpisode { .. }));
}

#[test]
fn test_history_record_to_discovery_item_kinds() {
    let row = HistoryRecord {
        id: 7,
        key: "k".to_string(),
        source: "direct".to_string(),
        title: "T".to_string(),
        url: Some("http://x".to_string()),
        played_at: "2026-01-01".to_string(),
        duration_secs: Some(10),
    };
    if let DiscoveryItem::DirectUrl { url, title } = row.to_discovery_item() {
        assert_eq!(url, "http://x");
        assert_eq!(title.as_deref(), Some("T"));
    } else {
        panic!("expected DirectUrl");
    }

    let nts_row = HistoryRecord {
        id: 8,
        key: "k2".to_string(),
        source: "nts".to_string(),
        title: "T2".to_string(),
        url: None,
        played_at: "2026-01-02".to_string(),
        duration_secs: None,
    };
    if let DiscoveryItem::NtsEpisode {
        name, episode_alias, audio_url, ..
    } = nts_row.to_discovery_item()
    {
        assert_eq!(name, "T2");
        assert_eq!(episode_alias, "k2");
        assert!(audio_url.is_none());
    } else {
        panic!("expected NtsEpisode");
    }
}

// ── Search-hit conversion ────────────────────────────────────────────────────

#[test]
fn test_search_episode_to_discovery_parses_article_path() {
    let ep = NtsSearchEpisode {
        title: "A Night In".to_string(),
        article: Some(NtsSearchArticle {
            path: "/shows/my-show/episodes/my-ep-2026".to_string(),
        }),
        audio_sources: Some(vec![AudioSource {
            url: "https://cdn.example.com/a.mp3".to_string(),
            source: "cdn".to_string(),
        }]),
        genres: Some(vec![
            NtsSearchGenre {
                id: "jazz".to_string(),
                name: "Jazz".to_string(),
            },
            NtsSearchGenre {
                id: "soul".to_string(),
                name: "Soul".to_string(),
            },
        ]),
        location: Some("London".to_string()),
        local_date: None,
    };
    if let DiscoveryItem::NtsEpisode {
        name,
        show_alias,
        episode_alias,
        genres,
        location,
        audio_url,
        description,
    } = search_episode_to_discovery(ep)
    {
        assert_eq!(name, "A Night In");
        assert_eq!(show_alias, "my-show");
        assert_eq!(episode_alias, "my-ep-2026");
        assert_eq!(genres, vec!["Jazz".to_string(), "Soul".to_string()]);
        assert_eq!(location.as_deref(), Some("London"));
        assert_eq!(audio_url.as_deref(), Some("https://cdn.example.com/a.mp3"));
        assert!(description.is_none());
    } else {
        panic!("expected NtsEpisode");
    }
}

#[test]
fn test_search_episode_odd_path_gives_empty_aliases() {
    let ep = NtsSearchEpisode {
        title: "Odd".to_string(),
        article: Some(NtsSearchArticle {
            path: "/something/else".to_string(),
        }),
        audio_sources: None,
        genres: None,
        location: None,
        local_date: None,
    };
    if let DiscoveryItem::NtsEpisode {
        show_alias,
        episode_alias,
        genres,
        audio_url,
        ..
    } = search_episode_to_discovery(ep)
    {
        assert_eq!(show_alias, "");
        assert_eq!(episode_alias, "");
        assert!(genres.is_empty());
        assert!(audio_url.is_none());
    } else {
        panic!("expected NtsEpisode");
    }
}

// ── Key bindings ─────────────────────────────────────────────────────────────

#[test]
fn test_keybinding_defaults() {
    let kb = KeybindingConfig::default();
    assert_eq!(kb.quit, "q");
    assert_eq!(kb.next_tab, "Tab");
    assert_eq!(kb.prev_tab, "Shift+Tab");
    assert_eq!(kb.scroll_down, "j");
    assert_eq!(kb.scroll_up, "k");
    assert_eq!(kb.select, "Enter");
    assert_eq!(kb.back, "Escape");
    assert_eq!(kb.play_pause, "Space");
    assert_eq!(kb.next_track, "n");
    assert_eq!(kb.prev_track, "p");
    assert_eq!(kb.stop, "s");
    assert_eq!(kb.search, "/");
    assert_eq!(kb.favorite, "f");
    assert_eq!(kb.add_queue, "a");
    assert_eq!(kb.clear_queue, "c");
    assert_eq!(kb.help, "?");
}

// ── Panel selectors ──────────────────────────────────────────────────────────

#[test]
fn test_sub_tab_cycle_and_labels() {
    assert_eq!(NtsSubTab::default(), NtsSubTab::Live);
    assert_eq!(NtsSubTab::Live.next(), NtsSubTab::Picks);
    assert_eq!(NtsSubTab::Picks.next(), NtsSubTab::Search);
    assert_eq!(NtsSubTab::Search.next(), NtsSubTab::Live);
    assert_eq!(NtsSubTab::Live.prev(), NtsSubTab::Search);
    assert_eq!(NtsSubTab::Live.index(), 0);
    assert_eq!(NtsSubTab::from_index(2), Some(NtsSubTab::Search));
    assert_eq!(NtsSubTab::from_index(3), None);
    assert_eq!(NtsSubTab::Picks.label(), "Picks");
}

#[test]
fn test_visualizer_cycle_and_labels() {
    assert_eq!(VisualizerKind::default(), VisualizerKind::Blob);
    let mut k = VisualizerKind::Blob;
    let mut seen = Vec::new();
    for _ in 0..5 {
        seen.push(k.label());
        k = k.next();
    }
    assert_eq!(k, VisualizerKind::Blob);
    assert_eq!(seen, vec!["Blob", "Spectrum", "Waveform", "Starfield", "Rings"]);
}

// ── Text helpers ─────────────────────────────────────────────────────────────

#[test]
fn test_number_rendering() {
    assert_eq!(text::u64_to_string(0), "0");
    assert_eq!(text::u64_to_string(7), "7");
    assert_eq!(text::u64_to_string(1234), "1234");
    assert_eq!(text::u64_to_string(u64::MAX), "18446744073709551615");
    assert_eq!(text::i64_to_string(-7), "-7");
    assert_eq!(text::i64_to_string(0), "0");
    assert_eq!(text::i64_to_string(i64::MIN), "-9223372036854775808");
}

#[test]
fn test_trim_and_prefix_helpers() {
    assert_eq!(text::trim_str("  a b  "), "a b");
    assert_eq!(text::trim_str(""), "");
    assert_eq!(text::trim_str(" \t\n"), "");
    assert_eq!(text::trim_str("x"), "x");
    assert!(text::str_starts_with("https://x", "https://"));
    assert!(!text::str_starts_with("http", "https://"));
    assert!(text::str_ends_with("a.sock", ".sock"));
    assert!(!text::str_ends_with("a.txt", ".sock"));
    assert_eq!(text::strip_leading("///a/b", '/'), "a/b");
}

#[test]
fn test_join_and_split() {
    let parts = vec!["a".to_string(), "b".to_string(), "c".to_string()];
    assert_eq!(text::join_strings(&parts, ", "), "a, b, c");
    let one = vec!["solo".to_string()];
    assert_eq!(text::join_strings(&one, ", "), "solo");
    let none: Vec<String> = vec![];
    assert_eq!(text::join_strings(&none, ", "), "");

    assert_eq!(
        text::split_char("a/b/c", '/'),
        vec!["a".to_string(), "b".to_string(), "c".to_string()]
    );
    assert_eq!(text::split_char("", '/'), vec!["".to_string()]);
    assert_eq!(
        text::split_char("/x/", '/'),
        vec!["".to_string(), "x".to_string(), "".to_string()]
    );
}

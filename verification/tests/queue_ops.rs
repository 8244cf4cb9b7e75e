// Queue operations: cursor rules, removal, navigation, live-channel
// deduplication and refresh.

use clisten::models::DiscoveryItem;
use clisten::queue::{Queue, QueueItem};

fn make_queue_item(title: &str, url: &str) -> QueueItem {
    QueueItem {
        item: DiscoveryItem::NtsEpisode {
            name: title.to_string(),
            show_alias: title.to_string(),
            episode_alias: title.to_string(),
            genres: vec![],
            location: None,
            audio_url: Some(url.to_string()),
            description: None,
        },
        url: url.to_string(),
        stream_metadata: None,
    }
}

fn make_live_item(channel: u8, show_name: &str, genres: Vec<&str>) -> DiscoveryItem {
    DiscoveryItem::NtsLiveChannel {
        channel,
        show_name: show_name.to_string(),
        broadcast_title: show_name.to_string(),
        genres: genres.into_iter().map(String::from).collect(),
        start: String::new(),
        end: String::new(),
    }
}

fn make_live_queue_item(channel: u8, show_name: &str, genres: Vec<&str>) -> QueueItem {
    let item = make_live_item(channel, show_name, genres);
    let url = item.playback_url().unwrap_or_default();
    QueueItem {
        item,
        url,
        stream_metadata: None,
    }
}

#[test]
fn test_queue_new_empty() {
    let q = Queue::new();
    assert!(q.is_empty());
    assert_eq!(q.len(), 0);
    assert!(q.current().is_none());
    assert!(q.current_index().is_none());
}

#[test]
fn test_queue_add() {
    let mut q = Queue::new();
    q.add(make_queue_item("Track 1", "http://a"));
    assert_eq!(q.len(), 1);
    assert_eq!(q.current_index(), Some(0));
    assert_eq!(q.current().unwrap().url, "http://a");
}

#[test]
fn test_queue_add_multiple_sets_current_to_first() {
    let mut q = Queue::new();
    q.add(make_queue_item("Track 1", "http://a"));
    q.add(make_queue_item("Track 2", "http://b"));
    // current stays at 0 after additional adds
    assert_eq!(q.current_index(), Some(0));
    assert_eq!(q.len(), 2);
}

#[test]
fn test_queue_add_next() {
    let mut q = Queue::new();
    q.add(make_queue_item("Track 1", "http://a"));
    q.add(make_queue_item("Track 3", "http://c"));
    // insert after current (index 0)
    q.add_next(make_queue_item("Track 2", "http://b"));
    assert_eq!(q.len(), 3);
    assert_eq!(q.items()[1].url, "http://b");
}

#[test]
fn test_queue_add_next_empty_queue() {
    let mut q = Queue::new();
    q.add_next(make_queue_item("Track 1", "http://a"));
    assert_eq!(q.len(), 1);
    assert_eq!(q.current_index(), Some(0));
}

#[test]
fn test_queue_remove() {
    let mut q = Queue::new();
    q.add(make_queue_item("Track 1", "http://a"));
    q.add(make_queue_item("Track 2", "http://b"));
    q.add(make_queue_item("Track 3", "http://c"));
    q.remove(1);
    assert_eq!(q.len(), 2);
    assert_eq!(q.items()[0].url, "http://a");
    assert_eq!(q.items()[1].url, "http://c");
}

#[test]
fn test_queue_remove_current_adjusts_index() {
    let mut q = Queue::new();
    q.add(make_queue_item("Track 1", "http://a"));
    q.add(make_queue_item("Track 2", "http://b"));
    // advance to track 2
    q.advance();
    assert_eq!(q.current_index(), Some(1));
    // remove item before current
    q.remove(0);
    // current_index should adjust down
    assert_eq!(q.current_index(), Some(0));
}

#[test]
fn test_queue_remove_all_clears_index() {
    let mut q = Queue::new();
    q.add(make_queue_item("Track 1", "http://a"));
    q.remove(0);
    assert!(q.is_empty());
    assert!(q.current_index().is_none());
}

#[test]
fn test_queue_clear() {
    let mut q = Queue::new();
    q.add(make_queue_item("Track 1", "http://a"));
    q.add(make_queue_item("Track 2", "http://b"));
    q.clear();
    assert!(q.is_empty());
    assert!(q.current_index().is_none());
    assert!(q.current().is_none());
}

#[test]
fn test_queue_next() {
    let mut q = Queue::new();
    q.add(make_queue_item("Track 1", "http://a"));
    q.add(make_queue_item("Track 2", "http://b"));
    let item = q.advance();
    assert!(item.is_some());
    assert_eq!(item.unwrap().url, "http://b");
    assert_eq!(q.current_index(), Some(1));
}

#[test]
fn test_queue_next_at_end() {
    let mut q = Queue::new();
    q.add(make_queue_item("Track 1", "http://a"));
    let item = q.advance();
    assert!(item.is_none());
    // current_index stays at 0
    assert_eq!(q.current_index(), Some(0));
}

#[test]
fn test_queue_prev() {
    let mut q = Queue::new();
    q.add(make_queue_item("Track 1", "http://a"));
    q.add(make_queue_item("Track 2", "http://b"));
    q.advance(); // move to index 1
    let item = q.prev();
    assert!(item.is_some());
    assert_eq!(item.unwrap().url, "http://a");
    assert_eq!(q.current_index(), Some(0));
}

#[test]
fn test_queue_prev_at_start() {
    let mut q = Queue::new();
    q.add(make_queue_item("Track 1", "http://a"));
    let item = q.prev();
    assert!(item.is_none());
    assert_eq!(q.current_index(), Some(0));
}

#[test]
fn test_find_live_channel() {
    let mut q = Queue::new();
    q.add(make_queue_item("Episode", "http://ep"));
    q.add(make_live_queue_item(1, "Show A", vec!["Jazz"]));
    q.add(make_live_queue_item(2, "Show B", vec!["Ambient"]));

    assert_eq!(q.find_live_channel(1), Some(1));
    assert_eq!(q.find_live_channel(2), Some(2));
    assert_eq!(q.find_live_channel(3), None);
}

#[test]
fn test_play_live_channel_twice_no_duplicate() {
    let mut q = Queue::new();
    q.add(make_live_queue_item(1, "Show A", vec!["Jazz"]));

    // Same channel, different show name — should find existing entry
    assert!(q.find_live_channel(1).is_some());
    assert_eq!(q.len(), 1);

    // Update metadata and jump instead of adding
    let fresh = make_live_item(1, "Show B", vec!["Techno"]);
    let idx = q.find_live_channel(1).unwrap();
    q.update_live_channel_at(idx, &fresh);
    q.play_at(idx);

    assert_eq!(q.len(), 1); // Still only one entry
    assert_eq!(q.current_index(), Some(0));
    if let DiscoveryItem::NtsLiveChannel { show_name, .. } = &q.items()[0].item {
        assert_eq!(show_name, "Show B");
    } else {
        panic!("expected NtsLiveChannel");
    }
}

#[test]
fn test_different_live_channels_remain_separate() {
    let mut q = Queue::new();
    q.add(make_live_queue_item(1, "Show A", vec!["Jazz"]));
    q.add(make_live_queue_item(2, "Show B", vec!["Ambient"]));

    assert_eq!(q.len(), 2);
    assert_eq!(q.find_live_channel(1), Some(0));
    assert_eq!(q.find_live_channel(2), Some(1));
}

#[test]
fn test_update_live_channels_updates_stale_metadata() {
    let mut q = Queue::new();
    q.add(make_live_queue_item(1, "Old Show", vec!["Jazz"]));
    q.add(make_live_queue_item(2, "Old Show 2", vec!["Ambient"]));

    let fresh = vec![
        make_live_item(1, "New Show", vec!["Techno", "House"]),
        make_live_item(2, "New Show 2", vec!["Drum & Bass"]),
    ];
    let changed = q.update_live_channels(&fresh);

    assert!(changed);
    if let DiscoveryItem::NtsLiveChannel {
        show_name, genres, ..
    } = &q.items()[0].item
    {
        assert_eq!(show_name, "New Show");
        assert_eq!(genres, &["Techno", "House"]);
    } else {
        panic!("expected NtsLiveChannel");
    }
    if let DiscoveryItem::NtsLiveChannel {
        show_name, genres, ..
    } = &q.items()[1].item
    {
        assert_eq!(show_name, "New Show 2");
        assert_eq!(genres, &["Drum & Bass"]);
    } else {
        panic!("expected NtsLiveChannel");
    }
}

#[test]
fn test_update_live_channels_returns_false_when_unchanged() {
    let mut q = Queue::new();
    q.add(make_live_queue_item(1, "Same Show", vec!["Jazz"]));

    let fresh = vec![make_live_item(1, "Same Show", vec!["Jazz"])];
    let changed = q.update_live_channels(&fresh);
    assert!(!changed);
}

#[test]
fn test_update_live_channels_ignores_non_live_items() {
    let mut q = Queue::new();
    q.add(make_queue_item("Episode", "http://ep"));

    let fresh = vec![make_live_item(1, "New Show", vec!["Techno"])];
    let changed = q.update_live_channels(&fresh);
    assert!(!changed);
    // Episode item should be untouched
    assert_eq!(q.items()[0].item.title(), "Episode");
}

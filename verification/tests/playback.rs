// End-to-end queue scenarios, the metadata observer fed with real event
// lines, the protocol command strings, and the supervisor decisions.

use clisten::ipc;
use clisten::metadata::StreamMetadata;
use clisten::models::DiscoveryItem;
use clisten::queue::{Queue, QueueItem};
use clisten::supervisor;
use clisten::supervisor::{ExitPoll, SupervisorState};

fn track(title: &str, url: &str) -> QueueItem {
    QueueItem {
        item: DiscoveryItem::NtsEpisode {
            name: title.to_string(),
            show_alias: title.to_string(),
            episode_alias: title.to_string(),
            genres: vec![],
            location: None,
            audio_url: Some(url.to_string()),
            description: None,
        },
        url: url.to_string(),
        stream_metadata: None,
    }
}

fn live(channel: u8, show_name: &str, genres: Vec<&str>) -> DiscoveryItem {
    DiscoveryItem::NtsLiveChannel {
        channel,
        show_name: show_name.to_string(),
        broadcast_title: show_name.to_string(),
        genres: genres.into_iter().map(String::from).collect(),
        start: String::new(),
        end: String::new(),
    }
}

#[test]
fn test_end_to_end_queue_navigation() {
    let mut q = Queue::new();
    q.add(track("A", "http://a"));
    q.add(track("B", "http://b"));
    assert_eq!(q.current_index(), Some(0));
    assert_eq!(q.len(), 2);

    let item = q.advance();
    assert_eq!(item.unwrap().url, "http://b");
    assert_eq!(q.current_index(), Some(1));

    let item = q.advance();
    assert!(item.is_none());
    assert_eq!(q.current_index(), Some(1));

    let item = q.prev();
    assert_eq!(item.unwrap().url, "http://a");
    assert_eq!(q.current_index(), Some(0));
}

#[test]
fn test_end_to_end_live_refresh_leaves_episode_alone() {
    let mut q = Queue::new();
    let item = live(1, "Old Show", vec!["Jazz"]);
    let url = item.playback_url().unwrap();
    q.add(QueueItem {
        item,
        url,
        stream_metadata: None,
    });
    q.add(track("An Episode", "http://ep"));

    let fresh = vec![live(1, "New Show", vec!["Techno"])];
    let changed = q.update_live_channels(&fresh);
    assert!(changed);

    if let DiscoveryItem::NtsLiveChannel {
        show_name, genres, ..
    } = &q.items()[0].item
    {
        assert_eq!(show_name, "New Show");
        assert_eq!(genres, &["Techno"]);
    } else {
        panic!("expected NtsLiveChannel");
    }
    assert_eq!(q.items()[1].item.title(), "An Episode");
}

#[test]
fn test_out_of_range_indices_are_ignored() {
    let mut q = Queue::new();
    q.add(track("A", "http://a"));
    q.remove(5);
    assert_eq!(q.len(), 1);
    assert_eq!(q.current_index(), Some(0));
    assert!(q.play_at(5).is_none());
    assert_eq!(q.current_index(), Some(0));
}

#[test]
fn test_set_current_stream_metadata() {
    let mut q = Queue::new();
    // No-op on an empty queue.
    q.set_current_stream_metadata(StreamMetadata::new());
    assert!(q.is_empty());

    q.add(track("A", "http://a"));
    let mut meta = StreamMetadata::new();
    meta.title = Some("Song".to_string());
    q.set_current_stream_metadata(meta);
    let held = q.current().unwrap().stream_metadata.as_ref().unwrap();
    assert_eq!(held.title.as_deref(), Some("Song"));
}

#[test]
fn test_unknown_live_channel_has_no_stream() {
    let other = live(3, "Show", vec![]);
    assert_eq!(other.playback_url(), None);
}

// ── Metadata junk filter ─────────────────────────────────────────────────────

#[test]
fn test_junk_filter_rejects_placeholder_values() {
    let url = "https://example.com/radio";
    assert!(ipc::is_junk_metadata("", url));
    assert!(ipc::is_junk_metadata("   ", url));
    assert!(ipc::is_junk_metadata("stream", url));
    assert!(ipc::is_junk_metadata("http://host/x", url));
    assert!(ipc::is_junk_metadata("https://example.com/stream", url));
    assert!(ipc::is_junk_metadata("https://example.com/radio", url));
    assert!(!ipc::is_junk_metadata("Some Song", url));
    assert!(!ipc::is_junk_metadata("  Some Song  ", url));
    assert!(!ipc::is_junk_metadata("streaming all night", url));
}

// ── Metadata observer fed with raw event lines ───────────────────────────────

#[test]
fn test_observer_updates_title_from_event_line() {
    let mut meta = StreamMetadata::new();
    let url = "https://example.com/radio";
    let line = "{\"event\":\"property-change\",\"id\":1,\"name\":\"media-title\",\"data\":\"  Artist - Song  \"}";
    let emitted = ipc::observer_step(&mut meta, url, line);
    let out = emitted.expect("a changed title must be emitted");
    assert_eq!(out.title.as_deref(), Some("Artist - Song"));
    assert_eq!(meta.title.as_deref(), Some("Artist - Song"));
    assert!(meta.station_name.is_none());
}

#[test]
fn test_observer_ignores_junk_and_foreign_lines() {
    let mut meta = StreamMetadata::new();
    let url = "https://example.com/radio";

    // Junk datum: the field stays empty and nothing is emitted.
    let junk = "{\"event\":\"property-change\",\"id\":1,\"name\":\"media-title\",\"data\":\"stream\"}";
    assert!(ipc::observer_step(&mut meta, url, junk).is_none());
    assert!(meta.title.is_none());

    // A different event kind changes nothing.
    let foreign = "{\"event\":\"end-file\"}";
    assert!(ipc::observer_step(&mut meta, url, foreign).is_none());

    // An unparseable line changes nothing.
    assert!(ipc::observer_step(&mut meta, url, "not json at all").is_none());

    // An unregistered id changes nothing.
    let other = "{\"event\":\"property-change\",\"id\":9,\"data\":\"x\"}";
    assert!(ipc::observer_step(&mut meta, url, other).is_none());
    assert!(meta.is_empty());
}

#[test]
fn test_observer_deduplicates_repeated_values() {
    let mut meta = StreamMetadata::new();
    let url = "https://example.com/radio";
    let line = "{\"event\":\"property-change\",\"id\":3,\"data\":\"Four Tet\"}";
    assert!(ipc::observer_step(&mut meta, url, line).is_some());
    // The same value again is not a change.
    assert!(ipc::observer_step(&mut meta, url, line).is_none());
    assert_eq!(meta.artist.as_deref(), Some("Four Tet"));

    // A station name on id 2 builds up the same metadata object.
    let station = "{\"event\":\"property-change\",\"id\":2,\"data\":\"NTS 1\"}";
    let out = ipc::observer_step(&mut meta, url, station).expect("station change emits");
    assert_eq!(out.station_name.as_deref(), Some("NTS 1"));
    assert_eq!(out.artist.as_deref(), Some("Four Tet"));
}

// ── Command strings ──────────────────────────────────────────────────────────

#[test]
fn test_command_strings_are_exact() {
    assert_eq!(
        ipc::get_property_command("volume"),
        "{\"command\":[\"get_property\",\"volume\"]}"
    );
    assert_eq!(
        ipc::get_property_command("playback-time"),
        "{\"command\":[\"get_property\",\"playback-time\"]}"
    );
    assert_eq!(ipc::cycle_pause_command(), "{\"command\":[\"cycle\",\"pause\"]}");
    assert_eq!(ipc::quit_command(), "{\"command\":[\"quit\"]}");
    assert_eq!(
        ipc::seek_command(-5),
        "{\"command\":[\"seek\",\"-5\",\"relative\"]}"
    );
    assert_eq!(
        ipc::seek_command(30),
        "{\"command\":[\"seek\",\"30\",\"relative\"]}"
    );
    assert_eq!(
        ipc::set_volume_command(55),
        "{\"command\":[\"set_property\",\"volume\",55]}"
    );
    assert_eq!(
        ipc::observe_property_command(2, "metadata/by-key/icy-name"),
        "{\"command\":[\"observe_property\",2,\"metadata/by-key/icy-name\"]}"
    );
    assert_eq!(ipc::framed_command("{\"command\":[\"quit\"]}"), "{\"command\":[\"quit\"]}\n");
}

#[test]
fn test_volume_target_clamps() {
    assert_eq!(ipc::volume_target(50, 5), 55);
    assert_eq!(ipc::volume_target(50, -5), 45);
    assert_eq!(ipc::volume_target(98, 5), 100);
    assert_eq!(ipc::volume_target(3, -10), 0);
    assert_eq!(ipc::volume_target(100, 0), 100);
    assert_eq!(ipc::volume_target(0, 0), 0);
    assert_eq!(ipc::volume_target(50, 10_000), 100);
    assert_eq!(ipc::volume_target(50, -10_000), 0);
}

// ── Supervisor decisions ─────────────────────────────────────────────────────

#[test]
fn test_stop_with_no_player_is_idempotent() {
    let mut s = SupervisorState::new();
    let plan = s.stop();
    assert!(plan.send_quit);
    assert!(plan.remove_socket);
    assert!(!plan.kill_child);
    assert!(!s.child_alive);

    // Stopping again decides exactly the same.
    let plan2 = s.stop();
    assert!(!plan2.kill_child);
    assert!(!s.child_alive);
}

#[test]
fn test_stop_kills_only_live_child() {
    let mut s = SupervisorState::new();
    assert!(s.on_play_spawn(true));
    assert!(s.child_alive);
    let plan = s.stop();
    assert!(plan.kill_child);
    assert!(!s.child_alive);
    let plan2 = s.stop();
    assert!(!plan2.kill_child);
}

#[test]
fn test_spawn_failure_starts_no_monitors() {
    let mut s = SupervisorState::new();
    assert!(!s.on_play_spawn(false));
    assert!(!s.child_alive);
}

#[test]
fn test_exit_monitor_steps() {
    let mut s = SupervisorState::new();
    s.on_play_spawn(true);

    assert_eq!(s.exit_monitor_step(ExitPoll::StillRunning), (false, false));
    assert!(s.child_alive);

    assert_eq!(s.exit_monitor_step(ExitPoll::Exited), (true, true));
    assert!(!s.child_alive);

    assert_eq!(s.exit_monitor_step(ExitPoll::NoChild), (false, true));
}

// ── Socket naming and the orphan sweep ───────────────────────────────────────

#[test]
fn test_socket_naming() {
    assert_eq!(supervisor::socket_path_for(42), "/tmp/clisten-mpv-42.sock");
    assert_eq!(supervisor::socket_file_name(42), "clisten-mpv-42.sock");
    assert_eq!(supervisor::socket_path_for(0), "/tmp/clisten-mpv-0.sock");
}

#[test]
fn test_stale_socket_detection() {
    assert!(supervisor::is_stale_socket("clisten-mpv-123.sock", 999));
    // Never the running instance's own socket.
    assert!(!supervisor::is_stale_socket("clisten-mpv-999.sock", 999));
    // Other temp files are left alone.
    assert!(!supervisor::is_stale_socket("foo.sock", 999));
    assert!(!supervisor::is_stale_socket("clisten-mpv-123.txt", 999));
    assert!(!supervisor::is_stale_socket("", 999));
}

#[test]
fn test_mpv_spawn_args() {
    let args = supervisor::mpv_spawn_args("/tmp/clisten-mpv-7.sock", "https://example.com/radio");
    assert_eq!(
        args,
        vec![
            "--no-video".to_string(),
            "--no-terminal".to_string(),
            "--input-ipc-server=/tmp/clisten-mpv-7.sock".to_string(),
            "--af=lavfi=[astats=metadata=1:reset=1]".to_string(),
            "https://example.com/radio".to_string(),
        ]
    );
}

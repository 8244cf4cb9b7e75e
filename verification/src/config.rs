//! Key bindings, with their default keys.

use vstd::prelude::*;
use vstd::string::*;

verus! {

pub fn default_quit() -> (r: String)
    ensures
        r@ == "q"@,
{
    "q".to_owned()
}

pub fn default_next_tab() -> (r: String)
    ensures
        r@ == "Tab"@,
{
    "Tab".to_owned()
}

pub fn default_prev_tab() -> (r: String)
    ensures
        r@ == "Shift+Tab"@,
{
    "Shift+Tab".to_owned()
}

pub fn default_scroll_down() -> (r: String)
    ensures
        r@ == "j"@,
{
    "j".to_owned()
}

pub fn default_scroll_up() -> (r: String)
    ensures
        r@ == "k"@,
{
    "k".to_owned()
}

pub fn default_select() -> (r: String)
    ensures
        r@ == "Enter"@,
{
    "Enter".to_owned()
}

pub fn default_back() -> (r: String)
    ensures
        r@ == "Escape"@,
{
    "Escape".to_owned()
}

pub fn default_play_pause() -> (r: String)
    ensures
        r@ == "Space"@,
{
    "Space".to_owned()
}

pub fn default_next_track() -> (r: String)
    ensures
        r@ == "n"@,
{
    "n".to_owned()
}

pub fn default_prev_track() -> (r: String)
    ensures
        r@ == "p"@,
{
    "p".to_owned()
}

pub fn default_stop() -> (r: String)
    ensures
        r@ == "s"@,
{
    "s".to_owned()
}

pub fn default_search() -> (r: String)
    ensures
        r@ == "/"@,
{
    "/".to_owned()
}

pub fn default_favorite() -> (r: String)
    ensures
        r@ == "f"@,
{
    "f".to_owned()
}

pub fn default_add_queue() -> (r: String)
    ensures
        r@ == "a"@,
{
    "a".to_owned()
}

pub fn default_clear_queue() -> (r: String)
    ensures
        r@ == "c"@,
{
    "c".to_owned()
}

pub fn default_help() -> (r: String)
    ensures
        r@ == "?"@,
{
    "?".to_owned()
}

/// The key bound to each action, as configured.
#[derive(Debug, Clone)]
pub struct KeybindingConfig {
    pub quit: String,
    pub next_tab: String,
    pub prev_tab: String,
    pub scroll_down: String,
    pub scroll_up: String,
    pub select: String,
    pub back: String,
    pub play_pause: String,
    pub next_track: String,
    pub prev_track: String,
    pub stop: String,
    pub search: String,
    pub favorite: String,
    pub add_queue: String,
    pub clear_queue: String,
    pub help: String,
}

impl KeybindingConfig {
    /// All bindings carry their default keys.
    pub open spec fn is_default(&self) -> bool {
        &&& self.quit@ == "q"@
        &&& self.next_tab@ == "Tab"@
        &&& self.prev_tab@ == "Shift+Tab"@
        &&& self.scroll_down@ == "j"@
        &&& self.scroll_up@ == "k"@
        &&& self.select@ == "Enter"@
        &&& self.back@ == "Escape"@
        &&& self.play_pause@ == "Space"@
        &&& self.next_track@ == "n"@
        &&& self.prev_track@ == "p"@
        &&& self.stop@ == "s"@
        &&& self.search@ == "/"@
        &&& self.favorite@ == "f"@
        &&& self.add_queue@ == "a"@
        &&& self.clear_queue@ == "c"@
        &&& self.help@ == "?"@
    }
}

impl Default for KeybindingConfig {
    /// The default bindings.
    fn default() -> (r: Self)
        ensures
            r.is_default(),
    {
        KeybindingConfig {
            quit: default_quit(),
            next_tab: default_next_tab(),
            prev_tab: default_prev_tab(),
            scroll_down: default_scroll_down(),
            scroll_up: default_scroll_up(),
            select: default_select(),
            back: default_back(),
            play_pause: default_play_pause(),
            next_track: default_next_track(),
            prev_track: default_prev_track(),
            stop: default_stop(),
            search: default_search(),
            favorite: default_favorite(),
            add_queue: default_add_queue(),
            clear_queue: default_clear_queue(),
            help: default_help(),
        }
    }
}

} // verus!

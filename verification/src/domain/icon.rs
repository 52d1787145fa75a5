//! Icons a user can pin to a scene or an audio source.
//!
//! Nerd Fonts ships more than ten thousand glyphs, which is far too many to
//! choose from in a popover. This module is the curated shortlist: a stable key
//! that goes in the registry, the icon name the toolkit resolves, and a label
//! for the picker. Keys are ours rather than Nerd Fonts', so the underlying
//! glyph can be swapped without rewriting anyone's registry.

use vstd::prelude::*;
use crate::text::{owned, text_eq};

verus! {

/// Number of icons in the catalogue.
pub const ICON_COUNT: usize = 30;

/// The catalogue in picker order: key, icon name, label.
///
/// One shared catalogue rather than two: a scene called "Podcast" and a
/// source called "Podcast" want the same glyph.
pub open spec fn catalogue() -> Seq<(Seq<char>, Seq<char>, Seq<char>)> {
    seq![
        ("camera"@, "nf-fa-video-camera-symbolic"@, "Camera"@),
        ("desktop"@, "nf-fa-desktop-symbolic"@, "Desktop"@),
        ("game"@, "nf-fa-gamepad-symbolic"@, "Game"@),
        ("film"@, "nf-fa-film-symbolic"@, "Film"@),
        ("images"@, "nf-fa-images-symbolic"@, "Images"@),
        ("television"@, "nf-md-television-classic-symbolic"@, "Television"@),
        ("browser"@, "nf-fa-globe-symbolic"@, "Browser"@),
        ("terminal"@, "nf-cod-terminal-symbolic"@, "Terminal"@),
        ("code"@, "nf-cod-code-symbolic"@, "Code"@),
        ("chat"@, "nf-fa-message-symbolic"@, "Chat"@),
        ("guests"@, "nf-fa-users-symbolic"@, "Guests"@),
        ("star"@, "nf-fa-star-symbolic"@, "Star"@),
        ("alert"@, "nf-cod-bell-symbolic"@, "Alert"@),
        ("break"@, "nf-cod-coffee-symbolic"@, "Break"@),
        ("countdown"@, "nf-fa-clock-o-symbolic"@, "Countdown"@),
        ("start"@, "nf-cod-play-symbolic"@, "Start"@),
        ("pause"@, "nf-fa-pause-symbolic"@, "Pause"@),
        ("stop"@, "nf-cod-stop-circle-symbolic"@, "Stop"@),
        ("settings"@, "nf-cod-gear-symbolic"@, "Settings"@),
        ("layers"@, "nf-cod-layers-symbolic"@, "Layers"@),
        ("microphone"@, "nf-fa-microphone-symbolic"@, "Microphone"@),
        ("headset"@, "nf-md-microphone-variant-symbolic"@, "Headset"@),
        ("headphones"@, "nf-fa-headphones-symbolic"@, "Headphones"@),
        ("speaker"@, "nf-md-speaker-symbolic"@, "Speaker"@),
        ("volume"@, "nf-md-volume-high-symbolic"@, "Volume"@),
        ("music"@, "nf-fa-music-symbolic"@, "Music"@),
        ("instrument"@, "nf-md-guitar-acoustic-symbolic"@, "Instrument"@),
        ("radio"@, "nf-md-radio-symbolic"@, "Radio"@),
        ("call"@, "nf-fa-phone-symbolic"@, "Call"@),
        ("waveform"@, "nf-md-waveform-symbolic"@, "Waveform"@)
    ]
}

/// Label of the picker entry that clears the icon.
pub open spec fn no_icon_text() -> Seq<char> {
    "No icon"@
}

/// Position of the first catalogue entry with this key, searching from
/// `from`.
pub open spec fn key_position(key: Seq<char>, from: int) -> Option<int>
    decreases 30 - from,
{
    if from < 0 || from >= 30 {
        None
    } else if catalogue()[from].0 == key {
        Some(from)
    } else {
        key_position(key, from + 1)
    }
}

/// One entry in the icon picker.
#[derive(Debug, Clone, Copy, PartialEq, Eq)]
pub struct IconChoice {
    /// Stable key persisted in the registry.
    pub key: &'static str,
    /// Icon name, resolved from the Nerd Fonts resource bundle.
    pub icon_name: &'static str,
}

/// Catalogue entry `i`: key, icon name and label.
fn catalogue_entry(i: usize) -> (r: (&'static str, &'static str, &'static str))
    requires
        i < 30,
    ensures
        r.0@ == catalogue()[i as int].0,
        r.1@ == catalogue()[i as int].1,
        r.2@ == catalogue()[i as int].2,
{
    match i {
        0 => ("camera", "nf-fa-video-camera-symbolic", "Camera"),
        1 => ("desktop", "nf-fa-desktop-symbolic", "Desktop"),
        2 => ("game", "nf-fa-gamepad-symbolic", "Game"),
        3 => ("film", "nf-fa-film-symbolic", "Film"),
        4 => ("images", "nf-fa-images-symbolic", "Images"),
        5 => ("television", "nf-md-television-classic-symbolic", "Television"),
        6 => ("browser", "nf-fa-globe-symbolic", "Browser"),
        7 => ("terminal", "nf-cod-terminal-symbolic", "Terminal"),
        8 => ("code", "nf-cod-code-symbolic", "Code"),
        9 => ("chat", "nf-fa-message-symbolic", "Chat"),
        10 => ("guests", "nf-fa-users-symbolic", "Guests"),
        11 => ("star", "nf-fa-star-symbolic", "Star"),
        12 => ("alert", "nf-cod-bell-symbolic", "Alert"),
        13 => ("break", "nf-cod-coffee-symbolic", "Break"),
        14 => ("countdown", "nf-fa-clock-o-symbolic", "Countdown"),
        15 => ("start", "nf-cod-play-symbolic", "Start"),
        16 => ("pause", "nf-fa-pause-symbolic", "Pause"),
        17 => ("stop", "nf-cod-stop-circle-symbolic", "Stop"),
        18 => ("settings", "nf-cod-gear-symbolic", "Settings"),
        19 => ("layers", "nf-cod-layers-symbolic", "Layers"),
        20 => ("microphone", "nf-fa-microphone-symbolic", "Microphone"),
        21 => ("headset", "nf-md-microphone-variant-symbolic", "Headset"),
        22 => ("headphones", "nf-fa-headphones-symbolic", "Headphones"),
        23 => ("speaker", "nf-md-speaker-symbolic", "Speaker"),
        24 => ("volume", "nf-md-volume-high-symbolic", "Volume"),
        25 => ("music", "nf-fa-music-symbolic", "Music"),
        26 => ("instrument", "nf-md-guitar-acoustic-symbolic", "Instrument"),
        27 => ("radio", "nf-md-radio-symbolic", "Radio"),
        28 => ("call", "nf-fa-phone-symbolic", "Call"),
        _ => ("waveform", "nf-md-waveform-symbolic", "Waveform"),
    }
}

/// Icons offered for scenes and audio sources, in picker order.
pub fn icon_catalogue() -> (r: Vec<IconChoice>)
    ensures
        r@.len() == 30,
        forall|i: int| 0 <= i < 30 ==> #[trigger] r@[i].key@ == catalogue()[i].0 && r@[i].icon_name@ == catalogue()[i].1,
{
    let mut r: Vec<IconChoice> = Vec::new();
    let mut i: usize = 0;
    while i < 30
        invariant
            i <= 30,
            r@.len() == i,
            forall|j: int| 0 <= j < i ==> #[trigger] r@[j].key@ == catalogue()[j].0 && r@[j].icon_name@ == catalogue()[j].1,
        decreases 30 - i,
    {
        let (key, icon_name, _) = catalogue_entry(i);
        r.push(IconChoice { key, icon_name });
        i = i + 1;
    }
    r
}

/// Position of a persisted key in the catalogue.
fn find_key(key: &str) -> (r: Option<usize>)
    ensures
        match r {
            Some(i) => key_position(key@, 0) == Some(i as int) && i < 30,
            None => key_position(key@, 0) is None,
        },
{
    let mut i: usize = 0;
    while i < 30
        invariant
            i <= 30,
            key_position(key@, 0) == key_position(key@, i as int),
        decreases 30 - i,
    {
        let (k, _, _) = catalogue_entry(i);
        if text_eq(k, key) {
            return Some(i);
        }
        i = i + 1;
    }
    None
}

/// Look up a persisted icon key.
///
/// Unknown keys return `None` rather than a placeholder: a registry written
/// by a newer build, or hand-edited, should lose the icon and keep
/// everything else.
pub fn icon_choice(key: &str) -> (r: Option<IconChoice>)
    ensures
        match key_position(key@, 0) {
            Some(i) => r matches Some(c) && c.key@ == catalogue()[i].0 && c.icon_name@ == catalogue()[i].1,
            None => r is None,
        },
{
    match find_key(key) {
        Some(i) => {
            let (k, icon_name, _) = catalogue_entry(i);
            Some(IconChoice { key: k, icon_name })
        },
        None => None,
    }
}

/// Icon name for a persisted key, if the key is known.
pub fn icon_name(key: &str) -> (r: Option<&'static str>)
    ensures
        match key_position(key@, 0) {
            Some(i) => r matches Some(n) && n@ == catalogue()[i].1,
            None => r is None,
        },
{
    match icon_choice(key) {
        Some(icon) => Some(icon.icon_name),
        None => None,
    }
}

/// User-facing name for one catalogue key; unknown keys read as no icon.
pub fn icon_label(key: &str) -> (s: String)
    ensures
        s@ == match key_position(key@, 0) {
            Some(i) => catalogue()[i].2,
            None => no_icon_text(),
        },
{
    match find_key(key) {
        Some(i) => {
            let (_, _, label) = catalogue_entry(i);
            owned(label)
        },
        None => owned("No icon"),
    }
}

impl IconChoice {
    /// User-facing name shown in the picker.
    pub fn label(self) -> (s: String)
        ensures
            s@ == match key_position(self.key@, 0) {
                Some(i) => catalogue()[i].2,
                None => no_icon_text(),
            },
    {
        icon_label(self.key)
    }
}

/// Label for the picker entry that clears the icon.
pub fn no_icon_label() -> (s: String)
    ensures
        s@ == no_icon_text(),
{
    owned("No icon")
}


/// What tells two catalogue texts apart at a glance: length, first and
/// last character.
spec fn key_fingerprint(k: Seq<char>) -> (int, char, char) {
    (k.len() as int, k[0], k[k.len() - 1])
}

/// The catalogue position a fingerprint belongs to.
spec fn fingerprint_slot(f: (int, char, char)) -> int {
    if f == (6int, 'c', 'a') {
        0
    } else if f == (7int, 'd', 'p') {
        1
    } else if f == (4int, 'g', 'e') {
        2
    } else if f == (4int, 'f', 'm') {
        3
    } else if f == (6int, 'i', 's') {
        4
    } else if f == (10int, 't', 'n') {
        5
    } else if f == (7int, 'b', 'r') {
        6
    } else if f == (8int, 't', 'l') {
        7
    } else if f == (4int, 'c', 'e') {
        8
    } else if f == (4int, 'c', 't') {
        9
    } else if f == (6int, 'g', 's') {
        10
    } else if f == (4int, 's', 'r') {
        11
    } else if f == (5int, 'a', 't') {
        12
    } else if f == (5int, 'b', 'k') {
        13
    } else if f == (9int, 'c', 'n') {
        14
    } else if f == (5int, 's', 't') {
        15
    } else if f == (5int, 'p', 'e') {
        16
    } else if f == (4int, 's', 'p') {
        17
    } else if f == (8int, 's', 's') {
        18
    } else if f == (6int, 'l', 's') {
        19
    } else if f == (10int, 'm', 'e') {
        20
    } else if f == (7int, 'h', 't') {
        21
    } else if f == (10int, 'h', 's') {
        22
    } else if f == (7int, 's', 'r') {
        23
    } else if f == (6int, 'v', 'e') {
        24
    } else if f == (5int, 'm', 'c') {
        25
    } else if f == (10int, 'i', 't') {
        26
    } else if f == (5int, 'r', 'o') {
        27
    } else if f == (4int, 'c', 'l') {
        28
    } else if f == (8int, 'w', 'm') {
        29
    } else {
        -1
    }
}


/// No two catalogue entries share a key, so a key names one icon.
pub proof fn lemma_catalogue_keys_unique()
    ensures
        forall|i: int, j: int| 0 <= i < j < 30 ==> #[trigger] catalogue()[i].0 != #[trigger] catalogue()[j].0,
{
    reveal_strlit("camera");
    reveal_strlit("desktop");
    reveal_strlit("game");
    reveal_strlit("film");
    reveal_strlit("images");
    reveal_strlit("television");
    reveal_strlit("browser");
    reveal_strlit("terminal");
    reveal_strlit("code");
    reveal_strlit("chat");
    reveal_strlit("guests");
    reveal_strlit("star");
    reveal_strlit("alert");
    reveal_strlit("break");
    reveal_strlit("countdown");
    reveal_strlit("start");
    reveal_strlit("pause");
    reveal_strlit("stop");
    reveal_strlit("settings");
    reveal_strlit("layers");
    reveal_strlit("microphone");
    reveal_strlit("headset");
    reveal_strlit("headphones");
    reveal_strlit("speaker");
    reveal_strlit("volume");
    reveal_strlit("music");
    reveal_strlit("instrument");
    reveal_strlit("radio");
    reveal_strlit("call");
    reveal_strlit("waveform");
    assert forall|i: int| 0 <= i < 30 implies fingerprint_slot(key_fingerprint(#[trigger] catalogue()[i].0)) == i by {
        if i == 0 {
            assert(fingerprint_slot(key_fingerprint(catalogue()[0].0)) == 0);
        } else if i == 1 {
            assert(fingerprint_slot(key_fingerprint(catalogue()[1].0)) == 1);
        } else if i == 2 {
            assert(fingerprint_slot(key_fingerprint(catalogue()[2].0)) == 2);
        } else if i == 3 {
            assert(fingerprint_slot(key_fingerprint(catalogue()[3].0)) == 3);
        } else if i == 4 {
            assert(fingerprint_slot(key_fingerprint(catalogue()[4].0)) == 4);
        } else if i == 5 {
            assert(fingerprint_slot(key_fingerprint(catalogue()[5].0)) == 5);
        } else if i == 6 {
            assert(fingerprint_slot(key_fingerprint(catalogue()[6].0)) == 6);
        } else if i == 7 {
            assert(fingerprint_slot(key_fingerprint(catalogue()[7].0)) == 7);
        } else if i == 8 {
            assert(fingerprint_slot(key_fingerprint(catalogue()[8].0)) == 8);
        } else if i == 9 {
            assert(fingerprint_slot(key_fingerprint(catalogue()[9].0)) == 9);
        } else if i == 10 {
            assert(fingerprint_slot(key_fingerprint(catalogue()[10].0)) == 10);
        } else if i == 11 {
            assert(fingerprint_slot(key_fingerprint(catalogue()[11].0)) == 11);
        } else if i == 12 {
            assert(fingerprint_slot(key_fingerprint(catalogue()[12].0)) == 12);
        } else if i == 13 {
            assert(fingerprint_slot(key_fingerprint(catalogue()[13].0)) == 13);
        } else if i == 14 {
            assert(fingerprint_slot(key_fingerprint(catalogue()[14].0)) == 14);
        } else if i == 15 {
            assert(fingerprint_slot(key_fingerprint(catalogue()[15].0)) == 15);
        } else if i == 16 {
            assert(fingerprint_slot(key_fingerprint(catalogue()[16].0)) == 16);
        } else if i == 17 {
            assert(fingerprint_slot(key_fingerprint(catalogue()[17].0)) == 17);
        } else if i == 18 {
            assert(fingerprint_slot(key_fingerprint(catalogue()[18].0)) == 18);
        } else if i == 19 {
            assert(fingerprint_slot(key_fingerprint(catalogue()[19].0)) == 19);
        } else if i == 20 {
            assert(fingerprint_slot(key_fingerprint(catalogue()[20].0)) == 20);
        } else if i == 21 {
            assert(fingerprint_slot(key_fingerprint(catalogue()[21].0)) == 21);
        } else if i == 22 {
            assert(fingerprint_slot(key_fingerprint(catalogue()[22].0)) == 22);
        } else if i == 23 {
            assert(fingerprint_slot(key_fingerprint(catalogue()[23].0)) == 23);
        } else if i == 24 {
            assert(fingerprint_slot(key_fingerprint(catalogue()[24].0)) == 24);
        } else if i == 25 {
            assert(fingerprint_slot(key_fingerprint(catalogue()[25].0)) == 25);
        } else if i == 26 {
            assert(fingerprint_slot(key_fingerprint(catalogue()[26].0)) == 26);
        } else if i == 27 {
            assert(fingerprint_slot(key_fingerprint(catalogue()[27].0)) == 27);
        } else if i == 28 {
            assert(fingerprint_slot(key_fingerprint(catalogue()[28].0)) == 28);
        } else if i == 29 {
            assert(fingerprint_slot(key_fingerprint(catalogue()[29].0)) == 29);
        }
    }
}

/// The catalogue position a label fingerprint belongs to.
spec fn label_fingerprint_slot(f: (int, char, char)) -> int {
    if f == (6int, 'C', 'a') {
        0
    } else if f == (7int, 'D', 'p') {
        1
    } else if f == (4int, 'G', 'e') {
        2
    } else if f == (4int, 'F', 'm') {
        3
    } else if f == (6int, 'I', 's') {
        4
    } else if f == (10int, 'T', 'n') {
        5
    } else if f == (7int, 'B', 'r') {
        6
    } else if f == (8int, 'T', 'l') {
        7
    } else if f == (4int, 'C', 'e') {
        8
    } else if f == (4int, 'C', 't') {
        9
    } else if f == (6int, 'G', 's') {
        10
    } else if f == (4int, 'S', 'r') {
        11
    } else if f == (5int, 'A', 't') {
        12
    } else if f == (5int, 'B', 'k') {
        13
    } else if f == (9int, 'C', 'n') {
        14
    } else if f == (5int, 'S', 't') {
        15
    } else if f == (5int, 'P', 'e') {
        16
    } else if f == (4int, 'S', 'p') {
        17
    } else if f == (8int, 'S', 's') {
        18
    } else if f == (6int, 'L', 's') {
        19
    } else if f == (10int, 'M', 'e') {
        20
    } else if f == (7int, 'H', 't') {
        21
    } else if f == (10int, 'H', 's') {
        22
    } else if f == (7int, 'S', 'r') {
        23
    } else if f == (6int, 'V', 'e') {
        24
    } else if f == (5int, 'M', 'c') {
        25
    } else if f == (10int, 'I', 't') {
        26
    } else if f == (5int, 'R', 'o') {
        27
    } else if f == (4int, 'C', 'l') {
        28
    } else if f == (8int, 'W', 'm') {
        29
    } else {
        -1
    }
}


/// No two catalogue entries share a label, and none is labelled as the
/// entry that clears the icon, so the picker is never ambiguous.
pub proof fn lemma_catalogue_labels_unique()
    ensures
        forall|i: int, j: int| 0 <= i < j < 30 ==> #[trigger] catalogue()[i].2 != #[trigger] catalogue()[j].2,
        forall|i: int| 0 <= i < 30 ==> #[trigger] catalogue()[i].2 != no_icon_text(),
{
    reveal_strlit("No icon");
    assert(label_fingerprint_slot(key_fingerprint(no_icon_text())) == -1);
    reveal_strlit("Camera");
    reveal_strlit("Desktop");
    reveal_strlit("Game");
    reveal_strlit("Film");
    reveal_strlit("Images");
    reveal_strlit("Television");
    reveal_strlit("Browser");
    reveal_strlit("Terminal");
    reveal_strlit("Code");
    reveal_strlit("Chat");
    reveal_strlit("Guests");
    reveal_strlit("Star");
    reveal_strlit("Alert");
    reveal_strlit("Break");
    reveal_strlit("Countdown");
    reveal_strlit("Start");
    reveal_strlit("Pause");
    reveal_strlit("Stop");
    reveal_strlit("Settings");
    reveal_strlit("Layers");
    reveal_strlit("Microphone");
    reveal_strlit("Headset");
    reveal_strlit("Headphones");
    reveal_strlit("Speaker");
    reveal_strlit("Volume");
    reveal_strlit("Music");
    reveal_strlit("Instrument");
    reveal_strlit("Radio");
    reveal_strlit("Call");
    reveal_strlit("Waveform");
    assert forall|i: int| 0 <= i < 30 implies label_fingerprint_slot(key_fingerprint(#[trigger] catalogue()[i].2)) == i by {
        if i == 0 {
            assert(label_fingerprint_slot(key_fingerprint(catalogue()[0].2)) == 0);
        } else if i == 1 {
            assert(label_fingerprint_slot(key_fingerprint(catalogue()[1].2)) == 1);
        } else if i == 2 {
            assert(label_fingerprint_slot(key_fingerprint(catalogue()[2].2)) == 2);
        } else if i == 3 {
            assert(label_fingerprint_slot(key_fingerprint(catalogue()[3].2)) == 3);
        } else if i == 4 {
            assert(label_fingerprint_slot(key_fingerprint(catalogue()[4].2)) == 4);
        } else if i == 5 {
            assert(label_fingerprint_slot(key_fingerprint(catalogue()[5].2)) == 5);
        } else if i == 6 {
            assert(label_fingerprint_slot(key_fingerprint(catalogue()[6].2)) == 6);
        } else if i == 7 {
            assert(label_fingerprint_slot(key_fingerprint(catalogue()[7].2)) == 7);
        } else if i == 8 {
            assert(label_fingerprint_slot(key_fingerprint(catalogue()[8].2)) == 8);
        } else if i == 9 {
            assert(label_fingerprint_slot(key_fingerprint(catalogue()[9].2)) == 9);
        } else if i == 10 {
            assert(label_fingerprint_slot(key_fingerprint(catalogue()[10].2)) == 10);
        } else if i == 11 {
            assert(label_fingerprint_slot(key_fingerprint(catalogue()[11].2)) == 11);
        } else if i == 12 {
            assert(label_fingerprint_slot(key_fingerprint(catalogue()[12].2)) == 12);
        } else if i == 13 {
            assert(label_fingerprint_slot(key_fingerprint(catalogue()[13].2)) == 13);
        } else if i == 14 {
            assert(label_fingerprint_slot(key_fingerprint(catalogue()[14].2)) == 14);
        } else if i == 15 {
            assert(label_fingerprint_slot(key_fingerprint(catalogue()[15].2)) == 15);
        } else if i == 16 {
            assert(label_fingerprint_slot(key_fingerprint(catalogue()[16].2)) == 16);
        } else if i == 17 {
            assert(label_fingerprint_slot(key_fingerprint(catalogue()[17].2)) == 17);
        } else if i == 18 {
            assert(label_fingerprint_slot(key_fingerprint(catalogue()[18].2)) == 18);
        } else if i == 19 {
            assert(label_fingerprint_slot(key_fingerprint(catalogue()[19].2)) == 19);
        } else if i == 20 {
            assert(label_fingerprint_slot(key_fingerprint(catalogue()[20].2)) == 20);
        } else if i == 21 {
            assert(label_fingerprint_slot(key_fingerprint(catalogue()[21].2)) == 21);
        } else if i == 22 {
            assert(label_fingerprint_slot(key_fingerprint(catalogue()[22].2)) == 22);
        } else if i == 23 {
            assert(label_fingerprint_slot(key_fingerprint(catalogue()[23].2)) == 23);
        } else if i == 24 {
            assert(label_fingerprint_slot(key_fingerprint(catalogue()[24].2)) == 24);
        } else if i == 25 {
            assert(label_fingerprint_slot(key_fingerprint(catalogue()[25].2)) == 25);
        } else if i == 26 {
            assert(label_fingerprint_slot(key_fingerprint(catalogue()[26].2)) == 26);
        } else if i == 27 {
            assert(label_fingerprint_slot(key_fingerprint(catalogue()[27].2)) == 27);
        } else if i == 28 {
            assert(label_fingerprint_slot(key_fingerprint(catalogue()[28].2)) == 28);
        } else if i == 29 {
            assert(label_fingerprint_slot(key_fingerprint(catalogue()[29].2)) == 29);
        }
    }
}

/// What tells two icon names apart: length, the eighth character, and the
/// last character before the `-symbolic` suffix.
spec fn name_fingerprint(k: Seq<char>) -> (int, char, char) {
    (k.len() as int, k[7], k[k.len() - 10])
}

/// The catalogue position an icon-name fingerprint belongs to.
spec fn name_fingerprint_slot(f: (int, char, char)) -> int {
    if f == (27int, 'i', 'a') {
        0
    } else if f == (22int, 'e', 'p') {
        1
    } else if f == (22int, 'a', 'd') {
        2
    } else if f == (19int, 'i', 'm') {
        3
    } else if f == (21int, 'm', 's') {
        4
    } else if f == (33int, 'e', 'c') {
        5
    } else if f == (20int, 'l', 'e') {
        6
    } else if f == (24int, 't', 'l') {
        7
    } else if f == (20int, 'c', 'e') {
        8
    } else if f == (22int, 'e', 'e') {
        9
    } else if f == (20int, 's', 's') {
        10
    } else if f == (19int, 't', 'r') {
        11
    } else if f == (20int, 'b', 'l') {
        12
    } else if f == (22int, 'c', 'e') {
        13
    } else if f == (22int, 'l', 'o') {
        14
    } else if f == (20int, 'p', 'y') {
        15
    } else if f == (20int, 'a', 'e') {
        16
    } else if f == (27int, 's', 'e') {
        17
    } else if f == (20int, 'g', 'r') {
        18
    } else if f == (22int, 'l', 's') {
        19
    } else if f == (25int, 'i', 'e') {
        20
    } else if f == (33int, 'i', 't') {
        21
    } else if f == (25int, 'e', 's') {
        22
    } else if f == (22int, 'p', 'r') {
        23
    } else if f == (26int, 'o', 'h') {
        24
    } else if f == (20int, 'u', 'c') {
        25
    } else if f == (30int, 'u', 'c') {
        26
    } else if f == (20int, 'a', 'o') {
        27
    } else if f == (20int, 'h', 'e') {
        28
    } else if f == (23int, 'a', 'm') {
        29
    } else {
        -1
    }
}


/// No two catalogue entries use the same icon, and every icon is a
/// symbolic Nerd Fonts glyph.
pub proof fn lemma_catalogue_icon_names_unique_and_symbolic()
    ensures
        forall|i: int, j: int| 0 <= i < j < 30 ==> #[trigger] catalogue()[i].1 != #[trigger] catalogue()[j].1,
        forall|i: int|
            0 <= i < 30 ==> (#[trigger] catalogue()[i].1).take(3) == "nf-"@ && catalogue()[i].1.skip(
                catalogue()[i].1.len() - 9,
            ) == "-symbolic"@,
{
    reveal_strlit("nf-");
    reveal_strlit("-symbolic");
    reveal_strlit("nf-fa-video-camera-symbolic");
    reveal_strlit("nf-fa-desktop-symbolic");
    reveal_strlit("nf-fa-gamepad-symbolic");
    reveal_strlit("nf-fa-film-symbolic");
    reveal_strlit("nf-fa-images-symbolic");
    reveal_strlit("nf-md-television-classic-symbolic");
    reveal_strlit("nf-fa-globe-symbolic");
    reveal_strlit("nf-cod-terminal-symbolic");
    reveal_strlit("nf-cod-code-symbolic");
    reveal_strlit("nf-fa-message-symbolic");
    reveal_strlit("nf-fa-users-symbolic");
    reveal_strlit("nf-fa-star-symbolic");
    reveal_strlit("nf-cod-bell-symbolic");
    reveal_strlit("nf-cod-coffee-symbolic");
    reveal_strlit("nf-fa-clock-o-symbolic");
    reveal_strlit("nf-cod-play-symbolic");
    reveal_strlit("nf-fa-pause-symbolic");
    reveal_strlit("nf-cod-stop-circle-symbolic");
    reveal_strlit("nf-cod-gear-symbolic");
    reveal_strlit("nf-cod-layers-symbolic");
    reveal_strlit("nf-fa-microphone-symbolic");
    reveal_strlit("nf-md-microphone-variant-symbolic");
    reveal_strlit("nf-fa-headphones-symbolic");
    reveal_strlit("nf-md-speaker-symbolic");
    reveal_strlit("nf-md-volume-high-symbolic");
    reveal_strlit("nf-fa-music-symbolic");
    reveal_strlit("nf-md-guitar-acoustic-symbolic");
    reveal_strlit("nf-md-radio-symbolic");
    reveal_strlit("nf-fa-phone-symbolic");
    reveal_strlit("nf-md-waveform-symbolic");
    assert forall|i: int| 0 <= i < 30 implies {
        &&& name_fingerprint_slot(name_fingerprint(#[trigger] catalogue()[i].1)) == i
        &&& catalogue()[i].1.take(3) == "nf-"@
        &&& catalogue()[i].1.skip(catalogue()[i].1.len() - 9) == "-symbolic"@
    } by {
        if i == 0 {
            assert(name_fingerprint_slot(name_fingerprint(catalogue()[0].1)) == 0);
            assert(catalogue()[0].1.take(3) =~= "nf-"@);
            assert(catalogue()[0].1.skip(catalogue()[0].1.len() - 9) =~= "-symbolic"@);
        } else if i == 1 {
            assert(name_fingerprint_slot(name_fingerprint(catalogue()[1].1)) == 1);
            assert(catalogue()[1].1.take(3) =~= "nf-"@);
            assert(catalogue()[1].1.skip(catalogue()[1].1.len() - 9) =~= "-symbolic"@);
        } else if i == 2 {
            assert(name_fingerprint_slot(name_fingerprint(catalogue()[2].1)) == 2);
            assert(catalogue()[2].1.take(3) =~= "nf-"@);
            assert(catalogue()[2].1.skip(catalogue()[2].1.len() - 9) =~= "-symbolic"@);
        } else if i == 3 {
            assert(name_fingerprint_slot(name_fingerprint(catalogue()[3].1)) == 3);
            assert(catalogue()[3].1.take(3) =~= "nf-"@);
            assert(catalogue()[3].1.skip(catalogue()[3].1.len() - 9) =~= "-symbolic"@);
        } else if i == 4 {
            assert(name_fingerprint_slot(name_fingerprint(catalogue()[4].1)) == 4);
            assert(catalogue()[4].1.take(3) =~= "nf-"@);
            assert(catalogue()[4].1.skip(catalogue()[4].1.len() - 9) =~= "-symbolic"@);
        } else if i == 5 {
            assert(name_fingerprint_slot(name_fingerprint(catalogue()[5].1)) == 5);
            assert(catalogue()[5].1.take(3) =~= "nf-"@);
            assert(catalogue()[5].1.skip(catalogue()[5].1.len() - 9) =~= "-symbolic"@);
        } else if i == 6 {
            assert(name_fingerprint_slot(name_fingerprint(catalogue()[6].1)) == 6);
            assert(catalogue()[6].1.take(3) =~= "nf-"@);
            assert(catalogue()[6].1.skip(catalogue()[6].1.len() - 9) =~= "-symbolic"@);
        } else if i == 7 {
            assert(name_fingerprint_slot(name_fingerprint(catalogue()[7].1)) == 7);
            assert(catalogue()[7].1.take(3) =~= "nf-"@);
            assert(catalogue()[7].1.skip(catalogue()[7].1.len() - 9) =~= "-symbolic"@);
        } else if i == 8 {
            assert(name_fingerprint_slot(name_fingerprint(catalogue()[8].1)) == 8);
            assert(catalogue()[8].1.take(3) =~= "nf-"@);
            assert(catalogue()[8].1.skip(catalogue()[8].1.len() - 9) =~= "-symbolic"@);
        } else if i == 9 {
            assert(name_fingerprint_slot(name_fingerprint(catalogue()[9].1)) == 9);
            assert(catalogue()[9].1.take(3) =~= "nf-"@);
            assert(catalogue()[9].1.skip(catalogue()[9].1.len() - 9) =~= "-symbolic"@);
        } else if i == 10 {
            assert(name_fingerprint_slot(name_fingerprint(catalogue()[10].1)) == 10);
            assert(catalogue()[10].1.take(3) =~= "nf-"@);
            assert(catalogue()[10].1.skip(catalogue()[10].1.len() - 9) =~= "-symbolic"@);
        } else if i == 11 {
            assert(name_fingerprint_slot(name_fingerprint(catalogue()[11].1)) == 11);
            assert(catalogue()[11].1.take(3) =~= "nf-"@);
            assert(catalogue()[11].1.skip(catalogue()[11].1.len() - 9) =~= "-symbolic"@);
        } else if i == 12 {
            assert(name_fingerprint_slot(name_fingerprint(catalogue()[12].1)) == 12);
            assert(catalogue()[12].1.take(3) =~= "nf-"@);
            assert(catalogue()[12].1.skip(catalogue()[12].1.len() - 9) =~= "-symbolic"@);
        } else if i == 13 {
            assert(name_fingerprint_slot(name_fingerprint(catalogue()[13].1)) == 13);
            assert(catalogue()[13].1.take(3) =~= "nf-"@);
            assert(catalogue()[13].1.skip(catalogue()[13].1.len() - 9) =~= "-symbolic"@);
        } else if i == 14 {
            assert(name_fingerprint_slot(name_fingerprint(catalogue()[14].1)) == 14);
            assert(catalogue()[14].1.take(3) =~= "nf-"@);
            assert(catalogue()[14].1.skip(catalogue()[14].1.len() - 9) =~= "-symbolic"@);
        } else if i == 15 {
            assert(name_fingerprint_slot(name_fingerprint(catalogue()[15].1)) == 15);
            assert(catalogue()[15].1.take(3) =~= "nf-"@);
            assert(catalogue()[15].1.skip(catalogue()[15].1.len() - 9) =~= "-symbolic"@);
        } else if i == 16 {
            assert(name_fingerprint_slot(name_fingerprint(catalogue()[16].1)) == 16);
            assert(catalogue()[16].1.take(3) =~= "nf-"@);
            assert(catalogue()[16].1.skip(catalogue()[16].1.len() - 9) =~= "-symbolic"@);
        } else if i == 17 {
            assert(name_fingerprint_slot(name_fingerprint(catalogue()[17].1)) == 17);
            assert(catalogue()[17].1.take(3) =~= "nf-"@);
            assert(catalogue()[17].1.skip(catalogue()[17].1.len() - 9) =~= "-symbolic"@);
        } else if i == 18 {
            assert(name_fingerprint_slot(name_fingerprint(catalogue()[18].1)) == 18);
            assert(catalogue()[18].1.take(3) =~= "nf-"@);
            assert(catalogue()[18].1.skip(catalogue()[18].1.len() - 9) =~= "-symbolic"@);
        } else if i == 19 {
            assert(name_fingerprint_slot(name_fingerprint(catalogue()[19].1)) == 19);
            assert(catalogue()[19].1.take(3) =~= "nf-"@);
            assert(catalogue()[19].1.skip(catalogue()[19].1.len() - 9) =~= "-symbolic"@);
        } else if i == 20 {
            assert(name_fingerprint_slot(name_fingerprint(catalogue()[20].1)) == 20);
            assert(catalogue()[20].1.take(3) =~= "nf-"@);
            assert(catalogue()[20].1.skip(catalogue()[20].1.len() - 9) =~= "-symbolic"@);
        } else if i == 21 {
            assert(name_fingerprint_slot(name_fingerprint(catalogue()[21].1)) == 21);
            assert(catalogue()[21].1.take(3) =~= "nf-"@);
            assert(catalogue()[21].1.skip(catalogue()[21].1.len() - 9) =~= "-symbolic"@);
        } else if i == 22 {
            assert(name_fingerprint_slot(name_fingerprint(catalogue()[22].1)) == 22);
            assert(catalogue()[22].1.take(3) =~= "nf-"@);
            assert(catalogue()[22].1.skip(catalogue()[22].1.len() - 9) =~= "-symbolic"@);
        } else if i == 23 {
            assert(name_fingerprint_slot(name_fingerprint(catalogue()[23].1)) == 23);
            assert(catalogue()[23].1.take(3) =~= "nf-"@);
            assert(catalogue()[23].1.skip(catalogue()[23].1.len() - 9) =~= "-symbolic"@);
        } else if i == 24 {
            assert(name_fingerprint_slot(name_fingerprint(catalogue()[24].1)) == 24);
            assert(catalogue()[24].1.take(3) =~= "nf-"@);
            assert(catalogue()[24].1.skip(catalogue()[24].1.len() - 9) =~= "-symbolic"@);
        } else if i == 25 {
            assert(name_fingerprint_slot(name_fingerprint(catalogue()[25].1)) == 25);
            assert(catalogue()[25].1.take(3) =~= "nf-"@);
            assert(catalogue()[25].1.skip(catalogue()[25].1.len() - 9) =~= "-symbolic"@);
        } else if i == 26 {
            assert(name_fingerprint_slot(name_fingerprint(catalogue()[26].1)) == 26);
            assert(catalogue()[26].1.take(3) =~= "nf-"@);
            assert(catalogue()[26].1.skip(catalogue()[26].1.len() - 9) =~= "-symbolic"@);
        } else if i == 27 {
            assert(name_fingerprint_slot(name_fingerprint(catalogue()[27].1)) == 27);
            assert(catalogue()[27].1.take(3) =~= "nf-"@);
            assert(catalogue()[27].1.skip(catalogue()[27].1.len() - 9) =~= "-symbolic"@);
        } else if i == 28 {
            assert(name_fingerprint_slot(name_fingerprint(catalogue()[28].1)) == 28);
            assert(catalogue()[28].1.take(3) =~= "nf-"@);
            assert(catalogue()[28].1.skip(catalogue()[28].1.len() - 9) =~= "-symbolic"@);
        } else if i == 29 {
            assert(name_fingerprint_slot(name_fingerprint(catalogue()[29].1)) == 29);
            assert(catalogue()[29].1.take(3) =~= "nf-"@);
            assert(catalogue()[29].1.skip(catalogue()[29].1.len() - 9) =~= "-symbolic"@);
        }
    }
}

} // verus!

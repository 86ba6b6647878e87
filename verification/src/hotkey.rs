//! Global hotkeys: the keys that can be bound, the binding of the two
//! actions, and how key presses and mouse moves turn into hotkey events.

use vstd::prelude::*;

verus! {

/// What a hotkey asks the clicker to do.
#[derive(Debug, Clone, Copy, PartialEq, Eq, Structural)]
pub enum HotkeyEvent {
    /// Start clicking, or stop if already clicking.
    Toggle,
    /// Record the mouse position as a new sequence row.
    Capture { x: i32, y: i32 },
}

/// The keys a hotkey can be bound to.
#[derive(Debug, Clone, Copy, PartialEq, Eq, Structural)]
pub enum HotkeyKey {
    F1,
    F2,
    F3,
    F4,
    F5,
    F6,
    F7,
    F8,
    F9,
    F10,
    F11,
    F12,
}

/// The number of a function key: 1 for F1 up to 12 for F12.
pub open spec fn key_number(k: HotkeyKey) -> nat {
    match k {
        HotkeyKey::F1 => 1,
        HotkeyKey::F2 => 2,
        HotkeyKey::F3 => 3,
        HotkeyKey::F4 => 4,
        HotkeyKey::F5 => 5,
        HotkeyKey::F6 => 6,
        HotkeyKey::F7 => 7,
        HotkeyKey::F8 => 8,
        HotkeyKey::F9 => 9,
        HotkeyKey::F10 => 10,
        HotkeyKey::F11 => 11,
        HotkeyKey::F12 => 12,
    }
}

/// The label of a key: `F` followed by its number.
pub open spec fn key_name(k: HotkeyKey) -> Seq<char> {
    seq!['F'] + crate::text::decimal(key_number(k))
}

/// All bindable keys, F1 to F12 in order.
pub open spec fn all_keys() -> Seq<HotkeyKey> {
    seq![
        HotkeyKey::F1, HotkeyKey::F2, HotkeyKey::F3, HotkeyKey::F4,
        HotkeyKey::F5, HotkeyKey::F6, HotkeyKey::F7, HotkeyKey::F8,
        HotkeyKey::F9, HotkeyKey::F10, HotkeyKey::F11, HotkeyKey::F12,
    ]
}

impl HotkeyKey {
    /// All bindable keys, F1 to F12 in order.
    pub fn all() -> (keys: Vec<HotkeyKey>)
        ensures
            keys@ == all_keys(),
    {
        let keys = vec![
            HotkeyKey::F1, HotkeyKey::F2, HotkeyKey::F3, HotkeyKey::F4,
            HotkeyKey::F5, HotkeyKey::F6, HotkeyKey::F7, HotkeyKey::F8,
            HotkeyKey::F9, HotkeyKey::F10, HotkeyKey::F11, HotkeyKey::F12,
        ];
        assert(keys@ =~= all_keys());
        keys
    }

    /// The label shown for the key.
    pub fn name(self) -> (s: &'static str)
        ensures
            s@ == key_name(self),
    {
        proof {
            reveal_with_fuel(crate::text::decimal, 2);
        }
        match self {
            HotkeyKey::F1 => { proof { reveal_strlit("F1"); } "F1" },
            HotkeyKey::F2 => { proof { reveal_strlit("F2"); } "F2" },
            HotkeyKey::F3 => { proof { reveal_strlit("F3"); } "F3" },
            HotkeyKey::F4 => { proof { reveal_strlit("F4"); } "F4" },
            HotkeyKey::F5 => { proof { reveal_strlit("F5"); } "F5" },
            HotkeyKey::F6 => { proof { reveal_strlit("F6"); } "F6" },
            HotkeyKey::F7 => { proof { reveal_strlit("F7"); } "F7" },
            HotkeyKey::F8 => { proof { reveal_strlit("F8"); } "F8" },
            HotkeyKey::F9 => { proof { reveal_strlit("F9"); } "F9" },
            HotkeyKey::F10 => { proof { reveal_strlit("F10"); } "F10" },
            HotkeyKey::F11 => { proof { reveal_strlit("F11"); } "F11" },
            HotkeyKey::F12 => { proof { reveal_strlit("F12"); } "F12" },
        }
    }
}

/// The text of a key's entry in a key picker: its name, marked when the key
/// is taken by the other hotkey.
pub open spec fn picker_label_text(k: HotkeyKey, in_use: bool) -> Seq<char> {
    if in_use {
        key_name(k) + " (in use)"@
    } else {
        key_name(k)
    }
}

impl HotkeyKey {
    /// The text of this key's entry in a key picker.
    pub fn picker_label(self, in_use: bool) -> (s: String)
        ensures
            s@ == picker_label_text(self, in_use),
    {
        let mut s = String::from_str(self.name());
        if in_use {
            s.append(" (in use)");
        }
        s
    }
}

/// Which key toggles clicking and which captures the mouse position.
#[derive(Debug, Clone, Copy, PartialEq, Eq, Structural)]
pub struct HotkeyConfig {
    pub toggle_key: HotkeyKey,
    pub capture_key: HotkeyKey,
}

impl HotkeyConfig {
    /// The two hotkeys are bound to different keys.
    pub open spec fn wf(&self) -> bool {
        self.toggle_key != self.capture_key
    }

    /// The key picker for one hotkey offers every key but the other
    /// hotkey's: picking that one is not possible.
    pub fn key_available(&self, for_toggle: bool, key: HotkeyKey) -> (b: bool)
        ensures
            b == (if for_toggle { key != self.capture_key } else { key != self.toggle_key }),
    {
        if for_toggle {
            key != self.capture_key
        } else {
            key != self.toggle_key
        }
    }

    /// Binds the toggle hotkey to `key`, unless the capture hotkey has it.
    pub fn choose_toggle_key(&mut self, key: HotkeyKey) -> (changed: bool)
        ensures
            key != old(self).capture_key ==> final(self).toggle_key == key,
            key == old(self).capture_key ==> final(self).toggle_key == old(self).toggle_key,
            final(self).capture_key == old(self).capture_key,
            changed == (final(self).toggle_key != old(self).toggle_key),
            old(self).wf() ==> final(self).wf(),
    {
        if key != self.capture_key && key != self.toggle_key {
            self.toggle_key = key;
            true
        } else {
            false
        }
    }

    /// Binds the capture hotkey to `key`, unless the toggle hotkey has it.
    pub fn choose_capture_key(&mut self, key: HotkeyKey) -> (changed: bool)
        ensures
            key != old(self).toggle_key ==> final(self).capture_key == key,
            key == old(self).toggle_key ==> final(self).capture_key == old(self).capture_key,
            final(self).toggle_key == old(self).toggle_key,
            changed == (final(self).capture_key != old(self).capture_key),
            old(self).wf() ==> final(self).wf(),
    {
        if key != self.toggle_key && key != self.capture_key {
            self.capture_key = key;
            true
        } else {
            false
        }
    }

    /// The hotkey event a press of `key` gives, with the mouse last seen at
    /// `(x, y)`: the toggle key wins over the capture key, other keys give
    /// nothing.
    pub fn event_for_key(&self, key: HotkeyKey, x: i32, y: i32) -> (event: Option<HotkeyEvent>)
        ensures
            key == self.toggle_key ==> event == Some(HotkeyEvent::Toggle),
            key != self.toggle_key && key == self.capture_key ==> event == Some(
                HotkeyEvent::Capture { x, y },
            ),
            key != self.toggle_key && key != self.capture_key ==> event is None,
    {
        if key == self.toggle_key {
            Some(HotkeyEvent::Toggle)
        } else if key == self.capture_key {
            Some(HotkeyEvent::Capture { x, y })
        } else {
            None
        }
    }
}

impl Default for HotkeyConfig {
    /// F8 toggles clicking, F6 captures the mouse position.
    fn default() -> (config: Self)
        ensures
            config.toggle_key == HotkeyKey::F8,
            config.capture_key == HotkeyKey::F6,
            config.wf(),
    {
        HotkeyConfig { toggle_key: HotkeyKey::F8, capture_key: HotkeyKey::F6 }
    }
}

/// What the hotkey listener remembers between input events: the last
/// position the mouse was seen at.
pub struct HotkeyListener {
    pub last_x: i32,
    pub last_y: i32,
}

impl HotkeyListener {
    /// A listener that has not seen the mouse yet: it reports `(0, 0)`.
    pub fn new() -> (listener: HotkeyListener)
        ensures
            listener.last_x == 0,
            listener.last_y == 0,
    {
        HotkeyListener { last_x: 0, last_y: 0 }
    }

    /// The mouse moved to `(x, y)`.
    pub fn on_mouse_move(&mut self, x: i32, y: i32)
        ensures
            final(self).last_x == x,
            final(self).last_y == y,
    {
        self.last_x = x;
        self.last_y = y;
    }

    /// A key was pressed: the event to send, if any. A capture carries the
    /// last mouse position seen.
    pub fn on_key_press(&self, key: HotkeyKey, config: &HotkeyConfig) -> (event: Option<HotkeyEvent>)
        ensures
            key == config.toggle_key ==> event == Some(HotkeyEvent::Toggle),
            key != config.toggle_key && key == config.capture_key ==> event == Some(
                HotkeyEvent::Capture { x: self.last_x, y: self.last_y },
            ),
            key != config.toggle_key && key != config.capture_key ==> event is None,
    {
        config.event_for_key(key, self.last_x, self.last_y)
    }
}

} // verus!

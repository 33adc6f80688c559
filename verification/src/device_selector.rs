use vstd::prelude::*;
use crate::action::Action;
use crate::keys::{Key, KeyInput};

verus! {

/// The output-device picker: the devices' names, the default device's
/// name, the highlighted row and the device chosen last (by name).
pub struct DeviceSelector {
    pub devices: Vec<String>,
    pub default_name: String,
    pub highlighted: Option<usize>,
    pub selected: Option<String>,
}

/// The names of a list of strings.
pub open spec fn names(v: Seq<String>) -> Seq<Seq<char>> {
    v.map_values(|s: String| s@)
}

/// The row after `i`, wrapping to the first.
pub open spec fn next_row(sel: Option<usize>, len: nat) -> usize {
    match sel {
        Some(i) => if i + 1 >= len { 0 } else { (i + 1) as usize },
        None => 0,
    }
}

/// The row before `i`, wrapping to the last.
pub open spec fn previous_row(sel: Option<usize>, len: nat) -> usize {
    match sel {
        Some(i) => if i == 0 { (len - 1) as usize } else { (i - 1) as usize },
        None => 0,
    }
}

fn position_of(v: &Vec<String>, name: &String) -> (r: Option<usize>)
    ensures
        match r {
            Some(i) => i < v@.len() && v@[i as int]@ == name@ && names(v@).contains(name@),
            None => !names(v@).contains(name@),
        },
{
    let mut i: usize = 0;
    while i < v.len()
        invariant
            i <= v@.len(),
            forall|j: int| 0 <= j < i ==> v@[j]@ != name@,
        decreases v@.len() - i,
    {
        if v[i] == *name {
            assert(names(v@)[i as int] == name@);
            return Some(i);
        }
        i = i + 1;
    }
    proof {
        if names(v@).contains(name@) {
            let k = choose|k: int| 0 <= k < names(v@).len() && names(v@)[k] == name@;
            assert(v@[k]@ == name@);
        }
    }
    None
}

impl DeviceSelector {
    /// An empty picker with the first row highlighted; the default device
    /// is called `none` until the list is refreshed.
    pub fn new() -> (s: Self)
        ensures
            s.devices@.len() == 0,
            s.default_name@ == "none"@,
            s.highlighted == Some(0usize),
            s.selected is None,
    {
        proof {
            reveal_strlit("none");
        }
        DeviceSelector {
            devices: Vec::new(),
            default_name: String::from_str("none"),
            highlighted: Some(0),
            selected: None,
        }
    }

    /// Takes a fresh device list: the first row is highlighted, and the
    /// device chosen before is forgotten when it is no longer listed.
    pub fn refresh_device_list(&mut self, devices: Vec<String>, default_name: String)
        ensures
            final(self).devices@ == devices@,
            final(self).default_name@ == default_name@,
            final(self).highlighted == Some(0usize),
            match old(self).selected {
                Some(d) => if names(devices@).contains(d@) {
                    final(self).selected == Some(d)
                } else {
                    final(self).selected is None
                },
                None => final(self).selected is None,
            },
    {
        self.devices = devices;
        self.default_name = default_name;
        self.highlighted = Some(0);
        let keep = match &self.selected {
            Some(d) => position_of(&self.devices, d).is_some(),
            None => false,
        };
        if !keep {
            self.selected = None;
        }
    }

    /// Chooses the highlighted device (the default one for a row past the
    /// list); nothing is chosen without a highlighted row.
    pub fn set_selected_device(&mut self)
        ensures
            final(self).devices == old(self).devices,
            final(self).default_name == old(self).default_name,
            final(self).highlighted == old(self).highlighted,
            match old(self).highlighted {
                Some(i) => final(self).selected matches Some(n) && n@ == if i < old(self).devices@.len() {
                    old(self).devices@[i as int]@
                } else {
                    old(self).default_name@
                },
                None => final(self).selected is None,
            },
    {
        self.selected = match self.highlighted {
            Some(i) => Some(if i < self.devices.len() {
                self.devices[i].clone()
            } else {
                self.default_name.clone()
            }),
            None => None,
        };
    }

    /// Moves the highlight up one row, wrapping to the last.
    pub fn select_previous(&mut self)
        requires
            old(self).highlighted == Some(0usize) ==> old(self).devices@.len() > 0,
        ensures
            final(self).highlighted == Some(previous_row(old(self).highlighted, old(self).devices@.len())),
            final(self).devices == old(self).devices,
            final(self).default_name == old(self).default_name,
            final(self).selected == old(self).selected,
    {
        let i = match self.highlighted {
            Some(i) => if i == 0 { self.devices.len() - 1 } else { i - 1 },
            None => 0,
        };
        self.highlighted = Some(i);
    }

    /// Moves the highlight down one row, wrapping to the first.
    pub fn select_next(&mut self)
        requires
            old(self).highlighted != Some(usize::MAX),
        ensures
            final(self).highlighted == Some(next_row(old(self).highlighted, old(self).devices@.len())),
            final(self).devices == old(self).devices,
            final(self).default_name == old(self).default_name,
            final(self).selected == old(self).selected,
    {
        let i = match self.highlighted {
            Some(i) => if i + 1 >= self.devices.len() { 0 } else { i + 1 },
            None => 0,
        };
        self.highlighted = Some(i);
    }

    /// The picker's keys: `q` and Esc close it; up/`k` and down/`j` move
    /// the highlight; Enter chooses the highlighted device, switches output
    /// to its row and closes the picker.
    pub fn handle_key_event(&mut self, k: KeyInput) -> (a: Action)
        requires
            (k.key == Key::Up || k.key == Key::Char('k')) && old(self).highlighted == Some(0usize)
                ==> old(self).devices@.len() > 0,
            (k.key == Key::Down || k.key == Key::Char('j')) ==> old(self).highlighted != Some(usize::MAX),
        ensures
            match k.key {
                Key::Char('q') | Key::Esc => a == Action::PopLayer && *final(self) == *old(self),
                Key::Up | Key::Char('k') => a == Action::NoOp
                    && final(self).highlighted == Some(previous_row(old(self).highlighted, old(self).devices@.len())),
                Key::Down | Key::Char('j') => a == Action::NoOp
                    && final(self).highlighted == Some(next_row(old(self).highlighted, old(self).devices@.len())),
                Key::Enter => (a matches Action::Batch(v) && v@.len() == 2
                    && v@[0] == Action::ChangeOutputDevice(match old(self).highlighted {
                        Some(i) => i as u32,
                        None => 0u32,
                    })
                    && v@[1] == Action::PopLayer)
                    && final(self).highlighted == old(self).highlighted,
                _ => a == Action::NoOp && *final(self) == *old(self),
            },
            final(self).devices == old(self).devices,
            final(self).default_name == old(self).default_name,
    {
        match k.key {
            Key::Char('q') | Key::Esc => Action::PopLayer,
            Key::Up | Key::Char('k') => {
                self.select_previous();
                Action::NoOp
            },
            Key::Down | Key::Char('j') => {
                self.select_next();
                Action::NoOp
            },
            Key::Enter => {
                self.set_selected_device();
                let index: u32 = match self.highlighted {
                    Some(i) => i as u32,
                    None => 0,
                };
                Action::Batch(vec![Action::ChangeOutputDevice(index), Action::PopLayer])
            },
            _ => Action::NoOp,
        }
    }

    /// The device whose row carries the playing mark: the one chosen, else
    /// the default one.
    pub fn marked_name(&self) -> (n: &String)
        ensures
            n@ == match self.selected {
                Some(s) => s@,
                None => self.default_name@,
            },
    {
        match &self.selected {
            Some(s) => s,
            None => &self.default_name,
        }
    }
}


/// Moving the highlight down and back up returns to the same row.
pub proof fn lemma_next_then_previous_row(i: usize, len: nat)
    requires
        i < len <= usize::MAX,
    ensures
        previous_row(Some(next_row(Some(i), len)), len) == i,
{
}

/// Moving the highlight up and back down returns to the same row.
pub proof fn lemma_previous_then_next_row(i: usize, len: nat)
    requires
        i < len <= usize::MAX,
    ensures
        next_row(Some(previous_row(Some(i), len)), len) == i,
{
}


/// Up moves the highlight one row toward the top and down one row toward
/// the bottom, each wrapping at its end; without a highlight either starts
/// at the first row.
pub proof fn lemma_row_directions(i: usize, len: nat)
    requires
        i < len <= usize::MAX,
    ensures
        previous_row(Some(i), len) == if i > 0 { (i - 1) as usize } else { (len - 1) as usize },
        next_row(Some(i), len) == if i + 1 < len { (i + 1) as usize } else { 0usize },
        previous_row(None, len) == 0,
        next_row(None, len) == 0,
{
}

} // verus!

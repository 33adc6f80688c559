use vstd::prelude::*;
use crate::action::{Action, Layer};
use crate::playback::PlaybackEvent;
use crate::playlist::{
    Playlist, TrackLabel, search_result, search_next_result, search_prev_result,
    selected_after_next, selected_after_previous, selected_after_index,
};
use crate::search_widget::SearchWidget;
use crate::keys::{Key, KeyInput, playlist_action_spec, playlist_key_action};

verus! {

/// What is left for the application to do once an action has updated the
/// user interface's own state.
#[derive(Clone, Copy, Debug, PartialEq, Eq, Structural)]
pub enum Effect {
    /// Play or pause; with nothing loaded, play this selection.
    TogglePlayPause(Option<usize>),
    /// Stop playback and clear the media controls.
    Stop,
    NextTrack,
    PreviousTrack,
    /// Play the track selected when the action came.
    PlaySelected(Option<usize>),
    /// Switch output to the device at this index of the selector.
    ChangeOutputDevice(u32),
    /// Refresh the output selector's device list (the selector is open).
    RefreshDevices,
    /// Stop playback, clear the media controls and leave.
    Quit,
}

/// The state the user interface keeps across actions: the stack of open
/// layers (the last one receives the keys) and the status line.
pub struct AppState {
    pub layers: Vec<Layer>,
    pub status_message: Option<String>,
}

/// What actions read and change, as plain values: the layer stack, the
/// playlist selection, and the search field's text, cursor, match and last
/// query.
pub open spec fn ui_view(layers: Seq<Layer>, playlist: Playlist, search: SearchWidget)
    -> (Seq<Layer>, Option<usize>, Seq<char>, usize, Option<usize>, Seq<char>)
{
    (layers, playlist.selected, search.input@, search.cursor_position, search.search_result_index, search.last_query@)
}

/// The state after one action and the effects it leaves to the application,
/// in order. A batch is its actions one after another.
pub open spec fn action_step(
    s: (Seq<Layer>, Option<usize>, Seq<char>, usize, Option<usize>, Seq<char>),
    action: Action,
    tracks: Seq<TrackLabel>,
    count: usize,
) -> ((Seq<Layer>, Option<usize>, Seq<char>, usize, Option<usize>, Seq<char>), Seq<Effect>)
    decreases action,
{
    let (layers, sel, input, cursor, found, last) = s;
    match action {
        Action::NoOp => (s, Seq::empty()),
        Action::TogglePlayPause => (s, seq![Effect::TogglePlayPause(sel)]),
        Action::Stop => (s, seq![Effect::Stop]),
        Action::NextTrack => (s, seq![Effect::NextTrack]),
        Action::PreviousTrack => (s, seq![Effect::PreviousTrack]),
        Action::PlaySelected => (s, seq![Effect::PlaySelected(sel)]),
        Action::ChangeOutputDevice(i) => (s, seq![Effect::ChangeOutputDevice(i)]),
        Action::SelectUp => ((layers, selected_after_previous(sel, count), input, cursor, found, last), Seq::empty()),
        Action::SelectDown => ((layers, selected_after_next(sel, count), input, cursor, found, last), Seq::empty()),
        Action::PushLayer(Layer::Search) =>
            ((layers.push(Layer::Search), sel, Seq::empty(), 0usize, None, last), Seq::empty()),
        Action::PushLayer(Layer::OutputSelector) =>
            ((layers.push(Layer::OutputSelector), sel, input, cursor, found, last), seq![Effect::RefreshDevices]),
        Action::PopLayer =>
            ((if layers.len() == 0 { layers } else { layers.drop_last() }, sel, input, cursor, found, last), Seq::empty()),
        Action::SearchQuery(q) => {
            let r = search_result(tracks, q@);
            ((layers, sel, input, cursor, r, if r is Some { input } else { last }), Seq::empty())
        },
        Action::SearchNext(q) => match search_next_result(tracks, sel, q@) {
            Some(i) => ((layers, selected_after_index(sel, count, i), input, cursor, found, last), Seq::empty()),
            None => (s, Seq::empty()),
        },
        Action::SearchPrev(q) => match search_prev_result(tracks, sel, q@) {
            Some(i) => ((layers, selected_after_index(sel, count, i), input, cursor, found, last), Seq::empty()),
            None => (s, Seq::empty()),
        },
        Action::CommitSearch(Some(i)) => ((layers, selected_after_index(sel, count, i), input, cursor, found, last), Seq::empty()),
        Action::CommitSearch(None) => (s, Seq::empty()),
        Action::Quit => (s, seq![Effect::Quit]),
        Action::Batch(v) => actions_step(s, v@, tracks, count),
    }
}

/// The state and effects after a sequence of actions.
pub open spec fn actions_step(
    s: (Seq<Layer>, Option<usize>, Seq<char>, usize, Option<usize>, Seq<char>),
    actions: Seq<Action>,
    tracks: Seq<TrackLabel>,
    count: usize,
) -> ((Seq<Layer>, Option<usize>, Seq<char>, usize, Option<usize>, Seq<char>), Seq<Effect>)
    decreases actions,
{
    if actions.len() == 0 {
        (s, Seq::empty())
    } else {
        let (s1, e1) = action_step(s, actions[0], tracks, count);
        let (s2, e2) = actions_step(s1, actions.subrange(1, actions.len() as int), tracks, count);
        (s2, e1 + e2)
    }
}

/// Whether an action can be applied in state `s`: moving the selection
/// needs a track or no selection, and searching on with a query needs a
/// selection that has a successor index; a batch needs each of its actions
/// to be applicable where it comes.
pub open spec fn action_defined(
    s: (Seq<Layer>, Option<usize>, Seq<char>, usize, Option<usize>, Seq<char>),
    action: Action,
    tracks: Seq<TrackLabel>,
    count: usize,
) -> bool
    decreases action,
{
    match action {
        Action::SelectUp | Action::SelectDown => count > 0 || s.1 is None,
        Action::SearchNext(q) => q@.len() > 0 ==> s.1 != Some(usize::MAX),
        Action::Batch(v) => actions_defined(s, v@, tracks, count),
        _ => true,
    }
}

pub open spec fn actions_defined(
    s: (Seq<Layer>, Option<usize>, Seq<char>, usize, Option<usize>, Seq<char>),
    actions: Seq<Action>,
    tracks: Seq<TrackLabel>,
    count: usize,
) -> bool
    decreases actions,
{
    actions.len() == 0 || (
        action_defined(s, actions[0], tracks, count)
        && actions_defined(action_step(s, actions[0], tracks, count).0, actions.subrange(1, actions.len() as int), tracks, count)
    )
}

/// Opening the search and closing it again leaves the layers as they were.
pub proof fn lemma_open_then_close_search(
    s: (Seq<Layer>, Option<usize>, Seq<char>, usize, Option<usize>, Seq<char>),
    tracks: Seq<TrackLabel>,
    count: usize,
)
    ensures
        action_step(action_step(s, Action::PushLayer(Layer::Search), tracks, count).0, Action::PopLayer, tracks, count).0.0 == s.0,
{
    assert(s.0.push(Layer::Search).drop_last() =~= s.0);
}

/// The selection's course and whether an action can be applied depend on
/// the selection alone, not on the layers or the search field.
pub proof fn lemma_selection_only(
    s: (Seq<Layer>, Option<usize>, Seq<char>, usize, Option<usize>, Seq<char>),
    t: (Seq<Layer>, Option<usize>, Seq<char>, usize, Option<usize>, Seq<char>),
    action: Action,
    tracks: Seq<TrackLabel>,
    count: usize,
)
    requires
        s.1 == t.1,
    ensures
        action_step(s, action, tracks, count).0.1 == action_step(t, action, tracks, count).0.1,
        action_defined(s, action, tracks, count) == action_defined(t, action, tracks, count),
    decreases action,
{
    match action {
        Action::Batch(v) => {
            assert(decreases_to!(action => v@)) by {
                assert(decreases_to!(v => v@));
            }
            lemma_selection_only_seq(s, t, v@, tracks, count);
        },
        _ => {},
    }
}

proof fn lemma_selection_only_seq(
    s: (Seq<Layer>, Option<usize>, Seq<char>, usize, Option<usize>, Seq<char>),
    t: (Seq<Layer>, Option<usize>, Seq<char>, usize, Option<usize>, Seq<char>),
    actions: Seq<Action>,
    tracks: Seq<TrackLabel>,
    count: usize,
)
    requires
        s.1 == t.1,
    ensures
        actions_step(s, actions, tracks, count).0.1 == actions_step(t, actions, tracks, count).0.1,
        actions_defined(s, actions, tracks, count) == actions_defined(t, actions, tracks, count),
    decreases actions,
{
    if actions.len() > 0 {
        lemma_selection_only(s, t, actions[0], tracks, count);
        lemma_selection_only_seq(
            action_step(s, actions[0], tracks, count).0,
            action_step(t, actions[0], tracks, count).0,
            actions.subrange(1, actions.len() as int),
            tracks,
            count,
        );
    }
}

/// A state with the given selection and nothing else.
pub open spec fn selection_state(sel: Option<usize>) -> (Seq<Layer>, Option<usize>, Seq<char>, usize, Option<usize>, Seq<char>) {
    (Seq::empty(), sel, Seq::empty(), 0usize, None, Seq::empty())
}

/// Whether `action` can be applied with the selection `selected` (see
/// `action_defined`), and the selection it leaves when it can.
pub fn action_allowed(action: &Action, selected: Option<usize>, count: usize, tracks: &Vec<TrackLabel>) -> (r: (bool, Option<usize>))
    requires
        tracks@.len() == count,
    ensures
        forall|s: (Seq<Layer>, Option<usize>, Seq<char>, usize, Option<usize>, Seq<char>)| s.1 == selected ==> {
            &&& r.0 == #[trigger] action_defined(s, *action, tracks@, count)
            &&& r.0 ==> r.1 == action_step(s, *action, tracks@, count).0.1
        },
    decreases *action,
{
    let p = Playlist { selected, count };
    match action {
        Action::SelectUp => {
            if !(count > 0 || selected.is_none()) {
                return (false, selected);
            }
            let mut q = Playlist { selected, count };
            q.select_previous();
            proof {
                assert forall|s: (Seq<Layer>, Option<usize>, Seq<char>, usize, Option<usize>, Seq<char>)| s.1 == selected
                    implies action_defined(s, *action, tracks@, count) && q.selected == action_step(s, *action, tracks@, count).0.1 by {
                    let (layers, sel, input, cursor, found, last) = s;
                    assert(action_step(s, *action, tracks@, count).0 == (layers, selected_after_previous(sel, count), input, cursor, found, last));
                }
            }
            (true, q.selected)
        },
        Action::SelectDown => {
            if !(count > 0 || selected.is_none()) {
                return (false, selected);
            }
            let mut q = Playlist { selected, count };
            q.select_next();
            (true, q.selected)
        },
        Action::SearchNext(query) => {
            if !query.as_str().is_empty() && selected == Some(usize::MAX) {
                return (false, selected);
            }
            match p.search_next(tracks, selected, query.as_str()) {
                Some(i) => {
                    let mut q = Playlist { selected, count };
                    q.select_index(i);
                    (true, q.selected)
                },
                None => (true, selected),
            }
        },
        Action::SearchPrev(query) => {
            match p.search_prev(tracks, selected, query.as_str()) {
                Some(i) => {
                    let mut q = Playlist { selected, count };
                    q.select_index(i);
                    (true, q.selected)
                },
                None => (true, selected),
            }
        },
        Action::CommitSearch(index) => {
            match index {
                Some(i) => {
                    let mut q = Playlist { selected, count };
                    q.select_index(*i);
                    (true, q.selected)
                },
                None => (true, selected),
            }
        },
        Action::Batch(actions) => {
            let ghost all = actions@;
            let mut sel = selected;
            let mut i: usize = 0;
            proof {
                assert(all.skip(0) =~= all);
            }
            while i < actions.len()
                invariant
                    i <= all.len(),
                    all == actions@,
                    tracks@.len() == count,
                    *action == Action::Batch(*actions),
                    actions_defined(selection_state(selected), all, tracks@, count)
                        == actions_defined(selection_state(sel), all.skip(i as int), tracks@, count),
                    actions_step(selection_state(selected), all, tracks@, count).0.1
                        == actions_step(selection_state(sel), all.skip(i as int), tracks@, count).0.1,
                decreases all.len() - i,
            {
                proof {
                    assert(decreases_to!(*action => (*action)->Batch_0));
                    assert((*action)->Batch_0 == *actions);
                    assert(decreases_to!(*actions => actions@));
                    assert(decreases_to!(actions@ => actions@[i as int]));
                    assert(decreases_to!(*action => actions@[i as int]));
                }
                let (ok, next) = action_allowed(&actions[i], sel, count, tracks);
                let ghost t = selection_state(sel);
                let ghost suffix = all.skip(i as int);
                proof {
                    assert(suffix[0] == all[i as int]);
                    assert(suffix.subrange(1, suffix.len() as int) =~= all.skip(i + 1));
                    assert(ok == action_defined(t, all[i as int], tracks@, count));
                }
                if !ok {
                    proof {
                        assert(!actions_defined(t, suffix, tracks@, count));
                        assert forall|s: (Seq<Layer>, Option<usize>, Seq<char>, usize, Option<usize>, Seq<char>)| s.1 == selected
                            implies !action_defined(s, *action, tracks@, count) by {
                            lemma_selection_only(s, selection_state(selected), *action, tracks@, count);
                        }
                    }
                    return (false, sel);
                }
                proof {
                    let t1 = action_step(t, all[i as int], tracks@, count).0;
                    assert(t1.1 == next);
                    lemma_selection_only_seq(t1, selection_state(next), all.skip(i + 1), tracks@, count);
                }
                sel = next;
                i = i + 1;
            }
            proof {
                assert(all.skip(all.len() as int) =~= Seq::<Action>::empty());
                assert forall|s: (Seq<Layer>, Option<usize>, Seq<char>, usize, Option<usize>, Seq<char>)| s.1 == selected
                    implies action_defined(s, *action, tracks@, count) && sel == action_step(s, *action, tracks@, count).0.1 by {
                    lemma_selection_only(s, selection_state(selected), *action, tracks@, count);
                }
            }
            (true, sel)
        },
        _ => {
            proof {
                assert forall|s: (Seq<Layer>, Option<usize>, Seq<char>, usize, Option<usize>, Seq<char>)| s.1 == selected
                    implies action_defined(s, *action, tracks@, count) && selected == action_step(s, *action, tracks@, count).0.1 by {
                    match *action {
                        Action::SearchQuery(q) => {
                            let r = search_result(tracks@, q@);
                            assert(action_step(s, *action, tracks@, count).0.1 == s.1);
                        },
                        Action::PushLayer(l) => {
                            assert(action_step(s, *action, tracks@, count).0.1 == s.1);
                        },
                        _ => {},
                    }
                }
            }
            (true, selected)
        },
    }
}

impl AppState {
    pub fn new() -> (s: Self)
        ensures
            s.layers@ == Seq::<Layer>::empty(),
            s.status_message is None,
    {
        AppState { layers: Vec::new(), status_message: None }
    }

    /// The layer that receives the keys, if any is open.
    pub fn top_layer(&self) -> (l: Option<Layer>)
        ensures
            l == if self.layers@.len() == 0 { None } else { Some(self.layers@.last()) },
    {
        if self.layers.len() == 0 {
            None
        } else {
            Some(self.layers[self.layers.len() - 1])
        }
    }

    /// Opens `layer` on top of the others.
    pub fn push_layer(&mut self, layer: Layer)
        ensures
            final(self).layers@ == old(self).layers@.push(layer),
            final(self).status_message == old(self).status_message,
    {
        self.layers.push(layer);
    }

    /// Applies `action` to the layer stack, the playlist selection and the
    /// search field, and returns what remains for the application to do, in
    /// order (see `action_step`). Selection moves; searching from the field
    /// records its first match; searching on with a query selects the next
    /// (or previous) match; committing a search selects its match; opening
    /// the search empties the field; opening the output selector asks for a
    /// device refresh; playback requests carry the selection of their
    /// moment; a batch applies its actions in turn. The application carries
    /// out the effects in order; one that fails (a device refresh, a stop)
    /// ends the application with its error, as a failed action does, so the
    /// state left behind is never used.
    pub fn process_action(
        &mut self,
        action: Action,
        playlist: &mut Playlist,
        tracks: &Vec<TrackLabel>,
        search_widget: &mut SearchWidget,
    ) -> (effects: Vec<Effect>)
        requires
            tracks@.len() == old(playlist).count,
            action_defined(ui_view(old(self).layers@, *old(playlist), *old(search_widget)), action, tracks@, old(playlist).count),
        ensures
            final(self).status_message == old(self).status_message,
            final(playlist).count == old(playlist).count,
            ui_view(final(self).layers@, *final(playlist), *final(search_widget))
                == action_step(ui_view(old(self).layers@, *old(playlist), *old(search_widget)), action, tracks@, old(playlist).count).0,
            effects@ == action_step(ui_view(old(self).layers@, *old(playlist), *old(search_widget)), action, tracks@, old(playlist).count).1,
        decreases action,
    {
        let ghost whole = action;
        match action {
            Action::NoOp => Vec::new(),
            Action::TogglePlayPause => vec![Effect::TogglePlayPause(playlist.selected_index())],
            Action::Stop => vec![Effect::Stop],
            Action::NextTrack => vec![Effect::NextTrack],
            Action::PreviousTrack => vec![Effect::PreviousTrack],
            Action::PlaySelected => vec![Effect::PlaySelected(playlist.selected_index())],
            Action::ChangeOutputDevice(i) => vec![Effect::ChangeOutputDevice(i)],
            Action::SelectUp => {
                playlist.select_previous();
                Vec::new()
            },
            Action::SelectDown => {
                playlist.select_next();
                Vec::new()
            },
            Action::PushLayer(layer) => {
                match layer {
                    Layer::Search => {
                        search_widget.clear();
                        self.layers.push(Layer::Search);
                        Vec::new()
                    },
                    Layer::OutputSelector => {
                        self.layers.push(Layer::OutputSelector);
                        vec![Effect::RefreshDevices]
                    },
                }
            },
            Action::PopLayer => {
                self.layers.pop();
                Vec::new()
            },
            Action::SearchQuery(query) => {
                let result = playlist.search(tracks, query.as_str());
                search_widget.set_search_result(result);
                Vec::new()
            },
            Action::SearchNext(query) => {
                let current_index = playlist.selected_index();
                match playlist.search_next(tracks, current_index, query.as_str()) {
                    Some(index) => playlist.select_index(index),
                    None => {},
                }
                Vec::new()
            },
            Action::SearchPrev(query) => {
                let current_index = playlist.selected_index();
                match playlist.search_prev(tracks, current_index, query.as_str()) {
                    Some(index) => playlist.select_index(index),
                    None => {},
                }
                Vec::new()
            },
            Action::CommitSearch(index) => {
                match index {
                    Some(idx) => playlist.select_index(idx),
                    None => {},
                }
                Vec::new()
            },
            Action::Quit => vec![Effect::Quit],
            Action::Batch(actions) => {
                let ghost all = actions@;
                let ghost start = ui_view(self.layers@, *playlist, *search_widget);
                let ghost count = playlist.count;
                let mut rest = actions;
                let mut effects: Vec<Effect> = Vec::new();
                let ghost mut k: int = 0;
                proof {
                    assert(all.subrange(0, all.len() as int) =~= all);
                }
                while rest.len() > 0
                    invariant
                        0 <= k <= all.len(),
                        rest@ == all.subrange(k, all.len() as int),
                        whole == Action::Batch(actions),
                        whole == action,
                        actions@ == all,
                        tracks@.len() == count,
                        playlist.count == count,
                        self.status_message == old(self).status_message,
                        action_step(start, whole, tracks@, count) == ({
                            let r = actions_step(ui_view(self.layers@, *playlist, *search_widget), rest@, tracks@, count);
                            (r.0, effects@ + r.1)
                        }),
                        actions_defined(ui_view(self.layers@, *playlist, *search_widget), rest@, tracks@, count),
                    decreases rest.len(),
                {
                    let ghost before = rest@;
                    let a = rest.remove(0);
                    proof {
                        assert(k < all.len());
                        assert(a == all[k]);
                        assert(before.subrange(1, before.len() as int) =~= all.subrange(k + 1, all.len() as int));
                        assert(decreases_to!(whole => a)) by {
                            assert(decreases_to!(actions => actions@));
                            assert(decreases_to!(actions@ => actions@[k]));
                        }
                        assert(decreases_to!(action => a));
                    }
                    let ghost mid = ui_view(self.layers@, *playlist, *search_widget);
                    let mut e = self.process_action(a, playlist, tracks, search_widget);
                    let ghost e_view = e@;
                    let ghost prev = effects@;
                    effects.append(&mut e);
                    proof {
                        assert(effects@ == prev + e_view);
                        let r1 = action_step(mid, a, tracks@, count);
                        let r2 = actions_step(r1.0, rest@, tracks@, count);
                        assert(actions_step(mid, before, tracks@, count) == (r2.0, r1.1 + r2.1));
                        assert(prev + (r1.1 + r2.1) =~= (prev + r1.1) + r2.1);
                        k = k + 1;
                    }
                }
                proof {
                    assert(actions_step(ui_view(self.layers@, *playlist, *search_widget), rest@, tracks@, count).1 =~= Seq::<Effect>::empty());
                    assert(effects@ + Seq::<Effect>::empty() =~= effects@);
                }
                effects
            },
        }
    }

    /// Records the outcome of a playback request on the status line: a new
    /// track clears it, an error shows its message, anything else leaves it.
    /// Returns whether a new track started (the media controls then follow).
    pub fn record_playback_result(&mut self, result: Result<PlaybackEvent, String>) -> (changed: bool)
        ensures
            changed == (result == Ok::<PlaybackEvent, String>(PlaybackEvent::TrackChanged)),
            final(self).layers == old(self).layers,
            match result {
                Ok(PlaybackEvent::TrackChanged) => final(self).status_message is None,
                Err(m) => final(self).status_message == Some(m),
                _ => final(self).status_message == old(self).status_message,
            },
    {
        match result {
            Ok(PlaybackEvent::TrackChanged) => {
                self.status_message = None;
                true
            },
            Err(m) => {
                self.status_message = Some(m);
                false
            },
            Ok(_) => false,
        }
    }
}


/// The action of a key when no layer is open: Control-N and Control-P
/// search on (forward and back) with the last query that found a track;
/// every other key goes to the playlist.
pub fn base_layer_action(k: KeyInput, last_query: &str) -> (a: Action)
    ensures
        if k.ctrl && k.key == Key::Char('n') {
            a matches Action::SearchNext(q) && q@ == last_query@
        } else if k.ctrl && k.key == Key::Char('p') {
            a matches Action::SearchPrev(q) && q@ == last_query@
        } else {
            a == playlist_action_spec(k)
        },
        k.key == Key::Up || k.key == Key::Char('k') ==> a == Action::SelectUp,
        k.key == Key::Down || k.key == Key::Char('j') ==> a == Action::SelectDown,
        k.key == Key::Enter ==> a == Action::PlaySelected,
{
    if k.ctrl {
        match k.key {
            Key::Char('n') => return Action::SearchNext(String::from_str(last_query)),
            Key::Char('p') => return Action::SearchPrev(String::from_str(last_query)),
            _ => {},
        }
    }
    playlist_key_action(k)
}

/// What the main loop does with a key event before any layer sees it.
#[derive(Clone, Copy, Debug, PartialEq, Eq, Structural)]
pub enum KeyRoute {
    /// A release or repeat: ignored.
    Ignore,
    /// Control-C: quit at once.
    Interrupt,
    /// Hand the key to the top layer.
    Dispatch,
}

/// Only presses count; Control-C quits whatever layer is open.
pub fn route_key(k: KeyInput) -> (r: KeyRoute)
    ensures
        r == if !k.press {
            KeyRoute::Ignore
        } else if k.key == Key::Char('c') && k.ctrl {
            KeyRoute::Interrupt
        } else {
            KeyRoute::Dispatch
        },
{
    if !k.press {
        KeyRoute::Ignore
    } else {
        match k.key {
            Key::Char('c') => if k.ctrl { KeyRoute::Interrupt } else { KeyRoute::Dispatch },
            _ => KeyRoute::Dispatch,
        }
    }
}


/// On the playlist screen Up and `k` move the selection one entry toward the
/// top (wrapping from the first to the last), Down and `j` one entry toward
/// the bottom (wrapping from the last to the first).
pub proof fn lemma_playlist_keys_move_selection(
    s: (Seq<Layer>, Option<usize>, Seq<char>, usize, Option<usize>, Seq<char>),
    k: KeyInput,
    tracks: Seq<TrackLabel>,
    count: usize,
    i: usize,
)
    requires
        s.1 == Some(i),
        i < count,
    ensures
        k.key == Key::Up || k.key == Key::Char('k') ==>
            action_step(s, playlist_action_spec(k), tracks, count).0.1 == Some(if i == 0 { (count - 1) as usize } else { (i - 1) as usize }),
        k.key == Key::Down || k.key == Key::Char('j') ==>
            action_step(s, playlist_action_spec(k), tracks, count).0.1 == Some(if i + 1 == count { 0usize } else { (i + 1) as usize }),
{
}

/// Moving down and then up on the playlist screen returns to the same entry.
pub proof fn lemma_down_then_up_returns(
    s: (Seq<Layer>, Option<usize>, Seq<char>, usize, Option<usize>, Seq<char>),
    tracks: Seq<TrackLabel>,
    count: usize,
    i: usize,
)
    requires
        s.1 == Some(i),
        i < count,
    ensures
        ({
            let down = KeyInput { key: Key::Down, ctrl: false, press: true };
            let up = KeyInput { key: Key::Up, ctrl: false, press: true };
            let s1 = action_step(s, playlist_action_spec(down), tracks, count).0;
            action_step(s1, playlist_action_spec(up), tracks, count).0.1 == Some(i)
        }),
{
}

} // verus!

use vstd::prelude::*;

verus! {

/// Identifies the active layer/modal.
#[derive(Clone, Copy, Debug, PartialEq, Eq, Structural)]
pub enum Layer {
    OutputSelector,
    Search,
}

/// Actions emitted by the user interface and processed by the application
/// state.
#[derive(Debug, PartialEq, Eq)]
pub enum Action {
    /// No effect.
    NoOp,
    TogglePlayPause,
    Stop,
    NextTrack,
    PreviousTrack,
    PlaySelected,
    ChangeOutputDevice(u32),
    SelectUp,
    SelectDown,
    PushLayer(Layer),
    PopLayer,
    SearchQuery(String),
    SearchNext(String),
    SearchPrev(String),
    CommitSearch(Option<usize>),
    Quit,
    Batch(Vec<Action>),
}

} // verus!

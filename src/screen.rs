use vstd::prelude::*;
use crate::record::{ServiceRecord, RecordView};
use crate::registry::{Direction, ServiceRegistry, RegistryView, moved_index, after_appends, lemma_appends_extend};

verus! {

/// The keys the browser reacts to; every other key is `Other`.
#[derive(Clone, Copy, Debug, PartialEq, Eq)]
pub enum Key {
    Up,
    Down,
    Enter,
    Esc,
    Other,
}

/// The list of discovered services. It holds nothing of its own: it reads
/// the registry each time.
#[derive(Clone, Copy, Debug, PartialEq, Eq)]
pub struct ListScreen {}

/// The details of one service, from a copy taken when the screen was opened.
#[derive(Clone, Debug, PartialEq, Eq)]
pub struct ViewDiscoveryScreen {
    pub discovery: ServiceRecord,
}

/// What the browser shows.
#[derive(Clone, Debug, PartialEq, Eq)]
pub enum ViewState {
    ListView,
    DetailView(ViewDiscoveryScreen),
}

/// What a key press asks for: keep the current view, show another one, or quit.
#[derive(Clone, Debug, PartialEq, Eq)]
pub enum Step {
    Stay,
    Switch(ViewState),
    Exit,
}

pub enum ViewStateView {
    ListView,
    DetailView(RecordView),
}

impl View for ViewState {
    type V = ViewStateView;

    open spec fn view(&self) -> ViewStateView {
        match self {
            ViewState::ListView => ViewStateView::ListView,
            ViewState::DetailView(s) => ViewStateView::DetailView(s.discovery@),
        }
    }
}

/// The view after `k` is pressed in view `s` with registry `reg`; `None` when
/// the key ends the program.
pub open spec fn next_view(s: ViewStateView, k: Key, reg: RegistryView) -> Option<ViewStateView> {
    match s {
        ViewStateView::ListView => match k {
            Key::Enter => if reg.records.len() > 0 {
                Some(ViewStateView::DetailView(reg.records[reg.index as int]))
            } else {
                Some(ViewStateView::ListView)
            },
            Key::Esc => None,
            _ => Some(ViewStateView::ListView),
        },
        ViewStateView::DetailView(r) => match k {
            Key::Esc => Some(ViewStateView::ListView),
            _ => Some(ViewStateView::DetailView(r)),
        },
    }
}

/// The registry after `k` is pressed in view `s`: only Up and Down in the
/// list move the selection.
pub open spec fn next_registry(s: ViewStateView, k: Key, reg: RegistryView) -> RegistryView {
    match (s, k) {
        (ViewStateView::ListView, Key::Up) => RegistryView {
            records: reg.records,
            index: moved_index(reg.index, reg.records.len(), Direction::Up),
        },
        (ViewStateView::ListView, Key::Down) => RegistryView {
            records: reg.records,
            index: moved_index(reg.index, reg.records.len(), Direction::Down),
        },
        _ => reg,
    }
}

impl ListScreen {
    /// Up and Down move the selection, Enter opens the selected service
    /// (nothing happens while there is none), Esc quits.
    pub fn on_key(&self, key: Key, registry: &mut ServiceRegistry) -> (r: Step)
        requires
            old(registry).wf(),
        ensures
            final(registry).wf(),
            final(registry)@ == next_registry(ViewStateView::ListView, key, old(registry)@),
            match r {
                Step::Stay => next_view(ViewStateView::ListView, key, old(registry)@)
                    == Some(ViewStateView::ListView),
                Step::Switch(v) => next_view(ViewStateView::ListView, key, old(registry)@)
                    == Some(v@),
                Step::Exit => next_view(ViewStateView::ListView, key, old(registry)@) is None,
            },
            (key == Key::Up || key == Key::Down || key == Key::Other || (key == Key::Enter
                && old(registry)@.records.len() == 0)) ==> r == Step::Stay,
    {
        match key {
            Key::Up => {
                registry.move_selection(Direction::Up);
                Step::Stay
            },
            Key::Down => {
                registry.move_selection(Direction::Down);
                Step::Stay
            },
            Key::Enter => {
                match registry.get(registry.index()) {
                    Some(record) => Step::Switch(
                        ViewState::DetailView(ViewDiscoveryScreen { discovery: record }),
                    ),
                    None => Step::Stay,
                }
            },
            Key::Esc => Step::Exit,
            Key::Other => Step::Stay,
        }
    }
}

impl ViewDiscoveryScreen {
    /// Esc goes back to the list; every other key leaves the details shown.
    pub fn on_key(&self, key: Key) -> (r: Step)
        ensures
            key == Key::Esc ==> r == Step::Switch(ViewState::ListView),
            key != Key::Esc ==> r == Step::Stay,
    {
        match key {
            Key::Esc => Step::Switch(ViewState::ListView),
            _ => Step::Stay,
        }
    }
}

/// Handles one key press: the view to show next, or `None` when the program
/// is to end. The registry changes as `next_registry` says.
pub fn dispatch(state: ViewState, key: Key, registry: &mut ServiceRegistry) -> (r: Option<ViewState>)
    requires
        old(registry).wf(),
    ensures
        final(registry).wf(),
        final(registry)@ == next_registry(state@, key, old(registry)@),
        match r {
            Some(v) => next_view(state@, key, old(registry)@) == Some(v@),
            None => next_view(state@, key, old(registry)@) is None,
        },
{
    let step = match &state {
        ViewState::ListView => ListScreen {}.on_key(key, registry),
        ViewState::DetailView(screen) => screen.on_key(key),
    };
    match step {
        Step::Stay => Some(state),
        Step::Switch(v) => Some(v),
        Step::Exit => None,
    }
}

/// Enter in the list of an empty registry keeps the list shown and changes
/// nothing.
pub proof fn lemma_enter_on_empty(reg: RegistryView)
    requires
        reg.wf(),
        reg.records.len() == 0,
    ensures
        next_view(ViewStateView::ListView, Key::Enter, reg) == Some(ViewStateView::ListView),
        next_registry(ViewStateView::ListView, Key::Enter, reg) == reg,
{
}

/// Enter in the list of a non-empty registry opens the selected record; later
/// appends leave that record as it was, so the copy shown still equals it.
pub proof fn lemma_enter_opens_selected(reg: RegistryView, rs: Seq<RecordView>)
    requires
        reg.wf(),
        reg.records.len() > 0,
    ensures
        next_view(ViewStateView::ListView, Key::Enter, reg)
            == Some(ViewStateView::DetailView(reg.records[reg.index as int])),
        next_registry(ViewStateView::ListView, Key::Enter, reg) == reg,
        after_appends(reg, rs).records[reg.index as int] == reg.records[reg.index as int],
{
    lemma_appends_extend(reg, rs);
}

/// Esc in the details always goes back to the list, whatever the registry
/// holds by then, and changes nothing in it.
pub proof fn lemma_esc_leaves_details(r: RecordView, reg: RegistryView)
    ensures
        next_view(ViewStateView::DetailView(r), Key::Esc, reg) == Some(ViewStateView::ListView),
        next_registry(ViewStateView::DetailView(r), Key::Esc, reg) == reg,
{
}

} // verus!

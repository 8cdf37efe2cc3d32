//! The pending-state aggregator and its debounce flush.
//!
//! Every classified event updates one in-memory record of "what changed
//! since the last flush"; nothing is emitted on arrival.  A periodic tick
//! drains the record: each non-empty field becomes exactly one outbound
//! event and is cleared.  Within one window the latest value per field wins
//! (last-write-wins coalescing), except the workspace flag, which is a
//! monotonic OR.  An urgent event also implies a workspace update.
use vstd::prelude::*;

use crate::protocol::ClassifiedEvent;
use crate::protocol::EventModel;

verus! {

/// What changed since the last flush.  Each field holds at most the latest
/// value observed in the current debounce window; earlier values are
/// overwritten, never queued.
#[derive(Debug, Clone, PartialEq)]
pub struct PendingState {
    /// The workspace layout changed; OR-accumulated, never overwritten to
    /// false within a window.
    pub workspace_dirty: bool,
    /// The latest fullscreen flag, when one arrived.
    pub fullscreen: Option<bool>,
    /// The latest focused-window title, when one arrived.
    pub latest_title: Option<String>,
    /// The latest urgent workspace identifier, when one arrived.
    pub urgent_workspace_id: Option<String>,
    /// The latest opened window as `(title, class)`, when one arrived.
    pub opened_window: Option<(String, String)>,
    /// The class of the latest closed window, when one arrived.
    pub closed_window_class: Option<String>,
}

/// The mathematical shape of [`PendingState`].
pub struct PendingModel {
    pub workspace_dirty: bool,
    pub fullscreen: Option<bool>,
    pub latest_title: Option<Seq<char>>,
    pub urgent_workspace_id: Option<Seq<char>>,
    pub opened_window: Option<(Seq<char>, Seq<char>)>,
    pub closed_window_class: Option<Seq<char>>,
}

pub open spec fn view_of_title(o: Option<String>) -> Option<Seq<char>> {
    match o {
        Some(s) => Some(s@),
        None => None,
    }
}

pub open spec fn view_of_pair(o: Option<(String, String)>) -> Option<(Seq<char>, Seq<char>)> {
    match o {
        Some(p) => Some((p.0@, p.1@)),
        None => None,
    }
}

impl View for PendingState {
    type V = PendingModel;

    open spec fn view(&self) -> PendingModel {
        PendingModel {
            workspace_dirty: self.workspace_dirty,
            fullscreen: self.fullscreen,
            latest_title: view_of_title(self.latest_title),
            urgent_workspace_id: view_of_title(self.urgent_workspace_id),
            opened_window: view_of_pair(self.opened_window),
            closed_window_class: view_of_title(self.closed_window_class),
        }
    }
}

impl PendingModel {
    /// The state right after a flush, and of a fresh connection epoch.
    pub open spec fn empty() -> PendingModel {
        PendingModel {
            workspace_dirty: false,
            fullscreen: None,
            latest_title: None,
            urgent_workspace_id: None,
            opened_window: None,
            closed_window_class: None,
        }
    }
}

/// How one classified event updates the pending record.
pub open spec fn apply_model(m: PendingModel, e: EventModel) -> PendingModel {
    match e {
        EventModel::Workspace => PendingModel { workspace_dirty: true, ..m },
        EventModel::Urgent { id } => PendingModel {
            workspace_dirty: true,
            urgent_workspace_id: Some(id),
            ..m
        },
        EventModel::Fullscreen { on } => PendingModel { fullscreen: Some(on), ..m },
        EventModel::Title { title } => PendingModel { latest_title: Some(title), ..m },
        EventModel::Opened { class, title } => PendingModel {
            opened_window: Some((title, class)),
            ..m
        },
        EventModel::Closed { class } => PendingModel { closed_window_class: Some(class), ..m },
        EventModel::Other => m,
    }
}

/// A burst of events applied in arrival order.
pub open spec fn aggregate(m: PendingModel, es: Seq<EventModel>) -> PendingModel
    decreases es.len(),
{
    if es.len() == 0 {
        m
    } else {
        aggregate(apply_model(m, es[0]), es.skip(1))
    }
}

/// One flushed, publishable update event.
#[derive(Debug, Clone, PartialEq)]
pub enum OutboundEvent {
    WorkspaceUpdated,
    FullscreenToggled { is_fullscreen: bool },
    ActiveWindowTitleChanged { title: String },
    WorkspaceUrgent { id: String },
    WindowOpened { window_title: String, window_class: String },
    WindowClosed { window_class: String },
}

/// The mathematical shape of an outbound event.
pub enum OutModel {
    Workspace,
    Fullscreen { on: bool },
    Title { title: Seq<char> },
    Urgent { id: Seq<char> },
    Opened { title: Seq<char>, class: Seq<char> },
    Closed { class: Seq<char> },
}

impl View for OutboundEvent {
    type V = OutModel;

    open spec fn view(&self) -> OutModel {
        match self {
            OutboundEvent::WorkspaceUpdated => OutModel::Workspace,
            OutboundEvent::FullscreenToggled { is_fullscreen } => OutModel::Fullscreen {
                on: *is_fullscreen,
            },
            OutboundEvent::ActiveWindowTitleChanged { title } => OutModel::Title { title: title@ },
            OutboundEvent::WorkspaceUrgent { id } => OutModel::Urgent { id: id@ },
            OutboundEvent::WindowOpened { window_title, window_class } => OutModel::Opened {
                title: window_title@,
                class: window_class@,
            },
            OutboundEvent::WindowClosed { window_class } => OutModel::Closed {
                class: window_class@,
            },
        }
    }
}

/// The views of a flushed event vector.
pub open spec fn out_views(s: Seq<OutboundEvent>) -> Seq<OutModel> {
    s.map_values(|e: OutboundEvent| e@)
}

/// What one tick emits from a pending record, in flush order: workspace,
/// fullscreen, title, urgent, opened, closed — one event per non-empty
/// field, nothing for the rest.
pub open spec fn flush_model(m: PendingModel) -> Seq<OutModel> {
    (if m.workspace_dirty {
        seq![OutModel::Workspace]
    } else {
        Seq::empty()
    }) + (match m.fullscreen {
        Some(on) => seq![OutModel::Fullscreen { on }],
        None => Seq::empty(),
    }) + (match m.latest_title {
        Some(title) => seq![OutModel::Title { title }],
        None => Seq::empty(),
    }) + (match m.urgent_workspace_id {
        Some(id) => seq![OutModel::Urgent { id }],
        None => Seq::empty(),
    }) + (match m.opened_window {
        Some(p) => seq![OutModel::Opened { title: p.0, class: p.1 }],
        None => Seq::empty(),
    }) + (match m.closed_window_class {
        Some(class) => seq![OutModel::Closed { class }],
        None => Seq::empty(),
    })
}

impl PendingState {
    /// A fresh record with nothing pending.
    pub fn new() -> (r: PendingState)
        ensures
            r@ == PendingModel::empty(),
    {
        PendingState {
            workspace_dirty: false,
            fullscreen: None,
            latest_title: None,
            urgent_workspace_id: None,
            opened_window: None,
            closed_window_class: None,
        }
    }

    /// Fold one classified event into the record.  Nothing is emitted here.
    pub fn apply(&mut self, e: ClassifiedEvent)
        ensures
            final(self)@ == apply_model(old(self)@, e@),
    {
        match e {
            ClassifiedEvent::WorkspaceUpdated => {
                self.workspace_dirty = true;
            },
            ClassifiedEvent::WorkspaceUrgent { id } => {
                self.urgent_workspace_id = Some(id);
                self.workspace_dirty = true;
            },
            ClassifiedEvent::FullscreenToggled { is_fullscreen } => {
                self.fullscreen = Some(is_fullscreen);
            },
            ClassifiedEvent::ActiveWindowTitleChanged { title } => {
                self.latest_title = Some(title);
            },
            ClassifiedEvent::WindowOpened { window_class, window_title } => {
                self.opened_window = Some((window_title, window_class));
            },
            ClassifiedEvent::WindowClosed { window_class } => {
                self.closed_window_class = Some(window_class);
            },
            ClassifiedEvent::Unrecognized => {},
        }
    }

    /// Drain the record into outbound events, one per non-empty field, in
    /// flush order, and clear every field.
    pub fn flush(&mut self) -> (out: Vec<OutboundEvent>)
        ensures
            final(self)@ == PendingModel::empty(),
            out_views(out@) == flush_model(old(self)@),
    {
        let mut out: Vec<OutboundEvent> = Vec::new();
        if self.workspace_dirty {
            out.push(OutboundEvent::WorkspaceUpdated);
            self.workspace_dirty = false;
        }
        if let Some(on) = self.fullscreen.take() {
            out.push(OutboundEvent::FullscreenToggled { is_fullscreen: on });
        }
        if let Some(title) = self.latest_title.take() {
            out.push(OutboundEvent::ActiveWindowTitleChanged { title });
        }
        if let Some(id) = self.urgent_workspace_id.take() {
            out.push(OutboundEvent::WorkspaceUrgent { id });
        }
        if let Some(p) = self.opened_window.take() {
            out.push(OutboundEvent::WindowOpened { window_title: p.0, window_class: p.1 });
        }
        if let Some(class) = self.closed_window_class.take() {
            out.push(OutboundEvent::WindowClosed { window_class: class });
        }
        proof {
            assert(out_views(out@) =~= flush_model(old(self)@));
        }
        out
    }
}

/// A workspace or urgent line marks the workspace flag, whatever state the
/// record was in.
pub proof fn lemma_workspace_marks_dirty(m: PendingModel, e: EventModel)
    requires
        e is Workspace || e is Urgent,
    ensures
        apply_model(m, e).workspace_dirty,
{
}

/// Coalescing: any burst of one or more workspace-change events followed by
/// a single tick emits exactly one workspace update, not one per line.
pub proof fn lemma_workspace_coalescing(es: Seq<EventModel>)
    requires
        es.len() >= 1,
        forall|i: int| 0 <= i < es.len() ==> es[i] is Workspace,
    ensures
        flush_model(aggregate(PendingModel::empty(), es)) =~= seq![OutModel::Workspace],
{
    lemma_workspace_burst(PendingModel::empty(), es);
}

/// Helper for the coalescing law: a workspace burst only ever sets the
/// workspace flag.
proof fn lemma_workspace_burst(m: PendingModel, es: Seq<EventModel>)
    requires
        forall|i: int| 0 <= i < es.len() ==> es[i] is Workspace,
    ensures
        es.len() >= 1 ==> aggregate(m, es) == (PendingModel { workspace_dirty: true, ..m }),
        es.len() == 0 ==> aggregate(m, es) == m,
    decreases es.len(),
{
    if es.len() >= 1 {
        assert(es[0] is Workspace);
        lemma_workspace_burst(PendingModel { workspace_dirty: true, ..m }, es.skip(1));
    }
}

/// The workspace flag is monotonic within a window: once set, no later
/// event clears it before the flush.
pub proof fn lemma_workspace_flag_monotonic(m: PendingModel, e: EventModel)
    requires
        m.workspace_dirty,
    ensures
        apply_model(m, e).workspace_dirty,
{
}

/// Within one window the latest value of a coalesced field wins: a later
/// title overwrites an earlier one, it never queues behind it.
pub proof fn lemma_last_title_wins(m: PendingModel, a: Seq<char>, b: Seq<char>)
    ensures
        apply_model(apply_model(m, EventModel::Title { title: a }), EventModel::Title { title: b })
            == apply_model(m, EventModel::Title { title: b }),
{
}

/// Idempotence: a tick that finds nothing pending emits nothing — and every
/// flush leaves the record in exactly that state, so a second tick with no
/// intervening events is silent.
pub proof fn lemma_idle_tick_emits_nothing()
    ensures
        flush_model(PendingModel::empty()) =~= Seq::<OutModel>::empty(),
{
}

} // verus!

use vstd::prelude::*;
use crate::event::{interpret, message_of, Event, Message};

verus! {

/// The mode of the application. It starts `Stopped`; `Quitting` ends the
/// main loop.
#[derive(Clone, Copy, Debug, PartialEq, Eq, Structural)]
pub enum AppState {
    Stopped,
    Running,
    Quitting,
    Split,
}

/// The application: its mode and the page being read.
#[derive(Clone, Copy, Debug, PartialEq, Eq, Structural)]
pub struct App {
    pub state: AppState,
    pub page_index: usize,
}

/// The number of lesson pages; a page index past them shows the first page.
pub const PAGE_COUNT: usize = 2;

/// The state after one message.
pub open spec fn update_spec(app: App, message: Message) -> App {
    match message {
        Message::Quit => App { state: AppState::Quitting, ..app },
        Message::ToggleSplit => App {
            state: if app.state == AppState::Quitting {
                AppState::Quitting
            } else if app.state == AppState::Split {
                AppState::Stopped
            } else {
                AppState::Split
            },
            ..app
        },
        Message::NextPage => App {
            page_index: if app.page_index < usize::MAX { (app.page_index + 1) as usize } else { app.page_index },
            ..app
        },
        Message::PrevPage => App {
            page_index: if app.page_index > 0 { (app.page_index - 1) as usize } else { 0 },
            ..app
        },
        Message::Stop | Message::Tick | Message::Idle => app,
    }
}

/// The state after a run of messages, applied first to last.
pub open spec fn update_all(app: App, messages: Seq<Message>) -> App
    decreases messages.len(),
{
    if messages.len() == 0 {
        app
    } else {
        update_spec(update_all(app, messages.drop_last()), messages.last())
    }
}

/// The state after a run of events, each taken through its message.
pub open spec fn step_all(app: App, events: Seq<Event>) -> App
    decreases events.len(),
{
    if events.len() == 0 {
        app
    } else {
        update_spec(step_all(app, events.drop_last()), message_of(events.last()))
    }
}

/// The lesson page shown for a page index.
pub open spec fn page_slot_spec(page_index: usize) -> usize {
    if page_index < PAGE_COUNT { page_index } else { 0 }
}

impl App {
    /// A stopped application on the first page.
    pub fn new() -> (r: App)
        ensures
            r.state == AppState::Stopped,
            r.page_index == 0,
    {
        App { state: AppState::Stopped, page_index: 0 }
    }

    /// Whether the main loop is over.
    pub fn is_quitting(&self) -> (r: bool)
        ensures
            r == (self.state == AppState::Quitting),
    {
        self.state == AppState::Quitting
    }

    /// Maps an event to a message; the application state plays no part.
    pub fn handle_event(&self, event: Event) -> (r: Message)
        ensures
            r == message_of(event),
    {
        interpret(&event)
    }

    /// Enters the terminal state.
    pub fn quit(&mut self)
        ensures
            final(self).state == AppState::Quitting,
            final(self).page_index == old(self).page_index,
    {
        self.state = AppState::Quitting;
    }

    /// Folds one message into the state. `Stop`, `Tick` and `Idle` change
    /// nothing; `Quit` enters `Quitting`, which no message leaves;
    /// `ToggleSplit` leaves `Split` for `Stopped` and enters `Split` from
    /// `Stopped` or `Running`; paging never goes below the first page and
    /// stays put at the largest index.
    pub fn update(&mut self, message: Message)
        ensures
            *final(self) == update_spec(*old(self), message),
            (message == Message::Stop || message == Message::Tick || message == Message::Idle)
                ==> *final(self) == *old(self),
    {
        match message {
            Message::Stop => {},
            Message::Tick => {},
            Message::Quit => self.quit(),
            Message::ToggleSplit => {
                if self.state == AppState::Quitting {
                } else if self.state == AppState::Split {
                    self.state = AppState::Stopped;
                } else {
                    self.state = AppState::Split;
                }
            },
            Message::NextPage => {
                if self.page_index < usize::MAX {
                    self.page_index = self.page_index + 1;
                }
            },
            Message::PrevPage => {
                if self.page_index > 0 {
                    self.page_index = self.page_index - 1;
                }
            },
            Message::Idle => {},
        }
    }

    /// One turn of the main loop after drawing: interpret the event, fold in
    /// its message, and tell whether the loop goes on.
    pub fn step(&mut self, event: Event) -> (go_on: bool)
        ensures
            *final(self) == update_spec(*old(self), message_of(event)),
            go_on == (final(self).state != AppState::Quitting),
    {
        let message = self.handle_event(event);
        self.update(message);
        !self.is_quitting()
    }

    /// Which lesson page the body shows: the page index where there is such
    /// a page, else the first.
    pub fn page_slot(&self) -> (r: usize)
        ensures
            r == page_slot_spec(self.page_index),
            r < PAGE_COUNT,
    {
        if self.page_index < PAGE_COUNT {
            self.page_index
        } else {
            0
        }
    }
}

impl Default for App {
    fn default() -> (r: App)
        ensures
            r.state == AppState::Stopped,
            r.page_index == 0,
    {
        App::new()
    }
}

/// Going back from the first page, any number of times, stays on the first
/// page, whatever the mode.
pub proof fn lemma_prev_page_floor(app: App, messages: Seq<Message>)
    requires
        app.page_index == 0,
        forall|i: int| 0 <= i < messages.len() ==> messages[i] == Message::PrevPage,
    ensures
        update_all(app, messages).page_index == 0,
        update_all(app, messages).state == app.state,
    decreases messages.len(),
{
    if messages.len() > 0 {
        lemma_prev_page_floor(app, messages.drop_last());
    }
}

/// `Stop`, `Tick` and `Idle` leave both the mode and the page unchanged.
pub proof fn lemma_no_op_messages(app: App, message: Message)
    requires
        message != Message::NextPage,
        message != Message::PrevPage,
        message != Message::Quit,
        message != Message::ToggleSplit,
    ensures
        update_spec(app, message) == app,
{
}

/// Toggling the split view twice from `Stopped` gives back the same state.
pub proof fn lemma_toggle_split_involution(app: App)
    requires
        app.state == AppState::Stopped,
    ensures
        update_spec(update_spec(app, Message::ToggleSplit), Message::ToggleSplit) == app,
{
}

/// Once quitting, the application stays quitting under any run of messages.
pub proof fn lemma_quitting_is_terminal(app: App, messages: Seq<Message>)
    requires
        app.state == AppState::Quitting,
    ensures
        update_all(app, messages).state == AppState::Quitting,
    decreases messages.len(),
{
    if messages.len() > 0 {
        lemma_quitting_is_terminal(app, messages.drop_last());
    }
}

/// Every event has one message, and folding a run of events is folding
/// their messages.
pub proof fn lemma_events_through_messages(app: App, events: Seq<Event>)
    ensures
        step_all(app, events) == update_all(app, events.map_values(|e: Event| message_of(e))),
    decreases events.len(),
{
    let ms = events.map_values(|e: Event| message_of(e));
    if events.len() > 0 {
        lemma_events_through_messages(app, events.drop_last());
        assert(events.drop_last().map_values(|e: Event| message_of(e)) =~= ms.drop_last());
    }
}

} // verus!

//! The log panel's scroll state, with a record of the page moves handed to
//! it.

use tui_logger::{TuiWidgetEvent, TuiWidgetState};
use vstd::prelude::*;

verus! {

/// A page move in the log panel.
#[derive(Debug, Clone, Copy, PartialEq, Eq, Structural)]
pub enum LogPage {
    Previous,
    Next,
}

/// Relies on tui_logger::TuiWidgetState::transition: hands the log panel a
/// page-up or page-down event.
#[verifier::external_body]
fn turn_log_page(state: &mut TuiWidgetState, page: LogPage) {
    state.transition(
        match page {
            LogPage::Previous => TuiWidgetEvent::PrevPageKey,
            LogPage::Next => TuiWidgetEvent::NextPageKey,
        },
    );
}

/// The scroll state of the log panel. Its view is the sequence of page moves
/// handed to the panel so far, oldest first.
pub struct LogViewport {
    state: TuiWidgetState,
    pages: Ghost<Seq<LogPage>>,
}

impl View for LogViewport {
    type V = Seq<LogPage>;

    closed spec fn view(&self) -> Seq<LogPage> {
        self.pages@
    }
}

impl LogViewport {
    /// A fresh log panel that has been handed no page move.
    pub fn new() -> (r: Self)
        ensures
            r@ == Seq::<LogPage>::empty(),
    {
        LogViewport { state: TuiWidgetState::new(), pages: Ghost(Seq::empty()) }
    }

    /// Hands the log panel one page move.
    pub fn turn_page(&mut self, page: LogPage)
        ensures
            final(self)@ == old(self)@.push(page),
    {
        turn_log_page(&mut self.state, page);
        self.pages = Ghost(self.pages@.push(page));
    }

    /// The panel's state, for drawing it.
    pub fn state(&self) -> &TuiWidgetState {
        &self.state
    }
}

} // verus!

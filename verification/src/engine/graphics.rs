//! When the main window closes.

use vstd::prelude::*;

verus! {

/// What the close logic needs to know of a window event.
#[derive(Debug, Clone, Copy, PartialEq, Eq, Structural)]
pub enum WindowEventKind {
    /// The user asked to close the window; the application answered
    /// whether it agrees.
    CloseRequested { app_allows_close: bool },
    /// The window is gone.
    Destroyed,
    /// Any other event.
    Other,
}

/// The window state that decides whether the application should exit.
pub struct Graphices {
    close: bool,
}

/// Whether the window is to close after `event`, when it was to close
/// before exactly when `close` holds.
pub open spec fn close_after(close: bool, event: WindowEventKind) -> bool {
    match event {
        WindowEventKind::CloseRequested { app_allows_close } => app_allows_close,
        WindowEventKind::Destroyed => true,
        WindowEventKind::Other => close,
    }
}

/// Whether an event decides by itself whether the window closes: a close
/// request or a destroyed window does, other events do not.
pub open spec fn decides_close(event: WindowEventKind) -> bool {
    !(event is Other)
}

/// Whether the window is to close after taking in `events` one after the
/// other, starting from `close`.
pub open spec fn close_after_all(close: bool, events: Seq<WindowEventKind>) -> bool
    decreases events.len(),
{
    if events.len() == 0 {
        close
    } else {
        close_after(close_after_all(close, events.drop_last()), events.last())
    }
}

/// After any sequence of events the window is to close exactly as the last
/// close request or destruction says: it closes when that event destroyed
/// the window or was a close request the application agreed to, and stays
/// as it started when there was no such event. (A new window starts not
/// closing, and `Graphices::on_event` takes in one event as `close_after`
/// says.)
pub proof fn lemma_close_follows_last_deciding_event(close: bool, events: Seq<WindowEventKind>)
    ensures
        (forall|i: int| 0 <= i < events.len() ==> !decides_close(#[trigger] events[i]))
            ==> close_after_all(close, events) == close,
        forall|i: int|
            0 <= i < events.len() && decides_close(#[trigger] events[i]) && (forall|j: int|
                i < j < events.len() ==> !decides_close(#[trigger] events[j]))
                ==> close_after_all(close, events) == close_after(false, events[i]),
    decreases events.len(),
{
    if events.len() > 0 {
        let rest = events.drop_last();
        lemma_close_follows_last_deciding_event(close, rest);
        let n = events.len() - 1;
        assert forall|i: int|
            0 <= i < events.len() && decides_close(#[trigger] events[i]) && (forall|j: int|
                i < j < events.len() ==> !decides_close(#[trigger] events[j]))
                implies close_after_all(close, events) == close_after(false, events[i]) by {
            if i < n {
                assert(!decides_close(events[n]));
                assert forall|j: int| i < j < rest.len() implies !decides_close(#[trigger] rest[j]) by {
                    assert(rest[j] == events[j]);
                }
                assert(rest[i] == events[i]);
            }
        }
        if forall|i: int| 0 <= i < events.len() ==> !decides_close(#[trigger] events[i]) {
            assert forall|i: int| 0 <= i < rest.len() implies !decides_close(#[trigger] rest[i]) by {
                assert(rest[i] == events[i]);
            }
            assert(!decides_close(events[n]));
        }
    }
}

impl Graphices {
    /// Whether the window is to close.
    pub closed spec fn spec_is_close(&self) -> bool {
        self.close
    }

    /// A window that is not closing.
    pub fn new() -> (graphics: Self)
        ensures
            !graphics.spec_is_close(),
    {
        Graphices { close: false }
    }

    /// Whether the window is to close.
    pub fn is_close(&self) -> (close: bool)
        ensures
            close == self.spec_is_close(),
    {
        self.close
    }

    /// Takes in a window event: a close request closes the window when the
    /// application agrees and keeps it open otherwise, a destroyed window
    /// closes, and other events change nothing.
    pub fn on_event(&mut self, event: &WindowEventKind)
        ensures
            final(self).spec_is_close() == close_after(old(self).spec_is_close(), *event),
    {
        match event {
            WindowEventKind::CloseRequested { app_allows_close } => self.close = *app_allows_close,
            WindowEventKind::Destroyed => self.close = true,
            WindowEventKind::Other => {},
        }
    }
}

} // verus!

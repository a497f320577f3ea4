use vstd::prelude::*;

use crate::command::{maximized_after_spec, ViewportCommand};

verus! {

/// One of the three window controls drawn at the right end of the title bar.
#[derive(Clone, Copy, Debug, PartialEq, Eq, Structural)]
pub enum WindowButton {
    Close,
    Maximize,
    Minimize,
}

/// Whether the host reports the window as maximized; an unknown state counts
/// as not maximized.
pub open spec fn is_maximized_spec(reported: Option<bool>) -> bool {
    match reported {
        Some(b) => b,
        None => false,
    }
}

/// Reads the host's maximized report, taking "unknown" as not maximized.
pub fn is_maximized(reported: Option<bool>) -> (r: bool)
    ensures
        r == is_maximized_spec(reported),
{
    match reported {
        Some(b) => b,
        None => false,
    }
}

/// The commands that the title bar issues in one frame: a double click
/// requests the complement of the current maximized state, then a drag begun
/// with the primary button starts moving the window.
pub open spec fn title_bar_spec(
    double_clicked: bool,
    drag_started: bool,
    reported: Option<bool>,
) -> Seq<ViewportCommand> {
    let toggle = if double_clicked {
        seq![ViewportCommand::Maximized(!is_maximized_spec(reported))]
    } else {
        Seq::<ViewportCommand>::empty()
    };
    let drag = if drag_started {
        seq![ViewportCommand::StartDrag]
    } else {
        Seq::<ViewportCommand>::empty()
    };
    toggle + drag
}

/// Decides what the title bar sends to the host, given whether it was
/// double-clicked, whether a primary-button drag began on it, and the host's
/// maximized report.
pub fn title_bar_commands(double_clicked: bool, drag_started: bool, reported: Option<bool>) -> (r:
    Vec<ViewportCommand>)
    ensures
        r@ == title_bar_spec(double_clicked, drag_started, reported),
{
    let mut r: Vec<ViewportCommand> = Vec::new();
    if double_clicked {
        let m = is_maximized(reported);
        r.push(ViewportCommand::Maximized(!m));
    }
    if drag_started {
        r.push(ViewportCommand::StartDrag);
    }
    assert(r@ =~= title_bar_spec(double_clicked, drag_started, reported));
    r
}

/// The command that a window control sends when clicked.
pub open spec fn window_button_spec(b: WindowButton, reported: Option<bool>) -> ViewportCommand {
    match b {
        WindowButton::Close => ViewportCommand::Close,
        WindowButton::Maximize => ViewportCommand::Maximized(!is_maximized_spec(reported)),
        WindowButton::Minimize => ViewportCommand::Minimized(true),
    }
}

/// Decides what a click on a window control sends to the host: close, the
/// complement of the maximized state (restore when maximized), or minimize.
pub fn window_button_command(b: WindowButton, reported: Option<bool>) -> (r: ViewportCommand)
    ensures
        r == window_button_spec(b, reported),
{
    match b {
        WindowButton::Close => ViewportCommand::Close,
        WindowButton::Maximize => ViewportCommand::Maximized(!is_maximized(reported)),
        WindowButton::Minimize => ViewportCommand::Minimized(true),
    }
}

/// The hover hint of the maximize control, which restores a maximized window
/// and maximizes any other.
pub fn maximize_hover_text(reported: Option<bool>) -> (r: &'static str)
    ensures
        is_maximized_spec(reported) ==> r@ == "Restore window"@,
        !is_maximized_spec(reported) ==> r@ == "Maximize window"@,
{
    if is_maximized(reported) {
        "Restore window"
    } else {
        "Maximize window"
    }
}

/// A double click on the title bar flips the host's maximized state: the one
/// command it issues, carried out from the reported state `m`, leaves the
/// window maximized exactly when it was not.
pub proof fn lemma_double_click_toggles_maximized(m: bool)
    ensures
        title_bar_spec(true, false, Some(m)) == seq![ViewportCommand::Maximized(!m)],
        maximized_after_spec(m, title_bar_spec(true, false, Some(m))[0]) == !m,
{
    assert(title_bar_spec(true, false, Some(m)) =~= seq![ViewportCommand::Maximized(!m)]);
}

/// The maximize control acts as the double click does: clicked from the
/// reported state `m`, it leaves the window maximized exactly when it was not.
pub proof fn lemma_maximize_button_toggles(m: bool)
    ensures
        window_button_spec(WindowButton::Maximize, Some(m)) == title_bar_spec(true, false, Some(m))[0],
        maximized_after_spec(m, window_button_spec(WindowButton::Maximize, Some(m))) == !m,
{
    lemma_double_click_toggles_maximized(m);
}

} // verus!

use vstd::prelude::*;

verus! {

/// A request that the shell sends to the host windowing system.
#[derive(Clone, Copy, Debug, PartialEq, Eq, Structural)]
pub enum ViewportCommand {
    /// Close the window.
    Close,
    /// Maximize (`true`) or restore (`false`) the window.
    Maximized(bool),
    /// Minimize (`true`) or un-minimize (`false`) the window.
    Minimized(bool),
    /// Begin moving the window with the pointer.
    StartDrag,
    /// Capture a screenshot of the window.
    Screenshot,
    /// Ask the host to copy the current selection to the clipboard.
    RequestCopy,
    /// Ask the host to cut the current selection to the clipboard.
    RequestCut,
    /// Ask the host to paste from the clipboard.
    RequestPaste,
}

/// The host's maximized state after it carries out `c` from state `m`:
/// only `Maximized(b)` changes it, to `b`.
pub open spec fn maximized_after_spec(m: bool, c: ViewportCommand) -> bool {
    match c {
        ViewportCommand::Maximized(b) => b,
        _ => m,
    }
}

/// Executable form of [`maximized_after_spec`], for hosts and test doubles
/// that track the window's maximized state.
pub fn maximized_after(m: bool, c: ViewportCommand) -> (r: bool)
    ensures
        r == maximized_after_spec(m, c),
{
    match c {
        ViewportCommand::Maximized(b) => b,
        _ => m,
    }
}

} // verus!

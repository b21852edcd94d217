//! Which clipboard tool a copy goes through.
//!
//! The copy itself is the host's: it runs the tool in the background and
//! waits a moment for it. Which tool to try, and which to fall back on, is
//! settled here.

use vstd::prelude::*;

verus! {

/// The environment variable that a Wayland session sets.
pub const WAYLAND_DISPLAY: &'static str = "WAYLAND_DISPLAY";

/// Milliseconds the host waits for the tool before it reports the copy as
/// failed.
pub const CLIPBOARD_SLEEP_DURATION: u64 = 100;

/// A command that puts text on the clipboard.
#[derive(Clone, Copy, Debug, PartialEq, Eq, Structural)]
pub enum ClipboardTool {
    /// `wl-copy`, which takes the text as its argument.
    WlCopy,
    /// `xclip`, which takes the text on its standard input.
    Xclip,
}

impl ClipboardTool {
    /// The name of the command.
    pub open spec fn spec_command(self) -> Seq<char> {
        match self {
            ClipboardTool::WlCopy => "wl-copy"@,
            ClipboardTool::Xclip => "xclip"@,
        }
    }

    /// The other tool.
    pub open spec fn spec_other(self) -> ClipboardTool {
        match self {
            ClipboardTool::WlCopy => ClipboardTool::Xclip,
            ClipboardTool::Xclip => ClipboardTool::WlCopy,
        }
    }

    /// The name of the command.
    pub fn command(&self) -> (name: &'static str)
        ensures
            name@ == self.spec_command(),
    {
        match self {
            ClipboardTool::WlCopy => "wl-copy",
            ClipboardTool::Xclip => "xclip",
        }
    }

    /// The other tool: the one to fall back on where this one is not to be
    /// had.
    pub fn other(&self) -> (tool: ClipboardTool)
        ensures
            tool == self.spec_other(),
    {
        match self {
            ClipboardTool::WlCopy => ClipboardTool::Xclip,
            ClipboardTool::Xclip => ClipboardTool::WlCopy,
        }
    }
}

/// The tool that a session tries first.
pub open spec fn first_tool(wayland_session: bool) -> ClipboardTool {
    if wayland_session {
        ClipboardTool::WlCopy
    } else {
        ClipboardTool::Xclip
    }
}

/// Picks the tool to try first: `wl-copy` in a Wayland session, `xclip`
/// elsewhere.
pub fn clipboard_tool(wayland_session: bool) -> (tool: ClipboardTool)
    ensures
        tool == first_tool(wayland_session),
{
    if wayland_session {
        ClipboardTool::WlCopy
    } else {
        ClipboardTool::Xclip
    }
}

} // verus!

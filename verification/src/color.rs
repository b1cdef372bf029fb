//! ANSI escape sequences used to style prompt segments.

use vstd::prelude::*;

verus! {

/// Foreground blue, used for the `on <symbol>` prefix.
pub const BLUE: &'static str = "\x1b[34m";

/// Foreground green, used for the short identifier.
pub const GREEN: &'static str = "\x1b[32m";

/// Foreground purple, used for the branch or bookmark name.
pub const PURPLE: &'static str = "\x1b[35m";

/// Foreground red, used for the status flags.
pub const RED: &'static str = "\x1b[31m";

/// Resets every attribute set by one of the colors above.
pub const RESET: &'static str = "\x1b[0m";

} // verus!

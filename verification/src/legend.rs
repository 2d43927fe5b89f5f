//! The fixed text that explains the keys.

use vstd::prelude::*;

verus! {

/// The heading of the command panel.
pub open spec fn title_text() -> Seq<char> {
    "Available Commands"@
}

/// The lines of the command panel, from the top down.
pub open spec fn command_lines() -> Seq<Seq<char>> {
    seq![
        "Use arrows to select slot"@,
        "Press 'w' to select white"@,
        "Press 'b' to select black"@,
        "Press 'q' to exit"@,
    ]
}

/// The heading of the command panel.
pub fn title() -> (text: &'static str)
    ensures
        text@ == title_text(),
{
    "Available Commands"
}

/// The lines of the command panel, from the top down.
pub fn commands() -> (lines: [&'static str; 4])
    ensures
        lines@.len() == command_lines().len(),
        forall|i: int| 0 <= i < 4 ==> (#[trigger] lines[i])@ == command_lines()[i],
{
    [
        "Use arrows to select slot",
        "Press 'w' to select white",
        "Press 'b' to select black",
        "Press 'q' to exit",
    ]
}

} // verus!

//! The renderer: a pure function from the application state and the
//! selection cursor to the content of one full-screen frame.
//!
//! A frame is described as plain text regions. Turning a [`Screen`] into
//! widgets on a real terminal is presentation plumbing and stays outside
//! the verified core.

use vstd::prelude::*;

use crate::menu::MenuItem;
use crate::state::AppState;

verus! {

/// One bordered menu region: a title giving the entry's 1-based position,
/// the entry's label, and whether the label is drawn in the highlight
/// style.
#[derive(PartialEq, Eq, Debug)]
pub struct EntryRegion {
    pub title: String,
    pub label: String,
    pub highlighted: bool,
}

/// The content of one frame: either the menu view (a title region above
/// one bordered region per entry, in the fixed order) or the result view
/// (a command region above an output region).
#[derive(PartialEq, Eq, Debug)]
pub enum Screen {
    MenuScreen { title: String, entries: Vec<EntryRegion> },
    OutputScreen { command: String, output: String },
}

/// The region title of an entry: its 1-based position in the menu order.
pub open spec fn position_title(item: MenuItem) -> Seq<char> {
    match item {
        MenuItem::SingleFileRun => "1"@,
        MenuItem::MultiFileRun => "2"@,
        MenuItem::Benchmark => "3"@,
    }
}

/// The region for `item` shows its position, its label, and is highlighted
/// exactly when `item` is the selection cursor.
pub open spec fn entry_matches(e: EntryRegion, item: MenuItem, cursor: MenuItem) -> bool {
    &&& e.title@ == position_title(item)
    &&& e.label@ == item.label_spec()
    &&& e.highlighted == (item == cursor)
}

/// The menu view for cursor `cursor`: the application title, then the
/// three entries in their fixed order, the cursor's entry highlighted.
pub open spec fn menu_screen_matches(s: Screen, cursor: MenuItem) -> bool {
    &&& s matches Screen::MenuScreen { title, entries }
    &&& title@ == "CounterStrike"@
    &&& entries@.len() == 3
    &&& forall|i: int|
        0 <= i < 3 ==> entry_matches(#[trigger] entries@[i], MenuItem::from_index(i), cursor)
}

/// The result view for `item` and its returned text: a command line naming
/// the entry that was run, and the text shown verbatim.
pub open spec fn output_screen_matches(s: Screen, item: MenuItem, output: Seq<char>) -> bool {
    &&& s matches Screen::OutputScreen { command, output: shown }
    &&& command@ == "> Running "@ + item.label_spec()
    &&& shown@ == output
}

/// The rendering contract: the menu view while browsing or executing, the
/// result view once an action's output is held.
pub open spec fn screen_matches(s: Screen, state: AppState, cursor: MenuItem) -> bool {
    match state {
        AppState::Menu => menu_screen_matches(s, cursor),
        AppState::Execution(_) => menu_screen_matches(s, cursor),
        AppState::CommandOutput { item, output } => output_screen_matches(s, item, output@),
    }
}

/// Build the bordered region for one menu entry.
fn entry_region(item: MenuItem, cursor: MenuItem) -> (r: EntryRegion)
    ensures
        entry_matches(r, item, cursor),
{
    let title = match item {
        MenuItem::SingleFileRun => String::from_str("1"),
        MenuItem::MultiFileRun => String::from_str("2"),
        MenuItem::Benchmark => String::from_str("3"),
    };
    EntryRegion { title, label: String::from_str(item.label()), highlighted: item == cursor }
}

/// Compute the frame content for the current state and selection cursor.
pub fn render(state: &AppState, selected_item: MenuItem) -> (r: Screen)
    ensures
        screen_matches(r, *state, selected_item),
{
    match state {
        AppState::Menu | AppState::Execution(_) => {
            let mut entries: Vec<EntryRegion> = Vec::new();
            entries.push(entry_region(MenuItem::SingleFileRun, selected_item));
            entries.push(entry_region(MenuItem::MultiFileRun, selected_item));
            entries.push(entry_region(MenuItem::Benchmark, selected_item));
            proof {
                assert forall|i: int| 0 <= i < 3 implies entry_matches(
                    #[trigger] entries@[i],
                    MenuItem::from_index(i),
                    selected_item,
                ) by {
                    assert(i == 0 || i == 1 || i == 2);
                }
            }
            Screen::MenuScreen { title: String::from_str("CounterStrike"), entries }
        },
        AppState::CommandOutput { item, output } => {
            let command = String::from_str("> Running ").concat(item.label());
            Screen::OutputScreen { command, output: output.clone() }
        },
    }
}

} // verus!

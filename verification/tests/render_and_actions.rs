use counterstrike::actions::execute_script;
use counterstrike::keys::Key;
use counterstrike::menu::MenuItem;
use counterstrike::render::{render, Screen};
use counterstrike::state::{App, AppState};

fn unused() -> String {
    panic!("this collaborator must not be invoked");
}

#[test]
fn labels_match_the_menu_entries() {
    assert_eq!(MenuItem::SingleFileRun.label(), "Make single-file run");
    assert_eq!(MenuItem::MultiFileRun.label(), "Make multi-file run");
    assert_eq!(MenuItem::Benchmark.label(), "See benchmark performance");
}

#[test]
fn execute_script_runs_exactly_the_selected_collaborator() {
    let r = execute_script(
        &MenuItem::SingleFileRun,
        || String::from("from single"),
        unused,
        unused,
    );
    assert_eq!(r, "from single");

    let r = execute_script(
        &MenuItem::MultiFileRun,
        unused,
        || String::from("from multi"),
        unused,
    );
    assert_eq!(r, "from multi");

    let r = execute_script(&MenuItem::Benchmark, unused, unused, || {
        String::from("from benchmark")
    });
    assert_eq!(r, "from benchmark");
}

#[test]
fn menu_screen_lists_the_entries_in_order_and_highlights_the_cursor() {
    let screen = render(&AppState::Menu, MenuItem::MultiFileRun);
    match screen {
        Screen::MenuScreen { title, entries } => {
            assert_eq!(title, "CounterStrike");
            assert_eq!(entries.len(), 3);

            assert_eq!(entries[0].title, "1");
            assert_eq!(entries[0].label, "Make single-file run");
            assert!(!entries[0].highlighted);

            assert_eq!(entries[1].title, "2");
            assert_eq!(entries[1].label, "Make multi-file run");
            assert!(entries[1].highlighted);

            assert_eq!(entries[2].title, "3");
            assert_eq!(entries[2].label, "See benchmark performance");
            assert!(!entries[2].highlighted);
        }
        Screen::OutputScreen { .. } => panic!("menu state must render the menu view"),
    }
}

#[test]
fn every_cursor_position_highlights_exactly_its_own_entry() {
    for (pos, cursor) in [
        MenuItem::SingleFileRun,
        MenuItem::MultiFileRun,
        MenuItem::Benchmark,
    ]
    .into_iter()
    .enumerate()
    {
        let screen = render(&AppState::Menu, cursor);
        match screen {
            Screen::MenuScreen { entries, .. } => {
                for (i, entry) in entries.iter().enumerate() {
                    assert_eq!(entry.highlighted, i == pos);
                }
            }
            Screen::OutputScreen { .. } => panic!("menu state must render the menu view"),
        }
    }
}

#[test]
fn execution_state_still_renders_the_menu_view() {
    let screen = render(
        &AppState::Execution(MenuItem::Benchmark),
        MenuItem::Benchmark,
    );
    assert!(matches!(screen, Screen::MenuScreen { .. }));
}

#[test]
fn output_screen_shows_the_command_line_and_the_text_verbatim() {
    let state = AppState::CommandOutput {
        item: MenuItem::Benchmark,
        output: String::from("42 runs in 3 ms"),
    };
    let screen = render(&state, MenuItem::Benchmark);
    match screen {
        Screen::OutputScreen { command, output } => {
            assert_eq!(command, "> Running See benchmark performance");
            assert_eq!(output, "42 runs in 3 ms");
        }
        Screen::MenuScreen { .. } => panic!("result state must render the output view"),
    }
}

#[test]
fn process_key_returns_the_frame_of_the_new_state() {
    let mut app = App::new();
    let frame = app
        .process_key(Key::Down, unused, unused, unused)
        .expect("a frame is drawn after every non-quit key");
    match frame {
        Screen::MenuScreen { entries, .. } => {
            assert!(entries[1].highlighted);
        }
        Screen::OutputScreen { .. } => panic!("menu state must render the menu view"),
    }

    let frame = app
        .process_key(Key::Enter, unused, || String::from("multi ran"), unused)
        .expect("a frame is drawn after every non-quit key");
    match frame {
        Screen::OutputScreen { command, output } => {
            assert_eq!(command, "> Running Make multi-file run");
            assert_eq!(output, "multi ran");
        }
        Screen::MenuScreen { .. } => panic!("result state must render the output view"),
    }
}

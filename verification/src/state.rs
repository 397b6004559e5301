//! The state model: the application states, the keyboard-driven transition
//! rules between them, and the loop step that ties transitions, action
//! dispatch and rendering together.

use vstd::prelude::*;

use crate::actions::execute_script;
use crate::keys::{action_of, decode_key, Key, KeyAction};
use crate::menu::MenuItem;
use crate::render::{render, screen_matches, Screen};

verus! {

/// The application state: browsing the menu, a committed entry whose
/// action is running, or the text an action returned.
#[derive(PartialEq, Eq, Debug)]
pub enum AppState {
    Menu,
    Execution(MenuItem),
    CommandOutput { item: MenuItem, output: String },
}

/// What the input loop must do after a transition: invoke the action bound
/// to an entry (and hand its text back), redraw the frame, or stop.
#[derive(PartialEq, Eq, Clone, Copy, Debug)]
pub enum SideEffect {
    Invoke(MenuItem),
    Redraw,
    Quit,
}

/// One transition of the state model, from the current state and selection
/// cursor on a logical input action.
///
/// - Confirm in `Menu` commits the cursor's entry and asks for its action
///   to be invoked; Confirm anywhere else is a no-op.
/// - MoveNext and MovePrevious cycle the cursor, in `Menu` only.
/// - Cancel returns to `Menu` from any state, keeping the cursor.
/// - Quit asks the loop to stop; nothing else changes.
/// - An ignored key changes nothing.
pub open spec fn transition(s: AppState, c: MenuItem, a: KeyAction) -> (AppState, MenuItem, SideEffect) {
    match a {
        KeyAction::Confirm => if s is Menu {
            (AppState::Execution(c), c, SideEffect::Invoke(c))
        } else {
            (s, c, SideEffect::Redraw)
        },
        KeyAction::MoveNext => if s is Menu {
            (s, c.next_spec(), SideEffect::Redraw)
        } else {
            (s, c, SideEffect::Redraw)
        },
        KeyAction::MovePrevious => if s is Menu {
            (s, c.prev_spec(), SideEffect::Redraw)
        } else {
            (s, c, SideEffect::Redraw)
        },
        KeyAction::Cancel => (AppState::Menu, c, SideEffect::Redraw),
        KeyAction::Quit => (s, c, SideEffect::Quit),
        KeyAction::Ignored => (s, c, SideEffect::Redraw),
    }
}

/// The state once the invoked action has returned `output`: the committed
/// entry is paired with that text.
pub open spec fn completed(s: AppState, output: String) -> AppState
    recommends
        s is Execution,
{
    match s {
        AppState::Execution(item) => AppState::CommandOutput { item, output },
        _ => s,
    }
}

/// The state and cursor after `n` presses of the same action, starting
/// from `s` and `c`. Only defined through the pure transition, so it
/// covers the cursor-moving actions; a Confirm would stop at `Execution`.
pub open spec fn after_presses(s: AppState, c: MenuItem, a: KeyAction, n: nat) -> (AppState, MenuItem)
    decreases n,
{
    if n == 0 {
        (s, c)
    } else {
        let prev = after_presses(s, c, a, (n - 1) as nat);
        let next = transition(prev.0, prev.1, a);
        (next.0, next.1)
    }
}

/// The whole application: its current state and the selection cursor. The
/// cursor is always a valid entry and moves only while in `Menu`.
pub struct App {
    pub state: AppState,
    pub selected_item: MenuItem,
}

impl App {
    /// The startup state: browsing the menu with the first entry selected.
    pub fn new() -> (r: App)
        ensures
            r.state is Menu,
            r.selected_item == MenuItem::SingleFileRun,
    {
        App { state: AppState::Menu, selected_item: MenuItem::SingleFileRun }
    }

    /// Apply one logical input action and return the side effect the loop
    /// must perform.
    pub fn apply(&mut self, action: KeyAction) -> (r: SideEffect)
        ensures
            (final(self).state, final(self).selected_item, r) == transition(
                old(self).state,
                old(self).selected_item,
                action,
            ),
    {
        match action {
            KeyAction::Confirm => {
                if let AppState::Menu = self.state {
                    self.state = AppState::Execution(self.selected_item);
                    SideEffect::Invoke(self.selected_item)
                } else {
                    SideEffect::Redraw
                }
            },
            KeyAction::MoveNext => {
                if let AppState::Menu = self.state {
                    self.selected_item = self.selected_item.next();
                }
                SideEffect::Redraw
            },
            KeyAction::MovePrevious => {
                if let AppState::Menu = self.state {
                    self.selected_item = self.selected_item.prev();
                }
                SideEffect::Redraw
            },
            KeyAction::Cancel => {
                self.state = AppState::Menu;
                SideEffect::Redraw
            },
            KeyAction::Quit => SideEffect::Quit,
            KeyAction::Ignored => SideEffect::Redraw,
        }
    }

    /// Record the text the invoked action returned: the committed entry is
    /// paired with it, and the cursor is untouched.
    pub fn complete_execution(&mut self, output: String)
        requires
            old(self).state is Execution,
        ensures
            final(self).state == completed(old(self).state, output),
            final(self).selected_item == old(self).selected_item,
    {
        let item = match &self.state {
            AppState::Execution(item) => *item,
            _ => vstd::pervasive::unreached(),
        };
        self.state = AppState::CommandOutput { item, output };
    }

    /// Process one key press: decode it, transition, invoke the committed
    /// action if one was committed, and produce the frame to draw.
    ///
    /// Returns `None` exactly on Quit, and then changes nothing and draws
    /// nothing; otherwise returns the frame for the new state.
    pub fn process_key<F1, F2, F3>(
        &mut self,
        key: Key,
        single_file_run: F1,
        multi_file_run: F2,
        benchmark: F3,
    ) -> (r: Option<Screen>) where
        F1: FnOnce() -> String,
        F2: FnOnce() -> String,
        F3: FnOnce() -> String,

        requires
            call_requires(single_file_run, ()),
            call_requires(multi_file_run, ()),
            call_requires(benchmark, ()),
        ensures
            (r is Some) <==> !(action_of(key) is Quit),
            action_of(key) is Quit ==> (
                final(self).state == old(self).state
                && final(self).selected_item == old(self).selected_item
            ),
            (action_of(key) is Confirm && old(self).state is Menu) ==> ({
                &&& final(self).selected_item == old(self).selected_item
                &&& final(self).state matches AppState::CommandOutput { item, output }
                &&& final(self).state->CommandOutput_item == old(self).selected_item
                &&& (old(self).selected_item is SingleFileRun ==> call_ensures(
                    single_file_run,
                    (),
                    final(self).state->CommandOutput_output,
                ))
                &&& (old(self).selected_item is MultiFileRun ==> call_ensures(
                    multi_file_run,
                    (),
                    final(self).state->CommandOutput_output,
                ))
                &&& (old(self).selected_item is Benchmark ==> call_ensures(
                    benchmark,
                    (),
                    final(self).state->CommandOutput_output,
                ))
            }),
            (action_of(key) is Confirm && !(old(self).state is Menu)) ==> (
                final(self).state == old(self).state
                && final(self).selected_item == old(self).selected_item
            ),
            action_of(key) is MoveNext ==> (
                final(self).state == old(self).state
                && final(self).selected_item == (if old(self).state is Menu {
                    old(self).selected_item.next_spec()
                } else {
                    old(self).selected_item
                })
            ),
            action_of(key) is MovePrevious ==> (
                final(self).state == old(self).state
                && final(self).selected_item == (if old(self).state is Menu {
                    old(self).selected_item.prev_spec()
                } else {
                    old(self).selected_item
                })
            ),
            action_of(key) is Cancel ==> (
                final(self).state == AppState::Menu
                && final(self).selected_item == old(self).selected_item
            ),
            action_of(key) is Ignored ==> (
                final(self).state == old(self).state
                && final(self).selected_item == old(self).selected_item
            ),
            r matches Some(screen) ==> screen_matches(
                screen,
                final(self).state,
                final(self).selected_item,
            ),
    {
        let action = decode_key(key);
        let effect = self.apply(action);
        match effect {
            SideEffect::Quit => None,
            SideEffect::Invoke(item) => {
                let output = execute_script(&item, single_file_run, multi_file_run, benchmark);
                self.complete_execution(output);
                Some(render(&self.state, self.selected_item))
            },
            SideEffect::Redraw => Some(render(&self.state, self.selected_item)),
        }
    }
}

/// While browsing the menu, `n` MoveNext presses keep the state in `Menu`
/// and advance the selection cursor by `n` modulo 3: the entries form a
/// cyclic group of size 3 under MoveNext.
pub proof fn lemma_move_next_cycles(c: MenuItem, n: nat)
    ensures
        after_presses(AppState::Menu, c, KeyAction::MoveNext, n).0 is Menu,
        after_presses(AppState::Menu, c, KeyAction::MoveNext, n).1.index() == (c.index() + n) % 3,
    decreases n,
{
    if n > 0 {
        lemma_move_next_cycles(c, (n - 1) as nat);
        vstd::arithmetic::div_mod::lemma_add_mod_noop(c.index() + n - 1, 1, 3);
    }
}

/// While browsing the menu, `n` MovePrevious presses keep the state in
/// `Menu` and move the selection cursor back by `n` modulo 3.
pub proof fn lemma_move_previous_cycles(c: MenuItem, n: nat)
    ensures
        after_presses(AppState::Menu, c, KeyAction::MovePrevious, n).0 is Menu,
        after_presses(AppState::Menu, c, KeyAction::MovePrevious, n).1.index() == (c.index() - n)
            % 3,
    decreases n,
{
    if n > 0 {
        lemma_move_previous_cycles(c, (n - 1) as nat);
        vstd::arithmetic::div_mod::lemma_sub_mod_noop(c.index() - n + 1, 1, 3);
    }
}

/// From any result state, Cancel (whichever of its bound keys was pressed)
/// goes back to `Menu` and keeps the selection cursor.
pub proof fn lemma_cancel_leaves_result(item: MenuItem, output: String, c: MenuItem, cancel_key: Key)
    requires
        action_of(cancel_key) is Cancel,
    ensures
        ({
            let next = transition(
                AppState::CommandOutput { item, output },
                c,
                action_of(cancel_key),
            );
            next.0 is Menu && next.1 == c && next.2 is Redraw
        }),
{
}

/// The selection survives a Menu -> Result -> Menu round trip: confirming
/// the cursor's entry, completing its action with any output, and then
/// cancelling (on either bound key) is back in `Menu` with the cursor the
/// menu held before the Confirm.
pub proof fn lemma_selection_preserved_round_trip(c: MenuItem, output: String, cancel_key: Key)
    requires
        action_of(cancel_key) is Cancel,
    ensures
        ({
            let confirmed = transition(AppState::Menu, c, KeyAction::Confirm);
            let result_state = completed(confirmed.0, output);
            let cancelled = transition(result_state, confirmed.1, action_of(cancel_key));
            &&& confirmed.2 == SideEffect::Invoke(c)
            &&& result_state == (AppState::CommandOutput { item: c, output })
            &&& cancelled.0 is Menu
            &&& cancelled.1 == c
        }),
{
}

/// A result state is read-only: MoveNext, MovePrevious and Confirm change
/// neither the state nor the selection cursor, and invoke nothing.
pub proof fn lemma_result_is_read_only(item: MenuItem, output: String, c: MenuItem, a: KeyAction)
    requires
        a is MoveNext || a is MovePrevious || a is Confirm,
    ensures
        ({
            let next = transition(AppState::CommandOutput { item, output }, c, a);
            next.0 == (AppState::CommandOutput { item, output }) && next.1 == c
                && next.2 is Redraw
        }),
{
}

/// Quit stops the loop from any state: the transition changes nothing and
/// asks for no draw, only for termination.
pub proof fn lemma_quit_stops(s: AppState, c: MenuItem)
    ensures
        transition(s, c, KeyAction::Quit) == (s, c, SideEffect::Quit),
{
}

} // verus!

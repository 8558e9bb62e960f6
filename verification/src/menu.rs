//! The keyboard-driven menu: one highlighted row in a fixed list.
//!
//! Row 0 of every list that the navigation shows is the back row. The
//! highlight is clamped at both ends: `Down` on the last row and `Up` on
//! the first leave it where it is.

use vstd::prelude::*;
use crate::failure::{Failure, FailureView};
use crate::records::text_views;

verus! {

/// The key of a keyboard event, as far as the menu tells keys apart.
#[derive(Debug, Clone, Copy, PartialEq, Eq)]
pub enum KeyCode {
    Up,
    Down,
    Enter,
    Escape,
    Char(char),
    Other,
}

/// Whether a key went down, is held, or came up.
#[derive(Debug, Clone, Copy, PartialEq, Eq)]
pub enum KeyKind {
    Press,
    Repeat,
    Release,
}

/// One event read from the terminal.
#[derive(Debug, Clone, Copy, PartialEq, Eq)]
pub enum InputEvent {
    /// A keyboard event.
    Key { code: KeyCode, kind: KeyKind },
    /// Anything else: mouse, resize, focus, paste.
    Other,
}

/// What an event asks of the menu.
#[derive(Debug, Clone, Copy, PartialEq, Eq)]
pub enum Command {
    /// Highlight the row above.
    Previous,
    /// Highlight the row below.
    Next,
    /// Choose the highlighted row.
    Confirm,
    /// Leave without choosing.
    Cancel,
    /// Nothing: the event is ignored.
    Ignore,
}

/// What the menu does after an event.
#[derive(Debug, Clone, Copy, PartialEq, Eq)]
pub enum MenuStep {
    /// The menu stays open.
    Continue,
    /// The menu closes with this result: a row, or `None` for a cancel.
    Resolved(Option<usize>),
}

/// The command that an event stands for. Only key presses count: up,
/// down and enter navigate and confirm, escape and `q` cancel.
pub open spec fn command_of(event: InputEvent) -> Command {
    match event {
        InputEvent::Key { code, kind: KeyKind::Press } => match code {
            KeyCode::Up => Command::Previous,
            KeyCode::Down => Command::Next,
            KeyCode::Enter => Command::Confirm,
            KeyCode::Escape => Command::Cancel,
            KeyCode::Char(c) => if c == 'q' {
                Command::Cancel
            } else {
                Command::Ignore
            },
            KeyCode::Other => Command::Ignore,
        },
        _ => Command::Ignore,
    }
}

/// Computes [`command_of`].
pub fn decode(event: InputEvent) -> (command: Command)
    ensures
        command == command_of(event),
    no_unwind
{
    match event {
        InputEvent::Key { code, kind: KeyKind::Press } => match code {
            KeyCode::Up => Command::Previous,
            KeyCode::Down => Command::Next,
            KeyCode::Enter => Command::Confirm,
            KeyCode::Escape => Command::Cancel,
            KeyCode::Char(c) => if c == 'q' {
                Command::Cancel
            } else {
                Command::Ignore
            },
            KeyCode::Other => Command::Ignore,
        },
        _ => Command::Ignore,
    }
}

/// Mathematical value of a [`MenuModel`].
pub struct MenuView {
    pub title: Seq<char>,
    pub rows: Seq<Seq<char>>,
    pub selected: usize,
}

impl MenuView {
    /// The highlight is on a row of the list; in an empty list it rests
    /// at 0. The rows can be counted in a `usize`.
    pub open spec fn inv(self) -> bool {
        &&& self.rows.len() <= usize::MAX
        &&& self.selected < self.rows.len() || (self.rows.len() == 0 && self.selected == 0)
    }

    /// The highlighted row, or `None` in an empty list.
    pub open spec fn highlighted(self) -> Option<usize> {
        if self.rows.len() == 0 {
            None
        } else {
            Some(self.selected)
        }
    }

    /// The menu after a command: the highlight moves by one row and
    /// stops at the ends; nothing else changes.
    pub open spec fn after_command(self, command: Command) -> MenuView {
        match command {
            Command::Next => if self.selected + 1 < self.rows.len() {
                MenuView { selected: (self.selected + 1) as usize, ..self }
            } else {
                self
            },
            Command::Previous => if self.selected > 0 {
                MenuView { selected: (self.selected - 1) as usize, ..self }
            } else {
                self
            },
            _ => self,
        }
    }

    /// Whether a command closes the menu, and with what.
    pub open spec fn verdict_of(self, command: Command) -> MenuStep {
        match command {
            Command::Confirm => MenuStep::Resolved(self.highlighted()),
            Command::Cancel => MenuStep::Resolved(None),
            _ => MenuStep::Continue,
        }
    }

    /// The menu after an event.
    pub open spec fn after(self, event: InputEvent) -> MenuView {
        self.after_command(command_of(event))
    }

    /// Whether an event closes the menu, and with what.
    pub open spec fn verdict(self, event: InputEvent) -> MenuStep {
        self.verdict_of(command_of(event))
    }

    /// The menu after a run of events, taken in order.
    pub open spec fn after_all(self, events: Seq<InputEvent>) -> MenuView
        decreases events.len(),
    {
        if events.len() == 0 {
            self
        } else {
            self.after_all(events.drop_last()).after(events.last())
        }
    }
}

/// Whether an event leaves the menu open: it neither confirms nor
/// cancels.
pub open spec fn keeps_open(event: InputEvent) -> bool {
    !(command_of(event) is Confirm) && !(command_of(event) is Cancel)
}

/// A run of `n` presses of the same key.
pub open spec fn presses(code: KeyCode, n: nat) -> Seq<InputEvent> {
    Seq::new(n, |i: int| InputEvent::Key { code, kind: KeyKind::Press })
}

/// The menu: a title, the rows, and the highlight.
pub struct MenuModel {
    title: String,
    rows: Vec<String>,
    selected: usize,
}

impl View for MenuModel {
    type V = MenuView;

    closed spec fn view(&self) -> MenuView {
        MenuView { title: self.title@, rows: text_views(self.rows@), selected: self.selected }
    }
}

impl MenuModel {
    #[verifier::type_invariant]
    spec fn well_formed(self) -> bool {
        self@.inv()
    }

    /// A menu over `rows` with the highlight on the first row.
    pub fn new(title: String, rows: Vec<String>) -> (menu: MenuModel)
        ensures
            menu@ == (MenuView { title: title@, rows: text_views(rows@), selected: 0 }),
            menu@.inv(),
    {
        assert(text_views(rows@).len() == rows.len());
        MenuModel { title, rows, selected: 0 }
    }

    /// The title.
    pub fn title(&self) -> (title: &String)
        ensures
            title@ == self@.title,
    {
        &self.title
    }

    /// The rows.
    pub fn rows(&self) -> (rows: &Vec<String>)
        ensures
            text_views(rows@) == self@.rows,
    {
        &self.rows
    }

    /// The highlighted row, or `None` in an empty list.
    pub fn highlighted(&self) -> (row: Option<usize>)
        ensures
            self@.inv(),
            row == self@.highlighted(),
            row matches Some(i) ==> i < self@.rows.len(),
        no_unwind
    {
        proof {
            use_type_invariant(self);
        }
        if self.rows.len() == 0 {
            None
        } else {
            Some(self.selected)
        }
    }

    /// Takes one event: moves the highlight, and says whether the menu
    /// closes. A resolved row is always a row of the list.
    pub fn apply(&mut self, event: InputEvent) -> (step: MenuStep)
        ensures
            old(self)@.inv(),
            final(self)@.inv(),
            final(self)@ == old(self)@.after(event),
            step == old(self)@.verdict(event),
            step matches MenuStep::Resolved(Some(row)) ==> row < old(self)@.rows.len(),
        no_unwind
    {
        proof {
            use_type_invariant(&*self);
        }
        match decode(event) {
            Command::Next => {
                if self.rows.len() - self.selected > 1 {
                    self.selected = self.selected + 1;
                }
                MenuStep::Continue
            },
            Command::Previous => {
                if self.selected > 0 {
                    self.selected = self.selected - 1;
                }
                MenuStep::Continue
            },
            Command::Confirm => MenuStep::Resolved(self.highlighted()),
            Command::Cancel => MenuStep::Resolved(None),
            Command::Ignore => MenuStep::Continue,
        }
    }
}

/// Navigation keeps the highlight on a row of the list.
pub proof fn lemma_after_all_keeps_inv(menu: MenuView, events: Seq<InputEvent>)
    requires
        menu.inv(),
    ensures
        menu.after_all(events).inv(),
        menu.after_all(events).rows == menu.rows,
        menu.after_all(events).title == menu.title,
    decreases events.len(),
{
    if events.len() > 0 {
        lemma_after_all_keeps_inv(menu, events.drop_last());
    }
}

/// Whatever was pressed before, a menu that closes with a row closes
/// with a row of its list: the index is below the number of rows.
pub proof fn lemma_result_in_range(menu: MenuView, before: Seq<InputEvent>, last: InputEvent)
    requires
        menu.inv(),
    ensures
        menu.after_all(before).verdict(last) matches MenuStep::Resolved(Some(row)) ==> row
            < menu.rows.len(),
{
    lemma_after_all_keeps_inv(menu, before);
}

/// Escape and `q` close the menu with `None`, whatever was pressed
/// before and wherever the highlight stands.
pub proof fn lemma_cancel_resolves_none(menu: MenuView, before: Seq<InputEvent>, code: KeyCode)
    requires
        code == KeyCode::Escape || code == KeyCode::Char('q'),
    ensures
        menu.after_all(before).verdict(InputEvent::Key { code, kind: KeyKind::Press })
            == MenuStep::Resolved(None),
{
}

/// After `n` presses of `Down` from the first row the highlight is on
/// row `n`, or on the last row where the list has no row `n`.
pub proof fn lemma_downs_from_top(menu: MenuView, n: nat)
    requires
        menu.inv(),
        menu.rows.len() > 0,
        menu.selected == 0,
    ensures
        menu.after_all(presses(KeyCode::Down, n)).selected == if n < menu.rows.len() {
            n
        } else {
            (menu.rows.len() - 1) as nat
        },
    decreases n,
{
    if n > 0 {
        let shorter = (n - 1) as nat;
        lemma_downs_from_top(menu, shorter);
        lemma_after_all_keeps_inv(menu, presses(KeyCode::Down, shorter));
        assert(presses(KeyCode::Down, n).drop_last() =~= presses(KeyCode::Down, shorter));
    }
}

/// After `n` presses of `Up` the highlight is `n` rows higher, or on the
/// first row where there are not that many rows above it.
pub proof fn lemma_ups(menu: MenuView, n: nat)
    requires
        menu.inv(),
    ensures
        menu.after_all(presses(KeyCode::Up, n)).selected == if n < menu.selected {
            (menu.selected - n) as nat
        } else {
            0
        },
    decreases n,
{
    if n > 0 {
        let shorter = (n - 1) as nat;
        lemma_ups(menu, shorter);
        assert(presses(KeyCode::Up, n).drop_last() =~= presses(KeyCode::Up, shorter));
    }
}

} // verus!

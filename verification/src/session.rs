//! One showing of the menu on the terminal, from raw mode on to raw mode
//! off.
//!
//! The session is a state machine around a [`MenuModel`]. It hands out
//! one terminal operation at a time and takes the reply to it. Once raw
//! mode is on, the session returns only after it has asked for the
//! terminal to be restored, whether the menu was resolved or an
//! operation failed.

use vstd::prelude::*;
use crate::failure::{Failure, FailureView};
use crate::menu::{
    keeps_open, lemma_after_all_keeps_inv, lemma_downs_from_top, presses, InputEvent, KeyCode,
    KeyKind, MenuModel, MenuStep, MenuView,
};
use crate::records::text_views;

verus! {

/// What the menu returns: a row, `None` for a cancel, or the failure
/// that ended it.
pub type MenuResult = Result<Option<usize>, Failure>;

/// Mathematical value of a [`MenuResult`].
pub type MenuResultView = Result<Option<usize>, FailureView>;

/// The value of a menu result.
pub open spec fn result_view(result: MenuResult) -> MenuResultView {
    match result {
        Ok(choice) => Ok(choice),
        Err(failure) => Err(failure@),
    }
}

/// The next terminal operation.
#[derive(Debug, PartialEq, Eq)]
pub enum MenuAction {
    /// Put the terminal into raw mode.
    EnterRawMode,
    /// Draw the title and the rows, the highlighted row marked.
    Draw,
    /// Wait for the next terminal event.
    ReadInput,
    /// Leave raw mode and clear the screen.
    Restore,
    /// Hand this result to the caller; the session is over.
    Return(MenuResult),
}

/// Mathematical value of a [`MenuAction`].
pub enum MenuActionView {
    EnterRawMode,
    Draw,
    ReadInput,
    Restore,
    Return(MenuResultView),
}

impl View for MenuAction {
    type V = MenuActionView;

    open spec fn view(&self) -> MenuActionView {
        match *self {
            MenuAction::EnterRawMode => MenuActionView::EnterRawMode,
            MenuAction::Draw => MenuActionView::Draw,
            MenuAction::ReadInput => MenuActionView::ReadInput,
            MenuAction::Restore => MenuActionView::Restore,
            MenuAction::Return(result) => MenuActionView::Return(result_view(result)),
        }
    }
}

/// How the last terminal operation went.
#[derive(Debug, PartialEq, Eq)]
pub enum MenuReply {
    /// Raw mode is on, the frame is drawn, or the terminal is restored.
    Done,
    /// An event was read.
    Input(InputEvent),
    /// The operation failed.
    Failed(Failure),
}

/// Mathematical value of a [`MenuReply`].
pub enum MenuReplyView {
    Done,
    Input(InputEvent),
    Failed(FailureView),
}

impl View for MenuReply {
    type V = MenuReplyView;

    open spec fn view(&self) -> MenuReplyView {
        match *self {
            MenuReply::Done => MenuReplyView::Done,
            MenuReply::Input(event) => MenuReplyView::Input(event),
            MenuReply::Failed(failure) => MenuReplyView::Failed(failure@),
        }
    }
}

/// The operation that a session waits for.
pub enum StageView {
    /// Raw mode is being switched on.
    Entering,
    /// A frame is being drawn.
    Drawing,
    /// An event is being read.
    Reading,
    /// The terminal is being restored; the result waits.
    Restoring(MenuResultView),
    /// The result was handed out.
    Closed,
}

/// Mathematical value of a [`MenuSession`].
pub struct SessionView {
    pub menu: MenuView,
    pub stage: StageView,
}

impl SessionView {
    /// The menu is well formed, and a row that waits to be returned is a
    /// row of the list.
    pub open spec fn inv(self) -> bool {
        &&& self.menu.inv()
        &&& self.stage matches StageView::Restoring(Ok(Some(row))) ==> row < self.menu.rows.len()
    }

    /// Whether the terminal is in raw mode and has not been asked to
    /// leave it.
    pub open spec fn in_raw_mode(self) -> bool {
        self.stage is Drawing || self.stage is Reading
    }

    /// The session after `reply`, and the next operation, or `None` where
    /// `reply` does not answer the operation that the session waits for:
    /// an event answers only a read, `Done` answers every operation but
    /// a read, a failure answers every operation, and nothing answers a
    /// closed session.
    ///
    /// * Raw mode on: draw. Raw mode refused: return the failure; there
    ///   is nothing to restore.
    /// * Frame drawn: read. Event read: let the menu take it; draw again
    ///   if the menu stays open, restore the terminal if it closes.
    /// * A failed draw or read: restore the terminal.
    /// * Terminal restored: return what was waiting. Restore failed:
    ///   return that failure, unless an earlier one is waiting.
    pub open spec fn step(self, reply: MenuReplyView) -> Option<(SessionView, MenuActionView)> {
        match (self.stage, reply) {
            (StageView::Entering, MenuReplyView::Done) => Some(
                (SessionView { stage: StageView::Drawing, ..self }, MenuActionView::Draw),
            ),
            (StageView::Entering, MenuReplyView::Failed(failure)) => Some(
                (
                    SessionView { stage: StageView::Closed, ..self },
                    MenuActionView::Return(Err(failure)),
                ),
            ),
            (StageView::Drawing, MenuReplyView::Done) => Some(
                (SessionView { stage: StageView::Reading, ..self }, MenuActionView::ReadInput),
            ),
            (StageView::Reading, MenuReplyView::Input(event)) => Some(
                match self.menu.verdict(event) {
                    MenuStep::Continue => (
                        SessionView { menu: self.menu.after(event), stage: StageView::Drawing },
                        MenuActionView::Draw,
                    ),
                    MenuStep::Resolved(choice) => (
                        SessionView {
                            menu: self.menu.after(event),
                            stage: StageView::Restoring(Ok(choice)),
                        },
                        MenuActionView::Restore,
                    ),
                },
            ),
            (StageView::Drawing, MenuReplyView::Failed(failure)) => Some(
                (
                    SessionView { stage: StageView::Restoring(Err(failure)), ..self },
                    MenuActionView::Restore,
                ),
            ),
            (StageView::Reading, MenuReplyView::Failed(failure)) => Some(
                (
                    SessionView { stage: StageView::Restoring(Err(failure)), ..self },
                    MenuActionView::Restore,
                ),
            ),
            (StageView::Restoring(waiting), MenuReplyView::Done) => Some(
                (SessionView { stage: StageView::Closed, ..self }, MenuActionView::Return(waiting)),
            ),
            (StageView::Restoring(waiting), MenuReplyView::Failed(failure)) => Some(
                (
                    SessionView { stage: StageView::Closed, ..self },
                    MenuActionView::Return(
                        match waiting {
                            Ok(_) => Err(failure),
                            Err(first) => Err(first),
                        },
                    ),
                ),
            ),
            _ => None,
        }
    }

    /// Whether `reply` answers the operation that the session waits for.
    pub open spec fn accepts(self, reply: MenuReplyView) -> bool {
        self.step(reply) is Some
    }

    /// The session after `reply`; a refused reply leaves it as it is.
    pub open spec fn after(self, reply: MenuReplyView) -> SessionView {
        match self.step(reply) {
            Some((next, _)) => next,
            None => self,
        }
    }

    /// The session after these events were read one by one, a frame
    /// drawn after each.
    pub open spec fn after_reads(self, events: Seq<InputEvent>) -> SessionView
        decreases events.len(),
    {
        if events.len() == 0 {
            self
        } else {
            self.after_reads(events.drop_last()).after(MenuReplyView::Input(events.last())).after(
                MenuReplyView::Done,
            )
        }
    }
}

enum Stage {
    Entering,
    Drawing,
    Reading,
    Restoring(MenuResult),
    Closed,
}

/// One showing of the menu.
pub struct MenuSession {
    menu: MenuModel,
    stage: Stage,
}

impl View for MenuSession {
    type V = SessionView;

    closed spec fn view(&self) -> SessionView {
        SessionView {
            menu: self.menu@,
            stage: match self.stage {
                Stage::Entering => StageView::Entering,
                Stage::Drawing => StageView::Drawing,
                Stage::Reading => StageView::Reading,
                Stage::Restoring(waiting) => StageView::Restoring(result_view(waiting)),
                Stage::Closed => StageView::Closed,
            },
        }
    }
}

impl MenuSession {
    #[verifier::type_invariant]
    spec fn well_formed(self) -> bool {
        self@.inv()
    }

    /// A session over `rows` with the highlight on the first row, and
    /// its first operation: raw mode on.
    pub fn open(title: String, rows: Vec<String>) -> (opened: (MenuSession, MenuAction))
        ensures
            opened.0@ == (SessionView {
                menu: MenuView { title: title@, rows: text_views(rows@), selected: 0 },
                stage: StageView::Entering,
            }),
            opened.0@.inv(),
            opened.1@ == MenuActionView::EnterRawMode,
    {
        let menu = MenuModel::new(title, rows);
        (MenuSession { menu, stage: Stage::Entering }, MenuAction::EnterRawMode)
    }

    /// The menu, for drawing.
    pub fn menu(&self) -> (menu: &MenuModel)
        ensures
            menu@ == self@.menu,
    {
        &self.menu
    }

    /// Whether the session has handed out its result.
    pub fn is_closed(&self) -> (closed: bool)
        ensures
            closed == (self@.stage is Closed),
    {
        match &self.stage {
            Stage::Closed => true,
            _ => false,
        }
    }

    /// Whether `reply` answers the operation that the session waits for.
    pub fn accepts(&self, reply: &MenuReply) -> (ok: bool)
        ensures
            ok == self@.accepts(reply@),
    {
        match (&self.stage, reply) {
            (Stage::Closed, _) => false,
            (_, MenuReply::Failed(_)) => true,
            (Stage::Reading, MenuReply::Input(_)) => true,
            (Stage::Reading, MenuReply::Done) => false,
            (_, MenuReply::Done) => true,
            _ => false,
        }
    }

    /// Takes the reply to the last operation and hands out the next one.
    /// A reply that does not answer the last operation is refused with
    /// `None` and changes nothing. A returned row is always a row of the
    /// list.
    pub fn step(&mut self, reply: MenuReply) -> (action: Option<MenuAction>)
        ensures
            old(self)@.inv(),
            final(self)@.inv(),
            match action {
                Some(next) => old(self)@.step(reply@) == Some((final(self)@, next@)),
                None => old(self)@.step(reply@) is None && final(self)@ == old(self)@,
            },
            action matches Some(MenuAction::Return(Ok(Some(row)))) ==> row < old(
                self,
            )@.menu.rows.len(),
    {
        proof {
            use_type_invariant(&*self);
        }
        let moved = match (&self.stage, reply) {
            (Stage::Entering, MenuReply::Done) => Some((Stage::Drawing, MenuAction::Draw)),
            (Stage::Entering, MenuReply::Failed(failure)) => Some(
                (Stage::Closed, MenuAction::Return(Err(failure))),
            ),
            (Stage::Drawing, MenuReply::Done) => Some((Stage::Reading, MenuAction::ReadInput)),
            (Stage::Reading, MenuReply::Input(event)) => match self.menu.apply(event) {
                MenuStep::Continue => Some((Stage::Drawing, MenuAction::Draw)),
                MenuStep::Resolved(choice) => Some(
                    (Stage::Restoring(Ok(choice)), MenuAction::Restore),
                ),
            },
            (Stage::Drawing, MenuReply::Failed(failure)) => Some(
                (Stage::Restoring(Err(failure)), MenuAction::Restore),
            ),
            (Stage::Reading, MenuReply::Failed(failure)) => Some(
                (Stage::Restoring(Err(failure)), MenuAction::Restore),
            ),
            (Stage::Restoring(waiting), MenuReply::Done) => {
                let result = match waiting {
                    Ok(choice) => Ok(*choice),
                    Err(failure) => Err(failure.clone()),
                };
                Some((Stage::Closed, MenuAction::Return(result)))
            },
            (Stage::Restoring(waiting), MenuReply::Failed(failure)) => {
                let result = match waiting {
                    Ok(_) => Err(failure),
                    Err(first) => Err(first.clone()),
                };
                Some((Stage::Closed, MenuAction::Return(result)))
            },
            _ => None,
        };
        match moved {
            Some((stage, action)) => {
                self.stage = stage;
                Some(action)
            },
            None => None,
        }
    }
}

/// Every step keeps the session well formed and its rows as they are,
/// and a row that a session returns is a row of its list.
pub proof fn lemma_step_keeps_inv(session: SessionView, reply: MenuReplyView)
    requires
        session.inv(),
        session.accepts(reply),
    ensures
        session.step(reply).unwrap().0.inv(),
        session.step(reply).unwrap().0.menu.rows == session.menu.rows,
        session.step(reply).unwrap().1 matches MenuActionView::Return(Ok(Some(row))) ==> row
            < session.menu.rows.len(),
{
}

/// The session never returns while the terminal is in raw mode: when a
/// draw or a read ends the menu, by a choice, a cancel or a failure, the
/// next operation is the restore, and only the reply to the restore (or
/// a refused raw mode) makes the session return.
pub proof fn lemma_restore_before_return(session: SessionView, reply: MenuReplyView)
    requires
        session.accepts(reply),
    ensures
        session.in_raw_mode() ==> !(session.step(reply).unwrap().1 is Return),
        session.in_raw_mode() && !session.step(reply).unwrap().0.in_raw_mode() ==> session.step(
            reply,
        ).unwrap().1 is Restore,
        session.step(reply).unwrap().1 is Return ==> session.step(reply).unwrap().0.stage is Closed && (
        session.stage is Restoring || (session.stage is Entering && reply is Failed)),
{
}

/// Escape and `q` end a session that reads with `None`, wherever the
/// highlight stands: the terminal is restored, and then `None` is
/// returned.
pub proof fn lemma_cancel_returns_none(session: SessionView, code: KeyCode)
    requires
        session.stage is Reading,
        code == KeyCode::Escape || code == KeyCode::Char('q'),
    ensures
        ({
            let key = MenuReplyView::Input(InputEvent::Key { code, kind: KeyKind::Press });
            &&& session.step(key) matches Some((restoring, MenuActionView::Restore))
            &&& restoring.step(MenuReplyView::Done) matches Some((closed, returned))
            &&& returned == MenuActionView::Return(Ok(None))
            &&& closed.stage is Closed
        }),
{
}

/// A failed draw or read comes out as the session's result once the
/// terminal is restored, and also when the restore fails in turn.
pub proof fn lemma_first_failure_is_returned(
    session: SessionView,
    failure: FailureView,
    restore: MenuReplyView,
)
    requires
        session.in_raw_mode(),
        restore is Done || restore is Failed,
    ensures
        ({
            &&& session.step(MenuReplyView::Failed(failure)) matches Some((restoring, asked))
            &&& asked is Restore
            &&& restoring.step(restore) matches Some((closed, returned))
            &&& returned == MenuActionView::Return(Err(failure))
            &&& closed.stage is Closed
        }),
{
}

/// Once raw mode is on and the first frame is drawn, the session reads,
/// with the menu as it was opened.
pub proof fn lemma_opened_session_reads(session: SessionView)
    requires
        session.stage is Entering,
    ensures
        session.after(MenuReplyView::Done).after(MenuReplyView::Done) == (SessionView {
            stage: StageView::Reading,
            ..session
        }),
{
}

/// While the events leave the menu open, the session does what the
/// menu does: after reading them it reads again, and its menu is the
/// menu after those events.
pub proof fn lemma_reads_follow_menu(session: SessionView, events: Seq<InputEvent>)
    requires
        session.stage is Reading,
        forall|i: int| 0 <= i < events.len() ==> keeps_open(#[trigger] events[i]),
    ensures
        session.after_reads(events) == (SessionView {
            menu: session.menu.after_all(events),
            stage: StageView::Reading,
        }),
    decreases events.len(),
{
    if events.len() > 0 {
        let front = events.drop_last();
        assert forall|i: int| 0 <= i < front.len() implies keeps_open(#[trigger] front[i]) by {
            assert(front[i] == events[i]);
        }
        lemma_reads_follow_menu(session, front);
        assert(keeps_open(events[events.len() - 1]));
    }
}

/// The session returns what the menu decides: after any events that
/// leave the menu open, the first event that closes it makes the session
/// restore the terminal and then return the menu's verdict on that
/// event, which for a row is a row of the list.
pub proof fn lemma_session_returns_verdict(
    session: SessionView,
    events: Seq<InputEvent>,
    last: InputEvent,
)
    requires
        session.inv(),
        session.stage is Reading,
        forall|i: int| 0 <= i < events.len() ==> keeps_open(#[trigger] events[i]),
        !keeps_open(last),
    ensures
        ({
            &&& session.menu.after_all(events).verdict(last) matches MenuStep::Resolved(choice)
            &&& session.after_reads(events).step(MenuReplyView::Input(last)) matches Some(
                (restoring, asked),
            )
            &&& asked is Restore
            &&& restoring.step(MenuReplyView::Done) matches Some((closed, returned))
            &&& closed.stage is Closed
            &&& returned == MenuActionView::Return(Ok(choice))
            &&& choice matches Some(row) ==> row < session.menu.rows.len()
        }),
{
    lemma_reads_follow_menu(session, events);
    lemma_after_all_keeps_inv(session.menu, events);
}

/// After `n` presses of `Down` from the first row, `Enter` makes the
/// session return row `n`, or the last row where the list has no row
/// `n`.
pub proof fn lemma_downs_then_enter(session: SessionView, n: nat)
    requires
        session.inv(),
        session.stage is Reading,
        session.menu.rows.len() > 0,
        session.menu.selected == 0,
    ensures
        ({
            let enter = InputEvent::Key { code: KeyCode::Enter, kind: KeyKind::Press };
            let row = if n < session.menu.rows.len() {
                n
            } else {
                (session.menu.rows.len() - 1) as nat
            };
            &&& session.after_reads(presses(KeyCode::Down, n)).step(MenuReplyView::Input(enter))
                matches Some((restoring, asked))
            &&& asked is Restore
            &&& restoring.step(MenuReplyView::Done) matches Some((_, returned))
            &&& returned == MenuActionView::Return(Ok(Some(row as usize)))
        }),
{
    let enter = InputEvent::Key { code: KeyCode::Enter, kind: KeyKind::Press };
    lemma_downs_from_top(session.menu, n);
    lemma_after_all_keeps_inv(session.menu, presses(KeyCode::Down, n));
    lemma_session_returns_verdict(session, presses(KeyCode::Down, n), enter);
}

} // verus!

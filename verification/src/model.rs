//! The model of the form, the messages that reach it and the transition
//! between them.

use crate::decimal::{parse_i32, parse_i32_spec};
use crate::dice::DiceExpression;
use crate::roll::{record_views, RollRecord, RollRecordView, RollResult};
use vstd::prelude::*;

verus! {

/// An event that the model reacts to.
#[derive(Clone, Debug, PartialEq, Eq)]
pub enum Message {
    /// The count field was edited; the payload is the field's raw text.
    ChangeCount(String),
    /// The sides field was edited; the payload is the field's raw text.
    ChangeSides(String),
    /// The modifier field was edited; the payload is the field's raw text.
    ChangeModifier(String),
    /// The form was submitted.
    SubmitRoll,
    /// A roll request completed with a result.
    RollSucceeded(RollRecord),
    /// A roll request failed; the payload says how.
    RollFailed(String),
    /// The session was opened or closed.
    SessionChanged(bool),
}

/// Work to be done outside the model, whose completion comes back as a message.
#[derive(Clone, Copy, Debug, PartialEq, Eq, Structural)]
pub enum Command {
    /// Ask the roll service for a roll of this expression.
    Roll(DiceExpression),
}

/// The state of the form: the expression under edit, the rolls received so
/// far in the order of their arrival, the latest failure, and the session flag.
#[derive(Clone, Debug, PartialEq, Eq)]
pub struct Model {
    form: DiceExpression,
    history: Vec<RollRecord>,
    last_error: Option<String>,
    session_active: bool,
}

/// The mathematical content of a `Message`.
pub enum MessageView {
    ChangeCount(Seq<char>),
    ChangeSides(Seq<char>),
    ChangeModifier(Seq<char>),
    SubmitRoll,
    RollSucceeded(RollRecordView),
    RollFailed(Seq<char>),
    SessionChanged(bool),
}

/// The mathematical content of a `Model`.
pub struct ModelView {
    pub form: DiceExpression,
    pub history: Seq<RollRecordView>,
    pub last_error: Option<Seq<char>>,
    pub session_active: bool,
}

impl View for Message {
    type V = MessageView;

    open spec fn view(&self) -> MessageView {
        match *self {
            Message::ChangeCount(text) => MessageView::ChangeCount(text@),
            Message::ChangeSides(text) => MessageView::ChangeSides(text@),
            Message::ChangeModifier(text) => MessageView::ChangeModifier(text@),
            Message::SubmitRoll => MessageView::SubmitRoll,
            Message::RollSucceeded(record) => MessageView::RollSucceeded(record@),
            Message::RollFailed(reason) => MessageView::RollFailed(reason@),
            Message::SessionChanged(active) => MessageView::SessionChanged(active),
        }
    }
}

impl View for Model {
    type V = ModelView;

    closed spec fn view(&self) -> ModelView {
        ModelView {
            form: self.form,
            history: record_views(self.history@),
            last_error: match self.last_error {
                Some(reason) => Some(reason@),
                None => None,
            },
            session_active: self.session_active,
        }
    }
}

impl ModelView {
    /// The model at start: the initial expression, no rolls, no failure, no session.
    pub open spec fn initial() -> ModelView {
        ModelView {
            form: DiceExpression::initial(),
            history: Seq::empty(),
            last_error: None,
            session_active: false,
        }
    }
}

/// The value that an edit leaves in a form field: the integer that `text`
/// writes, or `previous` where it writes none that fits.
pub open spec fn edited(previous: i32, text: Seq<char>) -> i32 {
    match parse_i32_spec(text) {
        Some(value) => value,
        None => previous,
    }
}

/// The model after `message` has been applied to `model`.
pub open spec fn next_model(model: ModelView, message: MessageView) -> ModelView {
    match message {
        MessageView::ChangeCount(text) => ModelView {
            form: DiceExpression { count: edited(model.form.count, text), ..model.form },
            ..model
        },
        MessageView::ChangeSides(text) => ModelView {
            form: DiceExpression { sides: edited(model.form.sides, text), ..model.form },
            ..model
        },
        MessageView::ChangeModifier(text) => ModelView {
            form: DiceExpression { modifier: edited(model.form.modifier, text), ..model.form },
            ..model
        },
        MessageView::SubmitRoll => model,
        MessageView::RollSucceeded(record) => ModelView {
            history: model.history.push(record),
            ..model
        },
        MessageView::RollFailed(reason) => ModelView { last_error: Some(reason), ..model },
        MessageView::SessionChanged(active) => ModelView { session_active: active, ..model },
    }
}

/// The commands that applying `message` to `model` gives rise to: one roll of
/// the expression then in the form for a submission, none for anything else.
pub open spec fn issued(model: ModelView, message: MessageView) -> Seq<Command> {
    match message {
        MessageView::SubmitRoll => seq![Command::Roll(model.form)],
        _ => Seq::empty(),
    }
}

fn edit(previous: i32, text: &str) -> (value: i32)
    ensures
        value == edited(previous, text@),
{
    match parse_i32(text) {
        Some(value) => value,
        None => previous,
    }
}

impl Default for Model {
    /// The model at start.
    fn default() -> (model: Model)
        ensures
            model@ == ModelView::initial(),
    {
        let model = Model {
            form: DiceExpression { count: 1, sides: 20, modifier: 0 },
            history: Vec::new(),
            last_error: None,
            session_active: false,
        };
        assert(model@.history =~= Seq::empty());
        model
    }
}

impl Model {
    /// The expression under edit.
    pub fn form(&self) -> (form: DiceExpression)
        ensures
            form == self@.form,
    {
        self.form
    }

    /// The rolls received so far, oldest first.
    pub fn history(&self) -> (history: &Vec<RollRecord>)
        ensures
            record_views(history@) == self@.history,
    {
        &self.history
    }

    /// The latest failure, if there was one.
    pub fn last_error(&self) -> (reason: Option<&String>)
        ensures
            match reason {
                Some(text) => self@.last_error == Some(text@),
                None => self@.last_error is None,
            },
    {
        self.last_error.as_ref()
    }

    /// Whether a session is open.
    pub fn session_active(&self) -> (active: bool)
        ensures
            active == self@.session_active,
    {
        self.session_active
    }
}

impl Message {
    /// The message in which a roll request ends: the result stamped with the
    /// time of its arrival, or the reason of the failure.
    pub fn completion(outcome: Result<RollResult, String>, observed_at: u64) -> (message: Message)
        ensures
            message@ == match outcome {
                Ok(result) => MessageView::RollSucceeded(
                    RollRecordView { result: result@, observed_at },
                ),
                Err(reason) => MessageView::RollFailed(reason@),
            },
    {
        match outcome {
            Ok(result) => Message::RollSucceeded(RollRecord::new(result, observed_at)),
            Err(reason) => Message::RollFailed(reason),
        }
    }

    /// Whether the view may be left as it is after this message: true of a
    /// submission, which changes no model.
    pub fn leaves_view(&self) -> (unchanged: bool)
        ensures
            unchanged == (self@ is SubmitRoll),
            unchanged ==> forall|model: ModelView| next_model(model, self@) == model,
    {
        match self {
            Message::SubmitRoll => true,
            _ => false,
        }
    }
}

/// Applies `message` to `model` and returns the commands to carry out.
pub fn update(message: Message, model: &mut Model) -> (commands: Vec<Command>)
    ensures
        final(model)@ == next_model(old(model)@, message@),
        commands@ == issued(old(model)@, message@),
{
    let mut commands: Vec<Command> = Vec::new();
    match message {
        Message::ChangeCount(text) => {
            model.form.count = edit(model.form.count, text.as_str());
        },
        Message::ChangeSides(text) => {
            model.form.sides = edit(model.form.sides, text.as_str());
        },
        Message::ChangeModifier(text) => {
            model.form.modifier = edit(model.form.modifier, text.as_str());
        },
        Message::SubmitRoll => {
            commands.push(Command::Roll(model.form));
        },
        Message::RollSucceeded(record) => {
            model.history.push(record);
            assert(model@.history =~= old(model)@.history.push(record@));
        },
        Message::RollFailed(reason) => {
            model.last_error = Some(reason);
        },
        Message::SessionChanged(active) => {
            model.session_active = active;
        },
    }
    commands
}

/// An edit whose text writes no integer that fits changes nothing, whichever
/// field it is for.
pub proof fn lemma_unreadable_edit_changes_nothing(model: ModelView, text: Seq<char>)
    requires
        parse_i32_spec(text) is None,
    ensures
        next_model(model, MessageView::ChangeCount(text)) == model,
        next_model(model, MessageView::ChangeSides(text)) == model,
        next_model(model, MessageView::ChangeModifier(text)) == model,
{
}

} // verus!

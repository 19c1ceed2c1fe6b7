//! The state-update core of a dice-rolling form: the model, the messages that
//! change it, the transition between them, and the text in which the form and
//! the roll service speak of dice.

pub mod decimal;
pub mod dice;
pub mod dispatch;
pub mod model;
pub mod roll;

//! What a completed roll looks like: the service's answer and the record kept of it.

use crate::decimal::{format_i32, int_text};
use vstd::prelude::*;
use vstd::string::*;

verus! {

/// Result of a roll, as the roll service reports it.
#[derive(Clone, Debug, PartialEq, Eq)]
pub struct RollResult {
    /// The instruction passed in to roll the dice
    pub instruction: String,
    /// The results of all rolls made
    pub rolls: Vec<i32>,
    /// The total value of the entire roll, as the service computed it
    pub total: i32,
}

/// A completed roll together with the moment at which the client received it,
/// in milliseconds since the Unix epoch.
#[derive(Clone, Debug, PartialEq, Eq)]
pub struct RollRecord {
    pub result: RollResult,
    pub observed_at: u64,
}

/// The mathematical content of a `RollResult`.
pub struct RollResultView {
    pub instruction: Seq<char>,
    pub rolls: Seq<i32>,
    pub total: i32,
}

/// The mathematical content of a `RollRecord`.
pub struct RollRecordView {
    pub result: RollResultView,
    pub observed_at: u64,
}

impl View for RollResult {
    type V = RollResultView;

    open spec fn view(&self) -> RollResultView {
        RollResultView { instruction: self.instruction@, rolls: self.rolls@, total: self.total }
    }
}

impl View for RollRecord {
    type V = RollRecordView;

    open spec fn view(&self) -> RollRecordView {
        RollRecordView { result: self.result@, observed_at: self.observed_at }
    }
}

/// The contents of a run of records, in the same order.
pub open spec fn record_views(records: Seq<RollRecord>) -> Seq<RollRecordView> {
    records.map_values(|record: RollRecord| record@)
}

impl RollRecord {
    /// Stamps `result` with the time at which it was received.
    pub fn new(result: RollResult, observed_at: u64) -> (record: RollRecord)
        ensures
            record.result == result,
            record.observed_at == observed_at,
    {
        RollRecord { result, observed_at }
    }
}

/// The numbers of `values` in decimal, in order, with a comma and a space
/// between one and the next.
pub open spec fn listed(values: Seq<i32>) -> Seq<char>
    decreases values.len(),
{
    if values.len() == 0 {
        Seq::empty()
    } else if values.len() == 1 {
        int_text(values[0] as int)
    } else {
        listed(values.drop_last()) + seq![',', ' '] + int_text(values.last() as int)
    }
}

impl RollResult {
    /// Writes the outcome of each die, in order, separated by a comma and a space.
    pub fn rolls_text(&self) -> (text: String)
        ensures
            text@ == listed(self.rolls@),
    {
        let mut text = String::new();
        let mut i: usize = 0;
        proof {
            reveal_strlit(", ");
        }
        while i < self.rolls.len()
            invariant
                i <= self.rolls.len(),
                text@ == listed(self.rolls@.take(i as int)),
                ", "@ == seq![',', ' '],
            decreases self.rolls.len() - i,
        {
            let ghost longer = self.rolls@.take(i + 1);
            assert(longer.drop_last() =~= self.rolls@.take(i as int));
            if i > 0 {
                text.append(", ");
            }
            let number = format_i32(self.rolls[i]);
            text.append(number.as_str());
            assert(text@ =~= listed(longer));
            i = i + 1;
        }
        assert(self.rolls@.take(i as int) =~= self.rolls@);
        text
    }
}

} // verus!

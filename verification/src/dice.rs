//! The dice expression that the form edits, and the ways it is written out.

use crate::decimal::{format_i32, format_u32, int_text, numeral};
use vstd::prelude::*;
use vstd::string::*;

verus! {

/// A roll specification: how many dice, of how many sides, and what is added
/// to their sum. The fields are edited one by one and are not held to any
/// range: `count` is meant to lie in 1..=99 and `sides` to be a usual die.
#[derive(Clone, Copy, Debug, PartialEq, Eq, Structural)]
pub struct DiceExpression {
    pub count: i32,
    pub sides: i32,
    pub modifier: i32,
}

/// How a modifier is written behind the dice: nothing for zero, a minus sign
/// and the magnitude for a negative one, `plus` and the value for a positive one.
pub open spec fn modifier_text(modifier: int, plus: Seq<char>) -> Seq<char> {
    if modifier == 0 {
        Seq::empty()
    } else if modifier < 0 {
        seq!['-'] + numeral((-modifier) as nat)
    } else {
        plus + numeral(modifier as nat)
    }
}

/// The plus sign as a URL query carries it.
pub open spec fn escaped_plus() -> Seq<char> {
    seq!['%', '2', 'B']
}

impl DiceExpression {
    /// The expression written as count, `d`, sides and modifier, with `plus`
    /// in front of a positive modifier.
    pub open spec fn notation_with(self, plus: Seq<char>) -> Seq<char> {
        int_text(self.count as int) + seq!['d'] + int_text(self.sides as int) + modifier_text(
            self.modifier as int,
            plus,
        )
    }

    /// The canonical text, such as `2d6`, `1d20+5` or `1d20-3`.
    pub open spec fn notation(self) -> Seq<char> {
        self.notation_with(seq!['+'])
    }

    /// The canonical text with the plus sign escaped for a URL query.
    pub open spec fn query_notation(self) -> Seq<char> {
        self.notation_with(escaped_plus())
    }

    /// One die of twenty sides, nothing added: what the form shows at first.
    pub open spec fn initial() -> DiceExpression {
        DiceExpression { count: 1, sides: 20, modifier: 0 }
    }

    fn write_with(&self, plus: &str) -> (text: String)
        ensures
            text@ == self.notation_with(plus@),
    {
        let mut text = format_i32(self.count);
        proof {
            reveal_strlit("d");
            reveal_strlit("-");
        }
        text.append("d");
        let sides = format_i32(self.sides);
        text.append(sides.as_str());
        if self.modifier < 0 {
            let magnitude = format_u32((-(self.modifier as i64)) as u32);
            text.append("-");
            text.append(magnitude.as_str());
        } else if self.modifier > 0 {
            let value = format_u32(self.modifier as u32);
            text.append(plus);
            text.append(value.as_str());
        }
        assert(text@ =~= self.notation_with(plus@));
        text
    }

    /// Writes the canonical text of the expression.
    pub fn to_text(&self) -> (text: String)
        ensures
            text@ == self.notation(),
    {
        proof {
            reveal_strlit("+");
        }
        let text = self.write_with("+");
        assert("+"@ =~= seq!['+']);
        text
    }

    /// Writes the expression as the value of a URL query parameter.
    pub fn to_query_text(&self) -> (text: String)
        ensures
            text@ == self.query_notation(),
    {
        proof {
            reveal_strlit("%2B");
        }
        let text = self.write_with("%2B");
        assert("%2B"@ =~= escaped_plus());
        text
    }
}

impl Default for DiceExpression {
    fn default() -> (expression: DiceExpression)
        ensures
            expression == DiceExpression::initial(),
    {
        DiceExpression { count: 1, sides: 20, modifier: 0 }
    }
}

/// The path and query key under which the roll service takes an expression.
pub open spec fn roll_query() -> Seq<char> {
    "/roll/?roll="@
}

/// The address to fetch for a roll of `expression` from the service at `base`.
pub fn roll_url(base: &str, expression: &DiceExpression) -> (url: String)
    ensures
        url@ == base@ + roll_query() + expression.query_notation(),
{
    let mut url = String::from_str(base);
    url.append("/roll/?roll=");
    let query = expression.to_query_text();
    url.append(query.as_str());
    url
}

/// The dice that the form offers, by their number of sides.
pub open spec fn usual_sides() -> Seq<i32> {
    seq![4i32, 6i32, 8i32, 10i32, 12i32, 20i32, 100i32]
}

/// The dice that the form offers, smallest first.
pub fn standard_sides() -> (sides: Vec<i32>)
    ensures
        sides@ == usual_sides(),
{
    let mut sides: Vec<i32> = Vec::new();
    sides.push(4);
    sides.push(6);
    sides.push(8);
    sides.push(10);
    sides.push(12);
    sides.push(20);
    sides.push(100);
    assert(sides@ =~= usual_sides());
    sides
}

/// The name of a die of `sides` sides, such as `d20`.
pub fn die_label(sides: i32) -> (label: String)
    ensures
        label@ == seq!['d'] + int_text(sides as int),
{
    proof {
        reveal_strlit("d");
    }
    let mut label = String::from_str("d");
    let number = format_i32(sides);
    label.append(number.as_str());
    assert(label@ =~= seq!['d'] + int_text(sides as int));
    label
}

} // verus!

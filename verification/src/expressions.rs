//! Facial expression presets. The save format carries the snake_case
//! `as_save_str` form.

use vstd::prelude::*;

verus! {

#[derive(Debug, Clone, Copy, PartialEq, Eq, Hash, Structural)]
pub enum Expression {
    Neutral,
    Happy,
    Sad,
    Surprised,
    Angry,
}

pub open spec fn expression_label(e: Expression) -> Seq<char> {
    match e {
        Expression::Neutral => "Neutral"@,
        Expression::Happy => "Happy"@,
        Expression::Sad => "Sad"@,
        Expression::Surprised => "Surprised"@,
        Expression::Angry => "Angry"@,
    }
}

pub open spec fn expression_save_name(e: Expression) -> Seq<char> {
    match e {
        Expression::Neutral => "neutral"@,
        Expression::Happy => "happy"@,
        Expression::Sad => "sad"@,
        Expression::Surprised => "surprised"@,
        Expression::Angry => "angry"@,
    }
}

impl Default for Expression {
    fn default() -> (e: Expression)
        ensures
            e == Expression::Neutral,
    {
        Expression::Neutral
    }
}

impl Expression {
    /// Every expression, the default first.
    pub const ALL: [Expression; 5] = [
        Expression::Neutral,
        Expression::Happy,
        Expression::Sad,
        Expression::Surprised,
        Expression::Angry,
    ];

    pub fn label(self) -> (s: &'static str)
        ensures
            s@ == expression_label(self),
    {
        match self {
            Expression::Neutral => "Neutral",
            Expression::Happy => "Happy",
            Expression::Sad => "Sad",
            Expression::Surprised => "Surprised",
            Expression::Angry => "Angry",
        }
    }

    /// Stable identifier used in save files and metadata.
    pub fn as_save_str(self) -> (s: &'static str)
        ensures
            s@ == expression_save_name(self),
    {
        match self {
            Expression::Neutral => "neutral",
            Expression::Happy => "happy",
            Expression::Sad => "sad",
            Expression::Surprised => "surprised",
            Expression::Angry => "angry",
        }
    }
}

/// Two different expressions never share a label or a save name.
pub proof fn law_expression_names_distinct(a: Expression, b: Expression)
    requires
        a != b,
    ensures
        expression_label(a) != expression_label(b),
        expression_save_name(a) != expression_save_name(b),
{
    reveal_strlit("Neutral");
    reveal_strlit("Happy");
    reveal_strlit("Sad");
    reveal_strlit("Surprised");
    reveal_strlit("Angry");
    reveal_strlit("neutral");
    reveal_strlit("happy");
    reveal_strlit("sad");
    reveal_strlit("surprised");
    reveal_strlit("angry");
    assert("Neutral"@[0] == 'N' && "Happy"@[0] == 'H' && "Sad"@[0] == 'S' && "Surprised"@[0] == 'S' && "Angry"@[0] == 'A');
    assert("Sad"@.len() == 3 && "Surprised"@.len() == 9);
    assert("neutral"@[0] == 'n' && "happy"@[0] == 'h' && "sad"@[0] == 's' && "surprised"@[0] == 's' && "angry"@[0] == 'a');
    assert("sad"@.len() == 3 && "surprised"@.len() == 9);
}

} // verus!

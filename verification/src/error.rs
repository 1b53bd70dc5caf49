//! The errors that describing a delivery can raise.

use vstd::prelude::*;
use vstd::string::StringExecFns;

verus! {

/// What is wrong with a delivery written in ball-string notation.
#[derive(Debug)]
pub enum BallString {
    EmptyBallString,
    InvalidBallStringCharacter(char),
    InvalidByeCharacter,
    InvalidBallDescription,
}

impl Clone for BallString {
    fn clone(&self) -> (copy: BallString)
        ensures
            copy == *self,
    {
        match self {
            BallString::EmptyBallString => BallString::EmptyBallString,
            BallString::InvalidBallStringCharacter(ch) => BallString::InvalidBallStringCharacter(
                *ch,
            ),
            BallString::InvalidByeCharacter => BallString::InvalidByeCharacter,
            BallString::InvalidBallDescription => BallString::InvalidBallDescription,
        }
    }
}

impl BallString {
    /// The message of this error.
    pub open spec fn message(self) -> Seq<char> {
        match self {
            BallString::EmptyBallString => "Ball string can't be empty"@,
            BallString::InvalidBallStringCharacter(ch) => "Ball string can't contain "@.push(ch),
            BallString::InvalidByeCharacter =>
                "If byes are indicated, the number of runs to be added to the total must be indicated"@,
            BallString::InvalidBallDescription => "Only zero or one of F/S, or L/B can appear"@,
        }
    }

    /// Renders the error as its message.
    pub fn to_string(&self) -> (text: String)
        ensures
            text@ == self.message(),
    {
        match self {
            BallString::EmptyBallString => String::from_str("Ball string can't be empty"),
            BallString::InvalidBallStringCharacter(ch) => {
                let mut text = String::from_str("Ball string can't contain ");
                text.push(*ch);
                text
            },
            BallString::InvalidByeCharacter => String::from_str(
                "If byes are indicated, the number of runs to be added to the total must be indicated",
            ),
            BallString::InvalidBallDescription => String::from_str(
                "Only zero or one of F/S, or L/B can appear",
            ),
        }
    }
}

/// Mathematical value of a [`BallOutcomeValidation`].
pub ghost enum ValidationView {
    DoubleOutcome(Seq<char>, Seq<char>),
}

impl ValidationView {
    /// The message of this error.
    pub open spec fn message(self) -> Seq<char> {
        match self {
            ValidationView::DoubleOutcome(first, second) => "Incompatible double outcomes "@
                + first + " and "@ + second + " given."@,
        }
    }
}

/// What makes a described delivery inconsistent.
#[derive(Debug)]
pub enum BallOutcomeValidation {
    /// Two outcomes that cannot occur on one delivery were both given.
    DoubleOutcome(String, String),
}

impl View for BallOutcomeValidation {
    type V = ValidationView;

    open spec fn view(&self) -> ValidationView {
        match self {
            BallOutcomeValidation::DoubleOutcome(first, second) => ValidationView::DoubleOutcome(
                first@,
                second@,
            ),
        }
    }
}

impl Clone for BallOutcomeValidation {
    fn clone(&self) -> (copy: BallOutcomeValidation)
        ensures
            copy@ == self@,
    {
        match self {
            BallOutcomeValidation::DoubleOutcome(first, second) => {
                BallOutcomeValidation::DoubleOutcome(first.clone(), second.clone())
            },
        }
    }
}

impl BallOutcomeValidation {
    /// Renders the error as its message.
    pub fn to_string(&self) -> (text: String)
        ensures
            text@ == self@.message(),
    {
        match self {
            BallOutcomeValidation::DoubleOutcome(first, second) => {
                let mut text = String::from_str("Incompatible double outcomes ");
                text.append(first.as_str());
                text.append(" and ");
                text.append(second.as_str());
                text.append(" given.");
                text
            },
        }
    }
}

} // verus!

//! The dialogue of a temperature converter.
//!
//! The converter asks which way to convert, then for a temperature, and
//! starts over whenever an entry is unusable. This module decides what
//! happens after each entry; reading the entries, the arithmetic on the
//! temperature and the printing are left to the caller.

use vstd::prelude::*;
use crate::text::{parse_i32, parsed_i32, trim, trimmed};

verus! {

/// The two conversions on offer.
#[derive(Clone, Copy, Debug, PartialEq, Eq, Structural)]
pub enum Conversion {
    FahrenheitToCelsius,
    CelsiusToFahrenheit,
}

/// Why an entry was turned down.
#[derive(Clone, Copy, Debug, PartialEq, Eq, Structural)]
pub enum Complaint {
    /// The menu choice was not a whole number.
    ChoiceNotNumeric,
    /// The temperature was not a number.
    TemperatureNotNumeric,
    /// The menu choice was a number, but not one on the menu.
    UnknownOption,
}

/// Where the dialogue stands.
#[derive(Clone, Copy, Debug, PartialEq, Eq)]
pub enum Session {
    /// The menu was shown; a choice is awaited.
    AwaitingChoice,
    /// A numeric choice was entered; a temperature is awaited.
    AwaitingTemperature { choice: i32 },
    /// A conversion was ordered; nothing more is awaited.
    Finished,
}

/// What the user entered, as far as the dialogue needs to know it.
#[derive(Clone, Copy, Debug, PartialEq, Eq)]
pub enum Reply {
    /// The number read from the choice line, or `None` where it held none.
    Choice(Option<i32>),
    /// Whether the temperature line held a number.
    Temperature(bool),
}

/// What the caller is to do after an entry.
#[derive(Clone, Copy, Debug, PartialEq, Eq)]
pub enum Action {
    /// Ask for the temperature.
    AskTemperature,
    /// Show the complaint, then the menu again.
    Retry(Complaint),
    /// Convert the temperature that was entered, show the result and stop.
    Convert(Conversion),
}

impl Conversion {
    /// The conversion listed under a menu number.
    pub open spec fn on_menu(choice: i32) -> Option<Conversion> {
        if choice == 1 {
            Some(Conversion::FahrenheitToCelsius)
        } else if choice == 2 {
            Some(Conversion::CelsiusToFahrenheit)
        } else {
            None
        }
    }

    /// Looks a menu number up: 1 and 2 are on the menu, nothing else is.
    pub fn from_choice(choice: i32) -> (conversion: Option<Conversion>)
        ensures
            conversion == Conversion::on_menu(choice),
    {
        if choice == 1 {
            Some(Conversion::FahrenheitToCelsius)
        } else if choice == 2 {
            Some(Conversion::CelsiusToFahrenheit)
        } else {
            None
        }
    }
}

impl Complaint {
    /// The sentence shown for a complaint.
    pub open spec fn wording(self) -> Seq<char> {
        match self {
            Complaint::ChoiceNotNumeric => "That is not a correct option type"@,
            Complaint::TemperatureNotNumeric => "That is not a correct temperature type"@,
            Complaint::UnknownOption => "That is not an option!"@,
        }
    }

    /// The sentence shown for a complaint.
    pub fn message(&self) -> (sentence: &'static str)
        ensures
            sentence@ == self.wording(),
    {
        match self {
            Complaint::ChoiceNotNumeric => "That is not a correct option type",
            Complaint::TemperatureNotNumeric => "That is not a correct temperature type",
            Complaint::UnknownOption => "That is not an option!",
        }
    }
}

impl Session {
    /// The reply is of the kind that the session is waiting for.
    pub open spec fn awaits(self, reply: Reply) -> bool {
        match (self, reply) {
            (Session::AwaitingChoice, Reply::Choice(_)) => true,
            (Session::AwaitingTemperature { .. }, Reply::Temperature(_)) => true,
            _ => false,
        }
    }

    /// The session after a reply, and what the caller is to do.
    ///
    /// A choice that is no number is turned down at once. A numeric choice is
    /// kept, whatever the number, until the temperature has been entered:
    /// only a usable temperature brings the menu into play.
    pub open spec fn after(self, reply: Reply) -> (Session, Action)
        recommends
            self.awaits(reply),
    {
        match (self, reply) {
            (Session::AwaitingChoice, Reply::Choice(Some(choice))) => (
                Session::AwaitingTemperature { choice },
                Action::AskTemperature,
            ),
            (Session::AwaitingTemperature { choice }, Reply::Temperature(true)) => {
                match Conversion::on_menu(choice) {
                    Some(conversion) => (Session::Finished, Action::Convert(conversion)),
                    None => (Session::AwaitingChoice, Action::Retry(Complaint::UnknownOption)),
                }
            },
            (Session::AwaitingTemperature { .. }, _) => (
                Session::AwaitingChoice,
                Action::Retry(Complaint::TemperatureNotNumeric),
            ),
            _ => (Session::AwaitingChoice, Action::Retry(Complaint::ChoiceNotNumeric)),
        }
    }

    /// A fresh dialogue: the menu is on show and a choice is awaited.
    pub fn start() -> (session: Session)
        ensures
            session == Session::AwaitingChoice,
    {
        Session::AwaitingChoice
    }

    /// Whether the reply is of the kind that the session is waiting for.
    pub fn expects(&self, reply: &Reply) -> (expected: bool)
        ensures
            expected == self.awaits(*reply),
    {
        match (self, reply) {
            (Session::AwaitingChoice, Reply::Choice(_)) => true,
            (Session::AwaitingTemperature { .. }, Reply::Temperature(_)) => true,
            _ => false,
        }
    }

    /// Whether the dialogue is over.
    pub fn is_finished(&self) -> (done: bool)
        ensures
            done == (*self == Session::Finished),
    {
        match self {
            Session::Finished => true,
            _ => false,
        }
    }

    /// Takes one reply and says where the dialogue goes from there.
    pub fn step(self, reply: Reply) -> (outcome: (Session, Action))
        requires
            self.awaits(reply),
        ensures
            outcome == self.after(reply),
    {
        match self {
            Session::AwaitingTemperature { choice } => match reply {
                Reply::Temperature(true) => match Conversion::from_choice(choice) {
                    Some(conversion) => (Session::Finished, Action::Convert(conversion)),
                    None => (Session::AwaitingChoice, Action::Retry(Complaint::UnknownOption)),
                },
                _ => (Session::AwaitingChoice, Action::Retry(Complaint::TemperatureNotNumeric)),
            },
            _ => match reply {
                Reply::Choice(Some(choice)) => (
                    Session::AwaitingTemperature { choice },
                    Action::AskTemperature,
                ),
                _ => (Session::AwaitingChoice, Action::Retry(Complaint::ChoiceNotNumeric)),
            },
        }
    }
}

/// Reads the menu choice off a line of input: the number that the line holds
/// once the white space around it is gone, if it holds one.
pub fn read_choice(line: &str) -> (choice: Option<i32>)
    ensures
        choice == parsed_i32(trimmed(line@)),
{
    parse_i32(trim(line))
}

/// An entry that is turned down never ends the dialogue: the menu is shown
/// again and a choice is awaited, with no count of the attempts kept. An
/// entry that holds no number is always turned down, with the complaint that
/// names the entry.
pub proof fn lemma_complaint_leads_back_to_menu(session: Session, reply: Reply)
    requires
        session.awaits(reply),
    ensures
        session.after(reply).1 is Retry ==> session.after(reply).0 == Session::AwaitingChoice,
        reply == Reply::Choice(None) ==> session.after(reply) == (
            Session::AwaitingChoice,
            Action::Retry(Complaint::ChoiceNotNumeric),
        ),
        reply == Reply::Temperature(false) ==> session.after(reply) == (
            Session::AwaitingChoice,
            Action::Retry(Complaint::TemperatureNotNumeric),
        ),
{
}

/// The one kind of reply that ends a dialogue: a usable temperature, entered
/// after a choice of 1 or 2.
pub open spec fn concludes(session: Session, reply: Reply) -> bool {
    &&& session matches Session::AwaitingTemperature { choice }
    &&& reply == Reply::Temperature(true)
    &&& (choice == 1 || choice == 2)
}

/// The dialogue ends on the reply that concludes it and on no other. The
/// conversion ordered is then the one that the menu lists under the choice,
/// and it is the last thing ordered: a finished dialogue awaits no reply.
pub proof fn lemma_one_conversion_ends_the_dialogue(session: Session, reply: Reply)
    requires
        session.awaits(reply),
    ensures
        session.after(reply).0 == Session::Finished <==> concludes(session, reply),
        session.after(reply).1 is Convert <==> concludes(session, reply),
        session.after(reply).1 matches Action::Convert(conversion) ==> (session
            matches Session::AwaitingTemperature { choice } && Conversion::on_menu(choice) == Some(
            conversion,
        )),
        !Session::Finished.awaits(reply),
{
}

} // verus!

//! The main menu of the interactive mode.

use vstd::prelude::*;
use crate::parse::same_text;

verus! {

/// What an answer to the main menu asks for.
#[derive(Debug, Clone, Copy, PartialEq, Eq, Structural)]
pub enum MenuChoice {
    ListPorts,
    TestPort,
    ConnectAndRead,
    SendFakeData,
    GenerateCommand,
    Quit,
    Invalid,
}

/// The entry that an answer selects: one of the numbers from 1 to 5, or `q`
/// in either case to quit; anything else selects nothing.
pub open spec fn choice_of(answer: Seq<char>) -> MenuChoice {
    if answer == "1"@ {
        MenuChoice::ListPorts
    } else if answer == "2"@ {
        MenuChoice::TestPort
    } else if answer == "3"@ {
        MenuChoice::ConnectAndRead
    } else if answer == "4"@ {
        MenuChoice::SendFakeData
    } else if answer == "5"@ {
        MenuChoice::GenerateCommand
    } else if answer == "q"@ || answer == "Q"@ {
        MenuChoice::Quit
    } else {
        MenuChoice::Invalid
    }
}

/// The entry of the main menu that an answer selects.
pub fn menu_choice(answer: &str) -> (choice: MenuChoice)
    ensures
        choice == choice_of(answer@),
{
    if same_text(answer, "1") {
        MenuChoice::ListPorts
    } else if same_text(answer, "2") {
        MenuChoice::TestPort
    } else if same_text(answer, "3") {
        MenuChoice::ConnectAndRead
    } else if same_text(answer, "4") {
        MenuChoice::SendFakeData
    } else if same_text(answer, "5") {
        MenuChoice::GenerateCommand
    } else if same_text(answer, "q") || same_text(answer, "Q") {
        MenuChoice::Quit
    } else {
        MenuChoice::Invalid
    }
}

} // verus!

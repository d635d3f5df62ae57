//! Commands a user can invoke from the menu, and the demo greeting.

use vstd::prelude::*;

verus! {

/// A command the user can trigger from the tray menu.
#[derive(Debug, PartialEq, Eq, Structural)]
pub enum UserCommand {
    Suggest,
}

impl UserCommand {
    /// The command's wire name.
    pub open spec fn spec_str(self) -> Seq<char> {
        match self {
            UserCommand::Suggest => "suggest"@,
        }
    }

    /// The command's wire name.
    pub fn as_str(&self) -> (r: &'static str)
        ensures
            r@ == self.spec_str(),
    {
        match self {
            UserCommand::Suggest => "suggest",
        }
    }
}

/// The greeting returned to the UI shell.
pub fn greet(name: &str) -> (r: String)
    ensures
        r@ == "Hello, "@ + name@ + "! You've been greeted from Rust!"@,
{
    let mut out = String::from_str("Hello, ");
    out.append(name);
    out.append("! You've been greeted from Rust!");
    out
}

} // verus!

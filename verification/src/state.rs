//! Top level state of the terminal application: which page is shown and why
//! the application stopped.

use vstd::prelude::*;

verus! {

/// The page of the application that is shown.
#[derive(Clone, Copy, Debug, PartialEq, Eq, Structural)]
pub enum ActivePage {
    Main,
    /// Setup is comprised of multiple screens, handled in the setup flow
    Setup,
}

impl Default for ActivePage {
    fn default() -> (page: Self)
        ensures
            page == ActivePage::Main,
    {
        ActivePage::Main
    }
}

/// Why the application stopped.
#[derive(Clone, Copy, Debug, PartialEq, Eq, Structural)]
pub enum Interrupted {
    OsSigInt,
    UserInt,
    SystemError,
}

/// The message printed when the application stops for `reason`.
pub open spec fn exit_message_text(reason: Interrupted) -> Seq<char> {
    match reason {
        Interrupted::UserInt => "exited per user request"@,
        Interrupted::OsSigInt => "exited because of an os sig int"@,
        Interrupted::SystemError => "exited because of a system error"@,
    }
}

impl Interrupted {
    /// The message printed when the application stops for this reason.
    pub fn exit_message(&self) -> (message: String)
        ensures
            message@ == exit_message_text(*self),
    {
        let s = match self {
            Interrupted::UserInt => "exited per user request",
            Interrupted::OsSigInt => "exited because of an os sig int",
            Interrupted::SystemError => "exited because of a system error",
        };
        s.to_owned()
    }
}

} // verus!

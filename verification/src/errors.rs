use vstd::prelude::*;

verus! {

/// Which Ferris is shown beside an error.
#[derive(Debug, Clone, Copy, PartialEq, Eq, Structural)]
pub enum ErrorFerris {
    Happy,
    Cute,
    Oops,
    Error,
    Panic,
    Sudo,
}

/// The labels and the binary of an update warning.
#[derive(Debug)]
pub struct WarnUpdateData {
    pub yes_button: String,
    pub no_button: String,
    pub name: String,
}

/// The buttons shown under an error.
#[derive(Debug)]
pub enum ErrorButtons {
    Okay,
    Debug,
    WarnUpdate(WarnUpdateData),
}

/// Whether `b` is an update warning with these labels for the binaries `name`.
pub open spec fn is_warn_update(b: ErrorButtons, yes: Seq<char>, no: Seq<char>, name: Seq<char>) -> bool {
    match b {
        ErrorButtons::WarnUpdate(d) => d.yes_button@ == yes && d.no_button@ == no && d.name@ == name,
        _ => false,
    }
}

/// The error shown over the whole window until the user responds.
#[derive(Debug)]
pub struct ErrorState {
    pub error: bool,
    pub msg: String,
    pub ferris: ErrorFerris,
    pub buttons: ErrorButtons,
}

impl ErrorState {
    /// No error.
    pub fn new() -> (r: Self)
        ensures
            !r.error,
            r.msg@ == Seq::<char>::empty(),
            r.ferris == ErrorFerris::Happy,
            r.buttons is Okay,
    {
        ErrorState { error: false, msg: String::new(), ferris: ErrorFerris::Happy, buttons: ErrorButtons::Okay }
    }

    /// Shows an error.
    pub fn set(&mut self, msg: String, ferris: ErrorFerris, buttons: ErrorButtons)
        ensures
            final(self).error,
            final(self).msg == msg,
            final(self).ferris == ferris,
            final(self).buttons == buttons,
    {
        self.error = true;
        self.msg = msg;
        self.ferris = ferris;
        self.buttons = buttons;
    }
}

} // verus!

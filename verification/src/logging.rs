use vstd::prelude::*;
use vstd::string::StringExecFns;

verus! {

/// How much a message matters. A lower rank is more urgent; a printer set to
/// some level shows every message whose rank does not exceed its own.
#[derive(Debug, Clone, Copy, PartialEq, Eq, Structural)]
pub enum Verbosity {
    Error,
    Warn,
    Standard,
    Debug,
}

impl Verbosity {
    /// Position in the order `Error < Warn < Standard < Debug`.
    pub open spec fn rank(self) -> nat {
        match self {
            Verbosity::Error => 0,
            Verbosity::Warn => 1,
            Verbosity::Standard => 2,
            Verbosity::Debug => 3,
        }
    }

    fn level(&self) -> (r: u8)
        ensures
            r as nat == self.rank(),
    {
        match self {
            Verbosity::Error => 0,
            Verbosity::Warn => 1,
            Verbosity::Standard => 2,
            Verbosity::Debug => 3,
        }
    }

    /// Returns true if a message of the given verbosity is printed when
    /// `self` is the configured level.
    pub fn should_print(&self, verbosity: &Verbosity) -> (shown: bool)
        ensures
            shown == (verbosity.rank() <= self.rank()),
    {
        verbosity.level() <= self.level()
    }
}

impl Verbosity {
    /// The word that is printed in front of a message of this verbosity.
    /// A standard message has none.
    pub open spec fn label(self) -> Seq<char> {
        match self {
            Verbosity::Standard => ""@,
            Verbosity::Warn => "WARN:"@,
            Verbosity::Debug => "DEBUG:"@,
            Verbosity::Error => "ERROR:"@,
        }
    }

    pub fn as_str(&self) -> (r: &'static str)
        ensures
            r@ == self.label(),
    {
        match self {
            Verbosity::Standard => "",
            Verbosity::Warn => "WARN:",
            Verbosity::Debug => "DEBUG:",
            Verbosity::Error => "ERROR:",
        }
    }
}

/// PrintPayload represents the messages that can be sent from a logger.
#[derive(Debug, Clone, PartialEq, Eq)]
pub enum PrintPayload {
    /// Change what is shown from now on.
    SetVerbosity(Verbosity),
    /// A message and how much it matters.
    Output(Verbosity, String),
}

impl PrintPayload {
    /// A message with standard verbosity.
    pub fn standard(msg: &str) -> (r: PrintPayload)
        ensures
            r matches PrintPayload::Output(level, text) && level == Verbosity::Standard && text@
                == msg@,
    {
        PrintPayload::Output(Verbosity::Standard, String::from_str(msg))
    }

    /// A message with error verbosity.
    pub fn error(msg: &str) -> (r: PrintPayload)
        ensures
            r matches PrintPayload::Output(level, text) && level == Verbosity::Error && text@
                == msg@,
    {
        PrintPayload::Output(Verbosity::Error, String::from_str(msg))
    }

    /// A message with warn verbosity.
    pub fn warn(msg: &str) -> (r: PrintPayload)
        ensures
            r matches PrintPayload::Output(level, text) && level == Verbosity::Warn && text@
                == msg@,
    {
        PrintPayload::Output(Verbosity::Warn, String::from_str(msg))
    }

    /// A message with debug verbosity.
    pub fn debug(msg: &str) -> (r: PrintPayload)
        ensures
            r matches PrintPayload::Output(level, text) && level == Verbosity::Debug && text@
                == msg@,
    {
        PrintPayload::Output(Verbosity::Debug, String::from_str(msg))
    }
}

/// The text that is printed for a message: the message and a line feed,
/// behind the label of its verbosity and a space unless it is a standard
/// message.
pub open spec fn printed(level: Verbosity, message: Seq<char>) -> Seq<char> {
    if level == Verbosity::Standard {
        message + "\n"@
    } else {
        level.label() + " "@ + message + "\n"@
    }
}

/// What a printer set to `level` does with `payload`: the level it is set
/// to afterwards, and the text to print, if any.
pub open spec fn print_step(level: Verbosity, payload: PrintPayload) -> (Verbosity, Option<
    Seq<char>,
>) {
    match payload {
        PrintPayload::Output(verbosity, message) => if verbosity.rank() <= level.rank() {
            (level, Some(printed(verbosity, message@)))
        } else {
            (level, None)
        },
        PrintPayload::SetVerbosity(verbosity) => (verbosity, None),
    }
}

/// The side of the printer that decides: it knows the verbosity up to
/// which messages are shown.
#[derive(Debug, Clone, Copy, PartialEq, Eq, Structural)]
pub struct PrintFilter {
    pub verbosity: Verbosity,
}

impl PrintFilter {
    pub fn new(verbosity: Verbosity) -> (r: Self)
        ensures
            r.verbosity == verbosity,
    {
        PrintFilter { verbosity }
    }

    /// Takes the next payload and gives the text to print for it, if it is
    /// to be shown.
    pub fn on_payload(&mut self, payload: PrintPayload) -> (r: Option<String>)
        ensures
            final(self).verbosity == print_step(old(self).verbosity, payload).0,
            match print_step(old(self).verbosity, payload).1 {
                Some(text) => r matches Some(out) && out@ == text,
                None => r is None,
            },
    {
        match payload {
            PrintPayload::Output(verbosity, message) => {
                if self.verbosity.should_print(&verbosity) {
                    let mut out = String::new();
                    match verbosity {
                        Verbosity::Standard => {},
                        _ => {
                            out.append(verbosity.as_str());
                            out.append(" ");
                        },
                    }
                    out.append(message.as_str());
                    out.append("\n");
                    assert(out@ =~= printed(verbosity, message@));
                    Some(out)
                } else {
                    None
                }
            },
            PrintPayload::SetVerbosity(verbosity) => {
                self.verbosity = verbosity;
                None
            },
        }
    }
}

} // verus!

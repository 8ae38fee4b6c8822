use vstd::prelude::*;
use crate::error::Error;
use crate::text::str_eq;

verus! {

/// `ping`: always succeeds.
pub fn ping() -> (r: Result<(), Error>)
    ensures
        r == Ok::<(), Error>(()),
{
    Ok(())
}

/// `echo <text>`: the reply is the text; without one the arguments are invalid.
pub fn echo(arg: Option<String>) -> (r: Result<String, Error>)
    ensures
        match arg {
            Some(t) => r == Ok::<String, Error>(t),
            None => r == Err::<String, Error>(Error::InvalidArguments),
        },
{
    match arg {
        Some(t) => Ok(t),
        None => Err(Error::InvalidArguments),
    }
}

/// The commands of the general group.
#[derive(Debug, Clone, Copy, PartialEq, Eq, Structural)]
pub enum GeneralCommand {
    Ping,
    Echo,
}

/// The command of the general group that `name` calls, if any.
pub open spec fn general_command(name: Seq<char>) -> Option<GeneralCommand> {
    if name == "ping"@ {
        Some(GeneralCommand::Ping)
    } else if name == "echo"@ {
        Some(GeneralCommand::Echo)
    } else {
        None
    }
}

/// The general command group.
pub struct General;

impl General {
    /// The command that `name` calls.
    pub fn find(name: &str) -> (r: Option<GeneralCommand>)
        ensures
            r == general_command(name@),
    {
        if str_eq(name, "ping") {
            Some(GeneralCommand::Ping)
        } else if str_eq(name, "echo") {
            Some(GeneralCommand::Echo)
        } else {
            None
        }
    }
}

/// Answers gateway events of the general group.
pub struct Handler;

impl Handler {
    /// The line logged once the bot, named `user_name`, is connected.
    pub fn ready_line(&self, user_name: &str) -> (r: String)
        ensures
            r@ == user_name@ + " is connected!"@,
    {
        let mut s = String::from_str(user_name);
        s.append(" is connected!");
        s
    }
}

} // verus!

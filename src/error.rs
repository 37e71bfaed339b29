use vstd::prelude::*;
use vstd::string::*;

verus! {

/// The ways building a document can be refused.
#[derive(Debug)]
pub enum RobotsTxtError {
    /// A document already holds an agent with this name.
    DuplicateAgentName(String),
    /// A directive path that does not start with `/`.
    InvalidPath(String),
}

/// The message that describes an error, naming the offending agent name or path.
pub open spec fn error_message(e: RobotsTxtError) -> Seq<char> {
    match e {
        RobotsTxtError::DuplicateAgentName(name) => "Hey, dingus... there's already a "@ + name@
            + " block"@,
        RobotsTxtError::InvalidPath(path) => "a valid path must start with a forward slash (/), "@
            + path@ + " is not valid"@,
    }
}

impl RobotsTxtError {
    /// A human-readable description of the error.
    pub fn message(&self) -> (r: String)
        ensures
            r@ == error_message(*self),
    {
        match self {
            RobotsTxtError::DuplicateAgentName(name) => {
                let mut r = String::from_str("Hey, dingus... there's already a ");
                r.append(name.as_str());
                r.append(" block");
                r
            },
            RobotsTxtError::InvalidPath(path) => {
                let mut r = String::from_str("a valid path must start with a forward slash (/), ");
                r.append(path.as_str());
                r.append(" is not valid");
                r
            },
        }
    }
}

} // verus!

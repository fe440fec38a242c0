//! Domain data model: the initiator singleton, discovered target nodes,
//! login credentials, login outcomes and the transport error type.

use vstd::prelude::*;

verus! {

/// The iSCSI initiator singleton: its name and whether the name was
/// configured by firmware (iBFT).  The name is the only mutable part;
/// the firmware flag is read-only from this service's point of view.
#[derive(Debug, Clone)]
pub struct Initiator {
    pub name: String,
    pub ibft: bool,
}

/// Startup policy of a discovered node: whether it connects at boot,
/// on demand, or automatically.
#[derive(Clone, Copy, PartialEq, Eq, Structural, Debug)]
pub enum Startup {
    Onboot,
    Manual,
    Automatic,
}

/// A discovered iSCSI target node.  The identifier is stable only within
/// one discovery session.
#[derive(Debug, Clone)]
pub struct Node {
    pub id: u32,
    pub address: String,
    pub port: u32,
    pub target: String,
    pub startup: Startup,
    pub connected: bool,
}

/// Optional credential pair for the outgoing direction and, symmetrically,
/// for mutual (reverse) authentication.  A `None` field means that side
/// goes unauthenticated.
#[derive(Debug, Clone)]
pub struct AuthOptions {
    pub username: Option<String>,
    pub password: Option<String>,
    pub reverse_username: Option<String>,
    pub reverse_password: Option<String>,
}

/// Outcome of a login attempt.  Every domain-level refusal is a first-class
/// value here, never an error: only transport failures become [`ServiceError`].
#[derive(Clone, Copy, PartialEq, Eq, Structural, Debug)]
pub enum LoginOutcome {
    Success,
    AuthFailure,
    AlreadyLoggedIn,
    TargetUnreachable,
}

/// A transport-level failure: the bus was unreachable or answered with
/// something this library cannot interpret.  Domain-level refusals never
/// take this form.
#[derive(Debug, Clone)]
pub enum ServiceError {
    /// The bus call itself failed; the payload is the transport's own report.
    Bus(String),
    /// The bus answered, but the reply did not have the shape the
    /// operation's protocol defines.
    UnexpectedReply,
}

/// Compares a string against a literal key or label.
pub(crate) fn str_is(s: &String, lit: &str) -> (r: bool)
    ensures
        r == (s@ == lit@),
{
    let l: String = lit.to_string();
    *s == l
}

impl Startup {
    /// The wire label of each startup policy.
    pub open spec fn spec_label(self) -> Seq<char> {
        match self {
            Startup::Onboot => "onboot"@,
            Startup::Manual => "manual"@,
            Startup::Automatic => "automatic"@,
        }
    }

    /// What [`Startup::parse`] accepts: exactly the three wire labels.
    pub open spec fn spec_parse(s: Seq<char>) -> Option<Startup> {
        if s == "onboot"@ {
            Some(Startup::Onboot)
        } else if s == "manual"@ {
            Some(Startup::Manual)
        } else if s == "automatic"@ {
            Some(Startup::Automatic)
        } else {
            None
        }
    }

    /// Renders the policy as its wire label.
    pub fn label(&self) -> (s: String)
        ensures
            s@ == self.spec_label(),
    {
        match self {
            Startup::Onboot => "onboot".to_string(),
            Startup::Manual => "manual".to_string(),
            Startup::Automatic => "automatic".to_string(),
        }
    }

    /// Reads a startup policy from its wire label; any other string is
    /// rejected.
    pub fn parse(s: &String) -> (r: Option<Startup>)
        ensures
            r == Self::spec_parse(s@),
    {
        if str_is(s, "onboot") {
            Some(Startup::Onboot)
        } else if str_is(s, "manual") {
            Some(Startup::Manual)
        } else if str_is(s, "automatic") {
            Some(Startup::Automatic)
        } else {
            None
        }
    }
}

impl LoginOutcome {
    /// The numeric code under which the bus reports each outcome.
    pub open spec fn spec_code(self) -> u32 {
        match self {
            LoginOutcome::Success => 0,
            LoginOutcome::AuthFailure => 1,
            LoginOutcome::AlreadyLoggedIn => 2,
            LoginOutcome::TargetUnreachable => 3,
        }
    }

    /// What [`LoginOutcome::from_code`] accepts: the four defined codes,
    /// and nothing else.
    pub open spec fn spec_from_code(c: u32) -> Option<LoginOutcome> {
        if c == 0 {
            Some(LoginOutcome::Success)
        } else if c == 1 {
            Some(LoginOutcome::AuthFailure)
        } else if c == 2 {
            Some(LoginOutcome::AlreadyLoggedIn)
        } else if c == 3 {
            Some(LoginOutcome::TargetUnreachable)
        } else {
            None
        }
    }

    /// The numeric code of this outcome.
    pub fn code(&self) -> (c: u32)
        ensures
            c == self.spec_code(),
    {
        match self {
            LoginOutcome::Success => 0,
            LoginOutcome::AuthFailure => 1,
            LoginOutcome::AlreadyLoggedIn => 2,
            LoginOutcome::TargetUnreachable => 3,
        }
    }

    /// Reads an outcome back from its numeric code.  An undefined code
    /// yields `None`; callers treat that as a malformed reply.  Decoding
    /// inverts [`LoginOutcome::code`].
    pub fn from_code(c: u32) -> (r: Option<LoginOutcome>)
        ensures
            r == Self::spec_from_code(c),
            r matches Some(o) ==> o.spec_code() == c,
    {
        if c == 0 {
            Some(LoginOutcome::Success)
        } else if c == 1 {
            Some(LoginOutcome::AuthFailure)
        } else if c == 2 {
            Some(LoginOutcome::AlreadyLoggedIn)
        } else if c == 3 {
            Some(LoginOutcome::TargetUnreachable)
        } else {
            None
        }
    }

    /// The name under which an outcome appears in a response body.
    pub open spec fn spec_name(self) -> Seq<char> {
        match self {
            LoginOutcome::Success => "Success"@,
            LoginOutcome::AuthFailure => "AuthFailure"@,
            LoginOutcome::AlreadyLoggedIn => "AlreadyLoggedIn"@,
            LoginOutcome::TargetUnreachable => "TargetUnreachable"@,
        }
    }

    /// Renders the outcome's name for a response body.
    pub fn name(&self) -> (s: String)
        ensures
            s@ == self.spec_name(),
    {
        match self {
            LoginOutcome::Success => "Success".to_string(),
            LoginOutcome::AuthFailure => "AuthFailure".to_string(),
            LoginOutcome::AlreadyLoggedIn => "AlreadyLoggedIn".to_string(),
            LoginOutcome::TargetUnreachable => "TargetUnreachable".to_string(),
        }
    }
}

} // verus!

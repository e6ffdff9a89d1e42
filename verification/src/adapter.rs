//! Request adapter: decode an inbound payload into a typed command, run it
//! against the store, and map every outcome to one distinct response.
//!
//! Decoding never processes a malformed payload partially: unless the
//! payload yields a complete, unambiguous command, the outcome is
//! `InvalidInput` and the store is untouched. The payload must make its
//! intent explicit — `create` for registration, `delta` for a balance
//! mutation, neither for a pure credential check; a payload that asserts a
//! balance directly (a `currency` field without `create`) is refused.

use crate::json::decode_fields;
use crate::json::fields_of;
use crate::json::view_opt_i64;
use crate::json::view_opt_str;
use crate::service::Outcome;
use crate::service::adjust_balance;
use crate::service::authenticate;
use crate::service::register;
use crate::service::spec_adjust;
use crate::service::spec_authenticate;
use crate::service::spec_register;
use crate::store::AccountData;
use crate::store::CredentialStore;
use vstd::prelude::*;

verus! {

/// A fully decoded request.
#[derive(Clone, Debug, PartialEq)]
pub enum Command {
    /// Create an account with an initial balance.
    Register { name: String, password: String, currency: i64 },
    /// Move an account's balance by a signed delta.
    Adjust { name: String, password: String, delta: i64 },
    /// Check a credential and read the balance.
    Authenticate { name: String, password: String },
}

/// Mathematical content of a command.
pub ghost enum CommandV {
    Register { name: Seq<char>, password: Seq<char>, currency: int },
    Adjust { name: Seq<char>, password: Seq<char>, delta: int },
    Authenticate { name: Seq<char>, password: Seq<char> },
}

impl View for Command {
    type V = CommandV;

    open spec fn view(&self) -> CommandV {
        match self {
            Command::Register { name, password, currency } => CommandV::Register {
                name: name@,
                password: password@,
                currency: *currency as int,
            },
            Command::Adjust { name, password, delta } => CommandV::Adjust {
                name: name@,
                password: password@,
                delta: *delta as int,
            },
            Command::Authenticate { name, password } => CommandV::Authenticate {
                name: name@,
                password: password@,
            },
        }
    }
}

pub open spec fn view_opt_cmd(o: Option<Command>) -> Option<CommandV> {
    match o {
        Some(c) => Some(c@),
        None => None,
    }
}

/// Which command a set of extracted payload fields denotes, if any:
/// `name` and `password` are always required; `create = true` with a
/// `currency` is a registration; a `delta` alone is a balance adjustment;
/// neither is a credential check. Anything else — a missing required field,
/// a registration without an initial balance, a `delta` next to `create`,
/// or a bare `currency` asserting a balance — denotes nothing.
pub open spec fn spec_build(
    name: Option<Seq<char>>,
    password: Option<Seq<char>>,
    currency: Option<int>,
    delta: Option<int>,
    create: Option<bool>,
) -> Option<CommandV> {
    match (name, password) {
        (Some(n), Some(p)) => {
            if create == Some(true) {
                match (currency, delta) {
                    (Some(c), None) => Some(CommandV::Register { name: n, password: p, currency: c }),
                    _ => None,
                }
            } else {
                match (currency, delta) {
                    (None, Some(d)) => Some(CommandV::Adjust { name: n, password: p, delta: d }),
                    (None, None) => Some(CommandV::Authenticate { name: n, password: p }),
                    _ => None,
                }
            }
        },
        _ => None,
    }
}

/// Build the typed command that the extracted fields denote; `None` exactly
/// when the fields denote no command.
pub fn build_command(
    name: Option<String>,
    password: Option<String>,
    currency: Option<i64>,
    delta: Option<i64>,
    create: Option<bool>,
) -> (r: Option<Command>)
    ensures
        view_opt_cmd(r) == spec_build(
            view_opt_str(name),
            view_opt_str(password),
            view_opt_i64(currency),
            view_opt_i64(delta),
            create,
        ),
{
    match (name, password) {
        (Some(n), Some(p)) => {
            let is_create = match create {
                Some(flag) => flag,
                None => false,
            };
            if is_create {
                match (currency, delta) {
                    (Some(c), None) => Some(Command::Register { name: n, password: p, currency: c }),
                    _ => None,
                }
            } else {
                match (currency, delta) {
                    (None, Some(d)) => Some(Command::Adjust { name: n, password: p, delta: d }),
                    (None, None) => Some(Command::Authenticate { name: n, password: p }),
                    _ => None,
                }
            }
        },
        _ => None,
    }
}

/// What one command does to the store and reports back.
pub open spec fn spec_step(m: Map<Seq<char>, AccountData>, c: CommandV) -> (Outcome, Map<
    Seq<char>,
    AccountData,
>) {
    match c {
        CommandV::Register { name, password, currency } => spec_register(m, name, password, currency),
        CommandV::Adjust { name, password, delta } => spec_adjust(m, name, password, delta),
        CommandV::Authenticate { name, password } => (spec_authenticate(m, name, password), m),
    }
}

/// Execute one decoded command against the store.
pub fn apply_command(store: &mut CredentialStore, cmd: &Command) -> (r: Outcome)
    requires
        old(store).wf(),
    ensures
        final(store).wf(),
        r == spec_step(old(store)@, cmd@).0,
        final(store)@ == spec_step(old(store)@, cmd@).1,
{
    match cmd {
        Command::Register { name, password, currency } => register(store, name, password, *currency),
        Command::Adjust { name, password, delta } => adjust_balance(store, name, password, *delta),
        Command::Authenticate { name, password } => authenticate(store, name, password),
    }
}

/// The command a request body denotes, if any: the decoded fields of the
/// body, fed to `spec_build`.
pub open spec fn spec_decode(body: Seq<char>) -> Option<CommandV> {
    let fields = fields_of(body);
    spec_build(fields.0, fields.1, fields.2, fields.3, fields.4)
}

/// Decode one request body into the command it denotes; `None` exactly when
/// it denotes no command.
pub fn decode_payload(body: &str) -> (r: Option<Command>)
    ensures
        view_opt_cmd(r) == spec_decode(body@),
{
    let fields = decode_fields(body);
    build_command(fields.0, fields.1, fields.2, fields.3, fields.4)
}

/// Handle one raw request body: decode, execute, report.
///
/// The outcome and the store's new value are exactly the effect of the
/// command the body denotes; a body that denotes no command yields
/// `InvalidInput`, and an `InvalidInput` outcome always leaves the store
/// unchanged — a malformed payload performs no mutation.
pub fn handle_payload(store: &mut CredentialStore, body: &str) -> (r: Outcome)
    requires
        old(store).wf(),
    ensures
        final(store).wf(),
        (match spec_decode(body@) {
            Some(c) => (r, final(store)@) == spec_step(old(store)@, c),
            None => r == Outcome::InvalidInput && final(store)@ == old(store)@,
        }),
        r == Outcome::InvalidInput ==> final(store)@ == old(store)@,
        r != Outcome::IntegrityError,
{
    match decode_payload(body) {
        Some(cmd) => apply_command(store, &cmd),
        None => Outcome::InvalidInput,
    }
}

/// The response status class of each outcome, one per variant.
pub open spec fn spec_status(o: Outcome) -> u16 {
    match o {
        Outcome::Created => 201,
        Outcome::AlreadyExists => 409,
        Outcome::Authenticated(_) => 200,
        Outcome::Adjusted(_) => 200,
        Outcome::NotFound => 404,
        Outcome::Unauthorized => 401,
        Outcome::InsufficientFunds => 422,
        Outcome::Overflow => 422,
        Outcome::InvalidInput => 400,
        Outcome::IntegrityError => 500,
    }
}

/// The response body of each outcome; distinct per variant, so no outcome
/// collapses into a generic success.
pub open spec fn spec_body(o: Outcome) -> Seq<char> {
    match o {
        Outcome::Created => "account created"@,
        Outcome::AlreadyExists => "account already exists"@,
        Outcome::Authenticated(_) => "balance returned"@,
        Outcome::Adjusted(_) => "balance updated"@,
        Outcome::NotFound => "no such account"@,
        Outcome::Unauthorized => "invalid credentials"@,
        Outcome::InsufficientFunds => "insufficient funds"@,
        Outcome::Overflow => "balance out of range"@,
        Outcome::InvalidInput => "bad request"@,
        Outcome::IntegrityError => "account integrity violated"@,
    }
}

/// The balance an outcome carries, if any.
pub open spec fn spec_balance(o: Outcome) -> Option<i64> {
    match o {
        Outcome::Authenticated(v) => Some(v),
        Outcome::Adjusted(v) => Some(v),
        _ => None,
    }
}

/// Map an outcome to its response status.
pub fn outcome_status(o: &Outcome) -> (code: u16)
    ensures
        code == spec_status(*o),
{
    match o {
        Outcome::Created => 201,
        Outcome::AlreadyExists => 409,
        Outcome::Authenticated(_) => 200,
        Outcome::Adjusted(_) => 200,
        Outcome::NotFound => 404,
        Outcome::Unauthorized => 401,
        Outcome::InsufficientFunds => 422,
        Outcome::Overflow => 422,
        Outcome::InvalidInput => 400,
        Outcome::IntegrityError => 500,
    }
}

/// Map an outcome to its response body.
pub fn outcome_body(o: &Outcome) -> (b: String)
    ensures
        b@ == spec_body(*o),
{
    match o {
        Outcome::Created => "account created".to_owned(),
        Outcome::AlreadyExists => "account already exists".to_owned(),
        Outcome::Authenticated(_) => "balance returned".to_owned(),
        Outcome::Adjusted(_) => "balance updated".to_owned(),
        Outcome::NotFound => "no such account".to_owned(),
        Outcome::Unauthorized => "invalid credentials".to_owned(),
        Outcome::InsufficientFunds => "insufficient funds".to_owned(),
        Outcome::Overflow => "balance out of range".to_owned(),
        Outcome::InvalidInput => "bad request".to_owned(),
        Outcome::IntegrityError => "account integrity violated".to_owned(),
    }
}

/// The balance an outcome carries, for the transport to render.
pub fn outcome_balance(o: &Outcome) -> (b: Option<i64>)
    ensures
        b == spec_balance(*o),
{
    match o {
        Outcome::Authenticated(v) => Some(*v),
        Outcome::Adjusted(v) => Some(*v),
        _ => None,
    }
}

} // verus!

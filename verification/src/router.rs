//! The command router: a registry from command names to handlers, and the
//! dispatch step that parses incoming text and routes it to the matching
//! handler.
//!
//! The registry's view is a map from command-name character sequences to
//! handlers. Registration inserts into that map, later registrations winning
//! over earlier ones for the same name; dispatch looks the command token up
//! and invokes the handler found, or succeeds without effect when the token
//! is unknown, since not every message is a command.

use std::io::Write;

use vstd::prelude::*;

use crate::arguments::args_of;
use crate::arguments::command_of;
use crate::arguments::split_command;
use crate::error::CustomError;
use reqwest::Client;

verus! {

/// The common interface of all commands. Each command implements `execute`,
/// which handles the command's logic.
///
/// `executed` is the implementor's own description of one completed call:
/// dispatch can only establish it for the result of a genuine `execute` call
/// with exactly the stated arguments.
pub trait Command: Send + Sync {
    /// What a finished `execute` call with these arguments and this result
    /// means for this command. Implementations that say nothing keep the
    /// default, which claims nothing.
    open spec fn executed(
        &self,
        token: Seq<char>,
        channel_id: Seq<char>,
        args: Seq<char>,
        r: Result<(), CustomError>,
    ) -> bool {
        true
    }

    /// Execute the command with the shared HTTP client, the bearer token for
    /// authentication, the identifier of the channel where the command was
    /// invoked, and the argument string.
    fn execute(&self, client: &Client, token: &str, channel_id: &str, args: &str) -> (r: Result<
        (),
        CustomError,
    >)
        ensures
            self.executed(token@, channel_id@, args@, r),
    ;
}

/// A registry of commands, keyed by command name, that dispatches incoming
/// message text to the matching command.
pub struct CommandRouter<H> {
    commands: Vec<(String, H)>,
}

/// The mapping that a sequence of registrations builds up: each entry is
/// inserted in order, so a later entry for the same name overrides an
/// earlier one.
pub open spec fn registry_map<H>(s: Seq<(String, H)>) -> Map<Seq<char>, H>
    decreases s.len(),
{
    if s.len() == 0 {
        Map::<Seq<char>, H>::empty()
    } else {
        registry_map(s.drop_last()).insert(s.last().0@, s.last().1)
    }
}

impl<H> View for CommandRouter<H> {
    type V = Map<Seq<char>, H>;

    closed spec fn view(&self) -> Map<Seq<char>, H> {
        registry_map(self.commands@)
    }
}

/// In a registration sequence whose last entry for `key` sits at `j`, the
/// built-up mapping sends `key` to that entry's handler.
proof fn lemma_registry_map_last_match<H>(s: Seq<(String, H)>, key: Seq<char>, j: int)
    requires
        0 <= j < s.len(),
        s[j].0@ == key,
        forall|k: int| j < k < s.len() ==> s[k].0@ != key,
    ensures
        registry_map(s).contains_key(key),
        registry_map(s)[key] == s[j].1,
    decreases s.len(),
{
    if j == s.len() - 1 {
    } else {
        lemma_registry_map_last_match(s.drop_last(), key, j);
    }
}

/// A registration sequence with no entry for `key` builds a mapping without
/// that key.
proof fn lemma_registry_map_no_match<H>(s: Seq<(String, H)>, key: Seq<char>)
    requires
        forall|k: int| 0 <= k < s.len() ==> s[k].0@ != key,
    ensures
        !registry_map(s).contains_key(key),
    decreases s.len(),
{
    if s.len() > 0 {
        lemma_registry_map_no_match(s.drop_last(), key);
    }
}

impl<H: Command> CommandRouter<H> {
    /// Create a new, empty `CommandRouter`.
    pub fn new() -> (r: Self)
        ensures
            r@ == Map::<Seq<char>, H>::empty(),
    {
        CommandRouter { commands: Vec::new() }
    }

    /// Register a command under `name` (e.g. `"!ping"`), inserting or
    /// replacing the mapping for that name. Registration always succeeds;
    /// subsequent dispatches for `name` use the new command.
    pub fn register_command(&mut self, name: &str, command: H)
        ensures
            final(self)@ == old(self)@.insert(name@, command),
    {
        let key = name.to_owned();
        self.commands.push((key, command));
        proof {
            assert(self.commands@.drop_last() =~= old(self).commands@);
            assert(final(self)@ =~= old(self)@.insert(name@, command));
        }
    }

    /// Look the exact command name up, returning the handler that the most
    /// recent registration for that name installed.
    fn lookup(&self, name: &str) -> (r: Option<&H>)
        ensures
            match r {
                Some(h) => self@.contains_key(name@) && *h == self@[name@],
                None => !self@.contains_key(name@),
            },
    {
        let key: String = name.to_owned();
        let mut j: usize = self.commands.len();
        while j > 0
            invariant
                j <= self.commands.len(),
                key@ == name@,
                forall|k: int| j <= k < self.commands@.len() ==> self.commands@[k].0@ != name@,
            decreases j,
        {
            j = j - 1;
            if self.commands[j].0 == key {
                proof {
                    lemma_registry_map_last_match(self.commands@, name@, j as int);
                }
                return Some(&self.commands[j].1);
            }
        }
        proof {
            lemma_registry_map_no_match(self.commands@, name@);
        }
        None
    }

    /// Dispatch a message based on its content.
    ///
    /// The content is split into a command token (up to the first space) and
    /// an argument remainder (everything after that space, or the empty
    /// string). When the token names a registered command, that command's
    /// `execute` runs with the client, token, channel identifier and exactly
    /// the argument remainder, and whatever it returns — success or its own
    /// error, untransformed — is the dispatch result. When the token is
    /// unknown, the line is logged and dispatch succeeds: unmatched input is
    /// an expected condition, not an error.
    pub fn dispatch(&self, client: &Client, token: &str, channel_id: &str, content: &str) -> (r:
        Result<(), CustomError>)
        ensures
            self@.contains_key(command_of(content@)) ==> self@[command_of(content@)].executed(
                token@,
                channel_id@,
                args_of(content@),
                r,
            ),
            !self@.contains_key(command_of(content@)) ==> r == Ok::<(), CustomError>(()),
    {
        let (name, args) = split_command(content);
        match self.lookup(name.as_str()) {
            Some(command) => command.execute(client, token, channel_id, args.as_str()),
            None => {
                log_unmatched(name.as_str());
                Ok(())
            },
        }
    }
}

/// Relies on std's `writeln` to `std::io::stdout`: prints one line naming the
/// unmatched command. Unrecognized input is logged and then ignored.
#[verifier::external_body]
fn log_unmatched(name: &str) {
    let _ = writeln!(std::io::stdout(), "Command not found: {}", name);
}

/// Law: a registered name routes, with exactly the given arguments. After
/// registering `h` under a space-free name `n`, the registry's map holds
/// `h` under the command token of `n + " " + a` for any argument text `a`,
/// and that input's argument remainder is exactly `a`; input that is exactly
/// `n` routes to `h` with empty arguments. Dispatch's own contract then makes
/// the invocation of `h` with those arguments.
pub proof fn lemma_registered_name_routes<H>(m: Map<Seq<char>, H>, n: Seq<char>, h: H, a: Seq<char>)
    requires
        forall|k: int| 0 <= k < n.len() ==> n[k] != ' ',
    ensures
        ({
            let m2 = m.insert(n, h);
            &&& m2.contains_key(command_of(n + seq![' '] + a))
            &&& m2[command_of(n + seq![' '] + a)] == h
            &&& args_of(n + seq![' '] + a) == a
            &&& m2.contains_key(command_of(n))
            &&& m2[command_of(n)] == h
            &&& args_of(n) == Seq::<char>::empty()
        }),
{
    crate::arguments::lemma_split_round_trip(n, a);
}

/// Law: re-registering a name replaces the mapping. Inserting `h1` and then
/// `h2` under the same name leaves the registry exactly as if only `h2` had
/// been registered, so a subsequent dispatch for that name uses `h2` alone.
pub proof fn lemma_reregister_replaces<H>(m: Map<Seq<char>, H>, n: Seq<char>, h1: H, h2: H)
    ensures
        m.insert(n, h1).insert(n, h2) == m.insert(n, h2),
        m.insert(n, h1).insert(n, h2)[n] == h2,
{
    assert(m.insert(n, h1).insert(n, h2) =~= m.insert(n, h2));
}

} // verus!

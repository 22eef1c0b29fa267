//! From an incoming message to the command that answers it, and from the
//! command's outcome to what the channel gets to see.
//!
//! Running a command is the caller's part: it sends replies and may wait
//! on the catalog service. What is decided before and after is decided
//! here, so that at most one command runs for a message.

use vstd::prelude::*;
use vstd::string::StringExecFns;
use crate::commands::{texts_of, CommandOptions, Guide, Invite, Reply, ReplyModel};
use crate::settings::{game_of, prefix_of, Settings, SettingsMap, SettingsModel};
use crate::text::chars_of;
use crate::words::{split_words, words};

verus! {

/// A command as the registry knows it.
pub struct Registered {
    pub name: String,
    pub options: CommandOptions,
}

/// The names that a registered command answers to.
pub ghost struct RegisteredModel {
    pub name: Seq<char>,
    pub aliases: Seq<Seq<char>>,
}

impl View for Registered {
    type V = RegisteredModel;

    open spec fn view(&self) -> RegisteredModel {
        RegisteredModel { name: self.name@, aliases: self.options.alias_texts() }
    }
}

impl RegisteredModel {
    /// The command is called by `name`: its own name or one of its
    /// aliases, letter for letter.
    pub open spec fn answers_to(self, name: Seq<char>) -> bool {
        self.name == name || self.aliases.contains(name)
    }
}

/// The registered commands, in the order in which they were registered.
pub struct Registry {
    pub commands: Vec<Registered>,
}

impl View for Registry {
    type V = Seq<RegisteredModel>;

    open spec fn view(&self) -> Seq<RegisteredModel> {
        self.commands@.map_values(|c: Registered| c@)
    }
}

/// `index` is the first command of `registry` that answers to `name`.
pub open spec fn first_match(registry: Seq<RegisteredModel>, name: Seq<char>, index: int) -> bool {
    &&& 0 <= index < registry.len()
    &&& registry[index].answers_to(name)
    &&& forall|k: int| 0 <= k < index ==> !(#[trigger] registry[k]).answers_to(name)
}

/// No command of `registry` answers to `name`.
pub open spec fn no_match(registry: Seq<RegisteredModel>, name: Seq<char>) -> bool {
    forall|k: int| 0 <= k < registry.len() ==> !(#[trigger] registry[k]).answers_to(name)
}

impl Registered {
    /// Whether the command is called by `name`.
    pub fn answers_to(&self, name: &String) -> (yes: bool)
        ensures
            yes == self@.answers_to(name@),
    {
        if self.name == *name {
            return true;
        }
        let ghost aliases = self.options.alias_texts();
        let mut i: usize = 0;
        while i < self.options.aliases.len()
            invariant
                i <= self.options.aliases@.len(),
                aliases == self.options.alias_texts(),
                forall|k: int| 0 <= k < i ==> aliases[k] != name@,
            decreases self.options.aliases@.len() - i,
        {
            if self.options.aliases[i] == *name {
                assert(aliases[i as int] == name@);
                return true;
            }
            i = i + 1;
        }
        false
    }
}

impl Registry {
    /// A registry without commands.
    pub fn new() -> (registry: Registry)
        ensures
            registry@ == Seq::<RegisteredModel>::empty(),
    {
        let registry = Registry { commands: Vec::new() };
        assert(registry@ =~= Seq::<RegisteredModel>::empty());
        registry
    }

    /// Registers a command under `name`, behind those registered before.
    pub fn register(&mut self, name: String, options: CommandOptions)
        ensures
            final(self)@ == old(self)@.push(
                RegisteredModel { name: name@, aliases: options.alias_texts() },
            ),
    {
        self.commands.push(Registered { name, options });
        assert(final(self)@ =~= old(self)@.push(
            RegisteredModel { name: name@, aliases: options.alias_texts() },
        ));
    }

    /// The first command that answers to `name`, by its place in the
    /// registry.
    pub fn find(&self, name: &String) -> (found: Option<usize>)
        ensures
            match found {
                Some(index) => first_match(self@, name@, index as int),
                None => no_match(self@, name@),
            },
    {
        let mut i: usize = 0;
        while i < self.commands.len()
            invariant
                i <= self.commands@.len(),
                forall|k: int| 0 <= k < i ==> !(#[trigger] self@[k]).answers_to(name@),
            decreases self.commands@.len() - i,
        {
            if self.commands[i].answers_to(name) {
                assert(self@[i as int] == self.commands@[i as int]@);
                return Some(i);
            }
            assert(self@[i as int] == self.commands@[i as int]@);
            i = i + 1;
        }
        None
    }
}

/// Where a message goes.
#[derive(Debug, Clone, PartialEq, Eq)]
pub enum Route {
    /// The message does not start with the prefix: it is no command.
    NotACommand,
    /// The message names no registered command.
    Unmatched,
    /// The message calls the command at place `command` of the registry,
    /// with the words `args`, for a guild bound to `game`.
    Run { command: usize, args: Vec<String>, game: Option<u32> },
}

/// What a `Route` stands for.
pub ghost enum RouteModel {
    NotACommand,
    Unmatched,
    Run { command: int, args: Seq<Seq<char>>, game: Option<u32> },
}

impl View for Route {
    type V = RouteModel;

    open spec fn view(&self) -> RouteModel {
        match self {
            Route::NotACommand => RouteModel::NotACommand,
            Route::Unmatched => RouteModel::Unmatched,
            Route::Run { command, args, game } => RouteModel::Run {
                command: *command as int,
                args: texts_of(args@),
                game: *game,
            },
        }
    }
}

/// The prefix that commands start with: the guild's own where it has one,
/// else the default.
pub open spec fn effective_prefix(custom: Option<Seq<char>>, default: Seq<char>) -> Seq<char> {
    match custom {
        Some(prefix) => prefix,
        None => default,
    }
}

/// `route` is where the message `content` goes, for a guild bound to
/// `game` whose commands start with `prefix`. A message that does not
/// start with the prefix is no command. Else the words behind the prefix
/// are the command's name and its arguments, and the first registered
/// command that answers to the name is the one to run; where there is no
/// word or no such command, the message is unmatched.
pub open spec fn routed(
    registry: Seq<RegisteredModel>,
    prefix: Seq<char>,
    game: Option<u32>,
    content: Seq<char>,
    route: RouteModel,
) -> bool {
    if !prefix.is_prefix_of(content) {
        route == RouteModel::NotACommand
    } else {
        let call = words(content.skip(prefix.len() as int));
        match route {
            RouteModel::NotACommand => false,
            RouteModel::Unmatched => call.len() == 0 || no_match(registry, call[0]),
            RouteModel::Run { command, args, game: bound } => {
                &&& call.len() > 0
                &&& first_match(registry, call[0], command)
                &&& args == call.skip(1)
                &&& bound == game
            },
        }
    }
}

/// Whether `text` starts with `prefix`.
pub fn starts_with(text: &Vec<char>, prefix: &Vec<char>) -> (yes: bool)
    ensures
        yes == prefix@.is_prefix_of(text@),
{
    if prefix.len() > text.len() {
        return false;
    }
    let mut i: usize = 0;
    while i < prefix.len()
        invariant
            i <= prefix@.len() <= text@.len(),
            forall|k: int| 0 <= k < i ==> prefix@[k] == text@[k],
        decreases prefix@.len() - i,
    {
        if prefix[i] != text[i] {
            assert(text@.subrange(0, prefix@.len() as int)[i as int] != prefix@[i as int]);
            return false;
        }
        i = i + 1;
    }
    assert(prefix@ =~= text@.subrange(0, prefix@.len() as int));
    true
}

/// Routes the message `content`, for a guild bound to `game` whose
/// commands start with `prefix`.
pub fn route(registry: &Registry, prefix: &str, game: Option<u32>, content: &str) -> (route: Route)
    ensures
        routed(registry@, prefix@, game, content@, route@),
{
    let text = chars_of(content);
    let start = chars_of(prefix);
    if !starts_with(&text, &start) {
        return Route::NotACommand;
    }
    let mut call = split_words(&text, start.len());
    if call.len() == 0 {
        return Route::Unmatched;
    }
    let ghost called = texts_of(call@);
    let name = call.remove(0);
    assert(texts_of(call@) =~= called.skip(1));
    match registry.find(&name) {
        Some(command) => Route::Run { command, args: call, game },
        None => Route::Unmatched,
    }
}

/// Routes the message `content` that came from `guild`, or from outside
/// any guild: the guild's settings in `store` give the prefix, with
/// `default_prefix` for a guild that has none, and the game it is bound to.
pub fn dispatch(
    registry: &Registry,
    store: &SettingsMap,
    guild: Option<u64>,
    default_prefix: &str,
    content: &str,
) -> (route: Route)
    ensures
        routed(
            registry@,
            effective_prefix(guild_prefix(store@, guild), default_prefix@),
            guild_game(store@, guild),
            content@,
            route@,
        ),
{
    let game = match guild {
        Some(id) => Settings::game(store, id),
        None => None,
    };
    match Settings::prefix(store, guild) {
        Some(prefix) => route(registry, prefix.as_str(), game, content),
        None => route(registry, default_prefix, game, content),
    }
}

/// The custom prefix that holds for a message from `guild`.
pub open spec fn guild_prefix(guilds: Map<u64, SettingsModel>, guild: Option<u64>) -> Option<
    Seq<char>,
> {
    match guild {
        Some(id) => prefix_of(guilds, id),
        None => None,
    }
}

/// The game that a message from `guild` is about.
pub open spec fn guild_game(guilds: Map<u64, SettingsModel>, guild: Option<u64>) -> Option<u32> {
    match guild {
        Some(id) => game_of(guilds, id),
        None => None,
    }
}

/// The commands that need nothing but their own text: `invite`, and
/// `guide` with its aliases.
pub open spec fn basic_commands() -> Seq<RegisteredModel> {
    seq![
        RegisteredModel { name: "invite"@, aliases: Seq::empty() },
        RegisteredModel { name: "guide"@, aliases: seq!["tutorial"@, "getting-started"@] },
    ]
}

impl Registry {
    /// A registry that holds the basic commands.
    pub fn basic() -> (registry: Registry)
        ensures
            registry@ == basic_commands(),
    {
        let mut registry = Registry::new();
        registry.register(String::from_str("invite"), Invite.options());
        registry.register(String::from_str("guide"), Guide.options());
        assert(registry@ =~= basic_commands());
        registry
    }
}

/// Why a command failed, in words for the user.
#[derive(Debug, Clone, PartialEq, Eq)]
pub struct CommandError(pub String);

/// The message of a failed command, or nothing for one that completed.
pub open spec fn failure_of(outcome: Result<(), CommandError>) -> Option<Seq<char>> {
    match outcome {
        Ok(_) => None,
        Err(e) => Some(e.0@),
    }
}

/// What is sent on behalf of a command when it has ended: one report with
/// the error's message where it failed, nothing where it completed.
pub open spec fn reported(failure: Option<Seq<char>>) -> Option<ReplyModel> {
    match failure {
        Some(message) => Some(ReplyModel::Error(message)),
        None => None,
    }
}

/// What a reply stands for, where there is one.
pub open spec fn reply_of(reply: Option<Reply>) -> Option<ReplyModel> {
    match reply {
        Some(r) => Some(r@),
        None => None,
    }
}

/// The reply that reports the outcome of a command to the channel, if
/// there is anything to report.
pub fn report(outcome: Result<(), CommandError>) -> (reply: Option<Reply>)
    ensures
        reply_of(reply) == reported(failure_of(outcome)),
{
    match outcome {
        Ok(_) => None,
        Err(e) => Some(Reply::Error(e.0)),
    }
}

/// All that a channel gets to see for one message that went to `route`,
/// where the command, if it is run, sends `sent` and ends with `failure`:
/// nothing unless a command runs; else what the command sent, and behind
/// it the report of its failure where it failed.
pub open spec fn outbound(route: RouteModel, sent: Seq<ReplyModel>, failure: Option<Seq<char>>) -> Seq<
    ReplyModel,
> {
    match route {
        RouteModel::Run { .. } => match reported(failure) {
            Some(report) => sent.push(report),
            None => sent,
        },
        _ => Seq::empty(),
    }
}

/// A message has one route and no other.
pub proof fn lemma_route_is_unique(
    registry: Seq<RegisteredModel>,
    prefix: Seq<char>,
    game: Option<u32>,
    content: Seq<char>,
    a: RouteModel,
    b: RouteModel,
)
    requires
        routed(registry, prefix, game, content, a),
        routed(registry, prefix, game, content, b),
    ensures
        a == b,
{
    if prefix.is_prefix_of(content) {
        let call = words(content.skip(prefix.len() as int));
        match (a, b) {
            (
                RouteModel::Run { command: first, args: args_a, .. },
                RouteModel::Run { command: second, args: args_b, .. },
            ) => {
                assert(registry[first].answers_to(call[0]));
                assert(registry[second].answers_to(call[0]));
                assert(first == second);
            },
            (RouteModel::Run { command, .. }, RouteModel::Unmatched) => {
                assert(registry[command].answers_to(call[0]));
            },
            (RouteModel::Unmatched, RouteModel::Run { command, .. }) => {
                assert(registry[command].answers_to(call[0]));
            },
            _ => {},
        }
    }
}

/// A message that does not start with the prefix is answered by nothing:
/// no reply and no report of an error.
pub proof fn lemma_no_prefix_is_silent(
    registry: Seq<RegisteredModel>,
    prefix: Seq<char>,
    game: Option<u32>,
    content: Seq<char>,
    route: RouteModel,
    sent: Seq<ReplyModel>,
    failure: Option<Seq<char>>,
)
    requires
        routed(registry, prefix, game, content, route),
        !prefix.is_prefix_of(content),
    ensures
        route == RouteModel::NotACommand,
        outbound(route, sent, failure) == Seq::<ReplyModel>::empty(),
{
}

/// A message that names no registered command is answered by nothing.
pub proof fn lemma_unmatched_is_silent(
    registry: Seq<RegisteredModel>,
    prefix: Seq<char>,
    game: Option<u32>,
    content: Seq<char>,
    route: RouteModel,
    sent: Seq<ReplyModel>,
    failure: Option<Seq<char>>,
)
    requires
        routed(registry, prefix, game, content, route),
        prefix.is_prefix_of(content),
        ({
            let call = words(content.skip(prefix.len() as int));
            call.len() == 0 || no_match(registry, call[0])
        }),
    ensures
        route == RouteModel::Unmatched,
        outbound(route, sent, failure) == Seq::<ReplyModel>::empty(),
{
    let call = words(content.skip(prefix.len() as int));
    if let RouteModel::Run { command, .. } = route {
        assert(registry[command].answers_to(call[0]));
    }
}

/// A command that fails leaves what it had sent as it is, and exactly one
/// report of the failure follows; one that completes is followed by
/// nothing.
pub proof fn lemma_failure_adds_one_report(
    route: RouteModel,
    sent: Seq<ReplyModel>,
    failure: Option<Seq<char>>,
)
    requires
        route is Run,
    ensures
        failure matches Some(message) ==> outbound(route, sent, failure) == sent.push(
            ReplyModel::Error(message),
        ),
        failure is None ==> outbound(route, sent, failure) == sent,
        sent.is_prefix_of(outbound(route, sent, failure)),
        outbound(route, sent, failure).len() == sent.len() + (if failure is Some {
            1int
        } else {
            0int
        }),
{
    assert(sent.is_prefix_of(outbound(route, sent, failure))) by {
        assert(outbound(route, sent, failure).subrange(0, sent.len() as int) =~= sent);
    }
}

} // verus!

use modbot::commands::{CommandOptions, Reply};
use modbot::dispatch::{dispatch, report, route, starts_with, CommandError, Registered, Registry, Route};
use modbot::settings::{Settings, SettingsMap};
use modbot::text::chars_of;
use modbot::words::split_words;

fn words_of(text: &str) -> Vec<String> {
    split_words(&chars_of(text), 0)
}

fn strings(words: &[&str]) -> Vec<String> {
    words.iter().map(|w| w.to_string()).collect()
}

fn run(command: usize, args: &[&str], game: Option<u32>) -> Route {
    Route::Run { command, args: strings(args), game }
}

#[test]
fn words_are_split_at_spaces() {
    assert_eq!(words_of("mods 42 rogue"), strings(&["mods", "42", "rogue"]));
    assert_eq!(words_of("guide"), strings(&["guide"]));
}

#[test]
fn spaces_only_separate() {
    assert_eq!(words_of("  a   b "), strings(&["a", "b"]));
    assert_eq!(words_of("   "), Vec::<String>::new());
    assert_eq!(words_of(""), Vec::<String>::new());
}

#[test]
fn other_white_space_belongs_to_a_word() {
    assert_eq!(words_of("a\tb c\nd"), strings(&["a\tb", "c\nd"]));
}

#[test]
fn words_from_a_position() {
    let chars = chars_of("!game 5");
    assert_eq!(split_words(&chars, 1), strings(&["game", "5"]));
    assert_eq!(split_words(&chars, 5), strings(&["5"]));
    assert_eq!(split_words(&chars, 7), Vec::<String>::new());
}

#[test]
fn prefix_test() {
    assert!(starts_with(&chars_of("~guide"), &chars_of("~")));
    assert!(starts_with(&chars_of("~guide"), &chars_of("")));
    assert!(starts_with(&chars_of("~guide"), &chars_of("~guide")));
    assert!(!starts_with(&chars_of("~guide"), &chars_of("~guide ")));
    assert!(!starts_with(&chars_of("guide"), &chars_of("~")));
    assert!(!starts_with(&chars_of(""), &chars_of("~")));
    assert!(!starts_with(&chars_of("~~x"), &chars_of("~!")));
}

#[test]
fn basic_registry() {
    let registry = Registry::basic();
    assert_eq!(registry.commands.len(), 2);
    assert_eq!(registry.commands[0].name, "invite");
    assert_eq!(registry.commands[0].options.aliases, Vec::<String>::new());
    assert_eq!(registry.commands[1].name, "guide");
    assert_eq!(registry.commands[1].options.aliases, strings(&["tutorial", "getting-started"]));
}

#[test]
fn find_by_name_and_alias() {
    let registry = Registry::basic();
    assert_eq!(registry.find(&"invite".to_string()), Some(0));
    assert_eq!(registry.find(&"guide".to_string()), Some(1));
    assert_eq!(registry.find(&"tutorial".to_string()), Some(1));
    assert_eq!(registry.find(&"getting-started".to_string()), Some(1));
    assert_eq!(registry.find(&"games".to_string()), None);
    assert_eq!(registry.find(&String::new()), None);
}

#[test]
fn names_are_case_sensitive() {
    let registry = Registry::basic();
    assert_eq!(registry.find(&"Guide".to_string()), None);
    assert_eq!(registry.find(&"INVITE".to_string()), None);
    assert_eq!(registry.find(&"Tutorial".to_string()), None);
}

#[test]
fn first_registered_command_wins() {
    let mut registry = Registry::new();
    registry.register(
        "mods".to_string(),
        CommandOptions { desc: None, aliases: strings(&["list", "m"]) },
    );
    registry.register("list".to_string(), CommandOptions { desc: None, aliases: vec![] });
    registry.register("m".to_string(), CommandOptions { desc: None, aliases: strings(&["mods"]) });
    assert_eq!(registry.find(&"list".to_string()), Some(0));
    assert_eq!(registry.find(&"m".to_string()), Some(0));
    assert_eq!(registry.find(&"mods".to_string()), Some(0));
}

#[test]
fn registered_answers_to_its_names() {
    let command = Registered {
        name: "game".to_string(),
        options: CommandOptions { desc: None, aliases: strings(&["g"]) },
    };
    assert!(command.answers_to(&"game".to_string()));
    assert!(command.answers_to(&"g".to_string()));
    assert!(!command.answers_to(&"ga".to_string()));
    assert!(!command.answers_to(&"Game".to_string()));
}

#[test]
fn message_without_the_prefix_is_no_command() {
    let registry = Registry::basic();
    assert_eq!(route(&registry, "~", None, "guide"), Route::NotACommand);
    assert_eq!(route(&registry, "~", None, "hello ~guide"), Route::NotACommand);
    assert_eq!(route(&registry, "~", None, ""), Route::NotACommand);
    assert_eq!(route(&registry, "~", None, " ~guide"), Route::NotACommand);
    assert_eq!(route(&registry, "mod!", Some(3), "mod guide"), Route::NotACommand);
}

#[test]
fn message_with_an_unknown_name_is_unmatched() {
    let registry = Registry::basic();
    assert_eq!(route(&registry, "~", None, "~games"), Route::Unmatched);
    assert_eq!(route(&registry, "~", None, "~Guide"), Route::Unmatched);
    assert_eq!(route(&registry, "~", None, "~"), Route::Unmatched);
    assert_eq!(route(&registry, "~", None, "~   "), Route::Unmatched);
    assert_eq!(route(&registry, "~", None, "~guides"), Route::Unmatched);
}

#[test]
fn message_is_routed_to_its_command() {
    let registry = Registry::basic();
    assert_eq!(route(&registry, "~", None, "~invite"), run(0, &[], None));
    assert_eq!(route(&registry, "~", Some(9), "~guide"), run(1, &[], Some(9)));
    assert_eq!(route(&registry, "~", None, "~tutorial"), run(1, &[], None));
    assert_eq!(route(&registry, "~", None, "~getting-started now"), run(1, &["now"], None));
    assert_eq!(route(&registry, "", None, "guide"), run(1, &[], None));
}

#[test]
fn arguments_are_the_words_behind_the_name() {
    let mut registry = Registry::basic();
    registry.register("mod".to_string(), CommandOptions { desc: None, aliases: vec![] });
    assert_eq!(
        route(&registry, "!", Some(1), "!mod  rogue   knight 42 "),
        run(2, &["rogue", "knight", "42"], Some(1))
    );
    assert_eq!(route(&registry, "!", None, "! mod 7"), run(2, &["7"], None));
    assert_eq!(route(&registry, "modbot ", None, "modbot mod 7"), run(2, &["7"], None));
}

#[test]
fn dispatch_uses_the_default_prefix() {
    let registry = Registry::basic();
    let store = SettingsMap::new();
    assert_eq!(dispatch(&registry, &store, Some(1), "~", "~guide"), run(1, &[], None));
    assert_eq!(dispatch(&registry, &store, None, "~", "~guide"), run(1, &[], None));
    assert_eq!(dispatch(&registry, &store, Some(1), "~", "!guide"), Route::NotACommand);
}

#[test]
fn dispatch_uses_the_guild_prefix() {
    let registry = Registry::basic();
    let mut store = SettingsMap::new();
    Settings::set_prefix(&mut store, 1, Some("!".to_string()));
    assert_eq!(dispatch(&registry, &store, Some(1), "~", "!guide"), run(1, &[], None));
    assert_eq!(dispatch(&registry, &store, Some(1), "~", "~guide"), Route::NotACommand);
    assert_eq!(dispatch(&registry, &store, Some(2), "~", "~guide"), run(1, &[], None));
    assert_eq!(dispatch(&registry, &store, Some(2), "~", "!guide"), Route::NotACommand);
    assert_eq!(dispatch(&registry, &store, None, "~", "!guide"), Route::NotACommand);
    Settings::set_prefix(&mut store, 1, None);
    assert_eq!(dispatch(&registry, &store, Some(1), "~", "~guide"), run(1, &[], None));
}

#[test]
fn dispatch_hands_on_the_bound_game() {
    let registry = Registry::basic();
    let mut store = SettingsMap::new();
    Settings::set_game(&mut store, 1, 264);
    assert_eq!(dispatch(&registry, &store, Some(1), "~", "~invite x"), run(0, &["x"], Some(264)));
    assert_eq!(dispatch(&registry, &store, Some(2), "~", "~invite x"), run(0, &["x"], None));
    assert_eq!(dispatch(&registry, &store, None, "~", "~invite x"), run(0, &["x"], None));
}

#[test]
fn completed_command_is_followed_by_nothing() {
    assert_eq!(report(Ok(())), None);
}

#[test]
fn failed_command_is_followed_by_one_report() {
    assert_eq!(
        report(Err(CommandError("catalog is not reachable".to_string()))),
        Some(Reply::Error("catalog is not reachable".to_string()))
    );
}

#[test]
fn failure_after_one_reply_leaves_two_messages() {
    let mut channel = vec![Reply::Text("looking it up".to_string())];
    let outcome: Result<(), CommandError> = Err(CommandError("no such mod".to_string()));
    if let Some(reply) = report(outcome) {
        channel.push(reply);
    }
    assert_eq!(
        channel,
        vec![Reply::Text("looking it up".to_string()), Reply::Error("no such mod".to_string())]
    );
}

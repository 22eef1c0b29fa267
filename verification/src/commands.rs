//! The commands that need nothing but their own text, and what every
//! command has in common: its options and the replies it gives.

use vstd::prelude::*;
use vstd::string::StringExecFns;
use crate::settings::text_of;

verus! {

/// A message that a command asks to have sent to the channel it was
/// called from.
#[derive(Debug, Clone, PartialEq, Eq)]
pub enum Reply {
    /// A plain text message.
    Text(String),
    /// An embed with this description.
    Embed(String),
    /// The report of a command that failed, with the error's message.
    Error(String),
}

/// What a `Reply` stands for.
pub ghost enum ReplyModel {
    Text(Seq<char>),
    Embed(Seq<char>),
    Error(Seq<char>),
}

impl View for Reply {
    type V = ReplyModel;

    open spec fn view(&self) -> ReplyModel {
        match self {
            Reply::Text(text) => ReplyModel::Text(text@),
            Reply::Embed(description) => ReplyModel::Embed(description@),
            Reply::Error(message) => ReplyModel::Error(message@),
        }
    }
}

/// How a command presents itself.
#[derive(Debug, Clone, PartialEq, Eq)]
pub struct CommandOptions {
    /// One line that says what the command does.
    pub desc: Option<String>,
    /// Other names that the command answers to.
    pub aliases: Vec<String>,
}

/// The characters of each string of `texts`.
pub open spec fn texts_of(texts: Seq<String>) -> Seq<Seq<char>> {
    texts.map_values(|t: String| t@)
}

impl CommandOptions {
    /// The description, as characters.
    pub open spec fn desc_text(&self) -> Option<Seq<char>> {
        text_of(self.desc)
    }

    /// The aliases, as characters.
    pub open spec fn alias_texts(&self) -> Seq<Seq<char>> {
        texts_of(self.aliases@)
    }
}

/// Answers with a link that invites the bot to a guild.
pub struct Invite;

/// Answers with a link to the guide for new users.
pub struct Guide;

/// The description of an embed that offers `url` as the bot's invitation.
pub open spec fn invite_text(url: Seq<char>) -> Seq<char> {
    "Visit the link to [invite modbot]("@ + url + ")."@
}

impl Invite {
    pub fn options(&self) -> (options: CommandOptions)
        ensures
            options.desc_text() == Some("Displays a link to invite modbot."@),
            options.alias_texts() == Seq::<Seq<char>>::empty(),
    {
        let options = CommandOptions {
            desc: Some(String::from_str("Displays a link to invite modbot.")),
            aliases: Vec::new(),
        };
        assert(options.alias_texts() =~= Seq::<Seq<char>>::empty());
        options
    }

    /// The reply, given the invitation link that the chat platform made
    /// for the bot.
    pub fn execute(&self, invite_url: &str) -> (reply: Reply)
        ensures
            reply@ == ReplyModel::Embed(invite_text(invite_url@)),
    {
        let mut description = String::from_str("Visit the link to [invite modbot](");
        description.append(invite_url);
        description.append(").");
        Reply::Embed(description)
    }
}

impl Guide {
    pub fn options(&self) -> (options: CommandOptions)
        ensures
            options.desc_text() == Some("Link to 'Getting Started' blog post."@),
            options.alias_texts() == seq!["tutorial"@, "getting-started"@],
    {
        let mut aliases: Vec<String> = Vec::new();
        aliases.push(String::from_str("tutorial"));
        aliases.push(String::from_str("getting-started"));
        let options = CommandOptions {
            desc: Some(String::from_str("Link to 'Getting Started' blog post.")),
            aliases,
        };
        assert(options.alias_texts() =~= seq!["tutorial"@, "getting-started"@]);
        options
    }

    pub fn execute(&self) -> (reply: Reply)
        ensures
            reply@ == ReplyModel::Text("https://apps.mod.io/guides/getting-started"@),
    {
        Reply::Text(String::from_str("https://apps.mod.io/guides/getting-started"))
    }
}

/// The author line of an embed: each part is shown where it is set.
#[derive(Debug, Clone, PartialEq, Eq)]
pub struct EmbedAuthor {
    pub name: Option<String>,
    pub url: Option<String>,
    pub icon_url: Option<String>,
}

/// What an `EmbedAuthor` stands for.
pub ghost struct EmbedAuthorModel {
    pub name: Option<Seq<char>>,
    pub url: Option<Seq<char>>,
    pub icon_url: Option<Seq<char>>,
}

impl View for EmbedAuthor {
    type V = EmbedAuthorModel;

    open spec fn view(&self) -> EmbedAuthorModel {
        EmbedAuthorModel {
            name: text_of(self.name),
            url: text_of(self.url),
            icon_url: text_of(self.icon_url),
        }
    }
}

/// What the catalog tells of a user, as far as an author line shows it.
#[derive(Debug, Clone, PartialEq, Eq)]
pub struct User {
    pub username: String,
    /// Address of the user's profile page.
    pub profile_url: String,
    /// Address of the user's avatar in full size, if there is one.
    pub avatar: Option<String>,
}

/// Users that can stand as the author of an embed.
pub trait UserExt {
    /// The author line `a` with the user filled in.
    spec fn author(&self, a: EmbedAuthorModel) -> EmbedAuthorModel;

    /// Fills the user into the author line `a`.
    fn create_author(&self, a: EmbedAuthor) -> (filled: EmbedAuthor)
        ensures
            filled@ == self.author(a@),
    ;
}

impl UserExt for User {
    /// Name and address are the user's. The icon is the user's avatar
    /// where there is one, else what the line held before.
    open spec fn author(&self, a: EmbedAuthorModel) -> EmbedAuthorModel {
        EmbedAuthorModel {
            name: Some(self.username@),
            url: Some(self.profile_url@),
            icon_url: match self.avatar {
                Some(icon) => Some(icon@),
                None => a.icon_url,
            },
        }
    }

    fn create_author(&self, a: EmbedAuthor) -> (filled: EmbedAuthor) {
        let mut a = a;
        a.name = Some(self.username.clone());
        a.url = Some(self.profile_url.clone());
        if let Some(avatar) = &self.avatar {
            a.icon_url = Some(avatar.clone());
        }
        a
    }
}

} // verus!

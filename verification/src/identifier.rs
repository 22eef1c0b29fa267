//! Identifiers as users type them: a catalog entry named by its number, or
//! a phrase to search for.

use vstd::prelude::*;
use crate::decimal::{
    decimal_string, decimal_text, decimal_u32, is_plain_numeral, lemma_plain_numeral_text,
    lemma_text_denotes, parse_decimal, unsigned_part,
};

verus! {

/// Names a catalog entry, by its numeric id or by a search phrase.
#[derive(Debug, Clone)]
pub enum Identifier {
    Id(u32),
    Search(String),
}

/// What an `Identifier` stands for.
pub ghost enum IdentifierModel {
    Id(u32),
    Search(Seq<char>),
}

impl IdentifierModel {
    /// The text that the identifier is shown as: the plain numeral of an
    /// id, the phrase itself for a search.
    pub open spec fn text(self) -> Seq<char> {
        match self {
            IdentifierModel::Id(id) => decimal_text(id as nat),
            IdentifierModel::Search(phrase) => phrase,
        }
    }
}

/// How a token is classified: an id where it reads as a 32-bit unsigned
/// decimal number, else a search for the token exactly as given.
pub open spec fn classify(token: Seq<char>) -> IdentifierModel {
    match decimal_u32(token) {
        Some(id) => IdentifierModel::Id(id),
        None => IdentifierModel::Search(token),
    }
}

impl View for Identifier {
    type V = IdentifierModel;

    open spec fn view(&self) -> IdentifierModel {
        match self {
            Identifier::Id(id) => IdentifierModel::Id(*id),
            Identifier::Search(phrase) => IdentifierModel::Search(phrase@),
        }
    }
}

impl Identifier {
    /// Classifies a token. Never fails: whatever is not a number is a
    /// search phrase, kept verbatim.
    pub fn parse(token: &str) -> (id: Identifier)
        ensures
            id@ == classify(token@),
    {
        match parse_decimal(token) {
            Some(id) => Identifier::Id(id),
            None => Identifier::Search(token.to_owned()),
        }
    }

    /// The text that this identifier is shown as.
    pub fn display(&self) -> (text: String)
        ensures
            text@ == self@.text(),
    {
        match self {
            Identifier::Id(id) => decimal_string(*id),
            Identifier::Search(phrase) => phrase.clone(),
        }
    }
}

impl std::str::FromStr for Identifier {
    type Err = std::string::ParseError;

    fn from_str(s: &str) -> (parsed: Result<Self, Self::Err>)
        ensures
            parsed is Ok,
            parsed->Ok_0@ == classify(s@),
    {
        Ok(Identifier::parse(s))
    }
}

/// A token that is no number is shown again exactly as it was typed, and
/// so is a number typed as a plain numeral. (A number typed with a `+` or
/// with leading zeros is shown as its plain numeral instead.)
pub proof fn lemma_display_of_parse(token: Seq<char>)
    requires
        decimal_u32(token) is Some ==> is_plain_numeral(token),
    ensures
        classify(token).text() == token,
{
    if decimal_u32(token) is Some {
        assert(unsigned_part(token) == token);
        lemma_plain_numeral_text(token);
    }
}

/// Parsing what an identifier is shown as gives the identifier back,
/// unless it is a search phrase that reads as a number.
pub proof fn lemma_parse_of_display(id: IdentifierModel)
    requires
        id matches IdentifierModel::Search(phrase) ==> decimal_u32(phrase) is None,
    ensures
        classify(id.text()) == id,
{
    match id {
        IdentifierModel::Id(n) => {
            lemma_text_denotes(n as nat);
            let t = decimal_text(n as nat);
            assert(t[0] != '+');
            assert(unsigned_part(t) == t);
        },
        IdentifierModel::Search(_) => {},
    }
}

/// A token that starts with a minus sign is a search phrase.
pub proof fn lemma_negative_is_search(token: Seq<char>)
    requires
        token.len() > 0,
        token[0] == '-',
    ensures
        classify(token) == IdentifierModel::Search(token),
{
    assert(unsigned_part(token) == token);
    assert(!crate::decimal::is_digit(token[0]));
}

} // verus!

use vstd::prelude::*;
use std::collections::HashMap;
use crate::emoji::{get_locale_by_flag, locale_of_flag};
use crate::error::Error;
use crate::text::str_eq;

verus! {

broadcast use vstd::std_specs::hash::group_hash_axioms;

/// What `html_escape::decode_html_entities` makes of a text.
pub uninterp spec fn html_decoded(s: Seq<char>) -> Seq<char>;

/// Relies on `html_escape::decode_html_entities`: the text with its HTML
/// character references decoded. A text without `&` holds no reference and
/// comes back as it is.
#[verifier::external_body]
fn decode_html_entities(s: &str) -> (r: String)
    ensures
        r@ == html_decoded(s@),
        !s@.contains('&') ==> r@ == s@,
{
    html_escape::decode_html_entities(s).into_owned()
}

/// The target locale that each user asked for last.
pub struct LastTranslationLanguageCache {
    last: HashMap<u64, String>,
}

impl View for LastTranslationLanguageCache {
    type V = Map<u64, Seq<char>>;

    closed spec fn view(&self) -> Map<u64, Seq<char>> {
        self.last@.map_values(|s: String| s@)
    }
}

impl LastTranslationLanguageCache {
    /// A cache that knows no user.
    pub fn new() -> (r: LastTranslationLanguageCache)
        ensures
            r@ == Map::<u64, Seq<char>>::empty(),
    {
        let r = LastTranslationLanguageCache { last: HashMap::new() };
        assert(r@ =~= Map::<u64, Seq<char>>::empty());
        r
    }

    /// The locale that `user` asked for last, if any.
    pub fn get(&self, user: u64) -> (r: Option<String>)
        ensures
            match r {
                Some(l) => self@.contains_key(user) && self@[user] == l@,
                None => !self@.contains_key(user),
            },
    {
        match self.last.get(&user) {
            Some(l) => Some(l.clone()),
            None => None,
        }
    }

    /// Records that `user` asked for `locale`.
    pub fn remember(&mut self, user: u64, locale: String)
        ensures
            final(self)@ == old(self)@.insert(user, locale@),
    {
        let ghost l = locale@;
        self.last.insert(user, locale);
        assert(self@ =~= old(self)@.insert(user, l));
    }
}

/// The Google Cloud project that translations are billed to.
pub struct GoogleProjectId {
    pub id: String,
}

impl GoogleProjectId {
    /// The resource name that translation requests are made under.
    pub fn parent(&self) -> (r: String)
        ensures
            r@ == "projects/"@ + self.id@,
    {
        let mut s = String::from_str("projects/");
        s.append(self.id.as_str());
        s
    }
}

/// A translation to ask the translation service for.
#[derive(Debug)]
pub struct TranslationRequest {
    /// The text of the message to translate.
    pub content: String,
    /// The locale to translate into.
    pub target: String,
}

/// The locale a translation goes into: the one given, else the one the user
/// asked for last.
pub open spec fn target_locale(cache: Map<u64, Seq<char>>, user: u64, arg: Option<String>) -> Option<
    Seq<char>,
> {
    match arg {
        Some(a) => Some(a@),
        None => if cache.contains_key(user) {
            Some(cache[user])
        } else {
            None
        },
    }
}

/// The decisions of `translate` before the translation service is asked:
/// the text of the message that `user` replied to (`referenced`) and the
/// target locale.
pub fn plan_translation(
    cache: &LastTranslationLanguageCache,
    user: u64,
    referenced: Option<String>,
    arg: Option<String>,
) -> (r: Result<TranslationRequest, Error>)
    ensures
        match referenced {
            None => (r matches Err(Error::DetailedInvalidArguments(d))
                && d@ == "Reference message to translate"@),
            Some(c) => match target_locale(cache@, user, arg) {
                None => r == Err::<TranslationRequest, Error>(Error::InvalidArguments),
                Some(t) => (r matches Ok(q) && q.content == c && q.target@ == t),
            },
        },
{
    let content = match referenced {
        None => {
            return Err(
                Error::DetailedInvalidArguments(String::from_str("Reference message to translate")),
            )
        },
        Some(c) => c,
    };
    let target = match arg {
        Some(a) => a,
        None => match cache.get(user) {
            Some(l) => l,
            None => return Err(Error::InvalidArguments),
        },
    };
    Ok(TranslationRequest { content, target })
}

/// The first translated text of a response, if it has one.
pub open spec fn first_text(translations: Option<Vec<Option<String>>>) -> Option<String> {
    match translations {
        Some(v) => if v@.len() > 0 {
            v@[0]
        } else {
            None
        },
        None => None,
    }
}

/// The reply to `translate` once the service answered `response` (its
/// translations, or why it failed), for a request into `target`. On
/// success the reply is the first translation with HTML references decoded,
/// and `target` becomes the user's last locale.
pub fn finish_translation(
    cache: &mut LastTranslationLanguageCache,
    user: u64,
    target: String,
    response: Result<Option<Vec<Option<String>>>, String>,
) -> (r: Result<String, Error>)
    ensures
        match response {
            Err(t) => r == Err::<String, Error>(Error::Other(t)) && final(cache)@ == old(cache)@,
            Ok(ts) => match first_text(ts) {
                None => r == Err::<String, Error>(Error::Unknown)
                    && final(cache)@ == old(cache)@,
                Some(text) => (r matches Ok(reply) && reply@ == html_decoded(text@))
                    && final(cache)@ == old(cache)@.insert(user, target@),
            },
        },
{
    let ts = match response {
        Err(t) => return Err(Error::Other(t)),
        Ok(ts) => ts,
    };
    let v = match ts {
        None => return Err(Error::Unknown),
        Some(v) => v,
    };
    if v.len() == 0 {
        return Err(Error::Unknown);
    }
    let text = match &v[0] {
        None => return Err(Error::Unknown),
        Some(t) => t,
    };
    let reply = decode_html_entities(text.as_str());
    cache.remember(user, target);
    Ok(reply)
}

/// An emoji of a reaction.
#[derive(Debug, Clone, PartialEq, Eq)]
pub enum ReactionEmoji {
    /// A custom emoji of a guild.
    Custom,
    /// A standard emoji, by its text.
    Unicode(String),
}

/// Answers reactions: a flag emoji asks for a translation of the message
/// into the flag's locale.
pub struct Handler;

impl Handler {
    /// The locale that a reaction with `emoji` asks for, if any.
    pub fn reaction_locale(&self, emoji: &ReactionEmoji) -> (r: Option<&'static str>)
        ensures
            match emoji {
                ReactionEmoji::Custom => r is None,
                ReactionEmoji::Unicode(e) => match r {
                    Some(l) => locale_of_flag(e@) == Some(l@),
                    None => locale_of_flag(e@) is None,
                },
            },
    {
        match emoji {
            ReactionEmoji::Custom => None,
            ReactionEmoji::Unicode(e) => get_locale_by_flag(e.as_str()),
        }
    }
}

/// The translation command group.
pub struct Translate;

impl Translate {
    /// Whether `name` calls `translate`, by its name or its alias `t`.
    pub fn find(name: &str) -> (r: bool)
        ensures
            r == (name@ == "translate"@ || name@ == "t"@),
    {
        str_eq(name, "translate") || str_eq(name, "t")
    }
}

} // verus!

//! Texts with per-locale overrides, and the choices that are made of them.

use vstd::prelude::*;
use vstd::std_specs::convert::FromSpecImpl;

use crate::commands::locale::lemma_tags_are_distinct;
use crate::commands::locale::Locale;

verus! {

/// The mathematical value of a localized text: the default and, for some locales,
/// the text that replaces it.
pub struct LocalizedTextView {
    pub default: Seq<char>,
    pub localizations: Map<Locale, Seq<char>>,
}

/// A text with overrides for some locales.
#[derive(Debug, Clone)]
pub struct LocalizedText {
    default: String,
    /// One slot per locale, in the order in which the locales are declared.
    localizations: [Option<String>; 8],
}

/// The overrides among the first `n` locales, as pairs of tag and text, in the
/// order in which the locales are declared.
pub open spec fn tagged_upto(localizations: Map<Locale, Seq<char>>, n: int) -> Seq<
    (Seq<char>, Seq<char>),
>
    decreases n,
{
    if n <= 0 {
        Seq::empty()
    } else {
        let before = tagged_upto(localizations, n - 1);
        let locale = Locale::at(n - 1);
        if localizations.contains_key(locale) {
            before.push((locale.tag(), localizations[locale]))
        } else {
            before
        }
    }
}

/// All overrides, as pairs of tag and text.
pub open spec fn tagged(localizations: Map<Locale, Seq<char>>) -> Seq<(Seq<char>, Seq<char>)> {
    tagged_upto(localizations, 8)
}

/// The characters of each text of each pair.
pub open spec fn pairs_view(pairs: Seq<(String, String)>) -> Seq<(Seq<char>, Seq<char>)> {
    pairs.map_values(|p: (String, String)| (p.0@, p.1@))
}

/// The characters of the pairs, where there are any.
pub open spec fn optional_pairs_view(pairs: Option<Vec<(String, String)>>) -> Option<
    Seq<(Seq<char>, Seq<char>)>,
> {
    match pairs {
        Some(pairs) => Some(pairs_view(pairs@)),
        None => None,
    }
}

/// What the platform is told of the overrides: nothing at all where there are
/// none, else the pairs of tag and text.
pub open spec fn told(localizations: Map<Locale, Seq<char>>) -> Option<
    Seq<(Seq<char>, Seq<char>)>,
> {
    if localizations.dom() =~= Set::<Locale>::empty() {
        None
    } else {
        Some(tagged(localizations))
    }
}

impl View for LocalizedText {
    type V = LocalizedTextView;

    closed spec fn view(&self) -> LocalizedTextView {
        LocalizedTextView {
            default: self.default@,
            localizations: Map::new(
                |locale: Locale| self.localizations@[locale.ordinal()] is Some,
                |locale: Locale| self.localizations@[locale.ordinal()]->0@,
            ),
        }
    }
}

impl LocalizedText {
    /// A text without overrides.
    pub fn new(default: &str) -> (text: Self)
        ensures
            text@ == (LocalizedTextView { default: default@, localizations: Map::empty() }),
    {
        let text = LocalizedText {
            default: default.to_owned(),
            localizations: [None, None, None, None, None, None, None, None],
        };
        assert(text@.localizations =~= Map::<Locale, Seq<char>>::empty());
        text
    }

    /// The same text with `text` as the override for `locale`; an override that the
    /// locale already had is replaced.
    pub fn with_localization(self, locale: Locale, text: &str) -> (changed: Self)
        ensures
            changed@ == (LocalizedTextView {
                default: self@.default,
                localizations: self@.localizations.insert(locale, text@),
            }),
    {
        let mut changed = self;
        changed.localizations[locale.index()] = Some(text.to_owned());
        proof {
            assert forall|other: Locale| other.ordinal() == locale.ordinal() implies other
                == locale by {
                lemma_tags_are_distinct(other, locale);
                lemma_tags_are_distinct(locale, other);
            }
            assert(changed@.localizations =~= self@.localizations.insert(locale, text@));
        }
        changed
    }

    /// The default text.
    pub fn default_text(&self) -> (text: &str)
        ensures
            text@ == self@.default,
    {
        self.default.as_str()
    }

    /// The override for `locale`, if there is one.
    pub fn localization(&self, locale: Locale) -> (text: Option<&str>)
        ensures
            match text {
                Some(text) => self@.localizations.contains_key(locale)
                    && self@.localizations[locale] == text@,
                None => !self@.localizations.contains_key(locale),
            },
    {
        match &self.localizations[locale.index()] {
            Some(text) => Some(text.as_str()),
            None => None,
        }
    }

    /// The overrides as the platform takes them: pairs of locale tag and text, in
    /// the order in which the locales are declared; `None`, not an empty list,
    /// where there is no override.
    pub fn to_discord_localizations(&self) -> (pairs: Option<Vec<(String, String)>>)
        ensures
            optional_pairs_view(pairs) == told(self@.localizations),
            pairs is None <==> self@.localizations.dom() =~= Set::<Locale>::empty(),
    {
        let mut pairs: Vec<(String, String)> = Vec::new();
        let mut i: usize = 0;
        while i < 8
            invariant
                i <= 8,
                pairs_view(pairs@) == tagged_upto(self@.localizations, i as int),
                pairs@.len() == 0 <==> forall|k: int|
                    0 <= k < i ==> !self@.localizations.contains_key(#[trigger] Locale::at(k)),
            decreases 8 - i,
        {
            let locale = Locale::nth(i);
            let ghost before = pairs@;
            match &self.localizations[i] {
                Some(text) => {
                    let tag = locale.as_str().to_owned();
                    pairs.push((tag, text.clone()));
                    proof {
                        assert(self@.localizations.contains_key(locale));
                        assert(pairs_view(pairs@) =~= pairs_view(before).push(
                            (locale.tag(), self@.localizations[locale]),
                        ));
                    }
                },
                None => {
                    assert(!self@.localizations.contains_key(locale));
                },
            }
            i += 1;
        }
        proof {
            if pairs@.len() == 0 {
                assert forall|locale: Locale| !self@.localizations.contains_key(locale) by {
                    lemma_tags_are_distinct(locale, locale);
                    assert(Locale::at(locale.ordinal()) == locale);
                }
                assert(self@.localizations.dom() =~= Set::<Locale>::empty());
            } else {
                let k = choose|k: int|
                    0 <= k < 8 && self@.localizations.contains_key(#[trigger] Locale::at(k));
                assert(self@.localizations.dom().contains(Locale::at(k)));
            }
        }
        if pairs.len() == 0 {
            None
        } else {
            Some(pairs)
        }
    }
}

/// One choice offered while a command option is being typed.
#[derive(Debug, Clone)]
pub struct AutocompleteChoice {
    pub name: LocalizedText,
    pub value: String,
}

/// The value that a choice stands for.
#[derive(Debug, Clone)]
pub enum CommandOptionChoiceValue {
    String(String),
    Integer(i64),
}

/// A choice as the platform takes it.
#[derive(Debug, Clone)]
pub struct CommandOptionChoice {
    pub name: String,
    pub name_localizations: Option<Vec<(String, String)>>,
    pub value: CommandOptionChoiceValue,
}

/// The mathematical value of a choice as the platform takes it.
pub struct CommandOptionChoiceView {
    pub name: Seq<char>,
    pub name_localizations: Option<Seq<(Seq<char>, Seq<char>)>>,
    pub text: Option<Seq<char>>,
    pub number: Option<i64>,
}

impl View for CommandOptionChoice {
    type V = CommandOptionChoiceView;

    open spec fn view(&self) -> CommandOptionChoiceView {
        CommandOptionChoiceView {
            name: self.name@,
            name_localizations: optional_pairs_view(self.name_localizations),
            text: match self.value {
                CommandOptionChoiceValue::String(text) => Some(text@),
                CommandOptionChoiceValue::Integer(_) => None,
            },
            number: match self.value {
                CommandOptionChoiceValue::String(_) => None,
                CommandOptionChoiceValue::Integer(number) => Some(number),
            },
        }
    }
}

impl AutocompleteChoice {
    /// The choice as the platform takes it: named by the default text, with the
    /// overrides beside it, standing for the text `value`.
    pub open spec fn offered(self) -> CommandOptionChoiceView {
        CommandOptionChoiceView {
            name: self.name@.default,
            name_localizations: told(self.name@.localizations),
            text: Some(self.value@),
            number: None,
        }
    }
}

impl From<AutocompleteChoice> for CommandOptionChoice {
    fn from(choice: AutocompleteChoice) -> (offered: CommandOptionChoice)
        ensures
            offered@ == choice.offered(),
    {
        let localized_text = choice.name;
        CommandOptionChoice {
            name: localized_text.default.clone(),
            name_localizations: localized_text.to_discord_localizations(),
            value: CommandOptionChoiceValue::String(choice.value),
        }
    }
}

impl FromSpecImpl<AutocompleteChoice> for CommandOptionChoice {
    open spec fn obeys_from_spec() -> bool {
        false
    }

    open spec fn from_spec(choice: AutocompleteChoice) -> CommandOptionChoice {
        arbitrary()
    }
}

/// `pair` is the tag and the override of one of the first `n` locales.
pub open spec fn is_override_among(
    localizations: Map<Locale, Seq<char>>,
    n: int,
    pair: (Seq<char>, Seq<char>),
) -> bool {
    exists|locale: Locale|
        locale.ordinal() < n && localizations.contains_key(locale) && pair == (
            locale.tag(),
            #[trigger] localizations[locale],
        )
}

/// The pairs that the platform is told hold every override exactly once: each
/// locale with an override has its pair, each pair comes from such a locale, and
/// no tag occurs twice.
pub proof fn lemma_tagged_is_the_map(localizations: Map<Locale, Seq<char>>, n: int)
    requires
        0 <= n <= 8,
    ensures
        forall|locale: Locale|
            locale.ordinal() < n && localizations.contains_key(locale) ==> tagged_upto(
                localizations,
                n,
            ).contains((locale.tag(), #[trigger] localizations[locale])),
        forall|i: int|
            0 <= i < tagged_upto(localizations, n).len() ==> is_override_among(
                localizations,
                n,
                #[trigger] tagged_upto(localizations, n)[i],
            ),
        forall|i: int, j: int|
            0 <= i < j < tagged_upto(localizations, n).len() ==> (#[trigger] tagged_upto(
                localizations,
                n,
            )[i]).0 != (#[trigger] tagged_upto(localizations, n)[j]).0,
    decreases n,
{
    let now = tagged_upto(localizations, n);
    if n > 0 {
        lemma_tagged_is_the_map(localizations, n - 1);
        let before = tagged_upto(localizations, n - 1);
        let last = Locale::at(n - 1);
        lemma_tags_are_distinct(last, last);
        assert forall|locale: Locale|
            locale.ordinal() < n && localizations.contains_key(locale) implies now.contains(
            (locale.tag(), #[trigger] localizations[locale]),
        ) by {
            lemma_tags_are_distinct(locale, last);
            if locale.ordinal() < n - 1 {
                let at = choose|i: int|
                    0 <= i < before.len() && before[i] == (locale.tag(), localizations[locale]);
                assert(now[at] == before[at]);
            } else {
                assert(locale == last);
                assert(now[now.len() - 1] == (locale.tag(), localizations[locale]));
            }
        }
        assert forall|i: int| 0 <= i < now.len() implies is_override_among(
            localizations,
            n,
            #[trigger] now[i],
        ) by {
            if i < before.len() {
                assert(now[i] == before[i]);
                assert(is_override_among(localizations, n - 1, before[i]));
                let locale = choose|locale: Locale|
                    locale.ordinal() < n - 1 && localizations.contains_key(locale) && before[i] == (
                        locale.tag(),
                        #[trigger] localizations[locale],
                    );
                assert(locale.ordinal() < n && now[i] == (locale.tag(), localizations[locale]));
            } else {
                assert(last.ordinal() < n && localizations.contains_key(last) && now[i] == (
                    last.tag(),
                    localizations[last],
                ));
            }
        }
        assert forall|i: int, j: int| 0 <= i < j < now.len() implies (#[trigger] now[i]).0 != (
            #[trigger] now[j]).0 by {
            assert(now[i] == before[i]);
            if j < before.len() {
                assert(now[j] == before[j]);
            } else {
                assert(is_override_among(localizations, n - 1, before[i]));
                let locale = choose|locale: Locale|
                    locale.ordinal() < n - 1 && localizations.contains_key(locale) && before[i] == (
                        locale.tag(),
                        #[trigger] localizations[locale],
                    );
                lemma_tags_are_distinct(locale, last);
            }
        }
    } else {
        assert(now.len() == 0);
    }
}

} // verus!

//! Locales and texts that carry per-locale overrides.

use vstd::prelude::*;
use vstd::std_specs::convert::FromSpecImpl;

use crate::text::str_eq;

verus! {

/// The locales a command can be localized for.
#[derive(Debug, Clone, Copy, PartialEq, Eq, Hash, Structural)]
pub enum Locale {
    EnglishUS,
    EnglishGB,
    Spanish,
    French,
    German,
    Japanese,
    Korean,
    Chinese,
}

impl Locale {
    /// The tag by which the platform knows the locale.
    pub open spec fn tag(self) -> Seq<char> {
        match self {
            Locale::EnglishUS => "en-US"@,
            Locale::EnglishGB => "en-GB"@,
            Locale::Spanish => "es-ES"@,
            Locale::French => "fr"@,
            Locale::German => "de"@,
            Locale::Japanese => "ja"@,
            Locale::Korean => "ko"@,
            Locale::Chinese => "zh-CN"@,
        }
    }

    /// The place of the locale in the order in which they are declared, from 0.
    pub open spec fn ordinal(self) -> int {
        match self {
            Locale::EnglishUS => 0,
            Locale::EnglishGB => 1,
            Locale::Spanish => 2,
            Locale::French => 3,
            Locale::German => 4,
            Locale::Japanese => 5,
            Locale::Korean => 6,
            Locale::Chinese => 7,
        }
    }

    /// The locale at a place of the declaration order.
    pub open spec fn at(ordinal: int) -> Locale {
        if ordinal == 0 {
            Locale::EnglishUS
        } else if ordinal == 1 {
            Locale::EnglishGB
        } else if ordinal == 2 {
            Locale::Spanish
        } else if ordinal == 3 {
            Locale::French
        } else if ordinal == 4 {
            Locale::German
        } else if ordinal == 5 {
            Locale::Japanese
        } else if ordinal == 6 {
            Locale::Korean
        } else {
            Locale::Chinese
        }
    }

    /// The locale that a tag names, if it names one.
    pub open spec fn of_tag(tag: Seq<char>) -> Option<Locale> {
        if tag == Locale::EnglishUS.tag() {
            Some(Locale::EnglishUS)
        } else if tag == Locale::EnglishGB.tag() {
            Some(Locale::EnglishGB)
        } else if tag == Locale::Spanish.tag() {
            Some(Locale::Spanish)
        } else if tag == Locale::French.tag() {
            Some(Locale::French)
        } else if tag == Locale::German.tag() {
            Some(Locale::German)
        } else if tag == Locale::Japanese.tag() {
            Some(Locale::Japanese)
        } else if tag == Locale::Korean.tag() {
            Some(Locale::Korean)
        } else if tag == Locale::Chinese.tag() {
            Some(Locale::Chinese)
        } else {
            None
        }
    }

    /// The tag of the locale, such as `en-US`.
    pub fn as_str(&self) -> (tag: &'static str)
        ensures
            tag@ == self.tag(),
    {
        match self {
            Locale::EnglishUS => "en-US",
            Locale::EnglishGB => "en-GB",
            Locale::Spanish => "es-ES",
            Locale::French => "fr",
            Locale::German => "de",
            Locale::Japanese => "ja",
            Locale::Korean => "ko",
            Locale::Chinese => "zh-CN",
        }
    }

    /// The locale that `tag` names; `None` for a tag that names none of them.
    pub fn from_tag(tag: &str) -> (locale: Option<Locale>)
        ensures
            locale == Locale::of_tag(tag@),
    {
        if str_eq(tag, "en-US") {
            Some(Locale::EnglishUS)
        } else if str_eq(tag, "en-GB") {
            Some(Locale::EnglishGB)
        } else if str_eq(tag, "es-ES") {
            Some(Locale::Spanish)
        } else if str_eq(tag, "fr") {
            Some(Locale::French)
        } else if str_eq(tag, "de") {
            Some(Locale::German)
        } else if str_eq(tag, "ja") {
            Some(Locale::Japanese)
        } else if str_eq(tag, "ko") {
            Some(Locale::Korean)
        } else if str_eq(tag, "zh-CN") {
            Some(Locale::Chinese)
        } else {
            None
        }
    }

    /// The place of the locale in the order of declaration.
    pub(crate) fn index(&self) -> (i: usize)
        ensures
            i == self.ordinal(),
            i < 8,
    {
        match self {
            Locale::EnglishUS => 0,
            Locale::EnglishGB => 1,
            Locale::Spanish => 2,
            Locale::French => 3,
            Locale::German => 4,
            Locale::Japanese => 5,
            Locale::Korean => 6,
            Locale::Chinese => 7,
        }
    }

    /// The locale at a place of the order of declaration.
    pub(crate) fn nth(i: usize) -> (locale: Locale)
        requires
            i < 8,
        ensures
            locale == Locale::at(i as int),
            locale.ordinal() == i,
    {
        if i == 0 {
            Locale::EnglishUS
        } else if i == 1 {
            Locale::EnglishGB
        } else if i == 2 {
            Locale::Spanish
        } else if i == 3 {
            Locale::French
        } else if i == 4 {
            Locale::German
        } else if i == 5 {
            Locale::Japanese
        } else if i == 6 {
            Locale::Korean
        } else {
            Locale::Chinese
        }
    }
}

impl From<Locale> for String {
    fn from(locale: Locale) -> (tag: String)
        ensures
            tag@ == locale.tag(),
    {
        locale.as_str().to_owned()
    }
}

impl FromSpecImpl<Locale> for String {
    open spec fn obeys_from_spec() -> bool {
        false
    }

    open spec fn from_spec(locale: Locale) -> String {
        arbitrary()
    }
}

/// Two locales with the same tag are the same locale, and the tag of a locale
/// names that locale.
pub proof fn lemma_tags_are_distinct(a: Locale, b: Locale)
    ensures
        a.tag() == b.tag() ==> a == b,
        Locale::of_tag(a.tag()) == Some(a),
        Locale::at(a.ordinal()) == a,
        0 <= a.ordinal() < 8,
{
    reveal_strlit("en-US");
    reveal_strlit("en-GB");
    reveal_strlit("es-ES");
    reveal_strlit("fr");
    reveal_strlit("de");
    reveal_strlit("ja");
    reveal_strlit("ko");
    reveal_strlit("zh-CN");
    assert("en-US"@[3] == 'U');
    assert("en-GB"@[3] == 'G');
    assert("es-ES"@[1] == 's');
    assert("fr"@[0] == 'f');
    assert("de"@[0] == 'd');
    assert("ja"@[0] == 'j');
    assert("ko"@[0] == 'k');
    assert("zh-CN"@[0] == 'z');
}

} // verus!

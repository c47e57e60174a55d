//! The locale of a user: on the client side, the language and region.
use vstd::prelude::*;
use vstd::string::*;
use vstd::utf8::encode_utf8_decode_utf8;

verus! {

/// A user's locale, which stands for the language they selected.
#[non_exhaustive]
#[derive(Debug, Clone, Copy, PartialEq, Eq, Structural)]
pub enum Locale {
    /// The locale for Danish, which is `da` in the Discord API.
    Danish,
    /// The locale for German, which is `de` in the Discord API.
    German,
    /// The locale for EnglishUK, which is `en-GB` in the Discord API.
    EnglishUK,
    /// The locale for EnglishUS, which is `en-US` in the Discord API.
    EnglishUS,
    /// The locale for Spanish, which is `es-ES` in the Discord API.
    Spanish,
    /// The locale for French, which is `fr` in the Discord API.
    French,
    /// The locale for Croatian, which is `hr` in the Discord API.
    Croatian,
    /// The locale for Italian, which is `it` in the Discord API.
    Italian,
    /// The locale for Lithuanian, which is `lt` in the Discord API.
    Lithuanian,
    /// The locale for Hungarian, which is `hu` in the Discord API.
    Hungarian,
    /// The locale for Dutch, which is `nl` in the Discord API.
    Dutch,
    /// The locale for Norwegian, which is `no` in the Discord API.
    Norwegian,
    /// The locale for Polish, which is `pl` in the Discord API.
    Polish,
    /// The locale for PortugueseBrazil, which is `pt-BR` in the Discord API.
    PortugueseBrazil,
    /// The locale for Romanian, which is `ro` in the Discord API.
    Romanian,
    /// The locale for Finnish, which is `fi` in the Discord API.
    Finnish,
    /// The locale for Swedish, which is `sv-SE` in the Discord API.
    Swedish,
    /// The locale for Vietnamese, which is `vi` in the Discord API.
    Vietnamese,
    /// The locale for Turkish, which is `tr` in the Discord API.
    Turkish,
    /// The locale for Czech, which is `cz` in the Discord API.
    Czech,
    /// The locale for Greek, which is `el` in the Discord API.
    Greek,
    /// The locale for Bulgarian, which is `bg` in the Discord API.
    Bulgarian,
    /// The locale for Russian, which is `ru` in the Discord API.
    Russian,
    /// The locale for Ukrainian, which is `uk` in the Discord API.
    Ukrainian,
    /// The locale for Hindi, which is `hi` in the Discord API.
    Hindi,
    /// The locale for Thai, which is `th` in the Discord API.
    Thai,
    /// The locale for ChineseChina, which is `zh-CN` in the Discord API.
    ChineseChina,
    /// The locale for Japanese, which is `ja` in the Discord API.
    Japanese,
    /// The locale for ChineseTaiwan, which is `zh-TW` in the Discord API.
    ChineseTaiwan,
    /// The locale for Korean, which is `ko` in the Discord API.
    Korean,
}

impl Locale {
    /// The code of the locale in the Discord API.
    pub open spec fn spec_code(self) -> Seq<char> {
        match self {
            Locale::Danish => "da"@,
            Locale::German => "de"@,
            Locale::EnglishUK => "en-GB"@,
            Locale::EnglishUS => "en-US"@,
            Locale::Spanish => "es-ES"@,
            Locale::French => "fr"@,
            Locale::Croatian => "hr"@,
            Locale::Italian => "it"@,
            Locale::Lithuanian => "lt"@,
            Locale::Hungarian => "hu"@,
            Locale::Dutch => "nl"@,
            Locale::Norwegian => "no"@,
            Locale::Polish => "pl"@,
            Locale::PortugueseBrazil => "pt-BR"@,
            Locale::Romanian => "ro"@,
            Locale::Finnish => "fi"@,
            Locale::Swedish => "sv-SE"@,
            Locale::Vietnamese => "vi"@,
            Locale::Turkish => "tr"@,
            Locale::Czech => "cz"@,
            Locale::Greek => "el"@,
            Locale::Bulgarian => "bg"@,
            Locale::Russian => "ru"@,
            Locale::Ukrainian => "uk"@,
            Locale::Hindi => "hi"@,
            Locale::Thai => "th"@,
            Locale::ChineseChina => "zh-CN"@,
            Locale::Japanese => "ja"@,
            Locale::ChineseTaiwan => "zh-TW"@,
            Locale::Korean => "ko"@,
        }
    }

    /// The locale that a code of the Discord API stands for, if it is one.
    pub open spec fn spec_from_code(code: Seq<char>) -> Option<Locale> {
        if code == "da"@ {
            Some(Locale::Danish)
        } else if code == "de"@ {
            Some(Locale::German)
        } else if code == "en-GB"@ {
            Some(Locale::EnglishUK)
        } else if code == "en-US"@ {
            Some(Locale::EnglishUS)
        } else if code == "es-ES"@ {
            Some(Locale::Spanish)
        } else if code == "fr"@ {
            Some(Locale::French)
        } else if code == "hr"@ {
            Some(Locale::Croatian)
        } else if code == "it"@ {
            Some(Locale::Italian)
        } else if code == "lt"@ {
            Some(Locale::Lithuanian)
        } else if code == "hu"@ {
            Some(Locale::Hungarian)
        } else if code == "nl"@ {
            Some(Locale::Dutch)
        } else if code == "no"@ {
            Some(Locale::Norwegian)
        } else if code == "pl"@ {
            Some(Locale::Polish)
        } else if code == "pt-BR"@ {
            Some(Locale::PortugueseBrazil)
        } else if code == "ro"@ {
            Some(Locale::Romanian)
        } else if code == "fi"@ {
            Some(Locale::Finnish)
        } else if code == "sv-SE"@ {
            Some(Locale::Swedish)
        } else if code == "vi"@ {
            Some(Locale::Vietnamese)
        } else if code == "tr"@ {
            Some(Locale::Turkish)
        } else if code == "cz"@ {
            Some(Locale::Czech)
        } else if code == "el"@ {
            Some(Locale::Greek)
        } else if code == "bg"@ {
            Some(Locale::Bulgarian)
        } else if code == "ru"@ {
            Some(Locale::Russian)
        } else if code == "uk"@ {
            Some(Locale::Ukrainian)
        } else if code == "hi"@ {
            Some(Locale::Hindi)
        } else if code == "th"@ {
            Some(Locale::Thai)
        } else if code == "zh-CN"@ {
            Some(Locale::ChineseChina)
        } else if code == "ja"@ {
            Some(Locale::Japanese)
        } else if code == "zh-TW"@ {
            Some(Locale::ChineseTaiwan)
        } else if code == "ko"@ {
            Some(Locale::Korean)
        } else {
            None
        }
    }

    /// The code of the locale in the Discord API.
    pub fn code(&self) -> (r: &'static str)
        ensures
            r@ == self.spec_code(),
    {
        match self {
            Locale::Danish => "da",
            Locale::German => "de",
            Locale::EnglishUK => "en-GB",
            Locale::EnglishUS => "en-US",
            Locale::Spanish => "es-ES",
            Locale::French => "fr",
            Locale::Croatian => "hr",
            Locale::Italian => "it",
            Locale::Lithuanian => "lt",
            Locale::Hungarian => "hu",
            Locale::Dutch => "nl",
            Locale::Norwegian => "no",
            Locale::Polish => "pl",
            Locale::PortugueseBrazil => "pt-BR",
            Locale::Romanian => "ro",
            Locale::Finnish => "fi",
            Locale::Swedish => "sv-SE",
            Locale::Vietnamese => "vi",
            Locale::Turkish => "tr",
            Locale::Czech => "cz",
            Locale::Greek => "el",
            Locale::Bulgarian => "bg",
            Locale::Russian => "ru",
            Locale::Ukrainian => "uk",
            Locale::Hindi => "hi",
            Locale::Thai => "th",
            Locale::ChineseChina => "zh-CN",
            Locale::Japanese => "ja",
            Locale::ChineseTaiwan => "zh-TW",
            Locale::Korean => "ko",
        }
    }

    /// The locale that a code of the Discord API stands for. Codes are told
    /// apart by case; a text that is no code stands for no locale.
    pub fn from_code(code: &str) -> (r: Option<Locale>)
        ensures
            r == Self::spec_from_code(code@),
    {
        if same_text(code, "da") {
            Some(Locale::Danish)
        } else if same_text(code, "de") {
            Some(Locale::German)
        } else if same_text(code, "en-GB") {
            Some(Locale::EnglishUK)
        } else if same_text(code, "en-US") {
            Some(Locale::EnglishUS)
        } else if same_text(code, "es-ES") {
            Some(Locale::Spanish)
        } else if same_text(code, "fr") {
            Some(Locale::French)
        } else if same_text(code, "hr") {
            Some(Locale::Croatian)
        } else if same_text(code, "it") {
            Some(Locale::Italian)
        } else if same_text(code, "lt") {
            Some(Locale::Lithuanian)
        } else if same_text(code, "hu") {
            Some(Locale::Hungarian)
        } else if same_text(code, "nl") {
            Some(Locale::Dutch)
        } else if same_text(code, "no") {
            Some(Locale::Norwegian)
        } else if same_text(code, "pl") {
            Some(Locale::Polish)
        } else if same_text(code, "pt-BR") {
            Some(Locale::PortugueseBrazil)
        } else if same_text(code, "ro") {
            Some(Locale::Romanian)
        } else if same_text(code, "fi") {
            Some(Locale::Finnish)
        } else if same_text(code, "sv-SE") {
            Some(Locale::Swedish)
        } else if same_text(code, "vi") {
            Some(Locale::Vietnamese)
        } else if same_text(code, "tr") {
            Some(Locale::Turkish)
        } else if same_text(code, "cz") {
            Some(Locale::Czech)
        } else if same_text(code, "el") {
            Some(Locale::Greek)
        } else if same_text(code, "bg") {
            Some(Locale::Bulgarian)
        } else if same_text(code, "ru") {
            Some(Locale::Russian)
        } else if same_text(code, "uk") {
            Some(Locale::Ukrainian)
        } else if same_text(code, "hi") {
            Some(Locale::Hindi)
        } else if same_text(code, "th") {
            Some(Locale::Thai)
        } else if same_text(code, "zh-CN") {
            Some(Locale::ChineseChina)
        } else if same_text(code, "ja") {
            Some(Locale::Japanese)
        } else if same_text(code, "zh-TW") {
            Some(Locale::ChineseTaiwan)
        } else if same_text(code, "ko") {
            Some(Locale::Korean)
        } else {
            None
        }
    }

    /// No two locales share a code: the code of a locale stands for that
    /// locale.
    pub proof fn law_code_round_trip(self)
        ensures
            Self::spec_from_code(self.spec_code()) == Some(self),
    {
        reveal_strlit("da");
        assert(code_key("da"@) == (2nat, 'd', 'a', ' '));
        reveal_strlit("de");
        assert(code_key("de"@) == (2nat, 'd', 'e', ' '));
        reveal_strlit("en-GB");
        assert(code_key("en-GB"@) == (5nat, 'e', 'n', 'G'));
        reveal_strlit("en-US");
        assert(code_key("en-US"@) == (5nat, 'e', 'n', 'U'));
        reveal_strlit("es-ES");
        assert(code_key("es-ES"@) == (5nat, 'e', 's', 'E'));
        reveal_strlit("fr");
        assert(code_key("fr"@) == (2nat, 'f', 'r', ' '));
        reveal_strlit("hr");
        assert(code_key("hr"@) == (2nat, 'h', 'r', ' '));
        reveal_strlit("it");
        assert(code_key("it"@) == (2nat, 'i', 't', ' '));
        reveal_strlit("lt");
        assert(code_key("lt"@) == (2nat, 'l', 't', ' '));
        reveal_strlit("hu");
        assert(code_key("hu"@) == (2nat, 'h', 'u', ' '));
        reveal_strlit("nl");
        assert(code_key("nl"@) == (2nat, 'n', 'l', ' '));
        reveal_strlit("no");
        assert(code_key("no"@) == (2nat, 'n', 'o', ' '));
        reveal_strlit("pl");
        assert(code_key("pl"@) == (2nat, 'p', 'l', ' '));
        reveal_strlit("pt-BR");
        assert(code_key("pt-BR"@) == (5nat, 'p', 't', 'B'));
        reveal_strlit("ro");
        assert(code_key("ro"@) == (2nat, 'r', 'o', ' '));
        reveal_strlit("fi");
        assert(code_key("fi"@) == (2nat, 'f', 'i', ' '));
        reveal_strlit("sv-SE");
        assert(code_key("sv-SE"@) == (5nat, 's', 'v', 'S'));
        reveal_strlit("vi");
        assert(code_key("vi"@) == (2nat, 'v', 'i', ' '));
        reveal_strlit("tr");
        assert(code_key("tr"@) == (2nat, 't', 'r', ' '));
        reveal_strlit("cz");
        assert(code_key("cz"@) == (2nat, 'c', 'z', ' '));
        reveal_strlit("el");
        assert(code_key("el"@) == (2nat, 'e', 'l', ' '));
        reveal_strlit("bg");
        assert(code_key("bg"@) == (2nat, 'b', 'g', ' '));
        reveal_strlit("ru");
        assert(code_key("ru"@) == (2nat, 'r', 'u', ' '));
        reveal_strlit("uk");
        assert(code_key("uk"@) == (2nat, 'u', 'k', ' '));
        reveal_strlit("hi");
        assert(code_key("hi"@) == (2nat, 'h', 'i', ' '));
        reveal_strlit("th");
        assert(code_key("th"@) == (2nat, 't', 'h', ' '));
        reveal_strlit("zh-CN");
        assert(code_key("zh-CN"@) == (5nat, 'z', 'h', 'C'));
        reveal_strlit("ja");
        assert(code_key("ja"@) == (2nat, 'j', 'a', ' '));
        reveal_strlit("zh-TW");
        assert(code_key("zh-TW"@) == (5nat, 'z', 'h', 'T'));
        reveal_strlit("ko");
        assert(code_key("ko"@) == (2nat, 'k', 'o', ' '));
    }
}

/// What tells the codes apart: the length of a code, its first two characters
/// and, where it has one, its fourth.
spec fn code_key(code: Seq<char>) -> (nat, char, char, char) {
    (
        code.len(),
        code[0],
        code[1],
        if code.len() > 3 {
            code[3]
        } else {
            ' '
        },
    )
}

/// Whether two texts are the same, character by character.
fn same_text(a: &str, b: &str) -> (r: bool)
    ensures
        r == (a@ == b@),
{
    let left = a.as_bytes();
    let right = b.as_bytes();
    if left.len() != right.len() {
        return false;
    }
    let mut i: usize = 0;
    while i < left.len()
        invariant
            i <= left.len(),
            left.len() == right.len(),
            left@ == a.spec_bytes(),
            right@ == b.spec_bytes(),
            forall|j: int| 0 <= j < i ==> left[j] == right[j],
        decreases left.len() - i,
    {
        if left[i] != right[i] {
            return false;
        }
        i = i + 1;
    }
    proof {
        assert(left@ =~= right@);
        encode_utf8_decode_utf8(a@);
        encode_utf8_decode_utf8(b@);
    }
    true
}

} // verus!

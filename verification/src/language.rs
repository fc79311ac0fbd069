//! The closed catalog of languages and the codec between a language and its
//! three names: the wire form, the short code and the native name.

use vstd::prelude::*;
use crate::text::str_eq;

verus! {

/// A language of the store, in the order in which the catalog lists them.
/// `All` is the wildcard that stands for every language at once.
#[derive(Debug, Clone, Copy, Hash, PartialEq, Eq, Ord, Structural)]
#[non_exhaustive]
pub enum Language {
    All,
    Arabic,
    Bulgarian,
    SimplifiedChinese,
    TraditionalChinese,
    Czech,
    Danish,
    Dutch,
    English,
    Finnish,
    French,
    German,
    Greek,
    Hungarian,
    Italian,
    Japanese,
    Korean,
    Norwegian,
    Polish,
    Portuguese,
    PortugueseBrazilian,
    Romanian,
    Russian,
    SpanishSpain,
    SpanishLatAm,
    Swedish,
    Thai,
    Turkish,
    Ukrainian,
    Vietnamese,
}

/// The three names of one language, kept together so that no table can fall
/// out of step with another.
#[derive(Debug, Clone, Copy)]
pub struct Names {
    /// The lowercase token that queries and responses carry.
    pub wire_form: &'static str,
    /// The locale-style abbreviation.
    pub short_code: &'static str,
    /// The name the language gives itself.
    pub native_name: &'static str,
}

/// One of the three names of a language. Parsing consults them in this
/// order: every wire form first, then every native name, then every short code.
#[derive(Debug, Clone, Copy, Hash, PartialEq, Eq, Structural)]
pub enum Projection {
    WireForm,
    NativeName,
    ShortCode,
}

/// The input named no language of the catalog. The marker carries nothing,
/// not even the input that was refused.
#[derive(Debug, Clone, Copy)]
pub struct LangParseError;

/// How many languages the catalog holds, the wildcard included.
pub const LANGUAGE_COUNT: usize = 30;

/// What a caller is told when the input named no language.
pub const PARSE_ERROR_MESSAGE: &'static str =
    "Tried to a parse an unlisted language. Please report! Valve probably added in new languages since I last updated.";

/// The catalog: the names of each language. The native names are the exact
/// characters the catalog was handed down with, placeholders included.
pub open spec fn names(v: Language) -> Names {
    match v {
        Language::All => Names { wire_form: "all", short_code: "all", native_name: "All" },
        Language::Arabic => Names { wire_form: "arabic", short_code: "ar", native_name: "??????????????" },
        Language::Bulgarian => Names { wire_form: "bulgarian", short_code: "bg", native_name: "?????????????????? ????????" },
        Language::SimplifiedChinese => Names { wire_form: "schinese", short_code: "zh-CN", native_name: "????????????" },
        Language::TraditionalChinese => Names { wire_form: "tchinese", short_code: "zh-TW", native_name: "????????????" },
        Language::Czech => Names { wire_form: "czech", short_code: "cs", native_name: "??e??tina" },
        Language::Danish => Names { wire_form: "danish", short_code: "da", native_name: "Dansk" },
        Language::Dutch => Names { wire_form: "dutch", short_code: "nl", native_name: "Nederlands" },
        Language::English => Names { wire_form: "english", short_code: "en", native_name: "English" },
        Language::Finnish => Names { wire_form: "finnish", short_code: "fi", native_name: "Suomi" },
        Language::French => Names { wire_form: "french", short_code: "fr", native_name: "Fran??ais" },
        Language::German => Names { wire_form: "german", short_code: "de", native_name: "Deutsch" },
        Language::Greek => Names { wire_form: "greek", short_code: "el el", native_name: "????????????????" },
        Language::Hungarian => Names { wire_form: "hungarian", short_code: "hu", native_name: "Magyar" },
        Language::Italian => Names { wire_form: "italian", short_code: "it", native_name: "Italiano" },
        Language::Japanese => Names { wire_form: "japanese", short_code: "ja", native_name: "?????????" },
        Language::Korean => Names { wire_form: "koreana", short_code: "ko", native_name: "?????????" },
        Language::Norwegian => Names { wire_form: "norwegian", short_code: "no", native_name: "Norsk" },
        Language::Polish => Names { wire_form: "polish", short_code: "pl", native_name: "Polski" },
        Language::Portuguese => Names { wire_form: "portuguese", short_code: "pt", native_name: "Portugu??s" },
        Language::PortugueseBrazilian => Names { wire_form: "brazilian", short_code: "pt-BR", native_name: "Portugu??s-Brasil" },
        Language::Romanian => Names { wire_form: "romanian", short_code: "ro", native_name: "Rom??n??" },
        Language::Russian => Names { wire_form: "russian", short_code: "ru", native_name: "??????????????" },
        Language::SpanishSpain => Names { wire_form: "spanish", short_code: "es", native_name: "Espa??ol-Espa??a" },
        Language::SpanishLatAm => Names { wire_form: "latam", short_code: "es-419", native_name: "Espa??ol-Latinoam??rica" },
        Language::Swedish => Names { wire_form: "swedish", short_code: "sv", native_name: "Svenska" },
        Language::Thai => Names { wire_form: "thai", short_code: "th", native_name: "?????????" },
        Language::Turkish => Names { wire_form: "turkish", short_code: "tr", native_name: "T??rk??e" },
        Language::Ukrainian => Names { wire_form: "ukrainian", short_code: "uk", native_name: "????????????????????" },
        Language::Vietnamese => Names { wire_form: "vietnamese", short_code: "vn", native_name: "Ti???ng Vi???t" },
    }
}

/// The name under which `v` appears in queries and responses.
pub open spec fn wire_form(v: Language) -> Seq<char> {
    names(v).wire_form@
}

/// The locale-style abbreviation of `v`.
pub open spec fn short_code(v: Language) -> Seq<char> {
    names(v).short_code@
}

/// The name `v` gives itself.
pub open spec fn native_name(v: Language) -> Seq<char> {
    names(v).native_name@
}

/// The place of `v` in the catalog, counted from zero.
pub open spec fn ordinal(v: Language) -> nat {
    match v {
        Language::All => 0,
        Language::Arabic => 1,
        Language::Bulgarian => 2,
        Language::SimplifiedChinese => 3,
        Language::TraditionalChinese => 4,
        Language::Czech => 5,
        Language::Danish => 6,
        Language::Dutch => 7,
        Language::English => 8,
        Language::Finnish => 9,
        Language::French => 10,
        Language::German => 11,
        Language::Greek => 12,
        Language::Hungarian => 13,
        Language::Italian => 14,
        Language::Japanese => 15,
        Language::Korean => 16,
        Language::Norwegian => 17,
        Language::Polish => 18,
        Language::Portuguese => 19,
        Language::PortugueseBrazilian => 20,
        Language::Romanian => 21,
        Language::Russian => 22,
        Language::SpanishSpain => 23,
        Language::SpanishLatAm => 24,
        Language::Swedish => 25,
        Language::Thai => 26,
        Language::Turkish => 27,
        Language::Ukrainian => 28,
        Language::Vietnamese => 29,
    }
}

/// The name of `v` that `p` selects.
pub open spec fn project(v: Language, p: Projection) -> Seq<char> {
    match p {
        Projection::WireForm => wire_form(v),
        Projection::NativeName => native_name(v),
        Projection::ShortCode => short_code(v),
    }
}

/// `v` bears the name `s` under `p`, and no language earlier in the catalog does.
pub open spec fn first_named(p: Projection, s: Seq<char>, v: Language) -> bool {
    &&& project(v, p) == s
    &&& forall|w: Language| (#[trigger] project(w, p)) == s ==> ordinal(v) <= ordinal(w)
}

/// The first language of the catalog that bears the name `s` under `p`.
pub open spec fn lookup(p: Projection, s: Seq<char>) -> Option<Language> {
    if exists|v: Language| first_named(p, s, v) {
        Some(choose|v: Language| first_named(p, s, v))
    } else {
        None
    }
}

/// Some language bears the name `s`, under one projection or another.
pub open spec fn is_named(s: Seq<char>) -> bool {
    exists|v: Language, p: Projection| (#[trigger] project(v, p)) == s
}

/// The language that the text `s` stands for: the first whose wire form is
/// `s`; failing that, the first whose native name is `s`; failing that, the
/// first whose short code is `s`. The match is exact: no case is folded and
/// nothing is trimmed.
pub open spec fn parse(s: Seq<char>) -> Option<Language> {
    if lookup(Projection::WireForm, s) is Some {
        lookup(Projection::WireForm, s)
    } else if lookup(Projection::NativeName, s) is Some {
        lookup(Projection::NativeName, s)
    } else {
        lookup(Projection::ShortCode, s)
    }
}

/// A language that is first to bear a name is the one that `lookup` finds.
pub proof fn lemma_first_named_is_found(p: Projection, s: Seq<char>, v: Language)
    requires
        first_named(p, s, v),
    ensures
        lookup(p, s) == Some(v),
{
    let c = choose|c: Language| first_named(p, s, c);
    assert(ordinal(c) == ordinal(v));
}

/// Among the bearers of a name there is a first one.
proof fn lemma_least_bearer(p: Projection, s: Seq<char>, w: Language, bound: nat)
    requires
        project(w, p) == s,
        ordinal(w) <= bound,
    ensures
        exists|v: Language| first_named(p, s, v),
    decreases bound,
{
    if !first_named(p, s, w) {
        let u = choose|u: Language| (#[trigger] project(u, p)) == s && ordinal(u) < ordinal(w);
        lemma_least_bearer(p, s, u, (bound - 1) as nat);
    }
}

/// `lookup` finds nothing exactly when no language bears the name.
pub proof fn lemma_lookup_none(p: Projection, s: Seq<char>)
    ensures
        lookup(p, s) is None <==> forall|w: Language| (#[trigger] project(w, p)) != s,
{
    if exists|w: Language| (#[trigger] project(w, p)) == s {
        let w = choose|w: Language| (#[trigger] project(w, p)) == s;
        lemma_least_bearer(p, s, w, ordinal(w));
    }
}

/// Parsing succeeds exactly on the texts that name a language.
pub proof fn lemma_parse_succeeds_iff_named(s: Seq<char>)
    ensures
        parse(s) is Some <==> is_named(s),
{
    lemma_lookup_none(Projection::WireForm, s);
    lemma_lookup_none(Projection::NativeName, s);
    lemma_lookup_none(Projection::ShortCode, s);
    if is_named(s) {
        let (v, p) = choose|v: Language, p: Projection| (#[trigger] project(v, p)) == s;
        assert(project(v, p) == s);
    }
}

impl Names {
    /// The name that `p` selects.
    pub fn get(&self, p: Projection) -> (r: &'static str)
        ensures
            r == match p {
                Projection::WireForm => self.wire_form,
                Projection::NativeName => self.native_name,
                Projection::ShortCode => self.short_code,
            },
    {
        match p {
            Projection::WireForm => self.wire_form,
            Projection::NativeName => self.native_name,
            Projection::ShortCode => self.short_code,
        }
    }
}

impl LangParseError {
    /// The text of this error. It is the same for every refused input.
    pub fn to_text(&self) -> (r: String)
        ensures
            r@ == PARSE_ERROR_MESSAGE@,
    {
        PARSE_ERROR_MESSAGE.to_owned()
    }
}

impl Language {
    /// All three names of this language.
    pub fn names(self) -> (r: Names)
        ensures
            r == names(self),
    {
        match self {
            Language::All => Names { wire_form: "all", short_code: "all", native_name: "All" },
            Language::Arabic => Names { wire_form: "arabic", short_code: "ar", native_name: "??????????????" },
            Language::Bulgarian => Names { wire_form: "bulgarian", short_code: "bg", native_name: "?????????????????? ????????" },
            Language::SimplifiedChinese => Names { wire_form: "schinese", short_code: "zh-CN", native_name: "????????????" },
            Language::TraditionalChinese => Names { wire_form: "tchinese", short_code: "zh-TW", native_name: "????????????" },
            Language::Czech => Names { wire_form: "czech", short_code: "cs", native_name: "??e??tina" },
            Language::Danish => Names { wire_form: "danish", short_code: "da", native_name: "Dansk" },
            Language::Dutch => Names { wire_form: "dutch", short_code: "nl", native_name: "Nederlands" },
            Language::English => Names { wire_form: "english", short_code: "en", native_name: "English" },
            Language::Finnish => Names { wire_form: "finnish", short_code: "fi", native_name: "Suomi" },
            Language::French => Names { wire_form: "french", short_code: "fr", native_name: "Fran??ais" },
            Language::German => Names { wire_form: "german", short_code: "de", native_name: "Deutsch" },
            Language::Greek => Names { wire_form: "greek", short_code: "el el", native_name: "????????????????" },
            Language::Hungarian => Names { wire_form: "hungarian", short_code: "hu", native_name: "Magyar" },
            Language::Italian => Names { wire_form: "italian", short_code: "it", native_name: "Italiano" },
            Language::Japanese => Names { wire_form: "japanese", short_code: "ja", native_name: "?????????" },
            Language::Korean => Names { wire_form: "koreana", short_code: "ko", native_name: "?????????" },
            Language::Norwegian => Names { wire_form: "norwegian", short_code: "no", native_name: "Norsk" },
            Language::Polish => Names { wire_form: "polish", short_code: "pl", native_name: "Polski" },
            Language::Portuguese => Names { wire_form: "portuguese", short_code: "pt", native_name: "Portugu??s" },
            Language::PortugueseBrazilian => Names { wire_form: "brazilian", short_code: "pt-BR", native_name: "Portugu??s-Brasil" },
            Language::Romanian => Names { wire_form: "romanian", short_code: "ro", native_name: "Rom??n??" },
            Language::Russian => Names { wire_form: "russian", short_code: "ru", native_name: "??????????????" },
            Language::SpanishSpain => Names { wire_form: "spanish", short_code: "es", native_name: "Espa??ol-Espa??a" },
            Language::SpanishLatAm => Names { wire_form: "latam", short_code: "es-419", native_name: "Espa??ol-Latinoam??rica" },
            Language::Swedish => Names { wire_form: "swedish", short_code: "sv", native_name: "Svenska" },
            Language::Thai => Names { wire_form: "thai", short_code: "th", native_name: "?????????" },
            Language::Turkish => Names { wire_form: "turkish", short_code: "tr", native_name: "T??rk??e" },
            Language::Ukrainian => Names { wire_form: "ukrainian", short_code: "uk", native_name: "????????????????????" },
            Language::Vietnamese => Names { wire_form: "vietnamese", short_code: "vn", native_name: "Ti???ng Vi???t" },
        }
    }

    /// String representation of how this language appears in queries.
    pub fn as_str(self) -> (r: &'static str)
        ensures
            r@ == wire_form(self),
    {
        self.names().wire_form
    }

    /// Shorthand language code as represented by the web API.
    pub fn language_code(self) -> (r: &'static str)
        ensures
            r@ == short_code(self),
    {
        self.names().short_code
    }

    /// The language's native name.
    pub fn native_name(self) -> (r: &'static str)
        ensures
            r@ == native_name(self),
    {
        self.names().native_name
    }

    /// The text of this language: its wire form, never another of its names.
    pub fn to_text(self) -> (r: String)
        ensures
            r@ == wire_form(self),
    {
        self.as_str().to_owned()
    }

    /// The place of this language in the catalog, counted from zero.
    pub fn ordinal(self) -> (i: usize)
        ensures
            i == ordinal(self),
            i < LANGUAGE_COUNT,
    {
        match self {
            Language::All => 0,
            Language::Arabic => 1,
            Language::Bulgarian => 2,
            Language::SimplifiedChinese => 3,
            Language::TraditionalChinese => 4,
            Language::Czech => 5,
            Language::Danish => 6,
            Language::Dutch => 7,
            Language::English => 8,
            Language::Finnish => 9,
            Language::French => 10,
            Language::German => 11,
            Language::Greek => 12,
            Language::Hungarian => 13,
            Language::Italian => 14,
            Language::Japanese => 15,
            Language::Korean => 16,
            Language::Norwegian => 17,
            Language::Polish => 18,
            Language::Portuguese => 19,
            Language::PortugueseBrazilian => 20,
            Language::Romanian => 21,
            Language::Russian => 22,
            Language::SpanishSpain => 23,
            Language::SpanishLatAm => 24,
            Language::Swedish => 25,
            Language::Thai => 26,
            Language::Turkish => 27,
            Language::Ukrainian => 28,
            Language::Vietnamese => 29,
        }
    }

    /// The language at place `i` of the catalog, if the catalog is that long.
    pub fn from_ordinal(i: usize) -> (r: Option<Language>)
        ensures
            i < LANGUAGE_COUNT ==> r is Some,
            match r {
                Some(v) => ordinal(v) == i,
                None => i >= LANGUAGE_COUNT,
            },
    {
        match i {
            0 => Some(Language::All),
            1 => Some(Language::Arabic),
            2 => Some(Language::Bulgarian),
            3 => Some(Language::SimplifiedChinese),
            4 => Some(Language::TraditionalChinese),
            5 => Some(Language::Czech),
            6 => Some(Language::Danish),
            7 => Some(Language::Dutch),
            8 => Some(Language::English),
            9 => Some(Language::Finnish),
            10 => Some(Language::French),
            11 => Some(Language::German),
            12 => Some(Language::Greek),
            13 => Some(Language::Hungarian),
            14 => Some(Language::Italian),
            15 => Some(Language::Japanese),
            16 => Some(Language::Korean),
            17 => Some(Language::Norwegian),
            18 => Some(Language::Polish),
            19 => Some(Language::Portuguese),
            20 => Some(Language::PortugueseBrazilian),
            21 => Some(Language::Romanian),
            22 => Some(Language::Russian),
            23 => Some(Language::SpanishSpain),
            24 => Some(Language::SpanishLatAm),
            25 => Some(Language::Swedish),
            26 => Some(Language::Thai),
            27 => Some(Language::Turkish),
            28 => Some(Language::Ukrainian),
            29 => Some(Language::Vietnamese),
            _ => None,
        }
    }

    /// Searches the catalog, in its order, for the first language that bears
    /// the name `s` under `p`.
    pub fn lookup(p: Projection, s: &str) -> (r: Option<Language>)
        ensures
            r == lookup(p, s@),
    {
        let mut i: usize = 0;
        while i < LANGUAGE_COUNT
            invariant
                i <= LANGUAGE_COUNT,
                forall|w: Language| ordinal(w) < i ==> (#[trigger] project(w, p)) != s@,
            decreases LANGUAGE_COUNT - i,
        {
            if let Some(v) = Language::from_ordinal(i) {
                if str_eq(v.names().get(p), s) {
                    proof {
                        lemma_first_named_is_found(p, s@, v);
                    }
                    return Some(v);
                }
                assert forall|w: Language| ordinal(w) < i + 1 implies (#[trigger] project(w, p))
                    != s@ by {
                    if ordinal(w) == i {
                        assert(w == v);
                    }
                }
            }
            i += 1;
        }
        proof {
            lemma_lookup_none(p, s@);
        }
        None
    }
}

impl std::str::FromStr for Language {
    type Err = LangParseError;

    /// String slice to language. The input must be, character for character,
    /// a wire form, a native name or a short code of the catalog; the three
    /// are tried in that order, and within one the catalog's order decides.
    ///
    /// ## Errors
    /// Returns [`LangParseError`] if the input names no language.
    fn from_str(s: &str) -> (r: Result<Language, LangParseError>)
        ensures
            match r {
                Ok(v) => parse(s@) == Some(v),
                Err(_) => parse(s@) is None,
            },
            r is Ok <==> is_named(s@),
    {
        proof {
            lemma_parse_succeeds_iff_named(s@);
        }
        if let Some(v) = Language::lookup(Projection::WireForm, s) {
            return Ok(v);
        }
        if let Some(v) = Language::lookup(Projection::NativeName, s) {
            return Ok(v);
        }
        match Language::lookup(Projection::ShortCode, s) {
            Some(v) => Ok(v),
            None => Err(LangParseError),
        }
    }
}

} // verus!

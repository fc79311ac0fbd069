//! What holds of the catalog as a whole: which names are shared, and what
//! parsing makes of each name of each language.

use vstd::prelude::*;
use crate::language::{
    first_named, lemma_first_named_is_found, lemma_lookup_none, native_name, ordinal, parse,
    project, short_code, wire_form, Language, Projection,
};

verus! {

/// A lowercase letter of the basic alphabet.
pub open spec fn is_lower(c: char) -> bool {
    'a' <= c <= 'z'
}

/// Every wire form has at least three characters, the first and the third
/// of them lowercase letters, and no two languages share one.
proof fn lemma_wire_forms()
    ensures
        forall|v: Language|
            {
                &&& (#[trigger] wire_form(v)).len() >= 3
                &&& is_lower(wire_form(v)[0])
                &&& is_lower(wire_form(v)[2])
            },
        forall|v: Language, w: Language|
            (#[trigger] wire_form(v)) == (#[trigger] wire_form(w)) ==> v == w,
{
    reveal_strlit("all");
    reveal_strlit("arabic");
    reveal_strlit("bulgarian");
    reveal_strlit("schinese");
    reveal_strlit("tchinese");
    reveal_strlit("czech");
    reveal_strlit("danish");
    reveal_strlit("dutch");
    reveal_strlit("english");
    reveal_strlit("finnish");
    reveal_strlit("french");
    reveal_strlit("german");
    reveal_strlit("greek");
    reveal_strlit("hungarian");
    reveal_strlit("italian");
    reveal_strlit("japanese");
    reveal_strlit("koreana");
    reveal_strlit("norwegian");
    reveal_strlit("polish");
    reveal_strlit("portuguese");
    reveal_strlit("brazilian");
    reveal_strlit("romanian");
    reveal_strlit("russian");
    reveal_strlit("spanish");
    reveal_strlit("latam");
    reveal_strlit("swedish");
    reveal_strlit("thai");
    reveal_strlit("turkish");
    reveal_strlit("ukrainian");
    reveal_strlit("vietnamese");
    assert forall|v: Language, w: Language|
        (#[trigger] wire_form(v)) == (#[trigger] wire_form(w)) implies v == w by {
        let a = wire_form(v);
        let b = wire_form(w);
        assert(a[0] == b[0] && a[1] == b[1] && a[2] == b[2]);
    }
}

/// Every short code has at least two characters and opens with a lowercase
/// letter; but for the wildcard's, it is either two characters long or has
/// something other than a lowercase letter in third place. No two languages
/// share one.
proof fn lemma_short_codes()
    ensures
        forall|v: Language|
            {
                &&& (#[trigger] short_code(v)).len() >= 2
                &&& is_lower(short_code(v)[0])
                &&& v == Language::All || short_code(v).len() == 2 || !is_lower(short_code(v)[2])
            },
        forall|v: Language, w: Language|
            (#[trigger] short_code(v)) == (#[trigger] short_code(w)) ==> v == w,
{
    reveal_strlit("all");
    reveal_strlit("ar");
    reveal_strlit("bg");
    reveal_strlit("zh-CN");
    reveal_strlit("zh-TW");
    reveal_strlit("cs");
    reveal_strlit("da");
    reveal_strlit("nl");
    reveal_strlit("en");
    reveal_strlit("fi");
    reveal_strlit("fr");
    reveal_strlit("de");
    reveal_strlit("el el");
    reveal_strlit("hu");
    reveal_strlit("it");
    reveal_strlit("ja");
    reveal_strlit("ko");
    reveal_strlit("no");
    reveal_strlit("pl");
    reveal_strlit("pt");
    reveal_strlit("pt-BR");
    reveal_strlit("ro");
    reveal_strlit("ru");
    reveal_strlit("es");
    reveal_strlit("es-419");
    reveal_strlit("sv");
    reveal_strlit("th");
    reveal_strlit("tr");
    reveal_strlit("uk");
    reveal_strlit("vn");
    assert forall|v: Language, w: Language|
        (#[trigger] short_code(v)) == (#[trigger] short_code(w)) implies v == w by {
        let a = short_code(v);
        let b = short_code(w);
        assert(a.len() == b.len() && a[0] == b[0] && a[1] == b[1] && a[3] == b[3]);
    }
}

/// The first language of the catalog that has the native name of `v`. The
/// catalog was handed down with placeholders in some native names, and a few
/// languages ended up with the same run of them.
pub open spec fn first_with_native_name_of(v: Language) -> Language {
    match v {
        Language::TraditionalChinese => Language::SimplifiedChinese,
        Language::Russian => Language::Arabic,
        Language::Korean => Language::Japanese,
        Language::Thai => Language::Japanese,
        _ => v,
    }
}

/// No native name is empty, none opens with a lowercase letter, and two
/// languages share one only where `first_with_native_name_of` says so.
proof fn lemma_native_names()
    ensures
        forall|v: Language|
            (#[trigger] native_name(v)).len() >= 1 && !is_lower(native_name(v)[0]),
        forall|v: Language|
            native_name(first_with_native_name_of(v)) == #[trigger] native_name(v),
        forall|v: Language, w: Language|
            (#[trigger] native_name(v)) == (#[trigger] native_name(w))
                ==> first_with_native_name_of(v) == first_with_native_name_of(w),
{
    reveal_strlit("All");
    reveal_strlit("??????????????");
    reveal_strlit("?????????????????? ????????");
    reveal_strlit("????????????");
    reveal_strlit("??e??tina");
    reveal_strlit("Dansk");
    reveal_strlit("Nederlands");
    reveal_strlit("English");
    reveal_strlit("Suomi");
    reveal_strlit("Fran??ais");
    reveal_strlit("Deutsch");
    reveal_strlit("????????????????");
    reveal_strlit("Magyar");
    reveal_strlit("Italiano");
    reveal_strlit("?????????");
    reveal_strlit("Norsk");
    reveal_strlit("Polski");
    reveal_strlit("Portugu??s");
    reveal_strlit("Portugu??s-Brasil");
    reveal_strlit("Rom??n??");
    reveal_strlit("Espa??ol-Espa??a");
    reveal_strlit("Espa??ol-Latinoam??rica");
    reveal_strlit("Svenska");
    reveal_strlit("T??rk??e");
    reveal_strlit("????????????????????");
    reveal_strlit("Ti???ng Vi???t");
    assert forall|v: Language, w: Language|
        (#[trigger] native_name(v)) == (#[trigger] native_name(w))
    implies
        first_with_native_name_of(v) == first_with_native_name_of(w)
    by {
        let a = native_name(v);
        let b = native_name(w);
        assert(a.len() == b.len() && a[0] == b[0] && a[2] == b[2]);
    }
}

/// No two languages share a wire form.
pub proof fn law_wire_forms_distinct(v1: Language, v2: Language)
    requires
        v1 != v2,
    ensures
        wire_form(v1) != wire_form(v2),
{
    lemma_wire_forms();
}

/// Parsing the wire form of a language gives that language back.
pub proof fn law_wire_form_round_trip(v: Language)
    ensures
        parse(wire_form(v)) == Some(v),
{
    lemma_wire_forms();
    assert(first_named(Projection::WireForm, wire_form(v), v));
    lemma_first_named_is_found(Projection::WireForm, wire_form(v), v);
}

/// The language found first under a native name is the one that
/// `first_with_native_name_of` names, whichever bearer of the name is asked.
pub proof fn law_native_name_parse(v: Language)
    ensures
        first_named(Projection::NativeName, native_name(v), first_with_native_name_of(v)),
        parse(native_name(v)) == Some(first_with_native_name_of(v)),
{
    let s = native_name(v);
    let u = first_with_native_name_of(v);
    lemma_wire_forms();
    lemma_native_names();
    assert forall|w: Language| (#[trigger] project(w, Projection::WireForm)) != s by {
        assert(wire_form(w)[0] != s[0]);
    }
    lemma_lookup_none(Projection::WireForm, s);
    assert forall|w: Language| (#[trigger] project(w, Projection::NativeName)) == s
    implies
        ordinal(u) <= ordinal(w)
    by {
        assert(native_name(w) == native_name(v));
        assert(first_with_native_name_of(w) == u);
    }
    lemma_first_named_is_found(Projection::NativeName, s, u);
}

/// Parsing the native name of a language gives that language back, unless an
/// earlier language of the catalog has the same native name.
pub proof fn law_native_name_round_trip(v: Language)
    requires
        v != Language::TraditionalChinese,
        v != Language::Russian,
        v != Language::Korean,
        v != Language::Thai,
    ensures
        parse(native_name(v)) == Some(v),
{
    law_native_name_parse(v);
}

/// Parsing the short code of a language gives that language back.
pub proof fn law_short_code_round_trip(v: Language)
    ensures
        parse(short_code(v)) == Some(v),
{
    let s = short_code(v);
    lemma_wire_forms();
    lemma_native_names();
    lemma_short_codes();
    if v == Language::All {
        assert(s == wire_form(v));
        law_wire_form_round_trip(v);
    } else {
        assert forall|w: Language| (#[trigger] project(w, Projection::WireForm)) != s by {
            assert(wire_form(w).len() != s.len() || wire_form(w)[2] != s[2]);
        }
        lemma_lookup_none(Projection::WireForm, s);
        assert forall|w: Language| (#[trigger] project(w, Projection::NativeName)) != s by {
            assert(native_name(w)[0] != s[0]);
        }
        lemma_lookup_none(Projection::NativeName, s);
        assert(first_named(Projection::ShortCode, s, v));
        lemma_first_named_is_found(Projection::ShortCode, s, v);
    }
}

/// Whatever parsing makes of a text, the text is one of that language's
/// names, character for character.
pub proof fn law_parsed_language_bears_the_name(s: Seq<char>, v: Language)
    requires
        parse(s) == Some(v),
    ensures
        s == wire_form(v) || s == native_name(v) || s == short_code(v),
{
}

} // verus!

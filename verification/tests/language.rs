use std::collections::HashSet;
use std::str::FromStr;

use serde::de::value::{Error, StringDeserializer};
use serde::de::IntoDeserializer;
use serde::{Deserialize, Deserializer};
use steam_review_api::language::{LANGUAGE_COUNT, PARSE_ERROR_MESSAGE};
use steam_review_api::{LangParseError, Language, Names, Projection};

/// Each language with its wire form, short code and native name.
const CATALOG: [(Language, &str, &str, &str); 30] = [
    (Language::All, "all", "all", "All"),
    (Language::Arabic, "arabic", "ar", "??????????????"),
    (Language::Bulgarian, "bulgarian", "bg", "?????????????????? ????????"),
    (Language::SimplifiedChinese, "schinese", "zh-CN", "????????????"),
    (Language::TraditionalChinese, "tchinese", "zh-TW", "????????????"),
    (Language::Czech, "czech", "cs", "??e??tina"),
    (Language::Danish, "danish", "da", "Dansk"),
    (Language::Dutch, "dutch", "nl", "Nederlands"),
    (Language::English, "english", "en", "English"),
    (Language::Finnish, "finnish", "fi", "Suomi"),
    (Language::French, "french", "fr", "Fran??ais"),
    (Language::German, "german", "de", "Deutsch"),
    (Language::Greek, "greek", "el el", "????????????????"),
    (Language::Hungarian, "hungarian", "hu", "Magyar"),
    (Language::Italian, "italian", "it", "Italiano"),
    (Language::Japanese, "japanese", "ja", "?????????"),
    (Language::Korean, "koreana", "ko", "?????????"),
    (Language::Norwegian, "norwegian", "no", "Norsk"),
    (Language::Polish, "polish", "pl", "Polski"),
    (Language::Portuguese, "portuguese", "pt", "Portugu??s"),
    (Language::PortugueseBrazilian, "brazilian", "pt-BR", "Portugu??s-Brasil"),
    (Language::Romanian, "romanian", "ro", "Rom??n??"),
    (Language::Russian, "russian", "ru", "??????????????"),
    (Language::SpanishSpain, "spanish", "es", "Espa??ol-Espa??a"),
    (Language::SpanishLatAm, "latam", "es-419", "Espa??ol-Latinoam??rica"),
    (Language::Swedish, "swedish", "sv", "Svenska"),
    (Language::Thai, "thai", "th", "?????????"),
    (Language::Turkish, "turkish", "tr", "T??rk??e"),
    (Language::Ukrainian, "ukrainian", "uk", "????????????????????"),
    (Language::Vietnamese, "vietnamese", "vn", "Ti???ng Vi???t"),
];

/// Reads a string from the deserializer and parses it as a language.
fn deserialize_language<'de, D>(deserializer: D) -> Result<Language, D::Error>
where
    D: Deserializer<'de>,
{
    let s = String::deserialize(deserializer)?;
    s.parse::<Language>()
        .map_err(|e| serde::de::Error::custom(e.to_text()))
}

#[test]
fn good_parse() {
    let english: StringDeserializer<Error> = "english".to_owned().into_deserializer();
    assert_eq!(deserialize_language(english), Ok(Language::English));
}

#[test]
fn bad_parse() {
    let cat_lang: StringDeserializer<Error> = "meow talk".to_owned().into_deserializer();
    let _err = deserialize_language(cat_lang).unwrap_err();
}

#[test]
fn bad_parse_carries_the_fixed_message() {
    let cat_lang: StringDeserializer<Error> = "meow talk".to_owned().into_deserializer();
    let err = deserialize_language(cat_lang).unwrap_err();
    assert_eq!(err.to_string(), PARSE_ERROR_MESSAGE);
}

#[test]
fn catalog_has_every_language_once_and_in_order() {
    assert_eq!(LANGUAGE_COUNT, 30);
    assert_eq!(CATALOG.len(), LANGUAGE_COUNT);
    for (i, entry) in CATALOG.iter().enumerate() {
        assert_eq!(Language::from_ordinal(i), Some(entry.0));
    }
    assert_eq!(Language::from_ordinal(LANGUAGE_COUNT), None);
    assert_eq!(Language::from_ordinal(usize::MAX), None);
}

#[test]
fn ordinal_is_the_place_in_the_catalog() {
    for (i, entry) in CATALOG.iter().enumerate() {
        assert_eq!(entry.0.ordinal(), i);
        assert_eq!(Language::from_ordinal(entry.0.ordinal()), Some(entry.0));
    }
    assert_eq!(Language::All.ordinal(), 0);
    assert_eq!(Language::Greek.ordinal(), 12);
    assert_eq!(Language::Vietnamese.ordinal(), 29);
}

#[test]
fn names_are_the_catalog_entries() {
    for &(v, wire, short, native) in CATALOG.iter() {
        assert_eq!(v.as_str(), wire);
        assert_eq!(v.language_code(), short);
        assert_eq!(v.native_name(), native);
        let Names { wire_form, short_code, native_name } = v.names();
        assert_eq!((wire_form, short_code, native_name), (wire, short, native));
    }
}

#[test]
fn names_get_selects_by_projection() {
    let n = Language::PortugueseBrazilian.names();
    assert_eq!(n.get(Projection::WireForm), "brazilian");
    assert_eq!(n.get(Projection::NativeName), "Portugu??s-Brasil");
    assert_eq!(n.get(Projection::ShortCode), "pt-BR");
}

#[test]
fn wire_form_round_trips() {
    for &(v, _, _, _) in CATALOG.iter() {
        assert_eq!(Language::from_str(v.as_str()).ok(), Some(v));
        assert_eq!(v.as_str().parse::<Language>().ok(), Some(v));
    }
}

#[test]
fn wire_forms_are_pairwise_distinct() {
    let seen: HashSet<&str> = CATALOG.iter().map(|e| e.0.as_str()).collect();
    assert_eq!(seen.len(), LANGUAGE_COUNT);
    for &(v, _, _, _) in CATALOG.iter() {
        for &(w, _, _, _) in CATALOG.iter() {
            if v != w {
                assert_ne!(v.as_str(), w.as_str());
            }
        }
    }
}

#[test]
fn wire_forms_are_lowercase() {
    for &(v, _, _, _) in CATALOG.iter() {
        assert!(v.as_str().chars().all(|c| c.is_ascii_lowercase()));
    }
}

#[test]
fn short_code_round_trips() {
    for &(v, _, _, _) in CATALOG.iter() {
        assert_eq!(Language::from_str(v.language_code()).ok(), Some(v));
    }
}

#[test]
fn native_name_round_trips_where_no_earlier_language_shares_it() {
    for &(v, _, _, _) in CATALOG.iter() {
        let shadowed = matches!(
            v,
            Language::TraditionalChinese | Language::Russian | Language::Korean | Language::Thai
        );
        if !shadowed {
            assert_eq!(Language::from_str(v.native_name()).ok(), Some(v));
        }
    }
}

#[test]
fn shared_native_name_goes_to_the_first_bearer() {
    let parsed = |v: Language| Language::from_str(v.native_name()).ok();
    assert_eq!(parsed(Language::TraditionalChinese), Some(Language::SimplifiedChinese));
    assert_eq!(parsed(Language::Russian), Some(Language::Arabic));
    assert_eq!(parsed(Language::Korean), Some(Language::Japanese));
    assert_eq!(parsed(Language::Thai), Some(Language::Japanese));
    assert_eq!(Language::from_str("????????????").ok(), Some(Language::SimplifiedChinese));
    assert_eq!(Language::from_str("??????????????").ok(), Some(Language::Arabic));
    assert_eq!(Language::from_str("?????????").ok(), Some(Language::Japanese));
}

#[test]
fn native_name_of_the_wildcard_parses() {
    assert_eq!(Language::from_str("All").ok(), Some(Language::All));
    assert_eq!(Language::from_str("all").ok(), Some(Language::All));
}

#[test]
fn greek_short_code_keeps_its_space() {
    assert_eq!(Language::Greek.language_code(), "el el");
    assert_eq!(Language::from_str("el el").ok(), Some(Language::Greek));
    assert!(Language::from_str("el").is_err());
    assert!(Language::from_str("elel").is_err());
}

#[test]
fn unlisted_token_is_refused() {
    let r: Result<Language, LangParseError> = Language::from_str("meow talk");
    assert!(r.is_err());
    assert!("meow talk".parse::<Language>().is_err());
}

#[test]
fn matching_is_exact() {
    assert_eq!(Language::from_str("english").ok(), Some(Language::English));
    assert!(Language::from_str("ENGLISH").is_err());
    assert!(Language::from_str("eNGLISH").is_err());
    assert!(Language::from_str("Arabic").is_err());
    assert!(Language::from_str("EN").is_err());
    assert!(Language::from_str("dansk").is_err());
    assert!(Language::from_str(" english").is_err());
    assert!(Language::from_str("english ").is_err());
    assert!(Language::from_str("englis").is_err());
    assert!(Language::from_str("englishh").is_err());
    assert!(Language::from_str("").is_err());
    assert!(Language::from_str("zh-cn").is_err());
    assert!(Language::from_str("fl").is_err());
}

#[test]
fn capitalised_english_is_the_native_name() {
    assert_eq!(Language::English.native_name(), "English");
    assert_eq!(Language::from_str("English").ok(), Some(Language::English));
}

#[test]
fn every_accepted_text_is_a_name_of_the_result() {
    let inputs = [
        "all", "All", "latam", "es-419", "es", "Espa??ol-Latinoam??rica", "koreana", "ko", "vn",
        "Ti???ng Vi???t", "pt", "pt-BR", "zh-TW", "tchinese", "korean", "vi", "", "?",
    ];
    for s in inputs.iter() {
        match Language::from_str(s) {
            Ok(v) => assert!(v.as_str() == *s || v.native_name() == *s || v.language_code() == *s),
            Err(_) => {
                for &(_, wire, short, native) in CATALOG.iter() {
                    assert!(wire != *s && short != *s && native != *s);
                }
            }
        }
    }
}

#[test]
fn lookup_consults_one_projection_only() {
    assert_eq!(Language::lookup(Projection::WireForm, "english"), Some(Language::English));
    assert_eq!(Language::lookup(Projection::WireForm, "English"), None);
    assert_eq!(Language::lookup(Projection::WireForm, "en"), None);
    assert_eq!(Language::lookup(Projection::NativeName, "English"), Some(Language::English));
    assert_eq!(Language::lookup(Projection::NativeName, "english"), None);
    assert_eq!(Language::lookup(Projection::ShortCode, "en"), Some(Language::English));
    assert_eq!(Language::lookup(Projection::ShortCode, "english"), None);
    assert_eq!(Language::lookup(Projection::NativeName, "?????????"), Some(Language::Japanese));
    assert_eq!(Language::lookup(Projection::ShortCode, "vn"), Some(Language::Vietnamese));
    assert_eq!(Language::lookup(Projection::ShortCode, "meow talk"), None);
}

#[test]
fn text_of_a_language_is_its_wire_form() {
    for &(v, wire, _, _) in CATALOG.iter() {
        assert_eq!(v.to_text(), wire);
    }
    assert_eq!(Language::Korean.to_text(), "koreana");
    assert_eq!(Language::SpanishLatAm.to_text(), "latam");
}

#[test]
fn error_text_is_fixed() {
    assert_eq!(
        LangParseError.to_text(),
        "Tried to a parse an unlisted language. Please report! Valve probably added in new languages since I last updated."
    );
    assert_eq!(LangParseError.to_text(), PARSE_ERROR_MESSAGE);
}

#[test]
fn languages_are_ordered_as_the_catalog_lists_them() {
    for i in 0..LANGUAGE_COUNT {
        for j in 0..LANGUAGE_COUNT {
            let a = Language::from_ordinal(i).unwrap();
            let b = Language::from_ordinal(j).unwrap();
            assert_eq!(a < b, i < j);
            assert_eq!(a == b, i == j);
            assert_eq!(a.cmp(&b), i.cmp(&j));
            assert_eq!(a.partial_cmp(&b), Some(i.cmp(&j)));
        }
    }
}

#[test]
fn languages_hash_by_identity() {
    let set: HashSet<Language> = CATALOG.iter().map(|e| e.0).collect();
    assert_eq!(set.len(), LANGUAGE_COUNT);
    assert!(set.contains(&Language::Thai));
}

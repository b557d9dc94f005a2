//! Locale-aware text lookup.
//!
//! A language map is a list of `(language key, text)` pairs, e.g.
//! `("de_CH", "Schalter")`. [`text_from_language_map`] resolves a requested
//! locale tag against such a map with a fixed fallback cascade.

use vstd::prelude::*;
use vstd::string::StrSliceExecFns;
use vstd::string::StringExecFns;

verus! {

/// The characters before the first `_` separator, `None` if there is none.
pub open spec fn prefix_before_sep(s: Seq<char>) -> Option<Seq<char>>
    decreases s.len(),
{
    if s.len() == 0 {
        None
    } else if s[0] == '_' {
        Some(Seq::empty())
    } else {
        match prefix_before_sep(s.drop_first()) {
            Some(p) => Some(seq![s[0]] + p),
            None => None,
        }
    }
}

/// The base language of a locale tag: the part before the first `_`
/// separator, or `en` when the tag has no separator.
pub open spec fn base_language(lang: Seq<char>) -> Seq<char> {
    match prefix_before_sep(lang) {
        Some(p) => p,
        None => "en"@,
    }
}

/// `s` begins with the characters of `pre`.
pub open spec fn seq_starts_with(s: Seq<char>, pre: Seq<char>) -> bool {
    s.len() >= pre.len() && s.subrange(0, pre.len() as int) == pre
}

/// Index of the first entry whose key is exactly `key`.
pub open spec fn first_exact(es: Seq<(String, String)>, key: Seq<char>) -> Option<int>
    decreases es.len(),
{
    if es.len() == 0 {
        None
    } else if es[0].0@ == key {
        Some(0int)
    } else {
        match first_exact(es.drop_first(), key) {
            Some(i) => Some(i + 1),
            None => None,
        }
    }
}

/// Index of the first entry whose key starts with `pre`.
pub open spec fn first_with_prefix(es: Seq<(String, String)>, pre: Seq<char>) -> Option<int>
    decreases es.len(),
{
    if es.len() == 0 {
        None
    } else if seq_starts_with(es[0].0@, pre) {
        Some(0int)
    } else {
        match first_with_prefix(es.drop_first(), pre) {
            Some(i) => Some(i + 1),
            None => None,
        }
    }
}

/// The fallback cascade: exact key, base language, another country variant of
/// the base language, English, any first entry, in that order.
pub open spec fn spec_text_from_language_map(es: Seq<(String, String)>, lang: Seq<char>) -> Option<
    String,
> {
    let base = base_language(lang);
    if first_exact(es, lang) is Some {
        Some(es[first_exact(es, lang)->Some_0].1)
    } else if first_exact(es, base) is Some {
        Some(es[first_exact(es, base)->Some_0].1)
    } else if first_with_prefix(es, base + "_"@) is Some {
        Some(es[first_with_prefix(es, base + "_"@)->Some_0].1)
    } else if first_exact(es, "en"@) is Some {
        Some(es[first_exact(es, "en"@)->Some_0].1)
    } else if es.len() > 0 {
        Some(es[0].1)
    } else {
        None
    }
}

proof fn lemma_prefix_before_sep_found(s: Seq<char>, i: int)
    requires
        0 <= i < s.len(),
        s[i] == '_',
        forall|k: int| 0 <= k < i ==> s[k] != '_',
    ensures
        prefix_before_sep(s) == Some(s.subrange(0, i)),
    decreases i,
{
    if i == 0 {
        assert(s.subrange(0, 0) =~= Seq::empty());
    } else {
        lemma_prefix_before_sep_found(s.drop_first(), i - 1);
        assert(seq![s[0]] + s.drop_first().subrange(0, i - 1) =~= s.subrange(0, i));
    }
}

proof fn lemma_prefix_before_sep_none(s: Seq<char>)
    requires
        forall|k: int| 0 <= k < s.len() ==> s[k] != '_',
    ensures
        prefix_before_sep(s) == None::<Seq<char>>,
    decreases s.len(),
{
    if s.len() > 0 {
        lemma_prefix_before_sep_none(s.drop_first());
    }
}

proof fn lemma_first_exact_found(es: Seq<(String, String)>, key: Seq<char>, i: int)
    requires
        0 <= i < es.len(),
        es[i].0@ == key,
        forall|k: int| 0 <= k < i ==> es[k].0@ != key,
    ensures
        first_exact(es, key) == Some(i),
    decreases i,
{
    if i > 0 {
        lemma_first_exact_found(es.drop_first(), key, i - 1);
    }
}

proof fn lemma_first_exact_none(es: Seq<(String, String)>, key: Seq<char>)
    requires
        forall|k: int| 0 <= k < es.len() ==> es[k].0@ != key,
    ensures
        first_exact(es, key) == None::<int>,
    decreases es.len(),
{
    if es.len() > 0 {
        lemma_first_exact_none(es.drop_first(), key);
    }
}

proof fn lemma_first_with_prefix_found(es: Seq<(String, String)>, pre: Seq<char>, i: int)
    requires
        0 <= i < es.len(),
        seq_starts_with(es[i].0@, pre),
        forall|k: int| 0 <= k < i ==> !seq_starts_with(es[k].0@, pre),
    ensures
        first_with_prefix(es, pre) == Some(i),
    decreases i,
{
    if i > 0 {
        lemma_first_with_prefix_found(es.drop_first(), pre, i - 1);
    }
}

proof fn lemma_first_with_prefix_none(es: Seq<(String, String)>, pre: Seq<char>)
    requires
        forall|k: int| 0 <= k < es.len() ==> !seq_starts_with(es[k].0@, pre),
    ensures
        first_with_prefix(es, pre) == None::<int>,
    decreases es.len(),
{
    if es.len() > 0 {
        lemma_first_with_prefix_none(es.drop_first(), pre);
    }
}

/// A character allowed in an entity, device, driver or integration
/// identifier: ASCII letters, digits, `-` and `_`.
pub open spec fn is_id_char(c: char) -> bool {
    ('a' <= c && c <= 'z') || ('A' <= c && c <= 'Z') || ('0' <= c && c <= '9') || c == '-' || c
        == '_'
}

/// A character allowed in an icon identifier: the identifier characters and
/// additionally `\`, `.` and `:`.
pub open spec fn is_icon_id_char(c: char) -> bool {
    is_id_char(c) || c == '\\' || c == '.' || c == ':'
}

/// A well-formed identifier: nonempty, identifier characters only.
pub open spec fn spec_valid_id_chars(s: Seq<char>) -> bool {
    s.len() >= 1 && (forall|i: int| 0 <= i < s.len() ==> is_id_char(s[i]))
}

/// A well-formed icon identifier: nonempty, icon identifier characters only.
pub open spec fn spec_valid_icon_id(s: Seq<char>) -> bool {
    s.len() >= 1 && (forall|i: int| 0 <= i < s.len() ==> is_icon_id_char(s[i]))
}

/// Whether `s` is a well-formed entity, device, driver or integration
/// identifier: one or more ASCII letters, digits, `-` or `_`.
pub fn valid_id_chars(s: &str) -> (r: bool)
    ensures
        r == spec_valid_id_chars(s@),
{
    let n = s.unicode_len();
    if n == 0 {
        return false;
    }
    let mut i: usize = 0;
    while i < n
        invariant
            n == s@.len(),
            i <= n,
            forall|k: int| 0 <= k < i ==> is_id_char(s@[k]),
        decreases n - i,
    {
        let c = s.get_char(i);
        let ok = ('a' <= c && c <= 'z') || ('A' <= c && c <= 'Z') || ('0' <= c && c <= '9') || c
            == '-' || c == '_';
        if !ok {
            return false;
        }
        i += 1;
    }
    true
}

/// Whether `s` is a well-formed icon identifier: one or more ASCII letters,
/// digits, `-`, `_`, `\`, `.` or `:`.
pub fn valid_icon_id(s: &str) -> (r: bool)
    ensures
        r == spec_valid_icon_id(s@),
{
    let n = s.unicode_len();
    if n == 0 {
        return false;
    }
    let mut i: usize = 0;
    while i < n
        invariant
            n == s@.len(),
            i <= n,
            forall|k: int| 0 <= k < i ==> is_icon_id_char(s@[k]),
        decreases n - i,
    {
        let c = s.get_char(i);
        let ok = ('a' <= c && c <= 'z') || ('A' <= c && c <= 'Z') || ('0' <= c && c <= '9') || c
            == '-' || c == '_' || c == '\\' || c == '.' || c == ':';
        if !ok {
            return false;
        }
        i += 1;
    }
    true
}

/// Character equality of a string and a slice.
fn string_eq_str(a: &String, b: &str) -> (r: bool)
    ensures
        r == (a@ == b@),
{
    let bs = b.to_owned();
    *a == bs
}

/// Index of the first `_` in `s`, if any.
fn first_underscore(s: &str) -> (r: Option<usize>)
    ensures
        match r {
            Some(i) => i < s@.len() && s@[i as int] == '_' && (forall|k: int|
                0 <= k < i ==> s@[k] != '_'),
            None => forall|k: int| 0 <= k < s@.len() ==> s@[k] != '_',
        },
{
    let n = s.unicode_len();
    let mut i: usize = 0;
    while i < n
        invariant
            n == s@.len(),
            i <= n,
            forall|k: int| 0 <= k < i ==> s@[k] != '_',
        decreases n - i,
    {
        if s.get_char(i) == '_' {
            return Some(i);
        }
        i += 1;
    }
    None
}

/// `s` begins with the characters of `pre`.
fn str_starts_with(s: &String, pre: &String) -> (r: bool)
    ensures
        r == seq_starts_with(s@, pre@),
{
    let n = s.as_str().unicode_len();
    let p = pre.as_str().unicode_len();
    if n < p {
        return false;
    }
    let head = s.as_str().substring_char(0, p);
    let hs = head.to_owned();
    hs == *pre
}

/// Retrieve a language text from a language map.
///
/// The map holds `(language key, text)` entries; `lang` is the requested
/// locale tag. The cascade, first match wins:
///
/// 1. the exact requested tag (e.g. `de_CH`);
/// 2. the base language alone (e.g. `de`); a tag without a country suffix
///    falls back to base `en`;
/// 3. the first other country variant of the base language (e.g. `de_AT`);
/// 4. the English default with key `en`;
/// 5. the first entry of the map;
/// 6. `None` when the map is absent or empty.
pub fn text_from_language_map(map: Option<&Vec<(String, String)>>, lang: &str) -> (r: Option<
    String,
>)
    ensures
        r == (if map is Some {
            spec_text_from_language_map(map->Some_0@, lang@)
        } else {
            None::<String>
        }),
{
    match map {
        Some(es) => lookup_in_entries(es, lang),
        None => None,
    }
}

/// The fallback cascade over the entries themselves.
fn lookup_in_entries(es: &Vec<(String, String)>, lang: &str) -> (r: Option<String>)
    ensures
        r == spec_text_from_language_map(es@, lang@),
{
    let base: String = match first_underscore(lang) {
        Some(i) => {
            proof {
                lemma_prefix_before_sep_found(lang@, i as int);
            }
            let b = lang.substring_char(0, i);
            b.to_owned()
        },
        None => {
            proof {
                lemma_prefix_before_sep_none(lang@);
            }
            String::from_str("en")
        },
    };
    assert(base@ == base_language(lang@));

    // 1. exact match on the full requested tag
    let mut i: usize = 0;
    while i < es.len()
        invariant
            i <= es.len(),
            forall|k: int| 0 <= k < i ==> es@[k].0@ != lang@,
        decreases es.len() - i,
    {
        if string_eq_str(&es[i].0, lang) {
            proof {
                lemma_first_exact_found(es@, lang@, i as int);
            }
            return Some(es[i].1.clone());
        }
        i += 1;
    }
    proof {
        lemma_first_exact_none(es@, lang@);
    }

    // 2. base language alone
    let mut i: usize = 0;
    while i < es.len()
        invariant
            i <= es.len(),
            base@ == base_language(lang@),
            first_exact(es@, lang@) is None,
            forall|k: int| 0 <= k < i ==> es@[k].0@ != base@,
        decreases es.len() - i,
    {
        if es[i].0 == base {
            proof {
                lemma_first_exact_found(es@, base@, i as int);
            }
            return Some(es[i].1.clone());
        }
        i += 1;
    }
    proof {
        lemma_first_exact_none(es@, base@);
    }

    // 3. another country variant of the base language
    let variant_prefix = base.clone().concat("_");
    assert(variant_prefix@ == base_language(lang@) + "_"@);
    let mut i: usize = 0;
    while i < es.len()
        invariant
            i <= es.len(),
            variant_prefix@ == base_language(lang@) + "_"@,
            first_exact(es@, lang@) is None,
            first_exact(es@, base_language(lang@)) is None,
            forall|k: int| 0 <= k < i ==> !seq_starts_with(es@[k].0@, variant_prefix@),
        decreases es.len() - i,
    {
        if str_starts_with(&es[i].0, &variant_prefix) {
            proof {
                lemma_first_with_prefix_found(es@, variant_prefix@, i as int);
            }
            return Some(es[i].1.clone());
        }
        i += 1;
    }
    proof {
        lemma_first_with_prefix_none(es@, variant_prefix@);
    }

    // 4. the English default
    let mut i: usize = 0;
    while i < es.len()
        invariant
            i <= es.len(),
            first_exact(es@, lang@) is None,
            first_exact(es@, base_language(lang@)) is None,
            first_with_prefix(es@, base_language(lang@) + "_"@) is None,
            forall|k: int| 0 <= k < i ==> es@[k].0@ != "en"@,
        decreases es.len() - i,
    {
        if string_eq_str(&es[i].0, "en") {
            proof {
                lemma_first_exact_found(es@, "en"@, i as int);
            }
            return Some(es[i].1.clone());
        }
        i += 1;
    }
    proof {
        lemma_first_exact_none(es@, "en"@);
    }

    // 5. the first entry, if any
    if es.len() > 0 {
        return Some(es[0].1.clone());
    }

    // 6. nothing to fall back to
    None
}

} // verus!

//! Locale decisions that do not need the translation bundles.

use vstd::prelude::*;

verus! {

/// Whether `c` ends the language part of a POSIX locale name
/// (`language[_territory][.codeset][@modifier]`).
pub open spec fn is_locale_separator(c: char) -> bool {
    c == '.' || c == '@'
}

/// Number of characters before the first `.` or `@` of a locale name.
pub open spec fn locale_base_len(s: Seq<char>) -> nat
    decreases s.len(),
{
    if s.len() == 0 || is_locale_separator(s[0]) {
        0
    } else {
        1 + locale_base_len(s.skip(1))
    }
}

/// Whether a locale value names the `C` or `POSIX` locale, whatever codeset
/// or modifier follows.
pub open spec fn names_c_locale(s: Seq<char>) -> bool {
    let base = s.take(locale_base_len(s) as int);
    base == seq!['C'] || base == seq!['P', 'O', 'S', 'I', 'X']
}

proof fn lemma_locale_base_len(s: Seq<char>, i: int)
    requires
        0 <= i <= s.len(),
        forall|j: int| 0 <= j < i ==> !is_locale_separator(#[trigger] s[j]),
    ensures
        i == s.len() || is_locale_separator(s[i]) ==> locale_base_len(s) == i,
        locale_base_len(s) >= i,
        locale_base_len(s) <= s.len(),
    decreases i,
{
    if i > 0 {
        lemma_locale_base_len(s.skip(1), i - 1);
    } else {
        lemma_locale_base_len_bounded(s);
    }
}

proof fn lemma_locale_base_len_bounded(s: Seq<char>)
    ensures
        locale_base_len(s) <= s.len(),
    decreases s.len(),
{
    if s.len() > 0 && !is_locale_separator(s[0]) {
        lemma_locale_base_len_bounded(s.skip(1));
    }
}

/// Whether a locale value is `C` or `POSIX`, with or without a codeset or
/// modifier (`C.UTF-8`, `POSIX@variant`). Such locales deliberately ask for
/// untranslated messages and are not language tags.
pub fn is_c_locale(value: &str) -> (r: bool)
    ensures
        r == names_c_locale(value@),
{
    let len = value.unicode_len();
    let mut i: usize = 0;
    while i < len
        invariant
            i <= len,
            len == value@.len(),
            forall|j: int| 0 <= j < i ==> !is_locale_separator(#[trigger] value@[j]),
        ensures
            i <= len,
            forall|j: int| 0 <= j < i ==> !is_locale_separator(#[trigger] value@[j]),
            i < len ==> is_locale_separator(value@[i as int]),
        decreases len - i,
    {
        let c = value.get_char(i);
        if c == '.' || c == '@' {
            break;
        }
        i = i + 1;
    }
    proof {
        lemma_locale_base_len(value@, i as int);
    }
    let ghost base = value@.take(i as int);
    if i == 1 {
        let c = value.get_char(0);
        proof {
            assert(base =~= seq![c]);
            assert(base == seq!['C'] ==> base[0] == 'C');
            assert(seq!['P', 'O', 'S', 'I', 'X'].len() == 5);
            assert(c == 'C' ==> base =~= seq!['C']);
        }
        c == 'C'
    } else if i == 5 {
        let c0 = value.get_char(0);
        let c1 = value.get_char(1);
        let c2 = value.get_char(2);
        let c3 = value.get_char(3);
        let c4 = value.get_char(4);
        proof {
            assert(base =~= seq![c0, c1, c2, c3, c4]);
            assert(base == seq!['P', 'O', 'S', 'I', 'X'] ==> base[0] == 'P' && base[1] == 'O' && base[2] == 'S' && base[3] == 'I' && base[4] == 'X');
            assert(seq!['C'].len() == 1);
            assert(c0 == 'P' && c1 == 'O' && c2 == 'S' && c3 == 'I' && c4 == 'X' ==> base =~= seq!['P', 'O', 'S', 'I', 'X']);
        }
        c0 == 'P' && c1 == 'O' && c2 == 'S' && c3 == 'I' && c4 == 'X'
    } else {
        proof {
            assert(base.len() == i);
            assert(seq!['C'].len() == 1);
            assert(seq!['P', 'O', 'S', 'I', 'X'].len() == 5);
        }
        false
    }
}

/// Whether the desktop asks for the `C` locale: the first of `LC_ALL`,
/// `LC_MESSAGES` and `LANG` that is set and not empty decides.
pub open spec fn first_set(values: Seq<Option<Seq<char>>>) -> Option<Seq<char>>
    decreases values.len(),
{
    if values.len() == 0 {
        None
    } else {
        match values[0] {
            Some(v) => if v.len() > 0 { Some(v) } else { first_set(values.skip(1)) },
            None => first_set(values.skip(1)),
        }
    }
}

/// Whether the first set, non-empty value of the locale variables (in
/// the order `LC_ALL`, `LC_MESSAGES`, `LANG`) names the `C` locale.
pub fn requests_c_locale(values: &Vec<Option<String>>) -> (r: bool)
    ensures
        r == (first_set(values@.map_values(|o: Option<String>| crate::text::opt_view(o))) matches Some(v) && names_c_locale(v)),
{
    let ghost views = values@.map_values(|o: Option<String>| crate::text::opt_view(o));
    let mut i: usize = 0;
    assert(views.skip(0) =~= views);
    while i < values.len()
        invariant
            i <= values@.len(),
            views == values@.map_values(|o: Option<String>| crate::text::opt_view(o)),
            first_set(views) == first_set(views.skip(i as int)),
        decreases values@.len() - i,
    {
        assert(views.skip(i as int)[0] == crate::text::opt_view(values@[i as int]));
        assert(views.skip(i as int).skip(1) =~= views.skip(i + 1));
        match &values[i] {
            Some(v) => {
                if v.as_str().unicode_len() > 0 {
                    return is_c_locale(v.as_str());
                }
            },
            None => {},
        }
        i = i + 1;
    }
    assert(views.skip(i as int) =~= Seq::<Option<Seq<char>>>::empty());
    false
}

} // verus!

use vstd::prelude::*;

verus! {

/// The display language used for user-facing text.
#[derive(Clone, Copy, Debug, PartialEq, Eq, Structural, Hash)]
pub enum Locale {
    PtBR,
    En,
}

/// A character equal to `lower` when letter case is ignored.
pub open spec fn same_letter(c: char, lower: char, upper: char) -> bool {
    c == lower || c == upper
}

/// The locale that a locale hint selects: Portuguese when the hint starts
/// with "pt" in any letter case, English otherwise.
pub open spec fn locale_of(s: Seq<char>) -> Locale {
    if s.len() >= 2 && same_letter(s[0], 'p', 'P') && same_letter(s[1], 't', 'T') {
        Locale::PtBR
    } else {
        Locale::En
    }
}

impl Locale {
    /// Reads a locale hint such as `pt_BR.UTF-8` or `en_US`.
    pub fn from_str(locale_str: &str) -> (r: Locale)
        ensures
            r == locale_of(locale_str@),
    {
        let n = locale_str.unicode_len();
        if n < 2 {
            return Locale::En;
        }
        let c0 = locale_str.get_char(0);
        let c1 = locale_str.get_char(1);
        if (c0 == 'p' || c0 == 'P') && (c1 == 't' || c1 == 'T') {
            Locale::PtBR
        } else {
            Locale::En
        }
    }
}

/// The locale that an ordered list of hints selects: the first hint that is
/// present and not empty decides; with none, English.
pub open spec fn locale_from_hints(hints: Seq<Option<String>>) -> Locale
    decreases hints.len(),
{
    if hints.len() == 0 {
        Locale::En
    } else if hints[0] is Some && hints[0]->0@.len() > 0 {
        locale_of(hints[0]->0@)
    } else {
        locale_from_hints(hints.drop_first())
    }
}

/// Resolves the locale from the environment's hints, in order of priority
/// (general language, override-all, messages-only, then platform fallbacks).
pub fn get_system_locale(hints: &Vec<Option<String>>) -> (r: Locale)
    ensures
        r == locale_from_hints(hints@),
{
    let n = hints.len();
    let mut i: usize = 0;
    assert(hints@.subrange(0, n as int) =~= hints@);
    while i < n
        invariant
            n == hints@.len(),
            i <= n,
            locale_from_hints(hints@) == locale_from_hints(hints@.subrange(i as int, n as int)),
        decreases n - i,
    {
        assert(hints@.subrange(i as int, n as int).drop_first() =~= hints@.subrange(
            i as int + 1,
            n as int,
        ));
        match &hints[i] {
            Some(s) => {
                if s.as_str().unicode_len() > 0 {
                    return Locale::from_str(s.as_str());
                }
            },
            None => {},
        }
        i = i + 1;
    }
    assert(hints@.subrange(i as int, n as int).len() == 0);
    Locale::En
}

} // verus!

use vstd::prelude::*;

use crate::translations::I18n;

verus! {

/// The characters of Unicode's White_Space property, which `str::trim` removes.
pub open spec fn is_white_space(c: char) -> bool {
    ('\u{9}' <= c && c <= '\u{d}') || c == ' ' || c == '\u{85}' || c == '\u{a0}' || c == '\u{1680}'
        || ('\u{2000}' <= c && c <= '\u{200a}') || c == '\u{2028}' || c == '\u{2029}' || c
        == '\u{202f}' || c == '\u{205f}' || c == '\u{3000}'
}

/// Content that is empty once trimmed: every character is white space.
pub open spec fn blank(s: Seq<char>) -> bool {
    forall|i: int| 0 <= i < s.len() ==> is_white_space(s[i])
}

/// The name of a note file: the localized word for "note", a dash, the
/// timestamp, and the `.md` extension.
pub open spec fn note_name(prefix: Seq<char>, timestamp: Seq<char>) -> Seq<char> {
    prefix + "-"@ + timestamp + ".md"@
}

fn white_space(c: char) -> (r: bool)
    ensures
        r == is_white_space(c),
{
    ('\u{9}' <= c && c <= '\u{d}') || c == ' ' || c == '\u{85}' || c == '\u{a0}' || c == '\u{1680}'
        || ('\u{2000}' <= c && c <= '\u{200a}') || c == '\u{2028}' || c == '\u{2029}' || c
        == '\u{202f}' || c == '\u{205f}' || c == '\u{3000}'
}

/// Whether `content` holds nothing but white space. Such content is not saved.
pub fn is_blank(content: &str) -> (r: bool)
    ensures
        r == blank(content@),
{
    let n = content.unicode_len();
    let mut i: usize = 0;
    while i < n
        invariant
            n == content@.len(),
            i <= n,
            forall|j: int| 0 <= j < i ==> is_white_space(content@[j]),
        decreases n - i,
    {
        if !white_space(content.get_char(i)) {
            return false;
        }
        i = i + 1;
    }
    true
}

/// The file name for a note written under `prefix` at `timestamp`.
pub fn note_file_name(prefix: &str, timestamp: &str) -> (r: String)
    ensures
        r@ == note_name(prefix@, timestamp@),
{
    let mut name = String::from_str(prefix);
    name.append("-");
    name.append(timestamp);
    name.append(".md");
    name
}

/// Decides what saving `content` at local time `timestamp` (formatted
/// `YYYY-MM-DD-HH-MM-SS`) writes: nothing for blank content, else a file
/// named with the localized word for "note" and the timestamp.
pub fn save_note(i18n: &I18n, content: &str, timestamp: &str) -> (r: Option<String>)
    ensures
        r is None <==> blank(content@),
        r matches Some(name) ==> name@ == note_name(i18n.text("file.note_prefix"@), timestamp@),
{
    if is_blank(content) {
        return None;
    }
    let prefix = i18n.t("file.note_prefix");
    Some(note_file_name(prefix.as_str(), timestamp))
}

} // verus!

//! Text helpers shared by the feed synthesizer: file extensions, joining,
//! concatenation and the fixed MIME tables.

use vstd::prelude::*;
use vstd::string::*;

verus! {

/// Position of the last `.` in `s`, or `-1` when `s` holds none.
pub open spec fn last_dot(s: Seq<char>) -> int
    decreases s.len(),
{
    if s.len() == 0 {
        -1
    } else if s.last() == '.' {
        s.len() - 1
    } else {
        last_dot(s.drop_last())
    }
}

/// The extension of a path: everything after its last `.`; the whole path
/// when it holds no `.`.
pub open spec fn extension_of(s: Seq<char>) -> Seq<char> {
    s.subrange(last_dot(s) + 1, s.len() as int)
}

/// `last_dot` is the largest index that holds a `.`, and `-1` only when no
/// index does.
pub proof fn lemma_last_dot(s: Seq<char>)
    ensures
        -1 <= last_dot(s) < s.len(),
        last_dot(s) >= 0 ==> s[last_dot(s)] == '.',
        forall|i: int| last_dot(s) < i < s.len() ==> s[i] != '.',
    decreases s.len(),
{
    if s.len() > 0 && s.last() != '.' {
        let head = s.drop_last();
        lemma_last_dot(head);
        assert forall|i: int| last_dot(s) < i < s.len() implies s[i] != '.' by {
            if i < head.len() {
                assert(head[i] == s[i]);
            }
        }
        if last_dot(s) >= 0 {
            assert(head[last_dot(head)] == s[last_dot(head)]);
        }
    }
}

/// The extension holds no `.`, is a suffix of the path, and is preceded by a
/// `.` unless it is the whole path.
pub proof fn law_extension(s: Seq<char>)
    ensures
        extension_of(s).len() <= s.len(),
        extension_of(s) == s.subrange(s.len() - extension_of(s).len(), s.len() as int),
        forall|i: int| 0 <= i < extension_of(s).len() ==> extension_of(s)[i] != '.',
        extension_of(s).len() < s.len() ==> s[s.len() - extension_of(s).len() - 1] == '.',
{
    lemma_last_dot(s);
}

/// Returns the extension of `path`.
pub fn file_extension(path: &str) -> (ext: String)
    ensures
        ext@ == extension_of(path@),
{
    let n: usize = path.unicode_len();
    let mut start: usize = n;
    proof {
        assert(path@.subrange(0, n as int) =~= path@);
    }
    while start > 0 && path.get_char(start - 1) != '.'
        invariant
            n == path@.len(),
            start <= n,
            last_dot(path@) == last_dot(path@.subrange(0, start as int)),
        decreases start,
    {
        proof {
            let head = path@.subrange(0, start as int);
            assert(head.last() == path@[start - 1]);
            assert(head.drop_last() =~= path@.subrange(0, start - 1));
        }
        start = start - 1;
    }
    proof {
        let head = path@.subrange(0, start as int);
        if start > 0 {
            assert(head.last() == path@[start - 1]);
        }
        assert(last_dot(head) == start - 1);
    }
    String::from_str(path.substring_char(start, n))
}

/// The character sequences of a list of strings.
pub open spec fn texts(words: Seq<String>) -> Seq<Seq<char>> {
    words.map_values(|w: String| w@)
}

/// `words` written one after another with `sep` between each two.
pub open spec fn joined(words: Seq<Seq<char>>, sep: Seq<char>) -> Seq<char>
    decreases words.len(),
{
    if words.len() == 0 {
        Seq::empty()
    } else if words.len() == 1 {
        words[0]
    } else {
        joined(words.drop_last(), sep) + sep + words.last()
    }
}

/// Joins `words` with `sep` between each two.
pub fn join(words: &Vec<String>, sep: &str) -> (text: String)
    ensures
        text@ == joined(texts(words@), sep@),
{
    let mut text = String::new();
    let mut i: usize = 0;
    while i < words.len()
        invariant
            i <= words.len(),
            text@ == joined(texts(words@).take(i as int), sep@),
        decreases words.len() - i,
    {
        proof {
            let all = texts(words@);
            assert(all.take(i + 1).drop_last() =~= all.take(i as int));
            assert(all.take(i + 1).last() == words[i as int]@);
            if i == 0 {
                assert(text@ + words[0]@ =~= words[0]@);
            }
        }
        if i > 0 {
            text.append(sep);
        }
        text.append(words[i].as_str());
        i = i + 1;
    }
    proof {
        assert(texts(words@).take(i as int) =~= texts(words@));
    }
    text
}

/// Returns `left` followed by `right`.
pub fn followed_by(left: &str, right: &str) -> (text: String)
    ensures
        text@ == left@ + right@,
{
    let mut text = String::from_str(left);
    text.append(right);
    text
}

/// Tells whether two strings hold the same characters.
pub fn same_text(left: &str, right: &str) -> (same: bool)
    ensures
        same == (left@ == right@),
{
    String::from_str(left) == String::from_str(right)
}

/// Tells whether `words` holds `word`.
pub fn contains_text(words: &Vec<String>, word: &str) -> (found: bool)
    ensures
        found == texts(words@).contains(word@),
{
    let mut i: usize = 0;
    while i < words.len()
        invariant
            i <= words.len(),
            forall|j: int| 0 <= j < i ==> texts(words@)[j] != word@,
        decreases words.len() - i,
    {
        if same_text(words[i].as_str(), word) {
            proof {
                assert(texts(words@)[i as int] == word@);
            }
            return true;
        }
        i = i + 1;
    }
    false
}

/// The lowercase form of a string as `str::to_lowercase` gives it.
pub uninterp spec fn lowercase_of(s: Seq<char>) -> Seq<char>;

/// Calls `str::to_lowercase`. Trusted: the result is the lowercase
/// equivalent of the argument, which depends on the characters alone.
#[verifier::external_body]
pub(crate) fn lowercased(s: &str) -> (lower: String)
    ensures
        lower@ == lowercase_of(s@),
{
    s.to_lowercase()
}

/// The MIME type published for an audio format tag; empty for a tag that the
/// table does not hold.
pub open spec fn audio_mime_of(tag: Seq<char>) -> Seq<char> {
    if tag == "mp3"@ {
        "audio/mpeg"@
    } else if tag == "m4a"@ {
        "audio/mp4"@
    } else if tag == "flac"@ {
        "audio/flac"@
    } else {
        ""@
    }
}

/// Looks `tag` up in the audio MIME table.
pub fn audio_mime(tag: &str) -> (mime: String)
    ensures
        mime@ == audio_mime_of(tag@),
{
    if same_text(tag, "mp3") {
        String::from_str("audio/mpeg")
    } else if same_text(tag, "m4a") {
        String::from_str("audio/mp4")
    } else if same_text(tag, "flac") {
        String::from_str("audio/flac")
    } else {
        String::from_str("")
    }
}

/// The MIME type of a transcript by its extension; `None` for an extension
/// that is not supported.
pub open spec fn transcript_mime_of(ext: Seq<char>) -> Option<Seq<char>> {
    if ext == "vtt"@ {
        Some("text/vtt"@)
    } else if ext == "srt"@ {
        Some("application/srt"@)
    } else if ext == "txt"@ {
        Some("text/plain"@)
    } else {
        None
    }
}

/// Looks `ext` up in the transcript MIME table.
pub fn transcript_mime(ext: &str) -> (mime: Option<String>)
    ensures
        mime is Some <==> transcript_mime_of(ext@) is Some,
        mime is Some ==> mime->0@ == transcript_mime_of(ext@)->0,
{
    if same_text(ext, "vtt") {
        Some(String::from_str("text/vtt"))
    } else if same_text(ext, "srt") {
        Some(String::from_str("application/srt"))
    } else if same_text(ext, "txt") {
        Some(String::from_str("text/plain"))
    } else {
        None
    }
}

/// The text of a decimal digit; that of nine for a larger number.
pub open spec fn digit_text_of(digit: nat) -> Seq<char> {
    if digit == 0 {
        "0"@
    } else if digit == 1 {
        "1"@
    } else if digit == 2 {
        "2"@
    } else if digit == 3 {
        "3"@
    } else if digit == 4 {
        "4"@
    } else if digit == 5 {
        "5"@
    } else if digit == 6 {
        "6"@
    } else if digit == 7 {
        "7"@
    } else if digit == 8 {
        "8"@
    } else {
        "9"@
    }
}

/// The decimal text of a number, without leading zeros.
pub open spec fn decimal_of(n: nat) -> Seq<char>
    decreases n,
{
    if n < 10 {
        digit_text_of(n)
    } else {
        decimal_of(n / 10) + digit_text_of(n % 10)
    }
}

/// Returns the text of a decimal digit; that of nine for a larger number.
pub fn digit_text(digit: u32) -> (text: &'static str)
    ensures
        text@ == digit_text_of(digit as nat),
{
    if digit == 0 {
        "0"
    } else if digit == 1 {
        "1"
    } else if digit == 2 {
        "2"
    } else if digit == 3 {
        "3"
    } else if digit == 4 {
        "4"
    } else if digit == 5 {
        "5"
    } else if digit == 6 {
        "6"
    } else if digit == 7 {
        "7"
    } else if digit == 8 {
        "8"
    } else {
        "9"
    }
}

/// Returns the decimal text of a number.
pub fn decimal(n: u32) -> (text: String)
    ensures
        text@ == decimal_of(n as nat),
{
    let mut text = String::from_str(digit_text(n % 10));
    let mut rest: u32 = n / 10;
    while rest > 0
        invariant
            rest > 0 ==> decimal_of(n as nat) == decimal_of(rest as nat) + text@,
            rest == 0 ==> decimal_of(n as nat) == text@,
        decreases rest,
    {
        let ghost tail = text@;
        text = followed_by(digit_text(rest % 10), text.as_str());
        proof {
            if rest >= 10 {
                assert(decimal_of((rest / 10) as nat) + (digit_text_of((rest % 10) as nat) + tail)
                    =~= decimal_of(rest as nat) + tail);
            }
        }
        rest = rest / 10;
    }
    text
}

} // verus!

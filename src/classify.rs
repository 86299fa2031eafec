//! The content classifier: whether declared `type` / `language` metadata
//! names the supported scripting language.

use vstd::prelude::*;

verus! {

/// The HTML space characters: space, tab, line feed, form feed, carriage return.
pub open spec fn is_html_space(c: char) -> bool {
    c == ' ' || c == '\t' || c == '\n' || c == '\x0C' || c == '\r'
}

/// `s` without its leading HTML space characters.
pub open spec fn trim_start_spec(s: Seq<char>) -> Seq<char>
    decreases s.len(),
{
    if s.len() > 0 && is_html_space(s[0]) {
        trim_start_spec(s.drop_first())
    } else {
        s
    }
}

/// `s` without its trailing HTML space characters.
pub open spec fn trim_end_spec(s: Seq<char>) -> Seq<char>
    decreases s.len(),
{
    if s.len() > 0 && is_html_space(s.last()) {
        trim_end_spec(s.drop_last())
    } else {
        s
    }
}

/// `s` with HTML space characters removed from both ends.
pub open spec fn trim_html_space(s: Seq<char>) -> Seq<char> {
    trim_end_spec(trim_start_spec(s))
}

/// The MIME strings, legacy and standard, that name the scripting language.
pub open spec fn is_script_mime(s: Seq<char>) -> bool {
    s == "application/ecmascript"@
    || s == "application/javascript"@
    || s == "application/x-ecmascript"@
    || s == "application/x-javascript"@
    || s == "text/ecmascript"@
    || s == "text/javascript"@
    || s == "text/javascript1.0"@
    || s == "text/javascript1.1"@
    || s == "text/javascript1.2"@
    || s == "text/javascript1.3"@
    || s == "text/javascript1.4"@
    || s == "text/javascript1.5"@
    || s == "text/jscript"@
    || s == "text/livescript"@
    || s == "text/x-ecmascript"@
    || s == "text/x-javascript"@
}

/// Whether a `type` / `language` pair declares executable script.
/// A `type` that is empty once trimmed, an empty `language`, or no
/// metadata at all mean the default scripting language.
pub open spec fn classify_spec(declared_type: Option<Seq<char>>, declared_language: Option<Seq<char>>) -> bool {
    match declared_type {
        Some(t) => {
            let trimmed = trim_html_space(t);
            trimmed.len() == 0 || is_script_mime(trimmed)
        },
        None => match declared_language {
            Some(l) => l.len() == 0 || is_script_mime("text/"@ + l),
            None => true,
        },
    }
}

fn is_html_space_char(c: char) -> (r: bool)
    ensures
        r == is_html_space(c),
{
    c == ' ' || c == '\t' || c == '\n' || c == '\x0C' || c == '\r'
}

/// Removes HTML space characters from both ends of `s`.
pub fn trim_html_space_str(s: &str) -> (r: &str)
    ensures
        r@ == trim_html_space(s@),
{
    let len = s.unicode_len();
    let mut i: usize = 0;
    assert(s@.subrange(0, len as int) =~= s@);
    while i < len && is_html_space_char(s.get_char(i))
        invariant
            i <= len,
            len == s@.len(),
            trim_start_spec(s@) == trim_start_spec(s@.subrange(i as int, len as int)),
        decreases len - i,
    {
        assert(s@.subrange(i as int, len as int).drop_first() =~= s@.subrange(i + 1, len as int));
        i = i + 1;
    }
    let ghost rest = s@.subrange(i as int, len as int);
    assert(trim_start_spec(rest) == rest);
    let mut j: usize = len;
    while j > i && is_html_space_char(s.get_char(j - 1))
        invariant
            i <= j <= len,
            len == s@.len(),
            rest == s@.subrange(i as int, len as int),
            trim_end_spec(rest) == trim_end_spec(s@.subrange(i as int, j as int)),
        decreases j,
    {
        assert(s@.subrange(i as int, j as int).drop_last() =~= s@.subrange(i as int, j - 1));
        j = j - 1;
    }
    s.substring_char(i, j)
}

/// Whether `s` and `t` hold the same characters.
fn same_chars(s: &str, t: &str) -> (r: bool)
    ensures
        r == (s@ == t@),
{
    let n = s.unicode_len();
    if n != t.unicode_len() {
        return false;
    }
    let mut i: usize = 0;
    while i < n
        invariant
            i <= n,
            n == s@.len(),
            n == t@.len(),
            forall|k: int| 0 <= k < i ==> s@[k] == t@[k],
        decreases n - i,
    {
        if s.get_char(i) != t.get_char(i) {
            return false;
        }
        i = i + 1;
    }
    assert(s@ =~= t@);
    true
}

/// Membership in the fixed list of scripting MIME strings.
pub fn is_script_mime_str(s: &str) -> (r: bool)
    ensures
        r == is_script_mime(s@),
{
    same_chars(s, "application/ecmascript")
    || same_chars(s, "application/javascript")
    || same_chars(s, "application/x-ecmascript")
    || same_chars(s, "application/x-javascript")
    || same_chars(s, "text/ecmascript")
    || same_chars(s, "text/javascript")
    || same_chars(s, "text/javascript1.0")
    || same_chars(s, "text/javascript1.1")
    || same_chars(s, "text/javascript1.2")
    || same_chars(s, "text/javascript1.3")
    || same_chars(s, "text/javascript1.4")
    || same_chars(s, "text/javascript1.5")
    || same_chars(s, "text/jscript")
    || same_chars(s, "text/livescript")
    || same_chars(s, "text/x-ecmascript")
    || same_chars(s, "text/x-javascript")
}

/// Decides whether the declared `type` and `language` name the supported
/// scripting language. Total and free of side effects.
pub fn classify(declared_type: Option<&str>, declared_language: Option<&str>) -> (r: bool)
    ensures
        r == classify_spec(
            match declared_type { Some(t) => Some(t@), None => None },
            match declared_language { Some(l) => Some(l@), None => None },
        ),
{
    match declared_type {
        Some(t) => {
            let trimmed = trim_html_space_str(t);
            trimmed.unicode_len() == 0 || is_script_mime_str(trimmed)
        },
        None => match declared_language {
            Some(l) => {
                if l.unicode_len() == 0 {
                    true
                } else {
                    let mut mime = String::from_str("text/");
                    mime.append(l);
                    is_script_mime_str(mime.as_str())
                }
            },
            None => true,
        },
    }
}

/// A string that neither starts nor ends with an HTML space is its own trim.
proof fn lemma_trim_unpadded(s: Seq<char>)
    requires
        s.len() > 0,
        !is_html_space(s[0]),
        !is_html_space(s.last()),
    ensures
        trim_html_space(s) == s,
{
}

/// Classification answers on every input; with no metadata at all, or with
/// an empty `type` whatever the `language`, the content is script.
pub proof fn lemma_classify_defaults(declared_language: Option<Seq<char>>)
    ensures
        classify_spec(None, None),
        classify_spec(Some(Seq::empty()), declared_language),
{
}

/// Each scripting MIME string, given as the `type` with no `language`,
/// classifies as script.
pub proof fn lemma_script_mimes_classify(s: Seq<char>)
    requires
        is_script_mime(s),
    ensures
        classify_spec(Some(s), None),
{
    reveal_strlit("application/ecmascript");
    reveal_strlit("application/javascript");
    reveal_strlit("application/x-ecmascript");
    reveal_strlit("application/x-javascript");
    reveal_strlit("text/ecmascript");
    reveal_strlit("text/javascript");
    reveal_strlit("text/javascript1.0");
    reveal_strlit("text/javascript1.1");
    reveal_strlit("text/javascript1.2");
    reveal_strlit("text/javascript1.3");
    reveal_strlit("text/javascript1.4");
    reveal_strlit("text/javascript1.5");
    reveal_strlit("text/jscript");
    reveal_strlit("text/livescript");
    reveal_strlit("text/x-ecmascript");
    reveal_strlit("text/x-javascript");
    lemma_trim_unpadded(s);
}

/// A `type` outside the list, with no surrounding HTML space, does not
/// classify as script.
pub proof fn lemma_other_types_do_not_classify(s: Seq<char>)
    requires
        s.len() > 0,
        !is_html_space(s[0]),
        !is_html_space(s.last()),
        !is_script_mime(s),
    ensures
        !classify_spec(Some(s), None),
{
    lemma_trim_unpadded(s);
}

} // verus!

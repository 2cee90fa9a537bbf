//! Converting SVG markup to JSX: how attribute names and values, and text,
//! are written in JSX.

use vstd::prelude::*;
use crate::html_assets::{lowercase, to_lowercase};
use crate::text::{
    cat2, chars_of, find_chars, first_occurrence, join, owned, replace_all, split_chars, split_on, starts_with, str_eq,
    str_replace, str_starts_with, str_trim_start, string_of, trim_start_ws, unicode_whitespace, is_whitespace,
    vviews,
};

verus! {

/// An error of converting SVG to JSX.
#[derive(Debug, Clone)]
pub enum SvgrError {
    Parse(String),
    InvalidSvg,
    EmptyContent,
}

impl SvgrError {
    /// The message of the error.
    pub fn to_string(&self) -> (r: String)
        ensures
            r@ == match self {
                SvgrError::Parse(s) => "Failed to parse SVG: "@ + s@,
                SvgrError::InvalidSvg => "Invalid SVG content"@,
                SvgrError::EmptyContent => "Empty SVG content provided"@,
            },
    {
        match self {
            SvgrError::Parse(s) => cat2("Failed to parse SVG: ", s.as_str()),
            SvgrError::InvalidSvg => owned("Invalid SVG content"),
            SvgrError::EmptyContent => owned("Empty SVG content provided"),
        }
    }
}

/// The uppercase letters that start a new word of a kebab-case name: ASCII
/// `A`-`Z` and the Latin-1 letters `À`-`Ö`, `Ø`-`Þ`.
pub open spec fn is_kebab_upper(c: char) -> bool {
    ('A' <= c && c <= 'Z') || ('\u{C0}' <= c && c <= '\u{D6}') || ('\u{D8}' <= c && c <= '\u{DE}')
}

/// `s` in kebab case: each uppercase letter becomes `-` and its lowercase.
pub open spec fn kebab_of(s: Seq<char>) -> Seq<char>
    decreases s.len(),
{
    if s.len() == 0 {
        seq![]
    } else if is_kebab_upper(s.last()) {
        kebab_of(s.drop_last()) + seq!['-'] + lowercase(seq![s.last()])
    } else {
        kebab_of(s.drop_last()).push(s.last())
    }
}

/// `s` in kebab case.
pub fn kebab_case(s: &str) -> (r: String)
    ensures
        r@ == kebab_of(s@),
{
    let chars = chars_of(s);
    let mut out: Vec<char> = Vec::new();
    let mut i: usize = 0;
    while i < chars.len()
        invariant
            i <= chars.len(),
            chars@ == s@,
            out@ == kebab_of(chars@.take(i as int)),
        decreases chars.len() - i,
    {
        let c = chars[i];
        assert(chars@.take(i + 1).drop_last() == chars@.take(i as int));
        if ('A' <= c && c <= 'Z') || ('\u{C0}' <= c && c <= '\u{D6}') || ('\u{D8}' <= c && c <= '\u{DE}') {
            let mut one: Vec<char> = Vec::new();
            one.push(c);
            let low = to_lowercase(string_of(&one).as_str());
            let lc = chars_of(low.as_str());
            let ghost before = out@;
            out.push('-');
            let mut k: usize = 0;
            while k < lc.len()
                invariant
                    k <= lc.len(),
                    out@ == before.push('-') + lc@.take(k as int),
                decreases lc.len() - k,
            {
                out.push(lc[k]);
                assert(lc@.take(k + 1) == lc@.take(k as int).push(lc@[k as int]));
                k += 1;
            }
            assert(lc@.take(lc.len() as int) == lc@);
            assert(one@ == seq![c]);
            assert(out@ =~= before + seq!['-'] + lowercase(seq![c]));
        } else {
            out.push(c);
        }
        i += 1;
    }
    assert(chars@.take(chars.len() as int) == chars@);
    string_of(&out)
}

/// An `aria-` name as JSX writes it: the first `-`-separated part, `-`, and
/// the other parts run together in lowercase.
pub open spec fn aria_name(key: Seq<char>) -> Seq<char> {
    let parts = split_on(key, '-');
    parts[0] + "-"@ + lowercase(join(parts.drop_first(), ""@))
}

/// An `aria-` attribute name in the form JSX uses.
pub fn convert_aria_attribute(kebab_key: &str) -> (r: String)
    ensures
        r@ == aria_name(kebab_key@),
{
    let chars = chars_of(kebab_key);
    let parts = split_chars(&chars, '-');
    proof {
        crate::text::lemma_split_on_nonempty(kebab_key@, '-');
    }
    let mut rest: Vec<String> = Vec::new();
    let mut i: usize = 1;
    while i < parts.len()
        invariant
            1 <= i <= parts.len(),
            vviews(parts@) == split_on(kebab_key@, '-'),
            crate::text::views(rest@) == vviews(parts@).subrange(1, i as int),
        decreases parts.len() - i,
    {
        let ghost before = crate::text::views(rest@);
        rest.push(string_of(&parts[i]));
        assert(crate::text::views(rest@) =~= before.push(parts@[i as int]@));
        assert(vviews(parts@).subrange(1, i + 1) =~= vviews(parts@).subrange(1, i as int).push(parts@[i as int]@));
        i += 1;
    }
    assert(vviews(parts@).subrange(1, parts.len() as int) =~= vviews(parts@).drop_first());
    let joined = crate::text::join_strings(&rest, "");
    let lower = to_lowercase(joined.as_str());
    let mut r = string_of(&parts[0]);
    r.append("-");
    r.append(lower.as_str());
    r
}

/// Whether a character is one of the line breaks and tabs that JSX attribute
/// values have as spaces.
pub open spec fn is_break_space(c: char) -> bool {
    c == '\t' || c == '\r' || c == '\n' || c == '\u{85}' || c == '\u{2028}' || c == '\u{2029}'
}

/// `s` with each run of tabs and line breaks replaced by one space.
pub open spec fn spaces_replaced(s: Seq<char>) -> Seq<char>
    decreases s.len(),
{
    if s.len() == 0 {
        seq![]
    } else if is_break_space(s.last()) {
        if s.len() > 1 && is_break_space(s[s.len() - 2]) {
            spaces_replaced(s.drop_last())
        } else {
            spaces_replaced(s.drop_last()).push(' ')
        }
    } else {
        spaces_replaced(s.drop_last()).push(s.last())
    }
}

/// `s` with each run of tabs and line breaks replaced by one space.
pub fn replace_spaces(s: &str) -> (r: String)
    ensures
        r@ == spaces_replaced(s@),
{
    let chars = chars_of(s);
    let mut out: Vec<char> = Vec::new();
    let mut i: usize = 0;
    while i < chars.len()
        invariant
            i <= chars.len(),
            chars@ == s@,
            out@ == spaces_replaced(chars@.take(i as int)),
        decreases chars.len() - i,
    {
        let c = chars[i];
        let ghost t = chars@.take(i + 1);
        assert(t.drop_last() == chars@.take(i as int));
        assert(t.last() == c);
        let brk = c == '\t' || c == '\r' || c == '\n' || c == '\u{85}' || c == '\u{2028}' || c == '\u{2029}';
        if brk {
            let prev_brk = i > 0 && {
                let p = chars[i - 1];
                p == '\t' || p == '\r' || p == '\n' || p == '\u{85}' || p == '\u{2028}' || p == '\u{2029}'
            };
            assert(i > 0 ==> t[t.len() - 2] == chars@[i - 1]);
            if !prev_brk {
                out.push(' ');
            }
        } else {
            out.push(c);
        }
        i += 1;
    }
    assert(chars@.take(chars.len() as int) == chars@);
    string_of(&out)
}

/// Text with the XML entities `&lt;`, `&gt;`, `&amp;`, `&quot;` and
/// `&apos;` decoded, in that order.
pub open spec fn xml_decoded(s: Seq<char>) -> Seq<char> {
    replace_all(
        replace_all(replace_all(replace_all(replace_all(s, "&lt;"@, "<"@), "&gt;"@, ">"@), "&amp;"@, "&"@), "&quot;"@, "\""@),
        "&apos;"@,
        "'"@,
    )
}

/// Decodes the XML entities of a text.
pub fn decode_xml(s: &str) -> (r: String)
    ensures
        r@ == xml_decoded(s@),
{
    proof {
        reveal_strlit("&lt;");
        reveal_strlit("&gt;");
        reveal_strlit("&amp;");
        reveal_strlit("&quot;");
        reveal_strlit("&apos;");
        assert("&lt;"@.len() > 0 && "&gt;"@.len() > 0 && "&amp;"@.len() > 0);
        assert("&quot;"@.len() > 0 && "&apos;"@.len() > 0);
    }
    let a = str_replace(s, "&lt;", "<");
    let b = str_replace(a.as_str(), "&gt;", ">");
    let c = str_replace(b.as_str(), "&amp;", "&");
    let d = str_replace(c.as_str(), "&quot;", "\"");
    str_replace(d.as_str(), "&apos;", "'")
}

/// The value of a JSX attribute converted from SVG.
#[derive(Debug, Clone)]
pub enum JsxAttrValue {
    /// A string literal.
    Str(String),
    /// A number literal, by the text it is parsed from.
    Number(String),
}

/// Whether `r` is the JSX value of an SVG attribute.
pub open spec fn is_value_for(attr_name: Seq<char>, value: Seq<char>, numeric: bool, r: JsxAttrValue) -> bool {
    match r {
        JsxAttrValue::Str(s) => if attr_name == "style"@ {
            s@ == value
        } else {
            !numeric && s@ == spaces_replaced(value)
        },
        JsxAttrValue::Number(s) => attr_name != "style"@ && numeric && s@ == value,
    }
}

/// The JSX value of an SVG attribute: `style` stays a string, a numeric
/// value becomes a number, and any other value a string with its breaks
/// made spaces. `numeric` says whether `value` parses as a floating-point
/// number, which the caller finds out.
pub fn get_value(attr_name: &str, value: &str, numeric: bool) -> (r: JsxAttrValue)
    ensures
        is_value_for(attr_name@, value@, numeric, r),
{
    if str_eq(attr_name, "style") {
        return JsxAttrValue::Str(owned(value));
    }
    if numeric {
        return JsxAttrValue::Number(owned(value));
    }
    JsxAttrValue::Str(replace_spaces(value))
}

/// Whether a text is all whitespace and not empty.
pub open spec fn is_blank(s: Seq<char>) -> bool {
    s.len() > 0 && forall|i: int| 0 <= i < s.len() ==> unicode_whitespace(#[trigger] s[i])
}

/// The JSX text of an SVG text node: none for blank text, else the text with
/// its XML entities decoded.
pub fn text(value: &str) -> (r: Option<String>)
    ensures
        is_blank(value@) ==> r is None,
        !is_blank(value@) ==> r is Some && r.unwrap()@ == xml_decoded(value@),
{
    let chars = chars_of(value);
    let mut all_ws = chars.len() > 0;
    let mut i: usize = 0;
    while i < chars.len()
        invariant
            i <= chars.len(),
            chars@ == value@,
            all_ws == (chars@.len() > 0 && forall|k: int| 0 <= k < i ==> unicode_whitespace(#[trigger] chars@[k])),
        decreases chars.len() - i,
    {
        if !is_whitespace(chars[i]) {
            all_ws = false;
        }
        i += 1;
    }
    if all_ws {
        None
    } else {
        Some(decode_xml(value))
    }
}

/// The JSX name of an SVG attribute of an element with the given tag.
pub open spec fn jsx_key(attr_name: Seq<char>, tag_name: Seq<char>) -> Seq<char> {
    let l = lowercase(attr_name);
    if tag_name == "input"@ && l == "checked"@ {
        "defaultChecked"@
    } else if tag_name == "input"@ && l == "value"@ {
        "defaultValue"@
    } else if tag_name == "input"@ && l == "maxlength"@ {
        "maxLength"@
    } else if tag_name == "form"@ && l == "enctype"@ {
        "encType"@
    } else if l == "class"@ {
        "className"@
    } else if l == "for"@ {
        "htmlFor"@
    } else if l == "accept-charset"@ {
        "acceptCharset"@
    } else if l == "http-equiv"@ {
        "httpEquiv"@
    } else if starts_with(kebab_of(attr_name), "aria-"@) {
        aria_name(attr_name)
    } else {
        attr_name
    }
}

/// The JSX name of an SVG attribute of an element with the given tag:
/// React's names for form defaults and for `class`, `for`,
/// `accept-charset`, `http-equiv`; `aria-` attributes in their JSX form;
/// other names as they are.
pub fn get_key(attr_name: &str, tag_name: &str) -> (r: String)
    ensures
        r@ == jsx_key(attr_name@, tag_name@),
{
    let lower = to_lowercase(attr_name);
    let l = lower.as_str();
    proof {
        reveal_strlit("class");
        reveal_strlit("for");
        reveal_strlit("checked");
        reveal_strlit("value");
        reveal_strlit("maxlength");
        reveal_strlit("enctype");
        assert("class"@.len() == 5 && "checked"@.len() == 7 && "maxlength"@.len() == 9 && "enctype"@.len() == 7);
        assert("for"@.len() == 3 && "value"@.len() == 5);
        assert("class"@[0] == 'c' && "value"@[0] == 'v');
        assert("class"@ != "checked"@ && "class"@ != "value"@ && "class"@ != "maxlength"@ && "class"@ != "enctype"@);
        assert("for"@ != "checked"@ && "for"@ != "value"@ && "for"@ != "maxlength"@ && "for"@ != "enctype"@);
        reveal_strlit("accept-charset");
        reveal_strlit("http-equiv");
        assert("accept-charset"@.len() == 14 && "http-equiv"@.len() == 10);
        reveal_strlit("input");
        reveal_strlit("form");
        assert("input"@.len() == 5 && "form"@.len() == 4);
    }
    if str_eq(tag_name, "input") {
        if str_eq(l, "checked") {
            return owned("defaultChecked");
        } else if str_eq(l, "value") {
            return owned("defaultValue");
        } else if str_eq(l, "maxlength") {
            return owned("maxLength");
        }
    } else if str_eq(tag_name, "form") {
        if str_eq(l, "enctype") {
            return owned("encType");
        }
    }
    if str_eq(l, "class") {
        return owned("className");
    } else if str_eq(l, "for") {
        return owned("htmlFor");
    } else if str_eq(l, "accept-charset") {
        return owned("acceptCharset");
    } else if str_eq(l, "http-equiv") {
        return owned("httpEquiv");
    }
    let kebab = kebab_case(attr_name);
    if str_starts_with(kebab.as_str(), "aria-") {
        return convert_aria_attribute(attr_name);
    }
    owned(attr_name)
}

/// SVG text without a leading XML declaration (up to its `?>`) and then
/// without a leading DOCTYPE (up to its first `>`), each with the space
/// after it.
pub open spec fn cleaned_svg(s: Seq<char>) -> Seq<char> {
    let a = if starts_with(trim_start_ws(s), "<?xml"@) {
        match first_occurrence(s, "?>"@) {
            Some(e) => trim_start_ws(s.skip(e + 2)),
            None => s,
        }
    } else {
        s
    };
    if starts_with(trim_start_ws(a), "<!DOCTYPE"@) {
        match first_occurrence(a, ">"@) {
            Some(e) => trim_start_ws(a.skip(e + 1)),
            None => a,
        }
    } else {
        a
    }
}

/// Removes a leading XML declaration and DOCTYPE from SVG text.
pub fn clean_svg_content(svg_content: &str) -> (r: String)
    ensures
        r@ == cleaned_svg(svg_content@),
{
    let t = str_trim_start(svg_content);
    let a = if str_starts_with(t.as_str(), "<?xml") {
        let chars = chars_of(svg_content);
        let pat = chars_of("?>");
        match find_chars(&chars, &pat) {
            Some(e) => {
                proof {
                    reveal_strlit("?>");
                }
                let n = chars.len();
                assert(e + 2 <= n);
                str_trim_start(svg_content.substring_char(e + 2, svg_content.unicode_len()))
            },
            None => owned(svg_content),
        }
    } else {
        owned(svg_content)
    };
    let t2 = str_trim_start(a.as_str());
    if str_starts_with(t2.as_str(), "<!DOCTYPE") {
        let chars = chars_of(a.as_str());
        let pat = chars_of(">");
        match find_chars(&chars, &pat) {
            Some(e) => {
                proof {
                    reveal_strlit(">");
                }
                let n = chars.len();
                assert(e + 1 <= n);
                str_trim_start(a.as_str().substring_char(e + 1, a.as_str().unicode_len()))
            },
            None => a,
        }
    } else {
        a
    }
}

} // verus!

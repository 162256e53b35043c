//! Streaming extraction of Open Graph preview metadata.
//!
//! The scraper runs a single-pass tag scanner over the document's characters
//! and never builds a DOM: it looks only at start tags, and among those only
//! at tags named `meta`. A `meta` tag whose attribute list carries an
//! attribute named `property` whose value equals (ASCII-case-insensitively)
//! one of `og:title`, `og:description`, `og:url`, `og:image`, and also an
//! attribute named `content`, records that `content` value into the matching
//! result field; a later matching tag overwrites an earlier one. Everything
//! else in the document is skipped over, never an error: text, end tags,
//! broken closing tags, truncation, comments (`<!--` up to `-->`) and
//! `script` bodies (raw text up to the `</script` end tag), so a meta-shaped
//! sequence inside a comment or a script never touches the result.
//!
//! Attribute values are taken raw: HTML character references are not decoded
//! (`content="A &amp; B"` scrapes as `A &amp; B`), and duplicate attribute
//! names are all kept — a `property` attribute matches wherever it stands,
//! and the first `content` attribute supplies the value.
//!
//! The scanner is specified as a state machine stepped one character at a
//! time ([`scan_step`]); [`scrape_model`] folds it over the whole input and
//! is what [`get_ogp`] is proved against.

use vstd::prelude::*;
use vstd::string::StrSliceExecFns;

verus! {

/// The four preview fields scraped from a page's `meta` tags. Every field is
/// independently optional: a missing field lowers embed richness and is not
/// an error.
#[derive(Debug, Clone, PartialEq, Eq)]
pub struct Ogp {
    pub og_image: Option<String>,
    pub og_title: Option<String>,
    pub og_description: Option<String>,
    pub og_url: Option<String>,
}

/// The mathematical shape of an [`Ogp`] value.
#[verifier::ext_equal]
pub struct OgpModel {
    pub og_image: Option<Seq<char>>,
    pub og_title: Option<Seq<char>>,
    pub og_description: Option<Seq<char>>,
    pub og_url: Option<Seq<char>>,
}

impl Ogp {
    /// The scraped fields as character sequences.
    pub open spec fn model(&self) -> OgpModel {
        OgpModel {
            og_image: self.og_image.deep_view(),
            og_title: self.og_title.deep_view(),
            og_description: self.og_description.deep_view(),
            og_url: self.og_url.deep_view(),
        }
    }
}

impl Default for Ogp {
    /// All fields absent.
    fn default() -> (r: Self)
        ensures
            r.model() == empty_ogp(),
    {
        Ogp { og_image: None, og_title: None, og_description: None, og_url: None }
    }
}

/// No field scraped yet.
pub open spec fn empty_ogp() -> OgpModel {
    OgpModel { og_image: None, og_title: None, og_description: None, og_url: None }
}

/// ASCII lowercasing of one character; anything outside `A..Z` is kept.
pub open spec fn lower_char(c: char) -> char {
    if 'A' <= c && c <= 'Z' {
        (((c as u32) + 32) as u8) as char
    } else {
        c
    }
}

/// ASCII lowercasing of a character sequence.
pub open spec fn ascii_lower(s: Seq<char>) -> Seq<char> {
    s.map_values(|c: char| lower_char(c))
}

/// HTML whitespace inside a tag.
pub open spec fn is_space(c: char) -> bool {
    c == ' ' || c == '\t' || c == '\n' || c == '\r' || c == '\x0c'
}

/// An ASCII letter, which is what may open a tag name.
pub open spec fn is_ascii_alpha(c: char) -> bool {
    ('a' <= c && c <= 'z') || ('A' <= c && c <= 'Z')
}

/// An attribute list is a sequence of names (already lowercased by the
/// scanner) paired with raw values, in document order, duplicates kept.
/// Some attribute is named `property` and its value equals `prop` up to
/// ASCII case.
pub open spec fn has_matching_property(
    attrs: Seq<(Seq<char>, Seq<char>)>,
    prop: Seq<char>,
) -> bool {
    exists|i: int|
        0 <= i < attrs.len() && (#[trigger] attrs[i]).0 == "property"@ && ascii_lower(attrs[i].1)
            == prop
}

/// The value of the first attribute named `content` at or after index `i`.
pub open spec fn first_content_from(attrs: Seq<(Seq<char>, Seq<char>)>, i: int) -> Option<
    Seq<char>,
>
    decreases attrs.len() - i,
{
    if i < 0 || i >= attrs.len() {
        None
    } else if attrs[i].0 == "content"@ {
        Some(attrs[i].1)
    } else {
        first_content_from(attrs, i + 1)
    }
}

/// What a `meta` tag with attribute list `attrs` contributes for the property
/// named `prop`: the tag's first `content` value, provided some `property`
/// attribute matches `prop` case-insensitively.
pub open spec fn property_content(attrs: Seq<(Seq<char>, Seq<char>)>, prop: Seq<char>) -> Option<
    Seq<char>,
> {
    if has_matching_property(attrs, prop) {
        first_content_from(attrs, 0)
    } else {
        None
    }
}

/// Folds one `meta` start tag into the result: each of the four fields is
/// overwritten when the tag carries it, kept otherwise.
pub open spec fn apply_meta(ogp: OgpModel, attrs: Seq<(Seq<char>, Seq<char>)>) -> OgpModel {
    OgpModel {
        og_title: match property_content(attrs, "og:title"@) {
            Some(v) => Some(v),
            None => ogp.og_title,
        },
        og_description: match property_content(attrs, "og:description"@) {
            Some(v) => Some(v),
            None => ogp.og_description,
        },
        og_url: match property_content(attrs, "og:url"@) {
            Some(v) => Some(v),
            None => ogp.og_url,
        },
        og_image: match property_content(attrs, "og:image"@) {
            Some(v) => Some(v),
            None => ogp.og_image,
        },
    }
}

/// Law: the last matching tag wins. Folding a later `meta` tag over an
/// earlier one overwrites every field the later tag carries, and keeps every
/// field it does not.
pub proof fn lemma_last_meta_wins(
    ogp: OgpModel,
    earlier: Seq<(Seq<char>, Seq<char>)>,
    later: Seq<(Seq<char>, Seq<char>)>,
)
    ensures
        property_content(later, "og:title"@) is Some ==> apply_meta(
            apply_meta(ogp, earlier),
            later,
        ).og_title == property_content(later, "og:title"@),
        property_content(later, "og:title"@) is None ==> apply_meta(
            apply_meta(ogp, earlier),
            later,
        ).og_title == apply_meta(ogp, earlier).og_title,
        property_content(later, "og:description"@) is Some ==> apply_meta(
            apply_meta(ogp, earlier),
            later,
        ).og_description == property_content(later, "og:description"@),
        property_content(later, "og:url"@) is Some ==> apply_meta(
            apply_meta(ogp, earlier),
            later,
        ).og_url == property_content(later, "og:url"@),
        property_content(later, "og:image"@) is Some ==> apply_meta(
            apply_meta(ogp, earlier),
            later,
        ).og_image == property_content(later, "og:image"@),
{
}

/// Law: a property value match is ASCII-case-insensitive. Two attribute
/// lists whose names agree and whose values agree up to ASCII case match
/// exactly the same property names.
pub proof fn lemma_property_match_case_insensitive(
    a: Seq<(Seq<char>, Seq<char>)>,
    b: Seq<(Seq<char>, Seq<char>)>,
    prop: Seq<char>,
)
    requires
        a.len() == b.len(),
        forall|i: int| 0 <= i < a.len() ==> (#[trigger] a[i]).0 == b[i].0,
        forall|i: int| 0 <= i < a.len() ==> ascii_lower((#[trigger] a[i]).1) == ascii_lower(
            b[i].1,
        ),
    ensures
        has_matching_property(a, prop) == has_matching_property(b, prop),
{
    if has_matching_property(a, prop) {
        let i = choose|i: int|
            0 <= i < a.len() && (#[trigger] a[i]).0 == "property"@ && ascii_lower(a[i].1) == prop;
        assert(b[i].0 == "property"@ && ascii_lower(b[i].1) == prop);
    }
    if has_matching_property(b, prop) {
        let i = choose|i: int|
            0 <= i < b.len() && (#[trigger] b[i]).0 == "property"@ && ascii_lower(b[i].1) == prop;
        assert(a[i].0 == "property"@ && ascii_lower(a[i].1) == prop);
    }
}

/// Where in a tag the scanner stands.
#[derive(Debug, Clone, Copy)]
pub enum ScanMode {
    /// Outside any tag.
    Text,
    /// Just behind `<`.
    TagOpen,
    /// Inside a construct that is not a start tag (`</...`, `<?...`, or a
    /// `<!...` that is no comment), up to the next `>`.
    Skip,
    /// Just behind `<!`.
    Bang,
    /// Just behind `<!-`.
    BangDash,
    /// Inside a comment (`<!--`), up to its `-->`.
    Comment,
    /// Inside a comment, just behind a `-`.
    CommentDash,
    /// Inside a comment, just behind `--`; `>` now ends the comment.
    CommentEnd,
    /// Inside a script body: raw text up to the `</script` end tag.
    RawText,
    /// Inside a script body, just behind `<`.
    RawLt,
    /// Inside a script body, reading the name behind `</`.
    RawEndName,
    /// Reading the tag name.
    TagName,
    /// Between attributes.
    BeforeAttr,
    /// Reading an attribute name.
    AttrName,
    /// Behind a complete attribute name, before `=` or the next attribute.
    AfterAttrName,
    /// Behind `=`, before the value.
    BeforeValue,
    /// Inside a double-quoted value.
    ValueDq,
    /// Inside a single-quoted value.
    ValueSq,
    /// Inside an unquoted value.
    ValueUnq,
}

/// The scanner's full state: the mode, the pieces of the tag under
/// construction, and the fields recorded so far.
#[verifier::ext_equal]
pub struct ScanModel {
    pub mode: ScanMode,
    pub tag_name: Seq<char>,
    pub attrs: Seq<(Seq<char>, Seq<char>)>,
    pub attr_name: Seq<char>,
    pub attr_value: Seq<char>,
    pub ogp: OgpModel,
}

/// The state before any input.
pub open spec fn init_scan() -> ScanModel {
    ScanModel {
        mode: ScanMode::Text,
        tag_name: Seq::empty(),
        attrs: Seq::empty(),
        attr_name: Seq::empty(),
        attr_value: Seq::empty(),
        ogp: empty_ogp(),
    }
}

/// Closes the pending attribute: name and value collected so far become one
/// attribute of the tag.
pub open spec fn push_attr(m: ScanModel) -> ScanModel {
    ScanModel {
        attrs: m.attrs.push((m.attr_name, m.attr_value)),
        attr_name: Seq::empty(),
        attr_value: Seq::empty(),
        ..m
    }
}

/// Closes the tag at `>`: a tag named `meta` contributes its attributes to
/// the result, any other tag is dropped; scanning returns to plain text,
/// except behind a `script` tag, whose body is raw text.
pub open spec fn close_tag(m: ScanModel) -> ScanModel {
    ScanModel {
        mode: if m.tag_name == "script"@ {
            ScanMode::RawText
        } else {
            ScanMode::Text
        },
        tag_name: Seq::empty(),
        attrs: Seq::empty(),
        attr_name: Seq::empty(),
        attr_value: Seq::empty(),
        ogp: if m.tag_name == "meta"@ {
            apply_meta(m.ogp, m.attrs)
        } else {
            m.ogp
        },
    }
}

/// One step of the scanner on one character.
pub open spec fn scan_step(m: ScanModel, c: char) -> ScanModel {
    match m.mode {
        ScanMode::Text => if c == '<' {
            ScanModel { mode: ScanMode::TagOpen, ..m }
        } else {
            m
        },
        ScanMode::TagOpen => if is_ascii_alpha(c) {
            ScanModel {
                mode: ScanMode::TagName,
                tag_name: seq![lower_char(c)],
                attrs: Seq::empty(),
                attr_name: Seq::empty(),
                attr_value: Seq::empty(),
                ..m
            }
        } else if c == '!' {
            ScanModel { mode: ScanMode::Bang, ..m }
        } else if c == '/' || c == '?' {
            ScanModel { mode: ScanMode::Skip, ..m }
        } else if c == '<' {
            m
        } else {
            ScanModel { mode: ScanMode::Text, ..m }
        },
        ScanMode::Skip => if c == '>' {
            ScanModel { mode: ScanMode::Text, ..m }
        } else {
            m
        },
        ScanMode::Bang => if c == '-' {
            ScanModel { mode: ScanMode::BangDash, ..m }
        } else if c == '>' {
            ScanModel { mode: ScanMode::Text, ..m }
        } else {
            ScanModel { mode: ScanMode::Skip, ..m }
        },
        ScanMode::BangDash => if c == '-' {
            ScanModel { mode: ScanMode::Comment, ..m }
        } else if c == '>' {
            ScanModel { mode: ScanMode::Text, ..m }
        } else {
            ScanModel { mode: ScanMode::Skip, ..m }
        },
        ScanMode::Comment => if c == '-' {
            ScanModel { mode: ScanMode::CommentDash, ..m }
        } else {
            m
        },
        ScanMode::CommentDash => if c == '-' {
            ScanModel { mode: ScanMode::CommentEnd, ..m }
        } else {
            ScanModel { mode: ScanMode::Comment, ..m }
        },
        ScanMode::CommentEnd => if c == '>' {
            ScanModel { mode: ScanMode::Text, ..m }
        } else if c == '-' {
            m
        } else {
            ScanModel { mode: ScanMode::Comment, ..m }
        },
        ScanMode::RawText => if c == '<' {
            ScanModel { mode: ScanMode::RawLt, ..m }
        } else {
            m
        },
        ScanMode::RawLt => if c == '/' {
            ScanModel { mode: ScanMode::RawEndName, tag_name: Seq::empty(), ..m }
        } else if c == '<' {
            m
        } else {
            ScanModel { mode: ScanMode::RawText, ..m }
        },
        ScanMode::RawEndName => if is_ascii_alpha(c) {
            ScanModel { tag_name: m.tag_name.push(lower_char(c)), ..m }
        } else if m.tag_name == "script"@ {
            if c == '>' {
                ScanModel { mode: ScanMode::Text, tag_name: Seq::empty(), ..m }
            } else {
                ScanModel { mode: ScanMode::Skip, tag_name: Seq::empty(), ..m }
            }
        } else {
            if c == '<' {
                ScanModel { mode: ScanMode::RawLt, tag_name: Seq::empty(), ..m }
            } else {
                ScanModel { mode: ScanMode::RawText, tag_name: Seq::empty(), ..m }
            }
        },
        ScanMode::TagName => if is_space(c) || c == '/' {
            ScanModel { mode: ScanMode::BeforeAttr, ..m }
        } else if c == '>' {
            close_tag(m)
        } else {
            ScanModel { tag_name: m.tag_name.push(lower_char(c)), ..m }
        },
        ScanMode::BeforeAttr => if is_space(c) || c == '/' || c == '=' {
            m
        } else if c == '>' {
            close_tag(m)
        } else {
            ScanModel {
                mode: ScanMode::AttrName,
                attr_name: seq![lower_char(c)],
                attr_value: Seq::empty(),
                ..m
            }
        },
        ScanMode::AttrName => if c == '=' {
            ScanModel { mode: ScanMode::BeforeValue, ..m }
        } else if is_space(c) {
            ScanModel { mode: ScanMode::AfterAttrName, ..m }
        } else if c == '>' {
            close_tag(push_attr(m))
        } else if c == '/' {
            ScanModel { mode: ScanMode::BeforeAttr, ..push_attr(m) }
        } else {
            ScanModel { attr_name: m.attr_name.push(lower_char(c)), ..m }
        },
        ScanMode::AfterAttrName => if is_space(c) {
            m
        } else if c == '=' {
            ScanModel { mode: ScanMode::BeforeValue, ..m }
        } else if c == '>' {
            close_tag(push_attr(m))
        } else if c == '/' {
            ScanModel { mode: ScanMode::BeforeAttr, ..push_attr(m) }
        } else {
            ScanModel {
                mode: ScanMode::AttrName,
                attr_name: seq![lower_char(c)],
                attr_value: Seq::empty(),
                ..push_attr(m)
            }
        },
        ScanMode::BeforeValue => if is_space(c) {
            m
        } else if c == '"' {
            ScanModel { mode: ScanMode::ValueDq, ..m }
        } else if c == '\'' {
            ScanModel { mode: ScanMode::ValueSq, ..m }
        } else if c == '>' {
            close_tag(push_attr(m))
        } else {
            ScanModel { mode: ScanMode::ValueUnq, attr_value: seq![c], ..m }
        },
        ScanMode::ValueDq => if c == '"' {
            ScanModel { mode: ScanMode::BeforeAttr, ..push_attr(m) }
        } else {
            ScanModel { attr_value: m.attr_value.push(c), ..m }
        },
        ScanMode::ValueSq => if c == '\'' {
            ScanModel { mode: ScanMode::BeforeAttr, ..push_attr(m) }
        } else {
            ScanModel { attr_value: m.attr_value.push(c), ..m }
        },
        ScanMode::ValueUnq => if is_space(c) {
            ScanModel { mode: ScanMode::BeforeAttr, ..push_attr(m) }
        } else if c == '>' {
            close_tag(push_attr(m))
        } else {
            ScanModel { attr_value: m.attr_value.push(c), ..m }
        },
    }
}

/// The scanner's state after the whole input; a tag left open by truncated
/// input contributes nothing.
pub open spec fn scan_chars(s: Seq<char>) -> ScanModel
    decreases s.len(),
{
    if s.len() == 0 {
        init_scan()
    } else {
        scan_step(scan_chars(s.drop_last()), s.last())
    }
}

/// The preview fields the scanner extracts from the document.
pub open spec fn scrape_model(s: Seq<char>) -> OgpModel {
    scan_chars(s).ogp
}

fn to_lower(c: char) -> (r: char)
    ensures
        r == lower_char(c),
{
    if 'A' <= c && c <= 'Z' {
        (((c as u32) + 32) as u8) as char
    } else {
        c
    }
}

fn space(c: char) -> (r: bool)
    ensures
        r == is_space(c),
{
    c == ' ' || c == '\t' || c == '\n' || c == '\r' || c == '\x0c'
}

fn alpha(c: char) -> (r: bool)
    ensures
        r == is_ascii_alpha(c),
{
    ('a' <= c && c <= 'z') || ('A' <= c && c <= 'Z')
}

/// Compares collected characters against a literal.
fn vec_eq_str(v: &Vec<char>, s: &str) -> (r: bool)
    ensures
        r == (v@ == s@),
{
    let n = s.unicode_len();
    if v.len() != n {
        return false;
    }
    let mut i: usize = 0;
    while i < n
        invariant
            i <= n,
            n == s@.len(),
            v@.len() == n,
            forall|k: int| 0 <= k < i ==> v@[k] == s@[k],
        decreases n - i,
    {
        if v[i] != s.get_char(i) {
            return false;
        }
        i += 1;
    }
    proof {
        assert(v@ =~= s@);
    }
    true
}

/// Compares the ASCII-lowercased collected characters against a literal.
fn lower_eq_str(v: &Vec<char>, s: &str) -> (r: bool)
    ensures
        r == (ascii_lower(v@) == s@),
{
    let n = s.unicode_len();
    if v.len() != n {
        return false;
    }
    let mut i: usize = 0;
    while i < n
        invariant
            i <= n,
            n == s@.len(),
            v@.len() == n,
            forall|k: int| 0 <= k < i ==> lower_char(v@[k]) == s@[k],
        decreases n - i,
    {
        if to_lower(v[i]) != s.get_char(i) {
            return false;
        }
        i += 1;
    }
    proof {
        assert(ascii_lower(v@) =~= s@);
    }
    true
}

/// Relies on std's `FromIterator` for `String`: collecting chars yields the
/// string of exactly those characters in order.
#[verifier::external_body]
fn chars_to_string(v: &Vec<char>) -> (r: String)
    ensures
        r@ == v@,
{
    v.iter().collect()
}

/// The attribute list a scanner has collected, as character sequences.
pub open spec fn attrs_model(attrs: Seq<(Vec<char>, Vec<char>)>) -> Seq<(Seq<char>, Seq<char>)> {
    attrs.map_values(|p: (Vec<char>, Vec<char>)| (p.0@, p.1@))
}

/// Finds the `content` value a tag contributes for the property named
/// `property`, exactly as [`property_content`] states it.
fn find_property_content(attrs: &Vec<(Vec<char>, Vec<char>)>, property: &str) -> (r: Option<
    String,
>)
    ensures
        r.deep_view() == property_content(attrs_model(attrs@), property@),
{
    let ghost m = attrs_model(attrs@);
    let mut found = false;
    let mut j: usize = 0;
    while j < attrs.len() && !found
        invariant
            j <= attrs@.len(),
            m == attrs_model(attrs@),
            m.len() == attrs@.len(),
            forall|k: int|
                0 <= k < j ==> !((#[trigger] m[k]).0 == "property"@ && ascii_lower(m[k].1)
                    == property@),
            found ==> has_matching_property(m, property@),
        decreases attrs@.len() - j, (if found { 0int } else { 1int }),
    {
        if vec_eq_str(&attrs[j].0, "property") && lower_eq_str(&attrs[j].1, property) {
            assert(m[j as int].0 == "property"@ && ascii_lower(m[j as int].1) == property@);
            found = true;
        } else {
            j += 1;
        }
    }
    if !found {
        return None;
    }
    let mut k: usize = 0;
    while k < attrs.len()
        invariant
            k <= attrs@.len(),
            m == attrs_model(attrs@),
            m.len() == attrs@.len(),
            has_matching_property(m, property@),
            first_content_from(m, 0) == first_content_from(m, k as int),
        decreases attrs@.len() - k,
    {
        if vec_eq_str(&attrs[k].0, "content") {
            let content = chars_to_string(&attrs[k].1);
            return Some(content);
        }
        k += 1;
    }
    None
}

/// The streaming tag scanner: one [`scan_step`] per input character.
struct Scanner {
    mode: ScanMode,
    tag_name: Vec<char>,
    attrs: Vec<(Vec<char>, Vec<char>)>,
    attr_name: Vec<char>,
    attr_value: Vec<char>,
    ogp: Ogp,
}

impl Scanner {
    spec fn model(&self) -> ScanModel {
        ScanModel {
            mode: self.mode,
            tag_name: self.tag_name@,
            attrs: attrs_model(self.attrs@),
            attr_name: self.attr_name@,
            attr_value: self.attr_value@,
            ogp: self.ogp.model(),
        }
    }

    fn new() -> (r: Self)
        ensures
            r.model() == init_scan(),
    {
        let r = Scanner {
            mode: ScanMode::Text,
            tag_name: Vec::new(),
            attrs: Vec::new(),
            attr_name: Vec::new(),
            attr_value: Vec::new(),
            ogp: Ogp { og_image: None, og_title: None, og_description: None, og_url: None },
        };
        proof {
            assert(r.model() =~~= init_scan());
        }
        r
    }

    /// Closes the pending attribute.
    fn push_pending_attr(&mut self)
        ensures
            final (self).model() == push_attr(old(self).model()),
    {
        let mut name: Vec<char> = Vec::new();
        core::mem::swap(&mut name, &mut self.attr_name);
        let mut value: Vec<char> = Vec::new();
        core::mem::swap(&mut value, &mut self.attr_value);
        self.attrs.push((name, value));
        proof {
            assert(self.model() =~~= push_attr(old(self).model()));
        }
    }

    /// Closes the tag at `>` and folds a `meta` tag into the result.
    fn close_pending_tag(&mut self)
        ensures
            final (self).model() == close_tag(old(self).model()),
    {
        if vec_eq_str(&self.tag_name, "meta") {
            match find_property_content(&self.attrs, "og:title") {
                Some(v) => {
                    self.ogp.og_title = Some(v);
                },
                None => {},
            }
            match find_property_content(&self.attrs, "og:description") {
                Some(v) => {
                    self.ogp.og_description = Some(v);
                },
                None => {},
            }
            match find_property_content(&self.attrs, "og:url") {
                Some(v) => {
                    self.ogp.og_url = Some(v);
                },
                None => {},
            }
            match find_property_content(&self.attrs, "og:image") {
                Some(v) => {
                    self.ogp.og_image = Some(v);
                },
                None => {},
            }
            proof {
                assert(self.ogp.model() =~~= apply_meta(old(self).model().ogp, old(
                    self,
                ).model().attrs));
            }
        }
        if vec_eq_str(&self.tag_name, "script") {
            self.mode = ScanMode::RawText;
        } else {
            self.mode = ScanMode::Text;
        }
        self.tag_name.clear();
        self.attrs.clear();
        self.attr_name.clear();
        self.attr_value.clear();
        proof {
            assert(self.model() =~~= close_tag(old(self).model()));
        }
    }

    /// Advances the scanner by one character.
    fn step(&mut self, c: char)
        ensures
            final (self).model() == scan_step(old(self).model(), c),
    {
        match self.mode {
            ScanMode::Text => {
                if c == '<' {
                    self.mode = ScanMode::TagOpen;
                }
            },
            ScanMode::TagOpen => {
                if alpha(c) {
                    self.mode = ScanMode::TagName;
                    self.tag_name.clear();
                    self.tag_name.push(to_lower(c));
                    self.attrs.clear();
                    self.attr_name.clear();
                    self.attr_value.clear();
                } else if c == '!' {
                    self.mode = ScanMode::Bang;
                } else if c == '/' || c == '?' {
                    self.mode = ScanMode::Skip;
                } else if c == '<' {
                } else {
                    self.mode = ScanMode::Text;
                }
            },
            ScanMode::Skip => {
                if c == '>' {
                    self.mode = ScanMode::Text;
                }
            },
            ScanMode::Bang => {
                if c == '-' {
                    self.mode = ScanMode::BangDash;
                } else if c == '>' {
                    self.mode = ScanMode::Text;
                } else {
                    self.mode = ScanMode::Skip;
                }
            },
            ScanMode::BangDash => {
                if c == '-' {
                    self.mode = ScanMode::Comment;
                } else if c == '>' {
                    self.mode = ScanMode::Text;
                } else {
                    self.mode = ScanMode::Skip;
                }
            },
            ScanMode::Comment => {
                if c == '-' {
                    self.mode = ScanMode::CommentDash;
                }
            },
            ScanMode::CommentDash => {
                if c == '-' {
                    self.mode = ScanMode::CommentEnd;
                } else {
                    self.mode = ScanMode::Comment;
                }
            },
            ScanMode::CommentEnd => {
                if c == '>' {
                    self.mode = ScanMode::Text;
                } else if c == '-' {
                } else {
                    self.mode = ScanMode::Comment;
                }
            },
            ScanMode::RawText => {
                if c == '<' {
                    self.mode = ScanMode::RawLt;
                }
            },
            ScanMode::RawLt => {
                if c == '/' {
                    self.mode = ScanMode::RawEndName;
                    self.tag_name.clear();
                } else if c == '<' {
                } else {
                    self.mode = ScanMode::RawText;
                }
            },
            ScanMode::RawEndName => {
                if alpha(c) {
                    self.tag_name.push(to_lower(c));
                } else if vec_eq_str(&self.tag_name, "script") {
                    self.tag_name.clear();
                    if c == '>' {
                        self.mode = ScanMode::Text;
                    } else {
                        self.mode = ScanMode::Skip;
                    }
                } else {
                    self.tag_name.clear();
                    if c == '<' {
                        self.mode = ScanMode::RawLt;
                    } else {
                        self.mode = ScanMode::RawText;
                    }
                }
            },
            ScanMode::TagName => {
                if space(c) || c == '/' {
                    self.mode = ScanMode::BeforeAttr;
                } else if c == '>' {
                    self.close_pending_tag();
                } else {
                    self.tag_name.push(to_lower(c));
                }
            },
            ScanMode::BeforeAttr => {
                if space(c) || c == '/' || c == '=' {
                } else if c == '>' {
                    self.close_pending_tag();
                } else {
                    self.mode = ScanMode::AttrName;
                    self.attr_name.clear();
                    self.attr_name.push(to_lower(c));
                    self.attr_value.clear();
                }
            },
            ScanMode::AttrName => {
                if c == '=' {
                    self.mode = ScanMode::BeforeValue;
                } else if space(c) {
                    self.mode = ScanMode::AfterAttrName;
                } else if c == '>' {
                    self.push_pending_attr();
                    self.close_pending_tag();
                } else if c == '/' {
                    self.push_pending_attr();
                    self.mode = ScanMode::BeforeAttr;
                } else {
                    self.attr_name.push(to_lower(c));
                }
            },
            ScanMode::AfterAttrName => {
                if space(c) {
                } else if c == '=' {
                    self.mode = ScanMode::BeforeValue;
                } else if c == '>' {
                    self.push_pending_attr();
                    self.close_pending_tag();
                } else if c == '/' {
                    self.push_pending_attr();
                    self.mode = ScanMode::BeforeAttr;
                } else {
                    self.push_pending_attr();
                    self.mode = ScanMode::AttrName;
                    self.attr_name.clear();
                    self.attr_name.push(to_lower(c));
                    self.attr_value.clear();
                }
            },
            ScanMode::BeforeValue => {
                if space(c) {
                } else if c == '"' {
                    self.mode = ScanMode::ValueDq;
                } else if c == '\'' {
                    self.mode = ScanMode::ValueSq;
                } else if c == '>' {
                    self.push_pending_attr();
                    self.close_pending_tag();
                } else {
                    self.mode = ScanMode::ValueUnq;
                    self.attr_value.clear();
                    self.attr_value.push(c);
                }
            },
            ScanMode::ValueDq => {
                if c == '"' {
                    self.push_pending_attr();
                    self.mode = ScanMode::BeforeAttr;
                } else {
                    self.attr_value.push(c);
                }
            },
            ScanMode::ValueSq => {
                if c == '\'' {
                    self.push_pending_attr();
                    self.mode = ScanMode::BeforeAttr;
                } else {
                    self.attr_value.push(c);
                }
            },
            ScanMode::ValueUnq => {
                if space(c) {
                    self.push_pending_attr();
                    self.mode = ScanMode::BeforeAttr;
                } else if c == '>' {
                    self.push_pending_attr();
                    self.close_pending_tag();
                } else {
                    self.attr_value.push(c);
                }
            },
        }
        proof {
            assert(self.model() =~~= scan_step(old(self).model(), c));
        }
    }
}

/// Scrapes the document for Open Graph preview fields, exactly as
/// [`scrape_model`] states it: single-pass, attribute-only, tolerant of
/// malformed or truncated markup.
pub fn get_ogp(html: String) -> (r: Ogp)
    ensures
        r.model() == scrape_model(html@),
{
    let s = html.as_str();
    let n = s.unicode_len();
    let mut sc = Scanner::new();
    let mut i: usize = 0;
    proof {
        assert(s@.take(0) =~= Seq::<char>::empty());
    }
    while i < n
        invariant
            i <= n,
            n == s@.len(),
            s@ == html@,
            sc.model() == scan_chars(s@.take(i as int)),
        decreases n - i,
    {
        let c = s.get_char(i);
        proof {
            assert(s@.take(i + 1).drop_last() =~= s@.take(i as int));
            assert(s@.take(i + 1).last() == s@[i as int]);
        }
        sc.step(c);
        i += 1;
    }
    proof {
        assert(s@.take(n as int) =~= s@);
    }
    sc.ogp
}

} // verus!

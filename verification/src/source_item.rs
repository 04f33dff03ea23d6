use vstd::prelude::*;
use vstd::utf8::is_ascii_chars;

verus! {

/// A tuple of match text piece (matching_text, offset_of_matching_text).
#[derive(Debug, Clone)]
pub struct FuzzyText<'a> {
    pub text: &'a str,
    pub matching_start: usize,
}

impl<'a> FuzzyText<'a> {
    /// Pairs the text to match against with the offset of that text in the full line.
    pub fn new(text: &'a str, matching_start: usize) -> (r: Self)
        ensures
            r.text == text,
            r.matching_start == matching_start,
    {
        Self { text, matching_start }
    }
}

/// The location that a match should look in.
///
/// Given a query, the match scope can refer to a full string or a substring.
#[derive(Debug, Clone, Copy)]
pub enum MatchScope {
    Full,
    /// `:Clap tags`, `:Clap proj_tags`
    TagName,
    /// `:Clap files`
    FileName,
    /// `:Clap grep`
    GrepLine,
}

/// The lowercase name under which each scope is spelled.
pub open spec fn scope_name(scope: MatchScope) -> Seq<char> {
    match scope {
        MatchScope::Full => seq!['f', 'u', 'l', 'l'],
        MatchScope::TagName => seq!['t', 'a', 'g', 'n', 'a', 'm', 'e'],
        MatchScope::FileName => seq!['f', 'i', 'l', 'e', 'n', 'a', 'm', 'e'],
        MatchScope::GrepLine => seq!['g', 'r', 'e', 'p', 'l', 'i', 'n', 'e'],
    }
}

/// The scope named by an already lowercased text; any text that names no
/// scope stands for [`MatchScope::Full`].
pub open spec fn scope_of_lowercase(lowered: Seq<char>) -> MatchScope {
    if lowered == scope_name(MatchScope::Full) {
        MatchScope::Full
    } else if lowered == scope_name(MatchScope::TagName) {
        MatchScope::TagName
    } else if lowered == scope_name(MatchScope::FileName) {
        MatchScope::FileName
    } else if lowered == scope_name(MatchScope::GrepLine) {
        MatchScope::GrepLine
    } else {
        MatchScope::Full
    }
}

/// What `str::to_lowercase` gives back for a text: its lowercase equivalent
/// under the Unicode Derived Core Property `Lowercase`.
pub uninterp spec fn lowercase(text: Seq<char>) -> Seq<char>;

/// The ASCII lowercase of one character: `A`..=`Z` become `a`..=`z`, every
/// other character is kept.
pub open spec fn ascii_lower_char(c: char) -> char {
    if 'A' <= c && c <= 'Z' {
        ((c as int) + 32) as char
    } else {
        c
    }
}

/// The ASCII lowercase of a text, character by character.
pub open spec fn ascii_lowercase(text: Seq<char>) -> Seq<char> {
    text.map_values(|c: char| ascii_lower_char(c))
}

/// Two texts that are equal when ASCII case is ignored.
pub open spec fn eq_ignore_ascii_case(a: Seq<char>, b: Seq<char>) -> bool {
    &&& a.len() == b.len()
    &&& forall|i: int| 0 <= i < a.len() ==> ascii_lower_char(a[i]) == ascii_lower_char(b[i])
}

/// The scope that the (case-insensitive) name `text` selects: the scope of its
/// lowercase form. For an ASCII name that form is spelled out; for any other
/// name it is what std's Unicode lowercasing gives.
pub open spec fn scope_of_name(text: Seq<char>) -> MatchScope {
    if is_ascii_chars(text) {
        scope_of_lowercase(ascii_lowercase(text))
    } else {
        scope_of_lowercase(lowercase(text))
    }
}

/// Calls `str::to_lowercase`. Claimed: the result is the lowercase equivalent
/// that std computes from the characters of `text` alone, named `lowercase`;
/// for an ASCII text it is the ASCII lowercase (`A`..=`Z` to `a`..=`z`, all
/// other ASCII kept), as the Unicode `Lowercase` mapping has it. What it is for
/// other characters is not spelled out.
#[verifier::external_body]
fn to_lowercase(text: &str) -> (r: String)
    ensures
        r@ == lowercase(text@),
        is_ascii_chars(text@) ==> r@ == ascii_lowercase(text@),
{
    text.to_lowercase()
}

/// Whether two texts hold the same characters.
fn same_chars(a: &str, b: &str) -> (r: bool)
    ensures
        r == (a@ == b@),
{
    let n = b.unicode_len();
    if a.unicode_len() != n {
        return false;
    }
    let mut i: usize = 0;
    while i < n
        invariant
            n == a@.len(),
            n == b@.len(),
            i <= n,
            forall|j: int| 0 <= j < i ==> a@[j] == b@[j],
        decreases n - i,
    {
        if a.get_char(i) != b.get_char(i) {
            return false;
        }
        i = i + 1;
    }
    assert(a@ =~= b@);
    true
}

impl MatchScope {
    /// The scope named by `lowered`, a text that is already in lowercase:
    /// `full`, `tagname`, `filename` or `grepline`; anything else is `Full`.
    pub fn from_lowercase(lowered: &str) -> (r: MatchScope)
        ensures
            r == scope_of_lowercase(lowered@),
    {
        proof {
            reveal_strlit("full");
            reveal_strlit("tagname");
            reveal_strlit("filename");
            reveal_strlit("grepline");
            assert("full"@ =~= scope_name(MatchScope::Full));
            assert("tagname"@ =~= scope_name(MatchScope::TagName));
            assert("filename"@ =~= scope_name(MatchScope::FileName));
            assert("grepline"@ =~= scope_name(MatchScope::GrepLine));
        }
        if same_chars(lowered, "full") {
            MatchScope::Full
        } else if same_chars(lowered, "tagname") {
            MatchScope::TagName
        } else if same_chars(lowered, "filename") {
            MatchScope::FileName
        } else if same_chars(lowered, "grepline") {
            MatchScope::GrepLine
        } else {
            MatchScope::Full
        }
    }

    /// The scope named by `name`, compared without regard to case.
    pub fn from_name(name: &str) -> (r: MatchScope)
        ensures
            r == scope_of_name(name@),
            picked_for_ascii_name(name@, r),
    {
        proof {
            lemma_ascii_name_picked(name@);
        }
        let lowered = to_lowercase(name);
        MatchScope::from_lowercase(lowered.as_str())
    }
}

impl Default for MatchScope {
    fn default() -> (r: Self)
        ensures
            r == MatchScope::Full,
    {
        MatchScope::Full
    }
}


/// Each scope is selected by its own lowercase name.
pub proof fn lemma_name_selects_scope(scope: MatchScope)
    ensures
        scope_of_lowercase(scope_name(scope)) == scope,
{
    let n = scope_name(scope);
    assert(n.len() == 4 ==> scope == MatchScope::Full);
    assert(n.len() == 7 ==> scope == MatchScope::TagName);
    assert(scope_name(MatchScope::FileName)[0] != scope_name(MatchScope::GrepLine)[0]);
}

/// No two scopes share a name.
pub proof fn lemma_names_distinct(a: MatchScope, b: MatchScope)
    ensures
        scope_name(a) == scope_name(b) ==> a == b,
{
    lemma_name_selects_scope(a);
    lemma_name_selects_scope(b);
}

/// A lowercased text that is none of the four names falls back to `Full`,
/// the default scope.
pub proof fn lemma_unknown_name_is_full(lowered: Seq<char>)
    requires
        forall|scope: MatchScope| lowered != #[trigger] scope_name(scope),
    ensures
        scope_of_lowercase(lowered) == MatchScope::Full,
{
    assert(lowered != scope_name(MatchScope::TagName));
    assert(lowered != scope_name(MatchScope::FileName));
    assert(lowered != scope_name(MatchScope::GrepLine));
}

/// Names are compared without regard to ASCII case: two ASCII names that are
/// equal when case is ignored select the same scope.
pub proof fn lemma_ascii_case_insensitive(a: Seq<char>, b: Seq<char>)
    requires
        is_ascii_chars(a),
        is_ascii_chars(b),
        eq_ignore_ascii_case(a, b),
    ensures
        scope_of_name(a) == scope_of_name(b),
{
    assert(ascii_lowercase(a) =~= ascii_lowercase(b));
}

/// An ASCII name selects a scope exactly when its ASCII lowercase form is that
/// scope's name; every other ASCII name selects `Full`.
pub proof fn lemma_ascii_name_selects(name: Seq<char>, scope: MatchScope)
    requires
        is_ascii_chars(name),
        scope != MatchScope::Full,
    ensures
        scope_of_name(name) == scope <==> ascii_lowercase(name) == scope_name(scope),
{
    lemma_name_selects_scope(scope);
    if scope_of_name(name) == scope {
        let l = ascii_lowercase(name);
        assert(l == scope_name(MatchScope::TagName) || l == scope_name(MatchScope::FileName)
            || l == scope_name(MatchScope::GrepLine));
    }
}

/// What the scope picked for an ASCII name must be: a scope other than `Full`
/// exactly when the name, ignoring ASCII case, is that scope's name; `Full`
/// when it is none of them.
pub open spec fn picked_for_ascii_name(text: Seq<char>, picked: MatchScope) -> bool {
    is_ascii_chars(text) ==> {
        &&& forall|scope: MatchScope|
            scope != MatchScope::Full ==> (picked == scope <==> #[trigger] eq_ignore_ascii_case(
                text,
                scope_name(scope),
            ))
        &&& (picked == MatchScope::Full <==> forall|scope: MatchScope|
            scope != MatchScope::Full ==> !#[trigger] eq_ignore_ascii_case(text, scope_name(scope)))
    }
}

/// Every scope's name is already in ASCII lowercase.
proof fn lemma_name_is_lowercase(scope: MatchScope)
    ensures
        ascii_lowercase(scope_name(scope)) == scope_name(scope),
{
    let n = scope_name(scope);
    assert(ascii_lowercase(n) =~= n) by {
        assert forall|i: int| 0 <= i < n.len() implies ascii_lower_char(n[i]) == n[i] by {
            assert('a' <= n[i] && n[i] <= 'z');
        }
    }
}

/// Ignoring ASCII case, a text equals a scope's name exactly when its ASCII
/// lowercase form is that name.
proof fn lemma_eq_ignore_case_name(text: Seq<char>, scope: MatchScope)
    ensures
        eq_ignore_ascii_case(text, scope_name(scope)) <==> ascii_lowercase(text) == scope_name(scope),
{
    let n = scope_name(scope);
    lemma_name_is_lowercase(scope);
    if eq_ignore_ascii_case(text, n) {
        assert(ascii_lowercase(text) =~= ascii_lowercase(n));
    }
    if ascii_lowercase(text) == n {
        assert forall|i: int| 0 <= i < text.len() implies ascii_lower_char(text[i])
            == ascii_lower_char(n[i]) by {
            assert(ascii_lowercase(text)[i] == n[i]);
            assert(ascii_lowercase(n)[i] == n[i]);
        }
    }
}

/// The scope that the name parse picks for an ASCII name is the one that name
/// spells, ignoring ASCII case, and `Full` when it spells none.
pub proof fn lemma_ascii_name_picked(text: Seq<char>)
    ensures
        picked_for_ascii_name(text, scope_of_name(text)),
{
    if is_ascii_chars(text) {
        lemma_eq_ignore_case_name(text, MatchScope::Full);
        lemma_eq_ignore_case_name(text, MatchScope::TagName);
        lemma_eq_ignore_case_name(text, MatchScope::FileName);
        lemma_eq_ignore_case_name(text, MatchScope::GrepLine);
        lemma_names_distinct(MatchScope::TagName, MatchScope::FileName);
        lemma_names_distinct(MatchScope::TagName, MatchScope::GrepLine);
        lemma_names_distinct(MatchScope::FileName, MatchScope::GrepLine);
        lemma_names_distinct(MatchScope::Full, MatchScope::TagName);
        lemma_names_distinct(MatchScope::Full, MatchScope::FileName);
        lemma_names_distinct(MatchScope::Full, MatchScope::GrepLine);
    }
}

impl<'a> From<&'a str> for MatchScope {
    /// The scope named by `match_scope`, compared without regard to case;
    /// a text that names no scope gives `Full`.
    fn from(match_scope: &'a str) -> (r: Self)
        ensures
            r == scope_of_name(match_scope@),
            picked_for_ascii_name(match_scope@, r),
    {
        proof {
            lemma_ascii_name_picked(match_scope@);
        }
        MatchScope::from_name(match_scope)
    }
}

impl<'a> vstd::std_specs::convert::FromSpecImpl<&'a str> for MatchScope {
    open spec fn obeys_from_spec() -> bool {
        true
    }

    open spec fn from_spec(v: &'a str) -> Self {
        scope_of_name(v@)
    }
}

impl From<String> for MatchScope {
    /// The scope named by `match_scope`, compared without regard to case;
    /// a text that names no scope gives `Full`.
    fn from(match_scope: String) -> (r: Self)
        ensures
            r == scope_of_name(match_scope@),
            picked_for_ascii_name(match_scope@, r),
    {
        proof {
            lemma_ascii_name_picked(match_scope@);
        }
        MatchScope::from_name(match_scope.as_str())
    }
}

impl vstd::std_specs::convert::FromSpecImpl<String> for MatchScope {
    open spec fn obeys_from_spec() -> bool {
        true
    }

    open spec fn from_spec(v: String) -> Self {
        scope_of_name(v@)
    }
}

impl<'a> From<&'a String> for MatchScope {
    /// The scope named by `match_scope`, compared without regard to case;
    /// a text that names no scope gives `Full`.
    fn from(match_scope: &'a String) -> (r: Self)
        ensures
            r == scope_of_name(match_scope@),
            picked_for_ascii_name(match_scope@, r),
    {
        proof {
            lemma_ascii_name_picked(match_scope@);
        }
        MatchScope::from_name(match_scope.as_str())
    }
}

impl<'a> vstd::std_specs::convert::FromSpecImpl<&'a String> for MatchScope {
    open spec fn obeys_from_spec() -> bool {
        true
    }

    open spec fn from_spec(v: &'a String) -> Self {
        scope_of_name(v@)
    }
}

impl From<Box<str>> for MatchScope {
    /// The scope named by `match_scope`, compared without regard to case;
    /// a text that names no scope gives `Full`.
    fn from(match_scope: Box<str>) -> (r: Self)
        ensures
            r == scope_of_name(match_scope@),
            picked_for_ascii_name(match_scope@, r),
    {
        proof {
            lemma_ascii_name_picked(match_scope@);
        }
        MatchScope::from_name(&*match_scope)
    }
}

impl vstd::std_specs::convert::FromSpecImpl<Box<str>> for MatchScope {
    open spec fn obeys_from_spec() -> bool {
        true
    }

    open spec fn from_spec(v: Box<str>) -> Self {
        scope_of_name(v@)
    }
}

impl<'a> From<std::borrow::Cow<'a, str>> for MatchScope {
    /// The scope named by `match_scope`, compared without regard to case;
    /// a text that names no scope gives `Full`.
    fn from(match_scope: std::borrow::Cow<'a, str>) -> (r: Self)
        ensures
            r == scope_of_name(match_scope@),
            picked_for_ascii_name(match_scope@, r),
    {
        proof {
            lemma_ascii_name_picked(match_scope@);
        }
        match &match_scope {
            std::borrow::Cow::Borrowed(text) => MatchScope::from_name(text),
            std::borrow::Cow::Owned(text) => MatchScope::from_name(text.as_str()),
        }
    }
}

impl<'a> vstd::std_specs::convert::FromSpecImpl<std::borrow::Cow<'a, str>> for MatchScope {
    open spec fn obeys_from_spec() -> bool {
        true
    }

    open spec fn from_spec(v: std::borrow::Cow<'a, str>) -> Self {
        scope_of_name(v@)
    }
}

/// Converting a `&str` picks the scope its name spells, ignoring case: the
/// conversion's specification is the name parse, and for an ASCII name that is
/// the scope whose name equals it up to ASCII case, or `Full`.
pub proof fn lemma_from_str_slice<'a>(v: &'a str)
    ensures
        <MatchScope as vstd::std_specs::convert::FromSpec<&'a str>>::from_spec(v) == scope_of_name(v@),
        picked_for_ascii_name(v@, <MatchScope as vstd::std_specs::convert::FromSpec<&'a str>>::from_spec(v)),
{
    lemma_ascii_name_picked(v@);
}

/// Converting a `String` picks the scope its name spells, ignoring case.
pub proof fn lemma_from_string(v: String)
    ensures
        <MatchScope as vstd::std_specs::convert::FromSpec<String>>::from_spec(v) == scope_of_name(v@),
        picked_for_ascii_name(v@, <MatchScope as vstd::std_specs::convert::FromSpec<String>>::from_spec(v)),
{
    lemma_ascii_name_picked(v@);
}

/// Converting a `&String` picks the scope its name spells, ignoring case.
pub proof fn lemma_from_string_ref<'a>(v: &'a String)
    ensures
        <MatchScope as vstd::std_specs::convert::FromSpec<&'a String>>::from_spec(v) == scope_of_name(v@),
        picked_for_ascii_name(v@, <MatchScope as vstd::std_specs::convert::FromSpec<&'a String>>::from_spec(v)),
{
    lemma_ascii_name_picked(v@);
}

/// Converting a `Box<str>` picks the scope its name spells, ignoring case.
pub proof fn lemma_from_boxed_str(v: Box<str>)
    ensures
        <MatchScope as vstd::std_specs::convert::FromSpec<Box<str>>>::from_spec(v) == scope_of_name(v@),
        picked_for_ascii_name(v@, <MatchScope as vstd::std_specs::convert::FromSpec<Box<str>>>::from_spec(v)),
{
    lemma_ascii_name_picked(v@);
}

/// Converting a `Cow<str>`, borrowed or owned, picks the scope its text
/// spells, ignoring case.
pub proof fn lemma_from_cow<'a>(v: std::borrow::Cow<'a, str>)
    ensures
        <MatchScope as vstd::std_specs::convert::FromSpec<std::borrow::Cow<'a, str>>>::from_spec(v)
            == scope_of_name(v@),
        picked_for_ascii_name(
            v@,
            <MatchScope as vstd::std_specs::convert::FromSpec<std::borrow::Cow<'a, str>>>::from_spec(v),
        ),
{
    lemma_ascii_name_picked(v@);
}

impl std::str::FromStr for MatchScope {
    type Err = ();

    /// Never fails: a text that names no scope gives `Full`.
    fn from_str(s: &str) -> (r: Result<Self, Self::Err>)
        ensures
            r == Ok::<MatchScope, ()>(scope_of_name(s@)),
            picked_for_ascii_name(s@, r.unwrap()),
    {
        proof {
            lemma_ascii_name_picked(s@);
        }
        Ok(MatchScope::from(s))
    }
}

} // verus!

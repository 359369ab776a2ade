//! Strings made for the terminal: sequences of grapheme clusters without
//! control characters and not starting with a diacritic.

mod error;
mod index;

pub use self::error::{
    DiacriticAtStart, InvalidControl, NotAGrapheme, TermGraphemeError, TermStringError,
};
pub use self::index::Index;
use unicode_segmentation::UnicodeSegmentation;
use vstd::prelude::*;

verus! {

/// The extended grapheme clusters of a string, in order, as split by
/// `unicode_segmentation`.
pub uninterp spec fn grapheme_clusters(s: Seq<char>) -> Seq<Seq<char>>;

/// The concatenation of a sequence of strings.
pub open spec fn flatten(parts: Seq<Seq<char>>) -> Seq<char>
    decreases parts.len(),
{
    if parts.len() == 0 {
        Seq::empty()
    } else {
        flatten(parts.drop_last()) + parts.last()
    }
}

/// Joining nonempty parts gives at least as many characters as there are
/// parts.
pub proof fn lemma_flatten_len(parts: Seq<Seq<char>>)
    requires
        forall|i: int| 0 <= i < parts.len() ==> (#[trigger] parts[i]).len() > 0,
    ensures
        flatten(parts).len() >= parts.len(),
    decreases parts.len(),
{
    if parts.len() > 0 {
        lemma_flatten_len(parts.drop_last());
    }
}

/// Whether the character is a control character (general category `Cc`).
pub open spec fn is_control(c: char) -> bool {
    (c as u32) <= 0x1f || (0x7f <= (c as u32) && (c as u32) <= 0x9f)
}

/// The number of bytes of the UTF-8 encoding of a character.
pub open spec fn utf8_len(c: char) -> int {
    if (c as u32) < 0x80 {
        1
    } else if (c as u32) < 0x800 {
        2
    } else if (c as u32) < 0x10000 {
        3
    } else {
        4
    }
}

/// The number of bytes of the UTF-8 encoding of a string.
pub open spec fn utf8_size(s: Seq<char>) -> int
    decreases s.len(),
{
    if s.len() == 0 {
        0
    } else {
        utf8_size(s.drop_last()) + utf8_len(s.last())
    }
}

/// Whether no character of the string is a control character.
pub open spec fn no_control(s: Seq<char>) -> bool {
    forall|i: int| 0 <= i < s.len() ==> !is_control(#[trigger] s[i])
}

/// Whether the character joins the character before it into one grapheme
/// cluster, i.e. it is a diacritic: `'a'` followed by it is one cluster.
pub open spec fn is_diacritic(c: char) -> bool {
    grapheme_clusters(seq!['a', c]).len() <= 1
}

/// Whether a string is valid for the terminal: no control character and no
/// diacritic at the start.
pub open spec fn valid_term_chars(s: Seq<char>) -> bool {
    &&& no_control(s)
    &&& s.len() > 0 ==> !is_diacritic(s[0])
}

/// The error validating the given characters yields, if any: the first
/// control character, by its byte position, then a diacritic at the start.
pub open spec fn validation_error(s: Seq<char>) -> Option<TermStringError> {
    if !no_control(s) {
        let i = choose|i: int|
            0 <= i < s.len() && is_control(#[trigger] s[i]) && forall|j: int|
                0 <= j < i ==> !is_control(#[trigger] s[j]);
        Some(
            TermStringError::InvalidControl(
                InvalidControl { position: utf8_size(s.take(i)) as usize },
            ),
        )
    } else if s.len() > 0 && is_diacritic(s[0]) {
        Some(TermStringError::DiacriticAtStart(DiacriticAtStart))
    } else {
        None
    }
}

/// Splits a string into its extended grapheme clusters.
///
/// Calls `UnicodeSegmentation::graphemes` with extended clusters. The
/// contract names the result `grapheme_clusters` of the string, and states
/// what the crate's source shows of the iterator: it yields consecutive,
/// nonempty slices from the start to the end of the string, so the clusters
/// are nonempty and joined back they give the string.
#[verifier::external_body]
pub(crate) fn split_graphemes(s: &str) -> (r: Vec<String>)
    ensures
        r@.map_values(|g: String| g@) == grapheme_clusters(s@),
        flatten(r@.map_values(|g: String| g@)) == s@,
        forall|i: int| 0 <= i < r@.len() ==> (#[trigger] r@[i])@.len() > 0,
{
    s.graphemes(true).map(|g| g.to_string()).collect()
}

/// A grapheme cluster usable in the terminal.
#[derive(Debug, Hash)]
pub struct TermGrapheme {
    content: String,
}

impl View for TermGrapheme {
    type V = Seq<char>;

    closed spec fn view(&self) -> Seq<char> {
        self.content@
    }
}

impl Clone for TermGrapheme {
    fn clone(&self) -> (r: Self)
        ensures
            r@ == self@,
    {
        TermGrapheme { content: self.content.clone() }
    }
}

impl PartialEq for TermGrapheme {
    fn eq(&self, other: &Self) -> (r: bool) {
        self.content == other.content
    }
}

impl Eq for TermGrapheme {

}

impl vstd::std_specs::cmp::PartialEqSpecImpl for TermGrapheme {
    open spec fn obeys_eq_spec() -> bool {
        true
    }

    open spec fn eq_spec(&self, other: &Self) -> bool {
        self@ == other@
    }
}

impl TermGrapheme {
    /// The grapheme made of a single space.
    pub fn space() -> (r: Self)
        ensures
            r@ == seq![' '],
    {
        let content = String::from_str(" ");
        proof {
            reveal_strlit(" ");
        }
        TermGrapheme { content }
    }

    /// The grapheme made of a single horizontal ellipsis.
    pub(crate) fn ellipsis() -> (r: Self)
        ensures
            r@ == seq!['\u{2026}'],
    {
        let content = String::from_str("\u{2026}");
        proof {
            reveal_strlit("\u{2026}");
        }
        TermGrapheme { content }
    }

    /// The characters of the grapheme.
    pub fn as_str(&self) -> (r: &str)
        ensures
            r@ == self@,
    {
        self.content.as_str()
    }
}

impl Default for TermGrapheme {
    /// The grapheme made of a single space.
    fn default() -> (r: Self)
        ensures
            r@ == seq![' '],
    {
        Self::space()
    }
}

/// Appends a character to a string.
///
/// Calls `String::push`, which appends the character at the end of the
/// string.
#[verifier::external_body]
pub(crate) fn push_char(s: &mut String, c: char)
    ensures
        final(s)@ == old(s)@.push(c),
{
    s.push(c)
}

/// The replacement character, put in place of invalid characters.
pub const REPLACEMENT: char = '\u{FFFD}';

/// The characters of a string with every control character, and a diacritic
/// at the start, replaced by the replacement character.
pub open spec fn lossy_chars(s: Seq<char>) -> Seq<char> {
    Seq::new(
        s.len(),
        |i: int|
            if is_control(s[i]) || (i == 0 && is_diacritic(s[i])) {
                REPLACEMENT
            } else {
                s[i]
            },
    )
}

/// The characters of general category `Cc` (U+0000 to U+001F and U+007F to
/// U+009F) are exactly the ones a terminal string refuses: a string holding
/// one fails to validate with a control-character error, and the lossy
/// conversion replaces it; any other character past the start is kept as it
/// is by the lossy conversion.
pub proof fn lemma_control_characters(s: Seq<char>, i: int)
    requires
        0 <= i < s.len(),
    ensures
        (s[i] as u32) <= 0x1f || (0x7f <= (s[i] as u32) <= 0x9f) ==> {
            &&& validation_error(s) matches Some(TermStringError::InvalidControl(_))
            &&& lossy_chars(s)[i] == REPLACEMENT
        },
        i > 0 && !((s[i] as u32) <= 0x1f || (0x7f <= (s[i] as u32) <= 0x9f)) ==> lossy_chars(s)[i]
            == s[i],
        validation_error(s) is None ==> !((s[i] as u32) <= 0x1f || (0x7f <= (s[i] as u32)
            <= 0x9f)),
{
}

/// Whether the character is a control character.
fn char_is_control(c: char) -> (r: bool)
    ensures
        r == is_control(c),
{
    let code = c as u32;
    code <= 0x1f || (0x7f <= code && code <= 0x9f)
}

/// The number of bytes of the UTF-8 encoding of the character.
fn char_utf8_len(c: char) -> (r: usize)
    ensures
        r == utf8_len(c),
{
    let code = c as u32;
    if code < 0x80 {
        1
    } else if code < 0x800 {
        2
    } else if code < 0x10000 {
        3
    } else {
        4
    }
}

/// Whether the character is a diacritic, i.e. joins a preceding `'a'` into a
/// single grapheme cluster.
pub(crate) fn char_is_diacritic(c: char) -> (r: bool)
    ensures
        r == is_diacritic(c),
{
    let mut joined = String::new();
    push_char(&mut joined, 'a');
    push_char(&mut joined, c);
    let clusters = split_graphemes(joined.as_str());
    proof {
        assert(joined@ =~= seq!['a', c]);
        assert(clusters@.map_values(|g: String| g@).len() == clusters@.len());
    }
    clusters.len() <= 1
}

proof fn lemma_utf8_size_prefix(s: Seq<char>, i: int)
    requires
        0 <= i < s.len(),
    ensures
        utf8_size(s.take(i + 1)) == utf8_size(s.take(i)) + utf8_len(s[i]),
        utf8_size(s.take(i)) <= 4 * i,
        utf8_size(s.take(i)) >= 0,
    decreases i,
{
    assert(s.take(i + 1).drop_last() =~= s.take(i));
    if i > 0 {
        lemma_utf8_size_prefix(s, i - 1);
    } else {
        assert(s.take(0) =~= Seq::<char>::empty());
    }
}

/// The UTF-8 size of a prefix is at most that of the whole string.
proof fn lemma_utf8_size_prefix_bound(s: Seq<char>, i: int)
    requires
        0 <= i <= s.len(),
    ensures
        0 <= utf8_size(s.take(i)) <= utf8_size(s),
    decreases s.len(),
{
    if s.len() > 0 {
        let shorter = s.drop_last();
        if i == s.len() {
            lemma_utf8_size_prefix_bound(shorter, shorter.len() as int);
            assert(shorter.take(shorter.len() as int) =~= shorter);
            assert(s.take(i) =~= s);
        } else {
            lemma_utf8_size_prefix_bound(shorter, i);
            assert(shorter.take(i) =~= s.take(i));
        }
    } else {
        assert(s.take(i) =~= s);
    }
}

/// The validation error of a string, if any.
fn find_validation_error(s: &str) -> (r: Option<TermStringError>)
    requires
        utf8_size(s@) <= usize::MAX,
    ensures
        r == validation_error(s@),
{
    let len = s.unicode_len();
    let mut i: usize = 0;
    let mut position: usize = 0;
    while i < len
        invariant
            len == s@.len(),
            utf8_size(s@) <= usize::MAX,
            i <= len,
            position == utf8_size(s@.take(i as int)),
            forall|j: int| 0 <= j < i ==> !is_control(#[trigger] s@[j]),
        decreases len - i,
    {
        let c = s.get_char(i);
        proof {
            lemma_utf8_size_prefix(s@, i as int);
            lemma_utf8_size_prefix_bound(s@, i as int + 1);
        }
        if char_is_control(c) {
            proof {
                let k = choose|k: int|
                    0 <= k < s@.len() && is_control(#[trigger] s@[k]) && forall|j: int|
                        0 <= j < k ==> !is_control(#[trigger] s@[j]);
                assert(0 <= i < s@.len() && is_control(s@[i as int]) && forall|j: int|
                    0 <= j < i ==> !is_control(#[trigger] s@[j]));
                if k < i {
                    assert(!is_control(s@[k]));
                } else if k > i {
                    assert(!is_control(s@[i as int]));
                }
                assert(k == i);
            }
            return Some(TermStringError::InvalidControl(InvalidControl { position }));
        }
        position = position + char_utf8_len(c);
        i = i + 1;
    }
    if len > 0 && char_is_diacritic(s.get_char(0)) {
        Some(TermStringError::DiacriticAtStart(DiacriticAtStart))
    } else {
        None
    }
}

/// A string made of grapheme clusters usable in the terminal.
#[derive(Debug, Hash)]
pub struct TermString {
    graphemes: Vec<TermGrapheme>,
}

impl View for TermString {
    type V = Seq<Seq<char>>;

    closed spec fn view(&self) -> Seq<Seq<char>> {
        self.graphemes@.map_values(|g: TermGrapheme| g@)
    }
}

impl TermString {
    /// Builds a terminal string from grapheme strings.
    fn from_clusters(clusters: Vec<String>) -> (r: Self)
        ensures
            r@ == clusters@.map_values(|g: String| g@),
    {
        let mut graphemes: Vec<TermGrapheme> = Vec::new();
        let mut i: usize = 0;
        let mut clusters = clusters;
        let ghost given = clusters@;
        while i < clusters.len()
            invariant
                i <= clusters@.len(),
                clusters@.len() == given.len(),
                forall|j: int| i <= j < given.len() ==> clusters@[j]@ == given[j]@,
                graphemes@.len() == i,
                forall|j: int| 0 <= j < i ==> (#[trigger] graphemes@[j])@ == given[j]@,
            decreases given.len() - i,
        {
            let content = clusters[i].clone();
            graphemes.push(TermGrapheme { content });
            i = i + 1;
        }
        let r = TermString { graphemes };
        assert(r@ =~= given.map_values(|g: String| g@));
        r
    }

    /// Creates a terminal string from the given string, or returns the first
    /// problem found in it: a control character, or a diacritic at the start.
    /// The byte size of any `&str` fits a `usize`, so every string is accepted.
    pub fn new(s: &str) -> (r: Result<Self, TermStringError>)
        requires
            utf8_size(s@) <= usize::MAX,
        ensures
            r matches Ok(ts) ==> validation_error(s@) is None && ts@ == grapheme_clusters(s@)
                && flatten(ts@) == s@,
            r matches Err(e) ==> validation_error(s@) == Some(e),
    {
        match find_validation_error(s) {
            Some(error) => Err(error),
            None => Ok(Self::from_clusters(split_graphemes(s))),
        }
    }

    /// Creates a terminal string from the given string, replacing every
    /// control character, and a diacritic at the start, by the replacement
    /// character.
    pub fn new_lossy(s: &str) -> (r: Self)
        ensures
            r@ == grapheme_clusters(lossy_chars(s@)),
            flatten(r@) == lossy_chars(s@),
    {
        let len = s.unicode_len();
        let mut chars = String::new();
        let mut i: usize = 0;
        while i < len
            invariant
                len == s@.len(),
                i <= len,
                chars@ =~= lossy_chars(s@).take(i as int),
            decreases len - i,
        {
            let c = s.get_char(i);
            let replaced = if char_is_control(c) || (i == 0 && char_is_diacritic(c)) {
                REPLACEMENT
            } else {
                c
            };
            push_char(&mut chars, replaced);
            i = i + 1;
        }
        assert(chars@ =~= lossy_chars(s@));
        Self::from_clusters(split_graphemes(chars.as_str()))
    }

    /// The empty string.
    pub fn empty() -> (r: Self)
        ensures
            r@ == Seq::<Seq<char>>::empty(),
    {
        let r = TermString { graphemes: Vec::new() };
        assert(r@ =~= Seq::<Seq<char>>::empty());
        r
    }

    /// Number of grapheme clusters in this string.
    pub fn count_graphemes(&self) -> (r: usize)
        ensures
            r == self@.len(),
    {
        self.graphemes.len()
    }

    /// The grapheme at the given position.
    pub fn grapheme_at(&self, index: usize) -> (r: &TermGrapheme)
        requires
            index < self@.len(),
        ensures
            r@ == self@[index as int],
    {
        &self.graphemes[index]
    }

    /// The string made of the graphemes of the given range of positions.
    pub fn slice(&self, start: usize, end: usize) -> (r: Self)
        requires
            start <= end <= self@.len(),
        ensures
            r@ == self@.subrange(start as int, end as int),
    {
        let mut graphemes: Vec<TermGrapheme> = Vec::new();
        let mut i = start;
        while i < end
            invariant
                start <= i <= end,
                end <= self.graphemes@.len(),
                graphemes@.len() == i - start,
                forall|j: int|
                    0 <= j < i - start ==> (#[trigger] graphemes@[j])@ == self.graphemes@[start
                        + j]@,
            decreases end - i,
        {
            graphemes.push(self.graphemes[i].clone());
            i = i + 1;
        }
        let r = TermString { graphemes };
        assert(r@ =~= self@.subrange(start as int, end as int));
        r
    }

    /// Appends the graphemes of `other` at the end of this string.
    pub fn concat(&self, other: &TermString) -> (r: Self)
        ensures
            r@ == self@ + other@,
    {
        let mut graphemes: Vec<TermGrapheme> = Vec::new();
        let mut i: usize = 0;
        while i < self.graphemes.len()
            invariant
                i <= self.graphemes@.len(),
                graphemes@.len() == i,
                forall|j: int| 0 <= j < i ==> (#[trigger] graphemes@[j])@ == self.graphemes@[j]@,
            decreases self.graphemes@.len() - i,
        {
            graphemes.push(self.graphemes[i].clone());
            i = i + 1;
        }
        let mut k: usize = 0;
        while k < other.graphemes.len()
            invariant
                k <= other.graphemes@.len(),
                graphemes@.len() == self.graphemes@.len() + k,
                forall|j: int|
                    0 <= j < self.graphemes@.len() ==> (#[trigger] graphemes@[j])@
                        == self.graphemes@[j]@,
                forall|j: int|
                    0 <= j < k ==> (#[trigger] graphemes@[self.graphemes@.len() + j])@
                        == other.graphemes@[j]@,
            decreases other.graphemes@.len() - k,
        {
            graphemes.push(other.graphemes[k].clone());
            k = k + 1;
        }
        let r = TermString { graphemes };
        assert(r@ =~= self@ + other@) by {
            assert forall|j: int| 0 <= j < r@.len() implies r@[j] == (self@ + other@)[j] by {
                if j >= self.graphemes@.len() {
                    let d = j - self.graphemes@.len();
                    assert(graphemes@[self.graphemes@.len() + d]@ == other.graphemes@[d]@);
                }
            }
        }
        r
    }

    /// Appends a grapheme at the end of this string.
    pub fn push_grapheme(&self, grapheme: &TermGrapheme) -> (r: Self)
        ensures
            r@ == self@.push(grapheme@),
    {
        let single = TermString { graphemes: vec![grapheme.clone()] };
        assert(single@ =~= seq![grapheme@]);
        let r = self.concat(&single);
        assert(r@ =~= self@.push(grapheme@));
        r
    }

    /// The characters of this string, as a `String`.
    pub fn to_plain_string(&self) -> (r: String)
        ensures
            r@ == flatten(self@),
    {
        let mut out = String::new();
        let mut i: usize = 0;
        while i < self.graphemes.len()
            invariant
                i <= self.graphemes@.len(),
                out@ == flatten(self@.take(i as int)),
            decreases self.graphemes@.len() - i,
        {
            assert(self@.take(i + 1).drop_last() =~= self@.take(i as int));
            out.append(self.graphemes[i].as_str());
            i = i + 1;
        }
        assert(self@.take(self@.len() as int) =~= self@);
        out
    }
}

impl Clone for TermString {
    fn clone(&self) -> (r: Self)
        ensures
            r@ == self@,
    {
        self.slice(0, self.graphemes.len())
    }
}

impl Default for TermString {
    /// The empty string.
    fn default() -> (r: Self)
        ensures
            r@ == Seq::<Seq<char>>::empty(),
    {
        Self::empty()
    }
}

impl TermString {
    /// Whether two strings hold the same graphemes.
    fn same_graphemes(&self, other: &Self) -> (r: bool)
        ensures
            r == (self@ == other@),
    {
        if self.graphemes.len() != other.graphemes.len() {
            assert(self@.len() != other@.len());
            return false;
        }
        let mut i: usize = 0;
        while i < self.graphemes.len()
            invariant
                i <= self.graphemes@.len(),
                self.graphemes@.len() == other.graphemes@.len(),
                forall|j: int| 0 <= j < i ==> self@[j] == other@[j],
            decreases self.graphemes@.len() - i,
        {
            if !self.graphemes[i].eq(&other.graphemes[i]) {
                assert(self@[i as int] != other@[i as int]);
                return false;
            }
            i = i + 1;
        }
        assert(self@ =~= other@);
        true
    }
}

impl PartialEq for TermString {
    fn eq(&self, other: &Self) -> (r: bool) {
        self.same_graphemes(other)
    }
}

impl Eq for TermString {

}

impl vstd::std_specs::cmp::PartialEqSpecImpl for TermString {
    open spec fn obeys_eq_spec() -> bool {
        true
    }

    open spec fn eq_spec(&self, other: &Self) -> bool {
        self@ == other@
    }
}

} // verus!

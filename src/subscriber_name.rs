use unicode_segmentation::UnicodeSegmentation;
use vstd::prelude::*;

verus! {

/// The longest accepted name, in extended grapheme clusters.
pub const MAX_NAME_GRAPHEMES: usize = 256;

/// Number of extended grapheme clusters in a text, as Unicode segments it.
pub uninterp spec fn grapheme_count(s: Seq<char>) -> nat;

/// Relies on `UnicodeSegmentation::graphemes(true)` followed by `count`:
/// the result is the number of extended grapheme clusters of `s`; each
/// cluster holds at least one character, and an empty text has none.
#[verifier::external_body]
fn count_graphemes(s: &str) -> (r: usize)
    ensures
        r as nat == grapheme_count(s@),
        r <= s@.len(),
        s@.len() == 0 ==> r == 0,
{
    s.graphemes(true).count()
}

/// The characters with Unicode's White_Space property.
pub open spec fn is_white_space(c: char) -> bool {
    let u = c as u32;
    (0x09 <= u && u <= 0x0D) || u == 0x20 || u == 0x85 || u == 0xA0 || u == 0x1680 || (0x2000
        <= u && u <= 0x200A) || u == 0x2028 || u == 0x2029 || u == 0x202F || u == 0x205F || u
        == 0x3000
}

fn white_space(c: char) -> (r: bool)
    ensures
        r == is_white_space(c),
{
    let u = c as u32;
    (0x09 <= u && u <= 0x0D) || u == 0x20 || u == 0x85 || u == 0xA0 || u == 0x1680 || (0x2000
        <= u && u <= 0x200A) || u == 0x2028 || u == 0x2029 || u == 0x202F || u == 0x205F || u
        == 0x3000
}

/// Empty, or made of white space alone.
pub open spec fn is_blank(s: Seq<char>) -> bool {
    forall|i: int| 0 <= i < s.len() ==> is_white_space(#[trigger] s[i])
}

/// The characters a name may not hold.
pub open spec fn is_forbidden(c: char) -> bool {
    c == '/' || c == '(' || c == ')' || c == '"' || c == '<' || c == '>' || c == '\\' || c == '{'
        || c == '}'
}

pub open spec fn has_forbidden(s: Seq<char>) -> bool {
    exists|i: int| 0 <= i < s.len() && is_forbidden(#[trigger] s[i])
}

/// Why a text was refused as a subscriber's name.
#[derive(Debug, PartialEq, Eq)]
pub enum NameError {
    EmptyOrWhitespace,
    TooLong(String),
    ForbiddenCharacters(String),
}

impl NameError {
    /// A message for the one who submitted the name.
    pub fn message(&self) -> (r: String)
        ensures
            self is EmptyOrWhitespace ==> r@ == "name must not be empty"@,
            self is TooLong ==> r@ == "name must not be longer than 256 characters"@,
            self is ForbiddenCharacters ==> r@ == "name contains forbidden characters"@,
    {
        match self {
            NameError::EmptyOrWhitespace => String::from_str("name must not be empty"),
            NameError::TooLong(_) => String::from_str("name must not be longer than 256 characters"),
            NameError::ForbiddenCharacters(_) => String::from_str("name contains forbidden characters"),
        }
    }
}

/// The verdict on a candidate name: `None` when it is accepted, else the
/// first rule it breaks, with blankness checked before length and length
/// before forbidden characters.
pub open spec fn name_problem(s: Seq<char>) -> Option<NameProblem> {
    if is_blank(s) {
        Some(NameProblem::Blank)
    } else if grapheme_count(s) > MAX_NAME_GRAPHEMES {
        Some(NameProblem::Long)
    } else if has_forbidden(s) {
        Some(NameProblem::Forbidden)
    } else {
        None
    }
}

/// The rule that a refused name breaks.
pub enum NameProblem {
    Blank,
    Long,
    Forbidden,
}

/// Whether `e` is the error for `p` on the text `s`.
pub open spec fn name_error_is(e: NameError, p: NameProblem, s: Seq<char>) -> bool {
    match p {
        NameProblem::Blank => e is EmptyOrWhitespace,
        NameProblem::Long => e is TooLong && e->TooLong_0@ == s,
        NameProblem::Forbidden => e is ForbiddenCharacters && e->ForbiddenCharacters_0@ == s,
    }
}

/// A subscriber's name: not blank, at most 256 grapheme clusters, and free
/// of the forbidden characters.
#[derive(Debug)]
pub struct SubscriberName(String);

impl View for SubscriberName {
    type V = Seq<char>;

    closed spec fn view(&self) -> Seq<char> {
        self.0@
    }
}

impl SubscriberName {
    pub open spec fn valid(&self) -> bool {
        name_problem(self@) is None
    }

    #[verifier::type_invariant]
    spec fn inv(self) -> bool {
        name_problem(self.0@) is None
    }

    pub fn parse(s: String) -> (r: Result<SubscriberName, NameError>)
        ensures
            match name_problem(s@) {
                None => r is Ok && r->Ok_0@ == s@,
                Some(p) => r is Err && name_error_is(r->Err_0, p, s@),
            },
            r is Ok ==> r->Ok_0.valid(),
    {
        if is_blank_text(s.as_str()) {
            Err(NameError::EmptyOrWhitespace)
        } else if count_graphemes(s.as_str()) > MAX_NAME_GRAPHEMES {
            Err(NameError::TooLong(s))
        } else if holds_forbidden(s.as_str()) {
            Err(NameError::ForbiddenCharacters(s))
        } else {
            Ok(SubscriberName(s))
        }
    }

    pub fn as_ref(&self) -> (r: &str)
        ensures
            r@ == self@,
            self.valid(),
    {
        proof {
            use_type_invariant(self);
        }
        self.0.as_str()
    }
}

fn is_blank_text(s: &str) -> (r: bool)
    ensures
        r == is_blank(s@),
{
    let n = s.unicode_len();
    let mut i: usize = 0;
    while i < n
        invariant
            n == s@.len(),
            i <= n,
            forall|j: int| 0 <= j < i ==> is_white_space(#[trigger] s@[j]),
        decreases n - i,
    {
        if !white_space(s.get_char(i)) {
            return false;
        }
        i += 1;
    }
    true
}

fn forbidden(c: char) -> (r: bool)
    ensures
        r == is_forbidden(c),
{
    c == '/' || c == '(' || c == ')' || c == '"' || c == '<' || c == '>' || c == '\\' || c == '{'
        || c == '}'
}

fn holds_forbidden(s: &str) -> (r: bool)
    ensures
        r == has_forbidden(s@),
{
    let n = s.unicode_len();
    let mut i: usize = 0;
    while i < n
        invariant
            n == s@.len(),
            i <= n,
            forall|j: int| 0 <= j < i ==> !is_forbidden(#[trigger] s@[j]),
        decreases n - i,
    {
        if forbidden(s.get_char(i)) {
            return true;
        }
        i += 1;
    }
    false
}

} // verus!

verus! {

/// A name that holds a forbidden character is refused for it, unless it is
/// already refused for its length.
pub proof fn forbidden_characters_are_refused(s: Seq<char>)
    requires
        has_forbidden(s),
        grapheme_count(s) <= MAX_NAME_GRAPHEMES,
    ensures
        name_problem(s) == Some(NameProblem::Forbidden),
{
    let i = choose|i: int| 0 <= i < s.len() && is_forbidden(#[trigger] s[i]);
    assert(!is_white_space(s[i]));
}

/// A name longer than 256 grapheme clusters is refused for its length,
/// unless it is blank, which is checked first.
pub proof fn long_names_are_refused(s: Seq<char>)
    requires
        grapheme_count(s) > MAX_NAME_GRAPHEMES,
        !is_blank(s),
    ensures
        name_problem(s) == Some(NameProblem::Long),
{
}

/// An empty or white-space-only name is refused as such.
pub proof fn blank_names_are_refused(s: Seq<char>)
    requires
        is_blank(s),
    ensures
        name_problem(s) == Some(NameProblem::Blank),
{
}

} // verus!

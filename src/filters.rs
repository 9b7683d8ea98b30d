//! The rule sets a username is held against: an allowed character set, a
//! blacklist pattern, a profanity pattern, and case folding for collisions.
use vstd::prelude::*;

verus! {

/// Whether `pattern` matches somewhere in `text`, under the regex crate's syntax.
pub uninterp spec fn regex_finds(pattern: Seq<char>, text: Seq<char>) -> bool;

/// Whether `pattern` compiles under the regex crate's syntax and size limits.
pub uninterp spec fn regex_compiles(pattern: Seq<char>) -> bool;

/// Relies on regex::Regex::new, to compile `pattern` (which depends on the
/// pattern alone), and on Regex::is_match, which is true when the pattern
/// matches anywhere in `text`. A pattern that does not compile gives `None`.
#[verifier::external_body]
fn pattern_finds(pattern: &str, text: &str) -> (r: Option<bool>)
    ensures
        r is Some <==> regex_compiles(pattern@),
        r matches Some(b) ==> b == regex_finds(pattern@, text@),
{
    match regex::Regex::new(pattern) {
        Ok(re) => Some(re.is_match(text)),
        Err(_) => None,
    }
}

/// The case-folded form of a character: an ASCII capital becomes its small
/// letter, every other character stays.
pub open spec fn fold_char(c: char) -> char {
    if 'A' <= c && c <= 'Z' {
        ((c as u8) + 32) as u8 as char
    } else {
        c
    }
}

/// The case-folded form of a string, character by character.
pub open spec fn ascii_fold(s: Seq<char>) -> Seq<char> {
    Seq::new(s.len(), |i: int| fold_char(s[i]))
}

pub fn fold_char_exec(c: char) -> (r: char)
    ensures
        r == fold_char(c),
{
    if 'A' <= c && c <= 'Z' {
        ((c as u8) + 32) as char
    } else {
        c
    }
}

/// The case-folded form of `s`.
pub fn fold_case(s: &str) -> (r: Vec<char>)
    ensures
        r@ == ascii_fold(s@),
{
    let n = s.unicode_len();
    let mut out: Vec<char> = Vec::new();
    let mut i: usize = 0;
    while i < n
        invariant
            n == s@.len(),
            i <= n,
            out@.len() == i,
            forall|j: int| 0 <= j < i ==> out@[j] == fold_char(s@[j]),
        decreases n - i,
    {
        out.push(fold_char_exec(s.get_char(i)));
        i = i + 1;
    }
    assert(out@ =~= ascii_fold(s@));
    out
}

/// A character a username may hold: an ASCII letter or digit, `_`, `-` or `.`.
pub open spec fn allowed_char(c: char) -> bool {
    ('a' <= c && c <= 'z') || ('A' <= c && c <= 'Z') || ('0' <= c && c <= '9') || c == '_' || c
        == '-' || c == '.'
}

/// Every character of the string is allowed.
pub open spec fn chars_allowed(s: Seq<char>) -> bool {
    forall|i: int| 0 <= i < s.len() ==> allowed_char(#[trigger] s[i])
}

pub fn is_allowed_char(c: char) -> (r: bool)
    ensures
        r == allowed_char(c),
{
    ('a' <= c && c <= 'z') || ('A' <= c && c <= 'Z') || ('0' <= c && c <= '9') || c == '_' || c
        == '-' || c == '.'
}

/// Whether every character of `s` is allowed in a username.
pub fn all_chars_allowed(s: &str) -> (r: bool)
    ensures
        r == chars_allowed(s@),
{
    let n = s.unicode_len();
    let mut i: usize = 0;
    while i < n
        invariant
            n == s@.len(),
            i <= n,
            forall|j: int| 0 <= j < i ==> allowed_char(#[trigger] s@[j]),
        decreases n - i,
    {
        if !is_allowed_char(s.get_char(i)) {
            return false;
        }
        i = i + 1;
    }
    true
}

/// The character that `c` stands for under a look-alike table: the target of
/// the first entry whose source is `c`, or `c` itself.
pub open spec fn subst(c: char, t: Seq<(char, char)>) -> char
    decreases t.len(),
{
    if t.len() == 0 {
        c
    } else if t[0].0 == c {
        t[0].1
    } else {
        subst(c, t.drop_first())
    }
}

/// A string with each character replaced by the one it looks like.
pub open spec fn skeleton(s: Seq<char>, t: Seq<(char, char)>) -> Seq<char> {
    Seq::new(s.len(), |i: int| subst(s[i], t))
}

/// The character that `c` stands for under the look-alike table `t`.
pub fn substitute(c: char, t: &Vec<(char, char)>) -> (r: char)
    ensures
        r == subst(c, t@),
{
    proof {
        assert(t@.subrange(0, t@.len() as int) =~= t@);
    }
    let mut i: usize = 0;
    while i < t.len()
        invariant
            i <= t@.len(),
            subst(c, t@) == subst(c, t@.subrange(i as int, t@.len() as int)),
        decreases t@.len() - i,
    {
        proof {
            let rest = t@.subrange(i as int, t@.len() as int);
            assert(rest.drop_first() =~= t@.subrange(i + 1, t@.len() as int));
        }
        if t[i].0 == c {
            return t[i].1;
        }
        i = i + 1;
    }
    c
}

/// The look-alike skeleton of `s`, character by character.
pub fn skeleton_of(s: &Vec<char>, t: &Vec<(char, char)>) -> (r: Vec<char>)
    ensures
        r@ == skeleton(s@, t@),
{
    let n = s.len();
    let mut out: Vec<char> = Vec::new();
    let mut i: usize = 0;
    while i < n
        invariant
            n == s@.len(),
            i <= n,
            out@.len() == i,
            forall|j: int| 0 <= j < i ==> out@[j] == subst(s@[j], t@),
        decreases n - i,
    {
        out.push(substitute(s[i], t));
        i = i + 1;
    }
    assert(out@ =~= skeleton(s@, t@));
    out
}

/// Whether two character sequences are equal.
pub fn same_chars(a: &Vec<char>, b: &Vec<char>) -> (r: bool)
    ensures
        r == (a@ == b@),
{
    if a.len() != b.len() {
        return false;
    }
    let mut i: usize = 0;
    while i < a.len()
        invariant
            a@.len() == b@.len(),
            i <= a@.len(),
            forall|j: int| 0 <= j < i ==> a@[j] == b@[j],
        decreases a@.len() - i,
    {
        if a[i] != b[i] {
            return false;
        }
        i = i + 1;
    }
    assert(a@ =~= b@);
    true
}

/// The process-wide filter data, built once and only read afterwards: the
/// blacklist and profanity patterns, and a table of look-alike characters
/// (source, the character it is taken for) applied to case-folded names.
pub struct FilterRules {
    pub blacklist: String,
    pub profanity: String,
    pub lookalikes: Vec<(char, char)>,
}

impl FilterRules {
    pub fn new(blacklist: String, profanity: String, lookalikes: Vec<(char, char)>) -> (r: FilterRules)
        ensures
            r.blacklist == blacklist,
            r.profanity == profanity,
            r.lookalikes == lookalikes,
    {
        FilterRules { blacklist, profanity, lookalikes }
    }

    /// Whether the username matches a blacklisted term; `None` where the
    /// blacklist pattern does not compile.
    pub fn is_blacklisted(&self, username: &str) -> (r: Option<bool>)
        ensures
            r is Some <==> regex_compiles(self.blacklist@),
            r matches Some(b) ==> b == regex_finds(self.blacklist@, username@),
    {
        pattern_finds(self.blacklist.as_str(), username)
    }

    /// Whether the username matches a profane term; `None` where the
    /// profanity pattern does not compile.
    pub fn is_profane(&self, username: &str) -> (r: Option<bool>)
        ensures
            r is Some <==> regex_compiles(self.profanity@),
            r matches Some(b) ==> b == regex_finds(self.profanity@, username@),
    {
        pattern_finds(self.profanity.as_str(), username)
    }
}

} // verus!

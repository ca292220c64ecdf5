//! Lexing of plain-text model statements into tokens.
//!
//! A line is split into whitespace-separated fields; each field becomes
//! either a known statement keyword or a plain `Value` token carrying its
//! text.

use vstd::prelude::*;

use crate::error::{self, ParseError};

verus! {

/// One whitespace-separated field of a model statement: either a known
/// keyword or a plain value carrying its text.
#[derive(Debug, Clone)]
pub enum Token {
    Vertex,
    VertexTexture,
    VertexNormal,
    Face,
    SmoothingGroup,
    ObjectName,
    MaterailName,
    MaterialLibrary,
    Comment,
    Value(String),
}

/// Whether `s` is one of the statement keywords.
pub open spec fn is_statement_keyword(s: Seq<char>) -> bool {
    ||| s == "v"@
    ||| s == "vt"@
    ||| s == "vn"@
    ||| s == "f"@
    ||| s == "s"@
    ||| s == "o"@
    ||| s == "usemtl"@
    ||| s == "mtllib"@
    ||| s == "#"@
}

/// Whether `t` is the token the text `s` lexes to: the matching keyword
/// token when `s` is a keyword, a `Value` holding `s` otherwise.
pub open spec fn token_matches(t: Token, s: Seq<char>) -> bool {
    match t {
        Token::Vertex => s == "v"@,
        Token::VertexTexture => s == "vt"@,
        Token::VertexNormal => s == "vn"@,
        Token::Face => s == "f"@,
        Token::SmoothingGroup => s == "s"@,
        Token::ObjectName => s == "o"@,
        Token::MaterailName => s == "usemtl"@,
        Token::MaterialLibrary => s == "mtllib"@,
        Token::Comment => s == "#"@,
        Token::Value(v) => v@ == s && !is_statement_keyword(s),
    }
}

/// Whether `c` separates two fields of a statement line.
pub open spec fn is_field_separator(c: char) -> bool {
    c == ' ' || c == '\t' || c == '\r' || c == '\n'
}

/// The position just past the field that starts at `i`: the first position
/// at or after `i` holding a separator, or the end of the line.
pub open spec fn field_end(s: Seq<char>, i: int) -> int
    decreases s.len() - i,
{
    if i < 0 || i >= s.len() || is_field_separator(s[i]) {
        i
    } else {
        field_end(s, i + 1)
    }
}

/// The end of a field never lies before its start, nor past the line.
pub proof fn lemma_field_end_bounds(s: Seq<char>, i: int)
    requires
        0 <= i <= s.len(),
    ensures
        i <= field_end(s, i) <= s.len(),
    decreases s.len() - i,
{
    if i < s.len() && !is_field_separator(s[i]) {
        lemma_field_end_bounds(s, i + 1);
    }
}

/// The fields of the line from position `i` onward: maximal runs of
/// non-separator characters, in order.
pub open spec fn split_fields_from(s: Seq<char>, i: int) -> Seq<Seq<char>>
    decreases s.len() - i,
    via split_fields_from_decreases
{
    if i < 0 || i >= s.len() {
        Seq::empty()
    } else if is_field_separator(s[i]) {
        split_fields_from(s, i + 1)
    } else {
        seq![s.subrange(i, field_end(s, i))] + split_fields_from(s, field_end(s, i))
    }
}

#[via_fn]
proof fn split_fields_from_decreases(s: Seq<char>, i: int) {
    if 0 <= i < s.len() && !is_field_separator(s[i]) {
        lemma_field_end_bounds(s, i);
        assert(field_end(s, i) == field_end(s, i + 1));
        lemma_field_end_bounds(s, i + 1);
    }
}

/// The whitespace-separated fields of a statement line.
pub open spec fn split_fields(s: Seq<char>) -> Seq<Seq<char>> {
    split_fields_from(s, 0)
}

/// Whether `tokens` are exactly the tokens the given fields lex to.
pub open spec fn tokens_match_fields(tokens: Seq<Token>, fields: Seq<Seq<char>>) -> bool {
    &&& tokens.len() == fields.len()
    &&& forall|i: int| 0 <= i < tokens.len() ==> token_matches(tokens[i], fields[i])
}

/// A field ends exactly at the first separator at or after its start.
proof fn lemma_field_end_at(s: Seq<char>, i: int, j: int)
    requires
        0 <= i <= j <= s.len(),
        forall|k: int| i <= k < j ==> !is_field_separator(s[k]),
        j == s.len() || is_field_separator(s[j]),
    ensures
        field_end(s, i) == j,
    decreases j - i,
{
    if i < j {
        lemma_field_end_at(s, i + 1, j);
    }
}

/// Whether `c` separates two fields of a statement line.
fn is_separator(c: char) -> (r: bool)
    ensures
        r == is_field_separator(c),
{
    c == ' ' || c == '\t' || c == '\r' || c == '\n'
}

impl Token {
    /// The token one field of text lexes to.
    pub fn from(s: &str) -> (r: Token)
        ensures
            token_matches(r, s@),
    {
        if crate::str_eq(s, "v") {
            Token::Vertex
        } else if crate::str_eq(s, "vt") {
            Token::VertexTexture
        } else if crate::str_eq(s, "vn") {
            Token::VertexNormal
        } else if crate::str_eq(s, "f") {
            Token::Face
        } else if crate::str_eq(s, "s") {
            Token::SmoothingGroup
        } else if crate::str_eq(s, "o") {
            Token::ObjectName
        } else if crate::str_eq(s, "usemtl") {
            Token::MaterailName
        } else if crate::str_eq(s, "mtllib") {
            Token::MaterialLibrary
        } else if crate::str_eq(s, "#") {
            Token::Comment
        } else {
            Token::Value(String::from_str(s))
        }
    }

    /// Split a line into whitespace-separated fields and lex each field
    /// into its token.
    pub fn lex(line: &str) -> (r: Vec<Token>)
        ensures
            tokens_match_fields(r@, split_fields(line@)),
    {
        let len = line.unicode_len();
        let mut tokens: Vec<Token> = Vec::new();
        let ghost mut done: Seq<Seq<char>> = Seq::empty();
        let mut i: usize = 0;
        while i < len
            invariant
                len == line@.len(),
                0 <= i <= len,
                tokens_match_fields(tokens@, done),
                split_fields(line@) == done + split_fields_from(line@, i as int),
            decreases len - i,
        {
            let c = line.get_char(i);
            if is_separator(c) {
                i = i + 1;
            } else {
                let mut j: usize = i;
                while j < len && !is_separator(line.get_char(j))
                    invariant
                        len == line@.len(),
                        i <= j <= len,
                        forall|k: int| i <= k < j ==> !is_field_separator(line@[k]),
                    decreases len - j,
                {
                    j = j + 1;
                }
                proof {
                    lemma_field_end_at(line@, i as int, j as int);
                }
                let field = line.substring_char(i, j);
                let token = Token::from(field);
                tokens.push(token);
                proof {
                    done = done + seq![line@.subrange(i as int, j as int)];
                }
                i = j;
            }
        }
        proof {
            assert(split_fields_from(line@, i as int) =~= Seq::<Seq<char>>::empty());
            assert(done + split_fields_from(line@, i as int) =~= done);
        }
        tokens
    }

    /// Extract the text of a `Value` token; every keyword token is rejected.
    pub fn extract_value(&self) -> (r: Result<&String, ParseError>)
        ensures
            self matches Token::Value(s) ==> (r matches Ok(v) && v@ == s@),
            !(self is Value) ==> r == Err::<&String, ParseError>(ParseError::NonValueToken),
    {
        match self {
            Token::Value(s) => Ok(s),
            _ => Err(error::non_value_token()),
        }
    }
}

/// Dropping an end-of-line comment from a token list.
pub trait RemoveComment {
    /// Drop the first `Comment` token and everything after it.
    fn remove_comment(&mut self);
}

impl RemoveComment for Vec<Token> {
    fn remove_comment(&mut self) {
        strip_comment(self);
    }
}

/// Drop the first `Comment` token and everything after it: the list is
/// unchanged when it holds no comment, and cut just before the first
/// `Comment` otherwise.
pub fn strip_comment(tokens: &mut Vec<Token>)
    ensures
        (forall|i: int| 0 <= i < old(tokens)@.len() ==> !(old(tokens)@[i] is Comment))
            ==> final(tokens)@ == old(tokens)@,
        forall|k: int|
            (0 <= k < old(tokens)@.len() && old(tokens)@[k] is Comment && (forall|j: int|
                0 <= j < k ==> !(old(tokens)@[j] is Comment)))
                ==> final(tokens)@ == old(tokens)@.subrange(0, k),
{
    let mut i: usize = 0;
    while i < tokens.len()
        invariant
            0 <= i <= tokens@.len(),
            tokens@ == old(tokens)@,
            forall|j: int| 0 <= j < i ==> !(tokens@[j] is Comment),
        decreases tokens@.len() - i,
    {
        let found = match &tokens[i] {
            Token::Comment => true,
            _ => false,
        };
        if found {
            tokens.truncate(i);
            return;
        }
        i = i + 1;
    }
}

} // verus!

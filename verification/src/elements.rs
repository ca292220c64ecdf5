//! Parsing of face statements: decimal element references, slash-separated
//! reference groups, and the face statement itself.

use vstd::prelude::*;

use crate::error::{self, ParseError};
use crate::face::{
    face_lens_consistent, face_refs_in_bounds, recorded, ref_in_bounds, ElementCounts, Face,
};
use crate::token::Token;

verus! {

/// Whether `c` is a decimal digit.
pub open spec fn is_dec_digit(c: char) -> bool {
    48 <= c as int && c as int <= 57
}

/// Whether every character of `s` is a decimal digit.
pub open spec fn all_dec_digits(s: Seq<char>) -> bool {
    forall|i: int| 0 <= i < s.len() ==> is_dec_digit(#[trigger] s[i])
}

/// The value of a decimal digit string, most significant digit first.
pub open spec fn dec_value(s: Seq<char>) -> nat
    decreases s.len(),
{
    if s.len() == 0 {
        0
    } else {
        dec_value(s.drop_last()) * 10 + (s.last() as int - 48) as nat
    }
}

/// The value of a digit string never falls below the value of any of its
/// prefixes.
proof fn lemma_dec_value_prefix_le(s: Seq<char>, k: int)
    requires
        0 <= k <= s.len(),
    ensures
        dec_value(s.subrange(0, k)) <= dec_value(s),
    decreases s.len() - k,
{
    if k < s.len() {
        assert(s.subrange(0, k + 1).drop_last() =~= s.subrange(0, k));
        lemma_dec_value_prefix_le(s, k + 1);
    } else {
        assert(s.subrange(0, k) =~= s);
    }
}

/// Parse an optional one-based element reference: an empty string is an
/// absent reference, a decimal digit string whose value fits the machine
/// is a present one, and anything else is rejected.
pub fn parse_usize(s: &String) -> (r: Result<Option<usize>, ParseError>)
    ensures
        s@.len() == 0 ==> r == Ok::<Option<usize>, ParseError>(None),
        s@.len() > 0 && all_dec_digits(s@) && dec_value(s@) <= usize::MAX ==> r == Ok::<
            Option<usize>,
            ParseError,
        >(Some(dec_value(s@) as usize)),
        s@.len() > 0 && !(all_dec_digits(s@) && dec_value(s@) <= usize::MAX) ==> (r matches Err(e)
            && e is Custom),
{
    let n = s.as_str().unicode_len();
    if n == 0 {
        return Ok(None);
    }
    let mut acc: usize = 0;
    let mut i: usize = 0;
    while i < n
        invariant
            n == s@.len(),
            0 <= i <= n,
            all_dec_digits(s@.subrange(0, i as int)),
            acc == dec_value(s@.subrange(0, i as int)),
        decreases n - i,
    {
        let c = s.as_str().get_char(i);
        let code = c as u32;
        if code < 48 || code > 57 {
            assert(!all_dec_digits(s@)) by {
                assert(!is_dec_digit(s@[i as int]));
            }
            return Err(error::custom(String::from_str("invalid unsigned number")));
        }
        let digit = (code - 48) as usize;
        let next = match acc.checked_mul(10) {
            Some(m) => m.checked_add(digit),
            None => None,
        };
        proof {
            assert(s@.subrange(0, i + 1).drop_last() =~= s@.subrange(0, i as int));
        }
        match next {
            Some(value) => {
                acc = value;
                i = i + 1;
            },
            None => {
                proof {
                    assert(dec_value(s@.subrange(0, i + 1)) > usize::MAX);
                    lemma_dec_value_prefix_le(s@, i + 1);
                }
                return Err(error::custom(String::from_str("unsigned number too large")));
            },
        }
    }
    proof {
        assert(s@.subrange(0, n as int) =~= s@);
    }
    Ok(Some(acc))
}

/// Parse an element reference that may be missing altogether.
pub fn parse_optional_usize(opt: Option<&String>) -> (r: Result<Option<usize>, ParseError>)
    ensures
        opt is None ==> r == Ok::<Option<usize>, ParseError>(None),
        opt matches Some(s) ==> {
            &&& (s@.len() == 0 ==> r == Ok::<Option<usize>, ParseError>(None))
            &&& (s@.len() > 0 && all_dec_digits(s@) && dec_value(s@) <= usize::MAX ==> r == Ok::<
                Option<usize>,
                ParseError,
            >(Some(dec_value(s@) as usize)))
            &&& (s@.len() > 0 && !(all_dec_digits(s@) && dec_value(s@) <= usize::MAX) ==> (
            r matches Err(e) && e is Custom))
        },
{
    match opt {
        Some(s) => parse_usize(s),
        None => Ok(None),
    }
}

/// The position of the first slash at or after `i`, or the end of the
/// text.
pub open spec fn slash_end(s: Seq<char>, i: int) -> int
    decreases s.len() - i,
{
    if i < 0 || i >= s.len() || s[i] == '/' {
        i
    } else {
        slash_end(s, i + 1)
    }
}

/// The first slash never lies before the search start, nor past the text.
proof fn lemma_slash_end_bounds(s: Seq<char>, i: int)
    requires
        0 <= i <= s.len(),
    ensures
        i <= slash_end(s, i) <= s.len(),
    decreases s.len() - i,
{
    if i < s.len() && s[i] != '/' {
        lemma_slash_end_bounds(s, i + 1);
    }
}

/// A group ends exactly at the first slash at or after its start.
proof fn lemma_slash_end_at(s: Seq<char>, i: int, j: int)
    requires
        0 <= i <= j <= s.len(),
        forall|k: int| i <= k < j ==> s[k] != '/',
        j == s.len() || s[j] == '/',
    ensures
        slash_end(s, i) == j,
    decreases j - i,
{
    if i < j {
        lemma_slash_end_at(s, i + 1, j);
    }
}

/// The slash-separated groups of the text from position `i` onward.  A
/// text without slashes is one group, and every slash separates two
/// (possibly empty) groups.
pub open spec fn split_args_from(s: Seq<char>, i: int) -> Seq<Seq<char>>
    decreases s.len() - i,
    via split_args_from_decreases
{
    if i < 0 || i > s.len() {
        Seq::empty()
    } else if slash_end(s, i) >= s.len() {
        seq![s.subrange(i, s.len() as int)]
    } else {
        seq![s.subrange(i, slash_end(s, i))] + split_args_from(s, slash_end(s, i) + 1)
    }
}

#[via_fn]
proof fn split_args_from_decreases(s: Seq<char>, i: int) {
    if 0 <= i <= s.len() {
        lemma_slash_end_bounds(s, i);
    }
}

/// The slash-separated groups of one face argument.
pub open spec fn split_args(s: Seq<char>) -> Seq<Seq<char>> {
    split_args_from(s, 0)
}

/// Whether `parts` are exactly the given character sequences.
pub open spec fn strings_match_seqs(parts: Seq<String>, seqs: Seq<Seq<char>>) -> bool {
    &&& parts.len() == seqs.len()
    &&& forall|i: int| 0 <= i < parts.len() ==> parts[i]@ == seqs[i]
}

/// Split one face argument at its slashes.
fn split_slashes(s: &str) -> (r: Vec<String>)
    ensures
        strings_match_seqs(r@, split_args(s@)),
{
    let len = s.unicode_len();
    let mut parts: Vec<String> = Vec::new();
    let ghost mut done: Seq<Seq<char>> = Seq::empty();
    let mut i: usize = 0;
    loop
        invariant
            len == s@.len(),
            0 <= i <= len,
            strings_match_seqs(parts@, done),
            split_args(s@) == done + split_args_from(s@, i as int),
        decreases len - i,
    {
        let mut j: usize = i;
        while j < len && s.get_char(j) != '/'
            invariant
                len == s@.len(),
                i <= j <= len,
                forall|k: int| i <= k < j ==> s@[k] != '/',
            decreases len - j,
        {
            j = j + 1;
        }
        proof {
            lemma_slash_end_at(s@, i as int, j as int);
        }
        let part = s.substring_char(i, j);
        parts.push(String::from_str(part));
        proof {
            done = done + seq![s@.subrange(i as int, j as int)];
        }
        if j < len {
            i = j + 1;
        } else {
            proof {
                assert(split_args_from(s@, i as int) == seq![s@.subrange(i as int, j as int)]);
            }
            return parts;
        }
    }
}

/// Whether one group parses as an optional element reference: empty, or a
/// decimal value that fits the machine.
pub open spec fn ref_parse_ok(f: Seq<char>) -> bool {
    f.len() == 0 || (all_dec_digits(f) && dec_value(f) <= usize::MAX)
}

/// The optional element reference one group parses to.
pub open spec fn ref_parsed(f: Seq<char>) -> Option<usize> {
    if f.len() == 0 {
        None
    } else {
        Some(dec_value(f) as usize)
    }
}

/// Whether every present group of a face argument parses.
pub open spec fn fields_parse_ok(fs: Seq<Seq<char>>) -> bool {
    &&& ref_parse_ok(fs[0])
    &&& (fs.len() >= 2 ==> ref_parse_ok(fs[1]))
    &&& (fs.len() >= 3 ==> ref_parse_ok(fs[2]))
}

/// The vertex reference of a face argument.
pub open spec fn parsed_v(fs: Seq<Seq<char>>) -> Option<usize> {
    ref_parsed(fs[0])
}

/// The texture reference of a face argument.
pub open spec fn parsed_vt(fs: Seq<Seq<char>>) -> Option<usize> {
    if fs.len() >= 2 {
        ref_parsed(fs[1])
    } else {
        None
    }
}

/// The normal reference of a face argument.
pub open spec fn parsed_vn(fs: Seq<Seq<char>>) -> Option<usize> {
    if fs.len() >= 3 {
        ref_parsed(fs[2])
    } else {
        None
    }
}

/// A face in progress, reduced to its three reference lists.
pub open spec fn face_model(face: Face) -> (Seq<usize>, Seq<usize>, Seq<usize>) {
    (face.vertices@, face.vertices_texture@, face.vertices_normal@)
}

/// Whether a face model's reference lists are consistent, as
/// `face_lens_consistent` asks of the face itself.
pub open spec fn model_lens_consistent(m: (Seq<usize>, Seq<usize>, Seq<usize>)) -> bool {
    &&& (m.1.len() == m.0.len() || m.1.len() == 0)
    &&& (m.2.len() == m.0.len() || m.2.len() == 0)
}

/// What one face argument does to a face in progress: `None` when the
/// argument is rejected — not a plain value, too many groups, a group
/// that does not parse, a reference out of bounds, or an inconsistent
/// result — and the extended model otherwise.
pub open spec fn face_arg_step(
    m: (Seq<usize>, Seq<usize>, Seq<usize>),
    token: Token,
    counts: ElementCounts,
) -> Option<(Seq<usize>, Seq<usize>, Seq<usize>)> {
    match token {
        Token::Value(s) => {
            let fs = split_args(s@);
            if fs.len() > 3 || !fields_parse_ok(fs) {
                None
            } else if !ref_in_bounds(parsed_v(fs), counts.vertices) || !ref_in_bounds(
                parsed_vt(fs),
                counts.vertices_texture,
            ) || !ref_in_bounds(parsed_vn(fs), counts.vertices_normal) {
                None
            } else {
                let extended = (
                    recorded(m.0, parsed_v(fs)),
                    recorded(m.1, parsed_vt(fs)),
                    recorded(m.2, parsed_vn(fs)),
                );
                if model_lens_consistent(extended) {
                    Some(extended)
                } else {
                    None
                }
            }
        },
        _ => None,
    }
}

/// The face built by the arguments from position `k` onward, starting
/// from the model `m`; `None` as soon as one argument is rejected.
pub open spec fn face_parse_fold(
    tokens: Seq<Token>,
    k: int,
    m: (Seq<usize>, Seq<usize>, Seq<usize>),
    counts: ElementCounts,
) -> Option<(Seq<usize>, Seq<usize>, Seq<usize>)>
    decreases tokens.len() - k,
{
    if k < 0 || k >= tokens.len() {
        Some(m)
    } else {
        match face_arg_step(m, tokens[k], counts) {
            None => None,
            Some(extended) => face_parse_fold(tokens, k + 1, extended, counts),
        }
    }
}

/// The face a whole argument list builds, when every argument is accepted.
pub open spec fn parsed_face(tokens: Seq<Token>, counts: ElementCounts) -> Option<
    (Seq<usize>, Seq<usize>, Seq<usize>),
> {
    face_parse_fold(tokens, 0, (Seq::empty(), Seq::empty(), Seq::empty()), counts)
}

impl Face {
    /// Parse one argument of a face statement — `v`, `v/vt`, `v/vt/vn` or
    /// `v//vn`, each reference optional — validate its references against
    /// the mesh's element counts, record them, and check the face stays
    /// consistent.
    pub fn argument_parse(&mut self, token: &Token, counts: &ElementCounts) -> (r: Result<
        (),
        ParseError,
    >)
        ensures
            !(token is Value) ==> r == Err::<(), ParseError>(ParseError::NonValueToken)
                && final(self).vertices@ == old(self).vertices@
                && final(self).vertices_texture@ == old(self).vertices_texture@
                && final(self).vertices_normal@ == old(self).vertices_normal@,
            token matches Token::Value(s) ==> ({
                let fs = split_args(s@);
                let v = parsed_v(fs);
                let vt = parsed_vt(fs);
                let vn = parsed_vn(fs);
                &&& (fs.len() > 3 ==> (r matches Err(e) && e matches
                    ParseError::InvalidArgumentLength { expected_min, expected_max, received }
                    && expected_min == 1 && expected_max == Some(3usize) && received == fs.len())
                    && final(self).vertices@ == old(self).vertices@
                    && final(self).vertices_texture@ == old(self).vertices_texture@
                    && final(self).vertices_normal@ == old(self).vertices_normal@)
                &&& (fs.len() <= 3 && !fields_parse_ok(fs) ==> (r matches Err(e) && e is Custom)
                    && final(self).vertices@ == old(self).vertices@
                    && final(self).vertices_texture@ == old(self).vertices_texture@
                    && final(self).vertices_normal@ == old(self).vertices_normal@)
                &&& (fs.len() <= 3 && fields_parse_ok(fs) ==> {
                    &&& (!ref_in_bounds(v, counts.vertices) ==> r == Err::<(), ParseError>(
                        ParseError::IndexOutOfBound { index: v->0, len: counts.vertices },
                    ) && final(self).vertices@ == old(self).vertices@
                        && final(self).vertices_texture@ == old(self).vertices_texture@
                        && final(self).vertices_normal@ == old(self).vertices_normal@)
                    &&& (ref_in_bounds(v, counts.vertices) ==> final(self).vertices@ == recorded(
                        old(self).vertices@,
                        v,
                    ))
                    &&& (ref_in_bounds(v, counts.vertices) && !ref_in_bounds(
                        vt,
                        counts.vertices_texture,
                    ) ==> r == Err::<(), ParseError>(
                        ParseError::IndexOutOfBound { index: vt->0, len: counts.vertices_texture },
                    ) && final(self).vertices_texture@ == old(self).vertices_texture@
                        && final(self).vertices_normal@ == old(self).vertices_normal@)
                    &&& (ref_in_bounds(v, counts.vertices) && ref_in_bounds(
                        vt,
                        counts.vertices_texture,
                    ) ==> final(self).vertices_texture@ == recorded(
                        old(self).vertices_texture@,
                        vt,
                    ))
                    &&& (ref_in_bounds(v, counts.vertices) && ref_in_bounds(
                        vt,
                        counts.vertices_texture,
                    ) && !ref_in_bounds(vn, counts.vertices_normal) ==> r == Err::<
                        (),
                        ParseError,
                    >(ParseError::IndexOutOfBound { index: vn->0, len: counts.vertices_normal })
                        && final(self).vertices_normal@ == old(self).vertices_normal@)
                    &&& (ref_in_bounds(v, counts.vertices) && ref_in_bounds(
                        vt,
                        counts.vertices_texture,
                    ) && ref_in_bounds(vn, counts.vertices_normal)
                        ==> final(self).vertices_normal@ == recorded(old(self).vertices_normal@, vn)
                        && (
                    face_lens_consistent(*final(self)) ==> r is Ok) && (!face_lens_consistent(
                        *final(self),
                    ) ==> r == Err::<(), ParseError>(ParseError::InvalidStatement)))
                })
            }),
            r is Ok ==> token is Value && face_lens_consistent(*final(self)),
            r is Ok && face_refs_in_bounds(*old(self), *counts) ==> face_refs_in_bounds(
                *final(self),
                *counts,
            ),
            r is Ok ==> final(self).vertices@.len() <= old(self).vertices@.len() + 1,
            r is Ok <==> face_arg_step(face_model(*old(self)), *token, *counts) is Some,
            r is Ok ==> face_model(*final(self)) == face_arg_step(
                face_model(*old(self)),
                *token,
                *counts,
            )->0,
    {
        let value = match token.extract_value() {
            Ok(v) => v,
            Err(e) => {
                return Err(e);
            },
        };
        let parameters = split_slashes(value.as_str());
        if parameters.len() < 1 || parameters.len() > 3 {
            return Err(error::invalid_argument_length(1, Some(3), parameters.len()));
        }
        let v = match parse_usize(&parameters[0]) {
            Ok(v) => v,
            Err(e) => {
                return Err(e);
            },
        };
        let vt = match parse_optional_usize(if parameters.len() >= 2 {
            Some(&parameters[1])
        } else {
            None
        }) {
            Ok(v) => v,
            Err(e) => {
                return Err(e);
            },
        };
        let vn = match parse_optional_usize(if parameters.len() >= 3 {
            Some(&parameters[2])
        } else {
            None
        }) {
            Ok(v) => v,
            Err(e) => {
                return Err(e);
            },
        };
        if let Err(e) = self.push_arg(v, vt, vn, counts) {
            return Err(e);
        }
        if let Err(e) = self.check_vector_len() {
            return Err(e);
        }
        Ok(())
    }

    /// Parse a face statement's arguments — at least three, one vertex per
    /// argument — into a face whose references are all validated against
    /// the mesh's element counts.  Succeeds exactly when every argument is
    /// accepted, and then returns the face the arguments build.
    pub fn parse(tokens: Vec<Token>, counts: &ElementCounts) -> (r: Result<Face, ParseError>)
        ensures
            tokens@.len() < 3 ==> (r matches Err(e) && e matches
                ParseError::InvalidArgumentLength { expected_min, expected_max, received }
                && expected_min == 3 && expected_max is None && received == tokens@.len()),
            tokens@.len() >= 3 ==> (r is Ok <==> parsed_face(tokens@, *counts) is Some),
            r matches Ok(face) ==> face_model(face) == parsed_face(tokens@, *counts)->0,
            r matches Ok(face) ==> {
                &&& tokens@.len() >= 3
                &&& face_lens_consistent(face)
                &&& face_refs_in_bounds(face, *counts)
                &&& (forall|i: int| 0 <= i < tokens@.len() ==> tokens@[i] is Value)
                &&& face.vertices@.len() <= tokens@.len()
            },
    {
        let mut face = Face::new();
        if tokens.len() < 3 {
            return Err(error::invalid_argument_length(3, None, tokens.len()));
        }
        let mut idx: usize = 0;
        while idx < tokens.len()
            invariant
                0 <= idx <= tokens@.len(),
                tokens@.len() >= 3,
                face_lens_consistent(face),
                face_refs_in_bounds(face, *counts),
                forall|i: int| 0 <= i < idx ==> tokens@[i] is Value,
                face.vertices@.len() <= idx,
                parsed_face(tokens@, *counts) == face_parse_fold(
                    tokens@,
                    idx as int,
                    face_model(face),
                    *counts,
                ),
            decreases tokens@.len() - idx,
        {
            if let Err(e) = face.argument_parse(&tokens[idx], counts) {
                return Err(e);
            }
            idx = idx + 1;
        }
        Ok(face)
    }
}

} // verus!

//! A mesh face as validated element references: for each referenced
//! element kind, the zero-based positions into the mesh's element lists.

use vstd::prelude::*;

use crate::error::{self, ParseError};

verus! {

/// One face of the mesh.  Each list holds zero-based positions into the
/// corresponding element list of the mesh, already checked to be in
/// bounds.
#[derive(Debug, Clone)]
pub struct Face {
    pub vertices: Vec<usize>,
    pub vertices_texture: Vec<usize>,
    pub vertices_normal: Vec<usize>,
}

/// How many elements of each kind the mesh holds so far; face references
/// are validated against these.
#[derive(Debug, Clone, Copy, PartialEq, Eq, Structural)]
pub struct ElementCounts {
    pub vertices: usize,
    pub vertices_texture: usize,
    pub vertices_normal: usize,
}

/// Whether an optional one-based element reference addresses an element of
/// a list of length `len` (an absent reference is always in order).
pub open spec fn ref_in_bounds(opt: Option<usize>, len: usize) -> bool {
    opt matches Some(index) ==> 1 <= index <= len
}

/// The reference list after recording an optional one-based reference:
/// unchanged for an absent reference, extended by the zero-based position
/// otherwise.
pub open spec fn recorded(s: Seq<usize>, opt: Option<usize>) -> Seq<usize> {
    match opt {
        None => s,
        Some(index) => s.push((index - 1) as usize),
    }
}

/// Whether the face's reference lists are consistent: texture and normal
/// references are either absent from every argument or present in every
/// argument.
pub open spec fn face_lens_consistent(face: Face) -> bool {
    &&& (face.vertices_texture@.len() == face.vertices@.len() || face.vertices_texture@.len()
        == 0)
    &&& (face.vertices_normal@.len() == face.vertices@.len() || face.vertices_normal@.len() == 0)
}

/// Whether every recorded reference addresses an element that exists.
pub open spec fn face_refs_in_bounds(face: Face, counts: ElementCounts) -> bool {
    &&& (forall|i: int| 0 <= i < face.vertices@.len() ==> face.vertices@[i] < counts.vertices)
    &&& (forall|i: int| 0 <= i < face.vertices_texture@.len() ==> face.vertices_texture@[i]
        < counts.vertices_texture)
    &&& (forall|i: int| 0 <= i < face.vertices_normal@.len() ==> face.vertices_normal@[i]
        < counts.vertices_normal)
}

impl Face {
    /// A face with no references yet.
    pub fn new() -> (r: Face)
        ensures
            r.vertices@ =~= Seq::<usize>::empty(),
            r.vertices_texture@ =~= Seq::<usize>::empty(),
            r.vertices_normal@ =~= Seq::<usize>::empty(),
    {
        Face { vertices: vec![], vertices_texture: vec![], vertices_normal: vec![] }
    }

    /// Record one argument's references: the vertex reference, then the
    /// texture reference, then the normal reference, stopping at the first
    /// reference that addresses no existing element.
    pub fn push_arg(
        &mut self,
        v: Option<usize>,
        vt: Option<usize>,
        vn: Option<usize>,
        counts: &ElementCounts,
    ) -> (r: Result<(), ParseError>)
        ensures
            r is Ok <==> ref_in_bounds(v, counts.vertices) && ref_in_bounds(
                vt,
                counts.vertices_texture,
            ) && ref_in_bounds(vn, counts.vertices_normal),
            !ref_in_bounds(v, counts.vertices) ==> r == Err::<(), ParseError>(
                ParseError::IndexOutOfBound { index: v->0, len: counts.vertices },
            ) && final(self).vertices@ == old(self).vertices@ && final(self).vertices_texture@
                == old(self).vertices_texture@ && final(self).vertices_normal@
                == old(self).vertices_normal@,
            ref_in_bounds(v, counts.vertices) && !ref_in_bounds(vt, counts.vertices_texture)
                ==> r == Err::<(), ParseError>(
                ParseError::IndexOutOfBound { index: vt->0, len: counts.vertices_texture },
            ),
            ref_in_bounds(v, counts.vertices) && ref_in_bounds(vt, counts.vertices_texture)
                && !ref_in_bounds(vn, counts.vertices_normal) ==> r == Err::<(), ParseError>(
                ParseError::IndexOutOfBound { index: vn->0, len: counts.vertices_normal },
            ),
            ref_in_bounds(v, counts.vertices) ==> final(self).vertices@ == recorded(
                old(self).vertices@,
                v,
            ) && final(self).vertices_texture@ == (if ref_in_bounds(
                vt,
                counts.vertices_texture,
            ) {
                recorded(old(self).vertices_texture@, vt)
            } else {
                old(self).vertices_texture@
            }) && final(self).vertices_normal@ == (if ref_in_bounds(vt, counts.vertices_texture)
                && ref_in_bounds(vn, counts.vertices_normal) {
                recorded(old(self).vertices_normal@, vn)
            } else {
                old(self).vertices_normal@
            }),
    {
        if let Err(e) = push(v, &mut self.vertices, counts.vertices) {
            return Err(e);
        }
        if let Err(e) = push(vt, &mut self.vertices_texture, counts.vertices_texture) {
            return Err(e);
        }
        if let Err(e) = push(vn, &mut self.vertices_normal, counts.vertices_normal) {
            return Err(e);
        }
        Ok(())
    }

    /// Check that the reference lists recorded so far are consistent with
    /// one another.
    pub fn check_vector_len(&self) -> (r: Result<(), ParseError>)
        ensures
            r is Ok <==> face_lens_consistent(*self),
            !face_lens_consistent(*self) ==> r == Err::<(), ParseError>(
                ParseError::InvalidStatement,
            ),
    {
        let v_len = self.vertices.len();
        let vt_len = self.vertices_texture.len();
        let vn_len = self.vertices_normal.len();
        if (vt_len != v_len && vt_len != 0) || (vn_len != v_len && vn_len != 0) {
            return Err(error::invalid_statement());
        }
        Ok(())
    }
}

/// Record one optional one-based reference into a face's reference list,
/// after checking it addresses one of the `source_len` existing elements.
fn push(opt: Option<usize>, face_vec: &mut Vec<usize>, source_len: usize) -> (r: Result<
    (),
    ParseError,
>)
    ensures
        r is Ok <==> ref_in_bounds(opt, source_len),
        ref_in_bounds(opt, source_len) ==> final(face_vec)@ == recorded(old(face_vec)@, opt),
        !ref_in_bounds(opt, source_len) ==> r == Err::<(), ParseError>(
            ParseError::IndexOutOfBound { index: opt->0, len: source_len },
        ) && final(face_vec)@ == old(face_vec)@,
{
    if let Some(index) = opt {
        if 1 <= index && index <= source_len {
            face_vec.push(index - 1);
        } else {
            return Err(error::index_out_of_bound(index, source_len));
        }
    }
    Ok(())
}

} // verus!

//! Validation of the user-written entry function's signature.
//!
//! The loader ABI invokes the emitted entry symbol with no declared
//! parameters, so the transform accepts exactly one shape of entry
//! function: a single parameter of borrowed-`u8`-slice type. Validation
//! succeeds precisely on that shape and then clears the parameter list;
//! any other shape yields a diagnostic describing what was found.
//!
//! The element type of the slice is matched on the final segment of its
//! path alone, so any module-qualification prefix is accepted. This is a
//! deliberate looseness: an unrelated type whose final segment is also
//! named `u8` would be accepted too.

use vstd::prelude::*;
use vstd::string::StringExecFns;

verus! {

/// The shape of a declared type, as far as signature validation reads it:
/// references, slices, and named (path) types with their segment names.
/// Every other form of type is `Opaque`; validation never looks inside it.
#[derive(Debug)]
pub enum TypeShape {
    /// A borrowed type, `&T`.
    Reference { elem: Box<TypeShape> },
    /// A slice type, `[T]`.
    Slice { elem: Box<TypeShape> },
    /// A possibly module-qualified named type, one string per path segment.
    Named { segments: Vec<String> },
    /// Any other form of type.
    Opaque,
}

/// One declared parameter of the candidate entry function.
#[derive(Debug)]
pub enum ParamShape {
    /// A regular `name: type` parameter.
    Typed { ty: TypeShape },
    /// An irregular, untyped parameter form (such as a receiver).
    Irregular,
}

/// The declared signature of the candidate entry function, as far as
/// validation reads and rewrites it: its parameter list. The return type
/// and body are left untouched and are not represented here.
#[derive(Debug)]
pub struct SignatureShape {
    pub params: Vec<ParamShape>,
}

/// A diagnostic raised by signature validation. The caller attaches it to
/// the offending signature's source span.
#[derive(Clone, Copy, PartialEq, Eq, Structural, Debug)]
pub enum SigError {
    /// The parameter count is not one; carries the observed count.
    WrongParamCount { found: usize },
    /// The single parameter's type is not a borrowed slice of `u8`.
    NotByteSlice,
    /// The single parameter is an irregular (untyped) form.
    Irregular,
}

/// Whether a type is a borrowed slice of `u8`: a reference to a slice
/// whose element is a named type whose final path segment is `u8`.
pub open spec fn is_byte_slice(t: TypeShape) -> bool {
    match t {
        TypeShape::Reference { elem } => match *elem {
            TypeShape::Slice { elem: inner } => match *inner {
                TypeShape::Named { segments } => segments@.len() > 0 && segments@.last()@
                    == "u8"@,
                _ => false,
            },
            _ => false,
        },
        _ => false,
    }
}

/// Decides whether `ty` is a borrowed slice of `u8`, matching the slice's
/// element type on the final segment of its path alone.
pub fn is_u8_slice(ty: &TypeShape) -> (r: bool)
    ensures
        r == is_byte_slice(*ty),
{
    match ty {
        TypeShape::Reference { elem } => match &**elem {
            TypeShape::Slice { elem: inner } => match &**inner {
                TypeShape::Named { segments } => {
                    if segments.len() > 0 {
                        let expected: String = String::from_str("u8");
                        segments[segments.len() - 1] == expected
                    } else {
                        false
                    }
                },
                _ => false,
            },
            _ => false,
        },
        _ => false,
    }
}

/// What validation decides for a given signature: success exactly when it
/// declares one parameter, typed, of borrowed-`u8`-slice shape; otherwise
/// the diagnostic for the first failing condition, the observed parameter
/// count included when the count is what is wrong.
pub open spec fn validation_of(s: SignatureShape) -> Result<(), SigError> {
    if s.params@.len() != 1 {
        Err(SigError::WrongParamCount { found: s.params@.len() as usize })
    } else {
        match s.params@[0] {
            ParamShape::Typed { ty } => if is_byte_slice(ty) {
                Ok(())
            } else {
                Err(SigError::NotByteSlice)
            },
            ParamShape::Irregular => Err(SigError::Irregular),
        }
    }
}

/// Validates and normalizes the entry function's signature. Succeeds if
/// and only if the signature declares exactly one parameter whose type is
/// a borrowed slice of `u8`; on success the parameter list is cleared, so
/// the emitted function declares no parameters, and on failure the
/// signature is left unchanged.
pub fn verify_sig(sig: &mut SignatureShape) -> (r: Result<(), SigError>)
    ensures
        r == validation_of(*old(sig)),
        r is Ok ==> final(sig).params@.len() == 0,
        r is Err ==> *final(sig) == *old(sig),
{
    let n = sig.params.len();
    if n != 1 {
        return Err(SigError::WrongParamCount { found: n });
    }
    let r: Result<(), SigError> = match &sig.params[0] {
        ParamShape::Typed { ty } => if is_u8_slice(ty) {
            Ok(())
        } else {
            Err(SigError::NotByteSlice)
        },
        ParamShape::Irregular => Err(SigError::Irregular),
    };
    if r.is_ok() {
        sig.params = Vec::new();
    }
    r
}

} // verus!

//! The windowing types that events and queries are expressed in.
use vstd::prelude::*;

verus! {

/// winit's `event::VirtualKeyCode`: keyboard keys by symbolic name, an enum
/// whose variants carry no fields. Its definition is read as winit gives it.
#[verifier::external_type_specification]
pub struct ExVirtualKeyCode(winit::event::VirtualKeyCode);

/// winit's `event::MouseButton`: `Left`, `Right`, `Middle` and `Other(u16)`.
/// Its definition is read as winit gives it.
#[verifier::external_type_specification]
pub struct ExMouseButton(winit::event::MouseButton);

/// winit's `dpi::PhysicalSize`: a size in physical pixels, with public
/// `width` and `height` fields. Its definition is read as winit gives it.
#[verifier::external_type_specification]
#[verifier::reject_recursive_types(P)]
pub struct ExPhysicalSize<P>(winit::dpi::PhysicalSize<P>);

/// std's `path::PathBuf`: a file system path, only carried through.
#[verifier::external_type_specification]
#[verifier::external_body]
pub struct ExPathBuf(std::path::PathBuf);

/// Relies on the derived `PartialEq` of winit's `VirtualKeyCode`, a fieldless
/// enum: two key codes compare equal exactly when they are the same variant.
pub assume_specification[ <winit::event::VirtualKeyCode as core::cmp::PartialEq>::eq ](
    a: &winit::event::VirtualKeyCode,
    b: &winit::event::VirtualKeyCode,
) -> (r: bool)
    ensures
        r == (*a == *b),
;

/// winit's derived `Clone` of `PhysicalSize`, so that values holding a size
/// can be cloned; nothing is stated of the copy.
pub assume_specification<P: core::clone::Clone>[ <winit::dpi::PhysicalSize<P> as core::clone::Clone>::clone ](
    s: &winit::dpi::PhysicalSize<P>,
) -> winit::dpi::PhysicalSize<P>;

/// Relies on `PathBuf::clone`: the copy holds the same path.
pub assume_specification[ <std::path::PathBuf as core::clone::Clone>::clone ](
    p: &std::path::PathBuf,
) -> (r: std::path::PathBuf)
    ensures
        r == *p,
;

} // verus!

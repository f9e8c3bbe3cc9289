//! A circle in the plane, generic over the numeric type of its coordinates,
//! with the parts of its behaviour that do not depend on that type: the
//! point it exposes, its textual rendering and the reading of its text form.
pub mod circle;
pub mod display;
pub mod parse;

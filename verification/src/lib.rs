//! The minifb backend of a windowing layer: the translation of keys, mouse
//! buttons, window settings and minifb's errors between the windowing layer's
//! types and minifb's, each stated and proved.
pub mod errors;
pub mod input;
pub mod text;
pub mod window;

//! A minimal terminal front-end's verified core: an editable line of
//! text, the keyboard-to-edit mapping, the byte stream pumped from a
//! pseudoterminal, and the render pipeline's surface/layout bookkeeping.

pub mod input;
pub mod pump;
pub mod render;
pub mod shaping;
pub mod text;

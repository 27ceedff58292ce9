//! Typed values out of the text of a style property.
//!
//! The text on the right-hand side of a declaration such as
//! `margin: 10px 2px 0 auto` is broken into tokens, and the tokens are read as
//! lengths, rectangles, numbers, colours, strings or identifiers.
//!
//! The library holds no floating-point code. A numeric value travels as the
//! bit pattern of a 32-bit IEEE 754 number ([`Number`]). Where arithmetic or
//! printing on the value itself is needed, the caller hands it in as a
//! closure: `scale` multiplies the fraction of a percentage by a hundred,
//! `show` prints a number in decimal. A contract then speaks of what the
//! closure may return.

pub mod error;
pub mod length;
pub mod lexer;
pub mod methods;
pub mod number;
pub mod property;
pub mod rect_map;
pub mod stream;
pub mod token;

pub use crate::error::ElementsError;
pub use crate::length::{Length, Rect};
pub use crate::lexer::{LexEnd, Lexeme};
pub use crate::methods::StylePropertyMethods;
pub use crate::number::Number;
pub use crate::property::{parse_style_propery_value, StyleProperty};
pub use crate::rect_map::{RectMap, ToRectMap};
pub use crate::stream::StylePropertyTokenStream;
pub use crate::token::StylePropertyToken;

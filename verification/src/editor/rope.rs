//! The text store of a document: ropes from the `ropey` crate.
//!
//! A rope and a rope builder are opaque to the verifier; what they hold is
//! named by `rope_text` and `builder_text`, and each operation the library
//! uses says how it changes that text.

use ropey::{Rope, RopeBuilder};
use vstd::prelude::*;

verus! {

/// Declares `ropey::Rope` to the verifier.
#[verifier::external_type_specification]
#[verifier::external_body]
pub struct ExRope(Rope);

/// Declares `ropey::RopeBuilder` to the verifier.
#[verifier::external_type_specification]
#[verifier::external_body]
pub struct ExRopeBuilder(RopeBuilder);

/// The characters a rope holds, in order.
pub uninterp spec fn rope_text(rope: Rope) -> Seq<char>;

/// The characters appended to a rope builder so far, in order.
pub uninterp spec fn builder_text(builder: RopeBuilder) -> Seq<char>;

/// Calls `ropey::Rope::from(&str)`, which builds a rope holding exactly the
/// characters of `text`.
#[verifier::external_body]
pub fn rope_from_str(text: &str) -> (rope: Rope)
    ensures
        rope_text(rope) == text@,
{
    Rope::from(text)
}

/// Calls `ropey::RopeBuilder::new`, which starts an empty builder.
#[verifier::external_body]
pub fn builder_new() -> (builder: RopeBuilder)
    ensures
        builder_text(builder) == Seq::<char>::empty(),
{
    RopeBuilder::new()
}

/// Calls `ropey::RopeBuilder::append`, which adds the characters of `chunk`
/// to the end of the text being built.
#[verifier::external_body]
pub fn builder_append(builder: &mut RopeBuilder, chunk: &str)
    ensures
        builder_text(*final(builder)) == builder_text(*old(builder)) + chunk@,
{
    builder.append(chunk)
}

/// Calls `ropey::RopeBuilder::finish`, which turns the builder into a rope
/// holding everything that was appended.
#[verifier::external_body]
pub fn builder_finish(builder: RopeBuilder) -> (rope: Rope)
    ensures
        rope_text(rope) == builder_text(builder),
{
    builder.finish()
}

} // verus!

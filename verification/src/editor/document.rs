//! A document: a text held in a rope, the encoding it was read with, and
//! the file it belongs to, if any.

use encoding_rs::Encoding;
use ropey::Rope;
use std::path::PathBuf;
use vstd::prelude::*;

use crate::editor::encoding::utf_8;
use crate::editor::rope::rope_from_str;
use crate::editor::{encoding, rope};

verus! {

/// Declares `std::path::PathBuf` to the verifier.
#[verifier::external_type_specification]
#[verifier::external_body]
pub struct ExPathBuf(PathBuf);

/// The identifier of a document within an editor.
#[derive(Debug, Clone, Copy, PartialEq, Eq, Structural, PartialOrd, Ord, Hash)]
pub struct DocumentId(usize);

impl DocumentId {
    /// The number behind the identifier.
    pub closed spec fn spec_index(self) -> usize {
        self.0
    }

    /// The number behind the identifier.
    pub fn index(&self) -> (n: usize)
        ensures
            n == self.spec_index(),
    {
        self.0
    }
}

impl Default for DocumentId {
    /// The identifier numbered zero.
    fn default() -> (id: Self)
        ensures
            id.spec_index() == 0,
    {
        DocumentId(0)
    }
}

/// A text document.
pub struct Document {
    pub id: DocumentId,
    text: Rope,
    path: Option<PathBuf>,
    encoding: &'static Encoding,
}

/// The encoding a document ends up with: the one given, else UTF-8.
pub open spec fn encoding_or_utf8(encoding: Option<&'static Encoding>) -> &'static Encoding {
    match encoding {
        Some(e) => e,
        None => encoding::utf8_encoding(),
    }
}

impl Document {
    /// The document's identifier.
    pub closed spec fn spec_id(&self) -> DocumentId {
        self.id
    }

    /// The characters of the document.
    pub closed spec fn spec_text(&self) -> Seq<char> {
        rope::rope_text(self.text)
    }

    /// The file the document belongs to, if any.
    pub closed spec fn spec_path(&self) -> Option<PathBuf> {
        self.path
    }

    /// The encoding the document's file is read and written in.
    pub closed spec fn spec_encoding(&self) -> &'static Encoding {
        self.encoding
    }

    /// A document holding `text`, belonging to no file, with identifier
    /// zero, in `encoding` or, when none is given, UTF-8.
    pub fn from_rope(text: Rope, encoding: Option<&'static Encoding>) -> (doc: Self)
        ensures
            doc.spec_id().spec_index() == 0,
            doc.spec_text() == rope::rope_text(text),
            doc.spec_path() is None,
            doc.spec_encoding() == encoding_or_utf8(encoding),
    {
        let encoding = encoding.unwrap_or(utf_8());
        Self { id: DocumentId::default(), text, path: None, encoding }
    }

    /// The document for the file at `path`. When the file exists, `contents`
    /// holds what was read from it and the encoding it was decoded with;
    /// when it does not, the document is empty and in `encoding` or, when
    /// none is given, UTF-8.
    pub fn open(
        path: PathBuf,
        contents: Option<(Rope, &'static Encoding)>,
        encoding: Option<&'static Encoding>,
    ) -> (doc: Self)
        ensures
            doc.spec_id().spec_index() == 0,
            doc.spec_path() == Some(path),
            contents matches Some((text, enc)) ==> doc.spec_text() == rope::rope_text(text)
                && doc.spec_encoding() == enc,
            contents is None ==> doc.spec_text() == Seq::<char>::empty()
                && doc.spec_encoding() == encoding_or_utf8(encoding),
    {
        let (text, encoding) = match contents {
            Some((text, enc)) => (text, enc),
            None => {
                let empty = rope_from_str("");
                proof {
                    reveal_strlit("");
                }
                (empty, encoding.unwrap_or(utf_8()))
            },
        };
        let mut doc = Self::from_rope(text, Some(encoding));
        doc.path = Some(path);
        doc
    }

    /// The document's text.
    pub fn text(&self) -> (text: &Rope)
        ensures
            rope::rope_text(*text) == self.spec_text(),
    {
        &self.text
    }

    /// The encoding the document's file is read and written in.
    pub fn encoding(&self) -> (encoding: &'static Encoding)
        ensures
            encoding == self.spec_encoding(),
    {
        self.encoding
    }

    /// The file the document belongs to, if any.
    pub fn path(&self) -> (path: Option<&PathBuf>)
        ensures
            path is Some == self.spec_path() is Some,
            path matches Some(p) ==> *p == self.spec_path()->0,
    {
        self.path.as_ref()
    }

    /// Formats the document; no formatter is configured, so it stays as it
    /// is.
    pub fn format(&mut self)
        ensures
            *final(self) == *old(self),
    {
    }

    /// Saves the document; saving is not wired up, so it stays as it is.
    pub fn save(&mut self)
        ensures
            *final(self) == *old(self),
    {
    }

    /// Formats the document if it is set to be formatted when saved; no
    /// formatter is configured, so it stays as it is.
    pub fn format_on_save(&mut self)
        ensures
            *final(self) == *old(self),
    {
    }
}

} // verus!

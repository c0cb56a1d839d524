//! Decoding a byte stream, chunk by chunk, into a rope.
//!
//! The caller reads the stream in chunks of at most `BUF_SIZE` bytes and
//! hands each chunk to a `Loader`; an empty chunk marks the end of the
//! stream. The first chunk also picks the encoding when none is given: it
//! is guessed from the whole first read buffer. The decoder writes UTF-8
//! into a fixed buffer of `BUF_SIZE` bytes, which is moved into the rope
//! builder whenever the decoder reports it full, before a call when less
//! than `MIN_DECODE_SPACE` bytes of it are free, and once at the end.
//!
//! What is proved: loading always succeeds and ends; every byte handed in
//! reaches the decoder once and in order (`consumed`); and the finished
//! rope holds exactly the characters the decoder produced, in the order it
//! produced them (`decoded`), with nothing lost or repeated across buffer
//! flushes, which is the decoding of the whole stream in the chosen
//! encoding however it was split into reads.

use encoding_rs::{Decoder, Encoding};
use ropey::{Rope, RopeBuilder};
use vstd::prelude::*;
use vstd::utf8::*;

use crate::editor::encoding::{
    decoder_decode, decoder_new, detector_feed, detector_guess, detector_new, utf8_str,
    MIN_DECODE_SPACE,
};
use crate::editor::rope::{builder_append, builder_finish, builder_new};
use crate::editor::{encoding, rope, utf8_facts};

verus! {

/// Size of the read buffer and of the decoded-text buffer.
pub const BUF_SIZE: usize = 8192;

/// The state of decoding one byte stream into a rope.
pub struct Loader {
    encoding: &'static Encoding,
    decoder: Decoder,
    finished: bool,
    builder: RopeBuilder,
    buf: Vec<u8>,
    total_write: usize,
}

/// The encoding a stream is decoded with: the one asked for, else the one
/// guessed from the first read buffer (`first`, of which `read` bytes were
/// read; the stream has ended when nothing was read).
pub open spec fn chosen_encoding(
    first: Seq<u8>,
    read: nat,
    encoding: Option<&'static Encoding>,
) -> &'static Encoding {
    match encoding {
        Some(e) => e,
        None => encoding::guessed_encoding(first, read == 0, true),
    }
}

/// Without a given encoding, the chosen one is the detector's guess with
/// UTF-8 allowed, made over the whole first read buffer, and the detector
/// is told that the stream has ended exactly when nothing was read; a
/// given encoding is used as it is.
pub proof fn lemma_chosen_encoding_is_the_guess(
    first: Seq<u8>,
    read: nat,
    given: &'static Encoding,
)
    ensures
        chosen_encoding(first, read, None) == encoding::guessed_encoding(first, read == 0, true),
        chosen_encoding(first, 0, None) == encoding::guessed_encoding(first, true, true),
        read > 0 ==> chosen_encoding(first, read, None) == encoding::guessed_encoding(
            first,
            false,
            true,
        ),
        chosen_encoding(first, read, Some(given)) == given,
{
}

impl Loader {
    /// The loader's inner consistency: the decoder is one for the loader's
    /// encoding, the decoded-text buffer has its fixed size and holds valid
    /// UTF-8 up to `total_write`, and the text already moved into the
    /// builder followed by what is still in the buffer is everything the
    /// decoder has written. Once the stream has ended the buffer is empty
    /// and the decoder has written the decoding of the whole stream.
    pub closed spec fn wf(&self) -> bool {
        &&& self.buffer_wf()
        &&& self.finished == encoding::decoder_finished(self.decoder)
        &&& self.finished ==> self.total_write == 0
        &&& self.finished ==> encoding::decoder_produced(self.decoder) == encoding::decoded_text(
            self.encoding,
            encoding::decoder_consumed(self.decoder),
        )
    }

    /// The buffer part of `wf`.
    closed spec fn buffer_wf(&self) -> bool {
        &&& encoding::decoder_encoding(self.decoder) == self.encoding
        &&& self.buf@.len() == BUF_SIZE
        &&& self.total_write <= BUF_SIZE
        &&& valid_utf8(self.buf@.subrange(0, self.total_write as int))
        &&& rope::builder_text(self.builder) + decode_utf8(self.buf@.subrange(0, self.total_write as int))
            == encoding::decoder_produced(self.decoder)
    }

    /// The encoding the stream is decoded with.
    pub closed spec fn spec_encoding(&self) -> &'static Encoding {
        self.encoding
    }

    /// Every byte handed to the decoder so far, in order.
    pub closed spec fn consumed(&self) -> Seq<u8> {
        encoding::decoder_consumed(self.decoder)
    }

    /// Every character the decoder has produced so far, in order.
    pub closed spec fn decoded(&self) -> Seq<char> {
        encoding::decoder_produced(self.decoder)
    }

    /// Whether the end of the stream has been decoded.
    pub closed spec fn is_finished(&self) -> bool {
        encoding::decoder_finished(self.decoder)
    }

    /// Whether the end of the stream has been decoded.
    pub fn is_done(&self) -> (done: bool)
        requires
            self.wf(),
        ensures
            done == self.is_finished(),
    {
        self.finished
    }

    /// The encoding the stream is decoded with.
    pub fn encoding(&self) -> (encoding: &'static Encoding)
        ensures
            encoding == self.spec_encoding(),
    {
        self.encoding
    }

    /// Moves the decoded text in the buffer into the rope builder.
    fn flush(&mut self)
        requires
            old(self).buffer_wf(),
        ensures
            final(self).buffer_wf(),
            final(self).total_write == 0,
            final(self).encoding == old(self).encoding,
            final(self).decoder == old(self).decoder,
            final(self).finished == old(self).finished,
    {
        let text = utf8_str(&self.buf, 0, self.total_write);
        proof {
            let pending = self.buf@.subrange(0, self.total_write as int);
            assert(decode_utf8(pending) == text@) by {
                encode_utf8_decode_utf8(text@);
            }
        }
        builder_append(&mut self.builder, text);
        self.total_write = 0;
        proof {
            utf8_facts::lemma_decode_utf8_empty();
            assert(self.buf@.subrange(0, 0) =~= Seq::<u8>::empty());
            assert(rope::builder_text(self.builder) + decode_utf8(self.buf@.subrange(0, 0))
                =~= rope::builder_text(self.builder));
        }
    }

    /// Decodes `src[..len]`, the next chunk of the stream; an empty chunk
    /// ends the stream.
    fn decode_chunk(&mut self, src: &[u8], len: usize)
        requires
            old(self).wf(),
            !old(self).is_finished(),
            len <= src@.len(),
        ensures
            final(self).wf(),
            final(self).spec_encoding() == old(self).spec_encoding(),
            old(self).decoded().is_prefix_of(final(self).decoded()),
            final(self).consumed() == old(self).consumed() + src@.subrange(0, len as int),
            final(self).is_finished() == (len == 0),
    {
        let last = len == 0;
        let mut total_read: usize = 0;
        let ghost consumed0 = self.consumed();
        let ghost decoded0 = self.decoded();
        loop
            invariant_except_break
                !self.finished,
            invariant
                self.wf(),
                len <= src@.len(),
                total_read <= len,
                last == (len == 0),
                self.encoding == old(self).encoding,
                consumed0 == old(self).consumed(),
                decoded0 == old(self).decoded(),
                self.consumed() == consumed0 + src@.subrange(0, total_read as int),
                decoded0.is_prefix_of(self.decoded()),
            ensures
                total_read == len,
                self.finished == last,
            decreases len - total_read, self.total_write,
        {
            if BUF_SIZE - self.total_write < MIN_DECODE_SPACE {
                self.flush();
            }
            let ghost pending = self.buf@.subrange(0, self.total_write as int);
            let ghost decoded1 = self.decoded();
            let offset = self.total_write;
            let (input_empty, read, written) = decoder_decode(
                &mut self.decoder,
                src,
                total_read,
                len,
                &mut self.buf,
                offset,
                last,
            );
            self.finished = last && input_empty;
            proof {
                let region = self.buf@.subrange(offset as int, offset + written);
                assert(self.buf@.subrange(0, offset as int) == pending);
                assert(self.buf@.subrange(0, offset + written) =~= pending + region);
                utf8_facts::lemma_decode_utf8_concat(pending, region);
                assert(consumed0 + src@.subrange(0, total_read as int) + src@.subrange(
                    total_read as int,
                    total_read + read,
                ) =~= consumed0 + src@.subrange(0, total_read + read));
                assert(rope::builder_text(self.builder) + decode_utf8(pending + region)
                    =~= rope::builder_text(self.builder) + decode_utf8(pending) + decode_utf8(region));
                assert(decoded0.is_prefix_of(decoded1 + decode_utf8(region)));
            }
            self.total_write = offset + written;
            total_read = total_read + read;
            if input_empty {
                if last {
                    self.flush();
                }
                break;
            }
            // The output buffer was full: when this call started on an
            // empty buffer it has read something, else emptying the buffer
            // now makes the next call start on an empty one.
            self.flush();
        }
    }

    /// Starts decoding a stream from the first read buffer `first`, of which
    /// `read` bytes were read; the stream has ended when nothing was read.
    /// Without an `encoding`, the encoding is guessed from the whole of
    /// `first` (UTF-8 allowed, no top-level domain), and then the first
    /// `read` bytes are decoded.
    pub fn start(first: &[u8], read: usize, encoding: Option<&'static Encoding>) -> (loader: Loader)
        requires
            read <= first@.len(),
        ensures
            loader.wf(),
            loader.spec_encoding() == chosen_encoding(first@, read as nat, encoding),
            encoding is None ==> loader.spec_encoding() == encoding::guessed_encoding(
                first@,
                read == 0,
                true,
            ),
            encoding matches Some(e) ==> loader.spec_encoding() == e,
            loader.consumed() == first@.subrange(0, read as int),
            loader.is_finished() == (read == 0),
    {
        let is_empty = read == 0;
        let encoding = match encoding {
            Some(e) => e,
            None => {
                let mut detector = detector_new();
                detector_feed(&mut detector, first, is_empty);
                assert(encoding::detector_input(detector) =~= first@);
                detector_guess(&detector, true)
            },
        };
        let decoder = decoder_new(encoding);
        let builder = builder_new();
        let buf: Vec<u8> = vec![0u8; BUF_SIZE];
        let mut loader = Loader { encoding, decoder, finished: false, builder, buf, total_write: 0 };
        proof {
            utf8_facts::lemma_decode_utf8_empty();
            assert(loader.buf@.subrange(0, 0) =~= Seq::<u8>::empty());
            assert(rope::builder_text(loader.builder) + decode_utf8(loader.buf@.subrange(0, 0))
                =~= Seq::<char>::empty());
        }
        loader.decode_chunk(first, read);
        assert(loader.consumed() =~= first@.subrange(0, read as int));
        loader
    }

    /// Decodes the next chunk of the stream; an empty chunk ends it.
    pub fn feed(&mut self, chunk: &[u8])
        requires
            old(self).wf(),
            !old(self).is_finished(),
        ensures
            final(self).wf(),
            final(self).spec_encoding() == old(self).spec_encoding(),
            old(self).decoded().is_prefix_of(final(self).decoded()),
            final(self).consumed() == old(self).consumed() + chunk@,
            final(self).is_finished() == (chunk@.len() == 0),
    {
        self.decode_chunk(chunk, chunk.len());
        assert(chunk@.subrange(0, chunk@.len() as int) =~= chunk@);
    }

    /// The rope holding everything decoded, and the encoding used.
    pub fn finish(self) -> (res: (Rope, &'static Encoding))
        requires
            self.wf(),
            self.is_finished(),
        ensures
            rope::rope_text(res.0) == self.decoded(),
            rope::rope_text(res.0) == encoding::decoded_text(self.spec_encoding(), self.consumed()),
            res.1 == self.spec_encoding(),
    {
        proof {
            utf8_facts::lemma_decode_utf8_empty();
            assert(self.buf@.subrange(0, 0) =~= Seq::<u8>::empty());
            assert(rope::builder_text(self.builder) + Seq::<char>::empty()
                =~= rope::builder_text(self.builder));
        }
        let rope = builder_finish(self.builder);
        (rope, self.encoding)
    }
}

} // verus!

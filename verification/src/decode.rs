//! Incremental UTF-8 decoding of a byte stream that arrives in chunks.
//!
//! A chunk may end in the middle of a character. The [`Decoder`] holds such
//! an unfinished beginning back until the next chunk brings the rest, so the
//! text that comes out does not depend on where the chunks were cut.
//!
//! Bytes that are no character do not stop the decoding: the bytes that are
//! to blame come out as one malformed piece, and decoding goes on right
//! behind them.
//!
//! The decoding of one character is done by the `utf8_read` crate; what this
//! module relies on of it is the contract of `read_head` and nothing else.
//! What is well-formed UTF-8 is said by `vstd::utf8`.

use vstd::prelude::*;
use vstd::slice::{slice_subrange, slice_to_vec};
use vstd::utf8::*;

verus! {

/// What stands at the head of a byte sequence.
#[derive(Clone, Copy, Debug, PartialEq, Eq)]
pub enum Head {
    /// One whole, well-formed character.
    Scalar(char),
    /// Nothing, or the beginning of a character whose end is not there yet.
    Partial,
    /// Bytes that begin no well-formed character; the number says how many
    /// of them belong to the offence.
    Malformed(usize),
    /// The source said that it has ended. A byte slice never does.
    Closed,
    /// The source failed to deliver. A byte slice never does.
    Failed,
}

/// The UTF-8 encoding of one character.
pub open spec fn encoding(c: char) -> Seq<u8> {
    encode_scalar(c as u32)
}

/// Whether `bytes` is the beginning, and not the whole, of the encoding of
/// some character. The empty sequence is.
pub open spec fn is_partial_scalar(bytes: Seq<u8>) -> bool {
    exists|c: char|
        bytes.len() < (#[trigger] encoding(c)).len() && bytes == encoding(c).take(bytes.len() as int)
}

/// The number of bytes that `utf8_read` blames when `bytes` begins with
/// something that is neither a character nor the beginning of one.
pub uninterp spec fn malformed_width(bytes: Seq<u8>) -> usize;

/// What stands at the head of `bytes`.
pub open spec fn head_of(bytes: Seq<u8>) -> Head {
    if valid_first_scalar(bytes) {
        Head::Scalar(decode_first_scalar(bytes) as char)
    } else if is_partial_scalar(bytes) {
        Head::Partial
    } else {
        Head::Malformed(malformed_width(bytes))
    }
}

/// Asks `utf8_read::Reader::next_char` for the head of `bytes`.
///
/// The reader is built over the slice alone and told that a source which
/// has run dry has not ended. Trusted of it, and not proved here:
/// - where `bytes` begins with a well-formed character, that character is
///   returned;
/// - where `bytes` is empty or stops inside a character that could still
///   become well-formed, the reader reports that it has no data;
/// - otherwise it reports malformed UTF-8, blaming from one to three bytes
///   and no more than there are.
///
/// It reports neither an end nor a failure of the source.
#[verifier::external_body]
fn read_head(bytes: &[u8]) -> (head: Head)
    ensures
        head == head_of(bytes@),
        head matches Head::Malformed(width) ==> width == malformed_width(bytes@) && 1 <= width <= 3
            && width <= bytes@.len(),
{
    let mut reader = utf8_read::Reader::new(bytes).set_eof_on_no_data(false);
    match reader.next_char() {
        Ok(utf8_read::Char::Char(c)) => Head::Scalar(c),
        Ok(utf8_read::Char::NoData) => Head::Partial,
        Ok(utf8_read::Char::Eof) => Head::Closed,
        Err(utf8_read::Error::MalformedUtf8(_, width)) => Head::Malformed(width),
        Err(utf8_read::Error::IoError(_)) => Head::Failed,
    }
}

/// One thing that decoding found in the stream, as contracts speak of it.
pub enum PieceView {
    /// A character.
    Char(char),
    /// A run of bytes that is no character, as it stood in the stream.
    Malformed(Seq<u8>),
}

/// One thing that decoding found in the stream.
#[derive(Debug, PartialEq, Eq)]
pub enum Piece {
    /// A character.
    Char(char),
    /// A run of bytes that is no character, as it stood in the stream.
    Malformed(Vec<u8>),
}

impl View for Piece {
    type V = PieceView;

    open spec fn view(&self) -> PieceView {
        match self {
            Piece::Char(c) => PieceView::Char(*c),
            Piece::Malformed(bytes) => PieceView::Malformed(bytes@),
        }
    }
}

/// The piece that one character makes.
pub open spec fn char_piece(c: char) -> PieceView {
    PieceView::Char(c)
}

/// The views of a sequence of pieces, in order.
pub open spec fn piece_views(pieces: Seq<Piece>) -> Seq<PieceView> {
    pieces.map_values(|p: Piece| p@)
}

/// A length that a head claims, made to fit the `len` bytes that are
/// there: a claim of no bytes, or of more than there are, counts as one
/// byte.
pub open spec fn fitting(claimed: int, len: int) -> int {
    if 1 <= claimed <= len {
        claimed
    } else {
        1
    }
}

/// What `head` takes from the front of `bytes`: the piece that it makes and
/// the number of bytes that go into it.
///
/// A character takes the bytes that its leading byte announces, a malformed
/// head the bytes that are blamed. Any other head takes nothing, and
/// nothing can be taken from no bytes.
pub open spec fn taken_by(bytes: Seq<u8>, head: Head) -> Option<(PieceView, int)> {
    if bytes.len() == 0 {
        None
    } else {
        match head {
            Head::Scalar(c) => Some(
                (char_piece(c), fitting(length_of_first_scalar(bytes), bytes.len() as int)),
            ),
            Head::Malformed(width) => {
                let n = fitting(width as int, bytes.len() as int);
                Some((PieceView::Malformed(bytes.take(n)), n))
            },
            _ => None,
        }
    }
}

/// The result of decoding a byte sequence as far as it goes.
pub struct Scan {
    /// What was found, in stream order.
    pub pieces: Seq<PieceView>,
    /// The bytes at the end that were held back.
    pub rest: Seq<u8>,
}

/// Decodes `bytes` head by head, until a head takes nothing.
pub open spec fn scan(bytes: Seq<u8>) -> Scan
    decreases bytes.len(),
{
    match taken_by(bytes, head_of(bytes)) {
        Some((piece, n)) => {
            let later = scan(bytes.skip(n));
            Scan { pieces: seq![piece] + later.pieces, rest: later.rest }
        },
        None => Scan { pieces: Seq::empty(), rest: bytes },
    }
}

/// A well-formed head is from one to four bytes long, all of them there.
pub proof fn lemma_scalar_head_len(bytes: Seq<u8>)
    requires
        valid_first_scalar(bytes),
    ensures
        1 <= length_of_first_scalar(bytes) <= 4,
        length_of_first_scalar(bytes) <= bytes.len(),
{
}

/// The encoding of a character is a well-formed head of itself, from one to
/// four bytes long.
pub proof fn lemma_encoding_is_scalar(c: char)
    ensures
        valid_first_scalar(encoding(c)),
        decode_first_scalar(encoding(c)) as char == c,
        length_of_first_scalar(encoding(c)) == encoding(c).len(),
        1 <= encoding(c).len() <= 4,
{
    let one = seq![c];
    encode_utf8_first_scalar(one);
    assert(encode_utf8(one.drop_first()) =~= Seq::<u8>::empty()) by {
        reveal_with_fuel(encode_utf8, 2);
    }
    assert(encode_utf8(one) =~= encoding(c)) by {
        reveal_with_fuel(encode_utf8, 2);
    }
    char_u32_cast(c, c as u32);
}

/// The beginning of a character is at most three bytes long and is no whole
/// character.
pub proof fn lemma_partial_is_no_scalar(bytes: Seq<u8>)
    requires
        is_partial_scalar(bytes),
    ensures
        bytes.len() <= 3,
        !valid_first_scalar(bytes),
        head_of(bytes) == Head::Partial,
{
    let c = choose|c: char|
        bytes.len() < (#[trigger] encoding(c)).len() && bytes == encoding(c).take(bytes.len() as int);
    lemma_encoding_is_scalar(c);
}

/// Nothing at all is a partial head.
pub proof fn lemma_empty_is_partial()
    ensures
        head_of(Seq::<u8>::empty()) == Head::Partial,
{
    lemma_encoding_is_scalar('a');
    assert(Seq::<u8>::empty() =~= encoding('a').take(0));
    lemma_partial_is_no_scalar(Seq::<u8>::empty());
}

/// The head of a sequence takes nothing exactly if it is partial. A head
/// that takes something takes at least one byte and no more than there are,
/// and a character takes the bytes of its encoding.
pub proof fn lemma_head_takes(bytes: Seq<u8>)
    ensures
        taken_by(bytes, head_of(bytes)) is None <==> head_of(bytes) == Head::Partial,
        taken_by(bytes, head_of(bytes)) matches Some((_, n)) ==> 1 <= n <= bytes.len(),
        valid_first_scalar(bytes) ==> taken_by(bytes, head_of(bytes)) == Some(
            (char_piece(decode_first_scalar(bytes) as char), length_of_first_scalar(bytes)),
        ),
{
    if valid_first_scalar(bytes) {
        lemma_scalar_head_len(bytes);
    } else if bytes.len() == 0 {
        lemma_empty_is_partial();
        assert(bytes =~= Seq::<u8>::empty());
    }
}

/// What decoding holds back is a partial head: at most three bytes, of
/// which decoding alone would find nothing.
pub proof fn lemma_scan_rest_is_partial(bytes: Seq<u8>)
    ensures
        head_of(scan(bytes).rest) == Head::Partial,
        scan(bytes).rest.len() <= 3,
    decreases bytes.len(),
{
    lemma_head_takes(bytes);
    match taken_by(bytes, head_of(bytes)) {
        Some((_, n)) => {
            lemma_scan_rest_is_partial(bytes.skip(n));
        },
        None => {
            lemma_partial_is_no_scalar(bytes);
        },
    }
}

/// Takes from the front of `bytes` what `head` says stands there: the piece
/// and the number of bytes that went into it, or nothing where the head
/// takes nothing.
///
/// `head` is what the reader answered for `bytes`. It is taken at its word as
/// far as the bytes allow: where it claims no bytes or more than there are,
/// which the reader does not do, one byte goes into the piece, so that
/// decoding always moves on.
pub fn take_head(bytes: &[u8], head: Head) -> (taken: Option<(Piece, usize)>)
    ensures
        match taken {
            Some((piece, n)) => taken_by(bytes@, head) == Some((piece@, n as int)),
            None => taken_by(bytes@, head) is None,
        },
{
    if bytes.len() == 0 {
        return None;
    }
    match head {
        Head::Scalar(c) => {
            let lead: u8 = bytes[0];
            let announced: usize = if lead <= 0x7f {
                1
            } else if 0xc0 <= lead && lead <= 0xdf {
                2
            } else if 0xe0 <= lead && lead <= 0xef {
                3
            } else {
                4
            };
            let n: usize = if announced <= bytes.len() {
                announced
            } else {
                1
            };
            Some((Piece::Char(c), n))
        },
        Head::Malformed(width) => {
            let n: usize = if 1 <= width && width <= bytes.len() {
                width
            } else {
                1
            };
            let blamed = slice_to_vec(slice_subrange(bytes, 0, n));
            Some((Piece::Malformed(blamed), n))
        },
        _ => None,
    }
}

/// The state of the decoding between two chunks: the bytes of a character
/// whose end has not arrived yet.
#[derive(Debug)]
pub struct Decoder {
    pending: Vec<u8>,
}

impl View for Decoder {
    type V = Seq<u8>;

    /// The bytes held back.
    closed spec fn view(&self) -> Seq<u8> {
        self.pending@
    }
}

impl Decoder {
    #[verifier::type_invariant]
    spec fn holds_a_partial_head(self) -> bool {
        head_of(self.pending@) == Head::Partial
    }

    /// A decoder at the start of a stream: nothing is held back.
    pub fn new() -> (decoder: Decoder)
        ensures
            decoder@ == Seq::<u8>::empty(),
    {
        proof {
            lemma_empty_is_partial();
        }
        Decoder { pending: Vec::new() }
    }

    /// The bytes held back: the beginning of a character, at most three
    /// bytes, or nothing.
    pub fn pending(&self) -> (bytes: &[u8])
        ensures
            bytes@ == self@,
            head_of(self@) == Head::Partial,
            bytes@.len() <= 3,
    {
        proof {
            use_type_invariant(self);
            lemma_partial_is_no_scalar(self.pending@);
        }
        self.pending.as_slice()
    }

    /// Takes the next chunk of the stream and gives back what it completes.
    ///
    /// The bytes held back from earlier chunks come first, then `chunk`; the
    /// result is what decoding finds in them, in stream order, and the
    /// decoder keeps the partial head that is left at the end.
    pub fn feed(&mut self, chunk: &[u8]) -> (pieces: Vec<Piece>)
        ensures
            piece_views(pieces@) == scan(old(self)@ + chunk@).pieces,
            final(self)@ == scan(old(self)@ + chunk@).rest,
    {
        let mut stream: Vec<u8> = self.pending.clone();
        stream.extend_from_slice(chunk);
        let mut pieces: Vec<Piece> = Vec::new();
        let mut at: usize = 0;
        assert(stream@.skip(0) =~= stream@);
        loop
            invariant
                at <= stream.len(),
                stream@ == old(self)@ + chunk@,
                scan(stream@).pieces == piece_views(pieces@) + scan(stream@.skip(at as int)).pieces,
                scan(stream@).rest == scan(stream@.skip(at as int)).rest,
            ensures
                head_of(stream@.skip(at as int)) == Head::Partial,
            decreases stream.len() - at,
        {
            let unread = slice_subrange(stream.as_slice(), at, stream.len());
            let head = read_head(unread);
            proof {
                lemma_head_takes(unread@);
            }
            match take_head(unread, head) {
                Some((piece, n)) => {
                    assert(unread@.skip(n as int) =~= stream@.skip(at + n));
                    pieces.push(piece);
                    at = at + n;
                },
                None => {
                    break ;
                },
            }
        }
        self.pending = slice_to_vec(slice_subrange(stream.as_slice(), at, stream.len()));
        pieces
    }
}

} // verus!

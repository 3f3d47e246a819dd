//! What holds of decoding whatever the boundaries of the chunks.
//!
//! The stream is cut where the reads happen to end, never where the
//! characters do. The laws here say that the cuts do not show: text that was
//! sent comes out as it was sent, and a malformed sequence costs one report
//! and nothing of the text around it.

use crate::decode::{
    char_piece, encoding, head_of, is_partial_scalar, lemma_empty_is_partial,
    lemma_encoding_is_scalar, lemma_head_takes, lemma_scalar_head_len,
    lemma_scan_rest_is_partial, scan, taken_by, Head, PieceView, Scan,
};
use vstd::prelude::*;
use vstd::utf8::*;

verus! {

/// The pieces that a text makes when nothing is wrong with its bytes: one
/// character each, in order.
pub open spec fn text_pieces(text: Seq<char>) -> Seq<PieceView> {
    text.map_values(|c: char| char_piece(c))
}

/// Whether every piece is a character.
pub open spec fn is_clean(pieces: Seq<PieceView>) -> bool {
    forall|i: int| 0 <= i < pieces.len() ==> #[trigger] pieces[i] is Char
}

/// Decoding chunk by chunk, as a decoder does over successive calls of
/// `feed`: `held` is what the decoder holds back before the first chunk.
pub open spec fn scan_chunks(held: Seq<u8>, chunks: Seq<Seq<u8>>) -> Scan
    decreases chunks.len(),
{
    if chunks.len() == 0 {
        Scan { pieces: Seq::empty(), rest: held }
    } else {
        let first = scan(held + chunks.first());
        let later = scan_chunks(first.rest, chunks.drop_first());
        Scan { pieces: first.pieces + later.pieces, rest: later.rest }
    }
}

/// The pieces of a text are as many as its characters, each a character,
/// and those of a text that is not empty are its first character and then
/// the pieces of the others.
pub proof fn lemma_text_pieces(text: Seq<char>)
    ensures
        text_pieces(text).len() == text.len(),
        is_clean(text_pieces(text)),
        text.len() > 0 ==> text_pieces(text) == seq![char_piece(text[0])] + text_pieces(
            text.drop_first(),
        ),
{
}

/// Whether a sequence begins with a well-formed character, and with which,
/// is decided by the bytes of that character alone.
pub proof fn lemma_scalar_head_is_local(a: Seq<u8>, b: Seq<u8>)
    requires
        valid_first_scalar(a),
        length_of_first_scalar(a) <= b.len(),
        forall|i: int| 0 <= i < length_of_first_scalar(a) ==> a[i] == b[i],
    ensures
        valid_first_scalar(b),
        decode_first_scalar(b) == decode_first_scalar(a),
        length_of_first_scalar(b) == length_of_first_scalar(a),
        head_of(b) == head_of(a),
{
    lemma_scalar_head_len(a);
}

/// A head that is neither a character nor the beginning of one stays so
/// whatever follows it.
pub proof fn lemma_malformed_head_stays(first: Seq<u8>, second: Seq<u8>)
    requires
        head_of(first) is Malformed,
    ensures
        head_of(first + second) is Malformed,
{
    let whole = first + second;
    if valid_first_scalar(whole) {
        lemma_scalar_head_len(whole);
        let n = length_of_first_scalar(whole);
        if n <= first.len() {
            lemma_scalar_head_is_local(whole, first);
        } else {
            let one = whole.take(n);
            lemma_scalar_head_is_local(whole, one);
            assert(valid_utf8(one)) by {
                reveal_with_fuel(valid_utf8, 2);
            }
            decode_utf8_first_scalar(one);
            let c = decode_first_scalar(one) as char;
            assert(first =~= encoding(c).take(first.len() as int));
        }
    } else if is_partial_scalar(whole) {
        let c = choose|c: char|
            whole.len() < (#[trigger] encoding(c)).len() && whole == encoding(c).take(
                whole.len() as int,
            );
        assert(first =~= encoding(c).take(first.len() as int));
    }
}

/// Decoding the bytes of a text, with anything after them, gives the text
/// and then what decoding finds in the rest.
pub proof fn lemma_scan_after_text(text: Seq<char>, rest: Seq<u8>)
    ensures
        scan(encode_utf8(text) + rest).pieces == text_pieces(text) + scan(rest).pieces,
        scan(encode_utf8(text) + rest).rest == scan(rest).rest,
    decreases text.len(),
{
    let whole = encode_utf8(text) + rest;
    lemma_text_pieces(text);
    if text.len() > 0 {
        let c = text[0];
        let later = text.drop_first();
        lemma_encoding_is_scalar(c);
        lemma_scalar_head_is_local(encoding(c), whole);
        lemma_head_takes(whole);
        assert(whole.skip(encoding(c).len() as int) =~= encode_utf8(later) + rest);
        lemma_scan_after_text(later, rest);
    }
}

/// The pieces at the end of clean pieces are clean.
proof fn lemma_clean_tail(front: Seq<PieceView>, back: Seq<PieceView>)
    requires
        is_clean(front + back),
    ensures
        is_clean(back),
{
    assert forall|i: int| 0 <= i < back.len() implies #[trigger] back[i] is Char by {
        assert((front + back)[front.len() + i] == back[i]);
    }
}

/// Where a stream holds nothing malformed, a cut anywhere in it does not
/// show: decoding the first part, and then what was held back of it together
/// with the second part, finds what decoding the whole finds.
pub proof fn lemma_scan_in_two(first: Seq<u8>, second: Seq<u8>)
    requires
        is_clean(scan(first + second).pieces),
    ensures
        is_clean(scan(first).pieces),
        scan(first + second).pieces == scan(first).pieces + scan(scan(first).rest + second).pieces,
        scan(first + second).rest == scan(scan(first).rest + second).rest,
    decreases first.len(),
{
    let whole = first + second;
    lemma_head_takes(first);
    lemma_head_takes(whole);
    match head_of(first) {
        Head::Scalar(c) => {
            lemma_scalar_head_len(first);
            lemma_scalar_head_is_local(first, whole);
            let n = length_of_first_scalar(first);
            assert(whole.skip(n) =~= first.skip(n) + second);
            lemma_clean_tail(seq![char_piece(c)], scan(whole.skip(n)).pieces);
            lemma_scan_in_two(first.skip(n), second);
        },
        Head::Malformed(_) => {
            lemma_malformed_head_stays(first, second);
            assert(scan(whole).pieces[0] is Malformed);
        },
        _ => {},
    }
}

/// Where a stream holds nothing malformed, decoding it in chunks finds what
/// decoding it in one piece finds, wherever the chunks are cut.
pub proof fn lemma_chunks_do_not_show(held: Seq<u8>, chunks: Seq<Seq<u8>>)
    requires
        head_of(held) == Head::Partial,
        is_clean(scan(held + chunks.flatten()).pieces),
    ensures
        scan_chunks(held, chunks) == scan(held + chunks.flatten()),
    decreases chunks.len(),
{
    if chunks.len() == 0 {
        lemma_head_takes(held);
    } else {
        let first = held + chunks.first();
        let later = chunks.drop_first().flatten();
        assert(held + chunks.flatten() =~= first + later);
        lemma_scan_in_two(first, later);
        lemma_clean_tail(scan(first).pieces, scan(scan(first).rest + later).pieces);
        lemma_scan_rest_is_partial(first);
        lemma_chunks_do_not_show(scan(first).rest, chunks.drop_first());
    }
}

/// Decoding is lossless and keeps the order: the bytes of a text, delivered
/// in chunks cut anywhere, also inside a character, come out as that text,
/// and nothing is held back at the end.
pub proof fn lemma_chunked_text_is_decoded_whole(text: Seq<char>, chunks: Seq<Seq<u8>>)
    requires
        chunks.flatten() == encode_utf8(text),
    ensures
        scan_chunks(Seq::empty(), chunks).pieces == text_pieces(text),
        scan_chunks(Seq::empty(), chunks).rest == Seq::<u8>::empty(),
{
    let none = Seq::<u8>::empty();
    lemma_empty_is_partial();
    lemma_head_takes(none);
    lemma_scan_after_text(text, none);
    lemma_text_pieces(text);
    lemma_chunks_do_not_show(none, chunks);
}

/// A malformed sequence in the middle of text is reported once, as it stood,
/// and costs nothing of the text on either side of it.
///
/// `bad` is such a sequence where it stands before the bytes of `after`:
/// the head there is malformed, and the bytes blamed are those of `bad`.
pub proof fn lemma_malformed_sequence_is_reported_once(
    before: Seq<char>,
    bad: Seq<u8>,
    after: Seq<char>,
)
    requires
        bad.len() > 0,
        head_of(bad + encode_utf8(after)) matches Head::Malformed(width) && width == bad.len(),
    ensures
        scan(encode_utf8(before) + (bad + encode_utf8(after))).pieces == text_pieces(before).push(
            PieceView::Malformed(bad),
        ) + text_pieces(after),
        scan(encode_utf8(before) + (bad + encode_utf8(after))).rest == Seq::<u8>::empty(),
{
    let none = Seq::<u8>::empty();
    let broken = bad + encode_utf8(after);
    lemma_scan_after_text(before, broken);
    assert(broken.take(bad.len() as int) =~= bad);
    assert(broken.skip(bad.len() as int) =~= encode_utf8(after));
    lemma_empty_is_partial();
    lemma_head_takes(none);
    lemma_scan_after_text(after, none);
}

} // verus!

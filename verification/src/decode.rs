use vstd::prelude::*;
use crate::listing::views_of;

verus! {

#[verifier::external_type_specification]
#[verifier::external_body]
pub struct ExDecoder(encoding_rs::Decoder);

/// The text an incremental UTF-8 decoder has emitted after being fed
/// exactly these bytes: malformed sequences become replacement characters,
/// a trailing incomplete sequence is held back until its remaining bytes
/// arrive, and encoding_rs's byte-order-mark sniffing at the start of the
/// stream is included. The emitted text is a function of the byte stream
/// alone: the same bytes, in the same order, always decode to the same
/// text, on every machine.
pub uninterp spec fn utf8_streamed(fed: Seq<u8>) -> Seq<char>;

/// The concatenation of the decoded pieces, in order.
pub open spec fn spec_concat(parts: Seq<Seq<char>>) -> Seq<char>
    decreases parts.len(),
{
    if parts.len() == 0 {
        Seq::empty()
    } else {
        spec_concat(parts.drop_last()) + parts.last()
    }
}

/// The concatenation of the tokens' byte chunks, in order.
pub open spec fn spec_concat_bytes(parts: Seq<Seq<u8>>) -> Seq<u8>
    decreases parts.len(),
{
    if parts.len() == 0 {
        Seq::empty()
    } else {
        spec_concat_bytes(parts.drop_last()) + parts.last()
    }
}

/// An incremental, UTF-8-safe token decoder: one token's raw bytes go in at
/// a time, text comes out piece by piece, and bytes of a character split
/// across tokens are buffered until the character completes. The view is
/// the text decoded so far: always exactly the concatenation of the pieces
/// handed out, and always `utf8_streamed` of all bytes fed so far.
pub struct StreamDecoder {
    decoder: encoding_rs::Decoder,
    full: String,
    fed: Ghost<Seq<u8>>,
}

impl View for StreamDecoder {
    type V = Seq<char>;

    closed spec fn view(&self) -> Seq<char> {
        self.full@
    }
}

impl StreamDecoder {
    /// All bytes fed to the decoder so far.
    pub closed spec fn spec_fed(&self) -> Seq<u8> {
        self.fed@
    }

    /// Relies on encoding_rs: `Encoding::new_decoder` on the UTF-8 encoding
    /// yields a fresh incremental decoder with nothing buffered, and a
    /// decoder fed nothing has emitted nothing.
    #[verifier::external_body]
    pub fn new() -> (d: Self)
        ensures
            d@ =~= Seq::<char>::empty(),
            d.spec_fed() =~= Seq::<u8>::empty(),
            d@ == utf8_streamed(d.spec_fed()),
    {
        StreamDecoder {
            decoder: encoding_rs::UTF_8.new_decoder(),
            full: String::new(),
            fed: Ghost(Seq::empty()),
        }
    }

    /// Decodes one token's raw bytes. The returned piece is what became
    /// printable now, so streaming the pieces and reading the final text
    /// agree, and the text decoded so far is always what the bytes fed so
    /// far determine.
    ///
    /// Relies on encoding_rs: `Decoder::decode_to_string` appends exactly
    /// the text that the byte stream fed so far determines, holding any
    /// trailing incomplete sequence back in the decoder until the next
    /// call, so only whole characters are ever emitted; on empty input it
    /// emits nothing. `Decoder::max_utf8_buffer_length` sizes the output
    /// buffer the call writes into.
    #[verifier::external_body]
    pub fn push_token_bytes(&mut self, bytes: &Vec<u8>) -> (piece: String)
        ensures
            final(self).spec_fed() == old(self).spec_fed() + bytes@,
            final(self)@ == old(self)@ + piece@,
            old(self)@ == utf8_streamed(old(self).spec_fed()) ==> final(self)@ == utf8_streamed(
                final(self).spec_fed(),
            ),
            bytes@.len() == 0 ==> piece@.len() == 0,
    {
        let mut piece = String::with_capacity(
            self.decoder.max_utf8_buffer_length(bytes.len()).unwrap_or(0),
        );
        let _ = self.decoder.decode_to_string(bytes.as_slice(), &mut piece, false);
        self.full.push_str(&piece);
        piece
    }

    /// Ends decoding and hands out the whole decoded text.
    pub fn finish(self) -> (full: String)
        ensures
            full@ == self@,
    {
        self.full
    }
}

/// Law: decoding is deterministic. The same token bytes, fed in the same
/// order, always decode to the same text.
pub proof fn lemma_decode_deterministic(fed1: Seq<u8>, fed2: Seq<u8>)
    requires
        fed1 == fed2,
    ensures
        utf8_streamed(fed1) == utf8_streamed(fed2),
{
}

/// Decodes a whole token sequence: one piece per token, plus the full text,
/// which is exactly the pieces' concatenation and exactly the incremental
/// UTF-8 decoding of the tokens' concatenated bytes. This is the
/// blocking-mode counterpart of streaming the pieces one by one.
pub fn decode_tokens(chunks: &Vec<Vec<u8>>) -> (r: (String, Vec<String>))
    ensures
        r.1@.len() == chunks@.len(),
        r.0@ == spec_concat(views_of(r.1@)),
        r.0@ == utf8_streamed(spec_concat_bytes(chunks@.map_values(|c: Vec<u8>| c@))),
{
    let mut sd = StreamDecoder::new();
    let mut pieces: Vec<String> = Vec::new();
    let mut i: usize = 0;
    proof {
        assert(chunks@.take(0).map_values(|c: Vec<u8>| c@) =~= Seq::<Seq<u8>>::empty());
    }
    while i < chunks.len()
        invariant
            i <= chunks@.len(),
            pieces@.len() == i,
            sd@ == spec_concat(views_of(pieces@)),
            sd.spec_fed() == spec_concat_bytes(chunks@.take(i as int).map_values(|c: Vec<u8>| c@)),
            sd@ == utf8_streamed(sd.spec_fed()),
        decreases chunks@.len() - i,
    {
        let ghost prev_pieces = views_of(pieces@);
        let ghost prev_fed = chunks@.take(i as int).map_values(|c: Vec<u8>| c@);
        let piece = sd.push_token_bytes(&chunks[i]);
        pieces.push(piece);
        proof {
            assert(views_of(pieces@) =~= prev_pieces.push(pieces@.last()@));
            assert(views_of(pieces@).drop_last() =~= prev_pieces);
            let next_fed = chunks@.take(i as int + 1).map_values(|c: Vec<u8>| c@);
            assert(next_fed =~= prev_fed.push(chunks@[i as int]@));
            assert(next_fed.drop_last() =~= prev_fed);
        }
        i = i + 1;
    }
    proof {
        assert(chunks@.take(chunks@.len() as int) =~= chunks@);
    }
    let full = sd.finish();
    (full, pieces)
}

} // verus!

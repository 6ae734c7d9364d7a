use vstd::bytes::{spec_u16_from_le_bytes, spec_u32_from_le_bytes, u16_from_le_bytes,
    u32_from_le_bytes};
use vstd::prelude::*;
use vstd::slice::{slice_subrange, slice_to_vec};
use vstd::utf8::{decode_utf8, encode_utf8, valid_utf8};

use crate::deflate::{inflate, spec_inflate};
use crate::game_id::GameId;

verus! {

broadcast use vstd::seq::group_seq_axioms;

/// How working with a subrecord can fail.
#[derive(Clone, Copy, Debug, PartialEq, Eq, Structural)]
pub enum SubrecordError {
    /// The input ends before a required field or before the end of a payload
    /// of the claimed length; the caller may read more bytes and retry.
    IncompleteInput,
    /// The four type-tag bytes are not valid UTF-8.
    MalformedInput,
    /// The DEFLATE stream of a compressed payload is malformed or truncated.
    DecompressionFailure,
}

/// The mathematical value of a [`Subrecord`]: its type tag as characters, its
/// payload as a byte sequence, and the compression flag.
pub struct SubrecordView {
    pub subrecord_type: Seq<char>,
    pub data: Seq<u8>,
    pub is_compressed: bool,
}

/// The smallest typed, length-prefixed unit inside a game plugin file.
///
/// `data` holds the payload exactly as read from the wire; when
/// `is_compressed` is true it still starts with the 4-byte little-endian
/// uncompressed-size hint followed by the DEFLATE stream.
#[derive(Debug)]
pub struct Subrecord {
    pub subrecord_type: String,
    pub data: Vec<u8>,
    pub is_compressed: bool,
}

impl View for Subrecord {
    type V = SubrecordView;

    open spec fn view(&self) -> SubrecordView {
        SubrecordView {
            subrecord_type: self.subrecord_type@,
            data: self.data@,
            is_compressed: self.is_compressed,
        }
    }
}

/// Number of header bytes before the payload: the 4 tag bytes plus a 32-bit
/// length field for Morrowind, or a 16-bit length field for every other game.
pub open spec fn spec_header_len(game_id: GameId) -> int {
    if game_id == GameId::Morrowind {
        8
    } else {
        6
    }
}

/// The payload length a subrecord claims: the 32-bit length field for
/// Morrowind, otherwise a non-zero override, otherwise the 16-bit length
/// field. For Morrowind the override is never read.
pub open spec fn spec_data_len(input: Seq<u8>, game_id: GameId, data_length_override: u32) -> int
    recommends
        input.len() >= spec_header_len(game_id),
{
    if game_id == GameId::Morrowind {
        spec_u32_from_le_bytes(input.subrange(4, 8)) as int
    } else if data_length_override != 0 {
        data_length_override as int
    } else {
        spec_u16_from_le_bytes(input.subrange(4, 6)) as int
    }
}

/// What parsing returns on every input: the unconsumed tail and the parsed
/// subrecord, or the error. The tag must be 4 bytes of valid UTF-8; the
/// payload follows the header and is as long as [`spec_data_len`] claims;
/// missing bytes surface as `IncompleteInput`, a tag that is not UTF-8 as
/// `MalformedInput`.
pub open spec fn spec_parse(
    input: Seq<u8>,
    game_id: GameId,
    data_length_override: u32,
    is_compressed: bool,
) -> Result<(Seq<u8>, SubrecordView), SubrecordError> {
    let header_len = spec_header_len(game_id);
    let data_len = spec_data_len(input, game_id, data_length_override);
    if input.len() < 4 {
        Err(SubrecordError::IncompleteInput)
    } else if !valid_utf8(input.subrange(0, 4)) {
        Err(SubrecordError::MalformedInput)
    } else if input.len() < header_len || input.len() - header_len < data_len {
        Err(SubrecordError::IncompleteInput)
    } else {
        Ok(
            (
                input.subrange(header_len + data_len, input.len() as int),
                SubrecordView {
                    subrecord_type: decode_utf8(input.subrange(0, 4)),
                    data: input.subrange(header_len, header_len + data_len),
                    is_compressed,
                },
            ),
        )
    }
}

/// What decompression returns for every subrecord value: the payload itself
/// when the subrecord is not compressed, otherwise the DEFLATE decoding of the
/// payload behind its 4-byte uncompressed-size hint.
pub open spec fn spec_decompress(s: SubrecordView) -> Result<Seq<u8>, SubrecordError> {
    if !s.is_compressed {
        Ok(s.data)
    } else {
        match spec_inflate(s.data.skip(4)) {
            Some(out) => Ok(out),
            None => Err(SubrecordError::DecompressionFailure),
        }
    }
}

/// Relies on `String::from_utf8` from std: it succeeds exactly when the bytes
/// are valid UTF-8, and the returned string holds the characters those bytes
/// encode.
#[verifier::external_body]
fn string_from_utf8(bytes: Vec<u8>) -> (r: Option<String>)
    ensures
        r is Some <==> valid_utf8(bytes@),
        r matches Some(tag) ==> tag@ == decode_utf8(bytes@),
{
    String::from_utf8(bytes).ok()
}

/// Reads the four-byte type tag from the start of the input and decodes it as
/// UTF-8 text.
fn parse_type_tag(input: &[u8]) -> (r: Result<String, SubrecordError>)
    ensures
        input@.len() < 4 ==> r == Err::<String, SubrecordError>(SubrecordError::IncompleteInput),
        input@.len() >= 4 && !valid_utf8(input@.subrange(0, 4)) ==> r == Err::<
            String,
            SubrecordError,
        >(SubrecordError::MalformedInput),
        input@.len() >= 4 && valid_utf8(input@.subrange(0, 4)) ==> (r matches Ok(tag) && tag@
            == decode_utf8(input@.subrange(0, 4))),
{
    if input.len() < 4 {
        return Err(SubrecordError::IncompleteInput);
    }
    let tag_bytes = slice_to_vec(slice_subrange(input, 0, 4));
    match string_from_utf8(tag_bytes) {
        Some(tag) => Ok(tag),
        None => Err(SubrecordError::MalformedInput),
    }
}

impl Subrecord {
    /// Parses one subrecord from the start of `input` and returns the
    /// unconsumed tail alongside it, exactly as [`spec_parse`] describes.
    ///
    /// Morrowind subrecords use the long-length variant and ignore
    /// `data_length_override`; for every other game a non-zero override
    /// selects the presized variant, where the on-wire 16-bit length field is
    /// consumed but its value discarded, and a zero override selects the
    /// short-length variant. The compression flag is stored verbatim.
    pub fn new<'a>(
        input: &'a [u8],
        game_id: GameId,
        data_length_override: u32,
        is_compressed: bool,
    ) -> (r: Result<(&'a [u8], Subrecord), SubrecordError>)
        ensures
            (match r {
                Ok((remaining, subrecord)) => spec_parse(
                    input@,
                    game_id,
                    data_length_override,
                    is_compressed,
                ) == Ok::<(Seq<u8>, SubrecordView), SubrecordError>((remaining@, subrecord@)),
                Err(e) => spec_parse(input@, game_id, data_length_override, is_compressed)
                    == Err::<(Seq<u8>, SubrecordView), SubrecordError>(e),
            }),
    {
        let subrecord_type = match parse_type_tag(input) {
            Ok(tag) => tag,
            Err(e) => {
                return Err(e);
            },
        };
        let header_len: usize = if game_id == GameId::Morrowind {
            8
        } else {
            6
        };
        if input.len() < header_len {
            return Err(SubrecordError::IncompleteInput);
        }
        let data_len: usize = if game_id == GameId::Morrowind {
            u32_from_le_bytes(slice_subrange(input, 4, 8)) as usize
        } else if data_length_override != 0 {
            data_length_override as usize
        } else {
            u16_from_le_bytes(slice_subrange(input, 4, 6)) as usize
        };
        if input.len() - header_len < data_len {
            return Err(SubrecordError::IncompleteInput);
        }
        let data = slice_to_vec(slice_subrange(input, header_len, header_len + data_len));
        let remaining = slice_subrange(input, header_len + data_len, input.len());
        Ok((remaining, Subrecord { subrecord_type, data, is_compressed }))
    }

    /// Returns the usable payload: a copy of `data` when the subrecord is not
    /// compressed, otherwise the DEFLATE decoding of `data` behind its 4-byte
    /// uncompressed-size hint, exactly as [`spec_decompress`] describes. The
    /// hint itself is never verified against the produced length.
    pub fn decompress_data(&self) -> (r: Result<Vec<u8>, SubrecordError>)
        requires
            self.is_compressed ==> self.data@.len() >= 4,
        ensures
            (match r {
                Ok(out) => spec_decompress(self@) == Ok::<Seq<u8>, SubrecordError>(out@),
                Err(e) => spec_decompress(self@) == Err::<Seq<u8>, SubrecordError>(e),
            }),
    {
        if !self.is_compressed {
            return Ok(slice_to_vec(self.data.as_slice()));
        }
        let compressed = slice_subrange(self.data.as_slice(), 4, self.data.len());
        match inflate(compressed) {
            Some(out) => Ok(out),
            None => Err(SubrecordError::DecompressionFailure),
        }
    }
}

/// Law: a parsed subrecord's type tag is the UTF-8 decoding of the first four
/// input bytes, so its UTF-8 encoding is exactly four bytes long.
pub proof fn lemma_type_tag_is_four_bytes(
    input: Seq<u8>,
    game_id: GameId,
    data_length_override: u32,
    is_compressed: bool,
)
    ensures
        spec_parse(input, game_id, data_length_override, is_compressed) matches Ok(p) ==> {
            &&& p.1.subrecord_type == decode_utf8(input.subrange(0, 4))
            &&& encode_utf8(p.1.subrecord_type).len() == 4
        },
{
    if spec_parse(input, game_id, data_length_override, is_compressed) is Ok {
        vstd::utf8::decode_utf8_encode_utf8(input.subrange(0, 4));
    }
}

proof fn lemma_ascii_decode_is_bytewise(bytes: Seq<u8>)
    requires
        valid_utf8(bytes),
        forall|i: int| 0 <= i < bytes.len() ==> bytes[i] < 0x80,
    ensures
        decode_utf8(bytes).len() == bytes.len(),
        forall|i: int| 0 <= i < bytes.len() ==> decode_utf8(bytes)[i] == bytes[i] as char,
    decreases bytes.len(),
{
    if bytes.len() != 0 {
        assert(vstd::utf8::is_leading_byte_width_1(bytes[0]));
        assert(vstd::utf8::length_of_first_scalar(bytes) == 1);
        let b = bytes[0];
        assert(b & 0x7F == b) by (bit_vector)
            requires
                b < 0x80,
        ;
        let rest = vstd::utf8::pop_first_scalar(bytes);
        assert(rest =~= bytes.subrange(1, bytes.len() as int));
        lemma_ascii_decode_is_bytewise(rest);
        assert(decode_utf8(bytes) == seq![(b as u32) as char] + decode_utf8(rest));
        assert((b as u32) as char == b as char);
    }
}

/// Law: when the four tag bytes are ASCII, as they are in practice for this
/// format, the parsed type tag has exactly four characters, each the
/// corresponding input byte.
pub proof fn lemma_ascii_type_tag_has_four_chars(
    input: Seq<u8>,
    game_id: GameId,
    data_length_override: u32,
    is_compressed: bool,
)
    requires
        input.len() >= 4,
        forall|i: int| 0 <= i < 4 ==> input[i] < 0x80,
    ensures
        spec_parse(input, game_id, data_length_override, is_compressed) matches Ok(p) ==> {
            &&& p.1.subrecord_type.len() == 4
            &&& forall|i: int| 0 <= i < 4 ==> p.1.subrecord_type[i] == input[i] as char
        },
{
    if spec_parse(input, game_id, data_length_override, is_compressed) is Ok {
        let tag = input.subrange(0, 4);
        assert(forall|i: int| 0 <= i < tag.len() ==> tag[i] == input[i] && tag[i] < 0x80);
        lemma_ascii_decode_is_bytewise(tag);
    }
}

/// Law: for Morrowind the long-length variant applies: the payload is exactly
/// as long as the 32-bit little-endian length field claims, whatever the
/// override was.
pub proof fn lemma_long_length_variant(
    input: Seq<u8>,
    data_length_override: u32,
    is_compressed: bool,
)
    ensures
        spec_parse(input, GameId::Morrowind, data_length_override, is_compressed) matches Ok(p)
            ==> {
            &&& p.1.data.len() == spec_u32_from_le_bytes(input.subrange(4, 8))
            &&& p.1.data == input.subrange(8, 8 + spec_u32_from_le_bytes(input.subrange(4, 8)))
        },
{
}

/// Law: with a zero override and a game other than Morrowind, the
/// short-length variant applies: the payload is exactly as long as the 16-bit
/// little-endian length field claims.
pub proof fn lemma_short_length_variant(input: Seq<u8>, game_id: GameId, is_compressed: bool)
    requires
        game_id != GameId::Morrowind,
    ensures
        spec_parse(input, game_id, 0, is_compressed) matches Ok(p) ==> {
            &&& p.1.data.len() == spec_u16_from_le_bytes(input.subrange(4, 6))
            &&& p.1.data == input.subrange(6, 6 + spec_u16_from_le_bytes(input.subrange(4, 6)))
        },
{
}

/// Law: with a non-zero override and a game other than Morrowind, the
/// presized variant applies: the payload is exactly `data_length_override`
/// bytes long and starts right after the consumed 16-bit length field.
pub proof fn lemma_presized_variant(
    input: Seq<u8>,
    game_id: GameId,
    data_length_override: u32,
    is_compressed: bool,
)
    requires
        game_id != GameId::Morrowind,
        data_length_override != 0,
    ensures
        spec_parse(input, game_id, data_length_override, is_compressed) matches Ok(p) ==> {
            &&& p.1.data.len() == data_length_override
            &&& p.1.data == input.subrange(6, 6 + data_length_override)
        },
{
}

/// Law: in the presized variant the on-wire 16-bit length field is consumed
/// but its value ignored: two inputs that differ at most in bytes 4 and 5
/// parse to the same outcome.
pub proof fn lemma_presized_ignores_wire_length(
    a: Seq<u8>,
    b: Seq<u8>,
    game_id: GameId,
    data_length_override: u32,
    is_compressed: bool,
)
    requires
        game_id != GameId::Morrowind,
        data_length_override != 0,
        a.len() == b.len(),
        forall|i: int| 0 <= i < a.len() && i != 4 && i != 5 ==> a[i] == b[i],
    ensures
        spec_parse(a, game_id, data_length_override, is_compressed) == spec_parse(
            b,
            game_id,
            data_length_override,
            is_compressed,
        ),
{
    if a.len() >= 4 {
        assert(a.subrange(0, 4) =~= b.subrange(0, 4));
        let data_len = data_length_override as int;
        if valid_utf8(a.subrange(0, 4)) && a.len() >= 6 && a.len() - 6 >= data_len {
            assert(a.subrange(6, 6 + data_len) =~= b.subrange(6, 6 + data_len));
            assert(a.subrange(6 + data_len, a.len() as int) =~= b.subrange(
                6 + data_len,
                b.len() as int,
            ));
        }
    }
}

/// Law: for Morrowind the length override is ignored: parsing with any
/// override yields the same outcome as parsing with none.
pub proof fn lemma_morrowind_ignores_override(
    input: Seq<u8>,
    data_length_override: u32,
    is_compressed: bool,
)
    ensures
        spec_parse(input, GameId::Morrowind, data_length_override, is_compressed) == spec_parse(
            input,
            GameId::Morrowind,
            0,
            is_compressed,
        ),
{
}

/// Law: the compression flag is stored verbatim: a parsed subrecord carries
/// exactly the flag the parser was given.
pub proof fn lemma_compression_flag_propagated(
    input: Seq<u8>,
    game_id: GameId,
    data_length_override: u32,
    is_compressed: bool,
)
    ensures
        spec_parse(input, game_id, data_length_override, is_compressed) matches Ok(p)
            ==> p.1.is_compressed == is_compressed,
{
}

/// Law: decompressing an uncompressed subrecord yields exactly its payload.
pub proof fn lemma_decompress_uncompressed(s: SubrecordView)
    requires
        !s.is_compressed,
    ensures
        spec_decompress(s) == Ok::<Seq<u8>, SubrecordError>(s.data),
{
}

} // verus!

//! Decoding of the EDID base block: the identity that a display reports of
//! itself in the first 128 bytes of its EDID data.

use crate::monitor::registry;
use crate::text::{decimal, decimal_string};
use vstd::prelude::*;

verus! {

/// The pattern that opens every EDID block.
pub const EDID_MAGIC_ID: [u8; 8] = [0x00, 0xFF, 0xFF, 0xFF, 0xFF, 0xFF, 0xFF, 0x00];

/// The length of the magic id, in bytes.
pub const EDID_MAGIC_ID_LENGTH: u64 = 8;

/// The length of the base block, in bytes.
pub const EDID_MIN_LENGTH: u64 = 128;

/// Where the two bytes of the manufacturer id start.
pub const EDID_MANUFACTURER_ID_OFFSET: usize = 8;

/// Where the two bytes of the product code start.
pub const EDID_MANUFACTURER_PRODUCT_CODE_OFFSET: usize = 10;

/// Where the three bytes of the serial number start.
pub const EDID_MANUFACTURER_SERIAL_NUMBER_OFFSET: usize = 12;

/// Why a stream is no EDID block.
#[derive(Debug, Clone, Copy, PartialEq, Eq, Structural)]
pub enum EdidErrorKind {
    /// The stream does not begin with the magic id.
    InvalidMagicId,
    /// The stream is shorter than what is to be read from it.
    UnexpectedEndOfStream,
}

/// A failed decoding: its kind, and a message for the reader.
#[derive(Debug)]
pub struct EdidError {
    message: String,
    kind: EdidErrorKind,
}

/// An `EdidError` as plain values.
pub struct EdidErrorView {
    pub message: Seq<char>,
    pub kind: EdidErrorKind,
}

impl View for EdidError {
    type V = EdidErrorView;

    closed spec fn view(&self) -> EdidErrorView {
        EdidErrorView { message: self.message@, kind: self.kind }
    }
}

impl EdidError {
    /// An error of the given kind with the given message.
    pub fn new(message: String, kind: EdidErrorKind) -> (error: EdidError)
        ensures
            error@ == (EdidErrorView { message: message@, kind }),
    {
        EdidError { message, kind }
    }

    /// The message for the reader.
    pub fn message(&self) -> (message: &str)
        ensures
            message@ == self@.message,
    {
        self.message.as_str()
    }

    /// The kind of the failure.
    pub fn kind(&self) -> (kind: EdidErrorKind)
        ensures
            kind == self@.kind,
    {
        self.kind
    }
}

/// The message of a stream that holds `found` bytes where `expected` are needed.
pub open spec fn short_stream_message(expected: nat, found: nat) -> Seq<char> {
    "Expected EDID data stream to contain at least "@ + decimal(expected) + " bytes, found "@
        + decimal(found) + " bytes"@
}

/// The error of a stream that holds `found` bytes where `expected` are needed.
pub open spec fn short_stream_error(expected: nat, found: nat) -> EdidErrorView {
    EdidErrorView {
        message: short_stream_message(expected, found),
        kind: EdidErrorKind::UnexpectedEndOfStream,
    }
}

/// The error of a stream that begins with other bytes than the magic id.
pub open spec fn invalid_magic_id_error() -> EdidErrorView {
    EdidErrorView {
        message: "Stream header does not contain valid EDID magic id pattern"@,
        kind: EdidErrorKind::InvalidMagicId,
    }
}

/// Whether the stream begins with the magic id.
pub open spec fn begins_with_magic_id(stream: Seq<u8>) -> bool {
    &&& stream.len() >= 8
    &&& stream.subrange(0, 8) == EDID_MAGIC_ID@
}

/// The check of the magic id: a stream too short to hold it is reported as
/// such, and one that holds other bytes in its place as invalid.
pub open spec fn magic_id_check(stream: Seq<u8>) -> Result<(), EdidErrorView> {
    if stream.len() < 8 {
        Err(short_stream_error(8, stream.len()))
    } else if !begins_with_magic_id(stream) {
        Err(invalid_magic_id_error())
    } else {
        Ok(())
    }
}

/// The check of the length: a base block has at least 128 bytes.
pub open spec fn stream_length_check(length: nat) -> Result<(), EdidErrorView> {
    if length >= 128 {
        Ok(())
    } else {
        Err(short_stream_error(128, length))
    }
}

/// The outcome of a check as plain values.
pub open spec fn check_view(outcome: Result<(), EdidError>) -> Result<(), EdidErrorView> {
    match outcome {
        Ok(()) => Ok(()),
        Err(error) => Err(error@),
    }
}

fn short_stream(expected: u64, found: u64) -> (error: EdidError)
    ensures
        error@ == short_stream_error(expected as nat, found as nat),
{
    let mut message: String = "Expected EDID data stream to contain at least ".to_owned();
    message.append(decimal_string(expected).as_str());
    message.append(" bytes, found ");
    message.append(decimal_string(found).as_str());
    message.append(" bytes");
    EdidError::new(message, EdidErrorKind::UnexpectedEndOfStream)
}

/// The number of the first letter of the manufacturer id: bits 6 to 2 of the
/// first byte. A letter's number has five bits, of which 1 to 26 stand for
/// `A` to `Z`.
pub open spec fn first_quintet(high: u8) -> u8 {
    ((high / 4) % 32) as u8
}

/// The number of the second letter: the low two bits of the first byte,
/// followed by the high three bits of the second.
pub open spec fn second_quintet(high: u8, low: u8) -> u8 {
    ((high % 4) * 8 + low / 32) as u8
}

/// The number of the third letter: the low five bits of the second byte.
pub open spec fn third_quintet(low: u8) -> u8 {
    (low % 32) as u8
}

/// The character for a letter's number: `A` for 1, up to `Z` for 26. The
/// numbers beyond that range are no letters and give the characters that lie
/// around the letters in ASCII: `@` for 0, and `[`, `\`, `]`, `^`, `_` for 27
/// to 31.
pub open spec fn letter(quintet: u8) -> char {
    (64 + quintet) as char
}

/// The manufacturer id that the stream holds at offset 8.
pub open spec fn manufacturer_id_of(stream: Seq<u8>) -> Seq<char>
    recommends
        stream.len() >= 128,
{
    seq![
        letter(first_quintet(stream[8])),
        letter(second_quintet(stream[8], stream[9])),
        letter(third_quintet(stream[9])),
    ]
}

/// The product code that the stream holds at offset 10, low byte first.
pub open spec fn product_code_of(stream: Seq<u8>) -> u16
    recommends
        stream.len() >= 128,
{
    (stream[10] + 256 * stream[11]) as u16
}

/// The serial number that the stream holds at offset 12, low byte first.
pub open spec fn serial_number_of(stream: Seq<u8>) -> u32
    recommends
        stream.len() >= 128,
{
    (stream[12] + 256 * stream[13] + 65536 * stream[14]) as u32
}

/// The identity of a display, as decoded from its EDID base block.
#[derive(Debug)]
pub struct Edid {
    manufacturer_id: String,
    manufacturer_name: String,
    product_code: u16,
    serial_number: u32,
}

/// An `Edid` as plain values.
pub struct EdidView {
    pub manufacturer_id: Seq<char>,
    pub manufacturer_name: Seq<char>,
    pub product_code: u16,
    pub serial_number: u32,
}

impl Edid {
    /// What holds of every identity: the id has three characters, each from
    /// the 32 that a letter's number can give, and the serial number has 24
    /// bits.
    #[verifier::type_invariant]
    closed spec fn well_formed(&self) -> bool {
        &&& self.manufacturer_id@.len() == 3
        &&& forall|at: int| 0 <= at < 3 ==> 64 <= #[trigger] self.manufacturer_id@[at] as int <= 95
        &&& self.serial_number < 0x100_0000
    }
}

impl View for Edid {
    type V = EdidView;

    closed spec fn view(&self) -> EdidView {
        EdidView {
            manufacturer_id: self.manufacturer_id@,
            manufacturer_name: self.manufacturer_name@,
            product_code: self.product_code,
            serial_number: self.serial_number,
        }
    }
}

/// What a valid base block decodes to.
pub open spec fn decoded(stream: Seq<u8>) -> EdidView
    recommends
        stream.len() >= 128,
{
    EdidView {
        manufacturer_id: manufacturer_id_of(stream),
        manufacturer_name: registry::registry_name(
            registry::EDID_PNP_TABLE@,
            manufacturer_id_of(stream),
        ),
        product_code: product_code_of(stream),
        serial_number: serial_number_of(stream),
    }
}

/// What `Edid::parse` makes of a stream: the magic id is checked first, then
/// the length, and only a stream that passes both is decoded.
pub open spec fn parse_outcome(stream: Seq<u8>) -> Result<EdidView, EdidErrorView> {
    match magic_id_check(stream) {
        Err(error) => Err(error),
        Ok(()) => match stream_length_check(stream.len()) {
            Err(error) => Err(error),
            Ok(()) => Ok(decoded(stream)),
        },
    }
}

/// The outcome of a decoding as plain values.
pub open spec fn outcome_view(outcome: Result<Edid, EdidError>) -> Result<EdidView, EdidErrorView> {
    match outcome {
        Ok(edid) => Ok(edid@),
        Err(error) => Err(error@),
    }
}

/// Whether a decoding failed with the given error.
pub open spec fn fails_with(outcome: Result<Edid, EdidError>, error: EdidErrorView) -> bool {
    outcome matches Err(found) && found@ == error
}

/// Whether a decoding gave the given identity.
pub open spec fn succeeds_with(outcome: Result<Edid, EdidError>, edid: EdidView) -> bool {
    outcome matches Ok(found) && found@ == edid
}

fn letter_of(quintet: u8) -> (ch: char)
    requires
        quintet < 32,
    ensures
        ch == letter(quintet),
{
    (64u8 + quintet) as char
}

impl Edid {
    /// Checks that the stream begins with the magic id.
    pub fn assert_magic_id(stream: &[u8]) -> (outcome: Result<(), EdidError>)
        ensures
            check_view(outcome) == magic_id_check(stream@),
    {
        if stream.len() < 8 {
            return Err(short_stream(EDID_MAGIC_ID_LENGTH, stream.len() as u64));
        }
        let mut at: usize = 0;
        while at < 8
            invariant
                at <= 8 <= stream@.len(),
                forall|k: int| 0 <= k < at ==> stream@[k] == EDID_MAGIC_ID@[k],
            decreases 8 - at,
        {
            if stream[at] != EDID_MAGIC_ID[at] {
                return Err(
                    EdidError::new(
                        "Stream header does not contain valid EDID magic id pattern".to_owned(),
                        EdidErrorKind::InvalidMagicId,
                    ),
                );
            }
            at += 1;
        }
        assert(stream@.subrange(0, 8) =~= EDID_MAGIC_ID@);
        Ok(())
    }

    /// Checks that a stream of `length` bytes can hold a base block.
    pub fn assert_stream_length(length: u64) -> (outcome: Result<(), EdidError>)
        ensures
            check_view(outcome) == stream_length_check(length as nat),
    {
        if length >= EDID_MIN_LENGTH {
            Ok(())
        } else {
            Err(short_stream(EDID_MIN_LENGTH, length))
        }
    }

    /// Decodes the manufacturer id: three letters of five bits each, packed
    /// into the two bytes at offset 8.
    pub fn parse_manufacturer_id(stream: &[u8]) -> (id: String)
        requires
            stream@.len() >= EDID_MIN_LENGTH,
        ensures
            id@ == manufacturer_id_of(stream@),
    {
        let high: u8 = stream[EDID_MANUFACTURER_ID_OFFSET];
        let low: u8 = stream[EDID_MANUFACTURER_ID_OFFSET + 1];
        let first: u8 = (high & 0b0111_1100) >> 2;
        let second: u8 = ((high & 0b0000_0011) << 3) | ((low & 0b1110_0000) >> 5);
        let third: u8 = low & 0b0001_1111;
        assert(first == (high / 4) % 32) by (bit_vector)
            requires
                first == (high & 0b0111_1100) >> 2,
        ;
        assert(second == (high % 4) * 8 + low / 32) by (bit_vector)
            requires
                second == ((high & 0b0000_0011) << 3) | ((low & 0b1110_0000) >> 5),
        ;
        assert(third == low % 32) by (bit_vector)
            requires
                third == low & 0b0001_1111,
        ;
        let mut id = String::new();
        id.push(letter_of(first));
        id.push(letter_of(second));
        id.push(letter_of(third));
        id
    }

    /// Resolves a manufacturer id to the company's name by the built-in
    /// vendor table; an id that the table does not hold gets the placeholder.
    pub fn get_manufacturer_name(manufacturer_id: &str) -> (name: String)
        ensures
            name@ == registry::registry_name(registry::EDID_PNP_TABLE@, manufacturer_id@),
    {
        registry::lookup(registry::EDID_PNP_TABLE, manufacturer_id)
    }

    /// Decodes the product code: the two bytes at offset 10, low byte first.
    pub fn parse_product_code(stream: &[u8]) -> (code: u16)
        requires
            stream@.len() >= EDID_MIN_LENGTH,
        ensures
            code == product_code_of(stream@),
    {
        let low: u8 = stream[EDID_MANUFACTURER_PRODUCT_CODE_OFFSET];
        let high: u8 = stream[EDID_MANUFACTURER_PRODUCT_CODE_OFFSET + 1];
        let code: u16 = (low as u16) | ((high as u16) << 8);
        assert(code == low + 256 * high) by (bit_vector)
            requires
                code == (low as u16) | ((high as u16) << 8),
        ;
        code
    }

    /// Decodes the serial number: the three bytes at offset 12, low byte
    /// first, as a number below 2^24.
    pub fn parse_manufacturer_serial_number(stream: &[u8]) -> (serial: u32)
        requires
            stream@.len() >= EDID_MIN_LENGTH,
        ensures
            serial == serial_number_of(stream@),
            serial < 0x100_0000,
    {
        let low: u8 = stream[EDID_MANUFACTURER_SERIAL_NUMBER_OFFSET];
        let middle: u8 = stream[EDID_MANUFACTURER_SERIAL_NUMBER_OFFSET + 1];
        let high: u8 = stream[EDID_MANUFACTURER_SERIAL_NUMBER_OFFSET + 2];
        let serial: u32 = (low as u32) | ((middle as u32) << 8) | ((high as u32) << 16);
        assert(serial == low + 256 * middle + 65536 * high) by (bit_vector)
            requires
                serial == (low as u32) | ((middle as u32) << 8) | ((high as u32) << 16),
        ;
        serial
    }

    /// Decodes the identity of a display from its EDID data. The stream must
    /// begin with the magic id and hold a whole base block; what follows the
    /// base block is not read. The magic id is checked before the length, so
    /// that a stream of eight bytes or more which does not begin with it is
    /// reported as invalid however short it is. A manufacturer that the
    /// vendor table does not hold is no failure: it gets the placeholder name.
    pub fn parse(stream: &[u8]) -> (outcome: Result<Edid, EdidError>)
        ensures
            outcome_view(outcome) == parse_outcome(stream@),
            stream@.len() < 8 ==> fails_with(outcome, short_stream_error(8, stream@.len())),
            stream@.len() >= 8 && !begins_with_magic_id(stream@) ==> fails_with(
                outcome,
                invalid_magic_id_error(),
            ),
            begins_with_magic_id(stream@) && stream@.len() < 128 ==> fails_with(
                outcome,
                short_stream_error(128, stream@.len()),
            ),
            begins_with_magic_id(stream@) && stream@.len() >= 128 ==> succeeds_with(
                outcome,
                decoded(stream@),
            ),
    {
        let length: u64 = stream.len() as u64;
        match Self::assert_magic_id(stream) {
            Err(error) => {
                return Err(error);
            },
            Ok(()) => {},
        }
        match Self::assert_stream_length(length) {
            Err(error) => {
                return Err(error);
            },
            Ok(()) => {},
        }
        let manufacturer_id = Self::parse_manufacturer_id(stream);
        let manufacturer_name = Self::get_manufacturer_name(manufacturer_id.as_str());
        let product_code = Self::parse_product_code(stream);
        let serial_number = Self::parse_manufacturer_serial_number(stream);
        Ok(Edid { manufacturer_id, manufacturer_name, product_code, serial_number })
    }

    /// The three letters of the manufacturer id.
    pub fn manufacturer_id(&self) -> (id: &str)
        ensures
            id@ == self@.manufacturer_id,
    {
        self.manufacturer_id.as_str()
    }

    /// The manufacturer's name.
    pub fn manufacturer_name(&self) -> (name: &str)
        ensures
            name@ == self@.manufacturer_name,
    {
        self.manufacturer_name.as_str()
    }

    /// The product code.
    pub fn product_code(&self) -> (code: u16)
        ensures
            code == self@.product_code,
    {
        self.product_code
    }

    /// The serial number, a number below 2^24.
    pub fn serial_number(&self) -> (serial: u32)
        ensures
            serial == self@.serial_number,
            serial < 0x100_0000,
    {
        proof {
            use_type_invariant(self);
        }
        self.serial_number
    }
}

/// The number that stands for a letter in the manufacturer id: 1 for `A`,
/// up to 26 for `Z`.
pub open spec fn quintet_of(letter: char) -> u8
    recommends
        'A' <= letter <= 'Z',
{
    (letter as int - 64) as u8
}

/// The seven bytes that follow the magic id in the block of a display with
/// the given identity: the three letters packed into two bytes, then the
/// product code and the serial number, each low byte first.
pub open spec fn identity_bytes(
    letters: (char, char, char),
    product_code: u16,
    serial_number: u32,
) -> Seq<u8>
    recommends
        'A' <= letters.0 <= 'Z',
        'A' <= letters.1 <= 'Z',
        'A' <= letters.2 <= 'Z',
        serial_number < 0x100_0000,
{
    seq![
        (quintet_of(letters.0) * 4 + quintet_of(letters.1) / 8) as u8,
        ((quintet_of(letters.1) % 8) * 32 + quintet_of(letters.2)) as u8,
        (product_code % 256) as u8,
        (product_code / 256) as u8,
        (serial_number % 256) as u8,
        ((serial_number / 256) % 256) as u8,
        (serial_number / 65536) as u8,
    ]
}

/// The numbers 1 to 26 give the letters `A` to `Z`, in order.
pub proof fn lemma_letters(quintet: u8)
    requires
        1 <= quintet <= 26,
    ensures
        'A' <= letter(quintet) <= 'Z',
        letter(quintet) as int == 'A' as int + (quintet - 1),
        quintet_of(letter(quintet)) == quintet,
{
}

/// Decoding gives back what a block was made from: a stream of at least 128
/// bytes that begins with the magic id and holds, from offset 8 on, the
/// bytes of an identity decodes to the letters, the product code and the
/// serial number of that identity.
pub proof fn lemma_decoding_gives_back_identity(
    stream: Seq<u8>,
    letters: (char, char, char),
    product_code: u16,
    serial_number: u32,
)
    requires
        stream.len() >= 128,
        begins_with_magic_id(stream),
        'A' <= letters.0 <= 'Z',
        'A' <= letters.1 <= 'Z',
        'A' <= letters.2 <= 'Z',
        serial_number < 0x100_0000,
        stream.subrange(8, 15) == identity_bytes(letters, product_code, serial_number),
    ensures
        parse_outcome(stream) is Ok,
        parse_outcome(stream)->Ok_0.manufacturer_id == seq![letters.0, letters.1, letters.2],
        parse_outcome(stream)->Ok_0.manufacturer_name == registry::registry_name(
            registry::EDID_PNP_TABLE@,
            seq![letters.0, letters.1, letters.2],
        ),
        parse_outcome(stream)->Ok_0.product_code == product_code,
        parse_outcome(stream)->Ok_0.serial_number == serial_number,
{
    let bytes = identity_bytes(letters, product_code, serial_number);
    assert forall|at: int| 0 <= at < 7 implies stream[8 + at] == bytes[at] by {
        assert(stream.subrange(8, 15)[at] == stream[8 + at]);
    }
}

} // verus!

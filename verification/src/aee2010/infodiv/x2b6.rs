//! The x2b6 CAN frame: vehicle identification sequence (VIS).
use crate::bytes::{char_from_byte, char_to_byte, char_low_byte, latin1_char, lemma_byte_char_roundtrip};
use heapless::String;
use crate::{check_frame_len, length_check, Error};
use vstd::prelude::*;

pub mod field;

verus! {

/// A read/write wrapper around a x2b6 CAN frame buffer.
#[derive(Debug, PartialEq, Clone)]
pub struct Frame {
    buffer: Vec<u8>,
}

impl View for Frame {
    type V = Seq<u8>;

    closed spec fn view(&self) -> Seq<u8> {
        self.buffer@
    }
}

impl AsRef<[u8]> for Frame {
    /// The bytes of the frame.
    fn as_ref(&self) -> (bytes: &[u8])
        ensures
            bytes@ == self@,
    {
        self.buffer.as_slice()
    }
}

/// Length of a x2b6 CAN frame.
pub const FRAME_LEN: usize = field::VIS_8 + 1;

/// Periodicity of a x2b6 CAN frame, in milliseconds.
pub const PERIODICITY_MS: u64 = 1000;

impl Frame {
    /// Create a raw octet buffer with a CAN frame structure.
    pub fn new_unchecked(buffer: Vec<u8>) -> (frame: Frame)
        ensures
            frame@ == buffer@,
    {
        Frame { buffer }
    }

    /// Shorthand for a combination of `new_unchecked` and `check_len`.
    pub fn new_checked(buffer: Vec<u8>) -> (r: Result<Frame, Error>)
        ensures
            r is Ok <==> buffer@.len() == FRAME_LEN,
            r matches Ok(frame) ==> frame@ == buffer@,
            r matches Err(e) ==> length_check(buffer@.len(), FRAME_LEN as nat) == Err::<(), Error>(e),
    {
        let frame = Self::new_unchecked(buffer);
        match frame.check_len() {
            Ok(()) => Ok(frame),
            Err(e) => Err(e),
        }
    }

    /// Ensure that no accessor method will panic if called.
    /// Returns `Err(Error::Truncated)` if the buffer is too short and
    /// `Err(Error::Overlong)` if it is too long.
    pub fn check_len(&self) -> (r: Result<(), Error>)
        ensures
            r == length_check(self@.len(), FRAME_LEN as nat),
    {
        check_frame_len(self.buffer.len(), FRAME_LEN)
    }

    /// Consume the frame, returning the underlying buffer.
    pub fn into_inner(self) -> (buffer: Vec<u8>)
        ensures
            buffer@ == self@,
    {
        self.buffer
    }

    /// Return the frame length.
    pub fn frame_len(&self) -> (len: usize)
        ensures
            len == FRAME_LEN,
    {
        FRAME_LEN
    }

    /// Return the VIS first char.
    pub fn vis_first_char(&self) -> (value: char)
        requires
            field::VIS_1 < self@.len(),
        ensures
            value == latin1_char(self@[field::VIS_1 as int]),
    {
        char_from_byte(self.buffer[field::VIS_1])
    }

    /// Return the VIS second char.
    pub fn vis_second_char(&self) -> (value: char)
        requires
            field::VIS_2 < self@.len(),
        ensures
            value == latin1_char(self@[field::VIS_2 as int]),
    {
        char_from_byte(self.buffer[field::VIS_2])
    }

    /// Return the VIS third char.
    pub fn vis_third_char(&self) -> (value: char)
        requires
            field::VIS_3 < self@.len(),
        ensures
            value == latin1_char(self@[field::VIS_3 as int]),
    {
        char_from_byte(self.buffer[field::VIS_3])
    }

    /// Return the VIS fourth char.
    pub fn vis_fourth_char(&self) -> (value: char)
        requires
            field::VIS_4 < self@.len(),
        ensures
            value == latin1_char(self@[field::VIS_4 as int]),
    {
        char_from_byte(self.buffer[field::VIS_4])
    }

    /// Return the VIS fifth char.
    pub fn vis_fifth_char(&self) -> (value: char)
        requires
            field::VIS_5 < self@.len(),
        ensures
            value == latin1_char(self@[field::VIS_5 as int]),
    {
        char_from_byte(self.buffer[field::VIS_5])
    }

    /// Return the VIS sixth char.
    pub fn vis_sixth_char(&self) -> (value: char)
        requires
            field::VIS_6 < self@.len(),
        ensures
            value == latin1_char(self@[field::VIS_6 as int]),
    {
        char_from_byte(self.buffer[field::VIS_6])
    }

    /// Return the VIS seventh char.
    pub fn vis_seventh_char(&self) -> (value: char)
        requires
            field::VIS_7 < self@.len(),
        ensures
            value == latin1_char(self@[field::VIS_7 as int]),
    {
        char_from_byte(self.buffer[field::VIS_7])
    }

    /// Return the VIS eighth char.
    pub fn vis_eighth_char(&self) -> (value: char)
        requires
            field::VIS_8 < self@.len(),
        ensures
            value == latin1_char(self@[field::VIS_8 as int]),
    {
        char_from_byte(self.buffer[field::VIS_8])
    }

    /// Set the VIS first char.
    pub fn set_vis_first_char(&mut self, value: char)
        requires
            field::VIS_1 < old(self)@.len(),
        ensures
            final(self)@ == old(self)@.update(field::VIS_1 as int, char_low_byte(value)),
    {
        self.buffer.set(field::VIS_1, char_to_byte(value));
    }

    /// Set the VIS second char.
    pub fn set_vis_second_char(&mut self, value: char)
        requires
            field::VIS_2 < old(self)@.len(),
        ensures
            final(self)@ == old(self)@.update(field::VIS_2 as int, char_low_byte(value)),
    {
        self.buffer.set(field::VIS_2, char_to_byte(value));
    }

    /// Set the VIS third char.
    pub fn set_vis_third_char(&mut self, value: char)
        requires
            field::VIS_3 < old(self)@.len(),
        ensures
            final(self)@ == old(self)@.update(field::VIS_3 as int, char_low_byte(value)),
    {
        self.buffer.set(field::VIS_3, char_to_byte(value));
    }

    /// Set the VIS fourth char.
    pub fn set_vis_fourth_char(&mut self, value: char)
        requires
            field::VIS_4 < old(self)@.len(),
        ensures
            final(self)@ == old(self)@.update(field::VIS_4 as int, char_low_byte(value)),
    {
        self.buffer.set(field::VIS_4, char_to_byte(value));
    }

    /// Set the VIS fifth char.
    pub fn set_vis_fifth_char(&mut self, value: char)
        requires
            field::VIS_5 < old(self)@.len(),
        ensures
            final(self)@ == old(self)@.update(field::VIS_5 as int, char_low_byte(value)),
    {
        self.buffer.set(field::VIS_5, char_to_byte(value));
    }

    /// Set the VIS sixth char.
    pub fn set_vis_sixth_char(&mut self, value: char)
        requires
            field::VIS_6 < old(self)@.len(),
        ensures
            final(self)@ == old(self)@.update(field::VIS_6 as int, char_low_byte(value)),
    {
        self.buffer.set(field::VIS_6, char_to_byte(value));
    }

    /// Set the VIS seventh char.
    pub fn set_vis_seventh_char(&mut self, value: char)
        requires
            field::VIS_7 < old(self)@.len(),
        ensures
            final(self)@ == old(self)@.update(field::VIS_7 as int, char_low_byte(value)),
    {
        self.buffer.set(field::VIS_7, char_to_byte(value));
    }

    /// Set the VIS eighth char.
    pub fn set_vis_eighth_char(&mut self, value: char)
        requires
            field::VIS_8 < old(self)@.len(),
        ensures
            final(self)@ == old(self)@.update(field::VIS_8 as int, char_low_byte(value)),
    {
        self.buffer.set(field::VIS_8, char_to_byte(value));
    }
}

/// The `heapless` string type of fixed capacity.
#[verifier::external_type_specification]
#[verifier::external_body]
pub struct ExHeaplessString<const N: usize>(heapless::String<N>);

/// The characters that a string of at most 8 bytes holds.
pub uninterp spec fn vis_chars(s: String<8>) -> Seq<char>;

/// The number of bytes of the UTF-8 encoding of a character.
pub open spec fn char_utf8_len(c: char) -> nat {
    if (c as u32) < 0x80 {
        1
    } else if (c as u32) < 0x800 {
        2
    } else if (c as u32) < 0x10000 {
        3
    } else {
        4
    }
}

/// The number of bytes of the UTF-8 encoding of a sequence of characters.
pub open spec fn utf8_len(chars: Seq<char>) -> nat
    decreases chars.len(),
{
    if chars.len() == 0 {
        0
    } else {
        utf8_len(chars.drop_last()) + char_utf8_len(chars.last())
    }
}

/// The UTF-8 length of a sequence grows by that of the character pushed.
pub proof fn lemma_utf8_len_push(chars: Seq<char>, c: char)
    ensures
        utf8_len(chars.push(c)) == utf8_len(chars) + char_utf8_len(c),
{
    assert(chars.push(c).drop_last() =~= chars);
}

/// Makes an empty string with `heapless::String::new`, which is claimed to
/// hold no character.
#[verifier::external_body]
fn vis_new() -> (s: String<8>)
    ensures
        vis_chars(s) == Seq::<char>::empty(),
{
    String::new()
}

/// Appends a character with `heapless::String::push`, which is claimed to
/// succeed exactly when the UTF-8 encoding of the character fits in the
/// bytes left, and to leave the string unchanged when it does not.
#[verifier::external_body]
fn vis_push(s: &mut String<8>, c: char) -> (r: Result<(), ()>)
    ensures
        r is Ok <==> utf8_len(vis_chars(*old(s))) + char_utf8_len(c) <= 8,
        r is Ok ==> vis_chars(*final(s)) == vis_chars(*old(s)).push(c),
        r is Err ==> vis_chars(*final(s)) == vis_chars(*old(s)),
{
    s.push(c)
}

/// Removes the last character with `heapless::String::pop`, which is claimed
/// to return it, or `None` on an empty string.
#[verifier::external_body]
fn vis_pop(s: &mut String<8>) -> (r: Option<char>)
    ensures
        vis_chars(*old(s)).len() == 0 ==> r is None && vis_chars(*final(s)) == vis_chars(*old(s)),
        vis_chars(*old(s)).len() > 0 ==> r == Some(vis_chars(*old(s)).last()) && vis_chars(*final(s))
            == vis_chars(*old(s)).drop_last(),
{
    s.pop()
}

/// Reads a string as a string slice with `heapless::String::as_str`, which
/// is claimed to hold its characters.
#[verifier::external_body]
fn vis_as_str(s: &String<8>) -> (r: &str)
    ensures
        r@ == vis_chars(*s),
{
    s.as_str()
}

/// Copies a string with `heapless::String::clone`, which is claimed to keep
/// its characters.
#[verifier::external_body]
fn vis_clone(s: &String<8>) -> (r: String<8>)
    ensures
        vis_chars(r) == vis_chars(*s),
{
    s.clone()
}

/// A high-level representation of a x2b6 CAN frame.
#[derive(Debug, PartialEq, Eq)]
pub struct Repr {
    pub vis: String<8>,
}

impl Clone for Repr {
    /// A copy that holds the same characters.
    fn clone(&self) -> (r: Self)
        ensures
            vis_chars(r.vis) == vis_chars(self.vis),
    {
        Repr { vis: vis_clone(&self.vis) }
    }
}

impl Repr {
    /// The characters that the bytes of a frame carry, one per byte.
    pub open spec fn chars_from_bytes(bytes: Seq<u8>) -> Seq<char> {
        seq![
            latin1_char(bytes[field::VIS_1 as int]),
            latin1_char(bytes[field::VIS_2 as int]),
            latin1_char(bytes[field::VIS_3 as int]),
            latin1_char(bytes[field::VIS_4 as int]),
            latin1_char(bytes[field::VIS_5 as int]),
            latin1_char(bytes[field::VIS_6 as int]),
            latin1_char(bytes[field::VIS_7 as int]),
            latin1_char(bytes[field::VIS_8 as int]),
        ]
    }

    /// Whether the bytes of a frame are ASCII, so that their eight
    /// characters fit in the eight bytes of the string.
    pub open spec fn bytes_ascii(bytes: Seq<u8>) -> bool {
        forall|i: int| field::VIS_1 <= i <= field::VIS_8 ==> bytes[i] < 0x80
    }

    /// The bytes of a frame once the last eight of `chars` are written into
    /// them, the last character into the last byte.
    pub open spec fn emit_chars(chars: Seq<char>, bytes: Seq<u8>) -> Seq<u8> {
        let n = chars.len() as int;
        bytes.update(field::VIS_8 as int, char_low_byte(chars[n - 1])).update(
            field::VIS_7 as int,
            char_low_byte(chars[n - 2]),
        ).update(field::VIS_6 as int, char_low_byte(chars[n - 3])).update(
            field::VIS_5 as int,
            char_low_byte(chars[n - 4]),
        ).update(field::VIS_4 as int, char_low_byte(chars[n - 5])).update(
            field::VIS_3 as int,
            char_low_byte(chars[n - 6]),
        ).update(field::VIS_2 as int, char_low_byte(chars[n - 7])).update(
            field::VIS_1 as int,
            char_low_byte(chars[n - 8]),
        )
    }

    /// The bytes of a frame once `self` is emitted into them.
    pub open spec fn emit_bytes(self, bytes: Seq<u8>) -> Seq<u8> {
        Repr::emit_chars(vis_chars(self.vis), bytes)
    }

    /// Parse a x2b6 CAN frame into its high-level representation.  The bytes
    /// must be ASCII: the string holds eight bytes.
    pub fn parse(frame: &Frame) -> (r: Result<Repr, Error>)
        requires
            frame@.len() == FRAME_LEN ==> Repr::bytes_ascii(frame@),
        ensures
            r is Ok <==> frame@.len() == FRAME_LEN,
            r matches Ok(repr) ==> vis_chars(repr.vis) == Repr::chars_from_bytes(frame@),
            r matches Err(e) ==> length_check(frame@.len(), FRAME_LEN as nat) == Err::<(), Error>(e),
    {
        if let Err(e) = frame.check_len() {
            return Err(e);
        }
        let ghost bytes = frame@;
        let mut vis = vis_new();
        Self::push_char(&mut vis, frame.vis_first_char());
        Self::push_char(&mut vis, frame.vis_second_char());
        Self::push_char(&mut vis, frame.vis_third_char());
        Self::push_char(&mut vis, frame.vis_fourth_char());
        Self::push_char(&mut vis, frame.vis_fifth_char());
        Self::push_char(&mut vis, frame.vis_sixth_char());
        Self::push_char(&mut vis, frame.vis_seventh_char());
        Self::push_char(&mut vis, frame.vis_eighth_char());
        assert(vis_chars(vis) =~= Repr::chars_from_bytes(bytes));
        Ok(Repr { vis })
    }

    /// Appends an ASCII character to a string that has room for it.
    fn push_char(vis: &mut String<8>, c: char)
        requires
            (c as u32) < 0x80,
            vis_chars(*old(vis)).len() < 8,
            utf8_len(vis_chars(*old(vis))) == vis_chars(*old(vis)).len(),
        ensures
            vis_chars(*final(vis)) == vis_chars(*old(vis)).push(c),
            utf8_len(vis_chars(*final(vis))) == vis_chars(*final(vis)).len(),
    {
        proof {
            lemma_utf8_len_push(vis_chars(*vis), c);
        }
        let r = vis_push(vis, c);
        assert(r is Ok);
    }

    /// The text of `self`: the characters of its string.
    pub open spec fn text(self) -> Seq<char> {
        "x2b6 vis="@ + vis_chars(self.vis)
    }

    /// Return the text of `self`.
    pub fn to_text(&self) -> (s: std::string::String)
        ensures
            s@ == self.text(),
    {
        let mut s = std::string::String::from_str("x2b6 vis=");
        s.append(vis_as_str(&self.vis));
        s
    }

    /// Return the length of a frame that will be emitted from this high-level representation.
    pub fn buffer_len(&self) -> (len: usize)
        ensures
            len == FRAME_LEN,
    {
        FRAME_LEN
    }

    /// Emit a high-level representation into a x2b6 CAN frame.  The string
    /// must hold eight characters.
    pub fn emit(&self, frame: &mut Frame)
        requires
            FRAME_LEN <= old(frame)@.len(),
            vis_chars(self.vis).len() >= 8,
        ensures
            final(frame)@ == self.emit_bytes(old(frame)@),
    {
        let ghost bytes = frame@;
        let ghost chars = vis_chars(self.vis);
        let mut vis = vis_clone(&self.vis);
        frame.set_vis_eighth_char(vis_pop(&mut vis).unwrap());
        frame.set_vis_seventh_char(vis_pop(&mut vis).unwrap());
        frame.set_vis_sixth_char(vis_pop(&mut vis).unwrap());
        frame.set_vis_fifth_char(vis_pop(&mut vis).unwrap());
        frame.set_vis_fourth_char(vis_pop(&mut vis).unwrap());
        frame.set_vis_third_char(vis_pop(&mut vis).unwrap());
        frame.set_vis_second_char(vis_pop(&mut vis).unwrap());
        frame.set_vis_first_char(vis_pop(&mut vis).unwrap());
        assert(frame@ =~= Repr::emit_chars(chars, bytes));
    }

    /// Emit a high-level representation into a x2b6 CAN frame if its string
    /// holds eight characters; returns whether it did, and leaves the frame
    /// unchanged when it did not.
    pub fn emit_checked(&self, frame: &mut Frame) -> (done: bool)
        requires
            FRAME_LEN <= old(frame)@.len(),
        ensures
            done <==> vis_chars(self.vis).len() >= 8,
            done ==> final(frame)@ == self.emit_bytes(old(frame)@),
            !done ==> final(frame)@ == old(frame)@,
    {
        let ghost chars = vis_chars(self.vis);
        let mut vis = vis_clone(&self.vis);
        let mut count: usize = 0;
        while count < 8
            invariant
                count <= 8,
                chars == vis_chars(self.vis),
                count <= chars.len(),
                vis_chars(vis) == chars.subrange(0, chars.len() - count),
            decreases 8 - count,
        {
            if vis_pop(&mut vis).is_none() {
                return false;
            }
            count = count + 1;
        }
        self.emit(frame);
        true
    }
}

impl Frame {
    /// Return the text of the frame: that of the representation that it
    /// carries, or the error that parsing it gives.  The bytes must be ASCII,
    /// as for parsing.
    pub fn to_text(&self) -> (s: std::string::String)
        requires
            self@.len() == FRAME_LEN ==> Repr::bytes_ascii(self@),
        ensures
            s@ == (match length_check(self@.len(), FRAME_LEN as nat) {
                Ok(_) => "x2b6 vis="@ + Repr::chars_from_bytes(self@),
                Err(e) => "x2b6 ("@ + e.text() + ")"@,
            }),
    {
        match Repr::parse(self) {
            Ok(repr) => repr.to_text(),
            Err(e) => {
                let mut s = std::string::String::from_str("x2b6 (");
                s.append(e.description());
                s.append(")");
                s
            },
        }
    }
}

/// Writing eight characters of one byte each into the bytes of a frame, then
/// reading the characters, gives them back.
pub proof fn lemma_parse_emit(chars: Seq<char>, bytes: Seq<u8>)
    requires
        bytes.len() == FRAME_LEN,
        chars.len() == 8,
        forall|i: int| 0 <= i < 8 ==> (chars[i] as u32) < 0x100,
    ensures
        Repr::chars_from_bytes(Repr::emit_chars(chars, bytes)) == chars,
{
    let emitted = Repr::emit_chars(chars, bytes);
    assert forall|i: int| 0 <= i < 8 implies latin1_char(emitted[i]) == chars[i] by {
        assert(emitted[i] == char_low_byte(chars[i]));
        lemma_byte_char_roundtrip(chars[i]);
    }
    assert(Repr::chars_from_bytes(emitted) =~= chars);
}

/// Writing back the characters that the bytes of a frame carry leaves the
/// bytes unchanged.
pub proof fn lemma_emit_parse(bytes: Seq<u8>)
    requires
        bytes.len() == FRAME_LEN,
    ensures
        Repr::emit_chars(Repr::chars_from_bytes(bytes), bytes) == bytes,
{
    assert(Repr::emit_chars(Repr::chars_from_bytes(bytes), bytes) =~= bytes);
}

/// The characters that a frame carries are its bytes in order, each read as
/// the character of the same code point.
pub proof fn lemma_chars_in_order(bytes: Seq<u8>)
    requires
        bytes.len() == FRAME_LEN,
    ensures
        Repr::chars_from_bytes(bytes).len() == 8,
        forall|i: int| 0 <= i < 8 ==> #[trigger] Repr::chars_from_bytes(bytes)[i] == bytes[i] as char,
{
    assert forall|i: int| 0 <= i < 8 implies #[trigger] Repr::chars_from_bytes(bytes)[i] == bytes[i] as char by {
        if i == 0 {
        } else if i == 1 {
        } else if i == 2 {
        } else if i == 3 {
        } else if i == 4 {
        } else if i == 5 {
        } else if i == 6 {
        } else {
        }
    }
}

} // verus!

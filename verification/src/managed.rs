//! Strings that are handed out NUL-terminated, and the slot that keeps track
//! of the one that may be reclaimed.
//!
//! At most one string is live at a time: the slot keeps the one that was
//! produced last. Releasing empties the slot; releasing an empty slot does
//! nothing, so nothing is ever released twice.

use vstd::prelude::*;
use vstd::utf8::*;
use crate::text::{encode_utf8_nul, number_message, number_message_no_nul, push_decimal};

verus! {

/// An owned, NUL-terminated UTF-8 string: the encoded text, which holds no
/// zero byte, followed by a single zero byte.
pub struct ManagedString {
    bytes: Vec<u8>,
}

impl View for ManagedString {
    type V = Seq<char>;

    /// The text, without the terminator.
    closed spec fn view(&self) -> Seq<char> {
        decode_utf8(self.bytes@.drop_last())
    }
}

impl ManagedString {
    #[verifier::type_invariant]
    spec fn terminated(&self) -> bool {
        &&& self.bytes@.len() >= 1
        &&& self.bytes@.last() == 0
        &&& !self.bytes@.drop_last().contains(0u8)
        &&& valid_utf8(self.bytes@.drop_last())
    }

    /// Copies `text` and terminates the copy.
    fn new(text: &str) -> (r: Self)
        requires
            !text@.contains('\0'),
        ensures
            r@ == text@,
    {
        let mut bytes = text.as_bytes_vec();
        bytes.push(0);
        proof {
            encode_utf8_nul(text@);
            encode_utf8_valid_utf8(text@);
            encode_utf8_decode_utf8(text@);
            assert(bytes@.drop_last() =~= encode_utf8(text@));
        }
        ManagedString { bytes }
    }

    /// The encoded text, without the terminator.
    pub fn as_bytes(&self) -> (r: &[u8])
        ensures
            r@ == encode_utf8(self@),
            valid_utf8(r@),
            !r@.contains(0u8),
            !self@.contains('\0'),
    {
        proof {
            use_type_invariant(self);
            decode_utf8_encode_utf8(self.bytes@.drop_last());
            encode_utf8_nul(self@);
        }
        let n: usize = self.bytes.len();
        vstd::slice::slice_subrange(self.bytes.as_slice(), 0, n - 1)
    }

    /// The bytes as a reader on the other side of the boundary finds them:
    /// the encoded text, then the terminator, which is the only zero byte.
    pub fn as_bytes_with_nul(&self) -> (r: &[u8])
        ensures
            r@ == encode_utf8(self@).push(0u8),
            valid_utf8(encode_utf8(self@)),
            !encode_utf8(self@).contains(0u8),
            !self@.contains('\0'),
    {
        proof {
            use_type_invariant(self);
            decode_utf8_encode_utf8(self.bytes@.drop_last());
            encode_utf8_nul(self@);
            assert(self.bytes@ =~= self.bytes@.drop_last().push(0u8));
        }
        self.bytes.as_slice()
    }
}

/// The place that keeps track of the string that may be reclaimed.
pub struct StringSlot {
    live: Option<ManagedString>,
}

/// The text of a string that may or may not be there.
pub open spec fn text_of(string: Option<ManagedString>) -> Option<Seq<char>> {
    match string {
        Some(s) => Some(s@),
        None => None,
    }
}

impl View for StringSlot {
    type V = Option<Seq<char>>;

    /// The text of the live string, or `None` while the slot is empty.
    closed spec fn view(&self) -> Option<Seq<char>> {
        text_of(self.live)
    }
}

impl StringSlot {
    /// An empty slot.
    pub fn new() -> (r: Self)
        ensures
            r@ is None,
    {
        StringSlot { live: None }
    }

    /// Whether a string is live.
    pub fn is_live(&self) -> (r: bool)
        ensures
            r == (self@ is Some),
    {
        self.live.is_some()
    }

    /// The live string, if there is one.
    pub fn live(&self) -> (r: Option<&ManagedString>)
        ensures
            r is Some <==> self@ is Some,
            r matches Some(s) ==> self@ == Some(s@),
    {
        self.live.as_ref()
    }
}

/// Makes a terminated copy of `text` the live string of `slot`.
///
/// Returns the string that was live before, if there was one. The slot no
/// longer tracks it and nothing has released it: what becomes of it is up to
/// the caller.
pub fn store_string_on_heap(slot: &mut StringSlot, text: &str) -> (displaced: Option<
    ManagedString,
>)
    requires
        !text@.contains('\0'),
    ensures
        final(slot)@ == Some(text@),
        text_of(displaced) == old(slot)@,
{
    let displaced = slot.live.take();
    slot.live = Some(ManagedString::new(text));
    displaced
}

/// Builds the text that announces `number` and makes it the live string of
/// `slot`.
///
/// Returns the string that was live before, if there was one, as
/// [`store_string_on_heap`] does.
pub fn format_string(slot: &mut StringSlot, number: u32) -> (displaced: Option<ManagedString>)
    ensures
        final(slot)@ == Some(number_message(number)),
        text_of(displaced) == old(slot)@,
{
    let mut text = String::from_str("The number is ");
    push_decimal(&mut text, number);
    text.append(" äöü 😎");
    proof {
        number_message_no_nul(number);
    }
    store_string_on_heap(slot, text.as_str())
}

/// Releases the live string of `slot`, if there is one, and leaves the slot
/// empty. On an empty slot this does nothing.
pub fn free_string(slot: &mut StringSlot)
    ensures
        final(slot)@ is None,
{
    slot.live = None;
}

} // verus!

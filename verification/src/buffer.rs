//! The private buffer of an exclusive string: what std's `String` operations do,
//! stated over the text and over byte offsets into its UTF-8 encoding.

use vstd::prelude::*;
use vstd::utf8::*;

verus! {

/// The length in bytes of the UTF-8 encoding of `text`.
pub open spec fn byte_len(text: Seq<char>) -> nat {
    encode_utf8(text).len()
}

/// Whether the byte offset `at` falls between two characters of `text`, or at
/// its start or its end.
pub open spec fn on_boundary(text: Seq<char>, at: int) -> bool {
    is_char_boundary(encode_utf8(text), at)
}

/// The characters of `text` that are encoded in the bytes from `from` up to `to`.
pub open spec fn text_between(text: Seq<char>, from: int, to: int) -> Seq<char> {
    decode_utf8(encode_utf8(text).subrange(from, to))
}

/// The characters of `text` whose mark in `keep` is set, in their order.
pub open spec fn kept(text: Seq<char>, keep: Seq<bool>) -> Seq<char>
    decreases text.len(),
{
    if text.len() == 0 || keep.len() == 0 {
        Seq::<char>::empty()
    } else if keep.last() {
        kept(text.drop_last(), keep.drop_last()).push(text.last())
    } else {
        kept(text.drop_last(), keep.drop_last())
    }
}

/// A text cut at a boundary is the part before the cut followed by the part
/// after it.
pub proof fn lemma_cut_joins(text: Seq<char>, at: int)
    requires
        on_boundary(text, at),
    ensures
        text_between(text, 0, at) + text_between(text, at, byte_len(text) as int) == text,
{
    let bytes = encode_utf8(text);
    encode_utf8_valid_utf8(text);
    encode_utf8_decode_utf8(text);
    decode_utf8_split(bytes, at);
}

/// `String::with_capacity`: an empty buffer.
#[verifier::external_body]
pub(crate) fn string_with_capacity(capacity: usize) -> (s: String)
    requires
        capacity <= isize::MAX,
    ensures
        s@ == Seq::<char>::empty(),
{
    String::with_capacity(capacity)
}

/// `String::push`: the character is appended.
#[verifier::external_body]
pub(crate) fn string_push(s: &mut String, ch: char)
    ensures
        final(s)@ == old(s)@.push(ch),
{
    s.push(ch)
}

/// `String::truncate`: the text is cut to its first `new_len` bytes, or stays as
/// it is where it has no more than that.
#[verifier::external_body]
pub(crate) fn string_truncate(s: &mut String, new_len: usize)
    requires
        new_len < byte_len(old(s)@) ==> on_boundary(old(s)@, new_len as int),
    ensures
        final(s)@ == if new_len < byte_len(old(s)@) {
            text_between(old(s)@, 0, new_len as int)
        } else {
            old(s)@
        },
{
    s.truncate(new_len)
}

/// `String::pop`: the last character leaves the text and is returned; an empty
/// text stays empty.
#[verifier::external_body]
pub(crate) fn string_pop(s: &mut String) -> (last: Option<char>)
    ensures
        old(s)@.len() == 0 ==> last is None && final(s)@ == old(s)@,
        old(s)@.len() > 0 ==> last == Some(old(s)@.last()) && final(s)@ == old(s)@.drop_last(),
{
    s.pop()
}

/// `String::remove`: the character that starts at byte `idx` leaves the text and
/// is returned.
#[verifier::external_body]
pub(crate) fn string_remove(s: &mut String, idx: usize) -> (ch: char)
    requires
        idx < byte_len(old(s)@),
        on_boundary(old(s)@, idx as int),
    ensures
        ch == text_between(old(s)@, idx as int, byte_len(old(s)@) as int).first(),
        final(s)@ == text_between(old(s)@, 0, idx as int) + text_between(
            old(s)@,
            idx as int,
            byte_len(old(s)@) as int,
        ).drop_first(),
{
    s.remove(idx)
}

/// `String::retain`: `f` is asked once about each character, in order, and the
/// text keeps the characters for which it said yes.
#[verifier::external_body]
pub(crate) fn string_retain<F: Fn(char) -> bool>(s: &mut String, f: F)
    requires
        forall|ch: char| call_requires(f, (ch,)),
    ensures
        exists|keep: Seq<bool>|
            keep.len() == old(s)@.len() && (forall|i: int|
                0 <= i < keep.len() ==> call_ensures(f, (old(s)@[i],), #[trigger] keep[i]))
                && final(s)@ == kept(old(s)@, keep),
{
    s.retain(f)
}

/// `String::insert`: the character is put in at byte `idx`.
#[verifier::external_body]
pub(crate) fn string_insert(s: &mut String, idx: usize, ch: char)
    requires
        on_boundary(old(s)@, idx as int),
    ensures
        final(s)@ == text_between(old(s)@, 0, idx as int).push(ch) + text_between(
            old(s)@,
            idx as int,
            byte_len(old(s)@) as int,
        ),
{
    s.insert(idx, ch)
}

/// `String::insert_str`: the text `string` is put in at byte `idx`.
#[verifier::external_body]
pub(crate) fn string_insert_str(s: &mut String, idx: usize, string: &str)
    requires
        on_boundary(old(s)@, idx as int),
    ensures
        final(s)@ == text_between(old(s)@, 0, idx as int) + string@ + text_between(
            old(s)@,
            idx as int,
            byte_len(old(s)@) as int,
        ),
{
    s.insert_str(idx, string)
}

/// `String::split_off`: the text keeps its bytes before `at`; the rest is
/// returned as a new buffer.
#[verifier::external_body]
pub(crate) fn string_split_off(s: &mut String, at: usize) -> (tail: String)
    requires
        on_boundary(old(s)@, at as int),
    ensures
        final(s)@ == text_between(old(s)@, 0, at as int),
        tail@ == text_between(old(s)@, at as int, byte_len(old(s)@) as int),
{
    s.split_off(at)
}

/// `String::clear`: the text becomes empty.
#[verifier::external_body]
pub(crate) fn string_clear(s: &mut String)
    ensures
        final(s)@ == Seq::<char>::empty(),
{
    s.clear()
}

/// `String::drain` on the bytes from `start` up to `end`, with the characters it
/// yields collected: they leave the text and are returned.
#[verifier::external_body]
pub(crate) fn string_drain(s: &mut String, start: usize, end: usize) -> (removed: String)
    requires
        start <= end,
        on_boundary(old(s)@, start as int),
        on_boundary(old(s)@, end as int),
    ensures
        removed@ == text_between(old(s)@, start as int, end as int),
        final(s)@ == text_between(old(s)@, 0, start as int) + text_between(
            old(s)@,
            end as int,
            byte_len(old(s)@) as int,
        ),
{
    s.drain(start..end).collect()
}

/// `String::replace_range` on the bytes from `start` up to `end`: they give way
/// to the text `replace_with`.
#[verifier::external_body]
pub(crate) fn string_replace_range(s: &mut String, start: usize, end: usize, replace_with: &str)
    requires
        start <= end,
        on_boundary(old(s)@, start as int),
        on_boundary(old(s)@, end as int),
    ensures
        final(s)@ == text_between(old(s)@, 0, start as int) + replace_with@ + text_between(
            old(s)@,
            end as int,
            byte_len(old(s)@) as int,
        ),
{
    s.replace_range(start..end, replace_with)
}

/// `String::reserve`: room is made; the text stays as it is.
#[verifier::external_body]
pub(crate) fn string_reserve(s: &mut String, additional: usize)
    requires
        byte_len(old(s)@) + additional <= isize::MAX,
    ensures
        final(s)@ == old(s)@,
{
    s.reserve(additional)
}

/// `String::reserve_exact`: room is made; the text stays as it is.
#[verifier::external_body]
pub(crate) fn string_reserve_exact(s: &mut String, additional: usize)
    requires
        byte_len(old(s)@) + additional <= isize::MAX,
    ensures
        final(s)@ == old(s)@,
{
    s.reserve_exact(additional)
}

/// `String::shrink_to_fit`: spare room is given back; the text stays as it is.
#[verifier::external_body]
pub(crate) fn string_shrink_to_fit(s: &mut String)
    ensures
        final(s)@ == old(s)@,
{
    s.shrink_to_fit()
}

/// `String::into_boxed_str`: the text, boxed.
#[verifier::external_body]
pub(crate) fn string_into_boxed_str(s: String) -> (boxed: Box<str>)
    ensures
        boxed@ == s@,
{
    s.into_boxed_str()
}

/// `String::as_mut_str`: the text, lent for change in place.
#[verifier::external_body]
pub(crate) fn string_as_mut_str(s: &mut String) -> (text: &mut str)
    ensures
        text@ == old(s)@,
        final(s)@ == final(text)@,
{
    s.as_mut_str()
}

} // verus!

use vstd::prelude::*;
use vstd::utf8::{decode_utf8_encode_utf8, valid_utf8};

use crate::byte_vector::text_of;
use crate::module::{name_bytes, set_name_outcome};

verus! {

/// A rename that succeeds is read back as exactly the bytes it was given.
pub proof fn lemma_rename_reads_back(
    before: Option<Seq<char>>,
    candidate: Seq<u8>,
    after: Option<Seq<char>>,
)
    requires
        set_name_outcome(before, Some(candidate), true, after),
    ensures
        name_bytes(after) == Some(candidate),
{
    decode_utf8_encode_utf8(candidate);
}

/// Repeating a successful rename with the same buffer changes nothing,
/// whatever the repeat returns. Its buffer is known to hold a valid name, so
/// only a module shared at the time can make the repeat report failure.
pub proof fn lemma_rename_idempotent(
    first_before: Option<Seq<char>>,
    candidate: Option<Seq<u8>>,
    first_after: Option<Seq<char>>,
    repeat_renamed: bool,
    repeat_after: Option<Seq<char>>,
)
    requires
        set_name_outcome(first_before, candidate, true, first_after),
        set_name_outcome(first_after, candidate, repeat_renamed, repeat_after),
    ensures
        repeat_after == first_after,
        text_of(candidate) is Some,
{
}

/// A buffer whose bytes are not well-formed UTF-8 is refused, and the name
/// stays as it was.
pub proof fn lemma_invalid_candidate_refused(
    before: Option<Seq<char>>,
    candidate: Seq<u8>,
    renamed: bool,
    after: Option<Seq<char>>,
)
    requires
        !valid_utf8(candidate),
        set_name_outcome(before, Some(candidate), renamed, after),
    ensures
        !renamed,
        after == before,
{
}

/// The empty text is a legal name, which a buffer of zero bytes carries. Once
/// set it reads back as a buffer of zero bytes, which is not the buffer
/// without data that a module without a name reads back as.
pub proof fn lemma_empty_name(before: Option<Seq<char>>, after: Option<Seq<char>>)
    requires
        set_name_outcome(before, Some(Seq::<u8>::empty()), true, after),
    ensures
        text_of(Some(Seq::<u8>::empty())) == Some(Seq::<char>::empty()),
        after == Some(Seq::<char>::empty()),
        name_bytes(after) == Some(Seq::<u8>::empty()),
        name_bytes(after) != name_bytes(None),
{
    decode_utf8_encode_utf8(Seq::<u8>::empty());
}

} // verus!

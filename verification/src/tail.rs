//! The captured end of a child's output.
//!
//! The child's pipes are drained so that it can never block on a full one. The
//! end of what it printed is kept, up to a fixed number of bytes, for error
//! messages.

use vstd::prelude::*;

verus! {

/// How many bytes of output are kept.
pub const STDOUT_TAIL_CAP: usize = 8192;

/// The text that bytes decode to when every ill-formed part is replaced.
pub uninterp spec fn utf8_lossy(bytes: Seq<u8>) -> Seq<char>;

/// How many bytes a text takes in UTF-8.
pub open spec fn byte_len(text: Seq<char>) -> nat {
    vstd::utf8::encode_utf8(text).len()
}

/// The longest end of `text`, in whole characters, that takes no more than
/// `cap` bytes.
pub open spec fn capped_tail(text: Seq<char>, cap: nat) -> Seq<char>
    decreases text.len(),
{
    if text.len() == 0 || byte_len(text) <= cap {
        text
    } else {
        capped_tail(text.drop_first(), cap)
    }
}

/// Calls `String::from_utf8_lossy`. The result is named `utf8_lossy`; bytes
/// that are valid UTF-8 decode to exactly the text that they encode.
#[verifier::external_body]
pub(crate) fn decode_lossy(bytes: &[u8]) -> (res: String)
    ensures
        res@ == utf8_lossy(bytes@),
        vstd::utf8::valid_utf8(bytes@) ==> res@ == vstd::utf8::decode_utf8(bytes@),
{
    String::from_utf8_lossy(bytes).into_owned()
}

/// Dropping the first character of a text drops its encoding.
proof fn lemma_encode_first(text: Seq<char>)
    requires
        text.len() > 0,
    ensures
        ({
            let bytes = vstd::utf8::encode_utf8(text);
            let width = vstd::utf8::length_of_first_scalar(bytes);
            &&& 1 <= width <= bytes.len()
            &&& vstd::utf8::valid_utf8(bytes)
            &&& vstd::utf8::pop_first_scalar(bytes) == vstd::utf8::encode_utf8(text.drop_first())
            &&& vstd::utf8::encode_utf8(text.drop_first()) == bytes.subrange(
                width,
                bytes.len() as int,
            )
        }),
{
    vstd::utf8::encode_utf8_first_scalar(text);
    vstd::utf8::encode_utf8_valid_utf8(text);
}

/// Cutting at the first character boundary that leaves at most `cap` bytes
/// leaves the capped tail.
proof fn lemma_cut(text: Seq<char>, cap: nat, cut: int)
    requires
        byte_len(text) > cap,
        byte_len(text) - cap <= cut <= byte_len(text),
        vstd::utf8::is_char_boundary(vstd::utf8::encode_utf8(text), cut),
        forall|i: int|
            byte_len(text) - cap <= i < cut ==> !#[trigger] vstd::utf8::is_char_boundary(
                vstd::utf8::encode_utf8(text),
                i,
            ),
    ensures
        vstd::utf8::encode_utf8(capped_tail(text, cap)) == vstd::utf8::encode_utf8(text).subrange(
            cut,
            byte_len(text) as int,
        ),
    decreases text.len(),
{
    let bytes = vstd::utf8::encode_utf8(text);
    assert(text.len() > 0);
    lemma_encode_first(text);
    let width = vstd::utf8::length_of_first_scalar(bytes);
    let rest = vstd::utf8::encode_utf8(text.drop_first());
    vstd::utf8::encode_utf8_valid_utf8(text.drop_first());
    assert(vstd::utf8::is_char_boundary(bytes, cut) == vstd::utf8::is_char_boundary(
        rest,
        cut - width,
    ));
    if rest.len() <= cap {
        assert(vstd::utf8::is_char_boundary(rest, 0));
        assert(vstd::utf8::is_char_boundary(bytes, width));
        assert(cut == width);
        assert(capped_tail(text.drop_first(), cap) == text.drop_first());
    } else {
        assert forall|i: int| rest.len() - cap <= i < cut - width implies !#[trigger]
            vstd::utf8::is_char_boundary(rest, i) by {
            assert(!vstd::utf8::is_char_boundary(bytes, i + width));
        }
        lemma_cut(text.drop_first(), cap, cut - width);
        assert(rest.subrange(cut - width, rest.len() as int) =~= bytes.subrange(
            cut,
            bytes.len() as int,
        ));
    }
}

/// Two texts with the same encoding are the same.
proof fn lemma_encoding_injective(a: Seq<char>, b: Seq<char>)
    requires
        vstd::utf8::encode_utf8(a) == vstd::utf8::encode_utf8(b),
    ensures
        a == b,
{
    vstd::utf8::encode_utf8_decode_utf8(a);
    vstd::utf8::encode_utf8_decode_utf8(b);
}

/// The end of `text` that takes no more than `cap` bytes. A cut that would
/// fall inside a character moves behind it.
pub fn keep_tail(text: &str, cap: usize) -> (res: String)
    ensures
        res@ == capped_tail(text@, cap as nat),
{
    let bytes: &[u8] = text.as_bytes();
    let total: usize = bytes.len();
    if total <= cap {
        return text.to_owned();
    }
    proof {
        vstd::utf8::encode_utf8_valid_utf8(text@);
        vstd::utf8::is_char_boundary_start_end_of_seq(bytes@);
    }
    let mut cut: usize = total - cap;
    while !text.is_char_boundary(cut)
        invariant
            total == bytes@.len(),
            bytes@ == vstd::utf8::encode_utf8(text@),
            cap < total,
            total - cap <= cut <= total,
            vstd::utf8::is_char_boundary(bytes@, total as int),
            forall|i: int|
                total - cap <= i < cut ==> !#[trigger] vstd::utf8::is_char_boundary(bytes@, i),
        decreases total - cut,
    {
        cut = cut + 1;
    }
    let kept: &str = text.split_at(cut).1;
    proof {
        lemma_cut(text@, cap as nat, cut as int);
        lemma_encoding_injective(kept@, capped_tail(text@, cap as nat));
    }
    kept.to_owned()
}

/// Appends text to what was captured so far and keeps the capped end of it.
pub fn capture(sink: &mut String, text: &str)
    ensures
        final(sink)@ == capped_tail(old(sink)@ + text@, STDOUT_TAIL_CAP as nat),
        byte_len(final(sink)@) <= STDOUT_TAIL_CAP,
{
    sink.append(text);
    let kept = keep_tail(sink.as_str(), STDOUT_TAIL_CAP);
    proof {
        lemma_capped_tail(sink@, STDOUT_TAIL_CAP as nat);
    }
    *sink = kept;
}

/// Captures a chunk of output as it was read from a pipe.
pub fn drain(sink: &mut String, chunk: &[u8])
    ensures
        final(sink)@ == capped_tail(old(sink)@ + utf8_lossy(chunk@), STDOUT_TAIL_CAP as nat),
        vstd::utf8::valid_utf8(chunk@) ==> utf8_lossy(chunk@) == vstd::utf8::decode_utf8(chunk@),
        byte_len(final(sink)@) <= STDOUT_TAIL_CAP,
{
    let decoded = decode_lossy(chunk);
    capture(sink, decoded.as_str());
}

/// A capped tail is an end of the text, it respects the cap, and no longer end
/// of the text does.
pub proof fn lemma_capped_tail(text: Seq<char>, cap: nat)
    ensures
        byte_len(text) == vstd::utf8::encode_utf8(text).len(),
        byte_len(capped_tail(text, cap)) <= cap,
        capped_tail(text, cap).is_suffix_of(text),
        forall|n: int|
            capped_tail(text, cap).len() < n <= text.len() ==> byte_len(
                #[trigger] text.subrange(text.len() - n, text.len() as int),
            ) > cap,
    decreases text.len(),
{
    if text.len() == 0 {
        assert(byte_len(text) == 0);
        assert(capped_tail(text, cap) =~= text);
        assert(text.is_suffix_of(text));
    } else if byte_len(text) <= cap {
        assert(text.subrange(0, text.len() as int) =~= text);
    } else {
        let rest = text.drop_first();
        lemma_capped_tail(rest, cap);
        assert forall|n: int|
            capped_tail(text, cap).len() < n <= text.len() implies byte_len(
            #[trigger] text.subrange(text.len() - n, text.len() as int),
        ) > cap by {
            if n == text.len() {
                assert(text.subrange(0, text.len() as int) =~= text);
            } else {
                assert(text.subrange(text.len() - n, text.len() as int) =~= rest.subrange(
                    rest.len() - n,
                    rest.len() as int,
                ));
            }
        }
        let kept = capped_tail(text, cap);
        assert(kept.is_suffix_of(text)) by {
            assert(kept =~= rest.subrange(rest.len() - kept.len(), rest.len() as int));
            assert(kept =~= text.subrange(text.len() - kept.len(), text.len() as int));
        }
    }
}

/// Text that fits is kept whole.
pub proof fn lemma_short_text_is_kept(text: Seq<char>, cap: nat)
    requires
        byte_len(text) <= cap,
    ensures
        capped_tail(text, cap) == text,
{
}

/// Where the cut falls between two characters, exactly the last `cap` bytes are
/// kept.
pub proof fn lemma_tail_is_the_last_bytes(text: Seq<char>, cap: nat)
    requires
        byte_len(text) > cap,
        vstd::utf8::is_char_boundary(vstd::utf8::encode_utf8(text), byte_len(text) - cap),
    ensures
        vstd::utf8::encode_utf8(capped_tail(text, cap)) == vstd::utf8::encode_utf8(text).subrange(
            byte_len(text) - cap,
            byte_len(text) as int,
        ),
{
    lemma_cut(text, cap, byte_len(text) - cap);
}

/// The encoding of a text in front of another one only adds bytes.
proof fn lemma_byte_len_grows(a: Seq<char>, b: Seq<char>)
    ensures
        byte_len(a) <= byte_len(a + b),
    decreases a.len(),
{
    if a.len() == 0 {
        assert(byte_len(a) == 0);
    } else {
        lemma_byte_len_grows(a.drop_first(), b);
        assert((a + b).drop_first() =~= a.drop_first() + b);
        lemma_encode_first(a);
        lemma_encode_first(a + b);
        assert(a[0] == (a + b)[0]);
    }
}

/// Capping after every chunk captures what capping once at the end would: two
/// chunks in turn leave the capped end of both together.
pub proof fn lemma_capping_in_steps(first: Seq<char>, second: Seq<char>, cap: nat)
    ensures
        capped_tail(capped_tail(first, cap) + second, cap) == capped_tail(first + second, cap),
    decreases first.len(),
{
    if first.len() == 0 || byte_len(first) <= cap {
    } else {
        lemma_byte_len_grows(first, second);
        assert((first + second).drop_first() =~= first.drop_first() + second);
        lemma_capping_in_steps(first.drop_first(), second, cap);
    }
}

} // verus!

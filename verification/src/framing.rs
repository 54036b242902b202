//! The wire format in which arguments are handed to a host: each argument is
//! its byte length as four little-endian bytes, followed by its UTF-8 bytes.

use vstd::prelude::*;
use vstd::string::*;
use vstd::utf8::*;

use crate::text;

verus! {

/// The four low bytes of `n`, least significant first.
pub open spec fn le32(n: nat) -> Seq<u8> {
    seq![
        (n % 256) as u8,
        (n / 256 % 256) as u8,
        (n / 65536 % 256) as u8,
        (n / 16777216 % 256) as u8,
    ]
}

/// The number that four bytes spell, least significant first.
pub open spec fn from_le32(b: Seq<u8>) -> nat
    recommends
        b.len() == 4,
{
    (b[0] + 256 * b[1] + 65536 * b[2] + 16777216 * b[3]) as nat
}

/// One framed argument: its length, then its bytes.
pub open spec fn frame_one(arg: Seq<u8>) -> Seq<u8> {
    le32(arg.len()) + arg
}

/// Framed arguments, one after the other.
pub open spec fn frame(args: Seq<Seq<u8>>) -> Seq<u8>
    decreases args.len(),
{
    if args.len() == 0 {
        seq![]
    } else {
        frame(args.drop_last()) + frame_one(args.last())
    }
}

/// The UTF-8 bytes of each word.
pub open spec fn encoded(words: Seq<Seq<char>>) -> Seq<Seq<u8>> {
    Seq::new(words.len(), |i: int| encode_utf8(words[i]))
}

/// The arguments that a reader takes out of framed bytes, or `None` when the
/// bytes are not a sequence of whole frames.
pub open spec fn unframe(bytes: Seq<u8>) -> Option<Seq<Seq<u8>>>
    decreases bytes.len(),
{
    if bytes.len() == 0 {
        Some(seq![])
    } else if bytes.len() < 4 {
        None
    } else {
        let n = from_le32(bytes.take(4));
        if bytes.len() < 4 + n {
            None
        } else {
            match unframe(bytes.skip(4 + n as int)) {
                Some(rest) => Some(seq![bytes.subrange(4, 4 + n as int)] + rest),
                None => None,
            }
        }
    }
}

/// Every argument is short enough for its length to fit in four bytes.
pub open spec fn frameable(args: Seq<Seq<u8>>) -> bool {
    forall|i: int| 0 <= i < args.len() ==> (#[trigger] args[i]).len() < 0x1_0000_0000
}

proof fn lemma_le32_inverse(n: nat)
    requires
        n < 0x1_0000_0000,
    ensures
        le32(n).len() == 4,
        from_le32(le32(n)) == n,
{
}

proof fn lemma_frame_first(args: Seq<Seq<u8>>)
    requires
        args.len() > 0,
    ensures
        frame(args) == frame_one(args[0]) + frame(args.drop_first()),
    decreases args.len(),
{
    if args.len() == 1 {
        assert(args.drop_last() =~= seq![]);
        assert(args.drop_first() =~= seq![]);
        assert(frame(args) =~= frame_one(args[0]) + frame(args.drop_first()));
    } else {
        let init = args.drop_last();
        lemma_frame_first(init);
        assert(init.drop_first() =~= args.drop_first().drop_last());
        assert(args.drop_first().last() == args.last());
        assert(frame(args) =~= frame_one(args[0]) + frame(args.drop_first()));
    }
}

proof fn lemma_le32_value(n: nat)
    ensures
        from_le32(le32(n)) == n % 0x1_0000_0000,
{
    let (q1, b0) = (n / 256, n % 256);
    let (q2, b1) = (q1 / 256, q1 % 256);
    let (q3, b2) = (q2 / 256, q2 % 256);
    let (q4, b3) = (q3 / 256, q3 % 256);
    assert(n == 65536 * q2 + (256 * b1 + b0));
    assert(n / 65536 == q2);
    assert(n == 16777216 * q3 + (65536 * b2 + 256 * b1 + b0));
    assert(n / 16777216 == q3);
    assert(n == 0x1_0000_0000 * q4 + (16777216 * b3 + 65536 * b2 + 256 * b1 + b0));
    assert(n % 0x1_0000_0000 == 16777216 * b3 + 65536 * b2 + 256 * b1 + b0);
}

/// Framing one argument more appends its length in bytes, in four bytes with the
/// least significant one first, and after them its bytes, unchanged. No arguments
/// are framed to no bytes.
pub proof fn frames_are_a_length_and_the_bytes(args: Seq<Seq<u8>>, arg: Seq<u8>)
    ensures
        frame(Seq::<Seq<u8>>::empty()).len() == 0,
        ({
            let all = frame(args.push(arg));
            let n = frame(args).len() as int;
            &&& all.len() == n + 4 + arg.len()
            &&& all.subrange(0, n) == frame(args)
            &&& all.subrange(n + 4, all.len() as int) == arg
            &&& all[n] + 256 * all[n + 1] + 65536 * all[n + 2] + 16777216 * all[n + 3] == arg.len()
                % 0x1_0000_0000
        }),
{
    let all = frame(args.push(arg));
    let n = frame(args).len() as int;
    let length = le32(arg.len());
    assert(args.push(arg).drop_last() =~= args);
    assert(all == frame(args) + (length + arg));
    assert(all.subrange(0, n) =~= frame(args));
    assert(all.subrange(n + 4, all.len() as int) =~= arg);
    assert(all[n] == length[0]);
    assert(all[n + 1] == length[1]);
    assert(all[n + 2] == length[2]);
    assert(all[n + 3] == length[3]);
    lemma_le32_value(arg.len());
}

/// The bytes of the words are their UTF-8 encodings, in their order.
pub proof fn words_are_encoded_one_by_one(words: Seq<Seq<char>>)
    ensures
        encoded(words).len() == words.len(),
        forall|i: int|
            0 <= i < words.len() ==> #[trigger] encoded(words)[i] == encode_utf8(words[i]),
{
}

/// Reading framed arguments back gives the arguments that were framed,
/// whatever bytes they hold.
pub proof fn unframe_inverts_frame(args: Seq<Seq<u8>>)
    requires
        frameable(args),
    ensures
        unframe(frame(args)) == Some(args),
    decreases args.len(),
{
    if args.len() == 0 {
        assert(args =~= seq![]);
    } else {
        let first = args[0];
        let rest = args.drop_first();
        let bytes = frame(args);
        lemma_frame_first(args);
        lemma_le32_inverse(first.len());
        assert(frameable(rest)) by {
            assert forall|i: int| 0 <= i < rest.len() implies (#[trigger] rest[i]).len()
                < 0x1_0000_0000 by {
                assert(rest[i] == args[i + 1]);
            }
        }
        unframe_inverts_frame(rest);
        assert(bytes.take(4) =~= le32(first.len()));
        assert(bytes.subrange(4, 4 + first.len() as int) =~= first);
        assert(bytes.skip(4 + first.len() as int) =~= frame(rest));
        assert(seq![first] + rest =~= args);
    }
}

/// Two argument lists that are framed to the same bytes are the same list.
pub proof fn framing_is_unambiguous(a: Seq<Seq<char>>, b: Seq<Seq<char>>)
    requires
        frameable(encoded(a)),
        frameable(encoded(b)),
        frame(encoded(a)) == frame(encoded(b)),
    ensures
        a == b,
{
    unframe_inverts_frame(encoded(a));
    unframe_inverts_frame(encoded(b));
    assert(encoded(a) == encoded(b));
    assert(a.len() == encoded(a).len());
    assert(b.len() == encoded(b).len());
    assert forall|i: int| 0 <= i < a.len() implies a[i] == b[i] by {
        assert(encoded(a)[i] == encoded(b)[i]);
        encode_utf8_decode_utf8(a[i]);
        encode_utf8_decode_utf8(b[i]);
    }
    assert(a =~= b);
}

/// Appends one framed argument to `out`.
fn push_frame(out: &mut Vec<u8>, arg: &str)
    ensures
        final(out)@ == old(out)@ + frame_one(encode_utf8(arg@)),
{
    let bytes = arg.as_bytes();
    let n: usize = bytes.len();
    out.push((n % 256) as u8);
    out.push((n / 256 % 256) as u8);
    out.push((n / 65536 % 256) as u8);
    out.push((n / 16777216 % 256) as u8);
    out.extend_from_slice(bytes);
    assert(out@ =~= old(out)@ + frame_one(encode_utf8(arg@)));
}

/// Frames `args`. A length of 2^32 or more keeps its low four bytes only.
pub fn frame_args(args: &Vec<String>) -> (out: Vec<u8>)
    ensures
        out@ == frame(encoded(text::words_of(args@))),
{
    let mut out: Vec<u8> = Vec::new();
    let ghost all = encoded(text::words_of(args@));
    let mut i: usize = 0;
    assert(all.take(0) =~= seq![]);
    while i < args.len()
        invariant
            i <= args.len(),
            all == encoded(text::words_of(args@)),
            out@ == frame(all.take(i as int)),
        decreases args.len() - i,
    {
        push_frame(&mut out, args[i].as_str());
        assert(all.take(i + 1).drop_last() =~= all.take(i as int));
        assert(all.take(i + 1).last() == encode_utf8(args@[i as int]@));
        i += 1;
    }
    assert(all.take(args.len() as int) =~= all);
    out
}

} // verus!

//! JSON framing of the squad metadata record.
//!
//! The metadata travels inside the instruction arguments as the UTF-8 text of
//! a JSON object with the fields `name`, `description` and `image`, in that
//! order. The framing works on the UTF-8 bytes directly: a quote, a backslash
//! and every control byte below 0x20 are escaped exactly as the JSON grammar
//! requires (`\"`, `\\`, `\b`, `\t`, `\n`, `\f`, `\r`, and `\u00xx` with
//! lowercase hex digits for the remaining control bytes); all other bytes
//! pass through unchanged, so multi-byte UTF-8 sequences are preserved.

use vstd::prelude::*;

verus! {

/// The lowercase hex digit of a value below 16, as an ASCII byte.
pub open spec fn spec_hex_digit(n: u8) -> u8 {
    if n < 10 {
        (0x30 + n) as u8
    } else {
        (0x57 + n) as u8
    }
}

/// What one byte of a string becomes inside a JSON string literal.
pub open spec fn spec_escape_byte(b: u8) -> Seq<u8> {
    if b == 0x22 {
        seq![0x5c, 0x22]
    } else if b == 0x5c {
        seq![0x5c, 0x5c]
    } else if b == 0x08 {
        seq![0x5c, 0x62]
    } else if b == 0x09 {
        seq![0x5c, 0x74]
    } else if b == 0x0a {
        seq![0x5c, 0x6e]
    } else if b == 0x0c {
        seq![0x5c, 0x66]
    } else if b == 0x0d {
        seq![0x5c, 0x72]
    } else if b < 0x20 {
        seq![0x5c, 0x75, 0x30, 0x30, spec_hex_digit(b / 16), spec_hex_digit(b % 16)]
    } else {
        seq![b]
    }
}

/// The JSON escaping of a whole byte string.
pub open spec fn spec_escape(s: Seq<u8>) -> Seq<u8>
    decreases s.len(),
{
    if s.len() == 0 {
        Seq::empty()
    } else {
        spec_escape_byte(s[0]) + spec_escape(s.drop_first())
    }
}

/// Escaping a string one byte longer appends that byte's escape sequence.
pub proof fn lemma_escape_push(s: Seq<u8>, b: u8)
    ensures
        spec_escape(s.push(b)) == spec_escape(s) + spec_escape_byte(b),
    decreases s.len(),
{
    if s.len() == 0 {
        assert(s.push(b).drop_first() =~= Seq::<u8>::empty());
        assert(s.push(b)[0] == b);
        assert(spec_escape(s.push(b)) == spec_escape_byte(b) + spec_escape(Seq::<u8>::empty()));
        assert(spec_escape(s.push(b)) =~= spec_escape(s) + spec_escape_byte(b));
    } else {
        lemma_escape_push(s.drop_first(), b);
        assert(s.push(b).drop_first() =~= s.drop_first().push(b));
        assert(s.push(b)[0] == s[0]);
        assert(spec_escape(s.push(b)) =~= spec_escape(s) + spec_escape_byte(b));
    }
}

/// An escaped string grows by at most a factor of six.
pub proof fn lemma_escape_len(s: Seq<u8>)
    ensures
        spec_escape(s).len() <= 6 * s.len(),
    decreases s.len(),
{
    if s.len() > 0 {
        lemma_escape_len(s.drop_first());
    }
}

/// The lowercase hex digit of a value below 16.
fn hex_digit(n: u8) -> (r: u8)
    requires
        n < 16,
    ensures
        r == spec_hex_digit(n),
{
    if n < 10 {
        0x30 + n
    } else {
        0x57 + n
    }
}

/// Appends the JSON escaping of `b` to `out`.
fn push_escape_byte(out: &mut Vec<u8>, b: u8)
    ensures
        final(out)@ == old(out)@ + spec_escape_byte(b),
{
    if b == 0x22 {
        out.push(0x5c);
        out.push(0x22);
    } else if b == 0x5c {
        out.push(0x5c);
        out.push(0x5c);
    } else if b == 0x08 {
        out.push(0x5c);
        out.push(0x62);
    } else if b == 0x09 {
        out.push(0x5c);
        out.push(0x74);
    } else if b == 0x0a {
        out.push(0x5c);
        out.push(0x6e);
    } else if b == 0x0c {
        out.push(0x5c);
        out.push(0x66);
    } else if b == 0x0d {
        out.push(0x5c);
        out.push(0x72);
    } else if b < 0x20 {
        out.push(0x5c);
        out.push(0x75);
        out.push(0x30);
        out.push(0x30);
        out.push(hex_digit(b / 16));
        out.push(hex_digit(b % 16));
    } else {
        out.push(b);
    }
    proof {
        assert(final(out)@ =~= old(out)@ + spec_escape_byte(b));
    }
}

/// Appends the JSON escaping of the whole byte string to `out`.
fn append_escaped(out: &mut Vec<u8>, s: &Vec<u8>)
    ensures
        final(out)@ == old(out)@ + spec_escape(s@),
{
    let ghost base = out@;
    let mut i: usize = 0;
    while i < s.len()
        invariant
            i <= s@.len(),
            out@ == base + spec_escape(s@.take(i as int)),
        decreases s@.len() - i,
    {
        push_escape_byte(out, s[i]);
        proof {
            lemma_escape_push(s@.take(i as int), s@[i as int]);
            assert(s@.take(i + 1) =~= s@.take(i as int).push(s@[i as int]));
        }
        i += 1;
    }
    proof {
        assert(s@.take(s@.len() as int) =~= s@);
    }
}

/// The opening of the metadata object up to the value of `name`.
pub open spec fn spec_json_name_head() -> Seq<u8> {
    seq![123, 34, 110, 97, 109, 101, 34, 58, 34]
}

/// The separator between the `name` value and the `description` value.
pub open spec fn spec_json_description_sep() -> Seq<u8> {
    seq![34, 44, 34, 100, 101, 115, 99, 114, 105, 112, 116, 105, 111, 110, 34, 58, 34]
}

/// The separator between the `description` value and the `image` value.
pub open spec fn spec_json_image_sep() -> Seq<u8> {
    seq![34, 44, 34, 105, 109, 97, 103, 101, 34, 58, 34]
}

/// The closing of the metadata object.
pub open spec fn spec_json_tail() -> Seq<u8> {
    seq![34, 125]
}

/// The UTF-8 text of the JSON object `{"name":…,"description":…,"image":…}`
/// for the given field bytes, with every field escaped.
pub open spec fn spec_metadata_json(name: Seq<u8>, description: Seq<u8>, image: Seq<u8>) -> Seq<
    u8,
> {
    spec_json_name_head() + spec_escape(name) + spec_json_description_sep() + spec_escape(
        description,
    ) + spec_json_image_sep() + spec_escape(image) + spec_json_tail()
}

/// The metadata text is never longer than the fixed framing plus six bytes
/// per input byte.
pub proof fn lemma_metadata_json_len(name: Seq<u8>, description: Seq<u8>, image: Seq<u8>)
    ensures
        spec_metadata_json(name, description, image).len() <= 39 + 6 * (name.len()
            + description.len() + image.len()),
{
    lemma_escape_len(name);
    lemma_escape_len(description);
    lemma_escape_len(image);
}

/// Serializes the metadata record field by field, in declared order, as one
/// JSON object. Byte-for-byte deterministic, with no error path.
pub fn metadata_json(name: &Vec<u8>, description: &Vec<u8>, image: &Vec<u8>) -> (r: Vec<u8>)
    ensures
        r@ == spec_metadata_json(name@, description@, image@),
{
    let mut out: Vec<u8> = vec![123, 34, 110, 97, 109, 101, 34, 58, 34];
    proof {
        assert(out@ =~= spec_json_name_head());
    }
    append_escaped(&mut out, name);
    let mut sep: Vec<u8> = vec![
        34,
        44,
        34,
        100,
        101,
        115,
        99,
        114,
        105,
        112,
        116,
        105,
        111,
        110,
        34,
        58,
        34,
    ];
    proof {
        assert(sep@ =~= spec_json_description_sep());
    }
    out.append(&mut sep);
    append_escaped(&mut out, description);
    let mut sep2: Vec<u8> = vec![34, 44, 34, 105, 109, 97, 103, 101, 34, 58, 34];
    proof {
        assert(sep2@ =~= spec_json_image_sep());
    }
    out.append(&mut sep2);
    append_escaped(&mut out, image);
    out.push(34);
    out.push(125);
    proof {
        assert(out@ =~= spec_metadata_json(name@, description@, image@));
    }
    out
}

} // verus!

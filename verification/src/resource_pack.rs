//! Names and index of the audio clips inside the downloadable sound pack,
//! as bytes of ASCII text.

use vstd::prelude::*;
use vstd::string::{is_ascii, is_ascii_spec_bytes, StringSliceAdditionalSpecFns};

verus! {

/// The bytes of an ASCII text.
pub open spec fn ascii(text: Seq<char>) -> Seq<u8> {
    Seq::new(text.len(), |i: int| text[i] as u8)
}

/// The decimal digits of `n`, most significant first, without leading
/// zeros.
pub open spec fn decimal_digits(n: nat) -> Seq<u8>
    decreases n,
{
    if n < 10 {
        seq![(48 + n) as u8]
    } else {
        decimal_digits(n / 10).push((48 + n % 10) as u8)
    }
}

/// Name of clip `index` as the game addresses it: `audio:` and the index.
pub open spec fn sound_name_bytes(index: nat) -> Seq<u8> {
    ascii("audio:"@) + decimal_digits(index)
}

/// Path of clip `index` inside the pack.
pub open spec fn clip_path_bytes(index: nat) -> Seq<u8> {
    ascii("assets/audio/sounds/"@) + decimal_digits(index) + ascii(".ogg"@)
}

/// The index entry of clip `index`, with its trailing comma.
pub open spec fn sound_entry(index: nat) -> Seq<u8> {
    ascii("\""@) + decimal_digits(index) + ascii("\":{\"sounds\":[\""@) + sound_name_bytes(index)
        + ascii("\"]},"@)
}

/// The index entries of clips `0..count`, in order.
pub open spec fn sound_entries(count: nat) -> Seq<u8>
    decreases count,
{
    if count == 0 {
        Seq::empty()
    } else {
        sound_entries((count - 1) as nat) + sound_entry((count - 1) as nat)
    }
}

/// The sound index of a pack with `count` clips: an opening brace and the
/// entries, with the last byte replaced by the closing brace.
pub open spec fn sounds_index(count: nat) -> Seq<u8> {
    (ascii("{"@) + sound_entries(count)).drop_last().push(125u8)
}

/// Appends an ASCII text.
fn append_text(out: &mut Vec<u8>, text: &str)
    requires
        is_ascii(text),
    ensures
        final(out)@ == old(out)@ + ascii(text@),
{
    broadcast use is_ascii_spec_bytes;

    let bytes = text.as_bytes();
    let mut i: usize = 0;
    while i < bytes.len()
        invariant
            i <= bytes@.len(),
            bytes@ == ascii(text@),
            out@ == old(out)@ + bytes@.take(i as int),
        decreases bytes@.len() - i,
    {
        out.push(bytes[i]);
        assert(bytes@.take(i + 1) == bytes@.take(i as int).push(bytes@[i as int]));
        i += 1;
    }
    assert(bytes@.take(bytes@.len() as int) == bytes@);
}

/// Appends the decimal digits of `n`.
fn append_decimal(out: &mut Vec<u8>, n: usize)
    ensures
        final(out)@ == old(out)@ + decimal_digits(n as nat),
    decreases n,
{
    if n >= 10 {
        append_decimal(out, n / 10);
    }
    out.push(48 + (n % 10) as u8);
}

/// The decimal digits of `n` as ASCII bytes.
pub fn decimal(n: usize) -> (digits: Vec<u8>)
    ensures
        digits@ == decimal_digits(n as nat),
{
    let mut digits: Vec<u8> = Vec::new();
    append_decimal(&mut digits, n);
    digits
}

/// Name of clip `index` as the game addresses it.
pub fn sound_name(index: usize) -> (name: Vec<u8>)
    ensures
        name@ == sound_name_bytes(index as nat),
{
    let mut name: Vec<u8> = Vec::new();
    proof {
        reveal_strlit("audio:");
    }
    append_text(&mut name, "audio:");
    append_decimal(&mut name, index);
    name
}

/// Path of clip `index` inside the pack.
pub fn clip_path(index: usize) -> (path: Vec<u8>)
    ensures
        path@ == clip_path_bytes(index as nat),
{
    let mut path: Vec<u8> = Vec::new();
    proof {
        reveal_strlit("assets/audio/sounds/");
        reveal_strlit(".ogg");
    }
    append_text(&mut path, "assets/audio/sounds/");
    append_decimal(&mut path, index);
    append_text(&mut path, ".ogg");
    path
}

/// The sound index of a pack with `count` clips. It maps each clip's
/// number to the clip's name; for no clips it is a lone closing brace.
pub fn sounds_json(count: usize) -> (json: Vec<u8>)
    ensures
        json@ == sounds_index(count as nat),
{
    let mut json: Vec<u8> = Vec::new();
    proof {
        reveal_strlit("{");
        reveal_strlit("\"");
        reveal_strlit("\":{\"sounds\":[\"");
        reveal_strlit("audio:");
        reveal_strlit("\"]},");
    }
    append_text(&mut json, "{");
    let mut i: usize = 0;
    while i < count
        invariant
            i <= count,
            json@ == ascii("{"@) + sound_entries(i as nat),
            is_ascii("\""),
            is_ascii("\":{\"sounds\":[\""),
            is_ascii("audio:"),
            is_ascii("\"]},"),
        decreases count - i,
    {
        append_text(&mut json, "\"");
        append_decimal(&mut json, i);
        append_text(&mut json, "\":{\"sounds\":[\"");
        append_text(&mut json, "audio:");
        append_decimal(&mut json, i);
        append_text(&mut json, "\"]},");
        i += 1;
    }
    json.pop();
    json.push(125u8);
    json
}

} // verus!

//! Comparing and splitting text by its UTF-8 bytes.

use vstd::prelude::*;
use vstd::string::StringSliceAdditionalSpecFns;
use vstd::utf8::{
    decode_utf8, encode_utf8, encode_utf8_decode_utf8, encode_utf8_valid_utf8, is_char_boundary,
    valid_utf8,
};

verus! {

/// Two texts with the same UTF-8 bytes are the same text.
pub proof fn same_bytes_same_text(a: Seq<char>, b: Seq<char>)
    requires
        encode_utf8(a) == encode_utf8(b),
    ensures
        a == b,
{
    encode_utf8_decode_utf8(a);
    encode_utf8_decode_utf8(b);
}

/// Whether two texts are equal.
pub fn same_text(a: &str, b: &str) -> (r: bool)
    ensures
        r == (a@ == b@),
{
    let x = a.as_bytes();
    let y = b.as_bytes();
    if x.len() != y.len() {
        return false;
    }
    let mut i: usize = 0;
    while i < x.len()
        invariant
            i <= x.len(),
            x.len() == y.len(),
            x@ == a.spec_bytes(),
            y@ == b.spec_bytes(),
            forall|j: int| 0 <= j < i ==> x@[j] == y@[j],
        decreases x.len() - i,
    {
        if x[i] != y[i] {
            return false;
        }
        i = i + 1;
    }
    proof {
        assert(x@ =~= y@);
        same_bytes_same_text(a@, b@);
    }
    true
}

/// Whether the pair of bytes 0, 1 stands at `at` in `bytes`.
pub open spec fn is_separator(bytes: Seq<u8>, at: int) -> bool {
    0 <= at && at + 1 < bytes.len() && bytes[at] == 0 && bytes[at + 1] == 1
}

/// Where the pair of bytes 0, 1 first stands in `bytes` at or after `from`.
pub open spec fn separator_from(bytes: Seq<u8>, from: int) -> Option<int>
    decreases bytes.len() - from,
{
    if from < 0 || from + 1 >= bytes.len() {
        None
    } else if bytes[from] == 0 && bytes[from + 1] == 1 {
        Some(from)
    } else {
        separator_from(bytes, from + 1)
    }
}

/// The two parts of a text of the form name, NUL, SOH, class: the text before
/// the first such pair of bytes in its UTF-8 encoding, and the text after it.
/// `None` where the text holds no such pair.
pub open spec fn name_and_class(text: Seq<char>) -> Option<(Seq<char>, Seq<char>)> {
    let bytes = encode_utf8(text);
    match separator_from(bytes, 0) {
        Some(at) => Some(
            (
                decode_utf8(bytes.subrange(0, at)),
                decode_utf8(bytes.subrange(at + 2, bytes.len() as int)),
            ),
        ),
        None => None,
    }
}

/// The separator that is found is the first pair of bytes 0, 1 at or after
/// `from`, and none is found only where there is no such pair.
pub proof fn separator_is_first(bytes: Seq<u8>, from: int)
    requires
        0 <= from,
    ensures
        separator_from(bytes, from) matches Some(at) ==> from <= at && is_separator(bytes, at)
            && forall|i: int| from <= i < at ==> !#[trigger] is_separator(bytes, i),
        separator_from(bytes, from) is None ==> forall|i: int|
            from <= i ==> !#[trigger] is_separator(bytes, i),
    decreases bytes.len() - from,
{
    if from + 1 < bytes.len() && !(bytes[from] == 0 && bytes[from + 1] == 1) {
        separator_is_first(bytes, from + 1);
    }
}

/// A byte below 128 is a character of its own: the text can be cut after it.
proof fn boundary_after_ascii(bytes: Seq<u8>)
    requires
        valid_utf8(bytes),
        bytes.len() > 0,
        bytes[0] < 128,
    ensures
        is_char_boundary(bytes, 1),
        valid_utf8(bytes.subrange(1, bytes.len() as int)),
{
    reveal_with_fuel(is_char_boundary, 2);
    reveal_with_fuel(valid_utf8, 2);
}

/// Returns `Option<(name: &'a str, class: &'a str)>`
pub fn separate_name_class<'a>(name_class: &'a str) -> (r: Option<(&'a str, &'a str)>)
    ensures
        match name_and_class(name_class@) {
            Some((name, class)) => r matches Some((n, c)) && n@ == name && c@ == class,
            None => r is None,
        },
{
    let bytes = name_class.as_bytes();
    let mut i: usize = 0;
    proof {
        encode_utf8_valid_utf8(name_class@);
    }
    while i < bytes.len() && bytes.len() - i >= 2
        invariant
            bytes@ == name_class.spec_bytes(),
            valid_utf8(bytes@),
            i <= bytes.len(),
            separator_from(bytes@, 0) == separator_from(bytes@, i as int),
        decreases bytes.len() - i,
    {
        if bytes[i] == 0 && bytes[i + 1] == 1 {
            proof {
                vstd::utf8::is_char_boundary_iff_not_is_continuation_byte(bytes@, i as int);
            }
            let (name, rest) = name_class.split_at(i);
            proof {
                encode_utf8_valid_utf8(rest@);
                boundary_after_ascii(rest.spec_bytes());
            }
            let (_nul, rest) = rest.split_at(1);
            proof {
                encode_utf8_valid_utf8(rest@);
                boundary_after_ascii(rest.spec_bytes());
            }
            let (_soh, class) = rest.split_at(1);
            proof {
                encode_utf8_decode_utf8(name@);
                encode_utf8_decode_utf8(class@);
                assert(class.spec_bytes() =~= bytes@.subrange(i + 2, bytes@.len() as int));
                assert(name.spec_bytes() =~= bytes@.subrange(0, i as int));
            }
            return Some((name, class));
        }
        i = i + 1;
    }
    None
}

} // verus!

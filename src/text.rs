use vstd::prelude::*;
use vstd::string::*;
use vstd::utf8::*;

verus! {

/// What `String::from_utf8_lossy` makes of a byte sequence.
pub uninterp spec fn lossy_of(b: Seq<u8>) -> Seq<char>;

/// Relies on `String::from_utf8_lossy`: the text view of the bytes, with each
/// invalid sequence replaced; it depends on the bytes alone, and valid UTF-8
/// comes back as the text it encodes.
#[verifier::external_body]
pub(crate) fn lossy_text(input: &[u8]) -> (r: String)
    ensures
        r@ == lossy_of(input@),
        valid_utf8(input@) ==> r@ == decode_utf8(input@),
{
    String::from_utf8_lossy(input).into_owned()
}


/// The lowercase hexadecimal digit of `d`.
pub open spec fn hex_digit(d: nat) -> char {
    seq!['0', '1', '2', '3', '4', '5', '6', '7', '8', '9', 'a', 'b', 'c', 'd', 'e', 'f'][d as int]
}

/// Lowercase hexadecimal text of `v`, without leading zeros.
pub open spec fn hex_text(v: nat) -> Seq<char>
    decreases v,
{
    if v < 16 {
        seq![hex_digit(v)]
    } else {
        hex_text(v / 16).push(hex_digit(v % 16))
    }
}

/// The one-character text of the hexadecimal digit `d`.
fn hex_digit_str(d: u64) -> (r: &'static str)
    requires
        d < 16,
    ensures
        r@ == seq![hex_digit(d as nat)],
{
    proof {
        reveal_strlit("0");
        reveal_strlit("1");
        reveal_strlit("2");
        reveal_strlit("3");
        reveal_strlit("4");
        reveal_strlit("5");
        reveal_strlit("6");
        reveal_strlit("7");
        reveal_strlit("8");
        reveal_strlit("9");
        reveal_strlit("a");
        reveal_strlit("b");
        reveal_strlit("c");
        reveal_strlit("d");
        reveal_strlit("e");
        reveal_strlit("f");
    }
    match d {
        0 => "0",
        1 => "1",
        2 => "2",
        3 => "3",
        4 => "4",
        5 => "5",
        6 => "6",
        7 => "7",
        8 => "8",
        9 => "9",
        10 => "a",
        11 => "b",
        12 => "c",
        13 => "d",
        14 => "e",
        _ => "f",
    }
}

/// Appends the lowercase hexadecimal text of `v` to `out`.
pub fn push_hex(out: &mut String, v: u64)
    ensures
        final(out)@ == old(out)@ + hex_text(v as nat),
    decreases v,
{
    if v >= 16 {
        push_hex(out, v / 16);
    }
    out.append(hex_digit_str(v % 16));
    assert(final(out)@ =~= old(out)@ + hex_text(v as nat));
}

/// `needle` stands in `hay` starting at position `i`.
pub open spec fn occurs_at(hay: Seq<u8>, needle: Seq<u8>, i: int) -> bool {
    0 <= i && i + needle.len() <= hay.len() && hay.subrange(i, i + needle.len()) == needle
}

/// `needle` stands somewhere in `hay`.
pub open spec fn contains_bytes(hay: Seq<u8>, needle: Seq<u8>) -> bool {
    exists|i: int| occurs_at(hay, needle, i)
}

/// The first position at or after `i` where `needle` stands in `hay`.
pub open spec fn first_from(hay: Seq<u8>, needle: Seq<u8>, i: int) -> Option<int>
    decreases hay.len() + 1 - i,
{
    if i < 0 || i > hay.len() {
        None
    } else if occurs_at(hay, needle, i) {
        Some(i)
    } else {
        first_from(hay, needle, i + 1)
    }
}

/// The first position where `needle` stands in `hay`.
pub open spec fn first_occurrence(hay: Seq<u8>, needle: Seq<u8>) -> Option<int> {
    first_from(hay, needle, 0)
}

/// `hay` with the first occurrence of `needle`, if any, replaced by `with`.
pub open spec fn replace_first(hay: Seq<u8>, needle: Seq<u8>, with: Seq<u8>) -> Seq<u8> {
    match first_occurrence(hay, needle) {
        Some(i) => hay.subrange(0, i) + with + hay.subrange(i + needle.len(), hay.len() as int),
        None => hay,
    }
}

proof fn lemma_no_occurrence_past(hay: Seq<u8>, needle: Seq<u8>, i: int)
    requires
        i + needle.len() > hay.len(),
    ensures
        first_from(hay, needle, i) == None::<int>,
    decreases hay.len() + 1 - i,
{
    if 0 <= i && i <= hay.len() {
        lemma_no_occurrence_past(hay, needle, i + 1);
    }
}

/// Whether `needle` stands in `hay` at position `i`.
fn matches_at(hay: &[u8], needle: &[u8], i: usize) -> (r: bool)
    requires
        i + needle@.len() <= hay@.len(),
    ensures
        r == occurs_at(hay@, needle@, i as int),
{
    let n = needle.len();
    let len = hay.len();
    let mut k: usize = 0;
    while k < n
        invariant
            n == needle@.len(),
            len == hay@.len(),
            i + n <= hay@.len(),
            k <= n,
            forall|j: int| 0 <= j < k ==> hay@[i + j] == needle@[j],
        decreases n - k,
    {
        assert(i + k < hay@.len());
        if hay[i + k] != needle[k] {
            assert(hay@.subrange(i as int, i + n)[k as int] != needle@[k as int]);
            return false;
        }
        k = k + 1;
    }
    assert(hay@.subrange(i as int, i + n) =~= needle@);
    true
}

/// The first position where `needle` stands in `hay`, if it stands there.
pub fn find_bytes(hay: &[u8], needle: &[u8]) -> (r: Option<usize>)
    ensures
        match r {
            Some(i) => first_occurrence(hay@, needle@) == Some(i as int) && occurs_at(
                hay@,
                needle@,
                i as int,
            ),
            None => first_occurrence(hay@, needle@) == None::<int>,
        },
        r is Some <==> contains_bytes(hay@, needle@),
{
    let len = hay.len();
    let n = needle.len();
    if n == 0 {
        assert(hay@.subrange(0, 0) =~= needle@);
        assert(occurs_at(hay@, needle@, 0));
        return Some(0);
    }
    if n > len {
        proof {
            lemma_no_occurrence_past(hay@, needle@, 0);
        }
        return None;
    }
    let last = len - n;
    let mut i: usize = 0;
    while i <= last
        invariant
            len == hay@.len(),
            n == needle@.len(),
            1 <= n <= len,
            last == len - n,
            i <= last + 1,
            first_from(hay@, needle@, 0) == first_from(hay@, needle@, i as int),
            forall|j: int| 0 <= j < i ==> !occurs_at(hay@, needle@, j),
        decreases last + 1 - i,
    {
        if matches_at(hay, needle, i) {
            return Some(i);
        }
        i = i + 1;
    }
    proof {
        lemma_no_occurrence_past(hay@, needle@, i as int);
        assert forall|j: int| !occurs_at(hay@, needle@, j) by {
            if 0 <= j < i {
            }
        }
    }
    None
}

/// Appends the bytes of `src` to `out`.
pub fn push_all(out: &mut Vec<u8>, src: &[u8])
    ensures
        final(out)@ == old(out)@ + src@,
{
    let mut k: usize = 0;
    while k < src.len()
        invariant
            k <= src@.len(),
            out@ == old(out)@ + src@.subrange(0, k as int),
        decreases src@.len() - k,
    {
        out.push(src[k]);
        k = k + 1;
        assert(out@ =~= old(out)@ + src@.subrange(0, k as int));
    }
    assert(src@.subrange(0, k as int) =~= src@);
}

/// `hay` with its first occurrence of `needle`, if any, replaced by `with`.
pub fn replace_first_bytes(hay: &[u8], needle: &[u8], with: &[u8]) -> (r: Vec<u8>)
    ensures
        r@ == replace_first(hay@, needle@, with@),
{
    let mut out: Vec<u8> = Vec::new();
    match find_bytes(hay, needle) {
        Some(i) => {
            let len = hay.len();
            let end = i + needle.len();
            push_all(&mut out, vstd::slice::slice_subrange(hay, 0, i));
            push_all(&mut out, with);
            push_all(&mut out, vstd::slice::slice_subrange(hay, end, hay.len()));
        },
        None => {
            push_all(&mut out, hay);
            assert(out@ =~= hay@);
        },
    }
    out
}

} // verus!

use vstd::prelude::*;

verus! {

/// The lowercase hexadecimal digit that stands for `nibble`, for `0 <= nibble < 16`.
pub open spec fn hex_digit(nibble: int) -> char {
    "0123456789abcdef"@[nibble]
}

/// The text of `bytes` in lowercase hexadecimal: two digits for each byte, the high
/// half first.
pub open spec fn hex_encoding(bytes: Seq<u8>) -> Seq<char> {
    Seq::new(
        2 * bytes.len(),
        |i: int|
            if i % 2 == 0 {
                hex_digit(bytes[i / 2] as int / 16)
            } else {
                hex_digit(bytes[i / 2] as int % 16)
            },
    )
}

/// Whether `c` is one of `0` to `9` or `a` to `f`.
pub open spec fn is_lowercase_hex_digit(c: char) -> bool {
    ('0' <= c && c <= '9') || ('a' <= c && c <= 'f')
}

/// The sixteen digits are lowercase, and no two are alike.
pub proof fn lemma_hex_digits(first: int, second: int)
    requires
        0 <= first < 16,
        0 <= second < 16,
    ensures
        is_lowercase_hex_digit(hex_digit(first)),
        hex_digit(first) == hex_digit(second) ==> first == second,
{
    reveal_strlit("0123456789abcdef");
}

/// The text of `bytes` has two lowercase digits for each byte.
pub proof fn lemma_hex_encoding_is_lowercase(bytes: Seq<u8>)
    ensures
        hex_encoding(bytes).len() == 2 * bytes.len(),
        forall|i: int|
            0 <= i < hex_encoding(bytes).len() ==> is_lowercase_hex_digit(
                #[trigger] hex_encoding(bytes)[i],
            ),
{
    assert forall|i: int| 0 <= i < hex_encoding(bytes).len() implies is_lowercase_hex_digit(
        #[trigger] hex_encoding(bytes)[i],
    ) by {
        let byte = bytes[i / 2] as int;
        lemma_hex_digits(byte / 16, byte % 16);
        lemma_hex_digits(byte % 16, byte / 16);
    }
}

/// Bytes that are written alike are alike.
pub proof fn lemma_hex_encoding_tells_bytes(first: Seq<u8>, second: Seq<u8>)
    requires
        hex_encoding(first) == hex_encoding(second),
    ensures
        first == second,
{
    assert(hex_encoding(first).len() == 2 * first.len());
    assert(hex_encoding(second).len() == 2 * second.len());
    assert forall|k: int| 0 <= k < first.len() implies first[k] == second[k] by {
        let one = first[k] as int;
        let other = second[k] as int;
        lemma_hex_digits(one / 16, other / 16);
        lemma_hex_digits(one % 16, other % 16);
        assert(hex_encoding(first)[2 * k] == hex_digit(one / 16));
        assert(hex_encoding(second)[2 * k] == hex_digit(other / 16));
        assert(hex_encoding(first)[2 * k + 1] == hex_digit(one % 16));
        assert(hex_encoding(second)[2 * k + 1] == hex_digit(other % 16));
    }
    assert(first =~= second);
}

fn digit_text(nibble: u8) -> (text: &'static str)
    requires
        nibble < 16,
    ensures
        text@ == seq![hex_digit(nibble as int)],
{
    proof {
        reveal_strlit("0123456789abcdef");
        reveal_strlit("0");
        reveal_strlit("1");
        reveal_strlit("2");
        reveal_strlit("3");
        reveal_strlit("4");
        reveal_strlit("5");
        reveal_strlit("6");
        reveal_strlit("7");
        reveal_strlit("8");
        reveal_strlit("9");
        reveal_strlit("a");
        reveal_strlit("b");
        reveal_strlit("c");
        reveal_strlit("d");
        reveal_strlit("e");
        reveal_strlit("f");
    }
    let text = match nibble {
        0 => "0",
        1 => "1",
        2 => "2",
        3 => "3",
        4 => "4",
        5 => "5",
        6 => "6",
        7 => "7",
        8 => "8",
        9 => "9",
        10 => "a",
        11 => "b",
        12 => "c",
        13 => "d",
        14 => "e",
        _ => "f",
    };
    assert(text@ =~= seq![hex_digit(nibble as int)]);
    text
}

/// Writes `bytes` in lowercase hexadecimal.
pub fn encode_hex(bytes: &[u8]) -> (text: String)
    ensures
        text@ == hex_encoding(bytes@),
{
    let mut text = String::new();
    let mut i: usize = 0;
    while i < bytes.len()
        invariant
            i <= bytes.len(),
            text@ == hex_encoding(bytes@.take(i as int)),
        decreases bytes.len() - i,
    {
        let byte: u8 = bytes[i];
        text.append(digit_text(byte / 16));
        text.append(digit_text(byte % 16));
        i += 1;
        assert(text@ =~= hex_encoding(bytes@.take(i as int)));
    }
    assert(bytes@.take(i as int) =~= bytes@);
    text
}

} // verus!

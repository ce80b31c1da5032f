//! A text disguise: each byte is combined with a byte of a fixed key by
//! exclusive or and written as a decimal number; the numbers are separated by
//! commas.

use crate::decimal::{
    is_digit, lemma_numeral, lemma_parse_numeral, numeral, numeral_of, parse_decimal,
    parse_unsigned,
};
use crate::text_proofs::lemma_split_join;
use crate::text::{chars_of, join, push_char, split, split_chars, views};
use vstd::prelude::*;
use vstd::string::StringSliceAdditionalSpecFns;
use vstd::utf8::{encode_utf8, is_ascii_chars, is_ascii_chars_encode_utf8};

verus! {

/// How many bytes the key has.
pub const KEY_LEN: usize = 14;

/// The byte of the key that is combined with the byte at position `i`: the
/// key is the ASCII text `BGTBuilder2024`, repeated as often as needed.
pub open spec fn key_at(i: int) -> u8 {
    let k = i % 14;
    if k == 0 {
        66
    } else if k == 1 {
        71
    } else if k == 2 {
        84
    } else if k == 3 {
        66
    } else if k == 4 {
        117
    } else if k == 5 {
        105
    } else if k == 6 {
        108
    } else if k == 7 {
        100
    } else if k == 8 {
        101
    } else if k == 9 {
        114
    } else if k == 10 {
        50
    } else if k == 11 {
        48
    } else if k == 12 {
        50
    } else {
        52
    }
}

/// The separator of the numbers.
pub open spec fn comma() -> Seq<char> {
    seq![',']
}

/// The numerals of the bytes of `bytes`, each combined with its key byte.
pub open spec fn cipher_numerals(bytes: Seq<u8>) -> Seq<Seq<char>> {
    Seq::new(bytes.len(), |i: int| numeral((bytes[i] ^ key_at(i)) as nat))
}

/// The disguise of `bytes`.
pub open spec fn encrypted(bytes: Seq<u8>) -> Seq<char> {
    join(cipher_numerals(bytes), comma())
}

/// Whether `data` is a disguise: between its commas stand numbers up to 255,
/// and nothing else.
pub open spec fn is_disguise(data: Seq<char>) -> bool {
    forall|i: int|
        0 <= i < split(data, comma()).len() ==> parse_unsigned(
            #[trigger] split(data, comma())[i],
            255,
        ) is Some
}

/// What the disguise `data` hides: for each of its numbers the character
/// whose code is the number combined with its key byte.
pub open spec fn decrypted(data: Seq<char>) -> Seq<char> {
    Seq::new(
        split(data, comma()).len(),
        |i: int| ((parse_unsigned(split(data, comma())[i], 255).unwrap() as u8) ^ key_at(i)) as char,
    )
}

/// The byte of the key that is combined with the byte at position `i`.
pub fn key_byte(i: usize) -> (k: u8)
    ensures
        k == key_at(i as int),
{
    let r: usize = i % KEY_LEN;
    if r == 0 {
        66
    } else if r == 1 {
        71
    } else if r == 2 {
        84
    } else if r == 3 {
        66
    } else if r == 4 {
        117
    } else if r == 5 {
        105
    } else if r == 6 {
        108
    } else if r == 7 {
        100
    } else if r == 8 {
        101
    } else if r == 9 {
        114
    } else if r == 10 {
        50
    } else if r == 11 {
        48
    } else if r == 12 {
        50
    } else {
        52
    }
}

/// Disguises `data`, byte by byte of its UTF-8 form.
pub fn xor_encrypt(data: &str) -> (text: String)
    ensures
        text@ == encrypted(encode_utf8(data@)),
{
    let bytes = data.as_bytes();
    let ghost all = cipher_numerals(bytes@);
    let mut text = String::new();
    let mut i: usize = 0;
    assert(all.take(0) =~= Seq::<Seq<char>>::empty());
    while i < bytes.len()
        invariant
            i <= bytes.len(),
            bytes@ == data.spec_bytes(),
            all == cipher_numerals(bytes@),
            text@ == join(all.take(i as int), comma()),
        decreases bytes.len() - i,
    {
        let number: u8 = bytes[i] ^ key_byte(i);
        let digits = numeral_of(number as u32);
        proof {
            assert(all.take(i + 1).drop_last() =~= all.take(i as int));
            assert(all.take(i + 1).last() == digits@);
            if i == 0 {
                assert(all.take(1)[0] == digits@);
            }
        }
        if i > 0 {
            push_char(&mut text, ',');
            assert(text@ =~= join(all.take(i as int), comma()) + comma());
        }
        let mut k: usize = 0;
        let ghost before = text@;
        while k < digits.len()
            invariant
                k <= digits.len(),
                text@ == before + digits@.take(k as int),
            decreases digits.len() - k,
        {
            push_char(&mut text, digits[k]);
            assert(digits@.take(k + 1) =~= digits@.take(k as int).push(digits@[k as int]));
            k += 1;
        }
        assert(digits@.take(k as int) =~= digits@);
        i += 1;
    }
    assert(all.take(i as int) =~= all);
    text
}

/// What `data` hides, where it is a disguise.
pub fn xor_decode(data: &str) -> (r: Option<String>)
    ensures
        match r {
            Some(text) => is_disguise(data@) && text@ == decrypted(data@),
            None => !is_disguise(data@),
        },
{
    let chars = chars_of(data);
    let mut separator: Vec<char> = Vec::new();
    separator.push(',');
    assert(separator@ =~= comma());
    let pieces = split_chars(&chars, &separator);
    let ghost all = split(data@, comma());
    let mut text = String::new();
    let mut i: usize = 0;
    while i < pieces.len()
        invariant
            i <= pieces.len(),
            all == split(data@, comma()),
            all == views(pieces@),
            forall|j: int| 0 <= j < i ==> parse_unsigned(#[trigger] all[j], 255) is Some,
            text@ == decrypted(data@).take(i as int),
        decreases pieces.len() - i,
    {
        assert(all[i as int] == pieces@[i as int]@);
        match parse_decimal(&pieces[i], 255) {
            None => {
                return None;
            },
            Some(number) => {
                push_char(&mut text, ((number as u8) ^ key_byte(i)) as char);
                assert(text@ =~= decrypted(data@).take(i + 1));
            },
        }
        i += 1;
    }
    assert(decrypted(data@).take(i as int) =~= decrypted(data@));
    Some(text)
}

/// What the disguise `data` hides.
pub fn xor_decrypt(data: &str) -> (text: String)
    requires
        is_disguise(data@),
    ensures
        text@ == decrypted(data@),
{
    match xor_decode(data) {
        Some(text) => text,
        None => String::new(),
    }
}

/// What is disguised can be read back: the disguise of bytes is a disguise,
/// and it hides the characters whose codes are the bytes. This holds of one
/// byte or more: without any byte the disguise is empty, and an empty text
/// hides nothing.
pub proof fn lemma_decrypt_encrypt(bytes: Seq<u8>)
    requires
        bytes.len() > 0,
    ensures
        is_disguise(encrypted(bytes)),
        decrypted(encrypted(bytes)) == bytes.map_values(|b: u8| b as char),
{
    let parts = cipher_numerals(bytes);
    assert forall|i: int| 0 <= i < parts.len() implies !(#[trigger] parts[i]).contains(',') by {
        lemma_numeral((bytes[i] ^ key_at(i)) as nat);
        if parts[i].contains(',') {
            let j = choose|j: int| 0 <= j < parts[i].len() && parts[i][j] == ',';
            assert(is_digit(parts[i][j]));
        }
    }
    lemma_split_join(parts, ',');
    let data = encrypted(bytes);
    assert(split(data, comma()) == parts);
    assert forall|i: int| 0 <= i < parts.len() implies parse_unsigned(#[trigger] parts[i], 255)
        == Some((bytes[i] ^ key_at(i)) as u32) by {
        lemma_parse_numeral((bytes[i] ^ key_at(i)) as nat, 255);
    }
    assert forall|i: int| 0 <= i < bytes.len() implies decrypted(data)[i] == bytes[i] as char by {
        let b = bytes[i];
        let k = key_at(i);
        assert(parse_unsigned(parts[i], 255) == Some((b ^ k) as u32));
        assert((((b ^ k) as u32) as u8) == b ^ k);
        assert((b ^ k) ^ k == b) by (bit_vector);
    }
    assert(decrypted(data) =~= bytes.map_values(|b: u8| b as char));
}

/// A text of ASCII characters, one or more, comes back from its disguise as
/// it was.
pub proof fn lemma_decrypt_encrypt_ascii(text: Seq<char>)
    requires
        text.len() > 0,
        is_ascii_chars(text),
    ensures
        is_disguise(encrypted(encode_utf8(text))),
        decrypted(encrypted(encode_utf8(text))) == text,
{
    is_ascii_chars_encode_utf8(text);
    let bytes = encode_utf8(text);
    lemma_decrypt_encrypt(bytes);
    assert forall|i: int| 0 <= i < text.len() implies bytes[i] as char == text[i] by {
        assert(text[i] as u8 == bytes[i]);
        assert('\0' <= text[i] <= '\u{7f}');
    }
    assert(bytes.map_values(|b: u8| b as char) =~= text);
}

} // verus!

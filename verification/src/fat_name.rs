//! Readable names of FAT 8.3 directory entries.
use vstd::prelude::*;

verus! {

/// The bytes that read as letters or digits (Unicode alphabetic or numeric)
/// when taken as Latin-1 characters: ASCII letters and digits, the ordinal
/// indicators, the micro sign, the superscript digits, the vulgar fractions
/// and the accented letters.
pub open spec fn is_name_char(b: u8) -> bool {
    ||| 0x30 <= b <= 0x39
    ||| 0x41 <= b <= 0x5A
    ||| 0x61 <= b <= 0x7A
    ||| b == 0xAA || b == 0xB2 || b == 0xB3 || b == 0xB5 || b == 0xB9 || b == 0xBA
    ||| 0xBC <= b <= 0xBE
    ||| (0xC0 <= b && b != 0xD7 && b != 0xF7)
}

/// The characters of `b` that `is_name_char` keeps, in order.
pub open spec fn kept_chars(b: Seq<u8>) -> Seq<char>
    decreases b.len(),
{
    if b.len() == 0 {
        Seq::empty()
    } else {
        let rest = kept_chars(b.drop_last());
        if is_name_char(b.last()) {
            rest.push(b.last() as char)
        } else {
            rest
        }
    }
}

/// The name a raw 8.3 entry name reads as: the kept characters of the base
/// name, a dot, and the kept characters of the extension.
pub open spec fn fat_name(chars: Seq<u8>) -> Seq<char> {
    kept_chars(chars.subrange(0, 8)).push('.') + kept_chars(chars.subrange(8, 11))
}

/// Whether the byte, taken as a character, is alphanumeric.
#[verifier::external_body]
fn byte_is_alphanumeric(b: u8) -> (r: bool)
    ensures
        r == is_name_char(b),
{
    (b as char).is_alphanumeric()
}

/// The string made of `chars`.
#[verifier::external_body]
fn string_from_chars(chars: &Vec<char>) -> (s: String)
    ensures
        s@ == chars@,
{
    String::from_iter(chars.iter())
}

/// Appends the kept characters of `chars[from..to]` to `name`.
fn push_kept(chars: &[u8; 11], from: usize, to: usize, name: &mut Vec<char>)
    requires
        from <= to <= 11,
    ensures
        final(name)@ == old(name)@ + kept_chars(chars@.subrange(from as int, to as int)),
{
    let ghost start = name@;
    let mut i = from;
    while i < to
        invariant
            from <= i <= to <= 11,
            name@ == start + kept_chars(chars@.subrange(from as int, i as int)),
        decreases to - i,
    {
        let c = chars[i];
        proof {
            let next = chars@.subrange(from as int, i + 1);
            assert(next.drop_last() =~= chars@.subrange(from as int, i as int));
            assert(next.last() == c);
        }
        if byte_is_alphanumeric(c) {
            name.push(c as char);
            proof {
                let next = chars@.subrange(from as int, i + 1);
                assert(kept_chars(next) == kept_chars(next.drop_last()).push(c as char));
                assert(name@ =~= start + kept_chars(next));
            }
        }
        i = i + 1;
    }
}

/// The readable name of an 8.3 entry name: the letters and digits of the
/// base name, a dot, then the letters and digits of the extension; padding
/// and other characters are dropped.
pub fn fat_name_from_chars(chars: &[u8; 11]) -> (name: String)
    ensures
        name@ == fat_name(chars@),
{
    let mut name: Vec<char> = Vec::new();
    push_kept(chars, 0, 8, &mut name);
    name.push('.');
    push_kept(chars, 8, 11, &mut name);
    proof {
        assert(name@ =~= fat_name(chars@));
    }
    string_from_chars(&name)
}

} // verus!

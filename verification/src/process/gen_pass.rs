//! Random passwords, drawn from up to four classes of characters.

use vstd::prelude::*;
use vstd::pervasive::unreached;
use vstd::seq_lib::{to_multiset_contains, to_multiset_len};
use vstd::utf8::{
    decode_utf8, decode_utf8_encode_utf8, encode_utf8, encode_utf8_valid_utf8,
    is_ascii_chars, is_ascii_chars_encode_utf8, valid_utf8,
};
use crate::trusted::random::{pick_one, shuffle};
use crate::trusted::strength::estimate_strength;
use crate::trusted::text::{string_from_utf8, visible};

verus! {

/// The upper-case letters `A` to `Z`.
pub const UPPER: [u8; 26] = [
    65, 66, 67, 68, 69, 70, 71, 72, 73, 74, 75, 76, 77, 78, 79, 80, 81, 82, 83, 84, 85, 86, 87, 88,
    89, 90,
];

/// The lower-case letters `a` to `z`, without `l`.
pub const LOWER: [u8; 25] = [
    97, 98, 99, 100, 101, 102, 103, 104, 105, 106, 107, 109, 110, 111, 112, 113, 114, 115, 116,
    117, 118, 119, 120, 121, 122,
];

/// The digits `1` to `9`.
pub const NUMBER: [u8; 9] = [49, 50, 51, 52, 53, 54, 55, 56, 57];

/// The symbols `@ # $ % & * ! . ? _`.
pub const SYMBOL: [u8; 10] = [64, 35, 36, 37, 38, 42, 33, 46, 63, 95];

/// Why no password came out.
#[derive(Clone, Copy, Debug, PartialEq, Eq, Structural)]
pub enum GenPassError {
    /// The password is empty, so its strength cannot be estimated.
    BlankPassword,
    /// The clock gave a time that the strength estimator cannot work with.
    DurationOutOfRange,
}

impl GenPassError {
    /// The text shown for this error.
    pub fn message(&self) -> (text: &'static str)
        ensures
            text@ == match *self {
                GenPassError::BlankPassword => "Zxcvbn cannot evaluate a blank password"@,
                GenPassError::DurationOutOfRange =>
                    "Zxcvbn calculation time created a duration out of range"@,
            },
    {
        match self {
            GenPassError::BlankPassword => "Zxcvbn cannot evaluate a blank password",
            GenPassError::DurationOutOfRange =>
                "Zxcvbn calculation time created a duration out of range",
        }
    }
}

/// How many of the four character classes are switched on.
pub open spec fn class_count(uppercase: bool, lowercase: bool, number: bool, symbol: bool) -> nat {
    (if uppercase { 1nat } else { 0 }) + (if lowercase { 1nat } else { 0 })
        + (if number { 1nat } else { 0 }) + (if symbol { 1nat } else { 0 })
}

/// Whether a password of `len` characters can be drawn: it must have room for
/// one character of each class that is switched on, and where it has any
/// character at all, some class must be switched on to draw from.
pub open spec fn can_draw(len: u8, uppercase: bool, lowercase: bool, number: bool, symbol: bool) -> bool {
    &&& class_count(uppercase, lowercase, number, symbol) <= len
    &&& len > 0 ==> class_count(uppercase, lowercase, number, symbol) > 0
}

/// The characters of the classes that are switched on.
pub open spec fn alphabet(uppercase: bool, lowercase: bool, number: bool, symbol: bool) -> Seq<u8> {
    (if uppercase { UPPER@ } else { Seq::<u8>::empty() })
        + (if lowercase { LOWER@ } else { Seq::<u8>::empty() })
        + (if number { NUMBER@ } else { Seq::<u8>::empty() })
        + (if symbol { SYMBOL@ } else { Seq::<u8>::empty() })
}

/// Some character of `password` belongs to `class`.
pub open spec fn holds_one_of(password: Seq<u8>, class: Seq<u8>) -> bool {
    exists|i: int| 0 <= i < password.len() && class.contains(#[trigger] password[i])
}

/// Every character of `password` comes from the classes that are switched on,
/// and each of them has given at least one.
pub open spec fn draws_on_classes(
    password: Seq<u8>,
    uppercase: bool,
    lowercase: bool,
    number: bool,
    symbol: bool,
) -> bool {
    &&& forall|i: int|
        0 <= i < password.len() ==> alphabet(uppercase, lowercase, number, symbol).contains(
            #[trigger] password[i],
        )
    &&& uppercase ==> holds_one_of(password, UPPER@)
    &&& lowercase ==> holds_one_of(password, LOWER@)
    &&& number ==> holds_one_of(password, NUMBER@)
    &&& symbol ==> holds_one_of(password, SYMBOL@)
}

/// `password` has `len` characters, all from the classes that are switched
/// on, and at least one from each of them.
pub open spec fn is_password(
    password: Seq<u8>,
    len: u8,
    uppercase: bool,
    lowercase: bool,
    number: bool,
    symbol: bool,
) -> bool {
    &&& password.len() == len
    &&& draws_on_classes(password, uppercase, lowercase, number, symbol)
}

/// Every character of every class is an ASCII character.
pub proof fn lemma_alphabet_is_ascii(
    uppercase: bool,
    lowercase: bool,
    number: bool,
    symbol: bool,
    c: u8,
)
    requires
        alphabet(uppercase, lowercase, number, symbol).contains(c),
    ensures
        33 <= c < 127,
{
    let a = alphabet(uppercase, lowercase, number, symbol);
    let i = choose|i: int| 0 <= i < a.len() && a[i] == c;
    assert(forall|j: int| 0 <= j < UPPER@.len() ==> 33 <= #[trigger] UPPER@[j] < 127);
    assert(forall|j: int| 0 <= j < LOWER@.len() ==> 33 <= #[trigger] LOWER@[j] < 127);
    assert(forall|j: int| 0 <= j < NUMBER@.len() ==> 33 <= #[trigger] NUMBER@[j] < 127);
    assert(forall|j: int| 0 <= j < SYMBOL@.len() ==> 33 <= #[trigger] SYMBOL@[j] < 127);
    assert(33 <= a[i] < 127);
}

/// Bytes below 128 are valid UTF-8, one character each.
pub proof fn lemma_ascii_is_utf8(bytes: Seq<u8>)
    requires
        forall|i: int| 0 <= i < bytes.len() ==> #[trigger] bytes[i] < 128,
    ensures
        valid_utf8(bytes),
        decode_utf8(bytes) == Seq::new(bytes.len(), |i: int| bytes[i] as char),
        encode_utf8(decode_utf8(bytes)) == bytes,
{
    let chars = Seq::new(bytes.len(), |i: int| bytes[i] as char);
    assert(is_ascii_chars(chars));
    is_ascii_chars_encode_utf8(chars);
    assert(encode_utf8(chars) =~= bytes);
    encode_utf8_valid_utf8(chars);
    vstd::utf8::encode_utf8_decode_utf8(chars);
    decode_utf8_encode_utf8(bytes);
}

/// A password stays one however its characters are reordered.
pub proof fn lemma_reordered_is_password(
    before: Seq<u8>,
    after: Seq<u8>,
    len: u8,
    uppercase: bool,
    lowercase: bool,
    number: bool,
    symbol: bool,
)
    requires
        before.to_multiset() == after.to_multiset(),
        is_password(before, len, uppercase, lowercase, number, symbol),
    ensures
        is_password(after, len, uppercase, lowercase, number, symbol),
{
    to_multiset_len(before);
    to_multiset_len(after);
    assert forall|i: int| 0 <= i < after.len() implies alphabet(
        uppercase,
        lowercase,
        number,
        symbol,
    ).contains(#[trigger] after[i]) by {
        lemma_same_members(after, before, after[i]);
        assert(after.contains(after[i]));
        let j = choose|j: int| 0 <= j < before.len() && before[j] == after[i];
        assert(alphabet(uppercase, lowercase, number, symbol).contains(before[j]));
    }
    if uppercase {
        lemma_reordered_holds_one_of(before, after, UPPER@);
    }
    if lowercase {
        lemma_reordered_holds_one_of(before, after, LOWER@);
    }
    if number {
        lemma_reordered_holds_one_of(before, after, NUMBER@);
    }
    if symbol {
        lemma_reordered_holds_one_of(before, after, SYMBOL@);
    }
}

proof fn lemma_same_members(a: Seq<u8>, b: Seq<u8>, c: u8)
    requires
        a.to_multiset() == b.to_multiset(),
    ensures
        a.contains(c) == b.contains(c),
{
    to_multiset_contains(a, c);
    to_multiset_contains(b, c);
}

proof fn lemma_reordered_holds_one_of(before: Seq<u8>, after: Seq<u8>, class: Seq<u8>)
    requires
        before.to_multiset() == after.to_multiset(),
        holds_one_of(before, class),
    ensures
        holds_one_of(after, class),
{
    let i = choose|i: int| 0 <= i < before.len() && class.contains(#[trigger] before[i]);
    assert(before.contains(before[i]));
    lemma_same_members(before, after, before[i]);
    let j = choose|j: int| 0 <= j < after.len() && after[j] == before[i];
    assert(class.contains(after[j]));
}

/// A character of `class` at the end of a password counts for the class, and
/// whatever the classes had given before, they still have.
proof fn lemma_pushed(before: Seq<u8>, after: Seq<u8>, class: Seq<u8>, other: Seq<u8>)
    requires
        after.len() == before.len() + 1,
        after.drop_last() == before,
        class.contains(after.last()),
    ensures
        holds_one_of(after, class),
        holds_one_of(before, other) ==> holds_one_of(after, other),
{
    assert(class.contains(after[after.len() - 1]));
    if holds_one_of(before, other) {
        let i = choose|i: int| 0 <= i < before.len() && other.contains(#[trigger] before[i]);
        assert(before[i] == after[i]);
        assert(other.contains(after[i]));
    }
}

/// A password drawn from a pool stays drawn from it when the pool grows by a
/// class and the password by one character of that class.
proof fn lemma_class_added(before: Seq<u8>, after: Seq<u8>, pool: Seq<u8>, class: Seq<u8>)
    requires
        after.len() == before.len() + 1,
        after.drop_last() == before,
        class.contains(after.last()),
        forall|i: int| 0 <= i < before.len() ==> pool.contains(#[trigger] before[i]),
    ensures
        forall|i: int| 0 <= i < after.len() ==> (pool + class).contains(#[trigger] after[i]),
{
    assert forall|i: int| 0 <= i < after.len() implies (pool + class).contains(
        #[trigger] after[i],
    ) by {
        if i < before.len() {
            assert(after[i] == before[i]);
            let j = choose|j: int| 0 <= j < pool.len() && pool[j] == before[i];
            assert((pool + class)[j] == after[i]);
        } else {
            let k = choose|k: int| 0 <= k < class.len() && class[k] == after.last();
            assert((pool + class)[pool.len() + k] == after[i]);
        }
    }
}

/// Adds the characters of `class` to the pool `chars`, and one of them, chosen
/// at random, to `password`.
fn add_class(chars: &mut Vec<u8>, password: &mut Vec<u8>, class: &[u8])
    requires
        class@.len() > 0,
    ensures
        final(chars)@ == old(chars)@ + class@,
        final(password)@.len() == old(password)@.len() + 1,
        final(password)@.drop_last() == old(password)@,
        class@.contains(final(password)@.last()),
{
    chars.extend_from_slice(class);
    assert(chars@ =~= old(chars)@ + class@);
    let c = pick_one(class).unwrap();
    password.push(c);
    assert(password@.drop_last() =~= old(password)@);
}

/// Says whether a password of `len` characters can be drawn from the classes
/// that are switched on.
pub fn drawable(len: u8, uppercase: bool, lowercase: bool, number: bool, symbol: bool) -> (ok: bool)
    ensures
        ok == can_draw(len, uppercase, lowercase, number, symbol),
{
    let mut classes: u8 = 0;
    if uppercase {
        classes += 1;
    }
    if lowercase {
        classes += 1;
    }
    if number {
        classes += 1;
    }
    if symbol {
        classes += 1;
    }
    classes <= len && (len == 0 || classes > 0)
}

/// Draws a password of `len` characters from the classes that are switched
/// on: one character from each class, the rest from all of them together, in
/// random order.
pub fn generate_password(len: u8, uppercase: bool, lowercase: bool, number: bool, symbol: bool) -> (password:
    String)
    requires
        can_draw(len, uppercase, lowercase, number, symbol),
    ensures
        password@.len() == len,
        forall|i: int| 0 <= i < password@.len() ==> visible(#[trigger] password@[i]),
        is_password(encode_utf8(password@), len, uppercase, lowercase, number, symbol),
{
    let mut password: Vec<u8> = Vec::new();
    let mut chars: Vec<u8> = Vec::new();
    let ghost none = Seq::<u8>::empty();

    if uppercase {
        let ghost before = password@;
        let ghost pool = chars@;
        add_class(&mut chars, &mut password, &UPPER);
        proof {
            lemma_class_added(before, password@, pool, UPPER@);
            lemma_pushed(before, password@, UPPER@, none);
        }
    }
    assert(chars@ =~= alphabet(uppercase, false, false, false));
    assert(draws_on_classes(password@, uppercase, false, false, false));
    if lowercase {
        let ghost before = password@;
        let ghost pool = chars@;
        add_class(&mut chars, &mut password, &LOWER);
        proof {
            lemma_class_added(before, password@, pool, LOWER@);
            lemma_pushed(before, password@, LOWER@, UPPER@);
        }
    }
    assert(chars@ =~= alphabet(uppercase, lowercase, false, false));
    assert(draws_on_classes(password@, uppercase, lowercase, false, false));
    if number {
        let ghost before = password@;
        let ghost pool = chars@;
        add_class(&mut chars, &mut password, &NUMBER);
        proof {
            lemma_class_added(before, password@, pool, NUMBER@);
            lemma_pushed(before, password@, NUMBER@, UPPER@);
            lemma_pushed(before, password@, NUMBER@, LOWER@);
        }
    }
    assert(chars@ =~= alphabet(uppercase, lowercase, number, false));
    assert(draws_on_classes(password@, uppercase, lowercase, number, false));
    if symbol {
        let ghost before = password@;
        let ghost pool = chars@;
        add_class(&mut chars, &mut password, &SYMBOL);
        proof {
            lemma_class_added(before, password@, pool, SYMBOL@);
            lemma_pushed(before, password@, SYMBOL@, UPPER@);
            lemma_pushed(before, password@, SYMBOL@, LOWER@);
            lemma_pushed(before, password@, SYMBOL@, NUMBER@);
        }
    }
    assert(chars@ =~= alphabet(uppercase, lowercase, number, symbol));
    assert(draws_on_classes(password@, uppercase, lowercase, number, symbol));
    assert(password@.len() == class_count(uppercase, lowercase, number, symbol));

    let rest: u8 = len - password.len() as u8;
    let mut drawn: u8 = 0;
    while drawn < rest
        invariant
            drawn <= rest,
            password@.len() + (rest - drawn) == len,
            chars@ == alphabet(uppercase, lowercase, number, symbol),
            rest > 0 ==> chars@.len() > 0,
            draws_on_classes(password@, uppercase, lowercase, number, symbol),
        decreases rest - drawn,
    {
        let ghost before = password@;
        let c = pick_one(chars.as_slice()).unwrap();
        password.push(c);
        proof {
            assert(password@.drop_last() =~= before);
            lemma_pushed(before, password@, chars@, UPPER@);
            lemma_pushed(before, password@, chars@, LOWER@);
            lemma_pushed(before, password@, chars@, NUMBER@);
            lemma_pushed(before, password@, chars@, SYMBOL@);
            assert forall|i: int| 0 <= i < password@.len() implies alphabet(
                uppercase,
                lowercase,
                number,
                symbol,
            ).contains(#[trigger] password@[i]) by {
                if i < before.len() {
                    assert(password@[i] == before[i]);
                }
            }
        }
        drawn += 1;
    }
    let ghost ordered = password@;
    shuffle(&mut password);
    proof {
        lemma_reordered_is_password(ordered, password@, len, uppercase, lowercase, number, symbol);
        assert forall|i: int| 0 <= i < password@.len() implies 33 <= #[trigger] password@[i]
            < 127 by {
            lemma_alphabet_is_ascii(uppercase, lowercase, number, symbol, password@[i]);
        }
        lemma_ascii_is_utf8(password@);
    }
    let ghost bytes = password@;
    match string_from_utf8(password) {
        Ok(text) => {
            assert forall|i: int| 0 <= i < text@.len() implies visible(#[trigger] text@[i]) by {
                assert(text@[i] == bytes[i] as char);
                assert(33 <= bytes[i] < 127);
            }
            text
        },
        Err(_) => unreached(),
    }
}

/// The strength of `password` on a scale from 0 to 4, as far as it can be
/// estimated. The empty password, and no other, is refused as blank.
pub fn password_strength(password: &str) -> (res: Result<u8, GenPassError>)
    ensures
        (password@.len() == 0) <==> (res matches Err(GenPassError::BlankPassword)),
        res is Ok ==> res.unwrap() <= 4,
{
    estimate_strength(password)
}

/// Hands `password` out where its strength could be estimated, and the
/// estimator's refusal where it could not.
pub fn accept_password(password: String, estimate: Result<u8, GenPassError>) -> (res: Result<
    String,
    GenPassError,
>)
    ensures
        res == match estimate {
            Ok(_) => Ok::<String, GenPassError>(password),
            Err(e) => Err::<String, GenPassError>(e),
        },
{
    match estimate {
        Ok(_) => Ok(password),
        Err(e) => Err(e),
    }
}

/// Generates a random password of `len` characters and has its strength
/// estimated. A password comes out unless the estimator refuses; it refuses
/// the empty password, and whenever the clock fails it.
pub fn process_genpass(len: u8, uppercase: bool, lowercase: bool, number: bool, symbol: bool) -> (res:
    Result<String, GenPassError>)
    requires
        can_draw(len, uppercase, lowercase, number, symbol),
    ensures
        res is Ok ==> res.unwrap()@.len() == len && is_password(
            encode_utf8(res.unwrap()@),
            len,
            uppercase,
            lowercase,
            number,
            symbol,
        ),
        res is Ok ==> forall|i: int|
            0 <= i < res.unwrap()@.len() ==> visible(#[trigger] res.unwrap()@[i]),
        (len == 0) <==> (res matches Err(GenPassError::BlankPassword)),
{
    let password = generate_password(len, uppercase, lowercase, number, symbol);
    let estimate = estimate_strength(password.as_str());
    accept_password(password, estimate)
}

} // verus!

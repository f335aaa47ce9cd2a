//! Random passwords over four classes of printable characters. Characters
//! that are easily mistaken for one another (`I`, `O`, `l`, `0`) belong to
//! no class.

use vstd::prelude::*;
use rand::seq::{IndexedRandom, SliceRandom};
use crate::error::TextError;
use crate::plain_text::{ascii_string, ascii_text};

verus! {

/// The capital letters, without `I` and `O`.
pub const UPPER: [u8; 24] = [
    65, 66, 67, 68, 69, 70, 71, 72, 74, 75, 76, 77, 78, 80, 81, 82, 83, 84, 85, 86, 87, 88, 89, 90,
];

/// The small letters, without `l`.
pub const LOWER: [u8; 25] = [
    97, 98, 99, 100, 101, 102, 103, 104, 105, 106, 107, 109, 110, 111, 112, 113, 114, 115, 116,
    117, 118, 119, 120, 121, 122,
];

/// The digits, without `0`.
pub const NUMBER: [u8; 9] = [49, 50, 51, 52, 53, 54, 55, 56, 57];

/// The symbols `!@#$%^&*_`.
pub const SYMBOL: [u8; 9] = [33, 64, 35, 36, 37, 94, 38, 42, 95];

/// Which classes of characters a password draws from.
#[derive(Debug, Clone, Copy, PartialEq, Eq, Structural)]
pub struct CharClasses {
    pub uppercase: bool,
    pub lowercase: bool,
    pub number: bool,
    pub symbol: bool,
}

/// Whether `b` is a capital letter other than `I` and `O`.
pub open spec fn is_upper(b: u8) -> bool {
    65 <= b <= 90 && b != 73 && b != 79
}

/// Whether `b` is a small letter other than `l`.
pub open spec fn is_lower(b: u8) -> bool {
    97 <= b <= 122 && b != 108
}

/// Whether `b` is a digit other than `0`.
pub open spec fn is_number(b: u8) -> bool {
    49 <= b <= 57
}

/// Whether `b` is one of the symbols `!@#$%^&*_`.
pub open spec fn is_symbol(b: u8) -> bool {
    b == 33 || b == 64 || b == 35 || b == 36 || b == 37 || b == 94 || b == 38 || b == 42 || b
        == 95
}

impl CharClasses {
    /// All four classes.
    pub open spec fn all() -> CharClasses {
        CharClasses { uppercase: true, lowercase: true, number: true, symbol: true }
    }

    /// The classes that are left when each flag takes one out.
    pub open spec fn without(
        no_uppercase: bool,
        no_lowercase: bool,
        no_number: bool,
        no_symbol: bool,
    ) -> CharClasses {
        CharClasses {
            uppercase: !no_uppercase,
            lowercase: !no_lowercase,
            number: !no_number,
            symbol: !no_symbol,
        }
    }

    /// Whether no class is chosen.
    pub open spec fn is_empty(self) -> bool {
        !self.uppercase && !self.lowercase && !self.number && !self.symbol
    }

    /// How many classes are chosen.
    pub open spec fn count(self) -> nat {
        (if self.uppercase { 1nat } else { 0 }) + (if self.lowercase { 1nat } else { 0 }) + (
        if self.number { 1nat } else { 0 }) + (if self.symbol { 1nat } else { 0 })
    }

    /// Whether `b` belongs to one of the chosen classes.
    pub open spec fn allows(self, b: u8) -> bool {
        ||| self.uppercase && is_upper(b)
        ||| self.lowercase && is_lower(b)
        ||| self.number && is_number(b)
        ||| self.symbol && is_symbol(b)
    }
}

/// Whether `password` is one that these classes and this length admit:
/// it has the length asked for, every character belongs to a chosen class,
/// and where the length leaves room for it every chosen class occurs.
pub open spec fn admits(classes: CharClasses, length: nat, password: Seq<u8>) -> bool {
    &&& password.len() == length
    &&& forall|i: int| 0 <= i < password.len() ==> classes.allows(#[trigger] password[i])
    &&& length >= classes.count() ==> {
        &&& classes.uppercase ==> exists|i: int|
            0 <= i < password.len() && is_upper(#[trigger] password[i])
        &&& classes.lowercase ==> exists|i: int|
            0 <= i < password.len() && is_lower(#[trigger] password[i])
        &&& classes.number ==> exists|i: int|
            0 <= i < password.len() && is_number(#[trigger] password[i])
        &&& classes.symbol ==> exists|i: int|
            0 <= i < password.len() && is_symbol(#[trigger] password[i])
    }
}

/// Whether `text` is a password that these classes and this length admit,
/// written in ASCII.
pub open spec fn is_password(classes: CharClasses, length: nat, text: Seq<char>) -> bool {
    exists|bytes: Seq<u8>| admits(classes, length, bytes) && #[trigger] ascii_text(bytes) == text
}

/// Calls `IndexedRandom::choose` on the thread's secure generator.
///
/// Trusted: from a pool that is not empty the call gives one of its
/// items, and which one is left open; from an empty pool it gives nothing.
/// The generator stops the program if the operating system gives it no
/// entropy to start from.
#[verifier::external_body]
fn pick(pool: &[u8]) -> (picked: Option<u8>)
    ensures
        picked is Some <==> pool@.len() > 0,
        picked matches Some(b) ==> pool@.contains(b),
{
    pool.choose(&mut ::rand::rng()).copied()
}

/// Calls `SliceRandom::shuffle` on the thread's secure generator.
///
/// Trusted: the items are the same after the call, each as often as
/// before; their order is left open.
#[verifier::external_body]
fn mix(items: &mut Vec<u8>)
    ensures
        final(items)@.to_multiset() == old(items)@.to_multiset(),
{
    items.shuffle(&mut ::rand::rng())
}

/// Adds a class to the pool and, while the password is still short of its
/// length, one character of that class to the password.
fn draw_from(
    class: &[u8],
    pool: &mut Vec<u8>,
    password: &mut Vec<u8>,
    length: usize,
    Ghost(member): Ghost<spec_fn(u8) -> bool>,
)
    requires
        class@.len() > 0,
        forall|i: int| 0 <= i < class@.len() ==> member(#[trigger] class@[i]),
        old(password)@.len() <= length,
    ensures
        final(pool)@ == old(pool)@ + class@,
        old(password)@.len() == length ==> final(password)@ == old(password)@,
        old(password)@.len() < length ==> exists|b: u8| #[trigger]
            member(b) && final(password)@ == old(password)@.push(b),
{
    pool.extend_from_slice(class);
    if password.len() < length {
        match pick(class) {
            Some(b) => {
                assert(member(b));
                password.push(b);
            },
            None => {},
        }
    }
}

/// A password of `length` characters over the chosen classes, as bytes.
///
/// Every character is drawn at random from the chosen classes. Each chosen
/// class is drawn from once before the rest is filled, as far as the
/// length allows, and the order is shuffled at the end.
pub fn draw_password(length: usize, classes: CharClasses) -> (password: Vec<u8>)
    requires
        !classes.is_empty(),
    ensures
        admits(classes, length as nat, password@),
{
    let mut pool: Vec<u8> = Vec::new();
    let mut password: Vec<u8> = Vec::new();
    let ghost mut taken: nat = 0;
    if classes.uppercase {
        draw_from(&UPPER, &mut pool, &mut password, length, Ghost(|b: u8| is_upper(b)));
        proof {
            taken = taken + 1;
        }
    }
    let ghost after_upper = password@;
    if classes.lowercase {
        draw_from(&LOWER, &mut pool, &mut password, length, Ghost(|b: u8| is_lower(b)));
        proof {
            taken = taken + 1;
        }
    }
    let ghost after_lower = password@;
    if classes.number {
        draw_from(&NUMBER, &mut pool, &mut password, length, Ghost(|b: u8| is_number(b)));
        proof {
            taken = taken + 1;
        }
    }
    let ghost after_number = password@;
    if classes.symbol {
        draw_from(&SYMBOL, &mut pool, &mut password, length, Ghost(|b: u8| is_symbol(b)));
        proof {
            taken = taken + 1;
        }
    }
    let ghost drawn = password@;
    proof {
        assert(taken == classes.count());
        assert(forall|i: int| 0 <= i < pool@.len() ==> classes.allows(#[trigger] pool@[i]));
        assert(forall|i: int| 0 <= i < drawn.len() ==> classes.allows(#[trigger] drawn[i]));
        if length >= classes.count() {
            if classes.uppercase {
                assert(is_upper(drawn[0]));
            }
            if classes.lowercase {
                assert(is_lower(drawn[after_upper.len() as int]));
            }
            if classes.number {
                assert(is_number(drawn[after_lower.len() as int]));
            }
            if classes.symbol {
                assert(is_symbol(drawn[after_number.len() as int]));
            }
        }
    }
    while password.len() < length
        invariant
            pool@.len() > 0,
            password@.len() <= length,
            drawn.len() <= password@.len(),
            password@.take(drawn.len() as int) == drawn,
            forall|i: int| 0 <= i < pool@.len() ==> classes.allows(#[trigger] pool@[i]),
            forall|i: int| 0 <= i < password@.len() ==> classes.allows(#[trigger] password@[i]),
        decreases length - password@.len(),
    {
        let ghost before = password@;
        match pick(&pool) {
            Some(b) => {
                password.push(b);
            },
            None => {},
        }
        assert(password@.take(drawn.len() as int) =~= before.take(drawn.len() as int));
    }
    proof {
        assert(forall|i: int| 0 <= i < drawn.len() ==> password@[i] == password@.take(
            drawn.len() as int,
        )[i]);
        assert(admits(classes, length as nat, password@)) by {
            if length >= classes.count() {
                if classes.uppercase {
                    assert(is_upper(password@[0]));
                }
                if classes.lowercase {
                    assert(is_lower(password@[after_upper.len() as int]));
                }
                if classes.number {
                    assert(is_number(password@[after_lower.len() as int]));
                }
                if classes.symbol {
                    assert(is_symbol(password@[after_number.len() as int]));
                }
            }
        }
    }
    let ghost filled = password@;
    mix(&mut password);
    proof {
        lemma_admits_any_order(classes, length as nat, filled, password@);
    }
    password
}

/// A password of `length` characters over the chosen classes, as bytes;
/// or an error, where no class is chosen and so there is nothing to draw
/// from, whatever the length.
pub fn password_bytes(length: usize, classes: CharClasses) -> (r: Result<Vec<u8>, TextError>)
    ensures
        classes.is_empty() ==> r == Err::<Vec<u8>, TextError>(TextError::NoCharacterClass),
        !classes.is_empty() ==> (r matches Ok(password) && admits(
            classes,
            length as nat,
            password@,
        )),
{
    if !classes.uppercase && !classes.lowercase && !classes.number && !classes.symbol {
        Err(TextError::NoCharacterClass)
    } else {
        Ok(draw_password(length, classes))
    }
}

/// A password of `length` characters. Each flag takes one class of
/// characters out; the classes are capital letters, small letters, digits
/// and symbols.
pub fn process_genpass(
    length: u8,
    no_uppercase: bool,
    no_lowercase: bool,
    no_number: bool,
    no_symbol: bool,
) -> (r: Result<String, TextError>)
    ensures
        ({
            let classes = CharClasses::without(no_uppercase, no_lowercase, no_number, no_symbol);
            &&& classes.is_empty() ==> r == Err::<String, TextError>(TextError::NoCharacterClass)
            &&& !classes.is_empty() ==> (r matches Ok(password) && is_password(
                classes,
                length as nat,
                password@,
            ))
        }),
{
    let classes = CharClasses {
        uppercase: !no_uppercase,
        lowercase: !no_lowercase,
        number: !no_number,
        symbol: !no_symbol,
    };
    match password_bytes(length as usize, classes) {
        Ok(bytes) => {
            assert(forall|i: int| 0 <= i < bytes@.len() ==> classes.allows(#[trigger] bytes@[i]));
            let ghost drawn = bytes@;
            let password = ascii_string(bytes);
            assert(admits(classes, length as nat, drawn) && ascii_text(drawn) == password@);
            Ok(password)
        },
        Err(e) => Err(e),
    }
}

/// An item of one sequence occurs in every sequence that holds the same
/// items equally often.
proof fn lemma_same_items(a: Seq<u8>, b: Seq<u8>, item: u8)
    requires
        a.to_multiset() == b.to_multiset(),
        a.contains(item),
    ensures
        exists|j: int| 0 <= j < b.len() && #[trigger] b[j] == item,
        a.len() == b.len(),
{
    a.to_multiset_ensures();
    b.to_multiset_ensures();
    assert(a.to_multiset().count(item) > 0);
    assert(b.to_multiset().count(item) > 0);
    assert(b.contains(item));
}

/// What makes a password admissible does not depend on the order of its
/// characters.
pub proof fn lemma_admits_any_order(
    classes: CharClasses,
    length: nat,
    password: Seq<u8>,
    shuffled: Seq<u8>,
)
    requires
        admits(classes, length, password),
        password.to_multiset() == shuffled.to_multiset(),
    ensures
        admits(classes, length, shuffled),
{
    assert(password.len() == shuffled.len()) by {
        password.to_multiset_ensures();
        shuffled.to_multiset_ensures();
    }
    assert forall|i: int| 0 <= i < shuffled.len() implies classes.allows(
        #[trigger] shuffled[i],
    ) by {
        lemma_same_items(shuffled, password, shuffled[i]);
    }
    if length >= classes.count() {
        if classes.uppercase {
            let i = choose|i: int| 0 <= i < password.len() && is_upper(#[trigger] password[i]);
            lemma_same_items(password, shuffled, password[i]);
        }
        if classes.lowercase {
            let i = choose|i: int| 0 <= i < password.len() && is_lower(#[trigger] password[i]);
            lemma_same_items(password, shuffled, password[i]);
        }
        if classes.number {
            let i = choose|i: int| 0 <= i < password.len() && is_number(#[trigger] password[i]);
            lemma_same_items(password, shuffled, password[i]);
        }
        if classes.symbol {
            let i = choose|i: int| 0 <= i < password.len() && is_symbol(#[trigger] password[i]);
            lemma_same_items(password, shuffled, password[i]);
        }
    }
}

} // verus!

use vstd::prelude::*;
use crate::device::{InputError, InputEvent};
use crate::text::{spells, spells_word};

verus! {

/// A key of the virtual keyboard.
#[derive(Debug, Clone, Copy, PartialEq, Eq, Structural)]
pub enum Key {
    LeftControl,
    LeftAlt,
    LeftShift,
    LeftMeta,
    Num0,
    Num1,
    Num2,
    Num3,
    Num4,
    Num5,
    Num6,
    Num7,
    Num8,
    Num9,
    Dot,
    Comma,
    Space,
    A,
    B,
    C,
    D,
    E,
    F,
    G,
    H,
    I,
    J,
    K,
    L,
    M,
    N,
    O,
    P,
    Q,
    R,
    S,
    T,
    U,
    V,
    W,
    X,
    Y,
    Z,
    F1,
    F2,
    F3,
    F4,
    F5,
    F6,
    F7,
    F8,
    F9,
    F10,
    F11,
    F12,
    Tab,
    Enter,
    Esc,
    BackSpace,
    Delete,
    Home,
    End,
    PageUp,
    PageDown,
    Insert,
    SemiColon,
    Minus,
    Slash,
}

/// The key that a lowercase key name (or one of its aliases) denotes,
/// ignoring ASCII case.
pub open spec fn key_named(t: Seq<char>) -> Option<Key> {
    if spells(t, seq!['c', 't', 'r', 'l']) || spells(t, seq!['c', 'o', 'n', 't', 'r', 'o', 'l']) {
        Some(Key::LeftControl)
    } else     if spells(t, seq!['a', 'l', 't']) {
        Some(Key::LeftAlt)
    } else     if spells(t, seq!['s', 'h', 'i', 'f', 't']) {
        Some(Key::LeftShift)
    } else     if spells(t, seq!['m', 'e', 't', 'a']) || spells(t, seq!['w', 'i', 'n']) || spells(t, seq!['s', 'u', 'p', 'e', 'r']) {
        Some(Key::LeftMeta)
    } else     if spells(t, seq!['0']) {
        Some(Key::Num0)
    } else     if spells(t, seq!['1']) {
        Some(Key::Num1)
    } else     if spells(t, seq!['2']) {
        Some(Key::Num2)
    } else     if spells(t, seq!['3']) {
        Some(Key::Num3)
    } else     if spells(t, seq!['4']) {
        Some(Key::Num4)
    } else     if spells(t, seq!['5']) {
        Some(Key::Num5)
    } else     if spells(t, seq!['6']) {
        Some(Key::Num6)
    } else     if spells(t, seq!['7']) {
        Some(Key::Num7)
    } else     if spells(t, seq!['8']) {
        Some(Key::Num8)
    } else     if spells(t, seq!['9']) {
        Some(Key::Num9)
    } else     if spells(t, seq!['.']) {
        Some(Key::Dot)
    } else     if spells(t, seq![',']) {
        Some(Key::Comma)
    } else     if spells(t, seq![' ']) {
        Some(Key::Space)
    } else     if spells(t, seq!['a']) {
        Some(Key::A)
    } else     if spells(t, seq!['b']) {
        Some(Key::B)
    } else     if spells(t, seq!['c']) {
        Some(Key::C)
    } else     if spells(t, seq!['d']) {
        Some(Key::D)
    } else     if spells(t, seq!['e']) {
        Some(Key::E)
    } else     if spells(t, seq!['f']) {
        Some(Key::F)
    } else     if spells(t, seq!['g']) {
        Some(Key::G)
    } else     if spells(t, seq!['h']) {
        Some(Key::H)
    } else     if spells(t, seq!['i']) {
        Some(Key::I)
    } else     if spells(t, seq!['j']) {
        Some(Key::J)
    } else     if spells(t, seq!['k']) {
        Some(Key::K)
    } else     if spells(t, seq!['l']) {
        Some(Key::L)
    } else     if spells(t, seq!['m']) {
        Some(Key::M)
    } else     if spells(t, seq!['n']) {
        Some(Key::N)
    } else     if spells(t, seq!['o']) {
        Some(Key::O)
    } else     if spells(t, seq!['p']) {
        Some(Key::P)
    } else     if spells(t, seq!['q']) {
        Some(Key::Q)
    } else     if spells(t, seq!['r']) {
        Some(Key::R)
    } else     if spells(t, seq!['s']) {
        Some(Key::S)
    } else     if spells(t, seq!['t']) {
        Some(Key::T)
    } else     if spells(t, seq!['u']) {
        Some(Key::U)
    } else     if spells(t, seq!['v']) {
        Some(Key::V)
    } else     if spells(t, seq!['w']) {
        Some(Key::W)
    } else     if spells(t, seq!['x']) {
        Some(Key::X)
    } else     if spells(t, seq!['y']) {
        Some(Key::Y)
    } else     if spells(t, seq!['z']) {
        Some(Key::Z)
    } else     if spells(t, seq!['f', '1']) {
        Some(Key::F1)
    } else     if spells(t, seq!['f', '2']) {
        Some(Key::F2)
    } else     if spells(t, seq!['f', '3']) {
        Some(Key::F3)
    } else     if spells(t, seq!['f', '4']) {
        Some(Key::F4)
    } else     if spells(t, seq!['f', '5']) {
        Some(Key::F5)
    } else     if spells(t, seq!['f', '6']) {
        Some(Key::F6)
    } else     if spells(t, seq!['f', '7']) {
        Some(Key::F7)
    } else     if spells(t, seq!['f', '8']) {
        Some(Key::F8)
    } else     if spells(t, seq!['f', '9']) {
        Some(Key::F9)
    } else     if spells(t, seq!['f', '1', '0']) {
        Some(Key::F10)
    } else     if spells(t, seq!['f', '1', '1']) {
        Some(Key::F11)
    } else     if spells(t, seq!['f', '1', '2']) {
        Some(Key::F12)
    } else     if spells(t, seq!['t', 'a', 'b']) {
        Some(Key::Tab)
    } else     if spells(t, seq!['e', 'n', 't', 'e', 'r']) || spells(t, seq!['r', 'e', 't', 'u', 'r', 'n']) {
        Some(Key::Enter)
    } else     if spells(t, seq!['e', 's', 'c', 'a', 'p', 'e']) || spells(t, seq!['e', 's', 'c']) {
        Some(Key::Esc)
    } else     if spells(t, seq!['b', 'a', 'c', 'k', 's', 'p', 'a', 'c', 'e']) {
        Some(Key::BackSpace)
    } else     if spells(t, seq!['d', 'e', 'l', 'e', 't', 'e']) || spells(t, seq!['d', 'e', 'l']) {
        Some(Key::Delete)
    } else     if spells(t, seq!['h', 'o', 'm', 'e']) {
        Some(Key::Home)
    } else     if spells(t, seq!['e', 'n', 'd']) {
        Some(Key::End)
    } else     if spells(t, seq!['p', 'a', 'g', 'e', 'u', 'p']) {
        Some(Key::PageUp)
    } else     if spells(t, seq!['p', 'a', 'g', 'e', 'd', 'o', 'w', 'n']) {
        Some(Key::PageDown)
    } else     if spells(t, seq!['i', 'n', 's', 'e', 'r', 't']) {
        Some(Key::Insert)
    } else {
        None
    }
}

/// The letter key for an ASCII letter of either case.
pub open spec fn letter_key(c: char) -> Option<Key> {
    if c == 'a' || c == 'A' {
        Some(Key::A)
    } else     if c == 'b' || c == 'B' {
        Some(Key::B)
    } else     if c == 'c' || c == 'C' {
        Some(Key::C)
    } else     if c == 'd' || c == 'D' {
        Some(Key::D)
    } else     if c == 'e' || c == 'E' {
        Some(Key::E)
    } else     if c == 'f' || c == 'F' {
        Some(Key::F)
    } else     if c == 'g' || c == 'G' {
        Some(Key::G)
    } else     if c == 'h' || c == 'H' {
        Some(Key::H)
    } else     if c == 'i' || c == 'I' {
        Some(Key::I)
    } else     if c == 'j' || c == 'J' {
        Some(Key::J)
    } else     if c == 'k' || c == 'K' {
        Some(Key::K)
    } else     if c == 'l' || c == 'L' {
        Some(Key::L)
    } else     if c == 'm' || c == 'M' {
        Some(Key::M)
    } else     if c == 'n' || c == 'N' {
        Some(Key::N)
    } else     if c == 'o' || c == 'O' {
        Some(Key::O)
    } else     if c == 'p' || c == 'P' {
        Some(Key::P)
    } else     if c == 'q' || c == 'Q' {
        Some(Key::Q)
    } else     if c == 'r' || c == 'R' {
        Some(Key::R)
    } else     if c == 's' || c == 'S' {
        Some(Key::S)
    } else     if c == 't' || c == 'T' {
        Some(Key::T)
    } else     if c == 'u' || c == 'U' {
        Some(Key::U)
    } else     if c == 'v' || c == 'V' {
        Some(Key::V)
    } else     if c == 'w' || c == 'W' {
        Some(Key::W)
    } else     if c == 'x' || c == 'X' {
        Some(Key::X)
    } else     if c == 'y' || c == 'Y' {
        Some(Key::Y)
    } else     if c == 'z' || c == 'Z' {
        Some(Key::Z)
    } else {
        None
    }
}

/// The keys that type a character that is not a letter.
pub open spec fn symbol_keys(c: char) -> Seq<Key> {
    if c == '0' {
        seq![Key::Num0]
    } else     if c == '1' {
        seq![Key::Num1]
    } else     if c == '2' {
        seq![Key::Num2]
    } else     if c == '3' {
        seq![Key::Num3]
    } else     if c == '4' {
        seq![Key::Num4]
    } else     if c == '5' {
        seq![Key::Num5]
    } else     if c == '6' {
        seq![Key::Num6]
    } else     if c == '7' {
        seq![Key::Num7]
    } else     if c == '8' {
        seq![Key::Num8]
    } else     if c == '9' {
        seq![Key::Num9]
    } else     if c == ' ' {
        seq![Key::Space]
    } else     if c == '.' {
        seq![Key::Dot]
    } else     if c == ';' {
        seq![Key::SemiColon]
    } else     if c == '-' {
        seq![Key::Minus]
    } else     if c == ',' {
        seq![Key::Comma]
    } else     if c == '/' {
        seq![Key::Slash]
    } else     if c == '\n' {
        seq![Key::Enter]
    } else     if c == ':' {
        seq![Key::LeftShift, Key::SemiColon]
    } else     if c == '_' {
        seq![Key::LeftShift, Key::Minus]
    } else     if c == '?' {
        seq![Key::LeftShift, Key::Slash]
    } else {
        seq![]
    }
}

/// The keys that type `c`, an implied Shift first; empty when `c` cannot be typed.
pub open spec fn char_keys(c: char) -> Seq<Key> {
    match letter_key(c) {
        Some(k) => if 'A' <= c && c <= 'Z' {
            seq![Key::LeftShift, k]
        } else {
            seq![k]
        },
        None => symbol_keys(c),
    }
}

/// The key that the token `t` names, if any.
pub fn key_for_token(t: &[char]) -> (r: Option<Key>)
    ensures
        r == key_named(t@),
{
    if spells_word(t, &['c', 't', 'r', 'l']) || spells_word(t, &['c', 'o', 'n', 't', 'r', 'o', 'l']) {
        Some(Key::LeftControl)
    } else     if spells_word(t, &['a', 'l', 't']) {
        Some(Key::LeftAlt)
    } else     if spells_word(t, &['s', 'h', 'i', 'f', 't']) {
        Some(Key::LeftShift)
    } else     if spells_word(t, &['m', 'e', 't', 'a']) || spells_word(t, &['w', 'i', 'n']) || spells_word(t, &['s', 'u', 'p', 'e', 'r']) {
        Some(Key::LeftMeta)
    } else     if spells_word(t, &['0']) {
        Some(Key::Num0)
    } else     if spells_word(t, &['1']) {
        Some(Key::Num1)
    } else     if spells_word(t, &['2']) {
        Some(Key::Num2)
    } else     if spells_word(t, &['3']) {
        Some(Key::Num3)
    } else     if spells_word(t, &['4']) {
        Some(Key::Num4)
    } else     if spells_word(t, &['5']) {
        Some(Key::Num5)
    } else     if spells_word(t, &['6']) {
        Some(Key::Num6)
    } else     if spells_word(t, &['7']) {
        Some(Key::Num7)
    } else     if spells_word(t, &['8']) {
        Some(Key::Num8)
    } else     if spells_word(t, &['9']) {
        Some(Key::Num9)
    } else     if spells_word(t, &['.']) {
        Some(Key::Dot)
    } else     if spells_word(t, &[',']) {
        Some(Key::Comma)
    } else     if spells_word(t, &[' ']) {
        Some(Key::Space)
    } else     if spells_word(t, &['a']) {
        Some(Key::A)
    } else     if spells_word(t, &['b']) {
        Some(Key::B)
    } else     if spells_word(t, &['c']) {
        Some(Key::C)
    } else     if spells_word(t, &['d']) {
        Some(Key::D)
    } else     if spells_word(t, &['e']) {
        Some(Key::E)
    } else     if spells_word(t, &['f']) {
        Some(Key::F)
    } else     if spells_word(t, &['g']) {
        Some(Key::G)
    } else     if spells_word(t, &['h']) {
        Some(Key::H)
    } else     if spells_word(t, &['i']) {
        Some(Key::I)
    } else     if spells_word(t, &['j']) {
        Some(Key::J)
    } else     if spells_word(t, &['k']) {
        Some(Key::K)
    } else     if spells_word(t, &['l']) {
        Some(Key::L)
    } else     if spells_word(t, &['m']) {
        Some(Key::M)
    } else     if spells_word(t, &['n']) {
        Some(Key::N)
    } else     if spells_word(t, &['o']) {
        Some(Key::O)
    } else     if spells_word(t, &['p']) {
        Some(Key::P)
    } else     if spells_word(t, &['q']) {
        Some(Key::Q)
    } else     if spells_word(t, &['r']) {
        Some(Key::R)
    } else     if spells_word(t, &['s']) {
        Some(Key::S)
    } else     if spells_word(t, &['t']) {
        Some(Key::T)
    } else     if spells_word(t, &['u']) {
        Some(Key::U)
    } else     if spells_word(t, &['v']) {
        Some(Key::V)
    } else     if spells_word(t, &['w']) {
        Some(Key::W)
    } else     if spells_word(t, &['x']) {
        Some(Key::X)
    } else     if spells_word(t, &['y']) {
        Some(Key::Y)
    } else     if spells_word(t, &['z']) {
        Some(Key::Z)
    } else     if spells_word(t, &['f', '1']) {
        Some(Key::F1)
    } else     if spells_word(t, &['f', '2']) {
        Some(Key::F2)
    } else     if spells_word(t, &['f', '3']) {
        Some(Key::F3)
    } else     if spells_word(t, &['f', '4']) {
        Some(Key::F4)
    } else     if spells_word(t, &['f', '5']) {
        Some(Key::F5)
    } else     if spells_word(t, &['f', '6']) {
        Some(Key::F6)
    } else     if spells_word(t, &['f', '7']) {
        Some(Key::F7)
    } else     if spells_word(t, &['f', '8']) {
        Some(Key::F8)
    } else     if spells_word(t, &['f', '9']) {
        Some(Key::F9)
    } else     if spells_word(t, &['f', '1', '0']) {
        Some(Key::F10)
    } else     if spells_word(t, &['f', '1', '1']) {
        Some(Key::F11)
    } else     if spells_word(t, &['f', '1', '2']) {
        Some(Key::F12)
    } else     if spells_word(t, &['t', 'a', 'b']) {
        Some(Key::Tab)
    } else     if spells_word(t, &['e', 'n', 't', 'e', 'r']) || spells_word(t, &['r', 'e', 't', 'u', 'r', 'n']) {
        Some(Key::Enter)
    } else     if spells_word(t, &['e', 's', 'c', 'a', 'p', 'e']) || spells_word(t, &['e', 's', 'c']) {
        Some(Key::Esc)
    } else     if spells_word(t, &['b', 'a', 'c', 'k', 's', 'p', 'a', 'c', 'e']) {
        Some(Key::BackSpace)
    } else     if spells_word(t, &['d', 'e', 'l', 'e', 't', 'e']) || spells_word(t, &['d', 'e', 'l']) {
        Some(Key::Delete)
    } else     if spells_word(t, &['h', 'o', 'm', 'e']) {
        Some(Key::Home)
    } else     if spells_word(t, &['e', 'n', 'd']) {
        Some(Key::End)
    } else     if spells_word(t, &['p', 'a', 'g', 'e', 'u', 'p']) {
        Some(Key::PageUp)
    } else     if spells_word(t, &['p', 'a', 'g', 'e', 'd', 'o', 'w', 'n']) {
        Some(Key::PageDown)
    } else     if spells_word(t, &['i', 'n', 's', 'e', 'r', 't']) {
        Some(Key::Insert)
    } else {
        None
    }
}

fn letter_for_char(c: char) -> (r: Option<Key>)
    ensures
        r == letter_key(c),
{
    if c == 'a' || c == 'A' {
        Some(Key::A)
    } else     if c == 'b' || c == 'B' {
        Some(Key::B)
    } else     if c == 'c' || c == 'C' {
        Some(Key::C)
    } else     if c == 'd' || c == 'D' {
        Some(Key::D)
    } else     if c == 'e' || c == 'E' {
        Some(Key::E)
    } else     if c == 'f' || c == 'F' {
        Some(Key::F)
    } else     if c == 'g' || c == 'G' {
        Some(Key::G)
    } else     if c == 'h' || c == 'H' {
        Some(Key::H)
    } else     if c == 'i' || c == 'I' {
        Some(Key::I)
    } else     if c == 'j' || c == 'J' {
        Some(Key::J)
    } else     if c == 'k' || c == 'K' {
        Some(Key::K)
    } else     if c == 'l' || c == 'L' {
        Some(Key::L)
    } else     if c == 'm' || c == 'M' {
        Some(Key::M)
    } else     if c == 'n' || c == 'N' {
        Some(Key::N)
    } else     if c == 'o' || c == 'O' {
        Some(Key::O)
    } else     if c == 'p' || c == 'P' {
        Some(Key::P)
    } else     if c == 'q' || c == 'Q' {
        Some(Key::Q)
    } else     if c == 'r' || c == 'R' {
        Some(Key::R)
    } else     if c == 's' || c == 'S' {
        Some(Key::S)
    } else     if c == 't' || c == 'T' {
        Some(Key::T)
    } else     if c == 'u' || c == 'U' {
        Some(Key::U)
    } else     if c == 'v' || c == 'V' {
        Some(Key::V)
    } else     if c == 'w' || c == 'W' {
        Some(Key::W)
    } else     if c == 'x' || c == 'X' {
        Some(Key::X)
    } else     if c == 'y' || c == 'Y' {
        Some(Key::Y)
    } else     if c == 'z' || c == 'Z' {
        Some(Key::Z)
    } else {
        None
    }
}

/// The keys that type `c`: an implied Shift for uppercase letters and
/// shifted punctuation, then the main key. Empty when `c` has no mapping.
pub fn char_to_keys(c: char) -> (r: Vec<Key>)
    ensures
        r@ == char_keys(c),
{
    let mut keys: Vec<Key> = Vec::new();
    match letter_for_char(c) {
        Some(k) => {
            if 'A' <= c && c <= 'Z' {
                keys.push(Key::LeftShift);
            }
            keys.push(k);
        },
        None => {
            if c == '0' {
                keys.push(Key::Num0);
            } else     if c == '1' {
                keys.push(Key::Num1);
            } else     if c == '2' {
                keys.push(Key::Num2);
            } else     if c == '3' {
                keys.push(Key::Num3);
            } else     if c == '4' {
                keys.push(Key::Num4);
            } else     if c == '5' {
                keys.push(Key::Num5);
            } else     if c == '6' {
                keys.push(Key::Num6);
            } else     if c == '7' {
                keys.push(Key::Num7);
            } else     if c == '8' {
                keys.push(Key::Num8);
            } else     if c == '9' {
                keys.push(Key::Num9);
            } else     if c == ' ' {
                keys.push(Key::Space);
            } else     if c == '.' {
                keys.push(Key::Dot);
            } else     if c == ';' {
                keys.push(Key::SemiColon);
            } else     if c == '-' {
                keys.push(Key::Minus);
            } else     if c == ',' {
                keys.push(Key::Comma);
            } else     if c == '/' {
                keys.push(Key::Slash);
            } else     if c == '\n' {
                keys.push(Key::Enter);
            } else     if c == ':' {
                keys.push(Key::LeftShift);
                keys.push(Key::SemiColon);
            } else     if c == '_' {
                keys.push(Key::LeftShift);
                keys.push(Key::Minus);
            } else     if c == '?' {
                keys.push(Key::LeftShift);
                keys.push(Key::Slash);
            } else {
            }
        },
    }
    proof {
        assert(keys@ =~= char_keys(c));
    }
    keys
}

/// How long a key press holds its keys, and the pause after each typed
/// character, in microseconds.
pub const KEY_PRESS_US: u64 = 50_000;

/// The tokens of a combination string, split at each `+`.
pub open spec fn split_plus(s: Seq<char>) -> Seq<Seq<char>>
    decreases s.len(),
{
    if s.len() == 0 {
        seq![Seq::empty()]
    } else {
        let ts = split_plus(s.drop_last());
        if s.last() == '+' {
            ts.push(Seq::empty())
        } else {
            ts.update(ts.len() - 1, ts.last().push(s.last()))
        }
    }
}

pub open spec fn known(t: Seq<char>) -> bool {
    key_named(t) is Some
}

/// Every token names a key.
pub open spec fn all_known(ts: Seq<Seq<char>>) -> bool {
    forall|j: int| 0 <= j < ts.len() ==> known(#[trigger] ts[j])
}

/// The keys that the tokens name, in token order.
pub open spec fn keys_of(ts: Seq<Seq<char>>) -> Seq<Key> {
    ts.map_values(|t: Seq<char>| key_named(t)->Some_0)
}

/// `name` is the first token that names no key.
pub open spec fn first_unknown_is(ts: Seq<Seq<char>>, name: Seq<char>) -> bool {
    exists|j: int|
        0 <= j < ts.len() && !known(#[trigger] ts[j]) && ts[j] == name && forall|i: int|
            0 <= i < j ==> known(#[trigger] ts[i])
}

/// An ordered sequence of keys, pressed in order and released in reverse.
#[derive(Debug, PartialEq, Eq)]
pub struct KeyCombination {
    pub keys: Vec<Key>,
}

/// Parses a `+`-separated, case-insensitive key combination such as
/// `"ctrl+alt+delete"`. Any token that names no key fails the whole
/// combination with `UnknownKey`, naming the first such token.
pub fn parse_key_combination(combination: &str) -> (r: Result<KeyCombination, InputError>)
    ensures
        match r {
            Ok(kc) => all_known(split_plus(combination@)) && kc.keys@ == keys_of(
                split_plus(combination@),
            ),
            Err(e) => match e {
                InputError::UnknownKey(name) => first_unknown_is(split_plus(combination@), name@),
                _ => false,
            },
        },
{
    let ghost s = combination@;
    let n = combination.unicode_len();
    let mut keys: Vec<Key> = Vec::new();
    let mut cur: Vec<char> = Vec::new();
    let mut start: usize = 0;
    let mut bad: Option<(usize, usize)> = None;
    let ghost mut done: Seq<Seq<char>> = Seq::empty();
    let ghost mut bad_at: int = 0;
    let mut i: usize = 0;
    proof {
        assert(s.subrange(0, 0) =~= Seq::<char>::empty());
        assert(cur@ =~= s.subrange(0, 0));
    }
    while i < n
        invariant
            n == s.len(),
            s == combination@,
            start <= i <= n,
            split_plus(s.subrange(0, i as int)) == done.push(cur@),
            cur@ == s.subrange(start as int, i as int),
            bad is None ==> all_known(done) && keys@ == keys_of(done),
            bad matches Some((a, b)) ==> a <= b <= n && 0 <= bad_at < done.len() && !known(
                done[bad_at],
            ) && done[bad_at] == s.subrange(a as int, b as int) && forall|k: int|
                0 <= k < bad_at ==> known(#[trigger] done[k]),
        decreases n - i,
    {
        let c = combination.get_char(i);
        proof {
            assert(s.subrange(0, i + 1).drop_last() =~= s.subrange(0, i as int));
        }
        if c == '+' {
            let ghost old_done = done;
            proof {
                done = done.push(cur@);
            }
            if bad.is_none() {
                match key_for_token(cur.as_slice()) {
                    Some(k) => {
                        keys.push(k);
                        proof {
                            assert(keys_of(done) =~= keys_of(old_done).push(k));
                        }
                    },
                    None => {
                        bad = Some((start, i));
                        proof {
                            bad_at = old_done.len() as int;
                        }
                    },
                }
            }
            proof {
                assert forall|k: int| 0 <= k < done.len() - 1 implies done[k] == old_done[k] by {}
            }
            cur = Vec::new();
            start = i + 1;
            proof {
                assert(cur@ =~= s.subrange(start as int, i + 1));
            }
        } else {
            let ghost prev = cur@;
            cur.push(c);
            proof {
                assert(cur@ =~= s.subrange(start as int, i + 1));
                assert(done.push(prev).update(done.len() as int, cur@) =~= done.push(cur@));
            }
        }
        i = i + 1;
    }
    proof {
        assert(s.subrange(0, n as int) =~= s);
    }
    let ghost tokens = done.push(cur@);
    if bad.is_none() {
        match key_for_token(cur.as_slice()) {
            Some(k) => {
                keys.push(k);
                proof {
                    assert(keys_of(tokens) =~= keys_of(done).push(k));
                    assert forall|j: int| 0 <= j < tokens.len() implies known(#[trigger] tokens[j]) by {
                        if j < done.len() {
                            assert(tokens[j] == done[j]);
                        }
                    }
                }
                return Ok(KeyCombination { keys });
            },
            None => {
                bad = Some((start, n));
                proof {
                    bad_at = done.len() as int;
                }
            },
        }
    }
    match bad {
        Some((a, b)) => {
            let name = String::from_str(combination.substring_char(a, b));
            proof {
                assert(tokens[bad_at] == done.push(cur@)[bad_at]);
                assert forall|k: int| 0 <= k < bad_at implies known(#[trigger] tokens[k]) by {
                    assert(tokens[k] == done[k]);
                }
            }
            Err(InputError::UnknownKey(name))
        },
        None => {
            proof {
                assert(false);
            }
            Err(InputError::UnknownKey(String::new()))
        },
    }
}

/// Key-down events for `keys`, in order.
pub open spec fn presses(keys: Seq<Key>) -> Seq<InputEvent> {
    keys.map_values(|k: Key| InputEvent::KeyDown(k))
}

/// Key-up events for `keys`, in reverse order.
pub open spec fn releases(keys: Seq<Key>) -> Seq<InputEvent> {
    keys.reverse().map_values(|k: Key| InputEvent::KeyUp(k))
}

/// Press every key in order, hold, release in reverse order.
pub open spec fn chord(keys: Seq<Key>, hold_us: u64) -> Seq<InputEvent> {
    presses(keys) + seq![InputEvent::Pause(hold_us)] + releases(keys)
}

/// The events that type one character: its chord and a pause, or nothing
/// when the character has no mapping.
pub open spec fn typed(c: char) -> Seq<InputEvent> {
    let ks = char_keys(c);
    if ks.len() == 0 {
        Seq::empty()
    } else {
        chord(ks, KEY_PRESS_US) + seq![InputEvent::Pause(KEY_PRESS_US)]
    }
}

/// The events that type `text`, character by character.
pub open spec fn typing(text: Seq<char>) -> Seq<InputEvent>
    decreases text.len(),
{
    if text.len() == 0 {
        Seq::empty()
    } else {
        typing(text.drop_last()) + typed(text.last())
    }
}

/// The events that press `keys` in order, hold them for `hold_us`
/// microseconds, and release them in reverse order.
pub fn chord_events(keys: &Vec<Key>, hold_us: u64) -> (r: Vec<InputEvent>)
    ensures
        r@ == chord(keys@, hold_us),
{
    let mut r: Vec<InputEvent> = Vec::new();
    let n = keys.len();
    let mut i: usize = 0;
    while i < n
        invariant
            n == keys@.len(),
            i <= n,
            r@ =~= presses(keys@.subrange(0, i as int)),
        decreases n - i,
    {
        r.push(InputEvent::KeyDown(keys[i]));
        proof {
            assert(presses(keys@.subrange(0, i + 1)) =~= presses(keys@.subrange(0, i as int)).push(
                InputEvent::KeyDown(keys@[i as int]),
            ));
        }
        i = i + 1;
    }
    proof {
        assert(keys@.subrange(0, n as int) =~= keys@);
    }
    r.push(InputEvent::Pause(hold_us));
    let ghost head = r@;
    let mut j: usize = n;
    while j > 0
        invariant
            n == keys@.len(),
            j <= n,
            head == presses(keys@) + seq![InputEvent::Pause(hold_us)],
            r@ =~= head + releases(keys@).subrange(0, (n - j) as int),
        decreases j,
    {
        j = j - 1;
        r.push(InputEvent::KeyUp(keys[j]));
        proof {
            assert(releases(keys@).subrange(0, (n - j) as int) =~= releases(keys@).subrange(
                0,
                (n - j - 1) as int,
            ).push(InputEvent::KeyUp(keys@[j as int])));
        }
    }
    proof {
        assert(releases(keys@).subrange(0, n as int) =~= releases(keys@));
    }
    r
}

/// The events of a key press: the combination's keys pressed in order,
/// held briefly, and released in reverse order.
pub fn press_key_events(combination: &str) -> (r: Result<Vec<InputEvent>, InputError>)
    ensures
        match r {
            Ok(evs) => all_known(split_plus(combination@)) && evs@ == chord(
                keys_of(split_plus(combination@)),
                KEY_PRESS_US,
            ),
            Err(e) => match e {
                InputError::UnknownKey(name) => first_unknown_is(split_plus(combination@), name@),
                _ => false,
            },
        },
{
    match parse_key_combination(combination) {
        Ok(kc) => Ok(chord_events(&kc.keys, KEY_PRESS_US)),
        Err(e) => Err(e),
    }
}

/// The events of holding a combination for `hold_us` microseconds.
pub fn hold_key_events(combination: &str, hold_us: u64) -> (r: Result<Vec<InputEvent>, InputError>)
    ensures
        match r {
            Ok(evs) => all_known(split_plus(combination@)) && evs@ == chord(
                keys_of(split_plus(combination@)),
                hold_us,
            ),
            Err(e) => match e {
                InputError::UnknownKey(name) => first_unknown_is(split_plus(combination@), name@),
                _ => false,
            },
        },
{
    match parse_key_combination(combination) {
        Ok(kc) => Ok(chord_events(&kc.keys, hold_us)),
        Err(e) => Err(e),
    }
}

/// The events that type `text`. Characters without a mapping are skipped.
pub fn type_text_events(text: &str) -> (r: Vec<InputEvent>)
    ensures
        r@ == typing(text@),
{
    let n = text.unicode_len();
    let mut r: Vec<InputEvent> = Vec::new();
    let mut i: usize = 0;
    proof {
        assert(text@.subrange(0, 0) =~= Seq::<char>::empty());
    }
    while i < n
        invariant
            n == text@.len(),
            i <= n,
            r@ == typing(text@.subrange(0, i as int)),
        decreases n - i,
    {
        let c = text.get_char(i);
        let keys = char_to_keys(c);
        proof {
            assert(text@.subrange(0, i + 1).drop_last() =~= text@.subrange(0, i as int));
        }
        if keys.len() > 0 {
            let mut evs = chord_events(&keys, KEY_PRESS_US);
            evs.push(InputEvent::Pause(KEY_PRESS_US));
            r.append(&mut evs);
        }
        proof {
            assert(r@ =~= typing(text@.subrange(0, i + 1)));
        }
        i = i + 1;
    }
    proof {
        assert(text@.subrange(0, n as int) =~= text@);
    }
    r
}

/// A key chord presses its keys in the given order and releases them in
/// exactly the reverse order, with the hold in between.
pub proof fn lemma_chord_order(keys: Seq<Key>, hold_us: u64)
    ensures
        chord(keys, hold_us).len() == 2 * keys.len() + 1,
        forall|i: int|
            0 <= i < keys.len() ==> #[trigger] chord(keys, hold_us)[i] == InputEvent::KeyDown(keys[i]),
        chord(keys, hold_us)[keys.len() as int] == InputEvent::Pause(hold_us),
        forall|i: int|
            0 <= i < keys.len() ==> #[trigger] chord(keys, hold_us)[keys.len() + 1 + i]
                == InputEvent::KeyUp(keys[keys.len() - 1 - i]),
{
}

/// Every key combination is pressed in token order and released in the
/// reverse of that order.
pub proof fn lemma_combination_order(combination: Seq<char>, hold_us: u64)
    requires
        all_known(split_plus(combination)),
    ensures
        ({
            let keys = keys_of(split_plus(combination));
            let evs = chord(keys, hold_us);
            &&& keys.len() == split_plus(combination).len()
            &&& forall|i: int|
                0 <= i < keys.len() ==> #[trigger] key_named(split_plus(combination)[i]) == Some(
                    keys[i],
                )
            &&& forall|i: int| 0 <= i < keys.len() ==> #[trigger] evs[i] == InputEvent::KeyDown(keys[i])
            &&& forall|i: int|
                0 <= i < keys.len() ==> #[trigger] evs[keys.len() + 1 + i] == InputEvent::KeyUp(
                    keys[keys.len() - 1 - i],
                )
        }),
{
    let ts = split_plus(combination);
    let keys = keys_of(ts);
    assert forall|i: int| 0 <= i < keys.len() implies #[trigger] key_named(ts[i]) == Some(keys[i]) by {
        assert(known(ts[i]));
    }
    lemma_chord_order(keys, hold_us);
}

/// A mapped character types as its modifiers pressed in order, the main key
/// pressed, a hold, the main key released, the modifiers released in reverse
/// order, and a pause.
pub proof fn lemma_typed_char(c: char)
    requires
        char_keys(c).len() > 0,
    ensures
        ({
            let ks = char_keys(c);
            let mods = ks.drop_last();
            typed(c) == presses(mods) + seq![
                InputEvent::KeyDown(ks.last()),
                InputEvent::Pause(KEY_PRESS_US),
                InputEvent::KeyUp(ks.last()),
            ] + releases(mods) + seq![InputEvent::Pause(KEY_PRESS_US)]
        }),
{
    let ks = char_keys(c);
    let mods = ks.drop_last();
    assert(presses(ks) =~= presses(mods).push(InputEvent::KeyDown(ks.last())));
    assert(releases(ks) =~= seq![InputEvent::KeyUp(ks.last())] + releases(mods));
    assert(typed(c) =~= presses(mods) + seq![
        InputEvent::KeyDown(ks.last()),
        InputEvent::Pause(KEY_PRESS_US),
        InputEvent::KeyUp(ks.last()),
    ] + releases(mods) + seq![InputEvent::Pause(KEY_PRESS_US)]);
}

/// Typing two texts one after the other emits the events of each in turn.
pub proof fn lemma_typing_concat(a: Seq<char>, b: Seq<char>)
    ensures
        typing(a + b) == typing(a) + typing(b),
    decreases b.len(),
{
    if b.len() == 0 {
        assert(a + b =~= a);
        assert(typing(a) + typing(b) =~= typing(a));
    } else {
        assert((a + b).drop_last() =~= a + b.drop_last());
        lemma_typing_concat(a, b.drop_last());
        assert(typing(a + b) =~= typing(a) + typing(b));
    }
}

/// A character without a mapping emits nothing and does not stop the rest
/// of the text from being typed.
pub proof fn lemma_unmapped_skipped(a: Seq<char>, c: char, b: Seq<char>)
    requires
        char_keys(c).len() == 0,
    ensures
        typing(a + seq![c] + b) == typing(a) + typing(b),
{
    lemma_typing_concat(a + seq![c], b);
    assert((a + seq![c]).drop_last() =~= a);
    assert(typing(a + seq![c]) =~= typing(a));
}

} // verus!

//! How deep the braces of a glob are nested.
//!
//! globset writes the expression of a glob by recursion, one call for each
//! level of `{..}`, and bounds the levels by nothing but the stack. The
//! library therefore measures the nesting before it hands a glob over.
//!
//! The measure is taken on the UTF-8 bytes, in one pass, and follows the way
//! globset reads a glob:
//!
//! - Outside a class, `{` opens a group and `}` closes one; `[` begins a
//!   class; and `\` takes the next character out of play, on platforms where
//!   `\` is not a path separator.
//! - A class takes at its start one `!` or `^`, then one member, whatever it
//!   is, and ends at the next `]`. Nothing in a class opens or closes a group
//!   or escapes.
//!
//! No byte of a character of several bytes is any of `{ } [ ] \ ! ^`, so the
//! pass over bytes stands where globset's pass over characters stands.
//!
//! [`MAX_GLOB_DEPTH`] is 249. The engine refuses an expression nested deeper
//! than 250, and a level of braces with anything in it adds a level to the
//! expression below its top one, so no matcher can be built from deeper
//! braces unless they are empty.

use vstd::prelude::*;
use vstd::string::StringSliceAdditionalSpecFns;
use vstd::utf8::encode_utf8;

verus! {

/// The deepest nesting of braces with which a glob is handed to globset.
pub const MAX_GLOB_DEPTH: usize = 249;

/// What a diagnostic says of a glob that is nested deeper.
pub open spec fn spec_depth_cause() -> Seq<char> {
    "braces are nested deeper than 249 levels"@
}

/// What a diagnostic says of a glob that is nested deeper.
pub fn depth_cause() -> (words: &'static str)
    ensures
        words@ == spec_depth_cause(),
{
    "braces are nested deeper than 249 levels"
}

/// Where in a glob a pass over its bytes stands.
#[derive(Clone, Copy, Debug, PartialEq, Eq, Structural)]
pub enum Place {
    /// Outside any class.
    Outside,
    /// Behind a `\` that takes the next character out of play.
    Escape,
    /// Behind the `[` of a class.
    ClassStart,
    /// Behind the `!` or `^` of a class.
    ClassNegated,
    /// In a class, behind its first member.
    Class,
}

/// A pass over the bytes of a glob, as far as it has come.
pub struct BraceScan {
    /// How many groups are open.
    pub level: nat,
    /// The most that were open at any one place so far.
    pub deepest: nat,
    /// Where the pass stands.
    pub place: Place,
}

/// The pass before the first byte.
pub open spec fn scan_start() -> BraceScan {
    BraceScan { level: 0, deepest: 0, place: Place::Outside }
}

/// Where the pass stands after one more byte.
pub open spec fn next_place(place: Place, byte: u8, escapes: bool) -> Place {
    match place {
        Place::Outside => if byte == 0x5c && escapes {
            Place::Escape
        } else if byte == 0x5b {
            Place::ClassStart
        } else {
            Place::Outside
        },
        Place::Escape => Place::Outside,
        Place::ClassStart => if byte == 0x21 || byte == 0x5e {
            Place::ClassNegated
        } else {
            Place::Class
        },
        Place::ClassNegated => Place::Class,
        Place::Class => if byte == 0x5d {
            Place::Outside
        } else {
            Place::Class
        },
    }
}

/// How many groups are open after one more byte.
pub open spec fn next_level(level: nat, place: Place, byte: u8) -> nat {
    if place != Place::Outside {
        level
    } else if byte == 0x7b {
        level + 1
    } else if byte == 0x7d && level > 0 {
        (level - 1) as nat
    } else {
        level
    }
}

/// The pass after one more byte.
pub open spec fn scan_step(scan: BraceScan, byte: u8, escapes: bool) -> BraceScan {
    let level = next_level(scan.level, scan.place, byte);
    BraceScan {
        level,
        deepest: if level > scan.deepest {
            level
        } else {
            scan.deepest
        },
        place: next_place(scan.place, byte, escapes),
    }
}

/// The pass after all of `bytes`.
pub open spec fn scan(bytes: Seq<u8>, escapes: bool) -> BraceScan
    decreases bytes.len(),
{
    if bytes.len() == 0 {
        scan_start()
    } else {
        scan_step(scan(bytes.drop_last(), escapes), bytes.last(), escapes)
    }
}

/// How deep the braces of a glob are nested, where `escapes` says whether `\` escapes.
pub open spec fn brace_depth(text: Seq<char>, escapes: bool) -> nat {
    scan(encode_utf8(text), escapes).deepest
}

/// How deep the braces of a glob are nested, where `escapes` says whether `\` escapes.
pub fn glob_depth(pattern: &str, escapes: bool) -> (depth: usize)
    ensures
        depth == brace_depth(pattern@, escapes),
{
    let bytes = pattern.as_bytes();
    let mut level: usize = 0;
    let mut deepest: usize = 0;
    let mut place = Place::Outside;
    let mut i: usize = 0;
    assert(bytes@.take(0) =~= Seq::<u8>::empty());
    while i < bytes.len()
        invariant
            i <= bytes@.len(),
            level <= deepest <= i,
            scan(bytes@.take(i as int), escapes) == (BraceScan {
                level: level as nat,
                deepest: deepest as nat,
                place,
            }),
        decreases bytes.len() - i,
    {
        assert(bytes@.take(i + 1).drop_last() =~= bytes@.take(i as int));
        let byte: u8 = bytes[i];
        match place {
            Place::Outside => {
                if byte == 0x7bu8 {
                    level += 1;
                } else if byte == 0x7du8 && level > 0 {
                    level -= 1;
                }
                if byte == 0x5cu8 && escapes {
                    place = Place::Escape;
                } else if byte == 0x5bu8 {
                    place = Place::ClassStart;
                }
            },
            Place::Escape => {
                place = Place::Outside;
            },
            Place::ClassStart => {
                if byte == 0x21u8 || byte == 0x5eu8 {
                    place = Place::ClassNegated;
                } else {
                    place = Place::Class;
                }
            },
            Place::ClassNegated => {
                place = Place::Class;
            },
            Place::Class => {
                if byte == 0x5du8 {
                    place = Place::Outside;
                }
            },
        }
        if level > deepest {
            deepest = level;
        }
        i += 1;
    }
    assert(bytes@.take(i as int) =~= bytes@);
    deepest
}

} // verus!

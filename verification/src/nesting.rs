//! How deep a TOML text nests.
//!
//! The `toml` crate reads a text with functions that call themselves once
//! for every level of nesting, so a text that nests without end would exhaust
//! the stack. This module measures the nesting of a text beforehand, in one
//! pass over its bytes and without calling itself, so that only texts of a
//! bounded depth are handed to the crate.
//!
//! The pass finds comments and strings where the crate's tokenizer finds
//! them, and what stands inside them opens no level:
//! - a comment runs from `#` to the first control byte that is no tab;
//! - a string of one line runs from its quote to the next quote of that kind,
//!   and ends with its line at the latest;
//! - a string of several lines runs from three quotes to the next three in a
//!   row, of which there may be five;
//! - in a string in double quotes a backslash takes the next byte with it.
//!
//! Outside of them a level is opened by `[`, by `{` and by `.`, and it is
//! closed again where the crate closes it: a bracket by its counterpart, the
//! dots of an entry by the `,` that ends it or by the end of its line. A line
//! ends at a line break outside of all brackets. The path of a table header
//! stays open for the lines below it, until the next header; it counts twice,
//! since a table in an array of tables stands one level deeper for each such
//! array on its path. All counts stop at `usize::MAX`.
//!
//! No text nests deeper than the pass says. The pass may say more than the
//! text nests: it takes the `.` of a number for that of a key, and it counts
//! every header twice.

use vstd::prelude::*;
use vstd::string::*;

verus! {

/// The deepest nesting that is handed to the TOML parser.
pub const MAX_NESTING: usize = 128;

/// What the pass is reading. A string is `basic` when it stands in double
/// quotes, where a backslash takes the next byte with it, and literal when it
/// stands in single quotes.
#[derive(Debug, PartialEq, Eq)]
pub enum Lexing {
    /// Outside of comments and strings.
    Code,
    /// In a comment, which ends before the first control byte but a tab.
    Comment,
    /// After the quote that opens a string.
    OneQuote { basic: bool },
    /// After two quotes: an empty string, or the start of a block.
    TwoQuotes { basic: bool },
    /// In a string of one line.
    Line { basic: bool, escaped: bool },
    /// In a string of several lines, after `quotes` quotes in a row.
    Block { basic: bool, escaped: bool, quotes: u8 },
    /// After the three quotes that close a block; up to two more belong to it.
    Closing { basic: bool, quotes: u8 },
}

/// The counts of the pass.
#[derive(Debug, PartialEq, Eq)]
pub struct Gauge {
    /// What the pass is reading.
    pub lexing: Lexing,
    /// The brackets that are open.
    pub open: usize,
    /// All dots of the keys on the way to where the pass stands.
    pub path: usize,
    /// The levels that the header above this line holds open.
    pub base: usize,
    /// The deepest nesting of this line.
    pub high: usize,
    /// Whether the line has held nothing but blanks so far.
    pub fresh: bool,
    /// Whether the line began with `[`, as a table header does.
    pub header: bool,
    /// The deepest nesting so far.
    pub deepest: usize,
}

/// The quote that delimits a string.
pub open spec fn quote(basic: bool) -> u8 {
    if basic {
        0x22
    } else {
        0x27
    }
}

/// `count` and one more.
pub open spec fn more(count: usize) -> usize {
    if count < usize::MAX {
        (count + 1) as usize
    } else {
        count
    }
}

/// `count` without `part`.
pub open spec fn without(count: usize, part: usize) -> usize {
    if count >= part {
        (count - part) as usize
    } else {
        0
    }
}

/// `left` and `right` together.
pub open spec fn together(left: usize, right: usize) -> usize {
    if left <= usize::MAX - right {
        (left + right) as usize
    } else {
        usize::MAX
    }
}

/// The larger of two counts.
pub open spec fn larger(left: usize, right: usize) -> usize {
    if left >= right {
        left
    } else {
        right
    }
}

/// The pass before the first byte.
pub open spec fn at_start() -> Gauge {
    Gauge {
        lexing: Lexing::Code,
        open: 0,
        path: 0,
        base: 0,
        high: 0,
        fresh: true,
        header: false,
        deepest: 0,
    }
}

/// `gauge` reading something else.
pub open spec fn reading(gauge: Gauge, lexing: Lexing) -> Gauge {
    Gauge { lexing, ..gauge }
}

/// `gauge` with the nesting at which it now stands taken into `high` and
/// `deepest`.
pub open spec fn noted(gauge: Gauge) -> Gauge {
    let level = together(gauge.open, gauge.path);
    Gauge {
        high: larger(gauge.high, level),
        deepest: larger(gauge.deepest, together(gauge.base, level)),
        ..gauge
    }
}

/// The pass after a byte outside of comments and strings. `frames` holds,
/// for every open bracket, the dots of the key that is being read inside it.
pub open spec fn code_byte(gauge: Gauge, frames: Seq<usize>, byte: u8) -> (Gauge, Seq<usize>) {
    if byte == 0x0a {
        if gauge.open == 0 && frames.len() == 0 {
            // The line is over. A header holds its path open from here on;
            // a table in an array stands one level deeper for each array on
            // its path, so the path counts twice.
            (
                noted(
                    Gauge {
                        path: 0,
                        base: if gauge.header {
                            together(gauge.high, gauge.high)
                        } else {
                            gauge.base
                        },
                        high: 0,
                        fresh: true,
                        header: false,
                        ..gauge
                    },
                ),
                frames,
            )
        } else {
            (gauge, frames)
        }
    } else if byte == 0x20 || byte == 0x09 || byte == 0x0d || byte >= 0x80 {
        // Blanks, and the byte order mark that may stand before the text.
        (gauge, frames)
    } else if byte == 0x23 {
        (reading(gauge, Lexing::Comment), frames)
    } else if byte == 0x22 || byte == 0x27 {
        (
            Gauge { lexing: Lexing::OneQuote { basic: byte == 0x22 }, fresh: false, ..gauge },
            frames,
        )
    } else if byte == 0x5b || byte == 0x7b {
        (
            noted(
                Gauge {
                    open: more(gauge.open),
                    header: gauge.header || (gauge.fresh && byte == 0x5b),
                    fresh: false,
                    ..gauge
                },
            ),
            frames.push(0),
        )
    } else if byte == 0x5d || byte == 0x7d {
        if frames.len() > 0 {
            (
                Gauge {
                    open: without(gauge.open, 1),
                    path: without(gauge.path, frames.last()),
                    fresh: false,
                    ..gauge
                },
                frames.drop_last(),
            )
        } else {
            (Gauge { fresh: false, ..gauge }, frames)
        }
    } else if byte == 0x2e {
        if frames.len() > 0 {
            (
                noted(Gauge { path: more(gauge.path), fresh: false, ..gauge }),
                frames.update(frames.len() - 1, more(frames.last())),
            )
        } else {
            (
                noted(
                    Gauge { path: more(gauge.path), fresh: false, ..gauge },
                ),
                frames,
            )
        }
    } else if byte == 0x2c {
        if frames.len() > 0 {
            (
                Gauge { path: without(gauge.path, frames.last()), fresh: false, ..gauge },
                frames.update(frames.len() - 1, 0),
            )
        } else {
            (Gauge { fresh: false, ..gauge }, frames)
        }
    } else {
        (Gauge { fresh: false, ..gauge }, frames)
    }
}

/// The pass after a byte of a string of one line. A line break ends such a
/// string at the latest.
pub open spec fn line_byte(
    gauge: Gauge,
    frames: Seq<usize>,
    basic: bool,
    escaped: bool,
    byte: u8,
) -> (Gauge, Seq<usize>) {
    if escaped {
        (reading(gauge, Lexing::Line { basic, escaped: false }), frames)
    } else if basic && byte == 0x5c {
        (reading(gauge, Lexing::Line { basic, escaped: true }), frames)
    } else if byte == quote(basic) {
        (reading(gauge, Lexing::Code), frames)
    } else if byte == 0x0a {
        code_byte(reading(gauge, Lexing::Code), frames, byte)
    } else {
        (reading(gauge, Lexing::Line { basic, escaped: false }), frames)
    }
}

/// What the pass reads after a byte of a string of several lines. Three
/// quotes in a row close it.
pub open spec fn block_byte(basic: bool, escaped: bool, quotes: u8, byte: u8) -> Lexing {
    if escaped {
        Lexing::Block { basic, escaped: false, quotes: 0 }
    } else if basic && byte == 0x5c {
        Lexing::Block { basic, escaped: true, quotes: 0 }
    } else if byte == quote(basic) {
        if quotes >= 2 {
            Lexing::Closing { basic, quotes: 0 }
        } else {
            Lexing::Block { basic, escaped: false, quotes: (quotes + 1) as u8 }
        }
    } else {
        Lexing::Block { basic, escaped: false, quotes: 0 }
    }
}

/// The pass after one more byte.
pub open spec fn read_byte(gauge: Gauge, frames: Seq<usize>, byte: u8) -> (Gauge, Seq<usize>) {
    match gauge.lexing {
        Lexing::Code => code_byte(gauge, frames, byte),
        Lexing::Comment => if byte < 0x20 && byte != 0x09 {
            code_byte(reading(gauge, Lexing::Code), frames, byte)
        } else {
            (gauge, frames)
        },
        Lexing::OneQuote { basic } => if byte == quote(basic) {
            (reading(gauge, Lexing::TwoQuotes { basic }), frames)
        } else {
            line_byte(gauge, frames, basic, false, byte)
        },
        Lexing::TwoQuotes { basic } => if byte == quote(basic) {
            (reading(gauge, Lexing::Block { basic, escaped: false, quotes: 0 }), frames)
        } else {
            code_byte(reading(gauge, Lexing::Code), frames, byte)
        },
        Lexing::Line { basic, escaped } => line_byte(gauge, frames, basic, escaped, byte),
        Lexing::Block { basic, escaped, quotes } => (
            reading(gauge, block_byte(basic, escaped, quotes, byte)),
            frames,
        ),
        Lexing::Closing { basic, quotes } => if byte == quote(basic) && quotes < 2 {
            (reading(gauge, Lexing::Closing { basic, quotes: (quotes + 1) as u8 }), frames)
        } else {
            code_byte(reading(gauge, Lexing::Code), frames, byte)
        },
    }
}

/// The pass after all of `bytes`.
pub open spec fn scanned(bytes: Seq<u8>) -> (Gauge, Seq<usize>)
    decreases bytes.len(),
{
    if bytes.len() == 0 {
        (at_start(), Seq::empty())
    } else {
        let before = scanned(bytes.drop_last());
        read_byte(before.0, before.1, bytes.last())
    }
}

/// The deepest nesting of a text, given by its bytes.
pub open spec fn nesting_depth(bytes: Seq<u8>) -> usize {
    scanned(bytes).0.deepest
}

fn grown(count: usize) -> (sum: usize)
    ensures
        sum == more(count),
{
    if count < usize::MAX {
        count + 1
    } else {
        count
    }
}

fn shrunk(count: usize, part: usize) -> (rest: usize)
    ensures
        rest == without(count, part),
{
    if count >= part {
        count - part
    } else {
        0
    }
}

fn joined(left: usize, right: usize) -> (sum: usize)
    ensures
        sum == together(left, right),
{
    if left <= usize::MAX - right {
        left + right
    } else {
        usize::MAX
    }
}

fn note(gauge: Gauge) -> (next: Gauge)
    ensures
        next == noted(gauge),
{
    let level = joined(gauge.open, gauge.path);
    let reach = joined(gauge.base, level);
    Gauge {
        high: if gauge.high >= level {
            gauge.high
        } else {
            level
        },
        deepest: if gauge.deepest >= reach {
            gauge.deepest
        } else {
            reach
        },
        ..gauge
    }
}

fn read_code(gauge: Gauge, frames: Vec<usize>, byte: u8) -> (next: (Gauge, Vec<usize>))
    ensures
        (next.0, next.1@) == code_byte(gauge, frames@, byte),
{
    let mut frames = frames;
    if byte == 0x0a {
        if gauge.open == 0 && frames.len() == 0 {
            let base = if gauge.header {
                joined(gauge.high, gauge.high)
            } else {
                gauge.base
            };
            (note(Gauge { path: 0, base, high: 0, fresh: true, header: false, ..gauge }), frames)
        } else {
            (gauge, frames)
        }
    } else if byte == 0x20 || byte == 0x09 || byte == 0x0d || byte >= 0x80 {
        (gauge, frames)
    } else if byte == 0x23 {
        (Gauge { lexing: Lexing::Comment, ..gauge }, frames)
    } else if byte == 0x22 || byte == 0x27 {
        (
            Gauge { lexing: Lexing::OneQuote { basic: byte == 0x22 }, fresh: false, ..gauge },
            frames,
        )
    } else if byte == 0x5b || byte == 0x7b {
        let open = grown(gauge.open);
        let header = gauge.header || (gauge.fresh && byte == 0x5b);
        frames.push(0);
        (note(Gauge { open, header, fresh: false, ..gauge }), frames)
    } else if byte == 0x5d || byte == 0x7d {
        match frames.pop() {
            Some(dots) => (
                Gauge {
                    open: shrunk(gauge.open, 1),
                    path: shrunk(gauge.path, dots),
                    fresh: false,
                    ..gauge
                },
                frames,
            ),
            None => (Gauge { fresh: false, ..gauge }, frames),
        }
    } else if byte == 0x2e {
        if frames.len() > 0 {
            let last = frames.len() - 1;
            let dots = grown(frames[last]);
            frames.set(last, dots);
            (note(Gauge { path: grown(gauge.path), fresh: false, ..gauge }), frames)
        } else {
            (
                note(
                    Gauge { path: grown(gauge.path), fresh: false, ..gauge },
                ),
                frames,
            )
        }
    } else if byte == 0x2c {
        if frames.len() > 0 {
            let last = frames.len() - 1;
            let path = shrunk(gauge.path, frames[last]);
            frames.set(last, 0);
            (Gauge { path, fresh: false, ..gauge }, frames)
        } else {
            (Gauge { fresh: false, ..gauge }, frames)
        }
    } else {
        (Gauge { fresh: false, ..gauge }, frames)
    }
}

fn read_line(gauge: Gauge, frames: Vec<usize>, basic: bool, escaped: bool, byte: u8) -> (next: (
    Gauge,
    Vec<usize>,
))
    ensures
        (next.0, next.1@) == line_byte(gauge, frames@, basic, escaped, byte),
{
    let delimiter: u8 = if basic {
        0x22
    } else {
        0x27
    };
    if escaped {
        (Gauge { lexing: Lexing::Line { basic, escaped: false }, ..gauge }, frames)
    } else if basic && byte == 0x5c {
        (Gauge { lexing: Lexing::Line { basic, escaped: true }, ..gauge }, frames)
    } else if byte == delimiter {
        (Gauge { lexing: Lexing::Code, ..gauge }, frames)
    } else if byte == 0x0a {
        read_code(Gauge { lexing: Lexing::Code, ..gauge }, frames, byte)
    } else {
        (Gauge { lexing: Lexing::Line { basic, escaped: false }, ..gauge }, frames)
    }
}

fn read_block(basic: bool, escaped: bool, quotes: u8, byte: u8) -> (lexing: Lexing)
    ensures
        lexing == block_byte(basic, escaped, quotes, byte),
{
    let delimiter: u8 = if basic {
        0x22
    } else {
        0x27
    };
    if escaped {
        Lexing::Block { basic, escaped: false, quotes: 0 }
    } else if basic && byte == 0x5c {
        Lexing::Block { basic, escaped: true, quotes: 0 }
    } else if byte == delimiter {
        if quotes >= 2 {
            Lexing::Closing { basic, quotes: 0 }
        } else {
            Lexing::Block { basic, escaped: false, quotes: quotes + 1 }
        }
    } else {
        Lexing::Block { basic, escaped: false, quotes: 0 }
    }
}

fn read(gauge: Gauge, frames: Vec<usize>, byte: u8) -> (next: (Gauge, Vec<usize>))
    ensures
        (next.0, next.1@) == read_byte(gauge, frames@, byte),
{
    match gauge.lexing {
        Lexing::Code => read_code(gauge, frames, byte),
        Lexing::Comment => {
            if byte < 0x20 && byte != 0x09 {
                read_code(Gauge { lexing: Lexing::Code, ..gauge }, frames, byte)
            } else {
                (gauge, frames)
            }
        },
        Lexing::OneQuote { basic } => {
            let delimiter: u8 = if basic {
                0x22
            } else {
                0x27
            };
            if byte == delimiter {
                (Gauge { lexing: Lexing::TwoQuotes { basic }, ..gauge }, frames)
            } else {
                read_line(gauge, frames, basic, false, byte)
            }
        },
        Lexing::TwoQuotes { basic } => {
            let delimiter: u8 = if basic {
                0x22
            } else {
                0x27
            };
            if byte == delimiter {
                (
                    Gauge {
                        lexing: Lexing::Block { basic, escaped: false, quotes: 0 },
                        ..gauge
                    },
                    frames,
                )
            } else {
                read_code(Gauge { lexing: Lexing::Code, ..gauge }, frames, byte)
            }
        },
        Lexing::Line { basic, escaped } => read_line(gauge, frames, basic, escaped, byte),
        Lexing::Block { basic, escaped, quotes } => {
            let lexing = read_block(basic, escaped, quotes, byte);
            (Gauge { lexing, ..gauge }, frames)
        },
        Lexing::Closing { basic, quotes } => {
            let delimiter: u8 = if basic {
                0x22
            } else {
                0x27
            };
            if byte == delimiter && quotes < 2 {
                (Gauge { lexing: Lexing::Closing { basic, quotes: quotes + 1 }, ..gauge }, frames)
            } else {
                read_code(Gauge { lexing: Lexing::Code, ..gauge }, frames, byte)
            }
        },
    }
}

/// Measures the deepest nesting of `text`.
pub fn measure_nesting(text: &str) -> (depth: usize)
    ensures
        depth == nesting_depth(text.spec_bytes()),
{
    let bytes = text.as_bytes();
    let mut gauge = Gauge {
        lexing: Lexing::Code,
        open: 0,
        path: 0,
        base: 0,
        high: 0,
        fresh: true,
        header: false,
        deepest: 0,
    };
    let mut frames: Vec<usize> = Vec::new();
    let mut index: usize = 0;
    while index < bytes.len()
        invariant
            index <= bytes.len(),
            (gauge, frames@) == scanned(bytes@.take(index as int)),
        decreases bytes.len() - index,
    {
        let byte: u8 = bytes[index];
        proof {
            assert(bytes@.take(index + 1).drop_last() =~= bytes@.take(index as int));
        }
        let next = read(gauge, frames, byte);
        gauge = next.0;
        frames = next.1;
        index += 1;
    }
    proof {
        assert(bytes@.take(index as int) =~= bytes@);
    }
    gauge.deepest
}

/// The counts of `gauge` and `frames`, apart from what is being read, are the
/// same as those of `other` and `others`.
pub open spec fn same_counts(
    gauge: Gauge,
    frames: Seq<usize>,
    other: Gauge,
    others: Seq<usize>,
) -> bool {
    reading(gauge, Lexing::Code) == reading(other, Lexing::Code) && frames == others
}

/// What stands in a comment or in a string opens and closes nothing: as
/// long as the pass stays inside, no count changes. A comment goes on until a
/// control byte that is no tab, a string of one line until the line breaks, a
/// string of several lines for every byte that is read in it.
pub proof fn lemma_comments_and_strings_open_nothing(gauge: Gauge, frames: Seq<usize>, byte: u8)
    ensures
        gauge.lexing is Comment && (byte >= 0x20 || byte == 0x09) ==> same_counts(
            read_byte(gauge, frames, byte).0,
            read_byte(gauge, frames, byte).1,
            gauge,
            frames,
        ),
        gauge.lexing is Line && byte != 0x0a ==> same_counts(
            read_byte(gauge, frames, byte).0,
            read_byte(gauge, frames, byte).1,
            gauge,
            frames,
        ),
        gauge.lexing is Block ==> same_counts(
            read_byte(gauge, frames, byte).0,
            read_byte(gauge, frames, byte).1,
            gauge,
            frames,
        ),
{
}

/// The deepest nesting only grows as the pass goes on, and it grows on
/// nothing but a `[`, a `{`, a `.` or the end of a line.
pub proof fn lemma_depth_only_grows(gauge: Gauge, frames: Seq<usize>, byte: u8)
    ensures
        read_byte(gauge, frames, byte).0.deepest >= gauge.deepest,
        read_byte(gauge, frames, byte).0.deepest > gauge.deepest ==> byte == 0x5b || byte == 0x7b
            || byte == 0x2e || byte == 0x0a,
{
}

/// A text without `[`, `{` and `.` does not nest at all.
pub proof fn lemma_flat_text_has_no_depth(bytes: Seq<u8>)
    requires
        forall|i: int|
            0 <= i < bytes.len() ==> bytes[i] != 0x5b && bytes[i] != 0x7b && bytes[i] != 0x2e,
    ensures
        nesting_depth(bytes) == 0,
        scanned(bytes).0.base == 0,
        scanned(bytes).0.open == 0,
        scanned(bytes).0.path == 0,
        scanned(bytes).0.high == 0,
        scanned(bytes).1.len() == 0,
    decreases bytes.len(),
{
    if bytes.len() > 0 {
        lemma_flat_text_has_no_depth(bytes.drop_last());
    }
}

} // verus!

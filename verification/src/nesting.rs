use vstd::prelude::*;
use crate::text::chars_of;

verus! {

/// How deep arrays and inline tables may be nested in a manifest. The
/// readers of manifests go one call deeper with every level, so a text of
/// unbounded depth would exhaust the stack.
pub const MAX_DEPTH: usize = 16;

/// How many dots a single line of a manifest may hold, and so how many
/// segments a key or a table header may have.
pub const MAX_DOTS: usize = 64;

/// What the scan of a manifest is reading.
#[derive(Clone, Copy, PartialEq, Eq, Structural, Debug)]
pub enum Mode {
    /// Keys, values and headers.
    Code,
    /// A string between double quotes.
    Basic,
    /// The character after a backslash in such a string.
    Escape,
    /// A string between single quotes.
    Literal,
    /// A comment, up to the end of the line.
    Comment,
}

/// What a scan knows after a prefix of a text.
pub struct Scan {
    pub mode: Mode,
    /// Three quotes in a row were seen. A string that spans lines may have
    /// begun there, so from then on every opening bracket counts and no
    /// closing bracket does.
    pub sealed: bool,
    /// How many `"` stand at the end of the prefix, up to three.
    pub doubles: nat,
    /// How many `'` stand at the end of the prefix, up to three.
    pub singles: nat,
    /// How many brackets are open.
    pub depth: nat,
    /// The most that were open at once.
    pub deepest: nat,
    /// How many dots the line in progress holds.
    pub dots: nat,
    /// The most that any line held.
    pub most_dots: nat,
}

/// The scan before any character.
pub open spec fn scan_start() -> Scan {
    Scan {
        mode: Mode::Code,
        sealed: false,
        doubles: 0,
        singles: 0,
        depth: 0,
        deepest: 0,
        dots: 0,
        most_dots: 0,
    }
}

/// What is being read after `c`.
pub open spec fn next_mode(mode: Mode, c: char) -> Mode {
    match mode {
        Mode::Code => if c == '"' {
            Mode::Basic
        } else if c == '\'' {
            Mode::Literal
        } else if c == '#' {
            Mode::Comment
        } else {
            Mode::Code
        },
        Mode::Basic => if c == '\\' {
            Mode::Escape
        } else if c == '"' || c == '\n' {
            Mode::Code
        } else {
            Mode::Basic
        },
        Mode::Escape => if c == '\n' {
            Mode::Code
        } else {
            Mode::Basic
        },
        Mode::Literal => if c == '\'' || c == '\n' {
            Mode::Code
        } else {
            Mode::Literal
        },
        Mode::Comment => if c == '\n' {
            Mode::Code
        } else {
            Mode::Comment
        },
    }
}

/// One more than `n`, up to three.
pub open spec fn run_after(n: nat, more: bool) -> nat {
    if !more {
        0
    } else if n >= 3 {
        3
    } else {
        n + 1
    }
}

/// The scan after one more character. Brackets count where keys and values
/// stand, not in strings and comments; once the scan is sealed, every
/// opening bracket counts and no closing one.
pub open spec fn scan_step(s: Scan, c: char) -> Scan {
    let doubles = run_after(s.doubles, c == '"');
    let singles = run_after(s.singles, c == '\'');
    let sealed = s.sealed || doubles >= 3 || singles >= 3;
    let opens = c == '[' || c == '{';
    let closes = c == ']' || c == '}';
    let depth = if sealed {
        if opens {
            s.depth + 1
        } else {
            s.depth
        }
    } else if s.mode == Mode::Code {
        if opens {
            s.depth + 1
        } else if closes && s.depth > 0 {
            (s.depth - 1) as nat
        } else {
            s.depth
        }
    } else {
        s.depth
    };
    let dots = if c == '\n' {
        0
    } else if c == '.' {
        s.dots + 1
    } else {
        s.dots
    };
    Scan {
        mode: next_mode(s.mode, c),
        sealed,
        doubles,
        singles,
        depth,
        deepest: if depth > s.deepest {
            depth
        } else {
            s.deepest
        },
        dots,
        most_dots: if dots > s.most_dots {
            dots
        } else {
            s.most_dots
        },
    }
}

/// The scan after a text.
pub open spec fn scan(text: Seq<char>) -> Scan
    decreases text.len(),
{
    if text.len() == 0 {
        scan_start()
    } else {
        scan_step(scan(text.drop_last()), text.last())
    }
}

/// Whether a manifest text stays within the bounds on nesting: never more
/// than `MAX_DEPTH` brackets open at once, and never more than `MAX_DOTS`
/// dots in a line.
pub open spec fn within_nesting(text: Seq<char>) -> bool {
    scan(text).deepest <= MAX_DEPTH && scan(text).most_dots <= MAX_DOTS
}

/// The message for a manifest that is nested beyond the bounds.
pub open spec fn too_deep() -> Seq<char> {
    "The manifest is nested too deeply"@
}

/// No count of a scan exceeds the length of the text.
pub proof fn lemma_scan_counts(text: Seq<char>)
    ensures
        scan(text).depth <= text.len(),
        scan(text).deepest <= text.len(),
        scan(text).dots <= text.len(),
        scan(text).most_dots <= text.len(),
        scan(text).doubles <= 3,
        scan(text).singles <= 3,
        scan(text).depth <= scan(text).deepest,
        scan(text).dots <= scan(text).most_dots,
    decreases text.len(),
{
    if text.len() > 0 {
        lemma_scan_counts(text.drop_last());
    }
}

/// Whether what is being read is keys and values.
fn is_code(mode: Mode) -> (r: bool)
    ensures
        r == (mode == Mode::Code),
{
    match mode {
        Mode::Code => true,
        _ => false,
    }
}

/// What is being read after `c`.
fn mode_after(mode: Mode, c: char) -> (r: Mode)
    ensures
        r == next_mode(mode, c),
{
    match mode {
        Mode::Code => {
            if c == '"' {
                Mode::Basic
            } else if c == '\'' {
                Mode::Literal
            } else if c == '#' {
                Mode::Comment
            } else {
                Mode::Code
            }
        },
        Mode::Basic => {
            if c == '\\' {
                Mode::Escape
            } else if c == '"' || c == '\n' {
                Mode::Code
            } else {
                Mode::Basic
            }
        },
        Mode::Escape => {
            if c == '\n' {
                Mode::Code
            } else {
                Mode::Basic
            }
        },
        Mode::Literal => {
            if c == '\'' || c == '\n' {
                Mode::Code
            } else {
                Mode::Literal
            }
        },
        Mode::Comment => {
            if c == '\n' {
                Mode::Code
            } else {
                Mode::Comment
            }
        },
    }
}

/// Whether a manifest text stays within the bounds on nesting.
pub fn nesting_bounded(text: &str) -> (r: bool)
    ensures
        r == within_nesting(text@),
{
    let chars = chars_of(text);
    let mut mode = Mode::Code;
    let mut sealed = false;
    let mut doubles: usize = 0;
    let mut singles: usize = 0;
    let mut depth: usize = 0;
    let mut deepest: usize = 0;
    let mut dots: usize = 0;
    let mut most_dots: usize = 0;
    let mut i: usize = 0;
    assert(chars@.take(0) =~= Seq::<char>::empty());
    while i < chars.len()
        invariant
            i <= chars.len(),
            chars@ == text@,
            scan(chars@.take(i as int)) == (Scan {
                mode,
                sealed,
                doubles: doubles as nat,
                singles: singles as nat,
                depth: depth as nat,
                deepest: deepest as nat,
                dots: dots as nat,
                most_dots: most_dots as nat,
            }),
        decreases chars.len() - i,
    {
        proof {
            lemma_scan_counts(chars@.take(i as int));
            assert(chars@.take(i + 1).drop_last() =~= chars@.take(i as int));
        }
        let c = chars[i];
        doubles = if c != '"' {
            0
        } else if doubles >= 3 {
            3
        } else {
            doubles + 1
        };
        singles = if c != '\'' {
            0
        } else if singles >= 3 {
            3
        } else {
            singles + 1
        };
        sealed = sealed || doubles >= 3 || singles >= 3;
        let opens = c == '[' || c == '{';
        let closes = c == ']' || c == '}';
        if sealed {
            if opens {
                depth += 1;
            }
        } else if is_code(mode) {
            if opens {
                depth += 1;
            } else if closes && depth > 0 {
                depth -= 1;
            }
        }
        if c == '\n' {
            dots = 0;
        } else if c == '.' {
            dots += 1;
        }
        if depth > deepest {
            deepest = depth;
        }
        if dots > most_dots {
            most_dots = dots;
        }
        mode = mode_after(mode, c);
        i += 1;
    }
    assert(chars@.take(chars.len() as int) =~= chars@);
    deepest <= MAX_DEPTH && most_dots <= MAX_DOTS
}

} // verus!

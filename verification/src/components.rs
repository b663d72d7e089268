use vstd::prelude::*;

verus! {

/// A grid location. Coordinates are unbounded, except that movement
/// clamps at the left and top edges (see the input stage).
#[derive(PartialEq, Eq, Structural, Clone, Copy, Debug)]
pub struct Position {
    pub x: i32,
    pub y: i32,
}

/// Spec-level image of a [`Renderable`]: the glyph and the two color names.
pub struct RenderableV {
    pub glyph: char,
    pub fg: Seq<char>,
    pub bg: Seq<char>,
}

/// How an entity is drawn: one glyph plus the names of its foreground and
/// background colors. Fixed for the lifetime of the entity.
#[derive(Debug)]
pub struct Renderable {
    pub glyph: char,
    pub fg: String,
    pub bg: String,
}

impl View for Renderable {
    type V = RenderableV;

    open spec fn view(&self) -> RenderableV {
        RenderableV { glyph: self.glyph, fg: self.fg@, bg: self.bg@ }
    }
}

impl Clone for Renderable {
    fn clone(&self) -> (r: Self)
        ensures
            r@ == self@,
    {
        Renderable { glyph: self.glyph, fg: self.fg.clone(), bg: self.bg.clone() }
    }
}

/// Tag component marking the one user-controlled entity.
#[derive(Clone, Copy, Debug)]
pub struct Player;

/// Tag component marking the static, non-interactive enemy entity.
#[derive(Clone, Copy, Debug)]
pub struct Ringwraith;

/// The fixed palette that color names resolve to.
#[derive(PartialEq, Eq, Structural, Clone, Copy, Debug)]
pub enum Color {
    Black,
    Red,
    Green,
    Yellow,
    Blue,
    Magenta,
    Cyan,
    White,
    Grey,
}

/// ASCII lowercasing of a single character; every other character is
/// left unchanged. Only the 26 ASCII letters fold: a non-ASCII
/// uppercase form (say the Kelvin sign for 'K') stays as it is.
pub open spec fn lower_char(c: char) -> char {
    match c {
        'A' => 'a',
        'B' => 'b',
        'C' => 'c',
        'D' => 'd',
        'E' => 'e',
        'F' => 'f',
        'G' => 'g',
        'H' => 'h',
        'I' => 'i',
        'J' => 'j',
        'K' => 'k',
        'L' => 'l',
        'M' => 'm',
        'N' => 'n',
        'O' => 'o',
        'P' => 'p',
        'Q' => 'q',
        'R' => 'r',
        'S' => 's',
        'T' => 't',
        'U' => 'u',
        'V' => 'v',
        'W' => 'w',
        'X' => 'x',
        'Y' => 'y',
        'Z' => 'z',
        _ => c,
    }
}

/// ASCII lowercasing of a whole character sequence.
pub open spec fn lower(s: Seq<char>) -> Seq<char> {
    s.map_values(|c: char| lower_char(c))
}

/// The color a name resolves to: the fixed palette, matched without
/// regard to ASCII case; any unrecognized name degrades to white.
/// The folding is ASCII-only, so a name spelled with non-ASCII
/// uppercase forms lies outside the palette and resolves to white.
pub open spec fn spec_color_of(s: Seq<char>) -> Color {
    let l = lower(s);
    if l == "black"@ {
        Color::Black
    } else if l == "red"@ {
        Color::Red
    } else if l == "green"@ {
        Color::Green
    } else if l == "yellow"@ {
        Color::Yellow
    } else if l == "blue"@ {
        Color::Blue
    } else if l == "magenta"@ {
        Color::Magenta
    } else if l == "cyan"@ {
        Color::Cyan
    } else if l == "white"@ {
        Color::White
    } else if l == "grey"@ || l == "gray"@ {
        Color::Grey
    } else {
        Color::White
    }
}

fn lower_char_x(c: char) -> (r: char)
    ensures
        r == lower_char(c),
{
    match c {
        'A' => 'a',
        'B' => 'b',
        'C' => 'c',
        'D' => 'd',
        'E' => 'e',
        'F' => 'f',
        'G' => 'g',
        'H' => 'h',
        'I' => 'i',
        'J' => 'j',
        'K' => 'k',
        'L' => 'l',
        'M' => 'm',
        'N' => 'n',
        'O' => 'o',
        'P' => 'p',
        'Q' => 'q',
        'R' => 'r',
        'S' => 's',
        'T' => 't',
        'U' => 'u',
        'V' => 'v',
        'W' => 'w',
        'X' => 'x',
        'Y' => 'y',
        'Z' => 'z',
        _ => c,
    }
}

/// Whether two strings are equal once both are ASCII-lowercased.
pub fn eq_ignore_ascii_case(a: &str, b: &str) -> (r: bool)
    ensures
        r == (lower(a@) == lower(b@)),
{
    let n = a.unicode_len();
    let m = b.unicode_len();
    if n != m {
        proof {
            assert(lower(a@).len() != lower(b@).len());
        }
        return false;
    }
    let mut i: usize = 0;
    while i < n
        invariant
            n == a@.len(),
            n == b@.len(),
            i <= n,
            forall|j: int| 0 <= j < i ==> lower_char(a@[j]) == lower_char(b@[j]),
        decreases n - i,
    {
        let ca = lower_char_x(a.get_char(i));
        let cb = lower_char_x(b.get_char(i));
        if ca != cb {
            proof {
                assert(lower(a@)[i as int] != lower(b@)[i as int]);
            }
            return false;
        }
        i += 1;
    }
    proof {
        assert(lower(a@) =~= lower(b@));
    }
    true
}

proof fn lemma_palette_names_are_lowercase()
    ensures
        lower("black"@) == "black"@,
        lower("red"@) == "red"@,
        lower("green"@) == "green"@,
        lower("yellow"@) == "yellow"@,
        lower("blue"@) == "blue"@,
        lower("magenta"@) == "magenta"@,
        lower("cyan"@) == "cyan"@,
        lower("white"@) == "white"@,
        lower("grey"@) == "grey"@,
        lower("gray"@) == "gray"@,
{
    reveal_strlit("black");
    reveal_strlit("red");
    reveal_strlit("green");
    reveal_strlit("yellow");
    reveal_strlit("blue");
    reveal_strlit("magenta");
    reveal_strlit("cyan");
    reveal_strlit("white");
    reveal_strlit("grey");
    reveal_strlit("gray");
    assert(lower("black"@) =~= "black"@);
    assert(lower("red"@) =~= "red"@);
    assert(lower("green"@) =~= "green"@);
    assert(lower("yellow"@) =~= "yellow"@);
    assert(lower("blue"@) =~= "blue"@);
    assert(lower("magenta"@) =~= "magenta"@);
    assert(lower("cyan"@) =~= "cyan"@);
    assert(lower("white"@) =~= "white"@);
    assert(lower("grey"@) =~= "grey"@);
    assert(lower("gray"@) =~= "gray"@);
}

/// Resolves a color name to the palette, ignoring ASCII case; any name
/// outside the palette resolves to white rather than failing.
pub fn color_from_str(name: &str) -> (c: Color)
    ensures
        c == spec_color_of(name@),
{
    proof {
        lemma_palette_names_are_lowercase();
    }
    if eq_ignore_ascii_case(name, "black") {
        Color::Black
    } else if eq_ignore_ascii_case(name, "red") {
        Color::Red
    } else if eq_ignore_ascii_case(name, "green") {
        Color::Green
    } else if eq_ignore_ascii_case(name, "yellow") {
        Color::Yellow
    } else if eq_ignore_ascii_case(name, "blue") {
        Color::Blue
    } else if eq_ignore_ascii_case(name, "magenta") {
        Color::Magenta
    } else if eq_ignore_ascii_case(name, "cyan") {
        Color::Cyan
    } else if eq_ignore_ascii_case(name, "white") {
        Color::White
    } else if eq_ignore_ascii_case(name, "grey") || eq_ignore_ascii_case(name, "gray") {
        Color::Grey
    } else {
        Color::White
    }
}

/// Color resolution is case-insensitive: two names that agree up to
/// ASCII case resolve to the same palette color.
pub proof fn lemma_color_case_insensitive(a: Seq<char>, b: Seq<char>)
    requires
        lower(a) == lower(b),
    ensures
        spec_color_of(a) == spec_color_of(b),
{
}

/// Any name outside the fixed palette resolves to white.
pub proof fn lemma_unknown_color_is_white(s: Seq<char>)
    requires
        lower(s) != "black"@,
        lower(s) != "red"@,
        lower(s) != "green"@,
        lower(s) != "yellow"@,
        lower(s) != "blue"@,
        lower(s) != "magenta"@,
        lower(s) != "cyan"@,
        lower(s) != "white"@,
        lower(s) != "grey"@,
        lower(s) != "gray"@,
    ensures
        spec_color_of(s) == Color::White,
{
}

} // verus!

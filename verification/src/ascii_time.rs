//! The big clock face of the timer view: each digit of a time string is
//! drawn as a seven-row block glyph, and the rows of all glyphs are
//! joined into one multi-line banner.

use vstd::prelude::*;

use crate::text::chars_of;

verus! {

/// Whether the banner draws this character: the ten digits and the colon.
pub open spec fn spec_renders(c: char) -> bool {
    ('0' <= c <= '9') || c == ':'
}

/// One row of the seven-row glyph of a character.
pub open spec fn spec_art_row(c: char, row: int) -> Seq<char> {
    if c == '0' {
        if row == 0 {
            "  ███  "@
        } else if row == 1 {
            " █   █ "@
        } else if row == 2 {
            "█     █"@
        } else if row == 3 {
            "█     █"@
        } else if row == 4 {
            "█     █"@
        } else if row == 5 {
            " █   █ "@
        } else {
            "  ███  "@
        }
    } else if c == '1' {
        if row == 0 {
            "   █   "@
        } else if row == 1 {
            "  ██   "@
        } else if row == 2 {
            " █ █   "@
        } else if row == 3 {
            "   █   "@
        } else if row == 4 {
            "   █   "@
        } else if row == 5 {
            "   █   "@
        } else {
            " ████  "@
        }
    } else if c == '2' {
        if row == 0 {
            " ███   "@
        } else if row == 1 {
            "█   █  "@
        } else if row == 2 {
            "    █  "@
        } else if row == 3 {
            "   █   "@
        } else if row == 4 {
            "  █    "@
        } else if row == 5 {
            " █     "@
        } else {
            "█████  "@
        }
    } else if c == '3' {
        if row == 0 {
            " ███   "@
        } else if row == 1 {
            "█   █  "@
        } else if row == 2 {
            "    █  "@
        } else if row == 3 {
            "  ██   "@
        } else if row == 4 {
            "    █  "@
        } else if row == 5 {
            "█   █  "@
        } else {
            " ███   "@
        }
    } else if c == '4' {
        if row == 0 {
            "   ██  "@
        } else if row == 1 {
            "  █ █  "@
        } else if row == 2 {
            " █  █  "@
        } else if row == 3 {
            "█   █  "@
        } else if row == 4 {
            "█████  "@
        } else if row == 5 {
            "    █  "@
        } else {
            "    █  "@
        }
    } else if c == '5' {
        if row == 0 {
            "█████  "@
        } else if row == 1 {
            "█      "@
        } else if row == 2 {
            "████   "@
        } else if row == 3 {
            "    █  "@
        } else if row == 4 {
            "    █  "@
        } else if row == 5 {
            "█   █  "@
        } else {
            " ███   "@
        }
    } else if c == '6' {
        if row == 0 {
            "  ███  "@
        } else if row == 1 {
            " █     "@
        } else if row == 2 {
            "█      "@
        } else if row == 3 {
            "█ ███  "@
        } else if row == 4 {
            "█    █ "@
        } else if row == 5 {
            " █   █ "@
        } else {
            "  ███  "@
        }
    } else if c == '7' {
        if row == 0 {
            "█████  "@
        } else if row == 1 {
            "    █  "@
        } else if row == 2 {
            "   █   "@
        } else if row == 3 {
            "  █    "@
        } else if row == 4 {
            " █     "@
        } else if row == 5 {
            " █     "@
        } else {
            " █     "@
        }
    } else if c == '8' {
        if row == 0 {
            "  ███  "@
        } else if row == 1 {
            " █   █ "@
        } else if row == 2 {
            " █   █ "@
        } else if row == 3 {
            "  ███  "@
        } else if row == 4 {
            " █   █ "@
        } else if row == 5 {
            " █   █ "@
        } else {
            "  ███  "@
        }
    } else if c == '9' {
        if row == 0 {
            "  ███  "@
        } else if row == 1 {
            " █   █ "@
        } else if row == 2 {
            " █   █ "@
        } else if row == 3 {
            "  ████ "@
        } else if row == 4 {
            "     █ "@
        } else if row == 5 {
            "    ██ "@
        } else {
            "  ███  "@
        }
    } else if c == ':' {
        if row == 0 {
            "        "@
        } else if row == 1 {
            "   █    "@
        } else if row == 2 {
            "   █    "@
        } else if row == 3 {
            "        "@
        } else if row == 4 {
            "   █    "@
        } else if row == 5 {
            "   █    "@
        } else {
            "        "@
        }
    } else {
        Seq::empty()
    }
}

/// One banner row of a whole string: the glyph rows of its rendered
/// characters, each followed by two spaces; other characters are skipped.
pub open spec fn spec_banner_row(s: Seq<char>, row: int) -> Seq<char>
    decreases s.len(),
{
    if s.len() == 0 {
        Seq::empty()
    } else {
        spec_banner_row(s.drop_last(), row) + (if spec_renders(s.last()) {
            spec_art_row(s.last(), row) + "  "@
        } else {
            Seq::empty()
        })
    }
}

/// The whole banner: the seven rows of the string, joined by newlines.
pub open spec fn spec_ascii_time(s: Seq<char>) -> Seq<char> {
    spec_banner_row(s, 0) + seq!['\n'] + spec_banner_row(s, 1) + seq!['\n'] + spec_banner_row(
        s,
        2,
    ) + seq!['\n'] + spec_banner_row(s, 3) + seq!['\n'] + spec_banner_row(s, 4) + seq!['\n']
        + spec_banner_row(s, 5) + seq!['\n'] + spec_banner_row(s, 6)
}

/// The glyph row of a rendered character.
fn art_row(c: char, row: u8) -> (r: &'static str)
    requires
        spec_renders(c),
        row < 7,
    ensures
        r@ == spec_art_row(c, row as int),
{
    match (c, row) {
        ('0', 0) => "  ███  ",
        ('0', 1) => " █   █ ",
        ('0', 2) => "█     █",
        ('0', 3) => "█     █",
        ('0', 4) => "█     █",
        ('0', 5) => " █   █ ",
        ('0', 6) => "  ███  ",
        ('1', 0) => "   █   ",
        ('1', 1) => "  ██   ",
        ('1', 2) => " █ █   ",
        ('1', 3) => "   █   ",
        ('1', 4) => "   █   ",
        ('1', 5) => "   █   ",
        ('1', 6) => " ████  ",
        ('2', 0) => " ███   ",
        ('2', 1) => "█   █  ",
        ('2', 2) => "    █  ",
        ('2', 3) => "   █   ",
        ('2', 4) => "  █    ",
        ('2', 5) => " █     ",
        ('2', 6) => "█████  ",
        ('3', 0) => " ███   ",
        ('3', 1) => "█   █  ",
        ('3', 2) => "    █  ",
        ('3', 3) => "  ██   ",
        ('3', 4) => "    █  ",
        ('3', 5) => "█   █  ",
        ('3', 6) => " ███   ",
        ('4', 0) => "   ██  ",
        ('4', 1) => "  █ █  ",
        ('4', 2) => " █  █  ",
        ('4', 3) => "█   █  ",
        ('4', 4) => "█████  ",
        ('4', 5) => "    █  ",
        ('4', 6) => "    █  ",
        ('5', 0) => "█████  ",
        ('5', 1) => "█      ",
        ('5', 2) => "████   ",
        ('5', 3) => "    █  ",
        ('5', 4) => "    █  ",
        ('5', 5) => "█   █  ",
        ('5', 6) => " ███   ",
        ('6', 0) => "  ███  ",
        ('6', 1) => " █     ",
        ('6', 2) => "█      ",
        ('6', 3) => "█ ███  ",
        ('6', 4) => "█    █ ",
        ('6', 5) => " █   █ ",
        ('6', 6) => "  ███  ",
        ('7', 0) => "█████  ",
        ('7', 1) => "    █  ",
        ('7', 2) => "   █   ",
        ('7', 3) => "  █    ",
        ('7', 4) => " █     ",
        ('7', 5) => " █     ",
        ('7', 6) => " █     ",
        ('8', 0) => "  ███  ",
        ('8', 1) => " █   █ ",
        ('8', 2) => " █   █ ",
        ('8', 3) => "  ███  ",
        ('8', 4) => " █   █ ",
        ('8', 5) => " █   █ ",
        ('8', 6) => "  ███  ",
        ('9', 0) => "  ███  ",
        ('9', 1) => " █   █ ",
        ('9', 2) => " █   █ ",
        ('9', 3) => "  ████ ",
        ('9', 4) => "     █ ",
        ('9', 5) => "    ██ ",
        ('9', 6) => "  ███  ",
        (':', 0) => "        ",
        (':', 1) => "   █    ",
        (':', 2) => "   █    ",
        (':', 3) => "        ",
        (':', 4) => "   █    ",
        (':', 5) => "   █    ",
        (':', 6) => "        ",
        _ => "",
    }
}

/// One banner row of a string of characters.
fn banner_row(cs: &Vec<char>, row: u8) -> (r: String)
    requires
        row < 7,
    ensures
        r@ == spec_banner_row(cs@, row as int),
{
    let mut out = String::new();
    let n = cs.len();
    let mut i: usize = 0;
    while i < n
        invariant
            n == cs@.len(),
            i <= n,
            row < 7,
            out@ == spec_banner_row(cs@.subrange(0, i as int), row as int),
        decreases n - i,
    {
        proof {
            let pre = cs@.subrange(0, i + 1);
            assert(pre.drop_last() =~= cs@.subrange(0, i as int));
            assert(pre.last() == cs@[i as int]);
        }
        let c = cs[i];
        let draws = (c >= '0' && c <= '9') || c == ':';
        if draws {
            let mut line = out;
            line.append(art_row(c, row));
            line.append("  ");
            out = line;
        }
        i = i + 1;
    }
    proof {
        assert(cs@.subrange(0, n as int) =~= cs@);
    }
    out
}

/// Draws a time string as a seven-row banner of block glyphs: every
/// digit and colon becomes its glyph followed by two spaces, any other
/// character is skipped, and the seven rows are joined by newlines.
pub fn format_ascii_time(input: &str) -> (r: String)
    ensures
        r@ == spec_ascii_time(input@),
{
    let cs = chars_of(input);
    let mut out = banner_row(&cs, 0);
    let mut row: u8 = 1;
    while row < 7
        invariant
            1 <= row <= 7,
            out@ == spec_banner_rows_upto(input@, row as int),
            cs@ == input@,
        decreases 7 - row,
    {
        let mut line = out;
        line.append("\n");
        line.append(banner_row(&cs, row).as_str());
        out = line;
        proof {
            reveal_strlit("\n");
            assert("\n"@ =~= seq!['\n']);
            assert(out@ =~= spec_banner_rows_upto(input@, row + 1));
        }
        row = row + 1;
    }
    proof {
        let s = input@;
        assert(spec_banner_rows_upto(s, 2) == spec_banner_rows_upto(s, 1) + seq!['\n']
            + spec_banner_row(s, 1));
        assert(spec_banner_rows_upto(s, 3) == spec_banner_rows_upto(s, 2) + seq!['\n']
            + spec_banner_row(s, 2));
        assert(spec_banner_rows_upto(s, 4) == spec_banner_rows_upto(s, 3) + seq!['\n']
            + spec_banner_row(s, 3));
        assert(spec_banner_rows_upto(s, 5) == spec_banner_rows_upto(s, 4) + seq!['\n']
            + spec_banner_row(s, 4));
        assert(spec_banner_rows_upto(s, 6) == spec_banner_rows_upto(s, 5) + seq!['\n']
            + spec_banner_row(s, 5));
        assert(spec_banner_rows_upto(s, 7) == spec_banner_rows_upto(s, 6) + seq!['\n']
            + spec_banner_row(s, 6));
        assert(out@ =~= spec_ascii_time(s));
    }
    out
}

/// The first `rows` banner rows of the string, joined by newlines.
pub open spec fn spec_banner_rows_upto(s: Seq<char>, rows: int) -> Seq<char>
    decreases rows,
{
    if rows <= 1 {
        spec_banner_row(s, 0)
    } else {
        spec_banner_rows_upto(s, rows - 1) + seq!['\n'] + spec_banner_row(s, rows - 1)
    }
}

} // verus!

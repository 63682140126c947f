//! The text of the tool's help screen: a picture of Artiy drawn in
//! colored characters, then notices about the project.

use vstd::prelude::*;
use colored::Colorize;
use crate::text::{lacks, join, views, join_strings, push_str};

verus! {

/// The escape character that starts terminal color codes.
pub open spec fn esc() -> char {
    '\u{1b}'
}

/// `c` does not occur in `s` from position `i` on (a form that literal
/// texts can be checked against one position after another).
pub open spec fn lacks_from(s: Seq<char>, c: char, i: int) -> bool
    decreases s.len() - i,
{
    if i >= s.len() || i < 0 {
        true
    } else {
        s[i] != c && lacks_from(s, c, i + 1)
    }
}

/// Checking from the start shows that `c` does not occur.
pub proof fn lemma_lacks_from(s: Seq<char>, c: char, i: int)
    requires
        0 <= i,
        lacks_from(s, c, i),
    ensures
        forall|j: int| i <= j < s.len() ==> s[j] != c,
    decreases s.len() - i,
{
    if i < s.len() {
        lemma_lacks_from(s, c, i + 1);
    }
}

/// A color or style of the help screen.
#[derive(Debug, Clone, Copy, PartialEq, Eq, Structural)]
pub enum Paint {
    Red,
    Cyan,
    Green,
    Bold,
}

/// The terminal code that starts a paint.
pub open spec fn paint_code(p: Paint) -> Seq<char> {
    match p {
        Paint::Red => "\u{1b}[31m"@,
        Paint::Cyan => "\u{1b}[36m"@,
        Paint::Green => "\u{1b}[32m"@,
        Paint::Bold => "\u{1b}[1m"@,
    }
}

/// The terminal code that ends a paint.
pub open spec fn reset_code() -> Seq<char> {
    "\u{1b}[0m"@
}

/// `shown` is `text` as a painted string shows: plain when the terminal
/// takes no colors, otherwise between the paint's code and the reset code.
pub open spec fn painted(shown: Seq<char>, text: Seq<char>, p: Paint) -> bool {
    shown == text || shown == paint_code(p) + text + reset_code()
}

/// `Colorize::red` on `text`, shown (`to_string`). Whether colors are shown
/// depends on the environment (`NO_COLOR`, `CLICOLOR`, ...), so both forms
/// are allowed; a text holding an escape character is not taken.
#[verifier::external_body]
fn paint_red(text: &str) -> (r: String)
    requires
        lacks(text@, esc()),
    ensures
        painted(r@, text@, Paint::Red),
{
    text.red().to_string()
}

/// `Colorize::cyan` on `text`, shown; as `paint_red`.
#[verifier::external_body]
fn paint_cyan(text: &str) -> (r: String)
    requires
        lacks(text@, esc()),
    ensures
        painted(r@, text@, Paint::Cyan),
{
    text.cyan().to_string()
}

/// `Colorize::green` on `text`, shown; as `paint_red`.
#[verifier::external_body]
fn paint_green(text: &str) -> (r: String)
    requires
        lacks(text@, esc()),
    ensures
        painted(r@, text@, Paint::Green),
{
    text.green().to_string()
}

/// `Colorize::bold` on `text`, shown; as `paint_red`.
#[verifier::external_body]
fn paint_bold(text: &str) -> (r: String)
    requires
        lacks(text@, esc()),
    ensures
        painted(r@, text@, Paint::Bold),
{
    text.bold().to_string()
}

/// The text of each painted piece of the help screen: the picture's pieces
/// line by line, then the rule, the title and the name.
pub open spec fn piece_text(k: int) -> Seq<char> {
    if k == 0 {
        "             ++++++++++++++++++++"@
    } else if k == 1 {
        "          +÷÷÷÷××××××××××××××××÷÷÷÷++"@
    } else if k == 2 {
        "        +-÷÷÷××××××××××××××××××××÷÷÷×+"@
    } else if k == 3 {
        "      +-÷÷÷××××××××××××××××××××××××÷÷÷++"@
    } else if k == 4 {
        "    ++÷÷÷×××××××××÷÷÷÷÷÷÷××××××××××××÷÷÷++"@
    } else if k == 5 {
        "  ++÷÷÷×××××××××÷÷÷÷+÷÷÷÷÷÷÷÷÷÷×××××××÷÷÷÷++"@
    } else if k == 6 {
        " +÷÷÷××××××××××÷÷÷++   +++++-÷÷÷÷×××××××÷÷÷÷++"@
    } else if k == 7 {
        " +÷÷×××××××××÷÷÷++            ++÷÷××××××××÷÷++"@
    } else if k == 8 {
        " +÷÷×××××××÷÷÷-+   "@
    } else if k == 9 {
        "+∞√√√∞++"@
    } else if k == 10 {
        "    +÷÷×××××××××÷++"@
    } else if k == 11 {
        " +÷÷××××××÷÷×++  "@
    } else if k == 12 {
        "+≈√√√√ππ√π√"@
    } else if k == 13 {
        "   +×÷÷÷×××××××÷++"@
    } else if k == 14 {
        " +÷÷××××÷÷÷÷++  "@
    } else if k == 15 {
        "∞√√√ππππππ√π+"@
    } else if k == 16 {
        "    +×÷÷÷×××××÷++"@
    } else if k == 17 {
        " +÷÷××÷÷÷÷++    "@
    } else if k == 18 {
        "+∞√√ππ√πππ√√√+"@
    } else if k == 19 {
        "    ++×÷÷÷×××÷++"@
    } else if k == 20 {
        " +÷÷÷÷÷÷++       "@
    } else if k == 21 {
        "+π√√ππππ√√√√+"@
    } else if k == 22 {
        "      ++÷÷÷÷×÷++"@
    } else if k == 23 {
        " +÷÷÷×++    +++   "@
    } else if k == 24 {
        "∞√ππ√√√√√+"@
    } else if k == 25 {
        "   ++     ++×÷÷÷++"@
    } else if k == 26 {
        " +÷÷+      +÷÷++     "@
    } else if k == 27 {
        "++≈∞+"@
    } else if k == 28 {
        "   ++÷÷÷++     +×÷++"@
    } else if k == 29 {
        " +++    ++×÷÷÷÷++++        ++÷÷÷÷÷÷÷++    ++++"@
    } else if k == 30 {
        "      ++-÷÷÷××÷÷÷÷÷÷×++++++÷÷÷÷×××÷÷÷÷++"@
    } else if k == 31 {
        "     +÷÷÷÷××××××××÷÷÷÷÷÷÷÷÷÷÷×××××××÷÷÷÷++"@
    } else if k == 32 {
        "     +×÷÷÷×××××××××××××××÷××××××××××÷÷÷÷+"@
    } else if k == 33 {
        "       +×÷÷÷××××××××××××××××××××××÷÷÷÷++"@
    } else if k == 34 {
        "        ++÷÷÷÷×××××××××××××××××××÷÷÷++"@
    } else if k == 35 {
        "            ++÷÷÷÷÷÷÷÷÷÷÷÷÷÷÷÷÷÷++"@
    } else if k == 36 {
        "-----------------------------------------------------------------"@
    } else if k == 37 {
        "A protogen CLI resource."@
    } else if k == 38 {
        ".prtgn"@
    } else {
        Seq::empty()
    }
}

/// The paint of each piece.
pub open spec fn piece_paint(k: int) -> Paint {
    if k == 9 || k == 12 || k == 15 || k == 18 || k == 21 || k == 24 || k == 27 || k == 36 {
        Paint::Cyan
    } else if k == 37 {
        Paint::Bold
    } else if k == 38 {
        Paint::Green
    } else {
        Paint::Red
    }
}

/// The number of painted pieces.
pub open spec fn piece_count() -> nat {
    39
}

/// Each shown piece is its text, painted.
pub open spec fn pieces_painted(p: Seq<Seq<char>>) -> bool {
    &&& p.len() == piece_count()
    &&& forall|k: int| 0 <= k < piece_count() ==> painted(#[trigger] p[k], piece_text(k), piece_paint(k))
}

/// Line `i` of the picture from the shown pieces: the first eight lines
/// and the last seven are one piece each; each line between them is three
/// pieces side by side.
pub open spec fn art_line(p: Seq<Seq<char>>, i: int) -> Seq<char> {
    if i < 8 {
        p[i]
    } else if i < 15 {
        p[3 * i - 16] + p[3 * i - 15] + p[3 * i - 14]
    } else {
        p[i + 14]
    }
}

/// The number of lines of the picture.
pub open spec fn art_line_count() -> nat {
    22
}

/// The lines of the picture from the shown pieces.
pub open spec fn art_lines(p: Seq<Seq<char>>) -> Seq<Seq<char>> {
    Seq::new(art_line_count(), |i: int| art_line(p, i))
}

/// The help screen from the shown pieces: the picture, then the notices
/// with the rule between them.
pub open spec fn about_text(p: Seq<Seq<char>>) -> Seq<char> {
    join(art_lines(p), '\n')
        + "\n\n    "@ + p[36]
        + "\n\n    "@ + p[37]
        + "\n\n    "@ + p[36]
        + "\n\n    "@ + p[38]
        + "  Copyright (C) 2026  PRTGN Development Team\n    This program comes with ABSOLUTELY NO WARRANTY.\n    This is free software, and you are welcome to redistribute it\n    under certain conditions.\n\n    Licensed under the GNU General Public License v3.0\n\n    "@ + p[36]
        + "\n\n    Artiy and official PRTGN artwork Copyright (C) 2025 by PRTGN Development Team\n    Licensed under Creative Commons Attribution-NonCommercial 4.0 International.\n    To view a copy of this license, visit https://creativecommons.org/licenses/by-nc/4.0/\n\n    PRTGN Official artwork can be found at this repo : https://github.com/PRTGN-Development-Team/PRTGN_Artwork\n\n    "@ + p[36]
        + "\n\n    Protogens, Primagens, and Zeniths Outer Reach (ZOR) were created by CoolKoinu.\n    All credit for Protogens, Primagens, and ZOR go to them and there team.\n\n\n    "@ + p[36]
        + "\n\n    Project inspired by Generic Purple Protogen (https://www.youtube.com/@genericpurpleprotogen1)\n\n    "@ + p[36]
}

/// The text of piece `k` of the help screen.
fn piece(k: usize) -> (r: &'static str)
    requires
        k < piece_count(),
    ensures
        r@ == piece_text(k as int),
{
    if k == 0 {
        "             ++++++++++++++++++++"
    } else if k == 1 {
        "          +÷÷÷÷××××××××××××××××÷÷÷÷++"
    } else if k == 2 {
        "        +-÷÷÷××××××××××××××××××××÷÷÷×+"
    } else if k == 3 {
        "      +-÷÷÷××××××××××××××××××××××××÷÷÷++"
    } else if k == 4 {
        "    ++÷÷÷×××××××××÷÷÷÷÷÷÷××××××××××××÷÷÷++"
    } else if k == 5 {
        "  ++÷÷÷×××××××××÷÷÷÷+÷÷÷÷÷÷÷÷÷÷×××××××÷÷÷÷++"
    } else if k == 6 {
        " +÷÷÷××××××××××÷÷÷++   +++++-÷÷÷÷×××××××÷÷÷÷++"
    } else if k == 7 {
        " +÷÷×××××××××÷÷÷++            ++÷÷××××××××÷÷++"
    } else if k == 8 {
        " +÷÷×××××××÷÷÷-+   "
    } else if k == 9 {
        "+∞√√√∞++"
    } else if k == 10 {
        "    +÷÷×××××××××÷++"
    } else if k == 11 {
        " +÷÷××××××÷÷×++  "
    } else if k == 12 {
        "+≈√√√√ππ√π√"
    } else if k == 13 {
        "   +×÷÷÷×××××××÷++"
    } else if k == 14 {
        " +÷÷××××÷÷÷÷++  "
    } else if k == 15 {
        "∞√√√ππππππ√π+"
    } else if k == 16 {
        "    +×÷÷÷×××××÷++"
    } else if k == 17 {
        " +÷÷××÷÷÷÷++    "
    } else if k == 18 {
        "+∞√√ππ√πππ√√√+"
    } else if k == 19 {
        "    ++×÷÷÷×××÷++"
    } else if k == 20 {
        " +÷÷÷÷÷÷++       "
    } else if k == 21 {
        "+π√√ππππ√√√√+"
    } else if k == 22 {
        "      ++÷÷÷÷×÷++"
    } else if k == 23 {
        " +÷÷÷×++    +++   "
    } else if k == 24 {
        "∞√ππ√√√√√+"
    } else if k == 25 {
        "   ++     ++×÷÷÷++"
    } else if k == 26 {
        " +÷÷+      +÷÷++     "
    } else if k == 27 {
        "++≈∞+"
    } else if k == 28 {
        "   ++÷÷÷++     +×÷++"
    } else if k == 29 {
        " +++    ++×÷÷÷÷++++        ++÷÷÷÷÷÷÷++    ++++"
    } else if k == 30 {
        "      ++-÷÷÷××÷÷÷÷÷÷×++++++÷÷÷÷×××÷÷÷÷++"
    } else if k == 31 {
        "     +÷÷÷÷××××××××÷÷÷÷÷÷÷÷÷÷÷×××××××÷÷÷÷++"
    } else if k == 32 {
        "     +×÷÷÷×××××××××××××××÷××××××××××÷÷÷÷+"
    } else if k == 33 {
        "       +×÷÷÷××××××××××××××××××××××÷÷÷÷++"
    } else if k == 34 {
        "        ++÷÷÷÷×××××××××××××××××××÷÷÷++"
    } else if k == 35 {
        "            ++÷÷÷÷÷÷÷÷÷÷÷÷÷÷÷÷÷÷++"
    } else if k == 36 {
        "-----------------------------------------------------------------"
    } else if k == 37 {
        "A protogen CLI resource."
    } else {
        ".prtgn"
    }
}

/// No piece holds an escape character, so each can be painted.
proof fn lemma_piece_plain(k: int)
    requires
        0 <= k < piece_count(),
    ensures
        lacks(piece_text(k), esc()),
{
    if k == 0 {
        reveal_strlit("             ++++++++++++++++++++");
    } else if k == 1 {
        reveal_strlit("          +÷÷÷÷××××××××××××××××÷÷÷÷++");
    } else if k == 2 {
        reveal_strlit("        +-÷÷÷××××××××××××××××××××÷÷÷×+");
    } else if k == 3 {
        reveal_strlit("      +-÷÷÷××××××××××××××××××××××××÷÷÷++");
    } else if k == 4 {
        reveal_strlit("    ++÷÷÷×××××××××÷÷÷÷÷÷÷××××××××××××÷÷÷++");
    } else if k == 5 {
        reveal_strlit("  ++÷÷÷×××××××××÷÷÷÷+÷÷÷÷÷÷÷÷÷÷×××××××÷÷÷÷++");
    } else if k == 6 {
        reveal_strlit(" +÷÷÷××××××××××÷÷÷++   +++++-÷÷÷÷×××××××÷÷÷÷++");
    } else if k == 7 {
        reveal_strlit(" +÷÷×××××××××÷÷÷++            ++÷÷××××××××÷÷++");
    } else if k == 8 {
        reveal_strlit(" +÷÷×××××××÷÷÷-+   ");
    } else if k == 9 {
        reveal_strlit("+∞√√√∞++");
    } else if k == 10 {
        reveal_strlit("    +÷÷×××××××××÷++");
    } else if k == 11 {
        reveal_strlit(" +÷÷××××××÷÷×++  ");
    } else if k == 12 {
        reveal_strlit("+≈√√√√ππ√π√");
    } else if k == 13 {
        reveal_strlit("   +×÷÷÷×××××××÷++");
    } else if k == 14 {
        reveal_strlit(" +÷÷××××÷÷÷÷++  ");
    } else if k == 15 {
        reveal_strlit("∞√√√ππππππ√π+");
    } else if k == 16 {
        reveal_strlit("    +×÷÷÷×××××÷++");
    } else if k == 17 {
        reveal_strlit(" +÷÷××÷÷÷÷++    ");
    } else if k == 18 {
        reveal_strlit("+∞√√ππ√πππ√√√+");
    } else if k == 19 {
        reveal_strlit("    ++×÷÷÷×××÷++");
    } else if k == 20 {
        reveal_strlit(" +÷÷÷÷÷÷++       ");
    } else if k == 21 {
        reveal_strlit("+π√√ππππ√√√√+");
    } else if k == 22 {
        reveal_strlit("      ++÷÷÷÷×÷++");
    } else if k == 23 {
        reveal_strlit(" +÷÷÷×++    +++   ");
    } else if k == 24 {
        reveal_strlit("∞√ππ√√√√√+");
    } else if k == 25 {
        reveal_strlit("   ++     ++×÷÷÷++");
    } else if k == 26 {
        reveal_strlit(" +÷÷+      +÷÷++     ");
    } else if k == 27 {
        reveal_strlit("++≈∞+");
    } else if k == 28 {
        reveal_strlit("   ++÷÷÷++     +×÷++");
    } else if k == 29 {
        reveal_strlit(" +++    ++×÷÷÷÷++++        ++÷÷÷÷÷÷÷++    ++++");
    } else if k == 30 {
        reveal_strlit("      ++-÷÷÷××÷÷÷÷÷÷×++++++÷÷÷÷×××÷÷÷÷++");
    } else if k == 31 {
        reveal_strlit("     +÷÷÷÷××××××××÷÷÷÷÷÷÷÷÷÷÷×××××××÷÷÷÷++");
    } else if k == 32 {
        reveal_strlit("     +×÷÷÷×××××××××××××××÷××××××××××÷÷÷÷+");
    } else if k == 33 {
        reveal_strlit("       +×÷÷÷××××××××××××××××××××××÷÷÷÷++");
    } else if k == 34 {
        reveal_strlit("        ++÷÷÷÷×××××××××××××××××××÷÷÷++");
    } else if k == 35 {
        reveal_strlit("            ++÷÷÷÷÷÷÷÷÷÷÷÷÷÷÷÷÷÷++");
    } else if k == 36 {
        reveal_strlit("-----------------------------------------------------------------");
    } else if k == 37 {
        reveal_strlit("A protogen CLI resource.");
    } else if k == 38 {
        reveal_strlit(".prtgn");
    }
    reveal_with_fuel(lacks_from, 70);
    lemma_lacks_from(piece_text(k), esc(), 0);
}

/// Piece `k` of the help screen, shown in its paint.
fn painted_piece(k: usize) -> (r: String)
    requires
        k < piece_count(),
    ensures
        painted(r@, piece_text(k as int), piece_paint(k as int)),
{
    let text = piece(k);
    proof {
        lemma_piece_plain(k as int);
    }
    if k == 9 || k == 12 || k == 15 || k == 18 || k == 21 || k == 24 || k == 27 || k == 36 {
        paint_cyan(text)
    } else if k == 37 {
        paint_bold(text)
    } else if k == 38 {
        paint_green(text)
    } else {
        paint_red(text)
    }
}

/// The lines of the picture from the shown pieces (`art_lines`).
fn picture_lines(pieces: &Vec<String>) -> (lines: Vec<String>)
    requires
        pieces@.len() == piece_count(),
    ensures
        views(lines@) == art_lines(views(pieces@)),
{
    let ghost p = views(pieces@);
    let mut lines: Vec<String> = Vec::new();
    let mut i: usize = 0;
    while i < 22
        invariant
            i <= 22,
            pieces@.len() == piece_count(),
            p == views(pieces@),
            views(lines@) == art_lines(p).take(i as int),
        decreases 22 - i,
    {
        let line = if i < 8 {
            pieces[i].clone()
        } else if i < 15 {
            let mut l = pieces[3 * i - 16].clone();
            push_str(&mut l, pieces[3 * i - 15].as_str());
            push_str(&mut l, pieces[3 * i - 14].as_str());
            l
        } else {
            pieces[i + 14].clone()
        };
        assert(line@ == art_line(p, i as int));
        let ghost before = lines@;
        lines.push(line);
        assert(views(lines@) =~= views(before).push(line@));
        assert(art_lines(p).take(i + 1) =~= art_lines(p).take(i as int).push(art_lines(p)[i as int]));
        i = i + 1;
    }
    assert(art_lines(p).take(22) =~= art_lines(p));
    lines
}

/// The sentence of the help screen that names the program's license.
pub open spec fn license_line() -> Seq<char> {
    "Licensed under the GNU General Public License v3.0"@
}

/// `t` stands somewhere in `s`.
pub open spec fn occurs_in(t: Seq<char>, s: Seq<char>) -> bool {
    exists|i: int| 0 <= i && i + t.len() <= s.len() && #[trigger] s.subrange(i, i + t.len()) == t
}

/// The help screen states the license the program is under, however its
/// pieces are painted.
pub proof fn lemma_about_states_license(p: Seq<Seq<char>>)
    ensures
        occurs_in(license_line(), about_text(p)),
{
    let pre = join(art_lines(p), '\n') + "\n\n    "@ + p[36] + "\n\n    "@ + p[37] + "\n\n    "@ + p[36] + "\n\n    "@ + p[38];
    let notice = "  Copyright (C) 2026  PRTGN Development Team\n    This program comes with ABSOLUTELY NO WARRANTY.\n    This is free software, and you are welcome to redistribute it\n    under certain conditions.\n\n    Licensed under the GNU General Public License v3.0\n\n    "@;
    reveal_strlit("  Copyright (C) 2026  PRTGN Development Team\n    This program comes with ABSOLUTELY NO WARRANTY.\n    This is free software, and you are welcome to redistribute it\n    under certain conditions.\n\n    Licensed under the GNU General Public License v3.0\n\n    ");
    reveal_strlit("Licensed under the GNU General Public License v3.0");
    assert(about_text(p).take(pre.len() + notice.len() as int) =~= pre + notice);
    let i: int = pre.len() + 198int;
    assert(notice.subrange(198, 248) =~= license_line());
    assert(about_text(p).subrange(i, i + license_line().len() as int) =~= notice.subrange(198, 248));
}

/// The help screen (`get_about`): the picture, its pieces painted red and
/// cyan, then the notices, the title bold, the name green and the rules
/// cyan. Each piece is shown plain or in its paint, as the terminal takes.
pub fn get_about() -> (r: String)
    ensures
        exists|p: Seq<Seq<char>>| #![trigger about_text(p)] pieces_painted(p) && r@ == about_text(p),
        occurs_in(license_line(), r@),
{
    let mut pieces: Vec<String> = Vec::new();
    let mut k: usize = 0;
    while k < 39
        invariant
            k <= 39,
            pieces@.len() == k,
            forall|j: int| 0 <= j < k ==> painted(#[trigger] pieces@[j]@, piece_text(j), piece_paint(j)),
        decreases 39 - k,
    {
        let shown = painted_piece(k);
        pieces.push(shown);
        k = k + 1;
    }
    let ghost p = views(pieces@);
    let lines = picture_lines(&pieces);
    let p36 = &pieces[36];
    let p37 = &pieces[37];
    let p38 = &pieces[38];
    let mut r = join_strings(&lines, '\n');
    push_str(&mut r, "\n\n    ");
    push_str(&mut r, p36.as_str());
    push_str(&mut r, "\n\n    ");
    push_str(&mut r, p37.as_str());
    push_str(&mut r, "\n\n    ");
    push_str(&mut r, p36.as_str());
    push_str(&mut r, "\n\n    ");
    push_str(&mut r, p38.as_str());
    push_str(&mut r, "  Copyright (C) 2026  PRTGN Development Team\n    This program comes with ABSOLUTELY NO WARRANTY.\n    This is free software, and you are welcome to redistribute it\n    under certain conditions.\n\n    Licensed under the GNU General Public License v3.0\n\n    ");
    push_str(&mut r, p36.as_str());
    push_str(&mut r, "\n\n    Artiy and official PRTGN artwork Copyright (C) 2025 by PRTGN Development Team\n    Licensed under Creative Commons Attribution-NonCommercial 4.0 International.\n    To view a copy of this license, visit https://creativecommons.org/licenses/by-nc/4.0/\n\n    PRTGN Official artwork can be found at this repo : https://github.com/PRTGN-Development-Team/PRTGN_Artwork\n\n    ");
    push_str(&mut r, p36.as_str());
    push_str(&mut r, "\n\n    Protogens, Primagens, and Zeniths Outer Reach (ZOR) were created by CoolKoinu.\n    All credit for Protogens, Primagens, and ZOR go to them and there team.\n\n\n    ");
    push_str(&mut r, p36.as_str());
    push_str(&mut r, "\n\n    Project inspired by Generic Purple Protogen (https://www.youtube.com/@genericpurpleprotogen1)\n\n    ");
    push_str(&mut r, p36.as_str());
    assert(pieces_painted(p));
    assert(r@ =~= about_text(p));
    proof {
        lemma_about_states_license(p);
    }
    r
}

} // verus!

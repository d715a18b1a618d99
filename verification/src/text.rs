//! Text utilities the rendering compositions are built on: breaking a
//! block of text into lines, rendering a count in decimal, and truncating
//! an issue description to a display width by character count.

use vstd::prelude::*;
use vstd::string::*;

verus! {

/// The lines of a text, scanned left to right with `cur` the characters
/// of the line begun so far: a newline ends the line begun (dropping one
/// carriage return just before the newline); characters after the last
/// newline form a final line unless there are none.
pub open spec fn text_lines_acc(s: Seq<char>, cur: Seq<char>) -> Seq<Seq<char>>
    decreases s.len(),
{
    if s.len() == 0 {
        if cur.len() == 0 {
            Seq::empty()
        } else {
            seq![cur]
        }
    } else if s[0] == '\n' {
        seq![strip_carriage_return(cur)] + text_lines_acc(s.drop_first(), Seq::empty())
    } else {
        text_lines_acc(s.drop_first(), cur.push(s[0]))
    }
}

/// A line with one trailing carriage return removed, as happens to the
/// text before each newline.
pub open spec fn strip_carriage_return(s: Seq<char>) -> Seq<char> {
    if s.len() > 0 && s[s.len() - 1] == '\r' {
        s.subrange(0, s.len() - 1)
    } else {
        s
    }
}

/// The lines of a text block.
pub open spec fn text_lines(s: Seq<char>) -> Seq<Seq<char>> {
    text_lines_acc(s, Seq::empty())
}

/// Splits a text into its lines.
pub fn split_text_lines(s: &str) -> (out: Vec<String>)
    ensures
        out@.map_values(|x: String| x@) == text_lines(s@),
{
    let n = s.unicode_len();
    let mut out: Vec<String> = Vec::new();
    let mut start: usize = 0;
    let mut i: usize = 0;
    proof {
        assert(s@.subrange(0, n as int) =~= s@);
        assert(s@.subrange(0, 0) =~= Seq::<char>::empty());
        assert(out@.map_values(|x: String| x@) + text_lines(s@) =~= text_lines(s@));
    }
    while i < n
        invariant
            start <= i <= n,
            n == s@.len(),
            forall|k: int| start <= k < i ==> s@[k] != '\n',
            text_lines(s@) == out@.map_values(|x: String| x@) + text_lines_acc(
                s@.subrange(i as int, n as int),
                s@.subrange(start as int, i as int),
            ),
        decreases n - i,
    {
        let ghost rest = s@.subrange(i as int, n as int);
        let ghost cur = s@.subrange(start as int, i as int);
        let c = s.get_char(i);
        proof {
            assert(rest[0] == c);
            assert(rest.drop_first() =~= s@.subrange(i + 1, n as int));
        }
        if c == '\n' {
            let end = if i > start && s.get_char(i - 1) == '\r' {
                i - 1
            } else {
                i
            };
            proof {
                assert(strip_carriage_return(cur) =~= s@.subrange(start as int, end as int));
            }
            let line = s.substring_char(start, end).to_owned();
            let ghost out_before = out@;
            out.push(line);
            proof {
                assert(out@.map_values(|x: String| x@) =~= out_before.map_values(
                    |x: String| x@,
                ) + seq![strip_carriage_return(cur)]);
                assert(s@.subrange(i + 1, n as int).len() == 0 ==> s@.subrange(
                    i + 1,
                    n as int,
                ) =~= Seq::<char>::empty());
                assert(Seq::<char>::empty() =~= s@.subrange(i + 1, i + 1));
            }
            start = i + 1;
        } else {
            proof {
                assert(cur.push(c) =~= s@.subrange(start as int, i + 1));
            }
        }
        i = i + 1;
    }
    proof {
        assert(s@.subrange(i as int, n as int) =~= Seq::<char>::empty());
        if start == n {
            assert(s@.subrange(start as int, n as int) =~= Seq::<char>::empty());
            assert(text_lines(s@) =~= out@.map_values(|x: String| x@));
        }
    }
    if start < n {
        let line = s.substring_char(start, n).to_owned();
        let ghost out_before = out@;
        out.push(line);
        proof {
            assert(out@.map_values(|x: String| x@) =~= out_before.map_values(|x: String| x@)
                + seq![s@.subrange(start as int, n as int)]);
        }
    }
    out
}

/// The character a decimal digit is written as.
pub open spec fn decimal_digit(d: int) -> char {
    if d == 0 {
        '0'
    } else if d == 1 {
        '1'
    } else if d == 2 {
        '2'
    } else if d == 3 {
        '3'
    } else if d == 4 {
        '4'
    } else if d == 5 {
        '5'
    } else if d == 6 {
        '6'
    } else if d == 7 {
        '7'
    } else if d == 8 {
        '8'
    } else {
        '9'
    }
}

/// The decimal rendering of a non-negative number: most significant
/// digit first, no leading zeros (a lone zero for 0).
pub open spec fn decimal_chars(n: int) -> Seq<char>
    decreases n,
{
    if n < 10 {
        seq![decimal_digit(n)]
    } else {
        decimal_chars(n / 10).push(decimal_digit(n % 10))
    }
}

/// The decimal rendering of a count, a leading minus sign when negative.
pub open spec fn signed_decimal_chars(n: int) -> Seq<char> {
    if n >= 0 {
        decimal_chars(n)
    } else {
        seq!['-'] + decimal_chars(-n)
    }
}

/// One decimal digit as text.
fn digit_str(d: u32) -> (r: &'static str)
    requires
        d < 10,
    ensures
        r@ == seq![decimal_digit(d as int)],
{
    proof {
        reveal_strlit("0");
        reveal_strlit("1");
        reveal_strlit("2");
        reveal_strlit("3");
        reveal_strlit("4");
        reveal_strlit("5");
        reveal_strlit("6");
        reveal_strlit("7");
        reveal_strlit("8");
        reveal_strlit("9");
    }
    let r = if d == 0 {
        "0"
    } else if d == 1 {
        "1"
    } else if d == 2 {
        "2"
    } else if d == 3 {
        "3"
    } else if d == 4 {
        "4"
    } else if d == 5 {
        "5"
    } else if d == 6 {
        "6"
    } else if d == 7 {
        "7"
    } else if d == 8 {
        "8"
    } else {
        "9"
    };
    proof {
        assert(r@ =~= seq![decimal_digit(d as int)]);
    }
    r
}

/// Writes a non-negative number in decimal.
pub fn u32_decimal(n: u32) -> (r: String)
    ensures
        r@ == decimal_chars(n as int),
    decreases n,
{
    if n < 10 {
        digit_str(n).to_owned()
    } else {
        let mut s = u32_decimal(n / 10);
        s.append(digit_str(n % 10));
        proof {
            assert(s@ =~= decimal_chars(n as int / 10).push(decimal_digit(n as int % 10)));
        }
        s
    }
}

/// Writes a count in decimal, a leading minus sign when negative.
pub fn count_decimal(n: i32) -> (r: String)
    ensures
        r@ == signed_decimal_chars(n as int),
{
    if n >= 0 {
        u32_decimal(n as u32)
    } else {
        let m: u32 = if n == i32::MIN {
            2147483648
        } else {
            (-n) as u32
        };
        assert(m as int == -(n as int));
        proof {
            reveal_strlit("-");
        }
        let mut s = "-".to_owned();
        proof {
            assert(s@ =~= seq!['-']);
        }
        let digits = u32_decimal(m);
        s.append(digits.as_str());
        s
    }
}

/// The optional description of a list row, reduced to its characters.
pub open spec fn description_view(d: Option<String>) -> Option<Seq<char>> {
    match d {
        Some(s) => Some(s@),
        None => None,
    }
}

/// Where an over-long description is cut so that the ellipsis fits the
/// width (at the start when the width cannot even hold the ellipsis).
pub open spec fn truncation_point(max_width: int) -> int {
    if max_width >= 3 {
        max_width - 3
    } else {
        0
    }
}

/// What the description cell of an issue row shows: "No description" when
/// the description is absent (absence and an empty description are
/// distinct); a present description unmodified when it fits in
/// `max_width` characters (an empty one therefore renders empty);
/// otherwise its first characters with a trailing ellipsis.
pub open spec fn display_description(desc: Option<Seq<char>>, max_width: int) -> Seq<char> {
    match desc {
        Some(d) => if d.len() <= max_width {
            d
        } else {
            d.subrange(0, truncation_point(max_width)) + "..."@
        },
        None => "No description"@,
    }
}

/// Renders the description cell of an issue row, truncating by character
/// count to the given width.
pub fn truncate_description(desc: &Option<String>, max_width: usize) -> (r: String)
    ensures
        r@ == display_description(description_view(*desc), max_width as int),
{
    match desc {
        Some(d) => {
            let len = d.as_str().unicode_len();
            if len <= max_width {
                d.clone()
            } else {
                let cut = if max_width >= 3 {
                    max_width - 3
                } else {
                    0
                };
                let mut t = d.as_str().substring_char(0, cut).to_owned();
                t.append("...");
                t
            }
        },
        None => "No description".to_owned(),
    }
}

/// Law: with room for the ellipsis, a description longer than the width
/// renders exactly `max_width` characters and ends with "..."; a present
/// one that fits renders unmodified; only an absent one renders exactly
/// "No description".
pub proof fn lemma_description_truncation(desc: Option<Seq<char>>, max_width: int)
    requires
        3 <= max_width,
    ensures
        (desc matches Some(d) && d.len() > max_width) ==> display_description(
            desc,
            max_width,
        ).len() == max_width,
        (desc matches Some(d) && d.len() > max_width) ==> display_description(
            desc,
            max_width,
        ).subrange(max_width - 3, max_width) == "..."@,
        (desc matches Some(d) && d.len() <= max_width) ==> display_description(
            desc,
            max_width,
        ) == desc.unwrap(),
        desc is None ==> display_description(desc, max_width) == "No description"@,
{
    reveal_strlit("...");
    if desc matches Some(d) && d.len() > max_width {
        assert(display_description(desc, max_width).subrange(max_width - 3, max_width)
            =~= "..."@);
    }
}

} // verus!

use vstd::prelude::*;

use crate::text::{digit_values, lemma_digit_values, two_digit_values, two_digit_vec};

verus! {

/// Large seven-segment style digits, each five rows of five characters.
pub const DIGITS: [[&'static str; 5]; 10] = [
    [" ███ ", "█   █", "█   █", "█   █", " ███ "],
    ["  █  ", " ██  ", "  █  ", "  █  ", " ███ "],
    [" ███ ", "    █", " ███ ", "█    ", "█████"],
    ["████ ", "    █", " ███ ", "    █", "████ "],
    ["█   █", "█   █", "█████", "    █", "    █"],
    ["█████", "█    ", "████ ", "    █", "████ "],
    [" ███ ", "█    ", "████ ", "█   █", " ███ "],
    ["█████", "    █", "   █ ", "  █  ", "  █  "],
    [" ███ ", "█   █", " ███ ", "█   █", " ███ "],
    [" ███ ", "█   █", " ████", "    █", " ███ "],
];

/// The colon between minutes and seconds, five rows of two characters.
pub const COLON: [&'static str; 5] = ["  ", "██", "  ", "██", "  "];

/// Row `row` of the large form of digit `d`.
pub open spec fn digit_row(d: int, row: int) -> Seq<char> {
    DIGITS@[d]@[row]@
}

/// Row `row` of a number's digits in large form, two spaces apart.
pub open spec fn digits_row(ds: Seq<usize>, row: int) -> Seq<char>
    decreases ds.len(),
{
    if ds.len() == 0 {
        Seq::empty()
    } else if ds.len() == 1 {
        digit_row(ds[0] as int, row)
    } else {
        digits_row(ds.drop_last(), row) + "  "@ + digit_row(ds.last() as int, row)
    }
}

/// Row `row` of `MM:SS` in large digits: the digits of the minutes and of
/// the seconds (each at least two, as `{:02}` writes them), with the colon
/// between, all two spaces apart.
pub open spec fn time_row(minutes: nat, seconds: nat, row: int) -> Seq<char> {
    digits_row(two_digit_values(minutes), row) + "  "@ + COLON@[row]@ + "  "@ + digits_row(
        two_digit_values(seconds),
        row,
    )
}

/// ASCII art for the large timer display.
pub struct DigitDisplay;

impl DigitDisplay {
    /// Row `row` of the digits `ds` in large form.
    fn digits_line(line: &mut String, ds: &Vec<usize>, row: usize)
        requires
            row < 5,
            forall|i: int| 0 <= i < ds@.len() ==> #[trigger] ds@[i] < 10,
        ensures
            final(line)@ == old(line)@ + digits_row(ds@, row as int),
    {
        let ghost start = line@;
        let mut i: usize = 0;
        while i < ds.len()
            invariant
                row < 5,
                i <= ds@.len(),
                forall|k: int| 0 <= k < ds@.len() ==> #[trigger] ds@[k] < 10,
                line@ == start + digits_row(ds@.take(i as int), row as int),
            decreases ds.len() - i,
        {
            let ghost before = line@;
            if i > 0 {
                line.append("  ");
            }
            line.append(DIGITS[ds[i]][row]);
            proof {
                let prefix = ds@.take(i + 1);
                assert(prefix.drop_last() =~= ds@.take(i as int));
                assert(prefix.last() == ds@[i as int]);
                if i == 0 {
                    assert(ds@.take(0) =~= Seq::<usize>::empty());
                    assert(line@ =~= start + digits_row(prefix, row as int));
                } else {
                    assert(line@ =~= start + digits_row(prefix, row as int));
                }
            }
            i = i + 1;
        }
        assert(ds@.take(ds@.len() as int) =~= ds@);
    }

    /// Renders `MM:SS` in large digits, as five rows. Minutes and seconds
    /// have at least two digits each.
    pub fn render_time(minutes: u64, seconds: u64) -> (lines: Vec<String>)
        ensures
            lines.len() == 5,
            forall|row: int| 0 <= row < 5 ==> #[trigger] lines@[row]@ == time_row(minutes as nat, seconds as nat, row),
    {
        let min_digits = two_digit_vec(minutes);
        let sec_digits = two_digit_vec(seconds);
        proof {
            lemma_digit_values(minutes as nat);
            lemma_digit_values(seconds as nat);
        }

        let mut lines: Vec<String> = Vec::new();
        for line_idx in 0..5usize
            invariant
                min_digits@ == two_digit_values(minutes as nat),
                sec_digits@ == two_digit_values(seconds as nat),
                forall|i: int| 0 <= i < min_digits@.len() ==> #[trigger] min_digits@[i] < 10,
                forall|i: int| 0 <= i < sec_digits@.len() ==> #[trigger] sec_digits@[i] < 10,
                lines.len() == line_idx,
                forall|row: int| 0 <= row < line_idx ==> #[trigger] lines@[row]@ == time_row(minutes as nat, seconds as nat, row),
        {
            let mut line = String::new();
            Self::digits_line(&mut line, &min_digits, line_idx);
            line.append("  ");
            line.append(COLON[line_idx]);
            line.append("  ");
            Self::digits_line(&mut line, &sec_digits, line_idx);
            assert(line@ =~= time_row(minutes as nat, seconds as nat, line_idx as int));
            lines.push(line);
        }
        lines
    }
}

/// Whether every character of `s` is a block or a space.
pub open spec fn blocks_and_spaces(s: Seq<char>) -> bool {
    forall|i: int| 0 <= i < s.len() ==> s[i] == '█' || s[i] == ' '
}

proof fn lemma_glyph_rows(d: int, row: int)
    requires
        0 <= d < 10,
        0 <= row < 5,
    ensures
        digit_row(d, row).len() == 5,
        blocks_and_spaces(digit_row(d, row)),
        COLON@[row]@.len() == 2,
        blocks_and_spaces(COLON@[row]@),
{
    reveal_strlit(" ███ ");
    reveal_strlit("█   █");
    reveal_strlit("  █  ");
    reveal_strlit(" ██  ");
    reveal_strlit("    █");
    reveal_strlit("█    ");
    reveal_strlit("█████");
    reveal_strlit("████ ");
    reveal_strlit("   █ ");
    reveal_strlit(" ████");
    reveal_strlit("  ");
    reveal_strlit("██");
}

/// A row of `k` large digits is `7k - 2` characters wide, blocks and spaces.
proof fn lemma_digits_row(ds: Seq<usize>, row: int)
    requires
        ds.len() >= 1,
        0 <= row < 5,
        forall|i: int| 0 <= i < ds.len() ==> #[trigger] ds[i] < 10,
    ensures
        digits_row(ds, row).len() == 7 * ds.len() - 2,
        blocks_and_spaces(digits_row(ds, row)),
    decreases ds.len(),
{
    reveal_strlit("  ");
    if ds.len() == 1 {
        lemma_glyph_rows(ds[0] as int, row);
    } else {
        lemma_digits_row(ds.drop_last(), row);
        lemma_glyph_rows(ds.last() as int, row);
        let a = digits_row(ds.drop_last(), row);
        let b = digit_row(ds.last() as int, row);
        assert(digits_row(ds, row) == a + "  "@ + b);
        assert forall|i: int| 0 <= i < digits_row(ds, row).len() implies digits_row(ds, row)[i]
            == '█' || digits_row(ds, row)[i] == ' ' by {
            if i < a.len() {
                assert(digits_row(ds, row)[i] == a[i]);
            } else if i < a.len() + 2 {
                assert(digits_row(ds, row)[i] == ' ');
            } else {
                assert(digits_row(ds, row)[i] == b[i - a.len() - 2]);
            }
        }
    }
}

/// Every row of the large `MM:SS` display is made of blocks and spaces only;
/// with minutes and seconds below a hundred it is thirty characters wide.
pub proof fn lemma_time_rows_are_blocks(minutes: nat, seconds: nat, row: int)
    requires
        0 <= row < 5,
    ensures
        blocks_and_spaces(time_row(minutes, seconds, row)),
        time_row(minutes, seconds, row).len() == 7 * (two_digit_values(minutes).len()
            + two_digit_values(seconds).len()) + 2,
        minutes < 100 && seconds < 100 ==> time_row(minutes, seconds, row).len() == 30,
{
    lemma_digit_values(minutes);
    lemma_digit_values(seconds);
    let ms = two_digit_values(minutes);
    let ss = two_digit_values(seconds);
    assert(forall|i: int| 0 <= i < ms.len() ==> #[trigger] ms[i] < 10);
    assert(forall|i: int| 0 <= i < ss.len() ==> #[trigger] ss[i] < 10);
    lemma_digits_row(ms, row);
    lemma_digits_row(ss, row);
    lemma_glyph_rows(0, row);
    reveal_strlit("  ");
    if minutes < 100 {
        if minutes >= 10 {
            assert(digit_values(minutes).len() == 2) by {
                reveal_with_fuel(digit_values, 3);
            }
        }
    }
    if seconds < 100 {
        if seconds >= 10 {
            assert(digit_values(seconds).len() == 2) by {
                reveal_with_fuel(digit_values, 3);
            }
        }
    }
    let a = digits_row(ms, row);
    let c = COLON@[row]@;
    let b = digits_row(ss, row);
    let t = time_row(minutes, seconds, row);
    assert(t == a + "  "@ + c + "  "@ + b);
    assert forall|i: int| 0 <= i < t.len() implies t[i] == '█' || t[i] == ' ' by {
        if i < a.len() {
            assert(t[i] == a[i]);
        } else if i < a.len() + 2 {
            assert(t[i] == ' ');
        } else if i < a.len() + 4 {
            assert(t[i] == c[i - a.len() - 2]);
        } else if i < a.len() + 6 {
            assert(t[i] == ' ');
        } else {
            assert(t[i] == b[i - a.len() - 6]);
        }
    }
}

} // verus!

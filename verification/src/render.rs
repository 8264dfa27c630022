use vstd::prelude::*;
use vstd::string::StringExecFns;
use vstd::string::StrSliceExecFns;
use vstd::string::StringSliceAdditionalSpecFns;
use vstd::utf8::encode_utf8;
use crate::text::{decimal, decimal_string, str_eq, trim_leading_zeros, trim_zeros};

verus! {

/// `n` copies of the character `c` (none where `n` is not positive).
pub open spec fn repeat(c: char, n: int) -> Seq<char> {
    Seq::new(
        if n > 0 {
            n as nat
        } else {
            0
        },
        |_j: int| c,
    )
}

/// The time axis from the `k`-th time of `crit` on, with the cursor at column `i`:
/// each time that the cursor has not passed and that lies before `last` is written as `|`
/// and its numeral, at its own column where the cursor allows. `None` where the cursor
/// would pass the largest 64-bit number.
pub open spec fn axis_from(crit: Seq<u64>, k: int, i: int, last: u64) -> Option<Seq<char>>
    decreases crit.len() - k,
{
    if k < 0 || k >= crit.len() {
        Option::Some(Seq::empty())
    } else {
        let t = crit[k];
        if t < i || t >= last {
            axis_from(crit, k + 1, i, last)
        } else {
            let label = seq!['|'] + decimal(t as nat);
            let next = t + label.len();
            if next > u64::MAX {
                Option::None
            } else {
                match axis_from(crit, k + 1, next, last) {
                    Option::Some(rest) => Option::Some(repeat(' ', t - i) + label + rest),
                    Option::None => Option::None,
                }
            }
        }
    }
}

/// The time axis over the marked times `crit`, starting at the column of the first one
/// and ending before the last one. `None` for no times at all, or where the column count
/// would pass the largest 64-bit number.
pub open spec fn spec_time_axis(crit: Seq<u64>) -> Option<Seq<char>> {
    if crit.len() == 0 {
        Option::None
    } else {
        axis_from(crit, 0, crit[0] as int, crit.last())
    }
}

/// Appends `n` copies of a one-character string to `out`.
fn push_repeat(out: &mut String, c: &str, n: u64)
    requires
        c@.len() == 1,
    ensures
        final(out)@ == old(out)@ + repeat(c@[0], n as int),
{
    let mut j: u64 = 0;
    while j < n
        invariant
            j <= n,
            c@.len() == 1,
            out@ == old(out)@ + repeat(c@[0], j as int),
        decreases n - j,
    {
        out.append(c);
        j = j + 1;
        assert(out@ =~= old(out)@ + repeat(c@[0], j as int));
    }
}

/// The time axis over the marked times `crit`: each time written as `|` and its numeral,
/// at its own column where the text before it leaves room.
pub fn time_axis(crit: &Vec<u64>) -> (r: Option<String>)
    ensures
        r is Some == spec_time_axis(crit@) is Some,
        r matches Option::Some(s) ==> spec_time_axis(crit@) == Option::Some(s@),
{
    if crit.len() == 0 {
        return Option::None;
    }
    let last = crit[crit.len() - 1];
    let mut out = String::new();
    let mut i: u64 = crit[0];
    let mut k: usize = 0;
    proof {
        reveal_strlit(" ");
        reveal_strlit("|");
    }
    while k < crit.len()
        invariant
            k <= crit.len(),
            crit.len() > 0,
            last == crit@.last(),
            " "@ == seq![' '],
            "|"@ == seq!['|'],
            spec_time_axis(crit@) == match axis_from(crit@, k as int, i as int, last) {
                Option::Some(rest) => Option::Some(out@ + rest),
                Option::None => Option::None,
            },
        decreases crit.len() - k,
    {
        let t = crit[k];
        if t < i || t >= last {
            k = k + 1;
        } else {
            let mut label = String::new();
            label.append("|");
            let digits = decimal_string(t);
            label.append(digits.as_str());
            let len = label.as_str().unicode_len();
            assert(label@ =~= seq!['|'] + decimal(t as nat));
            if len as u64 > u64::MAX - t {
                return Option::None;
            }
            let ghost before = out@;
            let ghost old_i = i;
            push_repeat(&mut out, " ", t - i);
            out.append(label.as_str());
            i = t + len as u64;
            k = k + 1;
            proof {
                let rest = axis_from(crit@, k as int, i as int, last);
                if rest is Some {
                    assert(before + (repeat(' ', t - old_i) + label@ + rest->0) =~= out@ + rest->0);
                }
            }
        }
    }
    Option::Some(out)
}

/// The timed values of a trace, as characters.
pub open spec fn values_view(data: Seq<(u64, String)>) -> Seq<(u64, Seq<char>)> {
    data.map_values(|p: (u64, String)| (p.0, p.1@))
}

/// The number of bytes of the UTF-8 encoding of a string.
pub open spec fn utf8_len(s: Seq<char>) -> int {
    encode_utf8(s).len() as int
}

/// The first position from `k` on whose value does not lie before column `i`.
pub open spec fn skip_before(data: Seq<(u64, Seq<char>)>, k: int, i: int) -> int
    decreases data.len() - k,
{
    if 0 <= k < data.len() && data[k].0 < i {
        skip_before(data, k + 1, i)
    } else {
        k
    }
}

/// The character that fills the row while a value holds: blank where the row shows that
/// value's level (a one on the lower row, a zero on the upper), else a line.
pub open spec fn fill_char(label: Seq<char>, top: bool) -> char {
    let trimmed = trim_zeros(label);
    if (trimmed == seq!['1'] && !top) || (trimmed.len() == 0 && top) {
        ' '
    } else {
        '_'
    }
}

/// The character that ends a value just before the next change: on the lower row a rising
/// edge after a zero, a falling edge after a one, a cross after anything else.
pub open spec fn edge_char(label: Seq<char>, top: bool) -> char {
    let trimmed = trim_zeros(label);
    if top {
        ' '
    } else if trimmed.len() == 0 {
        '/'
    } else if trimmed == seq!['1'] {
        '\\'
    } else {
        'X'
    }
}

/// The smaller of two numbers.
pub open spec fn min(a: int, b: int) -> int {
    if a < b {
        a
    } else {
        b
    }
}

/// The text that the value at position `k` writes into a row whose cursor is at column
/// `i`, with the column after it: the fill up to the column where its label is centred
/// between its time and the next change (or the end), the label on the lower row, then
/// the fill up to the column before the next change, which takes an edge. `None` where the
/// arithmetic on columns would leave the 64-bit range: a label longer than `end` or than
/// the time to the next change, or a column past the largest 64-bit number.
pub open spec fn value_text(data: Seq<(u64, Seq<char>)>, top: bool, end: u64, i: int, k: int) -> Option<
    (Seq<char>, int),
> {
    let t = data[k].0 as int;
    let label = data[k].1;
    let next_t: int = if k + 1 < data.len() {
        data[k + 1].0 as int
    } else {
        end as int
    };
    let len = utf8_len(label);
    if len > end || next_t < t + len {
        Option::None
    } else {
        let start = min(end - len, (next_t - t - len) / 2 + t);
        let fill = fill_char(label, top);
        let i1 = if i < start {
            start
        } else {
            i
        };
        let head = repeat(fill, start - i) + if top {
            Seq::empty()
        } else {
            label
        };
        let i2 = if top {
            i1
        } else {
            i1 + len
        };
        if i2 > u64::MAX {
            Option::None
        } else if i2 < end {
            let m = min(end as int, next_t);
            let i3 = if i2 + 1 < m {
                m - 1
            } else {
                i2
            };
            let c = if i3 + 1 == next_t {
                edge_char(label, top)
            } else {
                fill
            };
            Option::Some((head + repeat(fill, i3 - i2) + seq![c], i3 + 1))
        } else {
            Option::Some((head, i2))
        }
    }
}

/// One row of the waveform of a trace, from column `i` and the `k`-th value on, up to
/// column `end`: the values that start before the cursor are passed over, the next one
/// writes its text (see `value_text`), and with no value left a line fills the row.
pub open spec fn line_from(data: Seq<(u64, Seq<char>)>, top: bool, end: u64, i: int, k: int) -> Option<
    Seq<char>,
>
    decreases end - i,
{
    if i >= end {
        Option::Some(Seq::empty())
    } else {
        let k1 = skip_before(data, k, i);
        if k1 < 0 || k1 >= data.len() {
            Option::Some(repeat('_', end - i))
        } else {
            match value_text(data, top, end, i, k1) {
                Option::None => Option::None,
                Option::Some(piece) => if piece.1 >= end {
                    Option::Some(piece.0)
                } else {
                    match line_from(data, top, end, piece.1, k1 + 1) {
                        Option::Some(rest) => Option::Some(piece.0 + rest),
                        Option::None => Option::None,
                    }
                },
            }
        }
    }
}

/// One row of the waveform of a trace, from column `start` up to column `end`; the upper
/// row (`top`) or the lower one, which also carries the labels of the values.
pub open spec fn spec_draw_line(data: Seq<(u64, Seq<char>)>, start: u64, end: u64, top: bool) -> Option<
    Seq<char>,
> {
    line_from(data, top, end, start as int, 0)
}

/// Writes the text of the value at position `k` into `out`, with the cursor at column `i`
/// (see `value_text`); gives the column after it.
#[verifier::rlimit(90)]
#[verifier::spinoff_prover]
fn emit_value(out: &mut String, data: &Vec<(u64, String)>, k: usize, i: u64, end: u64, top: bool) -> (r:
    Option<u64>)
    requires
        k < data.len(),
        i < end,
    ensures
        value_text(values_view(data@), top, end, i as int, k as int) matches Option::Some(p) ==> r
            == Option::Some(p.1 as u64) && final(out)@ == old(out)@ + p.0 && i < p.1 <= u64::MAX,
        value_text(values_view(data@), top, end, i as int, k as int) is None ==> r is None,
{
    let ghost view = values_view(data@);
    proof {
        reveal_strlit(" ");
        reveal_strlit("_");
        reveal_strlit("/");
        reveal_strlit("\\");
        reveal_strlit("X");
        reveal_strlit("1");
    }
    let n = data.len();
    let t = data[k].0;
    let label: &str = data[k].1.as_str();
    assert(label@ == view[k as int].1);
    assert("1"@ =~= seq!['1']);
    assert(" "@ =~= seq![' ']);
    assert("_"@ =~= seq!['_']);
    assert("/"@ =~= seq!['/']);
    assert("\\"@ =~= seq!['\\']);
    assert("X"@ =~= seq!['X']);
    let trimmed = trim_leading_zeros(label);
    let is_zero = trimmed.is_empty();
    let is_one = str_eq(trimmed, "1");
    let fill: &str = if (is_one && !top) || (is_zero && top) {
        " "
    } else {
        "_"
    };
    assert(trimmed@ == trim_zeros(label@));
    assert(is_zero == (trim_zeros(label@).len() == 0));
    assert(is_one == (trim_zeros(label@) == seq!['1']));
    assert(fill@ == seq![fill_char(label@, top)]);
    let len = label.as_bytes().len() as u64;
    assert(len == utf8_len(label@));
    let next_t = if k + 1 < n {
        data[k + 1].0
    } else {
        end
    };
    if len > end || next_t < t || next_t - t < len {
        return Option::None;
    }
    let a = end - len;
    let b = (next_t - t - len) / 2 + t;
    let label_start = if a < b {
        a
    } else {
        b
    };
    let mut j = i;
    if i < label_start {
        push_repeat(out, fill, label_start - i);
        j = label_start;
    }
    if !top {
        if len > u64::MAX - j {
            return Option::None;
        }
        out.append(label);
        j = j + len;
    }
    let ghost head = out@;
    if j < end {
        let m = if end < next_t {
            end
        } else {
            next_t
        };
        let ghost j2 = j;
        if j + 1 < m {
            push_repeat(out, fill, m - 1 - j);
            j = m - 1;
        } else {
            push_repeat(out, fill, 0);
        }
        let edge: &str = if j + 1 == next_t {
            if top {
                " "
            } else if is_zero {
                "/"
            } else if is_one {
                "\\"
            } else {
                "X"
            }
        } else {
            fill
        };
        out.append(edge);
        j = j + 1;
    }
    Option::Some(j)
}

/// The first position from `k` on whose value does not lie before column `i`.
fn skip_past(data: &Vec<(u64, String)>, k: usize, i: u64) -> (r: usize)
    requires
        k <= data.len(),
    ensures
        r == skip_before(values_view(data@), k as int, i as int),
        k <= r <= data.len(),
{
    let ghost view = values_view(data@);
    let mut j = k;
    while j < data.len() && data[j].0 < i
        invariant
            k <= j <= data.len(),
            view == values_view(data@),
            skip_before(view, j as int, i as int) == skip_before(view, k as int, i as int),
        decreases data.len() - j,
    {
        j = j + 1;
    }
    j
}

/// A row from column `i` on, when the values before the cursor are passed over up to
/// position `k1`, is the text of the value at `k1` followed by the rest of the row.
proof fn lemma_line_step(data: Seq<(u64, Seq<char>)>, top: bool, end: u64, i: int, k: int, k1: int)
    requires
        i < end,
        k1 == skip_before(data, k, i),
        0 <= k1 < data.len(),
        value_text(data, top, end, i, k1) is Some,
    ensures
        line_from(data, top, end, i, k) == match line_from(
            data,
            top,
            end,
            (value_text(data, top, end, i, k1)->0).1,
            k1 + 1,
        ) {
            Option::Some(rest) => Option::Some((value_text(data, top, end, i, k1)->0).0 + rest),
            Option::None => Option::None,
        },
{
    let piece = value_text(data, top, end, i, k1)->0;
    if piece.1 >= end {
        assert(piece.0 + Seq::<char>::empty() =~= piece.0);
    }
}

/// One row of the waveform of the timed values `data`, from column `start` up to column
/// `end`: the upper row (`top`), or the lower one, which also carries the labels.
/// `None` where the arithmetic on columns would leave the 64-bit range.
pub fn draw_line(data: &Vec<(u64, String)>, start: u64, end: u64, top: bool) -> (r: Option<String>)
    ensures
        r is Some == spec_draw_line(values_view(data@), start, end, top) is Some,
        r matches Option::Some(s) ==> spec_draw_line(values_view(data@), start, end, top)
            == Option::Some(s@),
{
    let ghost view = values_view(data@);
    let ghost total = spec_draw_line(view, start, end, top);
    let n = data.len();
    let mut out = String::new();
    let mut i: u64 = start;
    let mut k: usize = 0;
    proof {
        reveal_strlit("_");
    }
    while i < end
        invariant
            n == data.len(),
            view == values_view(data@),
            total == spec_draw_line(view, start, end, top),
            k <= n,
            "_"@ == seq!['_'],
            total == match line_from(view, top, end, i as int, k as int) {
                Option::Some(rest) => Option::Some(out@ + rest),
                Option::None => Option::None,
            },
        decreases if i < end {
            end - i
        } else {
            0
        },
    {
        let ghost i0 = i;
        let ghost k0 = k;
        let ghost out0 = out@;
        k = skip_past(data, k, i);
        if k >= n {
            push_repeat(&mut out, "_", end - i);
            i = end;
            assert(out@ =~= out@ + Seq::<char>::empty());
        } else {
            match emit_value(&mut out, data, k, i, end, top) {
                Option::None => {
                    return Option::None;
                },
                Option::Some(next) => {
                    proof {
                        lemma_line_step(view, top, end, i0 as int, k0 as int, k as int);
                        let piece = value_text(view, top, end, i0 as int, k as int)->0;
                        let rest = line_from(view, top, end, next as int, k + 1);
                        if rest is Some {
                            assert(out0 + (piece.0 + rest->0) =~= out@ + rest->0);
                        }
                    }
                    i = next;
                    k = k + 1;
                },
            }
        }
    }
    assert(out@ =~= out@ + Seq::<char>::empty());
    Option::Some(out)
}

/// Whether a text holds only blanks and underscores.
pub open spec fn blank_or_line(s: Seq<char>) -> bool {
    forall|j: int| 0 <= j < s.len() ==> s[j] == ' ' || s[j] == '_'
}

proof fn lemma_upper_row_from(data: Seq<(u64, Seq<char>)>, end: u64, i: int, k: int)
    ensures
        line_from(data, true, end, i, k) matches Option::Some(s) ==> blank_or_line(s) && s.len()
            == if i < end {
            end - i
        } else {
            0
        },
    decreases end - i,
{
    if i < end {
        let k1 = skip_before(data, k, i);
        if 0 <= k1 < data.len() {
            if let Option::Some(piece) = value_text(data, true, end, i, k1) {
                if piece.1 < end {
                    lemma_upper_row_from(data, end, piece.1, k1 + 1);
                }
            }
        }
    }
}

/// The upper row of a waveform holds only blanks and underscores, one for each time step
/// of the window from `start` to `end`.
pub proof fn law_upper_row_plain(data: Seq<(u64, Seq<char>)>, start: u64, end: u64)
    ensures
        spec_draw_line(data, start, end, true) matches Option::Some(s) ==> blank_or_line(s) && s.len()
            == if start < end {
            end - start
        } else {
            0
        },
{
    lemma_upper_row_from(data, end, start as int, 0);
}

/// A trace without values draws, on either row, as a line of underscores across the window.
pub proof fn law_empty_trace_is_line(start: u64, end: u64, top: bool)
    ensures
        spec_draw_line(Seq::empty(), start, end, top) == Option::Some(repeat('_', end - start)),
{
    if start >= end {
        assert(repeat('_', end - start) =~= Seq::<char>::empty());
    }
}

/// Whether a value's text is all zeros: a logic low (or no digits at all).
pub open spec fn all_zeros(s: Seq<char>) -> bool {
    forall|j: int| 0 <= j < s.len() ==> s[j] == '0'
}

/// Whether a value's text is a logic high: a `1`, after any number of zeros.
pub open spec fn zeros_then_one(s: Seq<char>) -> bool {
    &&& s.len() >= 1
    &&& s.last() == '1'
    &&& forall|j: int| 0 <= j < s.len() - 1 ==> s[j] == '0'
}

/// Leading zeros removed, a text is empty exactly when it is all zeros, and is `1` exactly
/// when it is zeros then a `1`.
proof fn lemma_trim_zeros(s: Seq<char>)
    ensures
        (trim_zeros(s).len() == 0) == all_zeros(s),
        (trim_zeros(s) == seq!['1']) == zeros_then_one(s),
    decreases s.len(),
{
    if s.len() > 0 && s[0] == '0' {
        let t = s.drop_first();
        lemma_trim_zeros(t);
        assert(all_zeros(s) == all_zeros(t)) by {
            if all_zeros(t) {
                assert forall|j: int| 0 <= j < s.len() implies s[j] == '0' by {
                    if j > 0 {
                        assert(s[j] == t[j - 1]);
                    }
                }
            }
        }
        assert(zeros_then_one(s) == zeros_then_one(t)) by {
            if zeros_then_one(t) {
                assert forall|j: int| 0 <= j < s.len() - 1 implies s[j] == '0' by {
                    if j > 0 {
                        assert(s[j] == t[j - 1]);
                    }
                }
            }
            if zeros_then_one(s) {
                assert(s.len() >= 2);
            }
        }
    } else if s.len() > 0 {
        assert(!all_zeros(s));
        if s == seq!['1'] {
            assert(zeros_then_one(s));
        }
        if zeros_then_one(s) {
            assert(s.len() == 1);
            assert(s =~= seq!['1']);
        }
    }
}

/// The lower row of a trace with one value from the window's start holds the value's label
/// centred in the window, filled around with blanks where the value is a logic high (zeros
/// then a `1`) and with underscores otherwise (a logic low, or a bus value), and ends with
/// the value's edge: `/` after a low, `\` after a high, `X` after a bus value.
pub proof fn law_lower_row_single_value(label: Seq<char>, start: u64, end: u64)
    requires
        utf8_len(label) == label.len(),
        start + label.len() < end,
    ensures
        ({
            let fill = if zeros_then_one(label) {
                ' '
            } else {
                '_'
            };
            let edge = if all_zeros(label) {
                '/'
            } else if zeros_then_one(label) {
                '\\'
            } else {
                'X'
            };
            let before = (end - start - label.len()) / 2;
            spec_draw_line(seq![(start, label)], start, end, false) == Option::Some(
                repeat(fill, before) + label + repeat(fill, end - start - before - label.len() - 1)
                    + seq![edge],
            )
        }),
{
    lemma_trim_zeros(label);
    let data = seq![(start, label)];
    assert(skip_before(data, 0, start as int) == 0);
    assert(skip_before(data, 1, end as int) == 1);
    let piece = value_text(data, false, end, start as int, 0)->0;
    assert(piece.1 == end);
}

/// The upper row of a trace with one value from the window's start is blank where the value
/// is a logic low (all zeros) and a line otherwise, up to a blank in the last column.
pub proof fn law_upper_row_single_value(label: Seq<char>, start: u64, end: u64)
    requires
        utf8_len(label) == label.len(),
        start + label.len() < end,
    ensures
        ({
            let fill = if all_zeros(label) {
                ' '
            } else {
                '_'
            };
            spec_draw_line(seq![(start, label)], start, end, true) == Option::Some(
                repeat(fill, end - start - 1) + seq![' '],
            )
        }),
{
    lemma_trim_zeros(label);
    let data = seq![(start, label)];
    assert(skip_before(data, 0, start as int) == 0);
    assert(skip_before(data, 1, end as int) == 1);
    let before = (end - start - label.len()) / 2;
    let fill = fill_char(label, true);
    assert(repeat(fill, before) + Seq::<char>::empty() + repeat(fill, end - 1 - (start + before))
        =~= repeat(fill, end - start - 1));
}

/// The mark of a time on the axis: `|` and the time's numeral.
pub open spec fn mark(t: u64) -> Seq<char> {
    seq!['|'] + decimal(t as nat)
}

/// Whether the `j`-th marked time leaves room for its mark before the next time.
pub open spec fn mark_fits(crit: Seq<u64>, j: int) -> bool {
    crit[j] + mark(crit[j]).len() <= crit[j + 1]
}

/// Whether each marked time leaves room for its mark before the next.
pub open spec fn marks_fit(crit: Seq<u64>) -> bool {
    forall|j: int| 0 <= j < crit.len() - 1 ==> #[trigger] mark_fits(crit, j)
}

proof fn lemma_fit_increasing(crit: Seq<u64>, j: int, l: int)
    requires
        marks_fit(crit),
        0 <= j < l < crit.len(),
    ensures
        crit[j] < crit[l],
    decreases l - j,
{
    assert(mark_fits(crit, l - 1));
    if j < l - 1 {
        lemma_fit_increasing(crit, j, l - 1);
    }
}

proof fn lemma_axis_step(crit: Seq<u64>, k: int, i: int)
    requires
        0 <= k < crit.len() - 1,
        i <= crit[k] < crit.last(),
        crit[k] + mark(crit[k]).len() <= u64::MAX,
    ensures
        axis_from(crit, k, i, crit.last()) == match axis_from(
            crit,
            k + 1,
            crit[k] + mark(crit[k]).len(),
            crit.last(),
        ) {
            Option::Some(rest) => Option::Some(repeat(' ', crit[k] - i) + mark(crit[k]) + rest),
            Option::None => Option::None,
        },
{
}

proof fn lemma_subrange_after(pre: Seq<char>, rest: Seq<char>, a: int, b: int)
    requires
        pre.len() <= a <= b <= pre.len() + rest.len(),
    ensures
        (pre + rest).subrange(a, b) == rest.subrange(a - pre.len(), b - pre.len()),
{
    assert((pre + rest).subrange(a, b) =~= rest.subrange(a - pre.len(), b - pre.len()));
}

proof fn lemma_subrange_mark(blanks: Seq<char>, m: Seq<char>, rest: Seq<char>)
    ensures
        (blanks + m + rest).subrange(blanks.len() as int, (blanks.len() + m.len()) as int) == m,
{
    assert((blanks + m + rest).subrange(blanks.len() as int, (blanks.len() + m.len()) as int) =~= m);
}

proof fn lemma_axis_from_fit(crit: Seq<u64>, k: int, i: int)
    requires
        crit.len() >= 2,
        marks_fit(crit),
        0 <= k <= crit.len() - 1,
        i <= crit[k],
    ensures
        axis_from(crit, k, i, crit.last()) is Some,
        k < crit.len() - 1 ==> axis_from(crit, k, i, crit.last())->0.len() == crit[crit.len() - 2]
            + mark(crit[crit.len() - 2]).len() - i,
        k == crit.len() - 1 ==> axis_from(crit, k, i, crit.last())->0.len() == 0,
        forall|j: int|
            k <= j < crit.len() - 1 ==> (#[trigger] axis_from(crit, k, i, crit.last())->0).subrange(
                crit[j] - i,
                crit[j] - i + mark(crit[j]).len(),
            ) == mark(crit[j]),
    decreases crit.len() - k,
{
    let n = crit.len();
    let last = crit.last();
    if k == n - 1 {
        assert(axis_from(crit, k + 1, i, last) == Option::Some(Seq::<char>::empty()));
        assert(axis_from(crit, k, i, last) == axis_from(crit, k + 1, i, last));
    } else {
        let t = crit[k];
        lemma_fit_increasing(crit, k, n - 1);
        assert(mark_fits(crit, k));
        let m = mark(t);
        let next = t + m.len();
        lemma_axis_step(crit, k, i);
        lemma_axis_from_fit(crit, k + 1, next);
        let rest = axis_from(crit, k + 1, next, last)->0;
        let blanks = repeat(' ', t - i);
        let pre = blanks + m;
        let r = axis_from(crit, k, i, last)->0;
        assert(r == pre + rest);
        assert(pre.len() == next - i);
        assert forall|j: int| k <= j < n - 1 implies (#[trigger] axis_from(crit, k, i, last)->0).subrange(
            crit[j] - i,
            crit[j] - i + mark(crit[j]).len(),
        ) == mark(crit[j]) by {
            if j == k {
                lemma_subrange_mark(blanks, m, rest);
            } else {
                if j > k + 1 {
                    lemma_fit_increasing(crit, k + 1, j);
                }
                assert(mark_fits(crit, j));
                if j + 1 < n - 2 {
                    lemma_fit_increasing(crit, j + 1, n - 2);
                }
                lemma_subrange_after(pre, rest, crit[j] - i, crit[j] - i + mark(crit[j]).len());
            }
        }
        if k + 1 == n - 1 {
            assert(rest.len() == 0);
        }
    }
}

/// Where each marked time leaves room for its mark before the next, the axis writes every
/// time but the last as its mark at its own column, counted from the first time (the
/// column where the waveform rows start), and ends with the last of these marks.
pub proof fn law_axis_marks_at_their_columns(crit: Seq<u64>)
    requires
        crit.len() >= 2,
        marks_fit(crit),
    ensures
        spec_time_axis(crit) is Some,
        spec_time_axis(crit)->0.len() == crit[crit.len() - 2] + mark(crit[crit.len() - 2]).len()
            - crit[0],
        forall|j: int|
            0 <= j < crit.len() - 1 ==> (#[trigger] spec_time_axis(crit)->0).subrange(
                crit[j] - crit[0],
                crit[j] - crit[0] + mark(crit[j]).len(),
            ) == mark(crit[j]),
{
    lemma_axis_from_fit(crit, 0, crit[0] as int);
}

/// Where the first marked time lies before the last, the axis starts with the first time's
/// mark, at the first column, with nothing before it.
pub proof fn law_axis_starts_with_first_mark(crit: Seq<u64>)
    requires
        crit.len() >= 1,
        crit[0] < crit.last(),
    ensures
        spec_time_axis(crit) matches Option::Some(s) ==> s.len() >= mark(crit[0]).len()
            && s.subrange(0, mark(crit[0]).len() as int) == mark(crit[0]),
{
    let t = crit[0];
    let next = t + mark(t).len();
    if next <= u64::MAX {
        if let Option::Some(rest) = axis_from(crit, 1, next, crit.last()) {
            let s = repeat(' ', 0) + mark(t) + rest;
            assert(spec_time_axis(crit) == Option::Some(s));
            assert(s.subrange(0, mark(t).len() as int) =~= mark(t));
        }
    }
}

} // verus!

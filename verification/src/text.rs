//! Framing of log entries and the decimal text of version numbers.

use vstd::prelude::*;
use vstd::string::StringExecFns;

verus! {

/// The byte that separates the lines of a log entry.
pub const NEWLINE: u8 = 10;

/// The character for a decimal digit.
pub open spec fn digit_char(d: int) -> char {
    if d == 0 {
        '0'
    } else if d == 1 {
        '1'
    } else if d == 2 {
        '2'
    } else if d == 3 {
        '3'
    } else if d == 4 {
        '4'
    } else if d == 5 {
        '5'
    } else if d == 6 {
        '6'
    } else if d == 7 {
        '7'
    } else if d == 8 {
        '8'
    } else {
        '9'
    }
}

pub(crate) fn digit_str(d: u64) -> (s: &'static str)
    requires
        d < 10,
    ensures
        s@ == seq![digit_char(d as int)],
{
    proof {
        reveal_strlit("0");
        reveal_strlit("1");
        reveal_strlit("2");
        reveal_strlit("3");
        reveal_strlit("4");
        reveal_strlit("5");
        reveal_strlit("6");
        reveal_strlit("7");
        reveal_strlit("8");
        reveal_strlit("9");
    }
    let s = if d == 0 {
        "0"
    } else if d == 1 {
        "1"
    } else if d == 2 {
        "2"
    } else if d == 3 {
        "3"
    } else if d == 4 {
        "4"
    } else if d == 5 {
        "5"
    } else if d == 6 {
        "6"
    } else if d == 7 {
        "7"
    } else if d == 8 {
        "8"
    } else {
        "9"
    };
    assert(s@ =~= seq![digit_char(d as int)]);
    s
}

/// The lines joined by single newlines, with none at the end.
pub open spec fn join_lines(lines: Seq<Seq<u8>>) -> Seq<u8>
    decreases lines.len(),
{
    if lines.len() == 0 {
        Seq::empty()
    } else if lines.len() == 1 {
        lines[0]
    } else {
        join_lines(lines.drop_last()) + seq![NEWLINE] + lines.last()
    }
}

/// The pieces of `data` between its newlines. There is always at least one
/// piece: text without a newline is a single line.
pub open spec fn split_lines(data: Seq<u8>) -> Seq<Seq<u8>>
    decreases data.len(),
{
    if data.len() == 0 {
        seq![Seq::empty()]
    } else {
        let init = split_lines(data.drop_last());
        if data.last() == NEWLINE {
            init.push(Seq::empty())
        } else {
            init.drop_last().push(init.last().push(data.last()))
        }
    }
}

/// Whether `line` is free of newlines.
pub open spec fn single_line(line: Seq<u8>) -> bool {
    forall|i: int| 0 <= i < line.len() ==> line[i] != NEWLINE
}

/// Splitting never yields nothing.
pub proof fn lemma_split_nonempty(data: Seq<u8>)
    ensures
        split_lines(data).len() >= 1,
    decreases data.len(),
{
    if data.len() > 0 {
        lemma_split_nonempty(data.drop_last());
    }
}

/// Text that is appended without a newline extends the last line.
pub proof fn lemma_split_append_line(data: Seq<u8>, line: Seq<u8>)
    requires
        single_line(line),
    ensures
        split_lines(data + line) == split_lines(data).drop_last().push(
            split_lines(data).last() + line,
        ),
    decreases line.len(),
{
    lemma_split_nonempty(data);
    let parts = split_lines(data);
    if line.len() == 0 {
        assert(data + line =~= data);
        assert(parts.last() + line =~= parts.last());
        assert(parts.drop_last().push(parts.last()) =~= parts);
    } else {
        let shorter = line.drop_last();
        assert(single_line(shorter));
        lemma_split_append_line(data, shorter);
        assert((data + line).drop_last() =~= data + shorter);
        assert((data + line).last() == line.last());
        let init = split_lines(data + shorter);
        assert(init.last() == parts.last() + shorter);
        assert(init.drop_last() =~= parts.drop_last());
        assert((parts.last() + shorter).push(line.last()) =~= parts.last() + line);
    }
}

/// Splitting what joining produced gives the lines back, provided there is at
/// least one line and no line holds a newline.
pub proof fn lemma_split_join(lines: Seq<Seq<u8>>)
    requires
        lines.len() >= 1,
        forall|i: int| 0 <= i < lines.len() ==> single_line(#[trigger] lines[i]),
    ensures
        split_lines(join_lines(lines)) == lines,
    decreases lines.len(),
{
    if lines.len() == 1 {
        let empty = Seq::<u8>::empty();
        lemma_split_append_line(empty, lines[0]);
        assert(empty + lines[0] =~= lines[0]);
        assert(split_lines(empty) =~= seq![empty]);
        assert(seq![empty].drop_last().push(empty + lines[0]) =~= lines);
    } else {
        let init = lines.drop_last();
        assert(forall|i: int| 0 <= i < init.len() ==> single_line(#[trigger] init[i])) by {
            assert(forall|i: int| 0 <= i < init.len() ==> init[i] == lines[i]);
        }
        lemma_split_join(init);
        let joined = join_lines(init);
        let with_newline = joined + seq![NEWLINE];
        assert(with_newline.drop_last() =~= joined);
        assert(with_newline.last() == NEWLINE);
        assert(split_lines(with_newline) == init.push(Seq::<u8>::empty()));
        lemma_split_append_line(with_newline, lines.last());
        assert(Seq::<u8>::empty() + lines.last() =~= lines.last());
        assert(init.push(Seq::<u8>::empty()).drop_last() =~= init);
        assert(init.push(lines.last()) =~= lines);
    }
}

/// The UTF-8 bytes of each string.
pub open spec fn encoded_lines(lines: Seq<String>) -> Seq<Seq<u8>> {
    Seq::new(lines.len(), |i: int| vstd::utf8::encode_utf8(lines[i]@))
}

/// Joins the lines by newlines into one buffer.
pub fn join_encoded(lines: &Vec<String>) -> (data: Vec<u8>)
    ensures
        data@ == join_lines(encoded_lines(lines@)),
{
    let ghost all = encoded_lines(lines@);
    let mut data: Vec<u8> = Vec::new();
    let mut i: usize = 0;
    proof {
        assert(all.take(0) =~= Seq::<Seq<u8>>::empty());
    }
    while i < lines.len()
        invariant
            i <= lines.len(),
            all == encoded_lines(lines@),
            data@ == join_lines(all.take(i as int)),
        decreases lines.len() - i,
    {
        if i > 0 {
            data.push(NEWLINE);
        }
        let ghost start = data@;
        let bytes = lines[i].as_str().as_bytes();
        let mut j: usize = 0;
        while j < bytes.len()
            invariant
                j <= bytes.len(),
                data@ == start + bytes@.take(j as int),
            decreases bytes.len() - j,
        {
            data.push(bytes[j]);
            proof {
                assert(bytes@.take(j + 1) =~= bytes@.take(j as int).push(bytes@[j as int]));
            }
            j += 1;
        }
        proof {
            assert(bytes@.take(j as int) =~= bytes@);
            assert(bytes@ == all[i as int]);
            assert(all.take(i + 1).drop_last() =~= all.take(i as int));
            assert(all.take(i + 1).last() == all[i as int]);
            if i == 0 {
                assert(start + bytes@ =~= all[0]);
                assert(all.take(1)[0] == all[0]);
            } else {
                assert(all.take(i + 1).len() > 1);
            }
        }
        i += 1;
    }
    proof {
        assert(all.take(i as int) =~= all);
    }
    data
}

/// The lines of a log entry as byte sequences.
pub open spec fn line_views(lines: Seq<Vec<u8>>) -> Seq<Seq<u8>> {
    Seq::new(lines.len(), |i: int| lines[i]@)
}

/// Cuts a log entry into its lines.
pub fn split_log_entry(data: &[u8]) -> (lines: Vec<Vec<u8>>)
    ensures
        line_views(lines@) == split_lines(data@),
{
    let mut lines: Vec<Vec<u8>> = Vec::new();
    let mut current: Vec<u8> = Vec::new();
    let mut i: usize = 0;
    proof {
        assert(data@.take(0) =~= Seq::<u8>::empty());
        assert(line_views(lines@).push(current@) =~= seq![Seq::<u8>::empty()]);
    }
    while i < data.len()
        invariant
            i <= data.len(),
            line_views(lines@).push(current@) == split_lines(data@.take(i as int)),
        decreases data.len() - i,
    {
        let ghost done = line_views(lines@);
        let ghost open_line = current@;
        proof {
            assert(data@.take(i + 1).drop_last() =~= data@.take(i as int));
            assert(data@.take(i + 1).last() == data@[i as int]);
        }
        if data[i] == NEWLINE {
            lines.push(current);
            current = Vec::new();
            proof {
                assert(line_views(lines@) =~= done.push(open_line));
                assert(line_views(lines@).push(current@) =~= done.push(open_line).push(
                    Seq::<u8>::empty(),
                ));
            }
        } else {
            current.push(data[i]);
            proof {
                assert(done.push(open_line).drop_last() =~= done);
                assert(done.push(open_line).last() == open_line);
            }
        }
        i += 1;
    }
    let ghost done = line_views(lines@);
    lines.push(current);
    proof {
        assert(data@.take(i as int) =~= data@);
        assert(line_views(lines@) =~= done.push(current@));
    }
    lines
}

/// The decimal digits of `n`, most significant first, without leading zeros.
pub open spec fn decimal_digits(n: nat) -> Seq<char>
    decreases n,
{
    if n < 10 {
        seq![digit_char(n as int)]
    } else {
        decimal_digits(n / 10).push(digit_char((n % 10) as int))
    }
}

/// The decimal digits of `n`, padded with zeros on the left to at least
/// `width` characters.
pub open spec fn decimal_at_least(n: nat, width: nat) -> Seq<char> {
    let digits = decimal_digits(n);
    if digits.len() >= width {
        digits
    } else {
        Seq::new((width - digits.len()) as nat, |i: int| '0') + digits
    }
}

/// The decimal text of an integer, with a minus sign where it is negative.
pub open spec fn decimal_text(n: int) -> Seq<char> {
    if n < 0 {
        seq!['-'] + decimal_digits((-n) as nat)
    } else {
        decimal_digits(n as nat)
    }
}

/// Appends the decimal digits of `value`, padded with zeros to at least
/// `width` characters.
pub fn append_decimal(out: &mut String, value: u64, width: usize)
    ensures
        final(out)@ == old(out)@ + decimal_at_least(value as nat, width as nat),
{
    let ghost before = out@;
    let ghost digits = decimal_digits(value as nat);
    // The digits, least significant first.
    let mut reversed: Vec<u64> = Vec::new();
    let ghost mut tail: Seq<char> = Seq::empty();
    let mut rest = value;
    reversed.push(rest % 10);
    proof {
        tail = seq![digit_char((rest % 10) as int)];
    }
    rest = rest / 10;
    while rest > 0
        invariant
            digits == decimal_digits(value as nat),
            reversed@.len() == tail.len(),
            reversed@.len() >= 1,
            forall|i: int| 0 <= i < reversed@.len() ==> #[trigger] reversed@[i] < 10,
            forall|j: int|
                0 <= j < tail.len() ==> #[trigger] tail[j] == digit_char(
                    reversed@[tail.len() - 1 - j] as int,
                ),
            rest > 0 ==> digits == decimal_digits(rest as nat) + tail,
            rest == 0 ==> digits == tail,
        decreases rest,
    {
        let digit = rest % 10;
        let ghost old_tail = tail;
        let ghost old_reversed = reversed@;
        reversed.push(digit);
        proof {
            tail = seq![digit_char(digit as int)] + old_tail;
            assert forall|j: int| 0 <= j < tail.len() implies #[trigger] tail[j] == digit_char(
                reversed@[tail.len() - 1 - j] as int,
            ) by {
                if j > 0 {
                    assert(tail[j] == old_tail[j - 1]);
                    assert(reversed@[tail.len() - 1 - j] == old_reversed[old_tail.len() - 1 - (j
                        - 1)]);
                }
            }
            if rest >= 10 {
                assert(decimal_digits(rest as nat) == decimal_digits((rest / 10) as nat).push(
                    digit_char(digit as int),
                ));
                assert(decimal_digits((rest / 10) as nat).push(digit_char(digit as int))
                    + old_tail =~= decimal_digits((rest / 10) as nat) + tail);
            } else {
                assert(decimal_digits(rest as nat) + old_tail =~= tail);
            }
        }
        rest = rest / 10;
    }
    let count = reversed.len();
    let mut pad: usize = count;
    let ghost missing: nat = if width > count {
        (width - count) as nat
    } else {
        0
    };
    let ghost padding = Seq::new(missing, |i: int| '0');
    proof {
        assert(padding.take(0) =~= Seq::<char>::empty());
        assert(before + padding.take(0) =~= before);
    }
    while pad < width
        invariant
            count <= pad,
            pad <= width || pad == count,
            padding.len() == (if width > count { width - count } else { 0 }),
            forall|i: int| 0 <= i < padding.len() ==> padding[i] == '0',
            out@ == before + padding.take(pad - count),
        decreases width - pad,
    {
        out.append(digit_str(0));
        proof {
            assert(padding.take(pad + 1 - count) =~= padding.take(pad - count).push('0'));
            assert(out@ =~= before + padding.take(pad + 1 - count));
        }
        pad += 1;
    }
    proof {
        assert(padding.take(padding.len() as int) =~= padding);
    }
    let ghost padded = out@;
    let mut k: usize = 0;
    proof {
        assert(tail.take(0) =~= Seq::<char>::empty());
        assert(padded + tail.take(0) =~= padded);
    }
    while k < count
        invariant
            k <= count,
            count == reversed@.len(),
            count == tail.len(),
            forall|i: int| 0 <= i < reversed@.len() ==> #[trigger] reversed@[i] < 10,
            forall|j: int|
                0 <= j < tail.len() ==> #[trigger] tail[j] == digit_char(
                    reversed@[tail.len() - 1 - j] as int,
                ),
            out@ == padded + tail.take(k as int),
        decreases count - k,
    {
        let digit = reversed[count - 1 - k];
        out.append(digit_str(digit));
        proof {
            assert(tail.take(k + 1) =~= tail.take(k as int).push(tail[k as int]));
            assert(out@ =~= padded + tail.take(k + 1));
        }
        k += 1;
    }
    proof {
        assert(tail.take(count as int) =~= tail);
        assert(out@ =~= before + (padding + digits));
    }
}

/// The decimal text of an integer padded with zeros to `width` characters,
/// a minus sign counting as one of them.
pub open spec fn padded_integer_text(n: int, width: nat) -> Seq<char> {
    if n < 0 {
        seq!['-'] + decimal_at_least((-n) as nat, if width > 0 {
            (width - 1) as nat
        } else {
            0
        })
    } else {
        decimal_at_least(n as nat, width)
    }
}

/// Appends the decimal text of `value`, padded with zeros to `width`
/// characters.
pub fn append_padded_integer(out: &mut String, value: i64, width: usize)
    ensures
        final(out)@ == old(out)@ + padded_integer_text(value as int, width as nat),
{
    let ghost before = out@;
    if value < 0 {
        proof {
            reveal_strlit("-");
        }
        out.append("-");
        assert(out@ =~= before + seq!['-']);
        let magnitude: u64 = if value == i64::MIN {
            9_223_372_036_854_775_808
        } else {
            (-value) as u64
        };
        let rest = if width > 0 {
            width - 1
        } else {
            0
        };
        append_decimal(out, magnitude, rest);
        assert(out@ =~= before + padded_integer_text(value as int, width as nat));
    } else {
        append_decimal(out, value as u64, width);
    }
}

/// Appends the decimal text of `value`.
pub fn append_integer(out: &mut String, value: i64)
    ensures
        final(out)@ == old(out)@ + decimal_text(value as int),
{
    append_padded_integer(out, value, 0);
    assert(padded_integer_text(value as int, 0) =~= decimal_text(value as int));
}

} // verus!

use vstd::prelude::*;
use vstd::string::StringExecFns;

use crate::channel::SegmentChannel;
use crate::segment::Segment;

verus! {

/// The decimal digit character for `d` (meaningful for 0 through 9).
pub open spec fn digit_char(d: int) -> char {
    if d == 0 {
        '0'
    } else if d == 1 {
        '1'
    } else if d == 2 {
        '2'
    } else if d == 3 {
        '3'
    } else if d == 4 {
        '4'
    } else if d == 5 {
        '5'
    } else if d == 6 {
        '6'
    } else if d == 7 {
        '7'
    } else if d == 8 {
        '8'
    } else {
        '9'
    }
}

/// The decimal digits of `n`, most significant first, with no leading zero;
/// empty when `n` is zero or negative.
pub open spec fn dec_digits(n: int) -> Seq<char>
    decreases n,
{
    if n <= 0 {
        Seq::empty()
    } else {
        dec_digits(n / 10).push(digit_char(n % 10))
    }
}

/// The decimal rendering of `n`: "0" for zero, otherwise its digits with no
/// leading zero.
pub open spec fn dec_rep(n: int) -> Seq<char> {
    if n == 0 {
        seq!['0']
    } else {
        dec_digits(n)
    }
}

/// The characters of the digit values `ds`, most significant first, given
/// that `ds` stores them least significant first.
pub open spec fn rev_chars(ds: Seq<u64>) -> Seq<char> {
    Seq::new(ds.len(), |i: int| digit_char(ds[ds.len() - 1 - i] as int))
}

/// The one-character string for the decimal digit `d`.
fn digit_str(d: u64) -> (s: &'static str)
    requires
        d < 10,
    ensures
        s@ == seq![digit_char(d as int)],
{
    if d == 0 {
        proof {
            reveal_strlit("0");
            assert("0"@ =~= seq![digit_char(d as int)]);
        }
        "0"
    } else if d == 1 {
        proof {
            reveal_strlit("1");
            assert("1"@ =~= seq![digit_char(d as int)]);
        }
        "1"
    } else if d == 2 {
        proof {
            reveal_strlit("2");
            assert("2"@ =~= seq![digit_char(d as int)]);
        }
        "2"
    } else if d == 3 {
        proof {
            reveal_strlit("3");
            assert("3"@ =~= seq![digit_char(d as int)]);
        }
        "3"
    } else if d == 4 {
        proof {
            reveal_strlit("4");
            assert("4"@ =~= seq![digit_char(d as int)]);
        }
        "4"
    } else if d == 5 {
        proof {
            reveal_strlit("5");
            assert("5"@ =~= seq![digit_char(d as int)]);
        }
        "5"
    } else if d == 6 {
        proof {
            reveal_strlit("6");
            assert("6"@ =~= seq![digit_char(d as int)]);
        }
        "6"
    } else if d == 7 {
        proof {
            reveal_strlit("7");
            assert("7"@ =~= seq![digit_char(d as int)]);
        }
        "7"
    } else if d == 8 {
        proof {
            reveal_strlit("8");
            assert("8"@ =~= seq![digit_char(d as int)]);
        }
        "8"
    } else {
        proof {
            reveal_strlit("9");
            assert("9"@ =~= seq![digit_char(d as int)]);
        }
        "9"
    }
}

/// Renders `n` in decimal, the way the output line shows a timestamp.
pub fn decimal_string(n: u64) -> (s: String)
    ensures
        s@ == dec_rep(n as int),
{
    if n == 0 {
        let s = String::from_str("0");
        proof {
            reveal_strlit("0");
            assert(s@ =~= seq!['0']);
        }
        return s;
    }
    let mut digits: Vec<u64> = Vec::new();
    let mut m: u64 = n;
    while m > 0
        invariant
            forall|j: int| 0 <= j < digits@.len() ==> digits@[j] < 10,
            dec_digits(n as int) == dec_digits(m as int) + rev_chars(digits@),
        decreases m,
    {
        let ghost prev = digits@;
        let d = m % 10;
        digits.push(d);
        m = m / 10;
        proof {
            assert(rev_chars(digits@) =~= seq![digit_char(d as int)] + rev_chars(prev));
            assert(dec_digits(m as int).push(digit_char(d as int)) + rev_chars(prev) =~= dec_digits(
                m as int,
            ) + rev_chars(digits@));
        }
    }
    let ghost all = rev_chars(digits@);
    proof {
        assert(dec_digits(n as int) =~= all);
    }
    let mut s = String::new();
    let mut k: usize = digits.len();
    while k > 0
        invariant
            k <= digits@.len(),
            forall|j: int| 0 <= j < digits@.len() ==> digits@[j] < 10,
            all == rev_chars(digits@),
            s@ == all.take(digits@.len() - k),
        decreases k,
    {
        k = k - 1;
        let part = digit_str(digits[k]);
        s.append(part);
        proof {
            let j = digits@.len() - k - 1;
            assert(all[j] == digit_char(digits@[k as int] as int));
            assert(all.take(j + 1) =~= all.take(j).push(all[j]));
            assert(s@ =~= all.take(digits@.len() - k));
        }
    }
    proof {
        assert(s@ =~= dec_rep(n as int));
    }
    s
}

/// One output line for a segment: `[start -> end]: text`.
pub open spec fn render_spec(seg: Segment) -> Seq<char> {
    seq!['['] + dec_rep(seg.start_time as int) + seq![' ', '-', '>', ' '] + dec_rep(
        seg.end_time as int,
    ) + seq![']', ':', ' '] + seg.text@
}

/// The output sink's formatting step: the exact line printed for one
/// segment, `[start -> end]: text`, timestamps in decimal.
pub fn render_segment(seg: &Segment) -> (line: String)
    requires
        seg.wf(),
    ensures
        line@ == render_spec(*seg),
{
    let mut line = String::from_str("[");
    let start = decimal_string(seg.start_time as u64);
    line.append(start.as_str());
    line.append(" -> ");
    let end = decimal_string(seg.end_time as u64);
    line.append(end.as_str());
    line.append("]: ");
    line.append(seg.text.as_str());
    proof {
        reveal_strlit("[");
        reveal_strlit(" -> ");
        reveal_strlit("]: ");
        assert(line@ =~= render_spec(*seg));
    }
    line
}

/// The output sink's full pass over a channel whose producer is gone:
/// receives until the channel reports closed and formats each segment as
/// one output line, in exactly the order the segments were delivered.
pub fn drain_and_render(ch: &mut SegmentChannel) -> (lines: Vec<String>)
    requires
        old(ch).is_closed(),
        forall|j: int| 0 <= j < old(ch).contents().len() ==> old(ch).contents()[j].wf(),
    ensures
        lines@.len() == old(ch).contents().len(),
        forall|j: int| 0 <= j < lines@.len() ==> lines@[j]@ == render_spec(
            old(ch).contents()[j],
        ),
        final(ch).contents().len() == 0,
        final(ch).is_closed(),
{
    let segs = ch.drain();
    let mut lines: Vec<String> = Vec::new();
    let mut i: usize = 0;
    while i < segs.len()
        invariant
            i <= segs@.len(),
            segs@ == old(ch).contents(),
            forall|j: int| 0 <= j < segs@.len() ==> segs@[j].wf(),
            lines@.len() == i,
            forall|j: int| 0 <= j < i ==> lines@[j]@ == render_spec(segs@[j]),
        decreases segs@.len() - i,
    {
        let line = render_segment(&segs[i]);
        lines.push(line);
        i = i + 1;
    }
    lines
}

} // verus!

use vstd::prelude::*;
use vstd::string::*;

verus! {

/// Characters that count as indentation: every Unicode whitespace character
/// (those of Rust's `char::is_whitespace`) except the line break `'\n'`. So
/// the `'\r'` of a `"\r\n"` line break is indentation too.
pub open spec fn is_ws(c: char) -> bool {
    let u = c as u32;
    ||| u == 0x09 || u == 0x0B || u == 0x0C || u == 0x0D || u == 0x20
    ||| u == 0x85 || u == 0xA0 || u == 0x1680
    ||| 0x2000 <= u <= 0x200A
    ||| u == 0x2028 || u == 0x2029 || u == 0x202F || u == 0x205F || u == 0x3000
}

/// Whether `c` counts as indentation.
pub fn is_indent_char(c: char) -> (r: bool)
    ensures
        r == is_ws(c),
{
    let u = c as u32;
    u == 0x09 || u == 0x0B || u == 0x0C || u == 0x0D || u == 0x20 || u == 0x85 || u == 0xA0
        || u == 0x1680 || (0x2000 <= u && u <= 0x200A) || u == 0x2028 || u == 0x2029 || u
        == 0x202F || u == 0x205F || u == 0x3000
}

/// Number of leading indentation characters of a line.
pub open spec fn lead(l: Seq<char>) -> nat
    decreases l.len(),
{
    if l.len() > 0 && is_ws(l[0]) {
        1 + lead(l.drop_first())
    } else {
        0
    }
}

/// A line made of indentation alone (or empty).
pub open spec fn is_blank(l: Seq<char>) -> bool {
    lead(l) == l.len()
}

/// The lines of a text, split at each `'\n'`; a text always has at least one
/// line, and a trailing newline is followed by an empty line.
pub open spec fn split_lines(s: Seq<char>) -> Seq<Seq<char>>
    decreases s.len(),
{
    if s.len() == 0 {
        seq![Seq::empty()]
    } else {
        let prev = split_lines(s.drop_last());
        if s.last() == '\n' {
            prev.push(Seq::empty())
        } else {
            prev.update(prev.len() - 1, prev.last().push(s.last()))
        }
    }
}

/// The lines joined back with `'\n'` between them.
pub open spec fn join_lines(ls: Seq<Seq<char>>) -> Seq<char>
    decreases ls.len(),
{
    if ls.len() == 0 {
        Seq::empty()
    } else if ls.len() == 1 {
        ls[0]
    } else {
        join_lines(ls.drop_last()) + seq!['\n'] + ls.last()
    }
}

/// The smallest indentation among the lines that are not empty, if any; a
/// line of indentation alone counts with its whole length.
pub open spec fn min_lead(ls: Seq<Seq<char>>) -> Option<nat>
    decreases ls.len(),
{
    if ls.len() == 0 {
        None
    } else {
        let rest = min_lead(ls.drop_last());
        let l = ls.last();
        if l.len() == 0 {
            rest
        } else {
            match rest {
                None => Some(lead(l)),
                Some(m) => Some(if lead(l) < m { lead(l) } else { m }),
            }
        }
    }
}

/// The common indentation of a documentation text: the smallest indentation
/// of its non-empty lines after the first, or zero when there are none.
pub open spec fn indent_width(s: Seq<char>) -> nat {
    match min_lead(split_lines(s).drop_first()) {
        Some(m) => m,
        None => 0,
    }
}

/// A line with up to `m` of its leading indentation characters removed.
pub open spec fn strip(l: Seq<char>, m: nat) -> Seq<char> {
    let k = if m < lead(l) { m } else { lead(l) };
    l.subrange(k as int, l.len() as int)
}

/// The lines of `s` with the first kept and each later one stripped of `m`.
pub open spec fn stripped_lines(ls: Seq<Seq<char>>, m: nat) -> Seq<Seq<char>> {
    Seq::new(ls.len(), |i: int| if i == 0 { ls[0] } else { strip(ls[i], m) })
}

/// A documentation text with its common indentation removed from every line
/// but the first; empty lines and relative indentation are kept.
pub open spec fn unindent(s: Seq<char>) -> Seq<char> {
    join_lines(stripped_lines(split_lines(s), indent_width(s)))
}

/// Every text has at least one line.
pub proof fn lemma_split_lines_nonempty(s: Seq<char>)
    ensures
        split_lines(s).len() >= 1,
    decreases s.len(),
{
    if s.len() > 0 {
        lemma_split_lines_nonempty(s.drop_last());
    }
}

/// Indices `(start, end)` of each line of `s`, as `split_lines` gives them.
fn line_spans(s: &str) -> (r: Vec<(usize, usize)>)
    ensures
        r@.len() == split_lines(s@).len(),
        forall|i: int|
            0 <= i < r@.len() ==> {
                &&& #[trigger] r@[i].0 <= r@[i].1 <= s@.len()
                &&& s@.subrange(r@[i].0 as int, r@[i].1 as int) == split_lines(s@)[i]
            },
{
    let n = s.unicode_len();
    let mut spans: Vec<(usize, usize)> = Vec::new();
    let mut start: usize = 0;
    let mut k: usize = 0;
    while k < n
        invariant
            n == s@.len(),
            start <= k <= n,
            spans@.len() + 1 == split_lines(s@.subrange(0, k as int)).len(),
            s@.subrange(start as int, k as int) == split_lines(s@.subrange(0, k as int)).last(),
            forall|i: int|
                0 <= i < spans@.len() ==> {
                    &&& #[trigger] spans@[i].0 <= spans@[i].1 <= k
                    &&& s@.subrange(spans@[i].0 as int, spans@[i].1 as int) == split_lines(
                        s@.subrange(0, k as int),
                    )[i]
                },
        decreases n - k,
    {
        let c = s.get_char(k);
        let ghost pre = s@.subrange(0, k as int);
        let ghost cur = s@.subrange(0, k as int + 1);
        assert(cur.drop_last() =~= pre);
        assert(cur.last() == c);
        proof {
            lemma_split_lines_nonempty(pre);
        }
        if c == '\n' {
            spans.push((start, k));
            start = k + 1;
            assert(s@.subrange(start as int, k as int + 1) =~= Seq::<char>::empty());
        } else {
            assert(s@.subrange(start as int, k as int + 1) =~= s@.subrange(
                start as int,
                k as int,
            ).push(c));
        }
        k = k + 1;
    }
    assert(s@.subrange(0, n as int) =~= s@);
    spans.push((start, n));
    spans
}

/// Number of leading indentation characters of the line `s[a..b]`.
fn lead_of(s: &str, a: usize, b: usize) -> (r: usize)
    requires
        a <= b <= s@.len(),
    ensures
        r == lead(s@.subrange(a as int, b as int)),
        r <= b - a,
{
    let mut j: usize = a;
    while j < b
        invariant
            a <= j <= b <= s@.len(),
            lead(s@.subrange(a as int, b as int)) == (j - a) + lead(s@.subrange(j as int, b as int)),
        ensures
            a <= j <= b,
            lead(s@.subrange(a as int, b as int)) == j - a,
        decreases b - j,
    {
        let c = s.get_char(j);
        assert(s@.subrange(j as int, b as int)[0] == c);
        if !is_indent_char(c) {
            assert(lead(s@.subrange(j as int, b as int)) == 0);
            break;
        }
        assert(s@.subrange(j as int, b as int).drop_first() =~= s@.subrange(j as int + 1, b as int));
        j = j + 1;
    }
    proof {
        lemma_lead_le_len(s@.subrange(a as int, b as int));
    }
    j - a
}

/// Removes the common indentation of a documentation text: the smallest
/// indentation of the non-empty lines after the first (a line of indentation
/// alone included) is stripped from every line after the first.
/// The first line, line breaks and relative indentation are kept.
pub fn unindent_doc(doc: &str) -> (r: String)
    ensures
        r@ == unindent(doc@),
{
    let spans = line_spans(doc);
    let ghost ls = split_lines(doc@);
    proof {
        lemma_split_lines_nonempty(doc@);
    }
    let n = spans.len();
    let mut leads: Vec<usize> = Vec::new();
    let mut width: Option<usize> = None;
    let mut i: usize = 0;
    while i < n
        invariant
            n == spans@.len() == ls.len(),
            i <= n,
            leads@.len() == i,
            forall|q: int| 0 <= q < n ==> {
                &&& #[trigger] spans@[q].0 <= spans@[q].1 <= doc@.len()
                &&& doc@.subrange(spans@[q].0 as int, spans@[q].1 as int) == ls[q]
            },
            forall|q: int| 0 <= q < i ==> #[trigger] leads@[q] as nat == lead(ls[q]),
            i == 0 ==> width is None,
            i >= 1 ==> (match width {
                Some(w) => min_lead(ls.subrange(1, i as int)) == Some(w as nat),
                None => min_lead(ls.subrange(1, i as int)) is None,
            }),
        decreases n - i,
    {
        let (a, b) = spans[i];
        let l = lead_of(doc, a, b);
        leads.push(l);
        proof {
            lemma_lead_le_len(ls[i as int]);
        }
        if i >= 1 {
            let ghost cur = ls.subrange(1, i as int + 1);
            assert(cur.drop_last() =~= ls.subrange(1, i as int));
            assert(cur.last() == ls[i as int]);
            assert(ls[i as int].len() == b - a);
            if a < b {
                width = match width {
                    None => Some(l),
                    Some(w) => Some(if l < w { l } else { w }),
                };
            }

        } else {
            assert(ls.subrange(1, 1) =~= Seq::<Seq<char>>::empty());
        }
        i = i + 1;
    }
    let m: usize = match width {
        Some(w) => w,
        None => 0,
    };
    assert(ls.subrange(1, n as int) =~= ls.drop_first());
    let ghost u = stripped_lines(ls, m as nat);
    let mut out = String::new();
    out.append(doc.substring_char(spans[0].0, spans[0].1));
    assert(u.subrange(0, 1) =~= seq![u[0]]);
    let mut i: usize = 1;
    while i < n
        invariant
            1 <= i <= n,
            n == spans@.len() == ls.len() == u.len() == leads@.len(),
            u == stripped_lines(ls, m as nat),
            forall|q: int| 0 <= q < n ==> {
                &&& #[trigger] spans@[q].0 <= spans@[q].1 <= doc@.len()
                &&& doc@.subrange(spans@[q].0 as int, spans@[q].1 as int) == ls[q]
            },
            forall|q: int| 0 <= q < n ==> #[trigger] leads@[q] as nat == lead(ls[q]),
            out@ == join_lines(u.subrange(0, i as int)),
        decreases n - i,
    {
        let (a, b) = spans[i];
        let l = leads[i];
        let k = if m < l { m } else { l };
        proof {
            lemma_lead_le_len(ls[i as int]);
        }
        let ghost cur = u.subrange(0, i as int + 1);
        assert(cur.drop_last() =~= u.subrange(0, i as int));
        assert(doc@.subrange(a + k, b as int) =~= ls[i as int].subrange(k as int, ls[i as int].len() as int));
        proof {
            reveal_strlit("\n");
        }
        out.append("\n");
        out.append(doc.substring_char(a + k, b));
        i = i + 1;
    }
    assert(u.subrange(0, n as int) =~= u);
    out
}

/// Indentation never exceeds the line's length.
pub proof fn lemma_lead_le_len(l: Seq<char>)
    ensures
        lead(l) <= l.len(),
    decreases l.len(),
{
    if l.len() > 0 && is_ws(l[0]) {
        lemma_lead_le_len(l.drop_first());
    }
}

} // verus!

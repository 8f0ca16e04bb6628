use vstd::prelude::*;
use crate::unindent::{
    indent_width, is_blank, join_lines, lead, lemma_lead_le_len, lemma_split_lines_nonempty,
    min_lead, split_lines, strip, stripped_lines, unindent,
};

verus! {

/// The line holds no line break.
pub open spec fn no_newline(l: Seq<char>) -> bool {
    forall|k: int| 0 <= k < l.len() ==> l[k] != '\n'
}

/// `k` spaces.
pub open spec fn spaces(k: nat) -> Seq<char> {
    Seq::new(k, |i: int| ' ')
}

/// `l2` is `l` with `k` more spaces in front, unless `l` is empty.
pub open spec fn shifted(l: Seq<char>, l2: Seq<char>, k: nat) -> bool {
    if l.len() == 0 {
        l2 == l
    } else {
        l2 == spaces(k) + l
    }
}

proof fn lemma_split_no_newline(s: Seq<char>)
    ensures
        forall|i: int| 0 <= i < split_lines(s).len() ==> no_newline(#[trigger] split_lines(s)[i]),
    decreases s.len(),
{
    if s.len() > 0 {
        lemma_split_no_newline(s.drop_last());
        lemma_split_lines_nonempty(s.drop_last());
        let prev = split_lines(s.drop_last());
        if s.last() != '\n' {
            let l = prev.last().push(s.last());
            assert(no_newline(prev[prev.len() - 1]));
            assert(no_newline(l));
        }
    }
}

proof fn lemma_split_append_plain(x: Seq<char>, b: Seq<char>)
    requires
        no_newline(b),
    ensures
        split_lines(x + b) == split_lines(x).update(
            split_lines(x).len() - 1,
            split_lines(x).last() + b,
        ),
    decreases b.len(),
{
    lemma_split_lines_nonempty(x);
    let sx = split_lines(x);
    if b.len() == 0 {
        assert(x + b =~= x);
        assert(sx.last() + b =~= sx.last());
        assert(sx.update(sx.len() - 1, sx.last() + b) =~= sx);
    } else {
        let b2 = b.drop_last();
        assert(no_newline(b2));
        lemma_split_append_plain(x, b2);
        assert((x + b).drop_last() =~= x + b2);
        assert((x + b).last() == b.last());
        assert(b[b.len() - 1] != '\n');
        let prev = split_lines(x + b2);
        assert(prev.last() == sx.last() + b2);
        assert((sx.last() + b2).push(b.last()) =~= sx.last() + b);
        assert(prev.update(prev.len() - 1, prev.last().push(b.last())) =~= sx.update(
            sx.len() - 1,
            sx.last() + b,
        ));
    }
}

proof fn lemma_split_join(ls: Seq<Seq<char>>)
    requires
        ls.len() >= 1,
        forall|i: int| 0 <= i < ls.len() ==> no_newline(#[trigger] ls[i]),
    ensures
        split_lines(join_lines(ls)) == ls,
    decreases ls.len(),
{
    if ls.len() == 1 {
        let e = Seq::<char>::empty();
        assert(no_newline(ls[0]));
        lemma_split_append_plain(e, ls[0]);
        assert(e + ls[0] =~= ls[0]);
        assert(split_lines(e) == seq![e]);
        assert(e + ls[0] =~= ls[0]);
        assert(seq![e].update(0, e + ls[0]) =~= ls);
    } else {
        let init = ls.drop_last();
        assert forall|i: int| 0 <= i < init.len() implies no_newline(#[trigger] init[i]) by {
            assert(init[i] == ls[i]);
        }
        lemma_split_join(init);
        let y = join_lines(init) + seq!['\n'];
        assert(y.drop_last() =~= join_lines(init));
        assert(split_lines(y) == init.push(Seq::<char>::empty()));
        assert(no_newline(ls.last()));
        lemma_split_append_plain(y, ls.last());
        assert(join_lines(ls) == y + ls.last());
        assert(Seq::<char>::empty() + ls.last() =~= ls.last());
        assert(init.push(Seq::<char>::empty()).update(ls.len() - 1, Seq::<char>::empty() + ls.last())
            =~= ls);
    }
}

/// Removing `k` leading indentation characters lowers the indentation by `k`.
proof fn lemma_lead_drop(l: Seq<char>, k: nat)
    requires
        k <= lead(l),
    ensures
        lead(l.subrange(k as int, l.len() as int)) == lead(l) - k,
    decreases k,
{
    lemma_lead_le_len(l);
    if k == 0 {
        assert(l.subrange(0, l.len() as int) =~= l);
    } else {
        let d = l.drop_first();
        lemma_lead_drop(d, (k - 1) as nat);
        assert(d.subrange(k - 1, d.len() as int) =~= l.subrange(k as int, l.len() as int));
    }
}

proof fn lemma_strip_facts(l: Seq<char>, m: nat)
    ensures
        lead(strip(l, m)) == lead(l) - (if m < lead(l) { m } else { lead(l) }),
        is_blank(strip(l, m)) == is_blank(l),
        no_newline(l) ==> no_newline(strip(l, m)),
        m <= lead(l) ==> lead(strip(l, m)) == lead(l) - m,
{
    lemma_lead_le_len(l);
    let k: nat = if m < lead(l) { m } else { lead(l) };
    lemma_lead_drop(l, k);
    if no_newline(l) {
        let r = strip(l, m);
        assert forall|q: int| 0 <= q < r.len() implies r[q] != '\n' by {
            assert(r[q] == l[q + k]);
        }
    }
}

proof fn lemma_min_lead_bound(ls: Seq<Seq<char>>)
    ensures
        min_lead(ls) matches Some(v) ==> forall|i: int|
            0 <= i < ls.len() && #[trigger] ls[i].len() > 0 ==> v <= lead(ls[i]),
        min_lead(ls) is None <==> forall|i: int| 0 <= i < ls.len() ==> #[trigger] ls[i].len() == 0,
    decreases ls.len(),
{
    if ls.len() > 0 {
        let init = ls.drop_last();
        lemma_min_lead_bound(init);
        assert(ls.last() == ls[ls.len() - 1]);
        assert forall|i: int| 0 <= i < init.len() implies #[trigger] init[i] == ls[i] by {}
        if min_lead(ls) is None {
            assert forall|i: int| 0 <= i < ls.len() implies #[trigger] ls[i].len() == 0 by {
                if i < ls.len() - 1 {
                    assert(init[i].len() == 0);
                }
            }
        } else {
            let v = min_lead(ls)->0;
            assert forall|i: int| 0 <= i < ls.len() && #[trigger] ls[i].len() > 0 implies v <= lead(
                ls[i],
            ) by {
                if i < ls.len() - 1 {
                    assert(init[i].len() > 0);
                }
            }
            if forall|i: int| 0 <= i < ls.len() ==> #[trigger] ls[i].len() == 0 {
                assert(ls[ls.len() - 1].len() == 0);
                assert forall|i: int| 0 <= i < init.len() implies #[trigger] init[i].len() == 0 by {
                    assert(ls[i].len() == 0);
                }
            }
        }
    }
}

/// A non-empty line without indentation makes the smallest indentation zero.
proof fn lemma_min_lead_zero(ls: Seq<Seq<char>>, i: int)
    requires
        0 <= i < ls.len(),
        ls[i].len() > 0,
        lead(ls[i]) == 0,
    ensures
        min_lead(ls) == Some(0nat),
{
    lemma_min_lead_bound(ls);
}

proof fn lemma_min_lead_uniform(ls: Seq<Seq<char>>, n: nat)
    requires
        ls.len() >= 1,
        forall|i: int| 0 <= i < ls.len() ==> lead(#[trigger] ls[i]) == n && ls[i].len() > 0,
    ensures
        min_lead(ls) == Some(n),
    decreases ls.len(),
{
    let init = ls.drop_last();
    assert(ls.last() == ls[ls.len() - 1]);
    if init.len() >= 1 {
        assert forall|i: int| 0 <= i < init.len() implies lead(#[trigger] init[i]) == n && init[i].len()
            > 0 by {
            assert(init[i] == ls[i]);
        }
        lemma_min_lead_uniform(init, n);
    }
}

/// The lines of the normalized text are the stripped lines of the input.
proof fn lemma_unindent_lines(s: Seq<char>)
    ensures
        split_lines(unindent(s)) == stripped_lines(split_lines(s), indent_width(s)),
{
    let ls = split_lines(s);
    let m = indent_width(s);
    let u = stripped_lines(ls, m);
    lemma_split_lines_nonempty(s);
    lemma_split_no_newline(s);
    assert forall|i: int| 0 <= i < u.len() implies no_newline(#[trigger] u[i]) by {
        assert(no_newline(ls[i]));
        if i > 0 {
            lemma_strip_facts(ls[i], m);
        }
    }
    lemma_split_join(u);
}

/// The texts on which normalizing is idempotent: after the first line, some
/// line that is not blank has exactly the common indentation, or no line is
/// longer than it. Otherwise the common indentation was set by a line of
/// indentation alone, which normalizing empties, and a second pass strips
/// more.
pub open spec fn settles(s: Seq<char>) -> bool {
    let ls = split_lines(s);
    let m = indent_width(s);
    ||| exists|i: int| 1 <= i < ls.len() && lead(#[trigger] ls[i]) == m && !is_blank(ls[i])
    ||| forall|i: int| 1 <= i < ls.len() ==> #[trigger] ls[i].len() <= m
}

/// Normalizing documentation twice gives the same text as normalizing once,
/// on the texts where the common indentation settles in one pass.
pub proof fn lemma_unindent_idempotent(s: Seq<char>)
    requires
        settles(s),
    ensures
        unindent(unindent(s)) == unindent(s),
{
    let ls = split_lines(s);
    let m = indent_width(s);
    let u = stripped_lines(ls, m);
    let t = unindent(s);
    lemma_split_lines_nonempty(s);
    lemma_unindent_lines(s);
    let rest = ls.drop_first();
    let urest = u.drop_first();
    assert forall|i: int| 0 <= i < rest.len() implies #[trigger] rest[i] == ls[i + 1] by {}
    assert forall|i: int| 0 <= i < urest.len() implies #[trigger] urest[i] == strip(ls[i + 1], m) by {}
    lemma_min_lead_bound(rest);
    if exists|i: int| 1 <= i < ls.len() && lead(#[trigger] ls[i]) == m && !is_blank(ls[i]) {
        let i = choose|i: int| 1 <= i < ls.len() && lead(#[trigger] ls[i]) == m && !is_blank(ls[i]);
        lemma_strip_facts(ls[i], m);
        lemma_lead_le_len(ls[i]);
        assert(urest[i - 1] == strip(ls[i], m));
        lemma_min_lead_zero(urest, i - 1);
    } else {
        assert forall|i: int| 0 <= i < urest.len() implies #[trigger] urest[i].len() == 0 by {
            let l = ls[i + 1];
            assert(l.len() <= m);
            lemma_lead_le_len(l);
            if l.len() > 0 {
                assert(rest[i].len() > 0);
                if min_lead(rest) is None {
                    assert(rest[i].len() == 0);
                }
                assert(m <= lead(l));
            }
        }
        lemma_min_lead_bound(urest);
    }
    assert(indent_width(t) == 0);
    assert forall|i: int| 0 <= i < u.len() implies #[trigger] stripped_lines(u, 0)[i] == u[i] by {
        if i > 0 {
            assert(u[i].subrange(0, u[i].len() as int) =~= u[i]);
        }
    }
    assert(stripped_lines(u, 0) =~= u);
}

/// Documentation whose lines after the first are all indented by exactly `n`
/// whitespace characters (and are not blank) normalizes to the same lines
/// with that indentation removed: the first line is kept as it is, and every
/// later line starts without indentation.
pub proof fn lemma_unindent_uniform(s: Seq<char>, n: nat)
    requires
        split_lines(s).len() >= 2,
        forall|i: int|
            1 <= i < split_lines(s).len() ==> lead(#[trigger] split_lines(s)[i]) == n && n
                < split_lines(s)[i].len(),
    ensures
        split_lines(unindent(s)) == Seq::new(
            split_lines(s).len(),
            |i: int|
                if i == 0 {
                    split_lines(s)[0]
                } else {
                    split_lines(s)[i].subrange(n as int, split_lines(s)[i].len() as int)
                },
        ),
        split_lines(unindent(s)).len() == split_lines(s).len(),
        split_lines(unindent(s))[0] == split_lines(s)[0],
        forall|i: int|
            1 <= i < split_lines(s).len() ==> lead(#[trigger] split_lines(unindent(s))[i]) == 0,
{
    let ls = split_lines(s);
    let rest = ls.drop_first();
    assert forall|i: int| 0 <= i < rest.len() implies lead(#[trigger] rest[i]) == n && rest[i].len()
        > 0 by {
        assert(rest[i] == ls[i + 1]);
    }
    lemma_min_lead_uniform(rest, n);
    assert(indent_width(s) == n);
    lemma_unindent_lines(s);
    let u = stripped_lines(ls, n);
    assert forall|i: int| 1 <= i < ls.len() implies lead(#[trigger] u[i]) == 0 by {
        lemma_strip_facts(ls[i], n);
    }
    assert(u =~= Seq::new(
        ls.len(),
        |i: int|
            if i == 0 {
                ls[0]
            } else {
                ls[i].subrange(n as int, ls[i].len() as int)
            },
    ));
}

proof fn lemma_lead_spaces(k: nat, l: Seq<char>)
    ensures
        lead(spaces(k) + l) == k + lead(l),
    decreases k,
{
    if k > 0 {
        let t = spaces(k) + l;
        assert(t[0] == ' ');
        assert(t.drop_first() =~= spaces((k - 1) as nat) + l);
        lemma_lead_spaces((k - 1) as nat, l);
    } else {
        assert(spaces(0) + l =~= l);
    }
}

proof fn lemma_min_lead_shift(ls: Seq<Seq<char>>, ls2: Seq<Seq<char>>, k: nat)
    requires
        ls2.len() == ls.len(),
        forall|i: int| 0 <= i < ls.len() ==> shifted(#[trigger] ls[i], ls2[i], k),
    ensures
        min_lead(ls2) == (match min_lead(ls) {
            Some(v) => Some(v + k),
            None => None,
        }),
    decreases ls.len(),
{
    if ls.len() > 0 {
        let init = ls.drop_last();
        let init2 = ls2.drop_last();
        assert forall|i: int| 0 <= i < init.len() implies shifted(#[trigger] init[i], init2[i], k) by {
            assert(shifted(ls[i], ls2[i], k));
        }
        lemma_min_lead_shift(init, init2, k);
        let l = ls.last();
        assert(shifted(ls[ls.len() - 1], ls2[ls.len() - 1], k));
        if l.len() > 0 {
            lemma_lead_spaces(k, l);
        }
    }
}

/// Adding the same number of spaces in front of every non-empty line after
/// the first does not change the normalized documentation.
pub proof fn lemma_unindent_extra_indent(s: Seq<char>, s2: Seq<char>, k: nat)
    requires
        split_lines(s2).len() == split_lines(s).len(),
        split_lines(s2)[0] == split_lines(s)[0],
        forall|i: int|
            1 <= i < split_lines(s).len() ==> shifted(
                #[trigger] split_lines(s)[i],
                split_lines(s2)[i],
                k,
            ),
    ensures
        unindent(s2) == unindent(s),
{
    let ls = split_lines(s);
    let ls2 = split_lines(s2);
    lemma_split_lines_nonempty(s);
    let rest = ls.drop_first();
    let rest2 = ls2.drop_first();
    assert forall|i: int| 0 <= i < rest.len() implies shifted(#[trigger] rest[i], rest2[i], k) by {
        assert(shifted(ls[i + 1], ls2[i + 1], k));
    }
    lemma_min_lead_shift(rest, rest2, k);
    lemma_min_lead_bound(rest);
    let m = indent_width(s);
    let m2 = indent_width(s2);
    let u = stripped_lines(ls, m);
    let u2 = stripped_lines(ls2, m2);
    assert forall|i: int| 0 <= i < u.len() implies #[trigger] u2[i] == u[i] by {
        if i > 0 {
            let l = ls[i];
            let l2 = ls2[i];
            assert(shifted(l, l2, k));
            assert(rest[i - 1] == l);
            lemma_lead_le_len(l);
            if l.len() == 0 {
                assert(l2 == l);
                assert(strip(l, m) =~= l);
                assert(strip(l2, m2) =~= l2);
            } else {
                assert(min_lead(rest) is Some);
                assert(m <= lead(l));
                lemma_lead_spaces(k, l);
                assert(m2 == m + k);
                assert(strip(l2, m2) =~= strip(l, m));
            }
        }
    }
    assert(u2 =~= u);
}

} // verus!

//! Character-level helpers: Unicode white space, trimming and splitting.

use vstd::prelude::*;

verus! {

/// The Unicode `White_Space` property (PropList.txt), which is what
/// `char::is_whitespace` and `str::trim` go by.
pub open spec fn is_white_space(c: char) -> bool {
    let u = c as u32;
    ||| 0x09 <= u <= 0x0D
    ||| u == 0x20
    ||| u == 0x85
    ||| u == 0xA0
    ||| u == 0x1680
    ||| 0x2000 <= u <= 0x200A
    ||| u == 0x2028
    ||| u == 0x2029
    ||| u == 0x202F
    ||| u == 0x205F
    ||| u == 0x3000
}

/// `s` without its leading white space.
pub open spec fn trim_start(s: Seq<char>) -> Seq<char>
    decreases s.len(),
{
    if s.len() > 0 && is_white_space(s[0]) {
        trim_start(s.drop_first())
    } else {
        s
    }
}

/// `s` without its trailing white space.
pub open spec fn trim_end(s: Seq<char>) -> Seq<char>
    decreases s.len(),
{
    if s.len() > 0 && is_white_space(s.last()) {
        trim_end(s.drop_last())
    } else {
        s
    }
}

/// `s` without leading and trailing white space, as `str::trim` gives it.
pub open spec fn trimmed(s: Seq<char>) -> Seq<char> {
    trim_end(trim_start(s))
}

/// Whether `c` has the Unicode `White_Space` property.
pub fn white_space(c: char) -> (r: bool)
    ensures
        r == is_white_space(c),
{
    let u: u32 = c as u32;
    (0x09 <= u && u <= 0x0D) || u == 0x20 || u == 0x85 || u == 0xA0 || u == 0x1680 || (0x2000
        <= u && u <= 0x200A) || u == 0x2028 || u == 0x2029 || u == 0x202F || u == 0x205F || u
        == 0x3000
}

/// The characters of `s`, one per element.
pub fn chars_of(s: &str) -> (v: Vec<char>)
    ensures
        v@ == s@,
{
    let mut v: Vec<char> = Vec::new();
    for c in it: s.chars()
        invariant
            v.len() == it.index(),
            it.seq() == s@,
            forall|i: int| 0 <= i < v.len() ==> v@[i] == s@[i],
    {
        v.push(c);
    }
    assert(v@ =~= s@);
    v
}

/// Indices `(i, j)` such that `s[i..j]` is `s` trimmed.
fn trim_bounds(v: &Vec<char>) -> (r: (usize, usize))
    ensures
        r.0 <= r.1 <= v.len(),
        v@.subrange(r.0 as int, r.1 as int) == trimmed(v@),
{
    let n = v.len();
    let mut i: usize = 0;
    assert(v@.subrange(0, n as int) =~= v@);
    while i < n && white_space(v[i])
        invariant
            0 <= i <= n,
            n == v.len(),
            trim_start(v@) == trim_start(v@.subrange(i as int, n as int)),
        decreases n - i,
    {
        assert(v@.subrange(i as int, n as int).drop_first() =~= v@.subrange(i + 1, n as int));
        i = i + 1;
    }
    assert(trim_start(v@) == v@.subrange(i as int, n as int));
    let mut j: usize = n;
    while j > i && white_space(v[j - 1])
        invariant
            i <= j <= n,
            n == v.len(),
            trim_start(v@) == v@.subrange(i as int, n as int),
            trimmed(v@) == trim_end(v@.subrange(i as int, j as int)),
        decreases j,
    {
        assert(v@.subrange(i as int, j as int).drop_last() =~= v@.subrange(i as int, j - 1));
        j = j - 1;
    }
    (i, j)
}

/// `s` without leading and trailing white space (`str::trim`).
pub fn trim(s: &str) -> (r: String)
    ensures
        r@ == trimmed(s@),
{
    let v = chars_of(s);
    let (i, j) = trim_bounds(&v);
    String::from_str(s.substring_char(i, j))
}

/// Whether `a` and `b` hold the same characters.
pub fn same_text(a: &str, b: &str) -> (r: bool)
    ensures
        r == (a@ == b@),
{
    a.to_owned() == b.to_owned()
}

/// The pieces of `s` between commas, as `str::split(',')` yields them:
/// one more piece than there are commas, empty pieces included.
pub open spec fn split_commas(s: Seq<char>) -> Seq<Seq<char>>
    decreases s.len(),
{
    if s.len() == 0 {
        seq![Seq::<char>::empty()]
    } else {
        let p = split_commas(s.drop_last());
        if s.last() == ',' {
            p.push(Seq::<char>::empty())
        } else {
            p.update(p.len() - 1, p.last().push(s.last()))
        }
    }
}

/// Every piece trimmed, the pieces that are then empty left out, the
/// order kept.
pub open spec fn trimmed_nonempty(pieces: Seq<Seq<char>>) -> Seq<Seq<char>>
    decreases pieces.len(),
{
    if pieces.len() == 0 {
        Seq::empty()
    } else {
        let rest = trimmed_nonempty(pieces.drop_last());
        let t = trimmed(pieces.last());
        if t.len() > 0 {
            rest.push(t)
        } else {
            rest
        }
    }
}

/// The character sequences of a list of strings.
pub open spec fn string_views(v: Seq<String>) -> Seq<Seq<char>> {
    v.map_values(|x: String| x@)
}

/// `trim_start(s)` is what follows a run of white space at the start of
/// `s`, and does not itself start with white space.
proof fn lemma_trim_start_bound(s: Seq<char>) -> (k: int)
    ensures
        0 <= k <= s.len(),
        trim_start(s) == s.subrange(k, s.len() as int),
        forall|j: int| 0 <= j < k ==> is_white_space(#[trigger] s[j]),
        k < s.len() ==> !is_white_space(s[k]),
    decreases s.len(),
{
    if s.len() > 0 && is_white_space(s[0]) {
        let k0 = lemma_trim_start_bound(s.drop_first());
        assert(s.drop_first().subrange(k0, s.len() - 1) =~= s.subrange(k0 + 1, s.len() as int));
        assert forall|j: int| 0 <= j < k0 + 1 implies is_white_space(#[trigger] s[j]) by {
            if j > 0 {
                assert(s[j] == s.drop_first()[j - 1]);
            }
        }
        k0 + 1
    } else {
        assert(s.subrange(0, s.len() as int) =~= s);
        0
    }
}

/// `trim_end(s)` is what precedes a run of white space at the end of `s`,
/// and does not itself end with white space.
proof fn lemma_trim_end_bound(s: Seq<char>) -> (k: int)
    ensures
        0 <= k <= s.len(),
        trim_end(s) == s.subrange(0, k),
        forall|j: int| k <= j < s.len() ==> is_white_space(#[trigger] s[j]),
        k > 0 ==> !is_white_space(s[k - 1]),
    decreases s.len(),
{
    if s.len() > 0 && is_white_space(s.last()) {
        let k0 = lemma_trim_end_bound(s.drop_last());
        assert(s.drop_last().subrange(0, k0) =~= s.subrange(0, k0));
        assert forall|j: int| k0 <= j < s.len() implies is_white_space(#[trigger] s[j]) by {
            if j < s.len() - 1 {
                assert(s[j] == s.drop_last()[j]);
            }
        }
        k0
    } else {
        assert(s.subrange(0, s.len() as int) =~= s);
        s.len() as int
    }
}

/// `trimmed(s)` is the stretch `s[a..b]` with white space only before `a`
/// and from `b` on, and neither end of it white space.
pub proof fn lemma_trimmed_bounds(s: Seq<char>) -> (ab: (int, int))
    ensures
        0 <= ab.0 <= ab.1 <= s.len(),
        trimmed(s) == s.subrange(ab.0, ab.1),
        forall|j: int| 0 <= j < ab.0 ==> is_white_space(#[trigger] s[j]),
        forall|j: int| ab.1 <= j < s.len() ==> is_white_space(#[trigger] s[j]),
        ab.0 < ab.1 ==> !is_white_space(s[ab.0]) && !is_white_space(s[ab.1 - 1]),
{
    let a = lemma_trim_start_bound(s);
    let t = s.subrange(a, s.len() as int);
    let k = lemma_trim_end_bound(t);
    assert(t.subrange(0, k) =~= s.subrange(a, a + k));
    assert forall|j: int| a + k <= j < s.len() implies is_white_space(#[trigger] s[j]) by {
        assert(s[j] == t[j - a]);
    }
    if k > 0 {
        assert(s[a + k - 1] == t[k - 1]);
        assert(s[a] == t[0]);
    }
    (a, a + k)
}

/// Trimming leaves nothing exactly when every character is white space:
/// a title of nothing but spaces, tabs or line breaks is blank.
pub proof fn lemma_trimmed_empty_iff_blank(s: Seq<char>)
    ensures
        trimmed(s).len() == 0 <==> forall|i: int| 0 <= i < s.len() ==> is_white_space(
            #[trigger] s[i],
        ),
{
    let (a, b) = lemma_trimmed_bounds(s);
    if a == b {
        assert forall|i: int| 0 <= i < s.len() implies is_white_space(#[trigger] s[i]) by {
            if i >= a {
                assert(b <= i);
            }
        }
    }
}

/// Trimming is idempotent: what it leaves neither starts nor ends with
/// white space.
pub proof fn lemma_trimmed_idempotent(s: Seq<char>)
    ensures
        trimmed(trimmed(s)) == trimmed(s),
{
    let (a, b) = lemma_trimmed_bounds(s);
    let t = trimmed(s);
    let (c, d) = lemma_trimmed_bounds(t);
    if a < b {
        assert(t[0] == s[a]);
        assert(t[t.len() - 1] == s[b - 1]);
        assert(c == 0) by {
            if c > 0 {
                assert(is_white_space(t[0]));
            }
        }
        assert(d == t.len()) by {
            if d < t.len() {
                assert(is_white_space(t[t.len() - 1]));
            }
        }
        assert(t.subrange(0, t.len() as int) =~= t);
    } else {
        assert(t.len() == 0);
    }
}

proof fn lemma_split_commas_nonempty(s: Seq<char>)
    ensures
        split_commas(s).len() >= 1,
    decreases s.len(),
{
    if s.len() > 0 {
        lemma_split_commas_nonempty(s.drop_last());
    }
}

/// No piece of `split_commas(s)` holds a comma.
pub proof fn lemma_split_commas_pieces(s: Seq<char>)
    ensures
        forall|p: int| 0 <= p < split_commas(s).len() ==> !(#[trigger] split_commas(s)[p]).contains(','),
    decreases s.len(),
{
    if s.len() > 0 {
        lemma_split_commas_pieces(s.drop_last());
        lemma_split_commas_nonempty(s.drop_last());
        let q = split_commas(s.drop_last());
        if s.last() != ',' {
            let last = q.last().push(s.last());
            assert forall|p: int| 0 <= p < split_commas(s).len() implies !(
            #[trigger] split_commas(s)[p]).contains(',') by {
                if p == q.len() - 1 {
                    assert(split_commas(s)[p] == last);
                    if last.contains(',') {
                        let w = choose|w: int| 0 <= w < last.len() && last[w] == ',';
                        assert(q.last()[w] == ',');
                    }
                } else {
                    assert(split_commas(s)[p] == q[p]);
                }
            }
        } else {
            assert forall|p: int| 0 <= p < split_commas(s).len() implies !(
            #[trigger] split_commas(s)[p]).contains(',') by {
                if p < q.len() {
                    assert(split_commas(s)[p] == q[p]);
                }
            }
        }
    }
}

/// Appending comma-free text to `s` extends its last piece.
proof fn lemma_split_commas_append_plain(s: Seq<char>, t: Seq<char>)
    requires
        !t.contains(','),
    ensures
        split_commas(s + t) == split_commas(s).update(
            split_commas(s).len() - 1,
            split_commas(s).last() + t,
        ),
    decreases t.len(),
{
    lemma_split_commas_nonempty(s);
    if t.len() == 0 {
        assert(s + t =~= s);
        assert(split_commas(s).last() + t =~= split_commas(s).last());
        assert(split_commas(s).update(split_commas(s).len() - 1, split_commas(s).last())
            =~= split_commas(s));
    } else {
        let t0 = t.drop_last();
        assert(!t0.contains(',')) by {
            if t0.contains(',') {
                let w = choose|w: int| 0 <= w < t0.len() && t0[w] == ',';
                assert(t[w] == ',');
            }
        }
        assert(t.last() != ',') by {
            assert(t[t.len() - 1] == t.last());
        }
        lemma_split_commas_append_plain(s, t0);
        assert((s + t).drop_last() =~= s + t0);
        assert((s + t).last() == t.last());
        lemma_split_commas_nonempty(s + t0);
        assert((split_commas(s).last() + t0).push(t.last()) =~= split_commas(s).last() + t);
        assert(split_commas(s + t) =~= split_commas(s).update(
            split_commas(s).len() - 1,
            split_commas(s).last() + t,
        ));
    }
}

/// The entries of `xs` joined by commas.
pub open spec fn join_commas(xs: Seq<Seq<char>>) -> Seq<char>
    decreases xs.len(),
{
    if xs.len() == 0 {
        Seq::empty()
    } else if xs.len() == 1 {
        xs[0]
    } else {
        join_commas(xs.drop_last()) + seq![','] + xs.last()
    }
}

/// Splitting comma-free entries joined by commas gives them back.
pub proof fn lemma_split_join(xs: Seq<Seq<char>>)
    requires
        xs.len() > 0,
        forall|i: int| 0 <= i < xs.len() ==> !(#[trigger] xs[i]).contains(','),
    ensures
        split_commas(join_commas(xs)) == xs,
    decreases xs.len(),
{
    if xs.len() == 1 {
        lemma_split_commas_append_plain(Seq::empty(), xs[0]);
        assert(Seq::<char>::empty() + xs[0] =~= xs[0]);
        assert(split_commas(Seq::<char>::empty()) =~= seq![Seq::<char>::empty()]);
        assert(Seq::<char>::empty() + xs[0] =~= xs[0]);
        assert(split_commas(xs[0]) =~= xs);
    } else {
        let init = xs.drop_last();
        assert forall|i: int| 0 <= i < init.len() implies !(#[trigger] init[i]).contains(',') by {
            assert(init[i] == xs[i]);
        }
        lemma_split_join(init);
        let head = join_commas(init) + seq![','];
        assert(head.drop_last() =~= join_commas(init));
        assert(split_commas(head) == init.push(Seq::<char>::empty()));
        assert(!xs[xs.len() - 1].contains(','));
        lemma_split_commas_append_plain(head, xs.last());
        assert(Seq::<char>::empty() + xs.last() =~= xs.last());
        assert(split_commas(join_commas(xs)) =~= xs);
    }
}

/// Whether `x` is a clean list entry: not empty, no white space at either
/// end, no comma.
pub open spec fn clean_entry(x: Seq<char>) -> bool {
    &&& x.len() > 0
    &&& !is_white_space(x[0])
    &&& !is_white_space(x.last())
    &&& !x.contains(',')
}

/// A clean entry is its own trimming.
pub proof fn lemma_clean_entry_trimmed(x: Seq<char>)
    requires
        clean_entry(x),
    ensures
        trimmed(x) == x,
{
    let (a, b) = lemma_trimmed_bounds(x);
    assert(a == 0) by {
        if a > 0 {
            assert(is_white_space(x[0]));
        }
    }
    assert(b == x.len()) by {
        if b < x.len() {
            assert(is_white_space(x[x.len() - 1]));
        }
    }
    assert(x.subrange(0, x.len() as int) =~= x);
}

/// `trimmed_nonempty` keeps a list of clean entries as it is.
pub proof fn lemma_trimmed_nonempty_of_clean(xs: Seq<Seq<char>>)
    requires
        forall|i: int| 0 <= i < xs.len() ==> clean_entry(#[trigger] xs[i]),
    ensures
        trimmed_nonempty(xs) == xs,
    decreases xs.len(),
{
    if xs.len() > 0 {
        let init = xs.drop_last();
        assert forall|i: int| 0 <= i < init.len() implies clean_entry(#[trigger] init[i]) by {
            assert(init[i] == xs[i]);
        }
        lemma_trimmed_nonempty_of_clean(init);
        assert(clean_entry(xs[xs.len() - 1]));
        lemma_clean_entry_trimmed(xs.last());
        assert(init.push(xs.last()) =~= xs);
    }
}

/// Every entry that `trimmed_nonempty` keeps from comma-free pieces is
/// clean.
pub proof fn lemma_trimmed_nonempty_clean(pieces: Seq<Seq<char>>)
    requires
        forall|p: int| 0 <= p < pieces.len() ==> !(#[trigger] pieces[p]).contains(','),
    ensures
        forall|i: int|
            0 <= i < trimmed_nonempty(pieces).len() ==> clean_entry(
                #[trigger] trimmed_nonempty(pieces)[i],
            ),
    decreases pieces.len(),
{
    if pieces.len() > 0 {
        let rest = pieces.drop_last();
        assert forall|p: int| 0 <= p < rest.len() implies !(#[trigger] rest[p]).contains(',') by {
            assert(rest[p] == pieces[p]);
        }
        lemma_trimmed_nonempty_clean(rest);
        let last = pieces.last();
        assert(!pieces[pieces.len() - 1].contains(','));
        let t = trimmed(last);
        let (a, b) = lemma_trimmed_bounds(last);
        if t.len() > 0 {
            assert(t[0] == last[a]);
            assert(t.last() == last[b - 1]);
            if t.contains(',') {
                let w = choose|w: int| 0 <= w < t.len() && t[w] == ',';
                assert(last[a + w] == ',');
            }
            assert(clean_entry(t));
        }
        let out = trimmed_nonempty(pieces);
        let before = trimmed_nonempty(rest);
        assert forall|i: int| 0 <= i < out.len() implies clean_entry(#[trigger] out[i]) by {
            if i < before.len() {
                assert(out[i] == before[i]);
            }
        }
    }
}

/// Each piece trimmed (`str::trim` on every piece, the order kept).
pub open spec fn trim_each(pieces: Seq<Seq<char>>) -> Seq<Seq<char>> {
    pieces.map_values(|p: Seq<char>| trimmed(p))
}

/// `trimmed_nonempty` is "trim every piece, then keep the non-empty ones":
/// `pieces.map(trim).filter(|t| !t.is_empty())`.
pub proof fn lemma_trimmed_nonempty_is_trim_then_filter(pieces: Seq<Seq<char>>)
    ensures
        trimmed_nonempty(pieces) == trim_each(pieces).filter(|t: Seq<char>| t.len() > 0),
    decreases pieces.len(),
{
    reveal(Seq::filter);
    if pieces.len() > 0 {
        lemma_trimmed_nonempty_is_trim_then_filter(pieces.drop_last());
        assert(trim_each(pieces).drop_last() =~= trim_each(pieces.drop_last()));
        assert(trim_each(pieces).last() == trimmed(pieces.last()));
    } else {
        assert(trim_each(pieces) =~= Seq::<Seq<char>>::empty());
    }
}

/// No piece whose trimming leaves something is lost: every such piece
/// appears, trimmed, among the entries kept; and every entry kept is the
/// trimming of some piece.
pub proof fn lemma_trimmed_nonempty_keeps_every_entry(pieces: Seq<Seq<char>>)
    ensures
        forall|i: int|
            0 <= i < pieces.len() && trimmed(#[trigger] pieces[i]).len() > 0 ==> trimmed_nonempty(
                pieces,
            ).contains(trimmed(pieces[i])),
        forall|j: int|
            0 <= j < trimmed_nonempty(pieces).len() ==> exists|i: int|
                0 <= i < pieces.len() && trimmed(#[trigger] pieces[i]) == #[trigger] trimmed_nonempty(
                    pieces,
                )[j],
    decreases pieces.len(),
{
    if pieces.len() > 0 {
        let init = pieces.drop_last();
        lemma_trimmed_nonempty_keeps_every_entry(init);
        let out = trimmed_nonempty(pieces);
        let before = trimmed_nonempty(init);
        assert forall|i: int|
            0 <= i < pieces.len() && trimmed(#[trigger] pieces[i]).len() > 0 implies out.contains(
            trimmed(pieces[i]),
        ) by {
            if i < init.len() {
                assert(init[i] == pieces[i]);
                let k = choose|k: int| 0 <= k < before.len() && before[k] == trimmed(init[i]);
                assert(out[k] == before[k]);
            } else {
                assert(out[out.len() - 1] == trimmed(pieces.last()));
            }
        }
        assert forall|j: int| 0 <= j < out.len() implies exists|i: int|
            0 <= i < pieces.len() && trimmed(#[trigger] pieces[i]) == #[trigger] out[j] by {
            if j < before.len() {
                assert(out[j] == before[j]);
                let i = choose|i: int| 0 <= i < init.len() && trimmed(#[trigger] init[i]) == before[j];
                assert(pieces[i] == init[i]);
            } else {
                assert(pieces[pieces.len() - 1] == pieces.last());
            }
        }
    }
}

/// Extending the last piece of a split joins back as extending the text.
proof fn lemma_join_extend_last(xs: Seq<Seq<char>>, t: Seq<char>)
    requires
        xs.len() > 0,
    ensures
        join_commas(xs.update(xs.len() - 1, xs.last() + t)) == join_commas(xs) + t,
{
    let ys = xs.update(xs.len() - 1, xs.last() + t);
    if xs.len() == 1 {
        assert(ys[0] == xs[0] + t);
    } else {
        assert(ys.drop_last() =~= xs.drop_last());
        assert(ys.last() == xs.last() + t);
        assert(join_commas(xs.drop_last()) + seq![','] + (xs.last() + t) =~= join_commas(
            xs.drop_last(),
        ) + seq![','] + xs.last() + t);
    }
}

/// `split_commas` is exactly `str::split(',')`: its pieces hold no comma,
/// and joined back with commas they give the text.
pub proof fn lemma_split_commas_rejoins(s: Seq<char>)
    ensures
        join_commas(split_commas(s)) == s,
        forall|p: int| 0 <= p < split_commas(s).len() ==> !(#[trigger] split_commas(s)[p]).contains(','),
    decreases s.len(),
{
    lemma_split_commas_pieces(s);
    if s.len() == 0 {
        assert(split_commas(s)[0] == Seq::<char>::empty());
        assert(join_commas(split_commas(s)) =~= s);
    } else {
        let s0 = s.drop_last();
        lemma_split_commas_rejoins(s0);
        lemma_split_commas_nonempty(s0);
        let p = split_commas(s0);
        if s.last() == ',' {
            let q = p.push(Seq::<char>::empty());
            assert(q.drop_last() =~= p);
            assert(join_commas(q) =~= join_commas(p) + seq![','] + Seq::<char>::empty());
            assert(s =~= s0 + seq![',']);
        } else {
            lemma_join_extend_last(p, seq![s.last()]);
            assert(p.last().push(s.last()) =~= p.last() + seq![s.last()]);
            assert(s =~= s0 + seq![s.last()]);
        }
    }
}

/// The comma-separated entries of `s`, each trimmed, the empty ones left out.
pub fn split_trimmed_nonempty(s: &str) -> (r: Vec<String>)
    ensures
        string_views(r@) == trimmed_nonempty(split_commas(s@)),
        string_views(r@) == trim_each(split_commas(s@)).filter(|t: Seq<char>| t.len() > 0),
{
    proof {
        lemma_trimmed_nonempty_is_trim_then_filter(split_commas(s@));
    }
    let v = chars_of(s);
    let n = v.len();
    let mut r: Vec<String> = Vec::new();
    let mut start: usize = 0;
    let mut k: usize = 0;
    let ghost mut done: Seq<Seq<char>> = Seq::empty();
    assert(v@.take(0) =~= Seq::<char>::empty());
    assert(v@.subrange(0, 0) =~= Seq::<char>::empty());
    while k < n
        invariant
            0 <= start <= k <= n,
            n == v.len(),
            v@ == s@,
            split_commas(v@.take(k as int)) == done.push(v@.subrange(start as int, k as int)),
            string_views(r@) == trimmed_nonempty(done),
        decreases n - k,
    {
        assert(v@.take(k + 1).drop_last() =~= v@.take(k as int));
        if v[k] == ',' {
            let piece = trim(s.substring_char(start, k));
            proof {
                let old_done = done;
                done = done.push(v@.subrange(start as int, k as int));
                assert(done.drop_last() =~= old_done);
            }
            if !piece.as_str().is_empty() {
                r.push(piece);
            }
            assert(string_views(r@) =~= trimmed_nonempty(done));
            start = k + 1;
            assert(v@.subrange(start as int, k + 1) =~= Seq::<char>::empty());
        } else {
            assert(v@.subrange(start as int, k + 1) =~= v@.subrange(start as int, k as int).push(
                v@[k as int],
            ));
        }
        k = k + 1;
    }
    assert(v@.take(n as int) =~= v@);
    let piece = trim(s.substring_char(start, n));
    proof {
        let old_done = done;
        done = done.push(v@.subrange(start as int, n as int));
        assert(done.drop_last() =~= old_done);
    }
    if !piece.as_str().is_empty() {
        r.push(piece);
    }
    assert(string_views(r@) =~= trimmed_nonempty(done));
    r
}

} // verus!

//! Character-level text helpers with exact specifications: comparison,
//! Unicode white space trimming, comma splitting and decimal rendering.

use vstd::prelude::*;

verus! {

/// Compares two string slices character by character.
pub fn text_equals(a: &str, b: &str) -> (r: bool)
    ensures
        r == (a@ == b@),
{
    let n: usize = a.unicode_len();
    let m: usize = b.unicode_len();
    if n != m {
        return false;
    }
    let mut i: usize = 0;
    while i < n
        invariant
            n == a@.len(),
            m == b@.len(),
            n == m,
            i <= n,
            forall|j: int| 0 <= j < i ==> a@[j] == b@[j],
        decreases n - i,
    {
        if a.get_char(i) != b.get_char(i) {
            return false;
        }
        i = i + 1;
    }
    assert(a@ =~= b@);
    true
}

/// The characters with the Unicode `White_Space` property.
pub open spec fn is_white_space(c: char) -> bool {
    let u: u32 = c as u32;
    ||| 0x09 <= u <= 0x0d
    ||| u == 0x20
    ||| u == 0x85
    ||| u == 0xa0
    ||| u == 0x1680
    ||| 0x2000 <= u <= 0x200a
    ||| u == 0x2028
    ||| u == 0x2029
    ||| u == 0x202f
    ||| u == 0x205f
    ||| u == 0x3000
}

/// Whether `c` has the Unicode `White_Space` property.
pub fn white_space(c: char) -> (r: bool)
    ensures
        r == is_white_space(c),
{
    let u: u32 = c as u32;
    (0x09 <= u && u <= 0x0d) || u == 0x20 || u == 0x85 || u == 0xa0 || u == 0x1680 || (0x2000
        <= u && u <= 0x200a) || u == 0x2028 || u == 0x2029 || u == 0x202f || u == 0x205f || u
        == 0x3000
}

/// `s` without its leading white space.
pub open spec fn trim_start(s: Seq<char>) -> Seq<char>
    decreases s.len(),
{
    if s.len() > 0 && is_white_space(s[0]) {
        trim_start(s.drop_first())
    } else {
        s
    }
}

/// `s` without its trailing white space.
pub open spec fn trim_end(s: Seq<char>) -> Seq<char>
    decreases s.len(),
{
    if s.len() > 0 && is_white_space(s.last()) {
        trim_end(s.drop_last())
    } else {
        s
    }
}

/// `s` without leading and trailing white space.
pub open spec fn trim(s: Seq<char>) -> Seq<char> {
    trim_end(trim_start(s))
}

proof fn lemma_trim_start(s: Seq<char>, i: int)
    requires
        0 <= i <= s.len(),
        forall|k: int| 0 <= k < i ==> is_white_space(#[trigger] s[k]),
        i == s.len() || !is_white_space(s[i]),
    ensures
        trim_start(s) == s.subrange(i, s.len() as int),
    decreases i,
{
    if i == 0 {
        assert(s.subrange(0, s.len() as int) =~= s);
    } else {
        assert(is_white_space(s[0]));
        let t = s.drop_first();
        assert forall|k: int| 0 <= k < i - 1 implies is_white_space(#[trigger] t[k]) by {
            assert(t[k] == s[k + 1]);
        }
        lemma_trim_start(t, i - 1);
        assert(t.subrange(i - 1, t.len() as int) =~= s.subrange(i, s.len() as int));
    }
}

proof fn lemma_trim_end(t: Seq<char>, j: int)
    requires
        0 <= j <= t.len(),
        forall|k: int| j <= k < t.len() ==> is_white_space(#[trigger] t[k]),
        j == 0 || !is_white_space(t[j - 1]),
    ensures
        trim_end(t) == t.subrange(0, j),
    decreases t.len() - j,
{
    if j == t.len() {
        assert(t.subrange(0, j) =~= t);
    } else {
        assert(is_white_space(t[t.len() - 1]));
        let u = t.drop_last();
        assert forall|k: int| j <= k < u.len() implies is_white_space(#[trigger] u[k]) by {
            assert(u[k] == t[k]);
        }
        if j > 0 {
            assert(u[j - 1] == t[j - 1]);
        }
        lemma_trim_end(u, j);
        assert(u.subrange(0, j) =~= t.subrange(0, j));
    }
}

/// Copies `s` without its leading and trailing white space, as `str::trim` does.
pub fn trim_text(s: &str) -> (r: String)
    ensures
        r@ == trim(s@),
{
    let n: usize = s.unicode_len();
    let mut i: usize = 0;
    while i < n && white_space(s.get_char(i))
        invariant
            n == s@.len(),
            i <= n,
            forall|k: int| 0 <= k < i ==> is_white_space(#[trigger] s@[k]),
        decreases n - i,
    {
        i = i + 1;
    }
    let mut j: usize = n;
    while j > i && white_space(s.get_char(j - 1))
        invariant
            n == s@.len(),
            i <= j <= n,
            forall|k: int| j <= k < n ==> is_white_space(#[trigger] s@[k]),
        decreases j,
    {
        j = j - 1;
    }
    proof {
        lemma_trim_start(s@, i as int);
        let t = s@.subrange(i as int, n as int);
        assert forall|k: int| j - i <= k < t.len() implies is_white_space(#[trigger] t[k]) by {
            assert(t[k] == s@[k + i]);
        }
        if j > i {
            assert(t[j - i - 1] == s@[j - 1]);
        }
        lemma_trim_end(t, j - i);
        assert(t.subrange(0, j - i) =~= s@.subrange(i as int, j as int));
    }
    String::from_str(s.substring_char(i, j))
}

/// The pieces of `s` between occurrences of `sep`, as `str::split` yields
/// them: always at least one piece.
pub open spec fn split_on(s: Seq<char>, sep: char) -> Seq<Seq<char>>
    decreases s.len(),
{
    if s.len() == 0 {
        seq![Seq::<char>::empty()]
    } else {
        let p = split_on(s.drop_last(), sep);
        if s.last() == sep {
            p.push(Seq::<char>::empty())
        } else {
            p.update(p.len() - 1, p.last().push(s.last()))
        }
    }
}

/// The pieces of `s` as `str::split_terminator` yields them: those of
/// `split_on`, without a last piece that is empty.
pub open spec fn split_terminator(s: Seq<char>, sep: char) -> Seq<Seq<char>> {
    let p = split_on(s, sep);
    if p.last().len() == 0 {
        p.drop_last()
    } else {
        p
    }
}

/// The tags of a comma separated tag line: the comma terminated pieces,
/// each trimmed of white space.
pub open spec fn tag_list(s: Seq<char>) -> Seq<Seq<char>> {
    split_terminator(s, ',').map_values(|p: Seq<char>| trim(p))
}

/// The pieces joined back together with `sep` between them.
pub open spec fn join_with(parts: Seq<Seq<char>>, sep: char) -> Seq<char>
    decreases parts.len(),
{
    if parts.len() == 0 {
        Seq::<char>::empty()
    } else if parts.len() == 1 {
        parts[0]
    } else {
        join_with(parts.drop_last(), sep) + seq![sep] + parts.last()
    }
}

/// A tag as the upload stores it: no comma, and no white space at either end.
pub open spec fn is_clean_tag(t: Seq<char>) -> bool {
    &&& forall|i: int| 0 <= i < t.len() ==> #[trigger] t[i] != ','
    &&& t.len() > 0 ==> !is_white_space(t[0]) && !is_white_space(t.last())
}

proof fn lemma_split_pieces(s: Seq<char>, sep: char)
    ensures
        split_on(s, sep).len() >= 1,
        forall|k: int, i: int|
            0 <= k < split_on(s, sep).len() && 0 <= i < split_on(s, sep)[k].len()
                ==> #[trigger] split_on(s, sep)[k][i] != sep,
        (forall|j: int| 0 <= j < s.len() ==> !is_white_space(#[trigger] s[j])) ==> forall|
            k: int,
            i: int,
        |
            0 <= k < split_on(s, sep).len() && 0 <= i < split_on(s, sep)[k].len()
                ==> !is_white_space(#[trigger] split_on(s, sep)[k][i]),
        join_with(split_on(s, sep), sep) == s,
        s.len() > 0 && s.last() != sep ==> split_on(s, sep).last().len() > 0,
    decreases s.len(),
{
    if s.len() > 0 {
        let s0 = s.drop_last();
        lemma_split_pieces(s0, sep);
        let p = split_on(s0, sep);
        let q = split_on(s, sep);
        if (forall|j: int| 0 <= j < s.len() ==> !is_white_space(#[trigger] s[j])) {
            assert forall|j: int| 0 <= j < s0.len() implies !is_white_space(#[trigger] s0[j]) by {
                assert(s0[j] == s[j]);
            }
            assert(!is_white_space(s[s.len() - 1]));
        }
        if s.last() == sep {
            assert(q == p.push(Seq::<char>::empty()));
            assert(q.drop_last() =~= p);
            assert(join_with(q, sep) =~= s);
        } else {
            let last = p.last().push(s.last());
            assert(q == p.update(p.len() - 1, last));
            if p.len() == 1 {
                assert(join_with(p, sep) == p[0]);
                assert(join_with(q, sep) =~= s);
            } else {
                assert(q.drop_last() =~= p.drop_last());
                assert(join_with(p, sep) == join_with(p.drop_last(), sep) + seq![sep] + p.last());
                assert(q.last() == last);
                assert(join_with(q, sep) == join_with(q.drop_last(), sep) + seq![sep] + q.last());
                assert(s =~= s0.push(s.last()));
                assert(join_with(q, sep) =~= s);
            }
            assert forall|k: int, i: int|
                0 <= k < q.len() && 0 <= i < q[k].len() implies #[trigger] q[k][i] != sep by {
                if k == q.len() - 1 && i == q[k].len() - 1 {
                    assert(q[k][i] == s.last());
                } else if k == q.len() - 1 {
                    assert(q[k][i] == p[k][i]);
                }
            }
            if (forall|j: int| 0 <= j < s.len() ==> !is_white_space(#[trigger] s[j])) {
                assert forall|k: int, i: int|
                    0 <= k < q.len() && 0 <= i < q[k].len() implies !is_white_space(
                    #[trigger] q[k][i],
                ) by {
                    if k == q.len() - 1 && i == q[k].len() - 1 {
                        assert(q[k][i] == s.last());
                    } else if k == q.len() - 1 {
                        assert(q[k][i] == p[k][i]);
                    }
                }
            }
        }
    }
}

proof fn lemma_trim_start_suffix(s: Seq<char>)
    ensures
        trim_start(s).len() <= s.len(),
        trim_start(s) == s.subrange(s.len() - trim_start(s).len(), s.len() as int),
        trim_start(s).len() > 0 ==> !is_white_space(trim_start(s)[0]),
    decreases s.len(),
{
    if s.len() > 0 && is_white_space(s[0]) {
        lemma_trim_start_suffix(s.drop_first());
        let t = trim_start(s.drop_first());
        assert(s.drop_first().subrange(s.len() - 1 - t.len(), s.len() - 1) =~= s.subrange(
            s.len() - t.len(),
            s.len() as int,
        ));
    } else {
        assert(s.subrange(0, s.len() as int) =~= s);
    }
}

proof fn lemma_trim_end_prefix(s: Seq<char>)
    ensures
        trim_end(s).len() <= s.len(),
        trim_end(s) == s.subrange(0, trim_end(s).len() as int),
        trim_end(s).len() > 0 ==> !is_white_space(trim_end(s).last()),
    decreases s.len(),
{
    if s.len() > 0 && is_white_space(s.last()) {
        lemma_trim_end_prefix(s.drop_last());
        let t = trim_end(s.drop_last());
        assert(s.drop_last().subrange(0, t.len() as int) =~= s.subrange(0, t.len() as int));
    } else {
        assert(s.subrange(0, s.len() as int) =~= s);
    }
}

/// Every tag of a tag line holds no comma and has no white space at
/// either end.
pub proof fn lemma_tags_are_clean(s: Seq<char>)
    ensures
        forall|k: int| 0 <= k < tag_list(s).len() ==> is_clean_tag(#[trigger] tag_list(s)[k]),
{
    lemma_split_pieces(s, ',');
    let pieces = split_terminator(s, ',');
    assert forall|k: int| 0 <= k < tag_list(s).len() implies is_clean_tag(
        #[trigger] tag_list(s)[k],
    ) by {
        let p = pieces[k];
        assert(p == split_on(s, ',')[k]);
        let a = trim_start(p);
        lemma_trim_start_suffix(p);
        lemma_trim_end_prefix(a);
        let t = trim(p);
        assert(tag_list(s)[k] == t);
        let off: int = p.len() - a.len();
        assert forall|i: int| 0 <= i < t.len() implies #[trigger] t[i] != ',' by {
            assert(t[i] == a[i]);
            assert(a[i] == p[off + i]);
        }
        if t.len() > 0 {
            assert(t[0] == a[0]);
        }
    }
}

proof fn lemma_trim_keeps_plain(p: Seq<char>)
    requires
        forall|i: int| 0 <= i < p.len() ==> !is_white_space(#[trigger] p[i]),
    ensures
        trim(p) == p,
{
    if p.len() > 0 {
        assert(!is_white_space(p[0]));
        assert(!is_white_space(p.last()));
    }
}

/// A tag line without white space that does not end in a comma is given
/// back by joining its tags with commas.
pub proof fn lemma_tag_line_round_trip(s: Seq<char>)
    requires
        s.len() > 0,
        s.last() != ',',
        forall|j: int| 0 <= j < s.len() ==> !is_white_space(#[trigger] s[j]),
    ensures
        join_with(tag_list(s), ',') == s,
{
    lemma_split_pieces(s, ',');
    let p = split_on(s, ',');
    assert(split_terminator(s, ',') == p);
    assert forall|k: int| 0 <= k < p.len() implies #[trigger] trim(p[k]) == p[k] by {
        assert forall|i: int| 0 <= i < p[k].len() implies !is_white_space(#[trigger] p[k][i]) by {
        }
        lemma_trim_keeps_plain(p[k]);
    }
    assert(tag_list(s) =~= p);
}

/// Splits a tag line at its commas, drops an empty last piece and trims
/// every piece, as `split_terminator(',')` followed by `trim` does.
pub fn split_tags(s: &str) -> (r: Vec<String>)
    ensures
        r@.len() == tag_list(s@).len(),
        forall|k: int| 0 <= k < r@.len() ==> #[trigger] r@[k]@ == tag_list(s@)[k],
{
    let n: usize = s.unicode_len();
    let mut out: Vec<String> = Vec::new();
    let mut start: usize = 0;
    let mut i: usize = 0;
    let ghost mut raw: Seq<Seq<char>> = seq![];
    assert(s@.take(0) =~= Seq::<char>::empty());
    assert(s@.subrange(0, 0) =~= Seq::<char>::empty());
    while i < n
        invariant
            n == s@.len(),
            start <= i <= n,
            split_on(s@.take(i as int), ',') == raw.push(s@.subrange(start as int, i as int)),
            out@.len() == raw.len(),
            forall|k: int| 0 <= k < raw.len() ==> #[trigger] out@[k]@ == trim(raw[k]),
        decreases n - i,
    {
        let c = s.get_char(i);
        let ghost prev = s@.take(i as int);
        let ghost next = s@.take(i + 1);
        assert(next.drop_last() =~= prev);
        assert(next.last() == c);
        if c == ',' {
            let piece = s.substring_char(start, i);
            let t = trim_text(piece);
            out.push(t);
            proof {
                raw = raw.push(s@.subrange(start as int, i as int));
                assert(s@.subrange(i + 1, i + 1) =~= Seq::<char>::empty());
                assert(split_on(next, ',') =~= raw.push(s@.subrange(i + 1, i + 1)));
            }
            start = i + 1;
        } else {
            proof {
                assert(s@.subrange(start as int, i as int).push(c) =~= s@.subrange(
                    start as int,
                    i + 1,
                ));
                assert(split_on(next, ',') =~= raw.push(s@.subrange(start as int, i + 1)));
            }
        }
        i = i + 1;
    }
    assert(s@.take(n as int) =~= s@);
    let ghost last = s@.subrange(start as int, n as int);
    if start < n {
        let piece = s.substring_char(start, n);
        let t = trim_text(piece);
        out.push(t);
        proof {
            assert(split_terminator(s@, ',') == raw.push(last));
        }
    } else {
        proof {
            assert(last.len() == 0);
            assert(split_terminator(s@, ',') =~= raw);
        }
    }
    out
}

/// White space, as `trim` sees it, is exactly the Unicode `White_Space`
/// characters: tab, line feed, vertical tab, form feed, carriage return,
/// space, next line, no-break space, ogham space mark, the spaces from en
/// quad to hair space, line and paragraph separators, narrow no-break space,
/// medium mathematical space and ideographic space. Trimming one such
/// character leaves nothing; trimming any other character keeps it.
pub proof fn lemma_trim_drops_exactly_unicode_white_space(c: char)
    ensures
        trim(seq![c]) == (if {
            let u = c as u32;
            ||| 0x09 <= u <= 0x0d
            ||| u == 0x20
            ||| u == 0x85
            ||| u == 0xa0
            ||| u == 0x1680
            ||| 0x2000 <= u <= 0x200a
            ||| u == 0x2028
            ||| u == 0x2029
            ||| u == 0x202f
            ||| u == 0x205f
            ||| u == 0x3000
        } {
            Seq::<char>::empty()
        } else {
            seq![c]
        }),
{
    let s = seq![c];
    assert(s.drop_first() =~= Seq::<char>::empty());
    assert(s[0] == c);
    assert(s.last() == c);
    assert(trim_start(Seq::<char>::empty()) == Seq::<char>::empty());
    assert(trim_end(Seq::<char>::empty()) == Seq::<char>::empty());
}

/// Trimming removes white space at the ends only: text that starts and
/// ends with other characters comes back whole, white space inside it
/// included.
pub proof fn lemma_trim_keeps_text_between_ends(p: Seq<char>)
    requires
        p.len() > 0 ==> !is_white_space(p[0]) && !is_white_space(p.last()),
    ensures
        trim(p) == p,
{
}

/// Trimming ignores white space added at either end.
pub proof fn lemma_trim_ignores_padding(c: char, p: Seq<char>)
    requires
        is_white_space(c),
    ensures
        trim(seq![c] + p) == trim(p),
        trim_end(p.push(c)) == trim_end(p),
{
    assert((seq![c] + p).drop_first() =~= p);
    assert(p.push(c).drop_last() =~= p);
}

proof fn lemma_split_without_separator(a: Seq<char>, sep: char)
    requires
        forall|i: int| 0 <= i < a.len() ==> #[trigger] a[i] != sep,
    ensures
        split_on(a, sep) == seq![a],
    decreases a.len(),
{
    if a.len() > 0 {
        let a0 = a.drop_last();
        assert forall|i: int| 0 <= i < a0.len() implies #[trigger] a0[i] != sep by {
            assert(a0[i] == a[i]);
        }
        lemma_split_without_separator(a0, sep);
        assert(a[a.len() - 1] != sep);
        assert(a0.push(a.last()) =~= a);
        assert(split_on(a, sep) =~= seq![a]);
    } else {
        assert(a =~= Seq::<char>::empty());
    }
}

/// A tag line without commas is one tag: the whole line with only its
/// leading and trailing white space removed (the tags of `a b` are `a b`).
pub proof fn lemma_tag_line_without_commas(a: Seq<char>)
    requires
        a.len() > 0,
        forall|i: int| 0 <= i < a.len() ==> #[trigger] a[i] != ',',
    ensures
        tag_list(a) == seq![trim(a)],
{
    lemma_split_without_separator(a, ',');
    assert(split_terminator(a, ',') == seq![a]);
    assert(tag_list(a) =~= seq![trim(a)]);
}

proof fn lemma_split_after_first_comma(a: Seq<char>, b: Seq<char>)
    requires
        forall|i: int| 0 <= i < a.len() ==> #[trigger] a[i] != ',',
    ensures
        split_on(a + seq![','] + b, ',') == seq![a] + split_on(b, ','),
    decreases b.len(),
{
    let whole = a + seq![','] + b;
    if b.len() == 0 {
        lemma_split_without_separator(a, ',');
        assert(whole.drop_last() =~= a);
        assert(whole.last() == ',');
        assert(split_on(whole, ',') =~= seq![a] + split_on(b, ','));
    } else {
        let b0 = b.drop_last();
        lemma_split_after_first_comma(a, b0);
        assert(whole.drop_last() =~= a + seq![','] + b0);
        assert(whole.last() == b.last());
        lemma_split_pieces(b0, ',');
        let p = split_on(b0, ',');
        if b.last() == ',' {
            assert(split_on(whole, ',') =~= seq![a] + split_on(b, ','));
        } else {
            assert((seq![a] + p).update(p.len() as int, p.last().push(b.last())) =~= seq![a] + p.update(
                p.len() - 1,
                p.last().push(b.last()),
            ));
            assert(split_on(whole, ',') =~= seq![a] + split_on(b, ','));
        }
    }
}

/// The first tag of a line is its text before the first comma, trimmed;
/// the other tags are the tags of the rest of the line.
pub proof fn lemma_tags_before_and_after_comma(a: Seq<char>, b: Seq<char>)
    requires
        forall|i: int| 0 <= i < a.len() ==> #[trigger] a[i] != ',',
    ensures
        tag_list(a + seq![','] + b) == seq![trim(a)] + tag_list(b),
{
    lemma_split_after_first_comma(a, b);
    lemma_split_pieces(b, ',');
    let p = split_on(b, ',');
    let whole = a + seq![','] + b;
    assert((seq![a] + p).last() == p.last());
    if p.last().len() == 0 {
        assert((seq![a] + p).drop_last() =~= seq![a] + p.drop_last());
        assert(split_terminator(whole, ',') =~= seq![a] + split_terminator(b, ','));
    } else {
        assert(split_terminator(whole, ',') =~= seq![a] + split_terminator(b, ','));
    }
    assert(tag_list(whole) =~= seq![trim(a)] + tag_list(b));
}

/// The character of a decimal digit.
pub open spec fn digit_char(d: nat) -> char {
    seq!['0', '1', '2', '3', '4', '5', '6', '7', '8', '9'][d as int]
}

/// The decimal digits of `n`, most significant first, without leading zeros.
pub open spec fn decimal(n: nat) -> Seq<char>
    decreases n,
{
    if n < 10 {
        seq![digit_char(n)]
    } else {
        decimal(n / 10).push(digit_char(n % 10))
    }
}

fn digit_text(d: u64) -> (r: &'static str)
    requires
        d < 10,
    ensures
        r@ == seq![digit_char(d as nat)],
{
    if d == 0 {
        proof { reveal_strlit("0"); }
        "0"
    } else if d == 1 {
        proof { reveal_strlit("1"); }
        "1"
    } else if d == 2 {
        proof { reveal_strlit("2"); }
        "2"
    } else if d == 3 {
        proof { reveal_strlit("3"); }
        "3"
    } else if d == 4 {
        proof { reveal_strlit("4"); }
        "4"
    } else if d == 5 {
        proof { reveal_strlit("5"); }
        "5"
    } else if d == 6 {
        proof { reveal_strlit("6"); }
        "6"
    } else if d == 7 {
        proof { reveal_strlit("7"); }
        "7"
    } else if d == 8 {
        proof { reveal_strlit("8"); }
        "8"
    } else {
        proof { reveal_strlit("9"); }
        "9"
    }
}

/// Renders `n` in decimal, as its `Display` impl does.
pub fn decimal_text(n: u64) -> (r: String)
    ensures
        r@ == decimal(n as nat),
    decreases n,
{
    if n < 10 {
        String::from_str(digit_text(n))
    } else {
        let mut s = decimal_text(n / 10);
        s.append(digit_text(n % 10));
        s
    }
}

/// `std::str::from_utf8`, copied into a `String`. Claimed, as its
/// documentation says: it succeeds exactly on valid UTF-8, and the text is
/// the characters that the bytes encode.
#[verifier::external_body]
pub(crate) fn decode_utf8_text(bytes: &[u8]) -> (r: Option<String>)
    ensures
        r is Some <==> vstd::utf8::valid_utf8(bytes@),
        r matches Some(t) ==> t@ == vstd::utf8::decode_utf8(bytes@),
{
    match std::str::from_utf8(bytes) {
        Ok(t) => Some(t.to_owned()),
        Err(_) => None,
    }
}

} // verus!

//! Character-level text operations with their specifications: whitespace,
//! trimming, ASCII case folding, splitting, UTF-8 byte lengths and decimal
//! numbers. Every string is viewed as its sequence of `char`s.

use vstd::prelude::*;

verus! {

broadcast use vstd::string::group_string_axioms;

/// Whether `c` has the Unicode `White_Space` property, the set that
/// `char::is_whitespace` and `str::trim` go by.
pub open spec fn is_ws(c: char) -> bool {
    let u = c as u32;
    ||| 0x09 <= u <= 0x0d
    ||| u == 0x20
    ||| u == 0x85
    ||| u == 0xa0
    ||| u == 0x1680
    ||| 0x2000 <= u <= 0x200a
    ||| u == 0x2028
    ||| u == 0x2029
    ||| u == 0x202f
    ||| u == 0x205f
    ||| u == 0x3000
}

/// Executable test for the `White_Space` property.
pub fn is_whitespace(c: char) -> (r: bool)
    ensures
        r == is_ws(c),
{
    let u = c as u32;
    (0x09 <= u && u <= 0x0d) || u == 0x20 || u == 0x85 || u == 0xa0 || u == 0x1680 || (0x2000
        <= u && u <= 0x200a) || u == 0x2028 || u == 0x2029 || u == 0x202f || u == 0x205f || u
        == 0x3000
}

/// The characters of `s`, in order.
pub fn chars_of(s: &str) -> (r: Vec<char>)
    ensures
        r@ == s@,
{
    let mut v: Vec<char> = Vec::new();
    for c in it: s.chars()
        invariant
            v@ == it.seq().take(it.index()),
            it.seq() == s@,
    {
        v.push(c);
    }
    v
}

/// Appends `c` to `s` (`String::push`).
#[verifier::external_body]
fn push_char(s: &mut String, c: char)
    ensures
        final(s)@ == old(s)@.push(c),
{
    s.push(c);
}

/// Appends `c` to `s`.
pub fn string_push(s: &mut String, c: char)
    ensures
        final(s)@ == old(s)@.push(c),
{
    push_char(s, c);
}

/// Appends all of `t` to `s`.
pub fn string_push_str(s: &mut String, t: &str)
    ensures
        final(s)@ == old(s)@ + t@,
{
    let tc = chars_of(t);
    string_push_chars(s, &tc, 0, tc.len());
}

/// Appends `v[lo..hi]` to `s`.
pub fn string_push_chars(s: &mut String, v: &Vec<char>, lo: usize, hi: usize)
    requires
        lo <= hi <= v@.len(),
    ensures
        final(s)@ == old(s)@ + v@.subrange(lo as int, hi as int),
{
    let mut i = lo;
    while i < hi
        invariant
            lo <= i <= hi <= v@.len(),
            s@ == old(s)@ + v@.subrange(lo as int, i as int),
        decreases hi - i,
    {
        push_char(s, v[i]);
        assert(v@.subrange(lo as int, i + 1) =~= v@.subrange(lo as int, i as int).push(v@[i as int]));
        i = i + 1;
    }
}

/// The string made of `v[lo..hi]`.
pub fn string_of(v: &Vec<char>, lo: usize, hi: usize) -> (r: String)
    requires
        lo <= hi <= v@.len(),
    ensures
        r@ == v@.subrange(lo as int, hi as int),
{
    let mut s = String::new();
    string_push_chars(&mut s, v, lo, hi);
    assert(s@ =~= v@.subrange(lo as int, hi as int));
    s
}

/// Whether two character sequences are equal.
pub fn chars_eq(a: &Vec<char>, b: &Vec<char>) -> (r: bool)
    ensures
        r == (a@ == b@),
{
    if a.len() != b.len() {
        return false;
    }
    let mut i: usize = 0;
    while i < a.len()
        invariant
            a@.len() == b@.len(),
            i <= a@.len(),
            forall|j: int| 0 <= j < i ==> a@[j] == b@[j],
        decreases a@.len() - i,
    {
        if a[i] != b[i] {
            return false;
        }
        i = i + 1;
    }
    assert(a@ =~= b@);
    true
}

/// Whether two strings hold the same characters.
pub fn str_eq(a: &str, b: &str) -> (r: bool)
    ensures
        r == (a@ == b@),
{
    let av = chars_of(a);
    let bv = chars_of(b);
    chars_eq(&av, &bv)
}

/// `s` without its trailing whitespace.
pub open spec fn trim_end_seq(s: Seq<char>) -> Seq<char>
    decreases s.len(),
{
    if s.len() > 0 && is_ws(s.last()) {
        trim_end_seq(s.drop_last())
    } else {
        s
    }
}

/// `s` without its leading whitespace.
pub open spec fn trim_start_seq(s: Seq<char>) -> Seq<char>
    decreases s.len(),
{
    if s.len() > 0 && is_ws(s[0]) {
        trim_start_seq(s.drop_first())
    } else {
        s
    }
}

/// `s` without leading and trailing whitespace (`str::trim`).
pub open spec fn trim_seq(s: Seq<char>) -> Seq<char> {
    trim_start_seq(trim_end_seq(s))
}

/// The length of `v[0..hi]` once its trailing whitespace is gone.
pub fn trim_end_len(v: &Vec<char>, hi: usize) -> (k: usize)
    requires
        hi <= v@.len(),
    ensures
        k <= hi,
        v@.subrange(0, k as int) == trim_end_seq(v@.subrange(0, hi as int)),
{
    let mut k = hi;
    while k > 0 && is_whitespace(v[k - 1])
        invariant
            k <= hi <= v@.len(),
            trim_end_seq(v@.subrange(0, k as int)) == trim_end_seq(v@.subrange(0, hi as int)),
        decreases k,
    {
        assert(v@.subrange(0, k as int).drop_last() =~= v@.subrange(0, k - 1));
        k = k - 1;
    }
    k
}

/// The index where `v[lo..hi]` starts once its leading whitespace is gone.
fn trim_start_index(v: &Vec<char>, lo: usize, hi: usize) -> (j: usize)
    requires
        lo <= hi <= v@.len(),
    ensures
        lo <= j <= hi,
        v@.subrange(j as int, hi as int) == trim_start_seq(v@.subrange(lo as int, hi as int)),
{
    let mut j = lo;
    while j < hi && is_whitespace(v[j])
        invariant
            lo <= j <= hi <= v@.len(),
            trim_start_seq(v@.subrange(j as int, hi as int)) == trim_start_seq(
                v@.subrange(lo as int, hi as int),
            ),
        decreases hi - j,
    {
        assert(v@.subrange(j as int, hi as int).drop_first() =~= v@.subrange(j + 1, hi as int));
        j = j + 1;
    }
    j
}

/// The bounds `(lo, hi)` of `trim_seq(v)` inside `v`.
pub fn trim_bounds(v: &Vec<char>) -> (r: (usize, usize))
    ensures
        r.0 <= r.1 <= v@.len(),
        v@.subrange(r.0 as int, r.1 as int) == trim_seq(v@),
{
    let k = trim_end_len(v, v.len());
    assert(v@.subrange(0, v@.len() as int) =~= v@);
    let j = trim_start_index(v, 0, k);
    assert(v@.subrange(0, k as int).subrange(j as int, k as int) =~= v@.subrange(j as int, k as int));
    (j, k)
}

/// `s` without leading and trailing whitespace.
pub fn trim(s: &str) -> (r: String)
    ensures
        r@ == trim_seq(s@),
{
    let v = chars_of(s);
    let (lo, hi) = trim_bounds(&v);
    string_of(&v, lo, hi)
}

/// `s` without trailing whitespace.
pub fn trim_end(s: &str) -> (r: String)
    ensures
        r@ == trim_end_seq(s@),
{
    let v = chars_of(s);
    let k = trim_end_len(&v, v.len());
    assert(v@.subrange(0, v@.len() as int) =~= v@);
    string_of(&v, 0, k)
}

/// `c` with an ASCII capital letter mapped to its small letter.
pub open spec fn lower_char(c: char) -> char {
    if 'A' <= c <= 'Z' {
        ((c as u32) + 32) as char
    } else {
        c
    }
}

/// `s` with every ASCII capital letter mapped to its small letter.
pub open spec fn lower_seq(s: Seq<char>) -> Seq<char> {
    s.map_values(|c: char| lower_char(c))
}

/// `c` with an ASCII capital letter mapped to its small letter.
fn char_lower(c: char) -> (r: char)
    ensures
        r == lower_char(c),
{
    if 'A' <= c && c <= 'Z' {
        let b = c as u8;
        (b + 32) as char
    } else {
        c
    }
}

/// `s` with ASCII letters in small case (`str::to_ascii_lowercase`).
pub fn to_ascii_lowercase(s: &str) -> (r: String)
    ensures
        r@ == lower_seq(s@),
{
    let v = chars_of(s);
    let mut out = String::new();
    let mut i: usize = 0;
    while i < v.len()
        invariant
            i <= v@.len(),
            v@ == s@,
            out@ == lower_seq(v@.subrange(0, i as int)),
        decreases v@.len() - i,
    {
        let c = char_lower(v[i]);
        push_char(&mut out, c);
        assert(lower_seq(v@.subrange(0, i + 1)) =~= lower_seq(v@.subrange(0, i as int)).push(c));
        i = i + 1;
    }
    assert(v@.subrange(0, v@.len() as int) =~= v@);
    out
}

/// Whether `a` and `b` are equal up to ASCII case (`str::eq_ignore_ascii_case`).
pub fn eq_ignore_ascii_case(a: &str, b: &str) -> (r: bool)
    ensures
        r == (lower_seq(a@) == lower_seq(b@)),
{
    let la = to_ascii_lowercase(a);
    let lb = to_ascii_lowercase(b);
    str_eq(la.as_str(), lb.as_str())
}


/// The view of an optional string.
pub open spec fn opt_view(o: Option<String>) -> Option<Seq<char>> {
    match o {
        Some(s) => Some(s@),
        None => None,
    }
}

/// The views of a sequence of strings.
pub open spec fn views(v: Seq<String>) -> Seq<Seq<char>> {
    v.map_values(|x: String| x@)
}

/// The pieces of `s` between the characters of `delims`, in order, empty
/// pieces included (`str::split` with a set of characters): one piece more
/// than there are separators.
pub open spec fn split_seq(s: Seq<char>, delims: Seq<char>) -> Seq<Seq<char>>
    decreases s.len(),
{
    if s.len() == 0 {
        seq![Seq::empty()]
    } else {
        let p = split_seq(s.drop_last(), delims);
        if delims.contains(s.last()) {
            p.push(Seq::empty())
        } else {
            p.update(p.len() - 1, p.last().push(s.last()))
        }
    }
}

/// `split_seq` never yields an empty list of pieces.
pub proof fn lemma_split_nonempty(s: Seq<char>, delims: Seq<char>)
    ensures
        split_seq(s, delims).len() >= 1,
    decreases s.len(),
{
    if s.len() > 0 {
        lemma_split_nonempty(s.drop_last(), delims);
    }
}

/// Whether no character of `s` is one of `delims`.
pub open spec fn free_of(s: Seq<char>, delims: Seq<char>) -> bool {
    forall|i: int| 0 <= i < s.len() ==> !delims.contains(#[trigger] s[i])
}

/// A text without separators is a single piece.
pub proof fn lemma_split_single(s: Seq<char>, delims: Seq<char>)
    requires
        free_of(s, delims),
    ensures
        split_seq(s, delims) == seq![s],
    decreases s.len(),
{
    if s.len() > 0 {
        assert(free_of(s.drop_last(), delims));
        lemma_split_single(s.drop_last(), delims);
        assert(!delims.contains(s[s.len() - 1]));
        assert(s.drop_last().push(s.last()) =~= s);
        assert(seq![s.drop_last()].update(0, s.drop_last().push(s.last())) =~= seq![s]);
    } else {
        assert(s =~= Seq::<char>::empty());
    }
}

/// Text without separators appended to `s` extends the last piece of `s`.
pub proof fn lemma_split_extend(s: Seq<char>, t: Seq<char>, delims: Seq<char>)
    requires
        free_of(t, delims),
    ensures
        split_seq(s + t, delims) == split_seq(s, delims).update(
            split_seq(s, delims).len() - 1,
            split_seq(s, delims).last() + t,
        ),
    decreases t.len(),
{
    lemma_split_nonempty(s, delims);
    let p = split_seq(s, delims);
    if t.len() == 0 {
        assert(s + t =~= s);
        assert(p.last() + t =~= p.last());
        assert(p.update(p.len() - 1, p.last() + t) =~= p);
    } else {
        let u = t.drop_last();
        assert(free_of(u, delims));
        lemma_split_extend(s, u, delims);
        assert((s + t).drop_last() =~= s + u);
        assert((s + t).last() == t.last());
        assert(!delims.contains(t[t.len() - 1]));
        let q = p.update(p.len() - 1, p.last() + u);
        assert(q.last().push(t.last()) =~= p.last() + t);
        assert(q.update(q.len() - 1, q.last().push(t.last())) =~= p.update(p.len() - 1, p.last() + t));
    }
}

/// Splitting the items joined by a separator character gives the items
/// back, when no item holds a separator.
pub proof fn lemma_split_join(items: Seq<Seq<char>>, c: char, delims: Seq<char>)
    requires
        items.len() > 0,
        delims.contains(c),
        forall|i: int| 0 <= i < items.len() ==> free_of(#[trigger] items[i], delims),
    ensures
        split_seq(join_seq(items, seq![c]), delims) == items,
    decreases items.len(),
{
    if items.len() == 1 {
        lemma_split_single(items[0], delims);
        assert(seq![items[0]] =~= items);
    } else {
        let init = items.drop_last();
        assert forall|i: int| 0 <= i < init.len() implies free_of(#[trigger] init[i], delims) by {
            assert(init[i] == items[i]);
        }
        lemma_split_join(init, c, delims);
        let j = join_seq(init, seq![c]);
        let jc = j + seq![c];
        assert(jc =~= j.push(c));
        assert(jc.drop_last() =~= j);
        assert(split_seq(jc, delims) == init.push(Seq::<char>::empty()));
        assert(free_of(items[items.len() - 1], delims));
        lemma_split_extend(jc, items.last(), delims);
        let e = Seq::<char>::empty();
        assert(e + items.last() =~= items.last());
        assert(init.push(e).update(init.len() as int, e + items.last()) =~= items);
    }
}

/// A list of items that are already trimmed and not empty is its own
/// cleaned list.
pub proof fn lemma_clean_list_plain(items: Seq<Seq<char>>)
    requires
        forall|i: int|
            0 <= i < items.len() ==> (#[trigger] items[i]).len() > 0 && trim_seq(items[i])
                == items[i],
    ensures
        clean_list(items) == items,
    decreases items.len(),
{
    if items.len() > 0 {
        let init = items.drop_last();
        assert forall|i: int| 0 <= i < init.len() implies (#[trigger] init[i]).len() > 0 && trim_seq(
            init[i],
        ) == init[i] by {
            assert(init[i] == items[i]);
        }
        lemma_clean_list_plain(init);
        assert(items[items.len() - 1].len() > 0);
        assert(init.push(items.last()) =~= items);
    }
}

/// Whether the items of a list read back as they are once joined by
/// commas and split at `seps`: none is empty, none has whitespace at its
/// ends, and none holds a character of `seps`.
pub open spec fn plain_items(items: Seq<Seq<char>>, seps: Seq<char>) -> bool {
    forall|i: int|
        0 <= i < items.len() ==> (#[trigger] items[i]).len() > 0 && trim_seq(items[i]) == items[i]
            && free_of(items[i], seps)
}

/// A list joined by commas and split again at separators that include the
/// comma gives the list back, once the pieces are cleaned.
pub proof fn lemma_join_reads_back(items: Seq<Seq<char>>, seps: Seq<char>)
    requires
        plain_items(items, seps),
        seps.contains(','),
    ensures
        clean_list(split_seq(join_seq(items, ","@), seps)) == items,
{
    reveal_strlit(",");
    assert(","@ =~= seq![',']);
    if items.len() == 0 {
        let e = Seq::<char>::empty();
        assert(split_seq(e, seps) == seq![e]);
        assert(seq![e].drop_last() =~= Seq::<Seq<char>>::empty());
        assert(trim_seq(e) =~= e);
        assert(seq![e].last() == e);
        assert(clean_list(Seq::<Seq<char>>::empty()) == Seq::<Seq<char>>::empty());
        assert(clean_list(seq![e]) =~= items);
    } else {
        lemma_split_join(items, ',', seps);
        lemma_clean_list_plain(items);
    }
}

/// Joined items that are not empty start with the first item's first
/// character and end with the last item's last character.
pub proof fn lemma_join_ends(items: Seq<Seq<char>>, sep: Seq<char>)
    requires
        items.len() > 0,
        forall|i: int| 0 <= i < items.len() ==> (#[trigger] items[i]).len() > 0,
    ensures
        join_seq(items, sep).len() > 0,
        join_seq(items, sep)[0] == items[0][0],
        join_seq(items, sep).last() == items.last().last(),
    decreases items.len(),
{
    if items.len() > 1 {
        let init = items.drop_last();
        assert forall|i: int| 0 <= i < init.len() implies (#[trigger] init[i]).len() > 0 by {
            assert(init[i] == items[i]);
        }
        lemma_join_ends(init, sep);
        assert(items[items.len() - 1].len() > 0);
    }
}

/// A list of plain items joined by commas has no whitespace at its ends.
pub proof fn lemma_join_trimmed(items: Seq<Seq<char>>, seps: Seq<char>)
    requires
        plain_items(items, seps),
    ensures
        trim_seq(join_seq(items, ","@)) == join_seq(items, ","@),
{
    if items.len() > 0 {
        lemma_join_ends(items, ","@);
        lemma_trim_ends(items[0]);
        lemma_trim_ends(items[items.len() - 1]);
        lemma_trim_unchanged(join_seq(items, ","@));
    } else {
        assert(join_seq(items, ","@) =~= Seq::<char>::empty());
        lemma_trim_unchanged(join_seq(items, ","@));
    }
}

/// Trimming twice is trimming once.
pub proof fn lemma_trim_idempotent(s: Seq<char>)
    ensures
        trim_seq(trim_seq(s)) == trim_seq(s),
{
    lemma_trim_ends(s);
    lemma_trim_unchanged(trim_seq(s));
}

/// The items of a cleaned list are trimmed and not empty.
pub proof fn lemma_clean_list_items(pieces: Seq<Seq<char>>)
    ensures
        forall|i: int|
            0 <= i < clean_list(pieces).len() ==> (#[trigger] clean_list(pieces)[i]).len() > 0
                && trim_seq(clean_list(pieces)[i]) == clean_list(pieces)[i],
    decreases pieces.len(),
{
    if pieces.len() > 0 {
        let rest = clean_list(pieces.drop_last());
        lemma_clean_list_items(pieces.drop_last());
        lemma_trim_idempotent(pieces.last());
        let t = trim_seq(pieces.last());
        if t.len() > 0 {
            assert forall|i: int| 0 <= i < rest.push(t).len() implies (#[trigger] rest.push(t)[i]).len()
                > 0 && trim_seq(rest.push(t)[i]) == rest.push(t)[i] by {
                if i < rest.len() {
                    assert(rest.push(t)[i] == rest[i]);
                }
            }
        }
    }
}

/// A list joined by one of the separators and split again at them gives
/// the list back, once the pieces are cleaned.
pub proof fn lemma_join_char_reads_back(items: Seq<Seq<char>>, c: char, seps: Seq<char>)
    requires
        plain_items(items, seps),
        seps.contains(c),
    ensures
        clean_list(split_seq(join_seq(items, seq![c]), seps)) == items,
{
    if items.len() == 0 {
        let e = Seq::<char>::empty();
        assert(join_seq(items, seq![c]) == e);
        assert(split_seq(e, seps) == seq![e]);
        assert(seq![e].drop_last() =~= Seq::<Seq<char>>::empty());
        assert(trim_seq(e) =~= e);
        assert(seq![e].last() == e);
        assert(clean_list(Seq::<Seq<char>>::empty()) == Seq::<Seq<char>>::empty());
        assert(clean_list(seq![e]) =~= items);
    } else {
        lemma_split_join(items, c, seps);
        lemma_clean_list_plain(items);
    }
}

/// The pieces of `v` between the characters of `delims`.
pub fn split_any(v: &Vec<char>, delims: &Vec<char>) -> (r: Vec<String>)
    ensures
        views(r@) == split_seq(v@, delims@),
{
    let mut done: Vec<String> = Vec::new();
    let mut cur = String::new();
    let mut i: usize = 0;
    while i < v.len()
        invariant
            i <= v@.len(),
            views(done@).push(cur@) == split_seq(v@.subrange(0, i as int), delims@),
        decreases v@.len() - i,
    {
        let c = v[i];
        let ghost pre = v@.subrange(0, i as int);
        assert(v@.subrange(0, i + 1).drop_last() =~= pre);
        proof {
            lemma_split_nonempty(pre, delims@);
        }
        if contains_char(delims, c) {
            let piece = cur;
            done.push(piece);
            cur = String::new();
            assert(views(done@).push(cur@) =~= split_seq(v@.subrange(0, i + 1), delims@));
        } else {
            push_char(&mut cur, c);
            assert(views(done@).push(cur@) =~= split_seq(v@.subrange(0, i + 1), delims@));
        }
        i = i + 1;
    }
    assert(v@.subrange(0, v@.len() as int) =~= v@);
    done.push(cur);
    assert(views(done@) =~= split_seq(v@, delims@));
    done
}

/// Whether `c` occurs in `v`.
pub fn contains_char(v: &Vec<char>, c: char) -> (r: bool)
    ensures
        r == v@.contains(c),
{
    let mut i: usize = 0;
    while i < v.len()
        invariant
            i <= v@.len(),
            forall|j: int| 0 <= j < i ==> v@[j] != c,
        decreases v@.len() - i,
    {
        if v[i] == c {
            return true;
        }
        i = i + 1;
    }
    false
}

/// The trimmed pieces that are not empty, in order.
pub open spec fn clean_list(pieces: Seq<Seq<char>>) -> Seq<Seq<char>>
    decreases pieces.len(),
{
    if pieces.len() == 0 {
        Seq::empty()
    } else {
        let rest = clean_list(pieces.drop_last());
        let t = trim_seq(pieces.last());
        if t.len() == 0 {
            rest
        } else {
            rest.push(t)
        }
    }
}

/// The list written in `s`: the pieces between the characters of `delims`,
/// each trimmed, the empty ones left out.
pub fn split_trimmed(s: &str, delims: &Vec<char>) -> (r: Vec<String>)
    ensures
        views(r@) == clean_list(split_seq(s@, delims@)),
{
    let v = chars_of(s);
    let pieces = split_any(&v, delims);
    let mut out: Vec<String> = Vec::new();
    let mut i: usize = 0;
    while i < pieces.len()
        invariant
            i <= pieces@.len(),
            views(pieces@) == split_seq(s@, delims@),
            views(out@) == clean_list(views(pieces@).subrange(0, i as int)),
        decreases pieces@.len() - i,
    {
        let t = trim(pieces[i].as_str());
        let ghost sub = views(pieces@).subrange(0, i + 1);
        assert(sub.drop_last() =~= views(pieces@).subrange(0, i as int));
        assert(sub.last() == pieces@[i as int]@);
        if !t.as_str().is_empty() {
            out.push(t);
            assert(views(out@) =~= clean_list(sub));
        } else {
            assert(views(out@) =~= clean_list(sub));
        }
        i = i + 1;
    }
    assert(views(pieces@).subrange(0, pieces@.len() as int) =~= views(pieces@));
    out
}

/// The lines of `s`: the pieces between `'\n'` characters, where a final
/// empty piece (after a last `'\n'`, or of an empty `s`) does not count.
pub open spec fn lines_seq(s: Seq<char>) -> Seq<Seq<char>> {
    let p = split_seq(s, seq!['\n']);
    if p.last().len() == 0 {
        p.drop_last()
    } else {
        p
    }
}

/// The lines of `s`.
pub fn split_lines(s: &str) -> (r: Vec<String>)
    ensures
        views(r@) == lines_seq(s@),
{
    let v = chars_of(s);
    let nl = vec!['\n'];
    assert(nl@ =~= seq!['\n']);
    let mut pieces = split_any(&v, &nl);
    proof {
        lemma_split_nonempty(s@, seq!['\n']);
    }
    let n = pieces.len();
    if pieces[n - 1].as_str().is_empty() {
        pieces.pop();
        assert(views(pieces@) =~= lines_seq(s@));
    }
    pieces
}


/// The number of bytes that `c` takes in UTF-8 (`char::len_utf8`).
pub open spec fn utf8_len(c: char) -> nat {
    let u = c as u32;
    if u < 0x80 {
        1
    } else if u < 0x800 {
        2
    } else if u < 0x10000 {
        3
    } else {
        4
    }
}

/// The number of bytes that `s` takes in UTF-8 (`str::len`).
pub open spec fn byte_len(s: Seq<char>) -> nat
    decreases s.len(),
{
    if s.len() == 0 {
        0
    } else {
        byte_len(s.drop_last()) + utf8_len(s.last())
    }
}

/// The number of bytes that `c` takes in UTF-8.
pub fn char_utf8_len(c: char) -> (r: usize)
    ensures
        r == utf8_len(c),
        1 <= r <= 4,
{
    let u = c as u32;
    if u < 0x80 {
        1
    } else if u < 0x800 {
        2
    } else if u < 0x10000 {
        3
    } else {
        4
    }
}

/// The UTF-8 length of a concatenation is the sum of the lengths.
pub proof fn lemma_byte_len_concat(a: Seq<char>, b: Seq<char>)
    ensures
        byte_len(a + b) == byte_len(a) + byte_len(b),
    decreases b.len(),
{
    if b.len() > 0 {
        assert((a + b).drop_last() =~= a + b.drop_last());
        lemma_byte_len_concat(a, b.drop_last());
    } else {
        assert(a + b =~= a);
    }
}

/// A string takes at least one byte per character.
pub proof fn lemma_byte_len_at_least_len(s: Seq<char>)
    ensures
        byte_len(s) >= s.len(),
    decreases s.len(),
{
    if s.len() > 0 {
        lemma_byte_len_at_least_len(s.drop_last());
    }
}

/// The number of characters of the longest prefix of `s` that fits in `m`
/// bytes: characters are dropped from the end until the rest fits.
pub open spec fn fit_len(s: Seq<char>, m: nat) -> nat
    decreases s.len(),
{
    if s.len() == 0 {
        0
    } else if byte_len(s) <= m {
        s.len()
    } else {
        fit_len(s.drop_last(), m)
    }
}

/// The longest prefix of `s` that takes at most `m` bytes: what
/// `String::truncate` keeps when cut at the last character boundary at or
/// before byte `m`.
pub open spec fn byte_prefix(s: Seq<char>, m: nat) -> Seq<char> {
    s.take(fit_len(s, m) as int)
}

/// `fit_len` is a length within `s`.
pub proof fn lemma_fit_len_bound(s: Seq<char>, m: nat)
    ensures
        fit_len(s, m) <= s.len(),
    decreases s.len(),
{
    if s.len() > 0 && byte_len(s) > m {
        lemma_fit_len_bound(s.drop_last(), m);
    }
}

/// Once `s` takes at least `m` bytes, what follows it does not change its
/// longest prefix within `m` bytes.
pub proof fn lemma_byte_prefix_extend(s: Seq<char>, t: Seq<char>, m: nat)
    requires
        byte_len(s) >= m,
    ensures
        fit_len(s + t, m) == fit_len(s, m),
        byte_prefix(s + t, m) == byte_prefix(s, m),
    decreases t.len(),
{
    if t.len() == 0 {
        assert(s + t =~= s);
    } else {
        assert((s + t).drop_last() =~= s + t.drop_last());
        lemma_byte_prefix_extend(s, t.drop_last(), m);
        lemma_byte_len_concat(s, t.drop_last());
        assert(byte_len(s + t) > m);
        lemma_fit_len_bound(s, m);
        assert((s + t).take(fit_len(s, m) as int) =~= s.take(fit_len(s, m) as int));
    }
}

/// Whether `c` is one of the ASCII digits `0`..`9`.
pub open spec fn is_digit(c: char) -> bool {
    '0' <= c <= '9'
}

/// The value of the digit `c`.
pub open spec fn digit_val(c: char) -> int {
    (c as u32) - ('0' as u32)
}

/// Whether `s` is a non-empty run of ASCII digits.
pub open spec fn all_digits(s: Seq<char>) -> bool {
    s.len() > 0 && forall|i: int| 0 <= i < s.len() ==> is_digit(#[trigger] s[i])
}

/// The value of the decimal digits `s`.
pub open spec fn decimal_value(s: Seq<char>) -> int
    decreases s.len(),
{
    if s.len() == 0 {
        0
    } else {
        10 * decimal_value(s.drop_last()) + digit_val(s.last())
    }
}

/// The value that `FromStr` reads for an unsigned integer type, before its
/// range is checked: an optional `+`, then one digit or more.
pub open spec fn unsigned_value(s: Seq<char>) -> Option<int> {
    let body = if s.len() > 0 && s[0] == '+' {
        s.drop_first()
    } else {
        s
    };
    if all_digits(body) {
        Some(decimal_value(body))
    } else {
        None
    }
}

/// The value that `FromStr` reads for a signed integer type, before its
/// range is checked: an optional `+` or `-`, then one digit or more.
pub open spec fn signed_value(s: Seq<char>) -> Option<int> {
    if s.len() > 0 && s[0] == '-' {
        if all_digits(s.drop_first()) {
            Some(-decimal_value(s.drop_first()))
        } else {
            None
        }
    } else {
        unsigned_value(s)
    }
}

/// Digits have a value of zero or more, and more digits never make it
/// smaller.
pub proof fn lemma_decimal_prefix(s: Seq<char>, k: int)
    requires
        0 <= k <= s.len(),
        forall|i: int| 0 <= i < s.len() ==> is_digit(#[trigger] s[i]),
    ensures
        0 <= decimal_value(s.take(k)) <= decimal_value(s),
    decreases s.len(),
{
    if s.len() == 0 {
        assert(s.take(k) =~= s);
    } else if k == s.len() {
        assert(s.take(k) =~= s);
        lemma_decimal_prefix(s.drop_last(), 0);
        assert(s.drop_last().take(0) =~= Seq::<char>::empty());
    } else {
        lemma_decimal_prefix(s.drop_last(), k);
        assert(s.drop_last().take(k) =~= s.take(k));
        lemma_decimal_prefix(s.drop_last(), s.len() - 1);
        assert(s.drop_last().take(s.len() - 1) =~= s.drop_last());
    }
}

/// The value of the digits `v[lo..]` when they are all digits and the value
/// is at most `max`.
fn digits_up_to(v: &Vec<char>, lo: usize, max: u64) -> (r: Option<u64>)
    requires
        lo <= v@.len(),
    ensures
        r is Some <==> (all_digits(v@.subrange(lo as int, v@.len() as int)) && decimal_value(
            v@.subrange(lo as int, v@.len() as int),
        ) <= max),
        r is Some ==> r.unwrap() == decimal_value(v@.subrange(lo as int, v@.len() as int)),
{
    let ghost body = v@.subrange(lo as int, v@.len() as int);
    if lo == v.len() {
        return None;
    }
    let mut val: u128 = 0;
    let mut i = lo;
    while i < v.len()
        invariant
            lo <= i <= v@.len(),
            body == v@.subrange(lo as int, v@.len() as int),
            forall|j: int| lo <= j < i ==> is_digit(#[trigger] v@[j]),
            val == decimal_value(v@.subrange(lo as int, i as int)),
            val <= max,
        decreases v@.len() - i,
    {
        let c = v[i];
        if !('0' <= c && c <= '9') {
            assert(body[i - lo] == c);
            return None;
        }
        let d = (c as u32 - 48) as u128;
        let nv = val * 10 + d;
        assert(v@.subrange(lo as int, i + 1).drop_last() =~= v@.subrange(lo as int, i as int));
        if nv > max as u128 {
            proof {
                if all_digits(body) {
                    lemma_decimal_prefix(body, i + 1 - lo);
                    assert(body.take(i + 1 - lo) =~= v@.subrange(lo as int, i + 1));
                }
            }
            return None;
        }
        val = nv;
        i = i + 1;
    }
    assert(v@.subrange(lo as int, i as int) =~= body);
    Some(val as u64)
}

/// `s` read as an unsigned integer of at most `max`, as `FromStr` reads it.
pub fn parse_unsigned(s: &str, max: u64) -> (r: Option<u64>)
    ensures
        r is Some <==> (unsigned_value(s@) is Some && unsigned_value(s@).unwrap() <= max),
        r is Some ==> r.unwrap() == unsigned_value(s@).unwrap(),
{
    let v = chars_of(s);
    let lo: usize = if v.len() > 0 && v[0] == '+' {
        1
    } else {
        0
    };
    assert(lo == 1 ==> v@.subrange(1, v@.len() as int) =~= s@.drop_first());
    assert(lo == 0 ==> v@.subrange(0, v@.len() as int) =~= s@);
    digits_up_to(&v, lo, max)
}

/// `s` read as an `i64`, as `FromStr` reads it.
pub fn parse_i64(s: &str) -> (r: Option<i64>)
    ensures
        r is Some <==> (signed_value(s@) is Some && i64::MIN <= signed_value(s@).unwrap()
            <= i64::MAX),
        r is Some ==> r.unwrap() == signed_value(s@).unwrap(),
{
    let v = chars_of(s);
    if v.len() > 0 && v[0] == '-' {
        assert(v@.subrange(1, v@.len() as int) =~= s@.drop_first());
        match digits_up_to(&v, 1, 9223372036854775808u64) {
            Some(m) => {
                if m == 9223372036854775808u64 {
                    Some(i64::MIN)
                } else {
                    Some(-(m as i64))
                }
            },
            None => None,
        }
    } else {
        match parse_unsigned(s, 9223372036854775807u64) {
            Some(m) => Some(m as i64),
            None => None,
        }
    }
}

/// The decimal digit for `d`.
pub open spec fn digit_char(d: int) -> char {
    if d == 0 {
        '0'
    } else if d == 1 {
        '1'
    } else if d == 2 {
        '2'
    } else if d == 3 {
        '3'
    } else if d == 4 {
        '4'
    } else if d == 5 {
        '5'
    } else if d == 6 {
        '6'
    } else if d == 7 {
        '7'
    } else if d == 8 {
        '8'
    } else {
        '9'
    }
}

/// The decimal notation of `n`, without leading zeros (`Display` of an
/// unsigned integer).
pub open spec fn decimal_repr(n: nat) -> Seq<char>
    decreases n,
{
    if n < 10 {
        seq![digit_char(n as int)]
    } else {
        decimal_repr(n / 10).push(digit_char((n % 10) as int))
    }
}

fn digit_to_char(d: u64) -> (r: char)
    requires
        d < 10,
    ensures
        r == digit_char(d as int),
{
    if d == 0 {
        '0'
    } else if d == 1 {
        '1'
    } else if d == 2 {
        '2'
    } else if d == 3 {
        '3'
    } else if d == 4 {
        '4'
    } else if d == 5 {
        '5'
    } else if d == 6 {
        '6'
    } else if d == 7 {
        '7'
    } else if d == 8 {
        '8'
    } else {
        '9'
    }
}

/// Appends the decimal notation of `n` to `s`.
pub fn push_decimal(s: &mut String, n: u64)
    ensures
        final(s)@ == old(s)@ + decimal_repr(n as nat),
    decreases n,
{
    if n < 10 {
        push_char(s, digit_to_char(n));
        assert(old(s)@.push(digit_char(n as int)) =~= old(s)@ + decimal_repr(n as nat));
    } else {
        push_decimal(s, n / 10);
        push_char(s, digit_to_char(n % 10));
        assert(old(s)@ + decimal_repr((n / 10) as nat) + seq![digit_char((n % 10) as int)]
            =~= old(s)@ + decimal_repr(n as nat));
    }
}

/// The decimal notation of `n`.
pub fn u64_to_string(n: u64) -> (r: String)
    ensures
        r@ == decimal_repr(n as nat),
{
    let mut s = String::new();
    push_decimal(&mut s, n);
    assert(s@ =~= decimal_repr(n as nat));
    s
}

/// `"true"` or `"false"`.
pub open spec fn bool_text(b: bool) -> Seq<char> {
    if b {
        "true"@
    } else {
        "false"@
    }
}

/// The text of `b` (`bool::to_string`).
pub fn bool_to_string(b: bool) -> (r: String)
    ensures
        r@ == bool_text(b),
{
    if b {
        "true".to_string()
    } else {
        "false".to_string()
    }
}

/// The items of `items` joined with `sep` between them.
pub open spec fn join_seq(items: Seq<Seq<char>>, sep: Seq<char>) -> Seq<char>
    decreases items.len(),
{
    if items.len() == 0 {
        Seq::empty()
    } else if items.len() == 1 {
        items[0]
    } else {
        join_seq(items.drop_last(), sep) + sep + items.last()
    }
}

/// The items of `items` joined with `sep` between them (`[String]::join`).
pub fn join(items: &Vec<String>, sep: &str) -> (r: String)
    ensures
        r@ == join_seq(views(items@), sep@),
{
    let mut out = String::new();
    let mut i: usize = 0;
    while i < items.len()
        invariant
            i <= items@.len(),
            out@ == join_seq(views(items@).subrange(0, i as int), sep@),
        decreases items@.len() - i,
    {
        let ghost sub = views(items@).subrange(0, i + 1);
        assert(sub.drop_last() =~= views(items@).subrange(0, i as int));
        if i > 0 {
            string_push_str(&mut out, sep);
        } else {
            assert(out@ =~= Seq::<char>::empty());
        }
        string_push_str(&mut out, items[i].as_str());
        assert(out@ =~= join_seq(sub, sep@));
        i = i + 1;
    }
    assert(views(items@).subrange(0, items@.len() as int) =~= views(items@));
    out
}


/// Whether `p` occurs in `s` at position `i`.
pub open spec fn occurs_at(s: Seq<char>, p: Seq<char>, i: int) -> bool {
    0 <= i && i + p.len() <= s.len() && s.subrange(i, i + p.len()) == p
}

/// Whether `p` occurs somewhere in `s` (`str::contains` with a string).
pub open spec fn contains_seq(s: Seq<char>, p: Seq<char>) -> bool {
    exists|i: int| occurs_at(s, p, i)
}

/// Whether `p` occurs in `s` at position `i`.
fn matches_at(s: &Vec<char>, p: &Vec<char>, i: usize) -> (r: bool)
    requires
        i + p@.len() <= s@.len(),
    ensures
        r == occurs_at(s@, p@, i as int),
{
    let mut j: usize = 0;
    let sl = s.len();
    while j < p.len()
        invariant
            sl == s@.len(),
            i + p@.len() <= s@.len(),
            j <= p@.len(),
            forall|k: int| 0 <= k < j ==> s@[i + k] == p@[k],
        decreases p@.len() - j,
    {
        if s[i + j] != p[j] {
            assert(s@.subrange(i as int, i + p@.len())[j as int] != p@[j as int]);
            return false;
        }
        j = j + 1;
    }
    assert(s@.subrange(i as int, i + p@.len()) =~= p@);
    true
}

/// Whether `p` occurs somewhere in `s`.
pub fn str_contains(s: &str, p: &str) -> (r: bool)
    ensures
        r == contains_seq(s@, p@),
{
    let sv = chars_of(s);
    let pv = chars_of(p);
    if pv.len() > sv.len() {
        assert forall|i: int| !occurs_at(s@, p@, i) by {}
        return false;
    }
    let last = sv.len() - pv.len();
    let mut i: usize = 0;
    while i <= last
        invariant
            sv@ == s@,
            pv@ == p@,
            last == sv@.len() - pv@.len(),
            i <= last + 1,
            forall|k: int| 0 <= k < i ==> !occurs_at(s@, p@, k),
        decreases last + 1 - i,
    {
        if matches_at(&sv, &pv, i) {
            return true;
        }
        if i == last {
            assert forall|k: int| !occurs_at(s@, p@, k) by {
                if 0 <= k <= i {
                }
            }
            return false;
        }
        i = i + 1;
    }
    assert forall|k: int| !occurs_at(s@, p@, k) by {
        if 0 <= k < i {
        }
    }
    false
}


proof fn lemma_digit_char(d: int)
    requires
        0 <= d < 10,
    ensures
        is_digit(digit_char(d)),
        digit_val(digit_char(d)) == d,
{
}

proof fn lemma_decimal_repr(n: nat)
    ensures
        decimal_repr(n).len() >= 1,
        forall|i: int| 0 <= i < decimal_repr(n).len() ==> is_digit(#[trigger] decimal_repr(n)[i]),
        decimal_value(decimal_repr(n)) == n,
    decreases n,
{
    if n < 10 {
        lemma_digit_char(n as int);
        let s = decimal_repr(n);
        assert(s.drop_last() =~= Seq::<char>::empty());
        assert(decimal_value(Seq::<char>::empty()) == 0);
        assert(s.last() == digit_char(n as int));
        assert(decimal_value(s) == 10 * decimal_value(s.drop_last()) + digit_val(s.last()));
    } else {
        lemma_decimal_repr(n / 10);
        lemma_digit_char((n % 10) as int);
        let s = decimal_repr(n);
        assert(s.drop_last() =~= decimal_repr(n / 10));
        assert(s.last() == digit_char((n % 10) as int));
        assert(decimal_value(s) == 10 * decimal_value(s.drop_last()) + digit_val(s.last()));
        assert(10 * (n / 10) + n % 10 == n);
    }
}

/// The decimal notation of a number is made of digits, which ASCII case
/// folding leaves as they are; its first character is a digit.
pub proof fn lemma_decimal_lower(n: nat)
    ensures
        lower_seq(decimal_repr(n)) == decimal_repr(n),
        decimal_repr(n).len() > 0,
        is_digit(decimal_repr(n)[0]),
{
    lemma_decimal_repr(n);
    let s = decimal_repr(n);
    assert forall|i: int| 0 <= i < s.len() implies lower_seq(s)[i] == s[i] by {
        assert(is_digit(s[i]));
    }
    assert(lower_seq(s) =~= s);
}

/// The decimal notation of a number has no whitespace at its ends.
pub proof fn lemma_decimal_trimmed(n: nat)
    ensures
        trim_seq(decimal_repr(n)) == decimal_repr(n),
{
    lemma_decimal_repr(n);
    let s = decimal_repr(n);
    assert(is_digit(s[0]));
    assert(is_digit(s[s.len() - 1]));
    lemma_trim_unchanged(s);
}

/// Reading back the decimal notation of a number gives the number: what
/// the editors show of a whole-number setting is accepted as typed input.
pub proof fn law_decimal_roundtrip(n: nat)
    ensures
        unsigned_value(decimal_repr(n)) == Some(n as int),
        signed_value(decimal_repr(n)) == Some(n as int),
{
    lemma_decimal_repr(n);
    assert(is_digit(decimal_repr(n)[0]));
}


/// A number read by `FromStr` for an unsigned type is never negative.
pub proof fn lemma_unsigned_value_nonneg(s: Seq<char>)
    ensures
        unsigned_value(s) matches Some(v) ==> v >= 0,
{
    let body = if s.len() > 0 && s[0] == '+' {
        s.drop_first()
    } else {
        s
    };
    if all_digits(body) {
        lemma_decimal_prefix(body, 0);
    }
}


/// Trimming the end keeps a prefix whose last character is not whitespace.
pub proof fn lemma_trim_end_shape(s: Seq<char>)
    ensures
        trim_end_seq(s) == s.take(trim_end_seq(s).len() as int),
        trim_end_seq(s).len() <= s.len(),
        trim_end_seq(s).len() > 0 ==> !is_ws(trim_end_seq(s).last()),
    decreases s.len(),
{
    if s.len() > 0 && is_ws(s.last()) {
        lemma_trim_end_shape(s.drop_last());
        assert(s.drop_last().take(trim_end_seq(s).len() as int) =~= s.take(
            trim_end_seq(s).len() as int,
        ));
    } else {
        assert(s.take(s.len() as int) =~= s);
    }
}

/// Trimming the start keeps a suffix whose first character is not
/// whitespace.
pub proof fn lemma_trim_start_shape(s: Seq<char>)
    ensures
        trim_start_seq(s) == s.skip(s.len() - trim_start_seq(s).len()),
        trim_start_seq(s).len() <= s.len(),
        trim_start_seq(s).len() > 0 ==> !is_ws(trim_start_seq(s)[0]),
    decreases s.len(),
{
    if s.len() > 0 && is_ws(s[0]) {
        lemma_trim_start_shape(s.drop_first());
        assert(s.drop_first().skip(s.len() - 1 - trim_start_seq(s).len()) =~= s.skip(
            s.len() - trim_start_seq(s).len(),
        ));
    } else {
        assert(s.skip(0) =~= s);
    }
}

/// A trimmed text that is not empty starts and ends with a character that is
/// not whitespace.
pub proof fn lemma_trim_ends(s: Seq<char>)
    ensures
        trim_seq(s).len() > 0 ==> !is_ws(trim_seq(s)[0]) && !is_ws(trim_seq(s).last()),
{
    let u = trim_end_seq(s);
    lemma_trim_end_shape(s);
    lemma_trim_start_shape(u);
    let t = trim_seq(s);
    if t.len() > 0 {
        assert(t.last() == u.last());
    }
}

/// A text that starts and ends with a character that is not whitespace is
/// its own trim.
pub proof fn lemma_trim_unchanged(s: Seq<char>)
    requires
        s.len() > 0 ==> !is_ws(s[0]) && !is_ws(s.last()),
    ensures
        trim_seq(s) == s,
{
}

/// Where `p` occurs in `s`, it occurs in anything around `s` too.
pub proof fn lemma_contains_within(a: Seq<char>, s: Seq<char>, b: Seq<char>, p: Seq<char>)
    requires
        contains_seq(s, p),
    ensures
        contains_seq(a + s + b, p),
{
    let i = choose|i: int| occurs_at(s, p, i);
    assert((a + s + b).subrange(a.len() + i, a.len() + i + p.len()) =~= s.subrange(i, i + p.len()));
    assert(occurs_at(a + s + b, p, a.len() + i));
}

} // verus!

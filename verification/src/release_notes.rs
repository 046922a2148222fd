//! The short preview of a release's change log that the update prompts show.

use vstd::prelude::*;

use crate::text::{
    byte_len, lemma_fit_len_bound, byte_prefix, char_utf8_len, chars_of, fit_len, join_seq, lemma_byte_len_concat,
    lemma_byte_prefix_extend, lines_seq, split_lines, string_push, string_push_str, str_eq, trim,
    trim_end_len, trim_end_seq, trim_seq, views,
};

verus! {

/// The lines that are not blank, each without its trailing whitespace.
pub open spec fn kept_lines(ls: Seq<Seq<char>>) -> Seq<Seq<char>>
    decreases ls.len(),
{
    if ls.len() == 0 {
        Seq::empty()
    } else {
        let rest = kept_lines(ls.drop_last());
        let t = trim_end_seq(ls.last());
        if t.len() == 0 {
            rest
        } else {
            rest.push(t)
        }
    }
}

/// The line separator of a preview.
pub open spec fn newline() -> Seq<char> {
    seq!['\n']
}

/// The preview of the notes `body`: of its first `max_lines` lines, those
/// that are not blank, without trailing whitespace, one per line. When that
/// text takes `max_chars` bytes or more, it is cut to the longest prefix that
/// fits in `max_chars` bytes and `…` follows; otherwise `…` follows when
/// lines were left out.
pub open spec fn preview_text(body: Seq<char>, max_lines: nat, max_chars: nat) -> Seq<char> {
    let ls = lines_seq(body);
    let shown = if ls.len() <= max_lines {
        ls
    } else {
        ls.take(max_lines as int)
    };
    let kept = kept_lines(shown);
    let joined = join_seq(kept, newline());
    if kept.len() > 0 && byte_len(joined) >= max_chars {
        byte_prefix(joined, max_chars).push('…')
    } else if ls.len() > max_lines {
        joined.push('…')
    } else {
        joined
    }
}

/// Whether `p` is a prefix of `s`.
pub open spec fn is_prefix(p: Seq<char>, s: Seq<char>) -> bool {
    p.len() <= s.len() && s.take(p.len() as int) == p
}

proof fn lemma_join_push(k: Seq<Seq<char>>, t: Seq<char>, sep: Seq<char>)
    ensures
        join_seq(k.push(t), sep) == if k.len() == 0 {
            t
        } else {
            join_seq(k, sep) + sep + t
        },
{
    assert(k.push(t).drop_last() =~= k);
    if k.len() == 0 {
        assert(k.push(t)[0] == t);
    }
}

proof fn lemma_kept_step(ls: Seq<Seq<char>>, i: int)
    requires
        0 <= i < ls.len(),
    ensures
        kept_lines(ls.take(i + 1)) == if trim_end_seq(ls[i]).len() == 0 {
            kept_lines(ls.take(i))
        } else {
            kept_lines(ls.take(i)).push(trim_end_seq(ls[i]))
        },
{
    assert(ls.take(i + 1).drop_last() =~= ls.take(i));
    assert(ls.take(i + 1).last() == ls[i]);
}

proof fn lemma_join_kept_prefix(ls: Seq<Seq<char>>, a: int, b: int)
    requires
        0 <= a <= b <= ls.len(),
    ensures
        is_prefix(
            join_seq(kept_lines(ls.take(a)), newline()),
            join_seq(kept_lines(ls.take(b)), newline()),
        ),
    decreases b - a,
{
    let p = join_seq(kept_lines(ls.take(a)), newline());
    if a == b {
        assert(p.take(p.len() as int) =~= p);
    } else {
        lemma_join_kept_prefix(ls, a, b - 1);
        lemma_kept_step(ls, b - 1);
        let k = kept_lines(ls.take(b - 1));
        let q = join_seq(k, newline());
        let t = trim_end_seq(ls[b - 1]);
        if t.len() > 0 {
            lemma_join_push(k, t, newline());
            if k.len() == 0 {
                assert(p =~= Seq::<char>::empty());
                assert(t.take(0) =~= p);
            } else {
                assert((q + newline() + t).take(p.len() as int) =~= q.take(p.len() as int));
            }
        }
    }
}

/// Extends `dst` with `v[lo..hi]`.
fn extend_chars(dst: &mut Vec<char>, v: &Vec<char>, lo: usize, hi: usize)
    requires
        lo <= hi <= v@.len(),
    ensures
        final(dst)@ == old(dst)@ + v@.subrange(lo as int, hi as int),
{
    let mut i = lo;
    while i < hi
        invariant
            lo <= i <= hi <= v@.len(),
            dst@ == old(dst)@ + v@.subrange(lo as int, i as int),
        decreases hi - i,
    {
        dst.push(v[i]);
        assert(v@.subrange(lo as int, i + 1) =~= v@.subrange(lo as int, i as int).push(v@[i as int]));
        i = i + 1;
    }
}

/// Appends `seg` to `out` as long as `out` stays within `max` bytes; `bytes`
/// is the byte length of `out`. When a character does not fit, `out` is the
/// longest prefix of the whole text that fits and the result is `false`.
fn append_within(out: &mut String, bytes: &mut usize, seg: &Vec<char>, max: usize) -> (fits: bool)
    requires
        byte_len(old(out)@) == *old(bytes),
        *old(bytes) <= max,
    ensures
        fits ==> final(out)@ == old(out)@ + seg@ && *final(bytes) == byte_len(final(out)@)
            && *final(bytes) <= max,
        !fits ==> final(out)@ == byte_prefix(old(out)@ + seg@, max as nat) && byte_len(
            old(out)@ + seg@,
        ) > max,
{
    let ghost start = out@;
    let mut j: usize = 0;
    while j < seg.len()
        invariant
            j <= seg@.len(),
            start == old(out)@,
            out@ == start + seg@.take(j as int),
            *bytes == byte_len(out@),
            *bytes <= max,
        decreases seg@.len() - j,
    {
        let c = seg[j];
        let n = char_utf8_len(c);
        if n > max - *bytes {
            proof {
                let s1 = start + seg@.take(j + 1);
                assert(s1 =~= out@.push(c));
                assert(s1.drop_last() =~= out@);
                assert(s1.last() == c);
                assert(byte_len(s1) == byte_len(out@) + crate::text::utf8_len(c));
                assert(byte_len(s1) > max);
                assert(fit_len(s1, max as nat) == fit_len(out@, max as nat));
                let rest = seg@.skip(j + 1);
                lemma_byte_prefix_extend(s1, rest, max as nat);
                assert(s1 + rest =~= start + seg@);
                lemma_byte_len_concat(s1, rest);
                if out@.len() > 0 {
                    assert(fit_len(out@, max as nat) == out@.len());
                }
                assert(s1.take(out@.len() as int) =~= out@);
            }
            return false;
        }
        string_push(out, c);
        *bytes = *bytes + n;
        proof {
            assert(out@.drop_last() =~= start + seg@.take(j as int));
            assert(start + seg@.take(j + 1) =~= out@);
        }
        j = j + 1;
    }
    assert(seg@.take(seg@.len() as int) =~= seg@);
    true
}

/// The preview of the change log `body`: at most `max_lines` lines, blank
/// ones dropped and trailing whitespace removed, cut to `max_chars` bytes at a
/// character boundary; `…` marks that something was left out.
pub fn preview_notes(body: &str, max_lines: usize, max_chars: usize) -> (r: String)
    ensures
        r@ == preview_text(body@, max_lines as nat, max_chars as nat),
{
    let lines = split_lines(body);
    let ghost ls = views(lines@);
    let mut out = String::new();
    let mut bytes: usize = 0;
    let mut i: usize = 0;
    while i < lines.len()
        invariant
            ls == views(lines@),
            ls == lines_seq(body@),
            i <= ls.len(),
            i <= max_lines,
            out@ == join_seq(kept_lines(ls.take(i as int)), newline()),
            bytes == byte_len(out@),
            (kept_lines(ls.take(i as int)).len() == 0) == (out@.len() == 0),
            kept_lines(ls.take(i as int)).len() == 0 || bytes < max_chars,
        decreases ls.len() - i,
    {
        if i >= max_lines {
            string_push(&mut out, '…');
            return out;
        }
        let v = chars_of(lines[i].as_str());
        let k = trim_end_len(&v, v.len());
        proof {
            assert(v@.subrange(0, v@.len() as int) =~= ls[i as int]);
            lemma_kept_step(ls, i as int);
        }
        if k == 0 {
            i = i + 1;
            continue;
        }
        let ghost kk = kept_lines(ls.take(i as int));
        let ghost t = trim_end_seq(ls[i as int]);
        let first = out.as_str().is_empty();
        let mut seg: Vec<char> = Vec::new();
        if !first {
            seg.push('\n');
        }
        extend_chars(&mut seg, &v, 0, k);
        let ghost old_out = out@;
        let fits = append_within(&mut out, &mut bytes, &seg, max_chars);
        proof {
            lemma_join_push(kk, t, newline());
            if first {
                assert(seg@ =~= t);
                assert(old_out + seg@ =~= t);
            } else {
                assert(seg@ =~= newline() + t);
                assert(old_out + seg@ =~= old_out + newline() + t);
            }
        }
        if !fits || bytes >= max_chars {
            proof {
                let a = join_seq(kept_lines(ls.take(i + 1)), newline());
                assert(a == old_out + seg@);
                let shown_len: int = if ls.len() <= max_lines {
                    ls.len() as int
                } else {
                    max_lines as int
                };
                let shown = if ls.len() <= max_lines {
                    ls
                } else {
                    ls.take(max_lines as int)
                };
                assert(ls.take(shown_len) =~= shown);
                lemma_join_kept_prefix(ls, i + 1, shown_len);
                let joined = join_seq(kept_lines(shown), newline());
                let rest = joined.skip(a.len() as int);
                assert(a + rest =~= joined);
                lemma_byte_len_concat(a, rest);
                lemma_byte_prefix_extend(a, rest, max_chars as nat);
                if kept_lines(shown).len() == 0 {
                    assert(joined =~= Seq::<char>::empty());
                }
                if fits {
                    assert(fit_len(a, max_chars as nat) == a.len());
                    assert(a.take(a.len() as int) =~= a);
                }
            }
            string_push(&mut out, '…');
            return out;
        }
        i = i + 1;
    }
    proof {
        assert(ls.take(ls.len() as int) =~= ls);
    }
    out
}


proof fn lemma_byte_prefix_fits(s: Seq<char>, m: nat)
    ensures
        byte_len(byte_prefix(s, m)) <= m,
    decreases s.len(),
{
    if s.len() == 0 {
        assert(s.take(0) =~= s);
    } else if byte_len(s) <= m {
        assert(s.take(s.len() as int) =~= s);
    } else {
        lemma_byte_prefix_fits(s.drop_last(), m);
        lemma_fit_len_bound(s.drop_last(), m);
        assert(s.take(fit_len(s, m) as int) =~= s.drop_last().take(fit_len(s.drop_last(), m) as int));
    }
}

/// A preview never takes more than `max_chars` bytes, the closing `…` (three
/// bytes) aside.
pub proof fn law_preview_within_limit(body: Seq<char>, max_lines: nat, max_chars: nat)
    ensures
        byte_len(preview_text(body, max_lines, max_chars)) <= max_chars + 3,
{
    let ls = lines_seq(body);
    let shown = if ls.len() <= max_lines {
        ls
    } else {
        ls.take(max_lines as int)
    };
    let kept = kept_lines(shown);
    let joined = join_seq(kept, newline());
    if kept.len() > 0 && byte_len(joined) >= max_chars {
        let p = byte_prefix(joined, max_chars);
        lemma_byte_prefix_fits(joined, max_chars);
        assert(p.push('…').drop_last() =~= p);
    } else {
        if kept.len() == 0 {
            assert(joined =~= Seq::<char>::empty());
        }
        assert(joined.push('…').drop_last() =~= joined);
    }
}


/// The hint that a newer release exists, shown when the console starts.
pub open spec fn update_hint_text(latest: Seq<char>, current: Seq<char>) -> Seq<char> {
    "\nПодсказка: обнаружена новая версия "@ + latest + " (текущая "@ + current
        + "). Введите c, чтобы посмотреть журнал изменений; введите U для самообновления (если доступно).\n"@
}

/// The hint that release `latest` is newer than `current`.
pub fn startup_update_hint(latest: &str, current: &str) -> (r: String)
    ensures
        r@ == update_hint_text(latest@, current@),
{
    let mut s = "\nПодсказка: обнаружена новая версия ".to_string();
    string_push_str(&mut s, latest);
    string_push_str(&mut s, " (текущая ");
    string_push_str(&mut s, current);
    string_push_str(
        &mut s,
        "). Введите c, чтобы посмотреть журнал изменений; введите U для самообновления (если доступно).\n",
    );
    s
}

/// The change-log excerpt shown when the console starts: the preview of at
/// most 8 lines and 800 bytes, unless it is blank.
pub fn startup_notes_excerpt(body: &str) -> (r: Option<String>)
    ensures
        match r {
            Some(p) => p@ == preview_text(body@, 8, 800) && trim_seq(p@).len() > 0,
            None => trim_seq(preview_text(body@, 8, 800)).len() == 0,
        },
{
    let p = preview_notes(body, 8, 800);
    let t = trim(p.as_str());
    if t.as_str().is_empty() {
        None
    } else {
        Some(p)
    }
}

/// Whether the reminders of release `latest` were stopped, given the release
/// whose reminders were stopped last.
pub fn is_dismissed_release(dismissed: Option<&str>, latest: &str) -> (r: bool)
    ensures
        r == match dismissed {
            Some(d) => d@ == latest@,
            None => false,
        },
{
    match dismissed {
        Some(d) => str_eq(d, latest),
        None => false,
    }
}

} // verus!

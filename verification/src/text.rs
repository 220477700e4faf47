//! Text as sequences of characters: joining, trimming and the views that
//! the contracts of this crate speak of.

use vstd::prelude::*;

verus! {

/// The character sequences of a list of strings, in order.
pub open spec fn texts(v: Seq<String>) -> Seq<Seq<char>> {
    v.map_values(|s: String| s@)
}

/// `whole` holds `text`: it is `text` with something before and something
/// after it.
pub open spec fn wraps(whole: Seq<char>, text: Seq<char>) -> bool {
    exists|before: Seq<char>, after: Seq<char>| whole == before + text + after
}

/// `parts` written one after the other with `sep` between neighbours.
pub open spec fn joined(parts: Seq<Seq<char>>, sep: Seq<char>) -> Seq<char>
    decreases parts.len(),
{
    if parts.len() == 0 {
        Seq::empty()
    } else if parts.len() == 1 {
        parts[0]
    } else {
        joined(parts.drop_last(), sep) + sep + parts.last()
    }
}

/// Joins `parts` with `sep` between neighbours.
pub fn join(parts: &Vec<String>, sep: &str) -> (r: String)
    ensures
        r@ == joined(texts(parts@), sep@),
{
    let mut out = String::new();
    let mut i: usize = 0;
    while i < parts.len()
        invariant
            i <= parts.len(),
            out@ == joined(texts(parts@).take(i as int), sep@),
        decreases parts.len() - i,
    {
        proof {
            let next = texts(parts@).take(i + 1);
            assert(next.drop_last() =~= texts(parts@).take(i as int));
            assert(next.last() == parts@[i as int]@);
        }
        if i > 0 {
            out.append(sep);
        }
        out.append(parts[i].as_str());
        i += 1;
    }
    proof {
        assert(texts(parts@).take(parts.len() as int) =~= texts(parts@));
    }
    out
}

/// Whether `c` is white space, as Unicode's property `White_Space` has it:
/// what `char::is_whitespace` answers.
pub uninterp spec fn is_white_space(c: char) -> bool;

/// `s` without the white space at its end.
pub open spec fn trimmed_end(s: Seq<char>) -> Seq<char>
    decreases s.len(),
{
    if s.len() > 0 && is_white_space(s.last()) {
        trimmed_end(s.drop_last())
    } else {
        s
    }
}

/// Calls `char::is_whitespace`, which tells whether `c` has the property
/// `White_Space`.
#[verifier::external_body]
pub(crate) fn is_whitespace(c: char) -> (r: bool)
    ensures
        r == is_white_space(c),
{
    c.is_whitespace()
}

/// What is left of a text after trimming is where the text starts.
proof fn lemma_trimmed_end_prefix(s: Seq<char>)
    ensures
        trimmed_end(s).len() <= s.len(),
        trimmed_end(s) == s.take(trimmed_end(s).len() as int),
    decreases s.len(),
{
    if s.len() > 0 && is_white_space(s.last()) {
        lemma_trimmed_end_prefix(s.drop_last());
        assert(s.drop_last().take(trimmed_end(s).len() as int) =~= s.take(
            trimmed_end(s).len() as int,
        ));
    } else {
        assert(s.take(s.len() as int) =~= s);
    }
}

/// The line without the white space at its end.
pub fn without_trailing_space(line: &str) -> (r: &str)
    ensures
        r@ == trimmed_end(line@),
{
    let total = line.unicode_len();
    let mut cut: usize = 0;
    let mut seen: usize = 0;
    proof {
        assert(line@.take(0) =~= Seq::<char>::empty());
    }
    for c in it: line.chars()
        invariant
            it.seq() == line@,
            total == line@.len(),
            seen == it.index(),
            cut <= seen <= total,
            cut == trimmed_end(line@.take(seen as int)).len(),
    {
        proof {
            let next = line@.take(seen + 1);
            assert(next.drop_last() =~= line@.take(seen as int));
            assert(next.last() == c);
        }
        seen += 1;
        if !is_whitespace(c) {
            cut = seen;
        }
    }
    proof {
        assert(line@.take(total as int) =~= line@);
        lemma_trimmed_end_prefix(line@);
    }
    line.substring_char(0, cut)
}

/// Calls `String::push`, which appends `c` to the end of `s`.
#[verifier::external_body]
pub(crate) fn push_char(s: &mut String, c: char)
    ensures
        final(s)@ == old(s)@.push(c),
{
    s.push(c)
}

/// `s` with every `from` replaced by `to`.
pub open spec fn replaced(s: Seq<char>, from: char, to: char) -> Seq<char> {
    s.map_values(
        |c: char|
            if c == from {
                to
            } else {
                c
            },
    )
}

/// Replaces every `from` in `s` by `to`.
pub fn replace_char(s: &str, from: char, to: char) -> (r: String)
    ensures
        r@ == replaced(s@, from, to),
{
    let mut out = String::new();
    for c in it: s.chars()
        invariant
            it.seq() == s@,
            out@ == replaced(s@.take(it.index() as int), from, to),
    {
        if c == from {
            push_char(&mut out, to);
        } else {
            push_char(&mut out, c);
        }
        proof {
            assert(out@ =~= replaced(s@.take(it.index() + 1), from, to));
        }
    }
    proof {
        assert(s@.take(s@.len() as int) =~= s@);
    }
    out
}

/// The fields of `s` between occurrences of `sep`, empty ones included.
pub open spec fn fields(s: Seq<char>, sep: char) -> Seq<Seq<char>>
    decreases s.len(),
{
    if s.len() == 0 {
        seq![Seq::empty()]
    } else {
        let before = fields(s.drop_last(), sep);
        if s.last() == sep {
            before.push(Seq::empty())
        } else {
            before.drop_last().push(before.last().push(s.last()))
        }
    }
}

/// There is always at least one field.
pub(crate) proof fn lemma_fields_len(s: Seq<char>, sep: char)
    ensures
        fields(s, sep).len() >= 1,
    decreases s.len(),
{
    if s.len() > 0 {
        lemma_fields_len(s.drop_last(), sep);
    }
}

/// `line` without the carriage return at its end, where it has one.
pub open spec fn without_cr(line: Seq<char>) -> Seq<char> {
    if line.len() > 0 && line.last() == '\r' {
        line.drop_last()
    } else {
        line
    }
}

/// The lines of `s`. A line ends at a line feed, which is not part of it,
/// nor is a carriage return just before the line feed. What follows the
/// last line feed is a line too, unless it is empty.
pub open spec fn lines_spec(s: Seq<char>) -> Seq<Seq<char>> {
    let parts = fields(s, '\n');
    let ended = parts.drop_last().map_values(|line: Seq<char>| without_cr(line));
    if parts.last().len() > 0 {
        ended.push(parts.last())
    } else {
        ended
    }
}

/// What a held-back carriage return adds to the text read so far.
spec fn held_text(held: bool) -> Seq<char> {
    if held {
        seq!['\r']
    } else {
        Seq::empty()
    }
}

/// The lines of `s`, as `str::lines` yields them.
pub fn lines_of(s: &str) -> (r: Vec<String>)
    ensures
        texts(r@) == lines_spec(s@),
{
    let mut out: Vec<String> = Vec::new();
    let mut cur = String::new();
    let mut held = false;
    proof {
        assert(s@.take(0) =~= Seq::<char>::empty());
        assert(fields(s@.take(0), '\n').drop_last().map_values(|line: Seq<char>| without_cr(line))
            =~= Seq::<Seq<char>>::empty());
        assert(texts(out@) =~= Seq::<Seq<char>>::empty());
        assert(cur@ + held_text(held) =~= Seq::<char>::empty());
    }
    for c in it: s.chars()
        invariant
            it.seq() == s@,
            texts(out@) == fields(s@.take(it.index() as int), '\n').drop_last().map_values(
                |line: Seq<char>| without_cr(line),
            ),
            cur@ + held_text(held) == fields(s@.take(it.index() as int), '\n').last(),
            cur@.len() > 0 && cur@.last() == '\r' ==> held,
    {
        let ghost prefix = s@.take(it.index() as int);
        let ghost next = s@.take(it.index() + 1);
        let ghost before = fields(prefix, '\n');
        proof {
            lemma_fields_len(prefix, '\n');
            assert(next.drop_last() =~= prefix);
            assert(next.last() == c);
        }
        if c == '\n' {
            let ghost earlier = texts(out@);
            proof {
                assert(before.push(Seq::<char>::empty()).drop_last() =~= before);
                assert(before =~= before.drop_last().push(before.last()));
                assert(without_cr(cur@ + held_text(held)) =~= cur@);
            }
            out.push(cur);
            proof {
                assert(texts(out@) =~= earlier.push(without_cr(before.last())));
                assert(earlier.push(without_cr(before.last())) =~= before.map_values(
                    |line: Seq<char>| without_cr(line),
                ));
            }
            cur = String::new();
            held = false;
            proof {
                assert(cur@ + held_text(held) =~= Seq::<char>::empty());
            }
        } else {
            let ghost line = cur@ + held_text(held);
            if held {
                push_char(&mut cur, '\r');
            }
            if c == '\r' {
                held = true;
            } else {
                held = false;
                push_char(&mut cur, c);
            }
            proof {
                let grown = before.drop_last().push(before.last().push(c));
                assert(grown.drop_last() =~= before.drop_last());
                assert(cur@ + held_text(held) =~= line.push(c));
            }
        }
    }
    proof {
        assert(s@.take(s@.len() as int) =~= s@);
        lemma_fields_len(s@, '\n');
    }
    let ghost last = cur@ + held_text(held);
    if held {
        push_char(&mut cur, '\r');
    }
    proof {
        assert(cur@ =~= last);
    }
    if !cur.as_str().is_empty() {
        let ghost earlier = texts(out@);
        out.push(cur);
        proof {
            assert(texts(out@) =~= earlier.push(fields(s@, '\n').last()));
        }
    }
    out
}

/// The strings of `lines` from `from` up to `to`, copied.
pub fn copy_range(lines: &Vec<String>, from: usize, to: usize) -> (r: Vec<String>)
    requires
        from <= to <= lines.len(),
    ensures
        texts(r@) == texts(lines@).subrange(from as int, to as int),
{
    let mut out: Vec<String> = Vec::new();
    let mut i: usize = from;
    proof {
        assert(texts(out@) =~= texts(lines@).subrange(from as int, from as int));
    }
    while i < to
        invariant
            from <= i <= to <= lines.len(),
            texts(out@) == texts(lines@).subrange(from as int, i as int),
        decreases to - i,
    {
        let ghost earlier = texts(out@);
        let next = lines[i].clone();
        out.push(next);
        proof {
            assert(texts(out@) =~= earlier.push(next@));
            assert(earlier.push(next@) =~= texts(lines@).subrange(from as int, i + 1));
        }
        i += 1;
    }
    out
}

} // verus!

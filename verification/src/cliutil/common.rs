//! Titles of the progress display and the splitting of long lines.

use crate::cliutil::segment::{grapheme_clusters, graphemes};
use crate::cliutil::term::{clear, green_bold, move_to_column, Region};
use crate::cliutil::term::{clear_line_code, move_to_column_code, styled};
use crate::text::texts;
use vstd::prelude::*;
use vstd::seq_lib::lemma_flatten_concat;

verus! {

/// Where a progress display stands in its life.
#[derive(Clone, Copy, Debug, PartialEq, Eq, Structural)]
pub enum Phase {
    /// Created, not yet shown.
    Idle,
    /// Shown, and repainted at every tick.
    Running,
    /// Stopped, for good.
    Stopped,
}

/// The greatest tick; the tick after it is 0.
pub open spec fn last_tick() -> nat {
    usize::MAX as nat
}

/// The tick that follows `tick`.
pub open spec fn next_tick(tick: nat) -> nat {
    if tick >= last_tick() {
        0
    } else {
        tick + 1
    }
}

/// The time between two repaints, in milliseconds.
pub const UPDATE_DELAY_MS: u64 = 100;

/// The longest that the consumer of a session waits for a line before it
/// looks again whether the session still runs, in milliseconds.
pub const POLL_DELAY_MS: u64 = 200;

/// The number of spinner glyphs.
pub const SPINNER_LEN: usize = 10;

/// The `i`-th glyph of the spinner, for `i` below `SPINNER_LEN`.
pub open spec fn spinner_glyph(i: nat) -> char {
    if i == 0 {
        '⠋'
    } else if i == 1 {
        '⠙'
    } else if i == 2 {
        '⠹'
    } else if i == 3 {
        '⠸'
    } else if i == 4 {
        '⠼'
    } else if i == 5 {
        '⠴'
    } else if i == 6 {
        '⠦'
    } else if i == 7 {
        '⠧'
    } else if i == 8 {
        '⠇'
    } else {
        '⠏'
    }
}

/// `n` dots.
pub open spec fn dots(n: nat) -> Seq<char> {
    Seq::new(n, |i: int| '.')
}

/// The title of a running task at `tick`: the glyph for `tick`, a space,
/// the label, and one to three dots.
pub open spec fn progress_title_spec(title: Seq<char>, tick: nat) -> Seq<char> {
    seq![spinner_glyph(tick % (SPINNER_LEN as nat))] + seq![' '] + title + dots(tick % 3 + 1)
}

/// The title of a finished task: the marker, a space, the label and a
/// line feed.
pub open spec fn completed_title_spec(marker: Seq<char>, title: Seq<char>) -> Seq<char> {
    marker + seq![' '] + title + seq!['\n']
}

/// The text of the marker that stands before a finished task's label.
pub open spec fn done_text() -> Seq<char> {
    seq!['[', 'O', 'K', ']']
}

/// The glyph of the spinner at position `i`, as text.
fn spinner_frame(i: usize) -> (r: &'static str)
    requires
        i < SPINNER_LEN,
    ensures
        r@ == seq![spinner_glyph(i as nat)],
{
    proof {
        reveal_strlit("⠋");
        reveal_strlit("⠙");
        reveal_strlit("⠹");
        reveal_strlit("⠸");
        reveal_strlit("⠼");
        reveal_strlit("⠴");
        reveal_strlit("⠦");
        reveal_strlit("⠧");
        reveal_strlit("⠇");
        reveal_strlit("⠏");
    }
    let r = if i == 0 {
        "⠋"
    } else if i == 1 {
        "⠙"
    } else if i == 2 {
        "⠹"
    } else if i == 3 {
        "⠸"
    } else if i == 4 {
        "⠼"
    } else if i == 5 {
        "⠴"
    } else if i == 6 {
        "⠦"
    } else if i == 7 {
        "⠧"
    } else if i == 8 {
        "⠇"
    } else {
        "⠏"
    };
    assert(r@ =~= seq![spinner_glyph(i as nat)]);
    r
}

/// The title line of a task that is still running.
pub fn progress_title(title: &str, tick: usize) -> (r: String)
    ensures
        r@ == progress_title_spec(title@, tick as nat),
{
    let mut out = String::from_str(spinner_frame(tick % SPINNER_LEN));
    proof {
        reveal_strlit(" ");
        reveal_strlit(".");
    }
    out.append(" ");
    out.append(title);
    let count: usize = tick % 3 + 1;
    let mut i: usize = 0;
    while i < count
        invariant
            i <= count,
            "."@ == seq!['.'],
            out@ == seq![spinner_glyph((tick % SPINNER_LEN) as nat)] + seq![' '] + title@ + dots(
                i as nat,
            ),
        decreases count - i,
    {
        out.append(".");
        assert(dots(i as nat) + seq!['.'] =~= dots((i + 1) as nat));
        i += 1;
    }
    out
}

/// The title depends on the tick only through its remainders by the
/// number of glyphs and by three.
pub proof fn lemma_progress_title_classes(title: Seq<char>, tick_a: nat, tick_b: nat)
    requires
        tick_a % (SPINNER_LEN as nat) == tick_b % (SPINNER_LEN as nat),
        tick_a % 3 == tick_b % 3,
    ensures
        progress_title_spec(title, tick_a) == progress_title_spec(title, tick_b),
{
}

/// A finished task's title line, given the marker as it is to be shown.
pub fn completed_title_with(marker: &str, title: &str) -> (r: String)
    ensures
        r@ == completed_title_spec(marker@, title@),
{
    proof {
        reveal_strlit(" ");
        reveal_strlit("\n");
    }
    let mut out = String::from_str(marker);
    out.append(" ");
    out.append(title);
    out.append("\n");
    out
}

/// The marker of a finished task as it is shown: the text `[OK]`, styled
/// bold and green for the terminal at hand.
pub fn done_marker() -> (r: String)
    ensures
        styled(r@, done_text()),
{
    proof {
        reveal_strlit("[OK]");
        assert("[OK]"@ =~= done_text());
    }
    green_bold("[OK]")
}

/// The title line of a finished task. The marker is the text `[OK]`,
/// styled bold and green for the terminal at hand.
pub fn completed_title(title: &str) -> (r: String)
    ensures
        exists|marker: Seq<char>|
            styled(marker, done_text()) && r@ == completed_title_spec(marker, title@),
{
    let marker = done_marker();
    completed_title_with(marker.as_str(), title)
}

/// The bytes that repaint the title line of a running task: back to the
/// first column, clear the line, then the title.
pub open spec fn progress_frame_spec(title: Seq<char>, tick: nat) -> Seq<char> {
    move_to_column_code(0) + clear_line_code() + progress_title_spec(title, tick)
}

/// The bytes that replace the title line by that of a finished task.
pub open spec fn completed_frame_spec(marker: Seq<char>, title: Seq<char>) -> Seq<char> {
    move_to_column_code(0) + clear_line_code() + completed_title_spec(marker, title)
}

/// What is written to repaint the title line of a running task.
pub fn progress_frame(title: &str, tick: usize) -> (r: String)
    ensures
        r@ == progress_frame_spec(title@, tick as nat),
{
    let mut out = move_to_column(0);
    out.append(clear(Region::Line).as_str());
    out.append(progress_title(title, tick).as_str());
    out
}

/// What is written to replace the title line by that of a finished task,
/// given the marker as it is to be shown.
pub fn completed_frame_with(marker: &str, title: &str) -> (r: String)
    ensures
        r@ == completed_frame_spec(marker@, title@),
{
    let mut out = move_to_column(0);
    out.append(clear(Region::Line).as_str());
    out.append(completed_title_with(marker, title).as_str());
    out
}

/// What is written to replace the title line by that of a finished task.
pub fn completed_frame(title: &str) -> (r: String)
    ensures
        exists|marker: Seq<char>|
            styled(marker, done_text()) && r@ == completed_frame_spec(marker, title@),
{
    let marker = done_marker();
    completed_frame_with(marker.as_str(), title)
}

/// The number of fragments that `n` clusters are split into: one for no
/// cluster at all, else as many as it takes with `width` clusters each.
pub open spec fn chunk_count(n: nat, width: nat) -> nat {
    if n == 0 {
        1
    } else {
        ((n - 1) / (width as int) + 1) as nat
    }
}

/// Where the `k`-th fragment ends among `n` clusters.
pub open spec fn chunk_end(n: nat, width: nat, k: int) -> int {
    if (k + 1) * width <= n {
        (k + 1) * width
    } else {
        n as int
    }
}

/// The `k`-th fragment: the clusters from `k * width` on, at most `width`
/// of them, written one after the other.
pub open spec fn chunk_at(clusters: Seq<Seq<char>>, width: nat, k: int) -> Seq<char> {
    clusters.subrange(k * width, chunk_end(clusters.len(), width, k)).flatten()
}

/// The fragments of a line whose clusters are `clusters`.
pub open spec fn chunks_of(clusters: Seq<Seq<char>>, width: nat) -> Seq<Seq<char>> {
    Seq::new(chunk_count(clusters.len(), width), |k: int| chunk_at(clusters, width, k))
}

/// `fragment` is made of at most `width` neighbouring clusters, whole.
pub open spec fn spans(fragment: Seq<char>, clusters: Seq<Seq<char>>, width: nat) -> bool {
    exists|from: int, to: int|
        0 <= from <= to <= clusters.len() && to - from <= width && fragment == clusters.subrange(
            from,
            to,
        ).flatten()
}

/// Where a fragment starts and ends: inside the line, at most `width`
/// clusters apart, and the last one at the end of the line.
proof fn lemma_chunk_bounds(n: nat, width: nat, k: int)
    requires
        width >= 1,
        0 <= k < chunk_count(n, width),
    ensures
        0 <= k * width <= chunk_end(n, width, k) <= n,
        chunk_end(n, width, k) - k * width <= width,
        k + 1 < chunk_count(n, width) ==> chunk_end(n, width, k) == (k + 1) * width,
        k + 1 == chunk_count(n, width) ==> chunk_end(n, width, k) == n,
{
    let w = width as int;
    assert(0 <= k * w) by (nonlinear_arith)
        requires
            0 <= k,
            1 <= w,
    ;
    assert((k + 1) * w == k * w + w) by (nonlinear_arith);
    if n == 0 {
        assert(k == 0);
    } else {
        let q = (n - 1) / w;
        assert(q * w <= n - 1 < q * w + w) by (nonlinear_arith)
            requires
                q == (n - 1) / w,
                1 <= w,
                0 <= n - 1,
        ;
        assert(k * w <= q * w) by (nonlinear_arith)
            requires
                0 <= k <= q,
                1 <= w,
        ;
        if k + 1 < chunk_count(n, width) {
            assert((k + 1) * w <= q * w) by (nonlinear_arith)
                requires
                    0 <= k + 1 <= q,
                    1 <= w,
            ;
        } else {
            assert(k == q);
        }
    }
}

/// The first `k` fragments, written one after the other, are the clusters
/// before the `k`-th fragment, written one after the other.
proof fn lemma_chunks_prefix(clusters: Seq<Seq<char>>, width: nat, k: int)
    requires
        width >= 1,
        0 <= k <= chunk_count(clusters.len(), width),
    ensures
        k == 0 ==> chunks_of(clusters, width).take(k).flatten() == Seq::<char>::empty(),
        k > 0 ==> chunks_of(clusters, width).take(k).flatten() == clusters.subrange(
            0,
            chunk_end(clusters.len(), width, k - 1),
        ).flatten(),
    decreases k,
{
    let all = chunks_of(clusters, width);
    if k == 0 {
        assert(all.take(0) =~= Seq::<Seq<char>>::empty());
    } else {
        let n = clusters.len();
        lemma_chunks_prefix(clusters, width, k - 1);
        lemma_chunk_bounds(n, width, k - 1);
        let from = (k - 1) * width;
        let to = chunk_end(n, width, k - 1);
        assert(all.take(k) =~= all.take(k - 1).push(all[k - 1]));
        all.take(k - 1).lemma_flatten_push(all[k - 1]);
        if k == 1 {
            assert(from == 0);
        } else {
            lemma_chunk_bounds(n, width, k - 2);
            assert(chunk_end(n, width, k - 2) == from);
            lemma_flatten_concat(clusters.subrange(0, from), clusters.subrange(from, to));
            assert(clusters.subrange(0, from) + clusters.subrange(from, to) =~= clusters.subrange(
                0,
                to,
            ));
        }
    }
}

/// The fragments of a line, written one after the other, are the line's
/// clusters written one after the other; and each fragment is made of at
/// most `width` whole clusters.
pub proof fn lemma_chunks_round_trip(clusters: Seq<Seq<char>>, width: nat)
    requires
        width >= 1,
    ensures
        chunks_of(clusters, width).flatten() == clusters.flatten(),
        forall|k: int|
            0 <= k < chunks_of(clusters, width).len() ==> spans(
                #[trigger] chunks_of(clusters, width)[k],
                clusters,
                width,
            ),
{
    let all = chunks_of(clusters, width);
    let n = clusters.len();
    let count = chunk_count(n, width) as int;
    lemma_chunks_prefix(clusters, width, count);
    lemma_chunk_bounds(n, width, count - 1);
    assert(all.take(count) =~= all);
    assert(clusters.subrange(0, n as int) =~= clusters);
    assert forall|k: int| 0 <= k < all.len() implies spans(#[trigger] all[k], clusters, width) by {
        lemma_chunk_bounds(n, width, k);
        let from = k * width;
        let to = chunk_end(n, width, k);
        assert(0 <= from <= to <= clusters.len() && to - from <= width && all[k]
            == clusters.subrange(from, to).flatten());
    }
}

/// Clusters of which none is empty, written one after the other, give
/// the empty text only where there is no cluster.
proof fn lemma_flatten_empty(clusters: Seq<Seq<char>>)
    requires
        forall|i: int| 0 <= i < clusters.len() ==> (#[trigger] clusters[i]).len() > 0,
        clusters.flatten().len() == 0,
    ensures
        clusters.len() == 0,
{
    if clusters.len() > 0 {
        assert(clusters.flatten() == clusters.first() + clusters.drop_first().flatten());
        assert(clusters[0].len() > 0);
    }
}

/// Groups the clusters of a line into fragments of at most `max_width`
/// clusters each. A line without clusters gives one empty fragment.
pub fn chunk_graphemes(clusters: &Vec<String>, max_width: usize) -> (r: Vec<String>)
    requires
        max_width >= 1,
    ensures
        texts(r@) == chunks_of(texts(clusters@), max_width as nat),
{
    let n = clusters.len();
    let count: usize = if n == 0 {
        1
    } else {
        (n - 1) / max_width + 1
    };
    let ghost g = texts(clusters@);
    let ghost w = max_width as nat;
    let mut out: Vec<String> = Vec::new();
    let mut start: usize = 0;
    let mut k: usize = 0;
    while k < count
        invariant
            max_width >= 1,
            n == clusters.len(),
            g == texts(clusters@),
            w == max_width as nat,
            count == chunk_count(n as nat, w),
            k <= count,
            start <= n,
            k < count ==> start == k * w,
            out@.len() == k,
            forall|i: int| 0 <= i < k ==> (#[trigger] out@[i])@ == chunk_at(g, w, i),
        decreases count - k,
    {
        proof {
            lemma_chunk_bounds(n as nat, w, k as int);
            assert((k + 1) * w == k * w + w) by (nonlinear_arith);
        }
        let end: usize = if n - start <= max_width {
            n
        } else {
            start + max_width
        };
        assert(end == chunk_end(n as nat, w, k as int));
        let mut piece = String::new();
        let mut j: usize = start;
        proof {
            assert(g.subrange(start as int, start as int) =~= Seq::<Seq<char>>::empty());
        }
        while j < end
            invariant
                start <= j <= end <= n,
                n == clusters.len(),
                g == texts(clusters@),
                piece@ == g.subrange(start as int, j as int).flatten(),
            decreases end - j,
        {
            proof {
                let before = g.subrange(start as int, j as int);
                assert(g.subrange(start as int, j + 1) =~= before.push(g[j as int]));
                before.lemma_flatten_push(g[j as int]);
            }
            piece.append(clusters[j].as_str());
            j += 1;
        }
        out.push(piece);
        start = end;
        k += 1;
    }
    proof {
        assert(texts(out@) =~= chunks_of(g, w));
    }
    out
}

/// Splits a line into fragments of at most `max_width` user-perceived
/// characters each, never cutting through one. The fragments, written one
/// after the other, are the line again; an empty line gives one empty
/// fragment.
pub fn split_line_to_chunks(l: &str, max_width: usize) -> (r: Vec<String>)
    requires
        max_width >= 1,
    ensures
        texts(r@) == chunks_of(grapheme_clusters(l@), max_width as nat),
        texts(r@).flatten() == l@,
        forall|k: int|
            0 <= k < r@.len() ==> spans(
                #[trigger] texts(r@)[k],
                grapheme_clusters(l@),
                max_width as nat,
            ),
        l@.len() == 0 ==> texts(r@) == seq![Seq::<char>::empty()],
{
    let clusters = graphemes(l);
    proof {
        let g = texts(clusters@);
        lemma_chunks_round_trip(g, max_width as nat);
        if l@.len() == 0 {
            assert forall|i: int| 0 <= i < g.len() implies (#[trigger] g[i]).len() > 0 by {
                assert(clusters@[i]@.len() > 0);
            }
            lemma_flatten_empty(g);
            assert(g.subrange(0, 0) =~= Seq::<Seq<char>>::empty());
            assert(chunks_of(g, max_width as nat) =~= seq![Seq::<char>::empty()]);
        }
    }
    chunk_graphemes(&clusters, max_width)
}

/// The width that a registered source's lines are split at when none is
/// asked for.
pub const DEFAULT_WIDTH: u16 = 120;

/// The least width that lines are ever split at.
pub const MIN_WIDTH: u16 = 20;

/// `value`, held between `low` and `high`.
pub open spec fn clamped(value: int, low: int, high: int) -> int {
    if value < low {
        low
    } else if value > high {
        high
    } else {
        value
    }
}

/// The width at which the lines of a source are split, for a terminal of
/// `columns` columns, or of unknown width: the default width, held between
/// the least width and the terminal's.
pub fn chunk_width(columns: Option<u16>) -> (r: usize)
    requires
        columns matches Some(c) ==> c >= MIN_WIDTH,
    ensures
        r == clamped(
            DEFAULT_WIDTH as int,
            MIN_WIDTH as int,
            match columns {
                Some(c) => c as int,
                None => DEFAULT_WIDTH as int,
            },
        ),
        r >= 1,
{
    let high: u16 = match columns {
        Some(c) => c,
        None => DEFAULT_WIDTH,
    };
    let width: u16 = if DEFAULT_WIDTH < MIN_WIDTH {
        MIN_WIDTH
    } else if DEFAULT_WIDTH > high {
        high
    } else {
        DEFAULT_WIDTH
    };
    width as usize
}

} // verus!

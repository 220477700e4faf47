//! A session that merges the lines of any number of sources into a live
//! window of the last few lines, under a spinner title, and keeps every
//! line for later.
//!
//! The session is a state machine: it decides what each arriving line,
//! each repaint and the stop do to the window and to the history, and
//! which bytes a repaint writes. Threads, channels and the terminal are
//! the caller's.

use crate::cliutil::common::{chunks_of, split_line_to_chunks};
use crate::cliutil::common::{completed_title_spec, completed_title_with, done_marker, done_text};
use crate::cliutil::common::{last_tick, next_tick, Phase};
use crate::cliutil::common::{progress_title, progress_title_spec};
use crate::cliutil::segment::grapheme_clusters;
use crate::cliutil::term::{clear, dark_grey, hide_cursor, move_to_column, move_up};
use crate::cliutil::term::{clear_down_code, hide_code, move_to_column_code, move_up_code};
use crate::cliutil::term::{show_code, show_cursor, styled, white_bold, Region};
use crate::text::{join, joined, texts, trimmed_end, without_trailing_space};
use vstd::prelude::*;

verus! {

/// The last `rows` of `lines`, or all of them where there are fewer.
pub open spec fn last_lines(lines: Seq<Seq<char>>, rows: nat) -> Seq<Seq<char>> {
    if lines.len() <= rows {
        lines
    } else {
        lines.skip(lines.len() - rows)
    }
}

/// What a session is, mathematically.
pub struct Session {
    /// The label of the title row.
    pub name: Seq<char>,
    /// The number of lines that the window shows.
    pub rows: nat,
    /// Where the session stands in its life.
    pub phase: Phase,
    /// The count of repaints so far.
    pub tick: nat,
    /// The lines in the window, oldest first.
    pub buffer: Seq<Seq<char>>,
    /// Every line taken in, oldest first.
    pub history: Seq<Seq<char>>,
}

impl Session {
    /// A session that was just created.
    pub open spec fn fresh(name: Seq<char>, rows: nat) -> Session {
        Session {
            name,
            rows,
            phase: Phase::Idle,
            tick: 0,
            buffer: Seq::empty(),
            history: Seq::empty(),
        }
    }

    /// What holds of every session: before it is shown it has taken in
    /// nothing; while it runs the window holds the last `rows` lines of
    /// the history; once stopped the window is empty.
    pub open spec fn wf(self) -> bool {
        &&& self.tick <= last_tick()
        &&& match self.phase {
            Phase::Idle => self.buffer.len() == 0 && self.history.len() == 0,
            Phase::Running => self.buffer == last_lines(self.history, self.rows),
            Phase::Stopped => self.buffer.len() == 0,
        }
    }

    /// The session after `show`: an idle one runs, any other is unchanged.
    pub open spec fn show(self) -> Session {
        if self.phase == Phase::Idle {
            Session { phase: Phase::Running, ..self }
        } else {
            self
        }
    }

    /// The session after `line` arrived: a running one appends it to the
    /// history and shows the last `rows` lines; any other drops it.
    pub open spec fn send(self, line: Seq<char>) -> Session {
        if self.phase == Phase::Running {
            Session {
                buffer: last_lines(self.history.push(line), self.rows),
                history: self.history.push(line),
                ..self
            }
        } else {
            self
        }
    }

    /// The session after each of `lines` arrived, in order.
    pub open spec fn send_all(self, lines: Seq<Seq<char>>) -> Session
        decreases lines.len(),
    {
        if lines.len() == 0 {
            self
        } else {
            self.send_all(lines.drop_last()).send(lines.last())
        }
    }

    /// The session after one repaint.
    pub open spec fn repainted(self) -> Session {
        Session { tick: next_tick(self.tick), ..self }
    }

    /// The session after `stop`: a running one is stopped and its window
    /// emptied, the history kept; any other is unchanged.
    pub open spec fn stop(self) -> Session {
        if self.phase == Phase::Running {
            Session { phase: Phase::Stopped, buffer: Seq::empty(), ..self }
        } else {
            self
        }
    }

    /// The history as one text, a line feed between lines.
    pub open spec fn output(self) -> Seq<char> {
        joined(self.history, seq!['\n'])
    }
}

/// What came of waiting on the line channel.
#[derive(Debug)]
pub enum Delivery {
    /// A line arrived.
    Line(String),
    /// Nothing arrived in time.
    Quiet,
    /// Every sender is gone.
    Closed,
}

/// The session after `event`.
pub open spec fn delivered(s: Session, event: Delivery) -> Session {
    match event {
        Delivery::Line(line) => s.send(line@),
        _ => s,
    }
}

/// What came of reading the next line of a source.
#[derive(Debug)]
pub enum Reading {
    /// A line, without its line ending.
    Line(String),
    /// A line that is not text.
    Garbled,
    /// The end of the stream, or a failure to read on.
    Ended,
}

/// What a source sends on for `reading`, if it reads on at all.
pub open spec fn read_step_spec(reading: Reading, width: nat) -> Option<Seq<Seq<char>>> {
    match reading {
        Reading::Line(line) => Some(chunks_of(grapheme_clusters(line@), width)),
        Reading::Garbled => Some(Seq::empty()),
        Reading::Ended => None,
    }
}

/// What a source does with what it read: a line is split into fragments
/// of at most `width` user-perceived characters, to be sent in order; a
/// line that is not text is skipped; at the end of the stream the source
/// is done, which `None` says.
pub fn read_step(reading: Reading, width: usize) -> (r: Option<Vec<String>>)
    requires
        width >= 1,
    ensures
        match r {
            Some(fragments) => read_step_spec(reading, width as nat) == Some(texts(fragments@)),
            None => read_step_spec(reading, width as nat) is None,
        },
{
    match reading {
        Reading::Line(line) => Some(split_line_to_chunks(line.as_str(), width)),
        Reading::Garbled => {
            let none: Vec<String> = Vec::new();
            proof {
                assert(texts(none@) =~= Seq::<Seq<char>>::empty());
            }
            Some(none)
        },
        Reading::Ended => None,
    }
}

/// The text of the bar that starts every content row.
pub open spec fn bar_text() -> Seq<char> {
    seq!['|']
}

/// The sequences that start a repaint of a window of `rows` lines: up to
/// the title row, to the first column, clear to the end of the screen.
pub open spec fn repaint_code(rows: nat) -> Seq<char> {
    move_up_code(rows + 1) + move_to_column_code(0) + clear_down_code()
}

/// The content row at `i`: the bar, and where the window holds a line
/// there, a space and the line.
pub open spec fn content_row(bar: Seq<char>, lines: Seq<Seq<char>>, i: int) -> Seq<char> {
    if 0 <= i < lines.len() {
        bar + seq![' '] + lines[i]
    } else {
        bar
    }
}

/// The rows of a frame: the title row, then `rows` content rows.
pub open spec fn frame_rows(
    title_row: Seq<char>,
    bar: Seq<char>,
    lines: Seq<Seq<char>>,
    rows: nat,
) -> Seq<Seq<char>> {
    seq![title_row] + Seq::new(rows, |i: int| content_row(bar, lines, i))
}

/// The bytes of one repaint: the sequences that start it, then every row
/// with a line feed after it.
pub open spec fn frame_spec(
    title_row: Seq<char>,
    bar: Seq<char>,
    lines: Seq<Seq<char>>,
    rows: nat,
) -> Seq<char> {
    repaint_code(rows) + joined(frame_rows(title_row, bar, lines, rows), seq!['\n']) + seq!['\n']
}

/// `frame` is a repaint of `s`: its title row is the progress title at the
/// session's tick, its bar is the styled bar, and its lines are the
/// window's lines, each without trailing white space and styled.
pub open spec fn is_frame_of(frame: Seq<char>, s: Session) -> bool {
    exists|bar: Seq<char>, shown: Seq<Seq<char>>|
        {
            &&& styled(bar, bar_text())
            &&& shown.len() == s.buffer.len()
            &&& forall|i: int|
                0 <= i < shown.len() ==> styled(#[trigger] shown[i], trimmed_end(s.buffer[i]))
            &&& frame == frame_spec(progress_title_spec(s.name, s.tick), bar, shown, s.rows)
        }
}

/// The bytes that end the display of a session called `name` with a
/// window of `rows` lines: show the cursor, start a repaint, write the
/// title of a finished task.
pub open spec fn closing_spec(marker: Seq<char>, name: Seq<char>, rows: nat) -> Seq<char> {
    show_code() + repaint_code(rows) + completed_title_spec(marker, name)
}

/// The window never holds more than `rows` lines, nor more lines than
/// the history.
pub proof fn lemma_window_bounds(s: Session)
    requires
        s.wf(),
    ensures
        s.buffer.len() <= s.rows,
        s.buffer.len() <= s.history.len(),
{
}

/// Every step of a session's life keeps it well formed, and none of them
/// takes a line out of the history: what was taken in stays, in order,
/// at the front.
pub proof fn lemma_steps_keep_history(s: Session, line: Seq<char>)
    requires
        s.wf(),
    ensures
        s.show().wf() && s.show().history == s.history,
        s.send(line).wf() && s.history.is_prefix_of(s.send(line).history),
        s.repainted().wf() && s.repainted().history == s.history,
        s.stop().wf() && s.stop().history == s.history,
{
    if s.phase == Phase::Idle {
        assert(s.buffer =~= last_lines(s.history, s.rows));
    }
}

/// A session starts at most once: showing it again changes nothing, and
/// a session that was shown is never idle again.
pub proof fn lemma_show_once(s: Session)
    ensures
        s.show().show() == s.show(),
        s.show().phase != Phase::Idle,
        s.show().stop().phase != Phase::Idle,
{
}

/// Sending lines one by one appends them to the history, and the window
/// holds the last `rows` lines of the history.
pub proof fn lemma_send_all(s: Session, lines: Seq<Seq<char>>)
    requires
        s.wf(),
        s.phase == Phase::Running,
    ensures
        s.send_all(lines).wf(),
        s.send_all(lines).phase == Phase::Running,
        s.send_all(lines).history == s.history + lines,
        s.send_all(lines).buffer == last_lines(s.history + lines, s.rows),
        s.send_all(lines).name == s.name,
        s.send_all(lines).rows == s.rows,
        s.send_all(lines).tick == s.tick,
    decreases lines.len(),
{
    if lines.len() == 0 {
        assert(s.history + lines =~= s.history);
    } else {
        lemma_send_all(s, lines.drop_last());
        assert((s.history + lines.drop_last()).push(lines.last()) =~= s.history + lines);
    }
}

/// After `lines` were sent to a session that was created with `rows` rows
/// and shown, the window holds the last `min(lines.len(), rows)` of them
/// in the order of arrival, and the history holds all of them in that
/// order.
pub proof fn lemma_window_after_sends(name: Seq<char>, rows: nat, lines: Seq<Seq<char>>)
    ensures
        ({
            let s = Session::fresh(name, rows).show().send_all(lines);
            let kept = if lines.len() <= rows {
                lines.len()
            } else {
                rows
            };
            &&& s.history == lines
            &&& s.buffer.len() == kept
            &&& s.buffer == lines.subrange(lines.len() - kept, lines.len() as int)
        }),
{
    let start = Session::fresh(name, rows).show();
    lemma_send_all(start, lines);
    assert(start.history + lines =~= lines);
    let kept = if lines.len() <= rows {
        lines.len()
    } else {
        rows
    };
    assert(last_lines(lines, rows) =~= lines.subrange(lines.len() - kept, lines.len() as int));
}

/// A session that does not run drops what is sent to it.
pub proof fn lemma_send_needs_running(s: Session, lines: Seq<Seq<char>>)
    requires
        s.phase != Phase::Running,
    ensures
        s.send_all(lines) == s,
    decreases lines.len(),
{
    if lines.len() > 0 {
        lemma_send_needs_running(s, lines.drop_last());
    }
}

/// Before a session is shown its output is empty, whatever was sent to
/// it.
pub proof fn lemma_output_before_show(s: Session, lines: Seq<Seq<char>>)
    requires
        s.wf(),
        s.phase == Phase::Idle,
    ensures
        s.output() == Seq::<char>::empty(),
        s.send_all(lines).output() == Seq::<char>::empty(),
{
    lemma_send_needs_running(s, lines);
}

/// Stopping keeps the history, and so the output, as it was.
pub proof fn lemma_output_after_stop(s: Session)
    requires
        s.wf(),
    ensures
        s.stop().wf(),
        s.stop().history == s.history,
        s.stop().output() == s.output(),
        s.stop().phase != Phase::Running,
{
}

/// The output of a session that was created, shown, sent `lines` and
/// stopped is `lines`, a line feed between them: all that it took in
/// while it ran, unchanged.
pub proof fn lemma_output_of_run(name: Seq<char>, rows: nat, lines: Seq<Seq<char>>)
    ensures
        Session::fresh(name, rows).show().send_all(lines).stop().output() == joined(
            lines,
            seq!['\n'],
        ),
        Session::fresh(name, rows).show().send_all(lines).stop().buffer.len() == 0,
{
    lemma_window_after_sends(name, rows, lines);
    lemma_send_all(Session::fresh(name, rows).show(), lines);
}

/// Stopping twice is stopping once.
pub proof fn lemma_stop_idempotent(s: Session)
    ensures
        s.stop().stop() == s.stop(),
{
}

/// A progress session over many sources.
#[derive(Debug)]
pub struct MultiStep {
    name: String,
    rows: usize,
    phase: Phase,
    tick: usize,
    buffer: Vec<String>,
    out: Vec<String>,
}

impl View for MultiStep {
    type V = Session;

    closed spec fn view(&self) -> Session {
        Session {
            name: self.name@,
            rows: self.rows as nat,
            phase: self.phase,
            tick: self.tick as nat,
            buffer: texts(self.buffer@),
            history: texts(self.out@),
        }
    }
}

impl MultiStep {
    /// The session is one that the operations below can have produced.
    pub open spec fn wf(&self) -> bool {
        self@.wf()
    }

    /// An idle session called `name`, with a window of `rows` lines.
    pub fn new(name: &str, rows: usize) -> (r: Self)
        ensures
            r.wf(),
            r@ == Session::fresh(name@, rows as nat),
    {
        let r = MultiStep {
            name: String::from_str(name),
            rows,
            phase: Phase::Idle,
            tick: 0,
            buffer: Vec::new(),
            out: Vec::new(),
        };
        proof {
            assert(texts(r.buffer@) =~= Seq::<Seq<char>>::empty());
            assert(texts(r.out@) =~= Seq::<Seq<char>>::empty());
        }
        r
    }

    /// Whether the session was shown and not yet stopped.
    pub fn is_running(&self) -> (r: bool)
        ensures
            r == (self@.phase == Phase::Running),
    {
        match self.phase {
            Phase::Running => true,
            _ => false,
        }
    }

    /// The number of lines that the window shows.
    pub fn rows(&self) -> (r: usize)
        ensures
            r == self@.rows,
    {
        self.rows
    }

    /// Every line taken in so far, as one text with a line feed between
    /// lines. Stopping does not change it.
    pub fn output(&self) -> (r: String)
        ensures
            r@ == self@.output(),
    {
        proof {
            reveal_strlit("\n");
            assert("\n"@ =~= seq!['\n']);
        }
        join(&self.out, "\n")
    }

    /// The lines in the window, oldest first.
    pub fn window(&self) -> (r: Vec<String>)
        ensures
            texts(r@) == self@.buffer,
    {
        let mut copy: Vec<String> = Vec::new();
        let mut i: usize = 0;
        while i < self.buffer.len()
            invariant
                i <= self.buffer.len(),
                texts(copy@) == texts(self.buffer@).take(i as int),
            decreases self.buffer.len() - i,
        {
            let ghost earlier = texts(copy@);
            let line = self.buffer[i].clone();
            copy.push(line);
            proof {
                assert(texts(copy@) =~= earlier.push(line@));
                assert(earlier.push(line@) =~= texts(self.buffer@).take(i + 1));
            }
            i += 1;
        }
        proof {
            assert(texts(self.buffer@).take(self.buffer.len() as int) =~= texts(self.buffer@));
        }
        copy
    }

    /// Starts an idle session. Returns whether it did: a session that
    /// runs or has stopped is left as it is.
    pub fn show(&mut self) -> (started: bool)
        requires
            old(self).wf(),
        ensures
            final(self).wf(),
            final(self)@ == old(self)@.show(),
            started == (old(self)@.phase == Phase::Idle),
    {
        match self.phase {
            Phase::Idle => {
                self.phase = Phase::Running;
                proof {
                    assert(texts(self.buffer@) =~= last_lines(texts(self.out@), self.rows as nat));
                }
                true
            },
            _ => false,
        }
    }

    /// Takes in one line: a running session appends it to the history and
    /// to the window, whose oldest line leaves where it is full. A session
    /// that does not run drops the line.
    pub fn send(&mut self, line: String)
        requires
            old(self).wf(),
        ensures
            final(self).wf(),
            final(self)@ == old(self)@.send(line@),
    {
        match self.phase {
            Phase::Running => {
                let ghost before = texts(self.buffer@);
                let ghost history = texts(self.out@);
                self.out.push(line.clone());
                self.buffer.push(line);
                proof {
                    assert(texts(self.buffer@) =~= before.push(line@));
                }
                if self.buffer.len() > self.rows {
                    self.buffer.remove(0);
                    proof {
                        assert(texts(self.buffer@) =~= before.push(line@).remove(0));
                    }
                }
                proof {
                    assert(texts(self.out@) =~= history.push(line@));
                    assert(texts(self.buffer@) =~= last_lines(
                        history.push(line@),
                        self.rows as nat,
                    ));
                }
            },
            _ => {},
        }
    }

    /// Acts on what came of waiting on the line channel: a line is taken
    /// in. Returns whether to wait again: not once the channel is closed
    /// or the session no longer runs.
    pub fn consume(&mut self, event: Delivery) -> (go_on: bool)
        requires
            old(self).wf(),
        ensures
            final(self).wf(),
            final(self)@ == delivered(old(self)@, event),
            go_on == (old(self)@.phase == Phase::Running && !(event is Closed)),
    {
        let running = self.is_running();
        match event {
            Delivery::Line(line) => {
                self.send(line);
                running
            },
            Delivery::Quiet => running,
            Delivery::Closed => false,
        }
    }

    /// What is written before the first repaint: the sequence that hides
    /// the cursor.
    pub fn opening(&self) -> (r: String)
        ensures
            r@ == hide_code(),
    {
        hide_cursor()
    }

    /// One repaint of a running session: the bytes to write, after which
    /// the tick has advanced. `None` where the session does not run.
    pub fn render(&mut self) -> (r: Option<String>)
        requires
            old(self).wf(),
            old(self)@.rows < u16::MAX,
        ensures
            final(self).wf(),
            match r {
                Some(frame_text) => {
                    &&& old(self)@.phase == Phase::Running
                    &&& final(self)@ == old(self)@.repainted()
                    &&& is_frame_of(frame_text@, old(self)@)
                },
                None => old(self)@.phase != Phase::Running && final(self)@ == old(self)@,
            },
    {
        if !self.is_running() {
            return None;
        }
        proof {
            reveal_strlit("|");
            assert("|"@ =~= bar_text());
        }
        let title_row = progress_title(self.name.as_str(), self.tick);
        let bar = white_bold("|");
        let mut shown: Vec<String> = Vec::new();
        let mut i: usize = 0;
        while i < self.buffer.len()
            invariant
                i <= self.buffer.len(),
                shown@.len() == i,
                forall|j: int|
                    0 <= j < i ==> styled(
                        #[trigger] texts(shown@)[j],
                        trimmed_end(texts(self.buffer@)[j]),
                    ),
            decreases self.buffer.len() - i,
        {
            let cut = without_trailing_space(self.buffer[i].as_str());
            let styled = dark_grey(cut);
            let ghost earlier = texts(shown@);
            shown.push(styled);
            proof {
                assert(texts(shown@) =~= earlier.push(styled@));
            }
            i += 1;
        }
        let frame_text = frame(title_row.as_str(), bar.as_str(), &shown, self.rows);
        let ghost before = self@;
        self.tick = if self.tick == usize::MAX {
            0
        } else {
            self.tick + 1
        };
        proof {
            let lines = texts(shown@);
            assert(lines.len() == before.buffer.len());
            assert(forall|j: int|
                0 <= j < lines.len() ==> styled(#[trigger] lines[j], trimmed_end(before.buffer[j])));
            assert(frame_text@ == frame_spec(
                progress_title_spec(before.name, before.tick),
                bar@,
                lines,
                before.rows,
            ));
        }
        Some(frame_text)
    }

    /// What is written after the last repaint, given the marker of the
    /// finished title as it is to be shown.
    pub fn closing_with(&self, marker: &str) -> (r: String)
        requires
            self@.rows < u16::MAX,
        ensures
            r@ == closing_spec(marker@, self@.name, self@.rows),
    {
        let mut out = show_cursor();
        out.append(repaint(self.rows).as_str());
        out.append(completed_title_with(marker, self.name.as_str()).as_str());
        out
    }

    /// What is written after the last repaint: the cursor is shown again
    /// and the window gives way to the title of a finished task.
    pub fn closing(&self) -> (r: String)
        requires
            self@.rows < u16::MAX,
        ensures
            exists|marker: Seq<char>|
                styled(marker, done_text()) && r@ == closing_spec(marker, self@.name, self@.rows),
    {
        let marker = done_marker();
        self.closing_with(marker.as_str())
    }

    /// Stops a running session: its window is emptied, its history kept.
    /// Returns whether it ran, so whether its workers are now to be
    /// waited for; a session that does not run is left as it is.
    pub fn stop(&mut self) -> (was_running: bool)
        requires
            old(self).wf(),
        ensures
            final(self).wf(),
            final(self)@ == old(self)@.stop(),
            was_running == (old(self)@.phase == Phase::Running),
    {
        match self.phase {
            Phase::Running => {
                self.phase = Phase::Stopped;
                self.buffer.clear();
                proof {
                    assert(texts(self.buffer@) =~= Seq::<Seq<char>>::empty());
                }
                true
            },
            _ => false,
        }
    }
}

/// The sequences that start a repaint of a window of `rows` lines.
fn repaint(rows: usize) -> (r: String)
    requires
        rows < u16::MAX,
    ensures
        r@ == repaint_code(rows as nat),
{
    let mut out = move_up((rows + 1) as u16);
    out.append(move_to_column(0).as_str());
    out.append(clear(Region::Below).as_str());
    out
}

/// The bytes of one repaint of a window of `rows` lines: `title_row` on
/// top, then a row for each of `lines`, then rows with the bar alone.
pub fn frame(title_row: &str, bar: &str, lines: &Vec<String>, rows: usize) -> (r: String)
    requires
        rows < u16::MAX,
    ensures
        r@ == frame_spec(title_row@, bar@, texts(lines@), rows as nat),
{
    proof {
        reveal_strlit(" ");
    }
    let mut content: Vec<String> = Vec::new();
    content.push(String::from_str(title_row));
    let ghost shown = texts(lines@);
    proof {
        assert(texts(content@) =~= frame_rows(title_row@, bar@, shown, 0));
    }
    let mut i: usize = 0;
    while i < rows
        invariant
            i <= rows,
            shown == texts(lines@),
            " "@ == seq![' '],
            texts(content@) == frame_rows(title_row@, bar@, shown, i as nat),
        decreases rows - i,
    {
        let mut row = String::from_str(bar);
        if i < lines.len() {
            row.append(" ");
            row.append(lines[i].as_str());
        }
        let ghost earlier = texts(content@);
        content.push(row);
        proof {
            assert(row@ == content_row(bar@, shown, i as int));
            assert(texts(content@) =~= earlier.push(row@));
            assert(earlier.push(row@) =~= frame_rows(title_row@, bar@, shown, (i + 1) as nat));
        }
        i += 1;
    }
    let mut out = repaint(rows);
    out.append(join(&content, "\n").as_str());
    out.append("\n");
    proof {
        reveal_strlit("\n");
        assert("\n"@ =~= seq!['\n']);
    }
    out
}

} // verus!

//! The decisions of the watcher that follows the DNS server's log file:
//! where to start reading, how far it has read, and when to rotate the file.

use vstd::prelude::*;

verus! {

/// Where a watcher was in the log file, saved so that it can resume.
#[derive(Debug, Clone, Copy, PartialEq, Eq, Structural)]
pub struct LogWatcherConfig {
    pub size: u64,
    pub pos: u64,
}

/// Where a watcher starts reading a file of `file_len` bytes: the saved
/// position where the file is longer than both the saved position and the
/// saved size (it grew and was not rotated), otherwise the start of the file.
pub open spec fn spec_start_position(config: Option<LogWatcherConfig>, file_len: u64) -> u64 {
    match config {
        Some(c) => if c.pos < file_len && c.size < file_len {
            c.pos
        } else {
            0
        },
        None => 0,
    }
}

/// Where to start reading (see [`spec_start_position`]).
pub fn start_position(config: Option<LogWatcherConfig>, file_len: u64) -> (res: u64)
    ensures
        res == spec_start_position(config, file_len),
        res == 0 || res < file_len,
        config is Some && config->0.pos < file_len && config->0.size < file_len ==> res == config->0.pos,
        config is None || config->0.pos >= file_len || config->0.size >= file_len ==> res == 0,
{
    match config {
        Some(config) => {
            if config.pos < file_len && config.size < file_len {
                config.pos
            } else {
                0
            }
        },
        None => 0,
    }
}

/// What the watcher knows of the file it follows.
#[derive(Debug, Clone, Copy, PartialEq, Eq, Structural)]
pub struct LogWatcherState {
    /// The position up to which the file has been read.
    pub pos: u64,
    /// The length of the file when it was last opened.
    pub size: u64,
    /// Past this position, a file that has no new line is emptied.
    pub rotation_size: u64,
}

/// What happened to the watcher.
#[derive(Debug, Clone, Copy, PartialEq, Eq, Structural)]
pub enum WatchEvent {
    /// A line of this many bytes (its newline included) was read.
    LineRead(u64),
    /// There was no new line to read.
    EndOfFile,
    /// The file was emptied.
    Rotated,
    /// The file was opened again; it is this long.
    Reopened(u64),
}

/// What the watcher does next.
#[derive(Debug, Clone, Copy, PartialEq, Eq, Structural)]
pub enum WatchAction {
    /// Move the reader to this position, then read the next line.
    SeekTo(u64),
    /// Empty the file and start again from its beginning.
    Rotate,
    /// Sleep five seconds, then open the file again at the same position.
    SleepThenReopen,
    /// Read the next line.
    ReadNext,
}

impl LogWatcherState {
    /// A watcher of a file of `size` bytes, reading from `pos`.
    pub fn new(pos: u64, size: u64, rotation_size: u64) -> (res: Self)
        ensures
            res == (LogWatcherState { pos, size, rotation_size }),
    {
        LogWatcherState { pos, size, rotation_size }
    }

    /// What the watcher saves to resume later.
    pub fn saved(&self, file_len: u64) -> (res: LogWatcherConfig)
        ensures
            res == (LogWatcherConfig { pos: self.pos, size: file_len }),
    {
        LogWatcherConfig { pos: self.pos, size: file_len }
    }

    /// The next state and action of the watcher after `event`.
    pub open spec fn spec_step(self, event: WatchEvent) -> (LogWatcherState, WatchAction) {
        match event {
            WatchEvent::LineRead(n) => {
                let t = LogWatcherState { pos: (self.pos + n) as u64, ..self };
                (t, WatchAction::SeekTo(t.pos))
            },
            WatchEvent::EndOfFile => if self.pos > self.rotation_size {
                (self, WatchAction::Rotate)
            } else {
                (self, WatchAction::SleepThenReopen)
            },
            WatchEvent::Rotated => (LogWatcherState { pos: 0, size: 0, ..self }, WatchAction::SleepThenReopen),
            WatchEvent::Reopened(len) => (LogWatcherState { size: len, ..self }, WatchAction::ReadNext),
        }
    }

    /// Decides what the watcher does after `event`: a line read moves the
    /// position past it; at the end of the file, a file read past its rotation
    /// size is emptied, and otherwise the watcher waits for new lines.
    pub fn step(&mut self, event: WatchEvent) -> (res: WatchAction)
        requires
            event matches WatchEvent::LineRead(n) ==> old(self).pos + n <= u64::MAX,
        ensures
            (*final(self), res) == old(self).spec_step(event),
            final(self).rotation_size == old(self).rotation_size,
            event matches WatchEvent::LineRead(n) ==> final(self).pos == old(self).pos + n && final(self).size
                == old(self).size && res == WatchAction::SeekTo(final(self).pos),
            event == WatchEvent::EndOfFile ==> *final(self) == *old(self) && (res == WatchAction::Rotate
                <==> old(self).pos > old(self).rotation_size) && (res == WatchAction::Rotate || res
                == WatchAction::SleepThenReopen),
            event == WatchEvent::Rotated ==> final(self).pos == 0 && final(self).size == 0 && res
                == WatchAction::SleepThenReopen,
            event matches WatchEvent::Reopened(len) ==> final(self).size == len && final(self).pos == old(
                self,
            ).pos && res == WatchAction::ReadNext,
    {
        match event {
            WatchEvent::LineRead(n) => {
                self.pos = self.pos + n;
                WatchAction::SeekTo(self.pos)
            },
            WatchEvent::EndOfFile => {
                if self.pos > self.rotation_size {
                    WatchAction::Rotate
                } else {
                    WatchAction::SleepThenReopen
                }
            },
            WatchEvent::Rotated => {
                self.pos = 0;
                self.size = 0;
                WatchAction::SleepThenReopen
            },
            WatchEvent::Reopened(len) => {
                self.size = len;
                WatchAction::ReadNext
            },
        }
    }
}

/// At the end of the file a watcher empties the file exactly when it has read
/// past the rotation size, whatever size the file had when it was opened,
/// and otherwise waits; either way its state stays as it was.
pub proof fn lemma_rotation_at_end_of_file(w: LogWatcherState)
    ensures
        w.spec_step(WatchEvent::EndOfFile).0 == w,
        w.spec_step(WatchEvent::EndOfFile).1 == WatchAction::Rotate <==> w.pos > w.rotation_size,
        w.spec_step(WatchEvent::EndOfFile).1 != WatchAction::Rotate ==> w.spec_step(WatchEvent::EndOfFile).1
            == WatchAction::SleepThenReopen,
{
}

/// Reading a line moves the position past its bytes, and reading a run of
/// lines moves it past all of them, one after another.
pub proof fn lemma_lines_advance_position(w: LogWatcherState, n1: u64, n2: u64)
    requires
        w.pos + n1 + n2 <= u64::MAX,
    ensures
        w.spec_step(WatchEvent::LineRead(n1)).0.pos == w.pos + n1,
        w.spec_step(WatchEvent::LineRead(n1)).0.spec_step(WatchEvent::LineRead(n2)).0.pos == w.pos + n1 + n2,
        w.spec_step(WatchEvent::LineRead(n1)).1 == WatchAction::SeekTo((w.pos + n1) as u64),
{
}

/// A sequence of characters without its newlines.
pub open spec fn strip_newlines(s: Seq<char>) -> Seq<char>
    decreases s.len(),
{
    if s.len() == 0 {
        Seq::empty()
    } else if s.last() == '\n' {
        strip_newlines(s.drop_last())
    } else {
        strip_newlines(s.drop_last()).push(s.last())
    }
}

/// Whether a character is kept in a logged line.
pub open spec fn not_newline(c: char) -> bool {
    c != '\n'
}

/// Stripping the newlines of a line keeps exactly its other characters, in
/// order.
pub proof fn lemma_strip_newlines_keeps_the_rest(s: Seq<char>)
    ensures
        strip_newlines(s) == s.filter(|c: char| not_newline(c)),
        forall|i: int| 0 <= i < strip_newlines(s).len() ==> strip_newlines(s)[i] != '\n',
        (forall|i: int| 0 <= i < s.len() ==> s[i] != '\n') ==> strip_newlines(s) == s,
    decreases s.len(),
{
    let pred = |c: char| not_newline(c);
    if s.len() == 0 {
        reveal(Seq::filter);
        assert(s.filter(pred) =~= Seq::<char>::empty());
    } else {
        let t = s.drop_last();
        lemma_strip_newlines_keeps_the_rest(t);
        assert(t.push(s.last()) == s);
        t.lemma_filter_push(s.last(), pred);
        assert((forall|i: int| 0 <= i < s.len() ==> s[i] != '\n') ==> (forall|i: int|
            0 <= i < t.len() ==> t[i] != '\n'));
    }
    s.filter(pred).lemma_filter_len(pred);
    assert forall|i: int| 0 <= i < strip_newlines(s).len() implies strip_newlines(s)[i] != '\n' by {
        s.lemma_filter_pred(pred, i);
    }
}

/// Stripping a prefix that ends in a run without newlines keeps that run.
proof fn lemma_strip_run(s: Seq<char>, a: int, k: int)
    requires
        0 <= a <= k <= s.len(),
        forall|i: int| a <= i < k ==> s[i] != '\n',
    ensures
        strip_newlines(s.take(k)) == strip_newlines(s.take(a)) + s.subrange(a, k),
    decreases k - a,
{
    if k > a {
        lemma_strip_run(s, a, k - 1);
        assert(s.take(k).drop_last() == s.take(k - 1));
        assert(s.subrange(a, k) == s.subrange(a, k - 1).push(s[k - 1]));
    } else {
        assert(s.subrange(a, k) =~= Seq::<char>::empty());
    }
}

/// The text of a line that is logged: the line without its newlines, `None`
/// where nothing is left.
pub open spec fn spec_log_line(line: Seq<char>) -> Option<Seq<char>> {
    let t = strip_newlines(line);
    if t.len() == 0 {
        None
    } else {
        Some(t)
    }
}

/// The text of a line read from the log that is worth logging (see [`spec_log_line`]).
pub fn log_line(line: &str) -> (res: Option<String>)
    ensures
        match res {
            Some(t) => spec_log_line(line@) == Some(t@),
            None => spec_log_line(line@) is None,
        },
        res matches Some(t) ==> t@.len() > 0 && t@ == line@.filter(|c: char| not_newline(c)),
        res is None ==> line@.filter(|c: char| not_newline(c)).len() == 0,
{
    proof {
        lemma_strip_newlines_keeps_the_rest(line@);
    }
    let mut out = String::new();
    let mut seg_start: usize = 0;
    let mut k: usize = 0;
    let n: usize = line.unicode_len();
    let ghost s = line@;
    proof {
        assert(s.take(0) =~= Seq::<char>::empty());
    }
    for c in iter: line.chars()
        invariant
            iter.seq() == s,
            s == line@,
            n == s.len(),
            k == iter.index(),
            seg_start <= k <= s.len(),
            out@ == strip_newlines(s.take(seg_start as int)),
            forall|i: int| seg_start <= i < k ==> s[i] != '\n',
    {
        assert(k < s.len() && c == s[k as int]);
        if c == '\n' {
            proof {
                lemma_strip_run(s, seg_start as int, k as int);
                assert(s.take(k + 1).drop_last() == s.take(k as int));
            }
            let seg: &str = line.substring_char(seg_start, k);
            out.append(seg);
            seg_start = k + 1;
        }
        k = k + 1;
    }
    proof {
        lemma_strip_run(s, seg_start as int, s.len() as int);
        assert(s.take(s.len() as int) == s);
    }
    let seg: &str = line.substring_char(seg_start, k);
    out.append(seg);
    if out.as_str().unicode_len() == 0 {
        None
    } else {
        Some(out)
    }
}

} // verus!

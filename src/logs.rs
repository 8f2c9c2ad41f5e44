//! The log stream supervisor: one buffer of lines per service, at most one
//! live streaming task per service, and the "since" watermark that keeps
//! cleared output from coming back.
//!
//! The tasks themselves run outside the library. Each is known here by the
//! id it was started under; a line is taken only from the task that is live
//! for its service, so a cancelled task can add nothing once it is replaced.
use vstd::prelude::*;

verus! {

/// How many recent lines a stream asks for when it starts.
pub open spec fn default_tail() -> Seq<char> {
    "50"@
}

/// What a log stream asks the container engine for.
pub struct StreamOptions {
    /// How many recent lines to replay.
    pub tail: String,
    /// Replay the whole history instead of `tail` lines.
    pub all: bool,
    /// Only entries at or after this Unix time, in seconds.
    pub since: Option<i64>,
}

impl StreamOptions {
    /// Options for a stream that resumes at Unix time `since`.
    pub fn from_unix_timestamp(since: i64) -> (r: StreamOptions)
        ensures
            r.since == Some(since),
            !r.all,
            r.tail@ == default_tail(),
    {
        StreamOptions { since: Some(since), all: false, tail: String::from_str("50") }
    }

    /// The tail length handed to the engine: `"all"` when the whole history
    /// is asked for.
    pub fn logs_tail(&self) -> (r: String)
        ensures
            r@ == (if self.all { "all"@ } else { self.tail@ }),
    {
        if self.all {
            String::from_str("all")
        } else {
            self.tail.clone()
        }
    }

    /// The start time handed to the engine: `0`, the epoch, when none is set.
    pub fn logs_since(&self) -> (r: i64)
        ensures
            r == (match self.since {
                Some(t) => t,
                None => 0,
            }),
    {
        match self.since {
            Some(t) => t,
            None => 0,
        }
    }
}

impl Default for StreamOptions {
    fn default() -> (r: StreamOptions)
        ensures
            r.since.is_none(),
            !r.all,
            r.tail@ == default_tail(),
    {
        StreamOptions { tail: String::from_str("50"), all: false, since: None }
    }
}

/// The options a (re)started stream uses: resume at `since` when set, else
/// the recent tail.
pub fn options_for(since: Option<i64>) -> (r: StreamOptions)
    ensures
        r.since == since,
        !r.all,
        r.tail@ == default_tail(),
{
    match since {
        Some(t) => StreamOptions::from_unix_timestamp(t),
        None => StreamOptions::default(),
    }
}

/// A stream as seen by the contracts: its lines, its resume time, and the id
/// of its live task.
pub type StreamView = (Seq<Seq<char>>, Option<i64>, Option<u64>);

/// The supervisor as seen by the contracts: one stream per service, and the
/// id the next started task gets.
pub type SupervisorView = (Seq<StreamView>, u64);

/// The log state of one service.
pub struct LogStream {
    pub buffer: Vec<String>,
    pub resume_since: Option<i64>,
    pub active_task: Option<u64>,
}

impl View for LogStream {
    type V = StreamView;

    open spec fn view(&self) -> StreamView {
        (self.buffer@.map_values(|l: String| l@), self.resume_since, self.active_task)
    }
}

/// A stream the caller is to start: tail `container_name` with `options`
/// and hand each line back tagged with `task`; the task `replaced`, if any,
/// is to be cancelled.
pub struct StreamStart {
    pub index: usize,
    pub task: u64,
    pub container_name: String,
    pub options: StreamOptions,
    pub replaced: Option<u64>,
}

/// The supervisor after a new task becomes the live one for stream `i`.
pub open spec fn spec_start(v: SupervisorView, i: int) -> SupervisorView {
    (v.0.update(i, (v.0[i].0, v.0[i].1, Some(v.1))), (v.1 + 1) as u64)
}

/// The supervisor after `line` arrives for stream `i` from task `task`: it
/// is kept only when that task is the live one.
pub open spec fn spec_append(v: SupervisorView, i: int, task: u64, line: Seq<char>) -> SupervisorView {
    if 0 <= i < v.0.len() && v.0[i].2 == Some(task) {
        (v.0.update(i, (v.0[i].0.push(line), v.0[i].1, v.0[i].2)), v.1)
    } else {
        v
    }
}

/// The supervisor after stream `i` is cleared at Unix time `now`: no lines,
/// resume at `now`, no live task.
pub open spec fn spec_clear(v: SupervisorView, i: int, now: i64) -> SupervisorView {
    (v.0.update(i, (Seq::empty(), Some(now), None)), v.1)
}

/// The supervisor after the live task of stream `i` is cancelled.
pub open spec fn spec_stop(v: SupervisorView, i: int) -> SupervisorView {
    (v.0.update(i, (v.0[i].0, v.0[i].1, None)), v.1)
}

/// The supervisor after the live task of every stream is cancelled.
pub open spec fn spec_stop_all(v: SupervisorView) -> SupervisorView {
    (v.0.map_values(|s: StreamView| (s.0, s.1, None::<u64>)), v.1)
}

/// The supervisor after the lines of stream `i` are dropped.
pub open spec fn spec_drop_lines(v: SupervisorView, i: int) -> SupervisorView {
    (v.0.update(i, (Seq::empty(), v.0[i].1, v.0[i].2)), v.1)
}

/// Every live task was started before the next id was handed out.
pub open spec fn supervisor_wf(v: SupervisorView) -> bool {
    forall|i: int| 0 <= i < v.0.len() && (#[trigger] v.0[i]).2.is_some() ==> v.0[i].2.unwrap() < v.1
}

/// The log streams of all services.
pub struct LogSupervisor {
    pub streams: Vec<LogStream>,
    pub next_task: u64,
}

impl View for LogSupervisor {
    type V = SupervisorView;

    open spec fn view(&self) -> SupervisorView {
        (self.streams@.map_values(|s: LogStream| s@), self.next_task)
    }
}

impl LogSupervisor {
    pub open spec fn wf(&self) -> bool {
        supervisor_wf(self@)
    }

    /// A supervisor for `n` services, each with no lines and no task.
    pub fn new(n: usize) -> (r: LogSupervisor)
        ensures
            r.wf(),
            r@.1 == 0,
            r@.0 == Seq::new(n as nat, |i: int| (Seq::<Seq<char>>::empty(), None::<i64>, None::<u64>)),
    {
        let mut streams: Vec<LogStream> = Vec::new();
        let mut i: usize = 0;
        while i < n
            invariant
                i <= n,
                streams@.map_values(|s: LogStream| s@) =~= Seq::new(
                    i as nat,
                    |i: int| (Seq::<Seq<char>>::empty(), None::<i64>, None::<u64>),
                ),
            decreases n - i,
        {
            let fresh = LogStream { buffer: Vec::new(), resume_since: None, active_task: None };
            assert(fresh@.0 =~= Seq::<Seq<char>>::empty());
            assert(fresh@ == (Seq::<Seq<char>>::empty(), None::<i64>, None::<u64>));
            let ghost prev = streams@;
            streams.push(fresh);
            assert(streams@.map_values(|s: LogStream| s@) =~= prev.map_values(|s: LogStream| s@).push(fresh@));
            i = i + 1;
            assert(streams@.map_values(|s: LogStream| s@) =~= Seq::new(
                i as nat,
                |i: int| (Seq::<Seq<char>>::empty(), None::<i64>, None::<u64>),
            ));
        }
        LogSupervisor { streams, next_task: 0 }
    }

    /// The number of services.
    pub fn len(&self) -> (r: usize)
        ensures
            r == self@.0.len(),
    {
        self.streams.len()
    }

    /// The id of the live task of stream `idx`, if it has one.
    pub fn active_task(&self, idx: usize) -> (r: Option<u64>)
        ensures
            r == (if idx < self@.0.len() { self@.0[idx as int].2 } else { None }),
    {
        if idx < self.streams.len() {
            self.streams[idx].active_task
        } else {
            None
        }
    }

    /// Starts a new task for stream `idx` on `container_name`, replacing
    /// the live one. Gives `None`, and changes nothing, when `idx` is not a
    /// stream or the task ids are used up.
    pub fn start_stream(&mut self, idx: usize, container_name: String) -> (r: Option<StreamStart>)
        requires
            old(self).wf(),
        ensures
            final(self).wf(),
            r.is_some() <==> idx < old(self)@.0.len() && old(self).next_task < u64::MAX,
            r.is_none() ==> final(self)@ == old(self)@,
            r.is_some() ==> {
                let s = r.unwrap();
                &&& final(self)@ == spec_start(old(self)@, idx as int)
                &&& s.index == idx
                &&& s.task == old(self).next_task
                &&& s.container_name@ == container_name@
                &&& s.replaced == old(self)@.0[idx as int].2
                &&& s.options.since == old(self)@.0[idx as int].1
                &&& !s.options.all
                &&& s.options.tail@ == default_tail()
            },
    {
        if idx >= self.streams.len() || self.next_task == u64::MAX {
            return None;
        }
        let ghost v0 = self@;
        let task = self.next_task;
        let replaced = self.streams[idx].active_task;
        let options = options_for(self.streams[idx].resume_since);
        self.streams[idx].active_task = Some(task);
        self.next_task = task + 1;
        assert(self@.0 =~= spec_start(v0, idx as int).0);
        Some(StreamStart { index: idx, task, container_name, options, replaced })
    }

    /// Takes `line` for stream `idx` from task `task`. The line is kept, and
    /// `true` returned, only when that task is the live one of the stream.
    pub fn append(&mut self, idx: usize, task: u64, line: String) -> (r: bool)
        requires
            old(self).wf(),
        ensures
            final(self).wf(),
            r == (idx < old(self)@.0.len() && old(self)@.0[idx as int].2 == Some(task)),
            final(self)@ == spec_append(old(self)@, idx as int, task, line@),
    {
        if idx >= self.streams.len() {
            return false;
        }
        if self.streams[idx].active_task != Some(task) {
            return false;
        }
        let ghost v0 = self@;
        self.streams[idx].buffer.push(line);
        assert(self@.0[idx as int].0 =~= v0.0[idx as int].0.push(line@));
        assert(self@.0 =~= spec_append(v0, idx as int, task, line@).0);
        true
    }

    /// Clears stream `idx` at Unix time `now`: its lines are dropped, it will
    /// resume at `now`, and its live task, which is returned, is cancelled.
    pub fn clear(&mut self, idx: usize, now: i64) -> (r: Option<u64>)
        requires
            old(self).wf(),
        ensures
            final(self).wf(),
            idx < old(self)@.0.len() ==> final(self)@ == spec_clear(old(self)@, idx as int, now)
                && r == old(self)@.0[idx as int].2,
            idx >= old(self)@.0.len() ==> final(self)@ == old(self)@ && r.is_none(),
    {
        if idx >= self.streams.len() {
            return None;
        }
        let ghost v0 = self@;
        let replaced = self.streams[idx].active_task;
        self.streams[idx].buffer = Vec::new();
        self.streams[idx].resume_since = Some(now);
        self.streams[idx].active_task = None;
        assert(self@.0[idx as int].0 =~= Seq::<Seq<char>>::empty());
        assert(self@.0 =~= spec_clear(v0, idx as int, now).0);
        replaced
    }

    /// Cancels the live task of stream `idx` and returns it.
    pub fn stop(&mut self, idx: usize) -> (r: Option<u64>)
        requires
            old(self).wf(),
        ensures
            final(self).wf(),
            idx < old(self)@.0.len() ==> final(self)@ == spec_stop(old(self)@, idx as int)
                && r == old(self)@.0[idx as int].2,
            idx >= old(self)@.0.len() ==> final(self)@ == old(self)@ && r.is_none(),
    {
        if idx >= self.streams.len() {
            return None;
        }
        let ghost v0 = self@;
        let replaced = self.streams[idx].active_task;
        self.streams[idx].active_task = None;
        assert(self@.0 =~= spec_stop(v0, idx as int).0);
        replaced
    }

    /// Cancels the live task of every stream.
    pub fn stop_all(&mut self)
        requires
            old(self).wf(),
        ensures
            final(self).wf(),
            final(self)@ == spec_stop_all(old(self)@),
    {
        let ghost v0 = self@;
        let mut i: usize = 0;
        while i < self.streams.len()
            invariant
                i <= self.streams@.len(),
                self.streams@.len() == v0.0.len(),
                self.next_task == v0.1,
                forall|k: int| 0 <= k < v0.0.len() ==> #[trigger] self@.0[k] == if k < i {
                    (v0.0[k].0, v0.0[k].1, None::<u64>)
                } else {
                    v0.0[k]
                },
            decreases self.streams@.len() - i,
        {
            let ghost before = self.streams@;
            let ghost vb = self@;
            self.streams[i].active_task = None;
            assert forall|k: int| 0 <= k < v0.0.len() implies #[trigger] self@.0[k] == if k < i + 1 {
                (v0.0[k].0, v0.0[k].1, None::<u64>)
            } else {
                v0.0[k]
            } by {
                assert(vb.0[k] == before[k]@);
                if k != i {
                    assert(self.streams@[k] == before[k]);
                }
            }
            i = i + 1;
        }
        assert(self@.0 =~= spec_stop_all(v0).0);
    }

    /// Drops the lines of stream `idx`, leaving its task and resume time.
    pub fn drop_lines(&mut self, idx: usize)
        requires
            old(self).wf(),
        ensures
            final(self).wf(),
            idx < old(self)@.0.len() ==> final(self)@ == spec_drop_lines(old(self)@, idx as int),
            idx >= old(self)@.0.len() ==> final(self)@ == old(self)@,
    {
        if idx >= self.streams.len() {
            return;
        }
        let ghost v0 = self@;
        self.streams[idx].buffer = Vec::new();
        assert(self@.0[idx as int].0 =~= Seq::<Seq<char>>::empty());
        assert(self@.0 =~= spec_drop_lines(v0, idx as int).0);
    }
}

/// Clearing stream `i` empties it, and no output of a task started before
/// the clear gets in afterwards: the stream started next resumes at the
/// clear instant, and lines from earlier tasks are refused before and after
/// that start.
pub proof fn lemma_clear_hides_earlier_output(v: SupervisorView, i: int, now: i64, task: u64, line: Seq<char>)
    requires
        supervisor_wf(v),
        0 <= i < v.0.len(),
        task < v.1,
    ensures
        spec_clear(v, i, now).0[i].0 == Seq::<Seq<char>>::empty(),
        spec_append(spec_clear(v, i, now), i, task, line) == spec_clear(v, i, now),
        spec_start(spec_clear(v, i, now), i).0[i].1 == Some(now),
        spec_append(spec_start(spec_clear(v, i, now), i), i, task, line) == spec_start(spec_clear(v, i, now), i),
{
}

/// Starting stream `i` twice in a row leaves one live task for it, the
/// second: the first is cancelled and its lines are refused.
pub proof fn lemma_restart_leaves_one_task(v: SupervisorView, i: int, line: Seq<char>)
    requires
        0 <= i < v.0.len(),
        v.1 < u64::MAX,
    ensures
        spec_start(v, i).0[i].2 == Some(v.1),
        spec_start(spec_start(v, i), i).0[i].2 == Some(spec_start(v, i).1),
        spec_start(v, i).1 != v.1,
        spec_append(spec_start(spec_start(v, i), i), i, v.1, line) == spec_start(spec_start(v, i), i),
{
}

} // verus!

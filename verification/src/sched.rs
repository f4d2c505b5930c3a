use vstd::prelude::*;

use arrayvec::ArrayVec;

use crate::cdrom::response::{clone_response, response_view, same_response, ResponseType};

verus! {

/// Cycles per scanline.
pub const LINE_DURATION: u64 = 2172;

/// Cycles of horizontal blanking per scanline.
pub const HBLANK_DURATION: u64 = 390;

/// The maximum number of scheduled tasks.
pub const MAX_TASKS: usize = 32;

#[derive(Clone, Copy, PartialEq, Eq, Structural, Debug)]
pub struct TimerInterrupt {
    pub which: usize,
    pub toggle: bool,
}

pub enum Event {
    VBlankStart,
    VBlankEnd,
    HBlankStart,
    HBlankEnd,
    Timer(TimerInterrupt),
    CdromResultIrq(ResponseType),
    SerialSend,
    DsrOff,
    SpuTick,
}

/// An event as plain values: its kind, its timer number or interrupt
/// number, its toggle flag, and its result bytes.
pub open spec fn event_view(e: Event) -> (int, int, bool, Seq<u8>) {
    match e {
        Event::VBlankStart => (0, 0, false, Seq::<u8>::empty()),
        Event::VBlankEnd => (1, 0, false, Seq::<u8>::empty()),
        Event::HBlankStart => (2, 0, false, Seq::<u8>::empty()),
        Event::HBlankEnd => (3, 0, false, Seq::<u8>::empty()),
        Event::Timer(t) => (4, t.which as int, t.toggle, Seq::<u8>::empty()),
        Event::CdromResultIrq(r) => (5, response_view(r).0 as int, false, response_view(r).1),
        Event::SerialSend => (6, 0, false, Seq::<u8>::empty()),
        Event::DsrOff => (7, 0, false, Seq::<u8>::empty()),
        Event::SpuTick => (8, 0, false, Seq::<u8>::empty()),
    }
}

/// Whether two events are the same event.
pub fn same_event(a: &Event, b: &Event) -> (r: bool)
    ensures
        r == (event_view(*a) == event_view(*b)),
{
    match (a, b) {
        (Event::VBlankStart, Event::VBlankStart) => true,
        (Event::VBlankEnd, Event::VBlankEnd) => true,
        (Event::HBlankStart, Event::HBlankStart) => true,
        (Event::HBlankEnd, Event::HBlankEnd) => true,
        (Event::Timer(x), Event::Timer(y)) => x.which == y.which && x.toggle == y.toggle,
        (Event::CdromResultIrq(x), Event::CdromResultIrq(y)) => same_response(x, y),
        (Event::SerialSend, Event::SerialSend) => true,
        (Event::DsrOff, Event::DsrOff) => true,
        (Event::SpuTick, Event::SpuTick) => true,
        _ => false,
    }
}

/// A copy of an event.
pub fn clone_event(e: &Event) -> (r: Event)
    ensures
        event_view(r) == event_view(*e),
{
    match e {
        Event::VBlankStart => Event::VBlankStart,
        Event::VBlankEnd => Event::VBlankEnd,
        Event::HBlankStart => Event::HBlankStart,
        Event::HBlankEnd => Event::HBlankEnd,
        Event::Timer(t) => Event::Timer(*t),
        Event::CdromResultIrq(r) => Event::CdromResultIrq(clone_response(r)),
        Event::SerialSend => Event::SerialSend,
        Event::DsrOff => Event::DsrOff,
        Event::SpuTick => Event::SpuTick,
    }
}

/// An event due at `cycle`, to be scheduled again every `repeat` cycles.
pub struct Task {
    pub event: Event,
    pub cycle: u64,
    pub repeat: Option<u64>,
}

/// A task as plain values.
pub open spec fn task_view(t: Task) -> ((int, int, bool, Seq<u8>), u64, Option<u64>) {
    (event_view(t.event), t.cycle, t.repeat)
}

/// Whether a task is kept when `event` is unscheduled: its event is
/// another one.
pub fn keep_task(t: &Task, event: &Event) -> (r: bool)
    ensures
        r == (event_view(t.event) != event_view(*event)),
{
    !same_event(&t.event, event)
}

/// Whether a task's event is other than `e`.
pub open spec fn not_event(e: Event) -> spec_fn(Task) -> bool {
    |t: Task| event_view(t.event) != event_view(e)
}

/// Whether `items` holds a task with this event, cycle and repeat.
pub open spec fn has_task(items: Seq<Task>, ev: (int, int, bool, Seq<u8>), cycle: u64, repeat: Option<u64>) -> bool {
    exists|k: int| 0 <= k < items.len() && task_view(#[trigger] items[k]) == (ev, cycle, repeat)
}

/// The tasks that a 32-entry `ArrayVec` holds, in order.
pub uninterp spec fn task_items(v: ArrayVec<Task, 32>) -> Seq<Task>;

/// `ArrayVec::default`: no tasks.
#[verifier::external_body]
fn tasks_default() -> (v: ArrayVec<Task, 32>)
    ensures
        task_items(v) == Seq::<Task>::empty(),
{
    ArrayVec::default()
}

/// `ArrayVec::len`: the number of tasks, at most 32.
#[verifier::external_body]
fn tasks_len(v: &ArrayVec<Task, 32>) -> (n: usize)
    ensures
        n == task_items(*v).len(),
        n <= 32,
{
    v.len()
}

/// `ArrayVec::index`: the cycle of task `i`.
#[verifier::external_body]
fn tasks_cycle_at(v: &ArrayVec<Task, 32>, i: usize) -> (c: u64)
    requires
        i < task_items(*v).len(),
    ensures
        c == task_items(*v)[i as int].cycle,
{
    v[i].cycle
}

/// `ArrayVec::index`: the repeat period of task `i`.
#[verifier::external_body]
fn tasks_repeat_at(v: &ArrayVec<Task, 32>, i: usize) -> (c: Option<u64>)
    requires
        i < task_items(*v).len(),
    ensures
        c == task_items(*v)[i as int].repeat,
{
    v[i].repeat
}

/// `ArrayVec::remove`: takes out task `i`, the later ones moving down.
#[verifier::external_body]
fn tasks_remove(v: &mut ArrayVec<Task, 32>, i: usize) -> (t: Task)
    requires
        i < task_items(*old(v)).len(),
    ensures
        t == task_items(*old(v))[i as int],
        task_items(*final(v)) == task_items(*old(v)).remove(i as int),
{
    v.remove(i)
}

/// `ArrayVec::insert`: puts a task at `i`, the later ones moving up (the
/// precondition rules out the panics on a full vector or a bad index).
#[verifier::external_body]
fn tasks_insert(v: &mut ArrayVec<Task, 32>, i: usize, t: Task)
    requires
        i <= task_items(*old(v)).len(),
        task_items(*old(v)).len() < 32,
    ensures
        task_items(*final(v)) == task_items(*old(v)).insert(i as int, t),
{
    v.insert(i, t)
}

/// `ArrayVec::retain`: keeps, in order, the tasks whose event is not
/// `event`.
#[verifier::external_body]
fn tasks_retain_other(v: &mut ArrayVec<Task, 32>, event: &Event)
    ensures
        task_items(*final(v)) == task_items(*old(v)).filter(not_event(*event)),
{
    v.retain(|t| keep_task(t, event))
}

/// `after` is `before` with a task for `event` at `cycle` put at `p`: the
/// tasks before `p` are due no later, those after it later.
pub open spec fn inserted_at(before: Seq<Task>, event: (int, int, bool, Seq<u8>), cycle: u64, repeat: Option<u64>, after: Seq<Task>, p: int) -> bool {
    &&& 0 <= p <= before.len()
    &&& task_view(after[p]) == (event, cycle, repeat)
    &&& forall|k: int| 0 <= k < p ==> after[k] == before[k] && #[trigger] before[k].cycle <= cycle
    &&& forall|k: int| p < k < after.len() ==> #[trigger] after[k] == before[k - 1] && before[k - 1].cycle > cycle
}

/// `after` is `before` with a task for `event` at `cycle` inserted after the
/// tasks due no later and before those due later.
pub open spec fn inserted_in_order(before: Seq<Task>, event: (int, int, bool, Seq<u8>), cycle: u64, repeat: Option<u64>, after: Seq<Task>) -> bool {
    &&& after.len() == before.len() + 1
    &&& exists|p: int| #[trigger] inserted_at(before, event, cycle, repeat, after, p)
}

pub struct EventScheduler {
    pub sysclk: u64,
    pub tasks: ArrayVec<Task, 32>,
}

impl EventScheduler {
    pub open spec fn items(&self) -> Seq<Task> {
        task_items(self.tasks)
    }

    /// The tasks are in the order they fall due, and no event is scheduled
    /// twice.
    pub open spec fn wf(&self) -> bool {
        &&& forall|i: int, j: int| 0 <= i < j < self.items().len() ==> #[trigger] self.items()[i].cycle <= #[trigger] self.items()[j].cycle
        &&& forall|i: int, j: int|
            0 <= i < j < self.items().len() ==> event_view(#[trigger] self.items()[i].event) != event_view(
                #[trigger] self.items()[j].event,
            )
    }

    /// The tasks left when `event` is unscheduled.
    pub open spec fn without(&self, event: Event) -> Seq<Task> {
        self.items().filter(not_event(event))
    }

    pub fn new() -> (s: Self)
        ensures
            s.wf(),
            s.sysclk == 0,
            s.items().len() == 0,
    {
        EventScheduler { sysclk: 0, tasks: tasks_default() }
    }

    /// The current cycle.
    pub fn sysclk(&self) -> (r: u64)
        ensures
            r == self.sysclk,
    {
        self.sysclk
    }

    /// The number of scheduled tasks.
    pub fn len(&self) -> (n: usize)
        ensures
            n == self.items().len(),
            n <= MAX_TASKS,
    {
        tasks_len(&self.tasks)
    }

    /// Whether the next due event, if it repeats, comes again within the
    /// clock's range.
    pub fn next_event_ok(&self) -> (r: bool)
        ensures
            r == (self.items().len() > 0 && self.items()[0].cycle <= self.sysclk ==> (
            self.items()[0].repeat matches Some(c) ==> self.sysclk + c <= u64::MAX)),
    {
        if tasks_len(&self.tasks) == 0 || self.sysclk < tasks_cycle_at(&self.tasks, 0) {
            return true;
        }
        match tasks_repeat_at(&self.tasks, 0) {
            Some(c) => c <= u64::MAX - self.sysclk,
            None => true,
        }
    }

    /// Moves the clock on by `used_cycles`.
    pub fn advance(&mut self, used_cycles: u64)
        requires
            old(self).sysclk + used_cycles <= u64::MAX,
        ensures
            final(self).sysclk == old(self).sysclk + used_cycles,
            final(self).items() == old(self).items(),
    {
        self.sysclk = self.sysclk + used_cycles;
    }

    /// Removes the task of `event`, if any.
    pub fn unschedule(&mut self, event: &Event)
        requires
            old(self).wf(),
        ensures
            final(self).wf(),
            final(self).items() == old(self).without(*event),
            final(self).sysclk == old(self).sysclk,
    {
        let ghost s = self.items();
        tasks_retain_other(&mut self.tasks, event);
        proof {
            lemma_filter_keeps_order(s, *event);
        }
    }

    /// Schedules `event` `cycles_length` cycles from now, every `repeat`
    /// cycles after that if given, in place of any earlier task for it.
    #[verifier::rlimit(80)]
    pub fn schedule(&mut self, event: Event, cycles_length: u64, repeat: Option<u64>)
        requires
            old(self).wf(),
            old(self).sysclk + cycles_length <= u64::MAX,
            old(self).without(event).len() < MAX_TASKS,
        ensures
            final(self).wf(),
            final(self).sysclk == old(self).sysclk,
            inserted_in_order(
                old(self).without(event),
                event_view(event),
                (old(self).sysclk + cycles_length) as u64,
                repeat,
                final(self).items(),
            ),
    {
        self.unschedule(&event);
        let cycle = self.sysclk + cycles_length;
        let len = tasks_len(&self.tasks);
        let mut pos: usize = 0;
        while pos < len
            invariant
                len == self.items().len(),
                pos <= len,
                self.wf(),
                forall|k: int| 0 <= k < pos ==> #[trigger] self.items()[k].cycle <= cycle,
            ensures
                pos <= len,
                forall|k: int| 0 <= k < pos ==> #[trigger] self.items()[k].cycle <= cycle,
                pos < len ==> self.items()[pos as int].cycle > cycle,
            decreases len - pos,
        {
            if tasks_cycle_at(&self.tasks, pos) > cycle {
                break;
            }
            pos = pos + 1;
        }
        let ghost before = self.items();
        let ghost ev = event_view(event);
        tasks_insert(&mut self.tasks, pos, Task { event, cycle, repeat });
        proof {
            let after = self.items();
            assert(after.remove(pos as int) =~= before);
            assert forall|i: int, j: int| 0 <= i < j < after.len() implies #[trigger] after[i].cycle <= #[trigger] after[j].cycle by {
                if i < pos && j > pos {
                    assert(after[j] == before[j - 1]);
                }
                if i == pos && j > pos {
                    assert(after[j] == before[j - 1]);
                    assert(before[pos as int].cycle <= before[j - 1].cycle);
                }
                if j == pos {
                    assert(after[i] == before[i]);
                }
                if i > pos {
                    assert(after[i] == before[i - 1] && after[j] == before[j - 1]);
                }
            }
            assert forall|i: int, j: int|
                0 <= i < j < after.len() implies event_view(#[trigger] after[i].event) != event_view(
                    #[trigger] after[j].event,
                ) by {
                if i == pos {
                    assert(after[j] == before[j - 1]);
                    assert(before.contains(before[j - 1]));
                } else if j == pos {
                    assert(after[i] == before[i]);
                    assert(before.contains(before[i]));
                } else if i > pos {
                    assert(after[i] == before[i - 1] && after[j] == before[j - 1]);
                } else if j > pos {
                    assert(after[i] == before[i] && after[j] == before[j - 1]);
                } else {
                    assert(after[i] == before[i] && after[j] == before[j]);
                }
            }
            assert(task_view(after[pos as int]) == (ev, cycle, repeat));
            assert forall|k: int| pos < k < after.len() implies #[trigger] after[k] == before[k - 1] && before[k - 1].cycle > cycle by {
                assert(after[k] == before[k - 1]);
                assert(before[pos as int].cycle <= before[k - 1].cycle);
            }
            assert forall|k: int| 0 <= k < pos implies after[k] == before[k] && #[trigger] before[k].cycle <= cycle by {
                assert(after[k] == before[k]);
            }
            assert(inserted_at(before, ev, cycle, repeat, after, pos as int));
            assert(inserted_in_order(before, ev, cycle, repeat, after));
        }
    }

    /// Takes the earliest task when it is due: its event is returned, and a
    /// repeating task is scheduled again `repeat` cycles from now.
    pub fn get_next_event(&mut self) -> (r: Option<Event>)
        requires
            old(self).wf(),
            old(self).items().len() > 0 && old(self).items()[0].cycle <= old(self).sysclk ==> (
            old(self).items()[0].repeat matches Some(c) ==> old(self).sysclk + c <= u64::MAX),
        ensures
            final(self).wf(),
            final(self).sysclk == old(self).sysclk,
            old(self).items().len() == 0 || old(self).sysclk < old(self).items()[0].cycle ==> r is None
                && final(self).items() == old(self).items(),
            old(self).items().len() > 0 && old(self).items()[0].cycle <= old(self).sysclk ==> {
                let t = old(self).items()[0];
                &&& r matches Some(e) && event_view(e) == event_view(t.event)
                &&& match t.repeat {
                    None => final(self).items() == old(self).items().drop_first(),
                    Some(c) => inserted_in_order(
                        old(self).items().drop_first(),
                        event_view(t.event),
                        (old(self).sysclk + c) as u64,
                        Some(c),
                        final(self).items(),
                    ),
                }
            },
    {
        let len = tasks_len(&self.tasks);
        if len == 0 {
            return None;
        }
        if self.sysclk < tasks_cycle_at(&self.tasks, 0) {
            return None;
        }
        let ghost s = self.items();
        let task = tasks_remove(&mut self.tasks, 0);
        proof {
            assert(self.items() =~= s.drop_first());
            assert forall|i: int, j: int| 0 <= i < j < self.items().len() implies #[trigger] self.items()[i].cycle
                <= #[trigger] self.items()[j].cycle by {
                assert(self.items()[i] == s[i + 1] && self.items()[j] == s[j + 1]);
            }
            assert forall|i: int, j: int|
                0 <= i < j < self.items().len() implies event_view(#[trigger] self.items()[i].event) != event_view(
                    #[trigger] self.items()[j].event,
                ) by {
                assert(self.items()[i] == s[i + 1] && self.items()[j] == s[j + 1]);
            }
        }
        match task.repeat {
            Some(cycles) => {
                let again = clone_event(&task.event);
                proof {
                    lemma_unique_filter_noop(self.items(), again, s);
                }
                self.schedule(again, cycles, Some(cycles));
            },
            None => {},
        }
        Some(task.event)
    }

    /// Schedules the video and sound events that run from power-on: vblank
    /// start and end, hblank start and end each scanline, and the sound
    /// tick every 768 cycles.
    #[verifier::rlimit(50)]
    pub fn init_with_events(&mut self)
        requires
            old(self).wf(),
            old(self).items().len() == 0,
            old(self).sysclk <= u64::MAX - LINE_DURATION * 263,
        ensures
            final(self).wf(),
            final(self).sysclk == old(self).sysclk,
            final(self).items().len() == 5,
            has_task(final(self).items(), event_view(Event::VBlankStart), (old(self).sysclk + LINE_DURATION * 240) as u64, Some((LINE_DURATION * 263) as u64)),
            has_task(final(self).items(), event_view(Event::VBlankEnd), (old(self).sysclk + LINE_DURATION * 263) as u64, Some((LINE_DURATION * 263) as u64)),
            has_task(final(self).items(), event_view(Event::HBlankStart), (old(self).sysclk + LINE_DURATION - HBLANK_DURATION) as u64, Some(LINE_DURATION)),
            has_task(final(self).items(), event_view(Event::HBlankEnd), (old(self).sysclk + LINE_DURATION) as u64, Some(LINE_DURATION)),
            has_task(final(self).items(), event_view(Event::SpuTick), (old(self).sysclk + 768) as u64, Some(768)),
    {
        let ghost c = self.sysclk;
        let ghost s0 = self.items();
        proof { lemma_no_task_filter(self.items(), Event::VBlankStart); }
        self.schedule(Event::VBlankStart, LINE_DURATION * 240, Some(LINE_DURATION * 263));
        let ghost s1 = self.items();
        proof {
            lemma_inserted_facts(s0, event_view(Event::VBlankStart), (c + LINE_DURATION * 240) as u64, Some((LINE_DURATION * 263) as u64), s1);
            lemma_no_task_filter(s1, Event::VBlankEnd);
        }
        self.schedule(Event::VBlankEnd, LINE_DURATION * 263, Some(LINE_DURATION * 263));
        let ghost s2 = self.items();
        proof {
            lemma_inserted_facts(s1, event_view(Event::VBlankEnd), (c + LINE_DURATION * 263) as u64, Some((LINE_DURATION * 263) as u64), s2);
            lemma_no_task_filter(s2, Event::HBlankStart);
        }
        self.schedule(Event::HBlankStart, LINE_DURATION - HBLANK_DURATION, Some(LINE_DURATION));
        let ghost s3 = self.items();
        proof {
            lemma_inserted_facts(s2, event_view(Event::HBlankStart), (c + LINE_DURATION - HBLANK_DURATION) as u64, Some(LINE_DURATION), s3);
            lemma_no_task_filter(s3, Event::HBlankEnd);
        }
        self.schedule(Event::HBlankEnd, LINE_DURATION, Some(LINE_DURATION));
        let ghost s4 = self.items();
        proof {
            lemma_inserted_facts(s3, event_view(Event::HBlankEnd), (c + LINE_DURATION) as u64, Some(LINE_DURATION), s4);
            lemma_no_task_filter(s4, Event::SpuTick);
        }
        self.schedule(Event::SpuTick, 768, Some(768));
        let ghost s5 = self.items();
        proof {
            lemma_inserted_facts(s4, event_view(Event::SpuTick), (c + 768) as u64, Some(768), s5);
        }
    }
}

/// Removing one event's tasks keeps the tasks of every other event.
pub proof fn lemma_has_task_without(items: Seq<Task>, e: Event, ev2: (int, int, bool, Seq<u8>), c: u64, r: Option<u64>)
    requires
        has_task(items, ev2, c, r),
        ev2 != event_view(e),
    ensures
        has_task(items.filter(not_event(e)), ev2, c, r),
{
    let k = choose|k: int| 0 <= k < items.len() && task_view(#[trigger] items[k]) == (ev2, c, r);
    items.lemma_filter_contains(not_event(e), k);
    let f = items.filter(not_event(e));
    let j = choose|j: int| 0 <= j < f.len() && f[j] == items[k];
    assert(task_view(f[j]) == (ev2, c, r));
}

/// What an in-order insertion gives: one more task, the new one among them,
/// and every earlier task kept.
pub proof fn lemma_inserted_facts(before: Seq<Task>, ev: (int, int, bool, Seq<u8>), cycle: u64, repeat: Option<u64>, after: Seq<Task>)
    requires
        inserted_in_order(before, ev, cycle, repeat, after),
    ensures
        after.len() == before.len() + 1,
        has_task(after, ev, cycle, repeat),
        forall|e2: (int, int, bool, Seq<u8>), c2: u64, r2: Option<u64>|
            has_task(before, e2, c2, r2) ==> #[trigger] has_task(after, e2, c2, r2),
{
    let p = choose|p: int| #[trigger] inserted_at(before, ev, cycle, repeat, after, p);
    assert(task_view(after[p]) == (ev, cycle, repeat));
    assert forall|e2: (int, int, bool, Seq<u8>), c2: u64, r2: Option<u64>|
        has_task(before, e2, c2, r2) implies #[trigger] has_task(after, e2, c2, r2) by {
        let k = choose|k: int| 0 <= k < before.len() && task_view(#[trigger] before[k]) == (e2, c2, r2);
        if k < p {
            assert(after[k] == before[k]);
            assert(task_view(after[k]) == (e2, c2, r2));
        } else {
            assert(after[k + 1] == before[k]);
            assert(task_view(after[k + 1]) == (e2, c2, r2));
        }
    }
}

/// Unscheduling an event that no task holds keeps every task, given the
/// events of the tasks.
proof fn lemma_no_task_filter(s: Seq<Task>, e: Event)
    requires
        forall|k: int| 0 <= k < s.len() ==> event_view(#[trigger] s[k].event) != event_view(e),
    ensures
        s.filter(not_event(e)) == s,
{
    lemma_filter_all_pass(s, not_event(e));
}

/// Filtering keeps the tasks' order and their distinct events.
proof fn lemma_filter_keeps_order(s: Seq<Task>, event: Event)
    requires
        forall|i: int, j: int| 0 <= i < j < s.len() ==> #[trigger] s[i].cycle <= #[trigger] s[j].cycle,
        forall|i: int, j: int|
            0 <= i < j < s.len() ==> event_view(#[trigger] s[i].event) != event_view(#[trigger] s[j].event),
    ensures
        ({
            let f = s.filter(not_event(event));
            &&& forall|i: int, j: int| 0 <= i < j < f.len() ==> #[trigger] f[i].cycle <= #[trigger] f[j].cycle
            &&& forall|i: int, j: int|
                0 <= i < j < f.len() ==> event_view(#[trigger] f[i].event) != event_view(#[trigger] f[j].event)
        }),
    decreases s.len(),
{
    let pred = not_event(event);
    reveal(Seq::filter);
    if s.len() > 0 {
        let init = s.drop_last();
        let last = s.last();
        assert forall|i: int, j: int| 0 <= i < j < init.len() implies #[trigger] init[i].cycle
            <= #[trigger] init[j].cycle && event_view(init[i].event) != event_view(init[j].event) by {
            assert(init[i] == s[i] && init[j] == s[j]);
        }
        lemma_filter_keeps_order(init, event);
        let fi = init.filter(pred);
        let f = s.filter(pred);
        assert(f == if pred(last) { fi.push(last) } else { fi });
        assert forall|k: int| 0 <= k < fi.len() implies #[trigger] fi[k].cycle <= last.cycle
            && event_view(fi[k].event) != event_view(last.event) by {
            assert(fi.contains(fi[k]));
            init.lemma_filter_contains_rev(pred, fi[k]);
            let w = choose|w: int| 0 <= w < init.len() && init[w] == fi[k];
            assert(s[w] == init[w]);
            assert(last == s[s.len() - 1]);
        }
        if pred(last) {
            assert forall|i: int, j: int| 0 <= i < j < f.len() implies #[trigger] f[i].cycle <= #[trigger] f[j].cycle
                && event_view(f[i].event) != event_view(f[j].event) by {
                if j < fi.len() {
                    assert(f[i] == fi[i] && f[j] == fi[j]);
                    assert(fi[i].cycle <= fi[j].cycle);
                    assert(event_view(fi[i].event) != event_view(fi[j].event));
                } else {
                    assert(f[i] == fi[i] && f[j] == last);
                }
            }
            assert(forall|i: int, j: int| 0 <= i < j < f.len() ==> #[trigger] f[i].cycle <= #[trigger] f[j].cycle);
            assert forall|i: int, j: int| 0 <= i < j < f.len() implies event_view(#[trigger] f[i].event) != event_view(#[trigger] f[j].event) by {
                if j < fi.len() {
                    assert(f[i] == fi[i] && f[j] == fi[j]);
                    assert(event_view(fi[i].event) != event_view(fi[j].event));
                } else {
                    assert(f[i] == fi[i] && f[j] == last);
                    assert(fi[i].cycle <= last.cycle);
                    assert(event_view(fi[i].event) != event_view(last.event));
                }
            }
        } else {
            assert(f == fi);
        }
    }
}

/// Filtering keeps everything when every element passes.
proof fn lemma_filter_all_pass(s: Seq<Task>, pred: spec_fn(Task) -> bool)
    requires
        forall|k: int| 0 <= k < s.len() ==> pred(#[trigger] s[k]),
    ensures
        s.filter(pred) == s,
    decreases s.len(),
{
    reveal(Seq::filter);
    if s.len() > 0 {
        let init = s.drop_last();
        assert forall|k: int| 0 <= k < init.len() implies pred(#[trigger] init[k]) by {
            assert(init[k] == s[k]);
        }
        lemma_filter_all_pass(init, pred);
        assert(pred(s[s.len() - 1]));
        assert(s.filter(pred) =~= s);
    }
}

/// Removing an event that no task holds changes nothing.
proof fn lemma_unique_filter_noop(rest: Seq<Task>, e: Event, s: Seq<Task>)
    requires
        s.len() > 0,
        rest == s.drop_first(),
        event_view(e) == event_view(s[0].event),
        forall|i: int, j: int|
            0 <= i < j < s.len() ==> event_view(#[trigger] s[i].event) != event_view(#[trigger] s[j].event),
    ensures
        rest.filter(not_event(e)) == rest,
{
    let pred = not_event(e);
    assert forall|k: int| 0 <= k < rest.len() implies pred(#[trigger] rest[k]) by {
        assert(rest[k] == s[k + 1]);
    }
    lemma_filter_all_pass(rest, pred);
}

/// Scheduling an event keeps every task of every other event and adds a
/// task for it at the given cycle.
pub proof fn lemma_schedule_keeps(before: Seq<Task>, e: Event, cycle: u64, repeat: Option<u64>, after: Seq<Task>)
    requires
        inserted_in_order(before.filter(not_event(e)), event_view(e), cycle, repeat, after),
    ensures
        has_task(after, event_view(e), cycle, repeat),
        forall|e2: (int, int, bool, Seq<u8>), c2: u64, r2: Option<u64>|
            e2 != event_view(e) && has_task(before, e2, c2, r2) ==> #[trigger] has_task(after, e2, c2, r2),
{
    lemma_inserted_facts(before.filter(not_event(e)), event_view(e), cycle, repeat, after);
    assert forall|e2: (int, int, bool, Seq<u8>), c2: u64, r2: Option<u64>|
        e2 != event_view(e) && has_task(before, e2, c2, r2) implies #[trigger] has_task(after, e2, c2, r2) by {
        lemma_has_task_without(before, e, e2, c2, r2);
    }
}

} // verus!

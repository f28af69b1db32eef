use vstd::prelude::*;

use std::collections::VecDeque;

use crate::vm::class::ClassAndMethodId;
use crate::vm::value::RefId;
use crate::vm::VmError;

verus! {

/// What a monitor guards: an object, or a synchronized method.
#[derive(Debug, PartialEq, Eq, Structural, Copy, Clone, Hash)]
pub enum MonitorAssociate {
    Ref(RefId),
    Method(ClassAndMethodId),
}

/// A thread queued on a monitor, with the entry count it takes back once it owns the
/// monitor again.
#[derive(Debug, PartialEq, Eq, Structural, Copy, Clone)]
pub struct Waiter {
    pub thread: u64,
    pub resume_count: usize,
}

/// How a request to enter a monitor ended.
#[derive(Debug, PartialEq, Eq, Structural, Copy, Clone)]
pub enum EnterOutcome {
    /// The thread owns the monitor now.
    Entered,
    /// The monitor belongs to another thread: the caller is queued and must park until
    /// it is handed the monitor.
    Blocked,
}

/// The mathematical content of a [`MonitorState`].
pub struct MonitorView {
    pub owner: Option<u64>,
    pub counter: usize,
    pub associate: MonitorAssociate,
    /// Threads blocked until the monitor is handed to them, first in line first.
    pub entry_list: Seq<Waiter>,
    /// Threads waiting for a notification, first in line first.
    pub wait_list: Seq<Waiter>,
}

/// `s` without the waiters of `thread`, in the same order.
pub open spec fn without_thread(s: Seq<Waiter>, thread: u64) -> Seq<Waiter>
    decreases s.len(),
{
    if s.len() == 0 {
        s
    } else {
        let rest = without_thread(s.drop_last(), thread);
        if s.last().thread == thread {
            rest
        } else {
            rest.push(s.last())
        }
    }
}

impl MonitorView {
    /// A monitor nobody owns has neither an entry count nor blocked threads.
    pub open spec fn wf(self) -> bool {
        self.owner is None ==> self.counter == 0 && self.entry_list.len() == 0
    }

    /// The monitor that is created on first use: owned by its creator, not yet entered.
    pub open spec fn fresh(owner: u64, associate: MonitorAssociate) -> MonitorView {
        MonitorView {
            owner: Some(owner),
            counter: 0,
            associate,
            entry_list: Seq::empty(),
            wait_list: Seq::empty(),
        }
    }

    pub open spec fn enter_outcome(self, thread: u64) -> EnterOutcome {
        match self.owner {
            Some(o) => if o == thread {
                EnterOutcome::Entered
            } else {
                EnterOutcome::Blocked
            },
            None => EnterOutcome::Entered,
        }
    }

    /// The monitor after `thread` asks to enter it.
    pub open spec fn after_enter(self, thread: u64) -> MonitorView {
        match self.owner {
            Some(o) => if o == thread {
                MonitorView { counter: (self.counter + 1) as usize, ..self }
            } else {
                MonitorView {
                    entry_list: self.entry_list.push(Waiter { thread, resume_count: 1 }),
                    ..self
                }
            },
            None => MonitorView { owner: Some(thread), counter: 1, ..self },
        }
    }

    /// The thread that is handed the monitor when its owner lets go of it.
    pub open spec fn next_owner(self) -> Option<u64> {
        if self.entry_list.len() > 0 {
            Some(self.entry_list[0].thread)
        } else {
            None
        }
    }

    /// The monitor after its owner lets go of it: the first blocked thread takes it
    /// over with its own entry count, or nobody owns it.
    pub open spec fn after_release(self) -> MonitorView {
        if self.entry_list.len() > 0 {
            MonitorView {
                owner: Some(self.entry_list[0].thread),
                counter: self.entry_list[0].resume_count,
                entry_list: self.entry_list.drop_first(),
                ..self
            }
        } else {
            MonitorView { owner: None, counter: 0, ..self }
        }
    }

    /// The monitor after its owner leaves it once.
    pub open spec fn after_exit(self) -> MonitorView {
        if self.counter > 1 {
            MonitorView { counter: (self.counter - 1) as usize, ..self }
        } else {
            self.after_release()
        }
    }

    /// The monitor after its owner `thread` starts to wait on it.
    pub open spec fn after_wait(self, thread: u64) -> MonitorView {
        MonitorView {
            wait_list: self.wait_list.push(Waiter { thread, resume_count: self.counter }),
            ..self
        }.after_release()
    }

    /// The monitor after its owner notifies one waiting thread.
    pub open spec fn after_notify(self) -> MonitorView {
        if self.wait_list.len() > 0 {
            MonitorView {
                entry_list: self.entry_list.push(self.wait_list[0]),
                wait_list: self.wait_list.drop_first(),
                ..self
            }
        } else {
            self
        }
    }

    /// The monitor after its owner notifies every waiting thread.
    pub open spec fn after_notify_all(self) -> MonitorView {
        MonitorView {
            entry_list: self.entry_list + self.wait_list,
            wait_list: Seq::empty(),
            ..self
        }
    }

    /// The monitor after `thread`, whose timed wait is over, leaves the wait list and
    /// asks for the monitor again unless it already holds it.
    pub open spec fn after_timeout(self, thread: u64) -> MonitorView {
        let m = MonitorView { wait_list: without_thread(self.wait_list, thread), ..self };
        if m.owner == Some(thread) {
            m
        } else {
            m.after_enter(thread)
        }
    }

    pub open spec fn timeout_outcome(self, thread: u64) -> EnterOutcome {
        if self.owner == Some(thread) {
            EnterOutcome::Entered
        } else {
            self.enter_outcome(thread)
        }
    }
}

/// The state of one monitor: its owner, how often the owner entered it, and the
/// threads queued on it.
pub struct MonitorState {
    owner: Option<u64>,
    counter: usize,
    associate: MonitorAssociate,
    entry_list: VecDeque<Waiter>,
    wait_list: VecDeque<Waiter>,
}

impl View for MonitorState {
    type V = MonitorView;

    closed spec fn view(&self) -> MonitorView {
        MonitorView {
            owner: self.owner,
            counter: self.counter,
            associate: self.associate,
            entry_list: self.entry_list@,
            wait_list: self.wait_list@,
        }
    }
}

/// True when `r` is the refusal of an invalid monitor operation.
pub open spec fn refused<T>(r: Result<T, VmError>) -> bool {
    r matches Err(VmError::ValidationError(_))
}

/// The refusal of an operation that only the monitor's owner may perform.
fn not_owner_error() -> (r: VmError)
    ensures
        r matches VmError::ValidationError(m) && m@
            == "IllegalMonitorStateException: the current thread does not own the monitor"@,
{
    VmError::ValidationError("IllegalMonitorStateException: the current thread does not own the monitor".to_owned())
}

impl MonitorState {
    /// A monitor for `associate`, created on behalf of `owner`, which owns it without
    /// having entered it yet.
    pub fn new(owner: u64, associate: MonitorAssociate) -> (r: Self)
        ensures
            r@ == MonitorView::fresh(owner, associate),
    {
        let r = MonitorState {
            owner: Some(owner),
            counter: 0,
            associate,
            entry_list: VecDeque::new(),
            wait_list: VecDeque::new(),
        };
        assert(r@.entry_list =~= Seq::<Waiter>::empty());
        assert(r@.wait_list =~= Seq::<Waiter>::empty());
        r
    }

    /// What the monitor guards.
    pub fn associate(&self) -> (r: MonitorAssociate)
        ensures
            r == self@.associate,
    {
        self.associate
    }

    /// True when `thread` owns the monitor.
    pub fn is_owned_by(&self, thread: u64) -> (r: bool)
        ensures
            r == (self@.owner == Some(thread)),
    {
        match self.owner {
            Some(o) => o == thread,
            None => false,
        }
    }

    /// `thread` asks to enter the monitor: it enters once more if it owns it, takes it if
    /// nobody does, and is queued behind the blocked threads otherwise.
    pub fn enter(&mut self, thread: u64) -> (r: EnterOutcome)
        requires
            old(self)@.counter < usize::MAX,
        ensures
            final(self)@ == old(self)@.after_enter(thread),
            r == old(self)@.enter_outcome(thread),
            old(self)@.wf() ==> final(self)@.wf(),
    {
        match self.owner {
            Some(o) => {
                if o == thread {
                    self.counter = self.counter + 1;
                    EnterOutcome::Entered
                } else {
                    self.entry_list.push_back(Waiter { thread, resume_count: 1 });
                    EnterOutcome::Blocked
                }
            },
            None => {
                self.owner = Some(thread);
                self.counter = 1;
                EnterOutcome::Entered
            },
        }
    }

    /// The owner lets go of the monitor; returns the thread that takes it over, which
    /// must be woken.
    fn release(&mut self) -> (r: Option<u64>)
        ensures
            final(self)@ == old(self)@.after_release(),
            r == old(self)@.next_owner(),
    {
        match self.entry_list.pop_front() {
            Some(w) => {
                self.owner = Some(w.thread);
                self.counter = w.resume_count;
                assert(self@.entry_list =~= old(self)@.entry_list.drop_first());
                Some(w.thread)
            },
            None => {
                self.owner = None;
                self.counter = 0;
                None
            },
        }
    }

    /// `thread` leaves the monitor once. Only the owner may; when it leaves for the last
    /// time the monitor goes to the first blocked thread, which is returned to be woken.
    pub fn exit(&mut self, thread: u64) -> (r: Result<Option<u64>, VmError>)
        ensures
            old(self)@.owner != Some(thread) ==> final(self)@ == old(self)@ && refused(r),
            old(self)@.owner == Some(thread) ==> final(self)@ == old(self)@.after_exit() && r
                == Ok::<Option<u64>, VmError>(
                if old(self)@.counter > 1 {
                    None
                } else {
                    old(self)@.next_owner()
                },
            ),
            old(self)@.wf() ==> final(self)@.wf(),
    {
        if !self.is_owned_by(thread) {
            return Err(not_owner_error());
        }
        if self.counter > 1 {
            self.counter = self.counter - 1;
            Ok(None)
        } else {
            Ok(self.release())
        }
    }

    /// The owner `thread` starts to wait: it is queued for a notification with its entry
    /// count, and lets go of the monitor. Returns the thread that takes the monitor over
    /// and the entry count that `thread` gave up.
    pub fn wait(&mut self, thread: u64) -> (r: (Option<u64>, usize))
        requires
            old(self)@.owner == Some(thread),
        ensures
            final(self)@ == old(self)@.after_wait(thread),
            r.0 == old(self)@.next_owner(),
            r.1 == old(self)@.counter,
            old(self)@.wf() ==> final(self)@.wf(),
    {
        let counter = self.counter;
        self.wait_list.push_back(Waiter { thread, resume_count: counter });
        let woken = self.release();
        (woken, counter)
    }

    /// `thread`, whose timed wait is over, leaves the wait list and asks for the monitor
    /// again unless it already holds it.
    pub fn resume_after_timeout(&mut self, thread: u64) -> (r: EnterOutcome)
        requires
            old(self)@.counter < usize::MAX,
        ensures
            final(self)@ == old(self)@.after_timeout(thread),
            r == old(self)@.timeout_outcome(thread),
            old(self)@.wf() ==> final(self)@.wf(),
    {
        let mut kept: VecDeque<Waiter> = VecDeque::new();
        let ghost all = self.wait_list@;
        let mut i: usize = 0;
        while i < self.wait_list.len()
            invariant
                all == self.wait_list@,
                i <= all.len(),
                kept@ == without_thread(all.take(i as int), thread),
            decreases all.len() - i,
        {
            let w = self.wait_list[i];
            proof {
                assert(all.take(i + 1).drop_last() =~= all.take(i as int));
            }
            if w.thread != thread {
                kept.push_back(w);
            }
            i = i + 1;
        }
        proof {
            assert(all.take(all.len() as int) =~= all);
        }
        self.wait_list = kept;
        if self.is_owned_by(thread) {
            EnterOutcome::Entered
        } else {
            self.enter(thread)
        }
    }

    /// The owner `thread` notifies the first waiting thread, which then competes for the
    /// monitor with the blocked threads.
    pub fn notify(&mut self, thread: u64) -> (r: Result<(), VmError>)
        ensures
            old(self)@.owner != Some(thread) ==> final(self)@ == old(self)@ && refused(r),
            old(self)@.owner == Some(thread) ==> final(self)@ == old(self)@.after_notify() && r
                is Ok,
            old(self)@.wf() ==> final(self)@.wf(),
    {
        if !self.is_owned_by(thread) {
            return Err(not_owner_error());
        }
        if let Some(top) = self.wait_list.pop_front() {
            self.entry_list.push_back(top);
            assert(self@.wait_list =~= old(self)@.wait_list.drop_first());
        }
        Ok(())
    }

    /// The owner `thread` notifies every waiting thread, in the order they wait.
    pub fn notify_all(&mut self, thread: u64) -> (r: Result<(), VmError>)
        ensures
            old(self)@.owner != Some(thread) ==> final(self)@ == old(self)@ && refused(r),
            old(self)@.owner == Some(thread) ==> final(self)@ == old(self)@.after_notify_all()
                && r is Ok,
            old(self)@.wf() ==> final(self)@.wf(),
    {
        if !self.is_owned_by(thread) {
            return Err(not_owner_error());
        }
        let ghost entry0 = self.entry_list@;
        let ghost wait0 = self.wait_list@;
        while self.wait_list.len() > 0
            invariant
                self.owner == old(self).owner,
                self.counter == old(self).counter,
                self.associate == old(self).associate,
                entry0 + wait0 == self.entry_list@ + self.wait_list@,
            decreases self.wait_list@.len(),
        {
            let ghost e = self.entry_list@;
            let ghost w = self.wait_list@;
            if let Some(top) = self.wait_list.pop_front() {
                self.entry_list.push_back(top);
                assert(e + w =~= self.entry_list@ + self.wait_list@);
            }
        }
        assert(self.entry_list@ =~= entry0 + wait0);
        assert(self.wait_list@ =~= Seq::<Waiter>::empty());
        Ok(())
    }
}

/// The monitor that `thread` meets when it uses the monitor of `a`: the one that exists,
/// or a fresh one that it creates.
pub open spec fn met(monitors: Map<MonitorAssociate, MonitorView>, a: MonitorAssociate, thread: u64) -> MonitorView {
    if monitors.contains_key(a) {
        monitors[a]
    } else {
        MonitorView::fresh(thread, a)
    }
}

/// No two monitors of `s` guard the same associate.
pub open spec fn associates_unique(s: Seq<MonitorView>) -> bool {
    forall|i: int, j: int|
        0 <= i < s.len() && 0 <= j < s.len() && #[trigger] s[i].associate == #[trigger] s[j].associate
            ==> i == j
}

/// True when some monitor of `s` guards `a`.
pub open spec fn has_associate(s: Seq<MonitorView>, a: MonitorAssociate) -> bool {
    exists|i: int| 0 <= i < s.len() && #[trigger] s[i].associate == a
}

/// The monitors of `s`, each found by its associate.
pub open spec fn monitor_map(s: Seq<MonitorView>) -> Map<MonitorAssociate, MonitorView> {
    Map::new(
        |a: MonitorAssociate| has_associate(s, a),
        |a: MonitorAssociate| s[choose|i: int| 0 <= i < s.len() && #[trigger] s[i].associate == a],
    )
}

proof fn lemma_map_at(s: Seq<MonitorView>, i: int)
    requires
        associates_unique(s),
        0 <= i < s.len(),
    ensures
        monitor_map(s).contains_key(s[i].associate),
        monitor_map(s)[s[i].associate] == s[i],
{
    let a = s[i].associate;
    assert(has_associate(s, a));
    let j = choose|j: int| 0 <= j < s.len() && #[trigger] s[j].associate == a;
    assert(s[j].associate == s[i].associate);
}

proof fn lemma_map_update(s: Seq<MonitorView>, i: int, m: MonitorView)
    requires
        associates_unique(s),
        0 <= i < s.len(),
        m.associate == s[i].associate,
    ensures
        associates_unique(s.update(i, m)),
        monitor_map(s.update(i, m)) == monitor_map(s).insert(m.associate, m),
{
    let t = s.update(i, m);
    assert forall|x: int, y: int|
        0 <= x < t.len() && 0 <= y < t.len() && #[trigger] t[x].associate == #[trigger] t[y].associate
        implies x == y by {
        assert(s[x].associate == t[x].associate);
        assert(s[y].associate == t[y].associate);
    }
    assert forall|a: MonitorAssociate| #[trigger] has_associate(t, a) == has_associate(s, a) by {
        if has_associate(t, a) {
            let x = choose|x: int| 0 <= x < t.len() && #[trigger] t[x].associate == a;
            assert(s[x].associate == a);
        }
        if has_associate(s, a) {
            let x = choose|x: int| 0 <= x < s.len() && #[trigger] s[x].associate == a;
            assert(t[x].associate == a);
        }
    }
    assert forall|a: MonitorAssociate| #[trigger] monitor_map(t).contains_key(a) implies monitor_map(t)[a]
        == monitor_map(s).insert(m.associate, m)[a] by {
        let x = choose|x: int| 0 <= x < t.len() && #[trigger] t[x].associate == a;
        lemma_map_at(t, x);
        if x != i {
            assert(s[x] == t[x]);
            lemma_map_at(s, x);
        }
    }
    assert(monitor_map(t) =~= monitor_map(s).insert(m.associate, m));
}

proof fn lemma_map_push(s: Seq<MonitorView>, m: MonitorView)
    requires
        associates_unique(s),
        !has_associate(s, m.associate),
    ensures
        associates_unique(s.push(m)),
        monitor_map(s.push(m)) == monitor_map(s).insert(m.associate, m),
{
    let t = s.push(m);
    assert forall|x: int, y: int|
        0 <= x < t.len() && 0 <= y < t.len() && #[trigger] t[x].associate == #[trigger] t[y].associate
        implies x == y by {
        if x < s.len() && y < s.len() {
            assert(s[x].associate == s[y].associate);
        } else if x < s.len() {
            assert(s[x].associate == m.associate);
        } else if y < s.len() {
            assert(s[y].associate == m.associate);
        }
    }
    assert forall|a: MonitorAssociate| #[trigger] has_associate(t, a) == (has_associate(s, a) || a
        == m.associate) by {
        if has_associate(t, a) {
            let x = choose|x: int| 0 <= x < t.len() && #[trigger] t[x].associate == a;
            if x < s.len() {
                assert(s[x].associate == a);
            }
        }
        if has_associate(s, a) {
            let x = choose|x: int| 0 <= x < s.len() && #[trigger] s[x].associate == a;
            assert(t[x].associate == a);
        }
        if a == m.associate {
            assert(t[s.len() as int].associate == a);
        }
    }
    assert forall|a: MonitorAssociate| #[trigger] monitor_map(t).contains_key(a) implies monitor_map(t)[a]
        == monitor_map(s).insert(m.associate, m)[a] by {
        let x = choose|x: int| 0 <= x < t.len() && #[trigger] t[x].associate == a;
        lemma_map_at(t, x);
        if x < s.len() {
            assert(s[x] == t[x]);
            lemma_map_at(s, x);
        }
    }
    assert(monitor_map(t) =~= monitor_map(s).insert(m.associate, m));
}

/// The monitors of the machine, at most one for each associate. A monitor is created
/// the first time a thread uses it.
pub struct MonitorHandler {
    monitors: Vec<MonitorState>,
}

impl View for MonitorHandler {
    type V = Map<MonitorAssociate, MonitorView>;

    closed spec fn view(&self) -> Map<MonitorAssociate, MonitorView> {
        monitor_map(self.states())
    }
}

impl MonitorHandler {
    closed spec fn states(&self) -> Seq<MonitorView> {
        self.monitors@.map_values(|m: MonitorState| m@)
    }

    /// Each monitor is consistent and is found under the associate it guards.
    pub closed spec fn wf(&self) -> bool {
        &&& associates_unique(self.states())
        &&& forall|i: int| 0 <= i < self.states().len() ==> (#[trigger] self.states()[i]).wf()
    }

    /// What a consistent handler guarantees of its monitors.
    pub proof fn lemma_wf(&self)
        requires
            self.wf(),
        ensures
            forall|a: MonitorAssociate| #[trigger] self@.contains_key(a) ==> self@[a].wf() && self@[a].associate == a,
    {
        assert forall|a: MonitorAssociate| #[trigger] self@.contains_key(a) implies self@[a].wf()
            && self@[a].associate == a by {
            let s = self.states();
            let x = choose|x: int| 0 <= x < s.len() && #[trigger] s[x].associate == a;
            lemma_map_at(s, x);
        }
    }

    /// A handler without monitors.
    pub fn new() -> (r: Self)
        ensures
            r.wf(),
            r@ == Map::<MonitorAssociate, MonitorView>::empty(),
    {
        let r = MonitorHandler { monitors: Vec::new() };
        assert(r.states() =~= Seq::<MonitorView>::empty());
        assert(r@ =~= Map::<MonitorAssociate, MonitorView>::empty());
        r
    }

    /// The position of the monitor of `a`, if there is one.
    fn find(&self, a: MonitorAssociate) -> (r: Option<usize>)
        requires
            self.wf(),
        ensures
            match r {
                Some(i) => i < self.monitors@.len() && self.states()[i as int].associate == a,
                None => !self@.contains_key(a),
            },
    {
        let mut i: usize = 0;
        while i < self.monitors.len()
            invariant
                i <= self.monitors@.len(),
                forall|j: int| 0 <= j < i ==> (#[trigger] self.states()[j]).associate != a,
            decreases self.monitors@.len() - i,
        {
            if self.monitors[i].associate() == a {
                return Some(i);
            }
            i = i + 1;
        }
        None
    }

    /// The position of the monitor of `a`, which `thread` creates if there is none.
    fn get_monitor(&mut self, thread: u64, a: MonitorAssociate) -> (r: usize)
        requires
            old(self).wf(),
        ensures
            final(self).wf(),
            final(self)@ == old(self)@.insert(a, met(old(self)@, a, thread)),
            r < final(self).monitors@.len(),
            final(self).states()[r as int] == met(old(self)@, a, thread),
    {
        match self.find(a) {
            Some(i) => {
                proof {
                    lemma_map_at(self.states(), i as int);
                    assert(self@.insert(a, self@[a]) =~= self@);
                }
                i
            },
            None => {
                let ghost s = self.states();
                self.monitors.push(MonitorState::new(thread, a));
                proof {
                    assert(self.states() =~= s.push(MonitorView::fresh(thread, a)));
                    assert(!has_associate(s, a));
                    lemma_map_push(s, MonitorView::fresh(thread, a));
                }
                self.monitors.len() - 1
            },
        }
    }

    proof fn lemma_replace(&self, i: int, m: MonitorView)
        requires
            self.wf(),
            0 <= i < self.states().len(),
            m.associate == self.states()[i].associate,
            m.wf(),
        ensures
            associates_unique(self.states().update(i, m)),
            forall|j: int|
                0 <= j < self.states().len() ==> (#[trigger] self.states().update(i, m)[j]).wf(),
            monitor_map(self.states().update(i, m)) == self@.insert(m.associate, m),
    {
        lemma_map_update(self.states(), i, m);
        assert forall|j: int| 0 <= j < self.states().len() implies (#[trigger] self.states().update(
            i,
            m,
        )[j]).wf() by {
            if j != i {
                assert(self.states()[j].wf());
            }
        }
    }

    fn enter_or_block(&mut self, thread: u64, a: MonitorAssociate) -> (r: EnterOutcome)
        requires
            old(self).wf(),
            met(old(self)@, a, thread).counter < usize::MAX,
        ensures
            final(self).wf(),
            final(self)@ == old(self)@.insert(a, met(old(self)@, a, thread).after_enter(thread)),
            r == met(old(self)@, a, thread).enter_outcome(thread),
    {
        let i = self.get_monitor(thread, a);
        let ghost mid = *self;
        let ghost m = mid.states()[i as int];
        let r = self.monitors[i].enter(thread);
        proof {
            assert(m.wf());
            mid.lemma_replace(i as int, m.after_enter(thread));
            assert(self.states() =~= mid.states().update(i as int, m.after_enter(thread)));
            assert(mid@.insert(a, m.after_enter(thread)) =~= old(self)@.insert(
                a,
                m.after_enter(thread),
            ));
        }
        r
    }

    /// `thread` asks to enter the monitor of the object `ref_id`; on `Blocked` it must
    /// park until the monitor is handed to it.
    pub fn enter_ref_or_block(&mut self, thread: u64, ref_id: RefId) -> (r: EnterOutcome)
        requires
            old(self).wf(),
            met(old(self)@, MonitorAssociate::Ref(ref_id), thread).counter < usize::MAX,
        ensures
            final(self).wf(),
            final(self)@ == old(self)@.insert(
                MonitorAssociate::Ref(ref_id),
                met(old(self)@, MonitorAssociate::Ref(ref_id), thread).after_enter(thread),
            ),
            r == met(old(self)@, MonitorAssociate::Ref(ref_id), thread).enter_outcome(thread),
    {
        self.enter_or_block(thread, MonitorAssociate::Ref(ref_id))
    }

    /// `thread` asks to enter the monitor of the synchronized method `method`; on
    /// `Blocked` it must park until the monitor is handed to it.
    pub fn enter_method_or_block(&mut self, thread: u64, method: ClassAndMethodId) -> (r: EnterOutcome)
        requires
            old(self).wf(),
            met(old(self)@, MonitorAssociate::Method(method), thread).counter < usize::MAX,
        ensures
            final(self).wf(),
            final(self)@ == old(self)@.insert(
                MonitorAssociate::Method(method),
                met(old(self)@, MonitorAssociate::Method(method), thread).after_enter(thread),
            ),
            r == met(old(self)@, MonitorAssociate::Method(method), thread).enter_outcome(thread),
    {
        self.enter_or_block(thread, MonitorAssociate::Method(method))
    }

    fn exit(&mut self, thread: u64, a: MonitorAssociate) -> (r: Result<Option<u64>, VmError>)
        requires
            old(self).wf(),
        ensures
            final(self).wf(),
            !old(self)@.contains_key(a) || old(self)@[a].owner != Some(thread) ==> final(self)@
                == old(self)@ && refused(r),
            old(self)@.contains_key(a) && old(self)@[a].owner == Some(thread) ==> final(self)@
                == old(self)@.insert(a, old(self)@[a].after_exit()) && r == Ok::<
                Option<u64>,
                VmError,
            >(
                if old(self)@[a].counter > 1 {
                    None
                } else {
                    old(self)@[a].next_owner()
                },
            ),
    {
        match self.find(a) {
            None => Err(VmError::ValidationError("the monitor to exit does not exist".to_string())),
            Some(i) => {
                let ghost mid = *self;
                let ghost m = mid.states()[i as int];
                proof {
                    lemma_map_at(mid.states(), i as int);
                    assert(m.wf());
                }
                let r = self.monitors[i].exit(thread);
                proof {
                    let n = self.states()[i as int];
                    mid.lemma_replace(i as int, n);
                    assert(self.states() =~= mid.states().update(i as int, n));
                    if m.owner != Some(thread) {
                        assert(old(self)@.insert(a, m) =~= old(self)@);
                    }
                }
                r
            },
        }
    }

    /// `thread` leaves the monitor of the object `ref_id` once; returns the thread that
    /// takes the monitor over, to be woken.
    pub fn exit_ref(&mut self, thread: u64, ref_id: RefId) -> (r: Result<Option<u64>, VmError>)
        requires
            old(self).wf(),
        ensures
            final(self).wf(),
            ({
                let a = MonitorAssociate::Ref(ref_id);
                &&& !old(self)@.contains_key(a) || old(self)@[a].owner != Some(thread) ==> final(self)@ == old(self)@ && refused(r)
                &&& old(self)@.contains_key(a) && old(self)@[a].owner == Some(thread) ==> final(self)@ == old(self)@.insert(a, old(self)@[a].after_exit()) && r == Ok::<
                    Option<u64>,
                    VmError,
                >(
                    if old(self)@[a].counter > 1 {
                        None
                    } else {
                        old(self)@[a].next_owner()
                    },
                )
            }),
    {
        self.exit(thread, MonitorAssociate::Ref(ref_id))
    }

    /// `thread` leaves the monitor of the synchronized method `method` once; returns the
    /// thread that takes the monitor over, to be woken.
    pub fn exit_method(&mut self, thread: u64, method: ClassAndMethodId) -> (r: Result<
        Option<u64>,
        VmError,
    >)
        requires
            old(self).wf(),
        ensures
            final(self).wf(),
            ({
                let a = MonitorAssociate::Method(method);
                &&& !old(self)@.contains_key(a) || old(self)@[a].owner != Some(thread) ==> final(self)@ == old(self)@ && refused(r)
                &&& old(self)@.contains_key(a) && old(self)@[a].owner == Some(thread) ==> final(self)@ == old(self)@.insert(a, old(self)@[a].after_exit()) && r == Ok::<
                    Option<u64>,
                    VmError,
                >(
                    if old(self)@[a].counter > 1 {
                        None
                    } else {
                        old(self)@[a].next_owner()
                    },
                )
            }),
    {
        self.exit(thread, MonitorAssociate::Method(method))
    }

    /// True when `thread` owns the monitor of the object `ref_id`.
    pub fn holds_lock(&self, thread: u64, ref_id: RefId) -> (r: bool)
        requires
            self.wf(),
        ensures
            r == (self@.contains_key(MonitorAssociate::Ref(ref_id)) && self@[MonitorAssociate::Ref(
                ref_id,
            )].owner == Some(thread)),
    {
        match self.find(MonitorAssociate::Ref(ref_id)) {
            Some(i) => {
                proof {
                    lemma_map_at(self.states(), i as int);
                }
                self.monitors[i].is_owned_by(thread)
            },
            None => false,
        }
    }

    /// `thread`, which owns the monitor of the object `ref_id`, starts to wait on it.
    /// Returns the thread that takes the monitor over, to be woken, and the entry count
    /// that `thread` gets back once it owns the monitor again.
    pub fn wait(&mut self, thread: u64, ref_id: RefId) -> (r: (Option<u64>, usize))
        requires
            old(self).wf(),
            met(old(self)@, MonitorAssociate::Ref(ref_id), thread).owner == Some(thread),
        ensures
            final(self).wf(),
            ({
                let a = MonitorAssociate::Ref(ref_id);
                let m = met(old(self)@, a, thread);
                &&& final(self)@ == old(self)@.insert(a, m.after_wait(thread))
                &&& r.0 == m.next_owner()
                &&& r.1 == m.counter
            }),
    {
        let a = MonitorAssociate::Ref(ref_id);
        let i = self.get_monitor(thread, a);
        let ghost mid = *self;
        let ghost m = mid.states()[i as int];
        let r = self.monitors[i].wait(thread);
        proof {
            assert(m.wf());
            mid.lemma_replace(i as int, m.after_wait(thread));
            assert(self.states() =~= mid.states().update(i as int, m.after_wait(thread)));
            assert(mid@.insert(a, m.after_wait(thread)) =~= old(self)@.insert(a, m.after_wait(thread)));
        }
        r
    }

    /// `thread`, whose timed wait on the monitor of the object `ref_id` is over, leaves
    /// the wait list and asks for the monitor again unless it already holds it; on
    /// `Blocked` it must park until the monitor is handed to it.
    pub fn resume_after_timeout(&mut self, thread: u64, ref_id: RefId) -> (r: EnterOutcome)
        requires
            old(self).wf(),
            met(old(self)@, MonitorAssociate::Ref(ref_id), thread).counter < usize::MAX,
        ensures
            final(self).wf(),
            ({
                let a = MonitorAssociate::Ref(ref_id);
                let m = met(old(self)@, a, thread);
                &&& final(self)@ == old(self)@.insert(a, m.after_timeout(thread))
                &&& r == m.timeout_outcome(thread)
            }),
    {
        let a = MonitorAssociate::Ref(ref_id);
        let i = self.get_monitor(thread, a);
        let ghost mid = *self;
        let ghost m = mid.states()[i as int];
        let r = self.monitors[i].resume_after_timeout(thread);
        proof {
            assert(m.wf());
            mid.lemma_replace(i as int, m.after_timeout(thread));
            assert(self.states() =~= mid.states().update(i as int, m.after_timeout(thread)));
            assert(mid@.insert(a, m.after_timeout(thread)) =~= old(self)@.insert(
                a,
                m.after_timeout(thread),
            ));
        }
        r
    }

    /// `thread` notifies the first thread that waits on the monitor of the object
    /// `ref_id`. Only the owner may.
    pub fn notify(&mut self, thread: u64, ref_id: RefId) -> (r: Result<(), VmError>)
        requires
            old(self).wf(),
        ensures
            final(self).wf(),
            ({
                let a = MonitorAssociate::Ref(ref_id);
                let m = met(old(self)@, a, thread);
                &&& m.owner != Some(thread) ==> final(self)@ == old(self)@ && refused(r)
                &&& m.owner == Some(thread) ==> final(self)@ == old(self)@.insert(
                    a,
                    m.after_notify(),
                ) && r is Ok
            }),
    {
        let a = MonitorAssociate::Ref(ref_id);
        let i = self.get_monitor(thread, a);
        let ghost mid = *self;
        let ghost m = mid.states()[i as int];
        let r = self.monitors[i].notify(thread);
        proof {
            assert(m.wf());
            let n = self.states()[i as int];
            mid.lemma_replace(i as int, n);
            assert(self.states() =~= mid.states().update(i as int, n));
            assert(mid@.insert(a, n) =~= old(self)@.insert(a, n));
            if m.owner != Some(thread) {
                assert(old(self)@.contains_key(a));
                assert(old(self)@.insert(a, m) =~= old(self)@);
            }
        }
        r
    }

    /// `thread` notifies every thread that waits on the monitor of the object `ref_id`.
    /// Only the owner may.
    pub fn notify_all(&mut self, thread: u64, ref_id: RefId) -> (r: Result<(), VmError>)
        requires
            old(self).wf(),
        ensures
            final(self).wf(),
            ({
                let a = MonitorAssociate::Ref(ref_id);
                let m = met(old(self)@, a, thread);
                &&& m.owner != Some(thread) ==> final(self)@ == old(self)@ && refused(r)
                &&& m.owner == Some(thread) ==> final(self)@ == old(self)@.insert(
                    a,
                    m.after_notify_all(),
                ) && r is Ok
            }),
    {
        let a = MonitorAssociate::Ref(ref_id);
        let i = self.get_monitor(thread, a);
        let ghost mid = *self;
        let ghost m = mid.states()[i as int];
        let r = self.monitors[i].notify_all(thread);
        proof {
            assert(m.wf());
            let n = self.states()[i as int];
            mid.lemma_replace(i as int, n);
            assert(self.states() =~= mid.states().update(i as int, n));
            assert(mid@.insert(a, n) =~= old(self)@.insert(a, n));
            if m.owner != Some(thread) {
                assert(old(self)@.contains_key(a));
                assert(old(self)@.insert(a, m) =~= old(self)@);
            }
        }
        r
    }
}

/// Entering a monitor and leaving it again gives back the monitor as it was, unless the
/// thread held a monitor it had not entered yet (one it created by its first use).
pub proof fn law_enter_then_exit_restores(m: MonitorView, thread: u64)
    requires
        m.wf(),
        m.counter < usize::MAX,
        m.enter_outcome(thread) == EnterOutcome::Entered,
        !(m.owner == Some(thread) && m.counter == 0),
    ensures
        m.after_enter(thread).after_exit() == m,
{
    if m.owner is None {
        assert(m.after_enter(thread).after_exit().entry_list =~= m.entry_list);
    }
}

/// A thread that asks for a monitor owned by another thread does not get it: it is
/// queued last and the owner keeps the monitor.
pub proof fn law_enter_blocks_behind_owner(m: MonitorView, thread: u64, owner: u64)
    requires
        m.owner == Some(owner),
        owner != thread,
    ensures
        m.enter_outcome(thread) == EnterOutcome::Blocked,
        m.after_enter(thread).owner == Some(owner),
        m.after_enter(thread).counter == m.counter,
        m.after_enter(thread).entry_list == m.entry_list.push(Waiter { thread, resume_count: 1 }),
{
}

/// When its owner leaves a monitor for the last time, the monitor goes to the thread
/// that was blocked first, with that thread's entry count; with no thread blocked,
/// nobody owns it.
pub proof fn law_last_exit_hands_over(m: MonitorView)
    requires
        m.counter <= 1,
    ensures
        m.entry_list.len() > 0 ==> m.after_exit().owner == Some(m.entry_list[0].thread)
            && m.after_exit().counter == m.entry_list[0].resume_count && m.after_exit().entry_list
            == m.entry_list.drop_first(),
        m.entry_list.len() == 0 ==> m.after_exit().owner is None && m.after_exit().counter == 0,
{
}

/// A thread that waits on a monitor gets it back, with the entry count it had, once
/// another thread enters the monitor, notifies it and leaves.
pub proof fn law_wait_notify_exit_gives_back(m: MonitorView, waiter: u64, notifier: u64)
    requires
        m.wf(),
        m.owner == Some(waiter),
        m.entry_list.len() == 0,
        m.wait_list.len() == 0,
        waiter != notifier,
    ensures
        ({
            let after = m.after_wait(waiter).after_enter(notifier).after_notify().after_exit();
            &&& after.owner == Some(waiter)
            &&& after.counter == m.counter
            &&& after.entry_list.len() == 0
            &&& after.wait_list.len() == 0
        }),
{
    let m1 = m.after_wait(waiter);
    assert(m1.owner is None);
    assert(m1.wait_list =~= seq![Waiter { thread: waiter, resume_count: m.counter }]);
    let m2 = m1.after_enter(notifier);
    let m3 = m2.after_notify();
    assert(m3.entry_list =~= seq![Waiter { thread: waiter, resume_count: m.counter }]);
    assert(m3.wait_list.len() == 0);
}

/// Notifying every waiting thread queues them behind the blocked threads in the order
/// they started to wait, and leaves owner and entry count as they were.
pub proof fn law_notify_all_keeps_order(m: MonitorView)
    ensures
        m.after_notify_all().entry_list.take(m.entry_list.len() as int) == m.entry_list,
        m.after_notify_all().entry_list.skip(m.entry_list.len() as int) == m.wait_list,
        m.after_notify_all().owner == m.owner,
        m.after_notify_all().counter == m.counter,
{
    assert(m.after_notify_all().entry_list.take(m.entry_list.len() as int) =~= m.entry_list);
    assert(m.after_notify_all().entry_list.skip(m.entry_list.len() as int) =~= m.wait_list);
}

} // verus!

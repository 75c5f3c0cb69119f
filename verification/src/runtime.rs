//! The scheduling pools of an application, described by their configuration.
//!
//! One pool runs the watchdog and the watchers, one is shared by the services
//! that ask for it, and every other service has a pool of its own.

use crate::text::same_text;
use vstd::prelude::*;

verus! {

/// How one pool of worker threads is to be set up.
#[derive(Clone, Copy, Debug)]
pub struct RuntimeConfig {
    pub thread_name: &'static str,
    pub io_driver: bool,
    pub time_driver: bool,
    pub core_threads: Option<usize>,
    pub max_threads: Option<usize>,
    pub thread_stack_size: Option<usize>,
}

/// A `RuntimeConfig` with its name as a sequence of characters.
pub struct RuntimeConfigView {
    pub thread_name: Seq<char>,
    pub io_driver: bool,
    pub time_driver: bool,
    pub core_threads: Option<usize>,
    pub max_threads: Option<usize>,
    pub thread_stack_size: Option<usize>,
}

impl View for RuntimeConfig {
    type V = RuntimeConfigView;

    open spec fn view(&self) -> RuntimeConfigView {
        RuntimeConfigView {
            thread_name: self.thread_name@,
            io_driver: self.io_driver,
            time_driver: self.time_driver,
            core_threads: self.core_threads,
            max_threads: self.max_threads,
            thread_stack_size: self.thread_stack_size,
        }
    }
}

impl RuntimeConfigView {
    /// A pool named `thread_name` with default sizes and the given drivers.
    pub open spec fn plain(thread_name: Seq<char>, io_driver: bool, time_driver: bool) -> Self {
        RuntimeConfigView {
            thread_name,
            io_driver,
            time_driver,
            core_threads: None,
            max_threads: None,
            thread_stack_size: None,
        }
    }
}

/// One step in the making of a pool.
#[derive(Clone, Copy, Debug, PartialEq, Eq)]
pub enum Setting {
    /// Name the threads of the pool.
    ThreadName(&'static str),
    /// Let the pool drive I/O.
    EnableIo,
    /// Let the pool keep time.
    EnableTime,
    /// Keep so many threads at work.
    CoreThreads(usize),
    /// Have no more than so many threads.
    MaxThreads(usize),
    /// Give each thread a stack of so many bytes.
    ThreadStackSize(usize),
    /// Schedule the tasks over the threads of the pool.
    ThreadedScheduler,
}

/// A `Setting` with its name as a sequence of characters.
pub enum SettingView {
    ThreadName(Seq<char>),
    EnableIo,
    EnableTime,
    CoreThreads(usize),
    MaxThreads(usize),
    ThreadStackSize(usize),
    ThreadedScheduler,
}

impl View for Setting {
    type V = SettingView;

    open spec fn view(&self) -> SettingView {
        match *self {
            Setting::ThreadName(name) => SettingView::ThreadName(name@),
            Setting::EnableIo => SettingView::EnableIo,
            Setting::EnableTime => SettingView::EnableTime,
            Setting::CoreThreads(threads) => SettingView::CoreThreads(threads),
            Setting::MaxThreads(threads) => SettingView::MaxThreads(threads),
            Setting::ThreadStackSize(size) => SettingView::ThreadStackSize(size),
            Setting::ThreadedScheduler => SettingView::ThreadedScheduler,
        }
    }
}

/// `setting` if it is `wanted`, and nothing if not.
pub open spec fn when(wanted: bool, setting: SettingView) -> Seq<SettingView> {
    if wanted {
        seq![setting]
    } else {
        Seq::empty()
    }
}

impl RuntimeConfigView {
    /// The steps that make the pool, in their order: the name of the
    /// threads, each driver that is asked for, each size that is given, and
    /// at last the scheduler.
    pub open spec fn settings(self) -> Seq<SettingView> {
        seq![SettingView::ThreadName(self.thread_name)] + when(
            self.io_driver,
            SettingView::EnableIo,
        ) + when(self.time_driver, SettingView::EnableTime) + when(
            self.core_threads is Some,
            SettingView::CoreThreads(self.core_threads.unwrap()),
        ) + when(self.max_threads is Some, SettingView::MaxThreads(self.max_threads.unwrap()))
            + when(
            self.thread_stack_size is Some,
            SettingView::ThreadStackSize(self.thread_stack_size.unwrap()),
        ) + seq![SettingView::ThreadedScheduler]
    }
}

impl RuntimeConfig {
    /// The steps that make the pool, in their order.
    pub fn settings(&self) -> (steps: Vec<Setting>)
        ensures
            Seq::new(steps@.len(), |i: int| steps@[i]@) == self@.settings(),
    {
        let mut steps: Vec<Setting> = Vec::new();
        let ghost mut made: Seq<SettingView> = Seq::empty();
        steps.push(Setting::ThreadName(self.thread_name));
        proof {
            made = made + seq![SettingView::ThreadName(self.thread_name@)];
        }
        assert(Seq::new(steps@.len(), |i: int| steps@[i]@) =~= made);
        if self.io_driver {
            steps.push(Setting::EnableIo);
        }
        proof {
            made = made + when(self.io_driver, SettingView::EnableIo);
        }
        assert(Seq::new(steps@.len(), |i: int| steps@[i]@) =~= made);
        if self.time_driver {
            steps.push(Setting::EnableTime);
        }
        proof {
            made = made + when(self.time_driver, SettingView::EnableTime);
        }
        assert(Seq::new(steps@.len(), |i: int| steps@[i]@) =~= made);
        if let Some(core_threads) = self.core_threads {
            steps.push(Setting::CoreThreads(core_threads));
        }
        proof {
            made = made + when(
                self.core_threads is Some,
                SettingView::CoreThreads(self.core_threads.unwrap()),
            );
        }
        assert(Seq::new(steps@.len(), |i: int| steps@[i]@) =~= made);
        if let Some(max_threads) = self.max_threads {
            steps.push(Setting::MaxThreads(max_threads));
        }
        proof {
            made = made + when(
                self.max_threads is Some,
                SettingView::MaxThreads(self.max_threads.unwrap()),
            );
        }
        assert(Seq::new(steps@.len(), |i: int| steps@[i]@) =~= made);
        if let Some(thread_stack_size) = self.thread_stack_size {
            steps.push(Setting::ThreadStackSize(thread_stack_size));
        }
        proof {
            made = made + when(
                self.thread_stack_size is Some,
                SettingView::ThreadStackSize(self.thread_stack_size.unwrap()),
            );
        }
        assert(Seq::new(steps@.len(), |i: int| steps@[i]@) =~= made);
        steps.push(Setting::ThreadedScheduler);
        proof {
            made = made + seq![SettingView::ThreadedScheduler];
        }
        assert(Seq::new(steps@.len(), |i: int| steps@[i]@) =~= made);
        steps
    }

    pub fn new(thread_name: &'static str) -> (config: Self)
        ensures
            config@ == RuntimeConfigView::plain(thread_name@, false, false),
    {
        Self {
            thread_name,
            io_driver: false,
            time_driver: false,
            core_threads: None,
            max_threads: None,
            thread_stack_size: None,
        }
    }

    /// The pool of the watchdog: time keeping only.
    pub fn watchdog() -> (config: Self)
        ensures
            config@ == RuntimeConfigView::plain("watchdog"@, false, true),
    {
        Self {
            thread_name: "watchdog",
            io_driver: false,
            time_driver: true,
            core_threads: None,
            max_threads: None,
            thread_stack_size: None,
        }
    }

    /// The pool that shared services run on: I/O and time keeping.
    pub fn shared() -> (config: Self)
        ensures
            config@ == RuntimeConfigView::plain("shared"@, true, true),
    {
        Self {
            thread_name: "shared",
            io_driver: true,
            time_driver: true,
            core_threads: None,
            max_threads: None,
            thread_stack_size: None,
        }
    }
}

/// Whether one of `pools` is named `name`.
pub open spec fn names(pools: Seq<RuntimeConfigView>, name: Seq<char>) -> bool {
    exists|i: int| 0 <= i < pools.len() && (#[trigger] pools[i]).thread_name == name
}

/// Where the pool named `name` stands among `pools`.
pub open spec fn place_of(pools: Seq<RuntimeConfigView>, name: Seq<char>) -> int {
    choose|i: int| 0 <= i < pools.len() && (#[trigger] pools[i]).thread_name == name
}

/// No two of `pools` have the same name.
pub open spec fn distinct_names(pools: Seq<RuntimeConfigView>) -> bool {
    forall|i: int, j: int|
        0 <= i < j < pools.len() ==> (#[trigger] pools[i]).thread_name != (
        #[trigger] pools[j]).thread_name
}

/// `pools` by their names.
pub open spec fn by_name(pools: Seq<RuntimeConfigView>) -> Map<Seq<char>, RuntimeConfigView> {
    Map::new(|name: Seq<char>| names(pools, name), |name: Seq<char>| pools[place_of(pools, name)])
}

/// Among pools of distinct names, the one that bears a name stands in its
/// place.
pub proof fn lemma_place_is_unique(pools: Seq<RuntimeConfigView>, name: Seq<char>, i: int)
    requires
        distinct_names(pools),
        0 <= i < pools.len(),
        pools[i].thread_name == name,
    ensures
        names(pools, name),
        place_of(pools, name) == i,
{
    let chosen = place_of(pools, name);
    assert(0 <= chosen < pools.len() && pools[chosen].thread_name == name);
    if chosen < i {
        assert(pools[chosen].thread_name != pools[i].thread_name);
    } else if i < chosen {
        assert(pools[i].thread_name != pools[chosen].thread_name);
    }
}

/// A pool that takes the place of one of the same name is, by name, put in.
pub proof fn lemma_replaced_by_name(pools: Seq<RuntimeConfigView>, i: int, pool: RuntimeConfigView)
    requires
        distinct_names(pools),
        0 <= i < pools.len(),
        pools[i].thread_name == pool.thread_name,
    ensures
        distinct_names(pools.update(i, pool)),
        by_name(pools.update(i, pool)) == by_name(pools).insert(pool.thread_name, pool),
{
    let after = pools.update(i, pool);
    assert forall|a: int, b: int| 0 <= a < b < after.len() implies (#[trigger] after[a]).thread_name
        != (#[trigger] after[b]).thread_name by {
        assert(pools[a].thread_name != pools[b].thread_name);
    }
    assert forall|name: Seq<char>| names(after, name) <==> names(pools, name) by {
        if names(after, name) {
            assert(pools[place_of(after, name)].thread_name == name);
        }
        if names(pools, name) {
            assert(after[place_of(pools, name)].thread_name == name);
        }
    }
    assert forall|name: Seq<char>| names(after, name) implies #[trigger] by_name(after)[name]
        == by_name(pools).insert(pool.thread_name, pool)[name] by {
        if name == pool.thread_name {
            lemma_place_is_unique(after, name, i);
        } else {
            let at = place_of(pools, name);
            assert(after[at] == pools[at]);
            lemma_place_is_unique(after, name, at);
        }
    }
    lemma_place_is_unique(pools, pool.thread_name, i);
    assert(by_name(after) =~= by_name(pools).insert(pool.thread_name, pool));
}

/// A pool of a new name that is put last is, by name, put in.
pub proof fn lemma_pushed_by_name(pools: Seq<RuntimeConfigView>, pool: RuntimeConfigView)
    requires
        distinct_names(pools),
        !names(pools, pool.thread_name),
    ensures
        distinct_names(pools.push(pool)),
        by_name(pools.push(pool)) == by_name(pools).insert(pool.thread_name, pool),
{
    let after = pools.push(pool);
    assert forall|a: int, b: int| 0 <= a < b < after.len() implies (#[trigger] after[a]).thread_name
        != (#[trigger] after[b]).thread_name by {
        if b < pools.len() {
            assert(pools[a].thread_name != pools[b].thread_name);
        } else {
            assert(pools[a].thread_name != pool.thread_name);
        }
    }
    assert forall|name: Seq<char>| names(after, name) <==> (name == pool.thread_name || names(
        pools,
        name,
    )) by {
        if names(after, name) {
            let at = place_of(after, name);
            if at < pools.len() {
                assert(pools[at].thread_name == name);
            }
        }
        if names(pools, name) {
            assert(after[place_of(pools, name)].thread_name == name);
        }
        if name == pool.thread_name {
            assert(after[after.len() - 1].thread_name == name);
        }
    }
    assert forall|name: Seq<char>| names(after, name) implies #[trigger] by_name(after)[name]
        == by_name(pools).insert(pool.thread_name, pool)[name] by {
        if name == pool.thread_name {
            lemma_place_is_unique(after, name, after.len() - 1);
        } else {
            let at = place_of(pools, name);
            assert(after[at] == pools[at]);
            lemma_place_is_unique(after, name, at);
        }
    }
    assert(by_name(after) =~= by_name(pools).insert(pool.thread_name, pool));
}

/// The pools of an application.
pub struct RuntimesView {
    /// The pool of the watchdog and of the watchers.
    pub watchdog: RuntimeConfigView,
    /// The pool that the shared services have in common.
    pub shared: RuntimeConfigView,
    /// The pools that single services have to themselves, by their names.
    pub individuals: Map<Seq<char>, RuntimeConfigView>,
}

/// The pools of an application, each described by its configuration.
#[derive(Debug)]
pub struct Runtimes {
    watchdog: RuntimeConfig,
    shared: RuntimeConfig,
    individuals: Vec<RuntimeConfig>,
}

impl Runtimes {
    /// The individual pools, in the order in which their names came.
    pub closed spec fn pools(&self) -> Seq<RuntimeConfigView> {
        Seq::new(self.individuals@.len(), |i: int| self.individuals@[i]@)
    }

    #[verifier::type_invariant]
    spec fn names_are_distinct(self) -> bool {
        distinct_names(self.pools())
    }
}

impl View for Runtimes {
    type V = RuntimesView;

    closed spec fn view(&self) -> RuntimesView {
        RuntimesView {
            watchdog: self.watchdog@,
            shared: self.shared@,
            individuals: by_name(self.pools()),
        }
    }
}

impl Runtimes {
    /// The pool of the watchdog and the shared pool, and no other yet.
    pub fn new() -> (runtimes: Self)
        ensures
            runtimes@ == (RuntimesView {
                watchdog: RuntimeConfigView::plain("watchdog"@, false, true),
                shared: RuntimeConfigView::plain("shared"@, true, true),
                individuals: Map::empty(),
            }),
    {
        let runtimes = Self {
            watchdog: RuntimeConfig::watchdog(),
            shared: RuntimeConfig::shared(),
            individuals: Vec::new(),
        };
        assert(by_name(runtimes.pools()) =~= Map::empty());
        runtimes
    }

    pub fn watchdog(&self) -> (config: &RuntimeConfig)
        ensures
            config@ == self@.watchdog,
    {
        &self.watchdog
    }

    pub fn shared(&self) -> (config: &RuntimeConfig)
        ensures
            config@ == self@.shared,
    {
        &self.shared
    }

    fn find(&self, name: &str) -> (found: Option<usize>)
        ensures
            found matches Some(i) ==> i < self.individuals@.len() && self.pools()[i as int].thread_name
                == name@ && names(self.pools(), name@) && place_of(self.pools(), name@) == i,
            found is None ==> !names(self.pools(), name@),
    {
        proof {
            use_type_invariant(self);
        }
        let mut i: usize = 0;
        while i < self.individuals.len()
            invariant
                i <= self.individuals@.len(),
                self.pools().len() == self.individuals@.len(),
                distinct_names(self.pools()),
                forall|j: int| 0 <= j < i ==> (#[trigger] self.pools()[j]).thread_name != name@,
            decreases self.individuals@.len() - i,
        {
            assert(self.pools()[i as int] == self.individuals@[i as int]@);
            if same_text(self.individuals[i].thread_name, name) {
                proof {
                    lemma_place_is_unique(self.pools(), name@, i as int);
                }
                return Some(i);
            }
            i += 1;
        }
        None
    }

    /// Adds the pool `rt` under its name. A pool that was there under the
    /// same name is replaced.
    pub fn add(&mut self, rt: RuntimeConfig)
        ensures
            final(self)@ == (RuntimesView {
                individuals: old(self)@.individuals.insert(rt@.thread_name, rt@),
                ..old(self)@
            }),
    {
        let found = self.find(rt.thread_name);
        proof {
            use_type_invariant(&*self);
        }
        let ghost before = self.pools();
        let mut taken = Runtimes::new();
        core::mem::swap(self, &mut taken);
        let Runtimes { watchdog, shared, individuals } = taken;
        let mut individuals = individuals;
        match found {
            Some(i) => {
                individuals.set(i, rt);
            },
            None => {
                individuals.push(rt);
            },
        }
        let ghost after = Seq::new(individuals@.len(), |i: int| individuals@[i]@);
        proof {
            match found {
                Some(i) => {
                    assert(after =~= before.update(i as int, rt@));
                    lemma_replaced_by_name(before, i as int, rt@);
                },
                None => {
                    assert(after =~= before.push(rt@));
                    lemma_pushed_by_name(before, rt@);
                },
            }
        }
        *self = Runtimes { watchdog, shared, individuals };
    }

    /// The individual pool named `k`, if there is one.
    pub fn individual(&self, k: &str) -> (config: Option<&RuntimeConfig>)
        ensures
            config is Some <==> self@.individuals.dom().contains(k@),
            config matches Some(found) ==> found@ == self@.individuals[k@],
    {
        match self.find(k) {
            Some(i) => {
                assert(self.pools()[i as int] == self.individuals@[i as int]@);
                Some(&self.individuals[i])
            },
            None => None,
        }
    }

    /// Gives the service named `thread_name` its pool, and returns the
    /// configuration of it: the shared pool if `shared`, else a pool of its
    /// own, named after the service and with the drivers asked for, which is
    /// added to the individual pools.
    pub fn assign(
        &mut self,
        thread_name: &'static str,
        shared: bool,
        io_driver: bool,
        time_driver: bool,
    ) -> (config: RuntimeConfig)
        ensures
            shared ==> config@ == old(self)@.shared && final(self)@ == old(self)@,
            !shared ==> config@ == RuntimeConfigView::plain(thread_name@, io_driver, time_driver)
                && final(self)@ == (RuntimesView {
                individuals: old(self)@.individuals.insert(thread_name@, config@),
                ..old(self)@
            }),
    {
        if shared {
            self.shared
        } else {
            let mut cfg = RuntimeConfig::new(thread_name);
            cfg.io_driver = io_driver;
            cfg.time_driver = time_driver;
            self.add(cfg);
            cfg
        }
    }
}

} // verus!

//! Callbacks that are due again after a fixed time.

use vstd::prelude::*;

verus! {

/// The most schedules a scheduler holds.
pub const MAX_SCHEDULES: usize = 10;

/// A callback, how often it is due, and when it ran last.
pub struct Schedule<'a, F: Fn()> {
    /// What to call.
    pub callback: F,
    /// Whether the schedule is in use.
    pub enabled: bool,
    /// The name of the schedule.
    pub name: &'a str,
    /// The time between two runs, in milliseconds.
    pub duration: u64,
    /// The time before the first run, in milliseconds.
    pub initial_delay: u64,
    /// The tick count, in microseconds, at the last run.
    pub last_run_ticks: u64,
}

impl<'a, F: Fn()> Schedule<'a, F> {
    /// The callback can be called whenever the schedule is due.
    pub open spec fn wf(&self) -> bool {
        self.callback.requires(())
    }

    /// A schedule that has not run yet.
    pub fn new(
        callback: F,
        enabled: bool,
        name: &'a str,
        duration: u64,
        initial_delay: u64,
    ) -> (s: Schedule<'a, F>)
        ensures
            s.callback == callback,
            s.enabled == enabled,
            s.name@ == name@,
            s.duration == duration,
            s.initial_delay == initial_delay,
            s.last_run_ticks == 0,
    {
        Schedule {
            callback,
            enabled,
            name,
            duration,
            initial_delay,
            last_run_ticks: 0,
        }
    }

    /// Run the callback if the schedule is enabled, and note `ticks` as the
    /// time of the run. A disabled schedule stays as it is.
    pub fn invoke(&mut self, ticks: u64)
        requires
            old(self).wf(),
        ensures
            final(self).callback == old(self).callback,
            final(self).enabled == old(self).enabled,
            final(self).name == old(self).name,
            final(self).duration == old(self).duration,
            final(self).initial_delay == old(self).initial_delay,
            final(self).last_run_ticks == (if old(self).enabled {
                ticks
            } else {
                old(self).last_run_ticks
            }),
    {
        if self.enabled {
            (self.callback)();
            self.last_run_ticks = ticks;
        }
    }

    /// Put the schedule in use.
    pub fn enable(&mut self)
        ensures
            final(self).enabled,
            final(self).callback == old(self).callback,
            final(self).name == old(self).name,
            final(self).duration == old(self).duration,
            final(self).initial_delay == old(self).initial_delay,
            final(self).last_run_ticks == old(self).last_run_ticks,
    {
        self.enabled = true;
    }

    /// Take the schedule out of use.
    pub fn disable(&mut self)
        ensures
            !final(self).enabled,
            final(self).callback == old(self).callback,
            final(self).name == old(self).name,
            final(self).duration == old(self).duration,
            final(self).initial_delay == old(self).initial_delay,
            final(self).last_run_ticks == old(self).last_run_ticks,
    {
        self.enabled = false;
    }
}

/// Whether a schedule is run at `ticks`: it is enabled, and more than its
/// duration, in whole milliseconds, has passed since its last run.
pub open spec fn runs_at<F: Fn()>(s: Schedule<'_, F>, ticks: u64) -> bool {
    s.enabled && (ticks - s.last_run_ticks) / 1000 > s.duration
}

/// Up to ten schedules, run in the order in which they were added.
pub struct Scheduler<'a, F: Fn()> {
    /// The schedules.
    pub schedules: Vec<Schedule<'a, F>>,
}

impl<'a, F: Fn()> Scheduler<'a, F> {
    /// At most ten schedules, each with a callback that can be called.
    pub open spec fn wf(&self) -> bool {
        &&& self.schedules@.len() <= MAX_SCHEDULES
        &&& forall|i: int| 0 <= i < self.schedules@.len() ==> (#[trigger] self.schedules@[i]).wf()
    }

    /// A scheduler without schedules.
    pub fn new() -> (scheduler: Scheduler<'a, F>)
        ensures
            scheduler.schedules@.len() == 0,
            scheduler.wf(),
    {
        Scheduler { schedules: Vec::new() }
    }

    /// Add a schedule behind the others. With ten schedules held the
    /// schedule is refused and nothing changes.
    pub fn add_schedule(&mut self, schedule: Schedule<'a, F>) -> (added: Result<(), &'static str>)
        requires
            old(self).wf(),
            schedule.wf(),
        ensures
            final(self).wf(),
            added is Ok <==> old(self).schedules@.len() < MAX_SCHEDULES,
            added is Ok ==> final(self).schedules@ == old(self).schedules@.push(schedule),
            added matches Err(reason) ==> final(self).schedules@ == old(self).schedules@
                && reason@ == "Callback list is full"@,
    {
        if self.schedules.len() < MAX_SCHEDULES {
            self.schedules.push(schedule);
            Ok(())
        } else {
            Err("Callback list is full")
        }
    }

    /// Run every schedule that is due at `ticks`, a tick count in
    /// microseconds that is not before any last run.
    pub fn invoke_schedules(&mut self, ticks: u64)
        requires
            old(self).wf(),
            forall|i: int|
                0 <= i < old(self).schedules@.len() ==> (#[trigger] old(
                    self,
                ).schedules@[i]).last_run_ticks <= ticks,
        ensures
            final(self).wf(),
            final(self).schedules@.len() == old(self).schedules@.len(),
            forall|i: int|
                0 <= i < old(self).schedules@.len() ==> {
                    let before = #[trigger] old(self).schedules@[i];
                    let after = final(self).schedules@[i];
                    &&& after.callback == before.callback
                    &&& after.enabled == before.enabled
                    &&& after.name == before.name
                    &&& after.duration == before.duration
                    &&& after.initial_delay == before.initial_delay
                    &&& after.last_run_ticks == (if runs_at(before, ticks) {
                        ticks
                    } else {
                        before.last_run_ticks
                    })
                },
    {
        let n = self.schedules.len();
        let mut i: usize = 0;
        while i < n
            invariant
                i <= n,
                n == self.schedules@.len(),
                n == old(self).schedules@.len(),
                self.wf(),
                forall|k: int|
                    i <= k < n ==> (#[trigger] self.schedules@[k]) == old(self).schedules@[k],
                forall|k: int|
                    0 <= k < n ==> (#[trigger] old(self).schedules@[k]).last_run_ticks <= ticks,
                forall|k: int|
                    0 <= k < i ==> {
                        let before = #[trigger] old(self).schedules@[k];
                        let after = self.schedules@[k];
                        &&& after.callback == before.callback
                        &&& after.enabled == before.enabled
                        &&& after.name == before.name
                        &&& after.duration == before.duration
                        &&& after.initial_delay == before.initial_delay
                        &&& after.last_run_ticks == (if runs_at(before, ticks) {
                            ticks
                        } else {
                            before.last_run_ticks
                        })
                    },
            decreases n - i,
        {
            let ghost before = self.schedules@;
            assert(before[i as int] == old(self).schedules@[i as int]);
            let last_run = self.schedules[i].last_run_ticks;
            let diff = (ticks - last_run) / 1000;
            if diff > self.schedules[i].duration {
                let schedule = &mut self.schedules[i];
                schedule.invoke(ticks);
            }
            i += 1;
        }
    }
}

} // verus!

//! The live job set: which recurring jobs the scheduling context holds, and what is to
//! be done for each reminder that is added to it.

use vstd::prelude::*;
use crate::cron_syntax::{check_cron_expression, cron_accepted, cron_refusal};
use crate::database::StoreError;
use crate::models::{reminder_views, Reminder, ReminderView, Schedule, ScheduleView};
use crate::timestamp::{delay_until, Delay, Timestamp};

verus! {

/// Why a reminder was not scheduled, or the job set not rebuilt.
#[derive(Debug, PartialEq, Eq)]
pub enum ScheduleError {
    /// The cron expression of a recurring reminder is refused, with the words of the
    /// refusal.
    InvalidCronExpression(String),
    /// The scheduling context could not be created, started or stopped.
    ScheduleUnavailable(String),
    /// The store could not hand out its reminders.
    Store(StoreError),
}

/// A recurring job of the live context.
#[derive(Debug, PartialEq, Eq)]
pub struct CronJob {
    pub chat_id: i64,
    pub message: String,
    pub cron_pattern: String,
}

/// A recurring job as a contract sees it.
pub struct CronJobView {
    pub chat_id: i64,
    pub message: Seq<char>,
    pub cron_pattern: Seq<char>,
}

impl View for CronJob {
    type V = CronJobView;

    open spec fn view(&self) -> CronJobView {
        CronJobView {
            chat_id: self.chat_id,
            message: self.message@,
            cron_pattern: self.cron_pattern@,
        }
    }
}

/// What the runtime is to do for a reminder that was accepted.
#[derive(Debug, PartialEq, Eq)]
pub enum JobAction {
    /// Keep a job in the live context that sends `message` to `chat_id` at every instant
    /// of `cron_pattern`.
    Register { chat_id: i64, message: String, cron_pattern: String },
    /// Send `message` to `chat_id` once, after `delay`.
    SendAfter { chat_id: i64, message: String, delay: Delay },
    /// Nothing: the instant of the reminder has passed.
    Nothing,
}

/// An action as a contract sees it.
pub enum JobActionView {
    Register { chat_id: i64, message: Seq<char>, cron_pattern: Seq<char> },
    SendAfter { chat_id: i64, message: Seq<char>, delay: Delay },
    Nothing,
}

impl View for JobAction {
    type V = JobActionView;

    open spec fn view(&self) -> JobActionView {
        match *self {
            JobAction::Register { chat_id, message, cron_pattern } => JobActionView::Register {
                chat_id,
                message: message@,
                cron_pattern: cron_pattern@,
            },
            JobAction::SendAfter { chat_id, message, delay } => JobActionView::SendAfter {
                chat_id,
                message: message@,
                delay,
            },
            JobAction::Nothing => JobActionView::Nothing,
        }
    }
}

/// Whether the job set takes a reminder: a recurring one must carry a cron expression
/// that is accepted, one that fires once is always taken.
pub open spec fn accepted(reminder: ReminderView) -> bool {
    reminder.schedule matches ScheduleView::Recurring(pattern) ==> cron_accepted(pattern)
}

/// The words with which a reminder is refused.
pub open spec fn refusal(reminder: ReminderView) -> Option<Seq<char>> {
    match reminder.schedule {
        ScheduleView::Recurring(pattern) => cron_refusal(pattern),
        ScheduleView::OneShot(_) => None,
    }
}

/// The job that a recurring reminder becomes.
pub open spec fn job_of(chat_id: i64, message: Seq<char>, cron_pattern: Seq<char>) -> CronJobView {
    CronJobView { chat_id, message, cron_pattern }
}

/// What is to be done at `now` for a reminder that fires once at `fire_at`: a single
/// send after the time that is left, or nothing where none is left.
pub open spec fn one_shot_action(
    chat_id: i64,
    message: Seq<char>,
    fire_at: Timestamp,
    now: Timestamp,
) -> JobActionView {
    match delay_until(fire_at, now) {
        Some(delay) => JobActionView::SendAfter { chat_id, message, delay },
        None => JobActionView::Nothing,
    }
}

/// What is to be done at `now` for an accepted reminder.
pub open spec fn action_for(reminder: ReminderView, now: Timestamp) -> JobActionView {
    match reminder.schedule {
        ScheduleView::Recurring(pattern) => JobActionView::Register {
            chat_id: reminder.chat_id,
            message: reminder.message,
            cron_pattern: pattern,
        },
        ScheduleView::OneShot(fire_at) => one_shot_action(
            reminder.chat_id,
            reminder.message,
            fire_at,
            now,
        ),
    }
}

/// Whether an action is the one for a reminder at some reading of the clock.
pub open spec fn answers(action: JobActionView, reminder: ReminderView) -> bool {
    exists|now: Timestamp| now.is_clock_reading() && action == #[trigger] action_for(reminder, now)
}

/// The job set after a reminder was offered to it: an accepted recurring reminder adds
/// its job at the end, every other reminder leaves the set as it was.
pub open spec fn jobs_after_add(jobs: Seq<CronJobView>, reminder: ReminderView) -> Seq<
    CronJobView,
> {
    match reminder.schedule {
        ScheduleView::Recurring(pattern) => if cron_accepted(pattern) {
            jobs.push(job_of(reminder.chat_id, reminder.message, pattern))
        } else {
            jobs
        },
        ScheduleView::OneShot(_) => jobs,
    }
}

/// The jobs of the recurring reminders of a list, in the order of the list.
pub open spec fn recurring_jobs(reminders: Seq<ReminderView>) -> Seq<CronJobView>
    decreases reminders.len(),
{
    if reminders.len() == 0 {
        Seq::empty()
    } else {
        let rest = recurring_jobs(reminders.drop_last());
        match reminders.last().schedule {
            ScheduleView::Recurring(pattern) => rest.push(
                job_of(reminders.last().chat_id, reminders.last().message, pattern),
            ),
            ScheduleView::OneShot(_) => rest,
        }
    }
}

/// Whether `k` is the place of the first reminder of a list that the job set refuses.
pub open spec fn first_refused(reminders: Seq<ReminderView>, k: int) -> bool {
    &&& 0 <= k < reminders.len()
    &&& !accepted(reminders[k])
    &&& forall|j: int| 0 <= j < k ==> accepted(#[trigger] reminders[j])
}

/// Whether the job set takes every reminder of a list.
pub open spec fn all_accepted(reminders: Seq<ReminderView>) -> bool {
    forall|j: int| 0 <= j < reminders.len() ==> accepted(#[trigger] reminders[j])
}

/// Whether a rebuild from a list of reminders went through: the jobs are those of the
/// recurring reminders, in order, and there is one action for each reminder.
pub open spec fn rebuilt(
    reminders: Seq<ReminderView>,
    actions: Seq<JobActionView>,
    jobs: Seq<CronJobView>,
) -> bool {
    &&& jobs == recurring_jobs(reminders)
    &&& actions.len() == reminders.len()
    &&& forall|i: int| 0 <= i < actions.len() ==> answers(#[trigger] actions[i], reminders[i])
}

/// Whether a rebuild from a list of reminders ended at the first reminder that was
/// refused, with its words: the jobs are those of the recurring reminders before it,
/// and there is one action for each reminder before it.
pub open spec fn rebuild_stopped(
    reminders: Seq<ReminderView>,
    actions: Seq<JobActionView>,
    detail: Seq<char>,
    jobs: Seq<CronJobView>,
) -> bool {
    exists|k: int|
        {
            &&& #[trigger] first_refused(reminders, k)
            &&& jobs == recurring_jobs(reminders.take(k))
            &&& actions.len() == k
            &&& forall|i: int| 0 <= i < k ==> answers(#[trigger] actions[i], reminders[i])
            &&& Some(detail) == refusal(reminders[k])
        }
}

/// The views of a list of jobs, in order.
pub open spec fn job_views(jobs: Seq<CronJob>) -> Seq<CronJobView> {
    jobs.map_values(|job: CronJob| job@)
}

/// The views of a list of actions, in order.
pub open spec fn action_views(actions: Seq<JobAction>) -> Seq<JobActionView> {
    actions.map_values(|action: JobAction| action@)
}

/// What is to be done at `now` for a reminder that fires once at `fire_at`.
pub fn plan_one_shot(chat_id: i64, message: String, fire_at: &Timestamp, now: &Timestamp) -> (r:
    JobAction)
    ensures
        r@ == one_shot_action(chat_id, message@, *fire_at, *now),
{
    match fire_at.delay_from(now) {
        Some(delay) => JobAction::SendAfter { chat_id, message, delay },
        None => JobAction::Nothing,
    }
}

/// What a rebuild of the job set led to: what is to be done for the reminders that were
/// added, in their order, and whether every reminder of the store was added.
#[derive(Debug, PartialEq, Eq)]
pub struct Rebuild {
    pub actions: Vec<JobAction>,
    pub outcome: Result<(), ScheduleError>,
}

/// The recurring jobs of the live scheduling context.
pub struct Scheduler {
    jobs: Vec<CronJob>,
}

impl View for Scheduler {
    type V = Seq<CronJobView>;

    closed spec fn view(&self) -> Seq<CronJobView> {
        job_views(self.jobs@)
    }
}

impl Scheduler {
    /// A scheduler whose context holds no job.
    pub fn new() -> (r: Scheduler)
        ensures
            r@ == Seq::<CronJobView>::empty(),
    {
        let r = Scheduler { jobs: Vec::new() };
        assert(r@ =~= Seq::<CronJobView>::empty());
        r
    }

    /// The number of recurring jobs.
    pub fn job_count(&self) -> (r: usize)
        ensures
            r == self@.len(),
    {
        self.jobs.len()
    }

    /// The recurring job at a place of the set.
    pub fn job(&self, index: usize) -> (r: Option<&CronJob>)
        ensures
            r is Some <==> index < self@.len(),
            r matches Some(job) ==> job@ == self@[index as int],
    {
        if index < self.jobs.len() {
            Some(&self.jobs[index])
        } else {
            None
        }
    }

    /// Takes a recurring reminder whose cron expression was checked, with the outcome of
    /// the check: after a check that passed, the job joins the end of the set and is to
    /// be registered; after one that failed, the reminder is refused with the words of
    /// the check and the set stays as it was.
    pub fn register_checked(
        &mut self,
        checked: Result<(), String>,
        chat_id: i64,
        message: String,
        cron_pattern: String,
    ) -> (r: Result<JobAction, ScheduleError>)
        ensures
            r is Ok <==> checked is Ok,
            r matches Ok(action) ==> action@ == (JobActionView::Register {
                chat_id,
                message: message@,
                cron_pattern: cron_pattern@,
            }) && final(self)@ == old(self)@.push(job_of(chat_id, message@, cron_pattern@)),
            r matches Err(e) ==> final(self)@ == old(self)@ && e
                == ScheduleError::InvalidCronExpression(checked->Err_0),
    {
        match checked {
            Err(detail) => Err(ScheduleError::InvalidCronExpression(detail)),
            Ok(_) => {
                let job = CronJob {
                    chat_id,
                    message: message.clone(),
                    cron_pattern: cron_pattern.clone(),
                };
                self.jobs.push(job);
                assert(self@ =~= old(self)@.push(job_of(chat_id, message@, cron_pattern@)));
                Ok(JobAction::Register { chat_id, message, cron_pattern })
            },
        }
    }

    /// Checks the cron expression of a recurring reminder and takes or refuses the
    /// reminder by the outcome.
    fn register(&mut self, chat_id: i64, message: String, cron_pattern: String) -> (r: Result<
        JobAction,
        ScheduleError,
    >)
        ensures
            r is Ok <==> cron_accepted(cron_pattern@),
            r matches Ok(action) ==> action@ == (JobActionView::Register {
                chat_id,
                message: message@,
                cron_pattern: cron_pattern@,
            }) && final(self)@ == old(self)@.push(job_of(chat_id, message@, cron_pattern@)),
            r matches Err(e) ==> final(self)@ == old(self)@ && (e matches ScheduleError::InvalidCronExpression(
                detail,
            ) && Some(detail@) == cron_refusal(cron_pattern@)),
    {
        let checked = check_cron_expression(cron_pattern.as_str());
        self.register_checked(checked, chat_id, message, cron_pattern)
    }

    /// Adds a reminder as of the instant `now`.
    ///
    /// A recurring reminder is taken where its cron expression is accepted: its job joins
    /// the set and is to be registered. Where the expression is refused, so is the
    /// reminder, and the set stays as it was. A reminder that fires once never joins the
    /// set: it is to be sent after the time left until its instant, or dropped where that
    /// instant is not later than `now`.
    pub fn add_reminder_at(&mut self, reminder: Reminder, now: &Timestamp) -> (r: Result<
        JobAction,
        ScheduleError,
    >)
        ensures
            r is Ok <==> accepted(reminder@),
            r matches Ok(action) ==> action@ == action_for(reminder@, *now),
            r matches Err(e) ==> (e matches ScheduleError::InvalidCronExpression(detail) && Some(
                detail@,
            ) == refusal(reminder@)),
            final(self)@ == jobs_after_add(old(self)@, reminder@),
    {
        let Reminder { chat_id, message, schedule } = reminder;
        match schedule {
            Schedule::Recurring(cron_pattern) => self.register(chat_id, message, cron_pattern),
            Schedule::OneShot(fire_at) => Ok(plan_one_shot(chat_id, message, &fire_at, now)),
        }
    }

    /// Adds a reminder as of the present instant, read from the system clock where the
    /// reminder fires once.
    ///
    /// What holds of a recurring reminder does not depend on the clock. For a reminder
    /// that fires once the action is the one for some reading of the clock.
    pub fn add_reminder(&mut self, reminder: Reminder) -> (r: Result<JobAction, ScheduleError>)
        ensures
            r is Ok <==> accepted(reminder@),
            r matches Ok(action) ==> answers(action@, reminder@),
            r matches Err(e) ==> (e matches ScheduleError::InvalidCronExpression(detail) && Some(
                detail@,
            ) == refusal(reminder@)),
            final(self)@ == jobs_after_add(old(self)@, reminder@),
    {
        let now = Timestamp::now();
        let ghost view = reminder@;
        let r = self.add_reminder_at(reminder, &now);
        proof {
            if r is Ok {
                assert(r->Ok_0@ == action_for(view, now));
            }
        }
        r
    }

    /// Takes note that the scheduling context failed while jobs were being registered
    /// with it, and holds only the first `registered` jobs of the set: the others leave
    /// the set again. The error to pass on holds the words of the failure.
    pub fn registration_failed(&mut self, registered: usize, detail: String) -> (e: ScheduleError)
        ensures
            e == ScheduleError::ScheduleUnavailable(detail),
            registered <= old(self)@.len() ==> final(self)@ == old(self)@.take(registered as int),
            registered > old(self)@.len() ==> final(self)@ == old(self)@,
    {
        self.jobs.truncate(registered);
        assert(registered <= old(self)@.len() ==> self@ =~= old(self)@.take(registered as int));
        ScheduleError::ScheduleUnavailable(detail)
    }

    /// Replaces the whole job set by the reminders that the store handed out.
    ///
    /// Whatever happens, the jobs that were there before are gone. Where the store
    /// failed, the new set is empty, nothing is to be done and the error is passed on.
    /// Else the reminders are added in order, each as `add_reminder` adds it; the first
    /// one that is refused ends the rebuild with its error, and the set holds the jobs
    /// of the recurring reminders before it. Where none is refused, the set holds the
    /// job of every recurring reminder of the store, in the store's order. Either way
    /// the actions answer, one by one, the reminders that were added.
    pub fn reload(&mut self, loaded: Result<Vec<Reminder>, StoreError>) -> (r: Rebuild)
        ensures
            r.outcome is Ok <==> (loaded matches Ok(reminders) && all_accepted(
                reminder_views(reminders@),
            )),
            loaded matches Err(failure) ==> r.outcome == Err::<(), ScheduleError>(
                ScheduleError::Store(failure),
            ) && r.actions@.len() == 0 && final(self)@ == Seq::<CronJobView>::empty(),
            loaded matches Ok(reminders) ==> match r.outcome {
                Ok(_) => rebuilt(
                    reminder_views(reminders@),
                    action_views(r.actions@),
                    final(self)@,
                ),
                Err(e) => e matches ScheduleError::InvalidCronExpression(detail) && rebuild_stopped(
                    reminder_views(reminders@),
                    action_views(r.actions@),
                    detail@,
                    final(self)@,
                ),
            },
    {
        self.jobs = Vec::new();
        assert(self@ =~= Seq::<CronJobView>::empty());
        let mut actions: Vec<JobAction> = Vec::new();
        let reminders = match loaded {
            Err(failure) => {
                return Rebuild { actions, outcome: Err(ScheduleError::Store(failure)) };
            },
            Ok(reminders) => reminders,
        };
        let ghost views = reminder_views(reminders@);
        let mut i: usize = 0;
        assert(views.take(0) =~= Seq::<ReminderView>::empty());
        while i < reminders.len()
            invariant
                0 <= i <= reminders.len(),
                loaded == Ok::<Vec<Reminder>, StoreError>(reminders),
                views == reminder_views(reminders@),
                self@ == recurring_jobs(views.take(i as int)),
                actions@.len() == i,
                forall|j: int| 0 <= j < i ==> accepted(#[trigger] views[j]),
                forall|j: int| 0 <= j < i ==> answers((#[trigger] actions@[j])@, views[j]),
            decreases reminders.len() - i,
        {
            let reminder = reminders[i].clone();
            assert(reminder@ == views[i as int]);
            match self.add_reminder(reminder) {
                Ok(action) => {
                    actions.push(action);
                    proof {
                        lemma_recurring_jobs_step(views, i as int);
                    }
                },
                Err(e) => {
                    assert(first_refused(views, i as int));
                    assert(action_views(actions@).len() == i);
                    assert forall|j: int| 0 <= j < i implies answers(
                        #[trigger] action_views(actions@)[j],
                        views[j],
                    ) by {
                        assert(action_views(actions@)[j] == actions@[j]@);
                    }
                    return Rebuild { actions, outcome: Err(e) };
                },
            }
            i = i + 1;
        }
        assert(views.take(i as int) =~= views);
        Rebuild { actions, outcome: Ok(()) }
    }
}

/// The jobs of the first `i + 1` reminders are those of the first `i`, followed by the
/// job of the next where it recurs.
pub proof fn lemma_recurring_jobs_step(reminders: Seq<ReminderView>, i: int)
    requires
        0 <= i < reminders.len(),
    ensures
        recurring_jobs(reminders.take(i + 1)) == match reminders[i].schedule {
            ScheduleView::Recurring(pattern) => recurring_jobs(reminders.take(i)).push(
                job_of(reminders[i].chat_id, reminders[i].message, pattern),
            ),
            ScheduleView::OneShot(_) => recurring_jobs(reminders.take(i)),
        },
{
    assert(reminders.take(i + 1).drop_last() =~= reminders.take(i));
    assert(reminders.take(i + 1).last() == reminders[i]);
}

/// How often a job occurs in a job set.
pub open spec fn job_count_of(jobs: Seq<CronJobView>, job: CronJobView) -> nat
    decreases jobs.len(),
{
    if jobs.len() == 0 {
        0
    } else {
        job_count_of(jobs.drop_last(), job) + if jobs.last() == job {
            1nat
        } else {
            0nat
        }
    }
}

/// Whether a reminder recurs as the given job.
pub open spec fn recurs_as(reminder: ReminderView, job: CronJobView) -> bool {
    reminder.schedule matches ScheduleView::Recurring(pattern) && job_of(
        reminder.chat_id,
        reminder.message,
        pattern,
    ) == job
}

/// How many reminders of a list recur as the given job.
pub open spec fn stored_count_of(reminders: Seq<ReminderView>, job: CronJobView) -> nat
    decreases reminders.len(),
{
    if reminders.len() == 0 {
        0
    } else {
        stored_count_of(reminders.drop_last(), job) + if recurs_as(reminders.last(), job) {
            1nat
        } else {
            0nat
        }
    }
}

/// Whether some job of a set runs on the given cron expression.
pub open spec fn pattern_scheduled(jobs: Seq<CronJobView>, pattern: Seq<char>) -> bool {
    exists|i: int| 0 <= i < jobs.len() && (#[trigger] jobs[i]).cron_pattern == pattern
}

/// Whether some recurring reminder of a list carries the given cron expression.
pub open spec fn pattern_stored(reminders: Seq<ReminderView>, pattern: Seq<char>) -> bool {
    exists|i: int|
        0 <= i < reminders.len() && (#[trigger] reminders[i]).schedule
            == ScheduleView::Recurring(pattern)
}

/// A rebuilt job set holds each job exactly as often as the store holds a recurring
/// reminder for it: none is dropped and none is doubled, whatever the set held before.
pub proof fn lemma_rebuild_keeps_counts(reminders: Seq<ReminderView>, job: CronJobView)
    ensures
        job_count_of(recurring_jobs(reminders), job) == stored_count_of(reminders, job),
    decreases reminders.len(),
{
    if reminders.len() > 0 {
        lemma_rebuild_keeps_counts(reminders.drop_last(), job);
        let rest = recurring_jobs(reminders.drop_last());
        match reminders.last().schedule {
            ScheduleView::Recurring(pattern) => {
                let added = job_of(reminders.last().chat_id, reminders.last().message, pattern);
                assert(rest.push(added).drop_last() =~= rest);
                assert(rest.push(added).last() == added);
            },
            ScheduleView::OneShot(_) => {},
        }
    }
}

/// The cron expressions of a rebuilt job set are exactly those of the recurring
/// reminders of the store: no more, no fewer.
pub proof fn lemma_rebuild_patterns(reminders: Seq<ReminderView>, pattern: Seq<char>)
    ensures
        pattern_scheduled(recurring_jobs(reminders), pattern) <==> pattern_stored(
            reminders,
            pattern,
        ),
    decreases reminders.len(),
{
    if reminders.len() > 0 {
        let front = reminders.drop_last();
        let last = reminders.last();
        lemma_rebuild_patterns(front, pattern);
        let rest = recurring_jobs(front);
        let jobs = recurring_jobs(reminders);
        if pattern_scheduled(jobs, pattern) {
            let i = choose|i: int| 0 <= i < jobs.len() && (#[trigger] jobs[i]).cron_pattern == pattern;
            if i < rest.len() {
                assert(rest[i].cron_pattern == pattern);
                let j = choose|j: int|
                    0 <= j < front.len() && (#[trigger] front[j]).schedule
                        == ScheduleView::Recurring(pattern);
                assert(reminders[j] == front[j]);
            } else {
                assert(last.schedule == ScheduleView::Recurring(pattern));
                assert(reminders[reminders.len() - 1] == last);
            }
        }
        if pattern_stored(reminders, pattern) {
            let j = choose|j: int|
                0 <= j < reminders.len() && (#[trigger] reminders[j]).schedule
                    == ScheduleView::Recurring(pattern);
            if j < front.len() {
                assert(front[j] == reminders[j]);
                let i = choose|i: int|
                    0 <= i < rest.len() && (#[trigger] rest[i]).cron_pattern == pattern;
                assert(jobs[i] == rest[i]);
            } else {
                assert(jobs[jobs.len() - 1].cron_pattern == pattern);
            }
        }
    }
}

/// A recurring reminder is taken exactly where its cron expression is accepted. Taken,
/// it adds one job at the end of the set; refused, it leaves the set as it was.
pub proof fn lemma_recurring_is_taken_or_leaves_no_trace(
    jobs: Seq<CronJobView>,
    reminder: ReminderView,
)
    requires
        reminder.is_recurring(),
    ensures
        accepted(reminder) <==> cron_accepted(reminder.schedule->Recurring_0),
        accepted(reminder) ==> jobs_after_add(jobs, reminder) == jobs.push(
            job_of(reminder.chat_id, reminder.message, reminder.schedule->Recurring_0),
        ),
        !accepted(reminder) ==> jobs_after_add(jobs, reminder) == jobs && refusal(reminder)
            is Some,
{
}

/// A reminder that fires once at an instant that is not later than the present one is
/// taken, joins no job set and is never sent.
pub proof fn lemma_past_due_is_dropped(jobs: Seq<CronJobView>, reminder: ReminderView, now: Timestamp)
    requires
        reminder.schedule matches ScheduleView::OneShot(fire_at) && !fire_at.spec_later_than(now),
    ensures
        accepted(reminder),
        action_for(reminder, now) == JobActionView::Nothing,
        jobs_after_add(jobs, reminder) == jobs,
{
}

/// Adding a reminder never removes a job: the set that was there stays, in its order,
/// at the head of the new one. So a job that was added and could not be registered
/// leaves no trace once the set is cut back to its former length.
pub proof fn lemma_add_keeps_every_job(jobs: Seq<CronJobView>, reminder: ReminderView)
    ensures
        jobs.len() <= jobs_after_add(jobs, reminder).len() <= jobs.len() + 1,
        jobs_after_add(jobs, reminder).take(jobs.len() as int) == jobs,
{
    assert(jobs_after_add(jobs, reminder).take(jobs.len() as int) =~= jobs);
}

/// A reminder that fires once joins no job set, early or late.
pub proof fn lemma_one_shot_leaves_jobs(jobs: Seq<CronJobView>, reminder: ReminderView)
    requires
        !reminder.is_recurring(),
    ensures
        accepted(reminder),
        jobs_after_add(jobs, reminder) == jobs,
{
}

} // verus!

//! The outbound queue: rows of pending tasks, the order in which they are
//! claimed, and what becomes of a task after each attempt.

use crate::delivery::Task;
use crate::response::Error;
use vstd::arithmetic::power2::{lemma2_to64, lemma_pow2_strictly_increases, pow2};
use vstd::prelude::*;

verus! {

/// The longest delay between two attempts, in seconds.
pub const MAX_BACKOFF_SECS: u64 = 3600;

/// The largest share of a delay, in thousandths, by which it is lengthened
/// or shortened at random.
pub const MAX_JITTER_PERMILLE: i32 = 100;

/// How many deliveries to one destination may run at a time.
pub const PER_DESTINATION_LIMIT: usize = 2;

/// How many tasks the worker runs at a time.
pub const WORKERS: usize = 4;

/// How long the worker waits for a wake-up before it looks for work on its
/// own, in seconds.
pub const POLL_SECS: u64 = 30;

/// How long a delivery may take, in seconds. A delivery that takes longer
/// counts as an attempt without response.
pub const DELIVERY_DEADLINE_SECS: u64 = 60;

/// A task in the queue.
#[derive(Debug, Clone)]
pub struct TaskRow {
    pub id: i64,
    pub task: Task,
    pub attempts: i32,
    pub max_attempts: i32,
    pub created_at: i64,
    pub not_before: i64,
    pub latest_err: Option<String>,
    /// Whether a worker holds the row.
    pub claimed: bool,
}

impl TaskRow {
    /// A row never holds more attempts than it allows.
    pub open spec fn wf(self) -> bool {
        0 <= self.attempts <= self.max_attempts
    }
}

/// The delay before attempt number `attempts + 1`, in seconds: a minute
/// doubled with every attempt made, and at most an hour.
pub open spec fn backoff(attempts: nat) -> nat {
    if 60 * pow2(attempts) < 3600 {
        60 * pow2(attempts)
    } else {
        3600
    }
}

/// The delay before the next attempt after `attempts` attempts, in seconds.
pub fn backoff_secs(attempts: u32) -> (r: u64)
    ensures
        r == backoff(attempts as nat),
        60 <= r <= MAX_BACKOFF_SECS,
{
    proof {
        lemma2_to64();
        if attempts >= 6 {
            if attempts > 6 {
                lemma_pow2_strictly_increases(6, attempts as nat);
            }
        }
    }
    if attempts >= 6 {
        MAX_BACKOFF_SECS
    } else if attempts == 0 {
        60
    } else if attempts == 1 {
        120
    } else if attempts == 2 {
        240
    } else if attempts == 3 {
        480
    } else if attempts == 4 {
        960
    } else {
        1920
    }
}

/// A jitter within the bounds: what is below or above them counts as the
/// nearest bound.
pub open spec fn clamped_jitter(jitter: int) -> int {
    if jitter < -100 {
        -100
    } else if jitter > 100 {
        100
    } else {
        jitter
    }
}

/// A delay lengthened or shortened by `jitter` thousandths of itself, the
/// change rounded towards the delay.
pub open spec fn jittered(delay: nat, jitter: int) -> nat {
    let j = clamped_jitter(jitter);
    if j >= 0 {
        delay + delay * (j as nat) / 1000
    } else {
        (delay - delay * ((-j) as nat) / 1000) as nat
    }
}

/// The jitter, in thousandths, that a random number stands for: one of the
/// 201 values from a tenth less to a tenth more, each as likely as any other
/// up to what 128 bits leave over.
pub fn jitter_permille(random: u128) -> (r: i32)
    ensures
        r == (random % 201) - 100,
        -MAX_JITTER_PERMILLE <= r <= MAX_JITTER_PERMILLE,
{
    let step: u128 = random % 201;
    (step as i32) - 100
}

/// Applies a random jitter, given in thousandths, to a delay in seconds.
/// The result lies within a tenth of the delay; a result beyond the largest
/// number of seconds there is counts as that number.
pub fn with_jitter(delay: u64, jitter: i32) -> (r: u64)
    ensures
        r == if jittered(delay as nat, jitter as int) <= u64::MAX {
            jittered(delay as nat, jitter as int)
        } else {
            u64::MAX as nat
        },
        delay * 9 <= r * 10,
        jittered(delay as nat, jitter as int) <= u64::MAX ==> r * 10 <= delay * 11,
{
    let j: i32 = if jitter < -MAX_JITTER_PERMILLE {
        -MAX_JITTER_PERMILLE
    } else if jitter > MAX_JITTER_PERMILLE {
        MAX_JITTER_PERMILLE
    } else {
        jitter
    };
    let wide: u128 = delay as u128;
    if j >= 0 {
        let k: u128 = j as u128;
        assert(wide * k <= 0xffff_ffff_ffff_ffff * 100) by (nonlinear_arith)
            requires
                wide <= 0xffff_ffff_ffff_ffff,
                0 <= k <= 100,
        ;
        let change: u128 = wide * k / 1000;
        assert(change * 10 <= wide) by (nonlinear_arith)
            requires
                change == wide * k / 1000,
                0 <= k <= 100,
        ;
        let sum: u128 = wide + change;
        if sum > u64::MAX as u128 {
            u64::MAX
        } else {
            sum as u64
        }
    } else {
        let k: u128 = (-j) as u128;
        assert(wide * k <= 0xffff_ffff_ffff_ffff * 100) by (nonlinear_arith)
            requires
                wide <= 0xffff_ffff_ffff_ffff,
                0 <= k <= 100,
        ;
        let change: u128 = wide * k / 1000;
        assert(change * 10 <= wide) by (nonlinear_arith)
            requires
                change == wide * k / 1000,
                0 <= k <= 100,
        ;
        (wide - change) as u64
    }
}

/// The jittered delay between two attempts is at most an hour and a tenth.
pub proof fn lemma_jitter_of_backoff(attempts: nat, jitter: int)
    ensures
        54 <= jittered(backoff(attempts), jitter) <= 3960,
{
    let delay = backoff(attempts);
    lemma2_to64();
    if attempts > 6 {
        lemma_pow2_strictly_increases(6, attempts);
    }
    assert(60 <= delay <= 3600) by {
        if attempts < 6 {
            assert(pow2(attempts) >= 1) by {
                if attempts > 0 {
                    lemma_pow2_strictly_increases(0, attempts);
                }
            }
        }
    }
    let j = clamped_jitter(jitter);
    if j >= 0 {
        assert(0 <= delay * (j as nat) / 1000 <= 360) by (nonlinear_arith)
            requires
                60 <= delay <= 3600,
                0 <= j <= 100,
        ;
    } else {
        assert(0 <= delay * ((-j) as nat) / 1000 <= delay / 10) by (nonlinear_arith)
            requires
                60 <= delay <= 3600,
                0 < -j <= 100,
        ;
    }
}

/// How an attempt ended.
#[derive(Debug, Clone, Copy, PartialEq, Eq, Structural)]
pub enum AttemptOutcome {
    /// The remote accepted the delivery.
    Delivered,
    /// The attempt failed in a way that may pass.
    Transient,
    /// The attempt failed for good.
    Permanent,
}

/// How an attempt ended, told from the response: success for a status from
/// 200 to 299; a failure that may pass for no response at all, for a status
/// from 500 to 599, and for 408 and 429; a failure for good otherwise.
pub open spec fn outcome_of(status: Option<u16>) -> AttemptOutcome {
    match status {
        None => AttemptOutcome::Transient,
        Some(s) => if 200 <= s < 300 {
            AttemptOutcome::Delivered
        } else if 500 <= s < 600 || s == 408 || s == 429 {
            AttemptOutcome::Transient
        } else {
            AttemptOutcome::Permanent
        },
    }
}

/// What is known of a task before it is tried: one whose body is longer
/// than a delivery may be has failed for good, and no attempt is made. Of
/// any other task nothing is known yet.
pub fn before_attempt(task: &Task) -> (r: Option<AttemptOutcome>)
    ensures
        r == if vstd::utf8::encode_utf8(task.body()).len()
            <= crate::delivery::MAX_DELIVERY_BYTES {
            None::<AttemptOutcome>
        } else {
            Some(AttemptOutcome::Permanent)
        },
{
    if task.within_limit() {
        None
    } else {
        Some(AttemptOutcome::Permanent)
    }
}

/// Tells how an attempt ended from the status of the response, or from its
/// absence where the network failed or the deadline passed.
pub fn classify_attempt(status: Option<u16>) -> (r: AttemptOutcome)
    ensures
        r == outcome_of(status),
{
    match status {
        None => AttemptOutcome::Transient,
        Some(s) => {
            if 200 <= s && s < 300 {
                AttemptOutcome::Delivered
            } else if (500 <= s && s < 600) || s == 408 || s == 429 {
                AttemptOutcome::Transient
            } else {
                AttemptOutcome::Permanent
            }
        },
    }
}

/// What becomes of a task after an attempt.
#[derive(Debug, Clone, Copy, PartialEq, Eq, Structural)]
pub enum Disposition {
    /// The task is done and leaves the queue.
    Done,
    /// The task stays, with one more attempt on record, and is not tried
    /// again before `not_before`.
    Retry { attempts: i32, not_before: i64 },
    /// The task leaves the queue undone.
    GiveUp,
}

/// The moment `delay` seconds after `now`, or the last moment there is.
pub open spec fn later(now: i64, delay: nat) -> i64 {
    if now + delay <= i64::MAX {
        (now + delay) as i64
    } else {
        i64::MAX
    }
}

/// What becomes of a task with `attempts` attempts on record, of
/// `max_attempts` allowed, after one more attempt. Success ends it; so does
/// a failure for good, and a failure that uses up the last attempt. Any
/// other failure leaves it in the queue for later.
pub open spec fn disposition(
    attempts: i32,
    max_attempts: i32,
    outcome: AttemptOutcome,
    now: i64,
    jitter: i32,
) -> Disposition {
    match outcome {
        AttemptOutcome::Delivered => Disposition::Done,
        AttemptOutcome::Permanent => Disposition::GiveUp,
        AttemptOutcome::Transient => if attempts < 0 || attempts + 1 >= max_attempts {
            Disposition::GiveUp
        } else {
            Disposition::Retry {
                attempts: (attempts + 1) as i32,
                not_before: later(
                    now,
                    jittered(backoff((attempts + 1) as nat), jitter as int),
                ),
            }
        },
    }
}

/// Decides what becomes of a task after an attempt. `now` is the time of the
/// decision in seconds, `jitter` a random number of thousandths between
/// -100 and 100.
pub fn after_attempt(
    attempts: i32,
    max_attempts: i32,
    outcome: AttemptOutcome,
    now: i64,
    jitter: i32,
) -> (r: Disposition)
    ensures
        r == disposition(attempts, max_attempts, outcome, now, jitter),
        r matches Disposition::Retry { attempts: a, not_before } ==> a == attempts + 1 && a
            < max_attempts && not_before >= now,
{
    match outcome {
        AttemptOutcome::Delivered => Disposition::Done,
        AttemptOutcome::Permanent => Disposition::GiveUp,
        AttemptOutcome::Transient => {
            if attempts < 0 || attempts >= max_attempts || attempts + 1 >= max_attempts {
                Disposition::GiveUp
            } else {
                let made: i32 = attempts + 1;
                let delay = with_jitter(backoff_secs(made as u32), jitter);
                assert(delay == jittered(backoff(made as nat), jitter as int)) by {
                    lemma_jitter_of_backoff(made as nat, jitter as int);
                }
                let not_before = if now > i64::MAX - (delay as i64) {
                    i64::MAX
                } else {
                    now + delay as i64
                };
                Disposition::Retry { attempts: made, not_before }
            }
        },
    }
}

/// One attempt as the queue sees it: how it ended, when, and the jitter drawn
/// for the delay that may follow.
pub struct Attempt {
    pub outcome: AttemptOutcome,
    pub now: i64,
    pub jitter: i32,
}

/// The fate of a task over a run of attempts: `Retry` while it is still
/// queued, `Done` or `GiveUp` once it has left. Attempts after it has left
/// change nothing.
pub open spec fn fate(attempts: i32, max_attempts: i32, run: Seq<Attempt>) -> Disposition
    decreases run.len(),
{
    if run.len() == 0 {
        Disposition::Retry { attempts, not_before: 0 }
    } else {
        match fate(attempts, max_attempts, run.drop_last()) {
            Disposition::Retry { attempts: made, .. } => disposition(
                made,
                max_attempts,
                run.last().outcome,
                run.last().now,
                run.last().jitter,
            ),
            ended => ended,
        }
    }
}

/// A task that meets nothing but failures that may pass stays queued as long
/// as the failures, together with the attempts already on record, are fewer
/// than the attempts allowed.
pub proof fn lemma_survives_transient_failures(attempts: i32, max_attempts: i32, run: Seq<Attempt>)
    requires
        0 <= attempts,
        attempts + run.len() < max_attempts,
        forall|i: int| 0 <= i < run.len() ==> (#[trigger] run[i]).outcome is Transient,
    ensures
        fate(attempts, max_attempts, run) matches Disposition::Retry { attempts: made, .. }
            && made == attempts + run.len(),
    decreases run.len(),
{
    if run.len() > 0 {
        let front = run.drop_last();
        assert forall|i: int| 0 <= i < front.len() implies (#[trigger] front[i]).outcome
            is Transient by {
            assert(front[i] == run[i]);
        }
        lemma_survives_transient_failures(attempts, max_attempts, front);
        assert(run.last() == run[run.len() - 1]);
    }
}

/// At least once: a task that meets fewer failures that may pass than it is
/// allowed attempts, and then a success, ends delivered.
pub proof fn lemma_delivered_after_transient_failures(
    attempts: i32,
    max_attempts: i32,
    failures: Seq<Attempt>,
    success: Attempt,
)
    requires
        0 <= attempts,
        attempts + failures.len() < max_attempts,
        forall|i: int| 0 <= i < failures.len() ==> (#[trigger] failures[i]).outcome is Transient,
        success.outcome is Delivered,
    ensures
        fate(attempts, max_attempts, failures.push(success)) == Disposition::Done,
{
    lemma_survives_transient_failures(attempts, max_attempts, failures);
    assert(failures.push(success).drop_last() =~= failures);
}

/// Whether a row can be claimed at `now`: no worker holds it and its time has
/// come.
pub open spec fn due(row: TaskRow, now: i64) -> bool {
    !row.claimed && row.not_before <= now
}

/// Whether `a` comes before `b` in the order of claiming: by the time from
/// which each may run, then by the time each was made.
pub open spec fn claims_before(a: TaskRow, b: TaskRow) -> bool {
    a.not_before < b.not_before || (a.not_before == b.not_before && a.created_at < b.created_at)
}

/// Whether the row at `i` is the one to claim next at `now`: it is due, no
/// due row comes before it, and of the due rows that it comes level with it
/// is the first.
pub open spec fn is_next_due(rows: Seq<TaskRow>, i: int, now: i64) -> bool {
    &&& 0 <= i < rows.len()
    &&& due(rows[i], now)
    &&& forall|j: int| 0 <= j < rows.len() && due(rows[j], now) ==> !claims_before(rows[j], rows[i])
    &&& forall|j: int| 0 <= j < i && due(rows[j], now) ==> claims_before(rows[i], rows[j])
}

/// The row to claim next at `now`: the first of the due rows that none of
/// them comes before. `None` where no row is due.
pub fn next_due(rows: &Vec<TaskRow>, now: i64) -> (r: Option<usize>)
    ensures
        match r {
            Some(i) => is_next_due(rows@, i as int, now),
            None => forall|j: int| 0 <= j < rows.len() ==> !due(rows@[j], now),
        },
{
    let mut best: Option<usize> = None;
    let mut i: usize = 0;
    while i < rows.len()
        invariant
            i <= rows.len(),
            match best {
                Some(b) => b < i && due(rows@[b as int], now) && (forall|j: int|
                    0 <= j < i && due(rows@[j], now) ==> !claims_before(rows@[j], rows@[b as int]))
                    && (forall|j: int|
                    0 <= j < b && due(rows@[j], now) ==> claims_before(rows@[b as int], rows@[j])),
                None => forall|j: int| 0 <= j < i ==> !due(rows@[j], now),
            },
        decreases rows.len() - i,
    {
        let row = &rows[i];
        if !row.claimed && row.not_before <= now {
            match best {
                None => {
                    best = Some(i);
                },
                Some(b) => {
                    let held = &rows[b];
                    if row.not_before < held.not_before || (row.not_before == held.not_before
                        && row.created_at < held.created_at) {
                        best = Some(i);
                    }
                },
            }
        }
        i = i + 1;
    }
    best
}

/// Claims the row that is next at `now`: the row is held from now on and is
/// due for nobody else. `None`, and nothing changes, where no row is due.
pub fn claim_next(rows: &mut Vec<TaskRow>, now: i64) -> (r: Option<usize>)
    ensures
        match r {
            Some(i) => is_next_due(old(rows)@, i as int, now) && final(rows)@ == old(
                rows,
            )@.update(i as int, TaskRow { claimed: true, ..old(rows)@[i as int] }),
            None => (forall|j: int| 0 <= j < old(rows)@.len() ==> !due(old(rows)@[j], now))
                && final(rows)@ == old(rows)@,
        },
{
    match next_due(rows, now) {
        Some(i) => {
            let ghost before = rows@;
            let row = rows.remove(i);
            let held = TaskRow {
                id: row.id,
                task: row.task,
                attempts: row.attempts,
                max_attempts: row.max_attempts,
                created_at: row.created_at,
                not_before: row.not_before,
                latest_err: row.latest_err,
                claimed: true,
            };
            rows.insert(i, held);
            assert(rows@ =~= before.update(i as int, held));
            Some(i)
        },
        None => None,
    }
}

/// How many of the running deliveries go to `destination`.
pub open spec fn running_to(running: Seq<String>, destination: Seq<char>) -> nat
    decreases running.len(),
{
    if running.len() == 0 {
        0
    } else {
        running_to(running.drop_last(), destination) + if running.last()@ == destination {
            1nat
        } else {
            0nat
        }
    }
}

/// Whether one more delivery to `destination` may start: fewer than two are
/// running to it.
pub fn destination_free(running: &Vec<String>, destination: &str) -> (r: bool)
    ensures
        r == (running_to(running@, destination@) < PER_DESTINATION_LIMIT),
{
    let mut count: usize = 0;
    let mut i: usize = 0;
    assert(running@.take(0) =~= Seq::<String>::empty());
    while i < running.len()
        invariant
            i <= running.len(),
            count <= i,
            count == running_to(running@.take(i as int), destination@),
        decreases running.len() - i,
    {
        proof {
            assert(running@.take(i + 1).drop_last() =~= running@.take(i as int));
            assert(running@.take(i + 1).last() == running@[i as int]);
        }
        if crate::text::str_eq(running[i].as_str(), destination) {
            count = count + 1;
        }
        i = i + 1;
    }
    assert(running@.take(running.len() as int) =~= running@);
    count < PER_DESTINATION_LIMIT
}

/// How a send on the worker's wake-up channel ended. The channel holds one
/// wake-up and the send does not wait.
#[derive(Debug, Clone, Copy, PartialEq, Eq, Structural)]
pub enum TrySend {
    Sent,
    Full,
    Closed,
}

/// The wake-up channel: whether a wake-up is waiting, and whether the
/// worker has gone and closed its end.
#[derive(Debug, Clone, Copy, PartialEq, Eq, Structural)]
pub struct WakeSlot {
    pub pending: bool,
    pub closed: bool,
}

impl WakeSlot {
    /// An open channel with no wake-up waiting.
    pub fn new() -> (r: WakeSlot)
        ensures
            !r.pending,
            !r.closed,
    {
        WakeSlot { pending: false, closed: false }
    }

    /// How a send ends on this channel.
    pub open spec fn sending(self) -> TrySend {
        if self.closed {
            TrySend::Closed
        } else if self.pending {
            TrySend::Full
        } else {
            TrySend::Sent
        }
    }

    /// The channel after a send: a wake-up is waiting on an open channel,
    /// and a closed one is as it was.
    pub open spec fn after_send(self) -> WakeSlot {
        if self.closed {
            self
        } else {
            WakeSlot { pending: true, ..self }
        }
    }

    /// Sends a wake-up without waiting. On an empty channel the wake-up is
    /// stored; on a full one nothing changes, since a wake-up is waiting
    /// already; on a closed one nothing is stored.
    pub fn try_send(&mut self) -> (r: TrySend)
        ensures
            r == old(self).sending(),
            *final(self) == old(self).after_send(),
    {
        if self.closed {
            TrySend::Closed
        } else if self.pending {
            TrySend::Full
        } else {
            self.pending = true;
            TrySend::Sent
        }
    }

    /// Takes the waiting wake-up, if there is one.
    pub fn take(&mut self) -> (r: bool)
        ensures
            r == old(self).pending,
            *final(self) == (WakeSlot { pending: false, ..*old(self) }),
    {
        let was = self.pending;
        self.pending = false;
        was
    }

    /// Closes the channel: the worker is gone.
    pub fn close(&mut self)
        ensures
            *final(self) == (WakeSlot { closed: true, ..*old(self) }),
    {
        self.closed = true;
    }
}

/// A new row for `task`, made at `now`: no attempt on record, and free to
/// run at once.
pub open spec fn new_row(id: i64, task: Task, now: i64) -> TaskRow {
    TaskRow {
        id,
        task,
        attempts: 0,
        max_attempts: crate::delivery::DEFAULT_MAX_ATTEMPTS,
        created_at: now,
        not_before: now,
        latest_err: None,
        claimed: false,
    }
}

/// What the sender of a wake-up reports: a stored wake-up and a full channel
/// are both fine, a closed channel is an error.
pub open spec fn trigger_ok(sent: TrySend) -> bool {
    sent != TrySend::Closed
}

/// Puts `task` into the queue and then wakes the worker. The row is added
/// whatever becomes of the wake-up: the worker finds it at its next poll. A
/// wake-up that is waiting already covers this one; a closed channel is
/// reported as an error.
pub fn enqueue_task(rows: &mut Vec<TaskRow>, wake: &mut WakeSlot, id: i64, task: Task, now: i64)
    -> (r: Result<(), Error>)
    ensures
        final(rows)@ == old(rows)@.push(new_row(id, task, now)),
        new_row(id, task, now).wf(),
        *final(wake) == old(wake).after_send(),
        r is Ok <==> !old(wake).closed,
        r matches Err(e) ==> e matches Error::InternalStrStatic(msg) && msg@
            == "Worker channel closed"@,
{
    let max_attempts = task.max_attempts();
    rows.push(
        TaskRow {
            id,
            task,
            attempts: 0,
            max_attempts,
            created_at: now,
            not_before: now,
            latest_err: None,
            claimed: false,
        },
    );
    trigger_result(wake.try_send())
}

/// What the sender of a wake-up reports to its caller: a wake-up that was
/// stored and a channel that was full are both fine, since either way a
/// wake-up is waiting; a closed channel is an error.
pub fn trigger_result(sent: TrySend) -> (r: Result<(), Error>)
    ensures
        r is Ok <==> trigger_ok(sent),
        r matches Err(e) ==> e matches Error::InternalStrStatic(msg) && msg@
            == "Worker channel closed"@,
{
    match sent {
        TrySend::Sent => Ok(()),
        TrySend::Full => Ok(()),
        TrySend::Closed => Err(Error::InternalStrStatic("Worker channel closed")),
    }
}

/// Applies the outcome of an attempt to the row at `index`: the row leaves
/// the queue when the task is done or given up, and is released with its
/// new count and time otherwise.
pub fn settle(
    rows: &mut Vec<TaskRow>,
    index: usize,
    outcome: AttemptOutcome,
    now: i64,
    jitter: i32,
    err: Option<String>,
) -> (r: Disposition)
    requires
        index < old(rows).len(),
    ensures
        r == disposition(
            old(rows)@[index as int].attempts,
            old(rows)@[index as int].max_attempts,
            outcome,
            now,
            jitter,
        ),
        match r {
            Disposition::Retry { attempts, not_before } => final(rows)@ == old(rows)@.update(
                index as int,
                TaskRow {
                    attempts,
                    not_before,
                    latest_err: err,
                    claimed: false,
                    ..old(rows)@[index as int]
                },
            ),
            _ => final(rows)@ == old(rows)@.remove(index as int),
        },
        r is Retry ==> final(rows)@[index as int].wf(),
{
    let d = after_attempt(rows[index].attempts, rows[index].max_attempts, outcome, now, jitter);
    match d {
        Disposition::Retry { attempts, not_before } => {
            let old_row = rows.remove(index);
            let row = TaskRow {
                id: old_row.id,
                task: old_row.task,
                attempts,
                max_attempts: old_row.max_attempts,
                created_at: old_row.created_at,
                not_before,
                latest_err: err,
                claimed: false,
            };
            rows.insert(index, row);
            assert(rows@ =~= old(rows)@.update(index as int, row));
        },
        _ => {
            rows.remove(index);
        },
    }
    d
}

/// A row as it is after a restart: held by no worker, and otherwise as it
/// was.
pub open spec fn released(row: TaskRow) -> TaskRow {
    TaskRow { claimed: false, ..row }
}

/// Releases every row. After a restart no worker is left that could hold
/// one, so the tasks that were in flight at the crash are due again.
pub fn release_all(rows: &mut Vec<TaskRow>)
    ensures
        final(rows)@.len() == old(rows)@.len(),
        forall|i: int| 0 <= i < old(rows)@.len() ==> final(rows)@[i] == released(old(rows)@[i]),
{
    let mut kept: Vec<TaskRow> = Vec::new();
    let ghost all = rows@;
    while rows.len() > 0
        invariant
            kept.len() + rows.len() == all.len(),
            rows@ == all.skip(kept.len() as int),
            forall|j: int| 0 <= j < kept.len() ==> kept@[j] == released(all[j]),
        decreases rows.len(),
    {
        let row = rows.remove(0);
        assert(row == all[kept.len() as int]);
        assert(rows@ =~= all.skip(kept.len() + 1));
        kept.push(
            TaskRow {
                id: row.id,
                task: row.task,
                attempts: row.attempts,
                max_attempts: row.max_attempts,
                created_at: row.created_at,
                not_before: row.not_before,
                latest_err: row.latest_err,
                claimed: false,
            },
        );
    }
    *rows = kept;
}

} // verus!

use vstd::prelude::*;

verus! {

/// Where the code that uses the mutex runs.
#[derive(PartialEq, Eq, Structural, Clone, Copy, Debug)]
pub enum Context {
    /// An ordinary FreeRTOS task.
    Task,
    /// An interrupt service routine (such as a GPIO interrupt callback).
    Interrupt,
}

impl Context {
    /// The context named by the port's "in ISR context" flag: any value
    /// other than 0 means an interrupt service routine.
    pub fn from_port_flag(flag: i32) -> (r: Context)
        ensures
            (r == Context::Interrupt) <==> (flag != 0),
    {
        if flag != 0 {
            Context::Interrupt
        } else {
            Context::Task
        }
    }
}

/// FreeRTOS queue type number of a mutex (`queueQUEUE_TYPE_MUTEX`).
pub const QUEUE_TYPE_MUTEX: u8 = 1;

/// FreeRTOS position number for sending to the back of a queue
/// (`queueSEND_TO_BACK`).
pub const SEND_TO_BACK: i32 = 0;

/// FreeRTOS block time that waits as long as it takes (`portMAX_DELAY`).
pub const MAX_DELAY: u32 = 0xffff_ffff;

/// A call on the FreeRTOS semaphore that guards the data.
#[derive(PartialEq, Eq, Structural, Clone, Copy, Debug)]
pub enum SemaphoreCall {
    /// `xQueueCreateMutex(queue_type)`.
    CreateMutex { queue_type: u8 },
    /// `xQueueReceiveFromISR(handle, null, null)`: take from an interrupt.
    ReceiveFromIsr,
    /// `xQueueGiveFromISR(handle, null)`: give back from an interrupt.
    GiveFromIsr,
    /// `xQueueSemaphoreTake(handle, block_ticks)`: take from a task.
    SemaphoreTake { block_ticks: u32 },
    /// `xQueueGenericSend(handle, null, block_ticks, position)`: give back from a task.
    GenericSend { block_ticks: u32, position: i32 },
    /// `vQueueDelete(handle)`.
    Delete,
}

/// The call that takes the semaphore in `ctx`.
pub open spec fn take_call(ctx: Context) -> SemaphoreCall {
    match ctx {
        Context::Interrupt => SemaphoreCall::ReceiveFromIsr,
        Context::Task => SemaphoreCall::SemaphoreTake { block_ticks: MAX_DELAY },
    }
}

/// The call that gives the semaphore back in `ctx`.
pub open spec fn give_call(ctx: Context) -> SemaphoreCall {
    match ctx {
        Context::Interrupt => SemaphoreCall::GiveFromIsr,
        Context::Task => SemaphoreCall::GenericSend { block_ticks: 0, position: SEND_TO_BACK },
    }
}

/// The mutex could not be created.
#[derive(PartialEq, Eq, Structural, Clone, Copy, Debug)]
pub enum MutexError {
    /// `xQueueCreateMutex` returned a null handle.
    CreationFailed,
}

impl MutexError {
    pub open spec fn text(self) -> Seq<char> {
        "fail to create mutex"@
    }

    /// The message the failure is reported with.
    pub fn message(&self) -> (r: &'static str)
        ensures
            r@ == self.text(),
            r@ == "fail to create mutex"@,
    {
        "fail to create mutex"
    }
}

/// Where a mutex stands in its life.
#[derive(PartialEq, Eq, Structural, Clone, Copy, Debug)]
pub enum LifeStage {
    /// Waiting for `xQueueCreateMutex` to return.
    Creating,
    /// Created: it may be locked, from tasks and interrupts alike.
    Live,
    /// Creation failed: the mutex cannot be used.
    Broken,
    /// The semaphore was deleted.
    Dropped,
}

/// What happens to the mutex as a whole.
#[derive(PartialEq, Eq, Structural, Clone, Copy, Debug)]
pub enum LifeEvent {
    /// `xQueueCreateMutex` returned; `is_null` tells whether the handle is null.
    Created { is_null: bool },
    /// The mutex is dropped.
    Drop,
}

/// What the owner of the mutex does next.
#[derive(PartialEq, Eq, Structural, Clone, Copy, Debug)]
pub enum LifeAction {
    /// Make this call on the semaphore.
    Call(SemaphoreCall),
    /// The mutex is ready for use.
    Ready,
    /// Stop with this error.
    Fail(MutexError),
}

/// Whether `e` may come in stage `s` of the mutex's life.
pub open spec fn life_accepts(s: LifeStage, e: LifeEvent) -> bool {
    match (s, e) {
        (LifeStage::Creating, LifeEvent::Created { .. }) => true,
        (LifeStage::Live, LifeEvent::Drop) => true,
        _ => false,
    }
}

/// The stage and action after an accepted event `e` in stage `s`.
pub open spec fn life_transition(s: LifeStage, e: LifeEvent) -> (LifeStage, LifeAction) {
    match e {
        LifeEvent::Created { is_null } => if is_null {
            (LifeStage::Broken, LifeAction::Fail(MutexError::CreationFailed))
        } else {
            (LifeStage::Live, LifeAction::Ready)
        },
        LifeEvent::Drop => (LifeStage::Dropped, LifeAction::Call(SemaphoreCall::Delete)),
    }
}

/// The life of a FreeRTOS mutex: creation of its semaphore, the check that
/// creation succeeded, and deletion when it is dropped.
pub struct MutexLife {
    stage: LifeStage,
}

impl MutexLife {
    pub closed spec fn stage(self) -> LifeStage {
        self.stage
    }

    /// Starts a new mutex: the semaphore is yet to be created.
    pub fn new() -> (r: MutexLife)
        ensures
            r.stage() == LifeStage::Creating,
    {
        MutexLife { stage: LifeStage::Creating }
    }

    /// The call that creates the semaphore of a mutex.
    pub fn create_call() -> (r: SemaphoreCall)
        ensures
            r == (SemaphoreCall::CreateMutex { queue_type: QUEUE_TYPE_MUTEX }),
    {
        SemaphoreCall::CreateMutex { queue_type: QUEUE_TYPE_MUTEX }
    }

    /// The stage the mutex is in.
    pub fn current_stage(&self) -> (r: LifeStage)
        ensures
            r == self.stage(),
    {
        self.stage
    }

    /// Takes the next event of the mutex's life and decides what follows.
    pub fn step(&mut self, event: LifeEvent) -> (action: LifeAction)
        requires
            life_accepts(old(self).stage(), event),
        ensures
            (final(self).stage(), action) == life_transition(old(self).stage(), event),
    {
        match event {
            LifeEvent::Created { is_null } => {
                if is_null {
                    self.stage = LifeStage::Broken;
                    LifeAction::Fail(MutexError::CreationFailed)
                } else {
                    self.stage = LifeStage::Live;
                    LifeAction::Ready
                }
            },
            LifeEvent::Drop => {
                self.stage = LifeStage::Dropped;
                LifeAction::Call(SemaphoreCall::Delete)
            },
        }
    }
}

/// Where one call of `lock` stands.
#[derive(PartialEq, Eq, Structural, Clone, Copy, Debug)]
pub enum LockStage {
    /// Waiting for the take call made in this context to return.
    Taking(Context),
    /// Waiting for the caller's closure to return; `held` tells whether this
    /// call obtained the semaphore.
    Running(Context, bool),
    /// Waiting for the give call made in this context to return.
    Giving(Context),
    /// The closure's result was handed back.
    Done,
}

/// What the caller of `lock` reports back.
#[derive(PartialEq, Eq, Structural, Clone, Copy, Debug)]
pub enum LockEvent {
    /// The take call returned; `taken` tells whether it obtained the semaphore
    /// (the call returned `pdTRUE`).
    TakeReturned { taken: bool },
    /// The closure run on the data returned.
    BodyReturned,
    /// The give call returned.
    GiveReturned,
}

/// What the caller of `lock` does next.
#[derive(PartialEq, Eq, Structural, Clone, Copy, Debug)]
pub enum LockAction {
    /// Make this call on the semaphore.
    Call(SemaphoreCall),
    /// Run the closure on the data.
    RunBody,
    /// Hand the closure's result back.
    Return,
}

/// Whether a lock call in stage `s` holds the semaphore.
pub open spec fn holds(s: LockStage) -> bool {
    s == LockStage::Running(Context::Task, true) || s == LockStage::Running(
        Context::Interrupt,
        true,
    ) || s is Giving
}

/// Whether `e` may come in stage `s` of a lock call.
pub open spec fn lock_accepts(s: LockStage, e: LockEvent) -> bool {
    match (s, e) {
        (LockStage::Taking(_), LockEvent::TakeReturned { .. }) => true,
        (LockStage::Running(_, _), LockEvent::BodyReturned) => true,
        (LockStage::Giving(_), LockEvent::GiveReturned) => true,
        _ => false,
    }
}

/// The stage and action after an accepted event `e` in stage `s` of a lock
/// call. A task waits for the semaphore: its take is made again until it
/// obtains it, and only then does the closure run. An interrupt never
/// waits: it takes once and runs the closure whatever the take returned.
/// The semaphore is given back only by a call that obtained it.
pub open spec fn lock_transition(s: LockStage, e: LockEvent) -> (LockStage, LockAction) {
    match (s, e) {
        (LockStage::Taking(Context::Task), LockEvent::TakeReturned { taken }) => if taken {
            (LockStage::Running(Context::Task, true), LockAction::RunBody)
        } else {
            (LockStage::Taking(Context::Task), LockAction::Call(take_call(Context::Task)))
        },
        (LockStage::Taking(Context::Interrupt), LockEvent::TakeReturned { taken }) => (
            LockStage::Running(Context::Interrupt, taken),
            LockAction::RunBody,
        ),
        (LockStage::Running(ctx, held), _) => if held {
            (LockStage::Giving(ctx), LockAction::Call(give_call(ctx)))
        } else {
            (LockStage::Done, LockAction::Return)
        },
        _ => (LockStage::Done, LockAction::Return),
    }
}

/// One call of `lock` on a live mutex. From a task: take the semaphore,
/// waiting as long as it takes, run the closure, give the semaphore back,
/// return the closure's result. From an interrupt, which must not wait:
/// take once, run the closure, give the semaphore back if the take
/// obtained it, return the closure's result.
pub struct LockCall {
    stage: LockStage,
}

impl LockCall {
    pub closed spec fn stage(self) -> LockStage {
        self.stage
    }

    /// Begins a lock from `ctx`; the returned call takes the semaphore.
    pub fn begin(ctx: Context) -> (r: (LockCall, LockAction))
        ensures
            r.0.stage() == LockStage::Taking(ctx),
            r.1 == LockAction::Call(take_call(ctx)),
    {
        let take = match ctx {
            Context::Interrupt => SemaphoreCall::ReceiveFromIsr,
            Context::Task => SemaphoreCall::SemaphoreTake { block_ticks: MAX_DELAY },
        };
        (LockCall { stage: LockStage::Taking(ctx) }, LockAction::Call(take))
    }

    /// The stage the lock call is in.
    pub fn current_stage(&self) -> (r: LockStage)
        ensures
            r == self.stage(),
    {
        self.stage
    }

    /// Takes the next event of the lock call and decides what follows.
    pub fn step(&mut self, event: LockEvent) -> (action: LockAction)
        requires
            lock_accepts(old(self).stage(), event),
        ensures
            (final(self).stage(), action) == lock_transition(old(self).stage(), event),
    {
        match (self.stage, event) {
            (LockStage::Taking(Context::Task), LockEvent::TakeReturned { taken }) => {
                if taken {
                    self.stage = LockStage::Running(Context::Task, true);
                    LockAction::RunBody
                } else {
                    LockAction::Call(SemaphoreCall::SemaphoreTake { block_ticks: MAX_DELAY })
                }
            },
            (LockStage::Taking(Context::Interrupt), LockEvent::TakeReturned { taken }) => {
                self.stage = LockStage::Running(Context::Interrupt, taken);
                LockAction::RunBody
            },
            (LockStage::Running(ctx, held), _) => {
                if held {
                    self.stage = LockStage::Giving(ctx);
                    match ctx {
                        Context::Interrupt => LockAction::Call(SemaphoreCall::GiveFromIsr),
                        Context::Task => LockAction::Call(
                            SemaphoreCall::GenericSend { block_ticks: 0, position: SEND_TO_BACK },
                        ),
                    }
                } else {
                    self.stage = LockStage::Done;
                    LockAction::Return
                }
            },
            (_, _) => {
                self.stage = LockStage::Done;
                LockAction::Return
            },
        }
    }
}

/// A lock from an interrupt never waits: it makes exactly one take, the
/// closure runs on whatever that take returned, and no later step makes
/// another take; the semaphore is given back exactly when the take obtained it.
pub proof fn lemma_interrupt_never_waits(taken: bool, s: LockStage, e: LockEvent)
    ensures
        lock_transition(LockStage::Taking(Context::Interrupt), LockEvent::TakeReturned { taken })
            == (LockStage::Running(Context::Interrupt, taken), LockAction::RunBody),
        lock_transition(LockStage::Running(Context::Interrupt, taken), LockEvent::BodyReturned)
            == (if taken {
            (LockStage::Giving(Context::Interrupt), LockAction::Call(SemaphoreCall::GiveFromIsr))
        } else {
            (LockStage::Done, LockAction::Return)
        }),
        !(s is Taking) && lock_accepts(s, e) ==> lock_transition(s, e).1 != LockAction::Call(
            take_call(Context::Interrupt),
        ),
{
}

/// From a task, the closure runs only while the call holds the semaphore:
/// only on the answer of a take that obtained it; a take that did not
/// obtain it leads only to another take.
pub proof fn lemma_task_body_runs_only_while_held(e: LockEvent)
    requires
        lock_accepts(LockStage::Taking(Context::Task), e),
    ensures
        lock_transition(LockStage::Taking(Context::Task), e).1 == LockAction::RunBody <==> e
            == (LockEvent::TakeReturned { taken: true }),
        lock_transition(LockStage::Taking(Context::Task), e).1 == LockAction::RunBody ==> holds(
            lock_transition(LockStage::Taking(Context::Task), e).0,
        ),
        e == (LockEvent::TakeReturned { taken: false }) ==> lock_transition(
            LockStage::Taking(Context::Task),
            e,
        ) == (LockStage::Taking(Context::Task), LockAction::Call(take_call(Context::Task))),
{
}

/// A call gives the semaphore back only if it holds it, with the give of
/// its own context, and hands its result back only after that give or, not
/// holding it, right after its closure.
pub proof fn lemma_gives_only_what_it_took(s: LockStage, e: LockEvent)
    requires
        lock_accepts(s, e),
    ensures
        (lock_transition(s, e).1 is Call && !(s is Taking)) ==> holds(s) && s is Running
            && s->Running_1 && lock_transition(s, e).1 == LockAction::Call(give_call(s->Running_0)),
        lock_transition(s, e).1 == LockAction::Return ==> (s is Giving || (s is Running
            && !s->Running_1)) && lock_transition(s, e).0 == LockStage::Done,
{
}

/// A lock in either context, once its take obtains the semaphore, runs the
/// closure once, gives the semaphore back with the call of the same context
/// and returns.
pub proof fn lemma_lock_round_trip(ctx: Context)
    ensures
        lock_transition(LockStage::Taking(ctx), LockEvent::TakeReturned { taken: true }) == (
            LockStage::Running(ctx, true),
            LockAction::RunBody,
        ),
        lock_transition(LockStage::Running(ctx, true), LockEvent::BodyReturned) == (
            LockStage::Giving(ctx),
            LockAction::Call(give_call(ctx)),
        ),
        lock_transition(LockStage::Giving(ctx), LockEvent::GiveReturned) == (
            LockStage::Done,
            LockAction::Return,
        ),
        forall|e: LockEvent| !lock_accepts(LockStage::Done, e),
{
}

/// The number of the two lock calls `a` and `b` that hold the semaphore.
pub open spec fn holders(a: LockStage, b: LockStage) -> int {
    (if holds(a) { 1int } else { 0int }) + (if holds(b) { 1int } else { 0int })
}

/// The semaphore is free (`available`) exactly when no lock call holds it.
pub open spec fn exclusive(available: bool, a: LockStage, b: LockStage) -> bool {
    holders(a, b) == if available { 0int } else { 1int }
}

/// Whether a lock call in stage `s` is running its closure.
pub open spec fn running(s: LockStage) -> bool {
    s is Running
}

/// What a binary semaphore does on one step of lock call `a` (with `e` its
/// event): a take obtains it exactly when it is free and then makes it busy;
/// a give makes it free.
pub open spec fn semaphore_after(available: bool, a: LockStage, e: LockEvent) -> bool {
    match (a, e) {
        (LockStage::Taking(_), LockEvent::TakeReturned { taken }) => available && !taken,
        (LockStage::Giving(_), LockEvent::GiveReturned) => true,
        _ => available,
    }
}

/// Over a binary semaphore (whose take obtains it exactly when it is free),
/// the semaphore is free exactly when neither of two lock calls holds it,
/// and every step of either call keeps this so. Hence two calls that hold
/// the semaphore never run their closures at the same time; in particular
/// two calls from tasks, which run their closures only while holding it,
/// never overlap. Only an interrupt's closure whose take found the
/// semaphore busy runs without holding it.
pub proof fn lemma_mutual_exclusion(available: bool, a: LockStage, b: LockStage, e: LockEvent)
    requires
        exclusive(available, a, b),
        lock_accepts(a, e),
        e matches LockEvent::TakeReturned { taken } ==> taken == available,
    ensures
        exclusive(semaphore_after(available, a, e), lock_transition(a, e).0, b),
        exclusive(semaphore_after(available, a, e), b, lock_transition(a, e).0),
        !(holds(lock_transition(a, e).0) && holds(b)),
        running(lock_transition(a, e).0) && running(b) ==> !holds(lock_transition(a, e).0)
            || !holds(b),
        lock_transition(a, e).0 is Running && lock_transition(a, e).0->Running_0 == Context::Task
            ==> lock_transition(a, e).0->Running_1,
        !(lock_transition(a, e).0 is Running && lock_transition(a, e).0->Running_0 == Context::Task
            && b == LockStage::Running(Context::Task, true)),
{
}

/// Two lock calls on one mutex and its binary semaphore.
#[derive(PartialEq, Eq, Structural, Clone, Copy, Debug)]
pub struct LockPair {
    /// Whether the semaphore is free.
    pub available: bool,
    pub first: LockStage,
    pub second: LockStage,
}

/// Whether the call chosen by `on_first` may take event `e` in `p`; a take
/// returns what the binary semaphore gives: success exactly when it is free.
pub open spec fn pair_accepts(p: LockPair, on_first: bool, e: LockEvent) -> bool {
    let s = if on_first { p.first } else { p.second };
    &&& lock_accepts(s, e)
    &&& e matches LockEvent::TakeReturned { taken } ==> taken == p.available
}

/// The two calls after the call chosen by `on_first` took event `e`.
pub open spec fn pair_step(p: LockPair, on_first: bool, e: LockEvent) -> LockPair {
    if on_first {
        LockPair {
            available: semaphore_after(p.available, p.first, e),
            first: lock_transition(p.first, e).0,
            second: p.second,
        }
    } else {
        LockPair {
            available: semaphore_after(p.available, p.second, e),
            first: p.first,
            second: lock_transition(p.second, e).0,
        }
    }
}

/// The two calls after the interleaved `steps` (each names the call that
/// moves and its event), or `None` if some step is not accepted.
pub open spec fn pair_run(p: LockPair, steps: Seq<(bool, LockEvent)>) -> Option<LockPair>
    decreases steps.len(),
{
    if steps.len() == 0 {
        Some(p)
    } else {
        match pair_run(p, steps.drop_last()) {
            Some(q) => if pair_accepts(q, steps.last().0, steps.last().1) {
                Some(pair_step(q, steps.last().0, steps.last().1))
            } else {
                None
            },
            None => None,
        }
    }
}

/// What holds of the two calls at every point of a run.
pub open spec fn pair_inv(p: LockPair) -> bool {
    &&& exclusive(p.available, p.first, p.second)
    &&& p.first != LockStage::Running(Context::Task, false)
    &&& p.second != LockStage::Running(Context::Task, false)
}

/// Two calls that lock the same mutex, from tasks or interrupts, started on
/// a free semaphore, never both hold it, whatever the interleaving of their
/// steps; two calls from tasks never run their closures at the same time.
/// Only an interrupt whose take found the semaphore busy runs its closure
/// without holding it.
pub proof fn lemma_pair_mutual_exclusion(
    first: Context,
    second: Context,
    steps: Seq<(bool, LockEvent)>,
)
    ensures
        pair_run(
            LockPair {
                available: true,
                first: LockStage::Taking(first),
                second: LockStage::Taking(second),
            },
            steps,
        ) matches Some(q) ==> {
            &&& !(holds(q.first) && holds(q.second))
            &&& q.first is Running && q.first->Running_0 == Context::Task ==> q.first->Running_1
            &&& q.second is Running && q.second->Running_0 == Context::Task ==> q.second->Running_1
            &&& !(first == Context::Task && second == Context::Task && running(q.first) && running(
                q.second,
            ))
        },
    decreases steps.len(),
{
    let p0 = LockPair {
        available: true,
        first: LockStage::Taking(first),
        second: LockStage::Taking(second),
    };
    lemma_pair_inv(p0, steps);
    lemma_pair_contexts(p0, steps);
    if let Some(q) = pair_run(p0, steps) {
        assert(in_context(q.first, first));
        assert(in_context(q.second, second));
    }
}

/// The invariant holds after every accepted run from a state where it holds.
pub proof fn lemma_pair_inv(p: LockPair, steps: Seq<(bool, LockEvent)>)
    requires
        pair_inv(p),
    ensures
        pair_run(p, steps) matches Some(q) ==> pair_inv(q),
    decreases steps.len(),
{
    if steps.len() > 0 {
        lemma_pair_inv(p, steps.drop_last());
        if let Some(q) = pair_run(p, steps.drop_last()) {
            let (on_first, e) = steps.last();
            if pair_accepts(q, on_first, e) {
                if on_first {
                    lemma_mutual_exclusion(q.available, q.first, q.second, e);
                } else {
                    lemma_mutual_exclusion(q.available, q.second, q.first, e);
                }
            }
        }
    }
}

/// Each call keeps the context it began in.
pub open spec fn in_context(s: LockStage, ctx: Context) -> bool {
    match s {
        LockStage::Taking(c) => c == ctx,
        LockStage::Running(c, _) => c == ctx,
        LockStage::Giving(c) => c == ctx,
        LockStage::Done => true,
    }
}

/// A run never changes the context of either call.
pub proof fn lemma_pair_contexts(p: LockPair, steps: Seq<(bool, LockEvent)>)
    ensures
        pair_run(p, steps) matches Some(q) ==> (forall|c: Context|
            in_context(p.first, c) ==> #[trigger] in_context(q.first, c)) && (forall|c: Context|
            in_context(p.second, c) ==> #[trigger] in_context(q.second, c)),
    decreases steps.len(),
{
    if steps.len() > 0 {
        lemma_pair_contexts(p, steps.drop_last());
        if let Some(q) = pair_run(p, steps.drop_last()) {
            let (on_first, e) = steps.last();
            assert forall|c: Context| in_context(q.first, c) implies #[trigger] in_context(
                pair_step(q, on_first, e).first,
                c,
            ) by {
                lemma_transition_keeps_context(q.first, e, c);
            }
            assert forall|c: Context| in_context(q.second, c) implies #[trigger] in_context(
                pair_step(q, on_first, e).second,
                c,
            ) by {
                lemma_transition_keeps_context(q.second, e, c);
            }
        }
    }
}

/// A step of a lock call keeps its context.
pub proof fn lemma_transition_keeps_context(s: LockStage, e: LockEvent, c: Context)
    ensures
        in_context(s, c) ==> in_context(lock_transition(s, e).0, c),
{
}

/// A mutex whose creation failed accepts nothing more, so its null handle
/// is never deleted; a live mutex is deleted exactly when it is dropped.
pub proof fn lemma_life_ends(e: LifeEvent)
    ensures
        !life_accepts(LifeStage::Broken, e),
        !life_accepts(LifeStage::Dropped, e),
        life_accepts(LifeStage::Live, e) ==> life_transition(LifeStage::Live, e) == (
            LifeStage::Dropped,
            LifeAction::Call(SemaphoreCall::Delete),
        ),
{
}

/// Creating a mutex fails exactly when the created handle is null: a null
/// handle breaks the mutex with the creation error, another makes it ready.
pub proof fn lemma_creation_checked(is_null: bool)
    ensures
        life_accepts(LifeStage::Creating, LifeEvent::Created { is_null }),
        is_null ==> life_transition(LifeStage::Creating, LifeEvent::Created { is_null }) == (
            LifeStage::Broken,
            LifeAction::Fail(MutexError::CreationFailed),
        ),
        !is_null ==> life_transition(LifeStage::Creating, LifeEvent::Created { is_null }) == (
            LifeStage::Live,
            LifeAction::Ready,
        ),
        !life_accepts(LifeStage::Creating, LifeEvent::Drop),
{
}

/// Take and give always come as the pair of one context: the interrupt-safe
/// pair from an interrupt, which never waits, and the task pair, whose take
/// waits as long as it takes.
pub proof fn lemma_take_give_paired(ctx: Context)
    ensures
        (take_call(ctx) == SemaphoreCall::ReceiveFromIsr) <==> ctx == Context::Interrupt,
        (give_call(ctx) == SemaphoreCall::GiveFromIsr) <==> ctx == Context::Interrupt,
        ctx == Context::Task ==> take_call(ctx) == (SemaphoreCall::SemaphoreTake {
            block_ticks: MAX_DELAY,
        }),
        ctx == Context::Task ==> give_call(ctx) == (SemaphoreCall::GenericSend {
            block_ticks: 0,
            position: SEND_TO_BACK,
        }),
{
}

} // verus!

use http_app::lock::{
    Context, LifeAction, LifeEvent, LifeStage, LockAction, LockCall, LockEvent, LockStage,
    MutexError, MutexLife, SemaphoreCall, MAX_DELAY, QUEUE_TYPE_MUTEX, SEND_TO_BACK,
};

#[test]
fn port_flag_names_context() {
    assert_eq!(Context::from_port_flag(0), Context::Task);
    assert_eq!(Context::from_port_flag(1), Context::Interrupt);
    assert_eq!(Context::from_port_flag(-1), Context::Interrupt);
}

#[test]
fn lock_from_task() {
    let (mut call, first) = LockCall::begin(Context::Task);
    assert_eq!(first, LockAction::Call(SemaphoreCall::SemaphoreTake { block_ticks: MAX_DELAY }));
    assert_eq!(MAX_DELAY, u32::MAX);
    assert_eq!(call.step(LockEvent::TakeReturned { taken: true }), LockAction::RunBody);
    assert_eq!(call.current_stage(), LockStage::Running(Context::Task, true));
    assert_eq!(
        call.step(LockEvent::BodyReturned),
        LockAction::Call(SemaphoreCall::GenericSend { block_ticks: 0, position: SEND_TO_BACK })
    );
    assert_eq!(call.step(LockEvent::GiveReturned), LockAction::Return);
    assert_eq!(call.current_stage(), LockStage::Done);
}

#[test]
fn lock_from_interrupt() {
    let (mut call, first) = LockCall::begin(Context::Interrupt);
    assert_eq!(first, LockAction::Call(SemaphoreCall::ReceiveFromIsr));
    assert_eq!(call.current_stage(), LockStage::Taking(Context::Interrupt));
    assert_eq!(call.step(LockEvent::TakeReturned { taken: true }), LockAction::RunBody);
    assert_eq!(call.step(LockEvent::BodyReturned), LockAction::Call(SemaphoreCall::GiveFromIsr));
    assert_eq!(call.step(LockEvent::GiveReturned), LockAction::Return);
}

#[test]
fn interrupt_never_waits() {
    let (mut call, _) = LockCall::begin(Context::Interrupt);
    assert_eq!(call.step(LockEvent::TakeReturned { taken: false }), LockAction::RunBody);
    assert_eq!(call.current_stage(), LockStage::Running(Context::Interrupt, false));
    assert_eq!(call.step(LockEvent::BodyReturned), LockAction::Return);
    assert_eq!(call.current_stage(), LockStage::Done);
}

#[test]
fn task_waits_for_the_semaphore() {
    let (mut call, first) = LockCall::begin(Context::Task);
    for _ in 0..3 {
        assert_eq!(call.step(LockEvent::TakeReturned { taken: false }), first);
        assert_eq!(call.current_stage(), LockStage::Taking(Context::Task));
    }
    assert_eq!(call.step(LockEvent::TakeReturned { taken: true }), LockAction::RunBody);
}

#[test]
fn two_tasks_never_run_together() {
    // A binary semaphore: a take obtains it exactly when it is free.
    let mut available = true;
    let (mut a, _) = LockCall::begin(Context::Task);
    let (mut b, _) = LockCall::begin(Context::Task);
    assert_eq!(a.step(LockEvent::TakeReturned { taken: available }), LockAction::RunBody);
    available = false;
    assert_eq!(
        b.step(LockEvent::TakeReturned { taken: available }),
        LockAction::Call(SemaphoreCall::SemaphoreTake { block_ticks: MAX_DELAY })
    );
    assert_eq!(b.current_stage(), LockStage::Taking(Context::Task));
    a.step(LockEvent::BodyReturned);
    a.step(LockEvent::GiveReturned);
    available = true;
    assert_eq!(b.step(LockEvent::TakeReturned { taken: available }), LockAction::RunBody);
}

#[test]
fn mutex_created_and_dropped() {
    assert_eq!(
        MutexLife::create_call(),
        SemaphoreCall::CreateMutex { queue_type: QUEUE_TYPE_MUTEX }
    );
    assert_eq!(QUEUE_TYPE_MUTEX, 1);
    let mut life = MutexLife::new();
    assert_eq!(life.current_stage(), LifeStage::Creating);
    assert_eq!(life.step(LifeEvent::Created { is_null: false }), LifeAction::Ready);
    assert_eq!(life.current_stage(), LifeStage::Live);
    assert_eq!(life.step(LifeEvent::Drop), LifeAction::Call(SemaphoreCall::Delete));
    assert_eq!(life.current_stage(), LifeStage::Dropped);
}

#[test]
fn mutex_creation_failure() {
    let mut life = MutexLife::new();
    assert_eq!(
        life.step(LifeEvent::Created { is_null: true }),
        LifeAction::Fail(MutexError::CreationFailed)
    );
    assert_eq!(life.current_stage(), LifeStage::Broken);
    assert_eq!(MutexError::CreationFailed.message(), "fail to create mutex");
}

use std::cell::Cell;
use titanium::sync::{access, publish, LazyEvent, LazyLock, LazyPhase, Mutex};

#[test]
fn producer_runs_once_over_many_accesses() {
    let count = Cell::new(0u32);
    let mut cell = LazyLock::new(|| {
        count.set(count.get() + 1);
        42u64
    });
    assert!(!cell.is_initialised());
    for _ in 0..10 {
        assert_eq!(*cell.get(), 42);
    }
    assert!(cell.is_initialised());
    assert_eq!(count.get(), 1);
}

#[test]
fn producer_does_not_run_before_first_access() {
    let count = Cell::new(0u32);
    let cell = LazyLock::new(|| {
        count.set(count.get() + 1);
        7u8
    });
    assert!(!cell.is_initialised());
    assert_eq!(count.get(), 0);
}

#[test]
fn access_claims_only_an_untouched_cell() {
    assert_eq!(access(LazyPhase::Uninit), (LazyPhase::Initialising, LazyEvent::Produce));
    assert_eq!(access(LazyPhase::Initialising), (LazyPhase::Initialising, LazyEvent::Wait));
    assert_eq!(access(LazyPhase::Ready), (LazyPhase::Ready, LazyEvent::Read));
    assert_eq!(publish(LazyPhase::Initialising), LazyPhase::Ready);
}

#[test]
fn interleaved_first_accesses_produce_once() {
    // Eight contexts take turns; the one that claimed publishes after three rounds.
    let mut phase = LazyPhase::Uninit;
    let mut produced = 0;
    let mut reads = 0;
    for round in 0..6 {
        for _context in 0..8 {
            let (next, event) = access(phase);
            phase = next;
            match event {
                LazyEvent::Produce => produced += 1,
                LazyEvent::Read => reads += 1,
                _ => {}
            }
        }
        if round == 3 && phase == LazyPhase::Initialising {
            phase = publish(phase);
        }
    }
    assert_eq!(produced, 1);
    assert_eq!(phase, LazyPhase::Ready);
    assert!(reads > 0);
}

#[test]
fn held_lock_refuses_a_second_accessor() {
    let mut m = Mutex::new(5u32);
    let g = m.lock();
    for _ in 0..3 {
        assert!(m.try_lock().is_none());
    }
    assert_eq!(*g.get(), 5);
    m.unlock(g);
    assert!(m.try_lock().is_some());
}

#[test]
fn writes_under_the_lock_reach_the_next_holder() {
    let mut m = Mutex::new(1u32);
    let mut g = m.lock();
    g.set(9);
    m.unlock(g);
    let g = m.lock();
    assert_eq!(*g.get(), 9);
    m.unlock(g);
}

fn bump_unless_large(m: &mut Mutex<u32>) -> Result<(), u32> {
    let mut g = m.lock();
    let v = *g.get();
    if v > 10 {
        m.unlock(g);
        return Err(v);
    }
    g.set(v + 1);
    m.unlock(g);
    Ok(())
}

#[test]
fn lock_is_released_on_early_return() {
    let mut m = Mutex::new(11u32);
    assert_eq!(bump_unless_large(&mut m), Err(11));
    let g = m.try_lock();
    assert!(g.is_some());
    m.unlock(g.unwrap());
    let mut small = Mutex::new(1u32);
    assert_eq!(bump_unless_large(&mut small), Ok(()));
    assert_eq!(*small.lock().get(), 2);
}

use cached_fn::CachedFn;

fn seven() -> u32 {
    7
}

fn always_fails() -> Result<u32, &'static str> {
    Err("failed to compute")
}

fn always_works() -> Result<u32, &'static str> {
    Ok(42)
}

#[test]
fn counter_is_incremented_once_and_every_call_returns_one() {
    let mut counter: u32 = 0;
    let mut cell = CachedFn::<_, u32>::new(|| {
        counter += 1;
        counter
    });

    assert_eq!(*cell.call(), 1);
    assert_eq!(*cell.call(), 1);
    assert_eq!(*cell.call(), 1);

    assert!(cell.is_called());
    assert_eq!(counter, 1);
}

#[test]
fn many_calls_run_the_function_once() {
    let mut runs: u64 = 0;
    let mut cell = CachedFn::<_, u64>::new(|| {
        runs += 1;
        1000 + runs
    });
    let first: u64 = *cell.call();
    assert_eq!(first, 1001);
    let mut i: u32 = 0;
    while i < 100 {
        assert_eq!(*cell.call(), first);
        i += 1;
    }
    assert_eq!(cell.call_into(), 1001);
    assert_eq!(runs, 1);
}

#[test]
fn new_does_not_run_the_function() {
    let mut runs: u32 = 0;
    let cell = CachedFn::<_, u32>::new(|| {
        runs += 1;
        runs
    });
    assert!(cell.is_not_called());
    assert!(cell.as_called().is_none());
    assert!(cell.try_into_not_called().is_ok());
    assert_eq!(runs, 0);
}

#[test]
fn call_hands_out_a_reference_into_the_cell() {
    let mut cell = CachedFn::<_, u32>::new(seven);
    *cell.call() = 9;
    assert_eq!(*cell.call(), 9);
    assert_eq!(cell.as_called(), Some(&9));
    assert_eq!(cell.call_into(), 9);
}

#[test]
fn call_into_runs_a_pending_function() {
    let mut runs: u32 = 0;
    let cell = CachedFn::<_, u32>::new(|| {
        runs += 1;
        5
    });
    assert_eq!(cell.call_into(), 5);
    assert_eq!(runs, 1);
}

#[test]
fn call_into_returns_a_cached_result_without_running() {
    let mut runs: u32 = 0;
    let mut cell = CachedFn::<_, u32>::new(|| {
        runs += 1;
        5
    });
    assert_eq!(*cell.call(), 5);
    assert_eq!(cell.call_into(), 5);
    assert_eq!(runs, 1);
}

#[test]
fn cached_result_is_read_the_same_every_time() {
    let mut runs: u32 = 0;
    let mut cell = CachedFn::<_, u32>::new(|| -> Result<u32, &'static str> {
        runs += 1;
        Ok(10 * runs)
    });
    assert_eq!(cell.try_call().map(|v| *v), Ok(10));

    assert_eq!(cell.as_called(), Some(&10));
    assert_eq!(cell.as_called(), Some(&10));
    assert_eq!(cell.try_call().map(|v| *v), Ok(10));
    assert_eq!(cell.as_called(), Some(&10));
    assert_eq!(cell.poisoning_try_call().map(|v| *v), Ok(10));
    assert_eq!(cell.as_called(), Some(&10));
    assert!(cell.is_called());

    let cell = match cell.safe_try_call() {
        Ok(cell) => cell,
        Err(_) => panic!("a cell that holds a result yields it"),
    };
    assert_eq!(cell.as_called(), Some(&10));
    assert_eq!(cell.try_call_into(), Ok(10));
    assert_eq!(runs, 1);
}

#[test]
fn poisoning_try_call_poisons_on_error() {
    let mut cell = CachedFn::<_, u32>::new(always_fails);

    assert_eq!(cell.poisoning_try_call().map(|v| *v), Err("failed to compute"));

    assert!(cell.is_poisoned());
    assert!(!cell.is_called());
    assert!(!cell.is_not_called());
    assert!(cell.as_called().is_none());
    assert!(cell.as_not_called().is_none());
    assert!(cell.as_called_mut().is_none());
    assert!(cell.as_not_called_mut().is_none());
    match cell.try_into_called() {
        Ok(_) => panic!("a poisoned cell holds no result"),
        Err(cell) => match cell.try_into_not_called() {
            Ok(_) => panic!("a poisoned cell holds no function"),
            Err(cell) => assert!(cell.is_poisoned()),
        },
    }
}

#[test]
fn poisoning_try_call_caches_on_success() {
    let mut runs: u32 = 0;
    let mut cell = CachedFn::<_, u32>::new(|| -> Result<u32, &'static str> {
        runs += 1;
        Ok(42)
    });

    assert_eq!(cell.poisoning_try_call().map(|v| *v), Ok(42));
    assert!(cell.is_called());
    assert_eq!(cell.poisoning_try_call().map(|v| *v), Ok(42));
    assert_eq!(cell.try_into_called().ok(), Some(42));
    assert_eq!(runs, 1);
}

#[test]
fn try_call_retries_until_the_function_succeeds() {
    let mut tries: u32 = 0;
    let mut cell = CachedFn::<_, u32>::new(|| -> Result<u32, &'static str> {
        tries += 1;
        if tries < 3 {
            Err("not yet")
        } else {
            Ok(42)
        }
    });

    assert_eq!(cell.try_call().map(|v| *v), Err("not yet"));
    assert!(cell.is_not_called());
    assert_eq!(cell.try_call().map(|v| *v), Err("not yet"));
    assert!(cell.is_not_called());
    assert_eq!(cell.try_call().map(|v| *v), Ok(42));
    assert!(cell.is_called());

    assert_eq!(cell.try_call().map(|v| *v), Ok(42));
    assert_eq!(cell.try_into_called().ok(), Some(42));
    assert_eq!(tries, 3);
}

#[test]
fn try_call_never_poisons() {
    let mut cell = CachedFn::<_, u32>::new(always_fails);
    let mut i: u32 = 0;
    while i < 5 {
        assert!(cell.try_call().is_err());
        assert!(cell.is_not_called());
        assert!(!cell.is_poisoned());
        i += 1;
    }
}

#[test]
fn try_call_hands_out_a_reference_into_the_cell() {
    let mut cell = CachedFn::<_, u32>::new(always_works);
    match cell.try_call() {
        Ok(v) => *v += 1,
        Err(_) => panic!("the function succeeds"),
    }
    assert_eq!(cell.as_called(), Some(&43));
    match cell.poisoning_try_call() {
        Ok(v) => *v += 1,
        Err(_) => panic!("the result is cached"),
    }
    assert_eq!(cell.try_call_into(), Ok(44));
}

#[test]
fn try_call_into_returns_what_the_function_returns() {
    assert_eq!(CachedFn::<_, u32>::new(always_works).try_call_into(), Ok(42));
    assert_eq!(
        CachedFn::<_, u32>::new(always_fails).try_call_into(),
        Err("failed to compute")
    );
}

#[test]
fn safe_try_call_returns_the_error_and_no_cell() {
    let mut runs: u32 = 0;
    let cell = CachedFn::<_, u32>::new(|| -> Result<u32, &'static str> {
        runs += 1;
        Err("failed to compute")
    });
    match cell.safe_try_call() {
        Ok(_) => panic!("the function fails"),
        Err(err) => assert_eq!(err, "failed to compute"),
    }
    assert_eq!(runs, 1);
}

#[test]
fn safe_try_call_returns_a_called_cell_on_success() {
    let mut runs: u32 = 0;
    let cell = CachedFn::<_, u32>::new(|| -> Result<u32, &'static str> {
        runs += 1;
        Ok(42)
    });
    let cell = match cell.safe_try_call() {
        Ok(cell) => cell,
        Err(_) => panic!("the function succeeds"),
    };
    assert!(cell.is_called());
    assert!(!cell.is_poisoned());
    assert_eq!(cell.as_called(), Some(&42));
    let mut cell = match cell.safe_try_call() {
        Ok(cell) => cell,
        Err(_) => panic!("the result is cached"),
    };
    assert_eq!(cell.try_call().map(|v| *v), Ok(42));
    assert_eq!(cell.try_call_into(), Ok(42));
    assert_eq!(runs, 1);
}

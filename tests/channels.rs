use std::sync::Arc;
use std::time::Duration;

use source_monitor::{
    is_error_message, Origin, SharedState, Source, CHANNEL_CAPACITY, SOURCE_TICK_SECS,
    MONITOR_TICK_SECS,
};
use tokio::sync::mpsc;
use tokio::sync::Mutex;

fn runtime() -> tokio::runtime::Runtime {
    tokio::runtime::Builder::new_multi_thread()
        .worker_threads(2)
        .enable_all()
        .build()
        .unwrap()
}

#[test]
fn full_channel_makes_the_sender_wait() {
    assert_eq!(CHANNEL_CAPACITY, 10);
    assert_eq!(SOURCE_TICK_SECS, 2);
    assert_eq!(MONITOR_TICK_SECS, 5);
    runtime().block_on(async {
        let (tx, mut rx) = mpsc::channel::<String>(CHANNEL_CAPACITY);
        for i in 0..CHANNEL_CAPACITY {
            tx.send(format!("m{}", i)).await.unwrap();
        }
        let waited = tokio::time::timeout(Duration::from_millis(50), tx.send("late".to_string())).await;
        assert!(waited.is_err());
        assert!(matches!(tx.try_send("x".to_string()), Err(mpsc::error::TrySendError::Full(_))));
        assert_eq!(rx.recv().await.unwrap(), "m0");
        let resumed = tokio::time::timeout(Duration::from_millis(500), tx.send("late".to_string())).await;
        assert!(resumed.unwrap().is_ok());
        for i in 1..CHANNEL_CAPACITY {
            assert_eq!(rx.recv().await.unwrap(), format!("m{}", i));
        }
        assert_eq!(rx.recv().await.unwrap(), "late");
    });
}

#[test]
fn dropped_receiver_stops_the_source() {
    runtime().block_on(async {
        let (tx, rx) = mpsc::channel::<String>(CHANNEL_CAPACITY);
        drop(rx);
        let mut source = Source::new("Source2");
        let msg = source.on_tick();
        let delivered = tx.send(msg).await.is_ok();
        assert!(!delivered);
        let notice = source.on_send_result(delivered);
        assert_eq!(notice, Some("Source2 channel closed".to_string()));
        assert!(!source.is_running());
    });
}

#[test]
fn concurrent_increments_are_not_lost() {
    runtime().block_on(async {
        let state = Arc::new(Mutex::new(SharedState::new()));
        let mut handles = Vec::new();
        for origin in [Origin::First, Origin::Second] {
            let state = Arc::clone(&state);
            handles.push(tokio::spawn(async move {
                for i in 0..500u32 {
                    let msg = match (origin, i % 3) {
                        (_, 0) => "error encountered",
                        _ => "success",
                    };
                    let mut guard = state.lock().await;
                    assert!(guard.can_record());
                    guard.record(msg);
                    drop(guard);
                    tokio::task::yield_now().await;
                }
            }));
        }
        for h in handles {
            h.await.unwrap();
        }
        let guard = state.lock().await;
        assert_eq!(guard.success_count + guard.error_count, 1000);
        assert_eq!(guard.error_count, 2 * 167);
        assert!(is_error_message("error encountered"));
    });
}

use std::sync::atomic::{AtomicU32, Ordering};
use std::sync::Arc;
use postgres_mcp::error::ErrorKind;
use postgres_mcp::connection::{ConnectStep, ConnectionSlot};

#[test]
fn one_handshake_for_many_callers() {
    let mut slot: ConnectionSlot<u32> = ConnectionSlot::new();
    let mut attempts = 0;
    for _ in 0..8 {
        if slot.next_step() == ConnectStep::Handshake {
            attempts += 1;
            slot.complete(Ok(42)).unwrap();
        }
        assert_eq!(slot.client(), Some(&42));
    }
    assert_eq!(attempts, 1);
}

#[test]
fn failed_handshake_leaves_slot_empty() {
    let mut slot: ConnectionSlot<u32> = ConnectionSlot::new();
    assert_eq!(slot.next_step(), ConnectStep::Handshake);
    let e = slot.complete(Err("refused".to_string())).unwrap_err();
    assert_eq!(e.kind, ErrorKind::Connection);
    assert_eq!(e.message, "Failed to connect to PostgreSQL: refused");
    assert_eq!(slot.client(), None);
    assert_eq!(slot.next_step(), ConnectStep::Handshake);
    slot.complete(Ok(5)).unwrap();
    assert_eq!(slot.next_step(), ConnectStep::Reuse);
    assert_eq!(slot.client(), Some(&5));
}

#[test]
fn concurrent_callers_share_one_connection() {
    let rt = tokio::runtime::Runtime::new().unwrap();
    let slot: Arc<tokio::sync::Mutex<ConnectionSlot<u32>>> =
        Arc::new(tokio::sync::Mutex::new(ConnectionSlot::new()));
    let attempts = Arc::new(AtomicU32::new(0));
    let seen = rt.block_on(async {
        let tasks: Vec<_> = (0..6)
            .map(|_| {
                let slot = Arc::clone(&slot);
                let attempts = Arc::clone(&attempts);
                tokio::spawn(async move {
                    let mut guard = slot.lock().await;
                    if guard.next_step() == ConnectStep::Handshake {
                        attempts.fetch_add(1, Ordering::SeqCst);
                        tokio::task::yield_now().await;
                        guard.complete(Ok(9)).unwrap();
                    }
                    *guard.client().unwrap()
                })
            })
            .collect();
        let mut seen = Vec::new();
        for t in tasks {
            seen.push(t.await.unwrap());
        }
        seen
    });
    assert_eq!(seen, vec![9; 6]);
    assert_eq!(attempts.load(Ordering::SeqCst), 1);
}

use std::sync::{Arc, RwLock};

use tourney::broadcaster::{idle_rooms, TournamentBroadcaster};
use tourney::events::TournamentEvent;
use tourney::ids::ObjectId;

fn new_oid() -> ObjectId {
    let b = bson::oid::ObjectId::new().bytes();
    ObjectId::new(
        u32::from_be_bytes([b[0], b[1], b[2], b[3]]),
        u64::from_be_bytes([b[4], b[5], b[6], b[7], b[8], b[9], b[10], b[11]]),
    )
}

#[test]
fn test_broadcaster_new_creates_empty_rooms() {
    let broadcaster = TournamentBroadcaster::new();
    assert_eq!(broadcaster.room_count(), 0);
}

#[test]
fn test_subscribe_creates_room() {
    let mut broadcaster = TournamentBroadcaster::new();
    let tid = new_oid();

    let _rx = broadcaster.subscribe(&tid);

    assert_eq!(broadcaster.room_count(), 1);
    assert_eq!(broadcaster.subscriber_count(&tid), 1);
}

#[test]
fn test_broadcast_delivers_to_subscriber() {
    let mut broadcaster = TournamentBroadcaster::new();
    let tid = new_oid();
    let mut rx = broadcaster.subscribe(&tid);

    let event = TournamentEvent::TournamentPaused;
    broadcaster.broadcast(&tid, event.clone());

    let received = rx.try_recv().unwrap();
    assert_eq!(received, event);
}

#[test]
fn test_broadcast_delivers_to_multiple_subscribers() {
    let mut broadcaster = TournamentBroadcaster::new();
    let tid = new_oid();
    let mut rx1 = broadcaster.subscribe(&tid);
    let mut rx2 = broadcaster.subscribe(&tid);

    let event = TournamentEvent::TournamentResumed;
    broadcaster.broadcast(&tid, event.clone());

    assert_eq!(rx1.try_recv().unwrap(), event);
    assert_eq!(rx2.try_recv().unwrap(), event);
}

#[test]
fn test_broadcast_isolation_between_tournaments() {
    let mut broadcaster = TournamentBroadcaster::new();
    let tid1 = new_oid();
    let tid2 = new_oid();
    let mut rx1 = broadcaster.subscribe(&tid1);
    let mut rx2 = broadcaster.subscribe(&tid2);

    let event = TournamentEvent::TournamentPaused;
    broadcaster.broadcast(&tid1, event.clone());

    assert_eq!(rx1.try_recv().unwrap(), event);
    assert!(rx2.try_recv().is_err());
}

#[test]
fn test_broadcast_to_nonexistent_room_is_noop() {
    let broadcaster = TournamentBroadcaster::new();
    let tid = new_oid();

    broadcaster.broadcast(&tid, TournamentEvent::TournamentPaused);
    assert_eq!(broadcaster.room_count(), 0);
}

#[test]
fn test_cleanup_removes_empty_rooms() {
    let mut broadcaster = TournamentBroadcaster::new();
    let tid = new_oid();

    {
        let _rx = broadcaster.subscribe(&tid);
        assert_eq!(broadcaster.room_count(), 1);
    }

    broadcaster.cleanup();
    assert_eq!(broadcaster.room_count(), 0);
}

#[test]
fn test_cleanup_keeps_active_rooms() {
    let mut broadcaster = TournamentBroadcaster::new();
    let tid = new_oid();
    let _rx = broadcaster.subscribe(&tid);

    broadcaster.cleanup();
    assert_eq!(broadcaster.room_count(), 1);
}

#[test]
fn test_subscriber_count() {
    let mut broadcaster = TournamentBroadcaster::new();
    let tid = new_oid();

    assert_eq!(broadcaster.subscriber_count(&tid), 0);

    let _rx1 = broadcaster.subscribe(&tid);
    assert_eq!(broadcaster.subscriber_count(&tid), 1);

    let _rx2 = broadcaster.subscribe(&tid);
    assert_eq!(broadcaster.subscriber_count(&tid), 2);

    let _rx3 = broadcaster.subscribe(&tid);
    assert_eq!(broadcaster.subscriber_count(&tid), 3);
}

#[test]
fn test_broadcaster_is_send_and_sync() {
    fn assert_send_sync<T: Send + Sync>() {}
    assert_send_sync::<TournamentBroadcaster>();
    assert_send_sync::<Arc<TournamentBroadcaster>>();
}

#[test]
fn test_room_count_multiple_tournaments() {
    let mut broadcaster = TournamentBroadcaster::new();
    let _rx1 = broadcaster.subscribe(&new_oid());
    let _rx2 = broadcaster.subscribe(&new_oid());
    let _rx3 = broadcaster.subscribe(&new_oid());

    assert_eq!(broadcaster.room_count(), 3);
}

#[test]
fn test_cleanup_on_empty_broadcaster() {
    let mut broadcaster = TournamentBroadcaster::new();
    broadcaster.cleanup();
    assert_eq!(broadcaster.room_count(), 0);
}

#[test]
fn test_broadcast_after_all_receivers_dropped() {
    let mut broadcaster = TournamentBroadcaster::new();
    let tid = new_oid();
    let rx = broadcaster.subscribe(&tid);
    drop(rx);

    broadcaster.broadcast(&tid, TournamentEvent::TournamentPaused);
}

#[test]
fn test_subscriber_receives_events_in_order() {
    let mut broadcaster = TournamentBroadcaster::new();
    let tid = new_oid();
    let mut rx = broadcaster.subscribe(&tid);

    broadcaster.broadcast(&tid, TournamentEvent::TournamentPaused);
    broadcaster.broadcast(&tid, TournamentEvent::TournamentResumed);
    broadcaster.broadcast(
        &tid,
        TournamentEvent::VoteCast {
            match_id: "m1".to_string(),
            vote_counts: Vec::new(),
            total_needed: 3,
        },
    );

    assert_eq!(rx.try_recv().unwrap(), TournamentEvent::TournamentPaused);
    assert_eq!(rx.try_recv().unwrap(), TournamentEvent::TournamentResumed);
    assert!(matches!(
        rx.try_recv().unwrap(),
        TournamentEvent::VoteCast { .. }
    ));
}

#[test]
fn test_concurrent_subscribe_and_broadcast() {
    let runtime = tokio::runtime::Builder::new_multi_thread()
        .worker_threads(4)
        .enable_time()
        .build()
        .unwrap();
    let broadcaster = Arc::new(RwLock::new(TournamentBroadcaster::new()));
    let tid = new_oid();
    let received = runtime.block_on(async {
        let mut handles = vec![];
        for _ in 0..10 {
            let b = Arc::clone(&broadcaster);
            let t = tid;
            handles.push(tokio::spawn(async move {
                let mut rx = b.write().unwrap().subscribe(&t);
                b.read().unwrap().broadcast(&t, TournamentEvent::TournamentPaused);
                tokio::time::timeout(tokio::time::Duration::from_millis(100), rx.recv())
                    .await
                    .map(|r| r.is_ok())
                    .unwrap_or(false)
            }));
        }
        let mut all = true;
        for handle in handles {
            all &= handle.await.unwrap();
        }
        all
    });
    assert!(received);
    assert!(broadcaster.read().unwrap().room_count() > 0);
}

#[test]
fn idle_rooms_are_those_without_subscribers() {
    let counts = vec![((1, 1), 0), ((2, 2), 3), ((3, 3), 0)];
    assert_eq!(idle_rooms(&counts), vec![(1, 1), (3, 3)]);
}

#[test]
fn lagging_subscriber_is_told_and_keeps_receiving() {
    let mut broadcaster = TournamentBroadcaster::new();
    let tid = new_oid();
    let mut rx = broadcaster.subscribe(&tid);
    for _ in 0..150 {
        broadcaster.broadcast(&tid, TournamentEvent::TournamentPaused);
    }
    assert!(matches!(
        rx.try_recv(),
        Err(tokio::sync::broadcast::error::TryRecvError::Lagged(_))
    ));
    assert!(rx.try_recv().is_ok());
}

#[test]
fn cleanup_reports_counts_and_keeps_live_rooms() {
    let mut broadcaster = TournamentBroadcaster::new();
    let live = new_oid();
    let gone = new_oid();
    let _rx = broadcaster.subscribe(&live);
    drop(broadcaster.subscribe(&gone));
    let mut counts = broadcaster.cleanup();
    counts.sort();
    let mut expected = vec![(live.key(), 1), (gone.key(), 0)];
    expected.sort();
    assert_eq!(counts, expected);
    assert_eq!(broadcaster.room_count(), 1);
    assert_eq!(broadcaster.subscriber_count(&live), 1);
    assert_eq!(broadcaster.subscriber_count(&gone), 0);
}

use std::sync::Arc;

use microbus::bus::{
    open_positions_of, pending_of, pending_of_one, publish_to_senders, try_send_collect_pending,
    try_send_each, Bus, SendOutcome, TypeIndex, MAX_CAPACITY, NO_CAPACITY, SEAL_VIOLATION,
};
use microbus::component::AutoSubscription;
use microbus::error::MicrobusError;

#[derive(Debug, PartialEq)]
struct Tick(u64);

#[derive(Debug, PartialEq)]
struct Boot(usize);

#[test]
fn pending_are_the_positions_that_were_full() {
    let outcomes = vec![
        SendOutcome::Full,
        SendOutcome::Sent,
        SendOutcome::Closed,
        SendOutcome::Full,
        SendOutcome::Sent,
    ];
    let pending = pending_of(&outcomes);
    assert_eq!(pending.to_vec(), vec![0, 3]);
    assert_eq!(pending.len(), 2);
    assert_eq!(pending.split_last(), Some((vec![0], 3)));
    let none = pending_of(&vec![]);
    assert_eq!(none.to_vec(), Vec::<usize>::new());
    assert_eq!(none.split_last(), None);
}

#[test]
fn pending_list_grows_past_its_inline_room() {
    let outcomes = vec![SendOutcome::Full; 20];
    let pending = pending_of(&outcomes);
    assert_eq!(pending.to_vec(), (0..20).collect::<Vec<usize>>());
    let (init, last) = pending.split_last().unwrap();
    assert_eq!(init, (0..19).collect::<Vec<usize>>());
    assert_eq!(last, 19);
}

#[test]
fn open_positions_skip_the_closed() {
    assert_eq!(open_positions_of(&vec![false, true, false, false, true]).to_vec(), vec![0, 2, 3]);
    assert_eq!(open_positions_of(&vec![]).to_vec(), Vec::<usize>::new());
}

#[test]
fn publish_with_no_subscribers_is_a_noop() {
    let bus = Bus::new(2);
    let mut index: TypeIndex<Tick> = TypeIndex::new();
    let publication = bus.publish_type(&mut index, Tick(0));
    assert_eq!(publication.pending.to_vec(), Vec::<usize>::new());
    assert!(!publication.frozen);
    assert_eq!(*publication.payload, Tick(0));
}

#[test]
fn every_subscriber_gets_the_same_payload_once() {
    let bus = Bus::new(8);
    let mut index: TypeIndex<Boot> = TypeIndex::new();
    let mut receivers = Vec::new();
    for _ in 0..3 {
        receivers.push(bus.subscribe_type(&mut index).into_receiver());
    }
    assert_eq!(bus.debug_count_subscribers(&index), 3);
    let publication = bus.publish_type(&mut index, Boot(0));
    assert_eq!(publication.pending.len(), 0);
    for rx in receivers.iter_mut() {
        let got = rx.try_recv().expect("one payload per subscriber");
        assert!(Arc::ptr_eq(&got, &publication.payload));
        assert_eq!(*got, Boot(0));
        assert!(rx.try_recv().is_err());
    }
}

#[test]
fn publications_arrive_in_the_order_they_were_made() {
    let bus = Bus::new(8);
    let mut index: TypeIndex<Tick> = TypeIndex::new();
    let mut first = bus.subscribe_type(&mut index).into_receiver();
    let mut second = bus.subscribe_type(&mut index).into_receiver();
    for i in 0..5 {
        let publication = bus.publish_type(&mut index, Tick(i));
        assert_eq!(publication.pending.len(), 0);
    }
    for rx in [&mut first, &mut second] {
        for i in 0..5 {
            assert_eq!(*rx.try_recv().unwrap(), Tick(i));
        }
        assert!(rx.try_recv().is_err());
    }
}

#[test]
fn full_channels_are_handed_back_as_pending() {
    let bus = Bus::new(1);
    let mut index: TypeIndex<Tick> = TypeIndex::new();
    let mut slow = bus.subscribe_type(&mut index).into_receiver();
    let mut fast = bus.subscribe_type(&mut index).into_receiver();
    assert_eq!(bus.publish_type(&mut index, Tick(1)).pending.len(), 0);
    assert_eq!(*fast.try_recv().unwrap(), Tick(1));
    let publication = bus.publish_type(&mut index, Tick(2));
    assert_eq!(publication.pending.to_vec(), vec![0]);
    assert_eq!(*fast.try_recv().unwrap(), Tick(2));
    assert_eq!(*slow.try_recv().unwrap(), Tick(1));
    assert!(slow.try_recv().is_err());
}

#[test]
fn single_subscriber_fast_path() {
    let bus = Bus::new(1);
    let mut index: TypeIndex<Tick> = TypeIndex::new();
    let mut rx = bus.subscribe_type(&mut index).into_receiver();
    assert_eq!(bus.publish_type(&mut index, Tick(1)).pending.len(), 0);
    assert_eq!(bus.publish_type(&mut index, Tick(2)).pending.to_vec(), vec![0]);
    assert_eq!(*rx.try_recv().unwrap(), Tick(1));
    let arc = Arc::new(Tick(3));
    let pending = publish_to_senders(index.live_senders(), &arc);
    assert_eq!(pending.len(), 0);
    assert!(Arc::ptr_eq(&rx.try_recv().unwrap(), &arc));
}

#[test]
fn closed_subscribers_are_dropped_by_a_publish_while_open() {
    let bus = Bus::new(4);
    let mut index: TypeIndex<Tick> = TypeIndex::new();
    let gone = bus.subscribe_type(&mut index);
    let mut stays = bus.subscribe_type(&mut index).into_receiver();
    let also_gone = bus.subscribe_type(&mut index);
    drop(gone);
    drop(also_gone);
    assert_eq!(bus.get_open_senders_unsealed(&index).to_vec(), vec![1]);
    assert_eq!(bus.debug_count_subscribers(&index), 1);
    assert_eq!(index.live_senders().len(), 3);
    let publication = bus.publish_type(&mut index, Tick(9));
    assert!(!publication.frozen);
    assert_eq!(publication.pending.len(), 0);
    assert_eq!(index.live_senders().len(), 1);
    assert_eq!(*stays.try_recv().unwrap(), Tick(9));
    drop(stays);
    assert_eq!(bus.debug_count_subscribers(&index), 0);
    assert_eq!(bus.publish_type(&mut index, Tick(10)).pending.len(), 0);
    assert_eq!(index.live_senders().len(), 0);
}

#[test]
fn pending_positions_point_into_the_kept_list() {
    let bus = Bus::new(1);
    let mut index: TypeIndex<Tick> = TypeIndex::new();
    let gone = bus.subscribe_type(&mut index);
    let mut slow = bus.subscribe_type(&mut index).into_receiver();
    drop(gone);
    assert_eq!(bus.publish_type(&mut index, Tick(1)).pending.len(), 0);
    let publication = bus.publish_type(&mut index, Tick(2));
    assert_eq!(publication.pending.to_vec(), vec![0]);
    assert!(index.live_senders()[0].try_send(publication.payload.clone()).is_err());
    assert_eq!(*slow.try_recv().unwrap(), Tick(1));
    assert!(index.live_senders()[0].try_send(publication.payload).is_ok());
    assert_eq!(*slow.try_recv().unwrap(), Tick(2));
}

#[test]
fn attempts_tell_sent_full_and_closed_apart() {
    let bus = Bus::new(1);
    let mut index: TypeIndex<Tick> = TypeIndex::new();
    let mut full = bus.subscribe_type(&mut index).into_receiver();
    let closed = bus.subscribe_type(&mut index);
    let _open = bus.subscribe_type(&mut index).into_receiver();
    drop(closed);
    let arc = Arc::new(Tick(0));
    let first = try_send_each(index.live_senders(), &arc);
    assert_eq!(first, vec![SendOutcome::Sent, SendOutcome::Closed, SendOutcome::Sent]);
    let second = try_send_each(index.live_senders(), &arc);
    assert_eq!(second, vec![SendOutcome::Full, SendOutcome::Closed, SendOutcome::Full]);
    assert_eq!(*full.try_recv().unwrap(), Tick(0));
    let pending = try_send_collect_pending(index.live_senders(), &arc);
    assert_eq!(pending.to_vec(), vec![2]);
}

#[test]
fn freeze_moves_the_live_list_into_the_snapshot_once() {
    let bus = Bus::new(4);
    let mut index: TypeIndex<Tick> = TypeIndex::new();
    let _a = bus.subscribe_type(&mut index).into_receiver();
    let _b = bus.subscribe_type(&mut index).into_receiver();
    assert!(!index.is_frozen());
    assert!(index.get_frozen_senders().is_none());
    assert_eq!(index.live_senders().len(), 2);
    index.freeze();
    assert!(index.is_frozen());
    assert_eq!(index.get_frozen_senders().unwrap().len(), 2);
    assert_eq!(index.live_senders().len(), 0);
    index.freeze();
    assert_eq!(index.get_frozen_senders().unwrap().len(), 2);
    assert_eq!(index.live_senders().len(), 0);
}

#[test]
fn sealed_bus_publishes_to_the_snapshot() {
    let mut bus = Bus::new(4);
    let mut index: TypeIndex<Tick> = TypeIndex::new();
    let mut a = bus.subscribe_type(&mut index).into_receiver();
    let gone = bus.subscribe_type(&mut index);
    index.freeze();
    bus.seal();
    assert!(bus.is_sealed());
    bus.seal();
    assert!(bus.is_sealed());
    drop(gone);
    assert_eq!(bus.publish_type_sealed(&index, &Arc::new(Tick(4))).len(), 0);
    assert_eq!(*a.try_recv().unwrap(), Tick(4));
    let publication = bus.publish_type(&mut index, Tick(5));
    assert!(publication.frozen);
    assert_eq!(publication.pending.len(), 0);
    assert_eq!(*a.try_recv().unwrap(), Tick(5));
    assert!(a.try_recv().is_err());
}

#[test]
fn sealing_takes_the_snapshot_of_an_index() {
    let mut bus = Bus::new(4);
    let mut index: TypeIndex<Tick> = TypeIndex::new();
    let mut a = bus.subscribe_type(&mut index).into_receiver();
    let gone = bus.subscribe_type(&mut index);
    drop(gone);
    bus.seal_index(&mut index);
    assert!(!index.is_frozen());
    assert_eq!(index.live_senders().len(), 2);
    bus.seal();
    bus.seal_index(&mut index);
    assert!(index.is_frozen());
    assert_eq!(index.get_frozen_senders().unwrap().len(), 2);
    assert_eq!(index.live_senders().len(), 0);
    bus.seal_index(&mut index);
    assert_eq!(index.get_frozen_senders().unwrap().len(), 2);
    let publication = bus.publish_type(&mut index, Tick(5));
    assert!(publication.frozen);
    assert_eq!(publication.pending.len(), 0);
    assert_eq!(index.get_frozen_senders().unwrap().len(), 2);
    assert_eq!(*a.try_recv().unwrap(), Tick(5));
    assert!(a.try_recv().is_err());
}

#[test]
fn sealing_an_index_without_subscribers_gives_an_empty_snapshot() {
    let mut bus = Bus::new(4);
    let mut index: TypeIndex<Tick> = TypeIndex::new();
    bus.seal();
    bus.seal_index(&mut index);
    assert!(index.is_frozen());
    assert_eq!(index.get_frozen_senders().unwrap().len(), 0);
    let publication = bus.publish_type(&mut index, Tick(1));
    assert!(publication.frozen);
    assert_eq!(publication.pending.len(), 0);
}

#[test]
fn single_subscriber_with_a_full_channel_is_owed_the_send() {
    assert_eq!(pending_of_one(SendOutcome::Full).to_vec(), vec![0]);
    assert_eq!(pending_of_one(SendOutcome::Sent).to_vec(), Vec::<usize>::new());
    assert_eq!(pending_of_one(SendOutcome::Closed).to_vec(), Vec::<usize>::new());
    let mut bus = Bus::new(1);
    let mut index: TypeIndex<Tick> = TypeIndex::new();
    let mut only = bus.subscribe_type(&mut index).into_receiver();
    bus.seal();
    bus.seal_index(&mut index);
    assert_eq!(bus.publish_type(&mut index, Tick(1)).pending.len(), 0);
    let publication = bus.publish_type(&mut index, Tick(2));
    assert_eq!(publication.pending.to_vec(), vec![0]);
    assert_eq!(*only.try_recv().unwrap(), Tick(1));
    let owed = &index.get_frozen_senders().unwrap()[0];
    assert!(owed.try_send(publication.payload).is_ok());
    assert_eq!(*only.try_recv().unwrap(), Tick(2));
}

#[test]
fn frozen_index_is_published_to_by_its_snapshot_on_an_open_bus() {
    let bus = Bus::new(4);
    let mut index: TypeIndex<Tick> = TypeIndex::new();
    let mut a = bus.subscribe_type(&mut index).into_receiver();
    index.freeze();
    let publication = bus.publish_type(&mut index, Tick(6));
    assert!(publication.frozen);
    assert_eq!(*a.try_recv().unwrap(), Tick(6));
    match bus.try_subscribe_type(&mut index) {
        Err(e) => assert_eq!(
            e.message(),
            "subscribe_type called after bus sealed: subscription graph is immutable after startup"
        ),
        Ok(_) => panic!("an index with a snapshot takes no subscription"),
    }
    assert_eq!(index.get_frozen_senders().unwrap().len(), 1);
}

#[test]
fn subscribe_after_seal_is_refused_loudly() {
    let mut bus = Bus::new(4);
    let mut index: TypeIndex<Tick> = TypeIndex::new();
    assert!(bus.can_subscribe());
    assert!(bus.try_subscribe_type(&mut index).is_ok());
    bus.seal();
    assert!(!bus.can_subscribe());
    match bus.try_subscribe_type(&mut index) {
        Err(MicrobusError::Other(msg)) => {
            assert_eq!(msg, SEAL_VIOLATION);
            assert_eq!(
                msg,
                "subscribe_type called after bus sealed: subscription graph is immutable after startup"
            );
        }
        _ => panic!("a sealed bus takes no subscription"),
    }
    assert_eq!(index.live_senders().len(), 1);
    bus.seal_index(&mut index);
    assert!(bus.try_subscribe_type(&mut index).is_err());
    assert_eq!(index.get_frozen_senders().unwrap().len(), 1);
}

#[test]
fn capacity_must_fit_a_channel() {
    let mut index: TypeIndex<Tick> = TypeIndex::new();
    let zero = Bus::new(0);
    assert_eq!(zero.default_capacity(), 0);
    assert!(!zero.can_subscribe());
    match zero.try_subscribe_type(&mut index) {
        Err(e) => assert_eq!(e.message(), NO_CAPACITY),
        Ok(_) => panic!("no channel has capacity 0"),
    }
    assert!(!Bus::new(MAX_CAPACITY + 1).can_subscribe());
    assert!(Bus::new(MAX_CAPACITY).can_subscribe());
    assert_eq!(MAX_CAPACITY, usize::MAX >> 3);
    assert_eq!(index.live_senders().len(), 0);
}

#[test]
fn channel_has_the_capacity_of_the_bus() {
    let bus = Bus::new(3);
    let mut index: TypeIndex<Tick> = TypeIndex::new();
    let _rx = bus.subscribe_type(&mut index).into_receiver();
    let arc = Arc::new(Tick(0));
    for _ in 0..3 {
        assert_eq!(try_send_each(index.live_senders(), &arc), vec![SendOutcome::Sent]);
    }
    assert_eq!(try_send_each(index.live_senders(), &arc), vec![SendOutcome::Full]);
}

#[test]
fn types_do_not_see_each_other() {
    let bus = Bus::new(4);
    let mut ticks: TypeIndex<Tick> = TypeIndex::new();
    let mut boots: TypeIndex<Boot> = TypeIndex::new();
    let mut tick_rx = bus.subscribe_type(&mut ticks).into_receiver();
    let mut boot_rx = bus.subscribe_type(&mut boots).into_receiver();
    bus.publish_type(&mut ticks, Tick(1));
    bus.publish_type(&mut boots, Boot(2));
    bus.publish_type(&mut ticks, Tick(3));
    assert_eq!(*tick_rx.try_recv().unwrap(), Tick(1));
    assert_eq!(*tick_rx.try_recv().unwrap(), Tick(3));
    assert!(tick_rx.try_recv().is_err());
    assert_eq!(*boot_rx.try_recv().unwrap(), Boot(2));
    assert!(boot_rx.try_recv().is_err());
}

#[test]
fn auto_subscription_wraps_a_subscription() {
    let bus = Bus::new(4);
    let mut index: TypeIndex<Tick> = TypeIndex::new();
    let auto = AutoSubscription::new(bus.subscribe_type(&mut index));
    let mut rx = auto.into_inner().into_receiver();
    bus.publish_type(&mut index, Tick(4));
    assert_eq!(*rx.try_recv().unwrap(), Tick(4));
}

#[test]
fn awaited_send_reaches_a_pending_subscriber() {
    let bus = Bus::new(1);
    let mut index: TypeIndex<Tick> = TypeIndex::new();
    let mut rx = bus.subscribe_type(&mut index).into_receiver();
    bus.publish_type(&mut index, Tick(1));
    let publication = bus.publish_type(&mut index, Tick(2));
    let (init, last) = publication.pending.split_last().unwrap();
    assert!(init.is_empty());
    let tx = index.live_senders()[last].clone();
    let payload = publication.payload;
    assert!(!publication.frozen);
    let rt = tokio::runtime::Builder::new_current_thread().build().unwrap();
    rt.block_on(async move {
        let sender = tokio::spawn(async move { tx.send(payload).await.is_ok() });
        assert_eq!(*rx.recv().await.unwrap(), Tick(1));
        assert_eq!(*rx.recv().await.unwrap(), Tick(2));
        assert!(sender.await.unwrap());
    });
}

#[test]
fn kept_senders_stay_in_subscription_order() {
    let bus = Bus::new(4);
    let mut index: TypeIndex<Tick> = TypeIndex::new();
    let mut first = bus.subscribe_type(&mut index).into_receiver();
    let second = bus.subscribe_type(&mut index);
    let mut third = bus.subscribe_type(&mut index).into_receiver();
    drop(second);
    let arc = Arc::new(Tick(7));
    assert_eq!(bus.publish_type_unsealed(&mut index, &arc).len(), 0);
    assert_eq!(index.live_senders().len(), 2);
    assert_eq!(*first.try_recv().unwrap(), Tick(7));
    assert_eq!(*third.try_recv().unwrap(), Tick(7));
    assert!(index.live_senders()[1].try_send(arc.clone()).is_ok());
    assert!(first.try_recv().is_err());
    assert!(Arc::ptr_eq(&third.try_recv().unwrap(), &arc));
    let shared = bus.publish_shared(&mut index, arc.clone());
    assert!(Arc::ptr_eq(&shared.payload, &arc));
    assert!(Arc::ptr_eq(&first.try_recv().unwrap(), &arc));
}

#[test]
fn sealed_snapshot_keeps_closed_senders() {
    let mut bus = Bus::new(4);
    let mut index: TypeIndex<Tick> = TypeIndex::new();
    let gone = bus.subscribe_type(&mut index);
    let mut stays = bus.subscribe_type(&mut index).into_receiver();
    bus.seal();
    bus.seal_index(&mut index);
    bus.publish_type(&mut index, Tick(1));
    drop(gone);
    let publication = bus.publish_type(&mut index, Tick(2));
    assert_eq!(publication.pending.len(), 0);
    assert_eq!(index.get_frozen_senders().unwrap().len(), 2);
    assert_eq!(*stays.try_recv().unwrap(), Tick(1));
    assert_eq!(*stays.try_recv().unwrap(), Tick(2));
}

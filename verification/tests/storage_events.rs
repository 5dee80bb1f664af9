use phythyst::events::BitSet;
use phythyst::events::ComponentEvent;
use phythyst::events::EventChannel;
use phythyst::storage::Storage;

#[test]
fn storage_logs_insert_modify_remove() {
    let mut store: Storage<u64> = Storage::new();
    let mut reader = store.register_reader();
    assert!(!store.contains(3));

    assert_eq!(store.insert(3, 30), None);
    assert_eq!(store.insert(3, 31), Some(30));
    assert_eq!(store.get(3), Some(&31));
    assert_eq!(store.remove(3), Some(31));
    assert_eq!(store.remove(3), None);
    assert!(!store.contains(3));

    let evs = store.read_events(&mut reader);
    assert_eq!(
        evs,
        vec![
            ComponentEvent::Inserted(3),
            ComponentEvent::Modified(3),
            ComponentEvent::Removed(3),
        ]
    );
}

#[test]
fn readers_only_see_events_after_registration() {
    let mut ch = EventChannel::new();
    ch.write(ComponentEvent::Inserted(1));

    let mut reader = ch.register_reader();
    ch.write(ComponentEvent::Modified(2));
    ch.write(ComponentEvent::Removed(3));

    let evs = ch.read(&mut reader);
    assert_eq!(
        evs,
        vec![ComponentEvent::Modified(2), ComponentEvent::Removed(3)]
    );
    assert!(ch.read(&mut reader).is_empty());
}

#[test]
fn two_readers_consume_independently() {
    let mut ch = EventChannel::new();
    let mut r1 = ch.register_reader();
    let mut r2 = ch.register_reader();

    ch.write(ComponentEvent::Inserted(5));
    assert_eq!(ch.read(&mut r1), vec![ComponentEvent::Inserted(5)]);

    ch.write(ComponentEvent::Removed(5));
    assert_eq!(ch.read(&mut r1), vec![ComponentEvent::Removed(5)]);
    assert_eq!(
        ch.read(&mut r2),
        vec![ComponentEvent::Inserted(5), ComponentEvent::Removed(5)]
    );
}

#[test]
fn bitset_collects_only_enabled_kinds() {
    let evs = vec![
        ComponentEvent::Inserted(1),
        ComponentEvent::Modified(2),
        ComponentEvent::Removed(3),
    ];

    let mut inserted_only = BitSet::new();
    inserted_only.add_touched(&evs, true, false, false);
    assert!(inserted_only.has(1));
    assert!(!inserted_only.has(2));
    assert!(!inserted_only.has(3));

    let mut all = BitSet::new();
    all.add_touched(&evs, true, true, true);
    assert!(all.has(1));
    assert!(all.has(2));
    assert!(all.has(3));
    assert!(!all.has(0));
    assert!(!all.has(4));
}

#[test]
fn quiet_set_does_not_log() {
    let mut store: Storage<u64> = Storage::new();
    let mut reader = store.register_reader();
    store.insert(2, 7);
    store.set_quiet(2, 8);
    assert_eq!(store.get(2), Some(&8));
    let evs = store.read_events(&mut reader);
    assert_eq!(evs, vec![ComponentEvent::Inserted(2)]);
}

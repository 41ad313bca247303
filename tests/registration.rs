use listener_bridge::listener::{BarListener, FooListener, MyListener, UListener};
use listener_bridge::slots::SlotAllocator;
use listener_bridge::status::UStatus;
use listener_bridge::transport::{MyTransport, UTransport};

#[test]
fn foo_and_bar_scenario() {
    let mut t: MyTransport<FooListener> = MyTransport::new(100, 101);
    let a = t.register_listener(FooListener::new(100)).unwrap();
    assert_eq!(t.dispatch(a, 42), Some(142));
    let b = t.register_listener(FooListener::new(200)).unwrap();
    assert_eq!(t.dispatch(b, 5), Some(205));
    assert_ne!(a, b);
    assert_eq!((a, b), (1, 2));
}

#[test]
fn listener_reports() {
    assert_eq!(MyListener::new().on_msg(7), 7);
    assert_eq!(FooListener::new(100).on_msg(42), 142);
    assert_eq!(BarListener::new(300).on_msg(1), 301);
    assert_eq!(FooListener::new(u32::MAX).on_msg(u32::MAX), 2 * (u32::MAX as u64));
}

#[test]
fn capacity_exceeded_keeps_earlier_bindings() {
    let mut t: MyTransport<BarListener> = MyTransport::new(3, 4);
    for (k, v) in [10u32, 20, 30].iter().enumerate() {
        assert_eq!(t.register_listener(BarListener::new(*v)), Ok(k as u32 + 1));
    }
    assert_eq!(t.register_listener(BarListener::new(40)), Err(UStatus::CapacityExceeded));
    assert_eq!(t.register_listener(BarListener::new(50)), Err(UStatus::CapacityExceeded));
    assert_eq!(t.dispatch(1, 1), Some(11));
    assert_eq!(t.dispatch(2, 1), Some(21));
    assert_eq!(t.dispatch(3, 1), Some(31));
    assert_eq!(t.dispatch(4, 1), None);
}

#[test]
fn zero_capacity_refuses_first_registration() {
    let mut t: MyTransport<MyListener> = MyTransport::new(0, 1);
    assert_eq!(t.register_listener(MyListener::new()), Err(UStatus::CapacityExceeded));
    assert_eq!(t.dispatch(1, 9), None);
}

#[test]
fn unregistered_slot_is_noop() {
    let mut t: MyTransport<FooListener> = MyTransport::new(5, 6);
    assert_eq!(t.dispatch(0, 42), None);
    assert_eq!(t.dispatch(3, 42), None);
    t.register_listener(FooListener::new(1)).unwrap();
    assert_eq!(t.dispatch(0, 42), None);
    assert_eq!(t.dispatch(2, 42), None);
    assert!(t.resolve(2).is_none());
    assert_eq!(t.dispatch(1, 42), Some(43));
}

#[test]
fn missing_entry_point_is_invalid_slot() {
    let mut t: MyTransport<FooListener> = MyTransport::new(5, 2);
    assert_eq!(t.register_listener(FooListener::new(1)), Ok(1));
    assert_eq!(t.register_listener(FooListener::new(2)), Err(UStatus::InvalidSlot));
    assert_eq!(t.dispatch(2, 0), None);
    assert_eq!(t.dispatch(1, 0), Some(1));
}

#[test]
fn distinct_slots_for_distinct_listeners() {
    let mut t: MyTransport<FooListener> = MyTransport::new(50, 51);
    let mut slots = Vec::new();
    for v in 0..50u32 {
        slots.push(t.register_listener(FooListener::new(v * 1000)).unwrap());
    }
    for (i, s) in slots.iter().enumerate() {
        for (j, s2) in slots.iter().enumerate() {
            if i != j {
                assert_ne!(s, s2);
            }
        }
        assert_eq!(t.dispatch(*s, 7), Some(i as u64 * 1000 + 7));
    }
}

#[test]
fn payload_extremes_preserved() {
    let mut t: MyTransport<MyListener> = MyTransport::new(1, 2);
    let s = t.register_listener(MyListener::new()).unwrap();
    assert_eq!(t.dispatch(s, 0), Some(0));
    assert_eq!(t.dispatch(s, u32::MAX), Some(u32::MAX as u64));
}

#[test]
fn allocator_issues_in_order_then_stops() {
    let mut a = SlotAllocator::new(2);
    assert_eq!(a.next_id(), Ok(1));
    assert_eq!(a.next_id(), Ok(2));
    assert_eq!(a.next_id(), Err(UStatus::CapacityExceeded));
}

#[test]
fn largest_capacity_allocator() {
    let mut a = SlotAllocator::new(u32::MAX);
    assert_eq!(a.next_id(), Ok(1));
}

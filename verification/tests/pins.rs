use pins::pin::Pin;
use pins::registry::{RecordingTracer, Registry};
use pins::untraced::{untraced_take, HeapObject, HeapRef, UntracedDefault, UntracedFrom};

fn visited_ids(tracer: &RecordingTracer<HeapRef>) -> Vec<u64> {
    tracer.values().iter().map(|r| r.id()).collect()
}

#[test]
fn scalar_transfer_round_trip() {
    let mut slot: Vec<u64> = vec![1, 2, 3];
    let taken = untraced_take(&mut slot);
    assert_eq!(taken, vec![1, 2, 3]);
    assert!(slot.is_empty());
}

#[test]
fn untraced_default_vec_is_empty() {
    let empty: Vec<u64> = Vec::untraced_default();
    assert!(empty.is_empty());
}

#[test]
fn sequence_transfer_preserves_order() {
    let objs = vec![HeapObject::new(10), HeapObject::new(20), HeapObject::new(30)];
    let refs: Vec<HeapRef> = UntracedFrom::untraced_from(objs.as_slice());
    let ids: Vec<u64> = refs.iter().map(|r| r.id()).collect();
    assert_eq!(ids, vec![10, 20, 30]);
}

#[test]
fn reference_transfer_keeps_identity_and_source() {
    let obj = HeapObject::new(7);
    let first: HeapRef = UntracedFrom::untraced_from(&obj);
    let second: HeapRef = UntracedFrom::untraced_from(&first);
    assert_eq!(first.id(), 7);
    assert_eq!(second.id(), 7);
    // the borrowed sources still own their original relationships
    assert_eq!(obj.id(), 7);
    assert_eq!(first.id(), 7);
}

#[test]
fn lifo_nesting_traverse_order() {
    let mut reg: Registry<HeapRef> = Registry::new();
    assert!(reg.initialize());

    let a = HeapObject::new(1);
    let b = HeapObject::new(2);
    let c = HeapObject::new(3);
    let mut pin_a = Pin::new();
    let mut pin_b = Pin::new();
    let mut pin_c = Pin::new();
    pin_a.pin(&mut reg, &a);
    pin_b.pin(&mut reg, &b);
    pin_c.pin(&mut reg, &c);

    let mut tracer = RecordingTracer::new();
    reg.trace(&mut tracer);
    assert_eq!(visited_ids(&tracer), vec![3, 2, 1]);

    pin_c.unpin(&mut reg);
    let mut tracer = RecordingTracer::new();
    reg.trace(&mut tracer);
    assert_eq!(visited_ids(&tracer), vec![2, 1]);

    pin_b.unpin(&mut reg);
    pin_a.unpin(&mut reg);
}

#[test]
fn exact_visitation_skips_destroyed() {
    let mut reg: Registry<HeapRef> = Registry::new();
    assert!(reg.initialize());

    let a = HeapObject::new(11);
    let b = HeapObject::new(22);
    let mut pin_a = Pin::new();
    let mut pin_b = Pin::new();
    pin_a.pin(&mut reg, &a);
    pin_b.pin(&mut reg, &b);
    pin_b.unpin(&mut reg);

    let mut tracer = RecordingTracer::new();
    reg.trace(&mut tracer);
    // the live value is visited exactly once; the destroyed one not at all
    assert_eq!(visited_ids(&tracer), vec![11]);
}

#[test]
fn restoration_on_early_exit() {
    let mut reg: Registry<HeapRef> = Registry::new();
    assert!(reg.initialize());

    let outer = HeapObject::new(100);
    let mut pin_outer = Pin::new();
    pin_outer.pin(&mut reg, &outer);

    let mut before = RecordingTracer::new();
    reg.trace(&mut before);

    // a nested scope pins twice and then exits early: both of its
    // handles unpin, newest first, before control leaves the scope
    let x = HeapObject::new(101);
    let y = HeapObject::new(102);
    let mut pin_x = Pin::new();
    let mut pin_y = Pin::new();
    pin_x.pin(&mut reg, &x);
    pin_y.pin(&mut reg, &y);
    pin_y.unpin(&mut reg);
    pin_x.unpin(&mut reg);

    let mut after = RecordingTracer::new();
    reg.trace(&mut after);
    assert_eq!(visited_ids(&before), visited_ids(&after));
    assert_eq!(visited_ids(&after), vec![100]);

    pin_outer.unpin(&mut reg);
}

#[test]
fn empty_chain_traverse_is_noop() {
    let mut reg: Registry<HeapRef> = Registry::new();
    assert!(reg.initialize());
    let mut tracer = RecordingTracer::new();
    reg.trace(&mut tracer);
    assert!(tracer.values().is_empty());
}

#[test]
fn double_initialize_rejected() {
    let mut reg: Registry<HeapRef> = Registry::new();
    assert!(!reg.is_initialized());
    assert!(reg.initialize());
    assert!(reg.is_initialized());
    // the second initialization is rejected, not silently absorbed
    assert!(!reg.initialize());

    // and the rejection left the chain intact
    let obj = HeapObject::new(5);
    let mut pin = Pin::new();
    pin.pin(&mut reg, &obj);
    assert!(!reg.initialize());
    let mut tracer = RecordingTracer::new();
    reg.trace(&mut tracer);
    assert_eq!(visited_ids(&tracer), vec![5]);
    pin.unpin(&mut reg);
}

#[test]
fn pin_returns_borrowed_view() {
    let mut reg: Registry<HeapRef> = Registry::new();
    assert!(reg.initialize());
    let obj = HeapObject::new(42);
    let mut pin = Pin::new();
    let view = pin.pin(&mut reg, &obj);
    assert_eq!(view.id(), 42);
    pin.unpin(&mut reg);
}

#[test]
fn pin_untraced_after_scalar_transfer() {
    let mut reg: Registry<Vec<u64>> = Registry::new();
    assert!(reg.initialize());
    let mut slot: Vec<u64> = vec![8, 9];
    let taken = untraced_take(&mut slot);
    assert!(slot.is_empty());
    let mut pin = Pin::new();
    let view = pin.pin_untraced(&mut reg, taken);
    assert_eq!(view, &vec![8, 9]);
    pin.unpin(&mut reg);
}

#[test]
fn pinned_sequence_traverse() {
    let mut reg: Registry<Vec<HeapRef>> = Registry::new();
    assert!(reg.initialize());
    let objs = vec![HeapObject::new(1), HeapObject::new(2)];
    let mut pin = Pin::new();
    let view: &Vec<HeapRef> = pin.pin(&mut reg, objs.as_slice());
    let ids: Vec<u64> = view.iter().map(|r| r.id()).collect();
    assert_eq!(ids, vec![1, 2]);
    pin.unpin(&mut reg);
}

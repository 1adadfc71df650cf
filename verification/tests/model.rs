use late_init::builder::Builder;
use late_init::markers::AutoInit;
use late_init::markers::FillDefault;
use late_init::markers::InitSt;
use late_init::text::dec_str;

fn fresh(n: usize) -> Builder<u64> {
    Builder::new(vec![None; n])
}

#[test]
fn all_set_orders_finalize_identically() {
    let orders: [[usize; 3]; 6] =
        [[0, 1, 2], [0, 2, 1], [1, 0, 2], [1, 2, 0], [2, 0, 1], [2, 1, 0]];
    let values: [u64; 3] = [1, 2, 3];
    for order in orders.iter() {
        let mut b = fresh(3);
        for &i in order.iter() {
            b = b.set(i, values[i]);
        }
        assert_eq!(b.finish(), vec![1, 2, 3]);
    }
}

#[test]
fn flags_track_fields_written() {
    let b = fresh(2);
    assert!(!b.can_finish());
    let b = b.set(0, 5);
    assert!(!b.can_finish());
    let b = b.set(1, 6);
    assert!(b.can_finish());
    assert_eq!(b.finish(), vec![5, 6]);
}

#[test]
fn missing_required_field_blocks_finish() {
    let b: Builder<u64> = Builder::new(vec![None, Some(9)]);
    let b = b.set(1, 4);
    assert!(!b.can_finish());
    let b2: Builder<u64> = Builder::new(vec![None, Some(9)]);
    let b2 = b2.set(0, 3);
    assert!(b2.can_finish());
}

#[test]
fn unset_defaultable_field_gets_its_default() {
    let b: Builder<u64> = Builder::new(vec![None, None, Some(42)]);
    let b = b.set(0, 7);
    let b = b.set(1, 8);
    assert!(b.can_finish());
    assert_eq!(b.finish(), vec![7, 8, 42]);
}

#[test]
fn set_defaultable_field_keeps_written_value() {
    let b: Builder<u64> = Builder::new(vec![None, Some(42)]);
    let b = b.set(0, 1);
    let b = b.set(1, 2);
    assert_eq!(b.finish(), vec![1, 2]);
}

#[test]
fn decimal_rendering_exact_values() {
    assert_eq!(dec_str(0).as_str(), "0");
    assert_eq!(dec_str(7).as_str(), "7");
    assert_eq!(dec_str(10).as_str(), "10");
    assert_eq!(dec_str(12345).as_str(), "12345");
}

#[test]
fn auto_init_fills_unset_slot_with_default() {
    let slot: InitSt<u64, false> = InitSt(None);
    let filled = slot.init();
    assert_eq!(filled.0, Some(0));
}

#[test]
fn auto_init_keeps_written_slot() {
    let slot: InitSt<u64, true> = InitSt(Some(7));
    let kept = slot.init();
    assert_eq!(kept.0, Some(7));
}

#[test]
fn fill_default_values() {
    assert_eq!(<u64 as FillDefault>::fill(), 0);
    assert_eq!(<bool as FillDefault>::fill(), false);
}

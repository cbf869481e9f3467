use hexahedron::orient::{rotate_coord, up_and_forward_angle, Direction};
use hexahedron::bit::{GetBit, InvertBit, MoveBits, SetBit};
use hexahedron::bitflags::{BitFlags, BitFlags128, BitFlags16, BitFlags8};
use hexahedron::callback_scheduler::{Scheduler as GroupScheduler, SchedulerNode};
use hexahedron::graph::{Graph, NodeId};
use hexahedron::layer::{precedes, sort_layers, Layer};
use hexahedron::object_pool::ObjectPool;
use hexahedron::orient::{pack_flip_and_rotation, unpack_flip_and_rotation, Flip, Rotation};
use hexahedron::pool_id::{PoolId, POOL_ID_MAX};
use hexahedron::time::{Duration, Instant};
use hexahedron::unordered_vec::UnorderedVec;

#[test]
fn object_pool_insert_get_remove() {
    let mut pool = ObjectPool::<u32>::new();
    assert!(pool.is_empty());
    let a = pool.insert(10);
    let b = pool.insert(20);
    assert_eq!(pool.len(), 2);
    assert_eq!(pool.get(a), Some(&10));
    assert_eq!(pool.get(b), Some(&20));
    assert_eq!(pool.remove(a), 10);
    assert_eq!(pool.len(), 1);
    assert_eq!(pool.replace(b, 21), 20);
    assert_eq!(pool.get(b), Some(&21));
    if let Some(v) = pool.get_mut(b) {
        *v = 22;
    }
    assert_eq!(pool.get(b), Some(&22));
    assert!(a.is_non_null());
    assert!(PoolId::<&'static u32>::null().is_null());
}

#[test]
fn object_pool_ids_carry_index_and_pool() {
    let mut pool = ObjectPool::<u8>::new();
    let a = pool.insert(1);
    assert_eq!(a.index(), 0);
    assert_eq!(a.pool_id(), pool.id());
    let b = pool.insert(2);
    assert_eq!(b.index(), 1);
    assert_ne!(a.id(), b.id());
    let mut c = a;
    let old = c.swap_null();
    assert_eq!(old.id(), a.id());
    assert!(c.is_null());
}

#[test]
fn object_pool_iter_drain_pop() {
    let mut pool = ObjectPool::<u32>::new();
    pool.insert(1);
    pool.insert(2);
    pool.insert(3);
    let mut seen: Vec<u32> = pool.iter().into_iter().map(|(_, v)| *v).collect();
    seen.sort();
    assert_eq!(seen, vec![1, 2, 3]);
    assert!(pool.pop().is_some());
    assert_eq!(pool.len(), 2);
    let mut drained = pool.drain();
    drained.sort();
    assert_eq!(drained.len(), 2);
    assert!(pool.is_empty());
    assert_eq!(pool.pop(), None);
}

#[test]
fn ids_of_other_pools_are_not_found() {
    let mut a = ObjectPool::<u8>::new();
    let id = a.insert(1);
    assert!(a.id() < POOL_ID_MAX);
    assert_eq!(id.pool_id(), a.id());
    assert_eq!(a.get(PoolId::null()), None);
}

#[test]
fn unordered_vec_get_replace_iter() {
    let mut v = UnorderedVec::<&'static str>::new();
    let a = v.insert("a");
    let b = v.insert("b");
    let c = v.insert("c");
    assert_eq!(*v.get(b), "b");
    assert_eq!(v.replace(b, "B"), "b");
    assert_eq!(v.remove(a), "a");
    assert_eq!(*v.get(c), "c");
    assert_eq!(*v.get(b), "B");
    *v.get_mut(c) = "C";
    let mut all: Vec<&str> = v.iter().into_iter().copied().collect();
    all.sort();
    assert_eq!(all, vec!["B", "C"]);
    assert_eq!(v.len(), 2);
    assert!(!v.is_empty());
}

#[test]
fn graph_connections() {
    let mut graph = Graph::<u8>::new();
    let a = graph.insert(1);
    let b = graph.insert(2);
    let c = graph.insert_with(3, &[a, b]);
    assert!(graph.check_connected(c, a, false));
    assert!(graph.check_connected(c, b, false));
    assert!(!graph.check_connected(a, c, false));
    assert!(graph.check_connected(a, c, true));
    let conn = graph.connect(a, b);
    assert!(graph.check_connected(a, b, false));
    graph.disconnect(conn);
    assert!(!graph.check_connected(a, b, false));
    let (_ab, _ba) = graph.two_way_connect(a, b);
    assert!(graph.check_connected(a, b, false));
    assert!(graph.check_connected(b, a, false));
}

#[test]
fn layers_sort_by_level_then_opacity() {
    let mut layers = vec![
        Layer::Transparent(1),
        Layer::Transparent(3),
        Layer::Opaque(3),
        Layer::Opaque(1),
        Layer::Transparent(0),
    ];
    sort_layers(&mut layers);
    assert_eq!(
        layers,
        vec![
            Layer::Transparent(0),
            Layer::Opaque(1),
            Layer::Transparent(1),
            Layer::Opaque(3),
            Layer::Transparent(3),
        ]
    );
    assert!(precedes(Layer::Opaque(2), Layer::Transparent(2)));
    assert!(!precedes(Layer::Transparent(2), Layer::Opaque(2)));
    assert!(precedes(Layer::Transparent(1), Layer::Opaque(2)));
    assert!(Layer::Opaque(2) < Layer::Transparent(2));
    assert_eq!(Layer::Transparent(7).level(), 7);
}

#[test]
fn flip_and_rotation_pack() {
    let packed = pack_flip_and_rotation(Flip(5), Rotation(17));
    assert_eq!(packed, 5 + 17 * 8);
    let (f, r) = unpack_flip_and_rotation(packed);
    assert_eq!(f, Flip(5));
    assert_eq!(r, Rotation(17));
}

#[test]
fn bits_set_get_invert() {
    let v = 0u8.set_bit(3u32, true);
    assert_eq!(v, 0b1000);
    assert!(v.get_bit(3u32));
    assert!(!v.get_bit(2u32));
    assert_eq!(v.invert_bit(0u32), 0b1001);
    assert_eq!(0xffu8.remove_bit(7u32), 0x7f);
    assert_eq!(0u16.add_bit(15u32), 0x8000);
    assert_eq!(0b1111_0000u8.get_bitmask(4..8), 0b1111);
    assert_eq!(0b1010_0000u8.delete_bitmask(5..8), 0);
    assert_eq!(0u8.set_bitmask(0..4, 0xff), 0x0f);
}

#[test]
fn bits_move_in_turn() {
    assert_eq!(0b10u8.move_bits(&[1u8, 0u8]), 0b11);
    assert_eq!(0b01u8.move_bits(&[1u8, 0u8]), 0b00);
    assert_eq!(0b10u8.move_bits_rev(&[0u8, 1u8]), 0b11);
}

#[test]
fn bit_flags_set_and_get() {
    let mut flags = BitFlags8(0);
    assert!(!flags.set(3, true));
    assert!(flags.get(3));
    assert!(flags.set(3, false));
    assert_eq!(flags.0, 0);
    flags.set(0, true);
    let all = flags.iter();
    assert_eq!(all.len(), 8);
    assert!(all[0] && !all[1]);
    assert_eq!(BitFlags16::bit_size(), 16);
    let mut big = BitFlags128(0);
    big.set(127, true);
    assert!(big.get(127));
    assert_eq!(big.0, 1u128 << 127);
}

#[test]
fn grouped_scheduler_pops_earliest_group() {
    let mut s = GroupScheduler::<u32>::new();
    s.schedule(Instant::from_nanos(30), 3);
    s.schedule(Instant::from_nanos(10), 1);
    s.schedule(Instant::from_nanos(10), 11);
    s.schedule_after_from(Instant::from_nanos(5), Duration::from_nanos(15), 2);
    assert_eq!(s.len(), 3);
    assert!(s.pop_due(Instant::from_nanos(5)).is_none());
    let (t, node) = s.pop_due(Instant::from_nanos(25)).unwrap();
    assert_eq!(t.as_nanos(), 10);
    let got: Vec<u32> = node.callbacks_in_order().into_iter().copied().collect();
    assert_eq!(got, vec![1, 11]);
    let (t, _) = s.pop_due(Instant::from_nanos(25)).unwrap();
    assert_eq!(t.as_nanos(), 20);
    assert!(s.pop_due(Instant::from_nanos(25)).is_none());
    assert!(!s.is_empty());
}

#[test]
fn scheduler_node_push_keeps_order() {
    let mut node = SchedulerNode::<u8>::Emtpy;
    node.push(1);
    node.push(2);
    node.push(3);
    let got: Vec<u8> = node.callbacks_in_order().into_iter().copied().collect();
    assert_eq!(got, vec![1, 2, 3]);
}

#[test]
fn grouped_scheduler_clock_scheduling() {
    let mut s = GroupScheduler::<u32>::new();
    s.schedule_after(Duration::from_secs(3600), 7);
    assert_eq!(s.len(), 1);
    assert!(s.pop_due(hexahedron::time::now()).is_none());
}

#[test]
fn coordinates_rotate() {
    assert_eq!(rotate_coord(Rotation(0), (1, 2, 3)), (1, 2, 3));
    assert_eq!(rotate_coord(Rotation(4), (1, 2, 3)), (2, -3, -1));
    assert_eq!(rotate_coord(Rotation(1), (1, 2, 3)), (-3, 2, 1));
    assert_eq!(rotate_coord(Rotation(23), (1i64, 2, 3)), (-3, 1, -2));
    assert_eq!(Rotation(13).angle(), 1);
    assert_eq!(Rotation(13).up(), Direction::NegX);
    assert_eq!(up_and_forward_angle(Direction::PosY, Direction::NegZ), Some(0));
    assert_eq!(up_and_forward_angle(Direction::PosY, Direction::NegY), None);
    assert_eq!(up_and_forward_angle(Direction::NegX, Direction::PosZ), Some(1));
}

#[test]
fn pool_into_iter_hands_out_every_value() {
    let mut pool = ObjectPool::<u32>::new();
    pool.insert(4);
    pool.insert(5);
    let mut it = pool.into_iter();
    assert_eq!(it.size_hint(), (2, Some(2)));
    let mut got = vec![it.next().unwrap(), it.next().unwrap()];
    got.sort();
    assert_eq!(got, vec![4, 5]);
    assert_eq!(it.next(), None);
}

#[test]
fn bit_flags_as_text() {
    assert_eq!(BitFlags8(0b1010_0001).to_string(), "BitFlags8(10100001)");
    assert_eq!(BitFlags16(0x0102).to_string(), "BitFlags16(00000001 00000010)");
    assert_eq!(
        hexahedron::bitflags::BitFlags32(0x8000_00ff).to_string(),
        "BitFlags32(10000000 00000000 00000000 11111111)"
    );
    let text = BitFlags128(1).to_string();
    assert!(text.starts_with("BitFlags128(00000000 "));
    assert!(text.ends_with(" 00000001)"));
    assert_eq!(text.len(), "BitFlags128()".len() + 16 * 8 + 15);
}

#[test]
fn bit_flags_operators() {
    let a = BitFlags8(0b1100);
    let b = BitFlags8(0b1010);
    assert_eq!(a | b, BitFlags8(0b1110));
    assert_eq!(a & b, BitFlags8(0b1000));
    assert_eq!(a ^ b, BitFlags8(0b0110));
    assert_eq!(a - b, BitFlags8(0b0100));
    assert_eq!(!a, BitFlags8(0b1111_0011));
    assert_eq!(a | 0b1u8, BitFlags8(0b1101));
    assert_eq!(a - 0b100u8, BitFlags8(0b1000));
    assert_eq!(*a, 0b1100u8);
    assert!(a[3]);
    assert!(!a[0]);
    assert!(!a[9]);
    let big = BitFlags128(1) | BitFlags128(1u128 << 100);
    assert!(big[100]);
    assert_eq!(*big, 1 | (1u128 << 100));
}

#[test]
fn pool_ids_as_text() {
    assert_eq!(PoolId::<&'static u8>::null().to_string(), "PoolId(null)");
    let mut pool = ObjectPool::<u8>::new();
    let a = pool.insert(1);
    let b = pool.insert(2);
    assert_eq!(a.to_string(), format!("PoolId(pool_id={},index=0,generation=0)", pool.id()));
    assert_eq!(b.to_string(), format!("PoolId(pool_id={},index=1,generation=0)", pool.id()));
    pool.remove(a);
    let c = pool.insert(3);
    assert_eq!(c.to_string(), format!("PoolId(pool_id={},index=0,generation=1)", pool.id()));
}

#[test]
fn indexing_and_node_values() {
    let mut pool = ObjectPool::<u32>::new();
    let id = pool.insert(11);
    assert_eq!(pool[id], 11);
    let mut v = UnorderedVec::<char>::new();
    let s = v.insert('x');
    assert_eq!(v[s], 'x');
    let mut node = hexahedron::graph::Node::new(5u8);
    *node += 1;
    assert_eq!(*node, 6);
    assert_eq!(node.value, 6);
}

#[test]
fn object_pool_reuses_freed_slot_in_next_generation() {
    let mut pool = ObjectPool::<u32>::new();
    let a = pool.insert(1);
    let _b = pool.insert(2);
    let c = pool.insert(3);
    assert_eq!((a.index(), a.generation()), (0, 0));
    assert_eq!(c.index(), 2);
    assert_eq!(pool.remove(a), 1);
    let d = pool.insert(4);
    assert_eq!(d.index(), 0);
    assert_eq!(d.generation(), 1);
    assert_eq!(d.pool_id(), pool.id());
    assert_eq!(pool.get(d), Some(&4));
    let e = pool.insert(5);
    assert_eq!((e.index(), e.generation()), (3, 0));
}

#[test]
fn object_pool_pop_frees_the_last_stored_slot() {
    let mut pool = ObjectPool::<u32>::new();
    let _a = pool.insert(1);
    let b = pool.insert(2);
    assert_eq!(pool.pop(), Some(2));
    let c = pool.insert(3);
    assert_eq!(c.index(), b.index());
    assert_eq!(c.generation(), b.generation() + 1);
    assert_eq!(pool.get(c), Some(&3));
}

#[test]
fn null_and_foreign_ids_are_not_keys() {
    let mut a = ObjectPool::<u8>::new();
    let id = a.insert(7);
    let mut b = ObjectPool::<u8>::new();
    while b.id() == a.id() {
        b = ObjectPool::<u8>::new();
    }
    let foreign = b.insert(9);
    assert_eq!(a.get(PoolId::null()), None);
    assert_eq!(a.get(foreign), None);
    assert!(a.get_mut(foreign).is_none());
    assert_eq!(a.get(id), Some(&7));
    assert_eq!(a.reconstruct_id(id.index(), id.generation()), id);
}

#[test]
fn first_graph_node_is_slot_zero() {
    let mut graph = Graph::<&'static str>::new();
    let d = graph.insert("d");
    assert_eq!(d, NodeId::from_raw(0));
    let c = graph.insert_with("c", &[d]);
    assert_eq!(c, NodeId::from_raw(1));
    let b = graph.insert_with("b", &[c, d]);
    assert_eq!(b, NodeId::from_raw(2));
    assert!(graph.check_connected(b, d, false));
    assert!(!graph.check_connected(d, b, false));
}

#[test]
fn rotations_turn_up_and_are_distinct_proper_maps() {
    let unit = |d: Direction| -> (i64, i64, i64) {
        match d {
            Direction::PosX => (1, 0, 0),
            Direction::NegX => (-1, 0, 0),
            Direction::PosY => (0, 1, 0),
            Direction::NegY => (0, -1, 0),
            Direction::PosZ => (0, 0, 1),
            Direction::NegZ => (0, 0, -1),
        }
    };
    let mut images = Vec::new();
    for n in 0..24u8 {
        let r = Rotation(n);
        assert_eq!(rotate_coord(r, (0i64, 1, 0)), unit(r.up()));
        let a = rotate_coord(r, (1i64, 0, 0));
        let b = rotate_coord(r, (0i64, 1, 0));
        let c = rotate_coord(r, (0i64, 0, 1));
        let det = a.0 * (b.1 * c.2 - c.1 * b.2) - b.0 * (a.1 * c.2 - c.1 * a.2) + c.0 * (a.1 * b.2 - b.1 * a.2);
        assert_eq!(det, 1);
        images.push(rotate_coord(r, (1i64, 2, 3)));
    }
    let mut distinct = images.clone();
    distinct.sort();
    distinct.dedup();
    assert_eq!(distinct.len(), 24);
}

#[test]
fn object_pool_iter_mut_changes_values_in_place() {
    let mut pool = ObjectPool::<u32>::new();
    let a = pool.insert(1);
    let b = pool.insert(2);
    let mut ids = Vec::new();
    for (id, value) in pool.iter_mut() {
        *value *= 10;
        ids.push(id);
    }
    assert_eq!(ids, vec![a, b]);
    assert_eq!(pool.get(a), Some(&10));
    assert_eq!(pool.get(b), Some(&20));
    assert_eq!(pool.len(), 2);
}

#[test]
fn rotations_of_i32_coordinates_are_proper() {
    for n in 0..24u8 {
        let r = Rotation(n);
        let a = rotate_coord(r, (1i32, 0, 0));
        let b = rotate_coord(r, (0i32, 1, 0));
        let c = rotate_coord(r, (0i32, 0, 1));
        let det = a.0 * (b.1 * c.2 - c.1 * b.2) - b.0 * (a.1 * c.2 - c.1 * a.2) + c.0 * (a.1 * b.2 - b.1 * a.2);
        assert_eq!(det, 1);
        for v in [a, b, c] {
            assert_eq!(v.0.abs() + v.1.abs() + v.2.abs(), 1);
        }
    }
}

#[test]
fn grouped_scheduler_reports_the_next_time() {
    let mut s = GroupScheduler::<u32>::new();
    assert!(s.next_time().is_none());
    s.schedule(Instant::from_nanos(50), 1);
    s.schedule(Instant::from_nanos(20), 2);
    s.schedule(Instant::from_nanos(20), 3);
    assert_eq!(s.next_time().map(|t| t.as_nanos()), Some(20));
    let (t, _) = s.pop_due(Instant::from_nanos(30)).unwrap();
    assert_eq!(t.as_nanos(), 20);
    assert_eq!(s.next_time().map(|t| t.as_nanos()), Some(50));
}

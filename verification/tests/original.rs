use hexahedron::bit::SetBit;
use hexahedron::callback_scheduler::SchedulerNode;
use hexahedron::invoke::variadic_callback::{VariadicCallbackMut, VariadicCallbackOnce};
use hexahedron::graph::Graph;
use hexahedron::hash::deterministic;
use hexahedron::layer::{sort_layers, Layer};
use hexahedron::unordered_vec::UnorderedVec;
use std::borrow::BorrowMut;
use std::sync::{Arc, Mutex};

#[test]
fn unordered_vec_test() {
    let mut uno = UnorderedVec::<u32>::new();
    let a = uno.insert(1);
    let b = uno.insert(2);
    let c = uno.insert(3);
    assert_eq!(uno.len(), 3);
    uno.remove(a);
    uno.remove(b);
    uno.remove(c);
    assert_eq!(uno.len(), 0);
}

#[test]
fn graph_test() {
    let mut graph = Graph::<&'static str>::new();
    let d = graph.insert("d");
    let c = graph.insert_with("c", &[d]);
    let b = graph.insert_with("b", &[c, d]);
    let _root = graph.insert_with("root", &[b]);
    println!("{}", graph.check_connected(b, d, false));
}

#[test]
fn delete_bitmask_test() {
    assert_eq!(0b11000011, u8::MAX.delete_bitmask(2..6));
}

#[test]
fn hash_test() {
    let hash = deterministic::sha256("hello, world!");
    println!("{hash:?}");
}

#[test]
fn extract_arc_test() {
    let arc1 = Arc::new(Mutex::new(String::from("Hello.")));
    let arc2 = Arc::new(Mutex::new(String::from("Hello.")));
    let arc3 = Arc::new(Mutex::new(String::from("Hello.")));
    type ArcStr = Arc<Mutex<String>>;
    fn take_args(arg0: ArcStr, arg1: ArcStr, arg2: ArcStr) {
        fn first(text1: &mut String, (next, last): (&Arc<Mutex<String>>, &Arc<Mutex<String>>)) {
            fn second(text1: &mut String, text2: &mut String, last: &Arc<Mutex<String>>) {
                fn third(text1: &mut String, text2: &mut String, text3: &mut String) {
                    *text1 = String::from("text1");
                    *text2 = String::from("text2");
                    *text3 = String::from("text3");
                }
                let mut last_lock = last.lock().unwrap();
                third(text1, text2, last_lock.borrow_mut());
            }
            let mut next_lock = next.lock().unwrap();
            second(text1, next_lock.borrow_mut(), last);
        }
        let mut first_lock = arg0.lock().unwrap();
        first(first_lock.borrow_mut(), (&arg1, &arg2));
    }
    take_args(arc1.clone(), arc2.clone(), arc3.clone());
    println!("{arc1:#?}, {arc2:#?}, {arc3:#?}");
}

#[test]
fn layer_sort_test() {
    fn t(layer: u16) -> Layer {
        Layer::Transparent(layer)
    }
    fn o(layer: u16) -> Layer {
        Layer::Opaque(layer)
    }

    let mut layers = vec![
        t(1),
        t(3),
        t(8),
        t(4),
        o(3),
        o(4),
        o(1),
        o(8),
    ];
    sort_layers(&mut layers);
    println!("{layers:#?}");
}

#[test]
fn scheduler_sandbox() {}

#[test]
fn scheduler_context_sandbox() {
    let _tn: &'static str = "i32";
}

#[test]
fn variadic_callback_sandbox() {
    struct Consumable(String);
    let mut cons = Consumable(String::from("Hello, world!"));
    let mut cb = move |num: i32| {
        println!("{num}, {}", cons.0);
        cons.0 = String::from("The quick brown fox jumps over the lazy dog.");
        num
    };
    cb.call_mutable((32,));
    cb.call_consume((32,));
}

#[test]
fn scheduler_experiment() {}

#[test]
fn size_check() {
    type Callback = Box<dyn Fn()>;
    println!("{}", std::mem::size_of::<SchedulerNode<Callback>>());
    println!("{}", std::mem::size_of::<Option<SchedulerNode<Callback>>>());
}

use std::cell::{Cell, RefCell};
use std::rc::Rc;

use sync_primitives::arc::{SafeArc, Weak};

#[test]
fn arc_basic_test() {
    let arc_1 = SafeArc::new(42);
    let arc_2 = SafeArc::clone(&arc_1);
    drop(arc_1);
    assert_eq!(*arc_2.deref(), 42);
}

/// Counts how many times it is dropped, through a shared cell.
struct DropCounter(Rc<Cell<usize>>);

impl Drop for DropCounter {
    fn drop(&mut self) {
        self.0.set(self.0.get() + 1);
    }
}

#[test]
fn arc_full_test() {
    let drops = Rc::new(Cell::new(0));

    let arc1 = SafeArc::new(DropCounter(Rc::clone(&drops)));
    let arc2 = arc1.clone();
    let arc3 = arc1.clone();
    let arc4 = arc2.clone();

    assert_eq!(drops.get(), 0);

    drop(arc1);
    assert_eq!(drops.get(), 0);

    drop(arc2);
    assert_eq!(drops.get(), 0);

    drop(arc3);
    assert_eq!(drops.get(), 0);

    drop(arc4);
    assert_eq!(drops.get(), 1);
}

struct Node {
    value: usize,
    left: Option<SafeArc<RefCell<Node>>>,
    right: Option<SafeArc<RefCell<Node>>>,
    parent: Option<Weak<RefCell<Node>>>,
}

fn in_order_traversal(node: &SafeArc<RefCell<Node>>) {
    if node.deref().borrow().left.is_none() && node.deref().borrow().right.is_none() {
        println!("val: {}", node.deref().borrow().value);
        return;
    }

    if let Some(left) = &node.deref().borrow().left {
        in_order_traversal(left);
    }
    println!("val: {}", node.deref().borrow().value);
    if let Some(right) = &node.deref().borrow().right {
        in_order_traversal(right);
    }
}

#[test]
fn arc_test_tree() {
    let leaf_1 = SafeArc::new(RefCell::new(Node {
        value: 5,
        left: None,
        right: None,
        parent: None,
    }));
    let leaf_2 = SafeArc::new(RefCell::new(Node {
        value: 6,
        left: None,
        right: None,
        parent: None,
    }));
    let mut int_left_node = SafeArc::new(RefCell::new(Node {
        value: 2,
        left: Some(leaf_1.clone()),
        right: Some(leaf_2.clone()),
        parent: None,
    }));
    leaf_1.deref().borrow_mut().parent = Some(SafeArc::downgrade(&mut int_left_node));
    leaf_2.deref().borrow_mut().parent = Some(SafeArc::downgrade(&mut int_left_node));

    let leaf_3 = SafeArc::new(RefCell::new(Node {
        value: 7,
        left: None,
        right: None,
        parent: None,
    }));
    let leaf_4 = SafeArc::new(RefCell::new(Node {
        value: 8,
        left: None,
        right: None,
        parent: None,
    }));
    let mut int_right_node = SafeArc::new(RefCell::new(Node {
        value: 3,
        left: Some(leaf_3.clone()),
        right: Some(leaf_4.clone()),
        parent: None,
    }));
    leaf_3.deref().borrow_mut().parent = Some(SafeArc::downgrade(&mut int_right_node));
    leaf_4.deref().borrow_mut().parent = Some(SafeArc::downgrade(&mut int_right_node));

    let mut root = SafeArc::new(RefCell::new(Node {
        value: 1,
        left: Some(int_left_node.clone()),
        right: Some(int_right_node.clone()),
        parent: None,
    }));

    int_left_node.deref().borrow_mut().parent = Some(SafeArc::downgrade(&mut root));
    int_right_node.deref().borrow_mut().parent = Some(SafeArc::downgrade(&mut root));

    in_order_traversal(&root);
}

#[test]
fn upgrade_while_strong_alive() {
    let mut a = SafeArc::new(String::from("payload"));
    let w = SafeArc::downgrade(&mut a);
    let upgraded = w.upgrade();
    assert!(upgraded.is_some());
    assert_eq!(*upgraded.unwrap().deref(), "payload");
    assert_eq!(*a.deref(), "payload");
}

#[test]
fn upgrade_after_last_strong_drop_yields_nothing() {
    let mut a = SafeArc::new(7);
    let w = SafeArc::downgrade(&mut a);
    drop(a);
    assert!(w.upgrade().is_none());
}

#[test]
fn weak_clone_shares_referent() {
    let mut a = SafeArc::new(13);
    let w1 = SafeArc::downgrade(&mut a);
    let w2 = w1.clone();
    assert_eq!(*w2.upgrade().unwrap().deref(), 13);
    drop(a);
    assert!(w1.upgrade().is_none());
    assert!(w2.upgrade().is_none());
}

#[test]
fn get_mut_sole_handle_grants_access() {
    let mut a = SafeArc::new(1);
    match SafeArc::get_mut(&mut a) {
        Some(m) => *m = 2,
        None => panic!("sole handle was refused mutable access"),
    }
    assert_eq!(*a.deref(), 2);
}

#[test]
fn get_mut_with_second_strong_yields_nothing() {
    let mut a = SafeArc::new(1);
    let b = a.clone();
    assert!(SafeArc::get_mut(&mut a).is_none());
    assert_eq!(*b.deref(), 1);
}

#[test]
fn get_mut_with_weak_yields_nothing() {
    let mut a = SafeArc::new(1);
    let w = SafeArc::downgrade(&mut a);
    assert!(SafeArc::get_mut(&mut a).is_none());
    drop(w);
    assert!(SafeArc::get_mut(&mut a).is_some());
}

#[test]
fn weak_outlives_payload() {
    let drops = Rc::new(Cell::new(0));
    let mut a = SafeArc::new(DropCounter(Rc::clone(&drops)));
    let w = SafeArc::downgrade(&mut a);
    drop(a);
    // the payload dies with the last strong handle, weak or no weak
    assert_eq!(drops.get(), 1);
    assert!(w.upgrade().is_none());
    drop(w);
    assert_eq!(drops.get(), 1);
}

//! Ownership, shared references, bounded recursion, and large allocations.

use primer::memory::{safe_recursion, try_large_allocation};
use primer::tree::TreeNode;
use std::cell::RefCell;
use std::collections::HashMap;
use std::rc::Rc;

#[test]
fn test_tree_node_creation() {
    let node = TreeNode::new(42);
    assert_eq!(node.value, 42);
    assert!(node.children.is_empty());
    assert_eq!(node.get_parent_value(), None);
}

#[test]
fn test_rc_basic_usage() {
    let data = Rc::new(42);
    assert_eq!(*data, 42);
    assert_eq!(Rc::strong_count(&data), 1);

    let data_clone = Rc::clone(&data);
    assert_eq!(*data_clone, 42);
    assert_eq!(Rc::strong_count(&data), 2);
    assert_eq!(Rc::strong_count(&data_clone), 2);
}

#[test]
fn test_rc_without_cycles() {
    let node1 = Rc::new(RefCell::new(TreeNode::new(1)));
    let node2 = Rc::new(RefCell::new(TreeNode::new(2)));
    let node3 = Rc::new(RefCell::new(TreeNode::new(3)));

    // Children are owned outright by the parent, so attaching them shares
    // nothing and creates no cycle.
    {
        let mut node1_ref = node1.borrow_mut();
        node1_ref.add_child(TreeNode::new(node2.borrow().value));
        node1_ref.add_child(TreeNode::new(node3.borrow().value));
    }

    assert_eq!(Rc::strong_count(&node1), 1);
    assert_eq!(Rc::strong_count(&node2), 1);
    assert_eq!(Rc::strong_count(&node3), 1);
}

#[test]
fn test_refcell_basic_usage() {
    let data = Rc::new(RefCell::new(42));

    {
        let borrow = data.borrow();
        assert_eq!(*borrow, 42);
    }

    {
        let mut borrow_mut = data.borrow_mut();
        *borrow_mut += 1;
        assert_eq!(*borrow_mut, 43);
    }

    {
        let borrow = data.borrow();
        assert_eq!(*borrow, 43);
    }
}

#[test]
fn test_refcell_borrow_error() {
    let data = Rc::new(RefCell::new(42));

    let _borrow1 = data.borrow_mut();
    let borrow2 = data.try_borrow_mut();
    assert!(borrow2.is_err());
}

#[test]
fn test_weak_references() {
    let strong = Rc::new(42);
    let weak = Rc::downgrade(&strong);

    assert_eq!(Rc::strong_count(&strong), 1);
    assert_eq!(Rc::weak_count(&strong), 1);

    if let Some(strong_ref) = weak.upgrade() {
        assert_eq!(*strong_ref, 42);
    } else {
        panic!("Weak reference deberia ser valida");
    }

    drop(strong);

    if let Some(_) = weak.upgrade() {
        panic!("Weak reference deberia ser invalida");
    }
}

#[test]
fn test_memory_management() {
    let mut data = Vec::with_capacity(1000);
    for i in 0..1000 {
        data.push(i);
    }

    assert_eq!(data.len(), 1000);
    assert_eq!(data.capacity(), 1000);

    data.clear();
    data.shrink_to_fit();

    assert_eq!(data.len(), 0);
    assert!(data.capacity() < 1000);
}

#[test]
fn test_hashmap_memory_management() {
    let mut map = HashMap::new();
    for i in 0..1000 {
        map.insert(i, format!("value_{}", i));
    }

    assert_eq!(map.len(), 1000);

    map.retain(|k, _| k % 2 == 0);
    assert_eq!(map.len(), 500);

    map.clear();
    assert_eq!(map.len(), 0);
}

#[test]
fn test_safe_recursion() {
    let result = safe_recursion(100);
    assert_eq!(result, 5050);
}

#[test]
fn test_box_ownership() {
    let data = Box::new(42);
    assert_eq!(*data, 42);

    // Ownership moves with the box; the value survives the transfer.
    let moved = data;
    assert_eq!(*moved, 42);
}

#[test]
fn test_buffer_safety() {
    let mut buffer = [0; 10];

    for i in 0..buffer.len() {
        buffer[i] = i as u8;
    }

    for (i, &value) in buffer.iter().enumerate() {
        assert_eq!(value, i as u8);
    }
}

#[test]
fn test_memory_optimization() {
    let mut data = Vec::new();
    for _i in 0..100 {
        let chunk = vec![0; 100];
        data.push(chunk);
    }

    assert_eq!(data.len(), 100);
    assert!(data.iter().all(|v| v.len() == 100));
}

#[test]
fn test_resource_management() {
    let data = String::from("Datos importantes");
    assert_eq!(data, "Datos importantes");
}

#[test]
fn test_memory_error_handling() {
    match try_large_allocation() {
        Ok(data) => {
            assert_eq!(data.len(), 1_000_000);
            assert!(data.iter().all(|&x| (x as u32) < 256));
        }
        Err(e) => {
            panic!("Error inesperado en allocation: {}", e);
        }
    }
}

#[test]
fn test_memory_fragmentation_prevention() {
    let mut data = Vec::new();
    for i in 0..100 {
        let chunk = vec![i; 100];
        data.push(chunk);
    }

    assert_eq!(data.len(), 100);
    assert!(data.iter().enumerate().all(|(i, v)| v.len() == 100 && v[0] == i));
}

use tunnel::tools::message::Delivery;
use tunnel::tools::queue::Queue;

fn contents(queue: &Queue) -> Vec<String> {
    let mut out = Vec::new();
    let mut i = 0;
    while let Some(m) = queue.get(i) {
        out.push(m.content().to_string());
        i += 1;
    }
    out
}

fn filled(capacity: usize, texts: &[&str]) -> Queue {
    let mut queue = Queue::new(capacity);
    for text in texts {
        queue.enqueue(text, "~", Delivery::Delivered);
    }
    queue
}

#[test]
fn capacity_three_evicts_the_oldest() {
    let queue = filled(3, &["M1", "M2", "M3", "M4"]);
    assert_eq!(contents(&queue), vec!["M4", "M3", "M2"]);
    assert_eq!(queue.len(), 3);
}

#[test]
fn a_new_queue_is_empty() {
    let queue = Queue::new(7);
    assert_eq!(queue.len(), 0);
    assert_eq!(queue.capacity(), 7);
    assert!(queue.get(0).is_none());
}

#[test]
fn below_capacity_nothing_is_evicted() {
    let queue = filled(3, &["M1", "M2"]);
    assert_eq!(contents(&queue), vec!["M2", "M1"]);
}

#[test]
fn exactly_at_capacity_nothing_is_evicted() {
    let queue = filled(3, &["M1", "M2", "M3"]);
    assert_eq!(contents(&queue), vec!["M3", "M2", "M1"]);
}

#[test]
fn the_queue_never_exceeds_its_capacity() {
    let mut queue = Queue::new(4);
    for i in 0..50 {
        queue.enqueue(&format!("m{}", i), "o", Delivery::PendingSend);
        assert!(queue.len() <= 4);
    }
    assert_eq!(contents(&queue), vec!["m49", "m48", "m47", "m46"]);
}

#[test]
fn capacity_zero_keeps_nothing() {
    let queue = filled(0, &["M1", "M2"]);
    assert_eq!(queue.len(), 0);
}

#[test]
fn capacity_one_keeps_the_latest() {
    let queue = filled(1, &["M1", "M2", "M3"]);
    assert_eq!(contents(&queue), vec!["M3"]);
}

#[test]
fn enqueue_keeps_owner_and_state() {
    let mut queue = Queue::new(2);
    queue.enqueue("hi", "o", Delivery::PendingSend);
    queue.enqueue("ho", "~", Delivery::Delivered);
    let head = queue.get(0).unwrap();
    assert_eq!((head.content(), head.owner(), head.state()), ("ho", "~", Delivery::Delivered));
    let tail = queue.get(1).unwrap();
    assert_eq!((tail.content(), tail.owner(), tail.state()), ("hi", "o", Delivery::PendingSend));
}

#[test]
fn a_smaller_capacity_evicts_nothing_by_itself() {
    let mut queue = filled(5, &["M1", "M2", "M3", "M4"]);
    queue.set_capacity(2);
    assert_eq!(queue.capacity(), 2);
    assert_eq!(contents(&queue), vec!["M4", "M3", "M2", "M1"]);
    // The length is not the capacity, so the next insertion evicts nothing.
    queue.enqueue("M5", "~", Delivery::Delivered);
    assert_eq!(contents(&queue), vec!["M5", "M4", "M3", "M2", "M1"]);
}

#[test]
fn a_capacity_set_to_the_length_evicts_on_the_next_insertion() {
    let mut queue = filled(5, &["M1", "M2", "M3"]);
    queue.set_capacity(3);
    queue.enqueue("M4", "~", Delivery::Delivered);
    assert_eq!(contents(&queue), vec!["M4", "M3", "M2"]);
}

#[test]
fn iter_mut_walks_head_to_tail() {
    let mut queue = filled(3, &["M1", "M2", "M3"]);
    let mut seen = Vec::new();
    let mut i = 0;
    while let Some(m) = queue.iter_mut(i) {
        seen.push(m.content().to_string());
        i += 1;
    }
    assert_eq!(seen, vec!["M3", "M2", "M1"]);
    assert!(queue.iter_mut(3).is_none());
}

#[test]
fn iter_mut_changes_the_entry_in_place() {
    let mut queue = Queue::new(3);
    queue.enqueue("a", "o", Delivery::PendingSend);
    queue.enqueue("b", "o", Delivery::PendingSend);
    assert!(queue.iter_mut(1).unwrap().undraft());
    assert_eq!(queue.get(0).unwrap().state(), Delivery::PendingSend);
    assert_eq!(queue.get(1).unwrap().state(), Delivery::Delivered);
    assert!(!queue.iter_mut(1).unwrap().undraft());
    assert_eq!(contents(&queue), vec!["b", "a"]);
    assert_eq!(queue.len(), 2);
}

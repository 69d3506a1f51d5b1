use tunnel::tools::message::{Delivery, Message};

#[test]
fn new_message_keeps_text_owner_and_state() {
    let m = Message::new("hello", "o", Delivery::PendingSend);
    assert_eq!(m.content(), "hello");
    assert_eq!(m.owner(), "o");
    assert_eq!(m.state(), Delivery::PendingSend);
}

#[test]
fn undraft_fires_once_on_a_pending_message() {
    let mut m = Message::new("hello", "o", Delivery::PendingSend);
    assert!(m.undraft());
    assert_eq!(m.state(), Delivery::Delivered);
    assert!(!m.undraft());
    assert!(!m.undraft());
    assert_eq!(m.state(), Delivery::Delivered);
    assert_eq!(m.content(), "hello");
    assert_eq!(m.owner(), "o");
}

#[test]
fn undraft_never_fires_on_a_delivered_message() {
    let mut m = Message::new("from afar", "~", Delivery::Delivered);
    assert!(!m.undraft());
    assert_eq!(m.state(), Delivery::Delivered);
}

#[test]
fn a_clone_has_its_own_state() {
    let mut m = Message::new("hello", "o", Delivery::PendingSend);
    let copy = m.clone();
    assert!(m.undraft());
    assert_eq!(copy.state(), Delivery::PendingSend);
    assert_eq!(copy.content(), "hello");
}

#[test]
fn empty_text_is_a_message_too() {
    let m = Message::new("", "", Delivery::Delivered);
    assert_eq!(m.content(), "");
    assert_eq!(m.owner(), "");
}

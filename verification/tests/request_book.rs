use figma_cli::requests::Requests;

#[test]
fn ids_count_up_from_one() {
    let mut book: Requests<&str> = Requests::new();
    assert_eq!(book.last_id(), 0);
    assert_eq!(book.register("first"), 1);
    assert_eq!(book.register("second"), 2);
    assert_eq!(book.last_id(), 2);
}

#[test]
fn reply_settles_its_own_request_once() {
    let mut book: Requests<&str> = Requests::new();
    let a = book.register("a");
    let b = book.register("b");
    assert_eq!(book.settle(b), Some("b"));
    assert_eq!(book.settle(b), None);
    assert_eq!(book.settle(a), Some("a"));
    assert_eq!(book.settle(99), None);
}

#[test]
fn drain_fails_every_waiting_request() {
    let mut book: Requests<u32> = Requests::new();
    book.register(10);
    let middle = book.register(20);
    book.register(30);
    assert_eq!(book.settle(middle), Some(20));
    let mut left = book.drain();
    left.sort();
    assert_eq!(left, vec![10, 30]);
    assert!(book.drain().is_empty());
    // ids are not reused after a drain
    assert_eq!(book.register(40), 4);
}

use ebb_server::{MessageList, MAX_MESSAGE_COUNT, MAX_MESSAGE_LEN_CHARS};

fn strings(v: &[&str]) -> Vec<String> {
    v.iter().map(|s| s.to_string()).collect()
}

#[test]
fn new_list_is_empty() {
    assert!(MessageList::new().as_slice().is_empty());
}

#[test]
fn two_appends_newest_first() {
    let mut l = MessageList::new();
    assert_eq!(Ok(()), l.add("message1".to_string()));
    assert_eq!(Ok(()), l.add("message2".to_string()));
    assert_eq!(strings(&["message2", "message1"]), l.as_slice());
}

#[test]
fn full_list_evicts_oldest() {
    let mut l = MessageList::new();
    for n in 0..100 {
        assert_eq!(Ok(()), l.add(format!("m{}", n)));
    }
    assert_eq!(MAX_MESSAGE_COUNT, l.as_slice().len());
    assert_eq!("m99", l.as_slice()[0]);
    assert_eq!("m0", l.as_slice()[99]);
    assert_eq!(Ok(()), l.add("messageX".to_string()));
    assert_eq!(100, l.as_slice().len());
    assert_eq!("messageX", l.as_slice()[0]);
    assert_eq!("m99", l.as_slice()[1]);
    assert_eq!("m1", l.as_slice()[99]);
    assert!(!l.as_slice().iter().any(|m| m == "m0"));
}

#[test]
fn longest_message_accepted_one_more_refused() {
    let mut l = MessageList::new();
    assert_eq!(Ok(()), l.add("a".repeat(200)));
    let before = l.as_slice().to_vec();
    assert_eq!(
        Err("Message too long.  Max 200 characters.".to_string()),
        l.add("a".repeat(MAX_MESSAGE_LEN_CHARS + 1))
    );
    assert_eq!(before, l.as_slice());
}

#[test]
fn empty_message_refused_and_list_unchanged() {
    let mut l = MessageList::new();
    assert_eq!(Ok(()), l.add("keep".to_string()));
    assert_eq!(Err("Message is empty.".to_string()), l.add(String::new()));
    assert_eq!(strings(&["keep"]), l.as_slice());
}

#[test]
fn length_counts_characters_not_bytes() {
    let mut l = MessageList::new();
    let wide = "é".repeat(200);
    assert_eq!(400, wide.len());
    assert_eq!(Ok(()), l.add(wide.clone()));
    assert_eq!(
        Err("Message too long.  Max 200 characters.".to_string()),
        l.add("é".repeat(201))
    );
    assert_eq!(vec![wide], l.as_slice());
}

#[test]
fn repeated_reads_agree() {
    let mut l = MessageList::new();
    l.add("x".to_string()).unwrap();
    l.add("y".to_string()).unwrap();
    let first = l.as_slice().to_vec();
    let second = l.as_slice().to_vec();
    assert_eq!(first, second);
}

#[test]
fn length_never_exceeds_capacity() {
    let mut l = MessageList::new();
    for n in 0..250 {
        let _ = l.add(format!("n{}", n));
        let _ = l.add(String::new());
        assert!(l.as_slice().len() <= MAX_MESSAGE_COUNT);
        assert_eq!(format!("n{}", n), l.as_slice()[0]);
    }
    assert_eq!("n150", l.as_slice()[99]);
}

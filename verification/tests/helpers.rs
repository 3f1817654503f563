use trangarcom::queue::DispatchQueue;
use trangarcom::sink::{Operation, SinkCall};
use trangarcom::template::{escape_angles, is_even, is_odd, markdown, markdown_escaped};

fn finish(id: u128) -> SinkCall {
    SinkCall::RecordFinish { id, latency: 1 }
}

#[test]
fn markdown_becomes_html() {
    assert_eq!(
        markdown("\nhello\n=====\n\n* alpha\n* beta\n"),
        "<h1>hello</h1>\n<ul>\n<li>alpha</li>\n<li>beta</li>\n</ul>\n"
    );
    assert_eq!(markdown("[a](https://b.c)"), "<p><a href=\"https://b.c\">a</a></p>\n");
    assert_eq!(markdown(""), "");
}

#[test]
fn angle_brackets_are_escaped() {
    assert_eq!(escape_angles("a < b > c"), "a &lt; b &gt; c");
    assert_eq!(escape_angles("<<>>"), "&lt;&lt;&gt;&gt;");
    assert_eq!(escape_angles("plain & simple"), "plain & simple");
    assert_eq!(escape_angles(""), "");
}

#[test]
fn markdown_of_escaped_text_lets_no_tag_through() {
    assert_eq!(markdown("<b>x</b> *y*"), "<p><b>x</b> <em>y</em></p>\n");
    assert_eq!(
        markdown_escaped("<b>x</b> *y*"),
        "<p>&lt;b&gt;x&lt;/b&gt; <em>y</em></p>\n"
    );
    assert_eq!(markdown_escaped("*y*"), markdown("*y*"));
}

#[test]
fn parity_of_row_numbers() {
    assert!(is_even(0));
    assert!(is_even(2));
    assert!(is_even(-4));
    assert!(!is_even(3));
    assert!(!is_even(-3));
    assert!(is_even(i64::MIN));
    assert!(!is_even(i64::MAX));
    assert!(is_odd(1));
    assert!(is_odd(i64::MAX));
    assert!(!is_odd(0));
    assert!(!is_odd(2));
    assert!(!is_odd(-1));
    assert!(!is_odd(-3));
    assert!(!is_odd(i64::MIN));
}

#[test]
fn queue_hands_out_the_oldest_first() {
    let mut queue = DispatchQueue::new(3);
    assert_eq!(queue.capacity(), 3);
    assert!(queue.pop().is_none());
    assert!(queue.push(finish(1)).is_none());
    assert!(queue.push(finish(2)).is_none());
    assert_eq!(queue.len(), 2);
    assert_eq!(queue.pop().unwrap().id(), 1);
    assert_eq!(queue.pop().unwrap().id(), 2);
    assert!(queue.pop().is_none());
    assert_eq!(queue.len(), 0);
}

#[test]
fn a_full_queue_drops_the_oldest() {
    let mut queue = DispatchQueue::new(2);
    assert!(queue.push(finish(1)).is_none());
    assert!(queue.push(finish(2)).is_none());
    let lost = queue.push(finish(3)).unwrap();
    assert_eq!(lost.id(), 1);
    assert_eq!(lost.operation(), Operation::RecordFinish);
    assert_eq!(queue.len(), 2);
    assert_eq!(queue.pop().unwrap().id(), 2);
    assert_eq!(queue.pop().unwrap().id(), 3);
}

#[test]
fn a_queue_without_room_keeps_nothing() {
    let mut queue = DispatchQueue::new(0);
    assert_eq!(queue.push(finish(1)).unwrap().id(), 1);
    assert_eq!(queue.len(), 0);
    assert!(queue.pop().is_none());
}

#[test]
fn calls_know_their_id_and_operation() {
    let create = SinkCall::Create {
        id: 9,
        received_at: 1,
        method: String::from("GET"),
        url: String::from("/"),
        headers: String::from("{  }"),
    };
    assert_eq!(create.id(), 9);
    assert_eq!(create.operation(), Operation::Create);
    let response = SinkCall::RecordResponse { id: 8, status_code: 200, latency: 3 };
    assert_eq!(response.id(), 8);
    assert_eq!(response.operation(), Operation::RecordResponse);
    match create.snapshot() {
        SinkCall::Create { id, received_at, method, url, headers } => {
            assert_eq!((id, received_at), (9, 1));
            assert_eq!((method.as_str(), url.as_str(), headers.as_str()), ("GET", "/", "{  }"));
        }
        _ => panic!("a copy is the same call"),
    }
}

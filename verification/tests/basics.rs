use std::rc::Rc;
use miniexec::arith::apply;
use miniexec::arith::cube;
use miniexec::arith::square;
use miniexec::chat::ChatEvent;
use miniexec::chat::EventAction;
use miniexec::chat::TopicId;
use miniexec::chat::UserId;
use miniexec::chat::process_event;
use miniexec::content::BodyFormat;
use miniexec::content::body_format;
use miniexec::fib::fib_for;
use miniexec::fib::fib_loop;
use miniexec::fib::fib_while;
use miniexec::markdown::html_to_markdown;
use miniexec::markdown::html_to_markdown_bytes;
use miniexec::mystring::MiniString;
use miniexec::mystring::MyString;
use miniexec::node::Node;
use miniexec::sums::sum;

#[test]
fn fib_three_ways_agree_at_ten() {
    assert_eq!(fib_loop(10), 55);
    assert_eq!(fib_while(10), 55);
    assert_eq!(fib_for(10), 55);
}

#[test]
fn fib_loop_always_takes_one_step() {
    assert_eq!(fib_loop(0), 2);
    assert_eq!(fib_loop(2), 2);
    assert_eq!(fib_loop(3), 2);
}

#[test]
fn fib_while_takes_no_step_below_three() {
    assert_eq!(fib_while(0), 1);
    assert_eq!(fib_while(2), 1);
    assert_eq!(fib_while(3), 2);
    assert_eq!(fib_for(2), 1);
}

#[test]
fn fib_largest_eight_bit_entry() {
    assert_eq!(fib_loop(13), 233);
    assert_eq!(fib_while(13), 233);
}

#[test]
fn apply_square_and_cube() {
    assert_eq!(apply(2, square), 4);
    assert_eq!(apply(2, cube), 8);
    assert_eq!(square(-3), 9);
    assert_eq!(cube(-3), -27);
}

#[test]
fn sum_adds_the_elements() {
    let data = vec![1, 2, 3, 4];
    assert_eq!(sum(&data), 10);
    let empty: Vec<u32> = vec![];
    assert_eq!(sum(&empty), 0);
}

#[test]
fn node_chain_shares_downstream() {
    let mut node1 = Node::new(1);
    let mut node2 = Node::new(2);
    let mut node3 = Node::new(3);
    let node4 = Node::new(4);

    node3.update_downstream(Rc::new(node4));
    node1.update_downstream(Rc::new(node3));
    node2.update_downstream(node1.get_downstream().unwrap());

    assert_eq!(node1.get_downstream().unwrap().id, 3);
    assert_eq!(node2.get_downstream().unwrap().id, 3);
    assert_eq!(node1.get_downstream().unwrap().get_downstream().unwrap().id, 4);
    assert!(Node::new(5).get_downstream().is_none());
}

#[test]
fn process_event_decides_each_kind() {
    let join = process_event(&ChatEvent::Join((UserId(1), TopicId(1))));
    assert!(matches!(join, EventAction::AnnounceJoin(UserId(1))));

    let leave = process_event(&ChatEvent::Leave((UserId(1), TopicId(2))));
    assert!(matches!(leave, EventAction::AnnounceLeave(UserId(1), TopicId(2))));

    let message = process_event(&ChatEvent::Message((
        UserId(1),
        TopicId(1),
        String::from("hello-world"),
    )));
    match message {
        EventAction::Broadcast(text) => assert_eq!(text, "hello-world"),
        _ => panic!("a message is broadcast"),
    }
}

#[test]
fn mini_string_round_trips() {
    let m = MiniString::new("hello");
    assert_eq!(m.as_str(), "hello");
    let empty = MiniString::new("");
    assert_eq!(empty.as_str(), "");
}

#[test]
fn my_string_picks_the_arm_by_byte_length() {
    let short = MyString::from("hello world");
    assert!(matches!(short, MyString::Inline(_)));
    assert_eq!(short.as_str(), "hello world");

    let exactly_thirty = MyString::from("012345678901234567890123456789");
    assert!(matches!(exactly_thirty, MyString::Inline(_)));
    assert_eq!(exactly_thirty.as_str(), "012345678901234567890123456789");

    let thirty_one = MyString::from("0123456789012345678901234567890");
    assert!(matches!(thirty_one, MyString::Standard(_)));
    assert_eq!(thirty_one.as_str(), "0123456789012345678901234567890");
}

#[test]
fn my_string_keeps_multibyte_text() {
    let long = MyString::from("这是一个超过了三十个字节的很长很长的字符串");
    assert!(matches!(long, MyString::Standard(_)));
    assert_eq!(long.as_str(), "这是一个超过了三十个字节的很长很长的字符串");

    let short = MyString::from("这是");
    assert!(matches!(short, MyString::Inline(_)));
    assert_eq!(short.as_str(), "这是");
}

#[test]
fn body_format_picks_highlighting() {
    assert_eq!(body_format(Some("application/json")), BodyFormat::Json);
    assert_eq!(body_format(Some("text/html")), BodyFormat::Html);
    assert_eq!(body_format(Some("text/plain")), BodyFormat::Plain);
    assert_eq!(body_format(None), BodyFormat::Plain);
}

#[test]
fn html_to_markdown_matches_the_converter() {
    let html = "<h1>Title</h1><p>a paragraph</p>";
    let md = html_to_markdown(html);
    assert_eq!(md, html2md::parse_html(html));
    assert_ne!(md, html);
    assert!(md.contains("Title"));

    let bytes = html_to_markdown_bytes(html);
    assert_eq!(bytes, md.as_bytes().to_vec());
}

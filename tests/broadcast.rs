use taqui::subscriptions::EVENT_NAME;
use taqui::{Frame, Subscription, Subscriptions};
use tokio::sync::broadcast::error::TryRecvError;

#[test]
fn subscriber_receives_what_is_sent_after() {
    let mut subs = Subscriptions::new();
    let topic = Subscription::Group(1);
    let mut rx = subs.subscribe(&topic);
    assert!(subs.send("{\"event\":\"x\"}".to_string(), &topic));
    let frame = rx.try_recv().unwrap();
    assert_eq!(frame, Frame { event: "taqui", data: "{\"event\":\"x\"}".to_string() });
    assert_eq!(frame.event, EVENT_NAME);
}

#[test]
fn late_subscriber_gets_no_replay() {
    let mut subs = Subscriptions::new();
    let topic = Subscription::Group(1);
    let _early = subs.subscribe(&topic);
    subs.send("first".to_string(), &topic);
    let mut late = subs.subscribe(&topic);
    assert_eq!(late.try_recv(), Err(TryRecvError::Empty));
    subs.send("second".to_string(), &topic);
    assert_eq!(late.try_recv().unwrap().data, "second");
}

#[test]
fn send_without_channel_is_dropped() {
    let mut subs = Subscriptions::new();
    let topic = Subscription::Group(3);
    assert!(!subs.send("lost".to_string(), &topic));
    let mut rx = subs.subscribe(&topic);
    assert_eq!(rx.try_recv(), Err(TryRecvError::Empty));
    assert!(subs.send("kept".to_string(), &topic));
    assert_eq!(rx.try_recv().unwrap().data, "kept");
}

#[test]
fn other_topics_receive_nothing() {
    let mut subs = Subscriptions::new();
    let t = Subscription::Group(1);
    let u = Subscription::Group(2);
    let mut rt = subs.subscribe(&t);
    let mut ru = subs.subscribe(&u);
    subs.send("for t".to_string(), &t);
    assert_eq!(ru.try_recv(), Err(TryRecvError::Empty));
    assert_eq!(rt.try_recv().unwrap().data, "for t");
}

#[test]
fn two_subscribers_see_the_same_order() {
    let mut subs = Subscriptions::new();
    let topic = Subscription::Group(9);
    let mut a = subs.subscribe(&topic);
    let mut b = subs.subscribe(&topic);
    for i in 0..5 {
        subs.send(format!("{i}"), &topic);
    }
    for i in 0..5 {
        assert_eq!(a.try_recv().unwrap().data, format!("{i}"));
        assert_eq!(b.try_recv().unwrap().data, format!("{i}"));
    }
    assert_eq!(a.try_recv(), Err(TryRecvError::Empty));
}

#[test]
fn lagging_subscriber_skips_but_keeps_going() {
    let mut subs = Subscriptions::new();
    let topic = Subscription::Group(4);
    let mut rx = subs.subscribe(&topic);
    for i in 0..200 {
        subs.send(format!("{i}"), &topic);
    }
    assert!(matches!(rx.try_recv(), Err(TryRecvError::Lagged(_))));
    assert_eq!(rx.try_recv().unwrap().data, "72");
}

#[test]
fn outgoing_frames_the_payload_for_the_topics_channel() {
    let mut subs = Subscriptions::new();
    let topic = Subscription::Group(21);
    assert!(subs.outgoing("none yet".to_string(), &topic).is_none());
    let mut rx = subs.subscribe(&topic);
    let (tx, frame) = subs.outgoing("{\"n\":1}".to_string(), &topic).unwrap();
    assert_eq!(frame, Frame { event: EVENT_NAME, data: "{\"n\":1}".to_string() });
    tx.send(frame).unwrap();
    assert_eq!(rx.try_recv().unwrap().data, "{\"n\":1}");
    assert!(subs.outgoing("other".to_string(), &Subscription::Group(22)).is_none());
}

use polarimetry::channel::DisplaySlot;
use polarimetry::channel::ResultChannel;
use polarimetry::frame::RawFrame;
use polarimetry::pipeline::PipelineOrchestrator;
use polarimetry::pipeline::ProcessingResult;

fn result(path: &str, level: u8) -> ProcessingResult {
    let frame = RawFrame::new(2, 2, vec![level; 4]).unwrap();
    PipelineOrchestrator::standard()
        .process(String::from(path), &frame)
        .unwrap()
}

#[test]
fn new_channel_is_empty() {
    let mut channel = ResultChannel::new();
    assert!(channel.is_empty());
    assert_eq!(channel.len(), 0);
    assert_eq!(channel.try_recv(), None);
    assert_eq!(channel.drain(), Vec::new());
}

#[test]
fn channel_gives_back_what_was_sent() {
    let mut channel = ResultChannel::new();
    channel.send(result("a.png", 10));
    assert_eq!(channel.len(), 1);
    assert!(!channel.is_empty());
    assert_eq!(channel.try_recv(), Some(result("a.png", 10)));
    assert!(channel.is_empty());
    assert_eq!(channel.try_recv(), None);
}

#[test]
fn channel_keeps_the_order_of_arrival() {
    let mut channel = ResultChannel::new();
    channel.send(result("a.png", 10));
    channel.send(result("b.png", 20));
    channel.send(result("c.png", 30));
    assert_eq!(channel.len(), 3);
    assert_eq!(channel.try_recv().unwrap().path(), "a.png");
    channel.send(result("d.png", 40));
    assert_eq!(channel.try_recv().unwrap().path(), "b.png");
    assert_eq!(channel.try_recv().unwrap().path(), "c.png");
    assert_eq!(channel.try_recv().unwrap().path(), "d.png");
    assert_eq!(channel.try_recv(), None);
}

#[test]
fn channel_drops_nothing() {
    let mut channel = ResultChannel::new();
    for index in 0..100u8 {
        channel.send(result(&format!("frame{}.png", index), index));
    }
    assert_eq!(channel.len(), 100);
    for index in 0..100u8 {
        let received = channel.try_recv().unwrap();
        assert_eq!(received, result(&format!("frame{}.png", index), index));
    }
    assert!(channel.is_empty());
}

#[test]
fn channel_does_not_mix_results() {
    let mut channel = ResultChannel::new();
    channel.send(result("bright.png", 255));
    channel.send(result("dark.png", 0));
    let first = channel.try_recv().unwrap();
    let second = channel.try_recv().unwrap();
    assert_eq!(first.path(), "bright.png");
    assert_eq!(first.visualization().pixels(), &vec![255]);
    assert_eq!(second.path(), "dark.png");
    assert_eq!(second.visualization().pixels(), &vec![0]);
}

#[test]
fn drain_takes_everything_in_order() {
    let mut channel = ResultChannel::new();
    channel.send(result("a.png", 1));
    channel.send(result("b.png", 2));
    channel.send(result("c.png", 3));
    let drained = channel.drain();
    assert_eq!(
        drained,
        vec![result("a.png", 1), result("b.png", 2), result("c.png", 3)]
    );
    assert!(channel.is_empty());
    assert_eq!(channel.drain(), Vec::new());
}

#[test]
fn slot_starts_empty_and_stays_so_without_results() {
    let mut channel = ResultChannel::new();
    let mut slot = DisplaySlot::new();
    assert!(slot.latest().is_none());
    assert!(!slot.poll(&mut channel));
    assert!(slot.latest().is_none());
}

#[test]
fn slot_takes_one_result_per_tick() {
    let mut channel = ResultChannel::new();
    let mut slot = DisplaySlot::new();
    channel.send(result("a.png", 1));
    channel.send(result("b.png", 2));
    assert!(slot.poll(&mut channel));
    assert_eq!(slot.latest(), Some(&result("a.png", 1)));
    assert_eq!(channel.len(), 1);
    assert!(slot.poll(&mut channel));
    assert_eq!(slot.latest(), Some(&result("b.png", 2)));
    assert!(channel.is_empty());
}

#[test]
fn slot_keeps_its_result_when_nothing_arrives() {
    let mut channel = ResultChannel::new();
    let mut slot = DisplaySlot::new();
    channel.send(result("a.png", 1));
    assert!(slot.poll(&mut channel));
    assert!(!slot.poll(&mut channel));
    assert!(!slot.poll(&mut channel));
    assert_eq!(slot.latest(), Some(&result("a.png", 1)));
}

#[test]
fn slot_shows_the_last_arrival_whatever_was_asked_first() {
    let mut channel = ResultChannel::new();
    let mut slot = DisplaySlot::new();
    let asked_first = result("first.png", 1);
    let asked_second = result("second.png", 2);
    channel.send(asked_second);
    channel.send(asked_first);
    assert!(slot.poll(&mut channel));
    assert_eq!(slot.latest().unwrap().path(), "second.png");
    assert!(slot.poll(&mut channel));
    assert_eq!(slot.latest().unwrap().path(), "first.png");
}

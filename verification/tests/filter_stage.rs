use pcloud_async_api::filter::{
    filter_stream, FilterAction, FilterEvent, FilterState, FILTER_QUEUE_CAPACITY,
};
use pcloud_async_api::pcloud_model::{DiffEntry, DiffEvent, PCloudTime};

fn entry(id: u64, event: DiffEvent) -> DiffEntry {
    DiffEntry { time: PCloudTime::utc(0), diffid: id, event, metadata: None, share: None }
}

/// Drains `source` through a stage into a consumer that takes up to
/// `capacity` elements and then closes. Returns what reached the consumer
/// and how many elements were pulled from the source.
fn drain<T, P: Fn(&T) -> bool>(source: Vec<T>, predicate: P, capacity: usize) -> (Vec<T>, usize) {
    let mut source = source.into_iter();
    let mut out = Vec::new();
    let mut pulled = 0;
    let (mut stage, mut action) = filter_stream(predicate).step(FilterEvent::Started);
    loop {
        let event = match action {
            FilterAction::Pull => match source.next() {
                Some(item) => {
                    pulled += 1;
                    FilterEvent::Received(item)
                }
                None => FilterEvent::SourceEnded,
            },
            FilterAction::Forward(item) => {
                if out.len() == capacity {
                    FilterEvent::OutputClosed
                } else {
                    out.push(item);
                    FilterEvent::Forwarded
                }
            }
            FilterAction::Wait => panic!("the stage was fed an event it did not ask for"),
            FilterAction::Stop => {
                assert!(stage.is_done());
                return (out, pulled);
            }
        };
        let next = stage.step(event);
        stage = next.0;
        action = next.1;
    }
}

#[test]
fn even_cursors_pass_in_order() {
    let source: Vec<DiffEntry> = (1..=10).map(|id| entry(id, DiffEvent::ModifyFile)).collect();
    let (out, pulled) = drain(source, |e: &DiffEntry| e.diffid % 2 == 0, usize::MAX);
    let ids: Vec<u64> = out.iter().map(|e| e.diffid).collect();
    assert_eq!(ids, vec![2, 4, 6, 8, 10]);
    assert_eq!(out.len(), 5);
    assert_eq!(pulled, 10);
}

#[test]
fn filter_by_kind_of_change() {
    let source = vec![
        entry(1, DiffEvent::CreateFolder),
        entry(2, DiffEvent::CreateFile),
        entry(3, DiffEvent::DeleteFile),
        entry(4, DiffEvent::CreateFile),
    ];
    let (out, _) = drain(source, |e: &DiffEntry| e.event == DiffEvent::CreateFile, usize::MAX);
    let ids: Vec<u64> = out.iter().map(|e| e.diffid).collect();
    assert_eq!(ids, vec![2, 4]);
}

#[test]
fn duplicates_are_neither_merged_nor_reordered() {
    let (out, _) = drain(vec![3, 1, 3, 2, 3], |n: &i32| *n != 2, usize::MAX);
    assert_eq!(out, vec![3, 1, 3, 3]);
}

#[test]
fn nothing_passes_a_predicate_that_rejects_all() {
    let (out, pulled) = drain(vec![1, 2, 3], |_: &i32| false, usize::MAX);
    assert!(out.is_empty());
    assert_eq!(pulled, 3);
}

#[test]
fn empty_source_ends_the_stage() {
    let (out, pulled) = drain(Vec::<u8>::new(), |_: &u8| true, usize::MAX);
    assert!(out.is_empty());
    assert_eq!(pulled, 0);
}

#[test]
fn closed_output_stops_the_draining() {
    let (out, pulled) = drain((1..=100).collect(), |n: &u32| n % 10 == 0, 3);
    assert_eq!(out, vec![10, 20, 30]);
    assert_eq!(pulled, 40);
}

#[test]
fn stage_pulls_nothing_while_an_element_is_on_its_way() {
    let (stage, action) = filter_stream(|n: &u8| *n > 0).step(FilterEvent::<u8>::Started);
    assert!(matches!(action, FilterAction::Pull));
    assert_eq!(stage.state, FilterState::Draining);
    let (stage, action) = stage.step(FilterEvent::Received(7u8));
    assert!(matches!(action, FilterAction::Forward(7)));
    assert_eq!(stage.state, FilterState::Forwarding);
    let (stage, action) = stage.step(FilterEvent::Received(8u8));
    assert!(matches!(action, FilterAction::Wait));
    let (stage, action) = stage.step(FilterEvent::<u8>::SourceEnded);
    assert!(matches!(action, FilterAction::Wait));
    assert_eq!(stage.state, FilterState::Forwarding);
    let (stage, action) = stage.step(FilterEvent::<u8>::Forwarded);
    assert!(matches!(action, FilterAction::Pull));
    let (stage, action) = stage.step(FilterEvent::Received(0u8));
    assert!(matches!(action, FilterAction::Pull));
    assert_eq!(stage.state, FilterState::Draining);
    let (stage, action) = stage.step(FilterEvent::<u8>::SourceEnded);
    assert!(matches!(action, FilterAction::Stop));
    let (stage, action) = stage.step(FilterEvent::Received(9u8));
    assert!(matches!(action, FilterAction::Stop));
    assert!(stage.is_done());
}

#[test]
fn stage_that_never_ran_can_be_closed() {
    let (stage, action) = filter_stream(|_: &u8| true).step(FilterEvent::<u8>::OutputClosed);
    assert!(matches!(action, FilterAction::Stop));
    assert!(stage.is_done());
    assert_eq!(FILTER_QUEUE_CAPACITY, 128);
}

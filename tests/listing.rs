use cf_r2_sdk::error::OperationError;
use cf_r2_sdk::listing::{ListEvent, ListStep, Listing};

fn run(events: Vec<ListEvent>) -> Result<Vec<String>, OperationError> {
    let mut listing = Listing::new();
    for event in events {
        match listing.step(event) {
            ListStep::Continue(next) => listing = next,
            ListStep::Done(result) => return result,
        }
    }
    panic!("the events ended before the listing did")
}

fn page(keys: &[&str]) -> ListEvent {
    ListEvent::Page(keys.iter().map(|k| Some(k.to_string())).collect())
}

#[test]
fn empty_bucket_lists_nothing() {
    assert_eq!(run(vec![ListEvent::Exhausted]).unwrap(), Vec::<String>::new());
}

#[test]
fn pages_are_concatenated_in_order() {
    let r = run(vec![page(&["a", "b"]), page(&["c"]), ListEvent::Exhausted]).unwrap();
    assert_eq!(r, vec!["a", "b", "c"]);
}

#[test]
fn entry_without_key_is_listed_as_unknown() {
    let r = run(vec![
        ListEvent::Page(vec![Some("a".to_string()), None, Some("b".to_string())]),
        ListEvent::Exhausted,
    ])
    .unwrap();
    assert_eq!(r, vec!["a", "Unknown", "b"]);
}

#[test]
fn failed_page_fails_the_whole_listing() {
    let r = run(vec![page(&["a", "b"]), ListEvent::Failed("timeout".to_string()), page(&["c"])]);
    match r {
        Err(OperationError::AWSSdkS3ListObjectsV2Error(m)) => assert_eq!(m, "timeout"),
        other => panic!("unexpected {:?}", other),
    }
}

#[test]
fn many_distinct_keys_are_each_listed_once() {
    let keys: Vec<String> = (0..25).map(|i| format!("key-{i:02}")).collect();
    let mut events = Vec::new();
    for chunk in keys.chunks(10) {
        events.push(ListEvent::Page(chunk.iter().cloned().map(Some).collect()));
    }
    events.push(ListEvent::Exhausted);
    let listed = run(events).unwrap();
    assert_eq!(listed, keys);
    for k in &keys {
        assert_eq!(listed.iter().filter(|l| *l == k).count(), 1);
    }
}

#[test]
fn page_boundaries_do_not_change_the_listing() {
    let keys: Vec<String> = (0..12).map(|i| format!("k{i}")).collect();
    let split = |size: usize| {
        let mut events: Vec<ListEvent> = keys
            .chunks(size)
            .map(|c| ListEvent::Page(c.iter().cloned().map(Some).collect()))
            .collect();
        events.push(ListEvent::Exhausted);
        run(events).unwrap()
    };
    assert_eq!(split(10), split(3));
    assert_eq!(split(1), keys);
}

use shared_ids::ClientId;
use shared_ids::Id;
use shared_ids::IdIter;
use shared_ids::Replica;
use shared_ids::Request;
use shared_ids::RequestId;

fn values(ids: &[Id<Request>]) -> Vec<u64> {
    ids.iter().map(|id| id.as_u64()).collect()
}

#[test]
fn fresh_generator_starts_at_the_first_identifier() {
    let mut ids: IdIter<Request> = IdIter::default();
    let drawn: Option<RequestId> = ids.next();
    assert!(drawn == Some(RequestId::first()));
}

#[test]
fn three_draws_give_zero_one_two() {
    let mut ids: IdIter<Request> = IdIter::default();
    assert_eq!(ids.next().map(|id| id.as_u64()), Some(0));
    assert_eq!(ids.next().map(|id| id.as_u64()), Some(1));
    assert_eq!(ids.next().map(|id| id.as_u64()), Some(2));
}

#[test]
fn many_draws_count_up_from_zero() {
    let mut ids: IdIter<Replica> = IdIter::default();
    for expected in 0..1000u64 {
        assert_eq!(ids.next().map(|id| id.as_u64()), Some(expected));
    }
}

#[test]
fn draws_are_strictly_increasing() {
    let mut ids: IdIter<Request> = IdIter::default();
    let mut previous: RequestId = ids.next().unwrap();
    for _ in 0..100 {
        let current: RequestId = ids.next().unwrap();
        assert!(previous < current);
        assert_eq!(current.as_u64(), previous.as_u64() + 1);
        previous = current;
    }
}

#[test]
fn two_generators_do_not_share_a_cursor() {
    let mut one: IdIter<Request> = IdIter::default();
    let mut other: IdIter<Request> = IdIter::default();
    assert_eq!(one.next().map(|id| id.as_u64()), Some(0));
    assert_eq!(one.next().map(|id| id.as_u64()), Some(1));
    assert_eq!(other.next().map(|id| id.as_u64()), Some(0));
    assert_eq!(one.next().map(|id| id.as_u64()), Some(2));
    assert_eq!(other.next().map(|id| id.as_u64()), Some(1));
}

#[test]
fn generator_started_at_a_cursor_hands_it_out_first() {
    let mut ids: IdIter<Request> = IdIter::starting_at(RequestId::from_u64(500));
    assert_eq!(ids.next().map(|id| id.as_u64()), Some(500));
    assert_eq!(ids.next().map(|id| id.as_u64()), Some(501));
}

#[test]
fn generator_started_at_the_first_identifier_is_fresh() {
    let mut ids: IdIter<Request> = IdIter::starting_at(RequestId::first());
    assert_eq!(ids.next().map(|id| id.as_u64()), Some(0));
    assert_eq!(ids.next().map(|id| id.as_u64()), Some(1));
}

#[test]
fn cursor_at_the_maximum_yields_nothing() {
    let mut ids: IdIter<Request> = IdIter::starting_at(RequestId::from_u64(u64::MAX));
    assert!(ids.next().is_none());
}

#[test]
fn exhausted_generator_stays_exhausted() {
    let mut ids: IdIter<Request> = IdIter::starting_at(RequestId::from_u64(u64::MAX));
    for _ in 0..1000 {
        assert!(ids.next().is_none());
    }
}

#[test]
fn last_identifier_is_one_below_the_maximum() {
    let mut ids: IdIter<Request> = IdIter::starting_at(RequestId::from_u64(u64::MAX - 1));
    assert_eq!(ids.next().map(|id| id.as_u64()), Some(18446744073709551614));
    assert!(ids.next().is_none());
    assert!(ids.next().is_none());
    assert!(ids.next().is_none());
}

#[test]
fn draws_near_the_top_do_not_wrap_around() {
    let mut ids: IdIter<Request> = IdIter::starting_at(RequestId::from_u64(u64::MAX - 3));
    assert_eq!(ids.next().map(|id| id.as_u64()), Some(u64::MAX - 3));
    assert_eq!(ids.next().map(|id| id.as_u64()), Some(u64::MAX - 2));
    assert_eq!(ids.next().map(|id| id.as_u64()), Some(u64::MAX - 1));
    assert_eq!(ids.next().map(|id| id.as_u64()), None);
    assert_eq!(ids.next().map(|id| id.as_u64()), None);
}

#[test]
fn take_from_a_fresh_generator() {
    let mut ids: IdIter<Request> = IdIter::default();
    let drawn: Vec<RequestId> = ids.take(5);
    assert_eq!(values(&drawn), vec![0, 1, 2, 3, 4]);
}

#[test]
fn take_moves_the_cursor() {
    let mut ids: IdIter<Request> = IdIter::default();
    assert_eq!(values(&ids.take(3)), vec![0, 1, 2]);
    assert_eq!(values(&ids.take(2)), vec![3, 4]);
    assert_eq!(ids.next().map(|id| id.as_u64()), Some(5));
}

#[test]
fn take_nothing() {
    let mut ids: IdIter<Request> = IdIter::default();
    assert!(ids.take(0).is_empty());
    assert_eq!(ids.next().map(|id| id.as_u64()), Some(0));
}

#[test]
fn take_stops_where_the_generator_does() {
    let mut ids: IdIter<Request> = IdIter::starting_at(RequestId::from_u64(u64::MAX - 2));
    let drawn: Vec<RequestId> = ids.take(5);
    assert_eq!(values(&drawn), vec![u64::MAX - 2, u64::MAX - 1]);
    assert!(ids.take(5).is_empty());
    assert!(ids.next().is_none());
}

#[test]
fn take_from_an_exhausted_generator() {
    let mut ids: IdIter<Request> = IdIter::starting_at(RequestId::from_u64(u64::MAX));
    assert!(ids.take(10).is_empty());
    assert!(ids.take(1).is_empty());
}

#[test]
fn take_agrees_with_single_draws() {
    let mut at_once: IdIter<Request> = IdIter::starting_at(RequestId::from_u64(40));
    let mut one_by_one: IdIter<Request> = IdIter::starting_at(RequestId::from_u64(40));
    let drawn: Vec<RequestId> = at_once.take(25);
    assert_eq!(drawn.len(), 25);
    for id in drawn {
        assert!(Some(id) == one_by_one.next());
    }
    assert!(at_once.next() == one_by_one.next());
}

#[test]
fn request_domain_end_to_end() {
    let first: RequestId = RequestId::first();
    assert_eq!(first.as_u64(), 0);
    assert_eq!(first.to_string(), "RequestId(0)");

    let mut ids: IdIter<Request> = IdIter::default();
    let drawn: Vec<RequestId> = vec![
        ids.next().unwrap(),
        ids.next().unwrap(),
        ids.next().unwrap(),
    ];
    assert_eq!(values(&drawn), vec![0, 1, 2]);

    let top: RequestId = RequestId::from_u64(18446744073709551615);
    for id in &drawn {
        assert!(top > *id);
    }
    assert!(top > first);

    let mut spent: IdIter<Request> = IdIter::starting_at(top);
    assert!(spent.next().is_none());
    assert!(spent.next().is_none());
}

#[test]
fn generators_of_other_domains_count_alike() {
    let mut clients: IdIter<shared_ids::Client> = IdIter::default();
    let first: ClientId = clients.next().unwrap();
    let second: ClientId = clients.next().unwrap();
    assert_eq!(first.to_string(), "ClientId(0)");
    assert_eq!(second.to_string(), "ClientId(1)");
}

use voting_system::{close_poll, open_poll, start_poll, vote, Errors, Identity, Poll};

fn id(b: u8) -> Identity {
    Identity::new([b; 32])
}

fn colors_poll(admin: Identity) -> Poll {
    start_poll(
        "Best color?".to_string(),
        false,
        true,
        vec!["red".to_string(), "blue".to_string()],
        admin,
    )
}

fn strings(v: &[&str]) -> Vec<String> {
    v.iter().map(|s| s.to_string()).collect()
}

#[test]
fn create_poll_starts_empty() {
    let a = id(1);
    let poll = colors_poll(a);
    assert_eq!(poll.question(), "Best color?");
    assert!(!poll.admin_can_vote());
    assert!(poll.active());
    assert_eq!(poll.accepted_values(), &strings(&["red", "blue"]));
    assert!(poll.votes().is_empty());
    assert!(poll.voters().is_empty());
    assert_eq!(poll.admin(), a);
}

#[test]
fn vote_accepted_is_recorded() {
    let (a, b) = (id(1), id(2));
    let mut poll = colors_poll(a);
    assert_eq!(vote(&mut poll, "red".to_string(), b), Ok(()));
    assert_eq!(poll.votes(), &strings(&["red"]));
    assert_eq!(poll.voters(), &vec![b]);
}

#[test]
fn vote_wrong_value_refused() {
    let (a, b, c) = (id(1), id(2), id(3));
    let mut poll = colors_poll(a);
    vote(&mut poll, "red".to_string(), b).unwrap();
    assert_eq!(vote(&mut poll, "green".to_string(), c), Err(Errors::WrongValue));
    assert_eq!(poll.votes(), &strings(&["red"]));
    assert_eq!(poll.voters(), &vec![b]);
}

#[test]
fn vote_twice_refused() {
    let (a, b) = (id(1), id(2));
    let mut poll = colors_poll(a);
    vote(&mut poll, "red".to_string(), b).unwrap();
    assert_eq!(vote(&mut poll, "blue".to_string(), b), Err(Errors::AlreadyVoted));
    assert_eq!(poll.votes(), &strings(&["red"]));
    assert_eq!(poll.voters(), &vec![b]);
}

#[test]
fn admin_vote_refused() {
    let a = id(1);
    let mut poll = colors_poll(a);
    assert_eq!(vote(&mut poll, "red".to_string(), a), Err(Errors::AdminCantVote));
    assert!(poll.votes().is_empty());
    assert!(poll.voters().is_empty());
}

#[test]
fn vote_on_closed_poll_refused() {
    let (a, d) = (id(1), id(4));
    let mut poll = colors_poll(a);
    close_poll(&mut poll);
    assert_eq!(vote(&mut poll, "red".to_string(), d), Err(Errors::PollIsClosed));
    assert!(poll.votes().is_empty());
    assert!(poll.voters().is_empty());
}

#[test]
fn admin_may_vote_when_allowed() {
    let a = id(1);
    let mut poll = start_poll("q".to_string(), true, true, strings(&["yes", "no"]), a);
    assert_eq!(vote(&mut poll, "no".to_string(), a), Ok(()));
    assert_eq!(poll.voters(), &vec![a]);
    assert_eq!(poll.votes(), &strings(&["no"]));
}

#[test]
fn closed_check_comes_before_the_others() {
    let a = id(1);
    let mut poll = start_poll("q".to_string(), false, false, strings(&["yes"]), a);
    // admin, wrong value, and closed at once: closed wins
    assert_eq!(vote(&mut poll, "maybe".to_string(), a), Err(Errors::PollIsClosed));
}

#[test]
fn admin_check_comes_before_value_check() {
    let a = id(1);
    let mut poll = colors_poll(a);
    assert_eq!(vote(&mut poll, "green".to_string(), a), Err(Errors::AdminCantVote));
}

#[test]
fn value_check_comes_before_duplicate_check() {
    let (a, b) = (id(1), id(2));
    let mut poll = colors_poll(a);
    vote(&mut poll, "blue".to_string(), b).unwrap();
    assert_eq!(vote(&mut poll, "green".to_string(), b), Err(Errors::WrongValue));
}

#[test]
fn empty_accepted_values_refuse_every_vote() {
    let a = id(1);
    let mut poll = start_poll(String::new(), true, true, Vec::new(), a);
    assert_eq!(vote(&mut poll, String::new(), id(2)), Err(Errors::WrongValue));
    assert!(poll.votes().is_empty());
}

#[test]
fn poll_created_closed_opens() {
    let (a, b) = (id(1), id(2));
    let mut poll = start_poll("q".to_string(), false, false, strings(&["red"]), a);
    assert!(!poll.active());
    assert_eq!(vote(&mut poll, "red".to_string(), b), Err(Errors::PollIsClosed));
    open_poll(&mut poll);
    assert!(poll.active());
    assert_eq!(vote(&mut poll, "red".to_string(), b), Ok(()));
}

#[test]
fn open_and_close_are_idempotent() {
    let a = id(1);
    let mut poll = colors_poll(a);
    open_poll(&mut poll);
    open_poll(&mut poll);
    assert!(poll.active());
    close_poll(&mut poll);
    assert!(!poll.active());
    close_poll(&mut poll);
    assert!(!poll.active());
}

#[test]
fn many_votes_stay_parallel_unique_and_accepted() {
    let a = id(0);
    let mut poll = colors_poll(a);
    let choices = ["red", "blue", "green"];
    for round in 0..3u8 {
        for v in 0..6u8 {
            let _ = vote(&mut poll, choices[(v as usize + round as usize) % 3].to_string(), id(v));
            if v == 3 {
                close_poll(&mut poll);
            } else if v == 4 {
                open_poll(&mut poll);
            }
        }
    }
    assert_eq!(poll.votes().len(), poll.voters().len());
    for i in 0..poll.voters().len() {
        for j in 0..poll.voters().len() {
            if i != j {
                assert_ne!(poll.voters()[i], poll.voters()[j]);
            }
        }
    }
    for v in poll.votes() {
        assert!(v == "red" || v == "blue");
    }
    assert!(!poll.voters().contains(&a));
    assert_eq!(poll.admin(), a);
}

#[test]
fn toggling_keeps_votes_and_admin() {
    let (a, b) = (id(1), id(2));
    let mut poll = colors_poll(a);
    vote(&mut poll, "blue".to_string(), b).unwrap();
    close_poll(&mut poll);
    open_poll(&mut poll);
    assert_eq!(poll.votes(), &strings(&["blue"]));
    assert_eq!(poll.voters(), &vec![b]);
    assert_eq!(poll.admin(), a);
    assert_eq!(poll.accepted_values(), &strings(&["red", "blue"]));
}

#[test]
fn identities_differing_in_last_byte() {
    let mut k = [7u8; 32];
    let x = Identity::new(k);
    k[31] = 8;
    let y = Identity::new(k);
    assert!(x.same_as(&x));
    assert!(!x.same_as(&y));
    let mut poll = start_poll("q".to_string(), false, true, strings(&["a"]), x);
    assert_eq!(vote(&mut poll, "a".to_string(), y), Ok(()));
    assert_eq!(vote(&mut poll, "a".to_string(), x), Err(Errors::AdminCantVote));
}

#[test]
fn stored_poll_round_trips_through_parts() {
    let (a, b) = (id(1), id(2));
    let mut poll = Poll::from_parts(
        "q".to_string(),
        false,
        true,
        strings(&["x", "y"]),
        strings(&["y"]),
        vec![b],
        a,
    );
    assert_eq!(poll.question(), "q");
    assert_eq!(poll.votes(), &strings(&["y"]));
    assert_eq!(poll.voters(), &vec![b]);
    assert_eq!(poll.admin(), a);
    assert_eq!(vote(&mut poll, "x".to_string(), b), Err(Errors::AlreadyVoted));
    assert_eq!(vote(&mut poll, "x".to_string(), id(3)), Ok(()));
    assert_eq!(poll.votes(), &strings(&["y", "x"]));
}

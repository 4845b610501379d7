use shared_adapter::{MessageRecipient, MessageStatus, StatusUpdate, STATUS_COUNT};
use std::cmp::Ordering;

const ALL: [MessageStatus; 9] = [
    MessageStatus::Pending,
    MessageStatus::Sent,
    MessageStatus::Delivered,
    MessageStatus::Read,
    MessageStatus::Responded,
    MessageStatus::Failed,
    MessageStatus::Unknown,
    MessageStatus::Unsubscribed,
    MessageStatus::Unavailable,
];

#[test]
fn ranks_follow_the_canonical_table() {
    assert_eq!(MessageStatus::Pending.to_index(), 0);
    assert_eq!(MessageStatus::Sent.to_index(), 1);
    assert_eq!(MessageStatus::Delivered.to_index(), 2);
    assert_eq!(MessageStatus::Read.to_index(), 3);
    assert_eq!(MessageStatus::Responded.to_index(), 4);
    assert_eq!(MessageStatus::Failed.to_index(), 5);
    assert_eq!(MessageStatus::Unknown.to_index(), 6);
    assert_eq!(MessageStatus::Unsubscribed.to_index(), 7);
    assert_eq!(MessageStatus::Unavailable.to_index(), 8);
    assert_eq!(STATUS_COUNT as usize, ALL.len());
}

#[test]
fn rank_is_injective() {
    for a in ALL {
        for b in ALL {
            if a != b {
                assert_ne!(a.to_index(), b.to_index());
            }
        }
        assert!(a.to_index() < STATUS_COUNT);
        assert_eq!(MessageStatus::from_index(a.to_index()), a);
    }
}

#[test]
fn host_outranks_every_client() {
    assert!(
        MessageRecipient::Host(MessageStatus::Pending)
            > MessageRecipient::Client(MessageStatus::Unsubscribed)
    );
    for s in ALL {
        for t in ALL {
            let h = MessageRecipient::Host(s);
            let c = MessageRecipient::Client(t);
            assert!(h > c);
            assert_eq!(h.compare(&c), Ordering::Greater);
            assert_eq!(c.compare(&h), Ordering::Less);
        }
    }
}

#[test]
fn rank_order_kept_within_a_channel() {
    for s1 in ALL {
        for s2 in ALL {
            if s1.to_index() > s2.to_index() {
                assert!(s1 > s2);
                assert!(MessageRecipient::Host(s1) > MessageRecipient::Host(s2));
                assert!(MessageRecipient::Client(s1) > MessageRecipient::Client(s2));
            }
        }
    }
}

#[test]
fn combined_index_values() {
    assert_eq!(MessageRecipient::Client(MessageStatus::Pending).to_index(), 0);
    assert_eq!(MessageRecipient::Client(MessageStatus::Unavailable).to_index(), 8);
    assert_eq!(MessageRecipient::Host(MessageStatus::Pending).to_index(), 9);
    assert_eq!(MessageRecipient::Host(MessageStatus::Read).to_index(), 12);
    assert_eq!(MessageRecipient::Host(MessageStatus::Unavailable).to_index(), 17);
    assert_eq!(MessageRecipient::Host(MessageStatus::Failed).status(), MessageStatus::Failed);
}

#[test]
fn comparison_is_a_total_order_agreeing_with_ord() {
    let mut all = Vec::new();
    for s in ALL {
        all.push(MessageRecipient::Client(s));
        all.push(MessageRecipient::Host(s));
    }
    for a in &all {
        for b in &all {
            assert_eq!(a.compare(b), a.cmp(b));
            assert_eq!(a.partial_cmp(b), Some(a.cmp(b)));
            assert_eq!(a.compare(b) == Ordering::Equal, a == b);
        }
    }
    for a in ALL {
        for b in ALL {
            assert_eq!(a.compare(&b), a.cmp(&b));
            assert_eq!(a.partial_cmp(&b), Some(a.cmp(&b)));
        }
    }
}

#[test]
fn max_picks_the_most_significant_report() {
    let reports = vec![
        MessageRecipient::Client(MessageStatus::Unsubscribed),
        MessageRecipient::Host(MessageStatus::Sent),
        MessageRecipient::Client(MessageStatus::Failed),
        MessageRecipient::Host(MessageStatus::Pending),
    ];
    assert_eq!(
        reports.iter().max(),
        Some(&MessageRecipient::Host(MessageStatus::Sent))
    );
}

#[test]
fn wire_strings() {
    assert_eq!(MessageStatus::Pending.to_string(), "pending");
    assert_eq!(MessageStatus::Sent.to_string(), "sent");
    assert_eq!(MessageStatus::Delivered.to_string(), "delivered");
    assert_eq!(MessageStatus::Read.to_string(), "read");
    assert_eq!(MessageStatus::Responded.to_string(), "responded");
    assert_eq!(MessageStatus::Failed.to_string(), "failed");
    assert_eq!(MessageStatus::Unknown.to_string(), "not sent");
    assert_eq!(MessageStatus::Unsubscribed.to_string(), "unsubscribed");
    assert_eq!(MessageStatus::Unavailable.to_string(), "unavailable");
}

#[test]
fn wire_round_trip() {
    for v in ALL {
        assert_eq!(MessageStatus::from_string(&v.to_string()), v);
    }
}

#[test]
fn parse_ignores_case_and_falls_back_to_unknown() {
    assert_eq!(MessageStatus::from_string("SENT"), MessageStatus::Sent);
    assert_eq!(MessageStatus::from_string("sent"), MessageStatus::Sent);
    assert_eq!(MessageStatus::from_string("Delivered"), MessageStatus::Delivered);
    assert_eq!(MessageStatus::from_string("NOT SENT"), MessageStatus::Unknown);
    assert_eq!(MessageStatus::from_string("bogus"), MessageStatus::Unknown);
    assert_eq!(MessageStatus::from_string(""), MessageStatus::Unknown);
    assert_eq!(MessageStatus::from_string("sent "), MessageStatus::Unknown);
    assert_eq!(MessageStatus::from_string("unknown"), MessageStatus::Unknown);
}

#[test]
fn default_status_is_unknown() {
    assert_eq!(MessageStatus::default(), MessageStatus::Unknown);
}

#[test]
fn status_update_holds_its_report() {
    let u = StatusUpdate {
        recipient_id: "r-1".to_string(),
        status: MessageRecipient::Client(MessageStatus::Read),
    };
    assert_eq!(u.status.status(), MessageStatus::Read);
    assert_eq!(u.recipient_id, "r-1");
}

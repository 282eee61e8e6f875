use campaign_service::campaign::{size_check, validate_size};
use campaign_service::{
    Campaign, CampaignPayload, CampaignService, DonationPayload, Error, Regions, MAX_RECORD_BYTES,
};

fn blank_service() -> CampaignService {
    CampaignService::init(Regions::open()).expect("blank regions open")
}

fn payload(title: &str, goal_amount: u64) -> CampaignPayload {
    CampaignPayload {
        title: title.to_string(),
        description: "description".to_string(),
        goal_amount,
        creator: "creator".to_string(),
    }
}

fn payload_with_creator_of(len: usize) -> CampaignPayload {
    CampaignPayload {
        title: String::new(),
        description: String::new(),
        goal_amount: 10,
        creator: "c".repeat(len),
    }
}

fn size_exceeded() -> Error {
    Error::SizeExceeded { msg: "Campaign data exceeds the max size of 1024".to_string() }
}

#[test]
fn created_ids_are_distinct_and_increasing() {
    let mut service = blank_service();
    let mut ids: Vec<u64> = Vec::new();
    for round in 0..20u64 {
        let created = service.create_campaign(payload("campaign", round), round).unwrap().unwrap();
        ids.push(created.id);
        if round % 3 == 0 {
            service.delete_campaign(created.id).unwrap();
        }
        if round % 4 == 1 {
            let _ = service.donate_to_campaign(DonationPayload { campaign_id: created.id, amount: 1 });
        }
    }
    assert_eq!(ids, (1..=20).collect::<Vec<u64>>());
    for pair in ids.windows(2) {
        assert!(pair[0] < pair[1]);
    }
}

#[test]
fn rejected_creation_uses_up_its_id() {
    let mut service = blank_service();
    assert_eq!(service.create_campaign(payload("first", 1), 0).unwrap().unwrap().id, 1);
    let rejected = service.create_campaign(payload_with_creator_of(2000), 0).unwrap();
    assert_eq!(rejected, Err(size_exceeded()));
    assert_eq!(service.last_id(), 2);
    assert!(service.get_campaign(2).is_err());
    assert_eq!(service.create_campaign(payload("third", 1), 0).unwrap().unwrap().id, 3);
}

#[test]
fn donations_never_lift_the_raised_amount_above_the_goal() {
    let mut service = blank_service();
    service.create_campaign(payload("bridge", 1000), 0).unwrap().unwrap();
    let amounts: [u64; 10] = [0, 300, 800, 1, 699, 1, 0, u64::MAX, 1000, 5];
    let mut expected: u64 = 0;
    for amount in amounts {
        let outcome = service.donate_to_campaign(DonationPayload { campaign_id: 1, amount });
        let stored = service.get_campaign(1).unwrap();
        assert!(stored.raised_amount <= stored.goal_amount);
        match expected.checked_add(amount) {
            Some(sum) if sum <= 1000 => {
                assert!(outcome.is_ok());
                expected = sum;
            }
            _ => assert!(matches!(outcome, Err(Error::NotEnoughFunds { .. }))),
        }
        assert_eq!(stored.raised_amount, expected);
    }
    assert_eq!(expected, 1000);
}

#[test]
fn update_may_set_a_goal_below_what_was_raised() {
    let mut service = blank_service();
    service.create_campaign(payload("well", 500), 0).unwrap().unwrap();
    service.donate_to_campaign(DonationPayload { campaign_id: 1, amount: 400 }).unwrap();
    let updated = service.update_campaign(1, payload("well", 100), 9).unwrap();
    assert_eq!(updated.goal_amount, 100);
    assert_eq!(updated.raised_amount, 400);
    let rejected = service.donate_to_campaign(DonationPayload { campaign_id: 1, amount: 0 });
    assert!(matches!(rejected, Err(Error::NotEnoughFunds { .. })));
    assert_eq!(service.get_campaign(1).unwrap().raised_amount, 400);
}

#[test]
fn failed_update_and_donation_leave_the_record_as_it_was() {
    let mut service = blank_service();
    service.create_campaign(payload("library", 50), 3).unwrap().unwrap();
    service.donate_to_campaign(DonationPayload { campaign_id: 1, amount: 20 }).unwrap();
    let before = service.get_campaign(1).unwrap();
    let bytes_before = before.to_bytes();

    let mut too_long = payload("library", 50);
    too_long.description = "d".repeat(1100);
    assert_eq!(service.update_campaign(1, too_long, 5), Err(size_exceeded()));
    assert_eq!(service.get_campaign(1).unwrap(), before);
    assert_eq!(service.get_campaign(1).unwrap().to_bytes(), bytes_before);

    let over = service.donate_to_campaign(DonationPayload { campaign_id: 1, amount: 31 });
    assert!(matches!(over, Err(Error::NotEnoughFunds { .. })));
    assert_eq!(service.get_campaign(1).unwrap(), before);
    assert_eq!(service.get_campaign(1).unwrap().to_bytes(), bytes_before);

    assert!(service.update_campaign(2, payload("other", 1), 6).is_err());
    assert!(service.donate_to_campaign(DonationPayload { campaign_id: 2, amount: 1 }).is_err());
    assert_eq!(service.get_campaign(1).unwrap(), before);
    assert_eq!(service.last_id(), 1);
}

#[test]
fn deleted_id_stays_unknown() {
    let mut service = blank_service();
    for round in 0..3u64 {
        service.create_campaign(payload("campaign", 100), round).unwrap().unwrap();
    }
    service.delete_campaign(2).unwrap();
    let not_found = Err(Error::NotFound { msg: "Campaign with id=2 not found".to_string() });
    assert_eq!(service.get_campaign(2), not_found);
    for round in 0..10u64 {
        let created = service.create_campaign(payload("later", 100), round).unwrap().unwrap();
        assert_ne!(created.id, 2);
        assert_eq!(service.get_campaign(2), not_found);
    }
    assert!(service.update_campaign(2, payload("again", 1), 0).is_err());
    assert!(service.donate_to_campaign(DonationPayload { campaign_id: 2, amount: 1 }).is_err());
    assert!(service.delete_campaign(2).is_err());
    assert_eq!(service.get_campaign(2), not_found);
    assert_eq!(service.get_campaign(1).unwrap().id, 1);
    assert_eq!(service.get_campaign(3).unwrap().id, 3);
}

#[test]
fn record_of_exactly_the_bound_is_stored_and_one_byte_more_is_rejected() {
    let mut service = blank_service();
    // With empty title and description, the wire form takes 60 bytes and
    // the creator.
    let at_bound = service.create_campaign(payload_with_creator_of(964), 0).unwrap().unwrap();
    assert_eq!(at_bound.to_bytes().len(), MAX_RECORD_BYTES);
    assert_eq!(service.get_campaign(1), Ok(at_bound));

    let above = service.create_campaign(payload_with_creator_of(965), 0).unwrap();
    assert_eq!(above, Err(size_exceeded()));
    assert!(service.get_campaign(2).is_err());
}

#[test]
fn update_that_outgrows_the_bound_is_rejected() {
    let mut service = blank_service();
    let created = service.create_campaign(payload_with_creator_of(964), 0).unwrap().unwrap();
    let mut longer = payload_with_creator_of(964);
    longer.title = "t".to_string();
    assert_eq!(service.update_campaign(1, longer, 7), Err(size_exceeded()));
    assert_eq!(service.get_campaign(1), Ok(created));

    let mut same_length = payload_with_creator_of(0);
    same_length.goal_amount = u64::MAX;
    let updated = service.update_campaign(1, same_length, 7).unwrap();
    assert_eq!(updated.updated_at, Some(7));
    assert_eq!(updated.goal_amount, u64::MAX);
    assert_eq!(updated.creator.len(), 964);
    assert_eq!(updated.to_bytes().len(), MAX_RECORD_BYTES);
    assert_eq!(service.get_campaign(1), Ok(updated));
}

#[test]
fn donation_to_a_record_at_the_bound_is_taken() {
    let mut service = blank_service();
    service.create_campaign(payload_with_creator_of(964), 0).unwrap().unwrap();
    service.donate_to_campaign(DonationPayload { campaign_id: 1, amount: 10 }).unwrap();
    let stored = service.get_campaign(1).unwrap();
    assert_eq!(stored.raised_amount, 10);
    assert_eq!(stored.to_bytes().len(), MAX_RECORD_BYTES);
}

#[test]
fn validate_size_accepts_up_to_the_bound() {
    let mut campaign = Campaign {
        id: 1,
        title: String::new(),
        description: String::new(),
        goal_amount: 0,
        raised_amount: 0,
        created_at: 0,
        updated_at: None,
        creator: "c".repeat(964),
    };
    assert_eq!(validate_size(&campaign), Ok(()));
    campaign.updated_at = Some(u64::MAX);
    assert_eq!(validate_size(&campaign), Ok(()));
    campaign.creator.push('c');
    assert_eq!(validate_size(&campaign), Err(size_exceeded()));
    campaign.creator = "c".repeat(900);
    campaign.title = "\u{1F3E0}".repeat(16);
    assert_eq!(campaign.to_bytes().len(), 1024);
    assert_eq!(validate_size(&campaign), Ok(()));
    campaign.description.push('d');
    assert_eq!(validate_size(&campaign), Err(size_exceeded()));
}

#[test]
fn size_check_accepts_up_to_the_bound() {
    assert_eq!(size_check(0), Ok(()));
    assert_eq!(size_check(1), Ok(()));
    assert_eq!(size_check(1023), Ok(()));
    assert_eq!(size_check(1024), Ok(()));
    assert_eq!(size_check(MAX_RECORD_BYTES), Ok(()));
    assert_eq!(size_check(1025), Err(size_exceeded()));
    assert_eq!(size_check(4096), Err(size_exceeded()));
    assert_eq!(size_check(usize::MAX), Err(size_exceeded()));
}

use campaign_service::{
    Campaign, CampaignPayload, CampaignService, DonationPayload, Error, Regions,
};

const T0: u64 = 1_700_000_000_000_000_000;
const T1: u64 = 1_700_000_360_000_000_000;

fn fresh_service() -> CampaignService {
    CampaignService::init(Regions::open()).expect("blank regions open")
}

fn roof_repair() -> CampaignPayload {
    CampaignPayload {
        title: "Roof Repair".to_string(),
        description: "Fix roof".to_string(),
        goal_amount: 1000,
        creator: "alice".to_string(),
    }
}

fn service_with_roof_repair() -> CampaignService {
    let mut service = fresh_service();
    service.create_campaign(roof_repair(), T0).unwrap().unwrap();
    service
}

fn donate(service: &mut CampaignService, campaign_id: u64, amount: u64) -> Result<String, Error> {
    service.donate_to_campaign(DonationPayload { campaign_id, amount })
}

#[test]
fn create_returns_the_first_campaign() {
    let mut service = fresh_service();
    let created = service.create_campaign(roof_repair(), T0).unwrap().unwrap();
    assert_eq!(
        created,
        Campaign {
            id: 1,
            title: "Roof Repair".to_string(),
            description: "Fix roof".to_string(),
            goal_amount: 1000,
            raised_amount: 0,
            created_at: T0,
            updated_at: None,
            creator: "alice".to_string(),
        }
    );
    assert_eq!(service.get_campaign(1), Ok(created));
    assert_eq!(service.last_id(), 1);
}

#[test]
fn donation_is_credited_and_confirmed() {
    let mut service = service_with_roof_repair();
    let receipt = donate(&mut service, 1, 400).unwrap();
    assert_eq!(receipt, "Donation of 400 accepted to campaign 1");
    assert!(receipt.contains("400"));
    assert!(receipt.contains("1"));
    assert_eq!(service.get_campaign(1).unwrap().raised_amount, 400);
}

#[test]
fn donation_above_the_goal_is_rejected() {
    let mut service = service_with_roof_repair();
    donate(&mut service, 1, 400).unwrap();
    let rejected = donate(&mut service, 1, 700);
    assert_eq!(
        rejected,
        Err(Error::NotEnoughFunds { msg: "Donation exceeds the campaign goal".to_string() })
    );
    assert_eq!(service.get_campaign(1).unwrap().raised_amount, 400);
}

#[test]
fn update_raises_the_goal_and_keeps_what_was_raised() {
    let mut service = service_with_roof_repair();
    donate(&mut service, 1, 400).unwrap();
    let payload = CampaignPayload {
        title: "Roof Repair v2".to_string(),
        description: "Fix roof and gutter".to_string(),
        goal_amount: 1500,
        creator: "mallory".to_string(),
    };
    let updated = service.update_campaign(1, payload, T1).unwrap();
    assert_eq!(
        updated,
        Campaign {
            id: 1,
            title: "Roof Repair v2".to_string(),
            description: "Fix roof and gutter".to_string(),
            goal_amount: 1500,
            raised_amount: 400,
            created_at: T0,
            updated_at: Some(T1),
            creator: "alice".to_string(),
        }
    );
    assert_eq!(service.get_campaign(1), Ok(updated));
}

#[test]
fn donation_succeeds_once_the_goal_was_raised() {
    let mut service = service_with_roof_repair();
    donate(&mut service, 1, 400).unwrap();
    assert!(donate(&mut service, 1, 700).is_err());
    let mut payload = roof_repair();
    payload.title = "Roof Repair v2".to_string();
    payload.goal_amount = 1500;
    service.update_campaign(1, payload, T1).unwrap();
    let receipt = donate(&mut service, 1, 700).unwrap();
    assert_eq!(receipt, "Donation of 700 accepted to campaign 1");
    let stored = service.get_campaign(1).unwrap();
    assert_eq!(stored.raised_amount, 1100);
    assert_eq!(stored.goal_amount, 1500);
    assert_eq!(stored.updated_at, Some(T1));
}

#[test]
fn reading_an_unknown_campaign_is_not_found() {
    let service = service_with_roof_repair();
    assert_eq!(
        service.get_campaign(99),
        Err(Error::NotFound { msg: "Campaign with id=99 not found".to_string() })
    );
}

#[test]
fn updating_an_unknown_campaign_is_not_found() {
    let mut service = service_with_roof_repair();
    assert_eq!(
        service.update_campaign(7, roof_repair(), T1),
        Err(Error::NotFound { msg: "Campaign with id=7 not found".to_string() })
    );
    assert_eq!(service.get_campaign(1).unwrap().updated_at, None);
}

#[test]
fn donating_to_an_unknown_campaign_is_not_found() {
    let mut service = fresh_service();
    assert_eq!(
        donate(&mut service, 1, 10),
        Err(Error::NotFound { msg: "Campaign with id=1 not found".to_string() })
    );
}

#[test]
fn delete_returns_the_record_and_removes_it() {
    let mut service = service_with_roof_repair();
    let stored = service.get_campaign(1).unwrap();
    assert_eq!(service.delete_campaign(1), Ok(stored));
    assert_eq!(
        service.delete_campaign(1),
        Err(Error::NotFound { msg: "Campaign with id=1 not found".to_string() })
    );
}

#[test]
fn donation_up_to_the_goal_is_taken_in_full() {
    let mut service = service_with_roof_repair();
    donate(&mut service, 1, 400).unwrap();
    donate(&mut service, 1, 600).unwrap();
    assert_eq!(service.get_campaign(1).unwrap().raised_amount, 1000);
    assert!(donate(&mut service, 1, 1).is_err());
    assert_eq!(donate(&mut service, 1, 0).unwrap(), "Donation of 0 accepted to campaign 1");
    assert_eq!(service.get_campaign(1).unwrap().raised_amount, 1000);
}

#[test]
fn donation_whose_sum_overflows_is_rejected() {
    let mut service = fresh_service();
    let mut payload = roof_repair();
    payload.goal_amount = u64::MAX;
    service.create_campaign(payload, T0).unwrap().unwrap();
    donate(&mut service, 1, 5).unwrap();
    assert_eq!(
        donate(&mut service, 1, u64::MAX),
        Err(Error::NotEnoughFunds { msg: "Donation exceeds the campaign goal".to_string() })
    );
    assert_eq!(service.get_campaign(1).unwrap().raised_amount, 5);
    donate(&mut service, 1, u64::MAX - 5).unwrap();
    assert_eq!(service.get_campaign(1).unwrap().raised_amount, u64::MAX);
}

#[test]
fn donation_does_not_touch_the_update_time() {
    let mut service = service_with_roof_repair();
    donate(&mut service, 1, 10).unwrap();
    assert_eq!(service.get_campaign(1).unwrap().updated_at, None);
    service.update_campaign(1, roof_repair(), T1).unwrap();
    donate(&mut service, 1, 10).unwrap();
    assert_eq!(service.get_campaign(1).unwrap().updated_at, Some(T1));
}

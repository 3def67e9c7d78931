//! Tests of the crowdfunding ledger: campaign creation and reads, the
//! donation payment splitter, the donor ledger and the reward.

use marketplace::{Campaign, CampaignError, CrowdFund, REWARD_FACTOR};

struct Setup {
    client: CrowdFund,
    contract_token: u64,
    artist1: u64,
    artist2: u64,
    donor1: u64,
    donor2: u64,
    title: String,
    description: String,
    target: i128,
    target1: i128,
    deadline: u64,
    image: String,
    campaign1: Campaign,
    campaign2: Campaign,
    category: String,
    now: u64,
}

impl Setup {
    fn new() -> Self {
        let mut client = CrowdFund::new();

        // Accounts: the development and launchpad beneficiaries, the
        // reward token contract and its administrator, then the
        // payment token, artists and donors.
        let dev_acc: u64 = 1;
        let launchpad_acc: u64 = 2;
        let contract_arty: u64 = 3;
        let token_admin: u64 = 4;
        client
            .initialize(dev_acc, launchpad_acc, contract_arty, token_admin)
            .unwrap();

        let contract_token: u64 = 5;
        let artist1: u64 = 10;
        let artist2: u64 = 11;
        let donor1: u64 = 20;
        let donor2: u64 = 21;

        // Campaign details.
        let title = String::from("New Title");
        let description = String::from("New Desc");
        let category = String::from("Music");
        let target: i128 = 2000;
        let target1 = 300;
        let deadline = 1692574408;
        let now = 1692574000;
        let image = String::from("https://avatars.githubusercontent.com/u/43227117?s=400&u=f9fa09edf5ea7a342c28f54fd0da5a7ac53b3eed&v=4");

        let campaign1 = client
            .create_campaign(
                now,
                artist1,
                title.clone(),
                description.clone(),
                image.clone(),
                target,
                deadline,
                category.clone(),
            )
            .unwrap();
        let campaign2 = client
            .create_campaign(
                now,
                artist2,
                title.clone(),
                description.clone(),
                image.clone(),
                target1,
                deadline,
                category.clone(),
            )
            .unwrap();

        Self {
            client,
            contract_token,
            artist1,
            artist2,
            donor1,
            donor2,
            title,
            description,
            target,
            target1,
            deadline,
            image,
            campaign1,
            campaign2,
            category,
            now,
        }
    }
}

#[test]
fn test_all_created_campaigns() {
    let setup = Setup::new();

    let exp_campaign1 = Campaign {
        id: 1,
        owner: setup.artist1,
        title: setup.title.clone(),
        description: setup.description.clone(),
        target: setup.target,
        deadline: setup.deadline,
        amount_collected: 0,
        status: true,
        image: setup.image.clone(),
        category: setup.category.clone(),
        donators: Vec::new(),
        donations: Vec::new(),
    };

    let exp_campaign2 = Campaign {
        id: 2,
        owner: setup.artist2,
        title: setup.title,
        description: setup.description,
        target: setup.target1,
        deadline: setup.deadline,
        amount_collected: 0,
        status: true,
        category: setup.category.clone(),
        image: setup.image,
        donators: Vec::new(),
        donations: Vec::new(),
    };

    assert_eq!(setup.campaign1, exp_campaign1);
    assert_eq!(setup.campaign2, exp_campaign2);

    // Get all campaigns before any donation.
    let all_campaigns = setup.client.get_campaigns();

    let all_camp_exp = vec![exp_campaign1, exp_campaign2];

    assert_eq!(all_campaigns, all_camp_exp);
}

#[test]
fn test_donate_to_campaigns_and_payment_splitter() {
    let mut setup = Setup::new();

    let amount1: i128 = 100;
    let splitted_amount1 = setup
        .client
        .donate_to_campaign(1, setup.donor1, amount1, setup.contract_token)
        .unwrap();

    assert_eq!(splitted_amount1, (95, 2, 3));

    let amount2: i128 = 150;
    let splitted_amount2 = setup
        .client
        .donate_to_campaign(2, setup.donor2, amount2, setup.contract_token)
        .unwrap();

    assert_eq!(splitted_amount2, (142, 3, 4));

    let amount3: i128 = 149;
    let splitted_amount3 = setup
        .client
        .donate_to_campaign(2, setup.donor1, amount3, setup.contract_token)
        .unwrap();

    assert_eq!(splitted_amount3, (141, 2, 4));

    // Donators of campaign 2, most recent first.
    let donators = setup.client.get_donators(2).unwrap();

    let exp_donators = vec![setup.donor1, setup.donor2];

    assert_eq!(donators, exp_donators);

    // The amounts owed to each beneficiary over the three donations:
    // dev takes the third component of each split, launchpad the
    // second, each artist the first component of the donations to the
    // artist's own campaign.
    let dev_total = splitted_amount1.2 + splitted_amount2.2 + splitted_amount3.2;
    let launchpad_total = splitted_amount1.1 + splitted_amount2.1 + splitted_amount3.1;

    assert_eq!(dev_total, 11);
    assert_eq!(launchpad_total, 7);
    assert_eq!(splitted_amount1.0, 95);
    assert_eq!(splitted_amount2.0 + splitted_amount3.0, 283);

    // The donor ledgers record how much each donor gave in all: 100 to
    // campaign 1 and 149 to campaign 2 from the first donor, 150 to
    // campaign 2 from the second.
    let campaign1 = setup.client.get_campaign(1);
    let campaign2 = setup.client.get_campaign(2);
    let donated = |campaign: &Campaign, donor: u64| -> i128 {
        let mut sum = 0;
        for (idx, d) in campaign.donators.iter().enumerate() {
            if *d == donor {
                sum += campaign.donations[idx];
            }
        }
        sum
    };
    assert_eq!(donated(&campaign1, setup.donor1) + donated(&campaign2, setup.donor1), 249);
    assert_eq!(donated(&campaign2, setup.donor2), 150);
    assert_eq!(campaign1.amount_collected, 100);
    assert_eq!(campaign2.amount_collected, 299);
}

#[test]
fn test_campaign_donation_scenario() {
    let mut setup = Setup::new();

    // One donation of 100 against a target of 2000 with percentages
    // 95/2/3 yields shares (95, 2, 3) in the raw denomination.
    let shares = setup
        .client
        .donate_to_campaign(1, setup.donor1, 100, setup.contract_token)
        .unwrap();
    assert_eq!(shares, (95, 2, 3));

    let campaign = setup.client.get_campaign(1);
    assert_eq!(campaign.amount_collected, 100);
    assert_eq!(campaign.donators, vec![setup.donor1]);
    assert_eq!(campaign.donations, vec![100]);
}

#[test]
fn test_donation_above_target_rejected() {
    let mut setup = Setup::new();

    // Campaign 2 has target 300.  A donation of 299 fits; another of
    // 50 would push the collected amount above the target and is
    // rejected, leaving the collected amount and the ledger unchanged.
    setup
        .client
        .donate_to_campaign(2, setup.donor1, 299, setup.contract_token)
        .unwrap();
    let before = setup.client.get_campaign(2);

    let result = setup
        .client
        .donate_to_campaign(2, setup.donor2, 50, setup.contract_token);
    assert_eq!(result, Err(CampaignError::AmountExceedTargetLimit));

    let after = setup.client.get_campaign(2);
    assert_eq!(after.amount_collected, before.amount_collected);
    assert_eq!(after.donators, before.donators);
    assert_eq!(after.donations, before.donations);
}

#[test]
fn test_donation_target_reached() {
    let mut setup = Setup::new();

    // Fill campaign 2 exactly to its target of 300, then donate again.
    setup
        .client
        .donate_to_campaign(2, setup.donor1, 300, setup.contract_token)
        .unwrap();
    let result = setup
        .client
        .donate_to_campaign(2, setup.donor2, 50, setup.contract_token);
    assert_eq!(result, Err(CampaignError::TargetReached));
}

#[test]
fn test_donation_too_low_for_splitter() {
    let mut setup = Setup::new();

    // At 49 the launchpad's two percent floors to zero, so the whole
    // split is refused; at 50 every share is positive.
    let result = setup
        .client
        .donate_to_campaign(1, setup.donor1, 49, setup.contract_token);
    assert_eq!(result, Err(CampaignError::LowAmountForSplitter));
    assert_eq!(setup.client.get_campaign(1).amount_collected, 0);

    let shares = setup
        .client
        .donate_to_campaign(1, setup.donor1, 50, setup.contract_token)
        .unwrap();
    assert_eq!(shares, (47, 1, 1));
}

#[test]
fn test_donate_unknown_campaign() {
    let mut setup = Setup::new();
    let result = setup
        .client
        .donate_to_campaign(3, setup.donor1, 100, setup.contract_token);
    assert_eq!(result, Err(CampaignError::CampaignNotExist));
    let result = setup
        .client
        .donate_to_campaign(0, setup.donor1, 100, setup.contract_token);
    assert_eq!(result, Err(CampaignError::CampaignNotExist));
}

#[test]
fn test_donate_zero_amount() {
    let mut setup = Setup::new();
    let result = setup
        .client
        .donate_to_campaign(1, setup.donor1, 0, setup.contract_token);
    assert_eq!(result, Err(CampaignError::AmountMustNonZero));
    let result = setup
        .client
        .donate_to_campaign(1, setup.donor1, -3, setup.contract_token);
    assert_eq!(result, Err(CampaignError::AmountMustNonZero));
}

#[test]
fn test_create_campaign_past_deadline() {
    let mut setup = Setup::new();
    let result = setup.client.create_campaign(
        setup.now,
        setup.artist1,
        setup.title.clone(),
        setup.description.clone(),
        setup.image.clone(),
        1000,
        setup.now - 5,
        setup.category.clone(),
    );
    assert_eq!(result, Err(CampaignError::DeadlineShouldBeFuture));

    // A deadline equal to the clock is not strictly in the future.
    let result = setup.client.create_campaign(
        setup.now,
        setup.artist1,
        setup.title.clone(),
        setup.description.clone(),
        setup.image.clone(),
        1000,
        setup.now,
        setup.category.clone(),
    );
    assert_eq!(result, Err(CampaignError::DeadlineShouldBeFuture));

    // The failed attempts did not advance the counter.
    assert_eq!(setup.client.get_campaigns().len(), 2);
}

#[test]
fn test_campaign_initialize_twice() {
    let mut setup = Setup::new();
    let second = setup.client.initialize(7, 8, 9, 10);
    assert_eq!(second, Err(CampaignError::AlreadyInitialized));

    // The bindings of the first call remain.
    assert_eq!(setup.client.get_dev_acc(), 1);
    assert_eq!(setup.client.get_launchpad_acc(), 2);
    assert_eq!(setup.client.get_token_acc(), 3);
    assert_eq!(setup.client.get_admin(), 4);
}

#[test]
fn test_get_donators_unknown_campaign() {
    let setup = Setup::new();
    assert_eq!(
        setup.client.get_donators(9),
        Err(CampaignError::CampaignNotExist)
    );
}

#[test]
fn test_get_campaign_sentinel() {
    let setup = Setup::new();
    let sentinel = setup.client.get_campaign(0);
    assert_eq!(sentinel.id, 0);
    assert_eq!(sentinel.owner, 0);
    assert_eq!(sentinel.title, String::new());
    assert_eq!(sentinel.amount_collected, 0);
    assert_eq!(sentinel.status, false);
    assert!(sentinel.donators.is_empty());
    assert!(sentinel.donations.is_empty());

    let sentinel = setup.client.get_campaign(9);
    assert_eq!(sentinel.id, 0);
}

#[test]
fn test_donate_transfers_order() {
    let setup = Setup::new();
    let transfers = setup
        .client
        .donate_transfers(1, setup.donor1, 100, setup.contract_token);
    assert_eq!(transfers.len(), 4);

    // The campaign owner first, then the operational roles.
    assert_eq!(transfers[0].token, setup.contract_token);
    assert_eq!(transfers[0].from, setup.donor1);
    assert_eq!(transfers[0].to, setup.artist1);
    assert_eq!(transfers[0].amount, 95);

    assert_eq!(transfers[1].to, 2);
    assert_eq!(transfers[1].amount, 2);

    assert_eq!(transfers[2].to, 1);
    assert_eq!(transfers[2].amount, 3);

    // Finally the administrator issues the donor's reward from the
    // reward token.
    assert_eq!(transfers[3].token, 3);
    assert_eq!(transfers[3].from, 4);
    assert_eq!(transfers[3].to, setup.donor1);
    assert_eq!(transfers[3].amount, 100 * REWARD_FACTOR);
}

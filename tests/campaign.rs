use solfundme::{
    cancel_pledge, cancel_transfer, check_campaign, claim_funds, claim_transfer,
    find_active_pledge, init_campaign, pledge_transfer, send_pledge, Campaign, CampaignError,
    CancelPledge, CheckCampaign, ClaimFunds, Identity, InitCampaign, Party, Pledger, SendPledge,
    Transfer, TransferFailed,
};

fn id(n: u64) -> Identity {
    Identity { w0: n, w1: 0, w2: 0, w3: 0 }
}

const OWNER: u64 = 1;
const START: i64 = 1_000;
const DURATION: i64 = 100;

fn open(goal: u64) -> Campaign {
    let ctx = InitCampaign { user: id(OWNER), now: START, record_exists: false };
    init_campaign(&ctx, "name".to_string(), "description".to_string(), goal, DURATION).unwrap()
}

fn pledge(c: Campaign, user: u64, amount: u64, now: i64) -> (Campaign, Result<(), CampaignError>) {
    let mut ctx = SendPledge { campaign: c, user: id(user), now };
    let r = send_pledge(&mut ctx, amount, Ok(()));
    (ctx.campaign, r)
}

fn cancel(c: Campaign, user: u64, now: i64) -> (Campaign, Result<(), CampaignError>) {
    let mut ctx = CancelPledge { campaign: c, user: id(user), now };
    let r = cancel_pledge(&mut ctx, Ok(()));
    (ctx.campaign, r)
}

fn resolve(c: Campaign, now: i64) -> (Campaign, Result<(), CampaignError>) {
    let mut ctx = CheckCampaign { campaign: c, now };
    let r = check_campaign(&mut ctx);
    (ctx.campaign, r)
}

fn claim(c: Campaign, user: u64) -> (Campaign, Result<(), CampaignError>, Result<Transfer, CampaignError>) {
    let mut ctx = ClaimFunds { campaign: c, user: id(user) };
    let t = claim_transfer(&ctx);
    let r = claim_funds(&mut ctx, Ok(()));
    (ctx.campaign, r, t)
}

fn active_sum(c: &Campaign) -> u64 {
    c.pledgers.iter().map(|p| p.pledge).sum()
}

#[test]
fn init_opens_empty_campaign() {
    let c = open(100);
    assert_eq!(c.goal, 100);
    assert_eq!(c.owner, id(OWNER));
    assert_eq!(c.pledged, 0);
    assert!(c.pledgers.is_empty());
    assert_eq!(c.name, "name");
    assert_eq!(c.description, "description");
    assert!(c.is_active);
    assert!(!c.is_funded);
    assert!(!c.payout_claimed);
    assert_eq!(c.timestamp_start, START);
    assert_eq!(c.timestamp_end, START + DURATION);
}

#[test]
fn init_errors() {
    let exists = InitCampaign { user: id(OWNER), now: START, record_exists: true };
    let r = init_campaign(&exists, String::new(), String::new(), 1, 10);
    assert_eq!(r.err(), Some(CampaignError::AlreadyExists));
    let ctx = InitCampaign { user: id(OWNER), now: START, record_exists: false };
    assert_eq!(init_campaign(&ctx, String::new(), String::new(), 1, 0).err(), Some(CampaignError::InvalidDuration));
    assert_eq!(init_campaign(&ctx, String::new(), String::new(), 1, -5).err(), Some(CampaignError::InvalidDuration));
    let late = InitCampaign { user: id(OWNER), now: i64::MAX - 5, record_exists: false };
    assert_eq!(init_campaign(&late, String::new(), String::new(), 1, 10).err(), Some(CampaignError::Overflow));
    assert!(init_campaign(&late, String::new(), String::new(), 1, 5).is_ok());
}

#[test]
fn pledge_records_entry_and_total() {
    let c = open(100);
    let ctx = SendPledge { campaign: c.clone(), user: id(7), now: START + 1 };
    assert_eq!(
        pledge_transfer(&ctx, 30),
        Ok(Transfer { from: Party::User(id(7)), to: Party::Campaign, amount: 30 })
    );
    let (c, r) = pledge(c, 7, 30, START + 1);
    assert_eq!(r, Ok(()));
    assert_eq!(c.pledged, 30);
    assert_eq!(c.pledgers, vec![Pledger { address: id(7), pledge: 30 }]);
    assert!(!c.is_funded);
    let (c, r) = pledge(c, 8, 70, START + 2);
    assert_eq!(r, Ok(()));
    assert_eq!(c.pledged, 100);
    assert!(c.is_funded);
    assert_eq!(active_sum(&c), c.pledged);
}

#[test]
fn no_double_pledge() {
    let (c, r) = pledge(open(100), 7, 30, START);
    assert_eq!(r, Ok(()));
    let before = c.clone();
    let (c, r) = pledge(c, 7, 10, START + 1);
    assert_eq!(r, Err(CampaignError::AlreadyPledged));
    assert_eq!(c.pledged, 30);
    assert_eq!(c.pledgers, before.pledgers);
}

#[test]
fn pledge_errors() {
    let (_, r) = pledge(open(100), 7, 0, START);
    assert_eq!(r, Err(CampaignError::ZeroAmount));
    let (_, r) = pledge(open(100), 7, 5, START + DURATION + 1);
    assert_eq!(r, Err(CampaignError::CampaignClosed));
    let (c, _) = pledge(open(100), 7, u64::MAX, START);
    let (c, r) = pledge(c, 8, 1, START);
    assert_eq!(r, Err(CampaignError::Overflow));
    assert_eq!(c.pledged, u64::MAX);
    let (c, _) = resolve(open(100), START + DURATION + 1);
    let (_, r) = pledge(c, 7, 5, START);
    assert_eq!(r, Err(CampaignError::CampaignClosed));
}

#[test]
fn cancel_then_repledge() {
    let (c, _) = pledge(open(100), 7, 30, START);
    let (c, _) = pledge(c, 8, 20, START);
    let ctx = CancelPledge { campaign: c.clone(), user: id(7), now: START + 5 };
    assert_eq!(
        cancel_transfer(&ctx),
        Ok(Transfer { from: Party::Campaign, to: Party::User(id(7)), amount: 30 })
    );
    let (c, r) = cancel(c, 7, START + 5);
    assert_eq!(r, Ok(()));
    assert_eq!(c.pledged, 20);
    assert_eq!(c.pledgers, vec![Pledger { address: id(8), pledge: 20 }]);
    assert_eq!(find_active_pledge(&c.pledgers, id(7)), None);
    let (c, r) = pledge(c, 7, 45, START + 6);
    assert_eq!(r, Ok(()));
    assert_eq!(c.pledged, 65);
    assert_eq!(active_sum(&c), c.pledged);
}

#[test]
fn cancel_by_stranger_fails() {
    let (c, _) = pledge(open(100), 7, 30, START);
    let (c, r) = cancel(c, 9, START);
    assert_eq!(r, Err(CampaignError::NotAPledger));
    assert_eq!(c.pledged, 30);
}

#[test]
fn cancel_after_deadline_fails() {
    let (c, _) = pledge(open(100), 7, 30, START);
    let (c, r) = cancel(c, 7, START + DURATION + 1);
    assert_eq!(r, Err(CampaignError::CampaignClosed));
    let (c, r) = resolve(c, START + DURATION + 1);
    assert_eq!(r, Ok(()));
    let (c, r) = cancel(c, 7, START + DURATION + 2);
    assert_eq!(r, Err(CampaignError::CampaignClosed));
    assert_eq!(c.pledged, 30);
    // at the deadline itself the window is still open
    let (c, _) = pledge(open(100), 7, 30, START);
    let (_, r) = cancel(c, 7, START + DURATION);
    assert_eq!(r, Ok(()));
}

#[test]
fn resolve_twice_is_rejected() {
    let (c, _) = pledge(open(100), 7, 30, START);
    let (c, r) = resolve(c, START + DURATION);
    assert_eq!(r, Err(CampaignError::NotYetEnded));
    let (c, r) = resolve(c, START + DURATION + 1);
    assert_eq!(r, Ok(()));
    assert!(!c.is_active);
    assert!(!c.is_funded);
    let first = c.clone();
    let (c, r) = resolve(c, START + DURATION + 50);
    assert_eq!(r, Err(CampaignError::AlreadyResolved));
    assert_eq!(c.pledged, first.pledged);
    assert_eq!(c.pledgers, first.pledgers);
    assert_eq!(c.is_active, first.is_active);
    assert_eq!(c.is_funded, first.is_funded);
}

#[test]
fn funded_payout() {
    let (c, _) = pledge(open(100), 7, 60, START);
    let (c, _) = pledge(c, 8, 50, START);
    assert_eq!(c.pledged, 110);
    let (c, r) = resolve(c, START + DURATION + 1);
    assert_eq!(r, Ok(()));
    assert!(c.is_funded);
    let (c, r, _) = claim(c, 7);
    assert_eq!(r, Err(CampaignError::NotOwner));
    let (c, r, t) = claim(c, OWNER);
    assert_eq!(t, Ok(Transfer { from: Party::Campaign, to: Party::User(id(OWNER)), amount: 110 }));
    assert_eq!(r, Ok(()));
    assert!(c.payout_claimed);
    let (c, r, t) = claim(c, OWNER);
    assert_eq!(t, Err(CampaignError::NothingToClaim));
    assert_eq!(r, Err(CampaignError::NothingToClaim));
    assert_eq!(c.pledged, 110);
}

#[test]
fn unfunded_refund() {
    let (c, _) = pledge(open(100), 7, 40, START);
    assert_eq!(c.pledged, 40);
    let (c, r) = resolve(c, START + DURATION + 1);
    assert_eq!(r, Ok(()));
    assert!(!c.is_funded);
    let (c, r, t) = claim(c, 7);
    assert_eq!(t, Ok(Transfer { from: Party::Campaign, to: Party::User(id(7)), amount: 40 }));
    assert_eq!(r, Ok(()));
    assert_eq!(c.pledgers, vec![Pledger { address: id(7), pledge: 0 }]);
    assert_eq!(c.pledged, 0);
    let (c, r, _) = claim(c, 7);
    assert_eq!(r, Err(CampaignError::NotAPledger));
    let (_, r, _) = claim(c, OWNER);
    assert_eq!(r, Err(CampaignError::NotAPledger));
}

#[test]
fn claim_before_resolve_fails() {
    let (c, _) = pledge(open(10), 7, 40, START);
    let (c, r, _) = claim(c, OWNER);
    assert_eq!(r, Err(CampaignError::NotYetEnded));
    assert!(!c.payout_claimed);
}

#[test]
fn failed_transfer_changes_nothing() {
    let (c, _) = pledge(open(100), 7, 40, START);

    let mut ctx = SendPledge { campaign: c.clone(), user: id(8), now: START };
    assert_eq!(send_pledge(&mut ctx, 10, Err(TransferFailed)), Err(CampaignError::TransferFailed));
    assert_eq!(ctx.campaign.pledged, c.pledged);
    assert_eq!(ctx.campaign.pledgers, c.pledgers);
    assert_eq!(ctx.campaign.is_funded, c.is_funded);

    let mut ctx = CancelPledge { campaign: c.clone(), user: id(7), now: START };
    assert_eq!(cancel_pledge(&mut ctx, Err(TransferFailed)), Err(CampaignError::TransferFailed));
    assert_eq!(ctx.campaign.pledged, c.pledged);
    assert_eq!(ctx.campaign.pledgers, c.pledgers);

    let (r, _) = resolve(c, START + DURATION + 1);
    let mut ctx = ClaimFunds { campaign: r.clone(), user: id(7) };
    assert_eq!(claim_funds(&mut ctx, Err(TransferFailed)), Err(CampaignError::TransferFailed));
    assert_eq!(ctx.campaign.pledged, r.pledged);
    assert_eq!(ctx.campaign.pledgers, r.pledgers);
}

#[test]
fn refused_operation_reports_error_before_transfer() {
    let (c, _) = pledge(open(100), 7, 40, START);
    let ctx = SendPledge { campaign: c.clone(), user: id(7), now: START };
    assert_eq!(pledge_transfer(&ctx, 5), Err(CampaignError::AlreadyPledged));
    let ctx = CancelPledge { campaign: c.clone(), user: id(8), now: START };
    assert_eq!(cancel_transfer(&ctx), Err(CampaignError::NotAPledger));
    // a refused pledge ignores even a reported successful transfer
    let mut ctx = SendPledge { campaign: c.clone(), user: id(7), now: START };
    assert_eq!(send_pledge(&mut ctx, 5, Ok(())), Err(CampaignError::AlreadyPledged));
    assert_eq!(ctx.campaign.pledged, 40);
}

#[test]
fn invariants_hold_through_a_mixed_sequence() {
    let (c, _) = pledge(open(50), 2, 10, START);
    let (c, _) = pledge(c, 3, 20, START);
    let (c, _) = pledge(c, 4, 5, START);
    let (c, _) = cancel(c, 3, START + 1);
    let (c, _) = pledge(c, 3, 7, START + 2);
    assert_eq!(active_sum(&c), c.pledged);
    assert_eq!(c.pledged, 22);
    let (c, _) = resolve(c, START + DURATION + 1);
    let (c, r, _) = claim(c, 2);
    assert_eq!(r, Ok(()));
    assert_eq!(active_sum(&c), c.pledged);
    assert_eq!(c.pledged, 12);
    for (i, a) in c.pledgers.iter().enumerate() {
        for b in c.pledgers.iter().skip(i + 1) {
            assert!(!(a.address == b.address && a.pledge > 0 && b.pledge > 0));
        }
    }
}

#[test]
fn consistency_check() {
    let (c, _) = pledge(open(100), 7, 40, START);
    let (c, _) = pledge(c, 8, 10, START);
    assert!(solfundme::ledger_is_consistent(&c));
    let mut wrong_total = c.clone();
    wrong_total.pledged = 49;
    assert!(!solfundme::ledger_is_consistent(&wrong_total));
    let mut too_small = c.clone();
    too_small.pledged = 5;
    assert!(!solfundme::ledger_is_consistent(&too_small));
    let mut twice = c.clone();
    twice.pledgers.push(Pledger { address: id(7), pledge: 1 });
    twice.pledged = 51;
    assert!(!solfundme::ledger_is_consistent(&twice));
    let mut refunded_twice = c.clone();
    refunded_twice.pledgers.push(Pledger { address: id(7), pledge: 0 });
    assert!(solfundme::ledger_is_consistent(&refunded_twice));
}

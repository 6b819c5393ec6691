use token_lottery::error::{ErrorCode, ErrorKind};
use token_lottery::instructions::admin::{
    process_initialize_config, process_initialize_lottery, InitializeConfig, InitializeLottery,
};
use token_lottery::instructions::buy_ticket::{process_buy_ticket, BuyTicket};
use token_lottery::instructions::choose_winner::{
    choose_winner, draw_winner, process_choose_a_winner, select_winner, ChooseWinner,
};
use token_lottery::instructions::claim_prize::{
    process_claim_prize, ClaimPrize, Collection, Ticket, TokenHolding,
};
use token_lottery::instructions::commit_winner::{
    commit_randomness, process_commit_a_winner, CommitWinner,
};
use token_lottery::issuance::Attestation;
use token_lottery::oracle::RandomnessSnapshot;
use token_lottery::state::{Identity, TokenLottery};

fn id(tag: u8) -> Identity {
    Identity::new([tag; 32])
}

fn blank() -> TokenLottery {
    TokenLottery {
        bump: 0,
        winner: 77,
        winner_chosen: true,
        lottery_start: 1,
        lottery_end: 2,
        lottery_pot_amount: 3,
        ticket_num: 4,
        price: 5,
        randomness_account: id(9),
        authority: id(8),
    }
}

fn configured(start: u64, end: u64, price: u64) -> TokenLottery {
    let mut ctx = InitializeConfig { payer: id(1), token_lottery: None, token_lottery_bump: 254 };
    assert_eq!(process_initialize_config(&mut ctx, start, end, price), Ok(()));
    ctx.token_lottery.unwrap()
}

fn randomness_account(seed_slot: u64, reveal_slot: u64, first_byte: u8) -> Vec<u8> {
    let mut data = vec![0u8; 408];
    data[..8].copy_from_slice(&[10, 66, 229, 135, 220, 239, 217, 114]);
    data[104..112].copy_from_slice(&seed_slot.to_le_bytes());
    data[144..152].copy_from_slice(&reveal_slot.to_le_bytes());
    data[152] = first_byte;
    data
}

fn buy(lottery: TokenLottery, buyer: Identity, slot: u64) -> (TokenLottery, Result<u64, ErrorCode>) {
    let mut ctx = BuyTicket {
        payer: buyer,
        token_lottery: lottery,
        collection_mint: id(50),
        collection_mint_bump: 253,
    };
    let res = process_buy_ticket(&mut ctx, slot).map(|order| order.sequence_number);
    (ctx.token_lottery, res)
}

fn winning_claim(lottery: TokenLottery, claimant: Identity, number: u64) -> ClaimPrize {
    ClaimPrize {
        payer: claimant,
        token_lottery: lottery,
        collection_mint: id(50),
        ticket: Ticket {
            sequence_number: number,
            name: format!("Token Lottery Ticket #{}\0\0\0\0", number),
            collection: Some(Collection { verified: true, key: id(50) }),
        },
        destination: TokenHolding { owner: claimant, amount: 1 },
    }
}

#[test]
fn configuration_resets_every_counter() {
    let lottery = configured(100, 200, 10);
    assert_eq!(lottery.bump, 254);
    assert_eq!(lottery.lottery_start, 100);
    assert_eq!(lottery.lottery_end, 200);
    assert_eq!(lottery.price, 10);
    assert_eq!(lottery.ticket_num, 0);
    assert_eq!(lottery.lottery_pot_amount, 0);
    assert_eq!(lottery.winner, 0);
    assert!(!lottery.winner_chosen);
    assert_eq!(lottery.authority, id(1));
    assert_eq!(lottery.randomness_account, Identity::default());
    assert!(lottery.randomness_account.unset());
}

#[test]
fn configuration_of_an_existing_session_is_refused() {
    let existing = blank();
    let mut ctx =
        InitializeConfig { payer: id(2), token_lottery: Some(existing), token_lottery_bump: 254 };
    let res = process_initialize_config(&mut ctx, 100, 200, 10);
    assert_eq!(res, Err(ErrorCode::AlreadyInitialized));
    assert_eq!(res.unwrap_err().kind(), ErrorKind::State);
    assert_eq!(ctx.token_lottery, Some(existing));
    assert_eq!(ctx.payer, id(2));
    assert_eq!(ctx.token_lottery_bump, 254);
}

#[test]
fn configuration_cannot_be_repeated() {
    let mut ctx = InitializeConfig { payer: id(1), token_lottery: None, token_lottery_bump: 254 };
    assert_eq!(process_initialize_config(&mut ctx, 100, 200, 10), Ok(()));
    let first = ctx.token_lottery;
    ctx.payer = id(2);
    assert_eq!(
        process_initialize_config(&mut ctx, 1, 2, 3),
        Err(ErrorCode::AlreadyInitialized)
    );
    assert_eq!(ctx.token_lottery, first);
    assert_eq!(ctx.token_lottery.unwrap().authority, id(1));
    assert_eq!(ctx.token_lottery.unwrap().price, 10);
}

#[test]
fn configuration_does_not_reset_a_session_with_tickets_sold() {
    let mut lottery = configured(100, 200, 10);
    for _ in 0..3 {
        let (next, res) = buy(lottery, id(2), 150);
        assert!(res.is_ok());
        lottery = next;
    }
    let mut ctx =
        InitializeConfig { payer: id(7), token_lottery: Some(lottery), token_lottery_bump: 1 };
    assert_eq!(
        process_initialize_config(&mut ctx, 0, u64::MAX, 0),
        Err(ErrorCode::AlreadyInitialized)
    );
    let kept = ctx.token_lottery.unwrap();
    assert_eq!(kept, lottery);
    assert_eq!(kept.ticket_num, 3);
    assert_eq!(kept.lottery_pot_amount, 30);
    assert_eq!(kept.authority, id(1));
}

#[test]
fn collection_is_described_as_a_sized_collection() {
    let ctx = InitializeLottery { payer: id(1), collection_mint: id(50), collection_mint_bump: 7 };
    let request = process_initialize_lottery(&ctx).unwrap();
    assert_eq!(request.authority, id(50));
    assert_eq!(request.authority_bump, 7);
    assert_eq!(request.amount, 1);
    assert_eq!(request.name, "Token Lottery Ticket #");
    assert_eq!(request.symbol, "TICKET");
    assert_eq!(request.uri, "Token Lottery");
    assert_eq!(request.seller_fee_basis_points, 0);
    let creators = request.creators.unwrap();
    assert_eq!(creators.len(), 1);
    assert_eq!(creators[0].address, id(50));
    assert!(!creators[0].verified);
    assert_eq!(creators[0].share, 100);
    assert!(request.is_mutable);
    assert!(request.update_authority_is_signer);
    assert_eq!(request.collection_size, Some(0));
    assert_eq!(request.max_supply, Some(0));
    assert_eq!(request.attestation, Attestation::CreatorSignature);
}

#[test]
fn purchase_returns_the_order_to_carry_out() {
    let mut lottery = configured(100, 200, 10);
    lottery.ticket_num = 41;
    lottery.lottery_pot_amount = 410;
    let mut ctx = BuyTicket {
        payer: id(2),
        token_lottery: lottery,
        collection_mint: id(50),
        collection_mint_bump: 253,
    };
    let order = process_buy_ticket(&mut ctx, 150).unwrap();
    assert_eq!(order.buyer, id(2));
    assert_eq!(order.payment, 10);
    assert_eq!(order.sequence_number, 41);
    assert_eq!(order.token.authority, id(50));
    assert_eq!(order.token.authority_bump, 253);
    assert_eq!(order.token.amount, 1);
    assert_eq!(order.token.name, "Token Lottery Ticket #41");
    assert_eq!(order.token.symbol, "TICKET");
    assert_eq!(order.token.uri, "Token Lottery");
    assert_eq!(order.token.seller_fee_basis_points, 0);
    assert!(order.token.creators.is_none());
    assert!(order.token.is_mutable);
    assert!(order.token.update_authority_is_signer);
    assert_eq!(order.token.collection_size, None);
    assert_eq!(order.token.max_supply, Some(0));
    assert_eq!(order.token.attestation, Attestation::CollectionMembership);
    assert_eq!(ctx.token_lottery.ticket_num, 42);
    assert_eq!(ctx.token_lottery.lottery_pot_amount, 420);
    assert_eq!(ctx.payer, id(2));
}

#[test]
fn purchases_number_the_tickets_in_order() {
    let mut lottery = configured(100, 200, 10);
    let mut numbers = Vec::new();
    for slot in [100u64, 101, 150, 150, 199, 200, 200] {
        let (next, res) = buy(lottery, id(2), slot);
        numbers.push(res.unwrap());
        lottery = next;
    }
    assert_eq!(numbers, vec![0, 1, 2, 3, 4, 5, 6]);
    assert_eq!(lottery.ticket_num, 7);
}

#[test]
fn pot_is_the_price_of_the_tickets_sold() {
    let mut lottery = configured(0, 1000, 25);
    for n in 1..=12u64 {
        let (next, res) = buy(lottery, id(3), n);
        assert!(res.is_ok());
        lottery = next;
        assert_eq!(lottery.lottery_pot_amount, n * 25);
        assert_eq!(lottery.ticket_num, n);
    }
}

#[test]
fn purchase_at_the_first_slot_is_accepted() {
    let (lottery, res) = buy(configured(100, 200, 10), id(2), 100);
    assert_eq!(res, Ok(0));
    assert_eq!(lottery.ticket_num, 1);
}

#[test]
fn purchase_at_the_last_slot_is_accepted() {
    let (lottery, res) = buy(configured(100, 200, 10), id(2), 200);
    assert_eq!(res, Ok(0));
    assert_eq!(lottery.lottery_pot_amount, 10);
}

#[test]
fn purchase_one_slot_after_the_end_is_a_timing_violation() {
    let before = configured(100, 200, 10);
    let (after, res) = buy(before, id(2), 201);
    assert_eq!(res, Err(ErrorCode::LotteryNotOpen));
    assert_eq!(res.unwrap_err().kind(), ErrorKind::Timing);
    assert_eq!(after, before);
}

#[test]
fn purchase_one_slot_before_the_start_is_refused() {
    let before = configured(100, 200, 10);
    let (after, res) = buy(before, id(2), 99);
    assert_eq!(res, Err(ErrorCode::LotteryNotOpen));
    assert_eq!(after, before);
}

#[test]
fn purchase_in_an_empty_window_is_refused() {
    let before = configured(200, 100, 10);
    for slot in [0u64, 100, 150, 200, u64::MAX] {
        let (after, res) = buy(before, id(2), slot);
        assert_eq!(res, Err(ErrorCode::LotteryNotOpen));
        assert_eq!(after, before);
    }
}

#[test]
fn purchase_that_would_overflow_the_pot_is_refused() {
    let mut before = configured(0, 10, 10);
    before.lottery_pot_amount = u64::MAX - 9;
    let (after, res) = buy(before, id(2), 5);
    assert_eq!(res, Err(ErrorCode::CounterOverflow));
    assert_eq!(after, before);
    before.lottery_pot_amount = u64::MAX - 10;
    let (after, res) = buy(before, id(2), 5);
    assert_eq!(res, Ok(0));
    assert_eq!(after.lottery_pot_amount, u64::MAX);
}

#[test]
fn purchase_that_would_overflow_the_count_is_refused() {
    let mut before = configured(0, 10, 0);
    before.ticket_num = u64::MAX;
    let (after, res) = buy(before, id(2), 5);
    assert_eq!(res, Err(ErrorCode::CounterOverflow));
    assert_eq!(res.unwrap_err().kind(), ErrorKind::State);
    assert_eq!(after, before);
}

#[test]
fn commitment_made_one_slot_earlier_is_accepted() {
    let mut ctx = CommitWinner {
        payer: id(1),
        token_lottery: configured(100, 200, 10),
        randomness_account: id(60),
        randomness_account_data: randomness_account(200, 0, 0),
    };
    assert_eq!(process_commit_a_winner(&mut ctx, 201), Ok(()));
    assert_eq!(ctx.token_lottery.randomness_account, id(60));
    assert_eq!(ctx.payer, id(1));
    assert_eq!(ctx.randomness_account, id(60));
}

#[test]
fn commitment_by_a_stranger_is_refused() {
    let before = configured(100, 200, 10);
    let mut ctx = CommitWinner {
        payer: id(2),
        token_lottery: before,
        randomness_account: id(60),
        randomness_account_data: randomness_account(200, 0, 0),
    };
    let res = process_commit_a_winner(&mut ctx, 201);
    assert_eq!(res, Err(ErrorCode::NotAuthorized));
    assert_eq!(res.unwrap_err().kind(), ErrorKind::Authorization);
    assert_eq!(ctx.token_lottery, before);
}

#[test]
fn commitment_that_is_not_fresh_is_refused() {
    let before = configured(100, 200, 10);
    for (seed_slot, slot) in [(200u64, 200u64), (199, 201), (201, 201), (202, 201), (0, 0), (u64::MAX, 0)] {
        let mut ctx = CommitWinner {
            payer: id(1),
            token_lottery: before,
            randomness_account: id(60),
            randomness_account_data: randomness_account(seed_slot, 0, 0),
        };
        let res = process_commit_a_winner(&mut ctx, slot);
        assert_eq!(res, Err(ErrorCode::RandomnessAlreadyRevealed));
        assert_eq!(res.unwrap_err().kind(), ErrorKind::Timing);
        assert_eq!(ctx.token_lottery, before);
    }
}

#[test]
fn commitment_to_bytes_that_are_no_randomness_account_is_refused() {
    let before = configured(100, 200, 10);
    let mut short = randomness_account(200, 0, 0);
    short.truncate(407);
    let mut mistagged = randomness_account(200, 0, 0);
    mistagged[0] = 11;
    for data in [Vec::new(), vec![0u8; 408], short, mistagged] {
        let mut ctx = CommitWinner {
            payer: id(1),
            token_lottery: before,
            randomness_account: id(60),
            randomness_account_data: data,
        };
        let res = process_commit_a_winner(&mut ctx, 201);
        assert_eq!(res, Err(ErrorCode::InvalidRandomnessAccount));
        assert_eq!(res.unwrap_err().kind(), ErrorKind::Integrity);
        assert_eq!(ctx.token_lottery, before);
    }
}

#[test]
fn second_commitment_replaces_the_first() {
    let mut lottery = configured(100, 200, 10);
    let first = RandomnessSnapshot { seed_slot: 200, reveal_slot: 0, value: [0; 32] };
    let second = RandomnessSnapshot { seed_slot: 204, reveal_slot: 0, value: [0; 32] };
    assert_eq!(commit_randomness(&mut lottery, &id(1), &id(60), Some(first), 201), Ok(()));
    assert_eq!(lottery.randomness_account, id(60));
    assert_eq!(commit_randomness(&mut lottery, &id(1), &id(61), Some(second), 205), Ok(()));
    assert_eq!(lottery.randomness_account, id(61));
    let mut direct = configured(100, 200, 10);
    assert_eq!(commit_randomness(&mut direct, &id(1), &id(61), Some(second), 205), Ok(()));
    assert_eq!(lottery, direct);
}

#[test]
fn winner_is_the_remainder_of_the_revealed_number() {
    assert_eq!(select_winner(23, 5), Ok(3));
    assert_eq!(select_winner(23, 5), Ok(3));
    assert_eq!(select_winner(0, 1), Ok(0));
    assert_eq!(select_winner(255, 256), Ok(255));
    assert_eq!(select_winner(255, 255), Ok(0));
    assert_eq!(select_winner(u64::MAX, 10), Ok(5));
    assert_eq!(select_winner(7, u64::MAX), Ok(7));
}

#[test]
fn no_winner_is_drawn_among_no_tickets() {
    assert_eq!(select_winner(23, 0), Err(ErrorCode::NoTicketsSold));
    assert_eq!(select_winner(0, 0), Err(ErrorCode::NoTicketsSold));
    let mut lottery = configured(100, 200, 10);
    lottery.randomness_account = id(60);
    let before = lottery;
    let revealed = RandomnessSnapshot { seed_slot: 200, reveal_slot: 202, value: [23; 32] };
    let res = choose_winner(&mut lottery, &id(1), &id(60), Some(revealed), 202);
    assert_eq!(res, Err(ErrorCode::NoTicketsSold));
    assert_eq!(res.unwrap_err().kind(), ErrorKind::Integrity);
    assert_eq!(lottery, before);
    assert!(!lottery.winner_chosen);
}

fn sold_and_committed(tickets: u64) -> TokenLottery {
    let mut lottery = configured(100, 200, 10);
    for _ in 0..tickets {
        let (next, res) = buy(lottery, id(2), 150);
        assert!(res.is_ok());
        lottery = next;
    }
    lottery.randomness_account = id(60);
    lottery
}

fn draw(lottery: TokenLottery, payer: Identity, account: Identity, data: Vec<u8>, slot: u64) -> (TokenLottery, Result<(), ErrorCode>) {
    let mut ctx = ChooseWinner {
        payer,
        token_lottery: lottery,
        randomness_account: account,
        randomness_account_data: data,
    };
    let res = process_choose_a_winner(&mut ctx, slot);
    (ctx.token_lottery, res)
}

fn spelled(low: &[u8]) -> [u8; 32] {
    let mut value = [0u8; 32];
    value[..low.len()].copy_from_slice(low);
    value
}

fn counting() -> [u8; 32] {
    let mut value = [0u8; 32];
    for (i, byte) in value.iter_mut().enumerate() {
        *byte = i as u8 + 1;
    }
    value
}

#[test]
fn draw_reads_the_whole_value_as_one_number() {
    assert_eq!(draw_winner(&spelled(&[232, 3]), 300), Ok(100));
    assert_eq!(draw_winner(&spelled(&[23]), 5), Ok(3));
    assert_eq!(draw_winner(&spelled(&[0, 1]), 300), Ok(256));
    assert_eq!(draw_winner(&spelled(&[43, 1]), 300), Ok(299));
    assert_eq!(draw_winner(&[0; 32], 300), Ok(0));
    assert_eq!(draw_winner(&[255; 32], 300), Ok(135));
    assert_eq!(draw_winner(&[255; 32], 7), Ok(1));
    assert_eq!(draw_winner(&[255; 32], 1_000_003), Ok(156_648));
    assert_eq!(draw_winner(&[255; 32], u64::MAX), Ok(0));
    assert_eq!(draw_winner(&[255; 32], 1 << 63), Ok((1 << 63) - 1));
    assert_eq!(draw_winner(&[255; 32], 1), Ok(0));
    assert_eq!(draw_winner(&counting(), 300), Ok(213));
    assert_eq!(draw_winner(&counting(), 1000), Ok(713));
    assert_eq!(draw_winner(&counting(), 5), Ok(3));
    assert_eq!(
        draw_winner(&counting(), 18_446_744_073_709_551_557),
        Ok(3_595_732_120_482_390_335)
    );
    let mut top = [0u8; 32];
    top[31] = 1;
    assert_eq!(draw_winner(&top, 300), Ok(256));
    assert_eq!(draw_winner(&top, 299), Ok(87));
}

#[test]
fn draw_agrees_with_the_remainder_of_a_small_number() {
    for revealed in [0u64, 1, 23, 255, 256, 1000, 65_535, 1 << 40, u64::MAX - 1, u64::MAX] {
        for count in [1u64, 2, 5, 255, 256, 257, 300, 1 << 33, u64::MAX] {
            let value = spelled(&revealed.to_le_bytes());
            assert_eq!(draw_winner(&value, count), Ok(revealed % count));
            assert_eq!(draw_winner(&value, count), select_winner(revealed, count));
        }
    }
}

#[test]
fn draw_among_no_tickets_has_no_winner() {
    assert_eq!(draw_winner(&[0; 32], 0), Err(ErrorCode::NoTicketsSold));
    assert_eq!(draw_winner(&[255; 32], 0), Err(ErrorCode::NoTicketsSold));
    assert_eq!(draw_winner(&spelled(&[232, 3]), 0), Err(ErrorCode::NoTicketsSold));
}

#[test]
fn every_ticket_of_three_hundred_can_win() {
    let mut lottery = sold_and_committed(0);
    lottery.ticket_num = 300;
    for number in [0u64, 1, 100, 255, 256, 257, 299] {
        let mut drawn = lottery;
        let revealed = RandomnessSnapshot {
            seed_slot: 200,
            reveal_slot: 202,
            value: spelled(&(number + 300 * 7).to_le_bytes()),
        };
        assert_eq!(choose_winner(&mut drawn, &id(1), &id(60), Some(revealed), 202), Ok(()));
        assert_eq!(drawn.winner, number);
        assert!(drawn.winner_chosen);
    }
}

#[test]
fn draw_of_one_thousand_among_three_hundred_is_one_hundred() {
    let mut before = sold_and_committed(0);
    before.ticket_num = 300;
    before.lottery_end = 200;
    let mut data = randomness_account(199, 200, 232);
    data[153] = 3;
    let (after, res) = draw(before, id(1), id(60), data, 200);
    assert_eq!(res, Ok(()));
    assert!(after.winner_chosen);
    assert_eq!(after.winner, 100);
    assert_eq!(after.ticket_num, 300);
}

#[test]
fn draw_depends_on_every_byte_of_the_value() {
    let before = sold_and_committed(5);
    let mut data = randomness_account(200, 202, 23);
    data[153] = 200;
    data[183] = 99;
    let (after, res) = draw(before, id(1), id(60), data, 202);
    assert_eq!(res, Ok(()));
    assert!(after.winner_chosen);
    assert_eq!(after.winner, 2);
    assert_eq!(after.ticket_num, 5);
    assert_eq!(after.lottery_pot_amount, 50);
}

#[test]
fn draw_from_another_account_is_refused() {
    let before = sold_and_committed(5);
    let (after, res) = draw(before, id(1), id(61), randomness_account(200, 202, 23), 202);
    assert_eq!(res, Err(ErrorCode::IncorrectRandomnessAccount));
    assert_eq!(res.unwrap_err().kind(), ErrorKind::State);
    assert_eq!(after, before);
}

#[test]
fn draw_without_a_commitment_is_refused() {
    let mut before = sold_and_committed(5);
    before.randomness_account = Identity::default();
    let (after, res) =
        draw(before, id(1), Identity::default(), randomness_account(200, 202, 23), 202);
    assert_eq!(res, Err(ErrorCode::IncorrectRandomnessAccount));
    assert_eq!(after, before);
}

#[test]
fn draw_by_a_stranger_is_refused() {
    let before = sold_and_committed(5);
    let (after, res) = draw(before, id(2), id(60), randomness_account(200, 202, 23), 202);
    assert_eq!(res, Err(ErrorCode::NotAuthorized));
    assert_eq!(after, before);
}

#[test]
fn draw_before_the_end_of_the_sale_is_refused() {
    let before = sold_and_committed(5);
    let (after, res) = draw(before, id(1), id(60), randomness_account(198, 199, 23), 199);
    assert_eq!(res, Err(ErrorCode::LotteryNotCompleted));
    assert_eq!(res.unwrap_err().kind(), ErrorKind::Timing);
    assert_eq!(after, before);
    let (after, res) = draw(before, id(1), id(60), randomness_account(199, 200, 23), 200);
    assert_eq!(res, Ok(()));
    assert_eq!(after.winner, 3);
}

#[test]
fn second_draw_is_refused() {
    let before = sold_and_committed(5);
    let (drawn, res) = draw(before, id(1), id(60), randomness_account(200, 202, 23), 202);
    assert_eq!(res, Ok(()));
    let (after, res) = draw(drawn, id(1), id(60), randomness_account(200, 203, 24), 203);
    assert_eq!(res, Err(ErrorCode::WinnerChosen));
    assert_eq!(res.unwrap_err().kind(), ErrorKind::State);
    assert_eq!(after, drawn);
    assert_eq!(after.winner, 3);
}

#[test]
fn draw_before_the_reveal_is_refused_and_can_be_retried() {
    let before = sold_and_committed(5);
    let (after, res) = draw(before, id(1), id(60), randomness_account(200, 0, 0), 202);
    assert_eq!(res, Err(ErrorCode::RandomnessNotResolved));
    assert_eq!(res.unwrap_err().kind(), ErrorKind::State);
    assert_eq!(after, before);
    let (after, res) = draw(before, id(1), id(60), randomness_account(200, 203, 23), 202);
    assert_eq!(res, Err(ErrorCode::RandomnessNotResolved));
    assert_eq!(after, before);
    let (after, res) = draw(after, id(1), id(60), randomness_account(200, 203, 23), 203);
    assert_eq!(res, Ok(()));
    assert_eq!(after.winner, 3);
}

#[test]
fn draw_from_bytes_that_are_no_randomness_account_is_refused() {
    let before = sold_and_committed(5);
    let (after, res) = draw(before, id(1), id(60), vec![1, 2, 3], 202);
    assert_eq!(res, Err(ErrorCode::InvalidRandomnessAccount));
    assert_eq!(after, before);
}

#[test]
fn draw_checks_come_in_order() {
    let mut before = sold_and_committed(5);
    before.winner_chosen = true;
    let (_, res) = draw(before, id(2), id(61), Vec::new(), 150);
    assert_eq!(res, Err(ErrorCode::IncorrectRandomnessAccount));
    let (_, res) = draw(before, id(2), id(60), Vec::new(), 150);
    assert_eq!(res, Err(ErrorCode::NotAuthorized));
    let (_, res) = draw(before, id(1), id(60), Vec::new(), 150);
    assert_eq!(res, Err(ErrorCode::LotteryNotCompleted));
    let (_, res) = draw(before, id(1), id(60), Vec::new(), 200);
    assert_eq!(res, Err(ErrorCode::WinnerChosen));
}

#[test]
fn whole_lottery_from_configuration_to_claim() {
    let mut lottery = configured(100, 200, 10);
    for n in 0..5u64 {
        let (next, res) = buy(lottery, id(10 + n as u8), 100 + 20 * n);
        assert_eq!(res, Ok(n));
        lottery = next;
    }
    assert_eq!(lottery.ticket_num, 5);
    assert_eq!(lottery.lottery_pot_amount, 50);

    let mut commit = CommitWinner {
        payer: id(1),
        token_lottery: lottery,
        randomness_account: id(60),
        randomness_account_data: randomness_account(200, 0, 0),
    };
    assert_eq!(process_commit_a_winner(&mut commit, 201), Ok(()));
    lottery = commit.token_lottery;
    assert_eq!(lottery.randomness_account, id(60));

    let (drawn, res) = draw(lottery, id(1), id(60), randomness_account(200, 202, 23), 202);
    assert_eq!(res, Ok(()));
    assert!(drawn.winner_chosen);
    assert_eq!(drawn.winner, 3);

    let mut claim = winning_claim(drawn, id(13), 3);
    assert_eq!(process_claim_prize(&mut claim), Ok(50));
    assert_eq!(claim.token_lottery.lottery_pot_amount, 0);
    assert_eq!(claim.token_lottery.ticket_num, 5);
    assert_eq!(claim.token_lottery.winner, 3);
    assert!(claim.token_lottery.winner_chosen);

    assert_eq!(process_claim_prize(&mut claim), Ok(0));
    assert_eq!(claim.token_lottery.lottery_pot_amount, 0);
}

#[test]
fn claim_before_the_draw_is_refused() {
    let before = sold_and_committed(5);
    let mut claim = winning_claim(before, id(13), 0);
    let res = process_claim_prize(&mut claim);
    assert_eq!(res, Err(ErrorCode::WinnerNotChosen));
    assert_eq!(res.unwrap_err().message(), "Winner not chosen");
    assert_eq!(res.unwrap_err().kind(), ErrorKind::State);
    assert_eq!(claim.token_lottery, before);
    assert_eq!(claim.token_lottery.lottery_pot_amount, 50);
}

fn drawn(winner: u64) -> TokenLottery {
    let mut lottery = sold_and_committed(5);
    lottery.winner = winner;
    lottery.winner_chosen = true;
    lottery
}

#[test]
fn claim_with_an_unverified_ticket_is_an_integrity_violation() {
    let before = drawn(3);
    for number in [3u64, 2, 0, 99] {
        let mut claim = winning_claim(before, id(13), number);
        claim.ticket.collection = Some(Collection { verified: false, key: id(50) });
        let res = process_claim_prize(&mut claim);
        assert_eq!(res, Err(ErrorCode::NotVerifiedTicket));
        assert_eq!(res.unwrap_err().kind(), ErrorKind::Integrity);
        assert_eq!(claim.token_lottery, before);
    }
}

#[test]
fn claim_with_a_ticket_of_no_collection_is_refused() {
    let before = drawn(3);
    let mut claim = winning_claim(before, id(13), 3);
    claim.ticket.collection = None;
    assert_eq!(process_claim_prize(&mut claim), Err(ErrorCode::NotVerifiedTicket));
    assert_eq!(claim.token_lottery, before);
}

#[test]
fn claim_with_a_ticket_of_another_collection_is_refused() {
    let before = drawn(3);
    let mut claim = winning_claim(before, id(13), 3);
    claim.ticket.collection = Some(Collection { verified: true, key: id(51) });
    let res = process_claim_prize(&mut claim);
    assert_eq!(res, Err(ErrorCode::IncorrectTicket));
    assert_eq!(res.unwrap_err().kind(), ErrorKind::Integrity);
    assert_eq!(claim.token_lottery, before);
}

#[test]
fn claim_with_a_losing_ticket_is_refused() {
    let before = drawn(3);
    let mut claim = winning_claim(before, id(13), 2);
    assert_eq!(process_claim_prize(&mut claim), Err(ErrorCode::IncorrectTicket));
    assert_eq!(claim.token_lottery, before);
    let mut forged = winning_claim(before, id(13), 2);
    forged.ticket.name = String::from("Token Lottery Ticket #3");
    assert_eq!(process_claim_prize(&mut forged), Err(ErrorCode::IncorrectTicket));
    assert_eq!(forged.token_lottery, before);
}

#[test]
fn claim_with_a_renamed_ticket_is_refused() {
    let before = drawn(3);
    for name in ["Token Lottery Ticket #2", "Token Lottery Ticket #03", "Token Lottery Ticket #3 ", "token lottery ticket #3", "3", ""] {
        let mut claim = winning_claim(before, id(13), 3);
        claim.ticket.name = String::from(name);
        assert_eq!(process_claim_prize(&mut claim), Err(ErrorCode::IncorrectTicket));
        assert_eq!(claim.token_lottery, before);
    }
}

#[test]
fn claim_accepts_a_name_with_or_without_padding() {
    for name in ["Token Lottery Ticket #3", "Token Lottery Ticket #3\0", "\0Token Lottery\0 Ticket #3\0\0\0\0\0\0\0\0\0"] {
        let mut claim = winning_claim(drawn(3), id(13), 3);
        claim.ticket.name = String::from(name);
        assert_eq!(process_claim_prize(&mut claim), Ok(50));
    }
}

#[test]
fn claim_by_someone_who_does_not_hold_the_ticket_is_refused() {
    let before = drawn(3);
    let mut empty = winning_claim(before, id(13), 3);
    empty.destination.amount = 0;
    let res = process_claim_prize(&mut empty);
    assert_eq!(res, Err(ErrorCode::NotTicketHolder));
    assert_eq!(res.unwrap_err().kind(), ErrorKind::Authorization);
    assert_eq!(empty.token_lottery, before);
    let mut foreign = winning_claim(before, id(13), 3);
    foreign.destination.owner = id(14);
    assert_eq!(process_claim_prize(&mut foreign), Err(ErrorCode::NotTicketHolder));
    assert_eq!(foreign.token_lottery, before);
}

#[test]
fn claim_pays_the_whole_pot() {
    let mut lottery = drawn(4);
    lottery.lottery_pot_amount = u64::MAX;
    let mut claim = winning_claim(lottery, id(13), 4);
    claim.destination.amount = 2;
    assert_eq!(process_claim_prize(&mut claim), Ok(u64::MAX));
    assert_eq!(claim.token_lottery.lottery_pot_amount, 0);
    assert_eq!(claim.payer, id(13));
    assert_eq!(claim.collection_mint, id(50));
    assert_eq!(claim.ticket.sequence_number, 4);
    assert_eq!(claim.destination.amount, 2);
}

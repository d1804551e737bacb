use solana_ico::{
    buy_tokens, create_ico_ata, deposit_ico_in_ata, Authority, BuyTokens, CreateIcoATA, Data,
    DepositIcoInATA, ErrorCode, Payment, PendingDeposit, Pubkey, TokenTransfer, TransferOutcome,
};

fn key(byte: u8) -> Pubkey {
    Pubkey::new_from_array([byte; 32])
}

fn opening(data: Option<Data>) -> CreateIcoATA {
    CreateIcoATA {
        ico_ata_for_ico_program: key(10),
        data,
        ico_ata_for_admin: key(11),
        admin: key(1),
    }
}

fn topping_up(data: Data, caller: Pubkey) -> DepositIcoInATA {
    DepositIcoInATA {
        ico_ata_for_ico_program: key(10),
        data,
        ico_ata_for_admin: key(11),
        admin: caller,
    }
}

fn buying(data: Data) -> BuyTokens {
    BuyTokens {
        ico_ata_for_ico_program: key(10),
        data,
        ico_mint: key(20),
        ico_ata_for_user: key(31),
        user: key(30),
        admin: key(1),
    }
}

fn record(total_tokens: u64, tokens_sold: u64) -> Data {
    Data { admin: key(1), total_tokens, tokens_sold }
}

fn buy_to_the_end(data: Data, token_amount: u64) -> Result<Data, ErrorCode> {
    buy_tokens(&buying(data), 255, token_amount)?
        .settle(TransferOutcome::Accepted)?
        .settle(TransferOutcome::Accepted)
}

#[test]
fn create_then_buy_scenario() {
    let pending = create_ico_ata(&opening(None), 1000).unwrap();
    assert_eq!(
        pending.transfer,
        TokenTransfer {
            from: key(11),
            to: key(10),
            authority: Authority::Signer(key(1)),
            amount: 1_000_000_000_000,
        }
    );
    let data = pending.settle(TransferOutcome::Accepted).unwrap();
    assert_eq!(data, Data { admin: key(1), total_tokens: 1000, tokens_sold: 0 });

    let pending = buy_tokens(&buying(data), 254, 10).unwrap();
    assert_eq!(pending.payment, Payment { from: key(30), to: key(1), lamports: 10_000_000 });
    let delivery = pending.settle(TransferOutcome::Accepted).unwrap();
    assert_eq!(
        delivery.transfer,
        TokenTransfer {
            from: key(10),
            to: key(31),
            authority: Authority::Derived { address: key(10), seed: key(20), bump: 254 },
            amount: 10_000_000_000,
        }
    );
    let data = delivery.settle(TransferOutcome::Accepted).unwrap();
    assert_eq!(data, Data { admin: key(1), total_tokens: 1000, tokens_sold: 10 });
}

#[test]
fn create_records_amount_and_nothing_sold() {
    for amount in [0u64, 1, 7, 1000, 18_446_744_073] {
        let data = create_ico_ata(&opening(None), amount)
            .unwrap()
            .settle(TransferOutcome::Accepted)
            .unwrap();
        assert_eq!(data.total_tokens, amount);
        assert_eq!(data.tokens_sold, 0);
        assert_eq!(data.admin, key(1));
    }
}

#[test]
fn create_rejected_deposit_leaves_no_record() {
    let pending = create_ico_ata(&opening(None), 5).unwrap();
    assert_eq!(pending.settle(TransferOutcome::Rejected), Err(ErrorCode::TransferRejected));
}

#[test]
fn create_twice_is_already_initialized() {
    let first = create_ico_ata(&opening(None), 1000)
        .unwrap()
        .settle(TransferOutcome::Accepted)
        .unwrap();
    let again = opening(Some(first));
    assert_eq!(create_ico_ata(&again, 500), Err(ErrorCode::AlreadyInitialized));
    assert_eq!(again.data, Some(Data { admin: key(1), total_tokens: 1000, tokens_sold: 0 }));
}

#[test]
fn create_existing_record_comes_before_overflow() {
    let again = opening(Some(record(1, 0)));
    assert_eq!(create_ico_ata(&again, u64::MAX), Err(ErrorCode::AlreadyInitialized));
}

#[test]
fn create_overflow_at_the_edge() {
    assert!(create_ico_ata(&opening(None), 18_446_744_073).is_ok());
    assert_eq!(create_ico_ata(&opening(None), 18_446_744_074), Err(ErrorCode::Overflow));
    assert_eq!(create_ico_ata(&opening(None), u64::MAX), Err(ErrorCode::Overflow));
}

#[test]
fn deposit_by_admin_adds_to_total() {
    let ctx = topping_up(record(1000, 10), key(1));
    let pending = deposit_ico_in_ata(&ctx, 250).unwrap();
    assert_eq!(
        pending,
        PendingDeposit {
            transfer: TokenTransfer {
                from: key(11),
                to: key(10),
                authority: Authority::Signer(key(1)),
                amount: 250_000_000_000,
            },
            data: Data { admin: key(1), total_tokens: 1250, tokens_sold: 10 },
        }
    );
    assert_eq!(
        pending.settle(TransferOutcome::Accepted),
        Ok(Data { admin: key(1), total_tokens: 1250, tokens_sold: 10 })
    );
}

#[test]
fn deposit_by_other_caller_is_invalid_admin() {
    let before = record(1000, 10);
    let ctx = topping_up(before, key(2));
    assert_eq!(deposit_ico_in_ata(&ctx, 250), Err(ErrorCode::InvalidAdmin));
    assert_eq!(ctx.data, before);

    let mut almost = [1u8; 32];
    almost[31] = 0;
    let ctx = topping_up(before, Pubkey::new_from_array(almost));
    assert_eq!(deposit_ico_in_ata(&ctx, 250), Err(ErrorCode::InvalidAdmin));
}

#[test]
fn deposit_invalid_admin_comes_before_overflow() {
    let ctx = topping_up(record(1000, 10), key(2));
    assert_eq!(deposit_ico_in_ata(&ctx, u64::MAX), Err(ErrorCode::InvalidAdmin));
}

#[test]
fn deposit_overflow_of_smallest_units() {
    let ctx = topping_up(record(0, 0), key(1));
    assert!(deposit_ico_in_ata(&ctx, 18_446_744_073).is_ok());
    assert_eq!(deposit_ico_in_ata(&ctx, 18_446_744_074), Err(ErrorCode::Overflow));
}

#[test]
fn deposit_overflow_of_total_comes_before_transfer() {
    let ctx = topping_up(record(u64::MAX - 5, 0), key(1));
    assert_eq!(deposit_ico_in_ata(&ctx, 6), Err(ErrorCode::Overflow));
    let pending = deposit_ico_in_ata(&ctx, 5).unwrap();
    assert_eq!(pending.data.total_tokens, u64::MAX);
}

#[test]
fn deposit_rejected_transfer() {
    let ctx = topping_up(record(1000, 10), key(1));
    let pending = deposit_ico_in_ata(&ctx, 1).unwrap();
    assert_eq!(pending.settle(TransferOutcome::Rejected), Err(ErrorCode::TransferRejected));
}

#[test]
fn purchases_accumulate() {
    let after_first = buy_to_the_end(record(1000, 0), 3).unwrap();
    assert_eq!(after_first.tokens_sold, 3);
    let after_second = buy_to_the_end(after_first, 4).unwrap();
    assert_eq!(after_second, Data { admin: key(1), total_tokens: 1000, tokens_sold: 7 });
    let after_same_again = buy_to_the_end(after_second, 4).unwrap();
    assert_eq!(after_same_again.tokens_sold, 11);
}

#[test]
fn purchase_beyond_total_oversells_when_ledger_accepts() {
    let after = buy_to_the_end(record(1000, 995), 10).unwrap();
    assert_eq!(after, Data { admin: key(1), total_tokens: 1000, tokens_sold: 1005 });
}

#[test]
fn purchase_beyond_total_stopped_by_ledger() {
    let before = record(1000, 995);
    let delivery = buy_tokens(&buying(before), 255, 10)
        .unwrap()
        .settle(TransferOutcome::Accepted)
        .unwrap();
    assert_eq!(delivery.settle(TransferOutcome::Rejected), Err(ErrorCode::TransferRejected));
}

#[test]
fn purchase_rejected_payment_asks_for_no_delivery() {
    let pending = buy_tokens(&buying(record(1000, 0)), 255, 10).unwrap();
    assert_eq!(pending.settle(TransferOutcome::Rejected), Err(ErrorCode::TransferRejected));
}

#[test]
fn purchase_overflow_at_the_edge() {
    assert!(buy_tokens(&buying(record(0, 0)), 255, 18_446_744_073).is_ok());
    assert_eq!(
        buy_tokens(&buying(record(0, 0)), 255, 18_446_744_074).err(),
        Some(ErrorCode::Overflow)
    );
    assert_eq!(buy_tokens(&buying(record(0, 0)), 255, u64::MAX).err(), Some(ErrorCode::Overflow));
}

#[test]
fn purchase_overflow_of_tokens_sold() {
    assert_eq!(buy_to_the_end(record(0, u64::MAX - 9), 10), Err(ErrorCode::Overflow));
    assert_eq!(
        buy_to_the_end(record(0, u64::MAX - 10), 10),
        Ok(Data { admin: key(1), total_tokens: 0, tokens_sold: u64::MAX })
    );
}

#[test]
fn purchase_of_nothing() {
    let pending = buy_tokens(&buying(record(5, 1)), 0, 0).unwrap();
    assert_eq!(pending.payment.lamports, 0);
    assert_eq!(pending.delivery.transfer.amount, 0);
    assert_eq!(buy_to_the_end(record(5, 1), 0), Ok(record(5, 1)));
}

#[test]
fn purchase_pays_whoever_is_named() {
    let mut ctx = buying(record(1000, 0));
    ctx.admin = key(99);
    let pending = buy_tokens(&ctx, 255, 2).unwrap();
    assert_eq!(pending.payment, Payment { from: key(30), to: key(99), lamports: 2_000_000 });
}

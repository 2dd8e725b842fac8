use pelago_core::errors::PelagoError;
use pelago_core::health::check_health_p1;
use pelago_core::ops::{
    borrow, initialize_market, repay, supply, supply_collateral, withdraw, withdraw_collateral,
};
use pelago_core::state::UserPosition;

fn empty_position() -> UserPosition {
    UserPosition {
        supply_shares: 0,
        borrow_shares: 0,
        collateral_amount: 0,
    }
}

#[test]
fn test_initialize_market_validates_lltv() {
    assert_eq!(initialize_market(0, 0).unwrap_err(), PelagoError::InvalidLltv);
    assert_eq!(
        initialize_market(100_000_001, 0).unwrap_err(),
        PelagoError::InvalidLltv
    );
    let market = initialize_market(100_000_000, 7).unwrap();
    assert_eq!(market.lltv, 100_000_000);
    assert_eq!(market.last_update, 7);
    assert_eq!(market.total_supply_assets, 0);
    assert_eq!(market.total_supply_shares, 0);
    assert_eq!(market.total_borrow_assets, 0);
    assert_eq!(market.total_borrow_shares, 0);
}

#[test]
fn test_supply_then_withdraw_all() {
    // Supply 1000 loan units into an empty market: exactly 1,000,000,000
    // shares (1000 x (0 + 1,000,000) / (0 + 1)).
    let mut market = initialize_market(80_000_000, 0).unwrap();
    let mut position = empty_position();

    let (assets_in, shares_minted) = supply(&mut market, &mut position, 1000, 0, 0).unwrap();
    assert_eq!(assets_in, 1000);
    assert_eq!(shares_minted, 1_000_000_000);
    assert_eq!(market.total_supply_assets, 1000);
    assert_eq!(market.total_supply_shares, 1_000_000_000);
    assert_eq!(position.supply_shares, 1_000_000_000);

    // Withdrawing all 1,000,000,000 shares returns exactly 1000 units and
    // leaves the totals at zero.
    let (assets_out, shares_burnt) =
        withdraw(&mut market, &mut position, 0, 1_000_000_000, 0).unwrap();
    assert_eq!(assets_out, 1000);
    assert_eq!(shares_burnt, 1_000_000_000);
    assert_eq!(market.total_supply_assets, 0);
    assert_eq!(market.total_supply_shares, 0);
    assert_eq!(position.supply_shares, 0);
}

#[test]
fn test_supply_by_shares_mode() {
    let mut market = initialize_market(80_000_000, 0).unwrap();
    let mut position = empty_position();
    // Asking for 2,000,000 shares on an empty market costs
    // ceil(2,000,000 x 1 / 1,000,000) = 2 asset units.
    let (assets_in, shares_minted) =
        supply(&mut market, &mut position, 0, 2_000_000, 0).unwrap();
    assert_eq!(assets_in, 2);
    assert_eq!(shares_minted, 2_000_000);
    assert_eq!(market.total_supply_assets, 2);
    assert_eq!(market.total_supply_shares, 2_000_000);
}

#[test]
fn test_first_deposit_yields_virtual_shares() {
    // Depositing 1 unit into an empty market yields exactly VIRTUAL_SHARES.
    let mut market = initialize_market(80_000_000, 0).unwrap();
    let mut position = empty_position();
    let (_, shares_minted) = supply(&mut market, &mut position, 1, 0, 0).unwrap();
    assert_eq!(shares_minted, 1_000_000);
}

#[test]
fn test_inconsistent_input_rejected() {
    let mut market = initialize_market(80_000_000, 0).unwrap();
    let mut position = empty_position();
    let before_market = market;
    let before_position = position;

    assert_eq!(
        supply(&mut market, &mut position, 0, 0, 0).unwrap_err(),
        PelagoError::InconsistentInput
    );
    assert_eq!(
        supply(&mut market, &mut position, 5, 5, 0).unwrap_err(),
        PelagoError::InconsistentInput
    );
    assert_eq!(
        withdraw(&mut market, &mut position, 0, 0, 0).unwrap_err(),
        PelagoError::InconsistentInput
    );
    assert_eq!(
        borrow(&mut market, &mut position, 3, 7, 0).unwrap_err(),
        PelagoError::InconsistentInput
    );
    assert_eq!(
        repay(&mut market, &mut position, 0, 0, 0).unwrap_err(),
        PelagoError::InconsistentInput
    );
    assert_eq!(market, before_market);
    assert_eq!(position, before_position);
}

#[test]
fn test_zero_amount_collateral_rejected() {
    let mut market = initialize_market(80_000_000, 0).unwrap();
    let mut position = empty_position();
    assert_eq!(
        supply_collateral(&mut position, 0).unwrap_err(),
        PelagoError::ZeroAmount
    );
    assert_eq!(
        withdraw_collateral(&mut market, &mut position, 0, 0).unwrap_err(),
        PelagoError::ZeroAmount
    );
    assert_eq!(position, empty_position());
}

#[test]
fn test_borrow_at_lltv_boundary() {
    // Empty market, lltv = 80%, fixed price: 10 collateral units
    // (10,000,000,000 base units) are worth 1,000,000,000 loan base units,
    // so the position may carry exactly 800,000,000 of debt.
    let mut market = initialize_market(80_000_000, 0).unwrap();
    let mut lender = empty_position();
    supply(&mut market, &mut lender, 1_000_000_000, 0, 0).unwrap();

    let mut borrower = empty_position();
    supply_collateral(&mut borrower, 10_000_000_000).unwrap();

    let (assets_out, shares) = borrow(&mut market, &mut borrower, 800_000_000, 0, 0).unwrap();
    assert_eq!(assets_out, 800_000_000);
    assert_eq!(shares, 800_000_000_000_000);
    assert_eq!(market.total_borrow_assets, 800_000_000);
    assert_eq!(borrower.borrow_shares, 800_000_000_000_000);
    assert!(check_health_p1(&market, &borrower).is_ok());
}

#[test]
fn test_borrow_above_lltv_boundary_fails() {
    // Same setting as the boundary test, one unit step past the limit:
    // borrowing 801 loan units is rejected and leaves everything unchanged.
    let mut market = initialize_market(80_000_000, 0).unwrap();
    let mut lender = empty_position();
    supply(&mut market, &mut lender, 1_000_000_000, 0, 0).unwrap();

    let mut borrower = empty_position();
    supply_collateral(&mut borrower, 10_000_000_000).unwrap();

    let before_market = market;
    let before_borrower = borrower;
    assert_eq!(
        borrow(&mut market, &mut borrower, 801_000_000, 0, 0).unwrap_err(),
        PelagoError::InsufficientCollateral
    );
    assert_eq!(market, before_market);
    assert_eq!(borrower, before_borrower);
}

#[test]
fn test_borrow_by_shares_mode() {
    let mut market = initialize_market(80_000_000, 0).unwrap();
    let mut lender = empty_position();
    supply(&mut market, &mut lender, 1000, 0, 0).unwrap();

    let mut borrower = empty_position();
    supply_collateral(&mut borrower, 10_000).unwrap();

    // Asking for 5,000,000 debt shares pays out
    // floor(5,000,000 x 1 / 1,000,000) = 5 asset units.
    let (assets_out, shares) = borrow(&mut market, &mut borrower, 0, 5_000_000, 0).unwrap();
    assert_eq!(assets_out, 5);
    assert_eq!(shares, 5_000_000);
    assert_eq!(market.total_borrow_assets, 5);
    assert_eq!(market.total_borrow_shares, 5_000_000);
}

#[test]
fn test_borrow_insufficient_liquidity() {
    let mut market = initialize_market(80_000_000, 0).unwrap();
    let mut lender = empty_position();
    supply(&mut market, &mut lender, 1000, 0, 0).unwrap();

    let mut borrower = empty_position();
    supply_collateral(&mut borrower, 100_000).unwrap();

    let before_market = market;
    assert_eq!(
        borrow(&mut market, &mut borrower, 1100, 0, 0).unwrap_err(),
        PelagoError::InsufficientLiquidity
    );
    assert_eq!(market, before_market);
    assert_eq!(borrower.borrow_shares, 0);
}

#[test]
fn test_withdraw_insufficient_liquidity() {
    let mut market = initialize_market(80_000_000, 0).unwrap();
    let mut lender = empty_position();
    supply(&mut market, &mut lender, 1000, 0, 0).unwrap();

    let mut borrower = empty_position();
    supply_collateral(&mut borrower, 10_000).unwrap();
    borrow(&mut market, &mut borrower, 500, 0, 0).unwrap();

    // Withdrawing 600 would leave 400 in the pool against 500 of debt.
    let before_market = market;
    let before_lender = lender;
    assert_eq!(
        withdraw(&mut market, &mut lender, 600, 0, 0).unwrap_err(),
        PelagoError::InsufficientLiquidity
    );
    assert_eq!(market, before_market);
    assert_eq!(lender, before_lender);
}

#[test]
fn test_withdraw_insufficient_supply_shares() {
    let mut market = initialize_market(80_000_000, 0).unwrap();
    let mut lender = empty_position();
    supply(&mut market, &mut lender, 1000, 0, 0).unwrap();

    // A stranger holding no shares asks to burn one share.
    let mut stranger = empty_position();
    assert_eq!(
        withdraw(&mut market, &mut stranger, 0, 1, 0).unwrap_err(),
        PelagoError::InsufficientSupply
    );
    assert_eq!(stranger, empty_position());
}

#[test]
fn test_withdraw_collateral_keeps_position_healthy() {
    let mut market = initialize_market(80_000_000, 0).unwrap();
    let mut lender = empty_position();
    supply(&mut market, &mut lender, 1000, 0, 0).unwrap();

    let mut borrower = empty_position();
    supply_collateral(&mut borrower, 10_000).unwrap();
    borrow(&mut market, &mut borrower, 700, 0, 0).unwrap();

    // Collateral of 9000 is still worth 900, max debt 720 >= 700: allowed.
    withdraw_collateral(&mut market, &mut borrower, 1000, 0).unwrap();
    assert_eq!(borrower.collateral_amount, 9_000);

    // Another 300 would cap the debt at 696 < 700: rejected, unchanged.
    let before_market = market;
    let before_borrower = borrower;
    assert_eq!(
        withdraw_collateral(&mut market, &mut borrower, 300, 0).unwrap_err(),
        PelagoError::InsufficientCollateral
    );
    assert_eq!(market, before_market);
    assert_eq!(borrower, before_borrower);
}

#[test]
fn test_withdraw_collateral_more_than_held() {
    let mut market = initialize_market(80_000_000, 0).unwrap();
    let mut position = empty_position();
    supply_collateral(&mut position, 50).unwrap();
    assert_eq!(
        withdraw_collateral(&mut market, &mut position, 51, 0).unwrap_err(),
        PelagoError::InsufficientCollateral
    );
    assert_eq!(position.collateral_amount, 50);
}

#[test]
fn test_repay_overpayment_clamps_to_zero() {
    // Repaying one asset unit more than the recorded debt (possible through
    // rounding) must clamp the totals to exactly zero, not fail.
    let mut market = initialize_market(80_000_000, 0).unwrap();
    let mut lender = empty_position();
    supply(&mut market, &mut lender, 100, 0, 0).unwrap();

    let mut borrower = empty_position();
    supply_collateral(&mut borrower, 200).unwrap();
    borrow(&mut market, &mut borrower, 10, 0, 0).unwrap();
    assert_eq!(market.total_borrow_assets, 10);
    assert_eq!(market.total_borrow_shares, 10_000_000);

    let (assets_in, shares_burnt) = repay(&mut market, &mut borrower, 11, 0, 0).unwrap();
    assert_eq!(assets_in, 11);
    assert_eq!(shares_burnt, 11_000_000);
    assert_eq!(market.total_borrow_assets, 0);
    assert_eq!(market.total_borrow_shares, 0);
    assert_eq!(borrower.borrow_shares, 0);
}

#[test]
fn test_repay_by_shares_mode() {
    let mut market = initialize_market(80_000_000, 0).unwrap();
    let mut lender = empty_position();
    supply(&mut market, &mut lender, 1000, 0, 0).unwrap();

    let mut borrower = empty_position();
    supply_collateral(&mut borrower, 10_000).unwrap();
    borrow(&mut market, &mut borrower, 100, 0, 0).unwrap();

    // Burning all 100,000,000 debt shares costs
    // ceil(100,000,000 x 101 / 101,000,000) = 100 asset units.
    let (assets_in, shares_burnt) =
        repay(&mut market, &mut borrower, 0, 100_000_000, 0).unwrap();
    assert_eq!(assets_in, 100);
    assert_eq!(shares_burnt, 100_000_000);
    assert_eq!(market.total_borrow_assets, 0);
    assert_eq!(market.total_borrow_shares, 0);
    assert_eq!(borrower.borrow_shares, 0);
}

#[test]
fn test_operations_reject_backwards_clock() {
    let mut market = initialize_market(80_000_000, 1000).unwrap();
    let mut position = empty_position();
    let before_market = market;
    assert_eq!(
        supply(&mut market, &mut position, 10, 0, 999).unwrap_err(),
        PelagoError::InvalidTimestamp
    );
    assert_eq!(market, before_market);
}

#[test]
fn test_supply_overflow_rejected() {
    // A deposit whose share count cannot be represented is rejected whole.
    let mut market = initialize_market(80_000_000, 0).unwrap();
    let mut position = empty_position();
    assert_eq!(
        supply(&mut market, &mut position, u64::MAX, 0, 0).unwrap_err(),
        PelagoError::MathOverflow
    );
    assert_eq!(market.total_supply_assets, 0);
    assert_eq!(position.supply_shares, 0);
}

#[test]
fn test_liquidity_invariant_across_sequence() {
    // Supply/borrow/accrue/repay/withdraw in sequence, checking the
    // liquidity invariant after every step.
    let mut market = initialize_market(80_000_000, 0).unwrap();
    let mut lender = empty_position();
    let mut borrower = empty_position();

    supply(&mut market, &mut lender, 1_000_000, 0, 0).unwrap();
    assert!(market.total_borrow_assets <= market.total_supply_assets);

    supply_collateral(&mut borrower, 20_000_000).unwrap();
    borrow(&mut market, &mut borrower, 1_000_000, 0, 0).unwrap();
    assert!(market.total_borrow_assets <= market.total_supply_assets);

    // A year later both sides have grown by the same interest.
    repay(&mut market, &mut borrower, 400_000, 0, 31_557_600).unwrap();
    assert!(market.total_borrow_assets <= market.total_supply_assets);

    withdraw(&mut market, &mut lender, 300_000, 0, 31_557_600).unwrap();
    assert!(market.total_borrow_assets <= market.total_supply_assets);
}

use af_iperps::errors::{self, MoveAbort, TryFromCodeError};

#[test]
fn variant_to_code() {
    assert_eq!(u64::from(MoveAbort::MaxPendingOrdersExceeded), 2000);
    assert_eq!(u64::from(MoveAbort::MapTooSmall), 3007);
    assert_eq!(Ok(MoveAbort::MaxPendingOrdersExceeded), 2000_u64.try_into());
    assert_eq!(Ok(MoveAbort::MapTooSmall), 3007_u64.try_into());
}

#[test]
fn constants_are_the_codes() {
    assert_eq!(errors::DepositOrWithdrawAmountZero, 0);
    assert_eq!(errors::WrongVersion, 16);
    assert_eq!(errors::TWAPOrderInvalidGasSplit, 52);
    assert_eq!(errors::InvalidMarketParameters, 1000);
    assert_eq!(errors::MarketIsClosed, 1013);
    assert_eq!(errors::InvalidPositionForSLTP, 2011);
    assert_eq!(errors::TooManyAssistantsPerAccount, 4000);
    assert_eq!(MoveAbort::WrongVersion.code(), errors::WrongVersion);
    assert_eq!(MoveAbort::TooManyAssistantsPerAccount.code(), 4000);
}

#[test]
fn unknown_codes_are_refused() {
    // 15 and 42 are gaps in the numbering.
    for n in [15_u64, 42, 53, 999, 1014, 2012, 3008, 4001, u64::MAX] {
        let result: Result<MoveAbort, TryFromCodeError> = n.try_into();
        assert_eq!(result, Err(TryFromCodeError { number: n }));
        assert_eq!(MoveAbort::from_code(n), None);
    }
}

#[test]
fn every_code_leads_back_to_its_abort() {
    let mut found = 0;
    for n in 0..5000_u64 {
        if let Some(abort) = MoveAbort::from_code(n) {
            found += 1;
            assert_eq!(abort.code(), n);
            assert_eq!(u64::from(abort), n);
            assert_eq!(MoveAbort::try_from(n), Ok(abort));
        }
    }
    assert_eq!(found, 86);
}

#[test]
fn names_are_the_variant_names() {
    assert_eq!(MoveAbort::DepositOrWithdrawAmountZero.as_str(), "DepositOrWithdrawAmountZero");
    assert_eq!(MoveAbort::MapTooSmall.as_str(), "MapTooSmall");
    assert_eq!(MoveAbort::TWAPOrderInvalidGasSplit.as_str(), "TWAPOrderInvalidGasSplit");
    assert_eq!(format!("{:?}", MoveAbort::KeyNotExist), MoveAbort::KeyNotExist.as_str());
}

#[test]
fn documentation_texts() {
    assert_eq!(
        MoveAbort::MaxPendingOrdersExceeded.get_documentation(),
        Some(
            "Tried placing a new pending order when the position already has the maximum\nallowed number of pending orders.\n"
        )
    );
    assert_eq!(
        MoveAbort::BadIndexPrice.get_documentation(),
        Some("Index price returned from oracle is 0 or invalid value")
    );
    assert_eq!(
        MoveAbort::MapTooSmall.get_documentation(),
        Some("When trying to change a map configuration, but the map has\nlength less than 4\n")
    );
}

#[test]
fn documentation_of_several_lines() {
    assert_eq!(
        MoveAbort::SizeOrPositionZero.get_documentation(),
        Some(
            "Size to place is 0. Raised also when there is no open position and\nan order with `reduce_only` is passed.\n"
        )
    );
    assert_eq!(
        MoveAbort::KeyAlreadyExists.get_documentation(),
        Some("While inserting already existing key.")
    );
}

#[test]
fn each_variant_answers_its_own_is_method() {
    assert!(MoveAbort::TWAPOrderInvalidGasSplit.is_twap_order_invalid_gas_split());
    assert!(!MoveAbort::TWAPOrderInvalidGasSplit.is_twap_order_fully_executed());
    assert!(MoveAbort::PositionBelowIMR.is_position_below_imr());
    assert!(MoveAbort::ADLWeightsDoNotSumToOne.is_adl_weights_do_not_sum_to_one());
    assert!(MoveAbort::DepositOrWithdrawAmountZero.is_deposit_or_withdraw_amount_zero());
    assert!(!MoveAbort::MapTooSmall.is_key_not_exist());
}


#[test]
fn the_code_is_not_the_position() {
    // The abort code comes from `code` or `u64::from`, whatever the variant's place in the list.
    assert_eq!(MoveAbort::MaxPendingOrdersExceeded.code(), 2000);
    assert_eq!(u64::from(MoveAbort::TooManyAssistantsPerAccount), 4000);
}

#[test]
fn messages_are_unset_and_the_name_is_the_serialization() {
    assert_eq!(MoveAbort::WrongVersion.get_message(), None);
    assert_eq!(MoveAbort::WrongVersion.get_detailed_message(), None);
    assert_eq!(MoveAbort::WrongVersion.get_serializations(), &["WrongVersion"]);
    assert_eq!(MoveAbort::MapTooSmall.get_serializations(), &["MapTooSmall"]);
}

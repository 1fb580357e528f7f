use elysium::account::AccountId;
use elysium::currency::{deposit, deposit_base, deposit_factor, default_base_fee_per_gas, MAXIMUM_SUPPLY, TRANSACTION_BYTE_FEE};
use elysium::evm::{
    clamp_gas_limit, estimated_transaction_len, extrinsic_filter, evm_weight_limits, AuraAccountAdapter, EthereumCall, EthereumOrigin,
    EvmCallKind, FindAuthorTruncated, RuntimeCall,
};
use elysium::fees::{
    adjustment_variable, block_gas_limit, default_elasticity, maximum_block_weight, maximum_multiplier,
    minimum_multiplier, normal_dispatch_ratio, target_block_fullness, weight_per_gas, weight_per_gas_weight,
    BaseFeeThreshold, FixedGasPrice, LengthToFee, DAYS, HOURS, MINIMUM_PERIOD, MINUTES, PERIOD,
};
use elysium::version::{native_version, version, VersionConstant};
use elysium::weights::Weight;
use parity_scale_codec::Encode;
use sp_weights::WeightToFeeCoefficient;

#[test]
fn deposits() {
    assert_eq!(deposit(1, 88), 108_800_000_000_000_000);
    assert_eq!(deposit_base(), 108_800_000_000_000_000);
    assert_eq!(deposit(0, 32), 3_200_000_000_000_000);
    assert_eq!(deposit_factor(), 3_200_000_000_000_000);
    assert_eq!(deposit(0, 0), 0);
    assert_eq!(deposit(2, 10), 201_000_000_000_000_000);
    // additivity on concrete values
    assert_eq!(deposit(3, 98), deposit(1, 88) + deposit(2, 10));
    assert_eq!(deposit(u32::MAX, u32::MAX), u32::MAX as u128 * 100_000_000_000_000_000 + u32::MAX as u128 * 100_000_000_000_000);
    assert_eq!(MAXIMUM_SUPPLY, 1_000_000_000_000_000_000_000_000_000);
    assert_eq!(default_base_fee_per_gas(), 1_000_000_000);
}

#[test]
fn length_to_fee_polynomial() {
    let terms = LengthToFee::polynomial();
    assert_eq!(terms.len(), 2);
    assert_eq!(terms[0].degree, 1);
    assert_eq!(terms[0].coeff_integer, TRANSACTION_BYTE_FEE);
    assert_eq!(terms[1].degree, 3);
    assert_eq!(terms[1].coeff_integer, 1);
    assert_eq!(LengthToFee::length_to_fee(0), 0);
    assert_eq!(LengthToFee::length_to_fee(1), 10_000_000_000_001);
    assert_eq!(LengthToFee::length_to_fee(100), 1_000_000_001_000_000);
    let m = u32::MAX as u128;
    assert_eq!(LengthToFee::length_to_fee(u32::MAX), TRANSACTION_BYTE_FEE * m + m * m * m);
}

#[test]
fn length_fee_matches_sp_weights_evaluation() {
    let terms: sp_weights::WeightToFeeCoefficients<u128> = LengthToFee::polynomial()
        .iter()
        .map(|c| WeightToFeeCoefficient {
            coeff_integer: c.coeff_integer,
            coeff_frac: sp_arithmetic::Perbill::from_parts(c.coeff_frac),
            negative: c.negative,
            degree: c.degree,
        })
        .collect();
    let poly = sp_weights::FeePolynomial::from(terms);
    for len in [0u32, 1, 7, 1_000, 5 * 1024 * 1024] {
        assert_eq!(LengthToFee::length_to_fee(len), poly.eval(len as u64));
    }
}

#[test]
fn gas_parameters() {
    assert_eq!(weight_per_gas(), 25_000);
    assert_eq!(weight_per_gas_weight(), Weight::from_parts(25_000, 0));
    assert_eq!(normal_dispatch_ratio(), 750_000_000);
    assert_eq!(maximum_block_weight(), Weight::from_parts(2_000_000_000_000, u64::MAX));
    assert_eq!(block_gas_limit(), 60_000_000);
    // the smallest ethereum transaction costs 21 000 gas
    assert_eq!(weight_per_gas_weight().ref_time() * 21_000, 525_000_000);
}

#[test]
fn fee_parameters() {
    assert_eq!(BaseFeeThreshold::lower(), 0);
    assert_eq!(BaseFeeThreshold::ideal(), 500_000);
    assert_eq!(BaseFeeThreshold::upper(), 1_000_000);
    assert_eq!(default_elasticity(), 125_000);
    assert_eq!(target_block_fullness(), 250_000_000_000_000_000);
    assert_eq!(adjustment_variable(), 4_000_000_000_000_000);
    assert_eq!(minimum_multiplier(), 1_000_000_000_000_000_000);
    assert_eq!(maximum_multiplier(), 100_000_000_000_000_000_000_000);
}

#[test]
fn min_gas_price_scales_with_multiplier() {
    assert_eq!(
        FixedGasPrice::min_gas_price(1_000_000_000_000_000_000, 25_000_000, 100_000_000),
        (1_250_000_000, Weight::from_parts(25_000_000, 0))
    );
    assert_eq!(FixedGasPrice::min_gas_price(1_500_000_000_000_000_000, 7, 9).0, 1_875_000_000);
    assert_eq!(FixedGasPrice::min_gas_price(0, 7, 9), (0, Weight::from_parts(7, 0)));
    // 0.5e-9 of a fee rounds down to zero
    assert_eq!(FixedGasPrice::min_gas_price(1, 7, 9).0, 0);
}

#[test]
fn block_time_constants() {
    assert_eq!(MINUTES, 10);
    assert_eq!(HOURS, 600);
    assert_eq!(DAYS, 14_400);
    assert_eq!(PERIOD, 20);
    assert_eq!(MINIMUM_PERIOD, 3_000);
}

#[test]
fn gas_limit_clamps_to_u64() {
    assert_eq!(clamp_gas_limit([5, 0, 0, 0]), 5);
    assert_eq!(clamp_gas_limit([u64::MAX, 0, 0, 0]), u64::MAX);
    assert_eq!(clamp_gas_limit([5, 1, 0, 0]), u64::MAX);
    assert_eq!(clamp_gas_limit([0, 0, 0, 1]), u64::MAX);
}

#[test]
fn estimated_lengths() {
    assert_eq!(estimated_transaction_len(EvmCallKind::Call, 100, false, false, &None), 310);
    assert_eq!(estimated_transaction_len(EvmCallKind::Create, 100, false, false, &None), 290);
    assert_eq!(estimated_transaction_len(EvmCallKind::Call, 0, true, true, &None), 274);
    let list = vec![([1u8; 20], vec![[2u8; 32]; 2]), ([3u8; 20], vec![])];
    let size = Some(list.clone()).encoded_size();
    assert_eq!(size, 1 + 1 + (20 + 1 + 64) + (20 + 1));
    assert_eq!(estimated_transaction_len(EvmCallKind::Call, 0, false, false, &Some(list.clone())), 210 + size);
    assert_eq!(estimated_transaction_len(EvmCallKind::Create, 3, true, false, &Some(list)), 190 + 3 + 32 + size);
    let long = vec![([0u8; 20], vec![[9u8; 32]; 64])];
    assert_eq!(
        estimated_transaction_len(EvmCallKind::Call, 0, false, false, &Some(long.clone())),
        210 + Some(long).encoded_size()
    );
}

#[test]
fn weight_limits() {
    let w = Weight::from_parts(100, 3);
    assert_eq!(evm_weight_limits(w, 77), (Some(w), Some(77)));
    assert_eq!(evm_weight_limits(Weight::from_parts(100, 0), 77), (None, None));
}

#[test]
fn truncated_author() {
    let mut key = [0u8; 32];
    for (i, b) in key.iter_mut().enumerate() {
        *b = i as u8;
    }
    let authorities = vec![[0xffu8; 32], key];
    let expected: [u8; 20] = core::array::from_fn(|i| (i + 4) as u8);
    assert_eq!(FindAuthorTruncated::find_author(Some(1), &authorities), Some(expected));
    assert_eq!(FindAuthorTruncated::find_author(None, &authorities), None);
}

#[test]
fn aura_account_adapter() {
    assert_eq!(AuraAccountAdapter::find_author(Some(vec![7u8; 32])), Some(AccountId::new([7u8; 32])));
    assert_eq!(AuraAccountAdapter::find_author(Some(vec![7u8; 31])), None);
    assert_eq!(AuraAccountAdapter::find_author(None), None);
}

#[test]
fn self_contained_routing() {
    let transact = RuntimeCall::Ethereum(EthereumCall::Transact(9u32));
    let other_eth = RuntimeCall::<u32>::Ethereum(EthereumCall::Other);
    let other = RuntimeCall::<u32>::Other;
    assert!(transact.is_self_contained(true));
    assert!(!other_eth.is_self_contained(false));
    assert!(!other.is_self_contained(true));
    assert_eq!(transact.check_self_contained(Some(3u8)), Some(3));
    assert_eq!(other.check_self_contained(Some(3u8)), None);
    assert_eq!(other_eth.validate_self_contained(Some(1u8)), Some(1));
    assert_eq!(other.validate_self_contained(Some(1u8)), None);
    assert_eq!(transact.pre_dispatch_self_contained(Some(2u8)), Some(2));
    assert_eq!(other.pre_dispatch_self_contained(Some(2u8)), None);
    assert_eq!(transact.apply_self_contained([4; 20]), Some(EthereumOrigin::EthereumTransaction([4; 20])));
    assert_eq!(other_eth.apply_self_contained([4; 20]), None);
    assert_eq!(other.apply_self_contained([4; 20]), None);
}

#[test]
fn versions() {
    let v = version();
    assert_eq!(v.spec_name, "elysium");
    assert_eq!(v.impl_name, "elysium");
    assert_eq!((v.authoring_version, v.spec_version, v.impl_version), (2, 8, 2));
    assert_eq!((v.transaction_version, v.state_version), (1, 1));
    let n = native_version();
    assert_eq!(n.runtime_version, v);
    assert!(n.can_author_with.is_empty());
    assert!(VersionConstant::get().starts_with("v0.9.42"));
}

#[test]
fn extrinsic_filter_keeps_transactions_in_order() {
    let xts = vec![
        RuntimeCall::Ethereum(EthereumCall::Transact(1u32)),
        RuntimeCall::Other,
        RuntimeCall::Ethereum(EthereumCall::Other),
        RuntimeCall::Ethereum(EthereumCall::Transact(2u32)),
        RuntimeCall::Ethereum(EthereumCall::Transact(3u32)),
    ];
    assert_eq!(extrinsic_filter(xts), vec![1, 2, 3]);
    assert_eq!(extrinsic_filter(Vec::<RuntimeCall<u32>>::new()), Vec::<u32>::new());
}

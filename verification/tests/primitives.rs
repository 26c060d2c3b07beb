use invarch::dispatch::{
    ensure_root, ensure_signed, BadOrigin, DispatchError, ModuleError, RuntimeOrigin,
};
use invarch::donations;
use invarch::inv4::fee_handling::FeeAsset;
use invarch::mock::{dollar, BaseFilter, Call, ExtBuilder, SystemCall};
use invarch::primitives::utils::multi_account_id;
use invarch::primitives::{
    AccountId, AnyId, CallInfo, InvArchLicenses, IpfInfo, IplInfo, IpsInfo, IpsType, IptInfo,
    LicenseList, OneOrPercent, Parentage, Perbill, Percent, SubIptInfo, H256,
};
use invarch::storage::{bytes_eq, StorageKey, StorageMap};
use invarch::transaction_payment;

fn account(n: u8) -> AccountId {
    AccountId([n; 32])
}

#[test]
fn accounts_and_hashes_are_equal_when_their_bytes_are() {
    assert_eq!(account(1), account(1));
    assert_ne!(account(1), account(2));
    let mut other = [1u8; 32];
    other[31] = 0;
    assert_ne!(account(1), AccountId(other));
    assert_eq!(H256([3; 32]), H256([3; 32]));
    assert_ne!(H256([3; 32]), H256([4; 32]));
    assert!(bytes_eq(&[1u8, 2, 3], &[1u8, 2, 3]));
    assert!(!bytes_eq(&[1u8, 2, 3], &[1u8, 2, 4]));
    assert!(account(1).key_eq(&account(1)));
    assert!(!(1u32, H256([0; 32])).key_eq(&(2u32, H256([0; 32]))));
}

#[test]
fn multi_account_id_is_the_digest_of_tag_number_and_caller() {
    assert_eq!(
        multi_account_id(0, None),
        AccountId([
            68, 40, 208, 42, 188, 98, 222, 74, 196, 0, 147, 53, 91, 12, 45, 252, 172, 104, 240,
            47, 135, 158, 138, 216, 163, 213, 6, 207, 197, 235, 3, 229
        ])
    );
    assert_eq!(
        multi_account_id(7, Some(account(9))),
        AccountId([
            63, 134, 202, 181, 118, 116, 63, 61, 249, 14, 12, 67, 53, 211, 228, 32, 74, 42, 186,
            80, 201, 221, 163, 90, 40, 89, 165, 155, 254, 210, 201, 182
        ])
    );
}

#[test]
fn percent_never_exceeds_a_hundred() {
    assert_eq!(Percent::from_percent(0).deconstruct(), 0);
    assert_eq!(Percent::from_percent(50).deconstruct(), 50);
    assert_eq!(Percent::from_percent(100).deconstruct(), 100);
    assert_eq!(Percent::from_percent(101).deconstruct(), 100);
    assert_eq!(Percent::from_percent(255).deconstruct(), 100);
}

#[test]
fn threshold_is_the_proportion_rounded_up() {
    let half = OneOrPercent::ZeroPoint(Percent::from_percent(50));
    assert_eq!(half.threshold(1_000_000), 500_000);
    assert_eq!(half.threshold(1), 1);
    assert_eq!(half.threshold(3), 2);
    assert_eq!(half.threshold(0), 0);
    assert_eq!(OneOrPercent::One.threshold(1_000_000), 1_000_000);
    assert_eq!(OneOrPercent::One.threshold(u128::MAX), u128::MAX);
    assert_eq!(OneOrPercent::ZeroPoint(Percent::from_percent(100)).threshold(u128::MAX), u128::MAX);
    assert_eq!(OneOrPercent::ZeroPoint(Percent::from_percent(0)).threshold(u128::MAX), 0);
    assert_eq!(OneOrPercent::ZeroPoint(Percent::from_percent(33)).threshold(100), 33);
    assert_eq!(OneOrPercent::ZeroPoint(Percent::from_percent(33)).threshold(101), 34);
    assert_eq!(
        OneOrPercent::ZeroPoint(Percent::from_percent(1)).threshold(u128::MAX),
        3402823669209384634633746074317682115
    );
    assert_eq!(
        OneOrPercent::ZeroPoint(Percent::from_percent(99)).threshold(u128::MAX),
        u128::MAX - 3402823669209384634633746074317682114
    );
}

#[test]
fn parts_per_billion_never_exceed_the_whole() {
    assert_eq!(Perbill::from_parts(0).deconstruct(), 0);
    assert_eq!(Perbill::from_parts(1).deconstruct(), 1);
    assert_eq!(Perbill::from_parts(1_000_000_000).deconstruct(), 1_000_000_000);
    assert_eq!(Perbill::from_parts(u32::MAX).deconstruct(), 1_000_000_000);
    assert_eq!(Perbill::from_percent(50).deconstruct(), 500_000_000);
    assert_eq!(Perbill::from_percent(101).deconstruct(), 1_000_000_000);
    assert_eq!(Perbill::one(), Perbill::from_percent(100));
    assert_eq!(Perbill::zero(), Perbill::from_parts(0));
    assert!(Perbill::zero().is_zero());
    assert!(!Perbill::from_parts(1).is_zero());
    assert_eq!(OneOrPercent::One.ratio(), Perbill::one());
    assert_eq!(
        OneOrPercent::ZeroPoint(Percent::from_percent(33)).ratio(),
        Perbill::from_parts(330_000_000)
    );
}

#[test]
fn a_proportion_of_an_amount_is_rounded_up() {
    assert_eq!(Perbill::from_percent(50).mul_ceil(1_000_000), 500_000);
    assert_eq!(Perbill::from_percent(50).mul_ceil(3), 2);
    assert_eq!(Perbill::from_percent(50).mul_ceil(0), 0);
    assert_eq!(Perbill::one().mul_ceil(u128::MAX), u128::MAX);
    assert_eq!(Perbill::zero().mul_ceil(u128::MAX), 0);
    assert_eq!(Perbill::from_parts(1).mul_ceil(1), 1);
    assert_eq!(Perbill::from_parts(1).mul_ceil(1_000_000_000), 1);
    assert_eq!(Perbill::from_parts(1).mul_ceil(1_000_000_001), 2);
    assert_eq!(Perbill::from_parts(999_999_999).mul_ceil(1_000_000_000), 999_999_999);
    assert_eq!(Perbill::from_parts(999_999_999).mul_ceil(2), 2);
    assert_eq!(
        Perbill::from_parts(1).mul_ceil(u128::MAX),
        340282366920938463463374607432
    );
    for p in [1u8, 33, 50, 99, 100] {
        let percent = OneOrPercent::ZeroPoint(Percent::from_percent(p));
        for total in [0u128, 1, 2, 99, 100, 101, 12_345_678_901, u128::MAX] {
            assert_eq!(percent.ratio().mul_ceil(total), percent.threshold(total));
        }
    }
}

#[test]
fn threshold_never_falls_when_the_issuance_rises() {
    for p in [0u8, 1, 33, 50, 99, 100] {
        let t = OneOrPercent::ZeroPoint(Percent::from_percent(p));
        let mut last = 0;
        for total in 0..500u128 {
            let needed = t.threshold(total);
            assert!(needed >= last);
            assert!(needed <= total);
            last = needed;
        }
    }
}

#[test]
fn licences_have_their_names_and_hashes() {
    let (name, hash) = InvArchLicenses::Apache2.get_hash_and_metadata();
    assert_eq!(name, b"Apacha v2.0".to_vec());
    assert_eq!(
        hash,
        H256([
            7, 57, 92, 251, 234, 183, 217, 144, 220, 196, 201, 132, 176, 249, 18, 224, 237, 201,
            2, 113, 146, 78, 111, 152, 92, 71, 16, 228, 87, 39, 81, 142
        ])
    );
    let (name, hash) = InvArchLicenses::GPLv3.get_hash_and_metadata();
    assert_eq!(name, b"GNU GPL v3".to_vec());
    assert_eq!(
        hash,
        H256([
            72, 7, 169, 24, 30, 7, 200, 69, 232, 27, 10, 138, 130, 253, 91, 158, 210, 95, 127, 37,
            85, 41, 106, 136, 66, 116, 64, 35, 252, 195, 69, 253
        ])
    );
    let (name, hash) = InvArchLicenses::Custom(vec![1, 2], H256([9; 32])).get_hash_and_metadata();
    assert_eq!(name, vec![1, 2]);
    assert_eq!(hash, H256([9; 32]));
}

#[test]
fn records_hold_what_they_are_given() {
    let ips: IpsInfo<u8, Vec<u8>, Vec<u8>, u32> = IpsInfo {
        parentage: Parentage::Child(4, 1),
        metadata: vec![1],
        data: vec![2],
        ips_type: IpsType::Replica(3),
        allow_replica: true,
    };
    assert_eq!(ips.clone(), ips);
    assert_ne!(ips.parentage, Parentage::Parent(1));
    assert_ne!(ips.ips_type, IpsType::Normal);
    let ipf = IpfInfo { owner: 1u8, author: 2u8, metadata: vec![3u8], data: 4u32 };
    assert_eq!(ipf.clone().author, 2);
    let ipt = IptInfo { owner: 1u8, supply: 10u128 };
    assert_eq!(ipt.clone(), IptInfo { owner: 1u8, supply: 10u128 });
    let sub = SubIptInfo { id: 1u32, metadata: vec![1u8] };
    assert_eq!(sub.clone().id, 1);
    let ipl = IplInfo {
        owner: 1u8,
        id: 2u32,
        license: (vec![1u8], 3u64),
        execution_threshold: OneOrPercent::One,
        default_asset_weight: OneOrPercent::ZeroPoint(Percent::from_percent(30)),
        default_permission: false,
    };
    assert_eq!(ipl.license.1, 3);
    assert_eq!(CallInfo { pallet: 1u8, function: 2u8 }.clone().function, 2);
    assert_ne!(AnyId::<u32, u32>::IpsId(1), AnyId::IpfId(1));
}

#[test]
fn storage_map_keeps_one_value_per_key() {
    let mut map: StorageMap<u32, u8> = StorageMap::new();
    assert_eq!(map.len(), 0);
    assert_eq!(map.get(&1), None);
    map.insert(1, 10);
    map.insert(2, 20);
    map.insert(1, 11);
    assert_eq!(map.len(), 2);
    assert_eq!(map.get(&1), Some(&11));
    assert_eq!(map.entry_at(0), (&1, &11));
    assert_eq!(map.entry_at(1), (&2, &20));
    assert!(map.contains_key(&2));
    assert_eq!(map.remove(&1), Some(11));
    assert_eq!(map.remove(&1), None);
    assert!(!map.contains_key(&1));
    assert_eq!(map.entry_at(0), (&2, &20));
    assert_eq!(map.len(), 1);
}

#[test]
fn system_origins_are_told_apart() {
    assert_eq!(ensure_signed(RuntimeOrigin::signed(account(1))), Ok(account(1)));
    assert_eq!(ensure_signed(RuntimeOrigin::root()), Err(BadOrigin));
    assert_eq!(ensure_signed(RuntimeOrigin::unsigned()), Err(BadOrigin));
    assert_eq!(ensure_root(RuntimeOrigin::root()), Ok(()));
    assert_eq!(ensure_root(RuntimeOrigin::signed(account(1))), Err(BadOrigin));
}

#[test]
fn dollar_scales_by_ten_to_the_eighteenth() {
    assert_eq!(dollar(0), 0);
    assert_eq!(dollar(1), 1_000_000_000_000_000_000);
    assert_eq!(dollar(1000), 1_000_000_000_000_000_000_000);
    assert_eq!(dollar(u32::MAX), 4_294_967_295_000_000_000_000_000_000);
}

#[test]
fn base_filter_lets_remarks_through() {
    assert!(BaseFilter::contains(&Call::System(SystemCall::Remark { remark: vec![1] })));
    assert!(!BaseFilter::contains(&Call::System(SystemCall::SetHeapPages { pages: 1 })));
    assert!(!BaseFilter::contains(&Call::System(SystemCall::SetCode { code: vec![] })));
    assert_eq!(ExtBuilder::default().build().block_number, 1);
}

#[test]
fn donations_take_what_can_be_spared() {
    let config = donations::Config { minimum_remaining_amount: 10 };
    let mut pallet = donations::Pallet::new(config);
    let donor = RuntimeOrigin::signed(account(1));
    assert_eq!(pallet.donate(donor, 50, 100, 20, 7), Ok(50));
    assert_eq!(pallet.donation_storage(&account(1)), Some(50));
    assert_eq!(pallet.donate(donor, 80, 100, 20, 8), Ok(70));
    assert_eq!(pallet.donation_storage(&account(1)), Some(70));
    let nothing = DispatchError::Module(ModuleError::Donations(donations::Error::DonateWithNoValue));
    assert_eq!(pallet.donate(donor, 0, 100, 20, 8), Err(nothing));
    assert_eq!(pallet.donate(donor, 5, 10, 0, 8), Err(nothing));
    assert_eq!(pallet.donate(donor, 5, 30, 20, 8), Err(nothing));
    assert_eq!(pallet.donate(donor, 5, 5, 0, 8), Err(nothing));
    assert_eq!(pallet.donate(RuntimeOrigin::root(), 5, 100, 0, 8), Err(DispatchError::BadOrigin));
    assert_eq!(pallet.donation_storage(&account(2)), None);
    pallet.on_nonzero_unbalanced(3, 11);
    assert_eq!(
        pallet.events().clone(),
        vec![
            donations::Event::DonationReceived(account(1), 50, 7),
            donations::Event::DonationReceived(account(1), 70, 8),
            donations::Event::ImbalanceAbsorbed(3, 11),
        ]
    );
}

#[test]
fn the_pot_has_the_account_of_its_component() {
    let mut expected = [0u8; 32];
    expected[..4].copy_from_slice(b"modl");
    expected[4..12].copy_from_slice(b"Donation");
    assert_eq!(donations::Pallet::account_id(), AccountId(expected));
    assert_eq!(&donations::PALLET_ID, b"Donation");
}

#[test]
fn a_fee_taken_in_advance_is_split() {
    type Payment = transaction_payment::Pallet<u32>;
    assert_eq!(Payment::correct_and_deposit_fee(100, 60), (60, 40));
    assert_eq!(Payment::correct_and_deposit_fee(100, 100), (100, 0));
    assert_eq!(Payment::correct_and_deposit_fee(100, 150), (100, 0));
    assert_eq!(Payment::correct_and_deposit_fee(0, 0), (0, 0));
    let pallet = Payment::new();
    assert_eq!(pallet.preferred_asset(&account(1)), None);
    assert_ne!(FeeAsset::TNKR, FeeAsset::KSM);
}

struct Assets(u32);

impl transaction_payment::traits::FeeAssets<u32, u8> for Assets {
    fn default_asset_id() -> u32 {
        0
    }

    fn usable_for(asset_id: u32, call: &u8) -> u32 {
        if *call == 0 {
            asset_id
        } else {
            0
        }
    }

    fn asset_id(&self) -> u32 {
        self.0
    }

    fn default_asset() -> u32 {
        0
    }

    fn can_be_used(asset_id: u32, call: &u8) -> u32 {
        if *call == 0 {
            asset_id
        } else {
            0
        }
    }

    fn get_asset_id(&self) -> u32 {
        self.0
    }
}

#[test]
fn fees_are_taken_in_the_preferred_asset_where_it_can_be_used() {
    let mut pallet: transaction_payment::Pallet<u32> = transaction_payment::Pallet::new();
    let info = pallet.withdraw_fee::<u8, Assets>(&account(1), &0, 25);
    assert_eq!(info, transaction_payment::LiquidityInfo { fee: 25, asset_id: 0 });
    assert_eq!(
        pallet.set_preferred_asset::<u8, Assets>(RuntimeOrigin::root(), Assets(7)),
        Err(DispatchError::BadOrigin)
    );
    assert_eq!(pallet.preferred_asset(&account(1)), None);
    assert_eq!(
        pallet.set_preferred_asset::<u8, Assets>(RuntimeOrigin::signed(account(1)), Assets(7)),
        Ok(())
    );
    assert_eq!(pallet.preferred_asset(&account(1)), Some(7));
    assert_eq!(pallet.withdraw_fee::<u8, Assets>(&account(1), &0, 25).asset_id, 7);
    assert_eq!(pallet.withdraw_fee::<u8, Assets>(&account(1), &1, 25).asset_id, 0);
    assert_eq!(pallet.withdraw_fee::<u8, Assets>(&account(2), &0, 25).asset_id, 0);
}

use invarch::dispatch::{DispatchError, RuntimeOrigin};
use invarch::nft_origins::chains::ChainVerifier;
use invarch::nft_origins::junction::{
    BodyId, BodyPart, Junction, Junctions, MultiLocation, NetworkId, OriginKind,
};
use invarch::nft_origins::location::{Collection, Nft, NftLocation, Parachain, U256};
use invarch::nft_origins::origin::{ensure_nft, ensure_verifier, NftOrigin};
use invarch::nft_origins::xcm_converters::{NftMultilocationAsOrigin, VerifierMultilocationAsOrigin};
use invarch::nft_origins::{Event, NftDispatch, Pallet, Weight};
use invarch::primitives::AccountId;

fn vouching() -> Junction {
    Junction::GeneralIndex(69)
}

fn registry() -> Pallet {
    let mut pallet = Pallet::new();
    pallet
        .set_registered_chain(RuntimeOrigin::root(), vouching(), Some(Parachain(2000)))
        .unwrap();
    pallet
}

fn nft_place(para: u32, verifier: Junction) -> MultiLocation {
    MultiLocation {
        parents: 1,
        interior: Junctions::X4(
            Junction::Parachain(para),
            verifier,
            Junction::AccountKey20 { network: None, key: [0xAB; 20] },
            Junction::GeneralIndex(42),
        ),
    }
}

#[test]
fn para_id_is_the_number() {
    assert_eq!(Parachain(2125).para_id(), 2125);
}

#[test]
fn derived_account_is_the_digest_of_the_tagged_parts() {
    let location = NftLocation::new(
        Parachain(2000),
        Collection::Contract20([0xAB; 20]),
        Nft::U128Id(42),
    );
    assert_eq!(
        location.derive_account(),
        AccountId([
            107, 123, 150, 34, 66, 44, 94, 16, 142, 154, 5, 51, 50, 6, 75, 61, 125, 243, 169,
            166, 186, 144, 21, 181, 243, 203, 216, 82, 178, 114, 226, 123
        ])
    );
    let location = NftLocation::new(Parachain(1), Collection::Id(5), Nft::U256Id(U256([1, 2, 3, 4])));
    assert_eq!(
        location.derive_account(),
        AccountId([
            219, 95, 70, 14, 21, 188, 234, 173, 212, 158, 51, 73, 58, 168, 245, 222, 154, 184,
            215, 182, 133, 251, 5, 65, 247, 192, 77, 158, 205, 239, 240, 151
        ])
    );
    let location =
        NftLocation::new(Parachain(3), Collection::Contract32([7; 32]), Nft::Key20([8; 20]));
    assert_eq!(
        location.derive_account(),
        AccountId([
            121, 209, 81, 18, 200, 35, 249, 197, 21, 237, 217, 156, 212, 143, 253, 235, 188, 245,
            0, 83, 7, 181, 59, 106, 46, 206, 211, 137, 109, 27, 116, 3
        ])
    );
    let location =
        NftLocation::new(Parachain(3), Collection::Contract32([7; 32]), Nft::Key32([8; 32]));
    assert_eq!(
        location.derive_account(),
        AccountId([
            101, 51, 130, 251, 121, 245, 252, 69, 115, 121, 193, 96, 183, 21, 103, 251, 241, 185,
            233, 3, 73, 85, 163, 76, 91, 200, 246, 166, 156, 206, 76, 191
        ])
    );
}

#[test]
fn locations_are_equal_when_their_parts_are() {
    let a = NftLocation::new(Parachain(1), Collection::Id(5), Nft::U128Id(1));
    assert_eq!(a, NftLocation { chain: Parachain(1), collection: Collection::Id(5), nft: Nft::U128Id(1) });
    assert_ne!(a, NftLocation::new(Parachain(2), Collection::Id(5), Nft::U128Id(1)));
    assert_ne!(a, NftLocation::new(Parachain(1), Collection::Id(6), Nft::U128Id(1)));
    assert_ne!(a, NftLocation::new(Parachain(1), Collection::Id(5), Nft::Key20([1; 20])));
    assert_ne!(Collection::Contract20([1; 20]), Collection::Contract20([2; 20]));
    assert_ne!(Nft::U256Id(U256([1, 0, 0, 0])), Nft::U256Id(U256([1, 0, 0, 1])));
    assert_eq!(Nft::Key32([3; 32]), Nft::Key32([3; 32]));
}

#[test]
fn junctions_are_equal_when_their_parts_are() {
    assert_eq!(Junction::Parachain(1), Junction::Parachain(1));
    assert_ne!(Junction::Parachain(1), Junction::GeneralIndex(1));
    assert_ne!(
        Junction::AccountKey20 { network: None, key: [1; 20] },
        Junction::AccountKey20 { network: Some(NetworkId::Kusama), key: [1; 20] }
    );
    assert_eq!(
        Junction::AccountId32 { network: Some(NetworkId::ByGenesis([4; 32])), id: [1; 32] },
        Junction::AccountId32 { network: Some(NetworkId::ByGenesis([4; 32])), id: [1; 32] }
    );
    assert_ne!(
        Junction::GlobalConsensus(NetworkId::Ethereum { chain_id: 1 }),
        Junction::GlobalConsensus(NetworkId::Ethereum { chain_id: 2 })
    );
    assert_ne!(
        Junction::Plurality { id: BodyId::Moniker([1; 4]), part: BodyPart::Voice },
        Junction::Plurality { id: BodyId::Moniker([1; 4]), part: BodyPart::Members { count: 1 } }
    );
    assert_ne!(
        Junction::GeneralKey { length: 1, data: [0; 32] },
        Junction::GeneralKey { length: 2, data: [0; 32] }
    );
    assert_eq!(Junction::OnlyChild, Junction::OnlyChild);
}

#[test]
fn registered_chains_vouch_for_themselves_only() {
    let mut pallet = registry();
    assert_eq!(pallet.get_registered_chain(&vouching()), Some(Parachain(2000)));
    assert_eq!(pallet.get_registered_chain(&Junction::GeneralIndex(70)), None);
    assert_eq!(pallet.get_chain_from_verifier(2000, vouching()), Some(Parachain(2000)));
    assert_eq!(pallet.get_chain_from_verifier(2001, vouching()), None);
    assert_eq!(pallet.get_chain_from_verifier(2000, Junction::OnlyChild), None);
    assert_eq!(Parachain::new_parachain_verified(&pallet, 2000, vouching()), Some(Parachain(2000)));
    assert_eq!(Parachain::new_parachain_verified(&pallet, 1, vouching()), None);
    assert_eq!(
        NftLocation::new_verified(&pallet, 2000, vouching(), Collection::Id(1), Nft::U128Id(2)),
        Some(NftLocation::new(Parachain(2000), Collection::Id(1), Nft::U128Id(2)))
    );
    assert_eq!(
        NftLocation::new_verified(&pallet, 2000, Junction::OnlyChild, Collection::Id(1), Nft::U128Id(2)),
        None
    );
    pallet.set_registered_chain(RuntimeOrigin::unsigned(), vouching(), None).unwrap();
    assert_eq!(pallet.get_registered_chain(&vouching()), None);
    assert_eq!(pallet.get_chain_from_verifier(2000, vouching()), None);
}

#[test]
fn nft_place_converts_to_the_token() {
    let pallet = registry();
    let r = NftMultilocationAsOrigin::convert_origin(
        &pallet,
        nft_place(2000, vouching()),
        OriginKind::Native,
    );
    match r {
        Ok(RuntimeOrigin::NftOrigins(NftOrigin::Nft(location))) => assert_eq!(
            location,
            NftLocation::new(Parachain(2000), Collection::Contract20([0xAB; 20]), Nft::U128Id(42))
        ),
        _ => panic!("the place names a token"),
    }
}

#[test]
fn other_places_do_not_convert_to_a_token() {
    let pallet = registry();
    let unknown = NftMultilocationAsOrigin::convert_origin(
        &pallet,
        nft_place(2000, Junction::OnlyChild),
        OriginKind::Native,
    );
    assert!(matches!(unknown, Err(place) if place.parents == 1));
    let wrong_chain =
        NftMultilocationAsOrigin::convert_origin(&pallet, nft_place(2001, vouching()), OriginKind::Native);
    assert!(wrong_chain.is_err());
    let wrong_kind =
        NftMultilocationAsOrigin::convert_origin(&pallet, nft_place(2000, vouching()), OriginKind::Xcm);
    assert!(wrong_kind.is_err());
    let mut far = nft_place(2000, vouching());
    far.parents = 2;
    assert!(
        matches!(NftMultilocationAsOrigin::convert_origin(&pallet, far, OriginKind::Native), Err(place) if place.parents == 2)
    );
    let on_a_network = MultiLocation {
        parents: 1,
        interior: Junctions::X4(
            Junction::Parachain(2000),
            vouching(),
            Junction::AccountKey20 { network: Some(NetworkId::Kusama), key: [0xAB; 20] },
            Junction::GeneralIndex(42),
        ),
    };
    assert!(NftMultilocationAsOrigin::convert_origin(&pallet, on_a_network, OriginKind::Native).is_err());
    let short = MultiLocation {
        parents: 1,
        interior: Junctions::X2(Junction::Parachain(2000), vouching()),
    };
    assert!(NftMultilocationAsOrigin::convert_origin(&pallet, short, OriginKind::Native).is_err());
}

#[test]
fn verifier_place_converts_to_the_chain() {
    let pallet = registry();
    let place = MultiLocation {
        parents: 1,
        interior: Junctions::X2(Junction::Parachain(2000), vouching()),
    };
    let r = VerifierMultilocationAsOrigin::convert_origin(&pallet, place, OriginKind::Native);
    assert!(matches!(
        r,
        Ok(RuntimeOrigin::NftOrigins(NftOrigin::Verifier(Parachain(2000))))
    ));
    assert!(
        VerifierMultilocationAsOrigin::convert_origin(&pallet, place, OriginKind::Superuser).is_err()
    );
    let unknown = MultiLocation {
        parents: 1,
        interior: Junctions::X2(Junction::Parachain(2000), Junction::PalletInstance(3)),
    };
    assert!(VerifierMultilocationAsOrigin::convert_origin(&pallet, unknown, OriginKind::Native).is_err());
    assert!(VerifierMultilocationAsOrigin::convert_origin(
        &pallet,
        nft_place(2000, vouching()),
        OriginKind::Native
    )
    .is_err());
    let here = MultiLocation { parents: 1, interior: Junctions::Here };
    assert!(VerifierMultilocationAsOrigin::convert_origin(&pallet, here, OriginKind::Native).is_err());
}

#[test]
fn nft_origins_are_told_apart() {
    let location = NftLocation::new(Parachain(1), Collection::Id(2), Nft::U128Id(3));
    let nft = RuntimeOrigin::NftOrigins(NftOrigin::Nft(location));
    let chain = RuntimeOrigin::NftOrigins(NftOrigin::Verifier(Parachain(1)));
    assert_eq!(ensure_nft(nft), Ok(location));
    assert!(ensure_nft(chain).is_err());
    assert!(ensure_nft(RuntimeOrigin::root()).is_err());
    assert_eq!(ensure_verifier(chain), Ok(Parachain(1)));
    assert!(ensure_verifier(nft).is_err());
    assert!(ensure_verifier(RuntimeOrigin::signed(AccountId([1; 32]))).is_err());
}

#[test]
fn a_vouching_chain_dispatches_as_the_token() {
    let chain = RuntimeOrigin::NftOrigins(NftOrigin::Verifier(Parachain(7)));
    let expected = NftOrigin::Nft(NftLocation::new(Parachain(7), Collection::Id(2), Nft::U128Id(3)));
    assert_eq!(
        Pallet::dispatch_as_nft(chain, Collection::Id(2), Nft::U128Id(3), vec![1u8, 2]),
        Ok(NftDispatch { origin: expected, call: vec![1u8, 2] })
    );
    assert_eq!(
        Pallet::dispatch_registered_call_as_nft(chain, Collection::Id(2), Nft::U128Id(3), 5u32),
        Ok(NftDispatch { origin: expected, call: 5u32 })
    );
    assert_eq!(
        Pallet::dispatch_as_nft(RuntimeOrigin::root(), Collection::Id(2), Nft::U128Id(3), 0u8),
        Err(DispatchError::BadOrigin)
    );
    assert_eq!(
        Pallet::dispatch_registered_call_as_nft(
            RuntimeOrigin::NftOrigins(expected),
            Collection::Id(2),
            Nft::U128Id(3),
            0u8
        ),
        Err(DispatchError::BadOrigin)
    );
}

#[test]
fn test_call_records_the_token() {
    let mut pallet = Pallet::new();
    let location = NftLocation::new(Parachain(1), Collection::Id(2), Nft::U128Id(3));
    assert_eq!(pallet.test_nft_location(RuntimeOrigin::root()), Err(DispatchError::BadOrigin));
    assert!(pallet.events().is_empty());
    assert_eq!(
        pallet.test_nft_location(RuntimeOrigin::NftOrigins(NftOrigin::Nft(location))),
        Ok(())
    );
    assert_eq!(
        pallet.events().clone(),
        vec![Event::NftCalledTestFunction { nft_location: location }]
    );
}

#[test]
fn test_messages_go_to_the_test_chain() {
    let out = Pallet::test_send_xcm_as_nft(
        RuntimeOrigin::root(),
        vouching(),
        Junction::PalletInstance(1),
        Junction::GeneralIndex(2),
        vec![9, 9],
    );
    assert!(matches!(
        out.interior,
        Junctions::X3(v, Junction::PalletInstance(1), Junction::GeneralIndex(2)) if v == vouching()
    ));
    assert_eq!(out.dest.parents, 1);
    assert!(matches!(out.dest.interior, Junctions::X1(Junction::Parachain(2125))));
    assert_eq!(out.message.origin_kind, OriginKind::Native);
    assert_eq!(
        out.message.require_weight_at_most,
        Weight { ref_time: 50000000, proof_size: 10000 }
    );
    assert_eq!(out.message.call, vec![9, 9]);
    let out = Pallet::test_send_xcm_as_verifier(RuntimeOrigin::root(), vouching(), vec![1]);
    assert!(matches!(out.interior, Junctions::X1(v) if v == vouching()));
    assert!(matches!(out.dest.interior, Junctions::X1(Junction::Parachain(2125))));
    assert_eq!(out.message.call, vec![1]);
}

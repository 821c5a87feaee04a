use zloader::zygote::{ArgsError, Field, Layout, SpecializeArgs};

const ALL: [Field; 22] = [
    Field::Env,
    Field::Uid,
    Field::Gid,
    Field::Gids,
    Field::RuntimeFlags,
    Field::Rlimits,
    Field::PermittedCapabilities,
    Field::EffectiveCapabilities,
    Field::BoundingCapabilities,
    Field::MountExternal,
    Field::ManagedSeInfo,
    Field::ManagedNiceName,
    Field::IsSystemServer,
    Field::IsChildZygote,
    Field::ManagedInstructionSet,
    Field::ManagedAppDataDir,
    Field::IsTopApp,
    Field::PkgDataInfoList,
    Field::AllowlistedDataInfoList,
    Field::MountDataDirs,
    Field::MountStorageDirs,
    Field::MountSyspropOverrides,
];

#[test]
fn layout_follows_the_sdk() {
    for sdk in 31..=34 {
        assert_eq!(Layout::for_sdk(sdk), Ok(Layout::Sdk31));
    }
    assert_eq!(Layout::for_sdk(35), Ok(Layout::Sdk35));
    assert_eq!(Layout::for_sdk(30), Err(ArgsError::UnsupportedSdk));
    assert_eq!(Layout::for_sdk(36), Err(ArgsError::UnsupportedSdk));
    assert_eq!(Layout::for_sdk(-1), Err(ArgsError::UnsupportedSdk));
    assert_eq!(Layout::for_sdk(i32::MAX), Err(ArgsError::UnsupportedSdk));
}

#[test]
fn layouts_have_twenty_and_twenty_two_slots() {
    assert_eq!(Layout::Sdk31.len(), 20);
    assert_eq!(Layout::Sdk35.len(), 22);
}

#[test]
fn slots_of_sdk_31() {
    let expected: [Option<usize>; 22] = [
        Some(0), Some(1), Some(2), Some(3), Some(4), Some(5), Some(6), Some(7), None, Some(8),
        Some(9), Some(10), Some(11), Some(12), Some(13), Some(14), Some(15), Some(16), Some(17),
        Some(18), Some(19), None,
    ];
    for (field, slot) in ALL.iter().zip(expected) {
        assert_eq!(Layout::Sdk31.slot(*field), slot, "{:?}", field);
    }
}

#[test]
fn slots_of_sdk_35() {
    for (index, field) in ALL.iter().enumerate() {
        assert_eq!(Layout::Sdk35.slot(*field), Some(index), "{:?}", field);
        assert_eq!(field.ordinal(), index);
    }
}

#[test]
fn every_slot_holds_one_field() {
    for layout in [Layout::Sdk31, Layout::Sdk35] {
        let mut seen = vec![false; layout.len()];
        for field in ALL {
            if let Some(slot) = layout.slot(field) {
                assert!(slot < layout.len());
                assert!(!seen[slot]);
                seen[slot] = true;
            }
        }
        assert!(seen.into_iter().all(|s| s));
    }
}

#[test]
fn arguments_are_read_by_field() {
    let raw: Vec<u64> = (100..122).collect();
    let args = SpecializeArgs::from(35, &raw).unwrap();
    assert_eq!(args.as_slice(), raw.as_slice());
    assert_eq!(args.env(), 100);
    assert_eq!(args.get(Field::ManagedNiceName), Some(111));
    assert_eq!(args.get(Field::MountSyspropOverrides), Some(121));
    let old = SpecializeArgs::from(31, &raw[..20]).unwrap();
    assert_eq!(old.get(Field::ManagedNiceName), Some(110));
    assert_eq!(old.get(Field::BoundingCapabilities), None);
    assert_eq!(old.get(Field::MountSyspropOverrides), None);
}

#[test]
fn arguments_of_the_wrong_number_are_refused() {
    let raw: Vec<u64> = vec![0; 22];
    assert!(matches!(SpecializeArgs::from(31, &raw), Err(ArgsError::WrongLength)));
    assert!(matches!(SpecializeArgs::from(35, &raw[..20]), Err(ArgsError::WrongLength)));
    assert!(matches!(SpecializeArgs::from(30, &raw[..20]), Err(ArgsError::UnsupportedSdk)));
    assert!(matches!(SpecializeArgs::from(36, &raw), Err(ArgsError::UnsupportedSdk)));
}

#[test]
fn argument_is_stored_by_field() {
    let raw: Vec<u64> = vec![0; 20];
    let mut args = SpecializeArgs::from(33, &raw).unwrap();
    assert!(args.set(Field::Uid, 10123));
    assert!(!args.set(Field::BoundingCapabilities, 5));
    let mut expected = raw.clone();
    expected[1] = 10123;
    assert_eq!(args.as_slice(), expected.as_slice());
}

#[test]
fn user_id_is_the_low_half_of_its_slot() {
    let mut raw: Vec<u64> = vec![0; 22];
    raw[1] = 0xdead_beef_0000_2793;
    let args = SpecializeArgs::from(35, &raw).unwrap();
    assert_eq!(args.uid(), 10131);
}

#[test]
fn system_server_flag_is_the_low_byte_of_its_slot() {
    let mut raw: Vec<u64> = vec![0; 22];
    raw[12] = 0xffff_ff00;
    let mut args = SpecializeArgs::from(35, &raw).unwrap();
    assert!(!args.is_system_server());
    args.set(Field::IsSystemServer, 1);
    assert!(args.is_system_server());
    let mut raw: Vec<u64> = vec![0; 20];
    raw[11] = 1;
    raw[12] = 0;
    assert!(SpecializeArgs::from(31, &raw).unwrap().is_system_server());
}

use namegen::{clear_name, init_user, set_name, CustomError, InitUser, UpdateName, UserData};

const ALICE: [u8; 32] = [0xA1; 32];
const BOB: [u8; 32] = [0xB0; 32];

fn short_name() -> [u8; 64] {
    let mut name = [0u8; 64];
    name[0] = 1;
    name[1] = 2;
    name[2] = 3;
    name
}

fn record_of(owner: [u8; 32], name: [u8; 64]) -> UserData {
    UserData { owner, name }
}

#[test]
fn init_user_sets_owner_and_empty_name() {
    let mut ctx = InitUser { user_data: record_of([0u8; 32], [0u8; 64]), authority: ALICE };
    assert_eq!(init_user(&mut ctx), Ok(()));
    assert_eq!(ctx.user_data.owner, ALICE);
    assert_eq!(ctx.user_data.name, [0u8; 64]);
    assert_eq!(ctx.authority, ALICE);
}

#[test]
fn init_user_overwrites_whatever_the_slot_held() {
    let mut ctx = InitUser { user_data: record_of(BOB, [0x5A; 64]), authority: ALICE };
    assert_eq!(init_user(&mut ctx), Ok(()));
    assert_eq!(ctx.user_data, record_of(ALICE, [0u8; 64]));
}

#[test]
fn set_name_by_owner_stores_the_bytes_verbatim() {
    let mut ctx = UpdateName { user_data: record_of(ALICE, [0u8; 64]), authority: ALICE };
    assert_eq!(set_name(&mut ctx, short_name()), Ok(()));
    assert_eq!(ctx.user_data.name, short_name());
    assert_eq!(ctx.user_data.name[..4], [1, 2, 3, 0]);
    assert_eq!(ctx.user_data.owner, ALICE);
    assert_eq!(ctx.authority, ALICE);
}

#[test]
fn set_name_accepts_all_zero_bytes() {
    let mut ctx = UpdateName { user_data: record_of(ALICE, [0x11; 64]), authority: ALICE };
    assert_eq!(set_name(&mut ctx, [0u8; 64]), Ok(()));
    assert_eq!(ctx.user_data.name, [0u8; 64]);
}

#[test]
fn set_name_accepts_all_ff_bytes() {
    let mut ctx = UpdateName { user_data: record_of(ALICE, [0u8; 64]), authority: ALICE };
    assert_eq!(set_name(&mut ctx, [0xFF; 64]), Ok(()));
    assert_eq!(ctx.user_data.name, [0xFF; 64]);
}

#[test]
fn set_name_keeps_every_byte_in_its_place() {
    let mut name = [0u8; 64];
    for (i, byte) in name.iter_mut().enumerate() {
        *byte = (i as u8) * 3 + 1;
    }
    let mut ctx = UpdateName { user_data: record_of(ALICE, [0u8; 64]), authority: ALICE };
    assert_eq!(set_name(&mut ctx, name), Ok(()));
    for i in 0..64 {
        assert_eq!(ctx.user_data.name[i], (i as u8) * 3 + 1);
    }
}

#[test]
fn set_name_overwrites_an_earlier_name() {
    let mut ctx = UpdateName { user_data: record_of(ALICE, [0u8; 64]), authority: ALICE };
    assert_eq!(set_name(&mut ctx, [0x41; 64]), Ok(()));
    assert_eq!(set_name(&mut ctx, short_name()), Ok(()));
    assert_eq!(ctx.user_data.name, short_name());
}

#[test]
fn set_name_by_stranger_is_refused_and_changes_nothing() {
    let before = UpdateName { user_data: record_of(ALICE, short_name()), authority: BOB };
    let mut ctx = before;
    assert_eq!(set_name(&mut ctx, [0xFF; 64]), Err(CustomError::NotOwner));
    assert_eq!(ctx, before);
    assert_eq!(ctx.user_data.owner, ALICE);
    assert_eq!(ctx.user_data.name, short_name());
}

#[test]
fn clear_name_by_stranger_is_refused_and_changes_nothing() {
    let before = UpdateName { user_data: record_of(ALICE, short_name()), authority: BOB };
    let mut ctx = before;
    assert_eq!(clear_name(&mut ctx), Err(CustomError::NotOwner));
    assert_eq!(ctx, before);
}

#[test]
fn guard_compares_all_32_bytes() {
    for position in 0..32 {
        let mut signer = ALICE;
        signer[position] ^= 1;
        let mut ctx = UpdateName { user_data: record_of(ALICE, short_name()), authority: signer };
        assert_eq!(set_name(&mut ctx, [9u8; 64]), Err(CustomError::NotOwner));
        assert_eq!(clear_name(&mut ctx), Err(CustomError::NotOwner));
        assert_eq!(ctx.user_data, record_of(ALICE, short_name()));
    }
}

#[test]
fn clear_name_by_owner_empties_the_name() {
    for content in [[0u8; 64], [0xFF; 64], short_name()] {
        let mut ctx = UpdateName { user_data: record_of(ALICE, content), authority: ALICE };
        assert_eq!(clear_name(&mut ctx), Ok(()));
        assert_eq!(ctx.user_data.name, [0u8; 64]);
        assert_eq!(ctx.user_data.owner, ALICE);
    }
}

#[test]
fn clear_name_equals_set_name_of_zeros() {
    let start = UpdateName { user_data: record_of(ALICE, short_name()), authority: ALICE };
    let mut cleared = start;
    let mut zeroed = start;
    assert_eq!(clear_name(&mut cleared), set_name(&mut zeroed, [0u8; 64]));
    assert_eq!(cleared, zeroed);
}

#[test]
fn clear_name_twice_is_the_same_as_once() {
    let mut once = UpdateName { user_data: record_of(ALICE, short_name()), authority: ALICE };
    assert_eq!(clear_name(&mut once), Ok(()));
    let mut twice = once;
    assert_eq!(clear_name(&mut twice), Ok(()));
    assert_eq!(twice, once);

    let mut refused = UpdateName { user_data: record_of(ALICE, short_name()), authority: BOB };
    let first = clear_name(&mut refused);
    let after_first = refused;
    assert_eq!(clear_name(&mut refused), first);
    assert_eq!(refused, after_first);
}

#[test]
fn end_to_end_on_accounts() {
    // A initializes.
    let mut init = InitUser { user_data: record_of([0u8; 32], [0u8; 64]), authority: ALICE };
    assert_eq!(init_user(&mut init), Ok(()));
    let mut record = init.user_data;
    assert_eq!(record.name, [0u8; 64]);

    // A sets a name.
    let mut ctx = UpdateName { user_data: record, authority: ALICE };
    assert_eq!(set_name(&mut ctx, short_name()), Ok(()));
    record = ctx.user_data;
    assert_eq!(record.name, short_name());

    // B tries to set a name on A's record.
    let mut ctx = UpdateName { user_data: record, authority: BOB };
    assert_eq!(set_name(&mut ctx, [0x42; 64]), Err(CustomError::NotOwner));
    assert_eq!(ctx.user_data, record);
    assert_eq!(record.name, short_name());
    assert_eq!(record.owner, ALICE);

    // A clears.
    let mut ctx = UpdateName { user_data: record, authority: ALICE };
    assert_eq!(clear_name(&mut ctx), Ok(()));
    assert_eq!(ctx.user_data.name, [0u8; 64]);
    assert_eq!(ctx.user_data.owner, ALICE);
}

#[test]
fn not_owner_message() {
    assert_eq!(CustomError::NotOwner.message(), "Only the owner can modify this account.");
}

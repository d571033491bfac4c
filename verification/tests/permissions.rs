use guild_model::model::permissions::Permissions;

fn set(bits: u64) -> Permissions {
    Permissions::from_bits_truncate(bits)
}

#[test]
fn named_flags_make_up_the_full_set() {
    assert_eq!(Permissions::ADMINISTRATOR, 1 << 3);
    assert_eq!(Permissions::VIEW_CHANNEL, 1 << 10);
    assert_eq!(Permissions::SEND_MESSAGES, 1 << 11);
    assert_eq!(Permissions::ATTACH_FILES, 1 << 15);
    assert_eq!(Permissions::BAN_MEMBERS, 1 << 2);
    assert_eq!(Permissions::SEND_VOICE_MESSAGES, 1 << 46);
    assert_eq!(Permissions::USE_EXTERNAL_APPS, 1 << 50);
    assert_eq!(Permissions::all().bits(), Permissions::ALL_BITS);
    assert_eq!(Permissions::ALL_BITS, ((1u64 << 47) - 1) | (0b111 << 48));
    assert!(Permissions::all().is_all());
    assert!(!Permissions::empty().is_all());
    assert!(Permissions::empty().is_empty());
    assert_eq!(Permissions::default(), Permissions::empty());
    assert!(Permissions::all().administrator());
    assert!(Permissions::all().view_channel());
    assert!(!Permissions::empty().view_channel());
}

#[test]
fn bits_without_a_name() {
    assert_eq!(Permissions::from_bits_truncate(u64::MAX), Permissions::all());
    assert_eq!(Permissions::from_bits_truncate(1 << 47), Permissions::empty());
    assert_eq!(Permissions::from_bits(1 << 47), None);
    assert_eq!(Permissions::from_bits(0b1010), Some(set(0b1010)));
    assert_eq!(Permissions::from_bits(0b1010).unwrap().bits(), 0b1010);
}

#[test]
fn set_algebra() {
    let a = set(0b0110);
    let b = set(0b1100);
    assert_eq!(a.union(b), set(0b1110));
    assert_eq!(a.intersection(b), set(0b0100));
    assert_eq!(a.difference(b), set(0b0010));
    assert_eq!(b.difference(a), set(0b1000));
    assert_eq!(a.difference(Permissions::empty()), a);
    assert_eq!(Permissions::all().complement(), Permissions::empty());
    assert_eq!(Permissions::empty().complement(), Permissions::all());
    assert_eq!(a.complement().bits(), Permissions::ALL_BITS & !0b0110);
    assert!(a.contains(set(0b0100)));
    assert!(a.contains(a));
    assert!(a.contains(Permissions::empty()));
    assert!(!a.contains(b));
    assert!(a.has(0b0100) && a.has(0b0110) && !a.has(0b1100));
    assert!(a.intersects(b));
    assert!(!a.intersects(set(0b1001)));
    let mut c = a;
    c.insert(b);
    assert_eq!(c, set(0b1110));
    c.remove(set(0b0100));
    assert_eq!(c, set(0b1010));
}

#[test]
fn overwrite_denies_then_allows() {
    let base = set(0b0111);
    // A permission both denied and allowed stays allowed.
    assert_eq!(base.overwritten(set(0b1001), set(0b0011)), set(0b1101));
    assert_eq!(base.overwritten(Permissions::empty(), Permissions::empty()), base);
    assert_eq!(base.overwritten(Permissions::empty(), Permissions::all()), Permissions::empty());
}

#[test]
fn each_flag_is_told() {
    let p = set(Permissions::KICK_MEMBERS | Permissions::MANAGE_ROLES | Permissions::SEND_POLLS);
    assert!(p.kick_members() && p.manage_roles() && p.send_polls());
    assert!(!p.ban_members() && !p.administrator() && !p.manage_channels() && !p.use_external_apps());
}

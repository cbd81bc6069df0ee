use discord::errors::DiscordError;
use discord::intents::{Intents, ALL_MASK, MEMBERS, MESSAGE_CONTENT, PRESENCES};

#[test]
fn default_clears_exactly_the_privileged_bits() {
    let d = Intents::default();
    let all = Intents::all();
    assert_eq!(all.value, 0x331FFFF);
    assert_eq!(d.value & PRESENCES, 0);
    assert_eq!(d.value & MEMBERS, 0);
    assert_eq!(d.value & MESSAGE_CONTENT, 0);
    // every other known bit is set
    assert_eq!(d.value | PRESENCES | MEMBERS | MESSAGE_CONTENT, all.value);
    // all() & ~default() is exactly the three privileged bits
    assert_eq!(
        all.intersection(&d.complement()).value,
        PRESENCES | MEMBERS | MESSAGE_CONTENT
    );
}

#[test]
fn unknown_field_name_fails_and_names_the_key() {
    let base: u64 = 5;
    let fields = vec![("not_a_flag".to_string(), true)];
    let r = Intents::construct(base, &fields);
    assert!(matches!(r, Err(DiscordError::InvalidData(k)) if k == "not_a_flag"));
    // the base mask is untouched: the same base still constructs cleanly
    let ok = Intents::construct(base, &vec![]).unwrap();
    assert_eq!(ok.value, 5);
}

#[test]
fn construct_applies_overrides_in_order() {
    let fields = vec![
        ("guilds".to_string(), true),
        ("members".to_string(), true),
        ("members".to_string(), false),
    ];
    let r = Intents::construct(0, &fields).unwrap();
    assert_eq!(r.value, 1);
}

#[test]
fn construct_clears_bits_from_a_base() {
    let fields = vec![("presences".to_string(), false)];
    let r = Intents::construct(Intents::all().value, &fields).unwrap();
    assert_eq!(r.value, ALL_MASK & !PRESENCES);
}

#[test]
fn alias_names_reach_the_same_bits() {
    let a = Intents::construct(0, &vec![("bans".to_string(), true)]).unwrap();
    let b = Intents::construct(0, &vec![("moderation".to_string(), true)]).unwrap();
    assert_eq!(a, b);
    let c = Intents::construct(0, &vec![("emojis_and_stickers".to_string(), true)]).unwrap();
    let d = Intents::construct(0, &vec![("expressions".to_string(), true)]).unwrap();
    assert_eq!(c, d);
}

#[test]
fn set_algebra_identities_hold_on_samples() {
    let a = Intents { value: 0b1010110 };
    let b = Intents { value: 0b0111001 };
    assert_eq!(a.union(&a), a);
    assert_eq!(a.intersection(&a.complement()), Intents::none());
    assert_eq!(
        a.xor(&b),
        a.union(&b).intersection(&a.intersection(&b).complement())
    );
    // binary operators return new values, never mutate
    assert_eq!(a.value, 0b1010110);
    assert_eq!(b.value, 0b0111001);
}

#[test]
fn truthiness_is_value_based() {
    assert!(!Intents::none().any());
    assert!(Intents::all().any());
    assert_eq!(Intents::none(), Intents { value: 0 });
}

#[test]
fn named_getters_and_setters_toggle_single_bits() {
    let mut i = Intents::none();
    assert!(!i.guilds());
    i.set_guilds(true);
    assert!(i.guilds());
    assert_eq!(i.value, 1);
    i.set_members(true);
    assert!(i.members());
    i.set_members(false);
    assert!(!i.members());
    i.set_message_content(true);
    assert!(i.message_content());
    assert_eq!(i.value, 1 | MESSAGE_CONTENT);
    i.set_guilds(false);
    assert_eq!(i.value, MESSAGE_CONTENT);
}

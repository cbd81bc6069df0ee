use discord::snowflake::Snowflake;
use discord::state::State;

fn record(text: &str) -> serde_json::Value {
    serde_json::from_str(text).unwrap()
}

#[test]
fn put_then_get_returns_an_equal_record() {
    let mut state = State::new();
    let id = Snowflake::new(1);
    state.add_guild(id, record("{\"name\":\"g\"}"));
    assert_eq!(state.get_guild(id), Some(record("{\"name\":\"g\"}")));
    assert_eq!(state.get_guild(Snowflake::new(2)), None);
}

#[test]
fn last_write_wins() {
    let mut state = State::new();
    let id = Snowflake::new(1);
    state.add_user(id, record("{\"v\":1}"));
    state.add_user(id, record("{\"v\":2}"));
    assert_eq!(state.get_user(id), Some(record("{\"v\":2}")));
}

#[test]
fn puts_to_distinct_keys_never_lose_data() {
    let mut state = State::new();
    state.add_channel(Snowflake::new(10), record("{\"n\":\"a\"}"));
    state.add_channel(Snowflake::new(20), record("{\"n\":\"b\"}"));
    assert_eq!(state.get_channel(Snowflake::new(10)), Some(record("{\"n\":\"a\"}")));
    assert_eq!(state.get_channel(Snowflake::new(20)), Some(record("{\"n\":\"b\"}")));
}

#[test]
fn removal_is_explicit_and_per_kind() {
    let mut state = State::new();
    let id = Snowflake::new(7);
    state.add_guild(id, record("{}"));
    state.add_user(id, record("{}"));
    state.add_channel(id, record("{}"));
    state.remove_guild(id);
    assert_eq!(state.get_guild(id), None);
    assert!(state.get_user(id).is_some());
    state.remove_user(id);
    assert_eq!(state.get_user(id), None);
    state.remove_channel(id);
    assert_eq!(state.get_channel(id), None);
}

#[test]
fn clear_empties_all_three_stores() {
    let mut state = State::new();
    state.add_guild(Snowflake::new(1), record("{}"));
    state.add_user(Snowflake::new(2), record("{}"));
    state.add_channel(Snowflake::new(3), record("{}"));
    state.clear();
    assert_eq!(state.get_guild(Snowflake::new(1)), None);
    assert_eq!(state.get_user(Snowflake::new(2)), None);
    assert_eq!(state.get_channel(Snowflake::new(3)), None);
}

#[test]
fn own_user_identifier_is_a_guarded_slot() {
    let mut state = State::new();
    assert_eq!(state.get_user_id(), None);
    state.set_user_id(Snowflake::new(99));
    assert_eq!(state.get_user_id(), Some(Snowflake::new(99)));
    state.clear();
    assert_eq!(state.get_user_id(), Some(Snowflake::new(99)));
}

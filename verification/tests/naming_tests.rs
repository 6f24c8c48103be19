//! Name rules of the macro front ends.

use ssm::machine_codegen;
use ssm::store_codegen;

#[test]
fn test_machine_pascal_case() {
    assert_eq!(machine_codegen::to_pascal_case("mark_in_flight"), "MarkInFlight");
    assert_eq!(machine_codegen::to_pascal_case("start"), "Start");
    assert_eq!(machine_codegen::to_pascal_case("__a__b_"), "AB");
    assert_eq!(machine_codegen::to_pascal_case(""), "");
    // The full uppercase mapping of a character is kept.
    assert_eq!(machine_codegen::to_pascal_case("ßa"), "SSa");
}

#[test]
fn test_store_pascal_case() {
    assert_eq!(store_codegen::to_pascal_case("messages"), "Messages");
    assert_eq!(store_codegen::to_pascal_case("in_flight_tasks"), "InFlightTasks");
    assert_eq!(store_codegen::to_pascal_case("a__b"), "AB");
    // Only the first character of the uppercase mapping is kept.
    assert_eq!(store_codegen::to_pascal_case("ßa"), "Sa");
}

#[test]
fn test_store_snake_case() {
    assert_eq!(store_codegen::to_snake_case("InFlight"), "in_flight");
    assert_eq!(store_codegen::to_snake_case("Pending"), "pending");
    assert_eq!(store_codegen::to_snake_case("HTTPRequest"), "h_t_t_p_request");
    assert_eq!(store_codegen::to_snake_case("already_snake"), "already_snake");
    assert_eq!(store_codegen::to_snake_case(""), "");
}

#[test]
fn test_collection_names() {
    assert_eq!(store_codegen::prefixed_state_name("Messages", "InFlight"), "MessagesInFlight");
    assert_eq!(store_codegen::collection_field_name("messages", "InDoubt"), "messages_in_doubt");
}

#[test]
fn decimal_numerals() {
    assert_eq!(ssm::text::decimal_text(0), "0");
    assert_eq!(ssm::text::decimal_text(7), "7");
    assert_eq!(ssm::text::decimal_text(42), "42");
    assert_eq!(ssm::text::decimal_text(100), "100");
    assert_eq!(ssm::text::decimal_text(u32::MAX), "4294967295");
}

#[test]
fn text_concatenation() {
    assert_eq!(ssm::text::concat_text("ab", "cd"), "abcd");
    assert_eq!(ssm::text::concat_text("", "x"), "x");
}

#[test]
fn case_rules_round_trip_on_ascii_names() {
    let snake = store_codegen::to_snake_case("InFlight");
    assert_eq!(snake, "in_flight");
    assert_eq!(store_codegen::to_snake_case(&snake), snake);
    assert_eq!(store_codegen::to_snake_case("in_flight"), "in_flight");
    assert_eq!(store_codegen::to_snake_case(&store_codegen::to_pascal_case("mark_in_doubt")), "mark_in_doubt");
    assert_eq!(store_codegen::to_pascal_case(&store_codegen::to_snake_case("InFlight")), "InFlight");
    assert_eq!(store_codegen::to_pascal_case(&store_codegen::to_snake_case("X9y")), "X9y");
    assert_eq!(store_codegen::to_pascal_case(&store_codegen::to_snake_case("")), "");
    for s in ["start_job", "__a__b_", "x9_y", "Already"] {
        assert_eq!(machine_codegen::to_pascal_case(s), store_codegen::to_pascal_case(s));
    }
}

use tokenview::coins::{value_in_cents, Coin, UsState};
use tokenview::guessing::{guess_outcome, GuessOutcome};
use tokenview::messages::Message;
use tokenview::numbers;
use tokenview::options;

#[test]
fn five_is_five() {
    assert_eq!(numbers::five(), 5);
}

#[test]
fn plus_one_adds_one() {
    assert_eq!(numbers::plus_one(5), 6);
    assert_eq!(numbers::plus_one(-1), 0);
}

#[test]
fn plus_one_on_some_increments() {
    let five = Some(5);
    let six = options::plus_one(five);
    assert_eq!(six, Some(6));
}

#[test]
fn plus_one_on_none_stays_none() {
    let none = options::plus_one(None);
    assert_eq!(none, None);
}

#[test]
fn coin_values_in_cents() {
    assert_eq!(value_in_cents(Coin::Penny), 1);
    assert_eq!(value_in_cents(Coin::Nickel), 5);
    assert_eq!(value_in_cents(Coin::Dime), 10);
    assert_eq!(value_in_cents(Coin::Quarter(UsState::Alabama)), 25);
    assert_eq!(value_in_cents(Coin::Quarter(UsState::Alaska)), 25);
}

#[test]
fn guess_outcomes_cover_all_orderings() {
    assert_eq!(guess_outcome(10, 50), GuessOutcome::TooSmall);
    assert_eq!(guess_outcome(90, 50), GuessOutcome::TooBig);
    assert_eq!(guess_outcome(50, 50), GuessOutcome::Win);
}

#[test]
fn every_message_variant_can_be_called() {
    Message::Quit.call();
    Message::Move { x: 1, y: 2 }.call();
    Message::Write(String::from("hello")).call();
    Message::ChangeColor(0, 160, 255).call();
}

//! Coins and what each is worth.

use vstd::prelude::*;

verus! {

/// The states that have a quarter of their own.
#[derive(Clone, Copy, Debug, PartialEq, Eq, Structural)]
pub enum UsState {
    Alabama,
    Alaska,
    Missouri,
    Illinois,
}

/// A coin. A quarter bears the state it was struck for.
#[derive(Clone, Copy, Debug, PartialEq, Eq, Structural)]
pub enum Coin {
    Penny,
    Nickel,
    Dime,
    Quarter(UsState),
}

impl Coin {
    /// What a coin is worth, in cents.
    pub open spec fn cents(self) -> u8 {
        match self {
            Coin::Penny => 1,
            Coin::Nickel => 5,
            Coin::Dime => 10,
            Coin::Quarter(_) => 25,
        }
    }

    /// The state that a coin is announced with: a quarter's state, and none
    /// for the other coins.
    pub open spec fn announced(self) -> Option<UsState> {
        match self {
            Coin::Quarter(state) => Some(state),
            _ => None,
        }
    }

    /// The state to announce before a coin is counted, if it has one.
    pub fn state(&self) -> (state: Option<UsState>)
        ensures
            state == self.announced(),
    {
        match self {
            Coin::Quarter(state) => Some(*state),
            _ => None,
        }
    }
}

/// What a coin is worth, in cents.
pub fn value_in_cents(coin: Coin) -> (value: u8)
    ensures
        value == coin.cents(),
{
    match coin {
        Coin::Penny => 1,
        Coin::Nickel => 5,
        Coin::Dime => 10,
        Coin::Quarter(_) => 25,
    }
}

/// Every coin has one of four values, and the value tells the kind of coin:
/// no two kinds share one.
pub proof fn lemma_value_tells_kind(coin: Coin)
    ensures
        coin.cents() == 1 <==> coin is Penny,
        coin.cents() == 5 <==> coin is Nickel,
        coin.cents() == 10 <==> coin is Dime,
        coin.cents() == 25 <==> coin is Quarter,
        coin.cents() == 1 || coin.cents() == 5 || coin.cents() == 10 || coin.cents() == 25,
{
}

/// Only a quarter is announced, and what a quarter is worth does not depend
/// on its state.
pub proof fn lemma_quarters_alone_are_announced(coin: Coin, state: UsState)
    ensures
        coin.announced() is Some <==> coin is Quarter,
        coin.announced() == Some(state) <==> coin == Coin::Quarter(state),
        Coin::Quarter(state).cents() == 25,
{
}

} // verus!

//! Branches and loops, each with the values it yields.
//!
//! The functions here compute what is to be shown and hand it back; showing
//! it is the caller's business.

use vstd::prelude::*;

verus! {

/// What the first of 4, 3 and 2 that divides a number says of it.
#[derive(Clone, Copy, Debug, PartialEq, Eq, Structural)]
pub enum Divisibility {
    ByFour,
    ByThree,
    ByTwo,
    Indivisible,
}

/// One line of the tally that [`count_up`] keeps.
#[derive(Clone, Copy, Debug, PartialEq, Eq, Structural)]
pub enum Tally {
    /// The outer counter at the start of a round.
    Count(i32),
    /// The inner counter at the start of a turn.
    Remaining(i32),
}

/// The sentence for a number below five, and the one for all others.
pub fn condition_report(number: i32) -> (report: &'static str)
    ensures
        report@ == (if number < 5 {
            "condition was true"@
        } else {
            "condition was false"@
        }),
{
    if number < 5 {
        "condition was true"
    } else {
        "condition was false"
    }
}

/// A sentence for a flag that is set, none for one that is not.
pub fn boolean_report(flag: bool) -> (report: Option<&'static str>)
    ensures
        flag ==> (report matches Some(sentence) && sentence@ == "boolean is true"@),
        !flag ==> report is None,
{
    if flag {
        Some("boolean is true")
    } else {
        None
    }
}

/// A sentence for a number other than zero, none for zero.
pub fn nonzero_report(number: i32) -> (report: Option<&'static str>)
    ensures
        number != 0 ==> (report matches Some(sentence) && sentence@
            == "number is something other than zero"@),
        number == 0 ==> report is None,
{
    if number != 0 {
        Some("number is something other than zero")
    } else {
        None
    }
}

/// The first of 4, 3 and 2 that divides `number`, in that order.
pub open spec fn first_divisor(number: int) -> Divisibility {
    if number % 4 == 0 {
        Divisibility::ByFour
    } else if number % 3 == 0 {
        Divisibility::ByThree
    } else if number % 2 == 0 {
        Divisibility::ByTwo
    } else {
        Divisibility::Indivisible
    }
}

/// Tries 4, then 3, then 2, and stops at the first that divides `number`.
pub fn divisibility(number: i32) -> (found: Divisibility)
    ensures
        found == first_divisor(number as int),
{
    if number % 4 == 0 {
        Divisibility::ByFour
    } else if number % 3 == 0 {
        Divisibility::ByThree
    } else if number % 2 == 0 {
        Divisibility::ByTwo
    } else {
        Divisibility::Indivisible
    }
}

impl Divisibility {
    /// The sentence shown for a finding.
    pub open spec fn wording(self) -> Seq<char> {
        match self {
            Divisibility::ByFour => "number is divisible by 4"@,
            Divisibility::ByThree => "number is divisible by 3"@,
            Divisibility::ByTwo => "number is divisible by 2"@,
            Divisibility::Indivisible => "number is not divisible by 4, 3, or 2"@,
        }
    }

    /// The sentence shown for a finding.
    pub fn message(&self) -> (sentence: &'static str)
        ensures
            sentence@ == self.wording(),
    {
        match self {
            Divisibility::ByFour => "number is divisible by 4",
            Divisibility::ByThree => "number is divisible by 3",
            Divisibility::ByTwo => "number is divisible by 2",
            Divisibility::Indivisible => "number is not divisible by 4, 3, or 2",
        }
    }
}

/// Five where the condition holds, six where it does not.
pub fn conditional_number(condition: bool) -> (number: i32)
    ensures
        number == (if condition {
            5int
        } else {
            6int
        }),
{
    if condition {
        5
    } else {
        6
    }
}

/// Counts up from zero in steps of one until `goal` is reached, and hands
/// back the count doubled.
pub fn doubled_count(goal: i32) -> (result: i32)
    requires
        1 <= goal,
        2 * goal <= i32::MAX,
    ensures
        result == 2 * goal,
{
    let mut counter: i32 = 0;
    loop
        invariant_except_break
            0 <= counter < goal,
        ensures
            counter == goal,
        decreases goal - counter,
    {
        counter += 1;
        if counter == goal {
            break;
        }
    }
    counter * 2
}

/// The tally of `rounds` full rounds: each shows its count, then the inner
/// counter at 10 and at 9.
pub open spec fn full_rounds(rounds: nat) -> Seq<Tally>
    decreases rounds,
{
    if rounds == 0 {
        Seq::empty()
    } else {
        full_rounds((rounds - 1) as nat) + seq![
            Tally::Count((rounds - 1) as i32),
            Tally::Remaining(10),
            Tally::Remaining(9),
        ]
    }
}

/// The whole tally of a count up to `last`: `last` full rounds, and a round
/// that is cut short after its first turn.
pub open spec fn tally_up_to(last: nat) -> Seq<Tally> {
    full_rounds(last) + seq![Tally::Count(last as i32), Tally::Remaining(10)]
}

/// Counts rounds from zero up to `last` with two nested loops. The inner loop
/// counts down from 10 and ends its round at 9; in the round numbered `last`
/// it ends both loops after its first turn. Hands back the tally of all
/// counters met on the way, and the round counter at the end.
pub fn count_up(last: i32) -> (outcome: (Vec<Tally>, i32))
    requires
        0 <= last,
    ensures
        outcome.0@ == tally_up_to(last as nat),
        outcome.1 == last,
{
    let mut tally: Vec<Tally> = Vec::new();
    let mut count: i32 = 0;
    'counting_up: loop
        invariant_except_break
            0 <= count <= last,
            tally@ == full_rounds(count as nat),
        ensures
            count == last,
            tally@ == tally_up_to(last as nat),
        decreases last - count,
    {
        tally.push(Tally::Count(count));
        let mut remaining: i32 = 10;
        loop
            invariant_except_break
                0 <= count <= last,
                9 <= remaining <= 10,
                remaining == 9 ==> count < last,
                tally@ == full_rounds(count as nat) + seq![Tally::Count(count)] + (if remaining
                    == 10 {
                    Seq::<Tally>::empty()
                } else {
                    seq![Tally::Remaining(10)]
                }),
            ensures
                count < last,
                tally@ == full_rounds((count + 1) as nat),
            decreases remaining,
        {
            tally.push(Tally::Remaining(remaining));
            if remaining == 9 {
                break;
            }
            if count == last {
                break 'counting_up;
            }
            remaining -= 1;
        }
        count += 1;
    }
    (tally, count)
}

/// The numbers from `from` down to 1.
pub open spec fn descent(from: nat) -> Seq<u32> {
    Seq::new(from, |i: int| (from - i) as u32)
}

/// Counts down from `from` to 1, one number for each pass of the loop.
pub fn countdown(from: u32) -> (numbers: Vec<u32>)
    ensures
        numbers@ == descent(from as nat),
{
    let mut numbers: Vec<u32> = Vec::new();
    let mut number: u32 = from;
    while number != 0
        invariant
            number <= from,
            numbers@ == Seq::new((from - number) as nat, |i: int| (from - i) as u32),
        decreases number,
    {
        numbers.push(number);
        number -= 1;
    }
    numbers
}

/// The numbers of the range from `start` up to, but without, `end`, last one
/// first. A range whose end is not above its start holds no number.
pub open spec fn reversed(start: int, end: int) -> Seq<i32> {
    if start < end {
        Seq::new((end - start) as nat, |i: int| (end - 1 - i) as i32)
    } else {
        Seq::empty()
    }
}

/// Walks the range from `start` up to, but without, `end` backwards.
pub fn reversed_range(start: i32, end: i32) -> (numbers: Vec<i32>)
    ensures
        numbers@ == reversed(start as int, end as int),
{
    let mut numbers: Vec<i32> = Vec::new();
    let mut next: i32 = end;
    while start < next
        invariant
            start < end ==> start <= next <= end,
            start >= end ==> next == end,
            numbers@ == Seq::new(
                (if start < end { end - next } else { 0 }) as nat,
                |i: int| (end - 1 - i) as i32,
            ),
        decreases next - start,
    {
        next -= 1;
        numbers.push(next);
    }
    numbers
}

/// The five numbers that the collection walk goes through.
pub fn walked_values() -> (values: [i32; 5])
    ensures
        values@ == seq![10i32, 20i32, 30i32, 40i32, 50i32],
{
    [10, 20, 30, 40, 50]
}

} // verus!

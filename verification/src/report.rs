//! Line-oriented reports: the greeting with the result of one addition, and
//! the listing of a sequence of integers followed by its sum.
//!
//! The functions here build the lines; writing them to a stream is left to
//! the caller.

use vstd::prelude::*;
use vstd::string::*;
use crate::arith::{fits_i32, lemma_wrap_i32_absorbs, wrap_i32};
use crate::decimal::{decimal, numeral, to_decimal};

verus! {

/// The exact sum of the elements of `numbers`.
pub open spec fn total(numbers: Seq<i32>) -> int
    decreases numbers.len(),
{
    if numbers.len() == 0 {
        0
    } else {
        total(numbers.drop_last()) + numbers.last()
    }
}

/// A line made of `label` followed by the decimal text of `value`.
pub open spec fn labelled(label: Seq<char>, value: int) -> Seq<char> {
    label + decimal(value)
}

/// The 32-bit sum of `numbers`: the exact sum wrapped to 32 bits, whatever
/// the partial sums were.
pub fn sum(numbers: &[i32]) -> (s: i32)
    ensures
        s == wrap_i32(total(numbers@)),
        fits_i32(total(numbers@)) ==> s == total(numbers@),
{
    let mut s: i32 = 0;
    let mut i: usize = 0;
    while i < numbers.len()
        invariant
            i <= numbers.len(),
            s == wrap_i32(total(numbers@.take(i as int))),
        decreases numbers.len() - i,
    {
        proof {
            assert(numbers@.take(i + 1).drop_last() == numbers@.take(i as int));
            lemma_wrap_i32_absorbs(total(numbers@.take(i as int)), numbers[i as int] as int);
        }
        s = crate::arith::add(s, numbers[i]);
        i = i + 1;
    }
    assert(numbers@.take(i as int) == numbers@);
    s
}

/// The line `<label><value>`.
fn label_line(label: &str, value: i32) -> (line: String)
    ensures
        line@ == labelled(label@, value as int),
{
    let mut line = String::from_str(label);
    let digits = to_decimal(value);
    line.append(digits.as_str());
    line
}

/// Lists `numbers`: one `Number: <n>` line per element, in order, then one
/// `Sum: <s>` line with the 32-bit sum of the elements.
pub fn list_numbers(numbers: &[i32]) -> (lines: Vec<String>)
    ensures
        lines.len() == numbers.len() + 1,
        forall|i: int|
            0 <= i < numbers.len() ==> (#[trigger] lines[i])@ == labelled(
                "Number: "@,
                numbers[i] as int,
            ),
        lines[numbers.len() as int]@ == labelled("Sum: "@, wrap_i32(total(numbers@))),
{
    let mut lines: Vec<String> = Vec::new();
    let mut i: usize = 0;
    while i < numbers.len()
        invariant
            i <= numbers.len(),
            lines.len() == i,
            forall|k: int|
                0 <= k < i ==> (#[trigger] lines[k])@ == labelled("Number: "@, numbers[k] as int),
        decreases numbers.len() - i,
    {
        lines.push(label_line("Number: ", numbers[i]));
        i = i + 1;
    }
    lines.push(label_line("Sum: ", sum(numbers)));
    lines
}

/// Lists the sequence 1, 2, 3, 4, 5 and its sum, 15.
pub fn process_numbers() -> (lines: Vec<String>)
    ensures
        lines.len() == 6,
        lines[0]@ == "Number: 1"@,
        lines[1]@ == "Number: 2"@,
        lines[2]@ == "Number: 3"@,
        lines[3]@ == "Number: 4"@,
        lines[4]@ == "Number: 5"@,
        lines[5]@ == "Sum: 15"@,
{
    let numbers: [i32; 5] = [1, 2, 3, 4, 5];
    let lines = list_numbers(&numbers);
    proof {
        reveal_strlit("Number: ");
        reveal_strlit("Number: 1");
        reveal_strlit("Number: 2");
        reveal_strlit("Number: 3");
        reveal_strlit("Number: 4");
        reveal_strlit("Number: 5");
        reveal_strlit("Sum: ");
        reveal_strlit("Sum: 15");
        assert(total(numbers@) == 15) by {
            reveal_with_fuel(total, 6);
        }
        assert(decimal(15) == seq!['1', '5']) by {
            reveal_with_fuel(numeral, 2);
        }
        assert(lines[0]@ =~= "Number: 1"@);
        assert(lines[1]@ =~= "Number: 2"@);
        assert(lines[2]@ =~= "Number: 3"@);
        assert(lines[3]@ =~= "Number: 4"@);
        assert(lines[4]@ =~= "Number: 5"@);
        assert(lines[5]@ =~= "Sum: 15"@);
    }
    lines
}

/// The greeting, then the result of adding 42 and 100.
pub fn greet() -> (lines: Vec<String>)
    ensures
        lines.len() == 2,
        lines[0]@ == "Hello, world!"@,
        lines[1]@ == "Result: 142"@,
{
    let mut lines: Vec<String> = Vec::new();
    lines.push(String::from_str("Hello, world!"));
    let x: i32 = 42;
    let y: i32 = 100;
    let result = crate::arith::add(x, y);
    lines.push(label_line("Result: ", result));
    proof {
        reveal_strlit("Result: ");
        reveal_strlit("Result: 142");
        assert(decimal(142) == seq!['1', '4', '2']) by {
            reveal_with_fuel(numeral, 3);
        }
        assert(lines[1]@ =~= "Result: 142"@);
    }
    lines
}

} // verus!

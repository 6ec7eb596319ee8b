//! A short tour of the language: values and slices, strings, control flow,
//! ownership, structs and enums, collections, and a number guessing game.
//! Each stop of the tour returns what it found, for the caller to print.

use vstd::prelude::*;
use vstd::string::*;
use crate::random::gen_range;

verus! {

/// What the stop on types found.
#[derive(Debug, Clone, Copy, PartialEq, Eq, Structural)]
pub struct TypesReport {
    /// The number parsed from the text `"43 "`, once the space at its end
    /// is trimmed away.
    pub parsed: u32,
    /// The first field of the tuple `(50, 100, 'a')`.
    pub first: i32,
    /// The value of the block `{ let x = 5; add_one(x) }`.
    pub incremented: i32,
    /// How many characters `"Hello World"` has.
    pub len: usize,
    /// How many characters the slice of its first three has.
    pub head_len: usize,
    /// How many characters the slice from the third one on has.
    pub tail_len: usize,
}

/// One more than `val`.
pub fn add_one(val: i32) -> (r: i32)
    requires
        val < i32::MAX,
    ensures
        r == val + 1,
{
    val + 1
}

/// Whether `c` is whitespace: a character with the Unicode property
/// `White_Space`.
pub open spec fn is_whitespace(c: char) -> bool {
    let code = c as u32;
    ||| 0x09 <= code <= 0x0d
    ||| code == 0x20
    ||| code == 0x85
    ||| code == 0xa0
    ||| code == 0x1680
    ||| 0x2000 <= code <= 0x200a
    ||| code == 0x2028
    ||| code == 0x2029
    ||| code == 0x202f
    ||| code == 0x205f
    ||| code == 0x3000
}

/// `text` without the whitespace at its start.
pub open spec fn trimmed_start(text: Seq<char>) -> Seq<char>
    decreases text.len(),
{
    if text.len() > 0 && is_whitespace(text[0]) {
        trimmed_start(text.drop_first())
    } else {
        text
    }
}

/// `text` without the whitespace at its end.
pub open spec fn trimmed_end(text: Seq<char>) -> Seq<char>
    decreases text.len(),
{
    if text.len() > 0 && is_whitespace(text.last()) {
        trimmed_end(text.drop_last())
    } else {
        text
    }
}

/// `text` without the whitespace at its start and at its end.
pub open spec fn trimmed(text: Seq<char>) -> Seq<char> {
    trimmed_end(trimmed_start(text))
}

/// Whether `c` is one of the digits `0` to `9`.
pub open spec fn is_digit(c: char) -> bool {
    0x30 <= c as u32 <= 0x39
}

/// The number that a row of digits stands for in base ten.
pub open spec fn digits_value(digits: Seq<char>) -> nat
    decreases digits.len(),
{
    if digits.len() == 0 {
        0
    } else {
        digits_value(digits.drop_last()) * 10 + (digits.last() as u32 - 0x30) as nat
    }
}

/// Whether every character of `text` is a digit.
pub open spec fn all_digits(text: Seq<char>) -> bool {
    forall|i: int| 0 <= i < text.len() ==> is_digit(#[trigger] text[i])
}

/// `text` without the `+` sign that it may start with.
pub open spec fn without_plus(text: Seq<char>) -> Seq<char> {
    if text.len() > 0 && text[0] == '+' {
        text.drop_first()
    } else {
        text
    }
}

/// The `u32` that `text` is the decimal form of: `text` has to be one or
/// more digits, with or without a `+` before them, and the number has to
/// fit. Anything else, whitespace included, gives nothing.
pub open spec fn parsed_u32(text: Seq<char>) -> Option<u32> {
    let digits = without_plus(text);
    if digits.len() > 0 && all_digits(digits) && digits_value(digits) <= u32::MAX {
        Some(digits_value(digits) as u32)
    } else {
        None
    }
}

/// Calls `str::trim` of `std`, which returns the slice of the text that is
/// left when the whitespace at its start and at its end is removed, where
/// whitespace is what has the Unicode property `White_Space`.
#[verifier::external_body]
fn trim(text: &str) -> (r: &str)
    ensures
        r@ == trimmed(text@),
{
    text.trim()
}

/// Calls `str::parse` of `std` for a `u32`. It accepts an optional `+` sign
/// followed by decimal digits and nothing else, and fails on an empty text,
/// on any other character, and on a number that does not fit.
#[verifier::external_body]
fn parse_u32(text: &str) -> (r: Option<u32>)
    ensures
        r == parsed_u32(text@),
{
    text.parse::<u32>().ok()
}

/// The number in the text `"43 "`: the text is trimmed and then parsed.
pub fn parsing() -> (parsed: u32)
    ensures
        parsed == 43,
{
    let text = "43 ";
    let number = trim(text);
    let parsed = parse_u32(number);
    proof {
        reveal_strlit("43 ");
        let whole = text@;
        let digits = seq!['4', '3'];
        assert(whole =~= seq!['4', '3', ' ']);
        assert(!is_whitespace(whole[0]));
        assert(trimmed_start(whole) == whole);
        assert(is_whitespace(whole.last()));
        assert(whole.drop_last() =~= digits);
        assert(!is_whitespace(digits.last()));
        assert(trimmed_end(digits) == digits);
        assert(trimmed_end(whole) == digits);
        assert(number@ == digits);
        assert(digits.drop_last() =~= seq!['4']);
        assert(seq!['4'].drop_last() =~= Seq::<char>::empty());
        assert(digits_value(Seq::<char>::empty()) == 0);
        assert(digits_value(seq!['4']) == 4);
        assert(digits_value(digits) == 43);
        assert(digits[0] != '+');
        assert(parsed_u32(digits) == Some(43u32));
    }
    parsed.unwrap()
}

/// The first field of a tuple, and the value of a block that calls
/// `add_one` on five.
pub fn tuples_and_blocks() -> (r: (i32, i32))
    ensures
        r == (50i32, 6i32),
{
    let a: (i32, i64, char) = (50, 100, 'a');
    let first: i32 = a.0;
    let y: i32 = {
        let x: i32 = 5;
        add_one(x)
    };
    (first, y)
}

/// The length of `"Hello World"`, of its first three characters, and of all
/// but its first two.
pub fn slices() -> (r: (usize, usize, usize))
    ensures
        r == (11usize, 3usize, 9usize),
{
    let a = String::from_str("Hello World");
    proof {
        reveal_strlit("Hello World");
    }
    let len: usize = a.as_str().unicode_len();
    // These are immutable references to parts of `a`.
    let b = a.as_str().substring_char(0, 3);
    let c = a.as_str().substring_char(2, len);
    (len, b.unicode_len(), c.unicode_len())
}

/// Parsing, tuples, block expressions and string slices.
pub fn types() -> (report: TypesReport)
    ensures
        report == (TypesReport {
            parsed: 43,
            first: 50,
            incremented: 6,
            len: 11,
            head_len: 3,
            tail_len: 9,
        }),
{
    let parsed = parsing();
    let (first, incremented) = tuples_and_blocks();
    let (len, head_len, tail_len) = slices();
    TypesReport { parsed, first, incremented, len, head_len, tail_len }
}

/// Growing and joining strings: returns `"arjun"` followed by `"puri"`.
pub fn strings() -> (joined: String)
    ensures
        joined@ == "arjun"@ + "puri"@,
{
    let mut a = String::from_str("world");
    a.append("hello");

    let b = String::from_str("arjun");
    let c = "puri";
    let d = b.concat(c);
    d
}

/// What the stop on control flow found.
#[derive(Debug, PartialEq, Eq)]
pub struct ControlFlowReport {
    /// Whether `5 < 6`.
    pub lower: bool,
    /// Whether the `if` expression on `6 > 5` took its first branch.
    pub first_branch: bool,
    /// What the `loop` broke with: twice the count at which it stopped.
    pub result: i32,
    /// What was left after counting `result` down.
    pub drained: i32,
    /// The sum of five fives.
    pub accumulated: i32,
    /// The numbers below four, largest first.
    pub countdown: Vec<i32>,
}

/// Conditions, `loop` with a value, `while`, and `for` in both directions.
pub fn control_flow() -> (report: ControlFlowReport)
    ensures
        report.lower,
        report.first_branch,
        report.result == 20,
        report.drained == 0,
        report.accumulated == 25,
        report.countdown@ == seq![3i32, 2i32, 1i32, 0i32],
{
    let a: i32 = 5;
    let b: i32 = 6;
    let lower = a < b;
    let first_branch = if b > a {
        true
    } else {
        false
    };

    let mut counter: i32 = 0;
    loop
        invariant_except_break
            0 <= counter < 10,
        ensures
            counter == 10,
        decreases 10 - counter,
    {
        counter = counter + 1;
        if counter == 10 {
            break ;
        }
    }
    let result: i32 = counter * 2;

    let mut drained: i32 = result;
    while drained > 0
        invariant
            0 <= drained <= 20,
        decreases drained,
    {
        drained = drained - 1;
    }

    let mut accumulated: i32 = 0;
    let arr: [i32; 5] = [5, 5, 5, 5, 5];
    let mut i: usize = 0;
    while i < 5
        invariant
            i <= 5,
            accumulated == 5 * i,
            forall|k: int| 0 <= k < 5 ==> arr@[k] == 5,
        decreases 5 - i,
    {
        accumulated = accumulated + arr[i];
        i = i + 1;
    }

    let mut countdown: Vec<i32> = Vec::new();
    let mut n: i32 = 4;
    while n > 0
        invariant
            0 <= n <= 4,
            countdown@.len() == 4 - n,
            forall|k: int| 0 <= k < countdown@.len() ==> countdown@[k] == 3 - k,
        decreases n,
    {
        n = n - 1;
        countdown.push(n);
    }
    assert(countdown@ =~= seq![3i32, 2i32, 1i32, 0i32]);

    ControlFlowReport { lower, first_branch, result, drained, accumulated, countdown }
}

/// `"Hello "` followed by the text behind `a_ref`, which is left untouched.
pub fn append_hello(a_ref: &String) -> (hello: String)
    ensures
        hello@ == "Hello "@ + a_ref@,
{
    let mut hello = String::from_str("Hello ");
    hello.append(a_ref.as_str());
    hello
}

/// Appends `" world"` to the string behind `mut_str`.
pub fn update_hello(mut_str: &mut String)
    ensures
        final(mut_str)@ == old(mut_str)@ + " world"@,
{
    mut_str.append(" world");
}

/// What the stop on ownership found.
#[derive(Debug, PartialEq, Eq)]
pub struct OwnershipReport {
    /// An integer and the copy made by assigning it.
    pub copied: (i32, i32),
    /// The string after it moved to a new owner.
    pub moved: String,
    /// A string and its clone.
    pub cloned: (String, String),
    /// Greetings made through two shared references to one name.
    pub greetings: (String, String),
    /// A string after a function changed it through a mutable reference.
    pub updated: String,
}

/// Copies, moves, clones, shared and mutable references.
pub fn ownership() -> (report: OwnershipReport)
    ensures
        report.copied == (5i32, 5i32),
        report.moved@ == "Hello World"@,
        report.cloned.0@ == "Hello World"@,
        report.cloned.1@ == "Hello World"@,
        report.greetings.0@ == "Hello "@ + "Arjun"@,
        report.greetings.1@ == "Hello "@ + "Arjun"@,
        report.updated@ == "Hello"@ + " world"@,
{
    let a: i32 = 5;
    let b: i32 = a;

    let c = String::from_str("Hello World");
    // `c` is no longer valid once `d` owns the text.
    let d = c;

    let new_c = String::from_str("Hello World");
    let new_d = new_c.clone();

    let name = String::from_str("Arjun");
    // Two immutable references to `name`.
    let a_ref = &name;
    let b_ref = &name;
    let first = append_hello(a_ref);
    let second = append_hello(b_ref);

    // A mutable reference, handed to a function that changes the string.
    let mut hello = String::from_str("Hello");
    update_hello(&mut hello);

    OwnershipReport {
        copied: (a, b),
        moved: d,
        cloned: (new_c, new_d),
        greetings: (first, second),
        updated: hello,
    }
}

/// Someone who learns something.
#[derive(Debug, PartialEq, Eq)]
pub struct Learner {
    pub who: String,
    pub what: String,
}

impl Learner {
    /// Replaces what is being learnt and keeps who learns it.
    pub fn change_what(&mut self, new: String)
        ensures
            final(self).what == new,
            final(self).who == old(self).who,
    {
        self.what = new;
    }

    pub fn new(who: String, what: String) -> (learner: Learner)
        ensures
            learner.who == who,
            learner.what == what,
    {
        Learner { who, what }
    }
}

/// A tuple struct around the name of a subject.
#[derive(Debug, PartialEq, Eq)]
pub struct Subject(pub String);

/// A tuple struct around the name of a kind of subject.
#[derive(Debug, PartialEq, Eq)]
pub struct Type(pub String);

#[derive(Debug, PartialEq, Eq)]
pub enum PersonalityType {
    Introvert(i64, i64),
    Extrovert(String),
}

#[derive(Debug, Clone, Copy, PartialEq, Eq, Structural)]
pub enum Gender {
    Male,
    Female,
}

#[derive(Debug, PartialEq, Eq)]
pub enum Person {
    Cool(String, PersonalityType, Gender),
    NotCool(PersonalityType, Gender),
}

/// The text that the `Debug` formatting of `std` produces for a string:
/// the string in double quotes, with its special characters escaped.
pub uninterp spec fn debug_text_of_str(text: Seq<char>) -> Seq<char>;

/// The character of the digit `digit`.
pub open spec fn digit_char(digit: int) -> char {
    ((0x30 + digit) as u8) as char
}

/// The decimal form of a number that is not negative: its digits, the
/// highest first, without zeros before them.
pub open spec fn natural_text(value: nat) -> Seq<char>
    decreases value,
{
    if value < 10 {
        seq![digit_char(value as int)]
    } else {
        natural_text(value / 10).push(digit_char((value % 10) as int))
    }
}

/// The decimal form of an integer: a minus sign if it is negative, and the
/// decimal form of its magnitude.
pub open spec fn decimal_text(value: int) -> Seq<char> {
    if value < 0 {
        seq!['-'] + natural_text((-value) as nat)
    } else {
        natural_text(value as nat)
    }
}

/// Formats a string with `{:?}` through `std`'s `format!`. The result is a
/// function of the string alone, named `debug_text_of_str`.
#[verifier::external_body]
fn debug_str(text: &String) -> (r: String)
    ensures
        r@ == debug_text_of_str(text@),
{
    format!("{:?}", text)
}

/// Formats an `i64` with `{:?}` through `std`'s `format!`, which writes the
/// number in decimal: a minus sign where it is negative, then its digits.
#[verifier::external_body]
fn debug_i64(value: i64) -> (r: String)
    ensures
        r@ == decimal_text(value as int),
{
    format!("{:?}", value)
}

/// The text of an introvert whose two numbers read `low` and `high`.
pub fn introvert_text(low: &str, high: &str) -> (text: String)
    ensures
        text@ == "Introvert("@ + low@ + ", "@ + high@ + ")"@,
{
    let mut text = String::from_str("Introvert(");
    text.append(low);
    text.append(", ");
    text.append(high);
    text.append(")");
    text
}

/// The text of an extrovert whose level reads `level`.
pub fn extrovert_text(level: &str) -> (text: String)
    ensures
        text@ == "Extrovert("@ + level@ + ")"@,
{
    let mut text = String::from_str("Extrovert(");
    text.append(level);
    text.append(")");
    text
}

/// What a cool person called `name` says, given the text of their
/// personality.
pub fn cool_greeting(name: &str, personality: &str) -> (greeting: String)
    ensures
        greeting@ == "hi my name is "@ + name@ + " and I'm an "@ + personality@,
{
    let mut greeting = String::from_str("hi my name is ");
    greeting.append(name);
    greeting.append(" and I'm an ");
    greeting.append(personality);
    greeting
}

impl PersonalityType {
    /// The variant's name followed by its fields in round brackets: numbers
    /// in decimal, a text in its `Debug` form.
    pub open spec fn spec_describe(&self) -> Seq<char> {
        match self {
            PersonalityType::Introvert(low, high) => "Introvert("@ + decimal_text(*low as int)
                + ", "@ + decimal_text(*high as int) + ")"@,
            PersonalityType::Extrovert(level) => "Extrovert("@ + debug_text_of_str(level@) + ")"@,
        }
    }

    /// The personality written out the way `{:?}` prints it.
    pub fn describe(&self) -> (text: String)
        ensures
            text@ == self.spec_describe(),
    {
        match self {
            PersonalityType::Introvert(low, high) => {
                let low_text = debug_i64(*low);
                let high_text = debug_i64(*high);
                introvert_text(low_text.as_str(), high_text.as_str())
            },
            PersonalityType::Extrovert(level) => {
                let level_text = debug_str(level);
                extrovert_text(level_text.as_str())
            },
        }
    }
}

impl Person {
    pub open spec fn spec_say_hi(&self) -> Seq<char> {
        match self {
            Person::Cool(name, personality_type, _) => "hi my name is "@ + name@
                + " and I'm an "@ + personality_type.spec_describe(),
            Person::NotCool(_, _) => "I'm not cool"@,
        }
    }

    /// A cool person introduces themselves by name and personality; anyone
    /// else just says that they are not cool.
    pub fn say_hi(&self) -> (greeting: String)
        ensures
            greeting@ == self.spec_say_hi(),
    {
        match self {
            Person::Cool(name, personality_type, _) => {
                let personality = personality_type.describe();
                cool_greeting(name.as_str(), personality.as_str())
            },
            Person::NotCool(_, _) => String::from_str("I'm not cool"),
        }
    }
}

/// What the stop on structs and enums found.
#[derive(Debug, PartialEq, Eq)]
pub struct StructsReport {
    /// The second learner after the change of subject.
    pub learner: Learner,
    pub subject: Subject,
    pub subject_type: Type,
    /// What the cool and the not so cool person said.
    pub greetings: (String, String),
    /// Whether `Some(5)` and `None` held a value.
    pub found: (bool, bool),
}

/// A learner who took over a subject and then changed it, and two tuple
/// structs.
pub fn creation_and_mutation() -> (r: (Learner, Subject, Type))
    ensures
        r.0.who@ == "aditi"@,
        r.0.what@ == "Ownership"@,
        r.1.0@ == "rust"@,
        r.2.0@ == "language"@,
{
    // Create a mutable struct and change both of its fields.
    let mut learner = Learner::new(String::from_str("arjun"), String::from_str("rust"));
    learner.who = String::from_str("arjun puri");
    learner.what = String::from_str("Rust");

    // The second learner takes over what the first one learns.
    let mut learner2 = Learner { who: String::from_str("aditi"), what: learner.what };

    let subject = Subject(String::from_str("rust"));
    let subject_type = Type(String::from_str("language"));

    learner2.change_what(String::from_str("Ownership"));
    (learner2, subject, subject_type)
}

/// What a cool and a not so cool person say, and whether `Some(5)` and
/// `None` hold a value.
pub fn enums() -> (r: ((String, String), (bool, bool)))
    ensures
        r.0.0@ == "hi my name is "@ + "aditi"@ + " and I'm an "@ + ("Extrovert("@
            + debug_text_of_str("low"@) + ")"@),
        r.0.1@ == "I'm not cool"@,
        r.1 == (true, false),
{
    let introvert = PersonalityType::Introvert(0, 10);
    let extrovert = PersonalityType::Extrovert(String::from_str("low"));

    let person1 = Person::Cool(String::from_str("aditi"), extrovert, Gender::Female);
    let person2 = Person::NotCool(introvert, Gender::Male);

    let first = person1.say_hi();
    let second = person2.say_hi();

    let a: Option<i32> = Some(5);
    let b: Option<i32> = None;
    let found_a = match a {
        Some(_) => true,
        None => false,
    };
    let found_b = match b {
        Some(_) => true,
        None => false,
    };
    ((first, second), (found_a, found_b))
}

/// Structs, tuple structs, methods and enums with data.
pub fn structs() -> (report: StructsReport)
    ensures
        report.learner.who@ == "aditi"@,
        report.learner.what@ == "Ownership"@,
        report.subject.0@ == "rust"@,
        report.subject_type.0@ == "language"@,
        report.greetings.0@ == "hi my name is "@ + "aditi"@ + " and I'm an "@ + ("Extrovert("@
            + debug_text_of_str("low"@) + ")"@),
        report.greetings.1@ == "I'm not cool"@,
        report.found == (true, false),
{
    let (learner, subject, subject_type) = creation_and_mutation();
    let (greetings, found) = enums();
    StructsReport { learner, subject, subject_type, greetings, found }
}

/// How a guess compares with the number that was drawn.
#[derive(Debug, Clone, Copy, PartialEq, Eq, Structural)]
pub enum Verdict {
    /// The guess is above the number.
    Higher,
    /// The guess is below the number.
    Lower,
    /// The guess is the number.
    Equal,
}

/// One round of the guessing game.
#[derive(Debug, PartialEq, Eq)]
pub struct GameRound {
    /// The greeting for the player.
    pub greeting: String,
    /// The player's guess.
    pub number: i32,
    /// The number that was drawn, from 1 to 100.
    pub generated: i32,
    pub verdict: Verdict,
}

pub open spec fn spec_judge(number: int, generated: int) -> Verdict {
    if number > generated {
        Verdict::Higher
    } else if number < generated {
        Verdict::Lower
    } else {
        Verdict::Equal
    }
}

/// Compares a guess with the number that was drawn.
pub fn judge(number: i32, generated: i32) -> (verdict: Verdict)
    ensures
        verdict == spec_judge(number as int, generated as int),
{
    if number > generated {
        Verdict::Higher
    } else if number < generated {
        Verdict::Lower
    } else {
        Verdict::Equal
    }
}

impl Verdict {
    /// What the player is told.
    pub fn message(&self) -> (text: &'static str)
        ensures
            text@ == match self {
                Verdict::Higher => "Higher!"@,
                Verdict::Lower => "Lower!"@,
                Verdict::Equal => "Equal!"@,
            },
    {
        match self {
            Verdict::Higher => "Higher!",
            Verdict::Lower => "Lower!",
            Verdict::Equal => "Equal!",
        }
    }
}

/// Greets `name`, draws a number from 1 to 100 and judges the guess `number`
/// against it.
pub fn random_number(name: String, number: i32) -> (round: GameRound)
    ensures
        round.greeting@ == "Hey "@ + name@ + "!"@,
        round.number == number,
        1 <= round.generated <= 100,
        round.verdict == spec_judge(number as int, round.generated as int),
{
    let mut greeting = String::from_str("Hey ");
    greeting.append(name.as_str());
    greeting.append("!");

    let rnd: i32 = gen_range(1, 101) as i32;
    GameRound { greeting, number, generated: rnd, verdict: judge(number, rnd) }
}

/// A round of the guessing game for the player `"Arjun"`, who guessed
/// `number`.
pub fn random_number_game(number: i32) -> (round: GameRound)
    ensures
        round.greeting@ == "Hey "@ + "Arjun"@ + "!"@,
        round.number == number,
        1 <= round.generated <= 100,
        round.verdict == spec_judge(number as int, round.generated as int),
{
    random_number(String::from_str("Arjun"), number)
}

/// A value that is either a number or a text.
#[derive(Debug, PartialEq, Eq)]
pub enum Container {
    IntValue(i32),
    StringValue(String),
}

/// What the stop on collections found.
#[derive(Debug, PartialEq, Eq)]
pub struct CollectionsReport {
    /// The length of a vector after one push.
    pub length: usize,
    /// The third and the first element of `[1, 2, 3, 4]`.
    pub third: i32,
    pub first: i32,
    /// The elements met while walking the vector.
    pub visited: Vec<i32>,
    /// The vector after fifty was added to every element.
    pub raised: Vec<i32>,
    /// A vector that holds values of two kinds.
    pub containers: Vec<Container>,
}

/// Pushing, indexing, walking and changing a vector.
pub fn vector_basics() -> (r: (usize, i32, i32, Vec<i32>, Vec<i32>))
    ensures
        r.0 == 1,
        r.1 == 3,
        r.2 == 1,
        r.3@ == seq![1i32, 2i32, 3i32, 4i32],
        r.4@ == seq![51i32, 52i32, 53i32, 54i32],
{
    let mut col: Vec<u32> = Vec::new();
    col.push(32);
    let length: usize = col.len();

    let mut c: Vec<i32> = Vec::new();
    c.push(1);
    c.push(2);
    c.push(3);
    c.push(4);
    let third: i32 = c[2];
    let value: i32 = c[0];

    // Iterating through a vector.
    let mut visited: Vec<i32> = Vec::new();
    let mut i: usize = 0;
    while i < c.len()
        invariant
            i <= c@.len(),
            c@ == seq![1i32, 2i32, 3i32, 4i32],
            visited@ == c@.subrange(0, i as int),
        decreases c@.len() - i,
    {
        visited.push(c[i]);
        i = i + 1;
        assert(visited@ =~= c@.subrange(0, i as int));
    }
    assert(visited@ =~= seq![1i32, 2i32, 3i32, 4i32]);

    // Changes go through mutable access to each element.
    let mut j: usize = 0;
    while j < c.len()
        invariant
            j <= 4,
            c@.len() == 4,
            forall|k: int| 0 <= k < j ==> c@[k] == 51 + k,
            forall|k: int| j <= k < 4 ==> c@[k] == 1 + k,
        decreases 4 - j,
    {
        let raised: i32 = c[j] + 50;
        c.set(j, raised);
        j = j + 1;
    }
    assert(c@ =~= seq![51i32, 52i32, 53i32, 54i32]);
    (length, third, value, visited, c)
}

/// A vector whose elements are of two kinds.
pub fn enum_vectors() -> (v: Vec<Container>)
    ensures
        v@.len() == 2,
        v@[0] == Container::IntValue(5),
        v@[1] matches Container::StringValue(text) && text@ == "arjun"@,
{
    let mut v: Vec<Container> = Vec::new();
    v.push(Container::IntValue(5));
    v.push(Container::StringValue(String::from_str("arjun")));
    v
}

/// Vectors of numbers and vectors of enum values.
pub fn collections() -> (report: CollectionsReport)
    ensures
        report.length == 1,
        report.third == 3,
        report.first == 1,
        report.visited@ == seq![1i32, 2i32, 3i32, 4i32],
        report.raised@ == seq![51i32, 52i32, 53i32, 54i32],
        report.containers@.len() == 2,
        report.containers@[0] == Container::IntValue(5),
        report.containers@[1] matches Container::StringValue(text) && text@ == "arjun"@,
{
    let (length, third, first, visited, raised) = vector_basics();
    let containers = enum_vectors();
    CollectionsReport { length, third, first, visited, raised, containers }
}

} // verus!

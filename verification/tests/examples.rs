use rusty_visuals::examples::{
    add_one, append_hello, collections, control_flow, cool_greeting, creation_and_mutation,
    enum_vectors, enums, extrovert_text, introvert_text, judge, ownership, random_number,
    parsing, random_number_game, slices, strings, structs, tuples_and_blocks, types,
    update_hello,
    vector_basics, Container, Gender, Learner, Person, PersonalityType, Subject, Type,
    TypesReport, Verdict,
};

#[test]
fn types_reports_tuple_block_and_slices() {
    assert_eq!(
        types(),
        TypesReport { parsed: 43, first: 50, incremented: 6, len: 11, head_len: 3, tail_len: 9 }
    );
}

#[test]
fn add_one_adds_one() {
    assert_eq!(add_one(5), 6);
    assert_eq!(add_one(-1), 0);
    assert_eq!(add_one(i32::MAX - 1), i32::MAX);
}

#[test]
fn strings_joins_two_names() {
    assert_eq!(strings(), "arjunpuri");
}

#[test]
fn control_flow_reports_every_construct() {
    let report = control_flow();
    assert!(report.lower);
    assert!(report.first_branch);
    assert_eq!(report.result, 20);
    assert_eq!(report.drained, 0);
    assert_eq!(report.accumulated, 25);
    assert_eq!(report.countdown, vec![3, 2, 1, 0]);
}

#[test]
fn ownership_reports_copies_moves_and_borrows() {
    let report = ownership();
    assert_eq!(report.copied, (5, 5));
    assert_eq!(report.moved, "Hello World");
    assert_eq!(report.cloned, ("Hello World".to_string(), "Hello World".to_string()));
    assert_eq!(report.greetings, ("Hello Arjun".to_string(), "Hello Arjun".to_string()));
    assert_eq!(report.updated, "Hello world");
}

#[test]
fn append_hello_leaves_its_argument_alone() {
    let name = String::from("Arjun");
    assert_eq!(append_hello(&name), "Hello Arjun");
    assert_eq!(name, "Arjun");
    assert_eq!(append_hello(&String::new()), "Hello ");
}

#[test]
fn update_hello_appends_in_place() {
    let mut text = String::from("Hello");
    update_hello(&mut text);
    assert_eq!(text, "Hello world");
    update_hello(&mut text);
    assert_eq!(text, "Hello world world");
}

#[test]
fn learner_changes_what_but_not_who() {
    let mut learner = Learner::new(String::from("arjun"), String::from("rust"));
    assert_eq!(learner.who, "arjun");
    assert_eq!(learner.what, "rust");
    learner.change_what(String::from("Ownership"));
    assert_eq!(learner.who, "arjun");
    assert_eq!(learner.what, "Ownership");
}

#[test]
fn people_say_hi() {
    let extrovert = PersonalityType::Extrovert(String::from("low"));
    let person = Person::Cool(String::from("aditi"), extrovert, Gender::Female);
    assert_eq!(person.say_hi(), "hi my name is aditi and I'm an Extrovert(\"low\")");

    let introvert = PersonalityType::Introvert(0, 10);
    let person = Person::Cool(String::from("arjun"), introvert, Gender::Male);
    assert_eq!(person.say_hi(), "hi my name is arjun and I'm an Introvert(0, 10)");

    let person = Person::NotCool(PersonalityType::Introvert(-3, 4), Gender::Male);
    assert_eq!(person.say_hi(), "I'm not cool");
}

#[test]
fn personalities_read_like_their_debug_form() {
    let quoted = PersonalityType::Extrovert(String::from("very \"loud\"\n"));
    assert_eq!(quoted.describe(), format!("{:?}", quoted));
    let introvert = PersonalityType::Introvert(i64::MIN, i64::MAX);
    assert_eq!(introvert.describe(), format!("{:?}", introvert));
    assert_eq!(introvert.describe(), "Introvert(-9223372036854775808, 9223372036854775807)");
}

#[test]
fn structs_reports_learner_and_greetings() {
    let report = structs();
    assert_eq!(
        report.learner,
        Learner { who: String::from("aditi"), what: String::from("Ownership") }
    );
    assert_eq!(report.subject, Subject(String::from("rust")));
    assert_eq!(report.subject_type, Type(String::from("language")));
    assert_eq!(report.greetings.0, "hi my name is aditi and I'm an Extrovert(\"low\")");
    assert_eq!(report.greetings.1, "I'm not cool");
    assert_eq!(report.found, (true, false));
}

#[test]
fn judge_compares_guess_and_number() {
    assert_eq!(judge(60, 50), Verdict::Higher);
    assert_eq!(judge(40, 50), Verdict::Lower);
    assert_eq!(judge(50, 50), Verdict::Equal);
    assert_eq!(judge(i32::MIN, i32::MAX), Verdict::Lower);
    assert_eq!(Verdict::Higher.message(), "Higher!");
    assert_eq!(Verdict::Lower.message(), "Lower!");
    assert_eq!(Verdict::Equal.message(), "Equal!");
}

#[test]
fn the_game_draws_between_one_and_a_hundred() {
    let mut seen_different = false;
    let first = random_number_game(50).generated;
    for _ in 0..200 {
        let round = random_number_game(50);
        assert_eq!(round.greeting, "Hey Arjun!");
        assert_eq!(round.number, 50);
        assert!(1 <= round.generated && round.generated <= 100);
        assert_eq!(round.verdict, judge(50, round.generated));
        if round.generated != first {
            seen_different = true;
        }
    }
    assert!(seen_different);
}

#[test]
fn the_game_greets_any_player() {
    let round = random_number(String::from("Aditi"), 0);
    assert_eq!(round.greeting, "Hey Aditi!");
    assert_eq!(round.number, 0);
    assert_eq!(round.verdict, Verdict::Lower);
    let round = random_number(String::new(), 101);
    assert_eq!(round.greeting, "Hey !");
    assert_eq!(round.verdict, Verdict::Higher);
}

#[test]
fn collections_reports_vectors() {
    let report = collections();
    assert_eq!(report.length, 1);
    assert_eq!(report.third, 3);
    assert_eq!(report.first, 1);
    assert_eq!(report.visited, vec![1, 2, 3, 4]);
    assert_eq!(report.raised, vec![51, 52, 53, 54]);
    assert_eq!(
        report.containers,
        vec![Container::IntValue(5), Container::StringValue(String::from("arjun"))]
    );
}

#[test]
fn texts_are_put_together_from_their_parts() {
    assert_eq!(introvert_text("0", "10"), "Introvert(0, 10)");
    assert_eq!(introvert_text("", ""), "Introvert(, )");
    assert_eq!(extrovert_text("\"low\""), "Extrovert(\"low\")");
    assert_eq!(extrovert_text("high"), "Extrovert(high)");
    assert_eq!(
        cool_greeting("aditi", "Introvert(1, 2)"),
        "hi my name is aditi and I'm an Introvert(1, 2)"
    );
    assert_eq!(cool_greeting("", ""), "hi my name is  and I'm an ");
}

#[test]
fn the_stops_of_the_tour_report_their_parts() {
    assert_eq!(parsing(), 43);
    assert_eq!(tuples_and_blocks(), (50, 6));
    assert_eq!(slices(), (11, 3, 9));
    let (learner, subject, subject_type) = creation_and_mutation();
    assert_eq!(learner.who, "aditi");
    assert_eq!(learner.what, "Ownership");
    assert_eq!(subject.0, "rust");
    assert_eq!(subject_type.0, "language");
    let (greetings, found) = enums();
    assert_eq!(greetings.0, "hi my name is aditi and I'm an Extrovert(\"low\")");
    assert_eq!(greetings.1, "I'm not cool");
    assert_eq!(found, (true, false));
    let (length, third, first, visited, raised) = vector_basics();
    assert_eq!((length, third, first), (1, 3, 1));
    assert_eq!(visited, vec![1, 2, 3, 4]);
    assert_eq!(raised, vec![51, 52, 53, 54]);
    assert_eq!(enum_vectors().len(), 2);
}

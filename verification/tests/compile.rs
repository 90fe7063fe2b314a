use protobuf_bind::bind::{macro_protobuf_bind, Binding, Failure};
use protobuf_bind::emit::{emit_field, emit_message};
use protobuf_bind::names::NameSupply;
use protobuf_bind::message::{Field, Message, Value};
use protobuf_bind::tree::{Expr, Pattern};

fn single(key: &str, name: &str) -> Field {
    Field(key.to_string(), Value::SingleValue(name.to_string()))
}

fn nested(key: &str, fields: Vec<Field>) -> Field {
    Field(key.to_string(), Value::MessageValue(Message(fields)))
}

fn repeated(key: &str) -> Field {
    Field(key.to_string(), Value::RepeatedValue(vec![Message(vec![])]))
}

fn host(text: &str) -> Expr {
    Expr::Host(text.to_string())
}

fn bind(name: &str) -> Pattern {
    Pattern::Bind(name.to_string())
}

fn extract(from: Expr, key: &str) -> Expr {
    Expr::Extract(Box::new(from), key.to_string())
}

fn block(temp: u64, init: Expr, body: Expr) -> Expr {
    Expr::Block(temp, Box::new(init), Box::new(body))
}

#[test]
fn end_to_end_example() {
    let msg = Message(vec![single("a", "x"), nested("b", vec![single("c", "y")])]);
    let mut names = NameSupply::new();
    let (pat, value) = emit_message(&msg, &host("S"), &mut names);
    assert_eq!(pat, Pattern::Tuple(vec![bind("x"), Pattern::Tuple(vec![bind("y")])]));
    assert_eq!(
        value,
        Expr::Tuple(vec![
            extract(host("S"), "a"),
            block(
                0,
                extract(host("S"), "b"),
                Expr::Tuple(vec![extract(Expr::Temp(0), "c")])
            ),
        ])
    );
    assert_eq!(names.peek(), 1);
}

#[test]
fn leaf_binds_name_and_extracts_key() {
    let msg = Message(vec![single("k", "n")]);
    let mut names = NameSupply::new();
    let (pat, value) = emit_message(&msg, &host("S"), &mut names);
    assert_eq!(pat, Pattern::Tuple(vec![bind("n")]));
    assert_eq!(value, Expr::Tuple(vec![extract(host("S"), "k")]));
    assert_eq!(names.peek(), 0);
}

#[test]
fn single_field_is_not_wrapped() {
    let mut names = NameSupply::starting_at(7);
    let (pat, value) = emit_field(&single("k", "n"), &host("S"), &mut names);
    assert_eq!(pat, bind("n"));
    assert_eq!(value, extract(host("S"), "k"));
    assert_eq!(names.peek(), 7);
}

#[test]
fn nested_field_gives_tuple_and_one_binding() {
    let field = nested("m", vec![single("a", "x"), single("b", "y"), single("c", "z")]);
    let mut names = NameSupply::starting_at(4);
    let (pat, value) = emit_field(&field, &host("S"), &mut names);
    assert_eq!(pat, Pattern::Tuple(vec![bind("x"), bind("y"), bind("z")]));
    assert_eq!(
        value,
        block(
            4,
            extract(host("S"), "m"),
            Expr::Tuple(vec![
                extract(Expr::Temp(4), "a"),
                extract(Expr::Temp(4), "b"),
                extract(Expr::Temp(4), "c"),
            ])
        )
    );
    assert_eq!(names.peek(), 5);
}

#[test]
fn nested_empty_message_is_an_empty_tuple_slot() {
    let field = nested("m", vec![]);
    let mut names = NameSupply::new();
    let (pat, value) = emit_field(&field, &host("S"), &mut names);
    assert_eq!(pat, Pattern::Tuple(vec![]));
    assert_eq!(value, block(0, extract(host("S"), "m"), Expr::Tuple(vec![])));
}

#[test]
fn sibling_nested_messages_get_distinct_names() {
    let msg = Message(vec![
        nested("p", vec![single("a", "x")]),
        nested("q", vec![single("b", "y")]),
    ]);
    let mut names = NameSupply::new();
    let (_, value) = emit_message(&msg, &host("S"), &mut names);
    let temps: Vec<u64> = match value {
        Expr::Tuple(slots) => slots
            .iter()
            .map(|slot| match slot {
                Expr::Block(temp, _, _) => *temp,
                other => panic!("no scoped sequence: {:?}", other),
            })
            .collect(),
        other => panic!("no tuple: {:?}", other),
    };
    assert_eq!(temps, vec![0, 1]);
    assert_eq!(names.peek(), 2);
}

#[test]
fn deeper_names_follow_the_enclosing_one() {
    let msg = Message(vec![
        nested("p", vec![nested("q", vec![single("a", "x")]), single("b", "y")]),
        nested("r", vec![single("c", "z")]),
    ]);
    let mut names = NameSupply::starting_at(10);
    let (pat, value) = emit_message(&msg, &host("S"), &mut names);
    assert_eq!(
        pat,
        Pattern::Tuple(vec![
            Pattern::Tuple(vec![Pattern::Tuple(vec![bind("x")]), bind("y")]),
            Pattern::Tuple(vec![bind("z")]),
        ])
    );
    assert_eq!(
        value,
        Expr::Tuple(vec![
            block(
                10,
                extract(host("S"), "p"),
                Expr::Tuple(vec![
                    block(
                        11,
                        extract(Expr::Temp(10), "q"),
                        Expr::Tuple(vec![extract(Expr::Temp(11), "a")])
                    ),
                    extract(Expr::Temp(10), "b"),
                ])
            ),
            block(
                12,
                extract(host("S"), "r"),
                Expr::Tuple(vec![extract(Expr::Temp(12), "c")])
            ),
        ])
    );
    assert_eq!(names.peek(), 13);
}

#[test]
fn empty_message_gives_empty_tuples() {
    let mut names = NameSupply::new();
    let (pat, value) = emit_message(&Message(vec![]), &host("S"), &mut names);
    assert_eq!(pat, Pattern::Tuple(vec![]));
    assert_eq!(value, Expr::Tuple(vec![]));
    assert_eq!(names.peek(), 0);
}

#[test]
fn reordered_fields_give_reordered_slots() {
    let forward = Message(vec![single("a", "x"), single("b", "y"), single("c", "z")]);
    let backward = Message(vec![single("c", "z"), single("b", "y"), single("a", "x")]);
    let mut names = NameSupply::new();
    let (pat_f, value_f) = emit_message(&forward, &host("S"), &mut names);
    let (pat_b, value_b) = emit_message(&backward, &host("S"), &mut names);
    assert_eq!(pat_f, Pattern::Tuple(vec![bind("x"), bind("y"), bind("z")]));
    assert_eq!(pat_b, Pattern::Tuple(vec![bind("z"), bind("y"), bind("x")]));
    assert_eq!(
        value_f,
        Expr::Tuple(vec![
            extract(host("S"), "a"),
            extract(host("S"), "b"),
            extract(host("S"), "c"),
        ])
    );
    assert_eq!(
        value_b,
        Expr::Tuple(vec![
            extract(host("S"), "c"),
            extract(host("S"), "b"),
            extract(host("S"), "a"),
        ])
    );
}

#[test]
fn same_input_and_same_start_give_the_same_trees() {
    let msg = Message(vec![nested("p", vec![single("a", "x")]), single("b", "y")]);
    let mut first = NameSupply::starting_at(3);
    let mut second = NameSupply::starting_at(3);
    assert_eq!(
        emit_message(&msg, &host("S"), &mut first),
        emit_message(&msg, &host("S"), &mut second)
    );
}

#[test]
fn one_supply_never_repeats_a_name() {
    let msg = Message(vec![nested("p", vec![single("a", "x")])]);
    let mut names = NameSupply::new();
    let (_, first) = emit_message(&msg, &host("S"), &mut names);
    let (_, second) = emit_message(&msg, &host("S"), &mut names);
    assert_eq!(
        first,
        Expr::Tuple(vec![block(
            0,
            extract(host("S"), "p"),
            Expr::Tuple(vec![extract(Expr::Temp(0), "a")])
        )])
    );
    assert_eq!(
        second,
        Expr::Tuple(vec![block(
            1,
            extract(host("S"), "p"),
            Expr::Tuple(vec![extract(Expr::Temp(1), "a")])
        )])
    );
}

#[test]
fn source_expression_is_copied_whole() {
    let source = extract(block(9, host("f()"), Expr::Tuple(vec![Expr::Temp(9)])), "inner");
    let msg = Message(vec![single("a", "x"), single("b", "y")]);
    let mut names = NameSupply::new();
    let (_, value) = emit_message(&msg, &source, &mut names);
    assert_eq!(
        value,
        Expr::Tuple(vec![
            extract(
                extract(block(9, host("f()"), Expr::Tuple(vec![Expr::Temp(9)])), "inner"),
                "a"
            ),
            extract(
                extract(block(9, host("f()"), Expr::Tuple(vec![Expr::Temp(9)])), "inner"),
                "b"
            ),
        ])
    );
}

#[test]
fn driver_wraps_the_pair_in_a_binding() {
    let msg = Message(vec![single("a", "x"), nested("b", vec![single("c", "y")])]);
    let mut names = NameSupply::new();
    let got = macro_protobuf_bind(Some((host("S"), msg)), &mut names);
    assert_eq!(
        got,
        Ok(Binding {
            pattern: Pattern::Tuple(vec![bind("x"), Pattern::Tuple(vec![bind("y")])]),
            value: Expr::Tuple(vec![
                extract(host("S"), "a"),
                block(
                    0,
                    extract(host("S"), "b"),
                    Expr::Tuple(vec![extract(Expr::Temp(0), "c")])
                ),
            ]),
        })
    );
    assert_eq!(names.peek(), 1);
}

#[test]
fn driver_accepts_the_empty_message() {
    let mut names = NameSupply::new();
    let got = macro_protobuf_bind(Some((host("S"), Message(vec![]))), &mut names);
    assert_eq!(
        got,
        Ok(Binding { pattern: Pattern::Tuple(vec![]), value: Expr::Tuple(vec![]) })
    );
}

#[test]
fn driver_reports_a_parse_failure() {
    let mut names = NameSupply::starting_at(5);
    assert_eq!(macro_protobuf_bind(None, &mut names), Err(Failure::Parse));
    assert_eq!(names.peek(), 5);
}

#[test]
fn driver_refuses_a_repeated_field() {
    let mut names = NameSupply::starting_at(5);
    let msg = Message(vec![single("a", "x"), repeated("r")]);
    assert_eq!(macro_protobuf_bind(Some((host("S"), msg)), &mut names), Err(Failure::RepeatedField));
    assert_eq!(names.peek(), 5);
}

#[test]
fn driver_refuses_a_repeated_field_deep_in_the_tree() {
    let mut names = NameSupply::new();
    let msg = Message(vec![
        nested("p", vec![single("a", "x"), nested("q", vec![repeated("r")])]),
        single("b", "y"),
    ]);
    assert_eq!(macro_protobuf_bind(Some((host("S"), msg)), &mut names), Err(Failure::RepeatedField));
    assert_eq!(names.peek(), 0);
}

#[test]
fn driver_reports_an_exhausted_supply() {
    let mut names = NameSupply::starting_at(u64::MAX);
    let msg = Message(vec![nested("p", vec![])]);
    assert_eq!(
        macro_protobuf_bind(Some((host("S"), msg)), &mut names),
        Err(Failure::NamesExhausted)
    );
    assert_eq!(names.peek(), u64::MAX);
}

#[test]
fn driver_uses_the_last_name_of_the_supply() {
    let mut names = NameSupply::starting_at(u64::MAX - 1);
    let msg = Message(vec![nested("p", vec![])]);
    let got = macro_protobuf_bind(Some((host("S"), msg)), &mut names);
    assert_eq!(
        got,
        Ok(Binding {
            pattern: Pattern::Tuple(vec![Pattern::Tuple(vec![])]),
            value: Expr::Tuple(vec![block(
                u64::MAX - 1,
                extract(host("S"), "p"),
                Expr::Tuple(vec![])
            )]),
        })
    );
    assert_eq!(names.peek(), u64::MAX);
}

#[test]
fn repeated_field_is_reported_before_a_short_supply() {
    let mut names = NameSupply::starting_at(u64::MAX);
    let msg = Message(vec![nested("p", vec![]), repeated("r")]);
    assert_eq!(macro_protobuf_bind(Some((host("S"), msg)), &mut names), Err(Failure::RepeatedField));
}

#[test]
fn support_is_decided_over_the_whole_tree() {
    assert!(Message(vec![]).is_supported());
    assert!(Message(vec![single("a", "x"), nested("b", vec![single("c", "y")])]).is_supported());
    assert!(!Message(vec![repeated("r")]).is_supported());
    assert!(!Message(vec![nested("b", vec![nested("c", vec![repeated("r")])])]).is_supported());
    assert!(single("a", "x").is_supported());
    assert!(!repeated("r").is_supported());
}

#[test]
fn intermediates_count_nested_messages_at_any_depth() {
    assert_eq!(Message(vec![]).intermediates(), Some(0));
    assert_eq!(Message(vec![single("a", "x"), single("b", "y")]).intermediates(), Some(0));
    let msg = Message(vec![
        nested("p", vec![nested("q", vec![single("a", "x")]), single("b", "y")]),
        single("c", "z"),
        nested("r", vec![]),
    ]);
    assert_eq!(msg.intermediates(), Some(3));
    assert_eq!(nested("p", vec![nested("q", vec![])]).intermediates(), Some(2));
    assert_eq!(single("a", "x").intermediates(), Some(0));
    assert_eq!(repeated("r").intermediates(), Some(0));
}

#[test]
fn supply_hands_out_rising_numbers() {
    let mut names = NameSupply::new();
    assert_eq!(names.peek(), 0);
    assert_eq!(names.fresh(), 0);
    assert_eq!(names.fresh(), 1);
    assert_eq!(names.peek(), 2);
    let mut later = NameSupply::starting_at(40);
    assert_eq!(later.fresh(), 40);
    assert_eq!(later.peek(), 41);
}

#[test]
fn supply_knows_what_it_can_still_hand_out() {
    let names = NameSupply::starting_at(u64::MAX - 2);
    assert!(names.can_supply(0));
    assert!(names.can_supply(2));
    assert!(!names.can_supply(3));
    assert!(NameSupply::new().can_supply(u64::MAX));
    assert!(!NameSupply::starting_at(1).can_supply(u64::MAX));
}

#[test]
fn duplicate_copies_every_node() {
    let tree = Expr::Tuple(vec![
        host("S"),
        Expr::Temp(3),
        extract(Expr::Temp(3), "k"),
        block(4, extract(host("S"), "m"), Expr::Tuple(vec![extract(Expr::Temp(4), "a")])),
        Expr::Tuple(vec![]),
    ]);
    assert_eq!(tree.duplicate(), tree);
}

#[test]
fn tuple_constructors_keep_the_order() {
    assert_eq!(
        Pattern::tuple(vec![bind("x"), bind("y")]),
        Pattern::Tuple(vec![bind("x"), bind("y")])
    );
    assert_eq!(
        Expr::tuple(vec![Expr::Temp(1), Expr::Temp(0)]),
        Expr::Tuple(vec![Expr::Temp(1), Expr::Temp(0)])
    );
}

#[test]
fn later_start_only_renumbers_the_intermediates() {
    let msg = Message(vec![nested("p", vec![nested("q", vec![single("a", "x")])])]);
    let mut early = NameSupply::new();
    let mut late = NameSupply::starting_at(5);
    let (pat_early, value_early) = emit_message(&msg, &host("S"), &mut early);
    let (pat_late, value_late) = emit_message(&msg, &host("S"), &mut late);
    assert_eq!(pat_early, pat_late);
    assert_eq!(
        value_early,
        Expr::Tuple(vec![block(
            0,
            extract(host("S"), "p"),
            Expr::Tuple(vec![block(
                1,
                extract(Expr::Temp(0), "q"),
                Expr::Tuple(vec![extract(Expr::Temp(1), "a")])
            )])
        )])
    );
    assert_eq!(
        value_late,
        Expr::Tuple(vec![block(
            5,
            extract(host("S"), "p"),
            Expr::Tuple(vec![block(
                6,
                extract(Expr::Temp(5), "q"),
                Expr::Tuple(vec![extract(Expr::Temp(6), "a")])
            )])
        )])
    );
}

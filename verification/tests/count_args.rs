use zloader::symbols::{count_args, ArgCounter};

#[test]
fn mangled_name_with_three_parameters() {
    assert_eq!(ArgCounter::count("_ZN1C1fEiiP3Bar"), 3);
}

#[test]
fn mangled_name_without_parameters() {
    assert_eq!(ArgCounter::count("_ZN1C1fEv"), 0);
}

#[test]
fn text_that_is_no_mangled_name_is_read_as_it_stands() {
    assert_eq!(ArgCounter::count("foo(a, b, c)"), 3);
}

#[test]
fn specialization_function_has_twenty_parameters() {
    let symbol = "_ZN12_GLOBAL__N_116SpecializeCommonEP7_JNIEnvjjP10_jintArrayiP13_jobjectArraylliP8_jstringS7_bbS7_S7_bS5_S5_bb";
    assert_eq!(ArgCounter::count(symbol), 20);
}

#[test]
fn parenthesis_in_front_of_the_list_is_not_the_list() {
    assert_eq!(count_args("(anonymous namespace)::f(int)"), 1);
    assert_eq!(count_args("(anonymous namespace)::f()"), 0);
}

#[test]
fn separators_of_inner_lists_do_not_count() {
    assert_eq!(count_args("f(void (*)(int, int), char)"), 2);
}

#[test]
fn empty_and_missing_lists_have_no_parameters() {
    assert_eq!(count_args("f()"), 0);
    assert_eq!(count_args("f( )"), 0);
    assert_eq!(count_args("main"), 0);
    assert_eq!(count_args(""), 0);
}

#[test]
fn single_parameter() {
    assert_eq!(count_args("f(int)"), 1);
}

#[test]
fn list_that_is_not_closed_counts_to_the_end() {
    assert_eq!(count_args("f(a, b"), 2);
}

#[test]
fn stray_closing_parenthesis_is_passed_over() {
    assert_eq!(count_args(") f(a, b)"), 2);
    assert_eq!(count_args("f(a, b) , c)"), 2);
}

#[test]
fn name_written_in_pieces_counts_like_the_whole() {
    let mut counter = ArgCounter::new();
    for piece in ["C::f", "(", "int", ", ", "int", ", ", "Bar*", ")"] {
        counter.write_string(piece);
    }
    assert_eq!(counter.args(), 3);
}

#[test]
fn counter_without_text_has_no_parameters() {
    assert_eq!(ArgCounter::new().args(), 0);
}

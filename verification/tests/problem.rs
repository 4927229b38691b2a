use judge_dispatch::errors::ServiceError;
use judge_dispatch::models::submissions::TestCase;
use judge_dispatch::services::problem::get_stripped_md5_output;
use judge_dispatch::services::problem::input_name;
use judge_dispatch::services::problem::output_name;
use judge_dispatch::services::problem::prepare_test_cases;
use judge_dispatch::services::problem::TestCaseTable;

fn case(input: &str, output: &str) -> TestCase {
    TestCase { input: input.to_owned(), output: output.to_owned() }
}

#[test]
fn md5_of_known_texts() {
    assert_eq!(get_stripped_md5_output(""), "d41d8cd98f00b204e9800998ecf8427e");
    assert_eq!(get_stripped_md5_output("hello world"), "5eb63bbbe01eeed093cb22bb8f5acdc3");
    assert_eq!(get_stripped_md5_output("abc"), "900150983cd24fb0d6963f7d28e17f72");
}

#[test]
fn md5_ignores_white_space_at_the_end_only() {
    assert_eq!(get_stripped_md5_output("hello world \n\t\r\n"), "5eb63bbbe01eeed093cb22bb8f5acdc3");
    assert_eq!(get_stripped_md5_output(" \n"), "d41d8cd98f00b204e9800998ecf8427e");
    assert_ne!(get_stripped_md5_output(" hello world"), "5eb63bbbe01eeed093cb22bb8f5acdc3");
    assert_ne!(get_stripped_md5_output("hello  world"), "5eb63bbbe01eeed093cb22bb8f5acdc3");
}

#[test]
fn md5_is_written_in_lower_case_with_two_digits_for_each_byte() {
    let text = get_stripped_md5_output("The quick brown fox jumps over the lazy dog");
    assert_eq!(text, "9e107d9d372bb6826bd81d3542a419d6");
    assert_eq!(text.len(), 32);
}

#[test]
fn file_names_of_test_cases() {
    assert_eq!(input_name(1), "1.in");
    assert_eq!(output_name(1), "1.out");
    assert_eq!(input_name(12), "12.in");
    assert_eq!(output_name(120), "120.out");
}

#[test]
fn problem_needs_a_test_case() {
    match prepare_test_cases(&vec![], false) {
        Err(ServiceError::BadRequest(hint)) => assert_eq!(hint, "Need at least one test case."),
        _ => panic!("a bad request was expected"),
    }
    match prepare_test_cases(&vec![], true) {
        Err(ServiceError::BadRequest(hint)) => assert_eq!(hint, "Need at least one test case."),
        _ => panic!("a bad request was expected"),
    }
}

#[test]
fn test_cases_judged_by_output() {
    let cases = vec![case("1 2\n", "3\n"), case("", "hello world  \n"), case("äö", "x")];
    let info = prepare_test_cases(&cases, false).unwrap();
    assert_eq!(info.test_case_number, 3);
    assert!(!info.spj);
    match info.test_cases {
        TestCaseTable::Normal(table) => {
            assert_eq!(table.len(), 3);
            assert_eq!(table[0].0, "1");
            assert_eq!(table[0].1.input_name, "1.in");
            assert_eq!(table[0].1.input_size, 4);
            assert_eq!(table[0].1.output_name, "1.out");
            assert_eq!(table[0].1.output_size, 2);
            assert_eq!(table[0].1.stripped_output_md5, "eccbc87e4b5ce2fe28308fd9f2a7baf3");
            assert_eq!(table[1].0, "2");
            assert_eq!(table[1].1.input_name, "2.in");
            assert_eq!(table[1].1.input_size, 0);
            assert_eq!(table[1].1.output_name, "2.out");
            assert_eq!(table[1].1.output_size, 14);
            assert_eq!(table[1].1.stripped_output_md5, "5eb63bbbe01eeed093cb22bb8f5acdc3");
            assert_eq!(table[2].0, "3");
            assert_eq!(table[2].1.input_size, 4);
            assert_eq!(table[2].1.output_size, 1);
        },
        TestCaseTable::Spj(_) => panic!("a table of normal test cases was expected"),
    }
}

#[test]
fn test_cases_judged_by_special_judge() {
    let cases = vec![case("1 2\n", ""), case("12345", "")];
    let info = prepare_test_cases(&cases, true).unwrap();
    assert_eq!(info.test_case_number, 2);
    assert!(info.spj);
    match info.test_cases {
        TestCaseTable::Spj(table) => {
            assert_eq!(table.len(), 2);
            assert_eq!(table[0].0, "0");
            assert_eq!(table[0].1.input_name, "1.in");
            assert_eq!(table[0].1.input_size, 4);
            assert_eq!(table[1].0, "1");
            assert_eq!(table[1].1.input_name, "2.in");
            assert_eq!(table[1].1.input_size, 5);
        },
        TestCaseTable::Normal(_) => panic!("a table of special-judge test cases was expected"),
    }
}

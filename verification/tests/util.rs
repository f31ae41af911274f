use acadcheck::prechecker::{prechecker, split_lines, try_prechecker, OutOfRange};
use acadcheck::util::{comes_before, generate_tests, sort_files, sort_key};

fn paths(list: &[&str]) -> Vec<String> {
    list.iter().map(|p| p.to_string()).collect()
}

#[test]
fn test_gen() {
    let tests = generate_tests(
        &paths(&["./in/test1.in", "./in/test0.in"]),
        &paths(&["./ref/test0.ref", "./ref/test1.ref"]),
    );
    assert_eq!(tests.len(), 2);
    assert_eq!(
        tests.get(&0).unwrap(),
        &("./in/test0.in".to_string(), "./ref/test0.ref".to_string())
    );
    assert_eq!(
        tests.get(&1).unwrap(),
        &("./in/test1.in".to_string(), "./ref/test1.ref".to_string())
    );
}

#[test]
fn tests_reach_as_far_as_both_lists() {
    let tests = generate_tests(&paths(&["in/c", "in/a", "in/b"]), &paths(&["ref/z"]));
    assert_eq!(tests.len(), 1);
    assert_eq!(tests[&0], ("in/a".to_string(), "ref/z".to_string()));
    assert!(generate_tests(&paths(&[]), &paths(&["ref/z"])).is_empty());
}

#[test]
fn keys_are_names_in_lower_case() {
    assert_eq!(sort_key("/Dir/FiLe.TXT"), b"file.txt".to_vec());
    assert_eq!(sort_key("name"), b"name".to_vec());
    assert_eq!(sort_key("dir/"), Vec::<u8>::new());
    assert_eq!(sort_key(""), Vec::<u8>::new());
    assert_eq!(sort_key("a/@Z[`{"), b"@z[`{".to_vec());
    assert_eq!(sort_key("É"), "É".as_bytes().to_vec());
}

#[test]
fn order_of_keys() {
    let before = |a: &str, b: &str| comes_before(&a.as_bytes().to_vec(), &b.as_bytes().to_vec());
    assert!(before("", ""));
    assert!(before("", "a"));
    assert!(!before("a", ""));
    assert!(before("a", "a"));
    assert!(before("a", "ab"));
    assert!(!before("ab", "a"));
    assert!(before("ab", "b"));
    assert!(!before("b", "ab"));
    assert!(before("10", "9"));
}

#[test]
fn files_are_sorted_by_name_not_by_directory() {
    assert_eq!(
        sort_files(&paths(&["z/001.in", "a/010.in", "m/002.in"])),
        paths(&["z/001.in", "m/002.in", "a/010.in"])
    );
}

#[test]
fn files_of_the_same_name_keep_their_order() {
    assert_eq!(sort_files(&paths(&["b", "A", "a", "C", "x/a"])), paths(&["A", "a", "x/a", "b", "C"]));
    assert_eq!(sort_files(&paths(&[])), paths(&[]));
}

#[test]
fn lines() {
    let rows = |text: &str| {
        split_lines(text.as_bytes())
            .into_iter()
            .map(|row| String::from_utf8(row).unwrap())
            .collect::<Vec<_>>()
    };
    assert_eq!(rows(""), vec![""]);
    assert_eq!(rows("a"), vec!["a"]);
    assert_eq!(rows("a\n"), vec!["a", ""]);
    assert_eq!(rows("a\nb"), vec!["a", "b"]);
    assert_eq!(rows("\n\n"), vec!["", "", ""]);
    assert_eq!(rows("a\r\nb"), vec!["a\r", "b"]);
}

#[test]
fn test_prechecker() {
    let skeleton = b"int main() {\n// fill in\n}";
    let lines = vec![(13, 16), (1, 1)];
    assert_eq!(try_prechecker(skeleton, skeleton, &lines), Ok(None));
    assert_eq!(prechecker(skeleton, skeleton, &lines), None);
}

#[test]
fn precheck_finds_a_change_outside_the_range() {
    assert_eq!(try_prechecker(b"a\nz\nc", b"a\nb\nc", &vec![(3, 3)]), Ok(Some((1, 2))));
    assert_eq!(prechecker(b"a\nz\nc", b"a\nb\nc", &vec![(3, 3)]), Some((1, 2)));
}

#[test]
fn precheck_inside_the_range() {
    assert_eq!(try_prechecker(b"a\nfilled\nc", b"a\nX\nc", &vec![(2, 2)]), Ok(Some((2, 1))));
    assert_eq!(try_prechecker(b"a\nc", b"a\nFILL\nc", &vec![(2, 2)]), Ok(None));
}

#[test]
fn precheck_passes_over_empty_lines() {
    assert_eq!(try_prechecker(b"a\n\nb", b"a\nb", &vec![(1, 1)]), Ok(None));
}

#[test]
fn precheck_that_cannot_be_made() {
    assert_eq!(try_prechecker(b"a", b"a", &vec![]), Err(OutOfRange));
    assert_eq!(try_prechecker(b"a", b"a", &vec![(0, 1)]), Err(OutOfRange));
    assert_eq!(try_prechecker(b"a", b"a", &vec![(1, 0)]), Err(OutOfRange));
    assert_eq!(try_prechecker(b"\n", b"a\nb\nc", &vec![(1, 1)]), Err(OutOfRange));
    assert_eq!(try_prechecker(b"a\nq", b"a\nb", &vec![(2, 2)]), Err(OutOfRange));
}

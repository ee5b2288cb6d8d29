use server_list_ping::text::{
    chars_of, decimal, find_first, find_last, same_chars, signed_decimal, spaces,
};

#[test]
fn chars_are_characters_not_bytes() {
    assert_eq!(chars_of("a§b"), vec!['a', '§', 'b']);
    assert_eq!(chars_of(""), Vec::<char>::new());
}

#[test]
fn first_and_last_occurrence() {
    let text = chars_of("a,b,c");
    assert_eq!(find_first(&text, ','), Some(1));
    assert_eq!(find_last(&text, ','), Some(3));
    assert_eq!(find_first(&text, 'c'), Some(4));
    assert_eq!(find_last(&text, 'a'), Some(0));
    assert_eq!(find_first(&text, ';'), None);
    assert_eq!(find_last(&text, ';'), None);
    assert_eq!(find_first(&[], 'a'), None);
    assert_eq!(find_last(&[], 'a'), None);
}

#[test]
fn same_chars_compares_whole_texts() {
    assert!(same_chars(&chars_of("data"), &chars_of("data")));
    assert!(!same_chars(&chars_of("data"), &chars_of("date")));
    assert!(!same_chars(&chars_of("data"), &chars_of("dat")));
    assert!(same_chars(&[], &[]));
}

#[test]
fn spaces_of_a_width() {
    assert_eq!(spaces(0), "");
    assert_eq!(spaces(3), "   ");
}

#[test]
fn decimal_digits() {
    assert_eq!(decimal(0), "0");
    assert_eq!(decimal(7), "7");
    assert_eq!(decimal(10), "10");
    assert_eq!(decimal(25565), "25565");
    assert_eq!(decimal(u64::MAX), "18446744073709551615");
}

#[test]
fn signed_decimal_digits() {
    assert_eq!(signed_decimal(0), "0");
    assert_eq!(signed_decimal(763), "763");
    assert_eq!(signed_decimal(-1), "-1");
    assert_eq!(signed_decimal(i64::MIN), "-9223372036854775808");
    assert_eq!(signed_decimal(i64::MAX), "9223372036854775807");
}

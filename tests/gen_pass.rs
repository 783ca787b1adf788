use rcli::process_gen_pass;

#[test]
fn passwords_have_length_count_and_classes() {
    let passwords = process_gen_pass(16, 3, false, false, true, false).unwrap();
    assert_eq!(passwords.len(), 3);
    for p in &passwords {
        assert_eq!(p.len(), 16);
        assert!(p.chars().all(|c| c.is_ascii_digit()));
    }
    let symbols = process_gen_pass(40, 1, false, false, false, true).unwrap();
    assert!(symbols[0].chars().all(|c| "!@#$%^&*()-_=+".contains(c)));
}

#[test]
fn no_passwords_or_empty_passwords() {
    assert!(process_gen_pass(8, 0, true, true, true, true).unwrap().is_empty());
    let empty = process_gen_pass(0, 2, false, false, false, false).unwrap();
    assert_eq!(empty, vec![String::new(), String::new()]);
}

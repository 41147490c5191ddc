use drive_lib::validation::filename_valid;
use drive_lib::validation::password;
use drive_lib::validation::username;

#[test]
fn username_accepts_well_formed_names() {
    assert_eq!(username(&"alice".to_string()), (true, "".to_string()));
    assert_eq!(username(&"user.name-x_1".to_string()), (true, "".to_string()));
    assert_eq!(username(&"abcd".to_string()), (true, "".to_string()));
    assert_eq!(username(&"a234567890123456".to_string()), (true, "".to_string()));
}

#[test]
fn username_rejects_bad_lengths() {
    let msg = "Length of username not in bounds of 4-16".to_string();
    assert_eq!(username(&"abc".to_string()), (false, msg.clone()));
    assert_eq!(username(&"".to_string()), (false, msg.clone()));
    assert_eq!(username(&"a2345678901234567".to_string()), (false, msg));
}

#[test]
fn username_rejects_bad_characters() {
    let msg = "Contains non a-z, A-Z, ., _, - char".to_string();
    assert_eq!(username(&"ab cd".to_string()), (false, msg.clone()));
    assert_eq!(username(&"ab/cd".to_string()), (false, msg.clone()));
    assert_eq!(username(&"ab!cd".to_string()), (false, msg));
}

#[test]
fn password_accepts_well_formed_passwords() {
    assert_eq!(password(&"Sw0rd.fgh".to_string()), (true, "".to_string()));
    assert_eq!(password(&"Sw0rd!fgh".to_string()), (true, "".to_string()));
    assert_eq!(password(&"Abcdef1?".to_string()), (true, "".to_string()));
}

#[test]
fn password_rejects_bad_lengths() {
    let msg = "Length of password is not in bounds of 8-30".to_string();
    assert_eq!(password(&"Sh0rt.a".to_string()), (false, msg.clone()));
    assert_eq!(
        password(&"A1.bcdefghijklmnopqrstuvwxyzabc".to_string()),
        (false, msg)
    );
}

#[test]
fn password_rejects_disallowed_characters() {
    let msg = "Includes disallowed char(s)".to_string();
    assert_eq!(password(&"Sw0rd,fgh".to_string()), (false, msg.clone()));
    assert_eq!(password(&"Abcdef 1".to_string()), (false, msg));
}

#[test]
fn password_requires_each_character_class() {
    assert_eq!(
        password(&"ABCDEF.1".to_string()),
        (false, "Does not include lowercase char".to_string())
    );
    assert_eq!(
        password(&"abcdef.1".to_string()),
        (false, "Does not include uppercase char".to_string())
    );
    assert_eq!(
        password(&"abcdefg1".to_string()),
        (false, "Does not include uppercase char".to_string())
    );
    assert_eq!(
        password(&"Abcdef.g".to_string()),
        (false, "Does not include digit".to_string())
    );
    assert_eq!(
        password(&"Abcdefg1".to_string()),
        (false, "Does not include special char".to_string())
    );
}

#[test]
fn filenames_reject_path_separators() {
    assert!(filename_valid(&"note.txt".to_string()));
    assert!(filename_valid(&"a picture (1).png".to_string()));
    assert!(!filename_valid(&"".to_string()));
    assert!(!filename_valid(&"a/b.txt".to_string()));
    assert!(!filename_valid(&"a\\b.txt".to_string()));
    assert!(!filename_valid(&"../etc/passwd".to_string()));
}

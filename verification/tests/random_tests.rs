use media_downloader::random::{digits_string, rand_num_str, test_file_name, DIGIT_COUNT};

#[test]
fn random_names_have_ten_nonzero_digits() {
    for _ in 0..50 {
        let s = rand_num_str();
        assert_eq!(s.chars().count(), DIGIT_COUNT);
        assert!(s.chars().all(|c| ('1'..='9').contains(&c)));
    }
}

#[test]
fn digits_are_written_in_order() {
    assert_eq!(digits_string(&vec![1, 9, 0, 5]), "1905");
    assert_eq!(digits_string(&vec![]), "");
}

#[test]
fn test_file_names() {
    assert_eq!(test_file_name("1234567891"), "test_1234567891");
}

use tx_assembly::utils::format_pubkey;

#[test]
fn long_addresses_are_shortened_around_an_ellipsis() {
    let text = "TokenkegQfeZyiNwAJbNbGKPFXCWuBvf9Ss623VQ5DA".to_string();
    assert_eq!(format_pubkey(&text, 10), "Token...VQ5DA");
}

#[test]
fn short_strings_are_returned_unchanged() {
    let text = "abcdef".to_string();
    assert_eq!(format_pubkey(&text, 10), "abcdef");
    let exact = "abcdefghij".to_string();
    assert_eq!(format_pubkey(&exact, 10), "abcdefghij");
}

#[test]
fn odd_lengths_use_half_rounded_down() {
    let text = "abcdefghijkl".to_string();
    assert_eq!(format_pubkey(&text, 7), "abc...jkl");
}

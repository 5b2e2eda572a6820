use rs115::checkers::{is_valid_hash, is_valid_hex, is_valid_sha1_hex, is_valid_sha1_line};

#[test]
fn valid_hash_test() {
    //all lower cap
    assert_eq!(
        is_valid_hash("3e63c6d6e7a1015bfddd23768e1af38fae3bc203"),
        true
    );
    //all upper cap
    assert_eq!(
        is_valid_hash("3E63C6D6E7A1015BFDDD23768E1AF38FAE3BC203"),
        true
    );
    //mix cap
    assert_eq!(
        is_valid_hash("3e63C6d6e7a1015bfdDd23768e1af38fae3bC203"),
        true
    );

    // 32 len
    assert_eq!(is_valid_hash("3e63C6d6e7a1015bfdDd23768e1af312"), true);
}

#[test]
fn invalid_hash_test() {
    assert_eq!(is_valid_hash(""), false);
    assert_eq!(is_valid_hash("chan"), false);
    assert_eq!(is_valid_hash("123456"), false);

    // include g
    assert_eq!(
        is_valid_hash("3g63C6d6e7a1015bfdDd23768e1af38fae3bC203"),
        false
    );
    //31
    assert_eq!(is_valid_hash("1234567890123456789012345678901"), false);
    //33
    assert_eq!(is_valid_hash("123456789012345678901234567890123"), false);

    //39
    assert_eq!(
        is_valid_hash("123456789012345678901234567890123456789"),
        false
    );
    //41
    assert_eq!(
        is_valid_hash("12345678901234567890123456789012345678901"),
        false
    );

    assert_eq!(
        is_valid_hash("this is more than 40fjjjjjjjjjjjjjjjjjjjjjjjjjjjjjjjjjjjjjjjjjjj"),
        false
    );
}

#[test]
fn sha1_link_without_protocol_test() {
    let line_without_protocol = "[座头鲸 Humpback Whales 2015][3D+2D][无中字][18.52GB].iso|19880869888|702C4E22BE8F3D856C496178C488E86B606D9912|13F48115A678499823003C8331E9C0AD0243F089";
    assert_eq!(is_valid_sha1_line(line_without_protocol), false)
}

#[test]
fn sha1_link_with_protocol_is_valid() {
    let line = "115://[座头鲸 Humpback Whales 2015].iso|19880869888|702C4E22BE8F3D856C496178C488E86B606D9912|13F48115A678499823003C8331E9C0AD0243F089|tail";
    assert_eq!(is_valid_sha1_line(line), true);
}

#[test]
fn sha1_link_needs_four_separators() {
    // three separators only: four fields
    let line = "115://a.iso|19880869888|702C4E22BE8F3D856C496178C488E86B606D9912|13F48115A678499823003C8331E9C0AD0243F089";
    assert_eq!(is_valid_sha1_line(line), false);
    // a fourth separator with an empty last field is enough
    let line = "115://a.iso|19880869888|702C4E22BE8F3D856C496178C488E86B606D9912|13F48115A678499823003C8331E9C0AD0243F089|";
    assert_eq!(is_valid_sha1_line(line), true);
}

#[test]
fn sha1_link_checks_each_field() {
    // size with a letter
    assert_eq!(
        is_valid_sha1_line("115://a|12x|702C4E22BE8F3D856C496178C488E86B606D9912|13F48115A678499823003C8331E9C0AD0243F089|"),
        false
    );
    // an empty size has no character that is not a digit
    assert_eq!(
        is_valid_sha1_line("115://a||702C4E22BE8F3D856C496178C488E86B606D9912|13F48115A678499823003C8331E9C0AD0243F089|"),
        true
    );
    // first digest one short
    assert_eq!(
        is_valid_sha1_line("115://a|1|702C4E22BE8F3D856C496178C488E86B606D991|13F48115A678499823003C8331E9C0AD0243F089|"),
        false
    );
    // second digest with a letter beyond f
    assert_eq!(
        is_valid_sha1_line("115://a|1|702C4E22BE8F3D856C496178C488E86B606D9912|13F48115A678499823003C8331E9C0AD0243F08Z|"),
        false
    );
    // the prefix must be whole
    assert_eq!(
        is_valid_sha1_line("115:/a|1|702C4E22BE8F3D856C496178C488E86B606D9912|13F48115A678499823003C8331E9C0AD0243F089|"),
        false
    );
    assert_eq!(is_valid_sha1_line(""), false);
    assert_eq!(is_valid_sha1_line("115://"), false);
}

#[test]
fn sha1_hex_is_forty_hex_digits() {
    assert_eq!(is_valid_sha1_hex("702C4E22BE8F3D856C496178C488E86B606D9912"), true);
    assert_eq!(is_valid_sha1_hex("702c4e22be8f3d856c496178c488e86b606d9912"), true);
    // 32 digits pass as a hash but not as a SHA-1 digest
    assert_eq!(is_valid_sha1_hex("3e63C6d6e7a1015bfdDd23768e1af312"), false);
    assert_eq!(is_valid_sha1_hex("702C4E22BE8F3D856C496178C488E86B606D991G"), false);
    assert_eq!(is_valid_sha1_hex(""), false);
    // forty characters of which one is not ASCII
    assert_eq!(is_valid_sha1_hex("702C4E22BE8F3D856C496178C488E86B606D991鲸"), false);
}

#[test]
fn hex_accepts_any_length() {
    assert_eq!(is_valid_hex(""), true);
    assert_eq!(is_valid_hex("0"), true);
    assert_eq!(is_valid_hex("0123456789abcdefABCDEF"), true);
    assert_eq!(is_valid_hex("0x10"), false);
    assert_eq!(is_valid_hex("g"), false);
    assert_eq!(is_valid_hex("/"), false);
    assert_eq!(is_valid_hex(":"), false);
    assert_eq!(is_valid_hex("@"), false);
    assert_eq!(is_valid_hex("G"), false);
    assert_eq!(is_valid_hex("`"), false);
}

use sp2any::fronting_status::{
    clean_name_for_vrchat_status, format_fronting_status, CleanForPlatform, FrontingFormat,
    VRCHAT_MAX_ALLOWED_STATUS_LENGTH,
};
use sp2any::plurality::Fronter;

fn mock_formatter_for_tests(
    prefix: &str,
    no_fronts: &str,
    name_truncate_to: usize,
    max_length: usize,
) -> FrontingFormat {
    FrontingFormat {
        prefix: prefix.to_owned(),
        status_if_no_fronters: no_fronts.to_owned(),
        truncate_names_to_length_if_status_too_long: name_truncate_to,
        cleaning: CleanForPlatform::VRChat,
        max_length: Some(max_length),
    }
}

fn mock_member_content(name: &str, vrchat_status_name: &str) -> Fronter {
    Fronter {
        id: String::new(),
        name: name.to_string(),
        avatar_url: String::new(),
        vrchat_status_name: if vrchat_status_name.is_empty() {
            None
        } else {
            Some(vrchat_status_name.to_owned())
        },
    }
}

#[test]
fn fronting_status_tests_test_format_vrchat_status_empty_fronts() {
    let config = mock_formatter_for_tests("F:", "nobody?", 3, VRCHAT_MAX_ALLOWED_STATUS_LENGTH);
    let fronts: Vec<Fronter> = vec![];
    assert_eq!(format_fronting_status(&config, &fronts), "F: nobody?");
}

#[test]
fn fronting_status_tests_test_format_vrchat_status_single_member_fits_long_string() {
    let config = mock_formatter_for_tests("F:", "N/A", 3, VRCHAT_MAX_ALLOWED_STATUS_LENGTH);
    let fronts: Vec<Fronter> = vec![mock_member_content("Alice", "")];
    assert_eq!(format_fronting_status(&config, &fronts), "F: Alice");
}

#[test]
fn fronting_status_tests_test_format_vrchat_status_multiple_members_fit_long_string() {
    let config = mock_formatter_for_tests("F:", "N/A", 3, VRCHAT_MAX_ALLOWED_STATUS_LENGTH);
    let fronts: Vec<Fronter> = vec![mock_member_content("Alice", ""), mock_member_content("Bob", "")];
    assert_eq!(format_fronting_status(&config, &fronts), "F: Alice, Bob");
}

#[test]
fn fronting_status_tests_test_format_vrchat_status_fits_short_string_not_long() {
    let config = mock_formatter_for_tests("Status:", "N/A", 3, VRCHAT_MAX_ALLOWED_STATUS_LENGTH);
    let fronts: Vec<Fronter> = vec![mock_member_content("UserOne", ""), mock_member_content("UserTwo", "")];
    assert_eq!(format_fronting_status(&config, &fronts), "Status:UserOne,UserTwo");
}

#[test]
fn fronting_status_tests_test_format_vrchat_status_fits_truncated_string_not_short() {
    let config = mock_formatter_for_tests("F:", "N/A", 3, VRCHAT_MAX_ALLOWED_STATUS_LENGTH);
    let fronts: Vec<Fronter> = vec![
        mock_member_content("Alexander", ""),
        mock_member_content("Benjamin", ""),
        mock_member_content("Charlotte", ""),
    ];
    assert_eq!(format_fronting_status(&config, &fronts), "F:Ale,Ben,Cha");
}

#[test]
fn fronting_status_tests_test_format_vrchat_status_uses_vrchat_status_name() {
    let config = mock_formatter_for_tests("F:", "N/A", 3, VRCHAT_MAX_ALLOWED_STATUS_LENGTH);
    let fronts: Vec<Fronter> = vec![mock_member_content("OriginalName", "VRChatSpecific")];
    assert_eq!(format_fronting_status(&config, &fronts), "F: VRChatSpecific");
}

#[test]
fn fronting_status_tests_test_format_vrchat_status_cleans_names() {
    let config = mock_formatter_for_tests("F:", "N/A", 3, VRCHAT_MAX_ALLOWED_STATUS_LENGTH);
    let fronts: Vec<Fronter> = vec![mock_member_content("User😊Name", "")];
    assert_eq!(format_fronting_status(&config, &fronts), "F: UserName");
}

#[test]
fn fronting_status_tests_test_format_vrchat_status_complex_truncation_and_vrc_name() {
    let config = mock_formatter_for_tests("F:", "N/A", 4, VRCHAT_MAX_ALLOWED_STATUS_LENGTH);
    let fronts: Vec<Fronter> = vec![
        mock_member_content("LongNameOne😊", ""),
        mock_member_content("Shorty", "VRC11"),
        mock_member_content("AnotherVeryLong", ""),
    ];
    assert_eq!(format_fronting_status(&config, &fronts), "F:Long,VRC1,Anot");
}

#[test]
fn fronting_status_tests_test_clean_name_for_vrchat_encoding_and_whitespace() {
    assert_eq!(
        clean_name_for_vrchat_status("ValidName123!€ Špecial Chars Ž"),
        "ValidName123!€ Špecial Chars Ž",
        "Should keep all valid ISO_8859_15 characters"
    );
    assert_eq!(
        clean_name_for_vrchat_status("Name😊With🚀Emojis❤️Symbols✅"),
        "NameWithEmojisSymbols",
        "Should remove emojis"
    );
    assert_eq!(
        clean_name_for_vrchat_status("Héllo Wörld🎉"),
        "Héllo Wörld",
        "Should handle mixed valid and invalid characters"
    );
    assert_eq!(
        clean_name_for_vrchat_status("  Trimmed  From  Name  "),
        "Trimmed From Name",
        "Should collapse consecutive spaces and trim"
    );
    assert_eq!(clean_name_for_vrchat_status(""), "");
    assert_eq!(clean_name_for_vrchat_status("😊🚀🎉"), "");
    assert_eq!(clean_name_for_vrchat_status("   \t\n   "), "");
    assert_eq!(
        clean_name_for_vrchat_status("你好WorldПриветUser1"),
        "WorldUser1",
        "Should remove characters from other scripts like Hanzi or Cyrillic"
    );
    assert_eq!(
        clean_name_for_vrchat_status("A 😊B C🚀D"),
        "A B CD",
        "Should collapse spaces created by invalid characters"
    );
}

#[test]
fn vrchat_status_test_format_vrchat_status_empty_fronts() {
    let config = mock_formatter_for_tests("F:", "nobody?", 3, VRCHAT_MAX_ALLOWED_STATUS_LENGTH);
    let fronts: Vec<Fronter> = vec![];
    assert_eq!(format_fronting_status(&config, &fronts), "F: nobody?");
}

#[test]
fn vrchat_status_test_format_vrchat_status_single_member_fits_long_string() {
    let config = mock_formatter_for_tests("F:", "N/A", 3, VRCHAT_MAX_ALLOWED_STATUS_LENGTH);
    let fronts: Vec<Fronter> = vec![mock_member_content("Alice", "")];
    assert_eq!(format_fronting_status(&config, &fronts), "F: Alice");
}

#[test]
fn vrchat_status_test_format_vrchat_status_multiple_members_fit_long_string() {
    let config = mock_formatter_for_tests("F:", "N/A", 3, VRCHAT_MAX_ALLOWED_STATUS_LENGTH);
    let fronts: Vec<Fronter> = vec![mock_member_content("Alice", ""), mock_member_content("Bob", "")];
    assert_eq!(format_fronting_status(&config, &fronts), "F: Alice, Bob");
}

#[test]
fn vrchat_status_test_format_vrchat_status_fits_short_string_not_long() {
    let config = mock_formatter_for_tests("Status:", "N/A", 3, VRCHAT_MAX_ALLOWED_STATUS_LENGTH);
    let fronts: Vec<Fronter> = vec![mock_member_content("UserOne", ""), mock_member_content("UserTwo", "")];
    assert_eq!(format_fronting_status(&config, &fronts), "Status:UserOne,UserTwo");
}

#[test]
fn vrchat_status_test_format_vrchat_status_fits_truncated_string_not_short() {
    let config = mock_formatter_for_tests("F:", "N/A", 3, VRCHAT_MAX_ALLOWED_STATUS_LENGTH);
    let fronts: Vec<Fronter> = vec![
        mock_member_content("Alexander", ""),
        mock_member_content("Benjamin", ""),
        mock_member_content("Charlotte", ""),
    ];
    assert_eq!(format_fronting_status(&config, &fronts), "F:Ale,Ben,Cha");
}

#[test]
fn vrchat_status_test_format_vrchat_status_uses_vrchat_status_name() {
    let config = mock_formatter_for_tests("F:", "N/A", 3, VRCHAT_MAX_ALLOWED_STATUS_LENGTH);
    let fronts: Vec<Fronter> = vec![mock_member_content("OriginalName", "VRChatSpecific")];
    assert_eq!(format_fronting_status(&config, &fronts), "F: VRChatSpecific");
}

#[test]
fn vrchat_status_test_format_vrchat_status_cleans_names() {
    let config = mock_formatter_for_tests("F:", "N/A", 3, VRCHAT_MAX_ALLOWED_STATUS_LENGTH);
    let fronts: Vec<Fronter> = vec![mock_member_content("User😊Name", "")];
    assert_eq!(format_fronting_status(&config, &fronts), "F: UserName");
}

#[test]
fn vrchat_status_test_format_vrchat_status_complex_truncation_and_vrc_name() {
    let config = mock_formatter_for_tests("F:", "N/A", 4, VRCHAT_MAX_ALLOWED_STATUS_LENGTH);
    let fronts: Vec<Fronter> = vec![
        mock_member_content("LongNameOne😊", ""),
        mock_member_content("Shorty", "VRC11"),
        mock_member_content("AnotherVeryLong", ""),
    ];
    assert_eq!(format_fronting_status(&config, &fronts), "F:Long,VRC1,Anot");
}

#[test]
fn vrchat_status_test_clean_name_for_vrchat_encoding_and_whitespace() {
    assert_eq!(
        clean_name_for_vrchat_status("ValidName123!€ Špecial Chars Ž"),
        "ValidName123!€ Špecial Chars Ž",
        "Should keep all valid ISO_8859_15 characters"
    );
    assert_eq!(
        clean_name_for_vrchat_status("Name😊With🚀Emojis❤️Symbols✅"),
        "NameWithEmojisSymbols",
        "Should remove emojis"
    );
    assert_eq!(
        clean_name_for_vrchat_status("Héllo Wörld🎉"),
        "Héllo Wörld",
        "Should handle mixed valid and invalid characters"
    );
    assert_eq!(
        clean_name_for_vrchat_status("  Trimmed  From  Name  "),
        "Trimmed From Name",
        "Should collapse consecutive spaces and trim"
    );
    assert_eq!(clean_name_for_vrchat_status(""), "");
    assert_eq!(clean_name_for_vrchat_status("😊🚀🎉"), "");
    assert_eq!(clean_name_for_vrchat_status("   \t\n   "), "");
    assert_eq!(
        clean_name_for_vrchat_status("你好WorldПриветUser1"),
        "WorldUser1",
        "Should remove characters from other scripts like Hanzi or Cyrillic"
    );
    assert_eq!(
        clean_name_for_vrchat_status("A 😊B C🚀D"),
        "A B CD",
        "Should collapse spaces created by invalid characters"
    );
}

#[test]
fn test_format_status_truncation() {
    let config = mock_formatter_for_tests("F:", "N/A", 4, 10);
    let fronts = vec![
        mock_member_content("LongNameOne😊", ""),
        mock_member_content("Shorty", "VRC11"),
        mock_member_content("AnotherVeryLong", ""),
    ];
    assert_eq!(format_fronting_status(&config, &fronts), "F: 3#");
}

use vk_sync::utility::{
    i8_array_to_string, in_slice, not_in_slice, nul_terminated_bytes, parse_vulkan_api_version,
};

#[test]
fn nul_terminated_bytes_requires_a_terminator() {
    let terminated: Vec<i8> = vec![b'h' as i8, b'i' as i8, 0, b'x' as i8];
    assert_eq!(nul_terminated_bytes(&terminated), Some(vec![b'h', b'i']));
    assert_eq!(nul_terminated_bytes(&[0]), Some(Vec::new()));
    let unterminated: Vec<i8> = vec![b'h' as i8, b'i' as i8];
    assert_eq!(nul_terminated_bytes(&unterminated), None);
    assert_eq!(nul_terminated_bytes(&[]), None);
}

#[test]
fn i8_array_decodes_up_to_first_nul() {
    let arr: Vec<i8> = b"VK_KHR_surface\0garbage"
        .iter()
        .map(|&b| b as i8)
        .collect();
    assert_eq!(i8_array_to_string(&arr).unwrap(), "VK_KHR_surface");
}

#[test]
fn i8_array_without_nul_decodes_whole_array() {
    let arr: Vec<i8> = vec![b'a' as i8, b'b' as i8, b'c' as i8];
    assert_eq!(i8_array_to_string(&arr).unwrap(), "abc");
}

#[test]
fn i8_array_empty_and_leading_nul() {
    assert_eq!(i8_array_to_string(&[]).unwrap(), "");
    assert_eq!(i8_array_to_string(&[0, b'x' as i8]).unwrap(), "");
}

#[test]
fn i8_array_rejects_invalid_utf8() {
    // 0xC3 opens a two-byte encoding but no continuation byte follows.
    let arr: Vec<i8> = vec![0xC3u8 as i8];
    assert!(i8_array_to_string(&arr).is_err());
}

#[test]
fn i8_array_decodes_multibyte_utf8() {
    let arr: Vec<i8> = "grün\0".bytes().map(|b| b as i8).collect();
    assert_eq!(i8_array_to_string(&arr).unwrap(), "grün");
}

fn strings(names: &[&str]) -> Vec<String> {
    names.iter().map(|s| s.to_string()).collect()
}

#[test]
fn not_in_slice_returns_missing_values_in_order() {
    let available = strings(&["b", "d", "a"]);
    let required = strings(&["a", "c", "d", "e"]);
    assert_eq!(not_in_slice(&available, &required), strings(&["c", "e"]));
}

#[test]
fn not_in_slice_empty_cases() {
    let some = strings(&["a"]);
    assert_eq!(not_in_slice(&Vec::new(), &some), some);
    assert_eq!(not_in_slice(&some, &Vec::new()), Vec::<String>::new());
    assert_eq!(not_in_slice(&some, &some), Vec::<String>::new());
}

#[test]
fn in_slice_returns_present_values_in_order() {
    let available = strings(&["b", "d", "a"]);
    let required = strings(&["a", "c", "d", "e"]);
    assert_eq!(in_slice(&available, &required), strings(&["a", "d"]));
}

#[test]
fn in_slice_keeps_duplicates_from_items() {
    let available = strings(&["x"]);
    let items = strings(&["x", "y", "x"]);
    assert_eq!(in_slice(&available, &items), strings(&["x", "x"]));
}

#[test]
fn parse_version_renders_packed_fields() {
    let packed: u32 = (1 << 22) | (3 << 12) | 251;
    assert_eq!(parse_vulkan_api_version(packed), "1.3.251");
}

#[test]
fn parse_version_zero_and_saturated_fields() {
    assert_eq!(parse_vulkan_api_version(0), "0.0.0");
    let max: u32 = (0x7f << 22) | (0x3ff << 12) | 0xfff;
    assert_eq!(parse_vulkan_api_version(max), "127.1023.4095");
    // a variant in the top three bits does not bleed into the major field
    let with_variant: u32 = (1 << 29) | (2 << 22) | (1 << 12) | 5;
    assert_eq!(parse_vulkan_api_version(with_variant), "2.1.5");
}

use ak500s_mac::device::{find_index, is_display, is_se_product, matching_indices};

#[test]
fn display_ids() {
    assert!(is_display(0x3633, 0x0004));
    assert!(!is_display(0x3633, 0x0005));
    assert!(!is_display(0x1234, 0x0004));
}

#[test]
fn se_variant_by_product_string() {
    assert!(!is_se_product("AK500S-DIGITAL"));
    assert!(!is_se_product("AK"));
    assert!(is_se_product("A"));
    assert!(is_se_product(""));
    assert!(is_se_product("ak500s"));
    assert!(is_se_product("DeepCool AK500S"));
}

#[test]
fn first_display_in_order() {
    let devs = vec![(0x046d, 0xc52b), (0x3633, 0x0004), (0x3633, 0x0004)];
    assert_eq!(find_index(&devs), Some(1));
    assert_eq!(find_index(&vec![(0x046d, 0xc52b)]), None);
    assert_eq!(find_index(&vec![]), None);
}

#[test]
fn every_display_listed() {
    let devs = vec![(0x3633, 0x0004), (0x046d, 0xc52b), (0x3633, 0x0001), (0x3633, 0x0004)];
    assert_eq!(matching_indices(&devs), vec![0, 3]);
    assert!(matching_indices(&vec![(1, 2)]).is_empty());
}

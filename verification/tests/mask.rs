use canvas::validation::mask::DisplayMask;
use canvas::validation::MaskDisplayMode;

#[test]
fn test_user_defined_phone_mask() {
    let dynamic = DisplayMask::new("(###) ###-####", '#');
    let template = DisplayMask::new("(###) ###-####", '#').with_template('_');

    assert_eq!(dynamic.apply_to_display(""), "");
    assert_eq!(dynamic.apply_to_display("1234567890"), "(123) 456-7890");

    assert_eq!(template.apply_to_display(""), "(___) ___-____");
    assert_eq!(template.apply_to_display("123"), "(123) ___-____");
}

#[test]
fn test_user_defined_date_mask() {
    let us_date = DisplayMask::new("##/##/####", '#');
    let eu_date = DisplayMask::new("##.##.####", '#');
    let iso_date = DisplayMask::new("####-##-##", '#');

    assert_eq!(us_date.apply_to_display("12252024"), "12/25/2024");
    assert_eq!(eu_date.apply_to_display("25122024"), "25.12.2024");
    assert_eq!(iso_date.apply_to_display("20241225"), "2024-12-25");
}

#[test]
fn test_user_defined_business_formats() {
    let employee_id = DisplayMask::new("EMP-####-##", '#');
    let product_code = DisplayMask::new("###-###-###", '#');
    let invoice = DisplayMask::new("INV####/##", '#');

    assert_eq!(employee_id.apply_to_display("123456"), "EMP-1234-56");
    assert_eq!(product_code.apply_to_display("123456789"), "123-456-789");
    assert_eq!(invoice.apply_to_display("123456"), "INV1234/56");
}

#[test]
fn test_custom_input_characters() {
    let mask_with_x = DisplayMask::new("XXX-XX-XXXX", 'X');
    let mask_with_hash = DisplayMask::new("###-##-####", '#');
    let mask_with_n = DisplayMask::new("NNN-NN-NNNN", 'N');

    assert_eq!(mask_with_x.apply_to_display("123456789"), "123-45-6789");
    assert_eq!(mask_with_hash.apply_to_display("123456789"), "123-45-6789");
    assert_eq!(mask_with_n.apply_to_display("123456789"), "123-45-6789");
}

#[test]
fn test_position_mapping_user_patterns() {
    let custom = DisplayMask::new("ABC-###-XYZ", '#');

    assert_eq!(custom.raw_pos_to_display_pos(0), 4);
    assert_eq!(custom.raw_pos_to_display_pos(1), 5);
    assert_eq!(custom.raw_pos_to_display_pos(2), 6);

    assert_eq!(custom.display_pos_to_raw_pos(4), 0);
    assert_eq!(custom.display_pos_to_raw_pos(5), 1);
    assert_eq!(custom.display_pos_to_raw_pos(6), 2);

    assert!(!custom.is_input_position(0));
    assert!(!custom.is_input_position(3));
    assert!(custom.is_input_position(4));
    assert!(!custom.is_input_position(8));
}

#[test]
fn template_placeholders_fill_every_input_position() {
    let underscores = DisplayMask::new("##-##", '#').with_template('_');
    let dots = DisplayMask::new("##-##", '#').with_template('•');
    assert_eq!(underscores.apply_to_display(""), "__-__");
    assert_eq!(dots.apply_to_display(""), "••-••");
    assert_eq!(underscores.apply_to_display("1"), "1_-__");
}

#[test]
fn test_custom_placeholders() {
    let underscores = DisplayMask::new("##-##", '#').with_template('_');
    let dots = DisplayMask::new("##-##", '#').with_template('•');
    let dashes = DisplayMask::new("##-##", '#').with_template('-');

    assert_eq!(underscores.apply_to_display(""), "__-__");
    assert_eq!(dots.apply_to_display(""), "••-••");
    assert_eq!(dashes.apply_to_display(""), "---");
}

#[test]
fn blending_placeholder_merges_only_without_input() {
    let dashes = DisplayMask::new("##-##", '#').with_template('-');
    assert_eq!(dashes.apply_to_display("1"), "1----");
    assert_eq!(dashes.apply_to_display("123"), "12-3-");
    assert_eq!(dashes.apply_to_display("1234"), "12-34");
}

#[test]
fn mask_dynamic_appends_input_beyond_pattern() {
    let mask = DisplayMask::new("##-##", '#');
    assert_eq!(mask.apply_to_display("123456"), "12-3456");
    assert_eq!(mask.apply_to_display("12"), "12");
    assert_eq!(mask.apply_to_display("123"), "12-3");
    let phone = DisplayMask::new("(###) ###-####", '#');
    assert_eq!(phone.apply_to_display("12345"), "(123) 45");
    assert_eq!(phone.apply_to_display("123"), "123");
    assert_eq!(phone.apply_to_display("1234"), "(123) 4");
    let template = DisplayMask::new("##-##", '#').with_template('_');
    assert_eq!(template.apply_to_display("123456"), "12-34");
}

#[test]
fn mask_position_helpers() {
    let mask = DisplayMask::new("(###) ###", '#');
    assert_eq!(mask.first_input_position(), 1);
    assert_eq!(mask.next_input_position(4), 6);
    assert_eq!(mask.next_input_position(9), 9);
    assert_eq!(mask.next_input_position(20), 20);
    assert_eq!(mask.prev_input_position(5), Some(3));
    assert_eq!(mask.prev_input_position(0), None);
    assert_eq!(mask.raw_pos_to_display_pos(6), 9);
    assert_eq!(mask.raw_pos_to_display_pos(8), 11);
    assert_eq!(mask.display_pos_to_raw_pos(100), 6);
    assert!(mask.is_input_position(50));
    assert_eq!(mask.pattern(), "(###) ###");
    assert!(!mask.is_template_mode());
    assert_eq!(*mask.display_mode(), MaskDisplayMode::Dynamic);
    let none = DisplayMask::new("---", '#');
    assert_eq!(none.first_input_position(), 0);
    let t = DisplayMask::new("##", '#').with_mode(MaskDisplayMode::Template { placeholder: '*' });
    assert!(t.is_template_mode());
    assert_eq!(t.apply_to_display("1"), "1*");
    let d = DisplayMask::default();
    assert_eq!(d.pattern(), "");
    assert_eq!(d.apply_to_display("abc"), "abc");
}

#[test]
fn input_positions_map_to_raw_positions_and_back() {
    let mask = DisplayMask::new("(###) ###-####", '#');
    for d in 0..14 {
        if mask.is_input_position(d) {
            assert_eq!(mask.raw_pos_to_display_pos(mask.display_pos_to_raw_pos(d)), d);
        }
    }
    for r in 0..10 {
        assert_eq!(mask.display_pos_to_raw_pos(mask.raw_pos_to_display_pos(r)), r);
    }
}

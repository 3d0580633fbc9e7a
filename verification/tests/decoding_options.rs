use heif_server::converter::DecodingOptions;

#[test]
fn default_options_are_off() {
    let options = DecodingOptions::default();
    assert!(!options.ignore_transformations);
    assert!(!options.convert_hdr_to_8bit);
}

#[test]
fn setters_chain_and_keep_the_other_option() {
    let mut options = DecodingOptions::default();
    options.set_ignore_transformations(true).set_convert_hdr_to_8bit(true);
    assert!(options.ignore_transformations);
    assert!(options.convert_hdr_to_8bit);
    options.set_ignore_transformations(false);
    assert!(!options.ignore_transformations);
    assert!(options.convert_hdr_to_8bit);
}

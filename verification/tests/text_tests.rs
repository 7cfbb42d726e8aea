use pugaipadam::dec_string;
use pugaipadam::extension_of;
use pugaipadam::file_name_of;

#[test]
fn decimal_rendering_is_exact() {
    assert_eq!(dec_string(0), "0");
    assert_eq!(dec_string(7), "7");
    assert_eq!(dec_string(10), "10");
    assert_eq!(dec_string(42), "42");
    assert_eq!(dec_string(100), "100");
    assert_eq!(dec_string(98765), "98765");
}

#[test]
fn file_name_is_final_component() {
    assert_eq!(file_name_of("a/b/c.png"), "c.png");
    assert_eq!(file_name_of("c.png"), "c.png");
    assert_eq!(file_name_of("/abs/path/img.jpeg"), "img.jpeg");
    assert_eq!(file_name_of("dir/"), "");
    assert_eq!(file_name_of(""), "");
}

#[test]
fn extension_follows_last_dot() {
    assert_eq!(extension_of("c.png"), Some("png".to_string()));
    assert_eq!(extension_of("a.tar.gz"), Some("gz".to_string()));
    assert_eq!(extension_of("a."), Some("".to_string()));
    assert_eq!(extension_of("noext"), None);
    assert_eq!(extension_of(".hidden"), None);
    assert_eq!(extension_of(""), None);
}

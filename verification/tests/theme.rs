use win_opt::Theme;

#[test]
fn test_theme_copy_and_equality() {
    let theme1 = Theme::Dark;
    let theme2 = theme1;
    assert_eq!(theme1, theme2);
}

#[test]
fn test_theme_toggled() {
    assert_eq!(Theme::Dark.toggled(), Theme::Light);
    assert_eq!(Theme::Light.toggled(), Theme::Dark);
}

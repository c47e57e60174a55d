use discors::color::{Color, Colour};

fn my_col() -> Colour {
    Color::new(0x12bcde)
}

fn white() -> Color {
    Colour::from_rgb(255, 255, 255)
}

#[test]
fn color_value() {
    assert_eq!(my_col().0, 0x12bcde);
    assert_eq!(white().0, 0xffffff);
}

#[test]
fn rgb() {
    assert_eq!(my_col().rgb(), (18, 188, 222));
    // black and white
    assert_eq!(Color::default().rgb(), (0, 0, 0));
    assert_eq!(white().rgb(), (255, 255, 255));
}

#[test]
fn rgb_individual() {
    assert_eq!(my_col().r(), 18);
    assert_eq!(my_col().g(), 188);
    assert_eq!(my_col().b(), 222);
    assert_eq!(white().r(), 255);
    assert_eq!(white().g(), 255);
    assert_eq!(white().b(), 255);
}

#[test]
fn from_rgb() {
    assert_eq!(my_col(), Colour::from_rgb(18, 188, 222));
    // 0xe74c3c in rgb is 231, 76, 60
    assert_eq!(Color::RED(), Color::from_rgb_tuple((231, 76, 60)))
}

#[test]
fn color_bytes() {
    assert_eq!(Color::new(0xab12bcde).rgb_(), [0xab, 0x12, 0xbc, 0xde]);
    assert_eq!(Color::new(0xff0000).rgb(), (255, 0, 0));
    assert_eq!(Color::from_rgb(123, 23, 10).0, 0x7b170a);
}

#[test]
fn color_to_string() {
    assert_eq!(Color::new(0xabc123).to_string(), "#abc123");
    assert_eq!(Color::default().to_string(), "#000000");
    assert_eq!(Color::new(0xf).to_string(), "#00000f");
    assert_eq!(Color::new(0x12345678).to_string(), "#12345678");
    assert_eq!(Color::new(u32::MAX).to_string(), "#ffffffff");
    assert_eq!(Color::BLURPLE().to_string(), "#7289da");
}

#[test]
fn color_aliases() {
    assert_eq!(Color::LIGHTER_GRAY(), Color::LIGHTER_GREY());
    assert_eq!(Color::DARK_GRAY(), Color::DARK_GREY());
    assert_eq!(Color::LIGHT_GRAY(), Color::LIGHT_GREY());
    assert_eq!(Color::DARKER_GRAY(), Color::DARKER_GREY());
    assert_eq!(Color::DARK_THEME().0, 0x36393f);
    assert_eq!(Color::TEAL().0, 0x1abc9c);
}

use ragout::color::Color;
use ragout::style::{
    Style, BLINK, BOLD, CONCEAL, DBL_UNDERLINE, FAINT, ITALIC, RESET, REVERSE, UNDERLINE,
};

#[test]
fn color() {
    let color = Color::new(23, 42, 22);

    let mut s = String::new();

    color.text(&mut s);
    assert_eq!(&s[..], "38;2;23;42;22;");
    s.clear();
    color.background(&mut s);
    assert_eq!(&s[..], "48;2;23;42;22;");
}

#[test]
fn atomic() {
    let mut color = Color::new(43, 5, 34);

    color.red(1);
    assert_eq!(color.r, 1);

    color.green(1);
    assert_eq!(color.g, 1);

    color.blue(1);
    assert_eq!(color.b, 1);
}

#[test]
fn effects() {
    let mut s = Style::new();
    assert_eq!(s.effects, RESET);
    s = s
        .bold()
        .faint()
        .italic()
        .underline()
        .double_underline()
        .blink()
        .reverse()
        .conceal();

    assert_eq!(s.effects & BOLD, 1);
    assert_eq!(s.effects & FAINT, 2);
    assert_eq!(s.effects & ITALIC, 4);
    assert_eq!(s.effects & UNDERLINE, 8);
    assert_eq!(s.effects & BLINK, 16);
    assert_eq!(s.effects & REVERSE, 32);
    assert_eq!(s.effects & CONCEAL, 64);
    assert_eq!(s.effects & DBL_UNDERLINE, 128);

    s = s.reset();
    assert_eq!(s.effects, RESET);
}

#[test]
fn text() {
    let s = Style::new().text_color(&[34, 34, 34]);
    assert_eq!(s.text.as_ref().unwrap().array(), [34, 34, 34]);

    let t0 = s.style();
    assert_eq!(&t0[..], "\x1b[38;2;34;34;34m");

    let mut t = "".to_string();
    s.dump_style(&mut t);
    assert_eq!(&t[..], "\x1b[38;2;34;34;34m");
}

#[test]
fn background() {
    let s = Style::new().background_color(&[34, 34, 34]);
    assert_eq!(s.background.as_ref().unwrap().array(), [34, 34, 34]);

    let t0 = s.style();
    assert_eq!(&t0[..], "\x1b[48;2;34;34;34m");

    let mut t = "".to_string();
    s.dump_style(&mut t);
    assert_eq!(&t[..], "\x1b[48;2;34;34;34m");
}

#[test]
fn test_style() {
    let mut s = ragout::styled::Style::new("plain");
    let mut out = String::new();
    s.calibrate(&mut out);
    assert_eq!(out, "\x1b[0m");
    s.bold();
    s.txt(&[1, 2, 3]);
    s.bkg(&[200, 10, 0]);
    s.calibrate(&mut out);
    assert_eq!(out, "\x1b[1;38;2;1;2;3;48;2;200;10;0m");
    s.reset();
    assert_eq!(s.style(), "\x1b[0m");
}

#[test]
fn style_orders_effects_before_colors() {
    let s = Style::new().italic().double_underline().bold();
    assert_eq!(s.style(), "\x1b[21;3;1m");
    let s = s.bold();
    assert_eq!(s.effects, DBL_UNDERLINE | ITALIC);
    let s = Style::new().conceal().reverse().blink().underline().faint();
    assert_eq!(s.style(), "\x1b[8;7;5;4;2m");
}

#[test]
fn style_channel_setters() {
    let s = Style::new()
        .text_color(&[0, 0, 0])
        .text_red(255)
        .text_green(7)
        .text_blue(100)
        .background_color(&[9, 9, 9])
        .background_red(1)
        .background_green(2)
        .background_blue(3);
    assert_eq!(s.style(), "\x1b[38;2;255;7;100;48;2;1;2;3m");
}

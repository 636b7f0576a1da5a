use eliprompt::block::{ExitCode, Or, Sequence, Styled, Text};
use eliprompt::{BlockProducer, Color, Environment, Style};

fn env() -> Environment {
    Environment::new(None)
        .with_home_dir(None)
        .with_hostname(None)
        .with_username(None)
}

#[test]
fn styled_fills_missing_channels_from_default() {
    let inner = BlockProducer::Text(Text::new("x").with_style(Style::fg(Color::new(1, 2, 3))));
    let producer = Styled::new(inner).with_style(
        Style::new()
            .with_fg(Color::new(9, 9, 9))
            .with_bg(Color::new(4, 5, 6)),
    );
    let blocks = producer.produce(&env());
    assert_eq!(blocks.len(), 1);
    // Own foreground wins; absent background is taken from the default.
    assert_eq!(
        blocks[0].style.foreground.as_ref().unwrap().as_rgb(),
        (1, 2, 3)
    );
    assert_eq!(
        blocks[0].style.background.as_ref().unwrap().as_rgb(),
        (4, 5, 6)
    );
}

#[test]
fn styled_overlay_keeps_fully_set_styles() {
    let full = Style::new()
        .with_fg(Color::new(1, 2, 3))
        .with_bg(Color::new(4, 5, 6));
    let inner = BlockProducer::Text(Text::new("x").with_style(full));
    let producer = Styled::new(inner).with_style(
        Style::new()
            .with_fg(Color::new(7, 7, 7))
            .with_bg(Color::new(8, 8, 8)),
    );
    let blocks = producer.produce(&env());
    assert_eq!(
        blocks[0].style.foreground.as_ref().unwrap().as_rgb(),
        (1, 2, 3)
    );
    assert_eq!(
        blocks[0].style.background.as_ref().unwrap().as_rgb(),
        (4, 5, 6)
    );
}

#[test]
fn style_or_coalesces_per_channel() {
    let own = Style::fg(Color::new(1, 1, 1));
    let default = Style::new()
        .with_fg(Color::new(2, 2, 2))
        .with_bg(Color::new(3, 3, 3));
    let resolved = own.or(&default);
    assert_eq!(resolved.foreground.as_ref().unwrap().as_rgb(), (1, 1, 1));
    assert_eq!(resolved.background.as_ref().unwrap().as_rgb(), (3, 3, 3));
}

#[test]
fn nested_or_tests_the_concatenated_result() {
    // A sequence of empties inside an Or is one empty candidate; the Or
    // falls through to the next child.
    let empty_seq = BlockProducer::Sequence(Sequence(vec![
        BlockProducer::ExitCode(ExitCode::new()),
        BlockProducer::ExitCode(ExitCode::new()),
    ]));
    let fallback = BlockProducer::Text(Text::new("fallback"));
    let blocks = Or(vec![empty_seq, fallback]).produce(&env().with_prev_exit_code(0));
    assert_eq!(blocks.len(), 1);
    assert_eq!(blocks[0].text, "fallback");
}

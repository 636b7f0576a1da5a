use eliprompt::block::Text;
use eliprompt::{BlockProducer, Config, Environment, Span, Symbol};

fn env() -> Environment {
    Environment::new(None)
        .with_home_dir(None)
        .with_hostname(None)
        .with_username(None)
}

#[test]
fn config_uses_main_prompt_by_default() {
    let config = Config::new(BlockProducer::Text(Text::new("main")))
        .with_alternative(BlockProducer::Text(Text::new("alt")));
    let blocks = config.produce(&env());
    assert_eq!(blocks[0].text, "main");
}

#[test]
fn config_uses_alternative_when_asked() {
    let config = Config::new(BlockProducer::Text(Text::new("main")))
        .with_alternative(BlockProducer::Text(Text::new("alt")));
    let blocks = config.produce(&env().force_alternative_prompt(true));
    assert_eq!(blocks[0].text, "alt");
}

#[test]
fn config_without_alternative_ignores_the_flag() {
    let config = Config::new(BlockProducer::Text(Text::new("main")));
    let blocks = config.produce(&env().force_alternative_prompt(true));
    assert_eq!(blocks[0].text, "main");
}

#[test]
fn default_timeout_is_one_second() {
    let config = Config::new(BlockProducer::Text(Text::new("x")));
    assert_eq!(config.timeout, Span::from_millis(1000));
}

#[test]
fn default_pretty_prompt_renders_for_a_plain_environment() {
    let e = Environment::new(Some("/home/u/proj".to_string()))
        .with_home_dir(Some("/home/u".to_string()))
        .with_hostname(Some("box".to_string()))
        .with_username(Some("u".to_string()))
        .with_prev_exit_code(1);
    let blocks = Config::default_pretty().produce(&e);
    let text: String = blocks.iter().map(|b| b.text.as_str()).collect();
    assert!(text.contains("u@box"));
    assert!(text.contains("~/proj"));
    assert!(text.contains('1'));
    assert!(text.ends_with("\n\u{2192} "));
    // The overlay leaves no block without a resolved foreground.
    for b in &blocks {
        assert!(b.style.foreground.is_some());
    }
}

#[test]
fn symbol_prefers_regular_and_falls_back() {
    let s = Symbol::new("\u{e0b0}").with_fallback(">");
    assert_eq!(s.as_str(true), "\u{e0b0}");
    assert_eq!(s.as_str(false), ">");
    let plain = Symbol::new("$");
    assert_eq!(plain.as_str(false), "$");
}

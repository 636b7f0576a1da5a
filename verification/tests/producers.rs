use eliprompt::block::{
    Elapsed, ExitCode, ExitStatusSymbol, GitHead, GitPath, Hostname, Or, Separated, Sequence,
    Text, Username, WorkingDirectory,
};
use eliprompt::{
    BlockProducer, Color, Environment, HeadName, RepoFacts, RepoStatus, Span, Style,
};

fn env() -> Environment {
    Environment::new(None)
        .with_home_dir(None)
        .with_hostname(None)
        .with_username(None)
}

#[test]
fn exit_code_zero_yields_nothing() {
    let blocks = ExitCode::new().produce(&env().with_prev_exit_code(0));
    assert!(blocks.is_empty());
}

#[test]
fn exit_code_yields_prefix_and_code_in_style() {
    let red = Color::parse("red").unwrap();
    let producer = ExitCode::new()
        .with_prefix("\u{2717}")
        .with_style(Style::fg(red));
    let blocks = producer.produce(&env().with_prev_exit_code(127));
    assert_eq!(blocks.len(), 2);
    assert_eq!(blocks[0].text, "\u{2717}");
    assert_eq!(blocks[1].text, "127");
    for b in &blocks {
        let fg = b.style.foreground.as_ref().expect("styled");
        assert_eq!(fg.as_rgb(), (255, 0, 0));
    }
}

#[test]
fn exit_code_renders_negative_codes() {
    let blocks = ExitCode::new().produce(&env().with_prev_exit_code(-9));
    assert_eq!(blocks[1].text, "-9");
    let blocks = ExitCode::new().produce(&env().with_prev_exit_code(i32::MIN));
    assert_eq!(blocks[1].text, "-2147483648");
}

#[test]
fn elapsed_below_threshold_yields_nothing() {
    let blocks = Elapsed::new().produce(&env().with_prev_cmd_duration(Span::from_millis(500)));
    assert!(blocks.is_empty());
}

#[test]
fn elapsed_unknown_yields_nothing() {
    let blocks = Elapsed::new().produce(&env());
    assert!(blocks.is_empty());
}

#[test]
fn elapsed_at_threshold_yields_prefix_and_duration() {
    let blocks = Elapsed::new().produce(&env().with_prev_cmd_duration(Span::from_secs(5)));
    assert_eq!(blocks.len(), 2);
    assert_eq!(blocks[0].text, "\u{fa1a}");
    assert_eq!(blocks[1].text, "5s");
}

#[test]
fn elapsed_renders_subsecond_precision() {
    let blocks = Elapsed::new().produce(&env().with_prev_cmd_duration(Span::from_millis(2500)));
    assert_eq!(blocks[1].text, "2s 500ms");
}

#[test]
fn working_directory_abbreviates_home_to_tilde() {
    let e = Environment::new(Some("/home/u/proj".to_string()))
        .with_home_dir(Some("/home/u".to_string()));
    let blocks = WorkingDirectory::new().produce(&e);
    assert_eq!(blocks.len(), 2);
    assert_eq!(blocks[1].text, "~/proj");
}

#[test]
fn working_directory_home_itself_is_tilde() {
    let e = Environment::new(Some("/home/u".to_string()))
        .with_home_dir(Some("/home/u".to_string()));
    let blocks = WorkingDirectory::new().produce(&e);
    assert_eq!(blocks[1].text, "~");
}

#[test]
fn working_directory_outside_home_is_unchanged() {
    let e = Environment::new(Some("/var/log".to_string()))
        .with_home_dir(Some("/home/u".to_string()));
    let blocks = WorkingDirectory::new().produce(&e);
    assert_eq!(blocks[1].text, "/var/log");
}

#[test]
fn working_directory_without_tilde_keeps_path() {
    let e = Environment::new(Some("/home/u/proj".to_string()))
        .with_home_dir(Some("/home/u".to_string()));
    let blocks = WorkingDirectory::new().with_home_as_tilde(false).produce(&e);
    assert_eq!(blocks[1].text, "/home/u/proj");
}

#[test]
fn working_directory_unknown_shows_marker() {
    let blocks = WorkingDirectory::new().produce(&env());
    assert_eq!(blocks[1].text, "<NONE>");
}

#[test]
fn exit_status_symbol_picks_style_by_exit_code() {
    let ok = Color::new(0, 0, 255);
    let bad = Color::new(255, 0, 0);
    let producer = ExitStatusSymbol::new(">")
        .with_style(Style::fg(ok))
        .with_error_style(Style::fg(bad));
    let good = producer.produce(&env().with_prev_exit_code(0));
    assert_eq!(good.len(), 1);
    assert_eq!(
        good[0].style.foreground.as_ref().unwrap().as_rgb(),
        (0, 0, 255)
    );
    let failed = ExitStatusSymbol::new(">")
        .with_style(Style::fg(Color::new(0, 0, 255)))
        .with_error_style(Style::fg(Color::new(255, 0, 0)))
        .produce(&env().with_prev_exit_code(3));
    assert_eq!(
        failed[0].style.foreground.as_ref().unwrap().as_rgb(),
        (255, 0, 0)
    );
}

#[test]
fn exit_status_symbol_empty_contents_yields_nothing() {
    let blocks = ExitStatusSymbol::new("").produce(&env());
    assert!(blocks.is_empty());
}

#[test]
fn hostname_and_username_come_from_environment() {
    let e = env()
        .with_hostname(Some("box".to_string()))
        .with_username(Some("u".to_string()));
    let host = Hostname::new().produce(&e);
    assert_eq!(host.len(), 2);
    assert_eq!(host[1].text, "box");
    let user = Username::new().with_prefix("@").produce(&e);
    assert_eq!(user[0].text, "@");
    assert_eq!(user[1].text, "u");
}

#[test]
fn hostname_unknown_yields_nothing() {
    assert!(Hostname::new().produce(&env()).is_empty());
}

#[test]
fn git_head_shows_branch_name() {
    let e = env().with_repo(RepoStatus::Repo(RepoFacts {
        head: HeadName::Branch("main".to_string()),
        bare: false,
        git_dir: "/home/u/proj/.git/".to_string(),
    }));
    let blocks = GitHead::new().produce(&e);
    assert_eq!(blocks.len(), 2);
    assert_eq!(blocks[1].text, "main");
}

#[test]
fn git_head_unborn_branch_shows_master() {
    let e = env().with_repo(RepoStatus::Repo(RepoFacts {
        head: HeadName::Unborn,
        bare: false,
        git_dir: "/home/u/proj/.git/".to_string(),
    }));
    assert_eq!(GitHead::new().produce(&e)[1].text, "master");
}

#[test]
fn git_head_without_repo_or_head_yields_nothing() {
    assert!(GitHead::new().produce(&env()).is_empty());
    let e = env().with_repo(RepoStatus::Repo(RepoFacts {
        head: HeadName::Unavailable,
        bare: false,
        git_dir: "/home/u/proj/.git/".to_string(),
    }));
    assert!(GitHead::new().produce(&e).is_empty());
}

#[test]
fn git_path_shows_path_relative_to_repository_parent() {
    let e = Environment::new(Some("/home/u/proj/src".to_string())).with_repo(RepoStatus::Repo(
        RepoFacts {
            head: HeadName::Branch("main".to_string()),
            bare: false,
            git_dir: "/home/u/proj/.git/".to_string(),
        },
    ));
    let blocks = GitPath::new().produce(&e);
    assert_eq!(blocks.len(), 2);
    assert_eq!(blocks[1].text, "proj/src");
}

#[test]
fn git_path_bare_repository_yields_nothing() {
    let e = Environment::new(Some("/home/u/proj".to_string())).with_repo(RepoStatus::Repo(
        RepoFacts {
            head: HeadName::Branch("main".to_string()),
            bare: true,
            git_dir: "/home/u/proj".to_string(),
        },
    ));
    assert!(GitPath::new().produce(&e).is_empty());
}

#[test]
fn git_path_outside_repository_parent_yields_nothing() {
    let e = Environment::new(Some("/var/elsewhere".to_string())).with_repo(RepoStatus::Repo(
        RepoFacts {
            head: HeadName::Branch("main".to_string()),
            bare: false,
            git_dir: "/home/u/proj/.git/".to_string(),
        },
    ));
    assert!(GitPath::new().produce(&e).is_empty());
}

#[test]
fn or_returns_first_non_empty_result() {
    let empty = BlockProducer::ExitCode(ExitCode::new());
    let b = BlockProducer::Text(Text::new("b"));
    let blocks = Or(vec![empty, b]).produce(&env().with_prev_exit_code(0));
    assert_eq!(blocks.len(), 1);
    assert_eq!(blocks[0].text, "b");
}

#[test]
fn or_prefers_the_first_of_two_non_empty_results() {
    let a = BlockProducer::Text(Text::new("a"));
    let b = BlockProducer::Text(Text::new("b"));
    let blocks = Or(vec![a, b]).produce(&env());
    assert_eq!(blocks.len(), 1);
    assert_eq!(blocks[0].text, "a");
}

#[test]
fn or_of_all_empty_is_empty() {
    let empty1 = BlockProducer::ExitCode(ExitCode::new());
    let empty2 = BlockProducer::Elapsed(Elapsed::new());
    assert!(Or(vec![empty1, empty2]).produce(&env()).is_empty());
}

#[test]
fn sequence_concatenates_in_order() {
    let blocks = Sequence(vec![
        BlockProducer::Text(Text::new("a")),
        BlockProducer::ExitCode(ExitCode::new()),
        BlockProducer::Text(Text::new("c")),
    ])
    .produce(&env().with_prev_exit_code(0));
    assert_eq!(blocks.len(), 2);
    assert_eq!(blocks[0].text, "a");
    assert_eq!(blocks[1].text, "c");
}

#[test]
fn separated_places_one_separator_between_non_empty_results() {
    let producer = Separated::new(vec![
        BlockProducer::Text(Text::new("a")),
        BlockProducer::ExitCode(ExitCode::new()),
        BlockProducer::Text(Text::new("c")),
    ]);
    let blocks = producer.produce(&env().with_prev_exit_code(0));
    let texts: Vec<&str> = blocks.iter().map(|b| b.text.as_str()).collect();
    assert_eq!(texts, vec!["a", " | ", "c"]);
}

#[test]
fn separated_with_custom_separator() {
    let producer = Separated::new(vec![
        BlockProducer::Text(Text::new("u")),
        BlockProducer::Text(Text::new("h")),
    ])
    .with_separator("@");
    let blocks = producer.produce(&env());
    let texts: Vec<&str> = blocks.iter().map(|b| b.text.as_str()).collect();
    assert_eq!(texts, vec!["u", "@", "h"]);
}

#[test]
fn separated_of_all_empty_is_empty() {
    let producer = Separated::new(vec![
        BlockProducer::ExitCode(ExitCode::new()),
        BlockProducer::Elapsed(Elapsed::new()),
    ]);
    assert!(producer.produce(&env().with_prev_exit_code(0)).is_empty());
}

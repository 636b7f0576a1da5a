use crate::block::{
    spec_produce, Block, BlockProducer, Elapsed, ExitCode, ExitStatusSymbol, GitHead, GitPath,
    Hostname, Newline, Or, Separated, Sequence, Space, Styled, Username, WorkingDirectory,
};
use crate::color::{black, crimson, dodgerblue, teal, SpecColor};
use crate::env::Environment;
use crate::span::Span;
use crate::style::{SpecStyle, Style};
use vstd::prelude::*;

verus! {

/// A prompt configuration: the producer tree, an optional alternative tree
/// for plainer terminals, and the deadline for generating the prompt.
#[derive(Debug)]
pub struct Config {
    pub prompt: BlockProducer,
    pub alternative_prompt: Option<BlockProducer>,
    pub timeout: Span,
}

/// The blocks a configuration yields: those of the alternative tree when one
/// is configured and the environment asks for it, else those of the main
/// tree.
pub open spec fn spec_config_produce(c: Config, env: Environment) -> Seq<
    crate::block::SpecBlock,
> {
    match c.alternative_prompt {
        Some(alt) => if env.force_alternative_prompt {
            spec_produce(alt, env)
        } else {
            spec_produce(c.prompt, env)
        },
        None => spec_produce(c.prompt, env),
    }
}

impl Config {
    pub fn new(prompt: BlockProducer) -> (r: Config)
        ensures
            r.prompt == prompt,
            r.alternative_prompt is None,
            r.timeout.millis == 1000,
    {
        Config { prompt, alternative_prompt: None, timeout: Span::from_millis(1000) }
    }

    /// The built-in configuration: the pretty prompt, the plain alternative,
    /// and a one second deadline.
    pub fn default_pretty() -> (r: Config)
        ensures
            r.prompt matches BlockProducer::Styled(_),
            r.alternative_prompt matches Some(p) && p matches BlockProducer::Styled(_),
            r.timeout.millis == 1000,
    {
        Config {
            prompt: default_pretty_prompt(),
            alternative_prompt: Some(default_alternative_prompt()),
            timeout: Span::from_millis(1000),
        }
    }

    pub fn with_alternative(self, prompt: BlockProducer) -> (r: Config)
        ensures
            r.prompt == self.prompt,
            r.alternative_prompt == Some(prompt),
            r.timeout == self.timeout,
    {
        Config { alternative_prompt: Some(prompt), ..self }
    }

    pub fn with_timeout(self, timeout: Span) -> (r: Config)
        ensures
            r.prompt == self.prompt,
            r.alternative_prompt == self.alternative_prompt,
            r.timeout == timeout,
    {
        Config { timeout, ..self }
    }

    /// Evaluates the configured tree — the alternative one when the
    /// environment asks for it — against the environment.
    pub fn produce(&self, environment: &Environment) -> (r: Vec<Block>)
        ensures
            r.deep_view() == spec_config_produce(*self, *environment),
    {
        let use_alternative = environment.alternative_prompt_is_used();
        let producer = match &self.alternative_prompt {
            Some(p) => if use_alternative {
                p
            } else {
                &self.prompt
            },
            None => &self.prompt,
        };
        producer.produce(environment)
    }
}

/// The built-in prompt: `user@host`, the path (relative to the repository
/// when inside one), the git branch, a long previous duration and a non-zero
/// exit code, `|`-separated; then a newline and an arrow whose color signals
/// success or failure — everything falling back to teal on black.
pub fn default_pretty_prompt() -> (r: BlockProducer)
    ensures
        r matches BlockProducer::Styled(s) && s.style@ == (SpecStyle {
            foreground: Some(SpecColor { r: 0, g: 128, b: 128, name: Some("teal"@) }),
            background: Some(SpecColor { r: 0, g: 0, b: 0, name: Some("black"@) }),
        }) && (*s.producer matches BlockProducer::Sequence(q) && q.0@.len() == 4 && (q.0@[0]
            matches BlockProducer::Separated(sep) && sep.producers@.len() == 5 && sep.separator@
            == " | "@) && (q.0@[1] matches BlockProducer::Newline(_)) && (q.0@[2]
            matches BlockProducer::ExitStatusSymbol(x) && x.contents@ == "\u{2192}"@) && (q.0@[3]
            matches BlockProducer::Space(_))),
{
    let mut id: Vec<BlockProducer> = Vec::new();
    id.push(BlockProducer::Username(Username::new()));
    id.push(BlockProducer::Hostname(Hostname::new()));
    let id = BlockProducer::Separated(Separated::new(id).with_separator("@"));
    let mut path_options: Vec<BlockProducer> = Vec::new();
    path_options.push(BlockProducer::GitPath(GitPath::new()));
    path_options.push(BlockProducer::WorkingDirectory(WorkingDirectory::new()));
    let path = BlockProducer::Or(Or(path_options));
    let mut info: Vec<BlockProducer> = Vec::new();
    info.push(id);
    info.push(path);
    info.push(BlockProducer::GitHead(GitHead::new()));
    info.push(BlockProducer::Elapsed(Elapsed::new()));
    info.push(BlockProducer::ExitCode(ExitCode::new().with_style(Style::fg(crimson()))));
    let mut parts: Vec<BlockProducer> = Vec::new();
    parts.push(BlockProducer::Separated(Separated::new(info)));
    parts.push(BlockProducer::Newline(Newline));
    parts.push(
        BlockProducer::ExitStatusSymbol(
            ExitStatusSymbol::new("\u{2192}").with_style(Style::fg(dodgerblue())).with_error_style(
                Style::fg(crimson()),
            ),
        ),
    );
    parts.push(BlockProducer::Space(Space));
    let producer = BlockProducer::Sequence(Sequence(parts));
    BlockProducer::Styled(
        Styled::new(producer).with_style(Style::new().with_fg(teal()).with_bg(black())),
    )
}

/// The built-in alternative prompt for plainer terminals: as the pretty one,
/// but without glyph prefixes, without the git-relative path, and without a
/// background color.
pub fn default_alternative_prompt() -> (r: BlockProducer)
    ensures
        r matches BlockProducer::Styled(s) && s.style@ == (SpecStyle {
            foreground: Some(SpecColor { r: 0, g: 128, b: 128, name: Some("teal"@) }),
            background: None,
        }) && (*s.producer matches BlockProducer::Sequence(q) && q.0@.len() == 4 && (q.0@[0]
            matches BlockProducer::Separated(sep) && sep.producers@.len() == 4 && sep.separator@
            == " | "@) && (q.0@[1] matches BlockProducer::Newline(_)) && (q.0@[2]
            matches BlockProducer::ExitStatusSymbol(x) && x.contents@ == "\u{2192}"@) && (q.0@[3]
            matches BlockProducer::Space(_))),
{
    let mut id: Vec<BlockProducer> = Vec::new();
    id.push(BlockProducer::Username(Username::new()));
    id.push(BlockProducer::Hostname(Hostname::new()));
    let id = BlockProducer::Separated(Separated::new(id).with_separator("@"));
    let path = BlockProducer::WorkingDirectory(WorkingDirectory::new().with_prefix(""));
    let mut info: Vec<BlockProducer> = Vec::new();
    info.push(id);
    info.push(path);
    info.push(BlockProducer::Elapsed(Elapsed::new().with_prefix("")));
    info.push(
        BlockProducer::ExitCode(
            ExitCode::new().with_style(Style::fg(crimson())).with_prefix(""),
        ),
    );
    let mut parts: Vec<BlockProducer> = Vec::new();
    parts.push(BlockProducer::Separated(Separated::new(info)));
    parts.push(BlockProducer::Newline(Newline));
    parts.push(
        BlockProducer::ExitStatusSymbol(
            ExitStatusSymbol::new("\u{2192}").with_style(Style::fg(dodgerblue())).with_error_style(
                Style::fg(crimson()),
            ),
        ),
    );
    parts.push(BlockProducer::Space(Space));
    let producer = BlockProducer::Sequence(Sequence(parts));
    BlockProducer::Styled(Styled::new(producer).with_style(Style::new().with_fg(teal())))
}

/// The minimal, statically known fallback prompt substituted when generating
/// the configured prompt fails: the non-zero exit code in crimson, a `>`
/// colored by success or failure, and a space.
pub fn fallback_prompt() -> (r: BlockProducer)
    ensures
        r matches BlockProducer::Sequence(s) && s.0@.len() == 3 && (s.0@[0]
            matches BlockProducer::ExitCode(e) && e.style@ == (SpecStyle {
            foreground: Some(SpecColor { r: 220, g: 20, b: 60, name: Some("crimson"@) }),
            background: None,
        })) && (s.0@[1] matches BlockProducer::ExitStatusSymbol(x) && x.contents@ == ">"@
            && x.style@ == (SpecStyle {
            foreground: Some(SpecColor { r: 30, g: 144, b: 255, name: Some("dodgerblue"@) }),
            background: None,
        }) && x.error_style@ == (SpecStyle {
            foreground: Some(SpecColor { r: 220, g: 20, b: 60, name: Some("crimson"@) }),
            background: None,
        })) && (s.0@[2] matches BlockProducer::Space(_)),
{
    let mut parts: Vec<BlockProducer> = Vec::new();
    parts.push(BlockProducer::ExitCode(ExitCode::new().with_style(Style::fg(crimson()))));
    parts.push(
        BlockProducer::ExitStatusSymbol(
            ExitStatusSymbol::new(">").with_style(Style::fg(dodgerblue())).with_error_style(
                Style::fg(crimson()),
            ),
        ),
    );
    parts.push(BlockProducer::Space(Space));
    BlockProducer::Sequence(Sequence(parts))
}

} // verus!

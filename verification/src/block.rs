use crate::env::Environment;
use crate::style::{spec_no_style, spec_style_or, SpecStyle, Style};
use vstd::prelude::*;

pub mod elapsed;
pub mod exit_code;
pub mod exit_status_symbol;
pub mod git_head;
pub mod git_path;
pub mod hostname;
pub mod newline;
pub mod or;
pub mod pwd;
pub mod separated;
pub mod sequence;
pub mod space;
pub mod styled;
pub mod text;
pub mod username;

pub use elapsed::Elapsed;
pub use exit_code::ExitCode;
pub use exit_status_symbol::ExitStatusSymbol;
pub use git_head::GitHead;
pub use git_path::GitPath;
pub use hostname::Hostname;
pub use newline::Newline;
pub use or::Or;
pub use pwd::WorkingDirectory;
pub use separated::Separated;
pub use sequence::Sequence;
pub use space::Space;
pub use styled::Styled;
pub use text::Text;
pub use username::Username;

verus! {

/// The mathematical value of a block: its text and its (possibly still
/// inheriting) style.
pub struct SpecBlock {
    pub text: Seq<char>,
    pub style: SpecStyle,
}

/// A styled text fragment: one piece of the final prompt.
#[derive(Debug)]
pub struct Block {
    pub text: String,
    pub style: Style,
}

impl View for Block {
    type V = SpecBlock;

    open spec fn view(&self) -> SpecBlock {
        SpecBlock { text: self.text@, style: self.style@ }
    }
}

impl DeepView for Block {
    type V = SpecBlock;

    open spec fn deep_view(&self) -> SpecBlock {
        self.view()
    }
}

impl Block {
    /// A block with the given text and a fully inherited style.
    pub fn new(text: &str) -> (r: Block)
        ensures
            r@ == (SpecBlock { text: text@, style: spec_no_style() }),
    {
        Block { text: String::from_str(text), style: Style::new() }
    }

    pub fn with_style(self, style: Style) -> (r: Block)
        ensures
            r@ == (SpecBlock { text: self.text@, style: style@ }),
    {
        Block { style, ..self }
    }

    /// An owned copy with the same value.
    pub fn duplicate(&self) -> (r: Block)
        ensures
            r@ == self@,
    {
        Block { text: self.text.clone(), style: self.style.duplicate() }
    }
}

/// A producer of prompt blocks: the closed set of leaf producers and
/// combinators a prompt is configured from. Producers are immutable
/// configuration values; evaluation is a pure function of the producer and
/// the environment ([`spec_produce`]).
#[derive(Debug)]
pub enum BlockProducer {
    Elapsed(Elapsed),
    ExitCode(ExitCode),
    GitHead(GitHead),
    GitPath(GitPath),
    Hostname(Hostname),
    WorkingDirectory(WorkingDirectory),
    Username(Username),
    Newline(Newline),
    Space(Space),
    Text(Text),
    ExitStatusSymbol(ExitStatusSymbol),
    Or(Or),
    Sequence(Sequence),
    Separated(Separated),
    Styled(Styled),
}

/// The blocks a producer yields for an environment.
pub open spec fn spec_produce(p: BlockProducer, env: Environment) -> Seq<SpecBlock>
    decreases p,
{
    match p {
        BlockProducer::Elapsed(e) => elapsed::spec_blocks(e, env),
        BlockProducer::ExitCode(e) => exit_code::spec_blocks(e, env),
        BlockProducer::GitHead(g) => git_head::spec_blocks(g, env),
        BlockProducer::GitPath(g) => git_path::spec_blocks(g, env),
        BlockProducer::Hostname(h) => hostname::spec_blocks(h, env),
        BlockProducer::WorkingDirectory(w) => pwd::spec_blocks(w, env),
        BlockProducer::Username(u) => username::spec_blocks(u, env),
        BlockProducer::Newline(n) => newline::spec_blocks(n, env),
        BlockProducer::Space(s) => space::spec_blocks(s, env),
        BlockProducer::Text(t) => text::spec_blocks(t, env),
        BlockProducer::ExitStatusSymbol(s) => exit_status_symbol::spec_blocks(s, env),
        BlockProducer::Or(o) => spec_or_produce(o.0@, env),
        BlockProducer::Sequence(s) => spec_sequence_produce(s.0@, env),
        BlockProducer::Separated(s) => spec_separated_from(
            s.producers@,
            separated::spec_separator_block(s),
            env,
            false,
        ),
        BlockProducer::Styled(s) => spec_styled_blocks(spec_produce(*s.producer, env), s.style@),
    }
}

/// First-non-empty choice: the result of the first producer whose result is
/// non-empty, or nothing if every result is empty.
pub open spec fn spec_or_produce(ps: Seq<BlockProducer>, env: Environment) -> Seq<SpecBlock>
    decreases ps,
{
    if ps.len() == 0 {
        Seq::<SpecBlock>::empty()
    } else {
        let first = spec_produce(ps[0], env);
        if first.len() > 0 {
            first
        } else {
            spec_or_produce(ps.drop_first(), env)
        }
    }
}

/// Ordered concatenation: empty results contribute nothing.
pub open spec fn spec_sequence_produce(ps: Seq<BlockProducer>, env: Environment) -> Seq<SpecBlock>
    decreases ps,
{
    if ps.len() == 0 {
        Seq::<SpecBlock>::empty()
    } else {
        spec_produce(ps[0], env) + spec_sequence_produce(ps.drop_first(), env)
    }
}

/// Separator interleaving, scanning left to right: `prev` records whether
/// anything non-empty came before, and one separator block stands between
/// consecutive non-empty results — never before the first, after the last,
/// or next to an empty result.
pub open spec fn spec_separated_from(
    ps: Seq<BlockProducer>,
    sep: SpecBlock,
    env: Environment,
    prev: bool,
) -> Seq<SpecBlock>
    decreases ps,
{
    if ps.len() == 0 {
        Seq::<SpecBlock>::empty()
    } else {
        let here = spec_produce(ps[0], env);
        let lead = if prev && here.len() > 0 {
            seq![sep]
        } else {
            Seq::<SpecBlock>::empty()
        };
        lead + here + spec_separated_from(ps.drop_first(), sep, env, prev || here.len() > 0)
    }
}

/// Style-default overlay: every block keeps its own style components and
/// inherits the default's where its own are absent.
pub open spec fn spec_styled_blocks(blocks: Seq<SpecBlock>, style: SpecStyle) -> Seq<SpecBlock> {
    blocks.map_values(
        |b: SpecBlock| SpecBlock { text: b.text, style: spec_style_or(b.style, style) },
    )
}

/// A first-non-empty choice none of whose children produce blocks produces
/// none.
pub proof fn lemma_or_all_empty(ps: Seq<BlockProducer>, env: Environment)
    requires
        forall|i: int| 0 <= i < ps.len() ==> (#[trigger] spec_produce(ps[i], env)).len() == 0,
    ensures
        spec_or_produce(ps, env).len() == 0,
    decreases ps.len(),
{
    if ps.len() > 0 {
        assert(spec_produce(ps[0], env).len() == 0);
        let rest = ps.drop_first();
        assert forall|i: int| 0 <= i < rest.len() implies (#[trigger] spec_produce(
            rest[i],
            env,
        )).len() == 0 by {
            assert(rest[i] == ps[i + 1]);
        }
        lemma_or_all_empty(rest, env);
    }
}

/// A concatenation none of whose children produce blocks produces none.
pub proof fn lemma_sequence_all_empty(ps: Seq<BlockProducer>, env: Environment)
    requires
        forall|i: int| 0 <= i < ps.len() ==> (#[trigger] spec_produce(ps[i], env)).len() == 0,
    ensures
        spec_sequence_produce(ps, env).len() == 0,
    decreases ps.len(),
{
    if ps.len() > 0 {
        assert(spec_produce(ps[0], env).len() == 0);
        let rest = ps.drop_first();
        assert forall|i: int| 0 <= i < rest.len() implies (#[trigger] spec_produce(
            rest[i],
            env,
        )).len() == 0 by {
            assert(rest[i] == ps[i + 1]);
        }
        lemma_sequence_all_empty(rest, env);
    }
}

/// A separation none of whose children produce blocks produces none — in
/// particular, no stray separator appears, whatever came before it.
pub proof fn lemma_separated_all_empty(
    ps: Seq<BlockProducer>,
    sep: SpecBlock,
    env: Environment,
    prev: bool,
)
    requires
        forall|i: int| 0 <= i < ps.len() ==> (#[trigger] spec_produce(ps[i], env)).len() == 0,
    ensures
        spec_separated_from(ps, sep, env, prev).len() == 0,
    decreases ps.len(),
{
    if ps.len() > 0 {
        assert(spec_produce(ps[0], env).len() == 0);
        let rest = ps.drop_first();
        assert forall|i: int| 0 <= i < rest.len() implies (#[trigger] spec_produce(
            rest[i],
            env,
        )).len() == 0 by {
            assert(rest[i] == ps[i + 1]);
        }
        lemma_separated_all_empty(rest, sep, env, prev);
    }
}

/// A combinator none of whose children produce blocks produces none: no
/// stray separators or newlines appear around empty results.
pub proof fn lemma_empty_children_give_empty(p: BlockProducer, env: Environment)
    requires
        match p {
            BlockProducer::Or(o) => forall|i: int|
                0 <= i < o.0@.len() ==> (#[trigger] spec_produce(o.0@[i], env)).len() == 0,
            BlockProducer::Sequence(s) => forall|i: int|
                0 <= i < s.0@.len() ==> (#[trigger] spec_produce(s.0@[i], env)).len() == 0,
            BlockProducer::Separated(s) => forall|i: int|
                0 <= i < s.producers@.len() ==> (#[trigger] spec_produce(s.producers@[i],
                env)).len() == 0,
            BlockProducer::Styled(s) => spec_produce(*s.producer, env).len() == 0,
            _ => false,
        },
    ensures
        spec_produce(p, env).len() == 0,
{
    match p {
        BlockProducer::Or(o) => lemma_or_all_empty(o.0@, env),
        BlockProducer::Sequence(s) => lemma_sequence_all_empty(s.0@, env),
        BlockProducer::Separated(s) => lemma_separated_all_empty(
            s.producers@,
            separated::spec_separator_block(s),
            env,
            false,
        ),
        BlockProducer::Styled(_) => {},
        _ => {},
    }
}

/// First-non-empty choice selects, never merges: with the first result
/// empty, the choice of two is exactly the second result; with the first
/// result non-empty it is exactly the first, whatever the second yields.
pub proof fn lemma_or_first_match(a: BlockProducer, b: BlockProducer, env: Environment)
    ensures
        spec_produce(a, env).len() == 0 ==> spec_or_produce(seq![a, b], env) == spec_produce(
            b,
            env,
        ),
        spec_produce(a, env).len() > 0 ==> spec_or_produce(seq![a, b], env) == spec_produce(
            a,
            env,
        ),
{
    reveal_with_fuel(spec_or_produce, 3);
    let ps = seq![a, b];
    assert(ps[0] == a);
    assert(ps.drop_first() =~= seq![b]);
    assert(seq![b][0] == b);
    assert(seq![b].drop_first() =~= Seq::<BlockProducer>::empty());
    if spec_produce(a, env).len() == 0 && spec_produce(b, env).len() == 0 {
        assert(spec_or_produce(ps, env) =~= spec_produce(b, env));
    }
}

/// Separation skips empty children: with the outer two children non-empty
/// and the middle one empty, exactly one separator stands between the outer
/// results — none next to the empty child.
pub proof fn lemma_separated_skips_empty(
    a: BlockProducer,
    b: BlockProducer,
    c: BlockProducer,
    sep: SpecBlock,
    env: Environment,
)
    requires
        spec_produce(a, env).len() > 0,
        spec_produce(b, env).len() == 0,
        spec_produce(c, env).len() > 0,
    ensures
        spec_separated_from(seq![a, b, c], sep, env, false) == spec_produce(a, env) + seq![sep]
            + spec_produce(c, env),
{
    reveal_with_fuel(spec_separated_from, 4);
    let ps = seq![a, b, c];
    assert(ps[0] == a);
    assert(ps.drop_first() =~= seq![b, c]);
    assert(seq![b, c][0] == b);
    assert(seq![b, c].drop_first() =~= seq![c]);
    assert(seq![c][0] == c);
    assert(seq![c].drop_first() =~= Seq::<BlockProducer>::empty());
    assert(spec_separated_from(ps, sep, env, false) =~= spec_produce(a, env) + seq![sep]
        + spec_produce(c, env));
}

/// Overlaying a default that carries both colors leaves no block with an
/// inherited channel: every resulting style is fully resolved, so a renderer
/// can diff adjacent styles purely structurally.
pub proof fn lemma_overlay_resolves_all(blocks: Seq<SpecBlock>, d: SpecStyle)
    requires
        d.foreground is Some,
        d.background is Some,
    ensures
        forall|i: int|
            0 <= i < spec_styled_blocks(blocks, d).len() ==> (#[trigger] spec_styled_blocks(
                blocks,
                d,
            )[i]).style.foreground is Some && spec_styled_blocks(blocks, d)[i].style.background
                is Some,
{
}

/// Overlay is idempotent on fully styled blocks: a block sequence whose
/// styles all carry both colors is unchanged by overlaying any default.
pub proof fn lemma_styled_idempotent_on_full(blocks: Seq<SpecBlock>, d: SpecStyle)
    requires
        forall|i: int|
            0 <= i < blocks.len() ==> (#[trigger] blocks[i]).style.foreground is Some
                && blocks[i].style.background is Some,
    ensures
        spec_styled_blocks(blocks, d) == blocks,
{
    assert forall|i: int| 0 <= i < blocks.len() implies #[trigger] spec_styled_blocks(
        blocks,
        d,
    )[i] == blocks[i] by {
        crate::style::lemma_overlay_full_style(blocks[i].style, d);
    }
    assert(spec_styled_blocks(blocks, d) =~= blocks);
}

impl BlockProducer {
    /// Evaluates the producer tree against an environment.
    pub fn produce(&self, environment: &Environment) -> (r: Vec<Block>)
        ensures
            r.deep_view() == spec_produce(*self, *environment),
        decreases *self,
    {
        match self {
            BlockProducer::Elapsed(p) => p.produce(environment),
            BlockProducer::ExitCode(p) => p.produce(environment),
            BlockProducer::GitHead(p) => p.produce(environment),
            BlockProducer::GitPath(p) => p.produce(environment),
            BlockProducer::Hostname(p) => p.produce(environment),
            BlockProducer::WorkingDirectory(p) => p.produce(environment),
            BlockProducer::Username(p) => p.produce(environment),
            BlockProducer::Newline(p) => p.produce(environment),
            BlockProducer::Space(p) => p.produce(environment),
            BlockProducer::Text(p) => p.produce(environment),
            BlockProducer::ExitStatusSymbol(p) => p.produce(environment),
            BlockProducer::Or(p) => p.produce(environment),
            BlockProducer::Sequence(p) => p.produce(environment),
            BlockProducer::Separated(p) => p.produce(environment),
            BlockProducer::Styled(p) => p.produce(environment),
        }
    }
}

} // verus!
